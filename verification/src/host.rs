//! Validation of resolver host strings.
//!
//! A resolver entry names its target as a host string plus a port. The host
//! string must look like an address or a name: non-empty, within the DNS name
//! length ceiling, and made only of characters that can occur in an IPv4
//! address, an IPv6 literal (possibly bracketed, possibly with a zone index),
//! or a hostname. Anything else fails parsing and aborts the whole start.

use vstd::prelude::*;

verus! {

/// The longest host string accepted, the DNS name length ceiling.
pub const MAX_HOST_LEN: usize = 253;

/// A character that may occur in a host string: letters, digits, and the
/// punctuation of dotted quads, hostnames and IPv6 literals.
pub open spec fn valid_host_char(c: char) -> bool {
    ('a' <= c && c <= 'z') || ('A' <= c && c <= 'Z') || ('0' <= c && c <= '9') || c == '.' || c
        == '-' || c == ':' || c == '[' || c == ']' || c == '%'
}

/// A host string parses iff it is non-empty, no longer than the ceiling, and
/// every character is admissible.
pub open spec fn valid_host(s: Seq<char>) -> bool {
    &&& 1 <= s.len() <= MAX_HOST_LEN
    &&& forall|i: int| 0 <= i < s.len() ==> valid_host_char(s[i])
}

/// Decides whether a host string parses.
pub fn check_host(s: &str) -> (r: bool)
    ensures
        r == valid_host(s@),
{
    let n = s.unicode_len();
    if n == 0 || n > MAX_HOST_LEN {
        return false;
    }
    let mut i: usize = 0;
    while i < n
        invariant
            0 <= i <= n,
            n == s@.len(),
            1 <= n <= MAX_HOST_LEN,
            forall|j: int| 0 <= j < i ==> valid_host_char(s@[j]),
        decreases n - i,
    {
        let c = s.get_char(i);
        let ok = ('a' <= c && c <= 'z') || ('A' <= c && c <= 'Z') || ('0' <= c && c <= '9') || c
            == '.' || c == '-' || c == ':' || c == '[' || c == ']' || c == '%';
        if !ok {
            return false;
        }
        i = i + 1;
    }
    true
}

} // verus!
