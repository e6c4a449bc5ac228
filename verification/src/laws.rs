//! The guarantees the lifecycle state machine gives, stated and proved over
//! the spec-level transitions that the controller's contracts are written in.

use vstd::prelude::*;

use crate::codes::CODE_ALREADY_RUNNING;
use crate::codes::CODE_INVALID_RESOLVERS;
use crate::codes::CODE_RESOLVER_PARSE;
use crate::codes::CODE_SUCCESS;
use crate::config::all_hosts_valid;
use crate::config::spec_entry;
use crate::config::spec_resolver_list;
use crate::config::ResolverMode;
use crate::lifecycle::spec_flag_down;
use crate::lifecycle::spec_start_code;
use crate::lifecycle::spec_start_post;
use crate::lifecycle::spec_stop_begin_post;
use crate::lifecycle::ControllerV;
use crate::lifecycle::StartArgsV;

verus! {

/// A start request made while the running flag is up always comes to the
/// already-running code and changes nothing — in particular, no session is
/// claimed and no thread is spawned.
pub proof fn lemma_start_rejected_while_running(pre: ControllerV, a: StartArgsV)
    requires
        pre.running,
    ensures
        spec_start_code(pre.running, a) == CODE_ALREADY_RUNNING,
        spec_start_post(pre, a) == pre,
{
}

/// An empty resolver list always comes to the invalid-resolver-configuration
/// code and changes nothing: the flag stays down, no session is claimed.
pub proof fn lemma_start_rejected_empty_resolvers(pre: ControllerV, a: StartArgsV)
    requires
        !pre.running,
        a.resolver_hosts.len() == 0,
    ensures
        spec_start_code(pre.running, a) == CODE_INVALID_RESOLVERS,
        spec_start_post(pre, a) == pre,
{
}

/// A resolver entry whose host string fails parsing aborts the whole start
/// before any session is claimed: the resolver-parse code comes back and the
/// running flag remains down.
pub proof fn lemma_start_rejected_bad_host(pre: ControllerV, a: StartArgsV)
    requires
        !pre.running,
        a.resolver_hosts.len() > 0,
        !all_hosts_valid(a.resolver_hosts),
    ensures
        spec_start_code(pre.running, a) == CODE_RESOLVER_PARSE,
        spec_start_post(pre, a) == pre,
        !spec_start_post(pre, a).running,
{
}

/// A stop with nothing stored is a pure no-op: the controller state is
/// exactly what it was, and — since nothing was running — the flag stays
/// down.
pub proof fn lemma_stop_noop_when_idle(pre: ControllerV)
    requires
        !pre.has_session,
    ensures
        spec_stop_begin_post(pre) == pre,
{
}

/// A start that launched, followed by a stop: the stop finds the session —
/// so the shutdown goes out and the thread is joined — and once the stop is
/// through, the flag is down and the slot empty. No session survives.
pub proof fn lemma_start_then_stop_reaps(pre: ControllerV, a: StartArgsV)
    requires
        spec_start_code(pre.running, a) == CODE_SUCCESS,
    ensures
        spec_start_post(pre, a).has_session,
        spec_flag_down(spec_stop_begin_post(spec_start_post(pre, a))) == (ControllerV {
            running: false,
            has_session: false,
        }),
{
}

/// Of two start requests racing for the same controller, at most one
/// launches: serialized in either order, whichever comes second finds the
/// flag up and gets the already-running code, so exactly one session thread
/// is ever spawned.
pub proof fn lemma_at_most_one_session(pre: ControllerV, a1: StartArgsV, a2: StartArgsV)
    requires
        spec_start_code(pre.running, a1) == CODE_SUCCESS,
    ensures
        spec_start_code(spec_start_post(pre, a1).running, a2) == CODE_ALREADY_RUNNING,
        spec_start_post(spec_start_post(pre, a1), a2) == spec_start_post(pre, a1),
{
}

/// Stop is idempotent: a second stop finds the slot already empty, takes
/// nothing — so neither the shutdown sender nor the thread handle can be
/// consumed twice — and leaves the state exactly where the first stop left
/// it.
pub proof fn lemma_stop_idempotent(pre: ControllerV)
    ensures
        spec_stop_begin_post(spec_stop_begin_post(pre)) == spec_stop_begin_post(pre),
        !spec_stop_begin_post(pre).has_session,
{
}

/// Marshaling preserves the resolver list exactly: the assembled list has one
/// entry per host, in host order, each carrying its own host string, its own
/// port, and the mode its flag asked for.
pub proof fn lemma_resolver_list_exact(
    hosts: Seq<Seq<char>>,
    ports: Seq<u16>,
    auths: Seq<bool>,
    i: int,
)
    requires
        0 <= i < hosts.len(),
        hosts.len() == ports.len(),
        hosts.len() == auths.len(),
    ensures
        spec_resolver_list(hosts, ports, auths).len() == hosts.len(),
        spec_resolver_list(hosts, ports, auths)[i].host == hosts[i],
        spec_resolver_list(hosts, ports, auths)[i].port == ports[i],
        spec_resolver_list(hosts, ports, auths)[i].mode == (if auths[i] {
            ResolverMode::Authoritative
        } else {
            ResolverMode::Recursive
        }),
{
    assert(spec_resolver_list(hosts, ports, auths)[i] == spec_entry(hosts, ports, auths, i));
}

} // verus!
