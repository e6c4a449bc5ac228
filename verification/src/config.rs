//! Marshaling of host-supplied primitive values into the immutable
//! configuration handed to the tunnel engine: an order-preserving resolver
//! list, a listen target, and tunables.

use vstd::prelude::*;

use crate::codes::CODE_INVALID_RESOLVERS;
use crate::codes::CODE_RESOLVER_PARSE;
use crate::host::valid_host;

verus! {

/// Whether a resolver is queried recursively or authoritatively.
#[derive(Clone, Copy, Debug, PartialEq, Eq, Structural)]
pub enum ResolverMode {
    Recursive,
    Authoritative,
}

/// One validated resolver entry: host, port, and mode.
#[derive(Debug)]
pub struct ResolverSpec {
    pub host: String,
    pub port: u16,
    pub mode: ResolverMode,
}

/// The mathematical value of a resolver entry.
pub struct ResolverSpecV {
    pub host: Seq<char>,
    pub port: u16,
    pub mode: ResolverMode,
}

impl View for ResolverSpec {
    type V = ResolverSpecV;

    open spec fn view(&self) -> ResolverSpecV {
        ResolverSpecV { host: self.host@, port: self.port, mode: self.mode }
    }
}

impl DeepView for ResolverSpec {
    type V = ResolverSpecV;

    open spec fn deep_view(&self) -> ResolverSpecV {
        self.view()
    }
}

/// The port a resolver entry falls back to when the port array is shorter
/// than the host array.
pub const DEFAULT_RESOLVER_PORT: u16 = 53;

/// The entry assembled from position `i` of the raw arrays: the host as
/// given; the port from the port array, or the default port where that array
/// is short; authoritative where the flag array says so, recursive otherwise.
pub open spec fn spec_entry(
    hosts: Seq<Seq<char>>,
    ports: Seq<u16>,
    auths: Seq<bool>,
    i: int,
) -> ResolverSpecV {
    ResolverSpecV {
        host: hosts[i],
        port: if i < ports.len() {
            ports[i]
        } else {
            DEFAULT_RESOLVER_PORT
        },
        mode: if i < auths.len() && auths[i] {
            ResolverMode::Authoritative
        } else {
            ResolverMode::Recursive
        },
    }
}

/// Every host string in the list parses.
pub open spec fn all_hosts_valid(hosts: Seq<Seq<char>>) -> bool {
    forall|i: int| 0 <= i < hosts.len() ==> valid_host(hosts[i])
}

/// The whole resolver list assembled from the raw arrays, in the order of the
/// host array.
pub open spec fn spec_resolver_list(
    hosts: Seq<Seq<char>>,
    ports: Seq<u16>,
    auths: Seq<bool>,
) -> Seq<ResolverSpecV> {
    Seq::new(hosts.len(), |i: int| spec_entry(hosts, ports, auths, i))
}

/// Assembles the resolver list from the raw arrays.
///
/// Succeeds iff the host array is non-empty and every host string parses; the
/// result then preserves count, order and every field. An empty host array is
/// the invalid-resolver-configuration error; a host string that fails parsing
/// is the resolver-parse error.
pub fn marshal_resolvers(hosts: &Vec<String>, ports: &Vec<u16>, auths: &Vec<bool>) -> (r: Result<
    Vec<ResolverSpec>,
    i32,
>)
    ensures
        match r {
            Ok(specs) => {
                &&& hosts@.len() > 0
                &&& all_hosts_valid(hosts.deep_view())
                &&& specs.deep_view() == spec_resolver_list(hosts.deep_view(), ports@, auths@)
            },
            Err(code) => {
                if hosts@.len() == 0 {
                    code == CODE_INVALID_RESOLVERS
                } else {
                    &&& !all_hosts_valid(hosts.deep_view())
                    &&& code == CODE_RESOLVER_PARSE
                }
            },
        },
{
    let n = hosts.len();
    let mut specs: Vec<ResolverSpec> = Vec::new();
    let mut i: usize = 0;
    while i < n
        invariant
            0 <= i <= n,
            n == hosts@.len(),
            specs@.len() == i,
            forall|j: int|
                0 <= j < i ==> #[trigger] specs.deep_view()[j] == spec_entry(
                    hosts.deep_view(),
                    ports@,
                    auths@,
                    j,
                ),
            forall|j: int| 0 <= j < i ==> valid_host(hosts.deep_view()[j]),
        decreases n - i,
    {
        let host = &hosts[i];
        if !crate::host::check_host(host.as_str()) {
            proof {
                assert(hosts.deep_view()[i as int] == hosts@[i as int]@);
            }
            return Err(CODE_RESOLVER_PARSE);
        }
        let port = if i < ports.len() {
            ports[i]
        } else {
            DEFAULT_RESOLVER_PORT
        };
        let auth = if i < auths.len() {
            auths[i]
        } else {
            false
        };
        let mode = if auth {
            ResolverMode::Authoritative
        } else {
            ResolverMode::Recursive
        };
        let ghost prev = specs.deep_view();
        let entry = ResolverSpec { host: host.clone(), port, mode };
        proof {
            assert(hosts.deep_view()[i as int] == hosts@[i as int]@);
            assert(entry@ == spec_entry(hosts.deep_view(), ports@, auths@, i as int));
        }
        specs.push(entry);
        proof {
            assert(specs.deep_view() =~= prev.push(
                spec_entry(hosts.deep_view(), ports@, auths@, i as int),
            ));
        }
        i = i + 1;
    }
    if specs.is_empty() {
        return Err(CODE_INVALID_RESOLVERS);
    }
    proof {
        assert(specs.deep_view() =~= spec_resolver_list(hosts.deep_view(), ports@, auths@));
    }
    Ok(specs)
}

/// An empty congestion-control string means "no override"; a non-empty string
/// passes through verbatim.
pub fn normalize_congestion_control(s: String) -> (r: Option<String>)
    ensures
        r == if s@.len() == 0 {
            None::<String>
        } else {
            Some(s)
        },
{
    if s.as_str().is_empty() {
        None
    } else {
        Some(s)
    }
}

/// The immutable configuration a session runs with; assembled once by a start
/// request and never mutated afterwards.
pub struct ClientConfig {
    pub domain: String,
    pub listen_host: String,
    pub listen_port: u16,
    pub resolvers: Vec<ResolverSpec>,
    pub congestion_control: Option<String>,
    pub keep_alive_interval_ms: u64,
    pub gso_enabled: bool,
    pub debug_poll: bool,
    pub debug_streams: bool,
}

/// The mathematical value of a configuration.
pub struct ClientConfigV {
    pub domain: Seq<char>,
    pub listen_host: Seq<char>,
    pub listen_port: u16,
    pub resolvers: Seq<ResolverSpecV>,
    pub congestion_control: Option<Seq<char>>,
    pub keep_alive_interval_ms: u64,
    pub gso_enabled: bool,
    pub debug_poll: bool,
    pub debug_streams: bool,
}

impl View for ClientConfig {
    type V = ClientConfigV;

    open spec fn view(&self) -> ClientConfigV {
        ClientConfigV {
            domain: self.domain@,
            listen_host: self.listen_host@,
            listen_port: self.listen_port,
            resolvers: self.resolvers.deep_view(),
            congestion_control: match self.congestion_control {
                Some(s) => Some(s@),
                None => None,
            },
            keep_alive_interval_ms: self.keep_alive_interval_ms,
            gso_enabled: self.gso_enabled,
            debug_poll: self.debug_poll,
            debug_streams: self.debug_streams,
        }
    }
}

} // verus!
