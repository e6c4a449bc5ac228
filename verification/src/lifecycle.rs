//! The lifecycle controller: a state machine that owns a single optional
//! session slot and the running flag, and decides start, stop and status.
//!
//! The embedder performs what a library cannot: spawning the one dedicated
//! execution thread, sleeping out the startup grace interval, the bounded
//! wait of stop, and joining the thread. The controller makes every decision
//! and holds every single-use resource: a start request is `start_begin`,
//! which validates, flips the running flag optimistically and issues a launch
//! order, followed — after the grace interval — by `start_finish`, which
//! turns the liveness re-check into the status code. A stop request is
//! `stop_begin`, which atomically empties the slot and sends the one-shot
//! shutdown signal, followed — after the wait and the join — by
//! `stop_finish`, the forced running-flag reset. The session thread reports
//! its own exit through `on_session_exit`.

use vstd::prelude::*;

use crate::channel::send_shutdown;
use crate::channel::shutdown_channel;
use crate::codes::CODE_ALREADY_RUNNING;
use crate::codes::CODE_INVALID_RESOLVERS;
use crate::codes::CODE_RESOLVER_PARSE;
use crate::codes::CODE_STARTUP_FAILED;
use crate::codes::CODE_SUCCESS;
use crate::config::all_hosts_valid;
use crate::config::marshal_resolvers;
use crate::config::normalize_congestion_control;
use crate::config::spec_resolver_list;
use crate::config::ClientConfig;
use crate::config::ClientConfigV;

verus! {

/// The raw, host-supplied arguments of one start request, before validation.
pub struct StartArgs {
    pub domain: String,
    pub resolver_hosts: Vec<String>,
    pub resolver_ports: Vec<u16>,
    pub resolver_authoritative: Vec<bool>,
    pub listen_host: String,
    pub listen_port: u16,
    pub congestion_control: String,
    pub keep_alive_interval_ms: u64,
    pub gso_enabled: bool,
    pub debug_poll: bool,
    pub debug_streams: bool,
}

/// The mathematical value of a start request.
pub struct StartArgsV {
    pub domain: Seq<char>,
    pub resolver_hosts: Seq<Seq<char>>,
    pub resolver_ports: Seq<u16>,
    pub resolver_authoritative: Seq<bool>,
    pub listen_host: Seq<char>,
    pub listen_port: u16,
    pub congestion_control: Seq<char>,
    pub keep_alive_interval_ms: u64,
    pub gso_enabled: bool,
    pub debug_poll: bool,
    pub debug_streams: bool,
}

impl View for StartArgs {
    type V = StartArgsV;

    open spec fn view(&self) -> StartArgsV {
        StartArgsV {
            domain: self.domain@,
            resolver_hosts: self.resolver_hosts.deep_view(),
            resolver_ports: self.resolver_ports@,
            resolver_authoritative: self.resolver_authoritative@,
            listen_host: self.listen_host@,
            listen_port: self.listen_port,
            congestion_control: self.congestion_control@,
            keep_alive_interval_ms: self.keep_alive_interval_ms,
            gso_enabled: self.gso_enabled,
            debug_poll: self.debug_poll,
            debug_streams: self.debug_streams,
        }
    }
}

/// One running session's controller-side resources: the single-use shutdown
/// sender. The joinable thread handle stays with the embedder, which spawned
/// the thread; the slot that holds this value is what makes both single-use,
/// since it gives its content out at most once.
pub struct SessionHandle {
    shutdown_tx: tokio::sync::oneshot::Sender<()>,
}

/// The mathematical value of the controller: the running flag and whether the
/// session slot is occupied.
pub struct ControllerV {
    pub running: bool,
    pub has_session: bool,
}

/// The lifecycle controller: the running flag and the single session slot.
pub struct Controller {
    running: bool,
    slot: Option<SessionHandle>,
}

impl View for Controller {
    type V = ControllerV;

    closed spec fn view(&self) -> ControllerV {
        ControllerV { running: self.running, has_session: self.slot is Some }
    }
}

/// What a launched session runs with: the assembled configuration and the
/// shutdown receiver the session thread races the engine against.
pub struct LaunchOrder {
    pub config: ClientConfig,
    pub shutdown_rx: tokio::sync::oneshot::Receiver<()>,
}

/// The controller's answer to a start request.
pub enum StartBegin {
    /// The request was rejected with this status code; nothing was spawned
    /// and nothing changed.
    Rejected(i32),
    /// The session slot is filled and the flag is up: spawn one dedicated
    /// execution thread with this order, sleep out the grace interval, then
    /// ask `start_finish` for the status code.
    Launch(LaunchOrder),
}

/// The controller's answer to a stop request.
#[derive(Clone, Copy, Debug, PartialEq, Eq, Structural)]
pub enum StopAction {
    /// The slot was empty: nothing to stop, nothing changed.
    NothingRunning,
    /// The shutdown signal went out: wait, bounded by the stop ceiling, for
    /// the running flag to drop, join the session thread either way, then
    /// call `stop_finish`.
    Reap,
}

/// The fixed startup grace interval: how long the embedder sleeps between
/// `start_begin` and `start_finish` before the liveness re-check. A heuristic,
/// not a ready signal: a slower failure is misreported as success, a slower
/// start as failure.
pub const STARTUP_GRACE_MS: u64 = 100;

/// The ceiling on stop's wait for the session thread to exit on its own; once
/// it is exceeded, stop proceeds to the join anyway.
pub const STOP_WAIT_CEILING_MS: u64 = 3000;

/// How often stop re-reads the running flag while waiting out the ceiling.
pub const STOP_POLL_INTERVAL_MS: u64 = 50;

/// The status code a start request comes to, before the grace-window check:
/// already-running while the flag is up; the invalid-resolver code on an
/// empty resolver list; the resolver-parse code when some host string fails
/// parsing; success otherwise.
pub open spec fn spec_start_code(running: bool, a: StartArgsV) -> i32 {
    if running {
        CODE_ALREADY_RUNNING
    } else if a.resolver_hosts.len() == 0 {
        CODE_INVALID_RESOLVERS
    } else if !all_hosts_valid(a.resolver_hosts) {
        CODE_RESOLVER_PARSE
    } else {
        CODE_SUCCESS
    }
}

/// The controller state after a start request: flag up and slot filled on
/// success, untouched on any rejection.
pub open spec fn spec_start_post(pre: ControllerV, a: StartArgsV) -> ControllerV {
    if spec_start_code(pre.running, a) == CODE_SUCCESS {
        ControllerV { running: true, has_session: true }
    } else {
        pre
    }
}

/// The configuration assembled from a start request that passed validation.
pub open spec fn spec_config(a: StartArgsV) -> ClientConfigV {
    ClientConfigV {
        domain: a.domain,
        listen_host: a.listen_host,
        listen_port: a.listen_port,
        resolvers: spec_resolver_list(a.resolver_hosts, a.resolver_ports, a.resolver_authoritative),
        congestion_control: if a.congestion_control.len() == 0 {
            None
        } else {
            Some(a.congestion_control)
        },
        keep_alive_interval_ms: a.keep_alive_interval_ms,
        gso_enabled: a.gso_enabled,
        debug_poll: a.debug_poll,
        debug_streams: a.debug_streams,
    }
}

/// The grace-window liveness answer: success while the flag is still up, the
/// startup-failure code once the session thread has already exited.
pub open spec fn spec_start_finish_code(running: bool) -> i32 {
    if running {
        CODE_SUCCESS
    } else {
        CODE_STARTUP_FAILED
    }
}

/// The controller state after `stop_begin`: the slot is empty; the flag is
/// untouched until the wait and the join are over.
pub open spec fn spec_stop_begin_post(pre: ControllerV) -> ControllerV {
    ControllerV { running: pre.running, has_session: false }
}

/// The controller state after `stop_finish` or a session thread's own exit:
/// the flag is down, the slot untouched.
pub open spec fn spec_flag_down(pre: ControllerV) -> ControllerV {
    ControllerV { running: false, has_session: pre.has_session }
}

impl Controller {
    /// A fresh controller: flag down, slot empty.
    pub fn new() -> (r: Controller)
        ensures
            r@ == (ControllerV { running: false, has_session: false }),
    {
        Controller { running: false, slot: None }
    }

    /// Lock-free read of the running flag; no side effects.
    pub fn status(&self) -> (r: bool)
        ensures
            r == self@.running,
    {
        self.running
    }

    /// Validates a start request and, if it passes, claims the session: the
    /// running flag goes up before any thread exists — closing the window in
    /// which two racing starts could both succeed — the slot takes the
    /// shutdown sender, and the launch order for the one execution thread
    /// comes back. Any rejection leaves the controller exactly as it was.
    pub fn start_begin(&mut self, args: StartArgs) -> (r: StartBegin)
        ensures
            final(self)@ == spec_start_post(old(self)@, args@),
            match r {
                StartBegin::Rejected(code) => {
                    &&& code == spec_start_code(old(self)@.running, args@)
                    &&& code != CODE_SUCCESS
                    &&& *final(self) == *old(self)
                },
                StartBegin::Launch(order) => {
                    &&& spec_start_code(old(self)@.running, args@) == CODE_SUCCESS
                    &&& order.config@ == spec_config(args@)
                },
            },
    {
        if self.running {
            return StartBegin::Rejected(CODE_ALREADY_RUNNING);
        }
        let StartArgs {
            domain,
            resolver_hosts,
            resolver_ports,
            resolver_authoritative,
            listen_host,
            listen_port,
            congestion_control,
            keep_alive_interval_ms,
            gso_enabled,
            debug_poll,
            debug_streams,
        } = args;
        let resolvers = match marshal_resolvers(
            &resolver_hosts,
            &resolver_ports,
            &resolver_authoritative,
        ) {
            Ok(list) => list,
            Err(code) => {
                return StartBegin::Rejected(code);
            },
        };
        let congestion = normalize_congestion_control(congestion_control);
        let config = ClientConfig {
            domain,
            listen_host,
            listen_port,
            resolvers,
            congestion_control: congestion,
            keep_alive_interval_ms,
            gso_enabled,
            debug_poll,
            debug_streams,
        };
        proof {
            assert(config@ =~= spec_config(args@));
        }
        let (shutdown_tx, shutdown_rx) = shutdown_channel();
        self.running = true;
        self.slot = Some(SessionHandle { shutdown_tx });
        StartBegin::Launch(LaunchOrder { config, shutdown_rx })
    }

    /// The grace-window liveness re-check, made after the fixed startup
    /// interval: a flag still up is success; a flag already down means the
    /// session thread exited at once, an immediate startup failure.
    pub fn start_finish(&self) -> (r: i32)
        ensures
            r == spec_start_finish_code(self@.running),
    {
        if self.running {
            CODE_SUCCESS
        } else {
            CODE_STARTUP_FAILED
        }
    }

    /// Empties the session slot atomically — a racing second stop finds
    /// nothing and becomes a no-op — and sends the one-shot shutdown signal,
    /// which a session that already finished naturally simply ignores. With
    /// an empty slot this is a pure no-op: nothing is consumed, nothing
    /// changes, nothing raises.
    pub fn stop_begin(&mut self) -> (r: StopAction)
        ensures
            final(self)@ == spec_stop_begin_post(old(self)@),
            r == (if old(self)@.has_session {
                StopAction::Reap
            } else {
                StopAction::NothingRunning
            }),
            !old(self)@.has_session ==> *final(self) == *old(self),
    {
        let mut taken: Option<SessionHandle> = None;
        core::mem::swap(&mut self.slot, &mut taken);
        match taken {
            None => StopAction::NothingRunning,
            Some(handle) => {
                let SessionHandle { shutdown_tx } = handle;
                send_shutdown(shutdown_tx);
                StopAction::Reap
            },
        }
    }

    /// The safety net at the end of a stop: forces the running flag down,
    /// whether the bounded wait saw the session thread exit or timed out.
    pub fn stop_finish(&mut self)
        ensures
            final(self)@ == spec_flag_down(old(self)@),
    {
        self.running = false;
    }

    /// The session thread's own exit: whichever of the engine and the
    /// shutdown signal resolved first, the thread drops the flag on its way
    /// out.
    pub fn on_session_exit(&mut self)
        ensures
            final(self)@ == spec_flag_down(old(self)@),
    {
        self.running = false;
    }
}

} // verus!
