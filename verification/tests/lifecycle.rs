use slipstream_bridge::codes::CODE_ALREADY_RUNNING;
use slipstream_bridge::codes::CODE_INVALID_RESOLVERS;
use slipstream_bridge::codes::CODE_RESOLVER_PARSE;
use slipstream_bridge::codes::CODE_STARTUP_FAILED;
use slipstream_bridge::codes::CODE_SUCCESS;
use slipstream_bridge::lifecycle::Controller;
use slipstream_bridge::lifecycle::StartArgs;
use slipstream_bridge::lifecycle::StartBegin;
use slipstream_bridge::lifecycle::StopAction;

fn args(hosts: Vec<&str>, ports: Vec<u16>, auth: Vec<bool>) -> StartArgs {
    StartArgs {
        domain: String::from("tunnel.example"),
        resolver_hosts: hosts.into_iter().map(String::from).collect(),
        resolver_ports: ports,
        resolver_authoritative: auth,
        listen_host: String::from("127.0.0.1"),
        listen_port: 1080,
        congestion_control: String::new(),
        keep_alive_interval_ms: 25000,
        gso_enabled: false,
        debug_poll: false,
        debug_streams: false,
    }
}

#[test]
fn fresh_controller_is_idle() {
    let c = Controller::new();
    assert!(!c.status());
}

#[test]
fn start_while_running_returns_already_running() {
    let mut c = Controller::new();
    let first = c.start_begin(args(vec!["1.1.1.1"], vec![53], vec![false]));
    assert!(matches!(first, StartBegin::Launch(_)));
    assert!(c.status());
    // The racing second start finds the flag already up: rejected, no second
    // session, state untouched.
    let second = c.start_begin(args(vec!["8.8.8.8"], vec![53], vec![false]));
    match second {
        StartBegin::Rejected(code) => assert_eq!(code, CODE_ALREADY_RUNNING),
        StartBegin::Launch(_) => panic!("second start must not launch"),
    }
    assert!(c.status());
}

#[test]
fn empty_resolver_list_is_rejected() {
    let mut c = Controller::new();
    let r = c.start_begin(args(vec![], vec![], vec![]));
    match r {
        StartBegin::Rejected(code) => assert_eq!(code, CODE_INVALID_RESOLVERS),
        StartBegin::Launch(_) => panic!("empty resolver list must not launch"),
    }
    assert!(!c.status());
}

#[test]
fn bad_resolver_host_aborts_start() {
    let mut c = Controller::new();
    let r = c.start_begin(args(vec!["8.8.8.8", "not a host!"], vec![53, 53], vec![false, false]));
    match r {
        StartBegin::Rejected(code) => assert_eq!(code, CODE_RESOLVER_PARSE),
        StartBegin::Launch(_) => panic!("unparsable host must not launch"),
    }
    assert!(!c.status());
}

#[test]
fn stop_with_nothing_running_is_noop() {
    let mut c = Controller::new();
    let action = c.stop_begin();
    assert_eq!(action, StopAction::NothingRunning);
    assert!(!c.status());
    c.stop_finish();
    assert!(!c.status());
}

#[test]
fn start_then_stop_reaps_the_session() {
    let mut c = Controller::new();
    let begun = c.start_begin(args(vec!["1.1.1.1"], vec![53], vec![false]));
    let order = match begun {
        StartBegin::Launch(order) => order,
        StartBegin::Rejected(code) => panic!("start rejected: {}", code),
    };
    assert_eq!(c.start_finish(), CODE_SUCCESS);
    assert!(c.status());

    let mut rx = order.shutdown_rx;
    let action = c.stop_begin();
    assert_eq!(action, StopAction::Reap);
    // The one-shot shutdown signal really went out on the session's receiver.
    assert!(rx.try_recv().is_ok());
    c.stop_finish();
    assert!(!c.status());

    // A second stop finds the slot already empty and is a no-op.
    let again = c.stop_begin();
    assert_eq!(again, StopAction::NothingRunning);
    assert!(!c.status());
}

#[test]
fn immediate_session_exit_fails_the_grace_check() {
    let mut c = Controller::new();
    let begun = c.start_begin(args(vec!["9.9.9.9"], vec![853], vec![true]));
    assert!(matches!(begun, StartBegin::Launch(_)));
    // The session thread exits at once, dropping the flag inside the grace
    // window: the liveness re-check reports a startup failure.
    c.on_session_exit();
    assert_eq!(c.start_finish(), CODE_STARTUP_FAILED);
    assert!(!c.status());
}

#[test]
fn natural_exit_ignores_late_shutdown_signal() {
    let mut c = Controller::new();
    let begun = c.start_begin(args(vec!["1.1.1.1"], vec![53], vec![false]));
    let order = match begun {
        StartBegin::Launch(order) => order,
        StartBegin::Rejected(code) => panic!("start rejected: {}", code),
    };
    // The session finishes naturally: its receiver is gone before stop sends.
    drop(order.shutdown_rx);
    c.on_session_exit();
    assert!(!c.status());
    let action = c.stop_begin();
    assert_eq!(action, StopAction::Reap);
    c.stop_finish();
    assert!(!c.status());
}

#[test]
fn full_scenario_start_status_stop() {
    let mut c = Controller::new();
    let begun = c.start_begin(StartArgs {
        domain: String::from("tunnel.example"),
        resolver_hosts: vec![String::from("1.1.1.1")],
        resolver_ports: vec![53],
        resolver_authoritative: vec![false],
        listen_host: String::from("127.0.0.1"),
        listen_port: 1080,
        congestion_control: String::new(),
        keep_alive_interval_ms: 25000,
        gso_enabled: false,
        debug_poll: false,
        debug_streams: false,
    });
    let order = match begun {
        StartBegin::Launch(order) => order,
        StartBegin::Rejected(code) => panic!("start rejected: {}", code),
    };
    assert_eq!(order.config.domain, "tunnel.example");
    assert_eq!(order.config.listen_host, "127.0.0.1");
    assert_eq!(order.config.listen_port, 1080);
    assert_eq!(order.config.resolvers.len(), 1);
    assert_eq!(order.config.resolvers[0].host, "1.1.1.1");
    assert_eq!(order.config.resolvers[0].port, 53);
    assert!(order.config.congestion_control.is_none());
    assert_eq!(order.config.keep_alive_interval_ms, 25000);
    assert!(!order.config.gso_enabled);
    assert!(!order.config.debug_poll);
    assert!(!order.config.debug_streams);
    // The engine stays up through the grace window: start reports success and
    // the status read says running until stop.
    assert_eq!(c.start_finish(), CODE_SUCCESS);
    assert!(c.status());
    assert_eq!(c.stop_begin(), StopAction::Reap);
    c.stop_finish();
    assert!(!c.status());
    assert_eq!(c.stop_begin(), StopAction::NothingRunning);
}
