use slipstream_bridge::protect::fold_protect_outcome;
use slipstream_bridge::protect::protect_precheck;
use slipstream_bridge::protect::ProtectOutcome;
use slipstream_bridge::registry::Registry;

#[test]
fn protect_before_initialization_is_denied() {
    let reg = Registry::new();
    assert!(!protect_precheck(&reg));
}

#[test]
fn protect_needs_both_handle_and_target() {
    let mut reg = Registry::new();
    reg.record_handle(0x1000);
    assert!(!protect_precheck(&reg));
    reg.record_callback_target(0x2000);
    assert!(protect_precheck(&reg));
}

#[test]
fn registry_first_write_wins() {
    let mut reg = Registry::new();
    assert_eq!(reg.get_handle(), None);
    assert_eq!(reg.get_callback_target(), None);
    reg.record_handle(7);
    reg.record_handle(9);
    assert_eq!(reg.get_handle(), Some(7));
    reg.record_callback_target(11);
    reg.record_callback_target(13);
    assert_eq!(reg.get_callback_target(), Some(11));
}

#[test]
fn every_failure_path_folds_to_false() {
    assert!(!fold_protect_outcome(ProtectOutcome::AttachFailed));
    assert!(!fold_protect_outcome(ProtectOutcome::InvokeFailed));
    assert!(!fold_protect_outcome(ProtectOutcome::ConversionFailed));
    assert!(!fold_protect_outcome(ProtectOutcome::Returned(false)));
    assert!(fold_protect_outcome(ProtectOutcome::Returned(true)));
}
