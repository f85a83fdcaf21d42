use sockecho::setup::{plan_cleanup, setup_verdict, CleanupAction, SetupError};

#[test]
fn absent_file_needs_no_cleanup() {
    assert!(plan_cleanup(false, false) == Ok(CleanupAction::NothingToRemove));
}

#[test]
fn stale_file_is_removed_then_bound() {
    assert!(plan_cleanup(true, false) == Ok(CleanupAction::RemoveStaleFile));
}

#[test]
fn live_listener_refuses_startup() {
    assert!(plan_cleanup(true, true) == Err(SetupError::AddressInUse));
}

#[test]
fn clean_bind_and_listen_succeed() {
    assert!(setup_verdict(false, None, false, None) == Ok(()));
    assert!(setup_verdict(true, None, false, None) == Ok(()));
}

#[test]
fn claimed_address_after_failed_removal_is_address_in_use() {
    assert!(setup_verdict(true, Some(98), true, None) == Err(SetupError::AddressInUse));
}

#[test]
fn other_bind_failures_keep_their_code() {
    assert!(setup_verdict(false, Some(13), false, None) == Err(SetupError::Bind(13)));
    assert!(setup_verdict(false, Some(98), true, None) == Err(SetupError::Bind(98)));
}

#[test]
fn listen_failure_is_its_own_case() {
    assert!(setup_verdict(false, None, false, Some(95)) == Err(SetupError::Listen(95)));
}
