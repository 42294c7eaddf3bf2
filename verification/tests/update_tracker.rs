use ness_relay::update::tracker::{
    clear_pending_update, default_state_path, get_current_timestamp, mark_check_completed, mark_check_completed_at,
    mark_update_completed, mark_update_completed_at, mark_update_failed, mark_update_pending, mark_update_pending_at,
    should_check_at, should_check_now, UpdateState, MAX_FAILED_ATTEMPTS,
};

#[test]
fn test_should_check_now_first_time() {
    let state = UpdateState::default();
    assert!(should_check_now(&state, Some(24)));
}

#[test]
fn test_should_check_now_not_yet() {
    let mut state = UpdateState::default();
    state.last_check_timestamp = get_current_timestamp() - 3600;
    assert!(!should_check_now(&state, Some(24)));
}

#[test]
fn test_should_check_now_interval_passed() {
    let mut state = UpdateState::default();
    state.last_check_timestamp = get_current_timestamp() - (26 * 3600);
    assert!(should_check_now(&state, Some(24)));
}

#[test]
fn test_mark_check_completed() {
    let mut state = UpdateState::default();
    mark_check_completed(&mut state);
    assert!(state.last_check_timestamp > 0);
    assert_eq!(state.failed_attempts, 0);
}

#[test]
fn test_mark_update_pending() {
    let mut state = UpdateState::default();
    mark_update_pending(&mut state, "2.1.0".to_string());
    assert!(state.pending_update);
    assert_eq!(state.pending_version, Some("2.1.0".to_string()));
}

#[test]
fn test_mark_update_failed_retry_logic() {
    let mut state = UpdateState::default();
    state.pending_update = true;

    mark_update_failed(&mut state, "Error 1".to_string());
    assert!(state.pending_update);
    assert_eq!(state.failed_attempts, 1);

    mark_update_failed(&mut state, "Error 2".to_string());
    assert!(state.pending_update);
    assert_eq!(state.failed_attempts, 2);

    mark_update_failed(&mut state, "Error 3".to_string());
    assert!(!state.pending_update);
    assert_eq!(state.failed_attempts, 3);
}

#[test]
fn default_state_is_empty() {
    let state = UpdateState::default();
    assert_eq!(state.last_check_timestamp, 0);
    assert_eq!(state.last_successful_update, None);
    assert!(!state.pending_update);
    assert_eq!(state.pending_version, None);
    assert_eq!(state.failed_attempts, 0);
    assert_eq!(state.last_error, None);
    assert_eq!(MAX_FAILED_ATTEMPTS, 3);
}

#[test]
fn check_schedule_boundary() {
    let mut state = UpdateState::default();
    mark_check_completed_at(&mut state, 1_000_000);
    assert_eq!(state.last_check_timestamp, 1_000_000);
    // exactly one interval later the check is due, one second before it is not
    assert!(!should_check_at(&state, Some(24), 1_000_000 + 24 * 3600 - 1));
    assert!(should_check_at(&state, Some(24), 1_000_000 + 24 * 3600));
    // default interval is 24 hours
    assert!(!should_check_at(&state, None, 1_000_000 + 3600));
    assert!(should_check_at(&state, None, 1_000_000 + 24 * 3600));
    // a clock that went back counts as no time passed
    assert!(!should_check_at(&state, Some(1), 10));
}

#[test]
fn pending_then_completed() {
    let mut state = UpdateState::default();
    mark_update_pending_at(&mut state, "2.1.0".to_string(), 500);
    assert_eq!(state.pending_marked_at, Some(500));
    mark_update_completed_at(&mut state, 900);
    assert!(!state.pending_update);
    assert_eq!(state.pending_version, None);
    assert_eq!(state.last_successful_update, Some(900));
    assert_eq!(state.failed_attempts, 0);
}

#[test]
fn clear_pending_resets_failures() {
    let mut state = UpdateState::default();
    mark_update_pending_at(&mut state, "3.0.0".to_string(), 10);
    mark_update_failed(&mut state, "boom".to_string());
    clear_pending_update(&mut state);
    assert!(!state.pending_update);
    assert_eq!(state.pending_version, None);
    assert_eq!(state.pending_marked_at, None);
    assert_eq!(state.failed_attempts, 0);
    assert_eq!(state.last_error, None);
}

#[test]
fn mark_update_completed_clears_pending_state() {
    let mut state = UpdateState::default();
    mark_update_pending(&mut state, "2.1.0".to_string());
    mark_update_failed(&mut state, "boom".to_string());
    mark_update_completed(&mut state);
    assert!(state.last_successful_update.is_some());
    assert!(!state.pending_update);
    assert_eq!(state.pending_version, None);
    assert_eq!(state.failed_attempts, 0);
    assert_eq!(state.last_error, None);
}

#[test]
fn default_state_path_is_in_tmp() {
    assert_eq!(default_state_path(), "/tmp/ness_relay_update_state.json");
}
