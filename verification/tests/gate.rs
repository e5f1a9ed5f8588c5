use wallcycler::time::{enough_time_between_changes, ChangeGate};

#[test]
fn interval_zero_always_allows_without_state_change() {
    let mut gate = ChangeGate::new();
    gate.set_minute_last_changed(37);
    for minute in 0..60u32 {
        assert!(gate.permit(minute, 0));
        assert_eq!(gate.get_minute_last_changed(), 37);
    }
}

#[test]
fn new_gate_starts_at_zero() {
    let gate = ChangeGate::new();
    assert_eq!(gate.get_minute_last_changed(), 0);
}

#[test]
fn accepted_change_records_minute_and_denies_within_interval() {
    let mut gate = ChangeGate::new();
    assert!(gate.permit(10, 5));
    assert_eq!(gate.get_minute_last_changed(), 10);
    for minute in 11..15u32 {
        assert!(!gate.permit(minute, 5));
        assert_eq!(gate.get_minute_last_changed(), 10);
    }
    assert!(gate.permit(15, 5));
    assert_eq!(gate.get_minute_last_changed(), 15);
}

#[test]
fn denial_leaves_state_untouched() {
    let mut gate = ChangeGate::new();
    gate.set_minute_last_changed(30);
    assert!(!gate.permit(32, 5));
    assert_eq!(gate.get_minute_last_changed(), 30);
}

#[test]
fn wraparound_just_after_hour_is_denied() {
    let mut gate = ChangeGate::new();
    gate.set_minute_last_changed(59);
    assert!(!gate.permit(1, 5));
}

#[test]
fn wraparound_at_interval_boundary_is_denied() {
    // last = 58, now = 3: the wraparound correction pulls the last change back
    // to -1, and -1 + 5 > 3, so the change is still one minute too soon.
    let mut gate = ChangeGate::new();
    gate.set_minute_last_changed(58);
    assert!(!gate.permit(3, 5));
    assert!(gate.permit(4, 5));
}

#[test]
fn same_hour_interval_elapsed_is_accepted() {
    let mut gate = ChangeGate::new();
    gate.set_minute_last_changed(50);
    assert!(gate.permit(55, 5));
}

#[test]
fn same_hour_well_past_interval_is_accepted() {
    let mut gate = ChangeGate::new();
    gate.set_minute_last_changed(50);
    assert!(gate.permit(58, 5));
}

#[test]
fn sixty_minute_interval_never_fires_within_the_hour() {
    for minute in 0..60u32 {
        let mut gate = ChangeGate::new();
        assert!(!gate.permit(minute, 60));
        assert_eq!(gate.get_minute_last_changed(), 0);
    }
}

#[test]
fn clocked_gate_with_interval_zero_always_allows() {
    let mut gate = ChangeGate::new();
    gate.set_minute_last_changed(12);
    assert!(enough_time_between_changes(&mut gate, 0));
    assert_eq!(gate.get_minute_last_changed(), 12);
}

#[test]
fn clocked_gate_with_unreachable_interval_always_denies() {
    // With the last change at minute 0 and a 60-minute interval, no minute of
    // the hour satisfies the throttle, whatever the clock reports.
    let mut gate = ChangeGate::new();
    assert!(!enough_time_between_changes(&mut gate, 60));
    assert_eq!(gate.get_minute_last_changed(), 0);
}
