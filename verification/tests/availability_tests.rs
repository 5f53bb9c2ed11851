use streamdeck_ctrl::system::availability::RetryableAvailability;
use streamdeck_ctrl::util::format_percent3;

#[test]
fn backoff_window_refuses_then_grants_exactly_once() {
    let mut tracker = RetryableAvailability::new(true, 10);
    assert_eq!(tracker.try_acquire_at(50), (true, false));

    assert!(tracker.mark_unavailable_at(100));
    assert!(!tracker.current());

    // Any time before the deadline is refused without side effects.
    assert_eq!(tracker.try_acquire_at(100), (false, false));
    assert_eq!(tracker.try_acquire_at(105), (false, false));
    assert_eq!(tracker.try_acquire_at(109), (false, false));
    assert!(!tracker.current());

    // At the deadline the one recovery grant happens.
    assert_eq!(tracker.try_acquire_at(110), (true, true));
    assert!(tracker.current());

    // Afterwards the tracker is simply available.
    assert_eq!(tracker.try_acquire_at(110), (true, false));
    assert_eq!(tracker.try_acquire_at(200), (true, false));
}

#[test]
fn tracker_without_deadline_stays_unavailable() {
    let mut tracker = RetryableAvailability::new(false, 10);
    assert_eq!(tracker.try_acquire_at(999), (false, false));
    assert!(tracker.mark_available());
    assert!(!tracker.mark_available());
    assert_eq!(tracker.try_acquire_at(0), (true, false));
}

#[test]
fn repeated_failures_report_one_transition() {
    let mut tracker = RetryableAvailability::new(true, 3);
    assert!(tracker.mark_unavailable_at(10));
    assert!(!tracker.mark_unavailable_at(11));
    assert_eq!(tracker.try_acquire_at(13), (false, false));
    assert_eq!(tracker.try_acquire_at(14), (true, true));
}

#[test]
fn percent_formatting_right_aligns() {
    assert_eq!(format_percent3(0), "  0%");
    assert_eq!(format_percent3(7), "  7%");
    assert_eq!(format_percent3(50), " 50%");
    assert_eq!(format_percent3(100), "100%");
    assert_eq!(format_percent3(150), "150%");
}
