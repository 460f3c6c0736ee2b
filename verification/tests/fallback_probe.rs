use sysprobe::fallback::{active_window_title, idle_time_ms, lock_workstation};

#[test]
fn fallback_idle_time_is_zero() {
    assert_eq!(idle_time_ms(), Ok(0));
}

#[test]
fn fallback_title_is_empty() {
    assert_eq!(active_window_title(), Ok(String::new()));
}

#[test]
fn fallback_lock_is_declined() {
    assert_eq!(lock_workstation(), Ok(false));
}

#[test]
fn fallback_calls_in_sequence_give_the_neutral_values() {
    let idle = idle_time_ms();
    let title = active_window_title();
    let locked = lock_workstation();
    let failures = [idle.is_err(), title.is_err(), locked.is_err()];
    assert_eq!(failures.iter().filter(|failed| **failed).count(), 0);
    assert_eq!((idle.unwrap(), title.unwrap(), locked.unwrap()), (0, String::new(), false));
}

#[test]
fn fallback_values_do_not_change_between_calls() {
    for _ in 0..3 {
        assert_eq!(lock_workstation(), Ok(false));
        assert_eq!(idle_time_ms(), Ok(0));
        assert_eq!(active_window_title(), Ok(String::new()));
    }
}
