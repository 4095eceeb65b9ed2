use hsa::log::{LogLevel, LogLine};
use hsa::signal::SignalCondition;
use hsa::status::STATUS_ERROR_OUT_OF_RESOURCES;
use hsa::{HsaError, Reply, Signal, Status};

fn signal(initial: i64) -> Signal {
    Signal::create(initial, Reply::new(Status::success(), 0x51)).unwrap()
}

#[test]
fn created_signal_holds_its_initial_value() {
    let s = signal(1);
    assert_eq!(s.handle(), 0x51);
    assert_eq!(s.load(), 1);
}

#[test]
fn creation_fails_on_a_failed_status() {
    let reply = Reply::new(Status::new(STATUS_ERROR_OUT_OF_RESOURCES, Some("no room")), 0x51);
    assert_eq!(
        Signal::create(-3, reply).unwrap_err(),
        HsaError::SignalOperationFailed(String::from(
            "Out of resources: Failed to create signal with initial value -3: no room"
        ))
    );
}

#[test]
fn creation_fails_on_a_zero_handle() {
    assert_eq!(
        Signal::create(1, Reply::new(Status::success(), 0)).unwrap_err(),
        HsaError::SignalOperationFailed(String::from(
            "Signal creation returned invalid handle (0)"
        ))
    );
}

#[test]
fn store_then_load_gives_the_stored_value() {
    let mut s = signal(1);
    s.store(42);
    assert_eq!(s.load(), 42);
    assert_eq!(s.handle(), 0x51);
}

#[test]
fn add_and_subtract_wrap() {
    let mut s = signal(5);
    s.add(3);
    assert_eq!(s.load(), 8);
    s.subtract(10);
    assert_eq!(s.load(), -2);
    s.store(i64::MAX);
    s.add(1);
    assert_eq!(s.load(), i64::MIN);
    s.subtract(1);
    assert_eq!(s.load(), i64::MAX);
}

#[test]
fn exchange_returns_the_old_value() {
    let mut s = signal(7);
    assert_eq!(s.exchange(9), 7);
    assert_eq!(s.load(), 9);
}

#[test]
fn compare_and_swap_stores_only_on_a_match() {
    let mut s = signal(7);
    assert_eq!(s.compare_and_swap(1, 9), 7);
    assert_eq!(s.load(), 7);
    assert_eq!(s.compare_and_swap(7, 9), 7);
    assert_eq!(s.load(), 9);
}

#[test]
fn bitwise_operations_change_the_value() {
    let mut s = signal(0b1100);
    s.and(0b1010);
    assert_eq!(s.load(), 0b1000);
    s.or(0b0011);
    assert_eq!(s.load(), 0b1011);
    s.xor(0b1111);
    assert_eq!(s.load(), 0b0100);
    s.xor(-1);
    assert_eq!(s.load(), !0b0100);
}

#[test]
fn wait_for_zero_returns_zero_once_the_signal_is_zero() {
    let mut s = signal(1);
    s.store(0);
    let observed = s.wait_eq(0, 1_000_000);
    assert_eq!(observed, 0);
    assert!(SignalCondition::Eq.holds(observed, 0));
}

#[test]
fn wait_for_zero_on_a_signal_that_stays_nonzero_returns_nonzero() {
    let s = signal(1);
    let observed = s.wait_eq(0, 1_000);
    assert_ne!(observed, 0);
    assert_eq!(observed, 1);
    assert!(!SignalCondition::Eq.holds(observed, 0));
}

#[test]
fn every_wait_returns_the_observed_value() {
    let s = signal(5);
    assert_eq!(s.wait_ne(5, 0), 5);
    assert_eq!(s.wait_ne(4, 0), 5);
    assert_eq!(s.wait_lt(5, u64::MAX), 5);
    assert_eq!(s.wait_lt(6, u64::MAX), 5);
    assert_eq!(s.wait_gte(5, 10), 5);
    assert_eq!(s.wait_gte(6, 10), 5);
}

#[test]
fn conditions_compare_as_their_names_say() {
    assert!(SignalCondition::Eq.holds(3, 3));
    assert!(!SignalCondition::Eq.holds(3, 4));
    assert!(SignalCondition::Ne.holds(3, 4));
    assert!(!SignalCondition::Ne.holds(3, 3));
    assert!(SignalCondition::Lt.holds(-1, 0));
    assert!(!SignalCondition::Lt.holds(0, 0));
    assert!(SignalCondition::Gte.holds(0, 0));
    assert!(!SignalCondition::Gte.holds(-1, 0));
}

#[test]
fn destroy_hands_back_the_handle() {
    assert_eq!(signal(1).destroy(), 0x51);
}

#[test]
fn signal_info_shows_handle_and_value() {
    let s = signal(-12);
    let lines = s.print_info();
    let expected = vec![
        LogLine { level: LogLevel::Info, message: String::from("Signal Information:") },
        LogLine { level: LogLevel::Info, message: String::from("  Handle: 0x51") },
        LogLine { level: LogLevel::Info, message: String::from("  Current Value: -12") },
    ];
    assert_eq!(lines, expected);
}
