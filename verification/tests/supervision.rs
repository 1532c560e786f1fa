use qemu_launch::decimal::dec_string;
use qemu_launch::supervise::wait_outcome;

#[test]
fn wait_outcome_still_running() {
    // the duration elapsed before the process exited
    assert_eq!(wait_outcome(None), None);
}

#[test]
fn wait_outcome_exit_code() {
    // the process exited normally and the OS reported its code
    assert_eq!(wait_outcome(Some(Some(42))), Some(42));
    assert_eq!(wait_outcome(Some(Some(0))), Some(0));
    assert_eq!(wait_outcome(Some(Some(-1))), Some(-1));
}

#[test]
fn wait_outcome_signal_substitutes_zero() {
    // the process was terminated by a signal: no code, 0 substituted
    assert_eq!(wait_outcome(Some(None)), Some(0));
}

#[test]
fn decimal_rendering() {
    assert_eq!(dec_string(0), "0");
    assert_eq!(dec_string(7), "7");
    assert_eq!(dec_string(10), "10");
    assert_eq!(dec_string(123), "123");
    assert_eq!(dec_string(9876543210), "9876543210");
}
