use metron::duration::Duration;
use metron::echo::{injected_delay, injected_status, Config, LogLevel, INJECT_DELAY_HEADER, INJECT_STATUS_HEADER};

#[test]
fn status_defaults_to_ok() {
    assert_eq!(injected_status(None), 200);
    assert_eq!(injected_status(Some("abc")), 200);
    assert_eq!(injected_status(Some("099")), 200);
    assert_eq!(injected_status(Some("1000")), 200);
}

#[test]
fn status_can_be_injected() {
    assert_eq!(injected_status(Some("404")), 404);
    assert_eq!(injected_status(Some("999")), 999);
    assert_eq!(injected_status(Some("100")), 100);
}

#[test]
fn delay_can_be_injected_up_to_ten_seconds() {
    assert_eq!(injected_delay(None), None);
    assert_eq!(injected_delay(Some("soon")), None);
    assert_eq!(injected_delay(Some("250ms")), Some(Duration::from_millis(250)));
    assert_eq!(injected_delay(Some("1m")), Some(Duration::from_secs(10)));
    assert_eq!(injected_delay(Some("10s")), Some(Duration::from_secs(10)));
    assert_eq!(injected_delay(Some("99999999999s")), Some(Duration::from_secs(10)));
}

#[test]
fn long_delays_are_read_and_capped() {
    assert_eq!(injected_delay(Some("000000000001s")), Some(Duration::from_secs(1)));
    assert_eq!(injected_delay(Some("100000000000s")), Some(Duration::from_secs(10)));
    assert_eq!(injected_delay(Some("18446744073709551615s")), Some(Duration::from_secs(10)));
    assert_eq!(injected_delay(Some("0.000000000001s")), None);
}

#[test]
fn delay_humantime_could_panic_on_is_no_delay() {
    assert_eq!(injected_delay(Some("18446744073709551615s 1000000000ns")), None);
}

#[test]
fn echo_defaults() {
    assert_eq!(Config::default().log_level, LogLevel::Off);
    assert_eq!(INJECT_STATUS_HEADER, "x-metron-inject-status");
    assert_eq!(INJECT_DELAY_HEADER, "x-metron-inject-delay");
}
