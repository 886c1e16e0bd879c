use user_service::json::decimal;
use user_service::middleware::{elapsed_micros, log_line};
use user_service::Log;

#[test]
fn log_line_has_timestamp_method_uri_and_micros() {
    let line = log_line("2017-06-01 10:00:00 +00:00", "GET", "/users", 1234);
    assert_eq!(line, "[2017-06-01 10:00:00 +00:00] GET /users 1234");
}

#[test]
fn elapsed_is_difference_of_readings() {
    assert_eq!(elapsed_micros(1_000, 1_250), 250);
    assert_eq!(elapsed_micros(5, 5), 0);
    assert_eq!(elapsed_micros(i64::MIN, i64::MAX), (i64::MAX as i128) - (i64::MIN as i128));
}

#[test]
fn middleware_hands_result_back_unchanged() {
    let log = Log::new(41u32);
    assert_eq!(*log.upstream(), 41);
    let outcome: Result<(u16, String), String> = Ok((200, "[]".to_string()));
    let (back, line) = log.complete(outcome.clone(), "t", "POST", "/", 10, 25);
    assert_eq!(back, outcome);
    assert_eq!(line, "[t] POST / 15");
}

#[test]
fn middleware_passes_errors_through() {
    let log = Log::new(Log::new(()));
    let outcome: Result<u8, String> = Err("boom".to_string());
    let (back, line) = log.complete(outcome, "t", "GET", "/x", 7, 7);
    assert_eq!(back, Err("boom".to_string()));
    assert_eq!(line, "[t] GET /x 0");
    assert_eq!(*log.upstream().upstream(), ());
}

#[test]
fn decimal_text() {
    assert_eq!(decimal(0), "0");
    assert_eq!(decimal(9), "9");
    assert_eq!(decimal(10), "10");
    assert_eq!(decimal(-7), "-7");
    assert_eq!(decimal(i128::MIN), "-170141183460469231731687303715884105728");
    assert_eq!(decimal(i128::MAX), "170141183460469231731687303715884105727");
}
