use webboard::config::AppConfig;
use webboard::error::AppError;
use webboard::health::HealthResponse;

fn set(text: &str) -> Option<String> {
    Some(text.to_string())
}

#[test]
fn what_is_not_set_takes_its_default() {
    let config = AppConfig::from_vars(None, None, None, None, None, None);
    assert_eq!(config.host, "127.0.0.1");
    assert_eq!(config.port, 3000);
    assert_eq!(config.log_level, "info");
    assert_eq!(config.request_timeout_secs, 30);
    assert_eq!(config.max_body_size, 2_097_152);
    assert_eq!(config.jwt_secret, "default-secret-key-change-in-production");
    assert_eq!(config.address(), "127.0.0.1:3000");
}

#[test]
fn what_is_set_is_taken() {
    let config = AppConfig::from_vars(
        set("0.0.0.0"),
        set("8080"),
        set("debug"),
        set("5"),
        set("1024"),
        set("secret"),
    );
    assert_eq!(config.host, "0.0.0.0");
    assert_eq!(config.port, 8080);
    assert_eq!(config.log_level, "debug");
    assert_eq!(config.request_timeout_secs, 5);
    assert_eq!(config.max_body_size, 1024);
    assert_eq!(config.jwt_secret, "secret");
    assert_eq!(config.address(), "0.0.0.0:8080");
}

#[test]
fn a_number_that_cannot_be_read_takes_its_default() {
    let config = AppConfig::from_vars(
        set(""),
        set("65536"),
        set(""),
        set("soon"),
        set("-1"),
        set(""),
    );
    assert_eq!(config.host, "");
    assert_eq!(config.port, 3000);
    assert_eq!(config.log_level, "");
    assert_eq!(config.request_timeout_secs, 30);
    assert_eq!(config.max_body_size, 2_097_152);
    assert_eq!(config.jwt_secret, "");
    assert_eq!(config.address(), ":3000");
    let config = AppConfig::from_vars(None, set("65535"), None, set("+7"), set("0"), None);
    assert_eq!(config.port, 65535);
    assert_eq!(config.request_timeout_secs, 7);
    assert_eq!(config.max_body_size, 0);
    assert_eq!(config.address(), "127.0.0.1:65535");
}

#[test]
fn a_healthy_service_says_so() {
    let report = HealthResponse::healthy();
    assert_eq!(report.status, "healthy");
    assert_eq!(report.version, "0.1.0");
}

#[test]
fn errors_are_written_out_with_their_kind() {
    assert_eq!(
        AppError::NotFound("User 7 not found".to_string()).to_string(),
        "Not Found: User 7 not found"
    );
    assert_eq!(
        AppError::BadRequest("b".to_string()).to_string(),
        "Bad Request: b"
    );
    assert_eq!(
        AppError::InternalError("i".to_string()).to_string(),
        "Internal Error: i"
    );
    assert_eq!(
        AppError::Unauthorized("u".to_string()).to_string(),
        "Unauthorized: u"
    );
}

#[test]
fn errors_are_reported_with_their_status() {
    let report = AppError::NotFound("n".to_string()).into_report();
    assert_eq!((report.status, report.error.as_str(), report.message.as_str()), (404, "NOT_FOUND", "n"));
    let report = AppError::BadRequest("b".to_string()).into_report();
    assert_eq!((report.status, report.error.as_str(), report.message.as_str()), (400, "BAD_REQUEST", "b"));
    let report = AppError::Unauthorized("u".to_string()).into_report();
    assert_eq!((report.status, report.error.as_str(), report.message.as_str()), (401, "UNAUTHORIZED", "u"));
    let report = AppError::InternalError("the disk is full".to_string()).into_report();
    assert_eq!(
        (report.status, report.error.as_str(), report.message.as_str()),
        (500, "INTERNAL_SERVER_ERROR", "An internal error occurred")
    );
    assert_eq!(AppError::InternalError(String::new()).status(), 500);
}
