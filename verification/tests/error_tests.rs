use daytona::error::DaytonaError;

#[test]
fn error_is_not_found() {
    let error = DaytonaError::NotFound("resource not found".to_string());
    assert!(error.is_not_found());
    assert!(!error.is_rate_limit());
    assert!(!error.is_timeout());
}

#[test]
fn error_is_rate_limit() {
    let error = DaytonaError::RateLimit("rate limit exceeded".to_string());
    assert!(!error.is_not_found());
    assert!(error.is_rate_limit());
    assert!(!error.is_timeout());
}

#[test]
fn error_is_timeout() {
    let error = DaytonaError::Timeout("request timed out".to_string());
    assert!(!error.is_not_found());
    assert!(!error.is_rate_limit());
    assert!(error.is_timeout());
}

#[test]
fn error_status_code() {
    let error = DaytonaError::NotFound("not found".to_string());
    assert_eq!(error.status_code(), Some(404));

    let error = DaytonaError::RateLimit("rate limited".to_string());
    assert_eq!(error.status_code(), Some(429));

    let error = DaytonaError::Timeout("timed out".to_string());
    assert_eq!(error.status_code(), Some(408));

    let error = DaytonaError::Unauthorized("unauthorized".to_string());
    assert_eq!(error.status_code(), Some(401));

    let error = DaytonaError::InternalServerError("internal error".to_string());
    assert_eq!(error.status_code(), Some(500));

    let error = DaytonaError::Network("network error".to_string());
    assert_eq!(error.status_code(), None);
}

#[test]
fn error_message() {
    let error = DaytonaError::NotFound("resource not found".to_string());
    assert_eq!(error.message(), "resource not found");

    let error = DaytonaError::Api {
        status: 400,
        message: "bad request".to_string(),
    };
    assert_eq!(error.message(), "bad request");
}

#[test]
fn from_status_classifies_each_code() {
    assert!(DaytonaError::from_status(404, "m".to_string()).is_not_found());
    assert!(DaytonaError::from_status(429, "m".to_string()).is_rate_limit());
    assert!(DaytonaError::from_status(408, "m".to_string()).is_timeout());
    assert_eq!(
        DaytonaError::from_status(401, "m".to_string()).status_code(),
        Some(401)
    );
    assert_eq!(
        DaytonaError::from_status(403, "m".to_string()).status_code(),
        Some(401)
    );
    assert_eq!(
        DaytonaError::from_status(502, "m".to_string()).status_code(),
        Some(500)
    );
    let other = DaytonaError::from_status(418, "teapot".to_string());
    assert_eq!(other.status_code(), Some(418));
    assert_eq!(other.message(), "teapot");
}
