use dcms_auth::error::{ApiError, ErrorKind};

#[test]
fn error_codes_and_statuses() {
    let cases: Vec<(ApiError, &str, u16, ErrorKind)> = vec![
        (ApiError::invalid_credentials(), "INVALID_CREDENTIALS", 401, ErrorKind::InvalidCredentials),
        (ApiError::session_expired(), "SESSION_EXPIRED", 401, ErrorKind::SessionExpired),
        (ApiError::Forbidden("no"), "FORBIDDEN", 403, ErrorKind::Forbidden),
        (ApiError::ValidationError("bad"), "VALIDATION_ERROR", 400, ErrorKind::ValidationError),
        (ApiError::NotFound("gone"), "NOT_FOUND", 404, ErrorKind::NotFound),
        (ApiError::Internal("boom"), "INTERNAL", 500, ErrorKind::Internal),
    ];
    for (e, code, status, kind) in cases {
        assert_eq!(e.code(), code);
        assert_eq!(e.status(), status);
        assert_eq!(e.kind(), kind);
    }
}

#[test]
fn error_response_body() {
    let body = ApiError::invalid_credentials().to_error_response();
    assert_eq!(body.error.code, "INVALID_CREDENTIALS");
    assert_eq!(body.error.message, "Username or password is incorrect");
    let body = ApiError::NotFound("session not found").to_error_response();
    assert_eq!(body.error.code, "NOT_FOUND");
    assert_eq!(body.error.message, "session not found");
    assert_eq!(ApiError::session_expired().message(), "Session expired");
}
