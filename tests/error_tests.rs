use estuary::auth::AuthError;
use estuary::error::{parse_validation_errors, AppError, DatabaseError, ErrorCode};

#[test]
fn test_parse_validation_errors() {
    let error_str = "name: Name is required\nemail: Invalid email format";
    let errors = parse_validation_errors(error_str);

    assert!(errors.is_some());
    let errors = errors.unwrap();
    assert_eq!(errors.len(), 2);
    assert_eq!(errors[0].field, "name");
    assert_eq!(errors[0].message, "Name is required");
    assert_eq!(errors[1].field, "email");
    assert_eq!(errors[1].message, "Invalid email format");
}

#[test]
fn parse_validation_errors_edge_cases() {
    assert!(parse_validation_errors("").is_none());
    assert!(parse_validation_errors("no colon here").is_none());
    let e = parse_validation_errors("a:b:c\r\nplain\n  x :  y  \n").unwrap();
    assert_eq!(e.len(), 2);
    assert_eq!(e[0].field, "a");
    assert_eq!(e[0].message, "b:c");
    assert_eq!(e[1].field, "x");
    assert_eq!(e[1].message, "y");
    assert!(e[0].code.is_none());
}

#[test]
fn test_error_to_status_code_mapping() {
    let cases = vec![
        (AppError::NotFound("test".to_string()), 404),
        (AppError::ValidationError("test".to_string()), 422),
        (AppError::DatabaseError(DatabaseError::NotFound), 404),
        (AppError::DatabaseError(DatabaseError::QueryError("test".to_string())), 500),
        (AppError::InternalServerError("test".to_string()), 500),
        (AppError::BadRequest("test".to_string()), 400),
        (AppError::LockError, 500),
    ];
    for (error, expected) in cases {
        assert_eq!(error.to_reply().status, expected);
    }
}

#[test]
fn test_database_error_conversion() {
    let cases = vec![
        (DatabaseError::NotFound, 404, ErrorCode::NotFound),
        (DatabaseError::QueryError("test".to_string()), 500, ErrorCode::DatabaseError),
        (DatabaseError::ConnectionError("test".to_string()), 503, ErrorCode::ServiceUnavailable),
        (DatabaseError::SerializationError("x".to_string()), 500, ErrorCode::InternalServerError),
        (DatabaseError::LockError, 500, ErrorCode::LockError),
    ];
    for (db_error, status, code) in cases {
        let app_error: AppError = db_error.into();
        let reply = app_error.to_reply();
        assert_eq!(reply.status, status);
        assert_eq!(reply.code, code);
    }
}

#[test]
fn validation_error_reply_carries_field_details() {
    let reply = AppError::ValidationError("name: Name is required".to_string()).to_reply();
    assert_eq!(reply.status, 422);
    assert_eq!(reply.code, ErrorCode::ValidationError);
    assert_eq!(reply.message, "Validation failed");
    let details = reply.details.unwrap();
    assert_eq!(details.context, Some("name: Name is required".to_string()));
    let fields = details.validation_errors.unwrap();
    assert_eq!(fields[0].field, "name");
    assert_eq!(fields[0].message, "Name is required");
}

#[test]
fn error_code_names() {
    assert_eq!(ErrorCode::RateLimitExceeded.as_str(), "RATE_LIMIT_EXCEEDED");
    assert_eq!(ErrorCode::NotFound.as_str(), "NOT_FOUND");
    assert_eq!(ErrorCode::BadRequest.as_str(), "BAD_REQUEST");
    assert_eq!(ErrorCode::ValidationError.as_str(), "VALIDATION_ERROR");
    assert_eq!(ErrorCode::ServiceUnavailable.as_str(), "SERVICE_UNAVAILABLE");
}

#[test]
fn auth_error_replies() {
    let r = AuthError::InvalidToken("bad".to_string()).to_reply();
    assert_eq!(r.status, 401);
    assert_eq!(r.code, ErrorCode::Unauthorized);
    assert_eq!(r.details.unwrap().context, Some("bad".to_string()));
    let r = AuthError::JwksFetchError("down".to_string()).to_reply();
    assert_eq!(r.status, 503);
    assert_eq!(r.code, ErrorCode::ServiceUnavailable);
    assert_eq!(AuthError::AuthRequired.to_reply().status, 401);
    assert_eq!(AuthError::MissingAuthHeader.message(), "Missing authorization header");
    assert_eq!(AuthError::InvalidToken("x".to_string()).message(), "Invalid token: x");
}

#[test]
fn error_texts() {
    assert_eq!(AppError::NotFound("x".to_string()).message(), "Not found: x");
    assert_eq!(AppError::LockError.message(), "Failed to acquire lock");
    assert_eq!(
        AppError::DatabaseError(DatabaseError::QueryError("q".to_string())).message(),
        "Database error: Database query error: q"
    );
    assert_eq!(DatabaseError::NotFound.message(), "Item not found");
}

#[test]
fn test_validation_error_string() {
    let error = AppError::ValidationError("Invalid input".to_string());
    let reply = error.to_reply();
    assert_eq!(reply.status, 422);
}

#[test]
fn test_error_code_serialization() {
    let codes = vec![
        (ErrorCode::ValidationError, "VALIDATION_ERROR"),
        (ErrorCode::NotFound, "NOT_FOUND"),
        (ErrorCode::Unauthorized, "UNAUTHORIZED"),
        (ErrorCode::Forbidden, "FORBIDDEN"),
        (ErrorCode::RateLimitExceeded, "RATE_LIMIT_EXCEEDED"),
        (ErrorCode::InternalServerError, "INTERNAL_SERVER_ERROR"),
        (ErrorCode::ServiceUnavailable, "SERVICE_UNAVAILABLE"),
    ];
    for (code, name) in codes {
        let serialized = serde_json::to_string(code.as_str()).unwrap();
        assert_eq!(serialized, format!("\"{}\"", name));
        let back: String = serde_json::from_str(&serialized).unwrap();
        assert_eq!(back, code.as_str());
    }
}
