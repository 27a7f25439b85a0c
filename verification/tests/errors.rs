use website_editor::codes;
use website_editor::dto::{HealthDto, NewUserDto, Response};
use website_editor::error::{
    err_invalid_credentials, err_invalid_refresh_token, err_not_found, err_password_change_required,
    err_unauthorized, err_validation, internal_error, status_for_code, RepoError, ServiceError,
};
use website_editor::validation::{err_from_validation, message_for, FieldError, ParamValue};

#[test]
fn health_reports_name_and_version() {
    let h = HealthDto::current();
    assert_eq!(h.name, "website_editor");
    assert_eq!(h.version, "0.1.0");
}

#[test]
fn constructors_set_message_and_code() {
    let e = internal_error();
    assert_eq!((e.message.as_str(), e.code), ("internal server error", 1000));
    let e = err_not_found("project");
    assert_eq!((e.message.as_str(), e.code), ("project not found", 2001));
    let e = err_validation("bad".to_string());
    assert_eq!((e.message.as_str(), e.code), ("bad", 2005));
    let e = err_unauthorized("nope".to_string());
    assert_eq!((e.message.as_str(), e.code), ("nope", 3001));
    let e = err_invalid_credentials();
    assert_eq!((e.message.as_str(), e.code), ("invalid credentials", 3002));
    let e = err_invalid_refresh_token();
    assert_eq!((e.message.as_str(), e.code), ("invalid or expired refresh token", 3003));
    let e = err_password_change_required();
    assert_eq!(e.code, codes::ERR_PASSWORD_CHANGE_REQUIRED);
    assert!(e.fields.is_none());
    let e = ServiceError::new("x".to_string(), 7);
    assert_eq!(e.to_string(), "x");
}

#[test]
fn repository_errors_map_to_service_errors() {
    let e = ServiceError::from_repo(RepoError::NotFound);
    assert_eq!((e.message.as_str(), e.code), ("resource not found", 2001));
    let e = ServiceError::from_repo(RepoError::Sqlx("disk I/O error".to_string()));
    assert_eq!((e.message.as_str(), e.code), ("internal server error", 1000));
}

#[test]
fn statuses_follow_error_codes() {
    assert_eq!(status_for_code(codes::ERR_RESOURCE_NOT_FOUND), 404);
    assert_eq!(status_for_code(codes::ERR_VALIDATION), 400);
    assert_eq!(status_for_code(codes::ERR_UNAUTHORIZED), 401);
    assert_eq!(status_for_code(codes::ERR_INVALID_CREDENTIALS), 401);
    assert_eq!(status_for_code(codes::ERR_INVALID_REFRESH_TOKEN), 401);
    assert_eq!(status_for_code(codes::ERR_PASSWORD_CHANGE_REQUIRED), 428);
    assert_eq!(status_for_code(codes::INTERNAL_ERROR), 500);
    assert_eq!(status_for_code(codes::ERR_RESOURCE_CREATE_ERROR), 500);
    assert_eq!(err_invalid_credentials().status(), 401);
}

fn generic(code: &str, params: Vec<(&str, ParamValue)>) -> FieldError {
    FieldError {
        code: code.to_string(),
        message: None,
        params: params.into_iter().map(|(k, v)| (k.to_string(), v)).collect(),
    }
}

#[test]
fn message_for_prefers_explicit_message() {
    let mut e = generic("length", vec![("min", ParamValue::Number(5))]);
    e.message = Some("must be at least 5 characters".to_string());
    assert_eq!(message_for(&e), "must be at least 5 characters");
}

#[test]
fn message_for_renders_generic_messages() {
    assert_eq!(message_for(&generic("required", vec![])), "This field is required");
    assert_eq!(
        message_for(&generic("length", vec![("equal", ParamValue::Number(4)), ("min", ParamValue::Number(1))])),
        "Must be exactly 4 characters"
    );
    assert_eq!(
        message_for(&generic("length", vec![("min", ParamValue::Number(1)), ("max", ParamValue::Number(200))])),
        "Must be between 1 and 200 characters"
    );
    assert_eq!(message_for(&generic("length", vec![("min", ParamValue::Number(5))])), "Must be at least 5 characters");
    assert_eq!(message_for(&generic("length", vec![("max", ParamValue::Number(9))])), "Must be at most 9 characters");
    assert_eq!(message_for(&generic("length", vec![])), "Invalid length");
    assert_eq!(
        message_for(&generic("range", vec![("min", ParamValue::Number(-3)), ("max", ParamValue::Number(10))])),
        "Must be between -3 and 10"
    );
    assert_eq!(message_for(&generic("range", vec![("min", ParamValue::Number(1))])), "Must be at least 1");
    assert_eq!(message_for(&generic("range", vec![("max", ParamValue::Number(2))])), "Must be at most 2");
    assert_eq!(message_for(&generic("range", vec![])), "Out of range");
    assert_eq!(message_for(&generic("email", vec![])), "Invalid email format");
    assert_eq!(message_for(&generic("url", vec![])), "Invalid URL");
    assert_eq!(message_for(&generic("regex", vec![])), "Invalid format");
    assert_eq!(message_for(&generic("non_control_character", vec![])), "Must not contain control characters");
    assert_eq!(message_for(&generic("credit_card", vec![])), "Invalid credit card number");
    assert_eq!(message_for(&generic("phone", vec![])), "Invalid phone number");
    assert_eq!(
        message_for(&generic("contains", vec![("pattern", ParamValue::Text("@".to_string()))])),
        "Must contain `@`"
    );
    assert_eq!(message_for(&generic("contains", vec![])), "Missing required content");
    assert_eq!(
        message_for(&generic("does_not_contain", vec![("pattern", ParamValue::Text("x".to_string()))])),
        "Must not contain `x`"
    );
    assert_eq!(message_for(&generic("does_not_contain", vec![])), "Contains forbidden content");
    assert_eq!(
        message_for(&generic("must_match", vec![("other", ParamValue::Text("password".to_string()))])),
        "Must match `password`"
    );
    assert_eq!(message_for(&generic("must_match", vec![])), "Fields do not match");
    assert_eq!(message_for(&generic("invalid_role", vec![])), "invalid_role");
}

#[test]
fn message_for_uses_last_recorded_parameter() {
    let e = generic("range", vec![("min", ParamValue::Number(1)), ("min", ParamValue::Number(7))]);
    assert_eq!(message_for(&e), "Must be at least 7");
}

#[test]
fn signup_payload_errors_become_a_field_map() {
    let dto = NewUserDto {
        username: "ab".to_string(),
        email: "nope".to_string(),
        password: "x".to_string(),
    };
    let e = err_from_validation(dto.validate().unwrap_err());
    assert_eq!(e.code, 2005);
    assert_eq!(e.message, "validation failed");
    assert_eq!(e.status(), 400);
    let fields = e.fields.expect("validation errors carry fields");
    let names: Vec<&str> = fields.iter().map(|f| f.field.as_str()).collect();
    assert_eq!(names, vec!["username", "email", "password"]);
    assert_eq!(fields[0].messages, vec!["must be at least 5 characters".to_string()]);
    assert_eq!(fields[1].messages, vec!["must be a valid email address".to_string()]);
    assert_eq!(fields[2].messages, vec!["must be at least 8 characters".to_string()]);
}

#[test]
fn response_envelope() {
    let r: Response<i32> = Response::ok(5);
    assert_eq!(r.data, Some(5));
    assert!(r.error.is_none());
    let r: Response<i32> = Response::err(3001, "nope".to_string());
    assert!(r.data.is_none());
    let e = r.error.unwrap();
    assert_eq!((e.code, e.message.as_str()), (3001, "nope"));
}
