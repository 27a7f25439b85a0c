use website_editor::dto::{
    default_role, validate_role, AttachMemberDto, ChangePasswordDto, ForcePasswordResetDto,
    NewProjectDto, NewUserDto, UpdateMemberDto, UpdateProjectDto, UpdateUserDto,
};
use website_editor::validation::ParamValue;

fn valid_new_user() -> NewUserDto {
    NewUserDto {
        username: "alice".to_string(),
        email: "alice@example.com".to_string(),
        password: "longenough".to_string(),
    }
}

#[test]
fn new_user_dto_accepts_a_valid_payload() {
    assert!(valid_new_user().validate().is_ok());
}

#[test]
fn new_user_dto_rejects_short_username() {
    let dto = NewUserDto { username: "ab".to_string(), ..valid_new_user() };
    let errs = dto.validate().unwrap_err();
    assert!(errs.field_errors().contains_key("username"));
}

#[test]
fn new_user_dto_rejects_malformed_email() {
    let dto = NewUserDto { email: "not-an-email".to_string(), ..valid_new_user() };
    let errs = dto.validate().unwrap_err();
    assert!(errs.field_errors().contains_key("email"));
}

#[test]
fn new_user_dto_rejects_short_password() {
    let dto = NewUserDto { password: "tiny".to_string(), ..valid_new_user() };
    let errs = dto.validate().unwrap_err();
    assert!(errs.field_errors().contains_key("password"));
}

#[test]
fn new_user_dto_reports_every_failing_field_at_once() {
    let dto = NewUserDto {
        username: "ab".to_string(),
        email: "nope".to_string(),
        password: "x".to_string(),
    };
    let errs = dto.validate().unwrap_err();
    let fields = errs.field_errors();
    assert!(fields.contains_key("username"));
    assert!(fields.contains_key("email"));
    assert!(fields.contains_key("password"));
}

#[test]
fn update_user_dto_skips_validation_for_none_fields() {
    let dto = UpdateUserDto { username: None, email: None, password: None };
    assert!(dto.validate().is_ok());
}

#[test]
fn update_user_dto_rejects_short_password_when_present() {
    let dto = UpdateUserDto {
        username: None,
        email: None,
        password: Some("x".to_string()),
    };
    let errs = dto.validate().unwrap_err();
    assert!(errs.field_errors().contains_key("password"));
}

#[test]
fn failures_are_listed_in_field_order_with_their_rule() {
    let dto = NewUserDto {
        username: "ab".to_string(),
        email: "nope".to_string(),
        password: "x".to_string(),
    };
    let errs = dto.validate().unwrap_err();
    let entries = &errs.field_errors().entries;
    assert_eq!(entries.len(), 3);
    assert_eq!(entries[0].field, "username");
    assert_eq!(entries[1].field, "email");
    assert_eq!(entries[2].field, "password");
    let username = &entries[0].errors[0];
    assert_eq!(username.code, "length");
    assert_eq!(username.message.as_deref(), Some("must be at least 5 characters"));
    assert_eq!(
        username.params,
        vec![
            ("min".to_string(), ParamValue::Number(5)),
            ("value".to_string(), ParamValue::Text("ab".to_string())),
        ]
    );
    assert_eq!(entries[1].errors[0].code, "email");
    assert_eq!(
        entries[1].errors[0].message.as_deref(),
        Some("must be a valid email address")
    );
}

#[test]
fn username_length_counts_characters_not_bytes() {
    // Five characters, ten bytes: the rule counts characters.
    let dto = NewUserDto { username: "ééééé".to_string(), ..valid_new_user() };
    assert!(dto.validate().is_ok());
    let dto = NewUserDto { username: "éééé".to_string(), ..valid_new_user() };
    assert!(dto.validate().unwrap_err().field_errors().contains_key("username"));
}

#[test]
fn update_user_dto_checks_present_email() {
    let dto = UpdateUserDto { username: Some("bobby".to_string()), email: Some("bob".to_string()), password: None };
    let errs = dto.validate().unwrap_err();
    assert!(errs.field_errors().contains_key("email"));
    assert!(!errs.field_errors().contains_key("username"));
    assert_eq!(errs.field_errors().len(), 1);
}

#[test]
fn change_password_dto_rules() {
    let ok = ChangePasswordDto { current_password: "a".to_string(), new_password: "12345678".to_string() };
    assert!(ok.validate().is_ok());
    let bad = ChangePasswordDto { current_password: String::new(), new_password: "1234567".to_string() };
    let errs = bad.validate().unwrap_err();
    let entries = &errs.field_errors().entries;
    assert_eq!(entries.len(), 2);
    assert_eq!(entries[0].field, "current_password");
    assert_eq!(entries[0].errors[0].message.as_deref(), Some("is required"));
    assert_eq!(entries[1].field, "new_password");
}

#[test]
fn force_password_reset_dto_rules() {
    assert!(ForcePasswordResetDto { temporary_password: "temp1234".to_string() }.validate().is_ok());
    let errs = ForcePasswordResetDto { temporary_password: "temp".to_string() }.validate().unwrap_err();
    assert!(errs.field_errors().contains_key("temporary_password"));
}

#[test]
fn project_name_must_be_1_to_200_characters() {
    assert!(NewProjectDto { name: "site".to_string(), object_data: None }.validate().is_ok());
    let errs = NewProjectDto { name: String::new(), object_data: None }.validate().unwrap_err();
    let e = &errs.field_errors().entries[0].errors[0];
    assert_eq!(e.message.as_deref(), Some("must be 1-200 characters"));
    assert_eq!(
        e.params,
        vec![
            ("min".to_string(), ParamValue::Number(1)),
            ("max".to_string(), ParamValue::Number(200)),
            ("value".to_string(), ParamValue::Text(String::new())),
        ]
    );
    let long = "x".repeat(201);
    assert!(NewProjectDto { name: long, object_data: None }.validate().is_err());
    assert!(NewProjectDto { name: "x".repeat(200), object_data: None }.validate().is_ok());
    assert!(UpdateProjectDto { name: None, object_data: None }.validate().is_ok());
    assert!(UpdateProjectDto { name: Some(String::new()), object_data: None }.validate().is_err());
}

#[test]
fn member_rules() {
    assert!(AttachMemberDto { user_id: 1, role: "editor".to_string() }.validate().is_ok());
    let errs = AttachMemberDto { user_id: 0, role: "owner".to_string() }.validate().unwrap_err();
    let entries = &errs.field_errors().entries;
    assert_eq!(entries.len(), 2);
    assert_eq!(entries[0].field, "user_id");
    assert_eq!(entries[0].errors[0].code, "range");
    assert_eq!(entries[0].errors[0].message.as_deref(), Some("must be a positive id"));
    assert_eq!(entries[1].field, "role");
    assert_eq!(entries[1].errors[0].code, "invalid_role");
    assert_eq!(
        entries[1].errors[0].params,
        vec![("value".to_string(), ParamValue::Text("owner".to_string()))]
    );
    assert!(UpdateMemberDto { role: "viewer".to_string() }.validate().is_ok());
    assert!(UpdateMemberDto { role: "Viewer".to_string() }.validate().is_err());
}

#[test]
fn role_rule_and_default_role() {
    assert!(validate_role("editor").is_ok());
    assert!(validate_role("viewer").is_ok());
    let e = validate_role("admin").unwrap_err();
    assert_eq!(e.code, "invalid_role");
    assert_eq!(e.message.as_deref(), Some("must be `editor` or `viewer`"));
    assert_eq!(default_role(), "viewer");
    assert!(AttachMemberDto { user_id: 3, role: default_role() }.validate().is_ok());
}
