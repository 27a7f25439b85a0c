use jsonwebtoken::{DecodingKey, EncodingKey};
use website_editor::codes;
use website_editor::dto::{
    ChangePasswordDto, NewItemDto, NewProjectDto, NewProjectVersionDto, NewUserDto,
    UpdateItemDto, UpdateProjectDto, UpdateUserDto,
};
use website_editor::error::RepoError;
use website_editor::model::{Item, Project, RefreshToken, User};
use website_editor::password;
use website_editor::service::{
    auth_response, check_login, check_refresh_lookup, find_active, logout_revocation, logout_target,
    refresh_lookup,
    plan_token_issue, prepare_item_create, prepare_item_update, prepare_password_change,
    prepare_password_reset, prepare_project_create, prepare_project_update, prepare_snapshot,
    prepare_user_create, prepare_user_update, validate_role,
};
use website_editor::token::{sha256_hex, KeyPair, TokenManager};

/// The Ed25519 example key pair of RFC 8410: the private half as PKCS#8 DER,
/// the public half as its raw 32 bytes.
const PRIVATE_DER: [u8; 48] = [
    0x30, 0x2e, 0x02, 0x01, 0x00, 0x30, 0x05, 0x06, 0x03, 0x2b, 0x65, 0x70, 0x04, 0x22, 0x04, 0x20,
    0xd4, 0xee, 0x72, 0xdb, 0xf9, 0x13, 0x58, 0x4a, 0xd5, 0xb6, 0xd8, 0xf1, 0xf7, 0x69, 0xf8, 0xad,
    0x3a, 0xfe, 0x7c, 0x28, 0xcb, 0xf1, 0xd4, 0xfb, 0xe0, 0x97, 0xa8, 0x8f, 0x44, 0x75, 0x58, 0x42,
];
const PUBLIC_RAW: [u8; 32] = [
    0x19, 0xbf, 0x44, 0x09, 0x69, 0x84, 0xcd, 0xfe, 0x85, 0x41, 0xba, 0xc1, 0x67, 0xdc, 0x3b, 0x96,
    0xc8, 0x50, 0x86, 0xaa, 0x30, 0xb6, 0xb6, 0xcb, 0x0c, 0x5c, 0x38, 0xad, 0x70, 0x31, 0x66, 0xe1,
];

fn keys() -> KeyPair {
    let encoding = EncodingKey::from_ed_der(&PRIVATE_DER);
    let decoding = DecodingKey::from_ed_der(&PUBLIC_RAW);
    match KeyPair::from_parts(Ok(encoding), Ok(decoding)) {
        Ok(k) => k,
        Err(_) => panic!("test keys are accepted"),
    }
}

fn manager() -> TokenManager {
    TokenManager::new(keys(), keys(), None, None)
}

fn user(password_hash: &str, must_change: i64) -> User {
    User {
        id: 9,
        username: "bobby".to_string(),
        email: "bob@example.com".to_string(),
        password: password_hash.to_string(),
        is_system: 0,
        must_change_password: must_change,
        last_login_at: None,
        created_at: 100,
        updated_at: 100,
    }
}

#[test]
fn user_create_checks_in_order_and_trims() {
    let dto = |u: &str, e: &str, p: &str| NewUserDto {
        username: u.to_string(),
        email: e.to_string(),
        password: p.to_string(),
    };
    let e = prepare_user_create(dto("   ", "x", "y"), false).unwrap_err();
    assert_eq!((e.message.as_str(), e.code), ("username must not be empty", codes::ERR_VALIDATION));
    let e = prepare_user_create(dto("bobby", "bob.example.com", "y"), false).unwrap_err();
    assert_eq!(e.message, "email is invalid");
    let e = prepare_user_create(dto("bobby", "bob@example.com", "1234567"), false).unwrap_err();
    assert_eq!(e.message, "password must be at least 8 characters");
    // Eight bytes, four characters: the service rule counts bytes.
    assert!(prepare_user_create(dto("bobby", "bob@example.com", "éééé"), false).is_ok());

    let row = prepare_user_create(dto("  bobby ", " bob@example.com ", "temp1234"), true).unwrap();
    assert_eq!(row.username, "bobby");
    assert_eq!(row.email, "bob@example.com");
    assert!(row.must_change_password);
    assert!(password::verify("temp1234".to_string(), row.password_hash.clone()));
    let row = prepare_user_create(dto("alice", "alice@example.com", "longenough"), false).unwrap();
    assert!(!row.must_change_password);
}

#[test]
fn user_update_merges_and_rehashes() {
    let existing = user("old-hash", 0);
    let row = prepare_user_update(existing.clone(), UpdateUserDto { username: None, email: None, password: None }).unwrap();
    assert_eq!((row.username.as_str(), row.email.as_str(), row.password.as_str()), ("bobby", "bob@example.com", "old-hash"));
    let row = prepare_user_update(
        existing.clone(),
        UpdateUserDto { username: Some("robert".to_string()), email: None, password: Some(String::new()) },
    )
    .unwrap();
    assert_eq!((row.username.as_str(), row.password.as_str()), ("robert", "old-hash"));
    let e = prepare_user_update(
        existing.clone(),
        UpdateUserDto { username: None, email: None, password: Some("short".to_string()) },
    )
    .unwrap_err();
    assert_eq!((e.message.as_str(), e.code), ("password must be at least 8 characters", 2005));
    let row = prepare_user_update(
        existing,
        UpdateUserDto { username: None, email: Some("r@x.org".to_string()), password: Some("newpass123".to_string()) },
    )
    .unwrap();
    assert_eq!(row.email, "r@x.org");
    assert!(password::verify("newpass123".to_string(), row.password));
}

#[test]
fn password_reset_hashes_the_temporary_password() {
    let h = prepare_password_reset("temp1234".to_string()).unwrap();
    assert!(password::verify("temp1234".to_string(), h));
}

#[test]
fn login_answers_unknown_email_and_wrong_password_alike() {
    let h = password::hash("temp1234".to_string()).unwrap();
    let e = check_login(Err(RepoError::NotFound), "temp1234".to_string()).unwrap_err();
    assert_eq!((e.message.as_str(), e.code), ("invalid credentials", 3002));
    let e = check_login(Ok(user(&h, 1)), "wrong".to_string()).unwrap_err();
    assert_eq!((e.message.as_str(), e.code), ("invalid credentials", 3002));
    let u = check_login(Ok(user(&h, 1)), "temp1234".to_string()).unwrap();
    assert_eq!(u.id, 9);
}

#[test]
fn change_password_rules() {
    let h = password::hash("temp1234".to_string()).unwrap();
    let u = user(&h, 1);
    let dto = |c: &str, n: &str| ChangePasswordDto { current_password: c.to_string(), new_password: n.to_string() };
    let e = prepare_password_change(&u, dto("wrong", "newpass123")).unwrap_err();
    assert_eq!((e.message.as_str(), e.code), ("invalid credentials", 3002));
    let e = prepare_password_change(&u, dto("temp1234", "temp1234")).unwrap_err();
    assert_eq!((e.message.as_str(), e.code), ("new password must differ from current", 2005));
    let new_hash = prepare_password_change(&u, dto("temp1234", "newpass123")).unwrap();
    assert!(password::verify("newpass123".to_string(), new_hash.clone()));
    assert!(!password::verify("temp1234".to_string(), new_hash));
}

#[test]
fn token_issue_and_response() {
    let m = manager();
    let now = 1_700_000_000;
    let u = user("h", 1);
    let plan = plan_token_issue(&u, &m, now).expect("the system supplies randomness");
    assert_eq!(plan.claims.sub, 9);
    assert_eq!(plan.claims.username, "bobby");
    assert!(plan.claims.must_change_password);
    assert_eq!(plan.claims.exp, now + 900);
    assert_eq!(plan.refresh.raw.len(), 64);
    assert_eq!(plan.refresh.hashed, sha256_hex(&plan.refresh.raw));
    assert_eq!(plan.refresh_expires_at, now + 30 * 86_400);
    let r = auth_response(u, "jwt".to_string(), plan.refresh.raw.clone(), &m);
    assert_eq!(r.token.token_type, "Bearer");
    assert_eq!(r.token.access_token, "jwt");
    assert_eq!(r.token.refresh_token, plan.refresh.raw);
    assert_eq!((r.token.expires_in, r.token.refresh_expires_in), (900, 2_592_000));
    assert!(r.user.must_change_password);
    assert!(!r.user.is_system);
    assert_eq!(r.user.username, "bobby");
}

fn token_row(id: i64, hash: &str, revoked: i64, expires_at: i64) -> RefreshToken {
    RefreshToken { id, user_id: 9, token_hash: hash.to_string(), expires_at, revoked, created_at: 0 }
}

#[test]
fn refresh_lookup_and_rotation() {
    let e = check_refresh_lookup(Err(RepoError::NotFound)).unwrap_err();
    assert_eq!((e.message.as_str(), e.code), ("invalid or expired refresh token", 3003));
    let e = check_refresh_lookup(Err(RepoError::Sqlx("boom".to_string()))).unwrap_err();
    assert_eq!(e.code, 3003);
    assert_eq!(check_refresh_lookup(Ok(token_row(4, "h", 0, 10))).unwrap().id, 4);

    let hash = sha256_hex("raw");
    let mut rows = vec![token_row(1, "other", 0, 500), token_row(2, &hash, 0, 500)];
    assert_eq!(find_active(&rows, &hash, 100), Some(1));
    assert_eq!(find_active(&rows, &hash, 500), None);
    // Rotation: once revoked the same token is no longer admitted.
    rows[1].revoked = 1;
    assert_eq!(find_active(&rows, &hash, 100), None);
    assert_eq!(logout_revocation(Ok(token_row(2, &hash, 0, 500))), Some(2));
    assert_eq!(logout_revocation(Err(RepoError::NotFound)), None);
}

#[test]
fn refresh_finds_the_active_row_and_rotation_kills_the_old_token() {
    let old = "old-token";
    let new = "new-token";
    let old_hash = sha256_hex(old);
    let rows = vec![token_row(1, &old_hash, 1, 500), token_row(2, &old_hash, 0, 500)];
    let found = refresh_lookup(rows.clone(), old, 100).unwrap();
    assert_eq!(found.id, 2);
    let e = refresh_lookup(rows.clone(), old, 500).unwrap_err();
    assert_eq!((e.message.as_str(), e.code), ("invalid or expired refresh token", 3003));
    let e = refresh_lookup(rows.clone(), "never-issued", 100).unwrap_err();
    assert_eq!(e.code, 3003);
    // The found row is revoked and the new token's row is stored.
    let mut after = rows.clone();
    after[1].revoked = 1;
    after.push(token_row(3, &sha256_hex(new), 0, 900));
    assert_eq!(refresh_lookup(after.clone(), old, 150).unwrap_err().code, 3003);
    assert_eq!(refresh_lookup(after, new, 150).unwrap().id, 3);
}

#[test]
fn logout_names_the_row_to_revoke() {
    let t = "some-token";
    let h = sha256_hex(t);
    let rows = vec![token_row(5, "other", 0, 500), token_row(6, &h, 0, 500)];
    assert_eq!(logout_target(rows.clone(), t, 100), Some(6));
    assert_eq!(logout_target(rows.clone(), t, 600), None);
    assert_eq!(logout_target(rows.clone(), "unknown", 100), None);
    let mut after = rows;
    after[1].revoked = 1;
    assert_eq!(logout_target(after.clone(), t, 100), None);
    assert_eq!(refresh_lookup(after, t, 100).unwrap_err().code, 3003);
}

#[test]
fn signup_then_login_and_login_after_password_change() {
    let dto = NewUserDto {
        username: "  alice ".to_string(),
        email: "alice@example.com".to_string(),
        password: "longenough".to_string(),
    };
    let row = prepare_user_create(dto, false).unwrap();
    let mut stored = user(&row.password_hash, 0);
    stored.username = row.username.clone();
    stored.email = row.email.clone();
    let u = check_login(Ok(stored.clone()), "longenough".to_string()).unwrap();
    assert_eq!((u.username.as_str(), u.email.as_str()), ("alice", "alice@example.com"));
    assert!(!row.must_change_password);

    let change = ChangePasswordDto { current_password: "longenough".to_string(), new_password: "newpass123".to_string() };
    let new_hash = prepare_password_change(&stored, change).unwrap();
    let mut changed = stored;
    changed.password = new_hash;
    changed.must_change_password = 0;
    assert!(check_login(Ok(changed.clone()), "newpass123".to_string()).is_ok());
    assert_eq!(check_login(Ok(changed), "longenough".to_string()).unwrap_err().code, 3002);
}

fn item() -> Item {
    Item { id: 1, name: "old".to_string(), description: Some("d".to_string()), created_at: 0, updated_at: 0 }
}

#[test]
fn item_rules() {
    let e = prepare_item_create(NewItemDto { name: "  ".to_string(), description: None }).unwrap_err();
    assert_eq!((e.message.as_str(), e.code), ("name must not be empty", 2005));
    let f = prepare_item_create(NewItemDto { name: " lamp ".to_string(), description: None }).unwrap();
    assert_eq!(f.name, "lamp");
    let f = prepare_item_update(item(), UpdateItemDto { name: Some(" new ".to_string()), description: None }).unwrap();
    assert_eq!(f.name, " new ");
    assert_eq!(f.description.as_deref(), Some("d"));
    assert!(prepare_item_update(item(), UpdateItemDto { name: Some(" ".to_string()), description: None }).is_err());
}

fn project() -> Project {
    Project {
        id: 3,
        name: "site".to_string(),
        current_version: 4,
        object_data: serde_json::Value::from("data"),
        created_at: 0,
        updated_at: 0,
    }
}

#[test]
fn project_rules() {
    let f = prepare_project_create(NewProjectDto { name: " site ".to_string(), object_data: None }).unwrap();
    assert_eq!(f.name, "site");
    assert_eq!(f.object_data, serde_json::Value::Object(serde_json::Map::new()));
    let f = prepare_project_create(NewProjectDto { name: "s".to_string(), object_data: Some(serde_json::Value::from(3)) }).unwrap();
    assert_eq!(f.object_data, serde_json::Value::from(3));
    assert!(prepare_project_create(NewProjectDto { name: "\t".to_string(), object_data: None }).is_err());
    let f = prepare_project_update(project(), UpdateProjectDto { name: None, object_data: None }).unwrap();
    assert_eq!((f.name.as_str(), f.object_data.clone()), ("site", serde_json::Value::from("data")));
    assert!(prepare_project_update(project(), UpdateProjectDto { name: Some("".to_string()), object_data: None }).is_err());
}

#[test]
fn member_role_check_of_the_service() {
    assert!(validate_role("editor").is_ok());
    assert!(validate_role("viewer").is_ok());
    let e = validate_role("owner").unwrap_err();
    assert_eq!(e.message, "role must be one of [\"editor\", \"viewer\"]");
    assert_eq!(e.code, 2005);
}

#[test]
fn snapshot_takes_the_bumped_version_number() {
    let row = prepare_snapshot(3, &project(), NewProjectVersionDto { object_snapshot: serde_json::Value::from(1), created_by: Some(9) });
    assert_eq!((row.project_id, row.version_number, row.created_by), (3, 4, Some(9)));
    assert_eq!(row.object_snapshot, serde_json::Value::from(1));
}

#[test]
fn client_view_of_a_user_hides_the_password() {
    let a = website_editor::dto::UserDto::from_user(user("hash-one", 1));
    let b = website_editor::dto::UserDto::from_user(user("hash-two", 1));
    assert_eq!(a, b);
    assert!(a.must_change_password);
    let sys = User { is_system: 1, ..user("h", 0) };
    let d = website_editor::dto::UserDto::from(sys);
    assert!(d.is_system);
    assert!(!d.must_change_password);
}

#[test]
fn issued_claims_follow_the_pending_change_flag() {
    let m = manager();
    let now = 1_700_000_000;
    let flagged = plan_token_issue(&user("h", 1), &m, now).expect("the system supplies randomness");
    assert!(website_editor::gate::require_password_set(&flagged.claims).is_err());
    let settled = plan_token_issue(&user("h", 0), &m, now).expect("the system supplies randomness");
    assert!(website_editor::gate::require_password_set(&settled.claims).is_ok());
}

#[test]
fn store_defaults_and_body_wrapper() {
    let c = website_editor::store::SqliteConfig::default();
    assert_eq!(c.url, "sqlite://data.db?mode=rwc");
    assert_eq!(c.max_connections, 5);
    let v = website_editor::extract::ValidatedJson(7);
    assert_eq!(v.into_inner(), 7);
}
