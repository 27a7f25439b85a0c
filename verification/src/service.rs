//! The decisions each service takes between its database calls: what a
//! request is checked against, what is written, and what error answers it.
//! The HTTP layer performs the database calls and hands the rows in.

use vstd::prelude::*;
use vstd::string::*;
use vstd::utf8::encode_utf8;

use crate::codes;
use crate::dto::{
    is_allowed_role, user_dto_spec, AuthResponseDto, ChangePasswordDto, NewItemDto,
    NewProjectDto, NewProjectVersionDto, NewUserDto, TokenPairDto, UpdateItemDto,
    UpdateProjectDto, UpdateUserDto, UserDto,
};
use crate::error::{
    err_invalid_credentials, err_invalid_refresh_token, err_validation, internal_error,
    is_plain_error, RepoError, RepoResult, ServiceError, ServiceResult,
};
use crate::model::{Item, Project, RefreshToken, User};
use crate::password::{hash, password_matches, verify};
use crate::text::{contains_char, is_blank, str_eq, trim, trim_spec};
use crate::token::{
    is_lower_hex, new_refresh_material, sha256_hex, sha256_hex_spec, window_ok, Claims, RefreshMaterial,
    TokenManager,
};

verus! {

/// The number of bytes a text takes in UTF-8 (what `str::len` counts).
pub open spec fn byte_len(s: Seq<char>) -> int {
    encode_utf8(s).len() as int
}

/// `Option<String>` as an optional text.
pub open spec fn opt_text(o: Option<String>) -> Option<Seq<char>> {
    match o {
        Some(s) => Some(s@),
        None => None,
    }
}

// ---------------------------------------------------------------------------
// Users
// ---------------------------------------------------------------------------

/// The first rule a new user breaks, as the message it is refused with: a
/// blank username, an e-mail address without `@`, a password under eight
/// bytes.
pub open spec fn user_create_error(u: Seq<char>, e: Seq<char>, p: Seq<char>) -> Option<Seq<char>> {
    if trim_spec(u).len() == 0 {
        Some("username must not be empty"@)
    } else if !e.contains('@') {
        Some("email is invalid"@)
    } else if byte_len(p) < 8 {
        Some("password must be at least 8 characters"@)
    } else {
        None
    }
}

/// What a row that `prepare_user_create` makes holds: the checks passed,
/// the username and e-mail address trimmed, a hash that the chosen password
/// checks against, and the flag as given.
pub open spec fn user_row_created(dto: NewUserDto, must_change_password: bool, row: NewUserRow) -> bool {
    &&& user_create_error(dto.username@, dto.email@, dto.password@) is None
    &&& row.username@ == trim_spec(dto.username@)
    &&& row.email@ == trim_spec(dto.email@)
    &&& password_matches(dto.password@, row.password_hash@)
    &&& row.must_change_password == must_change_password
}

/// A user row about to be inserted.
#[derive(Debug, Clone, PartialEq, Eq)]
pub struct NewUserRow {
    pub username: String,
    pub email: String,
    /// bcrypt hash of the chosen password.
    pub password_hash: String,
    pub must_change_password: bool,
}

/// Checks a new user and prepares its row: the username and e-mail address
/// trimmed, the password hashed. Self sign-up passes `false` for
/// `must_change_password`; a user created by someone else passes `true`.
pub fn prepare_user_create(dto: NewUserDto, must_change_password: bool) -> (r: ServiceResult<NewUserRow>)
    ensures
        match r {
            Ok(row) => user_row_created(dto, must_change_password, row),
            Err(e) => match user_create_error(dto.username@, dto.email@, dto.password@) {
                Some(m) => is_plain_error(e, m, codes::ERR_VALIDATION),
                None => is_plain_error(e, "internal server error"@, codes::INTERNAL_ERROR),
            },
        },
{
    if is_blank(dto.username.as_str()) {
        return Err(err_validation(String::from_str("username must not be empty")));
    }
    if !contains_char(dto.email.as_str(), '@') {
        return Err(err_validation(String::from_str("email is invalid")));
    }
    if dto.password.as_str().as_bytes().len() < 8 {
        return Err(err_validation(String::from_str("password must be at least 8 characters")));
    }
    let password_hash = match hash(dto.password) {
        Ok(h) => h,
        Err(_) => return Err(internal_error()),
    };
    Ok(NewUserRow {
        username: trim(dto.username.as_str()),
        email: trim(dto.email.as_str()),
        password_hash,
        must_change_password,
    })
}

/// Whether an update asks for a new password (a present, non-empty one).
pub open spec fn new_password_requested(p: Option<Seq<char>>) -> bool {
    p matches Some(s) && s.len() > 0
}

/// The columns an update writes.
#[derive(Debug, Clone, PartialEq, Eq)]
pub struct UserUpdateRow {
    pub username: String,
    pub email: String,
    /// The stored hash: a fresh one when a new password was given, the
    /// existing one otherwise.
    pub password: String,
}

/// Merges an update into the existing user: absent fields keep their value;
/// a non-empty password must be at least eight bytes and is hashed.
pub fn prepare_user_update(existing: User, dto: UpdateUserDto) -> (r: ServiceResult<UserUpdateRow>)
    ensures
        match r {
            Ok(row) => {
                &&& row.username@ == (match dto.username { Some(u) => u@, None => existing.username@ })
                &&& row.email@ == (match dto.email { Some(e) => e@, None => existing.email@ })
                &&& if new_password_requested(opt_text(dto.password)) {
                    byte_len(dto.password.unwrap()@) >= 8 && password_matches(
                        dto.password.unwrap()@,
                        row.password@,
                    )
                } else {
                    row.password@ == existing.password@
                }
            },
            Err(e) => {
                &&& new_password_requested(opt_text(dto.password))
                &&& if byte_len(dto.password.unwrap()@) < 8 {
                    is_plain_error(e, "password must be at least 8 characters"@, codes::ERR_VALIDATION)
                } else {
                    is_plain_error(e, "internal server error"@, codes::INTERNAL_ERROR)
                }
            },
        },
{
    let username = match dto.username {
        Some(u) => u,
        None => existing.username,
    };
    let email = match dto.email {
        Some(e) => e,
        None => existing.email,
    };
    let password = match dto.password {
        Some(new) => {
            if new.as_str().unicode_len() > 0 {
                if new.as_str().as_bytes().len() < 8 {
                    return Err(err_validation(String::from_str("password must be at least 8 characters")));
                }
                match hash(new) {
                    Ok(h) => h,
                    Err(_) => return Err(internal_error()),
                }
            } else {
                existing.password
            }
        },
        None => existing.password,
    };
    Ok(UserUpdateRow { username, email, password })
}

/// A temporary password set by an administrator, hashed for storage; the
/// user is then made to change it.
pub fn prepare_password_reset(temporary_password: String) -> (r: ServiceResult<String>)
    ensures
        match r {
            Ok(h) => password_matches(temporary_password@, h@),
            Err(e) => is_plain_error(e, "internal server error"@, codes::INTERNAL_ERROR),
        },
{
    match hash(temporary_password) {
        Ok(h) => Ok(h),
        Err(_) => Err(internal_error()),
    }
}

// ---------------------------------------------------------------------------
// Authentication
// ---------------------------------------------------------------------------

/// The user a login lets in: the one found by e-mail, when the password
/// checks against its stored hash.
pub open spec fn login_outcome(lookup: RepoResult<User>, password: Seq<char>) -> Option<User> {
    match lookup {
        Ok(u) => if password_matches(password, u.password@) {
            Some(u)
        } else {
            None
        },
        Err(_) => None,
    }
}

/// Login: the user found by e-mail, if the password checks against the
/// stored hash. An unknown address and a wrong password get the same answer.
pub fn check_login(lookup: RepoResult<User>, password: String) -> (r: ServiceResult<User>)
    ensures
        match login_outcome(lookup, password@) {
            Some(u) => r == Ok::<User, ServiceError>(u),
            None => r matches Err(e) && is_plain_error(e, "invalid credentials"@, codes::ERR_INVALID_CREDENTIALS),
        },
{
    let user = match lookup {
        Ok(u) => u,
        Err(_) => return Err(err_invalid_credentials()),
    };
    if !verify(password, user.password.clone()) {
        return Err(err_invalid_credentials());
    }
    Ok(user)
}

/// What a successful password change establishes: the current password
/// checked, the new one differs from it, and the new hash is one that the
/// new password checks against.
pub open spec fn password_change_accepted(user: User, dto: ChangePasswordDto, h: Seq<char>) -> bool {
    &&& password_matches(dto.current_password@, user.password@)
    &&& dto.new_password@ != dto.current_password@
    &&& password_matches(dto.new_password@, h)
}

/// A password change by the user: the current password must check, the new
/// one must differ from it; the new one is then hashed.
pub fn prepare_password_change(user: &User, dto: ChangePasswordDto) -> (r: ServiceResult<String>)
    ensures
        if !password_matches(dto.current_password@, user.password@) {
            r matches Err(e) && is_plain_error(e, "invalid credentials"@, codes::ERR_INVALID_CREDENTIALS)
        } else if dto.new_password@ == dto.current_password@ {
            r matches Err(e) && is_plain_error(
                e,
                "new password must differ from current"@,
                codes::ERR_VALIDATION,
            )
        } else {
            match r {
                Ok(h) => password_matches(dto.new_password@, h@),
                Err(e) => is_plain_error(e, "internal server error"@, codes::INTERNAL_ERROR),
            }
        },
        r matches Ok(h) ==> password_change_accepted(*user, dto, h@),
{
    let current = dto.current_password;
    let new = dto.new_password;
    if !verify(current.clone(), user.password.clone()) {
        return Err(err_invalid_credentials());
    }
    if new == current {
        return Err(err_validation(String::from_str("new password must differ from current")));
    }
    match hash(new) {
        Ok(h) => Ok(h),
        Err(_) => Err(internal_error()),
    }
}

/// What issuing a token pair to a user needs before the refresh token is
/// stored: the access-token claims and the new refresh token with its
/// stored form and expiry.
#[derive(Debug)]
pub struct IssuePlan {
    pub claims: Claims,
    pub refresh: RefreshMaterial,
    pub refresh_expires_at: i64,
}

pub fn plan_token_issue(user: &User, manager: &TokenManager, now: i64) -> (r: ServiceResult<IssuePlan>)
    requires
        window_ok(now as int, manager.access_minutes_spec() as int, 60),
        window_ok(now as int, manager.refresh_days_spec() as int, 86400),
    ensures
        match r {
            Ok(p) => {
                &&& p.claims.sub == user.id
                &&& p.claims.username@ == user.username@
                &&& p.claims.iat == now
                &&& p.claims.exp == now + manager.access_minutes_spec() * 60
                &&& p.claims.must_change_password == (user.must_change_password != 0)
                &&& p.refresh.raw@.len() == 64
                &&& is_lower_hex(p.refresh.raw@)
                &&& p.refresh.hashed@ == sha256_hex_spec(p.refresh.raw@)
                &&& p.refresh_expires_at == now + manager.refresh_days_spec() * 86400
            },
            Err(e) => is_plain_error(e, "internal server error"@, codes::INTERNAL_ERROR),
        },
{
    let must_change = user.must_change_password != 0;
    let claims = manager.access_claims(user.id, user.username.as_str(), must_change, now);
    let refresh = match new_refresh_material() {
        Ok(m) => m,
        Err(_) => return Err(internal_error()),
    };
    let refresh_expires_at = manager.refresh_expires_at(now);
    Ok(IssuePlan { claims, refresh, refresh_expires_at })
}

/// The answer to a successful sign-up, login or refresh.
pub fn auth_response(user: User, access_token: String, refresh_token: String, manager: &TokenManager) -> (r: AuthResponseDto)
    requires
        i64::MIN <= manager.access_minutes_spec() * 60 <= i64::MAX,
        i64::MIN <= manager.refresh_days_spec() * 86400 <= i64::MAX,
    ensures
        r.user == user_dto_spec(user),
        r.token.access_token == access_token,
        r.token.refresh_token == refresh_token,
        r.token.token_type@ == "Bearer"@,
        r.token.expires_in == manager.access_minutes_spec() * 60,
        r.token.refresh_expires_in == manager.refresh_days_spec() * 86400,
{
    let expires_in = manager.access_expires_in_seconds();
    let refresh_expires_in = manager.refresh_expires_in_seconds();
    AuthResponseDto {
        user: UserDto::from_user(user),
        token: TokenPairDto {
            access_token,
            refresh_token,
            token_type: String::from_str("Bearer"),
            expires_in,
            refresh_expires_in,
        },
    }
}

/// Refresh: the active row that a presented token hashes to; any failure to
/// find it answers as an invalid refresh token.
pub fn check_refresh_lookup(lookup: RepoResult<RefreshToken>) -> (r: ServiceResult<RefreshToken>)
    ensures
        match lookup {
            Ok(t) => r == Ok::<RefreshToken, ServiceError>(t),
            Err(_) => r matches Err(e) && is_plain_error(
                e,
                "invalid or expired refresh token"@,
                codes::ERR_INVALID_REFRESH_TOKEN,
            ),
        },
{
    match lookup {
        Ok(t) => Ok(t),
        Err(_) => Err(err_invalid_refresh_token()),
    }
}

/// Logout: the row to revoke, when the presented token is active. Logout
/// itself always succeeds.
pub fn logout_revocation(lookup: RepoResult<RefreshToken>) -> (id: Option<i64>)
    ensures
        match lookup {
            Ok(t) => id == Some(t.id),
            Err(_) => id is None,
        },
{
    match lookup {
        Ok(t) => Some(t.id),
        Err(_) => None,
    }
}

// ---------------------------------------------------------------------------
// Items
// ---------------------------------------------------------------------------

/// The columns an item is written with.
#[derive(Debug, Clone, PartialEq, Eq)]
pub struct ItemFields {
    pub name: String,
    pub description: Option<String>,
}

/// A new item: its name trimmed, refused when blank.
pub fn prepare_item_create(dto: NewItemDto) -> (r: ServiceResult<ItemFields>)
    ensures
        match r {
            Ok(f) => trim_spec(dto.name@).len() > 0 && f.name@ == trim_spec(dto.name@) && f.description
                == dto.description,
            Err(e) => trim_spec(dto.name@).len() == 0 && is_plain_error(
                e,
                "name must not be empty"@,
                codes::ERR_VALIDATION,
            ),
        },
{
    let name = trim(dto.name.as_str());
    if name.as_str().unicode_len() == 0 {
        return Err(err_validation(String::from_str("name must not be empty")));
    }
    Ok(ItemFields { name, description: dto.description })
}

/// An item update: absent fields keep their value; the resulting name is
/// refused when blank (it is stored as given, untrimmed).
pub fn prepare_item_update(existing: Item, dto: UpdateItemDto) -> (r: ServiceResult<ItemFields>)
    ensures
        ({
            let name = match dto.name { Some(n) => n@, None => existing.name@ };
            match r {
                Ok(f) => trim_spec(name).len() > 0 && f.name@ == name && f.description == (match dto.description {
                    Some(d) => Some(d),
                    None => existing.description,
                }),
                Err(e) => trim_spec(name).len() == 0 && is_plain_error(
                    e,
                    "name must not be empty"@,
                    codes::ERR_VALIDATION,
                ),
            }
        }),
{
    let name = match dto.name {
        Some(n) => n,
        None => existing.name,
    };
    if is_blank(name.as_str()) {
        return Err(err_validation(String::from_str("name must not be empty")));
    }
    let description = match dto.description {
        Some(d) => Some(d),
        None => existing.description,
    };
    Ok(ItemFields { name, description })
}

// ---------------------------------------------------------------------------
// Projects
// ---------------------------------------------------------------------------

/// Builds the empty JSON object `{}` (`serde_json::Value::Object` of a new
/// `serde_json::Map`). The value is opaque here: nothing is stated of it.
#[verifier::external_body]
fn empty_json_object() -> serde_json::Value {
    serde_json::Value::Object(serde_json::Map::new())
}

/// The columns a project is written with.
#[derive(Debug)]
pub struct ProjectFields {
    pub name: String,
    pub object_data: serde_json::Value,
}

/// A new project: its name trimmed, refused when blank; its document the
/// one given, or the empty object.
pub fn prepare_project_create(dto: NewProjectDto) -> (r: ServiceResult<ProjectFields>)
    ensures
        match r {
            Ok(f) => {
                &&& trim_spec(dto.name@).len() > 0
                &&& f.name@ == trim_spec(dto.name@)
                &&& (dto.object_data matches Some(d) ==> f.object_data == d)
            },
            Err(e) => trim_spec(dto.name@).len() == 0 && is_plain_error(
                e,
                "name must not be empty"@,
                codes::ERR_VALIDATION,
            ),
        },
{
    let name = trim(dto.name.as_str());
    if name.as_str().unicode_len() == 0 {
        return Err(err_validation(String::from_str("name must not be empty")));
    }
    let object_data = match dto.object_data {
        Some(d) => d,
        None => empty_json_object(),
    };
    Ok(ProjectFields { name, object_data })
}

/// A project update: absent fields keep their value; the resulting name is
/// refused when blank (it is stored as given, untrimmed).
pub fn prepare_project_update(existing: Project, dto: UpdateProjectDto) -> (r: ServiceResult<ProjectFields>)
    ensures
        ({
            let name = match dto.name { Some(n) => n@, None => existing.name@ };
            match r {
                Ok(f) => {
                    &&& trim_spec(name).len() > 0
                    &&& f.name@ == name
                    &&& f.object_data == (match dto.object_data {
                        Some(d) => d,
                        None => existing.object_data,
                    })
                },
                Err(e) => trim_spec(name).len() == 0 && is_plain_error(
                    e,
                    "name must not be empty"@,
                    codes::ERR_VALIDATION,
                ),
            }
        }),
{
    let name = match dto.name {
        Some(n) => n,
        None => existing.name,
    };
    if is_blank(name.as_str()) {
        return Err(err_validation(String::from_str("name must not be empty")));
    }
    let object_data = match dto.object_data {
        Some(d) => d,
        None => existing.object_data,
    };
    Ok(ProjectFields { name, object_data })
}

// ---------------------------------------------------------------------------
// Project members
// ---------------------------------------------------------------------------

/// The roles a member may hold, as the error message lists them.
pub open spec fn allowed_roles_message() -> Seq<char> {
    "role must be one of [\"editor\", \"viewer\"]"@
}

/// The service's role check, run before a member is attached or its role
/// changed.
pub fn validate_role(role: &str) -> (r: ServiceResult<()>)
    ensures
        r is Ok <==> is_allowed_role(role@),
        r matches Err(e) ==> is_plain_error(e, allowed_roles_message(), codes::ERR_VALIDATION),
{
    if str_eq(role, "editor") || str_eq(role, "viewer") {
        Ok(())
    } else {
        Err(err_validation(String::from_str("role must be one of [\"editor\", \"viewer\"]")))
    }
}

// ---------------------------------------------------------------------------
// Project versions
// ---------------------------------------------------------------------------

/// A version row about to be inserted.
#[derive(Debug)]
pub struct NewVersionRow {
    pub project_id: i64,
    pub version_number: i64,
    pub object_snapshot: serde_json::Value,
    pub created_by: Option<i64>,
}

/// A snapshot: the project's version counter has just been bumped, and the
/// new version takes the bumped number.
pub fn prepare_snapshot(project_id: i64, bumped: &Project, dto: NewProjectVersionDto) -> (r: NewVersionRow)
    ensures
        r.project_id == project_id,
        r.version_number == bumped.current_version,
        r.object_snapshot == dto.object_snapshot,
        r.created_by == dto.created_by,
{
    NewVersionRow {
        project_id,
        version_number: bumped.current_version,
        object_snapshot: dto.object_snapshot,
        created_by: dto.created_by,
    }
}

// ---------------------------------------------------------------------------
// Refresh-token rows
// ---------------------------------------------------------------------------

/// Whether a stored refresh token still admits the token that hashes to
/// `hash` at time `now`: same hash, not revoked, not expired.
pub open spec fn row_is_active(t: RefreshToken, hash: Seq<char>, now: int) -> bool {
    &&& t.token_hash@ == hash
    &&& t.revoked == 0
    &&& t.expires_at > now
}

/// Among the stored rows for a presented token, the position of the one
/// that is still active at `now`.
pub fn find_active(rows: &Vec<RefreshToken>, token_hash: &str, now: i64) -> (r: Option<usize>)
    ensures
        match r {
            Some(i) => i < rows@.len() && row_is_active(rows@[i as int], token_hash@, now as int) && forall|
                j: int,
            | 0 <= j < i ==> !row_is_active(#[trigger] rows@[j], token_hash@, now as int),
            None => forall|j: int|
                0 <= j < rows@.len() ==> !row_is_active(#[trigger] rows@[j], token_hash@, now as int),
        },
{
    let n = rows.len();
    let mut i: usize = 0;
    while i < n
        invariant
            n == rows@.len(),
            0 <= i <= n,
            forall|j: int| 0 <= j < i ==> !row_is_active(#[trigger] rows@[j], token_hash@, now as int),
        decreases n - i,
    {
        let t = &rows[i];
        if str_eq(t.token_hash.as_str(), token_hash) && t.revoked == 0 && t.expires_at > now {
            return Some(i);
        }
        i = i + 1;
    }
    None
}

/// A row after `revoke` has marked it.
pub open spec fn revoked_row(t: RefreshToken) -> RefreshToken {
    RefreshToken { revoked: 1, ..t }
}

/// The table after revoking the row with this id (`UPDATE ... SET revoked
/// = 1 WHERE id = ?`).
pub open spec fn revoke_spec(rows: Seq<RefreshToken>, id: i64) -> Seq<RefreshToken> {
    rows.map_values(|t: RefreshToken| if t.id == id { revoked_row(t) } else { t })
}

/// The table after revoking every live row of a user (`UPDATE ... SET
/// revoked = 1 WHERE user_id = ? AND revoked = 0`).
pub open spec fn revoke_all_for_user_spec(rows: Seq<RefreshToken>, user_id: i64) -> Seq<RefreshToken> {
    rows.map_values(
        |t: RefreshToken| if t.user_id == user_id && t.revoked == 0 { revoked_row(t) } else { t },
    )
}

/// Refresh tokens rotate: once the row a token was found by is revoked, the
/// same token is no longer admitted, at any time. (Token hashes are unique
/// among the rows.)
pub proof fn lemma_rotated_refresh_token_is_dead(rows: Seq<RefreshToken>, hash: Seq<char>, now: int, i: int, later: int)
    requires
        forall|a: int, b: int|
            0 <= a < rows.len() && 0 <= b < rows.len() && (#[trigger] rows[a]).token_hash@
                == (#[trigger] rows[b]).token_hash@ ==> a == b,
        0 <= i < rows.len(),
        row_is_active(rows[i], hash, now),
    ensures
        forall|j: int|
            0 <= j < revoke_spec(rows, rows[i].id).len() ==> !row_is_active(
                #[trigger] revoke_spec(rows, rows[i].id)[j],
                hash,
                later,
            ),
{
    let after = revoke_spec(rows, rows[i].id);
    assert forall|j: int| 0 <= j < after.len() implies !row_is_active(#[trigger] after[j], hash, later) by {
        if j != i && rows[j].token_hash@ == hash {
            assert(rows[j].token_hash@ == rows[i].token_hash@);
        }
    }
}

/// Revoking all of a user's tokens (as a password change does) leaves none
/// of them admitted, for any token at any time; other users' rows are
/// untouched.
pub proof fn lemma_revoke_all_ends_sessions(rows: Seq<RefreshToken>, user_id: i64, hash: Seq<char>, later: int)
    ensures
        forall|j: int|
            0 <= j < rows.len() && rows[j].user_id == user_id ==> !row_is_active(
                #[trigger] revoke_all_for_user_spec(rows, user_id)[j],
                hash,
                later,
            ),
        forall|j: int|
            0 <= j < rows.len() && rows[j].user_id != user_id ==> #[trigger] revoke_all_for_user_spec(
                rows,
                user_id,
            )[j] == rows[j],
{
}

// ---------------------------------------------------------------------------
// Refresh and logout over the stored rows
// ---------------------------------------------------------------------------

/// Whether row `i` is the first one that admits the token hashing to `hash`
/// at `now`.
pub open spec fn is_first_active(rows: Seq<RefreshToken>, hash: Seq<char>, now: int, i: int) -> bool {
    &&& 0 <= i < rows.len()
    &&& row_is_active(rows[i], hash, now)
    &&& forall|j: int| 0 <= j < i ==> !row_is_active(#[trigger] rows[j], hash, now)
}

/// The stored row that a presented token is found by at `now`: the first
/// active row under its SHA-256 hash, if there is one.
pub open spec fn active_row_for(rows: Seq<RefreshToken>, token: Seq<char>, now: int) -> Option<RefreshToken> {
    let h = sha256_hex_spec(token);
    if exists|i: int| is_first_active(rows, h, now, i) {
        Some(rows[choose|i: int| is_first_active(rows, h, now, i)])
    } else {
        None
    }
}

/// A row that admits a hash makes some row the first to admit it.
proof fn lemma_first_active_exists(rows: Seq<RefreshToken>, hash: Seq<char>, now: int, i: int)
    requires
        0 <= i < rows.len(),
        row_is_active(rows[i], hash, now),
    ensures
        exists|k: int| is_first_active(rows, hash, now, k),
    decreases i,
{
    if exists|j: int| 0 <= j < i && row_is_active(#[trigger] rows[j], hash, now) {
        let j = choose|j: int| 0 <= j < i && row_is_active(#[trigger] rows[j], hash, now);
        lemma_first_active_exists(rows, hash, now, j);
    } else {
        assert(is_first_active(rows, hash, now, i));
    }
}

/// The first row to admit a hash is the row `active_row_for` names.
proof fn lemma_first_active_is_found(rows: Seq<RefreshToken>, token: Seq<char>, now: int, i: int)
    requires
        is_first_active(rows, sha256_hex_spec(token), now, i),
    ensures
        active_row_for(rows, token, now) == Some(rows[i]),
{
    let h = sha256_hex_spec(token);
    let k = choose|k: int| is_first_active(rows, h, now, k);
    assert(is_first_active(rows, h, now, k));
    if k < i {
        assert(!row_is_active(rows[k], h, now));
    } else if k > i {
        assert(!row_is_active(rows[i], h, now));
    }
}

/// Refresh: the stored row that the presented token is found by; when no
/// row admits it, the answer is an invalid refresh token.
pub fn refresh_lookup(rows: Vec<RefreshToken>, presented: &str, now: i64) -> (r: ServiceResult<RefreshToken>)
    ensures
        match active_row_for(rows@, presented@, now as int) {
            Some(t) => r == Ok::<RefreshToken, ServiceError>(t),
            None => r matches Err(e) && is_plain_error(
                e,
                "invalid or expired refresh token"@,
                codes::ERR_INVALID_REFRESH_TOKEN,
            ),
        },
{
    let ghost all = rows@;
    let mut rows = rows;
    let hashed = sha256_hex(presented);
    let lookup = match find_active(&rows, hashed.as_str(), now) {
        Some(i) => {
            proof {
                lemma_first_active_is_found(all, presented@, now as int, i as int);
            }
            Ok(rows.remove(i))
        },
        None => {
            proof {
                if exists|k: int| is_first_active(all, hashed@, now as int, k) {
                    let k = choose|k: int| is_first_active(all, hashed@, now as int, k);
                    assert(!row_is_active(all[k], hashed@, now as int));
                }
            }
            Err(RepoError::NotFound)
        },
    };
    check_refresh_lookup(lookup)
}

/// Logout: the id of the stored row that the presented token is found by,
/// which is then revoked; `None` when no row admits it (logout succeeds
/// either way).
pub fn logout_target(rows: Vec<RefreshToken>, presented: &str, now: i64) -> (id: Option<i64>)
    ensures
        match active_row_for(rows@, presented@, now as int) {
            Some(t) => id == Some(t.id),
            None => id is None,
        },
{
    let ghost all = rows@;
    let mut rows = rows;
    let hashed = sha256_hex(presented);
    let lookup = match find_active(&rows, hashed.as_str(), now) {
        Some(i) => {
            proof {
                lemma_first_active_is_found(all, presented@, now as int, i as int);
            }
            Ok(rows.remove(i))
        },
        None => {
            proof {
                if exists|k: int| is_first_active(all, hashed@, now as int, k) {
                    let k = choose|k: int| is_first_active(all, hashed@, now as int, k);
                    assert(!row_is_active(all[k], hashed@, now as int));
                }
            }
            Err(RepoError::NotFound)
        },
    };
    logout_revocation(lookup)
}

/// Refresh tokens rotate. Say a refresh with token `t` at `now` found its
/// row, that row was revoked and a new token `n` was stored in a fresh,
/// unrevoked row (as `plan_token_issue` plans it). Then from `now` on, `t`
/// is no longer found (`refresh_lookup` answers it as an invalid refresh
/// token), while `n` is found until its row expires, and `n` differs from
/// `t`. It holds when the found row was the only one admitting `t` at `now`
/// and the two tokens hash differently.
pub proof fn lemma_refresh_rotates(
    rows: Seq<RefreshToken>,
    t: Seq<char>,
    n: Seq<char>,
    now: int,
    later: int,
    new_row: RefreshToken,
)
    requires
        active_row_for(rows, t, now) matches Some(found) && forall|j: int|
            0 <= j < rows.len() && row_is_active(#[trigger] rows[j], sha256_hex_spec(t), now)
                ==> rows[j].id == found.id,
        sha256_hex_spec(n) != sha256_hex_spec(t),
        new_row.token_hash@ == sha256_hex_spec(n),
        new_row.revoked == 0,
        now <= later < new_row.expires_at,
    ensures
        ({
            let after = revoke_spec(rows, active_row_for(rows, t, now)->0.id).push(new_row);
            &&& active_row_for(after, t, later) is None
            &&& active_row_for(after, n, later) is Some
        }),
        n != t,
{
    let found = active_row_for(rows, t, now)->0;
    let ht = sha256_hex_spec(t);
    let hn = sha256_hex_spec(n);
    let after = revoke_spec(rows, found.id).push(new_row);
    assert forall|j: int| 0 <= j < after.len() implies !row_is_active(#[trigger] after[j], ht, later) by {
        if j < rows.len() && row_is_active(after[j], ht, later) {
            assert(row_is_active(rows[j], ht, now));
        }
    }
    if exists|k: int| is_first_active(after, ht, later, k) {
        let k = choose|k: int| is_first_active(after, ht, later, k);
        assert(!row_is_active(after[k], ht, later));
    }
    let last = after.len() - 1;
    assert(after[last] == new_row);
    lemma_first_active_exists(after, hn, later, last);
}

/// Logout ends the presented token: after the row that `logout_target`
/// names is revoked (nothing, when it names none), the token is not found
/// at any time from `now` on, and every row stored under another hash is
/// unchanged. It holds when row ids are unique (they are the table's key)
/// and no row other than the found one admits the token at `now`.
pub proof fn lemma_logout_ends_token(rows: Seq<RefreshToken>, t: Seq<char>, now: int, later: int)
    requires
        forall|a: int, b: int|
            0 <= a < rows.len() && 0 <= b < rows.len() && (#[trigger] rows[a]).id == (#[trigger] rows[b]).id
                ==> a == b,
        active_row_for(rows, t, now) matches Some(found) ==> forall|j: int|
            0 <= j < rows.len() && row_is_active(#[trigger] rows[j], sha256_hex_spec(t), now)
                ==> rows[j].id == found.id,
        now <= later,
    ensures
        ({
            let after = match active_row_for(rows, t, now) {
                Some(found) => revoke_spec(rows, found.id),
                None => rows,
            };
            &&& active_row_for(after, t, later) is None
            &&& after.len() == rows.len()
            &&& forall|j: int|
                0 <= j < rows.len() && rows[j].token_hash@ != sha256_hex_spec(t) ==> #[trigger] after[j]
                    == rows[j]
        }),
{
    let ht = sha256_hex_spec(t);
    let after = match active_row_for(rows, t, now) {
        Some(found) => revoke_spec(rows, found.id),
        None => rows,
    };
    match active_row_for(rows, t, now) {
        Some(found) => {
            let i = choose|i: int| is_first_active(rows, ht, now, i);
            assert(found == rows[i]);
            assert forall|j: int|
                0 <= j < rows.len() && rows[j].token_hash@ != ht implies #[trigger] after[j] == rows[j] by {
                if rows[j].id == found.id {
                    assert(j == i);
                }
            }
        },
        None => {
            assert forall|j: int| 0 <= j < rows.len() implies !row_is_active(#[trigger] rows[j], ht, now) by {
                if row_is_active(rows[j], ht, now) {
                    lemma_first_active_exists(rows, ht, now, j);
                }
            }
        },
    }
    assert forall|j: int| 0 <= j < after.len() implies !row_is_active(#[trigger] after[j], ht, later) by {
        if row_is_active(after[j], ht, later) {
            assert(row_is_active(rows[j], ht, now));
        }
    }
    if exists|k: int| is_first_active(after, ht, later, k) {
        let k = choose|k: int| is_first_active(after, ht, later, k);
        assert(!row_is_active(after[k], ht, later));
    }
}

// ---------------------------------------------------------------------------
// Logging in after sign-up and after a password change
// ---------------------------------------------------------------------------

/// Sign-up then login: a user stored from the row that `prepare_user_create`
/// made for a self sign-up is let in by a login with the password chosen at
/// sign-up; its e-mail address and username are the trimmed ones given, it
/// has no pending password change, and the access tokens issued to it pass
/// the password gate.
pub proof fn lemma_signup_then_login(dto: NewUserDto, row: NewUserRow, stored: User, claims: Claims)
    requires
        user_row_created(dto, false, row),
        stored.username@ == row.username@,
        stored.email@ == row.email@,
        stored.password@ == row.password_hash@,
        stored.must_change_password == (if row.must_change_password { 1i64 } else { 0i64 }),
        claims.must_change_password == (stored.must_change_password != 0),
    ensures
        login_outcome(Ok::<User, RepoError>(stored), dto.password@) == Some(stored),
        stored.username@ == trim_spec(dto.username@),
        stored.email@ == trim_spec(dto.email@),
        !user_dto_spec(stored).must_change_password,
        crate::gate::password_settled(claims),
{
}

/// Login after a password change: once the hash that
/// `prepare_password_change` accepted is stored and the pending-change flag
/// cleared, a login with the new password lets the user in, and the access
/// tokens issued to it pass the password gate.
pub proof fn lemma_changed_password_logs_in(user: User, dto: ChangePasswordDto, h: Seq<char>, stored: User, claims: Claims)
    requires
        password_change_accepted(user, dto, h),
        stored.password@ == h,
        stored.must_change_password == 0,
        claims.must_change_password == (stored.must_change_password != 0),
    ensures
        login_outcome(Ok::<User, RepoError>(stored), dto.new_password@) == Some(stored),
        !user_dto_spec(stored).must_change_password,
        crate::gate::password_settled(claims),
{
}

} // verus!
