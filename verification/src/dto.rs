//! Request and response shapes, their field rules, and the conversions from
//! database rows. Passwords never appear in a response.

use vstd::prelude::*;
use vstd::string::*;
use vstd::std_specs::convert::FromSpecImpl;

use crate::error::{FieldMessages, ServiceError};
use crate::model::{Item, Project, ProjectMember, ProjectVersion, User};
use crate::text::str_eq;
use crate::validation::{
    email_error, email_error_spec, entry_if, length_error, length_error_spec, range_error,
    range_error_spec, result_matches, validate_email, validate_length, validate_range,
    email_is_valid, ErrorCollector, FieldError, FieldErrorListV, FieldErrorV, ParamV, ParamValue,
    ValidationErrors,
};

verus! {

// ---------------------------------------------------------------------------
// Health
// ---------------------------------------------------------------------------

/// The package's name and version.
#[derive(Debug, Clone, PartialEq, Eq)]
pub struct HealthDto {
    pub name: &'static str,
    pub version: &'static str,
}

impl HealthDto {
    pub fn current() -> (h: HealthDto)
        ensures
            h.name@ == "website_editor"@,
            h.version@ == "0.1.0"@,
    {
        HealthDto { name: "website_editor", version: "0.1.0" }
    }
}

// ---------------------------------------------------------------------------
// Response envelope
// ---------------------------------------------------------------------------

#[derive(Debug, Clone, PartialEq, Eq)]
pub struct ErrorStructure {
    pub code: i32,
    pub message: String,
    /// The messages of each failing field, for validation failures.
    pub fields: Option<Vec<FieldMessages>>,
}

/// `{ data }` on success, `{ error: { code, message } }` on failure.
#[derive(Debug)]
pub struct Response<T> {
    pub data: Option<T>,
    pub error: Option<ErrorStructure>,
}

impl<T> Response<T> {
    pub fn ok(data: T) -> (r: Response<T>)
        ensures
            r.data == Some(data),
            r.error is None,
    {
        Response { data: Some(data), error: None }
    }

    pub fn err(code: i32, message: String) -> (r: Response<T>)
        ensures
            r.data is None,
            r.error matches Some(e) && e.code == code && e.message == message && e.fields is None,
    {
        Response { data: None, error: Some(ErrorStructure { code, message, fields: None }) }
    }

    /// The body an error is answered with: its code, its message and, for a
    /// validation failure, the messages of every failing field.
    pub fn from_error(e: ServiceError) -> (r: Response<T>)
        ensures
            r.data is None,
            r.error matches Some(s) && s.code == e.code && s.message == e.message && s.fields == e.fields,
    {
        Response { data: None, error: Some(ErrorStructure { code: e.code, message: e.message, fields: e.fields }) }
    }
}

// ---------------------------------------------------------------------------
// Users
// ---------------------------------------------------------------------------

/// A user as clients see it: no password.
#[derive(Debug, Clone, PartialEq, Eq)]
pub struct UserDto {
    pub id: i64,
    pub username: String,
    pub email: String,
    pub is_system: bool,
    pub must_change_password: bool,
    pub last_login_at: Option<i64>,
    pub created_at: i64,
    pub updated_at: i64,
}

impl From<User> for UserDto {
    fn from(u: User) -> (d: UserDto)
        ensures
            d.id == u.id,
            d.username == u.username,
            d.email == u.email,
            d.is_system == (u.is_system != 0),
            d.must_change_password == (u.must_change_password != 0),
            d.last_login_at == u.last_login_at,
            d.created_at == u.created_at,
            d.updated_at == u.updated_at,
    {
        UserDto {
            id: u.id,
            username: u.username,
            email: u.email,
            is_system: u.is_system != 0,
            must_change_password: u.must_change_password != 0,
            last_login_at: u.last_login_at,
            created_at: u.created_at,
            updated_at: u.updated_at,
        }
    }
}

impl FromSpecImpl<User> for UserDto {
    open spec fn obeys_from_spec() -> bool {
        true
    }

    open spec fn from_spec(u: User) -> UserDto {
        user_dto_spec(u)
    }
}

/// The client view of a user row: its flags read as booleans, its password
/// left out.
pub open spec fn user_dto_spec(u: User) -> UserDto {
        UserDto {
            id: u.id,
            username: u.username,
            email: u.email,
            is_system: u.is_system != 0,
            must_change_password: u.must_change_password != 0,
            last_login_at: u.last_login_at,
            created_at: u.created_at,
            updated_at: u.updated_at,
        }
}

impl UserDto {
    /// The client view of a user row (`From<User>`).
    pub fn from_user(u: User) -> (d: UserDto)
        ensures
            d == user_dto_spec(u),
            d.id == u.id,
            d.username == u.username,
            d.email == u.email,
            d.is_system == (u.is_system != 0),
            d.must_change_password == (u.must_change_password != 0),
            d.last_login_at == u.last_login_at,
            d.created_at == u.created_at,
            d.updated_at == u.updated_at,
    {
        UserDto::from(u)
    }
}

#[derive(Debug, Clone, PartialEq, Eq)]
pub struct NewUserDto {
    pub username: String,
    pub email: String,
    pub password: String,
}

#[derive(Debug, Clone, PartialEq, Eq)]
pub struct UpdateUserDto {
    pub username: Option<String>,
    pub email: Option<String>,
    pub password: Option<String>,
}

#[derive(Debug, Clone, PartialEq, Eq)]
pub struct ChangePasswordDto {
    pub current_password: String,
    pub new_password: String,
}

#[derive(Debug, Clone, PartialEq, Eq)]
pub struct ForcePasswordResetDto {
    pub temporary_password: String,
}

/// Failure of the `length(min = 5)` rule on a username.
pub open spec fn username_error(v: Seq<char>) -> FieldErrorV {
    length_error_spec("must be at least 5 characters"@, Some(5), None, v)
}

/// Failure of the `email` rule.
pub open spec fn email_rule_error(v: Seq<char>) -> FieldErrorV {
    email_error_spec("must be a valid email address"@, v)
}

/// Failure of the `length(min = 8)` rule on a password.
pub open spec fn password_error(v: Seq<char>) -> FieldErrorV {
    length_error_spec("must be at least 8 characters"@, Some(8), None, v)
}

/// The failures of a `NewUserDto`, in field order: a username shorter than
/// five characters, an invalid e-mail address, a password shorter than eight.
pub open spec fn new_user_errors(u: Seq<char>, e: Seq<char>, p: Seq<char>) -> Seq<FieldErrorListV> {
    entry_if(u.len() < 5, "username"@, username_error(u))
        + entry_if(!email_is_valid(e), "email"@, email_rule_error(e))
        + entry_if(p.len() < 8, "password"@, password_error(p))
}

/// The failures of an `UpdateUserDto`: the `NewUserDto` rules, checked only
/// on the fields that are present.
pub open spec fn update_user_errors(u: Option<Seq<char>>, e: Option<Seq<char>>, p: Option<Seq<char>>) -> Seq<FieldErrorListV> {
    entry_if(u matches Some(v) && v.len() < 5, "username"@, username_error(u.unwrap()))
        + entry_if(e matches Some(v) && !email_is_valid(v), "email"@, email_rule_error(e.unwrap()))
        + entry_if(p matches Some(v) && v.len() < 8, "password"@, password_error(p.unwrap()))
}

fn check_username(c: &mut ErrorCollector, v: &String)
    ensures
        final(c)@ == old(c)@ + entry_if(v@.len() < 5, "username"@, username_error(v@)),
{
    if !validate_length(v.as_str(), Some(5), None) {
        c.add("username", length_error("must be at least 5 characters", Some(5), None, v.as_str()));
    } else {
        assert(old(c)@ + seq![] =~= old(c)@);
    }
}

fn check_email(c: &mut ErrorCollector, v: &String)
    ensures
        final(c)@ == old(c)@ + entry_if(!email_is_valid(v@), "email"@, email_rule_error(v@)),
        !v@.contains('@') ==> !email_is_valid(v@),
{
    if !validate_email(v.as_str()) {
        c.add("email", email_error("must be a valid email address", v.as_str()));
    } else {
        assert(old(c)@ + seq![] =~= old(c)@);
    }
}

fn check_min_length(c: &mut ErrorCollector, field: &str, message: &str, min: i64, v: &String)
    requires
        min >= 0,
    ensures
        final(c)@ == old(c)@ + entry_if(
            v@.len() < min,
            field@,
            length_error_spec(message@, Some(min as int), None, v@),
        ),
{
    if !validate_length(v.as_str(), Some(min as u64), None) {
        c.add(field, length_error(message, Some(min), None, v.as_str()));
    } else {
        assert(old(c)@ + seq![] =~= old(c)@);
    }
}

fn skip(c: &ErrorCollector)
    ensures
        c@ + seq![] == c@,
{
    assert(c@ + seq![] =~= c@);
}

impl NewUserDto {
    /// Checks every field rule and reports all failing fields at once.
    pub fn validate(&self) -> (r: Result<(), ValidationErrors>)
        ensures
            result_matches(r, new_user_errors(self.username@, self.email@, self.password@)),
            !self.email@.contains('@') ==> !email_is_valid(self.email@),
    {
        let mut c = ErrorCollector::new();
        check_username(&mut c, &self.username);
        check_email(&mut c, &self.email);
        check_min_length(&mut c, "password", "must be at least 8 characters", 8, &self.password);
        assert(c@ =~= new_user_errors(self.username@, self.email@, self.password@));
        c.finish()
    }
}

impl UpdateUserDto {
    /// Checks the rules of the fields that are present; absent fields pass.
    pub fn validate(&self) -> (r: Result<(), ValidationErrors>)
        ensures
            result_matches(
                r,
                update_user_errors(
                    crate::validation::opt_str_view(self.username),
                    crate::validation::opt_str_view(self.email),
                    crate::validation::opt_str_view(self.password),
                ),
            ),
            self.email matches Some(e) ==> (!e@.contains('@') ==> !email_is_valid(e@)),
            r is Ok <==> !(self.username matches Some(v) && v@.len() < 5) && !(self.email matches Some(v)
                && !email_is_valid(v@)) && !(self.password matches Some(v) && v@.len() < 8),
            r matches Err(errs) ==> {
                &&& crate::validation::has_field(errs@, "username"@) <==> (self.username matches Some(v)
                    && v@.len() < 5)
                &&& crate::validation::has_field(errs@, "email"@) <==> (self.email matches Some(v)
                    && !email_is_valid(v@))
                &&& crate::validation::has_field(errs@, "password"@) <==> (self.password matches Some(v)
                    && v@.len() < 8)
            },
    {
        proof {
            lemma_update_user_reports_present_failing_fields(
                crate::validation::opt_str_view(self.username),
                crate::validation::opt_str_view(self.email),
                crate::validation::opt_str_view(self.password),
            );
        }
        let mut c = ErrorCollector::new();
        match &self.username {
            Some(v) => check_username(&mut c, v),
            None => skip(&c),
        }
        match &self.email {
            Some(v) => check_email(&mut c, v),
            None => skip(&c),
        }
        match &self.password {
            Some(v) => check_min_length(&mut c, "password", "must be at least 8 characters", 8, v),
            None => skip(&c),
        }
        assert(c@ =~= update_user_errors(
            crate::validation::opt_str_view(self.username),
            crate::validation::opt_str_view(self.email),
            crate::validation::opt_str_view(self.password),
        ));
        c.finish()
    }
}

/// The failures of a `ChangePasswordDto`: an empty current password, a new
/// password shorter than eight characters.
pub open spec fn change_password_errors(current: Seq<char>, new: Seq<char>) -> Seq<FieldErrorListV> {
    entry_if(current.len() < 1, "current_password"@, length_error_spec("is required"@, Some(1), None, current))
        + entry_if(new.len() < 8, "new_password"@, password_error(new))
}

impl ChangePasswordDto {
    pub fn validate(&self) -> (r: Result<(), ValidationErrors>)
        ensures
            result_matches(r, change_password_errors(self.current_password@, self.new_password@)),
    {
        let mut c = ErrorCollector::new();
        check_min_length(&mut c, "current_password", "is required", 1, &self.current_password);
        check_min_length(&mut c, "new_password", "must be at least 8 characters", 8, &self.new_password);
        assert(c@ =~= change_password_errors(self.current_password@, self.new_password@));
        c.finish()
    }
}

/// The failure of a `ForcePasswordResetDto`: a temporary password shorter
/// than eight characters.
pub open spec fn force_reset_errors(temp: Seq<char>) -> Seq<FieldErrorListV> {
    entry_if(temp.len() < 8, "temporary_password"@, password_error(temp))
}

impl ForcePasswordResetDto {
    pub fn validate(&self) -> (r: Result<(), ValidationErrors>)
        ensures
            result_matches(r, force_reset_errors(self.temporary_password@)),
    {
        let mut c = ErrorCollector::new();
        check_min_length(
            &mut c,
            "temporary_password",
            "must be at least 8 characters",
            8,
            &self.temporary_password,
        );
        assert(c@ =~= force_reset_errors(self.temporary_password@));
        c.finish()
    }
}

// ---------------------------------------------------------------------------
// Authentication
// ---------------------------------------------------------------------------

#[derive(Debug, Clone, PartialEq, Eq)]
pub struct LoginDto {
    pub email: String,
    pub password: String,
}

#[derive(Debug, Clone, PartialEq, Eq)]
pub struct RefreshDto {
    pub refresh_token: String,
}

#[derive(Debug, Clone, PartialEq, Eq)]
pub struct LogoutDto {
    pub refresh_token: String,
}

#[derive(Debug, Clone, PartialEq, Eq)]
pub struct TokenPairDto {
    pub access_token: String,
    pub refresh_token: String,
    pub token_type: String,
    /// Access-token lifetime, seconds.
    pub expires_in: i64,
    /// Refresh-token lifetime, seconds.
    pub refresh_expires_in: i64,
}

#[derive(Debug, Clone, PartialEq, Eq)]
pub struct AuthResponseDto {
    pub user: UserDto,
    pub token: TokenPairDto,
}

// ---------------------------------------------------------------------------
// Items
// ---------------------------------------------------------------------------

#[derive(Debug, Clone, PartialEq, Eq)]
pub struct NewItemDto {
    pub name: String,
    pub description: Option<String>,
}

#[derive(Debug, Clone, PartialEq, Eq)]
pub struct UpdateItemDto {
    pub name: Option<String>,
    pub description: Option<String>,
}

#[derive(Debug, Clone, PartialEq, Eq)]
pub struct ItemDto {
    pub id: i64,
    pub name: String,
    pub description: Option<String>,
    pub created_at: i64,
    pub updated_at: i64,
}

impl From<Item> for ItemDto {
    fn from(m: Item) -> (d: ItemDto)
        ensures
            d.id == m.id,
            d.name == m.name,
            d.description == m.description,
            d.created_at == m.created_at,
            d.updated_at == m.updated_at,
    {
        ItemDto {
            id: m.id,
            name: m.name,
            description: m.description,
            created_at: m.created_at,
            updated_at: m.updated_at,
        }
    }
}

impl FromSpecImpl<Item> for ItemDto {
    open spec fn obeys_from_spec() -> bool {
        true
    }

    open spec fn from_spec(m: Item) -> ItemDto {
        ItemDto {
            id: m.id,
            name: m.name,
            description: m.description,
            created_at: m.created_at,
            updated_at: m.updated_at,
        }
    }
}

// ---------------------------------------------------------------------------
// Projects
// ---------------------------------------------------------------------------

#[derive(Debug)]
pub struct ProjectDto {
    pub id: i64,
    pub name: String,
    pub current_version: i64,
    pub object_data: serde_json::Value,
    pub created_at: i64,
    pub updated_at: i64,
}

impl From<Project> for ProjectDto {
    fn from(p: Project) -> (d: ProjectDto)
        ensures
            d.id == p.id,
            d.name == p.name,
            d.current_version == p.current_version,
            d.object_data == p.object_data,
            d.created_at == p.created_at,
            d.updated_at == p.updated_at,
    {
        ProjectDto {
            id: p.id,
            name: p.name,
            current_version: p.current_version,
            object_data: p.object_data,
            created_at: p.created_at,
            updated_at: p.updated_at,
        }
    }
}

impl FromSpecImpl<Project> for ProjectDto {
    open spec fn obeys_from_spec() -> bool {
        true
    }

    open spec fn from_spec(p: Project) -> ProjectDto {
        ProjectDto {
            id: p.id,
            name: p.name,
            current_version: p.current_version,
            object_data: p.object_data,
            created_at: p.created_at,
            updated_at: p.updated_at,
        }
    }
}

#[derive(Debug)]
pub struct NewProjectDto {
    pub name: String,
    pub object_data: Option<serde_json::Value>,
}

#[derive(Debug)]
pub struct UpdateProjectDto {
    pub name: Option<String>,
    pub object_data: Option<serde_json::Value>,
}

/// Failure of the `length(min = 1, max = 200)` rule on a project name.
pub open spec fn project_name_error(v: Seq<char>) -> FieldErrorV {
    length_error_spec("must be 1-200 characters"@, Some(1), Some(200), v)
}

pub open spec fn project_name_bad(v: Seq<char>) -> bool {
    v.len() < 1 || v.len() > 200
}

fn check_project_name(c: &mut ErrorCollector, v: &String)
    ensures
        final(c)@ == old(c)@ + entry_if(project_name_bad(v@), "name"@, project_name_error(v@)),
{
    if !validate_length(v.as_str(), Some(1), Some(200)) {
        c.add("name", length_error("must be 1-200 characters", Some(1), Some(200), v.as_str()));
    } else {
        assert(old(c)@ + seq![] =~= old(c)@);
    }
}

impl NewProjectDto {
    pub fn validate(&self) -> (r: Result<(), ValidationErrors>)
        ensures
            result_matches(r, entry_if(project_name_bad(self.name@), "name"@, project_name_error(self.name@))),
    {
        let mut c = ErrorCollector::new();
        check_project_name(&mut c, &self.name);
        assert(c@ =~= entry_if(project_name_bad(self.name@), "name"@, project_name_error(self.name@)));
        c.finish()
    }
}

impl UpdateProjectDto {
    pub fn validate(&self) -> (r: Result<(), ValidationErrors>)
        ensures
            result_matches(
                r,
                entry_if(
                    self.name matches Some(v) && project_name_bad(v@),
                    "name"@,
                    project_name_error(self.name.unwrap()@),
                ),
            ),
    {
        let mut c = ErrorCollector::new();
        match &self.name {
            Some(v) => check_project_name(&mut c, v),
            None => skip(&c),
        }
        assert(c@ =~= entry_if(
            self.name matches Some(v) && project_name_bad(v@),
            "name"@,
            project_name_error(self.name.unwrap()@),
        ));
        c.finish()
    }
}

// ---------------------------------------------------------------------------
// Project members
// ---------------------------------------------------------------------------

#[derive(Debug, Clone, PartialEq, Eq)]
pub struct ProjectMemberDto {
    pub id: i64,
    pub project_id: i64,
    pub user_id: i64,
    pub role: String,
}

impl From<ProjectMember> for ProjectMemberDto {
    fn from(m: ProjectMember) -> (d: ProjectMemberDto)
        ensures
            d.id == m.id,
            d.project_id == m.project_id,
            d.user_id == m.user_id,
            d.role == m.role,
    {
        ProjectMemberDto { id: m.id, project_id: m.project_id, user_id: m.user_id, role: m.role }
    }
}

impl FromSpecImpl<ProjectMember> for ProjectMemberDto {
    open spec fn obeys_from_spec() -> bool {
        true
    }

    open spec fn from_spec(m: ProjectMember) -> ProjectMemberDto {
        ProjectMemberDto { id: m.id, project_id: m.project_id, user_id: m.user_id, role: m.role }
    }
}

/// The roles a project member can hold.
pub open spec fn is_allowed_role(role: Seq<char>) -> bool {
    role == "editor"@ || role == "viewer"@
}

/// The failure that the role rule reports itself (before the value is
/// recorded with it).
pub open spec fn invalid_role_error_spec() -> FieldErrorV {
    FieldErrorV { code: "invalid_role"@, message: Some("must be `editor` or `viewer`"@), params: seq![] }
}

/// The custom role rule: `editor` and `viewer` pass; anything else fails
/// with code `invalid_role`.
pub fn validate_role(role: &str) -> (r: Result<(), FieldError>)
    ensures
        match r {
            Ok(()) => is_allowed_role(role@),
            Err(e) => !is_allowed_role(role@) && e@ == invalid_role_error_spec(),
        },
{
    if str_eq(role, "editor") || str_eq(role, "viewer") {
        Ok(())
    } else {
        let mut err = FieldError::new("invalid_role");
        err.message = Some(String::from_str("must be `editor` or `viewer`"));
        Err(err)
    }
}

/// The failure a role field reports: the rule's failure with the value
/// recorded.
pub open spec fn role_field_error(v: Seq<char>) -> FieldErrorV {
    FieldErrorV { params: seq![("value"@, ParamV::Text(v))], ..invalid_role_error_spec() }
}

fn check_role(c: &mut ErrorCollector, v: &String)
    ensures
        final(c)@ == old(c)@ + entry_if(!is_allowed_role(v@), "role"@, role_field_error(v@)),
{
    match validate_role(v.as_str()) {
        Ok(()) => {
            assert(old(c)@ + seq![] =~= old(c)@);
        },
        Err(mut err) => {
            err.add_param("value", ParamValue::Text(v.clone()));
            assert(err@.params =~= seq![("value"@, ParamV::Text(v@))]);
            c.add("role", err);
        },
    }
}

/// The role a member gets when the request names none.
pub fn default_role() -> (r: String)
    ensures
        r@ == "viewer"@,
{
    String::from_str("viewer")
}

#[derive(Debug, Clone, PartialEq, Eq)]
pub struct AttachMemberDto {
    pub user_id: i64,
    pub role: String,
}

#[derive(Debug, Clone, PartialEq, Eq)]
pub struct UpdateMemberDto {
    pub role: String,
}

/// The failures of an `AttachMemberDto`: a user id below one, a role other
/// than `editor` or `viewer`.
pub open spec fn attach_member_errors(user_id: int, role: Seq<char>) -> Seq<FieldErrorListV> {
    entry_if(user_id < 1, "user_id"@, range_error_spec("must be a positive id"@, Some(1), None, user_id))
        + entry_if(!is_allowed_role(role), "role"@, role_field_error(role))
}

impl AttachMemberDto {
    pub fn validate(&self) -> (r: Result<(), ValidationErrors>)
        ensures
            result_matches(r, attach_member_errors(self.user_id as int, self.role@)),
    {
        let mut c = ErrorCollector::new();
        if !validate_range(self.user_id, Some(1), None) {
            c.add("user_id", range_error("must be a positive id", Some(1), None, self.user_id));
        } else {
            skip(&c);
        }
        check_role(&mut c, &self.role);
        assert(c@ =~= attach_member_errors(self.user_id as int, self.role@));
        c.finish()
    }
}

impl UpdateMemberDto {
    pub fn validate(&self) -> (r: Result<(), ValidationErrors>)
        ensures
            result_matches(r, entry_if(!is_allowed_role(self.role@), "role"@, role_field_error(self.role@))),
    {
        let mut c = ErrorCollector::new();
        check_role(&mut c, &self.role);
        assert(c@ =~= entry_if(!is_allowed_role(self.role@), "role"@, role_field_error(self.role@)));
        c.finish()
    }
}

// ---------------------------------------------------------------------------
// Project versions
// ---------------------------------------------------------------------------

#[derive(Debug)]
pub struct ProjectVersionDto {
    pub id: i64,
    pub project_id: i64,
    pub version_number: i64,
    pub object_snapshot: serde_json::Value,
    pub created_by: Option<i64>,
    pub created_at: i64,
}

impl From<ProjectVersion> for ProjectVersionDto {
    fn from(v: ProjectVersion) -> (d: ProjectVersionDto)
        ensures
            d.id == v.id,
            d.project_id == v.project_id,
            d.version_number == v.version_number,
            d.object_snapshot == v.object_snapshot,
            d.created_by == v.created_by,
            d.created_at == v.created_at,
    {
        ProjectVersionDto {
            id: v.id,
            project_id: v.project_id,
            version_number: v.version_number,
            object_snapshot: v.object_snapshot,
            created_by: v.created_by,
            created_at: v.created_at,
        }
    }
}

impl FromSpecImpl<ProjectVersion> for ProjectVersionDto {
    open spec fn obeys_from_spec() -> bool {
        true
    }

    open spec fn from_spec(v: ProjectVersion) -> ProjectVersionDto {
        ProjectVersionDto {
            id: v.id,
            project_id: v.project_id,
            version_number: v.version_number,
            object_snapshot: v.object_snapshot,
            created_by: v.created_by,
            created_at: v.created_at,
        }
    }
}

#[derive(Debug)]
pub struct NewProjectVersionDto {
    pub object_snapshot: serde_json::Value,
    pub created_by: Option<i64>,
}

impl NewProjectVersionDto {
    /// A snapshot request carries no field rules: it always passes.
    pub fn validate(&self) -> (r: Result<(), ValidationErrors>)
        ensures
            r is Ok,
    {
        Ok(())
    }
}

// ---------------------------------------------------------------------------
// Laws of the field rules
// ---------------------------------------------------------------------------

/// A user update that sets no field passes validation.
pub proof fn lemma_update_user_without_fields_passes()
    ensures
        update_user_errors(None, None, None).len() == 0,
{
    assert(update_user_errors(None, None, None) =~= Seq::<FieldErrorListV>::empty());
}

/// A new-user request is refused with every failing field named at once:
/// the username exactly when shorter than five characters, the e-mail
/// exactly when invalid, the password exactly when shorter than eight.
pub proof fn lemma_new_user_reports_every_failing_field(u: Seq<char>, e: Seq<char>, p: Seq<char>)
    ensures
        crate::validation::has_field(new_user_errors(u, e, p), "username"@) <==> u.len() < 5,
        crate::validation::has_field(new_user_errors(u, e, p), "email"@) <==> !email_is_valid(e),
        crate::validation::has_field(new_user_errors(u, e, p), "password"@) <==> p.len() < 8,
        new_user_errors(u, e, p).len() == (if u.len() < 5 { 1int } else { 0 }) + (if !email_is_valid(e) {
            1int
        } else {
            0
        }) + (if p.len() < 8 { 1int } else { 0 }),
{
    reveal_strlit("username");
    reveal_strlit("email");
    reveal_strlit("password");
    let m = new_user_errors(u, e, p);
    let a = entry_if(u.len() < 5, "username"@, username_error(u));
    let b = entry_if(!email_is_valid(e), "email"@, email_rule_error(e));
    let c = entry_if(p.len() < 8, "password"@, password_error(p));
    assert(m == a + b + c);
    assert(forall|i: int| 0 <= i < a.len() ==> (#[trigger] (a + b + c)[i]) == a[i]);
    assert(forall|i: int| 0 <= i < b.len() ==> (#[trigger] (a + b + c)[a.len() + i]) == b[i]);
    assert(forall|i: int| 0 <= i < c.len() ==> (#[trigger] (a + b + c)[a.len() + b.len() + i]) == c[i]);
    assert("username"@ != "email"@) by {
        assert("username"@.len() != "email"@.len());
    }
    assert("username"@ != "password"@) by {
        assert("username"@[0] != "password"@[0]);
    }
    assert("email"@ != "password"@) by {
        assert("email"@.len() != "password"@.len());
    }
    if u.len() < 5 {
        assert(m[0].field == "username"@);
    }
    if !email_is_valid(e) {
        assert(m[a.len() as int].field == "email"@);
    }
    if p.len() < 8 {
        assert(m[(a.len() + b.len()) as int].field == "password"@);
    }
    assert forall|i: int| 0 <= i < m.len() implies (#[trigger] m[i]).field == "username"@ || m[i].field
        == "email"@ || m[i].field == "password"@ by {
        if i < a.len() {
        } else if i < a.len() + b.len() {
            assert(m[i] == b[i - a.len()]);
        } else {
            assert(m[i] == c[i - a.len() - b.len()]);
        }
    }
    assert forall|i: int| 0 <= i < m.len() && (#[trigger] m[i]).field == "username"@ implies u.len() < 5 by {
        if i < a.len() {
        } else if i < a.len() + b.len() {
            assert(m[i] == b[i - a.len()]);
        } else {
            assert(m[i] == c[i - a.len() - b.len()]);
        }
    }
    assert forall|i: int| 0 <= i < m.len() && (#[trigger] m[i]).field == "email"@ implies !email_is_valid(e) by {
        if i < a.len() {
        } else if i < a.len() + b.len() {
            assert(m[i] == b[i - a.len()]);
        } else {
            assert(m[i] == c[i - a.len() - b.len()]);
        }
    }
    assert forall|i: int| 0 <= i < m.len() && (#[trigger] m[i]).field == "password"@ implies p.len() < 8 by {
        if i < a.len() {
        } else if i < a.len() + b.len() {
            assert(m[i] == b[i - a.len()]);
        } else {
            assert(m[i] == c[i - a.len() - b.len()]);
        }
    }
}

/// What a client sees of a user does not depend on the stored password:
/// two rows that differ only in their password hash look the same.
pub proof fn lemma_user_view_hides_password(a: User, b: User)
    requires
        a.id == b.id,
        a.username == b.username,
        a.email == b.email,
        a.is_system == b.is_system,
        a.must_change_password == b.must_change_password,
        a.last_login_at == b.last_login_at,
        a.created_at == b.created_at,
        a.updated_at == b.updated_at,
    ensures
        user_dto_spec(a) == user_dto_spec(b),
{
}

/// Three optional entries under the fields `username`, `email` and
/// `password`: each field is named exactly when its entry is there.
proof fn lemma_three_user_entries(cu: bool, ce: bool, cp: bool, eu: FieldErrorV, ee: FieldErrorV, ep: FieldErrorV)
    ensures
        ({
            let m = entry_if(cu, "username"@, eu) + entry_if(ce, "email"@, ee) + entry_if(cp, "password"@, ep);
            &&& crate::validation::has_field(m, "username"@) <==> cu
            &&& crate::validation::has_field(m, "email"@) <==> ce
            &&& crate::validation::has_field(m, "password"@) <==> cp
            &&& m.len() == (if cu { 1int } else { 0 }) + (if ce { 1int } else { 0 }) + (if cp { 1int } else { 0 })
        }),
{
    reveal_strlit("username");
    reveal_strlit("email");
    reveal_strlit("password");
    let a = entry_if(cu, "username"@, eu);
    let b = entry_if(ce, "email"@, ee);
    let c = entry_if(cp, "password"@, ep);
    let m = a + b + c;
    assert(forall|i: int| 0 <= i < a.len() ==> (#[trigger] (a + b + c)[i]) == a[i]);
    assert(forall|i: int| 0 <= i < b.len() ==> (#[trigger] (a + b + c)[a.len() + i]) == b[i]);
    assert(forall|i: int| 0 <= i < c.len() ==> (#[trigger] (a + b + c)[a.len() + b.len() + i]) == c[i]);
    assert("username"@ != "email"@) by {
        assert("username"@.len() != "email"@.len());
    }
    assert("username"@ != "password"@) by {
        assert("username"@[0] != "password"@[0]);
    }
    assert("email"@ != "password"@) by {
        assert("email"@.len() != "password"@.len());
    }
    if cu {
        assert(m[0].field == "username"@);
    }
    if ce {
        assert(m[a.len() as int].field == "email"@);
    }
    if cp {
        assert(m[(a.len() + b.len()) as int].field == "password"@);
    }
    assert forall|i: int| 0 <= i < m.len() implies ((#[trigger] m[i]).field == "username"@ && cu) || (m[i].field
        == "email"@ && ce) || (m[i].field == "password"@ && cp) by {
        if i < a.len() {
        } else if i < a.len() + b.len() {
            assert(m[i] == b[i - a.len()]);
        } else {
            assert(m[i] == c[i - a.len() - b.len()]);
        }
    }
}

/// A user update is refused with exactly the present fields that break the
/// new-user rules named: the username when given and shorter than five
/// characters, the e-mail address when given and invalid, the password when
/// given and shorter than eight; an absent field is never named.
pub proof fn lemma_update_user_reports_present_failing_fields(
    u: Option<Seq<char>>,
    e: Option<Seq<char>>,
    p: Option<Seq<char>>,
)
    ensures
        crate::validation::has_field(update_user_errors(u, e, p), "username"@) <==> (u matches Some(v) && v.len()
            < 5),
        crate::validation::has_field(update_user_errors(u, e, p), "email"@) <==> (e matches Some(v)
            && !email_is_valid(v)),
        crate::validation::has_field(update_user_errors(u, e, p), "password"@) <==> (p matches Some(v) && v.len()
            < 8),
        update_user_errors(u, e, p).len() == 0 <==> !(u matches Some(v) && v.len() < 5) && !(e matches Some(
            v,
        ) && !email_is_valid(v)) && !(p matches Some(v) && v.len() < 8),
{
    lemma_three_user_entries(
        u matches Some(v) && v.len() < 5,
        e matches Some(v) && !email_is_valid(v),
        p matches Some(v) && v.len() < 8,
        username_error(u.unwrap()),
        email_rule_error(e.unwrap()),
        password_error(p.unwrap()),
    );
}

/// An update that gives every field is checked exactly as a new user is:
/// the same failures, with the same messages, in the same order.
pub proof fn lemma_full_update_checks_like_new_user(u: Seq<char>, e: Seq<char>, p: Seq<char>)
    ensures
        update_user_errors(Some(u), Some(e), Some(p)) == new_user_errors(u, e, p),
{
}

/// The client view of a user row shows each of its columns but the
/// password: the same id, username, e-mail address, last login and
/// timestamps, and its two flags read as booleans (set when non-zero).
pub proof fn lemma_user_view_shows_row(u: User)
    ensures
        ({
            let d = <UserDto as vstd::std_specs::convert::FromSpec<User>>::from_spec(u);
            &&& d.id == u.id
            &&& d.username == u.username
            &&& d.email == u.email
            &&& d.is_system == (u.is_system != 0)
            &&& d.must_change_password == (u.must_change_password != 0)
            &&& d.last_login_at == u.last_login_at
            &&& d.created_at == u.created_at
            &&& d.updated_at == u.updated_at
        }),
        user_dto_spec(u) == <UserDto as vstd::std_specs::convert::FromSpec<User>>::from_spec(u),
{
}

/// The client view of an item row shows every column as stored: id, name,
/// description and timestamps.
pub proof fn lemma_item_view_shows_row(m: Item)
    ensures
        ({
            let d = <ItemDto as vstd::std_specs::convert::FromSpec<Item>>::from_spec(m);
            &&& d.id == m.id
            &&& d.name == m.name
            &&& d.description == m.description
            &&& d.created_at == m.created_at
            &&& d.updated_at == m.updated_at
        }),
{
}

/// The client view of a project row shows every column as stored: id,
/// name, current version number, JSON document and timestamps.
pub proof fn lemma_project_view_shows_row(p: Project)
    ensures
        ({
            let d = <ProjectDto as vstd::std_specs::convert::FromSpec<Project>>::from_spec(p);
            &&& d.id == p.id
            &&& d.name == p.name
            &&& d.current_version == p.current_version
            &&& d.object_data == p.object_data
            &&& d.created_at == p.created_at
            &&& d.updated_at == p.updated_at
        }),
{
}

/// The client view of a version row shows every column as stored: id,
/// project, version number, snapshot, author and creation time.
pub proof fn lemma_version_view_shows_row(v: ProjectVersion)
    ensures
        ({
            let d = <ProjectVersionDto as vstd::std_specs::convert::FromSpec<ProjectVersion>>::from_spec(v);
            &&& d.id == v.id
            &&& d.project_id == v.project_id
            &&& d.version_number == v.version_number
            &&& d.object_snapshot == v.object_snapshot
            &&& d.created_by == v.created_by
            &&& d.created_at == v.created_at
        }),
{
}

/// The client view of a membership row shows every column as stored: id,
/// project, user and role.
pub proof fn lemma_member_view_shows_row(m: ProjectMember)
    ensures
        ({
            let d = <ProjectMemberDto as vstd::std_specs::convert::FromSpec<ProjectMember>>::from_spec(m);
            &&& d.id == m.id
            &&& d.project_id == m.project_id
            &&& d.user_id == m.user_id
            &&& d.role == m.role
        }),
{
}

} // verus!
