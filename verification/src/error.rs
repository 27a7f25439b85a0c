//! The error that services hand back to the HTTP layer, the repository error
//! it is built from, and the HTTP status that each error code is answered with.

use vstd::prelude::*;
use vstd::string::*;

use crate::codes;

verus! {

/// The messages reported for one request field.
#[derive(Debug, Clone, PartialEq, Eq)]
pub struct FieldMessages {
    pub field: String,
    pub messages: Vec<String>,
}

/// Spec-level form of `FieldMessages`.
pub struct FieldMessagesV {
    pub field: Seq<char>,
    pub messages: Seq<Seq<char>>,
}

impl View for FieldMessages {
    type V = FieldMessagesV;

    open spec fn view(&self) -> FieldMessagesV {
        FieldMessagesV { field: self.field@, messages: self.messages@.map_values(|m: String| m@) }
    }
}

/// An error as a client sees it: a message, a domain code and, for
/// validation failures only, the messages of each failing field.
#[derive(Debug, Clone, PartialEq, Eq)]
pub struct ServiceError {
    pub message: String,
    pub code: i32,
    pub fields: Option<Vec<FieldMessages>>,
}

/// Spec-level form of the field map of a `ServiceError`.
pub open spec fn fields_view(f: Option<Vec<FieldMessages>>) -> Option<Seq<FieldMessagesV>> {
    match f {
        Some(v) => Some(v@.map_values(|e: FieldMessages| e@)),
        None => None,
    }
}

/// `ServiceError` with exactly this message and code and no field map.
pub open spec fn is_plain_error(e: ServiceError, message: Seq<char>, code: i32) -> bool {
    &&& e.message@ == message
    &&& e.code == code
    &&& e.fields is None
}

impl ServiceError {
    pub fn new(message: String, code: i32) -> (e: ServiceError)
        ensures
            is_plain_error(e, message@, code),
    {
        ServiceError { message, code, fields: None }
    }

    /// The text a client is shown (what `Display` writes for this error).
    pub fn to_string(&self) -> (s: String)
        ensures
            s@ == self.message@,
    {
        self.message.clone()
    }
}

pub type ServiceResult<T> = Result<T, ServiceError>;

pub fn internal_error() -> (e: ServiceError)
    ensures
        is_plain_error(e, "internal server error"@, codes::INTERNAL_ERROR),
{
    ServiceError::new(String::from_str("internal server error"), codes::INTERNAL_ERROR)
}

pub fn err_not_found(resource: &str) -> (e: ServiceError)
    ensures
        is_plain_error(e, resource@ + " not found"@, codes::ERR_RESOURCE_NOT_FOUND),
{
    let mut m = String::from_str(resource);
    m.append(" not found");
    ServiceError::new(m, codes::ERR_RESOURCE_NOT_FOUND)
}

pub fn err_validation(msg: String) -> (e: ServiceError)
    ensures
        is_plain_error(e, msg@, codes::ERR_VALIDATION),
{
    ServiceError::new(msg, codes::ERR_VALIDATION)
}

pub fn err_unauthorized(msg: String) -> (e: ServiceError)
    ensures
        is_plain_error(e, msg@, codes::ERR_UNAUTHORIZED),
{
    ServiceError::new(msg, codes::ERR_UNAUTHORIZED)
}

pub fn err_invalid_credentials() -> (e: ServiceError)
    ensures
        is_plain_error(e, "invalid credentials"@, codes::ERR_INVALID_CREDENTIALS),
{
    ServiceError::new(String::from_str("invalid credentials"), codes::ERR_INVALID_CREDENTIALS)
}

pub fn err_invalid_refresh_token() -> (e: ServiceError)
    ensures
        is_plain_error(e, "invalid or expired refresh token"@, codes::ERR_INVALID_REFRESH_TOKEN),
{
    ServiceError::new(
        String::from_str("invalid or expired refresh token"),
        codes::ERR_INVALID_REFRESH_TOKEN,
    )
}

/// The answer to a request body that is not well-formed JSON for its
/// shape; `detail` is the parser's explanation.
pub fn err_invalid_json(detail: &str) -> (e: ServiceError)
    ensures
        is_plain_error(e, "invalid JSON body: "@ + detail@, codes::ERR_VALIDATION),
{
    let mut m = String::from_str("invalid JSON body: ");
    m.append(detail);
    ServiceError::new(m, codes::ERR_VALIDATION)
}

/// The error of a route that needs a settled password, for a user who must
/// still change theirs.
pub fn err_password_change_required() -> (e: ServiceError)
    ensures
        is_plain_error(e, "password change required"@, codes::ERR_PASSWORD_CHANGE_REQUIRED),
{
    ServiceError::new(
        String::from_str("password change required"),
        codes::ERR_PASSWORD_CHANGE_REQUIRED,
    )
}

/// A failed repository call: the row was not there, or the database
/// reported an error (kept as its text).
#[derive(Debug, Clone, PartialEq, Eq)]
pub enum RepoError {
    NotFound,
    Sqlx(String),
}

pub type RepoResult<T> = Result<T, RepoError>;

/// The service error a repository error turns into.
pub open spec fn repo_error_spec(err: RepoError) -> (Seq<char>, i32) {
    match err {
        RepoError::NotFound => ("resource not found"@, codes::ERR_RESOURCE_NOT_FOUND),
        RepoError::Sqlx(_) => ("internal server error"@, codes::INTERNAL_ERROR),
    }
}

impl ServiceError {
    /// A missing row is reported as `resource not found`; every database
    /// failure as an internal error (its text is not shown to clients).
    pub fn from_repo(err: RepoError) -> (e: ServiceError)
        ensures
            is_plain_error(e, repo_error_spec(err).0, repo_error_spec(err).1),
    {
        match err {
            RepoError::NotFound => {
                let e = err_not_found("resource");
                proof {
                    reveal_strlit("resource");
                    reveal_strlit(" not found");
                    reveal_strlit("resource not found");
                    assert("resource"@ + " not found"@ =~= "resource not found"@);
                }
                e
            },
            RepoError::Sqlx(_) => internal_error(),
        }
    }
}

/// HTTP status codes the API answers with.
pub const STATUS_OK: u16 = 200;

pub const STATUS_CREATED: u16 = 201;

pub const STATUS_NO_CONTENT: u16 = 204;

pub const STATUS_BAD_REQUEST: u16 = 400;

pub const STATUS_UNAUTHORIZED: u16 = 401;

pub const STATUS_NOT_FOUND: u16 = 404;

pub const STATUS_PRECONDITION_REQUIRED: u16 = 428;

pub const STATUS_INTERNAL_SERVER_ERROR: u16 = 500;

/// The status that answers an error with this domain code.
pub open spec fn status_for_code_spec(code: i32) -> u16 {
    if code == codes::ERR_RESOURCE_NOT_FOUND {
        STATUS_NOT_FOUND
    } else if code == codes::ERR_VALIDATION {
        STATUS_BAD_REQUEST
    } else if code == codes::ERR_UNAUTHORIZED || code == codes::ERR_INVALID_CREDENTIALS
        || code == codes::ERR_INVALID_REFRESH_TOKEN {
        STATUS_UNAUTHORIZED
    } else if code == codes::ERR_PASSWORD_CHANGE_REQUIRED {
        STATUS_PRECONDITION_REQUIRED
    } else {
        STATUS_INTERNAL_SERVER_ERROR
    }
}

pub fn status_for_code(code: i32) -> (s: u16)
    ensures
        s == status_for_code_spec(code),
{
    if code == codes::ERR_RESOURCE_NOT_FOUND {
        STATUS_NOT_FOUND
    } else if code == codes::ERR_VALIDATION {
        STATUS_BAD_REQUEST
    } else if code == codes::ERR_UNAUTHORIZED || code == codes::ERR_INVALID_CREDENTIALS || code
        == codes::ERR_INVALID_REFRESH_TOKEN {
        STATUS_UNAUTHORIZED
    } else if code == codes::ERR_PASSWORD_CHANGE_REQUIRED {
        STATUS_PRECONDITION_REQUIRED
    } else {
        STATUS_INTERNAL_SERVER_ERROR
    }
}

impl ServiceError {
    /// The HTTP status this error is answered with.
    pub fn status(&self) -> (s: u16)
        ensures
            s == status_for_code_spec(self.code),
    {
        status_for_code(self.code)
    }
}

/// Every error that the constructors of this module build is answered with
/// the status its kind calls for: a missing resource with 404, a validation
/// failure with 400, the three authentication failures with 401, a pending
/// password change with 428 and an internal error with 500.
pub proof fn lemma_error_kinds_map_to_statuses()
    ensures
        status_for_code_spec(codes::ERR_RESOURCE_NOT_FOUND) == STATUS_NOT_FOUND,
        status_for_code_spec(codes::ERR_VALIDATION) == STATUS_BAD_REQUEST,
        status_for_code_spec(codes::ERR_UNAUTHORIZED) == STATUS_UNAUTHORIZED,
        status_for_code_spec(codes::ERR_INVALID_CREDENTIALS) == STATUS_UNAUTHORIZED,
        status_for_code_spec(codes::ERR_INVALID_REFRESH_TOKEN) == STATUS_UNAUTHORIZED,
        status_for_code_spec(codes::ERR_PASSWORD_CHANGE_REQUIRED) == STATUS_PRECONDITION_REQUIRED,
        status_for_code_spec(codes::INTERNAL_ERROR) == STATUS_INTERNAL_SERVER_ERROR,
{
}

} // verus!
