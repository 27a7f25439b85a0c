//! Rows of the database tables, as the repositories hand them to the
//! services. Times are Unix timestamps in seconds (UTC).

use vstd::prelude::*;

verus! {

/// A JSON document (`serde_json::Value`), carried through unchanged.
#[verifier::external_type_specification]
#[verifier::external_body]
pub struct ExJsonValue(serde_json::Value);

#[derive(Debug, Clone, PartialEq, Eq)]
pub struct User {
    pub id: i64,
    pub username: String,
    pub email: String,
    /// The bcrypt hash of the password.
    pub password: String,
    pub is_system: i64,
    pub must_change_password: i64,
    pub last_login_at: Option<i64>,
    pub created_at: i64,
    pub updated_at: i64,
}

#[derive(Debug, Clone, PartialEq, Eq)]
pub struct Item {
    pub id: i64,
    pub name: String,
    pub description: Option<String>,
    pub created_at: i64,
    pub updated_at: i64,
}

#[derive(Debug)]
pub struct Project {
    pub id: i64,
    pub name: String,
    pub current_version: i64,
    pub object_data: serde_json::Value,
    pub created_at: i64,
    pub updated_at: i64,
}

#[derive(Debug, Clone, PartialEq, Eq)]
pub struct ProjectMember {
    pub id: i64,
    pub project_id: i64,
    pub user_id: i64,
    pub role: String,
}

#[derive(Debug)]
pub struct ProjectVersion {
    pub id: i64,
    pub project_id: i64,
    pub version_number: i64,
    pub object_snapshot: serde_json::Value,
    pub created_by: Option<i64>,
    pub created_at: i64,
}

#[derive(Debug, Clone, PartialEq, Eq)]
pub struct RefreshToken {
    pub id: i64,
    pub user_id: i64,
    /// Hex SHA-256 of the token handed to the client; the token itself is
    /// never stored.
    pub token_hash: String,
    pub expires_at: i64,
    pub revoked: i64,
    pub created_at: i64,
}

} // verus!
