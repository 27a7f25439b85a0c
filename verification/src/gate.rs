//! The checks in front of protected routes: a `Bearer` access token in the
//! `Authorization` header, and a settled password.

use vstd::prelude::*;
use vstd::string::*;

use crate::codes;
use crate::error::{err_password_change_required, err_unauthorized, is_plain_error, ServiceError, ServiceResult};
use crate::text::strip_prefix;
use crate::token::Claims;

verus! {

/// The token of an `Authorization` value of the form `Bearer <token>`.
pub open spec fn bearer_spec(h: Seq<char>) -> Option<Seq<char>> {
    let p = "Bearer "@;
    if p.len() <= h.len() && h.subrange(0, p.len() as int) == p {
        Some(h.subrange(p.len() as int, h.len() as int))
    } else {
        None
    }
}

/// Extracts the access token from the `Authorization` header (`None` when
/// the header is absent or not readable text).
pub fn bearer_token(header: Option<&str>) -> (r: ServiceResult<String>)
    ensures
        match header {
            None => r matches Err(e) && is_plain_error(
                e,
                "missing authorization header"@,
                codes::ERR_UNAUTHORIZED,
            ),
            Some(h) => match bearer_spec(h@) {
                Some(t) => r matches Ok(tok) && tok@ == t,
                None => r matches Err(e) && is_plain_error(
                    e,
                    "authorization header must be `Bearer <token>`"@,
                    codes::ERR_UNAUTHORIZED,
                ),
            },
        },
{
    let h = match header {
        Some(h) => h,
        None => return Err(err_unauthorized(String::from_str("missing authorization header"))),
    };
    match strip_prefix(h, "Bearer ") {
        Some(t) => Ok(t),
        None => Err(err_unauthorized(String::from_str("authorization header must be `Bearer <token>`"))),
    }
}

/// The answer to a token that does not verify or has expired.
pub fn err_invalid_token() -> (e: ServiceError)
    ensures
        is_plain_error(e, "invalid or expired token"@, codes::ERR_UNAUTHORIZED),
{
    err_unauthorized(String::from_str("invalid or expired token"))
}

/// Whether a token's holder may use routes other than the password change.
pub open spec fn password_settled(c: Claims) -> bool {
    !c.must_change_password
}

/// Lets a request through only when its user has no pending password
/// change.
pub fn require_password_set(claims: &Claims) -> (r: ServiceResult<()>)
    ensures
        r is Ok <==> password_settled(*claims),
        r matches Err(e) ==> is_plain_error(
            e,
            "password change required"@,
            codes::ERR_PASSWORD_CHANGE_REQUIRED,
        ),
{
    if claims.must_change_password {
        Err(err_password_change_required())
    } else {
        Ok(())
    }
}

/// Whatever token a client puts after `Bearer `, that token is what the
/// header yields.
pub proof fn lemma_bearer_roundtrip(token: Seq<char>)
    ensures
        bearer_spec("Bearer "@ + token) == Some(token),
{
    reveal_strlit("Bearer ");
    let h = "Bearer "@ + token;
    assert(h.subrange(0, 7) =~= "Bearer "@);
    assert(h.subrange(7, h.len() as int) =~= token);
}

/// A header yields a token only when it is `Bearer ` followed by that token.
pub proof fn lemma_bearer_requires_prefix(h: Seq<char>)
    requires
        bearer_spec(h) is Some,
    ensures
        h == "Bearer "@ + bearer_spec(h).unwrap(),
{
    reveal_strlit("Bearer ");
    assert(h =~= "Bearer "@ + bearer_spec(h).unwrap());
}

/// A user whose row asks for a password change gets access tokens that the
/// password gate refuses, and a user whose row does not gets tokens it
/// lets through (the claims are issued from the row's flag).
pub proof fn lemma_pending_change_gates_tokens(u: crate::model::User, c: Claims)
    requires
        c.must_change_password == (u.must_change_password != 0),
    ensures
        password_settled(c) <==> u.must_change_password == 0,
{
}

} // verus!
