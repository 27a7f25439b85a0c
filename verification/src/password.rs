//! Password hashing and checking with bcrypt (cost 12). Both calls are
//! CPU-bound; the HTTP layer runs them off its async workers.

use vstd::prelude::*;
use vstd::utf8::encode_utf8;

verus! {

#[verifier::external_type_specification]
#[verifier::external_body]
pub struct ExBcryptError(bcrypt::BcryptError);

/// What `bcrypt::verify` returns for a password (as bytes) and a stored
/// hash: `Some(matches)`, or `None` when the hash is malformed.
pub uninterp spec fn bcrypt_check(password: Seq<u8>, hash: Seq<char>) -> Option<bool>;

/// Whether `password` checks against `hash`.
pub open spec fn password_matches(password: Seq<char>, hash: Seq<char>) -> bool {
    bcrypt_check(encode_utf8(password), hash) == Some(true)
}

/// Whether a text has the outward shape that `bcrypt::verify` first checks
/// for: 60 ASCII characters of the form `$2a$`, `$2b$`, `$2x$` or `$2y$`, two
/// more characters, `$`, then the rest.
pub open spec fn bcrypt_shaped(h: Seq<char>) -> bool {
    &&& h.len() == 60
    &&& forall|i: int| 0 <= i < h.len() ==> (#[trigger] h[i] as int) < 128
    &&& h[0] == '$' && h[3] == '$' && h[6] == '$'
    &&& h[1] == '2'
    &&& (h[2] == 'a' || h[2] == 'b' || h[2] == 'x' || h[2] == 'y')
}

/// Calls `bcrypt::verify`; the outcome is named by `bcrypt_check` (an error
/// stands for `None`). The source (`split_hash`) refuses a hash that is not
/// `bcrypt_shaped` before any hashing, so such a hash always fails.
#[verifier::external_body]
fn bcrypt_verify(password: &str, hash: &str) -> (r: Result<bool, bcrypt::BcryptError>)
    ensures
        match r {
            Ok(b) => bcrypt_check(encode_utf8(password@), hash@) == Some(b),
            Err(_) => bcrypt_check(encode_utf8(password@), hash@) is None,
        },
        !bcrypt_shaped(hash@) ==> r is Err,
{
    bcrypt::verify(password, hash)
}

/// Calls `bcrypt::hash` with `bcrypt::DEFAULT_COST`. The salt is random, so
/// the hash is not determined by the password; what the source shows of
/// every outcome is stated: a hash it returns checks against the password it
/// was made from (`bcrypt::verify` re-derives it from the salt and cost that
/// the hash carries), and it is written as `$2b$12$` and 53 base64 characters,
/// so it is `bcrypt_shaped`. It fails only when the system cannot supply a salt.
#[verifier::external_body]
fn bcrypt_hash(password: &str) -> (r: Result<String, bcrypt::BcryptError>)
    ensures
        r matches Ok(h) ==> bcrypt_check(encode_utf8(password@), h@) == Some(true) && bcrypt_shaped(h@),
{
    bcrypt::hash(password, bcrypt::DEFAULT_COST)
}

/// Hashing could not obtain a salt.
#[derive(Debug, Clone, PartialEq, Eq)]
pub struct HashError;

/// A fresh bcrypt hash of the password.
pub fn hash(password: String) -> (r: Result<String, HashError>)
    ensures
        r matches Ok(h) ==> password_matches(password@, h@) && bcrypt_shaped(h@),
{
    match bcrypt_hash(password.as_str()) {
        Ok(h) => Ok(h),
        Err(_) => Err(HashError),
    }
}

/// Whether the password checks against the stored hash; a malformed hash
/// counts as a mismatch (and never panics).
pub fn verify(password: String, hashed: String) -> (b: bool)
    ensures
        b == password_matches(password@, hashed@),
        !bcrypt_shaped(hashed@) ==> !b,
{
    match bcrypt_verify(password.as_str(), hashed.as_str()) {
        Ok(b) => b,
        Err(_) => false,
    }
}

} // verus!
