//! Token material: access-token claims and lifetimes, the signing keys, and
//! opaque refresh tokens (random bytes in hex, stored only as their SHA-256).

use vstd::prelude::*;
use vstd::string::*;

use crate::text::push_char;

verus! {

// ---------------------------------------------------------------------------
// Hexadecimal
// ---------------------------------------------------------------------------

/// Lower-case hexadecimal digit of a value below sixteen.
pub open spec fn hex_digit(n: int) -> char {
    if n < 10 {
        (n + 48) as char
    } else {
        (n + 87) as char
    }
}

/// Lower-case hexadecimal rendering, two digits per byte (`{:02x}` each).
pub open spec fn hex_lower(b: Seq<u8>) -> Seq<char>
    decreases b.len(),
{
    if b.len() == 0 {
        seq![]
    } else {
        hex_lower(b.drop_last()) + seq![hex_digit((b.last() as int) / 16), hex_digit((b.last() as int) % 16)]
    }
}

/// Whether every character is a lower-case hexadecimal digit.
pub open spec fn is_lower_hex(s: Seq<char>) -> bool {
    forall|i: int| 0 <= i < s.len() ==> ('0' <= #[trigger] s[i] <= '9' || 'a' <= s[i] <= 'f')
}

fn hex_digit_exec(n: u8) -> (c: char)
    requires
        n < 16,
    ensures
        c == hex_digit(n as int),
{
    if n < 10 {
        (n + 48) as char
    } else {
        (n + 87) as char
    }
}

/// Lower-case hex encoding of bytes.
pub fn to_hex_lower(bytes: &[u8]) -> (s: String)
    ensures
        s@ == hex_lower(bytes@),
{
    let mut s = String::new();
    let n = bytes.len();
    let mut i: usize = 0;
    assert(bytes@.take(0) =~= seq![]);
    while i < n
        invariant
            n == bytes@.len(),
            0 <= i <= n,
            s@ == hex_lower(bytes@.take(i as int)),
        decreases n - i,
    {
        let b = bytes[i];
        push_char(&mut s, hex_digit_exec(b / 16));
        push_char(&mut s, hex_digit_exec(b % 16));
        assert(bytes@.take(i + 1).drop_last() =~= bytes@.take(i as int));
        assert(s@ =~= hex_lower(bytes@.take(i + 1)));
        i = i + 1;
    }
    assert(bytes@.take(n as int) =~= bytes@);
    s
}

/// Hex renders each byte as two characters.
pub proof fn lemma_hex_len(b: Seq<u8>)
    ensures
        hex_lower(b).len() == 2 * b.len(),
    decreases b.len(),
{
    if b.len() > 0 {
        lemma_hex_len(b.drop_last());
    }
}

/// Hex output consists of lower-case hexadecimal digits only.
pub proof fn lemma_hex_is_lower_hex(b: Seq<u8>)
    ensures
        is_lower_hex(hex_lower(b)),
    decreases b.len(),
{
    if b.len() > 0 {
        lemma_hex_is_lower_hex(b.drop_last());
        let x = b.last();
        assert(0 <= x / 16 < 16 && 0 <= x % 16 < 16);
        let t = hex_lower(b);
        let p = hex_lower(b.drop_last());
        assert forall|i: int| 0 <= i < t.len() implies ('0' <= #[trigger] t[i] <= '9' || 'a' <= t[i]
            <= 'f') by {
            if i < p.len() {
                assert(t[i] == p[i]);
            }
        }
    }
}

proof fn lemma_hex_digit_injective(x: int, y: int)
    requires
        0 <= x < 16,
        0 <= y < 16,
        hex_digit(x) == hex_digit(y),
    ensures
        x == y,
{
    assert((hex_digit(x) as int) == (if x < 10 { x + 48 } else { x + 87 }));
    assert((hex_digit(y) as int) == (if y < 10 { y + 48 } else { y + 87 }));
}

/// Different byte strings never render to the same hex text.
pub proof fn lemma_hex_injective(a: Seq<u8>, b: Seq<u8>)
    requires
        hex_lower(a) == hex_lower(b),
    ensures
        a == b,
    decreases a.len(),
{
    lemma_hex_len(a);
    lemma_hex_len(b);
    if a.len() > 0 {
        let ha = hex_lower(a);
        let pa = hex_lower(a.drop_last());
        let pb = hex_lower(b.drop_last());
        lemma_hex_len(a.drop_last());
        lemma_hex_len(b.drop_last());
        assert(pa =~= ha.subrange(0, ha.len() - 2));
        assert(pb =~= ha.subrange(0, ha.len() - 2));
        lemma_hex_injective(a.drop_last(), b.drop_last());
        assert(ha[ha.len() - 2] == hex_digit((a.last() as int) / 16));
        assert(ha[ha.len() - 2] == hex_digit((b.last() as int) / 16));
        assert(ha[ha.len() - 1] == hex_digit((a.last() as int) % 16));
        assert(ha[ha.len() - 1] == hex_digit((b.last() as int) % 16));
        lemma_hex_digit_injective((a.last() as int) / 16, (b.last() as int) / 16);
        lemma_hex_digit_injective((a.last() as int) % 16, (b.last() as int) % 16);
        assert(a.last() == b.last());
        assert(a =~= a.drop_last().push(a.last()));
        assert(b =~= b.drop_last().push(b.last()));
    } else {
        assert(b.len() == 0);
        assert(a =~= b);
    }
}

// ---------------------------------------------------------------------------
// SHA-256 and randomness
// ---------------------------------------------------------------------------

/// The SHA-256 digest of a byte string (what `sha2::Sha256::digest` returns).
pub uninterp spec fn sha256_digest(data: Seq<u8>) -> Seq<u8>;

/// Calls `sha2::Sha256::digest`. The digest is named by `sha256_digest`; it is
/// 32 bytes long, as the algorithm's output size fixes.
#[verifier::external_body]
fn sha256(data: &[u8]) -> (r: Vec<u8>)
    ensures
        r@ == sha256_digest(data@),
        r@.len() == 32,
{
    <sha2::Sha256 as sha2::Digest>::digest(data).to_vec()
}

#[verifier::external_type_specification]
#[verifier::external_body]
pub struct ExRandError(rand::Error);

/// Calls `rand::RngCore::try_fill_bytes` on the operating system's generator
/// (`rand::rngs::OsRng`) for 32 bytes. The bytes are random, so only their
/// number is stated; the call fails when the operating system cannot supply
/// randomness, which nothing here can foresee.
#[verifier::external_body]
fn os_random_32() -> (r: Result<Vec<u8>, rand::Error>)
    ensures
        r matches Ok(b) ==> b@.len() == 32,
{
    let mut bytes = [0u8;32];
    match rand::RngCore::try_fill_bytes(&mut rand::rngs::OsRng, &mut bytes) {
        Ok(()) => Ok(bytes.to_vec()),
        Err(e) => Err(e),
    }
}

/// What a refresh token is stored as: the hex SHA-256 of its UTF-8 bytes.
pub open spec fn sha256_hex_spec(s: Seq<char>) -> Seq<char> {
    hex_lower(sha256_digest(vstd::utf8::encode_utf8(s)))
}

/// Hex-encoded SHA-256 of a string's UTF-8 bytes (64 characters).
pub fn sha256_hex(s: &str) -> (r: String)
    ensures
        r@ == sha256_hex_spec(s@),
        r@.len() == 64,
        is_lower_hex(r@),
{
    let digest = sha256(s.as_bytes());
    let r = to_hex_lower(digest.as_slice());
    proof {
        lemma_hex_len(digest@);
        lemma_hex_is_lower_hex(digest@);
    }
    r
}

/// The operating system could not supply random bytes.
#[derive(Debug, Clone, PartialEq, Eq)]
pub struct EntropyError;

/// A fresh opaque refresh token: 32 random bytes, hex-encoded.
pub fn generate_refresh_token() -> (r: Result<String, EntropyError>)
    ensures
        r matches Ok(t) ==> {
            &&& exists|b: Seq<u8>| b.len() == 32 && t@ == hex_lower(b)
            &&& t@.len() == 64
            &&& is_lower_hex(t@)
        },
{
    let bytes = match os_random_32() {
        Ok(b) => b,
        Err(_) => return Err(EntropyError),
    };
    let r = to_hex_lower(bytes.as_slice());
    proof {
        lemma_hex_len(bytes@);
        lemma_hex_is_lower_hex(bytes@);
    }
    Ok(r)
}

/// A token handed to a client together with what the database keeps of it.
#[derive(Debug, Clone, PartialEq, Eq)]
pub struct RefreshMaterial {
    pub raw: String,
    pub hashed: String,
}

/// A new refresh token and its stored form.
pub fn new_refresh_material() -> (r: Result<RefreshMaterial, EntropyError>)
    ensures
        r matches Ok(m) ==> {
            &&& m.raw@.len() == 64
            &&& is_lower_hex(m.raw@)
            &&& m.hashed@ == sha256_hex_spec(m.raw@)
        },
{
    let raw = generate_refresh_token()?;
    let hashed = sha256_hex(raw.as_str());
    Ok(RefreshMaterial { raw, hashed })
}

// ---------------------------------------------------------------------------
// Signing keys
// ---------------------------------------------------------------------------

#[verifier::external_type_specification]
#[verifier::external_body]
pub struct ExEncodingKey(jsonwebtoken::EncodingKey);

#[verifier::external_type_specification]
#[verifier::external_body]
pub struct ExDecodingKey(jsonwebtoken::DecodingKey);

#[verifier::external_type_specification]
#[verifier::external_body]
pub struct ExJwtError(jsonwebtoken::errors::Error);

/// Whether a PEM document holds an Ed25519 private key that
/// `jsonwebtoken::EncodingKey::from_ed_pem` accepts.
pub uninterp spec fn ed_private_pem_ok(pem: Seq<u8>) -> bool;

/// Whether a PEM document holds an Ed25519 public key that
/// `jsonwebtoken::DecodingKey::from_ed_pem` accepts.
pub uninterp spec fn ed_public_pem_ok(pem: Seq<u8>) -> bool;

/// Calls `jsonwebtoken::EncodingKey::from_ed_pem`; whether it succeeds is
/// named by `ed_private_pem_ok`. The key itself is opaque.
#[verifier::external_body]
fn encoding_key_from_ed_pem(pem: &[u8]) -> (r: Result<jsonwebtoken::EncodingKey, jsonwebtoken::errors::Error>)
    ensures
        r is Ok == ed_private_pem_ok(pem@),
{
    jsonwebtoken::EncodingKey::from_ed_pem(pem)
}

/// Calls `jsonwebtoken::DecodingKey::from_ed_pem`; whether it succeeds is
/// named by `ed_public_pem_ok`. The key itself is opaque.
#[verifier::external_body]
fn decoding_key_from_ed_pem(pem: &[u8]) -> (r: Result<jsonwebtoken::DecodingKey, jsonwebtoken::errors::Error>)
    ensures
        r is Ok == ed_public_pem_ok(pem@),
{
    jsonwebtoken::DecodingKey::from_ed_pem(pem)
}

/// Why a key pair could not be built.
#[derive(Debug, Clone, PartialEq, Eq)]
pub enum KeyError {
    InvalidPrivateKey,
    InvalidPublicKey,
}

/// An Ed25519 signing key and its verification key.
pub struct KeyPair {
    encoding: jsonwebtoken::EncodingKey,
    decoding: jsonwebtoken::DecodingKey,
}

impl KeyPair {
    /// The signing half.
    pub closed spec fn encoding_key(&self) -> jsonwebtoken::EncodingKey {
        self.encoding
    }

    /// The verification half.
    pub closed spec fn decoding_key(&self) -> jsonwebtoken::DecodingKey {
        self.decoding
    }

    /// Builds a key pair from the outcome of parsing each half; a failure of
    /// the private half is reported before one of the public half.
    pub fn from_parts(
        encoding: Result<jsonwebtoken::EncodingKey, jsonwebtoken::errors::Error>,
        decoding: Result<jsonwebtoken::DecodingKey, jsonwebtoken::errors::Error>,
    ) -> (r: Result<KeyPair, KeyError>)
        ensures
            match r {
                Ok(k) => {
                    &&& encoding matches Ok(e) && k.encoding_key() == e
                    &&& decoding matches Ok(d) && k.decoding_key() == d
                },
                Err(KeyError::InvalidPrivateKey) => encoding is Err,
                Err(KeyError::InvalidPublicKey) => encoding is Ok && decoding is Err,
            },
    {
        let encoding = match encoding {
            Ok(k) => k,
            Err(_) => return Err(KeyError::InvalidPrivateKey),
        };
        let decoding = match decoding {
            Ok(k) => k,
            Err(_) => return Err(KeyError::InvalidPublicKey),
        };
        Ok(KeyPair { encoding, decoding })
    }

    /// Builds a key pair from the PEM text of both halves; the private half
    /// is checked first.
    pub fn from_pem(private_pem: &[u8], public_pem: &[u8]) -> (r: Result<KeyPair, KeyError>)
        ensures
            match r {
                Ok(_) => ed_private_pem_ok(private_pem@) && ed_public_pem_ok(public_pem@),
                Err(KeyError::InvalidPrivateKey) => !ed_private_pem_ok(private_pem@),
                Err(KeyError::InvalidPublicKey) => ed_private_pem_ok(private_pem@) && !ed_public_pem_ok(
                    public_pem@,
                ),
            },
    {
        let encoding = encoding_key_from_ed_pem(private_pem);
        let decoding = decoding_key_from_ed_pem(public_pem);
        Self::from_parts(encoding, decoding)
    }

    pub fn encoding(&self) -> (k: &jsonwebtoken::EncodingKey)
        ensures
            *k == self.encoding_key(),
    {
        &self.encoding
    }

    pub fn decoding(&self) -> (k: &jsonwebtoken::DecodingKey)
        ensures
            *k == self.decoding_key(),
    {
        &self.decoding
    }
}

// ---------------------------------------------------------------------------
// Claims and lifetimes
// ---------------------------------------------------------------------------

/// The claims of an access token.
#[derive(Debug, Clone, PartialEq, Eq)]
pub struct Claims {
    /// The user's id.
    pub sub: i64,
    pub username: String,
    /// Issued at (Unix seconds).
    pub iat: i64,
    /// Expires at (Unix seconds).
    pub exp: i64,
    /// Set while the user has to change their password before anything else.
    pub must_change_password: bool,
}

/// The largest span `chrono::TimeDelta` holds, in whole seconds
/// (`i64::MAX` milliseconds).
pub const MAX_DELTA_SECONDS: i64 = 9223372036854775;

/// Earliest and latest instants `chrono::DateTime<Utc>` holds, as Unix
/// seconds (years -262143 and 262142).
pub const MIN_TIMESTAMP: i64 = -8334601315200;

pub const MAX_TIMESTAMP: i64 = 8210266876799;

/// Whether `now` plus `amount` units of `unit_seconds` seconds can be
/// computed as a date: the span fits a `TimeDelta` and the sum a date.
pub open spec fn window_ok(now: int, amount: int, unit_seconds: int) -> bool {
    &&& i64::MIN <= amount * unit_seconds <= i64::MAX
    &&& -MAX_DELTA_SECONDS <= amount * unit_seconds <= MAX_DELTA_SECONDS
    &&& MIN_TIMESTAMP <= now + amount * unit_seconds <= MAX_TIMESTAMP
}

/// Signs and checks tokens. Access tokens are short-lived signed JWTs;
/// refresh tokens are opaque random strings whose hash alone is stored.
pub struct TokenManager {
    access: KeyPair,
    refresh: KeyPair,
    access_minutes: i64,
    refresh_days: i64,
}

/// The value of a run of decimal digits, most significant first.
pub open spec fn digits_value(s: Seq<char>) -> int
    decreases s.len(),
{
    if s.len() == 0 {
        0
    } else {
        digits_value(s.drop_last()) * 10 + (s.last() as int - '0' as int)
    }
}

/// Whether every character is an ASCII decimal digit.
pub open spec fn all_ascii_digits(s: Seq<char>) -> bool {
    forall|i: int| 0 <= i < s.len() ==> '0' <= #[trigger] s[i] && s[i] <= '9'
}

/// What `str::parse::<i64>` returns for a text (`None` for an error), as std
/// documents `i64::from_str_radix` in radix 10: an optional `+` or `-` sign
/// followed by one or more ASCII digits, whose value must fit in `i64`;
/// anything else (whitespace, an empty text, a lone sign) is an error.
pub open spec fn parsed_i64(s: Seq<char>) -> Option<i64> {
    let signed = s.len() > 0 && (s[0] == '-' || s[0] == '+');
    let body = if signed { s.drop_first() } else { s };
    let v = if s.len() > 0 && s[0] == '-' { -digits_value(body) } else { digits_value(body) };
    if body.len() > 0 && all_ascii_digits(body) && i64::MIN <= v <= i64::MAX {
        Some(v as i64)
    } else {
        None
    }
}

/// Calls `str::parse::<i64>`; the outcome is `parsed_i64`, std's documented
/// decimal syntax.
#[verifier::external_body]
fn parse_i64(s: &str) -> (r: Option<i64>)
    ensures
        r == parsed_i64(s@),
{
    s.parse::<i64>().ok()
}

/// A numeric setting: the parsed value when present and well-formed, the
/// default otherwise.
pub open spec fn setting_spec(raw: Option<Seq<char>>, default: i64) -> i64 {
    match raw {
        Some(s) => match parsed_i64(s) {
            Some(v) => v,
            None => default,
        },
        None => default,
    }
}

/// Reads a numeric setting, falling back to the default.
pub fn setting_or(raw: Option<&str>, default: i64) -> (v: i64)
    ensures
        v == setting_spec(
            match raw { Some(s) => Some(s@), None => None },
            default,
        ),
{
    match raw {
        Some(s) => match parse_i64(s) {
            Some(v) => v,
            None => default,
        },
        None => default,
    }
}

/// Access tokens live 15 minutes unless configured otherwise.
pub const DEFAULT_ACCESS_MINUTES: i64 = 15;

/// Refresh tokens live 30 days unless configured otherwise.
pub const DEFAULT_REFRESH_DAYS: i64 = 30;

impl TokenManager {
    /// A manager from its key pairs and the configured lifetimes (the raw
    /// values of `JWT_ACCESS_EXPIRATION_MINUTES` and
    /// `JWT_REFRESH_EXPIRATION_DAYS`, when set).
    pub fn new(
        access: KeyPair,
        refresh: KeyPair,
        access_minutes_raw: Option<&str>,
        refresh_days_raw: Option<&str>,
    ) -> (m: TokenManager)
        ensures
            m.access_minutes_spec() == setting_spec(
                match access_minutes_raw { Some(s) => Some(s@), None => None },
                DEFAULT_ACCESS_MINUTES,
            ),
            m.refresh_days_spec() == setting_spec(
                match refresh_days_raw { Some(s) => Some(s@), None => None },
                DEFAULT_REFRESH_DAYS,
            ),
            m.access_keys_spec() == access,
            m.refresh_keys_spec() == refresh,
    {
        let access_minutes = setting_or(access_minutes_raw, DEFAULT_ACCESS_MINUTES);
        let refresh_days = setting_or(refresh_days_raw, DEFAULT_REFRESH_DAYS);
        TokenManager { access, refresh, access_minutes, refresh_days }
    }

    /// The key pair that signs and checks access tokens.
    pub closed spec fn access_keys_spec(&self) -> KeyPair {
        self.access
    }

    /// The key pair that signs and checks refresh tokens.
    pub closed spec fn refresh_keys_spec(&self) -> KeyPair {
        self.refresh
    }

    pub closed spec fn access_minutes_spec(&self) -> i64 {
        self.access_minutes
    }

    pub closed spec fn refresh_days_spec(&self) -> i64 {
        self.refresh_days
    }

    pub fn access_minutes(&self) -> (m: i64)
        ensures
            m == self.access_minutes_spec(),
    {
        self.access_minutes
    }

    pub fn refresh_days(&self) -> (d: i64)
        ensures
            d == self.refresh_days_spec(),
    {
        self.refresh_days
    }

    pub fn access_keys(&self) -> (k: &KeyPair)
        ensures
            *k == self.access_keys_spec(),
    {
        &self.access
    }

    pub fn refresh_keys(&self) -> (k: &KeyPair)
        ensures
            *k == self.refresh_keys_spec(),
    {
        &self.refresh
    }

    /// The access-token lifetime in seconds.
    pub fn access_expires_in_seconds(&self) -> (s: i64)
        requires
            i64::MIN <= self.access_minutes_spec() * 60 <= i64::MAX,
        ensures
            s == self.access_minutes_spec() * 60,
    {
        self.access_minutes * 60
    }

    /// The refresh-token lifetime in seconds.
    pub fn refresh_expires_in_seconds(&self) -> (s: i64)
        requires
            i64::MIN <= self.refresh_days_spec() * 86400 <= i64::MAX,
        ensures
            s == self.refresh_days_spec() * 86400,
    {
        self.refresh_days * 24 * 60 * 60
    }

    /// Whether an access token issued at `now` has a representable expiry.
    pub fn access_window_ok(&self, now: i64) -> (b: bool)
        ensures
            b == window_ok(now as int, self.access_minutes_spec() as int, 60),
    {
        let m = self.access_minutes as i128;
        let span = m * 60;
        span >= i64::MIN as i128 && span <= i64::MAX as i128 && span >= -(MAX_DELTA_SECONDS as i128)
            && span <= MAX_DELTA_SECONDS as i128 && (now as i128) + span >= MIN_TIMESTAMP as i128 && (
        now as i128) + span <= MAX_TIMESTAMP as i128
    }

    /// Whether a refresh token issued at `now` has a representable expiry.
    pub fn refresh_window_ok(&self, now: i64) -> (b: bool)
        ensures
            b == window_ok(now as int, self.refresh_days_spec() as int, 86400),
    {
        let d = self.refresh_days as i128;
        let span = d * 86400;
        span >= i64::MIN as i128 && span <= i64::MAX as i128 && span >= -(MAX_DELTA_SECONDS as i128)
            && span <= MAX_DELTA_SECONDS as i128 && (now as i128) + span >= MIN_TIMESTAMP as i128 && (
        now as i128) + span <= MAX_TIMESTAMP as i128
    }

    /// The claims of an access token issued at `now`: it expires after the
    /// access lifetime.
    pub fn access_claims(&self, user_id: i64, username: &str, must_change_password: bool, now: i64) -> (c: Claims)
        requires
            window_ok(now as int, self.access_minutes_spec() as int, 60),
        ensures
            c.sub == user_id,
            c.username@ == username@,
            c.iat == now,
            c.exp == now + self.access_minutes_spec() * 60,
            c.must_change_password == must_change_password,
    {
        Claims {
            sub: user_id,
            username: String::from_str(username),
            iat: now,
            exp: now + self.access_minutes * 60,
            must_change_password,
        }
    }

    /// The claims of a signed refresh token issued at `now`: it expires after
    /// the refresh lifetime and never asks for a password change.
    pub fn refresh_claims(&self, user_id: i64, username: &str, now: i64) -> (c: Claims)
        requires
            window_ok(now as int, self.refresh_days_spec() as int, 86400),
        ensures
            c.sub == user_id,
            c.username@ == username@,
            c.iat == now,
            c.exp == now + self.refresh_days_spec() * 86400,
            !c.must_change_password,
    {
        Claims {
            sub: user_id,
            username: String::from_str(username),
            iat: now,
            exp: now + self.refresh_days * 86400,
            must_change_password: false,
        }
    }

    /// When a refresh token issued at `now` stops being accepted.
    pub fn refresh_expires_at(&self, now: i64) -> (t: i64)
        requires
            window_ok(now as int, self.refresh_days_spec() as int, 86400),
        ensures
            t == now + self.refresh_days_spec() * 86400,
    {
        now + self.refresh_days * 86400
    }
}

/// An access token expires exactly one access lifetime after it is issued,
/// and the advertised `expires_in` is that lifetime; likewise a refresh
/// token expires one refresh lifetime after it is issued.
pub proof fn lemma_token_lifetimes_agree(m: TokenManager, now: i64, access: Claims, refresh_exp: i64)
    requires
        window_ok(now as int, m.access_minutes_spec() as int, 60),
        window_ok(now as int, m.refresh_days_spec() as int, 86400),
        access.iat == now,
        access.exp == now + m.access_minutes_spec() * 60,
        refresh_exp == now + m.refresh_days_spec() * 86400,
    ensures
        access.exp - access.iat == m.access_minutes_spec() * 60,
        refresh_exp - now == m.refresh_days_spec() * 86400,
{
}

} // verus!
