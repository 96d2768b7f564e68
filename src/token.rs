//! The token issuer: the claims of an access token and their signed form.

use vstd::prelude::*;

verus! {

/// The compact HS256 token (`header.payload.signature`, base64url without
/// padding) that `jsonwebtoken::encode` produces with the default header for the
/// JSON claims object `{user_id, username, role, is_staff, exp, iat}` under `secret`.
pub uninterp spec fn hs256_token(
    user_id: int,
    username: Seq<char>,
    role: Seq<char>,
    is_staff: bool,
    exp: int,
    iat: int,
    secret: Seq<char>,
) -> Seq<char>;

#[verifier::external_type_specification]
#[verifier::external_body]
pub struct ExJwtError(jsonwebtoken::errors::Error);

/// The claims an access token carries: who it is for, what they may do, and
/// when it was issued and expires (unix seconds).
pub struct Claims {
    pub user_id: i64,
    pub username: String,
    pub role: String,
    pub is_staff: bool,
    pub exp: i64,
    pub iat: i64,
}

/// The token that signs `c` with `secret`.
pub open spec fn token_of(c: &Claims, secret: Seq<char>) -> Seq<char> {
    hs256_token(c.user_id as int, c.username@, c.role@, c.is_staff, c.exp as int, c.iat as int, secret)
}

/// Relies on `jsonwebtoken::encode` with `Header::default()` (HS256) and
/// `EncodingKey::from_secret`, the claims given to it as a `serde_json` object
/// with one entry per field. `encode` fails only where the key's algorithm family
/// differs from the header's, and a secret key always suits the HS256 header.
#[verifier::external_body]
fn jwt_encode(c: &Claims, secret: &str) -> (r: Result<String, jsonwebtoken::errors::Error>)
    ensures
        r is Ok,
        r matches Ok(t) ==> t@ == hs256_token(
            c.user_id as int,
            c.username@,
            c.role@,
            c.is_staff,
            c.exp as int,
            c.iat as int,
            secret@,
        ),
{
    let mut m = serde_json::Map::new();
    m.insert("user_id".to_string(), c.user_id.into());
    m.insert("username".to_string(), c.username.clone().into());
    m.insert("role".to_string(), c.role.clone().into());
    m.insert("is_staff".to_string(), c.is_staff.into());
    m.insert("exp".to_string(), c.exp.into());
    m.insert("iat".to_string(), c.iat.into());
    let key = jsonwebtoken::EncodingKey::from_secret(secret.as_bytes());
    jsonwebtoken::encode(&jsonwebtoken::Header::default(), &m, &key)
}

/// Relies on `chrono::Utc::now`: the current time in unix seconds. Nothing is
/// known of its value.
#[verifier::external_body]
pub(crate) fn unix_now() -> (r: i64) {
    chrono::Utc::now().timestamp()
}

/// Claims issued at `now` that expire `ttl` seconds later; `None` where the
/// expiry does not fit in an `i64`.
pub fn build_claims(
    user_id: i64,
    username: String,
    role: String,
    is_staff: bool,
    now: i64,
    ttl: i64,
) -> (r: Option<Claims>)
    ensures
        r is None <==> !(i64::MIN <= now + ttl <= i64::MAX),
        r matches Some(c) ==> c.user_id == user_id && c.username@ == username@ && c.role@
            == role@ && c.is_staff == is_staff && c.iat == now && c.exp == now + ttl,
{
    match now.checked_add(ttl) {
        Some(exp) => Some(Claims { user_id, username, role, is_staff, exp, iat: now }),
        None => None,
    }
}

/// Signs `c` with `secret`.
pub fn sign_claims(c: &Claims, secret: &str) -> (r: String)
    ensures
        r@ == token_of(c, secret@),
{
    match jwt_encode(c, secret) {
        Ok(t) => t,
        Err(_) => String::new(),
    }
}

} // verus!
