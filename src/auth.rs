//! The authentication service: checks a login against the stored credential
//! record and issues an access token.

use vstd::prelude::*;
use vstd::string::*;

use crate::password::{is_unusable_hash, password_matches, verify_password};
use crate::token::{build_claims, hs256_token, sign_claims, unix_now};

verus! {

/// The lifetime of a token, in seconds, where none is configured.
pub const DEFAULT_TOKEN_TTL: i64 = 3600;

/// A login attempt as the client sends it.
pub struct LoginRequest {
    pub username: String,
    pub password: String,
}

/// What the credential store holds for one username.
pub struct CredentialRecord {
    pub id: i64,
    pub password_hash: String,
    pub role: Option<String>,
    pub is_staff: bool,
}

/// The mathematical content of a [`CredentialRecord`].
pub ghost struct CredentialView {
    pub id: int,
    pub password_hash: Seq<char>,
    pub role: Option<Seq<char>>,
    pub is_staff: bool,
}

impl View for CredentialRecord {
    type V = CredentialView;

    open spec fn view(&self) -> CredentialView {
        CredentialView {
            id: self.id as int,
            password_hash: self.password_hash@,
            role: match self.role {
                Some(r) => Some(r@),
                None => None,
            },
            is_staff: self.is_staff,
        }
    }
}

/// The ways a login fails.
#[derive(PartialEq, Eq, Structural, Clone, Copy, Debug)]
pub enum AuthError {
    /// The username or the password is empty.
    InvalidInput,
    /// The username is unknown, or the password does not match; the two are not told apart.
    InvalidCredentials,
    /// The token could not be issued: its expiry does not fit in the clock's range.
    InternalError,
}

impl AuthError {
    /// The HTTP status the error is reported with.
    pub fn status(&self) -> (r: u16)
        ensures
            r == match self {
                AuthError::InvalidInput => 400u16,
                AuthError::InvalidCredentials => 401u16,
                AuthError::InternalError => 500u16,
            },
    {
        match self {
            AuthError::InvalidInput => 400,
            AuthError::InvalidCredentials => 401,
            AuthError::InternalError => 500,
        }
    }

    /// The human-readable `detail` of the error's response.
    pub fn detail(&self) -> (r: String)
        ensures
            r@ == detail_of(*self),
    {
        match self {
            AuthError::InvalidInput => String::from_str("username and password required"),
            AuthError::InvalidCredentials => String::from_str("Invalid credentials"),
            AuthError::InternalError => String::from_str("Token creation failed"),
        }
    }
}

/// The detail text of each error.
pub open spec fn detail_of(e: AuthError) -> Seq<char> {
    match e {
        AuthError::InvalidInput => "username and password required"@,
        AuthError::InvalidCredentials => "Invalid credentials"@,
        AuthError::InternalError => "Token creation failed"@,
    }
}

/// A successful login.
pub struct LoginResponse {
    pub access_token: String,
    pub expires_in: i64,
    pub token_type: String,
}

/// The role a record stands for: its own, or `CUSTOMER` where it has none.
pub open spec fn role_or_default(role: Option<Seq<char>>) -> Seq<char> {
    match role {
        Some(r) => r,
        None => "CUSTOMER"@,
    }
}

/// Why a login is refused before any token is made, if it is: empty input, an
/// unknown username, or a password that does not match the stored hash.
pub open spec fn login_rejection(
    username: Seq<char>,
    password: Seq<char>,
    record: Option<CredentialView>,
) -> Option<AuthError> {
    if username.len() == 0 || password.len() == 0 {
        Some(AuthError::InvalidInput)
    } else {
        match record {
            None => Some(AuthError::InvalidCredentials),
            Some(c) => if password_matches(password, c.password_hash) {
                None
            } else {
                Some(AuthError::InvalidCredentials)
            },
        }
    }
}

/// The view of an optional record.
pub open spec fn record_view(record: Option<&CredentialRecord>) -> Option<CredentialView> {
    match record {
        Some(c) => Some(c@),
        None => None,
    }
}

/// The token owed to the holder of record `c` who logged in as `username` at
/// `now`, for `ttl` seconds.
pub open spec fn login_token(
    c: CredentialView,
    username: Seq<char>,
    now: int,
    ttl: int,
    secret: Seq<char>,
) -> Seq<char> {
    hs256_token(c.id, username, role_or_default(c.role), c.is_staff, now + ttl, now, secret)
}

/// Refuses a login whose username or password is empty, before any lookup.
pub fn check_login_input(req: &LoginRequest) -> (r: Result<(), AuthError>)
    ensures
        r is Err <==> (req.username@.len() == 0 || req.password@.len() == 0),
        r matches Err(e) ==> e == AuthError::InvalidInput,
{
    if req.username.as_str().is_empty() || req.password.as_str().is_empty() {
        Err(AuthError::InvalidInput)
    } else {
        Ok(())
    }
}

/// Decides a login at time `now`, given the record the store holds for the
/// username (`None` where it holds none or the lookup failed). On success the
/// token carries the record's identity, its role (or `CUSTOMER`), and expires
/// `ttl` seconds after `now`.
pub fn authenticate(
    req: &LoginRequest,
    record: Option<&CredentialRecord>,
    now: i64,
    ttl: i64,
    secret: &str,
) -> (r: Result<LoginResponse, AuthError>)
    ensures
        login_rejection(req.username@, req.password@, record_view(record)) matches Some(e) ==> r
            == Err::<LoginResponse, AuthError>(e),
        login_rejection(req.username@, req.password@, record_view(record)) is None ==> match r {
            Ok(resp) => resp.access_token@ == login_token(
                record.unwrap()@,
                req.username@,
                now as int,
                ttl as int,
                secret@,
            ) && resp.expires_in == ttl && resp.token_type@ == "bearer"@,
            Err(e) => e == AuthError::InternalError,
        },
        login_rejection(req.username@, req.password@, record_view(record)) is None && !(i64::MIN
            <= now + ttl <= i64::MAX) ==> r == Err::<LoginResponse, AuthError>(
            AuthError::InternalError,
        ),
        login_rejection(req.username@, req.password@, record_view(record)) is None && i64::MIN
            <= now + ttl <= i64::MAX ==> r is Ok,
        req.username@.len() > 0 && req.password@.len() > 0 && record is Some
            && is_unusable_hash(record.unwrap().password_hash@) ==> r == Err::<
            LoginResponse,
            AuthError,
        >(AuthError::InvalidCredentials),
{
    if let Err(e) = check_login_input(req) {
        return Err(e);
    }
    let c = match record {
        Some(c) => c,
        None => return Err(AuthError::InvalidCredentials),
    };
    if !verify_password(req.password.as_str(), c.password_hash.as_str()) {
        return Err(AuthError::InvalidCredentials);
    }
    let role = match &c.role {
        Some(r) => r.clone(),
        None => String::from_str("CUSTOMER"),
    };
    let claims = match build_claims(c.id, req.username.clone(), role, c.is_staff, now, ttl) {
        Some(claims) => claims,
        None => return Err(AuthError::InternalError),
    };
    let token = sign_claims(&claims, secret);
    Ok(LoginResponse { access_token: token, expires_in: ttl, token_type: String::from_str("bearer") })
}

/// [`authenticate`] at the current time.
pub fn authenticate_now(
    req: &LoginRequest,
    record: Option<&CredentialRecord>,
    ttl: i64,
    secret: &str,
) -> (r: Result<LoginResponse, AuthError>)
    ensures
        login_rejection(req.username@, req.password@, record_view(record)) matches Some(e) ==> r
            == Err::<LoginResponse, AuthError>(e),
        login_rejection(req.username@, req.password@, record_view(record)) is None ==> match r {
            Ok(resp) => exists|now: int|
                resp.access_token@ == login_token(
                    record.unwrap()@,
                    req.username@,
                    now,
                    ttl as int,
                    secret@,
                ),
            Err(e) => e == AuthError::InternalError,
        } && (r matches Ok(resp) ==> resp.expires_in == ttl && resp.token_type@ == "bearer"@),
{
    let now = unix_now();
    authenticate(req, record, now, ttl, secret)
}


/// A login with a matching password is never refused, and the token it is owed
/// carries the record's identity, its role or `CUSTOMER` where it has none, and
/// an expiry exactly the token lifetime after its issue time.
pub proof fn matching_login_claims(
    c: CredentialView,
    username: Seq<char>,
    password: Seq<char>,
    now: int,
    ttl: int,
    secret: Seq<char>,
)
    requires
        username.len() > 0,
        password.len() > 0,
        password_matches(password, c.password_hash),
    ensures
        login_rejection(username, password, Some(c)) is None,
        login_token(c, username, now, ttl, secret) == hs256_token(
            c.id,
            username,
            role_or_default(c.role),
            c.is_staff,
            now + ttl,
            now,
            secret,
        ),
        (now + ttl) - now == ttl,
        c.role is None ==> role_or_default(c.role) == "CUSTOMER"@,
        c.role matches Some(r) ==> role_or_default(c.role) == r,
{
}

/// A wrong password is refused exactly as an unknown username is: both give
/// `InvalidCredentials`, with the same status and detail.
pub proof fn wrong_password_is_like_unknown_user(
    c: CredentialView,
    username: Seq<char>,
    password: Seq<char>,
)
    requires
        username.len() > 0,
        password.len() > 0,
        !password_matches(password, c.password_hash),
    ensures
        login_rejection(username, password, Some(c)) == login_rejection(username, password, None),
        login_rejection(username, password, None) == Some(AuthError::InvalidCredentials),
{
}

} // verus!
