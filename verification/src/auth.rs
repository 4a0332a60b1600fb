//! Who is talking: bearer tokens and passwords.
//!
//! Tokens are JSON Web Tokens signed with a shared secret (jsonwebtoken);
//! a token carries the user it is bound to and the instant it expires.
//! Passwords are hashed with Argon2.

use vstd::prelude::*;
use crate::db::UserRow;
use crate::json::{integer_text, member, object, quoted, text_of, unsigned_of, json_members};
use crate::json::{find_text, find_unsigned, json_integer, json_quote, parse_object, write_member, write_object};
use crate::models::{AuthResponse, User};
use crate::text::{str_eq, views};
use argon2::{Argon2, PasswordHasher, PasswordVerifier};
use std::time::{SystemTime, UNIX_EPOCH};

verus! {

/// Why jsonwebtoken turned a token down, or could not sign one.
#[verifier::external_type_specification]
#[verifier::external_body]
pub struct ExTokenFault(jsonwebtoken::errors::Error);

/// How long a token stays valid after it was issued: seven days, in seconds.
pub const TOKEN_LIFETIME_SECS: u64 = 604800;

/// The allowance, in seconds, that jsonwebtoken grants a token past its
/// expiry by default. It takes the allowance off the clock's reading, so the
/// clock must stand at least that far after 1970.
pub const CLOCK_ALLOWANCE_SECS: u64 = 60;

/// What a token says: the user it is bound to and when it expires.
#[derive(Debug, Clone, PartialEq, Eq)]
pub struct Claims {
    /// The user's id.
    pub sub: String,
    /// The instant of expiry, in seconds since 1970.
    pub exp: usize,
}

/// The user on whose behalf a request is handled.
#[derive(Debug, Clone, PartialEq, Eq)]
pub struct AuthUser {
    pub user_id: String,
}

/// Why no claims came out of a token, or no token out of claims.
#[derive(Debug, Clone, Copy, PartialEq, Eq, Structural)]
pub enum TokenError {
    /// jsonwebtoken refused: the token is malformed, its signature is wrong,
    /// it has expired; or, when signing, the token could not be made.
    Rejected,
    /// The token is sound but its claims lack a user or an expiry.
    Claims,
}

/// The token that jsonwebtoken signs (HS256, default header) over the claims
/// given as JSON text, with the secret; `None` where it fails to.
pub uninterp spec fn signed_token(claims: Seq<char>, secret: Seq<char>) -> Option<Seq<char>>;

/// Whether the password matches the Argon2 hash given in PHC form; `None`
/// where the hash is not in that form.
pub uninterp spec fn password_check(password: Seq<char>, hash: Seq<char>) -> Option<bool>;

/// Checks a token with `jsonwebtoken::decode` (secret key, default
/// validation: HS256, expiry required and compared with the clock) and hands
/// out its claims as JSON text. The outcome depends on the clock, so nothing
/// is promised of it. jsonwebtoken reads the clock itself and panics where
/// it stands before 1970; callers look at the clock first.
#[verifier::external_body]
fn decode_claims(token: &str, secret: &str) -> Result<String, jsonwebtoken::errors::Error> {
    let key = jsonwebtoken::DecodingKey::from_secret(secret.as_bytes());
    let validation = jsonwebtoken::Validation::default();
    match jsonwebtoken::decode::<serde_json::Value>(token, &key, &validation) {
        Ok(data) => Ok(data.claims.to_string()),
        Err(fault) => Err(fault),
    }
}

/// Signs claims with `jsonwebtoken::encode` (default header: HS256; secret
/// key). The claims come as JSON text and are handed on as the value that
/// `serde_json::from_str` reads from it. The outcome depends on the two
/// arguments alone and is named `signed_token`.
#[verifier::external_body]
fn sign_claims(claims: &str, secret: &str) -> (r: Result<String, jsonwebtoken::errors::Error>)
    ensures
        match r {
            Ok(token) => signed_token(claims@, secret@) == Some(token@),
            Err(_) => signed_token(claims@, secret@) is None,
        },
{
    let claims = serde_json::from_str::<serde_json::Value>(claims)?;
    let key = jsonwebtoken::EncodingKey::from_secret(secret.as_bytes());
    jsonwebtoken::encode(&jsonwebtoken::Header::default(), &claims, &key)
}

/// Reads the clock with `SystemTime::now`: the seconds since 1970, or `None`
/// where the clock stands before 1970.
#[verifier::external_body]
fn unix_now() -> Option<u64> {
    SystemTime::now().duration_since(UNIX_EPOCH).ok().map(|since| since.as_secs())
}

/// Hashes a password with Argon2 (default parameters) under a fresh random
/// salt from the operating system; `None` where Argon2 refuses the password.
/// The hash depends on the salt; what holds of every hash is that it is in
/// PHC form and that the password matches it.
#[verifier::external_body]
fn argon2_hash(password: &str) -> (r: Option<String>)
    ensures
        r matches Some(hash) ==> password_check(password@, hash@) == Some(true),
{
    let salt = password_hash::SaltString::generate(&mut password_hash::rand_core::OsRng);
    Argon2::default().hash_password(password.as_bytes(), &salt).ok().map(|hash| hash.to_string())
}

/// Parses a hash with `PasswordHash::new` and checks the password against
/// it with Argon2's `verify_password`. The outcome is named
/// `password_check`.
#[verifier::external_body]
fn argon2_verify(password: &str, hash: &str) -> (r: Option<bool>)
    ensures
        r == password_check(password@, hash@),
{
    password_hash::PasswordHash::new(hash).ok().map(
        |parsed| Argon2::default().verify_password(password.as_bytes(), &parsed).is_ok(),
    )
}

/// The instant at which a token issued at `now` expires: a lifetime later,
/// or the largest instant there is where that is too large to hold.
pub open spec fn expiry_at(now: int) -> int {
    if now + TOKEN_LIFETIME_SECS <= usize::MAX {
        now + TOKEN_LIFETIME_SECS
    } else {
        usize::MAX as int
    }
}

/// Computes when a token issued at `now` expires.
pub fn expiry_after(now: u64) -> (exp: usize)
    ensures
        exp == expiry_at(now as int),
{
    let exp = now.saturating_add(TOKEN_LIFETIME_SECS);
    if exp > usize::MAX as u64 {
        usize::MAX
    } else {
        exp as usize
    }
}

/// When a token issued now expires. A clock that stands before 1970 counts
/// as standing at 1970.
pub fn chrono_like_exp() -> (exp: usize)
    ensures
        exists|now: u64| exp == expiry_at(now as int),
{
    let now = match unix_now() {
        Some(now) => now,
        None => 0,
    };
    expiry_after(now)
}

/// The JSON text of the claims that bind a token to `sub` until `exp`.
pub open spec fn claims_wire(sub: Seq<char>, exp: int) -> Seq<char> {
    object(seq![member("exp"@, integer_text(exp)), member("sub"@, quoted(sub))])
}

impl Claims {
    /// The JSON text of these claims.
    pub open spec fn wire(&self) -> Seq<char> {
        claims_wire(self.sub@, self.exp as int)
    }

    /// Renders these claims as JSON.
    pub fn to_json(&self) -> (r: String)
        ensures
            r@ == self.wire(),
    {
        let mut members: Vec<String> = Vec::new();
        members.push(write_member("exp", json_integer(self.exp as i128).as_str()));
        members.push(write_member("sub", json_quote(self.sub.as_str()).as_str()));
        assert(views(members@) =~= seq![
            member("exp"@, integer_text(self.exp as int)),
            member("sub"@, quoted(self.sub@)),
        ]);
        write_object(&members)
    }

    /// The claims that the JSON text spells: an object with a string `sub`
    /// and a non-negative integer `exp` that fits a `usize`.
    pub open spec fn decoded(text: Seq<char>) -> Option<Claims> {
        match json_members(text) {
            Some(members) => match (text_of(members, "sub"@), unsigned_of(members, "exp"@)) {
                (Some(sub), Some(exp)) => if exp <= usize::MAX {
                    Some(Claims { sub, exp: exp as usize })
                } else {
                    None
                },
                _ => None,
            },
            None => None,
        }
    }

    /// Reads claims out of JSON text.
    pub fn from_json(text: &str) -> (r: Option<Claims>)
        ensures
            r == Claims::decoded(text@),
    {
        match parse_object(text) {
            Some(members) => match (find_text(&members, "sub"), find_unsigned(&members, "exp")) {
                (Some(sub), Some(exp)) => {
                    if exp <= usize::MAX as u64 {
                        Some(Claims { sub, exp: exp as usize })
                    } else {
                        None
                    }
                },
                _ => None,
            },
            None => None,
        }
    }
}

/// The token for `user_id` that expires at `exp`, as jsonwebtoken signs it
/// with `secret`.
pub open spec fn token_for(user_id: Seq<char>, secret: Seq<char>, exp: int) -> Option<Seq<char>> {
    signed_token(claims_wire(user_id, exp), secret)
}

/// Whether `r` is the outcome of issuing the token for `user_id` that
/// expires at `exp`.
pub open spec fn issued(
    r: Result<String, TokenError>,
    user_id: Seq<char>,
    secret: Seq<char>,
    exp: int,
) -> bool {
    match r {
        Ok(token) => token_for(user_id, secret, exp) == Some(token@),
        Err(fault) => fault == TokenError::Rejected && token_for(user_id, secret, exp) is None,
    }
}

/// Issues the token for `user_id` that expires at `exp`.
pub fn create_token_until(user_id: &str, secret: &str, exp: usize) -> (r: Result<
    String,
    TokenError,
>)
    ensures
        issued(r, user_id@, secret@, exp as int),
{
    let claims = Claims { sub: String::from_str(user_id), exp };
    let text = claims.to_json();
    match sign_claims(text.as_str(), secret) {
        Ok(token) => Ok(token),
        Err(_) => Err(TokenError::Rejected),
    }
}

/// Issues a token for `user_id` that expires seven days from now.
pub fn create_token(user_id: &str, secret: &str) -> (r: Result<String, TokenError>)
    ensures
        exists|now: u64| issued(r, user_id@, secret@, expiry_at(now as int)),
{
    let exp = chrono_like_exp();
    let r = create_token_until(user_id, secret, exp);
    proof {
        let now = choose|now: u64| exp == expiry_at(now as int);
        assert(issued(r, user_id@, secret@, expiry_at(now as int)));
    }
    r
}

/// What becomes of the outcome of checking a token: the claims where the
/// token was sound and they are complete, else the reason.
pub open spec fn claims_from(checked: Option<Seq<char>>) -> Result<Claims, TokenError> {
    match checked {
        Some(text) => match Claims::decoded(text) {
            Some(claims) => Ok(claims),
            None => Err(TokenError::Claims),
        },
        None => Err(TokenError::Rejected),
    }
}

/// The characters of a text that may be missing.
pub open spec fn seen(text: Option<String>) -> Option<Seq<char>> {
    match text {
        Some(text) => Some(text@),
        None => None,
    }
}

/// Turns the outcome of checking a token into claims: `checked` holds the
/// claims as JSON text where the token was sound.
pub fn claims_of(checked: Option<String>) -> (r: Result<Claims, TokenError>)
    ensures
        r == claims_from(seen(checked)),
{
    match checked {
        Some(text) => match Claims::from_json(text.as_str()) {
            Some(claims) => Ok(claims),
            None => Err(TokenError::Claims),
        },
        None => Err(TokenError::Rejected),
    }
}

/// Checks a token against the secret and the clock and hands out its
/// claims. Whether a token is sound is jsonwebtoken's to say and depends on
/// the clock; what is made of its answer is `claims_from`. On a clock that
/// stands before 1970, or within the allowance after it, no token is
/// checked and every token is rejected.
pub fn validate_token(token: &str, secret: &str) -> (r: Result<Claims, TokenError>)
    ensures
        exists|checked: Option<Seq<char>>| r == claims_from(checked),
{
    let usable = match unix_now() {
        Some(now) => now >= CLOCK_ALLOWANCE_SECS,
        None => false,
    };
    let checked = if usable {
        match decode_claims(token, secret) {
            Ok(text) => Some(text),
            Err(_) => None,
        }
    } else {
        None
    };
    let r = claims_of(checked);
    assert(r == claims_from(seen(checked)));
    r
}

/// The verdict on a token as a session takes it: the user that the token is
/// bound to, or `None`.
pub fn verdict(checked: Result<Claims, TokenError>) -> (user_id: Option<String>)
    ensures
        user_id == match checked {
            Ok(claims) => Some(claims.sub),
            Err(_) => None,
        },
{
    match checked {
        Ok(claims) => Some(claims.sub),
        Err(_) => None,
    }
}

/// Hashes a password for storage; `None` where Argon2 refuses the password.
/// Each call salts anew, so two hashes of one password differ; the password
/// matches every one of them.
pub fn hash_password(password: &str) -> (r: Option<String>)
    ensures
        r matches Some(hash) ==> password_check(password@, hash@) == Some(true),
{
    argon2_hash(password)
}

/// Tells whether the password matches the stored hash. A stored hash that
/// is not in PHC form matches nothing.
pub fn verify_password(password: &str, hash: &str) -> (matches: bool)
    ensures
        matches == (password_check(password@, hash@) == Some(true)),
{
    match argon2_verify(password, hash) {
        Some(matches) => matches,
        None => false,
    }
}

/// Why a request was turned away at the door.
#[derive(Debug, Clone, Copy, PartialEq, Eq, Structural)]
pub enum Denied {
    /// The request carries no bearer token.
    MissingToken,
    /// The token was turned down.
    InvalidToken,
}

/// The token in an `Authorization` header: what follows `Bearer `, if the
/// header begins so.
pub open spec fn bearer_of(header: Seq<char>) -> Option<Seq<char>> {
    if header.len() >= 7 && header.subrange(0, 7) == "Bearer "@ {
        Some(header.subrange(7, header.len() as int))
    } else {
        None
    }
}

/// Takes the bearer token out of an `Authorization` header.
pub fn bearer_token(header: &str) -> (token: Option<String>)
    ensures
        match token {
            Some(token) => bearer_of(header@) == Some(token@),
            None => bearer_of(header@) is None,
        },
{
    let n = header.unicode_len();
    if n < 7 {
        return None;
    }
    if str_eq(header.substring_char(0, 7), "Bearer ") {
        Some(String::from_str(header.substring_char(7, n)))
    } else {
        None
    }
}

/// What the door makes of a header and of the verdict on its token: the
/// user, or why the request is turned away.
pub open spec fn admitted(header: Seq<char>, checked: Result<Claims, TokenError>) -> Result<
    AuthUser,
    Denied,
> {
    match bearer_of(header) {
        None => Err(Denied::MissingToken),
        Some(_) => match checked {
            Ok(claims) => Ok(AuthUser { user_id: claims.sub }),
            Err(_) => Err(Denied::InvalidToken),
        },
    }
}

/// Decides whether a request may pass: it must carry a bearer token that
/// `validate_token` accepts. A request without a token is turned away
/// without the verifier being asked.
pub fn authorize(header: &str, secret: &str) -> (r: Result<AuthUser, Denied>)
    ensures
        bearer_of(header@) is None ==> r == Err::<AuthUser, Denied>(Denied::MissingToken),
        bearer_of(header@) is Some ==> exists|checked: Result<Claims, TokenError>|
            r == admitted(header@, checked),
{
    match bearer_token(header) {
        None => Err(Denied::MissingToken),
        Some(token) => {
            let checked = validate_token(token.as_str(), secret);
            let r = match checked {
                Ok(claims) => Ok(AuthUser { user_id: claims.sub }),
                Err(_) => Err(Denied::InvalidToken),
            };
            assert(r == admitted(header@, checked));
            r
        },
    }
}

/// Why a registration or a login failed.
#[derive(Debug, Clone, Copy, PartialEq, Eq, Structural)]
pub enum AuthFailure {
    /// Registration: the name is in use.
    UsernameTaken,
    /// Login: no such user, or the password does not match.
    InvalidCredentials,
    /// The stored user is unusable or no token could be made.
    Internal,
}

/// The user as it stands right after registration: dark theme, English,
/// notifications on, no avatar; the store sets the two instants.
pub fn new_user(id: crate::ids::Uuid, username: String) -> (user: User)
    ensures
        user.id == id,
        user.username == username,
        user.avatar_url is None,
        user.theme@ == "dark"@,
        user.language@ == "en"@,
        user.notifications_enabled,
        user.created_at@ == Seq::<char>::empty(),
        user.updated_at@ == Seq::<char>::empty(),
{
    User {
        id,
        username,
        avatar_url: None,
        theme: String::from_str("dark"),
        language: String::from_str("en"),
        notifications_enabled: true,
        created_at: String::new(),
        updated_at: String::new(),
    }
}

/// Finishes a registration once the user is stored: the answer holds the
/// new user and a token bound to its id.
pub fn register(id: crate::ids::Uuid, username: String, secret: &str) -> (r: Result<
    AuthResponse,
    AuthFailure,
>)
    ensures
        match r {
            Ok(response) => {
                &&& response.user.id == id
                &&& response.user.username == username
                &&& exists|now: u64|
                    token_for(id.text()@, secret@, expiry_at(now as int)) == Some(response.token@)
            },
            Err(failure) => failure == AuthFailure::Internal,
        },
{
    match create_token(id.as_str(), secret) {
        Ok(token) => Ok(AuthResponse { token, user: new_user(id, username) }),
        Err(_) => Err(AuthFailure::Internal),
    }
}

/// Whether a login may go on to issue a token: the user exists and the
/// password matches the stored hash.
pub open spec fn credentials_hold(row: Option<UserRow>, password: Seq<char>) -> bool {
    match row {
        Some(row) => password_check(password, row.password_hash@) == Some(true),
        None => false,
    }
}

/// Logs a user in. `row` is the stored user of that name, if there is one.
/// With no such user or a password that does not match, the login is turned
/// down with `InvalidCredentials`; otherwise the answer holds the user as
/// stored and a token bound to the user's id.
pub fn login(row: Option<UserRow>, password: &str, secret: &str) -> (r: Result<
    AuthResponse,
    AuthFailure,
>)
    ensures
        !credentials_hold(row, password@) ==> r == Err::<AuthResponse, AuthFailure>(
            AuthFailure::InvalidCredentials,
        ),
        credentials_hold(row, password@) ==> match r {
            Ok(response) => {
                &&& User::of_row(row->0) == Some(response.user)
                &&& exists|now: u64|
                    token_for(row->0.id@, secret@, expiry_at(now as int)) == Some(
                        response.token@,
                    )
            },
            Err(failure) => failure == AuthFailure::Internal,
        },
{
    let row = match row {
        Some(row) => row,
        None => {
            return Err(AuthFailure::InvalidCredentials);
        },
    };
    if !verify_password(password, row.password_hash.as_str()) {
        return Err(AuthFailure::InvalidCredentials);
    }
    let user = match User::from_row(&row) {
        Some(user) => user,
        None => {
            return Err(AuthFailure::Internal);
        },
    };
    match create_token(row.id.as_str(), secret) {
        Ok(token) => Ok(AuthResponse { token, user }),
        Err(_) => Err(AuthFailure::Internal),
    }
}

} // verus!
