use vstd::prelude::*;
use crate::clock::{now_unix_secs, CODE_LIFETIME_SECS, MAX_TIMESTAMP, TOKEN_LIFETIME_SECS};
use crate::code::{generate_code, is_valid_code};
use crate::error::AuthError;

verus! {

/// The body of a login request.
#[derive(Debug, Clone)]
pub struct LoginRequestBody {
    pub user_email: String,
}

/// A user as the user directory reports it. Ids are UUIDs held as `u128`.
#[derive(Debug, Clone)]
pub struct User {
    pub id: u128,
    pub user_name: String,
    pub email: String,
}

/// A one-time code bound to a user; timestamps are Unix seconds.
#[derive(Debug, Clone)]
pub struct VerificationCode {
    pub id: u128,
    pub user_id: u128,
    pub code: String,
    pub expires_at: i64,
    pub inserted_at: i64,
}

/// The claims of a session token: issuer, subject, issued-at and expiry
/// (Unix seconds).
#[derive(Debug, Clone)]
pub struct Claims {
    pub exp: i64,
    pub iss: String,
    pub sub: u128,
    pub iat: i64,
}

/// Relies on uuid::Uuid::new_v4 and Uuid::as_u128: a fresh random
/// identifier, as its 128-bit value. Nothing is promised of its bits.
#[verifier::external_body]
fn new_record_id() -> (r: u128) {
    uuid::Uuid::new_v4().as_u128()
}

/// Whether a code issued with expiry `expires_at` is still redeemable at `now`.
pub open spec fn is_live_at(expires_at: i64, now: i64) -> bool {
    now <= expires_at
}

impl VerificationCode {
    /// A record for `user_id` holding `code`, created at `now`, expiring one
    /// code lifetime later.
    pub fn new(id: u128, user_id: u128, code: String, now: i64) -> (r: VerificationCode)
        requires
            now <= i64::MAX - CODE_LIFETIME_SECS,
        ensures
            r.id == id,
            r.user_id == user_id,
            r.code == code,
            r.inserted_at == now,
            r.expires_at == now + CODE_LIFETIME_SECS,
    {
        VerificationCode { id, user_id, code, expires_at: now + CODE_LIFETIME_SECS, inserted_at: now }
    }

    /// A fresh record for `user_id`: a new id, a newly generated code, and the
    /// current time as its creation time; `ClockUnavailable` if the clock
    /// cannot be read.
    pub fn issue(user_id: u128) -> (r: Result<VerificationCode, AuthError>)
        ensures
            r is Err ==> r == Err::<VerificationCode, AuthError>(AuthError::ClockUnavailable),
            r matches Ok(rec) ==> {
                &&& rec.user_id == user_id
                &&& is_valid_code(rec.code@)
                &&& 0 <= rec.inserted_at <= MAX_TIMESTAMP
                &&& rec.expires_at == rec.inserted_at + CODE_LIFETIME_SECS
            },
    {
        match now_unix_secs() {
            None => Err(AuthError::ClockUnavailable),
            Some(now) => {
                let id = new_record_id();
                let code = generate_code();
                Ok(VerificationCode::new(id, user_id, code, now))
            },
        }
    }

    /// Checks the record's expiry against `now`.
    pub fn verify_at(&self, now: i64) -> (r: Result<(), AuthError>)
        ensures
            is_live_at(self.expires_at, now) <==> r is Ok,
            !is_live_at(self.expires_at, now) ==> r == Err::<(), AuthError>(AuthError::ExpiredCode),
    {
        if now > self.expires_at {
            Err(AuthError::ExpiredCode)
        } else {
            Ok(())
        }
    }

    /// Checks the record's expiry against the current time;
    /// `ClockUnavailable` if the clock cannot be read.
    pub fn verify(&self) -> (r: Result<(), AuthError>)
        ensures
            r is Ok || r == Err::<(), AuthError>(AuthError::ExpiredCode)
                || r == Err::<(), AuthError>(AuthError::ClockUnavailable),
            self.expires_at < 0 ==> r is Err,
            r is Ok || r == Err::<(), AuthError>(AuthError::ClockUnavailable) || self.expires_at < MAX_TIMESTAMP,
    {
        match now_unix_secs() {
            None => Err(AuthError::ClockUnavailable),
            Some(now) => self.verify_at(now),
        }
    }
}

impl Claims {
    /// Claims for `sub` by `iss`, issued at `now`, valid for one token lifetime.
    pub fn issue(sub: u128, iss: String, now: i64) -> (r: Claims)
        requires
            now <= i64::MAX - TOKEN_LIFETIME_SECS,
        ensures
            r.sub == sub,
            r.iss == iss,
            r.iat == now,
            r.exp == now + TOKEN_LIFETIME_SECS,
    {
        Claims { exp: now + TOKEN_LIFETIME_SECS, iss, sub, iat: now }
    }

    /// Claims for `sub` by `iss`, issued at the current time;
    /// `ClockUnavailable` if the clock cannot be read.
    pub fn issue_now(sub: u128, iss: String) -> (r: Result<Claims, AuthError>)
        ensures
            r is Err ==> r == Err::<Claims, AuthError>(AuthError::ClockUnavailable),
            r matches Ok(c) ==> {
                &&& c.sub == sub
                &&& c.iss == iss
                &&& 0 <= c.iat <= MAX_TIMESTAMP
                &&& c.exp == c.iat + TOKEN_LIFETIME_SECS
            },
    {
        match now_unix_secs() {
            None => Err(AuthError::ClockUnavailable),
            Some(now) => Ok(Claims::issue(sub, iss, now)),
        }
    }
}

/// Name of the cookie that carries the session token.
pub open spec fn session_cookie_name() -> Seq<char> {
    "authToken"@
}

/// The session cookie: the signed token, scoped to `/`, same-site strict,
/// http-only and secure, living exactly as long as the token.
#[derive(Debug, Clone)]
pub struct SessionCookie {
    pub name: String,
    pub value: String,
    pub path: String,
    pub max_age_secs: i64,
    pub same_site_strict: bool,
    pub http_only: bool,
    pub secure: bool,
}

impl SessionCookie {
    /// The cookie that carries `token`.
    pub fn for_token(token: String) -> (r: SessionCookie)
        ensures
            r.name@ == session_cookie_name(),
            r.value == token,
            r.path@ == "/"@,
            r.max_age_secs == TOKEN_LIFETIME_SECS,
            r.same_site_strict,
            r.http_only,
            r.secure,
    {
        SessionCookie {
            name: "authToken".to_owned(),
            value: token,
            path: "/".to_owned(),
            max_age_secs: TOKEN_LIFETIME_SECS,
            same_site_strict: true,
            http_only: true,
            secure: true,
        }
    }
}

} // verus!
