use vstd::prelude::*;
use crate::clock::{now_unix_secs, CODE_LIFETIME_SECS, MAX_TIMESTAMP, TOKEN_LIFETIME_SECS};
use crate::code::is_valid_code;
use crate::error::{AuthError, StorageError};
use crate::model::{is_live_at, Claims, SessionCookie, User, VerificationCode};
use crate::store::{create_spec, redeem_spec, CodeStore, LiveCodes};

verus! {

/// Id of the email template that carries the magic link.
pub const MAGIC_LINK_TEMPLATE_ID: u64 = 34154243;

/// `String::push_str` appends the characters of `string`.
pub assume_specification[ String::push_str ](s: &mut String, string: &str)
    ensures
        final(s)@ == old(s)@ + string@,
;

/// The link that redeems `code` on the service at `base_url`.
pub open spec fn magic_link_spec(base_url: Seq<char>, code: Seq<char>) -> Seq<char> {
    base_url + "/auth/verify/"@ + code
}

/// The email that delivers a magic link: recipient, template and the
/// template's variables.
#[derive(Debug, Clone)]
pub struct Notification {
    pub recipient: String,
    pub template_id: u64,
    pub template_key: String,
    pub magic_link: String,
    pub site_name: String,
    pub user_name: String,
}

/// What a successful login step decided: the record to persist, then the
/// email to send.
#[derive(Debug, Clone)]
pub struct LoginPlan {
    pub record: VerificationCode,
    pub notification: Notification,
}

/// `n` is the magic-link email for `user` with `code` on `base_url`.
pub open spec fn is_notification_for(n: Notification, user: User, base_url: Seq<char>, code: Seq<char>) -> bool {
    &&& n.recipient == user.email
    &&& n.template_id == MAGIC_LINK_TEMPLATE_ID
    &&& n.template_key@ == "magic-link"@
    &&& n.magic_link@ == magic_link_spec(base_url, code)
    &&& n.site_name@ == "JoshuahBoardman.com"@
    &&& n.user_name == user.user_name
}

/// What verify makes of a redemption at `now`: a missing code is an invalid
/// code, another store failure is a backend fault, a record past its expiry
/// is expired, and a live record yields its owner's id.
pub open spec fn redemption_outcome(redeemed: Result<VerificationCode, StorageError>, now: i64) -> Result<u128, AuthError> {
    match redeemed {
        Err(StorageError::NotFound) => Err(AuthError::InvalidCode),
        Err(e) => Err(AuthError::Storage(e)),
        Ok(rec) => if is_live_at(rec.expires_at, now) {
            Ok(rec.user_id)
        } else {
            Err(AuthError::ExpiredCode)
        },
    }
}

/// Builds the magic link `{base_url}/auth/verify/{code}`.
pub fn magic_link(base_url: &str, code: &str) -> (r: String)
    ensures
        r@ == magic_link_spec(base_url@, code@),
{
    let mut link = base_url.to_owned();
    link.push_str("/auth/verify/");
    link.push_str(code);
    link
}

/// The magic-link email for `user`.
pub fn compose_notification(user: &User, base_url: &str, code: &str) -> (r: Notification)
    ensures
        is_notification_for(r, *user, base_url@, code@),
{
    Notification {
        recipient: user.email.clone(),
        template_id: MAGIC_LINK_TEMPLATE_ID,
        template_key: "magic-link".to_owned(),
        magic_link: magic_link(base_url, code),
        site_name: "JoshuahBoardman.com".to_owned(),
        user_name: user.user_name.clone(),
    }
}

/// The login step once the user lookup for the submitted email is done:
/// no user is `UnknownEmail`; otherwise a record for the user holding `code`,
/// created at `now` and expiring one code lifetime later, and its email.
pub fn plan_login(user: Option<User>, base_url: &str, id: u128, code: String, now: i64) -> (r: Result<LoginPlan, AuthError>)
    requires
        now <= i64::MAX - CODE_LIFETIME_SECS,
    ensures
        user is None ==> r == Err::<LoginPlan, AuthError>(AuthError::UnknownEmail),
        user matches Some(u) ==> r matches Ok(p) && {
            &&& p.record.id == id
            &&& p.record.user_id == u.id
            &&& p.record.code == code
            &&& p.record.inserted_at == now
            &&& p.record.expires_at == now + CODE_LIFETIME_SECS
            &&& is_notification_for(p.notification, u, base_url@, code@)
        },
{
    match user {
        None => Err(AuthError::UnknownEmail),
        Some(u) => {
            let notification = compose_notification(&u, base_url, code.as_str());
            let record = VerificationCode::new(id, u.id, code, now);
            Ok(LoginPlan { record, notification })
        },
    }
}

/// The login transition against `store`: no user is `UnknownEmail` and
/// persists nothing; otherwise the record for the user holding `code`, created
/// at `now`, is inserted, and the email that carries its link comes back. A
/// failed insert is reported as a store failure.
pub fn login_code(store: &mut CodeStore, user: Option<User>, base_url: &str, id: u128, code: String, now: i64) -> (r: Result<Notification, AuthError>)
    requires
        old(store).wf(),
        now <= i64::MAX - CODE_LIFETIME_SECS,
    ensures
        final(store).wf(),
        user is None ==> r == Err::<Notification, AuthError>(AuthError::UnknownEmail) && final(store)@ == old(store)@,
        user matches Some(u) ==> {
            let rec = (VerificationCode { id, user_id: u.id, code, expires_at: (now + CODE_LIFETIME_SECS) as i64, inserted_at: now });
            &&& final(store)@ == create_spec(old(store)@, rec).0
            &&& create_spec(old(store)@, rec).1 is Err ==> r == Err::<Notification, AuthError>(AuthError::Storage(StorageError::Conflict))
            &&& create_spec(old(store)@, rec).1 is Ok ==> (r matches Ok(n) && is_notification_for(n, u, base_url@, code@))
        },
{
    match user {
        None => Err(AuthError::UnknownEmail),
        Some(u) => {
            let notification = compose_notification(&u, base_url, code.as_str());
            let rec = VerificationCode::new(id, u.id, code, now);
            match store.create(rec) {
                Ok(()) => Ok(notification),
                Err(e) => Err(AuthError::Storage(e)),
            }
        },
    }
}

/// The login step with a freshly issued record (new id, generated code,
/// current time).
pub fn begin_login(user: Option<User>, base_url: &str) -> (r: Result<LoginPlan, AuthError>)
    ensures
        user is None ==> r == Err::<LoginPlan, AuthError>(AuthError::UnknownEmail),
        user is Some && r is Err ==> r == Err::<LoginPlan, AuthError>(AuthError::ClockUnavailable),
        user matches Some(u) ==> (r matches Ok(p) ==> {
            &&& p.record.user_id == u.id
            &&& is_valid_code(p.record.code@)
            &&& 0 <= p.record.inserted_at <= MAX_TIMESTAMP
            &&& p.record.expires_at == p.record.inserted_at + CODE_LIFETIME_SECS
            &&& is_notification_for(p.notification, u, base_url@, p.record.code@)
        }),
{
    match user {
        None => Err(AuthError::UnknownEmail),
        Some(u) => match VerificationCode::issue(u.id) {
            Err(e) => Err(e),
            Ok(record) => {
                let notification = compose_notification(&u, base_url, record.code.as_str());
                Ok(LoginPlan { record, notification })
            },
        },
    }
}

/// The login step once the record was persisted: a store failure abandons
/// the attempt; otherwise the email is next.
pub fn after_persist(stored: Result<(), StorageError>, plan: LoginPlan) -> (r: Result<Notification, AuthError>)
    ensures
        stored matches Err(e) ==> r == Err::<Notification, AuthError>(AuthError::Storage(e)),
        stored is Ok ==> r == Ok::<Notification, AuthError>(plan.notification),
{
    match stored {
        Err(e) => Err(AuthError::Storage(e)),
        Ok(()) => Ok(plan.notification),
    }
}

/// The last login step: a failed dispatch is `NotificationFailure`.
pub fn after_notify(sent: bool) -> (r: Result<(), AuthError>)
    ensures
        sent <==> r is Ok,
        !sent ==> r == Err::<(), AuthError>(AuthError::NotificationFailure),
{
    if sent {
        Ok(())
    } else {
        Err(AuthError::NotificationFailure)
    }
}

/// The verify step once the code was redeemed, checked at `now`.
pub fn check_redemption(redeemed: Result<VerificationCode, StorageError>, now: i64) -> (r: Result<u128, AuthError>)
    ensures
        r == redemption_outcome(redeemed, now),
{
    match redeemed {
        Err(StorageError::NotFound) => Err(AuthError::InvalidCode),
        Err(e) => Err(AuthError::Storage(e)),
        Ok(rec) => match rec.verify_at(now) {
            Ok(()) => Ok(rec.user_id),
            Err(e) => Err(e),
        },
    }
}

/// The verify step once the code was redeemed, checked at the current time.
pub fn check_redemption_now(redeemed: Result<VerificationCode, StorageError>) -> (r: Result<u128, AuthError>)
    ensures
        redeemed == Err::<VerificationCode, StorageError>(StorageError::NotFound) ==> r == Err::<u128, AuthError>(AuthError::InvalidCode),
        redeemed matches Err(e) ==> (e != StorageError::NotFound ==> r == Err::<u128, AuthError>(AuthError::Storage(e))),
        redeemed matches Ok(rec) ==> (r == Ok::<u128, AuthError>(rec.user_id)
            || r == Err::<u128, AuthError>(AuthError::ExpiredCode)
            || r == Err::<u128, AuthError>(AuthError::ClockUnavailable)),
        redeemed matches Ok(rec) ==> (rec.expires_at < 0 ==> r is Err),
        redeemed matches Ok(rec) ==> (rec.expires_at >= MAX_TIMESTAMP ==> r != Err::<u128, AuthError>(AuthError::ExpiredCode)),
{
    match redeemed {
        Err(_) => check_redemption(redeemed, 0),
        Ok(_) => match now_unix_secs() {
            None => Err(AuthError::ClockUnavailable),
            Some(now) => check_redemption(redeemed, now),
        },
    }
}

/// Redeems `code` from `store` and checks it at `now`: the code is consumed
/// whether or not it has expired.
pub fn verify_code(store: &mut CodeStore, code: &str, now: i64) -> (r: Result<u128, AuthError>)
    requires
        old(store).wf(),
    ensures
        final(store).wf(),
        final(store)@ == redeem_spec(old(store)@, code@).0,
        r == redemption_outcome(redeem_spec(old(store)@, code@).1, now),
{
    let redeemed = store.redeem(code);
    check_redemption(redeemed, now)
}

/// The verify step once the owner of the code was looked up: a missing
/// owner is a backend fault; otherwise claims for the owner issued at `now`.
pub fn issue_session(owner: Option<User>, issuer: String, now: i64) -> (r: Result<Claims, AuthError>)
    requires
        now <= i64::MAX - TOKEN_LIFETIME_SECS,
    ensures
        owner is None ==> r == Err::<Claims, AuthError>(AuthError::MissingUser),
        owner matches Some(u) ==> r matches Ok(c) && c.sub == u.id && c.iss == issuer && c.iat == now
            && c.exp == now + TOKEN_LIFETIME_SECS,
{
    match owner {
        None => Err(AuthError::MissingUser),
        Some(u) => Ok(Claims::issue(u.id, issuer, now)),
    }
}

/// `issue_session` at the current time.
pub fn issue_session_now(owner: Option<User>, issuer: String) -> (r: Result<Claims, AuthError>)
    ensures
        owner is None ==> r == Err::<Claims, AuthError>(AuthError::MissingUser),
        owner is Some && r is Err ==> r == Err::<Claims, AuthError>(AuthError::ClockUnavailable),
        owner matches Some(u) ==> (r matches Ok(c) ==> c.sub == u.id && c.iss == issuer
            && 0 <= c.iat <= MAX_TIMESTAMP && c.exp == c.iat + TOKEN_LIFETIME_SECS),
{
    match owner {
        None => Err(AuthError::MissingUser),
        Some(u) => match now_unix_secs() {
            None => Err(AuthError::ClockUnavailable),
            Some(now) => issue_session(Some(u), issuer, now),
        },
    }
}

/// The last verify step: a token that could not be signed is a
/// `SigningFailure`; a signed one is delivered in the session cookie. The
/// token and the cookie come together or not at all.
pub fn deliver_session(signed: Option<String>) -> (r: Result<SessionCookie, AuthError>)
    ensures
        signed is None ==> r == Err::<SessionCookie, AuthError>(AuthError::SigningFailure),
        signed matches Some(t) ==> r matches Ok(c) && c.value == t && c.max_age_secs == TOKEN_LIFETIME_SECS
            && c.name@ == "authToken"@ && c.path@ == "/"@ && c.same_site_strict && c.http_only && c.secure,
{
    match signed {
        None => Err(AuthError::SigningFailure),
        Some(t) => Ok(SessionCookie::for_token(t)),
    }
}

/// A code redeemed after its expiry fails verification and yields no owner
/// to issue a token for; it is removed all the same, so a later attempt finds
/// nothing either.
pub proof fn lemma_expired_code_yields_no_token(m: LiveCodes, code: Seq<char>, now: i64)
    requires
        m.contains_key(code),
        now > m[code].expires_at,
    ensures
        redemption_outcome(redeem_spec(m, code).1, now) == Err::<u128, AuthError>(AuthError::ExpiredCode),
        !redeem_spec(m, code).0.contains_key(code),
        redemption_outcome(redeem_spec(redeem_spec(m, code).0, code).1, now)
            == Err::<u128, AuthError>(AuthError::InvalidCode),
{
}

/// A second verification of a code fails as invalid whatever the first
/// returned, and leaves the live codes as the first left them.
pub proof fn lemma_verify_twice(m: LiveCodes, code: Seq<char>, first: i64, second: i64)
    ensures
        redemption_outcome(redeem_spec(redeem_spec(m, code).0, code).1, second)
            == Err::<u128, AuthError>(AuthError::InvalidCode),
        redeem_spec(redeem_spec(m, code).0, code).0 == redeem_spec(m, code).0,
{
}

/// A code that is not live fails verification as invalid and leaves the
/// live codes as they were.
pub proof fn lemma_unknown_code_changes_nothing(m: LiveCodes, code: Seq<char>, now: i64)
    requires
        !m.contains_key(code),
    ensures
        redemption_outcome(redeem_spec(m, code).1, now) == Err::<u128, AuthError>(AuthError::InvalidCode),
        redeem_spec(m, code).0 == m,
{
}

} // verus!
