use magic_link_auth::clock::{CODE_LIFETIME_SECS, TOKEN_LIFETIME_SECS};
use magic_link_auth::code::{code_from_samples, generate_code, CODE_LEN};
use magic_link_auth::error::{AuthError, StorageError, STATUS_INTERNAL, STATUS_UNAUTHORIZED};
use magic_link_auth::flow::{
    after_notify, after_persist, begin_login, check_redemption, check_redemption_now,
    compose_notification, deliver_session, login_code, issue_session, issue_session_now, magic_link,
    plan_login, verify_code, MAGIC_LINK_TEMPLATE_ID,
};
use magic_link_auth::model::{Claims, SessionCookie, User, VerificationCode};
use magic_link_auth::store::CodeStore;

fn user_a() -> User {
    User { id: 0xa1, user_name: "Ada".to_string(), email: "a@example.com".to_string() }
}

fn record(code: &str, user_id: u128, now: i64) -> VerificationCode {
    VerificationCode::new(1, user_id, code.to_string(), now)
}

#[test]
fn generated_codes_are_fixed_length_alphanumeric() {
    for _ in 0..50 {
        let c = generate_code();
        assert_eq!(c.chars().count(), CODE_LEN);
        assert_eq!(c.len(), 64);
        assert!(c.chars().all(|ch| ch.is_ascii_alphanumeric()));
    }
}

#[test]
fn generated_codes_differ() {
    assert_ne!(generate_code(), generate_code());
}

#[test]
fn redeem_twice_second_is_not_found() {
    let mut store = CodeStore::new();
    assert_eq!(store.create(record("abc", 7, 100)), Ok(()));
    let first = store.redeem("abc").unwrap();
    assert_eq!(first.user_id, 7);
    assert_eq!(first.code, "abc");
    assert_eq!(store.redeem("abc").unwrap_err(), StorageError::NotFound);
}

#[test]
fn redeem_twice_expired_first_still_consumes() {
    let mut store = CodeStore::new();
    store.create(record("abc", 7, 100)).unwrap();
    assert_eq!(verify_code(&mut store, "abc", 100 + 3601), Err(AuthError::ExpiredCode));
    assert_eq!(verify_code(&mut store, "abc", 100), Err(AuthError::InvalidCode));
}

#[test]
fn expired_code_yields_no_token() {
    let mut store = CodeStore::new();
    store.create(record("late", 7, 1000)).unwrap();
    let r = verify_code(&mut store, "late", 1000 + CODE_LIFETIME_SECS + 1);
    assert_eq!(r, Err(AuthError::ExpiredCode));
    assert_eq!(r.unwrap_err().status_code(), STATUS_UNAUTHORIZED);
    assert!(!store.contains("late"));
}

#[test]
fn code_at_exact_expiry_is_still_live() {
    let rec = record("edge", 7, 1000);
    assert_eq!(rec.expires_at, 4600);
    assert_eq!(rec.verify_at(4600), Ok(()));
    assert_eq!(rec.verify_at(4601), Err(AuthError::ExpiredCode));
}

#[test]
fn issued_claims_last_one_hour() {
    let c = Claims::issue(42, "https://example.com".to_string(), 1_700_000_000);
    assert_eq!(c.iat, 1_700_000_000);
    assert_eq!(c.exp, 1_700_003_600);
    assert_eq!(c.exp, c.iat + 3600);
    assert_eq!(c.sub, 42);
    assert_eq!(c.iss, "https://example.com");
    let now = Claims::issue_now(42, "i".to_string()).unwrap();
    assert_eq!(now.exp - now.iat, TOKEN_LIFETIME_SECS);
}

#[test]
fn issue_now_uses_the_clock() {
    let before = chrono::Utc::now().timestamp();
    let c = Claims::issue_now(1, "i".to_string()).unwrap();
    let after = chrono::Utc::now().timestamp();
    assert!(before <= c.iat && c.iat <= after);
}

#[test]
fn racing_redemptions_yield_one_success() {
    let n = 25;
    let mut store = CodeStore::new();
    store.create(record("race", 9, 0)).unwrap();
    let results: Vec<Result<VerificationCode, StorageError>> =
        (0..n).map(|_| store.redeem("race")).collect();
    assert_eq!(results.iter().filter(|r| r.is_ok()).count(), 1);
    assert_eq!(results.iter().filter(|r| matches!(r, Err(StorageError::NotFound))).count(), n - 1);
    assert!(results[0].is_ok());
}

#[test]
fn login_then_verify_within_the_hour() {
    let now = 1_700_000_000;
    let mut store = CodeStore::new();
    let plan = plan_login(Some(user_a()), "https://api.example.com", 5, "c0de".to_string(), now).unwrap();
    assert_eq!(plan.record.expires_at, now + 3600);
    assert_eq!(plan.record.user_id, 0xa1);
    assert_eq!(plan.notification.recipient, "a@example.com");
    assert_eq!(plan.notification.magic_link, "https://api.example.com/auth/verify/c0de");
    let code = plan.record.code.clone();
    let stored = store.create(plan.record.clone());
    let note = after_persist(stored, plan).unwrap();
    assert_eq!(after_notify(true), Ok(()));
    assert_eq!(note.template_id, MAGIC_LINK_TEMPLATE_ID);
    assert!(store.contains(&code));

    let owner_id = verify_code(&mut store, &code, now + 1800).unwrap();
    assert_eq!(owner_id, 0xa1);
    let claims = issue_session(Some(user_a()), "https://api.example.com".to_string(), now + 1800).unwrap();
    assert_eq!(claims.sub, 0xa1);
    assert_eq!(claims.exp, now + 1800 + 3600);

    let mut body = std::collections::BTreeMap::new();
    body.insert("sub", claims.sub.to_string());
    body.insert("iss", claims.iss.clone());
    let token = jsonwebtoken::encode(
        &jsonwebtoken::Header::default(),
        &body,
        &jsonwebtoken::EncodingKey::from_secret(b"test-secret"),
    )
    .unwrap();
    assert!(!token.is_empty());
    let cookie = deliver_session(Some(token.clone())).unwrap();
    assert_eq!(cookie.value, token);
    assert_eq!(cookie.name, "authToken");
    assert_eq!(cookie.path, "/");
    assert_eq!(cookie.max_age_secs, 3600);
    assert!(cookie.same_site_strict && cookie.http_only && cookie.secure);
}

#[test]
fn begin_login_issues_a_fresh_code() {
    let plan = begin_login(Some(user_a()), "https://x").unwrap();
    assert_eq!(plan.record.code.len(), 64);
    assert_eq!(plan.record.expires_at, plan.record.inserted_at + 3600);
    assert_eq!(plan.notification.magic_link, format!("https://x/auth/verify/{}", plan.record.code));
    let other = begin_login(Some(user_a()), "https://x").unwrap();
    assert_ne!(plan.record.id, other.record.id);
}

#[test]
fn verify_unknown_code_is_unauthorized_and_changes_nothing() {
    let mut store = CodeStore::new();
    store.create(record("kept", 3, 0)).unwrap();
    let r = verify_code(&mut store, "never-issued", 10);
    assert_eq!(r, Err(AuthError::InvalidCode));
    assert_eq!(r.unwrap_err().status_code(), 401);
    assert!(store.contains("kept"));
    assert!(!store.contains("never-issued"));
}

#[test]
fn login_for_unknown_email_is_unauthorized() {
    let r = plan_login(None, "https://x", 1, "abc".to_string(), 0);
    assert_eq!(r.as_ref().unwrap_err(), &AuthError::UnknownEmail);
    assert_eq!(r.unwrap_err().status_code(), 401);
    assert_eq!(begin_login(None, "https://x").unwrap_err(), AuthError::UnknownEmail);
}

#[test]
fn create_rejects_live_duplicate_code() {
    let mut store = CodeStore::new();
    assert_eq!(store.create(record("dup", 1, 0)), Ok(()));
    assert_eq!(store.create(record("dup", 2, 0)), Err(StorageError::Conflict));
    assert_eq!(store.redeem("dup").unwrap().user_id, 1);
    assert_eq!(store.create(record("dup", 2, 0)), Ok(()));
}

#[test]
fn store_keeps_other_codes_on_redeem() {
    let mut store = CodeStore::new();
    for (id, c) in [(1, "a"), (2, "b"), (3, "c")] {
        store.create(VerificationCode::new(id, 1, c.to_string(), 0)).unwrap();
    }
    assert!(store.redeem("b").is_ok());
    assert!(store.contains("a") && store.contains("c") && !store.contains("b"));
}

#[test]
fn status_codes_and_messages() {
    assert_eq!(AuthError::UnknownEmail.status_code(), STATUS_UNAUTHORIZED);
    assert_eq!(AuthError::InvalidCode.status_code(), 401);
    assert_eq!(AuthError::ExpiredCode.status_code(), 401);
    assert_eq!(AuthError::NotificationFailure.status_code(), 401);
    assert_eq!(AuthError::MissingUser.status_code(), STATUS_INTERNAL);
    assert_eq!(AuthError::SigningFailure.status_code(), 500);
    assert_eq!(AuthError::ClockUnavailable.status_code(), 500);
    assert_eq!(AuthError::ClockUnavailable.public_message(), "internal server error");
    assert_eq!(AuthError::Storage(StorageError::Backend).status_code(), 500);
    assert_eq!(AuthError::InvalidCode.public_message(), AuthError::ExpiredCode.public_message());
    assert_eq!(AuthError::Storage(StorageError::Conflict).public_message(), "internal server error");
    assert_eq!(AuthError::UnknownEmail.public_message(), "login failed");
    assert_eq!(AuthError::NotificationFailure.public_message(), "login failed");
    assert_eq!(AuthError::InvalidCode.public_message(), "invalid or expired verification code");
}

#[test]
fn redemption_failures_map_to_flow_errors() {
    assert_eq!(check_redemption(Err(StorageError::NotFound), 0), Err(AuthError::InvalidCode));
    assert_eq!(
        check_redemption(Err(StorageError::Backend), 0),
        Err(AuthError::Storage(StorageError::Backend))
    );
    assert_eq!(check_redemption(Ok(record("x", 4, 0)), 3600), Ok(4));
    assert_eq!(check_redemption_now(Ok(record("x", 4, 0))), Err(AuthError::ExpiredCode));
    assert_eq!(check_redemption_now(Ok(record("x", 4, i64::MAX - 3600))), Ok(4));
    assert_eq!(record("x", 4, 0).verify(), Err(AuthError::ExpiredCode));
}

#[test]
fn login_steps_report_failures() {
    let plan = plan_login(Some(user_a()), "u", 1, "k".to_string(), 0).unwrap();
    assert_eq!(
        after_persist(Err(StorageError::Conflict), plan).unwrap_err(),
        AuthError::Storage(StorageError::Conflict)
    );
    assert_eq!(after_notify(false), Err(AuthError::NotificationFailure));
}

#[test]
fn verify_steps_report_failures() {
    assert_eq!(issue_session(None, "i".to_string(), 0).unwrap_err(), AuthError::MissingUser);
    assert_eq!(issue_session_now(None, "i".to_string()).unwrap_err(), AuthError::MissingUser);
    assert_eq!(deliver_session(None).unwrap_err(), AuthError::SigningFailure);
    let c: SessionCookie = SessionCookie::for_token("t".to_string());
    assert_eq!(c.value, "t");
}

#[test]
fn notification_carries_template_variables() {
    let n = compose_notification(&user_a(), "https://site", "XYZ");
    assert_eq!(n.recipient, "a@example.com");
    assert_eq!(n.template_key, "magic-link");
    assert_eq!(n.site_name, "JoshuahBoardman.com");
    assert_eq!(n.user_name, "Ada");
    assert_eq!(n.magic_link, "https://site/auth/verify/XYZ");
    assert_eq!(magic_link("", ""), "/auth/verify/");
}

#[test]
fn login_for_unknown_email_persists_nothing() {
    let mut store = CodeStore::new();
    let r = login_code(&mut store, None, "https://x", 1, "abc".to_string(), 0);
    assert_eq!(r.unwrap_err().status_code(), 401);
    assert!(!store.contains("abc"));
}

#[test]
fn login_code_persists_then_verifies_once() {
    let now = 2_000;
    let mut store = CodeStore::new();
    let n = login_code(&mut store, Some(user_a()), "https://x", 1, "k1".to_string(), now).unwrap();
    assert_eq!(n.magic_link, "https://x/auth/verify/k1");
    assert!(store.contains("k1"));
    assert_eq!(
        login_code(&mut store, Some(user_a()), "https://x", 2, "k1".to_string(), now).unwrap_err(),
        AuthError::Storage(StorageError::Conflict)
    );
    assert_eq!(verify_code(&mut store, "k1", now + 3600), Ok(0xa1));
    assert_eq!(verify_code(&mut store, "k1", now + 3600), Err(AuthError::InvalidCode));
}

#[test]
fn create_rejects_live_duplicate_id() {
    let mut store = CodeStore::new();
    assert_eq!(store.create(VerificationCode::new(7, 1, "a".to_string(), 0)), Ok(()));
    assert_eq!(
        store.create(VerificationCode::new(7, 2, "b".to_string(), 0)),
        Err(StorageError::Conflict)
    );
    assert!(!store.contains("b"));
    assert_eq!(
        login_code(&mut store, Some(user_a()), "https://x", 7, "c".to_string(), 0).unwrap_err(),
        AuthError::Storage(StorageError::Conflict)
    );
    assert!(!store.contains("c"));
}

#[test]
fn code_is_spelled_by_its_samples() {
    assert_eq!(code_from_samples(&b"aZ09xY".to_vec()), "aZ09xY");
    assert_eq!(code_from_samples(&Vec::new()), "");
    assert_eq!(code_from_samples(&b"a-b".to_vec()), "a-b");
}

#[test]
fn clock_readers_issue_from_the_current_time() {
    let before = chrono::Utc::now().timestamp();
    let rec = VerificationCode::issue(9).unwrap();
    assert_eq!(rec.user_id, 9);
    assert!(rec.inserted_at >= before);
    assert_eq!(rec.expires_at, rec.inserted_at + 3600);
    assert_eq!(rec.verify(), Ok(()));
    let c = issue_session_now(Some(user_a()), "iss".to_string()).unwrap();
    assert!(c.iat >= before);
    assert_eq!(c.exp, c.iat + 3600);
}
