use xhs_rs::auth::service::CredentialLookup;
use xhs_rs::auth::{ApiSignature, AuthService, CredentialStorage, UserCredentials};
use xhs_rs::clock::{MILLIS_PER_DAY, MILLIS_PER_HOUR, MILLIS_PER_SECOND};
use xhs_rs::cookies::CookieJar;
use xhs_rs::error::{LoginError, RequestError};

const NOW: i64 = 1_767_225_600_000;

fn credential(user: &str, updated_at: i64) -> UserCredentials {
    let mut jar = CookieJar::new();
    jar.insert("web_session".to_string(), "s".to_string());
    let mut c = UserCredentials::new_at(user.to_string(), jar, Some("frag".to_string()), updated_at);
    c.touch_at(updated_at);
    c
}

fn service_with(c: &UserCredentials) -> AuthService {
    let mut store = CredentialStorage::new();
    store.save_credentials(c);
    AuthService::new(store)
}

#[test]
fn an_empty_store_gives_no_credential() {
    let mut auth = AuthService::new(CredentialStorage::new());
    assert!(auth.try_get_credentials(NOW).is_none());
    assert!(matches!(auth.get_credentials(NOW), CredentialLookup::LoginRequired));
}

#[test]
fn a_fresh_credential_is_served() {
    let mut auth = service_with(&credential("u1", NOW));
    assert_eq!(auth.try_get_credentials(NOW).unwrap().user_id, "u1");
    match auth.get_credentials(NOW) {
        CredentialLookup::Ready(c) => assert_eq!(c.user_id, "u1"),
        CredentialLookup::LoginRequired => panic!("a credential is at hand"),
    }
}

#[test]
fn seven_days_and_a_second_old_demands_a_login() {
    let old = credential("u1", NOW - (7 * MILLIS_PER_DAY + MILLIS_PER_SECOND));
    let mut auth = service_with(&old);
    assert!(auth.try_get_credentials(NOW).is_none());
    assert!(matches!(auth.get_credentials(NOW), CredentialLookup::LoginRequired));
}

#[test]
fn six_days_and_twenty_three_hours_old_is_served() {
    let c = credential("u1", NOW - (6 * MILLIS_PER_DAY + 23 * MILLIS_PER_HOUR));
    let mut auth = service_with(&c);
    assert_eq!(auth.try_get_credentials(NOW).unwrap().user_id, "u1");
}

#[test]
fn soft_expiry_does_not_remove_the_record() {
    let old = credential("u1", NOW - 8 * MILLIS_PER_DAY);
    let mut auth = service_with(&old);
    assert!(auth.try_get_credentials(NOW).is_none());
    let all = auth.all_credentials();
    assert_eq!(all.len(), 1);
    assert!(all[0].is_valid);
    // at an earlier instant the same record is served again
    assert!(auth.try_get_credentials(NOW - 2 * MILLIS_PER_DAY).is_some());
}

#[test]
fn the_store_is_read_after_the_cache_is_emptied() {
    let mut auth = service_with(&credential("u1", NOW));
    auth.save_credentials(&credential("u2", NOW));
    assert_eq!(auth.try_get_credentials(NOW).unwrap().user_id, "u2");
}

#[test]
fn invalidate_credentials_clears_store_and_cache() {
    let mut auth = service_with(&credential("u1", NOW));
    assert!(auth.try_get_credentials(NOW).is_some());
    auth.invalidate_credentials();
    assert!(auth.try_get_credentials(NOW).is_none());
    let all = auth.all_credentials();
    assert_eq!(all.len(), 1);
    assert!(!all[0].is_valid);
    auth.invalidate_credentials();
    assert_eq!(auth.all_credentials().len(), 1);
}

#[test]
fn finish_login_fails_without_a_credential() {
    let mut auth = AuthService::new(CredentialStorage::new());
    assert_eq!(auth.finish_login(NOW).err(), Some(LoginError::LoginFailed));
}

#[test]
fn finish_login_returns_what_the_login_committed() {
    let mut auth = AuthService::new(CredentialStorage::new());
    assert!(matches!(auth.get_credentials(NOW), CredentialLookup::LoginRequired));
    auth.save_credentials(&credential("u9", NOW));
    assert_eq!(auth.finish_login(NOW).unwrap().user_id, "u9");
    assert_eq!(auth.try_get_credentials(NOW).unwrap().user_id, "u9");
}

#[test]
fn finish_login_fails_on_an_expired_leftover() {
    let mut auth = service_with(&credential("u1", NOW - 30 * MILLIS_PER_DAY));
    assert_eq!(auth.finish_login(NOW).err(), Some(LoginError::LoginFailed));
}

#[test]
fn endpoint_signature_comes_from_the_store() {
    let sig = ApiSignature {
        endpoint: "user_me".to_string(),
        x_s: "xs".to_string(),
        x_t: "xt".to_string(),
        x_s_common: "c".to_string(),
        x_b3_traceid: "b".to_string(),
        x_xray_traceid: "x".to_string(),
        method: Some("GET".to_string()),
        post_body: None,
        request_url: Some("https://edith.xiaohongshu.com/api/sns/web/v2/user/me".to_string()),
        captured_at: NOW,
        is_valid: true,
    };
    let store = CredentialStorage::from_records(vec![], vec![sig]).unwrap();
    let auth = AuthService::new(store);
    assert_eq!(auth.get_endpoint_signature("user_me").unwrap().x_s, "xs");
    assert!(auth.get_endpoint_signature("other").is_none());
}

#[test]
fn legacy_sign_request_carries_the_fragment() {
    let mut auth = service_with(&credential("u1", NOW));
    let (x_s, x_t, x_s_common) = auth.sign_request(NOW).unwrap();
    assert_eq!(x_s, "");
    assert_eq!(x_t, NOW);
    assert_eq!(x_s_common, "frag");
}

#[test]
fn legacy_sign_request_needs_a_credential() {
    let mut auth = AuthService::new(CredentialStorage::new());
    assert!(matches!(auth.sign_request(NOW), Err(RequestError::NotAuthenticated)));
}
