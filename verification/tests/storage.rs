use xhs_rs::auth::{ApiSignature, CredentialStorage, UserCredentials};
use xhs_rs::cookies::CookieJar;
use xhs_rs::error::StorageError;

const NOW: i64 = 1_767_225_600_000;

fn credential(user: &str, valid: bool) -> UserCredentials {
    let mut jar = CookieJar::new();
    jar.insert("web_session".to_string(), format!("session-of-{}", user));
    let mut c = UserCredentials::new_at(user.to_string(), jar, None, NOW);
    c.is_valid = valid;
    c
}

fn signature(endpoint: &str, x_s: &str, valid: bool) -> ApiSignature {
    ApiSignature {
        endpoint: endpoint.to_string(),
        x_s: x_s.to_string(),
        x_t: "1".to_string(),
        x_s_common: "c".to_string(),
        x_b3_traceid: "b".to_string(),
        x_xray_traceid: "x".to_string(),
        method: None,
        post_body: None,
        request_url: None,
        captured_at: NOW,
        is_valid: valid,
    }
}

fn valid_count(store: &CredentialStorage) -> usize {
    store.all_credentials().iter().filter(|c| c.is_valid).count()
}

#[test]
fn a_new_store_is_empty() {
    let store = CredentialStorage::new();
    assert!(store.get_active_credentials().is_none());
    assert!(store.all_credentials().is_empty());
    assert!(store.get_api_signature("user_me").is_none());
}

#[test]
fn save_makes_the_credential_active() {
    let mut store = CredentialStorage::new();
    store.save_credentials(&credential("u1", true));
    let active = store.get_active_credentials().unwrap();
    assert_eq!(active.user_id, "u1");
    assert!(active.is_valid);
}

#[test]
fn at_most_one_record_is_valid_after_every_operation() {
    let mut store = CredentialStorage::new();
    assert!(valid_count(&store) <= 1);
    store.save_credentials(&credential("u1", true));
    assert_eq!(valid_count(&store), 1);
    store.save_credentials(&credential("u2", true));
    assert_eq!(valid_count(&store), 1);
    store.invalidate_all();
    assert_eq!(valid_count(&store), 0);
    store.save_credentials(&credential("u3", true));
    assert_eq!(valid_count(&store), 1);
    store.save_credentials(&credential("u4", true));
    store.save_credentials(&credential("u5", true));
    assert_eq!(valid_count(&store), 1);
    store.invalidate_user("u5");
    assert_eq!(valid_count(&store), 0);
    assert_eq!(store.all_credentials().len(), 5);
}

#[test]
fn invalidate_all_twice_is_invalidate_all_once() {
    let mut once = CredentialStorage::new();
    once.save_credentials(&credential("u1", true));
    once.save_credentials(&credential("u2", true));
    let mut twice = CredentialStorage::new();
    twice.save_credentials(&credential("u1", true));
    twice.save_credentials(&credential("u2", true));
    once.invalidate_all();
    twice.invalidate_all();
    twice.invalidate_all();
    let a = once.all_credentials();
    let b = twice.all_credentials();
    assert_eq!(a.len(), b.len());
    for i in 0..a.len() {
        assert_eq!(a[i].user_id, b[i].user_id);
        assert_eq!(a[i].is_valid, b[i].is_valid);
        assert_eq!(a[i].updated_at, b[i].updated_at);
        assert_eq!(a[i].cookie_string(), b[i].cookie_string());
    }
    assert!(once.get_active_credentials().is_none());
    assert!(twice.get_active_credentials().is_none());
}

#[test]
fn invalidate_all_on_an_empty_store() {
    let mut store = CredentialStorage::new();
    store.invalidate_all();
    assert!(store.all_credentials().is_empty());
}

#[test]
fn invalidate_all_keeps_the_records_and_their_stamps() {
    let mut store = CredentialStorage::new();
    store.save_credentials(&credential("u1", true));
    store.invalidate_all();
    let all = store.all_credentials();
    assert_eq!(all.len(), 1);
    assert_eq!(all[0].user_id, "u1");
    assert_eq!(all[0].updated_at, NOW);
    assert!(!all[0].is_valid);
}

#[test]
fn a_saved_credential_replaces_the_valid_one() {
    let mut store = CredentialStorage::new();
    store.save_credentials(&credential("c1", true));
    store.save_credentials(&credential("c2", true));
    assert_eq!(store.get_active_credentials().unwrap().user_id, "c2");
    let all = store.all_credentials();
    assert_eq!(all[0].user_id, "c1");
    assert!(!all[0].is_valid);
    assert!(all[1].is_valid);
}

#[test]
fn saving_an_invalid_credential_leaves_none_active() {
    let mut store = CredentialStorage::new();
    store.save_credentials(&credential("u1", true));
    store.save_credentials(&credential("u2", false));
    assert!(store.get_active_credentials().is_none());
    assert_eq!(store.all_credentials().len(), 2);
}

#[test]
fn invalidate_user_touches_only_that_user() {
    let mut store = CredentialStorage::new();
    store.save_credentials(&credential("u1", true));
    store.invalidate_user("someone-else");
    assert_eq!(store.get_active_credentials().unwrap().user_id, "u1");
    store.invalidate_user("u1");
    assert!(store.get_active_credentials().is_none());
}

#[test]
fn from_records_takes_consistent_records() {
    let records = vec![credential("u1", false), credential("u2", true), credential("u3", false)];
    let store = CredentialStorage::from_records(records, vec![]).unwrap();
    assert_eq!(store.get_active_credentials().unwrap().user_id, "u2");
    assert_eq!(store.all_credentials().len(), 3);
}

#[test]
fn from_records_refuses_two_valid_credentials() {
    let records = vec![credential("u1", true), credential("u2", false), credential("u3", true)];
    match CredentialStorage::from_records(records, vec![]) {
        Err(StorageError::Inconsistent) => {}
        other => panic!("expected Inconsistent, got {:?}", other.map(|_| ())),
    }
}

#[test]
fn captured_signature_is_found_by_its_endpoint() {
    let signatures = vec![signature("user_me", "a", true), signature("search_notes", "b", true)];
    let store = CredentialStorage::from_records(vec![], signatures).unwrap();
    assert_eq!(store.get_api_signature("search_notes").unwrap().x_s, "b");
    assert_eq!(store.get_api_signature("user_me").unwrap().x_s, "a");
    assert!(store.get_api_signature("home_feed_recommend").is_none());
}

#[test]
fn an_invalid_signature_is_not_returned() {
    let signatures = vec![signature("user_me", "old", false), signature("user_me", "new", true)];
    let store = CredentialStorage::from_records(vec![], signatures).unwrap();
    assert_eq!(store.get_api_signature("user_me").unwrap().x_s, "new");
    let only_invalid = vec![signature("user_me", "old", false)];
    let store = CredentialStorage::from_records(vec![], only_invalid).unwrap();
    assert!(store.get_api_signature("user_me").is_none());
}

#[test]
fn operations_on_credentials_leave_the_signatures() {
    let signatures = vec![signature("user_me", "a", true)];
    let mut store = CredentialStorage::from_records(vec![], signatures).unwrap();
    store.save_credentials(&credential("u1", true));
    store.invalidate_all();
    store.invalidate_user("u1");
    assert_eq!(store.get_api_signature("user_me").unwrap().x_s, "a");
}
