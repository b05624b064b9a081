use xhs_rs::api::common::{
    classify_response, response_result, ResponseClass, XhsApiClient, SESSION_EXPIRED_CODE,
};
use xhs_rs::auth::{AuthService, CredentialStorage, UserCredentials};
use xhs_rs::config::AgentConfig;
use xhs_rs::cookies::CookieJar;
use xhs_rs::error::RequestError;
use xhs_rs::json::read_application_code;
use xhs_rs::signature::SignatureService;

const NOW: i64 = 1_767_225_600_000;

fn client() -> XhsApiClient {
    let mut jar = CookieJar::new();
    jar.insert("web_session".to_string(), "s1".to_string());
    let mut store = CredentialStorage::new();
    store.save_credentials(&UserCredentials::new_at("u1".to_string(), jar, None, NOW));
    let service = SignatureService::new(&AgentConfig::from_env(None));
    XhsApiClient::new(AuthService::new(store), service)
}

fn still_logged_in(c: &mut XhsApiClient) -> bool {
    let valid = c.auth().all_credentials().iter().any(|r| r.is_valid);
    valid && c.get("user_me", NOW).is_ok()
}

#[test]
fn success_returns_the_body_unchanged() {
    let mut c = client();
    let body = "{\"code\":0,\"data\":{\"x\":1}}  ".to_string();
    assert_eq!(c.handle_response(200, body.clone()).unwrap(), body);
    assert!(still_logged_in(&mut c));
}

#[test]
fn a_body_that_is_no_json_is_still_a_success() {
    let mut c = client();
    assert_eq!(c.handle_response(200, "<html>".into()).unwrap(), "<html>");
    assert_eq!(c.handle_response(204, String::new()).unwrap(), "");
    assert!(still_logged_in(&mut c));
}

#[test]
fn status_406_is_a_rejected_signature_and_keeps_the_session() {
    let mut c = client();
    match c.handle_response(406, "nope".into()) {
        Err(RequestError::SignatureRejected { body }) => assert_eq!(body, "nope"),
        other => panic!("unexpected: {:?}", other),
    }
    assert!(still_logged_in(&mut c));
    let records = c.auth().all_credentials();
    assert_eq!(records.len(), 1);
    assert!(records[0].is_valid);
}

#[test]
fn status_461_is_rate_limited_with_the_raw_body() {
    let mut c = client();
    let raw = "{\"code\":300011,\"msg\":\"risk\"}\n";
    match c.handle_response(461, raw.to_string()) {
        Err(RequestError::RateLimited { body }) => assert_eq!(body, raw),
        other => panic!("unexpected: {:?}", other),
    }
    assert!(still_logged_in(&mut c));
}

#[test]
fn other_failures_carry_status_and_body() {
    let mut c = client();
    for status in [400u16, 404, 500, 599, 65535] {
        match c.handle_response(status, "b".into()) {
            Err(RequestError::ApiError { status: s, body }) => {
                assert_eq!(s, status);
                assert_eq!(body, "b");
            }
            other => panic!("unexpected: {:?}", other),
        }
    }
    assert!(still_logged_in(&mut c));
}

#[test]
fn statuses_below_400_are_successes() {
    let mut c = client();
    for status in [0u16, 100, 200, 201, 302, 399] {
        assert_eq!(c.handle_response(status, "ok".into()).unwrap(), "ok");
    }
}

#[test]
fn an_expired_session_inside_a_success_invalidates_the_session() {
    let mut c = client();
    let body = "{\"code\":-100,\"success\":false,\"msg\":\"expired\"}";
    match c.handle_response(200, body.to_string()) {
        Err(RequestError::SessionExpired { body: b }) => assert_eq!(b, body),
        other => panic!("unexpected: {:?}", other),
    }
    assert!(!still_logged_in(&mut c));
    assert!(matches!(c.get("user_me", NOW), Err(RequestError::NotAuthenticated)));
    let records = c.auth().all_credentials();
    assert_eq!(records.len(), 1);
    assert!(!records[0].is_valid);
}

#[test]
fn the_expiry_code_inside_a_failure_does_not_invalidate() {
    let mut c = client();
    let body = "{\"code\":-100}";
    assert!(matches!(
        c.handle_response(406, body.to_string()),
        Err(RequestError::SignatureRejected { .. })
    ));
    assert!(matches!(
        c.handle_response(500, body.to_string()),
        Err(RequestError::ApiError { status: 500, .. })
    ));
    assert!(still_logged_in(&mut c));
}

#[test]
fn other_application_codes_are_left_to_the_caller() {
    let mut c = client();
    for body in ["{\"code\":-1}", "{\"code\":\"-100\"}", "{\"data\":{\"code\":-100}}", "[-100]"] {
        assert_eq!(c.handle_response(200, body.to_string()).unwrap(), body);
    }
    assert!(still_logged_in(&mut c));
}

#[test]
fn classification_by_status_and_code() {
    assert_eq!(SESSION_EXPIRED_CODE, -100);
    assert_eq!(classify_response(200, None), ResponseClass::Success);
    assert_eq!(classify_response(200, Some(0)), ResponseClass::Success);
    assert_eq!(classify_response(200, Some(-100)), ResponseClass::SessionExpired);
    assert_eq!(classify_response(399, Some(-100)), ResponseClass::SessionExpired);
    assert_eq!(classify_response(406, Some(-100)), ResponseClass::SignatureRejected);
    assert_eq!(classify_response(461, None), ResponseClass::RateLimited);
    assert_eq!(classify_response(400, None), ResponseClass::Failed);
    assert_eq!(classify_response(405, Some(-100)), ResponseClass::Failed);
    assert_eq!(classify_response(407, None), ResponseClass::Failed);
}

#[test]
fn result_of_each_class() {
    assert_eq!(response_result(ResponseClass::Success, 200, "b".into()).unwrap(), "b");
    assert!(matches!(
        response_result(ResponseClass::SessionExpired, 200, "b".into()),
        Err(RequestError::SessionExpired { .. })
    ));
    assert!(matches!(
        response_result(ResponseClass::Failed, 418, "b".into()),
        Err(RequestError::ApiError { status: 418, .. })
    ));
}

#[test]
fn application_code_is_read_from_the_top_of_the_body() {
    assert_eq!(read_application_code("{\"code\":-100}"), Some(-100));
    assert_eq!(read_application_code("  {\"a\":1,\"code\": 7 }\n"), Some(7));
    assert_eq!(read_application_code("{\"code\":1.5}"), None);
    assert_eq!(read_application_code("{\"code\":null}"), None);
    assert_eq!(read_application_code("{\"data\":{\"code\":3}}"), None);
    assert_eq!(read_application_code("7"), None);
    assert_eq!(read_application_code("{\"code\":"), None);
    assert_eq!(read_application_code(""), None);
    assert_eq!(read_application_code("{\"code\":9223372036854775807}"), Some(i64::MAX));
    assert_eq!(read_application_code("{\"code\":9223372036854775808}"), None);
}

#[test]
fn invalidate_and_save_through_the_client() {
    let mut c = client();
    c.invalidate_credentials();
    assert!(!still_logged_in(&mut c));
    let mut jar = CookieJar::new();
    jar.insert("web_session".to_string(), "s2".to_string());
    c.save_credentials(&UserCredentials::new_at("u2".to_string(), jar, None, NOW));
    assert!(still_logged_in(&mut c));
    assert_eq!(c.get("user_me", NOW).unwrap().cookie, "web_session=s2");
}
