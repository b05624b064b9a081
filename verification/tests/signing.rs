use xhs_rs::api::common::{
    assemble, build_get_request, build_get_request_algo, build_headers, build_post_request,
    build_post_request_algo, BodyPolicy, Fallback, OutboundRequest, PendingCall, ResolvedSignature,
    SignatureTier, XhsApiClient,
};
use xhs_rs::auth::{ApiSignature, AuthService, CredentialStorage, UserCredentials};
use xhs_rs::config::AgentConfig;
use xhs_rs::cookies::{cookies_to_string, CookieJar};
use xhs_rs::error::{RequestError, SignError};
use xhs_rs::signature::{HttpMethod, SignResponse, Signature, SignatureService};

const NOW: i64 = 1_767_225_600_000;
const HOST: &str = "https://edith.xiaohongshu.com";

fn credential() -> UserCredentials {
    let mut jar = CookieJar::new();
    jar.insert("a1".to_string(), "x".to_string());
    jar.insert("web_session".to_string(), "s1".to_string());
    UserCredentials::new_at("u1".to_string(), jar, None, NOW)
}

fn captured(endpoint: &str) -> ApiSignature {
    ApiSignature {
        endpoint: endpoint.to_string(),
        x_s: "stored-xs".to_string(),
        x_t: "stored-xt".to_string(),
        x_s_common: "stored-common".to_string(),
        x_b3_traceid: "stored-b3".to_string(),
        x_xray_traceid: "stored-xray".to_string(),
        method: None,
        post_body: None,
        request_url: None,
        captured_at: NOW,
        is_valid: true,
    }
}

fn client(signatures: Vec<ApiSignature>, logged_in: bool) -> XhsApiClient {
    let records = if logged_in { vec![credential()] } else { vec![] };
    let store = CredentialStorage::from_records(records, signatures).unwrap();
    let service = SignatureService::new(&AgentConfig::from_env(None));
    XhsApiClient::new(AuthService::new(store), service)
}

fn answer() -> SignResponse {
    SignResponse {
        success: true,
        x_s: Some("XS".to_string()),
        x_t: Some("XT".to_string()),
        x_s_common: Some("XC".to_string()),
        x_b3_traceid: Some("B3".to_string()),
        x_xray_traceid: Some("XR".to_string()),
        error: None,
    }
}

fn refusal() -> SignResponse {
    SignResponse {
        success: false,
        x_s: Some("ignored".to_string()),
        x_t: None,
        x_s_common: None,
        x_b3_traceid: None,
        x_xray_traceid: None,
        error: Some("boom".to_string()),
    }
}

fn header<'a>(request: &'a OutboundRequest, name: &str) -> Option<&'a str> {
    request.headers.iter().find(|h| h.name == name).map(|h| h.value.as_str())
}

fn names(request: &OutboundRequest) -> Vec<&str> {
    request.headers.iter().map(|h| h.name.as_str()).collect()
}

#[test]
fn calls_need_a_credential() {
    let mut c = client(vec![], false);
    assert!(matches!(c.get("user_me", NOW), Err(RequestError::NotAuthenticated)));
    assert!(matches!(c.get_algo("/x", NOW), Err(RequestError::NotAuthenticated)));
    assert!(matches!(c.get_with_query("/x?a=1", NOW), Err(RequestError::NotAuthenticated)));
    assert!(matches!(c.get_with_url("k", "https://h/x", NOW), Err(RequestError::NotAuthenticated)));
    assert!(matches!(c.post("k", "{}".into(), NOW), Err(RequestError::NotAuthenticated)));
    assert!(matches!(
        c.post_with_payload("user_me", "{}".into(), NOW),
        Err(RequestError::NotAuthenticated)
    ));
    assert!(matches!(c.post_algo("/x", "{}".into(), NOW), Err(RequestError::NotAuthenticated)));
    assert!(matches!(
        c.post_with_body("k", "https://h/x", "{}".into(), NOW),
        Err(RequestError::NotAuthenticated)
    ));
    assert!(matches!(
        c.post_captured("k", "https://h/x", "{}".into(), NOW),
        Err(RequestError::NotAuthenticated)
    ));
}

#[test]
fn get_plans_a_question_to_the_collaborator() {
    let mut c = client(vec![], true);
    let call = c.get("user_me", NOW).unwrap();
    assert_eq!(call.method, HttpMethod::Get);
    assert_eq!(call.endpoint, "user_me");
    assert_eq!(call.cookie, "a1=x; web_session=s1");
    assert_eq!(call.url, format!("{}/api/sns/web/v2/user/me", HOST));
    assert!(call.body.is_none());
    assert!(matches!(call.fallback, Fallback::CapturedUrl));
    let sign = call.sign.unwrap();
    assert_eq!(sign.method, "GET");
    assert_eq!(sign.uri, "/api/sns/web/v2/user/me");
    assert_eq!(cookies_to_string(&sign.cookies), "a1=x; web_session=s1");
    assert!(sign.params.is_none());
    assert!(sign.payload.is_none());
}

#[test]
fn the_collaborator_is_handed_a_sanitised_uri() {
    let mut c = client(vec![], true);
    let call = c.get("notification_likes", NOW).unwrap();
    assert_eq!(call.sign.as_ref().unwrap().uri, "/api/sns/web/v1/you/likes?num=20");
    assert_eq!(call.url, format!("{}/api/sns/web/v1/you/likes?num=20", HOST));
    let call = c.get_with_query("/x?a=1&b=&c=3", NOW).unwrap();
    assert_eq!(call.sign.as_ref().unwrap().uri, "/x?a=1&c=3");
    assert_eq!(call.url, format!("{}/x?a=1&c=3", HOST));
}

#[test]
fn get_of_an_unmapped_key_asks_nobody() {
    let mut c = client(vec![], true);
    let call = c.get("note_page", NOW).unwrap();
    assert!(call.sign.is_none());
    assert!(matches!(call.fallback, Fallback::CapturedUrl));
}

#[test]
fn collaborator_signature_is_used_when_there_is_one() {
    let mut c = client(vec![captured("user_me")], true);
    let call = c.get("user_me", NOW).unwrap();
    let request = c.sign(&call, Some(answer())).unwrap();
    assert_eq!(request.tier, SignatureTier::Collaborator);
    assert_eq!(request.method, HttpMethod::Get);
    assert_eq!(request.url, format!("{}/api/sns/web/v2/user/me", HOST));
    assert!(request.body.is_none());
    assert_eq!(header(&request, "x-s"), Some("XS"));
    assert_eq!(header(&request, "x-t"), Some("XT"));
    assert_eq!(header(&request, "x-s-common"), Some("XC"));
    assert_eq!(header(&request, "x-b3-traceid"), Some("B3"));
    assert_eq!(header(&request, "x-xray-traceid"), Some("XR"));
    assert_eq!(header(&request, "cookie"), Some("a1=x; web_session=s1"));
}

#[test]
fn stored_signature_stands_in_when_the_collaborator_fails() {
    let mut sig = captured("user_me");
    sig.request_url = Some(format!("{}/api/sns/web/v2/user/me?a=1&b=", HOST));
    let mut c = client(vec![sig], true);
    let call = c.get("user_me", NOW).unwrap();
    for failed in [None, Some(refusal())] {
        let request = c.sign(&call, failed).unwrap();
        assert_eq!(request.tier, SignatureTier::Stored);
        assert_eq!(header(&request, "x-s"), Some("stored-xs"));
        assert_eq!(header(&request, "x-t"), Some("stored-xt"));
        assert_eq!(header(&request, "x-s-common"), Some("stored-common"));
        assert_eq!(header(&request, "x-b3-traceid"), Some("stored-b3"));
        assert_eq!(header(&request, "x-xray-traceid"), Some("stored-xray"));
        assert_eq!(request.url, format!("{}/api/sns/web/v2/user/me?a=1", HOST));
    }
}

#[test]
fn without_a_stored_signature_the_failure_names_the_endpoint() {
    let mut c = client(vec![captured("search_notes")], true);
    let call = c.get("user_me", NOW).unwrap();
    match c.sign(&call, None) {
        Err(RequestError::NoSignatureAvailable { endpoint }) => assert_eq!(endpoint, "user_me"),
        other => panic!("unexpected: {:?}", other),
    }
}

#[test]
fn an_invalid_stored_signature_is_no_fallback() {
    let mut sig = captured("user_me");
    sig.is_valid = false;
    let mut c = client(vec![sig], true);
    let call = c.get("user_me", NOW).unwrap();
    assert!(matches!(c.sign(&call, None), Err(RequestError::NoSignatureAvailable { .. })));
}

#[test]
fn resolve_signature_follows_the_two_tiers() {
    let c = client(vec![captured("user_me")], true);
    let from_agent = Signature {
        x_s: "a".into(),
        x_t: "b".into(),
        x_s_common: "c".into(),
        x_b3_traceid: "d".into(),
        x_xray_traceid: "e".into(),
    };
    match c.resolve_signature(Some(from_agent), Some("user_me")).unwrap() {
        ResolvedSignature::Collaborator(s) => assert_eq!(s.x_s, "a"),
        ResolvedSignature::Stored(_) => panic!("the collaborator's signature comes first"),
    }
    match c.resolve_signature(None, Some("user_me")).unwrap() {
        ResolvedSignature::Stored(s) => assert_eq!(s.x_s, "stored-xs"),
        ResolvedSignature::Collaborator(_) => panic!("there was no collaborator signature"),
    }
    match c.resolve_signature(None, Some("other")) {
        Err(RequestError::NoSignatureAvailable { endpoint }) => assert_eq!(endpoint, "other"),
        other => panic!("unexpected: {:?}", other),
    }
    assert!(matches!(c.resolve_signature(None, None), Err(RequestError::SigningUnavailable)));
}

#[test]
fn get_signature_names_the_endpoint_it_lacks() {
    let c = client(vec![captured("user_me")], true);
    assert_eq!(c.get_signature("user_me").unwrap().x_s, "stored-xs");
    match c.get_signature("nope") {
        Err(RequestError::NoSignatureAvailable { endpoint }) => assert_eq!(endpoint, "nope"),
        other => panic!("unexpected: {:?}", other),
    }
}

#[test]
fn a_call_by_path_has_no_fallback() {
    let mut c = client(vec![captured("/api/x")], true);
    let call = c.get_algo("/api/x", NOW).unwrap();
    assert!(matches!(call.fallback, Fallback::Never));
    assert!(matches!(c.sign(&call, None), Err(RequestError::SigningUnavailable)));
    assert!(matches!(c.sign(&call, Some(refusal())), Err(RequestError::SigningUnavailable)));
    let call = c.post_algo("/api/x", "{\"a\":1}".into(), NOW).unwrap();
    assert!(matches!(c.sign(&call, None), Err(RequestError::SigningUnavailable)));
    let request = c.sign(&call, Some(answer())).unwrap();
    assert_eq!(request.method, HttpMethod::Post);
    assert_eq!(request.body.as_deref(), Some("{\"a\":1}"));
    assert_eq!(request.url, format!("{}/api/x", HOST));
}

#[test]
fn a_captured_get_without_url_cannot_be_replayed() {
    let mut c = client(vec![captured("user_me")], true);
    let call = c.get("user_me", NOW).unwrap();
    assert!(matches!(c.sign(&call, None), Err(RequestError::SigningUnavailable)));
}

#[test]
fn get_with_url_signs_what_follows_the_host() {
    let mut c = client(vec![captured("search_recommend")], true);
    let url = "https://edith.xiaohongshu.com/api/sns/web/v1/search/recommend?keyword=abc&x=";
    let call = c.get_with_url("search_recommend", url, NOW).unwrap();
    let sign = call.sign.as_ref().unwrap();
    assert_eq!(sign.uri, "/api/sns/web/v1/search/recommend?keyword=abc");
    assert_eq!(sign.method, "GET");
    let expected = "https://edith.xiaohongshu.com/api/sns/web/v1/search/recommend?keyword=abc";
    let signed = c.sign(&call, Some(answer())).unwrap();
    assert_eq!(signed.url, expected);
    assert_eq!(signed.tier, SignatureTier::Collaborator);
    let replayed = c.sign(&call, None).unwrap();
    assert_eq!(replayed.url, expected);
    assert_eq!(replayed.tier, SignatureTier::Stored);
}

#[test]
fn get_with_url_of_another_host_asks_nobody() {
    let mut c = client(vec![captured("k")], true);
    let call = c.get_with_url("k", "https://www.xiaohongshu.com/explore?a=1", NOW).unwrap();
    assert!(call.sign.is_none());
    let request = c.sign(&call, Some(answer())).unwrap();
    assert_eq!(request.tier, SignatureTier::Stored);
    assert_eq!(request.url, "https://www.xiaohongshu.com/explore?a=1");
}

#[test]
fn get_with_url_of_a_bare_host_signs_an_empty_path() {
    let mut c = client(vec![], true);
    let call = c.get_with_url("k", "edith.xiaohongshu.com", NOW).unwrap();
    assert_eq!(call.sign.as_ref().unwrap().uri, "");
}

#[test]
fn post_replays_the_captured_body() {
    let mut sig = captured("home_feed_recommend");
    sig.post_body = Some("{\"captured\":true}".to_string());
    sig.method = Some("POST".to_string());
    let mut c = client(vec![sig], true);
    let call = c.post("home_feed_recommend", "{\"default\":true}".into(), NOW).unwrap();
    assert_eq!(call.sign.as_ref().unwrap().payload.as_deref(), Some("{\"default\":true}"));
    assert_eq!(call.sign.as_ref().unwrap().method, "POST");
    let signed = c.sign(&call, Some(answer())).unwrap();
    assert_eq!(signed.body.as_deref(), Some("{\"default\":true}"));
    assert_eq!(signed.url, format!("{}/api/sns/web/v1/homefeed", HOST));
    let replayed = c.sign(&call, None).unwrap();
    assert_eq!(replayed.tier, SignatureTier::Stored);
    assert_eq!(replayed.body.as_deref(), Some("{\"captured\":true}"));
    assert_eq!(replayed.url, format!("{}/api/sns/web/v1/home_feed_recommend", HOST));
}

#[test]
fn post_replay_goes_to_the_captured_url() {
    let mut sig = captured("home_feed_food");
    sig.request_url = Some(format!("{}/api/sns/web/v1/homefeed", HOST));
    let mut c = client(vec![sig], true);
    let call = c.post("home_feed_food", "{}".into(), NOW).unwrap();
    let replayed = c.sign(&call, None).unwrap();
    assert_eq!(replayed.url, format!("{}/api/sns/web/v1/homefeed", HOST));
    assert_eq!(replayed.body.as_deref(), Some(""));
}

#[test]
fn a_bound_signature_never_signs_another_body() {
    let mut sig = captured("k");
    sig.post_body = Some("B1".to_string());
    let mut c = client(vec![sig], true);
    let call = c.post_with_body("k", "https://h/x", "B2".into(), NOW).unwrap();
    assert!(call.sign.is_none());
    assert!(matches!(c.sign(&call, None), Err(RequestError::SigningUnavailable)));
    let call = c.post_with_body("k", "https://h/x", "B1".into(), NOW).unwrap();
    let request = c.sign(&call, None).unwrap();
    assert_eq!(request.body.as_deref(), Some("B1"));
    assert_eq!(request.url, "https://h/x");
}

#[test]
fn a_bound_signature_never_signs_a_request_without_body() {
    let mut sig = captured("user_me");
    sig.post_body = Some("B1".to_string());
    sig.request_url = Some("https://h/x".to_string());
    let mut c = client(vec![sig], true);
    let call = c.get("user_me", NOW).unwrap();
    assert!(matches!(c.sign(&call, None), Err(RequestError::SigningUnavailable)));
}

#[test]
fn an_unbound_signature_signs_any_body() {
    for stored in [None, Some(String::new())] {
        let mut sig = captured("k");
        sig.post_body = stored;
        let mut c = client(vec![sig], true);
        let call = c.post_with_body("k", "https://h/x", "anything".into(), NOW).unwrap();
        assert_eq!(c.sign(&call, None).unwrap().body.as_deref(), Some("anything"));
    }
}

#[test]
fn a_signature_is_bound_to_its_method() {
    let mut sig = captured("user_me");
    sig.method = Some("post".to_string());
    sig.request_url = Some("https://h/x".to_string());
    let mut c = client(vec![sig], true);
    let call = c.get("user_me", NOW).unwrap();
    assert!(matches!(c.sign(&call, None), Err(RequestError::SigningUnavailable)));
    let mut sig = captured("user_me");
    sig.method = Some("get".to_string());
    sig.request_url = Some("https://h/x".to_string());
    let mut c = client(vec![sig], true);
    let call = c.get("user_me", NOW).unwrap();
    assert!(c.sign(&call, None).is_ok());
}

#[test]
fn post_captured_prefers_the_captured_body() {
    let mut sig = captured("home_feed_recommend");
    sig.post_body = Some("CAPTURED".to_string());
    let mut c = client(vec![sig], true);
    let call = c.post_captured("home_feed_recommend", "https://h/feed", "OWN".into(), NOW).unwrap();
    assert_eq!(c.sign(&call, None).unwrap().body.as_deref(), Some("CAPTURED"));
    let mut c = client(vec![captured("home_feed_recommend")], true);
    let call = c.post_captured("home_feed_recommend", "https://h/feed", "OWN".into(), NOW).unwrap();
    assert_eq!(c.sign(&call, None).unwrap().body.as_deref(), Some("OWN"));
}

#[test]
fn post_with_payload_needs_a_known_endpoint() {
    let mut c = client(vec![], true);
    match c.post_with_payload("mystery", "{}".into(), NOW) {
        Err(RequestError::UnsupportedEndpoint { endpoint }) => assert_eq!(endpoint, "mystery"),
        other => panic!("unexpected: {:?}", other.map(|_| ())),
    }
    let call = c.post_with_payload("home_feed_fashion", "{\"p\":1}".into(), NOW).unwrap();
    assert!(matches!(call.fallback, Fallback::Never));
    assert_eq!(call.body.as_deref(), Some("{\"p\":1}"));
    assert_eq!(call.url, format!("{}/api/sns/web/v1/homefeed", HOST));
}

#[test]
fn a_successful_answer_without_values_gives_empty_headers() {
    let mut c = client(vec![], true);
    let call = c.get_algo("/x", NOW).unwrap();
    let bare = SignResponse {
        success: true,
        x_s: None,
        x_t: None,
        x_s_common: None,
        x_b3_traceid: None,
        x_xray_traceid: None,
        error: Some("ignored".to_string()),
    };
    let request = c.sign(&call, Some(bare)).unwrap();
    assert_eq!(header(&request, "x-s"), Some(""));
    assert_eq!(header(&request, "x-xray-traceid"), Some(""));
}

#[test]
fn reading_the_collaborators_answer() {
    let service = SignatureService::new(&AgentConfig::from_env(None));
    assert!(matches!(service.get_signature_from_agent(None), Err(SignError::Unreachable)));
    match service.get_signature_from_agent(Some(refusal())) {
        Err(SignError::Rejected { reason }) => assert_eq!(reason, "boom"),
        other => panic!("unexpected: {:?}", other),
    }
    let mut silent = refusal();
    silent.error = None;
    match service.get_signature_from_agent(Some(silent)) {
        Err(SignError::Rejected { reason }) => assert_eq!(reason, "Unknown error"),
        other => panic!("unexpected: {:?}", other),
    }
    let sig = service.get_signature_from_agent(Some(answer())).unwrap();
    assert_eq!(
        (sig.x_s.as_str(), sig.x_t.as_str(), sig.x_s_common.as_str()),
        ("XS", "XT", "XC")
    );
    assert_eq!((sig.x_b3_traceid.as_str(), sig.x_xray_traceid.as_str()), ("B3", "XR"));
}

#[test]
fn collaborator_addresses() {
    let local = SignatureService::new(&AgentConfig::from_env(None));
    assert_eq!(local.sign_url(), "http://127.0.0.1:8765/sign");
    assert_eq!(local.health_url(), "http://127.0.0.1:8765/health");
    assert_eq!(
        local.guest_cookies_url("creator"),
        "http://127.0.0.1:8765/guest-cookies?target=creator"
    );
    let remote = SignatureService::new(&AgentConfig::from_env(Some("http://agent:9000".into())));
    assert_eq!(remote.sign_url(), "http://agent:9000/sign");
}

#[test]
fn agent_availability_follows_the_health_status() {
    let service = SignatureService::new(&AgentConfig::from_env(None));
    assert!(!service.is_agent_available(None));
    assert!(service.is_agent_available(Some(200)));
    assert!(service.is_agent_available(Some(299)));
    assert!(!service.is_agent_available(Some(199)));
    assert!(!service.is_agent_available(Some(300)));
    assert!(!service.is_agent_available(Some(503)));
}

#[test]
fn build_request_names_the_method_in_upper_case() {
    let req = SignatureService::build_request(HttpMethod::Post, "/p", CookieJar::new(), Some("{}".into()));
    assert_eq!(req.method, "POST");
    assert_eq!(req.uri, "/p");
    assert_eq!(req.payload.as_deref(), Some("{}"));
    assert!(req.params.is_none());
    assert_eq!(HttpMethod::Get.name(), "GET");
}

fn plain_signature() -> Signature {
    Signature {
        x_s: "1".into(),
        x_t: "2".into(),
        x_s_common: "3".into(),
        x_b3_traceid: "4".into(),
        x_xray_traceid: "5".into(),
    }
}

#[test]
fn headers_of_a_signed_get() {
    let request = build_get_request_algo("https://h/x", &plain_signature(), "a=1");
    assert_eq!(
        names(&request),
        vec![
            "accept", "accept-language", "cache-control", "pragma", "priority", "sec-ch-ua",
            "sec-ch-ua-mobile", "sec-ch-ua-platform", "sec-fetch-dest", "sec-fetch-mode",
            "sec-fetch-site", "user-agent", "origin", "referer", "x-s", "x-t", "x-s-common",
            "x-b3-traceid", "x-xray-traceid", "cookie",
        ]
    );
    assert_eq!(header(&request, "accept"), Some("application/json, text/plain, */*"));
    assert_eq!(header(&request, "accept-language"), Some("zh-CN,zh;q=0.9"));
    assert_eq!(header(&request, "cache-control"), Some("no-cache"));
    assert_eq!(header(&request, "pragma"), Some("no-cache"));
    assert_eq!(header(&request, "priority"), Some("u=1, i"));
    assert_eq!(
        header(&request, "sec-ch-ua"),
        Some(r#""Google Chrome";v="143", "Chromium";v="143", "Not A(Brand";v="24""#)
    );
    assert_eq!(header(&request, "sec-ch-ua-mobile"), Some("?0"));
    assert_eq!(header(&request, "sec-ch-ua-platform"), Some(r#""Windows""#));
    assert_eq!(header(&request, "sec-fetch-dest"), Some("empty"));
    assert_eq!(header(&request, "sec-fetch-mode"), Some("cors"));
    assert_eq!(header(&request, "sec-fetch-site"), Some("same-site"));
    assert_eq!(header(&request, "origin"), Some("https://www.xiaohongshu.com"));
    assert_eq!(header(&request, "referer"), Some("https://www.xiaohongshu.com/"));
    assert!(header(&request, "user-agent").unwrap().contains("Chrome/143.0.0.0"));
    assert_eq!(header(&request, "x-s"), Some("1"));
    assert_eq!(header(&request, "x-xray-traceid"), Some("5"));
    assert_eq!(header(&request, "cookie"), Some("a=1"));
    assert_eq!(request.url, "https://h/x");
    assert!(request.body.is_none());
}

#[test]
fn headers_of_a_signed_post() {
    let request = build_post_request_algo("https://h/x", &plain_signature(), "a=1", "{}".into());
    assert_eq!(request.headers.len(), 21);
    assert_eq!(names(&request)[2..5], ["cache-control", "content-type", "pragma"]);
    assert_eq!(header(&request, "content-type"), Some("application/json;charset=UTF-8"));
    assert_eq!(header(&request, "xy-direction"), None);
    assert_eq!(request.body.as_deref(), Some("{}"));
    assert_eq!(request.tier, SignatureTier::Collaborator);
}

#[test]
fn headers_of_a_replayed_get() {
    let request = build_get_request("https://h/x", &captured("k"), "a=1");
    assert_eq!(request.headers.len(), 20);
    assert_eq!(header(&request, "cache-control"), Some("no-cache"));
    assert_eq!(header(&request, "content-type"), None);
    assert_eq!(header(&request, "x-s"), Some("stored-xs"));
    assert_eq!(request.tier, SignatureTier::Stored);
}

#[test]
fn headers_of_a_replayed_post() {
    let request = build_post_request("https://h/x", &captured("k"), "a=1", "B".into());
    assert_eq!(request.headers.len(), 20);
    assert_eq!(header(&request, "cache-control"), None);
    assert_eq!(header(&request, "pragma"), None);
    assert_eq!(header(&request, "content-type"), Some("application/json;charset=UTF-8"));
    assert_eq!(header(&request, "xy-direction"), Some("98"));
    let n = names(&request);
    assert_eq!(n[n.len() - 2..], ["xy-direction", "cookie"]);
    assert_eq!(request.body.as_deref(), Some("B"));
}

#[test]
fn build_headers_ends_with_the_cookie() {
    let h = build_headers(HttpMethod::Get, SignatureTier::Stored, &plain_signature(), "k=v");
    assert_eq!(h.last().unwrap().name, "cookie");
    assert_eq!(h.last().unwrap().value, "k=v");
}

#[test]
fn assemble_from_a_plan_written_by_hand() {
    let call = PendingCall {
        method: HttpMethod::Post,
        endpoint: "k".into(),
        cookie: "a=1".into(),
        sign: None,
        url: "https://h/algo".into(),
        body: Some("OWN".into()),
        fallback: Fallback::CapturedUrlOr("https://h/default".into()),
        captured_body: BodyPolicy::Own,
    };
    let request = assemble(&call, ResolvedSignature::Collaborator(plain_signature())).unwrap();
    assert_eq!(request.url, "https://h/algo");
    assert_eq!(request.body.as_deref(), Some("OWN"));
    let request = assemble(&call, ResolvedSignature::Stored(captured("k"))).unwrap();
    assert_eq!(request.url, "https://h/default");
    assert_eq!(request.body.as_deref(), Some("OWN"));
    let mut with_url = captured("k");
    with_url.request_url = Some("https://h/captured?x=&y=1".into());
    let request = assemble(&call, ResolvedSignature::Stored(with_url)).unwrap();
    assert_eq!(request.url, "https://h/captured?y=1");
}
