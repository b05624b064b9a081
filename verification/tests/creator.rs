use xhs_rs::api::creator::auth::{
    check_creator_qrcode_status, create_creator_qrcode, creator_poll_report, creator_status_uri,
    QRCODE_CREATE_PAYLOAD, QRCODE_CREATE_URL,
};
use xhs_rs::api::creator::info::{
    get_creator_home_info, get_creator_user_info, open_envelope, CreatorError,
};
use xhs_rs::api::creator::models::{
    CreatorEnvelope, CreatorHomeInfo, CreatorUserInfo, RawCreatorQrData, RawCreatorQrResponse,
};
use xhs_rs::api::creator::utils::{
    build_creator_headers, build_sign_request, build_signed_headers, sign_request,
};
use xhs_rs::api::login::PollStatus;
use xhs_rs::cookies::{cookies_to_string, CookieJar};
use xhs_rs::error::SignError;
use xhs_rs::signature::SignResponse;

fn jar(pairs: &[(&str, &str)]) -> CookieJar {
    let mut jar = CookieJar::new();
    for (name, value) in pairs {
        jar.insert(name.to_string(), value.to_string());
    }
    jar
}

fn answer(success: bool, error: Option<&str>) -> SignResponse {
    SignResponse {
        success,
        x_s: Some("XS".into()),
        x_t: None,
        x_s_common: Some("XC".into()),
        x_b3_traceid: None,
        x_xray_traceid: None,
        error: error.map(|e| e.to_string()),
    }
}

fn user(id: &str) -> CreatorUserInfo {
    CreatorUserInfo {
        user_id: Some(id.to_string()),
        user_name: None,
        user_avatar: None,
        role: None,
        permissions: None,
    }
}

#[test]
fn status_uri_encodes_the_service_and_drops_the_empty_source() {
    assert_eq!(
        creator_status_uri("qr1"),
        "/api/cas/customer/web/qr-code?service=https%3A%2F%2Fcreator.xiaohongshu.com&qr_code_id=qr1"
    );
}

#[test]
fn status_uri_without_an_id_has_only_the_service() {
    assert_eq!(
        creator_status_uri(""),
        "/api/cas/customer/web/qr-code?service=https%3A%2F%2Fcreator.xiaohongshu.com"
    );
}

#[test]
fn creation_constants() {
    assert_eq!(QRCODE_CREATE_PAYLOAD, r#"{"service":"https://creator.xiaohongshu.com"}"#);
    assert_eq!(QRCODE_CREATE_URL, "https://customer.xiaohongshu.com/api/cas/customer/web/qr-code");
}

#[test]
fn creator_headers_name_the_ugc_context() {
    let h = build_creator_headers();
    let seen: Vec<(&str, &str)> = h.iter().map(|p| (p.name.as_str(), p.value.as_str())).collect();
    assert_eq!(seen.len(), 5);
    assert_eq!(seen[0], ("accept", "application/json, text/plain, */*"));
    assert_eq!(seen[1], ("origin", "https://creator.xiaohongshu.com"));
    assert_eq!(seen[2], ("referer", "https://creator.xiaohongshu.com/"));
    assert_eq!(seen[3].0, "user-agent");
    assert_eq!(seen[4], ("xsecappid", "ugc"));
}

#[test]
fn signed_creator_headers() {
    let sig = ("xs".to_string(), "xt".to_string(), "xc".to_string());
    let h = build_signed_headers(true, &sig, &jar(&[("a", "1"), ("b", "2")]));
    let names: Vec<&str> = h.iter().map(|p| p.name.as_str()).collect();
    assert_eq!(
        names,
        vec![
            "accept", "origin", "referer", "user-agent", "xsecappid", "content-type", "x-s", "x-t",
            "x-s-common", "cookie"
        ]
    );
    assert_eq!(h[5].value, "application/json;charset=UTF-8");
    assert_eq!(h[6].value, "xs");
    assert_eq!(h[9].value, "a=1; b=2");
    let h = build_signed_headers(false, &sig, &jar(&[]));
    assert_eq!(h.len(), 9);
    assert_eq!(h[8].value, "");
}

#[test]
fn creator_sign_request_keeps_the_method_as_given() {
    let req = build_sign_request(&jar(&[("a", "1")]), "get", "/p?q=", Some("{}".into()));
    assert_eq!(req.method, "get");
    assert_eq!(req.uri, "/p?q=");
    assert_eq!(cookies_to_string(&req.cookies), "a=1");
    assert_eq!(req.payload.as_deref(), Some("{}"));
}

#[test]
fn reading_a_creator_signature() {
    assert!(matches!(sign_request(None), Err(SignError::Unreachable)));
    let (x_s, x_t, x_s_common) = sign_request(Some(answer(true, Some("ignored")))).unwrap();
    assert_eq!((x_s.as_str(), x_t.as_str(), x_s_common.as_str()), ("XS", "", "XC"));
    match sign_request(Some(answer(false, Some("bad")))) {
        Err(SignError::Rejected { reason }) => assert_eq!(reason, "bad"),
        other => panic!("unexpected: {:?}", other),
    }
    match sign_request(Some(answer(false, None))) {
        Err(SignError::Rejected { reason }) => assert_eq!(reason, ""),
        other => panic!("unexpected: {:?}", other),
    }
}

#[test]
fn reading_the_creation_of_a_creator_qr_code() {
    let raw = RawCreatorQrResponse {
        success: true,
        code: 0,
        msg: Some("ok".into()),
        data: Some(RawCreatorQrData { url: "https://qr".into(), id: "68c5".into() }),
    };
    let out = create_creator_qrcode(200, "body".into(), Some(raw)).unwrap();
    assert!(out.success);
    assert_eq!(out.qr_url.as_deref(), Some("https://qr"));
    assert_eq!(out.qr_id.as_deref(), Some("68c5"));
    assert_eq!(out.code.as_deref(), Some(""));
    assert_eq!(out.error.as_deref(), Some("ok"));
    let raw = RawCreatorQrResponse { success: false, code: 7, msg: None, data: None };
    let out = create_creator_qrcode(200, "body".into(), Some(raw)).unwrap();
    assert!(!out.success);
    assert!(out.qr_url.is_none() && out.qr_id.is_none() && out.code.is_none());
    assert!(out.error.is_none());
}

#[test]
fn a_failed_creation_is_an_error() {
    let raw = RawCreatorQrResponse { success: true, code: 0, msg: None, data: None };
    match create_creator_qrcode(406, "rejected".into(), Some(raw)) {
        Err(CreatorError::Api { status, body }) => {
            assert_eq!(status, 406);
            assert_eq!(body, "rejected");
        }
        other => panic!("unexpected: {:?}", other),
    }
    match create_creator_qrcode(200, "<html>".into(), None) {
        Err(CreatorError::Parse { body }) => assert_eq!(body, "<html>"),
        other => panic!("unexpected: {:?}", other),
    }
}

#[test]
fn reading_a_creator_poll() {
    let headers = vec![
        "customer-sso-sid=sid1; Path=/".to_string(),
        "galaxy.creator.beaker.session.id=g1".to_string(),
    ];
    let body = r#"{"code":0,"data":{"status":1,"user_id":"u77"}}"#;
    let report = check_creator_qrcode_status(200, body, &headers).unwrap();
    assert_eq!(report.status, PollStatus::Confirmed);
    assert_eq!(report.login_info.as_ref().unwrap().user_id, "u77");
    assert_eq!(
        cookies_to_string(&report.new_cookies),
        "customer-sso-sid=sid1; galaxy.creator.beaker.session.id=g1"
    );
    let report = check_creator_qrcode_status(200, r#"{"data":{"status":2}}"#, &vec![]).unwrap();
    assert_eq!(report.status, PollStatus::Waiting);
    assert!(report.login_info.is_none());
    assert!(report.new_cookies.is_empty());
    let report = check_creator_qrcode_status(200, r#"{"data":{"status":3}}"#, &vec![]).unwrap();
    assert_eq!(report.status, PollStatus::Scanned);
    let report = check_creator_qrcode_status(200, r#"{"data":{"status":1}}"#, &vec![]).unwrap();
    assert_eq!(report.login_info.unwrap().user_id, "unknown");
    let report = check_creator_qrcode_status(200, r#"{"data":{"status":9}}"#, &vec![]).unwrap();
    assert_eq!(report.status, PollStatus::Failed);
    let report = check_creator_qrcode_status(200, r#"{"msg":"later"}"#, &vec![]).unwrap();
    assert_eq!(report.status, PollStatus::Waiting);
}

#[test]
fn a_failed_creator_poll_is_an_error() {
    match check_creator_qrcode_status(500, "down", &vec!["a=1".to_string()]) {
        Err(CreatorError::Api { status, body }) => {
            assert_eq!(status, 500);
            assert_eq!(body, "down");
        }
        other => panic!("unexpected: {:?}", other.map(|_| ())),
    }
    match check_creator_qrcode_status(200, "not json", &vec![]) {
        Err(CreatorError::Parse { body }) => assert_eq!(body, "not json"),
        other => panic!("unexpected: {:?}", other.map(|_| ())),
    }
}

#[test]
fn poll_report_from_its_parts() {
    let report = creator_poll_report(Some(1), Some("u1".into()), jar(&[("a", "1")]));
    assert_eq!(report.status, PollStatus::Confirmed);
    let info = report.login_info.unwrap();
    assert_eq!(info.user_id, "u1");
    assert_eq!(info.session, "");
    assert_eq!(info.secure_session, "");
    let report = creator_poll_report(Some(3), Some("u1".into()), jar(&[]));
    assert!(report.login_info.is_none());
}

#[test]
fn opening_the_envelope_of_an_answer() {
    let ok = CreatorEnvelope { code: 0, msg: None, data: Some(user("u1")) };
    assert_eq!(get_creator_user_info(200, "b".into(), Some(ok)).unwrap().user_id.as_deref(), Some("u1"));
    let failed = CreatorEnvelope { code: 3, msg: Some("denied".into()), data: Some(user("u1")) };
    match get_creator_user_info(200, "b".into(), Some(failed)) {
        Err(CreatorError::Failed { code, msg }) => {
            assert_eq!(code, 3);
            assert_eq!(msg, "denied");
        }
        other => panic!("unexpected: {:?}", other),
    }
    let silent: CreatorEnvelope<CreatorUserInfo> = CreatorEnvelope { code: -1, msg: None, data: None };
    match get_creator_user_info(200, "b".into(), Some(silent)) {
        Err(CreatorError::Failed { code, msg }) => {
            assert_eq!(code, -1);
            assert_eq!(msg, "");
        }
        other => panic!("unexpected: {:?}", other),
    }
    let empty: CreatorEnvelope<CreatorHomeInfo> = CreatorEnvelope { code: 0, msg: None, data: None };
    assert!(matches!(get_creator_home_info(200, "b".into(), Some(empty)), Err(CreatorError::NoData)));
    assert!(matches!(
        get_creator_home_info(200, "b".into(), None),
        Err(CreatorError::Parse { .. })
    ));
    let ok = CreatorEnvelope { code: 0, msg: None, data: Some(7u8) };
    match open_envelope(404, "gone".into(), Some(ok)) {
        Err(CreatorError::Api { status, body }) => {
            assert_eq!(status, 404);
            assert_eq!(body, "gone");
        }
        other => panic!("unexpected: {:?}", other),
    }
    let ok = CreatorEnvelope { code: 0, msg: None, data: Some(7u8) };
    assert_eq!(open_envelope(399, "b".into(), Some(ok)).unwrap(), 7);
}
