use xhs_rs::api::search::{
    attach_search_id, generate_request_id, generate_search_id, generate_simple_search_id,
    query_trending, recommend_search, recommend_search_url, request_id_of, search_filter,
    search_filter_url, search_notes, search_onebox, search_user,
};
use xhs_rs::models::search::{
    default_biz_type_user, default_filters, default_page, default_page_size,
    default_page_size_15, default_sort, SearchNotesData, SearchNotesRequest, SearchNotesResponse,
    SearchOneboxRequest, SearchUserRequest,
};

fn lower_alphanumeric(s: &str) -> bool {
    s.chars().all(|c| c.is_ascii_digit() || c.is_ascii_lowercase())
}

fn is_request_id(id: &str) -> bool {
    match id.split_once('-') {
        Some((prefix, instant)) => {
            prefix.len() == 10
                && prefix.parse::<u64>().map(|p| p >= 1_000_000_000).unwrap_or(false)
                && instant.parse::<i64>().map(|t| t > 1_577_836_800_000).unwrap_or(false)
        }
        None => false,
    }
}

#[test]
fn keyword_is_percent_encoded_in_the_address() {
    assert_eq!(
        recommend_search_url("abc"),
        "https://edith.xiaohongshu.com/api/sns/web/v1/search/recommend?keyword=abc"
    );
    assert_eq!(
        recommend_search_url("\u{676d}\u{5dde} a&b=c/d"),
        "https://edith.xiaohongshu.com/api/sns/web/v1/search/recommend?keyword=%E6%9D%AD%E5%B7%9E%20a%26b%3Dc%2Fd"
    );
    assert_eq!(
        recommend_search_url("A-z_0.9~"),
        "https://edith.xiaohongshu.com/api/sns/web/v1/search/recommend?keyword=A-z_0.9~"
    );
    assert_eq!(
        recommend_search_url(""),
        "https://edith.xiaohongshu.com/api/sns/web/v1/search/recommend?keyword="
    );
}

#[test]
fn filter_address_encodes_both_parameters() {
    assert_eq!(
        search_filter_url("a b", "id@1"),
        "https://edith.xiaohongshu.com/api/sns/web/v1/search/filter?keyword=a%20b&search_id=id%401"
    );
}

#[test]
fn search_id_has_two_halves_of_22() {
    for _ in 0..50 {
        let id = generate_search_id();
        assert_eq!(id.len(), 45);
        let (first, second) = id.split_once('@').unwrap();
        assert_eq!(first.len(), 22);
        assert_eq!(second.len(), 22);
        assert!(lower_alphanumeric(first));
        assert!(lower_alphanumeric(second));
    }
}

#[test]
fn search_ids_differ() {
    assert_ne!(generate_search_id(), generate_search_id());
    assert_ne!(generate_simple_search_id(), generate_simple_search_id());
}

#[test]
fn simple_search_id_has_21_characters() {
    for _ in 0..50 {
        let id = generate_simple_search_id();
        assert_eq!(id.len(), 21);
        assert!(lower_alphanumeric(&id));
    }
}

#[test]
fn request_id_joins_prefix_and_instant() {
    assert_eq!(request_id_of(1_234_567_890, 1_767_225_600_000), "1234567890-1767225600000");
    assert_eq!(request_id_of(0, 0), "0-0");
    assert_eq!(request_id_of(7, -15), "7--15");
    assert_eq!(
        request_id_of(u64::MAX, i64::MIN),
        "18446744073709551615--9223372036854775808"
    );
    assert_eq!(request_id_of(10, i64::MAX), "10-9223372036854775807");
}

#[test]
fn generated_request_id_has_ten_digits_and_the_time() {
    for _ in 0..50 {
        let id = generate_request_id();
        assert!(is_request_id(&id), "{}", id);
    }
}

#[test]
fn a_search_without_id_is_given_one() {
    let req = search_notes(SearchNotesRequest::new("tea".to_string()));
    let id = req.search_id.clone().unwrap();
    assert_eq!(id.len(), 45);
    assert_eq!(req.keyword, "tea");
    assert_eq!(req.page, 1);
    let mut empty = SearchNotesRequest::new("tea".to_string());
    empty.search_id = Some(String::new());
    assert_eq!(search_notes(empty).search_id.unwrap().len(), 45);
}

#[test]
fn a_search_with_id_keeps_it() {
    let mut req = SearchNotesRequest::new("tea".to_string());
    req.search_id = Some("mine".to_string());
    req.page = 3;
    let out = search_notes(req);
    assert_eq!(out.search_id.as_deref(), Some("mine"));
    assert_eq!(out.page, 3);
}

#[test]
fn defaults_of_a_search_for_notes() {
    let req = SearchNotesRequest::new("k".to_string());
    assert_eq!(req.page, 1);
    assert_eq!(req.page_size, 20);
    assert_eq!(req.sort, "general");
    assert_eq!(req.note_type, 0);
    assert!(req.ext_flags.is_empty());
    assert_eq!(req.geo, "");
    assert_eq!(req.image_formats, vec!["jpg", "webp", "avif"]);
    assert_eq!(req.filters.len(), 5);
    assert_eq!(default_page(), 1);
    assert_eq!(default_page_size(), 20);
    assert_eq!(default_page_size_15(), 15);
    assert_eq!(default_sort(), "general");
    assert_eq!(default_biz_type_user(), "web_search_user");
}

#[test]
fn default_filters_leave_everything_open() {
    let filters = default_filters();
    let kinds: Vec<&str> = filters.iter().map(|f| f.filter_type.as_str()).collect();
    assert_eq!(
        kinds,
        vec!["sort_type", "filter_note_type", "filter_note_time", "filter_note_range", "filter_pos_distance"]
    );
    assert_eq!(filters[0].tags, vec!["general"]);
    for f in &filters[1..] {
        assert_eq!(f.tags, vec!["\u{4e0d}\u{9650}"]);
    }
}

#[test]
fn the_answer_records_the_id_of_the_search() {
    let response = SearchNotesResponse {
        code: 0,
        success: true,
        msg: None,
        data: Some(SearchNotesData { search_id: None, has_more: true, items: vec![] }),
    };
    let out = attach_search_id(response, Some("sid".to_string()));
    let data = out.data.unwrap();
    assert_eq!(data.search_id.as_deref(), Some("sid"));
    assert!(data.has_more);
    let bare = SearchNotesResponse { code: -1, success: false, msg: Some("m".into()), data: None };
    let out = attach_search_id(bare, Some("sid".to_string()));
    assert!(out.data.is_none());
    assert_eq!(out.msg.as_deref(), Some("m"));
    assert_eq!(out.code, -1);
}

#[test]
fn onebox_request_is_completed() {
    let req = SearchOneboxRequest {
        keyword: "k".into(),
        search_id: String::new(),
        biz_type: "web_search_user".into(),
        request_id: None,
    };
    let out = search_onebox(req);
    assert_eq!(out.search_id.len(), 21);
    assert!(is_request_id(out.request_id.as_deref().unwrap()));
    assert_eq!(out.keyword, "k");
    let req = SearchOneboxRequest {
        keyword: "k".into(),
        search_id: "keep".into(),
        biz_type: "b".into(),
        request_id: Some("rid".into()),
    };
    let out = search_onebox(req);
    assert_eq!(out.search_id, "keep");
    assert_eq!(out.request_id.as_deref(), Some("rid"));
    assert_eq!(out.biz_type, "b");
}

#[test]
fn user_search_replaces_missing_and_demo_ids() {
    let base = |id: Option<&str>| SearchUserRequest {
        keyword: "k".into(),
        search_id: id.map(|s| s.to_string()),
        page: 2,
        page_size: 15,
        biz_type: "web_search_user".into(),
        request_id: None,
    };
    let out = search_user(base(None)).search_user_request;
    assert_eq!(out.search_id.as_deref().unwrap().len(), 21);
    assert!(is_request_id(out.request_id.as_deref().unwrap()));
    assert_eq!(out.page, 2);
    let out = search_user(base(Some("demo_sid_1234567890"))).search_user_request;
    assert_ne!(out.search_id.as_deref(), Some("demo_sid_1234567890"));
    assert_eq!(out.search_id.as_deref().unwrap().len(), 21);
    let out = search_user(base(Some("real"))).search_user_request;
    assert_eq!(out.search_id.as_deref(), Some("real"));
    let out = search_user(base(Some(""))).search_user_request;
    assert_eq!(out.search_id.as_deref(), Some(""));
}

fn logged_in_client() -> xhs_rs::api::XhsApiClient {
    let mut jar = xhs_rs::cookies::CookieJar::new();
    jar.insert("web_session".to_string(), "s1".to_string());
    let mut store = xhs_rs::auth::CredentialStorage::new();
    store.save_credentials(&xhs_rs::auth::UserCredentials::new_at("u1".to_string(), jar, None, 5));
    xhs_rs::api::XhsApiClient::new(
        xhs_rs::auth::AuthService::new(store),
        xhs_rs::signature::SignatureService::new(&xhs_rs::config::AgentConfig::from_env(None)),
    )
}

#[test]
fn search_calls_are_planned() {
    let mut c = logged_in_client();
    let call = query_trending(&mut c, 5).unwrap();
    assert_eq!(call.endpoint, "search_trending");
    assert_eq!(call.url, "https://edith.xiaohongshu.com/api/sns/web/v1/search/querytrending");
    let call = recommend_search(&mut c, "a b", 5).unwrap();
    assert_eq!(call.endpoint, "search_recommend");
    assert_eq!(
        call.url,
        "https://edith.xiaohongshu.com/api/sns/web/v1/search/recommend?keyword=a%20b"
    );
    assert_eq!(
        call.sign.as_ref().unwrap().uri,
        "/api/sns/web/v1/search/recommend?keyword=a%20b"
    );
    let call = recommend_search(&mut c, "", 5).unwrap();
    assert_eq!(call.sign.as_ref().unwrap().uri, "/api/sns/web/v1/search/recommend");
    let call = search_filter(&mut c, "k", "sid", 5).unwrap();
    assert_eq!(call.endpoint, "search_filter");
    assert_eq!(
        call.sign.as_ref().unwrap().uri,
        "/api/sns/web/v1/search/filter?keyword=k&search_id=sid"
    );
}
