use xhs_rs::cookies::{
    collect_set_cookies, cookies_to_string, parse_cookie_string, parse_set_cookie, CookieJar,
};

fn jar(pairs: &[(&str, &str)]) -> CookieJar {
    let mut jar = CookieJar::new();
    for (name, value) in pairs {
        jar.insert(name.to_string(), value.to_string());
    }
    jar
}

#[test]
fn empty_jar_renders_empty_header() {
    let jar = CookieJar::new();
    assert!(jar.is_empty());
    assert_eq!(jar.len(), 0);
    assert_eq!(cookies_to_string(&jar), "");
}

#[test]
fn header_joins_pairs_with_semicolon_and_space() {
    let jar = jar(&[("a1", "x"), ("web_session", "s1"), ("gid", "g")]);
    assert_eq!(cookies_to_string(&jar), "a1=x; web_session=s1; gid=g");
}

#[test]
fn single_cookie_has_no_separator() {
    assert_eq!(cookies_to_string(&jar(&[("a", "1")])), "a=1");
}

#[test]
fn insert_replaces_value_and_keeps_place() {
    let mut jar = jar(&[("a", "1"), ("b", "2")]);
    jar.insert("a".to_string(), "9".to_string());
    assert_eq!(jar.len(), 2);
    assert_eq!(jar.get("a"), Some("9".to_string()));
    assert_eq!(cookies_to_string(&jar), "a=9; b=2");
}

#[test]
fn get_and_contains_on_missing_name() {
    let jar = jar(&[("a", "1")]);
    assert_eq!(jar.get("b"), None);
    assert!(!jar.contains("b"));
    assert!(jar.contains("a"));
}

#[test]
fn extend_overrides_and_appends() {
    let mut base = jar(&[("a", "1"), ("b", "2")]);
    let extra = jar(&[("b", "20"), ("c", "3")]);
    base.extend(&extra);
    assert_eq!(cookies_to_string(&base), "a=1; b=20; c=3");
}

#[test]
fn clone_holds_the_same_cookies() {
    let jar = jar(&[("a", "1"), ("b", "2")]);
    let copy = jar.clone();
    assert_eq!(cookies_to_string(&copy), cookies_to_string(&jar));
}

#[test]
fn pairs_round_trip() {
    let jar = jar(&[("a", "1"), ("b", "2")]);
    let pairs = jar.to_pairs();
    assert_eq!(pairs.len(), 2);
    assert_eq!(pairs[1].name, "b");
    assert_eq!(pairs[1].value, "2");
    let again = CookieJar::from_pairs(pairs);
    assert_eq!(cookies_to_string(&again), "a=1; b=2");
}

#[test]
fn parse_cookie_string_reads_pairs() {
    let jar = parse_cookie_string("a=1; b=2");
    assert_eq!(jar.len(), 2);
    assert_eq!(jar.get("a"), Some("1".to_string()));
    assert_eq!(jar.get("b"), Some("2".to_string()));
}

#[test]
fn parse_cookie_string_skips_items_without_equals() {
    let jar = parse_cookie_string("a=1; broken; ; b=2;");
    assert_eq!(cookies_to_string(&jar), "a=1; b=2");
}

#[test]
fn parse_cookie_string_splits_at_first_equals_only() {
    let jar = parse_cookie_string("token=abc=def==");
    assert_eq!(jar.get("token"), Some("abc=def==".to_string()));
}

#[test]
fn parse_cookie_string_trims_the_item_not_its_parts() {
    let jar = parse_cookie_string("  a = 1  ;b=2");
    assert_eq!(jar.get("a "), Some(" 1".to_string()));
    assert_eq!(jar.get("a"), None);
    assert_eq!(jar.get("b"), Some("2".to_string()));
}

#[test]
fn parse_cookie_string_later_item_wins() {
    let jar = parse_cookie_string("a=1; b=2; a=3");
    assert_eq!(jar.len(), 2);
    assert_eq!(jar.get("a"), Some("3".to_string()));
    assert_eq!(cookies_to_string(&jar), "a=3; b=2");
}

#[test]
fn parse_cookie_string_of_empty_text() {
    assert!(parse_cookie_string("").is_empty());
}

#[test]
fn parse_cookie_string_trims_unicode_space() {
    let jar = parse_cookie_string("\u{3000}a=1\u{2003}\t;\u{a0}b=2\n");
    assert_eq!(jar.get("a"), Some("1".to_string()));
    assert_eq!(jar.get("b"), Some("2".to_string()));
}

#[test]
fn header_and_parse_round_trip() {
    let jar = jar(&[("a1", "x"), ("web_session", "s1")]);
    let again = parse_cookie_string(&cookies_to_string(&jar));
    assert_eq!(cookies_to_string(&again), "a1=x; web_session=s1");
}

#[test]
fn set_cookie_takes_what_stands_before_the_first_semicolon() {
    let c = parse_set_cookie("web_session=s1; Path=/; HttpOnly").unwrap();
    assert_eq!(c.name, "web_session");
    assert_eq!(c.value, "s1");
}

#[test]
fn set_cookie_trims_name_and_value() {
    let c = parse_set_cookie("  sid =  v 1 ; Secure").unwrap();
    assert_eq!(c.name, "sid");
    assert_eq!(c.value, "v 1");
}

#[test]
fn set_cookie_without_equals_offers_nothing() {
    assert!(parse_set_cookie("HttpOnly; a=1").is_none());
    assert!(parse_set_cookie("").is_none());
}

#[test]
fn set_cookie_with_empty_value() {
    let c = parse_set_cookie("gone=; Max-Age=0").unwrap();
    assert_eq!(c.name, "gone");
    assert_eq!(c.value, "");
}

#[test]
fn collect_set_cookies_gathers_all_headers() {
    let headers = vec![
        "a=1; Path=/".to_string(),
        "junk".to_string(),
        "b=2".to_string(),
        "a=3; Secure".to_string(),
    ];
    let jar = collect_set_cookies(&headers);
    assert_eq!(cookies_to_string(&jar), "a=3; b=2");
}
