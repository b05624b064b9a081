//! The request orchestrator: credentials, signature, request assembly and the
//! classification of the platform's answer.
//!
//! Nothing here performs I/O. A call is made in three steps: one of the
//! planning methods (`get`, `post`, ...) says what the signing collaborator is
//! to be asked and where the request may go; `sign` takes the collaborator's
//! answer, falls back to a captured signature where it must, and assembles the
//! request; `handle_response` classifies what the platform answered.

use crate::auth::credentials::{ApiSignature, ApiSignatureView};
use crate::auth::service::{cache_after_lookup, found, AuthService};
use crate::auth::storage::{captured, invalidated_all};
use crate::cookies::{cookie_header, parse_cookie_string, parsed_cookies};
use crate::error::{RequestError, RequestErrorView};
use crate::json::{application_code, read_application_code};
use crate::signature::{
    response_view, signature_of_answer, HttpMethod, SignRequest, SignRequestView, SignResponse,
    SignResponseView, Signature, SignatureService, SignatureView,
};
use crate::text::{
    clone_text, eq_ignoring_ascii_case, find_char, find_char_from, find_text, followed_by,
    has_prefix, index_of, join_pairs, joined, or_empty, pair_views, push_pair, rendered,
    same_ignoring_ascii_case, same_text, split_chars, split_on, split_once, split_once_chars,
    starts_with, string_of, sub_chars, text_of, text_or_empty, text_position, to_chars, views_of,
    Pair, TextPair,
};
use vstd::prelude::*;
use vstd::string::StringExecFns;

verus! {

/// Scheme and host of the platform's API.
pub const API_HOST: &'static str = "https://edith.xiaohongshu.com";

/// Host of the platform's API.
pub const API_DOMAIN: &'static str = "edith.xiaohongshu.com";

/// Path under which an endpoint without a captured URL is posted to.
pub const DEFAULT_POST_PREFIX: &'static str = "https://edith.xiaohongshu.com/api/sns/web/v1/";

pub const ORIGIN: &'static str = "https://www.xiaohongshu.com";

pub const REFERER: &'static str = "https://www.xiaohongshu.com/";

pub const USER_AGENT: &'static str =
    "Mozilla/5.0 (Windows NT 10.0; Win64; x64) AppleWebKit/537.36 (KHTML, like Gecko) Chrome/143.0.0.0 Safari/537.36";

pub const ACCEPT: &'static str = "application/json, text/plain, */*";

pub const ACCEPT_LANGUAGE: &'static str = "zh-CN,zh;q=0.9";

pub const CONTENT_TYPE_JSON: &'static str = "application/json;charset=UTF-8";

pub const SEC_CH_UA: &'static str =
    "\"Google Chrome\";v=\"143\", \"Chromium\";v=\"143\", \"Not A(Brand\";v=\"24\"";

pub const SEC_CH_UA_PLATFORM: &'static str = "\"Windows\"";

/// The status with which the platform rejects a signature.
pub const STATUS_SIGNATURE_REJECTED: u16 = 406;

/// The status with which the platform's rate limit or risk control answers.
pub const STATUS_RATE_LIMITED: u16 = 461;

/// The application code with which the platform reports an expired session.
pub const SESSION_EXPIRED_CODE: i64 = -100;

// ---------------------------------------------------------------------------
// Endpoints and URIs
// ---------------------------------------------------------------------------
/// The path, with its fixed query, of the endpoint that `key` names. Endpoints
/// whose path depends on an item have none.
pub open spec fn endpoint_uri(key: Seq<char>) -> Option<Seq<char>> {
    if key == "user_me"@ {
        Some("/api/sns/web/v2/user/me"@)
    } else if key == "user_selfinfo"@ {
        Some("/api/sns/web/v1/user/selfinfo"@)
    } else if key == "search_trending"@ {
        Some("/api/sns/web/v1/search/querytrending"@)
    } else if key == "search_notes"@ {
        Some("/api/sns/web/v1/search/notes"@)
    } else if key == "notification_mentions"@ {
        Some("/api/sns/web/v1/you/mentions?num=20&cursor="@)
    } else if key == "notification_connections"@ {
        Some("/api/sns/web/v1/you/connections?num=20&cursor="@)
    } else if key == "notification_likes"@ {
        Some("/api/sns/web/v1/you/likes?num=20&cursor="@)
    } else if starts_with(key, "home_feed_"@) {
        Some("/api/sns/web/v1/homefeed"@)
    } else {
        None
    }
}

/// The part of `uri` before its first `?`.
pub open spec fn uri_path(uri: Seq<char>) -> Seq<char> {
    uri.take(index_of(uri, '?') as int)
}

/// The parameter that one item of a query stands for: the item split at its
/// first `=`. An item without `=` or with an empty value stands for nothing.
pub open spec fn query_pair(item: Seq<char>) -> Option<TextPair> {
    match split_once(item, '=') {
        Some(p) => if p.1.len() > 0 {
            Some(p)
        } else {
            None
        },
        None => None,
    }
}

/// The parameters that a list of query items stands for, in order.
pub open spec fn query_pairs(items: Seq<Seq<char>>) -> Seq<TextPair>
    decreases items.len(),
{
    if items.len() == 0 {
        Seq::empty()
    } else {
        let before = query_pairs(items.drop_last());
        match query_pair(items.last()) {
            Some(p) => before.push(p),
            None => before,
        }
    }
}

/// The effective parameters of `uri`: those of its query, the part after the
/// first `?`, that have a value.
pub open spec fn uri_params(uri: Seq<char>) -> Seq<TextPair> {
    match split_once(uri, '?') {
        Some(p) => query_pairs(split_on(p.1, '&')),
        None => Seq::empty(),
    }
}

/// `uri` with only its effective parameters: the path, followed by `?` and
/// the parameters joined by `&` if there are any.
pub open spec fn sanitized_uri(uri: Seq<char>) -> Seq<char> {
    let params = uri_params(uri);
    if params.len() == 0 {
        uri_path(uri)
    } else {
        uri_path(uri) + "?"@ + joined(rendered(params), "&"@)
    }
}

/// The part of `url` that is signed when `url` names the platform's API host:
/// what starts at the first `/` after the host's name.
pub open spec fn signed_part(url: Seq<char>, host_at: int) -> Seq<char> {
    url.skip(host_at + index_of(url.skip(host_at), '/'))
}

/// No parameter that a list of query items stands for has an empty value.
pub proof fn lemma_query_pairs_have_values(items: Seq<Seq<char>>)
    ensures
        forall|i: int| 0 <= i < query_pairs(items).len() ==> query_pairs(items)[i].1.len() > 0,
    decreases items.len(),
{
    if items.len() > 0 {
        let before = query_pairs(items.drop_last());
        lemma_query_pairs_have_values(items.drop_last());
        assert forall|i: int| 0 <= i < query_pairs(items).len() implies query_pairs(
            items,
        )[i].1.len() > 0 by {
            if i < before.len() {
                assert(query_pairs(items)[i] == before[i]);
            }
        }
    }
}

/// Every effective parameter of a URI has a value, so that a parameter
/// with an empty value is never forwarded.
pub proof fn lemma_effective_parameters_have_values(uri: Seq<char>)
    ensures
        forall|i: int| 0 <= i < uri_params(uri).len() ==> uri_params(uri)[i].1.len() > 0,
{
    match split_once(uri, '?') {
        Some(p) => {
            lemma_query_pairs_have_values(split_on(p.1, '&'));
        },
        None => {},
    }
}

/// The path, with its fixed query, of the endpoint that `endpoint_key` names.
pub fn endpoint_to_uri(endpoint_key: &str) -> (r: Option<&'static str>)
    ensures
        match r {
            Some(uri) => endpoint_uri(endpoint_key@) == Some(uri@),
            None => endpoint_uri(endpoint_key@) is None,
        },
{
    if same_text(endpoint_key, "user_me") {
        Some("/api/sns/web/v2/user/me")
    } else if same_text(endpoint_key, "user_selfinfo") {
        Some("/api/sns/web/v1/user/selfinfo")
    } else if same_text(endpoint_key, "search_trending") {
        Some("/api/sns/web/v1/search/querytrending")
    } else if same_text(endpoint_key, "search_notes") {
        Some("/api/sns/web/v1/search/notes")
    } else if same_text(endpoint_key, "notification_mentions") {
        Some("/api/sns/web/v1/you/mentions?num=20&cursor=")
    } else if same_text(endpoint_key, "notification_connections") {
        Some("/api/sns/web/v1/you/connections?num=20&cursor=")
    } else if same_text(endpoint_key, "notification_likes") {
        Some("/api/sns/web/v1/you/likes?num=20&cursor=")
    } else if has_prefix(&to_chars(endpoint_key), &to_chars("home_feed_")) {
        Some("/api/sns/web/v1/homefeed")
    } else {
        None
    }
}

/// Splits `uri` into its path and its effective parameters. A parameter
/// without a value is dropped.
pub fn parse_uri_with_params(uri: &str) -> (r: (String, Vec<Pair>))
    ensures
        r.0@ == uri_path(uri@),
        pair_views(r.1@) == uri_params(uri@),
{
    let chars = to_chars(uri);
    let mark = find_char(&chars, '?');
    let path = sub_chars(&chars, 0, mark);
    let mut params: Vec<Pair> = Vec::new();
    assert(pair_views(params@) =~= Seq::<TextPair>::empty());
    if mark < chars.len() {
        let query = sub_chars(&chars, mark + 1, chars.len());
        let items = split_chars(&query, '&');
        let ghost all = split_on(query@, '&');
        let mut i: usize = 0;
        while i < items.len()
            invariant
                i <= items.len(),
                views_of(items@) == all,
                pair_views(params@) == query_pairs(all.take(i as int)),
            decreases items.len() - i,
        {
            proof {
                assert(all.take(i as int + 1).drop_last() =~= all.take(i as int));
                assert(all.take(i as int + 1).last() == items@[i as int]@);
            }
            match split_once_chars(&items[i], '=') {
                Some((name, value)) => {
                    if value.len() > 0 {
                        let ghost before = params@;
                        params.push(Pair { name: string_of(&name), value: string_of(&value) });
                        assert(pair_views(params@) =~= pair_views(before).push((name@, value@)));
                    }
                },
                None => {},
            }
            i += 1;
        }
        assert(all.take(items.len() as int) =~= all);
    }
    (string_of(&path), params)
}

/// `uri` with only its effective parameters.
pub fn sanitize_uri(uri: &str) -> (r: String)
    ensures
        r@ == sanitized_uri(uri@),
{
    let (path, params) = parse_uri_with_params(uri);
    if params.len() == 0 {
        path
    } else {
        let mut out = path;
        out.append("?");
        let query = join_pairs(&params, "&");
        out.append(query.as_str());
        out
    }
}

// ---------------------------------------------------------------------------
// Requests
// ---------------------------------------------------------------------------
/// Which of the two signing tiers a signature came from.
#[derive(Debug, Clone, Copy, PartialEq, Eq, Structural)]
pub enum SignatureTier {
    /// The signing collaborator computed it for this request.
    Collaborator,
    /// It was captured from an earlier request and stored.
    Stored,
}

/// The five header values of a captured signature.
pub open spec fn captured_values(s: ApiSignatureView) -> SignatureView {
    SignatureView {
        x_s: s.x_s,
        x_t: s.x_t,
        x_s_common: s.x_s_common,
        x_b3_traceid: s.x_b3_traceid,
        x_xray_traceid: s.x_xray_traceid,
    }
}

/// The headers of a request to the platform: browser-like headers, the five
/// signature headers and the cookie header. A request that carries a body has
/// a content type. A post with a captured signature has no cache headers and
/// carries `xy-direction`.
pub open spec fn request_headers(
    method: HttpMethod,
    tier: SignatureTier,
    sig: SignatureView,
    cookie: Seq<char>,
) -> Seq<TextPair> {
    let replay = method == HttpMethod::Post && tier == SignatureTier::Stored;
    seq![("accept"@, ACCEPT@), ("accept-language"@, ACCEPT_LANGUAGE@)] + (if replay {
        Seq::<TextPair>::empty()
    } else {
        seq![("cache-control"@, "no-cache"@)]
    }) + (if method == HttpMethod::Post {
        seq![("content-type"@, CONTENT_TYPE_JSON@)]
    } else {
        Seq::<TextPair>::empty()
    }) + (if replay {
        Seq::<TextPair>::empty()
    } else {
        seq![("pragma"@, "no-cache"@)]
    }) + seq![
        ("priority"@, "u=1, i"@),
        ("sec-ch-ua"@, SEC_CH_UA@),
        ("sec-ch-ua-mobile"@, "?0"@),
        ("sec-ch-ua-platform"@, SEC_CH_UA_PLATFORM@),
        ("sec-fetch-dest"@, "empty"@),
        ("sec-fetch-mode"@, "cors"@),
        ("sec-fetch-site"@, "same-site"@),
        ("user-agent"@, USER_AGENT@),
        ("origin"@, ORIGIN@),
        ("referer"@, REFERER@),
        ("x-s"@, sig.x_s),
        ("x-t"@, sig.x_t),
        ("x-s-common"@, sig.x_s_common),
        ("x-b3-traceid"@, sig.x_b3_traceid),
        ("x-xray-traceid"@, sig.x_xray_traceid),
    ] + (if replay {
        seq![("xy-direction"@, "98"@)]
    } else {
        Seq::<TextPair>::empty()
    }) + seq![("cookie"@, cookie)]
}

/// The headers of a request with the given method, signature and cookie header value.
pub fn build_headers(method: HttpMethod, tier: SignatureTier, sig: &Signature, cookie: &str) -> (r:
    Vec<Pair>)
    ensures
        pair_views(r@) == request_headers(method, tier, sig@, cookie@),
{
    let replay = method == HttpMethod::Post && tier == SignatureTier::Stored;
    let mut h: Vec<Pair> = Vec::new();
    assert(pair_views(h@) =~= Seq::<TextPair>::empty());
    push_pair(&mut h, "accept", ACCEPT);
    push_pair(&mut h, "accept-language", ACCEPT_LANGUAGE);
    if !replay {
        push_pair(&mut h, "cache-control", "no-cache");
    }
    if method == HttpMethod::Post {
        push_pair(&mut h, "content-type", CONTENT_TYPE_JSON);
    }
    if !replay {
        push_pair(&mut h, "pragma", "no-cache");
    }
    push_pair(&mut h, "priority", "u=1, i");
    push_pair(&mut h, "sec-ch-ua", SEC_CH_UA);
    push_pair(&mut h, "sec-ch-ua-mobile", "?0");
    push_pair(&mut h, "sec-ch-ua-platform", SEC_CH_UA_PLATFORM);
    push_pair(&mut h, "sec-fetch-dest", "empty");
    push_pair(&mut h, "sec-fetch-mode", "cors");
    push_pair(&mut h, "sec-fetch-site", "same-site");
    push_pair(&mut h, "user-agent", USER_AGENT);
    push_pair(&mut h, "origin", ORIGIN);
    push_pair(&mut h, "referer", REFERER);
    push_pair(&mut h, "x-s", sig.x_s.as_str());
    push_pair(&mut h, "x-t", sig.x_t.as_str());
    push_pair(&mut h, "x-s-common", sig.x_s_common.as_str());
    push_pair(&mut h, "x-b3-traceid", sig.x_b3_traceid.as_str());
    push_pair(&mut h, "x-xray-traceid", sig.x_xray_traceid.as_str());
    if replay {
        push_pair(&mut h, "xy-direction", "98");
    }
    push_pair(&mut h, "cookie", cookie);
    assert(pair_views(h@) =~= request_headers(method, tier, sig@, cookie@));
    h
}

/// What a request to the platform holds.
pub struct OutboundRequestView {
    pub method: HttpMethod,
    pub url: Seq<char>,
    pub headers: Seq<TextPair>,
    pub body: Option<Seq<char>>,
    pub tier: SignatureTier,
}

/// A request to the platform, ready to be sent.
#[derive(Debug)]
pub struct OutboundRequest {
    pub method: HttpMethod,
    /// The complete URL, query included.
    pub url: String,
    pub headers: Vec<Pair>,
    pub body: Option<String>,
    /// Where the signature came from.
    pub tier: SignatureTier,
}

impl View for OutboundRequest {
    type V = OutboundRequestView;

    open spec fn view(&self) -> OutboundRequestView {
        OutboundRequestView {
            method: self.method,
            url: self.url@,
            headers: pair_views(self.headers@),
            body: text_of(self.body),
            tier: self.tier,
        }
    }
}

/// The request with the given parts.
pub open spec fn request_of(
    method: HttpMethod,
    tier: SignatureTier,
    url: Seq<char>,
    sig: SignatureView,
    cookie: Seq<char>,
    body: Option<Seq<char>>,
) -> OutboundRequestView {
    OutboundRequestView {
        method,
        url,
        headers: request_headers(method, tier, sig, cookie),
        body,
        tier,
    }
}

/// A GET request signed by the collaborator.
pub fn build_get_request_algo(url: &str, signature: &Signature, cookie: &str) -> (r:
    OutboundRequest)
    ensures
        r@ == request_of(
            HttpMethod::Get,
            SignatureTier::Collaborator,
            url@,
            signature@,
            cookie@,
            None,
        ),
{
    OutboundRequest {
        method: HttpMethod::Get,
        url: String::from_str(url),
        headers: build_headers(HttpMethod::Get, SignatureTier::Collaborator, signature, cookie),
        body: None,
        tier: SignatureTier::Collaborator,
    }
}

/// A POST request signed by the collaborator.
pub fn build_post_request_algo(url: &str, signature: &Signature, cookie: &str, body: String) -> (r:
    OutboundRequest)
    ensures
        r@ == request_of(
            HttpMethod::Post,
            SignatureTier::Collaborator,
            url@,
            signature@,
            cookie@,
            Some(body@),
        ),
{
    OutboundRequest {
        method: HttpMethod::Post,
        url: String::from_str(url),
        headers: build_headers(HttpMethod::Post, SignatureTier::Collaborator, signature, cookie),
        body: Some(body),
        tier: SignatureTier::Collaborator,
    }
}

/// The five header values of a captured signature.
pub fn signature_values(signature: &ApiSignature) -> (r: Signature)
    ensures
        r@ == captured_values(signature@),
{
    Signature {
        x_s: signature.x_s.clone(),
        x_t: signature.x_t.clone(),
        x_s_common: signature.x_s_common.clone(),
        x_b3_traceid: signature.x_b3_traceid.clone(),
        x_xray_traceid: signature.x_xray_traceid.clone(),
    }
}

/// A GET request that carries a captured signature.
pub fn build_get_request(url: &str, signature: &ApiSignature, cookie: &str) -> (r: OutboundRequest)
    ensures
        r@ == request_of(
            HttpMethod::Get,
            SignatureTier::Stored,
            url@,
            captured_values(signature@),
            cookie@,
            None,
        ),
{
    let values = signature_values(signature);
    OutboundRequest {
        method: HttpMethod::Get,
        url: String::from_str(url),
        headers: build_headers(HttpMethod::Get, SignatureTier::Stored, &values, cookie),
        body: None,
        tier: SignatureTier::Stored,
    }
}

/// A POST request that carries a captured signature.
pub fn build_post_request(url: &str, signature: &ApiSignature, cookie: &str, body: String) -> (r:
    OutboundRequest)
    ensures
        r@ == request_of(
            HttpMethod::Post,
            SignatureTier::Stored,
            url@,
            captured_values(signature@),
            cookie@,
            Some(body@),
        ),
{
    let values = signature_values(signature);
    OutboundRequest {
        method: HttpMethod::Post,
        url: String::from_str(url),
        headers: build_headers(HttpMethod::Post, SignatureTier::Stored, &values, cookie),
        body: Some(body),
        tier: SignatureTier::Stored,
    }
}

/// The headers with the value of every header named `name` replaced by `value`.
pub open spec fn headers_with(headers: Seq<TextPair>, name: Seq<char>, value: Seq<char>) -> Seq<
    TextPair,
> {
    headers.map_values(
        |h: TextPair|
            if h.0 == name {
                (name, value)
            } else {
                h
            },
    )
}

/// The request with the value of every header named `name` replaced by `value`.
pub fn with_header(request: OutboundRequest, name: &str, value: &str) -> (r: OutboundRequest)
    ensures
        r@ == (OutboundRequestView {
            headers: headers_with(request@.headers, name@, value@),
            ..request@
        }),
{
    let mut headers: Vec<Pair> = Vec::new();
    let key = String::from_str(name);
    let mut i: usize = 0;
    while i < request.headers.len()
        invariant
            i <= request.headers.len(),
            key@ == name@,
            headers.len() == i,
            forall|j: int|
                0 <= j < i ==> headers@[j]@ == headers_with(request@.headers, name@, value@)[j],
        decreases request.headers.len() - i,
    {
        if request.headers[i].name == key {
            headers.push(Pair { name: String::from_str(name), value: String::from_str(value) });
        } else {
            headers.push(request.headers[i].clone());
        }
        i += 1;
    }
    assert(pair_views(headers@) =~= headers_with(request@.headers, name@, value@));
    OutboundRequest {
        method: request.method,
        url: request.url,
        headers,
        body: request.body,
        tier: request.tier,
    }
}

// ---------------------------------------------------------------------------
// Planned calls
// ---------------------------------------------------------------------------
/// Where a request goes when it carries a captured signature.
#[derive(Debug)]
pub enum Fallback {
    /// Nowhere: the collaborator's failure is final.
    Never,
    /// To the URL that the signature was captured with; without one the
    /// signature cannot be used.
    CapturedUrl,
    /// To the URL that the signature was captured with or, without one, to the given URL.
    CapturedUrlOr(String),
    /// To the given URL.
    Url(String),
}

/// What a `Fallback` holds.
pub enum FallbackView {
    Never,
    CapturedUrl,
    CapturedUrlOr(Seq<char>),
    Url(Seq<char>),
}

impl View for Fallback {
    type V = FallbackView;

    open spec fn view(&self) -> FallbackView {
        match self {
            Fallback::Never => FallbackView::Never,
            Fallback::CapturedUrl => FallbackView::CapturedUrl,
            Fallback::CapturedUrlOr(u) => FallbackView::CapturedUrlOr(u@),
            Fallback::Url(u) => FallbackView::Url(u@),
        }
    }
}

/// Which body a request carries when it carries a captured signature.
#[derive(Debug, Clone, Copy, PartialEq, Eq, Structural)]
pub enum BodyPolicy {
    /// The call's own body.
    Own,
    /// The body that the signature was captured with; an empty one when it
    /// was captured with none.
    Captured,
    /// The body that the signature was captured with; the call's own when it
    /// was captured with none.
    CapturedOrOwn,
}

/// What a planned call holds.
pub struct PendingCallView {
    pub method: HttpMethod,
    pub endpoint: Seq<char>,
    pub cookie: Seq<char>,
    pub sign: Option<SignRequestView>,
    pub url: Seq<char>,
    pub body: Option<Seq<char>>,
    pub fallback: FallbackView,
    pub captured_body: BodyPolicy,
}

/// A call to the platform for which credentials are at hand and a signature is
/// still to be obtained.
#[derive(Debug)]
pub struct PendingCall {
    pub method: HttpMethod,
    /// The endpoint key or, for a call by path, the path: names the call.
    pub endpoint: String,
    /// The value of the cookie header.
    pub cookie: String,
    /// What to ask the signing collaborator; `None` when it is not to be asked.
    pub sign: Option<SignRequest>,
    /// Where the request goes when the collaborator has signed it.
    pub url: String,
    /// The body of the request.
    pub body: Option<String>,
    /// Where the request goes when it carries a captured signature.
    pub fallback: Fallback,
    /// Which body the request carries when it carries a captured signature.
    pub captured_body: BodyPolicy,
}

impl View for PendingCall {
    type V = PendingCallView;

    open spec fn view(&self) -> PendingCallView {
        PendingCallView {
            method: self.method,
            endpoint: self.endpoint@,
            cookie: self.cookie@,
            sign: match self.sign {
                Some(s) => Some(s@),
                None => None,
            },
            url: self.url@,
            body: text_of(self.body),
            fallback: self.fallback@,
            captured_body: self.captured_body,
        }
    }
}

/// What the collaborator is asked in order to sign a request: the method, the
/// URI with only its effective parameters, the cookies of the cookie header
/// and the body.
pub open spec fn sign_request_for(
    method: HttpMethod,
    uri: Seq<char>,
    cookie: Seq<char>,
    payload: Option<Seq<char>>,
) -> SignRequestView {
    SignRequestView {
        method: method.spec_name(),
        uri: sanitized_uri(uri),
        cookies: parsed_cookies(cookie),
        params: None,
        payload,
    }
}

/// A call by path: the collaborator signs or the call fails.
pub open spec fn planned_by_path(
    method: HttpMethod,
    uri: Seq<char>,
    cookie: Seq<char>,
    payload: Option<Seq<char>>,
) -> PendingCallView {
    PendingCallView {
        method,
        endpoint: uri,
        cookie,
        sign: Some(sign_request_for(method, uri, cookie, payload)),
        url: API_HOST@ + sanitized_uri(uri),
        body: payload,
        fallback: FallbackView::Never,
        captured_body: BodyPolicy::Own,
    }
}

/// A call by endpoint key: the collaborator is asked if the key has a known
/// path, and a captured signature may stand in.
pub open spec fn planned_by_key(
    method: HttpMethod,
    key: Seq<char>,
    cookie: Seq<char>,
    payload: Option<Seq<char>>,
    fallback: FallbackView,
    captured_body: BodyPolicy,
) -> PendingCallView {
    PendingCallView {
        method,
        endpoint: key,
        cookie,
        sign: match endpoint_uri(key) {
            Some(uri) => Some(sign_request_for(method, uri, cookie, payload)),
            None => None,
        },
        url: match endpoint_uri(key) {
            Some(uri) => API_HOST@ + sanitized_uri(uri),
            None => Seq::empty(),
        },
        body: payload,
        fallback,
        captured_body,
    }
}

/// The plan of `get`.
pub open spec fn planned_get(key: Seq<char>, cookie: Seq<char>) -> PendingCallView {
    planned_by_key(HttpMethod::Get, key, cookie, None, FallbackView::CapturedUrl, BodyPolicy::Own)
}

/// The plan of `post`.
pub open spec fn planned_post(key: Seq<char>, payload: Seq<char>, cookie: Seq<char>) -> PendingCallView {
    planned_by_key(
        HttpMethod::Post,
        key,
        cookie,
        Some(payload),
        FallbackView::CapturedUrlOr(DEFAULT_POST_PREFIX@ + key),
        BodyPolicy::Captured,
    )
}

/// The plan of `post_with_payload` for a key with a known path.
pub open spec fn planned_post_with_payload(
    key: Seq<char>,
    payload: Seq<char>,
    cookie: Seq<char>,
) -> PendingCallView {
    planned_by_key(
        HttpMethod::Post,
        key,
        cookie,
        Some(payload),
        FallbackView::Never,
        BodyPolicy::Own,
    )
}

/// The plan of `get_with_url`: the collaborator is asked if the URL names the
/// platform's API host, and signs what follows the host.
pub open spec fn planned_get_with_url(key: Seq<char>, url: Seq<char>, cookie: Seq<char>) -> PendingCallView {
    PendingCallView {
        method: HttpMethod::Get,
        endpoint: key,
        cookie,
        sign: match text_position(url, API_DOMAIN@) {
            Some(at) => Some(sign_request_for(HttpMethod::Get, signed_part(url, at), cookie, None)),
            None => None,
        },
        url: sanitized_uri(url),
        body: None,
        fallback: FallbackView::Url(sanitized_uri(url)),
        captured_body: BodyPolicy::Own,
    }
}

/// The plan of `post_with_body`: the collaborator is not asked.
pub open spec fn planned_post_with_body(
    key: Seq<char>,
    url: Seq<char>,
    body: Seq<char>,
    cookie: Seq<char>,
) -> PendingCallView {
    PendingCallView {
        method: HttpMethod::Post,
        endpoint: key,
        cookie,
        sign: None,
        url: sanitized_uri(url),
        body: Some(body),
        fallback: FallbackView::Url(sanitized_uri(url)),
        captured_body: BodyPolicy::Own,
    }
}

/// The plan of `post_captured`: the collaborator is not asked, and the
/// request carries the body that the signature was captured with, if any.
pub open spec fn planned_post_captured(
    key: Seq<char>,
    url: Seq<char>,
    body: Seq<char>,
    cookie: Seq<char>,
) -> PendingCallView {
    PendingCallView {
        method: HttpMethod::Post,
        endpoint: key,
        cookie,
        sign: None,
        url: sanitized_uri(url),
        body: Some(body),
        fallback: FallbackView::Url(sanitized_uri(url)),
        captured_body: BodyPolicy::CapturedOrOwn,
    }
}

// ---------------------------------------------------------------------------
// The two-tier signing policy
// ---------------------------------------------------------------------------
/// A signature together with the tier it came from.
#[derive(Debug)]
pub enum ResolvedSignature {
    Collaborator(Signature),
    Stored(ApiSignature),
}

/// What a `ResolvedSignature` holds.
pub enum ResolvedSignatureView {
    Collaborator(SignatureView),
    Stored(ApiSignatureView),
}

impl View for ResolvedSignature {
    type V = ResolvedSignatureView;

    open spec fn view(&self) -> ResolvedSignatureView {
        match self {
            ResolvedSignature::Collaborator(s) => ResolvedSignatureView::Collaborator(s@),
            ResolvedSignature::Stored(s) => ResolvedSignatureView::Stored(s@),
        }
    }
}

/// The view of a resolved signature or a failure.
pub open spec fn resolution_view(r: Result<ResolvedSignature, RequestError>) -> Result<
    ResolvedSignatureView,
    RequestErrorView,
> {
    match r {
        Ok(s) => Ok(s@),
        Err(e) => Err(e@),
    }
}

/// The view of a request or a failure.
pub open spec fn request_view(r: Result<OutboundRequest, RequestError>) -> Result<
    OutboundRequestView,
    RequestErrorView,
> {
    match r {
        Ok(s) => Ok(s@),
        Err(e) => Err(e@),
    }
}

/// The view of a planned call or a failure.
pub open spec fn plan_view(r: Result<PendingCall, RequestError>) -> Result<
    PendingCallView,
    RequestErrorView,
> {
    match r {
        Ok(s) => Ok(s@),
        Err(e) => Err(e@),
    }
}

/// The view of a response text or a failure.
pub open spec fn reply_view(r: Result<String, RequestError>) -> Result<Seq<char>, RequestErrorView> {
    match r {
        Ok(s) => Ok(s@),
        Err(e) => Err(e@),
    }
}

/// The two-tier policy. The collaborator's signature is taken when there is
/// one. Otherwise the signature captured for the endpoint `lookup` stands in;
/// when none is stored the endpoint is named in the failure, and when there is
/// no endpoint to look up, signing is unavailable.
pub open spec fn resolved_signature(
    collaborator: Option<SignatureView>,
    lookup: Option<Seq<char>>,
    signatures: Seq<ApiSignatureView>,
) -> Result<ResolvedSignatureView, RequestErrorView> {
    match collaborator {
        Some(sig) => Ok(ResolvedSignatureView::Collaborator(sig)),
        None => match lookup {
            Some(endpoint) => match captured(signatures, endpoint) {
                Some(s) => Ok(ResolvedSignatureView::Stored(s)),
                None => Err(RequestErrorView::NoSignatureAvailable { endpoint }),
            },
            None => Err(RequestErrorView::SigningUnavailable),
        },
    }
}

/// The endpoint under which a captured signature is looked up for a call, if
/// the call may carry one.
pub open spec fn lookup_key(call: PendingCallView) -> Option<Seq<char>> {
    match call.fallback {
        FallbackView::Never => None,
        _ => Some(call.endpoint),
    }
}

/// What the collaborator contributed to a call: its signature, if it was
/// asked and answered with one.
pub open spec fn collaborator_signature(
    call: PendingCallView,
    answer: Option<SignResponseView>,
) -> Option<SignatureView> {
    if call.sign is Some {
        match signature_of_answer(answer) {
            Ok(sig) => Some(sig),
            Err(_) => None,
        }
    } else {
        None
    }
}

/// Where a request with the captured signature `s` goes.
pub open spec fn stored_target(fallback: FallbackView, s: ApiSignatureView) -> Option<Seq<char>> {
    match fallback {
        FallbackView::Never => None,
        FallbackView::CapturedUrl => match s.request_url {
            Some(u) => Some(sanitized_uri(u)),
            None => None,
        },
        FallbackView::CapturedUrlOr(other) => match s.request_url {
            Some(u) => Some(sanitized_uri(u)),
            None => Some(other),
        },
        FallbackView::Url(u) => Some(u),
    }
}

/// The body of a request with the captured signature `s`.
pub open spec fn stored_body(call: PendingCallView, s: ApiSignatureView) -> Option<Seq<char>> {
    match call.method {
        HttpMethod::Get => None,
        HttpMethod::Post => match call.captured_body {
            BodyPolicy::Own => call.body,
            BodyPolicy::Captured => Some(or_empty(s.post_body)),
            BodyPolicy::CapturedOrOwn => match s.post_body {
                Some(b) => Some(b),
                None => call.body,
            },
        },
    }
}

/// Whether the captured signature `s` may sign a request with the given method
/// and body: its method, if it records one, is the request's, and its body,
/// if it records one that is not empty, is the request's body exactly.
pub open spec fn binding_holds(
    method: HttpMethod,
    body: Option<Seq<char>>,
    s: ApiSignatureView,
) -> bool {
    &&& s.method matches Some(m) ==> same_ignoring_ascii_case(m, method.spec_name())
    &&& s.post_body matches Some(b) ==> b.len() == 0 || body == Some(b)
}

/// The request assembled for a call from a resolved signature.
pub open spec fn assembled(call: PendingCallView, resolved: ResolvedSignatureView) -> Result<
    OutboundRequestView,
    RequestErrorView,
> {
    match resolved {
        ResolvedSignatureView::Collaborator(sig) => Ok(
            request_of(
                call.method,
                SignatureTier::Collaborator,
                call.url,
                sig,
                call.cookie,
                call.body,
            ),
        ),
        ResolvedSignatureView::Stored(s) => match stored_target(call.fallback, s) {
            Some(url) => if binding_holds(call.method, stored_body(call, s), s) {
                Ok(
                    request_of(
                        call.method,
                        SignatureTier::Stored,
                        url,
                        captured_values(s),
                        call.cookie,
                        stored_body(call, s),
                    ),
                )
            } else {
                Err(RequestErrorView::SigningUnavailable)
            },
            None => Err(RequestErrorView::SigningUnavailable),
        },
    }
}

/// The signed request for a call, given the collaborator's answer and the
/// stored signatures.
pub open spec fn signed(
    call: PendingCallView,
    answer: Option<SignResponseView>,
    signatures: Seq<ApiSignatureView>,
) -> Result<OutboundRequestView, RequestErrorView> {
    match resolved_signature(collaborator_signature(call, answer), lookup_key(call), signatures) {
        Ok(resolved) => assembled(call, resolved),
        Err(e) => Err(e),
    }
}

/// A captured signature that is bound to a body signs no request with another body.
pub proof fn lemma_captured_signature_keeps_its_body(call: PendingCallView, s: ApiSignatureView)
    ensures
        assembled(call, ResolvedSignatureView::Stored(s)) matches Ok(request) ==> (
        s.post_body matches Some(b) ==> b.len() == 0 || request.body == Some(b)),
{
}

/// When the collaborator fails for an endpoint, the stored signature for that
/// endpoint is the one that is resolved; when none is stored, the failure
/// names the endpoint.
pub proof fn lemma_fallback(endpoint: Seq<char>, signatures: Seq<ApiSignatureView>)
    ensures
        match captured(signatures, endpoint) {
            Some(s) => resolved_signature(None, Some(endpoint), signatures) == Ok::<
                ResolvedSignatureView,
                RequestErrorView,
            >(ResolvedSignatureView::Stored(s)) && s.is_valid && s.endpoint == endpoint,
            None => resolved_signature(None, Some(endpoint), signatures) == Err::<
                ResolvedSignatureView,
                RequestErrorView,
            >(RequestErrorView::NoSignatureAvailable { endpoint }),
        },
{
    crate::auth::storage::lemma_captured(signatures, endpoint);
}

// ---------------------------------------------------------------------------
// Responses
// ---------------------------------------------------------------------------
/// What the platform's answer means.
#[derive(Debug, Clone, Copy, PartialEq, Eq, Structural)]
pub enum ResponseClass {
    /// The call succeeded.
    Success,
    /// The answer reports, inside a successful envelope, that the session has expired.
    SessionExpired,
    /// The signature was rejected; the session is presumed valid.
    SignatureRejected,
    /// Rate limit or risk control.
    RateLimited,
    /// Any other failure.
    Failed,
}

/// The class of an answer with the given status and application code.
pub open spec fn response_class(status: u16, code: Option<i64>) -> ResponseClass {
    if status == STATUS_SIGNATURE_REJECTED {
        ResponseClass::SignatureRejected
    } else if status == STATUS_RATE_LIMITED {
        ResponseClass::RateLimited
    } else if status >= 400 {
        ResponseClass::Failed
    } else if code == Some(SESSION_EXPIRED_CODE) {
        ResponseClass::SessionExpired
    } else {
        ResponseClass::Success
    }
}

/// What the caller gets for an answer: the body as it is for a success, a
/// classified failure that holds the body otherwise.
pub open spec fn response_outcome(status: u16, body: Seq<char>, code: Option<i64>) -> Result<
    Seq<char>,
    RequestErrorView,
> {
    match response_class(status, code) {
        ResponseClass::Success => Ok(body),
        ResponseClass::SessionExpired => Err(RequestErrorView::SessionExpired { body }),
        ResponseClass::SignatureRejected => Err(RequestErrorView::SignatureRejected { body }),
        ResponseClass::RateLimited => Err(RequestErrorView::RateLimited { body }),
        ResponseClass::Failed => Err(RequestErrorView::ApiError { status, body }),
    }
}

/// Classifies an answer by its status and the application code that its body carries.
pub fn classify_response(status: u16, code: Option<i64>) -> (r: ResponseClass)
    ensures
        r == response_class(status, code),
{
    if status == STATUS_SIGNATURE_REJECTED {
        ResponseClass::SignatureRejected
    } else if status == STATUS_RATE_LIMITED {
        ResponseClass::RateLimited
    } else if status >= 400 {
        ResponseClass::Failed
    } else {
        match code {
            Some(c) => if c == SESSION_EXPIRED_CODE {
                ResponseClass::SessionExpired
            } else {
                ResponseClass::Success
            },
            None => ResponseClass::Success,
        }
    }
}

/// What the caller gets for an answer of the given class.
pub fn response_result(class: ResponseClass, status: u16, body: String) -> (r: Result<
    String,
    RequestError,
>)
    ensures
        reply_view(r) == match class {
            ResponseClass::Success => Ok::<Seq<char>, RequestErrorView>(body@),
            ResponseClass::SessionExpired => Err(RequestErrorView::SessionExpired { body: body@ }),
            ResponseClass::SignatureRejected => Err(
                RequestErrorView::SignatureRejected { body: body@ },
            ),
            ResponseClass::RateLimited => Err(RequestErrorView::RateLimited { body: body@ }),
            ResponseClass::Failed => Err(RequestErrorView::ApiError { status, body: body@ }),
        },
{
    match class {
        ResponseClass::Success => Ok(body),
        ResponseClass::SessionExpired => Err(RequestError::SessionExpired { body }),
        ResponseClass::SignatureRejected => Err(RequestError::SignatureRejected { body }),
        ResponseClass::RateLimited => Err(RequestError::RateLimited { body }),
        ResponseClass::Failed => Err(RequestError::ApiError { status, body }),
    }
}

// ---------------------------------------------------------------------------
// The client
// ---------------------------------------------------------------------------
/// The view of an optional signature.
pub open spec fn optional_signature(s: Option<Signature>) -> Option<SignatureView> {
    match s {
        Some(s) => Some(s@),
        None => None,
    }
}

/// The text of an optional string slice.
pub open spec fn optional_text(s: Option<&str>) -> Option<Seq<char>> {
    match s {
        Some(s) => Some(s@),
        None => None,
    }
}

/// How a passive lookup of the credential at `now` changes the session
/// manager: the cache takes what was found, the store stays as it is.
pub open spec fn looked_up(before: AuthService, after: AuthService, now: int) -> bool {
    &&& after.cache() == cache_after_lookup(before.cache(), before.records(), now)
    &&& after.records() == before.records()
    &&& after.signatures() == before.signatures()
}

/// The plan that a call makes once the session's cookie header is known, or
/// `NotAuthenticated` when no credential is found.
pub open spec fn with_session(
    session: AuthService,
    now: int,
    plan: spec_fn(Seq<char>) -> Result<PendingCallView, RequestErrorView>,
) -> Result<PendingCallView, RequestErrorView> {
    match found(session.cache(), session.records(), now) {
        Some(c) => plan(cookie_header(c.cookies)),
        None => Err(RequestErrorView::NotAuthenticated),
    }
}

fn make_call(
    method: HttpMethod,
    endpoint: &str,
    cookie: String,
    sign_uri: Option<&str>,
    payload: Option<String>,
    url: String,
    fallback: Fallback,
    captured_body: BodyPolicy,
) -> (r: PendingCall)
    ensures
        r@ == (PendingCallView {
            method,
            endpoint: endpoint@,
            cookie: cookie@,
            sign: match sign_uri {
                Some(u) => Some(sign_request_for(method, u@, cookie@, text_of(payload))),
                None => None,
            },
            url: url@,
            body: text_of(payload),
            fallback: fallback@,
            captured_body,
        }),
{
    let sign = match sign_uri {
        Some(u) => {
            let clean = sanitize_uri(u);
            let cookies = parse_cookie_string(cookie.as_str());
            Some(
                SignatureService::build_request(
                    method,
                    clean.as_str(),
                    cookies,
                    clone_text(&payload),
                ),
            )
        },
        None => None,
    };
    PendingCall {
        method,
        endpoint: String::from_str(endpoint),
        cookie,
        sign,
        url,
        body: payload,
        fallback,
        captured_body,
    }
}

fn call_by_path(method: HttpMethod, uri: &str, cookie: String, payload: Option<String>) -> (r:
    PendingCall)
    ensures
        r@ == planned_by_path(method, uri@, cookie@, text_of(payload)),
{
    let clean = sanitize_uri(uri);
    let url = followed_by(API_HOST, clean.as_str());
    make_call(method, uri, cookie, Some(uri), payload, url, Fallback::Never, BodyPolicy::Own)
}

fn call_by_key(
    method: HttpMethod,
    key: &str,
    cookie: String,
    payload: Option<String>,
    fallback: Fallback,
    captured_body: BodyPolicy,
) -> (r: PendingCall)
    ensures
        r@ == planned_by_key(
            method,
            key@,
            cookie@,
            text_of(payload),
            fallback@,
            captured_body,
        ),
{
    match endpoint_to_uri(key) {
        Some(uri) => {
            let clean = sanitize_uri(uri);
            let url = followed_by(API_HOST, clean.as_str());
            make_call(method, key, cookie, Some(uri), payload, url, fallback, captured_body)
        },
        None => make_call(
            method,
            key,
            cookie,
            None,
            payload,
            String::new(),
            fallback,
            captured_body,
        ),
    }
}

/// The request assembled for `call` from a resolved signature. A captured
/// signature that is bound to another method or body than the request's, or
/// that lacks the URL it is needed for, assembles nothing.
pub fn assemble(call: &PendingCall, resolved: ResolvedSignature) -> (r: Result<
    OutboundRequest,
    RequestError,
>)
    ensures
        request_view(r) == assembled(call@, resolved@),
        r matches Ok(request) ==> (resolved matches ResolvedSignature::Stored(s) ==> (
        s@.post_body matches Some(b) ==> b.len() == 0 || request@.body == Some(b))),
{
    match resolved {
        ResolvedSignature::Collaborator(sig) => {
            let headers = build_headers(
                call.method,
                SignatureTier::Collaborator,
                &sig,
                call.cookie.as_str(),
            );
            Ok(
                OutboundRequest {
                    method: call.method,
                    url: call.url.clone(),
                    headers,
                    body: clone_text(&call.body),
                    tier: SignatureTier::Collaborator,
                },
            )
        },
        ResolvedSignature::Stored(s) => {
            let target: Option<String> = match &call.fallback {
                Fallback::Never => None,
                Fallback::CapturedUrl => match &s.request_url {
                    Some(u) => Some(sanitize_uri(u.as_str())),
                    None => None,
                },
                Fallback::CapturedUrlOr(other) => match &s.request_url {
                    Some(u) => Some(sanitize_uri(u.as_str())),
                    None => Some(other.clone()),
                },
                Fallback::Url(u) => Some(u.clone()),
            };
            let body: Option<String> = match call.method {
                HttpMethod::Get => None,
                HttpMethod::Post => match call.captured_body {
                    BodyPolicy::Own => clone_text(&call.body),
                    BodyPolicy::Captured => Some(text_or_empty(&s.post_body)),
                    BodyPolicy::CapturedOrOwn => match &s.post_body {
                        Some(b) => Some(b.clone()),
                        None => clone_text(&call.body),
                    },
                },
            };
            let method_fits = match &s.method {
                Some(m) => eq_ignoring_ascii_case(m.as_str(), call.method.name()),
                None => true,
            };
            let body_fits = match &s.post_body {
                Some(b) => b.as_str().is_empty() || match &body {
                    Some(x) => *x == *b,
                    None => false,
                },
                None => true,
            };
            match target {
                Some(url) => {
                    if method_fits && body_fits {
                        let values = signature_values(&s);
                        let headers = build_headers(
                            call.method,
                            SignatureTier::Stored,
                            &values,
                            call.cookie.as_str(),
                        );
                        Ok(
                            OutboundRequest {
                                method: call.method,
                                url,
                                headers,
                                body,
                                tier: SignatureTier::Stored,
                            },
                        )
                    } else {
                        Err(RequestError::SigningUnavailable)
                    }
                },
                None => Err(RequestError::SigningUnavailable),
            }
        },
    }
}

/// The per-call facade: resolves credentials, plans the signing, assembles
/// the request and classifies the answer.
#[derive(Debug)]
pub struct XhsApiClient {
    auth: AuthService,
    signature_service: SignatureService,
}

impl XhsApiClient {
    /// The session manager.
    pub closed spec fn session(&self) -> AuthService {
        self.auth
    }

    /// The signing collaborator.
    pub closed spec fn collaborator(&self) -> SignatureService {
        self.signature_service
    }

    /// A client over the given session manager and signing collaborator.
    pub fn new(auth: AuthService, signature_service: SignatureService) -> (r: Self)
        ensures
            r.session() == auth,
            r.collaborator() == signature_service,
    {
        XhsApiClient { auth, signature_service }
    }

    /// The session manager.
    pub fn auth(&self) -> (r: &AuthService)
        ensures
            *r == self.session(),
    {
        &self.auth
    }

    /// The session manager, to be changed: what the caller leaves in it is
    /// the client's session manager afterwards.
    pub fn auth_mut(&mut self) -> (r: &mut AuthService)
        ensures
            *r == old(self).session(),
            final(self).session() == *final(r),
            final(self).collaborator() == old(self).collaborator(),
    {
        &mut self.auth
    }

    /// The signing collaborator.
    pub fn signature_service(&self) -> (r: &SignatureService)
        ensures
            *r == self.collaborator(),
    {
        &self.signature_service
    }

    /// Commits `creds` as the session's credential; see `AuthService::save_credentials`.
    pub fn save_credentials(&mut self, creds: &crate::auth::credentials::UserCredentials)
        ensures
            final(self).session().records() == crate::auth::storage::saved(
                old(self).session().records(),
                creds@,
            ),
            final(self).session().signatures() == old(self).session().signatures(),
            final(self).session().cache() is None,
    {
        self.auth.save_credentials(creds);
    }

    /// Invalidates the session; see `AuthService::invalidate_credentials`.
    pub fn invalidate_credentials(&mut self)
        ensures
            final(self).session().records() == invalidated_all(old(self).session().records()),
            final(self).session().signatures() == old(self).session().signatures(),
            final(self).session().cache() is None,
    {
        self.auth.invalidate_credentials();
    }

    fn session_cookie(&mut self, now: i64) -> (r: Result<String, RequestError>)
        ensures
            match r {
                Ok(cookie) => found(
                    old(self).session().cache(),
                    old(self).session().records(),
                    now as int,
                ) matches Some(c) && cookie@ == cookie_header(c.cookies),
                Err(e) => found(
                    old(self).session().cache(),
                    old(self).session().records(),
                    now as int,
                ) is None && e@ == RequestErrorView::NotAuthenticated,
            },
            looked_up(old(self).session(), final(self).session(), now as int),
    {
        match self.auth.try_get_credentials(now) {
            Some(c) => Ok(c.cookie_string()),
            None => Err(RequestError::NotAuthenticated),
        }
    }

    /// Plans a GET of the endpoint `endpoint_key`. The collaborator is asked
    /// if the key has a known path; a captured signature may stand in, and
    /// then the request goes to the URL that it was captured with.
    pub fn get(&mut self, endpoint_key: &str, now: i64) -> (r: Result<PendingCall, RequestError>)
        ensures
            plan_view(r) == with_session(
                old(self).session(),
                now as int,
                |cookie: Seq<char>| Ok(planned_get(endpoint_key@, cookie)),
            ),
            looked_up(old(self).session(), final(self).session(), now as int),
    {
        match self.session_cookie(now) {
            Ok(cookie) => Ok(
                call_by_key(
                    HttpMethod::Get,
                    endpoint_key,
                    cookie,
                    None,
                    Fallback::CapturedUrl,
                    BodyPolicy::Own,
                ),
            ),
            Err(e) => Err(e),
        }
    }

    /// Plans a GET of the path `uri`. Only the collaborator can sign it.
    pub fn get_algo(&mut self, uri: &str, now: i64) -> (r: Result<PendingCall, RequestError>)
        ensures
            plan_view(r) == with_session(
                old(self).session(),
                now as int,
                |cookie: Seq<char>| Ok(planned_by_path(HttpMethod::Get, uri@, cookie, None)),
            ),
            looked_up(old(self).session(), final(self).session(), now as int),
    {
        match self.session_cookie(now) {
            Ok(cookie) => Ok(call_by_path(HttpMethod::Get, uri, cookie, None)),
            Err(e) => Err(e),
        }
    }

    /// Plans a GET of the path `uri`, which carries a query. Only the
    /// collaborator can sign it.
    pub fn get_with_query(&mut self, uri: &str, now: i64) -> (r: Result<PendingCall, RequestError>)
        ensures
            plan_view(r) == with_session(
                old(self).session(),
                now as int,
                |cookie: Seq<char>| Ok(planned_by_path(HttpMethod::Get, uri@, cookie, None)),
            ),
            looked_up(old(self).session(), final(self).session(), now as int),
    {
        match self.session_cookie(now) {
            Ok(cookie) => Ok(call_by_path(HttpMethod::Get, uri, cookie, None)),
            Err(e) => Err(e),
        }
    }

    /// Plans a GET of the complete URL `url` for the endpoint `endpoint_key`.
    /// The collaborator is asked if the URL names the platform's API host; a
    /// captured signature may stand in.
    pub fn get_with_url(&mut self, endpoint_key: &str, url: &str, now: i64) -> (r: Result<
        PendingCall,
        RequestError,
    >)
        ensures
            plan_view(r) == with_session(
                old(self).session(),
                now as int,
                |cookie: Seq<char>| Ok(planned_get_with_url(endpoint_key@, url@, cookie)),
            ),
            looked_up(old(self).session(), final(self).session(), now as int),
    {
        match self.session_cookie(now) {
            Ok(cookie) => {
                let chars = to_chars(url);
                let host = to_chars(API_DOMAIN);
                let target = sanitize_uri(url);
                let fallback = Fallback::Url(target.clone());
                match find_text(&chars, &host) {
                    Some(at) => {
                        let slash = find_char_from(&chars, at, '/');
                        let part = sub_chars(&chars, slash, chars.len());
                        assert(part@ =~= signed_part(url@, at as int));
                        let uri = string_of(&part);
                        Ok(
                            make_call(
                                HttpMethod::Get,
                                endpoint_key,
                                cookie,
                                Some(uri.as_str()),
                                None,
                                target,
                                fallback,
                                BodyPolicy::Own,
                            ),
                        )
                    },
                    None => Ok(
                        make_call(
                            HttpMethod::Get,
                            endpoint_key,
                            cookie,
                            None,
                            None,
                            target,
                            fallback,
                            BodyPolicy::Own,
                        ),
                    ),
                }
            },
            Err(e) => Err(e),
        }
    }

    /// Plans a POST of `payload`, the endpoint's default body as JSON text,
    /// to the endpoint `endpoint_key`. The collaborator is asked if the key
    /// has a known path; a captured signature may stand in, and then the
    /// request carries the body and goes to the URL that the signature was
    /// captured with.
    pub fn post(&mut self, endpoint_key: &str, payload: String, now: i64) -> (r: Result<
        PendingCall,
        RequestError,
    >)
        ensures
            plan_view(r) == with_session(
                old(self).session(),
                now as int,
                |cookie: Seq<char>| Ok(planned_post(endpoint_key@, payload@, cookie)),
            ),
            looked_up(old(self).session(), final(self).session(), now as int),
    {
        match self.session_cookie(now) {
            Ok(cookie) => {
                let other = followed_by(DEFAULT_POST_PREFIX, endpoint_key);
                Ok(
                    call_by_key(
                        HttpMethod::Post,
                        endpoint_key,
                        cookie,
                        Some(payload),
                        Fallback::CapturedUrlOr(other),
                        BodyPolicy::Captured,
                    ),
                )
            },
            Err(e) => Err(e),
        }
    }

    /// Plans a POST of the caller's `payload`, as JSON text, to the endpoint
    /// `endpoint_key`, which must have a known path. Only the collaborator
    /// can sign it.
    pub fn post_with_payload(&mut self, endpoint_key: &str, payload: String, now: i64) -> (r:
        Result<PendingCall, RequestError>)
        ensures
            plan_view(r) == with_session(
                old(self).session(),
                now as int,
                |cookie: Seq<char>|
                    if endpoint_uri(endpoint_key@) is Some {
                        Ok(planned_post_with_payload(endpoint_key@, payload@, cookie))
                    } else {
                        Err(RequestErrorView::UnsupportedEndpoint { endpoint: endpoint_key@ })
                    },
            ),
            looked_up(old(self).session(), final(self).session(), now as int),
    {
        match self.session_cookie(now) {
            Ok(cookie) => {
                if endpoint_to_uri(endpoint_key).is_some() {
                    Ok(
                        call_by_key(
                            HttpMethod::Post,
                            endpoint_key,
                            cookie,
                            Some(payload),
                            Fallback::Never,
                            BodyPolicy::Own,
                        ),
                    )
                } else {
                    Err(
                        RequestError::UnsupportedEndpoint {
                            endpoint: String::from_str(endpoint_key),
                        },
                    )
                }
            },
            Err(e) => Err(e),
        }
    }

    /// Plans a POST of `payload`, as JSON text, to the path `uri`. Only the
    /// collaborator can sign it.
    pub fn post_algo(&mut self, uri: &str, payload: String, now: i64) -> (r: Result<
        PendingCall,
        RequestError,
    >)
        ensures
            plan_view(r) == with_session(
                old(self).session(),
                now as int,
                |cookie: Seq<char>|
                    Ok(planned_by_path(HttpMethod::Post, uri@, cookie, Some(payload@))),
            ),
            looked_up(old(self).session(), final(self).session(), now as int),
    {
        match self.session_cookie(now) {
            Ok(cookie) => Ok(call_by_path(HttpMethod::Post, uri, cookie, Some(payload))),
            Err(e) => Err(e),
        }
    }

    /// Plans a POST of `body` to the complete URL `url` for the endpoint
    /// `endpoint_key`. Only a captured signature can sign it, and only if it
    /// is bound to this body or to none.
    pub fn post_with_body(&mut self, endpoint_key: &str, url: &str, body: String, now: i64) -> (r:
        Result<PendingCall, RequestError>)
        ensures
            plan_view(r) == with_session(
                old(self).session(),
                now as int,
                |cookie: Seq<char>| Ok(planned_post_with_body(endpoint_key@, url@, body@, cookie)),
            ),
            looked_up(old(self).session(), final(self).session(), now as int),
    {
        match self.session_cookie(now) {
            Ok(cookie) => {
                let target = sanitize_uri(url);
                let fallback = Fallback::Url(target.clone());
                Ok(
                    make_call(
                        HttpMethod::Post,
                        endpoint_key,
                        cookie,
                        None,
                        Some(body),
                        target,
                        fallback,
                        BodyPolicy::Own,
                    ),
                )
            },
            Err(e) => Err(e),
        }
    }

    /// Plans a POST to the complete URL `url` for the endpoint `endpoint_key`
    /// that replays a captured request: only a captured signature can sign
    /// it, and the request carries the body that the signature was captured
    /// with or, when it was captured with none, `body`.
    pub fn post_captured(&mut self, endpoint_key: &str, url: &str, body: String, now: i64) -> (r:
        Result<PendingCall, RequestError>)
        ensures
            plan_view(r) == with_session(
                old(self).session(),
                now as int,
                |cookie: Seq<char>| Ok(planned_post_captured(endpoint_key@, url@, body@, cookie)),
            ),
            looked_up(old(self).session(), final(self).session(), now as int),
    {
        match self.session_cookie(now) {
            Ok(cookie) => {
                let target = sanitize_uri(url);
                let fallback = Fallback::Url(target.clone());
                Ok(
                    make_call(
                        HttpMethod::Post,
                        endpoint_key,
                        cookie,
                        None,
                        Some(body),
                        target,
                        fallback,
                        BodyPolicy::CapturedOrOwn,
                    ),
                )
            },
            Err(e) => Err(e),
        }
    }

    /// The captured signature for `endpoint_key`, or the failure that names the endpoint.
    pub fn get_signature(&self, endpoint_key: &str) -> (r: Result<ApiSignature, RequestError>)
        ensures
            match r {
                Ok(s) => captured(self.session().signatures(), endpoint_key@) == Some(s@),
                Err(e) => captured(self.session().signatures(), endpoint_key@) is None && e@
                    == (RequestErrorView::NoSignatureAvailable { endpoint: endpoint_key@ }),
            },
    {
        match self.auth.get_endpoint_signature(endpoint_key) {
            Some(s) => Ok(s),
            None => Err(
                RequestError::NoSignatureAvailable { endpoint: String::from_str(endpoint_key) },
            ),
        }
    }

    /// Reads the collaborator's answer to a signing request; `None` stands for
    /// no answer. A failure of any kind gives no signature.
    pub fn get_algo_signature(&self, answer: Option<SignResponse>) -> (r: Option<Signature>)
        ensures
            optional_signature(r) == match signature_of_answer(response_view(answer)) {
                Ok(sig) => Some(sig),
                Err(_) => None,
            },
    {
        match self.signature_service.get_signature_from_agent(answer) {
            Ok(sig) => Some(sig),
            Err(_) => None,
        }
    }

    /// The two-tier signing policy: the collaborator's signature if there is
    /// one, else the signature captured for the endpoint `lookup`.
    pub fn resolve_signature(&self, collaborator: Option<Signature>, lookup: Option<&str>) -> (r:
        Result<ResolvedSignature, RequestError>)
        ensures
            resolution_view(r) == resolved_signature(
                optional_signature(collaborator),
                optional_text(lookup),
                self.session().signatures(),
            ),
    {
        match collaborator {
            Some(sig) => Ok(ResolvedSignature::Collaborator(sig)),
            None => match lookup {
                Some(endpoint) => match self.get_signature(endpoint) {
                    Ok(s) => Ok(ResolvedSignature::Stored(s)),
                    Err(e) => Err(e),
                },
                None => Err(RequestError::SigningUnavailable),
            },
        }
    }

    /// Signs and assembles the request of `call`, given what the collaborator
    /// answered to `call.sign`; `None` stands for no answer, and is what to
    /// pass when the collaborator was not asked.
    pub fn sign(&self, call: &PendingCall, answer: Option<SignResponse>) -> (r: Result<
        OutboundRequest,
        RequestError,
    >)
        ensures
            request_view(r) == signed(call@, response_view(answer), self.session().signatures()),
    {
        let collaborator = match &call.sign {
            Some(_) => self.get_algo_signature(answer),
            None => None,
        };
        let lookup: Option<&str> = match &call.fallback {
            Fallback::Never => None,
            _ => Some(call.endpoint.as_str()),
        };
        match self.resolve_signature(collaborator, lookup) {
            Ok(resolved) => assemble(call, resolved),
            Err(e) => Err(e),
        }
    }

    /// Classifies the platform's answer. A success gives the body as it is.
    /// A body that carries the platform's code for an expired session, inside
    /// a status below 400, invalidates the session before the failure is
    /// returned; no other answer touches the session.
    pub fn handle_response(&mut self, status: u16, body: String) -> (r: Result<String, RequestError>)
        ensures
            reply_view(r) == response_outcome(status, body@, application_code(body@)),
            response_class(status, application_code(body@)) == ResponseClass::SessionExpired ==> {
                &&& final(self).session().records() == invalidated_all(
                    old(self).session().records(),
                )
                &&& final(self).session().cache() is None
                &&& final(self).session().signatures() == old(self).session().signatures()
            },
            response_class(status, application_code(body@)) != ResponseClass::SessionExpired
                ==> final(self).session() == old(self).session(),
    {
        let code = read_application_code(body.as_str());
        let class = classify_response(status, code);
        if class == ResponseClass::SessionExpired {
            self.auth.invalidate_credentials();
        }
        response_result(class, status, body)
    }
}

} // verus!
