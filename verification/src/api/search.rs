//! The search endpoints: their addresses and the ids that their requests carry.

use crate::api::common::{
    looked_up, plan_view, planned_get, planned_get_with_url, with_session, PendingCall,
    XhsApiClient,
};
use crate::clock::now_millis;
use crate::encoding::{url_encode, url_encoded};
use crate::error::RequestError;
use crate::models::search::{
    SearchNotesRequest, SearchNotesResponse, SearchOneboxRequest, SearchUserRequest,
    SearchUserRequestBody,
};
use crate::random::{random_alphanumeric, random_below};
use crate::text::{
    ascii_lower, decimal, has_prefix, i64_to_decimal, is_ascii_alphanumeric, is_lower_alphanumeric,
    signed_decimal, starts_with, string_of, text_of, to_ascii_lower, to_chars, u128_to_decimal,
};
use vstd::prelude::*;
use vstd::string::StringExecFns;

verus! {

/// The key of the endpoint of the trending queries.
pub const TRENDING_ENDPOINT: &'static str = "search_trending";

/// The key under which completions are signed.
pub const RECOMMEND_ENDPOINT: &'static str = "search_recommend";

/// The key under which the filters of a search are signed.
pub const FILTER_ENDPOINT: &'static str = "search_filter";

pub const SEARCH_RECOMMEND_URL: &'static str =
    "https://edith.xiaohongshu.com/api/sns/web/v1/search/recommend?keyword=";

pub const SEARCH_FILTER_URL: &'static str =
    "https://edith.xiaohongshu.com/api/sns/web/v1/search/filter?keyword=";

pub const SEARCH_NOTES_PATH: &'static str = "/api/sns/web/v1/search/notes";

pub const SEARCH_ONEBOX_PATH: &'static str = "/api/sns/web/v1/search/onebox";

pub const SEARCH_USER_PATH: &'static str = "/api/sns/web/v1/search/usersearch";

/// The smallest number that a request id begins with.
pub const REQUEST_PREFIX_MIN: u64 = 1_000_000_000;

/// The bound below which the numbers lie that a request id begins with.
pub const REQUEST_PREFIX_BOUND: u64 = 10_000_000_000;

/// The address of the completions of `keyword`.
pub fn recommend_search_url(keyword: &str) -> (r: String)
    ensures
        r@ == SEARCH_RECOMMEND_URL@ + url_encoded(keyword),
{
    let mut out = String::from_str(SEARCH_RECOMMEND_URL);
    let encoded = url_encode(keyword);
    out.append(encoded.as_str());
    out
}

/// The address of the filters of the search `search_id` for `keyword`.
pub fn search_filter_url(keyword: &str, search_id: &str) -> (r: String)
    ensures
        r@ == SEARCH_FILTER_URL@ + url_encoded(keyword) + "&search_id="@ + url_encoded(search_id),
{
    let mut out = String::from_str(SEARCH_FILTER_URL);
    let keyword_encoded = url_encode(keyword);
    out.append(keyword_encoded.as_str());
    out.append("&search_id=");
    let id_encoded = url_encode(search_id);
    out.append(id_encoded.as_str());
    out
}

/// Plans the request for the trending queries.
pub fn query_trending(api: &mut XhsApiClient, now: i64) -> (r: Result<PendingCall, RequestError>)
    ensures
        plan_view(r) == with_session(
            old(api).session(),
            now as int,
            |cookie: Seq<char>| Ok(planned_get(TRENDING_ENDPOINT@, cookie)),
        ),
        looked_up(old(api).session(), final(api).session(), now as int),
{
    api.get(TRENDING_ENDPOINT, now)
}

/// Plans the request for the completions of `keyword`.
pub fn recommend_search(api: &mut XhsApiClient, keyword: &str, now: i64) -> (r: Result<
    PendingCall,
    RequestError,
>)
    ensures
        plan_view(r) == with_session(
            old(api).session(),
            now as int,
            |cookie: Seq<char>|
                Ok(
                    planned_get_with_url(
                        RECOMMEND_ENDPOINT@,
                        SEARCH_RECOMMEND_URL@ + url_encoded(keyword),
                        cookie,
                    ),
                ),
        ),
        looked_up(old(api).session(), final(api).session(), now as int),
{
    let url = recommend_search_url(keyword);
    api.get_with_url(RECOMMEND_ENDPOINT, url.as_str(), now)
}

/// Plans the request for the filters of the search `search_id` for `keyword`.
pub fn search_filter(api: &mut XhsApiClient, keyword: &str, search_id: &str, now: i64) -> (r:
    Result<PendingCall, RequestError>)
    ensures
        plan_view(r) == with_session(
            old(api).session(),
            now as int,
            |cookie: Seq<char>|
                Ok(
                    planned_get_with_url(
                        FILTER_ENDPOINT@,
                        SEARCH_FILTER_URL@ + url_encoded(keyword) + "&search_id="@ + url_encoded(
                            search_id,
                        ),
                        cookie,
                    ),
                ),
        ),
        looked_up(old(api).session(), final(api).session(), now as int),
{
    let url = search_filter_url(keyword, search_id);
    api.get_with_url(FILTER_ENDPOINT, url.as_str(), now)
}

/// Whether `s` is made of ASCII digits and lower-case letters.
pub open spec fn all_lower_alphanumeric(s: Seq<char>) -> bool {
    forall|i: int| 0 <= i < s.len() ==> is_lower_alphanumeric(#[trigger] s[i])
}

/// Whether `id` has the form of the id of a search for notes: 22 digits or
/// lower-case letters, `@`, and 22 more.
pub open spec fn is_search_id(id: Seq<char>) -> bool {
    &&& id.len() == 45
    &&& id[22] == '@'
    &&& all_lower_alphanumeric(id.take(22))
    &&& all_lower_alphanumeric(id.skip(23))
}

/// Whether `id` has the form of a short search id: 21 digits or lower-case letters.
pub open spec fn is_simple_search_id(id: Seq<char>) -> bool {
    id.len() == 21 && all_lower_alphanumeric(id)
}

/// The request id for the number `prefix` and the instant `now`.
pub open spec fn request_id(prefix: u64, now: i64) -> Seq<char> {
    decimal(prefix as nat) + seq!['-'] + signed_decimal(now as int)
}

/// Whether `id` has the form of a request id: a number of ten digits, `-`,
/// and an instant in milliseconds.
pub open spec fn is_request_id(id: Seq<char>) -> bool {
    exists|prefix: u64, now: i64|
        REQUEST_PREFIX_MIN <= prefix < REQUEST_PREFIX_BOUND && id == #[trigger] request_id(
            prefix,
            now,
        )
}

fn random_lower(count: usize) -> (r: Vec<char>)
    ensures
        r@.len() == count,
        all_lower_alphanumeric(r@),
{
    let drawn = random_alphanumeric(count);
    let lower = to_ascii_lower(&drawn);
    assert forall|i: int| 0 <= i < lower@.len() implies is_lower_alphanumeric(
        #[trigger] lower@[i],
    ) by {
        assert(is_ascii_alphanumeric(drawn@[i]));
        assert(lower@[i] == ascii_lower(drawn@[i]));
    }
    lower
}

/// A new id for a search for notes.
pub fn generate_search_id() -> (r: String)
    ensures
        is_search_id(r@),
{
    let first = random_lower(22);
    let second = random_lower(22);
    let mut out = string_of(&first);
    out.push('@');
    let rest = string_of(&second);
    out.append(rest.as_str());
    proof {
        assert(out@ =~= first@ + seq!['@'] + second@);
        assert(out@.take(22) =~= first@);
        assert(out@.skip(23) =~= second@);
    }
    out
}

/// A new short search id.
pub fn generate_simple_search_id() -> (r: String)
    ensures
        is_simple_search_id(r@),
{
    let chars = random_lower(21);
    string_of(&chars)
}

/// The request id for the number `prefix` and the instant `now`.
pub fn request_id_of(prefix: u64, now: i64) -> (r: String)
    ensures
        r@ == request_id(prefix, now),
{
    let digits = u128_to_decimal(prefix as u128);
    let mut out = string_of(&digits);
    out.push('-');
    let instant = i64_to_decimal(now);
    out.append(instant.as_str());
    out
}

/// A new request id: a random number of ten digits, `-`, and the current instant.
pub fn generate_request_id() -> (r: String)
    ensures
        is_request_id(r@),
{
    let now = now_millis();
    let prefix = random_below(REQUEST_PREFIX_MIN, REQUEST_PREFIX_BOUND);
    let out = request_id_of(prefix, now);
    assert(out@ == request_id(prefix, now));
    out
}

/// Whether a search for notes has to be given a new id: it has none, or an empty one.
pub open spec fn lacks_search_id(id: Option<Seq<char>>) -> bool {
    match id {
        Some(s) => s.len() == 0,
        None => true,
    }
}

/// Completes a search for notes: a search without an id, or with an empty
/// one, is given a new id. Nothing else changes.
pub fn search_notes(req: SearchNotesRequest) -> (r: SearchNotesRequest)
    ensures
        r.search_id is Some,
        if lacks_search_id(text_of(req.search_id)) {
            is_search_id(r.search_id->0@)
        } else {
            r.search_id == req.search_id
        },
        r.keyword == req.keyword,
        r.page == req.page,
        r.page_size == req.page_size,
        r.sort == req.sort,
        r.note_type == req.note_type,
        r.ext_flags == req.ext_flags,
        r.filters == req.filters,
        r.geo == req.geo,
        r.image_formats == req.image_formats,
{
    let mut req = req;
    let lacks = match &req.search_id {
        Some(s) => s.as_str().is_empty(),
        None => true,
    };
    if lacks {
        req.search_id = Some(generate_search_id());
    }
    req
}

/// Records in the answer to a search for notes the id under which the search
/// was made, for later requests to refer to it. An answer without data stays
/// as it is.
pub fn attach_search_id(response: SearchNotesResponse, search_id: Option<String>) -> (r:
    SearchNotesResponse)
    ensures
        r.code == response.code,
        r.success == response.success,
        r.msg == response.msg,
        match response.data {
            Some(d) => r.data matches Some(n) && n.search_id == search_id && n.has_more
                == d.has_more && n.items == d.items,
            None => r.data is None,
        },
{
    let mut response = response;
    match response.data {
        Some(d) => {
            let mut d = d;
            d.search_id = search_id;
            response.data = Some(d);
        },
        None => {},
    }
    response
}

/// Completes a request for the summary box of a search: an empty search id
/// is replaced by a new short one, a missing request id by a new one.
/// Nothing else changes.
pub fn search_onebox(req: SearchOneboxRequest) -> (r: SearchOneboxRequest)
    ensures
        if req.search_id@.len() == 0 {
            is_simple_search_id(r.search_id@)
        } else {
            r.search_id == req.search_id
        },
        r.request_id is Some,
        match req.request_id {
            Some(id) => r.request_id == Some(id),
            None => is_request_id(r.request_id->0@),
        },
        r.keyword == req.keyword,
        r.biz_type == req.biz_type,
{
    let mut req = req;
    if req.search_id.as_str().is_empty() {
        req.search_id = generate_simple_search_id();
    }
    if req.request_id.is_none() {
        req.request_id = Some(generate_request_id());
    }
    req
}

/// Whether a search for users has to be given a new id: it has none, or one
/// that begins with `demo`.
pub open spec fn lacks_user_search_id(id: Option<Seq<char>>) -> bool {
    match id {
        Some(s) => starts_with(s, "demo"@),
        None => true,
    }
}

/// Completes a search for users and wraps it as the body of its request: a
/// search without an id, or with a demo id, is given a new short id, a
/// missing request id is replaced by a new one. Nothing else changes.
pub fn search_user(req: SearchUserRequest) -> (r: SearchUserRequestBody)
    ensures
        r.search_user_request.search_id is Some,
        if lacks_user_search_id(text_of(req.search_id)) {
            is_simple_search_id(r.search_user_request.search_id->0@)
        } else {
            r.search_user_request.search_id == req.search_id
        },
        r.search_user_request.request_id is Some,
        match req.request_id {
            Some(id) => r.search_user_request.request_id == Some(id),
            None => is_request_id(r.search_user_request.request_id->0@),
        },
        r.search_user_request.keyword == req.keyword,
        r.search_user_request.page == req.page,
        r.search_user_request.page_size == req.page_size,
        r.search_user_request.biz_type == req.biz_type,
{
    let mut req = req;
    let lacks = match &req.search_id {
        Some(s) => has_prefix(&to_chars(s.as_str()), &to_chars("demo")),
        None => true,
    };
    if lacks {
        req.search_id = Some(generate_simple_search_id());
    }
    if req.request_id.is_none() {
        req.request_id = Some(generate_request_id());
    }
    SearchUserRequestBody { search_user_request: req }
}

} // verus!
