//! What the calls to the creator centre share: how they are signed and the
//! headers they carry.

use crate::cookies::CookieJar;
use crate::error::{SignError, SignErrorView};
use crate::signature::{response_view, SignRequest, SignRequestView, SignResponse, SignResponseView};
use crate::text::{or_empty, pair_views, push_pair, text_of, text_or_empty, Pair, TextPair};
use vstd::prelude::*;
use vstd::string::StringExecFns;

verus! {

pub const CREATOR_ORIGIN: &'static str = "https://creator.xiaohongshu.com";

pub const CREATOR_REFERER: &'static str = "https://creator.xiaohongshu.com/";

pub const XHS_USER_AGENT: &'static str =
    "Mozilla/5.0 (Windows NT 10.0; Win64; x64) AppleWebKit/537.36 (KHTML, like Gecko) Chrome/143.0.0.0 Safari/537.36";

/// The headers that every call to the creator centre carries.
pub open spec fn creator_headers() -> Seq<TextPair> {
    seq![
        ("accept"@, "application/json, text/plain, */*"@),
        ("origin"@, CREATOR_ORIGIN@),
        ("referer"@, CREATOR_REFERER@),
        ("user-agent"@, XHS_USER_AGENT@),
        ("xsecappid"@, "ugc"@),
    ]
}

/// The three header values that sign a call to the creator centre.
pub open spec fn creator_signature(answer: Option<SignResponseView>) -> Result<
    (Seq<char>, Seq<char>, Seq<char>),
    SignErrorView,
> {
    match answer {
        None => Err(SignErrorView::Unreachable),
        Some(a) => if a.success {
            Ok((or_empty(a.x_s), or_empty(a.x_t), or_empty(a.x_s_common)))
        } else {
            Err(SignErrorView::Rejected { reason: or_empty(a.error) })
        },
    }
}

/// The request that asks the collaborator to sign a call to the creator
/// centre with the given cookies, method, path and query, and body.
pub fn build_sign_request(cookies: &CookieJar, method: &str, uri: &str, payload: Option<String>) -> (r:
    SignRequest)
    ensures
        r@ == (SignRequestView {
            method: method@,
            uri: uri@,
            cookies: cookies@,
            params: None,
            payload: text_of(payload),
        }),
{
    SignRequest {
        method: String::from_str(method),
        uri: String::from_str(uri),
        cookies: cookies.clone(),
        params: None,
        payload,
    }
}

/// Reads what the collaborator answered to a signing request for the creator
/// centre; `None` stands for no answer. A successful answer gives the values
/// of `x-s`, `x-t` and `x-s-common`, each empty when the answer lacks it.
pub fn sign_request(answer: Option<SignResponse>) -> (r: Result<(String, String, String), SignError>)
    ensures
        match r {
            Ok(t) => creator_signature(response_view(answer)) == Ok::<
                (Seq<char>, Seq<char>, Seq<char>),
                SignErrorView,
            >((t.0@, t.1@, t.2@)),
            Err(e) => creator_signature(response_view(answer)) == Err::<
                (Seq<char>, Seq<char>, Seq<char>),
                SignErrorView,
            >(e@),
        },
{
    match answer {
        None => Err(SignError::Unreachable),
        Some(a) => {
            if a.success {
                Ok((text_or_empty(&a.x_s), text_or_empty(&a.x_t), text_or_empty(&a.x_s_common)))
            } else {
                Err(SignError::Rejected { reason: text_or_empty(&a.error) })
            }
        },
    }
}

/// The headers that every call to the creator centre carries.
pub fn build_creator_headers() -> (r: Vec<Pair>)
    ensures
        pair_views(r@) == creator_headers(),
{
    let mut h: Vec<Pair> = Vec::new();
    assert(pair_views(h@) =~= Seq::<TextPair>::empty());
    push_pair(&mut h, "accept", "application/json, text/plain, */*");
    push_pair(&mut h, "origin", CREATOR_ORIGIN);
    push_pair(&mut h, "referer", CREATOR_REFERER);
    push_pair(&mut h, "user-agent", XHS_USER_AGENT);
    push_pair(&mut h, "xsecappid", "ugc");
    assert(pair_views(h@) =~= creator_headers());
    h
}

/// The headers of a signed call to the creator centre: the common ones, the
/// content type if the call has a body, the three signature headers and the
/// cookie header.
pub open spec fn signed_creator_headers(
    with_body: bool,
    signature: (Seq<char>, Seq<char>, Seq<char>),
    cookie: Seq<char>,
) -> Seq<TextPair> {
    creator_headers() + (if with_body {
        seq![("content-type"@, "application/json;charset=UTF-8"@)]
    } else {
        Seq::<TextPair>::empty()
    }) + seq![
        ("x-s"@, signature.0),
        ("x-t"@, signature.1),
        ("x-s-common"@, signature.2),
        ("cookie"@, cookie),
    ]
}

/// The headers of a signed call to the creator centre.
pub fn build_signed_headers(
    with_body: bool,
    signature: &(String, String, String),
    cookies: &CookieJar,
) -> (r: Vec<Pair>)
    ensures
        pair_views(r@) == signed_creator_headers(
            with_body,
            (signature.0@, signature.1@, signature.2@),
            crate::cookies::cookie_header(cookies@),
        ),
{
    let mut h = build_creator_headers();
    if with_body {
        push_pair(&mut h, "content-type", "application/json;charset=UTF-8");
    }
    push_pair(&mut h, "x-s", signature.0.as_str());
    push_pair(&mut h, "x-t", signature.1.as_str());
    push_pair(&mut h, "x-s-common", signature.2.as_str());
    let cookie = crate::cookies::cookies_to_string(cookies);
    push_pair(&mut h, "cookie", cookie.as_str());
    assert(pair_views(h@) =~= signed_creator_headers(
        with_body,
        (signature.0@, signature.1@, signature.2@),
        crate::cookies::cookie_header(cookies@),
    ));
    h
}

} // verus!
