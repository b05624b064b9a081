//! The feed of one channel, replayed with the signature captured for it.

use crate::api::common::{
    headers_with, looked_up, plan_view, planned_post_captured, request_view, signed, with_header,
    with_session, OutboundRequest, OutboundRequestView, PendingCall, XhsApiClient,
};
use crate::api::feed::recommend::HOMEFEED_URL;
use crate::error::{RequestError, RequestErrorView};
use crate::models::feed::recommend::{feed_endpoint_key, FEED_ENDPOINT_PREFIX, RECOMMEND_ENDPOINT};
use vstd::prelude::*;

verus! {

/// The page that requests for a channel's feed refer to.
pub const EXPLORE_REFERER: &'static str = "https://www.xiaohongshu.com/explore";

/// The key of the endpoint that serves the feed of `category`.
pub open spec fn feed_key(category: Seq<char>) -> Seq<char> {
    if category == "recommend"@ {
        RECOMMEND_ENDPOINT@
    } else {
        FEED_ENDPOINT_PREFIX@ + category
    }
}

/// Plans the request for the feed of the channel `category`. The signature
/// captured for the channel signs it; the request carries the body that the
/// signature was captured with or, when it was captured with none,
/// `request`, the caller's request as JSON text.
pub fn get_feed_internal(api: &mut XhsApiClient, category: &str, request: String, now: i64) -> (r:
    Result<PendingCall, RequestError>)
    ensures
        plan_view(r) == with_session(
            old(api).session(),
            now as int,
            |cookie: Seq<char>|
                Ok(planned_post_captured(feed_key(category@), HOMEFEED_URL@, request@, cookie)),
        ),
        looked_up(old(api).session(), final(api).session(), now as int),
{
    let key = feed_endpoint_key(category);
    api.post_captured(key.as_str(), HOMEFEED_URL, request, now)
}

/// The request for a channel's feed, which refers to the explore page.
pub open spec fn channel_request(request: OutboundRequestView) -> OutboundRequestView {
    OutboundRequestView {
        headers: headers_with(request.headers, "referer"@, EXPLORE_REFERER@),
        ..request
    }
}

/// Signs and assembles the request for a channel's feed that
/// `get_feed_internal` planned.
pub fn get_category_feed(api: &XhsApiClient, call: &PendingCall) -> (r: Result<
    OutboundRequest,
    RequestError,
>)
    ensures
        request_view(r) == match signed(call@, None, api.session().signatures()) {
            Ok(request) => Ok::<OutboundRequestView, RequestErrorView>(channel_request(request)),
            Err(e) => Err(e),
        },
{
    match api.sign(call, None) {
        Ok(request) => Ok(with_header(request, "referer", EXPLORE_REFERER)),
        Err(e) => Err(e),
    }
}

} // verus!
