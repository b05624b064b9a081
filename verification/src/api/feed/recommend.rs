//! The recommended feed, replayed with the signature captured for it.

use crate::api::common::{
    looked_up, plan_view, planned_post_captured, with_session, PendingCall, XhsApiClient,
};
use crate::error::RequestError;
use crate::models::feed::recommend::RECOMMEND_ENDPOINT;
use vstd::prelude::*;

verus! {

/// The address of the home feed.
pub const HOMEFEED_URL: &'static str = "https://edith.xiaohongshu.com/api/sns/web/v1/homefeed";

/// Plans the request for the recommended feed. The signature captured for
/// the feed signs it; the request carries the body that the signature was
/// captured with or, when it was captured with none, `request`, the caller's
/// request as JSON text.
pub fn get_homefeed_recommend(api: &mut XhsApiClient, request: String, now: i64) -> (r: Result<
    PendingCall,
    RequestError,
>)
    ensures
        plan_view(r) == with_session(
            old(api).session(),
            now as int,
            |cookie: Seq<char>|
                Ok(planned_post_captured(RECOMMEND_ENDPOINT@, HOMEFEED_URL@, request@, cookie)),
        ),
        looked_up(old(api).session(), final(api).session(), now as int),
{
    api.post_captured(RECOMMEND_ENDPOINT, HOMEFEED_URL, request, now)
}

} // verus!
