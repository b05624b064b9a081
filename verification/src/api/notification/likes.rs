//! Notifications of likes and collections.

use crate::api::common::{
    looked_up, plan_view, planned_get, with_session, PendingCall, XhsApiClient,
};
use crate::error::RequestError;
use vstd::prelude::*;

verus! {

/// The key of the endpoint of these notifications.
pub const LIKES_ENDPOINT: &'static str = "notification_likes";

/// The answer to a request for the notifications of likes and collections.
#[derive(Debug, Clone)]
pub struct LikesResponse {
    pub success: bool,
    pub msg: String,
    pub data: Option<LikesData>,
}

/// The notifications, each as the platform sent it.
#[derive(Debug, Clone)]
pub struct LikesData {
    pub message_list: Vec<serde_json::Value>,
    pub has_more: bool,
    pub cursor: i64,
}

/// Plans the request for the notifications of likes and collections.
pub fn get_likes(api: &mut XhsApiClient, now: i64) -> (r: Result<PendingCall, RequestError>)
    ensures
        plan_view(r) == with_session(
            old(api).session(),
            now as int,
            |cookie: Seq<char>| Ok(planned_get(LIKES_ENDPOINT@, cookie)),
        ),
        looked_up(old(api).session(), final(api).session(), now as int),
{
    api.get(LIKES_ENDPOINT, now)
}

} // verus!
