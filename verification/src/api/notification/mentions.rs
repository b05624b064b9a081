//! Notifications of comments and mentions.

use crate::api::common::{
    looked_up, plan_view, planned_get, with_session, PendingCall, XhsApiClient,
};
use crate::error::RequestError;
use vstd::prelude::*;

verus! {

/// The key of the endpoint of these notifications.
pub const MENTIONS_ENDPOINT: &'static str = "notification_mentions";

/// The answer to a request for the notifications of comments and mentions.
#[derive(Debug, Clone)]
pub struct MentionsResponse {
    pub code: Option<i32>,
    pub success: bool,
    pub msg: String,
    pub data: Option<MentionsData>,
}

/// The notifications, each as the platform sent it.
#[derive(Debug, Clone)]
pub struct MentionsData {
    pub cursor: Option<i64>,
    pub str_cursor: Option<String>,
    pub message_list: Vec<serde_json::Value>,
}

/// Plans the request for the notifications of comments and mentions.
pub fn get_mentions(api: &mut XhsApiClient, now: i64) -> (r: Result<PendingCall, RequestError>)
    ensures
        plan_view(r) == with_session(
            old(api).session(),
            now as int,
            |cookie: Seq<char>| Ok(planned_get(MENTIONS_ENDPOINT@, cookie)),
        ),
        looked_up(old(api).session(), final(api).session(), now as int),
{
    api.get(MENTIONS_ENDPOINT, now)
}

} // verus!
