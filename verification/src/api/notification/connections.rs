//! Notifications of new followers.

use crate::api::common::{
    looked_up, plan_view, planned_get, with_session, PendingCall, XhsApiClient,
};
use crate::error::RequestError;
use vstd::prelude::*;

verus! {

/// The key of the endpoint of these notifications.
pub const CONNECTIONS_ENDPOINT: &'static str = "notification_connections";

/// The answer to a request for the notifications of new followers.
#[derive(Debug, Clone)]
pub struct ConnectionsResponse {
    pub success: bool,
    pub msg: String,
    pub data: Option<ConnectionsData>,
}

/// The notifications, each as the platform sent it.
#[derive(Debug, Clone)]
pub struct ConnectionsData {
    pub message_list: Vec<serde_json::Value>,
}

/// Plans the request for the notifications of new followers.
pub fn get_connections(api: &mut XhsApiClient, now: i64) -> (r: Result<PendingCall, RequestError>)
    ensures
        plan_view(r) == with_session(
            old(api).session(),
            now as int,
            |cookie: Seq<char>| Ok(planned_get(CONNECTIONS_ENDPOINT@, cookie)),
        ),
        looked_up(old(api).session(), final(api).session(), now as int),
{
    api.get(CONNECTIONS_ENDPOINT, now)
}

} // verus!
