//! The current user.

use crate::api::common::{looked_up, planned_get, PendingCall, XhsApiClient};
use crate::auth::service::found;
use crate::cookies::cookie_header;

use crate::models::user::{guest_user, NOT_LOGGED_IN_CODE, NOT_LOGGED_IN_MESSAGE, UserMeResponse};
use vstd::prelude::*;

verus! {

/// The key of the endpoint of the current user.
pub const USER_ME_ENDPOINT: &'static str = "user_me";

/// What is to be done for a request for the current user.
#[derive(Debug)]
pub enum CurrentUser {
    /// Nobody is logged in: this is the answer.
    Answer(UserMeResponse),
    /// The platform is to be asked.
    Call(PendingCall),
}

/// Plans the request for the current user. When nobody is logged in the
/// platform is not asked, and the answer names a guest.
pub fn get_current_user(api: &mut XhsApiClient, now: i64) -> (r: CurrentUser)
    ensures
        match found(old(api).session().cache(), old(api).session().records(), now as int) {
            Some(c) => r matches CurrentUser::Call(call) && call@ == planned_get(
                USER_ME_ENDPOINT@,
                cookie_header(c.cookies),
            ),
            None => r matches CurrentUser::Answer(answer) && answer.code == NOT_LOGGED_IN_CODE
                && !answer.success && answer.msg@ == NOT_LOGGED_IN_MESSAGE@ && answer.data@
                == guest_user(),
        },
        looked_up(old(api).session(), final(api).session(), now as int),
{
    match api.get(USER_ME_ENDPOINT, now) {
        Ok(call) => CurrentUser::Call(call),
        Err(_) => CurrentUser::Answer(UserMeResponse::not_logged_in()),
    }
}

} // verus!
