//! Shapes of the user endpoints' answers.

use crate::text::text_of;
use vstd::prelude::*;
use vstd::string::StringExecFns;

verus! {

/// The code of the answer given in place of the platform's when nobody is logged in.
pub const NOT_LOGGED_IN_CODE: i32 = -1;

/// The message of that answer.
pub const NOT_LOGGED_IN_MESSAGE: &'static str = "Not logged in";

/// What a user record holds.
pub struct UserInfoView {
    pub user_id: Seq<char>,
    pub red_id: Option<Seq<char>>,
    pub nickname: Option<Seq<char>>,
    pub desc: Option<Seq<char>>,
    pub gender: Option<i32>,
    pub guest: bool,
    pub images: Option<Seq<char>>,
    pub imageb: Option<Seq<char>>,
}

/// What the platform tells of a user.
#[derive(Debug, Clone)]
pub struct UserInfo {
    pub user_id: String,
    pub red_id: Option<String>,
    pub nickname: Option<String>,
    pub desc: Option<String>,
    pub gender: Option<i32>,
    pub guest: bool,
    pub images: Option<String>,
    pub imageb: Option<String>,
}

impl View for UserInfo {
    type V = UserInfoView;

    open spec fn view(&self) -> UserInfoView {
        UserInfoView {
            user_id: self.user_id@,
            red_id: text_of(self.red_id),
            nickname: text_of(self.nickname),
            desc: text_of(self.desc),
            gender: self.gender,
            guest: self.guest,
            images: text_of(self.images),
            imageb: text_of(self.imageb),
        }
    }
}

/// The answer to a request for the current user.
#[derive(Debug, Clone)]
pub struct UserMeResponse {
    pub code: i32,
    pub success: bool,
    pub msg: String,
    pub data: UserInfo,
}

/// The guest that stands for the user when nobody is logged in.
pub open spec fn guest_user() -> UserInfoView {
    UserInfoView {
        user_id: Seq::empty(),
        red_id: None,
        nickname: Some(Seq::empty()),
        desc: Some(Seq::empty()),
        gender: Some(0),
        guest: true,
        images: None,
        imageb: None,
    }
}

impl UserMeResponse {
    /// The answer given in place of the platform's when nobody is logged in:
    /// a failure that names a guest.
    pub fn not_logged_in() -> (r: Self)
        ensures
            r.code == NOT_LOGGED_IN_CODE,
            !r.success,
            r.msg@ == NOT_LOGGED_IN_MESSAGE@,
            r.data@ == guest_user(),
    {
        UserMeResponse {
            code: NOT_LOGGED_IN_CODE,
            success: false,
            msg: String::from_str(NOT_LOGGED_IN_MESSAGE),
            data: UserInfo {
                user_id: String::new(),
                red_id: None,
                nickname: Some(String::new()),
                desc: Some(String::new()),
                gender: Some(0),
                guest: true,
                images: None,
                imageb: None,
            },
        }
    }
}

} // verus!
