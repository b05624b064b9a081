//! The creator centre's user and home page.

use crate::api::creator::models::{CreatorEnvelope, CreatorHomeInfo, CreatorUserInfo};
use crate::text::{i64_to_decimal, or_empty, signed_decimal, text_of, text_or_empty};
use vstd::prelude::*;
use vstd::string::StringExecFns;

verus! {

pub const CREATOR_USER_INFO_URI: &'static str = "/api/galaxy/user/info";

pub const CREATOR_USER_INFO_URL: &'static str = "https://creator.xiaohongshu.com/api/galaxy/user/info";

pub const CREATOR_HOME_INFO_URI: &'static str = "/api/galaxy/creator/home/personal_info";

pub const CREATOR_HOME_INFO_URL: &'static str =
    "https://creator.xiaohongshu.com/api/galaxy/creator/home/personal_info";

/// Why a call to the creator centre gave no data.
#[derive(Debug)]
pub enum CreatorError {
    /// The status was 400 or above.
    Api { status: u16, body: String },
    /// The body could not be read.
    Parse { body: String },
    /// The answer's code was not 0.
    Failed { code: i32, msg: String },
    /// The answer held no data.
    NoData,
}

/// What a `CreatorError` holds.
pub enum CreatorErrorView {
    Api { status: u16, body: Seq<char> },
    Parse { body: Seq<char> },
    Failed { code: i32, msg: Seq<char> },
    NoData,
}

impl View for CreatorError {
    type V = CreatorErrorView;

    open spec fn view(&self) -> CreatorErrorView {
        match self {
            CreatorError::Api { status, body } => CreatorErrorView::Api {
                status: *status,
                body: body@,
            },
            CreatorError::Parse { body } => CreatorErrorView::Parse { body: body@ },
            CreatorError::Failed { code, msg } => CreatorErrorView::Failed {
                code: *code,
                msg: msg@,
            },
            CreatorError::NoData => CreatorErrorView::NoData,
        }
    }
}

impl CreatorErrorView {
    /// The error in words.
    pub open spec fn message(self) -> Seq<char> {
        match self {
            CreatorErrorView::Api { status, body } => "API Error ("@ + signed_decimal(
                status as int,
            ) + "): "@ + body,
            CreatorErrorView::Parse { body } => "Parse error - Body: "@ + body,
            CreatorErrorView::Failed { code, msg } => "API Failed (code "@ + signed_decimal(
                code as int,
            ) + "): "@ + msg,
            CreatorErrorView::NoData => "No data returned"@,
        }
    }
}

impl CreatorError {
    /// The error in words.
    pub fn message(&self) -> (r: String)
        ensures
            r@ == self@.message(),
    {
        match self {
            CreatorError::Api { status, body } => {
                let mut out = String::from_str("API Error (");
                out.append(i64_to_decimal(*status as i64).as_str());
                out.append("): ");
                out.append(body.as_str());
                out
            },
            CreatorError::Parse { body } => {
                let mut out = String::from_str("Parse error - Body: ");
                out.append(body.as_str());
                out
            },
            CreatorError::Failed { code, msg } => {
                let mut out = String::from_str("API Failed (code ");
                out.append(i64_to_decimal(*code as i64).as_str());
                out.append("): ");
                out.append(msg.as_str());
                out
            },
            CreatorError::NoData => String::from_str("No data returned"),
        }
    }
}

/// The data or the failure, the failure by its view.
pub open spec fn data_view<T>(r: Result<T, CreatorError>) -> Result<T, CreatorErrorView> {
    match r {
        Ok(data) => Ok(data),
        Err(e) => Err(e@),
    }
}

/// The data of an answer of the creator centre. A status of 400 or above is a
/// failure; then a body that could not be read; then a code other than 0,
/// with the answer's message; then the lack of data.
pub open spec fn opened<T>(status: u16, body: Seq<char>, envelope: Option<CreatorEnvelope<T>>) -> Result<
    T,
    CreatorErrorView,
> {
    if status >= 400 {
        Err(CreatorErrorView::Api { status, body })
    } else {
        match envelope {
            None => Err(CreatorErrorView::Parse { body }),
            Some(e) => if e.code != 0 {
                Err(CreatorErrorView::Failed { code: e.code, msg: or_empty(text_of(e.msg)) })
            } else {
                match e.data {
                    Some(data) => Ok(data),
                    None => Err(CreatorErrorView::NoData),
                }
            },
        }
    }
}

/// The data of an answer of the creator centre, given its status, its body and
/// the envelope read from the body, if it could be read.
pub fn open_envelope<T>(status: u16, body: String, envelope: Option<CreatorEnvelope<T>>) -> (r:
    Result<T, CreatorError>)
    ensures
        data_view(r) == opened(status, body@, envelope),
{
    if status >= 400 {
        return Err(CreatorError::Api { status, body });
    }
    match envelope {
        None => Err(CreatorError::Parse { body }),
        Some(e) => {
            if e.code != 0 {
                Err(CreatorError::Failed { code: e.code, msg: text_or_empty(&e.msg) })
            } else {
                match e.data {
                    Some(data) => Ok(data),
                    None => Err(CreatorError::NoData),
                }
            }
        },
    }
}

/// The creator centre's user, from the answer to a request for it.
pub fn get_creator_user_info(
    status: u16,
    body: String,
    envelope: Option<CreatorEnvelope<CreatorUserInfo>>,
) -> (r: Result<CreatorUserInfo, CreatorError>)
    ensures
        data_view(r) == opened(status, body@, envelope),
{
    open_envelope(status, body, envelope)
}

/// The creator centre's home page, from the answer to a request for it.
pub fn get_creator_home_info(
    status: u16,
    body: String,
    envelope: Option<CreatorEnvelope<CreatorHomeInfo>>,
) -> (r: Result<CreatorHomeInfo, CreatorError>)
    ensures
        data_view(r) == opened(status, body@, envelope),
{
    open_envelope(status, body, envelope)
}

} // verus!
