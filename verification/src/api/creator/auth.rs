//! The QR login of the creator centre.

use crate::api::common::{sanitize_uri, sanitized_uri};
use crate::api::creator::info::{CreatorError, CreatorErrorView};
use crate::api::creator::models::{
    CreateQrCodeResponse, CreateQrCodeResponseView, RawCreatorQrResponse,
};
use crate::api::login::{poll_status, status_of_code, LoginTarget, PollReport, PollReportView};
use crate::cookies::{collect_set_cookies, offered_cookies};
use crate::encoding::{url_encode, url_encoded};
use crate::json::{
    as_integer, as_text, json_integer, json_member, json_parsed, json_text, member, parse,
};
use crate::models::login::{LoginInfo, LoginInfoView};
use crate::text::{clone_text, text_of};
use vstd::prelude::*;
use vstd::string::StringExecFns;

verus! {

/// The URL at which creator QR codes are created and polled.
pub const QRCODE_CREATE_URL: &'static str = "https://customer.xiaohongshu.com/api/cas/customer/web/qr-code";

/// The path of that URL.
pub const QRCODE_URI: &'static str = "/api/cas/customer/web/qr-code";

/// The service that a creator login is for.
pub const CREATOR_SERVICE: &'static str = "https://creator.xiaohongshu.com";

/// The context that guest cookies are fetched for.
pub const CREATOR_TARGET: &'static str = "creator";

/// The query of a poll of the QR code `qr_id`, as the platform's page sends it.
pub open spec fn status_query(qr_id: Seq<char>) -> Seq<char> {
    "service="@ + url_encoded(CREATOR_SERVICE) + "&qr_code_id="@ + qr_id + "&source="@
}

/// The path and query of a poll of the QR code `qr_id`, with only its
/// effective parameters: this is what is signed and requested.
pub open spec fn status_uri(qr_id: Seq<char>) -> Seq<char> {
    sanitized_uri(QRCODE_URI@ + "?"@ + status_query(qr_id))
}

/// The path and query of a poll of the QR code `qr_id`.
pub fn creator_status_uri(qr_id: &str) -> (r: String)
    ensures
        r@ == status_uri(qr_id@),
{
    let mut full = String::from_str(QRCODE_URI);
    full.append("?");
    full.append("service=");
    let service = url_encode(CREATOR_SERVICE);
    full.append(service.as_str());
    full.append("&qr_code_id=");
    full.append(qr_id);
    full.append("&source=");
    assert(full@ =~= QRCODE_URI@ + "?"@ + status_query(qr_id@));
    sanitize_uri(full.as_str())
}

/// The body of the request that creates a creator QR code, as JSON text.
pub const QRCODE_CREATE_PAYLOAD: &'static str = "{\"service\":\"https://creator.xiaohongshu.com\"}";

/// What is answered to the caller for the platform's answer to the creation
/// of a QR code.
pub open spec fn qr_answer(raw: RawCreatorQrResponse) -> CreateQrCodeResponseView {
    CreateQrCodeResponseView {
        success: raw.success,
        qr_url: match raw.data {
            Some(d) => Some(d.url@),
            None => None,
        },
        qr_id: match raw.data {
            Some(d) => Some(d.id@),
            None => None,
        },
        code: match raw.data {
            Some(d) => Some(Seq::empty()),
            None => None,
        },
        error: text_of(raw.msg),
    }
}

/// Reads the platform's answer to the creation of a creator QR code, given
/// its status, its body and what was read from the body, if it could be read.
pub fn create_creator_qrcode(status: u16, body: String, raw: Option<RawCreatorQrResponse>) -> (r:
    Result<CreateQrCodeResponse, CreatorError>)
    ensures
        match r {
            Ok(answer) => raw matches Some(a) && status < 400 && answer@ == qr_answer(a),
            Err(e) => (status >= 400 || raw is None) && e@ == if status >= 400 {
                CreatorErrorView::Api { status, body: body@ }
            } else {
                CreatorErrorView::Parse { body: body@ }
            },
        },
{
    if status >= 400 {
        return Err(CreatorError::Api { status, body });
    }
    match raw {
        None => Err(CreatorError::Parse { body }),
        Some(a) => {
            let (qr_url, qr_id, code) = match &a.data {
                Some(d) => (Some(d.url.clone()), Some(d.id.clone()), Some(String::new())),
                None => (None, None, None),
            };
            Ok(
                CreateQrCodeResponse {
                    success: a.success,
                    qr_url,
                    qr_id,
                    code,
                    error: clone_text(&a.msg),
                },
            )
        },
    }
}

/// The member `name` of the member `data` of a JSON document.
pub open spec fn data_member(doc: serde_json::Value, name: Seq<char>) -> Option<serde_json::Value> {
    match json_member(doc, "data"@) {
        Some(d) => json_member(d, name),
        None => None,
    }
}

/// The status code that a poll's answer carries: the integer at `data.status`.
pub open spec fn creator_status_code(doc: serde_json::Value) -> Option<i64> {
    match data_member(doc, "status"@) {
        Some(s) => json_integer(s),
        None => None,
    }
}

/// The user that a poll's answer names: the text at `data.user_id`.
pub open spec fn creator_user_id(doc: serde_json::Value) -> Option<Seq<char>> {
    match data_member(doc, "user_id"@) {
        Some(s) => json_text(s),
        None => None,
    }
}

/// What a poll of a creator QR code reports, given the status code and the
/// user that the answer carries and the cookies that it offered. A
/// confirmation names its user, `unknown` when the answer names none.
pub open spec fn creator_report(
    code: Option<i64>,
    user_id: Option<Seq<char>>,
    new_cookies: Seq<crate::cookies::CookiePair>,
) -> PollReportView {
    let status = status_of_code(LoginTarget::Creator, code);
    PollReportView {
        status,
        login_info: if status == crate::api::login::PollStatus::Confirmed {
            Some(
                LoginInfoView {
                    session: Seq::empty(),
                    secure_session: Seq::empty(),
                    user_id: match user_id {
                        Some(u) => u,
                        None => crate::api::login::UNKNOWN_USER@,
                    },
                },
            )
        } else {
            None
        },
        new_cookies,
    }
}

/// What a poll of a creator QR code reports.
pub fn creator_poll_report(
    code: Option<i64>,
    user_id: Option<String>,
    new_cookies: crate::cookies::CookieJar,
) -> (r: PollReport)
    ensures
        r@ == creator_report(code, text_of(user_id), new_cookies@),
{
    let status = poll_status(LoginTarget::Creator, code);
    let login_info = if status == crate::api::login::PollStatus::Confirmed {
        Some(
            LoginInfo {
                session: String::new(),
                secure_session: String::new(),
                user_id: match user_id {
                    Some(u) => u,
                    None => String::from_str(crate::api::login::UNKNOWN_USER),
                },
            },
        )
    } else {
        None
    };
    PollReport { status, login_info, new_cookies }
}

/// Reads the platform's answer to a poll of a creator QR code, given its
/// status, its body and the values of its `Set-Cookie` headers. A status of
/// 400 or above and a body that is no JSON document are failures.
pub fn check_creator_qrcode_status(status: u16, body: &str, set_cookies: &Vec<String>) -> (r:
    Result<PollReport, CreatorError>)
    ensures
        match r {
            Ok(report) => json_parsed(body@) matches Some(doc) && status < 400 && report@
                == creator_report(
                creator_status_code(doc),
                creator_user_id(doc),
                offered_cookies(set_cookies@.map_values(|h: String| h@)),
            ),
            Err(e) => (status >= 400 || json_parsed(body@) is None) && e@ == if status >= 400 {
                CreatorErrorView::Api { status, body: body@ }
            } else {
                CreatorErrorView::Parse { body: body@ }
            },
        },
{
    if status >= 400 {
        return Err(CreatorError::Api { status, body: String::from_str(body) });
    }
    match parse(body) {
        None => Err(CreatorError::Parse { body: String::from_str(body) }),
        Some(doc) => {
            let (code, user_id) = match member(&doc, "data") {
                Some(data) => {
                    let code = match member(data, "status") {
                        Some(s) => as_integer(s),
                        None => None,
                    };
                    let user_id = match member(data, "user_id") {
                        Some(u) => as_text(u),
                        None => None,
                    };
                    (code, user_id)
                },
                None => (None, None),
            };
            Ok(creator_poll_report(code, user_id, collect_set_cookies(set_cookies)))
        },
    }
}

} // verus!
