//! Shapes of the login endpoints' requests and answers.

use crate::text::text_of;
use vstd::prelude::*;

verus! {

/// What a QR code holds.
pub struct QrCodeDataView {
    pub qr_id: Seq<char>,
    pub code: Seq<char>,
    pub url: Seq<char>,
    pub multi_flag: i32,
}

/// A QR code issued by the platform.
#[derive(Debug)]
pub struct QrCodeData {
    pub qr_id: String,
    pub code: String,
    pub url: String,
    pub multi_flag: i32,
}

impl View for QrCodeData {
    type V = QrCodeDataView;

    open spec fn view(&self) -> QrCodeDataView {
        QrCodeDataView {
            qr_id: self.qr_id@,
            code: self.code@,
            url: self.url@,
            multi_flag: self.multi_flag,
        }
    }
}

impl Clone for QrCodeData {
    fn clone(&self) -> (r: Self)
        ensures
            r@ == self@,
    {
        QrCodeData {
            qr_id: self.qr_id.clone(),
            code: self.code.clone(),
            url: self.url.clone(),
            multi_flag: self.multi_flag,
        }
    }
}

/// The platform's answer to the creation of a QR code.
#[derive(Debug)]
pub struct QrCodeCreateResponse {
    pub code: i32,
    pub success: bool,
    pub msg: String,
    pub data: QrCodeData,
}

/// What a confirmed login reports.
pub struct LoginInfoView {
    pub session: Seq<char>,
    pub secure_session: Seq<char>,
    pub user_id: Seq<char>,
}

/// What a confirmed login reports: the user and the session's tokens.
#[derive(Debug)]
pub struct LoginInfo {
    pub session: String,
    pub secure_session: String,
    pub user_id: String,
}

impl View for LoginInfo {
    type V = LoginInfoView;

    open spec fn view(&self) -> LoginInfoView {
        LoginInfoView {
            session: self.session@,
            secure_session: self.secure_session@,
            user_id: self.user_id@,
        }
    }
}

impl Clone for LoginInfo {
    fn clone(&self) -> (r: Self)
        ensures
            r@ == self@,
    {
        LoginInfo {
            session: self.session.clone(),
            secure_session: self.secure_session.clone(),
            user_id: self.user_id.clone(),
        }
    }
}

/// The view of an optional login report.
pub open spec fn login_info_view(info: Option<LoginInfo>) -> Option<LoginInfoView> {
    match info {
        Some(i) => Some(i@),
        None => None,
    }
}

/// The status of a QR code: 0 not scanned, 1 scanned and awaiting
/// confirmation, 2 logged in.
#[derive(Debug)]
pub struct QrCodeStatusData {
    pub code_status: i32,
    pub login_info: Option<LoginInfo>,
}

/// The platform's answer to a status poll.
#[derive(Debug)]
pub struct QrCodeStatusResponse {
    pub code: i32,
    pub success: bool,
    pub msg: String,
    pub data: Option<QrCodeStatusData>,
}

/// The first line that a browser login session reports.
#[derive(Debug)]
pub struct QrCodeSessionResponse {
    pub success: bool,
    pub step: Option<String>,
    pub qr_base64: Option<String>,
    pub error: Option<String>,
}

/// How far the capture of signatures has come.
#[derive(Debug)]
pub struct CaptureStatusData {
    pub is_complete: bool,
    pub signatures_captured: Vec<String>,
    pub total_count: usize,
    pub message: String,
}

/// A cookie as shown to the user: its value is masked.
#[derive(Debug)]
pub struct CookieInfo {
    pub name: String,
    pub value: String,
    pub domain: String,
}

/// What a `CookieInfo` holds.
pub struct CookieInfoView {
    pub name: Seq<char>,
    pub value: Seq<char>,
    pub domain: Seq<char>,
}

impl View for CookieInfo {
    type V = CookieInfoView;

    open spec fn view(&self) -> CookieInfoView {
        CookieInfoView { name: self.name@, value: self.value@, domain: self.domain@ }
    }
}

/// What is shown of the current session.
#[derive(Debug)]
pub struct SessionInfoData {
    pub user_id: String,
    pub cookie_count: usize,
    pub cookies: Vec<CookieInfo>,
    pub x_s_common: Option<String>,
    /// When the credential was created, in milliseconds since the Unix epoch.
    pub created_at: i64,
    pub is_valid: bool,
}

/// What a `SessionInfoData` holds.
pub struct SessionInfoDataView {
    pub user_id: Seq<char>,
    pub cookie_count: nat,
    pub cookies: Seq<CookieInfoView>,
    pub x_s_common: Option<Seq<char>>,
    pub created_at: int,
    pub is_valid: bool,
}

impl View for SessionInfoData {
    type V = SessionInfoDataView;

    open spec fn view(&self) -> SessionInfoDataView {
        SessionInfoDataView {
            user_id: self.user_id@,
            cookie_count: self.cookie_count as nat,
            cookies: self.cookies@.map_values(|c: CookieInfo| c@),
            x_s_common: text_of(self.x_s_common),
            created_at: self.created_at as int,
            is_valid: self.is_valid,
        }
    }
}

/// The answer to a request for the current session.
#[derive(Debug)]
pub struct SessionInfoResponse {
    pub code: i32,
    pub success: bool,
    pub msg: String,
    pub data: Option<SessionInfoData>,
}

/// What the guest-bootstrap collaborator answers.
#[derive(Debug)]
pub struct AgentGuestCookiesResponse {
    pub success: bool,
    pub cookies: Option<crate::cookies::CookieJar>,
    pub error: Option<String>,
}

} // verus!
