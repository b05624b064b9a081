//! Shapes of the creator centre's requests and answers.

use crate::cookies::CookieJar;
use vstd::prelude::*;

verus! {

/// The body of a request for a creator QR code.
#[derive(Debug)]
pub struct CreatorQrcodeCreateRequest {
    /// The guest cookies of the creator centre.
    pub cookies: CookieJar,
}

/// The body of a poll of a creator QR code.
#[derive(Debug)]
pub struct CreatorQrcodeStatusRequest {
    /// The id of the QR code.
    pub qr_id: String,
    /// The guest cookies of the creator centre.
    pub cookies: CookieJar,
}

/// What the creator centre tells of its user.
#[derive(Debug, Clone)]
pub struct CreatorUserInfo {
    pub user_id: Option<String>,
    pub user_name: Option<String>,
    pub user_avatar: Option<String>,
    pub role: Option<String>,
    pub permissions: Option<Vec<String>>,
}

/// What the creator centre shows on its user's home page.
#[derive(Debug, Clone)]
pub struct CreatorHomeInfo {
    pub name: Option<String>,
    pub avatar: Option<String>,
    pub follow_count: Option<i32>,
    pub fans_count: Option<i32>,
    pub faved_count: Option<i32>,
    pub red_num: Option<String>,
    pub personal_desc: Option<String>,
    pub grow_info: Option<CreatorGrowInfo>,
}

/// How far a creator has grown.
#[derive(Debug, Clone)]
pub struct CreatorGrowInfo {
    pub level: Option<i32>,
    pub fans_count: Option<i32>,
    pub max_fans_count: Option<i32>,
}

/// The envelope of the creator centre's answers: a code, which is 0 for a
/// success, a message and the data.
#[derive(Debug)]
pub struct CreatorEnvelope<T> {
    pub code: i32,
    pub msg: Option<String>,
    pub data: Option<T>,
}

/// The creator centre's answer to the creation of a QR code, as it comes.
#[derive(Debug)]
pub struct RawCreatorQrResponse {
    pub success: bool,
    pub code: i32,
    pub msg: Option<String>,
    pub data: Option<RawCreatorQrData>,
}

/// The QR code in that answer.
#[derive(Debug)]
pub struct RawCreatorQrData {
    pub url: String,
    pub id: String,
}

/// What is answered to the caller who asked for a QR code.
#[derive(Debug)]
pub struct CreateQrCodeResponse {
    pub success: bool,
    pub qr_url: Option<String>,
    pub qr_id: Option<String>,
    pub code: Option<String>,
    pub error: Option<String>,
}

/// What a `CreateQrCodeResponse` holds.
pub struct CreateQrCodeResponseView {
    pub success: bool,
    pub qr_url: Option<Seq<char>>,
    pub qr_id: Option<Seq<char>>,
    pub code: Option<Seq<char>>,
    pub error: Option<Seq<char>>,
}

impl View for CreateQrCodeResponse {
    type V = CreateQrCodeResponseView;

    open spec fn view(&self) -> CreateQrCodeResponseView {
        CreateQrCodeResponseView {
            success: self.success,
            qr_url: crate::text::text_of(self.qr_url),
            qr_id: crate::text::text_of(self.qr_id),
            code: crate::text::text_of(self.code),
            error: crate::text::text_of(self.error),
        }
    }
}

} // verus!
