//! The download of media files: which addresses may be fetched, and what is answered.

use crate::text::{
    contains_text, find_text, followed_by, i64_to_decimal, signed_decimal, text_of, to_chars,
};
use vstd::prelude::*;
use vstd::string::StringExecFns;

verus! {

/// The message for an address that may not be fetched.
pub const NOT_ALLOWED: &'static str =
    "URL domain not in whitelist. Only xhscdn.com and xiaohongshu.com are allowed.";

/// What the message for a failed download begins with.
pub const DOWNLOAD_FAILED: &'static str = "Download failed with status: ";

/// The content type of a file whose download names none.
pub const DEFAULT_CONTENT_TYPE: &'static str = "application/octet-stream";

/// Seconds after which a download is given up.
pub const DOWNLOAD_TIMEOUT_SECS: u64 = 300;

/// A request to download a file.
#[derive(Debug, Clone)]
pub struct DownloadRequest {
    /// The address of the file.
    pub url: String,
    /// Where the file is saved.
    pub save_path: String,
}

/// The answer to such a request.
#[derive(Debug)]
pub struct DownloadResponse {
    pub success: bool,
    pub msg: Option<String>,
    pub data: Option<DownloadData>,
}

/// A downloaded file.
#[derive(Debug)]
pub struct DownloadData {
    pub saved_path: String,
    /// Size in bytes.
    pub file_size: u64,
    pub content_type: String,
}

/// What a downloaded file holds.
pub struct DownloadDataView {
    pub saved_path: Seq<char>,
    pub file_size: u64,
    pub content_type: Seq<char>,
}

/// What an answer holds.
pub struct DownloadResponseView {
    pub success: bool,
    pub msg: Option<Seq<char>>,
    pub data: Option<DownloadDataView>,
}

impl View for DownloadResponse {
    type V = DownloadResponseView;

    open spec fn view(&self) -> DownloadResponseView {
        DownloadResponseView {
            success: self.success,
            msg: text_of(self.msg),
            data: match self.data {
                Some(d) => Some(
                    DownloadDataView {
                        saved_path: d.saved_path@,
                        file_size: d.file_size,
                        content_type: d.content_type@,
                    },
                ),
                None => None,
            },
        }
    }
}

/// Whether the address `url` may be fetched: it names one of the platform's domains.
pub open spec fn url_allowed(url: Seq<char>) -> bool {
    contains_text(url, "xhscdn.com"@) || contains_text(url, "xiaohongshu.com"@)
}

/// Whether the address `url` may be fetched.
pub fn is_url_allowed(url: &str) -> (r: bool)
    ensures
        r == url_allowed(url@),
{
    let chars = to_chars(url);
    let first = to_chars("xhscdn.com");
    let second = to_chars("xiaohongshu.com");
    if find_text(&chars, &first).is_some() {
        return true;
    }
    find_text(&chars, &second).is_some()
}

/// A failure with the given message.
pub open spec fn refusal(msg: Seq<char>) -> DownloadResponseView {
    DownloadResponseView { success: false, msg: Some(msg), data: None }
}

/// What is answered before anything is fetched: a refusal for an address
/// that may not be fetched, nothing otherwise.
pub fn check_download(req: &DownloadRequest) -> (r: Option<DownloadResponse>)
    ensures
        match r {
            Some(answer) => !url_allowed(req.url@) && answer@ == refusal(NOT_ALLOWED@),
            None => url_allowed(req.url@),
        },
{
    if is_url_allowed(req.url.as_str()) {
        None
    } else {
        Some(
            DownloadResponse { success: false, msg: Some(String::from_str(NOT_ALLOWED)), data: None },
        )
    }
}

/// What is answered once the file's server has answered. A status outside
/// 200 to 299 gives a failure that names the status and `None`: nothing is to
/// be saved. Otherwise the answer names the file as it will be saved, with
/// its size and its content type.
pub open spec fn download_answer(
    save_path: Seq<char>,
    status: u16,
    content_type: Option<Seq<char>>,
    file_size: u64,
) -> DownloadResponseView {
    if 200 <= status <= 299 {
        DownloadResponseView {
            success: true,
            msg: None,
            data: Some(
                DownloadDataView {
                    saved_path: save_path,
                    file_size,
                    content_type: match content_type {
                        Some(t) => t,
                        None => DEFAULT_CONTENT_TYPE@,
                    },
                },
            ),
        }
    } else {
        refusal(DOWNLOAD_FAILED@ + signed_decimal(status as int))
    }
}

/// What is answered for the download of `req` once the file's server has
/// answered with `status`, the content type `content_type` and a body of
/// `file_size` bytes.
pub fn download_media(
    req: DownloadRequest,
    status: u16,
    content_type: Option<String>,
    file_size: u64,
) -> (r: DownloadResponse)
    ensures
        r@ == download_answer(req.save_path@, status, text_of(content_type), file_size),
{
    if 200 <= status && status <= 299 {
        let content_type = match content_type {
            Some(t) => t,
            None => String::from_str(DEFAULT_CONTENT_TYPE),
        };
        DownloadResponse {
            success: true,
            msg: None,
            data: Some(DownloadData { saved_path: req.save_path, file_size, content_type }),
        }
    } else {
        let number = i64_to_decimal(status as i64);
        let msg = followed_by(DOWNLOAD_FAILED, number.as_str());
        DownloadResponse { success: false, msg: Some(msg), data: None }
    }
}

} // verus!
