//! QR codes as text for the terminal.

use vstd::prelude::*;
use vstd::string::StringExecFns;

verus! {

/// The QR code for `data` as lines of block characters, two rows of modules
/// per line, dark and light exchanged for dark terminals; nothing when `data`
/// cannot be encoded as a QR code.
pub uninterp spec fn qr_blocks(data: Seq<char>) -> Option<Seq<char>>;

/// A QR code for display.
#[derive(Debug, Clone)]
pub struct QrCodeResult {
    /// The code as lines of block characters.
    pub ascii: String,
    /// The URL that the code stands for.
    pub url: String,
}

/// Why no QR code was generated.
#[derive(Debug, Clone, Copy, PartialEq, Eq, Structural)]
pub enum QrError {
    /// The data cannot be encoded as a QR code: it is too long.
    Unencodable,
}

impl QrError {
    /// The error in words.
    pub fn message(self) -> (r: String)
        ensures
            r@ == "Failed to generate QR code: data too long"@,
    {
        String::from_str("Failed to generate QR code: data too long")
    }
}

/// Encodes `data` with `qrcode::QrCode::new` and renders the code with the
/// crate's `Dense1x2` unicode renderer, dark and light exchanged. The result
/// depends on `data` alone.
#[verifier::external_body]
fn render_blocks(data: &str) -> (r: Option<String>)
    ensures
        match r {
            Some(s) => qr_blocks(data@) == Some(s@),
            None => qr_blocks(data@) is None,
        },
{
    match qrcode::QrCode::new(data.as_bytes()) {
        Ok(code) => Some(
            code.render::<qrcode::render::unicode::Dense1x2>().dark_color(
                qrcode::render::unicode::Dense1x2::Light,
            ).light_color(qrcode::render::unicode::Dense1x2::Dark).build(),
        ),
        Err(_) => None,
    }
}

/// The QR code that a rendering gives for `url`.
pub fn qr_result(url: &str, blocks: Option<String>) -> (r: Result<QrCodeResult, QrError>)
    ensures
        match r {
            Ok(q) => blocks matches Some(b) && q.ascii@ == b@ && q.url@ == url@,
            Err(e) => blocks is None && e == QrError::Unencodable,
        },
{
    match blocks {
        Some(ascii) => Ok(QrCodeResult { ascii, url: String::from_str(url) }),
        None => Err(QrError::Unencodable),
    }
}

/// The QR code for `url` as text for the terminal.
pub fn generate_qr_ascii(url: &str) -> (r: Result<QrCodeResult, QrError>)
    ensures
        match r {
            Ok(q) => qr_blocks(url@) == Some(q.ascii@) && q.url@ == url@,
            Err(e) => qr_blocks(url@) is None && e == QrError::Unencodable,
        },
{
    qr_result(url, render_blocks(url))
}

} // verus!
