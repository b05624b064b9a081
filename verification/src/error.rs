//! The failures that the library reports.

use crate::text::{i64_to_decimal, signed_decimal};
use vstd::prelude::*;
use vstd::string::StringExecFns;

verus! {

/// A failure of the credential store.
#[derive(Debug)]
pub enum StorageError {
    /// The persisted records hold more than one valid credential.
    Inconsistent,
    /// The durable storage could not be read or written.
    Unavailable { reason: String },
}

/// A failure of the signing collaborator.
#[derive(Debug)]
pub enum SignError {
    /// The collaborator could not be reached or its answer could not be read.
    Unreachable,
    /// The collaborator answered without `success = true`.
    Rejected { reason: String },
}

/// What the text of a `SignError` is.
pub enum SignErrorView {
    Unreachable,
    Rejected { reason: Seq<char> },
}

impl View for SignError {
    type V = SignErrorView;

    open spec fn view(&self) -> SignErrorView {
        match self {
            SignError::Unreachable => SignErrorView::Unreachable,
            SignError::Rejected { reason } => SignErrorView::Rejected { reason: reason@ },
        }
    }
}

/// A classified failure of one call to the platform.
#[derive(Debug)]
pub enum RequestError {
    /// No valid credential: the caller has to drive the login flow first.
    NotAuthenticated,
    /// The endpoint key has no known path.
    UnsupportedEndpoint { endpoint: String },
    /// The collaborator failed and no captured signature is stored for the endpoint.
    NoSignatureAvailable { endpoint: String },
    /// The collaborator failed and no captured signature can stand in for it.
    SigningUnavailable,
    /// The platform rejected the signature (status 406). The session is untouched.
    SignatureRejected { body: String },
    /// The platform's rate limit or risk control struck (status 461).
    RateLimited { body: String },
    /// The platform reported, inside a successful response, that the session has expired.
    SessionExpired { body: String },
    /// Any other status of 400 or above.
    ApiError { status: u16, body: String },
}

/// What a `RequestError` holds.
pub enum RequestErrorView {
    NotAuthenticated,
    UnsupportedEndpoint { endpoint: Seq<char> },
    NoSignatureAvailable { endpoint: Seq<char> },
    SigningUnavailable,
    SignatureRejected { body: Seq<char> },
    RateLimited { body: Seq<char> },
    SessionExpired { body: Seq<char> },
    ApiError { status: u16, body: Seq<char> },
}

impl View for RequestError {
    type V = RequestErrorView;

    open spec fn view(&self) -> RequestErrorView {
        match self {
            RequestError::NotAuthenticated => RequestErrorView::NotAuthenticated,
            RequestError::UnsupportedEndpoint { endpoint } => RequestErrorView::UnsupportedEndpoint {
                endpoint: endpoint@,
            },
            RequestError::NoSignatureAvailable {
                endpoint,
            } => RequestErrorView::NoSignatureAvailable { endpoint: endpoint@ },
            RequestError::SigningUnavailable => RequestErrorView::SigningUnavailable,
            RequestError::SignatureRejected { body } => RequestErrorView::SignatureRejected {
                body: body@,
            },
            RequestError::RateLimited { body } => RequestErrorView::RateLimited { body: body@ },
            RequestError::SessionExpired { body } => RequestErrorView::SessionExpired {
                body: body@,
            },
            RequestError::ApiError { status, body } => RequestErrorView::ApiError {
                status: *status,
                body: body@,
            },
        }
    }
}

/// A failure of the login protocol.
#[derive(Debug, Clone, Copy, PartialEq, Eq, Structural)]
pub enum LoginError {
    /// The step does not apply in the session's current phase.
    OutOfOrder,
    /// The attempt has failed or run out of polls: no credential was produced.
    LoginFailed,
}

pub const NOT_AUTHENTICATED: &'static str =
    "Not logged in. Please call /api/auth/login-session first.";

pub const UNSUPPORTED_ENDPOINT: &'static str = "No URI mapping for endpoint: ";

pub const NO_SIGNATURE_HEAD: &'static str = "No signature found for endpoint: ";

pub const NO_SIGNATURE_TAIL: &'static str = ". Please login again to capture signatures.";

pub const SIGNING_UNAVAILABLE: &'static str =
    "Signing unavailable: the signing agent failed and no captured signature can be used.";

pub const SIGNATURE_REJECTED: &'static str = "Signature rejected (406): ";

pub const RATE_LIMITED: &'static str =
    "XHS \u{98ce}\u{63a7}\u{89e6}\u{53d1} (461): \u{8bf7}\u{7a0d}\u{540e}\u{91cd}\u{8bd5}\u{6216}\u{66f4}\u{6362}\u{5173}\u{952e}\u{8bcd}\u{3002}Response: ";

pub const SESSION_EXPIRED: &'static str = "Session expired. Please login again.";

pub const API_ERROR_HEAD: &'static str = "XHS API \u{9519}\u{8bef} (";

pub const API_ERROR_TAIL: &'static str = "): ";

pub const AGENT_UNREACHABLE: &'static str = "Agent connection failed. Is agent_server.py running?";

pub const AGENT_REJECTED: &'static str = "Agent signing failed: ";

pub const STORAGE_INCONSISTENT: &'static str = "More than one valid credential is stored.";

pub const STORAGE_UNAVAILABLE: &'static str = "Storage unavailable: ";

pub const LOGIN_OUT_OF_ORDER: &'static str =
    "The step does not apply in the current phase of the login.";

pub const LOGIN_FAILED: &'static str = "Failed to get credentials after login";

impl RequestErrorView {
    /// The error in words.
    pub open spec fn message(self) -> Seq<char> {
        match self {
            RequestErrorView::NotAuthenticated => NOT_AUTHENTICATED@,
            RequestErrorView::UnsupportedEndpoint { endpoint } => UNSUPPORTED_ENDPOINT@ + endpoint,
            RequestErrorView::NoSignatureAvailable { endpoint } => NO_SIGNATURE_HEAD@ + endpoint
                + NO_SIGNATURE_TAIL@,
            RequestErrorView::SigningUnavailable => SIGNING_UNAVAILABLE@,
            RequestErrorView::SignatureRejected { body } => SIGNATURE_REJECTED@ + body,
            RequestErrorView::RateLimited { body } => RATE_LIMITED@ + body,
            RequestErrorView::SessionExpired { body } => SESSION_EXPIRED@,
            RequestErrorView::ApiError { status, body } => API_ERROR_HEAD@ + signed_decimal(
                status as int,
            ) + API_ERROR_TAIL@ + body,
        }
    }
}

impl RequestError {
    /// The error in words.
    pub fn message(&self) -> (r: String)
        ensures
            r@ == self@.message(),
    {
        match self {
            RequestError::NotAuthenticated => String::from_str(NOT_AUTHENTICATED),
            RequestError::UnsupportedEndpoint { endpoint } => {
                let mut out = String::from_str(UNSUPPORTED_ENDPOINT);
                out.append(endpoint.as_str());
                out
            },
            RequestError::NoSignatureAvailable { endpoint } => {
                let mut out = String::from_str(NO_SIGNATURE_HEAD);
                out.append(endpoint.as_str());
                out.append(NO_SIGNATURE_TAIL);
                out
            },
            RequestError::SigningUnavailable => String::from_str(SIGNING_UNAVAILABLE),
            RequestError::SignatureRejected { body } => {
                let mut out = String::from_str(SIGNATURE_REJECTED);
                out.append(body.as_str());
                out
            },
            RequestError::RateLimited { body } => {
                let mut out = String::from_str(RATE_LIMITED);
                out.append(body.as_str());
                out
            },
            RequestError::SessionExpired { body } => String::from_str(SESSION_EXPIRED),
            RequestError::ApiError { status, body } => {
                let mut out = String::from_str(API_ERROR_HEAD);
                out.append(i64_to_decimal(*status as i64).as_str());
                out.append(API_ERROR_TAIL);
                out.append(body.as_str());
                out
            },
        }
    }
}

impl SignErrorView {
    /// The error in words.
    pub open spec fn message(self) -> Seq<char> {
        match self {
            SignErrorView::Unreachable => AGENT_UNREACHABLE@,
            SignErrorView::Rejected { reason } => AGENT_REJECTED@ + reason,
        }
    }
}

impl SignError {
    /// The error in words.
    pub fn message(&self) -> (r: String)
        ensures
            r@ == self@.message(),
    {
        match self {
            SignError::Unreachable => String::from_str(AGENT_UNREACHABLE),
            SignError::Rejected { reason } => {
                let mut out = String::from_str(AGENT_REJECTED);
                out.append(reason.as_str());
                out
            },
        }
    }
}

impl StorageError {
    /// The error in words.
    pub fn message(&self) -> (r: String)
        ensures
            r@ == match self {
                StorageError::Inconsistent => STORAGE_INCONSISTENT@,
                StorageError::Unavailable { reason } => STORAGE_UNAVAILABLE@ + reason@,
            },
    {
        match self {
            StorageError::Inconsistent => String::from_str(STORAGE_INCONSISTENT),
            StorageError::Unavailable { reason } => {
                let mut out = String::from_str(STORAGE_UNAVAILABLE);
                out.append(reason.as_str());
                out
            },
        }
    }
}

impl LoginError {
    /// The error in words.
    pub fn message(&self) -> (r: String)
        ensures
            r@ == match self {
                LoginError::OutOfOrder => LOGIN_OUT_OF_ORDER@,
                LoginError::LoginFailed => LOGIN_FAILED@,
            },
    {
        match self {
            LoginError::OutOfOrder => String::from_str(LOGIN_OUT_OF_ORDER),
            LoginError::LoginFailed => String::from_str(LOGIN_FAILED),
        }
    }
}

} // verus!
