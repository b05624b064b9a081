//! The signing collaborator's interface: what it is asked and how its answer is read.
//!
//! The collaborator is an external service. This module builds the request
//! that is sent to it and turns its answer, or the lack of one, into a
//! signature or a failure. Sending the request is left to the caller.

use crate::config::{get_agent_url, AgentConfig};
use crate::cookies::{CookieJar, CookiePair};
use crate::error::{SignError, SignErrorView};
use crate::text::{followed_by, or_empty, text_of, text_or_empty};
use vstd::prelude::*;
use vstd::string::StringExecFns;

verus! {

/// Seconds after which a signing call is given up.
pub const SIGN_TIMEOUT_SECS: u64 = 5;

/// Seconds after which a health check is given up.
pub const HEALTH_TIMEOUT_SECS: u64 = 2;

/// Seconds after which the fetching of guest cookies is given up.
pub const GUEST_COOKIES_TIMEOUT_SECS: u64 = 45;

/// The reason reported when the collaborator fails without giving one.
pub const UNKNOWN_ERROR: &'static str = "Unknown error";

/// An HTTP method.
#[derive(Debug, Clone, Copy, PartialEq, Eq, Structural)]
pub enum HttpMethod {
    Get,
    Post,
}

impl HttpMethod {
    /// The method's name in upper case.
    pub open spec fn spec_name(self) -> Seq<char> {
        match self {
            HttpMethod::Get => "GET"@,
            HttpMethod::Post => "POST"@,
        }
    }

    /// The method's name in upper case.
    pub fn name(self) -> (r: &'static str)
        ensures
            r@ == self.spec_name(),
    {
        match self {
            HttpMethod::Get => "GET",
            HttpMethod::Post => "POST",
        }
    }
}

/// What a signing request holds.
pub struct SignRequestView {
    pub method: Seq<char>,
    pub uri: Seq<char>,
    pub cookies: Seq<CookiePair>,
    pub params: Option<Seq<char>>,
    pub payload: Option<Seq<char>>,
}

/// The request sent to the signing collaborator.
#[derive(Debug)]
pub struct SignRequest {
    /// The HTTP method of the request to sign, in upper case.
    pub method: String,
    /// Path and query of the request to sign.
    pub uri: String,
    /// The session's cookies.
    pub cookies: CookieJar,
    /// Query parameters as JSON text; never set by this library.
    pub params: Option<String>,
    /// The body of the request to sign, as JSON text.
    pub payload: Option<String>,
}

impl View for SignRequest {
    type V = SignRequestView;

    open spec fn view(&self) -> SignRequestView {
        SignRequestView {
            method: self.method@,
            uri: self.uri@,
            cookies: self.cookies@,
            params: text_of(self.params),
            payload: text_of(self.payload),
        }
    }
}

/// What the collaborator's answer holds.
pub struct SignResponseView {
    pub success: bool,
    pub x_s: Option<Seq<char>>,
    pub x_t: Option<Seq<char>>,
    pub x_s_common: Option<Seq<char>>,
    pub x_b3_traceid: Option<Seq<char>>,
    pub x_xray_traceid: Option<Seq<char>>,
    pub error: Option<Seq<char>>,
}

/// The collaborator's answer.
#[derive(Debug)]
pub struct SignResponse {
    pub success: bool,
    pub x_s: Option<String>,
    pub x_t: Option<String>,
    pub x_s_common: Option<String>,
    pub x_b3_traceid: Option<String>,
    pub x_xray_traceid: Option<String>,
    pub error: Option<String>,
}

impl View for SignResponse {
    type V = SignResponseView;

    open spec fn view(&self) -> SignResponseView {
        SignResponseView {
            success: self.success,
            x_s: text_of(self.x_s),
            x_t: text_of(self.x_t),
            x_s_common: text_of(self.x_s_common),
            x_b3_traceid: text_of(self.x_b3_traceid),
            x_xray_traceid: text_of(self.x_xray_traceid),
            error: text_of(self.error),
        }
    }
}

/// The five header values that a signed request carries.
pub struct SignatureView {
    pub x_s: Seq<char>,
    pub x_t: Seq<char>,
    pub x_s_common: Seq<char>,
    pub x_b3_traceid: Seq<char>,
    pub x_xray_traceid: Seq<char>,
}

/// A signature: the five header values that a signed request carries.
#[derive(Debug)]
pub struct Signature {
    pub x_s: String,
    pub x_t: String,
    pub x_s_common: String,
    pub x_b3_traceid: String,
    pub x_xray_traceid: String,
}

impl View for Signature {
    type V = SignatureView;

    open spec fn view(&self) -> SignatureView {
        SignatureView {
            x_s: self.x_s@,
            x_t: self.x_t@,
            x_s_common: self.x_s_common@,
            x_b3_traceid: self.x_b3_traceid@,
            x_xray_traceid: self.x_xray_traceid@,
        }
    }
}

impl Clone for Signature {
    fn clone(&self) -> (r: Self)
        ensures
            r@ == self@,
    {
        Signature {
            x_s: self.x_s.clone(),
            x_t: self.x_t.clone(),
            x_s_common: self.x_s_common.clone(),
            x_b3_traceid: self.x_b3_traceid.clone(),
            x_xray_traceid: self.x_xray_traceid.clone(),
        }
    }
}

/// The view of an optional answer.
pub open spec fn response_view(r: Option<SignResponse>) -> Option<SignResponseView> {
    match r {
        Some(r) => Some(r@),
        None => None,
    }
}

/// The view of a signature or a signing failure.
pub open spec fn outcome_view(r: Result<Signature, SignError>) -> Result<
    SignatureView,
    SignErrorView,
> {
    match r {
        Ok(s) => Ok(s@),
        Err(e) => Err(e@),
    }
}

/// How the collaborator's answer is read. No answer at all is a failure, and so
/// is any answer without `success = true`, whose reason is the answer's error
/// text or, without one, `Unknown error`. A successful answer gives a
/// signature; a header value that it lacks is empty.
pub open spec fn signature_of_answer(answer: Option<SignResponseView>) -> Result<
    SignatureView,
    SignErrorView,
> {
    match answer {
        None => Err(SignErrorView::Unreachable),
        Some(a) => if a.success {
            Ok(
                SignatureView {
                    x_s: or_empty(a.x_s),
                    x_t: or_empty(a.x_t),
                    x_s_common: or_empty(a.x_s_common),
                    x_b3_traceid: or_empty(a.x_b3_traceid),
                    x_xray_traceid: or_empty(a.x_xray_traceid),
                },
            )
        } else {
            Err(
                SignErrorView::Rejected {
                    reason: match a.error {
                        Some(e) => e,
                        None => UNKNOWN_ERROR@,
                    },
                },
            )
        },
    }
}

/// Whether `status` is a success status of HTTP: 200 to 299.
pub open spec fn is_success_status(status: u16) -> bool {
    200 <= status <= 299
}

/// The signing collaborator, as far as this process knows it: where it is.
#[derive(Debug)]
pub struct SignatureService {
    agent_url: String,
}

impl SignatureService {
    /// The collaborator's base URL.
    pub closed spec fn base(&self) -> Seq<char> {
        self.agent_url@
    }

    /// The collaborator that `config` names.
    pub fn new(config: &AgentConfig) -> (r: Self)
        ensures
            r.base() == config.url@,
    {
        SignatureService { agent_url: String::from_str(get_agent_url(config)) }
    }

    /// The URL that signing requests are posted to.
    pub fn sign_url(&self) -> (r: String)
        ensures
            r@ == self.base() + "/sign"@,
    {
        followed_by(self.agent_url.as_str(), "/sign")
    }

    /// The URL of the collaborator's health check.
    pub fn health_url(&self) -> (r: String)
        ensures
            r@ == self.base() + "/health"@,
    {
        followed_by(self.agent_url.as_str(), "/health")
    }

    /// The URL that guest cookies for the context `target` are fetched from.
    pub fn guest_cookies_url(&self, target: &str) -> (r: String)
        ensures
            r@ == self.base() + "/guest-cookies?target="@ + target@,
    {
        let mut out = followed_by(self.agent_url.as_str(), "/guest-cookies?target=");
        out.append(target);
        out
    }

    /// The request that asks the collaborator to sign a call with the given
    /// method, path and query, cookies and body.
    pub fn build_request(
        method: HttpMethod,
        uri: &str,
        cookies: CookieJar,
        payload: Option<String>,
    ) -> (r: SignRequest)
        ensures
            r@ == (SignRequestView {
                method: method.spec_name(),
                uri: uri@,
                cookies: cookies@,
                params: None,
                payload: text_of(payload),
            }),
    {
        SignRequest {
            method: String::from_str(method.name()),
            uri: String::from_str(uri),
            cookies,
            params: None,
            payload,
        }
    }

    /// Reads what the collaborator answered to a signing request; `None`
    /// stands for no answer: a timeout, a refused connection or an answer that
    /// could not be read.
    pub fn get_signature_from_agent(&self, response: Option<SignResponse>) -> (r: Result<
        Signature,
        SignError,
    >)
        ensures
            outcome_view(r) == signature_of_answer(response_view(response)),
    {
        match response {
            None => Err(SignError::Unreachable),
            Some(a) => {
                if a.success {
                    Ok(
                        Signature {
                            x_s: text_or_empty(&a.x_s),
                            x_t: text_or_empty(&a.x_t),
                            x_s_common: text_or_empty(&a.x_s_common),
                            x_b3_traceid: text_or_empty(&a.x_b3_traceid),
                            x_xray_traceid: text_or_empty(&a.x_xray_traceid),
                        },
                    )
                } else {
                    let reason = match a.error {
                        Some(e) => e,
                        None => String::from_str(UNKNOWN_ERROR),
                    };
                    Err(SignError::Rejected { reason })
                }
            },
        }
    }

    /// Whether the collaborator is available, given the status that its health
    /// check answered with; `None` stands for no answer.
    pub fn is_agent_available(&self, health_status: Option<u16>) -> (r: bool)
        ensures
            r == match health_status {
                Some(s) => is_success_status(s),
                None => false,
            },
    {
        match health_status {
            Some(s) => 200 <= s && s <= 299,
            None => false,
        }
    }
}

} // verus!
