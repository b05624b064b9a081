//! The active credential of a user and the signatures captured for single endpoints.

use crate::clock::now_millis;
use crate::cookies::{cookie_header, cookies_to_string, CookieJar, CookiePair};
use crate::text::{clone_text, text_of};
use vstd::prelude::*;

verus! {

/// The age beyond which a credential is treated as expired: seven days, in milliseconds.
pub const SOFT_EXPIRY_MILLIS: i64 = 604_800_000;

/// Whether a credential last refreshed at `updated_at` is past its soft expiry at `now`.
pub open spec fn soft_expired(updated_at: int, now: int) -> bool {
    now - updated_at > SOFT_EXPIRY_MILLIS as int
}

/// What a credential holds.
pub struct CredentialsView {
    pub user_id: Seq<char>,
    pub cookies: Seq<CookiePair>,
    pub x_s_common: Option<Seq<char>>,
    pub created_at: int,
    pub updated_at: int,
    pub is_valid: bool,
}

/// The credential that a login at instant `now` creates.
pub open spec fn fresh_credentials(
    user_id: Seq<char>,
    cookies: Seq<CookiePair>,
    x_s_common: Option<Seq<char>>,
    now: int,
) -> CredentialsView {
    CredentialsView { user_id, cookies, x_s_common, created_at: now, updated_at: now, is_valid: true }
}

/// The authenticated identity of one user session: its cookies and when they
/// were obtained. Instants are milliseconds since the Unix epoch.
#[derive(Debug)]
pub struct UserCredentials {
    /// Identifier of the user on the platform.
    pub user_id: String,
    /// The session's cookies.
    pub cookies: CookieJar,
    /// A signature fragment carried over from an earlier capture, if any.
    pub x_s_common: Option<String>,
    /// When the credential was created.
    pub created_at: i64,
    /// When the credential was last refreshed.
    pub updated_at: i64,
    /// Whether the credential is in force.
    pub is_valid: bool,
}

impl View for UserCredentials {
    type V = CredentialsView;

    open spec fn view(&self) -> CredentialsView {
        CredentialsView {
            user_id: self.user_id@,
            cookies: self.cookies@,
            x_s_common: text_of(self.x_s_common),
            created_at: self.created_at as int,
            updated_at: self.updated_at as int,
            is_valid: self.is_valid,
        }
    }
}

impl Clone for UserCredentials {
    fn clone(&self) -> (r: Self)
        ensures
            r@ == self@,
    {
        UserCredentials {
            user_id: self.user_id.clone(),
            cookies: self.cookies.clone(),
            x_s_common: clone_text(&self.x_s_common),
            created_at: self.created_at,
            updated_at: self.updated_at,
            is_valid: self.is_valid,
        }
    }
}

impl UserCredentials {
    /// A valid credential created and refreshed at `now`.
    pub fn new_at(user_id: String, cookies: CookieJar, x_s_common: Option<String>, now: i64) -> (r:
        Self)
        ensures
            r@ == fresh_credentials(user_id@, cookies@, text_of(x_s_common), now as int),
    {
        UserCredentials {
            user_id,
            cookies,
            x_s_common,
            created_at: now,
            updated_at: now,
            is_valid: true,
        }
    }

    /// A valid credential created and refreshed at the current instant.
    pub fn new(user_id: String, cookies: CookieJar, x_s_common: Option<String>) -> (r: Self)
        ensures
            r@ == fresh_credentials(user_id@, cookies@, text_of(x_s_common), r@.created_at),
    {
        let now = now_millis();
        UserCredentials::new_at(user_id, cookies, x_s_common, now)
    }

    /// The cookies as the value of a `Cookie` request header.
    pub fn cookie_string(&self) -> (r: String)
        ensures
            r@ == cookie_header(self@.cookies),
    {
        cookies_to_string(&self.cookies)
    }

    /// Whether the credential is past its soft expiry at `now`: it was last
    /// refreshed more than seven days before.
    pub fn is_expired_at(&self, now: i64) -> (r: bool)
        ensures
            r == soft_expired(self@.updated_at, now as int),
    {
        (now as i128) - (self.updated_at as i128) > (SOFT_EXPIRY_MILLIS as i128)
    }

    /// Whether the credential is past its soft expiry at the current instant.
    pub fn is_potentially_expired(&self) -> (r: bool)
        ensures
            exists|now: int| r == soft_expired(self@.updated_at, now),
    {
        let now = now_millis();
        let r = self.is_expired_at(now);
        assert(r == soft_expired(self@.updated_at, now as int));
        r
    }

    /// Marks the credential as no longer in force, as of `now`.
    pub fn invalidate_at(&mut self, now: i64)
        ensures
            final(self)@ == (CredentialsView {
                is_valid: false,
                updated_at: now as int,
                ..old(self)@
            }),
    {
        self.is_valid = false;
        self.updated_at = now;
    }

    /// Marks the credential as no longer in force, as of the current instant.
    pub fn invalidate(&mut self)
        ensures
            final(self)@ == (CredentialsView {
                is_valid: false,
                updated_at: final(self)@.updated_at,
                ..old(self)@
            }),
    {
        let now = now_millis();
        self.invalidate_at(now);
    }

    /// Records `now` as the instant of the last refresh.
    pub fn touch_at(&mut self, now: i64)
        ensures
            final(self)@ == (CredentialsView { updated_at: now as int, ..old(self)@ }),
    {
        self.updated_at = now;
    }

    /// Records the current instant as that of the last refresh.
    pub fn touch(&mut self)
        ensures
            final(self)@ == (CredentialsView {
                updated_at: final(self)@.updated_at,
                ..old(self)@
            }),
    {
        let now = now_millis();
        self.touch_at(now);
    }
}

/// What a captured signature holds.
pub struct ApiSignatureView {
    pub endpoint: Seq<char>,
    pub x_s: Seq<char>,
    pub x_t: Seq<char>,
    pub x_s_common: Seq<char>,
    pub x_b3_traceid: Seq<char>,
    pub x_xray_traceid: Seq<char>,
    pub method: Option<Seq<char>>,
    pub post_body: Option<Seq<char>>,
    pub request_url: Option<Seq<char>>,
    pub captured_at: int,
    pub is_valid: bool,
}

/// A signature observed on an earlier request to one endpoint. It is bound to
/// the method and, for a request with a body, to the exact body it was
/// captured with.
#[derive(Debug)]
pub struct ApiSignature {
    /// Key of the endpoint, such as `user_me`.
    pub endpoint: String,
    /// Value of the `x-s` header.
    pub x_s: String,
    /// Value of the `x-t` header.
    pub x_t: String,
    /// Value of the `x-s-common` header.
    pub x_s_common: String,
    /// Value of the `x-b3-traceid` header.
    pub x_b3_traceid: String,
    /// Value of the `x-xray-traceid` header.
    pub x_xray_traceid: String,
    /// The HTTP method of the captured request.
    pub method: Option<String>,
    /// The body of the captured request.
    pub post_body: Option<String>,
    /// The full URL of the captured request.
    pub request_url: Option<String>,
    /// When the signature was captured.
    pub captured_at: i64,
    /// Whether the signature may still be used.
    pub is_valid: bool,
}

impl View for ApiSignature {
    type V = ApiSignatureView;

    open spec fn view(&self) -> ApiSignatureView {
        ApiSignatureView {
            endpoint: self.endpoint@,
            x_s: self.x_s@,
            x_t: self.x_t@,
            x_s_common: self.x_s_common@,
            x_b3_traceid: self.x_b3_traceid@,
            x_xray_traceid: self.x_xray_traceid@,
            method: text_of(self.method),
            post_body: text_of(self.post_body),
            request_url: text_of(self.request_url),
            captured_at: self.captured_at as int,
            is_valid: self.is_valid,
        }
    }
}

impl Clone for ApiSignature {
    fn clone(&self) -> (r: Self)
        ensures
            r@ == self@,
    {
        ApiSignature {
            endpoint: self.endpoint.clone(),
            x_s: self.x_s.clone(),
            x_t: self.x_t.clone(),
            x_s_common: self.x_s_common.clone(),
            x_b3_traceid: self.x_b3_traceid.clone(),
            x_xray_traceid: self.x_xray_traceid.clone(),
            method: clone_text(&self.method),
            post_body: clone_text(&self.post_body),
            request_url: clone_text(&self.request_url),
            captured_at: self.captured_at,
            is_valid: self.is_valid,
        }
    }
}

} // verus!
