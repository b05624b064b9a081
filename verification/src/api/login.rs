//! The QR login protocol: one attempt to obtain a credential.
//!
//! An attempt moves forward only: guest cookies, a QR code, polls of its
//! status, confirmation, commit. The protocol holds no timer and performs no
//! I/O: the caller fetches, polls and synchronises, and reports what came back.

use crate::api::common::{
    sanitize_uri, sanitized_uri, OutboundRequest, OutboundRequestView, SignatureTier, ACCEPT,
    ACCEPT_LANGUAGE, API_HOST, CONTENT_TYPE_JSON, ORIGIN, REFERER, SEC_CH_UA, SEC_CH_UA_PLATFORM,
};
use crate::auth::browser::{read_login, reported_login};
use crate::auth::credentials::{fresh_credentials, CredentialsView, UserCredentials};
use crate::auth::service::AuthService;
use crate::auth::storage::{active, saved};
use crate::cookies::{
    collect_set_cookies, cookie_header, cookies_to_string, lookup, merged, offered_cookies,
    with_cookie, CookieJar, CookiePair,
};
use crate::error::LoginError;
use crate::json::{
    flag_at, integer_at, json_member, json_parsed, member, parse, read_flag, read_integer,
    read_text, text_at,
};
use crate::models::login::{
    login_info_view, AgentGuestCookiesResponse, CookieInfo, CookieInfoView, LoginInfo,
    LoginInfoView, QrCodeData, QrCodeDataView, SessionInfoData, SessionInfoDataView,
    SessionInfoResponse,
};
use crate::signature::HttpMethod;
use crate::text::{
    followed_by, pair_views, push_pair, string_of, sub_chars, to_chars, Pair, TextPair,
};
use vstd::prelude::*;
use vstd::string::StringExecFns;

verus! {

/// The user recorded for a login that reported none.
pub const UNKNOWN_USER: &'static str = "unknown";

/// How far a login attempt has come.
#[derive(Debug, Clone, Copy, PartialEq, Eq, Structural)]
pub enum LoginPhase {
    NotStarted,
    /// Guest cookies are at hand.
    GuestReady,
    /// A QR code has been issued.
    QrIssued,
    /// The code has been polled and not been scanned yet.
    Waiting,
    /// The code has been scanned and awaits confirmation.
    Scanned,
    /// The login has been confirmed; the credential is not committed yet.
    Confirmed,
    /// The credential has been committed.
    Committed,
    /// The attempt has failed.
    Failed,
    /// The attempt has run out of polls.
    Expired,
}

impl LoginPhase {
    /// The phase's place in the order of the protocol.
    pub open spec fn rank(self) -> nat {
        match self {
            LoginPhase::NotStarted => 0,
            LoginPhase::GuestReady => 1,
            LoginPhase::QrIssued => 2,
            LoginPhase::Waiting => 3,
            LoginPhase::Scanned => 4,
            LoginPhase::Confirmed => 5,
            LoginPhase::Committed => 6,
            LoginPhase::Failed => 6,
            LoginPhase::Expired => 6,
        }
    }

    /// Whether the attempt is over.
    pub open spec fn is_terminal(self) -> bool {
        self == LoginPhase::Committed || self == LoginPhase::Failed || self == LoginPhase::Expired
    }

    /// Whether the code's status may be polled in this phase.
    pub open spec fn is_polling(self) -> bool {
        self == LoginPhase::QrIssued || self == LoginPhase::Waiting || self == LoginPhase::Scanned
    }
}

/// What one poll found.
#[derive(Debug, Clone, Copy, PartialEq, Eq, Structural)]
pub enum PollStatus {
    Waiting,
    Scanned,
    Confirmed,
    Failed,
}

/// The application context that a login is for.
#[derive(Debug, Clone, Copy, PartialEq, Eq, Structural)]
pub enum LoginTarget {
    /// The platform's main site.
    User,
    /// The creator centre.
    Creator,
}

/// What a status code means for the given context. On the main site 0 is
/// waiting, 1 scanned and 2 confirmed; in the creator centre 2 is waiting, 3
/// scanned and 1 confirmed. An answer without a code counts as waiting, any
/// other code as a failure.
pub open spec fn status_of_code(target: LoginTarget, code: Option<i64>) -> PollStatus {
    match code {
        None => PollStatus::Waiting,
        Some(c) => match target {
            LoginTarget::User => if c == 0 {
                PollStatus::Waiting
            } else if c == 1 {
                PollStatus::Scanned
            } else if c == 2 {
                PollStatus::Confirmed
            } else {
                PollStatus::Failed
            },
            LoginTarget::Creator => if c == 2 {
                PollStatus::Waiting
            } else if c == 3 {
                PollStatus::Scanned
            } else if c == 1 {
                PollStatus::Confirmed
            } else {
                PollStatus::Failed
            },
        },
    }
}

/// What a status code means for the given context.
pub fn poll_status(target: LoginTarget, code: Option<i64>) -> (r: PollStatus)
    ensures
        r == status_of_code(target, code),
{
    match code {
        None => PollStatus::Waiting,
        Some(c) => match target {
            LoginTarget::User => if c == 0 {
                PollStatus::Waiting
            } else if c == 1 {
                PollStatus::Scanned
            } else if c == 2 {
                PollStatus::Confirmed
            } else {
                PollStatus::Failed
            },
            LoginTarget::Creator => if c == 2 {
                PollStatus::Waiting
            } else if c == 3 {
                PollStatus::Scanned
            } else if c == 1 {
                PollStatus::Confirmed
            } else {
                PollStatus::Failed
            },
        },
    }
}

/// What one poll reports.
#[derive(Debug)]
pub struct PollReport {
    /// What the poll found.
    pub status: PollStatus,
    /// The login's report, which a confirmation carries.
    pub login_info: Option<LoginInfo>,
    /// The cookies that the answer offered.
    pub new_cookies: CookieJar,
}

/// What a `PollReport` holds.
pub struct PollReportView {
    pub status: PollStatus,
    pub login_info: Option<LoginInfoView>,
    pub new_cookies: Seq<CookiePair>,
}

impl View for PollReport {
    type V = PollReportView;

    open spec fn view(&self) -> PollReportView {
        PollReportView {
            status: self.status,
            login_info: login_info_view(self.login_info),
            new_cookies: self.new_cookies@,
        }
    }
}

/// What a login attempt holds.
pub struct LoginSessionView {
    pub guest_cookies: Seq<CookiePair>,
    pub qr: Option<QrCodeDataView>,
    pub status: LoginPhase,
    pub login_info: Option<LoginInfoView>,
    pub observed: Seq<CookiePair>,
    pub polls_left: nat,
    pub sync_requested: bool,
}

/// The names of the cookies that identify a session and are exchanged for the
/// complete cookie set: the session id, the access token and the session
/// cookies of the two contexts.
pub open spec fn token_names() -> Seq<Seq<char>> {
    seq![
        "customer-sso-sid"@,
        "access-token-creator.xiaohongshu.com"@,
        "galaxy.creator.beaker.session.id"@,
        "web_session"@,
    ]
}

/// The value of the token `name`: the one that the platform offered or, when
/// it offered none, the guest cookie of that name.
pub open spec fn token_value(
    observed: Seq<CookiePair>,
    guest: Seq<CookiePair>,
    name: Seq<char>,
) -> Option<Seq<char>> {
    match lookup(observed, name) {
        Some(v) => Some(v),
        None => lookup(guest, name),
    }
}

/// The tokens among `names`, in order.
pub open spec fn tokens_among(
    observed: Seq<CookiePair>,
    guest: Seq<CookiePair>,
    names: Seq<Seq<char>>,
) -> Seq<CookiePair>
    decreases names.len(),
{
    if names.len() == 0 {
        Seq::empty()
    } else {
        let before = tokens_among(observed, guest, names.drop_last());
        match token_value(observed, guest, names.last()) {
            Some(v) => with_cookie(before, names.last(), v),
            None => before,
        }
    }
}

/// The tokens to exchange for the complete cookie set.
pub open spec fn sync_tokens_of(s: LoginSessionView) -> Seq<CookiePair> {
    tokens_among(s.observed, s.guest_cookies, token_names())
}

/// The cookies that the attempt has seen itself: the guest cookies and, over
/// them, those that the platform offered.
pub open spec fn observed_cookies(s: LoginSessionView) -> Seq<CookiePair> {
    merged(s.guest_cookies, s.observed)
}

/// The cookies of the credential that is committed: the complete set from the
/// synchronisation if it succeeded, else the cookies that were observed.
pub open spec fn committed_cookies(s: LoginSessionView, synced: Option<Seq<CookiePair>>) -> Seq<
    CookiePair,
> {
    match synced {
        Some(full) => full,
        None => observed_cookies(s),
    }
}

/// The user of the credential that is committed.
pub open spec fn committed_user(s: LoginSessionView) -> Seq<char> {
    match s.login_info {
        Some(info) => info.user_id,
        None => UNKNOWN_USER@,
    }
}

/// The credential that a commit at `now` produces.
pub open spec fn committed_credential(
    s: LoginSessionView,
    synced: Option<Seq<CookiePair>>,
    now: int,
) -> CredentialsView {
    fresh_credentials(committed_user(s), committed_cookies(s, synced), None, now)
}

/// What can happen to a login attempt.
pub enum LoginEvent {
    /// The guest cookies were fetched, or could not be.
    Guest(Option<Seq<CookiePair>>),
    /// The platform answered the creation of a QR code with the given status and code.
    Qr(u16, Option<QrCodeDataView>),
    /// A poll reported.
    Poll(PollReportView),
    /// The tokens for the synchronisation of the cookies were asked for.
    Sync,
    /// The credential was committed.
    Commit,
}

/// The later of two polling phases.
pub open spec fn later(a: LoginPhase, b: LoginPhase) -> LoginPhase {
    if a.rank() >= b.rank() {
        a
    } else {
        b
    }
}

/// The attempt after a poll. A poll without budget expires the attempt and
/// checks nothing. Otherwise the poll uses up one of the budget, and the
/// cookies that it offered are kept. A confirmation or a failure decides the
/// attempt; any other report leaves it polling, never in an earlier phase than
/// before, unless the budget is now used up, which expires it.
pub open spec fn after_poll(s: LoginSessionView, report: PollReportView) -> LoginSessionView {
    if s.polls_left == 0 {
        LoginSessionView { status: LoginPhase::Expired, ..s }
    } else {
        let left = (s.polls_left - 1) as nat;
        let seen = merged(s.observed, report.new_cookies);
        match report.status {
            PollStatus::Confirmed => LoginSessionView {
                status: LoginPhase::Confirmed,
                login_info: report.login_info,
                observed: seen,
                polls_left: left,
                ..s
            },
            PollStatus::Failed => LoginSessionView {
                status: LoginPhase::Failed,
                observed: seen,
                polls_left: left,
                ..s
            },
            PollStatus::Scanned => LoginSessionView {
                status: if left == 0 {
                    LoginPhase::Expired
                } else {
                    LoginPhase::Scanned
                },
                observed: seen,
                polls_left: left,
                ..s
            },
            PollStatus::Waiting => LoginSessionView {
                status: if left == 0 {
                    LoginPhase::Expired
                } else {
                    later(s.status, LoginPhase::Waiting)
                },
                observed: seen,
                polls_left: left,
                ..s
            },
        }
    }
}

/// Whether the event applies in the attempt's phase. The synchronisation of
/// the cookies comes before the commit: a confirmed login is committed only
/// after the tokens for it were asked for.
pub open spec fn applies(s: LoginSessionView, event: LoginEvent) -> bool {
    match event {
        LoginEvent::Guest(_) => s.status == LoginPhase::NotStarted,
        LoginEvent::Qr(_, _) => s.status == LoginPhase::GuestReady,
        LoginEvent::Poll(_) => s.status.is_polling(),
        LoginEvent::Sync => s.status == LoginPhase::Confirmed,
        LoginEvent::Commit => s.status == LoginPhase::Confirmed && s.sync_requested,
    }
}

/// The attempt after an event. An event that does not apply in the attempt's
/// phase changes nothing.
pub open spec fn stepped(s: LoginSessionView, event: LoginEvent) -> LoginSessionView {
    if !applies(s, event) {
        s
    } else {
        match event {
            LoginEvent::Guest(guest) => match guest {
                Some(cookies) => LoginSessionView {
                    guest_cookies: cookies,
                    status: LoginPhase::GuestReady,
                    ..s
                },
                None => LoginSessionView { status: LoginPhase::Failed, ..s },
            },
            LoginEvent::Qr(status, qr) => if status >= 400 {
                LoginSessionView { status: LoginPhase::Failed, ..s }
            } else {
                match qr {
                    Some(code) => LoginSessionView {
                        qr: Some(code),
                        status: LoginPhase::QrIssued,
                        ..s
                    },
                    None => LoginSessionView { status: LoginPhase::Failed, ..s },
                }
            },
            LoginEvent::Poll(report) => after_poll(s, report),
            LoginEvent::Sync => LoginSessionView { sync_requested: true, ..s },
            LoginEvent::Commit => LoginSessionView { status: LoginPhase::Committed, ..s },
        }
    }
}

/// The attempt after a sequence of events.
pub open spec fn stepped_all(s: LoginSessionView, events: Seq<LoginEvent>) -> LoginSessionView
    decreases events.len(),
{
    if events.len() == 0 {
        s
    } else {
        stepped(stepped_all(s, events.drop_last()), events.last())
    }
}

/// No event takes an attempt back: its phase never ranks lower afterwards, an
/// attempt that is over stays as it is, the guest cookies are set only by the
/// first step and the QR code only by the second, and the poll budget never grows.
pub proof fn lemma_login_moves_forward(s: LoginSessionView, event: LoginEvent)
    ensures
        stepped(s, event).status.rank() >= s.status.rank(),
        s.status.is_terminal() ==> stepped(s, event) == s,
        s.status != LoginPhase::NotStarted ==> stepped(s, event).guest_cookies == s.guest_cookies,
        s.status != LoginPhase::GuestReady ==> stepped(s, event).qr == s.qr,
        stepped(s, event).polls_left <= s.polls_left,
        s.sync_requested ==> stepped(s, event).sync_requested,
{
}

/// Whatever events an attempt meets, its phase never ranks lower than before.
pub proof fn lemma_login_never_goes_back(s: LoginSessionView, events: Seq<LoginEvent>)
    ensures
        stepped_all(s, events).status.rank() >= s.status.rank(),
        s.status.is_terminal() ==> stepped_all(s, events) == s,
    decreases events.len(),
{
    if events.len() > 0 {
        lemma_login_never_goes_back(s, events.drop_last());
        lemma_login_moves_forward(stepped_all(s, events.drop_last()), events.last());
    }
}

/// One login attempt. It is never persisted.
#[derive(Debug)]
pub struct QrLoginSession {
    guest_cookies: CookieJar,
    qr: Option<QrCodeData>,
    status: LoginPhase,
    login_info: Option<LoginInfo>,
    observed: CookieJar,
    polls_left: u32,
    sync_requested: bool,
}

impl View for QrLoginSession {
    type V = LoginSessionView;

    closed spec fn view(&self) -> LoginSessionView {
        LoginSessionView {
            guest_cookies: self.guest_cookies@,
            qr: match self.qr {
                Some(q) => Some(q@),
                None => None,
            },
            status: self.status,
            login_info: login_info_view(self.login_info),
            observed: self.observed@,
            polls_left: self.polls_left as nat,
            sync_requested: self.sync_requested,
        }
    }
}

/// The view of an optional cookie jar.
pub open spec fn jar_view(jar: Option<CookieJar>) -> Option<Seq<CookiePair>> {
    match jar {
        Some(j) => Some(j@),
        None => None,
    }
}

/// The view of an optional QR code.
pub open spec fn qr_view(qr: Option<QrCodeData>) -> Option<QrCodeDataView> {
    match qr {
        Some(q) => Some(q@),
        None => None,
    }
}

/// What a step of the protocol returns for an event: the new phase, or
/// `OutOfOrder` when the event does not apply.
pub open spec fn step_result(s: LoginSessionView, event: LoginEvent) -> Result<
    LoginPhase,
    LoginError,
> {
    if applies(s, event) {
        Ok(stepped(s, event).status)
    } else {
        Err(LoginError::OutOfOrder)
    }
}

impl QrLoginSession {
    /// A new attempt that may poll the code's status `poll_budget` times.
    pub fn new(poll_budget: u32) -> (r: Self)
        ensures
            r@ == (LoginSessionView {
                guest_cookies: Seq::empty(),
                qr: None,
                status: LoginPhase::NotStarted,
                login_info: None,
                observed: Seq::empty(),
                polls_left: poll_budget as nat,
                sync_requested: false,
            }),
    {
        QrLoginSession {
            guest_cookies: CookieJar::new(),
            qr: None,
            status: LoginPhase::NotStarted,
            login_info: None,
            observed: CookieJar::new(),
            polls_left: poll_budget,
            sync_requested: false,
        }
    }

    /// The attempt's phase.
    pub fn status(&self) -> (r: LoginPhase)
        ensures
            r == self@.status,
    {
        self.status
    }

    /// The guest cookies.
    pub fn guest_cookies(&self) -> (r: &CookieJar)
        ensures
            r@ == self@.guest_cookies,
    {
        &self.guest_cookies
    }

    /// The QR code, once it is issued.
    pub fn qr(&self) -> (r: &Option<QrCodeData>)
        ensures
            qr_view(*r) == self@.qr,
    {
        &self.qr
    }

    /// The login's report, once the login is confirmed.
    pub fn login_info(&self) -> (r: &Option<LoginInfo>)
        ensures
            login_info_view(*r) == self@.login_info,
    {
        &self.login_info
    }

    /// The number of polls that are left.
    pub fn polls_left(&self) -> (r: u32)
        ensures
            r == self@.polls_left,
    {
        self.polls_left
    }

    /// Takes the guest cookies, or their lack when the collaborator could not
    /// be reached, which fails the attempt.
    pub fn guest_ready(&mut self, guest: Option<CookieJar>) -> (r: Result<LoginPhase, LoginError>)
        ensures
            final(self)@ == stepped(old(self)@, LoginEvent::Guest(jar_view(guest))),
            r == step_result(old(self)@, LoginEvent::Guest(jar_view(guest))),
    {
        if self.status != LoginPhase::NotStarted {
            return Err(LoginError::OutOfOrder);
        }
        match guest {
            Some(cookies) => {
                self.guest_cookies = cookies;
                self.status = LoginPhase::GuestReady;
            },
            None => {
                self.status = LoginPhase::Failed;
            },
        }
        Ok(self.status)
    }

    /// Takes the platform's answer to the creation of a QR code. A status of
    /// 400 or above, which includes the rejection of the signature with 406,
    /// or an answer without a code fails the attempt.
    pub fn qr_issued(&mut self, status: u16, qr: Option<QrCodeData>) -> (r: Result<
        LoginPhase,
        LoginError,
    >)
        ensures
            final(self)@ == stepped(old(self)@, LoginEvent::Qr(status, qr_view(qr))),
            r == step_result(old(self)@, LoginEvent::Qr(status, qr_view(qr))),
    {
        if self.status != LoginPhase::GuestReady {
            return Err(LoginError::OutOfOrder);
        }
        if status >= 400 {
            self.status = LoginPhase::Failed;
        } else {
            match qr {
                Some(code) => {
                    self.qr = Some(code);
                    self.status = LoginPhase::QrIssued;
                },
                None => {
                    self.status = LoginPhase::Failed;
                },
            }
        }
        Ok(self.status)
    }

    /// Takes the report of one poll and returns the attempt's phase.
    pub fn poll(&mut self, report: PollReport) -> (r: Result<LoginPhase, LoginError>)
        ensures
            final(self)@ == stepped(old(self)@, LoginEvent::Poll(report@)),
            r == step_result(old(self)@, LoginEvent::Poll(report@)),
    {
        let polling = self.status == LoginPhase::QrIssued || self.status == LoginPhase::Waiting
            || self.status == LoginPhase::Scanned;
        if !polling {
            return Err(LoginError::OutOfOrder);
        }
        if self.polls_left == 0 {
            self.status = LoginPhase::Expired;
            return Ok(self.status);
        }
        self.polls_left = self.polls_left - 1;
        self.observed.extend(&report.new_cookies);
        match report.status {
            PollStatus::Confirmed => {
                self.login_info = report.login_info;
                self.status = LoginPhase::Confirmed;
            },
            PollStatus::Failed => {
                self.status = LoginPhase::Failed;
            },
            PollStatus::Scanned => {
                if self.polls_left == 0 {
                    self.status = LoginPhase::Expired;
                } else {
                    self.status = LoginPhase::Scanned;
                }
            },
            PollStatus::Waiting => {
                if self.polls_left == 0 {
                    self.status = LoginPhase::Expired;
                } else if self.status == LoginPhase::QrIssued {
                    self.status = LoginPhase::Waiting;
                }
            },
        }
        Ok(self.status)
    }

    /// The tokens to exchange for the complete cookie set, once the login is
    /// confirmed; nothing when there is no token, and the exchange is skipped.
    /// Only after this step can the login be committed.
    pub fn sync_tokens(&mut self) -> (r: Result<Option<CookieJar>, LoginError>)
        ensures
            final(self)@ == stepped(old(self)@, LoginEvent::Sync),
            match r {
                Ok(Some(tokens)) => old(self)@.status == LoginPhase::Confirmed && tokens@
                    == sync_tokens_of(old(self)@) && tokens@.len() > 0,
                Ok(None) => old(self)@.status == LoginPhase::Confirmed && sync_tokens_of(
                    old(self)@,
                ).len() == 0,
                Err(e) => old(self)@.status != LoginPhase::Confirmed && e
                    == LoginError::OutOfOrder,
            },
    {
        if self.status != LoginPhase::Confirmed {
            return Err(LoginError::OutOfOrder);
        }
        self.sync_requested = true;
        let mut tokens = CookieJar::new();
        let names: [&str; 4] = [
            "customer-sso-sid",
            "access-token-creator.xiaohongshu.com",
            "galaxy.creator.beaker.session.id",
            "web_session",
        ];
        let ghost all = token_names();
        assert(all =~= seq![names@[0]@, names@[1]@, names@[2]@, names@[3]@]);
        let mut i: usize = 0;
        while i < 4
            invariant
                i <= 4,
                names@.len() == 4,
                all == token_names(),
                all.len() == 4,
                forall|j: int| 0 <= j < 4 ==> all[j] == names@[j]@,
                self@ == stepped(old(self)@, LoginEvent::Sync),
                tokens@ == tokens_among(self@.observed, self@.guest_cookies, all.take(i as int)),
            decreases 4 - i,
        {
            proof {
                assert(all.take(i as int + 1).drop_last() =~= all.take(i as int));
                assert(all.take(i as int + 1).last() == names@[i as int]@);
            }
            let name: &str = names[i];
            let value = match self.observed.get(name) {
                Some(v) => Some(v),
                None => self.guest_cookies.get(name),
            };
            match value {
                Some(v) => {
                    tokens.insert(String::from_str(name), v);
                },
                None => {},
            }
            i += 1;
        }
        assert(all.take(4) =~= all);
        if tokens.is_empty() {
            Ok(None)
        } else {
            Ok(Some(tokens))
        }
    }

    /// Commits the confirmed login at `now`, after `sync_tokens`: the
    /// credential holds the complete cookie set `synced` or, when the
    /// synchronisation failed or was skipped, the cookies that the attempt
    /// observed. It replaces every credential in the store, valid or not. An
    /// attempt that has failed or expired commits nothing and reports
    /// `LoginFailed`.
    pub fn commit(&mut self, synced: Option<CookieJar>, auth: &mut AuthService, now: i64) -> (r:
        Result<UserCredentials, LoginError>)
        ensures
            final(self)@ == stepped(old(self)@, LoginEvent::Commit),
            match r {
                Ok(c) => {
                    &&& old(self)@.status == LoginPhase::Confirmed
                    &&& old(self)@.sync_requested
                    &&& c@ == committed_credential(old(self)@, jar_view(synced), now as int)
                    &&& final(auth).records() == saved(old(auth).records(), c@)
                    &&& active(final(auth).records()) == Some(c@)
                    &&& final(auth).cache() is None
                    &&& final(auth).signatures() == old(auth).signatures()
                },
                Err(e) => {
                    &&& !(old(self)@.status == LoginPhase::Confirmed && old(self)@.sync_requested)
                    &&& e == if old(self)@.status == LoginPhase::Failed || old(self)@.status
                        == LoginPhase::Expired {
                        LoginError::LoginFailed
                    } else {
                        LoginError::OutOfOrder
                    }
                    &&& *final(auth) == *old(auth)
                },
            },
    {
        if self.status == LoginPhase::Failed || self.status == LoginPhase::Expired {
            return Err(LoginError::LoginFailed);
        }
        if self.status != LoginPhase::Confirmed || !self.sync_requested {
            return Err(LoginError::OutOfOrder);
        }
        let cookies = match synced {
            Some(full) => full,
            None => {
                let mut seen = self.guest_cookies.clone();
                seen.extend(&self.observed);
                seen
            },
        };
        let user_id = match &self.login_info {
            Some(info) => info.user_id.clone(),
            None => String::from_str(UNKNOWN_USER),
        };
        let creds = UserCredentials::new_at(user_id, cookies, None, now);
        auth.save_credentials(&creds);
        self.status = LoginPhase::Committed;
        Ok(creds)
    }
}

/// Reads what the guest-bootstrap collaborator answered; `None` stands for no
/// answer. Anything but a successful answer that holds cookies gives nothing.
pub fn fetch_creator_guest_cookies(answer: Option<AgentGuestCookiesResponse>) -> (r: Option<
    CookieJar,
>)
    ensures
        jar_view(r) == match answer {
            Some(a) => if a.success {
                jar_view(a.cookies)
            } else {
                None
            },
            None => None,
        },
{
    match answer {
        Some(a) => if a.success {
            a.cookies
        } else {
            None
        },
        None => None,
    }
}

// ---------------------------------------------------------------------------
// What is shown of the current session
// ---------------------------------------------------------------------------
/// The domain shown for every cookie.
pub const COOKIE_DOMAIN: &'static str = ".xiaohongshu.com";

/// What stands for the part of a value that is not shown.
pub const ELLIPSIS: &'static str = "...";

pub const SESSION_FOUND: &'static str = "Session found";

pub const NO_SESSION: &'static str = "No active session found. Please login first.";

/// A cookie's value as it is shown: of a value of more than ten characters
/// only the first three and the last three.
pub open spec fn masked(value: Seq<char>) -> Seq<char> {
    if value.len() > 10 {
        value.take(3) + ELLIPSIS@ + value.skip(value.len() - 3)
    } else {
        value
    }
}

/// A signature fragment as it is shown: of a fragment of more than thirty
/// characters only the first thirty.
pub open spec fn shortened(value: Seq<char>) -> Seq<char> {
    if value.len() > 30 {
        value.take(30) + ELLIPSIS@
    } else {
        value
    }
}

/// The cookies as they are shown.
pub open spec fn shown_cookies(cookies: Seq<CookiePair>) -> Seq<CookieInfoView> {
    cookies.map_values(
        |c: CookiePair| CookieInfoView { name: c.0, value: masked(c.1), domain: COOKIE_DOMAIN@ },
    )
}

/// What is shown of the credential `c`.
pub open spec fn shown_session(c: CredentialsView) -> SessionInfoDataView {
    SessionInfoDataView {
        user_id: c.user_id,
        cookie_count: c.cookies.len(),
        cookies: shown_cookies(c.cookies),
        x_s_common: match c.x_s_common {
            Some(x) => Some(shortened(x)),
            None => None,
        },
        created_at: c.created_at,
        is_valid: c.is_valid,
    }
}

/// A cookie's value as it is shown.
pub fn mask_value(value: &str) -> (r: String)
    ensures
        r@ == masked(value@),
{
    let chars = to_chars(value);
    if chars.len() > 10 {
        let head = sub_chars(&chars, 0, 3);
        let tail = sub_chars(&chars, chars.len() - 3, chars.len());
        let mut out = string_of(&head);
        out.append(ELLIPSIS);
        out.append(string_of(&tail).as_str());
        assert(head@ =~= value@.take(3));
        assert(tail@ =~= value@.skip(value@.len() - 3));
        out
    } else {
        string_of(&chars)
    }
}

/// A signature fragment as it is shown.
pub fn shorten_fragment(value: &str) -> (r: String)
    ensures
        r@ == shortened(value@),
{
    let chars = to_chars(value);
    if chars.len() > 30 {
        let head = sub_chars(&chars, 0, 30);
        let mut out = string_of(&head);
        out.append(ELLIPSIS);
        assert(head@ =~= value@.take(30));
        out
    } else {
        string_of(&chars)
    }
}

/// What is shown of the current session at `now`: the credential's user, its
/// cookies with masked values and when it was created; a failure when there
/// is no credential.
pub fn get_session_info(auth: &mut AuthService, now: i64) -> (r: SessionInfoResponse)
    ensures
        match crate::auth::service::found(old(auth).cache(), old(auth).records(), now as int) {
            Some(c) => r.code == 0 && r.success && r.msg@ == SESSION_FOUND@ && (
            r.data matches Some(d) && d@ == shown_session(c)),
            None => r.code == -1 && !r.success && r.msg@ == NO_SESSION@ && r.data is None,
        },
        final(auth).cache() == crate::auth::service::cache_after_lookup(
            old(auth).cache(),
            old(auth).records(),
            now as int,
        ),
        final(auth).records() == old(auth).records(),
        final(auth).signatures() == old(auth).signatures(),
{
    match auth.try_get_credentials(now) {
        Some(creds) => {
            let pairs = creds.cookies.to_pairs();
            let ghost all = creds@.cookies;
            let mut cookies: Vec<CookieInfo> = Vec::new();
            let mut i: usize = 0;
            while i < pairs.len()
                invariant
                    i <= pairs.len(),
                    pairs@.map_values(|c: crate::cookies::Cookie| c@) == all,
                    cookies.len() == i,
                    forall|j: int| 0 <= j < i ==> cookies@[j]@ == shown_cookies(all)[j],
                decreases pairs.len() - i,
            {
                assert(all[i as int] == pairs@[i as int]@);
                cookies.push(
                    CookieInfo {
                        name: pairs[i].name.clone(),
                        value: mask_value(pairs[i].value.as_str()),
                        domain: String::from_str(COOKIE_DOMAIN),
                    },
                );
                i += 1;
            }
            assert(cookies@.map_values(|c: CookieInfo| c@) =~= shown_cookies(all));
            let x_s_common = match &creds.x_s_common {
                Some(x) => Some(shorten_fragment(x.as_str())),
                None => None,
            };
            SessionInfoResponse {
                code: 0,
                success: true,
                msg: String::from_str(SESSION_FOUND),
                data: Some(
                    SessionInfoData {
                        user_id: creds.user_id,
                        cookie_count: pairs.len(),
                        cookies,
                        x_s_common,
                        created_at: creds.created_at,
                        is_valid: creds.is_valid,
                    },
                ),
            }
        },
        None => SessionInfoResponse {
            code: -1,
            success: false,
            msg: String::from_str(NO_SESSION),
            data: None,
        },
    }
}

// ---------------------------------------------------------------------------
// The QR code of the main site
// ---------------------------------------------------------------------------
/// The path at which QR codes are created.
pub const QRCODE_CREATE_PATH: &'static str = "/api/sns/web/v1/login/qrcode/create";

/// The path at which the status of a QR code is polled.
pub const QRCODE_STATUS_PATH: &'static str = "/api/sns/web/v1/login/qrcode/status";

/// The body of the request that creates a QR code, as JSON text.
pub const QRCODE_CREATE_PAYLOAD: &'static str = "{\"qr_type\":1}";

/// The trace id that the creation of a QR code carries.
pub const QRCODE_TRACE_ID: &'static str = "523a6c2267e872aa";

/// The path and query of a poll of the QR code `qr_id` with the code `code`,
/// with only its effective parameters.
pub open spec fn qrcode_status_uri(qr_id: Seq<char>, code: Seq<char>) -> Seq<char> {
    sanitized_uri(QRCODE_STATUS_PATH@ + "?"@ + "qr_id="@ + qr_id + "&code="@ + code)
}

/// The headers of a request of the login flow, signed with the values of
/// `x-s`, `x-t` and `x-s-common`: the creation of a QR code if `create`, a
/// poll of its status otherwise.
pub open spec fn login_headers(
    create: bool,
    signature: (Seq<char>, Seq<char>, Seq<char>),
    cookie: Seq<char>,
) -> Seq<TextPair> {
    (if create {
        seq![("content-type"@, CONTENT_TYPE_JSON@)]
    } else {
        seq![("x-login-mode"@, Seq::<char>::empty())]
    }) + seq![
        ("origin"@, ORIGIN@),
        ("referer"@, REFERER@),
        ("accept"@, ACCEPT@),
        ("accept-language"@, ACCEPT_LANGUAGE@),
    ] + (if create {
        seq![("priority"@, "u=1, i"@)]
    } else {
        Seq::<TextPair>::empty()
    }) + seq![
        ("sec-ch-ua"@, SEC_CH_UA@),
        ("sec-ch-ua-mobile"@, "?0"@),
        ("sec-ch-ua-platform"@, SEC_CH_UA_PLATFORM@),
        ("sec-fetch-dest"@, "empty"@),
        ("sec-fetch-mode"@, "cors"@),
        ("sec-fetch-site"@, "same-site"@),
        ("x-t"@, signature.1),
    ] + (if create {
        seq![("x-b3-traceid"@, QRCODE_TRACE_ID@)]
    } else {
        Seq::<TextPair>::empty()
    }) + seq![("x-s"@, signature.0), ("x-s-common"@, signature.2), ("cookie"@, cookie)]
}

fn build_login_headers(create: bool, signature: &(String, String, String), cookies: &CookieJar) -> (r:
    Vec<Pair>)
    ensures
        pair_views(r@) == login_headers(
            create,
            (signature.0@, signature.1@, signature.2@),
            cookie_header(cookies@),
        ),
{
    let mut h: Vec<Pair> = Vec::new();
    assert(pair_views(h@) =~= Seq::<TextPair>::empty());
    if create {
        push_pair(&mut h, "content-type", CONTENT_TYPE_JSON);
    } else {
        push_pair(&mut h, "x-login-mode", "");
    }
    push_pair(&mut h, "origin", ORIGIN);
    push_pair(&mut h, "referer", REFERER);
    push_pair(&mut h, "accept", ACCEPT);
    push_pair(&mut h, "accept-language", ACCEPT_LANGUAGE);
    if create {
        push_pair(&mut h, "priority", "u=1, i");
    }
    push_pair(&mut h, "sec-ch-ua", SEC_CH_UA);
    push_pair(&mut h, "sec-ch-ua-mobile", "?0");
    push_pair(&mut h, "sec-ch-ua-platform", SEC_CH_UA_PLATFORM);
    push_pair(&mut h, "sec-fetch-dest", "empty");
    push_pair(&mut h, "sec-fetch-mode", "cors");
    push_pair(&mut h, "sec-fetch-site", "same-site");
    push_pair(&mut h, "x-t", signature.1.as_str());
    if create {
        push_pair(&mut h, "x-b3-traceid", QRCODE_TRACE_ID);
    }
    push_pair(&mut h, "x-s", signature.0.as_str());
    push_pair(&mut h, "x-s-common", signature.2.as_str());
    let cookie = cookies_to_string(cookies);
    push_pair(&mut h, "cookie", cookie.as_str());
    proof {
        reveal_strlit("");
        assert(""@ =~= Seq::<char>::empty());
        assert(pair_views(h@) =~= login_headers(
            create,
            (signature.0@, signature.1@, signature.2@),
            cookie_header(cookies@),
        ));
    }
    h
}

/// The request that creates a QR code, with the session's cookies and the
/// signature that the collaborator gave for it.
pub fn create_qrcode(cookies: &CookieJar, signature: &(String, String, String)) -> (r:
    OutboundRequest)
    ensures
        r@ == (OutboundRequestView {
            method: HttpMethod::Post,
            url: API_HOST@ + QRCODE_CREATE_PATH@,
            headers: login_headers(
                true,
                (signature.0@, signature.1@, signature.2@),
                cookie_header(cookies@),
            ),
            body: Some(QRCODE_CREATE_PAYLOAD@),
            tier: SignatureTier::Collaborator,
        }),
{
    OutboundRequest {
        method: HttpMethod::Post,
        url: followed_by(API_HOST, QRCODE_CREATE_PATH),
        headers: build_login_headers(true, signature, cookies),
        body: Some(String::from_str(QRCODE_CREATE_PAYLOAD)),
        tier: SignatureTier::Collaborator,
    }
}

/// The path and query of a poll of the QR code `qr_id` with the code `code`:
/// this is what the collaborator signs.
pub fn qrcode_status_path(qr_id: &str, code: &str) -> (r: String)
    ensures
        r@ == qrcode_status_uri(qr_id@, code@),
{
    let mut full = String::from_str(QRCODE_STATUS_PATH);
    full.append("?");
    full.append("qr_id=");
    full.append(qr_id);
    full.append("&code=");
    full.append(code);
    sanitize_uri(full.as_str())
}

/// The request that polls the status of the QR code `qr_id` with the code
/// `code`, with the session's cookies and the signature that the
/// collaborator gave for it.
pub fn check_qrcode_status(
    cookies: &CookieJar,
    signature: &(String, String, String),
    qr_id: &str,
    code: &str,
) -> (r: OutboundRequest)
    ensures
        r@ == (OutboundRequestView {
            method: HttpMethod::Get,
            url: API_HOST@ + qrcode_status_uri(qr_id@, code@),
            headers: login_headers(
                false,
                (signature.0@, signature.1@, signature.2@),
                cookie_header(cookies@),
            ),
            body: None,
            tier: SignatureTier::Collaborator,
        }),
{
    let path = qrcode_status_path(qr_id, code);
    OutboundRequest {
        method: HttpMethod::Get,
        url: followed_by(API_HOST, path.as_str()),
        headers: build_login_headers(false, signature, cookies),
        body: None,
        tier: SignatureTier::Collaborator,
    }
}

/// The QR code that the answer to its creation holds: the answer has to
/// report success and to name the code's id, its code and its address.
pub open spec fn issued_qrcode(doc: serde_json::Value) -> Option<QrCodeDataView> {
    if flag_at(doc, "success"@) == Some(true) {
        match json_member(doc, "data"@) {
            Some(data) => match text_at(data, "qr_id"@) {
                Some(qr_id) => match text_at(data, "code"@) {
                    Some(code) => match text_at(data, "url"@) {
                        Some(url) => Some(
                            QrCodeDataView {
                                qr_id,
                                code,
                                url,
                                multi_flag: (match integer_at(data, "multi_flag"@) {
                                    Some(f) => f,
                                    None => 0,
                                }) as i32,
                            },
                        ),
                        None => None,
                    },
                    None => None,
                },
                None => None,
            },
            None => None,
        }
    } else {
        None
    }
}

/// Reads the QR code from the body of the answer to its creation.
pub fn read_qrcode(body: &str) -> (r: Option<QrCodeData>)
    ensures
        qr_view(r) == match json_parsed(body@) {
            Some(doc) => issued_qrcode(doc),
            None => None,
        },
{
    let doc = match parse(body) {
        Some(d) => d,
        None => {
            return None;
        },
    };
    let succeeded = match read_flag(&doc, "success") {
        Some(b) => b,
        None => false,
    };
    if !succeeded {
        return None;
    }
    let data = match member(&doc, "data") {
        Some(d) => d,
        None => {
            return None;
        },
    };
    let qr_id = match read_text(data, "qr_id") {
        Some(t) => t,
        None => {
            return None;
        },
    };
    let code = match read_text(data, "code") {
        Some(t) => t,
        None => {
            return None;
        },
    };
    let url = match read_text(data, "url") {
        Some(t) => t,
        None => {
            return None;
        },
    };
    let flag: i64 = match read_integer(data, "multi_flag") {
        Some(f) => f,
        None => 0,
    };
    let multi_flag: i32 = #[verifier::truncate]
    (flag as i32);
    Some(QrCodeData { qr_id, code, url, multi_flag })
}

/// What a poll of a QR code of the main site reports, given the status of
/// the answer, its parsed body if it is a JSON document, and the cookies that
/// it offered. A status of 400 or above is a failure; otherwise the status
/// code at `data.code_status` decides, and a confirmation carries the login
/// that `data.login_info` names.
pub open spec fn user_report(
    status: u16,
    doc: Option<serde_json::Value>,
    new_cookies: Seq<CookiePair>,
) -> PollReportView {
    let data = match doc {
        Some(d) => json_member(d, "data"@),
        None => None,
    };
    let found = if status >= 400 {
        PollStatus::Failed
    } else {
        status_of_code(
            LoginTarget::User,
            match data {
                Some(d) => integer_at(d, "code_status"@),
                None => None,
            },
        )
    };
    PollReportView {
        status: found,
        login_info: if found == PollStatus::Confirmed {
            match data {
                Some(d) => reported_login(d),
                None => None,
            }
        } else {
            None
        },
        new_cookies,
    }
}

/// Reads the answer to a poll of a QR code of the main site, given its
/// status, its body and the values of its `Set-Cookie` headers.
pub fn read_poll(status: u16, body: &str, set_cookies: &Vec<String>) -> (r: PollReport)
    ensures
        r@ == user_report(
            status,
            json_parsed(body@),
            offered_cookies(set_cookies@.map_values(|h: String| h@)),
        ),
{
    let new_cookies = collect_set_cookies(set_cookies);
    let doc = parse(body);
    let (code, login): (Option<i64>, Option<LoginInfo>) = match &doc {
        Some(d) => match member(d, "data") {
            Some(data) => (read_integer(data, "code_status"), read_login(data)),
            None => (None, None),
        },
        None => (None, None),
    };
    let found = if status >= 400 {
        PollStatus::Failed
    } else {
        poll_status(LoginTarget::User, code)
    };
    let login_info = if found == PollStatus::Confirmed {
        login
    } else {
        None
    };
    PollReport { status: found, login_info, new_cookies }
}

} // verus!
