//! The browser login: a helper process drives a browser and reports on its
//! standard output, one JSON document per line. This module reads what it
//! reports; running the process is left to the caller.

use crate::json::{
    as_text, flag_at, integer_at, items_at, json_member, json_parsed, json_text, member, parse,
    read_flag, read_integer, read_items, read_text, text_at,
};
use crate::models::login::{
    login_info_view, CaptureStatusData, LoginInfo, LoginInfoView, QrCodeSessionResponse,
    QrCodeStatusData,
};
use crate::text::{
    decimal, has_prefix, i64_to_decimal, same_text, signed_decimal, split_chars, split_on,
    starts_with, string_of, sub_chars, text_of, to_chars, u128_to_decimal, views_of,
};
use vstd::prelude::*;
use vstd::string::StringExecFns;

verus! {

/// The script that drives the browser.
pub const LOGIN_SCRIPT: &'static str = "scripts/login.py";

/// The programs that may run the script, in the order in which they are tried.
pub open spec fn python_candidates() -> Seq<Seq<char>> {
    seq!["python"@, "python3"@, "py"@]
}

/// What a line of the script's output begins with when it reports the result.
pub const RESULT_PREFIX: &'static str = "JSON_RESULT:";

/// The reason given for a failure that names none.
pub const UNKNOWN_ERROR: &'static str = "Unknown error";

/// The status recorded for a poll that names none.
pub const UNKNOWN_STATUS: i64 = -1;

/// Why the browser login failed.
#[derive(Debug)]
pub enum BrowserLoginError {
    /// The script reported a failure.
    Reported { reason: String },
    /// The script reported nothing and exited with a failure.
    ScriptFailed { exit_code: Option<i32> },
}

/// What a `BrowserLoginError` holds.
pub enum BrowserLoginErrorView {
    Reported { reason: Seq<char> },
    ScriptFailed { exit_code: Option<i32> },
}

impl View for BrowserLoginError {
    type V = BrowserLoginErrorView;

    open spec fn view(&self) -> BrowserLoginErrorView {
        match self {
            BrowserLoginError::Reported { reason } => BrowserLoginErrorView::Reported {
                reason: reason@,
            },
            BrowserLoginError::ScriptFailed { exit_code } => BrowserLoginErrorView::ScriptFailed {
                exit_code: *exit_code,
            },
        }
    }
}

/// An exit code as it is shown: `Some(1)`, or `None` when the script was killed.
pub open spec fn shown_exit_code(exit_code: Option<i32>) -> Seq<char> {
    match exit_code {
        Some(c) => "Some("@ + signed_decimal(c as int) + ")"@,
        None => "None"@,
    }
}

impl BrowserLoginErrorView {
    /// The error in words.
    pub open spec fn message(self) -> Seq<char> {
        match self {
            BrowserLoginErrorView::Reported { reason } => "Login failed: "@ + reason,
            BrowserLoginErrorView::ScriptFailed {
                exit_code,
            } => "Python login script failed with exit code: "@ + shown_exit_code(exit_code),
        }
    }
}

impl BrowserLoginError {
    /// The error in words.
    pub fn message(&self) -> (r: String)
        ensures
            r@ == self@.message(),
    {
        match self {
            BrowserLoginError::Reported { reason } => {
                let mut out = String::from_str("Login failed: ");
                out.append(reason.as_str());
                out
            },
            BrowserLoginError::ScriptFailed { exit_code } => {
                let mut out = String::from_str("Python login script failed with exit code: ");
                match exit_code {
                    Some(c) => {
                        let ghost head = out@;
                        out.append("Some(");
                        out.append(i64_to_decimal(*c as i64).as_str());
                        out.append(")");
                        assert(out@ =~= head + ("Some("@ + signed_decimal(*c as int) + ")"@));
                    },
                    None => {
                        out.append("None");
                    },
                }
                out
            },
        }
    }
}

/// `line` without every `prefix` that it begins with.
pub open spec fn stripped(line: Seq<char>, prefix: Seq<char>) -> Seq<char>
    decreases line.len(),
{
    if prefix.len() > 0 && starts_with(line, prefix) {
        stripped(line.skip(prefix.len() as int), prefix)
    } else {
        line
    }
}

/// What a line of the script's output reports of the result: nothing unless
/// it begins with the result prefix and a JSON document follows; then success,
/// or the failure that the document names.
pub open spec fn reported_result(line: Seq<char>) -> Option<Result<(), Seq<char>>> {
    if starts_with(line, RESULT_PREFIX@) {
        match json_parsed(stripped(line, RESULT_PREFIX@)) {
            Some(doc) => if flag_at(doc, "success"@) == Some(true) {
                Some(Ok(()))
            } else {
                Some(
                    Err(
                        match text_at(doc, "error"@) {
                            Some(e) => e,
                            None => UNKNOWN_ERROR@,
                        },
                    ),
                )
            },
            None => None,
        }
    } else {
        None
    }
}

/// The first result that the lines report, if any of them reports one.
pub open spec fn first_result(lines: Seq<Seq<char>>) -> Option<Result<(), Seq<char>>>
    decreases lines.len(),
{
    if lines.len() == 0 {
        None
    } else {
        match reported_result(lines[0]) {
            Some(r) => Some(r),
            None => first_result(lines.drop_first()),
        }
    }
}

/// The outcome of a browser login, given the script's output and how it
/// exited: the first result that a line reports; without one, success exactly
/// if the script exited with success.
pub open spec fn login_outcome(output: Seq<char>, exited_ok: bool, exit_code: Option<i32>) -> Result<
    (),
    BrowserLoginErrorView,
> {
    match first_result(split_on(output, '\n')) {
        Some(Ok(_)) => Ok(()),
        Some(Err(reason)) => Err(BrowserLoginErrorView::Reported { reason }),
        None => if exited_ok {
            Ok(())
        } else {
            Err(BrowserLoginErrorView::ScriptFailed { exit_code })
        },
    }
}

fn strip_prefixes(line: &Vec<char>, prefix: &Vec<char>) -> (r: Vec<char>)
    ensures
        r@ == stripped(line@, prefix@),
{
    let mut start: usize = 0;
    if prefix.len() == 0 {
        let whole = sub_chars(line, 0, line.len());
        assert(whole@ =~= line@);
        return whole;
    }
    assert(line@.skip(0) =~= line@);
    loop
        invariant
            start <= line.len(),
            prefix.len() > 0,
            stripped(line@, prefix@) == stripped(line@.skip(start as int), prefix@),
        decreases line.len() - start,
    {
        let rest = sub_chars(line, start, line.len());
        assert(rest@ =~= line@.skip(start as int));
        if !has_prefix(&rest, prefix) {
            return rest;
        }
        assert(line@.skip(start as int).skip(prefix.len() as int) =~= line@.skip(
            start + prefix.len(),
        ));
        start = start + prefix.len();
    }
}

fn read_result(line: &Vec<char>) -> (r: Option<Result<(), String>>)
    ensures
        match r {
            Some(Ok(_)) => reported_result(line@) == Some(Ok::<(), Seq<char>>(())),
            Some(Err(e)) => reported_result(line@) == Some(Err::<(), Seq<char>>(e@)),
            None => reported_result(line@) is None,
        },
{
    let prefix = to_chars(RESULT_PREFIX);
    if !has_prefix(line, &prefix) {
        return None;
    }
    let rest = strip_prefixes(line, &prefix);
    let text = string_of(&rest);
    match parse(text.as_str()) {
        Some(doc) => {
            let succeeded = match read_flag(&doc, "success") {
                Some(b) => b,
                None => false,
            };
            if succeeded {
                Some(Ok(()))
            } else {
                let reason = match read_text(&doc, "error") {
                    Some(e) => e,
                    None => String::from_str(UNKNOWN_ERROR),
                };
                Some(Err(reason))
            }
        },
        None => None,
    }
}

/// The outcome of a browser login, given what the script wrote to its
/// standard output, whether it exited with success, and its exit code.
pub fn trigger_python_login(output: &str, exited_ok: bool, exit_code: Option<i32>) -> (r: Result<
    (),
    BrowserLoginError,
>)
    ensures
        match r {
            Ok(_) => login_outcome(output@, exited_ok, exit_code) == Ok::<
                (),
                BrowserLoginErrorView,
            >(()),
            Err(e) => login_outcome(output@, exited_ok, exit_code) == Err::<
                (),
                BrowserLoginErrorView,
            >(e@),
        },
{
    let chars = to_chars(output);
    let lines = split_chars(&chars, '\n');
    let ghost all = split_on(output@, '\n');
    let mut i: usize = 0;
    assert(all.skip(0) =~= all);
    while i < lines.len()
        invariant
            i <= lines.len(),
            views_of(lines@) == all,
            all == split_on(output@, '\n'),
            first_result(all) == first_result(all.skip(i as int)),
        decreases lines.len() - i,
    {
        assert(all.skip(i as int)[0] == lines@[i as int]@);
        assert(all.skip(i as int).drop_first() =~= all.skip(i as int + 1));
        assert(first_result(all.skip(i as int)) == match reported_result(lines@[i as int]@) {
            Some(r) => Some(r),
            None => first_result(all.skip(i as int + 1)),
        });
        match read_result(&lines[i]) {
            Some(Ok(_)) => {
                return Ok(());
            },
            Some(Err(reason)) => {
                return Err(BrowserLoginError::Reported { reason });
            },
            None => {},
        }
        i += 1;
    }
    assert(all.skip(lines.len() as int) =~= Seq::<Seq<char>>::empty());
    if exited_ok {
        Ok(())
    } else {
        Err(BrowserLoginError::ScriptFailed { exit_code })
    }
}

// ---------------------------------------------------------------------------
// The login session's reports
// ---------------------------------------------------------------------------
/// What the first report of a login session holds.
pub struct SessionStartView {
    pub success: bool,
    pub step: Option<Seq<char>>,
    pub qr_base64: Option<Seq<char>>,
    pub error: Option<Seq<char>>,
}

/// The first report of a login session that `line` holds: a JSON object that
/// says whether the session started; nothing for any other line.
pub open spec fn session_start(line: Seq<char>) -> Option<SessionStartView> {
    match json_parsed(line) {
        Some(doc) => match flag_at(doc, "success"@) {
            Some(success) => Some(
                SessionStartView {
                    success,
                    step: text_at(doc, "step"@),
                    qr_base64: text_at(doc, "qr_base64"@),
                    error: text_at(doc, "error"@),
                },
            ),
            None => None,
        },
        None => None,
    }
}

/// Reads the first report of a login session from one line of the script's output.
pub fn read_session_start(line: &str) -> (r: Option<QrCodeSessionResponse>)
    ensures
        match r {
            Some(s) => session_start(line@) == Some(
                SessionStartView {
                    success: s.success,
                    step: text_of(s.step),
                    qr_base64: text_of(s.qr_base64),
                    error: text_of(s.error),
                },
            ),
            None => session_start(line@) is None,
        },
{
    match parse(line) {
        Some(doc) => match read_flag(&doc, "success") {
            Some(success) => Some(
                QrCodeSessionResponse {
                    success,
                    step: read_text(&doc, "step"),
                    qr_base64: read_text(&doc, "qr_base64"),
                    error: read_text(&doc, "error"),
                },
            ),
            None => None,
        },
        None => None,
    }
}

/// The login that a status report names: it has to name the session, the
/// secure session and the user.
pub open spec fn reported_login(data: serde_json::Value) -> Option<LoginInfoView> {
    match json_member(data, "login_info"@) {
        Some(info) => match text_at(info, "session"@) {
            Some(session) => match text_at(info, "secure_session"@) {
                Some(secure_session) => match text_at(info, "user_id"@) {
                    Some(user_id) => Some(LoginInfoView { session, secure_session, user_id }),
                    None => None,
                },
                None => None,
            },
            None => None,
        },
        None => None,
    }
}

/// What a status report holds.
pub struct QrStatusView {
    pub code_status: i32,
    pub login_info: Option<LoginInfoView>,
}

/// The status of the QR code that a report holds: a report of the step
/// `qrcode_status` with data. A report without a status code holds the code -1.
pub open spec fn reported_status(doc: serde_json::Value) -> Option<QrStatusView> {
    if text_at(doc, "step"@) == Some("qrcode_status"@) {
        match json_member(doc, "data"@) {
            Some(data) => Some(
                QrStatusView {
                    code_status: (match integer_at(data, "code_status"@) {
                        Some(c) => c,
                        None => UNKNOWN_STATUS,
                    }) as i32,
                    login_info: reported_login(data),
                },
            ),
            None => None,
        }
    } else {
        None
    }
}

/// The texts among `values`, in order.
pub open spec fn texts_of(values: Seq<serde_json::Value>) -> Seq<Seq<char>>
    decreases values.len(),
{
    if values.len() == 0 {
        Seq::empty()
    } else {
        let before = texts_of(values.drop_last());
        match json_text(values.last()) {
            Some(t) => before.push(t),
            None => before,
        }
    }
}

/// What the message of a finished capture begins with.
pub const CAPTURE_DONE_HEAD: &'static str = "\u{91c7}\u{96c6}\u{5b8c}\u{6210}\u{ff0c}\u{5171} ";

/// What the message of a finished capture ends with.
pub const CAPTURE_DONE_TAIL: &'static str = " \u{4e2a}\u{7b7e}\u{540d}";

/// The message of a capture that ended with its process.
pub const CAPTURE_ENDED: &'static str = "\u{91c7}\u{96c6}\u{6d41}\u{7a0b}\u{5df2}\u{7ed3}\u{675f}";

/// The message of a capture whose process ended before it reported.
pub const CAPTURE_ABORTED: &'static str =
    "\u{91c7}\u{96c6}\u{6d41}\u{7a0b}\u{5f02}\u{5e38}\u{7ed3}\u{675f}";

/// What a capture report holds.
pub struct CaptureView {
    pub is_complete: bool,
    pub signatures_captured: Seq<Seq<char>>,
    pub total_count: nat,
    pub message: Seq<char>,
}

/// The view of a capture report.
pub open spec fn capture_view(c: CaptureStatusData) -> CaptureView {
    CaptureView {
        is_complete: c.is_complete,
        signatures_captured: c.signatures_captured@.map_values(|s: String| s@),
        total_count: c.total_count as nat,
        message: c.message@,
    }
}

/// The finished capture of the signatures `names`.
pub open spec fn finished_capture(names: Seq<Seq<char>>) -> CaptureView {
    CaptureView {
        is_complete: true,
        signatures_captured: names,
        total_count: names.len(),
        message: CAPTURE_DONE_HEAD@ + decimal(names.len()) + CAPTURE_DONE_TAIL@,
    }
}

/// The finished capture that a report holds: a report that lists the
/// captured signatures.
pub open spec fn reported_capture(doc: serde_json::Value) -> Option<CaptureView> {
    match items_at(doc, "signatures_captured"@) {
        Some(values) => Some(finished_capture(texts_of(values))),
        None => None,
    }
}

/// What one report of a login session changes.
#[derive(Debug)]
pub struct SessionUpdate {
    /// The new status of the QR code, if the report holds one.
    pub qrcode_status: Option<QrCodeStatusData>,
    /// The finished capture, if the report holds one.
    pub capture_status: Option<CaptureStatusData>,
}

/// The login that a status report names, if it names one.
pub fn read_login(data: &serde_json::Value) -> (r: Option<LoginInfo>)
    ensures
        login_info_view(r) == reported_login(*data),
{
    match member(data, "login_info") {
        Some(info) => {
            let session = match read_text(info, "session") {
                Some(s) => s,
                None => {
                    return None;
                },
            };
            let secure_session = match read_text(info, "secure_session") {
                Some(s) => s,
                None => {
                    return None;
                },
            };
            let user_id = match read_text(info, "user_id") {
                Some(s) => s,
                None => {
                    return None;
                },
            };
            Some(LoginInfo { session, secure_session, user_id })
        },
        None => None,
    }
}

fn read_texts(values: &Vec<serde_json::Value>) -> (r: Vec<String>)
    ensures
        r@.map_values(|s: String| s@) == texts_of(values@),
{
    let mut out: Vec<String> = Vec::new();
    let mut i: usize = 0;
    assert(values@.take(0) =~= Seq::<serde_json::Value>::empty());
    assert(out@.map_values(|s: String| s@) =~= Seq::<Seq<char>>::empty());
    while i < values.len()
        invariant
            i <= values.len(),
            out@.map_values(|s: String| s@) == texts_of(values@.take(i as int)),
        decreases values.len() - i,
    {
        proof {
            assert(values@.take(i as int + 1).drop_last() =~= values@.take(i as int));
            assert(values@.take(i as int + 1).last() == values@[i as int]);
        }
        match as_text(&values[i]) {
            Some(t) => {
                let ghost before = out@;
                out.push(t);
                assert(out@.map_values(|s: String| s@) =~= before.map_values(|s: String| s@).push(
                    t@,
                ));
            },
            None => {},
        }
        i += 1;
    }
    assert(values@.take(values.len() as int) =~= values@);
    out
}

/// The finished capture of the given signatures.
pub fn capture_finished(names: Vec<String>) -> (r: CaptureStatusData)
    ensures
        capture_view(r) == finished_capture(names@.map_values(|s: String| s@)),
{
    let count = names.len();
    let mut message = String::from_str(CAPTURE_DONE_HEAD);
    message.append(string_of(&u128_to_decimal(count as u128)).as_str());
    message.append(CAPTURE_DONE_TAIL);
    CaptureStatusData { is_complete: true, signatures_captured: names, total_count: count, message }
}

/// What the report `doc` of a login session changes.
pub fn session_update_of(doc: &serde_json::Value) -> (r: SessionUpdate)
    ensures
        match r.qrcode_status {
            Some(s) => reported_status(*doc) == Some(
                QrStatusView { code_status: s.code_status, login_info: login_info_view(s.login_info) },
            ),
            None => reported_status(*doc) is None,
        },
        match r.capture_status {
            Some(c) => reported_capture(*doc) == Some(capture_view(c)),
            None => reported_capture(*doc) is None,
        },
{
    let step = read_text(doc, "step");
    let is_status = match &step {
        Some(s) => same_text(s.as_str(), "qrcode_status"),
        None => false,
    };
    let qrcode_status = if is_status {
        match member(doc, "data") {
            Some(data) => {
                let code: i64 = match read_integer(data, "code_status") {
                    Some(c) => c,
                    None => UNKNOWN_STATUS,
                };
                let code_status: i32 = #[verifier::truncate]
                (code as i32);
                Some(QrCodeStatusData { code_status, login_info: read_login(data) })
            },
            None => None,
        }
    } else {
        None
    };
    let capture_status = match read_items(doc, "signatures_captured") {
        Some(values) => Some(capture_finished(read_texts(values))),
        None => None,
    };
    SessionUpdate { qrcode_status, capture_status }
}

/// What one line of the script's output changes; a line that is no JSON
/// document changes nothing.
pub fn read_session_update(line: &str) -> (r: SessionUpdate)
    ensures
        match r.qrcode_status {
            Some(s) => json_parsed(line@) matches Some(doc) && reported_status(doc) == Some(
                QrStatusView { code_status: s.code_status, login_info: login_info_view(s.login_info) },
            ),
            None => json_parsed(line@) matches Some(doc) ==> reported_status(doc) is None,
        },
        match r.capture_status {
            Some(c) => json_parsed(line@) matches Some(doc) && reported_capture(doc) == Some(
                capture_view(c),
            ),
            None => json_parsed(line@) matches Some(doc) ==> reported_capture(doc) is None,
        },
{
    match parse(line) {
        Some(doc) => session_update_of(&doc),
        None => SessionUpdate { qrcode_status: None, capture_status: None },
    }
}

/// The state of the capture once the script has exited: a capture that was
/// not complete is complete now, and says that it ended; a capture that never
/// reported is complete, empty, and says that it was aborted.
pub open spec fn capture_at_exit(status: Option<CaptureView>) -> CaptureView {
    match status {
        Some(c) => if c.is_complete {
            c
        } else {
            CaptureView { is_complete: true, message: CAPTURE_ENDED@, ..c }
        },
        None => CaptureView {
            is_complete: true,
            signatures_captured: Seq::empty(),
            total_count: 0,
            message: CAPTURE_ABORTED@,
        },
    }
}

/// The state of the capture once the script has exited.
pub fn finish_capture(status: Option<CaptureStatusData>) -> (r: CaptureStatusData)
    ensures
        capture_view(r) == capture_at_exit(
            match status {
                Some(c) => Some(capture_view(c)),
                None => None,
            },
        ),
{
    match status {
        Some(c) => {
            if c.is_complete {
                c
            } else {
                CaptureStatusData {
                    is_complete: true,
                    signatures_captured: c.signatures_captured,
                    total_count: c.total_count,
                    message: String::from_str(CAPTURE_ENDED),
                }
            }
        },
        None => {
            let none: Vec<String> = Vec::new();
            assert(none@.map_values(|s: String| s@) =~= Seq::<Seq<char>>::empty());
            CaptureStatusData {
                is_complete: true,
                signatures_captured: none,
                total_count: 0,
                message: String::from_str(CAPTURE_ABORTED),
            }
        },
    }
}

/// Index of the first line feed in `bytes`, or `bytes.len()`.
pub open spec fn line_end(bytes: Seq<u8>) -> nat
    decreases bytes.len(),
{
    if bytes.len() == 0 {
        0
    } else if bytes[0] == 10 {
        0
    } else {
        1 + line_end(bytes.drop_first())
    }
}

/// The complete lines of `bytes`, each without its line feed.
pub open spec fn complete_lines(bytes: Seq<u8>) -> Seq<Seq<u8>>
    decreases bytes.len(),
{
    let k = line_end(bytes) as int;
    if k >= bytes.len() {
        Seq::empty()
    } else {
        seq![bytes.take(k)] + complete_lines(bytes.skip(k + 1))
    }
}

/// What follows the last line feed of `bytes`: the start of a line that is
/// not complete yet.
pub open spec fn incomplete_line(bytes: Seq<u8>) -> Seq<u8>
    decreases bytes.len(),
{
    let k = line_end(bytes) as int;
    if k >= bytes.len() {
        bytes
    } else {
        incomplete_line(bytes.skip(k + 1))
    }
}

/// An index below which no byte is a line feed and at which one is, or which is
/// the length, is the line's end.
pub proof fn lemma_line_end_is(bytes: Seq<u8>, k: int)
    requires
        0 <= k <= bytes.len(),
        forall|i: int| 0 <= i < k ==> bytes[i] != 10,
        k < bytes.len() ==> bytes[k] == 10,
    ensures
        line_end(bytes) == k,
    decreases bytes.len(),
{
    if bytes.len() > 0 && bytes[0] != 10 {
        let t = bytes.drop_first();
        assert forall|i: int| 0 <= i < k - 1 implies t[i] != 10 by {
            assert(t[i] == bytes[i + 1]);
        }
        if k - 1 < t.len() {
            assert(t[k - 1] == bytes[k]);
        }
        lemma_line_end_is(t, k - 1);
    }
}

/// Takes the complete lines out of the bytes read so far and leaves in
/// `accumulated` the start of the line that is not complete yet.
pub fn drain_lines(accumulated: &mut Vec<u8>) -> (lines: Vec<Vec<u8>>)
    ensures
        lines@.map_values(|l: Vec<u8>| l@) == complete_lines(old(accumulated)@),
        final(accumulated)@ == incomplete_line(old(accumulated)@),
{
    let ghost all = accumulated@;
    let mut lines: Vec<Vec<u8>> = Vec::new();
    let mut start: usize = 0;
    proof {
        assert(all.skip(0) =~= all);
        assert(lines@.map_values(|l: Vec<u8>| l@) + complete_lines(all) =~= complete_lines(all));
    }
    loop
        invariant
            accumulated@ == all,
            all == old(accumulated)@,
            start <= accumulated.len(),
            complete_lines(all) == lines@.map_values(|l: Vec<u8>| l@) + complete_lines(
                all.skip(start as int),
            ),
            incomplete_line(all) == incomplete_line(all.skip(start as int)),
        decreases accumulated.len() - start,
    {
        let ghost rest = all.skip(start as int);
        let mut k: usize = start;
        while k < accumulated.len() && accumulated[k] != 10
            invariant
                accumulated@ == all,
                start <= k <= accumulated.len(),
                forall|j: int| start <= j < k ==> all[j] != 10,
            decreases accumulated.len() - k,
        {
            k += 1;
        }
        proof {
            lemma_line_end_is(rest, k - start);
        }
        if k >= accumulated.len() {
            let mut tail: Vec<u8> = Vec::new();
            let mut j: usize = start;
            while j < accumulated.len()
                invariant
                    accumulated@ == all,
                    start <= j <= accumulated.len(),
                    tail@ == all.subrange(start as int, j as int),
                decreases accumulated.len() - j,
            {
                tail.push(accumulated[j]);
                assert(all.subrange(start as int, j as int + 1) =~= all.subrange(
                    start as int,
                    j as int,
                ).push(all[j as int]));
                j += 1;
            }
            proof {
                assert(tail@ =~= rest);
                assert(complete_lines(rest) =~= Seq::<Seq<u8>>::empty());
                assert(lines@.map_values(|l: Vec<u8>| l@) + Seq::<Seq<u8>>::empty() =~= lines@.map_values(
                    |l: Vec<u8>| l@,
                ));
            }
            *accumulated = tail;
            return lines;
        }
        let mut line: Vec<u8> = Vec::new();
        let mut j: usize = start;
        while j < k
            invariant
                accumulated@ == all,
                start <= j <= k < accumulated.len(),
                line@ == all.subrange(start as int, j as int),
            decreases k - j,
        {
            line.push(accumulated[j]);
            assert(all.subrange(start as int, j as int + 1) =~= all.subrange(
                start as int,
                j as int,
            ).push(all[j as int]));
            j += 1;
        }
        let ghost before = lines@;
        lines.push(line);
        proof {
            assert(line@ =~= rest.take(k - start));
            assert(rest.skip(k - start + 1) =~= all.skip(k + 1));
            assert(lines@.map_values(|l: Vec<u8>| l@) =~= before.map_values(|l: Vec<u8>| l@).push(
                line@,
            ));
            assert(before.map_values(|l: Vec<u8>| l@) + (seq![rest.take(k - start)]
                + complete_lines(all.skip(k + 1))) =~= lines@.map_values(|l: Vec<u8>| l@)
                + complete_lines(all.skip(k + 1)));
        }
        start = k + 1;
    }
}

} // verus!
