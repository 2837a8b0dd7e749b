//! The QR login: the addresses of the protocol, the validation of the QR
//! image, and the poller that follows the scan as a state machine.
//!
//! The poller performs no request. It says which address to ask next, is
//! handed each answer, and says what that answer means: wait and ask again,
//! exchange the code for cookies, or stop.

use vstd::prelude::*;
use vstd::string::StringExecFns;
use vstd::utf8::encode_utf8;
use crate::adapters::{
    base64_encode, base64_standard, first_capture, percent_encode, percent_encoded, query_pairs,
    regex_group_one, url_query_pairs,
};
use crate::cookies::access_hash_name;
use crate::errors::{AppError, AppErrorView};
use crate::text::{
    decimal, decimal_of, find_pair, pair_value, split_on_char, split_once_char, split_once_seq,
    split_seq, str_eq, strip_leading, trim, trimmed, without_leading,
};
use crate::types::{CookieRecord, CookieRecordView, QRLoginResult, QRLoginResultView};

verus! {

/// The application under which the login is asked for.
pub open spec fn wechat_app_id() -> Seq<char> {
    "wxdfec0615563d691d"@
}

/// The page to which the login service sends the user back.
pub open spec fn wechat_redirect() -> Seq<char> {
    "http://user.91160.com/supplier-wechat.html"@
}

/// The token that ties a login to its answer: `login_` and the time in seconds.
pub fn login_state(timestamp_secs: i64) -> (r: String)
    ensures
        r@ == "login_"@ + decimal_of(timestamp_secs as int),
{
    let mut out = String::from_str("login_");
    out.append(decimal(timestamp_secs).as_str());
    out
}

/// The address of the page that shows the QR code.
pub open spec fn qr_connect_url_of(state: Seq<char>) -> Seq<char> {
    "https://open.weixin.qq.com/connect/qrconnect?appid="@ + wechat_app_id() + "&redirect_uri="@
        + percent_encoded(encode_utf8(wechat_redirect()))
        + "&response_type=code&scope=snsapi_login&state="@ + state + "#wechat_redirect"@
}

/// The address of the page that shows the QR code.
pub fn qr_connect_url(state: &str) -> (r: String)
    ensures
        r@ == qr_connect_url_of(state@),
{
    let mut out = String::from_str("https://open.weixin.qq.com/connect/qrconnect?appid=");
    out.append("wxdfec0615563d691d");
    out.append("&redirect_uri=");
    out.append(percent_encode("http://user.91160.com/supplier-wechat.html").as_str());
    out.append("&response_type=code&scope=snsapi_login&state=");
    out.append(state);
    out.append("#wechat_redirect");
    out
}

/// The expression that finds the identifier of the QR code in the page.
pub open spec fn uuid_pattern() -> Seq<char> {
    "/connect/qrcode/([a-zA-Z0-9_-]+)"@
}

/// Finds the identifier of the QR code in the page that shows it.
pub fn extract_qr_uuid(body: &str) -> (r: Result<String, AppError>)
    ensures
        match r {
            Ok(uuid) => regex_group_one(uuid_pattern(), body@) == Some(uuid@),
            Err(e) => regex_group_one(uuid_pattern(), body@) is None && e@
                == AppErrorView::ParseError("QR UUID not found"@),
        },
{
    match first_capture("/connect/qrcode/([a-zA-Z0-9_-]+)", body) {
        Some(uuid) => Ok(uuid),
        None => Err(AppError::ParseError(String::from_str("QR UUID not found"))),
    }
}

/// The address of the QR image.
pub fn qr_image_url(uuid: &str) -> (r: String)
    ensures
        r@ == "https://open.weixin.qq.com/connect/qrcode/"@ + uuid@,
{
    let mut out = String::from_str("https://open.weixin.qq.com/connect/qrcode/");
    out.append(uuid);
    out
}

/// Whether the bytes begin as a JPEG image does.
pub open spec fn is_jpeg(bytes: Seq<u8>) -> bool {
    bytes.len() >= 2 && bytes[0] == 0xFF && bytes[1] == 0xD8
}

/// Whether the bytes begin as a PNG image does.
pub open spec fn is_png(bytes: Seq<u8>) -> bool {
    bytes.len() >= 4 && bytes[0] == 0x89 && bytes[1] == 0x50 && bytes[2] == 0x4E && bytes[3]
        == 0x47
}

/// What is wrong with the bytes of a QR image, if anything.
pub open spec fn qr_image_fault(bytes: Seq<u8>) -> Option<Seq<char>> {
    if bytes.len() < 4 {
        Some("QR image too small"@)
    } else if !is_jpeg(bytes) && !is_png(bytes) {
        Some("QR image invalid format"@)
    } else {
        None
    }
}

/// Accepts the bytes of a QR image that begin as a JPEG or a PNG image does.
pub fn check_qr_image(bytes: &[u8]) -> (r: Result<(), AppError>)
    ensures
        match r {
            Ok(_) => qr_image_fault(bytes@) is None,
            Err(e) => qr_image_fault(bytes@) matches Some(m) && e@ == AppErrorView::ParseError(m),
        },
{
    if bytes.len() < 4 {
        return Err(AppError::ParseError(String::from_str("QR image too small")));
    }
    let jpeg = bytes[0] == 0xFF && bytes[1] == 0xD8;
    let png = bytes[0] == 0x89 && bytes[1] == 0x50 && bytes[2] == 0x4E && bytes[3] == 0x47;
    if !jpeg && !png {
        return Err(AppError::ParseError(String::from_str("QR image invalid format")));
    }
    Ok(())
}

/// Whether the base64 form of `len` bytes has a length that fits `usize`.
pub open spec fn base64_fits(len: nat) -> bool {
    (len / 3) * 4 + 4 <= usize::MAX
}

/// The QR image in base64, for an image that `check_qr_image` accepts.
pub fn qr_image_base64(bytes: &[u8]) -> (r: Result<String, AppError>)
    ensures
        match r {
            Ok(text) => qr_image_fault(bytes@) is None && base64_fits(bytes@.len()) && text@
                == base64_standard(bytes@),
            Err(e) => match qr_image_fault(bytes@) {
                Some(m) => e@ == AppErrorView::ParseError(m),
                None => !base64_fits(bytes@.len()) && e@ == AppErrorView::ParseError(
                    "QR image too large"@,
                ),
            },
        },
{
    match check_qr_image(bytes) {
        Err(e) => Err(e),
        Ok(_) => {
            if bytes.len() / 3 > (usize::MAX - 4) / 4 {
                Err(AppError::ParseError(String::from_str("QR image too large")))
            } else {
                Ok(base64_encode(bytes))
            }
        },
    }
}

/// What a poll answer says: the status code, the exchange code and the
/// address to go to, each empty where the answer does not hold it.
#[derive(Debug)]
pub struct PollFields {
    pub status: String,
    pub code: String,
    pub redirect_url: String,
}

pub struct PollFieldsView {
    pub status: Seq<char>,
    pub code: Seq<char>,
    pub redirect_url: Seq<char>,
}

impl View for PollFields {
    type V = PollFieldsView;

    open spec fn view(&self) -> PollFieldsView {
        PollFieldsView {
            status: self.status@,
            code: self.code@,
            redirect_url: self.redirect_url@,
        }
    }
}

/// The expression that finds the status code in a poll answer.
pub open spec fn errcode_pattern() -> Seq<char> {
    "wx_errcode\\s*=\\s*(\\d+)"@
}

/// The expression that finds the exchange code in a poll answer.
pub open spec fn code_pattern() -> Seq<char> {
    "wx_code\\s*=\\s*['\"]([^'\"]*)['\"]"@
}

/// The expression that finds the address to go to in a poll answer.
pub open spec fn redirect_pattern() -> Seq<char> {
    "window\\.location(?:\\.href|\\.replace)?\\s*\\(?['\"]([^'\"]+)['\"]"@
}

/// The text that an expression finds, or `fallback` where it finds none.
pub open spec fn found_or(found: Option<Seq<char>>, fallback: Seq<char>) -> Seq<char> {
    match found {
        Some(s) => s,
        None => fallback,
    }
}

/// What a poll answer says.
pub open spec fn poll_fields_of(body: Seq<char>) -> PollFieldsView {
    PollFieldsView {
        status: found_or(regex_group_one(errcode_pattern(), body), "0"@),
        code: found_or(regex_group_one(code_pattern(), body), Seq::empty()),
        redirect_url: found_or(regex_group_one(redirect_pattern(), body), Seq::empty()),
    }
}

/// Reads a poll answer.
pub fn parse_poll_body(body: &str) -> (r: PollFields)
    ensures
        r@ == poll_fields_of(body@),
{
    let status = match first_capture("wx_errcode\\s*=\\s*(\\d+)", body) {
        Some(s) => s,
        None => String::from_str("0"),
    };
    let code = match first_capture("wx_code\\s*=\\s*['\"]([^'\"]*)['\"]", body) {
        Some(s) => s,
        None => String::new(),
    };
    let redirect_url = match first_capture(
        "window\\.location(?:\\.href|\\.replace)?\\s*\\(?['\"]([^'\"]+)['\"]",
        body,
    ) {
        Some(s) => s,
        None => String::new(),
    };
    PollFields { status, code, redirect_url }
}

/// The address that exchanges a code for the session: the state, where
/// there is one, goes into the query percent-encoded.
pub open spec fn callback_url_text(code: Seq<char>, state: Seq<char>) -> Seq<char> {
    if state.len() == 0 {
        wechat_redirect() + "?code="@ + code
    } else {
        wechat_redirect() + "?code="@ + code + "&state="@ + percent_encoded(encode_utf8(state))
    }
}

/// The address that exchanges a code for the session.
pub fn callback_url(code: &str, state: &str) -> (r: String)
    ensures
        r@ == callback_url_text(code@, state@),
{
    let mut out = String::from_str("http://user.91160.com/supplier-wechat.html");
    out.append("?code=");
    out.append(code);
    if !state.is_empty() {
        out.append("&state=");
        out.append(percent_encode(state).as_str());
    }
    out
}

/// How often in a row the service may say that the code is not ready.
pub const NOT_READY_LIMIT: u32 = 60;

/// The pause after an answer, in milliseconds.
pub const POLL_PAUSE_MS: u64 = 1000;

/// The pause after a request that did not get through, in milliseconds.
pub const POLL_FAILURE_PAUSE_MS: u64 = 2000;

/// The time after which a QR code is taken to have expired, where the caller names none.
pub const DEFAULT_LOGIN_TIMEOUT_MS: u64 = 300000;

/// The poller of one QR code.
#[derive(Debug)]
pub struct QrPoller {
    pub uuid: String,
    pub state: String,
    pub last_status: String,
    pub last_param: String,
    pub not_ready: u32,
    pub timeout_ms: u64,
}

pub struct QrPollerView {
    pub uuid: Seq<char>,
    pub state: Seq<char>,
    pub last_status: Seq<char>,
    pub last_param: Seq<char>,
    pub not_ready: u32,
    pub timeout_ms: u64,
}

impl View for QrPoller {
    type V = QrPollerView;

    open spec fn view(&self) -> QrPollerView {
        QrPollerView {
            uuid: self.uuid@,
            state: self.state@,
            last_status: self.last_status@,
            last_param: self.last_param@,
            not_ready: self.not_ready,
            timeout_ms: self.timeout_ms,
        }
    }
}

/// What the caller does after an answer.
#[derive(Debug)]
pub enum PollAction {
    /// Pause, then ask the poller for the next request.
    Retry { delay_ms: u64 },
    /// Follow this address to exchange the code for cookies.
    Exchange { callback_url: String },
    /// The login is over.
    Finish(QRLoginResult),
}

pub enum PollActionView {
    Retry { delay_ms: u64 },
    Exchange { callback_url: Seq<char> },
    Finish(QRLoginResultView),
}

impl View for PollAction {
    type V = PollActionView;

    open spec fn view(&self) -> PollActionView {
        match *self {
            PollAction::Retry { delay_ms } => PollActionView::Retry { delay_ms },
            PollAction::Exchange { callback_url } => PollActionView::Exchange {
                callback_url: callback_url@,
            },
            PollAction::Finish(r) => PollActionView::Finish(r@),
        }
    }
}

/// What the poller answers: a notice for the user where the status has
/// changed, and what to do next.
#[derive(Debug)]
pub struct PollStep {
    pub notice: Option<String>,
    pub action: PollAction,
}

pub struct PollStepView {
    pub notice: Option<Seq<char>>,
    pub action: PollActionView,
}

impl View for PollStep {
    type V = PollStepView;

    open spec fn view(&self) -> PollStepView {
        PollStepView { notice: self.notice.deep_view(), action: self.action@ }
    }
}

/// The request that the poller asks for, unless the code has expired.
#[derive(Debug)]
pub enum PollRequest {
    Send { url: String },
    Expired(QRLoginResult),
}

pub enum PollRequestView {
    Send { url: Seq<char> },
    Expired(QRLoginResultView),
}

impl View for PollRequest {
    type V = PollRequestView;

    open spec fn view(&self) -> PollRequestView {
        match *self {
            PollRequest::Send { url } => PollRequestView::Send { url: url@ },
            PollRequest::Expired(r) => PollRequestView::Expired(r@),
        }
    }
}

/// A login that failed, with the reason.
pub open spec fn failed_login(message: Seq<char>) -> QRLoginResultView {
    QRLoginResultView { success: false, message, cookie_path: None }
}

/// A login that failed, with the reason.
pub fn login_failure(message: &str) -> (r: QRLoginResult)
    ensures
        r@ == failed_login(message@),
{
    QRLoginResult { success: false, message: String::from_str(message), cookie_path: None }
}

/// The status of an answer: an answer without a status that carries a code
/// or an address counts as confirmed.
pub open spec fn effective_status(f: PollFieldsView) -> Seq<char> {
    if f.status == "0"@ && (f.code.len() > 0 || f.redirect_url.len() > 0) {
        "405"@
    } else {
        f.status
    }
}

/// Whether a status is one that the service knows as the last one seen.
pub open spec fn is_known_status(status: Seq<char>) -> bool {
    status == "408"@ || status == "201"@ || status == "405"@ || status == "402"@ || status
        == "404"@
}

/// A step that pauses and asks again.
pub open spec fn retry_step(notice: Option<Seq<char>>) -> PollStepView {
    PollStepView { notice, action: PollActionView::Retry { delay_ms: POLL_PAUSE_MS } }
}

impl QrPollerView {
    /// The poller of a fresh code.
    pub open spec fn fresh(uuid: Seq<char>, state: Seq<char>, timeout_ms: u64) -> QrPollerView {
        QrPollerView {
            uuid,
            state,
            last_status: Seq::empty(),
            last_param: "404"@,
            not_ready: 0,
            timeout_ms,
        }
    }

    /// The address of the next poll.
    pub open spec fn poll_url(self, timestamp_ms: i64) -> Seq<char> {
        "https://lp.open.weixin.qq.com/connect/l/qrconnect?uuid="@ + self.uuid + "&last="@
            + self.last_param + "&_="@ + decimal_of(timestamp_ms as int)
    }

    /// The next request, unless more than the timeout has passed.
    pub open spec fn request(self, elapsed_ms: u64, timestamp_ms: i64) -> PollRequestView {
        if elapsed_ms > self.timeout_ms {
            PollRequestView::Expired(failed_login("qr expired"@))
        } else {
            PollRequestView::Send { url: self.poll_url(timestamp_ms) }
        }
    }

    /// The poller sees a status that the user is told of once: it is told
    /// where it differs from the status seen before.
    pub open spec fn told(self, status: Seq<char>, notice: Seq<char>) -> (
        QrPollerView,
        PollStepView,
    ) {
        (
            QrPollerView { last_status: status, last_param: status, not_ready: 0, ..self },
            retry_step(
                if self.last_status != status {
                    Some(notice)
                } else {
                    None
                },
            ),
        )
    }

    /// The poller sees that the code is not ready: after too many such
    /// answers in a row the code has expired.
    pub open spec fn not_ready_yet(self, status: Seq<char>) -> (QrPollerView, PollStepView) {
        let count = if self.not_ready < u32::MAX {
            (self.not_ready + 1) as u32
        } else {
            self.not_ready
        };
        (
            QrPollerView { last_status: "404"@, last_param: status, not_ready: count, ..self },
            if count > NOT_READY_LIMIT {
                PollStepView {
                    notice: None,
                    action: PollActionView::Finish(failed_login("qr expired"@)),
                }
            } else {
                retry_step(None)
            },
        )
    }

    /// The poller sees the confirmation. The code is taken from the answer,
    /// or from the query of the address that the answer names, which may
    /// name the state too. With a code the exchange begins; without one the
    /// poller asks again.
    pub open spec fn confirmed(self, f: PollFieldsView, query: Option<Seq<(Seq<char>, Seq<char>)>>) -> (
        QrPollerView,
        PollStepView,
    ) {
        let from_query = f.code.len() == 0 && f.redirect_url.len() > 0 && query is Some;
        let state = if from_query && pair_value(query->0, "state"@) is Some {
            pair_value(query->0, "state"@)->0
        } else {
            self.state
        };
        let code = if from_query {
            found_or(pair_value(query->0, "code"@), Seq::empty())
        } else {
            f.code
        };
        let next = QrPollerView { last_param: "405"@, state, ..self };
        if code.len() == 0 {
            (next, retry_step(Some("confirmed but no code, retrying"@)))
        } else {
            (
                next,
                PollStepView {
                    notice: Some("logging in"@),
                    action: PollActionView::Exchange {
                        callback_url: callback_url_text(code, state),
                    },
                },
            )
        }
    }

    /// What an answer means: `f` is what it says, `query` the pairs in the
    /// query of the address that it names.
    pub open spec fn respond(self, f: PollFieldsView, query: Option<Seq<(Seq<char>, Seq<char>)>>) -> (
        QrPollerView,
        PollStepView,
    ) {
        let status = effective_status(f);
        if status == "408"@ {
            self.told(status, "waiting for scan"@)
        } else if status == "404"@ || status == "402"@ {
            self.not_ready_yet(status)
        } else if status == "201"@ {
            self.told(status, "scanned, confirm on phone"@)
        } else if status == "405"@ {
            self.confirmed(f, query)
        } else {
            (self, retry_step(None))
        }
    }
}

impl QrPoller {
    /// The poller of a fresh code. Without an identifier of the code there
    /// is nothing to poll, and the login has failed.
    pub fn start(uuid: &str, state: &str, timeout_ms: u64) -> (r: Result<QrPoller, QRLoginResult>)
        ensures
            match r {
                Ok(p) => uuid@.len() > 0 && p@ == QrPollerView::fresh(uuid@, state@, timeout_ms),
                Err(e) => uuid@.len() == 0 && e@ == failed_login("uuid not initialized"@),
            },
    {
        if uuid.is_empty() {
            return Err(login_failure("uuid not initialized"));
        }
        Ok(
            QrPoller {
                uuid: String::from_str(uuid),
                state: String::from_str(state),
                last_status: String::new(),
                last_param: String::from_str("404"),
                not_ready: 0,
                timeout_ms,
            },
        )
    }

    /// The next request, given how long the login has been under way and
    /// the time of day in milliseconds; the end of the login where more than
    /// the timeout has passed.
    pub fn next_request(&self, elapsed_ms: u64, timestamp_ms: i64) -> (r: PollRequest)
        ensures
            r@ == self@.request(elapsed_ms, timestamp_ms),
    {
        if elapsed_ms > self.timeout_ms {
            return PollRequest::Expired(login_failure("qr expired"));
        }
        let mut url = String::from_str("https://lp.open.weixin.qq.com/connect/l/qrconnect?uuid=");
        url.append(self.uuid.as_str());
        url.append("&last=");
        url.append(self.last_param.as_str());
        url.append("&_=");
        url.append(decimal(timestamp_ms).as_str());
        PollRequest::Send { url }
    }

    /// What to do after a request that did not get through (`sent` is
    /// false) or whose answer could not be read: pause, and ask again.
    pub fn on_failure(&self, sent: bool) -> (r: PollStep)
        ensures
            r@ == (PollStepView {
                notice: None,
                action: PollActionView::Retry {
                    delay_ms: if sent {
                        POLL_PAUSE_MS
                    } else {
                        POLL_FAILURE_PAUSE_MS
                    },
                },
            }),
    {
        PollStep {
            notice: None,
            action: PollAction::Retry {
                delay_ms: if sent {
                    POLL_PAUSE_MS
                } else {
                    POLL_FAILURE_PAUSE_MS
                },
            },
        }
    }

    /// The login was called off.
    pub fn on_cancel(&self) -> (r: QRLoginResult)
        ensures
            r@ == failed_login("canceled"@),
    {
        login_failure("canceled")
    }

    fn told(&mut self, status: &str, notice: &str) -> (step: PollStep)
        ensures
            (final(self)@, step@) == old(self)@.told(status@, notice@),
    {
        let changed = !str_eq(self.last_status.as_str(), status);
        self.last_status = String::from_str(status);
        self.last_param = String::from_str(status);
        self.not_ready = 0;
        PollStep {
            notice: if changed {
                Some(String::from_str(notice))
            } else {
                None
            },
            action: PollAction::Retry { delay_ms: POLL_PAUSE_MS },
        }
    }

    fn not_ready_yet(&mut self, status: &str) -> (step: PollStep)
        ensures
            (final(self)@, step@) == old(self)@.not_ready_yet(status@),
    {
        if self.not_ready < u32::MAX {
            self.not_ready = self.not_ready + 1;
        }
        self.last_status = String::from_str("404");
        self.last_param = String::from_str(status);
        if self.not_ready > NOT_READY_LIMIT {
            PollStep { notice: None, action: PollAction::Finish(login_failure("qr expired")) }
        } else {
            PollStep { notice: None, action: PollAction::Retry { delay_ms: POLL_PAUSE_MS } }
        }
    }

    fn confirmed(&mut self, fields: &PollFields, query: &Option<Vec<(String, String)>>) -> (step:
        PollStep)
        ensures
            (final(self)@, step@) == old(self)@.confirmed(fields@, query.deep_view()),
    {
        let mut code = fields.code.clone();
        if fields.code.as_str().is_empty() && !fields.redirect_url.as_str().is_empty() {
            match query {
                Some(pairs) => {
                    match find_pair(pairs, "state") {
                        Some(state) => {
                            self.state = state;
                        },
                        None => {},
                    }
                    code = match find_pair(pairs, "code") {
                        Some(c) => c,
                        None => String::new(),
                    };
                },
                None => {},
            }
        }
        self.last_param = String::from_str("405");
        if code.as_str().is_empty() {
            PollStep {
                notice: Some(String::from_str("confirmed but no code, retrying")),
                action: PollAction::Retry { delay_ms: POLL_PAUSE_MS },
            }
        } else {
            PollStep {
                notice: Some(String::from_str("logging in")),
                action: PollAction::Exchange {
                    callback_url: callback_url(code.as_str(), self.state.as_str()),
                },
            }
        }
    }

    /// Says what an answer means: `fields` is what the answer says, `query`
    /// the pairs in the query of the address that it names, or `None` where
    /// that is no address.
    pub fn on_fields(&mut self, fields: &PollFields, query: &Option<Vec<(String, String)>>) -> (step:
        PollStep)
        ensures
            (final(self)@, step@) == old(self)@.respond(fields@, query.deep_view()),
    {
        let implied = str_eq(fields.status.as_str(), "0") && (!fields.code.as_str().is_empty()
            || !fields.redirect_url.as_str().is_empty());
        let status = if implied {
            "405"
        } else {
            fields.status.as_str()
        };
        if str_eq(status, "408") {
            self.told(status, "waiting for scan")
        } else if str_eq(status, "404") || str_eq(status, "402") {
            self.not_ready_yet(status)
        } else if str_eq(status, "201") {
            self.told(status, "scanned, confirm on phone")
        } else if str_eq(status, "405") {
            self.confirmed(fields, query)
        } else {
            PollStep { notice: None, action: PollAction::Retry { delay_ms: POLL_PAUSE_MS } }
        }
    }

    /// Says what the body of an answer means.
    pub fn on_body(&mut self, body: &str) -> (step: PollStep)
        ensures
            (final(self)@, step@) == old(self)@.respond(
                poll_fields_of(body@),
                url_query_pairs(poll_fields_of(body@).redirect_url),
            ),
    {
        let fields = parse_poll_body(body);
        let query = query_pairs(fields.redirect_url.as_str());
        self.on_fields(&fields, &query)
    }
}

/// The status codes of the protocol are six different texts.
pub proof fn lemma_status_codes_differ()
    ensures
        "408"@ != "404"@,
        "408"@ != "402"@,
        "408"@ != "201"@,
        "408"@ != "405"@,
        "404"@ != "402"@,
        "404"@ != "201"@,
        "404"@ != "405"@,
        "402"@ != "201"@,
        "402"@ != "405"@,
        "201"@ != "405"@,
        "0"@ != "408"@,
        "0"@ != "404"@,
        "0"@ != "402"@,
        "0"@ != "201"@,
        "0"@ != "405"@,
{
    reveal_strlit("0");
    reveal_strlit("408");
    reveal_strlit("201");
    reveal_strlit("404");
    reveal_strlit("402");
    reveal_strlit("405");
    assert("408"@[2] == '8' && "404"@[2] == '4' && "402"@[2] == '2' && "405"@[2] == '5');
    assert("201"@[0] == '2' && "408"@[0] == '4' && "404"@[0] == '4' && "402"@[0] == '4' && "405"@[0]
        == '4');
    assert("0"@.len() == 1 && "408"@.len() == 3 && "404"@.len() == 3 && "402"@.len() == 3
        && "201"@.len() == 3 && "405"@.len() == 3);
}

/// The user is told of a status once: where two answers in a row carry the
/// same status of waiting or of having scanned, the second brings no notice.
pub proof fn lemma_no_duplicate_notice(
    p: QrPollerView,
    first: PollFieldsView,
    second: PollFieldsView,
    q1: Option<Seq<(Seq<char>, Seq<char>)>>,
    q2: Option<Seq<(Seq<char>, Seq<char>)>>,
)
    requires
        effective_status(first) == effective_status(second),
        effective_status(first) == "408"@ || effective_status(first) == "201"@,
    ensures
        p.respond(first, q1).0.respond(second, q2).1.notice is None,
        p.respond(first, q1).1.notice is Some <==> p.last_status != effective_status(first),
{
    lemma_status_codes_differ();
}

/// A code that is not ready sixty-one times in a row has expired; up to
/// sixty times the poller asks again.
pub proof fn lemma_not_ready_limit(
    p: QrPollerView,
    f: PollFieldsView,
    q: Option<Seq<(Seq<char>, Seq<char>)>>,
)
    requires
        effective_status(f) == "404"@ || effective_status(f) == "402"@,
    ensures
        p.not_ready >= NOT_READY_LIMIT ==> p.respond(f, q).1.action == PollActionView::Finish(
            failed_login("qr expired"@),
        ),
        p.not_ready < NOT_READY_LIMIT ==> p.respond(f, q).1.action == (PollActionView::Retry {
            delay_ms: POLL_PAUSE_MS,
        }) && p.respond(f, q).0.not_ready == p.not_ready + 1,
{
    lemma_status_codes_differ();
}

/// An answer that names no status but carries a code starts the exchange
/// with that code.
pub proof fn lemma_code_implies_confirmation(
    p: QrPollerView,
    f: PollFieldsView,
    q: Option<Seq<(Seq<char>, Seq<char>)>>,
)
    requires
        f.status == "0"@,
        f.code.len() > 0,
    ensures
        p.respond(f, q).1 == (PollStepView {
            notice: Some("logging in"@),
            action: PollActionView::Exchange { callback_url: callback_url_text(f.code, p.state) },
        }),
{
    lemma_status_codes_differ();
}

/// The domains whose cookies are collected after the exchange.
pub fn harvest_domains() -> (r: Vec<String>)
    ensures
        r.deep_view() == seq!["www.91160.com"@, "user.91160.com"@, ".91160.com"@],
{
    let mut r: Vec<String> = Vec::new();
    r.push(String::from_str("www.91160.com"));
    r.push(String::from_str("user.91160.com"));
    r.push(String::from_str(".91160.com"));
    assert(r.deep_view() =~= seq!["www.91160.com"@, "user.91160.com"@, ".91160.com"@]);
    r
}

/// The domain under which a collected cookie is recorded: `domain` with one dot in front.
pub open spec fn recorded_domain(domain: Seq<char>) -> Seq<char> {
    "."@ + without_leading(domain, "."@)
}

/// The cookie that one piece of a `Cookie` header stands for: name and value
/// on the two sides of the first `=`, both trimmed and neither empty.
pub open spec fn header_cookie(piece: Seq<char>, domain: Seq<char>) -> Option<CookieRecordView> {
    match split_once_seq(trimmed(piece), '=') {
        Some((name, value)) => if trimmed(name).len() > 0 && trimmed(value).len() > 0 {
            Some(
                CookieRecordView {
                    name: trimmed(name),
                    value: trimmed(value),
                    domain: recorded_domain(domain),
                    path: "/"@,
                },
            )
        } else {
            None
        },
        None => None,
    }
}

/// The cookies that a `Cookie` header holds, recorded under `domain`.
pub open spec fn header_cookies(header: Seq<char>, domain: Seq<char>) -> Seq<CookieRecordView> {
    split_seq(header, ';').filter_map(|piece: Seq<char>| header_cookie(piece, domain))
}

/// Reads the cookies of a `Cookie` header and records them under `domain`.
pub fn parse_cookie_header(header: &str, domain: &str) -> (r: Vec<CookieRecord>)
    ensures
        r.deep_view() == header_cookies(header@, domain@),
{
    let pieces = split_on_char(header, ';');
    let ghost f = |piece: Seq<char>| header_cookie(piece, domain@);
    let ghost p = pieces.deep_view();
    let mut out: Vec<CookieRecord> = Vec::new();
    let mut i: usize = 0;
    assert(out.deep_view() =~= p.take(0).filter_map(f));
    while i < pieces.len()
        invariant
            i <= pieces.len(),
            p == pieces.deep_view(),
            f == |piece: Seq<char>| header_cookie(piece, domain@),
            out.deep_view() == p.take(i as int).filter_map(f),
        decreases pieces.len() - i,
    {
        proof {
            p.lemma_filter_map_take_succ(f, i as int);
        }
        let ghost before = out.deep_view();
        let part = trim(pieces[i].as_str());
        let mut pushed = false;
        match split_once_char(part.as_str(), '=') {
            Some((name, value)) => {
                let name = trim(name.as_str());
                let value = trim(value.as_str());
                if !name.as_str().is_empty() && !value.as_str().is_empty() {
                    proof {
                        reveal_strlit(".");
                    }
                    let mut recorded = String::from_str(".");
                    recorded.append(strip_leading(domain, ".").as_str());
                    let record = CookieRecord {
                        name,
                        value,
                        domain: recorded,
                        path: String::from_str("/"),
                    };
                    out.push(record);
                    assert(out.deep_view() =~= before + seq![record@]);
                    pushed = true;
                }
            },
            None => {},
        }
        if !pushed {
            assert(out.deep_view() =~= before + Seq::<CookieRecordView>::empty());
        }
        i += 1;
    }
    assert(p.take(i as int) =~= p);
    out
}

/// Whether some record carries the name of the access token.
pub open spec fn names_access_hash(s: Seq<CookieRecordView>) -> bool {
    exists|i: int| 0 <= i < s.len() && (#[trigger] s[i]).name == access_hash_name()
}

/// Why the cookies that were collected do not make a session, if they do not.
pub open spec fn harvest_fault(s: Seq<CookieRecordView>) -> Option<Seq<char>> {
    if s.len() == 0 {
        Some("no cookies received"@)
    } else if !names_access_hash(s) {
        Some("missing access_hash"@)
    } else {
        None
    }
}

/// Judges the cookies that were collected after the exchange: the login has
/// failed where there are none or the access token is not among them.
pub fn judge_harvest(records: &Vec<CookieRecord>) -> (r: Option<QRLoginResult>)
    ensures
        match r {
            Some(failure) => harvest_fault(records.deep_view()) matches Some(m) && failure@
                == failed_login(m),
            None => harvest_fault(records.deep_view()) is None,
        },
{
    if records.len() == 0 {
        return Some(login_failure("no cookies received"));
    }
    let ghost s = records.deep_view();
    let mut i: usize = 0;
    while i < records.len()
        invariant
            i <= records.len(),
            s == records.deep_view(),
            forall|k: int| 0 <= k < i ==> (#[trigger] s[k]).name != access_hash_name(),
        decreases records.len() - i,
    {
        if str_eq(records[i].name.as_str(), "access_hash") {
            assert(s[i as int].name == access_hash_name());
            return None;
        }
        i += 1;
    }
    Some(login_failure("missing access_hash"))
}

/// The result of a login whose cookies were handed to the store: success
/// with the place where they were written, or the store's error.
pub fn login_result(saved: Result<Option<String>, AppError>) -> (r: QRLoginResult)
    ensures
        r@ == (match saved {
            Ok(path) => QRLoginResultView {
                success: true,
                message: "login ok"@,
                cookie_path: path.deep_view(),
            },
            Err(e) => failed_login(e@.display()),
        }),
{
    match saved {
        Ok(path) => QRLoginResult {
            success: true,
            message: String::from_str("login ok"),
            cookie_path: path,
        },
        Err(e) => QRLoginResult {
            success: false,
            message: e.to_display_string(),
            cookie_path: None,
        },
    }
}

/// A notice of the poller in the user's language.
pub open spec fn status_in_chinese(message: Seq<char>) -> Seq<char> {
    if message == "waiting for scan"@ {
        "等待扫码..."@
    } else if message == "scanned, confirm on phone"@ {
        "已扫码，请在手机上确认"@
    } else if message == "logging in"@ {
        "正在登录..."@
    } else if message == "confirmed but no code, retrying"@ {
        "已确认但未获取到登录码，正在重试..."@
    } else {
        message
    }
}

/// Translates a notice of the poller for the user; any other text stays as it is.
pub fn translate_qr_status(message: &str) -> (r: String)
    ensures
        r@ == status_in_chinese(message@),
{
    if str_eq(message, "waiting for scan") {
        String::from_str("等待扫码...")
    } else if str_eq(message, "scanned, confirm on phone") {
        String::from_str("已扫码，请在手机上确认")
    } else if str_eq(message, "logging in") {
        String::from_str("正在登录...")
    } else if str_eq(message, "confirmed but no code, retrying") {
        String::from_str("已确认但未获取到登录码，正在重试...")
    } else {
        String::from_str(message)
    }
}

/// The reason of a failed login in the user's language.
pub open spec fn error_in_chinese(message: Seq<char>) -> Seq<char> {
    if message == "canceled"@ {
        "已取消"@
    } else if message == "qr expired"@ {
        "二维码已过期"@
    } else if message == "uuid not initialized"@ {
        "二维码未初始化"@
    } else if message == "no cookies received"@ {
        "未获取到有效 Cookie"@
    } else if message == "missing access_hash"@ {
        "登录未完成：缺少 access_hash"@
    } else {
        message
    }
}

/// Translates the reason of a failed login for the user; any other text stays as it is.
pub fn translate_qr_error(message: &str) -> (r: String)
    ensures
        r@ == error_in_chinese(message@),
{
    if str_eq(message, "canceled") {
        String::from_str("已取消")
    } else if str_eq(message, "qr expired") {
        String::from_str("二维码已过期")
    } else if str_eq(message, "uuid not initialized") {
        String::from_str("二维码未初始化")
    } else if str_eq(message, "no cookies received") {
        String::from_str("未获取到有效 Cookie")
    } else if str_eq(message, "missing access_hash") {
        String::from_str("登录未完成：缺少 access_hash")
    } else {
        String::from_str(message)
    }
}

} // verus!
