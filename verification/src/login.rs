//! Logging in with a QR code.
//!
//! A login is a conversation with the service: a QR code is requested and shown, and its status
//! is polled until the user has confirmed it on the phone, a pairing code is wanted, or the QR
//! code has expired and another one is due. [`LoginFlow`] holds where the conversation stands.
//! Each [`LoginEvent`] moves it on and yields the [`LoginAction`] to perform next.

use vstd::prelude::*;
use crate::encoding;
use crate::error::{WeChatBotError, WeChatBotErrorView};
use crate::strings;
use crate::types::{Credentials, CredentialsView};

verus! {

/// How many QR codes a login requests before it gives up.
pub const MAX_QR_REFRESH: u32 = 3;

/// How long to wait between two polls of a QR code's status.
pub const POLL_SECONDS: u64 = 2;

/// The host that issues QR codes.
pub open spec fn qr_base_url() -> Seq<char> {
    "https://ilinkai.weixin.qq.com"@
}

fn fixed_qr_base_url() -> (url: String)
    ensures
        url@ == qr_base_url(),
{
    "https://ilinkai.weixin.qq.com".to_string()
}

/// What to show the user when a pairing code is wanted.
pub open spec fn prompt_text(is_retry: bool) -> Seq<char> {
    if is_retry {
        "Code mismatch — enter the pairing code shown in WeChat again: "@
    } else {
        "Enter the pairing code shown in WeChat on your phone: "@
    }
}

/// What to show the user when a pairing code is wanted; `is_retry` if the last one was wrong.
pub fn verify_code_prompt(is_retry: bool) -> (prompt: &'static str)
    ensures
        prompt@ == prompt_text(is_retry),
{
    if is_retry {
        "Code mismatch — enter the pairing code shown in WeChat again: "
    } else {
        "Enter the pairing code shown in WeChat on your phone: "
    }
}

/// The pairing code on the line that the user has entered: the line without the white space
/// around it.
pub fn entered_code(line: &str) -> (code: String)
    ensures
        code@ == strings::trimmed(line@),
{
    strings::trim(line)
}

/// The service's answer to a poll.
#[derive(Clone, Debug, PartialEq, Eq)]
pub struct QrStatus {
    pub status: String,
    pub bot_token: Option<String>,
    pub baseurl: Option<String>,
    pub ilink_bot_id: Option<String>,
    pub ilink_user_id: Option<String>,
    pub redirect_host: Option<String>,
}

/// The contents of a [`QrStatus`].
pub struct QrStatusView {
    pub status: Seq<char>,
    pub bot_token: Option<Seq<char>>,
    pub baseurl: Option<Seq<char>>,
    pub ilink_bot_id: Option<Seq<char>>,
    pub ilink_user_id: Option<Seq<char>>,
    pub redirect_host: Option<Seq<char>>,
}

impl DeepView for QrStatus {
    type V = QrStatusView;

    open spec fn deep_view(&self) -> QrStatusView {
        QrStatusView {
            status: self.status@,
            bot_token: self.bot_token.deep_view(),
            baseurl: self.baseurl.deep_view(),
            ilink_bot_id: self.ilink_bot_id.deep_view(),
            ilink_user_id: self.ilink_user_id.deep_view(),
            redirect_host: self.redirect_host.deep_view(),
        }
    }
}

/// What a status text means.
#[derive(Clone, Copy, Debug, PartialEq, Eq, Structural)]
pub enum StatusKind {
    /// The user has scanned the QR code and has yet to confirm.
    Scaned,
    /// The QR code has expired.
    Expired,
    /// The login is confirmed.
    Confirmed,
    /// The service wants the pairing code that the phone shows.
    NeedVerifyCode,
    /// Too many wrong pairing codes were given.
    VerifyCodeBlocked,
    /// The bot is already bound to this client.
    BindedRedirect,
    /// The QR code was scanned, and another host is to be polled.
    ScanedButRedirect,
    /// Anything else: nothing has happened yet.
    Waiting,
}

/// What a status text means, see [`StatusKind`].
pub open spec fn status_kind(status: Seq<char>) -> StatusKind {
    if status == "scaned"@ {
        StatusKind::Scaned
    } else if status == "expired"@ {
        StatusKind::Expired
    } else if status == "confirmed"@ {
        StatusKind::Confirmed
    } else if status == "need_verifycode"@ {
        StatusKind::NeedVerifyCode
    } else if status == "verify_code_blocked"@ {
        StatusKind::VerifyCodeBlocked
    } else if status == "binded_redirect"@ {
        StatusKind::BindedRedirect
    } else if status == "scaned_but_redirect"@ {
        StatusKind::ScanedButRedirect
    } else {
        StatusKind::Waiting
    }
}

/// Reads a status text.
pub fn kind_of_status(status: &str) -> (kind: StatusKind)
    ensures
        kind == status_kind(status@),
{
    if strings::same_text(status, "scaned") {
        StatusKind::Scaned
    } else if strings::same_text(status, "expired") {
        StatusKind::Expired
    } else if strings::same_text(status, "confirmed") {
        StatusKind::Confirmed
    } else if strings::same_text(status, "need_verifycode") {
        StatusKind::NeedVerifyCode
    } else if strings::same_text(status, "verify_code_blocked") {
        StatusKind::VerifyCodeBlocked
    } else if strings::same_text(status, "binded_redirect") {
        StatusKind::BindedRedirect
    } else if strings::same_text(status, "scaned_but_redirect") {
        StatusKind::ScanedButRedirect
    } else {
        StatusKind::Waiting
    }
}

/// What to do next.
#[derive(Debug, PartialEq, Eq)]
pub enum LoginAction {
    /// Request a QR code from `base_url`, naming the tokens that this client already holds.
    RequestQr { base_url: String, local_token_list: Vec<String> },
    /// Ask `base_url` for the status of `qrcode`, with the pairing code if there is one.
    Poll { base_url: String, qrcode: String, verify_code: Option<String> },
    /// Ask the user for the pairing code; `is_retry` if the last one was wrong.
    AskVerifyCode { is_retry: bool },
    /// Wait.
    Sleep { seconds: u64 },
    /// Write the credentials to disk.
    Save(Credentials),
    /// The login has succeeded.
    Done(Credentials),
    /// The login has failed.
    Fail(WeChatBotError),
}

/// The contents of a [`LoginAction`].
pub enum LoginActionView {
    RequestQr { base_url: Seq<char>, local_token_list: Seq<Seq<char>> },
    Poll { base_url: Seq<char>, qrcode: Seq<char>, verify_code: Option<Seq<char>> },
    AskVerifyCode { is_retry: bool },
    Sleep { seconds: int },
    Save(CredentialsView),
    Done(CredentialsView),
    Fail(WeChatBotErrorView),
}

impl DeepView for LoginAction {
    type V = LoginActionView;

    open spec fn deep_view(&self) -> LoginActionView {
        match self {
            LoginAction::RequestQr { base_url, local_token_list } => LoginActionView::RequestQr {
                base_url: base_url@,
                local_token_list: local_token_list.deep_view(),
            },
            LoginAction::Poll { base_url, qrcode, verify_code } => LoginActionView::Poll {
                base_url: base_url@,
                qrcode: qrcode@,
                verify_code: verify_code.deep_view(),
            },
            LoginAction::AskVerifyCode { is_retry } => LoginActionView::AskVerifyCode {
                is_retry: *is_retry,
            },
            LoginAction::Sleep { seconds } => LoginActionView::Sleep { seconds: *seconds as int },
            LoginAction::Save(creds) => LoginActionView::Save(creds.deep_view()),
            LoginAction::Done(creds) => LoginActionView::Done(creds.deep_view()),
            LoginAction::Fail(error) => LoginActionView::Fail(error.deep_view()),
        }
    }
}

/// What has come of an action.
#[derive(Debug, PartialEq, Eq)]
pub enum LoginEvent {
    /// The service has issued a QR code.
    QrIssued { qrcode: String },
    /// The service has answered a poll, at the time `now`.
    Status { status: QrStatus, now: String },
    /// The user has entered a pairing code.
    VerifyCode(String),
    /// The wait is over.
    Slept,
    /// The credentials that were to be written are on disk.
    Saved,
}

/// The contents of a [`LoginEvent`].
pub enum LoginEventView {
    QrIssued { qrcode: Seq<char> },
    Status { status: QrStatusView, now: Seq<char> },
    VerifyCode(Seq<char>),
    Slept,
    Saved,
}

impl DeepView for LoginEvent {
    type V = LoginEventView;

    open spec fn deep_view(&self) -> LoginEventView {
        match self {
            LoginEvent::QrIssued { qrcode } => LoginEventView::QrIssued { qrcode: qrcode@ },
            LoginEvent::Status { status, now } => LoginEventView::Status {
                status: status.deep_view(),
                now: now@,
            },
            LoginEvent::VerifyCode(code) => LoginEventView::VerifyCode(code@),
            LoginEvent::Slept => LoginEventView::Slept,
            LoginEvent::Saved => LoginEventView::Saved,
        }
    }
}

/// Where a login stands.
pub struct LoginModel {
    /// The credentials that were on disk when the login began.
    pub stored: Option<CredentialsView>,
    /// The base URL of the bot when the login began.
    pub base_url: Seq<char>,
    /// How many QR codes have been requested.
    pub requested: int,
    /// The QR code that is being polled.
    pub qrcode: Seq<char>,
    /// The last status that was seen of it.
    pub last_status: Seq<char>,
    /// The host to poll.
    pub poll_base_url: Seq<char>,
    /// The pairing code to send along.
    pub pending_verify_code: Option<Seq<char>>,
    /// The credentials of the confirmed login, until they are on disk.
    pub confirmed: Option<CredentialsView>,
}

/// The tokens to name to the service: that of the stored credentials, if it is not empty.
pub open spec fn local_tokens(stored: Option<CredentialsView>) -> Seq<Seq<char>> {
    match stored {
        Some(creds) => if creds.token.len() > 0 {
            seq![creds.token]
        } else {
            seq![]
        },
        None => seq![],
    }
}

/// The credentials that a confirmed login yields.
pub open spec fn confirmed_credentials(
    token: Seq<char>,
    status: QrStatusView,
    base_url: Seq<char>,
    now: Seq<char>,
) -> CredentialsView {
    CredentialsView {
        token,
        base_url: match status.baseurl {
            Some(url) => url,
            None => base_url,
        },
        account_id: match status.ilink_bot_id {
            Some(id) => id,
            None => seq![],
        },
        user_id: match status.ilink_user_id {
            Some(id) => id,
            None => seq![],
        },
        saved_at: Some(now),
    }
}

/// Why a login is given up.
pub open spec fn given_up_text() -> Seq<char> {
    "QR code expired "@ + encoding::decimal_text(MAX_QR_REFRESH as nat) + " times — login aborted"@
}

/// Another QR code is due: it is requested, unless the limit is reached.
pub open spec fn next_round(m: LoginModel) -> (LoginModel, LoginActionView) {
    if m.requested >= MAX_QR_REFRESH {
        (
            m,
            LoginActionView::Fail(WeChatBotErrorView::Auth(given_up_text())),
        )
    } else {
        (
            LoginModel { requested: m.requested + 1, ..m },
            LoginActionView::RequestQr {
                base_url: qr_base_url(),
                local_token_list: local_tokens(m.stored),
            },
        )
    }
}

/// The next poll.
pub open spec fn poll(m: LoginModel) -> LoginActionView {
    LoginActionView::Poll {
        base_url: m.poll_base_url,
        qrcode: m.qrcode,
        verify_code: m.pending_verify_code,
    }
}

/// The status is taken note of. A pairing code was right once the status turns to `scaned`.
pub open spec fn noted(m: LoginModel, status: Seq<char>) -> LoginModel {
    LoginModel {
        last_status: status,
        pending_verify_code: if status_kind(status) == StatusKind::Scaned && status
            != m.last_status {
            None
        } else {
            m.pending_verify_code
        },
        ..m
    }
}

/// What a status leads to.
pub open spec fn on_status(m: LoginModel, status: QrStatusView, now: Seq<char>) -> (
    LoginModel,
    LoginActionView,
) {
    let m = noted(m, status.status);
    match status_kind(status.status) {
        StatusKind::NeedVerifyCode => (
            m,
            LoginActionView::AskVerifyCode { is_retry: m.pending_verify_code is Some },
        ),
        StatusKind::VerifyCodeBlocked => next_round(m),
        StatusKind::Expired => next_round(m),
        StatusKind::Confirmed => match status.bot_token {
            Some(token) => {
                let creds = confirmed_credentials(token, status, m.base_url, now);
                (LoginModel { confirmed: Some(creds), ..m }, LoginActionView::Save(creds))
            },
            None => (m, LoginActionView::Fail(WeChatBotErrorView::Auth("missing bot_token"@))),
        },
        StatusKind::BindedRedirect => (
            m,
            match m.stored {
                Some(creds) => LoginActionView::Done(creds),
                None => LoginActionView::Fail(
                    WeChatBotErrorView::Auth(
                        "server reports this bot is already bound to this client (binded_redirect), but no local credentials were found"@,
                    ),
                ),
            },
        ),
        StatusKind::ScanedButRedirect => (
            match status.redirect_host {
                Some(host) => LoginModel { poll_base_url: "https://"@ + host, ..m },
                None => m,
            },
            LoginActionView::Sleep { seconds: POLL_SECONDS as int },
        ),
        StatusKind::Scaned => (m, LoginActionView::Sleep { seconds: POLL_SECONDS as int }),
        StatusKind::Waiting => (m, LoginActionView::Sleep { seconds: POLL_SECONDS as int }),
    }
}

/// What an event leads to.
pub open spec fn login_next(m: LoginModel, event: LoginEventView) -> (LoginModel, LoginActionView) {
    match event {
        LoginEventView::QrIssued { qrcode } => {
            let m = LoginModel {
                qrcode,
                last_status: seq![],
                poll_base_url: qr_base_url(),
                pending_verify_code: None,
                ..m
            };
            (m, poll(m))
        },
        LoginEventView::Status { status, now } => on_status(m, status, now),
        LoginEventView::VerifyCode(code) => {
            let m = LoginModel { pending_verify_code: Some(code), ..m };
            (m, poll(m))
        },
        LoginEventView::Slept => (m, poll(m)),
        LoginEventView::Saved => match m.confirmed {
            Some(creds) => (m, LoginActionView::Done(creds)),
            None => (m, poll(m)),
        },
    }
}

/// Before the first QR code.
pub open spec fn fresh_login(stored: Option<CredentialsView>, base_url: Seq<char>) -> LoginModel {
    LoginModel {
        stored,
        base_url,
        requested: 0,
        qrcode: seq![],
        last_status: seq![],
        poll_base_url: qr_base_url(),
        pending_verify_code: None,
        confirmed: None,
    }
}

/// How a login begins: stored credentials are used, unless a new login is forced; else the
/// first QR code is requested.
pub open spec fn login_start(
    force: bool,
    stored: Option<CredentialsView>,
    base_url: Seq<char>,
) -> (LoginModel, LoginActionView) {
    let m = fresh_login(stored, base_url);
    if force {
        next_round(m)
    } else {
        match stored {
            Some(creds) => (m, LoginActionView::Done(creds)),
            None => next_round(m),
        }
    }
}

/// A login under way.
#[derive(Debug)]
pub struct LoginFlow {
    stored: Option<Credentials>,
    base_url: String,
    requested: u32,
    qrcode: String,
    last_status: String,
    poll_base_url: String,
    pending_verify_code: Option<String>,
    confirmed: Option<Credentials>,
}

impl DeepView for LoginFlow {
    type V = LoginModel;

    closed spec fn deep_view(&self) -> LoginModel {
        LoginModel {
            stored: self.stored.deep_view(),
            base_url: self.base_url@,
            requested: self.requested as int,
            qrcode: self.qrcode@,
            last_status: self.last_status@,
            poll_base_url: self.poll_base_url@,
            pending_verify_code: self.pending_verify_code.deep_view(),
            confirmed: self.confirmed.deep_view(),
        }
    }
}

fn local_token_list(stored: &Option<Credentials>) -> (tokens: Vec<String>)
    ensures
        tokens.deep_view() == local_tokens(stored.deep_view()),
{
    let mut tokens: Vec<String> = Vec::new();
    if let Some(creds) = stored {
        if !creds.token.as_str().is_empty() {
            tokens.push(creds.token.clone());
        }
    }
    assert(tokens.deep_view() =~= local_tokens(stored.deep_view()));
    tokens
}

fn text_or_empty(text: Option<String>) -> (value: String)
    ensures
        value@ == match text {
            Some(text) => text@,
            None => seq![],
        },
{
    match text {
        Some(text) => text,
        None => String::new(),
    }
}

impl LoginFlow {
    /// Begins a login, see [`login_start`].
    pub fn start(force: bool, stored: Option<Credentials>, base_url: String) -> (begun: (
        LoginFlow,
        LoginAction,
    ))
        ensures
            (begun.0.deep_view(), begun.1.deep_view()) == login_start(
                force,
                stored.deep_view(),
                base_url@,
            ),
    {
        let mut flow = LoginFlow {
            stored: stored.clone(),
            base_url,
            requested: 0,
            qrcode: String::new(),
            last_status: String::new(),
            poll_base_url: fixed_qr_base_url(),
            pending_verify_code: None,
            confirmed: None,
        };
        if !force {
            if let Some(creds) = stored {
                return (flow, LoginAction::Done(creds));
            }
        }
        let action = flow.next_round();
        (flow, action)
    }

    fn next_round(&mut self) -> (action: LoginAction)
        ensures
            (final(self).deep_view(), action.deep_view()) == next_round(old(self).deep_view()),
    {
        if self.requested >= MAX_QR_REFRESH {
            let mut text = strings::joined(
                "QR code expired ",
                encoding::to_decimal(MAX_QR_REFRESH as u64).as_str(),
            );
            text.append(" times — login aborted");
            return LoginAction::Fail(WeChatBotError::Auth(text));
        }
        self.requested = self.requested + 1;
        LoginAction::RequestQr {
            base_url: fixed_qr_base_url(),
            local_token_list: local_token_list(&self.stored),
        }
    }

    fn poll(&self) -> (action: LoginAction)
        ensures
            action.deep_view() == poll(self.deep_view()),
    {
        LoginAction::Poll {
            base_url: self.poll_base_url.clone(),
            qrcode: self.qrcode.clone(),
            verify_code: self.pending_verify_code.clone(),
        }
    }

    fn on_status(&mut self, status: QrStatus, now: String) -> (action: LoginAction)
        ensures
            (final(self).deep_view(), action.deep_view()) == on_status(
                old(self).deep_view(),
                status.deep_view(),
                now@,
            ),
    {
        let kind = kind_of_status(status.status.as_str());
        if kind == StatusKind::Scaned && status.status != self.last_status {
            self.pending_verify_code = None;
        }
        self.last_status = status.status.clone();
        match kind {
            StatusKind::NeedVerifyCode => LoginAction::AskVerifyCode {
                is_retry: self.pending_verify_code.is_some(),
            },
            StatusKind::VerifyCodeBlocked | StatusKind::Expired => self.next_round(),
            StatusKind::Confirmed => match status.bot_token {
                None => LoginAction::Fail(WeChatBotError::Auth("missing bot_token".to_string())),
                Some(token) => {
                    let creds = Credentials {
                        token,
                        base_url: match status.baseurl {
                            Some(url) => url,
                            None => self.base_url.clone(),
                        },
                        account_id: text_or_empty(status.ilink_bot_id),
                        user_id: text_or_empty(status.ilink_user_id),
                        saved_at: Some(now),
                    };
                    self.confirmed = Some(creds.clone());
                    LoginAction::Save(creds)
                },
            },
            StatusKind::BindedRedirect => match &self.stored {
                Some(creds) => LoginAction::Done(creds.clone()),
                None => LoginAction::Fail(
                    WeChatBotError::Auth(
                        "server reports this bot is already bound to this client (binded_redirect), but no local credentials were found".to_string(),
                    ),
                ),
            },
            StatusKind::ScanedButRedirect => {
                if let Some(host) = status.redirect_host {
                    self.poll_base_url = strings::joined("https://", host.as_str());
                }
                LoginAction::Sleep { seconds: POLL_SECONDS }
            },
            StatusKind::Scaned | StatusKind::Waiting => LoginAction::Sleep {
                seconds: POLL_SECONDS,
            },
        }
    }

    /// Moves the login on, see [`login_next`].
    pub fn step(&mut self, event: LoginEvent) -> (action: LoginAction)
        ensures
            (final(self).deep_view(), action.deep_view()) == login_next(
                old(self).deep_view(),
                event.deep_view(),
            ),
    {
        match event {
            LoginEvent::QrIssued { qrcode } => {
                self.qrcode = qrcode;
                self.last_status = String::new();
                self.poll_base_url = fixed_qr_base_url();
                self.pending_verify_code = None;
                self.poll()
            },
            LoginEvent::Status { status, now } => self.on_status(status, now),
            LoginEvent::VerifyCode(code) => {
                self.pending_verify_code = Some(code);
                self.poll()
            },
            LoginEvent::Slept => self.poll(),
            LoginEvent::Saved => match &self.confirmed {
                Some(creds) => LoginAction::Done(creds.clone()),
                None => self.poll(),
            },
        }
    }
}

/// Where a login stands after some events.
pub open spec fn after_events(m: LoginModel, events: Seq<LoginEventView>) -> LoginModel
    decreases events.len(),
{
    if events.len() == 0 {
        m
    } else {
        login_next(after_events(m, events.drop_last()), events.last()).0
    }
}

/// The actions that some events lead to, one for each.
pub open spec fn actions_on(m: LoginModel, events: Seq<LoginEventView>) -> Seq<LoginActionView>
    decreases events.len(),
{
    if events.len() == 0 {
        seq![]
    } else {
        actions_on(m, events.drop_last()).push(
            login_next(after_events(m, events.drop_last()), events.last()).1,
        )
    }
}

/// How many of the actions request a QR code.
pub open spec fn qr_requests(actions: Seq<LoginActionView>) -> int
    decreases actions.len(),
{
    if actions.len() == 0 {
        0
    } else {
        qr_requests(actions.drop_last()) + if actions.last() is RequestQr {
            1int
        } else {
            0int
        }
    }
}

proof fn lemma_requests_are_counted(m: LoginModel, events: Seq<LoginEventView>)
    requires
        m.requested <= MAX_QR_REFRESH,
    ensures
        after_events(m, events).requested == m.requested + qr_requests(actions_on(m, events)),
        after_events(m, events).requested <= MAX_QR_REFRESH,
    decreases events.len(),
{
    if events.len() > 0 {
        lemma_requests_are_counted(m, events.drop_last());
        assert(actions_on(m, events).drop_last() =~= actions_on(m, events.drop_last()));
    }
}

/// Whatever the service and the user do, a login requests at most [`MAX_QR_REFRESH`] QR codes.
pub proof fn law_qr_requests_are_bounded(
    force: bool,
    stored: Option<CredentialsView>,
    base_url: Seq<char>,
    events: Seq<LoginEventView>,
)
    ensures
        ({
            let (m, first) = login_start(force, stored, base_url);
            qr_requests(seq![first] + actions_on(m, events)) <= MAX_QR_REFRESH
        }),
{
    let (m, first) = login_start(force, stored, base_url);
    lemma_requests_are_counted(m, events);
    lemma_requests_add(first, actions_on(m, events));
}

proof fn lemma_requests_add(first: LoginActionView, rest: Seq<LoginActionView>)
    ensures
        qr_requests(seq![first] + rest) == qr_requests(rest) + if first is RequestQr {
            1int
        } else {
            0int
        },
    decreases rest.len(),
{
    if rest.len() == 0 {
        reveal_with_fuel(qr_requests, 2);
        assert(seq![first] + rest =~= seq![first]);
        assert(seq![first].drop_last() =~= seq![]);
    } else {
        lemma_requests_add(first, rest.drop_last());
        assert((seq![first] + rest).drop_last() =~= seq![first] + rest.drop_last());
    }
}

/// Once the last QR code is used up, a further one that is due ends the login with an error.
pub proof fn law_login_gives_up(m: LoginModel, status: QrStatusView, now: Seq<char>)
    requires
        m.requested >= MAX_QR_REFRESH,
        status_kind(status.status) == StatusKind::Expired || status_kind(status.status)
            == StatusKind::VerifyCodeBlocked,
    ensures
        login_next(m, LoginEventView::Status { status, now }).1 == LoginActionView::Fail(
            WeChatBotErrorView::Auth(given_up_text()),
        ),
{
}

/// Stored credentials make a login without any request, unless a new login is forced.
pub proof fn law_stored_credentials_suffice(creds: CredentialsView, base_url: Seq<char>)
    ensures
        login_start(false, Some(creds), base_url).1 == LoginActionView::Done(creds),
{
}

/// A login ends only with credentials that were stored when it began, or that were to be saved
/// at an earlier step and then were.
pub proof fn law_login_ends_with_credentials_on_disk(
    force: bool,
    stored: Option<CredentialsView>,
    base_url: Seq<char>,
    events: Seq<LoginEventView>,
    i: int,
    creds: CredentialsView,
)
    requires
        0 <= i < events.len(),
        actions_on(login_start(force, stored, base_url).0, events)[i] == LoginActionView::Done(
            creds,
        ),
    ensures
        stored == Some(creds) || {
            &&& events[i] is Saved
            &&& exists|j: int|
                0 <= j < i && #[trigger] actions_on(
                    login_start(force, stored, base_url).0,
                    events,
                )[j] == LoginActionView::Save(creds)
        },
{
    let m = login_start(force, stored, base_url).0;
    lemma_actions_step_by_step(m, events, i);
    lemma_login_keeps_its_start(m, events.take(i));
    if events[i] is Saved {
        lemma_confirmed_were_to_be_saved(m, events.take(i), creds);
        let j = choose|j: int|
            0 <= j < i && #[trigger] actions_on(m, events.take(i))[j] == LoginActionView::Save(
                creds,
            );
        lemma_actions_step_by_step(m, events, j);
        lemma_actions_step_by_step(m, events.take(i), j);
        assert(events.take(i).take(j) =~= events.take(j));
    }
}

proof fn lemma_confirmed_were_to_be_saved(
    m: LoginModel,
    events: Seq<LoginEventView>,
    creds: CredentialsView,
)
    requires
        m.confirmed is None,
        after_events(m, events).confirmed == Some(creds),
    ensures
        exists|j: int|
            0 <= j < events.len() && #[trigger] actions_on(m, events)[j] == LoginActionView::Save(
                creds,
            ),
    decreases events.len(),
{
    let before = after_events(m, events.drop_last());
    let last = events.len() - 1;
    lemma_actions_step_by_step(m, events, last);
    assert(events.take(last) =~= events.drop_last());
    if before.confirmed == Some(creds) {
        lemma_confirmed_were_to_be_saved(m, events.drop_last(), creds);
        let j = choose|j: int|
            0 <= j < last && #[trigger] actions_on(m, events.drop_last())[j]
                == LoginActionView::Save(creds);
        assert(actions_on(m, events)[j] == actions_on(m, events.drop_last())[j]) by {
            lemma_actions_step_by_step(m, events, j);
            lemma_actions_step_by_step(m, events.drop_last(), j);
            assert(events.drop_last().take(j) =~= events.take(j));
        }
    } else {
        assert(actions_on(m, events)[last] == LoginActionView::Save(creds));
    }
}

/// Credentials that were to be saved, and were, end the login.
pub proof fn law_saved_credentials_end_the_login(
    m: LoginModel,
    event: LoginEventView,
    creds: CredentialsView,
)
    requires
        login_next(m, event).1 == LoginActionView::Save(creds),
    ensures
        login_next(login_next(m, event).0, LoginEventView::Saved).1 == LoginActionView::Done(creds),
{
}

proof fn lemma_actions_step_by_step(m: LoginModel, events: Seq<LoginEventView>, i: int)
    requires
        0 <= i < events.len(),
    ensures
        actions_on(m, events).len() == events.len(),
        actions_on(m, events)[i] == login_next(after_events(m, events.take(i)), events[i]).1,
    decreases events.len(),
{
    reveal_with_fuel(actions_on, 2);
    if i < events.len() - 1 {
        lemma_actions_step_by_step(m, events.drop_last(), i);
        assert(events.drop_last().take(i) =~= events.take(i));
    } else {
        assert(events.drop_last() =~= events.take(i));
        if i > 0 {
            lemma_actions_step_by_step(m, events.drop_last(), i - 1);
        }
    }
}

/// The course of a login does not change what it began with.
proof fn lemma_login_keeps_its_start(m: LoginModel, events: Seq<LoginEventView>)
    ensures
        after_events(m, events).stored == m.stored,
        after_events(m, events).base_url == m.base_url,
    decreases events.len(),
{
    if events.len() > 0 {
        lemma_login_keeps_its_start(m, events.drop_last());
    }
}

/// The user is first asked for a pairing code as such; where the service asks for a code again
/// after one was given, the user is told that it was wrong.
pub proof fn law_second_code_is_a_retry(
    m: LoginModel,
    qrcode: Seq<char>,
    code: Seq<char>,
    status: QrStatusView,
    now: Seq<char>,
)
    requires
        status_kind(status.status) == StatusKind::NeedVerifyCode,
    ensures
        ({
            let issued = login_next(m, LoginEventView::QrIssued { qrcode }).0;
            let (asked, question) = login_next(issued, LoginEventView::Status { status, now });
            let (given, poll) = login_next(asked, LoginEventView::VerifyCode(code));
            let again = login_next(given, LoginEventView::Status { status, now }).1;
            &&& question == LoginActionView::AskVerifyCode { is_retry: false }
            &&& poll == LoginActionView::Poll {
                base_url: qr_base_url(),
                qrcode,
                verify_code: Some(code),
            }
            &&& again == LoginActionView::AskVerifyCode { is_retry: true }
        }),
{
}

/// The status texts of the service, and what they mean.
pub proof fn law_status_texts()
    ensures
        status_kind("scaned"@) == StatusKind::Scaned,
        status_kind("expired"@) == StatusKind::Expired,
        status_kind("confirmed"@) == StatusKind::Confirmed,
        status_kind("need_verifycode"@) == StatusKind::NeedVerifyCode,
        status_kind("verify_code_blocked"@) == StatusKind::VerifyCodeBlocked,
        status_kind("binded_redirect"@) == StatusKind::BindedRedirect,
        status_kind("scaned_but_redirect"@) == StatusKind::ScanedButRedirect,
{
    reveal_strlit("scaned");
    reveal_strlit("expired");
    reveal_strlit("confirmed");
    reveal_strlit("need_verifycode");
    reveal_strlit("verify_code_blocked");
    reveal_strlit("binded_redirect");
    reveal_strlit("scaned_but_redirect");
    assert("scaned"@.len() == 6);
    assert("expired"@.len() == 7);
    assert("confirmed"@.len() == 9);
    assert("need_verifycode"@.len() == 15 && "need_verifycode"@[0] == 'n');
    assert("binded_redirect"@.len() == 15 && "binded_redirect"@[0] == 'b');
    assert("verify_code_blocked"@.len() == 19 && "verify_code_blocked"@[0] == 'v');
    assert("scaned_but_redirect"@.len() == 19 && "scaned_but_redirect"@[0] == 's');
}

/// The request for a QR code goes to the host that issues them, and names the token of the
/// stored credentials if there are any with a token that is not empty, and no other.
pub open spec fn is_qr_request(action: LoginActionView, stored: Option<CredentialsView>) -> bool {
    action matches LoginActionView::RequestQr { base_url, local_token_list } && {
        &&& base_url == "https://ilinkai.weixin.qq.com"@
        &&& forall|token: Seq<char>| #[trigger]
            local_token_list.contains(token) <==> stored is Some && stored->0.token == token
                && token.len() > 0
        &&& local_token_list.len() <= 1
    }
}

proof fn lemma_qr_request(m: LoginModel)
    requires
        next_round(m).1 is RequestQr,
    ensures
        is_qr_request(next_round(m).1, m.stored),
{
    let tokens = local_tokens(m.stored);
    if let Some(creds) = m.stored {
        if creds.token.len() > 0 {
            assert(tokens[0] == creds.token);
        }
    }
}

/// A login begins with the credentials that it was given and ends at once with them; or, if
/// there are none or a new login is forced, with the first request for a QR code.
pub proof fn law_login_begins(
    force: bool,
    stored: Option<CredentialsView>,
    base_url: Seq<char>,
)
    ensures
        ({
            let (m, action) = login_start(force, stored, base_url);
            &&& m.stored == stored
            &&& m.base_url == base_url
            &&& m.confirmed is None
            &&& m.pending_verify_code is None
            &&& stored is Some && !force ==> action == LoginActionView::Done(stored->0)
            &&& stored is None || force ==> is_qr_request(action, stored) && m.requested == 1
        }),
{
    if stored is None || force {
        lemma_qr_request(fresh_login(stored, base_url));
    }
}

/// A new QR code is polled at the host that issues them, without a pairing code; what was
/// pending for the QR code before it is forgotten, and nothing else.
pub proof fn law_new_qr_code_is_polled(m: LoginModel, qrcode: Seq<char>)
    ensures
        ({
            let (after, action) = login_next(m, LoginEventView::QrIssued { qrcode });
            &&& action == LoginActionView::Poll {
                base_url: "https://ilinkai.weixin.qq.com"@,
                qrcode,
                verify_code: None,
            }
            &&& after.qrcode == qrcode
            &&& after.poll_base_url == "https://ilinkai.weixin.qq.com"@
            &&& after.pending_verify_code is None
            &&& after.last_status == Seq::<char>::empty()
            &&& after.stored == m.stored
            &&& after.base_url == m.base_url
            &&& after.requested == m.requested
            &&& after.confirmed == m.confirmed
        }),
{
}

/// What is fixed for as long as a QR code is polled: what the login began with, the QR code, and
/// how many have been requested.
pub open spec fn same_round(m: LoginModel, after: LoginModel) -> bool {
    &&& after.stored == m.stored
    &&& after.base_url == m.base_url
    &&& after.qrcode == m.qrcode
    &&& after.requested == m.requested
}

/// A confirmed login yields the credentials that the service has sent, whatever was stored
/// before: the token in the answer, its base URL or else the bot's, its ids or else empty ones,
/// dated with the present time. They are to be saved, and once they are, the login ends with
/// exactly these.
pub proof fn law_confirmed_login_yields_new_credentials(
    m: LoginModel,
    status: QrStatusView,
    now: Seq<char>,
    token: Seq<char>,
)
    requires
        status.status == "confirmed"@,
        status.bot_token == Some(token),
    ensures
        ({
            let (after, action) = login_next(m, LoginEventView::Status { status, now });
            &&& action is Save
            &&& action->Save_0.token == token
            &&& status.baseurl is Some ==> action->Save_0.base_url == status.baseurl->0
            &&& status.baseurl is None ==> action->Save_0.base_url == m.base_url
            &&& status.ilink_bot_id is Some ==> action->Save_0.account_id
                == status.ilink_bot_id->0
            &&& status.ilink_bot_id is None ==> action->Save_0.account_id.len() == 0
            &&& status.ilink_user_id is Some ==> action->Save_0.user_id == status.ilink_user_id->0
            &&& status.ilink_user_id is None ==> action->Save_0.user_id.len() == 0
            &&& action->Save_0.saved_at == Some(now)
            &&& same_round(m, after)
            &&& login_next(after, LoginEventView::Saved).1 == LoginActionView::Done(
                action->Save_0,
            )
        }),
{
    law_status_texts();
}

/// A confirmed login without a token fails, and nothing is saved.
pub proof fn law_confirmation_needs_a_token(m: LoginModel, status: QrStatusView, now: Seq<char>)
    requires
        status.status == "confirmed"@,
        status.bot_token is None,
    ensures
        ({
            let (after, action) = login_next(m, LoginEventView::Status { status, now });
            &&& action == LoginActionView::Fail(WeChatBotErrorView::Auth("missing bot_token"@))
            &&& after.confirmed == m.confirmed
        }),
{
    law_status_texts();
}

/// Where a pairing code is wanted, the user is asked for it, as a retry if and only if one is
/// pending. The code that they enter is sent with the next poll of the same QR code at the same
/// host, and stays pending.
pub proof fn law_pairing_code_is_asked_for_and_sent(
    m: LoginModel,
    status: QrStatusView,
    now: Seq<char>,
    code: Seq<char>,
)
    requires
        status.status == "need_verifycode"@,
    ensures
        ({
            let (asked, question) = login_next(m, LoginEventView::Status { status, now });
            let (given, poll) = login_next(asked, LoginEventView::VerifyCode(code));
            &&& question == LoginActionView::AskVerifyCode {
                is_retry: m.pending_verify_code is Some,
            }
            &&& poll == LoginActionView::Poll {
                base_url: m.poll_base_url,
                qrcode: m.qrcode,
                verify_code: Some(code),
            }
            &&& given.pending_verify_code == Some(code)
            &&& given.poll_base_url == m.poll_base_url
            &&& given.confirmed == m.confirmed
            &&& same_round(m, given)
        }),
{
    law_status_texts();
}

/// When a QR code has expired, or too many wrong pairing codes were given for it, another one is
/// requested, up to three in all; then the login is given up.
pub proof fn law_used_up_qr_code_is_replaced(m: LoginModel, status: QrStatusView, now: Seq<char>)
    requires
        status.status == "expired"@ || status.status == "verify_code_blocked"@,
    ensures
        ({
            let (after, action) = login_next(m, LoginEventView::Status { status, now });
            &&& m.requested < 3 ==> is_qr_request(action, m.stored) && after.requested
                == m.requested + 1
            &&& m.requested >= 3 ==> action == LoginActionView::Fail(
                WeChatBotErrorView::Auth("QR code expired 3 times — login aborted"@),
            )
            &&& after.stored == m.stored
            &&& after.base_url == m.base_url
            &&& after.confirmed == m.confirmed
        }),
{
    law_status_texts();
    let noted = noted(m, status.status);
    if m.requested < 3 {
        lemma_qr_request(noted);
    }
    reveal_strlit("QR code expired ");
    reveal_strlit(" times — login aborted");
    reveal_strlit("QR code expired 3 times — login aborted");
    assert(encoding::decimal_text(3) =~= seq!['3']);
    assert(given_up_text() =~= "QR code expired 3 times — login aborted"@);
}

/// A bot that is already bound is logged in with the stored credentials, and fails without.
pub proof fn law_bound_bot_uses_stored_credentials(
    m: LoginModel,
    status: QrStatusView,
    now: Seq<char>,
)
    requires
        status.status == "binded_redirect"@,
    ensures
        ({
            let action = login_next(m, LoginEventView::Status { status, now }).1;
            &&& m.stored is Some ==> action == LoginActionView::Done(m.stored->0)
            &&& m.stored is None ==> action == LoginActionView::Fail(
                WeChatBotErrorView::Auth(
                    "server reports this bot is already bound to this client (binded_redirect), but no local credentials were found"@,
                ),
            )
        }),
{
    law_status_texts();
}

/// A redirect makes the next poll go to the host that it names, over HTTPS, and one that names no
/// host changes nothing. The poll comes two seconds later, for the same QR code, with the same
/// pairing code.
pub proof fn law_redirect_changes_the_host(m: LoginModel, status: QrStatusView, now: Seq<char>)
    requires
        status.status == "scaned_but_redirect"@,
    ensures
        ({
            let (after, action) = login_next(m, LoginEventView::Status { status, now });
            let (later, poll) = login_next(after, LoginEventView::Slept);
            let host = match status.redirect_host {
                Some(host) => "https://"@ + host,
                None => m.poll_base_url,
            };
            &&& action == LoginActionView::Sleep { seconds: 2 }
            &&& poll == LoginActionView::Poll {
                base_url: host,
                qrcode: m.qrcode,
                verify_code: m.pending_verify_code,
            }
            &&& later.confirmed == m.confirmed
            &&& same_round(m, later)
        }),
{
    law_status_texts();
}

/// Once the QR code is newly seen as scanned, the pairing code is no longer sent; while it stays
/// scanned, what is pending stays. The next poll comes two seconds later, at the same host.
pub proof fn law_scanned_qr_code_drops_the_pairing_code(
    m: LoginModel,
    status: QrStatusView,
    now: Seq<char>,
)
    requires
        status.status == "scaned"@,
    ensures
        ({
            let (after, action) = login_next(m, LoginEventView::Status { status, now });
            let (later, poll) = login_next(after, LoginEventView::Slept);
            &&& action == LoginActionView::Sleep { seconds: 2 }
            &&& poll == LoginActionView::Poll {
                base_url: m.poll_base_url,
                qrcode: m.qrcode,
                verify_code: if m.last_status == "scaned"@ {
                    m.pending_verify_code
                } else {
                    None
                },
            }
            &&& later.last_status == "scaned"@
            &&& later.confirmed == m.confirmed
            &&& same_round(m, later)
        }),
{
    law_status_texts();
}

/// Any other status means that nothing has happened yet: the same is polled again two seconds
/// later.
pub proof fn law_unknown_status_is_waited_out(m: LoginModel, status: QrStatusView, now: Seq<char>)
    requires
        status.status != "scaned"@,
        status.status != "expired"@,
        status.status != "confirmed"@,
        status.status != "need_verifycode"@,
        status.status != "verify_code_blocked"@,
        status.status != "binded_redirect"@,
        status.status != "scaned_but_redirect"@,
    ensures
        ({
            let (after, action) = login_next(m, LoginEventView::Status { status, now });
            let (later, poll) = login_next(after, LoginEventView::Slept);
            &&& action == LoginActionView::Sleep { seconds: 2 }
            &&& poll == LoginActionView::Poll {
                base_url: m.poll_base_url,
                qrcode: m.qrcode,
                verify_code: m.pending_verify_code,
            }
            &&& later == (LoginModel { last_status: status.status, ..m })
        }),
{
}

/// Every status is remembered as the last one, so that a change of status can be told.
pub proof fn law_last_status_is_remembered(m: LoginModel, status: QrStatusView, now: Seq<char>)
    ensures
        login_next(m, LoginEventView::Status { status, now }).0.last_status == status.status,
        login_next(m, LoginEventView::Slept).0 == m,
        login_next(m, LoginEventView::Saved).0 == m,
{
}

/// As long as no other QR code is issued, every poll asks for the same one.
pub proof fn law_polls_ask_for_the_issued_qr_code(
    m: LoginModel,
    qrcode: Seq<char>,
    events: Seq<LoginEventView>,
    last: LoginEventView,
)
    requires
        forall|i: int| 0 <= i < events.len() ==> !(#[trigger] events[i] is QrIssued),
        !(last is QrIssued),
    ensures
        ({
            let issued = login_next(m, LoginEventView::QrIssued { qrcode }).0;
            let action = login_next(after_events(issued, events), last).1;
            action is Poll ==> action->Poll_qrcode == qrcode
        }),
{
    let issued = login_next(m, LoginEventView::QrIssued { qrcode }).0;
    lemma_qr_code_stays(issued, events);
}

proof fn lemma_qr_code_stays(m: LoginModel, events: Seq<LoginEventView>)
    requires
        forall|i: int| 0 <= i < events.len() ==> !(#[trigger] events[i] is QrIssued),
    ensures
        after_events(m, events).qrcode == m.qrcode,
    decreases events.len(),
{
    if events.len() > 0 {
        assert(!(events.last() is QrIssued));
        assert forall|i: int| 0 <= i < events.drop_last().len() implies !(#[trigger]
        events.drop_last()[i] is QrIssued) by {
            assert(events.drop_last()[i] == events[i]);
        }
        lemma_qr_code_stays(m, events.drop_last());
    }
}

/// The user is told of a wrong code where there was one.
pub proof fn law_prompts()
    ensures
        prompt_text(false) == "Enter the pairing code shown in WeChat on your phone: "@,
        prompt_text(true) == "Code mismatch — enter the pairing code shown in WeChat again: "@,
{
}

} // verus!
