//! The bot: what it remembers, and what it answers to the calls of a program that uses it.
//!
//! A [`WeChatBot`] does no input or output. Its methods say what to request from the service,
//! or why nothing is to be requested.

use vstd::prelude::*;
use vstd::hash_map::StringHashMap;
use crate::clock;
use crate::download;
use crate::download::DownloadPlan;
use crate::error;
use crate::error::{WeChatBotError, WeChatBotErrorView};
use crate::files;
use crate::login;
use crate::login::{LoginAction, LoginActionView, LoginEvent, LoginFlow, QrStatus, StatusKind};
use crate::paths;
use crate::paths::Platform;
use crate::send;
use crate::send::{SendPlan, SendPlanView, TextPlan, TextPlanView};
use crate::types::{
    Auth, AuthView, Credentials, CredentialsView, IncomingMessage, MessageType, SendContent,
    SendContentView, WireMessage, WireMessageView,
};
use crate::upload;
use crate::upload::{Sealed, Upload};

verus! {

/// How a bot is set up.
#[derive(Debug, PartialEq, Eq)]
pub struct BotOptions {
    pub base_url: Option<String>,
    pub cred_path: Option<String>,
    /// How the program that runs the bot presents itself to the service, for example
    /// `MyApp/1.2 (prod)`.
    pub bot_agent: Option<String>,
}

impl Default for BotOptions {
    fn default() -> (opts: Self)
        ensures
            opts.base_url is None,
            opts.cred_path is None,
            opts.bot_agent is None,
    {
        BotOptions { base_url: None, cred_path: None, bot_agent: None }
    }
}

/// A bot.
pub struct WeChatBot {
    credentials: Option<Credentials>,
    context_tokens: StringHashMap<String>,
    cursor: String,
    base_url: String,
    cred_path: Option<String>,
    bot_agent: Option<String>,
    platform: Platform,
    stopped: bool,
}

/// What a [`WeChatBot`] remembers.
pub struct BotModel {
    /// The credentials of the last login.
    pub credentials: Option<CredentialsView>,
    /// For each user, the context in which to write to them.
    pub context_tokens: Map<Seq<char>, Seq<char>>,
    /// How far the updates have been read.
    pub cursor: Seq<char>,
    pub base_url: Seq<char>,
    pub cred_path: Option<Seq<char>>,
    pub bot_agent: Option<Seq<char>>,
    /// The platform whose paths the bot reads and writes.
    pub platform: Platform,
    /// Whether the bot has been told to stop.
    pub stopped: bool,
}

impl DeepView for WeChatBot {
    type V = BotModel;

    closed spec fn deep_view(&self) -> BotModel {
        BotModel {
            credentials: self.credentials.deep_view(),
            context_tokens: self.context_tokens@.map_values(|token: String| token@),
            cursor: self.cursor@,
            base_url: self.base_url@,
            cred_path: self.cred_path.deep_view(),
            bot_agent: self.bot_agent.deep_view(),
            platform: self.platform,
            stopped: self.stopped,
        }
    }
}

/// A new bot.
pub open spec fn new_bot(
    opts: BotOptions,
    default_base_url: Seq<char>,
    platform: Platform,
) -> BotModel {
    BotModel {
        credentials: None,
        context_tokens: Map::empty(),
        cursor: seq![],
        base_url: match opts.base_url {
            Some(url) => url@,
            None => default_base_url,
        },
        cred_path: opts.cred_path.deep_view(),
        bot_agent: opts.bot_agent.deep_view(),
        platform,
        stopped: false,
    }
}

/// Where requests go and what they are authorised by, after a login.
pub open spec fn auth_of(bot: BotModel) -> Result<AuthView, WeChatBotErrorView> {
    match bot.credentials {
        Some(creds) => Ok(AuthView { base_url: creds.base_url, token: creds.token }),
        None => Err(WeChatBotErrorView::Auth("not logged in"@)),
    }
}

/// The bot takes credentials into use.
pub open spec fn adopted(bot: BotModel, creds: CredentialsView) -> BotModel {
    BotModel { credentials: Some(creds), base_url: creds.base_url, ..bot }
}

/// The bot takes the credentials into use with which a login ends.
pub open spec fn after_login(bot: BotModel, action: LoginActionView) -> BotModel {
    match action {
        LoginActionView::Done(creds) => adopted(bot, creds),
        _ => bot,
    }
}

/// The bot notes the context in which to write to a user.
pub open spec fn in_context(bot: BotModel, user_id: Seq<char>, token: Seq<char>) -> BotModel {
    BotModel { context_tokens: bot.context_tokens.insert(user_id, token), ..bot }
}

/// The user whose conversation a message belongs to.
pub open spec fn peer_of(wire: WireMessageView) -> Seq<char> {
    if wire.message_type == MessageType::User {
        wire.from_user_id
    } else {
        wire.to_user_id
    }
}

/// The bot notes the context of a message, if the message names a user and a context.
pub open spec fn remembered(bot: BotModel, wire: WireMessageView) -> BotModel {
    if peer_of(wire).len() > 0 && wire.context_token.len() > 0 {
        in_context(bot, peer_of(wire), wire.context_token)
    } else {
        bot
    }
}

/// The context in which to write to a user.
pub open spec fn context_of(bot: BotModel, user_id: Seq<char>) -> Result<
    Seq<char>,
    WeChatBotErrorView,
> {
    if bot.context_tokens.contains_key(user_id) {
        Ok(bot.context_tokens[user_id])
    } else {
        Err(WeChatBotErrorView::NoContext(user_id))
    }
}

/// How a text is sent to a user in a context.
pub open spec fn sent_text(
    bot: BotModel,
    user_id: Seq<char>,
    context_token: Seq<char>,
    text: Seq<char>,
) -> Result<TextPlanView, WeChatBotErrorView> {
    match auth_of(bot) {
        Ok(auth) => Ok(
            TextPlanView { auth, messages: send::messages_of(user_id, context_token, text) },
        ),
        Err(error) => Err(error),
    }
}

/// How content is sent to a user in a context; `None` if a text in it cannot be split.
pub open spec fn sent_content(
    bot: BotModel,
    user_id: Seq<char>,
    context_token: Seq<char>,
    content: SendContentView,
) -> Result<Option<SendPlanView>, WeChatBotErrorView> {
    let kind = send::content_kind(content, bot.platform);
    match auth_of(bot) {
        Ok(auth) => if send::can_send(content, kind) {
            Ok(Some(send::content_plan(auth, user_id, context_token, content, kind)))
        } else {
            Ok(None)
        },
        Err(error) => Err(error),
    }
}

/// A request for the settings of a conversation.
#[derive(Debug, PartialEq, Eq)]
pub struct ConfigRequest {
    pub auth: Auth,
    pub user_id: String,
    pub context_token: String,
}

/// The contents of a [`ConfigRequest`].
pub struct ConfigRequestView {
    pub auth: AuthView,
    pub user_id: Seq<char>,
    pub context_token: Seq<char>,
}

impl DeepView for ConfigRequest {
    type V = ConfigRequestView;

    open spec fn deep_view(&self) -> ConfigRequestView {
        ConfigRequestView {
            auth: self.auth.deep_view(),
            user_id: self.user_id@,
            context_token: self.context_token@,
        }
    }
}

/// A request to show a user that the bot is typing.
#[derive(Debug, PartialEq, Eq)]
pub struct TypingRequest {
    pub auth: Auth,
    pub user_id: String,
    pub ticket: String,
    pub status: i32,
}

/// The contents of a [`TypingRequest`].
pub struct TypingRequestView {
    pub auth: AuthView,
    pub user_id: Seq<char>,
    pub ticket: Seq<char>,
    pub status: int,
}

impl DeepView for TypingRequest {
    type V = TypingRequestView;

    open spec fn deep_view(&self) -> TypingRequestView {
        TypingRequestView {
            auth: self.auth.deep_view(),
            user_id: self.user_id@,
            ticket: self.ticket@,
            status: self.status as int,
        }
    }
}

/// The request for the settings that showing a user that the bot is typing begins with.
pub open spec fn typing_config(bot: BotModel, user_id: Seq<char>) -> Result<
    ConfigRequestView,
    WeChatBotErrorView,
> {
    match context_of(bot, user_id) {
        Ok(context_token) => match auth_of(bot) {
            Ok(auth) => Ok(ConfigRequestView { auth, user_id, context_token }),
            Err(error) => Err(error),
        },
        Err(error) => Err(error),
    }
}

impl ConfigRequest {
    /// Shows that the bot is typing, if the settings hold a ticket for it.
    pub fn typing(self, typing_ticket: Option<String>) -> (request: Option<TypingRequest>)
        ensures
            request.deep_view() == match typing_ticket {
                Some(ticket) => Some(
                    TypingRequestView {
                        auth: self.deep_view().auth,
                        user_id: self.deep_view().user_id,
                        ticket: ticket@,
                        status: 1,
                    },
                ),
                None => None,
            },
    {
        match typing_ticket {
            Some(ticket) => Some(
                TypingRequest { auth: self.auth, user_id: self.user_id, ticket, status: 1 },
            ),
            None => None,
        }
    }
}

impl WeChatBot {
    /// Makes a bot on the platform that the program runs on. `default_base_url` is where the
    /// service is to be found if the options do not say.
    pub fn new(opts: BotOptions, default_base_url: &str) -> (bot: WeChatBot)
        ensures
            exists|platform: Platform|
                bot.deep_view() == #[trigger] new_bot(opts, default_base_url@, platform),
    {
        WeChatBot::on_platform(opts, default_base_url, paths::current_platform())
    }

    /// Makes a bot on a given platform, see [`new_bot`].
    pub fn on_platform(opts: BotOptions, default_base_url: &str, platform: Platform) -> (bot:
        WeChatBot)
        ensures
            bot.deep_view() == new_bot(opts, default_base_url@, platform),
    {
        let context_tokens: StringHashMap<String> = StringHashMap::new();
        assert(context_tokens@.map_values(|token: String| token@) =~= Map::empty());
        WeChatBot {
            credentials: None,
            context_tokens,
            cursor: String::new(),
            base_url: match opts.base_url {
                Some(url) => url,
                None => default_base_url.to_string(),
            },
            cred_path: opts.cred_path,
            bot_agent: opts.bot_agent,
            platform,
            stopped: false,
        }
    }

    /// How the program presents itself to the service.
    pub fn bot_agent(&self) -> (agent: Option<String>)
        ensures
            agent.deep_view() == self.deep_view().bot_agent,
    {
        self.bot_agent.clone()
    }

    /// Where the credentials are kept: at the path of the options, or else at the default one.
    pub fn credentials_path(&self) -> (path: String)
        ensures
            match self.deep_view().cred_path {
                Some(given) => path@ == given,
                None => exists|home: Option<Seq<char>>|
                    path@ == #[trigger] files::cred_path_under(home, self.deep_view().platform),
            },
    {
        match &self.cred_path {
            Some(path) => path.clone(),
            None => files::cred_path_on(self.platform),
        }
    }

    /// Where requests go and what they are authorised by, see [`auth_of`].
    pub fn get_auth(&self) -> (auth: Result<Auth, WeChatBotError>)
        ensures
            error::outcome(auth) == auth_of(self.deep_view()),
    {
        match &self.credentials {
            Some(creds) => Ok(Auth { base_url: creds.base_url.clone(), token: creds.token.clone() }),
            None => Err(WeChatBotError::Auth("not logged in".to_string())),
        }
    }

    fn adopt(&mut self, creds: &Credentials)
        ensures
            final(self).deep_view() == adopted(old(self).deep_view(), creds.deep_view()),
    {
        self.credentials = Some(creds.clone());
        self.base_url = creds.base_url.clone();
    }

    /// Begins a login, see [`login::login_start`]. `stored` are the credentials on disk.
    pub fn login(&mut self, force: bool, stored: Option<Credentials>) -> (begun: (
        LoginFlow,
        LoginAction,
    ))
        ensures
            (begun.0.deep_view(), begun.1.deep_view()) == login::login_start(
                force,
                stored.deep_view(),
                old(self).deep_view().base_url,
            ),
            final(self).deep_view() == after_login(old(self).deep_view(), begun.1.deep_view()),
    {
        let (flow, action) = LoginFlow::start(force, stored, self.base_url.clone());
        if let LoginAction::Done(creds) = &action {
            self.adopt(creds);
        }
        (flow, action)
    }

    /// Moves a login on, see [`login::login_next`].
    pub fn login_step(&mut self, flow: &mut LoginFlow, event: LoginEvent) -> (action: LoginAction)
        ensures
            (final(flow).deep_view(), action.deep_view()) == login::login_next(
                old(flow).deep_view(),
                event.deep_view(),
            ),
            final(self).deep_view() == after_login(old(self).deep_view(), action.deep_view()),
    {
        let action = flow.step(event);
        if let LoginAction::Done(creds) = &action {
            self.adopt(creds);
        }
        action
    }

    /// Moves a login on with the service's answer to a poll, at the present time. It is `None`,
    /// and nothing has changed, when a confirmed login has to be dated and the clock is set
    /// before the Unix epoch.
    pub fn login_status(&mut self, flow: &mut LoginFlow, status: QrStatus) -> (action: Option<
        LoginAction,
    >)
        ensures
            match action {
                Some(action) => {
                    &&& exists|seconds: u64|
                        (final(flow).deep_view(), action.deep_view()) == login::on_status(
                            old(flow).deep_view(),
                            status.deep_view(),
                            #[trigger] clock::stamp_text(seconds as nat),
                        )
                    &&& final(self).deep_view() == after_login(
                        old(self).deep_view(),
                        action.deep_view(),
                    )
                },
                None => {
                    &&& login::status_kind(status.deep_view().status) == StatusKind::Confirmed
                    &&& status.deep_view().bot_token is Some
                    &&& final(flow).deep_view() == old(flow).deep_view()
                    &&& final(self).deep_view() == old(self).deep_view()
                },
            },
    {
        let dated = login::kind_of_status(status.status.as_str()) == StatusKind::Confirmed
            && status.bot_token.is_some();
        let now = if dated {
            match clock::chrono_now() {
                Some(now) => now,
                None => return None,
            }
        } else {
            clock::stamp(0)
        };
        Some(self.login_step(flow, LoginEvent::Status { status, now }))
    }

    fn note_context(&mut self, user_id: &String, context_token: &String)
        ensures
            final(self).deep_view() == in_context(
                old(self).deep_view(),
                user_id@,
                context_token@,
            ),
    {
        let ghost before = self.context_tokens@;
        self.context_tokens.insert(user_id.clone(), context_token.clone());
        assert(self.context_tokens@.map_values(|token: String| token@) =~= before.map_values(
            |token: String| token@,
        ).insert(user_id@, context_token@));
    }

    /// The context in which to write to a user, see [`context_of`].
    fn context(&self, user_id: &str) -> (context_token: Result<String, WeChatBotError>)
        ensures
            error::outcome(context_token) == context_of(self.deep_view(), user_id@),
    {
        match self.context_tokens.get(user_id) {
            Some(token) => Ok(token.clone()),
            None => Err(WeChatBotError::NoContext(user_id.to_string())),
        }
    }

    /// Notes in which context a message stands, see [`remembered`].
    pub fn remember_context(&mut self, wire: &WireMessage)
        ensures
            final(self).deep_view() == remembered(old(self).deep_view(), wire.deep_view()),
    {
        let user_id = if wire.message_type == MessageType::User {
            &wire.from_user_id
        } else {
            &wire.to_user_id
        };
        if !user_id.as_str().is_empty() && !wire.context_token.as_str().is_empty() {
            self.note_context(user_id, &wire.context_token);
        }
    }

    /// Sends a text to a user in a context, see [`sent_text`].
    pub fn send_text(&self, user_id: &str, text: &str, context_token: &str) -> (plan: Result<
        TextPlan,
        WeChatBotError,
    >)
        requires
            self.deep_view().credentials is Some ==> send::can_send_text(text@),
        ensures
            error::outcome(plan) == sent_text(
                self.deep_view(),
                user_id@,
                context_token@,
                text@,
            ),
    {
        match self.get_auth() {
            Ok(auth) => Ok(
                TextPlan { auth, messages: send::text_messages(user_id, context_token, text) },
            ),
            Err(error) => Err(error),
        }
    }

    /// Answers a message with a text. The context of the message is noted, whether or not the
    /// text can be sent.
    pub fn reply(&mut self, msg: &IncomingMessage, text: &str) -> (plan: Result<
        TextPlan,
        WeChatBotError,
    >)
        requires
            old(self).deep_view().credentials is Some ==> send::can_send_text(text@),
        ensures
            final(self).deep_view() == in_context(
                old(self).deep_view(),
                msg.user_id@,
                msg.context_token@,
            ),
            error::outcome(plan) == sent_text(
                old(self).deep_view(),
                msg.user_id@,
                msg.context_token@,
                text@,
            ),
    {
        self.note_context(&msg.user_id, &msg.context_token);
        self.send_text(msg.user_id.as_str(), text, msg.context_token.as_str())
    }

    /// Sends a text to a user in the context that was last noted for them.
    pub fn send(&self, user_id: &str, text: &str) -> (plan: Result<TextPlan, WeChatBotError>)
        requires
            self.deep_view().credentials is Some && self.deep_view().context_tokens.contains_key(
                user_id@,
            ) ==> send::can_send_text(text@),
        ensures
            error::outcome(plan) == match context_of(self.deep_view(), user_id@) {
                Ok(context_token) => sent_text(
                    self.deep_view(),
                    user_id@,
                    context_token,
                    text@,
                ),
                Err(error) => Err(error),
            },
    {
        match self.context(user_id) {
            Ok(context_token) => self.send_text(user_id, text, context_token.as_str()),
            Err(error) => Err(error),
        }
    }

    /// Shows a user that the bot is typing: first the settings of the conversation are
    /// requested, see [`typing_config`], then [`ConfigRequest::typing`] goes on.
    pub fn send_typing(&self, user_id: &str) -> (request: Result<ConfigRequest, WeChatBotError>)
        ensures
            error::outcome(request) == typing_config(self.deep_view(), user_id@),
    {
        match self.context(user_id) {
            Ok(context_token) => match self.get_auth() {
                Ok(auth) => Ok(
                    ConfigRequest { auth, user_id: user_id.to_string(), context_token },
                ),
                Err(error) => Err(error),
            },
            Err(error) => Err(error),
        }
    }

    /// Sends content to a user in a context, see [`sent_content`].
    pub fn send_content(&self, user_id: &str, context_token: &str, content: SendContent) -> (plan:
        Result<Option<SendPlan>, WeChatBotError>)
        ensures
            error::outcome(plan) == sent_content(
                self.deep_view(),
                user_id@,
                context_token@,
                content.deep_view(),
            ),
    {
        match self.get_auth() {
            Ok(auth) => {
                let kind = send::kind_of_content(&content, self.platform);
                if send::can_send_content(&content, kind) {
                    Ok(Some(send::plan_content(auth, user_id, context_token, content, kind)))
                } else {
                    Ok(None)
                }
            },
            Err(error) => Err(error),
        }
    }

    /// Answers a message with content. The context of the message is noted, whether or not the
    /// content can be sent.
    pub fn reply_media(&mut self, msg: &IncomingMessage, content: SendContent) -> (plan: Result<
        Option<SendPlan>,
        WeChatBotError,
    >)
        ensures
            final(self).deep_view() == in_context(
                old(self).deep_view(),
                msg.user_id@,
                msg.context_token@,
            ),
            error::outcome(plan) == sent_content(
                old(self).deep_view(),
                msg.user_id@,
                msg.context_token@,
                content.deep_view(),
            ),
    {
        self.note_context(&msg.user_id, &msg.context_token);
        self.send_content(msg.user_id.as_str(), msg.context_token.as_str(), content)
    }

    /// Sends content to a user in the context that was last noted for them.
    pub fn send_media(&self, user_id: &str, content: SendContent) -> (plan: Result<
        Option<SendPlan>,
        WeChatBotError,
    >)
        ensures
            error::outcome(plan) == match context_of(self.deep_view(), user_id@) {
                Ok(context_token) => sent_content(
                    self.deep_view(),
                    user_id@,
                    context_token,
                    content.deep_view(),
                ),
                Err(error) => Err(error),
            },
    {
        match self.context(user_id) {
            Ok(context_token) => self.send_content(user_id, context_token.as_str(), content),
            Err(error) => Err(error),
        }
    }

    /// Finds what to download of a message, see [`download::download_plan`].
    pub fn download(&self, msg: &IncomingMessage) -> (plan: Option<DownloadPlan>)
        ensures
            plan.deep_view() == download::download_plan(msg.deep_view()),
    {
        download::plan_download(msg)
    }

    /// Begins to upload a file, encrypted as `sealed`, for a user.
    pub fn upload(&self, data: &[u8], user_id: &str, media_type: i32, sealed: Sealed) -> (upload:
        Result<Upload, WeChatBotError>)
        ensures
            match auth_of(self.deep_view()) {
                Ok(auth) => upload is Ok && exists|key: [u8; 16]|
                    upload->Ok_0.deep_view() == (upload::UploadView {
                        auth,
                        params: #[trigger] upload::upload_params(
                            data@,
                            user_id@,
                            media_type as int,
                            key@,
                            sealed.deep_view(),
                        ),
                        sealed: sealed.deep_view(),
                    }),
                Err(error) => upload is Err && upload->Err_0.deep_view() == error,
            },
    {
        match self.get_auth() {
            Ok(auth) => Ok(upload::cdn_upload(auth, data, user_id, media_type, sealed)),
            Err(error) => Err(error),
        }
    }

    /// Takes back that the bot has been told to stop.
    pub(crate) fn resume(&mut self)
        ensures
            final(self).deep_view() == (BotModel { stopped: false, ..old(self).deep_view() }),
    {
        self.stopped = false;
    }

    pub(crate) fn is_stopped(&self) -> (stopped: bool)
        ensures
            stopped == self.deep_view().stopped,
    {
        self.stopped
    }

    pub(crate) fn cursor(&self) -> (cursor: String)
        ensures
            cursor@ == self.deep_view().cursor,
    {
        self.cursor.clone()
    }

    pub(crate) fn set_cursor(&mut self, cursor: String)
        ensures
            final(self).deep_view() == (BotModel { cursor: cursor@, ..old(self).deep_view() }),
    {
        self.cursor = cursor;
    }

    /// Forgets what belongs to a session that has expired.
    pub(crate) fn forget_session(&mut self)
        ensures
            final(self).deep_view() == (BotModel {
                context_tokens: Map::empty(),
                cursor: seq![],
                ..old(self).deep_view()
            }),
    {
        self.context_tokens.clear();
        self.cursor = String::new();
        assert(self.context_tokens@.map_values(|token: String| token@) =~= Map::empty());
    }

    /// Tells the bot to stop.
    pub fn stop(&mut self)
        ensures
            final(self).deep_view() == (BotModel { stopped: true, ..old(self).deep_view() }),
    {
        self.stopped = true;
    }
}

/// A message to a user goes in the context that was last noted for them, and noting the context
/// of one user leaves those of the others as they are.
pub proof fn law_last_context_is_used(
    bot: BotModel,
    user_id: Seq<char>,
    token: Seq<char>,
    other: Seq<char>,
)
    ensures
        context_of(in_context(bot, user_id, token), user_id) == Ok::<
            Seq<char>,
            WeChatBotErrorView,
        >(token),
        other != user_id ==> context_of(in_context(bot, user_id, token), other) == context_of(
            bot,
            other,
        ),
{
}

/// After a message that names a user and a context, the user can be written to in this context;
/// a message that does not changes nothing.
pub proof fn law_messages_open_contexts(bot: BotModel, wire: WireMessageView)
    ensures
        peer_of(wire).len() > 0 && wire.context_token.len() > 0 ==> context_of(
            remembered(bot, wire),
            peer_of(wire),
        ) == Ok::<Seq<char>, WeChatBotErrorView>(wire.context_token),
        peer_of(wire).len() == 0 || wire.context_token.len() == 0 ==> remembered(bot, wire) == bot,
{
}

/// Nothing is sent before a login: every call is answered with the same error.
pub proof fn law_nothing_is_sent_before_login(
    bot: BotModel,
    user_id: Seq<char>,
    context_token: Seq<char>,
    text: Seq<char>,
    content: SendContentView,
)
    requires
        bot.credentials is None,
    ensures
        ({
            let refusal = WeChatBotErrorView::Auth("not logged in"@);
            &&& sent_text(bot, user_id, context_token, text) == Err::<
                TextPlanView,
                WeChatBotErrorView,
            >(refusal)
            &&& sent_content(bot, user_id, context_token, content) == Err::<
                Option<SendPlanView>,
                WeChatBotErrorView,
            >(refusal)
            &&& context_of(bot, user_id) is Ok ==> typing_config(bot, user_id) == Err::<
                ConfigRequestView,
                WeChatBotErrorView,
            >(refusal)
        }),
{
}

/// A user of whom no context is known cannot be written to, logged in or not.
pub proof fn law_unknown_users_are_refused(bot: BotModel, user_id: Seq<char>)
    requires
        !bot.context_tokens.contains_key(user_id),
    ensures
        context_of(bot, user_id) == Err::<Seq<char>, WeChatBotErrorView>(
            WeChatBotErrorView::NoContext(user_id),
        ),
        typing_config(bot, user_id) == Err::<ConfigRequestView, WeChatBotErrorView>(
            WeChatBotErrorView::NoContext(user_id),
        ),
{
}

/// Once a login has ended well, requests go where its credentials say and bear its token, and
/// the next login starts from its base URL; what else the bot remembers is left as it was.
pub proof fn law_login_authorises(bot: BotModel, creds: CredentialsView)
    ensures
        ({
            let after = after_login(bot, LoginActionView::Done(creds));
            &&& auth_of(after) == Ok::<AuthView, WeChatBotErrorView>(
                AuthView { base_url: creds.base_url, token: creds.token },
            )
            &&& after.base_url == creds.base_url
            &&& after.context_tokens == bot.context_tokens
            &&& after.cursor == bot.cursor
            &&& after.cred_path == bot.cred_path
            &&& after.platform == bot.platform
            &&& after.stopped == bot.stopped
        }),
{
}

/// A new bot is not logged in, knows no contexts, has read no updates and has not been told to
/// stop; the rest is as the options say, the base URL by default as given.
pub proof fn law_new_bot(opts: BotOptions, default_base_url: Seq<char>, platform: Platform)
    ensures
        ({
            let bot = new_bot(opts, default_base_url, platform);
            &&& bot.credentials is None
            &&& forall|user_id: Seq<char>| !#[trigger] bot.context_tokens.contains_key(user_id)
            &&& bot.cursor.len() == 0
            &&& !bot.stopped
            &&& opts.base_url is Some ==> bot.base_url == opts.base_url->0@
            &&& opts.base_url is None ==> bot.base_url == default_base_url
            &&& bot.cred_path == opts.cred_path.deep_view()
            &&& bot.bot_agent == opts.bot_agent.deep_view()
            &&& bot.platform == platform
        }),
{
}

/// What a bot remembers beside contexts is the same.
pub open spec fn same_but_contexts(bot: BotModel, after: BotModel) -> bool {
    &&& after.credentials == bot.credentials
    &&& after.cursor == bot.cursor
    &&& after.base_url == bot.base_url
    &&& after.cred_path == bot.cred_path
    &&& after.bot_agent == bot.bot_agent
    &&& after.platform == bot.platform
    &&& after.stopped == bot.stopped
}

/// The context that a bot has of a user is the same.
pub open spec fn same_context(bot: BotModel, after: BotModel, user_id: Seq<char>) -> bool {
    &&& after.context_tokens.contains_key(user_id) == bot.context_tokens.contains_key(user_id)
    &&& bot.context_tokens.contains_key(user_id) ==> after.context_tokens[user_id]
        == bot.context_tokens[user_id]
}

/// Answering a message notes its context for the user who wrote it, and nothing else.
pub proof fn law_answers_note_the_context(
    bot: BotModel,
    user_id: Seq<char>,
    token: Seq<char>,
    other: Seq<char>,
)
    ensures
        ({
            let after = in_context(bot, user_id, token);
            &&& after.context_tokens.contains_key(user_id)
            &&& after.context_tokens[user_id] == token
            &&& other != user_id ==> same_context(bot, after, other)
            &&& same_but_contexts(bot, after)
        }),
{
}

/// A message of a user notes its context for the one who wrote it, another message for the one
/// to whom it went. The contexts of all others stay as they are, and so does everything if the
/// message names no user or no context.
pub proof fn law_messages_note_their_context(
    bot: BotModel,
    wire: WireMessageView,
    other: Seq<char>,
)
    ensures
        ({
            let after = remembered(bot, wire);
            let peer = match wire.message_type {
                MessageType::User => wire.from_user_id,
                MessageType::Other => wire.to_user_id,
            };
            let noted = peer.len() > 0 && wire.context_token.len() > 0;
            &&& noted ==> after.context_tokens.contains_key(peer)
            &&& noted ==> after.context_tokens[peer] == wire.context_token
            &&& !noted || other != peer ==> same_context(bot, after, other)
            &&& !noted || other != peer ==> context_of(after, other) == context_of(bot, other)
            &&& same_but_contexts(bot, after)
        }),
{
}

/// The context in which a user is written to is the one noted for them; without one, the error
/// names the user.
pub proof fn law_contexts_are_looked_up(bot: BotModel, user_id: Seq<char>)
    ensures
        bot.context_tokens.contains_key(user_id) ==> context_of(bot, user_id) == Ok::<
            Seq<char>,
            WeChatBotErrorView,
        >(bot.context_tokens[user_id]),
        !bot.context_tokens.contains_key(user_id) ==> context_of(bot, user_id) == Err::<
            Seq<char>,
            WeChatBotErrorView,
        >(WeChatBotErrorView::NoContext(user_id)),
{
}

/// Requests go where the credentials say and bear their token, and there are none without
/// credentials.
pub proof fn law_requests_are_authorised(bot: BotModel)
    ensures
        bot.credentials is Some ==> auth_of(bot) is Ok && auth_of(bot)->Ok_0.base_url
            == bot.credentials->0.base_url && auth_of(bot)->Ok_0.token
            == bot.credentials->0.token,
        bot.credentials is None ==> auth_of(bot) == Err::<AuthView, WeChatBotErrorView>(
            WeChatBotErrorView::Auth("not logged in"@),
        ),
{
}

/// Only the end of a login changes the bot, and only its credentials and its base URL.
pub proof fn law_login_changes_the_bot_at_its_end(bot: BotModel, action: LoginActionView)
    ensures
        ({
            let after = after_login(bot, action);
            &&& action is Done ==> after.credentials == Some(action->Done_0)
            &&& action is Done ==> after.base_url == action->Done_0.base_url
            &&& !(action is Done) ==> after == bot
            &&& after.context_tokens == bot.context_tokens
            &&& after.cursor == bot.cursor
            &&& after.cred_path == bot.cred_path
            &&& after.bot_agent == bot.bot_agent
            &&& after.platform == bot.platform
            &&& after.stopped == bot.stopped
        }),
{
}

/// After a login that the service has confirmed and whose credentials are saved, requests bear
/// the token that the service has sent, whatever was stored or in use before.
pub proof fn law_confirmed_token_is_used(
    bot: BotModel,
    m: login::LoginModel,
    status: login::QrStatusView,
    now: Seq<char>,
    token: Seq<char>,
)
    requires
        status.status == "confirmed"@,
        status.bot_token == Some(token),
    ensures
        ({
            let (saving, save) = login::login_next(
                m,
                login::LoginEventView::Status { status, now },
            );
            let done = login::login_next(saving, login::LoginEventView::Saved).1;
            let after = after_login(after_login(bot, save), done);
            &&& auth_of(after) is Ok
            &&& auth_of(after)->Ok_0.token == token
            &&& status.baseurl is Some ==> auth_of(after)->Ok_0.base_url == status.baseurl->0
            &&& status.baseurl is None ==> auth_of(after)->Ok_0.base_url == m.base_url
        }),
{
    login::law_confirmed_login_yields_new_credentials(m, status, now, token);
}

/// A text goes to the user in the given context, authorised by the credentials, in messages that
/// say it chunk by chunk.
pub proof fn law_text_is_sent(
    bot: BotModel,
    user_id: Seq<char>,
    context_token: Seq<char>,
    text: Seq<char>,
    creds: CredentialsView,
)
    requires
        bot.credentials == Some(creds),
    ensures
        ({
            let plan = sent_text(bot, user_id, context_token, text);
            &&& plan is Ok
            &&& plan->Ok_0.auth.base_url == creds.base_url
            &&& plan->Ok_0.auth.token == creds.token
            &&& send::say(plan->Ok_0.messages, user_id, context_token, text)
        }),
{
    send::law_messages_are_the_chunks(user_id, context_token, text);
}

/// Content is sent if and only if the texts in it can be split. A text goes out in messages. An
/// image or a video, and a file that is one by its name on the bot's platform, is uploaded as
/// such with its caption, and no text goes ahead. Another file is uploaded as a file under its
/// name, and its caption goes ahead as a text.
pub proof fn law_content_is_sent(
    bot: BotModel,
    user_id: Seq<char>,
    context_token: Seq<char>,
    content: SendContentView,
    creds: CredentialsView,
)
    requires
        bot.credentials == Some(creds),
    ensures
        ({
            let sent = sent_content(bot, user_id, context_token, content);
            let plan = sent->Ok_0->0;
            let media = plan.media->0;
            let addressed = {
                &&& plan.media is Some
                &&& media.user_id == user_id
                &&& media.context_token == context_token
            };
            &&& sent is Ok
            &&& sent->Ok_0 is Some ==> plan.auth.base_url == creds.base_url && plan.auth.token
                == creds.token
            &&& match content {
                SendContentView::Text(text) => {
                    &&& sent->Ok_0 is Some <==> send::can_send_text(text)
                    &&& sent->Ok_0 is Some ==> plan.media is None && send::say(
                        plan.texts,
                        user_id,
                        context_token,
                        text,
                    )
                },
                SendContentView::Image { data, caption } => {
                    &&& sent->Ok_0 is Some
                    &&& addressed
                    &&& plan.texts.len() == 0
                    &&& media.data == data
                    &&& media.media_type == 1
                    &&& media.kind == send::MediaKindView::Image { caption }
                },
                SendContentView::Video { data, caption } => {
                    &&& sent->Ok_0 is Some
                    &&& addressed
                    &&& plan.texts.len() == 0
                    &&& media.data == data
                    &&& media.media_type == 2
                    &&& media.kind == send::MediaKindView::Video { caption }
                },
                SendContentView::File { data, file_name, caption } => {
                    let kind = files::file_kind(file_name, bot.platform);
                    &&& sent->Ok_0 is Some <==> kind != files::FileKind::File || caption is None
                        || send::can_send_text(caption->0)
                    &&& sent->Ok_0 is Some ==> {
                        &&& addressed
                        &&& media.data == data
                        &&& kind == files::FileKind::Image ==> {
                            &&& plan.texts.len() == 0
                            &&& media.media_type == 1
                            &&& media.kind == send::MediaKindView::Image { caption }
                        }
                        &&& kind == files::FileKind::Video ==> {
                            &&& plan.texts.len() == 0
                            &&& media.media_type == 2
                            &&& media.kind == send::MediaKindView::Video { caption }
                        }
                        &&& kind == files::FileKind::File ==> {
                            &&& caption is None ==> plan.texts.len() == 0
                            &&& caption is Some ==> send::say(
                                plan.texts,
                                user_id,
                                context_token,
                                caption->0,
                            )
                            &&& media.media_type == 3
                            &&& media.kind == send::MediaKindView::File { file_name }
                        }
                    }
                },
            }
        }),
{
    match content {
        SendContentView::Text(text) => {
            send::law_messages_are_the_chunks(user_id, context_token, text);
        },
        SendContentView::File { caption: Some(caption), .. } => {
            send::law_messages_are_the_chunks(user_id, context_token, caption);
        },
        _ => {},
    }
}

/// Before the bot is shown as typing, the settings are requested for the user in the context
/// noted for them; an unknown user is refused first, then a bot that is not logged in.
pub proof fn law_typing_asks_for_the_settings(bot: BotModel, user_id: Seq<char>)
    ensures
        !bot.context_tokens.contains_key(user_id) ==> typing_config(bot, user_id) == Err::<
            ConfigRequestView,
            WeChatBotErrorView,
        >(WeChatBotErrorView::NoContext(user_id)),
        bot.context_tokens.contains_key(user_id) && bot.credentials is None ==> typing_config(
            bot,
            user_id,
        ) == Err::<ConfigRequestView, WeChatBotErrorView>(
            WeChatBotErrorView::Auth("not logged in"@),
        ),
        bot.context_tokens.contains_key(user_id) && bot.credentials is Some ==> {
            let request = typing_config(bot, user_id);
            &&& request is Ok
            &&& request->Ok_0.auth.base_url == bot.credentials->0.base_url
            &&& request->Ok_0.auth.token == bot.credentials->0.token
            &&& request->Ok_0.user_id == user_id
            &&& request->Ok_0.context_token == bot.context_tokens[user_id]
        },
{
}

} // verus!
