use wechatbot::bot::{BotOptions, WeChatBot};
use wechatbot::error::WeChatBotError;
use wechatbot::login::{
    entered_code, kind_of_status, verify_code_prompt, LoginAction, LoginEvent, LoginFlow, QrStatus,
    StatusKind,
};
use wechatbot::types::{Auth, Credentials};

const QR_HOST: &str = "https://ilinkai.weixin.qq.com";

fn bot() -> WeChatBot {
    WeChatBot::new(BotOptions::default(), "https://default.example")
}

fn status(text: &str) -> QrStatus {
    QrStatus {
        status: text.to_string(),
        bot_token: None,
        baseurl: None,
        ilink_bot_id: None,
        ilink_user_id: None,
        redirect_host: None,
    }
}

fn polled(text: &str) -> LoginEvent {
    LoginEvent::Status { status: status(text), now: "5Z".to_string() }
}

fn issued(qrcode: &str) -> LoginEvent {
    LoginEvent::QrIssued { qrcode: qrcode.to_string() }
}

fn stored(token: &str) -> Credentials {
    Credentials {
        token: token.to_string(),
        base_url: "https://stored.example".to_string(),
        account_id: "acc".to_string(),
        user_id: "me".to_string(),
        saved_at: None,
    }
}

fn request(tokens: &[&str]) -> LoginAction {
    LoginAction::RequestQr {
        base_url: QR_HOST.to_string(),
        local_token_list: tokens.iter().map(|t| t.to_string()).collect(),
    }
}

fn poll(host: &str, qrcode: &str, code: Option<&str>) -> LoginAction {
    LoginAction::Poll {
        base_url: host.to_string(),
        qrcode: qrcode.to_string(),
        verify_code: code.map(|c| c.to_string()),
    }
}

fn auth_error(text: &str) -> LoginAction {
    LoginAction::Fail(WeChatBotError::Auth(text.to_string()))
}

fn begun(force: bool, creds: Option<Credentials>) -> (WeChatBot, LoginFlow, LoginAction) {
    let mut bot = bot();
    let (flow, action) = bot.login(force, creds);
    (bot, flow, action)
}

#[test]
fn stored_credentials_are_used() {
    let (bot, _flow, action) = begun(false, Some(stored("tok")));
    assert_eq!(action, LoginAction::Done(stored("tok")));
    assert_eq!(
        bot.get_auth(),
        Ok(Auth { base_url: "https://stored.example".to_string(), token: "tok".to_string() })
    );
}

#[test]
fn forced_login_names_the_stored_token() {
    let (bot, _flow, action) = begun(true, Some(stored("tok")));
    assert_eq!(action, request(&["tok"]));
    assert_eq!(bot.get_auth(), Err(WeChatBotError::Auth("not logged in".to_string())));
    assert_eq!(begun(true, Some(stored(""))).2, request(&[]));
    assert_eq!(begun(true, None).2, request(&[]));
    assert_eq!(begun(false, None).2, request(&[]));
}

#[test]
fn confirmed_login() {
    let (mut bot, mut flow, _) = begun(false, None);
    let action = bot.login_step(&mut flow, issued("q1"));
    assert_eq!(action, poll(QR_HOST, "q1", None));
    assert_eq!(bot.login_step(&mut flow, polled("wait")), LoginAction::Sleep { seconds: 2 });
    assert_eq!(bot.login_step(&mut flow, LoginEvent::Slept), poll(QR_HOST, "q1", None));
    assert_eq!(bot.login_step(&mut flow, polled("scaned")), LoginAction::Sleep { seconds: 2 });
    let mut confirmed = status("confirmed");
    confirmed.bot_token = Some("new".to_string());
    confirmed.baseurl = Some("https://new.example".to_string());
    confirmed.ilink_bot_id = Some("bot".to_string());
    confirmed.ilink_user_id = Some("user".to_string());
    let event = LoginEvent::Status { status: confirmed, now: "5Z".to_string() };
    let creds = Credentials {
        token: "new".to_string(),
        base_url: "https://new.example".to_string(),
        account_id: "bot".to_string(),
        user_id: "user".to_string(),
        saved_at: Some("5Z".to_string()),
    };
    assert_eq!(bot.login_step(&mut flow, event), LoginAction::Save(creds.clone()));
    assert!(bot.get_auth().is_err());
    assert_eq!(bot.login_step(&mut flow, LoginEvent::Saved), LoginAction::Done(creds));
    assert_eq!(
        bot.get_auth(),
        Ok(Auth { base_url: "https://new.example".to_string(), token: "new".to_string() })
    );
}

#[test]
fn confirmed_login_with_little_in_it() {
    let (mut bot, mut flow, _) = begun(true, None);
    bot.login_step(&mut flow, issued("q1"));
    let mut confirmed = status("confirmed");
    confirmed.bot_token = Some("new".to_string());
    let event = LoginEvent::Status { status: confirmed, now: "5Z".to_string() };
    assert_eq!(
        bot.login_step(&mut flow, event),
        LoginAction::Save(Credentials {
            token: "new".to_string(),
            base_url: "https://default.example".to_string(),
            account_id: String::new(),
            user_id: String::new(),
            saved_at: Some("5Z".to_string()),
        })
    );
    assert_eq!(bot.login_step(&mut flow, polled("confirmed")), auth_error("missing bot_token"));
}

#[test]
fn confirmed_login_is_dated() {
    let (mut bot, mut flow, _) = begun(true, None);
    bot.login_step(&mut flow, issued("q1"));
    let mut confirmed = status("confirmed");
    confirmed.bot_token = Some("new".to_string());
    match bot.login_status(&mut flow, confirmed) {
        Some(LoginAction::Save(creds)) => {
            let seconds: u64 =
                creds.saved_at.unwrap().strip_suffix('Z').unwrap().parse().unwrap();
            assert!(seconds > 1_000_000_000);
        }
        other => panic!("{:?}", other),
    }
    assert_eq!(
        bot.login_status(&mut flow, status("wait")),
        Some(LoginAction::Sleep { seconds: 2 })
    );
}

#[test]
fn pairing_codes() {
    let (mut bot, mut flow, _) = begun(true, None);
    bot.login_step(&mut flow, issued("q1"));
    assert_eq!(
        bot.login_step(&mut flow, polled("need_verifycode")),
        LoginAction::AskVerifyCode { is_retry: false }
    );
    let action = bot.login_step(&mut flow, LoginEvent::VerifyCode("12".to_string()));
    assert_eq!(action, poll(QR_HOST, "q1", Some("12")));
    assert_eq!(
        bot.login_step(&mut flow, polled("need_verifycode")),
        LoginAction::AskVerifyCode { is_retry: true }
    );
    let action = bot.login_step(&mut flow, LoginEvent::VerifyCode("34".to_string()));
    assert_eq!(action, poll(QR_HOST, "q1", Some("34")));
    // The code was right: it is not sent any more.
    assert_eq!(bot.login_step(&mut flow, polled("scaned")), LoginAction::Sleep { seconds: 2 });
    assert_eq!(bot.login_step(&mut flow, LoginEvent::Slept), poll(QR_HOST, "q1", None));
}

#[test]
fn pairing_code_survives_a_repeated_scaned() {
    let (mut bot, mut flow, _) = begun(true, None);
    bot.login_step(&mut flow, issued("q1"));
    bot.login_step(&mut flow, polled("scaned"));
    bot.login_step(&mut flow, LoginEvent::VerifyCode("12".to_string()));
    bot.login_step(&mut flow, polled("scaned"));
    assert_eq!(bot.login_step(&mut flow, LoginEvent::Slept), poll(QR_HOST, "q1", Some("12")));
}

#[test]
fn login_gives_up_after_three_codes() {
    let (mut bot, mut flow, _) = begun(true, None);
    bot.login_step(&mut flow, issued("q1"));
    assert_eq!(bot.login_step(&mut flow, polled("expired")), request(&[]));
    assert_eq!(bot.login_step(&mut flow, issued("q2")), poll(QR_HOST, "q2", None));
    assert_eq!(bot.login_step(&mut flow, polled("verify_code_blocked")), request(&[]));
    bot.login_step(&mut flow, issued("q3"));
    assert_eq!(
        bot.login_step(&mut flow, polled("expired")),
        auth_error("QR code expired 3 times — login aborted")
    );
}

#[test]
fn a_new_qr_code_starts_afresh() {
    let (mut bot, mut flow, _) = begun(true, None);
    bot.login_step(&mut flow, issued("q1"));
    bot.login_step(&mut flow, LoginEvent::VerifyCode("12".to_string()));
    let mut redirect = status("scaned_but_redirect");
    redirect.redirect_host = Some("other.example".to_string());
    bot.login_step(&mut flow, LoginEvent::Status { status: redirect, now: String::new() });
    bot.login_step(&mut flow, polled("expired"));
    assert_eq!(bot.login_step(&mut flow, issued("q2")), poll(QR_HOST, "q2", None));
}

#[test]
fn bound_bots() {
    let (mut bot, mut flow, _) = begun(true, Some(stored("tok")));
    bot.login_step(&mut flow, issued("q1"));
    assert_eq!(
        bot.login_step(&mut flow, polled("binded_redirect")),
        LoginAction::Done(stored("tok"))
    );
    assert!(bot.get_auth().is_ok());
    let (mut bot, mut flow, _) = begun(true, None);
    bot.login_step(&mut flow, issued("q1"));
    assert_eq!(
        bot.login_step(&mut flow, polled("binded_redirect")),
        auth_error(
            "server reports this bot is already bound to this client \
             (binded_redirect), but no local credentials were found"
        )
    );
}

#[test]
fn redirected_polls() {
    let (mut bot, mut flow, _) = begun(true, None);
    bot.login_step(&mut flow, issued("q1"));
    let mut redirect = status("scaned_but_redirect");
    redirect.redirect_host = Some("other.example".to_string());
    let event = LoginEvent::Status { status: redirect, now: String::new() };
    assert_eq!(bot.login_step(&mut flow, event), LoginAction::Sleep { seconds: 2 });
    let action = bot.login_step(&mut flow, LoginEvent::Slept);
    assert_eq!(action, poll("https://other.example", "q1", None));
    // A redirect without a host changes nothing.
    bot.login_step(&mut flow, polled("scaned_but_redirect"));
    let action = bot.login_step(&mut flow, LoginEvent::Slept);
    assert_eq!(action, poll("https://other.example", "q1", None));
}

#[test]
fn nothing_saved_means_polling_on() {
    let (mut bot, mut flow, _) = begun(true, None);
    bot.login_step(&mut flow, issued("q1"));
    assert_eq!(bot.login_step(&mut flow, LoginEvent::Saved), poll(QR_HOST, "q1", None));
}

#[test]
fn status_texts() {
    assert_eq!(kind_of_status("scaned"), StatusKind::Scaned);
    assert_eq!(kind_of_status("expired"), StatusKind::Expired);
    assert_eq!(kind_of_status("confirmed"), StatusKind::Confirmed);
    assert_eq!(kind_of_status("need_verifycode"), StatusKind::NeedVerifyCode);
    assert_eq!(kind_of_status("verify_code_blocked"), StatusKind::VerifyCodeBlocked);
    assert_eq!(kind_of_status("binded_redirect"), StatusKind::BindedRedirect);
    assert_eq!(kind_of_status("scaned_but_redirect"), StatusKind::ScanedButRedirect);
    assert_eq!(kind_of_status("wait"), StatusKind::Waiting);
    assert_eq!(kind_of_status(""), StatusKind::Waiting);
    assert_eq!(kind_of_status("Confirmed"), StatusKind::Waiting);
}

#[test]
fn prompts_and_codes() {
    assert_eq!(
        verify_code_prompt(false),
        "Enter the pairing code shown in WeChat on your phone: "
    );
    assert_eq!(
        verify_code_prompt(true),
        "Code mismatch — enter the pairing code shown in WeChat again: "
    );
    assert_eq!(entered_code(" 123456\r\n"), "123456");
}
