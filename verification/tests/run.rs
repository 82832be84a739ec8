use wechatbot::bot::{BotOptions, WeChatBot};
use wechatbot::error::WeChatBotError;
use wechatbot::run::{RunAction, RunEvent, RunLoop};
use wechatbot::types::{Auth, Credentials, MessageType, WireMessage};

fn auth() -> Auth {
    Auth { base_url: "https://b.example".to_string(), token: "tok".to_string() }
}

fn logged_in() -> WeChatBot {
    let mut bot = WeChatBot::new(BotOptions::default(), "https://default.example");
    let creds = Credentials {
        token: "tok".to_string(),
        base_url: "https://b.example".to_string(),
        account_id: String::new(),
        user_id: String::new(),
        saved_at: None,
    };
    bot.login(false, Some(creds));
    bot
}

fn running() -> (WeChatBot, RunLoop) {
    let mut bot = logged_in();
    let (run, action) = bot.run();
    assert_eq!(action, RunAction::NotifyStart(auth()));
    (bot, run)
}

fn get(cursor: &str) -> RunAction {
    RunAction::GetUpdates { auth: auth(), cursor: cursor.to_string() }
}

fn from(user: &str, token: &str) -> WireMessage {
    WireMessage {
        from_user_id: user.to_string(),
        to_user_id: "bot".to_string(),
        message_type: MessageType::User,
        context_token: token.to_string(),
    }
}

fn updates(cursor: &str, msgs: Vec<WireMessage>) -> RunEvent {
    RunEvent::Updates { get_updates_buf: cursor.to_string(), msgs }
}

#[test]
fn loop_asks_for_updates() {
    let (mut bot, mut run) = running();
    assert_eq!(bot.run_step(&mut run, RunEvent::StartNotified), get(""));
    assert_eq!(bot.run_step(&mut run, updates("c1", vec![])), get("c1"));
    assert_eq!(bot.run_step(&mut run, updates("", vec![])), get("c1"));
}

#[test]
fn loop_needs_a_login() {
    let mut bot = WeChatBot::new(BotOptions::default(), "https://default.example");
    let (mut run, action) = bot.run();
    let refusal = RunAction::Fail(WeChatBotError::Auth("not logged in".to_string()));
    assert_eq!(action, refusal);
    assert_eq!(bot.run_step(&mut run, RunEvent::StartNotified), refusal);
    bot.stop();
    assert_eq!(bot.run_step(&mut run, RunEvent::StartNotified), RunAction::Stopped);
}

#[test]
fn messages_are_handed_out_in_order() {
    let (mut bot, mut run) = running();
    let batch = vec![from("alice", "a1"), from("bob", "b1"), from("alice", "a2")];
    assert_eq!(bot.run_step(&mut run, updates("c", batch)), RunAction::Deliver { index: 0 });
    assert_eq!(bot.send_typing("alice").unwrap().context_token, "a1");
    assert_eq!(
        bot.send_typing("bob").err(),
        Some(WeChatBotError::NoContext("bob".to_string()))
    );
    assert_eq!(bot.run_step(&mut run, RunEvent::Delivered), RunAction::Deliver { index: 1 });
    assert_eq!(bot.send_typing("bob").unwrap().context_token, "b1");
    assert_eq!(bot.run_step(&mut run, RunEvent::Delivered), RunAction::Deliver { index: 2 });
    assert_eq!(bot.send_typing("alice").unwrap().context_token, "a2");
    assert_eq!(bot.run_step(&mut run, RunEvent::Delivered), get("c"));
}

#[test]
fn failures_wait_longer_and_longer() {
    let (mut bot, mut run) = running();
    for seconds in [1, 2, 4, 8, 10, 10, 10] {
        assert_eq!(bot.run_step(&mut run, RunEvent::Failed), RunAction::Sleep { seconds });
        assert_eq!(bot.run_step(&mut run, RunEvent::Slept), get(""));
    }
    bot.run_step(&mut run, updates("", vec![]));
    assert_eq!(bot.run_step(&mut run, RunEvent::Failed), RunAction::Sleep { seconds: 1 });
}

#[test]
fn expired_session_logs_in_again() {
    let (mut bot, mut run) = running();
    bot.run_step(&mut run, updates("c", vec![from("alice", "a1")]));
    assert_eq!(bot.run_step(&mut run, RunEvent::SessionExpired), RunAction::Relogin);
    assert!(bot.send_typing("alice").is_err());
    assert_eq!(bot.run_step(&mut run, RunEvent::LoginEnded), get(""));
}

#[test]
fn stopped_loop_says_goodbye() {
    let (mut bot, mut run) = running();
    bot.stop();
    let action = bot.run_step(&mut run, updates("c", vec![from("alice", "a1")]));
    assert_eq!(action, RunAction::Deliver { index: 0 });
    assert_eq!(bot.run_step(&mut run, RunEvent::Delivered), RunAction::NotifyStop(auth()));
    assert_eq!(bot.run_step(&mut run, RunEvent::StopNotified), RunAction::Stopped);
}

#[test]
fn a_new_loop_takes_the_stop_back() {
    let (mut bot, _run) = running();
    bot.stop();
    let (mut run, action) = bot.run();
    assert_eq!(action, RunAction::NotifyStart(auth()));
    assert_eq!(bot.run_step(&mut run, RunEvent::StartNotified), get(""));
}
