use wechatbot::bot::{BotOptions, ConfigRequest, TypingRequest, WeChatBot};
use wechatbot::error::WeChatBotError;
use wechatbot::items::{file_item, image_item, text_item, video_item};
use wechatbot::paths::Platform;
use wechatbot::send::{MediaKind, MediaPlan, SendPlan, TextMessage, TextPlan};
use wechatbot::types::{
    Auth, CDNMedia, Credentials, FileContent, ImageContent, IncomingMessage, MessageType,
    SendContent, VideoContent, VoiceContent, WireMessage,
};
use wechatbot::upload::{
    cdn_upload, upload_with_key, GetUploadUrlParams, Sealed, UploadResult, UploadTarget,
    UploadUrlReply,
};

fn auth() -> Auth {
    Auth { base_url: "https://b.example".to_string(), token: "tok".to_string() }
}

fn new_bot() -> WeChatBot {
    WeChatBot::new(BotOptions::default(), "https://default.example")
}

fn logged_in() -> WeChatBot {
    let mut bot = new_bot();
    let creds = Credentials {
        token: "tok".to_string(),
        base_url: "https://b.example".to_string(),
        account_id: String::new(),
        user_id: String::new(),
        saved_at: None,
    };
    bot.login(false, Some(creds));
    bot
}

fn message(user: &str, token: &str) -> IncomingMessage {
    IncomingMessage {
        user_id: user.to_string(),
        text: String::new(),
        context_token: token.to_string(),
        images: vec![],
        files: vec![],
        videos: vec![],
        voices: vec![],
    }
}

fn text_to(user: &str, token: &str, text: &str) -> TextMessage {
    TextMessage {
        user_id: user.to_string(),
        context_token: token.to_string(),
        text: text.to_string(),
    }
}

fn no_context<T>(user: &str) -> Result<T, WeChatBotError> {
    Err(WeChatBotError::NoContext(user.to_string()))
}

fn not_logged_in<T>() -> Result<T, WeChatBotError> {
    Err(WeChatBotError::Auth("not logged in".to_string()))
}

fn media(param: &str) -> CDNMedia {
    CDNMedia {
        encrypt_query_param: param.to_string(),
        aes_key: "key".to_string(),
        encrypt_type: None,
        full_url: None,
    }
}

fn sealed() -> Sealed {
    Sealed {
        aes_key: vec![1, 2],
        aes_key_hex: "0102".to_string(),
        aes_key_base64: "AQI=".to_string(),
        ciphertext: vec![9; 32],
    }
}

#[test]
fn default_options() {
    let opts = BotOptions::default();
    assert_eq!(opts, BotOptions { base_url: None, cred_path: None, bot_agent: None });
}

#[test]
fn names_are_read_as_on_the_platform() {
    let file = || SendContent::File {
        data: vec![1],
        file_name: "dir\\.png".to_string(),
        caption: None,
    };
    for (platform, media_type) in [(Platform::Unix, 1), (Platform::Windows, 3)] {
        let mut bot = WeChatBot::on_platform(BotOptions::default(), "https://d.example", platform);
        let creds = Credentials {
            token: "tok".to_string(),
            base_url: "https://b.example".to_string(),
            account_id: String::new(),
            user_id: String::new(),
            saved_at: None,
        };
        bot.login(false, Some(creds));
        let plan = bot.send_content("u", "c", file()).unwrap().unwrap();
        assert_eq!(plan.media.unwrap().media_type, media_type);
        let end = match platform {
            Platform::Unix => ".wechatbot/credentials.json",
            Platform::Windows => ".wechatbot\\credentials.json",
        };
        assert!(bot.credentials_path().ends_with(end));
    }
}

#[test]
fn options_are_taken_over() {
    let opts = BotOptions {
        base_url: None,
        cred_path: Some("/tmp/creds.json".to_string()),
        bot_agent: Some("MyApp/1.2 (prod)".to_string()),
    };
    let bot = WeChatBot::new(opts, "https://default.example");
    assert_eq!(bot.credentials_path(), "/tmp/creds.json");
    assert_eq!(bot.bot_agent(), Some("MyApp/1.2 (prod)".to_string()));
    assert_eq!(new_bot().bot_agent(), None);
    assert!(new_bot().credentials_path().ends_with("credentials.json"));
}

#[test]
fn replies_open_a_context() {
    let mut bot = logged_in();
    assert_eq!(bot.send("alice", "hi"), no_context("alice"));
    let plan = bot.reply(&message("alice", "ctx"), "hello");
    let expected = TextPlan { auth: auth(), messages: vec![text_to("alice", "ctx", "hello")] };
    assert_eq!(plan, Ok(expected));
    let plan = bot.send("alice", "hi");
    let expected = TextPlan { auth: auth(), messages: vec![text_to("alice", "ctx", "hi")] };
    assert_eq!(plan, Ok(expected));
    assert_eq!(bot.send("bob", "hi"), no_context("bob"));
}

#[test]
fn replies_open_a_context_even_when_refused() {
    let mut bot = new_bot();
    assert_eq!(bot.send("alice", "hi"), no_context("alice"));
    assert_eq!(bot.reply(&message("alice", "ctx"), "hello"), not_logged_in());
    assert_eq!(bot.send("alice", "hi"), not_logged_in());
    assert_eq!(bot.send_typing("alice"), not_logged_in());
    let content = SendContent::Text("hi".to_string());
    assert_eq!(bot.send_media("alice", content.clone()), not_logged_in());
    assert_eq!(bot.reply_media(&message("bob", "ctx"), content), not_logged_in());
    assert_eq!(bot.send("bob", "hi"), not_logged_in());
}

#[test]
fn long_texts_are_split() {
    let bot = logged_in();
    let text = "x".repeat(3999) + "\n" + &"y".repeat(10);
    let plan = bot.send_text("alice", &text, "ctx").unwrap();
    assert_eq!(
        plan.messages,
        vec![
            text_to("alice", "ctx", &("x".repeat(3999) + "\n")),
            text_to("alice", "ctx", &"y".repeat(10)),
        ]
    );
}

#[test]
fn empty_texts_are_one_message() {
    let plan = logged_in().send_text("alice", "", "ctx").unwrap();
    assert_eq!(plan.messages, vec![text_to("alice", "ctx", "")]);
}

#[test]
fn contexts_of_messages() {
    let mut wire = WireMessage {
        from_user_id: "alice".to_string(),
        to_user_id: "bob".to_string(),
        message_type: MessageType::User,
        context_token: "ctx".to_string(),
    };
    let mut bot = logged_in();
    bot.remember_context(&wire);
    assert_eq!(bot.send("alice", "hi").unwrap().messages[0].context_token, "ctx");
    assert_eq!(bot.send("bob", "hi"), no_context("bob"));
    wire.message_type = MessageType::Other;
    wire.context_token = "other".to_string();
    bot.remember_context(&wire);
    assert_eq!(bot.send("bob", "hi").unwrap().messages[0].context_token, "other");
    assert_eq!(bot.send("alice", "hi").unwrap().messages[0].context_token, "ctx");
    wire.context_token = String::new();
    bot.remember_context(&wire);
    assert_eq!(bot.send("bob", "hi").unwrap().messages[0].context_token, "other");
    wire.context_token = "third".to_string();
    wire.to_user_id = String::new();
    bot.remember_context(&wire);
    assert_eq!(bot.send("", "hi"), no_context(""));
}

#[test]
fn typing() {
    let mut bot = logged_in();
    assert_eq!(bot.send_typing("alice"), no_context("alice"));
    bot.reply(&message("alice", "ctx"), "x").unwrap();
    let request = bot.send_typing("alice").unwrap();
    assert_eq!(
        request,
        ConfigRequest {
            auth: auth(),
            user_id: "alice".to_string(),
            context_token: "ctx".to_string()
        }
    );
    assert_eq!(
        request.typing(Some("ticket".to_string())),
        Some(TypingRequest {
            auth: auth(),
            user_id: "alice".to_string(),
            ticket: "ticket".to_string(),
            status: 1
        })
    );
    assert_eq!(bot.send_typing("alice").unwrap().typing(None), None);
}

fn plan_of(content: SendContent) -> SendPlan {
    logged_in().send_content("alice", "ctx", content).unwrap().unwrap()
}

fn media_plan(media_type: i32, kind: MediaKind) -> Option<MediaPlan> {
    Some(MediaPlan {
        user_id: "alice".to_string(),
        context_token: "ctx".to_string(),
        data: vec![1, 2, 3],
        media_type,
        kind,
    })
}

#[test]
fn text_content() {
    let plan = plan_of(SendContent::Text("hi".to_string()));
    assert_eq!(plan.texts, vec![text_to("alice", "ctx", "hi")]);
    assert_eq!(plan.media, None);
    assert_eq!(plan.auth, auth());
}

#[test]
fn image_and_video_content() {
    let caption = Some("look".to_string());
    let data = vec![1, 2, 3];
    let image = SendContent::Image { data: data.clone(), caption: caption.clone() };
    let video = SendContent::Video { data: data.clone(), caption: caption.clone() };
    let image_plan = plan_of(image);
    let video_plan = plan_of(video);
    assert_eq!(image_plan.texts, vec![]);
    assert_eq!(image_plan.media, media_plan(1, MediaKind::Image { caption: caption.clone() }));
    assert_eq!(video_plan.texts, vec![]);
    assert_eq!(video_plan.media, media_plan(2, MediaKind::Video { caption: caption.clone() }));
    // A file with the name of an image or a video is sent as one.
    let file_name = "photo.JPG".to_string();
    let file = SendContent::File { data: data.clone(), file_name, caption: caption.clone() };
    assert_eq!(plan_of(file), image_plan);
    let file_name = "clip.mp4".to_string();
    let file = SendContent::File { data, file_name, caption };
    assert_eq!(plan_of(file), video_plan);
}

#[test]
fn file_content() {
    let content = SendContent::File {
        data: vec![1, 2, 3],
        file_name: "report.pdf".to_string(),
        caption: Some("read this".to_string()),
    };
    let plan = plan_of(content);
    assert_eq!(plan.texts, vec![text_to("alice", "ctx", "read this")]);
    let kind = MediaKind::File { file_name: "report.pdf".to_string() };
    assert_eq!(plan.media, media_plan(3, kind));
    let content = SendContent::File {
        data: vec![1, 2, 3],
        file_name: "report.pdf".to_string(),
        caption: None,
    };
    assert_eq!(plan_of(content).texts, vec![]);
}

#[test]
fn content_that_cannot_be_split() {
    let bot = logged_in();
    // 4000 is not a multiple of three.
    let long = "日".repeat(1400);
    let text = SendContent::Text(long.clone());
    assert_eq!(bot.send_content("alice", "ctx", text), Ok(None));
    let file = |name: &str| SendContent::File {
        data: vec![],
        file_name: name.to_string(),
        caption: Some(long.clone()),
    };
    assert_eq!(bot.send_content("alice", "ctx", file("a.pdf")), Ok(None));
    assert!(bot.send_content("alice", "ctx", file("a.png")).unwrap().is_some());
}

#[test]
fn media_is_sent_in_the_noted_context() {
    let mut bot = logged_in();
    let image = || SendContent::Image { data: vec![], caption: None };
    assert_eq!(bot.send_media("alice", image()), no_context("alice"));
    let plan = bot.reply_media(&message("alice", "ctx"), image()).unwrap().unwrap();
    assert_eq!(plan.media.unwrap().context_token, "ctx");
    let plan = bot.send_media("alice", image()).unwrap().unwrap();
    assert_eq!(plan.media.unwrap().context_token, "ctx");
}

#[test]
fn messages_refer_to_uploads() {
    let result = UploadResult { media: media("p"), aes_key: vec![], encrypted_file_size: 32 };
    let caption = Some("look".to_string());
    let plan = media_plan(1, MediaKind::Image { caption: caption.clone() }).unwrap();
    let message = plan.message(&result);
    assert_eq!(message.user_id, "alice");
    assert_eq!(message.context_token, "ctx");
    assert_eq!(
        message.items,
        vec![text_item("look".to_string()), image_item(&media("p"), 32)]
    );
    let plan = media_plan(2, MediaKind::Video { caption: None }).unwrap();
    assert_eq!(plan.message(&result).items, vec![video_item(&media("p"), 32)]);
    let plan = media_plan(2, MediaKind::Video { caption }).unwrap();
    assert_eq!(plan.message(&result).items.len(), 2);
    let file_name = "report.pdf".to_string();
    let plan = media_plan(3, MediaKind::File { file_name: file_name.clone() }).unwrap();
    assert_eq!(plan.message(&result).items, vec![file_item(&media("p"), file_name, 3)]);
}

#[test]
fn uploads_are_announced() {
    let key: [u8; 16] = [0, 1, 2, 3, 4, 5, 6, 7, 8, 9, 10, 11, 12, 13, 14, 255];
    let upload = upload_with_key(auth(), b"hello", "alice", 3, &key, sealed());
    assert_eq!(
        upload.params,
        GetUploadUrlParams {
            filekey: "000102030405060708090a0b0c0d0eff".to_string(),
            media_type: 3,
            to_user_id: "alice".to_string(),
            rawsize: 5,
            rawfilemd5: "5d41402abc4b2a76b9719d911017c592".to_string(),
            filesize: 32,
            no_need_thumb: true,
            aeskey: "0102".to_string(),
        }
    );
    assert_eq!(upload.auth, auth());
    assert_eq!(upload.sealed, sealed());
}

#[test]
fn upload_keys_are_random() {
    let bot = logged_in();
    let one = bot.upload(b"hello", "alice", 1, sealed()).unwrap();
    let two = cdn_upload(auth(), b"hello", "alice", 1, sealed());
    assert_eq!(one.params.filekey.len(), 32);
    assert!(one.params.filekey.chars().all(|c| "0123456789abcdef".contains(c)));
    assert_ne!(one.params.filekey, two.params.filekey);
    assert_eq!(one.params.rawfilemd5, two.params.rawfilemd5);
    assert_eq!(new_bot().upload(b"hello", "alice", 1, sealed()), not_logged_in());
}

#[test]
fn upload_targets() {
    let key: [u8; 16] = [0x11; 16];
    let upload = upload_with_key(auth(), b"", "alice", 1, &key, sealed());
    let text = |t: &str| Some(t.to_string());
    let reply = |param: Option<String>, url: Option<String>| UploadUrlReply {
        upload_param: param,
        upload_full_url: url,
    };
    let built = Ok(UploadTarget::Param {
        upload_param: "p".to_string(),
        filekey: "11111111111111111111111111111111".to_string(),
    });
    assert_eq!(
        upload.target(reply(text("p"), text(" https://u.example "))),
        Ok(UploadTarget::FullUrl(" https://u.example ".to_string()))
    );
    assert_eq!(upload.target(reply(text("p"), text(" \t\u{3000}"))), built);
    assert_eq!(upload.target(reply(text("p"), text(""))), built);
    assert_eq!(upload.target(reply(text("p"), None)), built);
    let refusal =
        Err(WeChatBotError::Media("getuploadurl returned no upload_param".to_string()));
    assert_eq!(upload.target(reply(None, None)), refusal);
    assert_eq!(upload.target(reply(None, text("  "))), refusal);
}

#[test]
fn upload_results() {
    let key: [u8; 16] = [0; 16];
    let upload = upload_with_key(auth(), b"hello", "alice", 1, &key, sealed());
    let filesize = upload.params.filesize;
    let result = upload.finish("query".to_string());
    assert_eq!(
        result,
        UploadResult {
            media: CDNMedia {
                encrypt_query_param: "query".to_string(),
                aes_key: "AQI=".to_string(),
                encrypt_type: Some(1),
                full_url: None,
            },
            aes_key: vec![1, 2],
            encrypted_file_size: 32,
        }
    );
    assert_eq!(result.encrypted_file_size, filesize);
}

#[test]
fn downloads() {
    let bot = new_bot();
    let mut msg = message("alice", "ctx");
    assert_eq!(bot.download(&msg), None);
    msg.voices.push(VoiceContent { media: Some(media("voice")) });
    let plan = bot.download(&msg).unwrap();
    assert_eq!(plan.media, media("voice"));
    assert_eq!(plan.media_type, "voice");
    assert_eq!(plan.format, Some("silk".to_string()));
    msg.videos.push(VideoContent { media: Some(media("video")) });
    let plan = bot.download(&msg).unwrap();
    assert_eq!(plan.media, media("video"));
    assert_eq!(plan.media_type, "video");
    assert_eq!(plan.format, None);
    msg.files.push(FileContent { media: Some(media("file")), file_name: None });
    let plan = bot.download(&msg).unwrap();
    assert_eq!(plan.media, media("file"));
    assert_eq!(plan.media_type, "file");
    assert_eq!(plan.file_name, Some("file.bin".to_string()));
    msg.files[0].file_name = Some("a.txt".to_string());
    assert_eq!(bot.download(&msg).unwrap().file_name, Some("a.txt".to_string()));
    msg.images.push(ImageContent {
        media: Some(media("image")),
        aes_key: Some("override".to_string()),
    });
    let plan = bot.download(&msg).unwrap();
    assert_eq!(plan.media, media("image"));
    assert_eq!(plan.aes_key, Some("override".to_string()));
    assert_eq!(plan.media_type, "image");
    assert_eq!(plan.file_name, None);
    let downloaded = plan.finish(vec![7]);
    assert_eq!(downloaded.data, vec![7]);
    assert_eq!(downloaded.media_type, "image");
    // Only the first of each kind counts.
    msg.images[0].media = None;
    msg.images.push(ImageContent { media: Some(media("second")), aes_key: None });
    assert_eq!(bot.download(&msg).unwrap().media, media("file"));
}
