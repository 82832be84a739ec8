use wechatbot::items::{cdn_media_json, file_item, image_item, text_item, video_item};
use wechatbot::json::Json;
use wechatbot::types::CDNMedia;

fn media() -> CDNMedia {
    CDNMedia {
        encrypt_query_param: "p".to_string(),
        aes_key: "k".to_string(),
        encrypt_type: Some(1),
        full_url: Some("ignored".to_string()),
    }
}

fn text(value: &str) -> Json {
    Json::Text(value.to_string())
}

fn object(fields: Vec<(&str, Json)>) -> Json {
    Json::Object(fields.into_iter().map(|(name, value)| (name.to_string(), value)).collect())
}

fn media_object() -> Json {
    object(vec![
        ("encrypt_query_param", text("p")),
        ("aes_key", text("k")),
        ("encrypt_type", Json::Number(1)),
    ])
}

#[test]
fn cdn_media_json_with_encrypt_type() {
    let media = CDNMedia {
        encrypt_query_param: "param=1".to_string(),
        aes_key: "key123".to_string(),
        encrypt_type: Some(1),
        full_url: None,
    };
    let j = cdn_media_json(&media);
    assert_eq!(j.get("encrypt_query_param"), Some(&text("param=1")));
    assert_eq!(j.get("aes_key"), Some(&text("key123")));
    assert_eq!(j.get("encrypt_type"), Some(&Json::Number(1)));
}

#[test]
fn cdn_media_json_without_encrypt_type() {
    let media = CDNMedia {
        encrypt_query_param: "p".to_string(),
        aes_key: "k".to_string(),
        encrypt_type: None,
        full_url: None,
    };
    let j = cdn_media_json(&media);
    assert!(j.get("encrypt_type").is_none());
}

#[test]
fn text_items() {
    assert_eq!(
        text_item("hi".to_string()),
        object(vec![("type", Json::Number(1)), ("text_item", object(vec![("text", text("hi"))]))])
    );
}

#[test]
fn image_items() {
    assert_eq!(
        image_item(&media(), 4096),
        object(vec![
            ("type", Json::Number(2)),
            (
                "image_item",
                object(vec![("media", media_object()), ("mid_size", Json::Number(4096))])
            ),
        ])
    );
}

#[test]
fn file_items() {
    assert_eq!(
        file_item(&media(), "a.pdf".to_string(), 1205),
        object(vec![
            ("type", Json::Number(4)),
            (
                "file_item",
                object(vec![
                    ("media", media_object()),
                    ("file_name", text("a.pdf")),
                    ("len", text("1205")),
                ])
            ),
        ])
    );
}

#[test]
fn video_items() {
    assert_eq!(
        video_item(&media(), 7),
        object(vec![
            ("type", Json::Number(5)),
            (
                "video_item",
                object(vec![("media", media_object()), ("video_size", Json::Number(7))])
            ),
        ])
    );
}

#[test]
fn fields_of_objects() {
    let value = object(vec![("a", text("1")), ("b", text("2")), ("a", text("3"))]);
    assert_eq!(value.get("a"), Some(&text("3")));
    assert_eq!(value.get("b"), Some(&text("2")));
    assert_eq!(value.get("c"), None);
    assert_eq!(text("a").get("a"), None);
    assert_eq!(Json::Number(1).get("a"), None);
}
