//! The items that a message is made of, as JSON.

use vstd::prelude::*;
use crate::encoding;
use crate::json;
use crate::json::{Json, JsonView};
use crate::types::{CDNMedia, CDNMediaView};

verus! {

/// A JSON object that refers to a file on the content network.
pub open spec fn media_json(media: CDNMediaView) -> JsonView {
    let fields = seq![
        ("encrypt_query_param"@, JsonView::Text(media.encrypt_query_param)),
        ("aes_key"@, JsonView::Text(media.aes_key)),
    ];
    JsonView::Object(
        match media.encrypt_type {
            Some(encrypt_type) => fields.push(
                ("encrypt_type"@, JsonView::Number(encrypt_type as int)),
            ),
            None => fields,
        },
    )
}

/// An item of the given type: its type number, and under `name` what is in it.
pub open spec fn item_json(
    item_type: int,
    name: Seq<char>,
    content: Seq<(Seq<char>, JsonView)>,
) -> JsonView {
    JsonView::Object(
        seq![("type"@, JsonView::Number(item_type)), (name, JsonView::Object(content))],
    )
}

/// A piece of text.
pub open spec fn text_item_json(text: Seq<char>) -> JsonView {
    item_json(1, "text_item"@, seq![("text"@, JsonView::Text(text))])
}

/// An image of `size` bytes, encrypted.
pub open spec fn image_item_json(media: CDNMediaView, size: int) -> JsonView {
    item_json(
        2,
        "image_item"@,
        seq![("media"@, media_json(media)), ("mid_size"@, JsonView::Number(size))],
    )
}

/// A file of `len` bytes, before encryption.
pub open spec fn file_item_json(media: CDNMediaView, file_name: Seq<char>, len: nat) -> JsonView {
    item_json(
        4,
        "file_item"@,
        seq![
            ("media"@, media_json(media)),
            ("file_name"@, JsonView::Text(file_name)),
            ("len"@, JsonView::Text(encoding::decimal_text(len))),
        ],
    )
}

/// A video of `size` bytes, encrypted.
pub open spec fn video_item_json(media: CDNMediaView, size: int) -> JsonView {
    item_json(
        5,
        "video_item"@,
        seq![("media"@, media_json(media)), ("video_size"@, JsonView::Number(size))],
    )
}

/// Refers to a file on the content network, see [`media_json`].
pub fn cdn_media_json(media: &CDNMedia) -> (value: Json)
    ensures
        value.deep_view() == media_json(media.deep_view()),
{
    let mut fields: Vec<(String, Json)> = Vec::new();
    json::push_field(
        &mut fields,
        "encrypt_query_param",
        Json::Text(media.encrypt_query_param.clone()),
    );
    json::push_field(&mut fields, "aes_key", Json::Text(media.aes_key.clone()));
    if let Some(encrypt_type) = media.encrypt_type {
        json::push_field(&mut fields, "encrypt_type", Json::Number(encrypt_type as i128));
    }
    assert(json::fields_view(fields@) =~= media_json(media.deep_view())->Object_0);
    json::object(fields)
}

fn item(item_type: i128, name: &str, content: Vec<(String, Json)>) -> (value: Json)
    ensures
        value.deep_view() == item_json(item_type as int, name@, json::fields_view(content@)),
{
    let mut fields: Vec<(String, Json)> = Vec::new();
    json::push_field(&mut fields, "type", Json::Number(item_type));
    json::push_field(&mut fields, name, json::object(content));
    assert(json::fields_view(fields@) =~= seq![
        ("type"@, JsonView::Number(item_type as int)),
        (name@, JsonView::Object(json::fields_view(content@))),
    ]);
    json::object(fields)
}

/// Makes a text item.
pub fn text_item(text: String) -> (value: Json)
    ensures
        value.deep_view() == text_item_json(text@),
{
    let mut content: Vec<(String, Json)> = Vec::new();
    json::push_field(&mut content, "text", Json::Text(text));
    assert(json::fields_view(content@) =~= seq![("text"@, JsonView::Text(text@))]);
    item(1, "text_item", content)
}

/// Makes an image item.
pub fn image_item(media: &CDNMedia, size: usize) -> (value: Json)
    ensures
        value.deep_view() == image_item_json(media.deep_view(), size as int),
{
    let mut content: Vec<(String, Json)> = Vec::new();
    json::push_field(&mut content, "media", cdn_media_json(media));
    json::push_field(&mut content, "mid_size", Json::Number(size as i128));
    assert(json::fields_view(content@) =~= seq![
        ("media"@, media_json(media.deep_view())),
        ("mid_size"@, JsonView::Number(size as int)),
    ]);
    item(2, "image_item", content)
}

/// Makes a file item.
pub fn file_item(media: &CDNMedia, file_name: String, len: usize) -> (value: Json)
    ensures
        value.deep_view() == file_item_json(media.deep_view(), file_name@, len as nat),
{
    let mut content: Vec<(String, Json)> = Vec::new();
    json::push_field(&mut content, "media", cdn_media_json(media));
    json::push_field(&mut content, "file_name", Json::Text(file_name));
    json::push_field(&mut content, "len", Json::Text(encoding::to_decimal(len as u64)));
    assert(json::fields_view(content@) =~= seq![
        ("media"@, media_json(media.deep_view())),
        ("file_name"@, JsonView::Text(file_name@)),
        ("len"@, JsonView::Text(encoding::decimal_text(len as nat))),
    ]);
    item(4, "file_item", content)
}

/// Makes a video item.
pub fn video_item(media: &CDNMedia, size: usize) -> (value: Json)
    ensures
        value.deep_view() == video_item_json(media.deep_view(), size as int),
{
    let mut content: Vec<(String, Json)> = Vec::new();
    json::push_field(&mut content, "media", cdn_media_json(media));
    json::push_field(&mut content, "video_size", Json::Number(size as i128));
    assert(json::fields_view(content@) =~= seq![
        ("media"@, media_json(media.deep_view())),
        ("video_size"@, JsonView::Number(size as int)),
    ]);
    item(5, "video_item", content)
}

/// The reference to a file names its parameter and its key, and its encryption type if and only
/// if it has one.
pub proof fn law_media_json_fields(media: CDNMediaView)
    ensures
        json::field_of(media_json(media), "encrypt_query_param"@) == Some(
            JsonView::Text(media.encrypt_query_param),
        ),
        json::field_of(media_json(media), "aes_key"@) == Some(JsonView::Text(media.aes_key)),
        json::field_of(media_json(media), "encrypt_type"@) == match media.encrypt_type {
            Some(encrypt_type) => Some(JsonView::Number(encrypt_type as int)),
            None => None,
        },
        json::field_of(media_json(media), "full_url"@) is None,
{
    reveal_strlit("encrypt_query_param");
    reveal_strlit("aes_key");
    reveal_strlit("encrypt_type");
    reveal_strlit("full_url");
    reveal_with_fuel(json::find_field, 4);
    assert("encrypt_query_param"@.len() == 19);
    assert("aes_key"@.len() == 7);
    assert("encrypt_type"@.len() == 12);
    assert("full_url"@.len() == 8);
    let fields = seq![
        ("encrypt_query_param"@, JsonView::Text(media.encrypt_query_param)),
        ("aes_key"@, JsonView::Text(media.aes_key)),
    ];
    assert(fields.drop_last() =~= seq![fields[0]]);
    assert(seq![fields[0]].drop_last() =~= seq![]);
    if let Some(encrypt_type) = media.encrypt_type {
        let last = ("encrypt_type"@, JsonView::Number(encrypt_type as int));
        assert(fields.push(last).drop_last() =~= fields);
    }
}

/// An object has the given fields, in this order, and no others.
pub open spec fn is_object_of(json: JsonView, names: Seq<Seq<char>>) -> bool {
    &&& json is Object
    &&& json->Object_0.len() == names.len()
    &&& forall|i: int| 0 <= i < names.len() ==> (#[trigger] json->Object_0[i]).0 == names[i]
}

/// The value of the field at `i` of an object.
pub open spec fn value_at(json: JsonView, i: int) -> JsonView {
    json->Object_0[i].1
}

/// An item of text says its type and the text.
pub proof fn law_text_item(text: Seq<char>)
    ensures
        ({
            let item = text_item_json(text);
            &&& is_object_of(item, seq!["type"@, "text_item"@])
            &&& value_at(item, 0) == JsonView::Number(1)
            &&& is_object_of(value_at(item, 1), seq!["text"@])
            &&& value_at(value_at(item, 1), 0) == JsonView::Text(text)
        }),
{
}

/// An image item says its type, refers to the file, and gives its size.
pub proof fn law_image_item(media: CDNMediaView, size: int)
    ensures
        ({
            let item = image_item_json(media, size);
            &&& is_object_of(item, seq!["type"@, "image_item"@])
            &&& value_at(item, 0) == JsonView::Number(2)
            &&& is_object_of(value_at(item, 1), seq!["media"@, "mid_size"@])
            &&& value_at(value_at(item, 1), 0) == media_json(media)
            &&& value_at(value_at(item, 1), 1) == JsonView::Number(size)
        }),
{
}

/// A video item says its type, refers to the file, and gives its size.
pub proof fn law_video_item(media: CDNMediaView, size: int)
    ensures
        ({
            let item = video_item_json(media, size);
            &&& is_object_of(item, seq!["type"@, "video_item"@])
            &&& value_at(item, 0) == JsonView::Number(5)
            &&& is_object_of(value_at(item, 1), seq!["media"@, "video_size"@])
            &&& value_at(value_at(item, 1), 0) == media_json(media)
            &&& value_at(value_at(item, 1), 1) == JsonView::Number(size)
        }),
{
}

/// A file item says its type, refers to the file, and gives its name and, in decimal, its size.
pub proof fn law_file_item(media: CDNMediaView, file_name: Seq<char>, len: nat)
    ensures
        ({
            let item = file_item_json(media, file_name, len);
            &&& is_object_of(item, seq!["type"@, "file_item"@])
            &&& value_at(item, 0) == JsonView::Number(4)
            &&& is_object_of(value_at(item, 1), seq!["media"@, "file_name"@, "len"@])
            &&& value_at(value_at(item, 1), 0) == media_json(media)
            &&& value_at(value_at(item, 1), 1) == JsonView::Text(file_name)
            &&& value_at(value_at(item, 1), 2) == JsonView::Text(encoding::decimal_text(len))
        }),
{
}

/// The reference to a file has these fields and no others.
pub proof fn law_media_json_is_complete(media: CDNMediaView)
    ensures
        ({
            let json = media_json(media);
            &&& media.encrypt_type is None ==> is_object_of(
                json,
                seq!["encrypt_query_param"@, "aes_key"@],
            )
            &&& media.encrypt_type is Some ==> is_object_of(
                json,
                seq!["encrypt_query_param"@, "aes_key"@, "encrypt_type"@],
            )
            &&& value_at(json, 0) == JsonView::Text(media.encrypt_query_param)
            &&& value_at(json, 1) == JsonView::Text(media.aes_key)
            &&& media.encrypt_type is Some ==> value_at(json, 2) == JsonView::Number(
                media.encrypt_type->0 as int,
            )
        }),
{
}

} // verus!
