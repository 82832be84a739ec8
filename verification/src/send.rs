//! What a piece of content is sent as.

use vstd::prelude::*;
use vstd::utf8::*;
use crate::files;
use crate::files::FileKind;
use crate::paths::Platform;
use crate::items;
use crate::json::{Json, JsonView};
use crate::text;
use crate::types::{Auth, AuthView, SendContent, SendContentView};
use crate::upload::{UploadResult, UploadResultView};

verus! {

/// How many bytes of text a message may hold.
pub const TEXT_LIMIT: usize = 4000;

/// The media types under which files are uploaded.
pub const IMAGE_MEDIA: i32 = 1;

pub const VIDEO_MEDIA: i32 = 2;

pub const FILE_MEDIA: i32 = 3;

/// A message of text.
#[derive(Debug, PartialEq, Eq)]
pub struct TextMessage {
    pub user_id: String,
    pub context_token: String,
    pub text: String,
}

/// The contents of a [`TextMessage`].
pub struct TextMessageView {
    pub user_id: Seq<char>,
    pub context_token: Seq<char>,
    pub text: Seq<char>,
}

impl DeepView for TextMessage {
    type V = TextMessageView;

    open spec fn deep_view(&self) -> TextMessageView {
        TextMessageView {
            user_id: self.user_id@,
            context_token: self.context_token@,
            text: self.text@,
        }
    }
}

/// A message of several items.
#[derive(Debug, PartialEq, Eq)]
pub struct MediaMessage {
    pub user_id: String,
    pub context_token: String,
    pub items: Vec<Json>,
}

/// The contents of a [`MediaMessage`].
pub struct MediaMessageView {
    pub user_id: Seq<char>,
    pub context_token: Seq<char>,
    pub items: Seq<JsonView>,
}

impl DeepView for MediaMessage {
    type V = MediaMessageView;

    open spec fn deep_view(&self) -> MediaMessageView {
        MediaMessageView {
            user_id: self.user_id@,
            context_token: self.context_token@,
            items: self.items.deep_view(),
        }
    }
}

/// A text to send: its messages, to be sent in this order.
#[derive(Debug, PartialEq, Eq)]
pub struct TextPlan {
    pub auth: Auth,
    pub messages: Vec<TextMessage>,
}

/// The contents of a [`TextPlan`].
pub struct TextPlanView {
    pub auth: AuthView,
    pub messages: Seq<TextMessageView>,
}

impl DeepView for TextPlan {
    type V = TextPlanView;

    open spec fn deep_view(&self) -> TextPlanView {
        TextPlanView { auth: self.auth.deep_view(), messages: self.messages.deep_view() }
    }
}

/// What an uploaded file is shown as.
#[derive(Debug, PartialEq, Eq)]
pub enum MediaKind {
    Image { caption: Option<String> },
    Video { caption: Option<String> },
    File { file_name: String },
}

/// The contents of a [`MediaKind`].
pub enum MediaKindView {
    Image { caption: Option<Seq<char>> },
    Video { caption: Option<Seq<char>> },
    File { file_name: Seq<char> },
}

impl DeepView for MediaKind {
    type V = MediaKindView;

    open spec fn deep_view(&self) -> MediaKindView {
        match self {
            MediaKind::Image { caption } => MediaKindView::Image { caption: caption.deep_view() },
            MediaKind::Video { caption } => MediaKindView::Video { caption: caption.deep_view() },
            MediaKind::File { file_name } => MediaKindView::File { file_name: file_name@ },
        }
    }
}

/// A file to upload and then to refer to in a message.
#[derive(Debug, PartialEq, Eq)]
pub struct MediaPlan {
    pub user_id: String,
    pub context_token: String,
    pub data: Vec<u8>,
    pub media_type: i32,
    pub kind: MediaKind,
}

/// The contents of a [`MediaPlan`].
pub struct MediaPlanView {
    pub user_id: Seq<char>,
    pub context_token: Seq<char>,
    pub data: Seq<u8>,
    pub media_type: int,
    pub kind: MediaKindView,
}

impl DeepView for MediaPlan {
    type V = MediaPlanView;

    open spec fn deep_view(&self) -> MediaPlanView {
        MediaPlanView {
            user_id: self.user_id@,
            context_token: self.context_token@,
            data: self.data@,
            media_type: self.media_type as int,
            kind: self.kind.deep_view(),
        }
    }
}

/// Content to send: first the texts in this order, then the file.
#[derive(Debug, PartialEq, Eq)]
pub struct SendPlan {
    pub auth: Auth,
    pub texts: Vec<TextMessage>,
    pub media: Option<MediaPlan>,
}

/// The contents of a [`SendPlan`].
pub struct SendPlanView {
    pub auth: AuthView,
    pub texts: Seq<TextMessageView>,
    pub media: Option<MediaPlanView>,
}

impl DeepView for SendPlan {
    type V = SendPlanView;

    open spec fn deep_view(&self) -> SendPlanView {
        SendPlanView {
            auth: self.auth.deep_view(),
            texts: self.texts.deep_view(),
            media: self.media.deep_view(),
        }
    }
}

/// Whether a text can be split into messages.
pub open spec fn can_send_text(text: Seq<char>) -> bool {
    text::can_chunk(encode_utf8(text), TEXT_LIMIT as int)
}

/// The messages that a text is sent as.
pub open spec fn messages_of(
    user_id: Seq<char>,
    context_token: Seq<char>,
    text: Seq<char>,
) -> Seq<TextMessageView> {
    text::text_chunks(text, TEXT_LIMIT as int).map_values(
        |chunk: Seq<char>| TextMessageView { user_id, context_token, text: chunk },
    )
}

/// Makes the messages of a text, see [`messages_of`].
pub fn text_messages(user_id: &str, context_token: &str, text: &str) -> (messages: Vec<TextMessage>)
    requires
        can_send_text(text@),
    ensures
        messages.deep_view() == messages_of(user_id@, context_token@, text@),
{
    let chunks = text::chunk_text(text, TEXT_LIMIT);
    let mut messages: Vec<TextMessage> = Vec::new();
    let ghost views = text::text_chunks(text@, TEXT_LIMIT as int);
    assert(text::text_views(chunks@) == views);
    let mut i: usize = 0;
    while i < chunks.len()
        invariant
            i <= chunks@.len(),
            messages@.len() == i,
            views == text::text_views(chunks@),
            forall|j: int|
                0 <= j < i ==> (#[trigger] messages@[j]).deep_view() == (TextMessageView {
                    user_id: user_id@,
                    context_token: context_token@,
                    text: views[j],
                }),
        decreases chunks@.len() - i,
    {
        assert(views[i as int] == chunks@[i as int]@);
        messages.push(
            TextMessage {
                user_id: user_id.to_string(),
                context_token: context_token.to_string(),
                text: chunks[i].clone(),
            },
        );
        i = i + 1;
    }
    assert(messages.deep_view() =~= messages_of(user_id@, context_token@, text@));
    messages
}

/// The kind of a piece of content: that of its name on the platform, if it is a file.
pub open spec fn content_kind(content: SendContentView, platform: Platform) -> FileKind {
    match content {
        SendContentView::Text(_) => FileKind::File,
        SendContentView::Image { .. } => FileKind::Image,
        SendContentView::Video { .. } => FileKind::Video,
        SendContentView::File { file_name, .. } => files::file_kind(file_name, platform),
    }
}

/// Whether the texts in a piece of content of the given kind can be split into messages.
pub open spec fn can_send(content: SendContentView, kind: FileKind) -> bool {
    match content {
        SendContentView::Text(text) => can_send_text(text),
        SendContentView::File { caption: Some(caption), .. } => kind == FileKind::File
            ==> can_send_text(caption),
        _ => true,
    }
}

/// What a piece of content of the given kind is sent as. An image or a video takes its caption
/// into its message, and so does a file that is one by its name; the caption of another file
/// goes ahead as a text.
pub open spec fn content_plan(
    auth: AuthView,
    user_id: Seq<char>,
    context_token: Seq<char>,
    content: SendContentView,
    kind: FileKind,
) -> SendPlanView {
    let image = |data: Seq<u8>, caption: Option<Seq<char>>|
        SendPlanView {
            auth,
            texts: seq![],
            media: Some(
                MediaPlanView {
                    user_id,
                    context_token,
                    data,
                    media_type: IMAGE_MEDIA as int,
                    kind: MediaKindView::Image { caption },
                },
            ),
        };
    let video = |data: Seq<u8>, caption: Option<Seq<char>>|
        SendPlanView {
            auth,
            texts: seq![],
            media: Some(
                MediaPlanView {
                    user_id,
                    context_token,
                    data,
                    media_type: VIDEO_MEDIA as int,
                    kind: MediaKindView::Video { caption },
                },
            ),
        };
    match content {
        SendContentView::Text(text) => SendPlanView {
            auth,
            texts: messages_of(user_id, context_token, text),
            media: None,
        },
        SendContentView::Image { data, caption } => image(data, caption),
        SendContentView::Video { data, caption } => video(data, caption),
        SendContentView::File { data, file_name, caption } => match kind {
            FileKind::Image => image(data, caption),
            FileKind::Video => video(data, caption),
            FileKind::File => SendPlanView {
                auth,
                texts: match caption {
                    Some(caption) => messages_of(user_id, context_token, caption),
                    None => seq![],
                },
                media: Some(
                    MediaPlanView {
                        user_id,
                        context_token,
                        data,
                        media_type: FILE_MEDIA as int,
                        kind: MediaKindView::File { file_name },
                    },
                ),
            },
        },
    }
}

/// The message that refers to an uploaded file.
pub open spec fn media_message(plan: MediaPlanView, result: UploadResultView) -> MediaMessageView {
    let caption = |caption: Option<Seq<char>>|
        match caption {
            Some(text) => seq![items::text_item_json(text)],
            None => seq![],
        };
    MediaMessageView {
        user_id: plan.user_id,
        context_token: plan.context_token,
        items: match plan.kind {
            MediaKindView::Image { caption: text } => caption(text).push(
                items::image_item_json(result.media, result.encrypted_file_size),
            ),
            MediaKindView::Video { caption: text } => caption(text).push(
                items::video_item_json(result.media, result.encrypted_file_size),
            ),
            MediaKindView::File { file_name } => seq![
                items::file_item_json(result.media, file_name, plan.data.len()),
            ],
        },
    }
}

fn no_texts() -> (texts: Vec<TextMessage>)
    ensures
        texts.deep_view() == Seq::<TextMessageView>::empty(),
{
    let texts: Vec<TextMessage> = Vec::new();
    assert(texts.deep_view() =~= Seq::<TextMessageView>::empty());
    texts
}

fn image_plan(
    auth: Auth,
    user_id: &str,
    context_token: &str,
    data: Vec<u8>,
    caption: Option<String>,
) -> (plan: SendPlan)
    ensures
        plan.deep_view() == content_plan(
            auth.deep_view(),
            user_id@,
            context_token@,
            SendContentView::Image { data: data@, caption: caption.deep_view() },
            FileKind::Image,
        ),
{
    SendPlan {
        auth,
        texts: no_texts(),
        media: Some(
            MediaPlan {
                user_id: user_id.to_string(),
                context_token: context_token.to_string(),
                data,
                media_type: IMAGE_MEDIA,
                kind: MediaKind::Image { caption },
            },
        ),
    }
}

fn video_plan(
    auth: Auth,
    user_id: &str,
    context_token: &str,
    data: Vec<u8>,
    caption: Option<String>,
) -> (plan: SendPlan)
    ensures
        plan.deep_view() == content_plan(
            auth.deep_view(),
            user_id@,
            context_token@,
            SendContentView::Video { data: data@, caption: caption.deep_view() },
            FileKind::Video,
        ),
{
    SendPlan {
        auth,
        texts: no_texts(),
        media: Some(
            MediaPlan {
                user_id: user_id.to_string(),
                context_token: context_token.to_string(),
                data,
                media_type: VIDEO_MEDIA,
                kind: MediaKind::Video { caption },
            },
        ),
    }
}

/// Plans how to send a piece of content of the given kind, see [`content_plan`].
pub fn plan_content(
    auth: Auth,
    user_id: &str,
    context_token: &str,
    content: SendContent,
    kind: FileKind,
) -> (plan: SendPlan)
    requires
        can_send(content.deep_view(), kind),
    ensures
        plan.deep_view() == content_plan(
            auth.deep_view(),
            user_id@,
            context_token@,
            content.deep_view(),
            kind,
        ),
{
    match content {
        SendContent::Text(text) => SendPlan {
            auth,
            texts: text_messages(user_id, context_token, text.as_str()),
            media: None,
        },
        SendContent::Image { data, caption } => image_plan(
            auth,
            user_id,
            context_token,
            data,
            caption,
        ),
        SendContent::Video { data, caption } => video_plan(
            auth,
            user_id,
            context_token,
            data,
            caption,
        ),
        SendContent::File { data, file_name, caption } => match kind {
            FileKind::Image => image_plan(auth, user_id, context_token, data, caption),
            FileKind::Video => video_plan(auth, user_id, context_token, data, caption),
            FileKind::File => SendPlan {
                auth,
                texts: match caption {
                    Some(caption) => text_messages(user_id, context_token, caption.as_str()),
                    None => no_texts(),
                },
                media: Some(
                    MediaPlan {
                        user_id: user_id.to_string(),
                        context_token: context_token.to_string(),
                        data,
                        media_type: FILE_MEDIA,
                        kind: MediaKind::File { file_name },
                    },
                ),
            },
        },
    }
}

/// Finds the kind of a piece of content, see [`content_kind`].
pub fn kind_of_content(content: &SendContent, platform: Platform) -> (kind: FileKind)
    ensures
        kind == content_kind(content.deep_view(), platform),
{
    match content {
        SendContent::Text(_) => FileKind::File,
        SendContent::Image { .. } => FileKind::Image,
        SendContent::Video { .. } => FileKind::Video,
        SendContent::File { file_name, .. } => files::kind_by_name(
            file_name.as_str(),
            platform,
        ),
    }
}

/// Tests whether a piece of content of the given kind can be sent, see [`can_send`].
pub fn can_send_content(content: &SendContent, kind: FileKind) -> (yes: bool)
    ensures
        yes == can_send(content.deep_view(), kind),
{
    match content {
        SendContent::Text(text) => text::can_chunk_text(text.as_str(), TEXT_LIMIT),
        SendContent::File { caption: Some(caption), .. } => kind != FileKind::File
            || text::can_chunk_text(caption.as_str(), TEXT_LIMIT),
        _ => true,
    }
}

/// The items of a captioned medium.
fn captioned(caption: Option<String>, item: Json) -> (all: Vec<Json>)
    ensures
        all.deep_view() == match caption {
            Some(text) => seq![items::text_item_json(text@), item.deep_view()],
            None => seq![item.deep_view()],
        },
{
    let mut all: Vec<Json> = Vec::new();
    if let Some(text) = caption {
        all.push(items::text_item(text));
        all.push(item);
        assert(all.deep_view() =~= seq![items::text_item_json(text@), item.deep_view()]);
        return all;
    }
    all.push(item);
    assert(all.deep_view() =~= seq![item.deep_view()]);
    all
}

impl MediaPlan {
    /// Makes the message that refers to the uploaded file, see [`media_message`].
    pub fn message(self, result: &UploadResult) -> (message: MediaMessage)
        ensures
            message.deep_view() == media_message(self.deep_view(), result.deep_view()),
    {
        let items = match self.kind {
            MediaKind::Image { caption } => captioned(
                caption,
                items::image_item(&result.media, result.encrypted_file_size),
            ),
            MediaKind::Video { caption } => captioned(
                caption,
                items::video_item(&result.media, result.encrypted_file_size),
            ),
            MediaKind::File { file_name } => captioned(
                None,
                items::file_item(&result.media, file_name, self.data.len()),
            ),
        };
        assert(items.deep_view() =~= media_message(self.deep_view(), result.deep_view()).items);
        MediaMessage { user_id: self.user_id, context_token: self.context_token, items }
    }
}

/// The messages of a text say the text, in order and with nothing between, and each is addressed
/// to the user in the given context.
pub proof fn law_messages_say_the_text(
    user_id: Seq<char>,
    context_token: Seq<char>,
    text: Seq<char>,
)
    requires
        can_send_text(text),
    ensures
        messages_of(user_id, context_token, text).map_values(|m: TextMessageView| m.text).flatten()
            == text,
        forall|i: int|
            0 <= i < messages_of(user_id, context_token, text).len() ==> {
                let message = #[trigger] messages_of(user_id, context_token, text)[i];
                message.user_id == user_id && message.context_token == context_token
                    && encode_utf8(message.text).len() <= TEXT_LIMIT
            },
{
    let messages = messages_of(user_id, context_token, text);
    let chunks = text::text_chunks(text, TEXT_LIMIT as int);
    text::law_chunks_rejoin(text, TEXT_LIMIT as int);
    text::law_chunk_sizes(text, TEXT_LIMIT as int);
    assert(messages.map_values(|m: TextMessageView| m.text) =~= chunks);
    assert forall|i: int| 0 <= i < messages.len() implies {
        let message = #[trigger] messages[i];
        message.user_id == user_id && message.context_token == context_token && encode_utf8(
            message.text,
        ).len() <= TEXT_LIMIT
    } by {
        assert(messages[i].text == chunks[i]);
    }
}

/// A file that is an image or a video by its name is sent exactly as that image or video.
pub proof fn law_media_files_are_sent_as_media(
    auth: AuthView,
    user_id: Seq<char>,
    context_token: Seq<char>,
    data: Seq<u8>,
    file_name: Seq<char>,
    caption: Option<Seq<char>>,
    platform: Platform,
)
    ensures
        ({
            let file = SendContentView::File { data, file_name, caption };
            let kind = files::file_kind(file_name, platform);
            let plan = content_plan(
                auth,
                user_id,
                context_token,
                file,
                content_kind(file, platform),
            );
            let image = SendContentView::Image { data, caption };
            let video = SendContentView::Video { data, caption };
            &&& kind == FileKind::Image ==> plan == content_plan(
                auth,
                user_id,
                context_token,
                image,
                content_kind(image, platform),
            )
            &&& kind == FileKind::Video ==> plan == content_plan(
                auth,
                user_id,
                context_token,
                video,
                content_kind(video, platform),
            )
        }),
{
}

/// The messages say `text`: one for each of its chunks of at most 4000 bytes, in order, all of
/// them to the user in the given context.
pub open spec fn say(
    messages: Seq<TextMessageView>,
    user_id: Seq<char>,
    context_token: Seq<char>,
    text: Seq<char>,
) -> bool {
    &&& messages.len() == text::text_chunks(text, 4000).len()
    &&& forall|i: int|
        0 <= i < messages.len() ==> {
            let message = #[trigger] messages[i];
            &&& message.user_id == user_id
            &&& message.context_token == context_token
            &&& message.text == text::text_chunks(text, 4000)[i]
        }
}

/// A text is sent in messages that say it.
pub proof fn law_messages_are_the_chunks(
    user_id: Seq<char>,
    context_token: Seq<char>,
    text: Seq<char>,
)
    ensures
        say(messages_of(user_id, context_token, text), user_id, context_token, text),
        can_send_text(text) <==> text::can_chunk(encode_utf8(text), 4000),
{
}

/// The message of an image or a video shows it, as the last of its items: the reference to the
/// uploaded file and its size. In front of it stands the caption as the only other item, if
/// there is one. The message goes where the plan says.
pub proof fn law_media_messages_show_the_medium(
    plan: MediaPlanView,
    result: UploadResultView,
    caption: Option<Seq<char>>,
)
    requires
        plan.kind == (MediaKindView::Image { caption }) || plan.kind == (MediaKindView::Video {
            caption,
        }),
    ensures
        ({
            let message = media_message(plan, result);
            &&& message.user_id == plan.user_id
            &&& message.context_token == plan.context_token
            &&& message.items.len() > 0
            &&& plan.kind is Image ==> message.items.last() == items::image_item_json(
                result.media,
                result.encrypted_file_size,
            )
            &&& plan.kind is Video ==> message.items.last() == items::video_item_json(
                result.media,
                result.encrypted_file_size,
            )
            &&& caption is None ==> message.items.len() == 1
            &&& caption is Some ==> message.items.len() == 2 && message.items[0]
                == items::text_item_json(caption->0)
        }),
{
}

/// The message of a file shows it under its name and with its size before encryption, and
/// nothing else.
pub proof fn law_file_messages_show_the_file(
    plan: MediaPlanView,
    result: UploadResultView,
    file_name: Seq<char>,
)
    requires
        plan.kind == (MediaKindView::File { file_name }),
    ensures
        ({
            let message = media_message(plan, result);
            &&& message.user_id == plan.user_id
            &&& message.context_token == plan.context_token
            &&& message.items.len() == 1
            &&& message.items[0] == items::file_item_json(
                result.media,
                file_name,
                plan.data.len(),
            )
        }),
{
}

/// A plan for content of which the kind is given: media are uploaded under the type of their
/// kind, and only the caption of a plain file, or a text, goes out as text.
pub proof fn law_plans_follow_the_kind(
    auth: AuthView,
    user_id: Seq<char>,
    context_token: Seq<char>,
    content: SendContentView,
    kind: FileKind,
)
    ensures
        ({
            let plan = content_plan(auth, user_id, context_token, content, kind);
            let media = plan.media->0;
            &&& plan.auth == auth
            &&& plan.media is None <==> content is Text
            &&& plan.media is Some ==> media.user_id == user_id && media.context_token
                == context_token
            &&& match content {
                SendContentView::Text(text) => say(plan.texts, user_id, context_token, text),
                SendContentView::Image { data, caption } => plan.texts.len() == 0 && media.data
                    == data && media.media_type == 1 && media.kind == (MediaKindView::Image {
                    caption,
                }),
                SendContentView::Video { data, caption } => plan.texts.len() == 0 && media.data
                    == data && media.media_type == 2 && media.kind == (MediaKindView::Video {
                    caption,
                }),
                SendContentView::File { data, file_name, caption } => media.data == data
                    && match kind {
                    FileKind::Image => plan.texts.len() == 0 && media.media_type == 1
                        && media.kind == (MediaKindView::Image { caption }),
                    FileKind::Video => plan.texts.len() == 0 && media.media_type == 2
                        && media.kind == (MediaKindView::Video { caption }),
                    FileKind::File => media.media_type == 3 && media.kind
                        == (MediaKindView::File { file_name }) && match caption {
                        Some(caption) => say(plan.texts, user_id, context_token, caption),
                        None => plan.texts.len() == 0,
                    },
                },
            }
        }),
{
    match content {
        SendContentView::Text(text) => law_messages_are_the_chunks(user_id, context_token, text),
        SendContentView::File { caption: Some(caption), .. } => law_messages_are_the_chunks(
            user_id,
            context_token,
            caption,
        ),
        _ => {},
    }
}

/// Content is of the kind that it is given as; only a file is of the kind of its name.
pub proof fn law_kind_of_content(content: SendContentView, platform: Platform)
    ensures
        content is Text ==> content_kind(content, platform) == FileKind::File,
        content is Image ==> content_kind(content, platform) == FileKind::Image,
        content is Video ==> content_kind(content, platform) == FileKind::Video,
        content is File ==> content_kind(content, platform) == files::file_kind(
            content->file_name,
            platform,
        ),
{
}

/// Only a text that goes out as text can keep content from being sent.
pub proof fn law_what_can_be_sent(content: SendContentView, kind: FileKind)
    ensures
        match content {
            SendContentView::Text(text) => can_send(content, kind) <==> text::can_chunk(
                encode_utf8(text),
                4000,
            ),
            SendContentView::Image { .. } => can_send(content, kind),
            SendContentView::Video { .. } => can_send(content, kind),
            SendContentView::File { caption, .. } => can_send(content, kind) <==> kind
                != FileKind::File || caption is None || text::can_chunk(
                encode_utf8(caption->0),
                4000,
            ),
        },
{
}

} // verus!
