//! The values that the bot works on.

use vstd::prelude::*;

verus! {

/// What a login yields.
#[derive(Debug, PartialEq, Eq)]
pub struct Credentials {
    pub token: String,
    pub base_url: String,
    pub account_id: String,
    pub user_id: String,
    pub saved_at: Option<String>,
}

/// The contents of [`Credentials`].
pub struct CredentialsView {
    pub token: Seq<char>,
    pub base_url: Seq<char>,
    pub account_id: Seq<char>,
    pub user_id: Seq<char>,
    pub saved_at: Option<Seq<char>>,
}

impl DeepView for Credentials {
    type V = CredentialsView;

    open spec fn deep_view(&self) -> CredentialsView {
        CredentialsView {
            token: self.token@,
            base_url: self.base_url@,
            account_id: self.account_id@,
            user_id: self.user_id@,
            saved_at: self.saved_at.deep_view(),
        }
    }
}

impl Clone for Credentials {
    fn clone(&self) -> (copy: Self)
        ensures
            copy.deep_view() == self.deep_view(),
    {
        Credentials {
            token: self.token.clone(),
            base_url: self.base_url.clone(),
            account_id: self.account_id.clone(),
            user_id: self.user_id.clone(),
            saved_at: self.saved_at.clone(),
        }
    }
}

/// A file on the content network: where it is and how it is encrypted.
#[derive(Debug, PartialEq, Eq)]
pub struct CDNMedia {
    pub encrypt_query_param: String,
    pub aes_key: String,
    pub encrypt_type: Option<i32>,
    pub full_url: Option<String>,
}

/// The contents of a [`CDNMedia`].
pub struct CDNMediaView {
    pub encrypt_query_param: Seq<char>,
    pub aes_key: Seq<char>,
    pub encrypt_type: Option<i32>,
    pub full_url: Option<Seq<char>>,
}

impl DeepView for CDNMedia {
    type V = CDNMediaView;

    open spec fn deep_view(&self) -> CDNMediaView {
        CDNMediaView {
            encrypt_query_param: self.encrypt_query_param@,
            aes_key: self.aes_key@,
            encrypt_type: self.encrypt_type,
            full_url: self.full_url.deep_view(),
        }
    }
}

impl Clone for CDNMedia {
    fn clone(&self) -> (copy: Self)
        ensures
            copy.deep_view() == self.deep_view(),
    {
        CDNMedia {
            encrypt_query_param: self.encrypt_query_param.clone(),
            aes_key: self.aes_key.clone(),
            encrypt_type: self.encrypt_type,
            full_url: self.full_url.clone(),
        }
    }
}

/// An image in a message.
#[derive(Clone, Debug, PartialEq, Eq)]
pub struct ImageContent {
    pub media: Option<CDNMedia>,
    /// The key of the image, if it is not the one in `media`.
    pub aes_key: Option<String>,
}

/// The contents of an [`ImageContent`].
pub struct ImageContentView {
    pub media: Option<CDNMediaView>,
    pub aes_key: Option<Seq<char>>,
}

impl DeepView for ImageContent {
    type V = ImageContentView;

    open spec fn deep_view(&self) -> ImageContentView {
        ImageContentView { media: self.media.deep_view(), aes_key: self.aes_key.deep_view() }
    }
}

/// A file in a message.
#[derive(Clone, Debug, PartialEq, Eq)]
pub struct FileContent {
    pub media: Option<CDNMedia>,
    pub file_name: Option<String>,
}

/// The contents of a [`FileContent`].
pub struct FileContentView {
    pub media: Option<CDNMediaView>,
    pub file_name: Option<Seq<char>>,
}

impl DeepView for FileContent {
    type V = FileContentView;

    open spec fn deep_view(&self) -> FileContentView {
        FileContentView { media: self.media.deep_view(), file_name: self.file_name.deep_view() }
    }
}

/// A video in a message.
#[derive(Clone, Debug, PartialEq, Eq)]
pub struct VideoContent {
    pub media: Option<CDNMedia>,
}

impl DeepView for VideoContent {
    type V = Option<CDNMediaView>;

    open spec fn deep_view(&self) -> Option<CDNMediaView> {
        self.media.deep_view()
    }
}

/// A voice recording in a message.
#[derive(Clone, Debug, PartialEq, Eq)]
pub struct VoiceContent {
    pub media: Option<CDNMedia>,
}

impl DeepView for VoiceContent {
    type V = Option<CDNMediaView>;

    open spec fn deep_view(&self) -> Option<CDNMediaView> {
        self.media.deep_view()
    }
}

/// A message of a user, as handlers see it.
#[derive(Clone, Debug, PartialEq, Eq)]
pub struct IncomingMessage {
    pub user_id: String,
    pub text: String,
    pub context_token: String,
    pub images: Vec<ImageContent>,
    pub files: Vec<FileContent>,
    pub videos: Vec<VideoContent>,
    pub voices: Vec<VoiceContent>,
}

/// The contents of an [`IncomingMessage`].
pub struct IncomingMessageView {
    pub user_id: Seq<char>,
    pub text: Seq<char>,
    pub context_token: Seq<char>,
    pub images: Seq<ImageContentView>,
    pub files: Seq<FileContentView>,
    /// The files of the videos on the content network.
    pub videos: Seq<Option<CDNMediaView>>,
    /// The files of the voice recordings on the content network.
    pub voices: Seq<Option<CDNMediaView>>,
}

impl DeepView for IncomingMessage {
    type V = IncomingMessageView;

    open spec fn deep_view(&self) -> IncomingMessageView {
        IncomingMessageView {
            user_id: self.user_id@,
            text: self.text@,
            context_token: self.context_token@,
            images: self.images.deep_view(),
            files: self.files.deep_view(),
            videos: self.videos.deep_view(),
            voices: self.voices.deep_view(),
        }
    }
}

/// Who wrote a message.
#[derive(Clone, Copy, Debug, PartialEq, Eq, Structural)]
pub enum MessageType {
    User,
    Other,
}

/// A message as the service delivers it: the part that tells whose conversation it belongs to.
#[derive(Clone, Debug, PartialEq, Eq)]
pub struct WireMessage {
    pub from_user_id: String,
    pub to_user_id: String,
    pub message_type: MessageType,
    pub context_token: String,
}

/// The contents of a [`WireMessage`].
pub struct WireMessageView {
    pub from_user_id: Seq<char>,
    pub to_user_id: Seq<char>,
    pub message_type: MessageType,
    pub context_token: Seq<char>,
}

impl DeepView for WireMessage {
    type V = WireMessageView;

    open spec fn deep_view(&self) -> WireMessageView {
        WireMessageView {
            from_user_id: self.from_user_id@,
            to_user_id: self.to_user_id@,
            message_type: self.message_type,
            context_token: self.context_token@,
        }
    }
}

/// Where a request goes and what it is authorised by.
#[derive(Clone, Debug, PartialEq, Eq)]
pub struct Auth {
    pub base_url: String,
    pub token: String,
}

/// The contents of an [`Auth`].
pub struct AuthView {
    pub base_url: Seq<char>,
    pub token: Seq<char>,
}

impl DeepView for Auth {
    type V = AuthView;

    open spec fn deep_view(&self) -> AuthView {
        AuthView { base_url: self.base_url@, token: self.token@ }
    }
}

/// Content to send.
#[derive(Clone, Debug, PartialEq, Eq)]
pub enum SendContent {
    Text(String),
    Image { data: Vec<u8>, caption: Option<String> },
    Video { data: Vec<u8>, caption: Option<String> },
    File { data: Vec<u8>, file_name: String, caption: Option<String> },
}

/// What a [`SendContent`] holds.
pub enum SendContentView {
    Text(Seq<char>),
    Image { data: Seq<u8>, caption: Option<Seq<char>> },
    Video { data: Seq<u8>, caption: Option<Seq<char>> },
    File { data: Seq<u8>, file_name: Seq<char>, caption: Option<Seq<char>> },
}

impl DeepView for SendContent {
    type V = SendContentView;

    open spec fn deep_view(&self) -> SendContentView {
        match self {
            SendContent::Text(text) => SendContentView::Text(text@),
            SendContent::Image { data, caption } => SendContentView::Image {
                data: data@,
                caption: caption.deep_view(),
            },
            SendContent::Video { data, caption } => SendContentView::Video {
                data: data@,
                caption: caption.deep_view(),
            },
            SendContent::File { data, file_name, caption } => SendContentView::File {
                data: data@,
                file_name: file_name@,
                caption: caption.deep_view(),
            },
        }
    }
}

} // verus!
