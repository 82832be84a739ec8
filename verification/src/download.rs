//! Downloading what is attached to a message.

use vstd::prelude::*;
use crate::types::{
    CDNMedia, CDNMediaView, FileContentView, ImageContentView, IncomingMessage, IncomingMessageView,
};

verus! {

/// A file to download, and what it will be.
#[derive(Debug, PartialEq, Eq)]
pub struct DownloadPlan {
    pub media: CDNMedia,
    /// The key to decrypt with, if it is not the one in `media`.
    pub aes_key: Option<String>,
    pub media_type: String,
    pub file_name: Option<String>,
    pub format: Option<String>,
}

/// The contents of a [`DownloadPlan`].
pub struct DownloadPlanView {
    pub media: CDNMediaView,
    pub aes_key: Option<Seq<char>>,
    pub media_type: Seq<char>,
    pub file_name: Option<Seq<char>>,
    pub format: Option<Seq<char>>,
}

impl DeepView for DownloadPlan {
    type V = DownloadPlanView;

    open spec fn deep_view(&self) -> DownloadPlanView {
        DownloadPlanView {
            media: self.media.deep_view(),
            aes_key: self.aes_key.deep_view(),
            media_type: self.media_type@,
            file_name: self.file_name.deep_view(),
            format: self.format.deep_view(),
        }
    }
}

/// A downloaded file.
#[derive(Debug, PartialEq, Eq)]
pub struct DownloadedMedia {
    pub data: Vec<u8>,
    pub media_type: String,
    pub file_name: Option<String>,
    pub format: Option<String>,
}

/// The file of the first image, if there is one.
pub open spec fn image_plan(images: Seq<ImageContentView>) -> Option<DownloadPlanView> {
    if images.len() > 0 && images[0].media is Some {
        Some(
            DownloadPlanView {
                media: images[0].media->0,
                aes_key: images[0].aes_key,
                media_type: "image"@,
                file_name: None,
                format: None,
            },
        )
    } else {
        None
    }
}

/// The file of the first file, if there is one. A file without a name is called `file.bin`.
pub open spec fn file_plan(files: Seq<FileContentView>) -> Option<DownloadPlanView> {
    if files.len() > 0 && files[0].media is Some {
        Some(
            DownloadPlanView {
                media: files[0].media->0,
                aes_key: None,
                media_type: "file"@,
                file_name: Some(
                    match files[0].file_name {
                        Some(name) => name,
                        None => "file.bin"@,
                    },
                ),
                format: None,
            },
        )
    } else {
        None
    }
}

/// The file of the first video, if there is one.
pub open spec fn video_plan(videos: Seq<Option<CDNMediaView>>) -> Option<DownloadPlanView> {
    if videos.len() > 0 && videos[0] is Some {
        Some(
            DownloadPlanView {
                media: videos[0]->0,
                aes_key: None,
                media_type: "video"@,
                file_name: None,
                format: None,
            },
        )
    } else {
        None
    }
}

/// The file of the first voice recording, if there is one. Recordings are in SILK format.
pub open spec fn voice_plan(voices: Seq<Option<CDNMediaView>>) -> Option<DownloadPlanView> {
    if voices.len() > 0 && voices[0] is Some {
        Some(
            DownloadPlanView {
                media: voices[0]->0,
                aes_key: None,
                media_type: "voice"@,
                file_name: None,
                format: Some("silk"@),
            },
        )
    } else {
        None
    }
}

/// What is downloaded of a message: its first image, or else its first file, or else its first
/// video, or else its first voice recording.
pub open spec fn download_plan(msg: IncomingMessageView) -> Option<DownloadPlanView> {
    match image_plan(msg.images) {
        Some(plan) => Some(plan),
        None => match file_plan(msg.files) {
            Some(plan) => Some(plan),
            None => match video_plan(msg.videos) {
                Some(plan) => Some(plan),
                None => voice_plan(msg.voices),
            },
        },
    }
}

/// Finds what to download of a message, see [`download_plan`].
pub fn plan_download(msg: &IncomingMessage) -> (plan: Option<DownloadPlan>)
    ensures
        plan.deep_view() == download_plan(msg.deep_view()),
{
    if msg.images.len() > 0 {
        let image = &msg.images[0];
        if let Some(media) = &image.media {
            return Some(
                DownloadPlan {
                    media: media.clone(),
                    aes_key: image.aes_key.clone(),
                    media_type: "image".to_string(),
                    file_name: None,
                    format: None,
                },
            );
        }
    }
    if msg.files.len() > 0 {
        let file = &msg.files[0];
        if let Some(media) = &file.media {
            let file_name = match &file.file_name {
                Some(name) => name.clone(),
                None => "file.bin".to_string(),
            };
            return Some(
                DownloadPlan {
                    media: media.clone(),
                    aes_key: None,
                    media_type: "file".to_string(),
                    file_name: Some(file_name),
                    format: None,
                },
            );
        }
    }
    if msg.videos.len() > 0 {
        if let Some(media) = &msg.videos[0].media {
            return Some(
                DownloadPlan {
                    media: media.clone(),
                    aes_key: None,
                    media_type: "video".to_string(),
                    file_name: None,
                    format: None,
                },
            );
        }
    }
    if msg.voices.len() > 0 {
        if let Some(media) = &msg.voices[0].media {
            return Some(
                DownloadPlan {
                    media: media.clone(),
                    aes_key: None,
                    media_type: "voice".to_string(),
                    file_name: None,
                    format: Some("silk".to_string()),
                },
            );
        }
    }
    None
}

impl DownloadPlan {
    /// Puts the downloaded and decrypted bytes together with what is known of them.
    pub fn finish(self, data: Vec<u8>) -> (downloaded: DownloadedMedia)
        ensures
            downloaded == (DownloadedMedia {
                data,
                media_type: self.media_type,
                file_name: self.file_name,
                format: self.format,
            }),
    {
        DownloadedMedia {
            data,
            media_type: self.media_type,
            file_name: self.file_name,
            format: self.format,
        }
    }
}

/// There is something to download if and only if the first of the images, of the files, of the
/// videos or of the voice recordings has a file on the content network.
pub proof fn law_download_finds_media(msg: IncomingMessageView)
    ensures
        download_plan(msg) is Some <==> {
            ||| msg.images.len() > 0 && msg.images[0].media is Some
            ||| msg.files.len() > 0 && msg.files[0].media is Some
            ||| msg.videos.len() > 0 && msg.videos[0] is Some
            ||| msg.voices.len() > 0 && msg.voices[0] is Some
        },
{
}

/// What is downloaded is the first image; without a file of one, the first file, under its name
/// or else `file.bin`; without one, the first video; without one, the first voice recording, in
/// SILK format. Only an image has a key of its own.
pub proof fn law_what_is_downloaded(msg: IncomingMessageView)
    ensures
        ({
            let plan = download_plan(msg);
            let image = msg.images.len() > 0 && msg.images[0].media is Some;
            let file = msg.files.len() > 0 && msg.files[0].media is Some;
            let video = msg.videos.len() > 0 && msg.videos[0] is Some;
            let voice = msg.voices.len() > 0 && msg.voices[0] is Some;
            &&& image ==> {
                &&& plan is Some
                &&& plan->0.media == msg.images[0].media->0
                &&& plan->0.aes_key == msg.images[0].aes_key
                &&& plan->0.media_type == "image"@
                &&& plan->0.file_name is None
                &&& plan->0.format is None
            }
            &&& !image && file ==> {
                &&& plan is Some
                &&& plan->0.media == msg.files[0].media->0
                &&& plan->0.aes_key is None
                &&& plan->0.media_type == "file"@
                &&& msg.files[0].file_name is Some ==> plan->0.file_name
                    == msg.files[0].file_name
                &&& msg.files[0].file_name is None ==> plan->0.file_name == Some("file.bin"@)
                &&& plan->0.format is None
            }
            &&& !image && !file && video ==> {
                &&& plan is Some
                &&& plan->0.media == msg.videos[0]->0
                &&& plan->0.aes_key is None
                &&& plan->0.media_type == "video"@
                &&& plan->0.file_name is None
                &&& plan->0.format is None
            }
            &&& !image && !file && !video && voice ==> {
                &&& plan is Some
                &&& plan->0.media == msg.voices[0]->0
                &&& plan->0.aes_key is None
                &&& plan->0.media_type == "voice"@
                &&& plan->0.file_name is None
                &&& plan->0.format == Some("silk"@)
            }
            &&& !image && !file && !video && !voice ==> plan is None
        }),
{
}

} // verus!
