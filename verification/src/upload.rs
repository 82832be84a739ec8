//! Uploading a file to the content network.
//!
//! A file is encrypted under a key of its own and announced to the service, which answers where
//! to put it; what the content network answers to the upload goes into the messages that refer
//! to the file.

use vstd::prelude::*;
use crate::encoding;
use crate::error;
use crate::error::{WeChatBotError, WeChatBotErrorView};
use crate::strings;
use crate::types::{Auth, AuthView, CDNMedia, CDNMediaView};

verus! {

/// A file under encryption: the key, its two spellings, and the ciphertext.
#[derive(Debug, PartialEq, Eq)]
pub struct Sealed {
    pub aes_key: Vec<u8>,
    pub aes_key_hex: String,
    pub aes_key_base64: String,
    pub ciphertext: Vec<u8>,
}

/// The contents of a [`Sealed`].
pub struct SealedView {
    pub aes_key: Seq<u8>,
    pub aes_key_hex: Seq<char>,
    pub aes_key_base64: Seq<char>,
    pub ciphertext: Seq<u8>,
}

impl DeepView for Sealed {
    type V = SealedView;

    open spec fn deep_view(&self) -> SealedView {
        SealedView {
            aes_key: self.aes_key@,
            aes_key_hex: self.aes_key_hex@,
            aes_key_base64: self.aes_key_base64@,
            ciphertext: self.ciphertext@,
        }
    }
}

/// How a file is announced to the service.
#[derive(Debug, PartialEq, Eq)]
pub struct GetUploadUrlParams {
    pub filekey: String,
    pub media_type: i32,
    pub to_user_id: String,
    pub rawsize: usize,
    pub rawfilemd5: String,
    pub filesize: usize,
    pub no_need_thumb: bool,
    pub aeskey: String,
}

/// The contents of a [`GetUploadUrlParams`].
pub struct GetUploadUrlParamsView {
    pub filekey: Seq<char>,
    pub media_type: int,
    pub to_user_id: Seq<char>,
    pub rawsize: int,
    pub rawfilemd5: Seq<char>,
    pub filesize: int,
    pub no_need_thumb: bool,
    pub aeskey: Seq<char>,
}

impl DeepView for GetUploadUrlParams {
    type V = GetUploadUrlParamsView;

    open spec fn deep_view(&self) -> GetUploadUrlParamsView {
        GetUploadUrlParamsView {
            filekey: self.filekey@,
            media_type: self.media_type as int,
            to_user_id: self.to_user_id@,
            rawsize: self.rawsize as int,
            rawfilemd5: self.rawfilemd5@,
            filesize: self.filesize as int,
            no_need_thumb: self.no_need_thumb,
            aeskey: self.aeskey@,
        }
    }
}

/// The service's answer: where to put the file.
#[derive(Debug, PartialEq, Eq)]
pub struct UploadUrlReply {
    pub upload_param: Option<String>,
    pub upload_full_url: Option<String>,
}

/// The contents of an [`UploadUrlReply`].
pub struct UploadUrlReplyView {
    pub upload_param: Option<Seq<char>>,
    pub upload_full_url: Option<Seq<char>>,
}

impl DeepView for UploadUrlReply {
    type V = UploadUrlReplyView;

    open spec fn deep_view(&self) -> UploadUrlReplyView {
        UploadUrlReplyView {
            upload_param: self.upload_param.deep_view(),
            upload_full_url: self.upload_full_url.deep_view(),
        }
    }
}

/// Where to put a file: at a URL that the service gave, or at one that is built from what it
/// gave.
#[derive(Debug, PartialEq, Eq)]
pub enum UploadTarget {
    FullUrl(String),
    Param { upload_param: String, filekey: String },
}

/// The contents of an [`UploadTarget`].
pub enum UploadTargetView {
    FullUrl(Seq<char>),
    Param { upload_param: Seq<char>, filekey: Seq<char> },
}

impl DeepView for UploadTarget {
    type V = UploadTargetView;

    open spec fn deep_view(&self) -> UploadTargetView {
        match self {
            UploadTarget::FullUrl(url) => UploadTargetView::FullUrl(url@),
            UploadTarget::Param { upload_param, filekey } => UploadTargetView::Param {
                upload_param: upload_param@,
                filekey: filekey@,
            },
        }
    }
}

/// A file that has been uploaded.
#[derive(Debug, PartialEq, Eq)]
pub struct UploadResult {
    pub media: CDNMedia,
    pub aes_key: Vec<u8>,
    pub encrypted_file_size: usize,
}

/// The contents of an [`UploadResult`].
pub struct UploadResultView {
    pub media: CDNMediaView,
    pub aes_key: Seq<u8>,
    pub encrypted_file_size: int,
}

impl DeepView for UploadResult {
    type V = UploadResultView;

    open spec fn deep_view(&self) -> UploadResultView {
        UploadResultView {
            media: self.media.deep_view(),
            aes_key: self.aes_key@,
            encrypted_file_size: self.encrypted_file_size as int,
        }
    }
}

/// An upload under way.
#[derive(Debug, PartialEq, Eq)]
pub struct Upload {
    pub auth: Auth,
    pub params: GetUploadUrlParams,
    pub sealed: Sealed,
}

/// The contents of an [`Upload`].
pub struct UploadView {
    pub auth: AuthView,
    pub params: GetUploadUrlParamsView,
    pub sealed: SealedView,
}

impl DeepView for Upload {
    type V = UploadView;

    open spec fn deep_view(&self) -> UploadView {
        UploadView {
            auth: self.auth.deep_view(),
            params: self.params.deep_view(),
            sealed: self.sealed.deep_view(),
        }
    }
}

/// How `data`, encrypted as `sealed`, is announced under the file key `key`.
pub open spec fn upload_params(
    data: Seq<u8>,
    user_id: Seq<char>,
    media_type: int,
    key: Seq<u8>,
    sealed: SealedView,
) -> GetUploadUrlParamsView {
    GetUploadUrlParamsView {
        filekey: encoding::hex_text(key),
        media_type,
        to_user_id: user_id,
        rawsize: data.len() as int,
        rawfilemd5: encoding::hex_text(encoding::md5_digest(data)),
        filesize: sealed.ciphertext.len() as int,
        no_need_thumb: true,
        aeskey: sealed.aes_key_hex,
    }
}

/// Where the file goes: to the full URL, if there is one that is not blank; else to the one
/// built from the upload parameter. An answer with neither is an error.
pub open spec fn upload_target(filekey: Seq<char>, reply: UploadUrlReplyView) -> Result<
    UploadTargetView,
    WeChatBotErrorView,
> {
    if reply.upload_full_url is Some && strings::trimmed(reply.upload_full_url->0).len() > 0 {
        Ok(UploadTargetView::FullUrl(reply.upload_full_url->0))
    } else {
        match reply.upload_param {
            Some(upload_param) => Ok(UploadTargetView::Param { upload_param, filekey }),
            None => Err(WeChatBotErrorView::Media("getuploadurl returned no upload_param"@)),
        }
    }
}

/// What is known of the file once the content network has answered `encrypt_query_param`.
pub open spec fn upload_result(
    sealed: SealedView,
    encrypt_query_param: Seq<char>,
) -> UploadResultView {
    UploadResultView {
        media: CDNMediaView {
            encrypt_query_param,
            aes_key: sealed.aes_key_base64,
            encrypt_type: Some(1i32),
            full_url: None,
        },
        aes_key: sealed.aes_key,
        encrypted_file_size: sealed.ciphertext.len() as int,
    }
}

/// Announces a file under a given file key, see [`upload_params`].
pub fn upload_with_key(
    auth: Auth,
    data: &[u8],
    user_id: &str,
    media_type: i32,
    key: &[u8; 16],
    sealed: Sealed,
) -> (upload: Upload)
    ensures
        upload.deep_view() == (UploadView {
            auth: auth.deep_view(),
            params: upload_params(
                data@,
                user_id@,
                media_type as int,
                key@,
                sealed.deep_view(),
            ),
            sealed: sealed.deep_view(),
        }),
{
    let digest = encoding::md5_hash(data);
    let params = GetUploadUrlParams {
        filekey: encoding::hex_encode(key.as_slice()),
        media_type,
        to_user_id: user_id.to_string(),
        rawsize: data.len(),
        rawfilemd5: encoding::hex_encode(digest.as_slice()),
        filesize: sealed.ciphertext.len(),
        no_need_thumb: true,
        aeskey: sealed.aes_key_hex.clone(),
    };
    Upload { auth, params, sealed }
}

/// Announces a file under a random file key.
pub fn cdn_upload(auth: Auth, data: &[u8], user_id: &str, media_type: i32, sealed: Sealed) -> (upload:
    Upload)
    ensures
        exists|key: [u8; 16]|
            upload.deep_view() == (UploadView {
                auth: auth.deep_view(),
                params: #[trigger] upload_params(
                    data@,
                    user_id@,
                    media_type as int,
                    key@,
                    sealed.deep_view(),
                ),
                sealed: sealed.deep_view(),
            }),
{
    let key = encoding::random_key();
    upload_with_key(auth, data, user_id, media_type, &key, sealed)
}

impl Upload {
    /// Finds where the file goes, see [`upload_target`].
    pub fn target(&self, reply: UploadUrlReply) -> (target: Result<UploadTarget, WeChatBotError>)
        ensures
            error::outcome(target) == upload_target(
                self.deep_view().params.filekey,
                reply.deep_view(),
            ),
    {
        if let Some(url) = reply.upload_full_url {
            if !strings::trim(url.as_str()).as_str().is_empty() {
                return Ok(UploadTarget::FullUrl(url));
            }
        }
        match reply.upload_param {
            Some(upload_param) => Ok(
                UploadTarget::Param { upload_param, filekey: self.params.filekey.clone() },
            ),
            None => Err(
                WeChatBotError::Media("getuploadurl returned no upload_param".to_string()),
            ),
        }
    }

    /// Ends the upload with the content network's answer, see [`upload_result`].
    pub fn finish(self, encrypt_query_param: String) -> (result: UploadResult)
        ensures
            result.deep_view() == upload_result(self.deep_view().sealed, encrypt_query_param@),
    {
        UploadResult {
            media: CDNMedia {
                encrypt_query_param,
                aes_key: self.sealed.aes_key_base64,
                encrypt_type: Some(1),
                full_url: None,
            },
            encrypted_file_size: self.sealed.ciphertext.len(),
            aes_key: self.sealed.aes_key,
        }
    }
}

/// The size that a message gives of an uploaded file is the one under which it was announced.
pub proof fn law_uploaded_size_is_announced(
    data: Seq<u8>,
    user_id: Seq<char>,
    media_type: int,
    key: Seq<u8>,
    sealed: SealedView,
    encrypt_query_param: Seq<char>,
)
    ensures
        upload_result(sealed, encrypt_query_param).encrypted_file_size == upload_params(
            data,
            user_id,
            media_type,
            key,
            sealed,
        ).filesize,
{
}

/// A full URL of nothing but white space counts as none.
pub proof fn law_blank_url_counts_as_none(
    filekey: Seq<char>,
    upload_param: Option<Seq<char>>,
    url: Seq<char>,
)
    requires
        forall|i: int| 0 <= i < url.len() ==> strings::is_white_space(#[trigger] url[i]),
    ensures
        upload_target(filekey, UploadUrlReplyView { upload_param, upload_full_url: Some(url) })
            == upload_target(filekey, UploadUrlReplyView { upload_param, upload_full_url: None }),
{
    strings::law_trimmed(url);
}

/// The file goes to the full URL that the service has given if anything but white space is in
/// it, whether or not there is an upload parameter too. Else it goes where the upload parameter
/// and the file key lead, and only without an upload parameter it is refused.
pub proof fn law_where_a_file_goes(filekey: Seq<char>, reply: UploadUrlReplyView)
    ensures
        ({
            let target = upload_target(filekey, reply);
            let usable = reply.upload_full_url is Some && exists|i: int|
                0 <= i < reply.upload_full_url->0.len() && !strings::is_white_space(
                    #[trigger] reply.upload_full_url->0[i],
                );
            &&& usable ==> target == Ok::<UploadTargetView, WeChatBotErrorView>(
                UploadTargetView::FullUrl(reply.upload_full_url->0),
            )
            &&& !usable && reply.upload_param is Some ==> target == Ok::<
                UploadTargetView,
                WeChatBotErrorView,
            >(UploadTargetView::Param { upload_param: reply.upload_param->0, filekey })
            &&& target is Err <==> !usable && reply.upload_param is None
            &&& target is Err ==> target == Err::<UploadTargetView, WeChatBotErrorView>(
                WeChatBotErrorView::Media("getuploadurl returned no upload_param"@),
            )
        }),
{
    if let Some(url) = reply.upload_full_url {
        strings::law_trimmed(url);
    }
}

/// A file is announced to the user it is for, under the file key in hexadecimal, with the size
/// and the digest of its data, the size of the ciphertext and the key in hexadecimal, and
/// without a wish for a thumbnail.
pub proof fn law_file_is_announced(
    data: Seq<u8>,
    user_id: Seq<char>,
    media_type: int,
    key: Seq<u8>,
    sealed: SealedView,
)
    ensures
        ({
            let params = upload_params(data, user_id, media_type, key, sealed);
            &&& params.filekey == encoding::hex_text(key)
            &&& params.media_type == media_type
            &&& params.to_user_id == user_id
            &&& params.rawsize == data.len()
            &&& params.rawfilemd5 == encoding::hex_text(encoding::md5_digest(data))
            &&& params.filesize == sealed.ciphertext.len()
            &&& params.no_need_thumb
            &&& params.aeskey == sealed.aes_key_hex
        }),
{
}

/// An uploaded file is referred to by what the content network has answered and by its key in
/// Base64, as encrypted; its size is that of the ciphertext.
pub proof fn law_uploaded_file_is_referred_to(
    sealed: SealedView,
    encrypt_query_param: Seq<char>,
)
    ensures
        ({
            let result = upload_result(sealed, encrypt_query_param);
            &&& result.media.encrypt_query_param == encrypt_query_param
            &&& result.media.aes_key == sealed.aes_key_base64
            &&& result.media.encrypt_type == Some(1i32)
            &&& result.media.full_url is None
            &&& result.aes_key == sealed.aes_key
            &&& result.encrypted_file_size == sealed.ciphertext.len()
        }),
{
}

} // verus!
