//! What can go wrong inside the library.

use vstd::prelude::*;

verus! {

/// An error that the bot itself finds. Failures of the network or of the file system are not
/// among these: whoever talks to them reports them.
#[derive(Clone, Debug, PartialEq, Eq)]
pub enum WeChatBotError {
    /// The bot is not logged in, or a login failed.
    Auth(String),
    /// No message of the user has been seen whose context a message to them could use.
    NoContext(String),
    /// An upload was refused.
    Media(String),
}

/// What a [`WeChatBotError`] says.
pub enum WeChatBotErrorView {
    Auth(Seq<char>),
    NoContext(Seq<char>),
    Media(Seq<char>),
}

impl DeepView for WeChatBotError {
    type V = WeChatBotErrorView;

    open spec fn deep_view(&self) -> WeChatBotErrorView {
        match self {
            WeChatBotError::Auth(text) => WeChatBotErrorView::Auth(text@),
            WeChatBotError::NoContext(user_id) => WeChatBotErrorView::NoContext(user_id@),
            WeChatBotError::Media(text) => WeChatBotErrorView::Media(text@),
        }
    }
}

/// What a call has come to: what its value holds, or what its error says.
pub open spec fn outcome<T: DeepView>(result: Result<T, WeChatBotError>) -> Result<
    T::V,
    WeChatBotErrorView,
> {
    match result {
        Ok(value) => Ok(value.deep_view()),
        Err(error) => Err(error.deep_view()),
    }
}

/// An outcome tells a value from an error, and which error it is.
pub proof fn law_outcomes<T: DeepView>(value: T, text: String)
    ensures
        outcome(Ok::<T, WeChatBotError>(value)) == Ok::<T::V, WeChatBotErrorView>(
            value.deep_view(),
        ),
        outcome(Err::<T, WeChatBotError>(WeChatBotError::Auth(text))) == Err::<
            T::V,
            WeChatBotErrorView,
        >(WeChatBotErrorView::Auth(text@)),
        outcome(Err::<T, WeChatBotError>(WeChatBotError::NoContext(text))) == Err::<
            T::V,
            WeChatBotErrorView,
        >(WeChatBotErrorView::NoContext(text@)),
        outcome(Err::<T, WeChatBotError>(WeChatBotError::Media(text))) == Err::<
            T::V,
            WeChatBotErrorView,
        >(WeChatBotErrorView::Media(text@)),
{
}

} // verus!
