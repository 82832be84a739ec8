//! The decisions of a WeChat bot client.
//!
//! The library does no input or output. It takes what a user of the bot asks for and what the
//! messaging service has answered as plain values, and says what to do next:
//!
//! - [`bot`]: the bot, what it remembers and what it answers to each call;
//! - [`login`]: logging in with a QR code and, if wanted, a pairing code;
//! - [`run`]: the loop that waits for messages;
//! - [`send`], [`items`] and [`json`]: what texts and files are sent as;
//! - [`text`]: splitting long texts;
//! - [`upload`] and [`download`]: files on the content network;
//! - [`files`] and [`paths`]: kinds of files, and where files are;
//! - [`clock`], [`encoding`], [`letters`] and [`strings`]: time stamps and spellings.

pub mod bot;
pub mod clock;
pub mod download;
pub mod encoding;
pub mod error;
pub mod files;
pub mod items;
pub mod json;
pub mod letters;
pub mod login;
pub mod paths;
pub mod run;
pub mod send;
pub mod strings;
pub mod text;
pub mod types;
pub mod upload;

pub use bot::{BotOptions, WeChatBot};
pub use error::WeChatBotError;
pub use types::SendContent;
