//! The chat message as the handlers see it.
//!
//! A message is held as plain values: what the handlers read of it, and
//! nothing of the platform's own types.

use url::Url;
use vstd::prelude::*;

verus! {

/// What a span of the message text is marked as.
#[derive(Debug)]
pub enum MessageEntityKind {
    /// The span is a link written out in the text.
    Url,
    /// The span is clickable text with a link attached to it.
    TextLink { url: Url },
    /// Any other marking: a mention, bold text and the like.
    Other,
}

/// One marked span of the message text, by byte offset and length.
#[derive(Debug)]
pub struct MessageEntity {
    pub kind: MessageEntityKind,
    pub offset: usize,
    pub length: usize,
}

/// The message that another message replies to, as far as it is read here.
#[derive(Debug)]
pub struct RepliedMessage {
    /// The author's user id, where the message has an author.
    pub from: Option<u64>,
}

/// An incoming chat message.
#[derive(Debug)]
pub struct Message {
    pub id: i32,
    pub chat_id: Option<i64>,
    pub text: Option<String>,
    pub entities: Option<Vec<MessageEntity>>,
    pub reply_to_message: Option<RepliedMessage>,
}

} // verus!
