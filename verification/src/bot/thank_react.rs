//! The handler that reacts to replies to the bot's own messages.

use crate::bot::HandlerError;
use crate::message::Message;
use vstd::prelude::*;
use vstd::string::*;

verus! {

/// The emoji that the bot reacts with.
pub open spec fn reaction_emoji() -> Seq<char> {
    "\u{1F498}"@
}

/// The message replies to a message whose author is `me`.
pub open spec fn replies_to(me: u64, message: Message) -> bool {
    match message.reply_to_message {
        Some(origin) => origin.from == Some(me),
        None => false,
    }
}

/// A reaction to set on a message in a chat.
#[derive(Debug)]
pub struct Reaction {
    pub chat_id: i64,
    pub message_id: i32,
    pub emoji: String,
}

/// Whether the reaction handler applies: the message is a reply, and the
/// message it replies to was written by the bot itself.
pub fn thank_react_filter(me: u64, message: &Message) -> (applies: bool)
    ensures
        applies == replies_to(me, *message),
{
    match &message.reply_to_message {
        Some(origin) => match origin.from {
            Some(author) => author == me,
            None => false,
        },
        None => false,
    }
}

/// The reaction that the handler sets: the one fixed emoji, on the message
/// that was handed in, in its chat. A message without a chat id is an error.
pub fn thank_react(message: &Message) -> (outcome: Result<Reaction, HandlerError>)
    ensures
        match outcome {
            Ok(reaction) => {
                &&& message.chat_id == Some(reaction.chat_id)
                &&& reaction.message_id == message.id
                &&& reaction.emoji@ == reaction_emoji()
            },
            Err(error) => message.chat_id is None && error == HandlerError::NoChatToReactIn,
        },
{
    match message.chat_id {
        Some(chat_id) => Ok(
            Reaction { chat_id, message_id: message.id, emoji: String::from_str("\u{1F498}") },
        ),
        None => Err(HandlerError::NoChatToReactIn),
    }
}

} // verus!
