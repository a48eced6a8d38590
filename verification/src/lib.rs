//! A chat bot that answers YouTube links with the same links, freed of the
//! `si` tracking parameter, and thanks those who reply to it with a
//! reaction.
//!
//! This library holds what the bot decides: which links a message refers
//! to, which of them are rewritten and how, what the reply says, when a
//! failed send is tried again, which handler a message goes to, what state
//! the dispatch loop is in, and where the bot's token comes from. Each
//! decision is a function on plain values with a contract that Verus proves.
//! Talking to the chat platform, sleeping and reading files are the
//! caller's part.
//!
//! URLs are those of the `url` crate. The few calls into it stand in
//! [`links`], each with a contract that is believed and not proved.

pub mod bot;
pub mod links;
pub mod message;
pub mod remove_si;
pub mod text;
pub mod token;
pub mod utils;
