//! The handler that answers a message with its links, cleaned.
//!
//! It finds the links that a message refers to, strips the tracking
//! parameter from those that carry it, and composes the reply.

use crate::bot::HandlerError;
use crate::links::{parse, parsed_url, text, url_text, UrlParseError};
use crate::message::{Message, MessageEntity, MessageEntityKind};
use crate::remove_si::{stripped, url_without_si};
use crate::text::{byte_slice, slice_span};
use url::Url;
use vstd::prelude::*;
use vstd::string::*;

verus! {

/// The text under the scheme that a link without one is taken to mean.
pub open spec fn with_https(text: Seq<char>) -> Seq<char> {
    "https://"@ + text
}

/// What parsing makes of a piece of text when text that fails for want of a
/// scheme is read once more as an `https` link: the link, or the error of
/// the last attempt.
pub open spec fn lenient_outcome(text: Seq<char>) -> Result<Url, UrlParseError> {
    match parsed_url(text) {
        Err(UrlParseError::RelativeUrlWithoutBase) => parsed_url(with_https(text)),
        outcome => outcome,
    }
}

/// The link that a piece of text stands for, if any.
pub open spec fn lenient_parse(text: Seq<char>) -> Option<Url> {
    match lenient_outcome(text) {
        Ok(url) => Some(url),
        Err(_) => None,
    }
}

/// Why an entity gives no link.
#[derive(Debug, Clone, Copy, PartialEq, Eq)]
pub enum Skipped {
    /// The entity marks no link.
    NoLink,
    /// The span of the entity does not lie inside the text, or cuts a
    /// character in two.
    SpanOutsideText,
    /// The text of the span does not parse as a link.
    NotParsed(UrlParseError),
}

/// What one entity of a message gives: the link that it refers to, or why it
/// gives none.
pub open spec fn entity_outcome(text: Seq<char>, entity: MessageEntity) -> Result<Url, Skipped> {
    match entity.kind {
        MessageEntityKind::Url => match byte_slice(
            text,
            entity.offset as int,
            entity.offset + entity.length,
        ) {
            Some(part) => match lenient_outcome(part) {
                Ok(url) => Ok(url),
                Err(error) => Err(Skipped::NotParsed(error)),
            },
            None => Err(Skipped::SpanOutsideText),
        },
        MessageEntityKind::TextLink { url } => Ok(url),
        MessageEntityKind::Other => Err(Skipped::NoLink),
    }
}

/// The link that one entity of a message refers to, if any.
pub open spec fn entity_url(text: Seq<char>, entity: MessageEntity) -> Option<Url> {
    match entity_outcome(text, entity) {
        Ok(url) => Some(url),
        Err(_) => None,
    }
}

/// What the entities of a message give, one outcome for each, in their
/// order. A message without text or without entities has none.
pub open spec fn message_outcomes(message: Message) -> Seq<Result<Url, Skipped>> {
    match (message.text, message.entities) {
        (Some(text), Some(entities)) => entities@.map_values(
            |entity: MessageEntity| entity_outcome(text@, entity),
        ),
        _ => Seq::empty(),
    }
}

/// The links that a message refers to, in the order of its entities. A
/// message without text or without entities refers to none.
pub open spec fn message_urls(message: Message) -> Seq<Url> {
    match (message.text, message.entities) {
        (Some(text), Some(entities)) => entities@.filter_map(
            |entity: MessageEntity| entity_url(text@, entity),
        ),
        _ => Seq::empty(),
    }
}

/// The links that come out of the stripper, in their order; those that it
/// leaves alone are dropped.
pub open spec fn cleaned_urls(urls: Seq<Url>) -> Seq<Url> {
    urls.filter_map(|url: Url| stripped(url))
}

/// The texts of the links.
pub open spec fn url_texts(urls: Seq<Url>) -> Seq<Seq<char>> {
    urls.map_values(|url: Url| url_text(url))
}

/// The strings as character sequences.
pub open spec fn texts_view(texts: Seq<String>) -> Seq<Seq<char>> {
    texts.map_values(|text: String| text@)
}

/// The first line of a reply: singular for one link, plural for more.
pub open spec fn reply_header(count: nat) -> Seq<char> {
    if count == 1 {
        "The link without tracking:\n"@
    } else {
        "The links without tracking:\n"@
    }
}

/// The reply to a message with these cleaned links: the header, then each
/// link on a line of its own. With no link there is no reply.
pub open spec fn reply_text(links: Seq<Seq<char>>) -> Option<Seq<char>> {
    if links.len() == 0 {
        None
    } else {
        Some(reply_header(links.len()) + links.flat_map(|link: Seq<char>| link + "\n"@))
    }
}

/// The reply that the handler owes to a message, if any.
pub open spec fn reply_to_message(message: Message) -> Option<Seq<char>> {
    reply_text(url_texts(cleaned_urls(message_urls(message))))
}

/// A text to send as a reply to a message in a chat.
#[derive(Debug)]
pub struct Reply {
    pub chat_id: i64,
    pub reply_to: i32,
    pub text: String,
}

/// The link of an outcome, if it holds one.
pub open spec fn found(outcome: Result<Url, Skipped>) -> Option<Url> {
    match outcome {
        Ok(url) => Some(url),
        Err(_) => None,
    }
}

/// The links of a message are the links among the outcomes of its entities,
/// in the same order: each entity either gives its link or is accounted for
/// by a reason.
pub proof fn lemma_links_are_the_found_outcomes(text: Seq<char>, entities: Seq<MessageEntity>)
    ensures
        entities.filter_map(|entity: MessageEntity| entity_url(text, entity))
            == entities.map_values(|entity: MessageEntity| entity_outcome(text, entity)).filter_map(
            |outcome: Result<Url, Skipped>| found(outcome),
        ),
    decreases entities.len(),
{
    let inspect = |entity: MessageEntity| entity_outcome(text, entity);
    if entities.len() > 0 {
        lemma_links_are_the_found_outcomes(text, entities.drop_last());
        assert(entities.map_values(inspect).drop_last() == entities.drop_last().map_values(
            inspect,
        ));
    }
}

/// The links of a message come in the order of its entities, and none is
/// left out for having come before: wherever the entities are cut in two,
/// the links of the whole are those of the first part, then those of the
/// second.
pub proof fn lemma_links_keep_entity_order(
    text: Seq<char>,
    front: Seq<MessageEntity>,
    back: Seq<MessageEntity>,
)
    ensures
        (front + back).filter_map(|entity: MessageEntity| entity_url(text, entity))
            == front.filter_map(|entity: MessageEntity| entity_url(text, entity))
            + back.filter_map(|entity: MessageEntity| entity_url(text, entity)),
    decreases back.len(),
{
    if back.len() == 0 {
        assert(front + back == front);
    } else {
        lemma_links_keep_entity_order(text, front, back.drop_last());
        assert((front + back).drop_last() == front + back.drop_last());
    }
}

/// What to parse after a first attempt has failed: the same text under
/// `https://` where the failure was a missing scheme, nothing otherwise.
pub fn https_fallback(error: UrlParseError, text: &str) -> (retry: Option<String>)
    ensures
        match retry {
            Some(retry) => error == UrlParseError::RelativeUrlWithoutBase && retry@ == with_https(
                text@,
            ),
            None => error != UrlParseError::RelativeUrlWithoutBase,
        },
{
    match error {
        UrlParseError::RelativeUrlWithoutBase => {
            let mut retry = String::from_str("https://");
            retry.append(text);
            Some(retry)
        },
        _ => None,
    }
}

/// Parses a piece of message text as a link. Text without a scheme is tried
/// again as an `https` link; the error, if any, is that of the last attempt.
pub fn parse_leniently(s: &str) -> (outcome: Result<Url, UrlParseError>)
    ensures
        outcome == lenient_outcome(s@),
{
    match parse(s) {
        Ok(url) => Ok(url),
        Err(error) => match https_fallback(error, s) {
            Some(retry) => parse(retry.as_str()),
            None => Err(error),
        },
    }
}

/// The link that a piece of message text stands for, if it parses.
///
/// Text without a scheme is tried again as an `https` link.
pub fn try_parse_url(s: &str) -> (url: Option<Url>)
    ensures
        url == lenient_parse(s@),
{
    match parse_leniently(s) {
        Ok(url) => Some(url),
        Err(_) => None,
    }
}

/// What one entity gives: the attached link of a text link, the parsed span
/// of a written-out link, or the reason why there is none.
pub fn inspect_entity(text: &str, entity: &MessageEntity) -> (outcome: Result<Url, Skipped>)
    ensures
        outcome == entity_outcome(text@, *entity),
{
    match &entity.kind {
        MessageEntityKind::Url => match slice_span(text, entity.offset, entity.length) {
            Some(part) => match parse_leniently(part) {
                Ok(url) => Ok(url),
                Err(error) => Err(Skipped::NotParsed(error)),
            },
            None => Err(Skipped::SpanOutsideText),
        },
        MessageEntityKind::TextLink { url } => Ok(url.clone()),
        MessageEntityKind::Other => Err(Skipped::NoLink),
    }
}

/// The link that one entity refers to: the attached link of a text link, the
/// parsed span of a written-out link, nothing for any other entity. A span
/// that does not lie inside the text gives nothing.
pub fn url_of_entity(text: &str, entity: &MessageEntity) -> (url: Option<Url>)
    ensures
        url == entity_url(text@, *entity),
{
    match inspect_entity(text, entity) {
        Ok(url) => Some(url),
        Err(_) => None,
    }
}

/// What each entity of a message gives, in the order of the entities: its
/// link, or why it was passed over. This is for whoever wants to report the
/// entities that [`message_url_iterator`] leaves out.
pub fn inspect_entities(m: &Message) -> (outcomes: Vec<Result<Url, Skipped>>)
    ensures
        outcomes@ == message_outcomes(*m),
{
    let mut outcomes: Vec<Result<Url, Skipped>> = Vec::new();
    let text = match &m.text {
        Some(text) => text,
        None => {
            return outcomes;
        },
    };
    let entities = match &m.entities {
        Some(entities) => entities,
        None => {
            return outcomes;
        },
    };
    let mut i: usize = 0;
    while i < entities.len()
        invariant
            i <= entities@.len(),
            outcomes@ == entities@.take(i as int).map_values(
                |entity: MessageEntity| entity_outcome(text@, entity),
            ),
        decreases entities@.len() - i,
    {
        outcomes.push(inspect_entity(text.as_str(), &entities[i]));
        i += 1;
    }
    outcomes
}

/// The links that a message refers to, in the order of its entities.
/// Entities that give no link are passed over, and no link is left out for
/// having occurred before.
pub fn message_url_iterator(m: &Message) -> (urls: Vec<Url>)
    ensures
        urls@ == message_urls(*m),
{
    let mut urls: Vec<Url> = Vec::new();
    let text = match &m.text {
        Some(text) => text,
        None => {
            return urls;
        },
    };
    let entities = match &m.entities {
        Some(entities) => entities,
        None => {
            return urls;
        },
    };
    let ghost link = |entity: MessageEntity| entity_url(text@, entity);
    let mut i: usize = 0;
    while i < entities.len()
        invariant
            i <= entities@.len(),
            link == |entity: MessageEntity| entity_url(text@, entity),
            urls@ == entities@.take(i as int).filter_map(link),
        decreases entities@.len() - i,
    {
        proof {
            entities@.lemma_filter_map_take_succ(link, i as int);
        }
        match url_of_entity(text.as_str(), &entities[i]) {
            Some(url) => urls.push(url),
            None => {},
        }
        i += 1;
    }
    assert(entities@.take(entities@.len() as int) == entities@);
    urls
}

/// The links that the stripper rewrites, rewritten, in their order.
pub fn clean_urls(urls: Vec<Url>) -> (cleaned: Vec<Url>)
    ensures
        cleaned@ == cleaned_urls(urls@),
{
    let ghost all = urls@;
    let ghost strip = |url: Url| stripped(url);
    let mut cleaned: Vec<Url> = Vec::new();
    for url in it: urls
        invariant
            it.seq() == all,
            strip == |url: Url| stripped(url),
            cleaned@ == all.take(it.index()).filter_map(strip),
    {
        proof {
            all.lemma_filter_map_take_succ(strip, it.index());
        }
        match url_without_si(url) {
            Some(url) => cleaned.push(url),
            None => {},
        }
    }
    assert(all.take(all.len() as int) == all);
    cleaned
}

/// The texts of the links, in their order.
pub fn link_texts(urls: &Vec<Url>) -> (texts: Vec<String>)
    ensures
        texts_view(texts@) == url_texts(urls@),
{
    let mut texts: Vec<String> = Vec::new();
    let mut i: usize = 0;
    while i < urls.len()
        invariant
            i <= urls@.len(),
            texts_view(texts@) == url_texts(urls@.take(i as int)),
        decreases urls@.len() - i,
    {
        let ghost before = texts@;
        texts.push(String::from_str(text(&urls[i])));
        assert(texts_view(texts@) == texts_view(before).push(url_text(urls@[i as int])));
        i += 1;
    }
    texts
}

/// The reply that lists the cleaned links: a header, singular for one link
/// and plural for more, then each link on a line of its own, in order.
/// `None` where there is no link: nothing is to be sent then.
pub fn compose_reply(links: &Vec<String>) -> (reply: Option<String>)
    ensures
        match reply {
            Some(reply) => reply_text(texts_view(links@)) == Some(reply@),
            None => reply_text(texts_view(links@)) is None,
        },
{
    if links.len() == 0 {
        return None;
    }
    let ghost all = texts_view(links@);
    let ghost line = |link: Seq<char>| link + "\n"@;
    let mut reply = String::from_str(
        if links.len() == 1 {
            "The link without tracking:\n"
        } else {
            "The links without tracking:\n"
        },
    );
    let mut i: usize = 0;
    while i < links.len()
        invariant
            i <= links@.len(),
            all == texts_view(links@),
            line == |link: Seq<char>| link + "\n"@,
            reply@ == reply_header(all.len()) + all.take(i as int).flat_map(line),
        decreases links@.len() - i,
    {
        proof {
            all.lemma_flat_map_take_append(line, i as int);
        }
        reply.append(links[i].as_str());
        reply.append("\n");
        i += 1;
    }
    assert(all.take(all.len() as int) == all);
    Some(reply)
}

/// What the handler does with a message: the reply to send, if any.
///
/// A message without a chat id is an error. Otherwise the links that the
/// message refers to are cleaned; with none left nothing is sent, and else
/// the reply goes to the message's chat and answers the message itself.
pub fn remove_si(message: &Message) -> (outcome: Result<Option<Reply>, HandlerError>)
    ensures
        match outcome {
            Err(error) => message.chat_id is None && error == HandlerError::NoChatToReplyIn,
            Ok(None) => message.chat_id is Some && reply_to_message(*message) is None,
            Ok(Some(reply)) => {
                &&& message.chat_id == Some(reply.chat_id)
                &&& reply.reply_to == message.id
                &&& reply_to_message(*message) == Some(reply.text@)
            },
        },
{
    let chat_id = match message.chat_id {
        Some(chat_id) => chat_id,
        None => {
            return Err(HandlerError::NoChatToReplyIn);
        },
    };
    let cleaned = clean_urls(message_url_iterator(message));
    let links = link_texts(&cleaned);
    match compose_reply(&links) {
        Some(text) => Ok(Some(Reply { chat_id, reply_to: message.id, text })),
        None => Ok(None),
    }
}

} // verus!
