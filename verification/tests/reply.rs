use url::Url;
use youtube_no_si_redux::bot::remove_si::{clean_urls, compose_reply, link_texts, remove_si};
use youtube_no_si_redux::bot::HandlerError;
use youtube_no_si_redux::message::{Message, MessageEntity, MessageEntityKind};

fn links(texts: &[&str]) -> Vec<Url> {
    texts.iter().map(|text| Url::parse(text).unwrap()).collect()
}

fn strings(texts: &[&str]) -> Vec<String> {
    texts.iter().map(|text| text.to_string()).collect()
}

fn attached(target: &str) -> MessageEntity {
    MessageEntity {
        kind: MessageEntityKind::TextLink { url: Url::parse(target).unwrap() },
        offset: 0,
        length: 1,
    }
}

fn message_with(chat_id: Option<i64>, text: &str, entities: Vec<MessageEntity>) -> Message {
    Message {
        id: 314,
        chat_id,
        text: Some(text.to_string()),
        entities: Some(entities),
        reply_to_message: None,
    }
}

#[test]
fn clean_urls_keeps_what_the_stripper_rewrites() {
    let cleaned = clean_urls(links(&[
        "https://example.org/a?si=1",
        "https://youtu.be/one?si=1",
        "https://youtu.be/two",
        "https://www.youtube.com/watch?v=three&si=3",
        "https://youtu.be/one?si=1",
    ]));
    assert_eq!(
        cleaned,
        links(&[
            "https://youtu.be/one",
            "https://www.youtube.com/watch?v=three",
            "https://youtu.be/one",
        ])
    );
    assert!(clean_urls(Vec::new()).is_empty());
    assert!(clean_urls(links(&["https://youtu.be/two", "https://example.org/?si=1"])).is_empty());
}

#[test]
fn link_texts_gives_the_serializations() {
    assert_eq!(
        link_texts(&links(&["https://youtu.be/one?t=1", "HTTP://Example.ORG"])),
        strings(&["https://youtu.be/one?t=1", "http://example.org/"])
    );
    assert!(link_texts(&Vec::new()).is_empty());
}

#[test]
fn no_links_no_reply() {
    assert_eq!(compose_reply(&Vec::new()), None);
}

#[test]
fn one_link_gets_the_singular_header() {
    assert_eq!(
        compose_reply(&strings(&["https://youtu.be/one"])),
        Some("The link without tracking:\nhttps://youtu.be/one\n".to_string())
    );
}

#[test]
fn more_links_get_the_plural_header() {
    assert_eq!(
        compose_reply(&strings(&["https://youtu.be/one", "https://youtu.be/two"])),
        Some(
            "The links without tracking:\nhttps://youtu.be/one\nhttps://youtu.be/two\n"
                .to_string()
        )
    );
    assert_eq!(
        compose_reply(&strings(&["c", "a", "b", "a"])),
        Some("The links without tracking:\nc\na\nb\na\n".to_string())
    );
}

#[test]
fn two_qualifying_links_are_answered_in_message_order() {
    let message = message_with(
        Some(-1001),
        "ab",
        vec![
            attached("https://youtu.be/FiwMTquj-rQ?si=KuczOyCr1s5_Ou0r&t=173"),
            attached("https://www.youtube.com/watch?v=3foYyPDp0Ho&si=some_fake_si_i_made_up"),
        ],
    );
    let reply = remove_si(&message).unwrap().unwrap();
    assert_eq!(reply.chat_id, -1001);
    assert_eq!(reply.reply_to, 314);
    assert!(reply.text.starts_with("The links without tracking:\n"));
    assert_eq!(
        reply.text,
        "The links without tracking:\nhttps://youtu.be/FiwMTquj-rQ?t=173\nhttps://www.youtube.com/watch?v=3foYyPDp0Ho\n"
    );
}

#[test]
fn one_qualifying_link_among_others_is_answered_alone() {
    let text = "look: youtu.be/0FwBHrVuMJc?si=drdl-LZXYJzZPIce and https://example.org/?si=1";
    let message = message_with(
        Some(5),
        text,
        vec![
            MessageEntity { kind: MessageEntityKind::Url, offset: 6, length: 40 },
            MessageEntity { kind: MessageEntityKind::Url, offset: 51, length: 25 },
            attached("https://youtu.be/clean"),
        ],
    );
    let reply = remove_si(&message).unwrap().unwrap();
    assert_eq!(reply.chat_id, 5);
    assert_eq!(reply.reply_to, 314);
    assert_eq!(reply.text, "The link without tracking:\nhttps://youtu.be/0FwBHrVuMJc\n");
}

#[test]
fn no_qualifying_link_means_nothing_is_sent() {
    let message = message_with(
        Some(5),
        "x",
        vec![attached("https://example.org/?si=1"), attached("https://youtu.be/clean?t=1")],
    );
    assert!(matches!(remove_si(&message), Ok(None)));
    let message = message_with(Some(5), "no links here", Vec::new());
    assert!(matches!(remove_si(&message), Ok(None)));
    let message =
        Message { id: 1, chat_id: Some(5), text: None, entities: None, reply_to_message: None };
    assert!(matches!(remove_si(&message), Ok(None)));
}

#[test]
fn a_message_without_chat_is_an_error_whatever_it_holds() {
    let message = message_with(None, "x", vec![attached("https://youtu.be/one?si=1")]);
    assert!(matches!(remove_si(&message), Err(HandlerError::NoChatToReplyIn)));
    let message = message_with(None, "x", Vec::new());
    assert!(matches!(remove_si(&message), Err(HandlerError::NoChatToReplyIn)));
}

#[test]
fn handler_errors_have_their_words() {
    assert_eq!(HandlerError::NoChatToReplyIn.message(), "failed to get chat id");
    assert_eq!(HandlerError::NoChatToReactIn.message(), "No chat id for message");
}
