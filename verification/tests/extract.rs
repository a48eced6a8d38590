use url::Url;
use youtube_no_si_redux::bot::remove_si::{
    https_fallback, inspect_entities, inspect_entity, message_url_iterator, parse_leniently,
    try_parse_url, url_of_entity, Skipped,
};
use youtube_no_si_redux::links::UrlParseError;
use youtube_no_si_redux::message::{Message, MessageEntity, MessageEntityKind};

fn written(offset: usize, length: usize) -> MessageEntity {
    MessageEntity { kind: MessageEntityKind::Url, offset, length }
}

fn attached(target: &str, offset: usize, length: usize) -> MessageEntity {
    MessageEntity {
        kind: MessageEntityKind::TextLink { url: Url::parse(target).unwrap() },
        offset,
        length,
    }
}

fn other(offset: usize, length: usize) -> MessageEntity {
    MessageEntity { kind: MessageEntityKind::Other, offset, length }
}

fn message(text: Option<&str>, entities: Option<Vec<MessageEntity>>) -> Message {
    Message {
        id: 7,
        chat_id: Some(42),
        text: text.map(str::to_string),
        entities,
        reply_to_message: None,
    }
}

fn texts(urls: Vec<Url>) -> Vec<String> {
    urls.into_iter().map(String::from).collect()
}

#[test]
fn the_fallback_is_for_a_missing_scheme_only() {
    assert_eq!(
        https_fallback(UrlParseError::RelativeUrlWithoutBase, "youtu.be/abc"),
        Some("https://youtu.be/abc".to_string())
    );
    assert_eq!(
        https_fallback(UrlParseError::RelativeUrlWithoutBase, ""),
        Some("https://".to_string())
    );
    for error in [
        UrlParseError::EmptyHost,
        UrlParseError::IdnaError,
        UrlParseError::InvalidPort,
        UrlParseError::InvalidIpv4Address,
        UrlParseError::InvalidIpv6Address,
        UrlParseError::InvalidDomainCharacter,
        UrlParseError::RelativeUrlWithCannotBeABaseBase,
        UrlParseError::SetHostOnCannotBeABaseUrl,
        UrlParseError::Overflow,
        UrlParseError::Unknown,
    ] {
        assert_eq!(https_fallback(error, "youtu.be/abc"), None);
    }
}

#[test]
fn a_full_link_parses_as_it_is() {
    assert_eq!(
        try_parse_url("https://youtu.be/abc?si=1").map(String::from),
        Some("https://youtu.be/abc?si=1".to_string())
    );
    assert_eq!(
        try_parse_url("http://example.org").map(String::from),
        Some("http://example.org/".to_string())
    );
    assert_eq!(
        try_parse_url("HTTPS://YouTu.be/abc").map(String::from),
        Some("https://youtu.be/abc".to_string())
    );
}

#[test]
fn a_link_without_scheme_is_read_as_https() {
    assert_eq!(
        try_parse_url("youtu.be/abc?si=1").map(String::from),
        Some("https://youtu.be/abc?si=1".to_string())
    );
    assert_eq!(
        try_parse_url("www.youtube.com/watch?v=1").map(String::from),
        Some("https://www.youtube.com/watch?v=1".to_string())
    );
}

#[test]
fn what_parses_neither_way_gives_nothing() {
    assert_eq!(try_parse_url(""), None);
    assert_eq!(try_parse_url("https://"), None);
    assert_eq!(try_parse_url("https://exa mple.org/"), None);
    assert_eq!(try_parse_url("exa mple.org/path"), None);
    assert_eq!(try_parse_url("https://example.org:99999/"), None);
}

#[test]
fn a_text_link_gives_its_attached_link() {
    let entity = attached("https://youtu.be/abc?si=1", 0, 4);
    assert_eq!(
        url_of_entity("here", &entity).map(String::from),
        Some("https://youtu.be/abc?si=1".to_string())
    );
    // the span plays no part, not even one outside the text
    let entity = attached("https://youtu.be/abc?si=1", 100, 100);
    assert_eq!(
        url_of_entity("here", &entity).map(String::from),
        Some("https://youtu.be/abc?si=1".to_string())
    );
}

#[test]
fn a_written_link_is_cut_out_of_the_text_and_parsed() {
    let text = "see https://youtu.be/abc?si=1 now";
    assert_eq!(
        url_of_entity(text, &written(4, 25)).map(String::from),
        Some("https://youtu.be/abc?si=1".to_string())
    );
    let text = "see youtu.be/abc now";
    assert_eq!(
        url_of_entity(text, &written(4, 12)).map(String::from),
        Some("https://youtu.be/abc".to_string())
    );
}

#[test]
fn a_span_outside_the_text_gives_nothing() {
    let text = "see youtu.be/abc now";
    assert_eq!(url_of_entity(text, &written(4, 17)), None);
    assert_eq!(url_of_entity(text, &written(21, 1)), None);
    assert_eq!(url_of_entity(text, &written(usize::MAX, 2)), None);
    assert_eq!(url_of_entity(text, &written(2, usize::MAX)), None);
}

#[test]
fn a_span_that_cuts_a_character_gives_nothing() {
    // 'é' takes the bytes 1 and 2
    let text = "héy youtu.be/abc";
    assert_eq!(url_of_entity(text, &written(2, 5)), None);
    assert_eq!(
        url_of_entity(text, &written(5, 12)).map(String::from),
        Some("https://youtu.be/abc".to_string())
    );
}

#[test]
fn other_entities_give_nothing() {
    assert_eq!(url_of_entity("https://youtu.be/abc", &other(0, 20)), None);
}

#[test]
fn a_message_without_text_refers_to_no_links() {
    let entities = vec![attached("https://youtu.be/abc?si=1", 0, 1)];
    assert!(message_url_iterator(&message(None, Some(entities))).is_empty());
}

#[test]
fn a_message_without_entities_refers_to_no_links() {
    assert!(message_url_iterator(&message(Some("https://youtu.be/abc?si=1"), None)).is_empty());
    assert!(
        message_url_iterator(&message(Some("https://youtu.be/abc?si=1"), Some(vec![])))
            .is_empty()
    );
    assert!(message_url_iterator(&message(None, None)).is_empty());
}

#[test]
fn links_come_in_the_order_of_the_entities() {
    let text = "a https://youtu.be/one b youtu.be/two c";
    let entities = vec![
        written(25, 12),
        other(0, 1),
        attached("https://example.org/three", 23, 1),
        written(2, 20),
    ];
    assert_eq!(
        texts(message_url_iterator(&message(Some(text), Some(entities)))),
        vec![
            "https://youtu.be/two".to_string(),
            "https://example.org/three".to_string(),
            "https://youtu.be/one".to_string(),
        ]
    );
}

#[test]
fn a_link_that_occurs_twice_is_given_twice() {
    let text = "youtu.be/x youtu.be/x";
    let entities = vec![written(0, 10), written(11, 10), written(0, 10)];
    assert_eq!(
        texts(message_url_iterator(&message(Some(text), Some(entities)))),
        vec![
            "https://youtu.be/x".to_string(),
            "https://youtu.be/x".to_string(),
            "https://youtu.be/x".to_string(),
        ]
    );
}

#[test]
fn a_bad_entity_does_not_stop_the_others() {
    let text = "x youtu.be/ok y";
    let entities = vec![
        written(2, 400),
        written(usize::MAX, usize::MAX),
        written(0, 0),
        written(2, 11),
        written(14, 2),
    ];
    assert_eq!(
        texts(message_url_iterator(&message(Some(text), Some(entities)))),
        vec!["https://youtu.be/ok".to_string()]
    );
}

#[test]
fn parse_errors_come_back_by_their_names() {
    assert_eq!(parse_leniently("https://"), Err(UrlParseError::EmptyHost));
    assert_eq!(parse_leniently(""), Err(UrlParseError::EmptyHost));
    assert_eq!(parse_leniently("https://example.org:99999/"), Err(UrlParseError::InvalidPort));
    assert_eq!(parse_leniently("//example.org:99999/"), Err(UrlParseError::InvalidPort));
    assert_eq!(parse_leniently("https://[::zz]/"), Err(UrlParseError::InvalidIpv6Address));
    assert_eq!(parse_leniently("https://1.2.3.4.5.6.256/"), Err(UrlParseError::InvalidIpv4Address));
    assert_eq!(
        parse_leniently("foo://exa mple.org/"),
        Err(UrlParseError::InvalidDomainCharacter)
    );
    assert_eq!(parse_leniently("https://exa mple.org/"), Err(UrlParseError::IdnaError));
    assert_eq!(parse_leniently("exa mple.org"), Err(UrlParseError::IdnaError));
    assert_eq!(parse_leniently("https://xn--55555577/"), Err(UrlParseError::IdnaError));
}

#[test]
fn parse_leniently_gives_the_link_where_there_is_one() {
    assert_eq!(
        parse_leniently("youtu.be/abc").map(String::from),
        Ok("https://youtu.be/abc".to_string())
    );
    assert_eq!(
        parse_leniently("ftp://example.org/file").map(String::from),
        Ok("ftp://example.org/file".to_string())
    );
    assert_eq!(
        parse_leniently("mailto:someone@example.org").map(String::from),
        Ok("mailto:someone@example.org".to_string())
    );
    // a host with a port but no scheme has its host taken for the scheme
    assert_eq!(
        parse_leniently("youtu.be:443/abc?si=1").map(String::from),
        Ok("youtu.be:443/abc?si=1".to_string())
    );
}

#[test]
fn an_entity_says_why_it_gives_no_link() {
    let text = "see youtu.be/abc and https://exa mple.org now";
    assert_eq!(inspect_entity(text, &other(0, 3)), Err(Skipped::NoLink));
    assert_eq!(inspect_entity(text, &written(4, 400)), Err(Skipped::SpanOutsideText));
    assert_eq!(inspect_entity(text, &written(usize::MAX, 2)), Err(Skipped::SpanOutsideText));
    assert_eq!(
        inspect_entity(text, &written(21, 20)),
        Err(Skipped::NotParsed(UrlParseError::IdnaError))
    );
    assert_eq!(inspect_entity(text, &written(0, 0)), Err(Skipped::NotParsed(UrlParseError::EmptyHost)));
    assert_eq!(inspect_entity("héy", &written(2, 1)), Err(Skipped::SpanOutsideText));
}

#[test]
fn an_entity_with_a_link_hands_it_out() {
    let text = "see youtu.be/abc now";
    assert_eq!(
        inspect_entity(text, &written(4, 12)).map(String::from),
        Ok("https://youtu.be/abc".to_string())
    );
    assert_eq!(
        inspect_entity(text, &attached("https://example.org/x", 0, 3)).map(String::from),
        Ok("https://example.org/x".to_string())
    );
}

#[test]
fn every_entity_of_a_message_has_its_outcome() {
    let text = "x youtu.be/ok y";
    let entities = vec![
        written(2, 400),
        other(0, 1),
        written(2, 11),
        attached("https://example.org/three", 0, 1),
        written(14, 2),
    ];
    let found = message(Some(text), Some(entities));
    let outcomes: Vec<Result<String, Skipped>> =
        inspect_entities(&found).into_iter().map(|outcome| outcome.map(String::from)).collect();
    assert_eq!(
        outcomes,
        vec![
            Err(Skipped::SpanOutsideText),
            Err(Skipped::NoLink),
            Ok("https://youtu.be/ok".to_string()),
            Ok("https://example.org/three".to_string()),
            Err(Skipped::SpanOutsideText),
        ]
    );
    let links: Vec<String> = outcomes.into_iter().filter_map(Result::ok).collect();
    assert_eq!(links, texts(message_url_iterator(&found)));
}

#[test]
fn a_message_without_text_or_entities_has_no_outcomes() {
    assert!(inspect_entities(&message(None, Some(vec![other(0, 1)]))).is_empty());
    assert!(inspect_entities(&message(Some("youtu.be/x"), None)).is_empty());
    assert!(inspect_entities(&message(Some("youtu.be/x"), Some(vec![]))).is_empty());
}
