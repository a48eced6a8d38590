use youtube_no_si_redux::utils::{downcast_panic, ErrorChain, FullErrorDisplay};

fn chain(message: &str, causes: &[&str]) -> FullErrorDisplay<ErrorChain> {
    FullErrorDisplay(ErrorChain {
        message: message.to_string(),
        causes: causes.iter().map(|cause| cause.to_string()).collect(),
    })
}

#[test]
fn an_error_without_causes_is_one_line() {
    assert_eq!(chain("it broke", &[]).to_text(), "it broke\n");
    assert_eq!(chain("", &[]).to_text(), "\n");
}

#[test]
fn each_cause_gets_a_line_of_its_own() {
    assert_eq!(
        chain("A network error", &["connection reset", "broken pipe"]).to_text(),
        "A network error\nCaused by: connection reset\nCaused by: broken pipe\n"
    );
    assert_eq!(chain("top", &[""]).to_text(), "top\nCaused by: \n");
}

#[test]
fn the_wrapper_compares_and_copies_like_what_it_wraps() {
    assert_eq!(FullErrorDisplay(3), FullErrorDisplay(3));
    assert_ne!(FullErrorDisplay(3), FullErrorDisplay(4));
    let one = FullErrorDisplay('x');
    let two = one;
    assert_eq!(one, two);
    assert_eq!(one.0, 'x');
    assert_eq!(format!("{:?}", FullErrorDisplay(3)), "FullErrorDisplay(3)");
}

#[test]
fn a_string_slice_payload_comes_first() {
    let owned = "owned".to_string();
    assert_eq!(downcast_panic(Some("slice"), None), Some("slice"));
    assert_eq!(downcast_panic(Some("slice"), Some(&owned)), Some("slice"));
}

#[test]
fn an_owned_string_payload_comes_second() {
    let owned = "owned".to_string();
    assert_eq!(downcast_panic(None, Some(&owned)), Some("owned"));
}

#[test]
fn any_other_payload_has_no_message() {
    assert_eq!(downcast_panic(None, None), None);
}
