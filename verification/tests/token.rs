use std::io;
use youtube_no_si_redux::token::{
    load_token, token_from_dotenv, token_from_env, DotenvEntry, LoadTokenError, TOKEN_KEY,
};

fn var(name: &str, value: &str) -> (String, String) {
    (name.to_string(), value.to_string())
}

fn entry(name: &str, value: &str) -> DotenvEntry {
    Ok(var(name, value))
}

fn missing_file() -> dotenvy::Error {
    dotenvy::Error::Io(io::Error::new(io::ErrorKind::NotFound, "no .env"))
}

fn unreadable_file() -> dotenvy::Error {
    dotenvy::Error::Io(io::Error::new(io::ErrorKind::PermissionDenied, "locked"))
}

fn bad_line() -> dotenvy::Error {
    dotenvy::Error::LineParse("KEY VALUE".to_string(), 3)
}

#[test]
fn the_token_variable_has_its_name() {
    assert_eq!(TOKEN_KEY, "TELEGRAM_BOT_TOKEN");
}

#[test]
fn the_environment_gives_the_first_value_under_the_name() {
    let vars = vec![
        var("PATH", "/bin"),
        var("TELEGRAM_BOT_TOKEN", "first"),
        var("HOME", "/root"),
        var("TELEGRAM_BOT_TOKEN", "second"),
    ];
    assert_eq!(token_from_env(vars), Some("first".to_string()));
}

#[test]
fn the_environment_may_hold_no_token() {
    assert_eq!(token_from_env(Vec::new()), None);
    let vars = vec![
        var("PATH", "/bin"),
        var("telegram_bot_token", "lower"),
        var("TELEGRAM_BOT_TOKEN_", "longer"),
        var("TELEGRAM_BOT_TOKE", "shorter"),
        var("", "TELEGRAM_BOT_TOKEN"),
    ];
    assert_eq!(token_from_env(vars), None);
}

#[test]
fn an_empty_token_is_a_token() {
    assert_eq!(token_from_env(vec![var("TELEGRAM_BOT_TOKEN", "")]), Some(String::new()));
}

#[test]
fn a_missing_dotenv_file_is_not_found() {
    assert!(matches!(LoadTokenError::from(missing_file()), LoadTokenError::NotFound));
    assert!(matches!(token_from_dotenv(Err(missing_file())), Err(LoadTokenError::NotFound)));
}

#[test]
fn another_failure_to_open_the_file_is_handed_on() {
    assert!(matches!(
        LoadTokenError::from(unreadable_file()),
        LoadTokenError::DotEnv(dotenvy::Error::Io(_))
    ));
    assert!(matches!(
        LoadTokenError::from(bad_line()),
        LoadTokenError::DotEnv(dotenvy::Error::LineParse(_, 3))
    ));
    assert!(matches!(
        token_from_dotenv(Err(unreadable_file())),
        Err(LoadTokenError::DotEnv(dotenvy::Error::Io(_)))
    ));
}

#[test]
fn classify_goes_by_the_flag_alone() {
    assert!(matches!(LoadTokenError::classify(bad_line(), true), LoadTokenError::NotFound));
    assert!(matches!(
        LoadTokenError::classify(missing_file(), false),
        LoadTokenError::DotEnv(dotenvy::Error::Io(_))
    ));
}

#[test]
fn the_file_gives_the_first_value_under_the_name() {
    let entries = vec![
        entry("OTHER", "x"),
        entry("TELEGRAM_BOT_TOKEN", "from-file"),
        entry("TELEGRAM_BOT_TOKEN", "later"),
    ];
    assert_eq!(token_from_dotenv(Ok(entries)).unwrap(), "from-file");
}

#[test]
fn a_file_without_the_token_is_not_found() {
    assert!(matches!(token_from_dotenv(Ok(Vec::new())), Err(LoadTokenError::NotFound)));
    assert!(matches!(
        token_from_dotenv(Ok(vec![entry("OTHER", "x"), entry("MORE", "y")])),
        Err(LoadTokenError::NotFound)
    ));
}

#[test]
fn an_error_before_the_token_ends_the_search() {
    let entries = vec![entry("OTHER", "x"), Err(bad_line()), entry("TELEGRAM_BOT_TOKEN", "late")];
    assert!(matches!(
        token_from_dotenv(Ok(entries)),
        Err(LoadTokenError::DotEnv(dotenvy::Error::LineParse(_, 3)))
    ));
    let entries = vec![Err(missing_file()), entry("TELEGRAM_BOT_TOKEN", "late")];
    assert!(matches!(token_from_dotenv(Ok(entries)), Err(LoadTokenError::NotFound)));
}

#[test]
fn an_error_after_the_token_is_never_seen() {
    let entries = vec![entry("TELEGRAM_BOT_TOKEN", "early"), Err(bad_line())];
    assert_eq!(token_from_dotenv(Ok(entries)).unwrap(), "early");
}

#[test]
fn the_environment_comes_before_the_file() {
    let vars = vec![var("TELEGRAM_BOT_TOKEN", "from-env")];
    let entries = vec![entry("TELEGRAM_BOT_TOKEN", "from-file")];
    assert_eq!(load_token(vars, Ok(entries)).unwrap(), "from-env");
}

#[test]
fn with_a_token_in_the_environment_a_broken_file_does_not_matter() {
    let vars = vec![var("TELEGRAM_BOT_TOKEN", "from-env")];
    assert_eq!(load_token(vars, Err(unreadable_file())).unwrap(), "from-env");
    let vars = vec![var("TELEGRAM_BOT_TOKEN", "from-env")];
    assert_eq!(load_token(vars, Ok(vec![Err(bad_line())])).unwrap(), "from-env");
}

#[test]
fn without_a_token_in_the_environment_the_file_decides() {
    let vars = vec![var("PATH", "/bin")];
    let entries = vec![entry("TELEGRAM_BOT_TOKEN", "from-file")];
    assert_eq!(load_token(vars, Ok(entries)).unwrap(), "from-file");
    assert!(matches!(
        load_token(vec![var("PATH", "/bin")], Err(missing_file())),
        Err(LoadTokenError::NotFound)
    ));
    assert!(matches!(
        load_token(Vec::new(), Ok(vec![Err(bad_line())])),
        Err(LoadTokenError::DotEnv(_))
    ));
    assert!(matches!(load_token(Vec::new(), Ok(Vec::new())), Err(LoadTokenError::NotFound)));
}

#[test]
fn load_errors_have_their_words() {
    assert_eq!(
        LoadTokenError::NotFound.message(),
        "Failed to find the bot token in environment variables or the .env file"
    );
    assert_eq!(LoadTokenError::DotEnv(bad_line()).message(), "Failed to parse the .env file");
}
