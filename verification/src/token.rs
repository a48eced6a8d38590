//! Finding the bot token among environment variables and `.env` entries.
//!
//! The caller reads the process environment and the `.env` file and hands
//! over what it found; which token comes out, or which error, is decided
//! here.

use crate::text::same_text;
use vstd::prelude::*;
use vstd::std_specs::convert::FromSpecImpl;

verus! {

/// `dotenvy::Error`: why the `.env` file could not be found, read or parsed.
#[verifier::external_type_specification]
#[verifier::external_body]
pub struct ExDotenvError(dotenvy::Error);

/// What `dotenvy::Error::not_found` says of an error: that it is an I/O
/// error of the kind "not found".
pub uninterp spec fn is_not_found(error: dotenvy::Error) -> bool;

/// `dotenvy::Error::not_found`.
#[verifier::external_body]
fn not_found(error: &dotenvy::Error) -> (missing: bool)
    ensures
        missing == is_not_found(*error),
{
    error.not_found()
}

/// The name of the variable that holds the token.
pub const TOKEN_KEY: &'static str = "TELEGRAM_BOT_TOKEN";

/// One entry of a `.env` file: a variable and its value, or the error that
/// reading it ran into.
pub type DotenvEntry = Result<(String, String), dotenvy::Error>;

/// Why no token was loaded.
#[derive(Debug)]
pub enum LoadTokenError {
    /// The `.env` file is there but could not be read or parsed.
    DotEnv(dotenvy::Error),
    /// Neither the environment nor the `.env` file holds the token.
    NotFound,
}

/// The error that a failure of `dotenvy` becomes, given whether it reports a
/// missing file.
pub open spec fn classified(error: dotenvy::Error, missing: bool) -> LoadTokenError {
    if missing {
        LoadTokenError::NotFound
    } else {
        LoadTokenError::DotEnv(error)
    }
}

/// The first value that stands under [`TOKEN_KEY`], if any.
pub open spec fn token_among(vars: Seq<(String, String)>) -> Option<String>
    decreases vars.len(),
{
    if vars.len() == 0 {
        None
    } else if vars[0].0@ == TOKEN_KEY@ {
        Some(vars[0].1)
    } else {
        token_among(vars.drop_first())
    }
}

/// What the entries of a `.env` file give: the value of the first entry
/// under [`TOKEN_KEY`], unless an entry before it is an error; that error
/// then; and `NotFound` where the entries hold neither.
pub open spec fn token_in_entries(entries: Seq<DotenvEntry>) -> Result<String, LoadTokenError>
    decreases entries.len(),
{
    if entries.len() == 0 {
        Err(LoadTokenError::NotFound)
    } else {
        match entries[0] {
            Err(error) => Err(classified(error, is_not_found(error))),
            Ok((key, value)) => if key@ == TOKEN_KEY@ {
                Ok(value)
            } else {
                token_in_entries(entries.drop_first())
            },
        }
    }
}

/// What a `.env` file gives, where opening it may have failed.
pub open spec fn token_in_dotenv(dotenv: Result<Vec<DotenvEntry>, dotenvy::Error>) -> Result<
    String,
    LoadTokenError,
> {
    match dotenv {
        Ok(entries) => token_in_entries(entries@),
        Err(error) => Err(classified(error, is_not_found(error))),
    }
}

/// The token of the environment if it has one, else that of the `.env` file.
pub open spec fn loaded_token(
    env_vars: Seq<(String, String)>,
    dotenv: Result<Vec<DotenvEntry>, dotenvy::Error>,
) -> Result<String, LoadTokenError> {
    match token_among(env_vars) {
        Some(token) => Ok(token),
        None => token_in_dotenv(dotenv),
    }
}

impl LoadTokenError {
    /// The error for a failure of `dotenvy`: `NotFound` where the failure is
    /// a missing file, the failure itself otherwise.
    pub fn classify(error: dotenvy::Error, missing: bool) -> (classed: LoadTokenError)
        ensures
            classed == classified(error, missing),
    {
        if missing {
            LoadTokenError::NotFound
        } else {
            LoadTokenError::DotEnv(error)
        }
    }

    /// The words of the error.
    pub fn message(&self) -> (text: &'static str)
        ensures
            text@ == match *self {
                LoadTokenError::DotEnv(_) => "Failed to parse the .env file"@,
                LoadTokenError::NotFound =>
                    "Failed to find the bot token in environment variables or the .env file"@,
            },
    {
        match self {
            LoadTokenError::DotEnv(_) => "Failed to parse the .env file",
            LoadTokenError::NotFound =>
                "Failed to find the bot token in environment variables or the .env file",
        }
    }
}

impl From<dotenvy::Error> for LoadTokenError {
    fn from(value: dotenvy::Error) -> (classed: LoadTokenError) {
        let missing = not_found(&value);
        LoadTokenError::classify(value, missing)
    }
}

impl FromSpecImpl<dotenvy::Error> for LoadTokenError {
    open spec fn obeys_from_spec() -> bool {
        true
    }

    open spec fn from_spec(value: dotenvy::Error) -> LoadTokenError {
        classified(value, is_not_found(value))
    }
}

/// The token that the environment holds: the value of the first variable
/// named [`TOKEN_KEY`].
pub fn token_from_env(env_vars: Vec<(String, String)>) -> (token: Option<String>)
    ensures
        token == token_among(env_vars@),
{
    let ghost all = env_vars@;
    assert(all.skip(0) == all);
    for var in it: env_vars
        invariant
            it.seq() == all,
            token_among(all) == token_among(all.skip(it.index())),
    {
        assert(all.skip(it.index()).drop_first() == all.skip(it.index() + 1));
        let (key, value) = var;
        if same_text(key.as_str(), TOKEN_KEY) {
            return Some(value);
        }
    }
    None
}

/// The token that the `.env` file holds.
///
/// The entries are gone through in order. The first that is an error ends
/// the search with that error; the first that is named [`TOKEN_KEY`] ends it
/// with its value. A file that could not be opened gives its error, a file
/// without the token `NotFound`. An error of `dotenvy` that reports a missing
/// file counts as `NotFound`.
pub fn token_from_dotenv(dotenv: Result<Vec<DotenvEntry>, dotenvy::Error>) -> (outcome: Result<
    String,
    LoadTokenError,
>)
    ensures
        outcome == token_in_dotenv(dotenv),
{
    let entries = match dotenv {
        Ok(entries) => entries,
        Err(error) => {
            return Err(LoadTokenError::from(error));
        },
    };
    let ghost all = entries@;
    assert(all.skip(0) == all);
    for entry in it: entries
        invariant
            it.seq() == all,
            token_in_dotenv(dotenv) == token_in_entries(all),
            token_in_entries(all) == token_in_entries(all.skip(it.index())),
    {
        assert(all.skip(it.index()).drop_first() == all.skip(it.index() + 1));
        match entry {
            Err(error) => {
                return Err(LoadTokenError::from(error));
            },
            Ok((key, value)) => {
                if same_text(key.as_str(), TOKEN_KEY) {
                    return Ok(value);
                }
            },
        }
    }
    Err(LoadTokenError::NotFound)
}

/// The bot token: that of the environment if it holds one, else that of the
/// `.env` file. With a token in the environment the `.env` file is not looked
/// at, whatever is wrong with it.
pub fn load_token(
    env_vars: Vec<(String, String)>,
    dotenv: Result<Vec<DotenvEntry>, dotenvy::Error>,
) -> (outcome: Result<String, LoadTokenError>)
    ensures
        outcome == loaded_token(env_vars@, dotenv),
{
    match token_from_env(env_vars) {
        Some(token) => Ok(token),
        None => token_from_dotenv(dotenv),
    }
}

} // verus!
