//! Small helpers: errors in full, and the message of a panic.

use vstd::prelude::*;
use vstd::string::*;

verus! {

/// Shows an error together with the errors that caused it.
#[derive(Debug, Clone, Copy, PartialEq, Eq, Hash)]
pub struct FullErrorDisplay<E>(pub E);

/// An error as plain text: its own message, and the messages of the errors
/// behind it, the nearest cause first.
#[derive(Debug)]
pub struct ErrorChain {
    pub message: String,
    pub causes: Vec<String>,
}

/// The strings as character sequences.
pub open spec fn messages_view(messages: Seq<String>) -> Seq<Seq<char>> {
    messages.map_values(|message: String| message@)
}

/// An error in full: its message on the first line, then one line for each
/// cause, marked as such.
pub open spec fn full_text(message: Seq<char>, causes: Seq<Seq<char>>) -> Seq<char> {
    message + "\n"@ + causes.flat_map(|cause: Seq<char>| "Caused by: "@ + cause + "\n"@)
}

impl FullErrorDisplay<ErrorChain> {
    /// The error in full, as text.
    pub fn to_text(&self) -> (text: String)
        ensures
            text@ == full_text(self.0.message@, messages_view(self.0.causes@)),
    {
        let causes = &self.0.causes;
        let ghost all = messages_view(causes@);
        let ghost line = |cause: Seq<char>| "Caused by: "@ + cause + "\n"@;
        let mut text = String::from_str(self.0.message.as_str());
        text.append("\n");
        let mut i: usize = 0;
        while i < causes.len()
            invariant
                i <= causes@.len(),
                all == messages_view(causes@),
                line == |cause: Seq<char>| "Caused by: "@ + cause + "\n"@,
                text@ == self.0.message@ + "\n"@ + all.take(i as int).flat_map(line),
            decreases causes@.len() - i,
        {
            proof {
                all.lemma_flat_map_take_append(line, i as int);
            }
            text.append("Caused by: ");
            text.append(causes[i].as_str());
            text.append("\n");
            i += 1;
        }
        assert(all.take(all.len() as int) == all);
        text
    }
}

/// The message of a panic, given what its payload is when taken as a string
/// slice and when taken as an owned string: the first of the two that is
/// there.
pub fn downcast_panic<'a>(as_str: Option<&'a str>, as_string: Option<&'a String>) -> (message:
    Option<&'a str>)
    ensures
        match (as_str, as_string) {
            (Some(text), _) => message == Some(text),
            (None, Some(text)) => message is Some && message.unwrap()@ == text@,
            (None, None) => message is None,
        },
{
    match as_str {
        Some(text) => Some(text),
        None => match as_string {
            Some(text) => Some(text.as_str()),
            None => None,
        },
    }
}

} // verus!
