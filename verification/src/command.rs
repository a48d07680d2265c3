//! What the user types at the prompt.

use crate::text::{chars_of, occurs_at, trim, trimmed};
use vstd::prelude::*;
use vstd::string::StringExecFns;

verus! {

/// `s` in lower case, as `str::to_lowercase` gives it.
pub uninterp spec fn lowercase(s: Seq<char>) -> Seq<char>;

/// Calls `str::to_lowercase`. Nothing is claimed of which characters it
/// changes: the result is only given its name.
#[verifier::external_body]
fn to_lowercase(s: &str) -> (out: String)
    ensures
        out@ == lowercase(s@),
{
    s.to_lowercase()
}

/// What the user asks for.
#[derive(Debug, PartialEq, Eq)]
pub enum Command {
    /// To end the conversation.
    Exit,
    /// To have the persona learn about itself.
    Learn,
    /// To train the persona with a text that follows.
    Train,
    /// To save the configuration.
    Save,
    /// To add a page to those that every learning run visits.
    AddUrl(String),
    /// To say something to the persona.
    Chat(String),
}

/// What a `Command` means.
pub enum CommandView {
    Exit,
    Learn,
    Train,
    Save,
    AddUrl(Seq<char>),
    Chat(Seq<char>),
}

impl View for Command {
    type V = CommandView;

    open spec fn view(&self) -> CommandView {
        match self {
            Command::Exit => CommandView::Exit,
            Command::Learn => CommandView::Learn,
            Command::Train => CommandView::Train,
            Command::Save => CommandView::Save,
            Command::AddUrl(url) => CommandView::AddUrl(url@),
            Command::Chat(message) => CommandView::Chat(message@),
        }
    }
}

/// What an input asks for, given the input in lower case. The words
/// `exit`, `learn`, `train` and `save` are commands, in whatever case
/// they were typed. An input that starts with `add_url` and a space names
/// a page. Every other input is said to the persona.
pub open spec fn command_for(input: Seq<char>, lower: Seq<char>) -> CommandView {
    if lower == "exit"@ {
        CommandView::Exit
    } else if lower == "learn"@ {
        CommandView::Learn
    } else if lower == "train"@ {
        CommandView::Train
    } else if lower == "save"@ {
        CommandView::Save
    } else if occurs_at(input, "add_url "@, 0) {
        CommandView::AddUrl(trimmed(input.skip("add_url "@.len() as int)))
    } else {
        CommandView::Chat(input)
    }
}

/// What a line that the user typed asks for: what the line without the
/// white space around it asks for.
pub open spec fn command_of(line: Seq<char>) -> CommandView {
    command_for(trimmed(line), lowercase(trimmed(line)))
}

/// Whether `text` starts with `prefix`.
fn starts_with(text: &Vec<char>, prefix: &Vec<char>) -> (out: bool)
    ensures
        out == occurs_at(text@, prefix@, 0),
{
    if prefix.len() > text.len() {
        return false;
    }
    let mut at: usize = 0;
    while at < prefix.len()
        invariant
            at <= prefix.len() <= text.len(),
            forall|i: int| 0 <= i < at ==> text@[i] == prefix@[i],
        decreases prefix.len() - at,
    {
        if text[at] != prefix[at] {
            proof {
                assert(text@.subrange(0, prefix@.len() as int)[at as int] == text@[at as int]);
            }
            return false;
        }
        at += 1;
    }
    proof {
        assert(text@.subrange(0, prefix@.len() as int) =~= prefix@);
    }
    true
}

/// Reads an input, given the input in lower case.
pub fn command_from(input: String, lower: &str) -> (command: Command)
    ensures
        command@ == command_for(input@, lower@),
{
    let lower = String::from_str(lower);
    if lower == String::from_str("exit") {
        return Command::Exit;
    }
    if lower == String::from_str("learn") {
        return Command::Learn;
    }
    if lower == String::from_str("train") {
        return Command::Train;
    }
    if lower == String::from_str("save") {
        return Command::Save;
    }
    let chars = chars_of(input.as_str());
    let prefix = chars_of("add_url ");
    if starts_with(&chars, &prefix) {
        let rest = input.as_str().substring_char(prefix.len(), chars.len());
        proof {
            assert(input@.skip("add_url "@.len() as int) =~= rest@);
        }
        Command::AddUrl(trim(rest))
    } else {
        Command::Chat(input)
    }
}

/// Reads a line that the user typed.
pub fn parse_command(line: &str) -> (command: Command)
    ensures
        command@ == command_of(line@),
{
    let input = trim(line);
    let lower = to_lowercase(input.as_str());
    command_from(input, lower.as_str())
}

/// Whether `line` ends a training text: it holds `END` and nothing but
/// white space around it.
pub open spec fn ends_training(line: Seq<char>) -> bool {
    trimmed(line) == "END"@
}

/// Whether `line` ends a training text.
pub fn is_end_of_training(line: &str) -> (out: bool)
    ensures
        out == ends_training(line@),
{
    trim(line) == String::from_str("END")
}

} // verus!
