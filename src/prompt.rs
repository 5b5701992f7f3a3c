use vstd::prelude::*;
use crate::text::{lowercase_text, lowercased, trim_text, trimmed};

verus! {

/// An answer, already trimmed and in lower case, that confirms: `y` or `yes`.
pub open spec fn affirmative(answer: Seq<char>) -> bool {
    answer == "y"@ || answer == "yes"@
}

/// Whether a normalised answer confirms.
pub fn is_affirmative(answer: &str) -> (r: bool)
    ensures
        r == affirmative(answer@),
{
    let a = answer.to_owned();
    a == String::from_str("y") || a == String::from_str("yes")
}

/// The terminal front end of the confirmation; the reading and printing are
/// done by the command-line program.
#[derive(Debug)]
pub struct TerminalPrompt;

impl TerminalPrompt {
    pub fn new() -> (r: Self) {
        TerminalPrompt
    }

    /// Whether a line typed at the confirmation prompt confirms: only `y` or
    /// `yes`, in any case and with any surrounding white space; anything
    /// else, the empty line included, declines.
    pub fn accepts(input: &str) -> (r: bool)
        ensures
            r == affirmative(lowercased(trimmed(input@))),
    {
        let t = trim_text(input);
        let l = lowercase_text(t.as_str());
        is_affirmative(l.as_str())
    }
}

} // verus!
