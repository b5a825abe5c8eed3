//! The command responder: what the command answers, given what reading the
//! rules file produced.

use vstd::prelude::*;
use vstd::string::*;
use crate::text::FALLBACK_MESSAGE;

verus! {

/// The message for one invocation: the text that was read, exactly, or the
/// fallback notice when nothing could be read.
pub open spec fn reply_text(read: Option<Seq<char>>) -> Seq<char> {
    match read {
        Some(content) => content,
        None => FALLBACK_MESSAGE@,
    }
}

/// The characters of what a read produced, if it produced anything.
pub open spec fn read_view(read: Option<String>) -> Option<Seq<char>> {
    match read {
        Some(content) => Some(content@),
        None => None,
    }
}

/// The handler bound to the command. It is built once, when the command is
/// registered, and keeps only the path of the rules file.
#[derive(Debug, PartialEq, Eq)]
pub struct RulesExecutor {
    rules_path: String,
}

impl View for RulesExecutor {
    type V = Seq<char>;

    /// An executor is its rules path.
    closed spec fn view(&self) -> Seq<char> {
        self.rules_path@
    }
}

impl RulesExecutor {
    /// Builds the handler for the rules file at `rules_path`.
    pub fn new(rules_path: String) -> (executor: Self)
        ensures
            executor@ == rules_path@,
    {
        RulesExecutor { rules_path }
    }

    /// The file to read, afresh, on every invocation.
    pub fn rules_path(&self) -> (path: &str)
        ensures
            path@ == self@,
    {
        self.rules_path.as_str()
    }

    /// Decides the one message an invocation sends. `read` is what reading
    /// the file at [`Self::rules_path`] gave just now: its full text, or
    /// `None` for a failure of any kind. The handler has no way to fail and
    /// keeps nothing from one invocation to the next.
    pub fn execute(&self, read: Option<String>) -> (message: String)
        ensures
            message@ == reply_text(read_view(read)),
            read matches Some(content) ==> message == content,
    {
        match read {
            Some(content) => content,
            None => String::from_str(FALLBACK_MESSAGE),
        }
    }
}

} // verus!
