//! Lines for the host's log: failures that are reported without stopping
//! the work they happened in.

use vstd::prelude::*;
use vstd::string::*;

verus! {

/// How serious a logged line is.
#[derive(Debug, Clone, Copy, PartialEq, Eq, Structural)]
pub enum Level {
    Warn,
    Error,
}

/// Mathematical value of a [`Note`].
pub struct NoteView {
    pub level: Level,
    pub text: Seq<char>,
}

/// One line for the host to write to its log.
#[derive(Debug, PartialEq, Eq)]
pub struct Note {
    pub level: Level,
    pub text: String,
}

impl View for Note {
    type V = NoteView;

    open spec fn view(&self) -> NoteView {
        NoteView { level: self.level, text: self.text@ }
    }
}

/// Mathematical value of a note that may be absent.
pub open spec fn note_view(note: Option<Note>) -> Option<NoteView> {
    match note {
        Some(n) => Some(n@),
        None => None,
    }
}

impl Note {
    /// A line made of a fixed heading followed by the reason given.
    pub fn headed(level: Level, heading: &str, reason: &str) -> (res: Note)
        ensures
            res@ == (NoteView { level, text: heading@ + reason@ }),
    {
        Note { level, text: String::from_str(heading).concat(reason) }
    }
}

} // verus!
