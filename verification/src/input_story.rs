//! What the input story reports of its text inputs.

use vstd::prelude::*;
use vstd::string::StringExecFns;

verus! {

/// What a text input tells its host.
#[derive(Debug, PartialEq, Eq)]
pub enum InputEvent {
    /// The text changed; this is the new text.
    Change(String),
    /// Enter was pressed.
    PressEnter,
    /// The input took the focus.
    Focus,
    /// The input lost the focus.
    Blur,
}

impl InputEvent {
    /// The line that the story logs for the event: the event's name, and
    /// for a change the new text after it.
    pub open spec fn log_line_spec(self) -> Seq<char> {
        match self {
            InputEvent::Change(text) => "Change: "@ + text@,
            InputEvent::PressEnter => "PressEnter"@,
            InputEvent::Focus => "Focus"@,
            InputEvent::Blur => "Blur"@,
        }
    }

    /// The line that the story logs for the event.
    pub fn log_line(&self) -> (line: String)
        ensures
            line@ == self.log_line_spec(),
    {
        match self {
            InputEvent::Change(text) => {
                let mut line = String::from_str("Change: ");
                line.append(text.as_str());
                line
            },
            InputEvent::PressEnter => String::from_str("PressEnter"),
            InputEvent::Focus => String::from_str("Focus"),
            InputEvent::Blur => String::from_str("Blur"),
        }
    }
}

} // verus!
