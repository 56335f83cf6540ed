//! Input reader decisions: what one attempt to read a line of standard
//! input leads to. The runtime performs the blocking read and reports its
//! outcome as an [`InputEvent`]; the reader either forwards the line to the
//! outgoing-line queue, reports a read error to the console, or ends
//! silently on end-of-stream. It never does two of these for one event.

use vstd::prelude::*;
use vstd::string::StringExecFns;
use crate::msg::{Color, ConsoleMsg, shows};

verus! {

/// Outcome of one blocking attempt to read a line from standard input.
#[derive(Debug)]
pub enum InputEvent {
    /// Zero bytes were read: the input stream has ended.
    Eof,
    /// A line was read; the text is exactly what was read, trailing
    /// terminator included.
    Line(String),
    /// The read failed; the text describes the error.
    Failed(String),
}

/// What the input reader does in response: exactly one of forwarding the
/// line, reporting an error, or ending silently.
#[derive(Debug)]
pub enum InputAction {
    /// Enqueue this line, unchanged, for the connection loop.
    Forward(String),
    /// Submit this message to the console, then end.
    Report(ConsoleMsg),
    /// End silently, enqueuing nothing.
    Quiet,
}

/// Decide the input reader's single action for one read outcome: a read
/// line is forwarded exactly as read, end-of-stream ends the reader
/// silently, and a read error becomes one red console message.
pub fn on_input(ev: InputEvent) -> (a: InputAction)
    ensures
        ev matches InputEvent::Line(s) ==> (a matches InputAction::Forward(l) && l@ == s@),
        ev matches InputEvent::Eof ==> a matches InputAction::Quiet,
        ev matches InputEvent::Failed(e) ==> (a matches InputAction::Report(m) && shows(
            m,
            Color::Red,
            "Unable to read line: "@ + e@,
        )),
{
    match ev {
        InputEvent::Line(s) => InputAction::Forward(s),
        InputEvent::Eof => InputAction::Quiet,
        InputEvent::Failed(e) => {
            let text = String::from_str("Unable to read line: ").concat(e.as_str());
            InputAction::Report(ConsoleMsg::new(Color::Red, text))
        },
    }
}

} // verus!
