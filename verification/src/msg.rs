//! Console messages and process-shutdown requests: the vocabulary shared by
//! every decision function of the library.

use vstd::prelude::*;

verus! {

/// Display color attached to a console message. `Default` is the ordinary
/// bright text color; the others mark incoming data and error reports.
#[derive(Clone, Copy, PartialEq, Eq, Structural, Debug)]
pub enum Color {
    Default,
    Red,
    Blue,
    Cyan,
}

/// One colored line fragment queued for display. Immutable once created.
#[derive(Debug)]
pub struct ConsoleMsg {
    pub color: Color,
    pub text: String,
}

/// `m` carries color `c` and exactly the text `t`.
pub open spec fn shows(m: ConsoleMsg, c: Color, t: Seq<char>) -> bool {
    m.color == c && m.text@ == t
}

impl ConsoleMsg {
    pub fn new(color: Color, text: String) -> (m: ConsoleMsg)
        ensures
            shows(m, color, text@),
    {
        ConsoleMsg { color, text }
    }
}

/// A request that the runtime terminate the whole process: the exit status
/// to report, and whether to pause briefly first so the console writer can
/// drain the messages already queued.
#[derive(Clone, Copy, PartialEq, Eq, Structural, Debug)]
pub struct Shutdown {
    pub code: i32,
    pub flush_pause: bool,
}

/// `s` asks for termination with status `code`, pausing first iff `pause`.
pub open spec fn is_exit(s: Option<Shutdown>, code: i32, pause: bool) -> bool {
    s == Some(Shutdown { code, flush_pause: pause })
}

impl Shutdown {
    pub fn new(code: i32, flush_pause: bool) -> (s: Shutdown)
        ensures
            s.code == code,
            s.flush_pause == flush_pause,
    {
        Shutdown { code, flush_pause }
    }
}

} // verus!
