//! Startup decisions: the console messages and exit statuses that the
//! argument check and the connection attempt lead to. The runtime parses
//! the command line and tries to connect; this module decides what each
//! failure shows and how the process ends, and what the progress messages
//! around a successful connect say.

use vstd::prelude::*;
use vstd::string::StringExecFns;
use crate::msg::{Color, ConsoleMsg, Shutdown, shows};

verus! {

/// A startup failure as the runtime observed it. The payloads of the two
/// connection variants describe the underlying error.
#[derive(Debug)]
pub enum StartEvent {
    /// No address argument was supplied on the command line.
    NoAddress,
    /// The connection builder could not be constructed from the address.
    BuilderFailed(String),
    /// The connect attempt itself failed.
    ConnectFailed(String),
}

/// What a startup failure leads to: one red console message, then process
/// termination with the given status.
#[derive(Debug)]
pub struct StartFailure {
    pub msg: ConsoleMsg,
    pub shutdown: Shutdown,
}

/// Decide the response to a startup failure: a missing address shows
/// `No Address provided` and exits with status 1; a builder or connect
/// failure shows the error and ends the run with the default success
/// status. No flush pause is needed: the console writer is drained on
/// shutdown.
pub fn on_start_failure(ev: StartEvent) -> (r: StartFailure)
    ensures
        ev matches StartEvent::NoAddress ==> shows(r.msg, Color::Red, "No Address provided\n"@)
            && r.shutdown.code == 1,
        ev matches StartEvent::BuilderFailed(e) ==> shows(
            r.msg,
            Color::Red,
            "Failed to create ws builder: "@ + e@ + "\n"@,
        ) && r.shutdown.code == 0,
        ev matches StartEvent::ConnectFailed(e) ==> shows(
            r.msg,
            Color::Red,
            "Failed to connect to ws: "@ + e@ + "\n"@,
        ) && r.shutdown.code == 0,
        !r.shutdown.flush_pause,
{
    match ev {
        StartEvent::NoAddress => StartFailure {
            msg: ConsoleMsg::new(Color::Red, String::from_str("No Address provided\n")),
            shutdown: Shutdown::new(1, false),
        },
        StartEvent::BuilderFailed(e) => {
            let text = String::from_str("Failed to create ws builder: ").concat(e.as_str()).concat(
                "\n",
            );
            StartFailure { msg: ConsoleMsg::new(Color::Red, text), shutdown: Shutdown::new(0, false) }
        },
        StartEvent::ConnectFailed(e) => {
            let text = String::from_str("Failed to connect to ws: ").concat(e.as_str()).concat(
                "\n",
            );
            StartFailure { msg: ConsoleMsg::new(Color::Red, text), shutdown: Shutdown::new(0, false) }
        },
    }
}

/// The message announcing a connection attempt to `address`.
pub fn connecting_msg(address: &String) -> (m: ConsoleMsg)
    ensures
        shows(m, Color::Default, "Connecting to "@ + address@ + "...\n"@),
{
    let text = String::from_str("Connecting to ").concat(address.as_str()).concat("...\n");
    ConsoleMsg::new(Color::Default, text)
}

/// The message announcing a successful connect.
pub fn connected_msg() -> (m: ConsoleMsg)
    ensures
        shows(m, Color::Default, "Connected!\n"@),
{
    ConsoleMsg::new(Color::Default, String::from_str("Connected!\n"))
}

} // verus!
