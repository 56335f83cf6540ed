//! Verified core of an interactive client for a single full-duplex text
//! channel: the decision logic of the console writer, the input reader and
//! the connection loop, each stated as a function from observed events to
//! the actions the surrounding runtime must perform.

pub mod input;
pub mod msg;
pub mod session;
pub mod startup;
pub mod writer;
