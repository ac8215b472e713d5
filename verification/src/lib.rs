//! A five-floor, single-car elevator as a deterministic state machine: it
//! takes one command at a time, moves its motor, door, buttons and indicator
//! accordingly, and latches into a crashed status when a command asks for
//! something the hardware cannot do.

pub mod display;
pub mod elevator;
pub mod hardware;
pub mod laws;
pub mod model;
pub mod protocol;
