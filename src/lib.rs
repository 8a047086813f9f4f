//! Protocol core of a driver for a WiFi co-processor reached over a
//! word-framed serial bus: framing, response parsing, command encoding and
//! the connection state machine. Hardware access lives outside this crate;
//! each machine here consumes plain events and returns the next action.

pub mod buffer;
pub mod channel;
pub mod command;
pub mod connection;
pub mod error;
pub mod framing;
pub mod response;
pub mod text;
pub mod transport;
