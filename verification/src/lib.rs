//! Client side of a keyboard-and-mouse sharing protocol: the binary message
//! codec, the session controller and the mapping of protocol input events
//! to Linux input events.

pub mod wire;
pub mod parser;
pub mod roundtrip;
pub mod input;
pub mod client;
