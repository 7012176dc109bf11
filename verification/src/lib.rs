//! Protocol controller for a projector driven over a serial link.
//!
//! The device speaks a fixed-length binary protocol: every logical operation
//! (power, source, brightness, volume, mute, eco mode, lamp time) maps to a
//! literal request frame, and every response is a five-byte header followed
//! by a payload whose length the header declares. This crate holds the
//! command table, the frame encoders, the payload decoders, and the session
//! logic that drives a request/response exchange; byte transport over a real
//! serial port is left to an adapter built on the session functions.

pub mod controller;
pub mod protocol;
pub mod session;
pub mod transport;

pub use controller::Controller;

pub use protocol::Command;
pub use protocol::ControllerErr;
pub use protocol::Reply;
pub use protocol::SubCommand;
