//! Bridge between a vintage serial keyboard accessory and a USB HID keyboard.
//!
//! The crate holds the protocol core of the bridge: the connection/handshake
//! state machine, the key-event decoder that turns the byte-oriented
//! make/break stream into six-key USB HID reports, and the single-slot relay
//! that exposes the most recent report to a transmission loop. The serial,
//! GPIO and USB transports themselves are external collaborators; the core
//! speaks to them through plain values.

pub mod connection;
pub mod handlers;
pub mod key_buf;
pub mod key_codes;
pub mod matrix;
pub mod modifiers;
pub mod relay;
pub mod report;
pub mod state;
