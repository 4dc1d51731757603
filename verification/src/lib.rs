//! Session layer for a serial-attached ADC acquisition board.
//!
//! The device speaks one of three wire encodings (text lines, JSON lines,
//! MessagePack frames). This crate tracks the encoding the device is in,
//! switches it with the documented bring-up command sequences, and runs the
//! JSON command/response exchange with a typed error taxonomy.

pub mod client;
pub mod commands;
pub mod err;
pub mod json;
pub mod modes;
pub mod transport;
