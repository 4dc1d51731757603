//! Error taxonomy of the session layer.

use vstd::prelude::*;

verus! {

/// A failure of the underlying byte channel: the write was not accepted or no
/// complete line arrived before the configured read timeout.
#[derive(Clone, Copy, Debug, PartialEq, Eq, Structural)]
pub enum TransportError {
    /// The channel produced no complete line within the read timeout.
    Timeout,
    /// Any other input/output failure of the channel.
    Io,
}

/// What a session operation can fail with.
#[derive(Clone, Debug, PartialEq, Eq)]
pub enum ClientError {
    /// The underlying channel failed; nothing is known about the device state.
    Transport(TransportError),
    /// A response line was read but does not parse as the requested shape.
    Deserialize,
    /// A well-formed response whose status code reports failure, raised only
    /// by an explicit assertion on the status.
    CommandStatus(crate::commands::Status),
    /// The caller asked for a mode transition the device does not support;
    /// this reports a bug in the caller, not a runtime condition.
    InvalidTransition,
}

} // verus!
