//! The error taxonomy of the streaming core.

use vstd::prelude::*;

verus! {

/// Everything that can go wrong in the pipeline or the session exchange.
///
/// `CaptureUnavailable`, `EncoderInitFailed` and `DecoderInitFailed` are fatal
/// to the component that raises them. `SessionBusy` and `AuthFailed` reject a
/// single offer and leave the session untouched. `MalformedDescription`
/// rejects a signaling payload that is not a validly framed session
/// description. `TransportClosed` ends the current session only.
#[derive(Clone, Copy, Debug, PartialEq, Eq, Structural)]
pub enum StreamError {
    CaptureUnavailable,
    EncoderInitFailed,
    DecoderInitFailed,
    SessionBusy,
    AuthFailed,
    MalformedDescription,
    TransportClosed,
}

} // verus!
