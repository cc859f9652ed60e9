//! Codecs of the telemetry channel; see [`crate::net_control::codec`].

use vstd::prelude::*;

use crate::net_control::codec::{decode_error, decode_error_text, NetworkError};

verus! {

/// Events in the compact binary encoding.
#[derive(Clone, Copy, Debug, PartialEq, Eq, Structural)]
pub struct TelemetryCodecBitcode;

/// Events in JSON.
#[derive(Clone, Copy, Debug, PartialEq, Eq, Structural)]
pub struct TelemetryCodecJson;

impl TelemetryCodecBitcode {
    /// The error for an event that does not decode.
    pub fn event_error(&self, reason: &str) -> (r: NetworkError)
        ensures
            r matches NetworkError::SerializationError(s) && s@ == decode_error_text(
                "telemetry"@,
                reason@,
            ),
    {
        decode_error("telemetry", reason)
    }
}

impl TelemetryCodecJson {
    /// The error for an event that does not decode.
    pub fn event_error(&self, reason: &str) -> (r: NetworkError)
        ensures
            r matches NetworkError::SerializationError(s) && s@ == decode_error_text(
                "telemetry"@,
                reason@,
            ),
    {
        decode_error("telemetry", reason)
    }
}

} // verus!
