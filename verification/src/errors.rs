//! The failures the relay can report.

use vstd::prelude::*;
use crate::endpoint::Role;

verus! {

/// Everything that can go wrong between enumeration and a running relay.
/// Enumeration and negotiation failures come back to the caller
/// synchronously; failures after a session has started are only reported to
/// an observability sink, never propagated to the original caller.
#[derive(Clone, Copy, PartialEq, Eq, Structural, Debug)]
pub enum AudioError {
    /// The host's device-enumeration subsystem could not be initialized, a
    /// device collection could not be retrieved, or a directory-level read
    /// failed.
    HostAudio,
    /// No active endpoint of this role carries the requested name.
    DeviceNotFound(Role),
    /// The default channel counts of the chosen pair differ: first the
    /// capture side's count, then the render side's.
    FormatMismatch(u16, u16),
    /// An input or output stream could not be constructed.
    StreamBuild,
    /// A running stream reported a failure after the session had started.
    StreamRuntime,
}

impl AudioError {
    /// A short description, for callers that surface errors as text.
    pub fn describe(&self) -> (r: &'static str)
        ensures
            match *self {
                AudioError::HostAudio => r@ == "host audio subsystem failure"@,
                AudioError::DeviceNotFound(Role::Capture) => r@ == "input device not found"@,
                AudioError::DeviceNotFound(Role::Render) => r@ == "output device not found"@,
                AudioError::FormatMismatch(_, _) => r@ == "input and output channel counts do not match"@,
                AudioError::StreamBuild => r@ == "audio stream could not be built"@,
                AudioError::StreamRuntime => r@ == "audio stream reported an error"@,
            },
    {
        match *self {
            AudioError::HostAudio => "host audio subsystem failure",
            AudioError::DeviceNotFound(Role::Capture) => "input device not found",
            AudioError::DeviceNotFound(Role::Render) => "output device not found",
            AudioError::FormatMismatch(_, _) => "input and output channel counts do not match",
            AudioError::StreamBuild => "audio stream could not be built",
            AudioError::StreamRuntime => "audio stream reported an error",
        }
    }
}

} // verus!
