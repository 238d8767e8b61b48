//! Error taxonomy of the session core.
//!
//! Fatal errors (`Transport`, `CapabilityUnavailable`) abort the session;
//! local errors (`PoolExhausted`, `DeviceCreationFailed`) degrade a single
//! operation and leave the rest of the session running.

use vstd::prelude::*;

verus! {

/// The errors the session core can report.
#[derive(Clone, Copy, Debug, PartialEq, Eq, Structural)]
pub enum SessionError {
    /// The connection to the display server was lost, or a protocol
    /// message could not be decoded. Fatal: the session unwinds.
    Transport,
    /// A required global is missing from the registry, or every matching
    /// entry is advertised below the requested minimum version. Fatal at
    /// startup.
    CapabilityUnavailable,
    /// The backing pool cannot carve another buffer slot. Local: the
    /// renderer skips the frame instead of blocking or aborting.
    PoolExhausted,
    /// An input device could not be created for a seat capability. Local
    /// to that device kind; other capabilities are unaffected.
    DeviceCreationFailed,
}

impl SessionError {
    /// A fatal error terminates the session; a local one degrades a single
    /// operation (a skipped frame, a missing input device).
    pub open spec fn spec_is_fatal(self) -> bool {
        self == SessionError::Transport || self == SessionError::CapabilityUnavailable
    }

    /// Whether this error must abort the session.
    pub fn is_fatal(&self) -> (r: bool)
        ensures
            r == self.spec_is_fatal(),
    {
        match self {
            SessionError::Transport => true,
            SessionError::CapabilityUnavailable => true,
            SessionError::PoolExhausted => false,
            SessionError::DeviceCreationFailed => false,
        }
    }
}

} // verus!
