//! Error taxonomy of the driver core.
//!
//! - `DeviceError`: the probe could not be enumerated or opened.
//! - `TransportError`: a USB exchange failed (timeout or I/O fault).
//! - `DebugAccessError`: the target reported a fault on a register access.
//! - `StLinkError`: umbrella for the three above, as probe operations
//!   surface them.

use vstd::prelude::*;

verus! {

/// A USB I/O fault or timeout on an individual command/response exchange.
#[derive(Clone, Copy, Debug, PartialEq, Eq, Structural)]
pub enum TransportError {
    /// The exchange did not complete within the transport's bounded timeout.
    Timeout,
    /// The exchange failed outright (device gone, endpoint stall, short frame).
    Io,
}

impl TransportError {
    /// A short human-readable description of the fault.
    pub fn describe(&self) -> (r: String)
        ensures
            r@.len() > 0,
    {
        match self {
            TransportError::Timeout => {
                let s = "transport timeout";
                proof {
                    reveal_strlit("transport timeout");
                }
                s.to_string()
            }
            TransportError::Io => {
                let s = "transport I/O fault";
                proof {
                    reveal_strlit("transport I/O fault");
                }
                s.to_string()
            }
        }
    }
}

/// A probe enumeration or open failure: surfaced once, at session start,
/// and never retried by this layer.
#[derive(Clone, Copy, Debug, PartialEq, Eq, Structural)]
pub enum DeviceError {
    /// No device with the probe family's vendor/product identifiers is
    /// attached. A legitimate absence state, not a link fault.
    NotFound,
    /// The device exists but is claimed by another host process.
    Busy,
    /// The device exists but may not be opened by this user.
    PermissionDenied,
}

/// The target reported a fault on a 32-bit debug-register access
/// (port locked, component powered down, address not live).
/// Carries the status code the probe returned.
#[derive(Clone, Copy, Debug, PartialEq, Eq, Structural)]
pub struct DebugAccessError {
    /// The probe's status byte for the failed access.
    pub status: u8,
}

impl DebugAccessError {
    /// A short human-readable description of the fault.
    pub fn describe(&self) -> (r: String)
        ensures
            r@.len() > 0,
    {
        let s = "debug access fault";
        proof {
            reveal_strlit("debug access fault");
        }
        s.to_string()
    }
}

/// Umbrella error of the probe driver: any of the session-start, transport
/// or register-access failure kinds.
#[derive(Clone, Copy, Debug, PartialEq, Eq, Structural)]
pub enum StLinkError {
    /// Enumeration or open failure.
    Device(DeviceError),
    /// USB I/O fault or timeout on an exchange.
    Transport(TransportError),
    /// The target faulted a register access.
    Access(DebugAccessError),
}

} // verus!
