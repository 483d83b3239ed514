//! Host-side driver core for an ST-Link-class USB debug probe: probe-mode
//! state machine, USB command framing, debug-register access, CoreSight
//! component discovery, and a streaming decoder for the instrumentation
//! trace byte stream.

pub mod capture;
pub mod coresight;
pub mod errors;
pub mod fake;
pub mod probe;
pub mod trace;

pub use capture::capture_step;
pub use coresight::interact2;
pub use coresight::CoreSightError;
pub use coresight::DebugComponent;
pub use coresight::MemoryAccess;
pub use coresight::MemoryAddress;
pub use coresight::Target;
pub use errors::DebugAccessError;
pub use errors::DeviceError;
pub use errors::StLinkError;
pub use errors::TransportError;
pub use fake::FakeProbe;
pub use fake::ProbeCommand;
pub use probe::enter_proper_mode;
pub use probe::interact;
pub use probe::read_chip_id;
pub use probe::ProbeInfo;
pub use probe::ProbeOps;
pub use probe::StLinkMode;
pub use probe::StLinkVersion;
pub use trace::Decoder;
pub use trace::TracePacket;
