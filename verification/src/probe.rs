//! The probe driver: operating-mode state machine, USB command framing and
//! the probe operation set (mode query/transition, 32-bit debug-register
//! access, trace-buffer draining).
//!
//! Command frames are 16 zero-padded bytes. The first byte selects the
//! command family, the second a sub-command; little-endian address and data
//! words follow where the command takes them.
//!
//! The operations are gathered in the [`ProbeOps`] trait so that the same
//! sequencing logic runs over the hardware probe and over an in-memory fake.
//! The trait's specification views model what the probe exposes: its
//! operating mode, whether the link is sound, the 32-bit word and fault
//! state at each debug address, the buffered trace bytes, and the firmware
//! version.

use vstd::prelude::*;

use vstd::bytes::spec_u16_from_le_bytes;
use vstd::bytes::spec_u32_from_le_bytes;
use vstd::bytes::spec_u32_to_le_bytes;
use vstd::bytes::u16_from_le_bytes;
use vstd::bytes::u32_from_le_bytes;
use vstd::bytes::u32_to_le_bytes;
use vstd::slice::slice_subrange;

use crate::errors::DebugAccessError;
use crate::errors::StLinkError;
use crate::errors::TransportError;

verus! {

/// The probe's operating mode, as reported by a mode query.
#[derive(Clone, Copy, Debug, PartialEq, Eq, Structural)]
pub enum StLinkMode {
    /// Mode could not be determined (unrecognised query response).
    Unknown,
    /// Firmware-update (DFU) mode.
    Dfu,
    /// Mass-storage mode.
    Mass,
    /// Debug mode: the operational state for register and trace access.
    Debug,
}

/// Probe firmware version, split into its three fields.
#[derive(Clone, Copy, Debug, PartialEq, Eq, Structural)]
pub struct StLinkVersion {
    /// Hardware generation.
    pub major: u8,
    /// Debug (JTAG/SWD) firmware version.
    pub jtag: u8,
    /// SWIM firmware version.
    pub swim: u8,
}

/// Command family: firmware version query.
pub const CMD_GET_VERSION: u8 = 0xF1;

/// Command family: debug operations.
pub const CMD_DEBUG_COMMAND: u8 = 0xF2;

/// Command family: firmware-update (DFU) operations.
pub const CMD_DFU_COMMAND: u8 = 0xF3;

/// Command family: operating-mode query.
pub const CMD_GET_CURRENT_MODE: u8 = 0xF5;

/// DFU sub-command: leave firmware-update mode.
pub const DFU_EXIT: u8 = 0x07;

/// Debug sub-command: enter debug mode.
pub const DEBUG_ENTER: u8 = 0x30;

/// Parameter of [`DEBUG_ENTER`]: use the SWD wire protocol.
pub const DEBUG_ENTER_SWD: u8 = 0xA3;

/// Debug sub-command: read a 32-bit debug register.
pub const DEBUG_READ_REG32: u8 = 0x36;

/// Debug sub-command: write a 32-bit debug register.
pub const DEBUG_WRITE_REG32: u8 = 0x35;

/// Debug sub-command: query the number of buffered trace bytes.
pub const DEBUG_GET_TRACE_COUNT: u8 = 0x42;

/// Status byte of a successful debug-register exchange.
pub const STATUS_OK: u8 = 0x80;

/// Length of every command frame sent to the probe.
pub const COMMAND_FRAME_LEN: usize = 16;

/// Mode byte reported for firmware-update mode.
pub const MODE_BYTE_DFU: u8 = 0x00;

/// Mode byte reported for mass-storage mode.
pub const MODE_BYTE_MASS: u8 = 0x01;

/// Mode byte reported for debug mode.
pub const MODE_BYTE_DEBUG: u8 = 0x02;

/// Address of the target's chip-identification register.
pub const CHIP_ID_ADDRESS: u32 = 0xE004_2000;

/// The operating mode a mode-query response byte denotes.
pub open spec fn spec_mode_from_byte(b: u8) -> StLinkMode {
    if b == MODE_BYTE_DFU {
        StLinkMode::Dfu
    } else if b == MODE_BYTE_MASS {
        StLinkMode::Mass
    } else if b == MODE_BYTE_DEBUG {
        StLinkMode::Debug
    } else {
        StLinkMode::Unknown
    }
}

/// Decodes the first byte of a mode-query response.
pub fn mode_from_byte(b: u8) -> (m: StLinkMode)
    ensures
        m == spec_mode_from_byte(b),
{
    if b == MODE_BYTE_DFU {
        StLinkMode::Dfu
    } else if b == MODE_BYTE_MASS {
        StLinkMode::Mass
    } else if b == MODE_BYTE_DEBUG {
        StLinkMode::Debug
    } else {
        StLinkMode::Unknown
    }
}

/// `s` zero-padded to the 16-byte command frame length.
pub open spec fn framed(s: Seq<u8>) -> Seq<u8>
    recommends
        s.len() <= COMMAND_FRAME_LEN,
{
    s + Seq::new((COMMAND_FRAME_LEN - s.len()) as nat, |i: int| 0u8)
}

fn pad_frame(v: Vec<u8>) -> (r: Vec<u8>)
    requires
        v@.len() <= COMMAND_FRAME_LEN,
    ensures
        r@ == framed(v@),
        r@.len() == COMMAND_FRAME_LEN,
{
    let ghost head = v@;
    let mut v = v;
    while v.len() < COMMAND_FRAME_LEN
        invariant
            head.len() <= v@.len() <= COMMAND_FRAME_LEN,
            v@ == head + Seq::new((v@.len() - head.len()) as nat, |i: int| 0u8),
        decreases COMMAND_FRAME_LEN - v@.len(),
    {
        v.push(0);
        assert(v@ =~= head + Seq::new((v@.len() - head.len()) as nat, |i: int| 0u8));
    }
    assert(v@ =~= framed(head));
    v
}

/// Builds the version-query frame.
pub fn cmd_get_version() -> (r: Vec<u8>)
    ensures
        r@ == framed(seq![CMD_GET_VERSION]),
{
    let mut v: Vec<u8> = Vec::new();
    v.push(CMD_GET_VERSION);
    assert(v@ =~= seq![CMD_GET_VERSION]);
    pad_frame(v)
}

/// Builds the mode-query frame.
pub fn cmd_get_current_mode() -> (r: Vec<u8>)
    ensures
        r@ == framed(seq![CMD_GET_CURRENT_MODE]),
{
    let mut v: Vec<u8> = Vec::new();
    v.push(CMD_GET_CURRENT_MODE);
    assert(v@ =~= seq![CMD_GET_CURRENT_MODE]);
    pad_frame(v)
}

/// Builds the frame that leaves firmware-update mode.
pub fn cmd_dfu_exit() -> (r: Vec<u8>)
    ensures
        r@ == framed(seq![CMD_DFU_COMMAND, DFU_EXIT]),
{
    let mut v: Vec<u8> = Vec::new();
    v.push(CMD_DFU_COMMAND);
    v.push(DFU_EXIT);
    assert(v@ =~= seq![CMD_DFU_COMMAND, DFU_EXIT]);
    pad_frame(v)
}

/// Builds the frame that enters debug mode over SWD.
pub fn cmd_enter_debug() -> (r: Vec<u8>)
    ensures
        r@ == framed(seq![CMD_DEBUG_COMMAND, DEBUG_ENTER, DEBUG_ENTER_SWD]),
{
    let mut v: Vec<u8> = Vec::new();
    v.push(CMD_DEBUG_COMMAND);
    v.push(DEBUG_ENTER);
    v.push(DEBUG_ENTER_SWD);
    assert(v@ =~= seq![CMD_DEBUG_COMMAND, DEBUG_ENTER, DEBUG_ENTER_SWD]);
    pad_frame(v)
}

/// Builds the frame that reads the 32-bit debug register at `address`.
pub fn cmd_read_debug32(address: u32) -> (r: Vec<u8>)
    ensures
        r@ == framed(seq![CMD_DEBUG_COMMAND, DEBUG_READ_REG32] + spec_u32_to_le_bytes(address)),
{
    let mut v: Vec<u8> = Vec::new();
    v.push(CMD_DEBUG_COMMAND);
    v.push(DEBUG_READ_REG32);
    let mut a = u32_to_le_bytes(address);
    v.append(&mut a);
    assert(v@ =~= seq![CMD_DEBUG_COMMAND, DEBUG_READ_REG32] + spec_u32_to_le_bytes(address));
    pad_frame(v)
}

/// Builds the frame that writes `value` to the 32-bit debug register at
/// `address`.
pub fn cmd_write_debug32(address: u32, value: u32) -> (r: Vec<u8>)
    ensures
        r@ == framed(
            seq![CMD_DEBUG_COMMAND, DEBUG_WRITE_REG32] + spec_u32_to_le_bytes(address)
                + spec_u32_to_le_bytes(value),
        ),
{
    let mut v: Vec<u8> = Vec::new();
    v.push(CMD_DEBUG_COMMAND);
    v.push(DEBUG_WRITE_REG32);
    let mut a = u32_to_le_bytes(address);
    v.append(&mut a);
    let mut w = u32_to_le_bytes(value);
    v.append(&mut w);
    assert(v@ =~= seq![CMD_DEBUG_COMMAND, DEBUG_WRITE_REG32] + spec_u32_to_le_bytes(address)
        + spec_u32_to_le_bytes(value));
    pad_frame(v)
}

/// Builds the frame that queries the buffered trace byte count.
pub fn cmd_get_trace_count() -> (r: Vec<u8>)
    ensures
        r@ == framed(seq![CMD_DEBUG_COMMAND, DEBUG_GET_TRACE_COUNT]),
{
    let mut v: Vec<u8> = Vec::new();
    v.push(CMD_DEBUG_COMMAND);
    v.push(DEBUG_GET_TRACE_COUNT);
    assert(v@ =~= seq![CMD_DEBUG_COMMAND, DEBUG_GET_TRACE_COUNT]);
    pad_frame(v)
}

/// The version fields packed into the big-endian first word of a
/// version-query response: the hardware generation in the top four bits,
/// then six bits each of debug and SWIM firmware version.
pub open spec fn spec_parse_version(b0: u8, b1: u8) -> StLinkVersion {
    let w = ((b0 as u16) << 8) | (b1 as u16);
    StLinkVersion {
        major: (w >> 12) as u8,
        jtag: ((w >> 6) & 0x3F) as u8,
        swim: (w & 0x3F) as u8,
    }
}

/// Splits a version-query response into its fields.
pub fn parse_version_response(resp: &Vec<u8>) -> (v: StLinkVersion)
    requires
        resp@.len() >= 2,
    ensures
        v == spec_parse_version(resp@[0], resp@[1]),
{
    let w: u16 = ((resp[0] as u16) << 8) | (resp[1] as u16);
    StLinkVersion { major: (w >> 12) as u8, jtag: ((w >> 6) & 0x3F) as u8, swim: (w & 0x3F) as u8 }
}

/// Reads a debug-register read response: a status byte, three bytes of
/// padding, then the register word, little-endian. Any status other than
/// [`STATUS_OK`] is the target faulting the access.
pub fn parse_debug_read_response(resp: &Vec<u8>) -> (r: Result<u32, DebugAccessError>)
    requires
        resp@.len() >= 8,
    ensures
        resp@[0] == STATUS_OK ==> r == Ok::<u32, DebugAccessError>(
            spec_u32_from_le_bytes(resp@.subrange(4, 8)),
        ),
        resp@[0] != STATUS_OK ==> r == Err::<u32, DebugAccessError>(
            DebugAccessError { status: resp@[0] },
        ),
{
    let status = resp[0];
    if status == STATUS_OK {
        let word = slice_subrange(resp.as_slice(), 4, 8);
        Ok(u32_from_le_bytes(word))
    } else {
        Err(DebugAccessError { status })
    }
}

/// Reads a trace-count response: the buffered byte count, little-endian.
pub fn parse_trace_count_response(resp: &Vec<u8>) -> (n: u16)
    requires
        resp@.len() >= 2,
    ensures
        n == spec_u16_from_le_bytes(resp@.subrange(0, 2)),
{
    let word = slice_subrange(resp.as_slice(), 0, 2);
    u16_from_le_bytes(word)
}

/// Everything a probe operation may not disturb about the target and the
/// link: the debug-address space, its fault map, link soundness and the
/// firmware version.
pub open spec fn probe_target_unchanged<P: ProbeOps>(a: &P, b: &P) -> bool {
    &&& forall|addr: u32| #[trigger] b.mem_at(addr) == a.mem_at(addr)
    &&& forall|addr: u32| #[trigger] b.faulty(addr) == a.faulty(addr)
    &&& b.healthy() == a.healthy()
    &&& b.version() == a.version()
}

/// The probe operation set: mode query and transitions, 32-bit
/// debug-register access, and trace-buffer draining.
///
/// Specification views: `mode()` is the probe's operating mode; `healthy()`
/// says the USB link is sound, in which case every exchange completes;
/// `mem_at(a)` and `faulty(a)` give the 32-bit word and the fault state the
/// target reports at debug address `a`; `trace()` is the byte stream the
/// probe has buffered; `version()` the firmware version.
pub trait ProbeOps: Sized {
    /// The probe's current operating mode.
    open spec fn mode(&self) -> StLinkMode {
        arbitrary()
    }

    /// Whether the USB link is sound: a sound link never times out or
    /// faults an exchange.
    open spec fn healthy(&self) -> bool {
        arbitrary()
    }

    /// The 32-bit word the target holds at debug address `addr`.
    open spec fn mem_at(&self, addr: u32) -> u32 {
        arbitrary()
    }

    /// Whether the target faults accesses to debug address `addr`
    /// (locked, powered down, not live).
    open spec fn faulty(&self, addr: u32) -> bool {
        arbitrary()
    }

    /// The trace bytes buffered on the probe, oldest first.
    open spec fn trace(&self) -> Seq<u8> {
        arbitrary()
    }

    /// The probe's firmware version.
    open spec fn version(&self) -> StLinkVersion {
        arbitrary()
    }

    /// Queries the operating mode. Reports the mode as it is; changes
    /// nothing.
    fn get_mode(&mut self) -> (r: Result<StLinkMode, TransportError>)
        ensures
            forall|a: u32| #[trigger] final(self).mem_at(a) == old(self).mem_at(a),
            forall|a: u32| #[trigger] final(self).faulty(a) == old(self).faulty(a),
            final(self).healthy() == old(self).healthy(),
            final(self).version() == old(self).version(),
            final(self).mode() == old(self).mode(),
            final(self).trace() == old(self).trace(),
            old(self).healthy() ==> r is Ok,
            r matches Ok(m) ==> m == old(self).mode(),
    ;

    /// Queries the firmware version. Changes nothing.
    fn get_version(&mut self) -> (r: Result<StLinkVersion, TransportError>)
        ensures
            forall|a: u32| #[trigger] final(self).mem_at(a) == old(self).mem_at(a),
            forall|a: u32| #[trigger] final(self).faulty(a) == old(self).faulty(a),
            final(self).healthy() == old(self).healthy(),
            final(self).version() == old(self).version(),
            final(self).mode() == old(self).mode(),
            final(self).trace() == old(self).trace(),
            old(self).healthy() ==> r is Ok,
            r matches Ok(v) ==> v == old(self).version(),
    ;

    /// Leaves firmware-update mode. Valid only in firmware-update mode;
    /// on success the probe settles in mass-storage or debug mode (a
    /// re-query observes which).
    fn leave_dfu_mode(&mut self) -> (r: Result<(), TransportError>)
        requires
            old(self).mode() == StLinkMode::Dfu,
        ensures
            forall|a: u32| #[trigger] final(self).mem_at(a) == old(self).mem_at(a),
            forall|a: u32| #[trigger] final(self).faulty(a) == old(self).faulty(a),
            final(self).healthy() == old(self).healthy(),
            final(self).version() == old(self).version(),
            final(self).trace() == old(self).trace(),
            old(self).healthy() ==> r is Ok,
            r is Ok ==> final(self).mode() == StLinkMode::Mass || final(self).mode()
                == StLinkMode::Debug,
            r is Err ==> final(self).mode() == old(self).mode(),
    ;

    /// Enters debug mode. Valid in firmware-update or mass-storage mode.
    fn enter_debug_mode(&mut self) -> (r: Result<(), TransportError>)
        requires
            old(self).mode() == StLinkMode::Dfu || old(self).mode() == StLinkMode::Mass,
        ensures
            forall|a: u32| #[trigger] final(self).mem_at(a) == old(self).mem_at(a),
            forall|a: u32| #[trigger] final(self).faulty(a) == old(self).faulty(a),
            final(self).healthy() == old(self).healthy(),
            final(self).version() == old(self).version(),
            final(self).trace() == old(self).trace(),
            old(self).healthy() ==> r is Ok,
            r is Ok ==> final(self).mode() == StLinkMode::Debug,
            r is Err ==> final(self).mode() == old(self).mode(),
    ;

    /// Reads the 32-bit debug register at `address`. Requires debug mode:
    /// callers sequence mode entry first.
    fn read_debug32(&mut self, address: u32) -> (r: Result<u32, StLinkError>)
        requires
            old(self).mode() == StLinkMode::Debug,
        ensures
            forall|a: u32| #[trigger] final(self).mem_at(a) == old(self).mem_at(a),
            forall|a: u32| #[trigger] final(self).faulty(a) == old(self).faulty(a),
            final(self).healthy() == old(self).healthy(),
            final(self).version() == old(self).version(),
            final(self).mode() == old(self).mode(),
            final(self).trace() == old(self).trace(),
            old(self).healthy() && !old(self).faulty(address) ==> r is Ok,
            r matches Ok(v) ==> v == old(self).mem_at(address) && !old(self).faulty(address),
            old(self).healthy() && old(self).faulty(address) ==> (r matches Err(e)
                && e matches StLinkError::Access(_)),
    ;

    /// Writes `value` to the 32-bit debug register at `address`. Requires
    /// debug mode: callers sequence mode entry first.
    fn write_debug32(&mut self, address: u32, value: u32) -> (r: Result<(), StLinkError>)
        requires
            old(self).mode() == StLinkMode::Debug,
        ensures
            final(self).mode() == old(self).mode(),
            final(self).trace() == old(self).trace(),
            final(self).healthy() == old(self).healthy(),
            final(self).version() == old(self).version(),
            forall|a: u32| #[trigger] final(self).faulty(a) == old(self).faulty(a),
            old(self).healthy() && !old(self).faulty(address) ==> r is Ok,
            r is Ok ==> !old(self).faulty(address) && final(self).mem_at(address) == value
                && (forall|a: u32|
                a != address ==> #[trigger] final(self).mem_at(a) == old(self).mem_at(a)),
            r is Err ==> (forall|a: u32| #[trigger] final(self).mem_at(a) == old(self).mem_at(a)),
            old(self).healthy() && old(self).faulty(address) ==> (r matches Err(e)
                && e matches StLinkError::Access(_)),
    ;

    /// Queries how many trace bytes the probe has buffered.
    fn trace_buffered_byte_count(&mut self) -> (r: Result<usize, TransportError>)
        ensures
            forall|a: u32| #[trigger] final(self).mem_at(a) == old(self).mem_at(a),
            forall|a: u32| #[trigger] final(self).faulty(a) == old(self).faulty(a),
            final(self).healthy() == old(self).healthy(),
            final(self).version() == old(self).version(),
            final(self).mode() == old(self).mode(),
            final(self).trace() == old(self).trace(),
            old(self).healthy() ==> r is Ok,
            r matches Ok(n) ==> n == old(self).trace().len(),
    ;

    /// Reads up to `count` buffered trace bytes. A short read is not a
    /// fault: the poll and the read race, and whatever was actually
    /// captured comes back.
    fn read_trace_bytes(&mut self, count: usize) -> (r: Result<Vec<u8>, TransportError>)
        ensures
            forall|a: u32| #[trigger] final(self).mem_at(a) == old(self).mem_at(a),
            forall|a: u32| #[trigger] final(self).faulty(a) == old(self).faulty(a),
            final(self).healthy() == old(self).healthy(),
            final(self).version() == old(self).version(),
            final(self).mode() == old(self).mode(),
            old(self).healthy() ==> r is Ok,
            r matches Ok(v) ==> v@.len() <= count && v@.len() <= old(self).trace().len()
                && v@ == old(self).trace().take(v@.len() as int)
                && final(self).trace() == old(self).trace().skip(v@.len() as int),
            r is Err ==> final(self).trace() == old(self).trace(),
    ;
}

/// The canonical startup sequence: query the mode, exit firmware-update
/// mode if the probe is in it, re-query, and enter debug mode unless the
/// probe is already there. Idempotent: on a probe already in debug mode it
/// only re-queries, changes nothing, and — over a sound link — succeeds
/// again.
pub fn enter_proper_mode<P: ProbeOps>(st_link: &mut P) -> (r: Result<(), TransportError>)
    ensures
        probe_target_unchanged(old(st_link), final(st_link)),
        final(st_link).trace() == old(st_link).trace(),
        old(st_link).healthy() && old(st_link).mode() != StLinkMode::Unknown ==> r is Ok
            && final(st_link).mode() == StLinkMode::Debug,
        r is Ok && old(st_link).mode() != StLinkMode::Unknown ==> final(st_link).mode()
            == StLinkMode::Debug,
        old(st_link).mode() == StLinkMode::Debug ==> final(st_link).mode() == StLinkMode::Debug,
{
    let mut mode = match st_link.get_mode() {
        Ok(m) => m,
        Err(e) => {
            return Err(e);
        },
    };
    if let StLinkMode::Dfu = mode {
        match st_link.leave_dfu_mode() {
            Ok(()) => (),
            Err(e) => {
                return Err(e);
            },
        };
        mode = match st_link.get_mode() {
            Ok(m) => m,
            Err(e) => {
                return Err(e);
            },
        };
    }
    match mode {
        StLinkMode::Dfu | StLinkMode::Mass => {
            match st_link.enter_debug_mode() {
                Ok(()) => (),
                Err(e) => {
                    return Err(e);
                },
            };
            match st_link.get_mode() {
                Ok(_m) => (),
                Err(e) => {
                    return Err(e);
                },
            };
        },
        _ => (),
    }
    Ok(())
}

/// Reads the target's chip-identification word. Requires debug mode:
/// callers sequence mode entry first.
pub fn read_chip_id<P: ProbeOps>(st_link: &mut P) -> (r: Result<u32, StLinkError>)
    requires
        old(st_link).mode() == StLinkMode::Debug,
    ensures
        probe_target_unchanged(old(st_link), final(st_link)),
        final(st_link).mode() == old(st_link).mode(),
        final(st_link).trace() == old(st_link).trace(),
        old(st_link).healthy() && !old(st_link).faulty(CHIP_ID_ADDRESS) ==> r is Ok,
        r matches Ok(v) ==> v == old(st_link).mem_at(CHIP_ID_ADDRESS) && !old(st_link).faulty(
            CHIP_ID_ADDRESS,
        ),
{
    st_link.read_debug32(CHIP_ID_ADDRESS)
}

/// What a successful startup interaction reports: the probe's firmware
/// version and the target's chip identification.
#[derive(Clone, Copy, Debug, PartialEq, Eq, Structural)]
pub struct ProbeInfo {
    /// Probe firmware version.
    pub version: StLinkVersion,
    /// The word read at [`CHIP_ID_ADDRESS`].
    pub chip_id: u32,
}

/// Startup interaction: query the firmware version, bring the probe into
/// debug mode, and read the chip identification.
pub fn interact<P: ProbeOps>(st_link: &mut P) -> (r: Result<ProbeInfo, StLinkError>)
    requires
        old(st_link).mode() != StLinkMode::Unknown,
    ensures
        probe_target_unchanged(old(st_link), final(st_link)),
        final(st_link).trace() == old(st_link).trace(),
        old(st_link).healthy() && !old(st_link).faulty(CHIP_ID_ADDRESS) ==> r is Ok,
        r matches Ok(info) ==> final(st_link).mode() == StLinkMode::Debug && info.version == old(
            st_link,
        ).version() && info.chip_id == old(st_link).mem_at(CHIP_ID_ADDRESS),
{
    let version = match st_link.get_version() {
        Ok(v) => v,
        Err(e) => {
            return Err(StLinkError::Transport(e));
        },
    };
    match enter_proper_mode(st_link) {
        Ok(()) => (),
        Err(e) => {
            return Err(StLinkError::Transport(e));
        },
    };
    let chip_id = match read_chip_id(st_link) {
        Ok(v) => v,
        Err(e) => {
            return Err(e);
        },
    };
    Ok(ProbeInfo { version, chip_id })
}

} // verus!
