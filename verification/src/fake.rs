//! An in-memory fake probe: a deterministic [`ProbeOps`] implementation
//! with a scripted mode, a small debug-address space, a fault map, a trace
//! buffer, and a log of the commands issued to it. It lets the sequencing
//! logic and the capture step run — and be tested — without hardware.

use vstd::prelude::*;

use crate::coresight::MemoryAccess;
use crate::coresight::MemoryAddress;
use crate::errors::DebugAccessError;
use crate::errors::StLinkError;
use crate::errors::TransportError;
use crate::probe::ProbeOps;
use crate::probe::StLinkMode;
use crate::probe::StLinkVersion;

verus! {

/// One probe command, as the fake records it.
#[derive(Clone, Copy, Debug, PartialEq, Eq, Structural)]
pub enum ProbeCommand {
    /// Operating-mode query.
    GetMode,
    /// Firmware-version query.
    GetVersion,
    /// Leave firmware-update mode.
    LeaveDfu,
    /// Enter debug mode.
    EnterDebug,
    /// 32-bit register read at the given address.
    ReadReg(u32),
    /// 32-bit register write at the given address.
    WriteReg(u32),
    /// Buffered trace byte count query.
    TraceCount,
    /// Trace-buffer read.
    ReadTrace,
}

/// First-match lookup in an association list of address/value cells;
/// an address with no cell reads as zero.
pub closed spec fn lookup(cells: Seq<(u32, u32)>, addr: u32) -> u32
    decreases cells.len(),
{
    if cells.len() == 0 {
        0
    } else if cells[0].0 == addr {
        cells[0].1
    } else {
        lookup(cells.skip(1), addr)
    }
}

/// The in-memory fake probe.
pub struct FakeProbe {
    cur_mode: StLinkMode,
    link_ok: bool,
    dfu_exit_to_debug: bool,
    cells: Vec<(u32, u32)>,
    fault_addrs: Vec<u32>,
    trace_buf: Vec<u8>,
    read_limit: usize,
    fw_version: StLinkVersion,
    log: Vec<ProbeCommand>,
}

impl FakeProbe {
    /// The commands issued so far, oldest first.
    pub closed spec fn issued(&self) -> Seq<ProbeCommand> {
        self.log@
    }

    /// A fake probe in the given mode: sound link, empty address space and
    /// trace buffer, no faults, unlimited per-read trace transfer.
    pub fn new(mode: StLinkMode) -> (p: FakeProbe)
        ensures
            p.mode() == mode,
            p.healthy(),
            forall|a: u32| #[trigger] p.mem_at(a) == 0 && !p.faulty(a),
            p.trace() == Seq::<u8>::empty(),
            p.issued() == Seq::<ProbeCommand>::empty(),
    {
        FakeProbe {
            cur_mode: mode,
            link_ok: true,
            dfu_exit_to_debug: false,
            cells: Vec::new(),
            fault_addrs: Vec::new(),
            trace_buf: Vec::new(),
            read_limit: usize::MAX,
            fw_version: StLinkVersion { major: 2, jtag: 37, swim: 7 },
            log: Vec::new(),
        }
    }

    /// Breaks or mends the link: an unsound link times every exchange out.
    pub fn set_link_ok(&mut self, ok: bool)
        ensures
            final(self).healthy() == ok,
            final(self).mode() == old(self).mode(),
            forall|a: u32| #[trigger] final(self).mem_at(a) == old(self).mem_at(a),
            forall|a: u32| #[trigger] final(self).faulty(a) == old(self).faulty(a),
            final(self).trace() == old(self).trace(),
            final(self).version() == old(self).version(),
            final(self).issued() == old(self).issued(),
    {
        self.link_ok = ok;
    }

    /// Chooses where a leave-firmware-update command lands: debug mode if
    /// `to_debug`, else mass-storage mode.
    pub fn set_dfu_exit_to_debug(&mut self, to_debug: bool)
        ensures
            final(self).mode() == old(self).mode(),
            final(self).healthy() == old(self).healthy(),
            forall|a: u32| #[trigger] final(self).mem_at(a) == old(self).mem_at(a),
            forall|a: u32| #[trigger] final(self).faulty(a) == old(self).faulty(a),
            final(self).trace() == old(self).trace(),
            final(self).issued() == old(self).issued(),
    {
        self.dfu_exit_to_debug = to_debug;
    }

    /// Plants `value` at debug address `addr`.
    pub fn poke(&mut self, addr: u32, value: u32)
        ensures
            final(self).mem_at(addr) == value,
            forall|a: u32| a != addr ==> #[trigger] final(self).mem_at(a) == old(self).mem_at(a),
            forall|a: u32| #[trigger] final(self).faulty(a) == old(self).faulty(a),
            final(self).mode() == old(self).mode(),
            final(self).healthy() == old(self).healthy(),
            final(self).trace() == old(self).trace(),
            final(self).issued() == old(self).issued(),
    {
        self.cells.insert(0, (addr, value));
        proof {
            assert(self.cells@ =~= seq![(addr, value)] + old(self).cells@);
            assert forall|a: u32| a != addr implies #[trigger] lookup(self.cells@, a) == lookup(
                old(self).cells@,
                a,
            ) by {
                assert(self.cells@.skip(1) =~= old(self).cells@);
            };
        }
    }

    /// Marks `addr` as faulting: the target will refuse accesses to it.
    pub fn mark_faulty(&mut self, addr: u32)
        ensures
            final(self).faulty(addr),
            forall|a: u32| a != addr ==> #[trigger] final(self).faulty(a) == old(self).faulty(a),
            forall|a: u32| #[trigger] final(self).mem_at(a) == old(self).mem_at(a),
            final(self).mode() == old(self).mode(),
            final(self).healthy() == old(self).healthy(),
            final(self).trace() == old(self).trace(),
            final(self).issued() == old(self).issued(),
    {
        self.fault_addrs.push(addr);
        proof {
            assert(self.fault_addrs@[self.fault_addrs@.len() - 1] == addr);
            assert forall|a: u32| a != addr implies #[trigger] self.fault_addrs@.contains(a)
                == old(self).fault_addrs@.contains(a) by {
                if old(self).fault_addrs@.contains(a) {
                    let i = choose|i: int|
                        0 <= i < old(self).fault_addrs@.len() && old(self).fault_addrs@[i] == a;
                    assert(self.fault_addrs@[i] == a);
                }
                if self.fault_addrs@.contains(a) {
                    let i = choose|i: int|
                        0 <= i < self.fault_addrs@.len() && self.fault_addrs@[i] == a;
                    assert(old(self).fault_addrs@[i] == a);
                }
            };
        }
    }

    /// Appends bytes to the probe's trace buffer, as if the target had
    /// emitted them.
    pub fn load_trace(&mut self, bytes: Vec<u8>)
        ensures
            final(self).trace() == old(self).trace() + bytes@,
            final(self).mode() == old(self).mode(),
            final(self).healthy() == old(self).healthy(),
            forall|a: u32| #[trigger] final(self).mem_at(a) == old(self).mem_at(a),
            forall|a: u32| #[trigger] final(self).faulty(a) == old(self).faulty(a),
            final(self).issued() == old(self).issued(),
    {
        let mut bytes = bytes;
        self.trace_buf.append(&mut bytes);
    }

    /// Caps how many trace bytes a single read hands out, to script the
    /// poll/read race.
    pub fn set_read_limit(&mut self, limit: usize)
        ensures
            final(self).mode() == old(self).mode(),
            final(self).healthy() == old(self).healthy(),
            forall|a: u32| #[trigger] final(self).mem_at(a) == old(self).mem_at(a),
            forall|a: u32| #[trigger] final(self).faulty(a) == old(self).faulty(a),
            final(self).trace() == old(self).trace(),
            final(self).issued() == old(self).issued(),
    {
        self.read_limit = limit;
    }

    /// How many trace bytes are still buffered.
    pub fn remaining_trace_len(&self) -> (n: usize)
        ensures
            n == self.trace().len(),
    {
        self.trace_buf.len()
    }

    /// How many commands were issued.
    pub fn issued_len(&self) -> (n: usize)
        ensures
            n == self.issued().len(),
    {
        self.log.len()
    }

    /// The `i`-th issued command.
    pub fn issued_at(&self, i: usize) -> (c: ProbeCommand)
        requires
            i < self.issued().len(),
        ensures
            c == self.issued()[i as int],
    {
        self.log[i]
    }

    fn lookup_cell(&self, addr: u32) -> (v: u32)
        ensures
            v == lookup(self.cells@, addr),
    {
        let mut i: usize = 0;
        assert(self.cells@.skip(0) =~= self.cells@);
        while i < self.cells.len()
            invariant
                i <= self.cells@.len(),
                lookup(self.cells@, addr) == lookup(self.cells@.skip(i as int), addr),
            decreases self.cells@.len() - i,
        {
            assert(self.cells@.skip(i as int)[0] == self.cells@[i as int]);
            if self.cells[i].0 == addr {
                return self.cells[i].1;
            }
            assert(self.cells@.skip(i as int).skip(1) =~= self.cells@.skip(i + 1));
            i += 1;
        }
        assert(self.cells@.skip(i as int) =~= Seq::<(u32, u32)>::empty());
        0
    }

    fn is_faulty(&self, addr: u32) -> (b: bool)
        ensures
            b == self.fault_addrs@.contains(addr),
    {
        let mut i: usize = 0;
        while i < self.fault_addrs.len()
            invariant
                i <= self.fault_addrs@.len(),
                forall|j: int| 0 <= j < i ==> self.fault_addrs@[j] != addr,
            decreases self.fault_addrs@.len() - i,
        {
            if self.fault_addrs[i] == addr {
                return true;
            }
            i += 1;
        }
        false
    }
}

impl ProbeOps for FakeProbe {
    closed spec fn mode(&self) -> StLinkMode {
        self.cur_mode
    }

    closed spec fn healthy(&self) -> bool {
        self.link_ok
    }

    closed spec fn mem_at(&self, addr: u32) -> u32 {
        lookup(self.cells@, addr)
    }

    closed spec fn faulty(&self, addr: u32) -> bool {
        self.fault_addrs@.contains(addr)
    }

    closed spec fn trace(&self) -> Seq<u8> {
        self.trace_buf@
    }

    closed spec fn version(&self) -> StLinkVersion {
        self.fw_version
    }

    fn get_mode(&mut self) -> (r: Result<StLinkMode, TransportError>) {
        self.log.push(ProbeCommand::GetMode);
        if self.link_ok {
            Ok(self.cur_mode)
        } else {
            Err(TransportError::Timeout)
        }
    }

    fn get_version(&mut self) -> (r: Result<StLinkVersion, TransportError>) {
        self.log.push(ProbeCommand::GetVersion);
        if self.link_ok {
            Ok(self.fw_version)
        } else {
            Err(TransportError::Timeout)
        }
    }

    fn leave_dfu_mode(&mut self) -> (r: Result<(), TransportError>) {
        self.log.push(ProbeCommand::LeaveDfu);
        if self.link_ok {
            self.cur_mode = if self.dfu_exit_to_debug {
                StLinkMode::Debug
            } else {
                StLinkMode::Mass
            };
            Ok(())
        } else {
            Err(TransportError::Timeout)
        }
    }

    fn enter_debug_mode(&mut self) -> (r: Result<(), TransportError>) {
        self.log.push(ProbeCommand::EnterDebug);
        if self.link_ok {
            self.cur_mode = StLinkMode::Debug;
            Ok(())
        } else {
            Err(TransportError::Timeout)
        }
    }

    fn read_debug32(&mut self, address: u32) -> (r: Result<u32, StLinkError>) {
        self.log.push(ProbeCommand::ReadReg(address));
        if !self.link_ok {
            Err(StLinkError::Transport(TransportError::Timeout))
        } else if self.is_faulty(address) {
            Err(StLinkError::Access(DebugAccessError { status: 0x11 }))
        } else {
            Ok(self.lookup_cell(address))
        }
    }

    fn write_debug32(&mut self, address: u32, value: u32) -> (r: Result<(), StLinkError>) {
        self.log.push(ProbeCommand::WriteReg(address));
        if !self.link_ok {
            Err(StLinkError::Transport(TransportError::Timeout))
        } else if self.is_faulty(address) {
            Err(StLinkError::Access(DebugAccessError { status: 0x11 }))
        } else {
            let ghost before = self.cells@;
            self.cells.insert(0, (address, value));
            proof {
                assert(self.cells@ =~= seq![(address, value)] + before);
                assert forall|a: u32| a != address implies #[trigger] lookup(self.cells@, a)
                    == lookup(before, a) by {
                    assert(self.cells@.skip(1) =~= before);
                };
            }
            Ok(())
        }
    }

    fn trace_buffered_byte_count(&mut self) -> (r: Result<usize, TransportError>) {
        self.log.push(ProbeCommand::TraceCount);
        if self.link_ok {
            Ok(self.trace_buf.len())
        } else {
            Err(TransportError::Timeout)
        }
    }

    fn read_trace_bytes(&mut self, count: usize) -> (r: Result<Vec<u8>, TransportError>) {
        self.log.push(ProbeCommand::ReadTrace);
        if !self.link_ok {
            return Err(TransportError::Timeout);
        }
        let mut k = count;
        if self.trace_buf.len() < k {
            k = self.trace_buf.len();
        }
        if self.read_limit < k {
            k = self.read_limit;
        }
        let mut out: Vec<u8> = Vec::new();
        let mut i: usize = 0;
        while i < k
            invariant
                i <= k <= self.trace_buf@.len(),
                out@ == self.trace_buf@.subrange(0, i as int),
            decreases k - i,
        {
            out.push(self.trace_buf[i]);
            assert(self.trace_buf@.subrange(0, i + 1) =~= self.trace_buf@.subrange(
                0,
                i as int,
            ).push(self.trace_buf@[i as int]));
            i += 1;
        }
        let mut rest: Vec<u8> = Vec::new();
        let mut j: usize = k;
        while j < self.trace_buf.len()
            invariant
                k <= j <= self.trace_buf@.len(),
                self.trace_buf@ == old(self).trace_buf@,
                rest@ == self.trace_buf@.subrange(k as int, j as int),
            decreases self.trace_buf@.len() - j,
        {
            rest.push(self.trace_buf[j]);
            assert(self.trace_buf@.subrange(k as int, j + 1) =~= self.trace_buf@.subrange(
                k as int,
                j as int,
            ).push(self.trace_buf@[j as int]));
            j += 1;
        }
        proof {
            assert(out@ =~= old(self).trace_buf@.take(k as int));
            assert(rest@ =~= old(self).trace_buf@.skip(k as int));
        }
        self.trace_buf = rest;
        Ok(out)
    }
}

impl MemoryAccess for FakeProbe {
    closed spec fn word_at(&self, addr: u32) -> u32 {
        lookup(self.cells@, addr)
    }

    closed spec fn faulting(&self, addr: u32) -> bool {
        self.fault_addrs@.contains(addr)
    }

    closed spec fn operational(&self) -> bool {
        self.link_ok
    }

    fn read_u32(&mut self, address: MemoryAddress) -> (r: Result<u32, DebugAccessError>) {
        self.log.push(ProbeCommand::ReadReg(address));
        if !self.link_ok {
            Err(DebugAccessError { status: 0x01 })
        } else if self.is_faulty(address) {
            Err(DebugAccessError { status: 0x11 })
        } else {
            Ok(self.lookup_cell(address))
        }
    }

    fn write_u32(&mut self, address: MemoryAddress, value: u32) -> (r: Result<
        (),
        DebugAccessError,
    >) {
        self.log.push(ProbeCommand::WriteReg(address));
        if !self.link_ok {
            Err(DebugAccessError { status: 0x01 })
        } else if self.is_faulty(address) {
            Err(DebugAccessError { status: 0x11 })
        } else {
            let ghost before = self.cells@;
            self.cells.insert(0, (address, value));
            proof {
                assert(self.cells@ =~= seq![(address, value)] + before);
                assert forall|a: u32| a != address implies #[trigger] lookup(self.cells@, a)
                    == lookup(before, a) by {
                    assert(self.cells@.skip(1) =~= before);
                };
            }
            Ok(())
        }
    }
}

} // verus!
