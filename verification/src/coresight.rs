//! Debug-component discovery and instrumentation-trace configuration,
//! written once against the [`MemoryAccess`] capability so the same logic
//! runs over the hardware probe and over an in-memory fake.
//!
//! Table-walk convention (one of the chip-visible layouts; chosen and fixed
//! here): a single component table sits at [`ROM_TABLE_BASE`], one 32-bit
//! entry per slot, at most [`ROM_TABLE_MAX_ENTRIES`] slots. An entry of
//! zero terminates the table. Bit 0 marks the entry present; a present
//! entry carries the component's 4 KiB-aligned base address in its upper
//! 20 bits. Each component identifies itself by the device-type word at
//! `base +` [`COMPONENT_TYPE_OFFSET`].
//!
//! Trace configuration drives the data-watchpoint unit's first comparator
//! at the traced address and unlocks and enables the instrumentation
//! macrocell, so that accesses to that address are emitted into the trace
//! stream.

use vstd::prelude::*;

use crate::errors::DebugAccessError;

verus! {

/// A 32-bit debug-port-mapped register address.
pub type MemoryAddress = u32;

/// A discovery or trace-configuration fault.
#[derive(Clone, Copy, Debug, PartialEq, Eq, Structural)]
pub enum CoreSightError {
    /// A register access faulted while walking tables or configuring
    /// components.
    Access(DebugAccessError),
    /// No suitable trace-capable component was discovered.
    NoTraceComponent,
}

/// The memory-access capability: full 32-bit reads and writes at
/// debug-port-mapped addresses. Implemented by any probe driver; the
/// discovery and trace logic above it never sees the concrete transport.
///
/// Specification views: `word_at(a)` and `faulting(a)` give the word and
/// the fault state at address `a`; `operational()` says the underlying
/// link is sound, in which case accesses to non-faulting addresses
/// succeed.
pub trait MemoryAccess: Sized {
    /// The 32-bit word held at debug address `addr`.
    open spec fn word_at(&self, addr: u32) -> u32 {
        arbitrary()
    }

    /// Whether accesses to debug address `addr` fault.
    open spec fn faulting(&self, addr: u32) -> bool {
        arbitrary()
    }

    /// Whether the underlying link is sound.
    open spec fn operational(&self) -> bool {
        arbitrary()
    }

    /// Reads the 32-bit word at `address`.
    fn read_u32(&mut self, address: MemoryAddress) -> (r: Result<u32, DebugAccessError>)
        ensures
            forall|a: u32| #[trigger] final(self).word_at(a) == old(self).word_at(a),
            forall|a: u32| #[trigger] final(self).faulting(a) == old(self).faulting(a),
            final(self).operational() == old(self).operational(),
            old(self).operational() && !old(self).faulting(address) ==> r is Ok,
            r matches Ok(v) ==> v == old(self).word_at(address) && !old(self).faulting(address),
    ;

    /// Writes `value` to the 32-bit word at `address`.
    fn write_u32(&mut self, address: MemoryAddress, value: u32) -> (r: Result<
        (),
        DebugAccessError,
    >)
        ensures
            forall|a: u32| #[trigger] final(self).faulting(a) == old(self).faulting(a),
            final(self).operational() == old(self).operational(),
            old(self).operational() && !old(self).faulting(address) ==> r is Ok,
            r is Ok ==> !old(self).faulting(address) && final(self).word_at(address) == value && (
            forall|a: u32|
                a != address ==> #[trigger] final(self).word_at(a) == old(self).word_at(a)),
            r is Err ==> (forall|a: u32|
                #[trigger] final(self).word_at(a) == old(self).word_at(a)),
    ;
}

/// The observable memory view `b` exposes is the one `a` exposed.
pub open spec fn memory_view_unchanged<M: MemoryAccess>(a: M, b: M) -> bool {
    &&& forall|addr: u32| #[trigger] b.word_at(addr) == a.word_at(addr)
    &&& forall|addr: u32| #[trigger] b.faulting(addr) == a.faulting(addr)
    &&& b.operational() == a.operational()
}

/// Base address of the component table.
pub const ROM_TABLE_BASE: u32 = 0xE00F_F000;

/// Slots scanned before the walk gives up on finding a terminator.
pub const ROM_TABLE_MAX_ENTRIES: u32 = 32;

/// Offset of a component's device-type identification word.
pub const COMPONENT_TYPE_OFFSET: u32 = 0xFCC;

/// Device-type word of the data-watchpoint unit.
pub const DWT_TYPE_CODE: u32 = 0x04;

/// Device-type word of the instrumentation macrocell.
pub const ITM_TYPE_CODE: u32 = 0x43;

/// Offset of the watchpoint unit's first comparator register.
pub const DWT_COMP_OFFSET: u32 = 0x20;

/// Offset of the first comparator's address-mask register.
pub const DWT_MASK_OFFSET: u32 = 0x24;

/// Offset of the first comparator's function register.
pub const DWT_FUNCTION_OFFSET: u32 = 0x28;

/// Function-register value that emits a trace packet on data access.
pub const DWT_FUNCTION_DATA_TRACE: u32 = 0x3;

/// Offset of the macrocell's lock-access register.
pub const ITM_LOCK_OFFSET: u32 = 0xFB0;

/// Key that unlocks the macrocell's registers for writing.
pub const ITM_LOCK_KEY: u32 = 0xC5AC_CE55;

/// Offset of the macrocell's control register.
pub const ITM_CONTROL_OFFSET: u32 = 0xE80;

/// Control-register value that enables the macrocell and timestamping.
pub const ITM_CONTROL_ENABLE: u32 = 0x0000_000D;

/// Control-register overflow flag, cleared by `poll`.
pub const ITM_OVERFLOW_MASK: u32 = 0x0000_0002;

/// The memory address the startup interaction configures tracing for.
pub const TRACE_VARIABLE_ADDRESS: u32 = 0x2000_0004;

/// A discovered debug component: its device-type identification word and
/// the base address of its register block.
#[derive(Clone, Copy, Debug, PartialEq, Eq, Structural)]
pub struct DebugComponent {
    /// Device-type word read at `base +` [`COMPONENT_TYPE_OFFSET`].
    pub type_code: u32,
    /// Base address of the component's 4 KiB register block.
    pub base: u32,
}

/// The components the table walk discovers in `m` from slot `i` on.
pub open spec fn walk_components<M: MemoryAccess>(m: M, i: int) -> Seq<DebugComponent>
    decreases ROM_TABLE_MAX_ENTRIES - i,
{
    if i < 0 || i >= ROM_TABLE_MAX_ENTRIES {
        Seq::<DebugComponent>::empty()
    } else {
        let e = m.word_at((ROM_TABLE_BASE + 4 * i) as u32);
        if e == 0 {
            Seq::<DebugComponent>::empty()
        } else if e & 1 == 0 {
            walk_components(m, i + 1)
        } else {
            let base = e & 0xFFFF_F000;
            seq![
                DebugComponent { type_code: m.word_at((base + COMPONENT_TYPE_OFFSET) as u32), base },
            ] + walk_components(m, i + 1)
        }
    }
}

/// No address the table walk over `m` touches from slot `i` on faults.
pub open spec fn walk_clean<M: MemoryAccess>(m: M, i: int) -> bool
    decreases ROM_TABLE_MAX_ENTRIES - i,
{
    if i < 0 || i >= ROM_TABLE_MAX_ENTRIES {
        true
    } else if m.faulting((ROM_TABLE_BASE + 4 * i) as u32) {
        false
    } else {
        let e = m.word_at((ROM_TABLE_BASE + 4 * i) as u32);
        if e == 0 {
            true
        } else if e & 1 == 0 {
            walk_clean(m, i + 1)
        } else {
            !m.faulting(((e & 0xFFFF_F000) + COMPONENT_TYPE_OFFSET) as u32) && walk_clean(m, i + 1)
        }
    }
}

/// First component of the given device type, in discovery order.
pub open spec fn find_component(s: Seq<DebugComponent>, code: u32) -> Option<DebugComponent>
    decreases s.len(),
{
    if s.len() == 0 {
        None
    } else if s[0].type_code == code {
        Some(s[0])
    } else {
        find_component(s.skip(1), code)
    }
}

proof fn lemma_find_component_found(s: Seq<DebugComponent>, code: u32)
    ensures
        find_component(s, code) matches Some(c) ==> s.contains(c) && c.type_code == code,
    decreases s.len(),
{
    if s.len() != 0 && s[0].type_code != code {
        lemma_find_component_found(s.skip(1), code);
        match find_component(s.skip(1), code) {
            Some(c) => {
                let i = choose|i: int| 0 <= i < s.skip(1).len() && s.skip(1)[i] == c;
                assert(s[i + 1] == c);
            },
            None => {},
        }
    }
}

/// The word at `a` after the five trace-configuration writes, given it
/// held `prev` before: the comparator, mask and function registers of the
/// watchpoint unit and the lock and control registers of the macrocell
/// take their configured values; everything else keeps its word.
pub open spec fn trace_configured_value(
    dwt: DebugComponent,
    itm: DebugComponent,
    address: u32,
    prev: u32,
    a: u32,
) -> u32 {
    if a == (dwt.base + DWT_FUNCTION_OFFSET) as u32 {
        DWT_FUNCTION_DATA_TRACE
    } else if a == (dwt.base + DWT_MASK_OFFSET) as u32 {
        0
    } else if a == (dwt.base + DWT_COMP_OFFSET) as u32 {
        address
    } else if a == (itm.base + ITM_CONTROL_OFFSET) as u32 {
        ITM_CONTROL_ENABLE
    } else if a == (itm.base + ITM_LOCK_OFFSET) as u32 {
        ITM_LOCK_KEY
    } else {
        prev
    }
}

/// Configuring trace twice for the same address has the same effect as
/// configuring it once: the configured memory state is a fixpoint of the
/// configuration writes.
pub proof fn lemma_trace_configuration_idempotent(
    dwt: DebugComponent,
    itm: DebugComponent,
    address: u32,
    prev: u32,
    a: u32,
)
    ensures
        trace_configured_value(
            dwt,
            itm,
            address,
            trace_configured_value(dwt, itm, address, prev, a),
            a,
        ) == trace_configured_value(dwt, itm, address, prev, a),
{
}

/// Everything a full trace session needs of the target: a sound link, a
/// cleanly walkable table, a watchpoint unit and a macrocell among the
/// discovered components, and non-faulting configuration registers.
pub open spec fn trace_session_viable<M: MemoryAccess>(m: M) -> bool {
    &&& m.operational()
    &&& walk_clean(m, 0)
    &&& (find_component(walk_components(m, 0), DWT_TYPE_CODE) matches Some(dwt)
        && find_component(walk_components(m, 0), ITM_TYPE_CODE) matches Some(itm) && !m.faulting(
        (dwt.base + DWT_COMP_OFFSET) as u32,
    ) && !m.faulting((dwt.base + DWT_MASK_OFFSET) as u32) && !m.faulting(
        (dwt.base + DWT_FUNCTION_OFFSET) as u32,
    ) && !m.faulting((itm.base + ITM_LOCK_OFFSET) as u32) && !m.faulting(
        (itm.base + ITM_CONTROL_OFFSET) as u32,
    ))
}

/// A debug target: owns the set of discovered debug components, created
/// empty and replaced wholesale by each discovery pass. It borrows a
/// [`MemoryAccess`] implementation per call rather than owning the probe.
pub struct Target {
    components: Vec<DebugComponent>,
}

impl Target {
    /// The discovered components, in table order.
    pub closed spec fn components(&self) -> Seq<DebugComponent> {
        self.components@
    }

    /// Every discovered component's register block sits below the top of
    /// the 32-bit address space, so register offsets never wrap.
    pub open spec fn wf(&self) -> bool {
        forall|i: int|
            0 <= i < self.components().len() ==> (#[trigger] self.components()[i]).base
                <= 0xFFFF_F000
    }

    /// A target with no components discovered yet.
    pub fn new() -> (t: Target)
        ensures
            t.components() == Seq::<DebugComponent>::empty(),
            t.wf(),
    {
        Target { components: Vec::new() }
    }

    /// How many components the last discovery pass recorded.
    pub fn component_count(&self) -> (n: usize)
        ensures
            n == self.components().len(),
    {
        self.components.len()
    }

    /// The `i`-th discovered component.
    pub fn component_at(&self, i: usize) -> (c: DebugComponent)
        requires
            i < self.components().len(),
        ensures
            c == self.components()[i as int],
    {
        self.components[i]
    }

    fn find(&self, code: u32) -> (r: Option<DebugComponent>)
        ensures
            r == find_component(self.components(), code),
    {
        let mut i: usize = 0;
        assert(self.components@.skip(0) =~= self.components@);
        while i < self.components.len()
            invariant
                i <= self.components@.len(),
                find_component(self.components@, code) == find_component(
                    self.components@.skip(i as int),
                    code,
                ),
            decreases self.components@.len() - i,
        {
            assert(self.components@.skip(i as int)[0] == self.components@[i as int]);
            if self.components[i].type_code == code {
                return Some(self.components[i]);
            }
            assert(self.components@.skip(i as int).skip(1) =~= self.components@.skip(i + 1));
            i += 1;
        }
        assert(self.components@.skip(i as int) =~= Seq::<DebugComponent>::empty());
        None
    }

    /// Walks the component table and records a component for each present
    /// entry; a terminator or the slot cap ends the walk without error.
    /// Replaces whatever a previous pass discovered. Over a sound link and
    /// a cleanly walkable table, discovery succeeds.
    pub fn read_debug_components<M: MemoryAccess>(&mut self, access: &mut M) -> (r: Result<
        (),
        CoreSightError,
    >)
        ensures
            memory_view_unchanged(*old(access), *final(access)),
            final(self).wf(),
            old(access).operational() && walk_clean(*old(access), 0) ==> r is Ok,
            r is Ok ==> final(self).components() == walk_components(*old(access), 0),
            r is Err ==> r matches Err(CoreSightError::Access(_)),
    {
        let ghost am = *old(access);
        self.components = Vec::new();
        let mut i: u32 = 0;
        while i < ROM_TABLE_MAX_ENTRIES
            invariant
                i <= ROM_TABLE_MAX_ENTRIES,
                am == *old(access),
                memory_view_unchanged(am, *access),
                walk_components(am, 0) == self.components@ + walk_components(am, i as int),
                walk_clean(am, 0) ==> walk_clean(am, i as int),
                forall|j: int|
                    0 <= j < self.components@.len() ==> (#[trigger] self.components@[j]).base
                        <= 0xFFFF_F000,
            decreases ROM_TABLE_MAX_ENTRIES - i,
        {
            let entry_addr = ROM_TABLE_BASE + 4 * i;
            let entry = match access.read_u32(entry_addr) {
                Ok(v) => v,
                Err(e) => {
                    return Err(CoreSightError::Access(e));
                },
            };
            if entry == 0 {
                proof {
                    assert(walk_components(am, i as int) =~= Seq::<DebugComponent>::empty());
                    assert(self.components@ + Seq::<DebugComponent>::empty() =~= self.components@);
                }
                return Ok(());
            }
            if entry & 1 == 0 {
                i += 1;
            } else {
                let base = entry & 0xFFFF_F000;
                assert(entry & 0xFFFF_F000 <= 0xFFFF_F000u32) by (bit_vector);
                let type_code = match access.read_u32(base + COMPONENT_TYPE_OFFSET) {
                    Ok(v) => v,
                    Err(e) => {
                        return Err(CoreSightError::Access(e));
                    },
                };
                let c = DebugComponent { type_code, base };
                proof {
                    assert(walk_components(am, i as int) =~= seq![c] + walk_components(
                        am,
                        i + 1,
                    ));
                    assert(self.components@ + walk_components(am, i as int) =~= self.components@
                        .push(c) + walk_components(am, i + 1));
                }
                self.components.push(c);
                i += 1;
            }
        }
        proof {
            assert(walk_components(am, ROM_TABLE_MAX_ENTRIES as int) =~= Seq::<
                DebugComponent,
            >::empty());
            assert(self.components@ + Seq::<DebugComponent>::empty() =~= self.components@);
        }
        Ok(())
    }

    /// Configures the discovered watchpoint unit and macrocell so that
    /// accesses to `address` are emitted into the trace stream. Retargets
    /// on a new address; reconfigures to the same effect on the same one.
    /// Fails with [`CoreSightError::NoTraceComponent`] — exactly — when no
    /// watchpoint unit or no macrocell was discovered.
    pub fn start_trace_memory_address<M: MemoryAccess>(
        &self,
        access: &mut M,
        address: u32,
    ) -> (r: Result<(), CoreSightError>)
        requires
            self.wf(),
        ensures
            forall|a: u32| #[trigger] final(access).faulting(a) == old(access).faulting(a),
            final(access).operational() == old(access).operational(),
            r matches Err(CoreSightError::NoTraceComponent) <==> (find_component(
                self.components(),
                DWT_TYPE_CODE,
            ) is None || find_component(self.components(), ITM_TYPE_CODE) is None),
            r is Ok ==> (find_component(self.components(), DWT_TYPE_CODE) matches Some(dwt)
                && find_component(self.components(), ITM_TYPE_CODE) matches Some(itm) && (
            forall|a: u32|
                #[trigger] final(access).word_at(a) == trace_configured_value(
                    dwt,
                    itm,
                    address,
                    old(access).word_at(a),
                    a,
                ))),
            old(access).operational() && (find_component(self.components(), DWT_TYPE_CODE)
                matches Some(dwt) && find_component(self.components(), ITM_TYPE_CODE)
                matches Some(itm) && !old(access).faulting((dwt.base + DWT_COMP_OFFSET) as u32)
                && !old(access).faulting((dwt.base + DWT_MASK_OFFSET) as u32) && !old(access).faulting(
                (dwt.base + DWT_FUNCTION_OFFSET) as u32,
            ) && !old(access).faulting((itm.base + ITM_LOCK_OFFSET) as u32) && !old(access).faulting(
                (itm.base + ITM_CONTROL_OFFSET) as u32,
            )) ==> r is Ok,
    {
        proof {
            lemma_find_component_found(self.components(), DWT_TYPE_CODE);
            lemma_find_component_found(self.components(), ITM_TYPE_CODE);
        }
        let dwt = match self.find(DWT_TYPE_CODE) {
            Some(c) => c,
            None => {
                return Err(CoreSightError::NoTraceComponent);
            },
        };
        let itm = match self.find(ITM_TYPE_CODE) {
            Some(c) => c,
            None => {
                return Err(CoreSightError::NoTraceComponent);
            },
        };
        match access.write_u32(itm.base + ITM_LOCK_OFFSET, ITM_LOCK_KEY) {
            Ok(()) => (),
            Err(e) => {
                return Err(CoreSightError::Access(e));
            },
        };
        match access.write_u32(itm.base + ITM_CONTROL_OFFSET, ITM_CONTROL_ENABLE) {
            Ok(()) => (),
            Err(e) => {
                return Err(CoreSightError::Access(e));
            },
        };
        match access.write_u32(dwt.base + DWT_COMP_OFFSET, address) {
            Ok(()) => (),
            Err(e) => {
                return Err(CoreSightError::Access(e));
            },
        };
        match access.write_u32(dwt.base + DWT_MASK_OFFSET, 0) {
            Ok(()) => (),
            Err(e) => {
                return Err(CoreSightError::Access(e));
            },
        };
        match access.write_u32(dwt.base + DWT_FUNCTION_OFFSET, DWT_FUNCTION_DATA_TRACE) {
            Ok(()) => (),
            Err(e) => {
                return Err(CoreSightError::Access(e));
            },
        };
        Ok(())
    }

    /// Services component-level status: clears the macrocell's overflow
    /// flag if it is set. Reads no trace bytes — those come from the
    /// probe's trace buffer, a separate channel. A no-op when no
    /// macrocell was discovered.
    pub fn poll<M: MemoryAccess>(&self, access: &mut M) -> (r: Result<(), CoreSightError>)
        requires
            self.wf(),
        ensures
            forall|a: u32| #[trigger] final(access).faulting(a) == old(access).faulting(a),
            final(access).operational() == old(access).operational(),
            find_component(self.components(), ITM_TYPE_CODE) is None ==> r is Ok && (forall|a: u32|
                #[trigger] final(access).word_at(a) == old(access).word_at(a)),
            r is Ok ==> (find_component(self.components(), ITM_TYPE_CODE) matches Some(itm) ==> (
            forall|a: u32|
                #[trigger] final(access).word_at(a) == (if a == (itm.base
                    + ITM_CONTROL_OFFSET) as u32 {
                    old(access).word_at(a) & !ITM_OVERFLOW_MASK
                } else {
                    old(access).word_at(a)
                }))),
            old(access).operational() && (find_component(self.components(), ITM_TYPE_CODE)
                matches Some(itm) ==> !old(access).faulting((itm.base + ITM_CONTROL_OFFSET) as u32))
                ==> r is Ok,
            r is Err ==> r matches Err(CoreSightError::Access(_)),
    {
        proof {
            lemma_find_component_found(self.components(), ITM_TYPE_CODE);
        }
        let itm = match self.find(ITM_TYPE_CODE) {
            Some(c) => c,
            None => {
                return Ok(());
            },
        };
        let control_addr = itm.base + ITM_CONTROL_OFFSET;
        let status = match access.read_u32(control_addr) {
            Ok(v) => v,
            Err(e) => {
                return Err(CoreSightError::Access(e));
            },
        };
        if status & ITM_OVERFLOW_MASK != 0 {
            match access.write_u32(control_addr, status & !ITM_OVERFLOW_MASK) {
                Ok(()) => (),
                Err(e) => {
                    return Err(CoreSightError::Access(e));
                },
            };
        } else {
            assert(status & !0x0000_0002u32 == status) by (bit_vector)
                requires
                    status & 0x0000_0002u32 == 0,
            ;
        }
        Ok(())
    }
}

/// Discovery-and-trace session setup: discover the debug components,
/// configure tracing of [`TRACE_VARIABLE_ADDRESS`], and service component
/// status a few times. On success the target's memory holds the trace
/// configuration, with the macrocell's overflow flag cleared.
pub fn interact2<M: MemoryAccess>(mem_access: &mut M) -> (r: Result<(), CoreSightError>)
    ensures
        forall|a: u32| #[trigger] final(mem_access).faulting(a) == old(mem_access).faulting(a),
        final(mem_access).operational() == old(mem_access).operational(),
        trace_session_viable(*old(mem_access)) ==> r is Ok,
        r is Ok ==> (find_component(walk_components(*old(mem_access), 0), DWT_TYPE_CODE)
            matches Some(dwt) && find_component(walk_components(*old(mem_access), 0), ITM_TYPE_CODE)
            matches Some(itm) && (forall|a: u32|
            #[trigger] final(mem_access).word_at(a) == (if a == (itm.base
                + ITM_CONTROL_OFFSET) as u32 {
                trace_configured_value(
                    dwt,
                    itm,
                    TRACE_VARIABLE_ADDRESS,
                    old(mem_access).word_at(a),
                    a,
                ) & !ITM_OVERFLOW_MASK
            } else {
                trace_configured_value(
                    dwt,
                    itm,
                    TRACE_VARIABLE_ADDRESS,
                    old(mem_access).word_at(a),
                    a,
                )
            }))),
{
    let ghost am = *old(mem_access);
    let mut target = Target::new();
    match target.read_debug_components(mem_access) {
        Ok(()) => (),
        Err(e) => {
            return Err(e);
        },
    };
    match target.start_trace_memory_address(mem_access, TRACE_VARIABLE_ADDRESS) {
        Ok(()) => (),
        Err(e) => {
            return Err(e);
        },
    };
    let ghost dwt_c = choose|c: DebugComponent|
        find_component(target.components(), DWT_TYPE_CODE) == Some(c);
    let ghost itm_c = choose|c: DebugComponent|
        find_component(target.components(), ITM_TYPE_CODE) == Some(c);
    let ghost ctrl: u32 = (itm_c.base + ITM_CONTROL_OFFSET) as u32;
    let ghost cfg = *mem_access;
    let mut j: u32 = 1;
    while j < 10
        invariant
            1 <= j <= 10,
            am == *old(mem_access),
            target.wf(),
            target.components() == walk_components(am, 0),
            find_component(target.components(), DWT_TYPE_CODE) == Some(dwt_c),
            find_component(target.components(), ITM_TYPE_CODE) == Some(itm_c),
            ctrl == (itm_c.base + ITM_CONTROL_OFFSET) as u32,
            forall|a: u32|
                #[trigger] cfg.word_at(a) == trace_configured_value(
                    dwt_c,
                    itm_c,
                    TRACE_VARIABLE_ADDRESS,
                    am.word_at(a),
                    a,
                ),
            forall|a: u32| #[trigger] mem_access.faulting(a) == am.faulting(a),
            mem_access.operational() == am.operational(),
            forall|a: u32| a != ctrl ==> #[trigger] mem_access.word_at(a) == cfg.word_at(a),
            j == 1 ==> mem_access.word_at(ctrl) == cfg.word_at(ctrl),
            j > 1 ==> mem_access.word_at(ctrl) == cfg.word_at(ctrl) & !ITM_OVERFLOW_MASK,
        decreases 10 - j,
    {
        let ghost before = *mem_access;
        match target.poll(mem_access) {
            Ok(()) => (),
            Err(e) => {
                return Err(e);
            },
        };
        proof {
            let v = cfg.word_at(ctrl);
            assert((v & !0x0000_0002u32) & !0x0000_0002u32 == v & !0x0000_0002u32)
                by (bit_vector);
        }
        j += 1;
    }
    Ok(())
}

} // verus!
