//! Tests of component discovery and trace configuration over a synthetic
//! component table held by the fake probe.

use swviewer::coresight::COMPONENT_TYPE_OFFSET;
use swviewer::coresight::DWT_COMP_OFFSET;
use swviewer::coresight::DWT_FUNCTION_DATA_TRACE;
use swviewer::coresight::DWT_FUNCTION_OFFSET;
use swviewer::coresight::DWT_MASK_OFFSET;
use swviewer::coresight::DWT_TYPE_CODE;
use swviewer::coresight::ITM_CONTROL_ENABLE;
use swviewer::coresight::ITM_CONTROL_OFFSET;
use swviewer::coresight::ITM_LOCK_KEY;
use swviewer::coresight::ITM_LOCK_OFFSET;
use swviewer::coresight::ITM_TYPE_CODE;
use swviewer::coresight::ROM_TABLE_BASE;
use swviewer::coresight::TRACE_VARIABLE_ADDRESS;
use swviewer::interact2;
use swviewer::CoreSightError;
use swviewer::FakeProbe;
use swviewer::MemoryAccess;
use swviewer::StLinkMode;
use swviewer::Target;

const DWT_BASE: u32 = 0xE000_1000;
const ITM_BASE: u32 = 0xE000_0000;

/// A table with a watchpoint unit and a macrocell, then a terminator.
fn fake_with_table() -> FakeProbe {
    let mut probe = FakeProbe::new(StLinkMode::Debug);
    probe.poke(ROM_TABLE_BASE, DWT_BASE | 1);
    probe.poke(DWT_BASE + COMPONENT_TYPE_OFFSET, DWT_TYPE_CODE);
    probe.poke(ROM_TABLE_BASE + 4, ITM_BASE | 1);
    probe.poke(ITM_BASE + COMPONENT_TYPE_OFFSET, ITM_TYPE_CODE);
    // The slot after the two entries reads as zero: the terminator.
    probe
}

#[test]
fn discovery_records_each_present_entry_until_terminator() {
    let mut probe = fake_with_table();
    let mut target = Target::new();
    assert_eq!(target.read_debug_components(&mut probe), Ok(()));
    assert_eq!(target.component_count(), 2);
    let first = target.component_at(0);
    assert_eq!(first.base, DWT_BASE);
    assert_eq!(first.type_code, DWT_TYPE_CODE);
    let second = target.component_at(1);
    assert_eq!(second.base, ITM_BASE);
    assert_eq!(second.type_code, ITM_TYPE_CODE);
}

#[test]
fn discovery_over_empty_table_yields_no_components_without_error() {
    let mut probe = FakeProbe::new(StLinkMode::Debug);
    let mut target = Target::new();
    assert_eq!(target.read_debug_components(&mut probe), Ok(()));
    assert_eq!(target.component_count(), 0);
}

#[test]
fn discovery_skips_non_present_entries() {
    let mut probe = FakeProbe::new(StLinkMode::Debug);
    probe.poke(ROM_TABLE_BASE, 0xE000_2000); // present bit clear: skipped
    probe.poke(ROM_TABLE_BASE + 4, DWT_BASE | 1);
    probe.poke(DWT_BASE + COMPONENT_TYPE_OFFSET, DWT_TYPE_CODE);
    let mut target = Target::new();
    assert_eq!(target.read_debug_components(&mut probe), Ok(()));
    assert_eq!(target.component_count(), 1);
    assert_eq!(target.component_at(0).base, DWT_BASE);
}

#[test]
fn discovery_replaces_the_previous_component_set() {
    let mut probe = fake_with_table();
    let mut target = Target::new();
    assert_eq!(target.read_debug_components(&mut probe), Ok(()));
    assert_eq!(target.component_count(), 2);
    let mut empty = FakeProbe::new(StLinkMode::Debug);
    assert_eq!(target.read_debug_components(&mut empty), Ok(()));
    assert_eq!(target.component_count(), 0);
}

#[test]
fn discovery_surfaces_table_read_fault() {
    let mut probe = FakeProbe::new(StLinkMode::Debug);
    probe.poke(ROM_TABLE_BASE, DWT_BASE | 1);
    probe.mark_faulty(DWT_BASE + COMPONENT_TYPE_OFFSET);
    let mut target = Target::new();
    match target.read_debug_components(&mut probe) {
        Err(CoreSightError::Access(_)) => {}
        other => panic!("expected an access fault, got {:?}", other),
    }
}

#[test]
fn faulting_read_leaves_discovery_state_alone() {
    let mut probe = fake_with_table();
    let mut target = Target::new();
    assert_eq!(target.read_debug_components(&mut probe), Ok(()));
    assert_eq!(target.component_count(), 2);
    probe.mark_faulty(0x2000_0000);
    assert!(probe.read_u32(0x2000_0000).is_err());
    assert_eq!(target.component_count(), 2);
    assert_eq!(target.component_at(0).base, DWT_BASE);
}

#[test]
fn start_trace_without_components_reports_no_trace_component() {
    let mut probe = FakeProbe::new(StLinkMode::Debug);
    let target = Target::new();
    assert_eq!(
        target.start_trace_memory_address(&mut probe, 0x2000_0000),
        Err(CoreSightError::NoTraceComponent)
    );
}

#[test]
fn start_trace_writes_the_configuration_registers() {
    let mut probe = fake_with_table();
    let mut target = Target::new();
    assert_eq!(target.read_debug_components(&mut probe), Ok(()));
    assert_eq!(target.start_trace_memory_address(&mut probe, 0x2000_0010), Ok(()));
    assert_eq!(probe.read_u32(DWT_BASE + DWT_COMP_OFFSET), Ok(0x2000_0010));
    assert_eq!(probe.read_u32(DWT_BASE + DWT_MASK_OFFSET), Ok(0));
    assert_eq!(probe.read_u32(DWT_BASE + DWT_FUNCTION_OFFSET), Ok(DWT_FUNCTION_DATA_TRACE));
    assert_eq!(probe.read_u32(ITM_BASE + ITM_LOCK_OFFSET), Ok(ITM_LOCK_KEY));
    assert_eq!(probe.read_u32(ITM_BASE + ITM_CONTROL_OFFSET), Ok(ITM_CONTROL_ENABLE));
    // Retargeting to another address reconfigures the comparator.
    assert_eq!(target.start_trace_memory_address(&mut probe, 0x2000_0020), Ok(()));
    assert_eq!(probe.read_u32(DWT_BASE + DWT_COMP_OFFSET), Ok(0x2000_0020));
}

#[test]
fn poll_clears_the_overflow_flag() {
    let mut probe = fake_with_table();
    let mut target = Target::new();
    assert_eq!(target.read_debug_components(&mut probe), Ok(()));
    probe.poke(ITM_BASE + ITM_CONTROL_OFFSET, ITM_CONTROL_ENABLE | 0x2);
    assert_eq!(target.poll(&mut probe), Ok(()));
    assert_eq!(probe.read_u32(ITM_BASE + ITM_CONTROL_OFFSET), Ok(ITM_CONTROL_ENABLE));
}

#[test]
fn interact2_discovers_and_configures_tracing() {
    let mut probe = fake_with_table();
    assert_eq!(interact2(&mut probe), Ok(()));
    assert_eq!(probe.read_u32(DWT_BASE + DWT_COMP_OFFSET), Ok(TRACE_VARIABLE_ADDRESS));
    assert_eq!(probe.read_u32(ITM_BASE + ITM_CONTROL_OFFSET), Ok(ITM_CONTROL_ENABLE));
}

#[test]
fn interact2_without_trace_components_fails() {
    let mut probe = FakeProbe::new(StLinkMode::Debug);
    assert_eq!(interact2(&mut probe), Err(CoreSightError::NoTraceComponent));
}
