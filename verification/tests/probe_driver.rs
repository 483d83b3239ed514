//! Tests of the probe driver: command framing, response parsing, the mode
//! state machine and the startup interaction.

use swviewer::enter_proper_mode;
use swviewer::interact;
use swviewer::probe::cmd_dfu_exit;
use swviewer::probe::cmd_enter_debug;
use swviewer::probe::cmd_get_current_mode;
use swviewer::probe::cmd_get_trace_count;
use swviewer::probe::cmd_get_version;
use swviewer::probe::cmd_read_debug32;
use swviewer::probe::cmd_write_debug32;
use swviewer::probe::mode_from_byte;
use swviewer::probe::parse_debug_read_response;
use swviewer::probe::parse_trace_count_response;
use swviewer::probe::parse_version_response;
use swviewer::probe::CHIP_ID_ADDRESS;
use swviewer::read_chip_id;
use swviewer::DebugAccessError;
use swviewer::FakeProbe;
use swviewer::ProbeCommand;
use swviewer::ProbeOps;
use swviewer::StLinkError;
use swviewer::StLinkMode;
use swviewer::TransportError;

#[test]
fn mode_bytes_decode() {
    assert_eq!(mode_from_byte(0x00), StLinkMode::Dfu);
    assert_eq!(mode_from_byte(0x01), StLinkMode::Mass);
    assert_eq!(mode_from_byte(0x02), StLinkMode::Debug);
    assert_eq!(mode_from_byte(0x55), StLinkMode::Unknown);
}

#[test]
fn command_frames_are_sixteen_zero_padded_bytes() {
    let frames = vec![
        (cmd_get_version(), vec![0xF1]),
        (cmd_get_current_mode(), vec![0xF5]),
        (cmd_dfu_exit(), vec![0xF3, 0x07]),
        (cmd_enter_debug(), vec![0xF2, 0x30, 0xA3]),
        (cmd_get_trace_count(), vec![0xF2, 0x42]),
        (cmd_read_debug32(0x1234_5678), vec![0xF2, 0x36, 0x78, 0x56, 0x34, 0x12]),
        (
            cmd_write_debug32(0x1234_5678, 0xCAFE_F00D),
            vec![0xF2, 0x35, 0x78, 0x56, 0x34, 0x12, 0x0D, 0xF0, 0xFE, 0xCA],
        ),
    ];
    for (frame, head) in frames {
        assert_eq!(frame.len(), 16);
        assert_eq!(&frame[..head.len()], &head[..]);
        for b in &frame[head.len()..] {
            assert_eq!(*b, 0);
        }
    }
}

#[test]
fn version_response_splits_fields() {
    // 0x2485: generation 2, debug firmware 18, SWIM firmware 5.
    let v = parse_version_response(&vec![0x24, 0x85, 0x00, 0x00, 0x00, 0x00]);
    assert_eq!(v.major, 2);
    assert_eq!(v.jtag, 18);
    assert_eq!(v.swim, 5);
}

#[test]
fn debug_read_response_parses_status_and_word() {
    let ok = parse_debug_read_response(&vec![0x80, 0, 0, 0, 0x78, 0x56, 0x34, 0x12]);
    assert_eq!(ok, Ok(0x1234_5678));
    let err = parse_debug_read_response(&vec![0x11, 0, 0, 0, 0, 0, 0, 0]);
    assert_eq!(err, Err(DebugAccessError { status: 0x11 }));
}

#[test]
fn trace_count_response_is_little_endian() {
    assert_eq!(parse_trace_count_response(&vec![0x64, 0x00]), 100);
    assert_eq!(parse_trace_count_response(&vec![0x01, 0x02]), 0x0201);
}

#[test]
fn enter_proper_mode_from_firmware_update_reaches_debug() {
    // The probe starts in firmware-update mode and leaves it into
    // mass-storage mode; the canonical sequence must then enter debug mode.
    let mut probe = FakeProbe::new(StLinkMode::Dfu);
    assert_eq!(enter_proper_mode(&mut probe), Ok(()));
    assert_eq!(probe.get_mode(), Ok(StLinkMode::Debug));
    // leave-firmware-update, re-query, enter-debug, in that order.
    let expected = vec![
        ProbeCommand::GetMode,
        ProbeCommand::LeaveDfu,
        ProbeCommand::GetMode,
        ProbeCommand::EnterDebug,
        ProbeCommand::GetMode,
        ProbeCommand::GetMode, // the final assertion's own query
    ];
    assert_eq!(probe.issued_len(), expected.len());
    for (i, c) in expected.iter().enumerate() {
        assert_eq!(probe.issued_at(i), *c);
    }
}

#[test]
fn enter_proper_mode_twice_is_idempotent() {
    let mut probe = FakeProbe::new(StLinkMode::Dfu);
    assert_eq!(enter_proper_mode(&mut probe), Ok(()));
    assert_eq!(enter_proper_mode(&mut probe), Ok(()));
    assert_eq!(probe.get_mode(), Ok(StLinkMode::Debug));

    let mut from_mass = FakeProbe::new(StLinkMode::Mass);
    assert_eq!(enter_proper_mode(&mut from_mass), Ok(()));
    assert_eq!(enter_proper_mode(&mut from_mass), Ok(()));
    assert_eq!(from_mass.get_mode(), Ok(StLinkMode::Debug));

    let mut from_debug = FakeProbe::new(StLinkMode::Debug);
    assert_eq!(enter_proper_mode(&mut from_debug), Ok(()));
    assert_eq!(enter_proper_mode(&mut from_debug), Ok(()));
    assert_eq!(from_debug.get_mode(), Ok(StLinkMode::Debug));
}

#[test]
fn leave_firmware_update_may_land_in_debug_directly() {
    // The state machine allows leave-firmware-update to settle in debug
    // mode; the sequence then has nothing left to do.
    let mut probe = FakeProbe::new(StLinkMode::Dfu);
    probe.set_dfu_exit_to_debug(true);
    assert_eq!(enter_proper_mode(&mut probe), Ok(()));
    assert_eq!(probe.get_mode(), Ok(StLinkMode::Debug));
    let expected = vec![
        ProbeCommand::GetMode,
        ProbeCommand::LeaveDfu,
        ProbeCommand::GetMode,
        ProbeCommand::GetMode, // the assertion's own query; no enter-debug
    ];
    assert_eq!(probe.issued_len(), expected.len());
    for (i, c) in expected.iter().enumerate() {
        assert_eq!(probe.issued_at(i), *c);
    }
}

#[test]
fn enter_proper_mode_surfaces_transport_fault() {
    let mut probe = FakeProbe::new(StLinkMode::Dfu);
    probe.set_link_ok(false);
    assert_eq!(enter_proper_mode(&mut probe), Err(TransportError::Timeout));
}

#[test]
fn read_chip_id_reads_the_identification_word() {
    let mut probe = FakeProbe::new(StLinkMode::Debug);
    probe.poke(CHIP_ID_ADDRESS, 0x0000_0413);
    assert_eq!(read_chip_id(&mut probe), Ok(0x0000_0413));
}

#[test]
fn faulting_register_read_reports_access_error_without_side_effects() {
    let mut probe = FakeProbe::new(StLinkMode::Debug);
    probe.mark_faulty(CHIP_ID_ADDRESS);
    let before = probe.remaining_trace_len();
    match read_chip_id(&mut probe) {
        Err(StLinkError::Access(_)) => {}
        other => panic!("expected an access fault, got {:?}", other),
    }
    // The fault mutates nothing beside the command log.
    assert_eq!(probe.remaining_trace_len(), before);
    assert_eq!(probe.get_mode(), Ok(StLinkMode::Debug));
}

#[test]
fn interact_reports_version_and_chip_id() {
    let mut probe = FakeProbe::new(StLinkMode::Mass);
    probe.poke(CHIP_ID_ADDRESS, 0x0000_0413);
    let info = interact(&mut probe).expect("interaction succeeds");
    assert_eq!(info.chip_id, 0x0000_0413);
    assert_eq!(info.version.major, 2);
    assert_eq!(probe.get_mode(), Ok(StLinkMode::Debug));
}

#[test]
fn interact_surfaces_transport_fault() {
    let mut probe = FakeProbe::new(StLinkMode::Mass);
    probe.set_link_ok(false);
    assert_eq!(
        interact(&mut probe).map(|_| ()),
        Err(StLinkError::Transport(TransportError::Timeout))
    );
}

#[test]
fn transport_error_describes_itself() {
    assert!(!TransportError::Timeout.describe().is_empty());
    assert!(!TransportError::Io.describe().is_empty());
    assert!(!DebugAccessError { status: 0x11 }.describe().is_empty());
}
