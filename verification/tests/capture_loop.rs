//! Tests of the capture step: poll, read, feed, drain — and the
//! poll/read race, where a short read must be tolerated.

use swviewer::capture_step;
use swviewer::Decoder;
use swviewer::FakeProbe;
use swviewer::StLinkMode;
use swviewer::TransportError;

#[test]
fn capture_step_drains_buffered_packets() {
    let mut probe = FakeProbe::new(StLinkMode::Debug);
    // Two complete packets buffered on the probe.
    probe.load_trace(vec![0x09, 0xAA, 0x12, 0x01, 0x02]);
    let mut decoder = Decoder::new();
    let packets = capture_step(&mut probe, &mut decoder).expect("capture succeeds");
    assert_eq!(packets.len(), 2);
    assert_eq!(packets[0].source, 1);
    assert_eq!(packets[0].payload, vec![0xAA]);
    assert_eq!(packets[1].source, 2);
    assert_eq!(packets[1].payload, vec![0x01, 0x02]);
    assert_eq!(probe.remaining_trace_len(), 0);
}

#[test]
fn capture_step_with_empty_buffer_returns_no_packets() {
    let mut probe = FakeProbe::new(StLinkMode::Debug);
    let mut decoder = Decoder::new();
    let packets = capture_step(&mut probe, &mut decoder).expect("capture succeeds");
    assert!(packets.is_empty());
}

#[test]
fn short_read_is_tolerated_and_feeds_exactly_what_arrived() {
    let mut probe = FakeProbe::new(StLinkMode::Debug);
    // 100 buffered bytes: twenty five-byte packets.
    let mut stream = Vec::new();
    for i in 0..20u8 {
        stream.extend(vec![0x0B, i, i, i, i]); // source 1, four payload bytes
    }
    probe.load_trace(stream);
    // The count query reports 100, but a single read hands out 40 bytes.
    probe.set_read_limit(40);
    let mut decoder = Decoder::new();
    let packets = capture_step(&mut probe, &mut decoder).expect("short read is not fatal");
    // Exactly the 40 bytes that arrived were fed: eight whole packets.
    assert_eq!(packets.len(), 8);
    assert_eq!(probe.remaining_trace_len(), 60);
    // The next ticks pick up where the stream left off, 40 bytes at a time.
    let more = capture_step(&mut probe, &mut decoder).expect("second tick succeeds");
    assert_eq!(more.len(), 8);
    assert_eq!(probe.remaining_trace_len(), 20);
    let last = capture_step(&mut probe, &mut decoder).expect("third tick succeeds");
    assert_eq!(last.len(), 4);
    assert_eq!(probe.remaining_trace_len(), 0);
}

#[test]
fn split_packet_across_ticks_is_reassembled() {
    let mut probe = FakeProbe::new(StLinkMode::Debug);
    probe.load_trace(vec![0x1B, 0x01, 0x02, 0x03, 0x04]);
    probe.set_read_limit(3); // the packet arrives over two ticks
    let mut decoder = Decoder::new();
    let first = capture_step(&mut probe, &mut decoder).expect("first tick");
    assert!(first.is_empty());
    let second = capture_step(&mut probe, &mut decoder).expect("second tick");
    assert_eq!(second.len(), 1);
    assert_eq!(second[0].source, 3);
    assert_eq!(second[0].payload, vec![0x01, 0x02, 0x03, 0x04]);
}

#[test]
fn capture_step_surfaces_transport_fault_and_keeps_decoder_state() {
    let mut probe = FakeProbe::new(StLinkMode::Debug);
    probe.load_trace(vec![0x09, 0xAA]);
    probe.set_link_ok(false);
    let mut decoder = Decoder::new();
    match capture_step(&mut probe, &mut decoder) {
        Err(TransportError::Timeout) => {}
        other => panic!("expected a timeout, got {:?}", other),
    }
    // Nothing was read and nothing decoded; a mended link picks it all up.
    assert_eq!(probe.remaining_trace_len(), 2);
    probe.set_link_ok(true);
    let packets = capture_step(&mut probe, &mut decoder).expect("retry succeeds");
    assert_eq!(packets.len(), 1);
}
