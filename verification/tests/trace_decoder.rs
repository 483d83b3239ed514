//! Tests of the streaming trace decoder: framing, chunking independence,
//! resynchronization and the encode/decode round trip.

use swviewer::trace::encode_packet;
use swviewer::Decoder;
use swviewer::TracePacket;

fn drain(d: &mut Decoder) -> Vec<TracePacket> {
    let mut out = Vec::new();
    while let Some(p) = d.pull() {
        out.push(p);
    }
    out
}

#[test]
fn decodes_one_byte_payload_packet() {
    let mut d = Decoder::new();
    // Header 0x09: source 1, one payload byte.
    d.feed(vec![0x09, 0xAA]);
    let p = d.pull().expect("one packet");
    assert_eq!(p.source, 1);
    assert_eq!(p.payload, vec![0xAA]);
    assert!(d.pull().is_none());
}

#[test]
fn decodes_two_and_four_byte_payload_packets() {
    let mut d = Decoder::new();
    // 0x12: source 2, two bytes; 0x1B: source 3, four bytes.
    d.feed(vec![0x12, 0x01, 0x02, 0x1B, 0x03, 0x04, 0x05, 0x06]);
    let p1 = d.pull().expect("first packet");
    assert_eq!(p1.source, 2);
    assert_eq!(p1.payload, vec![0x01, 0x02]);
    let p2 = d.pull().expect("second packet");
    assert_eq!(p2.source, 3);
    assert_eq!(p2.payload, vec![0x03, 0x04, 0x05, 0x06]);
    assert!(d.pull().is_none());
}

#[test]
fn incomplete_packet_waits_for_more_bytes() {
    let mut d = Decoder::new();
    d.feed(vec![0x1B, 0x03, 0x04]);
    assert!(d.pull().is_none());
    d.feed(vec![0x05, 0x06]);
    let p = d.pull().expect("completed packet");
    assert_eq!(p.source, 3);
    assert_eq!(p.payload, vec![0x03, 0x04, 0x05, 0x06]);
}

#[test]
fn pull_is_fifo() {
    let mut d = Decoder::new();
    d.feed(vec![0x09, 0x01, 0x11, 0x02, 0x19, 0x03]);
    let sources: Vec<u8> = drain(&mut d).iter().map(|p| p.source).collect();
    assert_eq!(sources, vec![1, 2, 3]);
}

#[test]
fn chunking_byte_at_a_time_matches_all_at_once() {
    let stream: Vec<u8> = vec![
        0x09, 0xAA, // complete one-byte packet
        0x00, // junk byte
        0x12, 0x01, 0x02, // complete two-byte packet
        0x04, // junk byte (bit 2 set)
        0x1B, 0x03, 0x04, 0x05, 0x06, // complete four-byte packet
        0x0B, 0x07, // incomplete packet, stays buffered
    ];

    let mut whole = Decoder::new();
    whole.feed(stream.clone());
    let at_once = drain(&mut whole);

    let mut stepped = Decoder::new();
    let mut one_by_one = Vec::new();
    for b in &stream {
        stepped.feed(vec![*b]);
        one_by_one.extend(drain(&mut stepped));
    }

    assert_eq!(at_once.len(), one_by_one.len());
    for (a, b) in at_once.iter().zip(one_by_one.iter()) {
        assert_eq!(a.source, b.source);
        assert_eq!(a.payload, b.payload);
    }
}

#[test]
fn resynchronizes_after_corrupted_byte() {
    let mut d = Decoder::new();
    let mut stream = encode_packet(5, &vec![0x10, 0x20]);
    stream.push(0x00); // corrupted byte between the packets
    stream.extend(encode_packet(6, &vec![0x30]));
    d.feed(stream);
    let packets = drain(&mut d);
    assert_eq!(packets.len(), 2);
    assert_eq!(packets[0].source, 5);
    assert_eq!(packets[0].payload, vec![0x10, 0x20]);
    assert_eq!(packets[1].source, 6);
    assert_eq!(packets[1].payload, vec![0x30]);
}

#[test]
fn round_trip_preserves_payload_bytes() {
    let payload = vec![0xDE, 0xAD, 0xBE, 0xEF];
    let encoded = encode_packet(9, &payload);
    assert_eq!(encoded.len(), 5);
    let mut d = Decoder::new();
    d.feed(encoded);
    let p = d.pull().expect("round-tripped packet");
    assert_eq!(p.source, 9);
    assert_eq!(p.payload, payload);
    assert!(d.pull().is_none());
}
