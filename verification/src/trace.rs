//! Streaming decoder for the asynchronous instrumentation-trace byte stream.
//!
//! Framing convention (header byte / payload length):
//! - bits `[1:0]` of the header give the payload size: `01` = 1 byte,
//!   `10` = 2 bytes, `11` = 4 bytes; `00` marks a non-data byte,
//! - bit `[2]` must be clear for an instrumentation data packet,
//! - bits `[7:3]` carry the source (stimulus channel) identifier.
//!
//! A byte that is not a valid header is a recoverable decode fault: the
//! decoder discards it and resynchronizes on the next byte, so packets that
//! follow a corrupted byte are still decoded. A trailing incomplete packet
//! stays buffered until more bytes arrive, so the decoded packet sequence
//! does not depend on how the stream was chunked into `feed` calls.

use vstd::prelude::*;

verus! {

/// Spec-level image of a decoded trace packet: a source identifier and the
/// payload bytes.
pub struct TracePacketModel {
    pub source: u8,
    pub payload: Seq<u8>,
}

/// One decoded unit of the trace stream: an immutable value with a source
/// (stimulus channel) identifier and its payload bytes.
#[derive(Debug)]
pub struct TracePacket {
    /// Source / stimulus channel identifier (bits `[7:3]` of the header).
    pub source: u8,
    /// Payload bytes (1, 2 or 4 of them).
    pub payload: Vec<u8>,
}

impl View for TracePacket {
    type V = TracePacketModel;

    open spec fn view(&self) -> TracePacketModel {
        TracePacketModel { source: self.source, payload: self.payload@ }
    }
}

/// The packet views of a queue of decoded packets.
pub open spec fn packet_views(q: Seq<TracePacket>) -> Seq<TracePacketModel> {
    q.map_values(|p: TracePacket| p@)
}

/// Does `h` open an instrumentation data packet?
pub open spec fn valid_header(h: u8) -> bool {
    h & 0x03 != 0 && h & 0x04 == 0
}

/// Payload size encoded in a valid header byte.
pub open spec fn payload_len(h: u8) -> int {
    if h & 0x03 == 1 {
        1
    } else if h & 0x03 == 2 {
        2
    } else {
        4
    }
}

/// Source identifier carried in a header byte.
pub open spec fn source_of(h: u8) -> u8 {
    h >> 3
}

/// The packets that a complete pass over `s` decodes, in stream order.
/// Invalid bytes are skipped; a trailing incomplete packet yields nothing.
pub open spec fn decoded_packets(s: Seq<u8>) -> Seq<TracePacketModel>
    decreases s.len(),
{
    if s.len() == 0 {
        Seq::<TracePacketModel>::empty()
    } else if !valid_header(s[0]) {
        decoded_packets(s.skip(1))
    } else if s.len() >= payload_len(s[0]) + 1 {
        seq![
            TracePacketModel { source: source_of(s[0]), payload: s.subrange(1, payload_len(s[0]) + 1) },
        ] + decoded_packets(s.skip(payload_len(s[0]) + 1))
    } else {
        Seq::<TracePacketModel>::empty()
    }
}

/// The residual bytes a complete pass over `s` leaves buffered: empty, or
/// the prefix of a packet whose remaining payload bytes have not arrived.
pub open spec fn undecoded_rest(s: Seq<u8>) -> Seq<u8>
    decreases s.len(),
{
    if s.len() == 0 {
        Seq::<u8>::empty()
    } else if !valid_header(s[0]) {
        undecoded_rest(s.skip(1))
    } else if s.len() >= payload_len(s[0]) + 1 {
        undecoded_rest(s.skip(payload_len(s[0]) + 1))
    } else {
        s
    }
}

/// `s` is a pure residue: empty, or an incomplete packet starting at a valid
/// header. Exactly the shapes `undecoded_rest` can return.
pub open spec fn residue_only(s: Seq<u8>) -> bool {
    s.len() == 0 || (valid_header(s[0]) && s.len() < payload_len(s[0]) + 1)
}

/// A pure residue decodes to nothing and is its own rest.
pub proof fn lemma_residue_fixpoint(s: Seq<u8>)
    requires
        residue_only(s),
    ensures
        decoded_packets(s) == Seq::<TracePacketModel>::empty(),
        undecoded_rest(s) == s,
{
}

/// The rest of any stream is a pure residue.
pub proof fn lemma_rest_is_residue(s: Seq<u8>)
    ensures
        residue_only(undecoded_rest(s)),
    decreases s.len(),
{
    if s.len() == 0 {
    } else if !valid_header(s[0]) {
        lemma_rest_is_residue(s.skip(1));
    } else if s.len() >= payload_len(s[0]) + 1 {
        lemma_rest_is_residue(s.skip(payload_len(s[0]) + 1));
    }
}

/// Chunking independence: feeding `s` and then `t` decodes the same packets,
/// in the same order, as feeding `s + t` at once — the first chunk yields
/// `decoded_packets(s)`, and the second yields the remainder once the first
/// chunk's residue is prepended. Applied once per chunk boundary, this
/// extends to any split of a stream, byte-at-a-time included.
pub proof fn lemma_chunking_independent(s: Seq<u8>, t: Seq<u8>)
    ensures
        decoded_packets(s + t) == decoded_packets(s) + decoded_packets(undecoded_rest(s) + t),
        undecoded_rest(s + t) == undecoded_rest(undecoded_rest(s) + t),
    decreases s.len(),
{
    if s.len() == 0 {
        assert(s + t =~= t);
        assert(undecoded_rest(s) + t =~= t);
        assert(decoded_packets(s) + decoded_packets(t) =~= decoded_packets(t));
    } else if !valid_header(s[0]) {
        assert((s + t)[0] == s[0]);
        assert((s + t).skip(1) =~= s.skip(1) + t);
        lemma_chunking_independent(s.skip(1), t);
        assert(decoded_packets(s) =~= decoded_packets(s.skip(1)));
    } else if s.len() >= payload_len(s[0]) + 1 {
        let n = payload_len(s[0]) + 1;
        assert((s + t)[0] == s[0]);
        assert((s + t).subrange(1, n) =~= s.subrange(1, n));
        assert((s + t).skip(n) =~= s.skip(n) + t);
        lemma_chunking_independent(s.skip(n), t);
        assert(decoded_packets(s + t) =~= decoded_packets(s) + decoded_packets(
            undecoded_rest(s) + t,
        ));
    } else {
        assert(undecoded_rest(s) == s);
        assert(decoded_packets(s) + decoded_packets(s + t) =~= decoded_packets(s + t));
    }
}

/// The chunks of a split stream, concatenated back together.
pub open spec fn concat_chunks(chunks: Seq<Seq<u8>>) -> Seq<u8>
    decreases chunks.len(),
{
    if chunks.len() == 0 {
        Seq::<u8>::empty()
    } else {
        chunks[0] + concat_chunks(chunks.skip(1))
    }
}

/// The packets a decoder holding residue `buf` emits over successive
/// `feed` calls, one per chunk, in order. Mirrors `Decoder::feed`'s
/// contract, iterated.
pub open spec fn fed_packets(buf: Seq<u8>, chunks: Seq<Seq<u8>>) -> Seq<TracePacketModel>
    decreases chunks.len(),
{
    if chunks.len() == 0 {
        Seq::<TracePacketModel>::empty()
    } else {
        decoded_packets(buf + chunks[0]) + fed_packets(
            undecoded_rest(buf + chunks[0]),
            chunks.skip(1),
        )
    }
}

/// The residue a decoder holding residue `buf` is left with after feeding
/// every chunk in order.
pub open spec fn fed_rest(buf: Seq<u8>, chunks: Seq<Seq<u8>>) -> Seq<u8>
    decreases chunks.len(),
{
    if chunks.len() == 0 {
        buf
    } else {
        fed_rest(undecoded_rest(buf + chunks[0]), chunks.skip(1))
    }
}

/// Chunking independence in full: however a stream is split into chunks —
/// byte by byte included — a decoder fed the chunks one at a time emits
/// exactly the packets of the whole stream, in order, and is left holding
/// the same residue.
pub proof fn lemma_chunked_feeds_decode_whole(buf: Seq<u8>, chunks: Seq<Seq<u8>>)
    requires
        residue_only(buf),
    ensures
        fed_packets(buf, chunks) == decoded_packets(buf + concat_chunks(chunks)),
        fed_rest(buf, chunks) == undecoded_rest(buf + concat_chunks(chunks)),
    decreases chunks.len(),
{
    if chunks.len() == 0 {
        assert(buf + concat_chunks(chunks) =~= buf);
        lemma_residue_fixpoint(buf);
    } else {
        let c0 = chunks[0];
        let rest0 = undecoded_rest(buf + c0);
        lemma_rest_is_residue(buf + c0);
        lemma_chunked_feeds_decode_whole(rest0, chunks.skip(1));
        lemma_chunking_independent(buf + c0, concat_chunks(chunks.skip(1)));
        assert((buf + c0) + concat_chunks(chunks.skip(1)) =~= buf + concat_chunks(chunks));
    }
}

/// Arguments a packet encoding accepts: a 5-bit source and a payload of
/// 1, 2 or 4 bytes.
pub open spec fn valid_encoding_args(source: u8, len: int) -> bool {
    source < 32 && (len == 1 || len == 2 || len == 4)
}

/// The header byte that opens a packet of `source` with `len` payload bytes.
pub open spec fn header_byte(source: u8, len: int) -> u8 {
    (source << 3) | (if len == 1 {
        1
    } else if len == 2 {
        2
    } else {
        3
    })
}

/// The encoded form of a packet: its header byte followed by its payload.
pub open spec fn encoding(source: u8, payload: Seq<u8>) -> Seq<u8> {
    seq![header_byte(source, payload.len() as int)] + payload
}

proof fn lemma_header_bits(source: u8, k: u8)
    by (bit_vector)
    requires
        source < 32,
        1 <= k <= 3,
    ensures
        ((source << 3) | k) & 0x03 == k,
        ((source << 3) | k) & 0x04 == 0,
        ((source << 3) | k) >> 3 == source,
{
}

/// A well-formed header byte is recognised and carries its source and
/// payload size.
pub proof fn lemma_header_roundtrip(source: u8, len: int)
    requires
        valid_encoding_args(source, len),
    ensures
        valid_header(header_byte(source, len)),
        payload_len(header_byte(source, len)) == len,
        source_of(header_byte(source, len)) == source,
{
    if len == 1 {
        lemma_header_bits(source, 1);
    } else if len == 2 {
        lemma_header_bits(source, 2);
    } else {
        lemma_header_bits(source, 3);
    }
}

/// Decoding an encoded packet at the head of a stream yields exactly that
/// packet and continues with the bytes that follow it.
pub proof fn lemma_decode_encoded_head(source: u8, payload: Seq<u8>, rest: Seq<u8>)
    requires
        valid_encoding_args(source, payload.len() as int),
    ensures
        decoded_packets(encoding(source, payload) + rest) == seq![
            TracePacketModel { source, payload },
        ] + decoded_packets(rest),
        undecoded_rest(encoding(source, payload) + rest) == undecoded_rest(rest),
{
    let e = encoding(source, payload) + rest;
    let n = payload.len() as int;
    lemma_header_roundtrip(source, n);
    assert(e[0] == header_byte(source, n));
    assert(e.len() >= n + 1);
    assert(e.subrange(1, n + 1) =~= payload);
    assert(e.skip(n + 1) =~= rest);
    assert(decoded_packets(e) =~= seq![TracePacketModel { source, payload }] + decoded_packets(
        rest,
    ));
}

/// Round trip: the encoding of a packet decodes to exactly that packet,
/// byte-for-byte, with nothing left buffered.
pub proof fn lemma_round_trip(source: u8, payload: Seq<u8>)
    requires
        valid_encoding_args(source, payload.len() as int),
    ensures
        decoded_packets(encoding(source, payload)) == seq![TracePacketModel { source, payload }],
        undecoded_rest(encoding(source, payload)) == Seq::<u8>::empty(),
{
    assert(encoding(source, payload) + Seq::<u8>::empty() =~= encoding(source, payload));
    lemma_decode_encoded_head(source, payload, Seq::<u8>::empty());
    assert(seq![TracePacketModel { source, payload }] + decoded_packets(Seq::<u8>::empty())
        =~= seq![TracePacketModel { source, payload }]);
}

/// Resynchronization: a malformed byte inserted between two valid encoded
/// packets is discarded, and both packets are still decoded, in order.
pub proof fn lemma_resynchronize(s1: u8, p1: Seq<u8>, junk: u8, s2: u8, p2: Seq<u8>)
    requires
        valid_encoding_args(s1, p1.len() as int),
        valid_encoding_args(s2, p2.len() as int),
        !valid_header(junk),
    ensures
        decoded_packets(encoding(s1, p1) + seq![junk] + encoding(s2, p2)) == seq![
            TracePacketModel { source: s1, payload: p1 },
            TracePacketModel { source: s2, payload: p2 },
        ],
{
    let tail = seq![junk] + encoding(s2, p2);
    assert(encoding(s1, p1) + seq![junk] + encoding(s2, p2) =~= encoding(s1, p1) + tail);
    lemma_decode_encoded_head(s1, p1, tail);
    assert(tail[0] == junk);
    assert(tail.skip(1) =~= encoding(s2, p2));
    lemma_round_trip(s2, p2);
    assert(seq![TracePacketModel { source: s1, payload: p1 }] + decoded_packets(tail) =~= seq![
        TracePacketModel { source: s1, payload: p1 },
        TracePacketModel { source: s2, payload: p2 },
    ]);
}

/// Builds the encoded form of one trace packet: header byte, then payload.
pub fn encode_packet(source: u8, payload: &Vec<u8>) -> (r: Vec<u8>)
    requires
        valid_encoding_args(source, payload@.len() as int),
    ensures
        r@ == encoding(source, payload@),
{
    let k: u8 = if payload.len() == 1 {
        1
    } else if payload.len() == 2 {
        2
    } else {
        3
    };
    let mut r: Vec<u8> = Vec::new();
    r.push((source << 3) | k);
    let mut i: usize = 0;
    while i < payload.len()
        invariant
            i <= payload@.len(),
            r@ == seq![header_byte(source, payload@.len() as int)] + payload@.subrange(0, i as int),
        decreases payload@.len() - i,
    {
        r.push(payload[i]);
        assert(payload@.subrange(0, i + 1) =~= payload@.subrange(0, i as int).push(
            payload@[i as int],
        ));
        i += 1;
    }
    assert(payload@.subrange(0, payload@.len() as int) =~= payload@);
    r
}

/// The streaming trace decoder: owns the residual bytes of an incomplete
/// packet and the FIFO queue of packets already decoded.
pub struct Decoder {
    buf: Vec<u8>,
    queue: Vec<TracePacket>,
}

impl Decoder {
    /// The residual bytes held back for the next `feed`.
    pub closed spec fn buffered(&self) -> Seq<u8> {
        self.buf@
    }

    /// The decoded packets not yet pulled, oldest first.
    pub closed spec fn pending(&self) -> Seq<TracePacketModel> {
        packet_views(self.queue@)
    }

    /// The residual buffer holds at most one incomplete packet.
    pub open spec fn wf(&self) -> bool {
        residue_only(self.buffered())
    }

    /// A fresh decoder: nothing buffered, nothing pending.
    pub fn new() -> (d: Decoder)
        ensures
            d.wf(),
            d.buffered() == Seq::<u8>::empty(),
            d.pending() == Seq::<TracePacketModel>::empty(),
    {
        let d = Decoder { buf: Vec::new(), queue: Vec::new() };
        proof {
            assert(d.pending() =~= Seq::<TracePacketModel>::empty());
        }
        d
    }

    /// Appends `data` to the internal buffer and decodes as many complete
    /// packets as the buffered bytes permit; a trailing incomplete packet
    /// stays buffered. Never blocks and never fails: malformed bytes are
    /// discarded and decoding resynchronizes on the next byte.
    pub fn feed(&mut self, data: Vec<u8>)
        requires
            old(self).wf(),
        ensures
            final(self).wf(),
            final(self).pending() == old(self).pending() + decoded_packets(
                old(self).buffered() + data@,
            ),
            final(self).buffered() == undecoded_rest(old(self).buffered() + data@),
    {
        let ghost all: Seq<u8> = self.buf@ + data@;
        let mut data = data;
        self.buf.append(&mut data);
        assert(all.skip(0) =~= all);
        let mut i: usize = 0;
        let mut stuck = false;
        while !stuck && i < self.buf.len()
            invariant
                self.buf@ == all,
                i <= all.len(),
                old(self).pending() + decoded_packets(all) == packet_views(self.queue@)
                    + decoded_packets(all.skip(i as int)),
                undecoded_rest(all) == undecoded_rest(all.skip(i as int)),
                stuck ==> residue_only(all.skip(i as int)),
            decreases all.len() - i, (if stuck { 0int } else { 1int }),
        {
            let u = self.buf.len() - i;
            let h = self.buf[i];
            assert(h == all.skip(i as int)[0]);
            if h & 0x03 == 0 || h & 0x04 != 0 {
                assert(all.skip(i as int).skip(1) =~= all.skip(i + 1));
                i += 1;
            } else {
                let n: usize = if h & 0x03 == 1 {
                    2
                } else if h & 0x03 == 2 {
                    3
                } else {
                    5
                };
                assert(n == payload_len(h) + 1);
                if u >= n {
                    let mut payload: Vec<u8> = Vec::new();
                    let mut j: usize = 0;
                    while j < n - 1
                        invariant
                            j <= n - 1,
                            i + n <= all.len(),
                            all.len() <= usize::MAX,
                            self.buf@ == all,
                            payload@ == all.subrange(i + 1, i + 1 + j),
                        decreases n - 1 - j,
                    {
                        payload.push(self.buf[i + 1 + j]);
                        assert(all.subrange(i + 1, i + 1 + (j + 1)) =~= all.subrange(
                            i + 1,
                            i + 1 + j,
                        ).push(all[i + 1 + j]));
                        j += 1;
                    }
                    let pkt = TracePacket { source: h >> 3, payload };
                    proof {
                        let rem = all.skip(i as int);
                        assert(rem.subrange(1, payload_len(h) + 1) =~= all.subrange(
                            i + 1,
                            i + n,
                        ));
                        assert(pkt@ == TracePacketModel {
                            source: source_of(h),
                            payload: rem.subrange(1, payload_len(h) + 1),
                        });
                        assert(rem.skip(payload_len(h) + 1) =~= all.skip(i + n));
                        assert(packet_views(self.queue@.push(pkt)) =~= packet_views(self.queue@)
                            .push(pkt@));
                        assert(packet_views(self.queue@).push(pkt@) + decoded_packets(
                            all.skip(i + n),
                        ) =~= packet_views(self.queue@) + (seq![pkt@] + decoded_packets(
                            all.skip(i + n),
                        )));
                    }
                    self.queue.push(pkt);
                    i += n;
                } else {
                    stuck = true;
                }
            }
        }
        let ghost rest = all.skip(i as int);
        proof {
            if !stuck {
                assert(rest =~= Seq::<u8>::empty());
            }
            lemma_residue_fixpoint(rest);
        }
        let mut keep: Vec<u8> = Vec::new();
        let mut j: usize = i;
        while j < self.buf.len()
            invariant
                i <= j <= all.len(),
                self.buf@ == all,
                keep@ == all.subrange(i as int, j as int),
            decreases all.len() - j,
        {
            keep.push(self.buf[j]);
            assert(all.subrange(i as int, j + 1) =~= all.subrange(i as int, j as int).push(
                all[j as int],
            ));
            j += 1;
        }
        assert(keep@ =~= rest);
        self.buf = keep;
    }

    /// Pops the oldest decoded packet, or `None` if none is pending.
    /// Packets come out in the order their encodings completed (FIFO).
    pub fn pull(&mut self) -> (r: Option<TracePacket>)
        ensures
            final(self).buffered() == old(self).buffered(),
            final(self).wf() == old(self).wf(),
            old(self).pending().len() == 0 ==> r is None && final(self).pending() == old(
                self,
            ).pending(),
            old(self).pending().len() > 0 ==> (r matches Some(p) && p@ == old(self).pending()[0]
                && final(self).pending() == old(self).pending().skip(1)),
    {
        if self.queue.len() == 0 {
            None
        } else {
            let p = self.queue.remove(0);
            proof {
                assert(packet_views(self.queue@) =~= packet_views(old(self).queue@).skip(1));
            }
            Some(p)
        }
    }
}

} // verus!
