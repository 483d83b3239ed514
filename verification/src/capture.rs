//! One tick of the capture flow: poll the probe's trace-buffer count, read
//! what is buffered (tolerating a short read — the poll and the read race),
//! feed the decoder, and drain every packet that is decoded so far.
//!
//! The surrounding loop — its cadence, its sleep, its stop signal and where
//! the packets are sunk — is the caller's: a transport fault here is
//! reported, not fatal, so a monitoring session can log it and go on.

use vstd::prelude::*;

use crate::errors::TransportError;
use crate::probe::probe_target_unchanged;
use crate::probe::ProbeOps;
use crate::trace::decoded_packets;
use crate::trace::lemma_residue_fixpoint;
use crate::trace::packet_views;
use crate::trace::undecoded_rest;
use crate::trace::Decoder;
use crate::trace::TracePacket;

verus! {

/// Polls, reads, feeds and drains once. On success the returned packets
/// are the decoder's backlog followed by everything the bytes read this
/// tick complete; the decoder keeps only a trailing incomplete packet.
pub fn capture_step<P: ProbeOps>(st_link: &mut P, decoder: &mut Decoder) -> (r: Result<
    Vec<TracePacket>,
    TransportError,
>)
    requires
        old(decoder).wf(),
    ensures
        final(decoder).wf(),
        probe_target_unchanged(old(st_link), final(st_link)),
        final(st_link).mode() == old(st_link).mode(),
        old(st_link).healthy() ==> r is Ok,
        r is Err ==> *final(decoder) == *old(decoder) && final(st_link).trace() == old(
            st_link,
        ).trace(),
        r matches Ok(pkts) ==> ({
            let k = old(st_link).trace().len() - final(st_link).trace().len();
            &&& 0 <= k <= old(st_link).trace().len()
            &&& final(st_link).trace() == old(st_link).trace().skip(k)
            &&& packet_views(pkts@) == old(decoder).pending() + decoded_packets(
                old(decoder).buffered() + old(st_link).trace().take(k),
            )
            &&& final(decoder).buffered() == undecoded_rest(
                old(decoder).buffered() + old(st_link).trace().take(k),
            )
            &&& final(decoder).pending().len() == 0
        }),
{
    let count = match st_link.trace_buffered_byte_count() {
        Ok(c) => c,
        Err(e) => {
            return Err(e);
        },
    };
    if count > 0 {
        let data = match st_link.read_trace_bytes(count) {
            Ok(d) => d,
            Err(e) => {
                return Err(e);
            },
        };
        decoder.feed(data);
    } else {
        proof {
            assert(old(st_link).trace().take(0) =~= Seq::<u8>::empty());
            assert(old(decoder).buffered() + Seq::<u8>::empty() =~= old(decoder).buffered());
            lemma_residue_fixpoint(old(decoder).buffered());
            assert(old(decoder).pending() + decoded_packets(old(decoder).buffered()) =~= old(
                decoder,
            ).pending());
        }
    }
    let ghost pre_buf = decoder.buffered();
    let ghost pre_pending = decoder.pending();
    let mut out: Vec<TracePacket> = Vec::new();
    let mut more = true;
    while more
        invariant
            decoder.wf(),
            decoder.buffered() == pre_buf,
            packet_views(out@) + decoder.pending() == pre_pending,
            !more ==> decoder.pending().len() == 0,
        decreases decoder.pending().len() + (if more { 1int } else { 0int }),
    {
        let ghost before = decoder.pending();
        match decoder.pull() {
            Some(p) => {
                proof {
                    assert(packet_views(out@.push(p)) =~= packet_views(out@).push(p@));
                    assert(packet_views(out@).push(before[0]) + before.skip(1) =~= packet_views(
                        out@,
                    ) + before);
                }
                out.push(p);
            },
            None => {
                more = false;
            },
        }
    }
    proof {
        assert(packet_views(out@) + decoder.pending() =~= packet_views(out@));
    }
    Ok(out)
}

} // verus!
