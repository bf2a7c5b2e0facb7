//! The three entry points of the front-end.
//!
//! `synthesize_and_encode` synthesizes a message from a bounded (padded)
//! entropy source and encodes it; `synthesize_exclude_and_encode` instead
//! synthesizes from an unbounded source, filters by the message's identifier
//! and then encodes; `measure_reencoded_length` decodes a wire byte sequence
//! and reports the length of its re-encoding.  Each entry point's outcome —
//! return code and resulting buffer contents — is pinned to a spec-level
//! function of its inputs, so the entry points are deterministic and write
//! into the caller's buffer only on success.

use crate::codes::{ERR_ENCODING_FAILED, ERR_EXCLUDED_PDU, ERR_OUTPUT_TRUNCATED,
    ERR_SYNTHESIS_FAILED, PROBE_FAILED};
use crate::entropy::{bounded_entropy, build_bounded_entropy};
use crate::message::{is_excluded, pdu_id_spec, pdu_identifier};
use crate::model::MessageModel;
use vstd::prelude::*;

verus! {

/// The view of an optional encoding result.
pub open spec fn encoding_view(encoded: Option<Vec<u8>>) -> Option<Seq<u8>> {
    match encoded {
        Some(bytes) => Some(bytes@),
        None => None,
    }
}

/// Return code and buffer contents once a message has been synthesized:
/// an encoding failure or a result that does not fit leaves the buffer as it
/// was; otherwise the encoded bytes land at the front of the buffer and the
/// code is their count.
pub open spec fn delivery_outcome(encoding: Option<Seq<u8>>, prior: Seq<u8>) -> (int, Seq<u8>) {
    match encoding {
        None => (ERR_ENCODING_FAILED as int, prior),
        Some(e) => if e.len() > prior.len() {
            (ERR_OUTPUT_TRUNCATED as int, prior)
        } else {
            (e.len() as int, e + prior.skip(e.len() as int))
        },
    }
}

/// Outcome of the bounded-entropy entry point on the given input bytes and
/// prior buffer contents.
pub open spec fn bounded_outcome<M: MessageModel>(input: Seq<u8>, prior: Seq<u8>) -> (
    int,
    Seq<u8>,
) {
    match M::synth_bounded(bounded_entropy(input)) {
        None => (ERR_SYNTHESIS_FAILED as int, prior),
        Some(m) => delivery_outcome(m.encoding_spec(), prior),
    }
}

/// Outcome of the exclusion-filtering entry point: synthesis is unbounded
/// and never fails, and a message whose identifier is in the exclusion set
/// is dropped before any encoding work.
pub open spec fn exclude_outcome<M: MessageModel>(
    input: Seq<u8>,
    exclusions: Seq<usize>,
    prior: Seq<u8>,
) -> (int, Seq<u8>) {
    let m = M::synth_unbounded(input);
    if exclusions.contains(pdu_id_spec(m.descriptor_spec())) {
        (ERR_EXCLUDED_PDU as int, prior)
    } else {
        delivery_outcome(m.encoding_spec(), prior)
    }
}

/// Outcome of the re-encode length probe: the length of the re-encoding of
/// the decoded message, or the failure sentinel.
pub open spec fn probe_outcome<M: MessageModel>(input: Seq<u8>) -> int {
    if input.len() == 0 {
        PROBE_FAILED as int
    } else {
        match M::decoded_spec(input) {
            None => PROBE_FAILED as int,
            Some(m) => match m.encoding_spec() {
                None => PROBE_FAILED as int,
                Some(e) => if e.len() <= isize::MAX as nat {
                    e.len() as int
                } else {
                    PROBE_FAILED as int
                },
            },
        }
    }
}

/// Copies `data` over the front of `out`, leaving the bytes past it.
fn write_prefix(data: &Vec<u8>, out: &mut Vec<u8>)
    requires
        data@.len() <= old(out)@.len(),
    ensures
        final(out)@ == data@ + old(out)@.skip(data@.len() as int),
{
    let mut i: usize = 0;
    while i < data.len()
        invariant
            i <= data@.len(),
            data@.len() <= out@.len(),
            out@.len() == old(out)@.len(),
            out@ == data@.take(i as int) + old(out)@.skip(i as int),
        decreases data@.len() - i,
    {
        out.set(i, data[i]);
        proof {
            assert(out@ =~= data@.take(i + 1 as int) + old(out)@.skip(i + 1 as int));
        }
        i = i + 1;
    }
    proof {
        assert(out@ =~= data@ + old(out)@.skip(data@.len() as int));
    }
}

/// Encodes a synthesized message into the caller's buffer: nothing is
/// written on any failure path, and a non-negative return is the byte count
/// written at the front of the buffer.
fn deliver(encoded: Option<Vec<u8>>, out: &mut Vec<u8>) -> (r: isize)
    requires
        old(out)@.len() <= isize::MAX as usize,
    ensures
        final(out)@.len() == old(out)@.len(),
        r as int == delivery_outcome(encoding_view(encoded), old(out)@).0,
        final(out)@ == delivery_outcome(encoding_view(encoded), old(out)@).1,
{
    match encoded {
        None => ERR_ENCODING_FAILED,
        Some(bytes) => if bytes.len() > out.len() {
            ERR_OUTPUT_TRUNCATED
        } else {
            write_prefix(&bytes, out);
            bytes.len() as isize
        },
    }
}

/// Synthesizes a message from the input bytes under a bounded entropy source
/// and encodes it into `out`.  Returns the encoded byte length, or the code
/// of the failed stage; `out` is written only on success.
pub fn synthesize_and_encode<M: MessageModel>(input: &Vec<u8>, out: &mut Vec<u8>) -> (r: isize)
    requires
        old(out)@.len() <= isize::MAX as usize,
    ensures
        final(out)@.len() == old(out)@.len(),
        r as int == bounded_outcome::<M>(input@, old(out)@).0,
        final(out)@ == bounded_outcome::<M>(input@, old(out)@).1,
{
    let entropy = build_bounded_entropy(input);
    match M::synthesize_bounded(&entropy) {
        None => ERR_SYNTHESIS_FAILED,
        Some(m) => deliver(m.encode(), out),
    }
}

/// Synthesizes a message from the input bytes under an unbounded entropy
/// source, drops it when its identifier is in `exclusions`, and otherwise
/// encodes it into `out` as the bounded entry point does.
pub fn synthesize_exclude_and_encode<M: MessageModel>(
    input: &Vec<u8>,
    exclusions: &Vec<usize>,
    out: &mut Vec<u8>,
) -> (r: isize)
    requires
        old(out)@.len() <= isize::MAX as usize,
    ensures
        final(out)@.len() == old(out)@.len(),
        r as int == exclude_outcome::<M>(input@, exclusions@, old(out)@).0,
        final(out)@ == exclude_outcome::<M>(input@, exclusions@, old(out)@).1,
{
    let m = M::synthesize_unbounded(input);
    let descriptor = m.descriptor();
    let id = pdu_identifier(&descriptor);
    if is_excluded(id, exclusions) {
        ERR_EXCLUDED_PDU
    } else {
        deliver(m.encode(), out)
    }
}

/// Decodes an already-encoded byte sequence, re-encodes the message and
/// reports the re-encoded length in bytes; any decode or encode failure is
/// the sentinel.  Writes nothing anywhere.
pub fn measure_reencoded_length<M: MessageModel>(input: &Vec<u8>) -> (r: isize)
    ensures
        r as int == probe_outcome::<M>(input@),
{
    if input.len() == 0 {
        return PROBE_FAILED;
    }
    match M::decode(input) {
        None => PROBE_FAILED,
        Some(m) => match m.encode() {
            None => PROBE_FAILED,
            Some(bytes) => if bytes.len() <= isize::MAX as usize {
                bytes.len() as isize
            } else {
                PROBE_FAILED
            },
        },
    }
}

} // verus!
