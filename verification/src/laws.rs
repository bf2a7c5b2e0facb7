//! Laws of the front-end, stated over the entry points' outcome functions.
//!
//! Each entry point's `ensures` pins its return code and the caller buffer's
//! contents to one of the outcome functions of [`crate::pipeline`]; the
//! lemmas here state what holds of those outcomes for every model and every
//! input.

use crate::codes::{ERR_EXCLUDED_PDU, ERR_OUTPUT_TRUNCATED, PROBE_FAILED};
use crate::entropy::bounded_entropy;
use crate::message::pdu_id_spec;
use crate::model::MessageModel;
use crate::pipeline::{bounded_outcome, exclude_outcome, probe_outcome};
use crate::sample::SamplePdu;
use vstd::prelude::*;

verus! {

/// Boundedness: a non-error return code of the bounded-entropy entry point
/// is a byte count no larger than the buffer's capacity.
pub proof fn lemma_bounded_result_within_capacity<M: MessageModel>(input: Seq<u8>, prior: Seq<u8>)
    ensures
        bounded_outcome::<M>(input, prior).0 >= 0 ==> bounded_outcome::<M>(input, prior).0
            <= prior.len(),
{
}

/// Boundedness of the exclusion-filtering entry point, likewise.
pub proof fn lemma_exclude_result_within_capacity<M: MessageModel>(
    input: Seq<u8>,
    exclusions: Seq<usize>,
    prior: Seq<u8>,
)
    ensures
        exclude_outcome::<M>(input, exclusions, prior).0 >= 0 ==> exclude_outcome::<M>(
            input,
            exclusions,
            prior,
        ).0 <= prior.len(),
{
}

/// Determinism: the bounded-entropy entry point's return code and output
/// bytes are a function of the input bytes and the prior buffer alone, so
/// two calls on identical inputs agree.
pub proof fn lemma_bounded_entry_deterministic<M: MessageModel>(
    input1: Seq<u8>,
    prior1: Seq<u8>,
    input2: Seq<u8>,
    prior2: Seq<u8>,
)
    requires
        input1 == input2,
        prior1 == prior2,
    ensures
        bounded_outcome::<M>(input1, prior1) == bounded_outcome::<M>(input2, prior2),
{
}

/// Truncation safety: when the message's true encoded length exceeds the
/// buffer's capacity, the code is the truncation code and the buffer is left
/// exactly as it was.
pub proof fn lemma_truncation_preserves_buffer<M: MessageModel>(input: Seq<u8>, prior: Seq<u8>)
    requires
        M::synth_bounded(bounded_entropy(input)) matches Some(m) && m.encoding_spec()
            matches Some(e) && e.len() > prior.len(),
    ensures
        bounded_outcome::<M>(input, prior) == (ERR_OUTPUT_TRUNCATED as int, prior),
{
}

/// Exclusion correctness: whatever else the exclusion set holds, when it
/// contains the identifier of the message synthesized from the input bytes,
/// the entry point returns the exclusion code and the buffer is untouched.
pub proof fn lemma_exclusion_match_short_circuits<M: MessageModel>(
    input: Seq<u8>,
    exclusions: Seq<usize>,
    prior: Seq<u8>,
)
    requires
        exclusions.contains(pdu_id_spec(M::synth_unbounded(input).descriptor_spec())),
    ensures
        exclude_outcome::<M>(input, exclusions, prior) == (ERR_EXCLUDED_PDU as int, prior),
{
}

/// Round-trip idempotence: a byte sequence the bounded entry point wrote
/// successfully, fed to the length probe, reports exactly the length that
/// entry point returned.  (A zero-length success is excluded: the probe
/// rejects empty input outright.)
pub proof fn lemma_probe_round_trip<M: MessageModel>(input: Seq<u8>, prior: Seq<u8>)
    requires
        bounded_outcome::<M>(input, prior).0 > 0,
        prior.len() <= isize::MAX as nat,
    ensures
        probe_outcome::<M>(
            bounded_outcome::<M>(input, prior).1.take(bounded_outcome::<M>(input, prior).0),
        ) == bounded_outcome::<M>(input, prior).0,
{
    let synthesized = M::synth_bounded(bounded_entropy(input));
    let m = synthesized->Some_0;
    let e = m.encoding_spec()->Some_0;
    let (code, written) = bounded_outcome::<M>(input, prior);
    assert(code == e.len() && written == e + prior.skip(e.len() as int));
    assert(written.take(code) =~= e);
    m.lemma_codec_canonical();
}

/// Malformed probe input: a byte sequence that is not a valid encoding of
/// any message — or an empty one — reports the failure sentinel.
pub proof fn lemma_probe_rejects_malformed<M: MessageModel>(input: Seq<u8>)
    requires
        M::decoded_spec(input) is None || input.len() == 0,
    ensures
        probe_outcome::<M>(input) == PROBE_FAILED as int,
{
}

/// Under the sample model, bounded synthesis never fails: a bounded source
/// always yields the full cap of decision bytes, padding included, and two
/// of them satisfy the sample grammar.
pub proof fn lemma_sample_bounded_synthesis_total(input: Seq<u8>)
    ensures
        SamplePdu::synth_bounded(bounded_entropy(input)) is Some,
{
    crate::entropy::lemma_bounded_entropy_len(input);
}

/// Empty-input determinism of the sample model: with no input bytes the
/// bounded source is all padding, synthesis succeeds, and the entry point
/// returns the model's fixed empty-entropy length into any buffer that can
/// hold it.
pub proof fn lemma_sample_empty_input_succeeds(prior: Seq<u8>)
    requires
        prior.len() >= 2,
    ensures
        bounded_outcome::<SamplePdu>(Seq::empty(), prior).0 == 2,
{
    let entropy = bounded_entropy(Seq::empty());
    assert(entropy.len() >= 2);
    assert(entropy[0] == 0u8 && entropy[1] == 0u8);
    assert(0u8 % 3 == 0u8);
    let m = SamplePdu::from_draws(0u8, 0u8);
    assert(SamplePdu::synth_bounded(entropy) == Some(m));
    assert(m.encoding_spec() matches Some(e) && e.len() == 2);
}

} // verus!
