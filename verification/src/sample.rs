//! A minimal message model: a message is exactly its category and procedure
//! code.
//!
//! The model draws its two decisions — category and code — through
//! `entropic`'s byte-stream source, and its wire form is the aligned PER
//! encoding that `asn1_codecs` gives a three-way choice followed by a
//! constrained integer 0..=255: the category tag in the top two bits of the
//! first byte, the code octet-aligned in the second.  Deployments with the
//! full protocol grammar supply their own [`MessageModel`] in its place.

use crate::entropy::byte_or_zero;
use crate::message::StructuredMessage;
use crate::model::MessageModel;
use vstd::prelude::*;

verus! {

/// A protocol data unit of the sample model.
#[derive(Clone, Copy)]
pub struct SamplePdu {
    pub message: StructuredMessage,
}

/// Relies on `entropic::Source` over a byte iterator with the default
/// scheme: `get_uniform_range(0..=2)` consumes one byte `b` and returns
/// `b % 3`; `get_byte` consumes and returns the next byte; each fails with
/// `InsufficientBytes` once the iterator is exhausted.
#[verifier::external_body]
fn draw_category_and_code(entropy: &Vec<u8>) -> (r: Option<(u8, u8)>)
    ensures
        entropy@.len() >= 2 ==> r == Some((entropy@[0] % 3, entropy@[1])),
        entropy@.len() < 2 ==> r is None,
{
    let mut source: entropic::Source<_, entropic::scheme::DefaultEntropyScheme> =
        entropic::Source::new(entropy.iter());
    let tag = match source.get_uniform_range(0u8..=2u8) {
        Ok(v) => v,
        Err(_) => return None,
    };
    let code = match source.get_byte() {
        Ok(v) => v,
        Err(_) => return None,
    };
    Some((tag, code))
}

/// Relies on `asn1_codecs`' aligned PER encoder: `encode_choice_idx` with
/// bounds 0..=2, not extensible, writes the index into two bits and rejects
/// an index above the bound; `encode_integer` with bounds 0..=255 pads to an
/// octet boundary and writes the value's octet; `into_bytes` hands the
/// accumulated bits out as bytes.
#[verifier::external_body]
fn aper_encode_tagged_code(tag: u8, code: u8) -> (r: Option<Vec<u8>>)
    ensures
        r is Some <==> tag <= 2,
        r matches Some(bytes) ==> bytes@ == seq![tag << 6, code],
{
    let mut data = asn1_codecs::PerCodecData::new_aper();
    if asn1_codecs::aper::encode::encode_choice_idx(&mut data, 0, 2, false, tag as i128, false)
        .is_err()
    {
        return None;
    }
    if asn1_codecs::aper::encode::encode_integer(&mut data, Some(0), Some(255), false, code as i128, false)
        .is_err()
    {
        return None;
    }
    Some(data.into_bytes())
}

/// Relies on `asn1_codecs`' aligned PER decoder: `decode_choice_idx` with
/// bounds 0..=2 reads the top two bits of the first byte without holding
/// them to the bound; `decode_integer` with bounds 0..=255 skips to the
/// octet boundary and reads the second byte; either fails when the buffer
/// holds fewer than two bytes.
#[verifier::external_body]
fn aper_decode_tagged_code(bytes: &Vec<u8>) -> (r: Option<(u8, u8)>)
    ensures
        bytes@.len() >= 2 ==> r == Some((bytes@[0] >> 6, bytes@[1])),
        bytes@.len() < 2 ==> r is None,
{
    let mut data = asn1_codecs::PerCodecData::from_slice_aper(bytes.as_slice());
    let tag = match asn1_codecs::aper::decode::decode_choice_idx(&mut data, 0, 2, false) {
        Ok((idx, _)) => idx,
        Err(_) => return None,
    };
    let code = match asn1_codecs::aper::decode::decode_integer(&mut data, Some(0), Some(255), false) {
        Ok((value, _)) => value,
        Err(_) => return None,
    };
    Some((tag as u8, code as u8))
}

impl SamplePdu {
    /// The message built from a category draw (0, 1 or 2) and a code draw.
    pub open spec fn from_draws(tag: u8, code: u8) -> SamplePdu {
        SamplePdu {
            message: if tag == 0 {
                StructuredMessage::InitiatingMessage(code)
            } else if tag == 1 {
                StructuredMessage::SuccessfulOutcome(code)
            } else {
                StructuredMessage::UnsuccessfulOutcome(code)
            },
        }
    }

    /// The wire tag of a message's category.
    pub open spec fn category_tag(m: StructuredMessage) -> u8 {
        match m {
            StructuredMessage::InitiatingMessage(_) => 0u8,
            StructuredMessage::SuccessfulOutcome(_) => 1u8,
            StructuredMessage::UnsuccessfulOutcome(_) => 2u8,
        }
    }

    /// A message's procedure code.
    pub open spec fn code_of(m: StructuredMessage) -> u8 {
        match m {
            StructuredMessage::InitiatingMessage(c) => c,
            StructuredMessage::SuccessfulOutcome(c) => c,
            StructuredMessage::UnsuccessfulOutcome(c) => c,
        }
    }

    /// Builds the message a pair of draws stands for.
    fn build(tag: u8, code: u8) -> (r: SamplePdu)
        requires
            tag <= 2,
        ensures
            r == Self::from_draws(tag, code),
    {
        SamplePdu {
            message: if tag == 0 {
                StructuredMessage::InitiatingMessage(code)
            } else if tag == 1 {
                StructuredMessage::SuccessfulOutcome(code)
            } else {
                StructuredMessage::UnsuccessfulOutcome(code)
            },
        }
    }
}

impl MessageModel for SamplePdu {
    open spec fn synth_bounded(entropy: Seq<u8>) -> Option<SamplePdu> {
        if entropy.len() >= 2 {
            Some(Self::from_draws(entropy[0] % 3, entropy[1]))
        } else {
            None
        }
    }

    open spec fn synth_unbounded(entropy: Seq<u8>) -> SamplePdu {
        Self::from_draws(byte_or_zero(entropy, 0) % 3, byte_or_zero(entropy, 1))
    }

    open spec fn descriptor_spec(&self) -> StructuredMessage {
        self.message
    }

    open spec fn encoding_spec(&self) -> Option<Seq<u8>> {
        Some(seq![Self::category_tag(self.message) << 6, Self::code_of(self.message)])
    }

    open spec fn decoded_spec(bytes: Seq<u8>) -> Option<SamplePdu> {
        if bytes.len() >= 2 && bytes[0] >> 6 <= 2 {
            Some(Self::from_draws(bytes[0] >> 6, bytes[1]))
        } else {
            None
        }
    }

    fn synthesize_bounded(entropy: &Vec<u8>) -> (r: Option<SamplePdu>) {
        match draw_category_and_code(entropy) {
            Some((tag, code)) => Some(Self::build(tag, code)),
            None => None,
        }
    }

    fn synthesize_unbounded(entropy: &Vec<u8>) -> (r: SamplePdu) {
        let b0: u8 = if entropy.len() > 0 {
            entropy[0]
        } else {
            0
        };
        let b1: u8 = if entropy.len() > 1 {
            entropy[1]
        } else {
            0
        };
        let mut first_two: Vec<u8> = Vec::new();
        first_two.push(b0);
        first_two.push(b1);
        proof {
            assert(first_two@ =~= seq![b0, b1]);
        }
        let drawn = draw_category_and_code(&first_two);
        match drawn {
            Some((tag, code)) => Self::build(tag, code),
            None => Self::build(0, 0),
        }
    }

    fn descriptor(&self) -> (d: StructuredMessage) {
        self.message
    }

    fn encode(&self) -> (r: Option<Vec<u8>>) {
        let tag: u8 = match self.message {
            StructuredMessage::InitiatingMessage(_) => 0,
            StructuredMessage::SuccessfulOutcome(_) => 1,
            StructuredMessage::UnsuccessfulOutcome(_) => 2,
        };
        let code: u8 = match self.message {
            StructuredMessage::InitiatingMessage(c) => c,
            StructuredMessage::SuccessfulOutcome(c) => c,
            StructuredMessage::UnsuccessfulOutcome(c) => c,
        };
        aper_encode_tagged_code(tag, code)
    }

    fn decode(bytes: &Vec<u8>) -> (r: Option<SamplePdu>) {
        match aper_decode_tagged_code(bytes) {
            Some((tag, code)) => if tag <= 2 {
                Some(Self::build(tag, code))
            } else {
                None
            },
            None => None,
        }
    }

    proof fn lemma_codec_canonical(&self) {
        let tag = Self::category_tag(self.message);
        let code = Self::code_of(self.message);
        assert(tag <= 2);
        assert((tag << 6) >> 6 == tag) by (bit_vector)
            requires
                tag <= 2,
        ;
        let e = seq![tag << 6, code];
        assert(Self::decoded_spec(e) == Some(Self::from_draws(tag, code)));
        assert(Self::from_draws(tag, code) == *self);
    }
}

} // verus!
