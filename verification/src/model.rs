//! The message model: the interface to the protocol's grammar and binary
//! encoding rule.
//!
//! The grammar and the codec are collaborators of the front-end, not part of
//! it.  A model type describes, in its spec members, what it synthesizes
//! from a decision stream, the category tag and procedure code a message
//! exposes, and the wire form the codec gives it; its executable methods are
//! held to those descriptions, and [`MessageModel::lemma_codec_canonical`]
//! obliges every model to a canonicalizing codec.

use crate::message::StructuredMessage;
use vstd::prelude::*;

verus! {

pub trait MessageModel: Sized {
    /// The message the grammar synthesizes from a finite decision stream,
    /// or `None` when the grammar cannot be satisfied from it.
    spec fn synth_bounded(entropy: Seq<u8>) -> Option<Self>;

    /// The message the grammar synthesizes when it may outlive the stream,
    /// falling back to a defined decision once the bytes are spent.
    spec fn synth_unbounded(entropy: Seq<u8>) -> Self;

    /// The category tag and procedure code a message exposes.
    spec fn descriptor_spec(&self) -> StructuredMessage;

    /// The wire encoding of a message, or `None` when it violates an
    /// encoding-rule constraint.
    spec fn encoding_spec(&self) -> Option<Seq<u8>>;

    /// The message a wire byte sequence decodes to, or `None` when it is
    /// not a valid encoding.
    spec fn decoded_spec(bytes: Seq<u8>) -> Option<Self>;

    /// Synthesizes from a finite stream: every decision consumes stream
    /// bytes, and synthesis fails once they are insufficient.
    fn synthesize_bounded(entropy: &Vec<u8>) -> (r: Option<Self>)
        ensures
            r == Self::synth_bounded(entropy@),
    ;

    /// Synthesizes from the stream with the fallback decision past its end;
    /// always produces some message.
    fn synthesize_unbounded(entropy: &Vec<u8>) -> (r: Self)
        ensures
            r == Self::synth_unbounded(entropy@),
    ;

    /// Reads the message's category tag and procedure code.
    fn descriptor(&self) -> (d: StructuredMessage)
        ensures
            d == self.descriptor_spec(),
    ;

    /// Encodes the message to its wire form.
    fn encode(&self) -> (r: Option<Vec<u8>>)
        ensures
            match r {
                Some(bytes) => self.encoding_spec() == Some(bytes@),
                None => self.encoding_spec() is None,
            },
    ;

    /// Decodes a wire byte sequence into a message.
    fn decode(bytes: &Vec<u8>) -> (r: Option<Self>)
        ensures
            match r {
                Some(m) => Self::decoded_spec(bytes@) == Some(m),
                None => Self::decoded_spec(bytes@) is None,
            },
    ;

    /// The codec canonicalizes: a produced encoding decodes successfully,
    /// and the decoded message re-encodes to the same bytes.
    proof fn lemma_codec_canonical(&self)
        ensures
            self.encoding_spec() matches Some(e) ==> (Self::decoded_spec(e) matches Some(m)
                && m.encoding_spec() == Some(e)),
    ;
}

} // verus!
