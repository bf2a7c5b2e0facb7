//! Synthesis and encoding front-end for a signalling protocol's
//! application-layer messages.
//!
//! The crate turns caller-supplied byte buffers into structured protocol
//! messages by treating the bytes as a stream of decisions, serializes the
//! messages with an aligned PER codec, and reports results through
//! fixed-width integer codes.  The message grammar and the binary encoding
//! rule are collaborators reached through the [`model::MessageModel`]
//! interface; [`sample::SamplePdu`] is a small in-crate model of it whose
//! decisions are drawn through `entropic` and whose wire form goes through
//! `asn1_codecs`.

pub mod codes;
pub mod entropy;
pub mod laws;
pub mod message;
pub mod model;
pub mod pipeline;
pub mod sample;
