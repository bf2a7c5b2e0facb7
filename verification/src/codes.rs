//! Return codes reported across the front-end's integer-code boundary.
//!
//! A non-negative return is a byte length; every failure is a distinct
//! negative code.

use vstd::prelude::*;

verus! {

/// A supplied length cannot be represented as an unsigned size.
pub const ERR_INVALID_ARG: isize = -2;

/// The grammar could not be satisfied from the available entropy
/// (reachable only through the bounded-entropy entry point).
pub const ERR_SYNTHESIS_FAILED: isize = -3;

/// The synthesized message violates an encoding-rule constraint.
pub const ERR_ENCODING_FAILED: isize = -4;

/// The encoded message does not fit the caller's output buffer;
/// nothing was written.
pub const ERR_OUTPUT_TRUNCATED: isize = -5;

/// The message's identifier matched an entry of the caller's exclusion set.
pub const ERR_EXCLUDED_PDU: isize = -6;

/// Sentinel of the re-encode length probe: decoding or re-encoding failed.
pub const PROBE_FAILED: isize = -1;

} // verus!
