//! Structured messages and the identifier/exclusion-filtering logic.
//!
//! A structured message is one of exactly three categories, each carrying
//! the non-negative procedure code of the operation it represents.  The
//! identifier packs category and code into one integer; per-category offsets
//! are spaced so that identifiers of different categories cannot collide
//! while procedure codes stay below 256 — which the code's type guarantees.

use vstd::prelude::*;

verus! {

/// A structured protocol message, reduced to what the front-end reads of it:
/// the category tag and the procedure code.
#[derive(Clone, Copy, Debug, PartialEq, Eq, Structural)]
pub enum StructuredMessage {
    InitiatingMessage(u8),
    SuccessfulOutcome(u8),
    UnsuccessfulOutcome(u8),
}

/// Identifier offset of the initiating-message category.
pub const INITIATING_MESSAGE_BASE: usize = 256;

/// Identifier offset of the successful-outcome category.
pub const SUCCESSFUL_OUTCOME_BASE: usize = 512;

/// Identifier offset of the unsuccessful-outcome category.
pub const UNSUCCESSFUL_OUTCOME_BASE: usize = 768;

/// The identifier of a message: its category's offset plus its procedure
/// code.
pub open spec fn pdu_id_spec(m: StructuredMessage) -> usize {
    match m {
        StructuredMessage::InitiatingMessage(c) => (INITIATING_MESSAGE_BASE + c as usize) as usize,
        StructuredMessage::SuccessfulOutcome(c) => (SUCCESSFUL_OUTCOME_BASE + c as usize) as usize,
        StructuredMessage::UnsuccessfulOutcome(c) => (UNSUCCESSFUL_OUTCOME_BASE
            + c as usize) as usize,
    }
}

/// Computes a message's identifier.  Total and exhaustive over the three
/// categories: a new category would be a compile-time gap, not a silent
/// fallback.
pub fn pdu_identifier(m: &StructuredMessage) -> (id: usize)
    ensures
        id == pdu_id_spec(*m),
{
    match m {
        StructuredMessage::InitiatingMessage(c) => INITIATING_MESSAGE_BASE + (*c as usize),
        StructuredMessage::SuccessfulOutcome(c) => SUCCESSFUL_OUTCOME_BASE + (*c as usize),
        StructuredMessage::UnsuccessfulOutcome(c) => UNSUCCESSFUL_OUTCOME_BASE + (*c as usize),
    }
}

/// Two messages with the same identifier are the same message: the offsets
/// leave room for every possible procedure code.
pub proof fn lemma_pdu_identifier_injective(m1: StructuredMessage, m2: StructuredMessage)
    requires
        pdu_id_spec(m1) == pdu_id_spec(m2),
    ensures
        m1 == m2,
{
}

/// Linear containment test of an identifier against the caller's exclusion
/// set; order is irrelevant and duplicates are harmless.
pub fn is_excluded(id: usize, exclusions: &Vec<usize>) -> (r: bool)
    ensures
        r == exclusions@.contains(id),
{
    let mut i: usize = 0;
    while i < exclusions.len()
        invariant
            i <= exclusions@.len(),
            forall|j: int| 0 <= j < i ==> exclusions@[j] != id,
        decreases exclusions@.len() - i,
    {
        if exclusions[i] == id {
            return true;
        }
        i = i + 1;
    }
    false
}

} // verus!
