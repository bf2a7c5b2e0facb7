//! Entropy sources: ordered byte sequences consumed left-to-right as
//! decisions by the message grammar.
//!
//! The bounded construction yields the caller's bytes followed by zero
//! padding, so that the total is exactly [`ENTROPY_CAP`] bytes and synthesis
//! is reproducible however much entropy the grammar asks for.  An input
//! longer than the cap is truncated to the cap before padding, so the
//! construction is total and free of underflow.  The unbounded construction
//! is the caller's bytes themselves; a grammar consuming them must fall back
//! to zero for each decision past the end ([`byte_or_zero`]).

use vstd::prelude::*;

verus! {

/// Total number of decision bytes a bounded entropy source yields.
pub const ENTROPY_CAP: usize = 200_000;

/// The byte sequence a bounded entropy source yields: the caller's bytes,
/// truncated to the cap, followed by zero padding up to exactly the cap.
pub open spec fn bounded_entropy(input: Seq<u8>) -> Seq<u8> {
    if input.len() >= ENTROPY_CAP {
        input.take(ENTROPY_CAP as int)
    } else {
        input + Seq::new((ENTROPY_CAP - input.len()) as nat, |i: int| 0u8)
    }
}

/// The decision an unbounded source hands a grammar at position `i`:
/// the byte there, or zero once the caller's bytes are spent.
pub open spec fn byte_or_zero(s: Seq<u8>, i: int) -> u8 {
    if 0 <= i < s.len() {
        s[i]
    } else {
        0u8
    }
}

/// A bounded source always yields exactly the cap.
pub proof fn lemma_bounded_entropy_len(input: Seq<u8>)
    ensures
        bounded_entropy(input).len() == ENTROPY_CAP,
{
}

/// An input past the cap is truncated to the cap: the explicit policy for
/// oversized inputs, in place of an underflowing padding count.
pub proof fn lemma_bounded_entropy_oversized(input: Seq<u8>)
    requires
        input.len() >= ENTROPY_CAP,
    ensures
        bounded_entropy(input) == input.take(ENTROPY_CAP as int),
{
}

/// An input of exactly the cap is consumed as it is: zero padding bytes.
pub proof fn lemma_bounded_entropy_at_cap(input: Seq<u8>)
    requires
        input.len() == ENTROPY_CAP,
    ensures
        bounded_entropy(input) == input,
{
    assert(bounded_entropy(input) =~= input);
}

/// Builds the byte buffer a bounded entropy source yields.
pub fn build_bounded_entropy(input: &Vec<u8>) -> (r: Vec<u8>)
    ensures
        r@ == bounded_entropy(input@),
        r@.len() == ENTROPY_CAP,
{
    let n: usize = if input.len() < ENTROPY_CAP {
        input.len()
    } else {
        ENTROPY_CAP
    };
    let mut r: Vec<u8> = Vec::new();
    let mut i: usize = 0;
    while i < n
        invariant
            i <= n,
            n <= input@.len(),
            r@ == input@.take(i as int),
        decreases n - i,
    {
        r.push(input[i]);
        proof {
            assert(r@ =~= input@.take(i + 1 as int));
        }
        i = i + 1;
    }
    while r.len() < ENTROPY_CAP
        invariant
            n <= r@.len() <= ENTROPY_CAP,
            n == if input@.len() < ENTROPY_CAP { input@.len() as int } else { ENTROPY_CAP as int },
            r@ == input@.take(n as int) + Seq::new((r@.len() - n) as nat, |j: int| 0u8),
        decreases ENTROPY_CAP - r.len(),
    {
        r.push(0u8);
        proof {
            assert(r@ =~= input@.take(n as int) + Seq::new((r@.len() - n) as nat, |j: int| 0u8));
        }
    }
    proof {
        if input@.len() >= ENTROPY_CAP {
            assert(r@ =~= input@.take(ENTROPY_CAP as int));
        } else {
            assert(input@.take(n as int) =~= input@);
            assert(r@ =~= input@ + Seq::new((ENTROPY_CAP - input@.len()) as nat, |j: int| 0u8));
        }
    }
    r
}

} // verus!
