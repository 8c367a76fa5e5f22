//! A 32-bit shift chip for a STARK-based virtual machine.
//!
//! The chip records executed shift operations, turns the log of
//! operations into a rectangular trace of field elements padded to a
//! power-of-two height, exposes the per-row algebraic constraints any
//! honest trace satisfies, and declares the bus interactions through
//! which sibling chips cross-check shared values.

use vstd::prelude::*;

pub mod felt;
pub mod word;
pub mod columns;
pub mod shift;
pub mod stark;
pub mod interaction;
pub mod execute;

verus! {

use crate::felt::Felt;
use crate::columns::NUM_COLS;

/// Whether `n` is a power of two.
pub open spec fn is_pow2(n: nat) -> bool
    decreases n,
{
    if n == 0 {
        false
    } else if n == 1 {
        true
    } else {
        n % 2 == 0 && is_pow2(n / 2)
    }
}

/// The least power of two that is at least `n` (1 when `n` is 0).
pub open spec fn next_pow2(n: nat) -> nat
    decreases n,
{
    if n <= 1 {
        1
    } else {
        2 * next_pow2(((n + 1) / 2) as nat)
    }
}

/// `next_pow2` grows at most linearly: it stays below `2 * n`.
pub proof fn lemma_next_pow2_bounds(n: nat)
    ensures
        next_pow2(n) >= n,
        next_pow2(n) >= 1,
        n >= 2 ==> next_pow2(n) <= 2 * (n - 1),
        n >= 1 ==> next_pow2(n) <= 2 * n,
    decreases n,
{
    if n > 1 {
        let m = ((n + 1) / 2) as nat;
        lemma_next_pow2_bounds(m);
    }
}

/// `next_pow2(n)` is the least power of two that is at least `n`.
pub proof fn lemma_next_pow2_is_least(n: nat)
    ensures
        is_pow2(next_pow2(n)),
        next_pow2(n) >= n,
        forall|q: nat| is_pow2(q) && q >= n ==> next_pow2(n) <= q,
    decreases n,
{
    lemma_next_pow2_bounds(n);
    if n <= 1 {
        assert forall|q: nat| is_pow2(q) && q >= n implies next_pow2(n) <= q by {
            assert(q >= 1);
        }
    } else {
        let m = ((n + 1) / 2) as nat;
        lemma_next_pow2_is_least(m);
        assert forall|q: nat| is_pow2(q) && q >= n implies next_pow2(n) <= q by {
            assert(q >= 2);
            assert(q % 2 == 0 && is_pow2(q / 2));
            assert(q / 2 >= m);
            assert(next_pow2(m) <= q / 2);
        }
    }
}

/// The least power of two that is at least `n`.
pub fn next_power_of_two(n: usize) -> (r: usize)
    requires
        n <= 0x1000_0000,
    ensures
        r == next_pow2(n as nat),
    decreases n,
{
    if n <= 1 {
        1
    } else {
        proof {
            lemma_next_pow2_bounds(((n + 1) / 2) as nat);
        }
        2 * next_power_of_two((n + 1) / 2)
    }
}

/// Pads a flat row-major buffer of `NUM_COLS`-wide rows with zero field
/// elements so that the number of rows becomes the next power of two.
/// A buffer with no rows is left empty rather than padded.
pub fn pad_to_power_of_two(values: &mut Vec<Felt>)
    requires
        old(values)@.len() % (NUM_COLS as nat) == 0,
        old(values)@.len() <= 0x100_0000,
    ensures
        final(values)@.len() == if old(values)@.len() == 0 {
            0
        } else {
            next_pow2(old(values)@.len() / (NUM_COLS as nat)) * (NUM_COLS as nat)
        },
        final(values)@.subrange(0, old(values)@.len() as int) == old(values)@,
        forall|j: int|
            old(values)@.len() <= j < final(values)@.len() ==> #[trigger] final(values)@[j]@ == 0,
{
    let ghost orig = values@;
    let n_real_rows = values.len() / NUM_COLS;
    if n_real_rows > 0 {
        proof {
            lemma_next_pow2_bounds(n_real_rows as nat);
        }
        let target = next_power_of_two(n_real_rows) * NUM_COLS;
        while values.len() < target
            invariant
                values@.len() <= target,
                target <= 0x1000_0000,
                orig.len() <= values@.len(),
                values@.subrange(0, orig.len() as int) == orig,
                forall|j: int| orig.len() <= j < values@.len() ==> #[trigger] values@[j]@ == 0,
            decreases target - values@.len(),
        {
            values.push(Felt::zero());
            proof {
                assert(values@.subrange(0, orig.len() as int) == orig);
            }
        }
    }
    proof {
        assert(values@.subrange(0, orig.len() as int) == orig);
    }
}

} // verus!
