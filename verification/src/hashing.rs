//! The integer hash behind the agents' pseudo-randomness.
//!
//! Identical inputs give identical outputs on every host and device; only
//! the mixing quality matters, not any cryptographic property.

use vstd::prelude::*;

verus! {

/// One round of xorshift-multiply mixing.
pub open spec fn hash_spec(state: u32) -> u32 {
    let s1 = (state ^ 2747636419u32).wrapping_mul(2654435769u32);
    let s2 = (s1 ^ (s1 >> 16u32)).wrapping_mul(2654435769u32);
    let s3 = (s2 ^ (s2 >> 16u32)).wrapping_mul(2654435769u32);
    s3
}

/// Mixes a word into a pseudo-random word.
pub fn hash(state: u32) -> (r: u32)
    ensures
        r == hash_spec(state),
{
    let mut state = state;
    state = state ^ 2747636419;
    state = state.wrapping_mul(2654435769);
    state = state ^ (state >> 16);
    state = state.wrapping_mul(2654435769);
    state = state ^ (state >> 16);
    state = state.wrapping_mul(2654435769);
    state
}

/// A hash word scaled to a fraction in thousandths of the word range.
pub open spec fn milli_of_word_spec(w: u32) -> u32 {
    (w * 1000 / 0xFFFF_FFFF) as u32
}

/// Scales a hash word to a uniform fraction in `0..=1000` thousandths.
pub fn milli_of_word(w: u32) -> (r: u32)
    ensures
        r == milli_of_word_spec(w),
        r <= 1000,
{
    proof {
        assert(w * 1000 <= 0xFFFF_FFFFu32 * 1000) by (nonlinear_arith)
            requires
                w <= 0xFFFF_FFFFu32,
        ;
        vstd::arithmetic::div_mod::lemma_div_is_ordered(
            (w * 1000) as int,
            (0xFFFF_FFFFu32 * 1000) as int,
            0xFFFF_FFFFu32 as int,
        );
        vstd::arithmetic::div_mod::lemma_div_multiples_vanish(1000, 0xFFFF_FFFFu32 as int);
    }
    ((w as u64) * 1000 / 0xFFFF_FFFF) as u32
}

} // verus!
