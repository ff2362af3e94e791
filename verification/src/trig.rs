//! Sine and cosine on the library's integer angle scale.
//!
//! Angles are measured in milli-half-turns: 1000 units are half a turn, a
//! full turn is [`ANGLE_FULL_TURN`] units.  Results are fractions in
//! thousandths.  The curve is the classical rational approximation of the
//! sine on one half-turn, `16 u (1000 - u) / (5e6 - 4 u (1000 - u))` scaled
//! to thousandths; it is exact at every quarter turn and within about two
//! thousandths elsewhere, which is ample for steering point agents.

use vstd::prelude::*;

verus! {

/// A full turn, in angle units.
pub const ANGLE_FULL_TURN: i64 = 2000;

/// Largest angle magnitude the trigonometry accepts; steering never gets
/// anywhere near it.
pub const ANGLE_LIMIT: i64 = 0x4000_0000_0000;

/// The rational half-turn arc: the sine of `u` milli-half-turns, for
/// `0 <= u <= 1000`, in thousandths.
pub open spec fn sine_arc(u: int) -> int {
    16 * u * (1000 - u) * 1000 / (5000000 - 4 * u * (1000 - u))
}

/// The sine of an angle in milli-half-turns, in thousandths: the arc on the
/// first half-turn, its mirror image below the axis on the second.
pub open spec fn sin_milli_spec(angle: int) -> int {
    let u = angle % 2000;
    if u < 1000 {
        sine_arc(u)
    } else {
        -sine_arc(u - 1000)
    }
}

/// The cosine, as the sine a quarter turn ahead.
pub open spec fn cos_milli_spec(angle: int) -> int {
    sin_milli_spec(angle + 500)
}

/// The arc value for `0 <= u <= 1000`, with its range.
fn sine_arc_exec(u: u32) -> (r: u32)
    requires
        u <= 1000,
    ensures
        r == sine_arc(u as int),
        r <= 1000,
{
    proof {
        assert(u * (1000 - u) <= 250000 && 0 <= u * (1000 - u)) by (nonlinear_arith)
            requires
                0 <= u <= 1000,
        ;
    }
    let n: u64 = (u as u64) * (1000 - u as u64);
    let num: u64 = 16 * n * 1000;
    let den: u64 = 5000000 - 4 * n;
    let r: u64 = num / den;
    proof {
        let ni = (u as int) * (1000 - u as int);
        assert(n == ni);
        assert(16 * (u as int) * (1000 - u as int) * 1000 == 16 * ni * 1000) by (nonlinear_arith)
            requires
                ni == (u as int) * (1000 - u as int),
        ;
        assert(4 * (u as int) * (1000 - u as int) == 4 * ni) by (nonlinear_arith)
            requires
                ni == (u as int) * (1000 - u as int),
        ;
        assert(16 * ni * 1000 <= 1000 * (5000000 - 4 * ni)) by (nonlinear_arith)
            requires
                0 <= ni <= 250000,
        ;
        vstd::arithmetic::div_mod::lemma_div_is_ordered(
            16 * ni * 1000,
            1000 * (5000000 - 4 * ni),
            5000000 - 4 * ni,
        );
        vstd::arithmetic::div_mod::lemma_div_multiples_vanish(1000, 5000000 - 4 * ni);
    }
    r as u32
}

/// The sine of an angle in milli-half-turns, in thousandths.
pub fn sin_milli(angle: i64) -> (r: i32)
    requires
        -ANGLE_LIMIT - 500 <= angle <= ANGLE_LIMIT + 500,
    ensures
        r == sin_milli_spec(angle as int),
        -1000 <= r <= 1000,
{
    // Shift by a large multiple of the full turn so the remainder can be
    // taken on a nonnegative value.
    let shifted: u64 = (angle + 2000 * 0x4000_0000_0000) as u64;
    let u: u32 = (shifted % 2000) as u32;
    proof {
        vstd::arithmetic::div_mod::lemma_mod_multiples_vanish(
            0x4000_0000_0000,
            angle as int,
            2000,
        );
    }
    if u < 1000 {
        let r = sine_arc_exec(u);
        r as i32
    } else {
        let r = sine_arc_exec(u - 1000);
        -(r as i32)
    }
}

/// The cosine of an angle in milli-half-turns, in thousandths.
pub fn cos_milli(angle: i64) -> (r: i32)
    requires
        -ANGLE_LIMIT <= angle <= ANGLE_LIMIT,
    ensures
        r == cos_milli_spec(angle as int),
        -1000 <= r <= 1000,
{
    sin_milli(angle + 500)
}

/// The arc stays within one whole on its half-turn domain.
pub proof fn lemma_sine_arc_range(u: int)
    requires
        0 <= u <= 1000,
    ensures
        0 <= sine_arc(u) <= 1000,
{
    let n = u * (1000 - u);
    assert(0 <= n <= 250000) by (nonlinear_arith)
        requires
            0 <= u <= 1000,
            n == u * (1000 - u),
    ;
    assert(16 * u * (1000 - u) * 1000 == 16 * n * 1000 && 4 * u * (1000 - u) == 4 * n)
        by (nonlinear_arith)
        requires
            n == u * (1000 - u),
    ;
    assert(16 * n * 1000 <= 1000 * (5000000 - 4 * n)) by (nonlinear_arith)
        requires
            0 <= n <= 250000,
    ;
    vstd::arithmetic::div_mod::lemma_div_is_ordered(0, 16 * n * 1000, 5000000 - 4 * n);
    vstd::arithmetic::div_mod::lemma_div_is_ordered(
        16 * n * 1000,
        1000 * (5000000 - 4 * n),
        5000000 - 4 * n,
    );
    vstd::arithmetic::div_mod::lemma_div_multiples_vanish(1000, 5000000 - 4 * n);
}

/// The sine stays within one whole either way, at every angle.
pub proof fn lemma_sin_milli_range(angle: int)
    ensures
        -1000 <= sin_milli_spec(angle) <= 1000,
{
    vstd::arithmetic::div_mod::lemma_mod_bound(angle, 2000);
    let u = angle % 2000;
    if u < 1000 {
        lemma_sine_arc_range(u);
    } else {
        lemma_sine_arc_range(u - 1000);
    }
}

} // verus!
