//! Signed division helpers on machine integers.
//!
//! Spec-mode division on `int` rounds toward negative infinity, while the
//! hardware rounds toward zero; the kernels use whichever a statement
//! needs, through these two pairs of spec and exec functions.

use vstd::prelude::*;

verus! {

use vstd::math::abs;

/// Division truncating toward zero, as the hardware divides.
pub open spec fn tdiv(a: int, b: int) -> int {
    let q = abs(a) as int / abs(b) as int;
    if (a < 0) != (b < 0) {
        -q
    } else {
        q
    }
}

/// Truncating division on machine integers.
pub fn tdiv_exec(a: i64, b: i64) -> (r: i64)
    requires
        b != 0,
        -0x4000_0000_0000_0000 <= a <= 0x4000_0000_0000_0000,
        -0x4000_0000_0000_0000 <= b <= 0x4000_0000_0000_0000,
    ensures
        r == tdiv(a as int, b as int),
        abs(r as int) == abs(a as int) / abs(b as int),
{
    let am: u64 = if a < 0 {
        (-a) as u64
    } else {
        a as u64
    };
    let bm: u64 = if b < 0 {
        (-b) as u64
    } else {
        b as u64
    };
    let q: u64 = am / bm;
    proof {
        vstd::arithmetic::div_mod::lemma_div_is_ordered(am as int, 0x4000_0000_0000_0000, bm as int);
        vstd::arithmetic::div_mod::lemma_div_is_ordered(0, am as int, bm as int);
    }
    if (a < 0) != (b < 0) {
        -(q as i64)
    } else {
        q as i64
    }
}

/// Division rounding toward negative infinity, as spec-mode `/` does: the
/// result matches `a / b` on `int` exactly.
pub fn floor_div(a: i64, b: i64) -> (r: i64)
    requires
        0 < b <= 0x4000_0000_0000_0000,
        -0x4000_0000_0000_0000 <= a <= 0x4000_0000_0000_0000,
    ensures
        r == a as int / b as int,
{
    if a >= 0 {
        let q: u64 = (a as u64) / (b as u64);
        proof {
            vstd::arithmetic::div_mod::lemma_div_is_ordered(a as int, 0x4000_0000_0000_0000, b as int);
            vstd::arithmetic::div_mod::lemma_div_is_ordered(0, a as int, b as int);
        }
        q as i64
    } else {
        let n: u64 = (-a) as u64;
        let q: u64 = (n + (b as u64) - 1) / (b as u64);
        proof {
            let ni = n as int;
            let bi = b as int;
            let k = ni / bi;
            let s = ni % bi;
            vstd::arithmetic::div_mod::lemma_fundamental_div_mod(ni, bi);
            vstd::arithmetic::div_mod::lemma_mod_bound(ni, bi);
            vstd::arithmetic::div_mod::lemma_div_is_ordered(0, ni, bi);
            vstd::arithmetic::div_mod::lemma_div_is_ordered(
                ni,
                0x4000_0000_0000_0000,
                bi,
            );
            if s == 0 {
                assert(ni + bi - 1 == k * bi + (bi - 1) && -ni == (-k) * bi) by (nonlinear_arith)
                    requires
                        ni == bi * k,
                ;
                vstd::arithmetic::div_mod::lemma_fundamental_div_mod_converse(
                    ni + bi - 1,
                    bi,
                    k,
                    bi - 1,
                );
                vstd::arithmetic::div_mod::lemma_fundamental_div_mod_converse(
                    -ni,
                    bi,
                    -k,
                    0,
                );
            } else {
                assert(ni + bi - 1 == (k + 1) * bi + (s - 1) && -ni == (-k - 1) * bi + (bi - s))
                    by (nonlinear_arith)
                    requires
                        ni == bi * k + s,
                ;
                vstd::arithmetic::div_mod::lemma_fundamental_div_mod_converse(
                    ni + bi - 1,
                    bi,
                    k + 1,
                    s - 1,
                );
                vstd::arithmetic::div_mod::lemma_fundamental_div_mod_converse(
                    -ni,
                    bi,
                    -k - 1,
                    bi - s,
                );
            }
        }
        -(q as i64)
    }
}

} // verus!
