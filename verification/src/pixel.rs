//! Bit-packed access to the channels of one trail-map pixel.
//!
//! A pixel holds up to [`NUM_CHANNELS`] fractional channels, each stored as
//! unsigned 15-bit fixed point, two channels per 32-bit word: channel `i`
//! lives in word `i / 2`, in the high half-word when `i` is odd.  The packing
//! must be bit-exact because the host and the device agree only on the
//! integer layout, so the setter is proved to leave every other channel's
//! bits untouched.

use vstd::prelude::*;

verus! {

/// Channels a pixel's words can hold.
pub const NUM_CHANNELS: u32 = 8;

/// 32-bit words backing one pixel.
pub const INTS_PER_PIXEL: usize = 4;

/// The encoding of a channel value of exactly `1.0`: `2^15 - 1`.
pub const PIXEL_MAX: u32 = 0x7FFF;

/// The half-word of `w` selected by `hi`.
pub open spec fn word_channel(w: u32, hi: bool) -> u32 {
    if hi {
        (w >> 16) & 0xFFFF
    } else {
        w & 0xFFFF
    }
}

/// The words backing one pixel, read and written channel by channel.
pub struct PixelView {
    pub words: [u32; INTS_PER_PIXEL],
}

impl PixelView {
    /// The raw value of channel `i`.
    pub open spec fn channel(self, i: int) -> u32 {
        word_channel(self.words[i / 2], i % 2 == 1)
    }

    pub fn new(words: [u32; INTS_PER_PIXEL]) -> (r: PixelView)
        ensures
            r.words == words,
    {
        PixelView { words }
    }

    pub fn get(&self, index: usize) -> (r: u32)
        requires
            index < NUM_CHANNELS,
        ensures
            r == self.channel(index as int),
            r <= 0xFFFF,
    {
        let r = match index {
            0 => self.words[0] & 0xFFFF,
            1 => (self.words[0] >> 16) & 0xFFFF,
            2 => self.words[1] & 0xFFFF,
            3 => (self.words[1] >> 16) & 0xFFFF,
            4 => self.words[2] & 0xFFFF,
            5 => (self.words[2] >> 16) & 0xFFFF,
            6 => self.words[3] & 0xFFFF,
            _ => (self.words[3] >> 16) & 0xFFFF,
        };
        proof {
            let w = self.words[index as int / 2];
            assert(w & 0xFFFF <= 0xFFFF) by (bit_vector);
            assert((w >> 16) & 0xFFFF <= 0xFFFF) by (bit_vector);
        }
        r
    }

    /// Writes the low 16 bits of `value` into channel `index`; every other
    /// channel keeps its exact bits, and words not backing channel `index`
    /// are untouched.
    pub fn set(&mut self, index: usize, value: u32)
        requires
            index < NUM_CHANNELS,
        ensures
            final(self).channel(index as int) == value & 0xFFFF,
            forall|j: int|
                0 <= j < NUM_CHANNELS && j != index ==> final(self).channel(j) == old(
                    self,
                ).channel(j),
            forall|k: int|
                0 <= k < INTS_PER_PIXEL && k != index / 2 ==> final(self).words[k] == old(
                    self,
                ).words[k],
    {
        let wi = index / 2;
        let w = self.words[wi];
        let nw = if index % 2 == 1 {
            w & 0x0000FFFF | ((value & 0xFFFF) << 16)
        } else {
            w & 0xFFFF0000 | (value & 0xFFFF)
        };
        self.words = match wi {
            0 => [nw, self.words[1], self.words[2], self.words[3]],
            1 => [self.words[0], nw, self.words[2], self.words[3]],
            2 => [self.words[0], self.words[1], nw, self.words[3]],
            _ => [self.words[0], self.words[1], self.words[2], nw],
        };
        proof {
            assert((w & 0xFFFF0000 | (value & 0xFFFF)) & 0xFFFF == value & 0xFFFF)
                by (bit_vector);
            assert(((w & 0xFFFF0000 | (value & 0xFFFF)) >> 16) & 0xFFFF == (w >> 16) & 0xFFFF)
                by (bit_vector);
            assert(((w & 0x0000FFFF | ((value & 0xFFFF) << 16)) >> 16) & 0xFFFF == value & 0xFFFF)
                by (bit_vector);
            assert((w & 0x0000FFFF | ((value & 0xFFFF) << 16)) & 0xFFFF == w & 0xFFFF)
                by (bit_vector);
        }
    }
}

/// The raw encoding of a fraction given in thousandths: the nearest
/// 15-bit encoding, so a whole maps to exactly the maximum and anything
/// above a whole clamps to it.
pub open spec fn raw_from_milli_spec(milli: u32) -> u32 {
    if milli > 1000 {
        PIXEL_MAX
    } else {
        ((milli * PIXEL_MAX + 500) / 1000) as u32
    }
}

/// The fraction, in thousandths, a raw channel value stands for: the
/// nearest thousandth.
pub open spec fn milli_from_raw_spec(raw: u32) -> u32 {
    ((raw * 1000 + 16383) / (PIXEL_MAX as int)) as u32
}

pub fn raw_from_milli(milli: u32) -> (r: u32)
    ensures
        r == raw_from_milli_spec(milli),
        r <= PIXEL_MAX,
{
    if milli > 1000 {
        PIXEL_MAX
    } else {
        proof {
            assert(milli * PIXEL_MAX + 500 <= 1000 * PIXEL_MAX + 500) by (nonlinear_arith)
                requires
                    milli <= 1000,
            ;
            vstd::arithmetic::div_mod::lemma_fundamental_div_mod_converse(
                (1000 * 0x7FFF + 500) as int,
                1000int,
                0x7FFFint,
                500int,
            );
            assert(milli * 0x7FFF + 500 <= 32_767_500);
            vstd::arithmetic::div_mod::lemma_div_is_ordered(
                (milli * 0x7FFF + 500) as int,
                32_767_500,
                1000int,
            );
        }
        (milli * PIXEL_MAX + 500) / 1000
    }
}

pub fn milli_from_raw(raw: u32) -> (r: u32)
    requires
        raw <= 0xFFFF,
    ensures
        r == milli_from_raw_spec(raw),
        raw <= PIXEL_MAX ==> r <= 1000,
{
    proof {
        assert(raw * 1000 + 16383 <= 0xFFFF * 1000 + 16383) by (nonlinear_arith)
            requires
                raw <= 0xFFFF,
        ;
        if raw <= PIXEL_MAX {
            assert(raw * 1000 + 16383 <= 0x7FFF * 1000 + 16383) by (nonlinear_arith)
                requires
                    raw <= 0x7FFF,
            ;
            vstd::arithmetic::div_mod::lemma_fundamental_div_mod_converse(
                (0x7FFF * 1000 + 16383) as int,
                0x7FFFint,
                1000int,
                16383int,
            );
            vstd::arithmetic::div_mod::lemma_div_is_ordered(
                (raw * 1000 + 16383) as int,
                (0x7FFF * 1000 + 16383) as int,
                0x7FFFint,
            );
        }
    }
    ((raw as u64) * 1000 + 16383) as u32 / PIXEL_MAX
}

/// Round trip through the fixed-point encoding is exact: decoding what a
/// fraction encoded to gives the fraction back, because the encoding
/// rounds to the nearest raw value and the raw scale is finer than a
/// thousandth.
pub proof fn lemma_milli_round_trip(milli: u32)
    requires
        milli <= 1000,
    ensures
        milli_from_raw_spec(raw_from_milli_spec(milli)) == milli,
{
    let a = milli * 0x7FFF;
    let raw = (a + 500) / 1000;
    vstd::arithmetic::div_mod::lemma_fundamental_div_mod(a + 500, 1000);
    vstd::arithmetic::div_mod::lemma_mod_bound(a + 500, 1000);
    // raw * 1000 sits within half a thousandth of the exact product, so
    // adding half a raw unit and dividing lands back on the fraction.
    let x = raw * 1000 + 16383;
    vstd::arithmetic::div_mod::lemma_fundamental_div_mod_converse(
        x,
        0x7FFF,
        milli as int,
        x - a,
    );
}

} // verus!
