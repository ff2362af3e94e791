//! The 2-D grid of packed trail pixels.
//!
//! A map of `width x height` pixels stores [`crate::NUM_TRAIL_STATS`]
//! channels per pixel, two channels per 32-bit word, in one contiguous
//! row-major word array.  The pixel count is rounded up to a multiple of
//! four so the byte size meets the device's copy-buffer alignment.  All
//! accesses are bounds-checked by contract; the kernels clamp before they
//! touch the map.

use vstd::prelude::*;

verus! {

use crate::NUM_TRAIL_STATS;
use crate::pixel::word_channel;

/// Words backing one pixel: two channels per word.
pub const WORDS_PER_PIXEL: usize = 2;

/// Largest pixel count a map may have, so every index fits comfortably in
/// 32 bits.
pub const MAX_MAP_PIXELS: u64 = 0x0FFF_FFFF;

/// The pixel count rounded up to a multiple of four, the copy-buffer
/// alignment in words.
pub open spec fn padded_pixels(width: u32, height: u32) -> int {
    ((width * height + 3) / 4) * 4
}

/// How many 32-bit words back a map of the given size.
pub open spec fn map_word_count(width: u32, height: u32) -> int {
    padded_pixels(width, height) * WORDS_PER_PIXEL
}

/// The word index backing channel `c` of pixel `(x, y)` in a map of the
/// given width.
pub open spec fn seq_word_index(width: int, x: int, y: int, c: int) -> int {
    (y * width + x) * WORDS_PER_PIXEL + c / 2
}

/// The raw value of channel `c` of pixel `(x, y)` in the word sequence of
/// a map of the given width.
pub open spec fn seq_channel(ws: Seq<u32>, width: int, x: int, y: int, c: int) -> u32 {
    word_channel(ws[seq_word_index(width, x, y, c)], c % 2 == 1)
}

/// The word `w` with the half-word selected by `hi` replaced by the low
/// 16 bits of `v`; the mirror of the setter's bit formula.
pub open spec fn word_with_channel(w: u32, hi: bool, v: u32) -> u32 {
    if hi {
        w & 0x0000FFFF | ((v & 0xFFFF) << 16)
    } else {
        w & 0xFFFF0000 | (v & 0xFFFF)
    }
}

/// The word sequence after channel `c` of pixel `(x, y)` is set to `v`.
pub open spec fn seq_with_channel(
    ws: Seq<u32>,
    width: int,
    x: int,
    y: int,
    c: int,
    v: u32,
) -> Seq<u32> {
    let i = seq_word_index(width, x, y, c);
    ws.update(i, word_with_channel(ws[i], c % 2 == 1, v))
}

pub struct TrailMap {
    pub width: u32,
    pub height: u32,
    pub words: Vec<u32>,
}

impl TrailMap {
    /// Storage matches the dimensions and the dimensions are sane.
    pub open spec fn wf(self) -> bool {
        &&& 1 <= self.width
        &&& 1 <= self.height
        &&& self.width * self.height <= MAX_MAP_PIXELS
        &&& self.words@.len() == map_word_count(self.width, self.height)
    }

    /// The word index backing channel `c` of pixel `(x, y)`.
    pub open spec fn word_index(self, x: int, y: int, c: int) -> int {
        seq_word_index(self.width as int, x, y, c)
    }

    /// The raw value of channel `c` of pixel `(x, y)`.
    pub open spec fn channel_at(self, x: int, y: int, c: int) -> u32 {
        seq_channel(self.words@, self.width as int, x, y, c)
    }

    /// `(x, y, c)` addresses a channel of this map.
    pub open spec fn in_bounds(self, x: int, y: int, c: int) -> bool {
        0 <= x < self.width && 0 <= y < self.height && 0 <= c < NUM_TRAIL_STATS
    }

    /// A zeroed map of the given dimensions.
    pub fn new(width: u32, height: u32) -> (m: TrailMap)
        requires
            1 <= width,
            1 <= height,
            width * height <= MAX_MAP_PIXELS,
        ensures
            m.wf(),
            m.width == width,
            m.height == height,
            forall|i: int| 0 <= i < m.words@.len() ==> m.words@[i] == 0,
            forall|x: int, y: int, c: int| m.in_bounds(x, y, c) ==> m.channel_at(x, y, c) == 0,
    {
        let pixels: u64 = (width as u64) * (height as u64);
        let padded: u64 = ((pixels + 3) / 4) * 4;
        let n: usize = (padded * 2) as usize;
        let mut words: Vec<u32> = Vec::new();
        let mut i: usize = 0;
        while i < n
            invariant
                words@.len() == i,
                i <= n,
                forall|k: int| 0 <= k < i ==> words@[k] == 0,
            decreases n - i,
        {
            words.push(0);
            i = i + 1;
        }
        let m = TrailMap { width, height, words };
        proof {
            assert(word_channel(0, false) == 0 && word_channel(0, true) == 0) by (bit_vector);
            assert forall|x: int, y: int, c: int| m.in_bounds(x, y, c) implies m.channel_at(
                x,
                y,
                c,
            ) == 0 by {
                m.lemma_word_index_in_range(x, y, c);
            }
        }
        m
    }

    /// The word index of every in-bounds channel lies inside the storage.
    pub proof fn lemma_word_index_in_range(self, x: int, y: int, c: int)
        requires
            self.wf(),
            self.in_bounds(x, y, c),
        ensures
            0 <= self.word_index(x, y, c) < self.words@.len(),
    {
        assert(y * self.width + x < self.width * self.height) by (nonlinear_arith)
            requires
                0 <= x < self.width,
                0 <= y < self.height,
        ;
        assert(self.width * self.height <= padded_pixels(self.width, self.height)) by {
            vstd::arithmetic::div_mod::lemma_fundamental_div_mod(
                self.width * self.height + 3,
                4,
            );
        }
        assert(0 <= y * self.width + x) by (nonlinear_arith)
            requires
                0 <= x,
                0 <= y,
                0 < self.width,
        ;
    }

    /// Distinct pixels are backed by distinct word pairs.
    proof fn lemma_pixel_index_injective(self, x1: int, y1: int, x2: int, y2: int)
        requires
            0 <= x1 < self.width,
            0 <= y1 < self.height,
            0 <= x2 < self.width,
            0 <= y2 < self.height,
            (x1, y1) != (x2, y2),
        ensures
            y1 * self.width + x1 != y2 * self.width + x2,
    {
        assert(y1 * self.width + x1 != y2 * self.width + x2) by (nonlinear_arith)
            requires
                0 <= x1 < self.width,
                0 <= y1,
                0 <= x2 < self.width,
                0 <= y2,
                !(x1 == x2 && y1 == y2),
        ;
    }

    pub fn get_channel(&self, x: u32, y: u32, c: usize) -> (r: u32)
        requires
            self.wf(),
            self.in_bounds(x as int, y as int, c as int),
        ensures
            r == self.channel_at(x as int, y as int, c as int),
            r <= 0xFFFF,
    {
        proof {
            self.lemma_word_index_in_range(x as int, y as int, c as int);
        }
        let idx: usize = (((y as u64) * (self.width as u64) + (x as u64)) * 2 + (c as u64 / 2))
            as usize;
        let w = self.words[idx];
        let r = if c % 2 == 1 {
            (w >> 16) & 0xFFFF
        } else {
            w & 0xFFFF
        };
        proof {
            assert(w & 0xFFFF <= 0xFFFF) by (bit_vector);
            assert((w >> 16) & 0xFFFF <= 0xFFFF) by (bit_vector);
        }
        r
    }

    /// Writes the low 16 bits of `value` into channel `c` of pixel
    /// `(x, y)`; every other channel of the map keeps its exact bits.
    pub fn set_channel(&mut self, x: u32, y: u32, c: usize, value: u32)
        requires
            old(self).wf(),
            old(self).in_bounds(x as int, y as int, c as int),
        ensures
            final(self).wf(),
            final(self).width == old(self).width,
            final(self).height == old(self).height,
            final(self).channel_at(x as int, y as int, c as int) == value & 0xFFFF,
            value <= 0xFFFF ==> final(self).channel_at(x as int, y as int, c as int) == value,
            final(self).words@ == seq_with_channel(
                old(self).words@,
                old(self).width as int,
                x as int,
                y as int,
                c as int,
                value,
            ),
            forall|i: int, j: int, k: int|
                final(self).in_bounds(i, j, k) && (i, j, k) != (x as int, y as int, c as int)
                    ==> final(self).channel_at(i, j, k) == old(self).channel_at(i, j, k),
            forall|wi: int|
                0 <= wi < final(self).words@.len() && wi != old(self).word_index(
                    x as int,
                    y as int,
                    c as int,
                ) ==> final(self).words@[wi] == old(self).words@[wi],
    {
        proof {
            self.lemma_word_index_in_range(x as int, y as int, c as int);
        }
        let idx: usize = (((y as u64) * (self.width as u64) + (x as u64)) * 2 + (c as u64 / 2))
            as usize;
        let w = self.words[idx];
        let nw = if c % 2 == 1 {
            w & 0x0000FFFF | ((value & 0xFFFF) << 16)
        } else {
            w & 0xFFFF0000 | (value & 0xFFFF)
        };
        self.words[idx] = nw;
        proof {
            assert((w & 0xFFFF0000 | (value & 0xFFFF)) & 0xFFFF == value & 0xFFFF)
                by (bit_vector);
            assert(((w & 0xFFFF0000 | (value & 0xFFFF)) >> 16) & 0xFFFF == (w >> 16) & 0xFFFF)
                by (bit_vector);
            assert(((w & 0x0000FFFF | ((value & 0xFFFF) << 16)) >> 16) & 0xFFFF == value
                & 0xFFFF) by (bit_vector);
            assert((w & 0x0000FFFF | ((value & 0xFFFF) << 16)) & 0xFFFF == w & 0xFFFF)
                by (bit_vector);
            assert(value <= 0xFFFF ==> value & 0xFFFF == value) by (bit_vector);
            let s = *self;
            let o = *old(self);
            assert forall|i: int, j: int, k: int|
                s.in_bounds(i, j, k) && (i, j, k) != (x as int, y as int, c as int) implies
                s.channel_at(i, j, k) == o.channel_at(i, j, k) by {
                o.lemma_word_index_in_range(i, j, k);
                if (i, j) != (x as int, y as int) {
                    o.lemma_pixel_index_injective(i, j, x as int, y as int);
                } else {
                    // Same pixel: either the other word of the pair, or the
                    // other half of the same word, which the bit facts above
                    // show is preserved.
                }
            }
        }
    }

    /// Zeroes every word, and with it every channel, of the map.
    pub fn reset(&mut self)
        ensures
            final(self).width == old(self).width,
            final(self).height == old(self).height,
            final(self).words@.len() == old(self).words@.len(),
            forall|i: int| 0 <= i < final(self).words@.len() ==> final(self).words@[i] == 0,
            old(self).wf() ==> final(self).wf(),
            old(self).wf() ==> forall|x: int, y: int, c: int|
                final(self).in_bounds(x, y, c) ==> final(self).channel_at(x, y, c) == 0,
    {
        let n = self.words.len();
        let mut i: usize = 0;
        while i < n
            invariant
                self.words@.len() == n,
                self.width == old(self).width,
                self.height == old(self).height,
                i <= n,
                forall|k: int| 0 <= k < i ==> self.words@[k] == 0,
            decreases n - i,
        {
            self.words[i] = 0;
            i = i + 1;
        }
        proof {
            assert(word_channel(0, false) == 0 && word_channel(0, true) == 0) by (bit_vector);
            if old(self).wf() {
                let s = *self;
                assert forall|x: int, y: int, c: int| s.in_bounds(x, y, c) implies s.channel_at(
                    x,
                    y,
                    c,
                ) == 0 by {
                    s.lemma_word_index_in_range(x, y, c);
                }
            }
        }
    }
}

/// The zeroed bytes that back a freshly created or reset trail map of the
/// given size: four bytes per word, pixel count rounded up to the
/// copy-buffer alignment.
pub fn bytes_from_trail_map_size(width: u32, height: u32) -> (bytes: Vec<u8>)
    requires
        1 <= width,
        1 <= height,
        width * height <= MAX_MAP_PIXELS,
    ensures
        bytes@.len() == map_word_count(width, height) * 4,
        forall|i: int| 0 <= i < bytes@.len() ==> bytes@[i] == 0,
{
    let pixels: u64 = (width as u64) * (height as u64);
    let padded: u64 = ((pixels + 3) / 4) * 4;
    let n: usize = (padded * 2 * 4) as usize;
    let mut bytes: Vec<u8> = Vec::new();
    let mut i: usize = 0;
    while i < n
        invariant
            bytes@.len() == i,
            i <= n,
            forall|k: int| 0 <= k < i ==> bytes@[k] == 0,
        decreases n - i,
    {
        bytes.push(0);
        i = i + 1;
    }
    bytes
}

} // verus!
