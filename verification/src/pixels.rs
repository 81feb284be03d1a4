//! Conversion of a rendered RGBA image into the 0RGB words of a window surface.
use vstd::prelude::*;

verus! {

/// The surface word of one RGBA pixel: red in bits 16..24, green in 8..16, blue in 0..8;
/// alpha is dropped.
pub open spec fn rgb_word(r: u8, g: u8, b: u8) -> int {
    r * 0x10000 + g * 0x100 + b
}

/// Packs the first `count` RGBA pixels of `data` into surface words.
pub fn pack_pixels(data: &[u8], count: usize) -> (r: Vec<u32>)
    requires
        4 * count <= data@.len(),
    ensures
        r@.len() == count,
        forall|i: int|
            0 <= i < count ==> #[trigger] r@[i] == rgb_word(
                data@[4 * i],
                data@[4 * i + 1],
                data@[4 * i + 2],
            ),
{
    let mut out: Vec<u32> = Vec::with_capacity(count);
    let n = data.len();
    let mut i: usize = 0;
    while i < count
        invariant
            n == data@.len(),
            4 * count <= data@.len(),
            i <= count,
            out@.len() == i,
            forall|j: int|
                0 <= j < i ==> #[trigger] out@[j] == rgb_word(
                    data@[4 * j],
                    data@[4 * j + 1],
                    data@[4 * j + 2],
                ),
        decreases count - i,
    {
        let off = i * 4;
        let r = data[off] as u32;
        let g = data[off + 1] as u32;
        let b = data[off + 2] as u32;
        let word = (r << 16) | (g << 8) | b;
        assert(word == r * 0x10000 + g * 0x100 + b) by (bit_vector)
            requires
                r < 256,
                g < 256,
                b < 256,
                word == (r << 16) | (g << 8) | b,
        ;
        out.push(word);
        i = i + 1;
    }
    out
}

} // verus!
