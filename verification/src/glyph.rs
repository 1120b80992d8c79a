//! Preparing glyph bitmaps for upload: a one-byte-per-pixel rasterized
//! glyph is widened to four bytes per pixel by repeating each byte across
//! the four channels.

use vstd::prelude::*;

verus! {

/// How many overlay vertices a run of glyphs draws: each glyph is one
/// quad, two triangles, six vertices.
pub fn text_vertex_count(glyph_count: u64) -> (r: u64)
    requires
        6 * glyph_count <= u64::MAX,
    ensures
        r == 6 * glyph_count,
{
    6 * glyph_count
}

/// Widen a one-channel bitmap to four channels: every input byte appears
/// four times in a row.
pub fn pad_font_bytes(bytes: Vec<u8>) -> (r: Vec<u8>)
    requires
        bytes@.len() * 4 <= usize::MAX,
    ensures
        r@.len() == 4 * bytes@.len(),
        forall|j: int| 0 <= j < r@.len() ==> r@[j] == bytes@[j / 4],
{
    let mut v: Vec<u8> = Vec::new();
    let mut i: usize = 0;
    while i < bytes.len()
        invariant
            0 <= i <= bytes@.len(),
            bytes@.len() * 4 <= usize::MAX,
            v@.len() == 4 * i,
            forall|j: int| 0 <= j < v@.len() ==> v@[j] == bytes@[j / 4],
        decreases bytes@.len() - i,
    {
        let b = bytes[i];
        v.push(b);
        v.push(b);
        v.push(b);
        v.push(b);
        proof {
            let base: int = 4 * (i as int);
            assert(base / 4 == i as int && (base + 1) / 4 == i as int && (base + 2) / 4 == i as int
                && (base + 3) / 4 == i as int) by (nonlinear_arith)
                requires
                    base == 4 * (i as int),
                    i >= 0,
            ;
        }
        i = i + 1;
    }
    v
}

} // verus!
