//! Pixel format normalization.
//!
//! Every texture is uploaded as 4-channel RGBA8. A 4-channel source is
//! taken as it is; a 3-channel source is expanded by inserting an opaque
//! alpha byte (255) after every 3 source bytes, preserving pixel order.

use vstd::prelude::*;

verus! {

/// The RGBA8 expansion of a 3-channel byte sequence: byte `k` of the
/// output is the alpha constant 255 where `k` ends a pixel, and otherwise
/// the matching channel byte of the source pixel `k / 4`.
pub open spec fn rgba_expanded(s: Seq<u8>) -> Seq<u8> {
    Seq::new(
        s.len() / 3 * 4,
        |k: int|
            if k % 4 == 3 {
                255u8
            } else {
                s[(k / 4) * 3 + (k % 4)]
            },
    )
}

/// Output pixel `i` of the expansion of `s` carries the three channel
/// bytes of source pixel `i` followed by the opaque alpha byte 255.
pub open spec fn expanded_pixel_matches(s: Seq<u8>, i: int) -> bool {
    &&& rgba_expanded(s)[4 * i] == s[3 * i]
    &&& rgba_expanded(s)[4 * i + 1] == s[3 * i + 1]
    &&& rgba_expanded(s)[4 * i + 2] == s[3 * i + 2]
    &&& rgba_expanded(s)[4 * i + 3] == 255u8
}

/// Pixel-wise reading of [`rgba_expanded`]: for a source of `W*H` pixels
/// the output has length `W*H*4`, and every output pixel is its source
/// pixel's channels followed by 255.
pub proof fn lemma_rgba_expanded_pixelwise(s: Seq<u8>)
    requires
        s.len() % 3 == 0,
    ensures
        rgba_expanded(s).len() == s.len() / 3 * 4,
        forall|i: int| 0 <= i < s.len() / 3 ==> #[trigger] expanded_pixel_matches(s, i),
{
    assert forall|i: int| 0 <= i < s.len() / 3 implies #[trigger] expanded_pixel_matches(
        s,
        i,
    ) by {
        assert((4 * i) % 4 == 0 && (4 * i) / 4 == i) by (nonlinear_arith);
        assert((4 * i + 1) % 4 == 1 && (4 * i + 1) / 4 == i) by (nonlinear_arith);
        assert((4 * i + 2) % 4 == 2 && (4 * i + 2) / 4 == i) by (nonlinear_arith);
        assert((4 * i + 3) % 4 == 3) by (nonlinear_arith);
    }
}

/// Expand a 3-channel image's bytes to RGBA8, one opaque alpha byte after
/// every source pixel.
pub fn expand_rgb_to_rgba(rgb: &Vec<u8>) -> (out: Vec<u8>)
    requires
        rgb@.len() % 3 == 0,
    ensures
        out@ == rgba_expanded(rgb@),
{
    let pixel_count: usize = rgb.len() / 3;
    let mut out: Vec<u8> = Vec::new();
    let mut i: usize = 0;
    while i < pixel_count
        invariant
            rgb@.len() == 3 * pixel_count,
            rgb@.len() <= usize::MAX,
            i <= pixel_count,
            out@.len() == 4 * i,
            forall|k: int| 0 <= k < 4 * i ==> out@[k] == rgba_expanded(rgb@)[k],
        decreases pixel_count - i,
    {
        out.push(rgb[3 * i]);
        out.push(rgb[3 * i + 1]);
        out.push(rgb[3 * i + 2]);
        out.push(255);
        proof {
            lemma_rgba_expanded_pixelwise(rgb@);
            assert(expanded_pixel_matches(rgb@, i as int));
        }
        i = i + 1;
    }
    proof {
        assert(out@ =~= rgba_expanded(rgb@));
    }
    out
}

} // verus!
