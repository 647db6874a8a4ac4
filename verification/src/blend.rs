//! Integer alpha blending of 8-bit colour channels.

use vstd::prelude::*;

verus! {

/// One blended colour channel: `src * a + dst * (1 - a)` with the alpha
/// taken as a fraction of 255, rounded down.
pub open spec fn spec_blend_channel(src: int, dst: int, alpha: int) -> int {
    (src * alpha + dst * (255 - alpha)) / 255
}

/// Blend a source channel over a destination channel with the given
/// alpha. An alpha of 0 leaves the destination unchanged and an alpha of
/// 255 replaces it with the source exactly.
pub fn blend_channel(src: u8, dst: u8, alpha: u8) -> (r: u8)
    ensures
        r as int == spec_blend_channel(src as int, dst as int, alpha as int),
{
    let s = src as u32;
    let d = dst as u32;
    let a = alpha as u32;
    proof {
        assert(s * a + d * (255 - a) <= 255 * 255) by (nonlinear_arith)
            requires
                s <= 255,
                d <= 255,
                a <= 255,
        ;
    }
    let mixed: u32 = s * a + d * (255 - a);
    proof {
        assert(mixed / 255 <= 255) by (nonlinear_arith)
            requires
                mixed <= 255 * 255,
        ;
    }
    (mixed / 255) as u8
}

/// Blending with alpha 0 is the identity on the destination.
pub proof fn lemma_blend_transparent(src: int, dst: int)
    requires
        0 <= dst <= 255,
    ensures
        spec_blend_channel(src, dst, 0) == dst,
{
    assert((src * 0 + dst * 255) / 255 == dst) by (nonlinear_arith)
        requires
            0 <= dst <= 255,
    ;
}

/// Blending with alpha 255 replaces the destination with the source.
pub proof fn lemma_blend_opaque(src: int, dst: int)
    requires
        0 <= src <= 255,
    ensures
        spec_blend_channel(src, dst, 255) == src,
{
    assert((src * 255 + dst * 0) / 255 == src) by (nonlinear_arith)
        requires
            0 <= src <= 255,
    ;
}

} // verus!
