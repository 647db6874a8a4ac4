//! Frame compositor: cursor sprite blending and the smoothed-cursor
//! timeline lookup, on raw RGBA frame buffers.

use vstd::prelude::*;
use vstd::arithmetic::div_mod::{
    lemma_fundamental_div_mod_converse_div, lemma_fundamental_div_mod_converse_mod,
};
use crate::blend::{blend_channel, spec_blend_channel};
use crate::geometry::{is_inside_rounded_rect, spec_inside_rounded_rect};

verus! {

/// A decoded cursor sprite: RGBA pixels plus the hotspot offset of the
/// logical pointer position within the image.
#[derive(Clone, Debug)]
pub struct CursorSprite {
    /// Sprite width in pixels.
    pub width: u32,
    /// Sprite height in pixels.
    pub height: u32,
    /// Hotspot offset from the sprite's top-left corner.
    pub hotspot_x: i64,
    /// Hotspot offset from the sprite's top-left corner.
    pub hotspot_y: i64,
    /// RGBA bytes, row-major, four per pixel.
    pub data: Vec<u8>,
}

impl CursorSprite {
    /// The sprite invariant: the byte buffer matches the dimensions, and
    /// the dimensions are small enough for exact index arithmetic.
    pub open spec fn well_formed(self) -> bool {
        &&& self.width <= 0x4000
        &&& self.height <= 0x4000
        &&& self.data@.len() == self.width * self.height * 4
        &&& -0x10000000 <= self.hotspot_x <= 0x10000000
        &&& -0x10000000 <= self.hotspot_y <= 0x10000000
    }
}

/// One sample of the smoothed cursor timeline.
#[derive(Clone, Debug)]
pub struct CursorSample {
    /// Time of the sample on the source clock, in milliseconds.
    pub time_ms: u64,
    /// Pointer position.
    pub x: i64,
    /// Pointer position.
    pub y: i64,
    /// Index of the sample's sprite in the loaded sprite table; an index
    /// past the table means no sprite was loaded for the cursor shape.
    pub sprite_index: usize,
}

impl CursorSample {
    /// The sample invariant: coordinates small enough for exact
    /// arithmetic against any sprite hotspot.
    pub open spec fn well_formed(self) -> bool {
        -0x10000000 <= self.x <= 0x10000000 && -0x10000000 <= self.y <= 0x10000000
    }
}

/// One channel byte of a sprite pixel.
pub open spec fn sprite_channel(s: CursorSprite, sx: int, sy: int, ch: int) -> int {
    s.data@[(sy * s.width + sx) * 4 + ch] as int
}

/// The alpha byte of a sprite pixel.
pub open spec fn sprite_alpha(s: CursorSprite, sx: int, sy: int) -> int {
    sprite_channel(s, sx, sy, 3)
}

/// Whether byte `k` of a `w`-wide frame is a colour channel of a pixel
/// the sprite blends onto, for a sprite whose top-left corner is at
/// `(px, py)`: the pixel lies under the sprite, the byte is not the
/// alpha channel, and the sprite pixel is not treated as transparent
/// (alpha of 2 or less, about 1 percent, is skipped).
pub open spec fn spec_cursor_blend_target(k: int, w: int, px: int, py: int, s: CursorSprite) -> bool {
    let pixel = k / 4;
    let ch = k % 4;
    let fx = pixel % w;
    let fy = pixel / w;
    let sx = fx - px;
    let sy = fy - py;
    &&& 0 <= sx < s.width
    &&& 0 <= sy < s.height
    &&& ch < 3
    &&& sprite_alpha(s, sx, sy) > 2
}

/// The blended value of byte `k`: the sprite channel alpha-blended over
/// the original frame byte.
pub open spec fn spec_cursor_blent_byte(
    orig: Seq<u8>,
    k: int,
    w: int,
    px: int,
    py: int,
    s: CursorSprite,
) -> int {
    let pixel = k / 4;
    let ch = k % 4;
    let fx = pixel % w;
    let fy = pixel / w;
    let sx = fx - px;
    let sy = fy - py;
    spec_blend_channel(sprite_channel(s, sx, sy, ch), orig[k] as int, sprite_alpha(s, sx, sy))
}

/// Index arithmetic of a frame byte: position `(fx, fy)`, channel `ch`.
proof fn lemma_byte_index(w: int, fx: int, fy: int, ch: int)
    requires
        0 < w,
        0 <= fx < w,
        0 <= fy,
        0 <= ch < 4,
    ensures
        ((fy * w + fx) * 4 + ch) / 4 == fy * w + fx,
        ((fy * w + fx) * 4 + ch) % 4 == ch,
        (fy * w + fx) % w == fx,
        (fy * w + fx) / w == fy,
{
    assert(fy * w >= 0) by (nonlinear_arith)
        requires
            0 <= fy,
            0 < w,
    ;
    lemma_fundamental_div_mod_converse_div((fy * w + fx) * 4 + ch, 4, fy * w + fx, ch);
    lemma_fundamental_div_mod_converse_mod((fy * w + fx) * 4 + ch, 4, fy * w + fx, ch);
    lemma_fundamental_div_mod_converse_div(fy * w + fx, w, fy, fx);
    lemma_fundamental_div_mod_converse_mod(fy * w + fx, w, fy, fx);
}

/// Sixteen-thousand-pixel dimensions keep every byte index small.
pub(crate) proof fn lemma_area_bound(w: int, h: int)
    requires
        0 <= w <= 0x4000,
        0 <= h <= 0x4000,
    ensures
        w * h * 4 <= 0x40000000,
{
    assert(w * h <= 0x4000 * 0x4000) by (nonlinear_arith)
        requires
            0 <= w <= 0x4000,
            0 <= h <= 0x4000,
    ;
}

/// A position inside a grid has an index inside the grid's area.
proof fn lemma_grid_bound(w: int, h: int, x: int, y: int)
    requires
        0 <= x < w,
        0 <= y < h,
    ensures
        0 <= y * w + x < w * h,
{
    assert(y * w + x < w * h) by (nonlinear_arith)
        requires
            0 <= x < w,
            0 <= y < h,
    ;
    assert(y * w >= 0) by (nonlinear_arith)
        requires
            0 <= y,
            0 < w,
    ;
}

/// The product of two 32-bit values divided by a positive 32-bit value.
pub(crate) fn mul_div_u32(a: u32, b: u32, c: u32) -> (r: u64)
    requires
        c > 0,
    ensures
        r as int == (a as int) * (b as int) / (c as int),
{
    proof {
        assert(0 <= (a as int) * (b as int) <= 0xffffffff * 0xffffffff) by (nonlinear_arith)
            requires
                0 <= a as int <= 0xffffffff,
                0 <= b as int <= 0xffffffff,
        ;
    }
    let p: u64 = (a as u64) * (b as u64);
    p / (c as u64)
}

/// Composite a cursor sprite onto a frame by per-channel alpha blending.
///
/// The sprite's top-left corner goes to `(origin_x, origin_y)`, which may
/// lie partly or wholly outside the frame: pixels outside the frame are
/// skipped without wrapping or clamping. Sprite pixels with alpha of 2 or
/// less are treated as fully transparent. The destination alpha channel
/// is never modified.
#[verifier::rlimit(80)]
pub fn draw_cursor(
    frame: &mut Vec<u8>,
    frame_width: u32,
    frame_height: u32,
    origin_x: i64,
    origin_y: i64,
    sprite: &CursorSprite,
)
    requires
        old(frame)@.len() == frame_width * frame_height * 4,
        0 < frame_width <= 0x4000,
        frame_height <= 0x4000,
        sprite.well_formed(),
        -0x20000000 <= origin_x <= 0x20000000,
        -0x20000000 <= origin_y <= 0x20000000,
    ensures
        final(frame)@.len() == old(frame)@.len(),
        forall|k: int|
            0 <= k < final(frame)@.len() ==> final(frame)@[k] as int == (if spec_cursor_blend_target(
                k,
                frame_width as int,
                origin_x as int,
                origin_y as int,
                *sprite,
            ) {
                spec_cursor_blent_byte(
                    old(frame)@,
                    k,
                    frame_width as int,
                    origin_x as int,
                    origin_y as int,
                    *sprite,
                )
            } else {
                old(frame)@[k] as int
            }),
{
    let ghost orig = old(frame)@;
    let ghost w = frame_width as int;
    let ghost px = origin_x as int;
    let ghost py = origin_y as int;
    let mut cy: u32 = 0;
    while cy < sprite.height
        invariant
            old(frame)@.len() == frame_width * frame_height * 4,
            0 < frame_width <= 0x4000,
            frame_height <= 0x4000,
            sprite.well_formed(),
            -0x20000000 <= origin_x <= 0x20000000,
            -0x20000000 <= origin_y <= 0x20000000,
            orig == old(frame)@,
            w == frame_width as int,
            px == origin_x as int,
            py == origin_y as int,
            cy <= sprite.height,
            frame@.len() == orig.len(),
            forall|k: int|
                0 <= k < frame@.len() ==> frame@[k] as int == (if spec_cursor_blend_target(
                    k,
                    w,
                    px,
                    py,
                    *sprite,
                ) && (k / 4) / w - py < cy {
                    spec_cursor_blent_byte(orig, k, w, px, py, *sprite)
                } else {
                    orig[k] as int
                }),
        decreases sprite.height - cy,
    {
        let fy: i64 = origin_y + cy as i64;
        let mut cx: u32 = 0;
        while cx < sprite.width
            invariant
                old(frame)@.len() == frame_width * frame_height * 4,
                0 < frame_width <= 0x4000,
                frame_height <= 0x4000,
                sprite.well_formed(),
                -0x20000000 <= origin_x <= 0x20000000,
                -0x20000000 <= origin_y <= 0x20000000,
                orig == old(frame)@,
                w == frame_width as int,
                px == origin_x as int,
                py == origin_y as int,
                cy < sprite.height,
                cx <= sprite.width,
                fy == py + cy,
                frame@.len() == orig.len(),
                forall|k: int|
                    0 <= k < frame@.len() ==> frame@[k] as int == (if spec_cursor_blend_target(
                        k,
                        w,
                        px,
                        py,
                        *sprite,
                    ) && ((k / 4) / w - py < cy || ((k / 4) / w - py == cy && (k / 4) % w - px
                        < cx)) {
                        spec_cursor_blent_byte(orig, k, w, px, py, *sprite)
                    } else {
                        orig[k] as int
                    }),
            decreases sprite.width - cx,
        {
            let fx: i64 = origin_x + cx as i64;
            if fy >= 0 && fy < frame_height as i64 && fx >= 0 && fx < frame_width as i64 {
                proof {
                    lemma_grid_bound(
                        sprite.width as int,
                        sprite.height as int,
                        cx as int,
                        cy as int,
                    );
                    lemma_grid_bound(w, frame_height as int, fx as int, fy as int);
                    lemma_area_bound(sprite.width as int, sprite.height as int);
                    lemma_area_bound(w, frame_height as int);
                }
                let cursor_idx: usize = ((cy as usize * sprite.width as usize + cx as usize) * 4);
                let alpha = sprite.data[cursor_idx + 3];
                proof {
                    lemma_byte_index(
                        sprite.width as int,
                        cx as int,
                        cy as int,
                        3,
                    );
                    assert(alpha as int == sprite_alpha(*sprite, cx as int, cy as int));
                }
                if alpha > 2 {
                    let frame_idx: usize = ((fy as usize) * (frame_width as usize) + (fx as usize))
                        * 4;
                    let ghost pre = frame@;
                    let b0 = blend_channel(sprite.data[cursor_idx], frame[frame_idx], alpha);
                    let b1 = blend_channel(
                        sprite.data[cursor_idx + 1],
                        frame[frame_idx + 1],
                        alpha,
                    );
                    let b2 = blend_channel(
                        sprite.data[cursor_idx + 2],
                        frame[frame_idx + 2],
                        alpha,
                    );
                    frame[frame_idx] = b0;
                    frame[frame_idx + 1] = b1;
                    frame[frame_idx + 2] = b2;
                    proof {
                        lemma_cursor_pixel_step(
                            orig,
                            pre,
                            frame@,
                            frame_width as int,
                            frame_height as int,
                            px,
                            py,
                            *sprite,
                            cx as int,
                            cy as int,
                        );
                    }
                } else {
                    proof {
                        lemma_cursor_skip_step(
                            orig,
                            frame@,
                            frame_width as int,
                            frame_height as int,
                            px,
                            py,
                            *sprite,
                            cx as int,
                            cy as int,
                        );
                    }
                }
            } else {
                proof {
                    lemma_cursor_offscreen_step(
                        orig,
                        frame@,
                        frame_width as int,
                        frame_height as int,
                        px,
                        py,
                        *sprite,
                        cx as int,
                        cy as int,
                    );
                }
            }
            cx = cx + 1;
        }
        cy = cy + 1;
    }
}

/// After blending the three colour channels of sprite pixel `(cx, cy)`,
/// the partial-completion invariant advances by one pixel.
#[verifier::rlimit(80)]
proof fn lemma_cursor_pixel_step(
    orig: Seq<u8>,
    pre: Seq<u8>,
    cur: Seq<u8>,
    w: int,
    h: int,
    px: int,
    py: int,
    s: CursorSprite,
    cx: int,
    cy: int,
)
    requires
        0 < w,
        0 <= cx < s.width,
        0 <= cy < s.height,
        s.well_formed(),
        orig.len() == w * h * 4,
        pre.len() == orig.len(),
        0 <= px + cx < w,
        0 <= py + cy < h,
        sprite_alpha(s, cx, cy) > 2,
        forall|k: int|
            0 <= k < pre.len() ==> pre[k] as int == (if spec_cursor_blend_target(k, w, px, py, s)
                && ((k / 4) / w - py < cy || ((k / 4) / w - py == cy && (k / 4) % w - px < cx)) {
                spec_cursor_blent_byte(orig, k, w, px, py, s)
            } else {
                orig[k] as int
            }),
        ({
            let base = ((py + cy) * w + (px + cx)) * 4;
            &&& cur.len() == pre.len()
            &&& cur[base] as int == spec_blend_channel(
                sprite_channel(s, cx, cy, 0),
                pre[base] as int,
                sprite_alpha(s, cx, cy),
            )
            &&& cur[base + 1] as int == spec_blend_channel(
                sprite_channel(s, cx, cy, 1),
                pre[base + 1] as int,
                sprite_alpha(s, cx, cy),
            )
            &&& cur[base + 2] as int == spec_blend_channel(
                sprite_channel(s, cx, cy, 2),
                pre[base + 2] as int,
                sprite_alpha(s, cx, cy),
            )
            &&& forall|k: int|
                0 <= k < cur.len() && k != base && k != base + 1 && k != base + 2 ==> cur[k]
                    == pre[k]
        }),
    ensures
        forall|k: int|
            0 <= k < cur.len() ==> cur[k] as int == (if spec_cursor_blend_target(k, w, px, py, s)
                && ((k / 4) / w - py < cy || ((k / 4) / w - py == cy && (k / 4) % w - px < cx + 1)) {
                spec_cursor_blent_byte(orig, k, w, px, py, s)
            } else {
                orig[k] as int
            }),
{
    let base = ((py + cy) * w + (px + cx)) * 4;
    lemma_grid_bound(w, h, px + cx, py + cy);
    assert forall|k: int| 0 <= k < cur.len() implies cur[k] as int == (if spec_cursor_blend_target(
        k,
        w,
        px,
        py,
        s,
    ) && ((k / 4) / w - py < cy || ((k / 4) / w - py == cy && (k / 4) % w - px < cx + 1)) {
        spec_cursor_blent_byte(orig, k, w, px, py, s)
    } else {
        orig[k] as int
    }) by {
        lemma_byte_index(w, px + cx, py + cy, 0);
        if base <= k < base + 3 {
            // One of the three freshly blended channel bytes.
            lemma_byte_index(w, px + cx, py + cy, k - base);
            assert(k / 4 == (py + cy) * w + (px + cx));
            assert(pre[k] == orig[k]);
        } else {
            // Untouched: its completion status is the same as before,
            // because its pixel is not (cx, cy).
            assert(cur[k] == pre[k]);
            if (k / 4) / w - py == cy && (k / 4) % w - px == cx && k % 4 < 3 {
                // The byte's pixel is (cx, cy) after all: then it must be
                // one of the three written bytes.
                vstd::arithmetic::div_mod::lemma_mod_bound(k, 4);
                vstd::arithmetic::div_mod::lemma_fundamental_div_mod(k, 4);
                vstd::arithmetic::div_mod::lemma_fundamental_div_mod(k / 4, w);
                assert(k / 4 == w * (py + cy) + (px + cx));
                assert((py + cy) * w == w * (py + cy)) by (nonlinear_arith);
                assert(base == 4 * (k / 4));
                assert(k == 4 * (k / 4) + k % 4);
                assert(base <= k);
                assert(k < base + 3);
                assert(false);
            }
        }
    }
}

/// Advancing past a transparent sprite pixel keeps the invariant.
proof fn lemma_cursor_skip_step(
    orig: Seq<u8>,
    cur: Seq<u8>,
    w: int,
    h: int,
    px: int,
    py: int,
    s: CursorSprite,
    cx: int,
    cy: int,
)
    requires
        0 < w,
        0 <= cx < s.width,
        0 <= cy < s.height,
        s.well_formed(),
        orig.len() == w * h * 4,
        cur.len() == orig.len(),
        sprite_alpha(s, cx, cy) <= 2,
        forall|k: int|
            0 <= k < cur.len() ==> cur[k] as int == (if spec_cursor_blend_target(k, w, px, py, s)
                && ((k / 4) / w - py < cy || ((k / 4) / w - py == cy && (k / 4) % w - px < cx)) {
                spec_cursor_blent_byte(orig, k, w, px, py, s)
            } else {
                orig[k] as int
            }),
    ensures
        forall|k: int|
            0 <= k < cur.len() ==> cur[k] as int == (if spec_cursor_blend_target(k, w, px, py, s)
                && ((k / 4) / w - py < cy || ((k / 4) / w - py == cy && (k / 4) % w - px < cx + 1)) {
                spec_cursor_blent_byte(orig, k, w, px, py, s)
            } else {
                orig[k] as int
            }),
{
    assert forall|k: int| 0 <= k < cur.len() implies cur[k] as int == (if spec_cursor_blend_target(
        k,
        w,
        px,
        py,
        s,
    ) && ((k / 4) / w - py < cy || ((k / 4) / w - py == cy && (k / 4) % w - px < cx + 1)) {
        spec_cursor_blent_byte(orig, k, w, px, py, s)
    } else {
        orig[k] as int
    }) by {
        if (k / 4) / w - py == cy && (k / 4) % w - px == cx {
            // The pixel under this byte is (cx, cy), which is transparent,
            // so the byte is no blend target.
            assert(!spec_cursor_blend_target(k, w, px, py, s));
        }
    }
}

/// Advancing past a sprite pixel that falls outside the frame keeps the
/// invariant: no frame byte lies under it.
proof fn lemma_cursor_offscreen_step(
    orig: Seq<u8>,
    cur: Seq<u8>,
    w: int,
    h: int,
    px: int,
    py: int,
    s: CursorSprite,
    cx: int,
    cy: int,
)
    requires
        0 < w,
        0 <= cx < s.width,
        0 <= cy < s.height,
        s.well_formed(),
        orig.len() == w * h * 4,
        cur.len() == orig.len(),
        !(0 <= px + cx < w && 0 <= py + cy < h),
        forall|k: int|
            0 <= k < cur.len() ==> cur[k] as int == (if spec_cursor_blend_target(k, w, px, py, s)
                && ((k / 4) / w - py < cy || ((k / 4) / w - py == cy && (k / 4) % w - px < cx)) {
                spec_cursor_blent_byte(orig, k, w, px, py, s)
            } else {
                orig[k] as int
            }),
    ensures
        forall|k: int|
            0 <= k < cur.len() ==> cur[k] as int == (if spec_cursor_blend_target(k, w, px, py, s)
                && ((k / 4) / w - py < cy || ((k / 4) / w - py == cy && (k / 4) % w - px < cx + 1)) {
                spec_cursor_blent_byte(orig, k, w, px, py, s)
            } else {
                orig[k] as int
            }),
{
    assert forall|k: int| 0 <= k < cur.len() implies cur[k] as int == (if spec_cursor_blend_target(
        k,
        w,
        px,
        py,
        s,
    ) && ((k / 4) / w - py < cy || ((k / 4) / w - py == cy && (k / 4) % w - px < cx + 1)) {
        spec_cursor_blent_byte(orig, k, w, px, py, s)
    } else {
        orig[k] as int
    }) by {
        if (k / 4) / w - py == cy && (k / 4) % w - px == cx {
            // A frame byte at pixel (cx, cy) would place that pixel inside
            // the frame, which it is not.
            let pixel = k / 4;
            assert(0 <= pixel < w * h) by {
                vstd::arithmetic::div_mod::lemma_div_pos_is_pos(k, 4);
                assert(pixel * 4 <= k < (pixel + 1) * 4) by {
                    vstd::arithmetic::div_mod::lemma_fundamental_div_mod(k, 4);
                };
                assert(pixel < w * h) by (nonlinear_arith)
                    requires
                        pixel * 4 <= k,
                        k < w * h * 4,
                ;
            };
            assert(0 <= pixel % w < w) by {
                vstd::arithmetic::div_mod::lemma_mod_bound(pixel, w);
            };
            assert(0 <= pixel / w < h) by {
                vstd::arithmetic::div_mod::lemma_div_pos_is_pos(pixel, w);
                assert((pixel / w) * w <= pixel) by {
                    vstd::arithmetic::div_mod::lemma_fundamental_div_mod(pixel, w);
                    vstd::arithmetic::div_mod::lemma_mod_bound(pixel, w);
                };
                assert(pixel / w < h) by (nonlinear_arith)
                    requires
                        (pixel / w) * w <= pixel,
                        pixel < w * h,
                        0 < w,
                ;
            };
            assert(false);
        }
    }
}

/// The webcam thumbnail's width: one eighth of the frame width,
/// rounded to the nearest pixel.
pub open spec fn spec_overlay_width(fw: int) -> int {
    (fw + 4) / 8
}

/// The webcam thumbnail's height: scaled from the width preserving the
/// webcam's own aspect ratio.
pub open spec fn spec_overlay_height(fw: int, ww: int, wh: int) -> int {
    spec_overlay_width(fw) * wh / ww
}

/// The corner radius of the thumbnail mask: a tenth of its smaller
/// dimension.
pub open spec fn spec_overlay_radius(sw: int, sh: int) -> int {
    if sw < sh {
        sw / 10
    } else {
        sh / 10
    }
}

/// The source pixel coordinate of a thumbnail coordinate, by nearest
/// neighbour: the scaled-down position, clamped to the last source pixel.
pub open spec fn spec_overlay_src(d: int, full: int, scaled: int) -> int {
    let t = d * full / scaled;
    if t < full - 1 {
        t
    } else {
        full - 1
    }
}

/// Whether byte `k` of the frame lies under the webcam thumbnail, whose
/// box sits at the bottom-right corner with the given margin, inside the
/// rounded-rectangle mask.
pub open spec fn spec_overlay_covers(
    k: int,
    fw: int,
    fh: int,
    ww: int,
    wh: int,
    margin: int,
) -> bool {
    let sw = spec_overlay_width(fw);
    let sh = spec_overlay_height(fw, ww, wh);
    let dx = (k / 4) % fw - (fw - sw - margin);
    let dy = (k / 4) / fw - (fh - sh - margin);
    &&& 0 <= dx < sw
    &&& 0 <= dy < sh
    &&& spec_inside_rounded_rect(dx, dy, sw, sh, spec_overlay_radius(sw, sh))
}

/// The value byte `k` takes under the thumbnail: the nearest-neighbour
/// webcam channel at full opacity.
pub open spec fn spec_overlay_byte(
    wframe: Seq<u8>,
    k: int,
    fw: int,
    fh: int,
    ww: int,
    wh: int,
    margin: int,
) -> int {
    let sw = spec_overlay_width(fw);
    let sh = spec_overlay_height(fw, ww, wh);
    let dx = (k / 4) % fw - (fw - sw - margin);
    let dy = (k / 4) / fw - (fh - sh - margin);
    let ch = k % 4;
    if ch == 3 {
        255
    } else {
        let sx = spec_overlay_src(dx, ww, sw);
        let sy = spec_overlay_src(dy, wh, sh);
        wframe[(sy * ww + sx) * 4 + ch] as int
    }
}

/// Copy the webcam frame, scaled down by nearest neighbour, onto the
/// bottom-right corner of the frame at full opacity, masked by a rounded
/// rectangle whose corner radius is a tenth of the thumbnail's smaller
/// dimension. Pixels masked out stay untouched.
#[verifier::rlimit(80)]
pub fn draw_webcam_overlay(
    frame: &mut Vec<u8>,
    frame_width: u32,
    frame_height: u32,
    webcam_frame: &Vec<u8>,
    webcam_width: u32,
    webcam_height: u32,
    margin: u32,
)
    requires
        old(frame)@.len() == frame_width * frame_height * 4,
        0 < frame_width <= 0x4000,
        0 < frame_height <= 0x4000,
        0 < webcam_width <= 0x4000,
        0 < webcam_height <= 0x4000,
        webcam_frame@.len() == webcam_width * webcam_height * 4,
        spec_overlay_width(frame_width as int) + margin <= frame_width,
        spec_overlay_height(frame_width as int, webcam_width as int, webcam_height as int)
            + margin <= frame_height,
    ensures
        final(frame)@.len() == old(frame)@.len(),
        forall|k: int|
            0 <= k < final(frame)@.len() ==> final(frame)@[k] as int == (if spec_overlay_covers(
                k,
                frame_width as int,
                frame_height as int,
                webcam_width as int,
                webcam_height as int,
                margin as int,
            ) {
                spec_overlay_byte(
                    webcam_frame@,
                    k,
                    frame_width as int,
                    frame_height as int,
                    webcam_width as int,
                    webcam_height as int,
                    margin as int,
                )
            } else {
                old(frame)@[k] as int
            }),
{
    let ghost orig = old(frame)@;
    let ghost fw = frame_width as int;
    let ghost fh = frame_height as int;
    let ghost ww = webcam_width as int;
    let ghost wh = webcam_height as int;
    let ghost m = margin as int;
    let scaled_width: u32 = (frame_width + 4) / 8;
    let scaled_height_wide: u64 = mul_div_u32(scaled_width, webcam_height, webcam_width);
    let scaled_height: u32 = scaled_height_wide as u32;
    let dest_x: u32 = frame_width - scaled_width - margin;
    let dest_y: u32 = frame_height - scaled_height - margin;
    let radius: u32 = if scaled_width < scaled_height {
        scaled_width / 10
    } else {
        scaled_height / 10
    };
    let mut dy: u32 = 0;
    while dy < scaled_height
        invariant
            old(frame)@.len() == frame_width * frame_height * 4,
            0 < frame_width <= 0x4000,
            0 < frame_height <= 0x4000,
            0 < webcam_width <= 0x4000,
            0 < webcam_height <= 0x4000,
            webcam_frame@.len() == webcam_width * webcam_height * 4,
            orig == old(frame)@,
            fw == frame_width as int,
            fh == frame_height as int,
            ww == webcam_width as int,
            wh == webcam_height as int,
            m == margin as int,
            scaled_width as int == spec_overlay_width(fw),
            scaled_height as int == spec_overlay_height(fw, ww, wh),
            scaled_width + margin <= frame_width,
            scaled_height + margin <= frame_height,
            dest_x as int == fw - scaled_width - m,
            dest_y as int == fh - scaled_height - m,
            radius as int == spec_overlay_radius(scaled_width as int, scaled_height as int),
            dy <= scaled_height,
            frame@.len() == orig.len(),
            forall|k: int|
                0 <= k < frame@.len() ==> frame@[k] as int == (if spec_overlay_covers(
                    k,
                    fw,
                    fh,
                    ww,
                    wh,
                    m,
                ) && (k / 4) / fw - dest_y < dy {
                    spec_overlay_byte(webcam_frame@, k, fw, fh, ww, wh, m)
                } else {
                    orig[k] as int
                }),
        decreases scaled_height - dy,
    {
        let mut dx: u32 = 0;
        while dx < scaled_width
            invariant
                old(frame)@.len() == frame_width * frame_height * 4,
                0 < frame_width <= 0x4000,
                0 < frame_height <= 0x4000,
                0 < webcam_width <= 0x4000,
                0 < webcam_height <= 0x4000,
                webcam_frame@.len() == webcam_width * webcam_height * 4,
                orig == old(frame)@,
                fw == frame_width as int,
                fh == frame_height as int,
                ww == webcam_width as int,
                wh == webcam_height as int,
                m == margin as int,
                scaled_width as int == spec_overlay_width(fw),
                scaled_height as int == spec_overlay_height(fw, ww, wh),
                scaled_width + margin <= frame_width,
                scaled_height + margin <= frame_height,
                dest_x as int == fw - scaled_width - m,
                dest_y as int == fh - scaled_height - m,
                radius as int == spec_overlay_radius(scaled_width as int, scaled_height as int),
                dy < scaled_height,
                dx <= scaled_width,
                frame@.len() == orig.len(),
                forall|k: int|
                    0 <= k < frame@.len() ==> frame@[k] as int == (if spec_overlay_covers(
                        k,
                        fw,
                        fh,
                        ww,
                        wh,
                        m,
                    ) && ((k / 4) / fw - dest_y < dy || ((k / 4) / fw - dest_y == dy && (k / 4)
                        % fw - dest_x < dx)) {
                        spec_overlay_byte(webcam_frame@, k, fw, fh, ww, wh, m)
                    } else {
                        orig[k] as int
                    }),
            decreases scaled_width - dx,
        {
            let inside = is_inside_rounded_rect(
                dx as i32,
                dy as i32,
                scaled_width as i32,
                scaled_height as i32,
                radius as i32,
            );
            if inside {
                let sx_raw: u64 = mul_div_u32(dx, webcam_width, scaled_width);
                let sx: u32 = if sx_raw < (webcam_width - 1) as u64 {
                    sx_raw as u32
                } else {
                    webcam_width - 1
                };
                let sy_raw: u64 = mul_div_u32(dy, webcam_height, scaled_height);
                let sy: u32 = if sy_raw < (webcam_height - 1) as u64 {
                    sy_raw as u32
                } else {
                    webcam_height - 1
                };
                proof {
                    lemma_grid_bound(ww, wh, sx as int, sy as int);
                    lemma_grid_bound(fw, fh, dest_x + dx, dest_y + dy);
                    lemma_area_bound(ww, wh);
                    lemma_area_bound(fw, fh);
                }
                let src_idx: usize = ((sy as usize) * (webcam_width as usize) + (sx as usize)) * 4;
                let dest_idx: usize = ((dest_y as usize + dy as usize) * (frame_width as usize) + (
                dest_x as usize + dx as usize)) * 4;
                let ghost pre = frame@;
                let w0 = webcam_frame[src_idx];
                let w1 = webcam_frame[src_idx + 1];
                let w2 = webcam_frame[src_idx + 2];
                frame[dest_idx] = w0;
                frame[dest_idx + 1] = w1;
                frame[dest_idx + 2] = w2;
                frame[dest_idx + 3] = 255;
                proof {
                    lemma_overlay_pixel_step(
                        orig,
                        pre,
                        frame@,
                        webcam_frame@,
                        fw,
                        fh,
                        ww,
                        wh,
                        m,
                        dx as int,
                        dy as int,
                    );
                }
            } else {
                proof {
                    lemma_overlay_skip_step(
                        orig,
                        frame@,
                        webcam_frame@,
                        fw,
                        fh,
                        ww,
                        wh,
                        m,
                        dx as int,
                        dy as int,
                    );
                }
            }
            dx = dx + 1;
        }
        dy = dy + 1;
    }
}

/// After copying the four bytes of thumbnail pixel `(dx, dy)`, the
/// partial-completion invariant advances by one pixel.
#[verifier::rlimit(80)]
proof fn lemma_overlay_pixel_step(
    orig: Seq<u8>,
    pre: Seq<u8>,
    cur: Seq<u8>,
    wframe: Seq<u8>,
    fw: int,
    fh: int,
    ww: int,
    wh: int,
    m: int,
    dx: int,
    dy: int,
)
    requires
        0 < fw,
        0 < fh,
        0 < ww,
        0 < wh,
        0 <= m,
        orig.len() == fw * fh * 4,
        pre.len() == orig.len(),
        wframe.len() == ww * wh * 4,
        0 <= dx < spec_overlay_width(fw),
        0 <= dy < spec_overlay_height(fw, ww, wh),
        spec_overlay_width(fw) + m <= fw,
        spec_overlay_height(fw, ww, wh) + m <= fh,
        spec_inside_rounded_rect(
            dx,
            dy,
            spec_overlay_width(fw),
            spec_overlay_height(fw, ww, wh),
            spec_overlay_radius(spec_overlay_width(fw), spec_overlay_height(fw, ww, wh)),
        ),
        forall|k: int|
            0 <= k < pre.len() ==> pre[k] as int == (if spec_overlay_covers(k, fw, fh, ww, wh, m)
                && ((k / 4) / fw - (fh - spec_overlay_height(fw, ww, wh) - m) < dy || ((k / 4) / fw
                - (fh - spec_overlay_height(fw, ww, wh) - m) == dy && (k / 4) % fw - (fw
                - spec_overlay_width(fw) - m) < dx)) {
                spec_overlay_byte(wframe, k, fw, fh, ww, wh, m)
            } else {
                orig[k] as int
            }),
        ({
            let sw = spec_overlay_width(fw);
            let sh = spec_overlay_height(fw, ww, wh);
            let base = (((fh - sh - m) + dy) * fw + ((fw - sw - m) + dx)) * 4;
            let sx = spec_overlay_src(dx, ww, sw);
            let sy = spec_overlay_src(dy, wh, sh);
            &&& cur.len() == pre.len()
            &&& cur[base] as int == wframe[(sy * ww + sx) * 4] as int
            &&& cur[base + 1] as int == wframe[(sy * ww + sx) * 4 + 1] as int
            &&& cur[base + 2] as int == wframe[(sy * ww + sx) * 4 + 2] as int
            &&& cur[base + 3] as int == 255
            &&& forall|k: int|
                0 <= k < cur.len() && !(base <= k < base + 4) ==> cur[k] == pre[k]
        }),
    ensures
        forall|k: int|
            0 <= k < cur.len() ==> cur[k] as int == (if spec_overlay_covers(k, fw, fh, ww, wh, m)
                && ((k / 4) / fw - (fh - spec_overlay_height(fw, ww, wh) - m) < dy || ((k / 4) / fw
                - (fh - spec_overlay_height(fw, ww, wh) - m) == dy && (k / 4) % fw - (fw
                - spec_overlay_width(fw) - m) < dx + 1)) {
                spec_overlay_byte(wframe, k, fw, fh, ww, wh, m)
            } else {
                orig[k] as int
            }),
{
    let sw = spec_overlay_width(fw);
    let sh = spec_overlay_height(fw, ww, wh);
    let fx = (fw - sw - m) + dx;
    let fy = (fh - sh - m) + dy;
    let base = (fy * fw + fx) * 4;
    lemma_grid_bound(fw, fh, fx, fy);
    assert forall|k: int| 0 <= k < cur.len() implies cur[k] as int == (if spec_overlay_covers(
        k,
        fw,
        fh,
        ww,
        wh,
        m,
    ) && ((k / 4) / fw - (fh - sh - m) < dy || ((k / 4) / fw - (fh - sh - m) == dy && (k / 4) % fw
        - (fw - sw - m) < dx + 1)) {
        spec_overlay_byte(wframe, k, fw, fh, ww, wh, m)
    } else {
        orig[k] as int
    }) by {
        if base <= k < base + 4 {
            lemma_byte_index(fw, fx, fy, k - base);
            assert(k / 4 == fy * fw + fx);
            assert((k / 4) % fw == fx && (k / 4) / fw == fy);
        } else {
            assert(cur[k] == pre[k]);
            if (k / 4) / fw - (fh - sh - m) == dy && (k / 4) % fw - (fw - sw - m) == dx {
                vstd::arithmetic::div_mod::lemma_mod_bound(k, 4);
                vstd::arithmetic::div_mod::lemma_fundamental_div_mod(k, 4);
                vstd::arithmetic::div_mod::lemma_fundamental_div_mod(k / 4, fw);
                assert(k / 4 == fw * ((fh - sh - m) + dy) + ((fw - sw - m) + dx));
                assert(((fh - sh - m) + dy) * fw == fw * ((fh - sh - m) + dy)) by (nonlinear_arith);
                assert(base == 4 * (k / 4));
                assert(k == 4 * (k / 4) + k % 4);
                assert(base <= k);
                assert(k < base + 4);
                assert(false);
            }
        }
    }
}

/// Advancing past a thumbnail pixel outside the rounded mask keeps the
/// invariant: no byte under it is covered.
proof fn lemma_overlay_skip_step(
    orig: Seq<u8>,
    cur: Seq<u8>,
    wframe: Seq<u8>,
    fw: int,
    fh: int,
    ww: int,
    wh: int,
    m: int,
    dx: int,
    dy: int,
)
    requires
        0 < fw,
        0 < fh,
        orig.len() == fw * fh * 4,
        cur.len() == orig.len(),
        0 <= dx < spec_overlay_width(fw),
        0 <= dy < spec_overlay_height(fw, ww, wh),
        !spec_inside_rounded_rect(
            dx,
            dy,
            spec_overlay_width(fw),
            spec_overlay_height(fw, ww, wh),
            spec_overlay_radius(spec_overlay_width(fw), spec_overlay_height(fw, ww, wh)),
        ),
        forall|k: int|
            0 <= k < cur.len() ==> cur[k] as int == (if spec_overlay_covers(k, fw, fh, ww, wh, m)
                && ((k / 4) / fw - (fh - spec_overlay_height(fw, ww, wh) - m) < dy || ((k / 4) / fw
                - (fh - spec_overlay_height(fw, ww, wh) - m) == dy && (k / 4) % fw - (fw
                - spec_overlay_width(fw) - m) < dx)) {
                spec_overlay_byte(wframe, k, fw, fh, ww, wh, m)
            } else {
                orig[k] as int
            }),
    ensures
        forall|k: int|
            0 <= k < cur.len() ==> cur[k] as int == (if spec_overlay_covers(k, fw, fh, ww, wh, m)
                && ((k / 4) / fw - (fh - spec_overlay_height(fw, ww, wh) - m) < dy || ((k / 4) / fw
                - (fh - spec_overlay_height(fw, ww, wh) - m) == dy && (k / 4) % fw - (fw
                - spec_overlay_width(fw) - m) < dx + 1)) {
                spec_overlay_byte(wframe, k, fw, fh, ww, wh, m)
            } else {
                orig[k] as int
            }),
{
    let sw = spec_overlay_width(fw);
    let sh = spec_overlay_height(fw, ww, wh);
    assert forall|k: int| 0 <= k < cur.len() implies cur[k] as int == (if spec_overlay_covers(
        k,
        fw,
        fh,
        ww,
        wh,
        m,
    ) && ((k / 4) / fw - (fh - sh - m) < dy || ((k / 4) / fw - (fh - sh - m) == dy && (k / 4) % fw
        - (fw - sw - m) < dx + 1)) {
        spec_overlay_byte(wframe, k, fw, fh, ww, wh, m)
    } else {
        orig[k] as int
    }) by {
        if (k / 4) / fw - (fh - sh - m) == dy && (k / 4) % fw - (fw - sw - m) == dx {
            assert(!spec_overlay_covers(k, fw, fh, ww, wh, m));
        }
    }
}

/// Whether the timeline is sorted by sample time.
pub open spec fn spec_timeline_sorted(s: Seq<CursorSample>) -> bool {
    forall|i: int, j: int| 0 <= i < j < s.len() ==> s[i].time_ms <= s[j].time_ms
}

/// The sample index the compositor uses at time `t`: the last sample at
/// or before `t`, or the first sample when `t` precedes the whole
/// timeline (clamped, not skipped).
pub open spec fn spec_cursor_index(s: Seq<CursorSample>, t: u64) -> int
    decreases s.len(),
{
    if s.len() == 0 {
        0
    } else if s.last().time_ms <= t {
        s.len() - 1
    } else {
        spec_cursor_index(s.drop_last(), t)
    }
}

/// The index is always inside the timeline.
pub proof fn lemma_cursor_index_in_range(s: Seq<CursorSample>, t: u64)
    requires
        s.len() > 0,
    ensures
        0 <= spec_cursor_index(s, t) < s.len(),
    decreases s.len(),
{
    if !(s.last().time_ms <= t) {
        if s.len() == 1 {
            assert(s.drop_last().len() == 0);
            assert(spec_cursor_index(s.drop_last(), t) == 0);
        } else {
            lemma_cursor_index_in_range(s.drop_last(), t);
        }
    }
}

/// Any index with the lookup property (its sample is at or before `t`,
/// every later sample is after `t`, and it is 0 when `t` precedes the
/// timeline) is the lookup index.
proof fn lemma_cursor_index_unique(s: Seq<CursorSample>, t: u64, idx: int)
    requires
        spec_timeline_sorted(s),
        0 <= idx < s.len(),
        s[0].time_ms > t ==> idx == 0,
        s[0].time_ms <= t ==> s[idx].time_ms <= t,
        forall|j: int| idx < j < s.len() ==> s[j].time_ms > t,
    ensures
        idx == spec_cursor_index(s, t),
    decreases s.len(),
{
    assert(s.last() == s[s.len() - 1]);
    if s.last().time_ms <= t {
        if s.len() > 1 {
            assert(s[0].time_ms <= s[s.len() - 1].time_ms);
        }
        assert(s[0].time_ms <= t);
        if idx < s.len() - 1 {
            assert(s[s.len() - 1].time_ms > t);
            assert(false);
        }
        assert(spec_cursor_index(s, t) == s.len() - 1);
    } else {
        if s.len() == 1 {
            assert(s[0].time_ms > t);
            assert(idx == 0);
            assert(s.drop_last().len() == 0);
            assert(spec_cursor_index(s.drop_last(), t) == 0);
        } else {
            let d = s.drop_last();
            assert forall|i: int, j: int| 0 <= i < j < d.len() implies d[i].time_ms
                <= d[j].time_ms by {
                assert(d[i] == s[i] && d[j] == s[j]);
                assert(s[i].time_ms <= s[j].time_ms);
            }
            assert(spec_timeline_sorted(d));
            if idx == s.len() - 1 {
                if s[0].time_ms <= t {
                    assert(s[idx].time_ms <= t);
                    assert(false);
                } else {
                    assert(idx == 0);
                    assert(false);
                }
            } else {
                assert(0 <= idx < d.len());
                assert(d[0] == s[0]);
                assert(d[idx] == s[idx]);
                assert(forall|j: int| idx < j < d.len() ==> d[j] == s[j]);
                lemma_cursor_index_unique(d, t, idx);
                assert(spec_cursor_index(s, t) == spec_cursor_index(d, t));
            }
        }
    }
}

/// Find the index of the cursor sample to use at time `time_ms`, by
/// binary search over the sorted timeline: the last sample at or before
/// that time, the first sample when the time precedes the whole
/// timeline, and nothing when the timeline is empty.
pub fn find_cursor_at_time(timeline: &Vec<CursorSample>, time_ms: u64) -> (r: Option<usize>)
    requires
        spec_timeline_sorted(timeline@),
    ensures
        r is None <==> timeline@.len() == 0,
        r matches Some(idx) ==> idx as int == spec_cursor_index(timeline@, time_ms),
{
    let n = timeline.len();
    if n == 0 {
        return None;
    }
    let mut lo: usize = 0;
    let mut hi: usize = n;
    while lo < hi
        invariant
            spec_timeline_sorted(timeline@),
            n == timeline@.len(),
            lo <= hi <= n,
            forall|i: int| 0 <= i < lo ==> timeline@[i].time_ms <= time_ms,
            forall|i: int| hi <= i < n ==> timeline@[i].time_ms > time_ms,
        decreases hi - lo,
    {
        let mid = lo + (hi - lo) / 2;
        if timeline[mid].time_ms <= time_ms {
            lo = mid + 1;
        } else {
            hi = mid;
        }
    }
    let idx: usize = if lo == 0 {
        0
    } else {
        lo - 1
    };
    proof {
        lemma_cursor_index_unique(timeline@, time_ms, idx as int);
    }
    Some(idx)
}

} // verus!
