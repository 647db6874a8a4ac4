//! Rounded-rectangle membership for the webcam overlay mask.

use vstd::prelude::*;

verus! {

/// Whether the point `(x, y)` of a `w` by `h` rectangle lies inside the
/// rectangle rounded with corner radius `r`: points in one of the four
/// corner squares must lie within the corner's quarter circle; all other
/// points of the rectangle are members.
pub open spec fn spec_inside_rounded_rect(x: int, y: int, w: int, h: int, r: int) -> bool {
    if x < r && y < r {
        let dx = r - x;
        let dy = r - y;
        dx * dx + dy * dy <= r * r
    } else if x >= w - r && y < r {
        let dx = x - (w - r - 1);
        let dy = r - y;
        dx * dx + dy * dy <= r * r
    } else if x < r && y >= h - r {
        let dx = r - x;
        let dy = y - (h - r - 1);
        dx * dx + dy * dy <= r * r
    } else if x >= w - r && y >= h - r {
        let dx = x - (w - r - 1);
        let dy = y - (h - r - 1);
        dx * dx + dy * dy <= r * r
    } else {
        true
    }
}

/// A square, with the bounds Verus needs for the overflow checks.
fn sq(v: i64) -> (r: i64)
    requires
        -0x20000001 <= v <= 0x20000001,
    ensures
        r == v * v,
        0 <= r <= 0x20000001 * 0x20000001,
{
    proof {
        assert(0 <= v * v <= 0x20000001 * 0x20000001) by (nonlinear_arith)
            requires
                -0x20000001 <= v <= 0x20000001,
        ;
    }
    v * v
}

/// Check whether a point lies inside the rounded rectangle.
pub fn is_inside_rounded_rect(x: i32, y: i32, width: i32, height: i32, radius: i32) -> (r: bool)
    requires
        -0x10000000 <= x <= 0x10000000,
        -0x10000000 <= y <= 0x10000000,
        0 <= width <= 0x10000000,
        0 <= height <= 0x10000000,
        0 <= radius <= 0x10000000,
    ensures
        r == spec_inside_rounded_rect(x as int, y as int, width as int, height as int, radius as int),
{
    let x = x as i64;
    let y = y as i64;
    let width = width as i64;
    let height = height as i64;
    let radius = radius as i64;
    if x < radius && y < radius {
        let dx = radius - x;
        let dy = radius - y;
        sq(dx) + sq(dy) <= sq(radius)
    } else if x >= width - radius && y < radius {
        let dx = x - (width - radius - 1);
        let dy = radius - y;
        sq(dx) + sq(dy) <= sq(radius)
    } else if x < radius && y >= height - radius {
        let dx = radius - x;
        let dy = y - (height - radius - 1);
        sq(dx) + sq(dy) <= sq(radius)
    } else if x >= width - radius && y >= height - radius {
        let dx = x - (width - radius - 1);
        let dy = y - (height - radius - 1);
        sq(dx) + sq(dy) <= sq(radius)
    } else {
        true
    }
}

/// Every point of the central box `[r, w-r) x [r, h-r)` is a member of
/// the rounded rectangle: the straight edges are never rounded beyond
/// the corner regions.
pub proof fn lemma_rounded_rect_interior(w: int, h: int, r: int, x: int, y: int)
    requires
        0 <= r,
        r <= x < w - r,
        r <= y < h - r,
    ensures
        spec_inside_rounded_rect(x, y, w, h, r),
{
}

/// The four corner points of the rectangle are members exactly when the
/// radius is zero.
pub proof fn lemma_rounded_rect_corners(w: int, h: int, r: int)
    requires
        1 <= w,
        1 <= h,
        0 <= r,
        2 * r <= w,
        2 * r <= h,
    ensures
        spec_inside_rounded_rect(0, 0, w, h, r) <==> r == 0,
        spec_inside_rounded_rect(w - 1, 0, w, h, r) <==> r == 0,
        spec_inside_rounded_rect(0, h - 1, w, h, r) <==> r == 0,
        spec_inside_rounded_rect(w - 1, h - 1, w, h, r) <==> r == 0,
{
    if r > 0 {
        assert(2 * (r * r) > r * r) by (nonlinear_arith)
            requires
                r >= 1,
        ;
        assert(w - 1 >= r);
        assert(h - 1 >= r);
    }
}

} // verus!
