//! Axis-aligned rectangles in image coordinates, and their
//! intersection-over-union as an exact fraction.
use vstd::prelude::*;

verus! {

/// A rectangle: its top-left corner, width and height, in pixels.
#[derive(Clone, Copy, Debug, PartialEq, Eq, Structural)]
pub struct Rect {
    pub x: i32,
    pub y: i32,
    pub width: i32,
    pub height: i32,
}

impl Rect {
    /// Width and height are not negative.
    pub open spec fn wf(self) -> bool {
        self.width >= 0 && self.height >= 0
    }

    pub open spec fn area(self) -> int {
        self.width * self.height
    }
}

pub open spec fn max_int(a: int, b: int) -> int {
    if a >= b { a } else { b }
}

pub open spec fn min_int(a: int, b: int) -> int {
    if a <= b { a } else { b }
}

/// Width of the overlap of the two rectangles; negative when they are apart.
pub open spec fn overlap_width(a: Rect, b: Rect) -> int {
    min_int(a.x + a.width, b.x + b.width) - max_int(a.x as int, b.x as int)
}

/// Height of the overlap of the two rectangles; negative when they are apart.
pub open spec fn overlap_height(a: Rect, b: Rect) -> int {
    min_int(a.y + a.height, b.y + b.height) - max_int(a.y as int, b.y as int)
}

/// Intersection-over-union as (intersection area, union area): `(0, 1)` when
/// the rectangles are apart or one of them has no area.
pub open spec fn iou_of(a: Rect, b: Rect) -> (int, int) {
    let w = overlap_width(a, b);
    let h = overlap_height(a, b);
    if w < 0 || h < 0 || a.area() == 0 || b.area() == 0 {
        (0, 1)
    } else {
        (w * h, a.area() + b.area() - w * h)
    }
}

/// Intersection-over-union of two rectangles, as the fraction
/// `intersection / union`; its value lies in `[0, 1]`.
pub fn calculate_iou_fraction(a: &Rect, b: &Rect) -> (r: (i64, i64))
    requires
        a.wf(),
        b.wf(),
    ensures
        r.0 == iou_of(*a, *b).0,
        r.1 == iou_of(*a, *b).1,
        0 <= r.0 <= r.1,
        r.1 > 0,
{
    let ax = a.x as i64;
    let ay = a.y as i64;
    let aw = a.width as i64;
    let ah = a.height as i64;
    let bx = b.x as i64;
    let by = b.y as i64;
    let bw = b.width as i64;
    let bh = b.height as i64;
    let x_left = if ax >= bx { ax } else { bx };
    let y_top = if ay >= by { ay } else { by };
    let x_right = if ax + aw <= bx + bw { ax + aw } else { bx + bw };
    let y_bottom = if ay + ah <= by + bh { ay + ah } else { by + bh };
    if x_right < x_left || y_bottom < y_top {
        return (0, 1);
    }
    let w = x_right - x_left;
    let h = y_bottom - y_top;
    proof {
        assert(0 <= w <= aw && 0 <= h <= ah);
        assert(w <= bw && h <= bh);
        assert(0 <= aw * ah <= 0x7fff_ffff * 0x7fff_ffff) by (nonlinear_arith)
            requires
                0 <= aw <= 0x7fff_ffff,
                0 <= ah <= 0x7fff_ffff,
        ;
        assert(0 <= bw * bh <= 0x7fff_ffff * 0x7fff_ffff) by (nonlinear_arith)
            requires
                0 <= bw <= 0x7fff_ffff,
                0 <= bh <= 0x7fff_ffff,
        ;
        assert(0 <= w * h <= aw * ah) by (nonlinear_arith)
            requires
                0 <= w <= aw,
                0 <= h <= ah,
        ;
        assert(w * h <= bw * bh) by (nonlinear_arith)
            requires
                0 <= w <= bw,
                0 <= h <= bh,
        ;
    }
    let a_area = aw * ah;
    let b_area = bw * bh;
    if a_area == 0 || b_area == 0 {
        return (0, 1);
    }
    let inter = w * h;
    let union = a_area + b_area - inter;
    (inter, union)
}

} // verus!
