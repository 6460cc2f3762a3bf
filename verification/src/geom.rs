use vstd::prelude::*;

verus! {

/// An axis-aligned window rectangle: top-left corner `(x, y)` and size
/// `(w, h)`, in integer screen units.
#[derive(Clone, Copy, PartialEq, Eq, Structural, Debug)]
pub struct Rect {
    pub x: i64,
    pub y: i64,
    pub w: i64,
    pub h: i64,
}

/// Twice the x coordinate of the rectangle's center. Doubling keeps the
/// center exact for rectangles of odd width, so comparisons between centers
/// never round.
pub open spec fn center_x2(r: Rect) -> int {
    2 * (r.x as int) + (r.w as int)
}

/// Twice the y coordinate of the rectangle's center.
pub open spec fn center_y2(r: Rect) -> int {
    2 * (r.y as int) + (r.h as int)
}

/// The rectangle's right edge.
pub open spec fn x_end(r: Rect) -> int {
    r.x as int + r.w as int
}

/// The rectangle's bottom edge.
pub open spec fn y_end(r: Rect) -> int {
    r.y as int + r.h as int
}

/// Shared extent of the intervals `[a1, a2]` and `[b1, b2]`, clamped at
/// zero: `max(0, min(a2, b2) - max(a1, b1))`.
pub open spec fn overlap_amount(a1: int, a2: int, b1: int, b2: int) -> int {
    let lo = if a1 >= b1 {
        a1
    } else {
        b1
    };
    let hi = if a2 <= b2 {
        a2
    } else {
        b2
    };
    if hi >= lo {
        hi - lo
    } else {
        0
    }
}

/// How much the vertical extents of `a` and `b` coincide.
pub open spec fn vertical_overlap(a: Rect, b: Rect) -> int {
    overlap_amount(a.y as int, y_end(a), b.y as int, y_end(b))
}

/// How much the horizontal extents of `a` and `b` coincide.
pub open spec fn horizontal_overlap(a: Rect, b: Rect) -> int {
    overlap_amount(a.x as int, x_end(a), b.x as int, x_end(b))
}

/// Doubled center and extents of a rectangle, widened to `i128` so that no
/// `i64` input can overflow: `(center_x2, center_y2, x1, y1, x2, y2)`.
pub fn center_and_rect(r: &Rect) -> (t: (i128, i128, i128, i128, i128, i128))
    ensures
        t.0 as int == center_x2(*r),
        t.1 as int == center_y2(*r),
        t.2 as int == r.x as int,
        t.3 as int == r.y as int,
        t.4 as int == x_end(*r),
        t.5 as int == y_end(*r),
{
    let x = r.x as i128;
    let y = r.y as i128;
    let w = r.w as i128;
    let h = r.h as i128;
    (2 * x + w, 2 * y + h, x, y, x + w, y + h)
}

/// `max(0, min(a2, b2) - max(a1, b1))`. The bounds keep the subtraction
/// inside `i128`; every caller passes values derived from `i64` coordinates,
/// which lie far inside them.
pub fn overlap_1d(a1: i128, a2: i128, b1: i128, b2: i128) -> (r: i128)
    requires
        -0x400000000000000000 <= a1 <= 0x400000000000000000,
        -0x400000000000000000 <= a2 <= 0x400000000000000000,
        -0x400000000000000000 <= b1 <= 0x400000000000000000,
        -0x400000000000000000 <= b2 <= 0x400000000000000000,
    ensures
        r as int == overlap_amount(a1 as int, a2 as int, b1 as int, b2 as int),
{
    let lo = if a1 >= b1 {
        a1
    } else {
        b1
    };
    let hi = if a2 <= b2 {
        a2
    } else {
        b2
    };
    if hi >= lo {
        hi - lo
    } else {
        0
    }
}

} // verus!
