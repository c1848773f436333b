//! Integer screen geometry: pointer positions and axis-aligned rectangles,
//! with the containment test and the pointer-centering rule that the drag
//! state machines rely on.

use vstd::prelude::*;

verus! {

/// A pointer position in screen coordinates.
#[derive(Clone, Copy, Debug, PartialEq, Eq, Structural)]
pub struct Point {
    pub x: i64,
    pub y: i64,
}

/// An axis-aligned rectangle: top-left corner plus size.
#[derive(Clone, Copy, Debug, PartialEq, Eq, Structural)]
pub struct Rect {
    pub x: i64,
    pub y: i64,
    pub width: u64,
    pub height: u64,
}

/// Whether `p` lies within `r`: closed on the top-left edges, open on the
/// bottom-right ones.
pub open spec fn rect_contains(r: Rect, p: Point) -> bool {
    &&& r.x <= p.x
    &&& (p.x as int) < r.x + r.width
    &&& r.y <= p.y
    &&& (p.y as int) < r.y + r.height
}

/// `v` forced into `i64`'s range: out-of-range values stick to the nearest
/// representable coordinate.
pub open spec fn clamp_to_i64(v: int) -> int {
    if v < i64::MIN as int {
        i64::MIN as int
    } else if v > i64::MAX as int {
        i64::MAX as int
    } else {
        v
    }
}

/// `r` moved so that its center sits on `p`, coordinates saturating at the
/// edges of the representable range; the size is unchanged.
pub open spec fn centered_on(r: Rect, p: Point) -> Rect {
    Rect {
        x: clamp_to_i64(p.x - r.width as int / 2) as i64,
        y: clamp_to_i64(p.y - r.height as int / 2) as i64,
        width: r.width,
        height: r.height,
    }
}

/// Forces a value already widened to `i128` back into `i64`, saturating.
fn clamp_i128(v: i128) -> (r: i64)
    ensures
        r as int == clamp_to_i64(v as int),
{
    if v < i64::MIN as i128 {
        i64::MIN
    } else if v > i64::MAX as i128 {
        i64::MAX
    } else {
        v as i64
    }
}

impl Rect {
    /// Whether the pointer position `p` is over this rectangle.
    pub fn contains(&self, p: Point) -> (b: bool)
        ensures
            b == rect_contains(*self, p),
    {
        (self.x as i128) <= (p.x as i128) && (p.x as i128) < (self.x as i128) + (
        self.width as i128) && (self.y as i128) <= (p.y as i128) && (p.y as i128) < (
        self.y as i128) + (self.height as i128)
    }

    /// This rectangle moved so that its center sits on `p`, saturating at the
    /// edges of the coordinate range.
    pub fn center_on(&self, p: Point) -> (r: Rect)
        ensures
            r == centered_on(*self, p),
    {
        let x = clamp_i128((p.x as i128) - ((self.width / 2) as i128));
        let y = clamp_i128((p.y as i128) - ((self.height / 2) as i128));
        Rect { x, y, width: self.width, height: self.height }
    }
}

} // verus!
