//! Integer layout geometry: vectors, sizes, rectangles, and the rectangle
//! operations the flattening engine relies on (translation, intersection,
//! subtraction).
//!
//! Coordinates are signed 64-bit layout units. Additions that could leave the
//! representable range saturate; `sat64` is the specification of that
//! saturation. Rectangles whose coordinates are bounded by `COORD_LIMIT`
//! never saturate, and the lemmas at the bottom of this module state the
//! exact point-set behaviour of the operations under that bound.

use vstd::prelude::*;

verus! {

/// Bound under which all geometric arithmetic in this module is exact.
pub const COORD_LIMIT: i64 = 0x2000_0000_0000_0000;

/// An unbounded integer forced into the `i64` range.
pub open spec fn sat64(x: int) -> int {
    if x > i64::MAX as int {
        i64::MAX as int
    } else if x < i64::MIN as int {
        i64::MIN as int
    } else {
        x
    }
}

/// Saturating addition of two coordinates.
pub fn sat_add(a: i64, b: i64) -> (r: i64)
    ensures
        r as int == sat64(a + b),
{
    if b >= 0 {
        if a > i64::MAX - b {
            i64::MAX
        } else {
            a + b
        }
    } else {
        if a < i64::MIN - b {
            i64::MIN
        } else {
            a + b
        }
    }
}

/// Saturating subtraction of two coordinates.
pub fn sat_sub(a: i64, b: i64) -> (r: i64)
    ensures
        r as int == sat64(a - b),
{
    if b <= 0 {
        if a > i64::MAX + b {
            i64::MAX
        } else {
            a - b
        }
    } else {
        if a < i64::MIN + b {
            i64::MIN
        } else {
            a - b
        }
    }
}

/// A product of two bounded non-negative factors is bounded by the product
/// of the bounds.
pub proof fn lemma_mul_bounds(a: int, b: int, amax: int, bmax: int)
    requires
        0 <= a <= amax,
        0 <= b <= bmax,
    ensures
        0 <= a * b <= amax * bmax,
{
    assert(0 <= a * b <= amax * bmax) by (nonlinear_arith)
        requires
            0 <= a <= amax,
            0 <= b <= bmax,
    ;
}

/// A wide intermediate value forced into the `i64` range.
pub fn clamp_i128(v: i128) -> (r: i64)
    ensures
        r as int == sat64(v as int),
{
    if v > i64::MAX as i128 {
        i64::MAX
    } else if v < i64::MIN as i128 {
        i64::MIN
    } else {
        v as i64
    }
}

/// A 2D offset in layout units; also used for positions.
#[derive(Clone, Copy, PartialEq, Eq, Structural, Debug)]
pub struct Vector {
    pub x: i64,
    pub y: i64,
}

impl Vector {
    pub fn new(x: i64, y: i64) -> (v: Vector)
        ensures
            v == (Vector { x, y }),
    {
        Vector { x, y }
    }

    pub fn zero() -> (v: Vector)
        ensures
            v == (Vector { x: 0i64, y: 0i64 }),
    {
        Vector { x: 0, y: 0 }
    }

    /// Component-wise saturating addition.
    pub open spec fn spec_add(self, other: Vector) -> Vector {
        Vector { x: sat64(self.x + other.x) as i64, y: sat64(self.y + other.y) as i64 }
    }

    pub fn add(self, other: Vector) -> (r: Vector)
        ensures
            r == self.spec_add(other),
    {
        Vector { x: sat_add(self.x, other.x), y: sat_add(self.y, other.y) }
    }
}

/// A 2D extent in layout units. Degenerate (zero or negative) extents are
/// representable; such a size spans no points.
#[derive(Clone, Copy, PartialEq, Eq, Structural, Debug)]
pub struct Size {
    pub w: i64,
    pub h: i64,
}

impl Size {
    pub fn new(w: i64, h: i64) -> (s: Size)
        ensures
            s == (Size { w, h }),
    {
        Size { w, h }
    }

    pub fn zero() -> (s: Size)
        ensures
            s == (Size { w: 0i64, h: 0i64 }),
    {
        Size { w: 0, h: 0 }
    }
}

/// An axis-aligned rectangle: an origin and an extent.
#[derive(Clone, Copy, PartialEq, Eq, Structural, Debug)]
pub struct Rect {
    pub origin: Vector,
    pub size: Size,
}

/// Whether the point (x, y) lies inside `r` (origin inclusive, far edge
/// exclusive). Empty rectangles contain no point.
pub open spec fn rect_contains(r: Rect, x: int, y: int) -> bool {
    &&& r.origin.x <= x < r.origin.x + r.size.w
    &&& r.origin.y <= y < r.origin.y + r.size.h
}

pub open spec fn spec_rect_is_empty(r: Rect) -> bool {
    r.size.w <= 0 || r.size.h <= 0
}

pub open spec fn coord_bounded(c: int) -> bool {
    -COORD_LIMIT <= c <= COORD_LIMIT
}

/// Rectangles within this bound never saturate in any operation below.
pub open spec fn rect_bounded(r: Rect) -> bool {
    &&& coord_bounded(r.origin.x as int)
    &&& coord_bounded(r.origin.y as int)
    &&& coord_bounded(r.size.w as int)
    &&& coord_bounded(r.size.h as int)
}

/// The intersection of two rectangles, `None` when they share no interior
/// point (up to saturation at the edge of the coordinate range).
pub open spec fn spec_intersection(a: Rect, b: Rect) -> Option<Rect> {
    let x0 = if a.origin.x >= b.origin.x { a.origin.x as int } else { b.origin.x as int };
    let y0 = if a.origin.y >= b.origin.y { a.origin.y as int } else { b.origin.y as int };
    let ax1 = sat64(a.origin.x + a.size.w);
    let bx1 = sat64(b.origin.x + b.size.w);
    let ay1 = sat64(a.origin.y + a.size.h);
    let by1 = sat64(b.origin.y + b.size.h);
    let x1 = if ax1 <= bx1 { ax1 } else { bx1 };
    let y1 = if ay1 <= by1 { ay1 } else { by1 };
    if x0 < x1 && y0 < y1 {
        Some(
            Rect {
                origin: Vector { x: x0 as i64, y: y0 as i64 },
                size: Size { w: (x1 - x0) as i64, h: (y1 - y0) as i64 },
            },
        )
    } else {
        None
    }
}

/// `r` moved by `v` (saturating); the extent is unchanged.
pub open spec fn spec_translate(r: Rect, v: Vector) -> Rect {
    Rect {
        origin: Vector {
            x: sat64(r.origin.x + v.x) as i64,
            y: sat64(r.origin.y + v.y) as i64,
        },
        size: r.size,
    }
}

impl Rect {
    pub fn new(origin: Vector, size: Size) -> (r: Rect)
        ensures
            r == (Rect { origin, size }),
    {
        Rect { origin, size }
    }

    pub fn zero() -> (r: Rect)
        ensures
            r == (Rect { origin: Vector { x: 0i64, y: 0i64 }, size: Size { w: 0i64, h: 0i64 } }),
    {
        Rect { origin: Vector { x: 0, y: 0 }, size: Size { w: 0, h: 0 } }
    }

    pub fn is_empty(&self) -> (b: bool)
        ensures
            b == spec_rect_is_empty(*self),
    {
        self.size.w <= 0 || self.size.h <= 0
    }

    pub fn translate(&self, v: Vector) -> (r: Rect)
        ensures
            r == spec_translate(*self, v),
    {
        Rect {
            origin: Vector { x: sat_add(self.origin.x, v.x), y: sat_add(self.origin.y, v.y) },
            size: self.size,
        }
    }

    /// Whether all coordinates are within `COORD_LIMIT`.
    pub fn is_bounded(&self) -> (b: bool)
        ensures
            b == rect_bounded(*self),
    {
        -COORD_LIMIT <= self.origin.x && self.origin.x <= COORD_LIMIT && -COORD_LIMIT
            <= self.origin.y && self.origin.y <= COORD_LIMIT && -COORD_LIMIT <= self.size.w
            && self.size.w <= COORD_LIMIT && -COORD_LIMIT <= self.size.h && self.size.h
            <= COORD_LIMIT
    }

    /// Whether the point (x, y) lies inside this rectangle.
    pub fn contains_point(&self, x: i64, y: i64) -> (b: bool)
        ensures
            b == rect_contains(*self, x as int, y as int),
    {
        x >= self.origin.x && (x as i128) < (self.origin.x as i128) + (self.size.w as i128) && y
            >= self.origin.y && (y as i128) < (self.origin.y as i128) + (self.size.h as i128)
    }

    pub fn intersection(&self, other: &Rect) -> (r: Option<Rect>)
        ensures
            r == spec_intersection(*self, *other),
    {
        let x0 = if self.origin.x >= other.origin.x { self.origin.x } else { other.origin.x };
        let y0 = if self.origin.y >= other.origin.y { self.origin.y } else { other.origin.y };
        let ax1 = sat_add(self.origin.x, self.size.w);
        let bx1 = sat_add(other.origin.x, other.size.w);
        let ay1 = sat_add(self.origin.y, self.size.h);
        let by1 = sat_add(other.origin.y, other.size.h);
        let x1 = if ax1 <= bx1 { ax1 } else { bx1 };
        let y1 = if ay1 <= by1 { ay1 } else { by1 };
        if x0 < x1 && y0 < y1 {
            Some(Rect { origin: Vector { x: x0, y: y0 }, size: Size { w: x1 - x0, h: y1 - y0 } })
        } else {
            None
        }
    }
}

/// An intersection lies inside its right argument: any point of the
/// clipped rectangle is a point of `b` (whose far edges must not underflow
/// the coordinate range), and the clipped rectangle's own far edges are in
/// range again.
pub proof fn lemma_intersection_in_right(a: Rect, b: Rect, x: int, y: int)
    requires
        b.origin.x + b.size.w >= i64::MIN,
        b.origin.y + b.size.h >= i64::MIN,
    ensures
        match spec_intersection(a, b) {
            Some(c) => {
                &&& c.origin.x + c.size.w >= i64::MIN
                &&& c.origin.y + c.size.h >= i64::MIN
                &&& rect_contains(c, x, y) ==> rect_contains(b, x, y)
            },
            None => true,
        },
{
    let ax1 = sat64(a.origin.x + a.size.w);
    let bx1 = sat64(b.origin.x + b.size.w);
    let ay1 = sat64(a.origin.y + a.size.h);
    let by1 = sat64(b.origin.y + b.size.h);
    let x0 = if a.origin.x >= b.origin.x {
        a.origin.x as int
    } else {
        b.origin.x as int
    };
    let y0 = if a.origin.y >= b.origin.y {
        a.origin.y as int
    } else {
        b.origin.y as int
    };
    let x1 = if ax1 <= bx1 {
        ax1
    } else {
        bx1
    };
    let y1 = if ay1 <= by1 {
        ay1
    } else {
        by1
    };
    if x0 < x1 && y0 < y1 {
        assert(x1 - x0 <= i64::MAX as int) by {
            if ax1 <= bx1 {
                if a.origin.x + a.size.w > i64::MAX as int {
                    assert(a.origin.x > 0);
                }
            } else {
                if b.origin.x + b.size.w > i64::MAX as int {
                    assert(b.origin.x > 0);
                }
            }
        }
        assert(y1 - y0 <= i64::MAX as int) by {
            if ay1 <= by1 {
                if a.origin.y + a.size.h > i64::MAX as int {
                    assert(a.origin.y > 0);
                }
            } else {
                if b.origin.y + b.size.h > i64::MAX as int {
                    assert(b.origin.y > 0);
                }
            }
        }
    }
}

/// Whether some rectangle of `pieces` contains the point (x, y).
pub open spec fn in_pieces(pieces: Seq<Rect>, x: int, y: int) -> bool {
    exists|k: int| 0 <= k < pieces.len() && rect_contains(#[trigger] pieces[k], x, y)
}

/// Appending a rectangle to a list of pieces extends its coverage by exactly
/// that rectangle.
pub broadcast proof fn lemma_in_pieces_push(pieces: Seq<Rect>, r: Rect, x: int, y: int)
    ensures
        #[trigger] in_pieces(pieces.push(r), x, y) <==> (in_pieces(pieces, x, y) || rect_contains(
            r,
            x,
            y,
        )),
{
    if in_pieces(pieces.push(r), x, y) {
        let k = choose|k: int| 0 <= k < pieces.push(r).len() && rect_contains(
            #[trigger] pieces.push(r)[k],
            x,
            y,
        );
        if k < pieces.len() {
            assert(rect_contains(pieces[k], x, y));
        }
    }
    if in_pieces(pieces, x, y) {
        let k = choose|k: int| 0 <= k < pieces.len() && rect_contains(#[trigger] pieces[k], x, y);
        assert(rect_contains(pieces.push(r)[k], x, y));
    }
    if rect_contains(r, x, y) {
        assert(rect_contains(pieces.push(r)[pieces.len() as int], x, y));
    }
}

/// The exact result of `subtract_rect`: when the rectangles do not meet,
/// `outer` alone; otherwise the non-empty strips above, left of, right of,
/// and below the overlap, in that order.
pub open spec fn spec_subtract_rect(outer: Rect, inner: Rect) -> Seq<Rect> {
    match spec_intersection(outer, inner) {
        None => seq![outer],
        Some(mid) => {
            let ox1 = outer.origin.x + outer.size.w;
            let oy1 = outer.origin.y + outer.size.h;
            let mx1 = mid.origin.x + mid.size.w;
            let my1 = mid.origin.y + mid.size.h;
            let top = Rect {
                origin: outer.origin,
                size: Size { w: outer.size.w, h: (mid.origin.y - outer.origin.y) as i64 },
            };
            let left = Rect {
                origin: Vector { x: outer.origin.x, y: mid.origin.y },
                size: Size { w: (mid.origin.x - outer.origin.x) as i64, h: mid.size.h },
            };
            let right = Rect {
                origin: Vector { x: mx1 as i64, y: mid.origin.y },
                size: Size { w: (ox1 - mx1) as i64, h: mid.size.h },
            };
            let bottom = Rect {
                origin: Vector { x: outer.origin.x, y: my1 as i64 },
                size: Size { w: outer.size.w, h: (oy1 - my1) as i64 },
            };
            maybe_piece(top) + maybe_piece(left) + maybe_piece(right) + maybe_piece(bottom)
        },
    }
}

/// A strip enters the subtraction result only when it is non-empty.
pub open spec fn maybe_piece(r: Rect) -> Seq<Rect> {
    if spec_rect_is_empty(r) {
        Seq::empty()
    } else {
        seq![r]
    }
}

/// The region of `outer` not covered by `inner`, as a list of disjoint
/// rectangles (the strips above, left of, right of, and below `inner`).
/// The result is exactly `spec_subtract_rect`, whose pieces cover exactly
/// the points of `outer` outside `inner`.
pub fn subtract_rect(outer: &Rect, inner: &Rect) -> (pieces: Vec<Rect>)
    requires
        rect_bounded(*outer),
    ensures
        pieces@ == spec_subtract_rect(*outer, *inner),
        forall|x: int, y: int|
            #[trigger] in_pieces(pieces@, x, y) <==> (rect_contains(*outer, x, y)
                && !rect_contains(*inner, x, y)),
{
    broadcast use lemma_in_pieces_push;

    let mut out: Vec<Rect> = Vec::new();
    match outer.intersection(inner) {
        None => {
            out.push(*outer);
        },
        Some(mid) => {
            let ox1 = outer.origin.x + outer.size.w;
            let oy1 = outer.origin.y + outer.size.h;
            let mx1 = mid.origin.x + mid.size.w;
            let my1 = mid.origin.y + mid.size.h;
            let top = Rect {
                origin: outer.origin,
                size: Size { w: outer.size.w, h: mid.origin.y - outer.origin.y },
            };
            let left = Rect {
                origin: Vector { x: outer.origin.x, y: mid.origin.y },
                size: Size { w: mid.origin.x - outer.origin.x, h: mid.size.h },
            };
            let right = Rect {
                origin: Vector { x: mx1, y: mid.origin.y },
                size: Size { w: ox1 - mx1, h: mid.size.h },
            };
            let bottom = Rect {
                origin: Vector { x: outer.origin.x, y: my1 },
                size: Size { w: outer.size.w, h: oy1 - my1 },
            };
            if !top.is_empty() {
                out.push(top);
            }
            if !left.is_empty() {
                out.push(left);
            }
            if !right.is_empty() {
                out.push(right);
            }
            if !bottom.is_empty() {
                out.push(bottom);
            }
        },
    }
    out
}

} // verus!
