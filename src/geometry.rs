use vstd::prelude::*;

verus! {

/// Sub-pixel units per pixel.
pub const SCALE: i64 = 1000;

pub const CANVAS_WIDTH: i64 = 800_000;

pub const CANVAS_HEIGHT: i64 = 1_000_000;

/// Any coordinate or length that takes part in a collision test lies within
/// this magnitude.
pub const COORD_LIMIT: i64 = 0x4_0000_0000_0000;

/// An axis-aligned box: left/top corner and size.
#[derive(Clone, Copy, Debug, PartialEq, Eq, Structural)]
pub struct Rect {
    pub x: i64,
    pub y: i64,
    pub w: i64,
    pub h: i64,
}

impl Rect {
    pub open spec fn in_range(self) -> bool {
        &&& -COORD_LIMIT <= self.x <= COORD_LIMIT
        &&& -COORD_LIMIT <= self.y <= COORD_LIMIT
        &&& -COORD_LIMIT <= self.w <= COORD_LIMIT
        &&& -COORD_LIMIT <= self.h <= COORD_LIMIT
    }
}

/// Whole pixels of `v`, truncated toward zero.
pub open spec fn px(v: int) -> int {
    if v >= 0 {
        v / (SCALE as int)
    } else {
        -((-v) / (SCALE as int))
    }
}

pub open spec fn max_int(a: int, b: int) -> int {
    if a >= b { a } else { b }
}

pub open spec fn min_int(a: int, b: int) -> int {
    if a <= b { a } else { b }
}

/// Half-open interval overlap on whole pixels along one axis.
pub open spec fn spans_meet(a: int, aw: int, b: int, bw: int) -> bool {
    max_int(px(a), px(b)) < min_int(px(a) + px(aw), px(b) + px(bw))
}

/// Two boxes overlap when their truncated spans meet on both axes.
pub open spec fn overlap(a: Rect, b: Rect) -> bool {
    spans_meet(a.x as int, a.w as int, b.x as int, b.w as int) && spans_meet(
        a.y as int,
        a.h as int,
        b.y as int,
        b.h as int,
    )
}

/// A reference point has left the playfield.
pub open spec fn outside(x: int, y: int) -> bool {
    x < 0 || y < 0 || x > CANVAS_WIDTH as int || y > CANVAS_HEIGHT as int
}

/// Whole pixels of `v`, truncated toward zero.
pub fn to_px(v: i64) -> (r: i64)
    requires
        -COORD_LIMIT <= v <= COORD_LIMIT,
    ensures
        r == px(v as int),
{
    if v >= 0 {
        v / SCALE
    } else {
        let m: i64 = -v;
        -(m / SCALE)
    }
}

fn spans_meet_exec(a: i64, aw: i64, b: i64, bw: i64) -> (r: bool)
    requires
        -COORD_LIMIT <= a <= COORD_LIMIT,
        -COORD_LIMIT <= aw <= COORD_LIMIT,
        -COORD_LIMIT <= b <= COORD_LIMIT,
        -COORD_LIMIT <= bw <= COORD_LIMIT,
    ensures
        r == spans_meet(a as int, aw as int, b as int, bw as int),
{
    let pa = to_px(a);
    let pb = to_px(b);
    let pae = pa + to_px(aw);
    let pbe = pb + to_px(bw);
    let lo = if pa >= pb { pa } else { pb };
    let hi = if pae <= pbe { pae } else { pbe };
    lo < hi
}

/// Bounding-box overlap on truncated pixel coordinates.
pub fn overlaps(a: &Rect, b: &Rect) -> (r: bool)
    requires
        a.in_range(),
        b.in_range(),
    ensures
        r == overlap(*a, *b),
{
    spans_meet_exec(a.x, a.w, b.x, b.w) && spans_meet_exec(a.y, a.h, b.y, b.h)
}

/// Whether the point `(x, y)` lies outside `[0, width] x [0, height]`.
pub fn is_outside(x: i64, y: i64) -> (r: bool)
    ensures
        r == outside(x as int, y as int),
{
    x < 0 || y < 0 || x > CANVAS_WIDTH || y > CANVAS_HEIGHT
}

} // verus!
