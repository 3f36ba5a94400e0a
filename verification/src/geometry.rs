//! Coordinates and rectangles.
//!
//! Every output has a surface with its own coordinate space, and all outputs
//! together span one global logical space. Positions are fixed-point numbers
//! with eight fractional bits, the precision at which a pointer reports them;
//! output origins are whole pixels. The types are sized so that no operation
//! here can overflow: a global coordinate is the sum of a 32-bit origin scaled
//! to units and a 32-bit surface coordinate, and a local coordinate is the
//! difference of a global one and a scaled origin.

use vstd::prelude::*;

verus! {

/// Coordinate units per pixel.
pub const UNITS_PER_PIXEL: i64 = 256;

/// Top-left corner of an output in the global space, in whole pixels. Either
/// coordinate may be negative.
#[derive(Clone, Copy, Debug, PartialEq, Eq, Structural)]
pub struct Origin {
    pub x: i32,
    pub y: i32,
}

/// A position on one output's surface as a pointer event reports it, in units.
#[derive(Clone, Copy, Debug, PartialEq, Eq, Structural)]
pub struct SurfacePos {
    pub x: i32,
    pub y: i32,
}

/// A position in the global space, in units.
#[derive(Clone, Copy, Debug, PartialEq, Eq, Structural)]
pub struct Point {
    pub x: i64,
    pub y: i64,
}

/// A global position seen from one output's origin, in units.
#[derive(Clone, Copy, Debug, PartialEq, Eq, Structural)]
pub struct LocalPoint {
    pub x: i128,
    pub y: i128,
}

/// An axis-aligned rectangle in the global space, in units. The extent is
/// unsigned, so a rectangle is normalized by construction.
#[derive(Clone, Copy, Debug, PartialEq, Eq, Structural)]
pub struct Rect {
    pub x: i64,
    pub y: i64,
    pub width: u64,
    pub height: u64,
}

/// A rectangle seen from one output's origin, in units.
#[derive(Clone, Copy, Debug, PartialEq, Eq, Structural)]
pub struct LocalRect {
    pub x: i128,
    pub y: i128,
    pub width: u64,
    pub height: u64,
}

/// A whole number of pixels, in units.
pub open spec fn units(pixels: int) -> int {
    pixels * 256
}

pub open spec fn min_int(a: int, b: int) -> int {
    if a <= b {
        a
    } else {
        b
    }
}

pub open spec fn max_int(a: int, b: int) -> int {
    if a <= b {
        b
    } else {
        a
    }
}

/// The global position of `local` on an output whose origin is `origin`.
pub open spec fn to_global_spec(origin: Origin, local: SurfacePos) -> Point {
    Point {
        x: (units(origin.x as int) + local.x) as i64,
        y: (units(origin.y as int) + local.y) as i64,
    }
}

/// The position of `global` relative to an output whose origin is `origin`.
pub open spec fn to_local_spec(origin: Origin, global: Point) -> LocalPoint {
    LocalPoint {
        x: (global.x - units(origin.x as int)) as i128,
        y: (global.y - units(origin.y as int)) as i128,
    }
}

/// The rectangle spanned by two corner points, whichever way round they are
/// given: per axis the smaller coordinate and the distance between the two.
pub open spec fn normalize(a: Point, b: Point) -> Rect {
    Rect {
        x: min_int(a.x as int, b.x as int) as i64,
        y: min_int(a.y as int, b.y as int) as i64,
        width: (max_int(a.x as int, b.x as int) - min_int(a.x as int, b.x as int)) as u64,
        height: (max_int(a.y as int, b.y as int) - min_int(a.y as int, b.y as int)) as u64,
    }
}

/// `rect` relative to an output whose origin is `origin`; the extent is kept.
pub open spec fn rect_to_local_spec(origin: Origin, rect: Rect) -> LocalRect {
    LocalRect {
        x: (rect.x - units(origin.x as int)) as i128,
        y: (rect.y - units(origin.y as int)) as i128,
        width: rect.width,
        height: rect.height,
    }
}

/// Lifts a surface position into the global space.
pub fn to_global(origin: Origin, local: SurfacePos) -> (global: Point)
    ensures
        global == to_global_spec(origin, local),
        global.x == origin.x * 256 + local.x,
        global.y == origin.y * 256 + local.y,
{
    let ox: i64 = origin.x as i64;
    let oy: i64 = origin.y as i64;
    let lx: i64 = local.x as i64;
    let ly: i64 = local.y as i64;
    Point { x: ox * UNITS_PER_PIXEL + lx, y: oy * UNITS_PER_PIXEL + ly }
}

/// Translates a global position into the space of the output at `origin`.
pub fn to_local(origin: Origin, global: Point) -> (local: LocalPoint)
    ensures
        local == to_local_spec(origin, global),
        local.x == global.x - origin.x * 256,
        local.y == global.y - origin.y * 256,
{
    let ox: i128 = origin.x as i128;
    let oy: i128 = origin.y as i128;
    let gx: i128 = global.x as i128;
    let gy: i128 = global.y as i128;
    LocalPoint { x: gx - ox * 256, y: gy - oy * 256 }
}

/// Translates a global rectangle into the space of the output at `origin`.
pub fn rect_to_local(origin: Origin, rect: Rect) -> (local: LocalRect)
    ensures
        local == rect_to_local_spec(origin, rect),
        local.x == rect.x - origin.x * 256,
        local.y == rect.y - origin.y * 256,
        local.width == rect.width,
        local.height == rect.height,
{
    let corner: LocalPoint = to_local(origin, Point { x: rect.x, y: rect.y });
    LocalRect { x: corner.x, y: corner.y, width: rect.width, height: rect.height }
}

/// Distance between two coordinates.
fn span(a: i64, b: i64) -> (d: u64)
    ensures
        d == max_int(a as int, b as int) - min_int(a as int, b as int),
{
    let wide_a: i128 = a as i128;
    let wide_b: i128 = b as i128;
    if a <= b {
        (wide_b - wide_a) as u64
    } else {
        (wide_a - wide_b) as u64
    }
}

/// The selection rectangle between an anchor and the opposite corner.
pub fn get_selection_box(a: Point, b: Point) -> (selection: Rect)
    ensures
        selection == normalize(a, b),
{
    let x: i64 = if a.x <= b.x { a.x } else { b.x };
    let y: i64 = if a.y <= b.y { a.y } else { b.y };
    Rect { x, y, width: span(a.x, b.x), height: span(a.y, b.y) }
}

/// A normalized rectangle runs from the per-axis minimum of its two corner
/// points to their per-axis maximum, and its extent is never negative.
pub proof fn lemma_normalize_corners(a: Point, b: Point)
    ensures
        normalize(a, b).width >= 0,
        normalize(a, b).height >= 0,
        normalize(a, b).x == min_int(a.x as int, b.x as int),
        normalize(a, b).y == min_int(a.y as int, b.y as int),
        normalize(a, b).x + normalize(a, b).width == max_int(a.x as int, b.x as int),
        normalize(a, b).y + normalize(a, b).height == max_int(a.y as int, b.y as int),
{
}

/// The order in which the two corners are given does not matter.
pub proof fn lemma_normalize_symmetric(a: Point, b: Point)
    ensures
        normalize(a, b) == normalize(b, a),
{
}

/// Lifting a surface position into the global space and translating it back
/// with the same origin gives the position again.
pub proof fn lemma_to_global_then_to_local(origin: Origin, local: SurfacePos)
    ensures
        to_local_spec(origin, to_global_spec(origin, local)) == (LocalPoint {
            x: local.x as i128,
            y: local.y as i128,
        }),
{
}

/// Translating a global position into an output's space and lifting it back
/// with the same origin gives the position again, wherever the local position
/// is one that a surface can report.
pub proof fn lemma_to_local_then_to_global(origin: Origin, global: Point, local: SurfacePos)
    requires
        to_local_spec(origin, global) == (LocalPoint { x: local.x as i128, y: local.y as i128 }),
    ensures
        to_global_spec(origin, local) == global,
{
}

/// Two outputs see one global position apart by the distance between their
/// origins.
pub proof fn lemma_local_views_differ_by_origins(first: Origin, second: Origin, global: Point)
    ensures
        to_local_spec(first, global).x - to_local_spec(second, global).x == units(
            second.x - first.x,
        ),
        to_local_spec(first, global).y - to_local_spec(second, global).y == units(
            second.y - first.y,
        ),
{
}

} // verus!
