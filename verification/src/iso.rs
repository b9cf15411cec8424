//! Isometric cuboid geometry and per-pixel surface classification.
//!
//! A cuboid is described by its `length` (south to east), `width` (south to
//! west), `height` (lower to upper) and an integer slope `ratio` (one vertical
//! pixel step per `ratio` horizontal steps along a silhouette diagonal).
//! From that description the eight projected corner points and the bounding
//! box of the 2D silhouette are derived in closed form, and analytic
//! predicates over integer pixel coordinates decide which surface element
//! (face, edge, corner; visible or hidden) a pixel belongs to.

use vstd::arithmetic::div_mod::lemma_div_is_ordered;
use vstd::prelude::*;

use crate::error::Error;

verus! {

/// A 2D integer coordinate: a geometry anchor or a pixel address.
///
/// Coordinates may be negative during intermediate geometry computation and
/// are non-negative when used as pixel addresses.
#[derive(Clone, Copy, Debug, PartialEq, Eq, Structural)]
pub struct Point {
    pub x: i32,
    pub y: i32,
}

impl Point {
    pub fn new(x: i32, y: i32) -> (p: Point)
        ensures
            p == (Point { x, y }),
    {
        Point { x, y }
    }
}

/// The size/ratio specification a cuboid is built from.
#[derive(Clone, Copy, Debug, PartialEq, Eq, Structural)]
pub struct CuboidSpec {
    pub length: i32,
    pub width: i32,
    pub height: i32,
    pub ratio: i32,
}

/// A cuboid ready for classification: the dimensions copied from its
/// specification, the bounding box of the silhouette, and the eight projected
/// corner points, named by vertical level (lower/upper) and compass corner.
///
/// The south corner faces the camera; `length` runs south to east, `width`
/// south to west, `height` lower to upper.
#[derive(Clone, Copy, Debug, PartialEq, Eq, Structural)]
pub struct Cuboid {
    pub length: i32,
    pub width: i32,
    pub height: i32,
    pub ratio: i32,

    pub texture_size: Point,

    pub lower_south: Point,
    pub lower_east: Point,
    pub lower_west: Point,
    pub lower_north: Point,
    pub upper_south: Point,
    pub upper_east: Point,
    pub upper_west: Point,
    pub upper_north: Point,
}

/// A specification is valid when every dimension is at least 1 and the ratio
/// is at least 1 (the ratio is an integer divisor, so 0 must fail fast).
pub open spec fn spec_valid(s: CuboidSpec) -> bool {
    &&& s.length >= 1
    &&& s.width >= 1
    &&& s.height >= 1
    &&& s.ratio >= 1
}

/// Width of the silhouette bounding box.
pub open spec fn spec_texture_x(s: CuboidSpec) -> int {
    s.width + s.length - 1
}

/// Height of the silhouette bounding box.
pub open spec fn spec_texture_y(s: CuboidSpec) -> int {
    (s.height - 1) + s.length as int / s.ratio as int + s.width as int / s.ratio as int - 1
}

/// The defining equations of a built cuboid: dimensions in range and every
/// anchor point placed by the closed-form projection formulas.
pub open spec fn wf_cuboid(c: Cuboid) -> bool {
    let l = c.length as int;
    let w = c.width as int;
    let h = c.height as int;
    let r = c.ratio as int;
    &&& l >= 1
    &&& w >= 1
    &&& h >= 1
    &&& r >= 1
    &&& c.texture_size.x == w + l - 1
    &&& c.texture_size.y == (h - 1) + l / r + w / r - 1
    &&& c.lower_south.x == w - 1
    &&& c.lower_south.y == c.texture_size.y - 1
    &&& c.lower_east.x == c.lower_south.x + (l - 1)
    &&& c.lower_east.y == c.lower_south.y - (l - 1) / r
    &&& c.lower_west.x == c.lower_south.x - (w - 1)
    &&& c.lower_west.y == c.lower_south.y - (w - 1) / r
    &&& c.lower_north.x == c.lower_east.x - (w - 1)
    &&& c.lower_north.y == c.lower_east.y - (w - 1) / r
    &&& c.upper_south.x == c.lower_south.x
    &&& c.upper_south.y == c.lower_south.y - (h - 1)
    &&& c.upper_east.x == c.lower_east.x
    &&& c.upper_east.y == c.upper_south.y - (l - 1) / r
    &&& c.upper_west.x == c.lower_west.x
    &&& c.upper_west.y == c.upper_south.y - (w - 1) / r
    &&& c.upper_north.x == c.lower_north.x
    &&& c.upper_north.y == c.upper_east.y - (w - 1) / r
}

/// The exact cuboid a valid specification builds: every anchor written out
/// by the projection formulas (integer arithmetic, division truncating
/// toward zero, which for these non-negative numerators is plain division).
pub open spec fn spec_build(s: CuboidSpec) -> Cuboid
    recommends
        spec_valid(s),
        spec_texture_x(s) <= i32::MAX,
        spec_texture_y(s) + 1 <= i32::MAX,
{
    let l = s.length as int;
    let w = s.width as int;
    let h = s.height as int;
    let r = s.ratio as int;
    let tx = w + l - 1;
    let ty = (h - 1) + l / r + w / r - 1;
    let ls_x = w - 1;
    let ls_y = ty - 1;
    let le_x = ls_x + (l - 1);
    let le_y = ls_y - (l - 1) / r;
    let lw_x = ls_x - (w - 1);
    let lw_y = ls_y - (w - 1) / r;
    let ln_x = le_x - (w - 1);
    let ln_y = le_y - (w - 1) / r;
    let us_y = ls_y - (h - 1);
    let ue_y = us_y - (l - 1) / r;
    let uw_y = us_y - (w - 1) / r;
    let un_y = ue_y - (w - 1) / r;
    Cuboid {
        length: s.length,
        width: s.width,
        height: s.height,
        ratio: s.ratio,
        texture_size: Point { x: tx as i32, y: ty as i32 },
        lower_south: Point { x: ls_x as i32, y: ls_y as i32 },
        lower_east: Point { x: le_x as i32, y: le_y as i32 },
        lower_west: Point { x: lw_x as i32, y: lw_y as i32 },
        lower_north: Point { x: ln_x as i32, y: ln_y as i32 },
        upper_south: Point { x: ls_x as i32, y: us_y as i32 },
        upper_east: Point { x: le_x as i32, y: ue_y as i32 },
        upper_west: Point { x: lw_x as i32, y: uw_y as i32 },
        upper_north: Point { x: ln_x as i32, y: un_y as i32 },
    }
}

impl Cuboid {
    /// Build a cuboid from its specification.
    ///
    /// Fails with `InvalidSpec` exactly when a dimension is below 1 or the
    /// ratio is below 1; otherwise the result carries the dimensions of `s`
    /// and anchors satisfying `wf_cuboid`, which pins every field.
    pub fn new(s: CuboidSpec) -> (r: Result<Cuboid, Error>)
        requires
            spec_valid(s) ==> spec_texture_x(s) <= i32::MAX
                && (s.height - 1) + s.length as int / s.ratio as int
                    + s.width as int / s.ratio as int <= i32::MAX,
        ensures
            r is Ok <==> spec_valid(s),
            !spec_valid(s) ==> r == Result::<Cuboid, Error>::Err(Error::InvalidSpec),
            r is Ok ==> {
                let c = r.unwrap();
                &&& wf_cuboid(c)
                &&& c == spec_build(s)
                &&& c.length == s.length
                &&& c.width == s.width
                &&& c.height == s.height
                &&& c.ratio == s.ratio
            },
    {
        if s.length < 1 || s.width < 1 || s.height < 1 || s.ratio < 1 {
            return Err(Error::InvalidSpec);
        }

        proof {
            // The quotients of smaller numerators stay below the quotients
            // that bound the texture height, so no anchor underflows.
            lemma_div_is_ordered(s.length - 1, s.length as int, s.ratio as int);
            lemma_div_is_ordered(s.width - 1, s.width as int, s.ratio as int);
            lemma_div_is_ordered(0, s.length - 1, s.ratio as int);
            lemma_div_is_ordered(0, s.width - 1, s.ratio as int);
            lemma_div_is_ordered(0, s.length as int, s.ratio as int);
            lemma_div_is_ordered(0, s.width as int, s.ratio as int);
        }

        let texture_size = Point {
            x: (s.width - 1) + s.length,
            y: (s.height - 1) + s.length / s.ratio + s.width / s.ratio - 1,
        };
        let lower_south = Point { x: s.width - 1, y: texture_size.y - 1 };
        let lower_east = Point {
            x: lower_south.x + (s.length - 1),
            y: lower_south.y - (s.length - 1) / s.ratio,
        };
        let lower_west = Point {
            x: lower_south.x - (s.width - 1),
            y: lower_south.y - (s.width - 1) / s.ratio,
        };
        let lower_north = Point {
            x: lower_east.x - (s.width - 1),
            y: lower_east.y - (s.width - 1) / s.ratio,
        };
        let upper_south = Point { x: lower_south.x, y: lower_south.y - (s.height - 1) };
        let upper_east = Point { x: lower_east.x, y: upper_south.y - (s.length - 1) / s.ratio };
        let upper_west = Point { x: lower_west.x, y: upper_south.y - (s.width - 1) / s.ratio };
        let upper_north = Point { x: lower_north.x, y: upper_east.y - (s.width - 1) / s.ratio };

        Ok(Cuboid {
            length: s.length,
            width: s.width,
            height: s.height,
            ratio: s.ratio,
            texture_size,
            lower_south,
            lower_east,
            lower_west,
            lower_north,
            upper_south,
            upper_east,
            upper_west,
            upper_north,
        })
    }
}

/// Law: building is deterministic. Two well-formed cuboids with the same
/// dimensions and ratio agree on every anchor and on the bounding box.
pub proof fn lemma_build_deterministic(c1: Cuboid, c2: Cuboid)
    requires
        wf_cuboid(c1),
        wf_cuboid(c2),
        c1.length == c2.length,
        c1.width == c2.width,
        c1.height == c2.height,
        c1.ratio == c2.ratio,
    ensures
        c1 == c2,
{
}

/// Truncating division (toward zero), the semantics of Rust's `/` operator,
/// for a positive divisor.
pub open spec fn div_toward_zero(a: int, b: int) -> int
    recommends
        b >= 1,
{
    if a >= 0 {
        a / b
    } else {
        -((-a) / b)
    }
}

/// `p` lies on the south-east diagonal edge of length `length` starting at
/// `origin`: within the half-open x range and inside the inclusive slope band
/// of width `ratio`.
pub open spec fn spec_line_right(origin: Point, length: int, ratio: int, p: Point) -> bool {
    &&& p.x >= origin.x
    &&& p.x < origin.x + length
    &&& (origin.y - p.y) * ratio <= vstd::math::abs(origin.x - p.x)
    &&& (origin.y - p.y) * ratio >= vstd::math::abs(origin.x - p.x) - (ratio - 1)
}

/// Mirror of `spec_line_right` along the south-west diagonal.
pub open spec fn spec_line_back(origin: Point, width: int, ratio: int, p: Point) -> bool {
    &&& p.x <= origin.x
    &&& p.x > origin.x - width
    &&& (origin.y - p.y) * ratio <= vstd::math::abs(origin.x - p.x)
    &&& (origin.y - p.y) * ratio >= vstd::math::abs(origin.x - p.x) - (ratio - 1)
}

/// `p` lies on the vertical edge of height `height` ending at `origin`.
pub open spec fn spec_line_up(origin: Point, height: int, p: Point) -> bool {
    &&& p.x == origin.x
    &&& p.y > origin.y - height
    &&& p.y <= origin.y
}

/// `p` is strictly inside the south-east face of height `height` anchored at
/// `origin`: strictly between the two bounding diagonals and strictly inside
/// the x span.
pub open spec fn spec_block_front(
    origin: Point,
    length: int,
    height: int,
    ratio: int,
    p: Point,
) -> bool {
    &&& p.x > origin.x
    &&& p.x < origin.x + (length - 1)
    &&& (origin.y - p.y) * ratio > vstd::math::abs(origin.x - p.x)
    &&& ((origin.y - (height - 1)) - p.y) * ratio < vstd::math::abs(origin.x - p.x) - (ratio - 1)
}

/// Mirror of `spec_block_front` along the south-west diagonal.
pub open spec fn spec_block_side(
    origin: Point,
    width: int,
    height: int,
    ratio: int,
    p: Point,
) -> bool {
    &&& p.x < origin.x
    &&& p.x > origin.x - (width - 1)
    &&& (origin.y - p.y) * ratio > vstd::math::abs(origin.x - p.x)
    &&& ((origin.y - (height - 1)) - p.y) * ratio < vstd::math::abs(origin.x - p.x) - (ratio - 1)
}

/// `p` is strictly inside the rhombus of a top or bottom face whose south
/// corner is `origin`: strictly above the diagonals from `origin` and
/// strictly below the diagonals from the opposite (north) corner.
pub open spec fn spec_block_top(
    origin: Point,
    length: int,
    width: int,
    ratio: int,
    p: Point,
) -> bool
    recommends
        ratio >= 1,
{
    let opposite_x = origin.x + (length - 1) - (width - 1);
    let opposite_y = origin.y - div_toward_zero(length - 1, ratio) - div_toward_zero(
        width - 1,
        ratio,
    );
    &&& (origin.y - p.y) * ratio > vstd::math::abs(origin.x - p.x)
    &&& (p.y - opposite_y) * ratio > vstd::math::abs(p.x - opposite_x)
}

/// Products of values this far inside the 128-bit range cannot overflow.
proof fn lemma_mul_fits(a: int, b: int)
    requires
        -0x100_0000_0000 < a < 0x100_0000_0000,
        -0x100_0000_0000 < b < 0x100_0000_0000,
    ensures
        -0x8000_0000_0000_0000_0000_0000_0000_0000 < a * b
            < 0x8000_0000_0000_0000_0000_0000_0000_0000,
{
    assert(-0x8000_0000_0000_0000_0000_0000_0000_0000 < a * b
        < 0x8000_0000_0000_0000_0000_0000_0000_0000) by (nonlinear_arith)
        requires
            -0x100_0000_0000 < a < 0x100_0000_0000,
            -0x100_0000_0000 < b < 0x100_0000_0000,
    ;
}

/// Truncating division on small values, carried out on the unsigned range.
fn div_trunc(num: i64, den: i64) -> (q: i64)
    requires
        1 <= den,
        -0x1_0000_0000_0000 < num < 0x1_0000_0000_0000,
    ensures
        q == div_toward_zero(num as int, den as int),
        -0x1_0000_0000_0000 < q < 0x1_0000_0000_0000,
{
    if num >= 0 {
        ((num as u64) / (den as u64)) as i64
    } else {
        -((((-num) as u64) / (den as u64)) as i64)
    }
}

/// Pixel test for a south-east diagonal edge of length `length` at `origin`.
pub fn line_right(origin: &Point, length: i32, ratio: i32, p: &Point) -> (r: bool)
    ensures
        r == spec_line_right(*origin, length as int, ratio as int, *p),
{
    let ox: i128 = origin.x as i128;
    let oy: i128 = origin.y as i128;
    let px: i128 = p.x as i128;
    let py: i128 = p.y as i128;
    let dx: i128 = ox - px;
    let adx: i128 = if dx >= 0 { dx } else { -dx };
    proof {
        lemma_mul_fits(oy - py, ratio as int);
    }
    let lhs: i128 = (oy - py) * (ratio as i128);
    px >= ox && px < ox + length as i128 && lhs <= adx && lhs >= adx - (ratio as i128 - 1)
}

/// Pixel test for a south-west diagonal edge of width `width` at `origin`.
pub fn line_back(origin: &Point, width: i32, ratio: i32, p: &Point) -> (r: bool)
    ensures
        r == spec_line_back(*origin, width as int, ratio as int, *p),
{
    let ox: i128 = origin.x as i128;
    let oy: i128 = origin.y as i128;
    let px: i128 = p.x as i128;
    let py: i128 = p.y as i128;
    let dx: i128 = ox - px;
    let adx: i128 = if dx >= 0 { dx } else { -dx };
    proof {
        lemma_mul_fits(oy - py, ratio as int);
    }
    let lhs: i128 = (oy - py) * (ratio as i128);
    px <= ox && px > ox - width as i128 && lhs <= adx && lhs >= adx - (ratio as i128 - 1)
}

/// Pixel test for a vertical edge of height `height` ending at `origin`.
pub fn line_up(origin: &Point, height: i32, p: &Point) -> (r: bool)
    ensures
        r == spec_line_up(*origin, height as int, *p),
{
    let oy: i128 = origin.y as i128;
    let py: i128 = p.y as i128;
    p.x == origin.x && py > oy - height as i128 && py <= oy
}

/// Pixel test for the interior of a south-east face.
pub fn block_front(origin: &Point, length: i32, height: i32, ratio: i32, p: &Point) -> (r: bool)
    ensures
        r == spec_block_front(*origin, length as int, height as int, ratio as int, *p),
{
    let ox: i128 = origin.x as i128;
    let oy: i128 = origin.y as i128;
    let px: i128 = p.x as i128;
    let py: i128 = p.y as i128;
    let dx: i128 = ox - px;
    let adx: i128 = if dx >= 0 { dx } else { -dx };
    proof {
        lemma_mul_fits(oy - py, ratio as int);
        lemma_mul_fits((oy - (height as int - 1)) - py, ratio as int);
    }
    let lhs: i128 = (oy - py) * (ratio as i128);
    let lhs_raised: i128 = ((oy - (height as i128 - 1)) - py) * (ratio as i128);
    px > ox && px < ox + (length as i128 - 1) && lhs > adx && lhs_raised < adx - (ratio as i128
        - 1)
}

/// Pixel test for the interior of a south-west face.
pub fn block_side(origin: &Point, width: i32, height: i32, ratio: i32, p: &Point) -> (r: bool)
    ensures
        r == spec_block_side(*origin, width as int, height as int, ratio as int, *p),
{
    let ox: i128 = origin.x as i128;
    let oy: i128 = origin.y as i128;
    let px: i128 = p.x as i128;
    let py: i128 = p.y as i128;
    let dx: i128 = ox - px;
    let adx: i128 = if dx >= 0 { dx } else { -dx };
    proof {
        lemma_mul_fits(oy - py, ratio as int);
        lemma_mul_fits((oy - (height as int - 1)) - py, ratio as int);
    }
    let lhs: i128 = (oy - py) * (ratio as i128);
    let lhs_raised: i128 = ((oy - (height as i128 - 1)) - py) * (ratio as i128);
    px < ox && px > ox - (width as i128 - 1) && lhs > adx && lhs_raised < adx - (ratio as i128
        - 1)
}

/// Pixel test for the interior of a top or bottom rhombus face.
pub fn block_top(origin: &Point, length: i32, width: i32, ratio: i32, p: &Point) -> (r: bool)
    requires
        ratio >= 1,
    ensures
        r == spec_block_top(*origin, length as int, width as int, ratio as int, *p),
{
    let q_length: i64 = div_trunc(length as i64 - 1, ratio as i64);
    let q_width: i64 = div_trunc(width as i64 - 1, ratio as i64);
    let opposite_x: i128 = origin.x as i128 + (length as i128 - 1) - (width as i128 - 1);
    let opposite_y: i128 = origin.y as i128 - q_length as i128 - q_width as i128;
    let ox: i128 = origin.x as i128;
    let oy: i128 = origin.y as i128;
    let px: i128 = p.x as i128;
    let py: i128 = p.y as i128;
    let dx: i128 = ox - px;
    let adx: i128 = if dx >= 0 { dx } else { -dx };
    let dox: i128 = px - opposite_x;
    let adox: i128 = if dox >= 0 { dox } else { -dox };
    proof {
        lemma_mul_fits(oy - py, ratio as int);
        lemma_mul_fits(py - opposite_y as int, ratio as int);
    }
    let lhs: i128 = (oy - py) * (ratio as i128);
    let lhs_opposite: i128 = (py - opposite_y) * (ratio as i128);
    lhs > adx && lhs_opposite > adox
}

/// `p` is one of the seven corner points facing the camera.
pub open spec fn spec_corners_visible(c: Cuboid, p: Point) -> bool {
    ||| p == c.lower_south
    ||| p == c.lower_east
    ||| p == c.lower_west
    ||| p == c.upper_south
    ||| p == c.upper_east
    ||| p == c.upper_west
    ||| p == c.upper_north
}

/// `p` is the one occluded corner point.
pub open spec fn spec_corners_hidden(c: Cuboid, p: Point) -> bool {
    p == c.lower_north
}

pub open spec fn spec_corners(c: Cuboid, p: Point) -> bool {
    spec_corners_visible(c, p) || spec_corners_hidden(c, p)
}

/// `p` lies on one of the six visible edges (three diagonal pairs and three
/// vertical edges).
pub open spec fn spec_edges_visible(c: Cuboid, p: Point) -> bool {
    ||| spec_line_right(c.lower_south, c.length as int, c.ratio as int, p)
    ||| spec_line_right(c.upper_south, c.length as int, c.ratio as int, p)
    ||| spec_line_right(c.upper_west, c.length as int, c.ratio as int, p)
    ||| spec_line_back(c.lower_south, c.width as int, c.ratio as int, p)
    ||| spec_line_back(c.upper_east, c.width as int, c.ratio as int, p)
    ||| spec_line_back(c.upper_south, c.width as int, c.ratio as int, p)
    ||| spec_line_up(c.lower_south, c.height as int, p)
    ||| spec_line_up(c.lower_east, c.height as int, p)
    ||| spec_line_up(c.lower_west, c.height as int, p)
}

/// `p` lies on one of the three occluded edges.
pub open spec fn spec_edges_hidden(c: Cuboid, p: Point) -> bool {
    ||| spec_line_right(c.lower_west, c.length as int, c.ratio as int, p)
    ||| spec_line_back(c.lower_east, c.width as int, c.ratio as int, p)
    ||| spec_line_up(c.lower_north, c.height as int, p)
}

pub open spec fn spec_edges(c: Cuboid, p: Point) -> bool {
    spec_edges_visible(c, p) || spec_edges_hidden(c, p)
}

pub open spec fn spec_face_front(c: Cuboid, p: Point) -> bool {
    spec_block_front(c.lower_south, c.length as int, c.height as int, c.ratio as int, p)
}

pub open spec fn spec_face_side(c: Cuboid, p: Point) -> bool {
    spec_block_side(c.lower_south, c.width as int, c.height as int, c.ratio as int, p)
}

pub open spec fn spec_face_top(c: Cuboid, p: Point) -> bool {
    spec_block_top(c.upper_south, c.length as int, c.width as int, c.ratio as int, p)
}

pub open spec fn spec_face_back(c: Cuboid, p: Point) -> bool {
    spec_block_front(c.lower_west, c.length as int, c.height as int, c.ratio as int, p)
}

pub open spec fn spec_face_far_side(c: Cuboid, p: Point) -> bool {
    spec_block_side(c.lower_east, c.width as int, c.height as int, c.ratio as int, p)
}

pub open spec fn spec_face_bottom(c: Cuboid, p: Point) -> bool {
    spec_block_top(c.lower_south, c.length as int, c.width as int, c.ratio as int, p)
}

pub open spec fn spec_faces_visible(c: Cuboid, p: Point) -> bool {
    spec_face_front(c, p) || spec_face_side(c, p) || spec_face_top(c, p)
}

pub open spec fn spec_faces_hidden(c: Cuboid, p: Point) -> bool {
    spec_face_back(c, p) || spec_face_far_side(c, p) || spec_face_bottom(c, p)
}

pub open spec fn spec_faces(c: Cuboid, p: Point) -> bool {
    spec_faces_visible(c, p) || spec_faces_hidden(c, p)
}

/// `p` is one of the seven visible corner points of `c`.
pub fn corners_visible(c: &Cuboid, p: &Point) -> (r: bool)
    ensures
        r == spec_corners_visible(*c, *p),
{
    *p == c.lower_south || *p == c.lower_east || *p == c.lower_west || *p == c.upper_south || *p
        == c.upper_east || *p == c.upper_west || *p == c.upper_north
}

/// `p` is the one hidden corner point of `c`.
pub fn corners_hidden(c: &Cuboid, p: &Point) -> (r: bool)
    ensures
        r == spec_corners_hidden(*c, *p),
{
    *p == c.lower_north
}

/// `p` is any corner point of `c`.
pub fn corners(c: &Cuboid, p: &Point) -> (r: bool)
    ensures
        r == spec_corners(*c, *p),
{
    corners_visible(c, p) || corners_hidden(c, p)
}

/// `p` lies on a visible edge of `c`.
pub fn edges_visible(c: &Cuboid, p: &Point) -> (r: bool)
    ensures
        r == spec_edges_visible(*c, *p),
{
    line_right(&c.lower_south, c.length, c.ratio, p) || line_right(&c.upper_south, c.length, c.ratio, p)
        || line_right(&c.upper_west, c.length, c.ratio, p)
        || line_back(&c.lower_south, c.width, c.ratio, p)
        || line_back(&c.upper_east, c.width, c.ratio, p)
        || line_back(&c.upper_south, c.width, c.ratio, p)
        || line_up(&c.lower_south, c.height, p)
        || line_up(&c.lower_east, c.height, p)
        || line_up(&c.lower_west, c.height, p)
}

/// `p` lies on a hidden edge of `c`.
pub fn edges_hidden(c: &Cuboid, p: &Point) -> (r: bool)
    ensures
        r == spec_edges_hidden(*c, *p),
{
    line_right(&c.lower_west, c.length, c.ratio, p) || line_back(&c.lower_east, c.width, c.ratio, p)
        || line_up(&c.lower_north, c.height, p)
}

/// `p` lies on any edge of `c`.
pub fn edges(c: &Cuboid, p: &Point) -> (r: bool)
    ensures
        r == spec_edges(*c, *p),
{
    edges_visible(c, p) || edges_hidden(c, p)
}

/// `p` is inside the visible south-east face.
pub fn face_front(c: &Cuboid, p: &Point) -> (r: bool)
    ensures
        r == spec_face_front(*c, *p),
{
    block_front(&c.lower_south, c.length, c.height, c.ratio, p)
}

/// `p` is inside the visible south-west face.
pub fn face_side(c: &Cuboid, p: &Point) -> (r: bool)
    ensures
        r == spec_face_side(*c, *p),
{
    block_side(&c.lower_south, c.width, c.height, c.ratio, p)
}

/// `p` is inside the visible top face.
pub fn face_top(c: &Cuboid, p: &Point) -> (r: bool)
    requires
        c.ratio >= 1,
    ensures
        r == spec_face_top(*c, *p),
{
    block_top(&c.upper_south, c.length, c.width, c.ratio, p)
}

/// `p` is inside the hidden north-west face.
pub fn face_back(c: &Cuboid, p: &Point) -> (r: bool)
    ensures
        r == spec_face_back(*c, *p),
{
    block_front(&c.lower_west, c.length, c.height, c.ratio, p)
}

/// `p` is inside the hidden north-east face.
pub fn face_far_side(c: &Cuboid, p: &Point) -> (r: bool)
    ensures
        r == spec_face_far_side(*c, *p),
{
    block_side(&c.lower_east, c.width, c.height, c.ratio, p)
}

/// `p` is inside the hidden bottom face.
pub fn face_bottom(c: &Cuboid, p: &Point) -> (r: bool)
    requires
        c.ratio >= 1,
    ensures
        r == spec_face_bottom(*c, *p),
{
    block_top(&c.lower_south, c.length, c.width, c.ratio, p)
}

/// `p` is inside one of the three faces facing the camera.
pub fn faces_visible(c: &Cuboid, p: &Point) -> (r: bool)
    requires
        c.ratio >= 1,
    ensures
        r == spec_faces_visible(*c, *p),
{
    face_front(c, p) || face_side(c, p) || face_top(c, p)
}

/// `p` is inside one of the three occluded faces.
pub fn faces_hidden(c: &Cuboid, p: &Point) -> (r: bool)
    requires
        c.ratio >= 1,
    ensures
        r == spec_faces_hidden(*c, *p),
{
    face_back(c, p) || face_far_side(c, p) || face_bottom(c, p)
}

/// `p` is inside any face of `c`.
pub fn faces(c: &Cuboid, p: &Point) -> (r: bool)
    requires
        c.ratio >= 1,
    ensures
        r == spec_faces(*c, *p),
{
    faces_visible(c, p) || faces_hidden(c, p)
}

/// The surface category a pixel is assigned under the documented priority:
/// faces are tested before edges, edges before corners, and a pixel matching
/// none of them is background.
#[derive(Clone, Copy, Debug, PartialEq, Eq, Structural)]
pub enum SurfaceKind {
    Face,
    Edge,
    Corner,
    Background,
}

/// The unique category of `p` under the visible-surface priority order.
pub open spec fn spec_classify_visible(c: Cuboid, p: Point) -> SurfaceKind {
    if spec_faces_visible(c, p) {
        SurfaceKind::Face
    } else if spec_edges_visible(c, p) {
        SurfaceKind::Edge
    } else if spec_corners_visible(c, p) {
        SurfaceKind::Corner
    } else {
        SurfaceKind::Background
    }
}

/// Classify a pixel against the visible surfaces of `c`, testing faces before
/// edges before corners, so that every pixel gets exactly one category even
/// where the regions touch.
pub fn classify_visible(c: &Cuboid, p: &Point) -> (k: SurfaceKind)
    requires
        c.ratio >= 1,
    ensures
        k == spec_classify_visible(*c, *p),
{
    if faces_visible(c, p) {
        SurfaceKind::Face
    } else if edges_visible(c, p) {
        SurfaceKind::Edge
    } else if corners_visible(c, p) {
        SurfaceKind::Corner
    } else {
        SurfaceKind::Background
    }
}

/// Law: the three visible faces are pairwise disjoint. Within the face tier
/// of the priority order no pixel lies inside two faces at once.
pub proof fn lemma_visible_faces_disjoint(c: Cuboid, p: Point)
    requires
        wf_cuboid(c),
    ensures
        !(spec_face_front(c, p) && spec_face_side(c, p)),
        !(spec_face_front(c, p) && spec_face_top(c, p)),
        !(spec_face_side(c, p) && spec_face_top(c, p)),
{
    let r = c.ratio as int;
    // The raised diagonal of the two side faces is the diagonal through the
    // upper south corner, which bounds the top face from below.
    assert((c.lower_south.y - (c.height - 1)) - p.y == c.upper_south.y - p.y);
    if spec_face_front(c, p) && spec_face_top(c, p) {
        assert((c.upper_south.y - p.y) * r < vstd::math::abs(c.lower_south.x - p.x) - (r - 1));
        assert((c.upper_south.y - p.y) * r > vstd::math::abs(c.upper_south.x - p.x));
        assert(false);
    }
    if spec_face_side(c, p) && spec_face_top(c, p) {
        assert((c.upper_south.y - p.y) * r < vstd::math::abs(c.lower_south.x - p.x) - (r - 1));
        assert((c.upper_south.y - p.y) * r > vstd::math::abs(c.upper_south.x - p.x));
        assert(false);
    }
}

/// Law: bounding-box validity. For every valid specification the box is at
/// least one pixel wide, and it is at least one pixel tall exactly when the
/// height and the two diagonal runs add up to three or more rows.
pub proof fn lemma_bounding_validity(s: CuboidSpec)
    requires
        spec_valid(s),
    ensures
        spec_texture_x(s) >= 1,
        spec_texture_y(s) >= 1 <==> s.height + s.length as int / s.ratio as int
            + s.width as int / s.ratio as int >= 3,
{
}

} // verus!
