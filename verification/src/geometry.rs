//! Integer geometry of the world grid and of the screen.
//!
//! World-space coordinates are whole grid units held in `i32`. Everything derived from them
//! is held in `i64`, wide enough that no derivation in this crate can overflow: a destination
//! on the screen in whole units, and the rectangle handed to shape drawing in tenths of a
//! unit, so that the scaling by eleven tenths that produces it loses nothing.

use cgmath::EuclideanSpace;
use vstd::prelude::*;

verus! {

/// How many of the parts in which a [`VisibleRect`] is measured make one world unit.
pub const TENTHS: i64 = 10;

/// The factor by which the camera's box is scaled before the margins are added, in tenths:
/// eleven tenths.
pub const SCALE: i64 = 11;

/// Fixed amount, in world units, by which the scaled box is moved towards smaller `x` and
/// `y`.
pub const MARGIN: i64 = 50;

/// Fixed amount, in world units, by which the scaled box grows in width and height.
pub const GROWTH: i64 = 100;

/// A position or displacement in world space.
#[derive(Clone, Copy, Debug, PartialEq, Eq, Structural)]
pub struct Vector2 {
    pub x: i32,
    pub y: i32,
}

/// A destination in screen space.
#[derive(Clone, Copy, Debug, PartialEq, Eq, Structural)]
pub struct Point2 {
    pub x: i64,
    pub y: i64,
}

/// The world-space box that a camera shows: corner `(x, y)`, width `w`, height `h`.
#[derive(Clone, Copy, Debug, PartialEq, Eq, Structural)]
pub struct Rect {
    pub x: i32,
    pub y: i32,
    pub w: i32,
    pub h: i32,
}

/// The region in which shapes are worth drawing: a camera box with its margins added.
///
/// Its coordinates are in tenths of a world unit: the world position `p` has the coordinate
/// `10 * p` here, and the coordinate `c` here lies at `c / 10` world units.
#[derive(Clone, Copy, Debug, PartialEq, Eq, Structural)]
pub struct VisibleRect {
    pub x: i64,
    pub y: i64,
    pub w: i64,
    pub h: i64,
}

/// `v` world units times eleven tenths, in tenths of a unit.
pub open spec fn scaled(v: int) -> int {
    v * SCALE
}

/// The camera box `b` scaled by eleven tenths, then moved by the margin and grown, in tenths
/// of a unit.
pub open spec fn expanded(b: Rect) -> VisibleRect {
    VisibleRect {
        x: (scaled(b.x as int) - MARGIN * TENTHS) as i64,
        y: (scaled(b.y as int) - MARGIN * TENTHS) as i64,
        w: (scaled(b.w as int) + GROWTH * TENTHS) as i64,
        h: (scaled(b.h as int) + GROWTH * TENTHS) as i64,
    }
}

/// `cgmath::EuclideanSpace::from_vec` on `cgmath::Point2`: the point that has the
/// displacement `(x, y)` from the origin, which is the point with those two coordinates.
#[verifier::external_body]
fn point_from_vec(x: i64, y: i64) -> (p: Point2)
    ensures
        p.x == x,
        p.y == y,
{
    let p = cgmath::Point2::from_vec(cgmath::Vector2::new(x, y));
    Point2 { x: p.x, y: p.y }
}

/// `v` world units times eleven tenths, in tenths of a unit.
fn scale_up(v: i32) -> (r: i64)
    ensures
        r == scaled(v as int),
{
    (v as i64) * SCALE
}

impl Vector2 {
    /// The vector with the components `x` and `y`.
    pub fn new(x: i32, y: i32) -> (v: Vector2)
        ensures
            v == (Vector2 { x, y }),
    {
        Vector2 { x, y }
    }

    /// Where to draw something `height` units tall, under a vertical flip, so that it stands
    /// on this world position: the same `x`, and `y` raised by the height.
    pub fn flipped_dest(&self, height: u32) -> (p: Point2)
        ensures
            p.x == self.x,
            p.y == self.y + height,
    {
        let raised: i64 = (self.y as i64) + (height as i64);
        point_from_vec(self.x as i64, raised)
    }
}

impl Point2 {
    /// The point with the coordinates `x` and `y`.
    pub fn new(x: i64, y: i64) -> (p: Point2)
        ensures
            p == (Point2 { x, y }),
    {
        Point2 { x, y }
    }

    /// The origin of screen space.
    pub fn origin() -> (p: Point2)
        ensures
            p == (Point2 { x: 0, y: 0 }),
    {
        Point2 { x: 0, y: 0 }
    }
}

impl Rect {
    /// The box with the corner `(x, y)`, the width `w` and the height `h`.
    pub fn new(x: i32, y: i32, w: i32, h: i32) -> (r: Rect)
        ensures
            r == (Rect { x, y, w, h }),
    {
        Rect { x, y, w, h }
    }

    /// Scales the box by eleven tenths, corner and extents alike, then moves the corner by
    /// 50 units and grows both extents by 100 units. The result is in tenths of a unit and
    /// exact: `(x * 1.1 - 50, y * 1.1 - 50, w * 1.1 + 100, h * 1.1 + 100)` times ten.
    pub fn expand(&self) -> (r: VisibleRect)
        ensures
            r == expanded(*self),
            r.x == 11 * self.x - 500,
            r.y == 11 * self.y - 500,
            r.w == 11 * self.w + 1000,
            r.h == 11 * self.h + 1000,
    {
        VisibleRect {
            x: scale_up(self.x) - MARGIN * TENTHS,
            y: scale_up(self.y) - MARGIN * TENTHS,
            w: scale_up(self.w) + GROWTH * TENTHS,
            h: scale_up(self.h) + GROWTH * TENTHS,
        }
    }
}

/// For every camera box, the expanded box is the box scaled by 1.1 with 50 then taken from the
/// corner and 100 then added to the extents, with nothing rounded: ten times each of
/// `x * 1.1 - 50`, `y * 1.1 - 50`, `w * 1.1 + 100` and `h * 1.1 + 100` is the coordinate held,
/// in tenths of a unit. The offsets come after the scaling and are not scaled themselves.
pub proof fn lemma_expansion_is_exact(b: Rect)
    ensures
        expanded(b).x == 11 * b.x - 10 * 50,
        expanded(b).y == 11 * b.y - 10 * 50,
        expanded(b).w == 11 * b.w + 10 * 100,
        expanded(b).h == 11 * b.h + 10 * 100,
{
}

/// Where the coordinates of the camera box are multiples of ten, the expanded box lies on
/// whole world units: its corner at `x / 10 * 11 - 50` and `y / 10 * 11 - 50`, its extents
/// `w / 10 * 11 + 100` and `h / 10 * 11 + 100`.
pub proof fn lemma_expansion_in_whole_units(b: Rect)
    requires
        b.x % 10 == 0,
        b.y % 10 == 0,
        b.w % 10 == 0,
        b.h % 10 == 0,
    ensures
        expanded(b).x == 10 * (b.x / 10 * 11 - 50),
        expanded(b).y == 10 * (b.y / 10 * 11 - 50),
        expanded(b).w == 10 * (b.w / 10 * 11 + 100),
        expanded(b).h == 10 * (b.h / 10 * 11 + 100),
{
}

} // verus!
