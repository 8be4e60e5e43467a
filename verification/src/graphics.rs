//! The values that drawing is described with: colours, draw modes, placements, handles of
//! the texts, images and meshes that a backend holds, and shape primitives.

use crate::geometry::Point2;
use crate::geometry::Vector2;
use vstd::prelude::*;

verus! {

/// A colour with eight bits per channel.
#[derive(Clone, Copy, Debug, PartialEq, Eq, Structural)]
pub struct Color {
    pub r: u8,
    pub g: u8,
    pub b: u8,
    pub a: u8,
}

impl Color {
    /// An opaque colour.
    pub fn from_rgb(r: u8, g: u8, b: u8) -> (c: Color)
        ensures
            c == (Color { r, g, b, a: 255 }),
    {
        Color { r, g, b, a: 255 }
    }

    /// White, opaque.
    pub open spec fn spec_white() -> Color {
        Color { r: 255, g: 255, b: 255, a: 255 }
    }

    /// Black, opaque.
    pub open spec fn spec_black() -> Color {
        Color { r: 0, g: 0, b: 0, a: 255 }
    }

    /// White, opaque.
    #[verifier::when_used_as_spec(spec_white)]
    pub fn white() -> (c: Color)
        ensures
            c == Color::spec_white(),
    {
        Color::from_rgb(255, 255, 255)
    }

    /// Black, opaque.
    #[verifier::when_used_as_spec(spec_black)]
    pub fn black() -> (c: Color)
        ensures
            c == Color::spec_black(),
    {
        Color::from_rgb(0, 0, 0)
    }
}

/// Whether a shape is drawn filled or as an outline of a given width.
#[derive(Clone, Copy, Debug, PartialEq, Eq, Structural)]
pub enum DrawMode {
    Fill,
    Stroke { width: u32 },
}

impl DrawMode {
    /// Filled.
    pub fn fill() -> (m: DrawMode)
        ensures
            m == DrawMode::Fill,
    {
        DrawMode::Fill
    }

    /// An outline `width` wide.
    pub fn stroke(width: u32) -> (m: DrawMode)
        ensures
            m == (DrawMode::Stroke { width }),
    {
        DrawMode::Stroke { width }
    }
}

/// How a drawable is placed on the target: where, and scaled by what along each axis.
#[derive(Clone, Copy, Debug, PartialEq, Eq, Structural)]
pub struct DrawParam {
    pub dest: Point2,
    pub scale: Vector2,
}

impl DrawParam {
    /// The identity placement.
    pub open spec fn identity() -> DrawParam {
        DrawParam { dest: Point2 { x: 0, y: 0 }, scale: Vector2 { x: 1, y: 1 } }
    }

    /// The identity placement: at the origin, unscaled.
    pub fn new() -> (p: DrawParam)
        ensures
            p == DrawParam::identity(),
    {
        DrawParam { dest: Point2::origin(), scale: Vector2::new(1, 1) }
    }

    /// The same placement at another destination.
    pub fn dest(self, dest: Point2) -> (p: DrawParam)
        ensures
            p == (DrawParam { dest, scale: self.scale }),
    {
        DrawParam { dest, scale: self.scale }
    }

    /// The same placement with other scale factors.
    pub fn scale(self, scale: Vector2) -> (p: DrawParam)
        ensures
            p == (DrawParam { dest: self.dest, scale }),
    {
        DrawParam { dest: self.dest, scale }
    }
}

/// A text that the backend has laid out: its handle there and its rendered height.
#[derive(Clone, Copy, Debug, PartialEq, Eq, Structural)]
pub struct Text {
    pub handle: u64,
    pub height: u32,
}

/// An image that the backend holds: its handle there and its height.
#[derive(Clone, Copy, Debug, PartialEq, Eq, Structural)]
pub struct Image {
    pub handle: u64,
    pub height: u16,
}

/// A mesh that the backend holds.
#[derive(Clone, Copy, Debug, PartialEq, Eq, Structural)]
pub struct Mesh {
    pub handle: u64,
}

/// Why a shape was not added to a buffer.
#[derive(Clone, Copy, Debug, PartialEq, Eq, Structural)]
pub enum ShapeError {
    /// A line needs two points and a polygon three.
    TooFewPoints,
}

/// Fewest points of a line.
pub const LINE_MIN_POINTS: usize = 2;

/// Fewest points of a polygon.
pub const POLYGON_MIN_POINTS: usize = 3;

/// One shape in a mesh-building buffer, with the colour and mode it was added under.
#[derive(Clone, Debug, PartialEq, Eq)]
pub enum Primitive {
    Circle { mode: DrawMode, center: Vector2, radius: u32, color: Color },
    Line { points: Vec<Vector2>, width: u32, color: Color },
    Polygon { mode: DrawMode, points: Vec<Vector2>, color: Color },
}

/// What a [`Primitive`] is, as a mathematical value.
pub enum PrimitiveView {
    Circle { mode: DrawMode, center: Vector2, radius: u32, color: Color },
    Line { points: Seq<Vector2>, width: u32, color: Color },
    Polygon { mode: DrawMode, points: Seq<Vector2>, color: Color },
}

impl View for Primitive {
    type V = PrimitiveView;

    open spec fn view(&self) -> PrimitiveView {
        match *self {
            Primitive::Circle { mode, center, radius, color } => PrimitiveView::Circle {
                mode,
                center,
                radius,
                color,
            },
            Primitive::Line { points, width, color } => PrimitiveView::Line {
                points: points@,
                width,
                color,
            },
            Primitive::Polygon { mode, points, color } => PrimitiveView::Polygon {
                mode,
                points: points@,
                color,
            },
        }
    }
}

} // verus!
