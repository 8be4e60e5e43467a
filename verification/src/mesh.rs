//! The mesh-building buffer: shape primitives collected in the order they were added, to be
//! turned into one mesh by the backend.

use crate::geometry::Vector2;
use crate::graphics::Color;
use crate::graphics::DrawMode;
use crate::graphics::Primitive;
use crate::graphics::PrimitiveView;
use crate::graphics::ShapeError;
use crate::graphics::LINE_MIN_POINTS;
use crate::graphics::POLYGON_MIN_POINTS;
use vstd::prelude::*;

verus! {

/// A buffer of shape primitives. Its view is the sequence of the primitives added so far.
#[derive(Clone, Debug, PartialEq, Eq)]
pub struct MeshBuilder {
    primitives: Vec<Primitive>,
}

impl View for MeshBuilder {
    type V = Seq<PrimitiveView>;

    closed spec fn view(&self) -> Seq<PrimitiveView> {
        self.primitives@.map_values(|p: Primitive| p@)
    }
}

impl MeshBuilder {
    /// An empty buffer.
    pub fn new() -> (b: MeshBuilder)
        ensures
            b@ == Seq::<PrimitiveView>::empty(),
    {
        let b = MeshBuilder { primitives: Vec::new() };
        b
    }

    /// How many primitives the buffer holds.
    pub fn len(&self) -> (n: usize)
        ensures
            n == self@.len(),
    {
        self.primitives.len()
    }

    /// Whether nothing has been added.
    pub fn is_empty(&self) -> (e: bool)
        ensures
            e == (self@.len() == 0),
    {
        self.primitives.len() == 0
    }

    /// The primitive that was added after `i` others, if there is one.
    pub fn get(&self, i: usize) -> (p: Option<&Primitive>)
        ensures
            i < self@.len() ==> p is Some && p->0@ == self@[i as int],
            i >= self@.len() ==> p is None,
    {
        if i < self.primitives.len() {
            Some(&self.primitives[i])
        } else {
            None
        }
    }

    fn add(&mut self, p: Primitive)
        ensures
            final(self)@ == old(self)@.push(p@),
    {
        self.primitives.push(p);
    }

    /// Adds a circle. Every centre and radius is accepted.
    pub fn circle(&mut self, mode: DrawMode, center: Vector2, radius: u32, color: Color)
        ensures
            final(self)@ == old(self)@.push(
                PrimitiveView::Circle { mode, center, radius, color },
            ),
    {
        self.add(Primitive::Circle { mode, center, radius, color });
    }

    /// Adds a line of connected segments through `points`, `width` wide. With fewer than two
    /// points nothing is added and the buffer stays as it was.
    pub fn line(&mut self, points: Vec<Vector2>, width: u32, color: Color) -> (r: Result<
        (),
        ShapeError,
    >)
        ensures
            points@.len() >= 2 ==> r == Ok::<(), ShapeError>(()),
            points@.len() >= 2 ==> final(self)@ == old(self)@.push(
                PrimitiveView::Line { points: points@, width, color },
            ),
            points@.len() < 2 ==> r == Err::<(), ShapeError>(ShapeError::TooFewPoints),
            points@.len() < 2 ==> final(self)@ == old(self)@,
    {
        if points.len() < LINE_MIN_POINTS {
            return Err(ShapeError::TooFewPoints);
        }
        self.add(Primitive::Line { points, width, color });
        Ok(())
    }

    /// Adds a closed polygon with the corners `points`. With fewer than three points nothing
    /// is added and the buffer stays as it was.
    pub fn polygon(&mut self, mode: DrawMode, points: Vec<Vector2>, color: Color) -> (r: Result<
        (),
        ShapeError,
    >)
        ensures
            points@.len() >= 3 ==> r == Ok::<(), ShapeError>(()),
            points@.len() >= 3 ==> final(self)@ == old(self)@.push(
                PrimitiveView::Polygon { mode, points: points@, color },
            ),
            points@.len() < 3 ==> r == Err::<(), ShapeError>(ShapeError::TooFewPoints),
            points@.len() < 3 ==> final(self)@ == old(self)@,
    {
        if points.len() < POLYGON_MIN_POINTS {
            return Err(ShapeError::TooFewPoints);
        }
        self.add(Primitive::Polygon { mode, points, color });
        Ok(())
    }
}

} // verus!
