//! The shape renderer: a scratch accumulator that collects shape primitives into one
//! mesh-building buffer, under a current colour and draw mode, and knows whether anything
//! was added.

use crate::geometry::Vector2;
use crate::geometry::VisibleRect;
use crate::graphics::Color;
use crate::graphics::DrawMode;
use crate::graphics::PrimitiveView;
use crate::graphics::ShapeError;
use crate::mesh::MeshBuilder;
use vstd::prelude::*;

verus! {

/// Accumulates the shapes of one batch.
pub struct ShapeRenderer {
    color: Color,
    mode: DrawMode,
    meshbuilder: MeshBuilder,
    screen_box: VisibleRect,
}

/// What a [`ShapeRenderer`] is, as a mathematical value.
pub struct ShapeRendererView {
    /// The colour that the next primitive gets.
    pub color: Color,
    /// The mode that the next circle or polygon gets.
    pub mode: DrawMode,
    /// The primitives added so far, oldest first.
    pub primitives: Seq<PrimitiveView>,
    /// The region in which shapes are worth drawing.
    pub screen_box: VisibleRect,
}

/// The renderer that a batch starts with: white, filled, nothing added.
pub open spec fn fresh(screen_box: VisibleRect) -> ShapeRendererView {
    ShapeRendererView {
        color: Color::spec_white(),
        mode: DrawMode::Fill,
        primitives: Seq::empty(),
        screen_box,
    }
}

impl View for ShapeRenderer {
    type V = ShapeRendererView;

    closed spec fn view(&self) -> ShapeRendererView {
        ShapeRendererView {
            color: self.color,
            mode: self.mode,
            primitives: self.meshbuilder@,
            screen_box: self.screen_box,
        }
    }
}

impl ShapeRenderer {
    /// A renderer for one batch of shapes in the region `screen_box`.
    pub fn new(screen_box: VisibleRect) -> (sr: ShapeRenderer)
        ensures
            sr@ == fresh(screen_box),
    {
        ShapeRenderer {
            color: Color::white(),
            mode: DrawMode::fill(),
            meshbuilder: MeshBuilder::new(),
            screen_box,
        }
    }

    /// Whether no primitive has been added: true of a new renderer, false from the first
    /// primitive on.
    pub fn is_empty(&self) -> (e: bool)
        ensures
            e == (self@.primitives.len() == 0),
    {
        self.meshbuilder.is_empty()
    }

    /// The colour that the next primitive gets.
    pub fn color(&self) -> (c: Color)
        ensures
            c == self@.color,
    {
        self.color
    }

    /// The mode that the next circle or polygon gets.
    pub fn mode(&self) -> (m: DrawMode)
        ensures
            m == self@.mode,
    {
        self.mode
    }

    /// The region in which shapes are worth drawing.
    pub fn screen_box(&self) -> (b: VisibleRect)
        ensures
            b == self@.screen_box,
    {
        self.screen_box
    }

    /// Sets the colour of the primitives added from now on. Those already added keep theirs.
    pub fn set_color(&mut self, color: Color)
        ensures
            final(self)@ == (ShapeRendererView { color, ..old(self)@ }),
    {
        self.color = color;
    }

    /// Sets the mode of the circles and polygons added from now on. Those already added keep
    /// theirs.
    pub fn set_mode(&mut self, mode: DrawMode)
        ensures
            final(self)@ == (ShapeRendererView { mode, ..old(self)@ }),
    {
        self.mode = mode;
    }

    /// Adds a circle in the current colour and mode.
    pub fn circle(&mut self, center: Vector2, radius: u32)
        ensures
            final(self)@ == (ShapeRendererView {
                primitives: old(self)@.primitives.push(
                    PrimitiveView::Circle {
                        mode: old(self)@.mode,
                        center,
                        radius,
                        color: old(self)@.color,
                    },
                ),
                ..old(self)@
            }),
    {
        self.meshbuilder.circle(self.mode, center, radius, self.color);
    }

    /// Adds a line of connected segments through `points`, `width` wide, in the current
    /// colour. With fewer than two points nothing is added and the renderer stays as it was.
    pub fn line(&mut self, points: Vec<Vector2>, width: u32) -> (r: Result<(), ShapeError>)
        ensures
            points@.len() >= 2 ==> r == Ok::<(), ShapeError>(()),
            points@.len() >= 2 ==> final(self)@ == (ShapeRendererView {
                primitives: old(self)@.primitives.push(
                    PrimitiveView::Line { points: points@, width, color: old(self)@.color },
                ),
                ..old(self)@
            }),
            points@.len() < 2 ==> r == Err::<(), ShapeError>(ShapeError::TooFewPoints),
            points@.len() < 2 ==> final(self)@ == old(self)@,
    {
        self.meshbuilder.line(points, width, self.color)
    }

    /// Adds a closed polygon with the corners `points`, in the current colour and mode. With
    /// fewer than three points nothing is added and the renderer stays as it was.
    pub fn polygon(&mut self, points: Vec<Vector2>) -> (r: Result<(), ShapeError>)
        ensures
            points@.len() >= 3 ==> r == Ok::<(), ShapeError>(()),
            points@.len() >= 3 ==> final(self)@ == (ShapeRendererView {
                primitives: old(self)@.primitives.push(
                    PrimitiveView::Polygon {
                        mode: old(self)@.mode,
                        points: points@,
                        color: old(self)@.color,
                    },
                ),
                ..old(self)@
            }),
            points@.len() < 3 ==> r == Err::<(), ShapeError>(ShapeError::TooFewPoints),
            points@.len() < 3 ==> final(self)@ == old(self)@,
    {
        self.meshbuilder.polygon(self.mode, points, self.color)
    }

    /// Gives up the renderer for its buffer.
    pub fn into_mesh_builder(self) -> (b: MeshBuilder)
        ensures
            b@ == self@.primitives,
    {
        self.meshbuilder
    }
}

} // verus!
