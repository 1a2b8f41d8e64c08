//! The vector shapes a point can be drawn as.

use crate::error::Error;
use crate::geometry::PixelPoint;
use crate::outline::{
    circle_contour, finish_outline, finishes, new_builder, path_segments, push_circle, Segment,
};
use crate::scalar::{Scalar, FOUR};
use vstd::prelude::*;

verus! {

/// A shape, to be placed at a pixel position.
#[derive(Clone, Copy, Debug, PartialEq, Eq, Structural)]
pub enum Shape {
    /// A circle around the position, with its radius in pixels.
    Circle { radius: Scalar },
}

impl Shape {
    /// Whether the shape can be placed at `center` at all: a circle needs a
    /// finite radius above zero and a finite centre.
    pub open spec fn placeable(self, center: PixelPoint) -> bool {
        match self {
            Shape::Circle { radius } => radius.positive() && radius.finite() && center.x.finite()
                && center.y.finite(),
        }
    }

    /// The segments collected for the shape at `center`: none where it
    /// cannot be placed there.
    pub open spec fn contour(self, center: PixelPoint) -> Seq<Segment> {
        if self.placeable(center) {
            match self {
                Shape::Circle { radius } => circle_contour(center, radius),
            }
        } else {
            Seq::<Segment>::empty()
        }
    }

    /// The outline of the shape at `center`, if it has one.
    pub open spec fn outline(self, center: PixelPoint) -> Option<Seq<Segment>> {
        if finishes(self.contour(center)) {
            Some(self.contour(center))
        } else {
            None
        }
    }

    /// The path that outlines the shape with its centre at `(x, y)`.
    ///
    /// Fails with `Error::PathConstruction` where the shape has no outline
    /// there, and only then.
    pub fn to_path(&self, x: Scalar, y: Scalar) -> (out: Result<tiny_skia::Path, Error>)
        ensures
            match self.outline(PixelPoint { x, y }) {
                Some(outline) => out matches Ok(path) && path_segments(path) == outline,
                None => out == Err::<tiny_skia::Path, Error>(Error::PathConstruction),
            },
    {
        let mut builder = new_builder();
        match self {
            Shape::Circle { radius } => {
                if radius.is_positive() && radius.is_finite() && x.is_finite() && y.is_finite() {
                    push_circle(&mut builder, PixelPoint { x, y }, *radius);
                }
            },
        }
        finish_outline(builder)
    }
}

impl Default for Shape {
    /// A circle of four pixels.
    fn default() -> (out: Self)
        ensures
            out == (Shape::Circle { radius: Scalar { bits: FOUR } }),
    {
        Shape::Circle { radius: Scalar { bits: FOUR } }
    }
}

/// A circle whose radius is zero, negative, infinite or a NaN, or whose
/// centre is not finite, has no outline.
pub proof fn degenerate_circle_has_no_outline(radius: Scalar, center: PixelPoint)
    requires
        radius.zero() || radius.negative() || !radius.finite() || !center.x.finite()
            || !center.y.finite(),
    ensures
        (Shape::Circle { radius }).outline(center) is None,
{
}

} // verus!
