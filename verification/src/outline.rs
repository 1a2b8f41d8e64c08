//! Outlines: the paths that are filled and stroked.
//!
//! The rasterizer's path builder is used as it is. What it holds is
//! described here as a sequence of segments; the functions that walk a
//! geometry's positions are verified against that description.
//!
//! The functions marked `external_body` are the calls into the builder.
//! Their contracts are taken from its source and are not proved. Each hands
//! the builder the numbers that the bit patterns stand for.

use crate::error::Error;
use crate::geometry::PixelPoint;
use crate::scalar::Scalar;
use vstd::prelude::*;

verus! {

/// One step of an outline.
#[derive(Clone, Copy, Debug, PartialEq, Eq, Structural)]
pub enum Segment {
    /// Starts a contour at a position.
    MoveTo(PixelPoint),
    /// A straight line from the last position.
    LineTo(PixelPoint),
    /// A quadratic curve from the last position: control point, end.
    QuadTo(PixelPoint, PixelPoint),
    /// A cubic curve from the last position: two control points, end.
    CubicTo(PixelPoint, PixelPoint, PixelPoint),
    /// Joins the last position to the start of its contour.
    Close,
}

#[verifier::external_type_specification]
#[verifier::external_body]
pub struct ExPath(tiny_skia::Path);

#[verifier::external_type_specification]
#[verifier::external_body]
pub struct ExPathBuilder(tiny_skia::PathBuilder);

/// The segments of a finished path, in order.
pub uninterp spec fn path_segments(path: tiny_skia::Path) -> Seq<Segment>;

/// The segments that a path builder has collected, in order.
pub uninterp spec fn builder_segments(builder: tiny_skia::PathBuilder) -> Seq<Segment>;

/// Whether the builder's last contour is open, so that the next line
/// continues it and needs no new start.
pub uninterp spec fn builder_open(builder: tiny_skia::PathBuilder) -> bool;

/// The closed contour that the rasterizer approximates a circle with, or no
/// segment at all where it takes the circle for invalid.
pub uninterp spec fn circle_contour(center: PixelPoint, radius: Scalar) -> Seq<Segment>;

/// Whether the rasterizer can give the positions of these segments a
/// bounding rectangle: a path is finished only from such segments.
pub uninterp spec fn bounded(segments: Seq<Segment>) -> bool;

/// Whether a builder holding `segments` finishes into a path.
pub open spec fn finishes(segments: Seq<Segment>) -> bool {
    segments.len() > 1 && bounded(segments)
}

/// Whether a new contour can be started after `segments` without changing
/// any of them: a start that follows a start replaces it.
pub open spec fn settled(segments: Seq<Segment>) -> bool {
    segments.len() > 0 ==> !(segments.last() is MoveTo)
}

/// `tiny_skia::PathBuilder::new`: a builder without segments, whose first
/// line would need a start.
#[verifier::external_body]
pub(crate) fn new_builder() -> (out: tiny_skia::PathBuilder)
    ensures
        builder_segments(out) == Seq::<Segment>::empty(),
        !builder_open(out),
{
    tiny_skia::PathBuilder::new()
}

/// `tiny_skia::PathBuilder::move_to`: starts a contour at `to`, which is
/// then open. A start that directly follows another start only takes its
/// place.
#[verifier::external_body]
pub(crate) fn move_to(builder: &mut tiny_skia::PathBuilder, to: PixelPoint)
    ensures
        builder_open(*final(builder)) == (settled(builder_segments(*old(builder)))
            || builder_open(*old(builder))),
        builder_segments(*final(builder)) == if settled(builder_segments(*old(builder))) {
            builder_segments(*old(builder)).push(Segment::MoveTo(to))
        } else {
            builder_segments(*old(builder)).drop_last().push(Segment::MoveTo(to))
        },
{
    builder.move_to(bytemuck::cast(to.x.bits), bytemuck::cast(to.y.bits));
}

/// `tiny_skia::PathBuilder::line_to` on an open contour: appends a line to
/// `to`. (On a builder that is not open the call would first insert a start.)
#[verifier::external_body]
pub(crate) fn line_to(builder: &mut tiny_skia::PathBuilder, to: PixelPoint)
    requires
        builder_open(*old(builder)),
    ensures
        builder_open(*final(builder)),
        builder_segments(*final(builder)) == builder_segments(*old(builder)).push(
            Segment::LineTo(to),
        ),
{
    builder.line_to(bytemuck::cast(to.x.bits), bytemuck::cast(to.y.bits));
}

/// `tiny_skia::PathBuilder::close`: ends the contour. A close is appended
/// unless the builder is empty or already ends in one.
#[verifier::external_body]
pub(crate) fn close(builder: &mut tiny_skia::PathBuilder)
    ensures
        !builder_open(*final(builder)),
        builder_segments(*final(builder)) == if builder_segments(*old(builder)).len() > 0
            && builder_segments(*old(builder)).last() != Segment::Close {
            builder_segments(*old(builder)).push(Segment::Close)
        } else {
            builder_segments(*old(builder))
        },
{
    builder.close();
}

/// `tiny_skia::PathBuilder::push_circle` on an empty builder: the builder
/// then holds the circle's contour, which is closed, or still nothing.
#[verifier::external_body]
pub(crate) fn push_circle(builder: &mut tiny_skia::PathBuilder, center: PixelPoint, radius: Scalar)
    requires
        builder_segments(*old(builder)).len() == 0,
        !builder_open(*old(builder)),
    ensures
        !builder_open(*final(builder)),
        builder_segments(*final(builder)) == circle_contour(center, radius),
{
    builder.push_circle(
        bytemuck::cast(center.x.bits),
        bytemuck::cast(center.y.bits),
        bytemuck::cast(radius.bits),
    );
}

/// `tiny_skia::PathBuilder::finish`: a path of the builder's segments, where
/// there are at least two of them and their positions can be bounded.
#[verifier::external_body]
pub(crate) fn finish(builder: tiny_skia::PathBuilder) -> (out: Option<tiny_skia::Path>)
    ensures
        out.is_some() == (builder_segments(builder).len() > 1 && bounded(
            builder_segments(builder),
        )),
        out matches Some(path) ==> path_segments(path) == builder_segments(builder),
{
    builder.finish()
}

/// The open contour through `points`: a start at the first, then a line to
/// each of the others.
pub open spec fn polyline(points: Seq<PixelPoint>) -> Seq<Segment> {
    Seq::new(
        points.len(),
        |i: int|
            if i == 0 {
                Segment::MoveTo(points[i])
            } else {
                Segment::LineTo(points[i])
            },
    )
}

/// The closed contour through `points`; nothing for no points.
pub open spec fn ring(points: Seq<PixelPoint>) -> Seq<Segment> {
    if points.len() == 0 {
        Seq::<Segment>::empty()
    } else {
        polyline(points).push(Segment::Close)
    }
}

/// The contours of `rings`, one after the other.
pub open spec fn rings(rings: Seq<Seq<PixelPoint>>) -> Seq<Segment>
    decreases rings.len(),
{
    if rings.len() == 0 {
        Seq::<Segment>::empty()
    } else {
        self::rings(rings.drop_last()) + ring(rings.last())
    }
}

/// Appends the open contour through `points` to the builder.
pub(crate) fn push_polyline(builder: &mut tiny_skia::PathBuilder, points: &Vec<PixelPoint>)
    requires
        settled(builder_segments(*old(builder))),
    ensures
        builder_segments(*final(builder)) == builder_segments(*old(builder)) + polyline(points@),
        builder_open(*final(builder)) == (points.len() > 0 || builder_open(*old(builder))),
{
    let ghost start = builder_segments(*builder);
    let mut index: usize = 0;
    while index < points.len()
        invariant
            index <= points.len(),
            settled(start),
            start == builder_segments(*old(builder)),
            builder_segments(*builder) == start + polyline(points@.take(index as int)),
            builder_open(*builder) == (index > 0 || builder_open(*old(builder))),
        decreases points.len() - index,
    {
        let ghost done = builder_segments(*builder);
        if index == 0 {
            assert(polyline(points@.take(0)) =~= Seq::<Segment>::empty());
            assert(done =~= start);
            move_to(builder, points[index]);
        } else {
            line_to(builder, points[index]);
        }
        assert(builder_segments(*builder) =~= start + polyline(points@.take(index + 1)));
        index = index + 1;
    }
    assert(points@.take(index as int) =~= points@);
}

/// Appends the closed contour through `points` to the builder.
pub(crate) fn push_ring(builder: &mut tiny_skia::PathBuilder, points: &Vec<PixelPoint>)
    requires
        settled(builder_segments(*old(builder))),
    ensures
        builder_segments(*final(builder)) == builder_segments(*old(builder)) + ring(points@),
        settled(builder_segments(*final(builder))),
        points.len() > 0 ==> !builder_open(*final(builder)),
        points.len() == 0 ==> builder_open(*final(builder)) == builder_open(*old(builder)),
{
    if points.len() > 0 {
        push_polyline(builder, points);
        let ghost open = builder_segments(*builder);
        assert(open.last() == polyline(points@).last());
        close(builder);
        assert(builder_segments(*builder) =~= builder_segments(*old(builder)) + ring(points@));
    } else {
        assert(builder_segments(*builder) =~= builder_segments(*old(builder)) + ring(points@));
    }
}

/// The path of the builder's segments, or the error that none can be built.
pub(crate) fn finish_outline(builder: tiny_skia::PathBuilder) -> (out: Result<
    tiny_skia::Path,
    Error,
>)
    ensures
        out is Ok <==> finishes(builder_segments(builder)),
        out matches Ok(path) ==> path_segments(path) == builder_segments(builder),
        out matches Err(error) ==> error == Error::PathConstruction,
{
    match finish(builder) {
        Some(path) => Ok(path),
        None => Err(Error::PathConstruction),
    }
}

} // verus!
