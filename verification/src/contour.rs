//! From the positions of a geometry to a painted outline.
//!
//! A line, a ring or a polygon is drawn in three steps: its positions are
//! projected in order, up to the first failure; the projected positions are
//! joined to an outline; the outline is painted.

use crate::canvas::{paint_outline, raster};
use crate::drawable::Context;
use crate::error::Error;
use crate::geometry::{PixelPoint, Point};
use crate::outline::{
    builder_segments, finish_outline, finishes, new_builder, polyline, push_polyline, push_ring,
    ring, settled, Segment,
};
use crate::style::ColorOptions;
use vstd::prelude::*;

verus! {

/// Whether `pixels` are the positions of `points`: each one a position that
/// the projection may return for its point.
pub open spec fn projects<T, R, C: Context<T, R>>(
    context: &C,
    center: &R,
    points: Seq<Point<T>>,
    pixels: Seq<PixelPoint>,
) -> bool {
    &&& pixels.len() == points.len()
    &&& forall|i: int|
        #![trigger pixels[i]]
        0 <= i < points.len() ==> call_ensures(
            C::project,
            (context, center, &points[i]),
            Ok::<PixelPoint, Error>(pixels[i]),
        )
}

/// Whether projecting `points` in order may fail with `error`: the
/// projection may return it for one of them, and a position for each of
/// those before that one.
pub open spec fn projection_fails<T, R, C: Context<T, R>>(
    context: &C,
    center: &R,
    points: Seq<Point<T>>,
    error: Error,
) -> bool {
    exists|count: int, pixels: Seq<PixelPoint>|
        #![trigger projects(context, center, points.take(count), pixels)]
        0 <= count < points.len() && projects(context, center, points.take(count), pixels)
            && call_ensures(
            C::project,
            (context, center, &points[count]),
            Err::<PixelPoint, Error>(error),
        )
}

/// The pixel positions of `points`, in their order, or the first failure of
/// the projection.
pub fn project_all<T, R, C: Context<T, R>>(context: &C, center: &R, points: &Vec<Point<T>>) -> (out:
    Result<Vec<PixelPoint>, Error>)
    ensures
        match out {
            Ok(pixels) => projects(context, center, points@, pixels@),
            Err(error) => projection_fails(context, center, points@, error),
        },
{
    let mut pixels: Vec<PixelPoint> = Vec::new();
    let mut index: usize = 0;
    while index < points.len()
        invariant
            index <= points.len(),
            projects(context, center, points@.take(index as int), pixels@),
        decreases points.len() - index,
    {
        let projected = context.project(center, &points[index]);
        match projected {
            Ok(pixel) => {
                let ghost earlier = pixels@;
                pixels.push(pixel);
                proof {
                    let longer = points@.take(index + 1);
                    assert forall|i: int|
                        #![trigger pixels@[i]]
                        0 <= i < longer.len() implies call_ensures(
                        C::project,
                        (context, center, &longer[i]),
                        Ok::<PixelPoint, Error>(pixels@[i]),
                    ) by {
                        if i < index {
                            assert(pixels@[i] == earlier[i]);
                            assert(longer[i] == points@.take(index as int)[i]);
                        }
                    }
                }
            },
            Err(error) => {
                return Err(error);
            },
        }
        index = index + 1;
    }
    proof {
        assert(points@.take(index as int) =~= points@);
    }
    Ok(pixels)
}

/// Whether every one of `pixels` is a finite position.
pub open spec fn finite_positions(pixels: Seq<PixelPoint>) -> bool {
    forall|i: int|
        #![trigger pixels[i]]
        0 <= i < pixels.len() ==> pixels[i].x.finite() && pixels[i].y.finite()
}

/// Whether every one of `pixels` is a finite position.
pub fn all_finite(pixels: &Vec<PixelPoint>) -> (out: bool)
    ensures
        out == finite_positions(pixels@),
{
    let mut index: usize = 0;
    while index < pixels.len()
        invariant
            index <= pixels.len(),
            finite_positions(pixels@.take(index as int)),
        decreases pixels.len() - index,
    {
        if !pixels[index].x.is_finite() || !pixels[index].y.is_finite() {
            return false;
        }
        proof {
            let longer = pixels@.take(index + 1);
            assert forall|i: int|
                #![trigger longer[i]]
                0 <= i < longer.len() implies longer[i].x.finite() && longer[i].y.finite() by {
                if i < index {
                    assert(longer[i] == pixels@.take(index as int)[i]);
                }
            }
        }
        index = index + 1;
    }
    proof {
        assert(pixels@.take(index as int) =~= pixels@);
    }
    true
}

/// The contour through `pixels`: closed, or left open.
pub open spec fn contour(pixels: Seq<PixelPoint>, closed: bool) -> Seq<Segment> {
    if closed {
        ring(pixels)
    } else {
        polyline(pixels)
    }
}

/// Whether painting the outline of `segments` may turn the canvas `before`
/// into `after` and end in `result`: the outline is painted, or there is no
/// outline and nothing is painted.
pub open spec fn outline_drawn(
    segments: Seq<Segment>,
    colors: ColorOptions,
    area: bool,
    before: tiny_skia::Pixmap,
    after: tiny_skia::Pixmap,
    result: Result<(), Error>,
) -> bool {
    if finishes(segments) {
        result == Ok::<(), Error>(()) && raster(after) == raster(before).paint(
            segments,
            colors,
            area,
        )
    } else {
        result == Err::<(), Error>(Error::PathConstruction) && after == before
    }
}

/// Finishes the builder's outline and paints it.
pub(crate) fn paint_built(
    builder: tiny_skia::PathBuilder,
    colors: &ColorOptions,
    area: bool,
    canvas: &mut tiny_skia::Pixmap,
) -> (result: Result<(), Error>)
    ensures
        outline_drawn(
            builder_segments(builder),
            *colors,
            area,
            *old(canvas),
            *final(canvas),
            result,
        ),
{
    match finish_outline(builder) {
        Ok(outline) => {
            paint_outline(canvas, &outline, colors, area);
            Ok(())
        },
        Err(error) => Err(error),
    }
}

/// Whether painting the contour through `pixels` may turn the canvas
/// `before` into `after` and end in `result`. No outline is built through a
/// position that is not finite.
pub open spec fn positions_drawn(
    pixels: Seq<PixelPoint>,
    closed: bool,
    colors: ColorOptions,
    area: bool,
    before: tiny_skia::Pixmap,
    after: tiny_skia::Pixmap,
    result: Result<(), Error>,
) -> bool {
    if finite_positions(pixels) {
        outline_drawn(contour(pixels, closed), colors, area, before, after, result)
    } else {
        result == Err::<(), Error>(Error::PathConstruction) && after == before
    }
}

/// Whether drawing the contour through `points` may turn the canvas `before`
/// into `after` and end in `result`: all its positions are projected and
/// their contour is painted, or the projection fails and the canvas is left
/// untouched.
pub open spec fn contour_drawn<T, R, C: Context<T, R>>(
    points: Seq<Point<T>>,
    closed: bool,
    colors: ColorOptions,
    area: bool,
    context: &C,
    center: &R,
    before: tiny_skia::Pixmap,
    after: tiny_skia::Pixmap,
    result: Result<(), Error>,
) -> bool {
    ||| exists|pixels: Seq<PixelPoint>|
        #![trigger projects(context, center, points, pixels)]
        projects(context, center, points, pixels) && positions_drawn(
            pixels,
            closed,
            colors,
            area,
            before,
            after,
            result,
        )
    ||| exists|error: Error|
        #![trigger projection_fails(context, center, points, error)]
        projection_fails(context, center, points, error) && result == Err::<(), Error>(error)
            && after == before
}

/// Draws the contour through `points`.
pub fn draw_contour<T, R, C: Context<T, R>>(
    points: &Vec<Point<T>>,
    closed: bool,
    colors: &ColorOptions,
    area: bool,
    context: &C,
    canvas: &mut tiny_skia::Pixmap,
    center: &R,
) -> (result: Result<(), Error>)
    ensures
        contour_drawn(
            points@,
            closed,
            *colors,
            area,
            context,
            center,
            *old(canvas),
            *final(canvas),
            result,
        ),
{
    match project_all(context, center, points) {
        Ok(pixels) => {
            if !all_finite(&pixels) {
                return Err(Error::PathConstruction);
            }
            let mut builder = new_builder();
            if closed {
                push_ring(&mut builder, &pixels);
            } else {
                push_polyline(&mut builder, &pixels);
            }
            proof {
                assert(builder_segments(builder) =~= contour(pixels@, closed));
            }
            paint_built(builder, colors, area, canvas)
        },
        Err(error) => Err(error),
    }
}

} // verus!
