//! Styled areas: polygons, rectangles, triangles and collections of polygons.
//!
//! An area is filled in the foreground colour; its border is drawn over the
//! fill.

use crate::contour::{
    all_finite, contour_drawn, draw_contour, finite_positions, outline_drawn, paint_built,
    project_all, projection_fails, projects,
};
use crate::drawable::{
    all_made, draw_made, each_drawn, same_steps_draw_the_same, underway, Context, Drawable, Step,
};
use crate::error::Error;
use crate::geometry::{MultiPolygon, PixelPoint, Point, Polygon, Rect, Triangle};
use crate::outline::{builder_segments, new_builder, push_ring, ring, rings, settled};
use crate::style::{ColorOptions, Style};
use crate::styled::Styled;
use vstd::prelude::*;

verus! {

/// The options of a styled polygon, rectangle or triangle.
#[derive(Debug, PartialEq, Eq)]
pub struct StyledPolygonOptions {
    pub color_options: ColorOptions,
}

impl Clone for StyledPolygonOptions {
    fn clone(&self) -> (out: Self)
        ensures
            out == *self,
    {
        StyledPolygonOptions { color_options: self.color_options }
    }
}

impl Default for StyledPolygonOptions {
    fn default() -> (out: Self)
        ensures
            out == (StyledPolygonOptions { color_options: ColorOptions::standard() }),
    {
        StyledPolygonOptions { color_options: ColorOptions::default() }
    }
}

/// The options of a styled collection of polygons: those of each of its
/// polygons.
#[derive(Debug, PartialEq, Eq)]
pub struct StyledMultiPolygonOptions {
    pub polygon_options: StyledPolygonOptions,
}

impl Clone for StyledMultiPolygonOptions {
    fn clone(&self) -> (out: Self)
        ensures
            out == *self,
    {
        StyledMultiPolygonOptions { polygon_options: self.polygon_options.clone() }
    }
}

impl Default for StyledMultiPolygonOptions {
    fn default() -> (out: Self)
        ensures
            out == (StyledMultiPolygonOptions {
                polygon_options: StyledPolygonOptions { color_options: ColorOptions::standard() },
            }),
    {
        StyledMultiPolygonOptions { polygon_options: StyledPolygonOptions::default() }
    }
}

/// A polygon with its style.
pub type StyledPolygon<T> = Styled<Polygon<T>, StyledPolygonOptions>;

/// A rectangle with its style.
pub type StyledRect<T> = Styled<Rect<T>, StyledPolygonOptions>;

/// A triangle with its style.
pub type StyledTriangle<T> = Styled<Triangle<T>, StyledPolygonOptions>;

/// A collection of polygons with its style.
pub type StyledMultiPolygon<T> = Styled<MultiPolygon<T>, StyledMultiPolygonOptions>;

/// Whether drawing the area inside the ring through `points` with `options`
/// may turn the canvas `before` into `after` and end in `result`: the closed
/// contour through their pixel positions is filled and bordered.
pub open spec fn area_drawn<T, R, C: Context<T, R>>(
    points: Seq<Point<T>>,
    options: StyledPolygonOptions,
    context: &C,
    center: &R,
    before: tiny_skia::Pixmap,
    after: tiny_skia::Pixmap,
    result: Result<(), Error>,
) -> bool {
    contour_drawn(
        points,
        true,
        options.color_options,
        true,
        context,
        center,
        before,
        after,
        result,
    )
}

/// The corners of a rectangle, around it from its first corner.
pub open spec fn corners<T>(rect: Rect<T>) -> Seq<Point<T>> {
    seq![
        rect.min,
        Point { x: rect.max.x, y: rect.min.y },
        rect.max,
        Point { x: rect.min.x, y: rect.max.y },
    ]
}

impl<T: Copy, R, C: Context<T, R>> Drawable<C, R> for Styled<Rect<T>, StyledPolygonOptions> {
    /// A rectangle is drawn as the area inside its four corners.
    open spec fn drawn(
        &self,
        context: &C,
        center: &R,
        before: tiny_skia::Pixmap,
        after: tiny_skia::Pixmap,
        result: Result<(), Error>,
    ) -> bool {
        exists|options: StyledPolygonOptions| #[trigger]
            self.1.resolves(&self.0, options) && area_drawn(
                corners(self.0),
                options,
                context,
                center,
                before,
                after,
                result,
            )
    }

    fn draw(&self, context: &C, canvas: &mut tiny_skia::Pixmap, center: &R) -> (result: Result<
        (),
        Error,
    >) {
        let options = self.1.resolve(&self.0);
        let mut points: Vec<Point<T>> = Vec::new();
        points.push(self.0.min);
        points.push(Point { x: self.0.max.x, y: self.0.min.y });
        points.push(self.0.max);
        points.push(Point { x: self.0.min.x, y: self.0.max.y });
        proof {
            assert(points@ =~= corners(self.0));
        }
        draw_contour(&points, true, &options.color_options, true, context, canvas, center)
    }
}

impl<T: Copy, R, C: Context<T, R>> Drawable<C, R> for Styled<Triangle<T>, StyledPolygonOptions> {
    /// A triangle is drawn as the area inside its three corners.
    open spec fn drawn(
        &self,
        context: &C,
        center: &R,
        before: tiny_skia::Pixmap,
        after: tiny_skia::Pixmap,
        result: Result<(), Error>,
    ) -> bool {
        exists|options: StyledPolygonOptions| #[trigger]
            self.1.resolves(&self.0, options) && area_drawn(
                seq![self.0.first, self.0.second, self.0.third],
                options,
                context,
                center,
                before,
                after,
                result,
            )
    }

    fn draw(&self, context: &C, canvas: &mut tiny_skia::Pixmap, center: &R) -> (result: Result<
        (),
        Error,
    >) {
        let options = self.1.resolve(&self.0);
        let mut points: Vec<Point<T>> = Vec::new();
        points.push(self.0.first);
        points.push(self.0.second);
        points.push(self.0.third);
        proof {
            assert(points@ =~= seq![self.0.first, self.0.second, self.0.third]);
        }
        draw_contour(&points, true, &options.color_options, true, context, canvas, center)
    }
}

/// The rings of a polygon: its exterior, then its interiors in their order.
pub open spec fn polygon_rings<T>(polygon: Polygon<T>) -> Seq<Seq<Point<T>>> {
    Seq::new(
        polygon.interiors@.len() + 1,
        |i: int|
            if i == 0 {
                polygon.exterior.points@
            } else {
                polygon.interiors@[i - 1].points@
            },
    )
}

/// Whether `pixels` are the positions of `rings`, ring by ring.
pub open spec fn rings_project<T, R, C: Context<T, R>>(
    context: &C,
    center: &R,
    rings: Seq<Seq<Point<T>>>,
    pixels: Seq<Seq<PixelPoint>>,
) -> bool {
    &&& pixels.len() == rings.len()
    &&& forall|i: int|
        #![trigger pixels[i]]
        0 <= i < rings.len() ==> projects(context, center, rings[i], pixels[i])
}

/// Whether projecting `rings` in order may fail with `error`: the projection
/// of one ring may fail with it, after all the rings before that one have
/// been projected.
pub open spec fn rings_fail<T, R, C: Context<T, R>>(
    context: &C,
    center: &R,
    rings: Seq<Seq<Point<T>>>,
    error: Error,
) -> bool {
    exists|count: int, pixels: Seq<Seq<PixelPoint>>|
        #![trigger rings_project(context, center, rings.take(count), pixels)]
        0 <= count < rings.len() && rings_project(context, center, rings.take(count), pixels)
            && projection_fails(context, center, rings[count], error)
}

/// Whether every position of every ring of `pixels` is finite.
pub open spec fn finite_rings(pixels: Seq<Seq<PixelPoint>>) -> bool {
    forall|i: int| #![trigger pixels[i]] 0 <= i < pixels.len() ==> finite_positions(pixels[i])
}

/// Whether painting the area inside the rings through `pixels` may turn the
/// canvas `before` into `after` and end in `result`. No outline is built
/// through a position that is not finite.
pub open spec fn rings_drawn(
    pixels: Seq<Seq<PixelPoint>>,
    colors: ColorOptions,
    before: tiny_skia::Pixmap,
    after: tiny_skia::Pixmap,
    result: Result<(), Error>,
) -> bool {
    if finite_rings(pixels) {
        outline_drawn(rings(pixels), colors, true, before, after, result)
    } else {
        result == Err::<(), Error>(Error::PathConstruction) && after == before
    }
}

/// Whether drawing `polygon` with `options` may turn the canvas `before`
/// into `after` and end in `result`: all its rings are projected and their
/// contours are filled and bordered as one outline, or the projection fails
/// and the canvas is left untouched.
pub open spec fn polygon_drawn<T, R, C: Context<T, R>>(
    polygon: Polygon<T>,
    options: StyledPolygonOptions,
    context: &C,
    center: &R,
    before: tiny_skia::Pixmap,
    after: tiny_skia::Pixmap,
    result: Result<(), Error>,
) -> bool {
    ||| exists|pixels: Seq<Seq<PixelPoint>>|
        #![trigger rings_project(context, center, polygon_rings(polygon), pixels)]
        rings_project(context, center, polygon_rings(polygon), pixels) && rings_drawn(
            pixels,
            options.color_options,
            before,
            after,
            result,
        )
    ||| exists|error: Error|
        #![trigger rings_fail(context, center, polygon_rings(polygon), error)]
        rings_fail(context, center, polygon_rings(polygon), error) && result == Err::<
            (),
            Error,
        >(error) && after == before
}

/// One more ring after `pixels`: its contour follows theirs, and the
/// positions are all finite where theirs and its own are.
pub proof fn ring_added(pixels: Seq<Seq<PixelPoint>>, added: Seq<PixelPoint>)
    ensures
        rings(pixels.push(added)) == rings(pixels) + ring(added),
        finite_rings(pixels.push(added)) == (finite_rings(pixels) && finite_positions(added)),
{
    let longer = pixels.push(added);
    assert(longer.drop_last() =~= pixels);
    assert(longer.last() == added);
    if finite_rings(pixels) && finite_positions(added) {
        assert forall|i: int| #![trigger longer[i]] 0 <= i < longer.len() implies finite_positions(
            longer[i],
        ) by {
            if i < pixels.len() {
                assert(longer[i] == pixels[i]);
            }
        }
    }
    if finite_rings(longer) {
        assert(finite_positions(longer[pixels.len() as int]));
        assert forall|i: int| #![trigger pixels[i]] 0 <= i < pixels.len() implies finite_positions(
            pixels[i],
        ) by {
            assert(pixels[i] == longer[i]);
        }
    }
}

/// One more ring projected after the first `count` rings of `all`.
pub proof fn ring_projected<T, R, C: Context<T, R>>(
    context: &C,
    center: &R,
    all: Seq<Seq<Point<T>>>,
    count: int,
    pixels: Seq<Seq<PixelPoint>>,
    added: Seq<PixelPoint>,
)
    requires
        0 <= count < all.len(),
        rings_project(context, center, all.take(count), pixels),
        projects(context, center, all[count], added),
    ensures
        rings_project(context, center, all.take(count + 1), pixels.push(added)),
{
    let rings = all.take(count + 1);
    let longer = pixels.push(added);
    assert forall|i: int| #![trigger longer[i]] 0 <= i < rings.len() implies projects(
        context,
        center,
        rings[i],
        longer[i],
    ) by {
        if i < count {
            assert(longer[i] == pixels[i]);
            assert(rings[i] == all.take(count)[i]);
        }
    }
}

/// Draws `polygon` with `options`.
pub fn draw_polygon<T, R, C: Context<T, R>>(
    polygon: &Polygon<T>,
    options: &StyledPolygonOptions,
    context: &C,
    canvas: &mut tiny_skia::Pixmap,
    center: &R,
) -> (result: Result<(), Error>)
    ensures
        polygon_drawn(
            *polygon,
            *options,
            context,
            center,
            *old(canvas),
            *final(canvas),
            result,
        ),
{
    let ghost all = polygon_rings(*polygon);
    let ghost mut pixels: Seq<Seq<PixelPoint>> = Seq::empty();
    let mut builder = new_builder();
    let mut finite = true;
    proof {
        assert(all.take(0) =~= Seq::<Seq<Point<T>>>::empty());
        assert(rings(pixels) =~= Seq::empty());
    }
    match project_all(context, center, &polygon.exterior.points) {
        Ok(exterior) => {
            finite = all_finite(&exterior);
            push_ring(&mut builder, &exterior);
            proof {
                ring_added(pixels, exterior@);
                ring_projected(context, center, all, 0, pixels, exterior@);
                pixels = pixels.push(exterior@);
            }
        },
        Err(error) => {
            proof {
                assert(rings_fail(context, center, all, error));
            }
            return Err(error);
        },
    }
    let mut index: usize = 0;
    while index < polygon.interiors.len()
        invariant
            index <= polygon.interiors.len(),
            all == polygon_rings(*polygon),
            rings_project(context, center, all.take(index + 1), pixels),
            builder_segments(builder) == rings(pixels),
            settled(builder_segments(builder)),
            finite == finite_rings(pixels),
            *canvas == *old(canvas),
        decreases polygon.interiors.len() - index,
    {
        match project_all(context, center, &polygon.interiors[index].points) {
            Ok(interior) => {
                let whole = all_finite(&interior);
                finite = finite && whole;
                push_ring(&mut builder, &interior);
                proof {
                    ring_added(pixels, interior@);
                    ring_projected(context, center, all, index + 1, pixels, interior@);
                    pixels = pixels.push(interior@);
                }
            },
            Err(error) => {
                proof {
                    assert(rings_fail(context, center, all, error));
                }
                return Err(error);
            },
        }
        index = index + 1;
    }
    proof {
        assert(all.take(index + 1) =~= all);
    }
    if !finite {
        return Err(Error::PathConstruction);
    }
    paint_built(builder, &options.color_options, true, canvas)
}

impl<T, R, C: Context<T, R>> Drawable<C, R> for Styled<Polygon<T>, StyledPolygonOptions> {
    open spec fn drawn(
        &self,
        context: &C,
        center: &R,
        before: tiny_skia::Pixmap,
        after: tiny_skia::Pixmap,
        result: Result<(), Error>,
    ) -> bool {
        exists|options: StyledPolygonOptions| #[trigger]
            self.1.resolves(&self.0, options) && polygon_drawn(
                self.0,
                options,
                context,
                center,
                before,
                after,
                result,
            )
    }

    fn draw(&self, context: &C, canvas: &mut tiny_skia::Pixmap, center: &R) -> (result: Result<
        (),
        Error,
    >) {
        let options = self.1.resolve(&self.0);
        draw_polygon(&self.0, &options, context, canvas, center)
    }
}

/// The draws of `polygons`, each with `options`, in their order.
pub open spec fn polygon_steps<T, R, C: Context<T, R>>(
    polygons: Seq<Polygon<T>>,
    options: StyledPolygonOptions,
    context: &C,
    center: &R,
) -> Seq<Step> {
    Seq::new(
        polygons.len(),
        |i: int|
            |before: tiny_skia::Pixmap, after: tiny_skia::Pixmap, result: Result<(), Error>|
                polygon_drawn(polygons[i], options, context, center, before, after, result),
    )
}

impl<T, R, C: Context<T, R>> Drawable<C, R> for Styled<
    MultiPolygon<T>,
    StyledMultiPolygonOptions,
> {
    /// The style is resolved once, for the whole collection. Then each
    /// polygon is drawn with it as a single polygon would be, in the
    /// collection's order and on the canvas as the polygons before it left
    /// it, up to the first failure.
    open spec fn drawn(
        &self,
        context: &C,
        center: &R,
        before: tiny_skia::Pixmap,
        after: tiny_skia::Pixmap,
        result: Result<(), Error>,
    ) -> bool {
        exists|options: StyledMultiPolygonOptions| #[trigger]
            self.1.resolves(&self.0, options) && each_drawn(
                polygon_steps(self.0.polygons@, options.polygon_options, context, center),
                before,
                after,
                result,
            )
    }

    fn draw(&self, context: &C, canvas: &mut tiny_skia::Pixmap, center: &R) -> (result: Result<
        (),
        Error,
    >) {
        let options = self.1.resolve(&self.0);
        let ghost steps = polygon_steps(
            self.0.polygons@,
            options.polygon_options,
            context,
            center,
        );
        let ghost mut canvases = seq![*canvas];
        let mut index: usize = 0;
        while index < self.0.polygons.len()
            invariant
                index <= self.0.polygons.len(),
                self.1.resolves(&self.0, options),
                steps == polygon_steps(self.0.polygons@, options.polygon_options, context, center),
                underway(steps, canvases),
                canvases.len() == index + 1,
                canvases.first() == *old(canvas),
                canvases.last() == *canvas,
            decreases self.0.polygons.len() - index,
        {
            let step = draw_polygon(
                &self.0.polygons[index],
                &options.polygon_options,
                context,
                canvas,
                center,
            );
            proof {
                draw_made(steps, canvases, *canvas, step);
                canvases = canvases.push(*canvas);
            }
            match step {
                Ok(()) => {},
                Err(error) => {
                    return Err(error);
                },
            }
            index = index + 1;
        }
        proof {
            all_made(steps, canvases);
        }
        Ok(())
    }
}

/// A fixed style of an area resolves to exactly its options, whatever the
/// geometry.
pub proof fn fixed_polygon_style_is_exact<G>(
    fixed: StyledPolygonOptions,
    geometry: &G,
    options: StyledPolygonOptions,
)
    requires
        (Style::<G, StyledPolygonOptions>::Static(fixed)).resolves(geometry, options),
    ensures
        options == fixed,
{
}

/// A fixed style of a collection of polygons resolves to exactly its
/// options, whatever the geometry.
pub proof fn fixed_multi_polygon_style_is_exact<G>(
    fixed: StyledMultiPolygonOptions,
    geometry: &G,
    options: StyledMultiPolygonOptions,
)
    requires
        (Style::<G, StyledMultiPolygonOptions>::Static(fixed)).resolves(geometry, options),
    ensures
        options == fixed,
{
}

/// A polygon with a fixed style is drawn as the polygon is with the options
/// of that style.
pub proof fn fixed_polygon_is_drawn_with_its_options<T, R, C: Context<T, R>>(
    polygon: Polygon<T>,
    options: StyledPolygonOptions,
    context: &C,
    center: &R,
    before: tiny_skia::Pixmap,
    after: tiny_skia::Pixmap,
    result: Result<(), Error>,
)
    ensures
        Styled(polygon, Style::Static(options)).drawn(context, center, before, after, result)
            == polygon_drawn(polygon, options, context, center, before, after, result),
{
    let styled = Styled(polygon, Style::Static(options));
    assert(styled.1.resolves(&styled.0, options));
}

/// The draws of `polygons` as single polygons, each with `options` as its
/// fixed style, in their order.
pub open spec fn single_polygon_steps<T, R, C: Context<T, R>>(
    polygons: Seq<Polygon<T>>,
    options: StyledPolygonOptions,
    context: &C,
    center: &R,
) -> Seq<Step> {
    Seq::new(
        polygons.len(),
        |i: int|
            |before: tiny_skia::Pixmap, after: tiny_skia::Pixmap, result: Result<(), Error>|
                Styled(polygons[i], Style::Static(options)).drawn(
                    context,
                    center,
                    before,
                    after,
                    result,
                ),
    )
}

/// A collection of polygons with a fixed style is drawn as its polygons are,
/// one after the other in the collection's order on the same canvas, each as
/// a single polygon with that style's polygon options.
pub proof fn multi_polygon_is_drawn_as_its_polygons<T, R, C: Context<T, R>>(
    polygons: MultiPolygon<T>,
    options: StyledMultiPolygonOptions,
    context: &C,
    center: &R,
    before: tiny_skia::Pixmap,
    after: tiny_skia::Pixmap,
    result: Result<(), Error>,
)
    ensures
        Styled(polygons, Style::Static(options)).drawn(context, center, before, after, result)
            == each_drawn(
            single_polygon_steps(polygons.polygons@, options.polygon_options, context, center),
            before,
            after,
            result,
        ),
{
    let styled = Styled(polygons, Style::Static(options));
    let together = polygon_steps(polygons.polygons@, options.polygon_options, context, center);
    let single = single_polygon_steps(
        polygons.polygons@,
        options.polygon_options,
        context,
        center,
    );
    assert(styled.1.resolves(&styled.0, options));
    assert forall|i: int, from: tiny_skia::Pixmap, to: tiny_skia::Pixmap, end: Result<(), Error>|
        #![trigger (together[i])(from, to, end)]
        #![trigger (single[i])(from, to, end)]
        0 <= i < together.len() implies (together[i])(from, to, end) == (single[i])(
        from,
        to,
        end,
    ) by {
        fixed_polygon_is_drawn_with_its_options(
            polygons.polygons@[i],
            options.polygon_options,
            context,
            center,
            from,
            to,
            end,
        );
    }
    same_steps_draw_the_same(together, single, before, after, result);
}

} // verus!
