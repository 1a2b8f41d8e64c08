//! Styled points and collections of points.

use crate::canvas::{paint_outline, raster};
use crate::drawable::{
    all_made, draw_made, each_drawn, same_steps_draw_the_same, underway, Context, Drawable,
    ImageOptions, Step,
};
use crate::error::Error;
use crate::geometry::{MultiPoint, PixelPoint, Point};
use crate::scalar::{Scalar, FOUR};
use crate::shape::Shape;
use crate::style::{ColorOptions, Style};
use crate::styled::Styled;
use vstd::prelude::*;

verus! {

/// How a point is shown.
#[derive(Debug, PartialEq, Eq)]
pub enum Representation {
    /// As a shape painted at its pixel position.
    Shape(Shape),
    /// As an image that the external renderer draws, anchored there.
    ExternalImage(ImageOptions),
}

impl Clone for Representation {
    fn clone(&self) -> (out: Self)
        ensures
            out == *self,
    {
        match self {
            Representation::Shape(shape) => Representation::Shape(*shape),
            Representation::ExternalImage(image) => Representation::ExternalImage(image.clone()),
        }
    }
}

impl Default for Representation {
    /// The default shape.
    fn default() -> (out: Self)
        ensures
            out == Representation::Shape(Shape::Circle { radius: Scalar { bits: FOUR } }),
    {
        Representation::Shape(Shape::default())
    }
}

/// The options of a styled point.
#[derive(Debug, PartialEq, Eq)]
pub struct StyledPointOptions {
    pub color_options: ColorOptions,
    pub representation: Representation,
}

impl StyledPointOptions {
    /// The standard colours and the default shape.
    pub open spec fn standard() -> StyledPointOptions {
        StyledPointOptions {
            color_options: ColorOptions::standard(),
            representation: Representation::Shape(Shape::Circle { radius: Scalar { bits: FOUR } }),
        }
    }
}

impl Clone for StyledPointOptions {
    fn clone(&self) -> (out: Self)
        ensures
            out == *self,
    {
        StyledPointOptions {
            color_options: self.color_options,
            representation: self.representation.clone(),
        }
    }
}

impl Default for StyledPointOptions {
    fn default() -> (out: Self)
        ensures
            out == StyledPointOptions::standard(),
    {
        StyledPointOptions {
            color_options: ColorOptions::default(),
            representation: Representation::default(),
        }
    }
}

/// A point with its style.
pub type StyledPoint<T> = Styled<Point<T>, StyledPointOptions>;

/// Whether painting `shape` at `pixel` may turn the canvas `before` into
/// `after` and end in `result`: the outline is filled in the foreground
/// colour and then bordered, or there is no outline and nothing is painted.
pub open spec fn shape_drawn(
    shape: Shape,
    colors: ColorOptions,
    pixel: PixelPoint,
    before: tiny_skia::Pixmap,
    after: tiny_skia::Pixmap,
    result: Result<(), Error>,
) -> bool {
    match shape.outline(pixel) {
        Some(outline) => result == Ok::<(), Error>(()) && raster(after) == raster(before).paint(
            outline,
            colors,
            true,
        ),
        None => result == Err::<(), Error>(Error::PathConstruction) && after == before,
    }
}

/// Whether handing a point at `pixel` to the external renderer may turn the
/// canvas `before` into `after` and end in `result`: the renderer's failure
/// with the canvas untouched, or whatever the draw of its image does.
pub open spec fn image_drawn<T, R, C: Context<T, R>>(
    image: ImageOptions,
    pixel: PixelPoint,
    context: &C,
    center: &R,
    before: tiny_skia::Pixmap,
    after: tiny_skia::Pixmap,
    result: Result<(), Error>,
) -> bool where C::Image: Drawable<C, R> {
    exists|loaded: Result<C::Image, Error>| #[trigger]
        call_ensures(C::image, (context, &image, &pixel), loaded) && match loaded {
            Ok(ready) => ready.drawn(context, center, before, after, result),
            Err(error) => result == Err::<(), Error>(error) && after == before,
        }
}

/// Whether drawing `point` with `options` may turn the canvas `before` into
/// `after` and end in `result`: the projection's failure with the canvas
/// untouched, or what the chosen representation does at the projected
/// position.
pub open spec fn point_drawn<T, R, C: Context<T, R>>(
    point: Point<T>,
    options: StyledPointOptions,
    context: &C,
    center: &R,
    before: tiny_skia::Pixmap,
    after: tiny_skia::Pixmap,
    result: Result<(), Error>,
) -> bool where C::Image: Drawable<C, R> {
    exists|projected: Result<PixelPoint, Error>| #[trigger]
        call_ensures(C::project, (context, center, &point), projected) && match projected {
            Ok(pixel) => match options.representation {
                Representation::Shape(shape) => shape_drawn(
                    shape,
                    options.color_options,
                    pixel,
                    before,
                    after,
                    result,
                ),
                Representation::ExternalImage(image) => image_drawn(
                    image,
                    pixel,
                    context,
                    center,
                    before,
                    after,
                    result,
                ),
            },
            Err(error) => result == Err::<(), Error>(error) && after == before,
        }
}

/// Paints `shape` at `pixel`.
pub fn draw_shape(
    shape: &Shape,
    colors: &ColorOptions,
    pixel: PixelPoint,
    canvas: &mut tiny_skia::Pixmap,
) -> (result: Result<(), Error>)
    ensures
        shape_drawn(*shape, *colors, pixel, *old(canvas), *final(canvas), result),
{
    match shape.to_path(pixel.x, pixel.y) {
        Ok(outline) => {
            paint_outline(canvas, &outline, colors, true);
            Ok(())
        },
        Err(error) => Err(error),
    }
}

impl<T, R, C: Context<T, R>> Drawable<C, R> for Styled<Point<T>, StyledPointOptions> where
    C::Image: Drawable<C, R>,
 {
    open spec fn drawn(
        &self,
        context: &C,
        center: &R,
        before: tiny_skia::Pixmap,
        after: tiny_skia::Pixmap,
        result: Result<(), Error>,
    ) -> bool {
        exists|options: StyledPointOptions| #[trigger]
            self.1.resolves(&self.0, options) && point_drawn(
                self.0,
                options,
                context,
                center,
                before,
                after,
                result,
            )
    }

    fn draw(&self, context: &C, canvas: &mut tiny_skia::Pixmap, center: &R) -> (result: Result<
        (),
        Error,
    >) {
        let options = self.1.resolve(&self.0);
        let projected = context.project(center, &self.0);
        let result = match projected {
            Ok(pixel) => match &options.representation {
                Representation::Shape(shape) => draw_shape(
                    shape,
                    &options.color_options,
                    pixel,
                    canvas,
                ),
                Representation::ExternalImage(image) => {
                    let loaded = context.image(image, &pixel);
                    match loaded {
                        Ok(ready) => ready.draw(context, canvas, center),
                        Err(error) => Err(error),
                    }
                },
            },
            Err(error) => Err(error),
        };
        proof {
            assert(point_drawn(
                self.0,
                options,
                context,
                center,
                *old(canvas),
                *canvas,
                result,
            ));
        }
        result
    }
}

/// The options of a styled collection of points: those of each of its points.
#[derive(Debug, PartialEq, Eq)]
pub struct StyledMultiPointOptions {
    pub point_options: StyledPointOptions,
}

impl Clone for StyledMultiPointOptions {
    fn clone(&self) -> (out: Self)
        ensures
            out == *self,
    {
        StyledMultiPointOptions { point_options: self.point_options.clone() }
    }
}

impl Default for StyledMultiPointOptions {
    fn default() -> (out: Self)
        ensures
            out == (StyledMultiPointOptions { point_options: StyledPointOptions::standard() }),
    {
        StyledMultiPointOptions { point_options: StyledPointOptions::default() }
    }
}

/// A collection of points with its style.
pub type StyledMultiPoint<T> = Styled<MultiPoint<T>, StyledMultiPointOptions>;

/// The draws of `points`, each with `options`, in their order.
pub open spec fn point_steps<T, R, C: Context<T, R>>(
    points: Seq<Point<T>>,
    options: StyledPointOptions,
    context: &C,
    center: &R,
) -> Seq<Step> where C::Image: Drawable<C, R> {
    Seq::new(
        points.len(),
        |i: int|
            |before: tiny_skia::Pixmap, after: tiny_skia::Pixmap, result: Result<(), Error>|
                point_drawn(points[i], options, context, center, before, after, result),
    )
}

impl<T: Copy, R, C: Context<T, R>> Drawable<C, R> for Styled<
    MultiPoint<T>,
    StyledMultiPointOptions,
> where C::Image: Drawable<C, R> {
    /// The style is resolved once, for the whole collection. Then each point
    /// is drawn with it as a single point would be, in the collection's
    /// order and on the canvas as the points before it left it, up to the
    /// first failure.
    open spec fn drawn(
        &self,
        context: &C,
        center: &R,
        before: tiny_skia::Pixmap,
        after: tiny_skia::Pixmap,
        result: Result<(), Error>,
    ) -> bool {
        exists|options: StyledMultiPointOptions| #[trigger]
            self.1.resolves(&self.0, options) && each_drawn(
                point_steps(self.0.points@, options.point_options, context, center),
                before,
                after,
                result,
            )
    }

    fn draw(&self, context: &C, canvas: &mut tiny_skia::Pixmap, center: &R) -> (result: Result<
        (),
        Error,
    >) {
        let options = self.1.resolve(&self.0);
        let ghost steps = point_steps(self.0.points@, options.point_options, context, center);
        let ghost mut canvases = seq![*canvas];
        let mut index: usize = 0;
        while index < self.0.points.len()
            invariant
                index <= self.0.points.len(),
                self.1.resolves(&self.0, options),
                steps == point_steps(self.0.points@, options.point_options, context, center),
                underway(steps, canvases),
                canvases.len() == index + 1,
                canvases.first() == *old(canvas),
                canvases.last() == *canvas,
            decreases self.0.points.len() - index,
        {
            let styled = Styled(
                self.0.points[index],
                Style::Static(options.point_options.clone()),
            );
            let step = styled.draw(context, canvas, center);
            proof {
                draw_made(steps, canvases, *canvas, step);
                canvases = canvases.push(*canvas);
            }
            match step {
                Ok(()) => {},
                Err(error) => {
                    return Err(error);
                },
            }
            index = index + 1;
        }
        proof {
            all_made(steps, canvases);
        }
        Ok(())
    }
}

/// A fixed style of a point resolves to exactly its options, whatever the
/// geometry.
pub proof fn fixed_point_style_is_exact<G>(
    fixed: StyledPointOptions,
    geometry: &G,
    options: StyledPointOptions,
)
    requires
        (Style::<G, StyledPointOptions>::Static(fixed)).resolves(geometry, options),
    ensures
        options == fixed,
{
}

/// A fixed style of a collection of points resolves to exactly its options,
/// whatever the geometry.
pub proof fn fixed_multi_point_style_is_exact<G>(
    fixed: StyledMultiPointOptions,
    geometry: &G,
    options: StyledMultiPointOptions,
)
    requires
        (Style::<G, StyledMultiPointOptions>::Static(fixed)).resolves(geometry, options),
    ensures
        options == fixed,
{
}

/// A point with a fixed style is drawn as the point is with the options of
/// that style.
pub proof fn fixed_point_is_drawn_with_its_options<T, R, C: Context<T, R>>(
    point: Point<T>,
    options: StyledPointOptions,
    context: &C,
    center: &R,
    before: tiny_skia::Pixmap,
    after: tiny_skia::Pixmap,
    result: Result<(), Error>,
) where C::Image: Drawable<C, R>
    ensures
        Styled(point, Style::Static(options)).drawn(context, center, before, after, result)
            == point_drawn(point, options, context, center, before, after, result),
{
    let styled = Styled(point, Style::Static(options));
    assert(styled.1.resolves(&styled.0, options));
}

/// The draws of `points` as single points, each with `options` as its fixed
/// style, in their order.
pub open spec fn single_point_steps<T, R, C: Context<T, R>>(
    points: Seq<Point<T>>,
    options: StyledPointOptions,
    context: &C,
    center: &R,
) -> Seq<Step> where C::Image: Drawable<C, R> {
    Seq::new(
        points.len(),
        |i: int|
            |before: tiny_skia::Pixmap, after: tiny_skia::Pixmap, result: Result<(), Error>|
                Styled(points[i], Style::Static(options)).drawn(
                    context,
                    center,
                    before,
                    after,
                    result,
                ),
    )
}

/// A collection of points with a fixed style is drawn as its points are,
/// one after the other in the collection's order on the same canvas, each
/// as a single point with that style's point options: whatever the one may
/// do to the canvas and end in, the other may, and nothing else.
pub proof fn multi_point_is_drawn_as_its_points<T: Copy, R, C: Context<T, R>>(
    points: MultiPoint<T>,
    options: StyledMultiPointOptions,
    context: &C,
    center: &R,
    before: tiny_skia::Pixmap,
    after: tiny_skia::Pixmap,
    result: Result<(), Error>,
) where C::Image: Drawable<C, R>
    ensures
        Styled(points, Style::Static(options)).drawn(context, center, before, after, result)
            == each_drawn(
            single_point_steps(points.points@, options.point_options, context, center),
            before,
            after,
            result,
        ),
{
    let styled = Styled(points, Style::Static(options));
    let together = point_steps(points.points@, options.point_options, context, center);
    let single = single_point_steps(points.points@, options.point_options, context, center);
    assert(styled.1.resolves(&styled.0, options));
    assert forall|i: int, from: tiny_skia::Pixmap, to: tiny_skia::Pixmap, end: Result<(), Error>|
        #![trigger (together[i])(from, to, end)]
        #![trigger (single[i])(from, to, end)]
        0 <= i < together.len() implies (together[i])(from, to, end) == (single[i])(
        from,
        to,
        end,
    ) by {
        fixed_point_is_drawn_with_its_options(
            points.points@[i],
            options.point_options,
            context,
            center,
            from,
            to,
            end,
        );
    }
    same_steps_draw_the_same(together, single, before, after, result);
}

} // verus!
