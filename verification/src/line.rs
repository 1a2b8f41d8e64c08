//! Styled lines, paths and collections of paths.
//!
//! A line has no area: nothing is filled, and what is drawn of it is the
//! border of its outline.

use crate::contour::{contour_drawn, draw_contour};
use crate::drawable::{
    all_made, draw_made, each_drawn, same_steps_draw_the_same, underway, Context, Drawable, Step,
};
use crate::error::Error;
use crate::geometry::{Line, LineString, MultiLineString, Point};
use crate::style::{ColorOptions, Style};
use crate::styled::Styled;
use vstd::prelude::*;

verus! {

/// The options of a styled line or path.
#[derive(Debug, PartialEq, Eq)]
pub struct StyledLineOptions {
    pub color_options: ColorOptions,
}

impl Clone for StyledLineOptions {
    fn clone(&self) -> (out: Self)
        ensures
            out == *self,
    {
        StyledLineOptions { color_options: self.color_options }
    }
}

impl Default for StyledLineOptions {
    fn default() -> (out: Self)
        ensures
            out == (StyledLineOptions { color_options: ColorOptions::standard() }),
    {
        StyledLineOptions { color_options: ColorOptions::default() }
    }
}

/// The options of a styled collection of paths: those of each of its paths.
#[derive(Debug, PartialEq, Eq)]
pub struct StyledMultiLineStringOptions {
    pub line_options: StyledLineOptions,
}

impl Clone for StyledMultiLineStringOptions {
    fn clone(&self) -> (out: Self)
        ensures
            out == *self,
    {
        StyledMultiLineStringOptions { line_options: self.line_options.clone() }
    }
}

impl Default for StyledMultiLineStringOptions {
    fn default() -> (out: Self)
        ensures
            out == (StyledMultiLineStringOptions {
                line_options: StyledLineOptions { color_options: ColorOptions::standard() },
            }),
    {
        StyledMultiLineStringOptions { line_options: StyledLineOptions::default() }
    }
}

/// A line with its style.
pub type StyledLine<T> = Styled<Line<T>, StyledLineOptions>;

/// A path with its style.
pub type StyledLineString<T> = Styled<LineString<T>, StyledLineOptions>;

/// A collection of paths with its style.
pub type StyledMultiLineString<T> = Styled<MultiLineString<T>, StyledMultiLineStringOptions>;

/// Whether drawing the path through `points` with `options` may turn the
/// canvas `before` into `after` and end in `result`: the open contour
/// through their pixel positions is bordered.
pub open spec fn path_drawn<T, R, C: Context<T, R>>(
    points: Seq<Point<T>>,
    options: StyledLineOptions,
    context: &C,
    center: &R,
    before: tiny_skia::Pixmap,
    after: tiny_skia::Pixmap,
    result: Result<(), Error>,
) -> bool {
    contour_drawn(
        points,
        false,
        options.color_options,
        false,
        context,
        center,
        before,
        after,
        result,
    )
}

impl<T: Copy, R, C: Context<T, R>> Drawable<C, R> for Styled<Line<T>, StyledLineOptions> {
    /// A line is drawn as the path from its start to its end.
    open spec fn drawn(
        &self,
        context: &C,
        center: &R,
        before: tiny_skia::Pixmap,
        after: tiny_skia::Pixmap,
        result: Result<(), Error>,
    ) -> bool {
        exists|options: StyledLineOptions| #[trigger]
            self.1.resolves(&self.0, options) && path_drawn(
                seq![self.0.start, self.0.end],
                options,
                context,
                center,
                before,
                after,
                result,
            )
    }

    fn draw(&self, context: &C, canvas: &mut tiny_skia::Pixmap, center: &R) -> (result: Result<
        (),
        Error,
    >) {
        let options = self.1.resolve(&self.0);
        let mut points: Vec<Point<T>> = Vec::new();
        points.push(self.0.start);
        points.push(self.0.end);
        proof {
            assert(points@ =~= seq![self.0.start, self.0.end]);
        }
        draw_contour(&points, false, &options.color_options, false, context, canvas, center)
    }
}

impl<T, R, C: Context<T, R>> Drawable<C, R> for Styled<LineString<T>, StyledLineOptions> {
    open spec fn drawn(
        &self,
        context: &C,
        center: &R,
        before: tiny_skia::Pixmap,
        after: tiny_skia::Pixmap,
        result: Result<(), Error>,
    ) -> bool {
        exists|options: StyledLineOptions| #[trigger]
            self.1.resolves(&self.0, options) && path_drawn(
                self.0.points@,
                options,
                context,
                center,
                before,
                after,
                result,
            )
    }

    fn draw(&self, context: &C, canvas: &mut tiny_skia::Pixmap, center: &R) -> (result: Result<
        (),
        Error,
    >) {
        let options = self.1.resolve(&self.0);
        draw_contour(
            &self.0.points,
            false,
            &options.color_options,
            false,
            context,
            canvas,
            center,
        )
    }
}

/// The draws of `paths`, each with `options`, in their order.
pub open spec fn path_steps<T, R, C: Context<T, R>>(
    paths: Seq<LineString<T>>,
    options: StyledLineOptions,
    context: &C,
    center: &R,
) -> Seq<Step> {
    Seq::new(
        paths.len(),
        |i: int|
            |before: tiny_skia::Pixmap, after: tiny_skia::Pixmap, result: Result<(), Error>|
                path_drawn(paths[i].points@, options, context, center, before, after, result),
    )
}

impl<T, R, C: Context<T, R>> Drawable<C, R> for Styled<
    MultiLineString<T>,
    StyledMultiLineStringOptions,
> {
    /// The style is resolved once, for the whole collection. Then each path
    /// is drawn with it as a single path would be, in the collection's order
    /// and on the canvas as the paths before it left it, up to the first
    /// failure.
    open spec fn drawn(
        &self,
        context: &C,
        center: &R,
        before: tiny_skia::Pixmap,
        after: tiny_skia::Pixmap,
        result: Result<(), Error>,
    ) -> bool {
        exists|options: StyledMultiLineStringOptions| #[trigger]
            self.1.resolves(&self.0, options) && each_drawn(
                path_steps(self.0.line_strings@, options.line_options, context, center),
                before,
                after,
                result,
            )
    }

    fn draw(&self, context: &C, canvas: &mut tiny_skia::Pixmap, center: &R) -> (result: Result<
        (),
        Error,
    >) {
        let options = self.1.resolve(&self.0);
        let ghost steps = path_steps(self.0.line_strings@, options.line_options, context, center);
        let ghost mut canvases = seq![*canvas];
        let mut index: usize = 0;
        while index < self.0.line_strings.len()
            invariant
                index <= self.0.line_strings.len(),
                self.1.resolves(&self.0, options),
                steps == path_steps(self.0.line_strings@, options.line_options, context, center),
                underway(steps, canvases),
                canvases.len() == index + 1,
                canvases.first() == *old(canvas),
                canvases.last() == *canvas,
            decreases self.0.line_strings.len() - index,
        {
            let step = draw_contour(
                &self.0.line_strings[index].points,
                false,
                &options.line_options.color_options,
                false,
                context,
                canvas,
                center,
            );
            proof {
                draw_made(steps, canvases, *canvas, step);
                canvases = canvases.push(*canvas);
            }
            match step {
                Ok(()) => {},
                Err(error) => {
                    return Err(error);
                },
            }
            index = index + 1;
        }
        proof {
            all_made(steps, canvases);
        }
        Ok(())
    }
}

/// A fixed style of a line or path resolves to exactly its options, whatever
/// the geometry.
pub proof fn fixed_line_style_is_exact<G>(
    fixed: StyledLineOptions,
    geometry: &G,
    options: StyledLineOptions,
)
    requires
        (Style::<G, StyledLineOptions>::Static(fixed)).resolves(geometry, options),
    ensures
        options == fixed,
{
}

/// A fixed style of a collection of paths resolves to exactly its options,
/// whatever the geometry.
pub proof fn fixed_multi_line_style_is_exact<G>(
    fixed: StyledMultiLineStringOptions,
    geometry: &G,
    options: StyledMultiLineStringOptions,
)
    requires
        (Style::<G, StyledMultiLineStringOptions>::Static(fixed)).resolves(geometry, options),
    ensures
        options == fixed,
{
}

/// A path with a fixed style is drawn as its positions are with the options
/// of that style.
pub proof fn fixed_path_is_drawn_with_its_options<T, R, C: Context<T, R>>(
    path: LineString<T>,
    options: StyledLineOptions,
    context: &C,
    center: &R,
    before: tiny_skia::Pixmap,
    after: tiny_skia::Pixmap,
    result: Result<(), Error>,
)
    ensures
        Styled(path, Style::Static(options)).drawn(context, center, before, after, result)
            == path_drawn(path.points@, options, context, center, before, after, result),
{
    let styled = Styled(path, Style::Static(options));
    assert(styled.1.resolves(&styled.0, options));
}

/// The draws of `paths` as single paths, each with `options` as its fixed
/// style, in their order.
pub open spec fn single_path_steps<T, R, C: Context<T, R>>(
    paths: Seq<LineString<T>>,
    options: StyledLineOptions,
    context: &C,
    center: &R,
) -> Seq<Step> {
    Seq::new(
        paths.len(),
        |i: int|
            |before: tiny_skia::Pixmap, after: tiny_skia::Pixmap, result: Result<(), Error>|
                Styled(paths[i], Style::Static(options)).drawn(
                    context,
                    center,
                    before,
                    after,
                    result,
                ),
    )
}

/// A collection of paths with a fixed style is drawn as its paths are, one
/// after the other in the collection's order on the same canvas, each as a
/// single path with that style's line options.
pub proof fn multi_line_string_is_drawn_as_its_paths<T, R, C: Context<T, R>>(
    paths: MultiLineString<T>,
    options: StyledMultiLineStringOptions,
    context: &C,
    center: &R,
    before: tiny_skia::Pixmap,
    after: tiny_skia::Pixmap,
    result: Result<(), Error>,
)
    ensures
        Styled(paths, Style::Static(options)).drawn(context, center, before, after, result)
            == each_drawn(
            single_path_steps(paths.line_strings@, options.line_options, context, center),
            before,
            after,
            result,
        ),
{
    let styled = Styled(paths, Style::Static(options));
    let together = path_steps(paths.line_strings@, options.line_options, context, center);
    let single = single_path_steps(paths.line_strings@, options.line_options, context, center);
    assert(styled.1.resolves(&styled.0, options));
    assert forall|i: int, from: tiny_skia::Pixmap, to: tiny_skia::Pixmap, end: Result<(), Error>|
        #![trigger (together[i])(from, to, end)]
        #![trigger (single[i])(from, to, end)]
        0 <= i < together.len() implies (together[i])(from, to, end) == (single[i])(
        from,
        to,
        end,
    ) by {
        fixed_path_is_drawn_with_its_options(
            paths.line_strings@[i],
            options.line_options,
            context,
            center,
            from,
            to,
            end,
        );
    }
    same_steps_draw_the_same(together, single, before, after, result);
}

} // verus!
