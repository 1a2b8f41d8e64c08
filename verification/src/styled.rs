//! A geometry together with its style, and the union of all styled kinds.

use crate::drawable::{Context, Drawable};
use crate::error::Error;
use crate::geometry::{
    Geometry, Line, LineString, MultiLineString, MultiPoint, MultiPolygon, Point, Polygon, Rect,
    Triangle,
};
use crate::line::{StyledLineOptions, StyledMultiLineStringOptions};
use crate::point::{StyledMultiPointOptions, StyledPointOptions};
use crate::polygon::{StyledMultiPolygonOptions, StyledPolygonOptions};
use crate::style::{ColorOptions, Style};
use vstd::prelude::*;
use vstd::std_specs::convert::FromSpecImpl;

verus! {

/// A geometry of kind `G` and the style that gives it options of kind `O`.
#[verifier::reject_recursive_types(G)]
#[verifier::reject_recursive_types(O)]
pub struct Styled<G, O>(pub G, pub Style<G, O>);

impl<G, O> Styled<G, O> {
    /// The geometry that is styled.
    pub fn geometry(&self) -> (out: &G)
        ensures
            *out == self.0,
    {
        &self.0
    }

    /// The geometry that is styled, to be changed in place. The style stays.
    pub fn geometry_mut(&mut self) -> (out: &mut G)
        ensures
            *out == old(self).0,
            final(self).0 == *final(out),
            final(self).1 == old(self).1,
    {
        &mut self.0
    }

    /// The style of the geometry.
    pub fn style(&self) -> (out: &Style<G, O>)
        ensures
            *out == self.1,
    {
        &self.1
    }

    /// The geometry alone.
    pub fn into_geometry(self) -> (out: G)
        ensures
            out == self.0,
    {
        self.0
    }
}

impl<G, O: Default> From<G> for Styled<G, O> {
    /// The geometry with the default options of its kind, as a fixed style.
    fn from(geometry: G) -> (out: Self)
        ensures
            out.0 == geometry,
            out.1 matches Style::Static(options) && call_ensures(O::default, (), options),
    {
        Styled(geometry, Style::Static(O::default()))
    }
}

impl<G, O: Default> FromSpecImpl<G> for Styled<G, O> {
    /// What `default` returns is not known of every kind of options, so the
    /// conversion has no value in specifications: what it returns is stated
    /// on the conversion itself.
    open spec fn obeys_from_spec() -> bool {
        false
    }

    open spec fn from_spec(geometry: G) -> Self {
        arbitrary()
    }
}

/// Any one of the styled kinds.
#[verifier::reject_recursive_types(T)]
pub enum StyledGeometry<T> {
    Point(Styled<Point<T>, StyledPointOptions>),
    Line(Styled<Line<T>, StyledLineOptions>),
    LineString(Styled<LineString<T>, StyledLineOptions>),
    Polygon(Styled<Polygon<T>, StyledPolygonOptions>),
    MultiPoint(Styled<MultiPoint<T>, StyledMultiPointOptions>),
    MultiLineString(Styled<MultiLineString<T>, StyledMultiLineStringOptions>),
    MultiPolygon(Styled<MultiPolygon<T>, StyledMultiPolygonOptions>),
    Rect(Styled<Rect<T>, StyledPolygonOptions>),
    Triangle(Styled<Triangle<T>, StyledPolygonOptions>),
}

impl<T: Copy, R, C: Context<T, R>> Drawable<C, R> for StyledGeometry<T> where
    C::Image: Drawable<C, R>,
 {
    /// The draw of the kind that is held, and nothing else.
    open spec fn drawn(
        &self,
        context: &C,
        center: &R,
        before: tiny_skia::Pixmap,
        after: tiny_skia::Pixmap,
        result: Result<(), Error>,
    ) -> bool {
        match self {
            StyledGeometry::Point(styled) => styled.drawn(context, center, before, after, result),
            StyledGeometry::Line(styled) => styled.drawn(context, center, before, after, result),
            StyledGeometry::LineString(styled) => styled.drawn(
                context,
                center,
                before,
                after,
                result,
            ),
            StyledGeometry::Polygon(styled) => styled.drawn(context, center, before, after, result),
            StyledGeometry::MultiPoint(styled) => styled.drawn(
                context,
                center,
                before,
                after,
                result,
            ),
            StyledGeometry::MultiLineString(styled) => styled.drawn(
                context,
                center,
                before,
                after,
                result,
            ),
            StyledGeometry::MultiPolygon(styled) => styled.drawn(
                context,
                center,
                before,
                after,
                result,
            ),
            StyledGeometry::Rect(styled) => styled.drawn(context, center, before, after, result),
            StyledGeometry::Triangle(styled) => styled.drawn(
                context,
                center,
                before,
                after,
                result,
            ),
        }
    }

    fn draw(&self, context: &C, canvas: &mut tiny_skia::Pixmap, center: &R) -> (result: Result<
        (),
        Error,
    >) {
        match self {
            StyledGeometry::Point(styled) => styled.draw(context, canvas, center),
            StyledGeometry::Line(styled) => styled.draw(context, canvas, center),
            StyledGeometry::LineString(styled) => styled.draw(context, canvas, center),
            StyledGeometry::Polygon(styled) => styled.draw(context, canvas, center),
            StyledGeometry::MultiPoint(styled) => styled.draw(context, canvas, center),
            StyledGeometry::MultiLineString(styled) => styled.draw(context, canvas, center),
            StyledGeometry::MultiPolygon(styled) => styled.draw(context, canvas, center),
            StyledGeometry::Rect(styled) => styled.draw(context, canvas, center),
            StyledGeometry::Triangle(styled) => styled.draw(context, canvas, center),
        }
    }
}

/// The geometry of `styled`, of the same kind and without its style.
pub open spec fn unstyled<T>(styled: StyledGeometry<T>) -> Geometry<T> {
    match styled {
        StyledGeometry::Point(styled) => Geometry::Point(styled.0),
        StyledGeometry::Line(styled) => Geometry::Line(styled.0),
        StyledGeometry::LineString(styled) => Geometry::LineString(styled.0),
        StyledGeometry::Polygon(styled) => Geometry::Polygon(styled.0),
        StyledGeometry::MultiPoint(styled) => Geometry::MultiPoint(styled.0),
        StyledGeometry::MultiLineString(styled) => Geometry::MultiLineString(styled.0),
        StyledGeometry::MultiPolygon(styled) => Geometry::MultiPolygon(styled.0),
        StyledGeometry::Rect(styled) => Geometry::Rect(styled.0),
        StyledGeometry::Triangle(styled) => Geometry::Triangle(styled.0),
    }
}

/// `geometry` with the default options of its kind, as a fixed style.
pub open spec fn styled_by_default<T>(geometry: Geometry<T>) -> StyledGeometry<T> {
    let line = StyledLineOptions { color_options: ColorOptions::standard() };
    let polygon = StyledPolygonOptions { color_options: ColorOptions::standard() };
    match geometry {
        Geometry::Point(point) => StyledGeometry::Point(
            Styled(point, Style::Static(StyledPointOptions::standard())),
        ),
        Geometry::Line(raw) => StyledGeometry::Line(Styled(raw, Style::Static(line))),
        Geometry::LineString(raw) => StyledGeometry::LineString(Styled(raw, Style::Static(line))),
        Geometry::Polygon(raw) => StyledGeometry::Polygon(Styled(raw, Style::Static(polygon))),
        Geometry::MultiPoint(raw) => StyledGeometry::MultiPoint(
            Styled(
                raw,
                Style::Static(
                    StyledMultiPointOptions { point_options: StyledPointOptions::standard() },
                ),
            ),
        ),
        Geometry::MultiLineString(raw) => StyledGeometry::MultiLineString(
            Styled(raw, Style::Static(StyledMultiLineStringOptions { line_options: line })),
        ),
        Geometry::MultiPolygon(raw) => StyledGeometry::MultiPolygon(
            Styled(raw, Style::Static(StyledMultiPolygonOptions { polygon_options: polygon })),
        ),
        Geometry::Rect(raw) => StyledGeometry::Rect(Styled(raw, Style::Static(polygon))),
        Geometry::Triangle(raw) => StyledGeometry::Triangle(Styled(raw, Style::Static(polygon))),
    }
}

impl<T> From<StyledGeometry<T>> for Geometry<T> {
    /// Drops the style and keeps the geometry.
    fn from(styled: StyledGeometry<T>) -> (out: Self) {
        match styled {
            StyledGeometry::Point(styled) => Geometry::Point(styled.0),
            StyledGeometry::Line(styled) => Geometry::Line(styled.0),
            StyledGeometry::LineString(styled) => Geometry::LineString(styled.0),
            StyledGeometry::Polygon(styled) => Geometry::Polygon(styled.0),
            StyledGeometry::MultiPoint(styled) => Geometry::MultiPoint(styled.0),
            StyledGeometry::MultiLineString(styled) => Geometry::MultiLineString(styled.0),
            StyledGeometry::MultiPolygon(styled) => Geometry::MultiPolygon(styled.0),
            StyledGeometry::Rect(styled) => Geometry::Rect(styled.0),
            StyledGeometry::Triangle(styled) => Geometry::Triangle(styled.0),
        }
    }
}

impl<T> FromSpecImpl<StyledGeometry<T>> for Geometry<T> {
    open spec fn obeys_from_spec() -> bool {
        true
    }

    open spec fn from_spec(styled: StyledGeometry<T>) -> Self {
        unstyled(styled)
    }
}

impl<T> From<Geometry<T>> for StyledGeometry<T> {
    /// Gives the geometry the default options of its kind.
    fn from(geometry: Geometry<T>) -> (out: Self) {
        match geometry {
            Geometry::Point(raw) => StyledGeometry::Point(
                Styled(raw, Style::Static(StyledPointOptions::default())),
            ),
            Geometry::Line(raw) => StyledGeometry::Line(
                Styled(raw, Style::Static(StyledLineOptions::default())),
            ),
            Geometry::LineString(raw) => StyledGeometry::LineString(
                Styled(raw, Style::Static(StyledLineOptions::default())),
            ),
            Geometry::Polygon(raw) => StyledGeometry::Polygon(
                Styled(raw, Style::Static(StyledPolygonOptions::default())),
            ),
            Geometry::MultiPoint(raw) => StyledGeometry::MultiPoint(
                Styled(raw, Style::Static(StyledMultiPointOptions::default())),
            ),
            Geometry::MultiLineString(raw) => StyledGeometry::MultiLineString(
                Styled(raw, Style::Static(StyledMultiLineStringOptions::default())),
            ),
            Geometry::MultiPolygon(raw) => StyledGeometry::MultiPolygon(
                Styled(raw, Style::Static(StyledMultiPolygonOptions::default())),
            ),
            Geometry::Rect(raw) => StyledGeometry::Rect(
                Styled(raw, Style::Static(StyledPolygonOptions::default())),
            ),
            Geometry::Triangle(raw) => StyledGeometry::Triangle(
                Styled(raw, Style::Static(StyledPolygonOptions::default())),
            ),
        }
    }
}

impl<T> FromSpecImpl<Geometry<T>> for StyledGeometry<T> {
    open spec fn obeys_from_spec() -> bool {
        true
    }

    open spec fn from_spec(geometry: Geometry<T>) -> Self {
        styled_by_default(geometry)
    }
}

/// Whatever its style, a styled geometry converts to the plain geometry it
/// was made from, of the same kind.
pub proof fn unstyled_is_the_raw_geometry<T>(styled: StyledGeometry<T>)
    ensures
        match styled {
            StyledGeometry::Point(inner) => unstyled(styled) == Geometry::Point(inner.0),
            StyledGeometry::Line(inner) => unstyled(styled) == Geometry::Line(inner.0),
            StyledGeometry::LineString(inner) => unstyled(styled) == Geometry::LineString(inner.0),
            StyledGeometry::Polygon(inner) => unstyled(styled) == Geometry::Polygon(inner.0),
            StyledGeometry::MultiPoint(inner) => unstyled(styled) == Geometry::MultiPoint(inner.0),
            StyledGeometry::MultiLineString(inner) => unstyled(styled)
                == Geometry::MultiLineString(inner.0),
            StyledGeometry::MultiPolygon(inner) => unstyled(styled) == Geometry::MultiPolygon(
                inner.0,
            ),
            StyledGeometry::Rect(inner) => unstyled(styled) == Geometry::Rect(inner.0),
            StyledGeometry::Triangle(inner) => unstyled(styled) == Geometry::Triangle(inner.0),
        },
{
}

/// Styling a geometry by default and dropping the style again gives the
/// geometry back.
pub proof fn styling_keeps_the_geometry<T>(geometry: Geometry<T>)
    ensures
        unstyled(styled_by_default(geometry)) == geometry,
{
}

} // verus!
