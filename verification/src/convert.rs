//! From each kind of geometry, plain or styled, to the union of the styled
//! kinds.

use crate::geometry::{
    Geometry, Line, LineString, MultiLineString, MultiPoint, MultiPolygon, Point, Polygon, Rect,
    Triangle,
};
use crate::line::{StyledLineOptions, StyledMultiLineStringOptions};
use crate::point::{StyledMultiPointOptions, StyledPointOptions};
use crate::polygon::{StyledMultiPolygonOptions, StyledPolygonOptions};
use crate::style::Style;
use crate::styled::{styled_by_default, Styled, StyledGeometry};
use vstd::prelude::*;
use vstd::std_specs::convert::FromSpecImpl;

verus! {

impl<T> From<Styled<Point<T>, StyledPointOptions>> for StyledGeometry<T> {
    /// The union holding a point with its style.
    fn from(styled: Styled<Point<T>, StyledPointOptions>) -> (out: Self) {
        StyledGeometry::Point(styled)
    }
}

impl<T> FromSpecImpl<Styled<Point<T>, StyledPointOptions>> for StyledGeometry<T> {
    open spec fn obeys_from_spec() -> bool {
        true
    }

    open spec fn from_spec(styled: Styled<Point<T>, StyledPointOptions>) -> Self {
        StyledGeometry::Point(styled)
    }
}

impl<T> From<Point<T>> for StyledGeometry<T> {
    /// The union holding a point with the default options of its kind.
    fn from(geometry: Point<T>) -> (out: Self) {
        StyledGeometry::Point(Styled(geometry, Style::Static(StyledPointOptions::default())))
    }
}

impl<T> FromSpecImpl<Point<T>> for StyledGeometry<T> {
    open spec fn obeys_from_spec() -> bool {
        true
    }

    open spec fn from_spec(geometry: Point<T>) -> Self {
        styled_by_default(Geometry::Point(geometry))
    }
}

impl<T> From<Styled<Line<T>, StyledLineOptions>> for StyledGeometry<T> {
    /// The union holding a line with its style.
    fn from(styled: Styled<Line<T>, StyledLineOptions>) -> (out: Self) {
        StyledGeometry::Line(styled)
    }
}

impl<T> FromSpecImpl<Styled<Line<T>, StyledLineOptions>> for StyledGeometry<T> {
    open spec fn obeys_from_spec() -> bool {
        true
    }

    open spec fn from_spec(styled: Styled<Line<T>, StyledLineOptions>) -> Self {
        StyledGeometry::Line(styled)
    }
}

impl<T> From<Line<T>> for StyledGeometry<T> {
    /// The union holding a line with the default options of its kind.
    fn from(geometry: Line<T>) -> (out: Self) {
        StyledGeometry::Line(Styled(geometry, Style::Static(StyledLineOptions::default())))
    }
}

impl<T> FromSpecImpl<Line<T>> for StyledGeometry<T> {
    open spec fn obeys_from_spec() -> bool {
        true
    }

    open spec fn from_spec(geometry: Line<T>) -> Self {
        styled_by_default(Geometry::Line(geometry))
    }
}

impl<T> From<Styled<LineString<T>, StyledLineOptions>> for StyledGeometry<T> {
    /// The union holding a path with its style.
    fn from(styled: Styled<LineString<T>, StyledLineOptions>) -> (out: Self) {
        StyledGeometry::LineString(styled)
    }
}

impl<T> FromSpecImpl<Styled<LineString<T>, StyledLineOptions>> for StyledGeometry<T> {
    open spec fn obeys_from_spec() -> bool {
        true
    }

    open spec fn from_spec(styled: Styled<LineString<T>, StyledLineOptions>) -> Self {
        StyledGeometry::LineString(styled)
    }
}

impl<T> From<LineString<T>> for StyledGeometry<T> {
    /// The union holding a path with the default options of its kind.
    fn from(geometry: LineString<T>) -> (out: Self) {
        StyledGeometry::LineString(Styled(geometry, Style::Static(StyledLineOptions::default())))
    }
}

impl<T> FromSpecImpl<LineString<T>> for StyledGeometry<T> {
    open spec fn obeys_from_spec() -> bool {
        true
    }

    open spec fn from_spec(geometry: LineString<T>) -> Self {
        styled_by_default(Geometry::LineString(geometry))
    }
}

impl<T> From<Styled<Polygon<T>, StyledPolygonOptions>> for StyledGeometry<T> {
    /// The union holding a polygon with its style.
    fn from(styled: Styled<Polygon<T>, StyledPolygonOptions>) -> (out: Self) {
        StyledGeometry::Polygon(styled)
    }
}

impl<T> FromSpecImpl<Styled<Polygon<T>, StyledPolygonOptions>> for StyledGeometry<T> {
    open spec fn obeys_from_spec() -> bool {
        true
    }

    open spec fn from_spec(styled: Styled<Polygon<T>, StyledPolygonOptions>) -> Self {
        StyledGeometry::Polygon(styled)
    }
}

impl<T> From<Polygon<T>> for StyledGeometry<T> {
    /// The union holding a polygon with the default options of its kind.
    fn from(geometry: Polygon<T>) -> (out: Self) {
        StyledGeometry::Polygon(Styled(geometry, Style::Static(StyledPolygonOptions::default())))
    }
}

impl<T> FromSpecImpl<Polygon<T>> for StyledGeometry<T> {
    open spec fn obeys_from_spec() -> bool {
        true
    }

    open spec fn from_spec(geometry: Polygon<T>) -> Self {
        styled_by_default(Geometry::Polygon(geometry))
    }
}

impl<T> From<Styled<MultiPoint<T>, StyledMultiPointOptions>> for StyledGeometry<T> {
    /// The union holding a collection of points with its style.
    fn from(styled: Styled<MultiPoint<T>, StyledMultiPointOptions>) -> (out: Self) {
        StyledGeometry::MultiPoint(styled)
    }
}

impl<T> FromSpecImpl<Styled<MultiPoint<T>, StyledMultiPointOptions>> for StyledGeometry<T> {
    open spec fn obeys_from_spec() -> bool {
        true
    }

    open spec fn from_spec(styled: Styled<MultiPoint<T>, StyledMultiPointOptions>) -> Self {
        StyledGeometry::MultiPoint(styled)
    }
}

impl<T> From<MultiPoint<T>> for StyledGeometry<T> {
    /// The union holding a collection of points with the default options of its kind.
    fn from(geometry: MultiPoint<T>) -> (out: Self) {
        StyledGeometry::MultiPoint(
            Styled(geometry, Style::Static(StyledMultiPointOptions::default())),
        )
    }
}

impl<T> FromSpecImpl<MultiPoint<T>> for StyledGeometry<T> {
    open spec fn obeys_from_spec() -> bool {
        true
    }

    open spec fn from_spec(geometry: MultiPoint<T>) -> Self {
        styled_by_default(Geometry::MultiPoint(geometry))
    }
}

impl<T> From<Styled<MultiLineString<T>, StyledMultiLineStringOptions>> for StyledGeometry<
    T,
> {
    /// The union holding a collection of paths with its style.
    fn from(styled: Styled<MultiLineString<T>, StyledMultiLineStringOptions>) -> (out: Self) {
        StyledGeometry::MultiLineString(styled)
    }
}

impl<T> FromSpecImpl<Styled<MultiLineString<T>, StyledMultiLineStringOptions>> for StyledGeometry<
    T,
> {
    open spec fn obeys_from_spec() -> bool {
        true
    }

    open spec fn from_spec(
        styled: Styled<MultiLineString<T>, StyledMultiLineStringOptions>,
    ) -> Self {
        StyledGeometry::MultiLineString(styled)
    }
}

impl<T> From<MultiLineString<T>> for StyledGeometry<T> {
    /// The union holding a collection of paths with the default options of its kind.
    fn from(geometry: MultiLineString<T>) -> (out: Self) {
        StyledGeometry::MultiLineString(
            Styled(geometry, Style::Static(StyledMultiLineStringOptions::default())),
        )
    }
}

impl<T> FromSpecImpl<MultiLineString<T>> for StyledGeometry<T> {
    open spec fn obeys_from_spec() -> bool {
        true
    }

    open spec fn from_spec(geometry: MultiLineString<T>) -> Self {
        styled_by_default(Geometry::MultiLineString(geometry))
    }
}

impl<T> From<Styled<MultiPolygon<T>, StyledMultiPolygonOptions>> for StyledGeometry<T> {
    /// The union holding a collection of polygons with its style.
    fn from(styled: Styled<MultiPolygon<T>, StyledMultiPolygonOptions>) -> (out: Self) {
        StyledGeometry::MultiPolygon(styled)
    }
}

impl<T> FromSpecImpl<Styled<MultiPolygon<T>, StyledMultiPolygonOptions>> for StyledGeometry<T> {
    open spec fn obeys_from_spec() -> bool {
        true
    }

    open spec fn from_spec(styled: Styled<MultiPolygon<T>, StyledMultiPolygonOptions>) -> Self {
        StyledGeometry::MultiPolygon(styled)
    }
}

impl<T> From<MultiPolygon<T>> for StyledGeometry<T> {
    /// The union holding a collection of polygons with the default options of its kind.
    fn from(geometry: MultiPolygon<T>) -> (out: Self) {
        StyledGeometry::MultiPolygon(
            Styled(geometry, Style::Static(StyledMultiPolygonOptions::default())),
        )
    }
}

impl<T> FromSpecImpl<MultiPolygon<T>> for StyledGeometry<T> {
    open spec fn obeys_from_spec() -> bool {
        true
    }

    open spec fn from_spec(geometry: MultiPolygon<T>) -> Self {
        styled_by_default(Geometry::MultiPolygon(geometry))
    }
}

impl<T> From<Styled<Rect<T>, StyledPolygonOptions>> for StyledGeometry<T> {
    /// The union holding a rectangle with its style.
    fn from(styled: Styled<Rect<T>, StyledPolygonOptions>) -> (out: Self) {
        StyledGeometry::Rect(styled)
    }
}

impl<T> FromSpecImpl<Styled<Rect<T>, StyledPolygonOptions>> for StyledGeometry<T> {
    open spec fn obeys_from_spec() -> bool {
        true
    }

    open spec fn from_spec(styled: Styled<Rect<T>, StyledPolygonOptions>) -> Self {
        StyledGeometry::Rect(styled)
    }
}

impl<T> From<Rect<T>> for StyledGeometry<T> {
    /// The union holding a rectangle with the default options of its kind.
    fn from(geometry: Rect<T>) -> (out: Self) {
        StyledGeometry::Rect(Styled(geometry, Style::Static(StyledPolygonOptions::default())))
    }
}

impl<T> FromSpecImpl<Rect<T>> for StyledGeometry<T> {
    open spec fn obeys_from_spec() -> bool {
        true
    }

    open spec fn from_spec(geometry: Rect<T>) -> Self {
        styled_by_default(Geometry::Rect(geometry))
    }
}

impl<T> From<Styled<Triangle<T>, StyledPolygonOptions>> for StyledGeometry<T> {
    /// The union holding a triangle with its style.
    fn from(styled: Styled<Triangle<T>, StyledPolygonOptions>) -> (out: Self) {
        StyledGeometry::Triangle(styled)
    }
}

impl<T> FromSpecImpl<Styled<Triangle<T>, StyledPolygonOptions>> for StyledGeometry<T> {
    open spec fn obeys_from_spec() -> bool {
        true
    }

    open spec fn from_spec(styled: Styled<Triangle<T>, StyledPolygonOptions>) -> Self {
        StyledGeometry::Triangle(styled)
    }
}

impl<T> From<Triangle<T>> for StyledGeometry<T> {
    /// The union holding a triangle with the default options of its kind.
    fn from(geometry: Triangle<T>) -> (out: Self) {
        StyledGeometry::Triangle(Styled(geometry, Style::Static(StyledPolygonOptions::default())))
    }
}

impl<T> FromSpecImpl<Triangle<T>> for StyledGeometry<T> {
    open spec fn obeys_from_spec() -> bool {
        true
    }

    open spec fn from_spec(geometry: Triangle<T>) -> Self {
        styled_by_default(Geometry::Triangle(geometry))
    }
}

} // verus!
