//! Plain geometry values: what a styled wrapper wraps.
//!
//! The coordinate type `T` is never computed with here. A coordinate reaches
//! pixel space only through the projection of a draw's context.

use vstd::prelude::*;

verus! {

/// A position in the coordinate space of the geometry.
#[derive(Clone, Copy, Debug, PartialEq)]
pub struct Point<T> {
    pub x: T,
    pub y: T,
}

/// A segment between two positions.
#[derive(Clone, Copy, Debug, PartialEq)]
pub struct Line<T> {
    pub start: Point<T>,
    pub end: Point<T>,
}

/// A path through its positions, in order.
#[derive(Clone, Debug, PartialEq)]
pub struct LineString<T> {
    pub points: Vec<Point<T>>,
}

/// An area bounded by an exterior ring, with interior rings cut out.
#[derive(Clone, Debug, PartialEq)]
pub struct Polygon<T> {
    pub exterior: LineString<T>,
    pub interiors: Vec<LineString<T>>,
}

/// A collection of positions.
#[derive(Clone, Debug, PartialEq)]
pub struct MultiPoint<T> {
    pub points: Vec<Point<T>>,
}

/// A collection of paths.
#[derive(Clone, Debug, PartialEq)]
pub struct MultiLineString<T> {
    pub line_strings: Vec<LineString<T>>,
}

/// A collection of areas.
#[derive(Clone, Debug, PartialEq)]
pub struct MultiPolygon<T> {
    pub polygons: Vec<Polygon<T>>,
}

/// An axis-aligned rectangle between two opposite corners.
#[derive(Clone, Copy, Debug, PartialEq)]
pub struct Rect<T> {
    pub min: Point<T>,
    pub max: Point<T>,
}

/// The area between three positions.
#[derive(Clone, Copy, Debug, PartialEq)]
pub struct Triangle<T> {
    pub first: Point<T>,
    pub second: Point<T>,
    pub third: Point<T>,
}

/// Any one of the geometry kinds, without a style.
#[derive(Clone, Debug, PartialEq)]
pub enum Geometry<T> {
    Point(Point<T>),
    Line(Line<T>),
    LineString(LineString<T>),
    Polygon(Polygon<T>),
    MultiPoint(MultiPoint<T>),
    MultiLineString(MultiLineString<T>),
    MultiPolygon(MultiPolygon<T>),
    Rect(Rect<T>),
    Triangle(Triangle<T>),
}

/// A position on the canvas, in pixels from its top-left corner.
#[derive(Clone, Copy, Debug, PartialEq, Eq, Structural)]
pub struct PixelPoint {
    pub x: crate::scalar::Scalar,
    pub y: crate::scalar::Scalar,
}

} // verus!
