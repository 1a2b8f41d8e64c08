//! Styled geometries and how they are drawn onto a raster canvas.
//!
//! A geometry (a point, a line, a polygon, or a collection of them) is
//! paired with a [`style::Style`], which gives the options it is drawn with:
//! the same for every geometry, or computed from the geometry that is being
//! drawn. Every styled kind, and the union of them all, is a
//! [`drawable::Drawable`]: it draws itself onto a `tiny_skia::Pixmap`, given
//! a [`drawable::Context`] that projects its coordinates to pixels.
//!
//! What a draw does is stated as a relation between the canvas before and
//! after it and its result. The rasterizer itself is not described: what it
//! makes of an outline has a name, and the contracts say which outline is
//! filled or stroked, with which paint, in which order, on which canvas.
//!
//! Numbers in pixel space (positions, radii, widths) are floating-point
//! numbers to the rasterizer. Here they are [`scalar::Scalar`]s, which hold
//! the bits of such a number: they are compared and classified, and handed
//! on as they are.

pub mod canvas;
pub mod contour;
pub mod convert;
pub mod drawable;
pub mod error;
pub mod geometry;
pub mod line;
pub mod outline;
pub mod point;
pub mod polygon;
pub mod scalar;
pub mod shape;
pub mod style;
pub mod styled;
