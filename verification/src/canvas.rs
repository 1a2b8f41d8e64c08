//! The canvas and the two ways of painting an outline onto it.
//!
//! What the rasterizer makes of an outline is not described here. It has a
//! name, `filled` or `stroked`: the bytes after are those that the
//! rasterizer computes from the bytes before, the outline and the paint,
//! and from nothing else. The two functions marked `external_body` are the
//! calls into it; their contracts are not proved.

use crate::outline::{path_segments, Segment};
use crate::scalar::Scalar;
use crate::style::{Color, ColorOptions};
use vstd::prelude::*;

verus! {

#[verifier::external_type_specification]
#[verifier::external_body]
pub struct ExPixmap(tiny_skia::Pixmap);

/// The bytes of a canvas: four per pixel, row after row.
pub uninterp spec fn canvas_pixels(canvas: tiny_skia::Pixmap) -> Seq<u8>;

/// The number of pixels in a row of a canvas.
pub uninterp spec fn canvas_width(canvas: tiny_skia::Pixmap) -> u32;

/// The bytes of a canvas of the given width after `outline` has been filled
/// with `color`, by the non-zero winding rule and without a transform or a
/// mask.
pub uninterp spec fn filled(
    pixels: Seq<u8>,
    width: u32,
    outline: Seq<Segment>,
    color: Color,
    anti_alias: bool,
) -> Seq<u8>;

/// The bytes of a canvas of the given width after `outline` has been stroked
/// with `color` by a solid line of the given width, without a transform or a
/// mask.
pub uninterp spec fn stroked(
    pixels: Seq<u8>,
    width: u32,
    outline: Seq<Segment>,
    color: Color,
    anti_alias: bool,
    line: Scalar,
) -> Seq<u8>;

/// What a canvas holds.
pub struct Raster {
    pub width: u32,
    pub pixels: Seq<u8>,
}

/// What `canvas` holds.
pub open spec fn raster(canvas: tiny_skia::Pixmap) -> Raster {
    Raster { width: canvas_width(canvas), pixels: canvas_pixels(canvas) }
}

impl Raster {
    /// This raster with `outline` filled.
    pub open spec fn fill(self, outline: Seq<Segment>, color: Color, anti_alias: bool) -> Raster {
        Raster {
            width: self.width,
            pixels: filled(self.pixels, self.width, outline, color, anti_alias),
        }
    }

    /// This raster with `outline` stroked.
    pub open spec fn stroke(
        self,
        outline: Seq<Segment>,
        color: Color,
        anti_alias: bool,
        line: Scalar,
    ) -> Raster {
        Raster {
            width: self.width,
            pixels: stroked(self.pixels, self.width, outline, color, anti_alias, line),
        }
    }

    /// This raster with the border of `outline` drawn over it: a stroke in
    /// the background colour, where a border width is set and is a number.
    pub open spec fn border(self, outline: Seq<Segment>, colors: ColorOptions) -> Raster {
        match colors.border {
            Some(line) if !line.nan() => self.stroke(
                outline,
                colors.background,
                colors.anti_alias,
                line,
            ),
            _ => self,
        }
    }

    /// This raster with `outline` painted in `colors`. An area is filled in
    /// the foreground colour first; then comes the border, so that it lies
    /// over the fill. A boundary has only its border.
    pub open spec fn paint(
        self,
        outline: Seq<Segment>,
        colors: ColorOptions,
        area: bool,
    ) -> Raster {
        if area {
            self.fill(outline, colors.foreground, colors.anti_alias).border(outline, colors)
        } else {
            self.border(outline, colors)
        }
    }
}

/// `tiny_skia::Pixmap::fill_path` with a solid colour, the default fill rule
/// and transform and no mask: the canvas keeps its width, and its bytes
/// become those that the rasterizer computes from the bytes before, the
/// outline and the paint.
#[verifier::external_body]
pub(crate) fn fill_path(
    canvas: &mut tiny_skia::Pixmap,
    outline: &tiny_skia::Path,
    color: Color,
    anti_alias: bool,
)
    ensures
        canvas_width(*final(canvas)) == canvas_width(*old(canvas)),
        canvas_pixels(*final(canvas)) == filled(
            canvas_pixels(*old(canvas)),
            canvas_width(*old(canvas)),
            path_segments(*outline),
            color,
            anti_alias,
        ),
{
    let solid = tiny_skia::Color::from_rgba8(color.red, color.green, color.blue, color.alpha);
    let paint = tiny_skia::Paint {
        shader: tiny_skia::Shader::SolidColor(solid),
        anti_alias,
        ..tiny_skia::Paint::default()
    };
    let rule = tiny_skia::FillRule::default();
    canvas.fill_path(outline, &paint, rule, tiny_skia::Transform::default(), None);
}

/// `tiny_skia::Pixmap::stroke_path` with a solid colour, a stroke of the
/// given width that is otherwise the default one, the default transform and
/// no mask: the canvas keeps its width, and its bytes become those that the
/// rasterizer computes from the bytes before, the outline, the paint and the
/// width. A width that is a NaN is left out: the rasterizer asserts against
/// it.
#[verifier::external_body]
pub(crate) fn stroke_path(
    canvas: &mut tiny_skia::Pixmap,
    outline: &tiny_skia::Path,
    color: Color,
    anti_alias: bool,
    line: Scalar,
)
    requires
        !line.nan(),
    ensures
        canvas_width(*final(canvas)) == canvas_width(*old(canvas)),
        canvas_pixels(*final(canvas)) == stroked(
            canvas_pixels(*old(canvas)),
            canvas_width(*old(canvas)),
            path_segments(*outline),
            color,
            anti_alias,
            line,
        ),
{
    let solid = tiny_skia::Color::from_rgba8(color.red, color.green, color.blue, color.alpha);
    let paint = tiny_skia::Paint {
        shader: tiny_skia::Shader::SolidColor(solid),
        anti_alias,
        ..tiny_skia::Paint::default()
    };
    let stroke = tiny_skia::Stroke { width: bytemuck::cast(line.bits), ..Default::default() };
    canvas.stroke_path(outline, &paint, &stroke, tiny_skia::Transform::default(), None);
}

/// Paints `outline` in `colors`: the fill of an area first, then the border.
pub fn paint_outline(
    canvas: &mut tiny_skia::Pixmap,
    outline: &tiny_skia::Path,
    colors: &ColorOptions,
    area: bool,
)
    ensures
        raster(*final(canvas)) == raster(*old(canvas)).paint(
            path_segments(*outline),
            *colors,
            area,
        ),
{
    if area {
        fill_path(canvas, outline, colors.foreground, colors.anti_alias);
    }
    match colors.border {
        Some(line) => {
            if !line.is_nan() {
                stroke_path(canvas, outline, colors.background, colors.anti_alias, line);
            }
        },
        None => {},
    }
}

} // verus!
