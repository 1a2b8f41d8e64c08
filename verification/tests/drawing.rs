use snapper::drawable::{Context, Drawable, ImageOptions};
use snapper::error::Error;
use snapper::geometry::{MultiPoint, PixelPoint, Point};
use snapper::point::{
    draw_shape, Representation, StyledMultiPoint, StyledMultiPointOptions, StyledPoint,
    StyledPointOptions,
};
use snapper::scalar::Scalar;
use snapper::shape::Shape;
use snapper::style::{Color, ColorOptions, Style};
use snapper::styled::{Styled, StyledGeometry};
use tiny_skia::Pixmap;

const RED: Color = Color { red: 255, green: 0, blue: 0, alpha: 255 };
const BLUE: Color = Color { red: 0, green: 0, blue: 255, alpha: 255 };
const GREEN: Color = Color { red: 0, green: 255, blue: 0, alpha: 255 };

fn scalar(value: f32) -> Scalar {
    Scalar::from_bits(value.to_bits())
}

/// A canvas of 100 by 100 pixels on which one unit of the geometry is one
/// pixel, with the reference point at its centre and y growing upwards.
struct Sheet;

/// A square of five by five green pixels around its anchor.
struct Stamp {
    x: f32,
    y: f32,
}

impl Context<f64, Point<f64>> for Sheet {
    type Image = Stamp;

    fn project(&self, center: &Point<f64>, point: &Point<f64>) -> Result<PixelPoint, Error> {
        if !point.x.is_finite() || !point.y.is_finite() {
            return Err(Error::Projection(format!("({}, {})", point.x, point.y)));
        }
        let x = 50.0 + (point.x - center.x);
        let y = 50.0 - (point.y - center.y);
        Ok(PixelPoint { x: scalar(x as f32), y: scalar(y as f32) })
    }

    fn image(&self, options: &ImageOptions, anchor: &PixelPoint) -> Result<Stamp, Error> {
        if options.markup == "stamp" {
            Ok(Stamp { x: f32::from_bits(anchor.x.bits), y: f32::from_bits(anchor.y.bits) })
        } else {
            Err(Error::ExternalImage(options.markup.clone()))
        }
    }
}

impl Drawable<Sheet, Point<f64>> for Stamp {
    fn draw(&self, _: &Sheet, canvas: &mut Pixmap, _: &Point<f64>) -> Result<(), Error> {
        let rect = tiny_skia::Rect::from_xywh(self.x - 2.5, self.y - 2.5, 5.0, 5.0)
            .ok_or(Error::ExternalImage(format!("no room")))?;
        let mut paint = tiny_skia::Paint::default();
        paint.set_color_rgba8(0, 255, 0, 255);
        paint.anti_alias = false;
        canvas.fill_rect(rect, &paint, tiny_skia::Transform::identity(), None);
        Ok(())
    }
}

fn sheet() -> Pixmap {
    Pixmap::new(100, 100).unwrap()
}

fn origin() -> Point<f64> {
    Point { x: 10.0, y: 20.0 }
}

fn color_at(canvas: &Pixmap, x: u32, y: u32) -> Color {
    let pixel = canvas.pixel(x, y).unwrap();
    Color { red: pixel.red(), green: pixel.green(), blue: pixel.blue(), alpha: pixel.alpha() }
}

const CLEAR: Color = Color { red: 0, green: 0, blue: 0, alpha: 0 };

fn colors(border: Option<f32>) -> ColorOptions {
    ColorOptions {
        foreground: RED,
        background: BLUE,
        border: border.map(scalar),
        anti_alias: false,
    }
}

fn disc(radius: f32, border: Option<f32>) -> StyledPointOptions {
    StyledPointOptions {
        color_options: colors(border),
        representation: Representation::Shape(Shape::Circle { radius: scalar(radius) }),
    }
}

fn image(markup: &str) -> StyledPointOptions {
    StyledPointOptions {
        color_options: colors(Some(1.0)),
        representation: Representation::ExternalImage(ImageOptions {
            markup: markup.to_string(),
        }),
    }
}

fn point_at(x: f64, y: f64, options: StyledPointOptions) -> StyledPoint<f64> {
    Styled(Point { x, y }, Style::Static(options))
}

fn assert_disc(canvas: &Pixmap, cx: i32, cy: i32, radius: i32, color: Color) {
    for y in 0..100i32 {
        for x in 0..100i32 {
            let dx = (x - cx) as f32 + 0.5;
            let dy = (y - cy) as f32 + 0.5;
            let distance = (dx * dx + dy * dy).sqrt();
            let found = color_at(canvas, x as u32, y as u32);
            if distance < radius as f32 - 1.0 {
                assert_eq!(found, color, "inside at ({x}, {y})");
            } else if distance > radius as f32 + 1.0 {
                assert_eq!(found, CLEAR, "outside at ({x}, {y})");
            }
        }
    }
}

#[test]
fn point_at_the_reference_is_a_disc_at_the_centre() {
    let mut canvas = sheet();
    let styled = point_at(10.0, 20.0, disc(4.0, None));
    assert_eq!(styled.draw(&Sheet, &mut canvas, &origin()), Ok(()));
    assert_disc(&canvas, 50, 50, 4, RED);
    assert_eq!(color_at(&canvas, 50, 50), RED);
    assert_eq!(color_at(&canvas, 47, 50), RED);
    assert_eq!(color_at(&canvas, 50, 52), RED);
    assert_eq!(color_at(&canvas, 56, 50), CLEAR);
    assert_eq!(color_at(&canvas, 50, 43), CLEAR);
}

#[test]
fn point_is_drawn_where_it_projects() {
    let mut canvas = sheet();
    let styled = point_at(30.0, 0.0, disc(3.0, None));
    assert_eq!(styled.draw(&Sheet, &mut canvas, &origin()), Ok(()));
    assert_disc(&canvas, 70, 70, 3, RED);
}

#[test]
fn border_lies_over_the_fill_and_leaves_its_inside() {
    let mut canvas = sheet();
    let styled = point_at(10.0, 20.0, disc(10.0, Some(2.0)));
    assert_eq!(styled.draw(&Sheet, &mut canvas, &origin()), Ok(()));
    assert_eq!(color_at(&canvas, 50, 50), RED);
    assert_eq!(color_at(&canvas, 45, 50), RED);
    assert_eq!(color_at(&canvas, 50, 56), RED);
    assert_eq!(color_at(&canvas, 59, 50), BLUE);
    assert_eq!(color_at(&canvas, 40, 50), BLUE);
    assert_eq!(color_at(&canvas, 50, 59), BLUE);
    assert_eq!(color_at(&canvas, 50, 40), BLUE);
    assert_eq!(color_at(&canvas, 62, 50), CLEAR);
    let mut red = 0;
    let mut blue = 0;
    for y in 0..100 {
        for x in 0..100 {
            let found = color_at(&canvas, x, y);
            if found == RED {
                red += 1;
            } else if found == BLUE {
                blue += 1;
            } else {
                assert_eq!(found, CLEAR);
            }
        }
    }
    assert!(red > 200, "{red} pixels of the fill are left");
    assert!(blue > 80, "{blue} pixels of border");
}

#[test]
fn no_border_is_drawn_without_a_width() {
    let mut canvas = sheet();
    let styled = point_at(10.0, 20.0, disc(10.0, None));
    assert_eq!(styled.draw(&Sheet, &mut canvas, &origin()), Ok(()));
    for y in 0..100 {
        for x in 0..100 {
            assert_ne!(color_at(&canvas, x, y), BLUE);
        }
    }
}

#[test]
fn nan_border_width_draws_the_fill_alone() {
    let mut bordered = sheet();
    let styled = point_at(10.0, 20.0, disc(10.0, Some(f32::NAN)));
    assert_eq!(styled.draw(&Sheet, &mut bordered, &origin()), Ok(()));
    let mut plain = sheet();
    let styled = point_at(10.0, 20.0, disc(10.0, None));
    assert_eq!(styled.draw(&Sheet, &mut plain, &origin()), Ok(()));
    assert_eq!(bordered.data(), plain.data());
    assert_eq!(color_at(&bordered, 50, 50), RED);
}

#[test]
fn draw_shape_fills_then_borders() {
    let mut canvas = sheet();
    let shape = Shape::Circle { radius: scalar(6.0) };
    let pixel = PixelPoint { x: scalar(20.0), y: scalar(30.0) };
    assert_eq!(draw_shape(&shape, &colors(Some(1.0)), pixel, &mut canvas), Ok(()));
    assert_eq!(color_at(&canvas, 20, 30), RED);
    assert_eq!(color_at(&canvas, 25, 30), BLUE);
    assert_eq!(color_at(&canvas, 50, 50), CLEAR);
}

#[test]
fn shape_without_outline_fails_and_draws_nothing() {
    for radius in [0.0, -1.0, f32::NAN] {
        let mut canvas = sheet();
        let styled = point_at(10.0, 20.0, disc(radius, Some(1.0)));
        assert_eq!(styled.draw(&Sheet, &mut canvas, &origin()), Err(Error::PathConstruction));
        assert_eq!(canvas.data(), sheet().data());
    }
}

#[test]
fn projection_failure_is_handed_on() {
    let mut canvas = sheet();
    let styled = point_at(f64::NAN, 20.0, disc(4.0, None));
    let result = styled.draw(&Sheet, &mut canvas, &origin());
    assert_eq!(result, Err(Error::Projection("(NaN, 20)".to_string())));
    assert_eq!(canvas.data(), sheet().data());
}

#[test]
fn external_image_is_drawn_by_the_renderer_alone() {
    let mut canvas = sheet();
    let styled = point_at(10.0, 20.0, image("stamp"));
    assert_eq!(styled.draw(&Sheet, &mut canvas, &origin()), Ok(()));
    assert_eq!(color_at(&canvas, 50, 50), GREEN);
    assert_eq!(color_at(&canvas, 48, 48), GREEN);
    assert_eq!(color_at(&canvas, 54, 50), CLEAR);
    for y in 0..100 {
        for x in 0..100 {
            let found = color_at(&canvas, x, y);
            assert!(found == GREEN || found == CLEAR);
        }
    }
}

#[test]
fn external_image_failure_is_handed_on_without_a_shape() {
    let mut canvas = sheet();
    let styled = point_at(10.0, 20.0, image("broken"));
    let result = styled.draw(&Sheet, &mut canvas, &origin());
    assert_eq!(result, Err(Error::ExternalImage("broken".to_string())));
    assert_eq!(canvas.data(), sheet().data());
}

#[test]
fn external_image_failure_reaches_the_caller_of_the_union() {
    let mut canvas = sheet();
    let styled = StyledGeometry::Point(point_at(10.0, 20.0, image("broken")));
    let result = styled.draw(&Sheet, &mut canvas, &origin());
    assert_eq!(result, Err(Error::ExternalImage("broken".to_string())));
    assert_eq!(canvas.data(), sheet().data());
    let multi: StyledMultiPoint<f64> = Styled(
        MultiPoint { points: vec![Point { x: 10.0, y: 20.0 }] },
        Style::Static(StyledMultiPointOptions { point_options: image("broken") }),
    );
    let result = StyledGeometry::MultiPoint(multi).draw(&Sheet, &mut canvas, &origin());
    assert_eq!(result, Err(Error::ExternalImage("broken".to_string())));
    assert_eq!(canvas.data(), sheet().data());
}

fn scattered() -> Vec<Point<f64>> {
    vec![
        Point { x: 0.0, y: 20.0 },
        Point { x: 5.0, y: 22.0 },
        Point { x: 12.0, y: 18.0 },
        Point { x: 12.0, y: 18.0 },
        Point { x: 40.0, y: 50.0 },
    ]
}

fn multi(points: Vec<Point<f64>>, options: StyledPointOptions) -> StyledMultiPoint<f64> {
    Styled(
        MultiPoint { points },
        Style::Static(StyledMultiPointOptions { point_options: options }),
    )
}

#[test]
fn multi_point_equals_its_points_drawn_in_order() {
    for options in [disc(8.0, Some(3.0)), disc(8.0, None), image("stamp")] {
        let mut together = sheet();
        let styled = multi(scattered(), options.clone());
        assert_eq!(styled.draw(&Sheet, &mut together, &origin()), Ok(()));
        let mut one_by_one = sheet();
        for point in scattered() {
            let single = point_at(point.x, point.y, options.clone());
            assert_eq!(single.draw(&Sheet, &mut one_by_one, &origin()), Ok(()));
        }
        assert_eq!(together.data(), one_by_one.data());
        assert_ne!(together.data(), sheet().data());
    }
}

#[test]
fn multi_point_with_translucent_paint_depends_on_the_order() {
    let mut options = disc(8.0, Some(3.0));
    options.color_options.foreground.alpha = 128;
    options.color_options.anti_alias = true;
    let mut forward = sheet();
    assert_eq!(multi(scattered(), options.clone()).draw(&Sheet, &mut forward, &origin()), Ok(()));
    let mut one_by_one = sheet();
    for point in scattered() {
        let single = point_at(point.x, point.y, options.clone());
        assert_eq!(single.draw(&Sheet, &mut one_by_one, &origin()), Ok(()));
    }
    assert_eq!(forward.data(), one_by_one.data());
    let mut backward = sheet();
    let mut reversed = scattered();
    reversed.reverse();
    assert_eq!(multi(reversed, options).draw(&Sheet, &mut backward, &origin()), Ok(()));
    assert_ne!(forward.data(), backward.data());
}

#[test]
fn empty_multi_point_draws_nothing() {
    let mut canvas = sheet();
    assert_eq!(multi(vec![], disc(4.0, None)).draw(&Sheet, &mut canvas, &origin()), Ok(()));
    assert_eq!(canvas.data(), sheet().data());
}

#[test]
fn multi_point_stops_at_the_first_failure() {
    let points = vec![
        Point { x: 0.0, y: 20.0 },
        Point { x: f64::INFINITY, y: 0.0 },
        Point { x: 40.0, y: 50.0 },
    ];
    let mut canvas = sheet();
    let result = multi(points, disc(4.0, None)).draw(&Sheet, &mut canvas, &origin());
    assert_eq!(result, Err(Error::Projection("(inf, 0)".to_string())));
    let mut first_only = sheet();
    let single = point_at(0.0, 20.0, disc(4.0, None));
    assert_eq!(single.draw(&Sheet, &mut first_only, &origin()), Ok(()));
    assert_eq!(canvas.data(), first_only.data());
    assert_eq!(color_at(&canvas, 40, 50), RED);
    assert_eq!(color_at(&canvas, 80, 20), CLEAR);
}

#[test]
fn multi_point_resolves_its_style_against_the_collection() {
    struct BySize;
    impl snapper::style::StyleFn<MultiPoint<f64>, StyledMultiPointOptions> for BySize {
        fn options(&self, geometry: &MultiPoint<f64>) -> StyledMultiPointOptions {
            StyledMultiPointOptions {
                point_options: disc(geometry.points.len() as f32, None),
            }
        }
    }
    let mut canvas = sheet();
    let styled: StyledMultiPoint<f64> = Styled(
        MultiPoint { points: vec![Point { x: -20.0, y: 20.0 }, Point { x: 30.0, y: 20.0 }] },
        Style::Dynamic(Box::new(BySize)),
    );
    assert_eq!(styled.draw(&Sheet, &mut canvas, &origin()), Ok(()));
    let mut expected = sheet();
    for x in [-20.0, 30.0] {
        assert_eq!(
            point_at(x, 20.0, disc(2.0, None)).draw(&Sheet, &mut expected, &origin()),
            Ok(())
        );
    }
    assert_eq!(canvas.data(), expected.data());
    assert_eq!(color_at(&canvas, 20, 50), RED);
}

#[test]
fn union_draws_as_the_kind_it_holds() {
    let mut through_union = sheet();
    let styled = StyledGeometry::Point(point_at(15.0, 25.0, disc(5.0, Some(1.0))));
    assert_eq!(styled.draw(&Sheet, &mut through_union, &origin()), Ok(()));
    let mut direct = sheet();
    let styled = point_at(15.0, 25.0, disc(5.0, Some(1.0)));
    assert_eq!(styled.draw(&Sheet, &mut direct, &origin()), Ok(()));
    assert_eq!(through_union.data(), direct.data());
    assert_eq!(color_at(&direct, 55, 45), RED);

    let mut through_union = sheet();
    let styled = StyledGeometry::MultiPoint(multi(scattered(), disc(5.0, Some(1.0))));
    assert_eq!(styled.draw(&Sheet, &mut through_union, &origin()), Ok(()));
    let mut direct = sheet();
    assert_eq!(
        multi(scattered(), disc(5.0, Some(1.0))).draw(&Sheet, &mut direct, &origin()),
        Ok(())
    );
    assert_eq!(through_union.data(), direct.data());
}

#[test]
fn later_draws_paint_over_earlier_ones() {
    let mut canvas = sheet();
    assert_eq!(point_at(10.0, 20.0, disc(10.0, None)).draw(&Sheet, &mut canvas, &origin()), Ok(()));
    let mut over = disc(4.0, None);
    over.color_options.foreground = GREEN;
    assert_eq!(point_at(10.0, 20.0, over).draw(&Sheet, &mut canvas, &origin()), Ok(()));
    assert_eq!(color_at(&canvas, 50, 50), GREEN);
    assert_eq!(color_at(&canvas, 57, 50), RED);
}

#[test]
fn extreme_numbers_end_in_a_result() {
    let extremes = [
        f32::MIN_POSITIVE,
        f32::MIN_POSITIVE / 4.0,
        1e-20,
        0.25,
        1e10,
        1e30,
        f32::MAX / 4.0,
        f32::MAX,
        f32::INFINITY,
        -1e10,
        f32::NEG_INFINITY,
        f32::NAN,
    ];
    for radius in extremes {
        for border in extremes {
            for position in [0.0, 50.0, -1e10, 1e30, f32::MAX, f32::INFINITY, f32::NAN] {
                let mut canvas = sheet();
                let shape = Shape::Circle { radius: scalar(radius) };
                let pixel = PixelPoint { x: scalar(position), y: scalar(50.0) };
                let mut options = colors(Some(border));
                options.anti_alias = radius < 1.0;
                let result = draw_shape(&shape, &options, pixel, &mut canvas);
                if result.is_err() {
                    assert_eq!(result, Err(Error::PathConstruction));
                    assert_eq!(canvas.data(), sheet().data());
                }
                let expected = radius > 0.0 && radius.is_finite() && position.is_finite();
                if !expected {
                    assert_eq!(result, Err(Error::PathConstruction));
                }
            }
        }
    }
}
