use snapper::error::Error;
use snapper::point::Representation;
use snapper::scalar::Scalar;
use snapper::shape::Shape;

fn scalar(value: f32) -> Scalar {
    Scalar::from_bits(value.to_bits())
}

fn circle(radius: f32) -> Shape {
    Shape::Circle { radius: scalar(radius) }
}

fn assert_close(actual: f32, expected: f32) {
    let tolerance = 1e-3 * expected.abs().max(1.0);
    assert!(
        (actual - expected).abs() <= tolerance,
        "{actual} is not close to {expected}"
    );
}

fn assert_bounds(radius: f32, x: f32, y: f32) {
    let path = circle(radius).to_path(scalar(x), scalar(y)).unwrap();
    let bounds = path.bounds();
    assert_close(bounds.left(), x - radius);
    assert_close(bounds.right(), x + radius);
    assert_close(bounds.top(), y - radius);
    assert_close(bounds.bottom(), y + radius);
    assert_close((bounds.left() + bounds.right()) / 2.0, x);
    assert_close((bounds.top() + bounds.bottom()) / 2.0, y);
}

#[test]
fn circle_outline_is_centered_on_the_anchor() {
    assert_bounds(4.0, 50.0, 50.0);
    assert_bounds(0.5, 0.0, 0.0);
    assert_bounds(2.5, -10.25, 33.75);
    assert_bounds(1000.0, 12.0, -7.0);
}

#[test]
fn circle_outline_is_closed() {
    let path = circle(4.0).to_path(scalar(10.0), scalar(20.0)).unwrap();
    let segments: Vec<tiny_skia::PathSegment> = path.segments().collect();
    assert!(matches!(segments.first(), Some(tiny_skia::PathSegment::MoveTo(_))));
    assert!(matches!(segments.last(), Some(tiny_skia::PathSegment::Close)));
    assert!(segments.len() > 2);
}

#[test]
fn default_shape_is_a_circle_of_four_pixels() {
    assert_eq!(Shape::default(), circle(4.0));
    assert_eq!(Shape::default(), Shape::Circle { radius: Scalar { bits: 0x4080_0000 } });
}

#[test]
fn default_representation_is_the_default_shape() {
    assert_eq!(Representation::default(), Representation::Shape(Shape::default()));
}

#[test]
fn zero_radius_has_no_outline() {
    let result = circle(0.0).to_path(scalar(10.0), scalar(10.0));
    assert_eq!(result.err(), Some(Error::PathConstruction));
    let result = circle(-0.0).to_path(scalar(10.0), scalar(10.0));
    assert_eq!(result.err(), Some(Error::PathConstruction));
}

#[test]
fn negative_radius_has_no_outline() {
    let result = circle(-4.0).to_path(scalar(10.0), scalar(10.0));
    assert_eq!(result.err(), Some(Error::PathConstruction));
    let result = circle(-1e-3).to_path(scalar(1e10), scalar(1e10));
    assert_eq!(result.err(), Some(Error::PathConstruction));
}

#[test]
fn nan_radius_has_no_outline() {
    let result = circle(f32::NAN).to_path(scalar(10.0), scalar(10.0));
    assert_eq!(result.err(), Some(Error::PathConstruction));
}

#[test]
fn infinite_radius_has_no_outline() {
    let result = circle(f32::INFINITY).to_path(scalar(10.0), scalar(10.0));
    assert_eq!(result.err(), Some(Error::PathConstruction));
}

#[test]
fn nan_anchor_has_no_outline() {
    let result = circle(4.0).to_path(scalar(f32::NAN), scalar(10.0));
    assert_eq!(result.err(), Some(Error::PathConstruction));
    let result = circle(4.0).to_path(scalar(10.0), scalar(f32::NAN));
    assert_eq!(result.err(), Some(Error::PathConstruction));
    let result = circle(4.0).to_path(scalar(f32::INFINITY), scalar(10.0));
    assert_eq!(result.err(), Some(Error::PathConstruction));
}

#[test]
fn scalar_keeps_its_bits() {
    let value = scalar(2.5);
    assert_eq!(value.to_bits(), 2.5f32.to_bits());
    assert_eq!(Scalar::from_bits(7).bits, 7);
    assert_eq!(f32::from_bits(scalar(-3.25).to_bits()), -3.25);
}

#[test]
fn scalar_classes_agree_with_the_numbers() {
    let samples = [
        0.0f32,
        -0.0,
        1.0,
        -1.0,
        4.0,
        f32::MIN_POSITIVE,
        f32::MIN_POSITIVE / 2.0,
        -f32::MIN_POSITIVE / 2.0,
        f32::MAX,
        f32::MIN,
        f32::INFINITY,
        f32::NEG_INFINITY,
        f32::NAN,
        -f32::NAN,
    ];
    for sample in samples {
        let value = scalar(sample);
        assert_eq!(value.is_nan(), sample.is_nan(), "is_nan of {sample}");
        assert_eq!(value.is_finite(), sample.is_finite(), "is_finite of {sample}");
        assert_eq!(value.is_zero(), sample == 0.0, "is_zero of {sample}");
        assert_eq!(value.is_negative(), sample.is_sign_negative(), "is_negative of {sample}");
        assert_eq!(value.is_positive(), sample > 0.0, "is_positive of {sample}");
    }
}

#[test]
fn scalar_constants_are_the_numbers_they_name() {
    assert_eq!(snapper::scalar::FOUR, 4.0f32.to_bits());
    assert_eq!(snapper::scalar::ONE, 1.0f32.to_bits());
    assert_eq!(snapper::scalar::INFINITY, f32::INFINITY.to_bits());
    assert_eq!(snapper::scalar::SIGN, (-0.0f32).to_bits());
}
