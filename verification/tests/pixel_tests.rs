use photon::pixel::{CoordError, Ndc, NdcPoint, PixelPoint};
use photon::{Pixel, PixelOrient};

fn as_float(ndc: Ndc) -> f64 {
    ndc.num as f64 / ndc.den as f64
}

#[test]
fn new_stores_value_and_orientation() {
    let pixel = Pixel::new(10, PixelOrient::Horizontal);
    assert_eq!(pixel.value, 10);
    assert_eq!(pixel.orient, PixelOrient::Horizontal);
}

#[test]
fn horizontal_value_is_exact() {
    let pixel = Pixel::new(256, PixelOrient::Horizontal);
    assert_eq!(pixel.to_ndc((800, 600)), Ok(Ndc { num: -288, den: 800 }));
}

#[test]
fn horizontal_value_matches_the_formula() {
    let ndc = Pixel::new(100, PixelOrient::Horizontal).to_ndc((800, 600)).unwrap();
    assert_eq!(as_float(ndc), (100.0 * 2.0) / 800.0 - 1.0);
    assert_eq!(as_float(ndc), -0.75);
}

#[test]
fn vertical_value_is_exact() {
    let pixel = Pixel::new(150, PixelOrient::Vertical);
    assert_eq!(pixel.to_ndc((800, 600)), Ok(Ndc { num: 300, den: 600 }));
}

#[test]
fn vertical_value_matches_the_formula() {
    let ndc = Pixel::new(450, PixelOrient::Vertical).to_ndc((800, 600)).unwrap();
    assert_eq!(as_float(ndc), 1.0 - (450.0 * 2.0) / 600.0);
    assert_eq!(as_float(ndc), -0.5);
}

#[test]
fn horizontal_ends_map_to_minus_one_and_one() {
    let left = Pixel::new(0, PixelOrient::Horizontal).to_ndc((640, 480)).unwrap();
    let right = Pixel::new(640, PixelOrient::Horizontal).to_ndc((640, 480)).unwrap();
    assert_eq!(left, Ndc { num: -640, den: 640 });
    assert_eq!(right, Ndc { num: 640, den: 640 });
    assert_eq!(as_float(left), -1.0);
    assert_eq!(as_float(right), 1.0);
}

#[test]
fn horizontal_grows_with_the_value() {
    let width = 37;
    let mut before = Pixel::new(0, PixelOrient::Horizontal).to_ndc((width, 5)).unwrap();
    for value in 1..=width {
        let here = Pixel::new(value, PixelOrient::Horizontal).to_ndc((width, 5)).unwrap();
        assert!(before.num * here.den < here.num * before.den);
        assert!(as_float(before) < as_float(here));
        before = here;
    }
}

#[test]
fn vertical_falls_as_the_value_grows() {
    let top = Pixel::new(0, PixelOrient::Vertical).to_ndc((4, 10)).unwrap();
    let middle = Pixel::new(5, PixelOrient::Vertical).to_ndc((4, 10)).unwrap();
    let bottom = Pixel::new(10, PixelOrient::Vertical).to_ndc((4, 10)).unwrap();
    assert_eq!(as_float(top), 1.0);
    assert_eq!(as_float(middle), 0.0);
    assert_eq!(as_float(bottom), -1.0);
}

#[test]
fn top_left_maps_to_minus_one_one() {
    for (width, height) in [(1, 1), (800, 600), (1920, 1080), (i32::MAX, i32::MAX)] {
        let ndc = PixelPoint::new(0, 0).to_ndc((width, height)).unwrap();
        assert_eq!(ndc.x.num, -ndc.x.den);
        assert_eq!(ndc.y.num, ndc.y.den);
        assert_eq!((as_float(ndc.x), as_float(ndc.y)), (-1.0, 1.0));
    }
}

#[test]
fn bottom_right_maps_to_one_minus_one() {
    for (width, height) in [(1, 1), (800, 600), (1920, 1080), (i32::MAX, i32::MAX)] {
        let ndc = PixelPoint::new(width, height).to_ndc((width, height)).unwrap();
        assert_eq!(ndc.x.num, ndc.x.den);
        assert_eq!(ndc.y.num, -ndc.y.den);
        assert_eq!((as_float(ndc.x), as_float(ndc.y)), (1.0, -1.0));
    }
}

#[test]
fn point_is_exact() {
    let ndc = PixelPoint::new(200, 150).to_ndc((800, 600));
    assert_eq!(
        ndc,
        Ok(NdcPoint { x: Ndc { num: -400, den: 800 }, y: Ndc { num: 300, den: 600 } })
    );
}

#[test]
fn point_agrees_with_the_single_axis_form() {
    let window = (1024, 768);
    let point = PixelPoint::new(300, 700).to_ndc(window).unwrap();
    assert_eq!(Ok(point.x), Pixel::new(300, PixelOrient::Horizontal).to_ndc(window));
    assert_eq!(Ok(point.y), Pixel::new(700, PixelOrient::Vertical).to_ndc(window));
}

#[test]
fn centre_maps_to_the_origin() {
    let ndc = PixelPoint::new(400, 300).to_ndc((800, 600)).unwrap();
    assert_eq!(ndc.x.num, 0);
    assert_eq!(ndc.y.num, 0);
}

#[test]
fn values_outside_the_window_are_converted() {
    let left = Pixel::new(-400, PixelOrient::Horizontal).to_ndc((800, 600)).unwrap();
    assert_eq!(as_float(left), -2.0);
    let far = Pixel::new(i32::MAX, PixelOrient::Horizontal).to_ndc((1, 1)).unwrap();
    assert_eq!(far, Ndc { num: 2 * (i32::MAX as i64) - 1, den: 1 });
    let low = Pixel::new(i32::MIN, PixelOrient::Vertical).to_ndc((1, i32::MAX)).unwrap();
    assert_eq!(low, Ndc { num: i32::MAX as i64 - 2 * (i32::MIN as i64), den: i32::MAX as i64 });
}

#[test]
fn zero_width_is_refused() {
    assert_eq!(
        Pixel::new(5, PixelOrient::Horizontal).to_ndc((0, 600)),
        Err(CoordError::InvalidArgument)
    );
    assert_eq!(PixelPoint::new(5, 5).to_ndc((0, 600)), Err(CoordError::InvalidArgument));
}

#[test]
fn zero_height_is_refused_on_either_axis() {
    assert_eq!(
        Pixel::new(5, PixelOrient::Horizontal).to_ndc((800, 0)),
        Err(CoordError::InvalidArgument)
    );
    assert_eq!(
        Pixel::new(5, PixelOrient::Vertical).to_ndc((800, 0)),
        Err(CoordError::InvalidArgument)
    );
    assert_eq!(PixelPoint::new(5, 5).to_ndc((800, 0)), Err(CoordError::InvalidArgument));
}

#[test]
fn negative_dimensions_are_refused() {
    assert_eq!(
        Pixel::new(5, PixelOrient::Vertical).to_ndc((-800, 600)),
        Err(CoordError::InvalidArgument)
    );
    assert_eq!(PixelPoint::new(0, 0).to_ndc((800, -1)), Err(CoordError::InvalidArgument));
    assert_eq!(
        PixelPoint::new(0, 0).to_ndc((i32::MIN, i32::MIN)),
        Err(CoordError::InvalidArgument)
    );
}
