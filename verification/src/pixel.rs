//! Pixel positions and their normalized device coordinates.
//!
//! Pixel space has its origin at the top left and grows to the right and
//! downwards. Normalized device coordinates run from -1 to 1 on both axes,
//! with the origin in the middle and the vertical axis pointing up.
//!
//! A pixel value is an integer and a coordinate is an exact fraction, so
//! that every statement below holds without rounding.

use vstd::prelude::*;

verus! {

/// The axis a single pixel value lies on.
#[derive(Clone, Copy, Debug, PartialEq, Eq, Structural)]
pub enum PixelOrient {
    Vertical,
    Horizontal,
}

/// Why a conversion was refused.
#[derive(Clone, Copy, Debug, PartialEq, Eq, Structural)]
pub enum CoordError {
    /// A window dimension is zero or negative.
    InvalidArgument,
}

/// A normalized device coordinate, the fraction `num / den`.
#[derive(Clone, Copy, Debug, PartialEq, Eq, Structural)]
pub struct Ndc {
    pub num: i64,
    /// Always positive in a coordinate that a conversion returned.
    pub den: i64,
}

/// A position in normalized device coordinates.
#[derive(Clone, Copy, Debug, PartialEq, Eq, Structural)]
pub struct NdcPoint {
    pub x: Ndc,
    pub y: Ndc,
}

/// A value in pixels along one axis.
#[derive(Clone, Copy, Debug, PartialEq, Eq, Structural)]
pub struct Pixel {
    pub value: i32,
    pub orient: PixelOrient,
}

/// A position in pixels.
#[derive(Clone, Copy, Debug, PartialEq, Eq, Structural)]
pub struct PixelPoint {
    pub x: i32,
    pub y: i32,
}

impl Ndc {
    /// The denominator is positive.
    pub open spec fn wf(self) -> bool {
        self.den > 0
    }

    /// The fraction equals the integer `n`.
    pub open spec fn is_int(self, n: int) -> bool {
        self.num == n * self.den
    }

    /// The fraction is less than `other`; both denominators are positive.
    pub open spec fn lt(self, other: Ndc) -> bool {
        self.num * other.den < other.num * self.den
    }

    /// The fraction lies in the closed range from -1 to 1.
    pub open spec fn in_unit_range(self) -> bool {
        -self.den <= self.num <= self.den
    }
}

/// Whether a window size can be converted against: both dimensions positive.
pub open spec fn valid_window(window_size: (i32, i32)) -> bool {
    window_size.0 > 0 && window_size.1 > 0
}

/// Horizontal coordinate of the pixel column `x`: `2 * x / width - 1`.
pub open spec fn ndc_x(x: i32, width: i32) -> Ndc {
    Ndc { num: (2 * x - width) as i64, den: width as i64 }
}

/// Vertical coordinate of the pixel row `y`: `1 - 2 * y / height`.
pub open spec fn ndc_y(y: i32, height: i32) -> Ndc {
    Ndc { num: (height - 2 * y) as i64, den: height as i64 }
}

/// Coordinate of a single pixel value on its axis.
pub open spec fn ndc_of(pixel: Pixel, window_size: (i32, i32)) -> Ndc {
    match pixel.orient {
        PixelOrient::Horizontal => ndc_x(pixel.value, window_size.0),
        PixelOrient::Vertical => ndc_y(pixel.value, window_size.1),
    }
}

/// Coordinates of a pixel position.
pub open spec fn ndc_point_of(point: PixelPoint, window_size: (i32, i32)) -> NdcPoint {
    NdcPoint { x: ndc_x(point.x, window_size.0), y: ndc_y(point.y, window_size.1) }
}

impl Pixel {
    /// Constructor method to create a new Pixel instance.
    pub fn new(value: i32, orient: PixelOrient) -> (pixel: Pixel)
        ensures
            pixel == (Pixel { value, orient }),
    {
        Pixel { value, orient }
    }

    /// Converts the pixel value to its normalized device coordinate in a
    /// window of `window_size` (width, height).
    ///
    /// Both axes follow the convention of [`PixelPoint::to_ndc`]: a vertical
    /// value of 0 is the top edge, coordinate 1. The conversion is refused
    /// when either window dimension is not positive, whichever axis is asked.
    pub fn to_ndc(&self, window_size: (i32, i32)) -> (ndc: Result<Ndc, CoordError>)
        ensures
            valid_window(window_size) ==> ndc == Ok::<Ndc, CoordError>(ndc_of(*self, window_size)),
            !valid_window(window_size) ==> ndc == Err::<Ndc, CoordError>(
                CoordError::InvalidArgument,
            ),
            ndc matches Ok(n) ==> n.wf(),
    {
        if window_size.0 <= 0 || window_size.1 <= 0 {
            return Err(CoordError::InvalidArgument);
        }
        let value: i64 = self.value as i64;
        match self.orient {
            PixelOrient::Horizontal => {
                let width: i64 = window_size.0 as i64;
                Ok(Ndc { num: 2 * value - width, den: width })
            },
            PixelOrient::Vertical => {
                let height: i64 = window_size.1 as i64;
                Ok(Ndc { num: height - 2 * value, den: height })
            },
        }
    }
}

impl PixelPoint {
    /// A position from its column and row.
    pub fn new(x: i32, y: i32) -> (point: PixelPoint)
        ensures
            point == (PixelPoint { x, y }),
    {
        PixelPoint { x, y }
    }

    /// Converts the position to normalized device coordinates in a window of
    /// `window_size` (width, height): `x` maps to `2 * x / width - 1` and `y`
    /// to `1 - 2 * y / height`.
    ///
    /// The conversion is refused when either window dimension is not
    /// positive.
    pub fn to_ndc(&self, window_size: (i32, i32)) -> (ndc: Result<NdcPoint, CoordError>)
        ensures
            valid_window(window_size) ==> ndc == Ok::<NdcPoint, CoordError>(
                ndc_point_of(*self, window_size),
            ),
            !valid_window(window_size) ==> ndc == Err::<NdcPoint, CoordError>(
                CoordError::InvalidArgument,
            ),
            ndc matches Ok(p) ==> p.x.wf() && p.y.wf(),
    {
        if window_size.0 <= 0 || window_size.1 <= 0 {
            return Err(CoordError::InvalidArgument);
        }
        let width: i64 = window_size.0 as i64;
        let height: i64 = window_size.1 as i64;
        let x: i64 = self.x as i64;
        let y: i64 = self.y as i64;
        Ok(NdcPoint {
            x: Ndc { num: 2 * x - width, den: width },
            y: Ndc { num: height - 2 * y, den: height },
        })
    }
}

/// The top-left pixel maps to (-1, 1) and the pixel at (width, height) to
/// (1, -1), in every window with positive dimensions.
pub proof fn lemma_corners(width: i32, height: i32)
    requires
        width > 0,
        height > 0,
    ensures
        ndc_point_of(PixelPoint { x: 0, y: 0 }, (width, height)).x.is_int(-1),
        ndc_point_of(PixelPoint { x: 0, y: 0 }, (width, height)).y.is_int(1),
        ndc_point_of(PixelPoint { x: width, y: height }, (width, height)).x.is_int(1),
        ndc_point_of(PixelPoint { x: width, y: height }, (width, height)).y.is_int(-1),
{
}

/// Across the window the horizontal coordinate grows strictly with the pixel
/// value, from -1 at 0 to 1 at `width`.
pub proof fn lemma_horizontal_increasing(a: i32, b: i32, window_size: (i32, i32))
    requires
        valid_window(window_size),
        0 <= a < b <= window_size.0,
    ensures
        ndc_of(Pixel { value: a, orient: PixelOrient::Horizontal }, window_size).lt(
            ndc_of(Pixel { value: b, orient: PixelOrient::Horizontal }, window_size),
        ),
        ndc_of(Pixel { value: 0, orient: PixelOrient::Horizontal }, window_size).is_int(-1),
        ndc_of(Pixel { value: window_size.0, orient: PixelOrient::Horizontal }, window_size).is_int(
            1,
        ),
{
    let w: int = window_size.0 as int;
    assert((2 * a - w) * w < (2 * b - w) * w) by (nonlinear_arith)
        requires
            a < b,
            w > 0,
    ;
}

/// Across the window the vertical coordinate falls strictly as the pixel
/// value grows, from 1 at the top row to -1 at `height`.
pub proof fn lemma_vertical_decreasing(a: i32, b: i32, window_size: (i32, i32))
    requires
        valid_window(window_size),
        0 <= a < b <= window_size.1,
    ensures
        ndc_of(Pixel { value: b, orient: PixelOrient::Vertical }, window_size).lt(
            ndc_of(Pixel { value: a, orient: PixelOrient::Vertical }, window_size),
        ),
        ndc_of(Pixel { value: 0, orient: PixelOrient::Vertical }, window_size).is_int(1),
        ndc_of(Pixel { value: window_size.1, orient: PixelOrient::Vertical }, window_size).is_int(
            -1,
        ),
{
    let h: int = window_size.1 as int;
    assert((h - 2 * b) * h < (h - 2 * a) * h) by (nonlinear_arith)
        requires
            a < b,
            h > 0,
    ;
}

/// A pixel inside the window has both coordinates between -1 and 1.
pub proof fn lemma_inside_window_in_range(point: PixelPoint, window_size: (i32, i32))
    requires
        valid_window(window_size),
        0 <= point.x <= window_size.0,
        0 <= point.y <= window_size.1,
    ensures
        ndc_point_of(point, window_size).x.in_unit_range(),
        ndc_point_of(point, window_size).y.in_unit_range(),
{
}

/// The two-axis conversion is the single-axis conversion on each axis.
pub proof fn lemma_point_is_per_axis(point: PixelPoint, window_size: (i32, i32))
    ensures
        ndc_point_of(point, window_size).x == ndc_of(
            Pixel { value: point.x, orient: PixelOrient::Horizontal },
            window_size,
        ),
        ndc_point_of(point, window_size).y == ndc_of(
            Pixel { value: point.y, orient: PixelOrient::Vertical },
            window_size,
        ),
{
}

} // verus!
