use embedded_charts::geometry::ChartError;
use embedded_charts::geometry::{Point, Size};
use embedded_charts::{scale_point, scale_value, try_scale_value};

#[test]
fn scale_value_interpolates_with_truncation() {
    assert_eq!(scale_value(5, 0, 10, 0, 20), 10);
    assert_eq!(scale_value(10, 0, 50, 3, 160), 34);
    assert_eq!(scale_value(7, 0, 10, 0, 15), 10);
}

#[test]
fn scale_value_endpoints_map_exactly() {
    assert_eq!(scale_value(0, 0, 10, 5, 25), 5);
    assert_eq!(scale_value(10, 0, 10, 5, 25), 25);
    assert_eq!(scale_value(-10, -10, 10, -3, 77), -3);
    assert_eq!(scale_value(10, -10, 10, -3, 77), 77);
    assert_eq!(scale_value(-7, -7, -2, 100, 200), 100);
    assert_eq!(scale_value(-2, -7, -2, 100, 200), 200);
}

#[test]
fn scale_value_truncates_toward_zero() {
    // -25/10 truncates to -2, not the -3 of floor division.
    assert_eq!(scale_value(1, 0, 10, 0, -25), -2);
    assert_eq!(scale_value(1, 0, 10, -25, 0), -23);
}

#[test]
fn try_scale_value_accepts_what_scale_value_accepts() {
    assert_eq!(try_scale_value(5, 0, 10, 0, 20), Ok(10));
    assert_eq!(try_scale_value(0, 0, 10, 5, 25), Ok(5));
}

#[test]
fn try_scale_value_rejects_out_of_range_value() {
    assert_eq!(
        try_scale_value(50, 0, 10, 0, 160),
        Err(ChartError::ValueOutOfRange)
    );
    assert_eq!(
        try_scale_value(-1, 0, 10, 0, 160),
        Err(ChartError::ValueOutOfRange)
    );
}

#[test]
fn try_scale_value_rejects_degenerate_range() {
    assert_eq!(try_scale_value(5, 5, 5, 0, 160), Err(ChartError::DegenerateRange));
}

#[test]
fn scale_point_scales_both_coordinates() {
    let display = Size { width: 160, height: 128 };
    let origin = Point { x: 3, y: 125 };
    let scaled = scale_point(Point { x: 10, y: 4 }, &display, &origin, 0, 50, 0, 36);
    // x: 10 * 157 / 50 + 3;  y: 4 * 125 / 36 + 3.
    assert_eq!(scaled, Point { x: 34, y: 16 });
}
