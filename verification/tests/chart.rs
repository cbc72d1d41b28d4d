use embedded_charts::axis::{Axis, AxisConfig, Direction};
use embedded_charts::geometry::{ChartError, Point, Size};
use embedded_charts::line::{LineChart, LineChartConfig, Segment};

fn display() -> Size {
    Size { width: 160, height: 128 }
}

fn p(x: i32, y: i32) -> Point {
    Point { x, y }
}

fn chart_with_ranges(x_min: i32, x_max: i32, y_min: i32, y_max: i32) -> LineChart<u8, 5> {
    let mut x_config: AxisConfig<u8> = AxisConfig::default();
    x_config.min = Some(x_min);
    x_config.max = Some(x_max);
    let mut y_config: AxisConfig<u8> = AxisConfig::default();
    y_config.direction = Some(Direction::Vertical);
    y_config.min = Some(y_min);
    y_config.max = Some(y_max);
    let mut config: LineChartConfig<u8> = LineChartConfig::default();
    config.x_axis = Some(Axis::from_config(x_config));
    config.y_axis = Some(Axis::from_config(y_config));
    LineChart::from_config(config)
}

#[test]
fn default_chart_has_documented_defaults() {
    let chart: LineChart<u8, 5> = LineChart::default();
    assert_eq!(chart.get_points(), &[None, None, None, None, None]);
    assert_eq!(chart.x_axis.direction, Direction::Horizontal);
    assert_eq!(chart.y_axis.direction, Direction::Vertical);
    assert_eq!(chart.line_width, 3);
    assert_eq!(chart.point_diameter, 5);
    assert!(chart.show_points);
}

#[test]
fn chart_push_rolls_the_window() {
    let mut chart: LineChart<u8, 3> = LineChart::from_config(LineChartConfig::default());
    chart.push(p(1, 1));
    chart.push(p(2, 2));
    chart.push(p(3, 3));
    chart.push(p(4, 4));
    assert_eq!(
        chart.get_points(),
        &[Some(p(4, 4)), Some(p(3, 3)), Some(p(2, 2))]
    );
}

#[test]
fn scaling_maps_the_window_into_the_display() {
    let mut chart = chart_with_ranges(0, 50, 0, 36);
    for point in [p(10, 4), p(20, 9), p(30, 16), p(40, 25), p(50, 36)] {
        chart.push(point);
    }
    assert_eq!(chart.scale_points_to_display(&display()), Ok(()));

    let scaled: Vec<Point> = chart.get_points().iter().map(|s| s.unwrap()).collect();
    assert_eq!(scaled.len(), 5);
    // Newest first: the last pushed point sits at slot 0.
    assert_eq!(scaled[0], p(160, 128));
    assert_eq!(scaled[1], p(128, 89));
    assert_eq!(scaled[2], p(97, 58));
    assert_eq!(scaled[3], p(65, 34));
    assert_eq!(scaled[4], p(34, 16));
    for q in &scaled {
        assert!(0 <= q.x && q.x <= 160);
        assert!(0 <= q.y && q.y <= 128);
    }
    // The relative ordering of the samples is preserved: walking the
    // window from oldest to newest, both coordinates increase just as
    // the pushed points did.
    for w in scaled.windows(2) {
        assert!(w[1].x < w[0].x);
        assert!(w[1].y < w[0].y);
    }
}

#[test]
fn scaling_an_empty_window_succeeds_and_changes_nothing() {
    let mut chart = chart_with_ranges(0, 50, 0, 36);
    assert_eq!(chart.scale_points_to_display(&display()), Ok(()));
    assert_eq!(chart.get_points(), &[None, None, None, None, None]);
}

#[test]
fn scaling_rejects_a_sample_outside_the_axis_range() {
    let mut chart = chart_with_ranges(0, 50, 0, 36);
    chart.push(p(60, 4));
    let before: Vec<Option<Point>> = chart.get_points().to_vec();
    assert_eq!(
        chart.scale_points_to_display(&display()),
        Err(ChartError::ValueOutOfRange)
    );
    assert_eq!(chart.get_points(), before.as_slice());
}

#[test]
fn scaling_rejects_a_degenerate_range() {
    let mut chart = chart_with_ranges(5, 5, 0, 36);
    chart.push(p(5, 4));
    assert_eq!(
        chart.scale_points_to_display(&display()),
        Err(ChartError::DegenerateRange)
    );
}

#[test]
fn draw_geometry_connects_consecutive_points_with_flipped_y() {
    let mut chart = chart_with_ranges(0, 100, 0, 100);
    chart.push(p(10, 20));
    chart.push(p(30, 40));
    chart.push(p(50, 60));
    let plan = chart.draw_geometry(&display()).unwrap();
    assert!(plan.x_axis.is_some());
    assert!(plan.y_axis.is_some());
    assert_eq!(
        plan.segments,
        vec![
            Segment { p1: p(50, 68), p2: p(30, 88) },
            Segment { p1: p(30, 88), p2: p(10, 108) },
        ]
    );
}

#[test]
fn draw_geometry_stops_at_the_first_empty_slot() {
    let mut chart = chart_with_ranges(0, 100, 0, 100);
    chart.push(p(1, 1));
    let plan = chart.draw_geometry(&display()).unwrap();
    assert_eq!(plan.segments, vec![]);
}

#[test]
fn draw_geometry_propagates_axis_errors() {
    let mut chart = chart_with_ranges(0, 100, 0, 100);
    let mut y_config: AxisConfig<u8> = AxisConfig::default();
    y_config.direction = Some(Direction::Vertical);
    y_config.visible = Some(false);
    chart.y_axis = Axis::from_config(y_config);
    assert!(matches!(
        chart.draw_geometry(&display()),
        Err(ChartError::InvisibleVerticalAxis)
    ));
}

#[test]
fn scaling_an_empty_window_ignores_range_problems() {
    // Range checks guard each occupied slot; with nothing buffered there
    // is nothing to reject.
    let mut chart = chart_with_ranges(5, 5, 0, 36);
    assert_eq!(chart.scale_points_to_display(&display()), Ok(()));
}
