use embedded_charts::axis::{
    calibrate_starting_points, Axis, AxisConfig, Direction,
};
use embedded_charts::geometry::{ChartError, Point, Size};

fn display() -> Size {
    Size { width: 160, height: 128 }
}

#[test]
fn default_x_axis_has_documented_defaults() {
    let axis: Axis<u8> = Axis::default_x_axis();
    assert_eq!(axis.max, 100);
    assert_eq!(axis.min, 0);
    assert_eq!(axis.direction, Direction::Horizontal);
    assert!(axis.visible);
    assert_eq!(axis.line_width, 2);
    assert_eq!(axis.starting_point_offset, Point { x: 3, y: 3 });
    assert!(!axis.show_legend);
    assert_eq!(axis.legend.as_str(), "x");
}

#[test]
fn default_y_axis_is_vertical() {
    let axis: Axis<u8> = Axis::default_y_axis();
    assert_eq!(axis.direction, Direction::Vertical);
    assert_eq!(axis.max, 100);
}

#[test]
fn config_overrides_take_effect() {
    let mut config: AxisConfig<u8> = AxisConfig::default();
    config.min = Some(-5);
    config.max = Some(40);
    config.line_width = Some(1);
    config.show_legend = Some(true);
    config.legend = Some(String::from("t"));
    let axis = Axis::from_config(config);
    assert_eq!(axis.min, -5);
    assert_eq!(axis.max, 40);
    assert_eq!(axis.line_width, 1);
    assert!(axis.show_legend);
    assert_eq!(axis.legend.as_str(), "t");
}

#[test]
fn start_point_without_legend_is_the_raw_offset() {
    let axis: Axis<u8> = Axis::default_x_axis();
    let start = axis.calculate_starting_coordinates(&display()).unwrap();
    assert_eq!(start, Point { x: 3, y: 125 });
}

#[test]
fn horizontal_legend_pulls_the_start_point_up() {
    let mut config: AxisConfig<u8> = AxisConfig::default();
    config.show_legend = Some(true);
    let axis = Axis::from_config(config);
    let start = axis.calculate_starting_coordinates(&display()).unwrap();
    assert_eq!(start.x, 3);
    // The label footprint plus the line width plus one pixel of padding
    // moves the line strictly above the raw start point.
    assert!(start.y <= 125 - 3);
}

#[test]
fn vertical_legend_pushes_the_start_point_right() {
    let mut config: AxisConfig<u8> = AxisConfig::default();
    config.direction = Some(Direction::Vertical);
    config.show_legend = Some(true);
    let axis = Axis::from_config(config);
    let start = axis.calculate_starting_coordinates(&display()).unwrap();
    assert_eq!(start.y, 125);
    assert!(start.x > 3);
}

#[test]
fn missing_glyph_is_an_explicit_error() {
    let mut config: AxisConfig<u8> = AxisConfig::default();
    config.show_legend = Some(true);
    config.legend = Some(String::from("\u{1F600}"));
    let axis = Axis::from_config(config);
    assert_eq!(
        axis.calculate_starting_coordinates(&display()),
        Err(ChartError::GlyphNotFound('\u{1F600}'))
    );
}

#[test]
fn start_point_outside_pixel_space_is_an_error() {
    let mut config: AxisConfig<u8> = AxisConfig::default();
    config.starting_point_offset = Some(Point { x: 0, y: i32::MIN });
    let axis = Axis::from_config(config);
    assert_eq!(
        axis.calculate_starting_coordinates(&display()),
        Err(ChartError::OutOfBounds)
    );
}

#[test]
fn update_starting_offset_replaces_only_the_offset() {
    let mut axis: Axis<u8> = Axis::default_x_axis();
    axis.update_starting_offset(Point { x: 7, y: 9 });
    assert_eq!(axis.starting_point_offset, Point { x: 7, y: 9 });
    assert_eq!(axis.max, 100);
    assert_eq!(axis.direction, Direction::Horizontal);
}

#[test]
fn calibrating_swapped_directions_fails_without_mutation() {
    let mut horizontal: Axis<u8> = Axis::default_y_axis();
    let mut vertical: Axis<u8> = Axis::default_x_axis();
    let r = calibrate_starting_points(&mut horizontal, &mut vertical, &display());
    assert_eq!(r, Err(ChartError::DirectionMismatch));
    assert_eq!(horizontal.starting_point_offset, Point { x: 3, y: 3 });
    assert_eq!(vertical.starting_point_offset, Point { x: 3, y: 3 });
}

#[test]
fn calibrating_a_vertical_pair_fails_without_mutation() {
    let mut horizontal: Axis<u8> = Axis::default_x_axis();
    let mut vertical: Axis<u8> = Axis::default_x_axis();
    let r = calibrate_starting_points(&mut horizontal, &mut vertical, &display());
    assert_eq!(r, Err(ChartError::DirectionMismatch));
    assert_eq!(vertical.starting_point_offset, Point { x: 3, y: 3 });
}

#[test]
fn calibrating_aligned_axes_changes_nothing() {
    let mut horizontal: Axis<u8> = Axis::default_x_axis();
    let mut vertical: Axis<u8> = Axis::default_y_axis();
    let r = calibrate_starting_points(&mut horizontal, &mut vertical, &display());
    assert_eq!(r, Ok(()));
    assert_eq!(horizontal.starting_point_offset, Point { x: 3, y: 3 });
    assert_eq!(vertical.starting_point_offset, Point { x: 3, y: 3 });
}

#[test]
fn one_calibration_pass_aligns_the_starting_points() {
    let mut config: AxisConfig<u8> = AxisConfig::default();
    config.show_legend = Some(true);
    let mut horizontal = Axis::from_config(config);
    let mut vertical: Axis<u8> = Axis::default_y_axis();

    let before_h = horizontal.calculate_starting_coordinates(&display()).unwrap();
    let before_v = vertical.calculate_starting_coordinates(&display()).unwrap();
    assert_ne!(before_h.y, before_v.y);

    let r = calibrate_starting_points(&mut horizontal, &mut vertical, &display());
    assert_eq!(r, Ok(()));

    let after_h = horizontal.calculate_starting_coordinates(&display()).unwrap();
    let after_v = vertical.calculate_starting_coordinates(&display()).unwrap();
    assert_eq!(after_h, after_v);

    // A second pass finds nothing left to adjust: one pass was enough.
    let h_offset = horizontal.starting_point_offset;
    let v_offset = vertical.starting_point_offset;
    let r2 = calibrate_starting_points(&mut horizontal, &mut vertical, &display());
    assert_eq!(r2, Ok(()));
    assert_eq!(horizontal.starting_point_offset, h_offset);
    assert_eq!(vertical.starting_point_offset, v_offset);
}

#[test]
fn horizontal_axis_geometry_spans_to_the_arrow_padding() {
    let axis: Axis<u8> = Axis::default_x_axis();
    let geometry = axis.draw_geometry(&display()).unwrap().unwrap();
    assert_eq!(geometry.start, Point { x: 3, y: 125 });
    assert_eq!(geometry.end, Point { x: 152, y: 125 });
    assert_eq!(geometry.arrow.p1, Point { x: 152, y: 127 });
    assert_eq!(geometry.arrow.p2, Point { x: 152, y: 122 });
    assert_eq!(geometry.arrow.p3, Point { x: 157, y: 125 });
    assert_eq!(geometry.legend_anchor, None);
}

#[test]
fn vertical_axis_geometry_points_upward() {
    let axis: Axis<u8> = Axis::default_y_axis();
    let geometry = axis.draw_geometry(&display()).unwrap().unwrap();
    assert_eq!(geometry.start, Point { x: 3, y: 125 });
    assert_eq!(geometry.end, Point { x: 3, y: 8 });
    assert_eq!(geometry.arrow.p1, Point { x: 5, y: 8 });
    assert_eq!(geometry.arrow.p2, Point { x: 0, y: 8 });
    assert_eq!(geometry.arrow.p3, Point { x: 3, y: 3 });
}

#[test]
fn legend_anchor_is_reported_when_the_legend_is_shown() {
    let mut config: AxisConfig<u8> = AxisConfig::default();
    config.show_legend = Some(true);
    let axis = Axis::from_config(config);
    let geometry = axis.draw_geometry(&display()).unwrap().unwrap();
    // Bottom-center of a 160x128 display.
    assert_eq!(geometry.legend_anchor, Some(Point { x: 79, y: 127 }));
}

#[test]
fn invisible_horizontal_axis_draws_nothing() {
    let mut config: AxisConfig<u8> = AxisConfig::default();
    config.visible = Some(false);
    let axis = Axis::from_config(config);
    assert_eq!(axis.draw_geometry(&display()), Ok(None));
}

#[test]
fn invisible_vertical_axis_is_an_unsupported_state() {
    let mut config: AxisConfig<u8> = AxisConfig::default();
    config.visible = Some(false);
    config.direction = Some(Direction::Vertical);
    let axis = Axis::from_config(config);
    assert_eq!(
        axis.draw_geometry(&display()),
        Err(ChartError::InvisibleVerticalAxis)
    );
}

#[test]
fn triangle_helpers_mirror_each_other() {
    let axis: Axis<u8> = Axis::default_x_axis();
    let x_arrow = axis.x_triangle(&Point { x: 100, y: 50 });
    assert_eq!(x_arrow.p1, Point { x: 100, y: 52 });
    assert_eq!(x_arrow.p2, Point { x: 100, y: 47 });
    assert_eq!(x_arrow.p3, Point { x: 105, y: 50 });
    let y_arrow = axis.y_triangle(Point { x: 100, y: 50 });
    assert_eq!(y_arrow.p1, Point { x: 102, y: 50 });
    assert_eq!(y_arrow.p2, Point { x: 97, y: 50 });
    assert_eq!(y_arrow.p3, Point { x: 100, y: 45 });
}

#[test]
fn overlong_legend_is_an_explicit_error() {
    let mut config: AxisConfig<u8> = AxisConfig::default();
    config.show_legend = Some(true);
    config.legend = Some("x".repeat(4097));
    let axis = Axis::from_config(config);
    assert_eq!(
        axis.calculate_starting_coordinates(&display()),
        Err(ChartError::LegendTooLong)
    );
}

#[test]
fn longest_accepted_legend_is_still_measured() {
    let mut config: AxisConfig<u8> = AxisConfig::default();
    config.show_legend = Some(true);
    config.legend = Some("x".repeat(4096));
    let axis = Axis::from_config(config);
    let start = axis.calculate_starting_coordinates(&display()).unwrap();
    assert!(start.y <= 125 - 3);
}

#[test]
fn legend_on_an_oversized_display_is_out_of_bounds() {
    let mut config: AxisConfig<u8> = AxisConfig::default();
    config.show_legend = Some(true);
    let axis = Axis::from_config(config);
    let huge = Size { width: 0x4000_0001, height: 128 };
    assert_eq!(
        axis.calculate_starting_coordinates(&huge),
        Err(ChartError::OutOfBounds)
    );
}
