use vstd::prelude::*;

use crate::axis_label::{
    PriceAxisDisplayMode, PriceAxisLabelConfig, PriceAxisLabelPolicy, TimeAxisLabelConfig,
    TimeAxisLabelPolicy, TimeAxisSessionConfig,
};
use crate::error::{invalid_data, is_invalid_data, ChartError, ChartResult};
use crate::float_bits::{
    bits_finite_non_negative, bits_finite_positive, bits_is_finite, bits_is_zero,
    finite_non_negative, finite_positive, is_finite, is_zero, opt_bits_finite_positive,
    opt_finite_positive,
};
use crate::render_primitives::{color_error, color_valid, opt_color_ok, opt_color_valid};
use crate::render_style::{render_style_default, RenderStyle};

verus! {

/// How many requirements a render style is checked against.
pub const RENDER_STYLE_REQUIREMENT_COUNT: usize = 94;

/// The `k`-th requirement on a render style, in the order in which they are checked: whether
/// it holds, and the text of the error reported when it is the first that fails.
pub open spec fn render_style_requirement(s: RenderStyle, k: usize) -> (bool, Seq<char>) {
    match k {
        0 => (color_valid(s.series_line_color), color_error()),
        1 => (color_valid(s.grid_line_color), color_error()),
        2 => (color_valid(s.price_axis_grid_line_color), color_error()),
        3 => (color_valid(s.major_grid_line_color), color_error()),
        4 => (color_valid(s.axis_border_color), color_error()),
        5 => (color_valid(s.price_axis_tick_mark_color), color_error()),
        6 => (color_valid(s.time_axis_tick_mark_color), color_error()),
        7 => (color_valid(s.major_time_tick_mark_color), color_error()),
        8 => (color_valid(s.time_axis_label_color), color_error()),
        9 => (color_valid(s.major_time_label_color), color_error()),
        10 => (color_valid(s.axis_label_color), color_error()),
        11 => (color_valid(s.crosshair_line_color), color_error()),
        12 => (opt_color_valid(s.crosshair_horizontal_line_color), color_error()),
        13 => (opt_color_valid(s.crosshair_vertical_line_color), color_error()),
        14 => (color_valid(s.crosshair_time_label_color), color_error()),
        15 => (color_valid(s.crosshair_price_label_color), color_error()),
        16 => (color_valid(s.crosshair_label_box_color), color_error()),
        17 => (opt_color_valid(s.crosshair_time_label_box_color), color_error()),
        18 => (opt_color_valid(s.crosshair_price_label_box_color), color_error()),
        19 => (color_valid(s.crosshair_label_box_text_color), color_error()),
        20 => (opt_color_valid(s.crosshair_time_label_box_text_color), color_error()),
        21 => (opt_color_valid(s.crosshair_price_label_box_text_color), color_error()),
        22 => (color_valid(s.crosshair_label_box_border_color), color_error()),
        23 => (color_valid(s.crosshair_time_label_box_border_color), color_error()),
        24 => (color_valid(s.crosshair_price_label_box_border_color), color_error()),
        25 => (color_valid(s.last_price_line_color), color_error()),
        26 => (color_valid(s.last_price_label_color), color_error()),
        27 => (color_valid(s.last_price_up_color), color_error()),
        28 => (color_valid(s.last_price_down_color), color_error()),
        29 => (color_valid(s.last_price_neutral_color), color_error()),
        30 => (color_valid(s.last_price_label_box_color), color_error()),
        31 => (color_valid(s.last_price_label_box_text_color), color_error()),
        32 => (color_valid(s.last_price_label_box_border_color), color_error()),
        33 => (finite_positive(s.grid_line_width), "render style `grid_line_width` must be finite and > 0"@),
        34 => (finite_positive(s.price_axis_grid_line_width), "render style `price_axis_grid_line_width` must be finite and > 0"@),
        35 => (finite_positive(s.major_grid_line_width), "render style `major_grid_line_width` must be finite and > 0"@),
        36 => (finite_positive(s.axis_line_width), "render style `axis_line_width` must be finite and > 0"@),
        37 => (finite_positive(s.price_axis_tick_mark_width), "render style `price_axis_tick_mark_width` must be finite and > 0"@),
        38 => (finite_positive(s.time_axis_tick_mark_width), "render style `time_axis_tick_mark_width` must be finite and > 0"@),
        39 => (finite_positive(s.major_time_tick_mark_width), "render style `major_time_tick_mark_width` must be finite and > 0"@),
        40 => (finite_positive(s.crosshair_line_width), "render style `crosshair_line_width` must be finite and > 0"@),
        41 => (finite_positive(s.crosshair_time_label_font_size_px), "render style `crosshair_time_label_font_size_px` must be finite and > 0"@),
        42 => (finite_positive(s.crosshair_price_label_font_size_px), "render style `crosshair_price_label_font_size_px` must be finite and > 0"@),
        43 => (finite_positive(s.crosshair_axis_label_font_size_px), "render style `crosshair_axis_label_font_size_px` must be finite and > 0"@),
        44 => (finite_positive(s.last_price_line_width), "render style `last_price_line_width` must be finite and > 0"@),
        45 => (finite_positive(s.major_time_label_font_size_px), "render style `major_time_label_font_size_px` must be finite and > 0"@),
        46 => (finite_positive(s.time_axis_label_font_size_px), "render style `time_axis_label_font_size_px` must be finite and > 0"@),
        47 => (finite_positive(s.last_price_label_font_size_px), "render style `last_price_label_font_size_px` must be finite and > 0"@),
        48 => (finite_positive(s.last_price_label_offset_y_px), "render style `last_price_label_offset_y_px` must be finite and > 0"@),
        49 => (finite_positive(s.price_axis_label_font_size_px), "render style `price_axis_label_font_size_px` must be finite and > 0"@),
        50 => (finite_positive(s.price_axis_width_px), "render style `price_axis_width_px` must be finite and > 0"@),
        51 => (finite_positive(s.time_axis_height_px), "render style `time_axis_height_px` must be finite and > 0"@),
        52 => (opt_finite_positive(s.crosshair_horizontal_line_width), "render style `crosshair_horizontal_line_width` must be finite and > 0"@),
        53 => (opt_finite_positive(s.crosshair_vertical_line_width), "render style `crosshair_vertical_line_width` must be finite and > 0"@),
        54 => (finite_non_negative(s.price_axis_label_padding_right_px), "render style `price_axis_label_padding_right_px` must be finite and >= 0"@),
        55 => (finite_non_negative(s.time_axis_label_offset_y_px), "render style `time_axis_label_offset_y_px` must be finite and >= 0"@),
        56 => (finite_non_negative(s.crosshair_time_label_padding_x_px), "render style `crosshair_time_label_padding_x_px` must be finite and >= 0"@),
        57 => (finite_non_negative(s.crosshair_time_label_offset_y_px), "render style `crosshair_time_label_offset_y_px` must be finite and >= 0"@),
        58 => (finite_non_negative(s.major_time_label_offset_y_px), "render style `major_time_label_offset_y_px` must be finite and >= 0"@),
        59 => (finite_non_negative(s.time_axis_tick_mark_length_px), "render style `time_axis_tick_mark_length_px` must be finite and >= 0"@),
        60 => (finite_non_negative(s.major_time_tick_mark_length_px), "render style `major_time_tick_mark_length_px` must be finite and >= 0"@),
        61 => (finite_non_negative(s.last_price_label_padding_right_px), "render style `last_price_label_padding_right_px` must be finite and >= 0"@),
        62 => (finite_non_negative(s.crosshair_label_box_padding_x_px), "render style `crosshair_label_box_padding_x_px` must be finite and >= 0"@),
        63 => (finite_non_negative(s.crosshair_label_box_padding_y_px), "render style `crosshair_label_box_padding_y_px` must be finite and >= 0"@),
        64 => (finite_non_negative(s.crosshair_label_box_min_width_px), "render style `crosshair_label_box_min_width_px` must be finite and >= 0"@),
        65 => (finite_non_negative(s.crosshair_time_label_box_min_width_px), "render style `crosshair_time_label_box_min_width_px` must be finite and >= 0"@),
        66 => (finite_non_negative(s.crosshair_price_label_box_min_width_px), "render style `crosshair_price_label_box_min_width_px` must be finite and >= 0"@),
        67 => (finite_non_negative(s.crosshair_label_box_clip_margin_px), "render style `crosshair_label_box_clip_margin_px` must be finite and >= 0"@),
        68 => (finite_non_negative(s.crosshair_time_label_box_clip_margin_px), "render style `crosshair_time_label_box_clip_margin_px` must be finite and >= 0"@),
        69 => (finite_non_negative(s.crosshair_price_label_box_clip_margin_px), "render style `crosshair_price_label_box_clip_margin_px` must be finite and >= 0"@),
        70 => (finite_non_negative(s.crosshair_label_box_stabilization_step_px), "render style `crosshair_label_box_stabilization_step_px` must be finite and >= 0"@),
        71 => (finite_non_negative(s.crosshair_time_label_box_stabilization_step_px), "render style `crosshair_time_label_box_stabilization_step_px` must be finite and >= 0"@),
        72 => (finite_non_negative(s.crosshair_price_label_box_stabilization_step_px), "render style `crosshair_price_label_box_stabilization_step_px` must be finite and >= 0"@),
        73 => (finite_non_negative(s.crosshair_label_box_border_width_px), "render style `crosshair_label_box_border_width_px` must be finite and >= 0"@),
        74 => (finite_non_negative(s.crosshair_time_label_box_border_width_px), "render style `crosshair_time_label_box_border_width_px` must be finite and >= 0"@),
        75 => (finite_non_negative(s.crosshair_price_label_box_border_width_px), "render style `crosshair_price_label_box_border_width_px` must be finite and >= 0"@),
        76 => (finite_non_negative(s.crosshair_label_box_corner_radius_px), "render style `crosshair_label_box_corner_radius_px` must be finite and >= 0"@),
        77 => (finite_non_negative(s.crosshair_time_label_box_corner_radius_px), "render style `crosshair_time_label_box_corner_radius_px` must be finite and >= 0"@),
        78 => (finite_non_negative(s.crosshair_price_label_box_corner_radius_px), "render style `crosshair_price_label_box_corner_radius_px` must be finite and >= 0"@),
        79 => (finite_non_negative(s.crosshair_time_label_box_padding_x_px), "render style `crosshair_time_label_box_padding_x_px` must be finite and >= 0"@),
        80 => (finite_non_negative(s.crosshair_time_label_box_padding_y_px), "render style `crosshair_time_label_box_padding_y_px` must be finite and >= 0"@),
        81 => (finite_non_negative(s.crosshair_price_label_box_padding_x_px), "render style `crosshair_price_label_box_padding_x_px` must be finite and >= 0"@),
        82 => (finite_non_negative(s.crosshair_price_label_box_padding_y_px), "render style `crosshair_price_label_box_padding_y_px` must be finite and >= 0"@),
        83 => (finite_non_negative(s.price_axis_tick_mark_length_px), "render style `price_axis_tick_mark_length_px` must be finite and >= 0"@),
        84 => (finite_non_negative(s.price_axis_label_offset_y_px), "render style `price_axis_label_offset_y_px` must be finite and >= 0"@),
        85 => (finite_non_negative(s.crosshair_price_label_padding_right_px), "render style `crosshair_price_label_padding_right_px` must be finite and >= 0"@),
        86 => (finite_non_negative(s.crosshair_price_label_offset_y_px), "render style `crosshair_price_label_offset_y_px` must be finite and >= 0"@),
        87 => (finite_non_negative(s.last_price_label_offset_y_px), "render style `last_price_label_offset_y_px` must be finite and >= 0"@),
        88 => (finite_non_negative(s.last_price_label_exclusion_px), "render style `last_price_label_exclusion_px` must be finite and >= 0"@),
        89 => (finite_non_negative(s.last_price_label_box_padding_y_px), "render style `last_price_label_box_padding_y_px` must be finite and >= 0"@),
        90 => (finite_non_negative(s.last_price_label_box_padding_x_px), "render style `last_price_label_box_padding_x_px` must be finite and >= 0"@),
        91 => (finite_positive(s.last_price_label_box_min_width_px), "render style `last_price_label_box_min_width_px` must be finite and > 0"@),
        92 => (finite_non_negative(s.last_price_label_box_border_width_px), "render style `last_price_label_box_border_width_px` must be finite and >= 0"@),
        _ => (finite_non_negative(s.last_price_label_box_corner_radius_px), "render style `last_price_label_box_corner_radius_px` must be finite and >= 0"@),
    }
}

fn render_style_requirement_at(s: &RenderStyle, k: usize) -> (r: (bool, &'static str))
    requires
        k < RENDER_STYLE_REQUIREMENT_COUNT,
    ensures
        r.0 == render_style_requirement(*s, k).0,
        r.1@ == render_style_requirement(*s, k).1,
{
    match k {
        0 => (s.series_line_color.is_valid(), "color channels must be finite and in [0, 1]"),
        1 => (s.grid_line_color.is_valid(), "color channels must be finite and in [0, 1]"),
        2 => (s.price_axis_grid_line_color.is_valid(), "color channels must be finite and in [0, 1]"),
        3 => (s.major_grid_line_color.is_valid(), "color channels must be finite and in [0, 1]"),
        4 => (s.axis_border_color.is_valid(), "color channels must be finite and in [0, 1]"),
        5 => (s.price_axis_tick_mark_color.is_valid(), "color channels must be finite and in [0, 1]"),
        6 => (s.time_axis_tick_mark_color.is_valid(), "color channels must be finite and in [0, 1]"),
        7 => (s.major_time_tick_mark_color.is_valid(), "color channels must be finite and in [0, 1]"),
        8 => (s.time_axis_label_color.is_valid(), "color channels must be finite and in [0, 1]"),
        9 => (s.major_time_label_color.is_valid(), "color channels must be finite and in [0, 1]"),
        10 => (s.axis_label_color.is_valid(), "color channels must be finite and in [0, 1]"),
        11 => (s.crosshair_line_color.is_valid(), "color channels must be finite and in [0, 1]"),
        12 => (opt_color_ok(s.crosshair_horizontal_line_color), "color channels must be finite and in [0, 1]"),
        13 => (opt_color_ok(s.crosshair_vertical_line_color), "color channels must be finite and in [0, 1]"),
        14 => (s.crosshair_time_label_color.is_valid(), "color channels must be finite and in [0, 1]"),
        15 => (s.crosshair_price_label_color.is_valid(), "color channels must be finite and in [0, 1]"),
        16 => (s.crosshair_label_box_color.is_valid(), "color channels must be finite and in [0, 1]"),
        17 => (opt_color_ok(s.crosshair_time_label_box_color), "color channels must be finite and in [0, 1]"),
        18 => (opt_color_ok(s.crosshair_price_label_box_color), "color channels must be finite and in [0, 1]"),
        19 => (s.crosshair_label_box_text_color.is_valid(), "color channels must be finite and in [0, 1]"),
        20 => (opt_color_ok(s.crosshair_time_label_box_text_color), "color channels must be finite and in [0, 1]"),
        21 => (opt_color_ok(s.crosshair_price_label_box_text_color), "color channels must be finite and in [0, 1]"),
        22 => (s.crosshair_label_box_border_color.is_valid(), "color channels must be finite and in [0, 1]"),
        23 => (s.crosshair_time_label_box_border_color.is_valid(), "color channels must be finite and in [0, 1]"),
        24 => (s.crosshair_price_label_box_border_color.is_valid(), "color channels must be finite and in [0, 1]"),
        25 => (s.last_price_line_color.is_valid(), "color channels must be finite and in [0, 1]"),
        26 => (s.last_price_label_color.is_valid(), "color channels must be finite and in [0, 1]"),
        27 => (s.last_price_up_color.is_valid(), "color channels must be finite and in [0, 1]"),
        28 => (s.last_price_down_color.is_valid(), "color channels must be finite and in [0, 1]"),
        29 => (s.last_price_neutral_color.is_valid(), "color channels must be finite and in [0, 1]"),
        30 => (s.last_price_label_box_color.is_valid(), "color channels must be finite and in [0, 1]"),
        31 => (s.last_price_label_box_text_color.is_valid(), "color channels must be finite and in [0, 1]"),
        32 => (s.last_price_label_box_border_color.is_valid(), "color channels must be finite and in [0, 1]"),
        33 => (bits_finite_positive(s.grid_line_width), "render style `grid_line_width` must be finite and > 0"),
        34 => (bits_finite_positive(s.price_axis_grid_line_width), "render style `price_axis_grid_line_width` must be finite and > 0"),
        35 => (bits_finite_positive(s.major_grid_line_width), "render style `major_grid_line_width` must be finite and > 0"),
        36 => (bits_finite_positive(s.axis_line_width), "render style `axis_line_width` must be finite and > 0"),
        37 => (bits_finite_positive(s.price_axis_tick_mark_width), "render style `price_axis_tick_mark_width` must be finite and > 0"),
        38 => (bits_finite_positive(s.time_axis_tick_mark_width), "render style `time_axis_tick_mark_width` must be finite and > 0"),
        39 => (bits_finite_positive(s.major_time_tick_mark_width), "render style `major_time_tick_mark_width` must be finite and > 0"),
        40 => (bits_finite_positive(s.crosshair_line_width), "render style `crosshair_line_width` must be finite and > 0"),
        41 => (bits_finite_positive(s.crosshair_time_label_font_size_px), "render style `crosshair_time_label_font_size_px` must be finite and > 0"),
        42 => (bits_finite_positive(s.crosshair_price_label_font_size_px), "render style `crosshair_price_label_font_size_px` must be finite and > 0"),
        43 => (bits_finite_positive(s.crosshair_axis_label_font_size_px), "render style `crosshair_axis_label_font_size_px` must be finite and > 0"),
        44 => (bits_finite_positive(s.last_price_line_width), "render style `last_price_line_width` must be finite and > 0"),
        45 => (bits_finite_positive(s.major_time_label_font_size_px), "render style `major_time_label_font_size_px` must be finite and > 0"),
        46 => (bits_finite_positive(s.time_axis_label_font_size_px), "render style `time_axis_label_font_size_px` must be finite and > 0"),
        47 => (bits_finite_positive(s.last_price_label_font_size_px), "render style `last_price_label_font_size_px` must be finite and > 0"),
        48 => (bits_finite_positive(s.last_price_label_offset_y_px), "render style `last_price_label_offset_y_px` must be finite and > 0"),
        49 => (bits_finite_positive(s.price_axis_label_font_size_px), "render style `price_axis_label_font_size_px` must be finite and > 0"),
        50 => (bits_finite_positive(s.price_axis_width_px), "render style `price_axis_width_px` must be finite and > 0"),
        51 => (bits_finite_positive(s.time_axis_height_px), "render style `time_axis_height_px` must be finite and > 0"),
        52 => (opt_bits_finite_positive(s.crosshair_horizontal_line_width), "render style `crosshair_horizontal_line_width` must be finite and > 0"),
        53 => (opt_bits_finite_positive(s.crosshair_vertical_line_width), "render style `crosshair_vertical_line_width` must be finite and > 0"),
        54 => (bits_finite_non_negative(s.price_axis_label_padding_right_px), "render style `price_axis_label_padding_right_px` must be finite and >= 0"),
        55 => (bits_finite_non_negative(s.time_axis_label_offset_y_px), "render style `time_axis_label_offset_y_px` must be finite and >= 0"),
        56 => (bits_finite_non_negative(s.crosshair_time_label_padding_x_px), "render style `crosshair_time_label_padding_x_px` must be finite and >= 0"),
        57 => (bits_finite_non_negative(s.crosshair_time_label_offset_y_px), "render style `crosshair_time_label_offset_y_px` must be finite and >= 0"),
        58 => (bits_finite_non_negative(s.major_time_label_offset_y_px), "render style `major_time_label_offset_y_px` must be finite and >= 0"),
        59 => (bits_finite_non_negative(s.time_axis_tick_mark_length_px), "render style `time_axis_tick_mark_length_px` must be finite and >= 0"),
        60 => (bits_finite_non_negative(s.major_time_tick_mark_length_px), "render style `major_time_tick_mark_length_px` must be finite and >= 0"),
        61 => (bits_finite_non_negative(s.last_price_label_padding_right_px), "render style `last_price_label_padding_right_px` must be finite and >= 0"),
        62 => (bits_finite_non_negative(s.crosshair_label_box_padding_x_px), "render style `crosshair_label_box_padding_x_px` must be finite and >= 0"),
        63 => (bits_finite_non_negative(s.crosshair_label_box_padding_y_px), "render style `crosshair_label_box_padding_y_px` must be finite and >= 0"),
        64 => (bits_finite_non_negative(s.crosshair_label_box_min_width_px), "render style `crosshair_label_box_min_width_px` must be finite and >= 0"),
        65 => (bits_finite_non_negative(s.crosshair_time_label_box_min_width_px), "render style `crosshair_time_label_box_min_width_px` must be finite and >= 0"),
        66 => (bits_finite_non_negative(s.crosshair_price_label_box_min_width_px), "render style `crosshair_price_label_box_min_width_px` must be finite and >= 0"),
        67 => (bits_finite_non_negative(s.crosshair_label_box_clip_margin_px), "render style `crosshair_label_box_clip_margin_px` must be finite and >= 0"),
        68 => (bits_finite_non_negative(s.crosshair_time_label_box_clip_margin_px), "render style `crosshair_time_label_box_clip_margin_px` must be finite and >= 0"),
        69 => (bits_finite_non_negative(s.crosshair_price_label_box_clip_margin_px), "render style `crosshair_price_label_box_clip_margin_px` must be finite and >= 0"),
        70 => (bits_finite_non_negative(s.crosshair_label_box_stabilization_step_px), "render style `crosshair_label_box_stabilization_step_px` must be finite and >= 0"),
        71 => (bits_finite_non_negative(s.crosshair_time_label_box_stabilization_step_px), "render style `crosshair_time_label_box_stabilization_step_px` must be finite and >= 0"),
        72 => (bits_finite_non_negative(s.crosshair_price_label_box_stabilization_step_px), "render style `crosshair_price_label_box_stabilization_step_px` must be finite and >= 0"),
        73 => (bits_finite_non_negative(s.crosshair_label_box_border_width_px), "render style `crosshair_label_box_border_width_px` must be finite and >= 0"),
        74 => (bits_finite_non_negative(s.crosshair_time_label_box_border_width_px), "render style `crosshair_time_label_box_border_width_px` must be finite and >= 0"),
        75 => (bits_finite_non_negative(s.crosshair_price_label_box_border_width_px), "render style `crosshair_price_label_box_border_width_px` must be finite and >= 0"),
        76 => (bits_finite_non_negative(s.crosshair_label_box_corner_radius_px), "render style `crosshair_label_box_corner_radius_px` must be finite and >= 0"),
        77 => (bits_finite_non_negative(s.crosshair_time_label_box_corner_radius_px), "render style `crosshair_time_label_box_corner_radius_px` must be finite and >= 0"),
        78 => (bits_finite_non_negative(s.crosshair_price_label_box_corner_radius_px), "render style `crosshair_price_label_box_corner_radius_px` must be finite and >= 0"),
        79 => (bits_finite_non_negative(s.crosshair_time_label_box_padding_x_px), "render style `crosshair_time_label_box_padding_x_px` must be finite and >= 0"),
        80 => (bits_finite_non_negative(s.crosshair_time_label_box_padding_y_px), "render style `crosshair_time_label_box_padding_y_px` must be finite and >= 0"),
        81 => (bits_finite_non_negative(s.crosshair_price_label_box_padding_x_px), "render style `crosshair_price_label_box_padding_x_px` must be finite and >= 0"),
        82 => (bits_finite_non_negative(s.crosshair_price_label_box_padding_y_px), "render style `crosshair_price_label_box_padding_y_px` must be finite and >= 0"),
        83 => (bits_finite_non_negative(s.price_axis_tick_mark_length_px), "render style `price_axis_tick_mark_length_px` must be finite and >= 0"),
        84 => (bits_finite_non_negative(s.price_axis_label_offset_y_px), "render style `price_axis_label_offset_y_px` must be finite and >= 0"),
        85 => (bits_finite_non_negative(s.crosshair_price_label_padding_right_px), "render style `crosshair_price_label_padding_right_px` must be finite and >= 0"),
        86 => (bits_finite_non_negative(s.crosshair_price_label_offset_y_px), "render style `crosshair_price_label_offset_y_px` must be finite and >= 0"),
        87 => (bits_finite_non_negative(s.last_price_label_offset_y_px), "render style `last_price_label_offset_y_px` must be finite and >= 0"),
        88 => (bits_finite_non_negative(s.last_price_label_exclusion_px), "render style `last_price_label_exclusion_px` must be finite and >= 0"),
        89 => (bits_finite_non_negative(s.last_price_label_box_padding_y_px), "render style `last_price_label_box_padding_y_px` must be finite and >= 0"),
        90 => (bits_finite_non_negative(s.last_price_label_box_padding_x_px), "render style `last_price_label_box_padding_x_px` must be finite and >= 0"),
        91 => (bits_finite_positive(s.last_price_label_box_min_width_px), "render style `last_price_label_box_min_width_px` must be finite and > 0"),
        92 => (bits_finite_non_negative(s.last_price_label_box_border_width_px), "render style `last_price_label_box_border_width_px` must be finite and >= 0"),
        _ => (bits_finite_non_negative(s.last_price_label_box_corner_radius_px), "render style `last_price_label_box_corner_radius_px` must be finite and >= 0"),
    }
}
/// Every requirement on the render style holds.
pub open spec fn render_style_valid(s: RenderStyle) -> bool {
    forall|k: usize| k < RENDER_STYLE_REQUIREMENT_COUNT ==> #[trigger] render_style_requirement(s, k).0
}

/// `k` is the first requirement on the render style that fails.
pub open spec fn render_style_first_failure(s: RenderStyle, k: usize) -> bool {
    &&& k < RENDER_STYLE_REQUIREMENT_COUNT
    &&& !render_style_requirement(s, k).0
    &&& forall|j: usize| j < k ==> #[trigger] render_style_requirement(s, j).0
}

/// Checks every color, width, size, padding and offset of a render style.
///
/// Returns the style when all requirements hold; otherwise the error of the first requirement
/// that fails.
pub fn validate_render_style(style: RenderStyle) -> (r: ChartResult<RenderStyle>)
    ensures
        r is Ok <==> render_style_valid(style),
        r matches Ok(s) ==> s == style,
        r is Err ==> exists|k: usize|
            render_style_first_failure(style, k) && is_invalid_data(
                r,
                #[trigger] render_style_requirement(style, k).1,
            ),
{
    let mut k: usize = 0;
    while k < RENDER_STYLE_REQUIREMENT_COUNT
        invariant
            k <= RENDER_STYLE_REQUIREMENT_COUNT,
            forall|j: usize| j < k ==> #[trigger] render_style_requirement(style, j).0,
        decreases RENDER_STYLE_REQUIREMENT_COUNT - k,
    {
        let (holds, text) = render_style_requirement_at(&style, k);
        if !holds {
            let r = Err(invalid_data(text));
            assert(render_style_first_failure(style, k));
            return r;
        }
        k += 1;
    }
    Ok(style)
}

/// The default render style meets every requirement.
pub proof fn lemma_default_render_style_valid()
    ensures
        render_style_valid(render_style_default()),
{
    let s = render_style_default();
    assert forall|k: usize| k < RENDER_STYLE_REQUIREMENT_COUNT implies #[trigger] render_style_requirement(
        s,
        k,
    ).0 by {
    }
}

/// The result is the value itself when no error is found, and otherwise an `InvalidData`
/// error with the given text.
pub open spec fn checked_result<T>(r: ChartResult<T>, error: Option<Seq<char>>, value: T) -> bool {
    match error {
        None => r == Ok::<T, ChartError>(value),
        Some(text) => is_invalid_data(r, text),
    }
}

/// The first failing check of a trading session: each hour below 24, each minute below 60,
/// then distinct start and end.
pub open spec fn session_config_error(s: TimeAxisSessionConfig) -> Option<Seq<char>> {
    if s.start_hour >= 24 {
        Some("time-axis session `start_hour` must be < 24"@)
    } else if s.start_minute >= 60 {
        Some("time-axis session `start_minute` must be < 60"@)
    } else if s.end_hour >= 24 {
        Some("time-axis session `end_hour` must be < 24"@)
    } else if s.end_minute >= 60 {
        Some("time-axis session `end_minute` must be < 60"@)
    } else if s.spec_start_minute_of_day() == s.spec_end_minute_of_day() {
        Some("time-axis session start/end must not be equal"@)
    } else {
        None
    }
}

/// The first failing check of a time-axis label configuration: a decimal precision of at most
/// 12, a time zone offset within 14 hours of UTC, then the session if there is one.
pub open spec fn time_axis_label_config_error(c: TimeAxisLabelConfig) -> Option<Seq<char>> {
    if c.policy matches TimeAxisLabelPolicy::LogicalDecimal { precision } && precision > 12 {
        Some("time-axis decimal precision must be <= 12"@)
    } else if !(-840 <= c.timezone.spec_offset_minutes() <= 840) {
        Some("time-axis timezone offset must be between -840 and 840 minutes"@)
    } else {
        match c.session {
            Some(s) => session_config_error(s),
            None => None,
        }
    }
}

/// The first failing check of a price-axis label configuration: a decimal precision of at
/// most 12, a finite positive minimum move, then a finite non-zero display base price.
pub open spec fn price_axis_label_config_error(c: PriceAxisLabelConfig) -> Option<Seq<char>> {
    if c.policy matches PriceAxisLabelPolicy::FixedDecimals { precision } && precision > 12 {
        Some("price-axis decimal precision must be <= 12"@)
    } else if c.policy matches PriceAxisLabelPolicy::MinMove { min_move, .. } && !finite_positive(
        min_move,
    ) {
        Some("price-axis min_move must be finite and > 0"@)
    } else {
        match c.display_mode {
            PriceAxisDisplayMode::Percentage { base_price: Some(b) }
            | PriceAxisDisplayMode::IndexedTo100 { base_price: Some(b) } => {
                if !is_finite(b) || is_zero(b) {
                    Some("price-axis display base_price must be finite and != 0"@)
                } else {
                    None
                }
            },
            _ => None,
        }
    }
}

/// Checks that a trading session has valid hours and minutes and does not start where it
/// ends.
pub fn validate_time_axis_session_config(session: TimeAxisSessionConfig) -> (r: ChartResult<
    TimeAxisSessionConfig,
>)
    ensures
        checked_result(r, session_config_error(session), session),
{
    if session.start_hour >= 24 {
        return Err(invalid_data("time-axis session `start_hour` must be < 24"));
    }
    if session.start_minute >= 60 {
        return Err(invalid_data("time-axis session `start_minute` must be < 60"));
    }
    if session.end_hour >= 24 {
        return Err(invalid_data("time-axis session `end_hour` must be < 24"));
    }
    if session.end_minute >= 60 {
        return Err(invalid_data("time-axis session `end_minute` must be < 60"));
    }
    if session.start_minute_of_day() == session.end_minute_of_day() {
        return Err(invalid_data("time-axis session start/end must not be equal"));
    }
    Ok(session)
}

/// Checks a time-axis label configuration.
pub fn validate_time_axis_label_config(config: TimeAxisLabelConfig) -> (r: ChartResult<
    TimeAxisLabelConfig,
>)
    ensures
        checked_result(r, time_axis_label_config_error(config), config),
{
    if let TimeAxisLabelPolicy::LogicalDecimal { precision } = config.policy {
        if precision > 12 {
            return Err(invalid_data("time-axis decimal precision must be <= 12"));
        }
    }
    let offset_minutes: i32 = config.timezone.offset_minutes() as i32;
    if !(-14 * 60 <= offset_minutes && offset_minutes <= 14 * 60) {
        return Err(
            invalid_data("time-axis timezone offset must be between -840 and 840 minutes"),
        );
    }
    if let Some(session) = config.session {
        if let Err(e) = validate_time_axis_session_config(session) {
            return Err(e);
        }
    }
    Ok(config)
}

/// Checks a price-axis label configuration.
pub fn validate_price_axis_label_config(config: PriceAxisLabelConfig) -> (r: ChartResult<
    PriceAxisLabelConfig,
>)
    ensures
        checked_result(r, price_axis_label_config_error(config), config),
{
    match config.policy {
        PriceAxisLabelPolicy::FixedDecimals { precision } => {
            if precision > 12 {
                return Err(invalid_data("price-axis decimal precision must be <= 12"));
            }
        },
        PriceAxisLabelPolicy::MinMove { min_move, .. } => {
            if !bits_finite_positive(min_move) {
                return Err(invalid_data("price-axis min_move must be finite and > 0"));
            }
        },
        PriceAxisLabelPolicy::Adaptive => {},
    }
    match config.display_mode {
        PriceAxisDisplayMode::Normal => {},
        PriceAxisDisplayMode::Percentage { base_price }
        | PriceAxisDisplayMode::IndexedTo100 { base_price } => {
            if let Some(base_price) = base_price {
                if !bits_is_finite(base_price) || bits_is_zero(base_price) {
                    return Err(
                        invalid_data("price-axis display base_price must be finite and != 0"),
                    );
                }
            }
        },
    }
    Ok(config)
}

} // verus!
