use vstd::prelude::*;

use crate::float_bits::{bits_eq, eq, opt_bits_eq, opt_bits_equal, F64Bits};
use crate::text::str_equal;
use crate::render_primitives::{
    color_eq, color_rgb, opt_color_eq, opt_color_equal, Color, LineStrokeStyle, TextHAlign,
};

verus! {

/// Source policy used for latest-price marker selection.
#[derive(Debug, Clone, Copy, PartialEq, Eq, Structural)]
pub enum LastPriceSourceMode {
    /// Use the newest sample across full series data.
    LatestData,
    /// Use the newest sample that is currently inside visible time range.
    LatestVisible,
}

impl Default for LastPriceSourceMode {
    fn default() -> (r: LastPriceSourceMode)
        ensures
            r == LastPriceSourceMode::LatestData,
    {
        LastPriceSourceMode::LatestData
    }
}

/// Width policy used for latest-price label box layout.
#[derive(Debug, Clone, Copy, PartialEq, Eq, Structural)]
pub enum LastPriceLabelBoxWidthMode {
    /// Stretch label box to the full axis panel width.
    FullAxis,
    /// Fit label box to text width using configured horizontal padding/min width.
    FitText,
}

impl Default for LastPriceLabelBoxWidthMode {
    fn default() -> (r: LastPriceLabelBoxWidthMode)
        ensures
            r == LastPriceLabelBoxWidthMode::FullAxis,
    {
        LastPriceLabelBoxWidthMode::FullAxis
    }
}

/// Width policy used for crosshair axis-label box layout.
#[derive(Debug, Clone, Copy, PartialEq, Eq, Structural)]
pub enum CrosshairLabelBoxWidthMode {
    /// Stretch label box to the full axis panel width.
    FullAxis,
    /// Fit label box to text width using configured horizontal padding.
    FitText,
}

impl Default for CrosshairLabelBoxWidthMode {
    fn default() -> (r: CrosshairLabelBoxWidthMode)
        ensures
            r == CrosshairLabelBoxWidthMode::FitText,
    {
        CrosshairLabelBoxWidthMode::FitText
    }
}

/// Vertical anchor used for crosshair axis-label box layout around label Y.
#[derive(Debug, Clone, Copy, PartialEq, Eq, Structural)]
pub enum CrosshairLabelBoxVerticalAnchor {
    Top,
    Center,
    Bottom,
}

impl Default for CrosshairLabelBoxVerticalAnchor {
    fn default() -> (r: CrosshairLabelBoxVerticalAnchor)
        ensures
            r == CrosshairLabelBoxVerticalAnchor::Center,
    {
        CrosshairLabelBoxVerticalAnchor::Center
    }
}

/// Horizontal anchor used for crosshair axis-label box layout.
#[derive(Debug, Clone, Copy, PartialEq, Eq, Structural)]
pub enum CrosshairLabelBoxHorizontalAnchor {
    Left,
    Center,
    Right,
}

impl Default for CrosshairLabelBoxHorizontalAnchor {
    fn default() -> (r: CrosshairLabelBoxHorizontalAnchor)
        ensures
            r == CrosshairLabelBoxHorizontalAnchor::Center,
    {
        CrosshairLabelBoxHorizontalAnchor::Center
    }
}

/// Overflow policy used for crosshair axis-label box layout.
#[derive(Debug, Clone, Copy, PartialEq, Eq, Structural)]
pub enum CrosshairLabelBoxOverflowPolicy {
    ClipToAxis,
    AllowOverflow,
}

impl Default for CrosshairLabelBoxOverflowPolicy {
    fn default() -> (r: CrosshairLabelBoxOverflowPolicy)
        ensures
            r == CrosshairLabelBoxOverflowPolicy::ClipToAxis,
    {
        CrosshairLabelBoxOverflowPolicy::ClipToAxis
    }
}

/// Priority policy used when crosshair time/price label boxes overlap.
#[derive(Debug, Clone, Copy, PartialEq, Eq, Structural)]
pub enum CrosshairLabelBoxVisibilityPriority {
    KeepBoth,
    PreferTime,
    PreferPrice,
}

impl Default for CrosshairLabelBoxVisibilityPriority {
    fn default() -> (r: CrosshairLabelBoxVisibilityPriority)
        ensures
            r == CrosshairLabelBoxVisibilityPriority::KeepBoth,
    {
        CrosshairLabelBoxVisibilityPriority::KeepBoth
    }
}

/// Z-order policy used when rendering crosshair time/price axis-label boxes.
#[derive(Debug, Clone, Copy, PartialEq, Eq, Structural)]
pub enum CrosshairLabelBoxZOrderPolicy {
    PriceAboveTime,
    TimeAbovePrice,
}

impl Default for CrosshairLabelBoxZOrderPolicy {
    fn default() -> (r: CrosshairLabelBoxZOrderPolicy)
        ensures
            r == CrosshairLabelBoxZOrderPolicy::PriceAboveTime,
    {
        CrosshairLabelBoxZOrderPolicy::PriceAboveTime
    }
}


/// Two optional texts are both absent, or both present with the same characters.
pub open spec fn opt_str_eq(a: Option<&'static str>, b: Option<&'static str>) -> bool {
    match (a, b) {
        (Some(x), Some(y)) => x@ == y@,
        (None, None) => true,
        _ => false,
    }
}

fn opt_str_equal(a: Option<&'static str>, b: Option<&'static str>) -> (r: bool)
    ensures
        r == opt_str_eq(a, b),
{
    match (a, b) {
        (Some(x), Some(y)) => str_equal(x, y),
        (None, None) => true,
        _ => false,
    }
}

/// Style contract for the current render frame.
///
/// Lengths, widths and font sizes are encoded `f64` values.
#[derive(Debug, Clone, Copy)]
pub struct RenderStyle {
    pub series_line_color: Color,
    pub grid_line_color: Color,
    pub price_axis_grid_line_color: Color,
    pub major_grid_line_color: Color,
    pub axis_border_color: Color,
    pub price_axis_tick_mark_color: Color,
    pub time_axis_tick_mark_color: Color,
    pub major_time_tick_mark_color: Color,
    pub time_axis_label_color: Color,
    pub major_time_label_color: Color,
    pub axis_label_color: Color,
    pub crosshair_line_color: Color,
    pub crosshair_horizontal_line_color: Option<Color>,
    pub crosshair_vertical_line_color: Option<Color>,
    pub crosshair_time_label_color: Color,
    pub crosshair_price_label_color: Color,
    /// Shared prefix prepended to crosshair axis-label text when per-axis override is absent.
    pub crosshair_label_prefix: &'static str,
    /// Shared suffix appended to crosshair axis-label text when per-axis override is absent.
    pub crosshair_label_suffix: &'static str,
    /// Optional dedicated prefix for crosshair time-axis label text.
    pub crosshair_time_label_prefix: Option<&'static str>,
    /// Optional dedicated suffix for crosshair time-axis label text.
    pub crosshair_time_label_suffix: Option<&'static str>,
    /// Optional dedicated prefix for crosshair price-axis label text.
    pub crosshair_price_label_prefix: Option<&'static str>,
    /// Optional dedicated suffix for crosshair price-axis label text.
    pub crosshair_price_label_suffix: Option<&'static str>,
    /// Shared numeric precision override for crosshair axis labels when per-axis override is absent.
    pub crosshair_label_numeric_precision: Option<u8>,
    /// Optional dedicated numeric precision override for crosshair time-axis labels.
    pub crosshair_time_label_numeric_precision: Option<u8>,
    /// Optional dedicated numeric precision override for crosshair price-axis labels.
    pub crosshair_price_label_numeric_precision: Option<u8>,
    pub crosshair_label_box_color: Color,
    pub crosshair_time_label_box_color: Option<Color>,
    pub crosshair_price_label_box_color: Option<Color>,
    pub crosshair_label_box_text_color: Color,
    pub crosshair_label_box_auto_text_contrast: bool,
    pub crosshair_label_box_text_h_align: Option<TextHAlign>,
    pub crosshair_time_label_box_text_color: Option<Color>,
    pub crosshair_price_label_box_text_color: Option<Color>,
    pub crosshair_time_label_box_auto_text_contrast: Option<bool>,
    pub crosshair_price_label_box_auto_text_contrast: Option<bool>,
    pub crosshair_time_label_box_text_h_align: Option<TextHAlign>,
    pub crosshair_price_label_box_text_h_align: Option<TextHAlign>,
    pub crosshair_label_box_border_color: Color,
    pub crosshair_time_label_box_border_color: Color,
    pub crosshair_price_label_box_border_color: Color,
    pub last_price_line_color: Color,
    pub last_price_label_color: Color,
    /// Applied when trend coloring is enabled and latest sample is above previous.
    pub last_price_up_color: Color,
    /// Applied when trend coloring is enabled and latest sample is below previous.
    pub last_price_down_color: Color,
    /// Applied when trend coloring is enabled and no direction can be inferred.
    pub last_price_neutral_color: Color,
    pub grid_line_width: F64Bits,
    pub price_axis_grid_line_width: F64Bits,
    pub major_grid_line_width: F64Bits,
    pub axis_line_width: F64Bits,
    pub price_axis_tick_mark_width: F64Bits,
    pub time_axis_tick_mark_width: F64Bits,
    pub major_time_tick_mark_width: F64Bits,
    pub crosshair_line_width: F64Bits,
    pub crosshair_horizontal_line_width: Option<F64Bits>,
    pub crosshair_vertical_line_width: Option<F64Bits>,
    pub crosshair_line_style: LineStrokeStyle,
    pub crosshair_horizontal_line_style: Option<LineStrokeStyle>,
    pub crosshair_vertical_line_style: Option<LineStrokeStyle>,
    pub crosshair_time_label_font_size_px: F64Bits,
    pub crosshair_price_label_font_size_px: F64Bits,
    pub crosshair_axis_label_font_size_px: F64Bits,
    pub crosshair_label_box_padding_x_px: F64Bits,
    pub crosshair_label_box_padding_y_px: F64Bits,
    pub crosshair_time_label_box_padding_x_px: F64Bits,
    pub crosshair_time_label_box_padding_y_px: F64Bits,
    pub crosshair_price_label_box_padding_x_px: F64Bits,
    pub crosshair_price_label_box_padding_y_px: F64Bits,
    pub crosshair_label_box_width_mode: CrosshairLabelBoxWidthMode,
    pub crosshair_time_label_box_width_mode: Option<CrosshairLabelBoxWidthMode>,
    pub crosshair_price_label_box_width_mode: Option<CrosshairLabelBoxWidthMode>,
    pub crosshair_label_box_vertical_anchor: CrosshairLabelBoxVerticalAnchor,
    pub crosshair_time_label_box_vertical_anchor: Option<CrosshairLabelBoxVerticalAnchor>,
    pub crosshair_price_label_box_vertical_anchor: Option<CrosshairLabelBoxVerticalAnchor>,
    pub crosshair_label_box_horizontal_anchor: Option<CrosshairLabelBoxHorizontalAnchor>,
    pub crosshair_time_label_box_horizontal_anchor: Option<CrosshairLabelBoxHorizontalAnchor>,
    pub crosshair_price_label_box_horizontal_anchor: Option<CrosshairLabelBoxHorizontalAnchor>,
    pub crosshair_label_box_overflow_policy: Option<CrosshairLabelBoxOverflowPolicy>,
    pub crosshair_time_label_box_overflow_policy: Option<CrosshairLabelBoxOverflowPolicy>,
    pub crosshair_price_label_box_overflow_policy: Option<CrosshairLabelBoxOverflowPolicy>,
    pub crosshair_label_box_clip_margin_px: F64Bits,
    pub crosshair_time_label_box_clip_margin_px: F64Bits,
    pub crosshair_price_label_box_clip_margin_px: F64Bits,
    pub crosshair_label_box_visibility_priority: CrosshairLabelBoxVisibilityPriority,
    pub crosshair_time_label_box_visibility_priority: Option<CrosshairLabelBoxVisibilityPriority>,
    pub crosshair_price_label_box_visibility_priority: Option<CrosshairLabelBoxVisibilityPriority>,
    pub crosshair_label_box_z_order_policy: CrosshairLabelBoxZOrderPolicy,
    pub crosshair_time_label_box_z_order_policy: Option<CrosshairLabelBoxZOrderPolicy>,
    pub crosshair_price_label_box_z_order_policy: Option<CrosshairLabelBoxZOrderPolicy>,
    pub crosshair_label_box_stabilization_step_px: F64Bits,
    pub crosshair_time_label_box_stabilization_step_px: F64Bits,
    pub crosshair_price_label_box_stabilization_step_px: F64Bits,
    pub crosshair_label_box_min_width_px: F64Bits,
    pub crosshair_time_label_box_min_width_px: F64Bits,
    pub crosshair_price_label_box_min_width_px: F64Bits,
    pub crosshair_label_box_border_width_px: F64Bits,
    pub crosshair_time_label_box_border_width_px: F64Bits,
    pub crosshair_price_label_box_border_width_px: F64Bits,
    pub crosshair_label_box_corner_radius_px: F64Bits,
    pub crosshair_time_label_box_corner_radius_px: F64Bits,
    pub crosshair_price_label_box_corner_radius_px: F64Bits,
    pub last_price_line_width: F64Bits,
    pub major_time_label_font_size_px: F64Bits,
    /// Font size used by regular (non-major) time-axis labels.
    pub time_axis_label_font_size_px: F64Bits,
    /// Vertical offset from the plot bottom used by time-axis label anchors.
    pub time_axis_label_offset_y_px: F64Bits,
    /// Vertical offset from the plot bottom used by crosshair time-axis label anchors.
    pub crosshair_time_label_offset_y_px: F64Bits,
    /// Vertical offset from the plot bottom used by major time-axis label anchors.
    pub major_time_label_offset_y_px: F64Bits,
    /// Length of short vertical tick marks extending into the time-axis panel.
    pub time_axis_tick_mark_length_px: F64Bits,
    /// Length of short vertical tick marks for major time-axis ticks.
    pub major_time_tick_mark_length_px: F64Bits,
    pub price_axis_label_font_size_px: F64Bits,
    /// Vertical inset (towards top) applied to price-axis labels from their tick Y position.
    pub price_axis_label_offset_y_px: F64Bits,
    /// Vertical inset (towards top) applied to crosshair price-axis label from crosshair Y.
    pub crosshair_price_label_offset_y_px: F64Bits,
    pub last_price_label_font_size_px: F64Bits,
    /// Vertical inset (towards top) applied to last-price label anchor from marker Y position.
    pub last_price_label_offset_y_px: F64Bits,
    /// Horizontal inset from right edge used by last-price label when box mode is disabled.
    pub last_price_label_padding_right_px: F64Bits,
    pub price_axis_width_px: F64Bits,
    pub time_axis_height_px: F64Bits,
    pub show_price_axis_tick_marks: bool,
    pub show_price_axis_grid_lines: bool,
    pub show_price_axis_labels: bool,
    /// Controls visibility of the right-side price-axis border line.
    pub show_price_axis_border: bool,
    pub show_time_axis_labels: bool,
    /// Controls visibility of the bottom time-axis border line.
    pub show_time_axis_border: bool,
    pub show_major_time_labels: bool,
    pub show_major_time_grid_lines: bool,
    pub show_time_axis_tick_marks: bool,
    /// Controls major time-axis tick-mark visibility independently from regular ticks.
    pub show_major_time_tick_marks: bool,
    /// Controls visibility of the horizontal crosshair guide line.
    pub show_crosshair_horizontal_line: bool,
    /// Controls visibility of the vertical crosshair guide line.
    pub show_crosshair_vertical_line: bool,
    /// Shared visibility gate for crosshair guide lines; per-axis toggles still apply.
    pub show_crosshair_lines: bool,
    /// Controls visibility of the crosshair label projected on the time axis panel.
    pub show_crosshair_time_label: bool,
    /// Controls visibility of the crosshair label projected on the price axis panel.
    pub show_crosshair_price_label: bool,
    /// Controls visibility of the crosshair time-axis label box.
    pub show_crosshair_time_label_box: bool,
    /// Controls visibility of the crosshair price-axis label box.
    pub show_crosshair_price_label_box: bool,
    /// Controls visibility of the border stroke for the crosshair time-axis label box.
    pub show_crosshair_time_label_box_border: bool,
    /// Controls visibility of the border stroke for the crosshair price-axis label box.
    pub show_crosshair_price_label_box_border: bool,
    /// Horizontal inset from left/right plot edges applied to crosshair time-axis label anchor.
    pub crosshair_time_label_padding_x_px: F64Bits,
    /// Horizontal inset from right edge used by crosshair price-axis label when box mode is disabled.
    pub crosshair_price_label_padding_right_px: F64Bits,
    /// Horizontal inset from right edge used by price-axis labels.
    pub price_axis_label_padding_right_px: F64Bits,
    /// Length of short axis tick marks extending into the price-axis panel.
    pub price_axis_tick_mark_length_px: F64Bits,
    pub show_last_price_line: bool,
    pub show_last_price_label: bool,
    /// When enabled, last-price line/label colors are derived from price direction.
    pub last_price_use_trend_color: bool,
    /// Selects whether last-price marker tracks full-series or visible-range latest sample.
    pub last_price_source_mode: LastPriceSourceMode,
    /// Enables a filled price-box background behind last-price axis text.
    pub show_last_price_label_box: bool,
    /// Uses trend/marker color for last-price label box background when enabled.
    pub last_price_label_box_use_marker_color: bool,
    /// Fallback label-box fill color when marker-color mode is disabled.
    pub last_price_label_box_color: Color,
    /// Text color used inside the last-price label box.
    pub last_price_label_box_text_color: Color,
    /// When enabled, text color is derived from label-box fill luminance.
    pub last_price_label_box_auto_text_contrast: bool,
    /// Width mode for latest-price label box layout.
    pub last_price_label_box_width_mode: LastPriceLabelBoxWidthMode,
    /// Horizontal text padding for latest-price label box.
    pub last_price_label_box_padding_x_px: F64Bits,
    /// Vertical padding around last-price text when drawing label box.
    pub last_price_label_box_padding_y_px: F64Bits,
    /// Minimum width for latest-price label box.
    pub last_price_label_box_min_width_px: F64Bits,
    /// Border width for last-price label box.
    pub last_price_label_box_border_width_px: F64Bits,
    /// Border color for last-price label box.
    pub last_price_label_box_border_color: Color,
    /// Corner radius for last-price label box.
    pub last_price_label_box_corner_radius_px: F64Bits,
    pub last_price_label_exclusion_px: F64Bits,
}

/// The default style.
pub open spec fn render_style_default() -> RenderStyle {
    RenderStyle {
        series_line_color: color_rgb(0x3fc4_7ae1_47ae_147b, 0x3fd8_51eb_851e_b852, 0x3ff0_0000_0000_0000),  // 0.16, 0.38, 1.0
        grid_line_color: color_rgb(0x3fec_7ae1_47ae_147b, 0x3fed_70a3_d70a_3d71, 0x3fee_6666_6666_6666),  // 0.89, 0.92, 0.95
        price_axis_grid_line_color: color_rgb(0x3fec_7ae1_47ae_147b, 0x3fed_70a3_d70a_3d71, 0x3fee_6666_6666_6666),  // 0.89, 0.92, 0.95
        major_grid_line_color: color_rgb(0x3fe8_f5c2_8f5c_28f6, 0x3fea_8f5c_28f5_c28f, 0x3fec_cccc_cccc_cccd),  // 0.78, 0.83, 0.90
        axis_border_color: color_rgb(0x3fea_3d70_a3d7_0a3d, 0x3fea_e147_ae14_7ae1, 0x3fec_28f5_c28f_5c29),  // 0.82, 0.84, 0.88
        price_axis_tick_mark_color: color_rgb(0x3fea_3d70_a3d7_0a3d, 0x3fea_e147_ae14_7ae1, 0x3fec_28f5_c28f_5c29),  // 0.82, 0.84, 0.88
        time_axis_tick_mark_color: color_rgb(0x3fea_3d70_a3d7_0a3d, 0x3fea_e147_ae14_7ae1, 0x3fec_28f5_c28f_5c29),  // 0.82, 0.84, 0.88
        major_time_tick_mark_color: color_rgb(0x3fea_3d70_a3d7_0a3d, 0x3fea_e147_ae14_7ae1, 0x3fec_28f5_c28f_5c29),  // 0.82, 0.84, 0.88
        time_axis_label_color: color_rgb(0x3fb9_9999_9999_999a, 0x3fbe_b851_eb85_1eb8, 0x3fc4_7ae1_47ae_147b),  // 0.10, 0.12, 0.16
        major_time_label_color: color_rgb(0x3fb9_9999_9999_999a, 0x3fbe_b851_eb85_1eb8, 0x3fc4_7ae1_47ae_147b),  // 0.10, 0.12, 0.16
        axis_label_color: color_rgb(0x3fb9_9999_9999_999a, 0x3fbe_b851_eb85_1eb8, 0x3fc4_7ae1_47ae_147b),  // 0.10, 0.12, 0.16
        crosshair_line_color: color_rgb(0x3fd3_3333_3333_3333, 0x3fd6_6666_6666_6666, 0x3fdc_28f5_c28f_5c29),  // 0.30, 0.35, 0.44
        crosshair_horizontal_line_color: None,
        crosshair_vertical_line_color: None,
        crosshair_time_label_color: color_rgb(0x3fb9_9999_9999_999a, 0x3fbe_b851_eb85_1eb8, 0x3fc4_7ae1_47ae_147b),  // 0.10, 0.12, 0.16
        crosshair_price_label_color: color_rgb(0x3fb9_9999_9999_999a, 0x3fbe_b851_eb85_1eb8, 0x3fc4_7ae1_47ae_147b),  // 0.10, 0.12, 0.16
        crosshair_label_prefix: "",
        crosshair_label_suffix: "",
        crosshair_time_label_prefix: None,
        crosshair_time_label_suffix: None,
        crosshair_price_label_prefix: None,
        crosshair_price_label_suffix: None,
        crosshair_label_numeric_precision: None,
        crosshair_time_label_numeric_precision: None,
        crosshair_price_label_numeric_precision: None,
        crosshair_label_box_color: color_rgb(0x3fee_147a_e147_ae14, 0x3fee_b851_eb85_1eb8, 0x3fef_ae14_7ae1_47ae),  // 0.94, 0.96, 0.99
        crosshair_time_label_box_color: None,
        crosshair_price_label_box_color: None,
        crosshair_label_box_text_color: color_rgb(0x3fb9_9999_9999_999a, 0x3fbe_b851_eb85_1eb8, 0x3fc4_7ae1_47ae_147b),  // 0.10, 0.12, 0.16
        crosshair_label_box_auto_text_contrast: false,
        crosshair_label_box_text_h_align: None,
        crosshair_time_label_box_text_color: None,
        crosshair_price_label_box_text_color: None,
        crosshair_time_label_box_auto_text_contrast: None,
        crosshair_price_label_box_auto_text_contrast: None,
        crosshair_time_label_box_text_h_align: None,
        crosshair_price_label_box_text_h_align: None,
        crosshair_label_box_border_color: color_rgb(0x3fea_3d70_a3d7_0a3d, 0x3fea_e147_ae14_7ae1, 0x3fec_28f5_c28f_5c29),  // 0.82, 0.84, 0.88
        crosshair_time_label_box_border_color: color_rgb(0x3fea_3d70_a3d7_0a3d, 0x3fea_e147_ae14_7ae1, 0x3fec_28f5_c28f_5c29),  // 0.82, 0.84, 0.88
        crosshair_price_label_box_border_color: color_rgb(0x3fea_3d70_a3d7_0a3d, 0x3fea_e147_ae14_7ae1, 0x3fec_28f5_c28f_5c29),  // 0.82, 0.84, 0.88
        last_price_line_color: color_rgb(0x3fc4_7ae1_47ae_147b, 0x3fd8_51eb_851e_b852, 0x3ff0_0000_0000_0000),  // 0.16, 0.38, 1.0
        last_price_label_color: color_rgb(0x3fc4_7ae1_47ae_147b, 0x3fd8_51eb_851e_b852, 0x3ff0_0000_0000_0000),  // 0.16, 0.38, 1.0
        last_price_up_color: color_rgb(0x3fae_b851_eb85_1eb8, 0x3fe3_d70a_3d70_a3d7, 0x3fd6_6666_6666_6666),  // 0.06, 0.62, 0.35
        last_price_down_color: color_rgb(0x3feb_851e_b851_eb85, 0x3fcc_28f5_c28f_5c29, 0x3fc8_51eb_851e_b852),  // 0.86, 0.22, 0.19
        last_price_neutral_color: color_rgb(0x3fc4_7ae1_47ae_147b, 0x3fd8_51eb_851e_b852, 0x3ff0_0000_0000_0000),  // 0.16, 0.38, 1.0
        grid_line_width: 0x3ff0_0000_0000_0000,  // 1.0
        price_axis_grid_line_width: 0x3ff0_0000_0000_0000,  // 1.0
        major_grid_line_width: 0x3ff4_0000_0000_0000,  // 1.25
        axis_line_width: 0x3ff0_0000_0000_0000,  // 1.0
        price_axis_tick_mark_width: 0x3ff0_0000_0000_0000,  // 1.0
        time_axis_tick_mark_width: 0x3ff0_0000_0000_0000,  // 1.0
        major_time_tick_mark_width: 0x3ff0_0000_0000_0000,  // 1.0
        crosshair_line_width: 0x3ff0_0000_0000_0000,  // 1.0
        crosshair_horizontal_line_width: None,
        crosshair_vertical_line_width: None,
        crosshair_line_style: LineStrokeStyle::Solid,
        crosshair_horizontal_line_style: None,
        crosshair_vertical_line_style: None,
        crosshair_time_label_font_size_px: 0x4026_0000_0000_0000,  // 11.0
        crosshair_price_label_font_size_px: 0x4026_0000_0000_0000,  // 11.0
        crosshair_axis_label_font_size_px: 0x4026_0000_0000_0000,  // 11.0
        crosshair_label_box_padding_x_px: 0x4014_0000_0000_0000,  // 5.0
        crosshair_label_box_padding_y_px: 0x4000_0000_0000_0000,  // 2.0
        crosshair_time_label_box_padding_x_px: 0x4014_0000_0000_0000,  // 5.0
        crosshair_time_label_box_padding_y_px: 0x4000_0000_0000_0000,  // 2.0
        crosshair_price_label_box_padding_x_px: 0x4014_0000_0000_0000,  // 5.0
        crosshair_price_label_box_padding_y_px: 0x4000_0000_0000_0000,  // 2.0
        crosshair_label_box_width_mode: CrosshairLabelBoxWidthMode::FitText,
        crosshair_time_label_box_width_mode: None,
        crosshair_price_label_box_width_mode: None,
        crosshair_label_box_vertical_anchor: CrosshairLabelBoxVerticalAnchor::Center,
        crosshair_time_label_box_vertical_anchor: None,
        crosshair_price_label_box_vertical_anchor: None,
        crosshair_label_box_horizontal_anchor: None,
        crosshair_time_label_box_horizontal_anchor: None,
        crosshair_price_label_box_horizontal_anchor: None,
        crosshair_label_box_overflow_policy: None,
        crosshair_time_label_box_overflow_policy: None,
        crosshair_price_label_box_overflow_policy: None,
        crosshair_label_box_clip_margin_px: 0x0000_0000_0000_0000,  // 0.0
        crosshair_time_label_box_clip_margin_px: 0x0000_0000_0000_0000,  // 0.0
        crosshair_price_label_box_clip_margin_px: 0x0000_0000_0000_0000,  // 0.0
        crosshair_label_box_visibility_priority: CrosshairLabelBoxVisibilityPriority::KeepBoth,
        crosshair_time_label_box_visibility_priority: None,
        crosshair_price_label_box_visibility_priority: None,
        crosshair_label_box_z_order_policy: CrosshairLabelBoxZOrderPolicy::PriceAboveTime,
        crosshair_time_label_box_z_order_policy: None,
        crosshair_price_label_box_z_order_policy: None,
        crosshair_label_box_stabilization_step_px: 0x0000_0000_0000_0000,  // 0.0
        crosshair_time_label_box_stabilization_step_px: 0x0000_0000_0000_0000,  // 0.0
        crosshair_price_label_box_stabilization_step_px: 0x0000_0000_0000_0000,  // 0.0
        crosshair_label_box_min_width_px: 0x0000_0000_0000_0000,  // 0.0
        crosshair_time_label_box_min_width_px: 0x0000_0000_0000_0000,  // 0.0
        crosshair_price_label_box_min_width_px: 0x0000_0000_0000_0000,  // 0.0
        crosshair_label_box_border_width_px: 0x0000_0000_0000_0000,  // 0.0
        crosshair_time_label_box_border_width_px: 0x0000_0000_0000_0000,  // 0.0
        crosshair_price_label_box_border_width_px: 0x0000_0000_0000_0000,  // 0.0
        crosshair_label_box_corner_radius_px: 0x0000_0000_0000_0000,  // 0.0
        crosshair_time_label_box_corner_radius_px: 0x0000_0000_0000_0000,  // 0.0
        crosshair_price_label_box_corner_radius_px: 0x0000_0000_0000_0000,  // 0.0
        last_price_line_width: 0x3ff4_0000_0000_0000,  // 1.25
        major_time_label_font_size_px: 0x4028_0000_0000_0000,  // 12.0
        time_axis_label_font_size_px: 0x4026_0000_0000_0000,  // 11.0
        time_axis_label_offset_y_px: 0x4010_0000_0000_0000,  // 4.0
        crosshair_time_label_offset_y_px: 0x4010_0000_0000_0000,  // 4.0
        major_time_label_offset_y_px: 0x4010_0000_0000_0000,  // 4.0
        time_axis_tick_mark_length_px: 0x4018_0000_0000_0000,  // 6.0
        major_time_tick_mark_length_px: 0x4018_0000_0000_0000,  // 6.0
        price_axis_label_font_size_px: 0x4026_0000_0000_0000,  // 11.0
        price_axis_label_offset_y_px: 0x4020_0000_0000_0000,  // 8.0
        crosshair_price_label_offset_y_px: 0x4020_0000_0000_0000,  // 8.0
        last_price_label_font_size_px: 0x4026_0000_0000_0000,  // 11.0
        last_price_label_offset_y_px: 0x401f_ae14_7ae1_47ae,  // 7.92
        last_price_label_padding_right_px: 0x4018_0000_0000_0000,  // 6.0
        price_axis_width_px: 0x4052_0000_0000_0000,  // 72.0
        time_axis_height_px: 0x4038_0000_0000_0000,  // 24.0
        show_price_axis_tick_marks: true,
        show_price_axis_grid_lines: true,
        show_price_axis_labels: true,
        show_price_axis_border: true,
        show_time_axis_labels: true,
        show_time_axis_border: true,
        show_major_time_labels: true,
        show_major_time_grid_lines: true,
        show_time_axis_tick_marks: true,
        show_major_time_tick_marks: true,
        show_crosshair_horizontal_line: true,
        show_crosshair_vertical_line: true,
        show_crosshair_lines: true,
        show_crosshair_time_label: true,
        show_crosshair_price_label: true,
        show_crosshair_time_label_box: true,
        show_crosshair_price_label_box: true,
        show_crosshair_time_label_box_border: true,
        show_crosshair_price_label_box_border: true,
        crosshair_time_label_padding_x_px: 0x0000_0000_0000_0000,  // 0.0
        crosshair_price_label_padding_right_px: 0x4018_0000_0000_0000,  // 6.0
        price_axis_label_padding_right_px: 0x4018_0000_0000_0000,  // 6.0
        price_axis_tick_mark_length_px: 0x4018_0000_0000_0000,  // 6.0
        show_last_price_line: true,
        show_last_price_label: true,
        last_price_use_trend_color: false,
        last_price_source_mode: LastPriceSourceMode::LatestData,
        show_last_price_label_box: false,
        last_price_label_box_use_marker_color: true,
        last_price_label_box_color: color_rgb(0x3fc4_7ae1_47ae_147b, 0x3fd8_51eb_851e_b852, 0x3ff0_0000_0000_0000),  // 0.16, 0.38, 1.0
        last_price_label_box_text_color: color_rgb(0x3ff0_0000_0000_0000, 0x3ff0_0000_0000_0000, 0x3ff0_0000_0000_0000),  // 1.0, 1.0, 1.0
        last_price_label_box_auto_text_contrast: true,
        last_price_label_box_width_mode: LastPriceLabelBoxWidthMode::FullAxis,
        last_price_label_box_padding_x_px: 0x4018_0000_0000_0000,  // 6.0
        last_price_label_box_padding_y_px: 0x4004_0000_0000_0000,  // 2.5
        last_price_label_box_min_width_px: 0x4045_0000_0000_0000,  // 42.0
        last_price_label_box_border_width_px: 0x0000_0000_0000_0000,  // 0.0
        last_price_label_box_border_color: color_rgb(0x3fea_3d70_a3d7_0a3d, 0x3fea_e147_ae14_7ae1, 0x3fec_28f5_c28f_5c29),  // 0.82, 0.84, 0.88
        last_price_label_box_corner_radius_px: 0x0000_0000_0000_0000,  // 0.0
        last_price_label_exclusion_px: 0x4036_0000_0000_0000,  // 22.0
    }
}

impl Default for RenderStyle {
    fn default() -> (r: RenderStyle)
        ensures
            r == render_style_default(),
    {
        RenderStyle {
            series_line_color: Color::rgb(0x3fc4_7ae1_47ae_147b, 0x3fd8_51eb_851e_b852, 0x3ff0_0000_0000_0000),  // 0.16, 0.38, 1.0
            grid_line_color: Color::rgb(0x3fec_7ae1_47ae_147b, 0x3fed_70a3_d70a_3d71, 0x3fee_6666_6666_6666),  // 0.89, 0.92, 0.95
            price_axis_grid_line_color: Color::rgb(0x3fec_7ae1_47ae_147b, 0x3fed_70a3_d70a_3d71, 0x3fee_6666_6666_6666),  // 0.89, 0.92, 0.95
            major_grid_line_color: Color::rgb(0x3fe8_f5c2_8f5c_28f6, 0x3fea_8f5c_28f5_c28f, 0x3fec_cccc_cccc_cccd),  // 0.78, 0.83, 0.90
            axis_border_color: Color::rgb(0x3fea_3d70_a3d7_0a3d, 0x3fea_e147_ae14_7ae1, 0x3fec_28f5_c28f_5c29),  // 0.82, 0.84, 0.88
            price_axis_tick_mark_color: Color::rgb(0x3fea_3d70_a3d7_0a3d, 0x3fea_e147_ae14_7ae1, 0x3fec_28f5_c28f_5c29),  // 0.82, 0.84, 0.88
            time_axis_tick_mark_color: Color::rgb(0x3fea_3d70_a3d7_0a3d, 0x3fea_e147_ae14_7ae1, 0x3fec_28f5_c28f_5c29),  // 0.82, 0.84, 0.88
            major_time_tick_mark_color: Color::rgb(0x3fea_3d70_a3d7_0a3d, 0x3fea_e147_ae14_7ae1, 0x3fec_28f5_c28f_5c29),  // 0.82, 0.84, 0.88
            time_axis_label_color: Color::rgb(0x3fb9_9999_9999_999a, 0x3fbe_b851_eb85_1eb8, 0x3fc4_7ae1_47ae_147b),  // 0.10, 0.12, 0.16
            major_time_label_color: Color::rgb(0x3fb9_9999_9999_999a, 0x3fbe_b851_eb85_1eb8, 0x3fc4_7ae1_47ae_147b),  // 0.10, 0.12, 0.16
            axis_label_color: Color::rgb(0x3fb9_9999_9999_999a, 0x3fbe_b851_eb85_1eb8, 0x3fc4_7ae1_47ae_147b),  // 0.10, 0.12, 0.16
            crosshair_line_color: Color::rgb(0x3fd3_3333_3333_3333, 0x3fd6_6666_6666_6666, 0x3fdc_28f5_c28f_5c29),  // 0.30, 0.35, 0.44
            crosshair_horizontal_line_color: None,
            crosshair_vertical_line_color: None,
            crosshair_time_label_color: Color::rgb(0x3fb9_9999_9999_999a, 0x3fbe_b851_eb85_1eb8, 0x3fc4_7ae1_47ae_147b),  // 0.10, 0.12, 0.16
            crosshair_price_label_color: Color::rgb(0x3fb9_9999_9999_999a, 0x3fbe_b851_eb85_1eb8, 0x3fc4_7ae1_47ae_147b),  // 0.10, 0.12, 0.16
            crosshair_label_prefix: "",
            crosshair_label_suffix: "",
            crosshair_time_label_prefix: None,
            crosshair_time_label_suffix: None,
            crosshair_price_label_prefix: None,
            crosshair_price_label_suffix: None,
            crosshair_label_numeric_precision: None,
            crosshair_time_label_numeric_precision: None,
            crosshair_price_label_numeric_precision: None,
            crosshair_label_box_color: Color::rgb(0x3fee_147a_e147_ae14, 0x3fee_b851_eb85_1eb8, 0x3fef_ae14_7ae1_47ae),  // 0.94, 0.96, 0.99
            crosshair_time_label_box_color: None,
            crosshair_price_label_box_color: None,
            crosshair_label_box_text_color: Color::rgb(0x3fb9_9999_9999_999a, 0x3fbe_b851_eb85_1eb8, 0x3fc4_7ae1_47ae_147b),  // 0.10, 0.12, 0.16
            crosshair_label_box_auto_text_contrast: false,
            crosshair_label_box_text_h_align: None,
            crosshair_time_label_box_text_color: None,
            crosshair_price_label_box_text_color: None,
            crosshair_time_label_box_auto_text_contrast: None,
            crosshair_price_label_box_auto_text_contrast: None,
            crosshair_time_label_box_text_h_align: None,
            crosshair_price_label_box_text_h_align: None,
            crosshair_label_box_border_color: Color::rgb(0x3fea_3d70_a3d7_0a3d, 0x3fea_e147_ae14_7ae1, 0x3fec_28f5_c28f_5c29),  // 0.82, 0.84, 0.88
            crosshair_time_label_box_border_color: Color::rgb(0x3fea_3d70_a3d7_0a3d, 0x3fea_e147_ae14_7ae1, 0x3fec_28f5_c28f_5c29),  // 0.82, 0.84, 0.88
            crosshair_price_label_box_border_color: Color::rgb(0x3fea_3d70_a3d7_0a3d, 0x3fea_e147_ae14_7ae1, 0x3fec_28f5_c28f_5c29),  // 0.82, 0.84, 0.88
            last_price_line_color: Color::rgb(0x3fc4_7ae1_47ae_147b, 0x3fd8_51eb_851e_b852, 0x3ff0_0000_0000_0000),  // 0.16, 0.38, 1.0
            last_price_label_color: Color::rgb(0x3fc4_7ae1_47ae_147b, 0x3fd8_51eb_851e_b852, 0x3ff0_0000_0000_0000),  // 0.16, 0.38, 1.0
            last_price_up_color: Color::rgb(0x3fae_b851_eb85_1eb8, 0x3fe3_d70a_3d70_a3d7, 0x3fd6_6666_6666_6666),  // 0.06, 0.62, 0.35
            last_price_down_color: Color::rgb(0x3feb_851e_b851_eb85, 0x3fcc_28f5_c28f_5c29, 0x3fc8_51eb_851e_b852),  // 0.86, 0.22, 0.19
            last_price_neutral_color: Color::rgb(0x3fc4_7ae1_47ae_147b, 0x3fd8_51eb_851e_b852, 0x3ff0_0000_0000_0000),  // 0.16, 0.38, 1.0
            grid_line_width: 0x3ff0_0000_0000_0000,  // 1.0
            price_axis_grid_line_width: 0x3ff0_0000_0000_0000,  // 1.0
            major_grid_line_width: 0x3ff4_0000_0000_0000,  // 1.25
            axis_line_width: 0x3ff0_0000_0000_0000,  // 1.0
            price_axis_tick_mark_width: 0x3ff0_0000_0000_0000,  // 1.0
            time_axis_tick_mark_width: 0x3ff0_0000_0000_0000,  // 1.0
            major_time_tick_mark_width: 0x3ff0_0000_0000_0000,  // 1.0
            crosshair_line_width: 0x3ff0_0000_0000_0000,  // 1.0
            crosshair_horizontal_line_width: None,
            crosshair_vertical_line_width: None,
            crosshair_line_style: LineStrokeStyle::Solid,
            crosshair_horizontal_line_style: None,
            crosshair_vertical_line_style: None,
            crosshair_time_label_font_size_px: 0x4026_0000_0000_0000,  // 11.0
            crosshair_price_label_font_size_px: 0x4026_0000_0000_0000,  // 11.0
            crosshair_axis_label_font_size_px: 0x4026_0000_0000_0000,  // 11.0
            crosshair_label_box_padding_x_px: 0x4014_0000_0000_0000,  // 5.0
            crosshair_label_box_padding_y_px: 0x4000_0000_0000_0000,  // 2.0
            crosshair_time_label_box_padding_x_px: 0x4014_0000_0000_0000,  // 5.0
            crosshair_time_label_box_padding_y_px: 0x4000_0000_0000_0000,  // 2.0
            crosshair_price_label_box_padding_x_px: 0x4014_0000_0000_0000,  // 5.0
            crosshair_price_label_box_padding_y_px: 0x4000_0000_0000_0000,  // 2.0
            crosshair_label_box_width_mode: CrosshairLabelBoxWidthMode::FitText,
            crosshair_time_label_box_width_mode: None,
            crosshair_price_label_box_width_mode: None,
            crosshair_label_box_vertical_anchor: CrosshairLabelBoxVerticalAnchor::Center,
            crosshair_time_label_box_vertical_anchor: None,
            crosshair_price_label_box_vertical_anchor: None,
            crosshair_label_box_horizontal_anchor: None,
            crosshair_time_label_box_horizontal_anchor: None,
            crosshair_price_label_box_horizontal_anchor: None,
            crosshair_label_box_overflow_policy: None,
            crosshair_time_label_box_overflow_policy: None,
            crosshair_price_label_box_overflow_policy: None,
            crosshair_label_box_clip_margin_px: 0x0000_0000_0000_0000,  // 0.0
            crosshair_time_label_box_clip_margin_px: 0x0000_0000_0000_0000,  // 0.0
            crosshair_price_label_box_clip_margin_px: 0x0000_0000_0000_0000,  // 0.0
            crosshair_label_box_visibility_priority: CrosshairLabelBoxVisibilityPriority::KeepBoth,
            crosshair_time_label_box_visibility_priority: None,
            crosshair_price_label_box_visibility_priority: None,
            crosshair_label_box_z_order_policy: CrosshairLabelBoxZOrderPolicy::PriceAboveTime,
            crosshair_time_label_box_z_order_policy: None,
            crosshair_price_label_box_z_order_policy: None,
            crosshair_label_box_stabilization_step_px: 0x0000_0000_0000_0000,  // 0.0
            crosshair_time_label_box_stabilization_step_px: 0x0000_0000_0000_0000,  // 0.0
            crosshair_price_label_box_stabilization_step_px: 0x0000_0000_0000_0000,  // 0.0
            crosshair_label_box_min_width_px: 0x0000_0000_0000_0000,  // 0.0
            crosshair_time_label_box_min_width_px: 0x0000_0000_0000_0000,  // 0.0
            crosshair_price_label_box_min_width_px: 0x0000_0000_0000_0000,  // 0.0
            crosshair_label_box_border_width_px: 0x0000_0000_0000_0000,  // 0.0
            crosshair_time_label_box_border_width_px: 0x0000_0000_0000_0000,  // 0.0
            crosshair_price_label_box_border_width_px: 0x0000_0000_0000_0000,  // 0.0
            crosshair_label_box_corner_radius_px: 0x0000_0000_0000_0000,  // 0.0
            crosshair_time_label_box_corner_radius_px: 0x0000_0000_0000_0000,  // 0.0
            crosshair_price_label_box_corner_radius_px: 0x0000_0000_0000_0000,  // 0.0
            last_price_line_width: 0x3ff4_0000_0000_0000,  // 1.25
            major_time_label_font_size_px: 0x4028_0000_0000_0000,  // 12.0
            time_axis_label_font_size_px: 0x4026_0000_0000_0000,  // 11.0
            time_axis_label_offset_y_px: 0x4010_0000_0000_0000,  // 4.0
            crosshair_time_label_offset_y_px: 0x4010_0000_0000_0000,  // 4.0
            major_time_label_offset_y_px: 0x4010_0000_0000_0000,  // 4.0
            time_axis_tick_mark_length_px: 0x4018_0000_0000_0000,  // 6.0
            major_time_tick_mark_length_px: 0x4018_0000_0000_0000,  // 6.0
            price_axis_label_font_size_px: 0x4026_0000_0000_0000,  // 11.0
            price_axis_label_offset_y_px: 0x4020_0000_0000_0000,  // 8.0
            crosshair_price_label_offset_y_px: 0x4020_0000_0000_0000,  // 8.0
            last_price_label_font_size_px: 0x4026_0000_0000_0000,  // 11.0
            last_price_label_offset_y_px: 0x401f_ae14_7ae1_47ae,  // 7.92
            last_price_label_padding_right_px: 0x4018_0000_0000_0000,  // 6.0
            price_axis_width_px: 0x4052_0000_0000_0000,  // 72.0
            time_axis_height_px: 0x4038_0000_0000_0000,  // 24.0
            show_price_axis_tick_marks: true,
            show_price_axis_grid_lines: true,
            show_price_axis_labels: true,
            show_price_axis_border: true,
            show_time_axis_labels: true,
            show_time_axis_border: true,
            show_major_time_labels: true,
            show_major_time_grid_lines: true,
            show_time_axis_tick_marks: true,
            show_major_time_tick_marks: true,
            show_crosshair_horizontal_line: true,
            show_crosshair_vertical_line: true,
            show_crosshair_lines: true,
            show_crosshair_time_label: true,
            show_crosshair_price_label: true,
            show_crosshair_time_label_box: true,
            show_crosshair_price_label_box: true,
            show_crosshair_time_label_box_border: true,
            show_crosshair_price_label_box_border: true,
            crosshair_time_label_padding_x_px: 0x0000_0000_0000_0000,  // 0.0
            crosshair_price_label_padding_right_px: 0x4018_0000_0000_0000,  // 6.0
            price_axis_label_padding_right_px: 0x4018_0000_0000_0000,  // 6.0
            price_axis_tick_mark_length_px: 0x4018_0000_0000_0000,  // 6.0
            show_last_price_line: true,
            show_last_price_label: true,
            last_price_use_trend_color: false,
            last_price_source_mode: LastPriceSourceMode::LatestData,
            show_last_price_label_box: false,
            last_price_label_box_use_marker_color: true,
            last_price_label_box_color: Color::rgb(0x3fc4_7ae1_47ae_147b, 0x3fd8_51eb_851e_b852, 0x3ff0_0000_0000_0000),  // 0.16, 0.38, 1.0
            last_price_label_box_text_color: Color::rgb(0x3ff0_0000_0000_0000, 0x3ff0_0000_0000_0000, 0x3ff0_0000_0000_0000),  // 1.0, 1.0, 1.0
            last_price_label_box_auto_text_contrast: true,
            last_price_label_box_width_mode: LastPriceLabelBoxWidthMode::FullAxis,
            last_price_label_box_padding_x_px: 0x4018_0000_0000_0000,  // 6.0
            last_price_label_box_padding_y_px: 0x4004_0000_0000_0000,  // 2.5
            last_price_label_box_min_width_px: 0x4045_0000_0000_0000,  // 42.0
            last_price_label_box_border_width_px: 0x0000_0000_0000_0000,  // 0.0
            last_price_label_box_border_color: Color::rgb(0x3fea_3d70_a3d7_0a3d, 0x3fea_e147_ae14_7ae1, 0x3fec_28f5_c28f_5c29),  // 0.82, 0.84, 0.88
            last_price_label_box_corner_radius_px: 0x0000_0000_0000_0000,  // 0.0
            last_price_label_exclusion_px: 0x4036_0000_0000_0000,  // 22.0
        }
    }
}

/// The styles agree on their colors.
pub open spec fn colors_eq(a: RenderStyle, b: RenderStyle) -> bool {
    &&& color_eq(a.series_line_color, b.series_line_color)
    &&& color_eq(a.grid_line_color, b.grid_line_color)
    &&& color_eq(a.price_axis_grid_line_color, b.price_axis_grid_line_color)
    &&& color_eq(a.major_grid_line_color, b.major_grid_line_color)
    &&& color_eq(a.axis_border_color, b.axis_border_color)
    &&& color_eq(a.price_axis_tick_mark_color, b.price_axis_tick_mark_color)
    &&& color_eq(a.time_axis_tick_mark_color, b.time_axis_tick_mark_color)
    &&& color_eq(a.major_time_tick_mark_color, b.major_time_tick_mark_color)
    &&& color_eq(a.time_axis_label_color, b.time_axis_label_color)
    &&& color_eq(a.major_time_label_color, b.major_time_label_color)
    &&& color_eq(a.axis_label_color, b.axis_label_color)
    &&& color_eq(a.crosshair_line_color, b.crosshair_line_color)
    &&& opt_color_eq(a.crosshair_horizontal_line_color, b.crosshair_horizontal_line_color)
    &&& opt_color_eq(a.crosshair_vertical_line_color, b.crosshair_vertical_line_color)
    &&& color_eq(a.crosshair_time_label_color, b.crosshair_time_label_color)
    &&& color_eq(a.crosshair_price_label_color, b.crosshair_price_label_color)
    &&& color_eq(a.crosshair_label_box_color, b.crosshair_label_box_color)
    &&& opt_color_eq(a.crosshair_time_label_box_color, b.crosshair_time_label_box_color)
    &&& opt_color_eq(a.crosshair_price_label_box_color, b.crosshair_price_label_box_color)
    &&& color_eq(a.crosshair_label_box_text_color, b.crosshair_label_box_text_color)
    &&& opt_color_eq(a.crosshair_time_label_box_text_color, b.crosshair_time_label_box_text_color)
    &&& opt_color_eq(a.crosshair_price_label_box_text_color, b.crosshair_price_label_box_text_color)
    &&& color_eq(a.crosshair_label_box_border_color, b.crosshair_label_box_border_color)
    &&& color_eq(a.crosshair_time_label_box_border_color, b.crosshair_time_label_box_border_color)
    &&& color_eq(a.crosshair_price_label_box_border_color, b.crosshair_price_label_box_border_color)
    &&& color_eq(a.last_price_line_color, b.last_price_line_color)
    &&& color_eq(a.last_price_label_color, b.last_price_label_color)
    &&& color_eq(a.last_price_up_color, b.last_price_up_color)
    &&& color_eq(a.last_price_down_color, b.last_price_down_color)
    &&& color_eq(a.last_price_neutral_color, b.last_price_neutral_color)
    &&& color_eq(a.last_price_label_box_color, b.last_price_label_box_color)
    &&& color_eq(a.last_price_label_box_text_color, b.last_price_label_box_text_color)
    &&& color_eq(a.last_price_label_box_border_color, b.last_price_label_box_border_color)
}

fn colors_equal(a: &RenderStyle, b: &RenderStyle) -> (r: bool)
    ensures
        r == colors_eq(*a, *b),
{
    if !(a.series_line_color == b.series_line_color) {
        return false;
    }
    if !(a.grid_line_color == b.grid_line_color) {
        return false;
    }
    if !(a.price_axis_grid_line_color == b.price_axis_grid_line_color) {
        return false;
    }
    if !(a.major_grid_line_color == b.major_grid_line_color) {
        return false;
    }
    if !(a.axis_border_color == b.axis_border_color) {
        return false;
    }
    if !(a.price_axis_tick_mark_color == b.price_axis_tick_mark_color) {
        return false;
    }
    if !(a.time_axis_tick_mark_color == b.time_axis_tick_mark_color) {
        return false;
    }
    if !(a.major_time_tick_mark_color == b.major_time_tick_mark_color) {
        return false;
    }
    if !(a.time_axis_label_color == b.time_axis_label_color) {
        return false;
    }
    if !(a.major_time_label_color == b.major_time_label_color) {
        return false;
    }
    if !(a.axis_label_color == b.axis_label_color) {
        return false;
    }
    if !(a.crosshair_line_color == b.crosshair_line_color) {
        return false;
    }
    if !(opt_color_equal(a.crosshair_horizontal_line_color, b.crosshair_horizontal_line_color)) {
        return false;
    }
    if !(opt_color_equal(a.crosshair_vertical_line_color, b.crosshair_vertical_line_color)) {
        return false;
    }
    if !(a.crosshair_time_label_color == b.crosshair_time_label_color) {
        return false;
    }
    if !(a.crosshair_price_label_color == b.crosshair_price_label_color) {
        return false;
    }
    if !(a.crosshair_label_box_color == b.crosshair_label_box_color) {
        return false;
    }
    if !(opt_color_equal(a.crosshair_time_label_box_color, b.crosshair_time_label_box_color)) {
        return false;
    }
    if !(opt_color_equal(a.crosshair_price_label_box_color, b.crosshair_price_label_box_color)) {
        return false;
    }
    if !(a.crosshair_label_box_text_color == b.crosshair_label_box_text_color) {
        return false;
    }
    if !(opt_color_equal(a.crosshair_time_label_box_text_color, b.crosshair_time_label_box_text_color)) {
        return false;
    }
    if !(opt_color_equal(a.crosshair_price_label_box_text_color, b.crosshair_price_label_box_text_color)) {
        return false;
    }
    if !(a.crosshair_label_box_border_color == b.crosshair_label_box_border_color) {
        return false;
    }
    if !(a.crosshair_time_label_box_border_color == b.crosshair_time_label_box_border_color) {
        return false;
    }
    if !(a.crosshair_price_label_box_border_color == b.crosshair_price_label_box_border_color) {
        return false;
    }
    if !(a.last_price_line_color == b.last_price_line_color) {
        return false;
    }
    if !(a.last_price_label_color == b.last_price_label_color) {
        return false;
    }
    if !(a.last_price_up_color == b.last_price_up_color) {
        return false;
    }
    if !(a.last_price_down_color == b.last_price_down_color) {
        return false;
    }
    if !(a.last_price_neutral_color == b.last_price_neutral_color) {
        return false;
    }
    if !(a.last_price_label_box_color == b.last_price_label_box_color) {
        return false;
    }
    if !(a.last_price_label_box_text_color == b.last_price_label_box_text_color) {
        return false;
    }
    if !(a.last_price_label_box_border_color == b.last_price_label_box_border_color) {
        return false;
    }
    true
}

/// The styles agree on their axis, grid and last-price widths, sizes and offsets.
pub open spec fn axis_metrics_eq(a: RenderStyle, b: RenderStyle) -> bool {
    &&& eq(a.grid_line_width, b.grid_line_width)
    &&& eq(a.price_axis_grid_line_width, b.price_axis_grid_line_width)
    &&& eq(a.major_grid_line_width, b.major_grid_line_width)
    &&& eq(a.axis_line_width, b.axis_line_width)
    &&& eq(a.price_axis_tick_mark_width, b.price_axis_tick_mark_width)
    &&& eq(a.time_axis_tick_mark_width, b.time_axis_tick_mark_width)
    &&& eq(a.major_time_tick_mark_width, b.major_time_tick_mark_width)
    &&& eq(a.last_price_line_width, b.last_price_line_width)
    &&& eq(a.major_time_label_font_size_px, b.major_time_label_font_size_px)
    &&& eq(a.time_axis_label_font_size_px, b.time_axis_label_font_size_px)
    &&& eq(a.time_axis_label_offset_y_px, b.time_axis_label_offset_y_px)
    &&& eq(a.major_time_label_offset_y_px, b.major_time_label_offset_y_px)
    &&& eq(a.time_axis_tick_mark_length_px, b.time_axis_tick_mark_length_px)
    &&& eq(a.major_time_tick_mark_length_px, b.major_time_tick_mark_length_px)
    &&& eq(a.price_axis_label_font_size_px, b.price_axis_label_font_size_px)
    &&& eq(a.price_axis_label_offset_y_px, b.price_axis_label_offset_y_px)
    &&& eq(a.last_price_label_font_size_px, b.last_price_label_font_size_px)
    &&& eq(a.last_price_label_offset_y_px, b.last_price_label_offset_y_px)
    &&& eq(a.last_price_label_padding_right_px, b.last_price_label_padding_right_px)
    &&& eq(a.price_axis_width_px, b.price_axis_width_px)
    &&& eq(a.time_axis_height_px, b.time_axis_height_px)
    &&& eq(a.price_axis_label_padding_right_px, b.price_axis_label_padding_right_px)
    &&& eq(a.price_axis_tick_mark_length_px, b.price_axis_tick_mark_length_px)
    &&& eq(a.last_price_label_box_padding_x_px, b.last_price_label_box_padding_x_px)
    &&& eq(a.last_price_label_box_padding_y_px, b.last_price_label_box_padding_y_px)
    &&& eq(a.last_price_label_box_min_width_px, b.last_price_label_box_min_width_px)
    &&& eq(a.last_price_label_box_border_width_px, b.last_price_label_box_border_width_px)
    &&& eq(a.last_price_label_box_corner_radius_px, b.last_price_label_box_corner_radius_px)
    &&& eq(a.last_price_label_exclusion_px, b.last_price_label_exclusion_px)
}

fn axis_metrics_equal(a: &RenderStyle, b: &RenderStyle) -> (r: bool)
    ensures
        r == axis_metrics_eq(*a, *b),
{
    if !(bits_eq(a.grid_line_width, b.grid_line_width)) {
        return false;
    }
    if !(bits_eq(a.price_axis_grid_line_width, b.price_axis_grid_line_width)) {
        return false;
    }
    if !(bits_eq(a.major_grid_line_width, b.major_grid_line_width)) {
        return false;
    }
    if !(bits_eq(a.axis_line_width, b.axis_line_width)) {
        return false;
    }
    if !(bits_eq(a.price_axis_tick_mark_width, b.price_axis_tick_mark_width)) {
        return false;
    }
    if !(bits_eq(a.time_axis_tick_mark_width, b.time_axis_tick_mark_width)) {
        return false;
    }
    if !(bits_eq(a.major_time_tick_mark_width, b.major_time_tick_mark_width)) {
        return false;
    }
    if !(bits_eq(a.last_price_line_width, b.last_price_line_width)) {
        return false;
    }
    if !(bits_eq(a.major_time_label_font_size_px, b.major_time_label_font_size_px)) {
        return false;
    }
    if !(bits_eq(a.time_axis_label_font_size_px, b.time_axis_label_font_size_px)) {
        return false;
    }
    if !(bits_eq(a.time_axis_label_offset_y_px, b.time_axis_label_offset_y_px)) {
        return false;
    }
    if !(bits_eq(a.major_time_label_offset_y_px, b.major_time_label_offset_y_px)) {
        return false;
    }
    if !(bits_eq(a.time_axis_tick_mark_length_px, b.time_axis_tick_mark_length_px)) {
        return false;
    }
    if !(bits_eq(a.major_time_tick_mark_length_px, b.major_time_tick_mark_length_px)) {
        return false;
    }
    if !(bits_eq(a.price_axis_label_font_size_px, b.price_axis_label_font_size_px)) {
        return false;
    }
    if !(bits_eq(a.price_axis_label_offset_y_px, b.price_axis_label_offset_y_px)) {
        return false;
    }
    if !(bits_eq(a.last_price_label_font_size_px, b.last_price_label_font_size_px)) {
        return false;
    }
    if !(bits_eq(a.last_price_label_offset_y_px, b.last_price_label_offset_y_px)) {
        return false;
    }
    if !(bits_eq(a.last_price_label_padding_right_px, b.last_price_label_padding_right_px)) {
        return false;
    }
    if !(bits_eq(a.price_axis_width_px, b.price_axis_width_px)) {
        return false;
    }
    if !(bits_eq(a.time_axis_height_px, b.time_axis_height_px)) {
        return false;
    }
    if !(bits_eq(a.price_axis_label_padding_right_px, b.price_axis_label_padding_right_px)) {
        return false;
    }
    if !(bits_eq(a.price_axis_tick_mark_length_px, b.price_axis_tick_mark_length_px)) {
        return false;
    }
    if !(bits_eq(a.last_price_label_box_padding_x_px, b.last_price_label_box_padding_x_px)) {
        return false;
    }
    if !(bits_eq(a.last_price_label_box_padding_y_px, b.last_price_label_box_padding_y_px)) {
        return false;
    }
    if !(bits_eq(a.last_price_label_box_min_width_px, b.last_price_label_box_min_width_px)) {
        return false;
    }
    if !(bits_eq(a.last_price_label_box_border_width_px, b.last_price_label_box_border_width_px)) {
        return false;
    }
    if !(bits_eq(a.last_price_label_box_corner_radius_px, b.last_price_label_box_corner_radius_px)) {
        return false;
    }
    if !(bits_eq(a.last_price_label_exclusion_px, b.last_price_label_exclusion_px)) {
        return false;
    }
    true
}

/// The styles agree on their crosshair widths, sizes and paddings.
pub open spec fn crosshair_metrics_eq(a: RenderStyle, b: RenderStyle) -> bool {
    &&& eq(a.crosshair_line_width, b.crosshair_line_width)
    &&& opt_bits_eq(a.crosshair_horizontal_line_width, b.crosshair_horizontal_line_width)
    &&& opt_bits_eq(a.crosshair_vertical_line_width, b.crosshair_vertical_line_width)
    &&& eq(a.crosshair_time_label_font_size_px, b.crosshair_time_label_font_size_px)
    &&& eq(a.crosshair_price_label_font_size_px, b.crosshair_price_label_font_size_px)
    &&& eq(a.crosshair_axis_label_font_size_px, b.crosshair_axis_label_font_size_px)
    &&& eq(a.crosshair_label_box_padding_x_px, b.crosshair_label_box_padding_x_px)
    &&& eq(a.crosshair_label_box_padding_y_px, b.crosshair_label_box_padding_y_px)
    &&& eq(a.crosshair_time_label_box_padding_x_px, b.crosshair_time_label_box_padding_x_px)
    &&& eq(a.crosshair_time_label_box_padding_y_px, b.crosshair_time_label_box_padding_y_px)
    &&& eq(a.crosshair_price_label_box_padding_x_px, b.crosshair_price_label_box_padding_x_px)
    &&& eq(a.crosshair_price_label_box_padding_y_px, b.crosshair_price_label_box_padding_y_px)
    &&& eq(a.crosshair_label_box_clip_margin_px, b.crosshair_label_box_clip_margin_px)
    &&& eq(a.crosshair_time_label_box_clip_margin_px, b.crosshair_time_label_box_clip_margin_px)
    &&& eq(a.crosshair_price_label_box_clip_margin_px, b.crosshair_price_label_box_clip_margin_px)
    &&& eq(a.crosshair_label_box_stabilization_step_px, b.crosshair_label_box_stabilization_step_px)
    &&& eq(a.crosshair_time_label_box_stabilization_step_px, b.crosshair_time_label_box_stabilization_step_px)
    &&& eq(a.crosshair_price_label_box_stabilization_step_px, b.crosshair_price_label_box_stabilization_step_px)
    &&& eq(a.crosshair_label_box_min_width_px, b.crosshair_label_box_min_width_px)
    &&& eq(a.crosshair_time_label_box_min_width_px, b.crosshair_time_label_box_min_width_px)
    &&& eq(a.crosshair_price_label_box_min_width_px, b.crosshair_price_label_box_min_width_px)
    &&& eq(a.crosshair_label_box_border_width_px, b.crosshair_label_box_border_width_px)
    &&& eq(a.crosshair_time_label_box_border_width_px, b.crosshair_time_label_box_border_width_px)
    &&& eq(a.crosshair_price_label_box_border_width_px, b.crosshair_price_label_box_border_width_px)
    &&& eq(a.crosshair_label_box_corner_radius_px, b.crosshair_label_box_corner_radius_px)
    &&& eq(a.crosshair_time_label_box_corner_radius_px, b.crosshair_time_label_box_corner_radius_px)
    &&& eq(a.crosshair_price_label_box_corner_radius_px, b.crosshair_price_label_box_corner_radius_px)
    &&& eq(a.crosshair_time_label_offset_y_px, b.crosshair_time_label_offset_y_px)
    &&& eq(a.crosshair_price_label_offset_y_px, b.crosshair_price_label_offset_y_px)
    &&& eq(a.crosshair_time_label_padding_x_px, b.crosshair_time_label_padding_x_px)
    &&& eq(a.crosshair_price_label_padding_right_px, b.crosshair_price_label_padding_right_px)
}

fn crosshair_metrics_equal(a: &RenderStyle, b: &RenderStyle) -> (r: bool)
    ensures
        r == crosshair_metrics_eq(*a, *b),
{
    if !(bits_eq(a.crosshair_line_width, b.crosshair_line_width)) {
        return false;
    }
    if !(opt_bits_equal(a.crosshair_horizontal_line_width, b.crosshair_horizontal_line_width)) {
        return false;
    }
    if !(opt_bits_equal(a.crosshair_vertical_line_width, b.crosshair_vertical_line_width)) {
        return false;
    }
    if !(bits_eq(a.crosshair_time_label_font_size_px, b.crosshair_time_label_font_size_px)) {
        return false;
    }
    if !(bits_eq(a.crosshair_price_label_font_size_px, b.crosshair_price_label_font_size_px)) {
        return false;
    }
    if !(bits_eq(a.crosshair_axis_label_font_size_px, b.crosshair_axis_label_font_size_px)) {
        return false;
    }
    if !(bits_eq(a.crosshair_label_box_padding_x_px, b.crosshair_label_box_padding_x_px)) {
        return false;
    }
    if !(bits_eq(a.crosshair_label_box_padding_y_px, b.crosshair_label_box_padding_y_px)) {
        return false;
    }
    if !(bits_eq(a.crosshair_time_label_box_padding_x_px, b.crosshair_time_label_box_padding_x_px)) {
        return false;
    }
    if !(bits_eq(a.crosshair_time_label_box_padding_y_px, b.crosshair_time_label_box_padding_y_px)) {
        return false;
    }
    if !(bits_eq(a.crosshair_price_label_box_padding_x_px, b.crosshair_price_label_box_padding_x_px)) {
        return false;
    }
    if !(bits_eq(a.crosshair_price_label_box_padding_y_px, b.crosshair_price_label_box_padding_y_px)) {
        return false;
    }
    if !(bits_eq(a.crosshair_label_box_clip_margin_px, b.crosshair_label_box_clip_margin_px)) {
        return false;
    }
    if !(bits_eq(a.crosshair_time_label_box_clip_margin_px, b.crosshair_time_label_box_clip_margin_px)) {
        return false;
    }
    if !(bits_eq(a.crosshair_price_label_box_clip_margin_px, b.crosshair_price_label_box_clip_margin_px)) {
        return false;
    }
    if !(bits_eq(a.crosshair_label_box_stabilization_step_px, b.crosshair_label_box_stabilization_step_px)) {
        return false;
    }
    if !(bits_eq(a.crosshair_time_label_box_stabilization_step_px, b.crosshair_time_label_box_stabilization_step_px)) {
        return false;
    }
    if !(bits_eq(a.crosshair_price_label_box_stabilization_step_px, b.crosshair_price_label_box_stabilization_step_px)) {
        return false;
    }
    if !(bits_eq(a.crosshair_label_box_min_width_px, b.crosshair_label_box_min_width_px)) {
        return false;
    }
    if !(bits_eq(a.crosshair_time_label_box_min_width_px, b.crosshair_time_label_box_min_width_px)) {
        return false;
    }
    if !(bits_eq(a.crosshair_price_label_box_min_width_px, b.crosshair_price_label_box_min_width_px)) {
        return false;
    }
    if !(bits_eq(a.crosshair_label_box_border_width_px, b.crosshair_label_box_border_width_px)) {
        return false;
    }
    if !(bits_eq(a.crosshair_time_label_box_border_width_px, b.crosshair_time_label_box_border_width_px)) {
        return false;
    }
    if !(bits_eq(a.crosshair_price_label_box_border_width_px, b.crosshair_price_label_box_border_width_px)) {
        return false;
    }
    if !(bits_eq(a.crosshair_label_box_corner_radius_px, b.crosshair_label_box_corner_radius_px)) {
        return false;
    }
    if !(bits_eq(a.crosshair_time_label_box_corner_radius_px, b.crosshair_time_label_box_corner_radius_px)) {
        return false;
    }
    if !(bits_eq(a.crosshair_price_label_box_corner_radius_px, b.crosshair_price_label_box_corner_radius_px)) {
        return false;
    }
    if !(bits_eq(a.crosshair_time_label_offset_y_px, b.crosshair_time_label_offset_y_px)) {
        return false;
    }
    if !(bits_eq(a.crosshair_price_label_offset_y_px, b.crosshair_price_label_offset_y_px)) {
        return false;
    }
    if !(bits_eq(a.crosshair_time_label_padding_x_px, b.crosshair_time_label_padding_x_px)) {
        return false;
    }
    if !(bits_eq(a.crosshair_price_label_padding_right_px, b.crosshair_price_label_padding_right_px)) {
        return false;
    }
    true
}

/// The styles agree on their label texts.
pub open spec fn texts_eq(a: RenderStyle, b: RenderStyle) -> bool {
    &&& a.crosshair_label_prefix@ == b.crosshair_label_prefix@
    &&& a.crosshair_label_suffix@ == b.crosshair_label_suffix@
    &&& opt_str_eq(a.crosshair_time_label_prefix, b.crosshair_time_label_prefix)
    &&& opt_str_eq(a.crosshair_time_label_suffix, b.crosshair_time_label_suffix)
    &&& opt_str_eq(a.crosshair_price_label_prefix, b.crosshair_price_label_prefix)
    &&& opt_str_eq(a.crosshair_price_label_suffix, b.crosshair_price_label_suffix)
}

fn texts_equal(a: &RenderStyle, b: &RenderStyle) -> (r: bool)
    ensures
        r == texts_eq(*a, *b),
{
    if !(str_equal(a.crosshair_label_prefix, b.crosshair_label_prefix)) {
        return false;
    }
    if !(str_equal(a.crosshair_label_suffix, b.crosshair_label_suffix)) {
        return false;
    }
    if !(opt_str_equal(a.crosshair_time_label_prefix, b.crosshair_time_label_prefix)) {
        return false;
    }
    if !(opt_str_equal(a.crosshair_time_label_suffix, b.crosshair_time_label_suffix)) {
        return false;
    }
    if !(opt_str_equal(a.crosshair_price_label_prefix, b.crosshair_price_label_prefix)) {
        return false;
    }
    if !(opt_str_equal(a.crosshair_price_label_suffix, b.crosshair_price_label_suffix)) {
        return false;
    }
    true
}

/// The styles agree on their axis switches.
pub open spec fn switches_eq(a: RenderStyle, b: RenderStyle) -> bool {
    &&& a.show_price_axis_tick_marks == b.show_price_axis_tick_marks
    &&& a.show_price_axis_grid_lines == b.show_price_axis_grid_lines
    &&& a.show_price_axis_labels == b.show_price_axis_labels
    &&& a.show_price_axis_border == b.show_price_axis_border
    &&& a.show_time_axis_labels == b.show_time_axis_labels
    &&& a.show_time_axis_border == b.show_time_axis_border
    &&& a.show_major_time_labels == b.show_major_time_labels
    &&& a.show_major_time_grid_lines == b.show_major_time_grid_lines
    &&& a.show_time_axis_tick_marks == b.show_time_axis_tick_marks
    &&& a.show_major_time_tick_marks == b.show_major_time_tick_marks
}

fn switches_equal(a: &RenderStyle, b: &RenderStyle) -> (r: bool)
    ensures
        r == switches_eq(*a, *b),
{
    if a.show_price_axis_tick_marks ^ b.show_price_axis_tick_marks {
        return false;
    }
    if a.show_price_axis_grid_lines ^ b.show_price_axis_grid_lines {
        return false;
    }
    if a.show_price_axis_labels ^ b.show_price_axis_labels {
        return false;
    }
    if a.show_price_axis_border ^ b.show_price_axis_border {
        return false;
    }
    if a.show_time_axis_labels ^ b.show_time_axis_labels {
        return false;
    }
    if a.show_time_axis_border ^ b.show_time_axis_border {
        return false;
    }
    if a.show_major_time_labels ^ b.show_major_time_labels {
        return false;
    }
    if a.show_major_time_grid_lines ^ b.show_major_time_grid_lines {
        return false;
    }
    if a.show_time_axis_tick_marks ^ b.show_time_axis_tick_marks {
        return false;
    }
    if a.show_major_time_tick_marks ^ b.show_major_time_tick_marks {
        return false;
    }
    true
}

/// The styles agree on their last-price switches.
pub open spec fn last_price_switches_eq(a: RenderStyle, b: RenderStyle) -> bool {
    &&& a.show_last_price_line == b.show_last_price_line
    &&& a.show_last_price_label == b.show_last_price_label
    &&& a.last_price_use_trend_color == b.last_price_use_trend_color
    &&& a.show_last_price_label_box == b.show_last_price_label_box
    &&& a.last_price_label_box_use_marker_color == b.last_price_label_box_use_marker_color
    &&& a.last_price_label_box_auto_text_contrast == b.last_price_label_box_auto_text_contrast
}

fn last_price_switches_equal(a: &RenderStyle, b: &RenderStyle) -> (r: bool)
    ensures
        r == last_price_switches_eq(*a, *b),
{
    if a.show_last_price_line ^ b.show_last_price_line {
        return false;
    }
    if a.show_last_price_label ^ b.show_last_price_label {
        return false;
    }
    if a.last_price_use_trend_color ^ b.last_price_use_trend_color {
        return false;
    }
    if a.show_last_price_label_box ^ b.show_last_price_label_box {
        return false;
    }
    if a.last_price_label_box_use_marker_color ^ b.last_price_label_box_use_marker_color {
        return false;
    }
    if a.last_price_label_box_auto_text_contrast ^ b.last_price_label_box_auto_text_contrast {
        return false;
    }
    true
}

/// The styles agree on their crosshair switches.
pub open spec fn crosshair_switches_eq(a: RenderStyle, b: RenderStyle) -> bool {
    &&& a.crosshair_label_box_auto_text_contrast == b.crosshair_label_box_auto_text_contrast
    &&& a.show_crosshair_horizontal_line == b.show_crosshair_horizontal_line
    &&& a.show_crosshair_vertical_line == b.show_crosshair_vertical_line
    &&& a.show_crosshair_lines == b.show_crosshair_lines
    &&& a.show_crosshair_time_label == b.show_crosshair_time_label
    &&& a.show_crosshair_price_label == b.show_crosshair_price_label
    &&& a.show_crosshair_time_label_box == b.show_crosshair_time_label_box
    &&& a.show_crosshair_price_label_box == b.show_crosshair_price_label_box
    &&& a.show_crosshair_time_label_box_border == b.show_crosshair_time_label_box_border
    &&& a.show_crosshair_price_label_box_border == b.show_crosshair_price_label_box_border
}

fn crosshair_switches_equal(a: &RenderStyle, b: &RenderStyle) -> (r: bool)
    ensures
        r == crosshair_switches_eq(*a, *b),
{
    if a.crosshair_label_box_auto_text_contrast ^ b.crosshair_label_box_auto_text_contrast {
        return false;
    }
    if a.show_crosshair_horizontal_line ^ b.show_crosshair_horizontal_line {
        return false;
    }
    if a.show_crosshair_vertical_line ^ b.show_crosshair_vertical_line {
        return false;
    }
    if a.show_crosshair_lines ^ b.show_crosshair_lines {
        return false;
    }
    if a.show_crosshair_time_label ^ b.show_crosshair_time_label {
        return false;
    }
    if a.show_crosshair_price_label ^ b.show_crosshair_price_label {
        return false;
    }
    if a.show_crosshair_time_label_box ^ b.show_crosshair_time_label_box {
        return false;
    }
    if a.show_crosshair_price_label_box ^ b.show_crosshair_price_label_box {
        return false;
    }
    if a.show_crosshair_time_label_box_border ^ b.show_crosshair_time_label_box_border {
        return false;
    }
    if a.show_crosshair_price_label_box_border ^ b.show_crosshair_price_label_box_border {
        return false;
    }
    true
}

/// The styles agree on their line, label-box and precision policies.
pub open spec fn policies_eq(a: RenderStyle, b: RenderStyle) -> bool {
    &&& a.crosshair_label_numeric_precision == b.crosshair_label_numeric_precision
    &&& a.crosshair_time_label_numeric_precision == b.crosshair_time_label_numeric_precision
    &&& a.crosshair_price_label_numeric_precision == b.crosshair_price_label_numeric_precision
    &&& a.crosshair_label_box_text_h_align == b.crosshair_label_box_text_h_align
    &&& a.crosshair_time_label_box_auto_text_contrast == b.crosshair_time_label_box_auto_text_contrast
    &&& a.crosshair_price_label_box_auto_text_contrast == b.crosshair_price_label_box_auto_text_contrast
    &&& a.crosshair_time_label_box_text_h_align == b.crosshair_time_label_box_text_h_align
    &&& a.crosshair_price_label_box_text_h_align == b.crosshair_price_label_box_text_h_align
    &&& a.crosshair_line_style == b.crosshair_line_style
    &&& a.crosshair_horizontal_line_style == b.crosshair_horizontal_line_style
    &&& a.crosshair_vertical_line_style == b.crosshair_vertical_line_style
    &&& a.crosshair_label_box_width_mode == b.crosshair_label_box_width_mode
    &&& a.crosshair_time_label_box_width_mode == b.crosshair_time_label_box_width_mode
    &&& a.crosshair_price_label_box_width_mode == b.crosshair_price_label_box_width_mode
    &&& a.crosshair_label_box_vertical_anchor == b.crosshair_label_box_vertical_anchor
    &&& a.crosshair_time_label_box_vertical_anchor == b.crosshair_time_label_box_vertical_anchor
    &&& a.crosshair_price_label_box_vertical_anchor == b.crosshair_price_label_box_vertical_anchor
    &&& a.crosshair_label_box_horizontal_anchor == b.crosshair_label_box_horizontal_anchor
    &&& a.crosshair_time_label_box_horizontal_anchor == b.crosshair_time_label_box_horizontal_anchor
    &&& a.crosshair_price_label_box_horizontal_anchor == b.crosshair_price_label_box_horizontal_anchor
    &&& a.crosshair_label_box_overflow_policy == b.crosshair_label_box_overflow_policy
    &&& a.crosshair_time_label_box_overflow_policy == b.crosshair_time_label_box_overflow_policy
    &&& a.crosshair_price_label_box_overflow_policy == b.crosshair_price_label_box_overflow_policy
    &&& a.crosshair_label_box_visibility_priority == b.crosshair_label_box_visibility_priority
    &&& a.crosshair_time_label_box_visibility_priority == b.crosshair_time_label_box_visibility_priority
    &&& a.crosshair_price_label_box_visibility_priority == b.crosshair_price_label_box_visibility_priority
    &&& a.crosshair_label_box_z_order_policy == b.crosshair_label_box_z_order_policy
    &&& a.crosshair_time_label_box_z_order_policy == b.crosshair_time_label_box_z_order_policy
    &&& a.crosshair_price_label_box_z_order_policy == b.crosshair_price_label_box_z_order_policy
    &&& a.last_price_source_mode == b.last_price_source_mode
    &&& a.last_price_label_box_width_mode == b.last_price_label_box_width_mode
}

fn policies_equal(a: &RenderStyle, b: &RenderStyle) -> (r: bool)
    ensures
        r == policies_eq(*a, *b),
{
    if !(a.crosshair_label_numeric_precision == b.crosshair_label_numeric_precision) {
        return false;
    }
    if !(a.crosshair_time_label_numeric_precision == b.crosshair_time_label_numeric_precision) {
        return false;
    }
    if !(a.crosshair_price_label_numeric_precision == b.crosshair_price_label_numeric_precision) {
        return false;
    }
    if !(a.crosshair_label_box_text_h_align == b.crosshair_label_box_text_h_align) {
        return false;
    }
    if !(a.crosshair_time_label_box_auto_text_contrast == b.crosshair_time_label_box_auto_text_contrast) {
        return false;
    }
    if !(a.crosshair_price_label_box_auto_text_contrast == b.crosshair_price_label_box_auto_text_contrast) {
        return false;
    }
    if !(a.crosshair_time_label_box_text_h_align == b.crosshair_time_label_box_text_h_align) {
        return false;
    }
    if !(a.crosshair_price_label_box_text_h_align == b.crosshair_price_label_box_text_h_align) {
        return false;
    }
    if !(a.crosshair_line_style == b.crosshair_line_style) {
        return false;
    }
    if !(a.crosshair_horizontal_line_style == b.crosshair_horizontal_line_style) {
        return false;
    }
    if !(a.crosshair_vertical_line_style == b.crosshair_vertical_line_style) {
        return false;
    }
    if !(a.crosshair_label_box_width_mode == b.crosshair_label_box_width_mode) {
        return false;
    }
    if !(a.crosshair_time_label_box_width_mode == b.crosshair_time_label_box_width_mode) {
        return false;
    }
    if !(a.crosshair_price_label_box_width_mode == b.crosshair_price_label_box_width_mode) {
        return false;
    }
    if !(a.crosshair_label_box_vertical_anchor == b.crosshair_label_box_vertical_anchor) {
        return false;
    }
    if !(a.crosshair_time_label_box_vertical_anchor == b.crosshair_time_label_box_vertical_anchor) {
        return false;
    }
    if !(a.crosshair_price_label_box_vertical_anchor == b.crosshair_price_label_box_vertical_anchor) {
        return false;
    }
    if !(a.crosshair_label_box_horizontal_anchor == b.crosshair_label_box_horizontal_anchor) {
        return false;
    }
    if !(a.crosshair_time_label_box_horizontal_anchor == b.crosshair_time_label_box_horizontal_anchor) {
        return false;
    }
    if !(a.crosshair_price_label_box_horizontal_anchor == b.crosshair_price_label_box_horizontal_anchor) {
        return false;
    }
    if !(a.crosshair_label_box_overflow_policy == b.crosshair_label_box_overflow_policy) {
        return false;
    }
    if !(a.crosshair_time_label_box_overflow_policy == b.crosshair_time_label_box_overflow_policy) {
        return false;
    }
    if !(a.crosshair_price_label_box_overflow_policy == b.crosshair_price_label_box_overflow_policy) {
        return false;
    }
    if !(a.crosshair_label_box_visibility_priority == b.crosshair_label_box_visibility_priority) {
        return false;
    }
    if !(a.crosshair_time_label_box_visibility_priority == b.crosshair_time_label_box_visibility_priority) {
        return false;
    }
    if !(a.crosshair_price_label_box_visibility_priority == b.crosshair_price_label_box_visibility_priority) {
        return false;
    }
    if !(a.crosshair_label_box_z_order_policy == b.crosshair_label_box_z_order_policy) {
        return false;
    }
    if !(a.crosshair_time_label_box_z_order_policy == b.crosshair_time_label_box_z_order_policy) {
        return false;
    }
    if !(a.crosshair_price_label_box_z_order_policy == b.crosshair_price_label_box_z_order_policy) {
        return false;
    }
    if !(a.last_price_source_mode == b.last_price_source_mode) {
        return false;
    }
    if !(a.last_price_label_box_width_mode == b.last_price_label_box_width_mode) {
        return false;
    }
    true
}

/// The styles compare equal field by field; numbers compare as `f64` values and texts by
/// their characters.
pub open spec fn render_style_eq(a: RenderStyle, b: RenderStyle) -> bool {
    &&& colors_eq(a, b)
    &&& axis_metrics_eq(a, b)
    &&& crosshair_metrics_eq(a, b)
    &&& texts_eq(a, b)
    &&& switches_eq(a, b)
    &&& last_price_switches_eq(a, b)
    &&& crosshair_switches_eq(a, b)
    &&& policies_eq(a, b)
}

impl PartialEq for RenderStyle {
    fn eq(&self, other: &RenderStyle) -> (r: bool) {
        colors_equal(self, other)
            && axis_metrics_equal(self, other)
            && crosshair_metrics_equal(self, other)
            && texts_equal(self, other)
            && switches_equal(self, other)
            && last_price_switches_equal(self, other)
            && crosshair_switches_equal(self, other)
            && policies_equal(self, other)
    }
}

impl vstd::std_specs::cmp::PartialEqSpecImpl for RenderStyle {
    open spec fn obeys_eq_spec() -> bool {
        true
    }

    open spec fn eq_spec(&self, other: &RenderStyle) -> bool {
        render_style_eq(*self, *other)
    }
}

} // verus!
