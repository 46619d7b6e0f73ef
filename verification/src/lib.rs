use vstd::prelude::*;

pub mod axis_label;
pub mod engine;
pub mod error;
pub mod extensions;
pub mod fixture_tools;
pub mod float_bits;
pub mod interaction;
pub mod invalidation;
pub mod lightweight_events;
pub mod lwc_chart_model;
pub mod lwc_invalidate_mask;
pub mod lwc_price_scale;
pub mod lwc_time_scale;
pub mod pane;
pub mod plugins;
pub mod price_scale;
pub mod primitives;
pub mod render_partial;
pub mod render_primitives;
pub mod render_style;
pub mod render_style_invalidation;
pub mod scale_tuning;
pub mod series;
pub mod text;
pub mod time_scale_behavior;
pub mod time_scale_input_validation;
pub mod trace_import;
pub mod trace_tool;
pub mod types;
pub mod validation;
pub mod visual_import;
pub mod zoom_factor;

verus! {
} // verus!
