use vstd::prelude::*;
use vstd::string::StringExecFns;

use crate::float_bits::{bits_is_zero, is_zero, F64Bits};
use crate::text::{ascii_lowercase_seq, str_equal, to_ascii_lowercase, trim_to_ascii_lowercase, trim_whitespace};

verus! {

/// A field value of a captured event, as far as event mapping reads it; numbers are the
/// encoded `f64` that the JSON number reads as.
#[derive(Debug, Clone, PartialEq, Eq)]
pub enum EventValue {
    Null,
    Number(F64Bits),
    Text(String),
    /// A boolean, array or object.
    Other,
}

/// A captured event: the fields of a JSON object, in order, each key once. An event that is
/// not an object has no fields.
#[derive(Debug, Clone, PartialEq, Eq)]
pub struct LightweightEvent {
    pub fields: Vec<(String, EventValue)>,
}

/// The value of the first field named `key`.
pub open spec fn lookup_field(fields: Seq<(String, EventValue)>, key: Seq<char>) -> Option<
    EventValue,
>
    decreases fields.len(),
{
    if fields.len() == 0 {
        None
    } else if fields[0].0@ == key {
        Some(fields[0].1)
    } else {
        lookup_field(fields.drop_first(), key)
    }
}

/// The value of the first of `keys` that the event has.
pub open spec fn first_present(fields: Seq<(String, EventValue)>, keys: Seq<Seq<char>>) -> Option<
    EventValue,
>
    decreases keys.len(),
{
    if keys.len() == 0 {
        None
    } else {
        match lookup_field(fields, keys[0]) {
            Some(v) => Some(v),
            None => first_present(fields, keys.drop_first()),
        }
    }
}

/// The number under the first of `keys` that the event has, if that value is a number.
pub open spec fn event_f64_spec(fields: Seq<(String, EventValue)>, keys: Seq<Seq<char>>) -> Option<
    F64Bits,
> {
    match first_present(fields, keys) {
        Some(EventValue::Number(n)) => Some(n),
        _ => None,
    }
}

/// The number under the first of `keys` whose value is a number.
pub open spec fn event_optional_f64_spec(
    fields: Seq<(String, EventValue)>,
    keys: Seq<Seq<char>>,
) -> Option<F64Bits>
    decreases keys.len(),
{
    if keys.len() == 0 {
        None
    } else {
        match lookup_field(fields, keys[0]) {
            Some(EventValue::Number(n)) => Some(n),
            _ => event_optional_f64_spec(fields, keys.drop_first()),
        }
    }
}

/// The text under the first of `keys` that the event has, if that value is a text.
pub open spec fn event_string_spec(fields: Seq<(String, EventValue)>, keys: Seq<Seq<char>>) -> Option<
    Seq<char>,
> {
    match first_present(fields, keys) {
        Some(EventValue::Text(s)) => Some(s@),
        _ => None,
    }
}

/// The event kind: the text under `type`, `event` or `kind` (the first present), trimmed and
/// lowercased.
pub open spec fn event_kind_spec(fields: Seq<(String, EventValue)>) -> Option<Seq<char>> {
    match event_string_spec(fields, seq!["type"@, "event"@, "kind"@]) {
        Some(raw) => Some(ascii_lowercase_seq(trim_whitespace(raw))),
        None => None,
    }
}

/// The texts of the keys.
pub open spec fn key_texts(keys: Seq<&str>) -> Seq<Seq<char>> {
    keys.map_values(|k: &str| k@)
}

fn lookup_field_exec<'a>(event: &'a LightweightEvent, key: &str) -> (r: Option<&'a EventValue>)
    ensures
        match lookup_field(event.fields@, key@) {
            Some(v) => r == Some(&v),
            None => r is None,
        },
{
    let n = event.fields.len();
    let mut i: usize = 0;
    assert(event.fields@.subrange(0, n as int) =~= event.fields@);
    while i < n
        invariant
            n == event.fields@.len(),
            i <= n,
            lookup_field(event.fields@, key@) == lookup_field(
                event.fields@.subrange(i as int, n as int),
                key@,
            ),
        decreases n - i,
    {
        proof {
            assert(event.fields@.subrange(i as int, n as int).drop_first() =~= event.fields@.subrange(
                i as int + 1,
                n as int,
            ));
            assert(event.fields@.subrange(i as int, n as int)[0] == event.fields@[i as int]);
        }
        if str_equal(event.fields[i].0.as_str(), key) {
            return Some(&event.fields[i].1);
        }
        i += 1;
    }
    None
}

fn first_present_exec<'a>(event: &'a LightweightEvent, keys: &[&str]) -> (r: Option<&'a EventValue>)
    ensures
        match first_present(event.fields@, key_texts(keys@)) {
            Some(v) => r == Some(&v),
            None => r is None,
        },
{
    let n = keys.len();
    let ghost texts = key_texts(keys@);
    let mut j: usize = 0;
    assert(texts.subrange(0, n as int) =~= texts);
    while j < n
        invariant
            n == keys@.len(),
            texts == key_texts(keys@),
            j <= n,
            first_present(event.fields@, texts) == first_present(
                event.fields@,
                texts.subrange(j as int, n as int),
            ),
        decreases n - j,
    {
        proof {
            assert(texts.subrange(j as int, n as int).drop_first() =~= texts.subrange(
                j as int + 1,
                n as int,
            ));
            assert(texts.subrange(j as int, n as int)[0] == keys@[j as int]@);
        }
        let found = lookup_field_exec(event, keys[j]);
        if found.is_some() {
            return found;
        }
        j += 1;
    }
    None
}

/// The number under the first of `keys` that the event has, if that value is a number.
pub fn event_f64(event: &LightweightEvent, keys: &[&str]) -> (r: Option<F64Bits>)
    ensures
        r == event_f64_spec(event.fields@, key_texts(keys@)),
{
    match first_present_exec(event, keys) {
        Some(EventValue::Number(n)) => Some(*n),
        _ => None,
    }
}

/// The number under the first of `keys` whose value is a number.
pub fn event_optional_f64(event: &LightweightEvent, keys: &[&str]) -> (r: Option<F64Bits>)
    ensures
        r == event_optional_f64_spec(event.fields@, key_texts(keys@)),
{
    let n = keys.len();
    let ghost texts = key_texts(keys@);
    let mut j: usize = 0;
    assert(texts.subrange(0, n as int) =~= texts);
    while j < n
        invariant
            n == keys@.len(),
            texts == key_texts(keys@),
            j <= n,
            event_optional_f64_spec(event.fields@, texts) == event_optional_f64_spec(
                event.fields@,
                texts.subrange(j as int, n as int),
            ),
        decreases n - j,
    {
        proof {
            assert(texts.subrange(j as int, n as int).drop_first() =~= texts.subrange(
                j as int + 1,
                n as int,
            ));
            assert(texts.subrange(j as int, n as int)[0] == keys@[j as int]@);
        }
        if let Some(EventValue::Number(value)) = lookup_field_exec(event, keys[j]) {
            return Some(*value);
        }
        j += 1;
    }
    None
}

/// The text under the first of `keys` that the event has, if that value is a text.
pub fn event_string(event: &LightweightEvent, keys: &[&str]) -> (r: Option<String>)
    ensures
        match event_string_spec(event.fields@, key_texts(keys@)) {
            Some(s) => r matches Some(t) && t@ == s,
            None => r is None,
        },
{
    match first_present_exec(event, keys) {
        Some(EventValue::Text(s)) => Some(s.clone()),
        _ => None,
    }
}

/// The event kind: the text under `type`, `event` or `kind` (the first present), trimmed and
/// lowercased.
pub fn event_kind(event: &LightweightEvent) -> (r: Option<String>)
    ensures
        match event_kind_spec(event.fields@) {
            Some(s) => r matches Some(t) && t@ == s,
            None => r is None,
        },
{
    let keys: &[&str] = &["type", "event", "kind"];
    assert(key_texts(keys@) =~= seq!["type"@, "event"@, "kind"@]);
    match event_string(event, keys) {
        Some(raw) => Some(trim_to_ascii_lowercase(raw.as_str())),
        None => None,
    }
}

/// `0.1` as an encoded `f64`: the default pan step ratio.
pub const DEFAULT_PAN_STEP_RATIO: F64Bits = 0x3fb9_9999_9999_999a;

/// `0.2` as an encoded `f64`: the default zoom step ratio.
pub const DEFAULT_ZOOM_STEP_RATIO: F64Bits = 0x3fc9_9999_9999_999a;

/// `1e-6` as an encoded `f64`: the default minimum span.
pub const DEFAULT_MIN_SPAN_ABSOLUTE: F64Bits = 0x3eb0_c6f7_a0b5_ed8d;

/// `1.0` as an encoded `f64`: the default kinetic step in seconds.
pub const DEFAULT_KINETIC_STEP_SECONDS: F64Bits = 0x3ff0_0000_0000_0000;

/// A crosshair mode named in a trace.
#[derive(Debug, Clone, Copy, PartialEq, Eq, Structural)]
pub enum TraceCrosshairMode {
    Magnet,
    Normal,
    Hidden,
}

/// One step of an interaction trace; all numbers are encoded `f64`.
#[derive(Debug, Clone, Copy, PartialEq, Eq, Structural)]
pub enum InteractionAction {
    SetNavigation { right_offset_bars: F64Bits, bar_spacing_px: Option<F64Bits> },
    WheelPan { wheel_delta_x: F64Bits, pan_step_ratio: F64Bits },
    TouchDragPan { delta_x_px: F64Bits, delta_y_px: F64Bits },
    WheelZoom {
        wheel_delta_y: F64Bits,
        anchor_px: F64Bits,
        zoom_step_ratio: F64Bits,
        min_span_absolute: F64Bits,
    },
    PinchZoom { factor: F64Bits, anchor_px: F64Bits, min_span_absolute: F64Bits },
    StartKineticPan { velocity_time_per_sec: F64Bits },
    StepKineticPan { delta_seconds: F64Bits },
    SetCrosshairMode { mode: TraceCrosshairMode },
    PointerMove { x: F64Bits, y: F64Bits },
    PointerLeave,
}

/// The given value, or the default when it is absent.
pub open spec fn or_default(v: Option<F64Bits>, default: F64Bits) -> F64Bits {
    match v {
        Some(x) => x,
        None => default,
    }
}

/// The crosshair mode with the given lowercase name.
pub open spec fn crosshair_mode_named(name: Seq<char>) -> Option<TraceCrosshairMode> {
    if name == "magnet"@ {
        Some(TraceCrosshairMode::Magnet)
    } else if name == "normal"@ {
        Some(TraceCrosshairMode::Normal)
    } else if name == "hidden"@ {
        Some(TraceCrosshairMode::Hidden)
    } else {
        None
    }
}

/// The executable result agrees with the specified one; errors agree on their text.
pub open spec fn result_matches<T>(r: Result<T, String>, s: Result<T, Seq<char>>) -> bool {
    match s {
        Ok(v) => r == Ok::<T, String>(v),
        Err(e) => r matches Err(t) && t@ == e,
    }
}

/// The wheel-zoom action of an event whose vertical delta is given.
pub open spec fn wheel_zoom_with(f: Seq<(String, EventValue)>, wheel_delta_y: F64Bits) -> InteractionAction {
    InteractionAction::WheelZoom {
        wheel_delta_y,
        anchor_px: or_default(event_f64_spec(f, seq!["anchor_px"@, "anchorX"@, "anchorPx"@]), 0),
        zoom_step_ratio: or_default(
            event_f64_spec(f, seq!["zoom_step_ratio"@, "zoomStepRatio"@]),
            DEFAULT_ZOOM_STEP_RATIO,
        ),
        min_span_absolute: or_default(
            event_f64_spec(f, seq!["min_span_absolute"@, "minSpanAbsolute"@]),
            DEFAULT_MIN_SPAN_ABSOLUTE,
        ),
    }
}

/// The wheel-pan action of an event, or the error when it has no horizontal delta.
pub open spec fn wheel_pan_spec(f: Seq<(String, EventValue)>, missing: Seq<char>) -> Result<
    InteractionAction,
    Seq<char>,
> {
    match event_f64_spec(f, seq!["wheel_delta_x"@, "wheelDeltaX"@, "deltaX"@]) {
        None => Err(missing),
        Some(dx) => Ok(
            InteractionAction::WheelPan {
                wheel_delta_x: dx,
                pan_step_ratio: or_default(
                    event_f64_spec(f, seq!["pan_step_ratio"@, "panStepRatio"@]),
                    DEFAULT_PAN_STEP_RATIO,
                ),
            },
        ),
    }
}

/// The crosshair-mode action of an event: its `mode` text, lowercased, names the mode.
pub open spec fn crosshair_mode_action_spec(f: Seq<(String, EventValue)>) -> Result<
    InteractionAction,
    Seq<char>,
> {
    match event_string_spec(f, seq!["mode"@]) {
        None => Err("crosshair_mode event missing mode"@),
        Some(raw) => match crosshair_mode_named(ascii_lowercase_seq(raw)) {
            Some(mode) => Ok(InteractionAction::SetCrosshairMode { mode }),
            None => Err(
                "unsupported crosshair mode `"@ + ascii_lowercase_seq(raw) + "` in lightweight event"@,
            ),
        },
    }
}

/// The pointer-move action of an event, or the error for its first missing coordinate.
pub open spec fn pointer_move_spec(f: Seq<(String, EventValue)>) -> Result<InteractionAction, Seq<char>> {
    match event_f64_spec(f, seq!["x"@, "clientX"@, "crosshairX"@]) {
        None => Err("pointer_move event missing x"@),
        Some(x) => match event_f64_spec(f, seq!["y"@, "clientY"@, "crosshairY"@]) {
            None => Err("pointer_move event missing y"@),
            Some(y) => Ok(InteractionAction::PointerMove { x, y }),
        },
    }
}

/// The interaction step that a captured event of the given kind stands for.
pub open spec fn interaction_action_for_kind(f: Seq<(String, EventValue)>, kind: Seq<char>) -> Result<
    InteractionAction,
    Seq<char>,
> {
    if kind == "set_navigation"@ {
        Ok(
            InteractionAction::SetNavigation {
                right_offset_bars: or_default(
                    event_f64_spec(f, seq!["right_offset_bars"@, "rightOffsetBars"@]),
                    0,
                ),
                bar_spacing_px: event_optional_f64_spec(f, seq!["bar_spacing_px"@, "barSpacingPx"@]),
            },
        )
    } else if kind == "wheel_pan"@ {
        wheel_pan_spec(f, "wheel_pan event missing delta_x"@)
    } else if kind == "touch_drag_pan"@ || kind == "touch_pan"@ || kind == "touch_move"@ {
        Ok(
            InteractionAction::TouchDragPan {
                delta_x_px: or_default(event_f64_spec(f, seq!["delta_x_px"@, "deltaXPx"@, "deltaX"@]), 0),
                delta_y_px: or_default(event_f64_spec(f, seq!["delta_y_px"@, "deltaYPx"@, "deltaY"@]), 0),
            },
        )
    } else if kind == "wheel_zoom"@ {
        match event_f64_spec(f, seq!["wheel_delta_y"@, "wheelDeltaY"@, "deltaY"@]) {
            None => Err("wheel_zoom event missing delta_y"@),
            Some(dy) => Ok(wheel_zoom_with(f, dy)),
        }
    } else if kind == "wheel"@ {
        let dy = or_default(event_f64_spec(f, seq!["wheel_delta_y"@, "wheelDeltaY"@, "deltaY"@]), 0);
        if !is_zero(dy) {
            Ok(wheel_zoom_with(f, dy))
        } else {
            wheel_pan_spec(f, "wheel event missing delta_x"@)
        }
    } else if kind == "pinch_zoom"@ || kind == "pinch"@ {
        match event_f64_spec(f, seq!["factor"@, "scale"@]) {
            None => Err("pinch_zoom event missing factor/scale"@),
            Some(factor) => Ok(
                InteractionAction::PinchZoom {
                    factor,
                    anchor_px: or_default(event_f64_spec(f, seq!["anchor_px"@, "anchorX"@, "anchorPx"@]), 0),
                    min_span_absolute: or_default(
                        event_f64_spec(f, seq!["min_span_absolute"@, "minSpanAbsolute"@]),
                        DEFAULT_MIN_SPAN_ABSOLUTE,
                    ),
                },
            ),
        }
    } else if kind == "start_kinetic_pan"@ || kind == "kinetic_start"@ {
        match event_f64_spec(f, seq!["velocity_time_per_sec"@, "velocityTimePerSec"@, "velocity"@]) {
            None => Err("kinetic_start event missing velocity"@),
            Some(v) => Ok(InteractionAction::StartKineticPan { velocity_time_per_sec: v }),
        }
    } else if kind == "step_kinetic_pan"@ || kind == "kinetic_step"@ {
        Ok(
            InteractionAction::StepKineticPan {
                delta_seconds: or_default(
                    event_f64_spec(f, seq!["delta_seconds"@, "deltaSeconds"@, "dt"@]),
                    DEFAULT_KINETIC_STEP_SECONDS,
                ),
            },
        )
    } else if kind == "set_crosshair_mode"@ || kind == "crosshair_mode"@ {
        crosshair_mode_action_spec(f)
    } else if kind == "pointer_move"@ || kind == "crosshair_move"@ {
        pointer_move_spec(f)
    } else if kind == "pointer_leave"@ || kind == "crosshair_leave"@ {
        Ok(InteractionAction::PointerLeave)
    } else {
        Err("unsupported lightweight event type `"@ + kind + "`"@)
    }
}

/// The interaction step that a captured event stands for.
pub open spec fn interaction_action_spec(f: Seq<(String, EventValue)>) -> Result<
    InteractionAction,
    Seq<char>,
> {
    match event_kind_spec(f) {
        None => Err("lightweight capture event missing `type`/`event`/`kind`"@),
        Some(kind) => interaction_action_for_kind(f, kind),
    }
}

fn text_error<T>(text: &str) -> (r: Result<T, String>)
    ensures
        r matches Err(t) && t@ == text@,
{
    Err(String::from_str(text))
}

/// `prefix + value + suffix` as an error.
fn quoted_error<T>(prefix: &str, value: &str, suffix: &str) -> (r: Result<T, String>)
    ensures
        r matches Err(t) && t@ == prefix@ + value@ + suffix@,
{
    let mut text = String::from_str(prefix);
    text.append(value);
    text.append(suffix);
    Err(text)
}

fn or_default_exec(v: Option<F64Bits>, default: F64Bits) -> (r: F64Bits)
    ensures
        r == or_default(v, default),
{
    match v {
        Some(x) => x,
        None => default,
    }
}

fn wheel_zoom_with_exec(event: &LightweightEvent, wheel_delta_y: F64Bits) -> (r: InteractionAction)
    ensures
        r == wheel_zoom_with(event.fields@, wheel_delta_y),
{
    let anchor_keys: &[&str] = &["anchor_px", "anchorX", "anchorPx"];
    let zoom_keys: &[&str] = &["zoom_step_ratio", "zoomStepRatio"];
    let span_keys: &[&str] = &["min_span_absolute", "minSpanAbsolute"];
    assert(key_texts(anchor_keys@) =~= seq!["anchor_px"@, "anchorX"@, "anchorPx"@]);
    assert(key_texts(zoom_keys@) =~= seq!["zoom_step_ratio"@, "zoomStepRatio"@]);
    assert(key_texts(span_keys@) =~= seq!["min_span_absolute"@, "minSpanAbsolute"@]);
    InteractionAction::WheelZoom {
        wheel_delta_y,
        anchor_px: or_default_exec(event_f64(event, anchor_keys), 0),
        zoom_step_ratio: or_default_exec(event_f64(event, zoom_keys), DEFAULT_ZOOM_STEP_RATIO),
        min_span_absolute: or_default_exec(event_f64(event, span_keys), DEFAULT_MIN_SPAN_ABSOLUTE),
    }
}

fn wheel_pan_exec(event: &LightweightEvent, missing: &str) -> (r: Result<InteractionAction, String>)
    ensures
        result_matches(r, wheel_pan_spec(event.fields@, missing@)),
{
    let dx_keys: &[&str] = &["wheel_delta_x", "wheelDeltaX", "deltaX"];
    let step_keys: &[&str] = &["pan_step_ratio", "panStepRatio"];
    assert(key_texts(dx_keys@) =~= seq!["wheel_delta_x"@, "wheelDeltaX"@, "deltaX"@]);
    assert(key_texts(step_keys@) =~= seq!["pan_step_ratio"@, "panStepRatio"@]);
    match event_f64(event, dx_keys) {
        None => text_error(missing),
        Some(dx) => Ok(
            InteractionAction::WheelPan {
                wheel_delta_x: dx,
                pan_step_ratio: or_default_exec(event_f64(event, step_keys), DEFAULT_PAN_STEP_RATIO),
            },
        ),
    }
}

fn crosshair_mode_named_exec(name: &str) -> (r: Option<TraceCrosshairMode>)
    ensures
        r == crosshair_mode_named(name@),
{
    if str_equal(name, "magnet") {
        Some(TraceCrosshairMode::Magnet)
    } else if str_equal(name, "normal") {
        Some(TraceCrosshairMode::Normal)
    } else if str_equal(name, "hidden") {
        Some(TraceCrosshairMode::Hidden)
    } else {
        None
    }
}

fn crosshair_mode_action(event: &LightweightEvent) -> (r: Result<InteractionAction, String>)
    ensures
        result_matches(r, crosshair_mode_action_spec(event.fields@)),
{
    let mode_keys: &[&str] = &["mode"];
    assert(key_texts(mode_keys@) =~= seq!["mode"@]);
    match event_string(event, mode_keys) {
        None => text_error("crosshair_mode event missing mode"),
        Some(raw) => {
            let lower = to_ascii_lowercase(raw.as_str());
            match crosshair_mode_named_exec(lower.as_str()) {
                Some(mode) => Ok(InteractionAction::SetCrosshairMode { mode }),
                None => quoted_error("unsupported crosshair mode `", lower.as_str(), "` in lightweight event"),
            }
        },
    }
}

fn pointer_move_action(event: &LightweightEvent) -> (r: Result<InteractionAction, String>)
    ensures
        result_matches(r, pointer_move_spec(event.fields@)),
{
    let x_keys: &[&str] = &["x", "clientX", "crosshairX"];
    let y_keys: &[&str] = &["y", "clientY", "crosshairY"];
    assert(key_texts(x_keys@) =~= seq!["x"@, "clientX"@, "crosshairX"@]);
    assert(key_texts(y_keys@) =~= seq!["y"@, "clientY"@, "crosshairY"@]);
    match event_f64(event, x_keys) {
        None => text_error("pointer_move event missing x"),
        Some(x) => match event_f64(event, y_keys) {
            None => text_error("pointer_move event missing y"),
            Some(y) => Ok(InteractionAction::PointerMove { x, y }),
        },
    }
}

fn interaction_action_for_kind_exec(event: &LightweightEvent, kind: &str) -> (r: Result<
    InteractionAction,
    String,
>)
    ensures
        result_matches(r, interaction_action_for_kind(event.fields@, kind@)),
{
    if str_equal(kind, "set_navigation") {
        let offset_keys: &[&str] = &["right_offset_bars", "rightOffsetBars"];
        let spacing_keys: &[&str] = &["bar_spacing_px", "barSpacingPx"];
        assert(key_texts(offset_keys@) =~= seq!["right_offset_bars"@, "rightOffsetBars"@]);
        assert(key_texts(spacing_keys@) =~= seq!["bar_spacing_px"@, "barSpacingPx"@]);
        Ok(
            InteractionAction::SetNavigation {
                right_offset_bars: or_default_exec(event_f64(event, offset_keys), 0),
                bar_spacing_px: event_optional_f64(event, spacing_keys),
            },
        )
    } else if str_equal(kind, "wheel_pan") {
        wheel_pan_exec(event, "wheel_pan event missing delta_x")
    } else if str_equal(kind, "touch_drag_pan") || str_equal(kind, "touch_pan") || str_equal(
        kind,
        "touch_move",
    ) {
        let x_keys: &[&str] = &["delta_x_px", "deltaXPx", "deltaX"];
        let y_keys: &[&str] = &["delta_y_px", "deltaYPx", "deltaY"];
        assert(key_texts(x_keys@) =~= seq!["delta_x_px"@, "deltaXPx"@, "deltaX"@]);
        assert(key_texts(y_keys@) =~= seq!["delta_y_px"@, "deltaYPx"@, "deltaY"@]);
        Ok(
            InteractionAction::TouchDragPan {
                delta_x_px: or_default_exec(event_f64(event, x_keys), 0),
                delta_y_px: or_default_exec(event_f64(event, y_keys), 0),
            },
        )
    } else if str_equal(kind, "wheel_zoom") {
        let dy_keys: &[&str] = &["wheel_delta_y", "wheelDeltaY", "deltaY"];
        assert(key_texts(dy_keys@) =~= seq!["wheel_delta_y"@, "wheelDeltaY"@, "deltaY"@]);
        match event_f64(event, dy_keys) {
            None => text_error("wheel_zoom event missing delta_y"),
            Some(dy) => Ok(wheel_zoom_with_exec(event, dy)),
        }
    } else if str_equal(kind, "wheel") {
        let dy_keys: &[&str] = &["wheel_delta_y", "wheelDeltaY", "deltaY"];
        assert(key_texts(dy_keys@) =~= seq!["wheel_delta_y"@, "wheelDeltaY"@, "deltaY"@]);
        let dy = or_default_exec(event_f64(event, dy_keys), 0);
        if !bits_is_zero(dy) {
            Ok(wheel_zoom_with_exec(event, dy))
        } else {
            wheel_pan_exec(event, "wheel event missing delta_x")
        }
    } else if str_equal(kind, "pinch_zoom") || str_equal(kind, "pinch") {
        let factor_keys: &[&str] = &["factor", "scale"];
        let anchor_keys: &[&str] = &["anchor_px", "anchorX", "anchorPx"];
        let span_keys: &[&str] = &["min_span_absolute", "minSpanAbsolute"];
        assert(key_texts(factor_keys@) =~= seq!["factor"@, "scale"@]);
        assert(key_texts(anchor_keys@) =~= seq!["anchor_px"@, "anchorX"@, "anchorPx"@]);
        assert(key_texts(span_keys@) =~= seq!["min_span_absolute"@, "minSpanAbsolute"@]);
        match event_f64(event, factor_keys) {
            None => text_error("pinch_zoom event missing factor/scale"),
            Some(factor) => Ok(
                InteractionAction::PinchZoom {
                    factor,
                    anchor_px: or_default_exec(event_f64(event, anchor_keys), 0),
                    min_span_absolute: or_default_exec(
                        event_f64(event, span_keys),
                        DEFAULT_MIN_SPAN_ABSOLUTE,
                    ),
                },
            ),
        }
    } else if str_equal(kind, "start_kinetic_pan") || str_equal(kind, "kinetic_start") {
        let keys: &[&str] = &["velocity_time_per_sec", "velocityTimePerSec", "velocity"];
        assert(key_texts(keys@) =~= seq!["velocity_time_per_sec"@, "velocityTimePerSec"@, "velocity"@]);
        match event_f64(event, keys) {
            None => text_error("kinetic_start event missing velocity"),
            Some(v) => Ok(InteractionAction::StartKineticPan { velocity_time_per_sec: v }),
        }
    } else if str_equal(kind, "step_kinetic_pan") || str_equal(kind, "kinetic_step") {
        let keys: &[&str] = &["delta_seconds", "deltaSeconds", "dt"];
        assert(key_texts(keys@) =~= seq!["delta_seconds"@, "deltaSeconds"@, "dt"@]);
        Ok(
            InteractionAction::StepKineticPan {
                delta_seconds: or_default_exec(event_f64(event, keys), DEFAULT_KINETIC_STEP_SECONDS),
            },
        )
    } else if str_equal(kind, "set_crosshair_mode") || str_equal(kind, "crosshair_mode") {
        crosshair_mode_action(event)
    } else if str_equal(kind, "pointer_move") || str_equal(kind, "crosshair_move") {
        pointer_move_action(event)
    } else if str_equal(kind, "pointer_leave") || str_equal(kind, "crosshair_leave") {
        Ok(InteractionAction::PointerLeave)
    } else {
        quoted_error("unsupported lightweight event type `", kind, "`")
    }
}

/// Maps a captured lightweight event to the interaction step it stands for.
pub fn map_lightweight_event_to_action(event: &LightweightEvent) -> (r: Result<
    InteractionAction,
    String,
>)
    ensures
        result_matches(r, interaction_action_spec(event.fields@)),
{
    match event_kind(event) {
        None => text_error("lightweight capture event missing `type`/`event`/`kind`"),
        Some(kind) => interaction_action_for_kind_exec(event, kind.as_str()),
    }
}

/// A price-scale mode named in a trace.
#[derive(Debug, Clone, Copy, PartialEq, Eq, Structural)]
pub enum TracePriceScaleMode {
    Linear,
    Log,
    Percentage,
    IndexedTo100,
}

/// Where a transformed price scale takes its base price from, as named in a trace.
#[derive(Debug, Clone, Copy, PartialEq, Eq, Structural)]
pub enum TraceTransformedBaseSource {
    DomainStart,
    FirstData,
    LastData,
    FirstVisibleData,
    LastVisibleData,
}

/// One step of a visual corpus fixture; all numbers are encoded `f64`.
#[derive(Debug, Clone, Copy, PartialEq, Eq, Structural)]
pub enum VisualCorpusAction {
    SetTimeVisibleRange { start: F64Bits, end: F64Bits },
    SetPriceScaleMode { mode: TracePriceScaleMode },
    SetTransformedBaseBehavior {
        explicit_base_price: Option<F64Bits>,
        dynamic_source: TraceTransformedBaseSource,
    },
    AutoscaleVisibleData,
    SetCrosshairMode { mode: TraceCrosshairMode },
    PointerMove { x: F64Bits, y: F64Bits },
    AxisDragScalePrice {
        drag_delta_y_px: F64Bits,
        anchor_y_px: F64Bits,
        zoom_step_ratio: F64Bits,
        min_span_absolute: F64Bits,
    },
    AxisDragScaleTime {
        drag_delta_x_px: F64Bits,
        anchor_x_px: F64Bits,
        zoom_step_ratio: F64Bits,
        min_span_absolute: F64Bits,
    },
}

/// The price-scale mode with the given lowercase name.
pub open spec fn price_scale_mode_named(name: Seq<char>) -> Option<TracePriceScaleMode> {
    if name == "linear"@ || name == "normal"@ {
        Some(TracePriceScaleMode::Linear)
    } else if name == "log"@ || name == "logarithmic"@ {
        Some(TracePriceScaleMode::Log)
    } else if name == "percentage"@ || name == "percent"@ {
        Some(TracePriceScaleMode::Percentage)
    } else if name == "indexed_to_100"@ || name == "indexedto100"@ || name == "indexed"@ {
        Some(TracePriceScaleMode::IndexedTo100)
    } else {
        None
    }
}

/// The base-price source with the given lowercase name.
pub open spec fn base_source_named(name: Seq<char>) -> Option<TraceTransformedBaseSource> {
    if name == "domain_start"@ || name == "domainstart"@ {
        Some(TraceTransformedBaseSource::DomainStart)
    } else if name == "first_data"@ || name == "firstdata"@ {
        Some(TraceTransformedBaseSource::FirstData)
    } else if name == "last_data"@ || name == "lastdata"@ {
        Some(TraceTransformedBaseSource::LastData)
    } else if name == "first_visible_data"@ || name == "firstvisibledata"@ {
        Some(TraceTransformedBaseSource::FirstVisibleData)
    } else if name == "last_visible_data"@ || name == "lastvisibledata"@ {
        Some(TraceTransformedBaseSource::LastVisibleData)
    } else {
        None
    }
}

/// The price-scale mode of an event: its `mode` (or `priceScaleMode`) text, lowercased.
pub open spec fn trace_price_scale_mode_spec(f: Seq<(String, EventValue)>) -> Result<
    TracePriceScaleMode,
    Seq<char>,
> {
    match event_string_spec(f, seq!["mode"@, "priceScaleMode"@]) {
        None => Err("price_scale_mode event missing mode"@),
        Some(raw) => match price_scale_mode_named(ascii_lowercase_seq(raw)) {
            Some(mode) => Ok(mode),
            None => Err("unsupported price scale mode `"@ + ascii_lowercase_seq(raw) + "`"@),
        },
    }
}

/// The base-price source of an event, `last_visible_data` when it names none.
pub open spec fn trace_base_source_spec(f: Seq<(String, EventValue)>) -> Result<
    TraceTransformedBaseSource,
    Seq<char>,
> {
    let raw = match event_string_spec(f, seq!["dynamic_source"@, "dynamicSource"@, "baseSource"@]) {
        Some(text) => text,
        None => "last_visible_data"@,
    };
    match base_source_named(ascii_lowercase_seq(raw)) {
        Some(source) => Ok(source),
        None => Err("unsupported transformed base source `"@ + ascii_lowercase_seq(raw) + "`"@),
    }
}

/// The crosshair mode of an event: its `mode` text, lowercased.
pub open spec fn trace_crosshair_mode_spec(f: Seq<(String, EventValue)>) -> Result<
    TraceCrosshairMode,
    Seq<char>,
> {
    match event_string_spec(f, seq!["mode"@]) {
        None => Err("crosshair_mode event missing mode"@),
        Some(raw) => match crosshair_mode_named(ascii_lowercase_seq(raw)) {
            Some(mode) => Ok(mode),
            None => Err("unsupported crosshair mode `"@ + ascii_lowercase_seq(raw) + "`"@),
        },
    }
}

/// An axis-drag step read from an event: the drag delta and the anchor are required, the
/// zoom step ratio and the minimum span have defaults. `None` stands for the first missing
/// required value.
pub open spec fn axis_drag_values(
    f: Seq<(String, EventValue)>,
    delta_keys: Seq<Seq<char>>,
    anchor_keys: Seq<Seq<char>>,
) -> Result<(F64Bits, F64Bits, F64Bits, F64Bits), bool> {
    match event_f64_spec(f, delta_keys) {
        None => Err(true),
        Some(delta) => match event_f64_spec(f, anchor_keys) {
            None => Err(false),
            Some(anchor) => Ok(
                (
                    delta,
                    anchor,
                    or_default(
                        event_f64_spec(f, seq!["zoom_step_ratio"@, "zoomStepRatio"@]),
                        DEFAULT_ZOOM_STEP_RATIO,
                    ),
                    or_default(
                        event_f64_spec(f, seq!["min_span_absolute"@, "minSpanAbsolute"@]),
                        DEFAULT_MIN_SPAN_ABSOLUTE,
                    ),
                ),
            ),
        },
    }
}

/// The visual step that a captured event of the given kind stands for.
pub open spec fn visual_action_for_kind(f: Seq<(String, EventValue)>, kind: Seq<char>) -> Result<
    VisualCorpusAction,
    Seq<char>,
> {
    if kind == "set_time_visible_range"@ || kind == "time_visible_range"@ || kind
        == "set_visible_range_time"@ {
        match event_f64_spec(f, seq!["start"@, "from"@, "visibleStart"@]) {
            None => Err("set_time_visible_range event missing start"@),
            Some(start) => match event_f64_spec(f, seq!["end"@, "to"@, "visibleEnd"@]) {
                None => Err("set_time_visible_range event missing end"@),
                Some(end) => Ok(VisualCorpusAction::SetTimeVisibleRange { start, end }),
            },
        }
    } else if kind == "set_price_scale_mode"@ || kind == "price_scale_mode"@ {
        match trace_price_scale_mode_spec(f) {
            Ok(mode) => Ok(VisualCorpusAction::SetPriceScaleMode { mode }),
            Err(e) => Err(e),
        }
    } else if kind == "set_transformed_base_behavior"@ || kind == "transformed_base_behavior"@ {
        match trace_base_source_spec(f) {
            Ok(dynamic_source) => Ok(
                VisualCorpusAction::SetTransformedBaseBehavior {
                    explicit_base_price: event_optional_f64_spec(
                        f,
                        seq!["explicit_base_price"@, "explicitBasePrice"@, "base_price"@, "basePrice"@],
                    ),
                    dynamic_source,
                },
            ),
            Err(e) => Err(e),
        }
    } else if kind == "autoscale_visible_data"@ || kind == "autoscale_visible"@ {
        Ok(VisualCorpusAction::AutoscaleVisibleData)
    } else if kind == "set_crosshair_mode"@ || kind == "crosshair_mode"@ {
        match trace_crosshair_mode_spec(f) {
            Ok(mode) => Ok(VisualCorpusAction::SetCrosshairMode { mode }),
            Err(e) => Err(e),
        }
    } else if kind == "pointer_move"@ || kind == "crosshair_move"@ {
        match event_f64_spec(f, seq!["x"@, "clientX"@, "crosshairX"@]) {
            None => Err("pointer_move event missing x"@),
            Some(x) => match event_f64_spec(f, seq!["y"@, "clientY"@, "crosshairY"@]) {
                None => Err("pointer_move event missing y"@),
                Some(y) => Ok(VisualCorpusAction::PointerMove { x, y }),
            },
        }
    } else if kind == "axis_drag_scale_price"@ || kind == "axis_scale_price"@ {
        match axis_drag_values(
            f,
            seq!["drag_delta_y_px"@, "dragDeltaYPx"@, "deltaY"@],
            seq!["anchor_y_px"@, "anchorYPx"@, "anchorY"@],
        ) {
            Err(true) => Err("axis_drag_scale_price event missing deltaY"@),
            Err(false) => Err("axis_drag_scale_price event missing anchorY"@),
            Ok((delta, anchor, step, span)) => Ok(
                VisualCorpusAction::AxisDragScalePrice {
                    drag_delta_y_px: delta,
                    anchor_y_px: anchor,
                    zoom_step_ratio: step,
                    min_span_absolute: span,
                },
            ),
        }
    } else if kind == "axis_drag_scale_time"@ || kind == "axis_scale_time"@ {
        match axis_drag_values(
            f,
            seq!["drag_delta_x_px"@, "dragDeltaXPx"@, "deltaX"@],
            seq!["anchor_x_px"@, "anchorXPx"@, "anchorX"@],
        ) {
            Err(true) => Err("axis_drag_scale_time event missing deltaX"@),
            Err(false) => Err("axis_drag_scale_time event missing anchorX"@),
            Ok((delta, anchor, step, span)) => Ok(
                VisualCorpusAction::AxisDragScaleTime {
                    drag_delta_x_px: delta,
                    anchor_x_px: anchor,
                    zoom_step_ratio: step,
                    min_span_absolute: span,
                },
            ),
        }
    } else {
        Err("unsupported lightweight visual event type `"@ + kind + "`"@)
    }
}

/// The visual step that a captured event stands for.
pub open spec fn visual_action_spec(f: Seq<(String, EventValue)>) -> Result<
    VisualCorpusAction,
    Seq<char>,
> {
    match event_kind_spec(f) {
        None => Err("lightweight visual capture event missing `type`/`event`/`kind`"@),
        Some(kind) => visual_action_for_kind(f, kind),
    }
}

fn price_scale_mode_named_exec(name: &str) -> (r: Option<TracePriceScaleMode>)
    ensures
        r == price_scale_mode_named(name@),
{
    if str_equal(name, "linear") || str_equal(name, "normal") {
        Some(TracePriceScaleMode::Linear)
    } else if str_equal(name, "log") || str_equal(name, "logarithmic") {
        Some(TracePriceScaleMode::Log)
    } else if str_equal(name, "percentage") || str_equal(name, "percent") {
        Some(TracePriceScaleMode::Percentage)
    } else if str_equal(name, "indexed_to_100") || str_equal(name, "indexedto100") || str_equal(
        name,
        "indexed",
    ) {
        Some(TracePriceScaleMode::IndexedTo100)
    } else {
        None
    }
}

fn base_source_named_exec(name: &str) -> (r: Option<TraceTransformedBaseSource>)
    ensures
        r == base_source_named(name@),
{
    if str_equal(name, "domain_start") || str_equal(name, "domainstart") {
        Some(TraceTransformedBaseSource::DomainStart)
    } else if str_equal(name, "first_data") || str_equal(name, "firstdata") {
        Some(TraceTransformedBaseSource::FirstData)
    } else if str_equal(name, "last_data") || str_equal(name, "lastdata") {
        Some(TraceTransformedBaseSource::LastData)
    } else if str_equal(name, "first_visible_data") || str_equal(name, "firstvisibledata") {
        Some(TraceTransformedBaseSource::FirstVisibleData)
    } else if str_equal(name, "last_visible_data") || str_equal(name, "lastvisibledata") {
        Some(TraceTransformedBaseSource::LastVisibleData)
    } else {
        None
    }
}

/// Reads the price-scale mode of an event.
pub fn parse_trace_price_scale_mode(event: &LightweightEvent) -> (r: Result<
    TracePriceScaleMode,
    String,
>)
    ensures
        result_matches(r, trace_price_scale_mode_spec(event.fields@)),
{
    let keys: &[&str] = &["mode", "priceScaleMode"];
    assert(key_texts(keys@) =~= seq!["mode"@, "priceScaleMode"@]);
    match event_string(event, keys) {
        None => text_error("price_scale_mode event missing mode"),
        Some(raw) => {
            let lower = to_ascii_lowercase(raw.as_str());
            match price_scale_mode_named_exec(lower.as_str()) {
                Some(mode) => Ok(mode),
                None => quoted_error("unsupported price scale mode `", lower.as_str(), "`"),
            }
        },
    }
}

/// Reads where a transformed price scale takes its base price from.
pub fn parse_trace_transformed_base_source(event: &LightweightEvent) -> (r: Result<
    TraceTransformedBaseSource,
    String,
>)
    ensures
        result_matches(r, trace_base_source_spec(event.fields@)),
{
    let keys: &[&str] = &["dynamic_source", "dynamicSource", "baseSource"];
    assert(key_texts(keys@) =~= seq!["dynamic_source"@, "dynamicSource"@, "baseSource"@]);
    let raw = match event_string(event, keys) {
        Some(text) => text,
        None => String::from_str("last_visible_data"),
    };
    let lower = to_ascii_lowercase(raw.as_str());
    match base_source_named_exec(lower.as_str()) {
        Some(source) => Ok(source),
        None => quoted_error("unsupported transformed base source `", lower.as_str(), "`"),
    }
}

/// Reads the crosshair mode of an event.
pub fn parse_trace_crosshair_mode(event: &LightweightEvent) -> (r: Result<
    TraceCrosshairMode,
    String,
>)
    ensures
        result_matches(r, trace_crosshair_mode_spec(event.fields@)),
{
    let keys: &[&str] = &["mode"];
    assert(key_texts(keys@) =~= seq!["mode"@]);
    match event_string(event, keys) {
        None => text_error("crosshair_mode event missing mode"),
        Some(raw) => {
            let lower = to_ascii_lowercase(raw.as_str());
            match crosshair_mode_named_exec(lower.as_str()) {
                Some(mode) => Ok(mode),
                None => quoted_error("unsupported crosshair mode `", lower.as_str(), "`"),
            }
        },
    }
}

fn axis_drag_values_exec(event: &LightweightEvent, delta_keys: &[&str], anchor_keys: &[&str]) -> (r:
    Result<(F64Bits, F64Bits, F64Bits, F64Bits), bool>)
    ensures
        r == axis_drag_values(event.fields@, key_texts(delta_keys@), key_texts(anchor_keys@)),
{
    let zoom_keys: &[&str] = &["zoom_step_ratio", "zoomStepRatio"];
    let span_keys: &[&str] = &["min_span_absolute", "minSpanAbsolute"];
    assert(key_texts(zoom_keys@) =~= seq!["zoom_step_ratio"@, "zoomStepRatio"@]);
    assert(key_texts(span_keys@) =~= seq!["min_span_absolute"@, "minSpanAbsolute"@]);
    match event_f64(event, delta_keys) {
        None => Err(true),
        Some(delta) => match event_f64(event, anchor_keys) {
            None => Err(false),
            Some(anchor) => Ok(
                (
                    delta,
                    anchor,
                    or_default_exec(event_f64(event, zoom_keys), DEFAULT_ZOOM_STEP_RATIO),
                    or_default_exec(event_f64(event, span_keys), DEFAULT_MIN_SPAN_ABSOLUTE),
                ),
            ),
        },
    }
}

fn visual_action_for_kind_exec(event: &LightweightEvent, kind: &str) -> (r: Result<
    VisualCorpusAction,
    String,
>)
    ensures
        result_matches(r, visual_action_for_kind(event.fields@, kind@)),
{
    if str_equal(kind, "set_time_visible_range") || str_equal(kind, "time_visible_range")
        || str_equal(kind, "set_visible_range_time") {
        let start_keys: &[&str] = &["start", "from", "visibleStart"];
        let end_keys: &[&str] = &["end", "to", "visibleEnd"];
        assert(key_texts(start_keys@) =~= seq!["start"@, "from"@, "visibleStart"@]);
        assert(key_texts(end_keys@) =~= seq!["end"@, "to"@, "visibleEnd"@]);
        match event_f64(event, start_keys) {
            None => text_error("set_time_visible_range event missing start"),
            Some(start) => match event_f64(event, end_keys) {
                None => text_error("set_time_visible_range event missing end"),
                Some(end) => Ok(VisualCorpusAction::SetTimeVisibleRange { start, end }),
            },
        }
    } else if str_equal(kind, "set_price_scale_mode") || str_equal(kind, "price_scale_mode") {
        match parse_trace_price_scale_mode(event) {
            Ok(mode) => Ok(VisualCorpusAction::SetPriceScaleMode { mode }),
            Err(e) => Err(e),
        }
    } else if str_equal(kind, "set_transformed_base_behavior") || str_equal(
        kind,
        "transformed_base_behavior",
    ) {
        let keys: &[&str] = &["explicit_base_price", "explicitBasePrice", "base_price", "basePrice"];
        assert(key_texts(keys@) =~= seq![
            "explicit_base_price"@,
            "explicitBasePrice"@,
            "base_price"@,
            "basePrice"@,
        ]);
        let explicit_base_price = event_optional_f64(event, keys);
        match parse_trace_transformed_base_source(event) {
            Ok(dynamic_source) => Ok(
                VisualCorpusAction::SetTransformedBaseBehavior { explicit_base_price, dynamic_source },
            ),
            Err(e) => Err(e),
        }
    } else if str_equal(kind, "autoscale_visible_data") || str_equal(kind, "autoscale_visible") {
        Ok(VisualCorpusAction::AutoscaleVisibleData)
    } else if str_equal(kind, "set_crosshair_mode") || str_equal(kind, "crosshair_mode") {
        match parse_trace_crosshair_mode(event) {
            Ok(mode) => Ok(VisualCorpusAction::SetCrosshairMode { mode }),
            Err(e) => Err(e),
        }
    } else if str_equal(kind, "pointer_move") || str_equal(kind, "crosshair_move") {
        let x_keys: &[&str] = &["x", "clientX", "crosshairX"];
        let y_keys: &[&str] = &["y", "clientY", "crosshairY"];
        assert(key_texts(x_keys@) =~= seq!["x"@, "clientX"@, "crosshairX"@]);
        assert(key_texts(y_keys@) =~= seq!["y"@, "clientY"@, "crosshairY"@]);
        match event_f64(event, x_keys) {
            None => text_error("pointer_move event missing x"),
            Some(x) => match event_f64(event, y_keys) {
                None => text_error("pointer_move event missing y"),
                Some(y) => Ok(VisualCorpusAction::PointerMove { x, y }),
            },
        }
    } else if str_equal(kind, "axis_drag_scale_price") || str_equal(kind, "axis_scale_price") {
        let delta_keys: &[&str] = &["drag_delta_y_px", "dragDeltaYPx", "deltaY"];
        let anchor_keys: &[&str] = &["anchor_y_px", "anchorYPx", "anchorY"];
        assert(key_texts(delta_keys@) =~= seq!["drag_delta_y_px"@, "dragDeltaYPx"@, "deltaY"@]);
        assert(key_texts(anchor_keys@) =~= seq!["anchor_y_px"@, "anchorYPx"@, "anchorY"@]);
        match axis_drag_values_exec(event, delta_keys, anchor_keys) {
            Err(true) => text_error("axis_drag_scale_price event missing deltaY"),
            Err(false) => text_error("axis_drag_scale_price event missing anchorY"),
            Ok((delta, anchor, step, span)) => Ok(
                VisualCorpusAction::AxisDragScalePrice {
                    drag_delta_y_px: delta,
                    anchor_y_px: anchor,
                    zoom_step_ratio: step,
                    min_span_absolute: span,
                },
            ),
        }
    } else if str_equal(kind, "axis_drag_scale_time") || str_equal(kind, "axis_scale_time") {
        let delta_keys: &[&str] = &["drag_delta_x_px", "dragDeltaXPx", "deltaX"];
        let anchor_keys: &[&str] = &["anchor_x_px", "anchorXPx", "anchorX"];
        assert(key_texts(delta_keys@) =~= seq!["drag_delta_x_px"@, "dragDeltaXPx"@, "deltaX"@]);
        assert(key_texts(anchor_keys@) =~= seq!["anchor_x_px"@, "anchorXPx"@, "anchorX"@]);
        match axis_drag_values_exec(event, delta_keys, anchor_keys) {
            Err(true) => text_error("axis_drag_scale_time event missing deltaX"),
            Err(false) => text_error("axis_drag_scale_time event missing anchorX"),
            Ok((delta, anchor, step, span)) => Ok(
                VisualCorpusAction::AxisDragScaleTime {
                    drag_delta_x_px: delta,
                    anchor_x_px: anchor,
                    zoom_step_ratio: step,
                    min_span_absolute: span,
                },
            ),
        }
    } else {
        quoted_error("unsupported lightweight visual event type `", kind, "`")
    }
}

/// Maps a captured lightweight event to the visual corpus step it stands for.
pub fn map_lightweight_event_to_visual_action(event: &LightweightEvent) -> (r: Result<
    VisualCorpusAction,
    String,
>)
    ensures
        result_matches(r, visual_action_spec(event.fields@)),
{
    match event_kind(event) {
        None => text_error("lightweight visual capture event missing `type`/`event`/`kind`"),
        Some(kind) => visual_action_for_kind_exec(event, kind.as_str()),
    }
}

} // verus!
