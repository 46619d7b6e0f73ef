use vstd::prelude::*;
use vstd::string::StringExecFns;

use crate::float_bits::F64Bits;
use crate::lightweight_events::{
    interaction_action_spec, map_lightweight_event_to_action, InteractionAction, LightweightEvent,
    TracePriceScaleMode, TraceTransformedBaseSource,
};
use crate::text::{decimal_text, usize_to_decimal};
use crate::visual_import::text_or;
use crate::visual_import::{DifferentialPriceRange, DifferentialTimeRange, DifferentialViewport};

verus! {

/// A sample of a trace scenario (encoded `f64`).
#[derive(Debug, Clone, Copy, PartialEq, Eq, Structural)]
pub struct DifferentialPoint {
    pub time: F64Bits,
    pub value: F64Bits,
}

/// One step of a time-scale trace; numbers are encoded `f64`.
#[derive(Debug, Clone, Copy, PartialEq, Eq, Structural)]
pub enum TimeAction {
    SetNavigation { right_offset_bars: F64Bits, bar_spacing_px: Option<F64Bits> },
    SetRightOffsetPx { value: F64Bits },
    SetScrollZoomBehavior { right_bar_stays_on_scroll: bool },
    PanByPixels { delta_px: F64Bits },
    WheelZoom {
        wheel_delta_y: F64Bits,
        anchor_px: F64Bits,
        zoom_step_ratio: F64Bits,
        min_span_absolute: F64Bits,
    },
}

/// What a time-scale trace step expects (encoded `f64`).
#[derive(Debug, Clone, Copy, PartialEq, Eq, Structural)]
pub struct TimeExpectation {
    pub visible_start: Option<F64Bits>,
    pub visible_end: Option<F64Bits>,
    pub visible_span: Option<F64Bits>,
    pub right_margin_px: Option<F64Bits>,
    pub scroll_position_bars: Option<F64Bits>,
}

/// One step of a price-scale trace; numbers are encoded `f64`.
#[derive(Debug, Clone, Copy, PartialEq, Eq, Structural)]
pub enum PriceAction {
    SetPriceScaleMode { mode: TracePriceScaleMode },
    SetTransformedBaseBehavior {
        explicit_base_price: Option<F64Bits>,
        dynamic_source: TraceTransformedBaseSource,
    },
    SetTimeVisibleRange { start: F64Bits, end: F64Bits },
    AutoscaleVisibleData,
    SetPriceScaleRealtimeBehavior {
        autoscale_on_data_update: bool,
        autoscale_on_data_set: bool,
        autoscale_on_time_range_change: bool,
    },
    AppendPoint { time: F64Bits, value: F64Bits },
}

/// What a price-scale trace step expects (encoded `f64`).
#[derive(Debug, Clone, Copy, PartialEq, Eq, Structural)]
pub struct PriceExpectation {
    pub base_value: Option<F64Bits>,
    pub price_domain_start: Option<F64Bits>,
    pub price_domain_end: Option<F64Bits>,
    pub price_domain_span: Option<F64Bits>,
    pub probe_price_pixel: Option<F64Bits>,
    pub probe_pixel_price: Option<F64Bits>,
}

/// What an interaction trace step expects (encoded `f64`).
#[derive(Debug, Clone, Copy, PartialEq, Eq, Structural)]
pub struct InteractionExpectation {
    pub visible_start: Option<F64Bits>,
    pub visible_end: Option<F64Bits>,
    pub visible_span: Option<F64Bits>,
    pub scroll_position_bars: Option<F64Bits>,
    pub kinetic_active: Option<bool>,
    pub kinetic_velocity_time_per_sec: Option<F64Bits>,
    pub crosshair_visible: Option<bool>,
    pub crosshair_x: Option<F64Bits>,
    pub crosshair_y: Option<F64Bits>,
    pub crosshair_snapped_x: Option<F64Bits>,
    pub crosshair_snapped_y: Option<F64Bits>,
    pub crosshair_snapped_time: Option<F64Bits>,
    pub crosshair_snapped_price: Option<F64Bits>,
}

/// A trace step: an action and, optionally, what it is expected to give.
#[derive(Debug, Clone, Copy, PartialEq, Eq)]
pub struct TraceStep<A, E> {
    pub action: A,
    pub expect: Option<E>,
}

/// A captured step: an action and what was observed after it.
#[derive(Debug, Clone, Copy, PartialEq, Eq)]
pub struct CaptureStep<A, E> {
    pub action: A,
    pub observed: E,
}

/// A scenario of a time-scale or interaction trace.
#[derive(Debug, Clone, PartialEq, Eq)]
pub struct Scenario<S> {
    pub id: String,
    pub points: Vec<DifferentialPoint>,
    pub steps: Vec<S>,
}

/// A scenario of a price-scale trace, with its probes (encoded `f64`).
#[derive(Debug, Clone, PartialEq, Eq)]
pub struct PriceScenarioOf<S> {
    pub id: String,
    pub points: Vec<DifferentialPoint>,
    pub probe_price: Option<F64Bits>,
    pub probe_pixel: Option<F64Bits>,
    pub steps: Vec<S>,
}

/// A trace or capture file: its header and scenarios.
#[derive(Debug, Clone, PartialEq, Eq)]
pub struct TraceFileOf<C> {
    pub trace_name: String,
    pub source: String,
    pub source_notes: String,
    pub viewport: DifferentialViewport,
    pub time_range: DifferentialTimeRange,
    pub price_range: DifferentialPriceRange,
    /// Encoded `f64`.
    pub tolerance: F64Bits,
    pub scenarios: Vec<C>,
}

pub type TimeScenario = Scenario<TraceStep<TimeAction, TimeExpectation>>;

pub type TimeCaptureScenario = Scenario<CaptureStep<TimeAction, TimeExpectation>>;

pub type TimeTraceFile = TraceFileOf<TimeScenario>;

pub type TimeCaptureFile = TraceFileOf<TimeCaptureScenario>;

pub type PriceScenario = PriceScenarioOf<TraceStep<PriceAction, PriceExpectation>>;

pub type PriceCaptureScenario = PriceScenarioOf<CaptureStep<PriceAction, PriceExpectation>>;

pub type PriceTraceFile = TraceFileOf<PriceScenario>;

pub type PriceCaptureFile = TraceFileOf<PriceCaptureScenario>;

pub type InteractionScenario = Scenario<TraceStep<InteractionAction, InteractionExpectation>>;

pub type InteractionCaptureScenario = Scenario<CaptureStep<InteractionAction, InteractionExpectation>>;

pub type InteractionTraceFile = TraceFileOf<InteractionScenario>;

pub type InteractionCaptureFile = TraceFileOf<InteractionCaptureScenario>;

/// The trace step for a captured step: the same action, expecting what was observed.
pub open spec fn step_imported<A, E>(captured: CaptureStep<A, E>, step: TraceStep<A, E>) -> bool {
    step.action == captured.action && step.expect == Some(captured.observed)
}

/// Each trace step is the import of the captured step at its position.
pub open spec fn steps_imported<A, E>(captured: Seq<CaptureStep<A, E>>, steps: Seq<TraceStep<A, E>>) -> bool {
    &&& steps.len() == captured.len()
    &&& forall|i: int| 0 <= i < captured.len() ==> step_imported(captured[i], #[trigger] steps[i])
}

/// The scenario keeps the captured scenario's identifier and points and imports its steps.
pub open spec fn scenario_imported<A, E>(
    captured: Scenario<CaptureStep<A, E>>,
    scenario: Scenario<TraceStep<A, E>>,
) -> bool {
    &&& scenario.id == captured.id
    &&& scenario.points@ == captured.points@
    &&& steps_imported(captured.steps@, scenario.steps@)
}

/// The price scenario keeps the captured scenario's identifier, points and probes and imports
/// its steps.
pub open spec fn price_scenario_imported(captured: PriceCaptureScenario, scenario: PriceScenario) -> bool {
    &&& scenario.id == captured.id
    &&& scenario.points@ == captured.points@
    &&& scenario.probe_price == captured.probe_price
    &&& scenario.probe_pixel == captured.probe_pixel
    &&& steps_imported(captured.steps@, scenario.steps@)
}

/// The two files have the same header.
pub open spec fn same_header<C, D>(a: TraceFileOf<C>, b: TraceFileOf<D>) -> bool {
    &&& a.trace_name == b.trace_name
    &&& a.source == b.source
    &&& a.source_notes == b.source_notes
    &&& a.viewport == b.viewport
    &&& a.time_range == b.time_range
    &&& a.price_range == b.price_range
    &&& a.tolerance == b.tolerance
}

fn import_steps<A: Copy, E: Copy>(captured: Vec<CaptureStep<A, E>>) -> (r: Vec<TraceStep<A, E>>)
    ensures
        steps_imported(captured@, r@),
{
    let mut steps: Vec<TraceStep<A, E>> = Vec::new();
    let mut i: usize = 0;
    while i < captured.len()
        invariant
            i <= captured@.len(),
            steps@.len() == i,
            forall|j: int| 0 <= j < i ==> step_imported(captured@[j], #[trigger] steps@[j]),
        decreases captured@.len() - i,
    {
        let step = captured[i];
        steps.push(TraceStep { action: step.action, expect: Some(step.observed) });
        i += 1;
    }
    steps
}

fn import_scenarios<A: Copy, E: Copy>(captured: Vec<Scenario<CaptureStep<A, E>>>) -> (r: Vec<
    Scenario<TraceStep<A, E>>,
>)
    ensures
        r@.len() == captured@.len(),
        forall|i: int| 0 <= i < captured@.len() ==> scenario_imported(captured@[i], #[trigger] r@[i]),
{
    let ghost all = captured@;
    let n = captured.len();
    let mut remaining = captured;
    let mut scenarios: Vec<Scenario<TraceStep<A, E>>> = Vec::new();
    let mut i: usize = 0;
    while i < n
        invariant
            n == all.len(),
            i <= n,
            remaining@ == all.subrange(i as int, n as int),
            scenarios@.len() == i,
            forall|j: int| 0 <= j < i ==> scenario_imported(all[j], #[trigger] scenarios@[j]),
        decreases n - i,
    {
        let scenario = remaining.remove(0);
        assert(scenario == all[i as int]);
        let Scenario { id, points, steps } = scenario;
        scenarios.push(Scenario { id, points, steps: import_steps(steps) });
        assert(remaining@ =~= all.subrange(i as int + 1, n as int));
        i += 1;
    }
    scenarios
}

/// Turns a time-scale capture into a trace whose steps expect what was observed.
pub fn import_time_capture(capture: TimeCaptureFile) -> (r: TimeTraceFile)
    ensures
        same_header(capture, r),
        r.scenarios@.len() == capture.scenarios@.len(),
        forall|i: int|
            0 <= i < capture.scenarios@.len() ==> scenario_imported(
                capture.scenarios@[i],
                #[trigger] r.scenarios@[i],
            ),
{
    let TraceFileOf {
        trace_name,
        source,
        source_notes,
        viewport,
        time_range,
        price_range,
        tolerance,
        scenarios,
    } = capture;
    TraceFileOf {
        trace_name,
        source,
        source_notes,
        viewport,
        time_range,
        price_range,
        tolerance,
        scenarios: import_scenarios(scenarios),
    }
}

/// Turns an interaction capture into a trace whose steps expect what was observed.
pub fn import_interaction_capture(capture: InteractionCaptureFile) -> (r: InteractionTraceFile)
    ensures
        same_header(capture, r),
        r.scenarios@.len() == capture.scenarios@.len(),
        forall|i: int|
            0 <= i < capture.scenarios@.len() ==> scenario_imported(
                capture.scenarios@[i],
                #[trigger] r.scenarios@[i],
            ),
{
    let TraceFileOf {
        trace_name,
        source,
        source_notes,
        viewport,
        time_range,
        price_range,
        tolerance,
        scenarios,
    } = capture;
    TraceFileOf {
        trace_name,
        source,
        source_notes,
        viewport,
        time_range,
        price_range,
        tolerance,
        scenarios: import_scenarios(scenarios),
    }
}

/// Turns a price-scale capture into a trace whose steps expect what was observed.
pub fn import_price_capture(capture: PriceCaptureFile) -> (r: PriceTraceFile)
    ensures
        same_header(capture, r),
        r.scenarios@.len() == capture.scenarios@.len(),
        forall|i: int|
            0 <= i < capture.scenarios@.len() ==> price_scenario_imported(
                capture.scenarios@[i],
                #[trigger] r.scenarios@[i],
            ),
{
    let TraceFileOf {
        trace_name,
        source,
        source_notes,
        viewport,
        time_range,
        price_range,
        tolerance,
        scenarios: captured,
    } = capture;
    let ghost all = captured@;
    let n = captured.len();
    let mut remaining = captured;
    let mut scenarios: Vec<PriceScenario> = Vec::new();
    let mut i: usize = 0;
    while i < n
        invariant
            n == all.len(),
            i <= n,
            remaining@ == all.subrange(i as int, n as int),
            scenarios@.len() == i,
            forall|j: int| 0 <= j < i ==> price_scenario_imported(all[j], #[trigger] scenarios@[j]),
        decreases n - i,
    {
        let scenario = remaining.remove(0);
        assert(scenario == all[i as int]);
        let PriceScenarioOf { id, points, probe_price, probe_pixel, steps } = scenario;
        scenarios.push(
            PriceScenarioOf { id, points, probe_price, probe_pixel, steps: import_steps(steps) },
        );
        assert(remaining@ =~= all.subrange(i as int + 1, n as int));
        i += 1;
    }
    TraceFileOf {
        trace_name,
        source,
        source_notes,
        viewport,
        time_range,
        price_range,
        tolerance,
        scenarios,
    }
}

/// A captured lightweight event and the expectation read from its `observed` (or `expect`)
/// payload: none when it has neither, or the text of the error when the payload does not
/// read as an expectation.
#[derive(Debug, PartialEq, Eq)]
pub struct CapturedInteractionEvent {
    pub event: LightweightEvent,
    pub expectation: Result<Option<InteractionExpectation>, String>,
}

/// A scenario of a raw lightweight interaction capture.
#[derive(Debug, PartialEq, Eq)]
pub struct LightweightInteractionCaptureScenario {
    pub id: Option<String>,
    pub points: Vec<DifferentialPoint>,
    pub events: Vec<CapturedInteractionEvent>,
}

/// A raw lightweight interaction capture: a list of scenarios, or the points and events of a
/// single one.
#[derive(Debug, PartialEq, Eq)]
pub struct LightweightInteractionCaptureFile {
    pub trace_name: Option<String>,
    pub source_notes: Option<String>,
    pub viewport: DifferentialViewport,
    pub time_range: DifferentialTimeRange,
    pub price_range: DifferentialPriceRange,
    /// Encoded `f64`.
    pub tolerance: Option<F64Bits>,
    pub points: Vec<DifferentialPoint>,
    pub scenarios: Vec<LightweightInteractionCaptureScenario>,
    pub events: Vec<CapturedInteractionEvent>,
}

/// `1e-6` as an encoded `f64`: the tolerance of an imported capture that gives none.
pub const DEFAULT_CAPTURE_TOLERANCE: F64Bits = 0x3eb0_c6f7_a0b5_ed8d;

/// The expectation of a captured event, with an error's text as a sequence.
pub open spec fn expectation_spec(e: CapturedInteractionEvent) -> Result<Option<InteractionExpectation>, Seq<char>> {
    match e.expectation {
        Ok(x) => Ok(x),
        Err(t) => Err(t@),
    }
}

/// The steps of a scenario's events, in order: each event's action, then its expectation; or
/// the first error met.
pub open spec fn interaction_steps_spec(events: Seq<CapturedInteractionEvent>) -> Result<
    Seq<TraceStep<InteractionAction, InteractionExpectation>>,
    Seq<char>,
>
    decreases events.len(),
{
    if events.len() == 0 {
        Ok(Seq::empty())
    } else {
        match interaction_steps_spec(events.drop_last()) {
            Err(e) => Err(e),
            Ok(prefix) => match interaction_action_spec(events.last().event.fields@) {
                Err(e) => Err(e),
                Ok(action) => match expectation_spec(events.last()) {
                    Err(e) => Err(e),
                    Ok(expect) => Ok(prefix.push(TraceStep { action, expect })),
                },
            },
        }
    }
}

/// Once a prefix of the events fails, the whole sequence fails with the same error.
proof fn lemma_interaction_steps_error_persists(events: Seq<CapturedInteractionEvent>, k: int)
    requires
        0 <= k <= events.len(),
        interaction_steps_spec(events.take(k)) is Err,
    ensures
        interaction_steps_spec(events) == interaction_steps_spec(events.take(k)),
    decreases events.len() - k,
{
    if k < events.len() {
        assert(events.take(k + 1).drop_last() =~= events.take(k));
        lemma_interaction_steps_error_persists(events, k + 1);
    } else {
        assert(events.take(k) =~= events);
    }
}

/// Builds a trace scenario from captured events: each event gives a step with its action and
/// expectation; the first event that fails gives the error.
pub fn import_lightweight_interaction_scenario(
    id: String,
    points: Vec<DifferentialPoint>,
    events: Vec<CapturedInteractionEvent>,
) -> (r: Result<InteractionScenario, String>)
    ensures
        match interaction_steps_spec(events@) {
            Err(e) => r matches Err(t) && t@ == e,
            Ok(steps) => r matches Ok(s) && s.id == id && s.points@ == points@ && s.steps@ == steps,
        },
{
    let mut steps: Vec<TraceStep<InteractionAction, InteractionExpectation>> = Vec::new();
    let mut i: usize = 0;
    while i < events.len()
        invariant
            i <= events@.len(),
            interaction_steps_spec(events@.take(i as int)) == Ok::<
                Seq<TraceStep<InteractionAction, InteractionExpectation>>,
                Seq<char>,
            >(steps@),
        decreases events@.len() - i,
    {
        proof {
            assert(events@.take(i as int + 1).drop_last() =~= events@.take(i as int));
            assert(events@.take(i as int + 1).last() == events@[i as int]);
        }
        let action = match map_lightweight_event_to_action(&events[i].event) {
            Ok(action) => action,
            Err(e) => {
                proof {
                    lemma_interaction_steps_error_persists(events@, i as int + 1);
                }
                return Err(e);
            },
        };
        let expect = match &events[i].expectation {
            Ok(expect) => *expect,
            Err(e) => {
                proof {
                    lemma_interaction_steps_error_persists(events@, i as int + 1);
                }
                return Err(e.clone());
            },
        };
        steps.push(TraceStep { action, expect });
        i += 1;
    }
    assert(events@.take(events@.len() as int) =~= events@);
    Ok(Scenario { id, points, steps })
}

/// The identifier of the captured scenario at `index`: its own, or one numbered from 1.
pub open spec fn lightweight_scenario_id(id: Option<String>, index: usize) -> Seq<char> {
    text_or(id, "lightweight-scenario-"@ + decimal_text(index as nat + 1))
}

/// The error of the first captured scenario whose events fail, if any.
pub open spec fn scenarios_error(scenarios: Seq<LightweightInteractionCaptureScenario>) -> Option<Seq<char>>
    decreases scenarios.len(),
{
    if scenarios.len() == 0 {
        None
    } else {
        match scenarios_error(scenarios.drop_last()) {
            Some(e) => Some(e),
            None => match interaction_steps_spec(scenarios.last().events@) {
                Err(e) => Some(e),
                Ok(_) => None,
            },
        }
    }
}

/// Once a prefix of the scenarios fails, the whole list fails with the same error.
proof fn lemma_scenarios_error_persists(scenarios: Seq<LightweightInteractionCaptureScenario>, k: int)
    requires
        0 <= k <= scenarios.len(),
        scenarios_error(scenarios.take(k)) is Some,
    ensures
        scenarios_error(scenarios) == scenarios_error(scenarios.take(k)),
    decreases scenarios.len() - k,
{
    if k < scenarios.len() {
        assert(scenarios.take(k + 1).drop_last() =~= scenarios.take(k));
        lemma_scenarios_error_persists(scenarios, k + 1);
    } else {
        assert(scenarios.take(k) =~= scenarios);
    }
}

/// The error of importing a lightweight interaction capture, if any.
pub open spec fn interaction_capture_error(c: LightweightInteractionCaptureFile) -> Option<Seq<char>> {
    if c.scenarios@.len() > 0 {
        scenarios_error(c.scenarios@)
    } else {
        match interaction_steps_spec(c.events@) {
            Err(e) => Some(e),
            Ok(_) => None,
        }
    }
}

/// The trace scenario imported from the captured scenario at `index`.
pub open spec fn lightweight_scenario_imported(
    captured: LightweightInteractionCaptureScenario,
    index: usize,
    scenario: InteractionScenario,
) -> bool {
    &&& scenario.id@ == lightweight_scenario_id(captured.id, index)
    &&& scenario.points@ == captured.points@
    &&& interaction_steps_spec(captured.events@) matches Ok(steps) && scenario.steps@ == steps
}

fn scenario_id(id: Option<String>, index: usize) -> (r: String)
    requires
        index < usize::MAX,
    ensures
        r@ == lightweight_scenario_id(id, index),
{
    match id {
        Some(id) => id,
        None => {
            let number = usize_to_decimal(index + 1);
            let mut text = String::from_str("lightweight-scenario-");
            text.append(number.as_str());
            text
        },
    }
}

/// Imports a raw lightweight interaction capture into an interaction trace.
pub fn import_lightweight_interaction_capture(capture: LightweightInteractionCaptureFile) -> (r:
    Result<InteractionTraceFile, String>)
    ensures
        match interaction_capture_error(capture) {
            Some(e) => r matches Err(t) && t@ == e,
            None => r matches Ok(trace) && {
                &&& trace.trace_name@ == text_or(capture.trace_name, "lightweight-real-capture-interaction"@)
                &&& trace.source@ == "lightweight-charts-v5.1-capture"@
                &&& trace.source_notes@ == text_or(
                    capture.source_notes,
                    "Imported directly from Lightweight real capture without manual normalization."@,
                )
                &&& trace.viewport == capture.viewport
                &&& trace.time_range == capture.time_range
                &&& trace.price_range == capture.price_range
                &&& trace.tolerance == match capture.tolerance {
                    Some(t) => t,
                    None => DEFAULT_CAPTURE_TOLERANCE,
                }
                &&& capture.scenarios@.len() > 0 ==> trace.scenarios@.len() == capture.scenarios@.len()
                    && forall|i: int|
                    0 <= i < capture.scenarios@.len() ==> lightweight_scenario_imported(
                        capture.scenarios@[i],
                        i as usize,
                        #[trigger] trace.scenarios@[i],
                    )
                &&& capture.scenarios@.len() == 0 ==> trace.scenarios@.len() == 1
                    && lightweight_scenario_imported(
                    LightweightInteractionCaptureScenario {
                        id: None,
                        points: capture.points,
                        events: capture.events,
                    },
                    0,
                    trace.scenarios@[0],
                )
            },
        },
{
    let ghost original = capture;
    let LightweightInteractionCaptureFile {
        trace_name,
        source_notes,
        viewport,
        time_range,
        price_range,
        tolerance,
        points,
        scenarios: captured,
        events,
    } = capture;
    let mut scenarios: Vec<InteractionScenario> = Vec::new();
    if captured.len() > 0 {
        let ghost all = captured@;
        let n = captured.len();
        let mut remaining = captured;
        let mut index: usize = 0;
        while index < n
            invariant
                original == capture,
                n == all.len(),
                n > 0,
                all == original.scenarios@,
                index <= n,
                remaining@ == all.subrange(index as int, n as int),
                scenarios@.len() == index,
                scenarios_error(all.take(index as int)) is None,
                forall|i: int|
                    0 <= i < index ==> lightweight_scenario_imported(
                        all[i],
                        i as usize,
                        #[trigger] scenarios@[i],
                    ),
            decreases n - index,
        {
            let scenario = remaining.remove(0);
            assert(scenario == all[index as int]);
            proof {
                assert(all.take(index as int + 1).drop_last() =~= all.take(index as int));
                assert(all.take(index as int + 1).last() == all[index as int]);
            }
            let LightweightInteractionCaptureScenario { id, points, events } = scenario;
            let id = scenario_id(id, index);
            match import_lightweight_interaction_scenario(id, points, events) {
                Ok(imported) => scenarios.push(imported),
                Err(e) => {
                    proof {
                        lemma_scenarios_error_persists(all, index as int + 1);
                    }
                    return Err(e);
                },
            }
            proof {
                assert(remaining@ =~= all.subrange(index as int + 1, n as int));
            }
            index += 1;
        }
        assert(all.take(n as int) =~= all);
    } else {
        let id = scenario_id(None, 0);
        match import_lightweight_interaction_scenario(id, points, events) {
            Ok(imported) => scenarios.push(imported),
            Err(e) => return Err(e),
        }
    }
    let trace_name = match trace_name {
        Some(name) => name,
        None => String::from_str("lightweight-real-capture-interaction"),
    };
    let source_notes = match source_notes {
        Some(notes) => notes,
        None => String::from_str(
            "Imported directly from Lightweight real capture without manual normalization.",
        ),
    };
    let tolerance = match tolerance {
        Some(t) => t,
        None => DEFAULT_CAPTURE_TOLERANCE,
    };
    Ok(
        TraceFileOf {
            trace_name,
            source: String::from_str("lightweight-charts-v5.1-capture"),
            source_notes,
            viewport,
            time_range,
            price_range,
            tolerance,
            scenarios,
        },
    )
}

} // verus!
