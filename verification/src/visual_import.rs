use vstd::prelude::*;
use vstd::string::StringExecFns;

use crate::axis_label::{PriceAxisLabelConfig, TimeAxisLabelConfig};
use crate::fixture_tools::{sanitize_fixture_id_for_relpath, sanitized_fixture_id};
use crate::float_bits::F64Bits;
use crate::lightweight_events::{
    map_lightweight_event_to_visual_action, visual_action_spec, LightweightEvent,
    VisualCorpusAction,
};
use crate::series::{DataPoint, OhlcBar};
use crate::text::{decimal_text, usize_to_decimal};
use crate::types::Viewport;

verus! {

/// A viewport size as a capture records it.
#[derive(Debug, Clone, Copy, PartialEq, Eq, Structural)]
pub struct DifferentialViewport {
    pub width: u32,
    pub height: u32,
}

/// A time range as a capture records it (encoded `f64`).
#[derive(Debug, Clone, Copy, PartialEq, Eq, Structural)]
pub struct DifferentialTimeRange {
    pub start: F64Bits,
    pub end: F64Bits,
}

/// A price range as a capture records it (encoded `f64`).
#[derive(Debug, Clone, Copy, PartialEq, Eq, Structural)]
pub struct DifferentialPriceRange {
    pub min: F64Bits,
    pub max: F64Bits,
}

/// How far a rendered image may differ from its baseline.
#[derive(Debug, Clone, Copy, PartialEq, Eq, Structural)]
pub struct VisualCorpusTolerance {
    pub max_channel_abs_diff: u8,
    /// Encoded `f64`.
    pub mean_channel_abs_diff: F64Bits,
}

/// One fixture of a raw visual capture; absent values fall back to the capture's own.
#[derive(Debug, Clone, PartialEq, Eq)]
pub struct LightweightVisualCaptureFixture {
    pub id: Option<String>,
    pub description: Option<String>,
    pub viewport: Option<DifferentialViewport>,
    pub time_range: Option<DifferentialTimeRange>,
    pub price_range: Option<DifferentialPriceRange>,
    pub points: Vec<DataPoint>,
    pub candles: Vec<OhlcBar>,
    pub time_axis_label_config: Option<TimeAxisLabelConfig>,
    pub price_axis_label_config: Option<PriceAxisLabelConfig>,
    pub tolerance: Option<VisualCorpusTolerance>,
    pub baseline_png_relpath: Option<String>,
    pub events: Vec<LightweightEvent>,
}

/// A raw visual capture: either a list of fixtures or the fields of a single one.
#[derive(Debug, Clone, PartialEq, Eq)]
pub struct LightweightVisualCaptureFile {
    pub trace_name: Option<String>,
    pub source_notes: Option<String>,
    pub viewport: Option<DifferentialViewport>,
    pub time_range: Option<DifferentialTimeRange>,
    pub price_range: Option<DifferentialPriceRange>,
    pub tolerance: Option<VisualCorpusTolerance>,
    pub points: Vec<DataPoint>,
    pub candles: Vec<OhlcBar>,
    pub time_axis_label_config: Option<TimeAxisLabelConfig>,
    pub price_axis_label_config: Option<PriceAxisLabelConfig>,
    pub events: Vec<LightweightEvent>,
    pub fixtures: Vec<LightweightVisualCaptureFixture>,
}

/// The input of a visual corpus fixture; ranges are pairs of encoded `f64`.
#[derive(Debug, Clone, PartialEq, Eq)]
pub struct VisualCorpusInput {
    pub viewport: Viewport,
    pub time_range: [F64Bits; 2],
    pub price_range: [F64Bits; 2],
    pub points: Vec<DataPoint>,
    pub candles: Vec<OhlcBar>,
    pub time_axis_label_config: Option<TimeAxisLabelConfig>,
    pub price_axis_label_config: Option<PriceAxisLabelConfig>,
    pub actions: Vec<VisualCorpusAction>,
}

/// A fixture of the visual corpus.
#[derive(Debug, Clone, PartialEq, Eq)]
pub struct VisualCorpusFixture {
    pub id: String,
    pub description: String,
    pub input: VisualCorpusInput,
    pub baseline_png_relpath: String,
    pub tolerance: VisualCorpusTolerance,
}

/// A visual corpus.
#[derive(Debug, Clone, PartialEq, Eq)]
pub struct VisualCorpusFile {
    pub schema_version: u32,
    pub trace_name: Option<String>,
    pub source: Option<String>,
    pub source_notes: Option<String>,
    pub fixtures: Vec<VisualCorpusFixture>,
}

/// The first of the two values that is present.
pub open spec fn first_of<T>(a: Option<T>, b: Option<T>) -> Option<T> {
    match a {
        Some(v) => Some(v),
        None => b,
    }
}

/// The text of an optional string, or the default.
pub open spec fn text_or(s: Option<String>, default: Seq<char>) -> Seq<char> {
    match s {
        Some(t) => t@,
        None => default,
    }
}

/// The identifier of the fixture at `index`: its own, or one numbered from 1.
pub open spec fn visual_fixture_id(id: Option<String>, index: usize) -> Seq<char> {
    text_or(id, "lwc-visual-fixture-"@ + decimal_text(index as nat + 1))
}

/// The actions of the events, in order, or the error of the first event that maps to none.
pub open spec fn map_visual_events(events: Seq<LightweightEvent>) -> Result<
    Seq<VisualCorpusAction>,
    Seq<char>,
>
    decreases events.len(),
{
    if events.len() == 0 {
        Ok(Seq::empty())
    } else {
        match map_visual_events(events.drop_last()) {
            Err(e) => Err(e),
            Ok(prefix) => match visual_action_spec(events.last().fields@) {
                Err(e) => Err(e),
                Ok(a) => Ok(prefix.push(a)),
            },
        }
    }
}

/// The error of importing the fixture at `index`, if any: a viewport, time range and price
/// range must be present (in the fixture or as defaults), and every event must map.
pub open spec fn visual_fixture_error(
    f: LightweightVisualCaptureFixture,
    index: usize,
    default_viewport: Option<DifferentialViewport>,
    default_time_range: Option<DifferentialTimeRange>,
    default_price_range: Option<DifferentialPriceRange>,
) -> Option<Seq<char>> {
    let id = visual_fixture_id(f.id, index);
    if first_of(f.viewport, default_viewport) is None {
        Some("visual fixture `"@ + id + "` missing viewport"@)
    } else if first_of(f.time_range, default_time_range) is None {
        Some("visual fixture `"@ + id + "` missing time_range"@)
    } else if first_of(f.price_range, default_price_range) is None {
        Some("visual fixture `"@ + id + "` missing price_range"@)
    } else {
        match map_visual_events(f.events@) {
            Err(e) => Some(e),
            Ok(_) => None,
        }
    }
}

/// The tolerance used when neither the fixture nor the capture gives one.
pub open spec fn zero_tolerance() -> VisualCorpusTolerance {
    VisualCorpusTolerance { max_channel_abs_diff: 0, mean_channel_abs_diff: 0 }
}

/// `out` is the corpus fixture imported from the capture fixture at `index`, whose import
/// does not fail.
pub open spec fn imported_fixture(
    f: LightweightVisualCaptureFixture,
    index: usize,
    default_viewport: Option<DifferentialViewport>,
    default_time_range: Option<DifferentialTimeRange>,
    default_price_range: Option<DifferentialPriceRange>,
    default_tolerance: Option<VisualCorpusTolerance>,
    out: VisualCorpusFixture,
) -> bool {
    let id = visual_fixture_id(f.id, index);
    &&& out.id@ == id
    &&& out.description@ == text_or(f.description, "Imported directly from Lightweight visual capture"@)
    &&& first_of(f.viewport, default_viewport) matches Some(v) && out.input.viewport == Viewport {
        width: v.width,
        height: v.height,
    }
    &&& first_of(f.time_range, default_time_range) matches Some(t) && out.input.time_range@
        == seq![t.start, t.end]
    &&& first_of(f.price_range, default_price_range) matches Some(p) && out.input.price_range@
        == seq![p.min, p.max]
    &&& out.input.points@ == f.points@
    &&& out.input.candles@ == f.candles@
    &&& out.input.time_axis_label_config == f.time_axis_label_config
    &&& out.input.price_axis_label_config == f.price_axis_label_config
    &&& map_visual_events(f.events@) matches Ok(actions) && out.input.actions@ == actions
    &&& out.tolerance == match first_of(f.tolerance, default_tolerance) {
        Some(t) => t,
        None => zero_tolerance(),
    }
    &&& out.baseline_png_relpath@ == text_or(
        f.baseline_png_relpath,
        "tests/fixtures/lightweight_visual_differential/reference_png/"@ + sanitized_fixture_id(id)
            + ".png"@,
    )
}

fn fixture_text(prefix: &str, id: &str, suffix: &str) -> (r: String)
    ensures
        r@ == prefix@ + id@ + suffix@,
{
    let mut text = String::from_str(prefix);
    text.append(id);
    text.append(suffix);
    text
}

fn map_events(events: &Vec<LightweightEvent>) -> (r: Result<Vec<VisualCorpusAction>, String>)
    ensures
        match map_visual_events(events@) {
            Ok(actions) => r matches Ok(v) && v@ == actions,
            Err(e) => r matches Err(t) && t@ == e,
        },
{
    let mut actions: Vec<VisualCorpusAction> = Vec::new();
    let mut i: usize = 0;
    while i < events.len()
        invariant
            i <= events@.len(),
            map_visual_events(events@.take(i as int)) == Ok::<
                Seq<VisualCorpusAction>,
                Seq<char>,
            >(actions@),
        decreases events@.len() - i,
    {
        proof {
            assert(events@.take(i as int + 1).drop_last() =~= events@.take(i as int));
            assert(events@.take(i as int + 1).last() == events@[i as int]);
        }
        match map_lightweight_event_to_visual_action(&events[i]) {
            Ok(action) => actions.push(action),
            Err(e) => {
                proof {
                    lemma_map_visual_events_error_persists(events@, i as int + 1);
                }
                return Err(e);
            },
        }
        i += 1;
    }
    assert(events@.take(events@.len() as int) =~= events@);
    Ok(actions)
}

/// Once a prefix of the events fails to map, the whole sequence fails with the same error.
proof fn lemma_map_visual_events_error_persists(events: Seq<LightweightEvent>, k: int)
    requires
        0 <= k <= events.len(),
        map_visual_events(events.take(k)) is Err,
    ensures
        map_visual_events(events) == map_visual_events(events.take(k)),
    decreases events.len() - k,
{
    if k < events.len() {
        assert(events.take(k + 1).drop_last() =~= events.take(k));
        lemma_map_visual_events_error_persists(events, k + 1);
    } else {
        assert(events.take(k) =~= events);
    }
}

/// Imports the capture fixture at `index` into a corpus fixture, filling in the capture's
/// defaults, a numbered identifier, a default description, tolerance and baseline path.
pub fn import_lightweight_visual_fixture(
    fixture: LightweightVisualCaptureFixture,
    fixture_index: usize,
    default_viewport: Option<DifferentialViewport>,
    default_time_range: Option<DifferentialTimeRange>,
    default_price_range: Option<DifferentialPriceRange>,
    default_tolerance: Option<VisualCorpusTolerance>,
) -> (r: Result<VisualCorpusFixture, String>)
    requires
        fixture_index < usize::MAX,
    ensures
        match visual_fixture_error(
            fixture,
            fixture_index,
            default_viewport,
            default_time_range,
            default_price_range,
        ) {
            Some(e) => r matches Err(t) && t@ == e,
            None => r matches Ok(out) && imported_fixture(
                fixture,
                fixture_index,
                default_viewport,
                default_time_range,
                default_price_range,
                default_tolerance,
                out,
            ),
        },
{
    let ghost original = fixture;
    let LightweightVisualCaptureFixture {
        id,
        description,
        viewport,
        time_range,
        price_range,
        points,
        candles,
        time_axis_label_config,
        price_axis_label_config,
        tolerance,
        baseline_png_relpath,
        events,
    } = fixture;
    let id = match id {
        Some(id) => id,
        None => {
            let number = usize_to_decimal(fixture_index + 1);
            let mut text = String::from_str("lwc-visual-fixture-");
            text.append(number.as_str());
            text
        },
    };
    assert(id@ == visual_fixture_id(original.id, fixture_index));
    let description = match description {
        Some(d) => d,
        None => String::from_str("Imported directly from Lightweight visual capture"),
    };
    let viewport = match viewport {
        Some(v) => v,
        None => match default_viewport {
            Some(v) => v,
            None => return Err(fixture_text("visual fixture `", id.as_str(), "` missing viewport")),
        },
    };
    let time_range = match time_range {
        Some(t) => t,
        None => match default_time_range {
            Some(t) => t,
            None => return Err(fixture_text("visual fixture `", id.as_str(), "` missing time_range")),
        },
    };
    let price_range = match price_range {
        Some(p) => p,
        None => match default_price_range {
            Some(p) => p,
            None => return Err(
                fixture_text("visual fixture `", id.as_str(), "` missing price_range"),
            ),
        },
    };
    let actions = match map_events(&events) {
        Ok(actions) => actions,
        Err(e) => return Err(e),
    };
    let tolerance = match tolerance {
        Some(t) => t,
        None => match default_tolerance {
            Some(t) => t,
            None => VisualCorpusTolerance { max_channel_abs_diff: 0, mean_channel_abs_diff: 0 },
        },
    };
    let baseline_png_relpath = match baseline_png_relpath {
        Some(path) => path,
        None => {
            let segment = sanitize_fixture_id_for_relpath(id.as_str());
            fixture_text(
                "tests/fixtures/lightweight_visual_differential/reference_png/",
                segment.as_str(),
                ".png",
            )
        },
    };
    Ok(
        VisualCorpusFixture {
            id,
            description,
            input: VisualCorpusInput {
                viewport: Viewport { width: viewport.width, height: viewport.height },
                time_range: [time_range.start, time_range.end],
                price_range: [price_range.min, price_range.max],
                points,
                candles,
                time_axis_label_config,
                price_axis_label_config,
                actions,
            },
            baseline_png_relpath,
            tolerance,
        },
    )
}

/// The single fixture that a capture without a fixture list stands for.
pub open spec fn single_capture_fixture(c: LightweightVisualCaptureFile) -> LightweightVisualCaptureFixture {
    LightweightVisualCaptureFixture {
        id: None,
        description: None,
        viewport: c.viewport,
        time_range: c.time_range,
        price_range: c.price_range,
        points: c.points,
        candles: c.candles,
        time_axis_label_config: c.time_axis_label_config,
        price_axis_label_config: c.price_axis_label_config,
        tolerance: c.tolerance,
        baseline_png_relpath: None,
        events: c.events,
    }
}

/// The error of the first fixture in the list whose import fails, each imported with the
/// capture's defaults at its position.
pub open spec fn fixtures_error(
    fixtures: Seq<LightweightVisualCaptureFixture>,
    default_viewport: Option<DifferentialViewport>,
    default_time_range: Option<DifferentialTimeRange>,
    default_price_range: Option<DifferentialPriceRange>,
) -> Option<Seq<char>>
    decreases fixtures.len(),
{
    if fixtures.len() == 0 {
        None
    } else {
        match fixtures_error(
            fixtures.drop_last(),
            default_viewport,
            default_time_range,
            default_price_range,
        ) {
            Some(e) => Some(e),
            None => visual_fixture_error(
                fixtures.last(),
                (fixtures.len() - 1) as usize,
                default_viewport,
                default_time_range,
                default_price_range,
            ),
        }
    }
}

/// The error of importing a capture, if any.
pub open spec fn capture_error(c: LightweightVisualCaptureFile) -> Option<Seq<char>> {
    if c.fixtures@.len() == 0 {
        visual_fixture_error(single_capture_fixture(c), 0, None, None, None)
    } else {
        fixtures_error(c.fixtures@, c.viewport, c.time_range, c.price_range)
    }
}

/// Once a prefix of the fixtures fails to import, the whole list fails with the same error.
proof fn lemma_fixtures_error_persists(
    fixtures: Seq<LightweightVisualCaptureFixture>,
    k: int,
    default_viewport: Option<DifferentialViewport>,
    default_time_range: Option<DifferentialTimeRange>,
    default_price_range: Option<DifferentialPriceRange>,
)
    requires
        0 <= k <= fixtures.len(),
        fixtures_error(fixtures.take(k), default_viewport, default_time_range, default_price_range) is Some,
    ensures
        fixtures_error(fixtures, default_viewport, default_time_range, default_price_range)
            == fixtures_error(fixtures.take(k), default_viewport, default_time_range, default_price_range),
    decreases fixtures.len() - k,
{
    if k < fixtures.len() {
        assert(fixtures.take(k + 1).drop_last() =~= fixtures.take(k));
        lemma_fixtures_error_persists(fixtures, k + 1, default_viewport, default_time_range, default_price_range);
    } else {
        assert(fixtures.take(k) =~= fixtures);
    }
}

/// Imports a raw visual capture into a visual corpus: each fixture is imported at its
/// position with the capture's values as defaults, or, without a fixture list, the capture's
/// own fields form the one fixture.
pub fn import_lightweight_visual_capture(capture: LightweightVisualCaptureFile) -> (r: Result<
    VisualCorpusFile,
    String,
>)
    ensures
        match capture_error(capture) {
            Some(e) => r matches Err(t) && t@ == e,
            None => r matches Ok(file) && {
                &&& file.schema_version == 1
                &&& file.trace_name == capture.trace_name
                &&& file.source matches Some(s) && s@ == "lightweight-charts-v5.1-capture"@
                &&& file.source_notes matches Some(n) && n@ == text_or(
                    capture.source_notes,
                    "Imported directly from Lightweight real visual capture without manual normalization."@,
                )
                &&& capture.fixtures@.len() == 0 ==> file.fixtures@.len() == 1 && imported_fixture(
                    single_capture_fixture(capture),
                    0,
                    None,
                    None,
                    None,
                    None,
                    file.fixtures@[0],
                )
                &&& capture.fixtures@.len() > 0 ==> file.fixtures@.len() == capture.fixtures@.len()
                    && forall|i: int|
                    0 <= i < capture.fixtures@.len() ==> imported_fixture(
                        capture.fixtures@[i],
                        i as usize,
                        capture.viewport,
                        capture.time_range,
                        capture.price_range,
                        capture.tolerance,
                        #[trigger] file.fixtures@[i],
                    )
            },
        },
{
    let ghost original = capture;
    let LightweightVisualCaptureFile {
        trace_name,
        source_notes,
        viewport,
        time_range,
        price_range,
        tolerance,
        points,
        candles,
        time_axis_label_config,
        price_axis_label_config,
        events,
        fixtures: input_fixtures,
    } = capture;
    let mut fixtures: Vec<VisualCorpusFixture> = Vec::new();
    if input_fixtures.len() == 0 {
        let fixture = LightweightVisualCaptureFixture {
            id: None,
            description: None,
            viewport,
            time_range,
            price_range,
            points,
            candles,
            time_axis_label_config,
            price_axis_label_config,
            tolerance,
            baseline_png_relpath: None,
            events,
        };
        assert(fixture == single_capture_fixture(original));
        match import_lightweight_visual_fixture(fixture, 0, None, None, None, None) {
            Ok(imported) => fixtures.push(imported),
            Err(e) => return Err(e),
        }
    } else {
        let ghost all = input_fixtures@;
        let n = input_fixtures.len();
        let mut remaining = input_fixtures;
        let mut index: usize = 0;
        while index < n
            invariant
                n == all.len(),
                n > 0,
                original == capture,
                all == original.fixtures@,
                viewport == original.viewport,
                time_range == original.time_range,
                price_range == original.price_range,
                tolerance == original.tolerance,
                index <= n,
                remaining@ == all.subrange(index as int, n as int),
                fixtures@.len() == index,
                fixtures_error(all.take(index as int), viewport, time_range, price_range) is None,
                forall|i: int|
                    0 <= i < index ==> imported_fixture(
                        all[i],
                        i as usize,
                        viewport,
                        time_range,
                        price_range,
                        tolerance,
                        #[trigger] fixtures@[i],
                    ),
            decreases n - index,
        {
            let fixture = remaining.remove(0);
            assert(fixture == all[index as int]);
            proof {
                assert(all.take(index as int + 1).drop_last() =~= all.take(index as int));
                assert(all.take(index as int + 1).last() == all[index as int]);
            }
            match import_lightweight_visual_fixture(
                fixture,
                index,
                viewport,
                time_range,
                price_range,
                tolerance,
            ) {
                Ok(imported) => fixtures.push(imported),
                Err(e) => {
                    proof {
                        assert(fixtures_error(all.take(index as int + 1), viewport, time_range, price_range)
                            == visual_fixture_error(all[index as int], index, viewport, time_range, price_range));
                        lemma_fixtures_error_persists(all, index as int + 1, viewport, time_range, price_range);
                    }
                    return Err(e);
                },
            }
            proof {
                assert(remaining@ =~= all.subrange(index as int + 1, n as int));
            }
            index += 1;
        }
        assert(all.take(n as int) =~= all);
    }
    let source_notes = match source_notes {
        Some(notes) => notes,
        None => String::from_str(
            "Imported directly from Lightweight real visual capture without manual normalization.",
        ),
    };
    Ok(
        VisualCorpusFile {
            schema_version: 1,
            trace_name,
            source: Some(String::from_str("lightweight-charts-v5.1-capture")),
            source_notes: Some(source_notes),
            fixtures,
        },
    )
}

} // verus!
