use vstd::prelude::*;
use vstd::string::{StrSliceExecFns, StringExecFns};

use crate::axis_label::{PriceAxisDisplayMode, PriceAxisLabelConfig};
use crate::float_bits::F64Bits;
use crate::render_style::RenderStyle;
use crate::text::{
    ascii_lowercase, char_is_ascii_alphanumeric, char_to_ascii_lowercase, is_ascii_alphanumeric,
    push_char, str_equal,
};

verus! {

/// The fixture identifier used when sanitizing leaves nothing.
pub open spec fn default_fixture_id() -> Seq<char> {
    "lwc-visual-fixture"@
}

/// ASCII letters and digits are lowercased, `-` and `_` are kept, anything else becomes `-`.
pub open spec fn sanitize_fixture_char(c: char) -> char {
    if is_ascii_alphanumeric(c) || c == '-' || c == '_' {
        ascii_lowercase(c)
    } else {
        '-'
    }
}

/// Each character of `s` mapped by `sanitize_fixture_char`.
pub open spec fn sanitized_chars(s: Seq<char>) -> Seq<char> {
    s.map_values(|c: char| sanitize_fixture_char(c))
}

/// `s` without its leading `-`.
pub open spec fn trim_start_dashes(s: Seq<char>) -> Seq<char>
    decreases s.len(),
{
    if s.len() > 0 && s[0] == '-' {
        trim_start_dashes(s.drop_first())
    } else {
        s
    }
}

/// `s` without its trailing `-`.
pub open spec fn trim_end_dashes(s: Seq<char>) -> Seq<char>
    decreases s.len(),
{
    if s.len() > 0 && s.last() == '-' {
        trim_end_dashes(s.drop_last())
    } else {
        s
    }
}

/// The safe path segment for a fixture identifier: each character mapped by
/// `sanitize_fixture_char`, leading and trailing `-` trimmed, and the default identifier when
/// nothing is left.
pub open spec fn sanitized_fixture_id(id: Seq<char>) -> Seq<char> {
    let trimmed = trim_end_dashes(trim_start_dashes(sanitized_chars(id)));
    if trimmed.len() == 0 {
        default_fixture_id()
    } else {
        trimmed
    }
}

/// Turns a fixture identifier into a safe relative path segment.
pub fn sanitize_fixture_id_for_relpath(id: &str) -> (r: String)
    ensures
        r@ == sanitized_fixture_id(id@),
{
    let ghost mapped = sanitized_chars(id@);
    let n = id.unicode_len();
    let mut chars: Vec<char> = Vec::new();
    let mut i: usize = 0;
    while i < n
        invariant
            n == id@.len(),
            i <= n,
            mapped == sanitized_chars(id@),
            chars@ == mapped.take(i as int),
        decreases n - i,
    {
        let ch = id.get_char(i);
        let mapped_ch = if char_is_ascii_alphanumeric(ch) || ch == '-' || ch == '_' {
            char_to_ascii_lowercase(ch)
        } else {
            '-'
        };
        chars.push(mapped_ch);
        i += 1;
        assert(chars@ =~= mapped.take(i as int));
    }
    assert(chars@ =~= mapped);
    let mut lo: usize = 0;
    assert(chars@.subrange(0, n as int) =~= chars@);
    while lo < n && chars[lo] == '-'
        invariant
            n == chars@.len(),
            lo <= n,
            trim_start_dashes(chars@) == trim_start_dashes(chars@.subrange(lo as int, n as int)),
        decreases n - lo,
    {
        proof {
            assert(chars@.subrange(lo as int, n as int).drop_first() =~= chars@.subrange(
                lo as int + 1,
                n as int,
            ));
        }
        lo += 1;
    }
    assert(trim_start_dashes(chars@) == chars@.subrange(lo as int, n as int));
    let mut hi: usize = n;
    while hi > lo && chars[hi - 1] == '-'
        invariant
            n == chars@.len(),
            lo <= hi <= n,
            trim_end_dashes(trim_start_dashes(chars@)) == trim_end_dashes(
                chars@.subrange(lo as int, hi as int),
            ),
        decreases hi,
    {
        proof {
            assert(chars@.subrange(lo as int, hi as int).drop_last() =~= chars@.subrange(
                lo as int,
                hi as int - 1,
            ));
        }
        hi -= 1;
    }
    assert(trim_end_dashes(trim_start_dashes(chars@)) == chars@.subrange(lo as int, hi as int));
    if lo == hi {
        return String::from_str("lwc-visual-fixture");
    }
    let mut out = String::new();
    let mut k: usize = lo;
    while k < hi
        invariant
            n == chars@.len(),
            lo <= k <= hi <= n,
            out@ == chars@.subrange(lo as int, k as int),
        decreases hi - k,
    {
        push_char(&mut out, chars[k]);
        k += 1;
        assert(out@ =~= chars@.subrange(lo as int, k as int));
    }
    out
}

/// The usage text of the fixture image generator.
pub open spec fn usage_text() -> Seq<char> {
    "Usage: cargo run --features cairo-backend --bin generate_axis_section_fixture_pngs -- [options]\n\nOptions:\n  --manifest <path>      Fixture manifest path (default: tests/fixtures/axis_section_sizing/axis_section_sizing_corpus.json)\n  --output-root <path>   Output root when fixture has no artifact path (default: tests/fixtures/axis_section_sizing/reference_png)\n  --only <fixture-id>    Generate a single fixture by id\n  -h, --help             Show this message"@
}

/// The usage text of the fixture image generator.
pub fn usage_message() -> (r: String)
    ensures
        r@ == usage_text(),
{
    String::from_str(
        "Usage: cargo run --features cairo-backend --bin generate_axis_section_fixture_pngs -- [options]\n\nOptions:\n  --manifest <path>      Fixture manifest path (default: tests/fixtures/axis_section_sizing/axis_section_sizing_corpus.json)\n  --output-root <path>   Output root when fixture has no artifact path (default: tests/fixtures/axis_section_sizing/reference_png)\n  --only <fixture-id>    Generate a single fixture by id\n  -h, --help             Show this message",
    )
}

/// Options of the fixture image generator.
#[derive(Debug, Clone, PartialEq, Eq)]
pub struct CliArgs {
    pub manifest_path: String,
    pub output_root: String,
    pub only_fixture_id: Option<String>,
}

/// What the command line asks for.
#[derive(Debug, Clone, PartialEq, Eq)]
pub enum CliCommand {
    /// Generate with these options.
    Run(CliArgs),
    /// Show the usage text.
    Help,
}

/// The default manifest path.
pub open spec fn default_manifest_path() -> Seq<char> {
    "tests/fixtures/axis_section_sizing/axis_section_sizing_corpus.json"@
}

/// The default output root.
pub open spec fn default_output_root() -> Seq<char> {
    "tests/fixtures/axis_section_sizing/reference_png"@
}

/// The texts of the arguments.
pub open spec fn arg_texts(args: Seq<String>) -> Seq<Seq<char>> {
    args.map_values(|a: String| a@)
}

/// The text of an optional string.
pub open spec fn opt_text(s: Option<String>) -> Option<Seq<char>> {
    match s {
        Some(t) => Some(t@),
        None => None,
    }
}

/// Reads the arguments from position `i` on, with the options read so far: `--manifest`,
/// `--output-root` and `--only` take the next argument as their value, `--help` and `-h` ask
/// for the usage text, and anything else is an error that quotes the argument and the usage
/// text. `Ok(None)` stands for the usage request.
pub open spec fn parse_args_from(
    args: Seq<Seq<char>>,
    i: int,
    manifest: Seq<char>,
    output: Seq<char>,
    only: Option<Seq<char>>,
) -> Result<Option<(Seq<char>, Seq<char>, Option<Seq<char>>)>, Seq<char>>
    decreases args.len() - i,
{
    if i < 0 || i >= args.len() {
        Ok(Some((manifest, output, only)))
    } else if args[i] == "--manifest"@ {
        if i + 1 >= args.len() {
            Err("missing value for --manifest"@)
        } else {
            parse_args_from(args, i + 2, args[i + 1], output, only)
        }
    } else if args[i] == "--output-root"@ {
        if i + 1 >= args.len() {
            Err("missing value for --output-root"@)
        } else {
            parse_args_from(args, i + 2, manifest, args[i + 1], only)
        }
    } else if args[i] == "--only"@ {
        if i + 1 >= args.len() {
            Err("missing value for --only"@)
        } else {
            parse_args_from(args, i + 2, manifest, output, Some(args[i + 1]))
        }
    } else if args[i] == "--help"@ || args[i] == "-h"@ {
        Ok(None)
    } else {
        Err("unknown argument `"@ + args[i] + "`\n\n"@ + usage_text())
    }
}

/// The command read from all arguments, starting from the default paths.
pub open spec fn parse_args_spec(args: Seq<Seq<char>>) -> Result<
    Option<(Seq<char>, Seq<char>, Option<Seq<char>>)>,
    Seq<char>,
> {
    parse_args_from(args, 0, default_manifest_path(), default_output_root(), None)
}

/// The command matches the outcome of reading the arguments.
pub open spec fn cli_outcome_matches(
    r: Result<CliCommand, String>,
    outcome: Result<Option<(Seq<char>, Seq<char>, Option<Seq<char>>)>, Seq<char>>,
) -> bool {
    match outcome {
        Ok(Some((m, o, only))) => r matches Ok(CliCommand::Run(a)) && a.manifest_path@ == m
            && a.output_root@ == o && opt_text(a.only_fixture_id) == only,
        Ok(None) => r matches Ok(CliCommand::Help),
        Err(e) => r matches Err(text) && text@ == e,
    }
}

fn missing_value(text: &str) -> (r: Result<CliCommand, String>)
    ensures
        r matches Err(t) && t@ == text@,
{
    Err(String::from_str(text))
}

/// Reads the command line of the fixture image generator (the arguments after the program
/// name).
pub fn parse_args(args: &[String]) -> (r: Result<CliCommand, String>)
    ensures
        cli_outcome_matches(r, parse_args_spec(arg_texts(args@))),
{
    let ghost texts = arg_texts(args@);
    let mut manifest_path = String::from_str(
        "tests/fixtures/axis_section_sizing/axis_section_sizing_corpus.json",
    );
    let mut output_root = String::from_str("tests/fixtures/axis_section_sizing/reference_png");
    let mut only_fixture_id: Option<String> = None;
    let mut i: usize = 0;
    while i < args.len()
        invariant
            texts == arg_texts(args@),
            i <= args@.len(),
            parse_args_spec(texts) == parse_args_from(
                texts,
                i as int,
                manifest_path@,
                output_root@,
                opt_text(only_fixture_id),
            ),
        decreases args@.len() - i,
    {
        let arg = args[i].as_str();
        assert(arg@ == texts[i as int]);
        if str_equal(arg, "--manifest") {
            if i + 1 >= args.len() {
                return missing_value("missing value for --manifest");
            }
            manifest_path = args[i + 1].clone();
            assert(manifest_path@ == texts[i + 1]);
            i += 2;
        } else if str_equal(arg, "--output-root") {
            if i + 1 >= args.len() {
                return missing_value("missing value for --output-root");
            }
            output_root = args[i + 1].clone();
            assert(output_root@ == texts[i + 1]);
            i += 2;
        } else if str_equal(arg, "--only") {
            if i + 1 >= args.len() {
                return missing_value("missing value for --only");
            }
            only_fixture_id = Some(args[i + 1].clone());
            assert(opt_text(only_fixture_id) == Some(texts[i + 1]));
            i += 2;
        } else if str_equal(arg, "--help") || str_equal(arg, "-h") {
            return Ok(CliCommand::Help);
        } else {
            let mut text = String::from_str("unknown argument `");
            text.append(arg);
            text.append("`\n\n");
            let usage = usage_message();
            text.append(usage.as_str());
            return Err(text);
        }
    }
    Ok(CliCommand::Run(CliArgs { manifest_path, output_root, only_fixture_id }))
}

/// A special display base price that a fixture can force.
#[derive(Debug, Clone, Copy, PartialEq, Eq, Structural)]
pub enum FixtureDisplayBaseOverride {
    Zero,
    NaN,
    PosInf,
    NegInf,
}

impl FixtureDisplayBaseOverride {
    /// The value as an encoded `f64`: `0.0`, `f64::NAN`, `f64::INFINITY` or
    /// `f64::NEG_INFINITY`.
    pub open spec fn spec_to_f64(self) -> F64Bits {
        match self {
            FixtureDisplayBaseOverride::Zero => 0,
            FixtureDisplayBaseOverride::NaN => 0x7ff8_0000_0000_0000,
            FixtureDisplayBaseOverride::PosInf => 0x7ff0_0000_0000_0000,
            FixtureDisplayBaseOverride::NegInf => 0xfff0_0000_0000_0000,
        }
    }

    /// The value as an encoded `f64`.
    pub fn to_f64(self) -> (r: F64Bits)
        ensures
            r == self.spec_to_f64(),
    {
        match self {
            FixtureDisplayBaseOverride::Zero => 0,
            FixtureDisplayBaseOverride::NaN => 0x7ff8_0000_0000_0000,
            FixtureDisplayBaseOverride::PosInf => 0x7ff0_0000_0000_0000,
            FixtureDisplayBaseOverride::NegInf => 0xfff0_0000_0000_0000,
        }
    }
}

/// Replaces the base price of a percentage or indexed-to-100 display mode with the forced
/// value; a normal display mode is kept.
pub fn apply_display_base_override(
    config: &mut PriceAxisLabelConfig,
    override_base: FixtureDisplayBaseOverride,
)
    ensures
        final(config).policy == old(config).policy,
        final(config).display_mode == match old(config).display_mode {
            PriceAxisDisplayMode::Normal => PriceAxisDisplayMode::Normal,
            PriceAxisDisplayMode::Percentage { .. } => PriceAxisDisplayMode::Percentage {
                base_price: Some(override_base.spec_to_f64()),
            },
            PriceAxisDisplayMode::IndexedTo100 { .. } => PriceAxisDisplayMode::IndexedTo100 {
                base_price: Some(override_base.spec_to_f64()),
            },
        },
{
    let base_price = Some(override_base.to_f64());
    config.display_mode = match config.display_mode {
        PriceAxisDisplayMode::Normal => PriceAxisDisplayMode::Normal,
        PriceAxisDisplayMode::Percentage { .. } => PriceAxisDisplayMode::Percentage { base_price },
        PriceAxisDisplayMode::IndexedTo100 { .. } => PriceAxisDisplayMode::IndexedTo100 {
            base_price,
        },
    };
}

/// Render-style values that a fixture overrides; numbers are encoded `f64`.
#[derive(Debug, Clone, Copy, PartialEq, Eq, Structural)]
pub struct RenderStyleOverrides {
    pub price_axis_width_px: Option<F64Bits>,
    pub time_axis_height_px: Option<F64Bits>,
    pub price_axis_label_font_size_px: Option<F64Bits>,
    pub price_axis_label_padding_right_px: Option<F64Bits>,
    pub time_axis_label_font_size_px: Option<F64Bits>,
    pub major_time_label_font_size_px: Option<F64Bits>,
    pub time_axis_label_offset_y_px: Option<F64Bits>,
    pub major_time_label_offset_y_px: Option<F64Bits>,
    pub time_axis_tick_mark_length_px: Option<F64Bits>,
    pub major_time_tick_mark_length_px: Option<F64Bits>,
    pub show_time_axis_tick_marks: Option<bool>,
    pub show_major_time_tick_marks: Option<bool>,
    pub show_last_price_label: Option<bool>,
    pub show_last_price_line: Option<bool>,
}

/// The override when there is one, and the current value otherwise.
pub open spec fn or_keep<T>(override_value: Option<T>, current: T) -> T {
    match override_value {
        Some(v) => v,
        None => current,
    }
}

/// The style with each given override applied.
pub open spec fn with_style_overrides(style: RenderStyle, o: RenderStyleOverrides) -> RenderStyle {
    RenderStyle {
        price_axis_width_px: or_keep(o.price_axis_width_px, style.price_axis_width_px),
        time_axis_height_px: or_keep(o.time_axis_height_px, style.time_axis_height_px),
        price_axis_label_font_size_px: or_keep(o.price_axis_label_font_size_px, style.price_axis_label_font_size_px),
        price_axis_label_padding_right_px: or_keep(o.price_axis_label_padding_right_px, style.price_axis_label_padding_right_px),
        time_axis_label_font_size_px: or_keep(o.time_axis_label_font_size_px, style.time_axis_label_font_size_px),
        major_time_label_font_size_px: or_keep(o.major_time_label_font_size_px, style.major_time_label_font_size_px),
        time_axis_label_offset_y_px: or_keep(o.time_axis_label_offset_y_px, style.time_axis_label_offset_y_px),
        major_time_label_offset_y_px: or_keep(o.major_time_label_offset_y_px, style.major_time_label_offset_y_px),
        time_axis_tick_mark_length_px: or_keep(o.time_axis_tick_mark_length_px, style.time_axis_tick_mark_length_px),
        major_time_tick_mark_length_px: or_keep(o.major_time_tick_mark_length_px, style.major_time_tick_mark_length_px),
        show_time_axis_tick_marks: or_keep(o.show_time_axis_tick_marks, style.show_time_axis_tick_marks),
        show_major_time_tick_marks: or_keep(o.show_major_time_tick_marks, style.show_major_time_tick_marks),
        show_last_price_label: or_keep(o.show_last_price_label, style.show_last_price_label),
        show_last_price_line: or_keep(o.show_last_price_line, style.show_last_price_line),
        ..style
    }
}

fn pick<T: Copy>(override_value: Option<T>, current: T) -> (r: T)
    ensures
        r == or_keep(override_value, current),
{
    match override_value {
        Some(v) => v,
        None => current,
    }
}

/// Applies each given override to the style; the other values are kept.
pub fn apply_style_overrides(style: &mut RenderStyle, overrides: &RenderStyleOverrides)
    ensures
        *final(style) == with_style_overrides(*old(style), *overrides),
{
    let current = *style;
    *style = RenderStyle {
        price_axis_width_px: pick(overrides.price_axis_width_px, current.price_axis_width_px),
        time_axis_height_px: pick(overrides.time_axis_height_px, current.time_axis_height_px),
        price_axis_label_font_size_px: pick(overrides.price_axis_label_font_size_px, current.price_axis_label_font_size_px),
        price_axis_label_padding_right_px: pick(overrides.price_axis_label_padding_right_px, current.price_axis_label_padding_right_px),
        time_axis_label_font_size_px: pick(overrides.time_axis_label_font_size_px, current.time_axis_label_font_size_px),
        major_time_label_font_size_px: pick(overrides.major_time_label_font_size_px, current.major_time_label_font_size_px),
        time_axis_label_offset_y_px: pick(overrides.time_axis_label_offset_y_px, current.time_axis_label_offset_y_px),
        major_time_label_offset_y_px: pick(overrides.major_time_label_offset_y_px, current.major_time_label_offset_y_px),
        time_axis_tick_mark_length_px: pick(overrides.time_axis_tick_mark_length_px, current.time_axis_tick_mark_length_px),
        major_time_tick_mark_length_px: pick(overrides.major_time_tick_mark_length_px, current.major_time_tick_mark_length_px),
        show_time_axis_tick_marks: pick(overrides.show_time_axis_tick_marks, current.show_time_axis_tick_marks),
        show_major_time_tick_marks: pick(overrides.show_major_time_tick_marks, current.show_major_time_tick_marks),
        show_last_price_label: pick(overrides.show_last_price_label, current.show_last_price_label),
        show_last_price_line: pick(overrides.show_last_price_line, current.show_last_price_line),
        ..current
    };
}

} // verus!
