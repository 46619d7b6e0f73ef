use chart_rs::trace_tool::{parse_args, CliArgs, CommandKind};

fn args(items: &[&str]) -> Vec<String> {
    items.iter().map(|s| s.to_string()).collect()
}

const USAGE: &str = "usage: differential_trace_tool <export-time|import-time|export-price|import-price|export-interaction|import-interaction|import-lwc-interaction|import-lwc-visual> --input <path> --output <path>";

#[test]
fn trace_tool_reads_command_and_paths() {
    let parsed = parse_args(&args(&["import-lwc-visual", "--output", "out.json", "--input", "in.json"])).unwrap();
    assert_eq!(
        parsed,
        CliArgs { command: CommandKind::ImportLwcVisual, input: "in.json".to_string(), output: "out.json".to_string() }
    );
    let parsed = parse_args(&args(&["export-time", "--input", "a", "--input", "b", "--output", "c"])).unwrap();
    assert_eq!(parsed.command, CommandKind::ExportTime);
    assert_eq!(parsed.input, "b");
}

#[test]
fn trace_tool_requires_a_known_command() {
    assert_eq!(parse_args(&[]).unwrap_err(), USAGE);
    assert_eq!(parse_args(&args(&["export-everything", "--input", "a"])).unwrap_err(), USAGE);
    assert_eq!(parse_args(&args(&["--input", "a"])).unwrap_err(), USAGE);
}

#[test]
fn trace_tool_reports_flag_errors() {
    assert_eq!(parse_args(&args(&["import-time", "--input"])).unwrap_err(), "missing value for --input");
    assert_eq!(parse_args(&args(&["import-time", "--input", "a", "--output"])).unwrap_err(), "missing value for --output");
    assert_eq!(parse_args(&args(&["import-time", "--output", "b"])).unwrap_err(), "missing --input");
    assert_eq!(parse_args(&args(&["import-time", "--input", "a"])).unwrap_err(), "missing --output");
    assert_eq!(parse_args(&args(&["import-time", "-h"])).unwrap_err(), USAGE);
    assert_eq!(parse_args(&args(&["import-time", "--verbose"])).unwrap_err(), "unknown argument `--verbose`");
}
