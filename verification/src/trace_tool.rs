use vstd::prelude::*;
use vstd::string::StringExecFns;

use crate::fixture_tools::{arg_texts, opt_text};
use crate::text::str_equal;

verus! {

/// What the differential trace tool is asked to do.
#[derive(Debug, Clone, Copy, PartialEq, Eq, Structural)]
pub enum CommandKind {
    ExportTime,
    ImportTime,
    ExportPrice,
    ImportPrice,
    ExportInteraction,
    ImportInteraction,
    ImportLwcInteraction,
    ImportLwcVisual,
}

/// The command and the input and output paths of the differential trace tool.
#[derive(Debug, Clone, PartialEq, Eq)]
pub struct CliArgs {
    pub command: CommandKind,
    pub input: String,
    pub output: String,
}

/// The usage text of the differential trace tool.
pub open spec fn trace_tool_usage() -> Seq<char> {
    "usage: differential_trace_tool <export-time|import-time|export-price|import-price|export-interaction|import-interaction|import-lwc-interaction|import-lwc-visual> --input <path> --output <path>"@
}

/// The command with the given name.
pub open spec fn command_named(name: Seq<char>) -> Option<CommandKind> {
    if name == "export-time"@ {
        Some(CommandKind::ExportTime)
    } else if name == "import-time"@ {
        Some(CommandKind::ImportTime)
    } else if name == "export-price"@ {
        Some(CommandKind::ExportPrice)
    } else if name == "import-price"@ {
        Some(CommandKind::ImportPrice)
    } else if name == "export-interaction"@ {
        Some(CommandKind::ExportInteraction)
    } else if name == "import-interaction"@ {
        Some(CommandKind::ImportInteraction)
    } else if name == "import-lwc-interaction"@ {
        Some(CommandKind::ImportLwcInteraction)
    } else if name == "import-lwc-visual"@ {
        Some(CommandKind::ImportLwcVisual)
    } else {
        None
    }
}

/// Reads the flags from position `i` on, with the paths read so far: `--input` and
/// `--output` take the next argument as their value, `--help` and `-h` give the usage text as
/// an error, and anything else is an unknown argument. Once the flags are read, both paths
/// must be there.
pub open spec fn trace_flags_from(
    args: Seq<Seq<char>>,
    i: int,
    input: Option<Seq<char>>,
    output: Option<Seq<char>>,
) -> Result<(Seq<char>, Seq<char>), Seq<char>>
    decreases args.len() - i,
{
    if i < 0 || i >= args.len() {
        match (input, output) {
            (None, _) => Err("missing --input"@),
            (Some(_), None) => Err("missing --output"@),
            (Some(a), Some(b)) => Ok((a, b)),
        }
    } else if args[i] == "--input"@ {
        if i + 1 >= args.len() {
            Err("missing value for --input"@)
        } else {
            trace_flags_from(args, i + 2, Some(args[i + 1]), output)
        }
    } else if args[i] == "--output"@ {
        if i + 1 >= args.len() {
            Err("missing value for --output"@)
        } else {
            trace_flags_from(args, i + 2, input, Some(args[i + 1]))
        }
    } else if args[i] == "--help"@ || args[i] == "-h"@ {
        Err(trace_tool_usage())
    } else {
        Err("unknown argument `"@ + args[i] + "`"@)
    }
}

/// The command line of the trace tool read in full: the command name first, then the flags.
pub open spec fn trace_tool_args_spec(args: Seq<Seq<char>>) -> Result<
    (CommandKind, Seq<char>, Seq<char>),
    Seq<char>,
> {
    if args.len() == 0 {
        Err(trace_tool_usage())
    } else {
        match command_named(args[0]) {
            None => Err(trace_tool_usage()),
            Some(command) => match trace_flags_from(args, 1, None, None) {
                Ok((input, output)) => Ok((command, input, output)),
                Err(e) => Err(e),
            },
        }
    }
}

fn command_named_exec(name: &str) -> (r: Option<CommandKind>)
    ensures
        r == command_named(name@),
{
    if str_equal(name, "export-time") {
        Some(CommandKind::ExportTime)
    } else if str_equal(name, "import-time") {
        Some(CommandKind::ImportTime)
    } else if str_equal(name, "export-price") {
        Some(CommandKind::ExportPrice)
    } else if str_equal(name, "import-price") {
        Some(CommandKind::ImportPrice)
    } else if str_equal(name, "export-interaction") {
        Some(CommandKind::ExportInteraction)
    } else if str_equal(name, "import-interaction") {
        Some(CommandKind::ImportInteraction)
    } else if str_equal(name, "import-lwc-interaction") {
        Some(CommandKind::ImportLwcInteraction)
    } else if str_equal(name, "import-lwc-visual") {
        Some(CommandKind::ImportLwcVisual)
    } else {
        None
    }
}

fn usage_error() -> (r: Result<CliArgs, String>)
    ensures
        r matches Err(t) && t@ == trace_tool_usage(),
{
    Err(
        String::from_str(
            "usage: differential_trace_tool <export-time|import-time|export-price|import-price|export-interaction|import-interaction|import-lwc-interaction|import-lwc-visual> --input <path> --output <path>",
        ),
    )
}

fn text_error(text: &str) -> (r: Result<CliArgs, String>)
    ensures
        r matches Err(t) && t@ == text@,
{
    Err(String::from_str(text))
}

/// Reads the command line of the differential trace tool (the arguments after the program
/// name).
pub fn parse_args(args: &[String]) -> (r: Result<CliArgs, String>)
    ensures
        match trace_tool_args_spec(arg_texts(args@)) {
            Ok((command, input, output)) => r matches Ok(a) && a.command == command && a.input@
                == input && a.output@ == output,
            Err(e) => r matches Err(t) && t@ == e,
        },
{
    let ghost texts = arg_texts(args@);
    if args.len() == 0 {
        return usage_error();
    }
    let first = args[0].as_str();
    assert(first@ == texts[0]);
    let command = match command_named_exec(first) {
        Some(command) => command,
        None => return usage_error(),
    };
    let mut input: Option<String> = None;
    let mut output: Option<String> = None;
    let mut i: usize = 1;
    while i < args.len()
        invariant
            texts == arg_texts(args@),
            1 <= i <= args@.len(),
            command_named(texts[0]) == Some(command),
            trace_flags_from(texts, 1, None, None) == trace_flags_from(
                texts,
                i as int,
                opt_text(input),
                opt_text(output),
            ),
        decreases args@.len() - i,
    {
        let flag = args[i].as_str();
        assert(flag@ == texts[i as int]);
        if str_equal(flag, "--input") {
            if i + 1 >= args.len() {
                return text_error("missing value for --input");
            }
            input = Some(args[i + 1].clone());
            assert(opt_text(input) == Some(texts[i + 1]));
            i += 2;
        } else if str_equal(flag, "--output") {
            if i + 1 >= args.len() {
                return text_error("missing value for --output");
            }
            output = Some(args[i + 1].clone());
            assert(opt_text(output) == Some(texts[i + 1]));
            i += 2;
        } else if str_equal(flag, "--help") || str_equal(flag, "-h") {
            return usage_error();
        } else {
            let mut text = String::from_str("unknown argument `");
            text.append(flag);
            text.append("`");
            return Err(text);
        }
    }
    match (input, output) {
        (None, _) => text_error("missing --input"),
        (Some(_), None) => text_error("missing --output"),
        (Some(input), Some(output)) => Ok(CliArgs { command, input, output }),
    }
}

} // verus!
