//! The operation catalog: a fixed, closed set of named operations.
//!
//! Each operation carries its typed parameters; `apply` maps an
//! operation and the current argument list to what must happen next:
//! for the accumulating operations the extended list itself, for the
//! terminal operations the work the surrounding binary performs (a
//! process invocation or a model invocation).

use vstd::prelude::*;
use vstd::string::StringExecFns;
use crate::args::CaseSensitivity;
use crate::args::Enabled;
use crate::args::FileDisplayMode;
use crate::args::FileType;
use crate::args::Restriction;
use crate::args::SortBy;
use crate::args::SortOrdering;
use crate::errors::OpError;
use crate::accumulator::StepOutcome;
use crate::accumulator::str_eq;
use crate::accumulator::accumulates;
use crate::accumulator::case_filter;
use crate::accumulator::clone_string_vec;
use crate::accumulator::context_lines;
use crate::accumulator::count_tok;
use crate::accumulator::crlf;
use crate::accumulator::debug;
use crate::accumulator::dot_all;
use crate::accumulator::file_type_filter;
use crate::accumulator::files;
use crate::accumulator::fixed_strings;
use crate::accumulator::has_tok;
use crate::accumulator::include_zip;
use crate::accumulator::lemma_count_push;
use crate::accumulator::multiline;
use crate::accumulator::opt_toks;
use crate::accumulator::replace;
use crate::accumulator::restriction_level;
use crate::accumulator::search_invocation;
use crate::accumulator::sort_results_by;
use crate::accumulator::spec_case_filter;
use crate::accumulator::spec_context_lines;
use crate::accumulator::spec_crlf;
use crate::accumulator::spec_debug;
use crate::accumulator::spec_dot_all;
use crate::accumulator::spec_file_type_filter;
use crate::accumulator::spec_files;
use crate::accumulator::spec_fixed_strings;
use crate::accumulator::spec_include_zip;
use crate::accumulator::spec_multiline;
use crate::accumulator::spec_replace;
use crate::accumulator::spec_restriction_level;
use crate::accumulator::spec_search_invocation;
use crate::accumulator::spec_sort_results_by;
use crate::accumulator::spec_statistics;
use crate::accumulator::spec_threads;
use crate::accumulator::spec_trace_data;
use crate::accumulator::spec_treat_binary_as_text;
use crate::accumulator::spec_trim_whitespace;
use crate::accumulator::statistics;
use crate::accumulator::threads;
use crate::accumulator::toks;
use crate::accumulator::trace_data;
use crate::accumulator::treat_binary_as_text;
use crate::accumulator::trim_whitespace;

verus! {

/// The closed catalog of operations.  No dynamic registration exists:
/// a name outside this set is rejected.
#[derive(Clone, Debug)]
pub enum Commands {
    /// Sets case sensitivity.
    CaseFilter { case_sensitivity: CaseSensitivity },
    /// Sets how many of the lines of the surrounding context to display.
    ContextLines { lines_before: i32, lines_after: i32 },
    /// Sets whether to treat CRLF as a line terminator instead of just a
    /// line feed.
    CRLF { enabled: Enabled },
    /// Sets whether or not to show debug messages.
    Debug { enabled: Enabled },
    /// Sets whether or not regex patterns using a dot match newline
    /// characters.
    DotAll { enabled: Enabled },
    /// Sets display for files: included, with a match, or without match.
    Files { file_display_mode: FileDisplayMode },
    /// Sets whether to include or exclude a filetype.
    FileTypeFilter { enabled: Enabled, file_type: FileType },
    /// Treat the pattern as a literal string.
    FixedStrings { enabled: Enabled },
    /// Sets whether to include compressed files.
    IncludeZip { enabled: Enabled },
    /// Sets whether to enable multiline mode.
    Multiline { enabled: Enabled },
    /// Replace every match with the text given when printing results.
    Replace { replacement_text: String },
    /// Sets whether to search in ignored, hidden, and binary files.
    RestrictionLevel { restriction: Restriction },
    /// Sorts results by the given method.
    SortResultsBy { sort_by: SortBy, sort_ordering: SortOrdering },
    /// Sets whether statistics should be included or not.
    Statistics { enabled: Enabled },
    /// Sets the number of threads to use.
    Threads { thread_count: i32 },
    /// Sets whether or not to show trace data.
    TraceData { enabled: Enabled },
    /// Sets whether to treat binary files as if they were text.
    TreatBinaryAsText { enabled: Enabled },
    /// Sets whether to trim whitespace at the beginning and end of lines.
    TrimWhitespace { enabled: Enabled },
    /// Searches for a pattern: the terminal operation.
    Search { pattern: String },
    /// Processes a multi-step request: one prompt per sequential step,
    /// each step's outcome feeding the next step's prompt.
    CallMultiStep { prompt_list: Vec<String> },
    /// Hands a single prompt to the model collaborator.
    GPT { prompt: String },
}

/// What applying one operation asks of the caller.
pub enum Action {
    /// The operation appended its flags; the outcome carries the
    /// updated argument list.
    Accumulated(StepOutcome),
    /// Run the search executable with this full invocation and report
    /// its output; the argument list is not extended.
    RunSearch { invocation: Vec<String> },
    /// Drive the multi-step orchestration over these prompts.
    RunMultiStep { prompt_list: Vec<String> },
    /// Hand this single prompt to the model collaborator.
    RunModel { prompt: String },
}

/// Whether an operation extends the argument list (everything but the
/// three terminal operations).
pub open spec fn is_accumulating(cmd: Commands) -> bool {
    match cmd {
        Commands::Search { .. } => false,
        Commands::CallMultiStep { .. } => false,
        Commands::GPT { .. } => false,
        _ => true,
    }
}

/// The tokens after applying one accumulating operation.
pub open spec fn spec_apply(cmd: Commands, args: Seq<Seq<char>>) -> Seq<Seq<char>>
    recommends
        is_accumulating(cmd),
{
    match cmd {
        Commands::CaseFilter { case_sensitivity } => spec_case_filter(case_sensitivity, args),
        Commands::ContextLines { lines_before, lines_after } => spec_context_lines(
            lines_before as int,
            lines_after as int,
            args,
        ),
        Commands::CRLF { enabled } => spec_crlf(enabled, args),
        Commands::Debug { enabled } => spec_debug(enabled, args),
        Commands::DotAll { enabled } => spec_dot_all(enabled, args),
        Commands::Files { file_display_mode } => spec_files(file_display_mode, args),
        Commands::FileTypeFilter { enabled, file_type } => spec_file_type_filter(
            enabled,
            file_type,
            args,
        ),
        Commands::FixedStrings { enabled } => spec_fixed_strings(enabled, args),
        Commands::IncludeZip { enabled } => spec_include_zip(enabled, args),
        Commands::Multiline { enabled } => spec_multiline(enabled, args),
        Commands::Replace { replacement_text } => spec_replace(replacement_text@, args),
        Commands::RestrictionLevel { restriction } => spec_restriction_level(restriction, args),
        Commands::SortResultsBy { sort_by, sort_ordering } => spec_sort_results_by(
            sort_by,
            sort_ordering,
            args,
        ),
        Commands::Statistics { enabled } => spec_statistics(enabled, args),
        Commands::Threads { thread_count } => spec_threads(thread_count as int, args),
        Commands::TraceData { enabled } => spec_trace_data(enabled, args),
        Commands::TreatBinaryAsText { enabled } => spec_treat_binary_as_text(enabled, args),
        Commands::TrimWhitespace { enabled } => spec_trim_whitespace(enabled, args),
        Commands::Search { .. } => args,
        Commands::CallMultiStep { .. } => args,
        Commands::GPT { .. } => args,
    }
}

impl Commands {
    /// Applies one operation to the current argument list: the
    /// accumulating operations extend a copy of it, the terminal
    /// operations hand back the external work to perform.
    pub fn apply(&self, arguments: Option<Vec<String>>) -> (r: Action)
        ensures
            is_accumulating(*self) ==> (r matches Action::Accumulated(o) && accumulates(
                o,
                spec_apply(*self, opt_toks(arguments)),
            )),
            *self matches Commands::Search { pattern } ==> r matches Action::RunSearch {
                invocation,
            } && toks(invocation@) == spec_search_invocation(pattern@, opt_toks(arguments)),
            *self matches Commands::CallMultiStep { prompt_list }
                ==> r matches Action::RunMultiStep { prompt_list: p } && p@ == prompt_list@,
            *self matches Commands::GPT { prompt } ==> r matches Action::RunModel { prompt: p }
                && p@ == prompt@,
    {
        match self {
            Commands::CaseFilter { case_sensitivity } => Action::Accumulated(
                case_filter(arguments, case_sensitivity),
            ),
            Commands::ContextLines { lines_before, lines_after } => Action::Accumulated(
                context_lines(arguments, lines_before, lines_after),
            ),
            Commands::CRLF { enabled } => Action::Accumulated(crlf(arguments, enabled)),
            Commands::Debug { enabled } => Action::Accumulated(debug(arguments, enabled)),
            Commands::DotAll { enabled } => Action::Accumulated(dot_all(arguments, enabled)),
            Commands::Files { file_display_mode } => Action::Accumulated(
                files(arguments, file_display_mode),
            ),
            Commands::FileTypeFilter { enabled, file_type } => Action::Accumulated(
                file_type_filter(arguments, enabled, file_type),
            ),
            Commands::FixedStrings { enabled } => Action::Accumulated(
                fixed_strings(arguments, enabled),
            ),
            Commands::IncludeZip { enabled } => Action::Accumulated(
                include_zip(arguments, enabled),
            ),
            Commands::Multiline { enabled } => Action::Accumulated(multiline(arguments, enabled)),
            Commands::Replace { replacement_text } => Action::Accumulated(
                replace(arguments, replacement_text),
            ),
            Commands::RestrictionLevel { restriction } => Action::Accumulated(
                restriction_level(arguments, restriction),
            ),
            Commands::SortResultsBy { sort_by, sort_ordering } => Action::Accumulated(
                sort_results_by(arguments, sort_by, sort_ordering),
            ),
            Commands::Statistics { enabled } => Action::Accumulated(
                statistics(arguments, enabled),
            ),
            Commands::Threads { thread_count } => Action::Accumulated(
                threads(arguments, thread_count),
            ),
            Commands::TraceData { enabled } => Action::Accumulated(trace_data(arguments, enabled)),
            Commands::TreatBinaryAsText { enabled } => Action::Accumulated(
                treat_binary_as_text(arguments, enabled),
            ),
            Commands::TrimWhitespace { enabled } => Action::Accumulated(
                trim_whitespace(arguments, enabled),
            ),
            Commands::Search { pattern } => Action::RunSearch {
                invocation: search_invocation(pattern, arguments),
            },
            Commands::CallMultiStep { prompt_list } => Action::RunMultiStep {
                prompt_list: clone_string_vec(prompt_list),
            },
            Commands::GPT { prompt } => Action::RunModel { prompt: prompt.clone() },
        }
    }
}

/// Whether an operation is a boolean-style operation invoked in its
/// "enabled" form.
pub open spec fn is_enable_invocation(cmd: Commands) -> bool {
    match cmd {
        Commands::CRLF { enabled } => enabled is Yes,
        Commands::Debug { enabled } => enabled is Yes,
        Commands::DotAll { enabled } => enabled is Yes,
        Commands::FileTypeFilter { enabled, .. } => enabled is Yes,
        Commands::FixedStrings { enabled } => enabled is Yes,
        Commands::IncludeZip { enabled } => enabled is Yes,
        Commands::Multiline { enabled } => enabled is Yes,
        Commands::Statistics { enabled } => enabled is Yes,
        Commands::TraceData { enabled } => enabled is Yes,
        Commands::TreatBinaryAsText { enabled } => enabled is Yes,
        Commands::TrimWhitespace { enabled } => enabled is Yes,
        _ => false,
    }
}

/// The token a boolean-style operation appends when enabled.
pub open spec fn enable_tok(cmd: Commands) -> Seq<char> {
    match cmd {
        Commands::CRLF { .. } => "--crlf"@,
        Commands::Debug { .. } => "--debug"@,
        Commands::DotAll { .. } => "--multiline-dotall"@,
        Commands::FileTypeFilter { .. } => "--type"@,
        Commands::FixedStrings { .. } => "--fixed-strings"@,
        Commands::IncludeZip { .. } => "--search-zip"@,
        Commands::Multiline { .. } => "--multiline"@,
        Commands::Statistics { .. } => "--stats"@,
        Commands::TraceData { .. } => "--trace"@,
        Commands::TreatBinaryAsText { .. } => "--text"@,
        Commands::TrimWhitespace { .. } => "--trim"@,
        _ => Seq::empty(),
    }
}

/// The token a boolean-style operation appends when disabled; empty
/// where disabling emits nothing.
pub open spec fn disable_tok(cmd: Commands) -> Seq<char> {
    match cmd {
        Commands::CRLF { .. } => "--no-crlf"@,
        Commands::Debug { .. } => Seq::empty(),
        Commands::DotAll { .. } => "--no-multiline-dotall"@,
        Commands::FileTypeFilter { .. } => "--type-not"@,
        Commands::FixedStrings { .. } => "--no-fixed-strings"@,
        Commands::IncludeZip { .. } => "--no-search-zip"@,
        Commands::Multiline { .. } => "--no-multiline"@,
        Commands::Statistics { .. } => "--no-stats"@,
        Commands::TraceData { .. } => Seq::empty(),
        Commands::TreatBinaryAsText { .. } => "--no-text"@,
        Commands::TrimWhitespace { .. } => "--no-trim"@,
        _ => Seq::empty(),
    }
}

/// The token after a file-type flag names the type in lowercase: it
/// never reads as a flag itself.
proof fn lemma_file_type_value_not_flag(t: FileType)
    ensures
        t.spec_flag_value().len() > 0,
        t.spec_flag_value()[0] != '-',
{
    reveal_strlit("c");
    reveal_strlit("cpp");
    reveal_strlit("config");
    reveal_strlit("cs");
    reveal_strlit("go");
    reveal_strlit("java");
    reveal_strlit("js");
    reveal_strlit("json");
    reveal_strlit("jsonl");
    reveal_strlit("jupyter");
    reveal_strlit("license");
    reveal_strlit("log");
    reveal_strlit("lua");
    reveal_strlit("markdown");
    reveal_strlit("ocaml");
    reveal_strlit("org");
    reveal_strlit("pdf");
    reveal_strlit("py");
    reveal_strlit("rust");
    reveal_strlit("d");
    reveal_strlit("sh");
    reveal_strlit("sql");
    reveal_strlit("txt");
    reveal_strlit("toml");
    reveal_strlit("ts");
    reveal_strlit("xml");
    reveal_strlit("vim");
    reveal_strlit("yaml");
    reveal_strlit("zig");
}

/// Law: applying a boolean-style operation in its "enabled" form leaves
/// the resulting list with the documented enabled token exactly once
/// more than before, and never adds the documented disabled token.
pub proof fn lemma_boolean_enable_counts(cmd: Commands, args: Seq<Seq<char>>)
    requires
        is_enable_invocation(cmd),
    ensures
        count_tok(spec_apply(cmd, args), enable_tok(cmd)) == count_tok(args, enable_tok(cmd)) + 1,
        count_tok(spec_apply(cmd, args), disable_tok(cmd)) == count_tok(args, disable_tok(cmd)),
{
    reveal_strlit("--crlf");
    reveal_strlit("--no-crlf");
    reveal_strlit("--debug");
    reveal_strlit("--multiline-dotall");
    reveal_strlit("--no-multiline-dotall");
    reveal_strlit("--type");
    reveal_strlit("--type-not");
    reveal_strlit("--fixed-strings");
    reveal_strlit("--no-fixed-strings");
    reveal_strlit("--search-zip");
    reveal_strlit("--no-search-zip");
    reveal_strlit("--multiline");
    reveal_strlit("--no-multiline");
    reveal_strlit("--stats");
    reveal_strlit("--no-stats");
    reveal_strlit("--trace");
    reveal_strlit("--text");
    reveal_strlit("--no-text");
    reveal_strlit("--trim");
    reveal_strlit("--no-trim");
    let e = enable_tok(cmd);
    let d = disable_tok(cmd);
    match cmd {
        Commands::DotAll { .. } => {
            let mult = "--multiline"@;
            assert(e.len() != mult.len() && e.len() != d.len() && mult.len() != d.len());
            if has_tok(args, mult) {
                lemma_count_push(args, e, e);
                lemma_count_push(args, d, e);
            } else {
                lemma_count_push(args, e, mult);
                lemma_count_push(args.push(mult), e, e);
                lemma_count_push(args, d, mult);
                lemma_count_push(args.push(mult), d, e);
            }
        },
        Commands::FileTypeFilter { file_type, .. } => {
            lemma_file_type_value_not_flag(file_type);
            let v = file_type.spec_flag_value();
            assert(e.len() != d.len() && e[0] == '-' && d[0] == '-');
            lemma_count_push(args, e, e);
            lemma_count_push(args.push(e), e, v);
            lemma_count_push(args, d, e);
            lemma_count_push(args.push(e), d, v);
        },
        Commands::CRLF { .. } => {
            assert(e.len() != d.len());
            lemma_count_push(args, e, e);
            lemma_count_push(args, d, e);
        },
        Commands::Debug { .. } => {
            assert(e.len() != d.len());
            lemma_count_push(args, e, e);
            lemma_count_push(args, d, e);
        },
        Commands::FixedStrings { .. } => {
            assert(e.len() != d.len());
            lemma_count_push(args, e, e);
            lemma_count_push(args, d, e);
        },
        Commands::IncludeZip { .. } => {
            assert(e.len() != d.len());
            lemma_count_push(args, e, e);
            lemma_count_push(args, d, e);
        },
        Commands::Multiline { .. } => {
            assert(e.len() != d.len());
            lemma_count_push(args, e, e);
            lemma_count_push(args, d, e);
        },
        Commands::Statistics { .. } => {
            assert(e.len() != d.len());
            lemma_count_push(args, e, e);
            lemma_count_push(args, d, e);
        },
        Commands::TraceData { .. } => {
            assert(e.len() != d.len());
            lemma_count_push(args, e, e);
            lemma_count_push(args, d, e);
        },
        Commands::TreatBinaryAsText { .. } => {
            assert(e.len() != d.len());
            lemma_count_push(args, e, e);
            lemma_count_push(args, d, e);
        },
        Commands::TrimWhitespace { .. } => {
            assert(e.len() != d.len());
            lemma_count_push(args, e, e);
            lemma_count_push(args, d, e);
        },
        _ => {
            lemma_count_push(args, e, e);
            lemma_count_push(args, d, e);
        },
    }
}

/// Law: an accumulating operation only appends.  The incoming argument
/// list survives as an unchanged prefix of the outgoing one, so flags
/// set by earlier operations are never reordered or dropped.
pub proof fn lemma_apply_appends(cmd: Commands, args: Seq<Seq<char>>)
    requires
        is_accumulating(cmd),
    ensures
        args.len() <= spec_apply(cmd, args).len(),
        spec_apply(cmd, args).take(args.len() as int) == args,
{
    assert(spec_apply(cmd, args).take(args.len() as int) =~= args);
}

/// The kind of one positional parameter in an operation's schema.
#[derive(Clone, Copy, Debug, PartialEq, Eq, Structural)]
pub enum ParamKind {
    CaseSensitivityParam,
    EnabledParam,
    FileDisplayModeParam,
    FileTypeParam,
    RestrictionParam,
    SortByParam,
    SortOrderingParam,
    IntParam,
    TextParam,
    TextListParam,
}

/// One catalog entry: the operation's name, a human-readable
/// description for the selection layer, and the parameter schema in
/// positional order.
pub struct OperationDescriptor {
    pub name: String,
    pub description: String,
    pub params: Vec<ParamKind>,
}

impl Commands {
    /// The unique catalog name of this operation.
    pub open spec fn spec_name(self) -> Seq<char> {
        match self {
            Commands::CaseFilter { .. } => "CaseFilter"@,
            Commands::ContextLines { .. } => "ContextLines"@,
            Commands::CRLF { .. } => "CRLF"@,
            Commands::Debug { .. } => "Debug"@,
            Commands::DotAll { .. } => "DotAll"@,
            Commands::Files { .. } => "Files"@,
            Commands::FileTypeFilter { .. } => "FileTypeFilter"@,
            Commands::FixedStrings { .. } => "FixedStrings"@,
            Commands::IncludeZip { .. } => "IncludeZip"@,
            Commands::Multiline { .. } => "Multiline"@,
            Commands::Replace { .. } => "Replace"@,
            Commands::RestrictionLevel { .. } => "RestrictionLevel"@,
            Commands::SortResultsBy { .. } => "SortResultsBy"@,
            Commands::Statistics { .. } => "Statistics"@,
            Commands::Threads { .. } => "Threads"@,
            Commands::TraceData { .. } => "TraceData"@,
            Commands::TreatBinaryAsText { .. } => "TreatBinaryAsText"@,
            Commands::TrimWhitespace { .. } => "TrimWhitespace"@,
            Commands::Search { .. } => "Search"@,
            Commands::CallMultiStep { .. } => "CallMultiStep"@,
            Commands::GPT { .. } => "GPT"@,
        }
    }

    pub fn name(&self) -> (r: String)
        ensures
            r@ == self.spec_name(),
    {
        match *self {
            Commands::CaseFilter { .. } => String::from_str("CaseFilter"),
            Commands::ContextLines { .. } => String::from_str("ContextLines"),
            Commands::CRLF { .. } => String::from_str("CRLF"),
            Commands::Debug { .. } => String::from_str("Debug"),
            Commands::DotAll { .. } => String::from_str("DotAll"),
            Commands::Files { .. } => String::from_str("Files"),
            Commands::FileTypeFilter { .. } => String::from_str("FileTypeFilter"),
            Commands::FixedStrings { .. } => String::from_str("FixedStrings"),
            Commands::IncludeZip { .. } => String::from_str("IncludeZip"),
            Commands::Multiline { .. } => String::from_str("Multiline"),
            Commands::Replace { .. } => String::from_str("Replace"),
            Commands::RestrictionLevel { .. } => String::from_str("RestrictionLevel"),
            Commands::SortResultsBy { .. } => String::from_str("SortResultsBy"),
            Commands::Statistics { .. } => String::from_str("Statistics"),
            Commands::Threads { .. } => String::from_str("Threads"),
            Commands::TraceData { .. } => String::from_str("TraceData"),
            Commands::TreatBinaryAsText { .. } => String::from_str("TreatBinaryAsText"),
            Commands::TrimWhitespace { .. } => String::from_str("TrimWhitespace"),
            Commands::Search { .. } => String::from_str("Search"),
            Commands::CallMultiStep { .. } => String::from_str("CallMultiStep"),
            Commands::GPT { .. } => String::from_str("GPT"),
        }
    }
}

/// Whether a name denotes an operation of the closed catalog.
pub open spec fn is_op_name(n: Seq<char>) -> bool {
    ||| n == "CaseFilter"@
    ||| n == "ContextLines"@
    ||| n == "CRLF"@
    ||| n == "Debug"@
    ||| n == "DotAll"@
    ||| n == "Files"@
    ||| n == "FileTypeFilter"@
    ||| n == "FixedStrings"@
    ||| n == "IncludeZip"@
    ||| n == "Multiline"@
    ||| n == "Replace"@
    ||| n == "RestrictionLevel"@
    ||| n == "SortResultsBy"@
    ||| n == "Statistics"@
    ||| n == "Threads"@
    ||| n == "TraceData"@
    ||| n == "TreatBinaryAsText"@
    ||| n == "TrimWhitespace"@
    ||| n == "Search"@
    ||| n == "CallMultiStep"@
    ||| n == "GPT"@
}

/// Every operation's name is in the closed set `is_op_name` describes.
pub proof fn lemma_catalog_closed(cmd: Commands)
    ensures
        is_op_name(cmd.spec_name()),
{
}

/// The parameter schema of the operation with the given name; empty
/// for a name outside the catalog.
pub open spec fn spec_schema(n: Seq<char>) -> Seq<ParamKind> {
    if n == "CaseFilter"@ {
        seq![ParamKind::CaseSensitivityParam]
    } else if n == "ContextLines"@ {
        seq![ParamKind::IntParam, ParamKind::IntParam]
    } else if n == "CRLF"@ {
        seq![ParamKind::EnabledParam]
    } else if n == "Debug"@ {
        seq![ParamKind::EnabledParam]
    } else if n == "DotAll"@ {
        seq![ParamKind::EnabledParam]
    } else if n == "Files"@ {
        seq![ParamKind::FileDisplayModeParam]
    } else if n == "FileTypeFilter"@ {
        seq![ParamKind::EnabledParam, ParamKind::FileTypeParam]
    } else if n == "FixedStrings"@ {
        seq![ParamKind::EnabledParam]
    } else if n == "IncludeZip"@ {
        seq![ParamKind::EnabledParam]
    } else if n == "Multiline"@ {
        seq![ParamKind::EnabledParam]
    } else if n == "Replace"@ {
        seq![ParamKind::TextParam]
    } else if n == "RestrictionLevel"@ {
        seq![ParamKind::RestrictionParam]
    } else if n == "SortResultsBy"@ {
        seq![ParamKind::SortByParam, ParamKind::SortOrderingParam]
    } else if n == "Statistics"@ {
        seq![ParamKind::EnabledParam]
    } else if n == "Threads"@ {
        seq![ParamKind::IntParam]
    } else if n == "TraceData"@ {
        seq![ParamKind::EnabledParam]
    } else if n == "TreatBinaryAsText"@ {
        seq![ParamKind::EnabledParam]
    } else if n == "TrimWhitespace"@ {
        seq![ParamKind::EnabledParam]
    } else if n == "Search"@ {
        seq![ParamKind::TextParam]
    } else if n == "CallMultiStep"@ {
        seq![ParamKind::TextListParam]
    } else if n == "GPT"@ {
        seq![ParamKind::TextParam]
    } else {
        Seq::empty()
    }
}

/// The description of the operation with the given name; empty for a
/// name outside the catalog.
pub open spec fn spec_description(n: Seq<char>) -> Seq<char> {
    if n == "CaseFilter"@ {
        "Sets case sensitivity"@
    } else if n == "ContextLines"@ {
        "Sets how many of the lines of the surrounding context to display"@
    } else if n == "CRLF"@ {
        "Sets whether to treat CRLF as a line terminator instead of just a line feed"@
    } else if n == "Debug"@ {
        "Sets whether or not to show debug messages"@
    } else if n == "DotAll"@ {
        "Sets whether or not regex patterns using a dot match newline characters"@
    } else if n == "Files"@ {
        "Sets display for files: included, with a match, or without match"@
    } else if n == "FileTypeFilter"@ {
        "Sets whether to include or exclude a filetype"@
    } else if n == "FixedStrings"@ {
        "Treat the pattern as a literal string"@
    } else if n == "IncludeZip"@ {
        "Sets whether to include compressed files"@
    } else if n == "Multiline"@ {
        "Sets whether to enable multiline mode"@
    } else if n == "Replace"@ {
        "Replace every match with the text given when printing results"@
    } else if n == "RestrictionLevel"@ {
        "Sets whether to search in ignored, hidden, and binary files"@
    } else if n == "SortResultsBy"@ {
        "Sorts results by the given method"@
    } else if n == "Statistics"@ {
        "Sets whether statistics should be included or not"@
    } else if n == "Threads"@ {
        "Sets the number of threads to use"@
    } else if n == "TraceData"@ {
        "Sets whether or not to show trace data"@
    } else if n == "TreatBinaryAsText"@ {
        "Sets whether to treat binary files as if they were text"@
    } else if n == "TrimWhitespace"@ {
        "Sets whether to trim whitespace at the beginning and end of lines"@
    } else if n == "Search"@ {
        "Searches for a pattern"@
    } else if n == "CallMultiStep"@ {
        "Processes a multi-step request: one prompt per sequential step, each step's outcome feeding the next step's prompt"@
    } else if n == "GPT"@ {
        "Hands a single prompt to the model collaborator"@
    } else {
        Seq::empty()
    }
}

/// Looks one operation up by name.  The catalog is exhaustive and
/// closed: a name outside it is rejected as unknown.
pub fn describe(name: &String) -> (r: Result<OperationDescriptor, OpError>)
    ensures
        r is Ok <==> is_op_name(name@),
        r matches Ok(d) ==> d.name@ == name@ && d.description@ == spec_description(name@)
            && d.params@ == spec_schema(name@),
        r matches Err(e) ==> e == OpError::UnknownOperation,
{
    if str_eq(name.as_str(), "CaseFilter") {
        let mut p: Vec<ParamKind> = Vec::new();
        p.push(ParamKind::CaseSensitivityParam);
        proof {
            assert(p@ =~= spec_schema(name@));
        }
        Ok(OperationDescriptor {
            name: String::from_str("CaseFilter"),
            description: String::from_str("Sets case sensitivity"),
            params: p,
        })
    } else if str_eq(name.as_str(), "ContextLines") {
        let mut p: Vec<ParamKind> = Vec::new();
        p.push(ParamKind::IntParam);
        p.push(ParamKind::IntParam);
        proof {
            assert(p@ =~= spec_schema(name@));
        }
        Ok(OperationDescriptor {
            name: String::from_str("ContextLines"),
            description: String::from_str("Sets how many of the lines of the surrounding context to display"),
            params: p,
        })
    } else if str_eq(name.as_str(), "CRLF") {
        let mut p: Vec<ParamKind> = Vec::new();
        p.push(ParamKind::EnabledParam);
        proof {
            assert(p@ =~= spec_schema(name@));
        }
        Ok(OperationDescriptor {
            name: String::from_str("CRLF"),
            description: String::from_str("Sets whether to treat CRLF as a line terminator instead of just a line feed"),
            params: p,
        })
    } else if str_eq(name.as_str(), "Debug") {
        let mut p: Vec<ParamKind> = Vec::new();
        p.push(ParamKind::EnabledParam);
        proof {
            assert(p@ =~= spec_schema(name@));
        }
        Ok(OperationDescriptor {
            name: String::from_str("Debug"),
            description: String::from_str("Sets whether or not to show debug messages"),
            params: p,
        })
    } else if str_eq(name.as_str(), "DotAll") {
        let mut p: Vec<ParamKind> = Vec::new();
        p.push(ParamKind::EnabledParam);
        proof {
            assert(p@ =~= spec_schema(name@));
        }
        Ok(OperationDescriptor {
            name: String::from_str("DotAll"),
            description: String::from_str("Sets whether or not regex patterns using a dot match newline characters"),
            params: p,
        })
    } else if str_eq(name.as_str(), "Files") {
        let mut p: Vec<ParamKind> = Vec::new();
        p.push(ParamKind::FileDisplayModeParam);
        proof {
            assert(p@ =~= spec_schema(name@));
        }
        Ok(OperationDescriptor {
            name: String::from_str("Files"),
            description: String::from_str("Sets display for files: included, with a match, or without match"),
            params: p,
        })
    } else if str_eq(name.as_str(), "FileTypeFilter") {
        let mut p: Vec<ParamKind> = Vec::new();
        p.push(ParamKind::EnabledParam);
        p.push(ParamKind::FileTypeParam);
        proof {
            assert(p@ =~= spec_schema(name@));
        }
        Ok(OperationDescriptor {
            name: String::from_str("FileTypeFilter"),
            description: String::from_str("Sets whether to include or exclude a filetype"),
            params: p,
        })
    } else if str_eq(name.as_str(), "FixedStrings") {
        let mut p: Vec<ParamKind> = Vec::new();
        p.push(ParamKind::EnabledParam);
        proof {
            assert(p@ =~= spec_schema(name@));
        }
        Ok(OperationDescriptor {
            name: String::from_str("FixedStrings"),
            description: String::from_str("Treat the pattern as a literal string"),
            params: p,
        })
    } else if str_eq(name.as_str(), "IncludeZip") {
        let mut p: Vec<ParamKind> = Vec::new();
        p.push(ParamKind::EnabledParam);
        proof {
            assert(p@ =~= spec_schema(name@));
        }
        Ok(OperationDescriptor {
            name: String::from_str("IncludeZip"),
            description: String::from_str("Sets whether to include compressed files"),
            params: p,
        })
    } else if str_eq(name.as_str(), "Multiline") {
        let mut p: Vec<ParamKind> = Vec::new();
        p.push(ParamKind::EnabledParam);
        proof {
            assert(p@ =~= spec_schema(name@));
        }
        Ok(OperationDescriptor {
            name: String::from_str("Multiline"),
            description: String::from_str("Sets whether to enable multiline mode"),
            params: p,
        })
    } else if str_eq(name.as_str(), "Replace") {
        let mut p: Vec<ParamKind> = Vec::new();
        p.push(ParamKind::TextParam);
        proof {
            assert(p@ =~= spec_schema(name@));
        }
        Ok(OperationDescriptor {
            name: String::from_str("Replace"),
            description: String::from_str("Replace every match with the text given when printing results"),
            params: p,
        })
    } else if str_eq(name.as_str(), "RestrictionLevel") {
        let mut p: Vec<ParamKind> = Vec::new();
        p.push(ParamKind::RestrictionParam);
        proof {
            assert(p@ =~= spec_schema(name@));
        }
        Ok(OperationDescriptor {
            name: String::from_str("RestrictionLevel"),
            description: String::from_str("Sets whether to search in ignored, hidden, and binary files"),
            params: p,
        })
    } else if str_eq(name.as_str(), "SortResultsBy") {
        let mut p: Vec<ParamKind> = Vec::new();
        p.push(ParamKind::SortByParam);
        p.push(ParamKind::SortOrderingParam);
        proof {
            assert(p@ =~= spec_schema(name@));
        }
        Ok(OperationDescriptor {
            name: String::from_str("SortResultsBy"),
            description: String::from_str("Sorts results by the given method"),
            params: p,
        })
    } else if str_eq(name.as_str(), "Statistics") {
        let mut p: Vec<ParamKind> = Vec::new();
        p.push(ParamKind::EnabledParam);
        proof {
            assert(p@ =~= spec_schema(name@));
        }
        Ok(OperationDescriptor {
            name: String::from_str("Statistics"),
            description: String::from_str("Sets whether statistics should be included or not"),
            params: p,
        })
    } else if str_eq(name.as_str(), "Threads") {
        let mut p: Vec<ParamKind> = Vec::new();
        p.push(ParamKind::IntParam);
        proof {
            assert(p@ =~= spec_schema(name@));
        }
        Ok(OperationDescriptor {
            name: String::from_str("Threads"),
            description: String::from_str("Sets the number of threads to use"),
            params: p,
        })
    } else if str_eq(name.as_str(), "TraceData") {
        let mut p: Vec<ParamKind> = Vec::new();
        p.push(ParamKind::EnabledParam);
        proof {
            assert(p@ =~= spec_schema(name@));
        }
        Ok(OperationDescriptor {
            name: String::from_str("TraceData"),
            description: String::from_str("Sets whether or not to show trace data"),
            params: p,
        })
    } else if str_eq(name.as_str(), "TreatBinaryAsText") {
        let mut p: Vec<ParamKind> = Vec::new();
        p.push(ParamKind::EnabledParam);
        proof {
            assert(p@ =~= spec_schema(name@));
        }
        Ok(OperationDescriptor {
            name: String::from_str("TreatBinaryAsText"),
            description: String::from_str("Sets whether to treat binary files as if they were text"),
            params: p,
        })
    } else if str_eq(name.as_str(), "TrimWhitespace") {
        let mut p: Vec<ParamKind> = Vec::new();
        p.push(ParamKind::EnabledParam);
        proof {
            assert(p@ =~= spec_schema(name@));
        }
        Ok(OperationDescriptor {
            name: String::from_str("TrimWhitespace"),
            description: String::from_str("Sets whether to trim whitespace at the beginning and end of lines"),
            params: p,
        })
    } else if str_eq(name.as_str(), "Search") {
        let mut p: Vec<ParamKind> = Vec::new();
        p.push(ParamKind::TextParam);
        proof {
            assert(p@ =~= spec_schema(name@));
        }
        Ok(OperationDescriptor {
            name: String::from_str("Search"),
            description: String::from_str("Searches for a pattern"),
            params: p,
        })
    } else if str_eq(name.as_str(), "CallMultiStep") {
        let mut p: Vec<ParamKind> = Vec::new();
        p.push(ParamKind::TextListParam);
        proof {
            assert(p@ =~= spec_schema(name@));
        }
        Ok(OperationDescriptor {
            name: String::from_str("CallMultiStep"),
            description: String::from_str("Processes a multi-step request: one prompt per sequential step, each step's outcome feeding the next step's prompt"),
            params: p,
        })
    } else if str_eq(name.as_str(), "GPT") {
        let mut p: Vec<ParamKind> = Vec::new();
        p.push(ParamKind::TextParam);
        proof {
            assert(p@ =~= spec_schema(name@));
        }
        Ok(OperationDescriptor {
            name: String::from_str("GPT"),
            description: String::from_str("Hands a single prompt to the model collaborator"),
            params: p,
        })
    } else {
        Err(OpError::UnknownOperation)
    }
}

} // verus!
