use dripgrep::accumulator::StepOutcome;
use dripgrep::accumulator::case_filter;
use dripgrep::accumulator::context_lines;
use dripgrep::accumulator::crlf;
use dripgrep::accumulator::debug;
use dripgrep::accumulator::dot_all;
use dripgrep::accumulator::file_type_filter;
use dripgrep::accumulator::files;
use dripgrep::accumulator::fixed_strings;
use dripgrep::accumulator::include_zip;
use dripgrep::accumulator::multiline;
use dripgrep::accumulator::replace;
use dripgrep::accumulator::restriction_level;
use dripgrep::accumulator::search_invocation;
use dripgrep::accumulator::search_outcome;
use dripgrep::accumulator::sort_results_by;
use dripgrep::accumulator::statistics;
use dripgrep::accumulator::threads;
use dripgrep::accumulator::trace_data;
use dripgrep::accumulator::treat_binary_as_text;
use dripgrep::accumulator::trim_whitespace;
use dripgrep::args::CaseSensitivity;
use dripgrep::args::Enabled;
use dripgrep::args::FileDisplayMode;
use dripgrep::args::FileType;
use dripgrep::args::Restriction;
use dripgrep::args::SortBy;
use dripgrep::args::SortOrdering;

fn unwrap_args(outcome: StepOutcome) -> Vec<String> {
    assert_eq!(outcome.message.as_deref(), Some("Ok."));
    outcome.updated_args.expect("an accumulating operation returns an updated list")
}

fn strs(v: &[&str]) -> Vec<String> {
    v.iter().map(|s| s.to_string()).collect()
}

#[test]
fn case_filter_appends_one_flag_per_setting() {
    let out = unwrap_args(case_filter(None, &CaseSensitivity::IgnoreCase));
    assert_eq!(out, strs(&["--ignore-case"]));
    let out = unwrap_args(case_filter(Some(out), &CaseSensitivity::CaseSensitive));
    assert_eq!(out, strs(&["--ignore-case", "--case-sensitive"]));
    let out = unwrap_args(case_filter(None, &CaseSensitivity::SmartCase));
    assert_eq!(out, strs(&["--smart-case"]));
}

#[test]
fn boolean_ops_enabled_and_disabled_tokens() {
    assert_eq!(unwrap_args(crlf(None, &Enabled::Yes)), strs(&["--crlf"]));
    assert_eq!(unwrap_args(crlf(None, &Enabled::No)), strs(&["--no-crlf"]));
    assert_eq!(unwrap_args(fixed_strings(None, &Enabled::Yes)), strs(&["--fixed-strings"]));
    assert_eq!(unwrap_args(fixed_strings(None, &Enabled::No)), strs(&["--no-fixed-strings"]));
    assert_eq!(unwrap_args(multiline(None, &Enabled::Yes)), strs(&["--multiline"]));
    assert_eq!(unwrap_args(multiline(None, &Enabled::No)), strs(&["--no-multiline"]));
    assert_eq!(unwrap_args(include_zip(None, &Enabled::Yes)), strs(&["--search-zip"]));
    assert_eq!(unwrap_args(include_zip(None, &Enabled::No)), strs(&["--no-search-zip"]));
    assert_eq!(unwrap_args(statistics(None, &Enabled::Yes)), strs(&["--stats"]));
    assert_eq!(unwrap_args(statistics(None, &Enabled::No)), strs(&["--no-stats"]));
    assert_eq!(unwrap_args(treat_binary_as_text(None, &Enabled::Yes)), strs(&["--text"]));
    assert_eq!(unwrap_args(treat_binary_as_text(None, &Enabled::No)), strs(&["--no-text"]));
    assert_eq!(unwrap_args(trim_whitespace(None, &Enabled::Yes)), strs(&["--trim"]));
    assert_eq!(unwrap_args(trim_whitespace(None, &Enabled::No)), strs(&["--no-trim"]));
}

#[test]
fn debug_and_trace_emit_nothing_when_disabled() {
    assert_eq!(unwrap_args(debug(None, &Enabled::Yes)), strs(&["--debug"]));
    assert_eq!(unwrap_args(debug(Some(strs(&["-u"])), &Enabled::No)), strs(&["-u"]));
    assert_eq!(unwrap_args(trace_data(None, &Enabled::Yes)), strs(&["--trace"]));
    assert_eq!(unwrap_args(trace_data(Some(strs(&["-u"])), &Enabled::No)), strs(&["-u"]));
}

#[test]
fn boolean_enable_adds_token_once_and_never_the_disabled_one() {
    let before = strs(&["--crlf", "--stats"]);
    let out = unwrap_args(crlf(Some(before.clone()), &Enabled::Yes));
    let count = |v: &Vec<String>, t: &str| v.iter().filter(|s| s.as_str() == t).count();
    assert_eq!(count(&out, "--crlf"), count(&before, "--crlf") + 1);
    assert_eq!(count(&out, "--no-crlf"), count(&before, "--no-crlf"));
}

#[test]
fn dot_all_inserts_multiline_prerequisite_once() {
    let out = unwrap_args(dot_all(None, &Enabled::Yes));
    assert_eq!(out, strs(&["--multiline", "--multiline-dotall"]));

    let already = strs(&["--multiline"]);
    let out = unwrap_args(dot_all(Some(already), &Enabled::Yes));
    assert_eq!(out, strs(&["--multiline", "--multiline-dotall"]));

    let other = strs(&["--crlf"]);
    let out = unwrap_args(dot_all(Some(other), &Enabled::Yes));
    assert_eq!(out, strs(&["--crlf", "--multiline", "--multiline-dotall"]));

    let out = unwrap_args(dot_all(None, &Enabled::No));
    assert_eq!(out, strs(&["--no-multiline-dotall"]));
}

#[test]
fn context_lines_appends_both_flag_pairs() {
    let out = unwrap_args(context_lines(None, &2, &3));
    assert_eq!(out, strs(&["--before_context", "2", "--after-context", "3"]));
    let out = unwrap_args(context_lines(None, &-1, &0));
    assert_eq!(out, strs(&["--before_context", "-1", "--after-context", "0"]));
}

#[test]
fn threads_zero_leaves_list_unchanged_and_four_appends_two_tokens() {
    let before = strs(&["--crlf"]);
    let out = unwrap_args(threads(Some(before.clone()), &0));
    assert_eq!(out, before);
    let out = unwrap_args(threads(Some(before), &4));
    assert_eq!(out, strs(&["--crlf", "--threads", "4"]));
    let out = unwrap_args(threads(None, &12));
    assert_eq!(out, strs(&["--threads", "12"]));
}

#[test]
fn replace_appends_flag_and_quoted_text() {
    let out = unwrap_args(replace(None, &String::from("foo")));
    assert_eq!(out, strs(&["--replace", "\"foo\""]));
    let out = unwrap_args(replace(None, &String::from("")));
    assert_eq!(out, strs(&["--replace", "\"\""]));
}

#[test]
fn restriction_default_emits_nothing() {
    let out = unwrap_args(restriction_level(None, &Restriction::Default));
    assert_eq!(out, Vec::<String>::new());
    assert_eq!(unwrap_args(restriction_level(None, &Restriction::IncludeIgnored)), strs(&["-u"]));
    assert_eq!(
        unwrap_args(restriction_level(None, &Restriction::IncludeIgnoredHidden)),
        strs(&["-uu"])
    );
    assert_eq!(
        unwrap_args(restriction_level(None, &Restriction::IncludeIgnoredHiddenBinary)),
        strs(&["-uuu"])
    );
}

#[test]
fn sort_appends_direction_then_field_token() {
    let out = unwrap_args(sort_results_by(None, &SortBy::Modified, &SortOrdering::Ascending));
    assert_eq!(out, strs(&["--sort", "modified"]));
    let out = unwrap_args(sort_results_by(None, &SortBy::Unsorted, &SortOrdering::Descending));
    assert_eq!(out, strs(&["--sortr", "none"]));
}

#[test]
fn files_included_takes_flag_and_directory_marker() {
    assert_eq!(
        unwrap_args(files(None, &FileDisplayMode::FilesIncluded)),
        strs(&["--files", "."])
    );
    assert_eq!(
        unwrap_args(files(None, &FileDisplayMode::FilesWithMatch)),
        strs(&["--files-with-matches"])
    );
    assert_eq!(
        unwrap_args(files(None, &FileDisplayMode::FilesWithoutMatch)),
        strs(&["--files-without-match"])
    );
}

#[test]
fn file_type_filter_includes_and_excludes() {
    let out = unwrap_args(file_type_filter(None, &Enabled::Yes, &FileType::Markdown));
    assert_eq!(out, strs(&["--type", "markdown"]));
    let out = unwrap_args(file_type_filter(None, &Enabled::No, &FileType::CSharp));
    assert_eq!(out, strs(&["--type-not", "cs"]));
}

#[test]
fn flag_values_name_the_executable_tokens() {
    assert_eq!(FileType::Python.flag_value(), "py");
    assert_eq!(FileType::RustBuildDependency.flag_value(), "d");
    assert_eq!(FileType::Zig.flag_value(), "zig");
    assert_eq!(SortBy::Accessed.flag_value(), "accessed");
    assert_eq!(SortBy::Unsorted.flag_value(), "none");
}

#[test]
fn search_invocation_puts_pattern_and_presentation_flag_first() {
    let inv = search_invocation(&String::from("fast"), Some(strs(&["--type", "markdown"])));
    assert_eq!(inv, strs(&["fast", "--pretty", "--type", "markdown"]));
    let inv = search_invocation(&String::from("x"), None);
    assert_eq!(inv, strs(&["x", "--pretty"]));
}

#[test]
fn search_outcome_never_updates_the_list() {
    let o = search_outcome();
    assert_eq!(o.message.as_deref(), Some("Ok."));
    assert!(o.updated_args.is_none());
}
