//! The argument accumulator.
//!
//! Each operation of the catalog maps its typed parameters to flag
//! tokens and appends them to a copy of the current argument list.  The
//! functions here are pure with respect to their inputs: every call
//! either appends tokens or, for the terminal search operation, builds
//! the full invocation for the process collaborator.  Duplicate flags
//! are tolerated and kept, with a single exception: enabling dot-all
//! first ensures the multiline flag is present exactly once.
//!
//! Contracts speak of an argument list through its token view `toks`,
//! the sequence of each flag's characters.

use vstd::prelude::*;
use vstd::string::StringExecFns;
use crate::args::CaseSensitivity;
use crate::args::Enabled;
use crate::args::FileDisplayMode;
use crate::args::FileType;
use crate::args::Restriction;
use crate::args::SortBy;
use crate::args::SortOrdering;

verus! {

/// The token view of an argument list: each flag as its characters.
pub open spec fn toks(args: Seq<String>) -> Seq<Seq<char>> {
    args.map_values(|s: String| s@)
}

/// The token view of an optional argument list; absence stands for the
/// empty list.
pub open spec fn opt_toks(args: Option<Vec<String>>) -> Seq<Seq<char>> {
    match args {
        Some(v) => toks(v@),
        None => Seq::empty(),
    }
}

/// Whether a token occurs in a token sequence.
pub open spec fn has_tok(s: Seq<Seq<char>>, t: Seq<char>) -> bool {
    exists|i: int| 0 <= i < s.len() && s[i] == t
}

/// How often a token occurs in a token sequence.
pub open spec fn count_tok(s: Seq<Seq<char>>, t: Seq<char>) -> nat
    decreases s.len(),
{
    if s.len() == 0 {
        0
    } else {
        count_tok(s.drop_last(), t) + (if s.last() == t {
            1nat
        } else {
            0nat
        })
    }
}

/// Appending one token raises its own count by one and no other count.
pub proof fn lemma_count_push(s: Seq<Seq<char>>, t: Seq<char>, x: Seq<char>)
    ensures
        count_tok(s.push(x), t) == count_tok(s, t) + (if x == t {
            1nat
        } else {
            0nat
        }),
{
    assert(s.push(x).drop_last() =~= s);
    assert(s.push(x).last() == x);
}

/// A token has count zero exactly when it does not occur.
pub proof fn lemma_count_zero(s: Seq<Seq<char>>, t: Seq<char>)
    ensures
        (count_tok(s, t) == 0) <==> !has_tok(s, t),
    decreases s.len(),
{
    if s.len() == 0 {
    } else {
        lemma_count_zero(s.drop_last(), t);
        assert(forall|i: int| 0 <= i < s.len() - 1 ==> s.drop_last()[i] == s[i]);
        if has_tok(s, t) && s.last() != t {
            let i = choose|i: int| 0 <= i < s.len() && s[i] == t;
            assert(s.drop_last()[i] == t);
        }
        if has_tok(s.drop_last(), t) {
            let i = choose|i: int| 0 <= i < s.drop_last().len() && s.drop_last()[i] == t;
            assert(s[i] == t);
        }
    }
}

/// The token view distributes over appending one flag.
pub proof fn lemma_toks_push(args: Seq<String>, s: String)
    ensures
        toks(args.push(s)) == toks(args).push(s@),
{
    assert(toks(args.push(s)) =~= toks(args).push(s@));
}

/// The token view distributes over concatenation.
pub proof fn lemma_toks_concat(a: Seq<String>, b: Seq<String>)
    ensures
        toks(a + b) == toks(a) + toks(b),
{
    assert(toks(a + b) =~= toks(a) + toks(b));
}

/// What one operation application reports: an optional status message
/// and an optional updated argument list.  Terminal operations leave
/// the updated list absent.
pub struct StepOutcome {
    pub message: Option<String>,
    pub updated_args: Option<Vec<String>>,
}

/// The outcome shape shared by every accumulating operation: an "Ok."
/// status and an updated argument list holding exactly these tokens.
pub open spec fn accumulates(r: StepOutcome, out: Seq<Seq<char>>) -> bool {
    &&& r.message is Some
    &&& r.message->0@ == "Ok."@
    &&& r.updated_args is Some
    &&& toks(r.updated_args->0@) == out
}

/// The outcome shape of a terminal operation: a status message and no
/// updated argument list.
pub open spec fn terminal_outcome(r: StepOutcome, message: Seq<char>) -> bool {
    &&& r.message is Some
    &&& r.message->0@ == message
    &&& r.updated_args is None
}

/// Turns the optional incoming list into the owned copy an operation
/// extends.
fn take_args(arguments: Option<Vec<String>>) -> (r: Vec<String>)
    ensures
        toks(r@) == opt_toks(arguments),
{
    match arguments {
        Some(v) => v,
        None => {
            let v: Vec<String> = Vec::new();
            proof {
                assert(toks(v@) =~= Seq::<Seq<char>>::empty());
            }
            v
        },
    }
}

/// Appends one literal flag token.
fn push_flag(args: &mut Vec<String>, flag: &str)
    ensures
        toks(final(args)@) == toks(old(args)@).push(flag@),
{
    let tok = flag.to_owned();
    proof {
        lemma_toks_push(args@, tok);
    }
    args.push(tok);
}

/// Appends one already-built token.
fn push_string(args: &mut Vec<String>, tok: String)
    ensures
        toks(final(args)@) == toks(old(args)@).push(tok@),
{
    proof {
        lemma_toks_push(args@, tok);
    }
    args.push(tok);
}

/// Whether the list already holds the given flag.
fn contains_flag(args: &Vec<String>, flag: &str) -> (r: bool)
    ensures
        r == has_tok(toks(args@), flag@),
{
    let target: String = flag.to_owned();
    let n = args.len();
    let mut i: usize = 0;
    while i < n
        invariant
            n == args@.len(),
            i <= n,
            target@ == flag@,
            forall|j: int| 0 <= j < i ==> args@[j]@ != flag@,
        decreases n - i,
    {
        if args[i] == target {
            proof {
                assert(toks(args@)[i as int] == flag@);
            }
            return true;
        }
        i += 1;
    }
    false
}

/// A copy of an argument list, token for token.
pub fn clone_string_vec(v: &Vec<String>) -> (r: Vec<String>)
    ensures
        r@ == v@,
{
    let mut r: Vec<String> = Vec::new();
    let n = v.len();
    let mut i: usize = 0;
    while i < n
        invariant
            n == v@.len(),
            i <= n,
            r@ == v@.take(i as int),
        decreases n - i,
    {
        r.push(v[i].clone());
        proof {
            assert(r@ =~= v@.take(i as int + 1));
        }
        i += 1;
    }
    proof {
        assert(v@.take(n as int) =~= v@);
    }
    r
}

/// Whether two string slices hold the same characters.
pub fn str_eq(a: &str, b: &str) -> (r: bool)
    ensures
        r == (a@ == b@),
{
    let sa: String = a.to_owned();
    let sb: String = b.to_owned();
    sa == sb
}

/// The status message every successful accumulation reports.
fn ok_message() -> (r: String)
    ensures
        r@ == "Ok."@,
{
    String::from_str("Ok.")
}

/// Wraps an extended list in the common success outcome.
fn finish(args: Vec<String>) -> (r: StepOutcome)
    ensures
        accumulates(r, toks(args@)),
{
    StepOutcome { message: Some(ok_message()), updated_args: Some(args) }
}

/// The flag of one case-sensitivity setting.
pub open spec fn case_flag(c: CaseSensitivity) -> Seq<char> {
    match c {
        CaseSensitivity::IgnoreCase => "--ignore-case"@,
        CaseSensitivity::CaseSensitive => "--case-sensitive"@,
        CaseSensitivity::SmartCase => "--smart-case"@,
    }
}

/// Tokens after applying the case-sensitivity operation.
pub open spec fn spec_case_filter(c: CaseSensitivity, args: Seq<Seq<char>>) -> Seq<Seq<char>> {
    args.push(case_flag(c))
}

/// Appends the flag matching the chosen case-sensitivity setting.
pub fn case_filter(arguments: Option<Vec<String>>, case_sensitivity: &CaseSensitivity) -> (r:
    StepOutcome)
    ensures
        accumulates(r, spec_case_filter(*case_sensitivity, opt_toks(arguments))),
{
    let mut args = take_args(arguments);
    match case_sensitivity {
        CaseSensitivity::IgnoreCase => push_flag(&mut args, "--ignore-case"),
        CaseSensitivity::CaseSensitive => push_flag(&mut args, "--case-sensitive"),
        CaseSensitivity::SmartCase => push_flag(&mut args, "--smart-case"),
    }
    finish(args)
}

/// Tokens after applying the context-lines operation.  The
/// before-context flag is spelled with an underscore while its sibling
/// uses a hyphen; both literals are kept exactly as the executable
/// contract stands.
pub open spec fn spec_context_lines(before: int, after: int, args: Seq<Seq<char>>) -> Seq<
    Seq<char>,
> {
    args.push("--before_context"@).push(crate::numfmt::int_rep(before)).push(
        "--after-context"@,
    ).push(crate::numfmt::int_rep(after))
}

/// Appends the flags that set how many surrounding lines to display.
pub fn context_lines(arguments: Option<Vec<String>>, lines_before: &i32, lines_after: &i32) -> (r:
    StepOutcome)
    ensures
        accumulates(
            r,
            spec_context_lines(*lines_before as int, *lines_after as int, opt_toks(arguments)),
        ),
{
    let mut args = take_args(arguments);
    push_flag(&mut args, "--before_context");
    push_string(&mut args, crate::numfmt::i32_dec_string(*lines_before));
    push_flag(&mut args, "--after-context");
    push_string(&mut args, crate::numfmt::i32_dec_string(*lines_after));
    finish(args)
}

/// Tokens after applying the CRLF operation.
pub open spec fn spec_crlf(enabled: Enabled, args: Seq<Seq<char>>) -> Seq<Seq<char>> {
    match enabled {
        Enabled::Yes => args.push("--crlf"@),
        Enabled::No => args.push("--no-crlf"@),
    }
}

/// Appends the flag that treats CRLF as a line terminator, or its
/// negation.
pub fn crlf(arguments: Option<Vec<String>>, enabled: &Enabled) -> (r: StepOutcome)
    ensures
        accumulates(r, spec_crlf(*enabled, opt_toks(arguments))),
{
    let mut args = take_args(arguments);
    match enabled {
        Enabled::Yes => push_flag(&mut args, "--crlf"),
        Enabled::No => push_flag(&mut args, "--no-crlf"),
    }
    finish(args)
}

/// Tokens after applying the debug operation.  Disabling emits nothing:
/// the executable shows no debug messages by default.
pub open spec fn spec_debug(enabled: Enabled, args: Seq<Seq<char>>) -> Seq<Seq<char>> {
    match enabled {
        Enabled::Yes => args.push("--debug"@),
        Enabled::No => args,
    }
}

/// Appends the debug flag when enabled.
pub fn debug(arguments: Option<Vec<String>>, enabled: &Enabled) -> (r: StepOutcome)
    ensures
        accumulates(r, spec_debug(*enabled, opt_toks(arguments))),
{
    let mut args = take_args(arguments);
    if let Enabled::Yes = enabled {
        push_flag(&mut args, "--debug");
    }
    finish(args)
}

/// Tokens after applying the trace-data operation.  Disabling emits
/// nothing, as with debug.
pub open spec fn spec_trace_data(enabled: Enabled, args: Seq<Seq<char>>) -> Seq<Seq<char>> {
    match enabled {
        Enabled::Yes => args.push("--trace"@),
        Enabled::No => args,
    }
}

/// Appends the trace flag when enabled.
pub fn trace_data(arguments: Option<Vec<String>>, enabled: &Enabled) -> (r: StepOutcome)
    ensures
        accumulates(r, spec_trace_data(*enabled, opt_toks(arguments))),
{
    let mut args = take_args(arguments);
    if let Enabled::Yes = enabled {
        push_flag(&mut args, "--trace");
    }
    finish(args)
}

/// Tokens after applying the dot-all operation.  Enabling requires the
/// multiline flag first, added only if it is not already present: the
/// one place the accumulator deduplicates.
pub open spec fn spec_dot_all(enabled: Enabled, args: Seq<Seq<char>>) -> Seq<Seq<char>> {
    match enabled {
        Enabled::Yes => (if has_tok(args, "--multiline"@) {
            args
        } else {
            args.push("--multiline"@)
        }).push("--multiline-dotall"@),
        Enabled::No => args.push("--no-multiline-dotall"@),
    }
}

/// Appends the dot-all flag, ensuring its multiline prerequisite is
/// present exactly once beforehand.
pub fn dot_all(arguments: Option<Vec<String>>, enabled: &Enabled) -> (r: StepOutcome)
    ensures
        accumulates(r, spec_dot_all(*enabled, opt_toks(arguments))),
{
    let mut args = take_args(arguments);
    match enabled {
        Enabled::Yes => {
            if !contains_flag(&args, "--multiline") {
                push_flag(&mut args, "--multiline");
            }
            push_flag(&mut args, "--multiline-dotall");
        },
        Enabled::No => push_flag(&mut args, "--no-multiline-dotall"),
    }
    finish(args)
}

/// Tokens after applying the file-type filter: an include or exclude
/// flag followed by the type's token.
pub open spec fn spec_file_type_filter(
    enabled: Enabled,
    file_type: FileType,
    args: Seq<Seq<char>>,
) -> Seq<Seq<char>> {
    args.push(
        match enabled {
            Enabled::Yes => "--type"@,
            Enabled::No => "--type-not"@,
        },
    ).push(file_type.spec_flag_value())
}

/// Appends the flag pair that includes or excludes one file type.
pub fn file_type_filter(
    arguments: Option<Vec<String>>,
    enabled: &Enabled,
    file_type: &FileType,
) -> (r: StepOutcome)
    ensures
        accumulates(r, spec_file_type_filter(*enabled, *file_type, opt_toks(arguments))),
{
    let mut args = take_args(arguments);
    match enabled {
        Enabled::Yes => push_flag(&mut args, "--type"),
        Enabled::No => push_flag(&mut args, "--type-not"),
    }
    push_string(&mut args, file_type.flag_value());
    finish(args)
}

/// Tokens after applying the file-display operation.  Showing every
/// file included in the search takes a flag and a current-directory
/// marker; the other modes take one flag.
pub open spec fn spec_files(mode: FileDisplayMode, args: Seq<Seq<char>>) -> Seq<Seq<char>> {
    match mode {
        FileDisplayMode::FilesIncluded => args.push("--files"@).push("."@),
        FileDisplayMode::FilesWithMatch => args.push("--files-with-matches"@),
        FileDisplayMode::FilesWithoutMatch => args.push("--files-without-match"@),
    }
}

/// Appends the flags that choose how file paths print.
pub fn files(arguments: Option<Vec<String>>, file_display_mode: &FileDisplayMode) -> (r:
    StepOutcome)
    ensures
        accumulates(r, spec_files(*file_display_mode, opt_toks(arguments))),
{
    let mut args = take_args(arguments);
    match file_display_mode {
        FileDisplayMode::FilesIncluded => {
            push_flag(&mut args, "--files");
            push_flag(&mut args, ".");
        },
        FileDisplayMode::FilesWithMatch => push_flag(&mut args, "--files-with-matches"),
        FileDisplayMode::FilesWithoutMatch => push_flag(&mut args, "--files-without-match"),
    }
    finish(args)
}

/// Tokens after applying the fixed-strings operation.
pub open spec fn spec_fixed_strings(enabled: Enabled, args: Seq<Seq<char>>) -> Seq<Seq<char>> {
    match enabled {
        Enabled::Yes => args.push("--fixed-strings"@),
        Enabled::No => args.push("--no-fixed-strings"@),
    }
}

/// Appends the flag that treats the pattern as a literal string, or its
/// negation.
pub fn fixed_strings(arguments: Option<Vec<String>>, enabled: &Enabled) -> (r: StepOutcome)
    ensures
        accumulates(r, spec_fixed_strings(*enabled, opt_toks(arguments))),
{
    let mut args = take_args(arguments);
    match enabled {
        Enabled::Yes => push_flag(&mut args, "--fixed-strings"),
        Enabled::No => push_flag(&mut args, "--no-fixed-strings"),
    }
    finish(args)
}

/// Tokens after applying the multiline operation.
pub open spec fn spec_multiline(enabled: Enabled, args: Seq<Seq<char>>) -> Seq<Seq<char>> {
    match enabled {
        Enabled::Yes => args.push("--multiline"@),
        Enabled::No => args.push("--no-multiline"@),
    }
}

/// Appends the multiline flag or its negation.
pub fn multiline(arguments: Option<Vec<String>>, enabled: &Enabled) -> (r: StepOutcome)
    ensures
        accumulates(r, spec_multiline(*enabled, opt_toks(arguments))),
{
    let mut args = take_args(arguments);
    match enabled {
        Enabled::Yes => push_flag(&mut args, "--multiline"),
        Enabled::No => push_flag(&mut args, "--no-multiline"),
    }
    finish(args)
}

/// Tokens after applying the zip-inclusion operation.
pub open spec fn spec_include_zip(enabled: Enabled, args: Seq<Seq<char>>) -> Seq<Seq<char>> {
    match enabled {
        Enabled::Yes => args.push("--search-zip"@),
        Enabled::No => args.push("--no-search-zip"@),
    }
}

/// Appends the flag that searches compressed files, or its negation.
pub fn include_zip(arguments: Option<Vec<String>>, enabled: &Enabled) -> (r: StepOutcome)
    ensures
        accumulates(r, spec_include_zip(*enabled, opt_toks(arguments))),
{
    let mut args = take_args(arguments);
    match enabled {
        Enabled::Yes => push_flag(&mut args, "--search-zip"),
        Enabled::No => push_flag(&mut args, "--no-search-zip"),
    }
    finish(args)
}

/// The replacement text wrapped in literal quote characters, as the
/// replace operation emits it.
pub open spec fn quoted(t: Seq<char>) -> Seq<char> {
    seq!['"'] + t + seq!['"']
}

/// Tokens after applying the replace operation: the flag followed by
/// the quoted replacement text.
pub open spec fn spec_replace(text: Seq<char>, args: Seq<Seq<char>>) -> Seq<Seq<char>> {
    args.push("--replace"@).push(quoted(text))
}

/// Wraps the replacement text in literal quote characters.
fn quote_text(text: &String) -> (r: String)
    ensures
        r@ == quoted(text@),
{
    let mut q = "\"".to_owned();
    q.append(text.as_str());
    q.append("\"");
    proof {
        reveal_strlit("\"");
        assert(q@ =~= quoted(text@));
    }
    q
}

/// Appends the replace flag and the quoted replacement text.
pub fn replace(arguments: Option<Vec<String>>, replacement_text: &String) -> (r: StepOutcome)
    ensures
        accumulates(r, spec_replace(replacement_text@, opt_toks(arguments))),
{
    let mut args = take_args(arguments);
    push_flag(&mut args, "--replace");
    push_string(&mut args, quote_text(replacement_text));
    finish(args)
}

/// Tokens after applying the restriction operation.  The default level
/// emits nothing: it matches the executable's own default behaviour.
pub open spec fn spec_restriction_level(restriction: Restriction, args: Seq<Seq<char>>) -> Seq<
    Seq<char>,
> {
    match restriction {
        Restriction::Default => args,
        Restriction::IncludeIgnored => args.push("-u"@),
        Restriction::IncludeIgnoredHidden => args.push("-uu"@),
        Restriction::IncludeIgnoredHiddenBinary => args.push("-uuu"@),
    }
}

/// Appends the flag that widens the search into ignored, hidden, and
/// binary files.
pub fn restriction_level(arguments: Option<Vec<String>>, restriction: &Restriction) -> (r:
    StepOutcome)
    ensures
        accumulates(r, spec_restriction_level(*restriction, opt_toks(arguments))),
{
    let mut args = take_args(arguments);
    match restriction {
        Restriction::Default => {},
        Restriction::IncludeIgnored => push_flag(&mut args, "-u"),
        Restriction::IncludeIgnoredHidden => push_flag(&mut args, "-uu"),
        Restriction::IncludeIgnoredHiddenBinary => push_flag(&mut args, "-uuu"),
    }
    finish(args)
}

/// The direction flag of one sort ordering.
pub open spec fn sort_dir_flag(o: SortOrdering) -> Seq<char> {
    match o {
        SortOrdering::Ascending => "--sort"@,
        SortOrdering::Descending => "--sortr"@,
    }
}

/// Tokens after applying the sort operation: a direction flag followed
/// by the field's token.
pub open spec fn spec_sort_results_by(
    sort_by: SortBy,
    ordering: SortOrdering,
    args: Seq<Seq<char>>,
) -> Seq<Seq<char>> {
    args.push(sort_dir_flag(ordering)).push(sort_by.spec_flag_value())
}

/// Appends the direction flag and the sort field's token.
pub fn sort_results_by(
    arguments: Option<Vec<String>>,
    sort_by: &SortBy,
    sort_ordering: &SortOrdering,
) -> (r: StepOutcome)
    ensures
        accumulates(r, spec_sort_results_by(*sort_by, *sort_ordering, opt_toks(arguments))),
{
    let mut args = take_args(arguments);
    match sort_ordering {
        SortOrdering::Ascending => push_flag(&mut args, "--sort"),
        SortOrdering::Descending => push_flag(&mut args, "--sortr"),
    }
    push_string(&mut args, sort_by.flag_value());
    finish(args)
}

/// Tokens after applying the statistics operation.
pub open spec fn spec_statistics(enabled: Enabled, args: Seq<Seq<char>>) -> Seq<Seq<char>> {
    match enabled {
        Enabled::Yes => args.push("--stats"@),
        Enabled::No => args.push("--no-stats"@),
    }
}

/// Appends the statistics flag or its negation.
pub fn statistics(arguments: Option<Vec<String>>, enabled: &Enabled) -> (r: StepOutcome)
    ensures
        accumulates(r, spec_statistics(*enabled, opt_toks(arguments))),
{
    let mut args = take_args(arguments);
    match enabled {
        Enabled::Yes => push_flag(&mut args, "--stats"),
        Enabled::No => push_flag(&mut args, "--no-stats"),
    }
    finish(args)
}

/// Tokens after applying the thread-count operation.  Zero (and any
/// negative count) emits nothing and means "use the default".
pub open spec fn spec_threads(thread_count: int, args: Seq<Seq<char>>) -> Seq<Seq<char>> {
    if thread_count > 0 {
        args.push("--threads"@).push(crate::numfmt::int_rep(thread_count))
    } else {
        args
    }
}

/// Appends the thread flag and the rendered count, when one is asked
/// for.
pub fn threads(arguments: Option<Vec<String>>, thread_count: &i32) -> (r: StepOutcome)
    ensures
        accumulates(r, spec_threads(*thread_count as int, opt_toks(arguments))),
{
    let mut args = take_args(arguments);
    if *thread_count > 0 {
        push_flag(&mut args, "--threads");
        push_string(&mut args, crate::numfmt::i32_dec_string(*thread_count));
    }
    finish(args)
}

/// Tokens after applying the binary-as-text operation.
pub open spec fn spec_treat_binary_as_text(enabled: Enabled, args: Seq<Seq<char>>) -> Seq<
    Seq<char>,
> {
    match enabled {
        Enabled::Yes => args.push("--text"@),
        Enabled::No => args.push("--no-text"@),
    }
}

/// Appends the flag that treats binary files as text, or its negation.
pub fn treat_binary_as_text(arguments: Option<Vec<String>>, enabled: &Enabled) -> (r: StepOutcome)
    ensures
        accumulates(r, spec_treat_binary_as_text(*enabled, opt_toks(arguments))),
{
    let mut args = take_args(arguments);
    match enabled {
        Enabled::Yes => push_flag(&mut args, "--text"),
        Enabled::No => push_flag(&mut args, "--no-text"),
    }
    finish(args)
}

/// Tokens after applying the trim operation.
pub open spec fn spec_trim_whitespace(enabled: Enabled, args: Seq<Seq<char>>) -> Seq<Seq<char>> {
    match enabled {
        Enabled::Yes => args.push("--trim"@),
        Enabled::No => args.push("--no-trim"@),
    }
}

/// Appends the flag that trims leading and trailing whitespace, or its
/// negation.
pub fn trim_whitespace(arguments: Option<Vec<String>>, enabled: &Enabled) -> (r: StepOutcome)
    ensures
        accumulates(r, spec_trim_whitespace(*enabled, opt_toks(arguments))),
{
    let mut args = take_args(arguments);
    match enabled {
        Enabled::Yes => push_flag(&mut args, "--trim"),
        Enabled::No => push_flag(&mut args, "--no-trim"),
    }
    finish(args)
}

/// The full invocation the terminal search operation hands to the
/// process collaborator: the pattern, the fixed presentation flag, then
/// every accumulated flag in order.
pub open spec fn spec_search_invocation(pattern: Seq<char>, args: Seq<Seq<char>>) -> Seq<
    Seq<char>,
> {
    seq![pattern, "--pretty"@] + args
}

/// Builds the search invocation.  The search operation itself never
/// extends the argument list: its outcome carries no updated list.
pub fn search_invocation(pattern: &String, arguments: Option<Vec<String>>) -> (r: Vec<String>)
    ensures
        toks(r@) == spec_search_invocation(pattern@, opt_toks(arguments)),
{
    let mut out: Vec<String> = Vec::new();
    out.push(pattern.clone());
    out.push("--pretty".to_owned());
    let ghost head = out@;
    if let Some(mut v) = arguments {
        let ghost tail = v@;
        out.append(&mut v);
        proof {
            lemma_toks_concat(head, tail);
        }
    }
    proof {
        assert(toks(out@) =~= spec_search_invocation(pattern@, opt_toks(arguments)));
    }
    out
}

/// The outcome of the terminal search operation: a status message and
/// no updated argument list, whatever the executable reported.
pub fn search_outcome() -> (r: StepOutcome)
    ensures
        terminal_outcome(r, "Ok."@),
{
    StepOutcome { message: Some(ok_message()), updated_args: None }
}

/// Law: enabling dot-all on a list lacking the multiline flag yields
/// the multiline flag exactly once, at the old end of the list and
/// before the dot-all flag; on a list already holding it, the multiline
/// flag is not duplicated.  Either way the dot-all flag lands last.
pub proof fn lemma_dot_all_prerequisite(args: Seq<Seq<char>>)
    ensures
        !has_tok(args, "--multiline"@) ==> count_tok(
            spec_dot_all(Enabled::Yes, args),
            "--multiline"@,
        ) == 1,
        !has_tok(args, "--multiline"@) ==> spec_dot_all(Enabled::Yes, args)[args.len() as int]
            == "--multiline"@,
        has_tok(args, "--multiline"@) ==> count_tok(spec_dot_all(Enabled::Yes, args), "--multiline"@)
            == count_tok(args, "--multiline"@),
        spec_dot_all(Enabled::Yes, args).last() == "--multiline-dotall"@,
{
    let mult = "--multiline"@;
    let dotall = "--multiline-dotall"@;
    reveal_strlit("--multiline");
    reveal_strlit("--multiline-dotall");
    assert(mult.len() != dotall.len());
    if !has_tok(args, mult) {
        lemma_count_zero(args, mult);
        lemma_count_push(args, mult, mult);
        lemma_count_push(args.push(mult), mult, dotall);
    } else {
        lemma_count_push(args, mult, dotall);
    }
}

} // verus!
