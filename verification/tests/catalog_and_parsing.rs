use dripgrep::args::CaseSensitivity;
use dripgrep::args::Enabled;
use dripgrep::args::FileDisplayMode;
use dripgrep::args::FileType;
use dripgrep::args::Restriction;
use dripgrep::args::SortBy;
use dripgrep::args::SortOrdering;
use dripgrep::catalog::Action;
use dripgrep::catalog::Commands;
use dripgrep::catalog::ParamKind;
use dripgrep::catalog::describe;
use dripgrep::errors::OpError;
use dripgrep::numfmt::i32_dec_string;
use dripgrep::numfmt::u64_dec_string;

fn strs(v: &[&str]) -> Vec<String> {
    v.iter().map(|s| s.to_string()).collect()
}

fn applied_args(cmd: &Commands, before: Option<Vec<String>>) -> Vec<String> {
    match cmd.apply(before) {
        Action::Accumulated(o) => {
            assert_eq!(o.message.as_deref(), Some("Ok."));
            o.updated_args.expect("an accumulating operation updates the list")
        }
        _ => panic!("expected an accumulating operation"),
    }
}

#[test]
fn apply_dispatches_to_the_accumulator() {
    let cmd = Commands::CaseFilter { case_sensitivity: CaseSensitivity::SmartCase };
    assert_eq!(applied_args(&cmd, None), strs(&["--smart-case"]));

    let cmd = Commands::FileTypeFilter { enabled: Enabled::Yes, file_type: FileType::Rust };
    assert_eq!(
        applied_args(&cmd, Some(strs(&["--crlf"]))),
        strs(&["--crlf", "--type", "rust"])
    );

    let cmd = Commands::Threads { thread_count: 0 };
    assert_eq!(applied_args(&cmd, Some(strs(&["-u"]))), strs(&["-u"]));

    let cmd = Commands::SortResultsBy {
        sort_by: SortBy::Created,
        sort_ordering: SortOrdering::Ascending,
    };
    assert_eq!(applied_args(&cmd, None), strs(&["--sort", "created"]));

    let cmd = Commands::Files { file_display_mode: FileDisplayMode::FilesIncluded };
    assert_eq!(applied_args(&cmd, None), strs(&["--files", "."]));

    let cmd = Commands::RestrictionLevel { restriction: Restriction::Default };
    assert_eq!(applied_args(&cmd, None), Vec::<String>::new());
}

#[test]
fn apply_search_builds_the_full_invocation() {
    let cmd = Commands::Search { pattern: String::from("fast") };
    match cmd.apply(Some(strs(&["--type", "markdown"]))) {
        Action::RunSearch { invocation } => {
            assert_eq!(invocation, strs(&["fast", "--pretty", "--type", "markdown"]));
        }
        _ => panic!("search is a terminal operation"),
    }
}

#[test]
fn apply_hands_terminal_prompts_through() {
    let cmd = Commands::CallMultiStep { prompt_list: strs(&["a", "b"]) };
    match cmd.apply(None) {
        Action::RunMultiStep { prompt_list } => assert_eq!(prompt_list, strs(&["a", "b"])),
        _ => panic!("multi-step is a terminal operation"),
    }
    let cmd = Commands::GPT { prompt: String::from("hello") };
    match cmd.apply(None) {
        Action::RunModel { prompt } => assert_eq!(prompt, "hello"),
        _ => panic!("a single prompt is a terminal operation"),
    }
}

#[test]
fn operation_names_are_their_catalog_names() {
    assert_eq!(Commands::DotAll { enabled: Enabled::Yes }.name(), "DotAll");
    assert_eq!(Commands::CallMultiStep { prompt_list: vec![] }.name(), "CallMultiStep");
    assert_eq!(Commands::GPT { prompt: String::new() }.name(), "GPT");
}

#[test]
fn describe_accepts_every_catalog_name() {
    for name in [
        "CaseFilter",
        "ContextLines",
        "CRLF",
        "Debug",
        "DotAll",
        "Files",
        "FileTypeFilter",
        "FixedStrings",
        "IncludeZip",
        "Multiline",
        "Replace",
        "RestrictionLevel",
        "SortResultsBy",
        "Statistics",
        "Threads",
        "TraceData",
        "TreatBinaryAsText",
        "TrimWhitespace",
        "Search",
        "CallMultiStep",
        "GPT",
    ] {
        let d = describe(&name.to_string()).expect("a catalog name");
        assert_eq!(d.name, name);
        assert!(!d.description.is_empty());
        assert!(!d.params.is_empty());
    }
}

#[test]
fn describe_rejects_a_name_outside_the_catalog() {
    let r = describe(&String::from("Teleport"));
    assert!(matches!(r, Err(OpError::UnknownOperation)));
    let r = describe(&String::from("casefilter"));
    assert!(matches!(r, Err(OpError::UnknownOperation)));
}

#[test]
fn describe_exposes_parameter_schemas() {
    let d = describe(&String::from("ContextLines")).unwrap();
    assert_eq!(d.params, vec![ParamKind::IntParam, ParamKind::IntParam]);
    let d = describe(&String::from("FileTypeFilter")).unwrap();
    assert_eq!(d.params, vec![ParamKind::EnabledParam, ParamKind::FileTypeParam]);
    let d = describe(&String::from("SortResultsBy")).unwrap();
    assert_eq!(d.params, vec![ParamKind::SortByParam, ParamKind::SortOrderingParam]);
    let d = describe(&String::from("CallMultiStep")).unwrap();
    assert_eq!(d.params, vec![ParamKind::TextListParam]);
    let d = describe(&String::from("Multiline")).unwrap();
    assert_eq!(d.params, vec![ParamKind::EnabledParam]);
}

#[test]
fn variant_parsing_round_trips() {
    assert!(matches!(Enabled::from_name("Yes"), Ok(Enabled::Yes)));
    assert!(matches!(Enabled::from_name("No"), Ok(Enabled::No)));
    assert!(matches!(CaseSensitivity::from_name("SmartCase"), Ok(CaseSensitivity::SmartCase)));
    assert!(matches!(FileType::from_name("Markdown"), Ok(FileType::Markdown)));
    assert!(matches!(FileType::from_name("OCaml"), Ok(FileType::OCaml)));
    assert!(matches!(SortBy::from_name("Path"), Ok(SortBy::Path)));
    assert!(matches!(SortOrdering::from_name("Descending"), Ok(SortOrdering::Descending)));
    assert!(matches!(
        Restriction::from_name("IncludeIgnoredHiddenBinary"),
        Ok(Restriction::IncludeIgnoredHiddenBinary)
    ));
    assert!(matches!(
        FileDisplayMode::from_name("FilesWithoutMatch"),
        Ok(FileDisplayMode::FilesWithoutMatch)
    ));
}

#[test]
fn out_of_schema_values_are_invalid_parameters() {
    assert!(matches!(Enabled::from_name("yes"), Err(OpError::InvalidParameter)));
    assert!(matches!(Enabled::from_name(""), Err(OpError::InvalidParameter)));
    assert!(matches!(FileType::from_name("COBOL"), Err(OpError::InvalidParameter)));
    assert!(matches!(CaseSensitivity::from_name("Loud"), Err(OpError::InvalidParameter)));
}

#[test]
fn error_descriptions_are_fixed() {
    assert_eq!(OpError::UnknownOperation.describe(), "unknown operation");
    assert_eq!(OpError::InvalidParameter.describe(), "invalid parameter");
    assert_eq!(OpError::EmptyCandidateSet.describe(), "empty candidate set");
    assert_eq!(OpError::RankingFailure.describe(), "ranking failure");
    assert_eq!(OpError::ModelInvocationFailure.describe(), "model invocation failure");
    assert_eq!(OpError::ProcessInvocationFailure.describe(), "process invocation failure");
}

#[test]
fn decimal_rendering_matches_the_standard_form() {
    assert_eq!(u64_dec_string(0), "0");
    assert_eq!(u64_dec_string(7), "7");
    assert_eq!(u64_dec_string(40960), "40960");
    assert_eq!(u64_dec_string(u64::MAX), u64::MAX.to_string());
    assert_eq!(i32_dec_string(0), "0");
    assert_eq!(i32_dec_string(123), "123");
    assert_eq!(i32_dec_string(-123), "-123");
    assert_eq!(i32_dec_string(i32::MIN), i32::MIN.to_string());
    assert_eq!(i32_dec_string(i32::MAX), i32::MAX.to_string());
}
