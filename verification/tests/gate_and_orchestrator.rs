use dripgrep::errors::OpError;
use dripgrep::gate::narrow;
use dripgrep::orchestrator::ExecutionStrategy;
use dripgrep::orchestrator::OrchestrationState;
use dripgrep::orchestrator::Phase;
use dripgrep::orchestrator::StepDirective;
use dripgrep::orchestrator::build_followup_prompt;
use dripgrep::orchestrator::mandatory_names;

fn strs(v: &[&str]) -> Vec<String> {
    v.iter().map(|s| s.to_string()).collect()
}

#[test]
fn narrowing_keeps_the_mandatory_set_when_the_ranking_is_empty() {
    let out = narrow(&vec![], &strs(&["CallMultiStep"])).expect("the mandatory set suffices");
    assert_eq!(out, strs(&["CallMultiStep"]));
}

#[test]
fn narrowing_with_nothing_to_choose_from_fails() {
    let r = narrow(&vec![], &vec![]);
    assert!(matches!(r, Err(OpError::EmptyCandidateSet)));
}

#[test]
fn narrowing_unions_and_deduplicates() {
    let ranked = strs(&["Search", "FileTypeFilter", "Search"]);
    let mandatory = strs(&["CallMultiStep", "FileTypeFilter"]);
    let out = narrow(&ranked, &mandatory).unwrap();
    for name in ["Search", "FileTypeFilter", "CallMultiStep"] {
        assert_eq!(out.iter().filter(|s| s.as_str() == name).count(), 1);
    }
    assert_eq!(out.len(), 3);
}

#[test]
fn the_multi_step_operation_is_always_mandatory() {
    assert_eq!(mandatory_names(), strs(&["CallMultiStep"]));
}

#[test]
fn followup_prompts_thread_the_prior_result() {
    let p = build_followup_prompt(&String::from("Ok."), &String::from("search for fast"));
    assert_eq!(p, "The prior result was: Ok.. search for fast");
}

#[test]
fn two_step_orchestration_constrains_only_the_first_prompt() {
    let steps = strs(&["set file type to markdown", "search for fast"]);
    let mut run = OrchestrationState::new(steps, ExecutionStrategy::Sequential);
    assert_eq!(run.phase, Phase::NotStarted);
    assert_eq!(run.args.as_deref(), Some(&[][..]));

    match run.begin_step() {
        StepDirective::Invoke { prompt, constrain } => {
            assert_eq!(prompt, "set file type to markdown");
            assert!(constrain);
        }
        _ => panic!("the first step invokes the model"),
    }
    assert_eq!(run.phase, Phase::StepInFlight { index: 0 });

    let prior = String::from("Set the file type filter to markdown.");
    run.record_step_result(Some(prior.clone()));
    assert_eq!(run.phase, Phase::StepComplete { index: 0 });
    assert_eq!(run.prior_result.as_deref(), Some(prior.as_str()));
    assert!(!prior.is_empty());

    match run.begin_step() {
        StepDirective::Invoke { prompt, constrain } => {
            let expected = format!("The prior result was: {}. {}", prior, "search for fast");
            assert_eq!(prompt, expected);
            assert!(prompt.starts_with("The prior result was: "));
            assert!(!constrain);
        }
        _ => panic!("the second step invokes the model"),
    }

    run.record_step_result(Some(String::from("Ok.")));
    assert!(matches!(run.begin_step(), StepDirective::Done));
    assert_eq!(run.phase, Phase::Finished);
}

#[test]
fn a_later_step_without_a_prior_result_is_passed_over() {
    let mut run = OrchestrationState::new(strs(&["first", "second", "third"]), ExecutionStrategy::Sequential);
    match run.begin_step() {
        StepDirective::Invoke { constrain, .. } => assert!(constrain),
        _ => panic!("the first step invokes the model"),
    }
    run.record_step_result(None);

    assert!(matches!(run.begin_step(), StepDirective::Skip));
    assert!(run.prior_result.is_none());
    assert_eq!(run.phase, Phase::StepComplete { index: 1 });

    assert!(matches!(run.begin_step(), StepDirective::Skip));
    assert!(matches!(run.begin_step(), StepDirective::Done));
    assert_eq!(run.phase, Phase::Finished);
}

#[test]
fn a_collaborator_failure_ends_the_run_on_that_step() {
    let mut run = OrchestrationState::new(strs(&["first", "second"]), ExecutionStrategy::Parallel);
    match run.begin_step() {
        StepDirective::Invoke { .. } => {}
        _ => panic!("the first step invokes the model"),
    }
    run.record_failure(OpError::RankingFailure);
    assert_eq!(run.phase, Phase::Failed { index: 0, error: OpError::RankingFailure });
    assert_eq!(run.next_index, 0);
}

#[test]
fn argument_updates_replace_the_whole_list() {
    let mut run = OrchestrationState::new(strs(&["only"]), ExecutionStrategy::Sequential);
    run.replace_args(Some(strs(&["--type", "markdown"])));
    assert_eq!(run.args.as_deref(), Some(&strs(&["--type", "markdown"])[..]));
    run.replace_args(None);
    assert!(run.args.is_none());
}
