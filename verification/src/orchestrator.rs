//! The step orchestrator.
//!
//! A multi-step request is a finite sequence of natural-language steps,
//! processed strictly in order: one step's model invocation completes
//! before the next step's prompt is constructed, because each step may
//! read the previous step's textual result.  The orchestrator owns the
//! decisions — which prompt to send, whether the candidate set is
//! constrained, when a step is passed over, when the run is finished or
//! failed — while the surrounding binary performs the external calls
//! and hands their results back.
//!
//! Failures are never retried here: the first failure of an external
//! collaborator ends the run, and nothing already accumulated reaches
//! the search executable.

use vstd::prelude::*;
use vstd::string::StringExecFns;
use crate::errors::OpError;

verus! {

/// Where a multi-step run stands.
#[derive(Clone, Copy, Debug, PartialEq, Eq, Structural)]
pub enum Phase {
    /// No step has been taken up yet.
    NotStarted,
    /// The model collaborator is working on this step.
    StepInFlight { index: usize },
    /// This step's result (or its absence) has been recorded.
    StepComplete { index: usize },
    /// Every step completed.
    Finished,
    /// An external collaborator failed on this step; the run ends.
    Failed { index: usize, error: OpError },
}

/// How the model collaborator may run the tool calls of one step
/// internally.  The steps themselves stay strictly sequential whatever
/// is chosen: one step's invocation completes before the next prompt is
/// built, so this selector records intent and never changes a decision
/// made here.
#[derive(Clone, Copy, Debug, PartialEq, Eq, Structural)]
pub enum ExecutionStrategy {
    Sequential,
    Parallel,
}

/// The state of one multi-step run: the steps, the position within
/// them, the prior step's textual result, the argument list the
/// accumulator extends along the way, and the execution-strategy
/// selector.
pub struct OrchestrationState {
    pub steps: Vec<String>,
    pub next_index: usize,
    pub prior_result: Option<String>,
    pub args: Option<Vec<String>>,
    pub phase: Phase,
    pub strategy: ExecutionStrategy,
}

/// What the driver must do for the step at hand.
pub enum StepDirective {
    /// Every step is complete: the run finished.
    Done,
    /// Invoke the model collaborator with this prompt.  `constrain`
    /// holds on the first step only: there the narrowed
    /// candidate set applies; later steps leave the selector free.
    Invoke { prompt: String, constrain: bool },
    /// No prior result exists to thread into this step's prompt: the
    /// holder stays absent and the step is passed over.
    Skip,
}

/// Whether a directive is an invocation with exactly this prompt and
/// this constraint choice.
pub open spec fn invoke_directive(d: StepDirective, prompt: Seq<char>, constrain: bool) -> bool {
    match d {
        StepDirective::Invoke { prompt: p, constrain: c } => p@ == prompt && c == constrain,
        _ => false,
    }
}

/// The prompt the step at hand sends: the raw text on the first step,
/// the prior result threaded into the fixed shape on later ones.
pub open spec fn spec_step_prompt(s: OrchestrationState) -> Seq<char>
    recommends
        s.next_index < s.steps@.len(),
{
    if s.next_index == 0 {
        s.steps@[0]@
    } else {
        spec_followup_prompt(s.prior_result->0@, s.steps@[s.next_index as int]@)
    }
}

/// The prompt of a step that follows a recorded result: a fixed
/// preamble, the prior result, a period and a space, then the raw step
/// text.
pub open spec fn spec_followup_prompt(prior: Seq<char>, step: Seq<char>) -> Seq<char> {
    "The prior result was: "@ + prior + ". "@ + step
}

/// Builds the prompt of a step that follows a recorded result.
pub fn build_followup_prompt(prior: &String, step: &String) -> (r: String)
    ensures
        r@ == spec_followup_prompt(prior@, step@),
{
    let mut p: String = "The prior result was: ".to_owned();
    p.append(prior.as_str());
    p.append(". ");
    p.append(step.as_str());
    p
}

/// The operation names every first-step selection must keep available,
/// whatever the ranking returned.
pub fn mandatory_names() -> (r: Vec<String>)
    ensures
        r@.len() == 1,
        r@[0]@ == "CallMultiStep"@,
{
    let mut v: Vec<String> = Vec::new();
    v.push(String::from_str("CallMultiStep"));
    v
}

impl OrchestrationState {
    /// The position never runs past the end of the step sequence.
    pub open spec fn wf(self) -> bool {
        self.next_index <= self.steps@.len()
    }

    /// Starts a run: no step taken, no prior result, an empty argument
    /// list.
    pub fn new(steps: Vec<String>, strategy: ExecutionStrategy) -> (s: Self)
        ensures
            s.wf(),
            s.steps == steps,
            s.next_index == 0,
            s.prior_result is None,
            s.args matches Some(a) && a@.len() == 0,
            s.phase is NotStarted,
            s.strategy == strategy,
    {
        let empty: Vec<String> = Vec::new();
        OrchestrationState {
            steps,
            next_index: 0,
            prior_result: None,
            args: Some(empty),
            phase: Phase::NotStarted,
            strategy,
        }
    }

    /// Decides the step at hand.  Past the last step the run is
    /// finished.  The first step sends its raw text with the candidate
    /// set constrained.  A later step threads the prior result into the
    /// fixed prompt shape, unconstrained; without a prior result it is
    /// passed over and the run silently continues.
    pub fn begin_step(&mut self) -> (d: StepDirective)
        requires
            old(self).wf(),
        ensures
            final(self).wf(),
            final(self).steps == old(self).steps,
            final(self).strategy == old(self).strategy,
            final(self).args == old(self).args,
            old(self).next_index == old(self).steps@.len() ==> d is Done
                && final(self).phase is Finished
                && final(self).next_index == old(self).next_index
                && final(self).prior_result == old(self).prior_result,
            old(self).next_index < old(self).steps@.len()
                && (old(self).next_index == 0 || old(self).prior_result is Some)
                ==> invoke_directive(d, spec_step_prompt(*old(self)), old(self).next_index == 0)
                && final(self).phase == (Phase::StepInFlight { index: old(self).next_index })
                && final(self).next_index == old(self).next_index
                && final(self).prior_result == old(self).prior_result,
            old(self).next_index < old(self).steps@.len()
                && old(self).next_index > 0
                && old(self).prior_result is None ==> d is Skip
                && final(self).prior_result is None
                && final(self).next_index == old(self).next_index + 1
                && final(self).phase == (Phase::StepComplete { index: old(self).next_index }),
    {
        if self.next_index == self.steps.len() {
            self.phase = Phase::Finished;
            return StepDirective::Done;
        }
        let i = self.next_index;
        if i == 0 {
            let prompt = self.steps[0].clone();
            self.phase = Phase::StepInFlight { index: i };
            StepDirective::Invoke { prompt, constrain: true }
        } else {
            match &self.prior_result {
                Some(prior) => {
                    let prompt = build_followup_prompt(prior, &self.steps[i]);
                    self.phase = Phase::StepInFlight { index: i };
                    StepDirective::Invoke { prompt, constrain: false }
                },
                None => {
                    self.next_index = i + 1;
                    self.phase = Phase::StepComplete { index: i };
                    StepDirective::Skip
                },
            }
        }
    }

    /// Records what the model invocation of the current step returned
    /// and moves to the next step.  The holder takes the new result
    /// even when it is absent.
    pub fn record_step_result(&mut self, result: Option<String>)
        requires
            old(self).wf(),
            old(self).next_index < old(self).steps@.len(),
        ensures
            final(self).wf(),
            final(self).steps == old(self).steps,
            final(self).strategy == old(self).strategy,
            final(self).args == old(self).args,
            final(self).prior_result == result,
            final(self).next_index == old(self).next_index + 1,
            final(self).phase == (Phase::StepComplete { index: old(self).next_index }),
    {
        let i = self.next_index;
        let n = self.steps.len();
        assert(i < n);
        self.prior_result = result;
        self.next_index = i + 1;
        self.phase = Phase::StepComplete { index: i };
    }

    /// Records the failure of an external collaborator: the run ends on
    /// this step, nothing is rolled back, and nothing accumulated is
    /// applied.
    pub fn record_failure(&mut self, error: OpError)
        ensures
            final(self).steps == old(self).steps,
            final(self).strategy == old(self).strategy,
            final(self).args == old(self).args,
            final(self).prior_result == old(self).prior_result,
            final(self).next_index == old(self).next_index,
            final(self).phase == (Phase::Failed { index: old(self).next_index, error }),
    {
        self.phase = Phase::Failed { index: self.next_index, error };
    }

    /// Replaces the shared argument list wholesale: an update is an
    /// atomic replacement of the entire sequence, never an in-place
    /// mutation a reader could observe half-done.
    pub fn replace_args(&mut self, args: Option<Vec<String>>)
        ensures
            final(self).steps == old(self).steps,
            final(self).strategy == old(self).strategy,
            final(self).args == args,
            final(self).prior_result == old(self).prior_result,
            final(self).next_index == old(self).next_index,
            final(self).phase == old(self).phase,
    {
        self.args = args;
    }
}

} // verus!
