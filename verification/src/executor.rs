//! The retry loop for one step, as an explicit state machine.
//!
//! The machine decides, the caller performs: `next_action` names the one
//! outside operation the current state asks for (a generation request, the
//! extraction of usable code, a patch write, the pause for recompilation,
//! an exerciser run, a verdict request), and `on_event` consumes that
//! operation's outcome and moves to the next state. A step runs a bounded
//! number of attempts; the first passing verdict ends it, and a failing
//! verdict's corrective text doubles as the next attempt's candidate, so no
//! extra generation request is issued in the steady state.

use vstd::prelude::*;

use crate::feature::Step;
use crate::prompts::{generation_prompt, get_passing_prompt, get_prompt, verdict_prompt};
use crate::verdict::{contains_yes, is_passing};

verus! {

/// The retry budget: how many attempts one step may consume.
pub const MAX_ATTEMPTS: usize = 3;

/// Why a step ended without a passing verdict.
#[derive(Clone, Copy, Debug, PartialEq, Eq, Structural)]
pub enum StepError {
    /// No credential was supplied; nothing was attempted.
    MissingCredential,
    /// The generation service failed to answer.
    GenerationFailed,
    /// The model response held nothing recognizable as an artifact.
    ExtractionFailed,
    /// The patch could not be written to the target file.
    PatchFailed,
    /// Every attempt in the budget ran and none passed.
    Exhausted,
}

/// Where the machine stands in the current attempt.
#[derive(Clone, Copy, Debug, PartialEq, Eq, Structural)]
pub enum Phase {
    /// Awaiting the initial generation response.
    Generating,
    /// Awaiting extraction of usable code from the current candidate.
    Extracting,
    /// Awaiting the patch write of the extracted code.
    Patching,
    /// Awaiting the fixed delay that lets the watched build reload.
    Pausing,
    /// Awaiting the exerciser's captured log output.
    Exercising,
    /// Awaiting the verdict response.
    Judging,
    /// A verdict passed; the step is done.
    Passed,
    /// The step ended without success.
    Failed(StepError),
}

/// The outcome of the outside operation the machine last asked for.
#[derive(Clone, Debug)]
pub enum StepEvent {
    /// The generation service answered the initial prompt.
    Generated { text: String },
    /// The generation service failed on the initial prompt.
    GenerationFailed,
    /// Extraction found an artifact body in the candidate.
    Extracted { code: String },
    /// Extraction recognized nothing; fatal for the step.
    ExtractionFailed,
    /// The patch write went through.
    Patched,
    /// The patch write failed; fatal for the step.
    PatchFailed,
    /// The recompilation pause elapsed.
    Delayed,
    /// The exerciser ran and captured this log output.
    Logs { text: String },
    /// The exerciser failed; treated as empty log output.
    LogsFailed,
    /// The generation service answered the verdict prompt.
    Verdict { text: String },
    /// The generation service failed on the verdict prompt.
    VerdictFailed,
}

/// The one outside operation the current state asks the caller to perform.
#[derive(Clone, Debug)]
pub enum StepAction {
    /// Send this prompt to the generation service with this credential.
    RequestGeneration { prompt: String, api_key: String },
    /// Hand this raw response to the code-extraction service.
    RequestExtraction { raw: String },
    /// Write this code to the step's target file under the patch policy.
    ApplyPatch { code: String },
    /// Wait the fixed interval for the watched build to reload.
    Delay,
    /// Run the exerciser on this identifier with this display flag.
    RequestLogs { test_path: String, show_html: String },
    /// Send this verdict prompt to the generation service.
    RequestVerdict { prompt: String, api_key: String },
    /// The step succeeded.
    ReportSuccess,
    /// The step ended with this error.
    ReportFailure { error: StepError },
}

/// What lowercasing leaves of a text; the concrete letters are the
/// lowercasing routine's affair.
pub uninterp spec fn lower_of(s: Seq<char>) -> Seq<char>;

/// Relies on str::to_lowercase: the result depends on the characters alone,
/// and empty text stays empty.
#[verifier::external_body]
fn lowercase(s: &str) -> (r: String)
    ensures
        r@ == lower_of(s@),
        s@.len() == 0 ==> r@.len() == 0,
{
    s.to_lowercase()
}

/// The retry loop's state: the step under work, the credential, the current
/// phase and attempt, the code the current attempt extracted, and the full
/// history of candidates, captured logs and verdicts for diagnostics.
pub struct StepExecutor {
    pub step: Step,
    pub api_key: String,
    pub phase: Phase,
    pub attempt: usize,
    pub trimmed_code: String,
    pub code_attempts: Vec<String>,
    pub logs: Vec<String>,
    pub passing_responses: Vec<String>,
}

impl StepExecutor {
    /// The machine's invariant: the attempt count stays inside the budget,
    /// and the history vectors grow in lockstep with the phases — one
    /// candidate per attempt, the logs one entry behind until the exerciser
    /// reported, the verdicts one entry behind until the judge answered.
    pub open spec fn wf(self) -> bool {
        &&& self.attempt <= MAX_ATTEMPTS
        &&& self.code_attempts@.len() <= MAX_ATTEMPTS
        &&& self.logs@.len() <= MAX_ATTEMPTS
        &&& self.passing_responses@.len() <= MAX_ATTEMPTS
        &&& match self.phase {
            Phase::Generating => self.attempt == 0 && self.code_attempts@.len() == 0
                && self.logs@.len() == 0 && self.passing_responses@.len() == 0,
            Phase::Extracting | Phase::Patching | Phase::Pausing => 1 <= self.attempt
                && self.code_attempts@.len() == self.attempt && self.logs@.len() == self.attempt
                - 1 && self.passing_responses@.len() == self.attempt - 1,
            Phase::Exercising => 1 <= self.attempt && self.code_attempts@.len() == self.attempt
                && self.logs@.len() == self.attempt - 1 && self.passing_responses@.len()
                == self.attempt - 1 && self.step.test_path is Some,
            Phase::Judging => 1 <= self.attempt && self.code_attempts@.len() == self.attempt
                && self.logs@.len() == self.attempt && self.passing_responses@.len()
                == self.attempt - 1,
            Phase::Passed => true,
            Phase::Failed(_) => true,
        }
    }

    /// The step has ended, for success or not.
    pub open spec fn spec_is_done(self) -> bool {
        match self.phase {
            Phase::Passed | Phase::Failed(_) => true,
            _ => false,
        }
    }

    pub fn is_done(&self) -> (r: bool)
        ensures
            r == self.spec_is_done(),
    {
        match self.phase {
            Phase::Passed | Phase::Failed(_) => true,
            _ => false,
        }
    }

    /// The event answers the operation the current phase asked for.
    pub open spec fn event_fits(self, ev: StepEvent) -> bool {
        match ev {
            StepEvent::Generated { .. } | StepEvent::GenerationFailed => self.phase
                == Phase::Generating,
            StepEvent::Extracted { .. } | StepEvent::ExtractionFailed => self.phase
                == Phase::Extracting,
            StepEvent::Patched | StepEvent::PatchFailed => self.phase == Phase::Patching,
            StepEvent::Delayed => self.phase == Phase::Pausing,
            StepEvent::Logs { .. } | StepEvent::LogsFailed => self.phase == Phase::Exercising,
            StepEvent::Verdict { .. } | StepEvent::VerdictFailed => self.phase == Phase::Judging,
        }
    }

    /// Begins a step. A missing credential is fatal here, before any
    /// outside request is so much as named.
    pub fn new(step: Step, api_key: Option<String>) -> (r: Result<StepExecutor, StepError>)
        ensures
            api_key is None ==> r == Result::<StepExecutor, StepError>::Err(
                StepError::MissingCredential,
            ),
            api_key matches Some(k) ==> (r matches Ok(e) && e.wf() && e.phase == Phase::Generating
                && e.attempt == 0 && e.step == step && e.api_key == k && e.code_attempts@.len()
                == 0 && e.logs@.len() == 0 && e.passing_responses@.len() == 0),
    {
        match api_key {
            None => Err(StepError::MissingCredential),
            Some(k) => Ok(
                StepExecutor {
                    step,
                    api_key: k,
                    phase: Phase::Generating,
                    attempt: 0,
                    trimmed_code: String::new(),
                    code_attempts: Vec::new(),
                    logs: Vec::new(),
                    passing_responses: Vec::new(),
                },
            ),
        }
    }

    /// Names the outside operation the current state asks for, with its
    /// exact payload: the rendered prompts, the candidate to extract, the
    /// code to patch, the exerciser identifier with its lowercased display
    /// flag, or the final report.
    pub fn next_action(&self) -> (r: StepAction)
        requires
            self.wf(),
        ensures
            ({
                match self.phase {
                    Phase::Generating => r matches StepAction::RequestGeneration {
                        prompt,
                        api_key,
                    } && prompt@ == generation_prompt(self.step) && api_key@ == self.api_key@,
                    Phase::Extracting => r matches StepAction::RequestExtraction { raw } && raw@
                        == self.code_attempts.deep_view().last(),
                    Phase::Patching => r matches StepAction::ApplyPatch { code } && code@
                        == self.trimmed_code@,
                    Phase::Pausing => r is Delay,
                    Phase::Exercising => r matches StepAction::RequestLogs {
                        test_path,
                        show_html,
                    } && (self.step.test_path matches Some(tp) && test_path@ == tp@) && show_html@
                        == lower_of(self.step.show_html@),
                    Phase::Judging => r matches StepAction::RequestVerdict { prompt, api_key }
                        && prompt@ == verdict_prompt(
                        self.trimmed_code@,
                        generation_prompt(self.step),
                        self.logs.deep_view().last(),
                        self.step.target@,
                    ) && api_key@ == self.api_key@,
                    Phase::Passed => r is ReportSuccess,
                    Phase::Failed(e) => r matches StepAction::ReportFailure { error } && error
                        == e,
                }
            }),
    {
        match self.phase {
            Phase::Generating => StepAction::RequestGeneration {
                prompt: get_prompt(&self.step),
                api_key: self.api_key.clone(),
            },
            Phase::Extracting => {
                let idx = self.code_attempts.len() - 1;
                let raw = self.code_attempts[idx].clone();
                proof {
                    assert(self.code_attempts.deep_view().len() == self.code_attempts@.len());
                    assert(self.code_attempts.deep_view().last() == self.code_attempts@[idx as int]@);
                }
                StepAction::RequestExtraction { raw }
            },
            Phase::Patching => StepAction::ApplyPatch { code: self.trimmed_code.clone() },
            Phase::Pausing => StepAction::Delay,
            Phase::Exercising => {
                let tp = self.step.test_path.as_ref().unwrap().clone();
                StepAction::RequestLogs {
                    test_path: tp,
                    show_html: lowercase(self.step.show_html.as_str()),
                }
            },
            Phase::Judging => {
                let idx = self.logs.len() - 1;
                proof {
                    assert(self.logs.deep_view().len() == self.logs@.len());
                    assert(self.logs.deep_view().last() == self.logs@[idx as int]@);
                }
                let user_prompt = get_prompt(&self.step);
                let prompt = get_passing_prompt(
                    self.trimmed_code.as_str(),
                    user_prompt.as_str(),
                    self.logs[idx].as_str(),
                    self.step.target.as_str(),
                );
                StepAction::RequestVerdict { prompt, api_key: self.api_key.clone() }
            },
            Phase::Passed => StepAction::ReportSuccess,
            Phase::Failed(e) => StepAction::ReportFailure { error: e },
        }
    }

    /// Everything a terminal failure leaves unchanged.
    pub open spec fn fails_to(pre: StepExecutor, post: StepExecutor, e: StepError) -> bool {
        &&& post.phase == Phase::Failed(e)
        &&& post.attempt == pre.attempt
        &&& post.trimmed_code == pre.trimmed_code
        &&& post.code_attempts == pre.code_attempts
        &&& post.logs == pre.logs
        &&& post.passing_responses == pre.passing_responses
    }

    /// The machine's whole transition relation: what one event does to the
    /// state. The clauses follow the loop: the initial response opens
    /// attempt one; extraction or patch failures are fatal; the pause leads
    /// to the exerciser when the step names a test, else straight to the
    /// judge with empty logs; a failed exerciser degrades to empty logs; a
    /// passing verdict ends the step, a failing one within the budget seeds
    /// the next attempt with the verdict text itself, and a failing one at
    /// the budget's edge exhausts the step.
    pub open spec fn step_transition(pre: StepExecutor, ev: StepEvent, post: StepExecutor) -> bool {
        &&& post.step == pre.step
        &&& post.api_key == pre.api_key
        &&& match ev {
            StepEvent::Generated { text } => {
                &&& pre.phase == Phase::Generating
                &&& post.phase == Phase::Extracting
                &&& post.attempt == 1
                &&& post.code_attempts.deep_view() == pre.code_attempts.deep_view().push(text@)
                &&& post.logs == pre.logs
                &&& post.passing_responses == pre.passing_responses
                &&& post.trimmed_code == pre.trimmed_code
            },
            StepEvent::GenerationFailed => pre.phase == Phase::Generating && Self::fails_to(
                pre,
                post,
                StepError::GenerationFailed,
            ),
            StepEvent::Extracted { code } => {
                &&& pre.phase == Phase::Extracting
                &&& post.phase == Phase::Patching
                &&& post.trimmed_code == code
                &&& post.attempt == pre.attempt
                &&& post.code_attempts == pre.code_attempts
                &&& post.logs == pre.logs
                &&& post.passing_responses == pre.passing_responses
            },
            StepEvent::ExtractionFailed => pre.phase == Phase::Extracting && Self::fails_to(
                pre,
                post,
                StepError::ExtractionFailed,
            ),
            StepEvent::Patched => {
                &&& pre.phase == Phase::Patching
                &&& post.phase == Phase::Pausing
                &&& post.attempt == pre.attempt
                &&& post.trimmed_code == pre.trimmed_code
                &&& post.code_attempts == pre.code_attempts
                &&& post.logs == pre.logs
                &&& post.passing_responses == pre.passing_responses
            },
            StepEvent::PatchFailed => pre.phase == Phase::Patching && Self::fails_to(
                pre,
                post,
                StepError::PatchFailed,
            ),
            StepEvent::Delayed => {
                &&& pre.phase == Phase::Pausing
                &&& post.attempt == pre.attempt
                &&& post.trimmed_code == pre.trimmed_code
                &&& post.code_attempts == pre.code_attempts
                &&& post.passing_responses == pre.passing_responses
                &&& match pre.step.test_path {
                    Some(_) => post.phase == Phase::Exercising && post.logs == pre.logs,
                    None => post.phase == Phase::Judging && post.logs.deep_view()
                        == pre.logs.deep_view().push(Seq::<char>::empty()),
                }
            },
            StepEvent::Logs { text } => {
                &&& pre.phase == Phase::Exercising
                &&& post.phase == Phase::Judging
                &&& post.logs.deep_view() == pre.logs.deep_view().push(text@)
                &&& post.attempt == pre.attempt
                &&& post.trimmed_code == pre.trimmed_code
                &&& post.code_attempts == pre.code_attempts
                &&& post.passing_responses == pre.passing_responses
            },
            StepEvent::LogsFailed => {
                &&& pre.phase == Phase::Exercising
                &&& post.phase == Phase::Judging
                &&& post.logs.deep_view() == pre.logs.deep_view().push(Seq::<char>::empty())
                &&& post.attempt == pre.attempt
                &&& post.trimmed_code == pre.trimmed_code
                &&& post.code_attempts == pre.code_attempts
                &&& post.passing_responses == pre.passing_responses
            },
            StepEvent::Verdict { text } => {
                &&& pre.phase == Phase::Judging
                &&& post.passing_responses.deep_view() == pre.passing_responses.deep_view().push(
                    text@,
                )
                &&& post.logs == pre.logs
                &&& post.trimmed_code == pre.trimmed_code
                &&& if contains_yes(text@) {
                    &&& post.phase == Phase::Passed
                    &&& post.attempt == pre.attempt
                    &&& post.code_attempts == pre.code_attempts
                } else if pre.attempt >= MAX_ATTEMPTS {
                    &&& post.phase == Phase::Failed(StepError::Exhausted)
                    &&& post.attempt == pre.attempt
                    &&& post.code_attempts == pre.code_attempts
                } else {
                    &&& post.phase == Phase::Extracting
                    &&& post.attempt == pre.attempt + 1
                    &&& post.code_attempts.deep_view() == pre.code_attempts.deep_view().push(
                        text@,
                    )
                }
            },
            StepEvent::VerdictFailed => pre.phase == Phase::Judging && Self::fails_to(
                pre,
                post,
                StepError::GenerationFailed,
            ),
        }
    }

    /// Consumes the outcome of the operation the current state asked for
    /// and moves the machine one transition.
    pub fn on_event(&mut self, ev: StepEvent)
        requires
            old(self).wf(),
            !old(self).spec_is_done(),
            old(self).event_fits(ev),
        ensures
            final(self).wf(),
            Self::step_transition(*old(self), ev, *final(self)),
    {
        match ev {
            StepEvent::Generated { text } => {
                let ghost t = text@;
                let ghost pre_ca = self.code_attempts.deep_view();
                self.code_attempts.push(text);
                proof {
                    assert(self.code_attempts.deep_view() =~= pre_ca.push(t));
                }
                self.attempt = 1;
                self.phase = Phase::Extracting;
            },
            StepEvent::GenerationFailed => {
                self.phase = Phase::Failed(StepError::GenerationFailed);
            },
            StepEvent::Extracted { code } => {
                self.trimmed_code = code;
                self.phase = Phase::Patching;
            },
            StepEvent::ExtractionFailed => {
                self.phase = Phase::Failed(StepError::ExtractionFailed);
            },
            StepEvent::Patched => {
                self.phase = Phase::Pausing;
            },
            StepEvent::PatchFailed => {
                self.phase = Phase::Failed(StepError::PatchFailed);
            },
            StepEvent::Delayed => {
                if self.step.test_path.is_some() {
                    self.phase = Phase::Exercising;
                } else {
                    let ghost pre_l = self.logs.deep_view();
                    self.logs.push(String::new());
                    proof {
                        assert(self.logs.deep_view() =~= pre_l.push(Seq::<char>::empty()));
                    }
                    self.phase = Phase::Judging;
                }
            },
            StepEvent::Logs { text } => {
                let ghost t = text@;
                let ghost pre_l = self.logs.deep_view();
                self.logs.push(text);
                proof {
                    assert(self.logs.deep_view() =~= pre_l.push(t));
                }
                self.phase = Phase::Judging;
            },
            StepEvent::LogsFailed => {
                let ghost pre_l = self.logs.deep_view();
                self.logs.push(String::new());
                proof {
                    assert(self.logs.deep_view() =~= pre_l.push(Seq::<char>::empty()));
                }
                self.phase = Phase::Judging;
            },
            StepEvent::Verdict { text } => {
                let ghost t = text@;
                let ghost pre_pr = self.passing_responses.deep_view();
                let ghost pre_ca = self.code_attempts.deep_view();
                let passing = is_passing(text.as_str());
                self.passing_responses.push(text.clone());
                proof {
                    assert(self.passing_responses.deep_view() =~= pre_pr.push(t));
                }
                if passing {
                    self.phase = Phase::Passed;
                } else if self.attempt >= MAX_ATTEMPTS {
                    self.phase = Phase::Failed(StepError::Exhausted);
                } else {
                    self.attempt = self.attempt + 1;
                    self.code_attempts.push(text);
                    proof {
                        assert(self.code_attempts.deep_view() =~= pre_ca.push(t));
                    }
                    self.phase = Phase::Extracting;
                }
            },
            StepEvent::VerdictFailed => {
                self.phase = Phase::Failed(StepError::GenerationFailed);
            },
        }
    }
}

/// The retry budget, as a law over the machine itself: a transition from a
/// well-formed state keeps the state well-formed, and no state ever records
/// more than the budget's worth of attempts, candidates or verdicts — so no
/// run of the machine performs a fourth attempt.
pub proof fn lemma_attempts_never_exceed_budget(
    pre: StepExecutor,
    ev: StepEvent,
    post: StepExecutor,
)
    requires
        pre.wf(),
        StepExecutor::step_transition(pre, ev, post),
    ensures
        post.wf(),
        post.attempt <= MAX_ATTEMPTS,
        post.code_attempts@.len() <= MAX_ATTEMPTS,
        post.passing_responses@.len() <= MAX_ATTEMPTS,
{
    assert(post.code_attempts@.len() == post.code_attempts.deep_view().len());
    assert(post.logs@.len() == post.logs.deep_view().len());
    assert(post.passing_responses@.len() == post.passing_responses.deep_view().len());
    assert(pre.code_attempts@.len() == pre.code_attempts.deep_view().len());
    assert(pre.logs@.len() == pre.logs.deep_view().len());
    assert(pre.passing_responses@.len() == pre.passing_responses.deep_view().len());
}

/// Terminal states are final: no event relates a finished step to any
/// further state, so a step that passed or failed never moves again and
/// success or exhaustion is final for it.
pub proof fn lemma_terminal_states_are_final(pre: StepExecutor, ev: StepEvent, post: StepExecutor)
    requires
        StepExecutor::step_transition(pre, ev, post),
    ensures
        !pre.spec_is_done(),
{
}

/// The budget over a whole run: along any chain of states linked by the
/// transition relation from a well-formed start, every state stays
/// well-formed and within the attempt budget — no run of the machine
/// reaches a fourth attempt.
pub proof fn lemma_run_stays_within_budget(
    states: Seq<StepExecutor>,
    events: Seq<StepEvent>,
    i: int,
)
    requires
        states.len() == events.len() + 1,
        states[0].wf(),
        forall|k: int|
            0 <= k < events.len() ==> StepExecutor::step_transition(
                states[k],
                events[k],
                states[k + 1],
            ),
        0 <= i < states.len(),
    ensures
        states[i].wf(),
        states[i].attempt <= MAX_ATTEMPTS,
    decreases i,
{
    if i > 0 {
        lemma_run_stays_within_budget(states, events, i - 1);
        lemma_attempts_never_exceed_budget(states[i - 1], events[i - 1], states[i]);
    }
}

/// The initial generation request happens once: no transition leads back
/// to the generating state, so a step asks the generation service for a
/// fresh candidate only before its first attempt — every later candidate
/// is a verdict response reused.
pub proof fn lemma_single_initial_generation(pre: StepExecutor, ev: StepEvent, post: StepExecutor)
    requires
        StepExecutor::step_transition(pre, ev, post),
    ensures
        post.phase != Phase::Generating,
{
}

/// An affirmative verdict ends the step at once: whatever the attempt
/// number, a verdict text holding the token moves the machine to its
/// succeeded state, and no later attempt is begun.
pub proof fn lemma_stops_on_passing_verdict(pre: StepExecutor, text: String, post: StepExecutor)
    requires
        pre.wf(),
        contains_yes(text@),
        StepExecutor::step_transition(pre, StepEvent::Verdict { text }, post),
    ensures
        post.phase == Phase::Passed,
{
}

} // verus!
