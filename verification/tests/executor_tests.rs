use autocode::executor::{Phase, StepAction, StepError, StepEvent, StepExecutor};
use autocode::feature::{FileRef, Step};
use autocode::patch::{plan_patch, PatchPlan};

fn forty_lines() -> String {
    "console.log('line');\n".repeat(40)
}

fn sample_step(test_path: Option<&str>) -> Step {
    Step {
        description: "add a getter".to_string(),
        target: "utils.js".to_string(),
        test_path: test_path.map(|s| s.to_string()),
        show_html: "False".to_string(),
        files: vec![FileRef {
            file_name: "utils.js".to_string(),
            file_path: "src/utils.js".to_string(),
            file_contents: Some(forty_lines()),
            is_target: true,
        }],
    }
}

#[test]
fn missing_credential_fails_before_any_request() {
    // No credential: the constructor already refuses, so no action naming a
    // network request is ever produced.
    let r = StepExecutor::new(sample_step(Some("tests/utils.test.js")), None);
    match r {
        Err(e) => assert_eq!(e, StepError::MissingCredential),
        Ok(_) => panic!("a step without a credential must not start"),
    }
}

#[test]
fn passes_on_first_attempt_with_logs() {
    // The whole loop, one attempt: generation, extraction, patch, pause,
    // exerciser, passing verdict.
    let step = sample_step(Some("tests/utils.test.js"));
    let mut ex = StepExecutor::new(step, Some("test-api-key".to_string())).unwrap();

    let prompt = match ex.next_action() {
        StepAction::RequestGeneration { prompt, api_key } => {
            assert_eq!(api_key, "test-api-key");
            prompt
        }
        other => panic!("expected a generation request, got {:?}", other),
    };
    assert!(prompt.starts_with("Could you write a new utils.js"));

    let raw_response = "Sure!\n".to_string() + &"console.log('line');\n".repeat(45);
    ex.on_event(StepEvent::Generated { text: raw_response.clone() });

    match ex.next_action() {
        StepAction::RequestExtraction { raw } => assert_eq!(raw, raw_response),
        other => panic!("expected an extraction request, got {:?}", other),
    }
    let code = "console.log('line');\n".repeat(45);
    ex.on_event(StepEvent::Extracted { code: code.clone() });

    match ex.next_action() {
        StepAction::ApplyPatch { code: c } => {
            assert_eq!(c, code);
            // 45 candidate lines against 40 existing: the policy replaces.
            assert_eq!(plan_patch(&forty_lines(), &c), PatchPlan::Replace);
        }
        other => panic!("expected a patch, got {:?}", other),
    }
    ex.on_event(StepEvent::Patched);

    assert!(matches!(ex.next_action(), StepAction::Delay));
    ex.on_event(StepEvent::Delayed);

    match ex.next_action() {
        StepAction::RequestLogs { test_path, show_html } => {
            assert_eq!(test_path, "tests/utils.test.js");
            // The display flag is lowercased on its way out.
            assert_eq!(show_html, "false");
        }
        other => panic!("expected an exerciser run, got {:?}", other),
    }
    ex.on_event(StepEvent::Logs { text: "line\nline\n".to_string() });

    match ex.next_action() {
        StepAction::RequestVerdict { prompt, .. } => {
            // The verdict prompt carries the captured logs verbatim.
            assert!(prompt.contains("Console logs:\nline\nline\n\n[end of logs]"));
            assert!(prompt.contains("add a getter"));
        }
        other => panic!("expected a verdict request, got {:?}", other),
    }
    ex.on_event(StepEvent::Verdict { text: "Yes, this looks correct".to_string() });

    assert_eq!(ex.phase, Phase::Passed);
    assert!(ex.is_done());
    assert!(matches!(ex.next_action(), StepAction::ReportSuccess));
    assert_eq!(ex.attempt, 1);
    assert_eq!(ex.code_attempts.len(), 1);
    assert_eq!(ex.logs.len(), 1);
    assert_eq!(ex.passing_responses.len(), 1);
}

#[test]
fn short_candidate_takes_merge_branch() {
    // Same step, but the model answers with only ten lines against forty
    // existing: the patch policy merges instead of overwriting.
    let step = sample_step(Some("tests/utils.test.js"));
    let mut ex = StepExecutor::new(step, Some("test-api-key".to_string())).unwrap();
    let short = "function getter() { return 1; }\n".repeat(10);
    ex.on_event(StepEvent::Generated { text: short.clone() });
    ex.on_event(StepEvent::Extracted { code: short.clone() });
    match ex.next_action() {
        StepAction::ApplyPatch { code } => {
            assert_eq!(plan_patch(&forty_lines(), &code), PatchPlan::Merge);
        }
        other => panic!("expected a patch, got {:?}", other),
    }
}

#[test]
fn exhausts_after_three_attempts() {
    let step = sample_step(Some("tests/utils.test.js"));
    let mut ex = StepExecutor::new(step, Some("test-api-key".to_string())).unwrap();
    ex.on_event(StepEvent::Generated { text: "first raw".to_string() });
    for attempt in 1..=3usize {
        assert_eq!(ex.attempt, attempt);
        ex.on_event(StepEvent::Extracted { code: format!("code {}", attempt) });
        ex.on_event(StepEvent::Patched);
        ex.on_event(StepEvent::Delayed);
        ex.on_event(StepEvent::Logs { text: format!("logs {}", attempt) });
        ex.on_event(StepEvent::Verdict { text: format!("no, broken at {}", attempt) });
    }
    assert_eq!(ex.phase, Phase::Failed(StepError::Exhausted));
    assert!(ex.is_done());
    match ex.next_action() {
        StepAction::ReportFailure { error } => assert_eq!(error, StepError::Exhausted),
        other => panic!("expected a failure report, got {:?}", other),
    }
    // Never a fourth attempt: exactly three candidates, three log captures,
    // three verdicts were recorded.
    assert_eq!(ex.attempt, 3);
    assert_eq!(ex.code_attempts.len(), 3);
    assert_eq!(ex.logs.len(), 3);
    assert_eq!(ex.passing_responses.len(), 3);
    // A failing verdict's text doubles as the next attempt's candidate.
    assert_eq!(ex.code_attempts[1], "no, broken at 1");
    assert_eq!(ex.code_attempts[2], "no, broken at 2");
    // The diagnostic report covers every attempt.
    let report = autocode::debug::get_debug_details(
        &ex.trimmed_code,
        &ex.code_attempts,
        &ex.logs,
        &ex.passing_responses,
    );
    assert!(report.starts_with("Unable to generate properly working code. Debugging details:"));
    assert!(report.contains("ChatGPT Response 3:\nno, broken at 2"));
}

#[test]
fn stops_at_second_attempt_when_it_passes() {
    let step = sample_step(Some("tests/utils.test.js"));
    let mut ex = StepExecutor::new(step, Some("test-api-key".to_string())).unwrap();
    ex.on_event(StepEvent::Generated { text: "first raw".to_string() });
    ex.on_event(StepEvent::Extracted { code: "code 1".to_string() });
    ex.on_event(StepEvent::Patched);
    ex.on_event(StepEvent::Delayed);
    ex.on_event(StepEvent::Logs { text: String::new() });
    ex.on_event(StepEvent::Verdict { text: "no: nothing ran".to_string() });
    assert_eq!(ex.attempt, 2);
    ex.on_event(StepEvent::Extracted { code: "code 2".to_string() });
    ex.on_event(StepEvent::Patched);
    ex.on_event(StepEvent::Delayed);
    ex.on_event(StepEvent::Logs { text: "it ran".to_string() });
    ex.on_event(StepEvent::Verdict { text: "Yes, fixed".to_string() });
    assert_eq!(ex.phase, Phase::Passed);
    assert_eq!(ex.attempt, 2);
    assert_eq!(ex.passing_responses.len(), 2);
}

#[test]
fn step_without_test_path_judges_on_empty_logs() {
    let step = sample_step(None);
    let mut ex = StepExecutor::new(step, Some("test-api-key".to_string())).unwrap();
    ex.on_event(StepEvent::Generated { text: "raw".to_string() });
    ex.on_event(StepEvent::Extracted { code: "code".to_string() });
    ex.on_event(StepEvent::Patched);
    ex.on_event(StepEvent::Delayed);
    // No exerciser run: the machine goes straight to judging with an empty
    // log entry, and the verdict prompt shows the placeholder.
    assert_eq!(ex.logs, vec![String::new()]);
    match ex.next_action() {
        StepAction::RequestVerdict { prompt, .. } => {
            assert!(prompt.contains("Console logs:\n[no console log output was produced]\n"));
        }
        other => panic!("expected a verdict request, got {:?}", other),
    }
}

#[test]
fn exerciser_failure_degrades_to_empty_logs() {
    let step = sample_step(Some("tests/utils.test.js"));
    let mut ex = StepExecutor::new(step, Some("test-api-key".to_string())).unwrap();
    ex.on_event(StepEvent::Generated { text: "raw".to_string() });
    ex.on_event(StepEvent::Extracted { code: "code".to_string() });
    ex.on_event(StepEvent::Patched);
    ex.on_event(StepEvent::Delayed);
    ex.on_event(StepEvent::LogsFailed);
    assert_eq!(ex.phase, Phase::Judging);
    assert_eq!(ex.logs, vec![String::new()]);
}

#[test]
fn extraction_failure_is_fatal() {
    let step = sample_step(Some("tests/utils.test.js"));
    let mut ex = StepExecutor::new(step, Some("test-api-key".to_string())).unwrap();
    ex.on_event(StepEvent::Generated { text: "raw".to_string() });
    ex.on_event(StepEvent::ExtractionFailed);
    assert_eq!(ex.phase, Phase::Failed(StepError::ExtractionFailed));
    assert!(ex.is_done());
}

#[test]
fn generation_failure_is_fatal() {
    let step = sample_step(Some("tests/utils.test.js"));
    let mut ex = StepExecutor::new(step, Some("test-api-key".to_string())).unwrap();
    ex.on_event(StepEvent::GenerationFailed);
    assert_eq!(ex.phase, Phase::Failed(StepError::GenerationFailed));
}

#[test]
fn verdict_service_failure_is_fatal() {
    let step = sample_step(Some("tests/utils.test.js"));
    let mut ex = StepExecutor::new(step, Some("test-api-key".to_string())).unwrap();
    ex.on_event(StepEvent::Generated { text: "raw".to_string() });
    ex.on_event(StepEvent::Extracted { code: "code".to_string() });
    ex.on_event(StepEvent::Patched);
    ex.on_event(StepEvent::Delayed);
    ex.on_event(StepEvent::Logs { text: "ran".to_string() });
    ex.on_event(StepEvent::VerdictFailed);
    assert_eq!(ex.phase, Phase::Failed(StepError::GenerationFailed));
}

#[test]
fn patch_failure_is_fatal() {
    let step = sample_step(Some("tests/utils.test.js"));
    let mut ex = StepExecutor::new(step, Some("test-api-key".to_string())).unwrap();
    ex.on_event(StepEvent::Generated { text: "raw".to_string() });
    ex.on_event(StepEvent::Extracted { code: "code".to_string() });
    ex.on_event(StepEvent::PatchFailed);
    assert_eq!(ex.phase, Phase::Failed(StepError::PatchFailed));
}
