use autocode::runner::{FeatureRunner, RunStatus};

#[test]
fn stops_at_first_failing_step() {
    // Steps pass, fail, pass: the third must never become current, and the
    // overall result is failure.
    let mut runner = FeatureRunner::new(3);
    assert_eq!(runner.current_step(), Some(0));
    runner.on_step_result(true);
    assert_eq!(runner.current_step(), Some(1));
    runner.on_step_result(false);
    assert_eq!(runner.status, RunStatus::Failed);
    assert_eq!(runner.current_step(), None);
    assert_eq!(runner.next, 2);
}

#[test]
fn succeeds_when_every_step_passes() {
    let mut runner = FeatureRunner::new(3);
    runner.on_step_result(true);
    runner.on_step_result(true);
    assert_eq!(runner.status, RunStatus::Running);
    runner.on_step_result(true);
    assert_eq!(runner.status, RunStatus::Succeeded);
    assert_eq!(runner.current_step(), None);
    assert_eq!(runner.next, 3);
}

#[test]
fn empty_run_succeeds_at_once() {
    let runner = FeatureRunner::new(0);
    assert_eq!(runner.status, RunStatus::Succeeded);
    assert_eq!(runner.current_step(), None);
}

#[test]
fn first_step_failure_ends_the_run() {
    let mut runner = FeatureRunner::new(2);
    runner.on_step_result(false);
    assert_eq!(runner.status, RunStatus::Failed);
    assert_eq!(runner.next, 1);
}
