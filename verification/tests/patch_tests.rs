use autocode::patch::{count_lines, plan_patch, write_outcome, PatchPlan, WriteOutcome};

#[test]
fn line_counts_match_std_lines() {
    let cases = ["", "a", "a\n", "a\nb", "\n", "a\n\nb", "one\ntwo\nthree\n"];
    for text in cases {
        assert_eq!(count_lines(text), text.lines().count(), "text {:?}", text);
    }
}

#[test]
fn full_overwrite_when_at_least_half() {
    // 45 new lines against 40 existing: 45 >= 40 / 2, so replace wholly.
    let existing = "old line\n".repeat(40);
    let candidate = "new line\n".repeat(45);
    assert_eq!(plan_patch(&existing, &candidate), PatchPlan::Replace);
}

#[test]
fn merge_when_under_half() {
    // 10 new lines against 40 existing: 10 < 20, so merge instead of
    // writing the raw candidate.
    let existing = "old line\n".repeat(40);
    let candidate = "new line\n".repeat(10);
    assert_eq!(plan_patch(&existing, &candidate), PatchPlan::Merge);
}

#[test]
fn boundary_exactly_half_replaces() {
    let existing = "old line\n".repeat(40);
    let candidate = "new line\n".repeat(20);
    assert_eq!(plan_patch(&existing, &candidate), PatchPlan::Replace);
}

#[test]
fn just_under_half_merges() {
    let existing = "old line\n".repeat(40);
    let candidate = "new line\n".repeat(19);
    assert_eq!(plan_patch(&existing, &candidate), PatchPlan::Merge);
}

#[test]
fn empty_existing_always_replaces() {
    // A missing target file reads as empty content, which has zero lines;
    // every candidate then takes the full-overwrite branch.
    assert_eq!(plan_patch("", "anything\n"), PatchPlan::Replace);
    assert_eq!(plan_patch("", ""), PatchPlan::Replace);
    assert_eq!(plan_patch("", &"x\n".repeat(100)), PatchPlan::Replace);
}

#[test]
fn outcome_created_or_modified() {
    assert_eq!(write_outcome(""), WriteOutcome::Created);
    assert_eq!(write_outcome("existing text"), WriteOutcome::Modified);
}
