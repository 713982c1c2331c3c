//! The patch-application policy: whether a newly generated artifact replaces
//! the target file wholly or is merged into it function by function.
//!
//! Generated responses vary in completeness. A cheap size heuristic tells
//! "the model echoed only the changed function" from "the model re-emitted
//! the whole file": a candidate shorter than half the existing text is
//! treated as a partial update and handed to the function-merge service;
//! anything else overwrites the file verbatim.

use vstd::prelude::*;

verus! {

/// How a generated artifact is to be written into the target file.
#[derive(Clone, Copy, Debug, PartialEq, Eq, Structural)]
pub enum PatchPlan {
    /// Write the candidate text verbatim over the whole file.
    Replace,
    /// Hand existing and candidate text to the function-merge service and
    /// write its result; the raw candidate is never written in this case.
    Merge,
}

/// What the write did to the target file, for observability.
#[derive(Clone, Copy, Debug, PartialEq, Eq, Structural)]
pub enum WriteOutcome {
    /// The file had no content before (missing or empty).
    Created,
    /// The file held content that the write changed.
    Modified,
}

/// Newlines in `s`.
pub open spec fn newline_count(s: Seq<char>) -> nat
    decreases s.len(),
{
    if s.len() == 0 {
        0
    } else {
        newline_count(s.drop_last()) + (if s.last() == '\n' {
            1nat
        } else {
            0
        })
    }
}

/// Lines of `s`, as the standard line iterator counts them: empty text has
/// no line, and a trailing newline closes the last line rather than opening
/// an empty one.
pub open spec fn line_count(s: Seq<char>) -> nat {
    if s.len() == 0 {
        0
    } else {
        newline_count(s.drop_last()) + 1
    }
}

/// The policy itself: a candidate under half the existing line count is a
/// partial update to merge; anything else replaces the file.
pub open spec fn patch_decision(existing: Seq<char>, new_text: Seq<char>) -> PatchPlan {
    if line_count(new_text) < line_count(existing) / 2 {
        PatchPlan::Merge
    } else {
        PatchPlan::Replace
    }
}

/// Counts the lines of `s` as the standard line iterator would.
pub fn count_lines(s: &str) -> (r: usize)
    ensures
        r == line_count(s@),
{
    let n = s.unicode_len();
    if n == 0 {
        return 0;
    }
    let mut count: usize = 0;
    let mut i: usize = 0;
    while i < n - 1
        invariant
            1 <= n == s@.len(),
            i <= n - 1,
            count <= i,
            count == newline_count(s@.subrange(0, i as int)),
        decreases n - i,
    {
        let c = s.get_char(i);
        proof {
            assert(s@.subrange(0, i + 1).drop_last() =~= s@.subrange(0, i as int));
            assert(s@.subrange(0, i + 1).last() == s@[i as int]);
        }
        if c == '\n' {
            count = count + 1;
        }
        i = i + 1;
    }
    proof {
        assert(s@.subrange(0, n - 1) =~= s@.drop_last());
    }
    count + 1
}

/// Decides how to apply a generated artifact to the target file, from the
/// file's existing content (empty when the file is missing) and the
/// candidate text.
pub fn plan_patch(existing: &str, new_text: &str) -> (r: PatchPlan)
    ensures
        r == patch_decision(existing@, new_text@),
{
    let new_lines = count_lines(new_text);
    let existing_lines = count_lines(existing);
    if new_lines < existing_lines / 2 {
        PatchPlan::Merge
    } else {
        PatchPlan::Replace
    }
}

/// Reports whether the write created the target file or modified it, from
/// the content the file had before.
pub fn write_outcome(existing: &str) -> (r: WriteOutcome)
    ensures
        r == (if existing@.len() == 0 {
            WriteOutcome::Created
        } else {
            WriteOutcome::Modified
        }),
{
    if existing.is_empty() {
        WriteOutcome::Created
    } else {
        WriteOutcome::Modified
    }
}

/// The size policy, both directions: a candidate at least half as long as
/// the existing text replaces it wholly, a shorter one is merged, and the
/// raw candidate is never the planned write in the partial case.
pub proof fn lemma_patch_policy(existing: Seq<char>, new_text: Seq<char>)
    ensures
        patch_decision(existing, new_text) == PatchPlan::Merge <==> line_count(new_text)
            < line_count(existing) / 2,
        patch_decision(existing, new_text) == PatchPlan::Replace <==> line_count(new_text)
            >= line_count(existing) / 2,
{
}

/// A missing target file reads as empty content, and empty content has no
/// lines, so any candidate at all — even an empty one — takes the
/// full-replacement branch.
pub proof fn lemma_empty_existing_replaces(existing: Seq<char>, new_text: Seq<char>)
    requires
        line_count(existing) == 0,
    ensures
        patch_decision(existing, new_text) == PatchPlan::Replace,
{
}

} // verus!
