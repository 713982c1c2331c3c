//! The data a step of work is made of: the change description, the target
//! artifact, and the supporting file context handed to the prompt builder.

use vstd::prelude::*;

verus! {

/// One file that gives a step its context. `file_contents` is filled from
/// the filesystem right before prompt construction; a missing file is
/// tolerated and leaves it absent. Exactly one file of a step should carry
/// `is_target`: that is the artifact the patch policy writes to.
#[derive(Clone, Debug)]
pub struct FileRef {
    pub file_name: String,
    pub file_path: String,
    pub file_contents: Option<String>,
    pub is_target: bool,
}

/// One unit of change work: a natural-language description of the intended
/// modification, the name of the artifact to produce, the identifier the
/// exerciser runs (when there is one), the exerciser's display flag, and the
/// ordered file context.
#[derive(Clone, Debug)]
pub struct Step {
    pub description: String,
    pub target: String,
    pub test_path: Option<String>,
    pub show_html: String,
    pub files: Vec<FileRef>,
}

/// The position of the first file marked as the target, if any.
pub open spec fn first_target(files: Seq<FileRef>) -> Option<int>
    decreases files.len(),
{
    if files.len() == 0 {
        None
    } else if files[0].is_target {
        Some(0)
    } else {
        match first_target(files.drop_first()) {
            Some(i) => Some(i + 1),
            None => None,
        }
    }
}

proof fn lemma_first_target_at(files: Seq<FileRef>, i: int)
    requires
        0 <= i < files.len(),
        files[i].is_target,
        forall|j: int| 0 <= j < i ==> !files[j].is_target,
    ensures
        first_target(files) == Some(i),
    decreases i,
{
    if i > 0 {
        lemma_first_target_at(files.drop_first(), i - 1);
    }
}

proof fn lemma_first_target_none(files: Seq<FileRef>)
    requires
        forall|j: int| 0 <= j < files.len() ==> !files[j].is_target,
    ensures
        first_target(files) is None,
    decreases files.len(),
{
    if files.len() > 0 {
        lemma_first_target_none(files.drop_first());
    }
}

/// The path of the file the step's patch is written to: the first file
/// marked as target, or nothing when the step has none.
pub fn target_file_path(step: &Step) -> (r: Option<String>)
    ensures
        match first_target(step.files@) {
            Some(i) => r matches Some(p) && p@ == step.files@[i].file_path@,
            None => r is None,
        },
{
    let n = step.files.len();
    let mut i: usize = 0;
    while i < n
        invariant
            n == step.files@.len(),
            i <= n,
            forall|j: int| 0 <= j < i ==> !step.files@[j].is_target,
        decreases n - i,
    {
        if step.files[i].is_target {
            proof {
                lemma_first_target_at(step.files@, i as int);
            }
            return Some(step.files[i].file_path.clone());
        }
        i = i + 1;
    }
    proof {
        lemma_first_target_none(step.files@);
    }
    None
}

} // verus!
