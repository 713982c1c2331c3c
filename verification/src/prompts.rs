//! The two prompt renderers: the initial generation prompt built from a
//! step, and the verdict-request prompt built from candidate code and
//! captured logs. Both are pure functions of their inputs, so the loop's
//! behaviour is reproducible: identical inputs give identical text.

use vstd::prelude::*;

use crate::feature::{FileRef, Step};

verus! {

/// What a file's excerpt shows: its contents, or a fixed placeholder when
/// the file could not be read.
pub open spec fn rendered_contents(c: Option<String>) -> Seq<char> {
    match c {
        Some(s) => s@,
        None => "No file contents"@,
    }
}

/// The labelled excerpt the generation prompt appends for one file.
pub open spec fn file_excerpt(f: FileRef) -> Seq<char> {
    " Here is the current "@ + f.file_name@ + " located at "@ + f.file_path@ + ": \""@
        + rendered_contents(f.file_contents) + "\"\n"@
}

/// The excerpts of all files of a step, in list order.
pub open spec fn file_excerpts(files: Seq<FileRef>) -> Seq<char>
    decreases files.len(),
{
    if files.len() == 0 {
        Seq::empty()
    } else {
        file_excerpts(files.drop_last()) + file_excerpt(files.last())
    }
}

/// The instruction the generation prompt opens with: produce a new version
/// of the target satisfying the description, with reachable log statements
/// to verify the change.
pub open spec fn generation_intro(step: Step) -> Seq<char> {
    "Could you write a new "@ + step.target@ + " with this modification: \""@
        + step.description@
        + "\". In addition, could you write a simple console log statement(s) within its code to verify the change is working, which is highly likely to run (not lost in a function that isn't called)?"@
}

/// The full generation prompt: the instruction, then every file's excerpt.
pub open spec fn generation_prompt(step: Step) -> Seq<char> {
    generation_intro(step) + file_excerpts(step.files@)
}

/// Renders the generation prompt for a step.
pub fn get_prompt(step: &Step) -> (r: String)
    ensures
        r@ == generation_prompt(*step),
{
    let mut p = String::from_str("Could you write a new ");
    p.append(step.target.as_str());
    p.append(" with this modification: \"");
    p.append(step.description.as_str());
    p.append(
        "\". In addition, could you write a simple console log statement(s) within its code to verify the change is working, which is highly likely to run (not lost in a function that isn't called)?",
    );
    let n = step.files.len();
    let mut i: usize = 0;
    proof {
        assert(p@ =~= generation_intro(*step) + file_excerpts(step.files@.subrange(0, 0)));
    }
    while i < n
        invariant
            n == step.files@.len(),
            i <= n,
            p@ == generation_intro(*step) + file_excerpts(step.files@.subrange(0, i as int)),
        decreases n - i,
    {
        let f = &step.files[i];
        p.append(" Here is the current ");
        p.append(f.file_name.as_str());
        p.append(" located at ");
        p.append(f.file_path.as_str());
        p.append(": \"");
        match &f.file_contents {
            Some(c) => p.append(c.as_str()),
            None => p.append("No file contents"),
        }
        p.append("\"\n");
        proof {
            assert(step.files@.subrange(0, i + 1).drop_last() =~= step.files@.subrange(
                0,
                i as int,
            ));
            assert(step.files@.subrange(0, i + 1).last() == step.files@[i as int]);
            assert(p@ =~= generation_intro(*step) + file_excerpts(
                step.files@.subrange(0, i + 1),
            ));
        }
        i = i + 1;
    }
    proof {
        assert(step.files@.subrange(0, n as int) =~= step.files@);
    }
    p
}

/// What the verdict prompt shows as log output: the captured text, or a
/// fixed placeholder when nothing was captured.
pub open spec fn rendered_logs(logs: Seq<char>) -> Seq<char> {
    if logs.len() == 0 {
        "[no console log output was produced]"@
    } else {
        logs
    }
}

/// The verdict-request prompt: the candidate code, the original intent, the
/// captured logs, and the instruction to answer with the affirmative or
/// negative token and to supply a corrected artifact if necessary.
pub open spec fn verdict_prompt(
    code: Seq<char>,
    user_prompt: Seq<char>,
    logs: Seq<char>,
    target: Seq<char>,
) -> Seq<char> {
    "Here is the code: "@ + code
        + "\n\nNote that it should be doing exactly what the user wanted, which was '"@
        + user_prompt
        + "'. Based on the following logs, does this code look like it ran properly? (Note in React it is normal if logs repeat twice on component initialization) Console logs:\n"@
        + rendered_logs(logs)
        + "\n[end of logs]\n\nIMPORTANT: Please include the word yes, or no, in your response for clarity, explain why, and provide a corrected \""@
        + target + "\", if necessary (include any missing function calls, especially if the logs are empty yet functions are defined, in your corrected \""@
        + target + "\")."@
}

/// Renders the verdict-request prompt.
pub fn get_passing_prompt(code: &str, user_prompt: &str, logs: &str, target: &str) -> (r: String)
    ensures
        r@ == verdict_prompt(code@, user_prompt@, logs@, target@),
{
    let mut p = String::from_str("Here is the code: ");
    p.append(code);
    p.append("\n\nNote that it should be doing exactly what the user wanted, which was '");
    p.append(user_prompt);
    p.append(
        "'. Based on the following logs, does this code look like it ran properly? (Note in React it is normal if logs repeat twice on component initialization) Console logs:\n",
    );
    if logs.is_empty() {
        p.append("[no console log output was produced]");
    } else {
        p.append(logs);
    }
    p.append(
        "\n[end of logs]\n\nIMPORTANT: Please include the word yes, or no, in your response for clarity, explain why, and provide a corrected \"",
    );
    p.append(target);
    p.append(
        "\", if necessary (include any missing function calls, especially if the logs are empty yet functions are defined, in your corrected \"",
    );
    p.append(target);
    p.append("\").");
    p
}

/// The dedicated re-prompt for a failed attempt: the candidate code, the
/// original intent, the captured logs, the explanation the verdict gave, and
/// the request for a corrected whole file.
pub open spec fn next_prompt(
    code: Seq<char>,
    logs: Seq<char>,
    user_prompt: Seq<char>,
    passing_response: Seq<char>,
    target: Seq<char>,
) -> Seq<char> {
    "There is a problem with this code:\n"@ + code
        + "\n\nNote that it should be doing exactly what the user wanted, which was '"@
        + user_prompt
        + "'. Based on the following logs, the code didn't look like it ran properly: Console logs:\n"@
        + rendered_logs(logs) + "\n\nIt was explained to me that '"@ + passing_response
        + "'. Could you write a new, corrected "@ + target
        + "? Please include the whole file in your response."@
}

/// Renders the dedicated re-prompt for a failed attempt.
pub fn get_next_prompt(
    code: &str,
    logs: &str,
    user_prompt: &str,
    passing_response: &str,
    target: &str,
) -> (r: String)
    ensures
        r@ == next_prompt(code@, logs@, user_prompt@, passing_response@, target@),
{
    let mut p = String::from_str("There is a problem with this code:\n");
    p.append(code);
    p.append("\n\nNote that it should be doing exactly what the user wanted, which was '");
    p.append(user_prompt);
    p.append(
        "'. Based on the following logs, the code didn't look like it ran properly: Console logs:\n",
    );
    if logs.is_empty() {
        p.append("[no console log output was produced]");
    } else {
        p.append(logs);
    }
    p.append("\n\nIt was explained to me that '");
    p.append(passing_response);
    p.append("'. Could you write a new, corrected ");
    p.append(target);
    p.append("? Please include the whole file in your response.");
    p
}

} // verus!
