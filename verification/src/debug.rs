//! The diagnostic report for a step whose retry budget ran out: every
//! attempt's raw response, captured logs and verdict, numbered in order, so
//! an operator can audit why the step failed.

use vstd::prelude::*;

use crate::numerals::{dec_str, format_usize};

verus! {

/// The report section for attempt `i` (numbered from 1 in the rendering).
pub open spec fn attempt_report(
    i: nat,
    code_attempt: Seq<char>,
    log: Seq<char>,
    passing_response: Seq<char>,
) -> Seq<char> {
    "\n\nChatGPT Response "@ + dec_str(i + 1) + ":\n"@ + code_attempt
        + "\n\nConsole logs from test run "@ + dec_str(i + 1) + ":\n"@ + log
        + "\n\nChatGPT evaluation of logs "@ + dec_str(i + 1)
        + ":\n\nBased on the following logs, does this code look like it ran properly?\n\n"@
        + passing_response
}

/// The report sections of the first `n` attempts, in order.
pub open spec fn reports_upto(
    n: nat,
    code_attempts: Seq<Seq<char>>,
    logs: Seq<Seq<char>>,
    passing_responses: Seq<Seq<char>>,
) -> Seq<char>
    decreases n,
{
    if n == 0 {
        Seq::empty()
    } else {
        reports_upto((n - 1) as nat, code_attempts, logs, passing_responses) + attempt_report(
            (n - 1) as nat,
            code_attempts[n - 1],
            logs[n - 1],
            passing_responses[n - 1],
        )
    }
}

/// The whole diagnostic report: a fixed heading, then one section per
/// recorded attempt.
pub open spec fn debug_details(
    code_attempts: Seq<Seq<char>>,
    logs: Seq<Seq<char>>,
    passing_responses: Seq<Seq<char>>,
) -> Seq<char> {
    "Unable to generate properly working code. Debugging details:"@ + reports_upto(
        code_attempts.len(),
        code_attempts,
        logs,
        passing_responses,
    )
}

/// Renders the diagnostic report from the attempt history. The logs and
/// verdicts must cover every recorded attempt.
#[allow(unused_variables)]
#[verifier::rlimit(60)]
pub fn get_debug_details(
    trimmed_code: &str,
    code_attempts: &Vec<String>,
    logs: &Vec<String>,
    passing_responses: &Vec<String>,
) -> (r: String)
    requires
        logs@.len() >= code_attempts@.len(),
        passing_responses@.len() >= code_attempts@.len(),
    ensures
        r@ == debug_details(
            code_attempts.deep_view(),
            logs.deep_view(),
            passing_responses.deep_view(),
        ),
{
    let mut p = String::from_str("Unable to generate properly working code. Debugging details:");
    let n = code_attempts.len();
    let mut i: usize = 0;
    proof {
        assert(p@ =~= "Unable to generate properly working code. Debugging details:"@
            + reports_upto(
            0,
            code_attempts.deep_view(),
            logs.deep_view(),
            passing_responses.deep_view(),
        ));
    }
    while i < n
        invariant
            n == code_attempts@.len(),
            logs@.len() >= n,
            passing_responses@.len() >= n,
            i <= n,
            p@ == "Unable to generate properly working code. Debugging details:"@ + reports_upto(
                i as nat,
                code_attempts.deep_view(),
                logs.deep_view(),
                passing_responses.deep_view(),
            ),
        decreases n - i,
    {
        let ghost p0 = p@;
        let ghost section = attempt_report(
            i as nat,
            code_attempts.deep_view()[i as int],
            logs.deep_view()[i as int],
            passing_responses.deep_view()[i as int],
        );
        let num = format_usize(i + 1);
        p.append("\n\nChatGPT Response ");
        p.append(num.as_str());
        p.append(":\n");
        p.append(code_attempts[i].as_str());
        p.append("\n\nConsole logs from test run ");
        p.append(num.as_str());
        p.append(":\n");
        p.append(logs[i].as_str());
        p.append("\n\nChatGPT evaluation of logs ");
        p.append(num.as_str());
        p.append(
            ":\n\nBased on the following logs, does this code look like it ran properly?\n\n",
        );
        p.append(passing_responses[i].as_str());
        proof {
            assert(code_attempts.deep_view()[i as int] == code_attempts@[i as int]@);
            assert(logs.deep_view()[i as int] == logs@[i as int]@);
            assert(passing_responses.deep_view()[i as int] == passing_responses@[i as int]@);
            assert(p@ =~= p0 + section);
            assert(reports_upto(
                (i + 1) as nat,
                code_attempts.deep_view(),
                logs.deep_view(),
                passing_responses.deep_view(),
            ) == reports_upto(
                i as nat,
                code_attempts.deep_view(),
                logs.deep_view(),
                passing_responses.deep_view(),
            ) + section);
            assert(p@ =~= "Unable to generate properly working code. Debugging details:"@
                + reports_upto(
                (i + 1) as nat,
                code_attempts.deep_view(),
                logs.deep_view(),
                passing_responses.deep_view(),
            ));
        }
        i = i + 1;
    }
    p
}

} // verus!
