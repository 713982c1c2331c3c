//! Classifies a free-text verdict from the generative service as passing or
//! failing: a case-insensitive scan for the affirmative token.

use vstd::prelude::*;

verus! {

/// The affirmative token occurs at position `i` of `s`, in any letter case.
pub open spec fn yes_at(s: Seq<char>, i: int) -> bool {
    &&& 0 <= i
    &&& i + 3 <= s.len()
    &&& (s[i] == 'y' || s[i] == 'Y')
    &&& (s[i + 1] == 'e' || s[i + 1] == 'E')
    &&& (s[i + 2] == 's' || s[i + 2] == 'S')
}

/// The verdict text counts as passing: the affirmative token appears
/// somewhere in it, in any letter case.
pub open spec fn contains_yes(s: Seq<char>) -> bool {
    exists|i: int| yes_at(s, i)
}

/// Reduces a free-text verdict to a boolean by a case-insensitive substring
/// match for the affirmative token. Deliberately crude: the token counts
/// wherever it stands, even inside another word or a negation.
pub fn is_passing(response: &str) -> (r: bool)
    ensures
        r == contains_yes(response@),
{
    let n = response.unicode_len();
    if n < 3 {
        proof {
            assert forall|j: int| !yes_at(response@, j) by {}
        }
        return false;
    }
    let mut i: usize = 0;
    while i <= n - 3
        invariant
            3 <= n == response@.len(),
            i <= n - 2,
            forall|j: int| 0 <= j < i ==> !yes_at(response@, j),
        decreases n - i,
    {
        let a = response.get_char(i);
        let b = response.get_char(i + 1);
        let c = response.get_char(i + 2);
        if (a == 'y' || a == 'Y') && (b == 'e' || b == 'E') && (c == 's' || c == 'S') {
            proof {
                assert(yes_at(response@, i as int));
            }
            return true;
        }
        i = i + 1;
    }
    proof {
        assert forall|j: int| !yes_at(response@, j) by {
            if 0 <= j < i {
                assert(!yes_at(response@, j));
            }
        }
    }
    false
}

/// The documented weakness, stated as a law: one occurrence of the token at
/// any position makes the whole text pass, whatever surrounds it.
pub proof fn lemma_affirmative_token_anywhere(s: Seq<char>, i: int)
    requires
        yes_at(s, i),
    ensures
        contains_yes(s),
{
}

} // verus!
