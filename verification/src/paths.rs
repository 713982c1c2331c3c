//! Path derivation done before a step runs: resolving a file's relative
//! path against a freshly materialized repository directory, and reading a
//! repository's name out of its clone URL.

use vstd::prelude::*;

use crate::feature::FileRef;

verus! {

/// Joining a directory and a relative path, as the standard path join does
/// on Unix-like paths: an absolute right side replaces the directory, and a
/// separator is inserted only where one is missing.
pub open spec fn joined_path(dir: Seq<char>, rel: Seq<char>) -> Seq<char> {
    if rel.len() > 0 && rel[0] == '/' {
        rel
    } else if dir.len() == 0 {
        rel
    } else if dir.last() == '/' {
        dir + rel
    } else {
        dir + "/"@ + rel
    }
}

/// Resolves a file's path against the repository directory, leaving the
/// rest of the file untouched.
pub fn add_full_path(file: &mut FileRef, cloned_dir: &str)
    ensures
        final(file).file_path@ == joined_path(cloned_dir@, old(file).file_path@),
        final(file).file_name == old(file).file_name,
        final(file).file_contents == old(file).file_contents,
        final(file).is_target == old(file).is_target,
{
    let rel_len = file.file_path.as_str().unicode_len();
    if rel_len > 0 && file.file_path.as_str().get_char(0) == '/' {
        return ;
    }
    let dir_len = cloned_dir.unicode_len();
    if dir_len == 0 {
        return ;
    }
    let mut p = String::from_str(cloned_dir);
    if cloned_dir.get_char(dir_len - 1) != '/' {
        p.append("/");
    }
    p.append(file.file_path.as_str());
    file.file_path = p;
}

/// The position of the last separator in `s`, or `-1` when there is none.
pub open spec fn last_slash(s: Seq<char>) -> int
    decreases s.len(),
{
    if s.len() == 0 {
        -1
    } else if s.last() == '/' {
        s.len() - 1
    } else {
        last_slash(s.drop_last())
    }
}

/// The repository name a clone URL carries: the segment between the last
/// separator and a final `.git`, when the URL ends in `.git`, has a
/// separator before that, and the segment is not empty.
pub open spec fn repo_name_spec(url: Seq<char>) -> Option<Seq<char>> {
    let n = url.len() as int;
    let j = last_slash(url);
    if n >= 4 && url.subrange(n - 4, n) == ".git"@ && 0 <= j && j + 1 < n - 4 {
        Some(url.subrange(j + 1, n - 4))
    } else {
        None
    }
}

proof fn lemma_last_slash_at(s: Seq<char>, j: int)
    requires
        0 <= j < s.len(),
        s[j] == '/',
        forall|m: int| j < m < s.len() ==> s[m] != '/',
    ensures
        last_slash(s) == j,
    decreases s.len(),
{
    if j < s.len() - 1 {
        lemma_last_slash_at(s.drop_last(), j);
    }
}

proof fn lemma_last_slash_none(s: Seq<char>)
    requires
        forall|m: int| 0 <= m < s.len() ==> s[m] != '/',
    ensures
        last_slash(s) == -1,
    decreases s.len(),
{
    if s.len() > 0 {
        lemma_last_slash_none(s.drop_last());
    }
}

/// Extracts the repository name from a clone URL, or nothing when the URL
/// does not have the expected shape.
pub fn repo_name_of_url(url: &str) -> (r: Option<String>)
    ensures
        match repo_name_spec(url@) {
            Some(name) => r matches Some(s) && s@ == name,
            None => r is None,
        },
{
    let n = url.unicode_len();
    if n < 4 {
        return None;
    }
    proof {
        reveal_strlit(".git");
    }
    if url.get_char(n - 4) != '.' || url.get_char(n - 3) != 'g' || url.get_char(n - 2) != 'i'
        || url.get_char(n - 1) != 't' {
        proof {
            assert(url@.subrange(n - 4, n as int) != ".git"@) by {
                if url@.subrange(n - 4, n as int) == ".git"@ {
                    assert(url@.subrange(n - 4, n as int)[0] == url@[n - 4]);
                    assert(url@.subrange(n - 4, n as int)[1] == url@[n - 3]);
                    assert(url@.subrange(n - 4, n as int)[2] == url@[n - 2]);
                    assert(url@.subrange(n - 4, n as int)[3] == url@[n - 1]);
                }
            }
        }
        return None;
    }
    proof {
        assert(url@.subrange(n - 4, n as int) =~= ".git"@);
    }
    let mut k: usize = n;
    while k > 0
        invariant
            n == url@.len(),
            4 <= n,
            k <= n,
            url@.subrange(n - 4, n as int) == ".git"@,
            forall|m: int| k <= m < n ==> url@[m] != '/',
        decreases k,
    {
        if url.get_char(k - 1) == '/' {
            let j = k - 1;
            proof {
                lemma_last_slash_at(url@, j as int);
            }
            if j + 1 < n - 4 {
                let name = url.substring_char(j + 1, n - 4);
                return Some(String::from_str(name));
            } else {
                return None;
            }
        }
        k = k - 1;
    }
    proof {
        lemma_last_slash_none(url@);
    }
    None
}

} // verus!
