//! Deriving a Gerrit project name from a remote URL.
//!
//! The project name a remote corresponds to is the final `/`-delimited
//! segment of its URL; a URL without any `/` yields no name.  A remote may
//! be configured with or without a `.git` suffix, so matching against a
//! project name accepts both forms.

use vstd::prelude::*;

verus! {

/// Index of the last `/` in `s`, or `-1` if there is none.
pub open spec fn last_slash_index(s: Seq<char>) -> int
    decreases s.len(),
{
    if s.len() == 0 {
        -1
    } else if s.last() == '/' {
        s.len() - 1
    } else {
        last_slash_index(s.drop_last())
    }
}

/// The final `/`-delimited segment of `s`, or `None` if `s` has no `/`.
pub open spec fn project_name_of(s: Seq<char>) -> Option<Seq<char>> {
    let k = last_slash_index(s);
    if k < 0 {
        None
    } else {
        Some(s.subrange(k + 1, s.len() as int))
    }
}

/// Whether the remote URL resolves to the project `p`, either bare or with
/// a `.git` suffix.
pub open spec fn matches_project(url: Seq<char>, p: Seq<char>) -> bool {
    match project_name_of(url) {
        Some(n) => n == p || n == p + ".git"@,
        None => false,
    }
}

proof fn lemma_last_slash_at(s: Seq<char>, i: int)
    requires
        0 <= i < s.len(),
        s[i] == '/',
        forall|j: int| i < j < s.len() ==> s[j] != '/',
    ensures
        last_slash_index(s) == i,
    decreases s.len(),
{
    if i < s.len() - 1 {
        lemma_last_slash_at(s.drop_last(), i);
    }
}

proof fn lemma_no_slash(s: Seq<char>)
    requires
        forall|j: int| 0 <= j < s.len() ==> s[j] != '/',
    ensures
        last_slash_index(s) == -1,
    decreases s.len(),
{
    if s.len() > 0 {
        lemma_no_slash(s.drop_last());
    }
}

/// Basename of a project from a remote URL: everything after the last `/`,
/// or `None` when the URL contains no `/`.
pub fn url_to_projectname(url: &str) -> (r: Option<&str>)
    ensures
        match r {
            Some(n) => project_name_of(url@) == Some(n@),
            None => project_name_of(url@) is None,
        },
{
    let len = url.unicode_len();
    let mut i: usize = len;
    while i > 0
        invariant
            i <= len,
            len == url@.len(),
            forall|j: int| i <= j < len ==> url@[j] != '/',
        decreases i,
    {
        i = i - 1;
        if url.get_char(i) == '/' {
            let name = url.substring_char(i + 1, len);
            proof {
                lemma_last_slash_at(url@, i as int);
            }
            return Some(name);
        }
    }
    proof {
        lemma_no_slash(url@);
    }
    None
}

/// Whether the remote URL's derived project name equals `p_name`, either
/// exactly or with a `.git` suffix appended.
pub fn url_matches_project(url: &str, p_name: &str) -> (r: bool)
    ensures
        r == matches_project(url@, p_name@),
{
    match url_to_projectname(url) {
        None => false,
        Some(n) => {
            let n_s = n.to_owned();
            let p_s = p_name.to_owned();
            let p_git = p_s.clone().concat(".git");
            n_s == p_s || n_s == p_git
        },
    }
}

} // verus!
