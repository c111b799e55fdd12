//! Parent computation on canonical, `/`-separated path strings, used for
//! stepping out of the current directory view.

use vstd::prelude::*;

verus! {

/// Index of the last `/` in `s`, or -1 when `s` holds none.
pub open spec fn last_slash(s: Seq<char>) -> int
    decreases s.len(),
{
    if s.len() == 0 {
        -1
    } else if s[s.len() - 1] == '/' {
        s.len() - 1
    } else {
        last_slash(s.drop_last())
    }
}

/// The parent of a canonical path: the path truncated at its last `/`. The
/// root `/` keeps no parent, a parent that would be empty becomes the root,
/// and a path with no separator at all has no parent.
pub open spec fn parent_path_spec(s: Seq<char>) -> Option<Seq<char>> {
    let i = last_slash(s);
    if i < 0 {
        Option::None
    } else if s.len() == 1 {
        Option::None
    } else if i == 0 {
        Option::Some(seq!['/'])
    } else {
        Option::Some(s.subrange(0, i))
    }
}

/// `last_slash` returns exactly the position of the last `/`: `m`, whenever
/// no later character is a `/` and either `s[m]` is one or `m` is -1.
proof fn lemma_last_slash_at(s: Seq<char>, m: int)
    requires
        -1 <= m < s.len(),
        forall|k: int| m < k < s.len() ==> s[k] != '/',
        m >= 0 ==> s[m] == '/',
    ensures
        last_slash(s) == m,
    decreases s.len(),
{
    if s.len() == 0 {
    } else if s[s.len() - 1] == '/' {
        assert(m == s.len() - 1);
    } else {
        lemma_last_slash_at(s.drop_last(), m);
    }
}

/// The parent of `path` according to `parent_path_spec`.
pub fn parent_path(path: &str) -> (r: Option<String>)
    ensures
        match parent_path_spec(path@) {
            Option::Some(p) => r matches Option::Some(q) && q@ == p,
            Option::None => r is None,
        },
{
    let len = path.unicode_len();
    let mut j: usize = len;
    while j > 0 && path.get_char(j - 1) != '/'
        invariant
            j <= len,
            len == path@.len(),
            forall|k: int| j <= k < len ==> path@[k] != '/',
        decreases j,
    {
        j -= 1;
    }
    if j == 0 {
        proof {
            lemma_last_slash_at(path@, -1);
        }
        None
    } else if len == 1 {
        proof {
            lemma_last_slash_at(path@, j - 1);
        }
        None
    } else if j == 1 {
        proof {
            lemma_last_slash_at(path@, 0);
            reveal_strlit("/");
            assert("/"@ =~= seq!['/']);
        }
        Some(String::from_str("/"))
    } else {
        let prefix = path.substring_char(0, j - 1);
        proof {
            lemma_last_slash_at(path@, j - 1);
        }
        Some(String::from_str(prefix))
    }
}

/// The grandparent of `path`: two parent steps. Stepping out of the current
/// view takes two steps because the stored reference path is the selected
/// child entry, one level below the directory being viewed.
pub fn grandparent(path: &str) -> (r: Option<String>)
    ensures
        match parent_path_spec(path@) {
            Option::Some(p) => match parent_path_spec(p) {
                Option::Some(g) => r matches Option::Some(q) && q@ == g,
                Option::None => r is None,
            },
            Option::None => r is None,
        },
{
    match parent_path(path) {
        Some(p) => parent_path(p.as_str()),
        None => None,
    }
}

} // verus!
