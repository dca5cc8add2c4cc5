//! Finding the root of a repository: the nearest of a directory and its
//! ancestors that holds the repository's metadata directory.

use vstd::prelude::*;
use crate::text::push_char;

verus! {

/// The position of the last `/` in `s`, or -1 if there is none.
pub open spec fn last_slash(s: Seq<char>) -> int
    decreases s.len(),
{
    if s.len() == 0 {
        -1
    } else if s.last() == '/' {
        s.len() - 1
    } else {
        last_slash(s.drop_last())
    }
}

/// The parent of a path: the path less its last component. The root `/` and
/// the empty path have none; a single relative component has the empty path.
pub open spec fn parent(s: Seq<char>) -> Option<Seq<char>> {
    if s.len() == 0 || s == seq!['/'] {
        None
    } else if last_slash(s) < 0 {
        Some(Seq::empty())
    } else if last_slash(s) == 0 {
        Some(seq!['/'])
    } else {
        Some(s.take(last_slash(s)))
    }
}

proof fn lemma_last_slash(s: Seq<char>)
    ensures
        -1 <= last_slash(s) < s.len(),
        last_slash(s) >= 0 ==> s[last_slash(s)] == '/',
        forall|j: int| last_slash(s) < j < s.len() ==> s[j] != '/',
    decreases s.len(),
{
    if s.len() > 0 && s.last() != '/' {
        let d = s.drop_last();
        lemma_last_slash(d);
        assert forall|j: int| last_slash(s) < j < s.len() implies s[j] != '/' by {
            if j < s.len() - 1 {
                assert(s[j] == d[j]);
            }
        }
    }
}

proof fn lemma_parent_shorter(s: Seq<char>)
    ensures
        parent(s) matches Some(p) ==> p.len() < s.len(),
{
    lemma_last_slash(s);
    if s.len() == 1 && last_slash(s) == 0 {
        assert(s =~= seq!['/']);
    }
}

/// The nearest of `dir` and its ancestors, in the order `parent` walks them,
/// that is one of `marked`.
pub open spec fn nearest_marked(dir: Seq<char>, marked: Seq<Seq<char>>) -> Option<Seq<char>>
    decreases dir.len(),
{
    if marked.contains(dir) {
        Some(dir)
    } else {
        match parent(dir) {
            Some(p) => if p.len() < dir.len() { nearest_marked(p, marked) } else { None },
            None => None,
        }
    }
}

/// `dir` and its ancestors, nearest first, in the order `parent` walks them.
pub open spec fn ancestors(dir: Seq<char>) -> Seq<Seq<char>>
    decreases dir.len(),
{
    match parent(dir) {
        Some(p) => if p.len() < dir.len() { seq![dir] + ancestors(p) } else { seq![dir] },
        None => seq![dir],
    }
}

fn last_slash_of(s: &str) -> (r: Option<usize>)
    ensures
        match r {
            Some(k) => k == last_slash(s@),
            None => last_slash(s@) < 0,
        },
{
    let n = s.unicode_len();
    let mut i: usize = n;
    assert(s@.take(n as int) =~= s@);
    while i > 0
        invariant
            i <= n == s@.len(),
            last_slash(s@) == last_slash(s@.take(i as int)),
        decreases i,
    {
        assert(s@.take(i as int).drop_last() =~= s@.take(i - 1));
        if s.get_char(i - 1) == '/' {
            return Some(i - 1);
        }
        i = i - 1;
    }
    None
}

/// The parent directory of `dir`, as `parent` gives it.
pub fn parent_dir(dir: &str) -> (r: Option<String>)
    ensures
        match r {
            Some(p) => parent(dir@) == Some(p@),
            None => parent(dir@).is_none(),
        },
{
    let n = dir.unicode_len();
    if n == 0 || (n == 1 && dir.get_char(0) == '/') {
        assert(n == 1 && dir@[0] == '/' ==> dir@ =~= seq!['/']);
        return None;
    }
    assert(dir@ != seq!['/']) by {
        if dir@ == seq!['/'] {
            assert(dir@.len() == 1);
        }
    }
    match last_slash_of(dir) {
        None => Some(String::new()),
        Some(k) => {
            if k == 0 {
                let mut s = String::new();
                push_char(&mut s, '/');
                assert(s@ =~= seq!['/']);
                Some(s)
            } else {
                proof { lemma_last_slash(dir@); }
                Some(String::from_str(dir.substring_char(0, k)))
            }
        },
    }
}

fn contains_dir(marked: &Vec<String>, dir: &String) -> (r: bool)
    ensures
        r == marked@.map_values(|m: String| m@).contains(dir@),
{
    let ghost views = marked@.map_values(|m: String| m@);
    let mut i: usize = 0;
    while i < marked.len()
        invariant
            i <= marked@.len(),
            views == marked@.map_values(|m: String| m@),
            forall|j: int| 0 <= j < i ==> views[j] != dir@,
        decreases marked@.len() - i,
    {
        if marked[i].eq(dir) {
            assert(views[i as int] == dir@);
            return true;
        }
        i = i + 1;
    }
    false
}

/// The nearest of `start` and its ancestors that is one of `marked` (the
/// directories known to hold the repository metadata directory), or none.
pub fn find_git_dir(start: &str, marked: &Vec<String>) -> (r: Option<String>)
    ensures
        match r {
            Some(d) => nearest_marked(start@, marked@.map_values(|m: String| m@)) == Some(d@),
            None => nearest_marked(start@, marked@.map_values(|m: String| m@)).is_none(),
        },
{
    let ghost views = marked@.map_values(|m: String| m@);
    let mut dir = String::from_str(start);
    loop
        invariant
            views == marked@.map_values(|m: String| m@),
            nearest_marked(dir@, views) == nearest_marked(start@, views),
        decreases dir@.len(),
    {
        if contains_dir(marked, &dir) {
            return Some(dir);
        }
        proof { lemma_parent_shorter(dir@); }
        match parent_dir(dir.as_str()) {
            Some(p) => {
                dir = p;
            },
            None => {
                return None;
            },
        }
    }
}

/// `start` and each of its ancestors, nearest first: the directories in which
/// to look for the repository metadata directory.
pub fn ancestor_dirs(start: &str) -> (r: Vec<String>)
    ensures
        r@.map_values(|d: String| d@) == ancestors(start@),
{
    let mut out: Vec<String> = Vec::new();
    let mut dir = String::from_str(start);
    loop
        invariant
            out@.map_values(|d: String| d@) + ancestors(dir@) == ancestors(start@),
        decreases dir@.len(),
    {
        proof { lemma_parent_shorter(dir@); }
        let next = parent_dir(dir.as_str());
        let ghost old_out = out@;
        let ghost cur = dir@;
        out.push(dir);
        assert(out@.map_values(|d: String| d@) =~= old_out.map_values(|d: String| d@).push(cur));
        match next {
            Some(p) => {
                assert(ancestors(cur) == seq![cur] + ancestors(p@));
                assert(out@.map_values(|d: String| d@) + ancestors(p@) =~= old_out.map_values(|d: String| d@) + ancestors(cur));
                dir = p;
            },
            None => {
                assert(out@.map_values(|d: String| d@) =~= old_out.map_values(|d: String| d@) + ancestors(cur));
                return out;
            },
        }
    }
}

/// The directory found is `dir` or one of its ancestors, and is marked; and
/// where none is found, no ancestor of `dir` is marked.
pub proof fn lemma_nearest_is_marked_ancestor(dir: Seq<char>, marked: Seq<Seq<char>>)
    ensures
        nearest_marked(dir, marked) matches Some(d) ==> ancestors(dir).contains(d) && marked.contains(d),
        nearest_marked(dir, marked) is None ==> forall|i: int| 0 <= i < ancestors(dir).len() ==> !marked.contains(#[trigger] ancestors(dir)[i]),
    decreases dir.len(),
{
    lemma_parent_shorter(dir);
    assert(ancestors(dir)[0] == dir);
    if !marked.contains(dir) {
        if let Some(p) = parent(dir) {
            lemma_nearest_is_marked_ancestor(p, marked);
            let a = ancestors(dir);
            assert(a == seq![dir] + ancestors(p));
            if let Some(d) = nearest_marked(p, marked) {
                let k = choose|k: int| 0 <= k < ancestors(p).len() && ancestors(p)[k] == d;
                assert(a[k + 1] == d);
            } else {
                assert forall|i: int| 0 <= i < a.len() implies !marked.contains(#[trigger] a[i]) by {
                    if i > 0 {
                        assert(a[i] == ancestors(p)[i - 1]);
                    }
                }
            }
        } else {
            assert(ancestors(dir) == seq![dir]);
        }
    }
}

} // verus!
