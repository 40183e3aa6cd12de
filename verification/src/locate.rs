//! The dependency locator: the ordered candidate paths a bare executable
//! name takes through the search path, and the first existing match.
use vstd::prelude::*;

use crate::errors::LaunchError;

verus! {

/// Index of the first occurrence of `c` in `s`, or -1 when absent.
pub open spec fn first_idx(s: Seq<char>, c: char) -> int
    decreases s.len(),
{
    if s.len() == 0 {
        -1
    } else if s[0] == c {
        0
    } else if first_idx(s.drop_first(), c) < 0 {
        -1
    } else {
        first_idx(s.drop_first(), c) + 1
    }
}

/// `first_idx` is the smallest index holding `c`, or -1 when `c` is absent.
pub proof fn lemma_first_idx(s: Seq<char>, c: char)
    ensures
        -1 <= first_idx(s, c) < s.len(),
        first_idx(s, c) >= 0 ==> s[first_idx(s, c)] == c,
        forall|j: int| 0 <= j < first_idx(s, c) ==> s[j] != c,
        first_idx(s, c) == -1 ==> forall|j: int| 0 <= j < s.len() ==> s[j] != c,
    decreases s.len(),
{
    if s.len() == 0 {
    } else if s[0] == c {
        assert(first_idx(s, c) == 0);
    } else {
        lemma_first_idx(s.drop_first(), c);
        let fd = first_idx(s.drop_first(), c);
        if fd < 0 {
            assert(first_idx(s, c) == -1);
            assert forall|j: int| 0 <= j < s.len() implies s[j] != c by {
                if j > 0 {
                    assert(s.drop_first()[j - 1] == s[j]);
                    assert(s.drop_first()[j - 1] != c);
                }
            }
        } else {
            assert(first_idx(s, c) == fd + 1);
            assert(s.drop_first()[fd] == c);
            assert(s[fd + 1] == c);
            assert forall|j: int| 0 <= j < fd + 1 implies s[j] != c by {
                if j > 0 {
                    assert(s.drop_first()[j - 1] == s[j]);
                    assert(s.drop_first()[j - 1] != c);
                }
            }
        }
    }
}

/// The colon-separated segments of a search-path string; empty segments are
/// kept, as the platform's search-path split keeps them.
pub open spec fn split_colon(s: Seq<char>) -> Seq<Seq<char>>
    decreases s.len(),
{
    let i = first_idx(s, ':');
    if i < 0 || i >= s.len() {
        seq![s]
    } else {
        seq![s.subrange(0, i)] + split_colon(s.subrange(i + 1, s.len() as int))
    }
}

proof fn lemma_split_colon_step(s: Seq<char>, i: int)
    requires
        0 <= i < s.len(),
        s[i] == ':',
        forall|j: int| 0 <= j < i ==> s[j] != ':',
    ensures
        split_colon(s) == seq![s.subrange(0, i)] + split_colon(s.subrange(i + 1, s.len() as int)),
{
    lemma_first_idx(s, ':');
    assert(first_idx(s, ':') == i) by {
        let f = first_idx(s, ':');
        if f < i {
            assert(s[f] == ':');
        }
        if f > i {
            assert(s[i] != ':');
        }
    }
}

proof fn lemma_split_colon_whole(s: Seq<char>)
    requires
        forall|j: int| 0 <= j < s.len() ==> s[j] != ':',
    ensures
        split_colon(s) == seq![s],
{
    lemma_first_idx(s, ':');
    if first_idx(s, ':') >= 0 {
        assert(s[first_idx(s, ':')] == ':');
    }
}

/// Splits a search-path string on colons, executably.
pub fn split_search_path(path_var: &str) -> (v: Vec<String>)
    ensures
        v.deep_view() == split_colon(path_var@),
{
    let n = path_var.unicode_len();
    let mut v: Vec<String> = Vec::new();
    let mut start: usize = 0;
    let mut i: usize = 0;
    proof {
        assert(v.deep_view() =~= Seq::<Seq<char>>::empty());
        assert(path_var@.skip(0) =~= path_var@);
        assert(Seq::<Seq<char>>::empty() + split_colon(path_var@) =~= split_colon(path_var@));
    }
    while i < n
        invariant
            0 <= start <= i <= n,
            split_colon(path_var@) == v.deep_view() + split_colon(path_var@.skip(start as int)),
            forall|j: int| start <= j < i ==> path_var@[j] != ':',
        decreases n - i,
    {
        if path_var.get_char(i) == ':' {
            let seg = String::from_str(path_var.substring_char(start, i));
            proof {
                let rest = path_var@.skip(start as int);
                assert(forall|j: int|
                    0 <= j < rest.len() ==> rest[j] == path_var@[j + start as int]);
                lemma_split_colon_step(rest, i - start);
                assert(rest.subrange(0, i - start) =~= path_var@.subrange(start as int, i as int));
                assert(rest.subrange(i - start + 1, rest.len() as int) =~= path_var@.skip(i + 1));
                assert(v.deep_view().push(seg@) =~= v.deep_view() + seq![seg@]);
                assert(v.deep_view() + (seq![seg@] + split_colon(path_var@.skip(i + 1))) =~= (
                v.deep_view() + seq![seg@]) + split_colon(path_var@.skip(i + 1)));
            }
            v.push(seg);
            start = i + 1;
        }
        i = i + 1;
    }
    let seg = String::from_str(path_var.substring_char(start, n));
    proof {
        let rest = path_var@.skip(start as int);
        assert(forall|j: int| 0 <= j < rest.len() ==> rest[j] == path_var@[j + start as int]);
        lemma_split_colon_whole(rest);
        assert(rest =~= path_var@.subrange(start as int, n as int));
        assert(v.deep_view().push(seg@) =~= v.deep_view() + seq![seg@]);
    }
    v.push(seg);
    proof {
        assert(v.deep_view() =~= split_colon(path_var@));
    }
    v
}

/// The candidate path a directory contributes for a bare executable name.
pub open spec fn candidate_spec(dir: Seq<char>, name: Seq<char>) -> Seq<char> {
    if dir.len() == 0 {
        name
    } else {
        dir + "/"@ + name
    }
}

/// The ordered candidate paths of a bare name along the search path.
pub open spec fn candidates_spec(path_var: Seq<char>, name: Seq<char>) -> Seq<Seq<char>> {
    split_colon(path_var).map_values(|d: Seq<char>| candidate_spec(d, name))
}

/// Builds every candidate path of a bare executable name, in search order.
pub fn candidate_paths(path_var: &str, name: &str) -> (v: Vec<String>)
    ensures
        v.deep_view() == candidates_spec(path_var@, name@),
{
    let dirs = split_search_path(path_var);
    let ghost dv = dirs.deep_view();
    let mut v: Vec<String> = Vec::new();
    let mut i: usize = 0;
    proof {
        assert(v.deep_view() =~= dv.take(0).map_values(|d: Seq<char>| candidate_spec(d, name@)));
    }
    while i < dirs.len()
        invariant
            0 <= i <= dv.len(),
            dv.len() == dirs@.len(),
            forall|k: int| 0 <= k < dv.len() ==> #[trigger] dv[k] == dirs@[k]@,
            v.deep_view() == dv.take(i as int).map_values(
                |d: Seq<char>| candidate_spec(d, name@),
            ),
        decreases dv.len() - i,
    {
        let dir = &dirs[i];
        let cand: String;
        if dir.as_str().unicode_len() == 0 {
            cand = String::from_str(name);
        } else {
            let mut c = dir.clone();
            c.append("/");
            c.append(name);
            cand = c;
        }
        proof {
            assert(cand@ == candidate_spec(dv[i as int], name@));
            assert(v.deep_view().push(cand@) =~= dv.take(i + 1).map_values(
                |d: Seq<char>| candidate_spec(d, name@),
            ));
        }
        v.push(cand);
        i = i + 1;
    }
    proof {
        assert(dv.take(dv.len() as int) =~= dv);
    }
    v
}

/// Picks the first candidate the filesystem reported as a regular file, or
/// the missing-dependency error for `name` when none was. `present` holds
/// the filesystem's answer for each candidate, in the same order.
pub fn pick_first_existing(candidates: &Vec<String>, present: &Vec<bool>, name: &str) -> (r: Result<
    String,
    LaunchError,
>)
    requires
        candidates@.len() == present@.len(),
    ensures
        r is Ok <==> (exists|k: int| 0 <= k < present@.len() && present@[k]),
        r matches Ok(t) ==> (exists|k: int|
            {
                &&& 0 <= k < present@.len()
                &&& present@[k]
                &&& (forall|j: int| 0 <= j < k ==> !present@[j])
                &&& t@ == candidates@[k]@
            }),
        r matches Err(e) ==> (e matches LaunchError::MissingDependency { name: n } && n@ == name@),
{
    let mut i: usize = 0;
    while i < candidates.len()
        invariant
            0 <= i <= present@.len(),
            forall|j: int| 0 <= j < i ==> !present@[j],
        decreases present@.len() - i,
    {
        if present[i] {
            return Ok(candidates[i].clone());
        }
        i = i + 1;
    }
    Err(LaunchError::MissingDependency { name: String::from_str(name) })
}

} // verus!
