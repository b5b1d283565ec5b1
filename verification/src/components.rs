//! The path model: a path string is read as the sequence of its non-empty
//! `/`-separated components. Matching is defined over that sequence, so
//! repeated or trailing separators do not change what a path denotes, while
//! no other normalization (case folding, `.` or `..` resolution) happens.

use vstd::prelude::*;

verus! {

/// Reading a path string one character at a time: `cur` holds the component
/// read so far, `acc` the components already finished.
pub open spec fn split_rest(s: Seq<char>, cur: Seq<char>, acc: Seq<Seq<char>>) -> Seq<Seq<char>>
    decreases s.len(),
{
    if s.len() == 0 {
        if cur.len() == 0 {
            acc
        } else {
            acc.push(cur)
        }
    } else if s[0] == '/' {
        split_rest(
            s.drop_first(),
            Seq::empty(),
            if cur.len() == 0 {
                acc
            } else {
                acc.push(cur)
            },
        )
    } else {
        split_rest(s.drop_first(), cur.push(s[0]), acc)
    }
}

/// The components of a path string: its maximal non-empty runs of
/// characters other than `/`, in order.
pub open spec fn components(s: Seq<char>) -> Seq<Seq<char>> {
    split_rest(s, Seq::empty(), Seq::empty())
}

/// The character sequences held by a vector of components.
pub open spec fn views_of(parts: Seq<Vec<char>>) -> Seq<Seq<char>> {
    parts.map_values(|p: Vec<char>| p@)
}

proof fn lemma_views_of_push(parts: Seq<Vec<char>>, p: Vec<char>)
    ensures
        views_of(parts.push(p)) =~= views_of(parts).push(p@),
{
}

/// Splits a path string into its non-empty `/`-separated components.
pub fn split_components(s: &str) -> (parts: Vec<Vec<char>>)
    ensures
        views_of(parts@) == components(s@),
{
    let n: usize = s.unicode_len();
    let mut parts: Vec<Vec<char>> = Vec::new();
    let mut cur: Vec<char> = Vec::new();
    let mut i: usize = 0;
    proof {
        assert(s@.skip(0) =~= s@);
        assert(views_of(parts@) =~= Seq::<Seq<char>>::empty());
    }
    while i < n
        invariant
            n == s@.len(),
            i <= n,
            components(s@) == split_rest(s@.skip(i as int), cur@, views_of(parts@)),
        decreases n - i,
    {
        let ghost pre_cur = cur@;
        let ghost pre_views = views_of(parts@);
        let c = s.get_char(i);
        proof {
            assert(s@.skip(i as int)[0] == s@[i as int]);
            assert(s@.skip(i as int).drop_first() =~= s@.skip(i as int + 1));
        }
        if c == '/' {
            if cur.len() > 0 {
                proof {
                    lemma_views_of_push(parts@, cur);
                }
                parts.push(cur);
                cur = Vec::new();
            }
            proof {
                assert(cur@ =~= Seq::<char>::empty());
                if pre_cur.len() == 0 {
                    assert(views_of(parts@) == pre_views);
                } else {
                    assert(views_of(parts@) == pre_views.push(pre_cur));
                }
                assert(split_rest(s@.skip(i as int), pre_cur, pre_views) == split_rest(
                    s@.skip(i as int + 1),
                    cur@,
                    views_of(parts@),
                ));
            }
        } else {
            cur.push(c);
            proof {
                assert(cur@ == pre_cur.push(s@[i as int]));
                assert(split_rest(s@.skip(i as int), pre_cur, pre_views) == split_rest(
                    s@.skip(i as int + 1),
                    cur@,
                    views_of(parts@),
                ));
            }
        }
        i = i + 1;
    }
    proof {
        assert(s@.skip(n as int) =~= Seq::<char>::empty());
    }
    if cur.len() > 0 {
        proof {
            lemma_views_of_push(parts@, cur);
        }
        parts.push(cur);
    }
    parts
}

/// Whether two components hold the same characters.
fn part_eq(a: &Vec<char>, b: &Vec<char>) -> (r: bool)
    ensures
        r == (a@ == b@),
{
    if a.len() != b.len() {
        return false;
    }
    let mut i: usize = 0;
    while i < a.len()
        invariant
            i <= a@.len(),
            a@.len() == b@.len(),
            forall|j: int| 0 <= j < i ==> a@[j] == b@[j],
        decreases a@.len() - i,
    {
        if a[i] != b[i] {
            return false;
        }
        i = i + 1;
    }
    proof {
        assert(a@ =~= b@);
    }
    true
}

/// Whether two component vectors hold the same component sequences.
fn parts_eq(a: &Vec<Vec<char>>, b: &Vec<Vec<char>>) -> (r: bool)
    ensures
        r == (views_of(a@) == views_of(b@)),
{
    if a.len() != b.len() {
        assert(views_of(a@).len() != views_of(b@).len());
        return false;
    }
    let mut i: usize = 0;
    while i < a.len()
        invariant
            i <= a@.len(),
            a@.len() == b@.len(),
            forall|j: int| 0 <= j < i ==> views_of(a@)[j] == views_of(b@)[j],
        decreases a@.len() - i,
    {
        if !part_eq(&a[i], &b[i]) {
            assert(views_of(a@)[i as int] != views_of(b@)[i as int]);
            return false;
        }
        i = i + 1;
    }
    proof {
        assert(views_of(a@) =~= views_of(b@));
    }
    true
}

/// Whether the component sequence of `a` is a prefix of that of `b`.
fn parts_prefix(a: &Vec<Vec<char>>, b: &Vec<Vec<char>>) -> (r: bool)
    ensures
        r == views_of(a@).is_prefix_of(views_of(b@)),
{
    if a.len() > b.len() {
        assert(views_of(a@).len() > views_of(b@).len());
        return false;
    }
    let mut i: usize = 0;
    while i < a.len()
        invariant
            i <= a@.len(),
            a@.len() <= b@.len(),
            forall|j: int| 0 <= j < i ==> views_of(a@)[j] == views_of(b@)[j],
        decreases a@.len() - i,
    {
        if !part_eq(&a[i], &b[i]) {
            assert(views_of(a@)[i as int] != views_of(b@)[i as int]);
            assert(!views_of(a@).is_prefix_of(views_of(b@))) by {
                if views_of(a@).is_prefix_of(views_of(b@)) {
                    assert(views_of(a@)[i as int] == views_of(b@).subrange(
                        0,
                        views_of(a@).len() as int,
                    )[i as int]);
                }
            }
            return false;
        }
        i = i + 1;
    }
    proof {
        assert(views_of(a@) =~= views_of(b@).subrange(0, views_of(a@).len() as int));
    }
    true
}

/// Whether two path strings denote the same path, component for component.
pub fn same_path(a: &str, b: &str) -> (r: bool)
    ensures
        r == (components(a@) == components(b@)),
{
    let pa = split_components(a);
    let pb = split_components(b);
    parts_eq(&pa, &pb)
}

/// Whether the path `prefix` is a component-wise prefix of the path `path`:
/// `a/b` is a prefix of `a/b/c` but not of `a/bc`.
pub fn path_has_prefix(path: &str, prefix: &str) -> (r: bool)
    ensures
        r == components(prefix@).is_prefix_of(components(path@)),
{
    let pre = split_components(prefix);
    let whole = split_components(path);
    parts_prefix(&pre, &whole)
}

} // verus!
