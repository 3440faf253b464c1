//! Paths of the pseudo-filesystem tree, taken apart into components.

use vstd::prelude::*;
use crate::text::{chars_of, eq_chars};

verus! {

/// A path segment that names something: not empty and not `.`.
pub open spec fn kept(seg: Seq<char>) -> bool {
    seg.len() > 0 && seg != seq!['.']
}

/// Scans `s` left to right: the segments finished so far, and the one
/// being read.
pub open spec fn scan(s: Seq<char>) -> (Seq<Seq<char>>, Seq<char>)
    decreases s.len(),
{
    if s.len() == 0 {
        (seq![], seq![])
    } else {
        let (done, cur) = scan(s.drop_last());
        if s.last() == '/' {
            (if kept(cur) {
                done.push(cur)
            } else {
                done
            }, seq![])
        } else {
            (done, cur.push(s.last()))
        }
    }
}

/// The named segments of `s` between separators, in order.
pub open spec fn segments(s: Seq<char>) -> Seq<Seq<char>> {
    let (done, cur) = scan(s);
    if kept(cur) {
        done.push(cur)
    } else {
        done
    }
}

/// The components of a path: `/` first for an absolute path, then each
/// named segment; empty and `.` segments are dropped.
pub open spec fn components(s: Seq<char>) -> Seq<Seq<char>> {
    if s.len() > 0 && s[0] == '/' {
        seq![seq!['/']] + segments(s)
    } else {
        segments(s)
    }
}

fn kept_exec(seg: &Vec<char>) -> (r: bool)
    ensures
        r == kept(seg@),
{
    let dot: Vec<char> = vec!['.'];
    assert(dot@ =~= seq!['.']);
    seg.len() > 0 && !eq_chars(seg, &dot)
}

/// The components of the path `p`.
pub fn path_components(p: &str) -> (r: Vec<Vec<char>>)
    ensures
        r@.len() == components(p@).len(),
        forall|i: int| 0 <= i < r@.len() ==> (#[trigger] r@[i])@ == components(p@)[i],
{
    let cs = chars_of(p);
    let n = cs.len();
    let mut done: Vec<Vec<char>> = Vec::new();
    let mut cur: Vec<char> = Vec::new();
    let ghost done_v: Seq<Seq<char>> = seq![];
    let mut i: usize = 0;
    assert(cs@.subrange(0, 0) =~= Seq::<char>::empty());
    while i < n
        invariant
            i <= n == cs@.len(),
            cs@ == p@,
            scan(cs@.subrange(0, i as int)) == (done_v, cur@),
            done@.len() == done_v.len(),
            forall|k: int| 0 <= k < done@.len() ==> (#[trigger] done@[k])@ == done_v[k],
        decreases n - i,
    {
        let c = cs[i];
        let ghost pre = cs@.subrange(0, i as int);
        assert(cs@.subrange(0, i + 1).drop_last() =~= pre);
        if c == '/' {
            if kept_exec(&cur) {
                let ghost cv = cur@;
                done.push(cur);
                proof {
                    done_v = done_v.push(cv);
                }
            }
            cur = Vec::new();
        } else {
            cur.push(c);
        }
        i += 1;
        assert(cs@.subrange(0, i as int).last() == c);
    }
    assert(cs@.subrange(0, n as int) =~= cs@);
    if kept_exec(&cur) {
        let ghost cv = cur@;
        done.push(cur);
        proof {
            done_v = done_v.push(cv);
        }
    }
    if n > 0 && cs[0] == '/' {
        let root: Vec<char> = vec!['/'];
        assert(root@ =~= seq!['/']);
        let mut out: Vec<Vec<char>> = Vec::new();
        out.push(root);
        let mut k: usize = 0;
        while k < done.len()
            invariant
                k <= done@.len(),
                done@.len() == done_v.len(),
                forall|j: int| 0 <= j < done@.len() ==> (#[trigger] done@[j])@ == done_v[j],
                out@.len() == k + 1,
                out@[0]@ == seq!['/'],
                forall|j: int| 1 <= j < out@.len() ==> (#[trigger] out@[j])@ == done_v[j - 1],
            decreases done@.len() - k,
        {
            out.push(done[k].clone());
            k += 1;
        }
        assert forall|j: int| 0 <= j < out@.len() implies (#[trigger] out@[j])@ == components(
            p@,
        )[j] by {
            if j > 0 {
                assert(components(p@)[j] == done_v[j - 1]);
            }
        }
        out
    } else {
        done
    }
}

/// The last component of a path, unless that is the root.
pub open spec fn file_name(p: Seq<char>) -> Option<Seq<char>> {
    let c = components(p);
    if c.len() > 0 && c.last() != seq!['/'] {
        Some(c.last())
    } else {
        None
    }
}

/// The component before the last one, if the path has two or more.
pub open spec fn parent_name(p: Seq<char>) -> Option<Seq<char>> {
    let c = components(p);
    if c.len() >= 2 {
        Some(c[c.len() - 2])
    } else {
        None
    }
}

/// The file name of the path `p`.
pub fn path_file_name(p: &str) -> (r: Option<Vec<char>>)
    ensures
        match file_name(p@) {
            Some(n) => r is Some && r->0@ == n,
            None => r is None,
        },
{
    let mut c = path_components(p);
    if c.len() == 0 {
        return None;
    }
    let root: Vec<char> = vec!['/'];
    assert(root@ =~= seq!['/']);
    let last = c.pop().unwrap();
    if eq_chars(&last, &root) {
        None
    } else {
        Some(last)
    }
}

/// The name of the directory holding what the path `p` names.
pub fn path_parent_name(p: &str) -> (r: Option<Vec<char>>)
    ensures
        match parent_name(p@) {
            Some(n) => r is Some && r->0@ == n,
            None => r is None,
        },
{
    let mut c = path_components(p);
    if c.len() < 2 {
        return None;
    }
    c.pop();
    c.pop()
}

} // verus!
