//! Character-level path reasoning.
//!
//! Paths are opaque strings: the bridge performs no normalization and no
//! sandbox check. The only structure it reads out of a path is the `/`
//! separator, for two purposes: deciding which paths are direct children
//! of a directory (enumeration), and finding a path's parent directory.

use vstd::prelude::*;

verus! {

/// Character-for-character equality of two strings.
pub fn str_eq(a: &str, b: &str) -> (r: bool)
    ensures
        r == (a@ == b@),
{
    let alen = a.unicode_len();
    let blen = b.unicode_len();
    if alen != blen {
        return false;
    }
    let mut i: usize = 0;
    while i < alen
        invariant
            i <= alen,
            alen == a@.len(),
            alen == b@.len(),
            forall|k: int| 0 <= k < i ==> a@[k] == b@[k],
        decreases alen - i,
    {
        if a.get_char(i) != b.get_char(i) {
            return false;
        }
        i += 1;
    }
    proof {
        assert(a@ =~= b@);
    }
    true
}

/// `c` names a direct child of the directory `d`: it is `d`, then one `/`,
/// then a non-empty final component free of further separators.
pub open spec fn is_child_path_spec(c: Seq<char>, d: Seq<char>) -> bool {
    &&& c.len() > d.len() + 1
    &&& c.take(d.len() as int) == d
    &&& c[d.len() as int] == '/'
    &&& forall|k: int| d.len() + 1 <= k < c.len() ==> c[k] != '/'
}

/// Decides whether `c` names a direct child of the directory `d`.
pub fn is_child_path(c: &str, d: &str) -> (r: bool)
    ensures
        r == is_child_path_spec(c@, d@),
{
    let clen = c.unicode_len();
    let dlen = d.unicode_len();
    if clen <= dlen {
        return false;
    }
    if clen - dlen <= 1 {
        return false;
    }
    let mut i: usize = 0;
    while i < dlen
        invariant
            i <= dlen,
            dlen == d@.len(),
            clen == c@.len(),
            clen > dlen + 1,
            forall|k: int| 0 <= k < i ==> c@[k] == d@[k],
        decreases dlen - i,
    {
        if c.get_char(i) != d.get_char(i) {
            proof {
                assert(c@.take(d@.len() as int)[i as int] != d@[i as int]);
            }
            return false;
        }
        i += 1;
    }
    proof {
        assert(c@.take(d@.len() as int) =~= d@);
    }
    if c.get_char(dlen) != '/' {
        return false;
    }
    let mut j: usize = dlen + 1;
    while j < clen
        invariant
            dlen + 1 <= j <= clen,
            dlen == d@.len(),
            clen == c@.len(),
            forall|k: int| dlen + 1 <= k < j ==> c@[k] != '/',
        decreases clen - j,
    {
        if c.get_char(j) == '/' {
            return false;
        }
        j += 1;
    }
    true
}

/// `q` names a proper ancestor written inside `p`: it is the part of `p`
/// before one of `p`'s separators.
pub open spec fn is_dir_prefix_spec(q: Seq<char>, p: Seq<char>) -> bool {
    &&& 0 < q.len() < p.len()
    &&& q == p.take(q.len() as int)
    &&& p[q.len() as int] == '/'
}

/// The parent directory of `p`, if `p` has one.
///
/// This reads only the `/` separators: the empty path and the bare root
/// have no parent; a path whose last separator opens the string parents
/// to the root itself; a separator-free path parents to the empty string
/// (a relative name resolved in the current directory). Trailing
/// separators are not stripped.
pub open spec fn parent_of_spec(p: Seq<char>) -> Option<Seq<char>> {
    if p.len() == 0 || p == "/"@ {
        None
    } else if exists|k: int| 0 <= k < p.len() && p[k] == '/' {
        if last_slash_of(p) == 0 {
            Some("/"@)
        } else {
            Some(p.take(last_slash_of(p)))
        }
    } else {
        Some(Seq::<char>::empty())
    }
}

/// The index of the last `/` in `p`, assuming one exists.
pub open spec fn last_slash_of(p: Seq<char>) -> int {
    choose|k: int| 0 <= k < p.len() && p[k] == '/' && (forall|m: int| k < m < p.len() ==> p[m] != '/')
}

proof fn lemma_last_slash(p: Seq<char>, k: int)
    requires
        0 <= k < p.len(),
        p[k] == '/',
        forall|m: int| k < m < p.len() ==> p[m] != '/',
    ensures
        last_slash_of(p) == k,
        exists|i: int| 0 <= i < p.len() && p[i] == '/',
{
    assert(exists|i: int|
        0 <= i < p.len() && p[i] == '/' && (forall|m: int| i < m < p.len() ==> p[m] != '/'));
    let j = last_slash_of(p);
    if j < k {
        assert(p[k] == '/');
        assert(false);
    }
    if j > k {
        assert(p[j] == '/');
        assert(false);
    }
}

/// Computes the parent directory of `p`, if `p` has one.
pub fn parent_of(p: &str) -> (r: Option<String>)
    ensures
        match r {
            Some(s) => parent_of_spec(p@) == Some(s@),
            None => parent_of_spec(p@) is None,
        },
{
    let len = p.unicode_len();
    if len == 0 || str_eq(p, "/") {
        return None;
    }
    let mut j: usize = len;
    while j > 0
        invariant
            j <= len,
            len == p@.len(),
            len > 0,
            p@ != "/"@,
            forall|m: int| j <= m < len ==> p@[m] != '/',
        decreases j,
    {
        j -= 1;
        if p.get_char(j) == '/' {
            proof {
                lemma_last_slash(p@, j as int);
            }
            if j == 0 {
                return Some(String::from_str("/"));
            } else {
                let sub = p.substring_char(0, j);
                proof {
                    assert(p@.take(j as int) == p@.subrange(0, j as int));
                }
                return Some(String::from_str(sub));
            }
        }
    }
    proof {
        assert(forall|k: int| 0 <= k < p@.len() ==> p@[k] != '/');
    }
    Some(String::new())
}

} // verus!
