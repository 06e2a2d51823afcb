//! The verified model of the host filesystem and of each bridge operation.
//!
//! A `FileSystem` pictures the disk as a finite map from path (a sequence
//! of characters) to [`Node`](crate::node::Node). Every operation of the
//! command surface is implemented against this model and carries the
//! contract that the bridge promises: when it succeeds, when it fails,
//! with which error, and how the disk changes. The unverified shell that
//! performs the real system calls mirrors these operations one for one.

use vstd::prelude::*;

use crate::error::FsError;
use crate::node::{clone_node, node_denied, node_is_dir, node_size, FsNode, Node};

verus! {

/// `file_exists` reports true: the path names a node whose metadata this
/// process may read. An inaccessible node is reported exactly like a
/// missing one; the operation itself never fails.
pub open spec fn file_exists_spec(m: Map<Seq<char>, Node>, p: Seq<char>) -> bool {
    m.contains_key(p) && !m[p].denied()
}

/// A path whose occupant `create_directory` must reckon with: the target
/// itself, or a proper ancestor named by a separator inside the target.
pub open spec fn create_step_spec(q: Seq<char>, p: Seq<char>) -> bool {
    (q == p && p.len() > 0) || crate::paths::is_dir_prefix_spec(q, p)
}

/// `q` stands in the way of creating the directory `p`: something other
/// than an accessible directory already occupies it.
pub open spec fn create_conflict_spec(m: Map<Seq<char>, Node>, q: Seq<char>, p: Seq<char>) -> bool {
    &&& create_step_spec(q, p)
    &&& m.contains_key(q)
    &&& !(m[q] is Directory && !m[q].denied())
}

/// `create_directory` succeeds: the path is non-empty and nothing stands
/// in the way of it or of any of its ancestors. In particular it succeeds
/// when the directory already exists.
pub open spec fn create_ok_spec(m: Map<Seq<char>, Node>, p: Seq<char>) -> bool {
    p.len() > 0 && (forall|q: Seq<char>| !create_conflict_spec(m, q, p))
}

/// The disk after a successful `create_directory`: the target and every
/// missing ancestor become accessible directories; everything that
/// already existed is untouched.
pub open spec fn after_create_spec(m: Map<Seq<char>, Node>, p: Seq<char>) -> Map<Seq<char>, Node> {
    Map::new(
        |q: Seq<char>| m.contains_key(q) || create_step_spec(q, p),
        |q: Seq<char>|
            if m.contains_key(q) {
                m[q]
            } else {
                Node::Directory { denied: false }
            },
    )
}

/// The disk while a creation is under way: ancestors shorter than `i`
/// characters have been ensured.
spec fn create_upto_spec(m: Map<Seq<char>, Node>, p: Seq<char>, i: int) -> Map<
    Seq<char>,
    Node,
> {
    Map::new(
        |q: Seq<char>| m.contains_key(q) || (crate::paths::is_dir_prefix_spec(q, p) && q.len()
            < i),
        |q: Seq<char>|
            if m.contains_key(q) {
                m[q]
            } else {
                Node::Directory { denied: false }
            },
    )
}

/// What the conflicting occupant `q` makes `create_directory` report.
pub open spec fn create_conflict_err_spec(
    m: Map<Seq<char>, Node>,
    q: Seq<char>,
    p: Seq<char>,
    e: FsError,
) -> bool {
    if !(m[q] is Directory) {
        if q == p {
            e is AlreadyExists
        } else {
            e matches FsError::Other(msg) && msg@ == "not a directory"@
        }
    } else {
        e is PermissionDenied
    }
}

/// The error `create_directory` reports when it fails: an empty path
/// names nothing; otherwise the shortest conflicting occupant decides.
pub open spec fn create_err_spec(m: Map<Seq<char>, Node>, p: Seq<char>, e: FsError) -> bool {
    if p.len() == 0 {
        e is NotFound
    } else {
        exists|q: Seq<char>|
            #[trigger] create_conflict_spec(m, q, p) && (forall|q2: Seq<char>|
                create_conflict_spec(m, q2, p) ==> q.len() <= q2.len())
                && create_conflict_err_spec(m, q, p, e)
    }
}

/// `delete_file` succeeds: the path names an accessible file.
pub open spec fn delete_ok_spec(m: Map<Seq<char>, Node>, p: Seq<char>) -> bool {
    m.contains_key(p) && m[p].is_file() && !m[p].denied()
}

/// The error `delete_file` reports when it fails.
pub open spec fn delete_err_spec(m: Map<Seq<char>, Node>, p: Seq<char>, e: FsError) -> bool {
    if !m.contains_key(p) {
        e is NotFound
    } else if m[p] is Directory {
        e matches FsError::Other(msg) && msg@ == "is a directory"@
    } else {
        e is PermissionDenied
    }
}

/// `copy_file` succeeds: the source is an accessible file and the
/// destination is writable (absent, or an accessible file to overwrite).
pub open spec fn copy_ok_spec(m: Map<Seq<char>, Node>, s: Seq<char>, d: Seq<char>) -> bool {
    &&& m.contains_key(s) && m[s].is_file() && !m[s].denied()
    &&& !m.contains_key(d) || (m[d].is_file() && !m[d].denied())
}

/// The error `copy_file` reports when it fails; the source is examined
/// before the destination.
pub open spec fn copy_err_spec(
    m: Map<Seq<char>, Node>,
    s: Seq<char>,
    d: Seq<char>,
    e: FsError,
) -> bool {
    if !m.contains_key(s) {
        e is NotFound
    } else if m[s] is Directory {
        e matches FsError::Other(msg) && msg@ == "is a directory"@
    } else if m[s].denied() {
        e is PermissionDenied
    } else if m.contains_key(d) && m[d] is Directory {
        e matches FsError::Other(msg) && msg@ == "is a directory"@
    } else {
        e is PermissionDenied
    }
}

/// `get_file_size` succeeds: the path names a node whose metadata is
/// accessible.
pub open spec fn size_ok_spec(m: Map<Seq<char>, Node>, p: Seq<char>) -> bool {
    m.contains_key(p) && !m[p].denied()
}

/// The error `get_file_size` reports when it fails.
pub open spec fn size_err_spec(m: Map<Seq<char>, Node>, p: Seq<char>, e: FsError) -> bool {
    if !m.contains_key(p) {
        e is NotFound
    } else {
        e is PermissionDenied
    }
}

/// `list_directory` succeeds: the path names an accessible directory.
pub open spec fn list_ok_spec(m: Map<Seq<char>, Node>, p: Seq<char>) -> bool {
    m.contains_key(p) && m[p] is Directory && !m[p].denied()
}

/// The error `list_directory` reports when it fails.
pub open spec fn list_err_spec(m: Map<Seq<char>, Node>, p: Seq<char>, e: FsError) -> bool {
    if !m.contains_key(p) {
        e is NotFound
    } else if !(m[p] is Directory) {
        e matches FsError::Other(msg) && msg@ == "not a directory"@
    } else {
        e is PermissionDenied
    }
}

/// The recorded paths that name direct children of the directory `p`.
pub open spec fn children_spec(m: Map<Seq<char>, Node>, p: Seq<char>) -> Set<Seq<char>> {
    Set::new(|c: Seq<char>| m.contains_key(c) && crate::paths::is_child_path_spec(c, p))
}

/// The listed paths as character sequences.
pub open spec fn path_views(v: Seq<String>) -> Seq<Seq<char>> {
    v.map_values(|s: String| s@)
}

/// `save_to_file` succeeds: nothing stands at the path, or an accessible
/// file stands there to be truncated and overwritten.
pub open spec fn save_ok_spec(m: Map<Seq<char>, Node>, p: Seq<char>) -> bool {
    !m.contains_key(p) || (m[p].is_file() && !m[p].denied())
}

/// The error `save_to_file` reports when it fails.
pub open spec fn save_err_spec(m: Map<Seq<char>, Node>, p: Seq<char>, e: FsError) -> bool {
    if m.contains_key(p) && m[p] is Directory {
        e matches FsError::Other(msg) && msg@ == "is a directory"@
    } else {
        e is PermissionDenied
    }
}

/// `read_from_file` succeeds: the path names an accessible file holding
/// valid text.
pub open spec fn read_ok_spec(m: Map<Seq<char>, Node>, p: Seq<char>) -> bool {
    m.contains_key(p) && (m[p] matches Node::TextFile { denied, .. } && !denied)
}

/// The error `read_from_file` reports when it fails.
pub open spec fn read_err_spec(m: Map<Seq<char>, Node>, p: Seq<char>, e: FsError) -> bool {
    if !m.contains_key(p) {
        e is NotFound
    } else if m[p] is Directory {
        e matches FsError::Other(msg) && msg@ == "is a directory"@
    } else if m[p].denied() {
        e is PermissionDenied
    } else {
        e is InvalidEncoding
    }
}

struct FsEntry {
    path: String,
    node: FsNode,
}

/// An in-memory picture of the part of the disk the bridge touches.
pub struct FileSystem {
    entries: Vec<FsEntry>,
}

impl View for FileSystem {
    type V = Map<Seq<char>, Node>;

    closed spec fn view(&self) -> Map<Seq<char>, Node> {
        Map::new(
            |p: Seq<char>|
                exists|i: int|
                    0 <= i < self.entries@.len() && self.entries@[i].path@ == p,
            |p: Seq<char>| self.entries@[self.idx_of(p)].node@,
        )
    }
}

impl FileSystem {
    /// Each path names at most one node.
    pub closed spec fn wf(&self) -> bool {
        forall|i: int, j: int|
            0 <= i < j < self.entries@.len() ==> self.entries@[i].path@
                != self.entries@[j].path@
    }

    spec fn idx_of(&self, p: Seq<char>) -> int {
        choose|i: int| 0 <= i < self.entries@.len() && self.entries@[i].path@ == p
    }

    proof fn lemma_entry_view(&self, i: int)
        requires
            self.wf(),
            0 <= i < self.entries@.len(),
        ensures
            self@.contains_key(self.entries@[i].path@),
            self@[self.entries@[i].path@] == self.entries@[i].node@,
    {
        let p = self.entries@[i].path@;
        assert(self@.dom().contains(p));
        let k = self.idx_of(p);
        assert(0 <= k < self.entries@.len() && self.entries@[k].path@ == p);
        if k < i {
            assert(self.entries@[k].path@ != self.entries@[i].path@);
        } else if i < k {
            assert(self.entries@[i].path@ != self.entries@[k].path@);
        }
    }

    /// An empty disk picture.
    pub fn new() -> (r: FileSystem)
        ensures
            r.wf(),
            r@ == Map::<Seq<char>, Node>::empty(),
    {
        let r = FileSystem { entries: Vec::new() };
        proof {
            assert(r@ =~= Map::<Seq<char>, Node>::empty());
        }
        r
    }

    /// Records `node` at `path`, replacing whatever stood there. This is
    /// how a pre-existing disk state is laid out before the operations
    /// are exercised on it.
    pub fn place(&mut self, path: String, node: FsNode)
        requires
            old(self).wf(),
        ensures
            final(self).wf(),
            final(self)@ == old(self)@.insert(path@, node@),
    {
        self.put(path, node);
    }

    fn find(&self, path: &String) -> (r: Option<usize>)
        requires
            self.wf(),
        ensures
            match r {
                Some(i) => {
                    &&& i < self.entries@.len()
                    &&& self.entries@[i as int].path@ == path@
                    &&& self@.contains_key(path@)
                    &&& self@[path@] == self.entries@[i as int].node@
                },
                None => !self@.contains_key(path@),
            },
    {
        let n = self.entries.len();
        let mut i: usize = 0;
        while i < n
            invariant
                self.wf(),
                n == self.entries@.len(),
                i <= n,
                forall|k: int| 0 <= k < i ==> self.entries@[k].path@ != path@,
            decreases n - i,
        {
            if self.entries[i].path == *path {
                proof {
                    self.lemma_entry_view(i as int);
                }
                return Some(i);
            }
            i += 1;
        }
        proof {
            assert(!self@.dom().contains(path@));
        }
        None
    }

    fn put(&mut self, path: String, node: FsNode)
        requires
            old(self).wf(),
        ensures
            final(self).wf(),
            final(self)@ == old(self)@.insert(path@, node@),
    {
        let found = self.find(&path);
        let ghost prev = *self;
        match found {
            Some(i) => {
                self.entries.set(i, FsEntry { path, node });
                proof {
                    let ge = self.entries@;
                    let pe = prev.entries@;
                    assert(forall|k: int| 0 <= k < ge.len() ==> ge[k].path@ == pe[k].path@);
                    assert(self.wf());
                    let target = prev@.insert(path@, node@);
                    assert forall|q: Seq<char>| #[trigger] self@.contains_key(q) implies
                        target.contains_key(q) by {
                        let k = choose|k: int| 0 <= k < ge.len() && ge[k].path@ == q;
                        prev.lemma_entry_view(k);
                    }
                    assert forall|q: Seq<char>| #[trigger] target.contains_key(q) implies
                        self@.contains_key(q) by {
                        if q == path@ {
                            self.lemma_entry_view(i as int);
                        } else {
                            let k = choose|k: int| 0 <= k < pe.len() && pe[k].path@ == q;
                            assert(ge[k].path@ == q);
                            self.lemma_entry_view(k);
                        }
                    }
                    assert forall|q: Seq<char>| #[trigger] self@.contains_key(q) implies
                        self@[q] == target[q] by {
                        if q == path@ {
                            self.lemma_entry_view(i as int);
                        } else {
                            let k = choose|k: int| 0 <= k < ge.len() && ge[k].path@ == q;
                            self.lemma_entry_view(k);
                            assert(k != i);
                            assert(pe[k].path@ == q);
                            prev.lemma_entry_view(k);
                        }
                    }
                    assert(self@ =~= target);
                }
            },
            None => {
                self.entries.push(FsEntry { path, node });
                proof {
                    let ge = self.entries@;
                    let pe = prev.entries@;
                    let n = pe.len();
                    assert(forall|k: int| 0 <= k < n ==> ge[k] == pe[k]);
                    assert(ge[n as int].path@ == path@);
                    assert forall|k: int| 0 <= k < n implies pe[k].path@ != path@ by {
                        if pe[k].path@ == path@ {
                            prev.lemma_entry_view(k);
                        }
                    }
                    assert(self.wf());
                    let target = prev@.insert(path@, node@);
                    assert forall|q: Seq<char>| #[trigger] self@.contains_key(q) implies
                        target.contains_key(q) by {
                        let k = choose|k: int| 0 <= k < ge.len() && ge[k].path@ == q;
                        if k < n {
                            prev.lemma_entry_view(k);
                        }
                    }
                    assert forall|q: Seq<char>| #[trigger] target.contains_key(q) implies
                        self@.contains_key(q) by {
                        if q == path@ {
                            self.lemma_entry_view(n as int);
                        } else {
                            let k = choose|k: int| 0 <= k < pe.len() && pe[k].path@ == q;
                            assert(ge[k].path@ == q);
                            self.lemma_entry_view(k);
                        }
                    }
                    assert forall|q: Seq<char>| #[trigger] self@.contains_key(q) implies
                        self@[q] == target[q] by {
                        let k = choose|k: int| 0 <= k < ge.len() && ge[k].path@ == q;
                        self.lemma_entry_view(k);
                        if q == path@ {
                            if k < n {
                                assert(pe[k].path@ == path@);
                            }
                            assert(k == n);
                        } else {
                            assert(k < n);
                            prev.lemma_entry_view(k);
                        }
                    }
                    assert(self@ =~= target);
                }
            },
        }
    }

    fn create_check(&self, path: &String) -> (r: Option<FsError>)
        requires
            self.wf(),
            path@.len() > 0,
        ensures
            match r {
                None => forall|q: Seq<char>| !create_conflict_spec(self@, q, path@),
                Some(e) => create_err_spec(self@, path@, e),
            },
    {
        let n = path.as_str().unicode_len();
        let mut i: usize = 1;
        while i < n
            invariant
                self.wf(),
                1 <= i <= n,
                n == path@.len(),
                forall|q: Seq<char>|
                    create_step_spec(q, path@) && q.len() < i ==> !create_conflict_spec(
                        self@,
                        q,
                        path@,
                    ),
            decreases n - i,
        {
            if path.as_str().get_char(i) == '/' {
                let pre = String::from_str(path.as_str().substring_char(0, i));
                proof {
                    assert(pre@ == path@.take(i as int));
                    assert(crate::paths::is_dir_prefix_spec(pre@, path@));
                }
                match self.find(&pre) {
                    None => {},
                    Some(k) => {
                        let nd = &self.entries[k].node;
                        if !node_is_dir(nd) {
                            let e = FsError::Other(String::from_str("not a directory"));
                            proof {
                                assert(create_conflict_spec(self@, pre@, path@));
                                assert forall|q2: Seq<char>|
                                    create_conflict_spec(self@, q2, path@) implies pre@.len()
                                    <= q2.len() by {}
                                assert(create_conflict_err_spec(self@, pre@, path@, e));
                            }
                            return Some(e);
                        } else if node_denied(nd) {
                            let e = FsError::PermissionDenied;
                            proof {
                                assert(create_conflict_spec(self@, pre@, path@));
                                assert forall|q2: Seq<char>|
                                    create_conflict_spec(self@, q2, path@) implies pre@.len()
                                    <= q2.len() by {}
                                assert(create_conflict_err_spec(self@, pre@, path@, e));
                            }
                            return Some(e);
                        }
                    },
                }
                proof {
                    assert forall|q: Seq<char>|
                        create_step_spec(q, path@) && q.len() < i + 1 implies
                        !create_conflict_spec(self@, q, path@) by {
                        if q.len() == i {
                            assert(q == path@.take(i as int));
                        }
                    }
                }
            } else {
                proof {
                    assert forall|q: Seq<char>|
                        create_step_spec(q, path@) && q.len() < i + 1 implies
                        !create_conflict_spec(self@, q, path@) by {
                        if q.len() == i {
                            assert(path@[i as int] != '/');
                        }
                    }
                }
            }
            i += 1;
        }
        match self.find(path) {
            None => {
                proof {
                    assert forall|q: Seq<char>| !create_conflict_spec(self@, q, path@) by {
                        if create_conflict_spec(self@, q, path@) {
                            assert(create_step_spec(q, path@));
                            if q == path@ {
                                assert(self@.contains_key(path@));
                            } else {
                                assert(q.len() < n);
                            }
                        }
                    }
                }
                None
            },
            Some(k) => {
                let nd = &self.entries[k].node;
                if !node_is_dir(nd) {
                    let e = FsError::AlreadyExists;
                    proof {
                        assert(create_conflict_spec(self@, path@, path@));
                        assert forall|q2: Seq<char>|
                            create_conflict_spec(self@, q2, path@) implies path@.len()
                            <= q2.len() by {
                            if q2.len() < n {
                                assert(!create_conflict_spec(self@, q2, path@));
                            }
                        }
                        assert(create_conflict_err_spec(self@, path@, path@, e));
                    }
                    Some(e)
                } else if node_denied(nd) {
                    let e = FsError::PermissionDenied;
                    proof {
                        assert(create_conflict_spec(self@, path@, path@));
                        assert forall|q2: Seq<char>|
                            create_conflict_spec(self@, q2, path@) implies path@.len()
                            <= q2.len() by {
                            if q2.len() < n {
                                assert(!create_conflict_spec(self@, q2, path@));
                            }
                        }
                        assert(create_conflict_err_spec(self@, path@, path@, e));
                    }
                    Some(e)
                } else {
                    proof {
                        assert forall|q: Seq<char>| !create_conflict_spec(self@, q, path@) by {
                            if create_conflict_spec(self@, q, path@) {
                                if q == path@ {
                                } else {
                                    assert(q.len() < n);
                                }
                            }
                        }
                    }
                    None
                }
            },
        }
    }

    /// Creates the directory and any missing ancestors; idempotent — it
    /// succeeds when the directory already exists. Fails when the path is
    /// empty or when the path or an ancestor is occupied by something
    /// other than an accessible directory; nothing is recorded on
    /// failure.
    pub fn create_directory(&mut self, path: String) -> (r: Result<(), FsError>)
        requires
            old(self).wf(),
        ensures
            final(self).wf(),
            r is Ok <==> create_ok_spec(old(self)@, path@),
            r is Ok ==> final(self)@ == after_create_spec(old(self)@, path@),
            r matches Err(e) ==> final(self)@ == old(self)@ && create_err_spec(
                old(self)@,
                path@,
                e,
            ),
    {
        let n = path.as_str().unicode_len();
        if n == 0 {
            return Err(FsError::NotFound);
        }
        match self.create_check(&path) {
            Some(e) => {
                return Err(e);
            },
            None => {},
        }
        let ghost m0 = self@;
        let mut i: usize = 1;
        proof {
            assert(self@ =~= create_upto_spec(m0, path@, 1));
        }
        while i < n
            invariant
                self.wf(),
                1 <= i <= n,
                n == path@.len(),
                self@ == create_upto_spec(m0, path@, i as int),
                forall|q: Seq<char>| !create_conflict_spec(m0, q, path@),
            decreases n - i,
        {
            if path.as_str().get_char(i) == '/' {
                let pre = String::from_str(path.as_str().substring_char(0, i));
                proof {
                    assert(pre@ == path@.take(i as int));
                    assert(crate::paths::is_dir_prefix_spec(pre@, path@));
                }
                match self.find(&pre) {
                    Some(_) => {
                        proof {
                            assert(create_upto_spec(m0, path@, i as int) =~= create_upto_spec(
                                m0,
                                path@,
                                i + 1,
                            )) by {
                                assert forall|q: Seq<char>|
                                    crate::paths::is_dir_prefix_spec(q, path@) && q.len() == i
                                        implies q == pre@ by {}
                                assert(m0.contains_key(pre@) || (
                                crate::paths::is_dir_prefix_spec(pre@, path@) && pre@.len()
                                    < i as int) == self@.contains_key(pre@));
                                assert(self@.contains_key(pre@));
                                assert(m0.contains_key(pre@));
                            }
                        }
                    },
                    None => {
                        proof {
                            assert(!m0.contains_key(pre@));
                        }
                        self.put(pre, FsNode::Directory { denied: false });
                        proof {
                            assert(self@ =~= create_upto_spec(m0, path@, i + 1)) by {
                                assert forall|q: Seq<char>|
                                    crate::paths::is_dir_prefix_spec(q, path@) && q.len() == i
                                        implies q == path@.take(i as int) by {}
                            }
                        }
                    },
                }
            } else {
                proof {
                    assert(create_upto_spec(m0, path@, i as int) =~= create_upto_spec(
                        m0,
                        path@,
                        i + 1,
                    )) by {
                        assert forall|q: Seq<char>|
                            crate::paths::is_dir_prefix_spec(q, path@) && q.len() == i implies
                            false by {
                            assert(path@[i as int] != '/');
                        }
                    }
                }
            }
            i += 1;
        }
        match self.find(&path) {
            Some(_) => {
                proof {
                    assert(self@.contains_key(path@));
                    assert(m0.contains_key(path@));
                    assert(self@ =~= after_create_spec(m0, path@));
                }
            },
            None => {
                proof {
                    assert(!m0.contains_key(path@));
                }
                self.put(path, FsNode::Directory { denied: false });
                proof {
                    assert(self@ =~= after_create_spec(m0, path@));
                }
            },
        }
        Ok(())
    }

    /// Reports whether an accessible node stands at the path. Never
    /// fails: a node whose metadata may not be read is reported as
    /// absent, deliberately indistinguishable from true absence.
    pub fn file_exists(&self, path: String) -> (r: bool)
        requires
            self.wf(),
        ensures
            r == file_exists_spec(self@, path@),
    {
        match self.find(&path) {
            Some(i) => !node_denied(&self.entries[i].node),
            None => false,
        }
    }

    /// Removes exactly one file; fails if the path is a directory, is
    /// inaccessible, or names nothing.
    pub fn delete_file(&mut self, path: String) -> (r: Result<(), FsError>)
        requires
            old(self).wf(),
        ensures
            final(self).wf(),
            r is Ok <==> delete_ok_spec(old(self)@, path@),
            r is Ok ==> final(self)@ == old(self)@.remove(path@),
            r matches Err(e) ==> final(self)@ == old(self)@ && delete_err_spec(
                old(self)@,
                path@,
                e,
            ),
    {
        match self.find(&path) {
            None => Err(FsError::NotFound),
            Some(i) => {
                if node_is_dir(&self.entries[i].node) {
                    Err(FsError::Other(String::from_str("is a directory")))
                } else if node_denied(&self.entries[i].node) {
                    Err(FsError::PermissionDenied)
                } else {
                    self.remove_at(i);
                    Ok(())
                }
            },
        }
    }

    /// Copies the source file byte for byte onto the destination,
    /// overwriting a file already standing there; fails if the source is
    /// not an accessible file or the destination cannot be written.
    pub fn copy_file(&mut self, src: String, dst: String) -> (r: Result<(), FsError>)
        requires
            old(self).wf(),
        ensures
            final(self).wf(),
            r is Ok <==> copy_ok_spec(old(self)@, src@, dst@),
            r is Ok ==> final(self)@ == old(self)@.insert(dst@, old(self)@[src@]),
            r matches Err(e) ==> final(self)@ == old(self)@ && copy_err_spec(
                old(self)@,
                src@,
                dst@,
                e,
            ),
    {
        let si = match self.find(&src) {
            None => {
                return Err(FsError::NotFound);
            },
            Some(i) => i,
        };
        if node_is_dir(&self.entries[si].node) {
            return Err(FsError::Other(String::from_str("is a directory")));
        }
        if node_denied(&self.entries[si].node) {
            return Err(FsError::PermissionDenied);
        }
        match self.find(&dst) {
            Some(di) => {
                if node_is_dir(&self.entries[di].node) {
                    return Err(FsError::Other(String::from_str("is a directory")));
                }
                if node_denied(&self.entries[di].node) {
                    return Err(FsError::PermissionDenied);
                }
            },
            None => {},
        }
        let node = clone_node(&self.entries[si].node);
        self.put(dst, node);
        Ok(())
    }

    /// The byte length that a metadata lookup reports for the path;
    /// fails if the path names nothing or is inaccessible. For a
    /// directory the call succeeds but the value carries no meaning.
    pub fn get_file_size(&self, path: String) -> (r: Result<u64, FsError>)
        requires
            self.wf(),
        ensures
            r is Ok <==> size_ok_spec(self@, path@),
            r matches Ok(n) ==> (self@[path@].is_file() ==> n as nat == self@[path@].size()),
            r matches Err(e) ==> size_err_spec(self@, path@, e),
    {
        match self.find(&path) {
            None => Err(FsError::NotFound),
            Some(i) => {
                if node_denied(&self.entries[i].node) {
                    Err(FsError::PermissionDenied)
                } else {
                    Ok(node_size(&self.entries[i].node))
                }
            },
        }
    }

    /// Enumerates the paths of the directory's direct children, in
    /// unspecified order and without duplicates; the length of the
    /// listing is exactly the number of children. Fails if the path does
    /// not name an accessible directory.
    pub fn list_directory(&self, path: String) -> (r: Result<Vec<String>, FsError>)
        requires
            self.wf(),
        ensures
            r is Ok <==> list_ok_spec(self@, path@),
            r matches Ok(v) ==> {
                &&& path_views(v@).no_duplicates()
                &&& path_views(v@).to_set() == children_spec(self@, path@)
                &&& v@.len() == children_spec(self@, path@).len()
            },
            r matches Err(e) ==> list_err_spec(self@, path@, e),
    {
        match self.find(&path) {
            None => {
                return Err(FsError::NotFound);
            },
            Some(i) => {
                let nd = &self.entries[i].node;
                if !node_is_dir(nd) {
                    return Err(FsError::Other(String::from_str("not a directory")));
                }
                if node_denied(nd) {
                    return Err(FsError::PermissionDenied);
                }
            },
        }
        let n = self.entries.len();
        let mut out: Vec<String> = Vec::new();
        let mut k: usize = 0;
        while k < n
            invariant
                self.wf(),
                n == self.entries@.len(),
                k <= n,
                forall|t: int|
                    0 <= t < out@.len() ==> crate::paths::is_child_path_spec(
                        #[trigger] out@[t]@,
                        path@,
                    ) && self@.contains_key(out@[t]@),
                forall|t1: int, t2: int|
                    0 <= t1 < t2 < out@.len() ==> out@[t1]@ != out@[t2]@,
                forall|t: int|
                    0 <= t < out@.len() ==> exists|j: int|
                        0 <= j < k && #[trigger] out@[t]@ == self.entries@[j].path@,
                forall|j: int|
                    0 <= j < k && crate::paths::is_child_path_spec(
                        #[trigger] self.entries@[j].path@,
                        path@,
                    ) ==> exists|t: int|
                        0 <= t < out@.len() && #[trigger] out@[t]@ == self.entries@[j].path@,
            decreases n - k,
        {
            if crate::paths::is_child_path(self.entries[k].path.as_str(), path.as_str()) {
                let ghost prev_out = out@;
                out.push(self.entries[k].path.clone());
                proof {
                    self.lemma_entry_view(k as int);
                    assert forall|t1: int, t2: int|
                        0 <= t1 < t2 < out@.len() implies out@[t1]@ != out@[t2]@ by {
                        if t2 == out@.len() - 1 {
                            let j = choose|j: int|
                                0 <= j < k && #[trigger] prev_out[t1]@ == self.entries@[j].path@;
                            assert(self.entries@[j].path@ != self.entries@[k as int].path@);
                        }
                    }
                    assert forall|t: int| 0 <= t < out@.len() implies exists|j: int|
                        0 <= j < k + 1 && #[trigger] out@[t]@ == self.entries@[j].path@ by {
                        if t == out@.len() - 1 {
                            assert(out@[t]@ == self.entries@[k as int].path@);
                        } else {
                            let j = choose|j: int|
                                0 <= j < k && #[trigger] prev_out[t]@ == self.entries@[j].path@;
                            assert(out@[t]@ == self.entries@[j].path@);
                        }
                    }
                    assert forall|j: int|
                        0 <= j < k + 1 && crate::paths::is_child_path_spec(
                            #[trigger] self.entries@[j].path@,
                            path@,
                        ) implies exists|t: int|
                        0 <= t < out@.len() && #[trigger] out@[t]@ == self.entries@[j].path@ by {
                        if j == k {
                            assert(out@[out@.len() - 1]@ == self.entries@[k as int].path@);
                        } else {
                            let t = choose|t: int|
                                0 <= t < prev_out.len() && #[trigger] prev_out[t]@
                                    == self.entries@[j].path@;
                            assert(out@[t]@ == self.entries@[j].path@);
                        }
                    }
                }
            }
            k += 1;
        }
        proof {
            let pv = path_views(out@);
            assert(pv.no_duplicates());
            assert forall|c: Seq<char>| #[trigger] pv.to_set().contains(c) implies
                children_spec(self@, path@).contains(c) by {
                let t = choose|t: int| 0 <= t < pv.len() && pv[t] == c;
                assert(out@[t]@ == c);
            }
            assert forall|c: Seq<char>| #[trigger] children_spec(self@, path@).contains(c)
                implies pv.to_set().contains(c) by {
                let j = choose|j: int|
                    0 <= j < self.entries@.len() && self.entries@[j].path@ == c;
                assert(crate::paths::is_child_path_spec(self.entries@[j].path@, path@));
                let t = choose|t: int|
                    0 <= t < out@.len() && #[trigger] out@[t]@ == self.entries@[j].path@;
                assert(pv[t] == c);
            }
            assert(pv.to_set() =~= children_spec(self@, path@));
            pv.unique_seq_to_set();
        }
        Ok(out)
    }

    /// Creates or truncates the file at the path and writes the given
    /// text; fails if a directory or an inaccessible file stands there.
    pub fn save_to_file(&mut self, file_path: String, content: String) -> (r: Result<
        (),
        FsError,
    >)
        requires
            old(self).wf(),
        ensures
            final(self).wf(),
            r is Ok <==> save_ok_spec(old(self)@, file_path@),
            r is Ok ==> final(self)@ == old(self)@.insert(
                file_path@,
                Node::TextFile { content: content@, denied: false },
            ),
            r matches Err(e) ==> final(self)@ == old(self)@ && save_err_spec(
                old(self)@,
                file_path@,
                e,
            ),
    {
        match self.find(&file_path) {
            Some(i) => {
                if node_is_dir(&self.entries[i].node) {
                    return Err(FsError::Other(String::from_str("is a directory")));
                }
                if node_denied(&self.entries[i].node) {
                    return Err(FsError::PermissionDenied);
                }
            },
            None => {},
        }
        self.put(file_path, FsNode::TextFile { content, denied: false });
        Ok(())
    }

    /// Reads the whole file back as text; fails if the path names
    /// nothing, is a directory, is inaccessible, or does not hold valid
    /// text.
    pub fn read_from_file(&self, file_path: String) -> (r: Result<String, FsError>)
        requires
            self.wf(),
        ensures
            r is Ok <==> read_ok_spec(self@, file_path@),
            r matches Ok(s) ==> self@[file_path@] == (Node::TextFile {
                content: s@,
                denied: false,
            }),
            r matches Err(e) ==> read_err_spec(self@, file_path@, e),
    {
        match self.find(&file_path) {
            None => Err(FsError::NotFound),
            Some(i) => match &self.entries[i].node {
                FsNode::Directory { .. } => Err(
                    FsError::Other(String::from_str("is a directory")),
                ),
                FsNode::TextFile { content, denied } => {
                    if *denied {
                        Err(FsError::PermissionDenied)
                    } else {
                        Ok(content.clone())
                    }
                },
                FsNode::BinaryFile { denied, .. } => {
                    if *denied {
                        Err(FsError::PermissionDenied)
                    } else {
                        Err(FsError::InvalidEncoding)
                    }
                },
            },
        }
    }

    fn remove_at(&mut self, i: usize)
        requires
            old(self).wf(),
            i < old(self).entries@.len(),
        ensures
            final(self).wf(),
            final(self)@ == old(self)@.remove(old(self).entries@[i as int].path@),
    {
        let ghost prev = *self;
        self.entries.remove(i);
        proof {
            let ge = self.entries@;
            let pe = prev.entries@;
            let n = pe.len();
            let p = pe[i as int].path@;
            assert(forall|k: int| 0 <= k < i ==> ge[k] == pe[k]);
            assert(forall|k: int| i <= k < n - 1 ==> ge[k] == pe[k + 1]);
            assert forall|a: int, b: int| 0 <= a < b < ge.len() implies ge[a].path@
                != ge[b].path@ by {
                let a2: int = if a < i { a } else { a + 1 };
                let b2: int = if b < i { b } else { b + 1 };
                assert(pe[a2].path@ != pe[b2].path@);
            }
            assert(self.wf());
            let target = prev@.remove(p);
            assert forall|q: Seq<char>| #[trigger] self@.contains_key(q) implies
                target.contains_key(q) by {
                let k = choose|k: int| 0 <= k < ge.len() && ge[k].path@ == q;
                let k2: int = if k < i { k } else { k + 1 };
                assert(pe[k2].path@ == q);
                prev.lemma_entry_view(k2);
                if k2 < i {
                    assert(pe[k2].path@ != pe[i as int].path@);
                } else if k2 > i {
                    assert(pe[i as int].path@ != pe[k2].path@);
                }
            }
            assert forall|q: Seq<char>| #[trigger] target.contains_key(q) implies
                self@.contains_key(q) by {
                let k = choose|k: int| 0 <= k < pe.len() && pe[k].path@ == q;
                assert(k != i);
                let k2: int = if k < i { k } else { k - 1 };
                assert(ge[k2].path@ == q);
                self.lemma_entry_view(k2);
            }
            assert forall|q: Seq<char>| #[trigger] self@.contains_key(q) implies self@[q]
                == target[q] by {
                let k = choose|k: int| 0 <= k < ge.len() && ge[k].path@ == q;
                self.lemma_entry_view(k);
                let k2: int = if k < i { k } else { k + 1 };
                assert(pe[k2].path@ == q);
                prev.lemma_entry_view(k2);
                if k2 < i {
                    assert(pe[k2].path@ != pe[i as int].path@);
                } else if k2 > i {
                    assert(pe[i as int].path@ != pe[k2].path@);
                }
            }
            assert(self@ =~= target);
        }
    }
}

} // verus!
