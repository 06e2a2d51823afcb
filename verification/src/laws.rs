//! The promises that tie the operations together, proved once and for
//! all over the disk model. Each law is stated over the same spec
//! functions that the operations' own contracts use, so it applies to
//! every run of the executable operations.

use vstd::prelude::*;

use crate::error::FsError;
use crate::fs::{
    after_create_spec, copy_ok_spec, create_ok_spec, create_step_spec, delete_ok_spec,
    file_exists_spec, read_ok_spec, save_ok_spec, size_err_spec, size_ok_spec,
};
use crate::node::Node;

verus! {

/// Creating a directory makes its path visible: on any disk where `p`
/// names nothing and `create_directory(p)` succeeds, `file_exists(p)`
/// afterwards reports true.
pub proof fn lemma_create_then_exists(m: Map<Seq<char>, Node>, p: Seq<char>)
    requires
        !m.contains_key(p),
        create_ok_spec(m, p),
    ensures
        file_exists_spec(after_create_spec(m, p), p),
{
    assert(create_step_spec(p, p));
    assert(after_create_spec(m, p).contains_key(p));
    assert(after_create_spec(m, p)[p] == Node::Directory { denied: false });
}

/// Deleting a file removes its path from sight: on any disk where
/// `delete_file(p)` succeeds, `file_exists(p)` afterwards reports false.
pub proof fn lemma_delete_then_gone(m: Map<Seq<char>, Node>, p: Seq<char>)
    requires
        delete_ok_spec(m, p),
    ensures
        !file_exists_spec(m.remove(p), p),
{
}

/// A copy reports the same size at both ends: after `copy_file(s, d)`
/// succeeds, `get_file_size` succeeds on both paths and reports equal
/// values.
pub proof fn lemma_copy_preserves_size(m: Map<Seq<char>, Node>, s: Seq<char>, d: Seq<char>)
    requires
        copy_ok_spec(m, s, d),
    ensures
        size_ok_spec(m.insert(d, m[s]), s),
        size_ok_spec(m.insert(d, m[s]), d),
        m.insert(d, m[s])[s].size() == m.insert(d, m[s])[d].size(),
{
}

/// Saving then reading is the identity on the text: after
/// `save_to_file(p, c)` succeeds, `read_from_file(p)` succeeds and hands
/// back exactly `c`.
pub proof fn lemma_save_then_read(m: Map<Seq<char>, Node>, p: Seq<char>, c: Seq<char>)
    requires
        save_ok_spec(m, p),
    ensures
        read_ok_spec(m.insert(p, Node::TextFile { content: c, denied: false }), p),
        m.insert(p, Node::TextFile { content: c, denied: false })[p] == (Node::TextFile {
            content: c,
            denied: false,
        }),
{
}

/// An inaccessible node reads as absent to `file_exists` — deliberately
/// indistinguishable from true absence — while `get_file_size` still
/// tells the two apart: it reports a permission error, not absence.
pub proof fn lemma_denied_reads_as_absent(m: Map<Seq<char>, Node>, p: Seq<char>)
    requires
        m.contains_key(p),
        m[p].denied(),
    ensures
        !file_exists_spec(m, p),
        forall|e: FsError| size_err_spec(m, p, e) ==> e is PermissionDenied,
{
}

} // verus!
