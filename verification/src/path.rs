//! Paths as text: equality, and whether one lies under another.
//!
//! Paths are compared byte by byte in their UTF-8 form, and a component ends
//! at a separator. No path is read from the file system here.

use vstd::prelude::*;
use vstd::utf8::{encode_utf8, encode_utf8_decode_utf8};

verus! {

/// The byte that separates the components of a path.
pub const SEPARATOR: u8 = 0x2F;

/// Whether `path` is `root` or lies below it.
pub open spec fn under(root: Seq<u8>, path: Seq<u8>) -> bool {
    &&& root.len() <= path.len()
    &&& path.subrange(0, root.len() as int) == root
    &&& (path.len() == root.len() || path[root.len() as int] == SEPARATOR || (root.len() > 0
        && root.last() == SEPARATOR))
}

/// Where the part of a path below `root` begins.
pub open spec fn below(root: Seq<u8>) -> int {
    if root.len() > 0 && root.last() == SEPARATOR {
        root.len() as int
    } else {
        root.len() as int + 1
    }
}

/// Whether a change at `path` is one that a watch on `root` reports: with
/// `recursive` anything at or under the root, without it the root itself and
/// what lies directly in it.
pub open spec fn reported(root: Seq<u8>, path: Seq<u8>, recursive: bool) -> bool {
    under(root, path) && (recursive || forall|j: int|
        below(root) <= j < path.len() ==> path[j] != SEPARATOR)
}

/// Whether two texts are the same, character by character.
pub fn same_text(a: &str, b: &str) -> (r: bool)
    ensures
        r == (a@ == b@),
{
    let x = a.as_bytes();
    let y = b.as_bytes();
    proof {
        encode_utf8_decode_utf8(a@);
        encode_utf8_decode_utf8(b@);
    }
    if x.len() != y.len() {
        return false;
    }
    let mut i: usize = 0;
    while i < x.len()
        invariant
            i <= x@.len(),
            x@.len() == y@.len(),
            x@ == encode_utf8(a@),
            y@ == encode_utf8(b@),
            forall|j: int| 0 <= j < i ==> x@[j] == y@[j],
        decreases x@.len() - i,
    {
        if x[i] != y[i] {
            return false;
        }
        i += 1;
    }
    assert(x@ =~= y@);
    true
}

/// Whether `path` is `root` or lies below it.
fn lies_under(root: &[u8], path: &[u8]) -> (r: bool)
    ensures
        r == under(root@, path@),
{
    if root.len() > path.len() {
        return false;
    }
    let mut i: usize = 0;
    while i < root.len()
        invariant
            i <= root@.len() <= path@.len(),
            forall|j: int| 0 <= j < i ==> root@[j] == path@[j],
        decreases root@.len() - i,
    {
        if root[i] != path[i] {
            assert(path@.subrange(0, root@.len() as int)[i as int] == path@[i as int]);
            return false;
        }
        i += 1;
    }
    assert(path@.subrange(0, root@.len() as int) =~= root@);
    path.len() == root.len() || path[root.len()] == SEPARATOR || (root.len() > 0 && root[root.len()
        - 1] == SEPARATOR)
}

/// Whether a watch on `root` reports a change at `path`.
pub fn reports(root: &str, path: &str, recursive: bool) -> (r: bool)
    ensures
        r == reported(encode_utf8(root@), encode_utf8(path@), recursive),
{
    let rb = root.as_bytes();
    let pb = path.as_bytes();
    if !lies_under(rb, pb) {
        return false;
    }
    if recursive || pb.len() == rb.len() {
        return true;
    }
    let mut j: usize = if rb.len() > 0 && rb[rb.len() - 1] == SEPARATOR {
        rb.len()
    } else {
        rb.len() + 1
    };
    while j < pb.len()
        invariant
            rb@ == encode_utf8(root@),
            pb@ == encode_utf8(path@),
            under(rb@, pb@),
            !recursive,
            below(rb@) <= j,
            forall|k: int| below(rb@) <= k < j && k < pb@.len() ==> pb@[k] != SEPARATOR,
        decreases pb@.len() - j,
    {
        if pb[j] == SEPARATOR {
            return false;
        }
        j += 1;
    }
    true
}

} // verus!
