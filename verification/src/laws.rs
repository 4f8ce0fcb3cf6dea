//! The library's laws: properties that relate several operations, stated
//! over the adapter's abstract state and proved once for all inputs.
//!
//! Each law is phrased over the same model the operations' own contracts
//! use — the virtual filesystem as a map from names to entries, and the
//! diagnostics sink as the record sequence of the most recent attempt — so
//! together with those contracts it covers every run of the operations.

use vstd::prelude::*;

use crate::adapter::TypJs;
use crate::store::EntrySnap;

verus! {

/// Writing then listing: after a write of `n`, the store contains `n`; a
/// second write of the same name replaces the entry rather than adding one,
/// so the set of stored names is unchanged by the overwrite.
pub proof fn law_write_replaces(
    pre: TypJs,
    mid: TypJs,
    post: TypJs,
    n: Seq<char>,
    t: Seq<char>,
    t2: Seq<char>,
)
    requires
        mid.vfs() == pre.vfs().insert(n, EntrySnap::Text(t)),
        post.vfs() == mid.vfs().insert(n, EntrySnap::Text(t2)),
    ensures
        mid.vfs().contains_key(n),
        post.vfs() == pre.vfs().insert(n, EntrySnap::Text(t2)),
        post.vfs().dom() == mid.vfs().dom(),
{
    assert(post.vfs() =~= pre.vfs().insert(n, EntrySnap::Text(t2)));
    assert(post.vfs().dom() =~= mid.vfs().dom());
}

/// Deleting removes the name from the store; deleting a name never stored
/// changes nothing and raises no error.
pub proof fn law_delete(pre: TypJs, post: TypJs, n: Seq<char>)
    requires
        post.vfs() == pre.vfs().remove(n),
    ensures
        !post.vfs().contains_key(n),
        !pre.vfs().contains_key(n) ==> post.vfs() == pre.vfs(),
{
    if !pre.vfs().contains_key(n) {
        assert(post.vfs() =~= pre.vfs());
    }
}

/// A fresh adapter stores exactly the main file and nothing else.
pub proof fn law_fresh_store(a: TypJs)
    requires
        a.vfs() == Map::<Seq<char>, EntrySnap>::empty().insert(
            "main.typ"@,
            EntrySnap::Text("typ-js is ready"@),
        ),
    ensures
        a.vfs().contains_key("main.typ"@),
        forall|n: Seq<char>| a.vfs().contains_key(n) ==> n == "main.typ"@,
{
}

/// Attaching bytes stores them unchanged: the entry under the attached name
/// is exactly the attached blob, so a byte lookup returns it byte for byte
/// and a source lookup reports the binary-mismatch condition.
pub proof fn law_attach_roundtrip(pre: TypJs, post: TypJs, n: Seq<char>, b: Seq<u8>)
    requires
        post.vfs() == pre.vfs().insert(n, EntrySnap::Bin(b)),
    ensures
        post.vfs().contains_key(n),
        post.vfs()[n] == EntrySnap::Bin(b),
        post.vfs()[n] is Bin,
{
}

} // verus!
