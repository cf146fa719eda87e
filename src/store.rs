//! A model of the files' contents, by path, and of what a copy does to it.
use vstd::prelude::*;

verus! {

/// The contents of the files, by path.
pub type Contents = Map<Seq<char>, Seq<u8>>;

/// The contents after `from` is copied over `to`: `to` holds the bytes of
/// `from`, every other file is unchanged.
pub open spec fn copied(store: Contents, from: Seq<char>, to: Seq<char>) -> Contents {
    store.insert(to, store[from])
}

/// Copying a file that has not changed again leaves every file as the first
/// copy left it.
pub proof fn lemma_copy_idempotent(store: Contents, from: Seq<char>, to: Seq<char>)
    requires
        store.contains_key(from),
    ensures
        copied(copied(store, from, to), from, to) == copied(store, from, to),
        copied(store, from, to)[to] == store[from],
{
    assert(copied(copied(store, from, to), from, to) =~= copied(store, from, to));
}

} // verus!
