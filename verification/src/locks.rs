//! The lock broker: one global reader/writer lock guarding the tree.
//!
//! Acquisition blocks until the requested access is available; a handle must
//! be released on every path once work under the lock is done. A writer
//! excludes readers and other writers; readers share. Every value stored in
//! the lock satisfies the lock's predicate, so whatever is read out is
//! well-formed, and only well-formed trees can be stored back.

use vstd::prelude::*;
use vstd::rwlock::RwLock;
use crate::tree::Tree;

verus! {

/// The tree lock holds well-formed trees only.
pub open spec fn tree_lock_inv() -> spec_fn(Tree) -> bool {
    |t: Tree| t.wf()
}

/// The single global reader/writer lock guarding the tree.
pub type TreeLock = RwLock<Tree, spec_fn(Tree) -> bool>;

/// Wraps a well-formed tree in a fresh lock.
pub fn new_tree_lock(t: Tree) -> (l: TreeLock)
    requires
        t.wf(),
    ensures
        l.pred() == tree_lock_inv(),
{
    RwLock::new(t, Ghost(tree_lock_inv()))
}

} // verus!
