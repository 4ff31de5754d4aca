//! The fault taxonomy of the dispatch layer.

use vstd::prelude::*;

verus! {

/// A failure reported by the window-tree collaborator when a delegated
/// operation cannot be carried out.
#[derive(Debug, Clone, PartialEq, Eq)]
pub enum TreeError {
    /// No container is focused, so an operation on the active container
    /// cannot proceed.
    NoActiveContainer,
    /// The identifier does not name a live tree node.
    NotFound(u128),
    /// No workspace with the given name exists.
    NoSuchWorkspace(String),
    /// The tree has no active workspace.
    NoActiveWorkspace,
    /// A workspace with this name already exists.
    WorkspaceExists(String),
    /// A view with this identifier already exists.
    ViewExists(u128),
}

/// The uniform fault returned across the remote-call boundary.
///
/// Validation faults are produced before any lock is touched; a delegated
/// failure is wrapped so that no collaborator-internal error crosses the
/// boundary unconverted.
#[derive(Debug, Clone, PartialEq, Eq)]
pub enum CommandError {
    /// A wire argument was malformed; carries the field name.
    InvalidArgument(String),
    /// A target was required, none was supplied, and no container is active.
    NoActiveTarget,
    /// A delegated tree operation reported a failure.
    TreeOperationFailed(TreeError),
    /// A registry category with this name already exists.
    CategoryAlreadyExists(String),
}

} // verus!
