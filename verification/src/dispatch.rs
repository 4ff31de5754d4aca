//! The command dispatcher: for every named operation, resolve the wire
//! arguments, fill in an omitted target from the active container, take the
//! tree lock in the right mode, delegate, and translate the outcome.
//!
//! Each operation has two layers. The typed layer (`apply_*` and the `*_on`
//! readers) works on a tree already in hand and carries the full contract:
//! exactly which fault comes back on which input, and exactly how the tree
//! changes — on every fault path the tree is untouched, and on success
//! exactly one delegated change occurs. The wire layer takes the lock
//! broker and raw strings: it validates arguments strictly before acquiring
//! the lock, releases the lock on every path, and never lets a
//! collaborator-internal error cross unconverted.

use vstd::prelude::*;
use crate::args::{
    parse_identifier,
    parse_direction,
    parse_axis,
    parse_edge,
    parsed_ident,
    direction_of,
    axis_of,
    edges_of,
    ContainerIdentifier,
    Direction,
    SplitAxis,
    ResizeEdge,
};
use crate::errors::{CommandError, TreeError};
use crate::ident::{format_uuid, uuid_well_formed, uuid_value};
use crate::locks::{TreeLock, tree_lock_inv};
use crate::tree::{Tree, Node, Point};

verus! {

/// The identifier an operation acts on: the explicit one if supplied, else
/// the tree's active container.
pub open spec fn target_of(t: Tree, explicit: Option<ContainerIdentifier>) -> Option<u128> {
    match explicit {
        Some(id) => Some(id.0),
        None => t.active_id_spec(),
    }
}

/// Everything but the node list is unchanged.
pub open spec fn same_except_nodes(a: Tree, b: Tree) -> bool {
    &&& b.workspaces == a.workspaces
    &&& b.active_workspace == a.active_workspace
    &&& b.active == a.active
    &&& b.pointer == a.pointer
    &&& b.grab == a.grab
}

/// One node was rewritten in place; nothing else moved.
pub open spec fn node_updated(pre: Tree, post: Tree, id: u128, n: Node) -> bool {
    &&& post.nodes@ == pre.nodes@.update(pre.idx_of(id), n)
    &&& same_except_nodes(pre, post)
}

/// The fault is a malformed-argument fault naming this field.
pub open spec fn invalid_field(e: CommandError, field: Seq<char>) -> bool {
    e matches CommandError::InvalidArgument(f) && f@ == field
}

/// The uniform wrapping of a delegated failure.
pub open spec fn tree_fault(te: TreeError) -> CommandError {
    CommandError::TreeOperationFailed(te)
}

/// Resolves the target of an operation: the explicit identifier if one was
/// supplied, else the active container, else a fault — and in that last
/// case no delegated call can follow.
pub fn resolve_target(tree: &Tree, explicit: Option<ContainerIdentifier>) -> (r: Result<
    u128,
    CommandError,
>)
    requires
        tree.wf(),
    ensures
        match r {
            Ok(v) => target_of(*tree, explicit) == Some(v),
            Err(e) => target_of(*tree, explicit) is None && e == (CommandError::NoActiveTarget),
        },
{
    match explicit {
        Some(id) => Ok(id.0),
        None => match tree.active_id() {
            Some(v) => Ok(v),
            None => Err(CommandError::NoActiveTarget),
        },
    }
}

/// The active container's identifier rendered for the wire; the empty
/// string when nothing is active, which is a valid result and no fault.
pub fn active_container_id_on(tree: &Tree) -> (r: String)
    requires
        tree.wf(),
    ensures
        match tree.active_id_spec() {
            Some(v) => uuid_well_formed(r@) && uuid_value(r@) == v as nat,
            None => r@.len() == 0,
        },
{
    match tree.active_id() {
        Some(v) => format_uuid(v),
        None => String::new(),
    }
}

/// Toggles floating. With an explicit target a delegated failure surfaces;
/// without one the delegation is fire-and-forget, as the global command
/// path reports nothing. Either way the flag of the active container flips:
/// the delegated call ignores the explicit identifier.
pub fn apply_toggle_float(tree: &mut Tree, target: Option<ContainerIdentifier>) -> (r: Result<
    bool,
    CommandError,
>)
    requires
        old(tree).wf(),
    ensures
        final(tree).wf(),
        match old(tree).active {
            Some(i) => r == Ok::<bool, CommandError>(true) && node_updated(
                *old(tree),
                *final(tree),
                old(tree).nodes@[i as int].id,
                (Node { floating: !old(tree).nodes@[i as int].floating, ..old(tree).nodes@[i as int] }),
            ),
            None => *final(tree) == *old(tree) && r == (match target {
                Some(_) => Err::<bool, CommandError>(tree_fault(TreeError::NoActiveContainer)),
                None => Ok::<bool, CommandError>(true),
            }),
        },
{
    proof {
        if old(tree).active is Some {
            let i = old(tree).active->0;
            let w = tree.idx_of(tree.nodes@[i as int].id);
            if w != i as int {
                assert(tree.nodes@[w].id != tree.nodes@[i as int].id);
            }
        }
    }
    let res = tree.toggle_float();
    match target {
        Some(_) => match res {
            Ok(()) => Ok(true),
            Err(te) => Err(CommandError::TreeOperationFailed(te)),
        },
        None => Ok(true),
    }
}

/// Applies one of the four global layout commands, keyed by the axis, to
/// the active container. A tree without one reports nothing: the delegated
/// commands swallow that case, so the call still succeeds.
pub fn apply_split(tree: &mut Tree, axis: SplitAxis) -> (r: Result<bool, CommandError>)
    requires
        old(tree).wf(),
    ensures
        final(tree).wf(),
        r == Ok::<bool, CommandError>(true),
        match old(tree).active {
            Some(i) => node_updated(
                *old(tree),
                *final(tree),
                old(tree).nodes@[i as int].id,
                (Node { layout: axis, ..old(tree).nodes@[i as int] }),
            ),
            None => *final(tree) == *old(tree),
        },
{
    proof {
        if old(tree).active is Some {
            let i = old(tree).active->0;
            let w = tree.idx_of(tree.nodes@[i as int].id);
            if w != i as int {
                assert(tree.nodes@[w].id != tree.nodes@[i as int].id);
            }
        }
    }
    let _ = tree.set_active_layout(axis);
    Ok(true)
}

/// Moves the target one step in the direction. The target is never
/// resolved implicitly here: an omitted identifier is a fault.
pub fn apply_move_container(
    tree: &mut Tree,
    target: Option<ContainerIdentifier>,
    dir: Direction,
) -> (r: Result<bool, CommandError>)
    requires
        old(tree).wf(),
    ensures
        final(tree).wf(),
        match target {
            None => r == Err::<bool, CommandError>(tree_fault(TreeError::NoActiveContainer))
                && *final(tree) == *old(tree),
            Some(cid) => if old(tree).has_node(cid.0) {
                r == Ok::<bool, CommandError>(true) && ({
                    let t0 = *old(tree);
                    let j = t0.idx_of(cid.0);
                    match Tree::step_target(t0.nodes@, j, t0.nodes@[j].workspace, dir) {
                        None => *final(tree) == t0,
                        Some(k) => final(tree).nodes@ == t0.nodes@.update(j, t0.nodes@[k]).update(
                            k,
                            t0.nodes@[j],
                        ) && final(tree).active == (match t0.active {
                            Some(a) => if a as int == j {
                                Some(k as usize)
                            } else if a as int == k {
                                Some(j as usize)
                            } else {
                                Some(a)
                            },
                            None => None,
                        }) && final(tree).workspaces == t0.workspaces && final(tree).active_workspace == t0.active_workspace && final(tree).pointer
                            == t0.pointer && final(tree).grab == t0.grab,
                    }
                })
            } else {
                r == Err::<bool, CommandError>(tree_fault(TreeError::NotFound(cid.0))) && *final(tree) == *old(tree)
            },
        },
{
    let t = match target {
        Some(cid) => Some(cid.0),
        None => None,
    };
    match tree.move_active(t, dir) {
        Ok(()) => Ok(true),
        Err(te) => Err(CommandError::TreeOperationFailed(te)),
    }
}

/// Toggles cardinal tiling for the target, falling back to the active
/// container.
pub fn apply_toggle_cardinal_tiling(tree: &mut Tree, target: Option<ContainerIdentifier>) -> (r:
    Result<bool, CommandError>)
    requires
        old(tree).wf(),
    ensures
        final(tree).wf(),
        match target_of(*old(tree), target) {
            None => r == Err::<bool, CommandError>(CommandError::NoActiveTarget) && *final(tree)
                == *old(tree),
            Some(id) => if old(tree).has_node(id) {
                r == Ok::<bool, CommandError>(true) && node_updated(
                    *old(tree),
                    *final(tree),
                    id,
                    (Node {
                        tiled: !old(tree).nodes@[old(tree).idx_of(id)].tiled,
                        ..old(tree).nodes@[old(tree).idx_of(id)]
                    }),
                )
            } else {
                r == Err::<bool, CommandError>(tree_fault(TreeError::NotFound(id))) && *final(tree)
                    == *old(tree)
            },
        },
{
    let id = match resolve_target(tree, target) {
        Ok(v) => v,
        Err(e) => {
            return Err(e);
        },
    };
    match tree.toggle_cardinal_tiling(id) {
        Ok(()) => Ok(true),
        Err(te) => Err(CommandError::TreeOperationFailed(te)),
    }
}

/// Switches the active workspace by name; an unknown name is a delegated
/// failure, surfaced as the uniform fault.
pub fn apply_switch_workspace(tree: &mut Tree, name: &str) -> (r: Result<bool, CommandError>)
    requires
        old(tree).wf(),
    ensures
        final(tree).wf(),
        if old(tree).has_workspace(name@) {
            r == Ok::<bool, CommandError>(true) && final(tree).active_workspace == Some(
                old(tree).ws_idx_of(name@) as usize,
            ) && final(tree).workspaces == old(tree).workspaces && final(tree).nodes == old(tree).nodes && final(tree).active == old(tree).active && final(tree).pointer == old(tree).pointer && final(tree).grab == old(tree).grab
        } else {
            *final(tree) == *old(tree) && (r matches Err(e) && e matches
            CommandError::TreeOperationFailed(te) && te matches TreeError::NoSuchWorkspace(n) && n@
                == name@)
        },
{
    match tree.switch_to_workspace(name) {
        Ok(()) => Ok(true),
        Err(te) => Err(CommandError::TreeOperationFailed(te)),
    }
}

/// Closes the target view, falling back to the active container.
pub fn apply_close_view(tree: &mut Tree, target: Option<ContainerIdentifier>) -> (r: Result<
    bool,
    CommandError,
>)
    requires
        old(tree).wf(),
    ensures
        final(tree).wf(),
        match target_of(*old(tree), target) {
            None => r == Err::<bool, CommandError>(CommandError::NoActiveTarget) && *final(tree)
                == *old(tree),
            Some(id) => if old(tree).has_node(id) {
                r == Ok::<bool, CommandError>(true) && ({
                    let t0 = *old(tree);
                    let j = t0.idx_of(id);
                    &&& final(tree).nodes@ == t0.nodes@.remove(j)
                    &&& final(tree).active == (match t0.active {
                        Some(k) => if k as int == j {
                            None
                        } else if k as int > j {
                            Some((k - 1) as usize)
                        } else {
                            Some(k)
                        },
                        None => None,
                    })
                    &&& final(tree).workspaces == t0.workspaces
                    &&& final(tree).active_workspace == t0.active_workspace
                    &&& final(tree).pointer == t0.pointer
                    &&& final(tree).grab == t0.grab
                })
            } else {
                r == Err::<bool, CommandError>(tree_fault(TreeError::NotFound(id))) && *final(tree)
                    == *old(tree)
            },
        },
{
    let id = match resolve_target(tree, target) {
        Ok(v) => v,
        Err(e) => {
            return Err(e);
        },
    };
    match tree.remove_view_by_id(id) {
        Ok(()) => Ok(true),
        Err(te) => Err(CommandError::TreeOperationFailed(te)),
    }
}

/// Focuses the target, falling back to the active container.
pub fn apply_focus(tree: &mut Tree, target: Option<ContainerIdentifier>) -> (r: Result<
    bool,
    CommandError,
>)
    requires
        old(tree).wf(),
    ensures
        final(tree).wf(),
        match target_of(*old(tree), target) {
            None => r == Err::<bool, CommandError>(CommandError::NoActiveTarget) && *final(tree)
                == *old(tree),
            Some(id) => if old(tree).has_node(id) {
                r == Ok::<bool, CommandError>(true) && final(tree).active == Some(
                    old(tree).idx_of(id) as usize,
                ) && final(tree).nodes == old(tree).nodes && final(tree).workspaces == old(tree).workspaces && final(tree).active_workspace == old(tree).active_workspace && final(tree).pointer == old(tree).pointer && final(tree).grab == old(tree).grab
            } else {
                r == Err::<bool, CommandError>(tree_fault(TreeError::NotFound(id))) && *final(tree)
                    == *old(tree)
            },
        },
{
    let id = match resolve_target(tree, target) {
        Ok(v) => v,
        Err(e) => {
            return Err(e);
        },
    };
    match tree.focus(id) {
        Ok(()) => Ok(true),
        Err(te) => Err(CommandError::TreeOperationFailed(te)),
    }
}

/// Moves the focus one step in the direction along the current focus path.
pub fn apply_focus_dir(tree: &mut Tree, dir: Direction) -> (r: Result<bool, CommandError>)
    requires
        old(tree).wf(),
    ensures
        final(tree).wf(),
        match old(tree).active {
            Some(i) => r == Ok::<bool, CommandError>(true) && ({
                let t0 = *old(tree);
                let t = Tree::step_target(t0.nodes@, i as int, t0.nodes@[i as int].workspace, dir);
                &&& final(tree).active == (match t {
                    Some(k) => Some(k as usize),
                    None => Some(i),
                })
                &&& final(tree).nodes == t0.nodes
                &&& final(tree).workspaces == t0.workspaces
                &&& final(tree).active_workspace == t0.active_workspace
                &&& final(tree).pointer == t0.pointer
                &&& final(tree).grab == t0.grab
            }),
            None => r == Err::<bool, CommandError>(tree_fault(TreeError::NoActiveContainer))
                && *final(tree) == *old(tree),
        },
{
    match tree.move_focus(dir) {
        Ok(()) => Ok(true),
        Err(te) => Err(CommandError::TreeOperationFailed(te)),
    }
}

/// Sends the target to the named workspace, falling back to the active
/// container.
pub fn apply_send_to_workspace(
    tree: &mut Tree,
    target: Option<ContainerIdentifier>,
    name: &str,
) -> (r: Result<bool, CommandError>)
    requires
        old(tree).wf(),
    ensures
        final(tree).wf(),
        match target_of(*old(tree), target) {
            None => r == Err::<bool, CommandError>(CommandError::NoActiveTarget) && *final(tree)
                == *old(tree),
            Some(id) => if old(tree).has_node(id) && old(tree).has_workspace(name@) {
                r == Ok::<bool, CommandError>(true) && node_updated(
                    *old(tree),
                    *final(tree),
                    id,
                    (Node {
                        workspace: old(tree).ws_idx_of(name@) as usize,
                        ..old(tree).nodes@[old(tree).idx_of(id)]
                    }),
                )
            } else {
                *final(tree) == *old(tree) && (r matches Err(e) && e matches
                CommandError::TreeOperationFailed(te) && match te {
                    TreeError::NotFound(v) => v == id && !old(tree).has_node(id),
                    TreeError::NoSuchWorkspace(n) => n@ == name@ && old(tree).has_node(id) && !old(tree).has_workspace(name@),
                    _ => false,
                })
            },
        },
{
    let id = match resolve_target(tree, target) {
        Ok(v) => v,
        Err(e) => {
            return Err(e);
        },
    };
    match tree.send_to_workspace(id, name) {
        Ok(()) => Ok(true),
        Err(te) => Err(CommandError::TreeOperationFailed(te)),
    }
}

/// Whether the target sits in the active workspace, falling back to the
/// active container.
pub fn apply_container_in_active_workspace(
    tree: &Tree,
    target: Option<ContainerIdentifier>,
) -> (r: Result<bool, CommandError>)
    requires
        tree.wf(),
    ensures
        match target_of(*tree, target) {
            None => r == Err::<bool, CommandError>(CommandError::NoActiveTarget),
            Some(id) => if tree.has_node(id) {
                r == Ok::<bool, CommandError>(
                    tree.active_workspace == Some(tree.nodes@[tree.idx_of(id)].workspace),
                )
            } else {
                r == Err::<bool, CommandError>(tree_fault(TreeError::NotFound(id)))
            },
        },
{
    let id = match resolve_target(tree, target) {
        Ok(v) => v,
        Err(e) => {
            return Err(e);
        },
    };
    match tree.container_in_active_workspace(id) {
        Ok(b) => Ok(b),
        Err(te) => Err(CommandError::TreeOperationFailed(te)),
    }
}

/// Sets or clears fullscreen for the target, falling back to the active
/// container; the boolean sets the state explicitly.
pub fn apply_fullscreen(tree: &mut Tree, target: Option<ContainerIdentifier>, toggle: bool) -> (r:
    Result<bool, CommandError>)
    requires
        old(tree).wf(),
    ensures
        final(tree).wf(),
        match target_of(*old(tree), target) {
            None => r == Err::<bool, CommandError>(CommandError::NoActiveTarget) && *final(tree)
                == *old(tree),
            Some(id) => if old(tree).has_node(id) {
                r == Ok::<bool, CommandError>(true) && node_updated(
                    *old(tree),
                    *final(tree),
                    id,
                    (Node { fullscreen: toggle, ..old(tree).nodes@[old(tree).idx_of(id)] }),
                )
            } else {
                r == Err::<bool, CommandError>(tree_fault(TreeError::NotFound(id))) && *final(tree)
                    == *old(tree)
            },
        },
{
    let id = match resolve_target(tree, target) {
        Ok(v) => v,
        Err(e) => {
            return Err(e);
        },
    };
    match tree.set_fullscreen(id, toggle) {
        Ok(()) => Ok(true),
        Err(te) => Err(CommandError::TreeOperationFailed(te)),
    }
}

/// Records the pointer position; two mandatory coordinates.
pub fn apply_set_pointer_pos(tree: &mut Tree, x: i32, y: i32) -> (r: Result<bool, CommandError>)
    requires
        old(tree).wf(),
    ensures
        final(tree).wf(),
        r == Ok::<bool, CommandError>(true),
        final(tree).pointer == (Point { x, y }),
        final(tree).nodes == old(tree).nodes,
        final(tree).workspaces == old(tree).workspaces,
        final(tree).active_workspace == old(tree).active_workspace,
        final(tree).active == old(tree).active,
        final(tree).grab == old(tree).grab,
{
    match tree.set_pointer_pos(Point { x, y }) {
        Ok(()) => Ok(true),
        Err(te) => Err(CommandError::TreeOperationFailed(te)),
    }
}

/// Begins an interactive grab of the target at the given edge set, falling
/// back to the active container.
pub fn apply_grab_at_corner(
    tree: &mut Tree,
    target: Option<ContainerIdentifier>,
    edge: ResizeEdge,
) -> (r: Result<bool, CommandError>)
    requires
        old(tree).wf(),
    ensures
        final(tree).wf(),
        match target_of(*old(tree), target) {
            None => r == Err::<bool, CommandError>(CommandError::NoActiveTarget) && *final(tree)
                == *old(tree),
            Some(id) => if old(tree).has_node(id) {
                r == Ok::<bool, CommandError>(true) && final(tree).grab == Some(
                    (ContainerIdentifier(id), edge),
                ) && final(tree).nodes == old(tree).nodes && final(tree).workspaces == old(tree).workspaces && final(tree).active_workspace == old(tree).active_workspace && final(tree).active == old(tree).active && final(tree).pointer == old(tree).pointer
            } else {
                r == Err::<bool, CommandError>(tree_fault(TreeError::NotFound(id))) && *final(tree)
                    == *old(tree)
            },
        },
{
    let id = match resolve_target(tree, target) {
        Ok(v) => v,
        Err(e) => {
            return Err(e);
        },
    };
    match tree.grab_at_corner(id, edge) {
        Ok(()) => Ok(true),
        Err(te) => Err(CommandError::TreeOperationFailed(te)),
    }
}

/// The active workspace's name; a tree without one is a delegated failure.
pub fn active_workspace_on(tree: &Tree) -> (r: Result<String, CommandError>)
    requires
        tree.wf(),
    ensures
        match r {
            Ok(nm) => tree.active_workspace matches Some(w) && nm@ == tree.workspaces@[w as int]@,
            Err(e) => tree.active_workspace is None && e == (tree_fault(
                TreeError::NoActiveWorkspace,
            )),
        },
{
    match tree.active_workspace_name() {
        Ok(nm) => Ok(nm),
        Err(te) => Err(CommandError::TreeOperationFailed(te)),
    }
}

/// Queries the active container id under a read lock; an empty tree gives
/// the empty string, not a fault.
pub fn active_container_id(lock: &TreeLock) -> (r: Result<String, CommandError>)
    requires
        lock.pred() == tree_lock_inv(),
    ensures
        r matches Ok(s) && (s@.len() == 0 || uuid_well_formed(s@)),
{
    let handle = lock.acquire_read();
    let out = active_container_id_on(handle.borrow());
    handle.release_read();
    Ok(out)
}

/// Toggles floating for the target. With an explicit identifier the write
/// lock is taken here; with none the delegation goes through the global
/// command, which manages its own locking.
pub fn toggle_float(lock: &TreeLock, container_id: &str) -> (r: Result<bool, CommandError>)
    requires
        lock.pred() == tree_lock_inv(),
    ensures
        match parsed_ident(container_id@) {
            None => r matches Err(e) && invalid_field(e, "container_id"@),
            Some(opt) => match opt {
                None => r == Ok::<bool, CommandError>(true),
                Some(_) => r == Ok::<bool, CommandError>(true) || r == Err::<bool, CommandError>(
                    tree_fault(TreeError::NoActiveContainer),
                ),
            },
        },
{
    let target = match parse_identifier("container_id", container_id) {
        Ok(t) => t,
        Err(e) => {
            return Err(e);
        },
    };
    let (mut tree, handle) = lock.acquire_write();
    let r = apply_toggle_float(&mut tree, target);
    handle.release_write(tree);
    r
}

/// Moves the target in a direction; the identifier is mandatory here.
pub fn move_container(lock: &TreeLock, container_id: &str, direction: &str) -> (r: Result<
    bool,
    CommandError,
>)
    requires
        lock.pred() == tree_lock_inv(),
    ensures
        match parsed_ident(container_id@) {
            None => r matches Err(e) && invalid_field(e, "container_id"@),
            Some(opt) => match direction_of(direction@) {
                None => r matches Err(e) && invalid_field(e, "direction"@),
                Some(_) => match opt {
                    None => r == Err::<bool, CommandError>(tree_fault(
                        TreeError::NoActiveContainer,
                    )),
                    Some(v) => r == Ok::<bool, CommandError>(true) || r == Err::<
                        bool,
                        CommandError,
                    >(tree_fault(TreeError::NotFound(v))),
                },
            },
        },
{
    let target = match parse_identifier("container_id", container_id) {
        Ok(t) => t,
        Err(e) => {
            return Err(e);
        },
    };
    let dir = match parse_direction("direction", direction) {
        Ok(d) => d,
        Err(e) => {
            return Err(e);
        },
    };
    let (mut tree, handle) = lock.acquire_write();
    let r = apply_move_container(&mut tree, target, dir);
    handle.release_write(tree);
    r
}

/// Splits the target along an axis. The identifier is validated but the
/// delegated global commands act on the active container regardless: a
/// known asymmetry of this operation, preserved as it stands.
pub fn split_container(lock: &TreeLock, container_id: &str, split_axis: &str) -> (r: Result<
    bool,
    CommandError,
>)
    requires
        lock.pred() == tree_lock_inv(),
    ensures
        parsed_ident(container_id@) is None ==> (r matches Err(e) && invalid_field(
            e,
            "container_id"@,
        )),
        parsed_ident(container_id@) is Some && axis_of(split_axis@) is None ==> (r matches Err(e)
            && invalid_field(e, "split_direction"@)),
        parsed_ident(container_id@) is Some && axis_of(split_axis@) is Some ==> r == Ok::<
            bool,
            CommandError,
        >(true),
{
    let _target = match parse_identifier("container_id", container_id) {
        Ok(t) => t,
        Err(e) => {
            return Err(e);
        },
    };
    let axis = match parse_axis("split_direction", split_axis) {
        Ok(a) => a,
        Err(e) => {
            return Err(e);
        },
    };
    let (mut tree, handle) = lock.acquire_write();
    let r = apply_split(&mut tree, axis);
    handle.release_write(tree);
    r
}

/// Toggles cardinal tiling for the target, falling back to the active
/// container. Write-locked.
pub fn toggle_cardinal_tiling(lock: &TreeLock, container_id: &str) -> (r: Result<
    bool,
    CommandError,
>)
    requires
        lock.pred() == tree_lock_inv(),
    ensures
        match parsed_ident(container_id@) {
            None => r matches Err(e) && invalid_field(e, "container_id"@),
            Some(opt) => match opt {
                None => r == Ok::<bool, CommandError>(true) || r == Err::<bool, CommandError>(
                    CommandError::NoActiveTarget,
                ),
                Some(v) => r == Ok::<bool, CommandError>(true) || r == Err::<bool, CommandError>(
                    tree_fault(TreeError::NotFound(v)),
                ),
            },
        },
{
    let target = match parse_identifier("container_id", container_id) {
        Ok(t) => t,
        Err(e) => {
            return Err(e);
        },
    };
    let (mut tree, handle) = lock.acquire_write();
    proof {
        Tree::lemma_active_is_live(tree);
    }
    let r = apply_toggle_cardinal_tiling(&mut tree, target);
    handle.release_write(tree);
    r
}

/// Switches the active workspace by name. Write-locked.
pub fn switch_workspace(lock: &TreeLock, w_name: &str) -> (r: Result<bool, CommandError>)
    requires
        lock.pred() == tree_lock_inv(),
    ensures
        match r {
            Ok(b) => b == true,
            Err(e) => e matches CommandError::TreeOperationFailed(te) && te matches
                TreeError::NoSuchWorkspace(n) && n@ == w_name@,
        },
{
    let (mut tree, handle) = lock.acquire_write();
    let r = apply_switch_workspace(&mut tree, w_name);
    handle.release_write(tree);
    r
}

/// Closes the target view, falling back to the active container.
/// Write-locked.
pub fn close_view(lock: &TreeLock, view_id: &str) -> (r: Result<bool, CommandError>)
    requires
        lock.pred() == tree_lock_inv(),
    ensures
        match parsed_ident(view_id@) {
            None => r matches Err(e) && invalid_field(e, "view_id"@),
            Some(opt) => match opt {
                None => r == Ok::<bool, CommandError>(true) || r == Err::<bool, CommandError>(
                    CommandError::NoActiveTarget,
                ),
                Some(v) => r == Ok::<bool, CommandError>(true) || r == Err::<bool, CommandError>(
                    tree_fault(TreeError::NotFound(v)),
                ),
            },
        },
{
    let target = match parse_identifier("view_id", view_id) {
        Ok(t) => t,
        Err(e) => {
            return Err(e);
        },
    };
    let (mut tree, handle) = lock.acquire_write();
    proof {
        Tree::lemma_active_is_live(tree);
    }
    let r = apply_close_view(&mut tree, target);
    handle.release_write(tree);
    r
}

/// Focuses the target, falling back to the active container. Write-locked.
pub fn focus(lock: &TreeLock, container_id: &str) -> (r: Result<bool, CommandError>)
    requires
        lock.pred() == tree_lock_inv(),
    ensures
        match parsed_ident(container_id@) {
            None => r matches Err(e) && invalid_field(e, "container_id"@),
            Some(opt) => match opt {
                None => r == Ok::<bool, CommandError>(true) || r == Err::<bool, CommandError>(
                    CommandError::NoActiveTarget,
                ),
                Some(v) => r == Ok::<bool, CommandError>(true) || r == Err::<bool, CommandError>(
                    tree_fault(TreeError::NotFound(v)),
                ),
            },
        },
{
    let target = match parse_identifier("container_id", container_id) {
        Ok(t) => t,
        Err(e) => {
            return Err(e);
        },
    };
    let (mut tree, handle) = lock.acquire_write();
    proof {
        Tree::lemma_active_is_live(tree);
    }
    let r = apply_focus(&mut tree, target);
    handle.release_write(tree);
    r
}

/// Moves the focus in a direction along the current focus path.
/// Write-locked.
pub fn focus_dir(lock: &TreeLock, direction: &str) -> (r: Result<bool, CommandError>)
    requires
        lock.pred() == tree_lock_inv(),
    ensures
        match direction_of(direction@) {
            None => r matches Err(e) && invalid_field(e, "direction"@),
            Some(_) => r == Ok::<bool, CommandError>(true) || r == Err::<bool, CommandError>(
                tree_fault(TreeError::NoActiveContainer),
            ),
        },
{
    let dir = match parse_direction("direction", direction) {
        Ok(d) => d,
        Err(e) => {
            return Err(e);
        },
    };
    let (mut tree, handle) = lock.acquire_write();
    let r = apply_focus_dir(&mut tree, dir);
    handle.release_write(tree);
    r
}

/// Sends the target to the named workspace, falling back to the active
/// container. Write-locked.
pub fn send_to_workspace(lock: &TreeLock, container_id: &str, w_name: &str) -> (r: Result<
    bool,
    CommandError,
>)
    requires
        lock.pred() == tree_lock_inv(),
    ensures
        match parsed_ident(container_id@) {
            None => r matches Err(e) && invalid_field(e, "container_id"@),
            Some(opt) => ({
                let missing_ws = r matches Err(e) && e matches CommandError::TreeOperationFailed(
                    te,
                ) && te matches TreeError::NoSuchWorkspace(n) && n@ == w_name@;
                match opt {
                    None => r == Ok::<bool, CommandError>(true) || r == Err::<bool, CommandError>(
                        CommandError::NoActiveTarget,
                    ) || missing_ws,
                    Some(v) => r == Ok::<bool, CommandError>(true) || r == Err::<
                        bool,
                        CommandError,
                    >(tree_fault(TreeError::NotFound(v))) || missing_ws,
                }
            }),
        },
{
    let target = match parse_identifier("container_id", container_id) {
        Ok(t) => t,
        Err(e) => {
            return Err(e);
        },
    };
    let (mut tree, handle) = lock.acquire_write();
    proof {
        Tree::lemma_active_is_live(tree);
    }
    let r = apply_send_to_workspace(&mut tree, target, w_name);
    handle.release_write(tree);
    r
}

/// Dumps the tree as a debug string through the global introspection
/// command; read access suffices.
pub fn debug(lock: &TreeLock) -> (r: Result<String, CommandError>)
    requires
        lock.pred() == tree_lock_inv(),
    ensures
        r is Ok,
{
    let handle = lock.acquire_read();
    let out = handle.borrow().debug_string();
    handle.release_read();
    Ok(out)
}

/// Whether the target sits in the active workspace, falling back to the
/// active container. Read-locked.
pub fn container_in_active_workspace(lock: &TreeLock, container_id: &str) -> (r: Result<
    bool,
    CommandError,
>)
    requires
        lock.pred() == tree_lock_inv(),
    ensures
        match parsed_ident(container_id@) {
            None => r matches Err(e) && invalid_field(e, "container_id"@),
            Some(opt) => match opt {
                None => r matches Ok(_) || r == Err::<bool, CommandError>(
                    CommandError::NoActiveTarget,
                ),
                Some(v) => r matches Ok(_) || r == Err::<bool, CommandError>(
                    tree_fault(TreeError::NotFound(v)),
                ),
            },
        },
{
    let target = match parse_identifier("container_id", container_id) {
        Ok(t) => t,
        Err(e) => {
            return Err(e);
        },
    };
    let handle = lock.acquire_read();
    let tree = handle.borrow();
    proof {
        Tree::lemma_active_is_live(*tree);
    }
    let r = apply_container_in_active_workspace(tree, target);
    handle.release_read();
    r
}

/// Sets or clears fullscreen for the target, falling back to the active
/// container. Write-locked.
pub fn fullscreen(lock: &TreeLock, container_id: &str, toggle: bool) -> (r: Result<
    bool,
    CommandError,
>)
    requires
        lock.pred() == tree_lock_inv(),
    ensures
        match parsed_ident(container_id@) {
            None => r matches Err(e) && invalid_field(e, "container_id"@),
            Some(opt) => match opt {
                None => r == Ok::<bool, CommandError>(true) || r == Err::<bool, CommandError>(
                    CommandError::NoActiveTarget,
                ),
                Some(v) => r == Ok::<bool, CommandError>(true) || r == Err::<bool, CommandError>(
                    tree_fault(TreeError::NotFound(v)),
                ),
            },
        },
{
    let target = match parse_identifier("container_id", container_id) {
        Ok(t) => t,
        Err(e) => {
            return Err(e);
        },
    };
    let (mut tree, handle) = lock.acquire_write();
    proof {
        Tree::lemma_active_is_live(tree);
    }
    let r = apply_fullscreen(&mut tree, target, toggle);
    handle.release_write(tree);
    r
}

/// Sets the pointer position. Write-locked; always succeeds.
pub fn set_pointer_pos(lock: &TreeLock, x: i32, y: i32) -> (r: Result<bool, CommandError>)
    requires
        lock.pred() == tree_lock_inv(),
    ensures
        r == Ok::<bool, CommandError>(true),
{
    let (mut tree, handle) = lock.acquire_write();
    let r = apply_set_pointer_pos(&mut tree, x, y);
    handle.release_write(tree);
    r
}

/// Begins an interactive grab at the target's corner or edges: the edge
/// set is the union of the comma-separated tokens. Write-locked.
pub fn grab_at_corner(lock: &TreeLock, container_id: &str, dir: &str) -> (r: Result<
    bool,
    CommandError,
>)
    requires
        lock.pred() == tree_lock_inv(),
    ensures
        match parsed_ident(container_id@) {
            None => r matches Err(e) && invalid_field(e, "container_id"@),
            Some(opt) => match edges_of(dir@) {
                None => r matches Err(e) && invalid_field(e, "dir"@),
                Some(_) => match opt {
                    None => r == Ok::<bool, CommandError>(true) || r == Err::<bool, CommandError>(
                        CommandError::NoActiveTarget,
                    ),
                    Some(v) => r == Ok::<bool, CommandError>(true) || r == Err::<
                        bool,
                        CommandError,
                    >(tree_fault(TreeError::NotFound(v))),
                },
            },
        },
{
    let target = match parse_identifier("container_id", container_id) {
        Ok(t) => t,
        Err(e) => {
            return Err(e);
        },
    };
    let edge = match parse_edge("dir", dir) {
        Ok(es) => es,
        Err(e) => {
            return Err(e);
        },
    };
    let (mut tree, handle) = lock.acquire_write();
    proof {
        Tree::lemma_active_is_live(tree);
    }
    let r = apply_grab_at_corner(&mut tree, target, edge);
    handle.release_write(tree);
    r
}

/// Queries the active workspace's name; a tree without one is a fault.
/// Read-locked.
pub fn active_workspace(lock: &TreeLock) -> (r: Result<String, CommandError>)
    requires
        lock.pred() == tree_lock_inv(),
    ensures
        r matches Err(e) ==> e == tree_fault(TreeError::NoActiveWorkspace),
{
    let handle = lock.acquire_read();
    let r = active_workspace_on(handle.borrow());
    handle.release_read();
    r
}

} // verus!
