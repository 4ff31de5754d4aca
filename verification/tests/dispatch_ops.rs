use way_cooler_ipc::args::{ContainerIdentifier, ResizeEdge, SplitAxis};
use way_cooler_ipc::dispatch::{
    active_container_id, active_workspace, close_view, container_in_active_workspace, debug,
    focus, focus_dir, fullscreen, grab_at_corner, move_container, set_pointer_pos,
    split_container, switch_workspace, send_to_workspace, toggle_cardinal_tiling, toggle_float,
};
use way_cooler_ipc::errors::{CommandError, TreeError};
use way_cooler_ipc::ident::format_uuid;
use way_cooler_ipc::locks::new_tree_lock;
use way_cooler_ipc::tree::{Point, Tree};

/// One workspace "main" holding views 1 and 2, view 1 focused and the
/// workspace active.
fn small_tree() -> Tree {
    let mut t = Tree::new();
    assert_eq!(t.add_workspace("main".to_string()), Ok(()));
    assert_eq!(t.add_view(1, "main"), Ok(()));
    assert_eq!(t.add_view(2, "main"), Ok(()));
    assert_eq!(t.switch_to_workspace("main"), Ok(()));
    assert_eq!(t.focus(1), Ok(()));
    t
}

#[test]
fn active_id_on_empty_tree_is_the_empty_string() {
    let lock = new_tree_lock(Tree::new());
    assert_eq!(active_container_id(&lock), Ok(String::new()));
}

#[test]
fn active_id_renders_the_focused_view() {
    let lock = new_tree_lock(small_tree());
    assert_eq!(
        active_container_id(&lock),
        Ok("00000000-0000-0000-0000-000000000001".to_string())
    );
}

#[test]
fn set_pointer_pos_updates_the_tree_state() {
    let lock = new_tree_lock(small_tree());
    assert_eq!(set_pointer_pos(&lock, 100, 50), Ok(true));
    let tree = lock.into_inner();
    assert_eq!(tree.pointer, Point { x: 100, y: 50 });
}

#[test]
fn grab_at_corner_records_the_union_of_edges() {
    let lock = new_tree_lock(small_tree());
    let id = format_uuid(2);
    assert_eq!(grab_at_corner(&lock, &id, "top,right"), Ok(true));
    let tree = lock.into_inner();
    assert_eq!(
        tree.grab,
        Some((
            ContainerIdentifier(2),
            ResizeEdge { top: true, bottom: false, left: false, right: true }
        ))
    );
}

#[test]
fn grab_with_a_bad_edge_token_faults_before_anything_happens() {
    let lock = new_tree_lock(small_tree());
    let id = format_uuid(2);
    assert_eq!(
        grab_at_corner(&lock, &id, "top,middle"),
        Err(CommandError::InvalidArgument("dir".to_string()))
    );
    let tree = lock.into_inner();
    assert_eq!(tree.grab, None);
}

#[test]
fn switching_to_an_unknown_workspace_surfaces_the_delegated_failure() {
    let lock = new_tree_lock(small_tree());
    assert_eq!(
        switch_workspace(&lock, "nonexistent"),
        Err(CommandError::TreeOperationFailed(TreeError::NoSuchWorkspace(
            "nonexistent".to_string()
        )))
    );
}

#[test]
fn omitted_target_with_no_active_node_faults_and_changes_nothing() {
    let mut t = Tree::new();
    assert_eq!(t.add_workspace("main".to_string()), Ok(()));
    assert_eq!(t.add_view(1, "main"), Ok(()));
    // nothing focused
    let lock = new_tree_lock(t);
    assert_eq!(fullscreen(&lock, "", true), Err(CommandError::NoActiveTarget));
    assert_eq!(close_view(&lock, ""), Err(CommandError::NoActiveTarget));
    assert_eq!(toggle_cardinal_tiling(&lock, ""), Err(CommandError::NoActiveTarget));
    let tree = lock.into_inner();
    assert_eq!(tree.nodes.len(), 1);
    assert!(!tree.nodes[0].fullscreen);
    assert!(tree.nodes[0].tiled);
}

#[test]
fn omitted_target_resolves_to_the_active_node() {
    let lock = new_tree_lock(small_tree());
    assert_eq!(fullscreen(&lock, "", true), Ok(true));
    let tree = lock.into_inner();
    assert!(tree.nodes[0].fullscreen);
    assert!(!tree.nodes[1].fullscreen);
}

#[test]
fn explicit_target_wins_over_the_active_node() {
    let lock = new_tree_lock(small_tree());
    let id = format_uuid(2);
    assert_eq!(fullscreen(&lock, &id, true), Ok(true));
    let tree = lock.into_inner();
    assert!(!tree.nodes[0].fullscreen);
    assert!(tree.nodes[1].fullscreen);
}

#[test]
fn focusing_a_stale_identifier_faults_uniformly() {
    let lock = new_tree_lock(small_tree());
    let id = format_uuid(99);
    assert_eq!(
        focus(&lock, &id),
        Err(CommandError::TreeOperationFailed(TreeError::NotFound(99)))
    );
}

#[test]
fn focus_moves_to_an_explicit_view() {
    let lock = new_tree_lock(small_tree());
    let id = format_uuid(2);
    assert_eq!(focus(&lock, &id), Ok(true));
    let tree = lock.into_inner();
    assert_eq!(tree.active_id(), Some(2));
}

#[test]
fn focus_dir_steps_along_the_workspace_order() {
    let lock = new_tree_lock(small_tree());
    assert_eq!(focus_dir(&lock, "right"), Ok(true));
    let tree = lock.into_inner();
    assert_eq!(tree.active_id(), Some(2));
}

#[test]
fn focus_dir_stays_put_at_the_boundary() {
    let lock = new_tree_lock(small_tree());
    assert_eq!(focus_dir(&lock, "left"), Ok(true));
    let tree = lock.into_inner();
    assert_eq!(tree.active_id(), Some(1));
}

#[test]
fn focus_dir_rejects_an_unknown_token() {
    let lock = new_tree_lock(small_tree());
    assert_eq!(
        focus_dir(&lock, "sideways"),
        Err(CommandError::InvalidArgument("direction".to_string()))
    );
}

#[test]
fn move_container_swaps_with_its_neighbour() {
    let lock = new_tree_lock(small_tree());
    let id = format_uuid(1);
    assert_eq!(move_container(&lock, &id, "right"), Ok(true));
    let tree = lock.into_inner();
    assert_eq!(tree.nodes[0].id, 2);
    assert_eq!(tree.nodes[1].id, 1);
    // the focus follows the moved node
    assert_eq!(tree.active_id(), Some(1));
}

#[test]
fn move_container_requires_an_explicit_target() {
    let lock = new_tree_lock(small_tree());
    assert_eq!(
        move_container(&lock, "", "right"),
        Err(CommandError::TreeOperationFailed(TreeError::NoActiveContainer))
    );
}

#[test]
fn close_view_removes_the_active_view_by_fallback() {
    let lock = new_tree_lock(small_tree());
    assert_eq!(close_view(&lock, ""), Ok(true));
    let tree = lock.into_inner();
    assert_eq!(tree.nodes.len(), 1);
    assert_eq!(tree.nodes[0].id, 2);
    assert_eq!(tree.active_id(), None);
}

#[test]
fn toggle_float_with_explicit_id_flips_the_active_flag() {
    let lock = new_tree_lock(small_tree());
    let id = format_uuid(1);
    assert_eq!(toggle_float(&lock, &id), Ok(true));
    let tree = lock.into_inner();
    assert!(tree.nodes[0].floating);
}

#[test]
fn toggle_float_without_id_goes_through_the_global_command() {
    let lock = new_tree_lock(small_tree());
    assert_eq!(toggle_float(&lock, ""), Ok(true));
    let tree = lock.into_inner();
    assert!(tree.nodes[0].floating);
}

#[test]
fn toggle_float_global_path_swallows_a_missing_active_node() {
    let lock = new_tree_lock(Tree::new());
    assert_eq!(toggle_float(&lock, ""), Ok(true));
}

#[test]
fn split_acts_on_the_active_container_whatever_the_identifier() {
    let lock = new_tree_lock(small_tree());
    let id = format_uuid(2);
    assert_eq!(split_container(&lock, &id, "tabbed"), Ok(true));
    let tree = lock.into_inner();
    // the known asymmetry: view 1 is active, so view 1 changes
    assert_eq!(tree.nodes[0].layout, SplitAxis::Tabbed);
    assert_eq!(tree.nodes[1].layout, SplitAxis::Horizontal);
}

#[test]
fn split_rejects_an_unknown_axis_naming_its_field() {
    let lock = new_tree_lock(small_tree());
    let id = format_uuid(1);
    assert_eq!(
        split_container(&lock, &id, "diagonal"),
        Err(CommandError::InvalidArgument("split_direction".to_string()))
    );
}

#[test]
fn toggle_cardinal_tiling_flips_the_flag() {
    let lock = new_tree_lock(small_tree());
    let id = format_uuid(2);
    assert_eq!(toggle_cardinal_tiling(&lock, &id), Ok(true));
    let tree = lock.into_inner();
    assert!(tree.nodes[0].tiled);
    assert!(!tree.nodes[1].tiled);
}

#[test]
fn send_to_workspace_moves_the_node() {
    let mut t = small_tree();
    assert_eq!(t.add_workspace("other".to_string()), Ok(()));
    let lock = new_tree_lock(t);
    let id = format_uuid(1);
    assert_eq!(send_to_workspace(&lock, &id, "other"), Ok(true));
    let tree = lock.into_inner();
    assert_eq!(tree.nodes[0].workspace, 1);
    assert_eq!(tree.nodes[1].workspace, 0);
}

#[test]
fn container_in_active_workspace_sees_membership() {
    let mut t = small_tree();
    assert_eq!(t.add_workspace("other".to_string()), Ok(()));
    assert_eq!(t.send_to_workspace(2, "other"), Ok(()));
    let lock = new_tree_lock(t);
    let id1 = format_uuid(1);
    let id2 = format_uuid(2);
    assert_eq!(container_in_active_workspace(&lock, &id1), Ok(true));
    assert_eq!(container_in_active_workspace(&lock, &id2), Ok(false));
}

#[test]
fn active_workspace_reports_the_name_or_faults() {
    let lock = new_tree_lock(small_tree());
    assert_eq!(active_workspace(&lock), Ok("main".to_string()));
    let empty = new_tree_lock(Tree::new());
    assert_eq!(
        active_workspace(&empty),
        Err(CommandError::TreeOperationFailed(TreeError::NoActiveWorkspace))
    );
}

#[test]
fn debug_renders_the_workspace_list() {
    let mut t = Tree::new();
    assert_eq!(t.add_workspace("alpha".to_string()), Ok(()));
    assert_eq!(t.add_workspace("beta".to_string()), Ok(()));
    assert_eq!(t.switch_to_workspace("beta"), Ok(()));
    let lock = new_tree_lock(t);
    assert_eq!(debug(&lock), Ok("alpha;*beta;".to_string()));
}

#[test]
fn builders_reject_duplicates() {
    let mut t = Tree::new();
    assert_eq!(t.add_workspace("main".to_string()), Ok(()));
    assert_eq!(
        t.add_workspace("main".to_string()),
        Err(TreeError::WorkspaceExists("main".to_string()))
    );
    assert_eq!(t.add_view(1, "main"), Ok(()));
    assert_eq!(t.add_view(1, "main"), Err(TreeError::ViewExists(1)));
    assert_eq!(
        t.add_view(2, "nowhere"),
        Err(TreeError::NoSuchWorkspace("nowhere".to_string()))
    );
}
