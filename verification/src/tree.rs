//! An in-memory model of the shared window tree, the collaborator every
//! dispatched operation delegates to.
//!
//! The layer above performs no layout computation, so the tree here records
//! only what the operation contracts speak of: workspaces by name, nodes
//! with their per-node flags, the active workspace and node, the pointer
//! position and the current interactive grab. Nodes of one workspace are
//! ordered by their position in `nodes`; moving a node or the focus steps
//! along that order.

use vstd::prelude::*;
use vstd::string::StrSliceExecFns;
use vstd::pervasive::VecAdditionalExecFns;
use crate::args::{ContainerIdentifier, Direction, ResizeEdge, SplitAxis};
use crate::errors::TreeError;
use crate::strutil::str_eq;

verus! {

/// An integer screen coordinate pair.
#[derive(PartialEq, Eq, Structural, Clone, Copy, Debug)]
pub struct Point {
    pub x: i32,
    pub y: i32,
}

/// One tree node and its flags.
#[derive(PartialEq, Eq, Structural, Clone, Copy, Debug)]
pub struct Node {
    /// The node's unique identifier.
    pub id: u128,
    /// Index of the workspace holding the node.
    pub workspace: usize,
    /// Whether the node floats above the tiled layout.
    pub floating: bool,
    /// Whether the node fills its output.
    pub fullscreen: bool,
    /// Whether the node takes part in cardinal tiling.
    pub tiled: bool,
    /// How the node splits or tiles its children.
    pub layout: SplitAxis,
}

/// The window tree: workspaces, nodes, focus, pointer and grab state.
pub struct Tree {
    /// Workspace names, unique.
    pub workspaces: Vec<String>,
    /// Index of the active workspace, if any.
    pub active_workspace: Option<usize>,
    /// All live nodes; ids are unique.
    pub nodes: Vec<Node>,
    /// Index of the focused node, if any.
    pub active: Option<usize>,
    /// Last pointer position set through the dispatch layer.
    pub pointer: Point,
    /// The node and edge set of the interactive grab in progress, if any.
    pub grab: Option<(ContainerIdentifier, ResizeEdge)>,
}

impl Tree {
    /// Indices in range, node workspaces live, ids and names unique.
    pub open spec fn wf(self) -> bool {
        &&& (self.active matches Some(i) ==> i < self.nodes@.len())
        &&& (self.active_workspace matches Some(w) ==> w < self.workspaces@.len())
        &&& (forall|j: int|
            0 <= j < self.nodes@.len() ==> (#[trigger] self.nodes@[j]).workspace
                < self.workspaces@.len())
        &&& (forall|j: int, k: int|
            0 <= j < self.nodes@.len() && 0 <= k < self.nodes@.len() && j != k ==> (
            #[trigger] self.nodes@[j]).id != (#[trigger] self.nodes@[k]).id)
        &&& (forall|j: int, k: int|
            0 <= j < self.workspaces@.len() && 0 <= k < self.workspaces@.len() && j != k ==> (
            #[trigger] self.workspaces@[j])@ != (#[trigger] self.workspaces@[k])@)
    }

    /// The identifier of the focused node, if any.
    pub open spec fn active_id_spec(self) -> Option<u128> {
        match self.active {
            Some(i) => Some(self.nodes@[i as int].id),
            None => None,
        }
    }

    /// Whether a node with this identifier is live.
    pub open spec fn has_node(self, id: u128) -> bool {
        exists|j: int| 0 <= j < self.nodes@.len() && (#[trigger] self.nodes@[j]).id == id
    }

    /// The index of the node with this identifier (unique when live).
    pub open spec fn idx_of(self, id: u128) -> int {
        choose|j: int| 0 <= j < self.nodes@.len() && (#[trigger] self.nodes@[j]).id == id
    }

    /// Whether a workspace with this name exists.
    pub open spec fn has_workspace(self, name: Seq<char>) -> bool {
        exists|w: int| 0 <= w < self.workspaces@.len() && (#[trigger] self.workspaces@[w])@ == name
    }

    /// The index of the workspace with this name (unique when present).
    pub open spec fn ws_idx_of(self, name: Seq<char>) -> int {
        choose|w: int| 0 <= w < self.workspaces@.len() && (#[trigger] self.workspaces@[w])@ == name
    }

    /// The active container, when there is one, is a live node.
    pub proof fn lemma_active_is_live(t: Tree)
        requires
            t.wf(),
        ensures
            t.active_id_spec() matches Some(id) ==> t.has_node(id),
    {
        if t.active is Some {
            let i = t.active->0;
            assert(t.has_node(t.nodes@[i as int].id));
        }
    }

    /// An empty tree: no workspaces, no nodes, nothing active.
    pub fn new() -> (t: Tree)
        ensures
            t.wf(),
            t.workspaces@.len() == 0,
            t.active_workspace is None,
            t.nodes@.len() == 0,
            t.active is None,
            t.pointer == (Point { x: 0, y: 0 }),
            t.grab is None,
    {
        Tree {
            workspaces: Vec::new(),
            active_workspace: None,
            nodes: Vec::new(),
            active: None,
            pointer: Point { x: 0, y: 0 },
            grab: None,
        }
    }

    /// The index of the node with this identifier, by linear search.
    fn find(&self, id: u128) -> (r: Option<usize>)
        requires
            self.wf(),
        ensures
            match r {
                Some(j) => self.has_node(id) && j < self.nodes@.len() && self.nodes@[j as int].id
                    == id && self.idx_of(id) == j,
                None => !self.has_node(id),
            },
    {
        let mut j: usize = 0;
        while j < self.nodes.len()
            invariant
                self.wf(),
                j <= self.nodes@.len(),
                forall|k: int| 0 <= k < j ==> (#[trigger] self.nodes@[k]).id != id,
            decreases self.nodes@.len() - j,
        {
            if self.nodes[j].id == id {
                proof {
                    let w = self.idx_of(id);
                    assert(0 <= w < self.nodes@.len() && self.nodes@[w].id == id);
                    if w != j {
                        assert(self.nodes@[w].id != self.nodes@[j as int].id);
                    }
                }
                return Some(j);
            }
            j = j + 1;
        }
        None
    }

    /// The index of the workspace with this name, by linear search.
    fn find_workspace(&self, name: &str) -> (r: Option<usize>)
        requires
            self.wf(),
        ensures
            match r {
                Some(w) => self.has_workspace(name@) && w < self.workspaces@.len()
                    && self.workspaces@[w as int]@ == name@ && self.ws_idx_of(name@) == w,
                None => !self.has_workspace(name@),
            },
    {
        let mut w: usize = 0;
        while w < self.workspaces.len()
            invariant
                self.wf(),
                w <= self.workspaces@.len(),
                forall|k: int| 0 <= k < w ==> (#[trigger] self.workspaces@[k])@ != name@,
            decreases self.workspaces@.len() - w,
        {
            let nm: &String = &self.workspaces[w];
            if str_eq(nm.as_str(), name) {
                proof {
                    let v = self.ws_idx_of(name@);
                    assert(0 <= v < self.workspaces@.len() && self.workspaces@[v]@ == name@);
                    if v != w {
                        assert(self.workspaces@[v]@ != self.workspaces@[w as int]@);
                    }
                }
                return Some(w);
            }
            w = w + 1;
        }
        None
    }

    /// Adds an empty workspace with a fresh name.
    pub fn add_workspace(&mut self, name: String) -> (r: Result<(), TreeError>)
        requires
            old(self).wf(),
        ensures
            final(self).wf(),
            match r {
                Ok(()) => !old(self).has_workspace(name@) && final(self).workspaces@ == old(self).workspaces@.push(name) && final(self).active_workspace == old(self).active_workspace && final(self).nodes == old(self).nodes && final(self).active
                    == old(self).active && final(self).pointer == old(self).pointer && final(self).grab == old(self).grab,
                Err(e) => old(self).has_workspace(name@) && *final(self) == *old(self) && (e
                    matches TreeError::WorkspaceExists(n) && n@ == name@),
            },
    {
        match self.find_workspace(name.as_str()) {
            Some(_) => Err(TreeError::WorkspaceExists(name)),
            None => {
                self.workspaces.push(name);
                Ok(())
            },
        }
    }

    /// Adds a node with a fresh identifier to an existing workspace. The
    /// focus does not move.
    pub fn add_view(&mut self, id: u128, workspace: &str) -> (r: Result<(), TreeError>)
        requires
            old(self).wf(),
        ensures
            final(self).wf(),
            match r {
                Ok(()) => !old(self).has_node(id) && old(self).has_workspace(workspace@) && final(self).nodes@ == old(self).nodes@.push(
                    Node {
                        id,
                        workspace: old(self).ws_idx_of(workspace@) as usize,
                        floating: false,
                        fullscreen: false,
                        tiled: true,
                        layout: SplitAxis::Horizontal,
                    },
                ) && final(self).workspaces == old(self).workspaces && final(self).active_workspace == old(self).active_workspace && final(self).active == old(self).active && final(self).pointer == old(self).pointer && final(self).grab == old(self).grab,
                Err(e) => *final(self) == *old(self) && match e {
                    TreeError::ViewExists(v) => v == id && old(self).has_node(id),
                    TreeError::NoSuchWorkspace(n) => n@ == workspace@ && !old(self).has_workspace(
                        workspace@,
                    ) && !old(self).has_node(id),
                    _ => false,
                },
            },
    {
        match self.find(id) {
            Some(_) => Err(TreeError::ViewExists(id)),
            None => match self.find_workspace(workspace) {
                Some(w) => {
                    self.nodes.push(
                        Node {
                            id,
                            workspace: w,
                            floating: false,
                            fullscreen: false,
                            tiled: true,
                            layout: SplitAxis::Horizontal,
                        },
                    );
                    Ok(())
                },
                None => Err(TreeError::NoSuchWorkspace(workspace.to_owned())),
            },
        }
    }

    /// The identifier of the focused node, or nothing.
    pub fn active_id(&self) -> (r: Option<u128>)
        requires
            self.wf(),
        ensures
            r == self.active_id_spec(),
    {
        match self.active {
            Some(i) => Some(self.nodes[i].id),
            None => None,
        }
    }

    /// Focuses the node with this identifier.
    pub fn focus(&mut self, id: u128) -> (r: Result<(), TreeError>)
        requires
            old(self).wf(),
        ensures
            final(self).wf(),
            match r {
                Ok(()) => old(self).has_node(id) && final(self).active == Some(
                    old(self).idx_of(id) as usize,
                ) && final(self).workspaces == old(self).workspaces && final(self).active_workspace
                    == old(self).active_workspace && final(self).nodes == old(self).nodes && final(self).pointer == old(self).pointer && final(self).grab == old(self).grab,
                Err(e) => !old(self).has_node(id) && *final(self) == *old(self) && e == (
                TreeError::NotFound(id)),
            },
    {
        match self.find(id) {
            Some(j) => {
                self.active = Some(j);
                Ok(())
            },
            None => Err(TreeError::NotFound(id)),
        }
    }

    /// Sets or clears the fullscreen flag of the node with this identifier.
    pub fn set_fullscreen(&mut self, id: u128, toggle: bool) -> (r: Result<(), TreeError>)
        requires
            old(self).wf(),
        ensures
            final(self).wf(),
            match r {
                Ok(()) => old(self).has_node(id) && final(self).nodes@ == old(self).nodes@.update(
                    old(self).idx_of(id),
                    (Node { fullscreen: toggle, ..old(self).nodes@[old(self).idx_of(id)] }),
                ) && final(self).workspaces == old(self).workspaces && final(self).active_workspace
                    == old(self).active_workspace && final(self).active == old(self).active
                    && final(self).pointer == old(self).pointer && final(self).grab == old(self).grab,
                Err(e) => !old(self).has_node(id) && *final(self) == *old(self) && e == (
                TreeError::NotFound(id)),
            },
    {
        match self.find(id) {
            Some(j) => {
                let mut n = self.nodes[j];
                n.fullscreen = toggle;
                self.nodes.set(j, n);
                Ok(())
            },
            None => Err(TreeError::NotFound(id)),
        }
    }

    /// Toggles the cardinal-tiling flag of the node with this identifier.
    pub fn toggle_cardinal_tiling(&mut self, id: u128) -> (r: Result<(), TreeError>)
        requires
            old(self).wf(),
        ensures
            final(self).wf(),
            match r {
                Ok(()) => old(self).has_node(id) && final(self).nodes@ == old(self).nodes@.update(
                    old(self).idx_of(id),
                    (Node {
                        tiled: !old(self).nodes@[old(self).idx_of(id)].tiled,
                        ..old(self).nodes@[old(self).idx_of(id)]
                    }),
                ) && final(self).workspaces == old(self).workspaces && final(self).active_workspace
                    == old(self).active_workspace && final(self).active == old(self).active
                    && final(self).pointer == old(self).pointer && final(self).grab == old(self).grab,
                Err(e) => !old(self).has_node(id) && *final(self) == *old(self) && e == (
                TreeError::NotFound(id)),
            },
    {
        match self.find(id) {
            Some(j) => {
                let mut n = self.nodes[j];
                n.tiled = !n.tiled;
                self.nodes.set(j, n);
                Ok(())
            },
            None => Err(TreeError::NotFound(id)),
        }
    }

    /// Sets the split axis of the focused node.
    pub fn set_active_layout(&mut self, axis: SplitAxis) -> (r: Result<(), TreeError>)
        requires
            old(self).wf(),
        ensures
            final(self).wf(),
            match r {
                Ok(()) => old(self).active matches Some(i) && final(self).nodes@ == old(self).nodes@.update(
                    i as int,
                    (Node { layout: axis, ..old(self).nodes@[i as int] }),
                ) && final(self).workspaces == old(self).workspaces && final(self).active_workspace
                    == old(self).active_workspace && final(self).active == old(self).active
                    && final(self).pointer == old(self).pointer && final(self).grab == old(
                    self,
                ).grab,
                Err(e) => old(self).active is None && *final(self) == *old(self) && e == (
                TreeError::NoActiveContainer),
            },
    {
        match self.active {
            Some(i) => {
                let mut n = self.nodes[i];
                n.layout = axis;
                self.nodes.set(i, n);
                Ok(())
            },
            None => Err(TreeError::NoActiveContainer),
        }
    }

    /// Toggles the floating flag of the focused node.
    pub fn toggle_float(&mut self) -> (r: Result<(), TreeError>)
        requires
            old(self).wf(),
        ensures
            final(self).wf(),
            match r {
                Ok(()) => old(self).active matches Some(i) && final(self).nodes@ == old(self).nodes@.update(
                    i as int,
                    (Node { floating: !old(self).nodes@[i as int].floating, ..old(self).nodes@[i as int] }),
                ) && final(self).workspaces == old(self).workspaces && final(self).active_workspace
                    == old(self).active_workspace && final(self).active == old(self).active
                    && final(self).pointer == old(self).pointer && final(self).grab == old(self).grab,
                Err(e) => old(self).active is None && *final(self) == *old(self) && e == (
                TreeError::NoActiveContainer),
            },
    {
        match self.active {
            Some(i) => {
                let mut n = self.nodes[i];
                n.floating = !n.floating;
                self.nodes.set(i, n);
                Ok(())
            },
            None => Err(TreeError::NoActiveContainer),
        }
    }

    /// Records the pointer position.
    pub fn set_pointer_pos(&mut self, p: Point) -> (r: Result<(), TreeError>)
        requires
            old(self).wf(),
        ensures
            final(self).wf(),
            r is Ok,
            final(self).pointer == p,
            final(self).workspaces == old(self).workspaces,
            final(self).active_workspace == old(self).active_workspace,
            final(self).nodes == old(self).nodes,
            final(self).active == old(self).active,
            final(self).grab == old(self).grab,
    {
        self.pointer = p;
        Ok(())
    }

    /// Begins an interactive grab of the node with this identifier at the
    /// given edge set.
    pub fn grab_at_corner(&mut self, id: u128, edge: ResizeEdge) -> (r: Result<(), TreeError>)
        requires
            old(self).wf(),
        ensures
            final(self).wf(),
            match r {
                Ok(()) => old(self).has_node(id) && final(self).grab == Some(
                    (ContainerIdentifier(id), edge),
                ) && final(self).workspaces == old(self).workspaces && final(self).active_workspace
                    == old(self).active_workspace && final(self).nodes == old(self).nodes && final(self).active == old(self).active && final(self).pointer == old(self).pointer,
                Err(e) => !old(self).has_node(id) && *final(self) == *old(self) && e == (
                TreeError::NotFound(id)),
            },
    {
        match self.find(id) {
            Some(_) => {
                self.grab = Some((ContainerIdentifier(id), edge));
                Ok(())
            },
            None => Err(TreeError::NotFound(id)),
        }
    }

    /// Makes the named workspace active; a name not present is a failure.
    pub fn switch_to_workspace(&mut self, name: &str) -> (r: Result<(), TreeError>)
        requires
            old(self).wf(),
        ensures
            final(self).wf(),
            match r {
                Ok(()) => old(self).has_workspace(name@) && final(self).active_workspace == Some(
                    old(self).ws_idx_of(name@) as usize,
                ) && final(self).workspaces == old(self).workspaces && final(self).nodes == old(self).nodes && final(self).active == old(self).active && final(self).pointer == old(self).pointer && final(self).grab == old(self).grab,
                Err(e) => !old(self).has_workspace(name@) && *final(self) == *old(self) && (e
                    matches TreeError::NoSuchWorkspace(n) && n@ == name@),
            },
    {
        match self.find_workspace(name) {
            Some(w) => {
                self.active_workspace = Some(w);
                Ok(())
            },
            None => Err(TreeError::NoSuchWorkspace(name.to_owned())),
        }
    }

    /// The name of the active workspace; a tree without one is a failure.
    pub fn active_workspace_name(&self) -> (r: Result<String, TreeError>)
        requires
            self.wf(),
        ensures
            match r {
                Ok(nm) => self.active_workspace matches Some(w) && nm@ == self.workspaces@[w as int]@,
                Err(e) => self.active_workspace is None && e == (TreeError::NoActiveWorkspace),
            },
    {
        match self.active_workspace {
            Some(w) => {
                let nm: &String = &self.workspaces[w];
                Ok(nm.clone())
            },
            None => Err(TreeError::NoActiveWorkspace),
        }
    }

    /// Whether the node with this identifier sits in the active workspace;
    /// a tree without an active workspace holds no node in it.
    pub fn container_in_active_workspace(&self, id: u128) -> (r: Result<bool, TreeError>)
        requires
            self.wf(),
        ensures
            match r {
                Ok(b) => self.has_node(id) && b == (self.active_workspace == Some(
                    self.nodes@[self.idx_of(id)].workspace,
                )),
                Err(e) => !self.has_node(id) && e == (TreeError::NotFound(id)),
            },
    {
        match self.find(id) {
            Some(j) => {
                let ws = self.nodes[j].workspace;
                match self.active_workspace {
                    Some(w) => Ok(w == ws),
                    None => Ok(false),
                }
            },
            None => Err(TreeError::NotFound(id)),
        }
    }

    /// Moves a node to the named workspace.
    pub fn send_to_workspace(&mut self, id: u128, name: &str) -> (r: Result<(), TreeError>)
        requires
            old(self).wf(),
        ensures
            final(self).wf(),
            match r {
                Ok(()) => old(self).has_node(id) && old(self).has_workspace(name@) && final(self).nodes@ == old(self).nodes@.update(
                    old(self).idx_of(id),
                    (Node {
                        workspace: old(self).ws_idx_of(name@) as usize,
                        ..old(self).nodes@[old(self).idx_of(id)]
                    }),
                ) && final(self).workspaces == old(self).workspaces && final(self).active_workspace
                    == old(self).active_workspace && final(self).active == old(self).active
                    && final(self).pointer == old(self).pointer && final(self).grab == old(self).grab,
                Err(e) => *final(self) == *old(self) && match e {
                    TreeError::NotFound(v) => v == id && !old(self).has_node(id),
                    TreeError::NoSuchWorkspace(n) => n@ == name@ && old(self).has_node(id) && !old(self).has_workspace(name@),
                    _ => false,
                },
            },
    {
        match self.find(id) {
            Some(j) => match self.find_workspace(name) {
                Some(w) => {
                    let mut n = self.nodes[j];
                    n.workspace = w;
                    self.nodes.set(j, n);
                    Ok(())
                },
                None => Err(TreeError::NoSuchWorkspace(name.to_owned())),
            },
            None => Err(TreeError::NotFound(id)),
        }
    }
    /// Removes the node with this identifier. If it was focused, the focus
    /// clears; a focus behind it moves down one slot with its node.
    pub fn remove_view_by_id(&mut self, id: u128) -> (r: Result<(), TreeError>)
        requires
            old(self).wf(),
        ensures
            final(self).wf(),
            match r {
                Ok(()) => old(self).has_node(id) && ({
                    let j = old(self).idx_of(id);
                    &&& final(self).nodes@ == old(self).nodes@.remove(j)
                    &&& final(self).active == (match old(self).active {
                        Some(k) => if k as int == j {
                            None
                        } else if k as int > j {
                            Some((k - 1) as usize)
                        } else {
                            Some(k)
                        },
                        None => None,
                    })
                    &&& final(self).workspaces == old(self).workspaces
                    &&& final(self).active_workspace == old(self).active_workspace
                    &&& final(self).pointer == old(self).pointer
                    &&& final(self).grab == old(self).grab
                }),
                Err(e) => !old(self).has_node(id) && *final(self) == *old(self) && e == (
                TreeError::NotFound(id)),
            },
    {
        match self.find(id) {
            Some(j) => {
                self.nodes.remove(j);
                proof {
                    let s0 = old(self).nodes@;
                    let s1 = self.nodes@;
                    assert forall|a: int| 0 <= a < s1.len() implies #[trigger] s1[a] == (if a < j {
                        s0[a]
                    } else {
                        s0[a + 1]
                    }) by {}
                }
                self.active = match self.active {
                    Some(k) => if k == j {
                        None
                    } else if k > j {
                        Some(k - 1)
                    } else {
                        Some(k)
                    },
                    None => None,
                };
                Ok(())
            },
            None => Err(TreeError::NotFound(id)),
        }
    }

    /// The nearest earlier index holding a node of workspace `w`.
    pub open spec fn prev_same_ws(nodes: Seq<Node>, j: int, w: usize) -> Option<int>
        decreases j,
    {
        if j <= 0 {
            None
        } else if nodes[j - 1].workspace == w {
            Some(j - 1)
        } else {
            Self::prev_same_ws(nodes, j - 1, w)
        }
    }

    /// The nearest later index holding a node of workspace `w`.
    pub open spec fn next_same_ws(nodes: Seq<Node>, j: int, w: usize) -> Option<int>
        decreases nodes.len() - j,
    {
        if j < 0 || j + 1 >= nodes.len() {
            None
        } else if nodes[j + 1].workspace == w {
            Some(j + 1)
        } else {
            Self::next_same_ws(nodes, j + 1, w)
        }
    }

    /// The index that a step in `dir` from index `j` reaches: the adjacent
    /// node of workspace `w`, earlier for left and up, later for right and
    /// down.
    pub open spec fn step_target(nodes: Seq<Node>, j: int, w: usize, dir: Direction) -> Option<
        int,
    > {
        match dir {
            Direction::Left => Self::prev_same_ws(nodes, j, w),
            Direction::Up => Self::prev_same_ws(nodes, j, w),
            Direction::Right => Self::next_same_ws(nodes, j, w),
            Direction::Down => Self::next_same_ws(nodes, j, w),
        }
    }

    /// The nearest earlier index of workspace `w`, by downward search.
    fn prev_in_workspace(&self, j: usize, w: usize) -> (r: Option<usize>)
        requires
            self.wf(),
            j <= self.nodes@.len(),
        ensures
            match r {
                Some(k) => k < j && Self::prev_same_ws(self.nodes@, j as int, w) == Some(k as int),
                None => Self::prev_same_ws(self.nodes@, j as int, w) is None,
            },
    {
        let mut i: usize = j;
        while i > 0
            invariant
                i <= j <= self.nodes@.len(),
                Self::prev_same_ws(self.nodes@, i as int, w) == Self::prev_same_ws(
                    self.nodes@,
                    j as int,
                    w,
                ),
            decreases i,
        {
            if self.nodes[i - 1].workspace == w {
                return Some(i - 1);
            }
            i = i - 1;
        }
        None
    }

    /// The nearest later index of workspace `w`, by upward search.
    fn next_in_workspace(&self, j: usize, w: usize) -> (r: Option<usize>)
        requires
            self.wf(),
            j < self.nodes@.len(),
        ensures
            match r {
                Some(k) => j < k && k < self.nodes@.len() && Self::next_same_ws(
                    self.nodes@,
                    j as int,
                    w,
                ) == Some(k as int),
                None => Self::next_same_ws(self.nodes@, j as int, w) is None,
            },
    {
        let n = self.nodes.len();
        let mut i: usize = j;
        while i + 1 < n
            invariant
                n == self.nodes@.len(),
                j <= i,
                i < self.nodes@.len(),
                Self::next_same_ws(self.nodes@, i as int, w) == Self::next_same_ws(
                    self.nodes@,
                    j as int,
                    w,
                ),
            decreases self.nodes@.len() - i,
        {
            if self.nodes[i + 1].workspace == w {
                return Some(i + 1);
            }
            i = i + 1;
        }
        None
    }

    /// Moves the focus one step within the active node's workspace; at the
    /// boundary the focus stays put.
    pub fn move_focus(&mut self, dir: Direction) -> (r: Result<(), TreeError>)
        requires
            old(self).wf(),
        ensures
            final(self).wf(),
            match r {
                Ok(()) => old(self).active matches Some(i) && ({
                    let t = Self::step_target(
                        old(self).nodes@,
                        i as int,
                        old(self).nodes@[i as int].workspace,
                        dir,
                    );
                    &&& final(self).active == (match t {
                        Some(k) => Some(k as usize),
                        None => Some(i),
                    })
                    &&& final(self).workspaces == old(self).workspaces
                    &&& final(self).active_workspace == old(self).active_workspace
                    &&& final(self).nodes == old(self).nodes
                    &&& final(self).pointer == old(self).pointer
                    &&& final(self).grab == old(self).grab
                }),
                Err(e) => old(self).active is None && *final(self) == *old(self) && e == (
                TreeError::NoActiveContainer),
            },
    {
        let i = match self.active {
            Some(i) => i,
            None => {
                return Err(TreeError::NoActiveContainer);
            },
        };
        let w = self.nodes[i].workspace;
        let t = match dir {
            Direction::Left => self.prev_in_workspace(i, w),
            Direction::Up => self.prev_in_workspace(i, w),
            Direction::Right => self.next_in_workspace(i, w),
            Direction::Down => self.next_in_workspace(i, w),
        };
        match t {
            Some(k) => {
                self.active = Some(k);
            },
            None => {},
        }
        Ok(())
    }

    /// Moves a node one step within its workspace by swapping it with the
    /// adjacent node there; at the boundary nothing changes. The target is
    /// never resolved implicitly: an omitted identifier is a failure.
    pub fn move_active(&mut self, target: Option<u128>, dir: Direction) -> (r: Result<
        (),
        TreeError,
    >)
        requires
            old(self).wf(),
        ensures
            final(self).wf(),
            match r {
                Ok(()) => target matches Some(id) && old(self).has_node(id) && ({
                    let j = old(self).idx_of(id);
                    let t = Self::step_target(
                        old(self).nodes@,
                        j,
                        old(self).nodes@[j].workspace,
                        dir,
                    );
                    match t {
                        None => *final(self) == *old(self),
                        Some(k) => {
                            &&& final(self).nodes@ == old(self).nodes@.update(
                                j,
                                old(self).nodes@[k],
                            ).update(k, old(self).nodes@[j])
                            &&& final(self).active == (match old(self).active {
                                Some(a) => if a as int == j {
                                    Some(k as usize)
                                } else if a as int == k {
                                    Some(j as usize)
                                } else {
                                    Some(a)
                                },
                                None => None,
                            })
                            &&& final(self).workspaces == old(self).workspaces
                            &&& final(self).active_workspace == old(self).active_workspace
                            &&& final(self).pointer == old(self).pointer
                            &&& final(self).grab == old(self).grab
                        },
                    }
                }),
                Err(e) => *final(self) == *old(self) && match e {
                    TreeError::NoActiveContainer => target is None,
                    TreeError::NotFound(v) => target == Some(v) && !old(self).has_node(v),
                    _ => false,
                },
            },
    {
        let id = match target {
            Some(id) => id,
            None => {
                return Err(TreeError::NoActiveContainer);
            },
        };
        let j = match self.find(id) {
            Some(j) => j,
            None => {
                return Err(TreeError::NotFound(id));
            },
        };
        let w = self.nodes[j].workspace;
        let t = match dir {
            Direction::Left => self.prev_in_workspace(j, w),
            Direction::Up => self.prev_in_workspace(j, w),
            Direction::Right => self.next_in_workspace(j, w),
            Direction::Down => self.next_in_workspace(j, w),
        };
        let k = match t {
            Some(k) => k,
            None => {
                return Ok(());
            },
        };
        let nj = self.nodes[j];
        let nk = self.nodes[k];
        self.nodes.set(j, nk);
        self.nodes.set(k, nj);
        proof {
            let s0 = old(self).nodes@;
            let s1 = self.nodes@;
            assert forall|a: int, b: int|
                0 <= a < s1.len() && 0 <= b < s1.len() && a != b implies (#[trigger] s1[a]).id != (
            #[trigger] s1[b]).id by {
                let a0: int = if a == j {
                    k as int
                } else if a == k {
                    j as int
                } else {
                    a
                };
                let b0: int = if b == j {
                    k as int
                } else if b == k {
                    j as int
                } else {
                    b
                };
                assert(s1[a] == s0[a0]);
                assert(s1[b] == s0[b0]);
                assert(s0[a0].id != s0[b0].id);
            }
        }
        self.active = match self.active {
            Some(a) => if a == j {
                Some(k)
            } else if a == k {
                Some(j)
            } else {
                Some(a)
            },
            None => None,
        };
        Ok(())
    }

    /// The rendering of the first `w` workspaces: each name followed by a
    /// semicolon, the active one preceded by a star.
    pub open spec fn debug_upto(t: Tree, w: int) -> Seq<char>
        decreases w,
    {
        if w <= 0 {
            Seq::empty()
        } else {
            Self::debug_upto(t, w - 1) + (if t.active_workspace == Some((w - 1) as usize) {
                "*"@
            } else {
                Seq::<char>::empty()
            }) + t.workspaces@[w - 1]@ + ";"@
        }
    }

    /// The full rendering of a tree's workspace list.
    pub open spec fn debug_spec(t: Tree) -> Seq<char> {
        Self::debug_upto(t, t.workspaces@.len() as int)
    }

    /// Renders the workspace list for introspection: each name followed by
    /// a semicolon, the active one preceded by a star.
    pub fn debug_string(&self) -> (r: String)
        requires
            self.wf(),
        ensures
            r@ == Self::debug_spec(*self),
    {
        let mut out = String::new();
        let mut w: usize = 0;
        while w < self.workspaces.len()
            invariant
                self.wf(),
                w <= self.workspaces@.len(),
                out@ == Self::debug_upto(*self, w as int),
            decreases self.workspaces@.len() - w,
        {
            let ghost prev = out@;
            let is_active = match self.active_workspace {
                Some(a) => a == w,
                None => false,
            };
            if is_active {
                out.append("*");
            }
            let nm: &String = &self.workspaces[w];
            out.append(nm.as_str());
            out.append(";");
            proof {
                let mark: Seq<char> = if self.active_workspace == Some(w) {
                    "*"@
                } else {
                    Seq::<char>::empty()
                };
                assert(out@ =~= Self::debug_upto(*self, w as int + 1));
            }
            w = w + 1;
        }
        out
    }
}

} // verus!
