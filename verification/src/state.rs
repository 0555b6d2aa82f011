//! The snapshot of a layout: plain data, free of live panels, compared
//! structurally.

use vstd::prelude::*;
use crate::node::Axis;

verus! {

/// A panel as a snapshot records it: its key and its parameters.
#[derive(Debug, Clone, PartialEq, Eq)]
pub struct PanelState {
    pub panel_key: String,
    pub params: String,
}

/// What a [`PanelState`] stands for in contracts.
pub ghost struct PanelStateModel {
    pub key: Seq<char>,
    pub params: Seq<char>,
}

impl View for PanelState {
    type V = PanelStateModel;

    open spec fn view(&self) -> PanelStateModel {
        PanelStateModel { key: self.panel_key@, params: self.params@ }
    }
}

/// A node of the tree as a snapshot records it.
#[derive(Debug, PartialEq, Eq)]
pub enum NodeState {
    Split { axis: Axis, items: Vec<NodeState>, sizes: Vec<Option<u32>> },
    Tabs { panels: Vec<PanelState>, active_index: usize },
}

/// What a [`NodeState`] stands for in contracts.
pub ghost enum NodeStateModel {
    Split { axis: Axis, items: Seq<NodeStateModel>, sizes: Seq<Option<u32>> },
    Tabs { panels: Seq<PanelStateModel>, active_index: nat },
}

/// The models of `panels`, in order.
pub open spec fn panel_state_models(panels: Seq<PanelState>) -> Seq<PanelStateModel> {
    Seq::new(panels.len(), |i: int| panels[i]@)
}

/// The models of the first `n` of `nodes`, in order.
pub open spec fn node_state_models(nodes: Seq<NodeState>, n: nat) -> Seq<NodeStateModel>
    decreases nodes, n,
{
    if n == 0 || n > nodes.len() {
        Seq::empty()
    } else {
        node_state_models(nodes, (n - 1) as nat).push(nodes[n - 1].view())
    }
}

impl View for NodeState {
    type V = NodeStateModel;

    open spec fn view(&self) -> NodeStateModel
        decreases self, 0nat,
    {
        match self {
            NodeState::Split { axis, items, sizes } => NodeStateModel::Split {
                axis: *axis,
                items: node_state_models(items@, items@.len()),
                sizes: sizes@,
            },
            NodeState::Tabs { panels, active_index } => NodeStateModel::Tabs {
                panels: panel_state_models(panels@),
                active_index: *active_index as nat,
            },
        }
    }
}

/// `node_state_models` keeps length and order.
pub proof fn lemma_node_state_models(nodes: Seq<NodeState>, n: nat)
    requires
        n <= nodes.len(),
    ensures
        node_state_models(nodes, n).len() == n,
        forall|i: int| 0 <= i < n ==> #[trigger] node_state_models(nodes, n)[i] == nodes[i]@,
    decreases n,
{
    if n > 0 {
        lemma_node_state_models(nodes, (n - 1) as nat);
        assert(node_state_models(nodes, n) == node_state_models(nodes, (n - 1) as nat).push(
            nodes[n - 1].view(),
        ));
    } else {
        assert(node_state_models(nodes, n) == Seq::<NodeStateModel>::empty());
    }
}

/// Whether two lists of size slots are the same.
pub fn same_sizes(a: &Vec<Option<u32>>, b: &Vec<Option<u32>>) -> (out: bool)
    ensures
        out == (a@ == b@),
{
    if a.len() != b.len() {
        return false;
    }
    let mut i: usize = 0;
    while i < a.len()
        invariant
            i <= a.len(),
            a.len() == b.len(),
            forall|j: int| 0 <= j < i ==> a@[j] == b@[j],
        decreases a.len() - i,
    {
        let equal = match (a[i], b[i]) {
            (Some(x), Some(y)) => x == y,
            (None, None) => true,
            _ => false,
        };
        if !equal {
            return false;
        }
        i += 1;
    }
    assert(a@ =~= b@);
    true
}

/// Whether two lists of recorded panels are the same.
pub fn same_panels(a: &Vec<PanelState>, b: &Vec<PanelState>) -> (out: bool)
    ensures
        out == (panel_state_models(a@) == panel_state_models(b@)),
{
    if a.len() != b.len() {
        assert(panel_state_models(a@).len() != panel_state_models(b@).len());
        return false;
    }
    let mut i: usize = 0;
    while i < a.len()
        invariant
            i <= a.len(),
            a.len() == b.len(),
            forall|j: int| 0 <= j < i ==> a@[j]@ == b@[j]@,
        decreases a.len() - i,
    {
        if !a[i].same(&b[i]) {
            assert(panel_state_models(a@)[i as int] != panel_state_models(b@)[i as int]);
            return false;
        }
        i += 1;
    }
    assert(panel_state_models(a@) =~= panel_state_models(b@));
    true
}

impl PanelState {
    /// Whether two recorded panels are the same.
    pub fn same(&self, other: &PanelState) -> (out: bool)
        ensures
            out == (self@ == other@),
    {
        self.panel_key == other.panel_key && self.params == other.params
    }
}

impl NodeState {
    /// Whether two recorded trees are structurally the same.
    #[verifier::loop_isolation(false)]
    pub fn same(&self, other: &NodeState) -> (out: bool)
        ensures
            out == (self@ == other@),
        decreases self,
    {
        match (self, other) {
            (
                NodeState::Split { axis: axis_a, items: items_a, sizes: sizes_a },
                NodeState::Split { axis: axis_b, items: items_b, sizes: sizes_b },
            ) => {
                proof {
                    lemma_node_state_models(items_a@, items_a@.len());
                    lemma_node_state_models(items_b@, items_b@.len());
                }
                let same_axis = match (axis_a, axis_b) {
                    (Axis::Horizontal, Axis::Horizontal) => true,
                    (Axis::Vertical, Axis::Vertical) => true,
                    _ => false,
                };
                if !same_axis || !same_sizes(sizes_a, sizes_b) || items_a.len() != items_b.len() {
                    return false;
                }
                let mut k: usize = 0;
                while k < items_a.len()
                    invariant
                        k <= items_a.len(),
                        forall|j: int| 0 <= j < k ==> items_a@[j]@ == items_b@[j]@,
                    decreases items_a.len() - k,
                {
                    if !items_a[k].same(&items_b[k]) {
                        assert(node_state_models(items_a@, items_a@.len())[k as int] != node_state_models(
                            items_b@,
                            items_b@.len(),
                        )[k as int]);
                        return false;
                    }
                    k += 1;
                }
                assert(node_state_models(items_a@, items_a@.len()) =~= node_state_models(items_b@, items_b@.len()));
                true
            },
            (
                NodeState::Tabs { panels: panels_a, active_index: active_a },
                NodeState::Tabs { panels: panels_b, active_index: active_b },
            ) => *active_a == *active_b && same_panels(panels_a, panels_b),
            _ => false,
        }
    }
}

/// An auxiliary dock as a snapshot records it: its panels, and its width or
/// height in pixels where one is fixed.
#[derive(Debug, PartialEq, Eq)]
pub struct DockState {
    pub panels: Vec<PanelState>,
    pub size: Option<u32>,
}

/// What a [`DockState`] stands for in contracts.
pub ghost struct DockStateModel {
    pub panels: Seq<PanelStateModel>,
    pub size: Option<u32>,
}

impl View for DockState {
    type V = DockStateModel;

    open spec fn view(&self) -> DockStateModel {
        DockStateModel { panels: panel_state_models(self.panels@), size: self.size }
    }
}

impl DockState {
    /// Whether two recorded docks are the same.
    pub fn same(&self, other: &DockState) -> (out: bool)
        ensures
            out == (self@ == other@),
    {
        let same_size = match (self.size, other.size) {
            (Some(x), Some(y)) => x == y,
            (None, None) => true,
            _ => false,
        };
        same_size && same_panels(&self.panels, &other.panels)
    }
}

/// What an optional recorded dock stands for in contracts.
pub open spec fn dock_state_model(d: Option<DockState>) -> Option<DockStateModel> {
    match d {
        Some(dock) => Some(dock@),
        None => None,
    }
}

/// Whether two optional recorded docks are the same.
pub fn same_dock(a: &Option<DockState>, b: &Option<DockState>) -> (out: bool)
    ensures
        out == (dock_state_model(*a) == dock_state_model(*b)),
{
    match (a, b) {
        (Some(x), Some(y)) => x.same(y),
        (None, None) => true,
        _ => false,
    }
}

/// The versioned snapshot of a whole layout.
#[derive(Debug, PartialEq, Eq)]
pub struct LayoutState {
    pub version: Option<u64>,
    pub root: NodeState,
    pub left: Option<DockState>,
    pub right: Option<DockState>,
    pub bottom: Option<DockState>,
}

/// What a [`LayoutState`] stands for in contracts.
pub ghost struct LayoutModel {
    pub version: Option<u64>,
    pub root: NodeStateModel,
    pub left: Option<DockStateModel>,
    pub right: Option<DockStateModel>,
    pub bottom: Option<DockStateModel>,
}

impl View for LayoutState {
    type V = LayoutModel;

    open spec fn view(&self) -> LayoutModel {
        LayoutModel {
            version: self.version,
            root: self.root@,
            left: dock_state_model(self.left),
            right: dock_state_model(self.right),
            bottom: dock_state_model(self.bottom),
        }
    }
}

impl LayoutState {
    /// Whether two snapshots are structurally the same.
    pub fn same(&self, other: &LayoutState) -> (out: bool)
        ensures
            out == (self@ == other@),
    {
        let same_version = match (self.version, other.version) {
            (Some(x), Some(y)) => x == y,
            (None, None) => true,
            _ => false,
        };
        same_version && self.root.same(&other.root) && same_dock(&self.left, &other.left)
            && same_dock(&self.right, &other.right) && same_dock(&self.bottom, &other.bottom)
    }
}

} // verus!
