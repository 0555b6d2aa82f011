//! The dock area: the root of the tree with its three auxiliary docks, the
//! snapshot taken of it and the rebuilding of it from a snapshot.

use vstd::prelude::*;
use crate::node::{
    lemma_children_wf, lemma_node_models, model_wf, node_models, panel_models, DockNode,
    NodeModel,
};
use crate::panel::{PanelModel, PanelRef, PanelRegistry, UnknownPanelKey};
use crate::state::{
    dock_state_model, lemma_node_state_models, node_state_models, panel_state_models, DockState,
    DockStateModel, LayoutModel, LayoutState, NodeState, NodeStateModel, PanelState,
    PanelStateModel,
};

verus! {

/// The one notification that the dock area gives: its layout has changed.
#[derive(Clone, Copy, Debug, PartialEq, Eq, Structural)]
pub enum DockEvent {
    LayoutChanged,
}

/// A dock at an edge of the workspace: its panels, and its width or height
/// in pixels where one is fixed.
#[derive(Debug, PartialEq, Eq)]
pub struct AuxDock {
    pub panels: Vec<PanelRef>,
    pub size: Option<u32>,
}

/// What an [`AuxDock`] stands for in contracts.
pub ghost struct AuxDockModel {
    pub panels: Seq<PanelModel>,
    pub size: Option<u32>,
}

impl View for AuxDock {
    type V = AuxDockModel;

    open spec fn view(&self) -> AuxDockModel {
        AuxDockModel { panels: panel_models(self.panels@), size: self.size }
    }
}

/// What an optional dock stands for in contracts.
pub open spec fn aux_dock_model(d: Option<AuxDock>) -> Option<AuxDockModel> {
    match d {
        Some(dock) => Some(dock@),
        None => None,
    }
}

/// What a [`DockArea`] stands for in contracts.
pub ghost struct AreaModel {
    pub version: Option<u64>,
    pub root: NodeModel,
    pub left: Option<AuxDockModel>,
    pub right: Option<AuxDockModel>,
    pub bottom: Option<AuxDockModel>,
}

/// Why a snapshot could not be loaded.
#[derive(Debug, PartialEq, Eq)]
pub enum LoadError {
    /// A panel of the snapshot has a key that the registry does not know;
    /// this is the first such key.
    PanelResolution(UnknownPanelKey),
    /// The tree of the snapshot breaks the structural rule of dock nodes.
    InvalidStructure,
}

// ---------------------------------------------------------------- snapshot

/// The record of one panel.
pub open spec fn dump_panel(p: PanelModel) -> PanelStateModel {
    PanelStateModel { key: p.key, params: p.params }
}

/// The records of `ps`, in order.
pub open spec fn dump_panels(ps: Seq<PanelModel>) -> Seq<PanelStateModel> {
    Seq::new(ps.len(), |i: int| dump_panel(ps[i]))
}

/// The record of the tree under `n`.
pub open spec fn dump_node(n: NodeModel) -> NodeStateModel
    decreases n, 0nat,
{
    match n {
        NodeModel::Split { axis, children, sizes } => NodeStateModel::Split {
            axis,
            items: dump_nodes(children, children.len()),
            sizes,
        },
        NodeModel::Tabs { panels, active_index } => NodeStateModel::Tabs {
            panels: dump_panels(panels),
            active_index,
        },
    }
}

/// The records of the first `k` of `ns`, in order.
pub open spec fn dump_nodes(ns: Seq<NodeModel>, k: nat) -> Seq<NodeStateModel>
    decreases ns, k,
{
    if k == 0 || k > ns.len() {
        Seq::empty()
    } else {
        dump_nodes(ns, (k - 1) as nat).push(dump_node(ns[k - 1]))
    }
}

/// The record of an optional dock.
pub open spec fn dump_dock(d: Option<AuxDockModel>) -> Option<DockStateModel> {
    match d {
        Some(dock) => Some(DockStateModel { panels: dump_panels(dock.panels), size: dock.size }),
        None => None,
    }
}

/// The snapshot of a whole dock area.
pub open spec fn dump_area(a: AreaModel) -> LayoutModel {
    LayoutModel {
        version: a.version,
        root: dump_node(a.root),
        left: dump_dock(a.left),
        right: dump_dock(a.right),
        bottom: dump_dock(a.bottom),
    }
}

/// `dump_nodes` keeps length and order.
pub proof fn lemma_dump_nodes(ns: Seq<NodeModel>, k: nat)
    requires
        k <= ns.len(),
    ensures
        dump_nodes(ns, k).len() == k,
        forall|i: int| 0 <= i < k ==> #[trigger] dump_nodes(ns, k)[i] == dump_node(ns[i]),
    decreases k,
{
    if k > 0 {
        lemma_dump_nodes(ns, (k - 1) as nat);
        assert(dump_nodes(ns, k) == dump_nodes(ns, (k - 1) as nat).push(dump_node(ns[k - 1])));
    } else {
        assert(dump_nodes(ns, k) == Seq::<NodeStateModel>::empty());
    }
}

// -------------------------------------------------------------- resolution

/// The panels that the first `k` records of `ps` resolve to, or the first
/// key among them that `reg` does not know.
pub open spec fn resolve_panels(reg: Map<Seq<char>, u64>, ps: Seq<PanelStateModel>, k: nat)
    -> Result<Seq<PanelModel>, Seq<char>>
    decreases k,
{
    if k == 0 || k > ps.len() {
        Ok(Seq::empty())
    } else {
        match resolve_panels(reg, ps, (k - 1) as nat) {
            Err(e) => Err(e),
            Ok(v) => if reg.contains_key(ps[k - 1].key) {
                Ok(
                    v.push(
                        PanelModel {
                            key: ps[k - 1].key,
                            params: ps[k - 1].params,
                            factory: reg[ps[k - 1].key],
                        },
                    ),
                )
            } else {
                Err(ps[k - 1].key)
            },
        }
    }
}

/// The tree that the record `s` resolves to, or the first key in it, in
/// document order, that `reg` does not know.
pub open spec fn resolve_node(reg: Map<Seq<char>, u64>, s: NodeStateModel) -> Result<
    NodeModel,
    Seq<char>,
>
    decreases s, 0nat,
{
    match s {
        NodeStateModel::Split { axis, items, sizes } => match resolve_nodes(
            reg,
            items,
            items.len(),
        ) {
            Ok(children) => Ok(NodeModel::Split { axis, children, sizes }),
            Err(e) => Err(e),
        },
        NodeStateModel::Tabs { panels, active_index } => match resolve_panels(
            reg,
            panels,
            panels.len(),
        ) {
            Ok(ps) => Ok(NodeModel::Tabs { panels: ps, active_index }),
            Err(e) => Err(e),
        },
    }
}

/// The trees that the first `k` records of `ss` resolve to, or the first
/// unknown key among them.
pub open spec fn resolve_nodes(reg: Map<Seq<char>, u64>, ss: Seq<NodeStateModel>, k: nat)
    -> Result<Seq<NodeModel>, Seq<char>>
    decreases ss, k,
{
    if k == 0 || k > ss.len() {
        Ok(Seq::empty())
    } else {
        match resolve_nodes(reg, ss, (k - 1) as nat) {
            Err(e) => Err(e),
            Ok(v) => match resolve_node(reg, ss[k - 1]) {
                Ok(n) => Ok(v.push(n)),
                Err(e) => Err(e),
            },
        }
    }
}

/// The dock that an optional record resolves to, or its first unknown key.
pub open spec fn resolve_dock(reg: Map<Seq<char>, u64>, d: Option<DockStateModel>) -> Result<
    Option<AuxDockModel>,
    Seq<char>,
> {
    match d {
        None => Ok(None),
        Some(dock) => match resolve_panels(reg, dock.panels, dock.panels.len()) {
            Ok(ps) => Ok(Some(AuxDockModel { panels: ps, size: dock.size })),
            Err(e) => Err(e),
        },
    }
}

/// The dock area that a snapshot resolves to, or its first unknown key: the
/// root is resolved first, then the left, the right and the bottom dock.
pub open spec fn resolve_area(reg: Map<Seq<char>, u64>, l: LayoutModel) -> Result<
    AreaModel,
    Seq<char>,
> {
    match resolve_node(reg, l.root) {
        Err(e) => Err(e),
        Ok(root) => match resolve_dock(reg, l.left) {
            Err(e) => Err(e),
            Ok(left) => match resolve_dock(reg, l.right) {
                Err(e) => Err(e),
                Ok(right) => match resolve_dock(reg, l.bottom) {
                    Err(e) => Err(e),
                    Ok(bottom) => Ok(AreaModel { version: l.version, root, left, right, bottom }),
                },
            },
        },
    }
}

/// As many panels come out of a resolution as records went in.
pub proof fn lemma_resolve_panels_len(reg: Map<Seq<char>, u64>, ps: Seq<PanelStateModel>, k: nat)
    requires
        k <= ps.len(),
    ensures
        resolve_panels(reg, ps, k) matches Ok(v) ==> v.len() == k,
    decreases k,
{
    if k > 0 {
        lemma_resolve_panels_len(reg, ps, (k - 1) as nat);
    }
}

/// Once a prefix of the records fails to resolve, every longer prefix fails
/// with the same key.
pub proof fn lemma_resolve_panels_err(
    reg: Map<Seq<char>, u64>,
    ps: Seq<PanelStateModel>,
    k: nat,
    m: nat,
)
    requires
        k <= m <= ps.len(),
        resolve_panels(reg, ps, k).is_err(),
    ensures
        resolve_panels(reg, ps, m) == resolve_panels(reg, ps, k),
    decreases m,
{
    if m > k {
        lemma_resolve_panels_err(reg, ps, k, (m - 1) as nat);
    }
}

/// Once a prefix of the records fails to resolve, every longer prefix fails
/// with the same key.
pub proof fn lemma_resolve_nodes_err(
    reg: Map<Seq<char>, u64>,
    ss: Seq<NodeStateModel>,
    k: nat,
    m: nat,
)
    requires
        k <= m <= ss.len(),
        resolve_nodes(reg, ss, k).is_err(),
    ensures
        resolve_nodes(reg, ss, m) == resolve_nodes(reg, ss, k),
    decreases m,
{
    if m > k {
        lemma_resolve_nodes_err(reg, ss, k, (m - 1) as nat);
        assert(resolve_nodes(reg, ss, m) == match resolve_nodes(reg, ss, (m - 1) as nat) {
            Err(e) => Err(e),
            Ok(v) => match resolve_node(reg, ss[m - 1]) {
                Ok(n) => Ok(v.push(n)),
                Err(e) => Err(e),
            },
        });
    }
}

// ------------------------------------------------------- executable parts

/// A copy of a list of size slots.
pub fn copy_sizes(sizes: &Vec<Option<u32>>) -> (out: Vec<Option<u32>>)
    ensures
        out@ == sizes@,
{
    let mut out: Vec<Option<u32>> = Vec::new();
    let mut i: usize = 0;
    while i < sizes.len()
        invariant
            i <= sizes.len(),
            out@ =~= sizes@.take(i as int),
        decreases sizes.len() - i,
    {
        out.push(sizes[i]);
        i += 1;
    }
    assert(sizes@.take(sizes@.len() as int) =~= sizes@);
    out
}

/// The records of a list of panels.
pub fn dump_panel_list(panels: &Vec<PanelRef>) -> (out: Vec<PanelState>)
    ensures
        panel_state_models(out@) == dump_panels(panel_models(panels@)),
{
    let mut out: Vec<PanelState> = Vec::new();
    let mut i: usize = 0;
    while i < panels.len()
        invariant
            i <= panels.len(),
            out@.len() == i,
            forall|j: int| 0 <= j < i ==> out@[j]@ == dump_panel(panels@[j]@),
        decreases panels.len() - i,
    {
        out.push(PanelState { panel_key: panels[i].key.clone(), params: panels[i].params.clone() });
        i += 1;
    }
    assert(panel_state_models(out@) =~= dump_panels(panel_models(panels@)));
    out
}

/// Resolves a list of recorded panels through the registry, in order, and
/// stops at the first key that it does not know.
pub fn resolve_panel_list(registry: &PanelRegistry, panels: &Vec<PanelState>) -> (out: Result<
    Vec<PanelRef>,
    UnknownPanelKey,
>)
    ensures
        match (out, resolve_panels(registry@, panel_state_models(panels@), panels@.len())) {
            (Ok(v), Ok(m)) => panel_models(v@) == m,
            (Err(e), Err(k)) => e.key@ == k,
            _ => false,
        },
{
    let ghost ms = panel_state_models(panels@);
    let mut out: Vec<PanelRef> = Vec::new();
    let mut i: usize = 0;
    assert(panel_models(out@) =~= Seq::<PanelModel>::empty());
    while i < panels.len()
        invariant
            i <= panels.len(),
            ms == panel_state_models(panels@),
            resolve_panels(registry@, ms, i as nat) == Ok::<Seq<PanelModel>, Seq<char>>(
                panel_models(out@),
            ),
        decreases panels.len() - i,
    {
        let ghost before = out@;
        match registry.create(&panels[i].panel_key, &panels[i].params) {
            Ok(p) => {
                out.push(p);
                proof {
                    assert(panel_models(out@) =~= panel_models(before).push(p@));
                }
            },
            Err(e) => {
                proof {
                    lemma_resolve_panels_err(registry@, ms, (i + 1) as nat, panels@.len());
                }
                return Err(e);
            },
        }
        i += 1;
    }
    Ok(out)
}

impl DockNode {
    /// The record of the tree under this node, which obeys the structural
    /// rule.
    #[verifier::loop_isolation(false)]
    pub fn dump(&self) -> (out: NodeState)
        requires
            self.wf(),
        ensures
            out@ == dump_node(self@),
        decreases self,
    {
        match self {
            DockNode::Split { axis, children, sizes } => {
                proof {
                    lemma_children_wf(children@);
                }
                let mut items: Vec<NodeState> = Vec::new();
                let mut i: usize = 0;
                while i < children.len()
                    invariant
                        i <= children.len(),
                        items@.len() == i,
                        forall|j: int| 0 <= j < i ==> items@[j]@ == dump_node(children@[j]@),
                    decreases children.len() - i,
                {
                    let item = children[i].dump();
                    items.push(item);
                    i += 1;
                }
                proof {
                    let n = children@.len();
                    lemma_node_models(children@, n);
                    lemma_dump_nodes(node_models(children@, n), n);
                    lemma_node_state_models(items@, n);
                    assert(node_state_models(items@, n) =~= dump_nodes(
                        node_models(children@, n),
                        n,
                    ));
                }
                NodeState::Split { axis: *axis, items, sizes: copy_sizes(sizes) }
            },
            DockNode::Tabs { panels, active_index } => NodeState::Tabs {
                panels: dump_panel_list(panels),
                active_index: *active_index,
            },
        }
    }
}

impl NodeState {
    /// Rebuilds the tree that this record describes, resolving each panel
    /// through the registry; stops at the first key that it does not know.
    #[verifier::loop_isolation(false)]
    pub fn resolve(&self, registry: &PanelRegistry) -> (out: Result<DockNode, UnknownPanelKey>)
        ensures
            match (out, resolve_node(registry@, self@)) {
                (Ok(node), Ok(m)) => node@ == m,
                (Err(e), Err(k)) => e.key@ == k,
                _ => false,
            },
        decreases self,
    {
        match self {
            NodeState::Split { axis, items, sizes } => {
                let ghost ms = node_state_models(items@, items@.len());
                proof {
                    lemma_node_state_models(items@, items@.len());
                }
                let mut children: Vec<DockNode> = Vec::new();
                let ghost mut acc: Seq<NodeModel> = Seq::empty();
                let mut i: usize = 0;
                while i < items.len()
                    invariant
                        i <= items.len(),
                        children@.len() == i,
                        acc.len() == i,
                        forall|j: int| 0 <= j < i ==> acc[j] == children@[j]@,
                        resolve_nodes(registry@, ms, i as nat) == Ok::<Seq<NodeModel>, Seq<char>>(
                            acc,
                        ),
                    decreases items.len() - i,
                {
                    assert(ms[i as int] == items@[i as int]@);
                    match items[i].resolve(registry) {
                        Ok(child) => {
                            proof {
                                acc = acc.push(child@);
                            }
                            children.push(child);
                        },
                        Err(e) => {
                            proof {
                                lemma_resolve_nodes_err(
                                    registry@,
                                    ms,
                                    (i + 1) as nat,
                                    items@.len(),
                                );
                            }
                            return Err(e);
                        },
                    }
                    i += 1;
                }
                proof {
                    lemma_node_models(children@, children@.len());
                    assert(node_models(children@, children@.len()) =~= acc);
                }
                Ok(DockNode::Split { axis: *axis, children, sizes: copy_sizes(sizes) })
            },
            NodeState::Tabs { panels, active_index } => {
                match resolve_panel_list(registry, panels) {
                    Ok(ps) => Ok(DockNode::Tabs { panels: ps, active_index: *active_index }),
                    Err(e) => Err(e),
                }
            },
        }
    }
}

/// The record of an optional dock.
pub fn dump_aux_dock(dock: &Option<AuxDock>) -> (out: Option<DockState>)
    ensures
        dock_state_model(out) == dump_dock(aux_dock_model(*dock)),
{
    match dock {
        Some(d) => Some(DockState { panels: dump_panel_list(&d.panels), size: d.size }),
        None => None,
    }
}

/// Rebuilds an optional dock from its record; stops at the first key that
/// the registry does not know.
pub fn resolve_aux_dock(registry: &PanelRegistry, dock: &Option<DockState>) -> (out: Result<
    Option<AuxDock>,
    UnknownPanelKey,
>)
    ensures
        match (out, resolve_dock(registry@, dock_state_model(*dock))) {
            (Ok(d), Ok(m)) => aux_dock_model(d) == m,
            (Err(e), Err(k)) => e.key@ == k,
            _ => false,
        },
{
    match dock {
        None => Ok(None),
        Some(d) => match resolve_panel_list(registry, &d.panels) {
            Ok(panels) => Ok(Some(AuxDock { panels, size: d.size })),
            Err(e) => Err(e),
        },
    }
}

/// The layout of one workspace window: the root of the tree of dock nodes
/// and the docks at the left, right and bottom edge.
#[derive(Debug, PartialEq, Eq)]
pub struct DockArea {
    version: Option<u64>,
    root: DockNode,
    left: Option<AuxDock>,
    right: Option<AuxDock>,
    bottom: Option<AuxDock>,
}

impl View for DockArea {
    type V = AreaModel;

    closed spec fn view(&self) -> AreaModel {
        AreaModel {
            version: self.version,
            root: self.root@,
            left: aux_dock_model(self.left),
            right: aux_dock_model(self.right),
            bottom: aux_dock_model(self.bottom),
        }
    }
}

impl DockArea {
    /// Whether the tree of this area obeys the structural rule.
    pub open spec fn wf(&self) -> bool {
        model_wf(self@.root)
    }

    /// An area with an empty tab group as its root and no dock.
    pub fn new(version: Option<u64>) -> (out: DockArea)
        ensures
            out.wf(),
            out@ == (AreaModel {
                version,
                root: NodeModel::Tabs { panels: Seq::empty(), active_index: 0 },
                left: None,
                right: None,
                bottom: None,
            }),
    {
        let root = DockNode::Tabs { panels: Vec::new(), active_index: 0 };
        assert(panel_models(Seq::<PanelRef>::empty()) =~= Seq::<PanelModel>::empty());
        DockArea { version, root, left: None, right: None, bottom: None }
    }

    /// The version that the layout was made for.
    pub fn version(&self) -> (out: Option<u64>)
        ensures
            out == self@.version,
    {
        self.version
    }

    /// The root of the tree.
    pub fn root(&self) -> (out: &DockNode)
        ensures
            out@ == self@.root,
    {
        &self.root
    }

    /// The dock at the left edge.
    pub fn left_dock(&self) -> (out: &Option<AuxDock>)
        ensures
            aux_dock_model(*out) == self@.left,
    {
        &self.left
    }

    /// The dock at the right edge.
    pub fn right_dock(&self) -> (out: &Option<AuxDock>)
        ensures
            aux_dock_model(*out) == self@.right,
    {
        &self.right
    }

    /// The dock at the bottom edge.
    pub fn bottom_dock(&self) -> (out: &Option<AuxDock>)
        ensures
            aux_dock_model(*out) == self@.bottom,
    {
        &self.bottom
    }

    /// Stamps the layout with `version`.
    pub fn set_version(&mut self, version: u64)
        ensures
            final(self)@ == (AreaModel { version: Some(version), ..old(self)@ }),
    {
        self.version = Some(version);
    }

    /// Replaces the whole tree by `node`.
    pub fn set_root(&mut self, node: DockNode) -> (out: DockEvent)
        requires
            node.wf(),
        ensures
            final(self).wf(),
            final(self)@ == (AreaModel { root: node@, ..old(self)@ }),
            out == DockEvent::LayoutChanged,
    {
        self.root = node;
        DockEvent::LayoutChanged
    }

    /// Replaces the dock at the left edge.
    pub fn set_left_dock(&mut self, panels: Vec<PanelRef>, size: Option<u32>) -> (out: DockEvent)
        ensures
            final(self)@ == (AreaModel {
                left: Some(AuxDockModel { panels: panel_models(panels@), size }),
                ..old(self)@
            }),
            out == DockEvent::LayoutChanged,
    {
        self.left = Some(AuxDock { panels, size });
        DockEvent::LayoutChanged
    }

    /// Replaces the dock at the right edge.
    pub fn set_right_dock(&mut self, panels: Vec<PanelRef>, size: Option<u32>) -> (out: DockEvent)
        ensures
            final(self)@ == (AreaModel {
                right: Some(AuxDockModel { panels: panel_models(panels@), size }),
                ..old(self)@
            }),
            out == DockEvent::LayoutChanged,
    {
        self.right = Some(AuxDock { panels, size });
        DockEvent::LayoutChanged
    }

    /// Replaces the dock at the bottom edge.
    pub fn set_bottom_dock(&mut self, panels: Vec<PanelRef>, size: Option<u32>) -> (out: DockEvent)
        ensures
            final(self)@ == (AreaModel {
                bottom: Some(AuxDockModel { panels: panel_models(panels@), size }),
                ..old(self)@
            }),
            out == DockEvent::LayoutChanged,
    {
        self.bottom = Some(AuxDock { panels, size });
        DockEvent::LayoutChanged
    }

    /// A snapshot of the whole area.
    pub fn dump(&self) -> (out: LayoutState)
        requires
            self.wf(),
        ensures
            out@ == dump_area(self@),
    {
        LayoutState {
            version: self.version,
            root: self.root.dump(),
            left: dump_aux_dock(&self.left),
            right: dump_aux_dock(&self.right),
            bottom: dump_aux_dock(&self.bottom),
        }
    }

    /// Rebuilds the area from `state`. Every panel of the snapshot is
    /// resolved through `registry` and the rebuilt tree is validated before
    /// anything of the area changes: where the call fails, the area is as
    /// it was.
    pub fn load(&mut self, registry: &PanelRegistry, state: &LayoutState) -> (out: Result<
        (),
        LoadError,
    >)
        ensures
            match resolve_area(registry@, state@) {
                Err(k) => out matches Err(LoadError::PanelResolution(e)) && e.key@ == k,
                Ok(m) => if model_wf(m.root) {
                    out.is_ok() && final(self)@ == m
                } else {
                    out == Err::<(), LoadError>(LoadError::InvalidStructure)
                },
            },
            out.is_err() ==> *final(self) == *old(self),
            out.is_ok() ==> final(self).wf(),
    {
        let root = match state.root.resolve(registry) {
            Ok(node) => node,
            Err(e) => {
                return Err(LoadError::PanelResolution(e));
            },
        };
        let left = match resolve_aux_dock(registry, &state.left) {
            Ok(dock) => dock,
            Err(e) => {
                return Err(LoadError::PanelResolution(e));
            },
        };
        let right = match resolve_aux_dock(registry, &state.right) {
            Ok(dock) => dock,
            Err(e) => {
                return Err(LoadError::PanelResolution(e));
            },
        };
        let bottom = match resolve_aux_dock(registry, &state.bottom) {
            Ok(dock) => dock,
            Err(e) => {
                return Err(LoadError::PanelResolution(e));
            },
        };
        if !root.is_valid() {
            return Err(LoadError::InvalidStructure);
        }
        self.version = state.version;
        self.root = root;
        self.left = left;
        self.right = right;
        self.bottom = bottom;
        Ok(())
    }
}

} // verus!
