//! Dropping from a snapshot the panels that the registry does not know.

use vstd::prelude::*;
use crate::area::{copy_sizes, resolve_area, resolve_node, resolve_nodes, resolve_panels};
use crate::node::NodeModel;
use crate::panel::PanelRegistry;
use crate::round_trip::{
    dock_record_known, layout_known, record_known, record_list_known, records_known,
};
use crate::state::{
    dock_state_model, lemma_node_state_models, node_state_models, panel_state_models, DockState,
    DockStateModel, LayoutModel, LayoutState, NodeState, NodeStateModel, PanelState,
    PanelStateModel,
};

verus! {

/// The records among the first `k` of `ps` whose key `reg` knows, in order.
pub open spec fn known_panels(reg: Map<Seq<char>, u64>, ps: Seq<PanelStateModel>, k: nat) -> Seq<
    PanelStateModel,
>
    decreases k,
{
    if k == 0 || k > ps.len() {
        Seq::empty()
    } else if reg.contains_key(ps[k - 1].key) {
        known_panels(reg, ps, (k - 1) as nat).push(ps[k - 1])
    } else {
        known_panels(reg, ps, (k - 1) as nat)
    }
}

/// The record `s` without the panels whose key `reg` does not know. A tab
/// group that lost no panel is left as it is. One that lost some keeps the
/// index of its active tab where it still has a tab of that index or has
/// no tab left; else its first tab is active.
pub open spec fn prune_node(reg: Map<Seq<char>, u64>, s: NodeStateModel) -> NodeStateModel
    decreases s, 0nat,
{
    match s {
        NodeStateModel::Split { axis, items, sizes } => NodeStateModel::Split {
            axis,
            items: prune_nodes(reg, items, items.len()),
            sizes,
        },
        NodeStateModel::Tabs { panels, active_index } => {
            let kept = known_panels(reg, panels, panels.len());
            NodeStateModel::Tabs {
                panels: kept,
                active_index: if 0 < kept.len() < panels.len() && active_index >= kept.len() {
                    0
                } else {
                    active_index
                },
            }
        },
    }
}

/// The first `k` records of `ss`, each without its unknown panels.
pub open spec fn prune_nodes(reg: Map<Seq<char>, u64>, ss: Seq<NodeStateModel>, k: nat) -> Seq<
    NodeStateModel,
>
    decreases ss, k,
{
    if k == 0 || k > ss.len() {
        Seq::empty()
    } else {
        prune_nodes(reg, ss, (k - 1) as nat).push(prune_node(reg, ss[k - 1]))
    }
}

/// The record of an optional dock without its unknown panels.
pub open spec fn prune_dock(reg: Map<Seq<char>, u64>, d: Option<DockStateModel>) -> Option<
    DockStateModel,
> {
    match d {
        Some(dock) => Some(
            DockStateModel {
                panels: known_panels(reg, dock.panels, dock.panels.len()),
                size: dock.size,
            },
        ),
        None => None,
    }
}

/// The snapshot `l` without the panels whose key `reg` does not know.
pub open spec fn prune_layout(reg: Map<Seq<char>, u64>, l: LayoutModel) -> LayoutModel {
    LayoutModel {
        version: l.version,
        root: prune_node(reg, l.root),
        left: prune_dock(reg, l.left),
        right: prune_dock(reg, l.right),
        bottom: prune_dock(reg, l.bottom),
    }
}

/// `prune_nodes` keeps length and order.
pub proof fn lemma_prune_nodes(reg: Map<Seq<char>, u64>, ss: Seq<NodeStateModel>, k: nat)
    requires
        k <= ss.len(),
    ensures
        prune_nodes(reg, ss, k).len() == k,
        forall|i: int| 0 <= i < k ==> #[trigger] prune_nodes(reg, ss, k)[i] == prune_node(reg, ss[i]),
    decreases k,
{
    if k > 0 {
        lemma_prune_nodes(reg, ss, (k - 1) as nat);
        assert(prune_nodes(reg, ss, k) == prune_nodes(reg, ss, (k - 1) as nat).push(
            prune_node(reg, ss[k - 1]),
        ));
    } else {
        assert(prune_nodes(reg, ss, k) == Seq::<NodeStateModel>::empty());
    }
}

/// The registry knows the key of every record that pruning keeps.
pub proof fn lemma_known_panels(reg: Map<Seq<char>, u64>, ps: Seq<PanelStateModel>, k: nat)
    requires
        k <= ps.len(),
    ensures
        forall|i: int|
            0 <= i < known_panels(reg, ps, k).len() ==> reg.contains_key(
                (#[trigger] known_panels(reg, ps, k)[i]).key,
            ),
    decreases k,
{
    if k > 0 {
        lemma_known_panels(reg, ps, (k - 1) as nat);
        let rest = known_panels(reg, ps, (k - 1) as nat);
        let all = known_panels(reg, ps, k);
        assert forall|i: int| 0 <= i < all.len() implies reg.contains_key((#[trigger] all[i]).key) by {
            if reg.contains_key(ps[k - 1].key) {
                assert(all == rest.push(ps[k - 1]));
                if i < rest.len() {
                    assert(all[i] == rest[i]);
                }
            } else {
                assert(all == rest);
            }
        }
    }
}

/// Records whose keys the registry knows all resolve.
pub proof fn lemma_known_resolve(reg: Map<Seq<char>, u64>, ps: Seq<PanelStateModel>, k: nat)
    requires
        k <= ps.len(),
        forall|i: int| 0 <= i < ps.len() ==> reg.contains_key((#[trigger] ps[i]).key),
    ensures
        resolve_panels(reg, ps, k).is_ok(),
    decreases k,
{
    if k > 0 {
        lemma_known_resolve(reg, ps, (k - 1) as nat);
        assert(reg.contains_key(ps[k - 1].key));
    }
}

/// A pruned record resolves.
pub proof fn lemma_pruned_node_resolves(reg: Map<Seq<char>, u64>, s: NodeStateModel)
    ensures
        resolve_node(reg, prune_node(reg, s)).is_ok(),
    decreases s, 0nat,
{
    match s {
        NodeStateModel::Split { axis, items, sizes } => {
            lemma_prune_nodes(reg, items, items.len());
            lemma_pruned_nodes_resolve(reg, items, items.len());
        },
        NodeStateModel::Tabs { panels, active_index } => {
            let kept = known_panels(reg, panels, panels.len());
            lemma_known_panels(reg, panels, panels.len());
            lemma_known_resolve(reg, kept, kept.len());
        },
    }
}

/// Pruned records resolve, one for one.
pub proof fn lemma_pruned_nodes_resolve(reg: Map<Seq<char>, u64>, ss: Seq<NodeStateModel>, k: nat)
    requires
        k <= ss.len(),
    ensures
        resolve_nodes(reg, prune_nodes(reg, ss, ss.len()), k).is_ok(),
    decreases ss, k,
{
    lemma_prune_nodes(reg, ss, ss.len());
    let pruned = prune_nodes(reg, ss, ss.len());
    if k > 0 {
        lemma_pruned_nodes_resolve(reg, ss, (k - 1) as nat);
        lemma_pruned_node_resolves(reg, ss[k - 1]);
        assert(pruned[k - 1] == prune_node(reg, ss[k - 1]));
        assert(resolve_nodes(reg, pruned, k) == match resolve_nodes(reg, pruned, (k - 1) as nat) {
            Err(e) => Err(e),
            Ok(v) => match resolve_node(reg, pruned[k - 1]) {
                Ok(n) => Ok(v.push(n)),
                Err(e) => Err(e),
            },
        });
    } else {
        assert(resolve_nodes(reg, pruned, 0) == Ok::<Seq<NodeModel>, Seq<char>>(Seq::empty()));
    }
}

/// A pruned snapshot never fails on a panel key: every panel that is left
/// in it resolves.
pub proof fn lemma_pruned_layout_resolves(reg: Map<Seq<char>, u64>, l: LayoutModel)
    ensures
        resolve_area(reg, prune_layout(reg, l)).is_ok(),
{
    lemma_pruned_node_resolves(reg, l.root);
    if let Some(dock) = l.left {
        let kept = known_panels(reg, dock.panels, dock.panels.len());
        lemma_known_panels(reg, dock.panels, dock.panels.len());
        lemma_known_resolve(reg, kept, kept.len());
    }
    if let Some(dock) = l.right {
        let kept = known_panels(reg, dock.panels, dock.panels.len());
        lemma_known_panels(reg, dock.panels, dock.panels.len());
        lemma_known_resolve(reg, kept, kept.len());
    }
    if let Some(dock) = l.bottom {
        let kept = known_panels(reg, dock.panels, dock.panels.len());
        lemma_known_panels(reg, dock.panels, dock.panels.len());
        lemma_known_resolve(reg, kept, kept.len());
    }
}

/// Pruning keeps every record whose key the registry knows: where it knows
/// them all, the list is left as it is.
pub proof fn lemma_known_panels_identity(
    reg: Map<Seq<char>, u64>,
    ps: Seq<PanelStateModel>,
    k: nat,
)
    requires
        k <= ps.len(),
        records_known(reg, ps),
    ensures
        known_panels(reg, ps, k) == ps.take(k as int),
    decreases k,
{
    if k > 0 {
        lemma_known_panels_identity(reg, ps, (k - 1) as nat);
        assert(reg.contains_key(ps[k - 1].key));
        assert(ps.take(k as int) =~= ps.take(k - 1).push(ps[k - 1]));
    } else {
        assert(ps.take(0) =~= Seq::<PanelStateModel>::empty());
    }
}

/// Pruning changes nothing in a record whose keys the registry knows.
pub proof fn lemma_prune_node_identity(reg: Map<Seq<char>, u64>, s: NodeStateModel)
    requires
        record_known(reg, s),
    ensures
        prune_node(reg, s) == s,
    decreases s, 0nat,
{
    match s {
        NodeStateModel::Split { axis, items, sizes } => {
            lemma_prune_nodes_identity(reg, items, items.len());
            lemma_prune_nodes(reg, items, items.len());
            assert(prune_nodes(reg, items, items.len()) =~= items);
        },
        NodeStateModel::Tabs { panels, active_index } => {
            lemma_known_panels_identity(reg, panels, panels.len());
            assert(panels.take(panels.len() as int) =~= panels);
        },
    }
}

/// Pruning changes nothing in records whose keys the registry knows.
pub proof fn lemma_prune_nodes_identity(reg: Map<Seq<char>, u64>, ss: Seq<NodeStateModel>, k: nat)
    requires
        k <= ss.len(),
        record_list_known(reg, ss, k),
    ensures
        forall|i: int| 0 <= i < k ==> prune_node(reg, #[trigger] ss[i]) == ss[i],
    decreases ss, k,
{
    if k > 0 {
        lemma_prune_nodes_identity(reg, ss, (k - 1) as nat);
        lemma_prune_node_identity(reg, ss[k - 1]);
    }
}

/// Pruning changes nothing in the record of a dock whose keys the registry
/// knows.
pub proof fn lemma_prune_dock_identity(reg: Map<Seq<char>, u64>, d: Option<DockStateModel>)
    requires
        dock_record_known(reg, d),
    ensures
        prune_dock(reg, d) == d,
{
    if let Some(dock) = d {
        lemma_known_panels_identity(reg, dock.panels, dock.panels.len());
        assert(dock.panels.take(dock.panels.len() as int) =~= dock.panels);
    }
}

/// Pruning drops unknown panels and nothing else: a snapshot all of whose
/// keys the registry knows is left exactly as it is, with every shape,
/// size and active tab.
pub proof fn lemma_prune_known_layout(reg: Map<Seq<char>, u64>, l: LayoutModel)
    requires
        layout_known(reg, l),
    ensures
        prune_layout(reg, l) == l,
{
    lemma_prune_node_identity(reg, l.root);
    lemma_prune_dock_identity(reg, l.left);
    lemma_prune_dock_identity(reg, l.right);
    lemma_prune_dock_identity(reg, l.bottom);
}

/// Keeps the records of `panels` whose key the registry knows, in order.
pub fn prune_panel_list(registry: &PanelRegistry, panels: &Vec<PanelState>) -> (out: Vec<
    PanelState,
>)
    ensures
        panel_state_models(out@) == known_panels(
            registry@,
            panel_state_models(panels@),
            panels@.len(),
        ),
{
    let ghost ms = panel_state_models(panels@);
    let mut out: Vec<PanelState> = Vec::new();
    let mut i: usize = 0;
    assert(panel_state_models(out@) =~= Seq::<PanelStateModel>::empty());
    while i < panels.len()
        invariant
            i <= panels.len(),
            ms == panel_state_models(panels@),
            panel_state_models(out@) == known_panels(registry@, ms, i as nat),
        decreases panels.len() - i,
    {
        let ghost before = out@;
        if registry.lookup(&panels[i].panel_key).is_some() {
            let kept = PanelState {
                panel_key: panels[i].panel_key.clone(),
                params: panels[i].params.clone(),
            };
            out.push(kept);
            proof {
                assert(panel_state_models(out@) =~= panel_state_models(before).push(ms[i as int]));
            }
        }
        i += 1;
    }
    out
}

impl NodeState {
    /// This record without the panels whose key the registry does not
    /// know.
    #[verifier::loop_isolation(false)]
    pub fn prune_unknown(&self, registry: &PanelRegistry) -> (out: NodeState)
        ensures
            out@ == prune_node(registry@, self@),
        decreases self,
    {
        match self {
            NodeState::Split { axis, items, sizes } => {
                let mut kept: Vec<NodeState> = Vec::new();
                let mut i: usize = 0;
                while i < items.len()
                    invariant
                        i <= items.len(),
                        kept@.len() == i,
                        forall|j: int|
                            0 <= j < i ==> kept@[j]@ == prune_node(registry@, items@[j]@),
                    decreases items.len() - i,
                {
                    let item = items[i].prune_unknown(registry);
                    kept.push(item);
                    i += 1;
                }
                proof {
                    let n = items@.len();
                    lemma_node_state_models(items@, n);
                    lemma_prune_nodes(registry@, node_state_models(items@, n), n);
                    lemma_node_state_models(kept@, n);
                    assert(node_state_models(kept@, n) =~= prune_nodes(
                        registry@,
                        node_state_models(items@, n),
                        n,
                    ));
                }
                NodeState::Split { axis: *axis, items: kept, sizes: copy_sizes(sizes) }
            },
            NodeState::Tabs { panels, active_index } => {
                let kept = prune_panel_list(registry, panels);
                let active: usize = if 0 < kept.len() && kept.len() < panels.len()
                    && *active_index >= kept.len() {
                    0
                } else {
                    *active_index
                };
                NodeState::Tabs { panels: kept, active_index: active }
            },
        }
    }
}

/// The record of an optional dock without its unknown panels.
pub fn prune_aux_dock(registry: &PanelRegistry, dock: &Option<DockState>) -> (out: Option<
    DockState,
>)
    ensures
        dock_state_model(out) == prune_dock(registry@, dock_state_model(*dock)),
{
    match dock {
        Some(d) => Some(DockState { panels: prune_panel_list(registry, &d.panels), size: d.size }),
        None => None,
    }
}

impl LayoutState {
    /// This snapshot without the panels whose key the registry does not
    /// know.
    pub fn prune_unknown(&self, registry: &PanelRegistry) -> (out: LayoutState)
        ensures
            out@ == prune_layout(registry@, self@),
    {
        LayoutState {
            version: self.version,
            root: self.root.prune_unknown(registry),
            left: prune_aux_dock(registry, &self.left),
            right: prune_aux_dock(registry, &self.right),
            bottom: prune_aux_dock(registry, &self.bottom),
        }
    }
}

} // verus!
