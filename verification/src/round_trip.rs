//! What relates the snapshot of an area and the area rebuilt from a
//! snapshot.

use vstd::prelude::*;
use crate::area::{
    dump_area, dump_dock, dump_node, dump_nodes, dump_panel, dump_panels, lemma_dump_nodes,
    lemma_resolve_panels_err, lemma_resolve_panels_len, resolve_area, resolve_dock, resolve_node,
    resolve_nodes, resolve_panels, AreaModel, AuxDockModel,
};
use crate::node::NodeModel;
use crate::panel::PanelModel;
use crate::prune::lemma_known_resolve;
use crate::state::{DockStateModel, LayoutModel, NodeStateModel, PanelStateModel};

verus! {

/// Whether `reg` knows the key of each of `ps` and names its factory.
pub open spec fn panels_known(reg: Map<Seq<char>, u64>, ps: Seq<PanelModel>) -> bool {
    forall|i: int|
        0 <= i < ps.len() ==> reg.contains_key((#[trigger] ps[i]).key) && reg[ps[i].key]
            == ps[i].factory
}

/// Whether `reg` knows each panel of the tree under `n`.
pub open spec fn node_known(reg: Map<Seq<char>, u64>, n: NodeModel) -> bool
    decreases n, 0nat,
{
    match n {
        NodeModel::Split { axis, children, sizes } => nodes_known(reg, children, children.len()),
        NodeModel::Tabs { panels, active_index } => panels_known(reg, panels),
    }
}

/// Whether `reg` knows each panel of the first `k` trees of `ns`.
pub open spec fn nodes_known(reg: Map<Seq<char>, u64>, ns: Seq<NodeModel>, k: nat) -> bool
    decreases ns, k,
{
    if k == 0 {
        true
    } else if k > ns.len() {
        false
    } else {
        node_known(reg, ns[k - 1]) && nodes_known(reg, ns, (k - 1) as nat)
    }
}

/// Whether `reg` knows each panel of an optional dock.
pub open spec fn dock_known(reg: Map<Seq<char>, u64>, d: Option<AuxDockModel>) -> bool {
    match d {
        Some(dock) => panels_known(reg, dock.panels),
        None => true,
    }
}

/// Whether `reg` knows each panel of an area.
pub open spec fn area_known(reg: Map<Seq<char>, u64>, a: AreaModel) -> bool {
    &&& node_known(reg, a.root)
    &&& dock_known(reg, a.left)
    &&& dock_known(reg, a.right)
    &&& dock_known(reg, a.bottom)
}

/// Panels that the registry knows come back from their records unchanged.
pub proof fn lemma_round_trip_panels(reg: Map<Seq<char>, u64>, ps: Seq<PanelModel>, k: nat)
    requires
        panels_known(reg, ps),
        k <= ps.len(),
    ensures
        resolve_panels(reg, dump_panels(ps), k) == Ok::<Seq<PanelModel>, Seq<char>>(
            ps.take(k as int),
        ),
    decreases k,
{
    if k > 0 {
        lemma_round_trip_panels(reg, ps, (k - 1) as nat);
        let p = ps[k - 1];
        assert(reg.contains_key(p.key) && reg[p.key] == p.factory);
        assert(dump_panels(ps)[k - 1] == dump_panel(p));
        assert(ps.take(k as int) =~= ps.take(k - 1).push(p));
    } else {
        assert(ps.take(0) =~= Seq::<PanelModel>::empty());
    }
}

/// A tree whose panels the registry knows comes back from its record
/// unchanged.
pub proof fn lemma_round_trip_node(reg: Map<Seq<char>, u64>, n: NodeModel)
    requires
        node_known(reg, n),
    ensures
        resolve_node(reg, dump_node(n)) == Ok::<NodeModel, Seq<char>>(n),
    decreases n, 0nat,
{
    match n {
        NodeModel::Split { axis, children, sizes } => {
            lemma_round_trip_nodes(reg, children, children.len());
            lemma_dump_nodes(children, children.len());
            assert(children.take(children.len() as int) =~= children);
        },
        NodeModel::Tabs { panels, active_index } => {
            lemma_round_trip_panels(reg, panels, panels.len());
            assert(panels.take(panels.len() as int) =~= panels);
        },
    }
}

/// Trees whose panels the registry knows come back from their records
/// unchanged.
pub proof fn lemma_round_trip_nodes(reg: Map<Seq<char>, u64>, ns: Seq<NodeModel>, k: nat)
    requires
        k <= ns.len(),
        nodes_known(reg, ns, k),
    ensures
        resolve_nodes(reg, dump_nodes(ns, ns.len()), k) == Ok::<Seq<NodeModel>, Seq<char>>(
            ns.take(k as int),
        ),
    decreases ns, k,
{
    lemma_dump_nodes(ns, ns.len());
    let ss = dump_nodes(ns, ns.len());
    if k > 0 {
        lemma_round_trip_nodes(reg, ns, (k - 1) as nat);
        lemma_round_trip_node(reg, ns[k - 1]);
        assert(ss[k - 1] == dump_node(ns[k - 1]));
        assert(ns.take(k as int) =~= ns.take(k - 1).push(ns[k - 1]));
        assert(resolve_nodes(reg, ss, k) == match resolve_nodes(reg, ss, (k - 1) as nat) {
            Err(e) => Err(e),
            Ok(v) => match resolve_node(reg, ss[k - 1]) {
                Ok(n) => Ok(v.push(n)),
                Err(e) => Err(e),
            },
        });
    } else {
        assert(ns.take(0) =~= Seq::<NodeModel>::empty());
    }
}

/// A dock whose panels the registry knows comes back from its record
/// unchanged.
pub proof fn lemma_round_trip_dock(reg: Map<Seq<char>, u64>, d: Option<AuxDockModel>)
    requires
        dock_known(reg, d),
    ensures
        resolve_dock(reg, dump_dock(d)) == Ok::<Option<AuxDockModel>, Seq<char>>(d),
{
    match d {
        Some(dock) => {
            lemma_round_trip_panels(reg, dock.panels, dock.panels.len());
            assert(dock.panels.take(dock.panels.len() as int) =~= dock.panels);
        },
        None => {},
    }
}

/// Loading the snapshot of an area gives that area back: a snapshot of an
/// area whose panels the registry knows resolves to the same tree, the same
/// docks, the same sizes, active tabs and version.
pub proof fn lemma_load_of_dump(reg: Map<Seq<char>, u64>, a: AreaModel)
    requires
        area_known(reg, a),
    ensures
        resolve_area(reg, dump_area(a)) == Ok::<AreaModel, Seq<char>>(a),
{
    lemma_round_trip_node(reg, a.root);
    lemma_round_trip_dock(reg, a.left);
    lemma_round_trip_dock(reg, a.right);
    lemma_round_trip_dock(reg, a.bottom);
}

/// The panels that records resolve to have those records.
pub proof fn lemma_dump_of_resolve_panels(
    reg: Map<Seq<char>, u64>,
    ps: Seq<PanelStateModel>,
    k: nat,
)
    requires
        k <= ps.len(),
    ensures
        resolve_panels(reg, ps, k) matches Ok(v) ==> dump_panels(v) == ps.take(k as int),
    decreases k,
{
    if k > 0 {
        lemma_dump_of_resolve_panels(reg, ps, (k - 1) as nat);
        lemma_resolve_panels_len(reg, ps, (k - 1) as nat);
        if let Ok(v) = resolve_panels(reg, ps, k) {
            let before = resolve_panels(reg, ps, (k - 1) as nat)->Ok_0;
            assert(dump_panels(before) == ps.take(k - 1));
            assert(dump_panels(v) =~= dump_panels(before).push(ps[k - 1]));
            assert(ps.take(k as int) =~= ps.take(k - 1).push(ps[k - 1]));
        }
    } else {
        assert(dump_panels(Seq::<PanelModel>::empty()) =~= ps.take(0));
    }
}

/// The tree that a record resolves to has that record.
pub proof fn lemma_dump_of_resolve_node(reg: Map<Seq<char>, u64>, s: NodeStateModel)
    ensures
        resolve_node(reg, s) matches Ok(n) ==> dump_node(n) == s,
    decreases s, 0nat,
{
    match s {
        NodeStateModel::Split { axis, items, sizes } => {
            lemma_dump_of_resolve_nodes(reg, items, items.len());
            if let Ok(children) = resolve_nodes(reg, items, items.len()) {
                lemma_dump_nodes(children, children.len());
                assert(dump_nodes(children, children.len()) =~= items);
            }
        },
        NodeStateModel::Tabs { panels, active_index } => {
            lemma_dump_of_resolve_panels(reg, panels, panels.len());
            assert(panels.take(panels.len() as int) =~= panels);
        },
    }
}

/// The trees that records resolve to have those records, one for one.
pub proof fn lemma_dump_of_resolve_nodes(
    reg: Map<Seq<char>, u64>,
    ss: Seq<NodeStateModel>,
    k: nat,
)
    requires
        k <= ss.len(),
    ensures
        resolve_nodes(reg, ss, k) matches Ok(v) ==> v.len() == k && forall|i: int|
            0 <= i < k ==> dump_node(#[trigger] v[i]) == ss[i],
    decreases ss, k,
{
    if k > 0 {
        lemma_dump_of_resolve_nodes(reg, ss, (k - 1) as nat);
        lemma_dump_of_resolve_node(reg, ss[k - 1]);
        assert(resolve_nodes(reg, ss, k) == match resolve_nodes(reg, ss, (k - 1) as nat) {
            Err(e) => Err(e),
            Ok(v) => match resolve_node(reg, ss[k - 1]) {
                Ok(n) => Ok(v.push(n)),
                Err(e) => Err(e),
            },
        });
    } else {
        assert(resolve_nodes(reg, ss, 0) == Ok::<Seq<NodeModel>, Seq<char>>(Seq::empty()));
    }
}

/// The dock that a record resolves to has that record.
pub proof fn lemma_dump_of_resolve_dock(reg: Map<Seq<char>, u64>, d: Option<DockStateModel>)
    ensures
        resolve_dock(reg, d) matches Ok(dock) ==> dump_dock(dock) == d,
{
    match d {
        Some(dock) => {
            lemma_dump_of_resolve_panels(reg, dock.panels, dock.panels.len());
            assert(dock.panels.take(dock.panels.len() as int) =~= dock.panels);
        },
        None => {},
    }
}

/// The snapshot of an area that was loaded is the snapshot that it was
/// loaded from.
pub proof fn lemma_dump_of_load(reg: Map<Seq<char>, u64>, l: LayoutModel)
    ensures
        resolve_area(reg, l) matches Ok(m) ==> dump_area(m) == l,
{
    lemma_dump_of_resolve_node(reg, l.root);
    lemma_dump_of_resolve_dock(reg, l.left);
    lemma_dump_of_resolve_dock(reg, l.right);
    lemma_dump_of_resolve_dock(reg, l.bottom);
}

/// A list of records with a panel key that the registry does not know
/// fails to resolve as a whole.
pub proof fn lemma_unknown_panel_fails(
    reg: Map<Seq<char>, u64>,
    ps: Seq<PanelStateModel>,
    i: int,
)
    requires
        0 <= i < ps.len(),
        !reg.contains_key(ps[i].key),
    ensures
        resolve_panels(reg, ps, ps.len()).is_err(),
{
    assert(resolve_panels(reg, ps, (i + 1) as nat).is_err());
    lemma_resolve_panels_err(reg, ps, (i + 1) as nat, ps.len());
}

/// Whether `reg` knows the key of each record of `ps`.
pub open spec fn records_known(reg: Map<Seq<char>, u64>, ps: Seq<PanelStateModel>) -> bool {
    forall|i: int| 0 <= i < ps.len() ==> reg.contains_key((#[trigger] ps[i]).key)
}

/// Whether `reg` knows the key of each panel in the record `s`.
pub open spec fn record_known(reg: Map<Seq<char>, u64>, s: NodeStateModel) -> bool
    decreases s, 0nat,
{
    match s {
        NodeStateModel::Split { axis, items, sizes } => record_list_known(
            reg,
            items,
            items.len(),
        ),
        NodeStateModel::Tabs { panels, active_index } => records_known(reg, panels),
    }
}

/// Whether `reg` knows the key of each panel in the first `k` records of
/// `ss`.
pub open spec fn record_list_known(reg: Map<Seq<char>, u64>, ss: Seq<NodeStateModel>, k: nat)
    -> bool
    decreases ss, k,
{
    if k == 0 {
        true
    } else if k > ss.len() {
        false
    } else {
        record_known(reg, ss[k - 1]) && record_list_known(reg, ss, (k - 1) as nat)
    }
}

/// Whether `reg` knows the key of each panel of the record of a dock.
pub open spec fn dock_record_known(reg: Map<Seq<char>, u64>, d: Option<DockStateModel>) -> bool {
    match d {
        Some(dock) => records_known(reg, dock.panels),
        None => true,
    }
}

/// Whether `reg` knows the key of each panel of a snapshot.
pub open spec fn layout_known(reg: Map<Seq<char>, u64>, l: LayoutModel) -> bool {
    &&& record_known(reg, l.root)
    &&& dock_record_known(reg, l.left)
    &&& dock_record_known(reg, l.right)
    &&& dock_record_known(reg, l.bottom)
}

/// A list of records resolves exactly when the registry knows each key.
pub proof fn lemma_panels_resolve_iff_known(reg: Map<Seq<char>, u64>, ps: Seq<PanelStateModel>)
    ensures
        resolve_panels(reg, ps, ps.len()).is_ok() <==> records_known(reg, ps),
{
    if records_known(reg, ps) {
        lemma_known_resolve(reg, ps, ps.len());
    } else {
        let i = choose|i: int| 0 <= i < ps.len() && !reg.contains_key((#[trigger] ps[i]).key);
        lemma_unknown_panel_fails(reg, ps, i);
    }
}

/// A record resolves exactly when the registry knows each of its keys.
pub proof fn lemma_node_resolves_iff_known(reg: Map<Seq<char>, u64>, s: NodeStateModel)
    ensures
        resolve_node(reg, s).is_ok() <==> record_known(reg, s),
    decreases s, 0nat,
{
    match s {
        NodeStateModel::Split { axis, items, sizes } => {
            lemma_nodes_resolve_iff_known(reg, items, items.len());
        },
        NodeStateModel::Tabs { panels, active_index } => {
            lemma_panels_resolve_iff_known(reg, panels);
        },
    }
}

/// Records resolve exactly when the registry knows each of their keys.
pub proof fn lemma_nodes_resolve_iff_known(
    reg: Map<Seq<char>, u64>,
    ss: Seq<NodeStateModel>,
    k: nat,
)
    requires
        k <= ss.len(),
    ensures
        resolve_nodes(reg, ss, k).is_ok() <==> record_list_known(reg, ss, k),
    decreases ss, k,
{
    if k > 0 {
        lemma_nodes_resolve_iff_known(reg, ss, (k - 1) as nat);
        lemma_node_resolves_iff_known(reg, ss[k - 1]);
        assert(resolve_nodes(reg, ss, k) == match resolve_nodes(reg, ss, (k - 1) as nat) {
            Err(e) => Err(e),
            Ok(v) => match resolve_node(reg, ss[k - 1]) {
                Ok(n) => Ok(v.push(n)),
                Err(e) => Err(e),
            },
        });
    } else {
        assert(resolve_nodes(reg, ss, 0) == Ok::<Seq<NodeModel>, Seq<char>>(Seq::empty()));
    }
}

/// A snapshot fails on a panel key exactly when it holds a key that the
/// registry does not know: one unknown key anywhere in it fails the whole
/// load.
pub proof fn lemma_load_fails_iff_unknown(reg: Map<Seq<char>, u64>, l: LayoutModel)
    ensures
        resolve_area(reg, l).is_err() <==> !layout_known(reg, l),
{
    lemma_node_resolves_iff_known(reg, l.root);
    if let Some(dock) = l.left {
        lemma_panels_resolve_iff_known(reg, dock.panels);
    }
    if let Some(dock) = l.right {
        lemma_panels_resolve_iff_known(reg, dock.panels);
    }
    if let Some(dock) = l.bottom {
        lemma_panels_resolve_iff_known(reg, dock.panels);
    }
}

} // verus!
