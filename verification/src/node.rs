//! The tree of dock nodes.

use vstd::prelude::*;
use crate::panel::{PanelModel, PanelRef};

verus! {

/// The direction in which a split lays out its children.
#[derive(Clone, Copy, Debug, PartialEq, Eq, Structural)]
pub enum Axis {
    Horizontal,
    Vertical,
}

/// A region of the workspace: either split among child nodes, or a group
/// of tabbed panels. A single panel is a tab group of one.
#[derive(Debug, PartialEq, Eq)]
pub enum DockNode {
    Split { axis: Axis, children: Vec<DockNode>, sizes: Vec<Option<u32>> },
    Tabs { panels: Vec<PanelRef>, active_index: usize },
}

/// What a [`DockNode`] stands for in contracts.
pub ghost enum NodeModel {
    Split { axis: Axis, children: Seq<NodeModel>, sizes: Seq<Option<u32>> },
    Tabs { panels: Seq<PanelModel>, active_index: nat },
}

/// The models of the panels of `panels`, in order.
pub open spec fn panel_models(panels: Seq<PanelRef>) -> Seq<PanelModel> {
    Seq::new(panels.len(), |i: int| panels[i]@)
}

/// The models of the first `n` nodes of `nodes`, in order.
pub open spec fn node_models(nodes: Seq<DockNode>, n: nat) -> Seq<NodeModel>
    decreases nodes, n,
{
    if n == 0 || n > nodes.len() {
        Seq::empty()
    } else {
        node_models(nodes, (n - 1) as nat).push(nodes[n - 1].view())
    }
}

impl View for DockNode {
    type V = NodeModel;

    open spec fn view(&self) -> NodeModel
        decreases self, 0nat,
    {
        match self {
            DockNode::Split { axis, children, sizes } => NodeModel::Split {
                axis: *axis,
                children: node_models(children@, children@.len()),
                sizes: sizes@,
            },
            DockNode::Tabs { panels, active_index } => NodeModel::Tabs {
                panels: panel_models(panels@),
                active_index: *active_index as nat,
            },
        }
    }
}

/// Why a node could not be built.
#[derive(Clone, Copy, Debug, PartialEq, Eq, Structural)]
pub enum NodeError {
    /// A split was given a number of sizes other than that of its children.
    SizeCountMismatch,
    /// A tab group was given an active tab that it does not have.
    ActiveIndexOutOfRange,
}

/// The structural rule of the tree: a split has one size slot for each
/// child, the active tab of a tab group that is not empty is one of its
/// tabs, and every node below obeys the same.
pub open spec fn model_wf(m: NodeModel) -> bool
    decreases m, 0nat,
{
    match m {
        NodeModel::Split { axis, children, sizes } => {
            &&& sizes.len() == children.len()
            &&& models_wf(children, children.len())
        },
        NodeModel::Tabs { panels, active_index } => panels.len() > 0 ==> active_index
            < panels.len(),
    }
}

/// Whether each of the first `n` of `ms` obeys the structural rule.
pub open spec fn models_wf(ms: Seq<NodeModel>, n: nat) -> bool
    decreases ms, n,
{
    if n == 0 {
        true
    } else if n > ms.len() {
        false
    } else {
        model_wf(ms[n - 1]) && models_wf(ms, (n - 1) as nat)
    }
}

/// `models_wf` holds exactly when each of the nodes it covers is well formed.
pub proof fn lemma_models_wf(ms: Seq<NodeModel>, n: nat)
    requires
        n <= ms.len(),
    ensures
        models_wf(ms, n) <==> forall|i: int| 0 <= i < n ==> #[trigger] model_wf(ms[i]),
    decreases n,
{
    if n > 0 {
        lemma_models_wf(ms, (n - 1) as nat);
        assert(models_wf(ms, n) == (model_wf(ms[n - 1]) && models_wf(ms, (n - 1) as nat)));
        if models_wf(ms, n) {
            assert forall|i: int| 0 <= i < n implies #[trigger] model_wf(ms[i]) by {
                if i < n - 1 {
                } else {
                    assert(i == n - 1);
                }
            }
        }
    }
}

/// `node_models` keeps length and order.
pub proof fn lemma_node_models(nodes: Seq<DockNode>, n: nat)
    requires
        n <= nodes.len(),
    ensures
        node_models(nodes, n).len() == n,
        forall|i: int| 0 <= i < n ==> #[trigger] node_models(nodes, n)[i] == nodes[i]@,
    decreases n,
{
    if n > 0 {
        lemma_node_models(nodes, (n - 1) as nat);
        assert(node_models(nodes, n) == node_models(nodes, (n - 1) as nat).push(nodes[n - 1].view()));
    } else {
        assert(node_models(nodes, n) == Seq::<NodeModel>::empty());
    }
}

/// A sequence of nodes obeys the structural rule node by node exactly when
/// its models do.
pub proof fn lemma_children_wf(nodes: Seq<DockNode>)
    ensures
        node_models(nodes, nodes.len()).len() == nodes.len(),
        models_wf(node_models(nodes, nodes.len()), nodes.len()) <==> (forall|i: int|
            0 <= i < nodes.len() ==> (#[trigger] nodes[i]).wf()),
{
    lemma_node_models(nodes, nodes.len());
    let ms = node_models(nodes, nodes.len());
    lemma_models_wf(ms, ms.len());
    if forall|i: int| 0 <= i < nodes.len() ==> #[trigger] model_wf(ms[i]) {
        assert forall|i: int| 0 <= i < nodes.len() implies (#[trigger] nodes[i]).wf() by {
            assert(ms[i] == nodes[i]@);
            assert(model_wf(ms[i]));
        }
    }
    if forall|i: int| 0 <= i < nodes.len() ==> (#[trigger] nodes[i]).wf() {
        assert forall|i: int| 0 <= i < nodes.len() implies #[trigger] model_wf(ms[i]) by {
            assert(nodes[i].wf());
            assert(ms[i] == nodes[i]@);
        }
    }
}

impl DockNode {
    /// Whether the tree under this node obeys the structural rule.
    pub open spec fn wf(&self) -> bool {
        model_wf(self@)
    }

    /// A tab group of `panels`. The active tab is `active`, or the first
    /// where none is given; an `active` that the group does not have is
    /// refused.
    pub fn tabs(panels: Vec<PanelRef>, active: Option<usize>) -> (out: Result<DockNode, NodeError>)
        ensures
            out.is_err() <==> (active.is_some() && panels@.len() > 0 && active.unwrap()
                >= panels@.len()),
            out matches Err(e) ==> e == NodeError::ActiveIndexOutOfRange,
            out matches Ok(node) ==> node.wf() && node@ == (NodeModel::Tabs {
                panels: panel_models(panels@),
                active_index: if active.is_some() {
                    active.unwrap() as nat
                } else {
                    0
                },
            }),
    {
        let active_index: usize = match active {
            Some(i) => i,
            None => 0,
        };
        if panels.len() > 0 && active_index >= panels.len() {
            return Err(NodeError::ActiveIndexOutOfRange);
        }
        Ok(DockNode::Tabs { panels, active_index })
    }

    /// A split of `children` along `axis`, each child with its slot in
    /// `sizes`. A number of sizes other than that of the children is
    /// refused.
    pub fn split_with_sizes(axis: Axis, children: Vec<DockNode>, sizes: Vec<Option<u32>>) -> (out:
        Result<DockNode, NodeError>)
        ensures
            out.is_err() <==> children@.len() != sizes@.len(),
            out matches Err(e) ==> e == NodeError::SizeCountMismatch,
            out matches Ok(node) ==> node@ == (NodeModel::Split {
                axis,
                children: node_models(children@, children@.len()),
                sizes: sizes@,
            }),
            out matches Ok(node) ==> (node.wf() <==> forall|i: int|
                0 <= i < children@.len() ==> (#[trigger] children@[i]).wf()),
    {
        if children.len() != sizes.len() {
            return Err(NodeError::SizeCountMismatch);
        }
        proof {
            lemma_children_wf(children@);
        }
        Ok(DockNode::Split { axis, children, sizes })
    }

    /// A split of `children` along `axis` that fixes no size.
    pub fn split(axis: Axis, children: Vec<DockNode>) -> (out: DockNode)
        ensures
            out@ == (NodeModel::Split {
                axis,
                children: node_models(children@, children@.len()),
                sizes: Seq::new(children@.len(), |i: int| None::<u32>),
            }),
            out.wf() <==> forall|i: int|
                0 <= i < children@.len() ==> (#[trigger] children@[i]).wf(),
    {
        let mut sizes: Vec<Option<u32>> = Vec::new();
        let mut i: usize = 0;
        while i < children.len()
            invariant
                i <= children.len(),
                sizes@ =~= Seq::new(i as nat, |j: int| None::<u32>),
            decreases children.len() - i,
        {
            sizes.push(None);
            i += 1;
        }
        proof {
            lemma_children_wf(children@);
        }
        DockNode::Split { axis, children, sizes }
    }

    /// Validates the whole tree under this node against the structural rule.
    #[verifier::loop_isolation(false)]
    pub fn is_valid(&self) -> (out: bool)
        ensures
            out == self.wf(),
        decreases self,
    {
        match self {
            DockNode::Split { axis, children, sizes } => {
                proof {
                    lemma_children_wf(children@);
                }
                if sizes.len() != children.len() {
                    return false;
                }
                let mut i: usize = 0;
                while i < children.len()
                    invariant
                        i <= children.len(),
                        forall|j: int| 0 <= j < i ==> (#[trigger] children@[j]).wf(),
                    decreases children.len() - i,
                {
                    if !children[i].is_valid() {
                        return false;
                    }
                    i += 1;
                }
                true
            },
            DockNode::Tabs { panels, active_index } => panels.len() == 0 || *active_index
                < panels.len(),
        }
    }
}

} // verus!
