use vstd::prelude::*;

use crate::string_map::{clone_strings, strings_eq, StringMap};

verus! {

/// Identifier of a storage node.
pub type NodeId = String;

/// Nodes that a volume's replicas may be placed on, named one by one.
#[derive(Debug)]
pub struct ExplicitNodeTopology {
    /// Nodes that may hold replicas.
    pub allowed_nodes: Vec<NodeId>,
    /// Nodes that are preferred among the allowed ones.
    pub preferred_nodes: Vec<NodeId>,
}

/// Placement by node or pool labels.
#[derive(Debug)]
pub struct LabelledTopology {
    /// Labels that exclude a resource.
    pub exclusion: StringMap,
    /// Labels that a resource must carry.
    pub inclusion: StringMap,
}

/// Placement constraint on nodes.
#[derive(Debug)]
pub enum NodeTopology {
    Labelled(LabelledTopology),
    Explicit(ExplicitNodeTopology),
}

/// Placement constraint on pools.
#[derive(Debug)]
pub enum PoolTopology {
    Labelled(LabelledTopology),
}

/// Replica placement topology of a volume.
#[derive(Debug)]
pub struct Topology {
    /// Constraint on nodes, if any.
    pub node: Option<NodeTopology>,
    /// Constraint on pools, if any.
    pub pool: Option<PoolTopology>,
}

/// The mathematical value of an `ExplicitNodeTopology`.
pub struct ExplicitNodeTopologyView {
    pub allowed_nodes: Seq<Seq<char>>,
    pub preferred_nodes: Seq<Seq<char>>,
}

/// The mathematical value of a `LabelledTopology`.
pub struct LabelledTopologyView {
    pub exclusion: Map<Seq<char>, Seq<char>>,
    pub inclusion: Map<Seq<char>, Seq<char>>,
}

/// The mathematical value of a `NodeTopology`.
pub enum NodeTopologyView {
    Labelled(LabelledTopologyView),
    Explicit(ExplicitNodeTopologyView),
}

/// The mathematical value of a `PoolTopology`.
pub enum PoolTopologyView {
    Labelled(LabelledTopologyView),
}

/// The mathematical value of a `Topology`.
pub struct TopologyView {
    pub node: Option<NodeTopologyView>,
    pub pool: Option<PoolTopologyView>,
}

impl DeepView for ExplicitNodeTopology {
    type V = ExplicitNodeTopologyView;

    open spec fn deep_view(&self) -> ExplicitNodeTopologyView {
        ExplicitNodeTopologyView {
            allowed_nodes: self.allowed_nodes.deep_view(),
            preferred_nodes: self.preferred_nodes.deep_view(),
        }
    }
}

impl DeepView for LabelledTopology {
    type V = LabelledTopologyView;

    open spec fn deep_view(&self) -> LabelledTopologyView {
        LabelledTopologyView { exclusion: self.exclusion@, inclusion: self.inclusion@ }
    }
}

impl DeepView for NodeTopology {
    type V = NodeTopologyView;

    open spec fn deep_view(&self) -> NodeTopologyView {
        match self {
            NodeTopology::Labelled(l) => NodeTopologyView::Labelled(l.deep_view()),
            NodeTopology::Explicit(e) => NodeTopologyView::Explicit(e.deep_view()),
        }
    }
}

impl DeepView for PoolTopology {
    type V = PoolTopologyView;

    open spec fn deep_view(&self) -> PoolTopologyView {
        match self {
            PoolTopology::Labelled(l) => PoolTopologyView::Labelled(l.deep_view()),
        }
    }
}

impl DeepView for Topology {
    type V = TopologyView;

    open spec fn deep_view(&self) -> TopologyView {
        TopologyView { node: self.node.deep_view(), pool: self.pool.deep_view() }
    }
}

impl ExplicitNodeTopology {
    /// A copy of this topology.
    pub fn duplicate(&self) -> (r: Self)
        ensures
            r.allowed_nodes@ == self.allowed_nodes@,
            r.preferred_nodes@ == self.preferred_nodes@,
            r.deep_view() == self.deep_view(),
    {
        ExplicitNodeTopology {
            allowed_nodes: clone_strings(&self.allowed_nodes),
            preferred_nodes: clone_strings(&self.preferred_nodes),
        }
    }

    /// Whether both topologies name the same nodes in the same order.
    pub fn same_as(&self, other: &Self) -> (r: bool)
        ensures
            r == (self.deep_view() == other.deep_view()),
    {
        strings_eq(&self.allowed_nodes, &other.allowed_nodes) && strings_eq(
            &self.preferred_nodes,
            &other.preferred_nodes,
        )
    }
}

impl LabelledTopology {
    /// A copy of this topology.
    pub fn duplicate(&self) -> (r: Self)
        ensures
            r.deep_view() == self.deep_view(),
    {
        LabelledTopology { exclusion: self.exclusion.clone(), inclusion: self.inclusion.clone() }
    }

    /// Whether both topologies hold the same label maps.
    pub fn same_as(&self, other: &Self) -> (r: bool)
        ensures
            r == (self.deep_view() == other.deep_view()),
    {
        self.exclusion.map_eq(&other.exclusion) && self.inclusion.map_eq(&other.inclusion)
    }
}

impl NodeTopology {
    /// A copy of this topology.
    pub fn duplicate(&self) -> (r: Self)
        ensures
            r.deep_view() == self.deep_view(),
            (r is Explicit) == (self is Explicit),
            self matches NodeTopology::Explicit(e) ==> r->Explicit_0.allowed_nodes@ == e.allowed_nodes@,
    {
        match self {
            NodeTopology::Labelled(l) => NodeTopology::Labelled(l.duplicate()),
            NodeTopology::Explicit(e) => NodeTopology::Explicit(e.duplicate()),
        }
    }

    /// Whether both topologies are equal.
    pub fn same_as(&self, other: &Self) -> (r: bool)
        ensures
            r == (self.deep_view() == other.deep_view()),
    {
        match (self, other) {
            (NodeTopology::Labelled(a), NodeTopology::Labelled(b)) => a.same_as(b),
            (NodeTopology::Explicit(a), NodeTopology::Explicit(b)) => a.same_as(b),
            _ => false,
        }
    }
}

impl PoolTopology {
    /// A copy of this topology.
    pub fn duplicate(&self) -> (r: Self)
        ensures
            r.deep_view() == self.deep_view(),
    {
        match self {
            PoolTopology::Labelled(l) => PoolTopology::Labelled(l.duplicate()),
        }
    }

    /// Whether both topologies are equal.
    pub fn same_as(&self, other: &Self) -> (r: bool)
        ensures
            r == (self.deep_view() == other.deep_view()),
    {
        match (self, other) {
            (PoolTopology::Labelled(a), PoolTopology::Labelled(b)) => a.same_as(b),
        }
    }
}

impl Topology {
    /// The explicit node topology, if this topology has one.
    pub fn explicit(&self) -> (r: Option<&ExplicitNodeTopology>)
        ensures
            match self.node {
                Some(NodeTopology::Explicit(e)) => r == Some(&e),
                _ => r is None,
            },
    {
        match &self.node {
            Some(NodeTopology::Explicit(e)) => Some(e),
            _ => None,
        }
    }

    /// A copy of this topology.
    pub fn duplicate(&self) -> (r: Self)
        ensures
            r.deep_view() == self.deep_view(),
            self.explicit_nodes() == r.explicit_nodes(),
    {
        let node = match &self.node {
            Some(n) => Some(n.duplicate()),
            None => None,
        };
        let pool = match &self.pool {
            Some(p) => Some(p.duplicate()),
            None => None,
        };
        Topology { node, pool }
    }

    /// Whether both topologies are equal.
    pub fn same_as(&self, other: &Self) -> (r: bool)
        ensures
            r == (self.deep_view() == other.deep_view()),
    {
        let nodes_same = match (&self.node, &other.node) {
            (Some(a), Some(b)) => a.same_as(b),
            (None, None) => true,
            _ => false,
        };
        let pools_same = match (&self.pool, &other.pool) {
            (Some(a), Some(b)) => a.same_as(b),
            (None, None) => true,
            _ => false,
        };
        nodes_same && pools_same
    }

    /// The explicitly allowed nodes, empty unless the node topology is explicit.
    pub open spec fn explicit_nodes(self) -> Seq<NodeId> {
        match self.node {
            Some(NodeTopology::Explicit(e)) => e.allowed_nodes@,
            _ => Seq::empty(),
        }
    }
}

/// Whether two optional topologies are equal.
pub fn same_topology(a: &Option<Topology>, b: &Option<Topology>) -> (r: bool)
    ensures
        r == (a.deep_view() == b.deep_view()),
{
    match (a, b) {
        (Some(x), Some(y)) => x.same_as(y),
        (None, None) => true,
        _ => false,
    }
}

/// A copy of an optional topology.
pub fn duplicate_topology(a: &Option<Topology>) -> (r: Option<Topology>)
    ensures
        r.deep_view() == a.deep_view(),
        r is Some <==> a is Some,
        a matches Some(x) ==> r->0.explicit_nodes() == x.explicit_nodes(),
{
    match a {
        Some(x) => Some(x.duplicate()),
        None => None,
    }
}

} // verus!
