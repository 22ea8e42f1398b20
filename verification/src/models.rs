//! Objects of the control plane's REST API.
use vstd::prelude::*;

use crate::string_map::StringMap;
use crate::topology::{NodeId, Topology};
use crate::volume::{VolumePolicy, VolumeShareProtocol, VolumeSpecStatus};

verus! {

/// The `uuid` crate's `Uuid`, carried through as an opaque value.
#[verifier::external_type_specification]
#[verifier::external_body]
pub struct ExUuid(uuid::Uuid);

/// Protocol a nexus is shared over.
#[derive(Debug, Clone, Copy, PartialEq, Eq, Structural)]
pub enum Protocol {
    Unshared,
    Nvmf,
    Iscsi,
    Nbd,
}

impl Protocol {
    /// The volume share protocol this protocol stands for, if any.
    pub open spec fn spec_volume_protocol(self) -> Option<VolumeShareProtocol> {
        match self {
            Protocol::Nvmf => Some(VolumeShareProtocol::Nvmf),
            Protocol::Iscsi => Some(VolumeShareProtocol::Iscsi),
            _ => None,
        }
    }

    /// The volume share protocol this protocol stands for, if any.
    pub fn volume_protocol(&self) -> (r: Option<VolumeShareProtocol>)
        ensures
            r == self.spec_volume_protocol(),
    {
        match self {
            Protocol::Nvmf => Some(VolumeShareProtocol::Nvmf),
            Protocol::Iscsi => Some(VolumeShareProtocol::Iscsi),
            _ => None,
        }
    }
}

/// Kind of an operation on a volume specification.
#[derive(Debug, Clone, Copy, PartialEq, Eq, Structural)]
pub enum SpecOperation {
    Create,
    Destroy,
    Share,
    Unshare,
    SetReplica,
    Publish,
    Republish,
    Unpublish,
    RemoveUnusedReplica,
}

/// Record of the operation in progress on a volume specification.
#[derive(Debug, Clone, Copy, PartialEq, Eq, Structural)]
pub struct VolumeSpecOperation {
    /// The operation.
    pub operation: SpecOperation,
    /// Its result, once known.
    pub result: Option<bool>,
}

/// Target of a volume.
#[derive(Debug)]
pub struct VolumeTarget {
    /// The node where front-end IO will be sent to.
    pub node: NodeId,
    /// The protocol to use on the target.
    pub protocol: Option<VolumeShareProtocol>,
}

/// User specification of a volume.
#[derive(Debug)]
pub struct VolumeSpec {
    /// Volume labels.
    pub labels: Option<StringMap>,
    /// Number of children the volume should have.
    pub num_replicas: u8,
    /// Record of the operation in progress.
    pub operation: Option<VolumeSpecOperation>,
    /// Size that the volume should be.
    pub size: u64,
    /// Status that the volume should eventually achieve.
    pub status: VolumeSpecStatus,
    /// The target where front-end IO will be sent to.
    pub target: Option<VolumeTarget>,
    /// Volume Id.
    pub uuid: String,
    /// Replica placement topology.
    pub topology: Option<Topology>,
    /// Volume policy.
    pub policy: VolumePolicy,
    /// Thin provisioning flag.
    pub thin: bool,
}

/// Status of a node.
#[derive(Debug, Clone, Copy, PartialEq, Eq, Structural)]
pub enum NodeStatus {
    Online,
    Offline,
    Unknown,
}

impl NodeStatus {
    /// The status as it is displayed.
    pub open spec fn spec_text(self) -> Seq<char> {
        match self {
            NodeStatus::Online => "Online"@,
            NodeStatus::Offline => "Offline"@,
            NodeStatus::Unknown => "Unknown"@,
        }
    }

    /// The status as it is displayed.
    pub fn text(&self) -> (r: String)
        ensures
            r@ == self.spec_text(),
    {
        match self {
            NodeStatus::Online => String::from_str("Online"),
            NodeStatus::Offline => String::from_str("Offline"),
            NodeStatus::Unknown => String::from_str("Unknown"),
        }
    }
}

/// Specification of a node.
#[derive(Debug)]
pub struct NodeSpec {
    /// gRPC endpoint of the node's io-engine.
    pub grpc_endpoint: String,
    /// Node id.
    pub id: NodeId,
    /// Labels of the cordons on the node.
    pub cordon_labels: Vec<String>,
    /// Labels of the drains on the node.
    pub drain_labels: Vec<String>,
}

/// Observed state of a node.
#[derive(Debug)]
pub struct NodeState {
    /// gRPC endpoint of the node's io-engine.
    pub grpc_endpoint: String,
    /// Node id.
    pub id: NodeId,
    /// Status of the node.
    pub status: NodeStatus,
}

/// A storage node.
#[derive(Debug)]
pub struct Node {
    /// Node id.
    pub id: NodeId,
    /// Specification of the node, if known.
    pub spec: Option<NodeSpec>,
    /// Observed state of the node, if known.
    pub state: Option<NodeState>,
}

/// Volume healing policy.
#[derive(Debug, Clone, Copy, PartialEq, Eq, Structural)]
pub struct VolumeHealPolicy {
    /// Whether faulted replicas are replaced.
    pub self_heal: bool,
}

/// Create Volume Body JSON
#[derive(Debug)]
pub struct CreateVolumeBody {
    /// Volume Healing policy used to determine if and how to replace a replica
    pub policy: VolumeHealPolicy,
    /// number of storage replicas
    pub replicas: u8,
    /// size of the volume in bytes
    pub size: u64,
    /// Volume topology used to determine how to place/distribute the data.
    pub topology: Topology,
}

impl CreateVolumeBody {
    /// CreateVolumeBody using only the required fields
    pub fn new(policy: VolumeHealPolicy, replicas: u8, size: u64, topology: Topology) -> (r: CreateVolumeBody)
        ensures
            r.policy == policy,
            r.replicas == replicas,
            r.size == size,
            r.topology == topology,
    {
        CreateVolumeBody { policy, replicas, size, topology }
    }

    /// CreateVolumeBody using all fields
    pub fn new_all(policy: VolumeHealPolicy, replicas: u8, size: u64, topology: Topology) -> (r: CreateVolumeBody)
        ensures
            r.policy == policy,
            r.replicas == replicas,
            r.size == size,
            r.topology == topology,
    {
        CreateVolumeBody { policy, replicas, size, topology }
    }
}

/// State of a specification.
#[derive(Debug, Clone, Copy, PartialEq, Eq, Structural)]
pub enum SpecState {
    Creating,
    Created,
    Deleting,
    Deleted,
}

/// Kind of an operation on a nexus specification.
#[derive(Debug, Clone, Copy, PartialEq, Eq, Structural)]
pub enum NexusOperation {
    Create,
    Destroy,
    Share,
    Unshare,
    AddChild,
    RemoveChild,
}

/// Record of the operation in progress on a nexus specification.
#[derive(Debug, Clone, Copy, PartialEq, Eq, Structural)]
pub struct NexusSpecOperation {
    /// The operation.
    pub operation: NexusOperation,
    /// Its result, once known.
    pub result: Option<bool>,
}

/// User specification of a nexus.
#[derive(Debug)]
pub struct NexusSpec {
    /// List of children.
    pub children: Vec<String>,
    /// Managed by our control plane
    pub managed: bool,
    /// Node where the nexus should live.
    pub node: String,
    /// Operation in progress, if any.
    pub operation: Option<NexusSpecOperation>,
    /// Volume which owns this nexus, if any
    pub owner: Option<uuid::Uuid>,
    /// Protocol the nexus is shared over.
    pub share: Protocol,
    /// Size of the nexus.
    pub size: u64,
    /// State of the specification.
    pub state: SpecState,
    /// Nexus Id
    pub uuid: uuid::Uuid,
}

impl NexusSpec {
    /// NexusSpec using only the required fields
    pub fn new(
        children: Vec<String>,
        managed: bool,
        node: String,
        share: Protocol,
        size: u64,
        state: SpecState,
        uuid: uuid::Uuid,
    ) -> (r: NexusSpec)
        ensures
            r.children == children,
            r.managed == managed,
            r.node == node,
            r.operation is None,
            r.owner is None,
            r.share == share,
            r.size == size,
            r.state == state,
            r.uuid == uuid,
    {
        NexusSpec { children, managed, node, operation: None, owner: None, share, size, state, uuid }
    }

    /// NexusSpec using all fields
    pub fn new_all(
        children: Vec<String>,
        managed: bool,
        node: String,
        operation: Option<NexusSpecOperation>,
        owner: Option<uuid::Uuid>,
        share: Protocol,
        size: u64,
        state: SpecState,
        uuid: uuid::Uuid,
    ) -> (r: NexusSpec)
        ensures
            r.children == children,
            r.managed == managed,
            r.node == node,
            r.operation == operation,
            r.owner == owner,
            r.share == share,
            r.size == size,
            r.state == state,
            r.uuid == uuid,
    {
        NexusSpec { children, managed, node, operation, owner, share, size, state, uuid }
    }
}

} // verus!
