//! Definition of volume types that can be saved to the persistent store, and
//! the transactions that move a volume specification from one state to the next.
use vstd::prelude::*;

use crate::models;
use crate::string_map::StringMap;
use crate::topology::{duplicate_topology, same_topology, NodeId, Topology};
use vstd::std_specs::cmp::PartialEqSpecImpl;

verus! {

/// Identifier of a volume.
pub type VolumeId = String;

/// Identifier of a nexus.
pub type NexusId = String;

/// Identifier of a replica.
pub type ReplicaId = String;

/// Labels of a volume.
pub type VolumeLabels = StringMap;

/// The protocols a volume can be shared over.
#[derive(Debug, Clone, Copy, PartialEq, Eq, Structural)]
pub enum VolumeShareProtocol {
    Nvmf,
    Iscsi,
}

/// Runtime status of a volume.
#[derive(Debug, Clone, Copy, PartialEq, Eq, Structural)]
pub enum VolumeStatus {
    Unknown,
    Online,
    Degraded,
    Faulted,
    Shutdown,
}

/// Life-cycle status of a specification.
#[derive(Debug, Clone, Copy, PartialEq, Eq, Structural)]
pub enum SpecStatus<T> {
    Creating,
    Created(T),
    Deleting,
    Deleted,
}

/// State of the Volume Spec.
pub type VolumeSpecStatus = SpecStatus<VolumeStatus>;

/// Kinds of objects kept in the persistent store.
#[derive(Debug, Clone, Copy, PartialEq, Eq, Structural)]
pub enum StorableObjectType {
    VolumeSpec,
    VolumeState,
}

/// NVMe-oF configuration of a nexus target.
#[derive(Debug, Clone, Copy, PartialEq, Eq)]
pub struct NexusNvmfConfig {
    /// Lowest controller id the target hands out.
    pub controller_id_min: u16,
    /// Highest controller id the target hands out.
    pub controller_id_max: u16,
    /// Reservation key of the target.
    pub reservation_key: u64,
    /// Key to preempt, if any.
    pub preempt_key: Option<u64>,
}

impl NexusNvmfConfig {
    /// The configuration used when none is given.
    pub open spec fn spec_default() -> NexusNvmfConfig {
        NexusNvmfConfig {
            controller_id_min: 1,
            controller_id_max: 0xffef,
            reservation_key: 1,
            preempt_key: None,
        }
    }
}

impl Default for NexusNvmfConfig {
    fn default() -> (r: Self)
        ensures
            r == NexusNvmfConfig::spec_default(),
    {
        NexusNvmfConfig {
            controller_id_min: 1,
            controller_id_max: 0xffef,
            reservation_key: 1,
            preempt_key: None,
        }
    }
}

/// NVMe-oF parameters that the volume's initiators use.
#[derive(Debug, Clone, Copy, PartialEq, Eq, Structural)]
pub struct NvmfParameters {
    /// I/O timeout, in seconds.
    pub io_timeout: u32,
    /// Controller loss timeout, in seconds.
    pub ctlr_loss_timeout: u32,
}

impl Default for NvmfParameters {
    fn default() -> (r: Self)
        ensures
            r.io_timeout == 30,
            r.ctlr_loss_timeout == 1932,
    {
        NvmfParameters { io_timeout: 30, ctlr_loss_timeout: 1932 }
    }
}

/// Volume policy.
#[derive(Debug, Clone, Copy, PartialEq, Eq, Structural)]
pub struct VolumePolicy {
    /// Whether the control plane replaces faulted replicas.
    pub self_heal: bool,
}

/// Sequencer of the operations on a store object.
#[derive(Debug)]
pub struct OperationSequence {
    id: String,
}

impl OperationSequence {
    /// The sequencer of the object with the given id.
    pub closed spec fn spec_new(id: String) -> OperationSequence {
        OperationSequence { id }
    }

    /// A new sequencer for the object with the given id.
    pub fn new(id: String) -> (r: Self)
        ensures
            r == OperationSequence::spec_new(id),
    {
        OperationSequence { id }
    }
}

/// Volume Target (node and nexus)
#[derive(Debug)]
pub struct VolumeTarget {
    /// The node where front-end IO will be sent to.
    node: NodeId,
    /// The identification of the nexus where the frontend-IO will be sent to.
    nexus: NexusId,
    /// The protocol to use on the target.
    protocol: Option<VolumeShareProtocol>,
}

impl VolumeTarget {
    /// The node of the target.
    pub closed spec fn spec_node(self) -> NodeId {
        self.node
    }

    /// The nexus of the target.
    pub closed spec fn spec_nexus(self) -> NexusId {
        self.nexus
    }

    /// The protocol of the target.
    pub closed spec fn spec_protocol(self) -> Option<VolumeShareProtocol> {
        self.protocol
    }

    /// The target with the given parts.
    pub closed spec fn spec_new(
        node: NodeId,
        nexus: NexusId,
        protocol: Option<VolumeShareProtocol>,
    ) -> VolumeTarget {
        VolumeTarget { node, nexus, protocol }
    }

    /// The same target with another protocol.
    pub closed spec fn with_protocol(self, protocol: Option<VolumeShareProtocol>) -> VolumeTarget {
        VolumeTarget { protocol, ..self }
    }

    /// A target built from parts gives those parts back.
    pub broadcast proof fn lemma_parts(node: NodeId, nexus: NexusId, protocol: Option<VolumeShareProtocol>)
        ensures
            #[trigger] VolumeTarget::spec_new(node, nexus, protocol).spec_node() == node,
            VolumeTarget::spec_new(node, nexus, protocol).spec_nexus() == nexus,
            VolumeTarget::spec_new(node, nexus, protocol).spec_protocol() == protocol,
    {
    }

    /// Changing the protocol keeps the node and nexus.
    pub broadcast proof fn lemma_with_protocol(t: VolumeTarget, protocol: Option<VolumeShareProtocol>)
        ensures
            #[trigger] t.with_protocol(protocol) == VolumeTarget::spec_new(t.spec_node(), t.spec_nexus(), protocol),
    {
    }

    /// Create a new `Self` based on the given parameters.
    pub fn new(node: NodeId, nexus: NexusId, protocol: Option<VolumeShareProtocol>) -> (r: Self)
        ensures
            r == VolumeTarget::spec_new(node, nexus, protocol),
    {
        Self { node, nexus, protocol }
    }

    /// Get a reference to the node identification.
    pub fn node(&self) -> (r: &NodeId)
        ensures
            *r == self.spec_node(),
    {
        &self.node
    }

    /// Get a reference to the nexus identification.
    pub fn nexus(&self) -> (r: &NexusId)
        ensures
            *r == self.spec_nexus(),
    {
        &self.nexus
    }

    /// Get a reference to the volume protocol.
    pub fn protocol(&self) -> (r: Option<&VolumeShareProtocol>)
        ensures
            match self.spec_protocol() {
                Some(p) => r == Some(&p),
                None => r is None,
            },
    {
        self.protocol.as_ref()
    }

    /// The target as the REST model shows it.
    pub fn to_model(self) -> (r: models::VolumeTarget)
        ensures
            r.node == self.spec_node(),
            r.protocol == self.spec_protocol(),
    {
        models::VolumeTarget { node: self.node, protocol: self.protocol }
    }
}

impl Clone for VolumeTarget {
    fn clone(&self) -> (r: Self)
        ensures
            r == *self,
    {
        VolumeTarget { node: self.node.clone(), nexus: self.nexus.clone(), protocol: self.protocol }
    }
}

/// The volume's Nvmf Configuration.
#[derive(Debug)]
pub struct TargetConfig {
    /// Uuid of the last target used by the volume.
    target: VolumeTarget,
    /// The nexus target configuration.
    config: NexusNvmfConfig,
}

impl TargetConfig {
    /// The target of the configuration.
    pub closed spec fn spec_target(self) -> VolumeTarget {
        self.target
    }

    /// The nexus configuration.
    pub closed spec fn spec_config(self) -> NexusNvmfConfig {
        self.config
    }

    /// The configuration with the given parts.
    pub closed spec fn spec_new(target: VolumeTarget, config: NexusNvmfConfig) -> TargetConfig {
        TargetConfig { target, config }
    }

    /// A configuration is determined by its parts.
    pub broadcast proof fn lemma_parts(target: VolumeTarget, config: NexusNvmfConfig)
        ensures
            #[trigger] TargetConfig::spec_new(target, config).spec_target() == target,
            TargetConfig::spec_new(target, config).spec_config() == config,
    {
    }

    /// Get the uuid of the target.
    pub fn new(target: VolumeTarget, config: NexusNvmfConfig) -> (r: Self)
        ensures
            r == TargetConfig::spec_new(target, config),
    {
        Self { target, config }
    }

    /// Get the target.
    pub fn target(&self) -> (r: &VolumeTarget)
        ensures
            *r == self.spec_target(),
    {
        &self.target
    }

    /// Get the uuid of the target.
    pub fn uuid(&self) -> (r: &NexusId)
        ensures
            *r == self.spec_target().spec_nexus(),
    {
        &self.target.nexus
    }

    /// Get the target configuration.
    pub fn config(&self) -> (r: &NexusNvmfConfig)
        ensures
            *r == self.spec_config(),
    {
        &self.config
    }
}

/// The `PublishOperation` which is easier to manage and update.
#[derive(Debug)]
pub struct PublishOperation {
    node: NodeId,
    nexus: NexusId,
    protocol: Option<VolumeShareProtocol>,
    config: Option<NexusNvmfConfig>,
}

impl PublishOperation {
    /// The node to publish on.
    pub closed spec fn spec_node(self) -> NodeId {
        self.node
    }

    /// The nexus to publish.
    pub closed spec fn spec_nexus(self) -> NexusId {
        self.nexus
    }

    /// The share protocol.
    pub closed spec fn spec_protocol(self) -> Option<VolumeShareProtocol> {
        self.protocol
    }

    /// The nexus configuration, if given.
    pub closed spec fn spec_config(self) -> Option<NexusNvmfConfig> {
        self.config
    }

    /// Return new `Self` from the given parameters.
    pub fn new(
        node: NodeId,
        nexus: NexusId,
        protocol: Option<VolumeShareProtocol>,
        config: Option<NexusNvmfConfig>,
    ) -> (r: Self)
        ensures
            r.spec_node() == node,
            r.spec_nexus() == nexus,
            r.spec_protocol() == protocol,
            r.spec_config() == config,
    {
        Self { node, nexus, protocol, config }
    }

    /// Get the share protocol.
    pub fn protocol(&self) -> (r: Option<VolumeShareProtocol>)
        ensures
            r == self.spec_protocol(),
    {
        self.protocol
    }

    /// The node, nexus, protocol and configuration, taking the operation apart.
    pub fn into_parts(self) -> (r: (NodeId, NexusId, Option<VolumeShareProtocol>, Option<NexusNvmfConfig>))
        ensures
            r == (self.spec_node(), self.spec_nexus(), self.spec_protocol(), self.spec_config()),
    {
        (self.node, self.nexus, self.protocol, self.config)
    }
}

/// Volume Republish Operation parameters.
#[derive(Debug)]
pub struct RepublishOperation {
    node: NodeId,
    nexus: NexusId,
    protocol: VolumeShareProtocol,
    config: NexusNvmfConfig,
}

impl RepublishOperation {
    /// The node to republish on.
    pub closed spec fn spec_node(self) -> NodeId {
        self.node
    }

    /// The nexus to republish.
    pub closed spec fn spec_nexus(self) -> NexusId {
        self.nexus
    }

    /// The share protocol.
    pub closed spec fn spec_protocol(self) -> VolumeShareProtocol {
        self.protocol
    }

    /// The nexus configuration.
    pub closed spec fn spec_config(self) -> NexusNvmfConfig {
        self.config
    }

    /// Return new `Self` from the given parameters.
    pub fn new(
        node: NodeId,
        nexus: NexusId,
        protocol: VolumeShareProtocol,
        config: NexusNvmfConfig,
    ) -> (r: Self)
        ensures
            r.spec_node() == node,
            r.spec_nexus() == nexus,
            r.spec_protocol() == protocol,
            r.spec_config() == config,
    {
        Self { node, nexus, protocol, config }
    }

    /// Get the share protocol.
    pub fn protocol(&self) -> (r: VolumeShareProtocol)
        ensures
            r == self.spec_protocol(),
    {
        self.protocol
    }

    /// The node, nexus, protocol and configuration, taking the operation apart.
    pub fn into_parts(self) -> (r: (NodeId, NexusId, VolumeShareProtocol, NexusNvmfConfig))
        ensures
            r == (self.spec_node(), self.spec_nexus(), self.spec_protocol(), self.spec_config()),
    {
        (self.node, self.nexus, self.protocol, self.config)
    }
}

/// Available Volume Operations.
#[derive(Debug)]
pub enum VolumeOperation {
    Create,
    Destroy,
    Share(VolumeShareProtocol),
    Unshare,
    SetReplica(u8),
    Publish(PublishOperation),
    Republish(RepublishOperation),
    Unpublish,
    RemoveUnusedReplica(ReplicaId),
}

impl VolumeOperation {
    /// The kind of this operation, as the REST model names it.
    pub open spec fn spec_kind(self) -> models::SpecOperation {
        match self {
            VolumeOperation::Create => models::SpecOperation::Create,
            VolumeOperation::Destroy => models::SpecOperation::Destroy,
            VolumeOperation::Share(_) => models::SpecOperation::Share,
            VolumeOperation::Unshare => models::SpecOperation::Unshare,
            VolumeOperation::SetReplica(_) => models::SpecOperation::SetReplica,
            VolumeOperation::Publish(_) => models::SpecOperation::Publish,
            VolumeOperation::Republish(_) => models::SpecOperation::Republish,
            VolumeOperation::Unpublish => models::SpecOperation::Unpublish,
            VolumeOperation::RemoveUnusedReplica(_) => models::SpecOperation::RemoveUnusedReplica,
        }
    }

    /// The kind of this operation, as the REST model names it.
    pub fn kind(&self) -> (r: models::SpecOperation)
        ensures
            r == self.spec_kind(),
    {
        match self {
            VolumeOperation::Create => models::SpecOperation::Create,
            VolumeOperation::Destroy => models::SpecOperation::Destroy,
            VolumeOperation::Share(_) => models::SpecOperation::Share,
            VolumeOperation::Unshare => models::SpecOperation::Unshare,
            VolumeOperation::SetReplica(_) => models::SpecOperation::SetReplica,
            VolumeOperation::Publish(_) => models::SpecOperation::Publish,
            VolumeOperation::Republish(_) => models::SpecOperation::Republish,
            VolumeOperation::Unpublish => models::SpecOperation::Unpublish,
            VolumeOperation::RemoveUnusedReplica(_) => models::SpecOperation::RemoveUnusedReplica,
        }
    }
}

/// Operation State for a Nexus spec resource.
#[derive(Debug)]
pub struct VolumeOperationState {
    /// Record of the operation.
    pub operation: VolumeOperation,
    /// Result of the operation.
    pub result: Option<bool>,
}

impl VolumeOperationState {
    /// The operation state as the REST model shows it.
    pub fn to_model(&self) -> (r: models::VolumeSpecOperation)
        ensures
            r.operation == self.operation.spec_kind(),
            r.result == self.result,
    {
        models::VolumeSpecOperation { operation: self.operation.kind(), result: self.result }
    }
}

/// User specification of a volume.
#[derive(Debug)]
pub struct VolumeSpec {
    /// Volume Id.
    pub uuid: VolumeId,
    /// Size that the volume should be.
    pub size: u64,
    /// Volume labels.
    pub labels: Option<VolumeLabels>,
    /// Number of children the volume should have.
    pub num_replicas: u8,
    /// Status that the volume should eventually achieve.
    pub status: VolumeSpecStatus,
    /// The target where front-end IO will be sent to.
    pub target: Option<VolumeTarget>,
    /// Volume policy.
    pub policy: VolumePolicy,
    /// Replica placement topology for the volume creation only.
    pub topology: Option<Topology>,
    /// Update of the state in progress.
    pub sequencer: OperationSequence,
    /// Id of the last Nexus used by the volume.
    pub last_nexus_id: Option<NexusId>,
    /// Record of the operation in progress
    pub operation: Option<VolumeOperationState>,
    /// Flag indicating whether the volume should be thin provisioned.
    pub thin: bool,
    /// Last used Target Configuration.
    pub target_config: Option<TargetConfig>,
    /// NVMe-oF parameters of the volume.
    pub nvmf_parameters: NvmfParameters,
}

/// Request to create a volume.
#[derive(Debug)]
pub struct CreateVolume {
    /// Id of the new volume.
    pub uuid: VolumeId,
    /// Size of the volume in bytes.
    pub size: u64,
    /// Number of replicas.
    pub replicas: u64,
    /// Volume policy.
    pub policy: VolumePolicy,
    /// Replica placement topology.
    pub topology: Option<Topology>,
    /// Volume labels.
    pub labels: Option<VolumeLabels>,
    /// Thin provisioning flag.
    pub thin: bool,
    /// NVMe-oF parameters of the volume.
    pub nvmf_parameters: NvmfParameters,
}

/// A copy of optional labels.
fn duplicate_labels(labels: &Option<VolumeLabels>) -> (r: Option<VolumeLabels>)
    ensures
        r.deep_view() == labels.deep_view(),
{
    match labels {
        Some(l) => Some(l.clone()),
        None => None,
    }
}

/// Whether two optional label maps are equal.
fn same_labels(a: &Option<VolumeLabels>, b: &Option<VolumeLabels>) -> (r: bool)
    ensures
        r == (a.deep_view() == b.deep_view()),
{
    match (a, b) {
        (Some(x), Some(y)) => x.map_eq(y),
        (None, None) => true,
        _ => false,
    }
}

impl VolumeSpec {
    /// The volume specification after `op` has been applied.
    pub open spec fn spec_apply(self, op: VolumeOperation) -> VolumeSpec {
        match op {
            VolumeOperation::Destroy => VolumeSpec { status: SpecStatus::Deleted, ..self },
            VolumeOperation::Create => VolumeSpec {
                status: SpecStatus::Created(VolumeStatus::Online),
                ..self
            },
            VolumeOperation::Share(share) => VolumeSpec {
                target: match self.target {
                    Some(t) => Some(t.with_protocol(Some(share))),
                    None => None,
                },
                ..self
            },
            VolumeOperation::Unshare => VolumeSpec {
                target: match self.target {
                    Some(t) => Some(t.with_protocol(None)),
                    None => None,
                },
                ..self
            },
            VolumeOperation::SetReplica(count) => VolumeSpec { num_replicas: count, ..self },
            VolumeOperation::RemoveUnusedReplica(_) => self,
            VolumeOperation::Publish(args) => {
                let target = VolumeTarget::spec_new(
                    args.spec_node(),
                    args.spec_nexus(),
                    args.spec_protocol(),
                );
                let config = match args.spec_config() {
                    Some(c) => c,
                    None => NexusNvmfConfig::spec_default(),
                };
                VolumeSpec {
                    target: Some(target),
                    last_nexus_id: None,
                    target_config: Some(TargetConfig::spec_new(target, config)),
                    ..self
                }
            },
            VolumeOperation::Republish(args) => {
                let target = VolumeTarget::spec_new(
                    args.spec_node(),
                    args.spec_nexus(),
                    Some(args.spec_protocol()),
                );
                VolumeSpec {
                    target: Some(target),
                    last_nexus_id: None,
                    target_config: Some(TargetConfig::spec_new(target, args.spec_config())),
                    ..self
                }
            },
            VolumeOperation::Unpublish => VolumeSpec { target: None, ..self },
        }
    }

    /// The volume specification after the pending operation, if any, has been
    /// committed: its effect is applied and the operation record is cleared.
    pub open spec fn spec_committed(self) -> VolumeSpec {
        let applied = match self.operation {
            Some(state) => self.spec_apply(state.operation),
            None => self,
        };
        VolumeSpec { operation: None, ..applied }
    }

    /// Desired replica count: that of a pending `SetReplica`, else the current one.
    pub open spec fn spec_desired_num_replicas(self) -> u8 {
        match self.operation {
            Some(state) => match state.operation {
                VolumeOperation::SetReplica(count) => count,
                _ => self.num_replicas,
            },
            None => self.num_replicas,
        }
    }

    /// Key of the replica health information: the last nexus, else the nexus of
    /// the last target configuration.
    pub open spec fn spec_health_info_id(self) -> Option<NexusId> {
        match self.last_nexus_id {
            Some(id) => Some(id),
            None => match self.target_config {
                Some(c) => Some(c.spec_target().spec_nexus()),
                None => None,
            },
        }
    }

    /// Explicitly selected allowed nodes, empty when the topology names none.
    pub open spec fn spec_allowed_nodes(self) -> Seq<NodeId> {
        match self.topology {
            None => Seq::empty(),
            Some(t) => t.explicit_nodes(),
        }
    }

    /// Whether this specification is what the given creation request asks for,
    /// whatever its status and sequencer.
    pub open spec fn spec_matches_create(self, request: CreateVolume) -> bool {
        &&& self.uuid@ == request.uuid@
        &&& self.size == request.size
        &&& self.labels.deep_view() == request.labels.deep_view()
        &&& self.num_replicas == request.replicas as u8
        &&& self.target is None
        &&& self.policy == request.policy
        &&& self.topology.deep_view() == request.topology.deep_view()
        &&& self.last_nexus_id is None
        &&& self.operation is None
        &&& self.thin == request.thin
        &&& self.target_config is None
        &&& self.nvmf_parameters == request.nvmf_parameters
    }

    /// Whether this specification agrees with the observed state of the volume.
    pub open spec fn spec_matches_state(self, state: VolumeState) -> bool {
        match self.target {
            None => state.spec_target_node() is None,
            Some(target) => {
                &&& target.spec_protocol() == state.spec_target_protocol()
                &&& state.spec_target_node() matches Some(node) && node@ == target.spec_node()@
                &&& state.status == VolumeStatus::Online
            },
        }
    }

    /// The sequencer of the specification's operations.
    pub fn as_ref(&self) -> (r: &OperationSequence)
        ensures
            *r == self.sequencer,
    {
        &self.sequencer
    }

    /// The sequencer of the specification's operations, for updating.
    pub fn as_mut(&mut self) -> (r: &mut OperationSequence)
        ensures
            *r == old(self).sequencer,
            *final(self) == (VolumeSpec { sequencer: *final(r), ..*old(self) }),
    {
        &mut self.sequencer
    }

    /// Explicitly selected allowed_nodes.
    pub fn allowed_nodes(&self) -> (r: Vec<NodeId>)
        ensures
            r@ == self.spec_allowed_nodes(),
    {
        match &self.topology {
            None => Vec::new(),
            Some(t) => match t.explicit() {
                Some(e) => e.duplicate().allowed_nodes,
                None => Vec::new(),
            },
        }
    }

    /// Desired volume replica count if during `SetReplica` operation
    /// or otherwise the current num_replicas.
    pub fn desired_num_replicas(&self) -> (r: u8)
        ensures
            r == self.spec_desired_num_replicas(),
    {
        match &self.operation {
            Some(state) => match state.operation {
                VolumeOperation::SetReplica(count) => count,
                _ => self.num_replicas,
            },
            None => self.num_replicas,
        }
    }

    /// Get the last target configuration.
    pub fn config(&self) -> (r: &Option<TargetConfig>)
        ensures
            *r == self.target_config,
    {
        &self.target_config
    }

    /// Get the health info key which is used to retrieve the volume's replica health information.
    pub fn health_info_id(&self) -> (r: Option<&NexusId>)
        ensures
            match self.spec_health_info_id() {
                Some(id) => r matches Some(x) && *x == id,
                None => r is None,
            },
    {
        if let Some(id) = &self.last_nexus_id {
            return Some(id);
        }
        match &self.target_config {
            Some(c) => Some(c.uuid()),
            None => None,
        }
    }

    /// Whether an operation is pending.
    pub fn pending_op(&self) -> (r: bool)
        ensures
            r == self.operation is Some,
    {
        self.operation.is_some()
    }

    /// Clear the pending operation record, if any.
    pub fn clear_op(&mut self)
        ensures
            *final(self) == (VolumeSpec { operation: None, ..*old(self) }),
    {
        self.operation = None;
    }

    /// Record `operation` as pending, with no result yet.
    pub fn start_op(&mut self, operation: VolumeOperation)
        ensures
            *final(self) == (VolumeSpec {
                operation: Some(VolumeOperationState { operation, result: None }),
                ..*old(self)
            }),
    {
        self.operation = Some(VolumeOperationState { operation, result: None });
    }

    /// Record the result of the pending operation, if there is one.
    pub fn set_op_result(&mut self, result: bool)
        ensures
            *final(self) == match old(self).operation {
                Some(state) => VolumeSpec {
                    operation: Some(VolumeOperationState { result: Some(result), ..state }),
                    ..*old(self)
                },
                None => *old(self),
            },
    {
        match self.operation.take() {
            Some(state) => {
                self.operation = Some(VolumeOperationState { result: Some(result), ..state });
            },
            None => {},
        }
    }

    /// Commit the pending operation: apply its effect to the specification and
    /// clear the operation record.
    pub fn commit_op(&mut self)
        ensures
            *final(self) == old(self).spec_committed(),
    {
        broadcast use VolumeTarget::lemma_parts, VolumeTarget::lemma_with_protocol, TargetConfig::lemma_parts;

        if let Some(state) = self.operation.take() {
            match state.operation {
                VolumeOperation::Destroy => {
                    self.status = SpecStatus::Deleted;
                },
                VolumeOperation::Create => {
                    self.status = SpecStatus::Created(VolumeStatus::Online);
                },
                VolumeOperation::Share(share) => {
                    if let Some(mut target) = self.target.take() {
                        target.protocol = Some(share);
                        self.target = Some(target);
                    }
                },
                VolumeOperation::Unshare => {
                    if let Some(mut target) = self.target.take() {
                        target.protocol = None;
                        self.target = Some(target);
                    }
                },
                VolumeOperation::SetReplica(count) => self.num_replicas = count,
                VolumeOperation::RemoveUnusedReplica(_) => {},
                VolumeOperation::Publish(args) => {
                    let config = match args.config {
                        Some(c) => c,
                        None => NexusNvmfConfig::default(),
                    };
                    let target = VolumeTarget::new(args.node, args.nexus, args.protocol);
                    self.target = Some(target.clone());
                    self.last_nexus_id = None;
                    self.target_config = Some(TargetConfig::new(target, config));
                },
                VolumeOperation::Republish(args) => {
                    let target = VolumeTarget::new(args.node, args.nexus, Some(args.protocol));
                    self.target = Some(target.clone());
                    self.last_nexus_id = None;
                    self.target_config = Some(TargetConfig::new(target, args.config));
                },
                VolumeOperation::Unpublish => {
                    self.target = None;
                },
            }
        }
        self.clear_op();
    }

    /// A new volume specification built from a creation request.
    pub fn from_create_volume(request: &CreateVolume) -> (r: VolumeSpec)
        ensures
            r.uuid == request.uuid,
            r.size == request.size,
            r.labels.deep_view() == request.labels.deep_view(),
            r.num_replicas == request.replicas as u8,
            r.status == VolumeSpecStatus::Creating,
            r.target is None,
            r.policy == request.policy,
            r.topology.deep_view() == request.topology.deep_view(),
            r.sequencer == OperationSequence::spec_new(request.uuid),
            r.last_nexus_id is None,
            r.operation is None,
            r.thin == request.thin,
            r.target_config is None,
            r.nvmf_parameters == request.nvmf_parameters,
            r.spec_matches_create(*request),
    {
        VolumeSpec {
            uuid: request.uuid.clone(),
            size: request.size,
            labels: duplicate_labels(&request.labels),
            num_replicas: request.replicas as u8,
            status: VolumeSpecStatus::Creating,
            target: None,
            policy: request.policy,
            topology: duplicate_topology(&request.topology),
            sequencer: OperationSequence::new(request.uuid.clone()),
            last_nexus_id: None,
            operation: None,
            thin: request.thin,
            target_config: None,
            nvmf_parameters: request.nvmf_parameters,
        }
    }

    /// Whether this specification is the one the creation request asks for,
    /// ignoring the status and the sequencer.
    pub fn eq_create_volume(&self, other: &CreateVolume) -> (r: bool)
        ensures
            r == self.spec_matches_create(*other),
    {
        self.uuid == other.uuid && self.size == other.size && same_labels(
            &self.labels,
            &other.labels,
        ) && self.num_replicas == other.replicas as u8 && self.target.is_none()
            && self.policy == other.policy && same_topology(&self.topology, &other.topology)
            && self.last_nexus_id.is_none() && self.operation.is_none() && self.thin == other.thin
            && self.target_config.is_none() && self.nvmf_parameters == other.nvmf_parameters
    }

    /// Whether this specification agrees with the observed state of the volume:
    /// with no target, the state has no target node; with one, the state's
    /// target has the same node and protocol and the volume is online.
    pub fn eq_volume_state(&self, other: &VolumeState) -> (r: bool)
        ensures
            r == self.spec_matches_state(*other),
    {
        match &self.target {
            None => other.target_node_flat().is_none(),
            Some(target) => {
                let same_node = match other.target_node_flat() {
                    Some(node) => *node == target.node,
                    None => false,
                };
                target.protocol == other.target_protocol() && same_node && other.status
                    == VolumeStatus::Online
            },
        }
    }

    /// The store key of this specification.
    pub fn key(&self) -> (r: VolumeSpecKey)
        ensures
            r.0 == self.uuid,
    {
        VolumeSpecKey(self.uuid.clone())
    }

    /// The specification as the REST model shows it.
    pub fn to_model(self) -> (r: models::VolumeSpec)
        ensures
            r.labels == self.labels,
            r.num_replicas == self.num_replicas,
            match self.operation {
                Some(s) => r.operation matches Some(o) && o.operation == s.operation.spec_kind()
                    && o.result == s.result,
                None => r.operation is None,
            },
            r.size == self.size,
            r.status == self.status,
            match self.target {
                Some(t) => r.target matches Some(m) && m.node == t.spec_node() && m.protocol
                    == t.spec_protocol(),
                None => r.target is None,
            },
            r.uuid == self.uuid,
            r.topology == self.topology,
            r.policy == self.policy,
            r.thin == self.thin,
    {
        let operation = match &self.operation {
            Some(s) => Some(s.to_model()),
            None => None,
        };
        let target = match self.target {
            Some(t) => Some(t.to_model()),
            None => None,
        };
        models::VolumeSpec {
            labels: self.labels,
            num_replicas: self.num_replicas,
            operation,
            size: self.size,
            status: self.status,
            target,
            uuid: self.uuid,
            topology: self.topology,
            policy: self.policy,
            thin: self.thin,
        }
    }
}

impl PartialEq<CreateVolume> for VolumeSpec {
    fn eq(&self, other: &CreateVolume) -> (r: bool) {
        self.eq_create_volume(other)
    }
}

impl PartialEqSpecImpl<CreateVolume> for VolumeSpec {
    open spec fn obeys_eq_spec() -> bool {
        true
    }

    open spec fn eq_spec(&self, other: &CreateVolume) -> bool {
        self.spec_matches_create(*other)
    }
}

impl PartialEq<VolumeState> for VolumeSpec {
    fn eq(&self, other: &VolumeState) -> (r: bool) {
        self.eq_volume_state(other)
    }
}

impl PartialEqSpecImpl<VolumeState> for VolumeSpec {
    open spec fn obeys_eq_spec() -> bool {
        true
    }

    open spec fn eq_spec(&self, other: &VolumeState) -> bool {
        self.spec_matches_state(*other)
    }
}

/// The nexus that serves a volume, as observed.
#[derive(Debug)]
pub struct NexusState {
    /// Node the nexus runs on.
    pub node: NodeId,
    /// Protocol the nexus is shared over.
    pub share: models::Protocol,
}

/// A replica of a volume, as observed.
#[derive(Debug)]
pub struct ReplicaTopology {
    /// Id of the replica.
    pub replica: ReplicaId,
    /// Node the replica lives on, if known.
    pub node: Option<NodeId>,
}

/// Observed state of a volume.
#[derive(Debug)]
pub struct VolumeState {
    /// Volume Id.
    pub uuid: VolumeId,
    /// Size of the volume.
    pub size: u64,
    /// Runtime status.
    pub status: VolumeStatus,
    /// The nexus serving the volume, if any.
    pub target: Option<NexusState>,
    /// The volume's replicas.
    pub replica_topology: Vec<ReplicaTopology>,
}

impl VolumeState {
    /// Node of the target, if the volume has one.
    pub open spec fn spec_target_node(self) -> Option<NodeId> {
        match self.target {
            Some(t) => Some(t.node),
            None => None,
        }
    }

    /// Share protocol of the target, if the volume has one shared over a volume protocol.
    pub open spec fn spec_target_protocol(self) -> Option<VolumeShareProtocol> {
        match self.target {
            Some(t) => t.share.spec_volume_protocol(),
            None => None,
        }
    }

    /// Node of the target, if the volume has one.
    pub fn target_node_flat(&self) -> (r: Option<&NodeId>)
        ensures
            match self.spec_target_node() {
                Some(n) => r matches Some(x) && *x == n,
                None => r is None,
            },
    {
        match &self.target {
            Some(t) => Some(&t.node),
            None => None,
        }
    }

    /// Share protocol of the target.
    pub fn target_protocol(&self) -> (r: Option<VolumeShareProtocol>)
        ensures
            r == self.spec_target_protocol(),
    {
        match &self.target {
            Some(t) => t.share.volume_protocol(),
            None => None,
        }
    }

    /// The initial observed state of a volume with the given specification:
    /// same id and size, unknown status, no target, no replicas.
    pub fn from_spec(spec: &VolumeSpec) -> (r: VolumeState)
        ensures
            r.uuid == spec.uuid,
            r.size == spec.size,
            r.status == VolumeStatus::Unknown,
            r.target is None,
            r.replica_topology@.len() == 0,
    {
        VolumeState {
            uuid: spec.uuid.clone(),
            size: spec.size,
            status: VolumeStatus::Unknown,
            target: None,
            replica_topology: Vec::new(),
        }
    }
}

/// Key used by the store to uniquely identify a VolumeState structure.
pub struct VolumeStateKey(pub VolumeId);

impl VolumeStateKey {
    /// The key of the state of the volume with the given id.
    pub fn from_id(id: &VolumeId) -> (r: Self)
        ensures
            r.0 == *id,
    {
        VolumeStateKey(id.clone())
    }

    /// The kind of object this key identifies.
    pub fn key_type(&self) -> (r: StorableObjectType)
        ensures
            r == StorableObjectType::VolumeState,
    {
        StorableObjectType::VolumeState
    }

    /// The uuid part of the key.
    pub fn key_uuid(&self) -> (r: String)
        ensures
            r@ == self.0@,
    {
        self.0.clone()
    }
}

/// Key used by the store to uniquely identify a VolumeSpec structure.
pub struct VolumeSpecKey(pub VolumeId);

impl VolumeSpecKey {
    /// The key of the specification of the volume with the given id.
    pub fn from_id(id: &VolumeId) -> (r: Self)
        ensures
            r.0 == *id,
    {
        VolumeSpecKey(id.clone())
    }

    /// The kind of object this key identifies.
    pub fn key_type(&self) -> (r: StorableObjectType)
        ensures
            r == StorableObjectType::VolumeSpec,
    {
        StorableObjectType::VolumeSpec
    }

    /// The uuid part of the key.
    pub fn key_uuid(&self) -> (r: String)
        ensures
            r@ == self.0@,
    {
        self.0.clone()
    }
}

} // verus!
