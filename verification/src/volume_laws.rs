//! Properties of volume specification transactions that span several operations.
use vstd::prelude::*;

use crate::models::{Protocol, SpecOperation};
use crate::topology::NodeTopology;
use crate::volume::{
    SpecStatus, VolumeState, VolumeStatus, ReplicaId,
    CreateVolume, OperationSequence, VolumeSpecStatus, NexusNvmfConfig, PublishOperation, RepublishOperation, TargetConfig, VolumeOperation,
    VolumeOperationState, VolumeShareProtocol, VolumeSpec, VolumeTarget,
};

verus! {

broadcast use VolumeTarget::lemma_parts, VolumeTarget::lemma_with_protocol, TargetConfig::lemma_parts;

/// Committing always leaves the specification with no pending operation.
pub proof fn law_commit_clears_operation(spec: VolumeSpec)
    ensures
        spec.spec_committed().operation is None,
{
}

/// Committing with no pending operation changes nothing.
pub proof fn law_commit_without_operation_is_identity(spec: VolumeSpec)
    requires
        spec.operation is None,
    ensures
        spec.spec_committed() == spec,
{
}

/// Starting an operation on a specification with none pending, then clearing it,
/// gives the same specification back.
pub proof fn law_clear_undoes_start(spec: VolumeSpec, operation: VolumeOperation)
    requires
        spec.operation is None,
    ensures
        ({
            let started = VolumeSpec {
                operation: Some(VolumeOperationState { operation, result: None }),
                ..spec
            };
            VolumeSpec { operation: None, ..started } == spec
        }),
{
}

/// Committing an operation touches only what that operation is about: the
/// identity, size, labels, policy, topology, thin flag and NVMe-oF parameters
/// of the volume never change.
pub proof fn law_commit_keeps_identity(spec: VolumeSpec)
    ensures
        spec.spec_committed().uuid == spec.uuid,
        spec.spec_committed().size == spec.size,
        spec.spec_committed().labels == spec.labels,
        spec.spec_committed().policy == spec.policy,
        spec.spec_committed().topology == spec.topology,
        spec.spec_committed().thin == spec.thin,
        spec.spec_committed().nvmf_parameters == spec.nvmf_parameters,
        spec.spec_committed().sequencer == spec.sequencer,
{
}

/// The desired replica count is the same before and after committing: a pending
/// `SetReplica` is already counted before it is committed.
pub proof fn law_commit_keeps_desired_replicas(spec: VolumeSpec)
    ensures
        spec.spec_committed().spec_desired_num_replicas() == spec.spec_desired_num_replicas(),
{
}

/// After a publish is committed, the volume is published on the requested node and
/// nexus, the replica health information is found under that nexus, and the last
/// target configuration records the same target.
pub proof fn law_commit_publish(spec: VolumeSpec, args: PublishOperation, result: Option<bool>)
    ensures
        ({
            let committed = VolumeSpec {
                operation: Some(
                    VolumeOperationState { operation: VolumeOperation::Publish(args), result },
                ),
                ..spec
            }.spec_committed();
            &&& committed.target matches Some(t) && t.spec_node() == args.spec_node()
                && t.spec_nexus() == args.spec_nexus() && t.spec_protocol() == args.spec_protocol()
            &&& committed.spec_health_info_id() == Some(args.spec_nexus())
            &&& committed.target_config matches Some(c) && Some(c.spec_target())
                == committed.target && c.spec_config() == match args.spec_config() {
                Some(cfg) => cfg,
                None => NexusNvmfConfig::spec_default(),
            }
        }),
{
    let target = VolumeTarget::spec_new(args.spec_node(), args.spec_nexus(), args.spec_protocol());
    let config = match args.spec_config() {
        Some(cfg) => cfg,
        None => NexusNvmfConfig::spec_default(),
    };
    VolumeTarget::lemma_parts(args.spec_node(), args.spec_nexus(), args.spec_protocol());
    TargetConfig::lemma_parts(target, config);
}

/// After a republish is committed, the volume is published on the requested node
/// and nexus with the requested protocol, and its health information is found
/// under the new nexus.
pub proof fn law_commit_republish(spec: VolumeSpec, args: RepublishOperation, result: Option<bool>)
    ensures
        ({
            let committed = VolumeSpec {
                operation: Some(
                    VolumeOperationState { operation: VolumeOperation::Republish(args), result },
                ),
                ..spec
            }.spec_committed();
            &&& committed.target matches Some(t) && t.spec_node() == args.spec_node()
                && t.spec_nexus() == args.spec_nexus() && t.spec_protocol() == Some(
                args.spec_protocol(),
            )
            &&& committed.spec_health_info_id() == Some(args.spec_nexus())
            &&& committed.target_config matches Some(c) && c.spec_config() == args.spec_config()
        }),
{
    let target = VolumeTarget::spec_new(
        args.spec_node(),
        args.spec_nexus(),
        Some(args.spec_protocol()),
    );
    VolumeTarget::lemma_parts(args.spec_node(), args.spec_nexus(), Some(args.spec_protocol()));
    TargetConfig::lemma_parts(target, args.spec_config());
}

/// Unpublishing removes the target but keeps the last target configuration, so
/// the replica health information is still found after an unpublish.
pub proof fn law_unpublish_keeps_config(spec: VolumeSpec, result: Option<bool>)
    ensures
        ({
            let committed = VolumeSpec {
                operation: Some(
                    VolumeOperationState { operation: VolumeOperation::Unpublish, result },
                ),
                ..spec
            }.spec_committed();
            &&& committed.target is None
            &&& committed.target_config == spec.target_config
            &&& committed.spec_health_info_id() == spec.spec_health_info_id()
        }),
{
}

/// Sharing sets the protocol of an existing target and unsharing removes it;
/// neither creates a target, and both keep the target's node and nexus.
pub proof fn law_share_unshare(spec: VolumeSpec, protocol: VolumeShareProtocol, result: Option<bool>)
    ensures
        ({
            let shared = VolumeSpec {
                operation: Some(
                    VolumeOperationState { operation: VolumeOperation::Share(protocol), result },
                ),
                ..spec
            }.spec_committed();
            let unshared = VolumeSpec {
                operation: Some(
                    VolumeOperationState { operation: VolumeOperation::Unshare, result },
                ),
                ..shared
            }.spec_committed();
            &&& (shared.target is Some) == (spec.target is Some)
            &&& (unshared.target is Some) == (spec.target is Some)
            &&& spec.target matches Some(t) ==> {
                &&& shared.target->0.spec_protocol() == Some(protocol)
                &&& unshared.target->0.spec_protocol() is None
                &&& unshared.target->0.spec_node() == t.spec_node()
                &&& unshared.target->0.spec_nexus() == t.spec_nexus()
            }
        }),
{
    if let Some(t) = spec.target {
        VolumeTarget::lemma_with_protocol(t, Some(protocol));
        VolumeTarget::lemma_parts(t.spec_node(), t.spec_nexus(), Some(protocol));
        let t2 = t.with_protocol(Some(protocol));
        VolumeTarget::lemma_with_protocol(t2, None);
        VolumeTarget::lemma_parts(t2.spec_node(), t2.spec_nexus(), None);
    }
}

/// Whether a specification is what a creation request asks for does not depend
/// on its status or its sequencer.
pub proof fn law_create_match_ignores_status(
    spec: VolumeSpec,
    request: CreateVolume,
    status: VolumeSpecStatus,
    sequencer: OperationSequence,
)
    ensures
        (VolumeSpec { status, sequencer, ..spec }).spec_matches_create(request)
            == spec.spec_matches_create(request),
{
}

/// The recorded result of an operation has no bearing on what committing it does.
pub proof fn law_commit_ignores_result(
    spec: VolumeSpec,
    operation: VolumeOperation,
    first: Option<bool>,
    second: Option<bool>,
)
    ensures
        (VolumeSpec {
            operation: Some(VolumeOperationState { operation, result: first }),
            ..spec
        }).spec_committed() == (VolumeSpec {
            operation: Some(VolumeOperationState { operation, result: second }),
            ..spec
        }).spec_committed(),
{
}

/// The specification with `operation` pending, recorded with `result`.
pub open spec fn with_pending(
    spec: VolumeSpec,
    operation: VolumeOperation,
    result: Option<bool>,
) -> VolumeSpec {
    VolumeSpec { operation: Some(VolumeOperationState { operation, result }), ..spec }
}

/// Committing `SetReplica(count)` sets the replica count to `count` and clears the
/// operation record; everything else, the target and its configuration, the last
/// nexus and the status included, stays as it was.
pub proof fn law_commit_set_replica(spec: VolumeSpec, count: u8, result: Option<bool>)
    ensures
        with_pending(spec, VolumeOperation::SetReplica(count), result).spec_committed()
            == (VolumeSpec { num_replicas: count, operation: None, ..spec }),
{
}

/// Committing `Create` marks the volume created and online, and changes nothing else.
pub proof fn law_commit_create(spec: VolumeSpec, result: Option<bool>)
    ensures
        with_pending(spec, VolumeOperation::Create, result).spec_committed() == (VolumeSpec {
            status: SpecStatus::Created(VolumeStatus::Online),
            operation: None,
            ..spec
        }),
{
}

/// Committing `Destroy` marks the volume deleted, and changes nothing else.
pub proof fn law_commit_destroy(spec: VolumeSpec, result: Option<bool>)
    ensures
        with_pending(spec, VolumeOperation::Destroy, result).spec_committed() == (VolumeSpec {
            status: SpecStatus::Deleted,
            operation: None,
            ..spec
        }),
{
}

/// Committing `RemoveUnusedReplica` only clears the operation record.
pub proof fn law_commit_remove_unused_replica(spec: VolumeSpec, replica: ReplicaId, result: Option<bool>)
    ensures
        with_pending(spec, VolumeOperation::RemoveUnusedReplica(replica), result).spec_committed()
            == (VolumeSpec { operation: None, ..spec }),
{
}

/// Committing `Unpublish` removes the target, and changes nothing else: the last
/// target configuration and the last nexus stay.
pub proof fn law_commit_unpublish_only_removes_target(spec: VolumeSpec, result: Option<bool>)
    ensures
        with_pending(spec, VolumeOperation::Unpublish, result).spec_committed() == (VolumeSpec {
            target: None,
            operation: None,
            ..spec
        }),
{
}

/// Committing `Share(protocol)` changes only the protocol of an existing target
/// (to `protocol`) and clears the operation record; with no target, only the record changes.
pub proof fn law_commit_share_only_changes_protocol(
    spec: VolumeSpec,
    protocol: VolumeShareProtocol,
    result: Option<bool>,
)
    ensures
        ({
            let c = with_pending(spec, VolumeOperation::Share(protocol), result).spec_committed();
            &&& c == (VolumeSpec { target: c.target, operation: None, ..spec })
            &&& spec.target is None ==> c.target is None
            &&& spec.target matches Some(t) ==> c.target matches Some(n) && n.spec_node()
                == t.spec_node() && n.spec_nexus() == t.spec_nexus() && n.spec_protocol() == Some(
                protocol,
            )
        }),
{
    if let Some(t) = spec.target {
        VolumeTarget::lemma_with_protocol(t, Some(protocol));
        VolumeTarget::lemma_parts(t.spec_node(), t.spec_nexus(), Some(protocol));
    }
}

/// Committing `Unshare` removes only the protocol of an existing target and clears
/// the operation record; with no target, only the record changes.
pub proof fn law_commit_unshare_only_removes_protocol(spec: VolumeSpec, result: Option<bool>)
    ensures
        ({
            let c = with_pending(spec, VolumeOperation::Unshare, result).spec_committed();
            &&& c == (VolumeSpec { target: c.target, operation: None, ..spec })
            &&& spec.target is None ==> c.target is None
            &&& spec.target matches Some(t) ==> c.target matches Some(n) && n.spec_node()
                == t.spec_node() && n.spec_nexus() == t.spec_nexus() && n.spec_protocol() is None
        }),
{
    if let Some(t) = spec.target {
        VolumeTarget::lemma_with_protocol(t, None);
        VolumeTarget::lemma_parts(t.spec_node(), t.spec_nexus(), None);
    }
}

/// Committing `Publish` or `Republish` changes only the target, the target
/// configuration and the last nexus (which it forgets), and clears the operation
/// record: the status, replica count and everything else stay.
pub proof fn law_commit_publishing_changes_only_target(
    spec: VolumeSpec,
    publish: PublishOperation,
    republish: RepublishOperation,
    result: Option<bool>,
)
    ensures
        ({
            let c = with_pending(spec, VolumeOperation::Publish(publish), result).spec_committed();
            c == (VolumeSpec {
                target: c.target,
                target_config: c.target_config,
                last_nexus_id: None,
                operation: None,
                ..spec
            })
        }),
        ({
            let c = with_pending(spec, VolumeOperation::Republish(republish), result).spec_committed();
            c == (VolumeSpec {
                target: c.target,
                target_config: c.target_config,
                last_nexus_id: None,
                operation: None,
                ..spec
            })
        }),
{
}

/// The volume share protocol a nexus protocol stands for.
pub open spec fn share_protocol(share: Protocol) -> Option<VolumeShareProtocol> {
    match share {
        Protocol::Nvmf => Some(VolumeShareProtocol::Nvmf),
        Protocol::Iscsi => Some(VolumeShareProtocol::Iscsi),
        Protocol::Unshared => None,
        Protocol::Nbd => None,
    }
}

/// A specification agrees with an observed state exactly when: with no target,
/// the state has no target either; with a target, the state's target is on the same
/// node and shared over the same protocol, and the volume is online.
pub proof fn law_state_match(spec: VolumeSpec, state: VolumeState)
    ensures
        spec.spec_matches_state(state) <==> match spec.target {
            None => state.target is None,
            Some(t) => {
                &&& state.target matches Some(n) && n.node@ == t.spec_node()@
                    && share_protocol(n.share) == t.spec_protocol()
                &&& state.status == VolumeStatus::Online
            },
        },
{
}

/// A specification is what a creation request asks for exactly when it has the
/// request's id, size, labels, replica count (as a byte), policy, topology, thin
/// flag and NVMe-oF parameters, and no target, target configuration, last nexus or
/// pending operation.
pub proof fn law_create_match(spec: VolumeSpec, request: CreateVolume)
    ensures
        spec.spec_matches_create(request) <==> {
            &&& spec.uuid@ == request.uuid@
            &&& spec.size == request.size
            &&& spec.labels.deep_view() == request.labels.deep_view()
            &&& spec.num_replicas == request.replicas as u8
            &&& spec.policy == request.policy
            &&& spec.topology.deep_view() == request.topology.deep_view()
            &&& spec.thin == request.thin
            &&& spec.nvmf_parameters == request.nvmf_parameters
            &&& spec.target is None
            &&& spec.target_config is None
            &&& spec.last_nexus_id is None
            &&& spec.operation is None
        },
{
}

/// Two requests that differ only in their thin flag are never both what one
/// specification asks for; nor two that differ only in size.
pub proof fn law_create_match_distinguishes(spec: VolumeSpec, request: CreateVolume, size: u64)
    ensures
        spec.spec_matches_create(request) ==> !spec.spec_matches_create(
            CreateVolume { thin: !request.thin, ..request },
        ),
        spec.spec_matches_create(request) && size != request.size ==> !spec.spec_matches_create(
            CreateVolume { size, ..request },
        ),
{
}

/// The replica health information is kept under the last nexus when there is
/// one, else under the nexus of the last target configuration, else nowhere.
pub proof fn law_health_info_id(spec: VolumeSpec)
    ensures
        spec.last_nexus_id matches Some(id) ==> spec.spec_health_info_id() == Some(id),
        spec.last_nexus_id is None ==> (spec.target_config matches Some(c) ==> spec.spec_health_info_id()
            == Some(c.spec_target().spec_nexus())),
        spec.last_nexus_id is None && spec.target_config is None ==> spec.spec_health_info_id() is None,
{
}

/// The desired replica count is that of a pending `SetReplica`, and the current
/// replica count when no `SetReplica` is pending.
pub proof fn law_desired_num_replicas(spec: VolumeSpec, count: u8, result: Option<bool>)
    ensures
        with_pending(spec, VolumeOperation::SetReplica(count), result).spec_desired_num_replicas() == count,
        spec.operation is None ==> spec.spec_desired_num_replicas() == spec.num_replicas,
        spec.operation matches Some(s) && !(s.operation is SetReplica) ==> spec.spec_desired_num_replicas()
            == spec.num_replicas,
{
}

/// The allowed nodes are the nodes of an explicit node topology, in order, and
/// none for any other topology or none at all.
pub proof fn law_allowed_nodes(spec: VolumeSpec)
    ensures
        spec.topology matches Some(t) ==> (t.node matches Some(NodeTopology::Explicit(e))
            ==> spec.spec_allowed_nodes() == e.allowed_nodes@),
        spec.topology matches Some(t) ==> (!(t.node matches Some(NodeTopology::Explicit(_)))
            ==> spec.spec_allowed_nodes().len() == 0),
        spec.topology is None ==> spec.spec_allowed_nodes().len() == 0,
{
}

/// A publish without a configuration records the default one: controller ids 1
/// to 0xffef, reservation key 1, and no key to preempt.
pub proof fn law_default_nexus_config()
    ensures
        NexusNvmfConfig::spec_default() == (NexusNvmfConfig {
            controller_id_min: 1,
            controller_id_max: 0xffef,
            reservation_key: 1,
            preempt_key: None,
        }),
{
}

/// Each operation is shown in the REST model under its own kind.
pub proof fn law_operation_kind(count: u8, protocol: VolumeShareProtocol, replica: ReplicaId, publish: PublishOperation, republish: RepublishOperation)
    ensures
        VolumeOperation::Create.spec_kind() == SpecOperation::Create,
        VolumeOperation::Destroy.spec_kind() == SpecOperation::Destroy,
        VolumeOperation::Share(protocol).spec_kind() == SpecOperation::Share,
        VolumeOperation::Unshare.spec_kind() == SpecOperation::Unshare,
        VolumeOperation::SetReplica(count).spec_kind() == SpecOperation::SetReplica,
        VolumeOperation::Publish(publish).spec_kind() == SpecOperation::Publish,
        VolumeOperation::Republish(republish).spec_kind() == SpecOperation::Republish,
        VolumeOperation::Unpublish.spec_kind() == SpecOperation::Unpublish,
        VolumeOperation::RemoveUnusedReplica(replica).spec_kind() == SpecOperation::RemoveUnusedReplica,
{
}

} // verus!
