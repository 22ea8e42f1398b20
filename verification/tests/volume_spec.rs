use control_plane::models::SpecOperation;
use control_plane::string_map::StringMap;
use control_plane::topology::{ExplicitNodeTopology, NodeTopology, Topology};
use control_plane::volume::{
    CreateVolume, NexusNvmfConfig, NvmfParameters, OperationSequence, PublishOperation,
    RepublishOperation, SpecStatus, VolumeOperation, VolumePolicy, VolumeShareProtocol,
    VolumeSpec, VolumeSpecKey, VolumeState, VolumeStateKey, VolumeStatus, VolumeTarget,
    StorableObjectType, TargetConfig, NexusState,
};
use control_plane::models::Protocol;

const UUID: &str = "4ffe7e43-46dd-4912-9d0f-6c9844fa7c6e";

fn labels(entries: &[(&str, &str)]) -> StringMap {
    let mut m = StringMap::new();
    for (k, v) in entries {
        m.insert(k.to_string(), v.to_string());
    }
    m
}

fn explicit_topology(nodes: &[&str]) -> Topology {
    Topology {
        node: Some(NodeTopology::Explicit(ExplicitNodeTopology {
            allowed_nodes: nodes.iter().map(|n| n.to_string()).collect(),
            preferred_nodes: vec![],
        })),
        pool: None,
    }
}

fn request() -> CreateVolume {
    CreateVolume {
        uuid: UUID.to_string(),
        size: 10 * 1024 * 1024,
        replicas: 3,
        policy: VolumePolicy { self_heal: true },
        topology: Some(explicit_topology(&["node-1", "node-2"])),
        labels: Some(labels(&[("env", "test"), ("tier", "gold")])),
        thin: false,
        nvmf_parameters: NvmfParameters::default(),
    }
}

fn spec() -> VolumeSpec {
    VolumeSpec::from_create_volume(&request())
}

#[test]
fn new_spec_follows_the_request() {
    let spec = spec();
    assert_eq!(spec.uuid, UUID);
    assert_eq!(spec.size, 10 * 1024 * 1024);
    assert_eq!(spec.num_replicas, 3);
    assert_eq!(spec.status, SpecStatus::Creating);
    assert!(spec.target.is_none());
    assert!(spec.operation.is_none());
    assert!(spec.last_nexus_id.is_none());
    assert_eq!(spec.nvmf_parameters, NvmfParameters { io_timeout: 30, ctlr_loss_timeout: 1932 });
    assert_eq!(spec.allowed_nodes(), vec!["node-1".to_string(), "node-2".to_string()]);
    assert!(spec == request());
}

#[test]
fn replica_count_is_truncated_to_a_byte() {
    let mut req = request();
    req.replicas = 258;
    let spec = VolumeSpec::from_create_volume(&req);
    assert_eq!(spec.num_replicas, 2);
    assert!(spec == req);
}

#[test]
fn spec_differs_from_another_request() {
    let spec = spec();
    let mut other = request();
    other.size += 1;
    assert!(!(spec == other));
    let mut other = request();
    other.labels = Some(labels(&[("env", "prod"), ("tier", "gold")]));
    assert!(!(spec == other));
    let mut other = request();
    other.labels = Some(labels(&[("tier", "gold"), ("env", "test")]));
    assert!(spec == other);
    let mut other = request();
    other.topology = Some(explicit_topology(&["node-2", "node-1"]));
    assert!(!(spec == other));
    let mut other = request();
    other.topology = None;
    assert!(!(spec == other));
}

#[test]
fn spec_with_target_no_longer_matches_request() {
    let mut spec = spec();
    spec.status = SpecStatus::Created(VolumeStatus::Online);
    assert!(spec == request());
    spec.start_op(VolumeOperation::Publish(PublishOperation::new(
        "node-1".to_string(),
        "nexus-1".to_string(),
        None,
        None,
    )));
    assert!(!(spec == request()));
    spec.commit_op();
    assert!(!(spec == request()));
}

#[test]
fn allowed_nodes_empty_without_explicit_topology() {
    let mut spec = spec();
    spec.topology = None;
    assert!(spec.allowed_nodes().is_empty());
}

#[test]
fn desired_replicas_follow_pending_set_replica() {
    let mut spec = spec();
    assert_eq!(spec.desired_num_replicas(), 3);
    spec.start_op(VolumeOperation::SetReplica(5));
    assert!(spec.pending_op());
    assert_eq!(spec.desired_num_replicas(), 5);
    assert_eq!(spec.num_replicas, 3);
    spec.commit_op();
    assert!(!spec.pending_op());
    assert_eq!(spec.num_replicas, 5);
    assert_eq!(spec.desired_num_replicas(), 5);
}

#[test]
fn desired_replicas_ignore_other_operations() {
    let mut spec = spec();
    spec.start_op(VolumeOperation::Share(VolumeShareProtocol::Nvmf));
    assert_eq!(spec.desired_num_replicas(), 3);
}

#[test]
fn create_and_destroy_set_status() {
    let mut spec = spec();
    spec.start_op(VolumeOperation::Create);
    spec.commit_op();
    assert_eq!(spec.status, SpecStatus::Created(VolumeStatus::Online));
    spec.start_op(VolumeOperation::Destroy);
    spec.commit_op();
    assert_eq!(spec.status, SpecStatus::Deleted);
}

#[test]
fn publish_then_share_unshare_unpublish() {
    let mut spec = spec();
    spec.last_nexus_id = Some("old-nexus".to_string());
    assert_eq!(spec.health_info_id(), Some(&"old-nexus".to_string()));
    spec.start_op(VolumeOperation::Publish(PublishOperation::new(
        "node-1".to_string(),
        "nexus-1".to_string(),
        Some(VolumeShareProtocol::Nvmf),
        None,
    )));
    spec.set_op_result(true);
    assert_eq!(spec.operation.as_ref().unwrap().result, Some(true));
    spec.commit_op();
    let target = spec.target.as_ref().unwrap();
    assert_eq!(target.node(), "node-1");
    assert_eq!(target.nexus(), "nexus-1");
    assert_eq!(target.protocol(), Some(&VolumeShareProtocol::Nvmf));
    assert!(spec.last_nexus_id.is_none());
    assert_eq!(spec.health_info_id(), Some(&"nexus-1".to_string()));
    let config = spec.config().as_ref().unwrap();
    assert_eq!(config.uuid(), "nexus-1");
    assert_eq!(*config.config(), NexusNvmfConfig::default());

    spec.start_op(VolumeOperation::Unshare);
    spec.commit_op();
    assert_eq!(spec.target.as_ref().unwrap().protocol(), None);
    spec.start_op(VolumeOperation::Share(VolumeShareProtocol::Iscsi));
    spec.commit_op();
    assert_eq!(
        spec.target.as_ref().unwrap().protocol(),
        Some(&VolumeShareProtocol::Iscsi)
    );

    spec.start_op(VolumeOperation::Unpublish);
    spec.commit_op();
    assert!(spec.target.is_none());
    // The last target configuration outlives the target.
    assert_eq!(spec.health_info_id(), Some(&"nexus-1".to_string()));
}

#[test]
fn share_without_target_creates_none() {
    let mut spec = spec();
    spec.start_op(VolumeOperation::Share(VolumeShareProtocol::Nvmf));
    spec.commit_op();
    assert!(spec.target.is_none());
}

#[test]
fn republish_replaces_target_and_config() {
    let mut spec = spec();
    let config = NexusNvmfConfig {
        controller_id_min: 10,
        controller_id_max: 20,
        reservation_key: 7,
        preempt_key: Some(3),
    };
    spec.start_op(VolumeOperation::Republish(RepublishOperation::new(
        "node-2".to_string(),
        "nexus-2".to_string(),
        VolumeShareProtocol::Nvmf,
        config,
    )));
    spec.commit_op();
    let target = spec.target.as_ref().unwrap();
    assert_eq!(target.node(), "node-2");
    assert_eq!(target.protocol(), Some(&VolumeShareProtocol::Nvmf));
    assert_eq!(*spec.config().as_ref().unwrap().config(), config);
    assert_eq!(spec.health_info_id(), Some(&"nexus-2".to_string()));
}

#[test]
fn publish_with_config_keeps_it() {
    let mut spec = spec();
    let config = NexusNvmfConfig {
        controller_id_min: 2,
        controller_id_max: 9,
        reservation_key: 4,
        preempt_key: None,
    };
    let op = PublishOperation::new("n".to_string(), "x".to_string(), None, Some(config));
    assert_eq!(op.protocol(), None);
    spec.start_op(VolumeOperation::Publish(op));
    spec.commit_op();
    assert_eq!(*spec.config().as_ref().unwrap().config(), config);
}

#[test]
fn set_result_without_operation_changes_nothing() {
    let mut spec = spec();
    spec.set_op_result(false);
    assert!(spec.operation.is_none());
    spec.commit_op();
    assert_eq!(spec.status, SpecStatus::Creating);
    assert!(spec == request());
}

#[test]
fn clear_op_drops_pending_operation() {
    let mut spec = spec();
    spec.start_op(VolumeOperation::Destroy);
    spec.clear_op();
    assert!(!spec.pending_op());
    spec.commit_op();
    assert_eq!(spec.status, SpecStatus::Creating);
}

#[test]
fn remove_unused_replica_changes_nothing_but_the_record() {
    let mut spec = spec();
    spec.start_op(VolumeOperation::RemoveUnusedReplica("r-1".to_string()));
    spec.commit_op();
    assert!(spec == request());
}

#[test]
fn operation_kinds() {
    assert_eq!(VolumeOperation::Create.kind(), SpecOperation::Create);
    assert_eq!(VolumeOperation::Unpublish.kind(), SpecOperation::Unpublish);
    assert_eq!(VolumeOperation::SetReplica(1).kind(), SpecOperation::SetReplica);
    assert_eq!(
        VolumeOperation::RemoveUnusedReplica("r".to_string()).kind(),
        SpecOperation::RemoveUnusedReplica
    );
}

#[test]
fn spec_to_model_keeps_fields() {
    let mut spec = spec();
    spec.start_op(VolumeOperation::Publish(PublishOperation::new(
        "node-1".to_string(),
        "nexus-1".to_string(),
        Some(VolumeShareProtocol::Nvmf),
        None,
    )));
    spec.commit_op();
    spec.start_op(VolumeOperation::Unshare);
    let model = spec.to_model();
    assert_eq!(model.num_replicas, 3);
    assert_eq!(model.uuid, UUID);
    let target = model.target.unwrap();
    assert_eq!(target.node, "node-1");
    assert_eq!(target.protocol, Some(VolumeShareProtocol::Nvmf));
    let op = model.operation.unwrap();
    assert_eq!(op.operation, SpecOperation::Unshare);
    assert_eq!(op.result, None);
}

#[test]
fn spec_matches_observed_state() {
    let mut spec = spec();
    let state = VolumeState::from_spec(&spec);
    assert_eq!(state.uuid, UUID);
    assert_eq!(state.status, VolumeStatus::Unknown);
    assert!(state.target.is_none());
    assert!(state.replica_topology.is_empty());
    assert!(spec == state);

    spec.start_op(VolumeOperation::Publish(PublishOperation::new(
        "node-1".to_string(),
        "nexus-1".to_string(),
        Some(VolumeShareProtocol::Nvmf),
        None,
    )));
    spec.commit_op();
    assert!(!(spec == state));
    let online = VolumeState {
        uuid: UUID.to_string(),
        size: spec.size,
        status: VolumeStatus::Online,
        target: Some(NexusState { node: "node-1".to_string(), share: Protocol::Nvmf }),
        replica_topology: vec![],
    };
    assert!(spec == online);
    let degraded = VolumeState { status: VolumeStatus::Degraded, ..online };
    assert!(!(spec == degraded));
    let elsewhere = VolumeState {
        uuid: UUID.to_string(),
        size: spec.size,
        status: VolumeStatus::Online,
        target: Some(NexusState { node: "node-2".to_string(), share: Protocol::Nvmf }),
        replica_topology: vec![],
    };
    assert!(!(spec == elsewhere));
    let unshared = VolumeState {
        uuid: UUID.to_string(),
        size: spec.size,
        status: VolumeStatus::Online,
        target: Some(NexusState { node: "node-1".to_string(), share: Protocol::Unshared }),
        replica_topology: vec![],
    };
    assert!(!(spec == unshared));
}

#[test]
fn store_keys() {
    let spec = spec();
    let key = spec.key();
    assert_eq!(key.key_type(), StorableObjectType::VolumeSpec);
    assert_eq!(key.key_uuid(), UUID);
    let state_key = VolumeStateKey::from_id(&spec.uuid);
    assert_eq!(state_key.key_type(), StorableObjectType::VolumeState);
    assert_eq!(state_key.key_uuid(), UUID);
    assert_eq!(VolumeSpecKey::from_id(&spec.uuid).key_uuid(), UUID);
}

#[test]
fn target_accessors() {
    let target = VolumeTarget::new("n".to_string(), "x".to_string(), None);
    assert_eq!(target.node(), "n");
    assert_eq!(target.nexus(), "x");
    assert_eq!(target.protocol(), None);
    let config = TargetConfig::new(target.clone(), NexusNvmfConfig::default());
    assert_eq!(config.target().nexus(), "x");
    assert_eq!(config.uuid(), "x");
    let model = target.to_model();
    assert_eq!(model.node, "n");
    let seq = OperationSequence::new(UUID.to_string());
    let _ = format!("{:?}", seq);
}

#[test]
fn nexus_config_default() {
    let c = NexusNvmfConfig::default();
    assert_eq!(c.controller_id_min, 1);
    assert_eq!(c.controller_id_max, 0xffef);
    assert_eq!(c.reservation_key, 1);
    assert_eq!(c.preempt_key, None);
}

#[test]
fn sequencer_accessors() {
    let mut spec = spec();
    let _ = spec.as_ref();
    let seq = spec.as_mut();
    *seq = OperationSequence::new("other".to_string());
    assert!(spec == request());
}
