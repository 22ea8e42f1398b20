use control_plane::fio_spdk::{configure, start, StartOptions};
use control_plane::models::{
    CreateVolumeBody, NexusOperation, NexusSpec, NexusSpecOperation, Protocol, SpecState,
    VolumeHealPolicy,
};
use control_plane::string_map::{clone_strings, strings_eq, StringMap};
use control_plane::topology::{
    same_topology, ExplicitNodeTopology, LabelledTopology, NodeTopology, PoolTopology, Topology,
};
use control_plane::volume::VolumeShareProtocol;

fn map(entries: &[(&str, &str)]) -> StringMap {
    let mut m = StringMap::new();
    for (k, v) in entries {
        m.insert(k.to_string(), v.to_string());
    }
    m
}

#[test]
fn string_map_insert_replaces() {
    let mut m = map(&[("a", "1"), ("b", "2")]);
    assert_eq!(m.len(), 2);
    m.insert("a".to_string(), "3".to_string());
    assert_eq!(m.len(), 2);
    assert_eq!(m.get(&"a".to_string()), Some(&"3".to_string()));
    assert_eq!(m.get(&"c".to_string()), None);
    let entries = m.to_entries();
    assert_eq!(entries.len(), 2);
}

#[test]
fn string_map_equality_ignores_order() {
    let a = map(&[("a", "1"), ("b", "2")]);
    let b = map(&[("b", "2"), ("a", "1")]);
    assert!(a.map_eq(&b));
    assert!(a.map_eq(&a.clone()));
    assert!(!a.map_eq(&map(&[("a", "1")])));
    assert!(!a.map_eq(&map(&[("a", "1"), ("b", "3")])));
    assert!(!a.map_eq(&map(&[("a", "1"), ("c", "2")])));
    assert!(StringMap::new().map_eq(&StringMap::new()));
}

#[test]
fn strings_helpers() {
    let v = vec!["x".to_string(), "y".to_string()];
    let c = clone_strings(&v);
    assert!(strings_eq(&v, &c));
    assert!(!strings_eq(&v, &vec!["x".to_string()]));
    assert!(!strings_eq(&v, &vec!["y".to_string(), "x".to_string()]));
}

#[test]
fn topology_equality_and_copy() {
    let t = Topology {
        node: Some(NodeTopology::Labelled(LabelledTopology {
            exclusion: map(&[("zone", "a")]),
            inclusion: map(&[]),
        })),
        pool: Some(PoolTopology::Labelled(LabelledTopology {
            exclusion: map(&[]),
            inclusion: map(&[("disk", "ssd")]),
        })),
    };
    let copy = t.duplicate();
    assert!(t.same_as(&copy));
    let explicit = Topology {
        node: Some(NodeTopology::Explicit(ExplicitNodeTopology {
            allowed_nodes: vec!["n".to_string()],
            preferred_nodes: vec![],
        })),
        pool: None,
    };
    assert!(!t.same_as(&explicit));
    assert!(explicit.explicit().is_some());
    assert!(t.explicit().is_none());
    assert!(same_topology(&None, &None));
    assert!(!same_topology(&Some(copy), &None));
}

#[test]
fn protocol_to_volume_protocol() {
    assert_eq!(Protocol::Nvmf.volume_protocol(), Some(VolumeShareProtocol::Nvmf));
    assert_eq!(Protocol::Iscsi.volume_protocol(), Some(VolumeShareProtocol::Iscsi));
    assert_eq!(Protocol::Unshared.volume_protocol(), None);
    assert_eq!(Protocol::Nbd.volume_protocol(), None);
}

#[test]
fn create_volume_body_constructors() {
    let t = Topology { node: None, pool: None };
    let b = CreateVolumeBody::new(VolumeHealPolicy { self_heal: true }, 3, 1024, t);
    assert_eq!(b.replicas, 3);
    assert_eq!(b.size, 1024);
    assert!(b.policy.self_heal);
    let b = CreateVolumeBody::new_all(
        VolumeHealPolicy { self_heal: false },
        1,
        10,
        Topology { node: None, pool: None },
    );
    assert_eq!(b.replicas, 1);
    assert!(!b.policy.self_heal);
}

#[test]
fn nexus_spec_constructors() {
    let n = NexusSpec::new(
        vec!["bdev:///a".to_string()],
        true,
        "node-1".to_string(),
        Protocol::Nvmf,
        1024,
        SpecState::Created,
        uuid::Uuid::nil(),
    );
    assert_eq!(n.uuid, uuid::Uuid::nil());
    assert!(n.operation.is_none());
    assert!(n.owner.is_none());
    assert_eq!(n.children, vec!["bdev:///a".to_string()]);
    let op = NexusSpecOperation { operation: NexusOperation::Share, result: Some(true) };
    let owner = uuid::Uuid::parse_str("4ffe7e43-46dd-4912-9d0f-6c9844fa7c6e").unwrap();
    let id = uuid::Uuid::from_u128(7);
    let n = NexusSpec::new_all(
        vec![],
        false,
        "node-2".to_string(),
        Some(op),
        Some(owner),
        Protocol::Unshared,
        2048,
        SpecState::Creating,
        id,
    );
    assert_eq!(n.operation, Some(op));
    assert_eq!(n.owner, Some(owner));
    assert_eq!(n.uuid, id);
    assert_eq!(n.size, 2048);
}

#[test]
fn fio_spdk_container() {
    assert!(configure(&StartOptions { fio_spdk: false }, "img").is_none());
    assert!(!start(&StartOptions { fio_spdk: false }));
    let spec = configure(&StartOptions { fio_spdk: true }, "openebs/fio-spdk:latest").unwrap();
    assert!(start(&StartOptions { fio_spdk: true }));
    assert_eq!(spec.name, "fio-spdk");
    assert_eq!(spec.image, "openebs/fio-spdk:latest");
    assert_eq!(spec.entrypoint, "sleep");
    assert!(spec.bypass_default_mounts);
    assert_eq!(spec.privileged, Some(true));
    assert_eq!(spec.args, vec!["infinity".to_string()]);
    assert_eq!(
        spec.binds,
        vec![
            ("/var/run/dpdk".to_string(), "/var/run/dpdk".to_string()),
            ("/var/tmp/".to_string(), "/var/tmp/:shared".to_string()),
            ("/dev".to_string(), "/dev:ro".to_string()),
        ]
    );
}
