use control_plane::nvme_uri::{get_subsystem, parse_uri, ParsedUri, SubsystemAddr, SubsystemInfo, SvcError};
use control_plane::path_replacement::{
    ConnectAction, ConnectController, ConnectEvent, ControllerSubsystem, DisconnectAction,
    DisconnectController, DisconnectEvent, ReplaceAction, ReplaceEvent, ReplacePathError,
    ReplacePathTask, ReplyError, ReplyErrorKind, HA_AGENT_ERR_SOURCE,
};
use control_plane::nvme_uri::ResourceKind;

const PATH: &str = "nvmf://10.1.0.1:8420/nqn.2019-05.io.openebs:vol-1";
const NQN: &str = "nqn.2019-05.io.openebs:vol-1";

fn parsed(path: &str) -> ParsedUri {
    parse_uri(path).unwrap().unwrap()
}

#[test]
fn parse_uri_splits_host_port_nqn() {
    let p = parsed(PATH);
    assert_eq!(p.host(), "10.1.0.1");
    assert_eq!(p.port(), "8420");
    assert_eq!(p.nqn(), NQN);
}

#[test]
fn parse_uri_keeps_nqn_path_segments() {
    let p = parsed("nvmf://host-a:4420/a/b");
    assert_eq!(p.host(), "host-a");
    assert_eq!(p.nqn(), "a/b");
}

#[test]
fn parse_uri_with_no_path_gives_empty_nqn() {
    let p = parsed("nvmf://host-a:4420");
    assert_eq!(p.nqn(), "");
}

#[test]
fn parse_uri_rejects_missing_port_or_host() {
    assert!(matches!(parse_uri("nvmf://10.1.0.1/nqn"), Some(Err(SvcError::InvalidArguments))));
    assert!(matches!(parse_uri("/just/a/path"), Some(Err(SvcError::InvalidArguments))));
    assert!(matches!(parse_uri("not a uri"), Some(Err(SvcError::InvalidArguments))));
    assert!(matches!(parse_uri(""), Some(Err(SvcError::InvalidArguments))));
}

#[test]
fn parse_uri_authority_only_has_no_outcome() {
    assert!(parse_uri("10.1.0.1:8420").is_none());
}

#[test]
fn subsystem_address_format() {
    let addr = SubsystemAddr::new("10.1.0.1".to_string(), "8420".to_string());
    assert_eq!(addr.string_value(), "traddr=10.1.0.1,trsvcid=8420");
    assert!(addr.eq_string(&"traddr=10.1.0.1,trsvcid=8420".to_string()));
    assert!(!addr.eq_string(&"traddr=10.1.0.1,trsvcid=8421".to_string()));
}

fn info(nqn: &str, address: &str) -> SubsystemInfo {
    SubsystemInfo { nqn: nqn.to_string(), address: address.to_string() }
}

#[test]
fn get_subsystem_finds_first_match() {
    let p = parsed(PATH);
    let list = vec![
        info("other", "traddr=10.1.0.1,trsvcid=8420"),
        info(NQN, "traddr=10.1.0.2,trsvcid=8420"),
        info(NQN, "traddr=10.1.0.1,trsvcid=8420"),
        info(NQN, "traddr=10.1.0.1,trsvcid=8420"),
    ];
    assert_eq!(get_subsystem(&p, &list).unwrap(), 2);
    match get_subsystem(&p, &list[..2].iter().map(|s| info(&s.nqn, &s.address)).collect()) {
        Err(SvcError::SubsystemNotFound { nqn }) => assert_eq!(nqn, NQN),
        other => panic!("unexpected {:?}", other),
    }
}

#[test]
fn connect_waits_until_live() {
    let mut m = ConnectController::new(PATH.to_string(), NQN.to_string());
    match m.handle(ConnectEvent::Begin) {
        ConnectAction::Connect(uri) => assert_eq!(uri, PATH),
        other => panic!("unexpected {:?}", other),
    }
    assert!(matches!(m.handle(ConnectEvent::Connected), ConnectAction::ListSubsystems));
    let list = vec![info("x", "y"), info(NQN, "traddr=10.1.0.1,trsvcid=8420")];
    assert!(matches!(m.handle(ConnectEvent::Subsystems(list)), ConnectAction::Track(1)));
    assert!(matches!(m.handle(ConnectEvent::Synced("new".to_string())), ConnectAction::Wait));
    assert!(matches!(
        m.handle(ConnectEvent::Synced("connecting".to_string())),
        ConnectAction::Wait
    ));
    assert!(!m.is_finished());
    assert!(matches!(m.handle(ConnectEvent::Synced("live".to_string())), ConnectAction::Done(Ok(()))));
    assert!(m.is_finished());
    assert!(matches!(m.handle(ConnectEvent::SyncFailed), ConnectAction::Ignore));
}

#[test]
fn connect_sync_failure_completes() {
    let mut m = ConnectController::new(PATH.to_string(), NQN.to_string());
    m.handle(ConnectEvent::Begin);
    m.handle(ConnectEvent::Connected);
    m.handle(ConnectEvent::Subsystems(vec![info(NQN, "traddr=10.1.0.1,trsvcid=8420")]));
    assert!(matches!(m.handle(ConnectEvent::SyncFailed), ConnectAction::Done(Ok(()))));
}

#[test]
fn connect_incorrect_state_fails() {
    let mut m = ConnectController::new(PATH.to_string(), NQN.to_string());
    m.handle(ConnectEvent::Begin);
    m.handle(ConnectEvent::Connected);
    m.handle(ConnectEvent::Subsystems(vec![info(NQN, "traddr=10.1.0.1,trsvcid=8420")]));
    match m.handle(ConnectEvent::Synced("deleting".to_string())) {
        ConnectAction::Done(Err(SvcError::Internal { details })) => {
            assert_eq!(details, "New NVMe path is in incorrect state: deleting")
        }
        other => panic!("unexpected {:?}", other),
    }
}

#[test]
fn connect_failure_message() {
    let mut m = ConnectController::new(PATH.to_string(), NQN.to_string());
    m.handle(ConnectEvent::Begin);
    match m.handle(ConnectEvent::ConnectFailed("status: Unavailable".to_string())) {
        ConnectAction::Done(Err(SvcError::Internal { details })) => assert_eq!(
            details,
            format!(
                "Failed to connect to new NVMe target: status: Unavailable, new path: {}, nqn: {}",
                PATH, NQN
            )
        ),
        other => panic!("unexpected {:?}", other),
    }
}

#[test]
fn connect_client_unavailable_passes_error() {
    let mut m = ConnectController::new(PATH.to_string(), NQN.to_string());
    m.handle(ConnectEvent::Begin);
    let e = SvcError::NotFound { kind: ResourceKind::Unknown, id: "csi socket path".to_string() };
    match m.handle(ConnectEvent::ClientUnavailable(e)) {
        ConnectAction::Done(Err(SvcError::NotFound { id, .. })) => assert_eq!(id, "csi socket path"),
        other => panic!("unexpected {:?}", other),
    }
}

#[test]
fn connect_subsystem_not_found() {
    let mut m = ConnectController::new(PATH.to_string(), NQN.to_string());
    m.handle(ConnectEvent::Begin);
    m.handle(ConnectEvent::Connected);
    match m.handle(ConnectEvent::Subsystems(vec![info(NQN, "traddr=1.1.1.1,trsvcid=1")])) {
        ConnectAction::Done(Err(SvcError::SubsystemNotFound { nqn })) => assert_eq!(nqn, NQN),
        other => panic!("unexpected {:?}", other),
    }
    let mut m = ConnectController::new(PATH.to_string(), NQN.to_string());
    m.handle(ConnectEvent::Begin);
    m.handle(ConnectEvent::Connected);
    assert!(matches!(
        m.handle(ConnectEvent::SubsystemsUnavailable),
        ConnectAction::Done(Err(SvcError::SubsystemNotFound { .. }))
    ));
}

#[test]
fn connect_bad_path_after_connecting() {
    let mut m = ConnectController::new("nvmf://nohost/x".to_string(), NQN.to_string());
    m.handle(ConnectEvent::Begin);
    assert!(matches!(
        m.handle(ConnectEvent::Connected),
        ConnectAction::Done(Err(SvcError::InvalidArguments))
    ));
    let mut m = ConnectController::new("10.1.0.1:8420".to_string(), NQN.to_string());
    m.handle(ConnectEvent::Begin);
    assert!(matches!(m.handle(ConnectEvent::Connected), ConnectAction::Abort));
}

#[test]
fn connect_ignores_out_of_order_events() {
    let mut m = ConnectController::new(PATH.to_string(), NQN.to_string());
    assert!(matches!(m.handle(ConnectEvent::Connected), ConnectAction::Ignore));
    assert!(matches!(m.handle(ConnectEvent::Begin), ConnectAction::Connect(_)));
}

#[test]
fn disconnect_spares_same_controller() {
    let mut m = DisconnectController::new("/dev/nvme0".to_string(), PATH.to_string());
    assert!(matches!(m.handle(DisconnectEvent::Begin), DisconnectAction::Inspect));
    assert!(matches!(
        m.handle(DisconnectEvent::Observed(ControllerSubsystem::Found(
            "traddr=10.1.0.1,trsvcid=8420".to_string()
        ))),
        DisconnectAction::Done(Ok(()))
    ));
    assert!(m.is_finished());
}

#[test]
fn disconnect_other_controller() {
    let mut m = DisconnectController::new("/dev/nvme0".to_string(), PATH.to_string());
    m.handle(DisconnectEvent::Begin);
    assert!(matches!(
        m.handle(DisconnectEvent::Observed(ControllerSubsystem::Found(
            "traddr=10.1.0.9,trsvcid=8420".to_string()
        ))),
        DisconnectAction::Disconnect
    ));
    match m.handle(DisconnectEvent::Disconnected(Err("Busy".to_string()))) {
        DisconnectAction::Done(Err(SvcError::Internal { details })) => {
            assert_eq!(details, "Failed to disconnect NVMe controller /dev/nvme0: Busy")
        }
        other => panic!("unexpected {:?}", other),
    }
}

#[test]
fn disconnect_controller_errors() {
    let mut m = DisconnectController::new("/dev/nvme0".to_string(), PATH.to_string());
    m.handle(DisconnectEvent::Begin);
    match m.handle(DisconnectEvent::Observed(ControllerSubsystem::NoSystemPath)) {
        DisconnectAction::Done(Err(SvcError::Internal { details })) => {
            assert_eq!(details, "Failed to get system path for controller")
        }
        other => panic!("unexpected {:?}", other),
    }
    let mut m = DisconnectController::new("/dev/nvme0".to_string(), PATH.to_string());
    m.handle(DisconnectEvent::Begin);
    match m.handle(DisconnectEvent::Observed(ControllerSubsystem::Unreadable)) {
        DisconnectAction::Done(Err(SvcError::Internal { details })) => {
            assert_eq!(details, "Failed to get NVMe subsystem for controller")
        }
        other => panic!("unexpected {:?}", other),
    }
    let mut m = DisconnectController::new("/dev/nvme0".to_string(), "bad path".to_string());
    assert!(matches!(
        m.handle(DisconnectEvent::Begin),
        DisconnectAction::Done(Err(SvcError::InvalidArguments))
    ));
}

#[test]
fn replace_path_happy_path() {
    let mut t = ReplacePathTask::new(NQN.to_string(), PATH.to_string());
    match t.handle(ReplaceEvent::Begin) {
        ReplaceAction::Lookup(nqn) => assert_eq!(nqn, NQN),
        other => panic!("unexpected {:?}", other),
    }
    match t.handle(ReplaceEvent::LookupFound) {
        ReplaceAction::Connect { new_path, nqn } => {
            assert_eq!(new_path, PATH);
            assert_eq!(nqn, NQN);
        }
        other => panic!("unexpected {:?}", other),
    }
    match t.handle(ReplaceEvent::Connected(Ok(()))) {
        ReplaceAction::Disconnect(p) => assert_eq!(p, PATH),
        other => panic!("unexpected {:?}", other),
    }
    assert!(matches!(t.handle(ReplaceEvent::Disconnected(Ok(()))), ReplaceAction::Done(Ok(()))));
    assert!(t.is_finished());
}

#[test]
fn replace_path_disconnect_failure_is_a_warning() {
    let mut t = ReplacePathTask::new(NQN.to_string(), PATH.to_string());
    t.handle(ReplaceEvent::Begin);
    t.handle(ReplaceEvent::LookupFound);
    t.handle(ReplaceEvent::Connected(Ok(())));
    let e = SvcError::Internal { details: "x".to_string() };
    assert!(matches!(
        t.handle(ReplaceEvent::Disconnected(Err(e))),
        ReplaceAction::DoneWithWarning(SvcError::Internal { .. })
    ));
}

#[test]
fn replace_path_lookup_failure() {
    let mut t = ReplacePathTask::new(NQN.to_string(), PATH.to_string());
    t.handle(ReplaceEvent::Begin);
    match t.handle(ReplaceEvent::LookupFailed) {
        ReplaceAction::Done(Err(ReplacePathError::Lookup(e))) => {
            assert_eq!(e.kind, ReplyErrorKind::FailedPrecondition);
            assert_eq!(e.resource, ResourceKind::Nexus);
            assert_eq!(e.source, HA_AGENT_ERR_SOURCE);
            assert_eq!(e.extra, "Failed to lookup controller");
        }
        other => panic!("unexpected {:?}", other),
    }
    assert!(matches!(t.handle(ReplaceEvent::LookupFound), ReplaceAction::Ignore));
}

#[test]
fn replace_path_connect_failure() {
    let mut t = ReplacePathTask::new(NQN.to_string(), PATH.to_string());
    t.handle(ReplaceEvent::Begin);
    t.handle(ReplaceEvent::LookupFound);
    assert!(matches!(
        t.handle(ReplaceEvent::Connected(Err(SvcError::InvalidArguments))),
        ReplaceAction::Done(Err(ReplacePathError::Connect(SvcError::InvalidArguments)))
    ));
}

#[test]
fn connect_client_uds_error_passes_through() {
    let mut m = ConnectController::new(PATH.to_string(), NQN.to_string());
    m.handle(ConnectEvent::Begin);
    let e = SvcError::GrpcUdsConnect {
        path: "/var/tmp/csi-app-node-1.sock".to_string(),
        source: "connection refused".to_string(),
    };
    match m.handle(ConnectEvent::ClientUnavailable(e)) {
        ConnectAction::Done(Err(SvcError::GrpcUdsConnect { path, .. })) => {
            assert_eq!(path, "/var/tmp/csi-app-node-1.sock")
        }
        other => panic!("unexpected {:?}", other),
    }
}

#[test]
fn reply_error_constructors() {
    let e = ReplyError::invalid_argument(
        ResourceKind::Unknown,
        "endpoint",
        "Failed parsing node endpoint".to_string(),
    );
    assert_eq!(e.kind, ReplyErrorKind::InvalidArgument);
    assert_eq!(e.resource, ResourceKind::Unknown);
    assert_eq!(e.source, "endpoint");
    assert_eq!(e.extra, "Failed parsing node endpoint");
    let e = ReplyError::failed_precondition(ResourceKind::Node, "s".to_string(), "x".to_string());
    assert_eq!(e.kind, ReplyErrorKind::FailedPrecondition);
}

#[test]
fn subsystem_address_equality_both_ways() {
    let addr = SubsystemAddr::new("h".to_string(), "1".to_string());
    assert!(addr == "traddr=h,trsvcid=1".to_string());
    assert!("traddr=h,trsvcid=1".to_string() == SubsystemAddr::new("h".to_string(), "1".to_string()));
    assert!(!("traddr=h,trsvcid=2".to_string() == addr));
}
