use control_plane::ha_node::{
    failed_nvme_paths, FailedNvmePath, FailedPath, GetController, GetControllerInfo,
    GetNvmeControllerRequest, MapWrapper, NvmeControllers, NvmeSubsystem, NvmeSubsystems,
    ReplacePath, ReplacePathInfo, ReplacePathRequest, ReportFailedNvmePathsRequest,
};
use control_plane::string_map::StringMap;

#[test]
fn get_controller_request_from_info() {
    let req = GetController { nvme_path: "nvmf://h:1/nqn".to_string() };
    assert_eq!(req.nvme_path(), "nvmf://h:1/nqn");
    let wire = GetNvmeControllerRequest::from_info(&req);
    assert_eq!(wire.nvme_path, "nvmf://h:1/nqn");
    assert_eq!(wire.nvme_path(), "nvmf://h:1/nqn");
}

#[test]
fn subsystems_and_controllers_round_trip() {
    let subsystems = NvmeSubsystems(vec![
        NvmeSubsystem::new("traddr=a,trsvcid=1".to_string()),
        NvmeSubsystem::new("traddr=b,trsvcid=2".to_string()),
    ]);
    let controllers = NvmeControllers::from_subsystems(subsystems);
    assert_eq!(
        controllers.target_address,
        vec!["traddr=a,trsvcid=1".to_string(), "traddr=b,trsvcid=2".to_string()]
    );
    let back = NvmeSubsystems::from_controllers(controllers);
    let addresses: Vec<String> = back.into_inner().iter().map(|s| s.address()).collect();
    assert_eq!(addresses, vec!["traddr=a,trsvcid=1".to_string(), "traddr=b,trsvcid=2".to_string()]);
}

#[test]
fn replace_path_request_from_info() {
    let mut ctx = StringMap::new();
    ctx.insert("k".to_string(), "v".to_string());
    let req = ReplacePath {
        target: "nqn-1".to_string(),
        new_path: "nvmf://h:1/nqn-1".to_string(),
        publish_context: Some(ctx),
    };
    let wire = ReplacePathRequest::from_info(&req);
    assert_eq!(wire.target_nqn, "nqn-1");
    assert_eq!(wire.new_path(), "nvmf://h:1/nqn-1");
    let map = wire.publish_context().unwrap();
    assert_eq!(map.get(&"k".to_string()), Some(&"v".to_string()));
    assert_eq!(map.len(), 1);
    let again = ReplacePathRequest::from_info(&wire);
    assert_eq!(again.target_nqn(), "nqn-1");
    let no_ctx = ReplacePathRequest {
        target_nqn: "n".to_string(),
        new_path: "p".to_string(),
        publish_context: None,
    };
    assert!(no_ctx.publish_context().is_none());
    let wrapped = ReplacePathRequest {
        target_nqn: "n".to_string(),
        new_path: "p".to_string(),
        publish_context: Some(MapWrapper { map: StringMap::new() }),
    };
    assert_eq!(wrapped.publish_context().unwrap().len(), 0);
}

#[test]
fn failed_paths_conversions() {
    let paths = vec![FailedPath::new("nqn-a".to_string()), FailedPath::new("nqn-b".to_string())];
    let wire = failed_nvme_paths(paths);
    assert_eq!(wire.len(), 2);
    assert_eq!(wire[0].target_nqn, "nqn-a");
    assert_eq!(wire[1].target_nqn, "nqn-b");
    let report = ReportFailedNvmePathsRequest {
        nodename: "node-1".to_string(),
        endpoint: "10.0.0.1:50053".to_string(),
        failed_paths: wire,
    };
    assert_eq!(report.node(), "node-1");
    let back = report.failed_paths();
    assert_eq!(back.len(), 2);
    assert_eq!(back[1].target_nqn(), "nqn-b");
    let one = FailedNvmePath::from(FailedPath::new("x".to_string()));
    assert_eq!(one.target_nqn, "x");
}
