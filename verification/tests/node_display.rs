use control_plane::models::{Node as NodeModel, NodeSpec, NodeState, NodeStatus};
use control_plane::node::{
    join_strings, node_header_row, node_rows, remaining_labels, GetNodeArgs, NodeDisplay,
    NodeDisplayFormat,
};

fn strings(v: &[&str]) -> Vec<String> {
    v.iter().map(|s| s.to_string()).collect()
}

fn node(cordon: &[&str], drain: &[&str], state: bool) -> NodeModel {
    NodeModel {
        id: "node-1".to_string(),
        spec: Some(NodeSpec {
            grpc_endpoint: "10.0.0.1:10124".to_string(),
            id: "node-1".to_string(),
            cordon_labels: strings(cordon),
            drain_labels: strings(drain),
        }),
        state: if state {
            Some(NodeState {
                grpc_endpoint: "10.0.0.2:10124".to_string(),
                id: "node-1".to_string(),
                status: NodeStatus::Online,
            })
        } else {
            None
        },
    }
}

#[test]
fn join_strings_cases() {
    assert_eq!(join_strings(&strings(&[]), ", "), "");
    assert_eq!(join_strings(&strings(&["a"]), ", "), "a");
    assert_eq!(join_strings(&strings(&["a", "b", "c"]), ", "), "a, b, c");
}

#[test]
fn header_row() {
    assert_eq!(node_header_row(), strings(&["ID", "GRPC ENDPOINT", "STATUS", "CORDONED"]));
}

#[test]
fn rows_use_state_when_present() {
    let rows = node_rows(&node(&[], &[], true));
    assert_eq!(rows, vec![strings(&["node-1", "10.0.0.2:10124", "Online", "false"])]);
}

#[test]
fn rows_fall_back_to_spec_when_state_missing() {
    let rows = node_rows(&node(&["a"], &[], false));
    assert_eq!(rows, vec![strings(&["node-1", "10.0.0.1:10124", "Unknown", "true"])]);
    let rows = node_rows(&node(&[], &["d"], false));
    assert_eq!(rows[0][3], "true");
}

#[test]
fn rows_of_node_without_spec_or_state() {
    let n = NodeModel { id: "n".to_string(), spec: None, state: None };
    assert_eq!(node_rows(&n), vec![strings(&["n", "", "Unknown", "false"])]);
}

#[test]
fn display_default() {
    let d = NodeDisplay::new(node(&["a"], &["b"], true), NodeDisplayFormat::Default);
    assert_eq!(d.create_rows(), vec![strings(&["node-1", "10.0.0.2:10124", "Online", "true"])]);
    assert_eq!(d.get_header_row(), strings(&["ID", "GRPC ENDPOINT", "STATUS", "CORDONED"]));
}

#[test]
fn display_cordon_labels() {
    let d = NodeDisplay::new(node(&["a", "b"], &["c"], true), NodeDisplayFormat::CordonLabels);
    assert_eq!(d.create_rows()[0][4], "a, b, c");
    assert_eq!(
        d.get_header_row(),
        strings(&["ID", "GRPC ENDPOINT", "STATUS", "CORDONED", "CORDON LABELS"])
    );
    let d = NodeDisplay::new(node(&[], &["c", "d"], true), NodeDisplayFormat::CordonLabels);
    assert_eq!(d.create_rows()[0][4], "c, d");
    let d = NodeDisplay::new(node(&["a"], &[], true), NodeDisplayFormat::CordonLabels);
    assert_eq!(d.create_rows()[0][4], "a");
    let d = NodeDisplay::new(node(&[], &[], true), NodeDisplayFormat::CordonLabels);
    assert_eq!(d.create_rows()[0][4], "");
}

#[test]
fn display_cordon_labels_with_empty_label() {
    // An empty cordon label joins to nothing, so no separator precedes the drain labels.
    let d = NodeDisplay::new(node(&[""], &["c"], true), NodeDisplayFormat::CordonLabels);
    assert_eq!(d.create_rows()[0][4], "c");
}

#[test]
fn display_drain() {
    let d = NodeDisplay::new(node(&["a"], &["x", "y"], true), NodeDisplayFormat::Drain);
    let rows = d.create_rows();
    assert_eq!(rows[0][4], "not draining");
    assert_eq!(rows[0][5], "x, y");
    assert_eq!(
        d.get_header_row(),
        strings(&["ID", "GRPC ENDPOINT", "STATUS", "CORDONED", "DRAIN STATE", "DRAIN LABELS"])
    );
}

#[test]
fn remaining_labels_after_uncordon() {
    assert_eq!(remaining_labels(&node(&["a"], &["b", "c"], true)), strings(&["a", "b", "c"]));
    assert!(remaining_labels(&node(&[], &[], true)).is_empty());
    let n = NodeModel { id: "n".to_string(), spec: None, state: None };
    assert!(remaining_labels(&n).is_empty());
}

#[test]
fn get_node_args_accessors() {
    let args = GetNodeArgs::new("node-7".to_string(), true);
    assert_eq!(args.node_id(), "node-7");
    assert!(args.show_cordon_labels());
}
