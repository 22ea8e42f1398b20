# control_plane

Verified core of a storage control plane for replicated NVMe-oF volumes.

- `src/volume.rs`: the stored volume specification, its pending-operation
  transactions (`start_op`, `set_op_result`, `commit_op`, `clear_op`), and its
  comparison with creation requests and observed state; `src/volume_laws.rs`
  states what holds across these operations.
- `src/string_map.rs`, `src/topology.rs`: label maps and placement topologies
  with equality by value.
- `src/nvme_uri.rs`, `src/path_replacement.rs`: how the HA node agent takes an
  NVMe-oF path apart, finds the matching subsystem, and replaces a failed path;
  the agent's I/O is driven from outside through event/action state machines.
- `src/ha_node.rs`: requests of the HA agents and their wire forms.
- `src/node.rs`, `src/models.rs`: the plugin's node tables and the REST objects.
- `src/fio_spdk.rs`: the fio-spdk deployment component.
- `app/`: serde and clap forms, table printing, the agent's async driver, and
  the socket-address based registration types.
