//! Control-plane logic for replicated NVMe-oF volumes: the persistent volume
//! specification and its operation transactions, the HA node agent's path
//! replacement decisions, and the node tables of the command-line plugin.

pub mod string_map;
pub mod topology;
pub mod models;
pub mod volume;
pub mod volume_laws;
pub mod nvme_uri;
pub mod path_replacement;
pub mod ha_node;
pub mod node;
pub mod fio_spdk;
