//! The experiments the toolkit can run: each module holds one experiment's
//! parameters and, where the experiment's course is plain computation and
//! decisions, its verified core.

pub mod blast;
pub mod eviction_timeout;
pub mod install_dependencies;
pub mod log_flow_ops;
pub mod log_ovs_dpctl_stats;
pub mod monitor;
pub mod node_logger;
pub mod packet_flood;
pub mod packet_fuzzing;
pub mod pkt_reflector;
pub mod randomized_eviction_timeout;
pub mod reload_ovn;
pub mod rule_limit;
pub mod victim;
