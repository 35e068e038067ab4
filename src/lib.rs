//! Network reachability prober: ICMP, TCP and HTTP probes, the per-group
//! probing cycle and the store of the latest result of each target.
pub mod config;
pub mod ping_error;
pub mod scheduler;
pub mod settings;
pub mod targets;
pub mod task;

use vstd::prelude::*;

verus! {

/// Marker for the configuration of an executor.
pub trait ExecutorConfig {}

} // verus!
