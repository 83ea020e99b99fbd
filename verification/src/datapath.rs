//! Events that the datapath reports about flows.
use vstd::prelude::*;

use crate::runtime::Report;

verus! {

/// An event reported by the datapath.
#[derive(Debug, Clone, Copy)]
pub enum DatapathEvent {
    /// A flow was opened with the given initial window and segment size, in bytes.
    FlowCreated { flow_id: u64, init_cwnd: u32, mss: u32 },
    /// A measurement report for an open flow.
    Measurement { flow_id: u64, measurement: Report },
    /// A flow was closed.
    FlowClosed { flow_id: u64 },
}

} // verus!
