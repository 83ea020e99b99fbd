//! The interface between the flow driver and a congestion-control algorithm.
use vstd::prelude::*;

verus! {

/// Key identifying a TCP connection.
#[derive(Debug, Clone, Copy, PartialEq, Eq, Hash)]
pub struct FlowKey {
    pub saddr: u32,
    pub daddr: u32,
    pub sport: u16,
    pub dport: u16,
}

/// One measurement report of a flow.
#[derive(Debug, Clone, Copy)]
pub struct Report {
    pub flow_key: FlowKey,
    // Flow-level statistics
    pub packets_in_flight: u32,
    pub bytes_in_flight: u32,
    pub bytes_pending: u32,
    pub rtt_sample_us: u32,
    pub was_timeout: bool,
    // ACK-level statistics
    pub bytes_acked: u32,
    pub packets_acked: u32,
    pub bytes_misordered: u32,
    pub packets_misordered: u32,
    pub ecn_bytes: u32,
    pub ecn_packets: u32,
    /// Cumulative count of lost packets (not an increment).
    pub lost_pkts_sample: u32,
    // Rate statistics
    pub rate_incoming: u32,
    pub rate_outgoing: u32,
    // Kernel context
    pub snd_cwnd: u32,
    pub snd_ssthresh: u32,
    pub pacing_rate: u64,
    pub ca_state: u8,
    pub now: u64,
}

/// A congestion-control algorithm, implemented by its authors: it names itself and
/// creates the per-flow state, of the type `Flow`.
pub trait GenericAlgorithm: Send {
    type Flow: GenericFlow;

    fn name(&self) -> &str;

    fn create_flow(&self, init_cwnd: u32, mss: u32) -> Self::Flow;
}

/// The per-flow state of a congestion-control algorithm, implemented by its authors.
pub trait GenericFlow: Send {
    fn curr_cwnd(&self) -> u32;

    fn set_cwnd(&mut self, cwnd: u32);

    /// The pacing rate the flow asks for; none unless the algorithm paces.
    fn curr_pacing_rate(&self) -> (rate: Option<u64>)
        default_ensures
            rate is None,
    {
        None
    }

    /// Reaction to acknowledged data without new loss.
    fn increase(&mut self, report: &Report);

    /// Reaction to new loss.
    fn reduction(&mut self, report: &Report);

    /// Reaction to a timeout; does nothing unless the algorithm says otherwise.
    fn reset(&mut self) {
    }
}

} // verus!
