use trafik::algorithms::{AlgorithmRunner, CwndUpdate};
use trafik::datapath::DatapathEvent;
use trafik::runner::{
    choose_action, cwnd_update, FlowAction, GenericRunner, RunnerError,
};
use trafik::runtime::{FlowKey, GenericAlgorithm, GenericFlow, Report};

/// A flow that doubles on increase, halves on reduction and goes back to its initial
/// window on reset.
struct StepFlow {
    init: u32,
    cwnd: u32,
    pacing: Option<u64>,
}

impl GenericFlow for StepFlow {
    fn curr_cwnd(&self) -> u32 {
        self.cwnd
    }
    fn set_cwnd(&mut self, cwnd: u32) {
        self.cwnd = cwnd;
    }
    fn curr_pacing_rate(&self) -> Option<u64> {
        self.pacing
    }
    fn increase(&mut self, _report: &Report) {
        self.cwnd *= 2;
    }
    fn reduction(&mut self, _report: &Report) {
        self.cwnd /= 2;
    }
    fn reset(&mut self) {
        self.cwnd = self.init;
    }
}

struct StepAlgorithm {
    pacing: Option<u64>,
}

impl GenericAlgorithm for StepAlgorithm {
    type Flow = StepFlow;
    fn name(&self) -> &str {
        "step"
    }
    fn create_flow(&self, init_cwnd: u32, _mss: u32) -> StepFlow {
        StepFlow { init: init_cwnd, cwnd: init_cwnd, pacing: self.pacing }
    }
}

fn report(bytes_acked: u32, lost_pkts_sample: u32, was_timeout: bool) -> Report {
    Report {
        flow_key: FlowKey { saddr: 1, daddr: 2, sport: 3, dport: 4 },
        packets_in_flight: 10,
        bytes_in_flight: 10_000,
        bytes_pending: 0,
        rtt_sample_us: 10_000,
        was_timeout,
        bytes_acked,
        packets_acked: 1,
        bytes_misordered: 0,
        packets_misordered: 0,
        ecn_bytes: 0,
        ecn_packets: 0,
        lost_pkts_sample,
        rate_incoming: 0,
        rate_outgoing: 0,
        snd_cwnd: 0,
        snd_ssthresh: 0,
        pacing_rate: 0,
        ca_state: 0,
        now: 0,
    }
}

fn measure(flow_id: u64, r: Report) -> DatapathEvent {
    DatapathEvent::Measurement { flow_id, measurement: r }
}

fn runner() -> GenericRunner<StepAlgorithm> {
    GenericRunner::new(StepAlgorithm { pacing: None }, "obj.o", "ops")
}

#[test]
fn runner_reports_its_configuration() {
    let r = runner();
    assert_eq!(r.name(), "step");
    assert_eq!(r.ebpf_path(), "obj.o");
    assert_eq!(r.struct_ops_name(), "ops");
    assert_eq!(r.flow_count(), 0);
}

#[test]
fn measurement_for_unknown_flow_is_refused() {
    let mut r = runner();
    assert_eq!(r.handle_event(measure(7, report(100, 0, false))), Err(RunnerError::UnknownFlow(7)));
    assert_eq!(r.flow_count(), 0);
}

#[test]
fn flow_lifecycle() {
    let mut r = runner();
    assert_eq!(r.handle_event(DatapathEvent::FlowCreated { flow_id: 1, init_cwnd: 10, mss: 1 }), Ok(None));
    assert_eq!(r.flow_count(), 1);
    // Acked data: the window doubles and is sent.
    assert_eq!(
        r.handle_event(measure(1, report(100, 0, false))),
        Ok(Some(CwndUpdate { flow_id: 1, cwnd_bytes: 20, pacing_rate: None }))
    );
    // Nothing acked, no loss: nothing changes, nothing is sent.
    assert_eq!(r.handle_event(measure(1, report(0, 0, false))), Ok(None));
    // New loss: the window halves back to 10.
    assert_eq!(
        r.handle_event(measure(1, report(100, 3, false))),
        Ok(Some(CwndUpdate { flow_id: 1, cwnd_bytes: 10, pacing_rate: None }))
    );
    // The same cumulative loss again is no new loss: the flow grows.
    assert_eq!(
        r.handle_event(measure(1, report(100, 3, false))),
        Ok(Some(CwndUpdate { flow_id: 1, cwnd_bytes: 20, pacing_rate: None }))
    );
    // Timeout: back to the initial window.
    assert_eq!(
        r.handle_event(measure(1, report(100, 3, true))),
        Ok(Some(CwndUpdate { flow_id: 1, cwnd_bytes: 10, pacing_rate: None }))
    );
    assert_eq!(r.handle_event(DatapathEvent::FlowClosed { flow_id: 1 }), Ok(None));
    assert_eq!(r.flow_count(), 0);
    assert_eq!(r.handle_event(measure(1, report(100, 0, false))), Err(RunnerError::UnknownFlow(1)));
}

#[test]
fn flows_are_independent() {
    let mut r = runner();
    r.handle_event(DatapathEvent::FlowCreated { flow_id: 1, init_cwnd: 10, mss: 1 }).unwrap();
    r.handle_event(DatapathEvent::FlowCreated { flow_id: 2, init_cwnd: 30, mss: 1 }).unwrap();
    assert_eq!(
        r.handle_event(measure(2, report(1, 0, false))),
        Ok(Some(CwndUpdate { flow_id: 2, cwnd_bytes: 60, pacing_rate: None }))
    );
    assert_eq!(
        r.handle_event(measure(1, report(1, 0, false))),
        Ok(Some(CwndUpdate { flow_id: 1, cwnd_bytes: 20, pacing_rate: None }))
    );
    r.handle_event(DatapathEvent::FlowClosed { flow_id: 2 }).unwrap();
    assert_eq!(r.flow_count(), 1);
    assert_eq!(
        r.handle_event(measure(1, report(1, 0, false))),
        Ok(Some(CwndUpdate { flow_id: 1, cwnd_bytes: 40, pacing_rate: None }))
    );
}

#[test]
fn pacing_flow_always_sends_update() {
    let mut r = GenericRunner::new(StepAlgorithm { pacing: Some(125_000) }, "obj.o", "ops");
    r.handle_event(DatapathEvent::FlowCreated { flow_id: 4, init_cwnd: 10, mss: 1 }).unwrap();
    assert_eq!(
        r.handle_event(measure(4, report(0, 0, false))),
        Ok(Some(CwndUpdate { flow_id: 4, cwnd_bytes: 10, pacing_rate: Some(125_000) }))
    );
}

#[test]
fn timeout_on_fresh_flow_sends_nothing() {
    let mut r = runner();
    r.handle_event(DatapathEvent::FlowCreated { flow_id: 9, init_cwnd: 10, mss: 1 }).unwrap();
    assert_eq!(r.handle_event(measure(9, report(0, 5, true))), Ok(None));
}

#[test]
fn cleanup_closes_every_flow() {
    let mut r = runner();
    r.handle_event(DatapathEvent::FlowCreated { flow_id: 1, init_cwnd: 10, mss: 1 }).unwrap();
    r.handle_event(DatapathEvent::FlowCreated { flow_id: 2, init_cwnd: 10, mss: 1 }).unwrap();
    r.cleanup();
    assert_eq!(r.flow_count(), 0);
    assert_eq!(r.handle_event(measure(2, report(1, 0, false))), Err(RunnerError::UnknownFlow(2)));
}

#[test]
fn action_choice() {
    assert_eq!(choose_action(&report(0, 9, true), 4), (FlowAction::Reset, 0));
    assert_eq!(choose_action(&report(10, 5, false), 4), (FlowAction::Reduce, 5));
    assert_eq!(choose_action(&report(10, 4, false), 4), (FlowAction::Increase, 4));
    assert_eq!(choose_action(&report(10, 0, false), 4), (FlowAction::Increase, 0));
    assert_eq!(choose_action(&report(0, 4, false), 4), (FlowAction::Hold, 4));
    assert_eq!(choose_action(&report(0, 0, false), 4), (FlowAction::Hold, 4));
}

#[test]
fn loss_is_counted_once() {
    let r = report(10, 7, false);
    let (first, lost) = choose_action(&r, 2);
    assert_eq!(first, FlowAction::Reduce);
    let (second, _) = choose_action(&r, lost);
    assert_ne!(second, FlowAction::Reduce);
}

#[test]
fn update_decision() {
    assert_eq!(cwnd_update(3, 10, None, 10), None);
    assert_eq!(cwnd_update(3, 11, None, 10), Some(CwndUpdate { flow_id: 3, cwnd_bytes: 11, pacing_rate: None }));
    assert_eq!(cwnd_update(3, 10, Some(5), 10), Some(CwndUpdate { flow_id: 3, cwnd_bytes: 10, pacing_rate: Some(5) }));
}

/// A flow that remembers its segment size: increase doubles and adds one segment.
struct GrowFlow {
    mss: u32,
    cwnd: u32,
}

impl GenericFlow for GrowFlow {
    fn curr_cwnd(&self) -> u32 {
        self.cwnd
    }
    fn set_cwnd(&mut self, cwnd: u32) {
        self.cwnd = cwnd;
    }
    fn increase(&mut self, _report: &Report) {
        self.cwnd = self.cwnd * 2 + self.mss;
    }
    fn reduction(&mut self, _report: &Report) {
        self.cwnd -= 1;
    }
}

struct GrowAlgorithm;

impl GenericAlgorithm for GrowAlgorithm {
    type Flow = GrowFlow;
    fn name(&self) -> &str {
        "grow"
    }
    fn create_flow(&self, init_cwnd: u32, mss: u32) -> GrowFlow {
        GrowFlow { mss, cwnd: init_cwnd }
    }
}

#[test]
fn new_flow_is_created_from_window_and_segment_size() {
    let mut r = GenericRunner::new(GrowAlgorithm, "obj.o", "ops");
    r.handle_event(DatapathEvent::FlowCreated { flow_id: 5, init_cwnd: 10, mss: 3 }).unwrap();
    assert_eq!(
        r.handle_event(measure(5, report(1, 0, false))),
        Ok(Some(CwndUpdate { flow_id: 5, cwnd_bytes: 23, pacing_rate: None }))
    );
    // New loss calls reduction, not increase; the default flow does not pace.
    assert_eq!(
        r.handle_event(measure(5, report(1, 1, false))),
        Ok(Some(CwndUpdate { flow_id: 5, cwnd_bytes: 22, pacing_rate: None }))
    );
    // A timeout with the default reset leaves the window alone: nothing is sent.
    assert_eq!(r.handle_event(measure(5, report(1, 1, true))), Ok(None));
}
