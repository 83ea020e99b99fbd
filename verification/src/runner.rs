//! Drives a congestion-control algorithm, flow by flow, from datapath events.
use vstd::prelude::*;

use std::collections::HashMap;

use crate::algorithms::{AlgorithmRunner, CwndUpdate};
use crate::datapath::DatapathEvent;
use crate::runtime::{GenericAlgorithm, GenericFlow, Report};

verus! {

/// An event that the runner refuses.
#[derive(Debug, Clone, Copy, PartialEq, Eq, Structural)]
pub enum RunnerError {
    /// A measurement arrived for a flow that is not open.
    UnknownFlow(u64),
}

/// What a measurement asks of the flow's algorithm.
#[derive(Debug, Clone, Copy, PartialEq, Eq, Structural)]
pub enum FlowAction {
    /// A timeout: the flow starts over.
    Reset,
    /// New loss: the flow backs off.
    Reduce,
    /// Acknowledged data without new loss: the flow grows.
    Increase,
    /// Nothing to react to.
    Hold,
}

/// The reaction to a report, given the cumulative loss count seen last. The lost-packet
/// count of a report is cumulative, so only a count above the last one is new loss.
pub open spec fn flow_action(report: Report, last_lost_pkts: u32) -> FlowAction {
    if report.was_timeout {
        FlowAction::Reset
    } else if report.lost_pkts_sample > last_lost_pkts {
        FlowAction::Reduce
    } else if report.bytes_acked > 0 {
        FlowAction::Increase
    } else {
        FlowAction::Hold
    }
}

/// The cumulative loss count remembered after a report.
pub open spec fn next_lost_pkts(report: Report, last_lost_pkts: u32) -> u32 {
    match flow_action(report, last_lost_pkts) {
        FlowAction::Reset => 0,
        FlowAction::Reduce => report.lost_pkts_sample,
        FlowAction::Increase => if report.lost_pkts_sample == 0 {
            0
        } else {
            last_lost_pkts
        },
        FlowAction::Hold => last_lost_pkts,
    }
}

/// Whether the datapath must hear of the flow's window: it changed since it was last
/// sent, or the flow paces.
pub open spec fn update_due(new_cwnd: u32, pacing_rate: Option<u64>, last_cwnd: u32) -> bool {
    new_cwnd != last_cwnd || pacing_rate is Some
}

/// The update owed to the datapath for a flow that reports the window `new_cwnd` and the
/// pacing rate `pacing_rate`, when `last_cwnd` was last sent; none if none is due.
pub open spec fn window_update(
    flow_id: u64,
    new_cwnd: u32,
    pacing_rate: Option<u64>,
    last_cwnd: u32,
) -> Option<CwndUpdate> {
    if update_due(new_cwnd, pacing_rate, last_cwnd) {
        Some(CwndUpdate { flow_id, cwnd_bytes: new_cwnd, pacing_rate })
    } else {
        None
    }
}

/// The flow can report the window `cwnd` and the pacing rate `pacing_rate`.
pub open spec fn reports_window<F: GenericFlow>(flow: F, cwnd: u32, pacing_rate: Option<u64>) -> bool {
    &&& call_ensures(F::curr_cwnd, (&flow,), cwnd)
    &&& call_ensures(F::curr_pacing_rate, (&flow,), pacing_rate)
}

/// Law: the loss count of a report is cumulative, so the same loss is never reacted to
/// twice: handing a flow the same report again, without a timeout, never reduces it.
pub proof fn law_loss_counted_once(report: Report, last_lost_pkts: u32)
    requires
        !report.was_timeout,
    ensures
        flow_action(report, next_lost_pkts(report, last_lost_pkts)) != FlowAction::Reduce,
{
}

/// Law: a timeout takes precedence over loss and acknowledgement, and forgets the loss
/// count; new loss takes precedence over acknowledgement.
pub proof fn law_reaction_precedence(report: Report, last_lost_pkts: u32)
    ensures
        report.was_timeout ==> flow_action(report, last_lost_pkts) == FlowAction::Reset
            && next_lost_pkts(report, last_lost_pkts) == 0,
        !report.was_timeout && report.lost_pkts_sample > last_lost_pkts ==> flow_action(
            report,
            last_lost_pkts,
        ) == FlowAction::Reduce,
{
}

/// Law: the reaction to a report, by its inputs alone. A timeout resets the flow and
/// forgets the loss count. Otherwise a loss count above the remembered one is new loss: the
/// flow is reduced and the new count remembered. Otherwise, whatever the (not new) loss
/// count, acknowledged data makes the flow increase, and the remembered count is cleared
/// only when the report counts no loss at all; with nothing acknowledged the flow is left
/// alone and the count kept.
pub proof fn law_reaction_by_inputs(report: Report, last_lost_pkts: u32)
    ensures
        report.was_timeout ==> flow_action(report, last_lost_pkts) == FlowAction::Reset
            && next_lost_pkts(report, last_lost_pkts) == 0,
        !report.was_timeout && report.lost_pkts_sample > last_lost_pkts ==> flow_action(
            report,
            last_lost_pkts,
        ) == FlowAction::Reduce && next_lost_pkts(report, last_lost_pkts)
            == report.lost_pkts_sample,
        !report.was_timeout && report.lost_pkts_sample <= last_lost_pkts && report.bytes_acked > 0
            ==> flow_action(report, last_lost_pkts) == FlowAction::Increase,
        !report.was_timeout && report.lost_pkts_sample <= last_lost_pkts && report.bytes_acked > 0
            && report.lost_pkts_sample == 0 ==> next_lost_pkts(report, last_lost_pkts) == 0,
        !report.was_timeout && report.lost_pkts_sample <= last_lost_pkts && report.bytes_acked > 0
            && report.lost_pkts_sample > 0 ==> next_lost_pkts(report, last_lost_pkts)
            == last_lost_pkts,
        !report.was_timeout && report.lost_pkts_sample <= last_lost_pkts && report.bytes_acked
            == 0 ==> flow_action(report, last_lost_pkts) == FlowAction::Hold && next_lost_pkts(
            report,
            last_lost_pkts,
        ) == last_lost_pkts,
{
}

/// Law: an update is owed exactly when the window differs from the one last sent, or
/// the flow paces; the update carries the flow's id, its window and its pacing rate.
pub proof fn law_update_owed(flow_id: u64, new_cwnd: u32, pacing_rate: Option<u64>, last_cwnd: u32)
    ensures
        new_cwnd != last_cwnd ==> update_due(new_cwnd, pacing_rate, last_cwnd),
        pacing_rate is Some ==> update_due(new_cwnd, pacing_rate, last_cwnd),
        new_cwnd == last_cwnd && pacing_rate is None ==> !update_due(
            new_cwnd,
            pacing_rate,
            last_cwnd,
        ),
        (new_cwnd != last_cwnd || pacing_rate is Some) ==> window_update(
            flow_id,
            new_cwnd,
            pacing_rate,
            last_cwnd,
        ) == Some(CwndUpdate { flow_id, cwnd_bytes: new_cwnd, pacing_rate }),
        (new_cwnd == last_cwnd && pacing_rate is None) ==> window_update(
            flow_id,
            new_cwnd,
            pacing_rate,
            last_cwnd,
        ) is None,
{
}

/// Decides the reaction to a report and the loss count to remember.
pub fn choose_action(report: &Report, last_lost_pkts: u32) -> (r: (FlowAction, u32))
    ensures
        r.0 == flow_action(*report, last_lost_pkts),
        r.1 == next_lost_pkts(*report, last_lost_pkts),
{
    let new_loss = report.lost_pkts_sample > last_lost_pkts;
    if report.was_timeout {
        (FlowAction::Reset, 0)
    } else if new_loss {
        (FlowAction::Reduce, report.lost_pkts_sample)
    } else if report.bytes_acked > 0 {
        if report.lost_pkts_sample == 0 {
            (FlowAction::Increase, 0)
        } else {
            (FlowAction::Increase, last_lost_pkts)
        }
    } else {
        (FlowAction::Hold, last_lost_pkts)
    }
}

/// Decides whether the datapath must be told of the flow's window after a report.
pub fn cwnd_update(flow_id: u64, new_cwnd: u32, pacing_rate: Option<u64>, last_cwnd: u32) -> (r:
    Option<CwndUpdate>)
    ensures
        update_due(new_cwnd, pacing_rate, last_cwnd) ==> r == Some(
            CwndUpdate { flow_id, cwnd_bytes: new_cwnd, pacing_rate },
        ),
        !update_due(new_cwnd, pacing_rate, last_cwnd) ==> r is None,
{
    if new_cwnd != last_cwnd || pacing_rate.is_some() {
        Some(CwndUpdate { flow_id, cwnd_bytes: new_cwnd, pacing_rate })
    } else {
        None
    }
}

/// The state kept for one open flow.
pub struct FlowState<F> {
    /// The algorithm's own state of the flow.
    pub flow: F,
    /// The cumulative loss count of the last report that counted.
    pub last_lost_pkts: u32,
    /// The window last sent to the datapath.
    pub last_cwnd: u32,
}

/// Runs one algorithm over all open flows.
pub struct GenericRunner<A: GenericAlgorithm> {
    algorithm: A,
    flows: HashMap<u64, FlowState<A::Flow>>,
    ebpf_path: &'static str,
    struct_ops_name: &'static str,
}

impl<A: GenericAlgorithm> GenericRunner<A> {
    /// The open flows, by id.
    pub closed spec fn flows(&self) -> Map<u64, FlowState<A::Flow>> {
        self.flows@
    }

    /// The algorithm that drives the flows.
    pub closed spec fn algorithm(&self) -> A {
        self.algorithm
    }

    /// The path of the eBPF object that holds the datapath.
    pub closed spec fn spec_ebpf_path(&self) -> &'static str {
        self.ebpf_path
    }

    /// The name of the struct_ops that the datapath registers.
    pub closed spec fn spec_struct_ops_name(&self) -> &'static str {
        self.struct_ops_name
    }

    /// A runner with no open flow.
    pub fn new(algorithm: A, ebpf_path: &'static str, struct_ops_name: &'static str) -> (r: Self)
        ensures
            r.flows() == Map::<u64, FlowState<A::Flow>>::empty(),
            r.algorithm() == algorithm,
            r.spec_ebpf_path() == ebpf_path,
            r.spec_struct_ops_name() == struct_ops_name,
    {
        GenericRunner { algorithm, flows: HashMap::new(), ebpf_path, struct_ops_name }
    }

    /// Number of open flows.
    pub fn flow_count(&self) -> (n: usize)
        ensures
            n == self.flows().len(),
    {
        self.flows.len()
    }
}

impl<A: GenericAlgorithm> AlgorithmRunner for GenericRunner<A> {
    /// The name that the algorithm gives itself: a result of its `name` on the runner's
    /// algorithm.
    fn name(&self) -> (name: &str)
        ensures
            call_ensures(A::name, (&self.algorithm(),), name),
    {
        self.algorithm.name()
    }

    fn ebpf_path(&self) -> (path: &str)
        ensures
            path == self.spec_ebpf_path(),
    {
        self.ebpf_path
    }

    fn struct_ops_name(&self) -> (name: &str)
        ensures
            name == self.spec_struct_ops_name(),
    {
        self.struct_ops_name
    }

    /// Handles one datapath event. A new flow gets the state that the algorithm's
    /// `create_flow` gives; a closed flow is forgotten; a measurement makes the flow react
    /// as `flow_action` says, through its own `reset`, `reduction` or `increase` (or not at
    /// all), and then reports the window and pacing rate that the flow gives, when due.
    fn handle_event(&mut self, event: DatapathEvent) -> (r: Result<Option<CwndUpdate>, RunnerError>)
        ensures
            final(self).algorithm() == old(self).algorithm(),
            final(self).spec_ebpf_path() == old(self).spec_ebpf_path(),
            final(self).spec_struct_ops_name() == old(self).spec_struct_ops_name(),
            match event {
                DatapathEvent::FlowCreated { flow_id, init_cwnd, mss } => {
                    &&& r == Ok::<Option<CwndUpdate>, RunnerError>(None)
                    &&& final(self).flows() == old(self).flows().insert(
                        flow_id,
                        final(self).flows()[flow_id],
                    )
                    &&& final(self).flows()[flow_id].last_lost_pkts == 0
                    &&& final(self).flows()[flow_id].last_cwnd == init_cwnd
                    &&& call_ensures(
                        A::create_flow,
                        (&old(self).algorithm(), init_cwnd, mss),
                        final(self).flows()[flow_id].flow,
                    )
                },
                DatapathEvent::Measurement { flow_id, measurement } => {
                    if !old(self).flows().contains_key(flow_id) {
                        &&& r == Err::<Option<CwndUpdate>, RunnerError>(
                            RunnerError::UnknownFlow(flow_id),
                        )
                        &&& final(self).flows() == old(self).flows()
                    } else {
                        let before = old(self).flows()[flow_id];
                        let after = final(self).flows()[flow_id];
                        &&& final(self).flows() == old(self).flows().insert(flow_id, after)
                        &&& after.last_lost_pkts == next_lost_pkts(
                            measurement,
                            before.last_lost_pkts,
                        )
                        &&& match flow_action(measurement, before.last_lost_pkts) {
                            FlowAction::Reset => exists|f: &mut A::Flow|
                                #[trigger] call_ensures(<A::Flow as GenericFlow>::reset, (f,), ())
                                    && mut_ref_current(f) == before.flow && mut_ref_future(f)
                                    == after.flow,
                            FlowAction::Reduce => exists|f: &mut A::Flow|
                                #[trigger] call_ensures(
                                    <A::Flow as GenericFlow>::reduction,
                                    (f, &measurement),
                                    (),
                                ) && mut_ref_current(f) == before.flow && mut_ref_future(f)
                                    == after.flow,
                            FlowAction::Increase => exists|f: &mut A::Flow|
                                #[trigger] call_ensures(
                                    <A::Flow as GenericFlow>::increase,
                                    (f, &measurement),
                                    (),
                                ) && mut_ref_current(f) == before.flow && mut_ref_future(f)
                                    == after.flow,
                            FlowAction::Hold => after.flow == before.flow,
                        }
                        &&& exists|cwnd: u32, pacing_rate: Option<u64>|
                            #[trigger] reports_window(after.flow, cwnd, pacing_rate) && r == Ok::<
                                Option<CwndUpdate>,
                                RunnerError,
                            >(window_update(flow_id, cwnd, pacing_rate, before.last_cwnd))
                                && after.last_cwnd == if update_due(
                                cwnd,
                                pacing_rate,
                                before.last_cwnd,
                            ) {
                                cwnd
                            } else {
                                before.last_cwnd
                            }
                    }
                },
                DatapathEvent::FlowClosed { flow_id } => {
                    &&& r == Ok::<Option<CwndUpdate>, RunnerError>(None)
                    &&& final(self).flows() == old(self).flows().remove(flow_id)
                },
            },
    {
        match event {
            DatapathEvent::FlowCreated { flow_id, init_cwnd, mss } => {
                let flow = self.algorithm.create_flow(init_cwnd, mss);
                let flow_state = FlowState { flow, last_lost_pkts: 0, last_cwnd: init_cwnd };
                self.flows.insert(flow_id, flow_state);
                Ok(None)
            },
            DatapathEvent::Measurement { flow_id, measurement } => {
                let removed = self.flows.remove(&flow_id);
                match removed {
                    None => Err(RunnerError::UnknownFlow(flow_id)),
                    Some(flow_state) => {
                        let mut flow_state = flow_state;
                        let report = measurement;
                        let (action, lost) = choose_action(&report, flow_state.last_lost_pkts);
                        match action {
                            FlowAction::Reset => flow_state.flow.reset(),
                            FlowAction::Reduce => flow_state.flow.reduction(&report),
                            FlowAction::Increase => flow_state.flow.increase(&report),
                            FlowAction::Hold => {},
                        }
                        flow_state.last_lost_pkts = lost;
                        let new_cwnd = flow_state.flow.curr_cwnd();
                        let pacing_rate = flow_state.flow.curr_pacing_rate();
                        let update = cwnd_update(
                            flow_id,
                            new_cwnd,
                            pacing_rate,
                            flow_state.last_cwnd,
                        );
                        assert(reports_window(flow_state.flow, new_cwnd, pacing_rate));
                        let ghost last_cwnd = flow_state.last_cwnd;
                        if update.is_some() {
                            flow_state.last_cwnd = new_cwnd;
                        }
                        self.flows.insert(flow_id, flow_state);
                        assert(update == window_update(flow_id, new_cwnd, pacing_rate, last_cwnd));
                        assert(reports_window(self.flows()[flow_id].flow, new_cwnd, pacing_rate));
                        assert(exists|cwnd: u32, p: Option<u64>|
                            #[trigger] reports_window(self.flows()[flow_id].flow, cwnd, p) && update
                                == window_update(flow_id, cwnd, p, last_cwnd)
                                && self.flows()[flow_id].last_cwnd == if update_due(
                                cwnd,
                                p,
                                last_cwnd,
                            ) {
                                cwnd
                            } else {
                                last_cwnd
                            });
                        Ok(update)
                    },
                }
            },
            DatapathEvent::FlowClosed { flow_id } => {
                self.flows.remove(&flow_id);
                Ok(None)
            },
        }
    }

    fn cleanup(&mut self)
        ensures
            final(self).flows() == Map::<u64, FlowState<A::Flow>>::empty(),
            final(self).algorithm() == old(self).algorithm(),
            final(self).spec_ebpf_path() == old(self).spec_ebpf_path(),
            final(self).spec_struct_ops_name() == old(self).spec_struct_ops_name(),
    {
        self.flows.clear();
    }
}

} // verus!
