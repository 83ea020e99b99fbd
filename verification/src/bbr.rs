//! The mode and timer logic of BBR (`PROBE_BW` and `PROBE_RTT`).
//!
//! Times are nanoseconds since the flow's own start, so every timestamp of a flow is a
//! plain integer. The bandwidth model and the gains are the algorithm's floating-point
//! part and are not kept here.
use vstd::prelude::*;

use crate::runtime::Report;

verus! {

/// How long an estimate of the minimal RTT stays valid, in seconds.
pub const PROBE_RTT_INTERVAL_SECONDS: i64 = 10;

/// How long an estimate of the minimal RTT stays valid, in nanoseconds.
pub const PROBE_RTT_INTERVAL_NS: u64 = 10_000_000_000;

/// How long `PROBE_RTT` lasts once the data in flight is low enough, in milliseconds.
pub const PROBE_RTT_DURATION_MS: u64 = 200;

/// How long `PROBE_RTT` lasts once the data in flight is low enough, in nanoseconds.
pub const PROBE_RTT_DURATION_NS: u64 = PROBE_RTT_DURATION_MS * 1_000_000;

/// The smallest congestion window, in packets.
pub const MIN_CWND_PACKETS: u32 = 4;

/// The minimal RTT assumed by a new flow, in microseconds.
pub const INITIAL_MIN_RTT_US: u32 = 1_000_000;

/// The minimal-RTT estimate set on entering `PROBE_RTT`, so that any sample replaces it.
pub const PROBE_RTT_MIN_RTT_US: u32 = 0x3fff_ffff;

/// The phases of `PROBE_BW`: drain at 0.75x for one RTT, cruise at 1x for two RTTs,
/// probe at 1.25x for eight RTTs.
#[derive(Debug, Clone, Copy, PartialEq, Eq, Structural)]
pub enum ProbeBwPhase {
    Drain,
    Cruise,
    Probe,
}

/// The mode of a BBR flow.
#[derive(Debug, Clone, Copy, PartialEq, Eq, Structural)]
pub enum BbrMode {
    ProbeBw(ProbeBwPhase),
    ProbeRtt,
}

/// The timers and mode of one BBR flow.
#[derive(Debug, Clone, Copy, PartialEq, Eq, Structural)]
pub struct BbrModeState {
    pub mode: BbrMode,
    /// The minimal RTT seen, in microseconds.
    pub min_rtt_us: u32,
    /// When the minimal-RTT estimate expires.
    pub min_rtt_timeout: u64,
    /// When the current `PROBE_BW` phase began.
    pub probe_bw_timer: u64,
    /// When `PROBE_RTT` reached its target data in flight, if it has.
    pub probe_rtt_done_timestamp: Option<u64>,
    pub probe_rtt_inflight_reached: bool,
}

/// The phase that follows a `PROBE_BW` phase.
pub open spec fn next_phase(phase: ProbeBwPhase) -> ProbeBwPhase {
    match phase {
        ProbeBwPhase::Drain => ProbeBwPhase::Cruise,
        ProbeBwPhase::Cruise => ProbeBwPhase::Probe,
        ProbeBwPhase::Probe => ProbeBwPhase::Drain,
    }
}

/// How many minimal RTTs a `PROBE_BW` phase lasts.
pub open spec fn phase_rtts(phase: ProbeBwPhase) -> int {
    match phase {
        ProbeBwPhase::Drain => 1,
        ProbeBwPhase::Cruise => 2,
        ProbeBwPhase::Probe => 8,
    }
}

/// Time elapsed from `from` to `now`, in nanoseconds; zero if `now` comes first.
pub open spec fn elapsed(now: u64, from: u64) -> int {
    if now >= from {
        now - from
    } else {
        0
    }
}

/// The state of a flow that starts, or starts over, at time `now`.
pub open spec fn initial_mode_state(now: u64) -> BbrModeState {
    BbrModeState {
        mode: BbrMode::ProbeBw(ProbeBwPhase::Drain),
        min_rtt_us: INITIAL_MIN_RTT_US,
        min_rtt_timeout: (now + PROBE_RTT_INTERVAL_NS) as u64,
        probe_bw_timer: now,
        probe_rtt_done_timestamp: None,
        probe_rtt_inflight_reached: false,
    }
}

/// The state after an RTT sample: a smaller sample replaces the estimate and renews it.
pub open spec fn min_rtt_step(s: BbrModeState, rtt_us: u32, now: u64) -> BbrModeState {
    if rtt_us < s.min_rtt_us {
        BbrModeState {
            min_rtt_us: rtt_us,
            min_rtt_timeout: (now + PROBE_RTT_INTERVAL_NS) as u64,
            ..s
        }
    } else {
        s
    }
}

/// `PROBE_BW` at time `now`: the phase advances once it has lasted its number of minimal
/// RTTs; then, if the minimal-RTT estimate has expired, the flow enters `PROBE_RTT`.
pub open spec fn probe_bw_step(s: BbrModeState, now: u64) -> BbrModeState {
    let advanced = match s.mode {
        BbrMode::ProbeBw(phase) => if elapsed(now, s.probe_bw_timer) >= phase_rtts(phase)
            * s.min_rtt_us * 1000 {
            BbrModeState { mode: BbrMode::ProbeBw(next_phase(phase)), probe_bw_timer: now, ..s }
        } else {
            s
        },
        BbrMode::ProbeRtt => s,
    };
    if now > s.min_rtt_timeout {
        BbrModeState {
            mode: BbrMode::ProbeRtt,
            min_rtt_us: PROBE_RTT_MIN_RTT_US,
            probe_rtt_done_timestamp: None,
            probe_rtt_inflight_reached: false,
            ..advanced
        }
    } else {
        advanced
    }
}

/// `PROBE_RTT` at time `now`: the first time the data in flight is at most
/// `MIN_CWND_PACKETS`, the time is noted; once `PROBE_RTT_DURATION_NS` have passed since,
/// the flow returns to the drain phase of `PROBE_BW` and the estimate is renewed.
pub open spec fn probe_rtt_step(s: BbrModeState, packets_in_flight: u32, now: u64) -> BbrModeState {
    let reached = if !s.probe_rtt_inflight_reached && packets_in_flight <= MIN_CWND_PACKETS {
        BbrModeState {
            probe_rtt_inflight_reached: true,
            probe_rtt_done_timestamp: Some(now),
            ..s
        }
    } else {
        s
    };
    match reached.probe_rtt_done_timestamp {
        Some(done) => if elapsed(now, done) >= PROBE_RTT_DURATION_NS {
            BbrModeState {
                mode: BbrMode::ProbeBw(ProbeBwPhase::Drain),
                probe_bw_timer: now,
                min_rtt_timeout: (now + PROBE_RTT_INTERVAL_NS) as u64,
                ..reached
            }
        } else {
            reached
        },
        None => reached,
    }
}

/// The state after an acknowledgement: the RTT sample first, then the mode's own step.
pub open spec fn ack_step(s: BbrModeState, report: Report, now: u64) -> BbrModeState {
    let t = min_rtt_step(s, report.rtt_sample_us, now);
    match t.mode {
        BbrMode::ProbeBw(_) => probe_bw_step(t, now),
        BbrMode::ProbeRtt => probe_rtt_step(t, report.packets_in_flight, now),
    }
}

/// Time elapsed from `from` to `now`, in nanoseconds; zero if `now` comes first.
fn elapsed_since(now: u64, from: u64) -> (d: u64)
    ensures
        d == elapsed(now, from),
{
    if now >= from {
        now - from
    } else {
        0
    }
}

impl BbrModeState {
    /// The state of a flow that starts, or starts over, at time `now`.
    pub fn new(now: u64) -> (s: Self)
        requires
            now + PROBE_RTT_INTERVAL_NS <= u64::MAX,
        ensures
            s == initial_mode_state(now),
    {
        BbrModeState {
            mode: BbrMode::ProbeBw(ProbeBwPhase::Drain),
            min_rtt_us: INITIAL_MIN_RTT_US,
            min_rtt_timeout: now + PROBE_RTT_INTERVAL_NS,
            probe_bw_timer: now,
            probe_rtt_done_timestamp: None,
            probe_rtt_inflight_reached: false,
        }
    }

    /// Takes an RTT sample, in microseconds, at time `now`.
    pub fn update_min_rtt(&mut self, rtt_us: u32, now: u64)
        requires
            now + PROBE_RTT_INTERVAL_NS <= u64::MAX,
        ensures
            *final(self) == min_rtt_step(*old(self), rtt_us, now),
    {
        if rtt_us < self.min_rtt_us {
            self.min_rtt_us = rtt_us;
            self.min_rtt_timeout = now + PROBE_RTT_INTERVAL_NS;
        }
    }

    /// One step of `PROBE_BW` at time `now`.
    pub fn handle_probe_bw(&mut self, now: u64)
        ensures
            *final(self) == probe_bw_step(*old(self), now),
    {
        let min_rtt_ns: u64 = self.min_rtt_us as u64 * 1000;
        let time_in_state = elapsed_since(now, self.probe_bw_timer);
        match self.mode {
            BbrMode::ProbeBw(phase) => {
                let (threshold, next) = match phase {
                    ProbeBwPhase::Drain => (min_rtt_ns, ProbeBwPhase::Cruise),
                    ProbeBwPhase::Cruise => (min_rtt_ns * 2, ProbeBwPhase::Probe),
                    ProbeBwPhase::Probe => (min_rtt_ns * 8, ProbeBwPhase::Drain),
                };
                if time_in_state >= threshold {
                    self.mode = BbrMode::ProbeBw(next);
                    self.probe_bw_timer = now;
                }
            },
            BbrMode::ProbeRtt => {},
        }
        if now > self.min_rtt_timeout {
            self.mode = BbrMode::ProbeRtt;
            self.min_rtt_us = PROBE_RTT_MIN_RTT_US;
            self.probe_rtt_done_timestamp = None;
            self.probe_rtt_inflight_reached = false;
        }
    }

    /// One step of `PROBE_RTT` at time `now`, with the given packets in flight.
    pub fn handle_probe_rtt(&mut self, packets_in_flight: u32, now: u64)
        requires
            now + PROBE_RTT_INTERVAL_NS <= u64::MAX,
        ensures
            *final(self) == probe_rtt_step(*old(self), packets_in_flight, now),
    {
        if !self.probe_rtt_inflight_reached && packets_in_flight <= MIN_CWND_PACKETS {
            self.probe_rtt_inflight_reached = true;
            self.probe_rtt_done_timestamp = Some(now);
        }
        match self.probe_rtt_done_timestamp {
            Some(done_time) => {
                if elapsed_since(now, done_time) >= PROBE_RTT_DURATION_NS {
                    self.mode = BbrMode::ProbeBw(ProbeBwPhase::Drain);
                    self.probe_bw_timer = now;
                    self.min_rtt_timeout = now + PROBE_RTT_INTERVAL_NS;
                }
            },
            None => {},
        }
    }

    /// Reacts to an acknowledgement report at time `now`: takes its RTT sample, then
    /// steps the current mode.
    pub fn on_ack(&mut self, report: &Report, now: u64)
        requires
            now + PROBE_RTT_INTERVAL_NS <= u64::MAX,
        ensures
            *final(self) == ack_step(*old(self), *report, now),
    {
        self.update_min_rtt(report.rtt_sample_us, now);
        match self.mode {
            BbrMode::ProbeBw(_) => self.handle_probe_bw(now),
            BbrMode::ProbeRtt => self.handle_probe_rtt(report.packets_in_flight, now),
        }
    }
}

/// Law: the phases of `PROBE_BW` form a cycle of three, drain, cruise and probe, whose
/// durations are one, two and eight minimal RTTs.
pub proof fn law_probe_bw_phases_cycle(phase: ProbeBwPhase)
    ensures
        next_phase(next_phase(next_phase(phase))) == phase,
        next_phase(phase) != phase,
        next_phase(ProbeBwPhase::Drain) == ProbeBwPhase::Cruise,
        next_phase(ProbeBwPhase::Cruise) == ProbeBwPhase::Probe,
        next_phase(ProbeBwPhase::Probe) == ProbeBwPhase::Drain,
        phase_rtts(ProbeBwPhase::Drain) == 1,
        phase_rtts(ProbeBwPhase::Cruise) == 2,
        phase_rtts(ProbeBwPhase::Probe) == 8,
{
}

/// Law: the minimal-RTT estimate is the windowed minimum of the samples: a sample never
/// raises it, and only a smaller sample renews its expiry.
pub proof fn law_min_rtt_is_a_minimum(s: BbrModeState, rtt_us: u32, now: u64)
    ensures
        min_rtt_step(s, rtt_us, now).min_rtt_us == if rtt_us < s.min_rtt_us {
            rtt_us
        } else {
            s.min_rtt_us
        },
        min_rtt_step(s, rtt_us, now).mode == s.mode,
        rtt_us >= s.min_rtt_us ==> min_rtt_step(s, rtt_us, now) == s,
{
}

/// Law: a step of `PROBE_BW` either keeps the phase, moves to the next phase once the
/// current one has lasted its number of minimal RTTs, or enters `PROBE_RTT`, which it
/// does exactly when the minimal-RTT estimate has expired.
pub proof fn law_probe_bw_transitions(s: BbrModeState, phase: ProbeBwPhase, now: u64)
    requires
        s.mode == BbrMode::ProbeBw(phase),
    ensures
        probe_bw_step(s, now).mode == BbrMode::ProbeRtt <==> now > s.min_rtt_timeout,
        probe_bw_step(s, now).mode == BbrMode::ProbeBw(phase) || probe_bw_step(s, now).mode
            == BbrMode::ProbeBw(next_phase(phase)) || probe_bw_step(s, now).mode
            == BbrMode::ProbeRtt,
        probe_bw_step(s, now).mode == BbrMode::ProbeBw(next_phase(phase)) ==> elapsed(
            now,
            s.probe_bw_timer,
        ) >= phase_rtts(phase) * s.min_rtt_us * 1000,
{
}

/// Law: `PROBE_RTT` ends only in the drain phase of `PROBE_BW`, and only once the data in
/// flight has been low enough for `PROBE_RTT_DURATION_NS`; leaving it renews the
/// minimal-RTT estimate.
pub proof fn law_probe_rtt_lasts(s: BbrModeState, packets_in_flight: u32, now: u64)
    requires
        s.mode == BbrMode::ProbeRtt,
        now + PROBE_RTT_INTERVAL_NS <= u64::MAX,
    ensures
        probe_rtt_step(s, packets_in_flight, now).mode != BbrMode::ProbeRtt ==> {
            let t = probe_rtt_step(s, packets_in_flight, now);
            &&& t.mode == BbrMode::ProbeBw(ProbeBwPhase::Drain)
            &&& t.probe_rtt_done_timestamp matches Some(done) && elapsed(now, done)
                >= PROBE_RTT_DURATION_NS
            &&& t.min_rtt_timeout == now + PROBE_RTT_INTERVAL_NS
        },
{
}

/// The state after a sequence of acknowledgements, each a report and the time it came.
pub open spec fn run_acks(s: BbrModeState, acks: Seq<(Report, u64)>) -> BbrModeState
    decreases acks.len(),
{
    if acks.len() == 0 {
        s
    } else {
        ack_step(run_acks(s, acks.drop_last()), acks.last().0, acks.last().1)
    }
}

/// The report shows at most `MIN_CWND_PACKETS` packets in flight.
pub open spec fn low_inflight(report: Report) -> bool {
    report.packets_in_flight <= MIN_CWND_PACKETS
}

/// A flow that has just entered `PROBE_RTT`.
pub open spec fn fresh_probe_rtt(s: BbrModeState) -> bool {
    &&& s.mode == BbrMode::ProbeRtt
    &&& s.probe_rtt_done_timestamp is None
    &&& !s.probe_rtt_inflight_reached
}

proof fn lemma_probe_rtt_prefix(s: BbrModeState, acks: Seq<(Report, u64)>, k: int)
    requires
        fresh_probe_rtt(s),
        0 <= k <= acks.len(),
        forall|i: int| 0 <= i <= k ==> #[trigger] run_acks(s, acks.take(i)).mode == BbrMode::ProbeRtt,
    ensures
        !run_acks(s, acks.take(k)).probe_rtt_inflight_reached ==> {
            &&& run_acks(s, acks.take(k)).probe_rtt_done_timestamp is None
            &&& forall|i: int| 0 <= i < k ==> !low_inflight(#[trigger] acks[i].0)
        },
        run_acks(s, acks.take(k)).probe_rtt_inflight_reached ==> exists|j: int|
            0 <= j < k && low_inflight(#[trigger] acks[j].0) && (forall|i: int|
                0 <= i < j ==> !low_inflight(#[trigger] acks[i].0))
                && run_acks(s, acks.take(k)).probe_rtt_done_timestamp == Some(acks[j].1),
    decreases k,
{
    if k == 0 {
        assert(acks.take(0) =~= Seq::<(Report, u64)>::empty());
    } else {
        lemma_probe_rtt_prefix(s, acks, k - 1);
        assert(acks.take(k).drop_last() =~= acks.take(k - 1));
        assert(acks.take(k).last() == acks[k - 1]);
        let prev = run_acks(s, acks.take(k - 1));
        assert(prev.mode == BbrMode::ProbeRtt);
        let t = run_acks(s, acks.take(k));
        assert(t == ack_step(prev, acks[k - 1].0, acks[k - 1].1));
        if !prev.probe_rtt_inflight_reached && low_inflight(acks[k - 1].0) {
            assert(t.probe_rtt_done_timestamp == Some(acks[k - 1].1));
            assert(forall|i: int| 0 <= i < k - 1 ==> !low_inflight(#[trigger] acks[i].0));
        }
    }
}

/// Law: over a run of acknowledgements that starts just after the flow entered
/// `PROBE_RTT`, the flow leaves `PROBE_RTT` only once `PROBE_RTT_DURATION_NS` have passed
/// since the first acknowledgement with at most `MIN_CWND_PACKETS` packets in flight.
pub proof fn law_probe_rtt_lasts_over_acks(s: BbrModeState, acks: Seq<(Report, u64)>)
    requires
        fresh_probe_rtt(s),
        acks.len() > 0,
        forall|i: int|
            0 <= i < acks.len() ==> #[trigger] run_acks(s, acks.take(i)).mode == BbrMode::ProbeRtt,
        run_acks(s, acks).mode != BbrMode::ProbeRtt,
    ensures
        exists|j: int|
            0 <= j < acks.len() && low_inflight(#[trigger] acks[j].0) && (forall|i: int|
                0 <= i < j ==> !low_inflight(#[trigger] acks[i].0)) && acks.last().1 >= acks[j].1
                + PROBE_RTT_DURATION_NS,
{
    let n = acks.len() - 1;
    lemma_probe_rtt_prefix(s, acks, n);
    assert(acks.drop_last() =~= acks.take(n));
    let prev = run_acks(s, acks.take(n));
    assert(prev.mode == BbrMode::ProbeRtt);
    let (r, now) = acks.last();
    assert(run_acks(s, acks) == ack_step(prev, r, now));
    if !prev.probe_rtt_inflight_reached {
        assert(prev.probe_rtt_done_timestamp is None);
    }
    assert(prev.probe_rtt_inflight_reached);
    let j = choose|j: int|
        0 <= j < n && low_inflight(#[trigger] acks[j].0) && (forall|i: int|
            0 <= i < j ==> !low_inflight(#[trigger] acks[i].0)) && prev.probe_rtt_done_timestamp
            == Some(acks[j].1);
    assert(now >= acks[j].1 + PROBE_RTT_DURATION_NS);
}

proof fn lemma_probe_rtt_waits(s: BbrModeState, acks: Seq<(Report, u64)>, j: int, k: int, i: int)
    requires
        fresh_probe_rtt(s),
        0 <= j < k < acks.len(),
        low_inflight(acks[j].0),
        forall|a: int| 0 <= a < j ==> !low_inflight(#[trigger] acks[a].0),
        forall|a: int| j <= a < k ==> #[trigger] acks[a].1 < acks[j].1 + PROBE_RTT_DURATION_NS,
        0 <= i <= k,
    ensures
        run_acks(s, acks.take(i)).mode == BbrMode::ProbeRtt,
        i <= j ==> !run_acks(s, acks.take(i)).probe_rtt_inflight_reached
            && run_acks(s, acks.take(i)).probe_rtt_done_timestamp is None,
        i > j ==> run_acks(s, acks.take(i)).probe_rtt_inflight_reached
            && run_acks(s, acks.take(i)).probe_rtt_done_timestamp == Some(acks[j].1),
    decreases i,
{
    if i == 0 {
        assert(acks.take(0) =~= Seq::<(Report, u64)>::empty());
    } else {
        lemma_probe_rtt_waits(s, acks, j, k, i - 1);
        assert(acks.take(i).drop_last() =~= acks.take(i - 1));
        assert(acks.take(i).last() == acks[i - 1]);
        let prev = run_acks(s, acks.take(i - 1));
        assert(run_acks(s, acks.take(i)) == ack_step(prev, acks[i - 1].0, acks[i - 1].1));
        if i - 1 > j {
            assert(acks[i - 1].1 < acks[j].1 + PROBE_RTT_DURATION_NS);
        }
    }
}

/// Law: over a run of acknowledgements that starts just after the flow entered
/// `PROBE_RTT`, let acknowledgement `j` be the first with at most `MIN_CWND_PACKETS` packets
/// in flight, and acknowledgement `k` the first after it that comes
/// `PROBE_RTT_DURATION_NS` or more after it. Then the flow stays in `PROBE_RTT` through
/// every acknowledgement before `k`, and acknowledgement `k` returns it to the drain phase
/// of `PROBE_BW`.
pub proof fn law_probe_rtt_exits_on_time(s: BbrModeState, acks: Seq<(Report, u64)>, j: int, k: int)
    requires
        fresh_probe_rtt(s),
        0 <= j < k < acks.len(),
        low_inflight(acks[j].0),
        forall|a: int| 0 <= a < j ==> !low_inflight(#[trigger] acks[a].0),
        forall|a: int| j <= a < k ==> #[trigger] acks[a].1 < acks[j].1 + PROBE_RTT_DURATION_NS,
        acks[k].1 >= acks[j].1 + PROBE_RTT_DURATION_NS,
    ensures
        forall|i: int|
            0 <= i <= k ==> #[trigger] run_acks(s, acks.take(i)).mode == BbrMode::ProbeRtt,
        run_acks(s, acks.take(k + 1)).mode == BbrMode::ProbeBw(ProbeBwPhase::Drain),
{
    assert forall|i: int| 0 <= i <= k implies #[trigger] run_acks(s, acks.take(i)).mode
        == BbrMode::ProbeRtt by {
        lemma_probe_rtt_waits(s, acks, j, k, i);
    }
    lemma_probe_rtt_waits(s, acks, j, k, k);
    assert(acks.take(k + 1).drop_last() =~= acks.take(k));
    assert(acks.take(k + 1).last() == acks[k]);
    let prev = run_acks(s, acks.take(k));
    assert(run_acks(s, acks.take(k + 1)) == ack_step(prev, acks[k].0, acks[k].1));
}

proof fn lemma_probe_rtt_holds_without_low(s: BbrModeState, acks: Seq<(Report, u64)>, i: int)
    requires
        fresh_probe_rtt(s),
        forall|a: int| 0 <= a < acks.len() ==> !low_inflight(#[trigger] acks[a].0),
        0 <= i <= acks.len(),
    ensures
        fresh_probe_rtt(run_acks(s, acks.take(i))),
    decreases i,
{
    if i == 0 {
        assert(acks.take(0) =~= Seq::<(Report, u64)>::empty());
    } else {
        lemma_probe_rtt_holds_without_low(s, acks, i - 1);
        assert(acks.take(i).drop_last() =~= acks.take(i - 1));
        assert(acks.take(i).last() == acks[i - 1]);
    }
}

/// Law: a flow that has just entered `PROBE_RTT` stays there through any run of
/// acknowledgements none of which shows at most `MIN_CWND_PACKETS` packets in flight.
pub proof fn law_probe_rtt_needs_low_inflight(s: BbrModeState, acks: Seq<(Report, u64)>)
    requires
        fresh_probe_rtt(s),
        forall|a: int| 0 <= a < acks.len() ==> !low_inflight(#[trigger] acks[a].0),
    ensures
        forall|i: int|
            0 <= i <= acks.len() ==> #[trigger] run_acks(s, acks.take(i)).mode == BbrMode::ProbeRtt,
{
    assert forall|i: int| 0 <= i <= acks.len() implies #[trigger] run_acks(s, acks.take(i)).mode
        == BbrMode::ProbeRtt by {
        lemma_probe_rtt_holds_without_low(s, acks, i);
    }
}

/// Law: a `PROBE_BW` step whose minimal-RTT estimate has expired always enters a fresh
/// `PROBE_RTT`: no in-flight target reached yet, no completion time, and an estimate that
/// any sample will replace. Before expiry the step never touches the estimate or the
/// `PROBE_RTT` bookkeeping; it advances the phase, restarting its timer, exactly when the
/// phase has lasted its number of minimal RTTs, and otherwise changes nothing.
pub proof fn law_probe_bw_step_by_inputs(s: BbrModeState, phase: ProbeBwPhase, now: u64)
    requires
        s.mode == BbrMode::ProbeBw(phase),
    ensures
        now > s.min_rtt_timeout ==> probe_bw_step(s, now).mode == BbrMode::ProbeRtt,
        now > s.min_rtt_timeout ==> (probe_bw_step(s, now).probe_rtt_done_timestamp is None),
        now > s.min_rtt_timeout ==> !probe_bw_step(s, now).probe_rtt_inflight_reached,
        now > s.min_rtt_timeout ==> probe_bw_step(s, now).min_rtt_us == PROBE_RTT_MIN_RTT_US,
        now > s.min_rtt_timeout ==> probe_bw_step(s, now).min_rtt_timeout == s.min_rtt_timeout,
        now <= s.min_rtt_timeout && (if now >= s.probe_bw_timer {
            now - s.probe_bw_timer
        } else {
            0
        }) < phase_rtts(phase) * s.min_rtt_us * 1000 ==> probe_bw_step(s, now) == s,
        now <= s.min_rtt_timeout && (if now >= s.probe_bw_timer {
            now - s.probe_bw_timer
        } else {
            0
        }) >= phase_rtts(phase) * s.min_rtt_us * 1000 ==> probe_bw_step(s, now) == (BbrModeState {
            mode: BbrMode::ProbeBw(next_phase(phase)),
            probe_bw_timer: now,
            ..s
        }),
{
}

/// Law: an acknowledgement in `PROBE_BW` that moves the flow into `PROBE_RTT` leaves it in
/// a fresh `PROBE_RTT`, so the exit laws apply to every entry, not only the first.
pub proof fn law_ack_enters_fresh_probe_rtt(
    s: BbrModeState,
    phase: ProbeBwPhase,
    report: Report,
    now: u64,
)
    requires
        s.mode == BbrMode::ProbeBw(phase),
        ack_step(s, report, now).mode == BbrMode::ProbeRtt,
    ensures
        ack_step(s, report, now).probe_rtt_done_timestamp is None,
        !ack_step(s, report, now).probe_rtt_inflight_reached,
        ack_step(s, report, now).min_rtt_us == PROBE_RTT_MIN_RTT_US,
{
    law_probe_bw_step_by_inputs(min_rtt_step(s, report.rtt_sample_us, now), phase, now);
}

/// Law: a `PROBE_RTT` step never changes the minimal-RTT estimate, also on the step that
/// leaves `PROBE_RTT`; it notes the time of the first step with at most
/// `MIN_CWND_PACKETS` packets in flight and keeps that time afterwards; and it touches the
/// phase timer and the estimate's expiry only when it leaves.
pub proof fn law_probe_rtt_step_by_inputs(s: BbrModeState, packets_in_flight: u32, now: u64)
    requires
        s.mode == BbrMode::ProbeRtt,
    ensures
        probe_rtt_step(s, packets_in_flight, now).min_rtt_us == s.min_rtt_us,
        !s.probe_rtt_inflight_reached && packets_in_flight <= MIN_CWND_PACKETS ==> {
            &&& probe_rtt_step(s, packets_in_flight, now).probe_rtt_inflight_reached
            &&& probe_rtt_step(s, packets_in_flight, now).probe_rtt_done_timestamp == Some(now)
        },
        s.probe_rtt_inflight_reached ==> probe_rtt_step(
            s,
            packets_in_flight,
            now,
        ).probe_rtt_done_timestamp == s.probe_rtt_done_timestamp,
        !s.probe_rtt_inflight_reached && packets_in_flight > MIN_CWND_PACKETS ==> probe_rtt_step(
            s,
            packets_in_flight,
            now,
        ).probe_rtt_done_timestamp == s.probe_rtt_done_timestamp,
        probe_rtt_step(s, packets_in_flight, now).mode == BbrMode::ProbeRtt ==> {
            &&& probe_rtt_step(s, packets_in_flight, now).probe_bw_timer == s.probe_bw_timer
            &&& probe_rtt_step(s, packets_in_flight, now).min_rtt_timeout == s.min_rtt_timeout
        },
        probe_rtt_step(s, packets_in_flight, now).mode != BbrMode::ProbeRtt ==> {
            &&& probe_rtt_step(s, packets_in_flight, now).mode == BbrMode::ProbeBw(
                ProbeBwPhase::Drain,
            )
            &&& probe_rtt_step(s, packets_in_flight, now).probe_bw_timer == now
            &&& probe_rtt_step(s, packets_in_flight, now).min_rtt_timeout == (now
                + PROBE_RTT_INTERVAL_NS) as u64
        },
{
}

/// Law: an acknowledgement in `PROBE_RTT` keeps the smaller of the estimate and the
/// sample, also when it ends `PROBE_RTT`.
pub proof fn law_ack_in_probe_rtt_keeps_min_rtt(s: BbrModeState, report: Report, now: u64)
    requires
        s.mode == BbrMode::ProbeRtt,
    ensures
        ack_step(s, report, now).min_rtt_us == if report.rtt_sample_us < s.min_rtt_us {
            report.rtt_sample_us
        } else {
            s.min_rtt_us
        },
{
    law_probe_rtt_step_by_inputs(
        min_rtt_step(s, report.rtt_sample_us, now),
        report.packets_in_flight,
        now,
    );
}

/// Law: a flow starts, or starts over, in the drain phase of `PROBE_BW` with its phase
/// timer at the start, an assumed minimal RTT of one second that expires ten seconds
/// later, and no `PROBE_RTT` bookkeeping; an RTT sample below the estimate replaces it
/// and renews its expiry to ten seconds after the sample.
pub proof fn law_start_and_samples(s: BbrModeState, rtt_us: u32, now: u64)
    requires
        now + 10_000_000_000 <= u64::MAX,
    ensures
        initial_mode_state(now).mode == BbrMode::ProbeBw(ProbeBwPhase::Drain),
        initial_mode_state(now).min_rtt_us == 1_000_000,
        initial_mode_state(now).min_rtt_timeout == now + 10_000_000_000,
        initial_mode_state(now).probe_bw_timer == now,
        initial_mode_state(now).probe_rtt_done_timestamp is None,
        !initial_mode_state(now).probe_rtt_inflight_reached,
        rtt_us < s.min_rtt_us ==> min_rtt_step(s, rtt_us, now) == (BbrModeState {
            min_rtt_us: rtt_us,
            min_rtt_timeout: (now + 10_000_000_000) as u64,
            ..s
        }),
{
}

} // verus!
