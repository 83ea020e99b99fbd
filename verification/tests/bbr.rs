use trafik::bbr::{
    BbrMode, BbrModeState, ProbeBwPhase, INITIAL_MIN_RTT_US, PROBE_RTT_INTERVAL_NS,
    PROBE_RTT_MIN_RTT_US,
};
use trafik::runtime::{FlowKey, Report};

fn report(rtt_sample_us: u32, packets_in_flight: u32) -> Report {
    Report {
        flow_key: FlowKey { saddr: 1, daddr: 2, sport: 3, dport: 4 },
        packets_in_flight,
        bytes_in_flight: 0,
        bytes_pending: 0,
        rtt_sample_us,
        was_timeout: false,
        bytes_acked: 1000,
        packets_acked: 1,
        bytes_misordered: 0,
        packets_misordered: 0,
        ecn_bytes: 0,
        ecn_packets: 0,
        lost_pkts_sample: 0,
        rate_incoming: 0,
        rate_outgoing: 0,
        snd_cwnd: 0,
        snd_ssthresh: 0,
        pacing_rate: 0,
        ca_state: 0,
        now: 0,
    }
}

const MS: u64 = 1_000_000;

#[test]
fn new_flow_starts_draining() {
    let s = BbrModeState::new(5);
    assert_eq!(s.mode, BbrMode::ProbeBw(ProbeBwPhase::Drain));
    assert_eq!(s.min_rtt_us, INITIAL_MIN_RTT_US);
    assert_eq!(s.min_rtt_timeout, 5 + PROBE_RTT_INTERVAL_NS);
    assert_eq!(s.probe_bw_timer, 5);
    assert_eq!(s.probe_rtt_done_timestamp, None);
    assert!(!s.probe_rtt_inflight_reached);
}

#[test]
fn min_rtt_only_falls() {
    let mut s = BbrModeState::new(0);
    s.update_min_rtt(2_000_000, 10);
    assert_eq!(s.min_rtt_us, 1_000_000);
    assert_eq!(s.min_rtt_timeout, PROBE_RTT_INTERVAL_NS);
    s.update_min_rtt(40_000, 10);
    assert_eq!(s.min_rtt_us, 40_000);
    assert_eq!(s.min_rtt_timeout, 10 + PROBE_RTT_INTERVAL_NS);
    s.update_min_rtt(40_000, 20);
    assert_eq!(s.min_rtt_timeout, 10 + PROBE_RTT_INTERVAL_NS);
}

#[test]
fn probe_bw_phases_follow_min_rtt_multiples() {
    let mut s = BbrModeState::new(0);
    s.update_min_rtt(10_000, 0); // 10 ms
    s.handle_probe_bw(9 * MS);
    assert_eq!(s.mode, BbrMode::ProbeBw(ProbeBwPhase::Drain));
    s.handle_probe_bw(10 * MS);
    assert_eq!(s.mode, BbrMode::ProbeBw(ProbeBwPhase::Cruise));
    assert_eq!(s.probe_bw_timer, 10 * MS);
    s.handle_probe_bw(29 * MS);
    assert_eq!(s.mode, BbrMode::ProbeBw(ProbeBwPhase::Cruise));
    s.handle_probe_bw(30 * MS);
    assert_eq!(s.mode, BbrMode::ProbeBw(ProbeBwPhase::Probe));
    s.handle_probe_bw(109 * MS);
    assert_eq!(s.mode, BbrMode::ProbeBw(ProbeBwPhase::Probe));
    s.handle_probe_bw(110 * MS);
    assert_eq!(s.mode, BbrMode::ProbeBw(ProbeBwPhase::Drain));
}

#[test]
fn expired_min_rtt_enters_probe_rtt_and_leaves_after_duration() {
    let mut s = BbrModeState::new(0);
    s.update_min_rtt(10_000, 0);
    let t = PROBE_RTT_INTERVAL_NS + 1;
    s.handle_probe_bw(t);
    assert_eq!(s.mode, BbrMode::ProbeRtt);
    assert_eq!(s.min_rtt_us, PROBE_RTT_MIN_RTT_US);
    assert_eq!(s.probe_rtt_done_timestamp, None);

    // Too much in flight: nothing happens.
    s.handle_probe_rtt(5, t + MS);
    assert_eq!(s.mode, BbrMode::ProbeRtt);
    assert!(!s.probe_rtt_inflight_reached);

    s.handle_probe_rtt(4, t + 2 * MS);
    assert!(s.probe_rtt_inflight_reached);
    assert_eq!(s.probe_rtt_done_timestamp, Some(t + 2 * MS));
    assert_eq!(s.mode, BbrMode::ProbeRtt);

    s.handle_probe_rtt(100, t + 201 * MS);
    assert_eq!(s.mode, BbrMode::ProbeRtt);
    s.handle_probe_rtt(100, t + 202 * MS);
    assert_eq!(s.mode, BbrMode::ProbeBw(ProbeBwPhase::Drain));
    assert_eq!(s.probe_bw_timer, t + 202 * MS);
    assert_eq!(s.min_rtt_timeout, t + 202 * MS + PROBE_RTT_INTERVAL_NS);
}

#[test]
fn ack_takes_sample_then_steps_mode() {
    let mut s = BbrModeState::new(0);
    s.on_ack(&report(20_000, 10), 20 * MS);
    assert_eq!(s.min_rtt_us, 20_000);
    assert_eq!(s.mode, BbrMode::ProbeBw(ProbeBwPhase::Cruise));
    assert_eq!(s.probe_bw_timer, 20 * MS);
}

#[test]
fn ack_in_probe_rtt_samples_rtt() {
    let mut s = BbrModeState::new(0);
    s.handle_probe_bw(PROBE_RTT_INTERVAL_NS + 1);
    assert_eq!(s.mode, BbrMode::ProbeRtt);
    s.on_ack(&report(30_000, 3), PROBE_RTT_INTERVAL_NS + 2);
    assert_eq!(s.min_rtt_us, 30_000);
    assert_eq!(s.probe_rtt_done_timestamp, Some(PROBE_RTT_INTERVAL_NS + 2));
}

#[test]
fn probe_rtt_lasts_from_first_low_ack() {
    let mut s = BbrModeState::new(0);
    let t = PROBE_RTT_INTERVAL_NS + 1;
    s.handle_probe_bw(t);
    assert_eq!(s.mode, BbrMode::ProbeRtt);
    s.on_ack(&report(10_000, 9), t + MS);
    s.on_ack(&report(10_000, 2), t + 5 * MS);
    s.on_ack(&report(10_000, 1), t + 100 * MS);
    assert_eq!(s.probe_rtt_done_timestamp, Some(t + 5 * MS));
    s.on_ack(&report(10_000, 50), t + 204 * MS);
    assert_eq!(s.mode, BbrMode::ProbeRtt);
    s.on_ack(&report(10_000, 50), t + 205 * MS);
    assert_eq!(s.mode, BbrMode::ProbeBw(ProbeBwPhase::Drain));
}

#[test]
fn probe_rtt_holds_while_inflight_stays_high() {
    let mut s = BbrModeState::new(0);
    let t = PROBE_RTT_INTERVAL_NS + 1;
    s.handle_probe_bw(t);
    for k in 1..20u64 {
        s.on_ack(&report(10_000, 5), t + k * 100 * MS);
        assert_eq!(s.mode, BbrMode::ProbeRtt);
        assert_eq!(s.probe_rtt_done_timestamp, None);
    }
}
