# trafik

Control-plane logic for congestion-control algorithms that run against an eBPF
datapath, verified with Verus.

- `src/ir/`: the intermediate representation of congestion-control programs and
  the placement analysis (user-only weight, user/kernel boundary crossings).
- `src/runtime.rs`: the traits an algorithm implements and the measurement report.
- `src/runner.rs`: the per-flow state machine that turns datapath events into
  algorithm calls and window updates.
- `src/algorithms.rs`: the registry of algorithms and the runner interface.
- `src/bbr.rs`: BBR's mode and timer logic (`PROBE_BW` phases, `PROBE_RTT`).
- `app/`: the command-line program, and the floating-point parts of Reno and BBR.
