//! Congestion-control support library: a small intermediate representation
//! for congestion-control programs with a placement analysis, the per-flow
//! state machine that drives a congestion-control algorithm from datapath
//! events, the registry of known algorithms, and the timer/mode logic of BBR.
pub mod ir;
pub mod runtime;
pub mod datapath;
pub mod algorithms;
pub mod runner;
pub mod bbr;
