//! A deterministic discrete-event network simulator for evaluating
//! congestion-control algorithms on small synthetic topologies, together
//! with the NDD congestion-control algorithm it was built to study.

pub mod acker;
pub mod base;
pub mod delay;
pub mod fixedpoint;
pub mod interval;
pub mod link;
pub mod metrics;
pub mod ndd;
pub mod ndd_slow;
pub mod ndd_time_belief;
pub mod rational;
pub mod router;
pub mod rtt_window;
pub mod sim;
pub mod subseq;
pub mod time;
pub mod transport;
