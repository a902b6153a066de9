//! A diagnostics engine for a desktop system monitor: it answers why a
//! process is stuck or misbehaving.
//!
//! The engine infers what it cannot see. It classifies the host's answers
//! to signals ([`kernel`]), judges how a process responds to a round of
//! diagnostic signals ([`responsiveness`]), scores deadlock hypotheses from
//! the evidence at hand ([`deadlock`], [`analyzer`]), reads what the host's
//! sampling tools print ([`sampler`]), folds stack samples into flame graphs
//! ([`flame_graph`]) and bounds its own footprint ([`throttle`]).
//!
//! The library sends no signal and runs no tool. Its caller does, and hands
//! over what it saw as plain values; every decision on those values is made
//! here, under a contract that is proved.
//! Confidence is counted in hundredths, CPU usage in thousandths of a
//! percent, shares in hundredths of a percent and time in milliseconds, so
//! that every threshold is exact.

pub mod analyzer;
pub mod bandwidth;
pub mod clock;
pub mod connections;
pub mod deadlock;
pub mod flame_graph;
pub mod flame_tree;
pub mod gauges;
pub mod hosts;
pub mod kernel;
pub mod limiter;
pub mod listing;
pub mod network;
pub mod numeric;
pub mod pid_cache;
pub mod platform;
pub mod process_details;
pub mod process_table;
pub mod responsiveness;
pub mod sampler;
pub mod split;
pub mod sums;
pub mod text;
pub mod throttle;
