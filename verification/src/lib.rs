//! Benchmark sweep orchestration.
//!
//! This library is the decision core of a block-device benchmark
//! runner: it enumerates the configured workload points in their
//! fixed order, sizes the host's huge-page pool for the sweep's worst
//! case, plans every host mutation — module loads, simulated-device
//! instantiation, scheduler and CPU tuning — as exact command and
//! control-file sequences, builds the external benchmark invocation
//! for each point, and sequences setup, measurement and teardown so
//! that teardown runs even when a measurement fails. Every function
//! carries a machine-checked contract; the surrounding application
//! performs the planned input/output and reports outcomes back.

pub mod bytesize;
pub mod command;
pub mod config;
pub mod errors;
pub mod fioargs;
pub mod hugepages;
pub mod lifecycle;
pub mod outdir;
pub mod remote;
pub mod strnum;
pub mod sweep;
pub mod sysstate;
