//! A small system-monitoring core: it samples the operating system's state
//! (processes, disks, memory, swap, network counters, CPU load) and shapes
//! the raw counters into stable response records behind a five-command
//! interface. Every call obtains its own fresh snapshot; the one write the
//! core can perform is the kill signal.
pub mod commands;
pub mod disk;
pub mod magnitude;
pub mod metrics;
pub mod order;
pub mod probe;
pub mod process;
