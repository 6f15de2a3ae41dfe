//! Idle-management daemon library: power-profile configuration, power-source
//! classification, idle-command construction, and the supervisor's decision
//! logic. All I/O (config file, sysfs probes, process control) lives outside
//! this crate; the functions here are pure decisions over plain values.

pub mod command;
pub mod config;
pub mod power;
pub mod supervisor;
