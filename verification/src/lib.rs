//! `wat` tells you what's up with the machine: it runs a set of system probes
//! (power, thermal pressure, disk, audio, network, pings, ...) and shows one
//! status line per probe.
//!
//! This library holds the decisions behind those lines: which probes run,
//! how each probe's raw output becomes a message, and how the command line is
//! resolved. Running the probes themselves is left to the program around it.

pub mod options;
pub mod pattern;
pub mod plan;
pub mod probes;
pub mod sshping;
pub mod style;
pub mod tailscale;
pub mod text;
