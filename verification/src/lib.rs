//! Core logic of a host-local activity monitor.
//!
//! The crate verifies the event-sensing and correlation engine of the
//! monitor: classification of global keyboard and mouse events with their
//! shutdown coordination, the hook-registration state machine, resolution of
//! a process id to a displayable application name, and the TCP connection
//! tracker with its snapshot-diffing algorithm.  Everything that touches the
//! operating system (hook installation, process queries, accessibility
//! probes, the connection-table enumeration, the clock and the log sink)
//! lives outside this crate and hands plain values in and out.

use vstd::prelude::*;

pub mod hooks;
pub mod network;
pub mod resolver;
pub mod text;

verus! {

} // verus!
