//! A line tee with a live, reconfigurable regular-expression filter.
//!
//! The library holds the decisions of the server: which lines are echoed and
//! which are forwarded to the sink, how control commands change the filter and
//! the sink, and what a query answers. The event loop, the terminals and the
//! control channel itself live with the caller.
use vstd::prelude::*;

pub mod filter;
pub mod server;
pub mod channel;
pub mod laws;
