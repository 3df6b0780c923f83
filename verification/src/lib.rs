//! Verified core of a terminal dashboard for cluster workloads: the UI state
//! machine, the fuzzy search engine, the watch cache, and the event-queue
//! draining rules, each with a contract.

pub mod actions;
pub mod app;
pub mod event;
pub mod fuzzy;
pub mod input;
pub mod text;
pub mod types;
pub mod watch;

use vstd::prelude::*;

verus! {

/// The fixed height, in lines, of the detail and log content areas; jumping
/// to the bottom scrolls to the last full window of this size.
pub const VISIBLE_WINDOW: u16 = 10;

} // verus!
