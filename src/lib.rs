//! Change watcher for a polled table: row-level diffing of snapshots,
//! notification composition, alert throttling and the poll-cycle state machine.
pub mod cell;
pub mod diff;
pub mod error;
pub mod ids;
pub mod lookup;
pub mod message;
pub mod monitor;
pub mod throttle;
