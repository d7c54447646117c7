//! Shared, read-only access to the capabilities of the current terminal, as
//! reported by a capability database that keeps one global cursor.
//!
//! - `capability`: capability codes, and how a raw answer of the database
//!   becomes a typed value.
//! - `term`: the snapshot of the capabilities the application cares about.
//! - `slot`: the current-terminal slot that a setup fills and a reset clears.
pub mod capability;
pub mod slot;
pub mod term;

pub use capability::{CapString, Code, FlagCap, NumberCap, StringCap};
pub use slot::Slot;
pub use term::{Answers, Queries, Term};
