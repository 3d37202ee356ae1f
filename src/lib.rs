//! An active HTTP health monitor: each check keeps a bounded fail count that
//! moves by one per probe outcome, and its health is derived from that count.
pub mod check;
pub mod laws;
pub mod probe;
pub mod registry;
pub mod report;
pub mod schedule;
