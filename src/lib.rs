//! Live last-known prices per trading symbol, fed by a stream of tick events
//! and read out as periodic snapshots.

pub mod ingest;
pub mod laws;
pub mod report;
pub mod store;
pub mod symbols;
pub mod tick;
