//! A single-writer event-log aggregator. Concurrent producers enqueue `Log`
//! and `Flush` commands; one consumer applies them in arrival order to an
//! append-only, newline-delimited log file. The aggregator's transition
//! relation, the line format, and the ordering, flush-counting and
//! durability guarantees are stated as contracts and proved; the
//! surrounding process (HTTP ingestion, the periodic flush ticker, the file
//! handle itself) carries the returned actions out.

pub mod aggregator;
pub mod laws;
pub mod record;
