//! Aggregated payment metrics over pluggable analytics stores.
//!
//! The library builds backend-agnostic aggregation queries (select columns,
//! conjunctive filters, group-by clauses), hands them to a backend adapter
//! for execution, and reassembles the raw rows into results keyed by a
//! dimension + time-bucket identifier, clamping every time bucket to the
//! caller's requested range.

pub mod memory;
pub mod metrics;
pub mod query;
pub mod types;
