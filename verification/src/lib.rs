//! Span instrumentation for a relational database connection.
//!
//! The crate holds the decisions of an instrumented connection: which span
//! an operation opens, which attributes the span carries, how the outcome of
//! the delegated call is recorded on it, and how a connection is brought up
//! together with the metadata that every later span is tagged with. Talking
//! to the database and handing spans to a telemetry backend is left to the
//! caller, who passes the driver's calls in as functions.

pub mod address;
pub mod error;
pub mod metadata;
pub mod span;
pub mod pg;
pub mod bootstrap;
