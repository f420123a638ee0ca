//! Telemetry-to-graph engine: classifies log lines into graph events,
//! maintains a directed concept graph, and drives a monitoring session.
pub mod text;
pub mod telemetry;
pub mod graph;
pub mod session;
