//! Core of a request-logging interceptor for an HTTP server pipeline.
//!
//! For every request that reaches it while logging is enabled, the
//! interceptor times the rest of the pipeline and produces one access-log
//! line in Common Log Format, with an optional latency suffix. This crate
//! holds the decisions and the text; the host performs the effects (reading
//! the clock, running the pipeline, writing to the sink) as `lifecycle`
//! tells it to.

pub mod config;
pub mod decimal;
pub mod duration;
pub mod lifecycle;
pub mod line;
pub mod timestamp;
