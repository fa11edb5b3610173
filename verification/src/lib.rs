//! A Fibonacci service whose every request is traced and counted.
//!
//! - `fib`: the numbers and the bounded iteration that computes them.
//! - `response`: the answer to a request and the fields of its body.
//! - `telemetry`: the tracer and the counter, and a recorder that keeps a
//!   journal of what it asks of them.
//! - `handler`: the instrumented request handler.
//! - `resource`: the resource that describes the process, merged in layers.
//! - `exporter`: the exporter configurations of the two pipelines.
//! - `lifecycle`: the order of startup, serving and shutdown.

pub mod exporter;
pub mod fib;
pub mod handler;
pub mod lifecycle;
pub mod resource;
pub mod response;
pub mod telemetry;
