//! Telemetry bootstrap for a service: from one declarative [`Config`] it wires
//! up logging, distributed tracing and metrics, fans log records out to a
//! local console sink and to a remote collector, and owns the lifecycle of
//! the exporters it builds.
//!
//! - [`config`]: the configuration, and the collector address it may name.
//! - [`common`]: the resource tags that identify the service.
//! - [`exporter`]: the factory that builds the exporter of a signal on the
//!   transport that the collector's scheme selects.
//! - [`log`], [`trace`], [`metrics`]: the provider of each signal.
//! - [`session`]: the providers composed into one handle, the slot that
//!   holds the one session of a process, and the ordered teardown.
//! - [`runtime`]: the asynchronous runtime that the remote pipelines need.
//! - [`options`]: the options from which a collector address is assembled.
//! - [`error`]: what can go wrong while a session is built.
//!
//! What is stated of the crates underneath (the URL parser, the logging and
//! tracing facades, the OpenTelemetry SDK and its OTLP exporters) is
//! believed, not proved: each such statement stands in the doc comment of
//! the function that makes the call.
pub mod common;
pub mod config;
pub mod error;
pub mod exporter;
pub mod log;
pub mod metrics;
pub mod options;
pub mod runtime;
pub mod session;
pub mod trace;

pub use config::Config;
pub use error::Error;
pub use session::{init, Session};
