//! The errors that building a session can raise.
use vstd::prelude::*;

verus! {

#[verifier::external_type_specification]
#[verifier::external_body]
pub struct ExParseError(url::ParseError);

#[verifier::external_type_specification]
#[verifier::external_body]
pub struct ExSetLoggerError(log::SetLoggerError);

#[verifier::external_type_specification]
#[verifier::external_body]
pub struct ExLogError(opentelemetry_sdk::logs::LogError);

#[verifier::external_type_specification]
#[verifier::external_body]
pub struct ExTraceError(opentelemetry::trace::TraceError);

#[verifier::external_type_specification]
#[verifier::external_body]
pub struct ExMetricError(opentelemetry_sdk::metrics::MetricError);

#[verifier::external_type_specification]
#[verifier::external_body]
pub struct ExTryInitError(tracing_subscriber::util::TryInitError);

#[verifier::external_type_specification]
#[verifier::external_body]
pub struct ExTryCurrentError(tokio::runtime::TryCurrentError);

/// Why a session could not be built.
#[derive(Debug)]
pub enum Error {
    /// The collector URI is not an absolute URL.
    InvalidUrl(url::ParseError),
    /// The collector URI parses, but its scheme selects no transport.
    UnsupportedUrlScheme(String),
    /// A process-wide log sink was already installed.
    SetLoggerError(log::SetLoggerError),
    /// The log exporter could not be built.
    OtelLog(opentelemetry_sdk::logs::LogError),
    /// The span exporter could not be built.
    OtelTrace(opentelemetry::trace::TraceError),
    /// The metric exporter could not be built.
    OtelMetric(opentelemetry_sdk::metrics::MetricError),
    /// A process-wide tracing subscriber was already installed.
    SetSubscriberError(tracing_subscriber::util::TryInitError),
    /// A collector is configured, but no asynchronous runtime is running to
    /// carry the background flush tasks.
    NoRuntime(tokio::runtime::TryCurrentError),
    /// A collector is configured, but the runtime schedules its tasks on the
    /// calling thread only: a flush would wait on a task that cannot run.
    SingleThreadedRuntime,
}

impl Error {
    /// The error in words: for a refused scheme the words
    /// `unsupported url scheme: ` and the scheme, for an error of an outside
    /// crate the words of that crate.
    pub fn message(&self) -> (text: String)
        ensures
            self matches Error::UnsupportedUrlScheme(s) ==> text@ == "unsupported url scheme: "@ + s@,
            self is SingleThreadedRuntime ==> text@
                == "the asynchronous runtime is single-threaded"@,
    {
        match self {
            Error::InvalidUrl(e) => e.to_string(),
            Error::UnsupportedUrlScheme(s) => {
                String::from_str("unsupported url scheme: ").concat(s.as_str())
            },
            Error::SetLoggerError(e) => e.to_string(),
            Error::OtelLog(e) => e.to_string(),
            Error::OtelTrace(e) => e.to_string(),
            Error::OtelMetric(e) => e.to_string(),
            Error::SetSubscriberError(e) => e.to_string(),
            Error::NoRuntime(e) => e.to_string(),
            Error::SingleThreadedRuntime => {
                "the asynchronous runtime is single-threaded".to_owned()
            },
        }
    }
}

impl From<url::ParseError> for Error {
    /// Wraps a URL that did not parse.
    fn from(e: url::ParseError) -> (error: Error) {
        Error::InvalidUrl(e)
    }
}

impl vstd::std_specs::convert::FromSpecImpl<url::ParseError> for Error {
    open spec fn obeys_from_spec() -> bool {
        true
    }

    open spec fn from_spec(e: url::ParseError) -> Error {
        Error::InvalidUrl(e)
    }
}

impl From<log::SetLoggerError> for Error {
    /// Wraps a refusal of the log registry.
    fn from(e: log::SetLoggerError) -> (error: Error) {
        Error::SetLoggerError(e)
    }
}

impl vstd::std_specs::convert::FromSpecImpl<log::SetLoggerError> for Error {
    open spec fn obeys_from_spec() -> bool {
        true
    }

    open spec fn from_spec(e: log::SetLoggerError) -> Error {
        Error::SetLoggerError(e)
    }
}

impl From<opentelemetry_sdk::logs::LogError> for Error {
    /// Wraps a failure of the log SDK.
    fn from(e: opentelemetry_sdk::logs::LogError) -> (error: Error) {
        Error::OtelLog(e)
    }
}

impl vstd::std_specs::convert::FromSpecImpl<opentelemetry_sdk::logs::LogError> for Error {
    open spec fn obeys_from_spec() -> bool {
        true
    }

    open spec fn from_spec(e: opentelemetry_sdk::logs::LogError) -> Error {
        Error::OtelLog(e)
    }
}

impl From<opentelemetry::trace::TraceError> for Error {
    /// Wraps a failure of the trace SDK.
    fn from(e: opentelemetry::trace::TraceError) -> (error: Error) {
        Error::OtelTrace(e)
    }
}

impl vstd::std_specs::convert::FromSpecImpl<opentelemetry::trace::TraceError> for Error {
    open spec fn obeys_from_spec() -> bool {
        true
    }

    open spec fn from_spec(e: opentelemetry::trace::TraceError) -> Error {
        Error::OtelTrace(e)
    }
}

impl From<opentelemetry_sdk::metrics::MetricError> for Error {
    /// Wraps a failure of the metrics SDK.
    fn from(e: opentelemetry_sdk::metrics::MetricError) -> (error: Error) {
        Error::OtelMetric(e)
    }
}

impl vstd::std_specs::convert::FromSpecImpl<opentelemetry_sdk::metrics::MetricError> for Error {
    open spec fn obeys_from_spec() -> bool {
        true
    }

    open spec fn from_spec(e: opentelemetry_sdk::metrics::MetricError) -> Error {
        Error::OtelMetric(e)
    }
}

impl From<tracing_subscriber::util::TryInitError> for Error {
    /// Wraps a refusal of the subscriber registry.
    fn from(e: tracing_subscriber::util::TryInitError) -> (error: Error) {
        Error::SetSubscriberError(e)
    }
}

impl vstd::std_specs::convert::FromSpecImpl<tracing_subscriber::util::TryInitError> for Error {
    open spec fn obeys_from_spec() -> bool {
        true
    }

    open spec fn from_spec(e: tracing_subscriber::util::TryInitError) -> Error {
        Error::SetSubscriberError(e)
    }
}

impl From<tokio::runtime::TryCurrentError> for Error {
    /// Wraps a runtime that was not found.
    fn from(e: tokio::runtime::TryCurrentError) -> (error: Error) {
        Error::NoRuntime(e)
    }
}

impl vstd::std_specs::convert::FromSpecImpl<tokio::runtime::TryCurrentError> for Error {
    open spec fn obeys_from_spec() -> bool {
        true
    }

    open spec fn from_spec(e: tokio::runtime::TryCurrentError) -> Error {
        Error::NoRuntime(e)
    }
}

} // verus!
