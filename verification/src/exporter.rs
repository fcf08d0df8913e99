//! The exporter factory: for one signal and one collector it builds the
//! exporter of the transport that the collector's scheme selects.
use crate::config::{target_of, Collector, Target, UriScheme};
use crate::error::Error;
use opentelemetry::trace::TraceError;
use opentelemetry_otlp::{LogExporter, MetricExporter, SpanExporter, WithExportConfig};
use opentelemetry_sdk::logs::LogError;
use opentelemetry_sdk::metrics::MetricError;
use tokio::runtime::Handle;
use vstd::prelude::*;

verus! {

#[verifier::external_type_specification]
#[verifier::external_body]
pub struct ExLogExporter(LogExporter);

#[verifier::external_type_specification]
#[verifier::external_body]
pub struct ExSpanExporter(SpanExporter);

#[verifier::external_type_specification]
#[verifier::external_body]
pub struct ExMetricExporter(MetricExporter);

/// A category of telemetry.
#[derive(Clone, Copy, Debug, PartialEq, Eq, Structural)]
pub enum Signal {
    Logs,
    Trace,
    Metrics,
}

/// The kind of transport that carries a signal to the collector.
#[derive(Clone, Copy, Debug, PartialEq, Eq, Structural)]
pub enum Transport {
    /// Requests over HTTP, bound to the endpoint URL as it is written.
    Http,
    /// Calls over gRPC to the same endpoint.
    Grpc,
}

impl UriScheme {
    /// The transport that the scheme selects: HTTP for `http` and `https`,
    /// gRPC for `grpc`.
    pub open spec fn spec_transport(self) -> Transport {
        match self {
            UriScheme::Https => Transport::Http,
            UriScheme::Http => Transport::Http,
            UriScheme::Grpc => Transport::Grpc,
        }
    }

    /// The transport that the scheme selects.
    #[verifier::when_used_as_spec(spec_transport)]
    pub fn transport(self) -> (transport: Transport)
        ensures
            transport == self.spec_transport(),
    {
        match self {
            UriScheme::Https | UriScheme::Http => Transport::Http,
            UriScheme::Grpc => Transport::Grpc,
        }
    }
}

/// An exporter for one signal.
pub enum Exporter {
    Logs(LogExporter),
    Trace(SpanExporter),
    Metrics(MetricExporter),
}

impl Exporter {
    /// The signal that the exporter carries.
    pub open spec fn signal(self) -> Signal {
        match self {
            Exporter::Logs(_) => Signal::Logs,
            Exporter::Trace(_) => Signal::Trace,
            Exporter::Metrics(_) => Signal::Metrics,
        }
    }
}

impl Error {
    /// Whether the error says that the exporter of `signal` could not be
    /// built.
    pub open spec fn is_construction_of(self, signal: Signal) -> bool {
        match signal {
            Signal::Logs => self is OtelLog,
            Signal::Trace => self is OtelTrace,
            Signal::Metrics => self is OtelMetric,
        }
    }
}

/// `LogExporter::builder().with_http().with_endpoint(..).build()`, inside the
/// runtime. The builder also reads the process environment, which can
/// replace the endpoint, so nothing is promised of the outcome.
#[verifier::external_body]
fn http_log_exporter(rt: &Handle, endpoint: &str) -> (r: Result<LogExporter, LogError>) {
    let _context = rt.enter();
    LogExporter::builder().with_http().with_endpoint(endpoint).build()
}

/// `LogExporter::builder().with_tonic().with_endpoint(..).build()`, inside
/// the runtime, on which the lazy channel spawns its worker. The builder
/// also reads the process environment, so nothing is promised of the
/// outcome.
#[verifier::external_body]
fn grpc_log_exporter(rt: &Handle, endpoint: &str) -> (r: Result<LogExporter, LogError>) {
    let _context = rt.enter();
    LogExporter::builder().with_tonic().with_endpoint(endpoint).build()
}

/// `SpanExporter::builder().with_http().with_endpoint(..).build()`, inside
/// the runtime. Nothing is promised of the outcome, as for logs.
#[verifier::external_body]
fn http_span_exporter(rt: &Handle, endpoint: &str) -> (r: Result<SpanExporter, TraceError>) {
    let _context = rt.enter();
    SpanExporter::builder().with_http().with_endpoint(endpoint).build()
}

/// `SpanExporter::builder().with_tonic().with_endpoint(..).build()`, inside
/// the runtime, on which the lazy channel spawns its worker. Nothing is
/// promised of the outcome, as for logs.
#[verifier::external_body]
fn grpc_span_exporter(rt: &Handle, endpoint: &str) -> (r: Result<SpanExporter, TraceError>) {
    let _context = rt.enter();
    SpanExporter::builder().with_tonic().with_endpoint(endpoint).build()
}

/// `MetricExporter::builder().with_http().with_endpoint(..).build()`, inside
/// the runtime. Nothing is promised of the outcome, as for logs.
#[verifier::external_body]
fn http_metric_exporter(rt: &Handle, endpoint: &str) -> (r: Result<MetricExporter, MetricError>) {
    let _context = rt.enter();
    MetricExporter::builder().with_http().with_endpoint(endpoint).build()
}

/// `MetricExporter::builder().with_tonic().with_endpoint(..).build()`,
/// inside the runtime, on which the lazy channel spawns its worker. Nothing
/// is promised of the outcome, as for logs.
#[verifier::external_body]
fn grpc_metric_exporter(rt: &Handle, endpoint: &str) -> (r: Result<MetricExporter, MetricError>) {
    let _context = rt.enter();
    MetricExporter::builder().with_tonic().with_endpoint(endpoint).build()
}

/// What the factory returns for each outcome of building a log exporter.
pub fn log_outcome(built: Result<LogExporter, LogError>) -> (r: Result<Exporter, Error>)
    ensures
        r == match built {
            Ok(exporter) => Ok::<Exporter, Error>(Exporter::Logs(exporter)),
            Err(e) => Err::<Exporter, Error>(Error::OtelLog(e)),
        },
{
    match built {
        Ok(exporter) => Ok(Exporter::Logs(exporter)),
        Err(e) => Err(Error::OtelLog(e)),
    }
}

/// What the factory returns for each outcome of building a span exporter.
pub fn span_outcome(built: Result<SpanExporter, TraceError>) -> (r: Result<Exporter, Error>)
    ensures
        r == match built {
            Ok(exporter) => Ok::<Exporter, Error>(Exporter::Trace(exporter)),
            Err(e) => Err::<Exporter, Error>(Error::OtelTrace(e)),
        },
{
    match built {
        Ok(exporter) => Ok(Exporter::Trace(exporter)),
        Err(e) => Err(Error::OtelTrace(e)),
    }
}

/// What the factory returns for each outcome of building a metric exporter.
pub fn metric_outcome(built: Result<MetricExporter, MetricError>) -> (r: Result<Exporter, Error>)
    ensures
        r == match built {
            Ok(exporter) => Ok::<Exporter, Error>(Exporter::Metrics(exporter)),
            Err(e) => Err::<Exporter, Error>(Error::OtelMetric(e)),
        },
{
    match built {
        Ok(exporter) => Ok(Exporter::Metrics(exporter)),
        Err(e) => Err(Error::OtelMetric(e)),
    }
}

/// Builds the exporter of `signal` for a collector, on the transport that
/// the collector's scheme selects. Nothing is sent while it is built. A
/// failure of the transport to build comes back as the construction error of
/// the signal and is never swallowed.
pub fn build_exporter(signal: Signal, collector: &Collector, rt: &Handle) -> (r: Result<
    Exporter,
    Error,
>)
    ensures
        match r {
            Ok(exporter) => exporter.signal() == signal,
            Err(e) => e.is_construction_of(signal),
        },
{
    let endpoint = collector.endpoint.as_str();
    match signal {
        Signal::Logs => match collector.scheme.transport() {
            Transport::Http => log_outcome(http_log_exporter(rt, endpoint)),
            Transport::Grpc => log_outcome(grpc_log_exporter(rt, endpoint)),
        },
        Signal::Trace => match collector.scheme.transport() {
            Transport::Http => span_outcome(http_span_exporter(rt, endpoint)),
            Transport::Grpc => span_outcome(grpc_span_exporter(rt, endpoint)),
        },
        Signal::Metrics => match collector.scheme.transport() {
            Transport::Http => metric_outcome(http_metric_exporter(rt, endpoint)),
            Transport::Grpc => metric_outcome(grpc_metric_exporter(rt, endpoint)),
        },
    }
}

/// What connecting a signal to the collector of a configuration may give.
/// Without a URI nothing is built. A URI that is no absolute URL, or whose
/// scheme selects no transport, is refused before anything else is tried.
/// Otherwise the runtime and the transport decide, and success brings the
/// runtime together with the exporter of the signal.
pub open spec fn connected(
    signal: Signal,
    uri: Option<Seq<char>>,
    r: Result<Option<(Handle, Exporter)>, Error>,
) -> bool {
    match uri {
        None => r == Ok::<Option<(Handle, Exporter)>, Error>(None),
        Some(uri) => match target_of(uri) {
            Target::Invalid => r matches Err(Error::InvalidUrl(_)),
            Target::Unsupported(scheme) => r matches Err(Error::UnsupportedUrlScheme(s)) && s@
                == scheme,
            Target::Collector(_, _) => match r {
                Ok(Some((_, exporter))) => exporter.signal() == signal,
                Ok(None) => false,
                Err(e) => e is NoRuntime || e is SingleThreadedRuntime || e.is_construction_of(
                    signal,
                ),
            },
        },
    }
}

/// Connects a signal to the collector that `uri` names, if it names one:
/// resolves the URI, looks up the runtime, and builds the exporter.
pub fn connect(signal: Signal, uri: &Option<String>) -> (r: Result<
    Option<(Handle, Exporter)>,
    Error,
>)
    ensures
        connected(
            signal,
            match *uri {
                Some(uri) => Some(uri@),
                None => None,
            },
            r,
        ),
{
    match uri {
        None => Ok(None),
        Some(uri) => {
            let collector = match Collector::resolve(uri.as_str()) {
                Ok(collector) => collector,
                Err(e) => {
                    return Err(e);
                },
            };
            let rt = match crate::runtime::current() {
                Ok(rt) => rt,
                Err(e) => {
                    return Err(e);
                },
            };
            match build_exporter(signal, &collector, &rt) {
                Ok(exporter) => Ok(Some((rt, exporter))),
                Err(e) => Err(e),
            }
        },
    }
}

} // verus!
