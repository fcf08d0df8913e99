//! The trace signal: its configuration, the provider that owns the remote
//! span pipeline, and the subscriber layer it offers.
use crate::config::{target_of, Config, Target};
use crate::error::Error;
use crate::exporter::{connect, Exporter, Signal};
use opentelemetry::trace::TraceError;
use opentelemetry::trace::TracerProvider as _;
use opentelemetry_otlp::SpanExporter;
use opentelemetry_sdk::trace::Tracer;
use opentelemetry_sdk::trace::TracerProvider as OtelTracerProvider;
use opentelemetry_sdk::Resource;
use tokio::runtime::Handle;
use vstd::prelude::*;

verus! {

#[verifier::external_type_specification]
#[verifier::external_body]
pub struct ExOtelTracerProvider(OtelTracerProvider);

#[verifier::external_type_specification]
#[verifier::external_body]
pub struct ExTracer(Tracer);

#[verifier::external_type_specification]
#[verifier::external_body]
pub struct ExTracingLevel(tracing::Level);

/// The least severe level of span and event that is still exported.
#[derive(Clone, Copy, Debug, PartialEq, Eq, Structural)]
pub enum TraceLevel {
    Error,
    Warn,
    Info,
    Debug,
    Trace,
}

impl Default for TraceLevel {
    fn default() -> (level: Self)
        ensures
            level == TraceLevel::Info,
    {
        TraceLevel::Info
    }
}

/// The level of the tracing facade that stands for a trace level.
pub uninterp spec fn facade_level(level: TraceLevel) -> tracing::Level;

impl From<TraceLevel> for tracing::Level {
    /// The constant of `tracing::Level` with the same name.
    #[verifier::external_body]
    fn from(value: TraceLevel) -> (level: tracing::Level)
        ensures
            level == facade_level(value),
    {
        match value {
            TraceLevel::Error => tracing::Level::ERROR,
            TraceLevel::Warn => tracing::Level::WARN,
            TraceLevel::Info => tracing::Level::INFO,
            TraceLevel::Debug => tracing::Level::DEBUG,
            TraceLevel::Trace => tracing::Level::TRACE,
        }
    }
}

/// The `trace` section of the configuration.
#[derive(Clone, Copy, Debug, PartialEq, Eq, Structural)]
pub struct TraceConfig {
    pub level: TraceLevel,
}

impl Default for TraceConfig {
    fn default() -> (config: Self)
        ensures
            config.level == TraceLevel::Info,
    {
        TraceConfig { level: TraceLevel::Info }
    }
}

/// `TracerProvider::builder().with_resource(..).with_batch_exporter(..,
/// runtime::Tokio).build()`, inside the runtime, on which the batch
/// processor spawns its worker.
#[verifier::external_body]
fn build_pipeline(rt: &Handle, resource: Resource, exporter: SpanExporter) -> (pipeline:
    OtelTracerProvider) {
    let _context = rt.enter();
    OtelTracerProvider::builder()
        .with_resource(resource)
        .with_batch_exporter(exporter, opentelemetry_sdk::runtime::Tokio)
        .build()
}

/// `TracerProvider::clone`: a new reference to the same provider.
#[verifier::external_body]
fn clone_pipeline(pipeline: &OtelTracerProvider) -> (copy: OtelTracerProvider)
    ensures
        copy == *pipeline,
{
    pipeline.clone()
}

/// `TracerProvider::shutdown`: flushes what is pending and shuts the span
/// processors down. It waits for the worker on the runtime to answer, and
/// fails where the worker is gone, where a processor fails, or where the
/// provider was shut down before. It does not return while the worker
/// cannot run, so it is not to be called from the one thread that the
/// worker would need.
#[verifier::external_body]
fn shutdown_pipeline(pipeline: &OtelTracerProvider) -> (r: Result<(), TraceError>) {
    pipeline.shutdown()
}

/// `TracerProvider::tracer`: a tracer of the provider under the given name.
#[verifier::external_body]
fn tracer_of(pipeline: &OtelTracerProvider, name: String) -> (tracer: Tracer) {
    pipeline.tracer(name)
}

/// What the subscriber needs to observe spans and events for the collector:
/// the tracer that takes them, and the level below which nothing is even
/// converted.
pub struct TraceLayer {
    pub tracer: Tracer,
    pub level: tracing::Level,
}

/// The provider of the trace signal. It owns the remote span pipeline, if
/// there is one.
pub struct TraceProvider {
    level: TraceLevel,
    service_name: String,
    tracer_provider: Option<OtelTracerProvider>,
}

/// What a [`TraceProvider`] holds.
pub struct TraceProviderView {
    pub level: TraceLevel,
    pub service_name: Seq<char>,
    pub pipeline: Option<OtelTracerProvider>,
}

impl View for TraceProvider {
    type V = TraceProviderView;

    closed spec fn view(&self) -> TraceProviderView {
        TraceProviderView {
            level: self.level,
            service_name: self.service_name@,
            pipeline: self.tracer_provider,
        }
    }
}

impl TraceProvider {
    /// What [`TraceProvider::new`] may return for a configuration.
    pub open spec fn built(config: Config, r: Result<TraceProvider, Error>) -> bool {
        match config@.uri {
            None => r matches Ok(p) && p@ == (TraceProviderView {
                level: config.trace.level,
                service_name: config@.service_name,
                pipeline: None,
            }),
            Some(uri) => match target_of(uri) {
                Target::Invalid => r matches Err(Error::InvalidUrl(_)),
                Target::Unsupported(scheme) => r matches Err(Error::UnsupportedUrlScheme(s)) && s@
                    == scheme,
                Target::Collector(_, _) => match r {
                    Ok(p) => {
                        &&& p@.level == config.trace.level
                        &&& p@.service_name == config@.service_name
                        &&& p@.pipeline is Some
                    },
                    Err(e) => e is NoRuntime || e is SingleThreadedRuntime || e is OtelTrace,
                },
            },
        }
    }

    /// Builds the provider. It has a remote pipeline if and only if the
    /// configuration names a collector; a collector that cannot be used is
    /// an error, never a silent fallback.
    pub fn new(otel_resource: Resource, config: &Config) -> (r: Result<Self, Error>)
        ensures
            Self::built(*config, r),
    {
        let tracer_provider = match connect(Signal::Trace, &config.uri) {
            Err(e) => {
                return Err(e);
            },
            Ok(None) => None,
            Ok(Some((rt, Exporter::Trace(exporter)))) => Some(
                build_pipeline(&rt, otel_resource, exporter),
            ),
            Ok(Some(_)) => {
                // The factory hands out the exporter of the signal asked for.
                assert(false);
                None
            },
        };
        Ok(
            TraceProvider {
                level: config.trace.level,
                service_name: config.service_name.clone(),
                tracer_provider,
            },
        )
    }

    /// The layer through which the subscriber feeds the pipeline. There is
    /// none without a pipeline: tracing calls then cost a filter check only.
    pub fn layer(&self) -> (layer: Option<TraceLayer>)
        ensures
            layer is Some <==> self@.pipeline is Some,
            layer matches Some(l) ==> l.level == facade_level(self@.level),
    {
        match &self.tracer_provider {
            Some(pipeline) => Some(
                TraceLayer {
                    tracer: tracer_of(pipeline, self.service_name.clone()),
                    level: tracing::Level::from(self.level),
                },
            ),
            None => None,
        }
    }

    /// Whether the provider exports to a collector.
    pub fn is_remote(&self) -> (remote: bool)
        ensures
            remote == self@.pipeline is Some,
    {
        self.tracer_provider.is_some()
    }

    /// What a shutdown reports for each outcome of shutting the pipeline
    /// down: nothing where it went well, else the reason behind a prefix
    /// that names the provider.
    pub fn diagnose(outcome: Result<(), TraceError>) -> (diagnostic: Option<String>)
        ensures
            diagnostic is None <==> outcome is Ok,
            diagnostic matches Some(text) ==> "failed to shutdown trace provider: "@.is_prefix_of(
                text@,
            ),
    {
        match outcome {
            Ok(()) => None,
            Err(e) => {
                let prefix = "failed to shutdown trace provider: ";
                let reason = e.to_string();
                let text = String::from_str(prefix).concat(reason.as_str());
                assert(text@.subrange(0, prefix@.len() as int) =~= prefix@);
                Some(text)
            },
        }
    }

    /// Flushes the pending spans and tears the pipeline down. The pipeline
    /// is given up whatever happens, so a second call does nothing. A
    /// failure is reported as a diagnostic and never raised.
    pub fn shutdown(&mut self) -> (diagnostic: Option<String>)
        ensures
            final(self)@ == (TraceProviderView { pipeline: None, ..old(self)@ }),
            old(self)@.pipeline is None ==> diagnostic is None,
            diagnostic matches Some(text) ==> "failed to shutdown trace provider: "@.is_prefix_of(
                text@,
            ),
    {
        match self.tracer_provider.take() {
            Some(pipeline) => Self::diagnose(shutdown_pipeline(&pipeline)),
            None => None,
        }
    }
}

impl Clone for TraceProvider {
    fn clone(&self) -> (copy: Self)
        ensures
            copy@ == self@,
    {
        TraceProvider {
            level: self.level,
            service_name: self.service_name.clone(),
            tracer_provider: match &self.tracer_provider {
                Some(pipeline) => Some(clone_pipeline(pipeline)),
                None => None,
            },
        }
    }
}

} // verus!
