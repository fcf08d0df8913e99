//! The metrics signal: its configuration, the provider that owns the periodic
//! export pipeline, and the subscriber layer it offers.
use crate::config::{target_of, Config, Target};
use crate::error::Error;
use crate::exporter::{connect, Exporter, Signal};
use opentelemetry_otlp::MetricExporter;
use opentelemetry_sdk::metrics::{MetricError, PeriodicReader, SdkMeterProvider};
use opentelemetry_sdk::Resource;
use std::time::Duration;
use tokio::runtime::Handle;
use vstd::prelude::*;

verus! {

#[verifier::external_type_specification]
#[verifier::external_body]
pub struct ExSdkMeterProvider(SdkMeterProvider);

#[verifier::external_type_specification]
#[verifier::external_body]
pub struct ExPeriodicReader(PeriodicReader);

/// The span of time that lasts `secs` whole seconds.
pub uninterp spec fn seconds(secs: u64) -> Duration;

/// `Duration::from_secs`: the duration of that many whole seconds. Equal
/// arguments give equal durations.
#[verifier::external_body]
fn from_secs(secs: u64) -> (d: Duration)
    ensures
        d == seconds(secs),
{
    Duration::from_secs(secs)
}

/// The `metrics` section of the configuration.
#[derive(Debug)]
pub struct MetricsConfig {
    /// How long the periodic reader waits between two exports.
    pub export_interval: Duration,
}

impl MetricsConfig {
    /// The export interval used when the configuration names none: one
    /// second.
    pub fn default_export_interval() -> (d: Duration)
        ensures
            d == seconds(1),
    {
        from_secs(1)
    }
}

impl Default for MetricsConfig {
    fn default() -> (config: Self)
        ensures
            config.export_interval == seconds(1),
    {
        MetricsConfig { export_interval: Self::default_export_interval() }
    }
}

impl Clone for MetricsConfig {
    fn clone(&self) -> (copy: Self)
        ensures
            copy == *self,
    {
        MetricsConfig { export_interval: self.export_interval }
    }
}

/// `PeriodicReader::builder(.., runtime::Tokio).with_interval(..).build()`:
/// a reader that exports every `interval`. An interval of zero leaves the
/// reader's own default in place.
#[verifier::external_body]
fn build_reader(exporter: MetricExporter, interval: Duration) -> (reader: PeriodicReader) {
    PeriodicReader::builder(exporter, opentelemetry_sdk::runtime::Tokio)
        .with_interval(interval)
        .build()
}

/// `SdkMeterProvider::builder().with_resource(..).with_reader(..).build()`,
/// inside the runtime, on which the reader spawns its worker.
#[verifier::external_body]
fn build_pipeline(rt: &Handle, resource: Resource, reader: PeriodicReader) -> (pipeline:
    SdkMeterProvider) {
    let _context = rt.enter();
    SdkMeterProvider::builder().with_resource(resource).with_reader(reader).build()
}

/// `SdkMeterProvider::clone`: a new reference to the same provider.
#[verifier::external_body]
fn clone_pipeline(pipeline: &SdkMeterProvider) -> (copy: SdkMeterProvider)
    ensures
        copy == *pipeline,
{
    pipeline.clone()
}

/// `SdkMeterProvider::shutdown`: flushes what is pending and shuts the
/// reader down. It waits for the worker on the runtime to answer, and fails
/// where the last export fails or where the provider was shut down before.
/// It does not return while the worker cannot run, so it is not to be
/// called from the one thread that the worker would need.
#[verifier::external_body]
fn shutdown_pipeline(pipeline: &SdkMeterProvider) -> (r: Result<(), MetricError>) {
    pipeline.shutdown()
}

/// What the subscriber needs to route metric events to the collector: the
/// meter provider that aggregates them.
pub struct MeterLayer {
    pub provider: SdkMeterProvider,
}

/// The provider of the metrics signal. It owns the periodic export
/// pipeline, if there is one.
pub struct MetricsProvider {
    metrics_provider: Option<SdkMeterProvider>,
}

/// What a [`MetricsProvider`] holds.
pub struct MetricsProviderView {
    pub pipeline: Option<SdkMeterProvider>,
}

impl View for MetricsProvider {
    type V = MetricsProviderView;

    closed spec fn view(&self) -> MetricsProviderView {
        MetricsProviderView { pipeline: self.metrics_provider }
    }
}

impl MetricsProvider {
    /// What [`MetricsProvider::new`] may return for a configuration.
    pub open spec fn built(config: Config, r: Result<MetricsProvider, Error>) -> bool {
        match config@.uri {
            None => r matches Ok(p) && p@.pipeline is None,
            Some(uri) => match target_of(uri) {
                Target::Invalid => r matches Err(Error::InvalidUrl(_)),
                Target::Unsupported(scheme) => r matches Err(Error::UnsupportedUrlScheme(s)) && s@
                    == scheme,
                Target::Collector(_, _) => match r {
                    Ok(p) => p@.pipeline is Some,
                    Err(e) => e is NoRuntime || e is SingleThreadedRuntime || e is OtelMetric,
                },
            },
        }
    }

    /// Builds the provider. It has a remote pipeline, which exports at the
    /// configured interval, if and only if the configuration names a
    /// collector; a collector that cannot be used is an error.
    pub fn new(otel_resource: Resource, config: &Config) -> (r: Result<Self, Error>)
        ensures
            Self::built(*config, r),
    {
        let metrics_provider = match connect(Signal::Metrics, &config.uri) {
            Err(e) => {
                return Err(e);
            },
            Ok(None) => None,
            Ok(Some((rt, Exporter::Metrics(exporter)))) => {
                let reader = build_reader(exporter, config.metrics.export_interval);
                Some(build_pipeline(&rt, otel_resource, reader))
            },
            Ok(Some(_)) => {
                // The factory hands out the exporter of the signal asked for.
                assert(false);
                None
            },
        };
        Ok(MetricsProvider { metrics_provider })
    }

    /// The layer through which the subscriber feeds the pipeline. There is
    /// none without a pipeline: instruments are then inert.
    pub fn layer(&self) -> (layer: Option<MeterLayer>)
        ensures
            layer == match self@.pipeline {
                Some(pipeline) => Some(MeterLayer { provider: pipeline }),
                None => None,
            },
    {
        match &self.metrics_provider {
            Some(pipeline) => Some(MeterLayer { provider: clone_pipeline(pipeline) }),
            None => None,
        }
    }

    /// Whether the provider exports to a collector.
    pub fn is_remote(&self) -> (remote: bool)
        ensures
            remote == self@.pipeline is Some,
    {
        self.metrics_provider.is_some()
    }

    /// What a shutdown reports for each outcome of shutting the pipeline
    /// down: nothing where it went well, else the reason behind a prefix
    /// that names the provider.
    pub fn diagnose(outcome: Result<(), MetricError>) -> (diagnostic: Option<String>)
        ensures
            diagnostic is None <==> outcome is Ok,
            diagnostic matches Some(text) ==> "failed to shutdown metrics provider: "@.is_prefix_of(
                text@,
            ),
    {
        match outcome {
            Ok(()) => None,
            Err(e) => {
                let prefix = "failed to shutdown metrics provider: ";
                let reason = e.to_string();
                let text = String::from_str(prefix).concat(reason.as_str());
                assert(text@.subrange(0, prefix@.len() as int) =~= prefix@);
                Some(text)
            },
        }
    }

    /// Flushes the pending metrics and tears the pipeline down. The
    /// pipeline is given up whatever happens, so a second call does
    /// nothing. A failure is reported as a diagnostic and never raised.
    pub fn shutdown(&mut self) -> (diagnostic: Option<String>)
        ensures
            final(self)@.pipeline is None,
            old(self)@.pipeline is None ==> diagnostic is None,
            diagnostic matches Some(text) ==> "failed to shutdown metrics provider: "@.is_prefix_of(
                text@,
            ),
    {
        match self.metrics_provider.take() {
            Some(pipeline) => Self::diagnose(shutdown_pipeline(&pipeline)),
            None => None,
        }
    }
}

impl Clone for MetricsProvider {
    fn clone(&self) -> (copy: Self)
        ensures
            copy@ == self@,
    {
        MetricsProvider {
            metrics_provider: match &self.metrics_provider {
                Some(pipeline) => Some(clone_pipeline(pipeline)),
                None => None,
            },
        }
    }
}

} // verus!
