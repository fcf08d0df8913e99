//! The session: the three providers composed into one handle, installed
//! process-wide, kept in a slot that is filled at most once, and torn down
//! in a fixed order.
use crate::common::{attributes, resource_clone, schema_url, service_tags, tags};
use crate::config::{target_of, Collector, Config, Target};
use crate::error::Error;
use crate::exporter::Signal;
use crate::log::{FanoutLogger, LogProvider, LogProviderView};
use crate::metrics::{MeterLayer, MetricsProvider, MetricsProviderView};
use crate::trace::{TraceLayer, TraceProvider, TraceProviderView};
use opentelemetry_sdk::Resource;
use tracing::level_filters::LevelFilter;
use tracing_opentelemetry::{MetricsLayer, OpenTelemetryLayer};
use tracing_subscriber::layer::SubscriberExt;
use tracing_subscriber::util::{SubscriberInitExt, TryInitError};
use tracing_subscriber::Layer;
use vstd::prelude::*;

verus! {

/// `log::set_boxed_logger`: installs the logger as the process-wide log
/// sink. It fails if a sink was installed before, by anyone.
#[verifier::external_body]
fn install_logger(logger: FanoutLogger) -> (r: Result<(), log::SetLoggerError>) {
    log::set_boxed_logger(Box::new(logger))
}

/// `registry().with(..).with(..).try_init()`: composes the layers that are
/// there over a registry, the metrics layer innermost and the trace layer,
/// behind its level filter, outermost, and installs the result as the
/// process-wide subscriber. It fails if one was installed before, by anyone.
#[verifier::external_body]
fn install_subscriber(metrics: Option<MeterLayer>, trace: Option<TraceLayer>) -> (r: Result<
    (),
    TryInitError,
>) {
    tracing_subscriber::registry()
        .with(metrics.map(|layer| MetricsLayer::new(layer.provider)))
        .with(
            trace.map(
                |layer|
                    OpenTelemetryLayer::new(layer.tracer).with_filter(
                        LevelFilter::from_level(layer.level),
                    ),
            ),
        )
        .try_init()
}

/// What the installation of the process-wide log sink leaves of a session
/// that is otherwise built.
pub fn logger_outcome(installed: Result<(), log::SetLoggerError>) -> (r: Result<(), Error>)
    ensures
        r == match installed {
            Ok(()) => Ok::<(), Error>(()),
            Err(e) => Err::<(), Error>(Error::SetLoggerError(e)),
        },
{
    match installed {
        Ok(()) => Ok(()),
        Err(e) => Err(Error::SetLoggerError(e)),
    }
}

/// What the installation of the process-wide subscriber leaves of a session
/// that is otherwise built.
pub fn subscriber_outcome(installed: Result<(), TryInitError>) -> (r: Result<(), Error>)
    ensures
        r == match installed {
            Ok(()) => Ok::<(), Error>(()),
            Err(e) => Err::<(), Error>(Error::SetSubscriberError(e)),
        },
{
    match installed {
        Ok(()) => Ok(()),
        Err(e) => Err(Error::SetSubscriberError(e)),
    }
}

/// The handle of the telemetry of a service. It owns the providers of the
/// signals that are switched on.
pub struct Session {
    /// The tags that every exported signal carries.
    pub otel_resource: Resource,
    logger_provider: Option<LogProvider>,
    tracer_provider: Option<TraceProvider>,
    metrics_provider: Option<MetricsProvider>,
}

/// What a [`Session`] holds.
pub struct SessionView {
    pub resource: Resource,
    pub logs: Option<LogProviderView>,
    pub trace: Option<TraceProviderView>,
    pub metrics: Option<MetricsProviderView>,
}

impl View for Session {
    type V = SessionView;

    closed spec fn view(&self) -> SessionView {
        SessionView {
            resource: self.otel_resource,
            logs: match self.logger_provider {
                Some(provider) => Some(provider@),
                None => None,
            },
            trace: match self.tracer_provider {
                Some(provider) => Some(provider@),
                None => None,
            },
            metrics: match self.metrics_provider {
                Some(provider) => Some(provider@),
                None => None,
            },
        }
    }
}

/// One step of a teardown: the signal whose pipeline was shut down, and the
/// diagnostic of the failure if it failed.
#[derive(Debug)]
pub struct ShutdownStep {
    pub signal: Signal,
    pub diagnostic: Option<String>,
}

impl SessionView {
    /// Whether the session has a provider for the signal.
    pub open spec fn carries(self, signal: Signal) -> bool {
        match signal {
            Signal::Logs => self.logs is Some,
            Signal::Trace => self.trace is Some,
            Signal::Metrics => self.metrics is Some,
        }
    }

    /// Whether the signal goes to the collector: whether its provider is
    /// there and has a pipeline.
    pub open spec fn exports(self, signal: Signal) -> bool {
        match signal {
            Signal::Logs => self.logs matches Some(provider) && provider.pipeline is Some,
            Signal::Trace => self.trace matches Some(provider) && provider.pipeline is Some,
            Signal::Metrics => self.metrics matches Some(provider) && provider.pipeline is Some,
        }
    }

    /// Whether the trace layer is part of the subscriber.
    pub open spec fn has_trace_layer(self) -> bool {
        self.exports(Signal::Trace)
    }

    /// Whether the metrics layer is part of the subscriber.
    pub open spec fn has_metrics_layer(self) -> bool {
        self.exports(Signal::Metrics)
    }

    /// The session built for a configuration: the tags of the service, a
    /// provider for each signal that is switched on and for no other, and in
    /// each provider a remote pipeline if and only if the configuration
    /// names a collector.
    pub open spec fn fits(self, config: Config) -> bool {
        &&& attributes(self.resource) == service_tags(
            config@.service_name,
            config@.service_version,
        )
        &&& schema_url(self.resource) is None
        &&& self.logs is Some <==> config.signals.logs
        &&& self.trace is Some <==> config.signals.trace
        &&& self.metrics is Some <==> config.signals.metrics
        &&& self.logs matches Some(provider) ==> {
            &&& provider.service_name == config@.service_name
            &&& provider.config == config@.log
            &&& provider.pipeline is Some <==> config@.uri is Some
        }
        &&& self.trace matches Some(provider) ==> {
            &&& provider.service_name == config@.service_name
            &&& provider.level == config.trace.level
            &&& provider.pipeline is Some <==> config@.uri is Some
        }
        &&& self.metrics matches Some(provider) ==> (provider.pipeline is Some <==> config@.uri
            is Some)
    }

    /// The session after its teardown: the same, without any pipeline.
    pub open spec fn drained(self) -> SessionView {
        SessionView {
            resource: self.resource,
            logs: match self.logs {
                Some(provider) => Some(LogProviderView { pipeline: None, ..provider }),
                None => None,
            },
            trace: match self.trace {
                Some(provider) => Some(TraceProviderView { pipeline: None, ..provider }),
                None => None,
            },
            metrics: match self.metrics {
                Some(provider) => Some(MetricsProviderView { pipeline: None }),
                None => None,
            },
        }
    }

    /// The pipelines that a teardown shuts down, in the order in which it
    /// does: metrics, then trace, then logs, each if it is there.
    pub open spec fn teardown_order(self) -> Seq<Signal> {
        (if self.exports(Signal::Metrics) {
            seq![Signal::Metrics]
        } else {
            Seq::<Signal>::empty()
        }) + (if self.exports(Signal::Trace) {
            seq![Signal::Trace]
        } else {
            Seq::<Signal>::empty()
        }) + (if self.exports(Signal::Logs) {
            seq![Signal::Logs]
        } else {
            Seq::<Signal>::empty()
        })
    }
}

/// The words that begin the diagnostic of a pipeline that failed to shut
/// down.
pub open spec fn failure_prefix(signal: Signal) -> Seq<char> {
    match signal {
        Signal::Logs => "failed to shutdown log provider: "@,
        Signal::Trace => "failed to shutdown trace provider: "@,
        Signal::Metrics => "failed to shutdown metrics provider: "@,
    }
}

/// Whether a step of a teardown is well formed: its diagnostic, if it has
/// one, begins with the words for its signal.
pub open spec fn step_is_diagnosed(step: ShutdownStep) -> bool {
    step.diagnostic matches Some(text) ==> failure_prefix(step.signal).is_prefix_of(text@)
}

/// The signals of the steps of a teardown, in their order.
pub open spec fn signals_of(steps: Seq<ShutdownStep>) -> Seq<Signal> {
    Seq::new(steps.len(), |i: int| steps[i].signal)
}

/// Whether an error is one that the process-wide registries raise.
pub open spec fn is_installation(e: Error, config: Config) -> bool {
    ||| config.signals.logs && e is SetLoggerError
    ||| (config.signals.trace || config.signals.metrics) && e is SetSubscriberError
}

/// Whether an error is one that the runtime or the transport of a signal
/// that is switched on raises.
pub open spec fn is_construction(e: Error, config: Config) -> bool {
    ||| (config.signals.logs || config.signals.trace || config.signals.metrics) && (e is NoRuntime
        || e is SingleThreadedRuntime)
    ||| config.signals.logs && e is OtelLog
    ||| config.signals.trace && e is OtelTrace
    ||| config.signals.metrics && e is OtelMetric
}

impl Session {
    /// What [`Session::new`] may return for a configuration.
    ///
    /// A collector URI that is no absolute URL, or whose scheme is not
    /// `http`, `https` or `grpc`, is refused whatever else the
    /// configuration says, and the error carries the scheme. Otherwise a
    /// session that comes back fits the configuration, and an error is one
    /// of the runtime, of a transport or of a process-wide registry; without
    /// a collector only a registry can refuse, and with no signal switched
    /// on nothing can.
    pub open spec fn built(config: Config, r: Result<Session, Error>) -> bool {
        match config@.uri {
            Some(uri) if target_of(uri) is Invalid => r matches Err(Error::InvalidUrl(_)),
            Some(uri) if target_of(uri) is Unsupported => r matches Err(
                Error::UnsupportedUrlScheme(s),
            ) && s@ == target_of(uri)->Unsupported_0,
            Some(_) => match r {
                Ok(session) => session@.fits(config),
                Err(e) => is_construction(e, config) || is_installation(e, config),
            },
            None => match r {
                Ok(session) => session@.fits(config),
                Err(e) => is_installation(e, config),
            },
        }
    }

    /// Builds the session of a configuration and installs it process-wide:
    /// checks the collector URI, builds the tags and the providers of logs,
    /// traces and metrics in that order, installs the fan-out logger as the
    /// log sink, and installs the subscriber composed of the layers that
    /// are there. Any failure ends the sequence, and no session comes back.
    pub fn new(config: &Config) -> (r: Result<Self, Error>)
        ensures
            Self::built(*config, r),
    {
        match &config.uri {
            Some(uri) => match Collector::resolve(uri.as_str()) {
                Ok(_) => {},
                Err(e) => {
                    return Err(e);
                },
            },
            None => {},
        }
        let otel_resource = tags(config);
        let logger_provider = if config.signals.logs {
            match LogProvider::new(resource_clone(&otel_resource), config) {
                Ok(provider) => Some(provider),
                Err(e) => {
                    return Err(e);
                },
            }
        } else {
            None
        };
        let tracer_provider = if config.signals.trace {
            match TraceProvider::new(resource_clone(&otel_resource), config) {
                Ok(provider) => Some(provider),
                Err(e) => {
                    return Err(e);
                },
            }
        } else {
            None
        };
        let metrics_provider = if config.signals.metrics {
            match MetricsProvider::new(resource_clone(&otel_resource), config) {
                Ok(provider) => Some(provider),
                Err(e) => {
                    return Err(e);
                },
            }
        } else {
            None
        };
        match &logger_provider {
            Some(provider) => {
                let logger = match provider.logger() {
                    Ok(logger) => logger,
                    Err(e) => {
                        return Err(e);
                    },
                };
                match logger_outcome(install_logger(logger)) {
                    Ok(()) => {},
                    Err(e) => {
                        return Err(e);
                    },
                }
            },
            None => {},
        }
        if config.signals.trace || config.signals.metrics {
            let metrics_layer = match &metrics_provider {
                Some(provider) => provider.layer(),
                None => None,
            };
            let trace_layer = match &tracer_provider {
                Some(provider) => provider.layer(),
                None => None,
            };
            match subscriber_outcome(install_subscriber(metrics_layer, trace_layer)) {
                Ok(()) => {},
                Err(e) => {
                    return Err(e);
                },
            }
        }
        Ok(Session { otel_resource, logger_provider, tracer_provider, metrics_provider })
    }

    /// Whether the session has a provider for the signal.
    pub fn carries(&self, signal: Signal) -> (carried: bool)
        ensures
            carried == self@.carries(signal),
    {
        match signal {
            Signal::Logs => self.logger_provider.is_some(),
            Signal::Trace => self.tracer_provider.is_some(),
            Signal::Metrics => self.metrics_provider.is_some(),
        }
    }

    /// Whether the signal goes to the collector.
    pub fn exports(&self, signal: Signal) -> (exported: bool)
        ensures
            exported == self@.exports(signal),
    {
        match signal {
            Signal::Logs => match &self.logger_provider {
                Some(provider) => provider.is_remote(),
                None => false,
            },
            Signal::Trace => match &self.tracer_provider {
                Some(provider) => provider.is_remote(),
                None => false,
            },
            Signal::Metrics => match &self.metrics_provider {
                Some(provider) => provider.is_remote(),
                None => false,
            },
        }
    }

    /// Tears the session down: shuts the pipelines that are there down, the
    /// one of metrics first, then the one of traces, then the one of logs.
    /// A failure does not stop the teardown and is never raised: each step
    /// is reported with its diagnostic. What was installed process-wide
    /// stays in place. A second teardown finds no pipeline and does nothing.
    pub fn shutdown(&mut self) -> (report: Vec<ShutdownStep>)
        ensures
            signals_of(report@) == old(self)@.teardown_order(),
            forall|i: int| 0 <= i < report@.len() ==> step_is_diagnosed(#[trigger] report@[i]),
            final(self)@ == old(self)@.drained(),
    {
        let mut report: Vec<ShutdownStep> = Vec::new();
        match &mut self.metrics_provider {
            Some(provider) => {
                if provider.is_remote() {
                    let diagnostic = provider.shutdown();
                    report.push(ShutdownStep { signal: Signal::Metrics, diagnostic });
                }
            },
            None => {},
        }
        match &mut self.tracer_provider {
            Some(provider) => {
                if provider.is_remote() {
                    let diagnostic = provider.shutdown();
                    report.push(ShutdownStep { signal: Signal::Trace, diagnostic });
                }
            },
            None => {},
        }
        match &mut self.logger_provider {
            Some(provider) => {
                if provider.is_remote() {
                    let diagnostic = provider.shutdown();
                    report.push(ShutdownStep { signal: Signal::Logs, diagnostic });
                }
            },
            None => {},
        }
        assert(signals_of(report@) =~= old(self)@.teardown_order());
        report
    }
}

impl Clone for Session {
    /// Another handle to the same session: it shares the pipelines.
    fn clone(&self) -> (copy: Self)
        ensures
            copy@ == self@,
    {
        Session {
            otel_resource: resource_clone(&self.otel_resource),
            logger_provider: match &self.logger_provider {
                Some(provider) => Some(provider.clone()),
                None => None,
            },
            tracer_provider: match &self.tracer_provider {
                Some(provider) => Some(provider.clone()),
                None => None,
            },
            metrics_provider: match &self.metrics_provider {
                Some(provider) => Some(provider.clone()),
                None => None,
            },
        }
    }
}

/// The place of the one session of a process. It starts empty, is filled by
/// the first initialisation that succeeds, and is never emptied again.
pub enum SessionSlot {
    Uninitialized,
    Ready(Session),
}

impl View for SessionSlot {
    type V = Option<SessionView>;

    open spec fn view(&self) -> Option<SessionView> {
        match self {
            SessionSlot::Uninitialized => None,
            SessionSlot::Ready(session) => Some(session@),
        }
    }
}

impl SessionSlot {
    /// An empty slot.
    pub fn new() -> (slot: Self)
        ensures
            slot@ is None,
    {
        SessionSlot::Uninitialized
    }

    /// A handle to the session of the slot, if it holds one.
    pub fn get(&self) -> (handle: Option<Session>)
        ensures
            match handle {
                Some(session) => self@ == Some(session@),
                None => self@ is None,
            },
    {
        match self {
            SessionSlot::Uninitialized => None,
            SessionSlot::Ready(session) => Some(session.clone()),
        }
    }
}

/// What an initialisation does to a slot and returns.
///
/// On a slot that holds a session, it leaves the slot as it is and returns a
/// handle to that session, whatever the configuration says. On an empty
/// slot it builds the session of the configuration; where that succeeds the
/// slot holds the session that is returned, and where it fails the slot
/// stays empty.
pub open spec fn initialized(
    before: SessionSlot,
    config: Config,
    after: SessionSlot,
    r: Result<Session, Error>,
) -> bool {
    match before@ {
        Some(stored) => {
            &&& after@ == before@
            &&& r matches Ok(session)
            &&& session@ == stored
        },
        None => Session::built(config, r) && match r {
            Ok(session) => after@ == Some(session@),
            Err(_) => after@ is None,
        },
    }
}

/// Initialises the telemetry of the process, once: the first call that
/// succeeds builds and installs the session, and every later call returns a
/// handle to that same session without building anything.
pub fn init(slot: &mut SessionSlot, config: &Config) -> (r: Result<Session, Error>)
    ensures
        initialized(*old(slot), *config, *final(slot), r),
{
    match slot.get() {
        Some(session) => Ok(session),
        None => match Session::new(config) {
            Ok(session) => {
                let handle = session.clone();
                *slot = SessionSlot::Ready(session);
                Ok(handle)
            },
            Err(e) => Err(e),
        },
    }
}

/// Without a collector, a session that is built has no pipeline: neither
/// the trace layer nor the metrics layer is part of the subscriber, and logs
/// stay local. And nothing but a process-wide registry can refuse it.
pub proof fn lemma_local_only(config: Config, r: Result<Session, Error>)
    requires
        Session::built(config, r),
        config@.uri is None,
    ensures
        r matches Ok(session) ==> {
            &&& !session@.has_trace_layer()
            &&& !session@.has_metrics_layer()
            &&& !session@.exports(Signal::Logs)
        },
        r matches Err(e) ==> is_installation(e, config),
        !config.signals.logs && !config.signals.trace && !config.signals.metrics ==> r is Ok,
{
}

/// A collector URI whose scheme is not `http`, `https` or `grpc` makes the
/// construction fail, and the error carries exactly that scheme.
pub proof fn lemma_unsupported_scheme(
    config: Config,
    uri: Seq<char>,
    scheme: Seq<char>,
    address: Seq<char>,
    r: Result<Session, Error>,
)
    requires
        Session::built(config, r),
        config@.uri == Some(uri),
        crate::config::parsed_url(uri) == Some((scheme, address)),
        scheme != "http"@,
        scheme != "https"@,
        scheme != "grpc"@,
    ensures
        r matches Err(Error::UnsupportedUrlScheme(s)) && s@ == scheme,
{
}

/// Once a session is in the slot, every initialisation returns a handle to
/// that session and leaves the slot as it is, whatever its configuration.
pub proof fn lemma_init_is_idempotent(
    slot: SessionSlot,
    stored: SessionView,
    config: Config,
    after: SessionSlot,
    r: Result<Session, Error>,
)
    requires
        slot@ == Some(stored),
        initialized(slot, config, after, r),
    ensures
        r matches Ok(session) && session@ == stored,
        after@ == slot@,
{
}

/// Of two initialisations of an empty slot, one after the other, the first
/// that succeeds decides: where the first succeeds, the second returns a
/// handle to the same session, which carries the tags of the first
/// configuration.
pub proof fn lemma_first_configuration_wins(
    empty: SessionSlot,
    first: Config,
    between: SessionSlot,
    r1: Result<Session, Error>,
    second: Config,
    after: SessionSlot,
    r2: Result<Session, Error>,
)
    requires
        empty@ is None,
        initialized(empty, first, between, r1),
        initialized(between, second, after, r2),
        r1 is Ok,
    ensures
        r2 matches Ok(session) && session@ == r1->Ok_0@,
        after@ == Some(r1->Ok_0@),
        attributes(r2->Ok_0@.resource) == service_tags(
            first@.service_name,
            first@.service_version,
        ),
{
}

/// An initialisation that fails commits nothing: the slot stays empty, and
/// the next initialisation builds afresh from its own configuration.
pub proof fn lemma_failed_init_commits_nothing(
    empty: SessionSlot,
    first: Config,
    between: SessionSlot,
    r1: Result<Session, Error>,
    second: Config,
    after: SessionSlot,
    r2: Result<Session, Error>,
)
    requires
        empty@ is None,
        initialized(empty, first, between, r1),
        initialized(between, second, after, r2),
        r1 is Err,
    ensures
        between@ is None,
        Session::built(second, r2),
{
}

/// A teardown shuts the pipelines down in the order metrics, trace, logs,
/// and leaves none behind, so that a second teardown has nothing to do.
pub proof fn lemma_teardown_order(session: SessionView)
    ensures
        session.drained().teardown_order() == Seq::<Signal>::empty(),
        session.exports(Signal::Metrics) && session.exports(Signal::Trace) && session.exports(
            Signal::Logs,
        ) ==> session.teardown_order() == seq![Signal::Metrics, Signal::Trace, Signal::Logs],
{
    assert(session.drained().teardown_order() =~= Seq::<Signal>::empty());
    if session.exports(Signal::Metrics) && session.exports(Signal::Trace) && session.exports(
        Signal::Logs,
    ) {
        assert(session.teardown_order() =~= seq![Signal::Metrics, Signal::Trace, Signal::Logs]);
    }
}

} // verus!
