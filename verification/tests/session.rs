use opentelemetry::{Key, Value};
use pulse::config::Signals;
use pulse::exporter::Signal;
use pulse::log::LogLevel;
use pulse::session::{init, Session, SessionSlot, ShutdownStep};
use pulse::{Config, Error};
use std::time::Duration;

fn worker_runtime() -> tokio::runtime::Runtime {
    tokio::runtime::Builder::new_multi_thread().worker_threads(2).enable_all().build().unwrap()
}

fn named(name: &str, uri: Option<&str>) -> Config {
    let mut config = Config::default();
    config.service_name = name.to_owned();
    config.uri = uri.map(|uri| uri.to_owned());
    config
}

fn service_name(session: &Session) -> Option<Value> {
    session.otel_resource.get(Key::new("service.name"))
}

fn signals(report: &[ShutdownStep]) -> Vec<Signal> {
    report.iter().map(|step| step.signal).collect()
}

#[test]
fn session_without_a_collector_has_no_layer_and_exports_nothing() {
    let session = Session::new(&named("svc", None)).unwrap();
    assert!(session.carries(Signal::Logs));
    assert!(session.carries(Signal::Trace));
    assert!(session.carries(Signal::Metrics));
    assert!(!session.exports(Signal::Logs));
    assert!(!session.exports(Signal::Trace));
    assert!(!session.exports(Signal::Metrics));
    assert_eq!(service_name(&session), Some(Value::from("svc")));
    assert_eq!(
        session.otel_resource.get(Key::new("service.version")),
        Some(Value::from("0.1.0"))
    );
}

#[test]
fn session_without_a_collector_needs_no_runtime() {
    assert!(Session::new(&Config::default()).is_ok());
}

#[test]
fn session_with_a_collector_exports_every_signal() {
    let rt = worker_runtime();
    let _guard = rt.enter();
    let session = Session::new(&named("svc", Some("grpc://localhost:4317"))).unwrap();
    assert!(session.exports(Signal::Logs));
    assert!(session.exports(Signal::Trace));
    assert!(session.exports(Signal::Metrics));
}

#[test]
fn session_over_http_exports_every_signal() {
    let rt = worker_runtime();
    let _guard = rt.enter();
    let session = Session::new(&named("svc", Some("http://localhost:4318"))).unwrap();
    assert!(session.exports(Signal::Logs));
    assert!(session.exports(Signal::Trace));
    assert!(session.exports(Signal::Metrics));
}

#[test]
fn session_installs_the_log_sink_and_the_subscriber() {
    let mut config = named("svc", None);
    config.log.level = LogLevel::Debug;
    let _session = Session::new(&config).unwrap();
    assert_eq!(log::max_level(), log::LevelFilter::Debug);
    assert!(log::set_boxed_logger(Box::new(env_logger::Builder::new().build())).is_err());
    assert!(tracing::dispatcher::has_been_set());
}

#[test]
fn session_carries_only_the_signals_that_are_switched_on() {
    let rt = worker_runtime();
    let _guard = rt.enter();
    let mut config = named("svc", Some("grpc://localhost:4317"));
    config.signals = Signals { logs: false, trace: true, metrics: false };
    let session = Session::new(&config).unwrap();
    assert!(!session.carries(Signal::Logs));
    assert!(session.carries(Signal::Trace));
    assert!(!session.carries(Signal::Metrics));
    assert!(!session.exports(Signal::Logs));
    assert!(session.exports(Signal::Trace));
    assert!(!session.exports(Signal::Metrics));
    assert!(log::set_boxed_logger(Box::new(env_logger::Builder::new().build())).is_ok());
    assert!(tracing::dispatcher::has_been_set());
}

#[test]
fn session_without_any_signal_installs_nothing() {
    let mut config = named("svc", Some("grpc://localhost:4317"));
    config.signals = Signals { logs: false, trace: false, metrics: false };
    let session = Session::new(&config).unwrap();
    assert!(!session.carries(Signal::Logs));
    assert!(!session.carries(Signal::Trace));
    assert!(!session.carries(Signal::Metrics));
    assert!(!tracing::dispatcher::has_been_set());
    assert!(log::set_boxed_logger(Box::new(env_logger::Builder::new().build())).is_ok());
    assert_eq!(service_name(&session), Some(Value::from("svc")));
}

#[test]
fn session_with_logs_alone_installs_no_subscriber() {
    let mut config = named("svc", None);
    config.signals = Signals { logs: true, trace: false, metrics: false };
    let session = Session::new(&config).unwrap();
    assert!(session.carries(Signal::Logs));
    assert!(!tracing::dispatcher::has_been_set());
    assert!(log::set_boxed_logger(Box::new(env_logger::Builder::new().build())).is_err());
}

#[test]
fn session_refuses_an_unsupported_scheme_and_carries_it() {
    for (uri, scheme) in [
        ("ftp://localhost:4317", "ftp"),
        ("HTTPX://localhost:4317", "httpx"),
        ("grpcs://localhost", "grpcs"),
        ("file:///var/run/collector.sock", "file"),
        ("localhost:4317", "localhost"),
    ] {
        match Session::new(&named("svc", Some(uri))) {
            Err(Error::UnsupportedUrlScheme(carried)) => assert_eq!(carried, scheme),
            other => panic!("unexpected: {:?}", other.is_ok()),
        }
    }
    assert!(!tracing::dispatcher::has_been_set());
    assert!(log::set_boxed_logger(Box::new(env_logger::Builder::new().build())).is_ok());
}

#[test]
fn session_refuses_an_unsupported_scheme_even_with_every_signal_off() {
    let mut config = named("svc", Some("ftp://localhost:4317"));
    config.signals = Signals { logs: false, trace: false, metrics: false };
    match Session::new(&config) {
        Err(Error::UnsupportedUrlScheme(carried)) => assert_eq!(carried, "ftp"),
        other => panic!("unexpected: {:?}", other.is_ok()),
    }
}

#[test]
fn session_refuses_what_is_no_url() {
    for uri in ["", "collector", "//localhost:4317", "http://"] {
        assert!(matches!(Session::new(&named("svc", Some(uri))), Err(Error::InvalidUrl(_))));
    }
    assert!(!tracing::dispatcher::has_been_set());
}

#[test]
fn session_with_a_collector_needs_a_runtime() {
    let result = Session::new(&named("svc", Some("grpc://localhost:4317")));
    assert!(matches!(result, Err(Error::NoRuntime(_))));
    assert!(!tracing::dispatcher::has_been_set());
    assert!(log::set_boxed_logger(Box::new(env_logger::Builder::new().build())).is_ok());
}

#[test]
fn second_session_is_refused_by_the_log_registry() {
    assert!(Session::new(&named("one", None)).is_ok());
    assert!(matches!(Session::new(&named("two", None)), Err(Error::SetLoggerError(_))));
}

#[test]
fn second_session_without_logs_is_refused_by_the_subscriber_registry() {
    let mut config = named("one", None);
    config.signals = Signals { logs: false, trace: true, metrics: true };
    assert!(Session::new(&config).is_ok());
    assert!(matches!(Session::new(&config), Err(Error::SetSubscriberError(_))));
}

#[test]
fn teardown_goes_from_metrics_over_trace_to_logs() {
    let rt = worker_runtime();
    let _guard = rt.enter();
    let mut session = Session::new(&named("svc", Some("grpc://localhost:4317"))).unwrap();
    let report = session.shutdown();
    assert_eq!(signals(&report), vec![Signal::Metrics, Signal::Trace, Signal::Logs]);
    assert!(!session.exports(Signal::Logs));
    assert!(!session.exports(Signal::Trace));
    assert!(!session.exports(Signal::Metrics));
    assert!(session.carries(Signal::Logs));
    assert!(session.carries(Signal::Trace));
    assert!(session.carries(Signal::Metrics));
    assert!(session.shutdown().is_empty());
}

#[test]
fn teardown_goes_on_after_a_failure() {
    let rt = worker_runtime();
    let _guard = rt.enter();
    let mut session = Session::new(&named("svc", Some("http://localhost:4318"))).unwrap();
    let mut other = session.clone();
    let first = session.shutdown();
    assert_eq!(signals(&first), vec![Signal::Metrics, Signal::Trace, Signal::Logs]);
    let second = other.shutdown();
    assert_eq!(signals(&second), vec![Signal::Metrics, Signal::Trace, Signal::Logs]);
    let metrics = second[0].diagnostic.clone().unwrap();
    assert!(metrics.starts_with("failed to shutdown metrics provider: "));
    assert_eq!(
        second[1].diagnostic,
        Some("failed to shutdown trace provider: TracerProvider already shutdown".to_owned())
    );
    assert_eq!(
        second[2].diagnostic,
        Some("failed to shutdown log provider: LoggerProvider already shutdown".to_owned())
    );
    assert!(!other.exports(Signal::Metrics));
    assert!(!other.exports(Signal::Trace));
    assert!(!other.exports(Signal::Logs));
}

#[test]
fn teardown_skips_what_is_not_there() {
    let rt = worker_runtime();
    let _guard = rt.enter();
    let mut config = named("svc", Some("grpc://localhost:4317"));
    config.signals = Signals { logs: true, trace: false, metrics: true };
    let mut session = Session::new(&config).unwrap();
    assert_eq!(signals(&session.shutdown()), vec![Signal::Metrics, Signal::Logs]);
}

#[test]
fn teardown_of_a_local_session_does_nothing() {
    let mut session = Session::new(&named("svc", None)).unwrap();
    assert!(session.shutdown().is_empty());
    assert!(session.carries(Signal::Logs));
}

#[test]
fn teardown_leaves_the_installation_in_place() {
    let mut session = Session::new(&named("svc", None)).unwrap();
    let _ = session.shutdown();
    assert!(tracing::dispatcher::has_been_set());
    assert!(log::set_boxed_logger(Box::new(env_logger::Builder::new().build())).is_err());
}

#[test]
fn slot_starts_empty() {
    assert!(SessionSlot::new().get().is_none());
}

#[test]
fn init_fills_the_slot_once() {
    let mut slot = SessionSlot::new();
    let first = init(&mut slot, &named("first", None)).unwrap();
    assert_eq!(service_name(&first), Some(Value::from("first")));
    let stored = slot.get().unwrap();
    assert_eq!(stored.otel_resource, first.otel_resource);
}

#[test]
fn repeated_init_returns_the_first_session_whatever_the_config() {
    let mut slot = SessionSlot::new();
    let first = init(&mut slot, &named("first", None)).unwrap();
    let mut other = named("second", Some("ftp://nowhere"));
    other.service_version = "9".to_owned();
    other.log.level = LogLevel::Trace;
    let second = init(&mut slot, &other).unwrap();
    let third = init(&mut slot, &named("third", Some("not a url"))).unwrap();
    assert_eq!(service_name(&second), Some(Value::from("first")));
    assert_eq!(service_name(&third), Some(Value::from("first")));
    assert_eq!(second.otel_resource, first.otel_resource);
    assert_eq!(third.otel_resource, first.otel_resource);
    assert_eq!(log::max_level(), log::LevelFilter::Info);
    assert!(!second.exports(Signal::Logs));
}

#[test]
fn repeated_init_builds_no_second_pipeline() {
    let rt = worker_runtime();
    let _guard = rt.enter();
    let mut slot = SessionSlot::new();
    let mut first = init(&mut slot, &named("first", Some("grpc://localhost:4317"))).unwrap();
    let mut second = init(&mut slot, &named("second", Some("http://localhost:4318"))).unwrap();
    assert_eq!(service_name(&second), Some(Value::from("first")));
    assert!(first.shutdown().iter().all(|step| step.signal != Signal::Trace
        || step.diagnostic.is_none()));
    let report = second.shutdown();
    assert_eq!(
        report[1].diagnostic,
        Some("failed to shutdown trace provider: TracerProvider already shutdown".to_owned())
    );
}

#[test]
fn failed_init_leaves_the_slot_empty_and_can_be_retried() {
    let mut slot = SessionSlot::new();
    match init(&mut slot, &named("bad", Some("ftp://localhost"))) {
        Err(Error::UnsupportedUrlScheme(scheme)) => assert_eq!(scheme, "ftp"),
        other => panic!("unexpected: {:?}", other.is_ok()),
    }
    assert!(slot.get().is_none());
    assert!(matches!(
        init(&mut slot, &named("bad", Some("nonsense"))),
        Err(Error::InvalidUrl(_))
    ));
    assert!(slot.get().is_none());
    let session = init(&mut slot, &named("good", None)).unwrap();
    assert_eq!(service_name(&session), Some(Value::from("good")));
    assert!(slot.get().is_some());
}

#[test]
fn simple_service_over_grpc() {
    let rt = worker_runtime();
    let _guard = rt.enter();
    let mut config = named("simple", Some("grpc://localhost:4317"));
    config.service_version = "0.1".to_owned();
    config.metrics.export_interval = Duration::from_secs(1);
    let mut slot = SessionSlot::new();
    let mut session = init(&mut slot, &config).unwrap();
    assert_eq!(service_name(&session), Some(Value::from("simple")));
    assert!(session.exports(Signal::Metrics));
    assert!(session.exports(Signal::Trace));
    assert!(session.exports(Signal::Logs));
    assert_eq!(
        signals(&session.shutdown()),
        vec![Signal::Metrics, Signal::Trace, Signal::Logs]
    );
}
