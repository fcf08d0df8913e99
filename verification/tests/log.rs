use env_logger::fmt::style::{AnsiColor, Style};
use log::Log;
use opentelemetry_sdk::logs::LogError;
use pulse::common::tags;
use pulse::log::{write_record, Delivery, LogConfig, LogLevel, LogProvider, Styler};
use pulse::{Config, Error};
use std::io::Write;
use std::sync::{Arc, Mutex};

fn multi_thread_runtime() -> tokio::runtime::Runtime {
    tokio::runtime::Builder::new_multi_thread().worker_threads(2).enable_all().build().unwrap()
}

fn local_provider(level: LogLevel) -> LogProvider {
    let mut config = Config::default();
    config.service_name = "svc".to_owned();
    config.log.level = level;
    LogProvider::new(tags(&config), &config).unwrap()
}

#[test]
fn default_log_level_is_info() {
    assert_eq!(LogLevel::default(), LogLevel::Info);
    let config = LogConfig::default();
    assert_eq!(config.level, LogLevel::Info);
    assert!(config.extra_modules.is_empty());
}

#[test]
fn severities_run_from_error_to_trace() {
    assert_eq!(LogLevel::Error.severity(), 1);
    assert_eq!(LogLevel::Warn.severity(), 2);
    assert_eq!(LogLevel::Info.severity(), 3);
    assert_eq!(LogLevel::Debug.severity(), 4);
    assert_eq!(LogLevel::Trace.severity(), 5);
}

#[test]
fn a_level_allows_itself_and_what_is_more_severe() {
    let levels =
        [LogLevel::Error, LogLevel::Warn, LogLevel::Info, LogLevel::Debug, LogLevel::Trace];
    for (i, filter) in levels.iter().enumerate() {
        for (j, record) in levels.iter().enumerate() {
            assert_eq!(filter.allows(*record), j <= i);
        }
    }
}

#[test]
fn log_levels_convert_to_the_facade_and_back() {
    assert_eq!(log::Level::from(LogLevel::Error), log::Level::Error);
    assert_eq!(log::Level::from(LogLevel::Warn), log::Level::Warn);
    assert_eq!(log::Level::from(LogLevel::Info), log::Level::Info);
    assert_eq!(log::Level::from(LogLevel::Debug), log::Level::Debug);
    assert_eq!(log::Level::from(LogLevel::Trace), log::Level::Trace);
    assert_eq!(LogLevel::from_level(log::Level::Error), LogLevel::Error);
    assert_eq!(LogLevel::from_level(log::Level::Warn), LogLevel::Warn);
    assert_eq!(LogLevel::from_level(log::Level::Info), LogLevel::Info);
    assert_eq!(LogLevel::from_level(log::Level::Debug), LogLevel::Debug);
    assert_eq!(LogLevel::from_level(log::Level::Trace), LogLevel::Trace);
}

#[test]
fn log_config_clone_keeps_level_and_modules() {
    let config = LogConfig {
        level: LogLevel::Warn,
        extra_modules: vec!["hyper".to_owned(), String::new(), "tonic::transport".to_owned()],
    };
    let copy = config.clone();
    assert_eq!(copy.level, LogLevel::Warn);
    assert_eq!(
        copy.extra_modules,
        vec!["hyper".to_owned(), String::new(), "tonic::transport".to_owned()]
    );
}

#[test]
fn console_line_of_an_info_record() {
    let styler = Styler::new("svc");
    let line = styler.format("2024-05-06T07:08:09Z", log::Level::Info, Some("svc::api"), "ready");
    assert_eq!(
        line,
        "\x1b[3m\x1b[30m2024-05-06T07:08:09Z\x1b[0m [\x1b[1m\x1b[30msvc\x1b[0m:\x1b[32mINFO \x1b[0m] [svc::api] ready"
    );
}

#[test]
fn console_line_paints_each_level_in_its_colour() {
    let styler = Styler::new("s");
    let head = "\x1b[3m\x1b[30mT\x1b[0m [\x1b[1m\x1b[30ms\x1b[0m:";
    assert_eq!(
        styler.format("T", log::Level::Error, Some("m"), "x"),
        format!("{}\x1b[31mERROR\x1b[0m] [m] x", head)
    );
    assert_eq!(
        styler.format("T", log::Level::Warn, Some("m"), "x"),
        format!("{}\x1b[33mWARN \x1b[0m] [m] x", head)
    );
    assert_eq!(
        styler.format("T", log::Level::Info, Some("m"), "x"),
        format!("{}\x1b[32mINFO \x1b[0m] [m] x", head)
    );
    assert_eq!(
        styler.format("T", log::Level::Debug, Some("m"), "x"),
        format!("{}\x1b[34mDEBUG\x1b[0m] [m] x", head)
    );
    assert_eq!(
        styler.format("T", log::Level::Trace, Some("m"), "x"),
        format!("{}\x1b[97mTRACE\x1b[0m] [m] x", head)
    );
}

#[test]
fn console_line_without_a_module_keeps_both_spaces() {
    let styler = Styler::new("svc");
    let line = styler.format("T", log::Level::Warn, None, "careful");
    assert_eq!(
        line,
        "\x1b[3m\x1b[30mT\x1b[0m [\x1b[1m\x1b[30msvc\x1b[0m:\x1b[33mWARN \x1b[0m]  careful"
    );
}

#[test]
fn console_line_of_empty_pieces() {
    let styler = Styler::new("");
    let line = styler.format("", log::Level::Trace, Some(""), "");
    assert_eq!(line, "\x1b[3m\x1b[30m\x1b[0m [\x1b[1m\x1b[30m\x1b[0m:\x1b[97mTRACE\x1b[0m] [] ");
}

#[test]
fn console_line_agrees_with_the_styles_of_the_console_crate() {
    let timestamp = Style::new().fg_color(Some(AnsiColor::Black.into())).italic();
    let name = Style::new().fg_color(Some(AnsiColor::Black.into())).bold();
    let level = Style::new().fg_color(Some(AnsiColor::Blue.into()));
    let expected = format!(
        "{timestamp}{}{timestamp:#} [{name}{}{name:#}:{level}{:5}{level:#}] {} {}",
        "now",
        "svc",
        log::Level::Debug,
        "[here]",
        "text",
    );
    assert_eq!(Styler::new("svc").format("now", log::Level::Debug, Some("here"), "text"), expected);
}

#[test]
fn provider_without_a_collector_stays_local() {
    let provider = local_provider(LogLevel::Info);
    assert!(!provider.is_remote());
}

#[test]
fn provider_clone_shares_the_state() {
    let provider = local_provider(LogLevel::Info);
    assert!(!provider.clone().is_remote());
    let rt = multi_thread_runtime();
    let _guard = rt.enter();
    let mut config = Config::default();
    config.uri = Some("http://localhost:4318".to_owned());
    let provider = LogProvider::new(tags(&config), &config).unwrap();
    assert!(provider.clone().is_remote());
}

#[test]
fn provider_refuses_a_bad_collector() {
    let mut config = Config::default();
    config.uri = Some("localhost:4317/".to_owned());
    match LogProvider::new(tags(&config), &config) {
        Err(Error::UnsupportedUrlScheme(scheme)) => assert_eq!(scheme, "localhost"),
        other => panic!("unexpected: {:?}", other.is_ok()),
    }
    config.uri = Some("4317".to_owned());
    assert!(matches!(LogProvider::new(tags(&config), &config), Err(Error::InvalidUrl(_))));
}

#[test]
fn provider_needs_a_runtime_for_a_collector() {
    let mut config = Config::default();
    config.uri = Some("grpc://localhost:4317".to_owned());
    assert!(matches!(LogProvider::new(tags(&config), &config), Err(Error::NoRuntime(_))));
}

#[test]
fn provider_with_a_collector_is_remote_over_each_transport() {
    let rt = multi_thread_runtime();
    let _guard = rt.enter();
    for uri in ["grpc://localhost:4317", "http://localhost:4318", "https://localhost:4318"] {
        let mut config = Config::default();
        config.uri = Some(uri.to_owned());
        let provider = LogProvider::new(tags(&config), &config).unwrap();
        assert!(provider.is_remote());
    }
}

#[test]
fn local_logger_routes_to_the_console_alone() {
    let logger = local_provider(LogLevel::Info).logger().unwrap();
    assert_eq!(logger.route(log::Level::Error), Delivery { local: true, remote: false });
    assert_eq!(logger.route(log::Level::Warn), Delivery { local: true, remote: false });
    assert_eq!(logger.route(log::Level::Info), Delivery { local: true, remote: false });
    assert_eq!(logger.route(log::Level::Debug), Delivery { local: false, remote: false });
    assert_eq!(logger.route(log::Level::Trace), Delivery { local: false, remote: false });
}

#[test]
fn remote_logger_routes_to_both_sinks_or_to_neither() {
    let rt = multi_thread_runtime();
    let _guard = rt.enter();
    let mut config = Config::default();
    config.uri = Some("grpc://localhost:4317".to_owned());
    config.log.level = LogLevel::Warn;
    let logger = LogProvider::new(tags(&config), &config).unwrap().logger().unwrap();
    assert_eq!(logger.route(log::Level::Error), Delivery { local: true, remote: true });
    assert_eq!(logger.route(log::Level::Warn), Delivery { local: true, remote: true });
    assert_eq!(logger.route(log::Level::Info), Delivery { local: false, remote: false });
    assert_eq!(logger.route(log::Level::Debug), Delivery { local: false, remote: false });
    assert_eq!(logger.route(log::Level::Trace), Delivery { local: false, remote: false });
}

#[test]
fn building_a_logger_sets_the_maximum_level() {
    log::set_max_level(log::LevelFilter::Off);
    let _logger = local_provider(LogLevel::Debug).logger().unwrap();
    assert_eq!(log::max_level(), log::LevelFilter::Debug);
    let _logger = local_provider(LogLevel::Error).logger().unwrap();
    assert_eq!(log::max_level(), log::LevelFilter::Error);
}

#[test]
fn logger_is_enabled_at_and_above_its_level() {
    let logger = local_provider(LogLevel::Info).logger().unwrap();
    let enabled =
        |level: log::Level| logger.enabled(&log::Metadata::builder().level(level).build());
    assert!(enabled(log::Level::Error));
    assert!(enabled(log::Level::Warn));
    assert!(enabled(log::Level::Info));
    assert!(!enabled(log::Level::Debug));
    assert!(!enabled(log::Level::Trace));
}

#[test]
fn logger_takes_and_flushes_records() {
    let mut config = Config::default();
    config.service_name = "svc".to_owned();
    config.log.level = LogLevel::Trace;
    config.log.extra_modules = vec!["other".to_owned(), "svc".to_owned()];
    let logger = LogProvider::new(tags(&config), &config).unwrap().logger().unwrap();
    for level in [log::Level::Error, log::Level::Info, log::Level::Trace] {
        for target in ["svc::api", "other", "elsewhere"] {
            logger.log(&log::Record::builder().level(level).target(target).build());
        }
    }
    logger.flush();
}

#[test]
fn remote_logger_takes_records_and_shuts_down() {
    let rt = multi_thread_runtime();
    let _guard = rt.enter();
    let mut config = Config::default();
    config.uri = Some("http://localhost:4318".to_owned());
    let mut provider = LogProvider::new(tags(&config), &config).unwrap();
    let logger = provider.logger().unwrap();
    logger.log(&log::Record::builder().level(log::Level::Debug).target("pulse").build());
    logger.flush();
    let _ = provider.shutdown();
    assert!(!provider.is_remote());
    assert_eq!(provider.shutdown(), None);
}

#[test]
fn shutdown_of_a_local_provider_does_nothing() {
    let mut provider = local_provider(LogLevel::Info);
    assert_eq!(provider.shutdown(), None);
    assert!(!provider.is_remote());
    assert_eq!(provider.shutdown(), None);
}

#[test]
fn second_shutdown_of_the_same_pipeline_is_diagnosed() {
    let rt = multi_thread_runtime();
    let _guard = rt.enter();
    let mut config = Config::default();
    config.uri = Some("http://localhost:4318".to_owned());
    let mut provider = LogProvider::new(tags(&config), &config).unwrap();
    let mut other = provider.clone();
    assert_eq!(provider.shutdown(), None);
    assert_eq!(
        other.shutdown(),
        Some("failed to shutdown log provider: LoggerProvider already shutdown".to_owned())
    );
    assert!(!other.is_remote());
}

#[test]
fn diagnostic_names_the_log_provider() {
    assert_eq!(LogProvider::diagnose(Ok(())), None);
    assert_eq!(
        LogProvider::diagnose(Err(LogError::Other("boom".into()))),
        Some("failed to shutdown log provider: boom".to_owned())
    );
    assert_eq!(
        LogProvider::diagnose(Err(LogError::AlreadyShutdown(String::new()))),
        Some("failed to shutdown log provider:  already shutdown".to_owned())
    );
}

#[test]
fn console_shows_the_service_and_the_extra_modules_at_the_level() {
    let mut config = Config::default();
    config.service_name = "svc".to_owned();
    config.log.level = LogLevel::Info;
    config.log.extra_modules = vec!["other".to_owned(), "tonic::transport".to_owned()];
    let logger = LogProvider::new(tags(&config), &config).unwrap().logger().unwrap();
    assert!(logger.console_shows(log::Level::Error, "svc"));
    assert!(logger.console_shows(log::Level::Info, "svc::api"));
    assert!(logger.console_shows(log::Level::Info, "svcx"));
    assert!(!logger.console_shows(log::Level::Debug, "svc::api"));
    assert!(!logger.console_shows(log::Level::Trace, "svc"));
    assert!(logger.console_shows(log::Level::Warn, "other"));
    assert!(logger.console_shows(log::Level::Info, "other::deep"));
    assert!(!logger.console_shows(log::Level::Debug, "other::deep"));
    assert!(logger.console_shows(log::Level::Info, "tonic::transport::channel"));
    assert!(!logger.console_shows(log::Level::Error, "tonic"));
    assert!(!logger.console_shows(log::Level::Error, "tonic::codec"));
    assert!(!logger.console_shows(log::Level::Error, "elsewhere"));
    assert!(!logger.console_shows(log::Level::Error, "sv"));
    assert!(!logger.console_shows(log::Level::Error, "SVC"));
    assert!(!logger.console_shows(log::Level::Error, ""));
}

#[test]
fn console_follows_the_configured_level() {
    for (level, shown) in [
        (LogLevel::Error, [true, false, false, false, false]),
        (LogLevel::Warn, [true, true, false, false, false]),
        (LogLevel::Info, [true, true, true, false, false]),
        (LogLevel::Debug, [true, true, true, true, false]),
        (LogLevel::Trace, [true, true, true, true, true]),
    ] {
        let logger = local_provider(level).logger().unwrap();
        let records = [
            log::Level::Error,
            log::Level::Warn,
            log::Level::Info,
            log::Level::Debug,
            log::Level::Trace,
        ];
        for (record, expected) in records.iter().zip(shown.iter()) {
            assert_eq!(logger.console_shows(*record, "svc::here"), *expected);
            assert!(!logger.console_shows(*record, "there"));
        }
    }
}

#[test]
fn console_of_a_service_without_a_name_shows_every_module() {
    let mut config = Config::default();
    config.service_name = String::new();
    let logger = LogProvider::new(tags(&config), &config).unwrap().logger().unwrap();
    assert!(logger.console_shows(log::Level::Info, "anything"));
    assert!(logger.console_shows(log::Level::Error, ""));
    assert!(!logger.console_shows(log::Level::Debug, "anything"));
}

#[test]
fn console_takes_a_module_that_is_named_twice_once() {
    let mut config = Config::default();
    config.service_name = "svc".to_owned();
    config.log.level = LogLevel::Warn;
    config.log.extra_modules =
        vec!["svc".to_owned(), "dep".to_owned(), "dep".to_owned(), "svc::api".to_owned()];
    let logger = LogProvider::new(tags(&config), &config).unwrap().logger().unwrap();
    assert!(logger.console_shows(log::Level::Warn, "svc::api::v1"));
    assert!(logger.console_shows(log::Level::Warn, "dep"));
    assert!(!logger.console_shows(log::Level::Info, "dep"));
    assert!(!logger.console_shows(log::Level::Warn, "de"));
}

/// A sink in memory that the console logger can print into.
struct Captured(Arc<Mutex<Vec<u8>>>);

impl Write for Captured {
    fn write(&mut self, bytes: &[u8]) -> std::io::Result<usize> {
        self.0.lock().unwrap().extend_from_slice(bytes);
        Ok(bytes.len())
    }

    fn flush(&mut self) -> std::io::Result<()> {
        Ok(())
    }
}

fn capturing_console(service_name: &str) -> (env_logger::Logger, Arc<Mutex<Vec<u8>>>) {
    let captured = Arc::new(Mutex::new(Vec::new()));
    let styler = Styler::new(service_name);
    let logger = env_logger::Builder::new()
        .filter_level(log::LevelFilter::Trace)
        .write_style(env_logger::WriteStyle::Always)
        .target(env_logger::Target::Pipe(Box::new(Captured(captured.clone()))))
        .format(move |buf, record| write_record(&styler, buf, record))
        .build();
    (logger, captured)
}

#[test]
fn a_record_is_written_as_one_line_of_the_styler() {
    let (logger, captured) = capturing_console("svc");
    logger.log(
        &log::Record::builder()
            .level(log::Level::Warn)
            .target("svc")
            .module_path_static(Some("svc::api"))
            .build(),
    );
    let text = String::from_utf8(captured.lock().unwrap().clone()).unwrap();
    let head = "\x1b[3m\x1b[30m";
    let tail = "\x1b[0m [\x1b[1m\x1b[30msvc\x1b[0m:\x1b[33mWARN \x1b[0m] [svc::api] \n";
    assert!(text.starts_with(head));
    assert!(text.ends_with(tail));
    let time = &text[head.len()..text.len() - tail.len()];
    assert_eq!(time.len(), "1970-01-01T00:00:00Z".len());
    assert!(time.ends_with('Z'));
    assert_eq!(
        text,
        format!(
            "{}\n",
            Styler::new("svc").format(time, log::Level::Warn, Some("svc::api"), "")
        )
    );
}

#[test]
fn each_record_appends_its_own_line() {
    let (logger, captured) = capturing_console("s");
    logger.log(&log::Record::builder().level(log::Level::Error).target("s").build());
    logger.log(&log::Record::builder().level(log::Level::Trace).target("s").build());
    let text = String::from_utf8(captured.lock().unwrap().clone()).unwrap();
    let lines: Vec<&str> = text.split_inclusive('\n').collect();
    assert_eq!(lines.len(), 2);
    assert!(lines[0].ends_with(":\x1b[31mERROR\x1b[0m]  \n"));
    assert!(lines[1].ends_with(":\x1b[97mTRACE\x1b[0m]  \n"));
}

#[test]
fn a_logger_at_trace_is_enabled_for_every_level() {
    let logger = local_provider(LogLevel::Trace).logger().unwrap();
    for level in [
        log::Level::Error,
        log::Level::Warn,
        log::Level::Info,
        log::Level::Debug,
        log::Level::Trace,
    ] {
        for target in ["svc", "elsewhere", ""] {
            assert!(logger.enabled(&log::Metadata::builder().level(level).target(target).build()));
        }
    }
}

#[test]
fn enabled_looks_at_the_level_and_not_at_the_target() {
    let logger = local_provider(LogLevel::Warn).logger().unwrap();
    for target in ["svc", "svc::api", "elsewhere", ""] {
        let at = |level: log::Level| {
            logger.enabled(&log::Metadata::builder().level(level).target(target).build())
        };
        assert!(at(log::Level::Error));
        assert!(at(log::Level::Warn));
        assert!(!at(log::Level::Info));
        assert!(!at(log::Level::Debug));
        assert!(!at(log::Level::Trace));
    }
}
