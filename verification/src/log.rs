//! The log signal: its configuration, the provider that owns the remote log
//! pipeline, and the logger that fans records out to the console and to the
//! collector.
use crate::config::{target_of, Config, Target};
use crate::error::Error;
use crate::exporter::{connect, Exporter, Signal};
use env_logger::fmt::style::{AnsiColor, Effects, Style};
use env_logger::fmt::Formatter;
use env_logger::Builder;
use log::Log;
use opentelemetry_appender_log::OpenTelemetryLogBridge;
use opentelemetry_otlp::LogExporter;
use opentelemetry_sdk::logs::LogError;
use opentelemetry_sdk::logs::LoggerProvider as OtelLoggerProvider;
use opentelemetry_sdk::Resource;
use std::fmt::Write as _;
use std::io::Write;
use tokio::runtime::Handle;
use vstd::prelude::*;

verus! {

#[verifier::external_type_specification]
pub struct ExLevel(log::Level);

#[verifier::external_type_specification]
pub struct ExLevelFilter(log::LevelFilter);

#[verifier::external_type_specification]
#[verifier::external_body]
pub struct ExRecord<'a>(log::Record<'a>);

#[verifier::external_type_specification]
#[verifier::external_body]
pub struct ExMetadata<'a>(log::Metadata<'a>);

#[verifier::external_type_specification]
#[verifier::external_body]
pub struct ExFormatter(Formatter);

#[verifier::external_type_specification]
#[verifier::external_body]
pub struct ExBuilder(Builder);

#[verifier::external_type_specification]
#[verifier::external_body]
pub struct ExEnvLogger(env_logger::Logger);

#[verifier::external_type_specification]
#[verifier::external_body]
pub struct ExIoError(std::io::Error);

#[verifier::external_type_specification]
#[verifier::external_body]
pub struct ExOtelLoggerProvider(OtelLoggerProvider);

/// How verbose a log sink is. Each level admits itself and every level that
/// is more severe.
#[derive(Clone, Copy, Debug, PartialEq, Eq, Structural)]
pub enum LogLevel {
    Error,
    Warn,
    Info,
    Debug,
    Trace,
}

impl LogLevel {
    /// The position of the level from the most severe (1) to the most
    /// verbose (5).
    pub open spec fn rank(self) -> int {
        match self {
            LogLevel::Error => 1,
            LogLevel::Warn => 2,
            LogLevel::Info => 3,
            LogLevel::Debug => 4,
            LogLevel::Trace => 5,
        }
    }

    /// Whether a sink filtered at `self` lets a record of level `record` pass.
    pub open spec fn admits(self, record: LogLevel) -> bool {
        record.rank() <= self.rank()
    }

    /// The exec twin of [`LogLevel::rank`].
    pub fn severity(self) -> (n: u8)
        ensures
            n == self.rank(),
    {
        match self {
            LogLevel::Error => 1,
            LogLevel::Warn => 2,
            LogLevel::Info => 3,
            LogLevel::Debug => 4,
            LogLevel::Trace => 5,
        }
    }

    /// Whether a sink filtered at `self` lets a record of level `record` pass.
    pub fn allows(self, record: LogLevel) -> (pass: bool)
        ensures
            pass == self.admits(record),
    {
        record.severity() <= self.severity()
    }

    /// The level of the logging facade that stands for `self`.
    pub open spec fn facade(self) -> log::Level {
        match self {
            LogLevel::Error => log::Level::Error,
            LogLevel::Warn => log::Level::Warn,
            LogLevel::Info => log::Level::Info,
            LogLevel::Debug => log::Level::Debug,
            LogLevel::Trace => log::Level::Trace,
        }
    }

    /// The level that a level of the logging facade stands for.
    pub open spec fn of(level: log::Level) -> LogLevel {
        match level {
            log::Level::Error => LogLevel::Error,
            log::Level::Warn => LogLevel::Warn,
            log::Level::Info => LogLevel::Info,
            log::Level::Debug => LogLevel::Debug,
            log::Level::Trace => LogLevel::Trace,
        }
    }

    /// The level that a level of the logging facade stands for.
    pub fn from_level(level: log::Level) -> (own: LogLevel)
        ensures
            own == LogLevel::of(level),
            own.facade() == level,
    {
        match level {
            log::Level::Error => LogLevel::Error,
            log::Level::Warn => LogLevel::Warn,
            log::Level::Info => LogLevel::Info,
            log::Level::Debug => LogLevel::Debug,
            log::Level::Trace => LogLevel::Trace,
        }
    }
}

impl From<LogLevel> for log::Level {
    fn from(value: LogLevel) -> (level: log::Level) {
        match value {
            LogLevel::Error => log::Level::Error,
            LogLevel::Warn => log::Level::Warn,
            LogLevel::Info => log::Level::Info,
            LogLevel::Debug => log::Level::Debug,
            LogLevel::Trace => log::Level::Trace,
        }
    }
}

impl vstd::std_specs::convert::FromSpecImpl<LogLevel> for log::Level {
    open spec fn obeys_from_spec() -> bool {
        true
    }

    open spec fn from_spec(value: LogLevel) -> log::Level {
        value.facade()
    }
}

impl Default for LogLevel {
    fn default() -> (level: Self)
        ensures
            level == LogLevel::Info,
    {
        LogLevel::Info
    }
}

/// The `log` section of the configuration.
#[derive(Debug)]
pub struct LogConfig {
    /// The least severe level that is still logged.
    pub level: LogLevel,
    /// Modules, besides the service itself, whose records the console shows.
    pub extra_modules: Vec<String>,
}

/// What a [`LogConfig`] holds, as mathematical values.
pub struct LogConfigView {
    pub level: LogLevel,
    pub extra_modules: Seq<Seq<char>>,
}

impl View for LogConfig {
    type V = LogConfigView;

    open spec fn view(&self) -> LogConfigView {
        LogConfigView {
            level: self.level,
            extra_modules: Seq::new(self.extra_modules@.len(), |i: int| self.extra_modules@[i]@),
        }
    }
}

impl Default for LogConfig {
    fn default() -> (config: Self)
        ensures
            config@.level == LogLevel::Info,
            config@.extra_modules == Seq::<Seq<char>>::empty(),
    {
        LogConfig { level: LogLevel::Info, extra_modules: Vec::new() }
    }
}

impl Clone for LogConfig {
    fn clone(&self) -> (copy: Self)
        ensures
            copy@ == self@,
    {
        let mut modules: Vec<String> = Vec::new();
        let mut i: usize = 0;
        while i < self.extra_modules.len()
            invariant
                i <= self.extra_modules.len(),
                modules@.len() == i,
                forall|j: int| 0 <= j < i ==> modules@[j]@ == self.extra_modules@[j]@,
            decreases self.extra_modules.len() - i,
        {
            modules.push(self.extra_modules[i].clone());
            i += 1;
        }
        let copy = LogConfig { level: self.level, extra_modules: modules };
        assert(copy@.extra_modules =~= self@.extra_modules);
        copy
    }
}

/// The colours that the console line uses.
#[derive(Clone, Copy, Debug, PartialEq, Eq, Structural)]
pub enum Color {
    Black,
    Red,
    Green,
    Yellow,
    Blue,
    BrightWhite,
}

/// How a piece of the console line is painted.
#[derive(Clone, Copy, Debug, PartialEq, Eq, Structural)]
pub struct Paint {
    pub color: Color,
    pub bold: bool,
    pub italic: bool,
}

/// The escape sequences around a painted piece of text.
pub struct Codes {
    /// Switches the paint on.
    pub open: Seq<char>,
    /// Switches it off again.
    pub close: Seq<char>,
}

impl Paint {
    /// A colour without emphasis.
    pub open spec fn plain(color: Color) -> Paint {
        Paint { color, bold: false, italic: false }
    }

    /// The escape sequences of the paint: bold, then italic, then the
    /// foreground colour; and the reset that ends them.
    pub open spec fn codes(self) -> Codes {
        Codes {
            open: (if self.bold {
                "\x1b[1m"@
            } else {
                Seq::<char>::empty()
            }) + (if self.italic {
                "\x1b[3m"@
            } else {
                Seq::<char>::empty()
            }) + (match self.color {
                Color::Black => "\x1b[30m"@,
                Color::Red => "\x1b[31m"@,
                Color::Green => "\x1b[32m"@,
                Color::Yellow => "\x1b[33m"@,
                Color::Blue => "\x1b[34m"@,
                Color::BrightWhite => "\x1b[97m"@,
            }),
            close: "\x1b[0m"@,
        }
    }
}

/// The escape sequences of a paint, rendered once.
#[derive(Debug)]
pub struct Escape {
    pub open: String,
    pub close: String,
}

impl View for Escape {
    type V = Codes;

    open spec fn view(&self) -> Codes {
        Codes { open: self.open@, close: self.close@ }
    }
}

/// The `Display` of a `Style` with the foreground colour and the effects of
/// the paint, plain and alternate: one escape sequence for each effect in
/// the order bold, italic, then that of the colour; and the reset, which a
/// style with a colour always has.
#[verifier::external_body]
fn render(paint: Paint) -> (escape: Escape)
    ensures
        escape@ == paint.codes(),
{
    let color = match paint.color {
        Color::Black => AnsiColor::Black,
        Color::Red => AnsiColor::Red,
        Color::Green => AnsiColor::Green,
        Color::Yellow => AnsiColor::Yellow,
        Color::Blue => AnsiColor::Blue,
        Color::BrightWhite => AnsiColor::BrightWhite,
    };
    let effects = Effects::new().set(Effects::BOLD, paint.bold).set(Effects::ITALIC, paint.italic);
    let style = Style::new().fg_color(Some(color.into())).effects(effects);
    Escape { open: format!("{style}"), close: format!("{style:#}") }
}

/// The name of a level in the width of the longest.
pub open spec fn padded_label(level: log::Level) -> Seq<char> {
    match level {
        log::Level::Error => "ERROR"@,
        log::Level::Warn => "WARN "@,
        log::Level::Info => "INFO "@,
        log::Level::Debug => "DEBUG"@,
        log::Level::Trace => "TRACE"@,
    }
}

/// Where a record comes from, as the line shows it: the module path in
/// square brackets, or nothing.
pub open spec fn location(module: Option<Seq<char>>) -> Seq<char> {
    match module {
        Some(path) => "["@ + path + "]"@,
        None => Seq::<char>::empty(),
    }
}

/// Formats the lines of the console sink.
#[derive(Debug)]
pub struct Styler {
    service_name: String,
    timestamp_style: Escape,
    service_name_style: Escape,
    error_style: Escape,
    warn_style: Escape,
    info_style: Escape,
    debug_style: Escape,
    trace_style: Escape,
}

/// What a [`Styler`] holds.
pub struct StylerView {
    pub service_name: Seq<char>,
    pub timestamp_style: Codes,
    pub service_name_style: Codes,
    pub error_style: Codes,
    pub warn_style: Codes,
    pub info_style: Codes,
    pub debug_style: Codes,
    pub trace_style: Codes,
}

impl StylerView {
    /// The styler of a service: the timestamp in black italics, the service
    /// name in black bold, and one colour for each level.
    pub open spec fn of(service_name: Seq<char>) -> StylerView {
        StylerView {
            service_name,
            timestamp_style: (Paint { color: Color::Black, bold: false, italic: true }).codes(),
            service_name_style: (Paint { color: Color::Black, bold: true, italic: false }).codes(),
            error_style: Paint::plain(Color::Red).codes(),
            warn_style: Paint::plain(Color::Yellow).codes(),
            info_style: Paint::plain(Color::Green).codes(),
            debug_style: Paint::plain(Color::Blue).codes(),
            trace_style: Paint::plain(Color::BrightWhite).codes(),
        }
    }

    /// The paint of a level.
    pub open spec fn level_style(self, level: log::Level) -> Codes {
        match level {
            log::Level::Error => self.error_style,
            log::Level::Warn => self.warn_style,
            log::Level::Info => self.info_style,
            log::Level::Debug => self.debug_style,
            log::Level::Trace => self.trace_style,
        }
    }

    /// The line of one record:
    /// `timestamp [service:LEVEL] [module] message`, the timestamp, the
    /// service name and the level each inside its paint.
    pub open spec fn line(
        self,
        timestamp: Seq<char>,
        level: log::Level,
        module: Option<Seq<char>>,
        args: Seq<char>,
    ) -> Seq<char> {
        self.timestamp_style.open + timestamp + self.timestamp_style.close + " ["@
            + self.service_name_style.open + self.service_name + self.service_name_style.close
            + ":"@ + self.level_style(level).open + padded_label(level) + self.level_style(
            level,
        ).close + "] "@ + location(module) + " "@ + args
    }
}

impl View for Styler {
    type V = StylerView;

    closed spec fn view(&self) -> StylerView {
        StylerView {
            service_name: self.service_name@,
            timestamp_style: self.timestamp_style@,
            service_name_style: self.service_name_style@,
            error_style: self.error_style@,
            warn_style: self.warn_style@,
            info_style: self.info_style@,
            debug_style: self.debug_style@,
            trace_style: self.trace_style@,
        }
    }
}

fn padded(level: log::Level) -> (label: &'static str)
    ensures
        label@ == padded_label(level),
{
    match level {
        log::Level::Error => "ERROR",
        log::Level::Warn => "WARN ",
        log::Level::Info => "INFO ",
        log::Level::Debug => "DEBUG",
        log::Level::Trace => "TRACE",
    }
}

impl Styler {
    /// The styler of a service.
    pub fn new(service_name: &str) -> (styler: Self)
        ensures
            styler@ == StylerView::of(service_name@),
    {
        Styler {
            service_name: service_name.to_owned(),
            timestamp_style: render(Paint { color: Color::Black, bold: false, italic: true }),
            service_name_style: render(Paint { color: Color::Black, bold: true, italic: false }),
            error_style: render(Paint { color: Color::Red, bold: false, italic: false }),
            warn_style: render(Paint { color: Color::Yellow, bold: false, italic: false }),
            info_style: render(Paint { color: Color::Green, bold: false, italic: false }),
            debug_style: render(Paint { color: Color::Blue, bold: false, italic: false }),
            trace_style: render(Paint { color: Color::BrightWhite, bold: false, italic: false }),
        }
    }

    /// The console line of one record, without the line end.
    pub fn format(
        &self,
        timestamp: &str,
        level: log::Level,
        module: Option<&str>,
        args: &str,
    ) -> (line: String)
        ensures
            line@ == self@.line(
                timestamp@,
                level,
                match module {
                    Some(path) => Some(path@),
                    None => None,
                },
                args@,
            ),
    {
        let level_style = match level {
            log::Level::Error => &self.error_style,
            log::Level::Warn => &self.warn_style,
            log::Level::Info => &self.info_style,
            log::Level::Debug => &self.debug_style,
            log::Level::Trace => &self.trace_style,
        };
        let mut line = self.timestamp_style.open.clone();
        line.append(timestamp);
        line.append(self.timestamp_style.close.as_str());
        line.append(" [");
        line.append(self.service_name_style.open.as_str());
        line.append(self.service_name.as_str());
        line.append(self.service_name_style.close.as_str());
        line.append(":");
        line.append(level_style.open.as_str());
        line.append(padded(level));
        line.append(level_style.close.as_str());
        line.append("] ");
        match module {
            Some(path) => {
                line.append("[");
                line.append(path);
                line.append("]");
            },
            None => {},
        }
        line.append(" ");
        line.append(args);
        proof {
            let path = match module {
                Some(path) => Some(path@),
                None => None,
            };
            assert(line@ =~= self@.line(timestamp@, level, path, args@));
        }
        line
    }
}

/// `Record::level`.
#[verifier::external_body]
fn record_level(record: &log::Record) -> (level: log::Level) {
    record.level()
}

/// `Record::module_path_static`: the module that the record comes from,
/// where the record holds it as a static string, as every record made by the
/// logging macros does.
#[verifier::external_body]
fn record_module(record: &log::Record) -> (module: Option<String>) {
    record.module_path_static().map(|path| path.to_owned())
}

/// `Record::args`, formatted: the message of the record, or the error of a
/// value in it that fails to format itself.
#[verifier::external_body]
fn record_message(record: &log::Record) -> (r: Result<String, std::io::Error>) {
    let mut text = String::new();
    match write!(text, "{}", record.args()) {
        Ok(()) => Ok(text),
        Err(_) => Err(std::io::Error::other("formatter error")),
    }
}

/// `Metadata::level`.
#[verifier::external_body]
fn metadata_level(metadata: &log::Metadata) -> (level: log::Level) {
    metadata.level()
}

/// `Formatter::timestamp`, formatted: the time of the call, to the second,
/// or an error where the clock shows a time that cannot be written as a
/// date.
#[verifier::external_body]
fn timestamp(buf: &Formatter) -> (r: Result<String, std::io::Error>) {
    let mut text = String::new();
    match write!(text, "{}", buf.timestamp()) {
        Ok(()) => Ok(text),
        Err(_) => Err(std::io::Error::other("formatter error")),
    }
}

/// The bytes that the buffer of the console sink holds: what was written
/// into it and is not yet printed.
pub uninterp spec fn buffered(buf: Formatter) -> Seq<u8>;

/// The bytes of one line of the console: the text and the line end, in
/// UTF-8.
pub open spec fn line_bytes(line: Seq<char>) -> Seq<u8> {
    vstd::utf8::encode_utf8(line) + vstd::utf8::encode_utf8("\n"@)
}

/// `Write::write_fmt` of the buffer of the console sink: appends one line,
/// with its line end, to what the buffer holds. The buffer is a vector of
/// bytes in memory, so the write never fails.
#[verifier::external_body]
fn write_line(buf: &mut Formatter, line: &str) -> (r: Result<(), std::io::Error>)
    ensures
        r is Ok,
        buffered(*final(buf)) == buffered(*old(buf)) + line_bytes(line@),
{
    writeln!(buf, "{}", line)
}

/// Formats one record into the buffer of the console sink: it appends
/// exactly one line, laid out by the styler from the time of the call and
/// from the level, the module and the message of the record. Where the time
/// or the message cannot be formatted, that is an error and nothing is
/// appended.
pub fn write_record(styler: &Styler, buf: &mut Formatter, record: &log::Record) -> (r: Result<
    (),
    std::io::Error,
>)
    ensures
        match r {
            Ok(()) => exists|
                time: Seq<char>,
                level: log::Level,
                module: Option<Seq<char>>,
                message: Seq<char>,
            |
                buffered(*final(buf)) == buffered(*old(buf)) + line_bytes(
                    #[trigger] styler@.line(time, level, module, message),
                ),
            Err(_) => buffered(*final(buf)) == buffered(*old(buf)),
        },
{
    let time = match timestamp(buf) {
        Ok(time) => time,
        Err(e) => {
            return Err(e);
        },
    };
    let module = record_module(record);
    let message = match record_message(record) {
        Ok(message) => message,
        Err(e) => {
            return Err(e);
        },
    };
    let line = styler.format(
        time.as_str(),
        record_level(record),
        match &module {
            Some(path) => Some(path.as_str()),
            None => None,
        },
        message.as_str(),
    );
    write_line(buf, line.as_str())
}

/// The filter that shows a level and every level that is more severe.
pub open spec fn filter_of(level: log::Level) -> log::LevelFilter {
    match level {
        log::Level::Error => log::LevelFilter::Error,
        log::Level::Warn => log::LevelFilter::Warn,
        log::Level::Info => log::LevelFilter::Info,
        log::Level::Debug => log::LevelFilter::Debug,
        log::Level::Trace => log::LevelFilter::Trace,
    }
}

/// `Level::to_level_filter`: the filter that shows the level and every level
/// that is more severe.
#[verifier::external_body]
fn to_level_filter(level: log::Level) -> (filter: log::LevelFilter)
    ensures
        filter == filter_of(level),
{
    level.to_level_filter()
}

/// The directives of a console builder: for each module that it names, and
/// under `None` for all modules, the most verbose level that it shows.
pub uninterp spec fn directives(builder: Builder) -> Map<Option<Seq<char>>, log::LevelFilter>;

/// The directives that a console logger works with.
pub uninterp spec fn filters(logger: env_logger::Logger) -> Map<
    Option<Seq<char>>,
    log::LevelFilter,
>;

/// No directive at all.
pub open spec fn no_directives() -> Map<Option<Seq<char>>, log::LevelFilter> {
    Map::empty()
}

/// The directives that a logger gets from those of its builder: the same,
/// or, where the builder has none, the one that shows the errors of every
/// module.
pub open spec fn effective(directives: Map<Option<Seq<char>>, log::LevelFilter>) -> Map<
    Option<Seq<char>>,
    log::LevelFilter,
> {
    if directives.dom() =~= Set::empty() {
        no_directives().insert(None, log::LevelFilter::Error)
    } else {
        directives
    }
}

/// The position of a level from the most severe (1) to the most verbose (5).
pub open spec fn level_rank(level: log::Level) -> int {
    match level {
        log::Level::Error => 1,
        log::Level::Warn => 2,
        log::Level::Info => 3,
        log::Level::Debug => 4,
        log::Level::Trace => 5,
    }
}

/// The position of the most verbose level that a filter shows; 0 for the
/// filter that shows nothing.
pub open spec fn filter_rank(filter: log::LevelFilter) -> int {
    match filter {
        log::LevelFilter::Off => 0,
        log::LevelFilter::Error => 1,
        log::LevelFilter::Warn => 2,
        log::LevelFilter::Info => 3,
        log::LevelFilter::Debug => 4,
        log::LevelFilter::Trace => 5,
    }
}

/// Whether a directive speaks of a target: one for all modules does, and one
/// for a module does if the target begins with the module's name.
pub open spec fn applies(name: Option<Seq<char>>, target: Seq<char>) -> bool {
    match name {
        Some(name) => name.is_prefix_of(target),
        None => true,
    }
}

/// How specific a directive is: the length of the name of its module.
pub open spec fn specificity(name: Option<Seq<char>>) -> nat {
    match name {
        Some(name) => name.len(),
        None => 0,
    }
}

/// Whether the directive under `name` decides for a target: it speaks of the
/// target, and no directive that does is more specific.
pub open spec fn decides(
    filters: Map<Option<Seq<char>>, log::LevelFilter>,
    target: Seq<char>,
    name: Option<Seq<char>>,
) -> bool {
    &&& filters.dom().contains(name)
    &&& applies(name, target)
    &&& forall|other: Option<Seq<char>>|
        filters.dom().contains(other) && applies(other, target) ==> specificity(other)
            <= specificity(name)
}

/// Whether a console with these directives shows a record of the level from
/// the target: whether the directive that decides for the target shows the
/// level.
pub open spec fn shown(
    filters: Map<Option<Seq<char>>, log::LevelFilter>,
    level: log::Level,
    target: Seq<char>,
) -> bool {
    exists|name: Option<Seq<char>>| #[trigger]
        decides(filters, target, name) && level_rank(level) <= filter_rank(filters[name])
}

/// Whether at most one directive can decide for any target: whether the
/// directive for all modules and one for the module of the empty name are
/// not both there.
pub open spec fn unambiguous(filters: Map<Option<Seq<char>>, log::LevelFilter>) -> bool {
    !(filters.dom().contains(None) && filters.dom().contains(Some(Seq::empty())))
}

/// `Builder::new`: a builder without directives. It reads nothing from the
/// environment.
#[verifier::external_body]
fn new_builder() -> (fresh: Builder)
    ensures
        directives(fresh) == no_directives(),
{
    Builder::new()
}

/// `Builder::filter` for a named module: adds the directive, or replaces the
/// level of the directive that names the same module.
#[verifier::external_body]
fn add_filter(builder: &mut Builder, module: &str, level: log::LevelFilter)
    ensures
        directives(*final(builder)) == directives(*old(builder)).insert(Some(module@), level),
{
    builder.filter(Some(module), level);
}

/// `Builder::format`: every record that the logger prints is formatted by
/// the styler. The directives stay as they are.
#[verifier::external_body]
fn set_format(builder: &mut Builder, styler: Styler)
    ensures
        directives(*final(builder)) == directives(*old(builder)),
{
    builder.format(move |buf, record| write_record(&styler, buf, record));
}

/// `Builder::build`: the logger with the builder's directives, or with the
/// one that shows the errors of every module where the builder has none. It
/// takes the builder by value, and every builder comes from `Builder::new`,
/// so none is ever built twice.
#[verifier::external_body]
fn build_logger(builder: Builder) -> (logger: env_logger::Logger)
    ensures
        filters(logger) == effective(directives(builder)),
{
    let mut builder = builder;
    builder.build()
}

/// `Log::enabled` of the console logger, for the metadata of a level and a
/// target: the most specific directive that speaks of the target decides,
/// and it shows the level and what is more severe. Where two directives of
/// the same specificity speak of a target, the order in which they were
/// added decides, so nothing is said of that case.
#[verifier::external_body]
fn console_enabled(logger: &env_logger::Logger, level: log::Level, target: &str) -> (enabled: bool)
    ensures
        unambiguous(filters(*logger)) ==> enabled == shown(filters(*logger), level, target@),
{
    logger.enabled(&log::Metadata::builder().level(level).target(target).build())
}

/// `log::set_max_level`: sets the level above which the logging macros do
/// not even call the process-wide sink.
#[verifier::external_body]
fn set_max_level(level: log::LevelFilter) {
    log::set_max_level(level)
}

/// `Log::log` of the console logger: prints the record if a directive admits
/// it.
#[verifier::external_body]
fn local_log(logger: &env_logger::Logger, record: &log::Record) {
    logger.log(record)
}

/// `Log::flush` of the console logger.
#[verifier::external_body]
fn local_flush(logger: &env_logger::Logger) {
    logger.flush()
}

/// `OpenTelemetryLogBridge::new(..).log(..)`: bridges the record to the
/// pipeline, which queues it for the collector. It does not wait for the
/// network.
#[verifier::external_body]
fn remote_log(pipeline: &OtelLoggerProvider, record: &log::Record) {
    OpenTelemetryLogBridge::new(pipeline).log(record)
}

/// `OpenTelemetryLogBridge::new(..).flush()`: the flush of the bridge to the
/// pipeline.
#[verifier::external_body]
fn remote_flush(pipeline: &OtelLoggerProvider) {
    OpenTelemetryLogBridge::new(pipeline).flush()
}

/// `LoggerProvider::builder().with_resource(..).with_batch_exporter(..,
/// runtime::Tokio).build()`, inside the runtime, on which the batch
/// processor spawns its worker.
#[verifier::external_body]
fn build_pipeline(rt: &Handle, resource: Resource, exporter: LogExporter) -> (pipeline:
    OtelLoggerProvider) {
    let _context = rt.enter();
    OtelLoggerProvider::builder()
        .with_resource(resource)
        .with_batch_exporter(exporter, opentelemetry_sdk::runtime::Tokio)
        .build()
}

/// `LoggerProvider::clone`: a new reference to the same provider.
#[verifier::external_body]
fn clone_pipeline(pipeline: &OtelLoggerProvider) -> (copy: OtelLoggerProvider)
    ensures
        copy == *pipeline,
{
    pipeline.clone()
}

/// `LoggerProvider::shutdown`: flushes what is pending and shuts the log
/// processors down. It waits for the worker on the runtime to answer, and
/// fails where the worker is gone, where a processor fails, or where the
/// provider was shut down before. It does not return while the worker
/// cannot run, so it is not to be called from the one thread that the
/// worker would need.
#[verifier::external_body]
fn shutdown_pipeline(pipeline: &OtelLoggerProvider) -> (r: Result<(), LogError>) {
    pipeline.shutdown()
}

/// The directives of the console sink of a service: the service itself and
/// each extra module, all at the configured level.
pub open spec fn console_filters(
    service_name: Seq<char>,
    extra_modules: Seq<Seq<char>>,
    level: log::LevelFilter,
) -> Map<Option<Seq<char>>, log::LevelFilter> {
    Map::new(
        |name: Option<Seq<char>>|
            name matches Some(module) && (module == service_name || extra_modules.contains(
                module,
            )),
        |name: Option<Seq<char>>| level,
    )
}

proof fn lemma_take_contains(modules: Seq<Seq<char>>, i: int, module: Seq<char>)
    requires
        0 <= i < modules.len(),
    ensures
        modules.take(i + 1).contains(module) <==> (modules.take(i).contains(module) || module
            == modules[i]),
{
    let shorter = modules.take(i);
    let longer = modules.take(i + 1);
    if longer.contains(module) {
        let j = choose|j: int| 0 <= j < longer.len() && longer[j] == module;
        if j < i {
            assert(shorter[j] == module);
        }
    }
    if shorter.contains(module) {
        let j = choose|j: int| 0 <= j < shorter.len() && shorter[j] == module;
        assert(longer[j] == module);
    }
    if module == modules[i] {
        assert(longer[i] == module);
    }
}

/// Which sinks a record is handed to.
#[derive(Clone, Copy, Debug, PartialEq, Eq, Structural)]
pub struct Delivery {
    pub local: bool,
    pub remote: bool,
}

/// The logger that is installed process-wide: it hands each record that
/// passes the level filter to the console sink and then, if there is one, to
/// the remote pipeline.
pub struct FanoutLogger {
    level: LogLevel,
    otel_logger: Option<OtelLoggerProvider>,
    std_logger: env_logger::Logger,
}

/// What a [`FanoutLogger`] holds.
pub struct FanoutLoggerView {
    /// The least severe level that passes.
    pub level: LogLevel,
    /// The directives of the console sink.
    pub filters: Map<Option<Seq<char>>, log::LevelFilter>,
    /// The remote pipeline, if there is one.
    pub remote: Option<OtelLoggerProvider>,
}

impl View for FanoutLogger {
    type V = FanoutLoggerView;

    closed spec fn view(&self) -> FanoutLoggerView {
        FanoutLoggerView {
            level: self.level,
            filters: filters(self.std_logger),
            remote: self.otel_logger,
        }
    }
}

impl FanoutLogger {
    /// The console sink has no directive for all modules: it shows only
    /// what comes from a module that it names.
    #[verifier::type_invariant]
    closed spec fn names_every_module(self) -> bool {
        !filters(self.std_logger).dom().contains(None)
    }
}

impl FanoutLoggerView {
    /// Whether the console sink shows a record of the level from the target,
    /// once the record is handed to it.
    pub open spec fn console_shows(self, level: log::Level, target: Seq<char>) -> bool {
        shown(self.filters, level, target)
    }

    /// Which sinks a record of `level` is handed to: both, or the console
    /// alone where there is no pipeline, if the level passes the filter;
    /// neither if it does not.
    pub open spec fn route(self, level: log::Level) -> Delivery {
        Delivery {
            local: self.level.admits(LogLevel::of(level)),
            remote: self.level.admits(LogLevel::of(level)) && self.remote is Some,
        }
    }
}

proof fn lemma_most_specific(names: Seq<Seq<char>>, target: Seq<char>) -> (k: int)
    requires
        exists|i: int| 0 <= i < names.len() && (#[trigger] names[i]).is_prefix_of(target),
    ensures
        0 <= k < names.len(),
        names[k].is_prefix_of(target),
        forall|j: int|
            0 <= j < names.len() && (#[trigger] names[j]).is_prefix_of(target) ==> names[j].len()
                <= names[k].len(),
    decreases names.len(),
{
    let last = names.len() - 1;
    let rest = names.drop_last();
    if exists|i: int| 0 <= i < rest.len() && (#[trigger] rest[i]).is_prefix_of(target) {
        let best = lemma_most_specific(rest, target);
        assert forall|j: int| 0 <= j < rest.len() implies rest[j] == names[j] by {}
        if names[last].is_prefix_of(target) && names[last].len() > rest[best].len() {
            last
        } else {
            best
        }
    } else {
        let i = choose|i: int| 0 <= i < names.len() && (#[trigger] names[i]).is_prefix_of(target);
        if i < last {
            assert(rest[i].is_prefix_of(target));
        }
        assert forall|j: int|
            0 <= j < names.len() && (#[trigger] names[j]).is_prefix_of(target) implies names[j].len()
            <= names[last].len() by {
            if j < last {
                assert(rest[j].is_prefix_of(target));
            }
        }
        last
    }
}

/// The console of a service shows a record exactly if the level of the
/// record passes the configured level and the target of the record begins
/// with the name of the service or of one of the extra modules.
pub proof fn lemma_console_of_a_service(
    service_name: Seq<char>,
    extra_modules: Seq<Seq<char>>,
    configured: log::Level,
    level: log::Level,
    target: Seq<char>,
)
    ensures
        shown(console_filters(service_name, extra_modules, filter_of(configured)), level, target)
            <==> (level_rank(level) <= level_rank(configured) && (service_name.is_prefix_of(target)
            || exists|i: int|
            0 <= i < extra_modules.len() && (#[trigger] extra_modules[i]).is_prefix_of(target))),
{
    let filters = console_filters(service_name, extra_modules, filter_of(configured));
    let names = seq![service_name] + extra_modules;
    if shown(filters, level, target) {
        let name = choose|name: Option<Seq<char>>| #[trigger]
            decides(filters, target, name) && level_rank(level) <= filter_rank(filters[name]);
        let module = name->Some_0;
        if module != service_name {
            let i = choose|i: int| 0 <= i < extra_modules.len() && extra_modules[i] == module;
            assert(extra_modules[i].is_prefix_of(target));
        }
    }
    if level_rank(level) <= level_rank(configured) && (service_name.is_prefix_of(target)
        || exists|i: int|
        0 <= i < extra_modules.len() && (#[trigger] extra_modules[i]).is_prefix_of(target)) {
        if service_name.is_prefix_of(target) {
            assert(names[0].is_prefix_of(target));
        } else {
            let i = choose|i: int|
                0 <= i < extra_modules.len() && (#[trigger] extra_modules[i]).is_prefix_of(target);
            assert(names[i + 1].is_prefix_of(target));
        }
        let k = lemma_most_specific(names, target);
        let name = Some(names[k]);
        if k > 0 {
            assert(extra_modules[k - 1] == names[k]);
        }
        assert forall|other: Option<Seq<char>>|
            filters.dom().contains(other) && applies(other, target) implies specificity(other)
            <= specificity(name) by {
            let module = other->Some_0;
            if module == service_name {
                assert(names[0] == module);
            } else {
                let j = choose|j: int| 0 <= j < extra_modules.len() && extra_modules[j] == module;
                assert(names[j + 1] == module);
            }
        }
        assert(decides(filters, target, name));
    }
}

/// A record below the level of the logger reaches neither sink. A record at
/// or above it reaches the console, and reaches the collector exactly where
/// there is a pipeline. So no record reaches the collector alone.
pub proof fn lemma_both_sinks_or_neither(logger: FanoutLoggerView, level: log::Level)
    ensures
        !logger.level.admits(LogLevel::of(level)) ==> logger.route(level) == (Delivery {
            local: false,
            remote: false,
        }),
        logger.level.admits(LogLevel::of(level)) ==> logger.route(level) == (Delivery {
            local: true,
            remote: logger.remote is Some,
        }),
        logger.route(level).remote ==> logger.route(level).local,
{
}

/// The provider of the log signal. It owns the remote log pipeline, if there
/// is one.
pub struct LogProvider {
    service_name: String,
    config: LogConfig,
    otel_log_provider: Option<OtelLoggerProvider>,
}

/// What a [`LogProvider`] holds.
pub struct LogProviderView {
    pub service_name: Seq<char>,
    pub config: LogConfigView,
    pub pipeline: Option<OtelLoggerProvider>,
}

impl View for LogProvider {
    type V = LogProviderView;

    closed spec fn view(&self) -> LogProviderView {
        LogProviderView {
            service_name: self.service_name@,
            config: self.config@,
            pipeline: self.otel_log_provider,
        }
    }
}

impl FanoutLogger {
    /// Builds the logger of a provider: the console sink filtered at the
    /// configured level for the service and the extra modules, and the
    /// bridge to the provider's pipeline where it has one. It also sets the
    /// process-wide maximum level to the configured one.
    pub fn new(provider: &LogProvider, service_name: &str, config: &LogConfig) -> (r: Result<
        Self,
        Error,
    >)
        ensures
            r matches Ok(logger) && logger@ == (FanoutLoggerView {
                level: config.level,
                filters: console_filters(
                    service_name@,
                    config@.extra_modules,
                    filter_of(config.level.facade()),
                ),
                remote: provider@.pipeline,
            }),
    {
        let otel_logger = match &provider.otel_log_provider {
            Some(pipeline) => Some(clone_pipeline(pipeline)),
            None => None,
        };
        let level: log::Level = log::Level::from(config.level);
        let filter = to_level_filter(level);
        set_max_level(filter);
        let styler = Styler::new(service_name);
        let mut builder = new_builder();
        add_filter(&mut builder, service_name, filter);
        set_format(&mut builder, styler);
        assert(directives(builder) =~= console_filters(
            service_name@,
            config@.extra_modules.take(0),
            filter,
        ));
        let mut i: usize = 0;
        while i < config.extra_modules.len()
            invariant
                i <= config.extra_modules.len(),
                directives(builder) == console_filters(
                    service_name@,
                    config@.extra_modules.take(i as int),
                    filter,
                ),
            decreases config.extra_modules.len() - i,
        {
            add_filter(&mut builder, config.extra_modules[i].as_str(), filter);
            proof {
                let modules = config@.extra_modules;
                let next = console_filters(service_name@, modules.take(i + 1), filter);
                assert(modules[i as int] == config.extra_modules@[i as int]@);
                assert forall|name: Option<Seq<char>>|
                    directives(builder).dom().contains(name) <==> next.dom().contains(name) by {
                    match name {
                        Some(module) => lemma_take_contains(modules, i as int, module),
                        None => {},
                    }
                }
                assert(directives(builder).dom() =~= next.dom());
                assert(directives(builder) =~= next);
            }
            i += 1;
        }
        assert(config@.extra_modules.take(i as int) =~= config@.extra_modules);
        assert(directives(builder).dom().contains(Some(service_name@)));
        Ok(FanoutLogger { level: config.level, otel_logger, std_logger: build_logger(builder) })
    }

    /// Whether the console sink shows a record of the level from the target,
    /// once the record is handed to it: whether the most specific of its
    /// directives that speaks of the target shows the level.
    pub fn console_shows(&self, level: log::Level, target: &str) -> (shows: bool)
        ensures
            shows == self@.console_shows(level, target@),
    {
        proof {
            use_type_invariant(self);
        }
        console_enabled(&self.std_logger, level, target)
    }

    /// Which sinks a record of `level` is handed to.
    pub fn route(&self, level: log::Level) -> (delivery: Delivery)
        ensures
            delivery == self@.route(level),
    {
        let pass = self.level.allows(LogLevel::from_level(level));
        Delivery { local: pass, remote: pass && self.otel_logger.is_some() }
    }
}

impl Log for FanoutLogger {
    /// Whether a record with this metadata would be handed to any sink:
    /// whether the level that the metadata carries passes the level of the
    /// logger. The target plays no part.
    fn enabled(&self, metadata: &log::Metadata) -> (enabled: bool)
        ensures
            exists|level: log::Level| enabled == #[trigger] self@.route(level).local,
    {
        let level = metadata_level(metadata);
        let delivery = self.route(level);
        assert(delivery.local == self@.route(level).local);
        delivery.local
    }

    fn log(&self, record: &log::Record) {
        let delivery = self.route(record_level(record));
        if delivery.local {
            local_log(&self.std_logger, record);
        }
        if delivery.remote {
            match &self.otel_logger {
                Some(pipeline) => remote_log(pipeline, record),
                None => {},
            }
        }
    }

    fn flush(&self) {
        local_flush(&self.std_logger);
        match &self.otel_logger {
            Some(pipeline) => remote_flush(pipeline),
            None => {},
        }
    }
}

impl LogProvider {
    /// What [`LogProvider::new`] may return for a configuration.
    pub open spec fn built(config: Config, r: Result<LogProvider, Error>) -> bool {
        match config@.uri {
            None => r matches Ok(p) && p@ == (LogProviderView {
                service_name: config@.service_name,
                config: config@.log,
                pipeline: None,
            }),
            Some(uri) => match target_of(uri) {
                Target::Invalid => r matches Err(Error::InvalidUrl(_)),
                Target::Unsupported(scheme) => r matches Err(Error::UnsupportedUrlScheme(s)) && s@
                    == scheme,
                Target::Collector(_, _) => match r {
                    Ok(p) => {
                        &&& p@.service_name == config@.service_name
                        &&& p@.config == config@.log
                        &&& p@.pipeline is Some
                    },
                    Err(e) => e is NoRuntime || e is SingleThreadedRuntime || e is OtelLog,
                },
            },
        }
    }

    /// Builds the provider. It has a remote pipeline if and only if the
    /// configuration names a collector; without one, logs stay local. A
    /// collector that cannot be used is an error, never a silent fallback.
    pub fn new(otel_resource: Resource, config: &Config) -> (r: Result<Self, Error>)
        ensures
            Self::built(*config, r),
    {
        let otel_log_provider = match connect(Signal::Logs, &config.uri) {
            Err(e) => {
                return Err(e);
            },
            Ok(None) => None,
            Ok(Some((rt, Exporter::Logs(exporter)))) => Some(
                build_pipeline(&rt, otel_resource, exporter),
            ),
            Ok(Some(_)) => {
                // The factory hands out the exporter of the signal asked for.
                assert(false);
                None
            },
        };
        Ok(
            LogProvider {
                otel_log_provider,
                service_name: config.service_name.clone(),
                config: config.log.clone(),
            },
        )
    }

    /// The logger that fans records out for this provider.
    pub fn logger(&self) -> (r: Result<FanoutLogger, Error>)
        ensures
            r matches Ok(logger) && logger@ == (FanoutLoggerView {
                level: self@.config.level,
                filters: console_filters(
                    self@.service_name,
                    self@.config.extra_modules,
                    filter_of(self@.config.level.facade()),
                ),
                remote: self@.pipeline,
            }),
    {
        FanoutLogger::new(self, self.service_name.as_str(), &self.config)
    }

    /// Whether the provider exports to a collector.
    pub fn is_remote(&self) -> (remote: bool)
        ensures
            remote == self@.pipeline is Some,
    {
        self.otel_log_provider.is_some()
    }

    /// What a shutdown reports for each outcome of shutting the pipeline
    /// down: nothing where it went well, else the reason behind a prefix
    /// that names the provider.
    pub fn diagnose(outcome: Result<(), LogError>) -> (diagnostic: Option<String>)
        ensures
            diagnostic is None <==> outcome is Ok,
            diagnostic matches Some(text) ==> "failed to shutdown log provider: "@.is_prefix_of(
                text@,
            ),
    {
        match outcome {
            Ok(()) => None,
            Err(e) => {
                let prefix = "failed to shutdown log provider: ";
                let reason = e.to_string();
                let text = String::from_str(prefix).concat(reason.as_str());
                assert(text@.subrange(0, prefix@.len() as int) =~= prefix@);
                Some(text)
            },
        }
    }

    /// Shuts the remote pipeline down. The pipeline is given up whatever
    /// happens, so a second call does nothing; the console sink is not
    /// touched. A failure is reported as a diagnostic and never raised.
    pub fn shutdown(&mut self) -> (diagnostic: Option<String>)
        ensures
            final(self)@ == (LogProviderView { pipeline: None, ..old(self)@ }),
            old(self)@.pipeline is None ==> diagnostic is None,
            diagnostic matches Some(text) ==> "failed to shutdown log provider: "@.is_prefix_of(
                text@,
            ),
    {
        match self.otel_log_provider.take() {
            Some(pipeline) => Self::diagnose(shutdown_pipeline(&pipeline)),
            None => None,
        }
    }
}

impl Clone for LogProvider {
    fn clone(&self) -> (copy: Self)
        ensures
            copy@ == self@,
    {
        LogProvider {
            service_name: self.service_name.clone(),
            config: self.config.clone(),
            otel_log_provider: match &self.otel_log_provider {
                Some(pipeline) => Some(clone_pipeline(pipeline)),
                None => None,
            },
        }
    }
}

} // verus!
