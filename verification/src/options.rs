//! The options from which a service's collector address can be assembled:
//! a service identity, a log level and a network location.
use crate::trace::{facade_level, TraceLevel};
use vstd::prelude::*;

verus! {

/// How the service reaches its collector.
#[derive(Clone, Copy, Debug, PartialEq, Eq, Structural)]
pub enum ConnectionType {
    Grpc,
    Http,
}

impl ConnectionType {
    /// The URI scheme of the connection type.
    pub open spec fn scheme(self) -> Seq<char> {
        match self {
            ConnectionType::Grpc => "grpc"@,
            ConnectionType::Http => "http"@,
        }
    }
}

impl AsRef<str> for ConnectionType {
    fn as_ref(&self) -> (name: &str)
        ensures
            name@ == self.scheme(),
    {
        match self {
            ConnectionType::Grpc => "grpc",
            ConnectionType::Http => "http",
        }
    }
}

/// The log level of a service, as its options give it.
#[derive(Clone, Copy, Debug, PartialEq, Eq, Structural)]
pub enum LogLevel {
    Error,
    Warn,
    Info,
    Debug,
    Trace,
}

impl LogLevel {
    /// The level of the logging facade with the same name.
    pub open spec fn facade(self) -> log::Level {
        match self {
            LogLevel::Error => log::Level::Error,
            LogLevel::Warn => log::Level::Warn,
            LogLevel::Info => log::Level::Info,
            LogLevel::Debug => log::Level::Debug,
            LogLevel::Trace => log::Level::Trace,
        }
    }

    /// The trace level with the same name.
    pub open spec fn spec_trace_level(self) -> TraceLevel {
        match self {
            LogLevel::Error => TraceLevel::Error,
            LogLevel::Warn => TraceLevel::Warn,
            LogLevel::Info => TraceLevel::Info,
            LogLevel::Debug => TraceLevel::Debug,
            LogLevel::Trace => TraceLevel::Trace,
        }
    }

    /// The trace level with the same name.
    #[verifier::when_used_as_spec(spec_trace_level)]
    pub fn trace_level(self) -> (level: TraceLevel)
        ensures
            level == self.spec_trace_level(),
    {
        match self {
            LogLevel::Error => TraceLevel::Error,
            LogLevel::Warn => TraceLevel::Warn,
            LogLevel::Info => TraceLevel::Info,
            LogLevel::Debug => TraceLevel::Debug,
            LogLevel::Trace => TraceLevel::Trace,
        }
    }
}

impl From<LogLevel> for log::Level {
    fn from(value: LogLevel) -> (level: log::Level) {
        match value {
            LogLevel::Error => log::Level::Error,
            LogLevel::Warn => log::Level::Warn,
            LogLevel::Info => log::Level::Info,
            LogLevel::Debug => log::Level::Debug,
            LogLevel::Trace => log::Level::Trace,
        }
    }
}

impl vstd::std_specs::convert::FromSpecImpl<LogLevel> for log::Level {
    open spec fn obeys_from_spec() -> bool {
        true
    }

    open spec fn from_spec(value: LogLevel) -> log::Level {
        value.facade()
    }
}

impl From<LogLevel> for tracing::Level {
    fn from(value: LogLevel) -> (level: tracing::Level) {
        tracing::Level::from(value.trace_level())
    }
}

impl vstd::std_specs::convert::FromSpecImpl<LogLevel> for tracing::Level {
    open spec fn obeys_from_spec() -> bool {
        true
    }

    open spec fn from_spec(value: LogLevel) -> tracing::Level {
        facade_level(value.spec_trace_level())
    }
}

/// The less common network settings.
#[derive(Clone, Copy, Debug, PartialEq, Eq, Structural)]
pub struct AdvancedNetworkOptions {
    pub connection_type: ConnectionType,
}

impl Default for AdvancedNetworkOptions {
    fn default() -> (options: Self)
        ensures
            options.connection_type == ConnectionType::Grpc,
    {
        AdvancedNetworkOptions { connection_type: ConnectionType::Grpc }
    }
}

/// Where the collector listens.
#[derive(Debug)]
pub struct NetworkOptions {
    pub host: String,
    pub port: u16,
    pub advanced_opts: AdvancedNetworkOptions,
}

/// The character of one decimal digit.
pub open spec fn digit_char(d: nat) -> char {
    if d == 0 {
        '0'
    } else if d == 1 {
        '1'
    } else if d == 2 {
        '2'
    } else if d == 3 {
        '3'
    } else if d == 4 {
        '4'
    } else if d == 5 {
        '5'
    } else if d == 6 {
        '6'
    } else if d == 7 {
        '7'
    } else if d == 8 {
        '8'
    } else {
        '9'
    }
}

/// A number in decimal, without sign or leading zeros.
pub open spec fn decimal(n: nat) -> Seq<char>
    decreases n,
{
    if n < 10 {
        seq![digit_char(n)]
    } else {
        decimal(n / 10).push(digit_char(n % 10))
    }
}

/// The address `scheme://host:port`.
pub open spec fn uri_of(scheme: Seq<char>, host: Seq<char>, port: nat) -> Seq<char> {
    scheme + "://"@ + host + ":"@ + decimal(port)
}

fn digit_str(d: u16) -> (s: &'static str)
    requires
        d < 10,
    ensures
        s@ == seq![digit_char(d as nat)],
{
    proof {
        reveal_strlit("0");
        reveal_strlit("1");
        reveal_strlit("2");
        reveal_strlit("3");
        reveal_strlit("4");
        reveal_strlit("5");
        reveal_strlit("6");
        reveal_strlit("7");
        reveal_strlit("8");
        reveal_strlit("9");
    }
    let s = if d == 0 {
        "0"
    } else if d == 1 {
        "1"
    } else if d == 2 {
        "2"
    } else if d == 3 {
        "3"
    } else if d == 4 {
        "4"
    } else if d == 5 {
        "5"
    } else if d == 6 {
        "6"
    } else if d == 7 {
        "7"
    } else if d == 8 {
        "8"
    } else {
        "9"
    };
    assert(s@ =~= seq![digit_char(d as nat)]);
    s
}

fn decimal_text(n: u16) -> (text: String)
    ensures
        text@ == decimal(n as nat),
    decreases n,
{
    if n < 10 {
        digit_str(n).to_owned()
    } else {
        let mut text = decimal_text(n / 10);
        text.append(digit_str(n % 10));
        assert(text@ =~= decimal(n as nat));
        text
    }
}

impl NetworkOptions {
    /// The collector address that the options describe:
    /// `scheme://host:port`, the port in decimal.
    pub fn uri(&self) -> (uri: String)
        ensures
            uri@ == uri_of(self.advanced_opts.connection_type.scheme(), self.host@, self.port as nat),
    {
        let mut uri = self.advanced_opts.connection_type.as_ref().to_owned();
        uri.append("://");
        uri.append(self.host.as_str());
        uri.append(":");
        uri.append(decimal_text(self.port).as_str());
        uri
    }
}

impl Default for NetworkOptions {
    fn default() -> (options: Self)
        ensures
            options.host@ == "localhost"@,
            options.port == 4317,
            options.advanced_opts.connection_type == ConnectionType::Grpc,
    {
        NetworkOptions {
            host: "localhost".to_owned(),
            port: 4317,
            advanced_opts: AdvancedNetworkOptions::default(),
        }
    }
}

impl Clone for NetworkOptions {
    fn clone(&self) -> (copy: Self)
        ensures
            copy.host@ == self.host@,
            copy.port == self.port,
            copy.advanced_opts == self.advanced_opts,
    {
        NetworkOptions {
            host: self.host.clone(),
            port: self.port,
            advanced_opts: self.advanced_opts,
        }
    }
}

/// What a service is called, how much it logs and where its collector is.
#[derive(Debug)]
pub struct Options {
    pub service_name: String,
    pub service_version: String,
    pub log_level: LogLevel,
    pub network: NetworkOptions,
}

impl Default for Options {
    fn default() -> (options: Self)
        ensures
            options.service_name@ == "pulse"@,
            options.service_version@ == "0.1.0"@,
            options.log_level == LogLevel::Info,
            options.network.host@ == "localhost"@,
            options.network.port == 4317,
            options.network.advanced_opts.connection_type == ConnectionType::Grpc,
    {
        Options {
            service_name: "pulse".to_owned(),
            service_version: "0.1.0".to_owned(),
            log_level: LogLevel::Info,
            network: NetworkOptions::default(),
        }
    }
}

impl Clone for Options {
    fn clone(&self) -> (copy: Self)
        ensures
            copy.service_name@ == self.service_name@,
            copy.service_version@ == self.service_version@,
            copy.log_level == self.log_level,
            copy.network.host@ == self.network.host@,
            copy.network.port == self.network.port,
            copy.network.advanced_opts == self.network.advanced_opts,
    {
        Options {
            service_name: self.service_name.clone(),
            service_version: self.service_version.clone(),
            log_level: self.log_level,
            network: self.network.clone(),
        }
    }
}

} // verus!
