//! The configuration that a session is built from, and the collector address
//! it may name.
use crate::error::Error;
use crate::log::{LogConfig, LogConfigView};
use crate::metrics::MetricsConfig;
use crate::trace::TraceConfig;
use vstd::prelude::*;

verus! {

/// Which signals a session carries. A signal that is switched off gets no
/// provider, and nothing of it is installed.
#[derive(Clone, Copy, Debug, PartialEq, Eq, Structural)]
pub struct Signals {
    pub logs: bool,
    pub trace: bool,
    pub metrics: bool,
}

impl Signals {
    /// Every signal switched on.
    pub fn all() -> (signals: Self)
        ensures
            signals == (Signals { logs: true, trace: true, metrics: true }),
    {
        Signals { logs: true, trace: true, metrics: true }
    }
}

impl Default for Signals {
    fn default() -> (signals: Self)
        ensures
            signals == (Signals { logs: true, trace: true, metrics: true }),
    {
        Signals::all()
    }
}

/// What a service says of itself and of where its telemetry goes.
#[derive(Debug)]
pub struct Config {
    /// The name that every exported signal is tagged with.
    pub service_name: String,
    /// The version that every exported signal is tagged with.
    pub service_version: String,
    /// The collector to export to. Without one, logs stay local and traces
    /// and metrics are not collected at all.
    pub uri: Option<String>,
    /// The signals to set up.
    pub signals: Signals,
    pub log: LogConfig,
    pub trace: TraceConfig,
    pub metrics: MetricsConfig,
}

/// What a [`Config`] holds, as mathematical values.
pub struct ConfigView {
    pub service_name: Seq<char>,
    pub service_version: Seq<char>,
    pub uri: Option<Seq<char>>,
    pub signals: Signals,
    pub log: LogConfigView,
    pub trace: TraceConfig,
    pub metrics: MetricsConfig,
}

impl View for Config {
    type V = ConfigView;

    open spec fn view(&self) -> ConfigView {
        ConfigView {
            service_name: self.service_name@,
            service_version: self.service_version@,
            uri: match self.uri {
                Some(uri) => Some(uri@),
                None => None,
            },
            signals: self.signals,
            log: self.log@,
            trace: self.trace,
            metrics: self.metrics,
        }
    }
}

impl Config {
    /// The service name used when the configuration names none.
    pub fn default_service_name() -> (name: String)
        ensures
            name@ == "pulse"@,
    {
        "pulse".to_owned()
    }

    /// The service version used when the configuration names none.
    pub fn default_service_version() -> (version: String)
        ensures
            version@ == "0.1.0"@,
    {
        "0.1.0".to_owned()
    }
}

impl Default for Config {
    fn default() -> (config: Self)
        ensures
            config@.service_name == "pulse"@,
            config@.service_version == "0.1.0"@,
            config@.uri is None,
            config@.signals == (Signals { logs: true, trace: true, metrics: true }),
            config@.log.level == crate::log::LogLevel::Info,
            config@.log.extra_modules == Seq::<Seq<char>>::empty(),
            config@.trace.level == crate::trace::TraceLevel::Info,
            config@.metrics.export_interval == crate::metrics::seconds(1),
    {
        Config {
            service_name: Self::default_service_name(),
            service_version: Self::default_service_version(),
            uri: None,
            signals: Signals::all(),
            log: LogConfig::default(),
            trace: TraceConfig::default(),
            metrics: MetricsConfig::default(),
        }
    }
}

impl Clone for Config {
    fn clone(&self) -> (copy: Self)
        ensures
            copy@ == self@,
    {
        Config {
            service_name: self.service_name.clone(),
            service_version: self.service_version.clone(),
            uri: match &self.uri {
                Some(uri) => Some(uri.clone()),
                None => None,
            },
            signals: self.signals,
            log: self.log.clone(),
            trace: self.trace,
            metrics: self.metrics.clone(),
        }
    }
}

/// The transports a collector address can select.
#[derive(Clone, Copy, Debug, PartialEq, Eq, Structural)]
pub enum UriScheme {
    Https,
    Http,
    Grpc,
}

/// The transport that a scheme selects, if it selects one. Only the three
/// lower-case names `http`, `https` and `grpc` do.
pub open spec fn scheme_of(scheme: Seq<char>) -> Option<UriScheme> {
    if scheme == "http"@ {
        Some(UriScheme::Http)
    } else if scheme == "https"@ {
        Some(UriScheme::Https)
    } else if scheme == "grpc"@ {
        Some(UriScheme::Grpc)
    } else {
        None
    }
}

/// What parsing `input` as an absolute URL yields: nothing where it is none,
/// else the URL's scheme and the text the URL is normalised to.
pub uninterp spec fn parsed_url(input: Seq<char>) -> Option<(Seq<char>, Seq<char>)>;

/// A collector address that parsed as an absolute URL.
#[derive(Debug)]
pub struct Endpoint {
    /// The scheme, in lower case and without the colon.
    pub scheme: String,
    /// The whole URL as it is normalised.
    pub address: String,
}

/// `Url::parse`, with the scheme and the serialisation of the URL it gives.
/// It fails exactly on the inputs that are no absolute URL; the same input
/// always parses the same way.
#[verifier::external_body]
fn parse_url(uri: &str) -> (r: Result<Endpoint, url::ParseError>)
    ensures
        match r {
            Ok(endpoint) => parsed_url(uri@) == Some((endpoint.scheme@, endpoint.address@)),
            Err(_) => parsed_url(uri@) is None,
        },
{
    let url = url::Url::parse(uri)?;
    Ok(Endpoint { scheme: url.scheme().to_owned(), address: url.to_string() })
}

impl Endpoint {
    /// Parses a collector address.
    pub fn parse(uri: &str) -> (r: Result<Endpoint, Error>)
        ensures
            match r {
                Ok(endpoint) => parsed_url(uri@) == Some((endpoint.scheme@, endpoint.address@)),
                Err(e) => parsed_url(uri@) is None && e is InvalidUrl,
            },
    {
        match parse_url(uri) {
            Ok(endpoint) => Ok(endpoint),
            Err(e) => Err(Error::InvalidUrl(e)),
        }
    }

    /// The transport that the address selects. Any scheme but `http`,
    /// `https` and `grpc` is refused, and the error carries it.
    pub fn supported_scheme(&self) -> (r: Result<UriScheme, Error>)
        ensures
            match scheme_of(self.scheme@) {
                Some(scheme) => r == Ok::<UriScheme, Error>(scheme),
                None => r matches Err(Error::UnsupportedUrlScheme(s)) && s@ == self.scheme@,
            },
    {
        if self.scheme == "http".to_owned() {
            Ok(UriScheme::Http)
        } else if self.scheme == "https".to_owned() {
            Ok(UriScheme::Https)
        } else if self.scheme == "grpc".to_owned() {
            Ok(UriScheme::Grpc)
        } else {
            Err(Error::UnsupportedUrlScheme(self.scheme.clone()))
        }
    }
}

/// A collector that a session can export to: a transport, and the address
/// handed to it.
#[derive(Debug)]
pub struct Collector {
    pub scheme: UriScheme,
    pub endpoint: String,
}

/// What a collector URI resolves to.
pub enum Target {
    /// The text is no absolute URL.
    Invalid,
    /// The URL's scheme, carried here, selects no transport.
    Unsupported(Seq<char>),
    /// The transport and the normalised address.
    Collector(UriScheme, Seq<char>),
}

/// Resolves a collector URI.
pub open spec fn target_of(uri: Seq<char>) -> Target {
    match parsed_url(uri) {
        None => Target::Invalid,
        Some((scheme, address)) => match scheme_of(scheme) {
            None => Target::Unsupported(scheme),
            Some(transport) => Target::Collector(transport, address),
        },
    }
}

impl Collector {
    /// Resolves a collector URI: it must be an absolute URL whose scheme is
    /// `http`, `https` or `grpc`. There is no fallback for any other.
    pub fn resolve(uri: &str) -> (r: Result<Collector, Error>)
        ensures
            match target_of(uri@) {
                Target::Invalid => r matches Err(Error::InvalidUrl(_)),
                Target::Unsupported(scheme) => r matches Err(Error::UnsupportedUrlScheme(s)) && s@
                    == scheme,
                Target::Collector(transport, address) => r matches Ok(c) && c.scheme == transport
                    && c.endpoint@ == address,
            },
    {
        let endpoint = match Endpoint::parse(uri) {
            Ok(endpoint) => endpoint,
            Err(e) => {
                return Err(e);
            },
        };
        match endpoint.supported_scheme() {
            Ok(scheme) => Ok(Collector { scheme, endpoint: endpoint.address }),
            Err(e) => Err(e),
        }
    }
}

} // verus!
