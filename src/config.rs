//! The configuration's shape, and the settings of the vendor API client that
//! follow from it.

use vstd::prelude::*;
use vstd::string::StringExecFns;

verus! {

/// The level of detail of the log.
#[derive(Clone, Copy, Debug, PartialEq, Eq, Structural)]
pub enum ConfigLogLevel {
    Debug,
    Info,
    Warning,
    Error,
    Trace,
}

/// A person whose data is polled, with the token that the API knows them by.
#[derive(Clone, Debug)]
pub struct OuraPerson {
    pub name: String,
    pub access_token: String,
}

/// Where and as whom time-series points are written.
#[derive(Debug)]
pub struct InfluxDB {
    pub url: String,
    pub token: String,
    pub organization: String,
    pub bucket: String,
}

/// Overrides for the vendor API client.
#[derive(Debug)]
pub struct OuraApi {
    pub url: Option<String>,
    pub port: Option<String>,
    pub proxy: Option<String>,
    pub verbose_logging: Option<bool>,
}

/// The whole configuration.
#[derive(Debug)]
pub struct Config {
    pub persons: Vec<OuraPerson>,
    pub poller_interval: u16,
    pub influxdb: Option<InfluxDB>,
    pub oura_api: Option<OuraApi>,
    pub log_level: Option<ConfigLogLevel>,
}

/// The vendor API's address where none is configured.
pub const DEFAULT_OURA_API_URL: &'static str = "https://api.ouraring.com";

/// The vendor API's port where none is configured.
pub const DEFAULT_OURA_API_PORT: &'static str = "443";

/// The path of the heart-rate collection.
pub const HEART_RATE_PATH: &'static str = "v2/usercollection/heartrate";

/// The path of the sleep collection.
pub const SLEEP_PATH: &'static str = "v2/usercollection/sleep";

/// How the vendor API client is to be built.
#[derive(Debug)]
pub struct ClientSettings {
    pub base_url: String,
    pub port: String,
    pub proxy: Option<String>,
    pub verbose_logging: Option<bool>,
}

/// The text of an optional string, or `default` where it is absent.
pub open spec fn text_or(o: Option<String>, default: Seq<char>) -> Seq<char> {
    match o {
        Some(s) => s@,
        None => default,
    }
}

/// The models of an optional string.
pub open spec fn opt_text(o: Option<String>) -> Option<Seq<char>> {
    match o {
        Some(s) => Some(s@),
        None => None,
    }
}

fn copy_text_or(o: &Option<String>, default: &str) -> (r: String)
    ensures
        r@ == text_or(*o, default@),
{
    match o {
        Some(s) => s.clone(),
        None => String::from_str(default),
    }
}

fn copy_opt_text(o: &Option<String>) -> (r: Option<String>)
    ensures
        opt_text(r) == opt_text(*o),
{
    match o {
        Some(s) => Some(s.clone()),
        None => None,
    }
}

impl ClientSettings {
    /// The settings that a configuration gives: its overrides where present,
    /// the vendor's public address and port otherwise.
    pub fn from_config(config: &Option<OuraApi>) -> (r: ClientSettings)
        ensures
            match config {
                Some(c) => {
                    &&& r.base_url@ == text_or(c.url, DEFAULT_OURA_API_URL@)
                    &&& r.port@ == text_or(c.port, DEFAULT_OURA_API_PORT@)
                    &&& opt_text(r.proxy) == opt_text(c.proxy)
                    &&& r.verbose_logging == c.verbose_logging
                },
                None => {
                    &&& r.base_url@ == DEFAULT_OURA_API_URL@
                    &&& r.port@ == DEFAULT_OURA_API_PORT@
                    &&& r.proxy is None
                    &&& r.verbose_logging is None
                },
            },
    {
        match config {
            Some(c) => ClientSettings {
                base_url: copy_text_or(&c.url, DEFAULT_OURA_API_URL),
                port: copy_text_or(&c.port, DEFAULT_OURA_API_PORT),
                proxy: copy_opt_text(&c.proxy),
                verbose_logging: c.verbose_logging,
            },
            None => ClientSettings {
                base_url: String::from_str(DEFAULT_OURA_API_URL),
                port: String::from_str(DEFAULT_OURA_API_PORT),
                proxy: None,
                verbose_logging: None,
            },
        }
    }

    /// The address of `path` on the API: `base_url:port/path`.
    pub fn build_url(&self, path: &str) -> (r: String)
        ensures
            r@ == self.base_url@ + ":"@ + self.port@ + "/"@ + path@,
    {
        let mut r = self.base_url.clone();
        r.append(":");
        r.append(self.port.as_str());
        r.append("/");
        r.append(path);
        r
    }
}

} // verus!
