//! Client and debug configuration, and the timer used to measure requests.
use vstd::prelude::*;
use vstd::string::*;
use std::path::{Path, PathBuf};
use std::time::Instant;
use crate::text::to_owned_string;

verus! {

#[verifier::external_type_specification]
#[verifier::external_body]
pub struct ExPathBuf(PathBuf);

#[verifier::external_type_specification]
#[verifier::external_body]
pub struct ExPath(Path);

#[verifier::external_type_specification]
#[verifier::external_body]
pub struct ExInstant(Instant);

/// Default base URL for the Klafs API.
pub const DEFAULT_BASE_URL: &'static str = "https://sauna-app-19.klafs.com";

/// Configuration for debug logging.
#[derive(Debug, Clone)]
pub struct DebugConfig {
    /// Whether debug logging is enabled.
    pub enabled: bool,
    /// Optional file path to write debug logs.
    pub log_file: Option<PathBuf>,
    /// Whether to log request/response bodies.
    pub log_bodies: bool,
    /// Whether to redact sensitive information (passwords, tokens).
    pub redact_sensitive: bool,
}

impl Default for DebugConfig {
    fn default() -> (r: Self)
        ensures
            !r.enabled,
            r.log_file is None,
            r.log_bodies,
            r.redact_sensitive,
    {
        DebugConfig { enabled: false, log_file: None, log_bodies: true, redact_sensitive: true }
    }
}

impl DebugConfig {
    /// Create a new debug config with logging enabled (otherwise the defaults).
    pub fn enabled() -> (r: Self)
        ensures
            r.enabled,
            r.log_file is None,
            r.log_bodies,
            r.redact_sensitive,
    {
        DebugConfig { enabled: true, ..Default::default() }
    }

    /// Enable logging to a file.
    pub fn with_log_file(self, path: PathBuf) -> (r: Self)
        ensures
            r == (DebugConfig { log_file: Some(path), ..self }),
    {
        let mut c = self;
        c.log_file = Some(path);
        c
    }

    /// Disable body logging.
    pub fn without_bodies(self) -> (r: Self)
        ensures
            r == (DebugConfig { log_bodies: false, ..self }),
    {
        let mut c = self;
        c.log_bodies = false;
        c
    }

    /// Disable sensitive data redaction (use with caution!).
    pub fn without_redaction(self) -> (r: Self)
        ensures
            r == (DebugConfig { redact_sensitive: false, ..self }),
    {
        let mut c = self;
        c.redact_sensitive = false;
        c
    }
}

/// Configuration for the Klafs client.
#[derive(Debug, Clone)]
pub struct ClientConfig {
    /// Base URL for the API (can be overridden for testing).
    pub base_url: String,
    /// Debug configuration.
    pub debug: DebugConfig,
    /// Request timeout in seconds.
    pub timeout_secs: u64,
}

impl Default for ClientConfig {
    fn default() -> (r: Self)
        ensures
            r.base_url@ == DEFAULT_BASE_URL@,
            !r.debug.enabled && r.debug.log_file is None && r.debug.log_bodies && r.debug.redact_sensitive,
            r.timeout_secs == 30,
    {
        ClientConfig {
            base_url: to_owned_string(DEFAULT_BASE_URL),
            debug: DebugConfig::default(),
            timeout_secs: 30,
        }
    }
}

impl ClientConfig {
    /// Create a config for testing with a custom base URL: debugging on, 5 s timeout.
    pub fn for_testing(base_url: &str) -> (r: Self)
        ensures
            r.base_url@ == base_url@,
            r.debug.enabled && r.debug.log_file is None && r.debug.log_bodies && r.debug.redact_sensitive,
            r.timeout_secs == 5,
    {
        ClientConfig {
            base_url: to_owned_string(base_url),
            debug: DebugConfig::enabled(),
            timeout_secs: 5,
        }
    }
}

/// `Path::to_path_buf`: the owned form of the same path.
#[verifier::external_body]
fn owned_path(p: &Path) -> (r: PathBuf) {
    p.to_path_buf()
}

/// The client configuration the command line asks for: with `debug`, logging
/// enabled and written to `debug_file`; otherwise the defaults.
pub fn create_client_config(debug: bool, debug_file: &Path) -> (r: ClientConfig)
    ensures
        r.base_url@ == DEFAULT_BASE_URL@,
        r.timeout_secs == 30,
        r.debug.enabled == debug,
        debug <==> r.debug.log_file is Some,
        r.debug.log_bodies && r.debug.redact_sensitive,
{
    if debug {
        ClientConfig {
            debug: DebugConfig::enabled().with_log_file(owned_path(debug_file)),
            ..Default::default()
        }
    } else {
        ClientConfig::default()
    }
}

/// `Instant::now`: the current instant; nothing is claimed of it.
#[verifier::external_body]
fn instant_now() -> (r: Instant) {
    Instant::now()
}

/// `Instant::elapsed` in whole milliseconds, cut to 64 bits; nothing is claimed of it.
#[verifier::external_body]
fn millis_since(start: &Instant) -> (r: u64) {
    start.elapsed().as_millis() as u64
}

/// Helper for timing operations.
pub struct Timer {
    start: Instant,
}

impl Timer {
    /// Start a new timer.
    pub fn start() -> (t: Self) {
        Timer { start: instant_now() }
    }

    /// Get elapsed time in milliseconds.
    pub fn elapsed_ms(&self) -> (ms: u64) {
        millis_since(&self.start)
    }
}

} // verus!
