//! Options of a run.

use vstd::prelude::*;

use crate::timing::TimeSpan;

verus! {

/// Least severity of the messages that are logged.
#[derive(Debug, Clone, Copy, PartialEq, Eq, Structural)]
pub enum LogLevel {
    Debug,
    Info,
    Warning,
    Error,
}

/// Form in which the results are rendered.
#[derive(Debug, Clone, Copy, PartialEq, Eq, Structural)]
pub enum OutputFormat {
    Console,
    Json,
    Csv,
}

/// The effective options of a run, fixed before the first probe executes.
#[derive(Debug, Clone, Copy, PartialEq, Eq)]
pub struct TestConfig {
    /// Time allowed for the whole suite. It is advisory: no probe is
    /// interrupted on its account.
    pub timeout: TimeSpan,
    /// Whether probes may execute concurrently.
    pub parallel: bool,
    pub log_level: LogLevel,
    pub output_format: OutputFormat,
}

/// No configuration could be had. Without one no run can start.
#[derive(Debug, Clone, Copy, PartialEq, Eq, Structural)]
pub struct ConfigurationError;

/// Timeout of the default configuration, in seconds.
pub const DEFAULT_TIMEOUT_SECS: u64 = 30;

/// Gives the configuration of a run. It is the default one, and loading never
/// fails: a timeout of thirty seconds, sequential execution, log level `Info`,
/// console output.
pub fn load_config() -> (loaded: Result<TestConfig, ConfigurationError>)
    ensures
        loaded matches Ok(config) && {
            &&& config.timeout.secs() == DEFAULT_TIMEOUT_SECS
            &&& config.timeout.subsec_nanos() == 0
            &&& !config.parallel
            &&& config.log_level == LogLevel::Info
            &&& config.output_format == OutputFormat::Console
        },
{
    Ok(
        TestConfig {
            timeout: TimeSpan::from_secs(DEFAULT_TIMEOUT_SECS),
            parallel: false,
            log_level: LogLevel::Info,
            output_format: OutputFormat::Console,
        },
    )
}

} // verus!
