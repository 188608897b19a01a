//! The interceptor's configuration: a severity and whether lines carry the
//! request's latency.

use log::Level;
use vstd::prelude::*;

verus! {

/// `log::Level`, the severity at which lines are written. The library only
/// stores and returns it; nothing is assumed about its variants.
#[verifier::external_type_specification]
#[verifier::external_body]
pub struct ExLevel(log::Level);

/// Configuration of the interceptor, fixed at construction and shared by all
/// requests.
#[derive(Clone, Copy)]
pub struct LoggingMiddleware {
    duration: bool,
    level: Level,
}

impl LoggingMiddleware {
    /// The severity at which lines are written.
    pub closed spec fn spec_level(&self) -> Level {
        self.level
    }

    /// Whether each line ends with the request's latency.
    pub closed spec fn spec_include_duration(&self) -> bool {
        self.duration
    }

    /// A configuration that logs at `level`, without latency.
    pub fn with_level(level: Level) -> (config: LoggingMiddleware)
        ensures
            config.level() == level,
            !config.include_duration(),
    {
        LoggingMiddleware::with_level_and_duration(level, false)
    }

    /// A configuration that logs at `level`, with latency appended to each
    /// line if `duration` is set.
    pub fn with_level_and_duration(level: Level, duration: bool) -> (config: LoggingMiddleware)
        ensures
            config.level() == level,
            config.include_duration() == duration,
    {
        LoggingMiddleware { level, duration }
    }

    /// The configured severity.
    #[verifier::when_used_as_spec(spec_level)]
    pub fn level(&self) -> (level: Level)
        ensures
            level == self.spec_level(),
    {
        self.level
    }

    /// Whether latency is appended to each line.
    #[verifier::when_used_as_spec(spec_include_duration)]
    pub fn include_duration(&self) -> (duration: bool)
        ensures
            duration == self.spec_include_duration(),
    {
        self.duration
    }
}

} // verus!
