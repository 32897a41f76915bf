//! The configuration of a run: a plain value, made once at startup and read
//! from then on.

use vstd::prelude::*;

verus! {

/// The delay, in milliseconds, after which the canceller task asks for
/// cancellation unless the run is configured otherwise.
pub const DEFAULT_CANCEL_DELAY_MS: u64 = 10;

/// The safety timeout of the supervised task, in seconds, unless the run is
/// configured otherwise. It is there so that the task cannot wait for ever,
/// not because it is expected to elapse.
pub const DEFAULT_SAFETY_TIMEOUT_SECS: u64 = 9999;

/// The flags that decide what a run does.
#[derive(Clone, Copy, Debug, PartialEq, Eq, Structural)]
pub struct Config {
    /// Print the report once and leave.
    pub only_view: bool,
    /// Follow the chain's events, era by era.
    pub is_mode_era: bool,
    /// Log in detail.
    pub is_debug: bool,
}

/// The two durations of a supervised run.
#[derive(Clone, Copy, Debug, PartialEq, Eq, Structural)]
pub struct Timing {
    /// How long the canceller task waits before it asks for cancellation,
    /// in milliseconds.
    pub cancel_delay_ms: u64,
    /// How long the supervised task waits for the cancellation at most,
    /// in seconds.
    pub safety_timeout_secs: u64,
}

impl Config {
    /// The log filter that goes with a setting of `is_debug`: detail for the
    /// tool and for the chain client when it is set, and the tool's plain
    /// messages when it is not.
    pub open spec fn log_filter_spec(is_debug: bool) -> Seq<char> {
        if is_debug {
            "crunch=debug,subxt=debug"@
        } else {
            "crunch=info"@
        }
    }

    /// A configuration with these flags.
    pub fn new(only_view: bool, is_mode_era: bool, is_debug: bool) -> (config: Config)
        ensures
            config == (Config { only_view, is_mode_era, is_debug }),
    {
        Config { only_view, is_mode_era, is_debug }
    }

    /// The log filter of this run.
    pub fn log_filter(&self) -> (filter: &'static str)
        ensures
            filter@ == Config::log_filter_spec(self.is_debug),
    {
        if self.is_debug {
            "crunch=debug,subxt=debug"
        } else {
            "crunch=info"
        }
    }
}

impl Timing {
    /// The durations of a run that sets none.
    pub open spec fn standard() -> Timing {
        Timing { cancel_delay_ms: 10, safety_timeout_secs: 9999 }
    }

    /// These two durations.
    pub fn new(cancel_delay_ms: u64, safety_timeout_secs: u64) -> (timing: Timing)
        ensures
            timing == (Timing { cancel_delay_ms, safety_timeout_secs }),
    {
        Timing { cancel_delay_ms, safety_timeout_secs }
    }
}

impl Default for Timing {
    fn default() -> (timing: Timing)
        ensures
            timing == Timing::standard(),
    {
        Timing {
            cancel_delay_ms: DEFAULT_CANCEL_DELAY_MS,
            safety_timeout_secs: DEFAULT_SAFETY_TIMEOUT_SECS,
        }
    }
}

} // verus!
