//! How much the monitor logs: the verbosity flag, given up to three times,
//! raises the level from info to debug to trace, and keeps one chatty
//! target a step quieter while the level is low.
use vstd::prelude::*;

verus! {

/// A log level limit, from quietest to most verbose.
#[derive(Clone, Copy, Debug, PartialEq, Eq, Structural)]
pub enum LevelFilter {
    Off,
    Error,
    Warn,
    Info,
    Debug,
    Trace,
}

/// How verbose a level is: 0 for `Off` up to 5 for `Trace`.
pub open spec fn level_rank(l: LevelFilter) -> int {
    match l {
        LevelFilter::Off => 0,
        LevelFilter::Error => 1,
        LevelFilter::Warn => 2,
        LevelFilter::Info => 3,
        LevelFilter::Debug => 4,
        LevelFilter::Trace => 5,
    }
}

/// The logging set-up: the level for all output, and the level for the
/// chatty target where it is held lower.
#[derive(Clone, Copy, Debug, PartialEq, Eq, Structural)]
pub struct LogConfig {
    pub level: LevelFilter,
    pub noisy_target_level: Option<LevelFilter>,
}

/// The set-up for a verbosity.
pub open spec fn spec_log_config(verbosity: u8) -> LogConfig {
    if verbosity == 0 {
        LogConfig { level: LevelFilter::Info, noisy_target_level: Some(LevelFilter::Warn) }
    } else if verbosity == 1 {
        LogConfig { level: LevelFilter::Debug, noisy_target_level: Some(LevelFilter::Info) }
    } else if verbosity == 2 {
        LogConfig { level: LevelFilter::Debug, noisy_target_level: None }
    } else {
        LogConfig { level: LevelFilter::Trace, noisy_target_level: None }
    }
}

/// The logging set-up for the number of times the verbosity flag was given.
pub fn log_config(verbosity: u8) -> (c: LogConfig)
    ensures
        c == spec_log_config(verbosity),
{
    match verbosity {
        0 => LogConfig { level: LevelFilter::Info, noisy_target_level: Some(LevelFilter::Warn) },
        1 => LogConfig { level: LevelFilter::Debug, noisy_target_level: Some(LevelFilter::Info) },
        2 => LogConfig { level: LevelFilter::Debug, noisy_target_level: None },
        _ => LogConfig { level: LevelFilter::Trace, noisy_target_level: None },
    }
}

/// The name of the target whose messages are held a step lower.
pub fn noisy_target() -> (t: String)
    ensures
        t@ == "overly-verbose-target"@,
{
    "overly-verbose-target".to_owned()
}

/// Giving the verbosity flag more often never makes the log quieter.
pub proof fn lemma_verbosity_monotone(v1: u8, v2: u8)
    requires
        v1 <= v2,
    ensures
        level_rank(spec_log_config(v1).level) <= level_rank(spec_log_config(v2).level),
{
}

/// From the third use of the flag on, everything is logged.
pub proof fn lemma_three_or_more_is_trace(v: u8)
    requires
        v >= 3,
    ensures
        spec_log_config(v).level == LevelFilter::Trace,
        spec_log_config(v).noisy_target_level is None,
{
}

/// Where the chatty target is held apart, it is held exactly one step below
/// the general level, and the general level is never below info.
pub proof fn lemma_noisy_target_quieter(v: u8)
    ensures
        level_rank(spec_log_config(v).level) >= level_rank(LevelFilter::Info),
        spec_log_config(v).noisy_target_level matches Some(l) ==> level_rank(l) + 1 == level_rank(spec_log_config(v).level),
{
}

} // verus!
