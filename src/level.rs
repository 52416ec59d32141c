//! Severity levels and thresholds, as defined by the `log` facade.
use vstd::prelude::*;

verus! {

/// Declares `log::Level` with its variants, so that verified code can match on it.
#[verifier::external_type_specification]
pub struct ExLevel(log::Level);

/// Declares `log::LevelFilter` with its variants, so that verified code can match on it.
#[verifier::external_type_specification]
pub struct ExLevelFilter(log::LevelFilter);

/// Verbosity of a level: `Error` is the least verbose (most severe) and
/// `Trace` the most verbose (least severe).
pub open spec fn verbosity(l: log::Level) -> nat {
    match l {
        log::Level::Error => 1,
        log::Level::Warn => 2,
        log::Level::Info => 3,
        log::Level::Debug => 4,
        log::Level::Trace => 5,
    }
}

/// Verbosity of a threshold: `Off` admits nothing, `Trace` admits every level.
pub open spec fn filter_verbosity(f: log::LevelFilter) -> nat {
    match f {
        log::LevelFilter::Off => 0,
        log::LevelFilter::Error => 1,
        log::LevelFilter::Warn => 2,
        log::LevelFilter::Info => 3,
        log::LevelFilter::Debug => 4,
        log::LevelFilter::Trace => 5,
    }
}

/// Relies on `log::Level::to_level_filter`: it returns the filter of the same
/// name, which passes exactly the levels up to this one.
pub assume_specification[ log::Level::to_level_filter ](l: &log::Level) -> (r: log::LevelFilter)
    ensures
        filter_verbosity(r) == verbosity(*l),
;

/// Verbosity of a level, computed.
pub fn level_verbosity(l: log::Level) -> (r: usize)
    ensures
        r == verbosity(l),
{
    match l {
        log::Level::Error => 1,
        log::Level::Warn => 2,
        log::Level::Info => 3,
        log::Level::Debug => 4,
        log::Level::Trace => 5,
    }
}

/// Verbosity of a threshold, computed.
pub fn threshold_verbosity(f: log::LevelFilter) -> (r: usize)
    ensures
        r == filter_verbosity(f),
{
    match f {
        log::LevelFilter::Off => 0,
        log::LevelFilter::Error => 1,
        log::LevelFilter::Warn => 2,
        log::LevelFilter::Info => 3,
        log::LevelFilter::Debug => 4,
        log::LevelFilter::Trace => 5,
    }
}

} // verus!
