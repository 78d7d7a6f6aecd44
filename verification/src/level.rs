//! Severity levels for log events and the global severity threshold.
//!
//! A `Level` tags a single event; smaller severity ranks are more urgent.
//! A `LevelFilter` is a threshold: it admits every level whose rank is at
//! most the filter's own rank, so `Off` admits nothing and `Trace` admits
//! everything.

use vstd::prelude::*;

verus! {

/// Severity of a single log event, from most urgent (`Error`) to most
/// verbose (`Trace`).
#[derive(Clone, Copy, Debug, PartialEq, Eq, Structural)]
pub enum Level {
    Error,
    Warn,
    Info,
    Debug,
    Trace,
}

/// A severity threshold: admits every `Level` of equal or more urgent rank.
#[derive(Clone, Copy, Debug, PartialEq, Eq, Structural)]
pub enum LevelFilter {
    Off,
    Error,
    Warn,
    Info,
    Debug,
    Trace,
}

/// Rank of a level: 1 for the most urgent, growing with verbosity.
pub open spec fn level_rank(l: Level) -> int {
    match l {
        Level::Error => 1,
        Level::Warn => 2,
        Level::Info => 3,
        Level::Debug => 4,
        Level::Trace => 5,
    }
}

/// Rank of a threshold: 0 admits nothing, 5 admits everything.
pub open spec fn filter_rank(f: LevelFilter) -> int {
    match f {
        LevelFilter::Off => 0,
        LevelFilter::Error => 1,
        LevelFilter::Warn => 2,
        LevelFilter::Info => 3,
        LevelFilter::Debug => 4,
        LevelFilter::Trace => 5,
    }
}

/// A threshold admits a level when the level's rank does not exceed the
/// threshold's rank.
pub open spec fn filter_admits(f: LevelFilter, l: Level) -> bool {
    level_rank(l) <= filter_rank(f)
}

impl Level {
    /// The numeric rank of this level, 1 (`Error`) through 5 (`Trace`).
    pub fn severity(&self) -> (r: u8)
        ensures
            r == level_rank(*self),
    {
        match self {
            Level::Error => 1,
            Level::Warn => 2,
            Level::Info => 3,
            Level::Debug => 4,
            Level::Trace => 5,
        }
    }
}

impl LevelFilter {
    /// The numeric rank of this threshold, 0 (`Off`) through 5 (`Trace`).
    pub fn severity(&self) -> (r: u8)
        ensures
            r == filter_rank(*self),
    {
        match self {
            LevelFilter::Off => 0,
            LevelFilter::Error => 1,
            LevelFilter::Warn => 2,
            LevelFilter::Info => 3,
            LevelFilter::Debug => 4,
            LevelFilter::Trace => 5,
        }
    }

    /// The least restrictive threshold: every level is admitted.
    pub fn max() -> (r: LevelFilter)
        ensures
            r == LevelFilter::Trace,
            forall|l: Level| filter_admits(r, l),
    {
        LevelFilter::Trace
    }

    /// Whether this threshold admits an event at level `l`.
    pub fn admits(&self, l: &Level) -> (r: bool)
        ensures
            r == filter_admits(*self, *l),
    {
        l.severity() <= self.severity()
    }
}

} // verus!
