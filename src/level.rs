//! Severities and severity filters.
use vstd::prelude::*;

verus! {

/// Severity of a record, from the most significant (`Error`) to the most
/// verbose (`Trace`).
#[derive(Clone, Copy, Debug, PartialEq, Eq, Structural)]
pub enum Level {
    Error,
    Warn,
    Info,
    Debug,
    Trace,
}

/// Inclusive threshold on severities: a record passes iff its level is at
/// least as significant as the filter. `Off` lets nothing through.
#[derive(Clone, Copy, Debug, PartialEq, Eq, Structural)]
pub enum LevelFilter {
    Off,
    Error,
    Warn,
    Info,
    Debug,
    Trace,
}

impl Level {
    /// Rank of the level: 1 for `Error` up to 5 for `Trace`. A smaller rank is
    /// more significant.
    pub open spec fn rank(self) -> nat {
        match self {
            Level::Error => 1,
            Level::Warn => 2,
            Level::Info => 3,
            Level::Debug => 4,
            Level::Trace => 5,
        }
    }

    /// `self` is at least as significant as `other`.
    pub open spec fn at_least(self, other: Level) -> bool {
        self.rank() <= other.rank()
    }

    /// The upper-case name of the level.
    pub open spec fn name(self) -> Seq<char> {
        match self {
            Level::Error => seq!['E', 'R', 'R', 'O', 'R'],
            Level::Warn => seq!['W', 'A', 'R', 'N'],
            Level::Info => seq!['I', 'N', 'F', 'O'],
            Level::Debug => seq!['D', 'E', 'B', 'U', 'G'],
            Level::Trace => seq!['T', 'R', 'A', 'C', 'E'],
        }
    }

    /// The code that stands for this level at the host boundary.
    pub fn wire_code(self) -> (r: u8)
        ensures
            r as nat == self.rank(),
    {
        match self {
            Level::Error => 1,
            Level::Warn => 2,
            Level::Info => 3,
            Level::Debug => 4,
            Level::Trace => 5,
        }
    }

    /// The upper-case name of the level, as the `log` crate spells it.
    pub fn as_str(self) -> (r: &'static str)
        ensures
            r@ == self.name(),
    {
        log_level_name(self)
    }
}

impl LevelFilter {
    /// Rank of the filter: 0 for `Off` up to 5 for `Trace`.
    pub open spec fn rank(self) -> nat {
        match self {
            LevelFilter::Off => 0,
            LevelFilter::Error => 1,
            LevelFilter::Warn => 2,
            LevelFilter::Info => 3,
            LevelFilter::Debug => 4,
            LevelFilter::Trace => 5,
        }
    }

    pub open spec fn spec_admits(self, level: Level) -> bool {
        level.rank() <= self.rank()
    }

    /// Whether a record of `level` passes this filter.
    #[verifier::when_used_as_spec(spec_admits)]
    pub fn admits(self, level: Level) -> (r: bool)
        ensures
            r == self.spec_admits(level),
    {
        level.wire_code() <= self.code()
    }

    /// The rank of the filter as an integer.
    pub fn code(self) -> (r: u8)
        ensures
            r as nat == self.rank(),
    {
        match self {
            LevelFilter::Off => 0,
            LevelFilter::Error => 1,
            LevelFilter::Warn => 2,
            LevelFilter::Info => 3,
            LevelFilter::Debug => 4,
            LevelFilter::Trace => 5,
        }
    }

    pub open spec fn spec_stricter(self, other: LevelFilter) -> LevelFilter {
        if self.rank() <= other.rank() {
            self
        } else {
            other
        }
    }

    /// The less verbose of two filters: a record passes it iff it passes both.
    #[verifier::when_used_as_spec(spec_stricter)]
    pub fn stricter(self, other: LevelFilter) -> (r: LevelFilter)
        ensures
            r == self.spec_stricter(other),
            forall|l: Level| r.spec_admits(l) <==> (self.spec_admits(l) && other.spec_admits(l)),
    {
        if self.code() <= other.code() {
            self
        } else {
            other
        }
    }
}

/// A filter lets through, with any level it admits, every level that is at
/// least as significant.
pub proof fn lemma_filter_monotone(filter: LevelFilter, a: Level, b: Level)
    requires
        a.at_least(b),
        filter.spec_admits(b),
    ensures
        filter.spec_admits(a),
{
}

/// Relies on `log::Level::as_str`, which names each level in upper case.
#[verifier::external_body]
fn log_level_name(level: Level) -> (r: &'static str)
    ensures
        r@ == level.name(),
{
    let outside = match level {
        Level::Error => log::Level::Error,
        Level::Warn => log::Level::Warn,
        Level::Info => log::Level::Info,
        Level::Debug => log::Level::Debug,
        Level::Trace => log::Level::Trace,
    };
    outside.as_str()
}

} // verus!
