//! The logging facade: filters records and renders the accepted ones.
use vstd::prelude::*;

use crate::level::{Level, LevelFilter};
use crate::line::{format_line, line_of, shown_target};

verus! {

/// One log record, as issued by guest code.
pub struct Record {
    pub level: Level,
    /// Name of the emitting subsystem; may be empty.
    pub target: String,
    /// Module the record was issued from, where known.
    pub module: Option<String>,
    /// The already rendered message.
    pub message: String,
}

impl Record {
    /// The line that this record renders to.
    pub open spec fn line(&self) -> Seq<char> {
        line_of(
            self.level,
            shown_target(
                self.target@,
                match self.module {
                    Some(m) => Some(m@),
                    None => None,
                },
            ),
            self.message@,
        )
    }
}

/// What crosses the host boundary for one accepted record.
pub struct LogReport {
    /// Wire code of the record's level.
    pub level: u8,
    /// The rendered line.
    pub line: String,
}

impl LogReport {
    /// This report is the one owed for `record`.
    pub open spec fn reports(&self, record: &Record) -> bool {
        &&& self.level as nat == record.level.rank()
        &&& self.line@ == record.line()
    }
}

/// The logger: a severity filter fixed when the logger is built.
#[derive(Clone, Copy, Debug, PartialEq, Eq, Structural)]
pub struct Autput {
    pub max_level: LevelFilter,
}

/// The logger built by default: it lets through `Info` and more significant.
pub open spec fn default_logger() -> Autput {
    Autput { max_level: LevelFilter::Info }
}

impl Default for Autput {
    fn default() -> (r: Self)
        ensures
            r == default_logger(),
    {
        Autput { max_level: LevelFilter::Info }
    }
}

impl Autput {
    pub open spec fn spec_enabled(&self, level: Level) -> bool {
        self.max_level.spec_admits(level)
    }

    /// Whether records of `level` pass this logger's filter.
    #[verifier::when_used_as_spec(spec_enabled)]
    pub fn enabled(&self, level: Level) -> (r: bool)
        ensures
            r == self.spec_enabled(level),
    {
        self.max_level.admits(level)
    }

    /// The report to hand to the host for `record`: none when the record is
    /// filtered out, else its wire code and rendered line.
    pub fn log(&self, record: &Record) -> (r: Option<LogReport>)
        ensures
            r is Some <==> self.spec_enabled(record.level),
            r matches Some(rep) ==> rep.reports(record),
    {
        if !self.enabled(record.level) {
            return None;
        }
        let module = match &record.module {
            Some(m) => Some(m.as_str()),
            None => None,
        };
        let line = format_line(record.level, record.target.as_str(), module, record.message.as_str());
        Some(LogReport { level: record.level.wire_code(), line })
    }
}

} // verus!
