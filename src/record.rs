//! The enriched, immutable log record.
use vstd::prelude::*;
use crate::level::{lemma_name_parses, parse_level, Level};

verus! {

/// The RFC 3339 text of the UTC time `sec` seconds after the epoch, as time's `Tm::rfc3339`
/// writes it.
pub uninterp spec fn rfc3339_utc(sec: int) -> Seq<char>;

/// Relies on `time::now_utc` for the current UTC time, on `Tm::to_timespec` for its seconds
/// since the epoch, and on `Tm::rfc3339`, which for a UTC time writes
/// `%Y-%m-%dT%H:%M:%SZ`: a text that depends on those seconds alone.
#[verifier::external_body]
fn utc_now() -> (r: (i64, String))
    ensures
        r.1@ == rfc3339_utc(r.0 as int),
{
    let now = time::now_utc();
    (now.to_timespec().sec, now.rfc3339().to_string())
}

/// One log event with its provenance and creation time.
#[derive(Debug)]
pub struct ExtendedLogRecord {
    /// The upper-case name of the event's level.
    pub level: String,
    /// The rank of the event's level (1 for `ERROR` up to 5 for `TRACE`).
    pub levelno: u32,
    /// The message body.
    pub msg: String,
    /// The logical emitter of the event.
    pub target: String,
    /// Creation time, in seconds since the epoch.
    pub timestamp: i64,
    /// The module path of the call site.
    pub module: String,
    /// The source file of the call site.
    pub file: String,
    /// The line of the call site.
    pub line: u32,
    /// Creation time as RFC 3339 text in UTC.
    pub date: String,
}

impl ExtendedLogRecord {
    /// The stored level name reads back as a level, and `levelno` is that level's rank.
    pub open spec fn wf(&self) -> bool {
        &&& parse_level(self.level@) is Some
        &&& self.levelno == parse_level(self.level@)->0.ordinal()
    }

    /// The level that the stored name spells.
    pub open spec fn spec_level(&self) -> Level {
        parse_level(self.level@)->0
    }

    /// A record of the given event, created at `timestamp` seconds since the epoch, whose
    /// text is `date`.
    pub fn with_time(
        file: &str,
        level: Level,
        line: u32,
        module: &str,
        msg: String,
        target: String,
        timestamp: i64,
        date: String,
    ) -> (r: ExtendedLogRecord)
        ensures
            r.level@ == level.spec_name(),
            r.levelno == level.ordinal(),
            r.msg@ == msg@,
            r.target@ == target@,
            r.timestamp == timestamp,
            r.module@ == module@,
            r.file@ == file@,
            r.line == line,
            r.date@ == date@,
            r.wf(),
            r.spec_level() == level,
    {
        proof {
            lemma_name_parses(level);
        }
        ExtendedLogRecord {
            level: level.to_string(),
            levelno: level.levelno(),
            msg,
            target,
            timestamp,
            module: String::from_str(module),
            file: String::from_str(file),
            line,
            date,
        }
    }

    /// A record of the given event, stamped with the current UTC time.
    pub fn new(
        file: &str,
        level: Level,
        line: u32,
        module: &str,
        msg: String,
        target: String,
    ) -> (r: ExtendedLogRecord)
        ensures
            r.level@ == level.spec_name(),
            r.levelno == level.ordinal(),
            r.msg@ == msg@,
            r.target@ == target@,
            r.module@ == module@,
            r.file@ == file@,
            r.line == line,
            r.date@ == rfc3339_utc(r.timestamp as int),
            r.wf(),
            r.spec_level() == level,
    {
        let (timestamp, date) = utc_now();
        ExtendedLogRecord::with_time(file, level, line, module, msg, target, timestamp, date)
    }

    /// The level that the stored name spells.
    pub fn level(&self) -> (r: Level)
        requires
            parse_level(self.level@) is Some,
        ensures
            parse_level(self.level@) == Some(r),
    {
        Level::parse(self.level.as_str()).unwrap()
    }
}

} // verus!
