//! Severities and severity thresholds.
use vstd::prelude::*;

verus! {

/// Severity of a log event, from the most severe (`Error`) to the least (`Trace`).
#[derive(Clone, Copy, Debug, PartialEq, Eq, Structural)]
pub enum Level {
    Error,
    Warn,
    Info,
    Debug,
    Trace,
}

/// A threshold on severities. `Off` lets nothing through; any other value lets through the
/// levels at least as severe as the level of the same name.
#[derive(Clone, Copy, Debug, PartialEq, Eq, Structural)]
pub enum LevelFilter {
    Off,
    Error,
    Warn,
    Info,
    Debug,
    Trace,
}

/// Code of `c` with ASCII lower-case letters mapped to upper case.
pub open spec fn upper_code(c: char) -> u32 {
    let u = c as u32;
    if 97 <= u <= 122 {
        (u - 32) as u32
    } else {
        u
    }
}

/// `s` spells `name` when ASCII case is ignored.
pub open spec fn same_ignoring_case(s: Seq<char>, name: Seq<char>) -> bool {
    &&& s.len() == name.len()
    &&& forall|i: int| 0 <= i < s.len() ==> upper_code(#[trigger] s[i]) == name[i] as u32
}

/// The level whose name `s` spells, ignoring ASCII case; none for any other text.
pub open spec fn parse_level(s: Seq<char>) -> Option<Level> {
    if same_ignoring_case(s, Level::Error.spec_name()) {
        Some(Level::Error)
    } else if same_ignoring_case(s, Level::Warn.spec_name()) {
        Some(Level::Warn)
    } else if same_ignoring_case(s, Level::Info.spec_name()) {
        Some(Level::Info)
    } else if same_ignoring_case(s, Level::Debug.spec_name()) {
        Some(Level::Debug)
    } else if same_ignoring_case(s, Level::Trace.spec_name()) {
        Some(Level::Trace)
    } else {
        None
    }
}

impl Level {
    /// Rank of the level: 1 for `Error` up to 5 for `Trace`; a lower rank is more severe.
    pub open spec fn ordinal(self) -> nat {
        match self {
            Level::Error => 1,
            Level::Warn => 2,
            Level::Info => 3,
            Level::Debug => 4,
            Level::Trace => 5,
        }
    }

    /// The upper-case name of the level.
    pub open spec fn spec_name(self) -> Seq<char> {
        match self {
            Level::Error => seq!['E', 'R', 'R', 'O', 'R'],
            Level::Warn => seq!['W', 'A', 'R', 'N'],
            Level::Info => seq!['I', 'N', 'F', 'O'],
            Level::Debug => seq!['D', 'E', 'B', 'U', 'G'],
            Level::Trace => seq!['T', 'R', 'A', 'C', 'E'],
        }
    }

    /// The rank of the level as a number.
    pub fn levelno(self) -> (r: u32)
        ensures
            r == self.ordinal(),
    {
        match self {
            Level::Error => 1,
            Level::Warn => 2,
            Level::Info => 3,
            Level::Debug => 4,
            Level::Trace => 5,
        }
    }

    /// The upper-case name of the level.
    pub fn to_string(&self) -> (r: String)
        ensures
            r@ == self.spec_name(),
    {
        level_name(*self)
    }

    /// The level whose name `s` spells, ignoring ASCII case.
    pub fn parse(s: &str) -> (r: Option<Level>)
        ensures
            r == parse_level(s@),
    {
        level_from_name(s)
    }
}

/// Each level's name reads back as that level.
pub proof fn lemma_name_parses(l: Level)
    ensures
        parse_level(l.spec_name()) == Some(l),
{
    let e = Level::Error.spec_name();
    let w = Level::Warn.spec_name();
    let i = Level::Info.spec_name();
    let d = Level::Debug.spec_name();
    let t = Level::Trace.spec_name();
    assert(same_ignoring_case(l.spec_name(), l.spec_name()));
    assert(upper_code(e[0]) != w[0] as u32);
    assert(upper_code(i[0]) != e[0] as u32 && upper_code(i[0]) != w[0] as u32);
    assert(upper_code(d[0]) != e[0] as u32);
    assert(upper_code(t[0]) != e[0] as u32 && upper_code(t[0]) != d[0] as u32);
}

impl LevelFilter {
    /// Rank of the threshold: 0 for `Off`, otherwise the rank of the level of the same name.
    pub open spec fn ordinal(self) -> nat {
        match self {
            LevelFilter::Off => 0,
            LevelFilter::Error => 1,
            LevelFilter::Warn => 2,
            LevelFilter::Info => 3,
            LevelFilter::Debug => 4,
            LevelFilter::Trace => 5,
        }
    }

    /// `l` is at least as severe as the threshold.
    pub open spec fn spec_allows(self, l: Level) -> bool {
        l.ordinal() <= self.ordinal()
    }

    /// Whether `l` is at least as severe as the threshold.
    pub fn allows(self, l: Level) -> (r: bool)
        ensures
            r == self.spec_allows(l),
    {
        let bound: u32 = match self {
            LevelFilter::Off => 0,
            LevelFilter::Error => 1,
            LevelFilter::Warn => 2,
            LevelFilter::Info => 3,
            LevelFilter::Debug => 4,
            LevelFilter::Trace => 5,
        };
        l.levelno() <= bound
    }
}

/// Relies on `Display` for `log::LogLevel`, which writes the level's entry of log's table of
/// upper-case names.
#[verifier::external_body]
fn level_name(l: Level) -> (r: String)
    ensures
        r@ == l.spec_name(),
{
    let level = match l {
        Level::Error => log::LogLevel::Error,
        Level::Warn => log::LogLevel::Warn,
        Level::Info => log::LogLevel::Info,
        Level::Debug => log::LogLevel::Debug,
        Level::Trace => log::LogLevel::Trace,
    };
    level.to_string()
}

/// Relies on `FromStr` for `log::LogLevel`, which compares the text with each name of log's
/// table byte by byte, ignoring ASCII case, and refuses "OFF".
#[verifier::external_body]
fn level_from_name(s: &str) -> (r: Option<Level>)
    ensures
        r == parse_level(s@),
{
    match <log::LogLevel as std::str::FromStr>::from_str(s) {
        Ok(log::LogLevel::Error) => Some(Level::Error),
        Ok(log::LogLevel::Warn) => Some(Level::Warn),
        Ok(log::LogLevel::Info) => Some(Level::Info),
        Ok(log::LogLevel::Debug) => Some(Level::Debug),
        Ok(log::LogLevel::Trace) => Some(Level::Trace),
        Err(_) => None,
    }
}

} // verus!
