//! Log levels and level filters, ordered as the `log` crate orders them:
//! `Off < Error < Warn < Info < Debug < Trace`.

use vstd::prelude::*;

verus! {

/// The level of a log record.
#[derive(Debug, Clone, Copy, PartialEq, Eq, Structural)]
pub enum Level {
    Error,
    Warn,
    Info,
    Debug,
    Trace,
}

/// The most verbose level that a sink lets through.
#[derive(Debug, Clone, Copy, PartialEq, Eq, Structural)]
pub enum LevelFilter {
    Off,
    Error,
    Warn,
    Info,
    Debug,
    Trace,
}

/// The position of a record level in the order (1 for `Error` up to 5 for `Trace`).
pub open spec fn level_rank(l: Level) -> nat {
    match l {
        Level::Error => 1,
        Level::Warn => 2,
        Level::Info => 3,
        Level::Debug => 4,
        Level::Trace => 5,
    }
}

/// The position of a filter in the order (0 for `Off` up to 5 for `Trace`).
pub open spec fn filter_rank(f: LevelFilter) -> nat {
    match f {
        LevelFilter::Off => 0,
        LevelFilter::Error => 1,
        LevelFilter::Warn => 2,
        LevelFilter::Info => 3,
        LevelFilter::Debug => 4,
        LevelFilter::Trace => 5,
    }
}

/// A record of level `l` passes the filter `f` (`l <= f` in the `log` crate).
pub open spec fn passes(l: Level, f: LevelFilter) -> bool {
    level_rank(l) <= filter_rank(f)
}

/// The more verbose of two filters.
pub open spec fn spec_max_filter(a: LevelFilter, b: LevelFilter) -> LevelFilter {
    if filter_rank(a) <= filter_rank(b) {
        b
    } else {
        a
    }
}

/// A more verbose filter lets through every record a less verbose one does;
/// `Off` lets nothing through, `Trace` everything, and error records pass
/// every filter but `Off`.
pub proof fn law_filters_are_ordered(l: Level, a: LevelFilter, b: LevelFilter)
    ensures
        (filter_rank(a) <= filter_rank(b) && passes(l, a)) ==> passes(l, b),
        !passes(l, LevelFilter::Off),
        passes(l, LevelFilter::Trace),
        a != LevelFilter::Off ==> passes(Level::Error, a),
        passes(Level::Trace, a) <==> a == LevelFilter::Trace,
{
}

/// `c` with an ASCII upper-case letter turned into its lower-case letter.
pub open spec fn ascii_lower(c: char) -> char {
    if 'A' <= c && c <= 'Z' {
        ((c as u32) + 32) as char
    } else {
        c
    }
}

/// `a` and `b` are equal when ASCII letters are compared without case.
pub open spec fn eq_ignore_ascii_case(a: Seq<char>, b: Seq<char>) -> bool {
    a.len() == b.len() && forall|i: int| 0 <= i < a.len() ==> ascii_lower(a[i]) == ascii_lower(b[i])
}

/// The filter named by `s`: one of `off`, `error`, `warn`, `info`, `debug`,
/// `trace`, in any ASCII case.
pub open spec fn parsed_level_filter(s: Seq<char>) -> Option<LevelFilter> {
    if eq_ignore_ascii_case(s, "OFF"@) {
        Some(LevelFilter::Off)
    } else if eq_ignore_ascii_case(s, "ERROR"@) {
        Some(LevelFilter::Error)
    } else if eq_ignore_ascii_case(s, "WARN"@) {
        Some(LevelFilter::Warn)
    } else if eq_ignore_ascii_case(s, "INFO"@) {
        Some(LevelFilter::Info)
    } else if eq_ignore_ascii_case(s, "DEBUG"@) {
        Some(LevelFilter::Debug)
    } else if eq_ignore_ascii_case(s, "TRACE"@) {
        Some(LevelFilter::Trace)
    } else {
        None
    }
}

/// Parses a level filter with `log::LevelFilter`'s `FromStr`.
/// Claimed of it: the result is the filter whose name (`OFF`, `ERROR`, `WARN`,
/// `INFO`, `DEBUG`, `TRACE`) equals `s` when ASCII letters are compared
/// without case, and `None` when no name does.
#[verifier::external_body]
pub(crate) fn parse_level_filter(s: &str) -> (r: Option<LevelFilter>)
    ensures
        r == parsed_level_filter(s@),
{
    match s.parse::<log::LevelFilter>() {
        Ok(log::LevelFilter::Off) => Some(LevelFilter::Off),
        Ok(log::LevelFilter::Error) => Some(LevelFilter::Error),
        Ok(log::LevelFilter::Warn) => Some(LevelFilter::Warn),
        Ok(log::LevelFilter::Info) => Some(LevelFilter::Info),
        Ok(log::LevelFilter::Debug) => Some(LevelFilter::Debug),
        Ok(log::LevelFilter::Trace) => Some(LevelFilter::Trace),
        Err(_) => None,
    }
}

impl Level {
    /// The position of this level in the order.
    pub fn rank(&self) -> (r: u8)
        ensures
            r as nat == level_rank(*self),
    {
        match self {
            Level::Error => 1,
            Level::Warn => 2,
            Level::Info => 3,
            Level::Debug => 4,
            Level::Trace => 5,
        }
    }
}

impl LevelFilter {
    /// The position of this filter in the order.
    pub fn rank(&self) -> (r: u8)
        ensures
            r as nat == filter_rank(*self),
    {
        match self {
            LevelFilter::Off => 0,
            LevelFilter::Error => 1,
            LevelFilter::Warn => 2,
            LevelFilter::Info => 3,
            LevelFilter::Debug => 4,
            LevelFilter::Trace => 5,
        }
    }
}

/// Whether a record of level `l` passes the filter `f`.
pub fn level_passes(l: Level, f: LevelFilter) -> (r: bool)
    ensures
        r == passes(l, f),
{
    l.rank() <= f.rank()
}

/// The more verbose of two filters.
pub fn max_filter(a: LevelFilter, b: LevelFilter) -> (r: LevelFilter)
    ensures
        r == spec_max_filter(a, b),
        filter_rank(a) <= filter_rank(r),
        filter_rank(b) <= filter_rank(r),
        r == a || r == b,
{
    if a.rank() <= b.rank() {
        b
    } else {
        a
    }
}

} // verus!
