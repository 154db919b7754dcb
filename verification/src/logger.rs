//! The logger's decisions: which records it takes, where each goes, and how a
//! terminal line is laid out.

use vstd::prelude::*;

use crate::level::{
    level_passes, max_filter, passes, spec_max_filter, Level, LevelFilter,
};
use crate::text::{
    decimal, decimal_string, contains_seq, contains_str, lemma_absent_without_first, lemma_replaced_absent,
    lemma_replaced_concat, lemma_replaced_prefix, replace_str, replaced,
};

verus! {

/// The logger's three filters: one for the terminal, one for the log file,
/// and the more verbose of the two, which decides what it takes at all.
pub struct Logger {
    level: LevelFilter,
    term_level: LevelFilter,
    file_level: LevelFilter,
}

/// The colour in which a part of a terminal line is shown.
#[derive(Debug, Clone, Copy, PartialEq, Eq, Structural)]
pub enum Style {
    Red,
    Yellow,
    Cyan,
    Magenta,
    Dim,
}

/// The layout of a record's line on the terminal.
#[derive(Debug, PartialEq, Eq)]
pub enum RenderPlan {
    /// Nothing is shown.
    Silent,
    /// `{level} {meta} {args}`, where the dimmed `meta` is
    /// `{thread id, right-aligned in 2} [{file}:{line}]`.
    Detailed { file: String },
    /// `{level} {args}`.
    Leveled,
    /// `{tag} {args}`, or `{tag} {level} {args}` when `show_level` holds,
    /// where `tag` is the program's name in the colour `tag_style`.
    Tagged { tag_style: Style, show_level: bool },
}

/// Where one record goes.
#[derive(Debug, Clone, Copy, PartialEq, Eq, Structural)]
pub struct Sinks {
    pub file: bool,
    pub terminal: bool,
}

/// Trace records from files whose path holds one of these are not shown.
pub open spec fn ignored_sources() -> Seq<Seq<char>> {
    seq!["/notify-debouncer-full-"@, "/notify-"@]
}

/// The source file `file` is one whose trace records are hidden.
pub open spec fn is_ignored_source(file: Seq<char>) -> bool {
    exists|i: int| 0 <= i < ignored_sources().len() && contains_seq(file, #[trigger] ignored_sources()[i])
}

/// The name shown for a record whose source file is unknown.
pub open spec fn unknown_file() -> Seq<char> {
    "<unknown>"@
}

/// The view of an optional string slice.
pub open spec fn opt_view(file: Option<&str>) -> Option<Seq<char>> {
    match file {
        Some(f) => Some(f@),
        None => None,
    }
}

/// `r` is the layout of a record of level `record_level` on a terminal that
/// shows up to `level`, the record coming from `file`: nothing when the
/// terminal is off; the detailed layout when it shows traces, but nothing for
/// trace records of ignored sources; the level and message when it shows
/// debug records; otherwise the tag (red for errors, yellow for warnings, dim
/// for the rest) with the level shown for all but info records.
pub open spec fn is_render_plan(
    r: RenderPlan,
    level: LevelFilter,
    record_level: Level,
    file: Option<Seq<char>>,
) -> bool {
    match level {
        LevelFilter::Off => r is Silent,
        LevelFilter::Trace => {
            let f = match file {
                Some(f) => f,
                None => unknown_file(),
            };
            if record_level == Level::Trace && is_ignored_source(f) {
                r is Silent
            } else {
                r matches RenderPlan::Detailed { file } && file@ == f
            }
        },
        LevelFilter::Debug => r is Leveled,
        _ => r == RenderPlan::Tagged {
            tag_style: match record_level {
                Level::Error => Style::Red,
                Level::Warn => Style::Yellow,
                _ => Style::Dim,
            },
            show_level: record_level != Level::Info,
        },
    }
}

/// Under an error, warning or info terminal filter, a record's line is the
/// tagged one, and it shows the record's level exactly when the record is not
/// an info record, whichever of the three filters is set: the same record is
/// laid out the same under each of them.
pub proof fn law_tagged_lines_show_level(
    level: LevelFilter,
    other: LevelFilter,
    record_level: Level,
    file: Option<Seq<char>>,
    r: RenderPlan,
    r2: RenderPlan,
)
    requires
        level == LevelFilter::Error || level == LevelFilter::Warn || level == LevelFilter::Info,
        other == LevelFilter::Error || other == LevelFilter::Warn || other == LevelFilter::Info,
        is_render_plan(r, level, record_level, file),
        is_render_plan(r2, other, record_level, file),
    ensures
        r matches RenderPlan::Tagged { show_level, .. } && show_level == (record_level
            != Level::Info),
        record_level == Level::Warn ==> (r matches RenderPlan::Tagged { tag_style, .. }
            && tag_style == Style::Yellow),
        record_level == Level::Error ==> (r matches RenderPlan::Tagged { tag_style, .. }
            && tag_style == Style::Red),
        r == r2,
{
}

/// Whether `file` is an ignored source (see [`is_ignored_source`]).
fn ignored_source(file: &str) -> (r: bool)
    ensures
        r == is_ignored_source(file@),
{
    let a = contains_str(file, "/notify-debouncer-full-");
    let b = contains_str(file, "/notify-");
    proof {
        assert(ignored_sources()[0] == "/notify-debouncer-full-"@);
        assert(ignored_sources()[1] == "/notify-"@);
    }
    a || b
}

/// The layout of a record's terminal line (see [`is_render_plan`]).
pub fn render_plan(level: LevelFilter, record_level: Level, file: Option<&str>) -> (r: RenderPlan)
    ensures
        is_render_plan(r, level, record_level, opt_view(file)),
        (level == LevelFilter::Error || level == LevelFilter::Warn || level == LevelFilter::Info)
            ==> (r matches RenderPlan::Tagged { tag_style, show_level } && show_level == (
            record_level != Level::Info) && (record_level == Level::Error ==> tag_style
            == Style::Red) && (record_level == Level::Warn ==> tag_style == Style::Yellow)),
        level == LevelFilter::Off ==> r is Silent,
{
    match level {
        LevelFilter::Off => RenderPlan::Silent,
        LevelFilter::Trace => {
            let f = match file {
                Some(f) => f,
                None => "<unknown>",
            };
            if record_level == Level::Trace && ignored_source(f) {
                RenderPlan::Silent
            } else {
                RenderPlan::Detailed { file: String::from_str(f) }
            }
        },
        LevelFilter::Debug => RenderPlan::Leveled,
        _ => {
            let tag_style = match record_level {
                Level::Error => Style::Red,
                Level::Warn => Style::Yellow,
                _ => Style::Dim,
            };
            RenderPlan::Tagged { tag_style, show_level: record_level != Level::Info }
        },
    }
}

/// The label of a level, as `styled_level` shows it before padding.
pub open spec fn level_label_text(level: Level) -> Seq<char> {
    match level {
        Level::Error => "ERROR"@,
        Level::Warn => "WARN"@,
        Level::Info => "INFO"@,
        Level::Debug => "DEBUG"@,
        Level::Trace => "TRACE"@,
    }
}

/// The colour of a level's label.
pub open spec fn level_style(level: Level) -> Style {
    match level {
        Level::Error => Style::Red,
        Level::Warn => Style::Yellow,
        Level::Info => Style::Cyan,
        Level::Debug => Style::Magenta,
        Level::Trace => Style::Dim,
    }
}

/// `n` spaces.
pub open spec fn spaces(n: nat) -> Seq<char> {
    Seq::new(n, |i: int| ' ')
}

/// Every character of `s` is printable ASCII (from space to `~`).
pub open spec fn printable_ascii(s: Seq<char>) -> bool {
    forall|i: int| 0 <= i < s.len() ==> ' ' <= #[trigger] s[i] && s[i] <= '~'
}

/// `s` followed by spaces up to `width` characters (unchanged when it is
/// already that long).
pub open spec fn padded_right(s: Seq<char>, width: nat) -> Seq<char> {
    if s.len() < width {
        s + spaces((width - s.len()) as nat)
    } else {
        s
    }
}

/// What `console::pad_str(s, width, Alignment::Left, None)` returns.
pub uninterp spec fn console_padded(s: Seq<char>, width: nat) -> Seq<char>;

/// Calls `console::pad_str` with left alignment and no truncation. Claimed
/// of it: the result depends on the text and the width alone, as the name
/// `console_padded` says, and a printable ASCII text, whose display width is
/// its length, gets spaces appended up to `width` columns. How it measures
/// other texts (escape codes, wide characters) is not stated.
#[verifier::external_body]
fn pad_str_left(s: &str, width: usize) -> (r: String)
    ensures
        r@ == console_padded(s@, width as nat),
        printable_ascii(s@) ==> r@ == padded_right(s@, width as nat),
{
    console::pad_str(s, width, console::Alignment::Left, None).into_owned()
}

/// The label of a level padded to five columns, and its colour; the label
/// is `ERROR`, `WARN`, `INFO`, `DEBUG` or `TRACE`.
pub fn level_label(level: Level) -> (r: (String, Style))
    ensures
        r.0@ == padded_right(level_label_text(level), 5),
        r.0@.len() == 5,
        r.1 == level_style(level),
{
    let (label, style) = match level {
        Level::Error => ("ERROR", Style::Red),
        Level::Warn => ("WARN", Style::Yellow),
        Level::Info => ("INFO", Style::Cyan),
        Level::Debug => ("DEBUG", Style::Magenta),
        Level::Trace => ("TRACE", Style::Dim),
    };
    proof {
        reveal_strlit("ERROR");
        reveal_strlit("WARN");
        reveal_strlit("INFO");
        reveal_strlit("DEBUG");
        reveal_strlit("TRACE");
        assert(printable_ascii(label@));
    }
    (pad_str_left(label, 5), style)
}

/// `s` preceded by spaces up to `width` characters, as `{:>width}` writes a
/// string.
pub open spec fn padded_left(s: Seq<char>, width: nat) -> Seq<char> {
    if s.len() < width {
        spaces((width - s.len()) as nat) + s
    } else {
        s
    }
}

/// The source position part of a trace line: the thread id right-aligned in
/// two columns, then `[file:line]`, the line being 0 when unknown.
pub open spec fn spec_trace_meta(thread: Seq<char>, file: Seq<char>, line: Option<u32>) -> Seq<char> {
    padded_left(thread, 2) + " ["@ + file + ":"@ + decimal(
        match line {
            Some(l) => l as nat,
            None => 0,
        },
    ) + "]"@
}

/// The source position part of a trace line for a record from `file` at
/// `line`, written by the thread whose id has the debug form `thread_debug`
/// (see [`spec_trace_meta`] and [`thread_id`]).
pub fn trace_meta(thread_debug: &str, file: &str, line: Option<u32>) -> (r: String)
    ensures
        r@ == spec_trace_meta(spec_thread_id(thread_debug@), file@, line),
{
    let id = thread_id(thread_debug);
    let n = id.as_str().unicode_len();
    let mut out = String::new();
    if n < 2 {
        let mut k: usize = n;
        while k < 2
            invariant
                n <= k <= 2,
                out@ == spaces((k - n) as nat),
            decreases 2 - k,
        {
            out.append(" ");
            proof {
                reveal_strlit(" ");
            }
            assert(out@ =~= spaces((k + 1 - n) as nat));
            k += 1;
        }
    }
    proof {
        assert(n >= 2 ==> out@ =~= Seq::<char>::empty());
    }
    out.append(id.as_str());
    out.append(" [");
    out.append(file);
    out.append(":");
    let number: usize = match line {
        Some(l) => l as usize,
        None => 0,
    };
    let digits = decimal_string(number);
    out.append(digits.as_str());
    out.append("]");
    proof {
        let expected = spec_trace_meta(spec_thread_id(thread_debug@), file@, line);
        assert(out@ =~= expected);
    }
    out
}

/// The thread id shown in trace lines: the debug form of a thread's id with
/// every `ThreadId(` and then every `)` taken out.
pub open spec fn spec_thread_id(debug_form: Seq<char>) -> Seq<char> {
    replaced(replaced(debug_form, "ThreadId("@, Seq::empty()), ")"@, Seq::empty())
}

/// The thread id shown in trace lines, from the debug form of the current
/// thread's id (such as `ThreadId(7)`, which gives `7`).
pub fn thread_id(debug_form: &str) -> (r: String)
    ensures
        r@ == spec_thread_id(debug_form@),
{
    proof {
        reveal_strlit("");
        assert(""@ =~= Seq::<char>::empty());
    }
    let id = replace_str(debug_form, "ThreadId(", "");
    replace_str(id.as_str(), ")", "")
}

/// What `console::strip_ansi_codes` returns for a text.
pub uninterp spec fn ansi_stripped(s: Seq<char>) -> Seq<char>;

/// A text holds neither of the two characters that start an ANSI escape
/// sequence (ESC and the single-character CSI).
pub open spec fn free_of_escapes(s: Seq<char>) -> bool {
    forall|i: int| 0 <= i < s.len() ==> s[i] != '\u{1b}' && s[i] != '\u{9b}'
}

/// Calls `console::strip_ansi_codes`. Claimed of it: the result depends on
/// the text alone, as the name `ansi_stripped` says, and a text without an
/// escape-starting character comes back unchanged. Which sequences it takes
/// out of other texts is not stated.
#[verifier::external_body]
fn strip_ansi_codes(s: &str) -> (r: String)
    ensures
        r@ == ansi_stripped(s@),
        free_of_escapes(s@) ==> r@ == s@,
{
    console::strip_ansi_codes(s).into_owned()
}

/// The line written to the log file: time, level and message separated by
/// spaces, with ANSI escape sequences taken out.
pub fn file_log_line(now: &str, level: &str, args: &str) -> (r: String)
    ensures
        r@ == ansi_stripped(now@ + " "@ + level@ + " "@ + args@),
{
    let mut line = String::from_str(now);
    line.append(" ");
    line.append(level);
    line.append(" ");
    line.append(args);
    strip_ansi_codes(line.as_str())
}

/// `d` is a non-empty run of ASCII decimal digits.
pub open spec fn is_digits(d: Seq<char>) -> bool {
    d.len() > 0 && forall|i: int| 0 <= i < d.len() ==> '0' <= #[trigger] d[i] && d[i] <= '9'
}

/// The thread id shown for a thread whose id's debug form is `ThreadId(N)`,
/// `N` a number, is `N`.
pub proof fn law_thread_id_of_debug_form(digits: Seq<char>)
    requires
        is_digits(digits),
    ensures
        spec_thread_id("ThreadId("@ + digits + ")"@) == digits,
{
    reveal_strlit("ThreadId(");
    reveal_strlit(")");
    let e = Seq::<char>::empty();
    let p1 = "ThreadId("@;
    let p2 = ")"@;
    assert(p1 + digits + p2 =~= p1 + (digits + p2));
    lemma_replaced_prefix(p1, digits + p2, e);
    lemma_replaced_concat(digits, p2, p1, e);
    lemma_absent_without_first(digits, p1);
    lemma_replaced_absent(digits, p1, e);
    lemma_absent_without_first(p2, p1);
    lemma_replaced_absent(p2, p1, e);
    assert(e + (digits + p2) =~= digits + p2);
    lemma_replaced_concat(digits, p2, p2, e);
    lemma_absent_without_first(digits, p2);
    lemma_replaced_absent(digits, p2, e);
    assert(p2 + e =~= p2);
    lemma_replaced_prefix(p2, e, e);
    assert(digits + (e + e) =~= digits);
}

/// The logger takes a record exactly when the terminal or the log file would:
/// its own filter is the more verbose of the two.
pub proof fn law_logger_level_covers_sinks(term_level: LevelFilter, file_level: LevelFilter, l: Level)
    ensures
        passes(l, spec_max_filter(term_level, file_level)) == (passes(l, term_level) || passes(
            l,
            file_level,
        )),
{
}

impl Logger {
    /// The logger's own filter is always the more verbose of its terminal
    /// and file filters.
    #[verifier::type_invariant]
    spec fn level_is_max(self) -> bool {
        self.level == spec_max_filter(self.term_level, self.file_level)
    }

    /// The filter that decides what the logger takes at all.
    pub closed spec fn spec_level(self) -> LevelFilter {
        self.level
    }

    /// The terminal's filter.
    pub closed spec fn spec_term_level(self) -> LevelFilter {
        self.term_level
    }

    /// The log file's filter.
    pub closed spec fn spec_file_level(self) -> LevelFilter {
        self.file_level
    }

    /// A logger with the given terminal and file filters; it takes what the
    /// more verbose of the two lets through.
    pub fn new(term_level: LevelFilter, file_level: LevelFilter) -> (r: Logger)
        ensures
            r.spec_term_level() == term_level,
            r.spec_file_level() == file_level,
            r.spec_level() == spec_max_filter(term_level, file_level),
    {
        Logger { level: max_filter(term_level, file_level), term_level, file_level }
    }

    /// The filter that decides what the logger takes at all.
    pub fn level(&self) -> (r: LevelFilter)
        ensures
            r == self.spec_level(),
            r == spec_max_filter(self.spec_term_level(), self.spec_file_level()),
    {
        proof {
            use_type_invariant(self);
        }
        self.level
    }

    /// The terminal's filter.
    pub fn term_level(&self) -> (r: LevelFilter)
        ensures
            r == self.spec_term_level(),
    {
        self.term_level
    }

    /// The log file's filter.
    pub fn file_level(&self) -> (r: LevelFilter)
        ensures
            r == self.spec_file_level(),
    {
        self.file_level
    }

    /// Whether the logger takes records of level `level`: exactly when the
    /// terminal or the log file would.
    pub fn enabled(&self, level: Level) -> (r: bool)
        ensures
            r == passes(level, self.spec_level()),
            r == (passes(level, self.spec_term_level()) || passes(level, self.spec_file_level())),
    {
        proof {
            use_type_invariant(self);
        }
        level_passes(level, self.level)
    }

    /// Where a record of level `level` goes: to the log file when it passes
    /// the file filter and a log file is open, to the terminal when it
    /// passes the terminal filter (a silent layout then writes nothing).
    pub fn sinks(&self, level: Level, has_log_file: bool) -> (r: Sinks)
        ensures
            r.file == (passes(level, self.spec_file_level()) && has_log_file),
            r.terminal == passes(level, self.spec_term_level()),
    {
        Sinks {
            file: level_passes(level, self.file_level) && has_log_file,
            terminal: level_passes(level, self.term_level),
        }
    }
}

} // verus!
