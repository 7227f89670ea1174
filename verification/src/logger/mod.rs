//! Leveled logging: the levels, the filter, the text of a log line, and the
//! logger state (current level and line history).
use vstd::prelude::*;

pub mod broadcast;

pub use broadcast::{LogHistory, LogLine};

use crate::text::{
    append_str, chars_equal, chars_of, decimal, lower, lower_chars, owned, push_decimal, string_of,
};

verus! {

/// Log levels, from the most verbose to `Off`.
#[derive(Debug, Clone, Copy, PartialEq, Eq, PartialOrd, Ord, Structural)]
pub enum LogLevel {
    Trace,
    Debug,
    Info,
    Warn,
    Error,
    Off,
}

impl LogLevel {
    /// The level's position in the order `Trace < Debug < Info < Warn < Error < Off`.
    pub open spec fn rank(self) -> nat {
        match self {
            LogLevel::Trace => 0,
            LogLevel::Debug => 1,
            LogLevel::Info => 2,
            LogLevel::Warn => 3,
            LogLevel::Error => 4,
            LogLevel::Off => 5,
        }
    }

    /// The level's name in lower case, as `from_str` accepts it.
    pub open spec fn spec_lower_name(self) -> Seq<char> {
        match self {
            LogLevel::Trace => "trace"@,
            LogLevel::Debug => "debug"@,
            LogLevel::Info => "info"@,
            LogLevel::Warn => "warn"@,
            LogLevel::Error => "error"@,
            LogLevel::Off => "off"@,
        }
    }

    /// The level's name in upper case, as log lines carry it.
    pub open spec fn spec_upper_name(self) -> Seq<char> {
        match self {
            LogLevel::Trace => "TRACE"@,
            LogLevel::Debug => "DEBUG"@,
            LogLevel::Info => "INFO"@,
            LogLevel::Warn => "WARN"@,
            LogLevel::Error => "ERROR"@,
            LogLevel::Off => "OFF"@,
        }
    }

    /// The level named by `s` in any letter case.
    pub open spec fn spec_from_str(s: Seq<char>) -> Option<LogLevel> {
        let l = lower(s);
        if l == "trace"@ {
            Some(LogLevel::Trace)
        } else if l == "debug"@ {
            Some(LogLevel::Debug)
        } else if l == "info"@ {
            Some(LogLevel::Info)
        } else if l == "warn"@ {
            Some(LogLevel::Warn)
        } else if l == "error"@ {
            Some(LogLevel::Error)
        } else if l == "off"@ {
            Some(LogLevel::Off)
        } else {
            None
        }
    }

    /// The level named by `s`, ignoring letter case.
    pub fn from_str(s: &str) -> (res: Option<Self>)
        ensures
            res == Self::spec_from_str(s@),
    {
        let l = lower_chars(chars_of(s).as_slice());
        if chars_equal(l.as_slice(), chars_of("trace").as_slice()) {
            Some(LogLevel::Trace)
        } else if chars_equal(l.as_slice(), chars_of("debug").as_slice()) {
            Some(LogLevel::Debug)
        } else if chars_equal(l.as_slice(), chars_of("info").as_slice()) {
            Some(LogLevel::Info)
        } else if chars_equal(l.as_slice(), chars_of("warn").as_slice()) {
            Some(LogLevel::Warn)
        } else if chars_equal(l.as_slice(), chars_of("error").as_slice()) {
            Some(LogLevel::Error)
        } else if chars_equal(l.as_slice(), chars_of("off").as_slice()) {
            Some(LogLevel::Off)
        } else {
            None
        }
    }

    pub open spec fn spec_from_u8(v: u8) -> LogLevel {
        if v == 0 {
            LogLevel::Trace
        } else if v == 1 {
            LogLevel::Debug
        } else if v == 2 {
            LogLevel::Info
        } else if v == 3 {
            LogLevel::Warn
        } else if v == 4 {
            LogLevel::Error
        } else {
            LogLevel::Off
        }
    }

    /// The level with rank `v`; any value above 4 is `Off`.
    pub fn from_u8(v: u8) -> (res: LogLevel)
        ensures
            res == Self::spec_from_u8(v),
    {
        match v {
            0 => LogLevel::Trace,
            1 => LogLevel::Debug,
            2 => LogLevel::Info,
            3 => LogLevel::Warn,
            4 => LogLevel::Error,
            _ => LogLevel::Off,
        }
    }

    /// The level's rank as a byte.
    pub fn as_u8(self) -> (res: u8)
        ensures
            res as nat == self.rank(),
    {
        match self {
            LogLevel::Trace => 0,
            LogLevel::Debug => 1,
            LogLevel::Info => 2,
            LogLevel::Warn => 3,
            LogLevel::Error => 4,
            LogLevel::Off => 5,
        }
    }

    /// The level's name in lower case.
    pub fn lower_name(self) -> (res: &'static str)
        ensures
            res@ == self.spec_lower_name(),
    {
        match self {
            LogLevel::Trace => "trace",
            LogLevel::Debug => "debug",
            LogLevel::Info => "info",
            LogLevel::Warn => "warn",
            LogLevel::Error => "error",
            LogLevel::Off => "off",
        }
    }

    /// The level's name in upper case.
    pub fn upper_name(self) -> (res: &'static str)
        ensures
            res@ == self.spec_upper_name(),
    {
        match self {
            LogLevel::Trace => "TRACE",
            LogLevel::Debug => "DEBUG",
            LogLevel::Info => "INFO",
            LogLevel::Warn => "WARN",
            LogLevel::Error => "ERROR",
            LogLevel::Off => "OFF",
        }
    }
}

impl From<u8> for LogLevel {
    fn from(v: u8) -> (res: Self) {
        LogLevel::from_u8(v)
    }
}

impl vstd::std_specs::convert::FromSpecImpl<u8> for LogLevel {
    open spec fn obeys_from_spec() -> bool {
        true
    }

    open spec fn from_spec(v: u8) -> LogLevel {
        LogLevel::spec_from_u8(v)
    }
}

/// The text that the `time` crate gives for an instant (nanoseconds since
/// the Unix epoch) at a UTC offset (seconds), formatted by a format
/// description.
pub uninterp spec fn timestamp_text(unix_nanos: i128, offset_seconds: i32, description: Seq<char>) -> Seq<char>;

/// The `time` crate: `OffsetDateTime::from_unix_timestamp_nanos`, moved by
/// `checked_to_offset` to the offset from `UtcOffset::from_whole_seconds`
/// (UTC when that refuses the offset), then `format` with the description
/// that `format_description::parse` reads from `description` (an empty one
/// when it refuses it); empty when the crate refuses the instant or its local
/// date. The text is only named here.
#[verifier::external_body]
fn format_timestamp(unix_nanos: i128, offset_seconds: i32, description: &str) -> (res: String)
    ensures
        res@ == timestamp_text(unix_nanos, offset_seconds, description@),
{
    let offset = time::UtcOffset::from_whole_seconds(offset_seconds).unwrap_or(time::UtcOffset::UTC);
    let fmt = time::format_description::parse(description).unwrap_or_default();
    let local = match time::OffsetDateTime::from_unix_timestamp_nanos(unix_nanos) {
        Ok(t) => t.checked_to_offset(offset),
        Err(_) => None,
    };
    match local {
        Some(t) => t.format(&fmt).unwrap_or_default(),
        None => String::new(),
    }
}

/// The format of the time stamps of log lines: `YYYY-MM-DD hh:mm:ss:mmm`.
pub open spec fn log_time_format() -> Seq<char> {
    "[year]-[month]-[day] [hour]:[minute]:[second]:[subsecond digits:3]"@
}

/// The time stamp that log lines carry for an instant read from the clock
/// (nanoseconds since the Unix epoch) at the local UTC offset (seconds).
pub fn get_time(unix_nanos: i128, offset_seconds: i32) -> (res: String)
    ensures
        res@ == timestamp_text(unix_nanos, offset_seconds, log_time_format()),
{
    format_timestamp(
        unix_nanos,
        offset_seconds,
        "[year]-[month]-[day] [hour]:[minute]:[second]:[subsecond digits:3]",
    )
}

/// The icon that marks a level on the console.
pub open spec fn icon_of(level: LogLevel) -> Seq<char> {
    match level {
        LogLevel::Trace => "🟫"@,
        LogLevel::Debug => "🟩"@,
        LogLevel::Info => "🟦"@,
        LogLevel::Warn => "🟧"@,
        LogLevel::Error => "🟥"@,
        LogLevel::Off => ""@,
    }
}

pub fn level_icon(level: LogLevel) -> (res: &'static str)
    ensures
        res@ == icon_of(level),
{
    match level {
        LogLevel::Trace => "🟫",
        LogLevel::Debug => "🟩",
        LogLevel::Info => "🟦",
        LogLevel::Warn => "🟧",
        LogLevel::Error => "🟥",
        LogLevel::Off => "",
    }
}

/// A message at `level` is emitted when the level is at least the current
/// level, and never at `Off`.
pub open spec fn passes(level: LogLevel, current: LogLevel) -> bool {
    level.rank() >= current.rank() && level != LogLevel::Off
}

/// Which messages the filter lets through, level by level: at `Trace`
/// everything but `Off`; at `Debug` all but `Trace`; at `Info` only `Info`,
/// `Warn` and `Error`; at `Warn` only `Warn` and `Error`; at `Error` only
/// `Error`; at `Off` nothing. In particular an `Error` message goes through
/// at every level but `Off`, and a message that goes through at some level
/// goes through at every lower one.
pub proof fn law_filter_table(level: LogLevel, current: LogLevel)
    ensures
        passes(level, current) <==> level != LogLevel::Off && match current {
            LogLevel::Trace => true,
            LogLevel::Debug => level != LogLevel::Trace,
            LogLevel::Info => level == LogLevel::Info || level == LogLevel::Warn || level
                == LogLevel::Error,
            LogLevel::Warn => level == LogLevel::Warn || level == LogLevel::Error,
            LogLevel::Error => level == LogLevel::Error,
            LogLevel::Off => false,
        },
        current != LogLevel::Off ==> passes(LogLevel::Error, current),
        forall|lower_level: LogLevel|
            passes(level, current) && #[trigger] lower_level.rank() <= current.rank() ==> passes(
                level,
                lower_level,
            ),
{
}

/// `s` right-aligned in a field of `width` characters.
pub open spec fn pad_left(s: Seq<char>, width: nat) -> Seq<char> {
    if s.len() < width {
        Seq::new((width - s.len()) as nat, |i: int| ' ') + s
    } else {
        s
    }
}

fn push_padded(out: &mut Vec<char>, s: &[char], width: usize)
    ensures
        final(out)@ == old(out)@ + pad_left(s@, width as nat),
{
    let mut k: usize = s.len();
    let ghost start = out@;
    while k < width
        invariant
            s@.len() <= k <= width || (k == s@.len() && k >= width),
            out@ == start + Seq::new((k - s@.len()) as nat, |i: int| ' '),
        decreases width - k,
    {
        out.push(' ');
        assert(Seq::new((k + 1 - s@.len()) as nat, |i: int| ' ') =~= Seq::new(
            (k - s@.len()) as nat,
            |i: int| ' ',
        ).push(' '));
        k = k + 1;
    }
    crate::text::append_chars(out, s);
    if s.len() >= width {
        assert(Seq::new((k - s@.len()) as nat, |i: int| ' ') =~= Seq::<char>::empty());
        assert(out@ =~= start + s@);
    } else {
        assert(out@ =~= start + pad_left(s@, width as nat));
    }
}

/// The console text of a log line:
/// `[<time>] <icon> [<LEVEL, width 5>] [PID:<pid> TID:<tid, width 3>] [<tag>] <message>`.
pub open spec fn console_text(line: LogLine, level: LogLevel) -> Seq<char> {
    "["@ + line.timestamp@ + "] "@ + icon_of(level) + " ["@ + pad_left(line.level@, 5) + "] [PID:"@
        + decimal(line.pid as nat) + " TID:"@ + pad_left(decimal(line.tid as nat), 3) + "] ["@
        + line.tag@ + "] "@ + line.message@
}

pub fn console_line(line: &LogLine, level: LogLevel) -> (res: String)
    ensures
        res@ == console_text(*line, level),
{
    let mut out: Vec<char> = Vec::new();
    append_str(&mut out, "[");
    append_str(&mut out, line.timestamp.as_str());
    append_str(&mut out, "] ");
    append_str(&mut out, level_icon(level));
    append_str(&mut out, " [");
    push_padded(&mut out, chars_of(line.level.as_str()).as_slice(), 5);
    append_str(&mut out, "] [PID:");
    push_decimal(&mut out, line.pid as u64);
    append_str(&mut out, " TID:");
    let mut tid: Vec<char> = Vec::new();
    push_decimal(&mut tid, line.tid);
    assert(tid@ =~= decimal(line.tid as nat));
    push_padded(&mut out, tid.as_slice(), 3);
    append_str(&mut out, "] [");
    append_str(&mut out, line.tag.as_str());
    append_str(&mut out, "] ");
    append_str(&mut out, line.message.as_str());
    assert(out@ =~= console_text(*line, level));
    string_of(out.as_slice())
}

/// Where and when a message is emitted: the time stamp, the process id and
/// the thread id that its line carries.
#[derive(Debug, Clone)]
pub struct EmitContext {
    pub timestamp: String,
    pub pid: u32,
    pub tid: u64,
}

/// The line that a message gives.
pub open spec fn line_of(level: LogLevel, tag: Seq<char>, msg: Seq<char>, ctx: EmitContext, line: LogLine) -> bool {
    &&& line.timestamp@ == ctx.timestamp@
    &&& line.level@ == level.spec_upper_name()
    &&& line.tag@ == tag
    &&& line.pid == ctx.pid
    &&& line.tid == ctx.tid
    &&& line.message@ == msg
}

/// The logger: the current level and the history of emitted lines.
pub struct Logger {
    level: LogLevel,
    history: LogHistory,
}

impl Logger {
    pub closed spec fn level(&self) -> LogLevel {
        self.level
    }

    pub closed spec fn lines(&self) -> Seq<LogLine> {
        self.history.lines()
    }

    /// A logger at level `Info` with an empty history.
    pub fn new() -> (res: Self)
        ensures
            res.level() == LogLevel::Info,
            res.lines() == Seq::<LogLine>::empty(),
    {
        Logger { level: LogLevel::Info, history: LogHistory::new() }
    }

    pub fn current_level(&self) -> (res: LogLevel)
        ensures
            res == self.level(),
    {
        self.level
    }

    /// Emits a message at `level`: when the level passes the filter, the line
    /// is added to the history and returned, to be printed and delivered.
    pub fn emit(&mut self, level: LogLevel, tag: &str, msg: &str, ctx: &EmitContext) -> (res: Option<
        LogLine,
    >)
        ensures
            final(self).level() == old(self).level(),
            match res {
                Some(line) => passes(level, old(self).level()) && line_of(level, tag@, msg@, *ctx, line)
                    && final(self).lines() == broadcast::after_broadcast(old(self).lines(), line),
                None => !passes(level, old(self).level()) && final(self).lines() == old(self).lines(),
            },
    {
        if level.as_u8() < self.level.as_u8() {
            return None;
        }
        if level == LogLevel::Off {
            return None;
        }
        let line = LogLine {
            timestamp: ctx.timestamp.clone(),
            level: owned(level.upper_name()),
            tag: owned(tag),
            pid: ctx.pid,
            tid: ctx.tid,
            message: owned(msg),
        };
        self.history.broadcast(&line);
        Some(line)
    }

    pub fn trace(&mut self, tag: &str, msg: &str, ctx: &EmitContext) -> (res: Option<LogLine>)
        ensures
            final(self).level() == old(self).level(),
            match res {
                Some(line) => passes(LogLevel::Trace, old(self).level()) && line_of(LogLevel::Trace, tag@, msg@, *ctx, line)
                    && final(self).lines() == broadcast::after_broadcast(old(self).lines(), line),
                None => !passes(LogLevel::Trace, old(self).level()) && final(self).lines() == old(self).lines(),
            },
    {
        self.emit(LogLevel::Trace, tag, msg, ctx)
    }

    pub fn debug(&mut self, tag: &str, msg: &str, ctx: &EmitContext) -> (res: Option<LogLine>)
        ensures
            final(self).level() == old(self).level(),
            match res {
                Some(line) => passes(LogLevel::Debug, old(self).level()) && line_of(LogLevel::Debug, tag@, msg@, *ctx, line)
                    && final(self).lines() == broadcast::after_broadcast(old(self).lines(), line),
                None => !passes(LogLevel::Debug, old(self).level()) && final(self).lines() == old(self).lines(),
            },
    {
        self.emit(LogLevel::Debug, tag, msg, ctx)
    }

    pub fn info(&mut self, tag: &str, msg: &str, ctx: &EmitContext) -> (res: Option<LogLine>)
        ensures
            final(self).level() == old(self).level(),
            match res {
                Some(line) => passes(LogLevel::Info, old(self).level()) && line_of(LogLevel::Info, tag@, msg@, *ctx, line)
                    && final(self).lines() == broadcast::after_broadcast(old(self).lines(), line),
                None => !passes(LogLevel::Info, old(self).level()) && final(self).lines() == old(self).lines(),
            },
    {
        self.emit(LogLevel::Info, tag, msg, ctx)
    }

    pub fn warn(&mut self, tag: &str, msg: &str, ctx: &EmitContext) -> (res: Option<LogLine>)
        ensures
            final(self).level() == old(self).level(),
            match res {
                Some(line) => passes(LogLevel::Warn, old(self).level()) && line_of(LogLevel::Warn, tag@, msg@, *ctx, line)
                    && final(self).lines() == broadcast::after_broadcast(old(self).lines(), line),
                None => !passes(LogLevel::Warn, old(self).level()) && final(self).lines() == old(self).lines(),
            },
    {
        self.emit(LogLevel::Warn, tag, msg, ctx)
    }

    pub fn error(&mut self, tag: &str, msg: &str, ctx: &EmitContext) -> (res: Option<LogLine>)
        ensures
            final(self).level() == old(self).level(),
            match res {
                Some(line) => passes(LogLevel::Error, old(self).level()) && line_of(LogLevel::Error, tag@, msg@, *ctx, line)
                    && final(self).lines() == broadcast::after_broadcast(old(self).lines(), line),
                None => !passes(LogLevel::Error, old(self).level()) && final(self).lines() == old(self).lines(),
            },
    {
        self.emit(LogLevel::Error, tag, msg, ctx)
    }

    /// Sets the current level, then logs `Log level changed to <Level>` at
    /// `Info` (which the new level filters like any other message).
    pub fn set_level(&mut self, level: LogLevel, ctx: &EmitContext) -> (res: Option<LogLine>)
        ensures
            final(self).level() == level,
            match res {
                Some(line) => passes(LogLevel::Info, level) && line_of(LogLevel::Info, "server"@,
                    level_changed_message(level), *ctx, line) && final(self).lines()
                    == broadcast::after_broadcast(old(self).lines(), line),
                None => !passes(LogLevel::Info, level) && final(self).lines() == old(self).lines(),
            },
    {
        self.level = level;
        let mut msg: Vec<char> = chars_of("Log level changed to ");
        append_str(&mut msg, level_debug_name(level));
        let text = string_of(msg.as_slice());
        self.emit(LogLevel::Info, "server", text.as_str(), ctx)
    }

    /// A copy of the line history, oldest first.
    pub fn get_history(&self) -> (res: Vec<LogLine>)
        ensures
            res@ == self.lines(),
    {
        self.history.get_history()
    }
}

/// The level's name as `Debug` writes it (`Trace`, `Debug`, ...).
pub open spec fn spec_debug_name(level: LogLevel) -> Seq<char> {
    match level {
        LogLevel::Trace => "Trace"@,
        LogLevel::Debug => "Debug"@,
        LogLevel::Info => "Info"@,
        LogLevel::Warn => "Warn"@,
        LogLevel::Error => "Error"@,
        LogLevel::Off => "Off"@,
    }
}

pub fn level_debug_name(level: LogLevel) -> (res: &'static str)
    ensures
        res@ == spec_debug_name(level),
{
    match level {
        LogLevel::Trace => "Trace",
        LogLevel::Debug => "Debug",
        LogLevel::Info => "Info",
        LogLevel::Warn => "Warn",
        LogLevel::Error => "Error",
        LogLevel::Off => "Off",
    }
}

pub open spec fn level_changed_message(level: LogLevel) -> Seq<char> {
    "Log level changed to "@ + spec_debug_name(level)
}

/// Reading a level name ignores letter case: `s` and its lower-case form name
/// the same level.
pub proof fn law_level_name_case_insensitive(s: Seq<char>)
    ensures
        LogLevel::spec_from_str(lower(s)) == LogLevel::spec_from_str(s),
{
    assert(lower(lower(s)) =~= lower(s));
}

/// Every level's name, in lower or in upper case, reads back as that level.
pub proof fn law_level_name_round_trip(level: LogLevel)
    ensures
        LogLevel::spec_from_str(level.spec_lower_name()) == Some(level),
        LogLevel::spec_from_str(level.spec_upper_name()) == Some(level),
{
    reveal_strlit("trace");
    reveal_strlit("debug");
    reveal_strlit("info");
    reveal_strlit("warn");
    reveal_strlit("error");
    reveal_strlit("off");
    reveal_strlit("TRACE");
    reveal_strlit("DEBUG");
    reveal_strlit("INFO");
    reveal_strlit("WARN");
    reveal_strlit("ERROR");
    reveal_strlit("OFF");
    assert(lower("trace"@) =~= "trace"@);
    assert(lower("debug"@) =~= "debug"@);
    assert(lower("info"@) =~= "info"@);
    assert(lower("warn"@) =~= "warn"@);
    assert(lower("error"@) =~= "error"@);
    assert(lower("off"@) =~= "off"@);
    assert(lower("TRACE"@) =~= "trace"@);
    assert(lower("DEBUG"@) =~= "debug"@);
    assert(lower("INFO"@) =~= "info"@);
    assert(lower("WARN"@) =~= "warn"@);
    assert(lower("ERROR"@) =~= "error"@);
    assert(lower("OFF"@) =~= "off"@);
    assert("trace"@[0] != "debug"@[0]);
    assert("info"@.len() != "trace"@.len());
    assert("warn"@.len() != "trace"@.len());
    assert("warn"@[0] != "info"@[0]);
    assert("error"@ != "trace"@);
    assert("error"@ != "debug"@);
    assert("off"@.len() != "trace"@.len());
    assert("off"@.len() != "info"@.len());
}

} // verus!
