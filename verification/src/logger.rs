//! Logging: levels, ANSI colors, log-line formatting, clock stamps, and
//! the severity decisions of the native debug messenger.
//!
//! Formatting and severity mapping are verified; writing the finished line
//! to the terminal and reading the clock are the only unverified edges.

use std::io::Write;

use vstd::prelude::*;

use crate::decimal::{dec_str, u32_to_string};

verus! {

/// The log levels, lowest to highest severity.
#[allow(non_camel_case_types)]
#[derive(Clone, Copy, Debug, PartialEq, Eq, Structural)]
pub enum LogLevel {
    TRACE,
    INFO,
    WARN,
    ERROR,
    FATAL,
}

/// The color-table index of a level; the two highest levels share one.
pub open spec fn level_index(l: LogLevel) -> usize {
    match l {
        LogLevel::TRACE => 0,
        LogLevel::INFO => 1,
        LogLevel::WARN => 2,
        LogLevel::ERROR => 3,
        LogLevel::FATAL => 3,
    }
}

/// The display name of a level.
pub open spec fn level_name(l: LogLevel) -> Seq<char> {
    match l {
        LogLevel::TRACE => "Trace"@,
        LogLevel::INFO => "Info"@,
        LogLevel::WARN => "Warn"@,
        LogLevel::ERROR => "Error"@,
        LogLevel::FATAL => "Fatal"@,
    }
}

impl LogLevel {
    /// The color-table index of the level.
    pub fn index(&self) -> (i: usize)
        ensures
            i == level_index(*self),
    {
        match self {
            LogLevel::TRACE => 0,
            LogLevel::INFO => 1,
            LogLevel::WARN => 2,
            LogLevel::ERROR => 3,
            LogLevel::FATAL => 3,
        }
    }

    /// The display name of the level.
    pub fn name(&self) -> (r: &'static str)
        ensures
            r@ == level_name(*self),
    {
        match self {
            LogLevel::TRACE => "Trace",
            LogLevel::INFO => "Info",
            LogLevel::WARN => "Warn",
            LogLevel::ERROR => "Error",
            LogLevel::FATAL => "Fatal",
        }
    }
}

/// The ANSI color code for a color-table index: white for trace, green for
/// info, yellow for warn, red for error and fatal, and the reset code for
/// anything past the table.
pub open spec fn color_code_of(index: usize) -> u32 {
    if index == 0 {
        37
    } else if index == 1 {
        32
    } else if index == 2 {
        33
    } else if index == 3 {
        31
    } else {
        0
    }
}

/// Looks up the ANSI color code for a color-table index.
pub fn color_code(index: usize) -> (c: u32)
    ensures
        c == color_code_of(index),
{
    match index {
        0 => 37,
        1 => 32,
        2 => 33,
        3 => 31,
        _ => 0,
    }
}

/// An ANSI color escape: `ESC [ <code> m`.
pub open spec fn ansi_escape(code: u32) -> Seq<char> {
    "\u{1b}["@ + dec_str(code as nat) + "m"@
}

/// One formatted log line: the level color, a clock stamp in brackets, the
/// logger name, the level name, the content, and a color reset.
pub open spec fn log_line(
    color: u32,
    time: Seq<char>,
    name: Seq<char>,
    level: LogLevel,
    content: Seq<char>,
) -> Seq<char> {
    ansi_escape(color) + "["@ + time + "] "@ + name + ":"@ + level_name(level) + "> "@ + content
        + " "@ + ansi_escape(0)
}

/// Builds the ANSI color escape for a code.
fn ansi_escape_exec(code: u32) -> (s: String)
    ensures
        s@ == ansi_escape(code),
{
    let mut s = String::new();
    s.append("\u{1b}[");
    let digits = u32_to_string(code);
    s.append(digits.as_str());
    s.append("m");
    assert(s@ =~= ansi_escape(code));
    s
}

/// Relies on the `format!` rendering of the standard `Debug` trait.
#[verifier::external_body]
fn debug_string<T: core::fmt::Debug>(t: &T) -> String {
    format!("{:?}", t)
}

/// Relies on writing to the standard output: prints the line and a
/// newline.
#[verifier::external_body]
fn emit_line(line: &str) {
    let _ = writeln!(std::io::stdout(), "{}", line);
}

/// Relies on `std::time::SystemTime::now`: the seconds since the Unix
/// epoch, or nothing when the system clock reads before the epoch.
#[verifier::external_body]
fn now_unix_secs() -> Option<u64> {
    match std::time::SystemTime::now().duration_since(std::time::SystemTime::UNIX_EPOCH) {
        Ok(d) => Some(d.as_secs()),
        Err(_) => None,
    }
}

/// Errors of reading the clock.
#[derive(Clone, Copy, Debug, PartialEq, Eq, Structural)]
pub enum TimeError {
    ClockBeforeEpoch,
}

/// The clock stamp for a count of seconds since the Unix epoch:
/// `hours:minutes:seconds` of the current day, without zero padding.
pub open spec fn clock_str(t: u64) -> Seq<char> {
    dec_str(((t as nat) / 3600) % 24) + ":"@ + dec_str(((t as nat) / 60) % 60) + ":"@ + dec_str(
        (t as nat) % 60,
    )
}

/// Formats a count of seconds since the Unix epoch as a clock stamp.
pub fn format_clock(t: u64) -> (s: String)
    ensures
        s@ == clock_str(t),
{
    let hours: u32 = ((t / 3600) % 24) as u32;
    let mins: u32 = ((t / 60) % 60) as u32;
    let secs: u32 = (t % 60) as u32;
    let mut s = u32_to_string(hours);
    s.append(":");
    let m = u32_to_string(mins);
    s.append(m.as_str());
    s.append(":");
    let sec = u32_to_string(secs);
    s.append(sec.as_str());
    assert(s@ =~= clock_str(t));
    s
}

/// Reads the clock and formats it as a clock stamp; every success is the
/// stamp of some second count.
pub fn get_time() -> (r: Result<String, TimeError>)
    ensures
        r matches Ok(s) ==> exists|t: u64| s@ == clock_str(t),
{
    match now_unix_secs() {
        Some(t) => Ok(format_clock(t)),
        None => Err(TimeError::ClockBeforeEpoch),
    }
}

/// A named logger writing colored lines to the terminal.
pub struct Logger {
    name: String,
}

impl Logger {
    /// The logger's name.
    pub closed spec fn name_spec(&self) -> Seq<char> {
        self.name@
    }

    /// Makes a logger with the given name.
    pub fn new(name: String) -> (l: Logger)
        ensures
            l.name_spec() == name@,
    {
        Logger { name }
    }

    /// Builds the log line for a level, clock stamp, logger name and
    /// rendered content.
    pub fn format_line(level: LogLevel, time: &str, name: &str, content: &str) -> (s: String)
        ensures
            s@ == log_line(color_code_of(level_index(level)), time@, name@, level, content@),
    {
        let color = color_code(level.index());
        let mut s = ansi_escape_exec(color);
        s.append("[");
        s.append(time);
        s.append("] ");
        s.append(name);
        s.append(":");
        s.append(level.name());
        s.append("> ");
        s.append(content);
        s.append(" ");
        let reset = ansi_escape_exec(0);
        s.append(reset.as_str());
        assert(s@ =~= log_line(color_code_of(level_index(level)), time@, name@, level, content@));
        s
    }

    /// Renders the content, stamps the line with the clock (or an empty
    /// stamp when the clock is unavailable), and writes it out.
    pub fn log<T: core::fmt::Debug>(&self, level: LogLevel, name: &String, content: &T) {
        let time = match get_time() {
            Ok(t) => t,
            Err(_) => String::new(),
        };
        let rendered = debug_string(content);
        let line = Self::format_line(level, time.as_str(), name.as_str(), rendered.as_str());
        emit_line(line.as_str());
    }

    /// Writes a trace-level line.
    pub fn trace<T: core::fmt::Debug>(&self, content: &T) {
        self.log(LogLevel::TRACE, &self.name, content);
    }

    /// Writes an info-level line.
    pub fn info<T: core::fmt::Debug>(&self, content: &T) {
        self.log(LogLevel::INFO, &self.name, content);
    }

    /// Writes a warn-level line.
    pub fn warn<T: core::fmt::Debug>(&self, content: &T) {
        self.log(LogLevel::WARN, &self.name, content);
    }

    /// Writes an error-level line.
    pub fn error<T: core::fmt::Debug>(&self, content: &T) {
        self.log(LogLevel::ERROR, &self.name, content);
    }

    /// Writes a fatal-level line.  The caller decides how to abort;
    /// reporting the failure never panics here.
    pub fn fatal<T: core::fmt::Debug>(&self, content: &T) {
        self.log(LogLevel::FATAL, &self.name, content);
    }
}

/// One formatted debug-messenger line: the severity color, a clock stamp
/// in brackets, the native source name, the rendered severity and message
/// type, the message, and a color reset.
pub open spec fn debug_line(
    color: u32,
    time: Seq<char>,
    severity: Seq<char>,
    ty: Seq<char>,
    message: Seq<char>,
) -> Seq<char> {
    ansi_escape(color) + "["@ + time + "] "@ + "Vulkan "@ + severity + ":"@ + ty + "> "@ + message
        + " "@ + ansi_escape(0)
}

/// Builds the debug-messenger line for a severity color, clock stamp, and
/// the rendered severity, message type and message.
pub fn vk_debug_line(color: u32, time: &str, severity: &str, ty: &str, message: &str) -> (s:
    String)
    ensures
        s@ == debug_line(color, time@, severity@, ty@, message@),
{
    let mut s = ansi_escape_exec(color);
    s.append("[");
    s.append(time);
    s.append("] ");
    s.append("Vulkan ");
    s.append(severity);
    s.append(":");
    s.append(ty);
    s.append("> ");
    s.append(message);
    s.append(" ");
    let reset = ansi_escape_exec(0);
    s.append(reset.as_str());
    assert(s@ =~= debug_line(color, time@, severity@, ty@, message@));
    s
}

/// The native verbose-severity bit.
pub const SEVERITY_VERBOSE: u32 = 0x1;

/// The native info-severity bit.
pub const SEVERITY_INFO: u32 = 0x10;

/// The native warning-severity bit.
pub const SEVERITY_WARNING: u32 = 0x100;

/// The native error-severity bit.
pub const SEVERITY_ERROR: u32 = 0x1000;

/// The debug-messenger severity mask for a minimum level: errors always
/// pass, and each lower threshold also admits the class beneath it
/// (cumulative).
pub open spec fn severity_mask_of(level: usize) -> u32 {
    SEVERITY_ERROR | (if level < 3 {
        SEVERITY_WARNING
    } else {
        0
    }) | (if level < 2 {
        SEVERITY_INFO
    } else {
        0
    }) | (if level < 1 {
        SEVERITY_VERBOSE
    } else {
        0
    })
}

/// Computes the debug-messenger severity mask for a minimum level.
pub fn severity_mask(level: usize) -> (m: u32)
    ensures
        m == severity_mask_of(level),
{
    let warn: u32 = if level < 3 { SEVERITY_WARNING } else { 0 };
    let info: u32 = if level < 2 { SEVERITY_INFO } else { 0 };
    let verbose: u32 = if level < 1 { SEVERITY_VERBOSE } else { 0 };
    SEVERITY_ERROR | warn | info | verbose
}

/// The color-table index for a native severity mask: the highest class
/// present wins.
pub open spec fn severity_index_of(mask: u32) -> usize {
    if mask & SEVERITY_ERROR != 0 {
        3
    } else if mask & SEVERITY_WARNING != 0 {
        2
    } else if mask & SEVERITY_INFO != 0 {
        1
    } else {
        0
    }
}

/// Maps a native severity mask to its color-table index.
pub fn severity_index(mask: u32) -> (i: usize)
    ensures
        i == severity_index_of(mask),
{
    if mask & SEVERITY_ERROR != 0 {
        3
    } else if mask & SEVERITY_WARNING != 0 {
        2
    } else if mask & SEVERITY_INFO != 0 {
        1
    } else {
        0
    }
}

} // verus!
