//! Carries NGX's diagnostic messages over to the application's logger.

use crate::logger::log_max_level;
use vstd::prelude::*;

verus! {

/// NGX produces no messages.
pub const NGX_LOGGING_LEVEL_OFF: i32 = 0;

/// NGX produces its ordinary messages.
pub const NGX_LOGGING_LEVEL_ON: i32 = 1;

/// NGX produces all of its messages.
pub const NGX_LOGGING_LEVEL_VERBOSE: i32 = 2;

/// The log target of NGX's messages.
pub const NGX_LOG_TARGET: &'static str = "dlss_wgpu_dx12::ngx";

/// How much the application's logger lets through.
#[derive(Clone, Copy, Debug, PartialEq, Eq, Structural)]
pub enum LogFilter {
    /// Nothing.
    Off,
    /// Errors.
    Error,
    /// Warnings and what is worse.
    Warn,
    /// Information and what is worse.
    Info,
    /// Debugging messages and what is worse.
    Debug,
    /// Everything.
    Trace,
}

/// The level of a logged NGX message.
#[derive(Clone, Copy, Debug, PartialEq, Eq, Structural)]
pub enum LogLevel {
    /// Information.
    Info,
    /// Debugging.
    Debug,
}

impl LogFilter {
    /// The NGX level that produces no more than the logger lets through.
    pub open spec fn ngx_level(self) -> i32 {
        match self {
            LogFilter::Off => NGX_LOGGING_LEVEL_OFF,
            LogFilter::Trace | LogFilter::Debug => NGX_LOGGING_LEVEL_VERBOSE,
            LogFilter::Error | LogFilter::Warn | LogFilter::Info => NGX_LOGGING_LEVEL_ON,
        }
    }

    /// The NGX level to request of a logger with this filter.
    pub fn logging_level(self) -> (r: i32)
        ensures
            r == self.ngx_level(),
    {
        match self {
            LogFilter::Off => NGX_LOGGING_LEVEL_OFF,
            LogFilter::Trace | LogFilter::Debug => NGX_LOGGING_LEVEL_VERBOSE,
            _ => NGX_LOGGING_LEVEL_ON,
        }
    }
}

/// What the application's logger lets through now: what the logger says when it is asked. That may be
/// any filter, and another one the next time.
pub fn current_filter() -> (r: LogFilter)
    ensures
        call_ensures(log_max_level, (), r),
{
    log_max_level()
}

/// The NGX level to request, from the current maximum level of the application's logger, so that NGX
/// only produces messages that would be logged. What is requested of a given filter is said by
/// [`LogFilter::logging_level`].
pub fn min_logging_level() -> (r: i32)
    ensures
        exists|filter: LogFilter| #[trigger]
            call_ensures(current_filter, (), filter) && r == filter.ngx_level(),
{
    current_filter().logging_level()
}

/// A message to hand to the application's logger.
#[derive(Debug, PartialEq, Eq)]
pub struct LogRecord {
    /// The level.
    pub level: LogLevel,
    /// The target.
    pub target: String,
    /// The message.
    pub text: String,
}

/// Whether a character has the White_Space property of Unicode.
pub open spec fn is_whitespace(c: char) -> bool {
    let code = c as u32;
    ||| 0x9 <= code <= 0xd
    ||| code == 0x20
    ||| code == 0x85
    ||| code == 0xa0
    ||| code == 0x1680
    ||| 0x2000 <= code <= 0x200a
    ||| code == 0x2028
    ||| code == 0x2029
    ||| code == 0x202f
    ||| code == 0x205f
    ||| code == 0x3000
}

/// `char::is_whitespace`: whether the character has the White_Space property of Unicode. The
/// characters that have it are listed in [`is_whitespace`].
pub assume_specification[ char::is_whitespace ](c: char) -> (r: bool)
    ensures
        r == is_whitespace(c),
;

/// The text without the whitespace at its end.
pub open spec fn trimmed(text: Seq<char>) -> Seq<char>
    decreases text.len(),
{
    if text.len() > 0 && is_whitespace(text.last()) {
        trimmed(text.drop_last())
    } else {
        text
    }
}

fn trim_end(text: &str) -> (r: String)
    ensures
        r@ == trimmed(text@),
{
    let mut end: usize = text.unicode_len();
    assert(text@.take(end as int) =~= text@);
    while end > 0 && text.get_char(end - 1).is_whitespace()
        invariant
            end <= text@.len(),
            trimmed(text@) == trimmed(text@.take(end as int)),
        decreases end,
    {
        assert(text@.take(end as int).drop_last() =~= text@.take(end - 1));
        end = end - 1;
    }
    assert(text@.take(end as int) =~= text@.subrange(0, end as int));
    text.substring_char(0, end).to_string()
}

/// The level at which a message of an NGX level is logged: verbose ones are for debugging.
pub open spec fn level_of(logging_level: i32) -> LogLevel {
    if logging_level == NGX_LOGGING_LEVEL_VERBOSE {
        LogLevel::Debug
    } else {
        LogLevel::Info
    }
}

/// What to log of a message that NGX delivered (`None` for a null one): the message without the
/// whitespace at its end, unless that leaves nothing.
pub fn ngx_log_record(message: Option<&str>, logging_level: i32) -> (r: Option<LogRecord>)
    ensures
        r is Some <==> (message is Some && trimmed(message->0@).len() > 0),
        r matches Some(record) ==> {
            &&& record.level == level_of(logging_level)
            &&& record.target@ == NGX_LOG_TARGET@
            &&& record.text@ == trimmed(message->0@)
        },
{
    match message {
        None => None,
        Some(message) => {
            let text = trim_end(message);
            if text.as_str().unicode_len() == 0 {
                return None;
            }
            let level = if logging_level == NGX_LOGGING_LEVEL_VERBOSE {
                LogLevel::Debug
            } else {
                LogLevel::Info
            };
            Some(LogRecord { level, target: NGX_LOG_TARGET.to_string(), text })
        },
    }
}

/// A logged message is not empty, does not end in whitespace, and is the start of what NGX
/// delivered.
pub proof fn trimmed_text_does_not_end_in_whitespace(text: Seq<char>)
    ensures
        trimmed(text).len() > 0 ==> !is_whitespace(trimmed(text).last()),
        trimmed(text).len() <= text.len(),
        trimmed(text) == text.take(trimmed(text).len() as int),
    decreases text.len(),
{
    if text.len() > 0 && is_whitespace(text.last()) {
        trimmed_text_does_not_end_in_whitespace(text.drop_last());
        let n = trimmed(text).len() as int;
        assert(text.drop_last().take(n) =~= text.take(n));
    } else {
        assert(text.take(text.len() as int) =~= text);
    }
}

} // verus!
