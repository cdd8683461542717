//! The session log: where entries go, which entries are written, and what a
//! line looks like. Appending a line to the file is left to the caller.
use vstd::prelude::*;

verus! {

broadcast use vstd::string::group_string_axioms;

/// Logging settings: the file entries go to (none before `init`) and whether
/// debug entries are written.
#[derive(Debug)]
pub struct Logger {
    pub path: Option<String>,
    pub debug: bool,
}

/// One entry to append to the log file at `path`.
#[derive(Debug)]
pub struct LogEntry {
    pub path: String,
    pub timestamp: String,
    pub line: String,
}

/// A log line: `[<timestamp>] [<level>] <message>` and a newline.
pub open spec fn log_line_spec(timestamp: Seq<char>, level: Seq<char>, msg: Seq<char>) -> Seq<
    char,
> {
    "["@ + timestamp + "] ["@ + level + "] "@ + msg + "\n"@
}

/// `c` is an ASCII digit.
pub open spec fn digit(c: char) -> bool {
    '0' <= c && c <= '9'
}

/// `t` ends like `YYYY-MM-DD HH:MM:SS.mmm`: a year of at least four
/// characters, then two-digit month, day, hours, minutes and seconds, and
/// three digits of milliseconds, with their separators.
pub open spec fn timestamp_shape(t: Seq<char>) -> bool {
    let n = t.len() as int;
    &&& n >= 23
    &&& t[n - 19] == '-' && t[n - 16] == '-' && t[n - 13] == ' '
    &&& t[n - 10] == ':' && t[n - 7] == ':' && t[n - 4] == '.'
    &&& digit(t[n - 18]) && digit(t[n - 17]) && digit(t[n - 15]) && digit(t[n - 14])
    &&& digit(t[n - 12]) && digit(t[n - 11]) && digit(t[n - 9]) && digit(t[n - 8])
    &&& digit(t[n - 6]) && digit(t[n - 5])
    &&& digit(t[n - 3]) && digit(t[n - 2]) && digit(t[n - 1])
}

/// `r` is the entry the logger writes at `level`: none without a log file;
/// otherwise one for that file whose line is formed from its timestamp.
pub open spec fn entry_of(logger: Logger, level: Seq<char>, msg: Seq<char>, r: Option<LogEntry>) -> bool {
    &&& r is Some <==> logger.path is Some
    &&& r is Some ==> {
        &&& r->0.path@ == logger.path->0@
        &&& r->0.line@ == log_line_spec(r->0.timestamp@, level, msg)
        &&& timestamp_shape(r->0.timestamp@)
    }
}

/// Calls `chrono::Local::now()` and formats it as `%Y-%m-%d %H:%M:%S%.3f`.
/// Which time comes out depends on the clock and the machine's time zone;
/// what is stated is the shape chrono documents for that format: a year
/// zero-padded to at least four characters (a sign before years past 9999),
/// two-digit month, day, hours, minutes and seconds, and three digits of
/// milliseconds.
#[verifier::external_body]
fn local_timestamp() -> (r: String)
    ensures
        timestamp_shape(r@),
{
    chrono::Local::now().format("%Y-%m-%d %H:%M:%S%.3f").to_string()
}

/// The entry for `msg` at `level`, stamped with the current local time.
fn write_entry(logger: &Logger, level: &str, msg: &str) -> (r: Option<LogEntry>)
    ensures
        entry_of(*logger, level@, msg@, r),
{
    match &logger.path {
        Some(path) => {
            let timestamp = local_timestamp();
            let mut line = String::from_str("[");
            line.append(timestamp.as_str());
            line.append("] [");
            line.append(level);
            line.append("] ");
            line.append(msg);
            line.append("\n");
            Some(LogEntry { path: path.clone(), timestamp, line })
        },
        None => None,
    }
}

/// The message that opens a session's log.
pub open spec fn session_start_spec(debug: bool) -> Seq<char> {
    "=== Teams TUI Session Started (Debug: "@ + (if debug {
        "true"@
    } else {
        "false"@
    }) + ") ==="@
}

/// A logger writing to `path`, with debug entries when `debug`, and the
/// session-start entry it writes first.
pub fn init(path: &str, debug: bool) -> (r: (Logger, Option<LogEntry>))
    ensures
        r.0.path is Some && r.0.path->0@ == path@,
        r.0.debug == debug,
        entry_of(r.0, "INFO"@, session_start_spec(debug), r.1),
{
    let logger = Logger { path: Some(path.to_owned()), debug };
    let mut msg = String::from_str("=== Teams TUI Session Started (Debug: ");
    msg.append(
        if debug {
            "true"
        } else {
            "false"
        },
    );
    msg.append(") ===");
    let entry = log_info(&logger, msg.as_str());
    (logger, entry)
}

/// Whether debug entries are written.
pub fn is_debug(logger: &Logger) -> (r: bool)
    ensures
        r == logger.debug,
{
    logger.debug
}

/// The entry for an informational message.
pub fn log_info(logger: &Logger, msg: &str) -> (r: Option<LogEntry>)
    ensures
        entry_of(*logger, "INFO"@, msg@, r),
{
    write_entry(logger, "INFO", msg)
}

/// The entry for a debug message: none unless debug entries are enabled.
pub fn log_debug(logger: &Logger, msg: &str) -> (r: Option<LogEntry>)
    ensures
        logger.debug ==> entry_of(*logger, "DEBUG"@, msg@, r),
        !logger.debug ==> r is None,
{
    if is_debug(logger) {
        write_entry(logger, "DEBUG", msg)
    } else {
        None
    }
}

/// The entry for a warning.
pub fn log_warn(logger: &Logger, msg: &str) -> (r: Option<LogEntry>)
    ensures
        entry_of(*logger, "WARN"@, msg@, r),
{
    write_entry(logger, "WARN", msg)
}

/// The entry for an error.
pub fn log_error(logger: &Logger, msg: &str) -> (r: Option<LogEntry>)
    ensures
        entry_of(*logger, "ERROR"@, msg@, r),
{
    write_entry(logger, "ERROR", msg)
}

} // verus!
