//! The levels of the log, and the lines that the log is made of.

use crate::text::same_text;
use vstd::prelude::*;
use vstd::string::*;

verus! {

/// How much a message matters, from the least to the most.
#[derive(Clone, Copy, Debug, PartialEq, Eq, Structural, PartialOrd)]
pub enum LogLevel {
    Trace,
    Debug,
    Info,
    Warn,
    Error,
    Fatal,
}

/// The level that a name stands for; a text that is none of the six names,
/// letter for letter and in capitals, stands for none.
pub open spec fn level_named(name: Seq<char>) -> Option<LogLevel> {
    if name == "TRACE"@ {
        Some(LogLevel::Trace)
    } else if name == "DEBUG"@ {
        Some(LogLevel::Debug)
    } else if name == "INFO"@ {
        Some(LogLevel::Info)
    } else if name == "WARN"@ {
        Some(LogLevel::Warn)
    } else if name == "ERROR"@ {
        Some(LogLevel::Error)
    } else if name == "FATAL"@ {
        Some(LogLevel::Fatal)
    } else {
        None
    }
}

/// A line of the log: the time in brackets, the level's name in brackets, a
/// colon, the message, and a line feed.
pub open spec fn log_line(timestamp: Seq<char>, level: LogLevel, message: Seq<char>) -> Seq<char> {
    "["@ + timestamp + "] ["@ + level.name() + "]: "@ + message + "\n"@
}

impl LogLevel {
    /// The name of the level.
    pub open spec fn name(&self) -> Seq<char> {
        match self {
            LogLevel::Trace => "TRACE"@,
            LogLevel::Debug => "DEBUG"@,
            LogLevel::Info => "INFO"@,
            LogLevel::Warn => "WARN"@,
            LogLevel::Error => "ERROR"@,
            LogLevel::Fatal => "FATAL"@,
        }
    }

    /// The place of the level in the order of the levels, `Trace` first.
    pub open spec fn rank(&self) -> nat {
        match self {
            LogLevel::Trace => 0,
            LogLevel::Debug => 1,
            LogLevel::Info => 2,
            LogLevel::Warn => 3,
            LogLevel::Error => 4,
            LogLevel::Fatal => 5,
        }
    }

    /// The name of the level.
    pub fn to_string(&self) -> (name: &'static str)
        ensures
            name@ == self.name(),
    {
        match self {
            LogLevel::Trace => "TRACE",
            LogLevel::Debug => "DEBUG",
            LogLevel::Info => "INFO",
            LogLevel::Warn => "WARN",
            LogLevel::Error => "ERROR",
            LogLevel::Fatal => "FATAL",
        }
    }

    /// The level that the name stands for, if it stands for one.
    pub fn from_string(level: &str) -> (named: Option<LogLevel>)
        ensures
            named == level_named(level@),
    {
        if same_text(level, "TRACE") {
            Some(LogLevel::Trace)
        } else if same_text(level, "DEBUG") {
            Some(LogLevel::Debug)
        } else if same_text(level, "INFO") {
            Some(LogLevel::Info)
        } else if same_text(level, "WARN") {
            Some(LogLevel::Warn)
        } else if same_text(level, "ERROR") {
            Some(LogLevel::Error)
        } else if same_text(level, "FATAL") {
            Some(LogLevel::Fatal)
        } else {
            None
        }
    }

    /// The level that the name stands for, and `Info` for a text that names
    /// no level.
    pub fn from_string_or_default(level: &str) -> (named: LogLevel)
        ensures
            named == (match level_named(level@) {
                Some(found) => found,
                None => LogLevel::Info,
            }),
    {
        match LogLevel::from_string(level) {
            Some(found) => found,
            None => LogLevel::Info,
        }
    }

    /// The place of the level in the order of the levels, `Trace` first.
    pub fn severity(&self) -> (rank: u8)
        ensures
            rank == self.rank(),
    {
        match self {
            LogLevel::Trace => 0,
            LogLevel::Debug => 1,
            LogLevel::Info => 2,
            LogLevel::Warn => 3,
            LogLevel::Error => 4,
            LogLevel::Fatal => 5,
        }
    }

    /// Whether a message of this level is written to a log that takes the
    /// messages from `threshold` on.
    pub fn at_least(&self, threshold: LogLevel) -> (passes: bool)
        ensures
            passes == (self.rank() >= threshold.rank()),
    {
        self.severity() >= threshold.severity()
    }
}

/// A level's name stands for that level and for no other.
pub proof fn lemma_name_names_level(level: LogLevel)
    ensures
        level_named(level.name()) == Some(level),
{
    reveal_strlit("TRACE");
    reveal_strlit("DEBUG");
    reveal_strlit("INFO");
    reveal_strlit("WARN");
    reveal_strlit("ERROR");
    reveal_strlit("FATAL");
    assert("TRACE"@[0] == 'T');
    assert("DEBUG"@[0] == 'D');
    assert("INFO"@[0] == 'I');
    assert("WARN"@[0] == 'W');
    assert("ERROR"@[0] == 'E');
    assert("FATAL"@[0] == 'F');
}

/// A text that stands for a level is that level's name.
pub proof fn lemma_named_level_has_name(name: Seq<char>)
    ensures
        level_named(name) matches Some(level) ==> level.name() == name,
{
}

/// The log: it takes the messages whose level is at least its own.
pub struct Logger {
    level: LogLevel,
}

impl Logger {
    /// The level from which on the log takes messages.
    pub closed spec fn threshold(&self) -> LogLevel {
        self.level
    }

    /// A log that takes the messages from `level` on.
    pub fn new(level: LogLevel) -> (logger: Logger)
        ensures
            logger.threshold() == level,
    {
        Logger { level }
    }

    /// The line that records the message at the given time.
    pub fn record(timestamp: &str, level: LogLevel, message: &str) -> (line: String)
        ensures
            line@ == log_line(timestamp@, level, message@),
    {
        let mut line = String::from_str("[");
        line.append(timestamp);
        line.append("] [");
        line.append(level.to_string());
        line.append("]: ");
        line.append(message);
        line.append("\n");
        line
    }

    /// The line to add to the log for a message of the given level: a line
    /// with the time of the call where the log takes the level, none where
    /// it does not.
    pub fn log(&self, level: LogLevel, message: &str) -> (line: Option<String>)
        ensures
            line is Some <==> level.rank() >= self.threshold().rank(),
            line matches Some(text) ==> exists|timestamp: Seq<char>|
                text@ == #[trigger] log_line(timestamp, level, message@),
    {
        if level.at_least(self.level) {
            let timestamp = self.get_timestamp();
            let text = Logger::record(timestamp.as_str(), level, message);
            assert(text@ == log_line(timestamp@, level, message@));
            Some(text)
        } else {
            None
        }
    }

    /// The local time of the call, as `chrono::Local::now` reads it from the
    /// machine's clock and time zone, written by `format` as year, month and
    /// day, then hour, minute and second. Nothing is claimed of the text: it
    /// differs from call to call. chrono panics where the clock stands before
    /// the year 1970 or the time zone's rules name no local time for the
    /// moment; that lies with the machine, not with what the caller passes.
    #[verifier::external_body]
    fn get_timestamp(&self) -> (timestamp: String) {
        let timestamp = chrono::Local::now();
        timestamp.format("%Y-%m-%d %H:%M:%S").to_string()
    }
}

} // verus!
