//! Log severities and the parsing of the log-level setting.
use vstd::prelude::*;
use vstd::string::StringExecFns;
use crate::text::{find_char_from, lemma_find_char_from_bounds, same_chars};

verus! {

/// A six-valued severity, from the most verbose to the most severe.
#[derive(Clone, Copy, Debug, PartialEq, Eq, Structural)]
pub enum LogLevel {
    /// The values of variables and the flow of control.
    Trace,
    /// Of interest to someone debugging the server.
    Debug,
    /// Of interest to someone monitoring the server.
    Info,
    /// Hazardous situations.
    Warn,
    /// Serious errors.
    Error,
    /// Fatal errors.
    Critical,
}

/// The most verbose records that the process-wide logger lets through.
#[derive(Clone, Copy, Debug, PartialEq, Eq, Structural)]
pub enum MaxLevel {
    Error,
    Warn,
    Info,
    Debug,
    Trace,
}

/// The position of a severity in the order Trace < Debug < Info < Warn < Error < Critical.
pub open spec fn rank(l: LogLevel) -> int {
    match l {
        LogLevel::Trace => 0,
        LogLevel::Debug => 1,
        LogLevel::Info => 2,
        LogLevel::Warn => 3,
        LogLevel::Error => 4,
        LogLevel::Critical => 5,
    }
}

/// The lower-case name of a severity.
pub open spec fn name_of(l: LogLevel) -> Seq<char> {
    match l {
        LogLevel::Trace => "trace"@,
        LogLevel::Debug => "debug"@,
        LogLevel::Info => "info"@,
        LogLevel::Warn => "warn"@,
        LogLevel::Error => "error"@,
        LogLevel::Critical => "critical"@,
    }
}

/// The severity whose lower-case name is exactly `s`, if any.
pub open spec fn level_named(s: Seq<char>) -> Option<LogLevel> {
    if s == "trace"@ {
        Some(LogLevel::Trace)
    } else if s == "debug"@ {
        Some(LogLevel::Debug)
    } else if s == "info"@ {
        Some(LogLevel::Info)
    } else if s == "warn"@ {
        Some(LogLevel::Warn)
    } else if s == "error"@ {
        Some(LogLevel::Error)
    } else if s == "critical"@ {
        Some(LogLevel::Critical)
    } else {
        None
    }
}

pub open spec fn max_level_of(l: LogLevel) -> MaxLevel {
    match l {
        LogLevel::Trace => MaxLevel::Trace,
        LogLevel::Debug => MaxLevel::Debug,
        LogLevel::Info => MaxLevel::Info,
        LogLevel::Warn => MaxLevel::Warn,
        LogLevel::Error => MaxLevel::Error,
        LogLevel::Critical => MaxLevel::Error,
    }
}

/// What `str::to_lowercase` returns for the characters `s`.
pub uninterp spec fn lower_of(s: Seq<char>) -> Seq<char>;

/// Relies on `str::to_lowercase`: the lower-case mapping of each character,
/// which depends on the characters alone; an empty string stays empty.
#[verifier::external_body]
fn lowercase(s: &str) -> (r: String)
    ensures
        r@ == lower_of(s@),
        s@.len() == 0 ==> r@.len() == 0,
{
    s.to_lowercase()
}

/// The text that a setting's level is read from: what follows the first `=`
/// of the lower-cased setting, or the whole of it when it holds no `=`.
pub open spec fn level_part(lowered: Seq<char>) -> Seq<char> {
    let k = find_char_from(lowered, '=', 0);
    if k >= lowered.len() {
        lowered
    } else {
        lowered.subrange(k + 1, lowered.len() as int)
    }
}

/// The severity that a log-level setting selects, given its lower-cased text:
/// informational when the setting is empty or names no severity.
pub open spec fn setting_level_of(lowered: Seq<char>) -> LogLevel {
    if lowered.len() == 0 {
        LogLevel::Info
    } else {
        match level_named(lower_of(level_part(lowered))) {
            Some(l) => l,
            None => LogLevel::Info,
        }
    }
}

impl LogLevel {
    /// The severity named by `s`, which is taken to be lower case already.
    pub fn from_lowercase(s: &str) -> (r: Option<LogLevel>)
        ensures
            r == level_named(s@),
    {
        if same_chars(s, "trace") {
            Some(LogLevel::Trace)
        } else if same_chars(s, "debug") {
            Some(LogLevel::Debug)
        } else if same_chars(s, "info") {
            Some(LogLevel::Info)
        } else if same_chars(s, "warn") {
            Some(LogLevel::Warn)
        } else if same_chars(s, "error") {
            Some(LogLevel::Error)
        } else if same_chars(s, "critical") {
            Some(LogLevel::Critical)
        } else {
            None
        }
    }

    /// Reads a severity name in any letter case; anything else is refused
    /// with a message that quotes the input.
    pub fn from_name(s: &str) -> (r: Result<LogLevel, String>)
        ensures
            match level_named(lower_of(s@)) {
                Some(l) => r == Ok::<LogLevel, String>(l),
                None => r.is_err() && r->Err_0@ == "Invalid log level: "@ + s@,
            },
    {
        let low = lowercase(s);
        match LogLevel::from_lowercase(low.as_str()) {
            Some(l) => Ok(l),
            None => Err("Invalid log level: ".to_owned().concat(s)),
        }
    }

    /// The lower-case name of the severity.
    pub fn as_str(&self) -> (r: &'static str)
        ensures
            r@ == name_of(*self),
    {
        match self {
            LogLevel::Trace => "trace",
            LogLevel::Debug => "debug",
            LogLevel::Info => "info",
            LogLevel::Warn => "warn",
            LogLevel::Error => "error",
            LogLevel::Critical => "critical",
        }
    }

    /// The logger's threshold for this severity; `Critical` has no threshold
    /// of its own and lets errors through.
    pub fn max_level(&self) -> (r: MaxLevel)
        ensures
            r == max_level_of(*self),
    {
        match self {
            LogLevel::Trace => MaxLevel::Trace,
            LogLevel::Debug => MaxLevel::Debug,
            LogLevel::Info => MaxLevel::Info,
            LogLevel::Warn => MaxLevel::Warn,
            LogLevel::Error => MaxLevel::Error,
            LogLevel::Critical => MaxLevel::Error,
        }
    }

    /// Whether `self` is at least as severe as `other`.
    pub fn at_least(&self, other: &LogLevel) -> (r: bool)
        ensures
            r == (rank(*self) >= rank(*other)),
    {
        self.ordinal() >= other.ordinal()
    }

    fn ordinal(&self) -> (r: u8)
        ensures
            r as int == rank(*self),
    {
        match self {
            LogLevel::Trace => 0,
            LogLevel::Debug => 1,
            LogLevel::Info => 2,
            LogLevel::Warn => 3,
            LogLevel::Error => 4,
            LogLevel::Critical => 5,
        }
    }

    /// The severity selected by a log-level setting, `<target>=<level>` or a bare
    /// `<level>`, in any letter case. Informational when the setting is empty or
    /// its level names no severity.
    pub fn from_setting(setting: &str) -> (r: LogLevel)
        ensures
            r == setting_level_of(lower_of(setting@)),
    {
        let low = lowercase(setting);
        LogLevel::from_lowered_setting(low.as_str())
    }

    /// As `from_setting`, for a setting already lower-cased.
    pub fn from_lowered_setting(lowered: &str) -> (r: LogLevel)
        ensures
            r == setting_level_of(lowered@),
    {
        let n = lowered.unicode_len();
        if n == 0 {
            return LogLevel::Info;
        }
        let mut k: usize = 0;
        proof {
            lemma_find_char_from_bounds(lowered@, '=', 0);
        }
        while k < n && lowered.get_char(k) != '='
            invariant
                n == lowered@.len(),
                k <= n,
                find_char_from(lowered@, '=', 0) == find_char_from(lowered@, '=', k as int),
            decreases n - k,
        {
            k = k + 1;
        }
        let part = if k >= n {
            lowered
        } else {
            lowered.substring_char(k + 1, n)
        };
        match LogLevel::from_name(part) {
            Ok(l) => l,
            Err(_) => LogLevel::Info,
        }
    }
}

impl std::str::FromStr for LogLevel {
    type Err = String;

    fn from_str(s: &str) -> (r: Result<LogLevel, String>)
        ensures
            match level_named(lower_of(s@)) {
                Some(l) => r == Ok::<LogLevel, String>(l),
                None => r.is_err() && r->Err_0@ == "Invalid log level: "@ + s@,
            },
    {
        LogLevel::from_name(s)
    }
}

} // verus!
