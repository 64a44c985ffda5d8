//! Severity levels: a small totally-ordered enumeration with textual
//! parse and format.
use vstd::prelude::*;
use vstd::string::{StrSliceExecFns, StringExecFns};

verus! {

/// The five severity levels, ordered `Trace < Debug < Info < Warn < Error`.
#[derive(Clone, Copy, Debug, PartialEq, Eq, Structural)]
pub enum LogLevel {
    Trace,
    Debug,
    Info,
    Warn,
    Error,
}

/// Error returned when a level name cannot be parsed; holds the message.
#[derive(Debug)]
pub struct LogLevelParseError(pub String);

impl LogLevel {
    /// Position of the level in the total order, `Trace` lowest.
    pub open spec fn severity(self) -> int {
        match self {
            LogLevel::Trace => 0,
            LogLevel::Debug => 1,
            LogLevel::Info => 2,
            LogLevel::Warn => 3,
            LogLevel::Error => 4,
        }
    }

    /// The canonical lowercase text of the level.
    pub open spec fn text(self) -> Seq<char> {
        match self {
            LogLevel::Trace => "trace"@,
            LogLevel::Debug => "debug"@,
            LogLevel::Info => "info"@,
            LogLevel::Warn => "warn"@,
            LogLevel::Error => "error"@,
        }
    }

    /// Executable form of `severity`.
    pub fn severity_index(self) -> (n: u8)
        ensures
            n == self.severity(),
    {
        match self {
            LogLevel::Trace => 0,
            LogLevel::Debug => 1,
            LogLevel::Info => 2,
            LogLevel::Warn => 3,
            LogLevel::Error => 4,
        }
    }

    /// Total-order comparison: `self` at or below `other`.
    pub fn le(self, other: LogLevel) -> (b: bool)
        ensures
            b == (self.severity() <= other.severity()),
    {
        self.severity_index() <= other.severity_index()
    }

    /// Canonical lowercase text of the level.
    pub fn as_str(&self) -> (r: &'static str)
        ensures
            r@ == self.text(),
    {
        match self {
            LogLevel::Trace => "trace",
            LogLevel::Debug => "debug",
            LogLevel::Info => "info",
            LogLevel::Warn => "warn",
            LogLevel::Error => "error",
        }
    }
}

/// ASCII lowercase folding of one character.
pub open spec fn fold_lower(c: char) -> char {
    match c {
        'A' => 'a',
        'B' => 'b',
        'C' => 'c',
        'D' => 'd',
        'E' => 'e',
        'F' => 'f',
        'G' => 'g',
        'H' => 'h',
        'I' => 'i',
        'J' => 'j',
        'K' => 'k',
        'L' => 'l',
        'M' => 'm',
        'N' => 'n',
        'O' => 'o',
        'P' => 'p',
        'Q' => 'q',
        'R' => 'r',
        'S' => 's',
        'T' => 't',
        'U' => 'u',
        'V' => 'v',
        'W' => 'w',
        'X' => 'x',
        'Y' => 'y',
        'Z' => 'z',
        _ => c,
    }
}

/// ASCII lowercase folding of a character sequence.
pub open spec fn lower_seq(s: Seq<char>) -> Seq<char> {
    s.map_values(|c: char| fold_lower(c))
}

/// Executable form of `fold_lower`.
fn fold_lower_char(c: char) -> (r: char)
    ensures
        r == fold_lower(c),
{
    match c {
        'A' => 'a',
        'B' => 'b',
        'C' => 'c',
        'D' => 'd',
        'E' => 'e',
        'F' => 'f',
        'G' => 'g',
        'H' => 'h',
        'I' => 'i',
        'J' => 'j',
        'K' => 'k',
        'L' => 'l',
        'M' => 'm',
        'N' => 'n',
        'O' => 'o',
        'P' => 'p',
        'Q' => 'q',
        'R' => 'r',
        'S' => 's',
        'T' => 't',
        'U' => 'u',
        'V' => 'v',
        'W' => 'w',
        'X' => 'x',
        'Y' => 'y',
        'Z' => 'z',
        _ => c,
    }
}

/// True exactly when `s`, folded to ASCII lowercase, equals `t`.
fn eq_folded(s: &str, t: &str) -> (b: bool)
    ensures
        b == (lower_seq(s@) == t@),
{
    let n = s.unicode_len();
    if n != t.unicode_len() {
        assert(lower_seq(s@).len() == s@.len());
        return false;
    }
    let mut i: usize = 0;
    while i < n
        invariant
            n == s@.len(),
            n == t@.len(),
            i <= n,
            forall|j: int| 0 <= j < i ==> fold_lower(s@[j]) == t@[j],
        decreases n - i,
    {
        if fold_lower_char(s.get_char(i)) != t.get_char(i) {
            assert(lower_seq(s@)[i as int] != t@[i as int]);
            return false;
        }
        i = i + 1;
    }
    assert(lower_seq(s@) =~= t@);
    true
}

/// What parsing a level name yields: the level whose name matches after
/// ASCII case folding, if any.
pub open spec fn parse_level_spec(s: Seq<char>) -> Option<LogLevel> {
    if lower_seq(s) == "trace"@ {
        Some(LogLevel::Trace)
    } else if lower_seq(s) == "debug"@ {
        Some(LogLevel::Debug)
    } else if lower_seq(s) == "info"@ {
        Some(LogLevel::Info)
    } else if lower_seq(s) == "warn"@ {
        Some(LogLevel::Warn)
    } else if lower_seq(s) == "error"@ {
        Some(LogLevel::Error)
    } else {
        None
    }
}

/// The message carried by the parse error for an unrecognized level name.
pub open spec fn unknown_level_msg(s: Seq<char>) -> Seq<char> {
    "unknown level: "@ + s + ", expected one of [trace, debug, info, warn, error]"@
}

impl LogLevel {
    /// Parse a level name, ignoring ASCII case. Returns the matching level,
    /// or an error listing the valid set for any other input.
    pub fn from_str(s: &str) -> (r: Result<LogLevel, LogLevelParseError>)
        ensures
            match parse_level_spec(s@) {
                Some(l) => r == Ok::<LogLevel, LogLevelParseError>(l),
                None => r matches Err(e) && e.0@ == unknown_level_msg(s@),
            },
    {
        if eq_folded(s, "trace") {
            Ok(LogLevel::Trace)
        } else if eq_folded(s, "debug") {
            Ok(LogLevel::Debug)
        } else if eq_folded(s, "info") {
            Ok(LogLevel::Info)
        } else if eq_folded(s, "warn") {
            Ok(LogLevel::Warn)
        } else if eq_folded(s, "error") {
            Ok(LogLevel::Error)
        } else {
            let mut msg = String::from_str("unknown level: ");
            msg.append(s);
            msg.append(", expected one of [trace, debug, info, warn, error]");
            Err(LogLevelParseError(msg))
        }
    }
}

} // verus!
