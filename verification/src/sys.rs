use vstd::prelude::*;

verus! {

/// Severity of a log entry, from most chatty (`VERBOSE`) to a level that
/// suppresses everything (`SILENT`).
///
/// The integer code of each variant (see [`LogPriority::as_code`]) is fixed
/// by the platform logging ABI and must never change.
#[allow(non_camel_case_types)]
#[derive(Clone, Copy, Debug, PartialEq, Eq, Structural)]
pub enum LogPriority {
    UNKNOWN,
    DEFAULT,
    VERBOSE,
    DEBUG,
    INFO,
    WARN,
    ERROR,
    FATAL,
    SILENT,
}

impl LogPriority {
    /// The ABI integer code of this priority.
    pub open spec fn code_spec(self) -> int {
        match self {
            LogPriority::UNKNOWN => 0,
            LogPriority::DEFAULT => 1,
            LogPriority::VERBOSE => 2,
            LogPriority::DEBUG => 3,
            LogPriority::INFO => 4,
            LogPriority::WARN => 5,
            LogPriority::ERROR => 6,
            LogPriority::FATAL => 7,
            LogPriority::SILENT => 8,
        }
    }

    /// The priority, if any, whose ABI code is `c`.
    pub open spec fn from_code_spec(c: int) -> Option<LogPriority> {
        if c == 0 {
            Some(LogPriority::UNKNOWN)
        } else if c == 1 {
            Some(LogPriority::DEFAULT)
        } else if c == 2 {
            Some(LogPriority::VERBOSE)
        } else if c == 3 {
            Some(LogPriority::DEBUG)
        } else if c == 4 {
            Some(LogPriority::INFO)
        } else if c == 5 {
            Some(LogPriority::WARN)
        } else if c == 6 {
            Some(LogPriority::ERROR)
        } else if c == 7 {
            Some(LogPriority::FATAL)
        } else if c == 8 {
            Some(LogPriority::SILENT)
        } else {
            None
        }
    }

    /// Serialize this priority to its ABI integer code.
    pub fn as_code(self) -> (r: i32)
        ensures
            r as int == self.code_spec(),
    {
        match self {
            LogPriority::UNKNOWN => 0,
            LogPriority::DEFAULT => 1,
            LogPriority::VERBOSE => 2,
            LogPriority::DEBUG => 3,
            LogPriority::INFO => 4,
            LogPriority::WARN => 5,
            LogPriority::ERROR => 6,
            LogPriority::FATAL => 7,
            LogPriority::SILENT => 8,
        }
    }

    /// Deserialize an ABI integer code back to a priority; codes outside
    /// `0..=8` name no priority.
    pub fn from_code(c: i32) -> (r: Option<LogPriority>)
        ensures
            r == Self::from_code_spec(c as int),
    {
        match c {
            0 => Some(LogPriority::UNKNOWN),
            1 => Some(LogPriority::DEFAULT),
            2 => Some(LogPriority::VERBOSE),
            3 => Some(LogPriority::DEBUG),
            4 => Some(LogPriority::INFO),
            5 => Some(LogPriority::WARN),
            6 => Some(LogPriority::ERROR),
            7 => Some(LogPriority::FATAL),
            8 => Some(LogPriority::SILENT),
            _ => None,
        }
    }
}

/// Every priority's code lies in `0..=8` and decodes back to that same
/// priority: the serialization round-trips and reorders nothing.
pub proof fn lemma_priority_code_round_trip(p: LogPriority)
    ensures
        0 <= p.code_spec() <= 8,
        LogPriority::from_code_spec(p.code_spec()) == Some(p),
{
}

/// The codes `0..=8` are exactly the ones taken: every code in that range
/// decodes to a priority carrying that very code, and no code outside the
/// range decodes at all. Together with the round trip this makes the mapping
/// a bijection between the nine priorities and `0..=8`, with no gaps.
pub proof fn lemma_priority_code_complete(c: int)
    ensures
        (LogPriority::from_code_spec(c) is Some) == (0 <= c <= 8),
        (LogPriority::from_code_spec(c) matches Some(p) ==> p.code_spec() == c),
{
}

/// True when `s` holds no embedded null character, so that it can be
/// marshaled into a null-terminated native string.
pub open spec fn nul_free(s: Seq<char>) -> bool {
    forall|i: int| 0 <= i < s.len() ==> s[i] != '\0'
}

/// One call into the platform's native logging entry points, described as
/// plain data. The library only ever decides and describes such calls; the
/// unverified shell around it performs them.
#[derive(Debug)]
pub enum NativeCall {
    /// A formatted entry: priority code, tag, a format string, and one
    /// substitution argument. The dispatch layer always fixes `fmt` to the
    /// `"%s"` placeholder and passes the message as `arg`, so the message is
    /// never itself interpreted as a format string.
    Print { prio: i32, tag: String, fmt: String, arg: String },
    /// A plain entry: priority code, tag, and the message text.
    Write { prio: i32, tag: String, text: String },
}

} // verus!
