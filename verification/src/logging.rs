//! Log levels of the application.

use vstd::prelude::*;

verus! {

/// `tracing::Level`, carried opaquely.
#[verifier::external_type_specification]
#[verifier::external_body]
pub struct ExLevel(tracing::Level);

/// Log level configuration.
#[derive(Debug, Clone, Copy, PartialEq, Eq, Structural)]
pub enum LogLevel {
    Trace,
    Debug,
    Info,
    Warn,
    Error,
}

/// The lowercase name of a log level.
pub open spec fn level_text(l: LogLevel) -> Seq<char> {
    match l {
        LogLevel::Trace => "trace"@,
        LogLevel::Debug => "debug"@,
        LogLevel::Info => "info"@,
        LogLevel::Warn => "warn"@,
        LogLevel::Error => "error"@,
    }
}

/// The `tracing` level that `tracing::Level::from_str` gives for a name.
pub uninterp spec fn tracing_level_named(name: Seq<char>) -> tracing::Level;

/// Parses a level name with `tracing::Level::from_str`.
///
/// The claim is that the result is a function of the name (named
/// `tracing_level_named`); the five lowercase level names parse, as `tracing`'s
/// source shows, so those are the only names admitted.
#[verifier::external_body]
fn tracing_level_from_name(name: &str) -> (l: tracing::Level)
    requires
        exists|x: LogLevel| level_text(x) == name@,
    ensures
        l == tracing_level_named(name@),
{
    <tracing::Level as std::str::FromStr>::from_str(name).unwrap()
}

impl LogLevel {
    /// The lowercase name of the level, such as `info`.
    pub fn as_str(&self) -> (s: &'static str)
        ensures
            s@ == level_text(*self),
    {
        match self {
            LogLevel::Trace => "trace",
            LogLevel::Debug => "debug",
            LogLevel::Info => "info",
            LogLevel::Warn => "warn",
            LogLevel::Error => "error",
        }
    }

    /// The lowercase name of the level as an owned string.
    pub fn display_string(&self) -> (s: String)
        ensures
            s@ == level_text(*self),
    {
        String::from_str(self.as_str())
    }

    /// Parses a level from its lowercase name; any other text (other case included) fails.
    pub fn parse(s: &str) -> (r: Option<LogLevel>)
        ensures
            r matches Some(x) ==> level_text(x) == s@,
            r is None ==> forall|x: LogLevel| level_text(x) != s@,
    {
        let owned = String::from_str(s);
        let candidates = [LogLevel::Trace, LogLevel::Debug, LogLevel::Info, LogLevel::Warn, LogLevel::Error];
        let mut i: usize = 0;
        while i < 5
            invariant
                i <= 5,
                owned@ == s@,
                candidates@ == seq![LogLevel::Trace, LogLevel::Debug, LogLevel::Info, LogLevel::Warn, LogLevel::Error],
                forall|j: int| 0 <= j < i ==> level_text(candidates@[j]) != s@,
            decreases 5 - i,
        {
            let c = candidates[i];
            if String::from_str(c.as_str()) == owned {
                return Some(c);
            }
            i += 1;
        }
        proof {
            assert forall|x: LogLevel| level_text(x) != s@ by {
                match x {
                    LogLevel::Trace => assert(candidates@[0] == x),
                    LogLevel::Debug => assert(candidates@[1] == x),
                    LogLevel::Info => assert(candidates@[2] == x),
                    LogLevel::Warn => assert(candidates@[3] == x),
                    LogLevel::Error => assert(candidates@[4] == x),
                }
            }
        }
        None
    }

    /// The `tracing` level of this level: the one its name parses to.
    pub fn to_tracing_level(self) -> (l: tracing::Level)
        ensures
            l == tracing_level_named(level_text(self)),
    {
        tracing_level_from_name(self.as_str())
    }

    /// The default level of a build: `Trace` for a debug build, `Info` otherwise.
    pub fn default_for_build(debug_build: bool) -> (l: LogLevel)
        ensures
            l == (if debug_build { LogLevel::Trace } else { LogLevel::Info }),
    {
        if debug_build {
            LogLevel::Trace
        } else {
            LogLevel::Info
        }
    }
}

} // verus!
