//! Log severity levels and the filter that admits them.

use vstd::prelude::*;

verus! {

/// Severity of a log line, most severe first.
#[derive(Clone, Copy, Debug, PartialEq, Eq, Structural)]
pub enum Level {
    Error,
    Warn,
    Info,
    Debug,
    Trace,
}

impl Level {
    /// Position in order of decreasing severity: `Error` is 1, `Trace` is 5.
    pub open spec fn rank(self) -> nat {
        match self {
            Level::Error => 1,
            Level::Warn => 2,
            Level::Info => 3,
            Level::Debug => 4,
            Level::Trace => 5,
        }
    }

    /// The upper-case name written in front of a log line.
    pub open spec fn name(self) -> Seq<char> {
        match self {
            Level::Error => seq!['E', 'R', 'R', 'O', 'R'],
            Level::Warn => seq!['W', 'A', 'R', 'N'],
            Level::Info => seq!['I', 'N', 'F', 'O'],
            Level::Debug => seq!['D', 'E', 'B', 'U', 'G'],
            Level::Trace => seq!['T', 'R', 'A', 'C', 'E'],
        }
    }

    /// Whether a line of this level passes a filter whose minimum is `min`:
    /// it must be at least as severe.
    pub open spec fn admitted_by(self, min: Level) -> bool {
        self.rank() <= min.rank()
    }

    pub fn as_str(&self) -> (r: &'static str)
        ensures
            r@ == self.name(),
    {
        match self {
            Level::Error => {
                proof { reveal_strlit("ERROR"); }
                "ERROR"
            },
            Level::Warn => {
                proof { reveal_strlit("WARN"); }
                "WARN"
            },
            Level::Info => {
                proof { reveal_strlit("INFO"); }
                "INFO"
            },
            Level::Debug => {
                proof { reveal_strlit("DEBUG"); }
                "DEBUG"
            },
            Level::Trace => {
                proof { reveal_strlit("TRACE"); }
                "TRACE"
            },
        }
    }

    fn rank_of(&self) -> (r: u8)
        ensures
            r as nat == self.rank(),
    {
        match self {
            Level::Error => 1,
            Level::Warn => 2,
            Level::Info => 3,
            Level::Debug => 4,
            Level::Trace => 5,
        }
    }

    pub fn is_admitted_by(&self, min: Level) -> (r: bool)
        ensures
            r == self.admitted_by(min),
    {
        self.rank_of() <= min.rank_of()
    }
}

} // verus!
