use vstd::prelude::*;

verus! {

/// Application log levels, from the most severe (`Error`) to the most
/// verbose (`Trace`). A record is submitted when its level's verbosity
/// rank is at most the configured threshold's rank.
#[derive(Clone, Copy, Debug, PartialEq, Eq, Structural)]
pub enum Level {
    Error,
    Warn,
    Info,
    Debug,
    Trace,
}

impl Level {
    /// Verbosity rank of a level: `Error` ranks lowest and `Trace` highest.
    pub open spec fn rank(self) -> int {
        match self {
            Level::Error => 1,
            Level::Warn => 2,
            Level::Info => 3,
            Level::Debug => 4,
            Level::Trace => 5,
        }
    }

    /// Whether `self` is at most as verbose as `threshold`, that is,
    /// whether a record at level `self` passes a filter set to `threshold`.
    pub fn passes(self, threshold: Level) -> (r: bool)
        ensures
            r == (self.rank() <= threshold.rank()),
    {
        self.rank_code() <= threshold.rank_code()
    }

    fn rank_code(self) -> (r: u8)
        ensures
            r as int == self.rank(),
    {
        match self {
            Level::Error => 1,
            Level::Warn => 2,
            Level::Info => 3,
            Level::Debug => 4,
            Level::Trace => 5,
        }
    }
}

} // verus!
