//! Severity levels and the total order used for filtering.

use vstd::prelude::*;

verus! {

/// An ordered classification of log importance, most severe first.
#[derive(Clone, Copy, Debug, PartialEq, Eq, Structural)]
pub enum Level {
    Error,
    Warn,
    Info,
    Debug,
    Trace,
}

impl Level {
    /// The rank of a level in the fixed total order: `Error` is 0 (most
    /// severe) and `Trace` is 4 (least severe).
    pub open spec fn severity(self) -> nat {
        match self {
            Level::Error => 0,
            Level::Warn => 1,
            Level::Info => 2,
            Level::Debug => 3,
            Level::Trace => 4,
        }
    }

    /// `self` is at least as severe as `other` under the fixed total order.
    pub open spec fn at_least_as_severe_as(self, other: Level) -> bool {
        self.severity() <= other.severity()
    }

    /// The rank of this level as a machine integer.
    pub fn severity_index(self) -> (r: u8)
        ensures
            r == self.severity(),
    {
        match self {
            Level::Error => 0,
            Level::Warn => 1,
            Level::Info => 2,
            Level::Debug => 3,
            Level::Trace => 4,
        }
    }

    /// Decide `self.at_least_as_severe_as(other)` executably.
    pub fn is_at_least_as_severe_as(self, other: Level) -> (r: bool)
        ensures
            r == self.at_least_as_severe_as(other),
    {
        self.severity_index() <= other.severity_index()
    }
}

} // verus!
