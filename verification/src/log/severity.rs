//! The ordered set of log levels and the threshold test built on it.

use vstd::prelude::*;

verus! {

/// A log level. The levels are totally ordered by [`Severity::rank`]:
/// `Trace < Debug < Info < Warn < Error`. The comparison operators follow
/// the order in which the levels are declared, which is the same.
#[derive(Clone, Copy, Debug, PartialEq, Eq, Structural, PartialOrd, Ord, Hash)]
pub enum Severity {
    Trace,
    Debug,
    Info,
    Warn,
    Error,
}

impl Severity {
    /// Position of the level in the order, `Trace` being 0 and `Error` 4.
    pub open spec fn rank(self) -> int {
        match self {
            Severity::Trace => 0,
            Severity::Debug => 1,
            Severity::Info => 2,
            Severity::Warn => 3,
            Severity::Error => 4,
        }
    }

    /// The level at position `rank`; positions past the last give `Error`.
    pub open spec fn from_rank(rank: int) -> Severity {
        if rank <= 0 {
            Severity::Trace
        } else if rank == 1 {
            Severity::Debug
        } else if rank == 2 {
            Severity::Info
        } else if rank == 3 {
            Severity::Warn
        } else {
            Severity::Error
        }
    }

    /// The position of the level in the order, as a machine integer.
    pub fn ordinal(self) -> (r: u8)
        ensures
            r == self.rank(),
    {
        match self {
            Severity::Trace => 0,
            Severity::Debug => 1,
            Severity::Info => 2,
            Severity::Warn => 3,
            Severity::Error => 4,
        }
    }
}

/// A record at `level` is admitted by `threshold` exactly when it is at
/// least as severe.
pub open spec fn admits_spec(level: Severity, threshold: Severity) -> bool {
    level.rank() >= threshold.rank()
}

/// Whether a record at `level` passes a filter set to `threshold`.
pub fn admits(level: Severity, threshold: Severity) -> (r: bool)
    ensures
        r == admits_spec(level, threshold),
{
    level.ordinal() >= threshold.ordinal()
}

/// Ranks identify levels: the rank is a bijection onto `0..=4`.
pub proof fn lemma_rank_identifies(a: Severity, b: Severity)
    ensures
        0 <= a.rank() <= 4,
        Severity::from_rank(a.rank()) == a,
        a.rank() == b.rank() <==> a == b,
{
}

/// The order on levels is total: any two levels are comparable, and two
/// levels that admit each other are the same level.
pub proof fn lemma_order_total(a: Severity, b: Severity)
    ensures
        admits_spec(a, a),
        admits_spec(a, b) || admits_spec(b, a),
        admits_spec(a, b) && admits_spec(b, a) ==> a == b,
{
}

/// Admission is transitive: what passes a threshold passes every lower one,
/// and whatever is more severe than an admitted level is admitted too.
pub proof fn lemma_order_transitive(a: Severity, b: Severity, c: Severity)
    requires
        admits_spec(a, b),
        admits_spec(b, c),
    ensures
        admits_spec(a, c),
{
}

/// For levels `low` strictly below `high`, a threshold set to `high`
/// suppresses a record at `low` and admits a record at `high`.
pub proof fn lemma_threshold_separates(low: Severity, high: Severity)
    requires
        low.rank() < high.rank(),
    ensures
        !admits_spec(low, high),
        admits_spec(high, high),
{
}

/// A threshold admits a record at its own level, so of two equal levels
/// neither suppresses the other.
pub proof fn lemma_threshold_admits_itself(level: Severity)
    ensures
        admits_spec(level, level),
{
}

/// `Trace` as a threshold admits everything; `Error` as a threshold admits
/// only `Error`.
pub proof fn lemma_extreme_thresholds(level: Severity)
    ensures
        admits_spec(level, Severity::Trace),
        admits_spec(level, Severity::Error) <==> level == Severity::Error,
{
}

} // verus!
