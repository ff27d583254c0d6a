use vstd::prelude::*;

verus! {

use vstd::std_specs::cmp::PartialOrdSpec;

/// Represents how important a log message is.
///
/// The five variants are ordered from least to most severe:
/// `Debug < Info < Warning < Error < Fatal`.
#[derive(Clone, Copy, Debug, PartialEq, Eq, Structural)]
pub enum LogLevel {
    /// [`LogLevel`] for debugging purposes.
    Debug,
    /// [`LogLevel`] for informational messages.
    Info,
    /// [`LogLevel`] for messages that warn the user about potential risks.
    Warning,
    /// [`LogLevel`] for messages that inform the user that something went
    /// wrong and cannot be corrected, but the application can continue.
    Error,
    /// [`LogLevel`] for messages that inform the user that something went
    /// wrong and the application cannot continue.
    Fatal,
}

impl LogLevel {
    /// The fixed numeric rank of a level: `Debug` is 0 and `Fatal` is 4,
    /// strictly increasing with severity.
    pub open spec fn rank(self) -> int {
        match self {
            LogLevel::Debug => 0,
            LogLevel::Info => 1,
            LogLevel::Warning => 2,
            LogLevel::Error => 3,
            LogLevel::Fatal => 4,
        }
    }

    /// The fixed short uppercase label of a level.
    pub open spec fn spec_label(self) -> Seq<char> {
        match self {
            LogLevel::Debug => "DEBUG"@,
            LogLevel::Info => "INFO"@,
            LogLevel::Warning => "WARN"@,
            LogLevel::Error => "ERROR"@,
            LogLevel::Fatal => "FATAL"@,
        }
    }

    /// Describes the [`LogLevel`] as a number ([`u8`]).
    pub fn numeric_level(&self) -> (r: u8)
        ensures
            r as int == self.rank(),
    {
        match self {
            LogLevel::Debug => 0,
            LogLevel::Info => 1,
            LogLevel::Warning => 2,
            LogLevel::Error => 3,
            LogLevel::Fatal => 4,
        }
    }

    /// The short uppercase display label of the [`LogLevel`].
    pub fn label(&self) -> (r: &'static str)
        ensures
            r@ == self.spec_label(),
    {
        match self {
            LogLevel::Debug => "DEBUG",
            LogLevel::Info => "INFO",
            LogLevel::Warning => "WARN",
            LogLevel::Error => "ERROR",
            LogLevel::Fatal => "FATAL",
        }
    }
}

impl PartialOrd for LogLevel {
    /// Compares two levels by their numeric ranks; the ordering is total.
    fn partial_cmp(&self, other: &Self) -> (r: Option<core::cmp::Ordering>) {
        let a = self.numeric_level();
        let b = other.numeric_level();
        if a < b {
            Some(core::cmp::Ordering::Less)
        } else if a == b {
            Some(core::cmp::Ordering::Equal)
        } else {
            Some(core::cmp::Ordering::Greater)
        }
    }
}

impl vstd::std_specs::cmp::PartialOrdSpecImpl for LogLevel {
    open spec fn obeys_partial_cmp_spec() -> bool {
        true
    }

    open spec fn partial_cmp_spec(&self, other: &Self) -> Option<core::cmp::Ordering> {
        if self.rank() < other.rank() {
            Some(core::cmp::Ordering::Less)
        } else if self.rank() == other.rank() {
            Some(core::cmp::Ordering::Equal)
        } else {
            Some(core::cmp::Ordering::Greater)
        }
    }
}

/// Ordering law: comparing two levels agrees with comparing their numeric
/// ranks — `a` compares less than `b` exactly when `a.rank() < b.rank()` —
/// every rank lies between 0 and 4, and equal ranks mean equal levels.
pub proof fn lemma_order_matches_rank(a: LogLevel, b: LogLevel)
    ensures
        LogLevel::obeys_partial_cmp_spec(),
        a.partial_cmp_spec(&b) == Some(core::cmp::Ordering::Less) <==> a.rank() < b.rank(),
        a.partial_cmp_spec(&b) == Some(core::cmp::Ordering::Equal) <==> a == b,
        0 <= a.rank() <= 4,
        a.rank() == b.rank() <==> a == b,
{
}

/// The five ranks are exactly 0 through 4, in order of severity.
pub proof fn lemma_ranks_exact()
    ensures
        LogLevel::Debug.rank() == 0,
        LogLevel::Info.rank() == 1,
        LogLevel::Warning.rank() == 2,
        LogLevel::Error.rank() == 3,
        LogLevel::Fatal.rank() == 4,
{
}

} // verus!
