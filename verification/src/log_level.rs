//! Log verbosity levels, mirroring `PrismLogLevel`.

use core::cmp::Ordering;

use vstd::prelude::*;
use vstd::std_specs::cmp::{PartialOrdSpec, PartialOrdSpecImpl};

verus! {

/// Log verbosity, mirroring `PrismLogLevel`.
///
/// The variants are declared in increasing severity, so the derived order
/// agrees with the raw values (`Trace` is the lowest, `Off` the highest).
#[derive(Debug, Clone, Copy, PartialEq, Eq, Ord, Hash, Structural)]
pub enum LogLevel {
    /// `PRISM_LOG_LEVEL_TRACE` (`0`)
    Trace,
    /// `PRISM_LOG_LEVEL_DEBUG` (`1`)
    Debug,
    /// `PRISM_LOG_LEVEL_INFO` (`2`)
    Info,
    /// `PRISM_LOG_LEVEL_WARN` (`3`)
    Warn,
    /// `PRISM_LOG_LEVEL_ERROR` (`4`)
    Error,
    /// `PRISM_LOG_LEVEL_NONE` (`5`): logging off.
    Off,
}

impl LogLevel {
    /// The raw `PrismLogLevel` value of each level.
    pub open spec fn raw_of(self) -> i32 {
        match self {
            LogLevel::Trace => 0,
            LogLevel::Debug => 1,
            LogLevel::Info => 2,
            LogLevel::Warn => 3,
            LogLevel::Error => 4,
            LogLevel::Off => 5,
        }
    }

    /// Map a raw `PrismLogLevel` integer to a [`LogLevel`], if in range.
    pub fn from_i32(v: i32) -> (r: Option<LogLevel>)
        ensures
            r is Some <==> 0 <= v <= 5,
            r matches Some(l) ==> l.raw_of() == v,
    {
        Some(
            match v {
                0 => LogLevel::Trace,
                1 => LogLevel::Debug,
                2 => LogLevel::Info,
                3 => LogLevel::Warn,
                4 => LogLevel::Error,
                5 => LogLevel::Off,
                _ => return None,
            },
        )
    }

    /// The raw `PrismLogLevel` integer value.
    pub fn as_i32(self) -> (r: i32)
        ensures
            r == self.raw_of(),
    {
        match self {
            LogLevel::Trace => 0,
            LogLevel::Debug => 1,
            LogLevel::Info => 2,
            LogLevel::Warn => 3,
            LogLevel::Error => 4,
            LogLevel::Off => 5,
        }
    }

    /// The level a raw value reported by the native library stands for, with
    /// anything out of range read as [`LogLevel::Off`] (logging off).
    pub fn from_raw_or_none(v: i32) -> (r: LogLevel)
        ensures
            0 <= v <= 5 ==> r.raw_of() == v,
            !(0 <= v <= 5) ==> r == LogLevel::Off,
    {
        match LogLevel::from_i32(v) {
            Some(level) => level,
            None => LogLevel::Off,
        }
    }
}

/// Levels are ordered by their raw values: `Trace` is the lowest and `Off`
/// the highest.
impl PartialOrd for LogLevel {
    fn partial_cmp(&self, other: &LogLevel) -> (r: Option<Ordering>) {
        let (a, b) = (self.as_i32(), other.as_i32());
        if a < b {
            Some(Ordering::Less)
        } else if a == b {
            Some(Ordering::Equal)
        } else {
            Some(Ordering::Greater)
        }
    }
}

impl PartialOrdSpecImpl for LogLevel {
    open spec fn obeys_partial_cmp_spec() -> bool {
        true
    }

    open spec fn partial_cmp_spec(&self, other: &LogLevel) -> Option<Ordering> {
        if self.raw_of() < other.raw_of() {
            Some(Ordering::Less)
        } else if self.raw_of() == other.raw_of() {
            Some(Ordering::Equal)
        } else {
            Some(Ordering::Greater)
        }
    }
}

/// Distinct levels have distinct raw values, so a raw value names at most one
/// level.
pub proof fn lemma_raw_of_injective(a: LogLevel, b: LogLevel)
    requires
        a.raw_of() == b.raw_of(),
    ensures
        a == b,
{
}

/// Every level's raw value is in the range that `from_i32` accepts, so
/// `from_i32(l.as_i32())` is `Some` of a level with the same raw value, which
/// is `l` itself by [`lemma_raw_of_injective`].
pub proof fn lemma_raw_in_range(l: LogLevel)
    ensures
        0 <= l.raw_of() <= 5,
{
}

/// Every raw value that `from_i32` accepts is the raw value of some level.
pub proof fn lemma_raw_values_covered(v: i32)
    requires
        0 <= v <= 5,
    ensures
        exists|l: LogLevel| l.raw_of() == v,
{
    if v == 0 {
        assert(LogLevel::Trace.raw_of() == v);
    } else if v == 1 {
        assert(LogLevel::Debug.raw_of() == v);
    } else if v == 2 {
        assert(LogLevel::Info.raw_of() == v);
    } else if v == 3 {
        assert(LogLevel::Warn.raw_of() == v);
    } else if v == 4 {
        assert(LogLevel::Error.raw_of() == v);
    } else {
        assert(LogLevel::Off.raw_of() == v);
    }
}

/// Levels rise in severity with their raw values: `Trace` is `0`, each
/// following level is higher, and `Off` is `5`. Six strictly increasing
/// values between `0` and `5` leave no freedom: Trace 0, Debug 1, Info 2,
/// Warn 3, Error 4, Off 5, so `from_i32(1)` is `Some(Debug)` and
/// `from_i32(4)` is `Some(Error)`.
pub proof fn lemma_severity_ascends()
    ensures
        LogLevel::Trace.raw_of() == 0,
        LogLevel::Trace.raw_of() < LogLevel::Debug.raw_of(),
        LogLevel::Debug.raw_of() < LogLevel::Info.raw_of(),
        LogLevel::Info.raw_of() < LogLevel::Warn.raw_of(),
        LogLevel::Warn.raw_of() < LogLevel::Error.raw_of(),
        LogLevel::Error.raw_of() < LogLevel::Off.raw_of(),
        LogLevel::Off.raw_of() == 5,
{
}

/// Comparing two levels compares their raw values: a level is below another
/// exactly when its raw value is smaller, they compare equal only when they
/// are the same level, and the comparison always has an answer.
pub proof fn lemma_order_by_raw_value(a: LogLevel, b: LogLevel)
    ensures
        PartialOrdSpec::partial_cmp_spec(&a, &b) == Some(Ordering::Less) <==> a.raw_of() < b.raw_of(),
        PartialOrdSpec::partial_cmp_spec(&a, &b) == Some(Ordering::Greater) <==> b.raw_of() < a.raw_of(),
        PartialOrdSpec::partial_cmp_spec(&a, &b) == Some(Ordering::Equal) <==> a == b,
        PartialOrdSpec::partial_cmp_spec(&a, &b) is Some,
{
}

/// The levels form one ascending chain under comparison:
/// `Trace < Debug < Info < Warn < Error < Off`.
pub proof fn lemma_levels_chain()
    ensures
        PartialOrdSpec::partial_cmp_spec(&LogLevel::Trace, &LogLevel::Debug) == Some(Ordering::Less),
        PartialOrdSpec::partial_cmp_spec(&LogLevel::Debug, &LogLevel::Info) == Some(Ordering::Less),
        PartialOrdSpec::partial_cmp_spec(&LogLevel::Info, &LogLevel::Warn) == Some(Ordering::Less),
        PartialOrdSpec::partial_cmp_spec(&LogLevel::Warn, &LogLevel::Error) == Some(Ordering::Less),
        PartialOrdSpec::partial_cmp_spec(&LogLevel::Error, &LogLevel::Off) == Some(Ordering::Less),
{
}

} // verus!
