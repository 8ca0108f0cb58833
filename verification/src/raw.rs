use vstd::prelude::*;
use crate::instant::Instant;
use crate::magnitude::Magnitude;

verus! {

/// The confidence classes of the extraction engine.
#[derive(Clone, Copy, Debug, PartialEq, Eq, Structural)]
pub enum RawPrecision {
    Approximate,
    Exact,
}

/// The calendar and clock granularities of the extraction engine.
#[derive(Clone, Copy, Debug, PartialEq, Eq, Structural)]
pub enum RawGrain {
    Year,
    Quarter,
    Month,
    Week,
    Day,
    Hour,
    Minute,
    Second,
}


/// A resolved date and time as the engine reports it.
#[derive(Clone, Copy, Debug, PartialEq, Eq, Structural)]
pub struct RawDatetime {
    pub moment: Instant,
    pub grain: RawGrain,
    pub precision: RawPrecision,
}

/// The three shapes of a resolved interval.
#[derive(Clone, Copy, Debug, PartialEq, Eq, Structural)]
pub enum RawIntervalKind {
    After(RawDatetime),
    Before(RawDatetime),
    Between { start: Instant, end: Instant, precision: RawPrecision },
}

/// One raw extraction result: the closed set of shapes that the engine
/// produces, before normalisation.
#[derive(Clone, Debug, PartialEq, Eq)]
pub enum RawOutput {
    Integer(i64),
    Float(Magnitude),
    Ordinal(i64),
    Percentage(Magnitude),
    Datetime(RawDatetime),
    DatetimeInterval(RawIntervalKind),
    AmountOfMoney { value: Magnitude, precision: RawPrecision, unit: Option<String> },
    Temperature { value: Magnitude, unit: Option<String> },
    /// The period holds one amount per grain, by the grain's position; an
    /// entry may be absent, and the vector may be shorter than eight entries.
    Duration { period: Vec<Option<i64>>, precision: RawPrecision },
}

impl RawIntervalKind {
    /// Whether every instant of the interval is valid.
    pub open spec fn wf(self) -> bool {
        match self {
            RawIntervalKind::After(datetime) => datetime.moment.wf(),
            RawIntervalKind::Before(datetime) => datetime.moment.wf(),
            RawIntervalKind::Between { start, end, precision } => start.wf() && end.wf(),
        }
    }
}

impl RawOutput {
    /// Whether every instant of the result is valid.
    pub open spec fn wf(self) -> bool {
        match self {
            RawOutput::Datetime(datetime) => datetime.moment.wf(),
            RawOutput::DatetimeInterval(kind) => kind.wf(),
            _ => true,
        }
    }
}

} // verus!
