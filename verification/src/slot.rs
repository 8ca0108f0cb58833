use vstd::prelude::*;
use vstd::std_specs::convert::FromSpecImpl;
use crate::instant::Instant;
use crate::magnitude::bits_of_int;
use crate::magnitude::Magnitude;
use crate::raw::RawGrain;
use crate::raw::RawIntervalKind;
use crate::raw::RawOutput;
use crate::raw::RawPrecision;

verus! {

/// Whether a recognised value is exact or approximate.
#[derive(Clone, Copy, Debug, PartialEq, Eq, Structural)]
pub enum Precision {
    Approximate,
    Exact,
}

/// The precision of a slot value for each confidence class of the engine.
pub open spec fn precision_of(o: RawPrecision) -> Precision {
    match o {
        RawPrecision::Approximate => Precision::Approximate,
        RawPrecision::Exact => Precision::Exact,
    }
}

impl From<RawPrecision> for Precision {
    fn from(o: RawPrecision) -> (r: Precision) {
        match o {
            RawPrecision::Approximate => Precision::Approximate,
            RawPrecision::Exact => Precision::Exact,
        }
    }
}

impl FromSpecImpl<RawPrecision> for Precision {
    open spec fn obeys_from_spec() -> bool {
        true
    }

    open spec fn from_spec(o: RawPrecision) -> Precision {
        precision_of(o)
    }
}

/// Calendar and clock granularity, from the coarsest to the finest. A grain is
/// also a position in the period of a duration.
#[derive(Clone, Copy, Debug, PartialEq, Eq, Hash, Structural)]
pub enum TimeGrain {
    Year,
    Quarter,
    Month,
    Week,
    Day,
    Hour,
    Minute,
    Second,
}

/// The grain of a slot value for each grain of the engine.
pub open spec fn grain_of(o: RawGrain) -> TimeGrain {
    match o {
        RawGrain::Year => TimeGrain::Year,
        RawGrain::Quarter => TimeGrain::Quarter,
        RawGrain::Month => TimeGrain::Month,
        RawGrain::Week => TimeGrain::Week,
        RawGrain::Day => TimeGrain::Day,
        RawGrain::Hour => TimeGrain::Hour,
        RawGrain::Minute => TimeGrain::Minute,
        RawGrain::Second => TimeGrain::Second,
    }
}

impl From<RawGrain> for TimeGrain {
    fn from(o: RawGrain) -> (r: TimeGrain) {
        match o {
            RawGrain::Year => TimeGrain::Year,
            RawGrain::Quarter => TimeGrain::Quarter,
            RawGrain::Month => TimeGrain::Month,
            RawGrain::Week => TimeGrain::Week,
            RawGrain::Day => TimeGrain::Day,
            RawGrain::Hour => TimeGrain::Hour,
            RawGrain::Minute => TimeGrain::Minute,
            RawGrain::Second => TimeGrain::Second,
        }
    }
}

impl FromSpecImpl<RawGrain> for TimeGrain {
    open spec fn obeys_from_spec() -> bool {
        true
    }

    open spec fn from_spec(o: RawGrain) -> TimeGrain {
        grain_of(o)
    }
}

impl TimeGrain {
    /// The position of the grain in a period: 0 for a year, 7 for a second.
    pub open spec fn position(self) -> int {
        match self {
            TimeGrain::Year => 0,
            TimeGrain::Quarter => 1,
            TimeGrain::Month => 2,
            TimeGrain::Week => 3,
            TimeGrain::Day => 4,
            TimeGrain::Hour => 5,
            TimeGrain::Minute => 6,
            TimeGrain::Second => 7,
        }
    }

    /// The position of the grain in a period.
    pub fn index(self) -> (i: usize)
        ensures
            i == self.position(),
    {
        match self {
            TimeGrain::Year => 0,
            TimeGrain::Quarter => 1,
            TimeGrain::Month => 2,
            TimeGrain::Week => 3,
            TimeGrain::Day => 4,
            TimeGrain::Hour => 5,
            TimeGrain::Minute => 6,
            TimeGrain::Second => 7,
        }
    }
}

/// A number, as a 64-bit float.
#[derive(Clone, Copy, Debug, PartialEq, Eq, Structural)]
pub struct NumberValue {
    pub value: Magnitude,
}

/// A rank in a sequence.
#[derive(Clone, Copy, Debug, PartialEq, Eq, Structural)]
pub struct OrdinalValue {
    pub value: i64,
}

/// A percentage, as a 64-bit float.
#[derive(Clone, Copy, Debug, PartialEq, Eq, Structural)]
pub struct PercentageValue {
    pub value: Magnitude,
}

/// A point in time with its grain and precision.
#[derive(Clone, Copy, Debug, PartialEq, Eq, Structural)]
pub struct InstantTimeValue {
    pub value: Instant,
    pub grain: TimeGrain,
    pub precision: Precision,
}

/// A span of time. A bound that is absent leaves the span open on that side.
#[derive(Clone, Copy, Debug, PartialEq, Eq, Structural)]
pub struct TimeIntervalValue {
    pub from: Option<Instant>,
    pub to: Option<Instant>,
}

/// An amount of money; the unit is absent where no currency was recognised.
#[derive(Clone, Debug, PartialEq, Eq)]
pub struct AmountOfMoneyValue {
    pub value: Magnitude,
    pub precision: Precision,
    pub unit: Option<String>,
}

/// A temperature with its unit, where one was recognised.
#[derive(Clone, Debug, PartialEq, Eq)]
pub struct TemperatureValue {
    pub value: Magnitude,
    pub unit: Option<String>,
}

/// A length of time, one amount per grain.
#[derive(Clone, Copy, Debug, PartialEq, Eq, Structural)]
pub struct DurationValue {
    pub years: i64,
    pub quarters: i64,
    pub months: i64,
    pub weeks: i64,
    pub days: i64,
    pub hours: i64,
    pub minutes: i64,
    pub seconds: i64,
    pub precision: Precision,
}

/// A normalised extraction result: exactly one of eight kinds.
#[derive(Clone, Debug, PartialEq, Eq)]
pub enum SlotValue {
    Number(NumberValue),
    Ordinal(OrdinalValue),
    Percentage(PercentageValue),
    InstantTime(InstantTimeValue),
    TimeInterval(TimeIntervalValue),
    AmountOfMoney(AmountOfMoneyValue),
    Temperature(TemperatureValue),
    Duration(DurationValue),
}

impl TimeIntervalValue {
    /// Whether the interval has at least one bound, and valid instants for
    /// the bounds it has.
    pub open spec fn wf(self) -> bool {
        &&& self.from is Some || self.to is Some
        &&& self.from is Some ==> self.from.unwrap().wf()
        &&& self.to is Some ==> self.to.unwrap().wf()
    }
}

impl SlotValue {
    /// The invariant of a slot value: its instants are valid, and an interval
    /// has a bound.
    pub open spec fn wf(self) -> bool {
        match self {
            SlotValue::InstantTime(v) => v.value.wf(),
            SlotValue::TimeInterval(v) => v.wf(),
            _ => true,
        }
    }
}

/// The amount that a period holds for a grain: the entry at the grain's
/// position, or 0 where the period is shorter or the entry is absent.
pub open spec fn period_amount(period: Seq<Option<i64>>, grain: TimeGrain) -> i64 {
    let i = grain.position();
    if i < period.len() && period[i] is Some {
        period[i].unwrap()
    } else {
        0
    }
}

/// The duration that a period and a precision of the engine stand for.
pub open spec fn duration_of(period: Seq<Option<i64>>, precision: RawPrecision) -> DurationValue {
    DurationValue {
        years: period_amount(period, TimeGrain::Year),
        quarters: period_amount(period, TimeGrain::Quarter),
        months: period_amount(period, TimeGrain::Month),
        weeks: period_amount(period, TimeGrain::Week),
        days: period_amount(period, TimeGrain::Day),
        hours: period_amount(period, TimeGrain::Hour),
        minutes: period_amount(period, TimeGrain::Minute),
        seconds: period_amount(period, TimeGrain::Second),
        precision: precision_of(precision),
    }
}

/// The interval that each shape of a resolved interval stands for: open after
/// an instant, open before one, or closed between two.
pub open spec fn interval_of(kind: RawIntervalKind) -> TimeIntervalValue {
    match kind {
        RawIntervalKind::After(datetime) => TimeIntervalValue {
            from: Some(datetime.moment),
            to: None,
        },
        RawIntervalKind::Before(datetime) => TimeIntervalValue {
            from: None,
            to: Some(datetime.moment),
        },
        RawIntervalKind::Between { start, end, precision } => TimeIntervalValue {
            from: Some(start),
            to: Some(end),
        },
    }
}

/// The slot value of a raw extraction result, one rule for each of its shapes.
pub open spec fn slot_of(o: RawOutput) -> SlotValue {
    match o {
        RawOutput::Integer(i) => SlotValue::Number(
            NumberValue { value: Magnitude { bits: bits_of_int(i as int) as u64 } },
        ),
        RawOutput::Float(value) => SlotValue::Number(NumberValue { value }),
        RawOutput::Ordinal(value) => SlotValue::Ordinal(OrdinalValue { value }),
        RawOutput::Percentage(value) => SlotValue::Percentage(PercentageValue { value }),
        RawOutput::Datetime(datetime) => SlotValue::InstantTime(
            InstantTimeValue {
                value: datetime.moment,
                grain: grain_of(datetime.grain),
                precision: precision_of(datetime.precision),
            },
        ),
        RawOutput::DatetimeInterval(kind) => SlotValue::TimeInterval(interval_of(kind)),
        RawOutput::AmountOfMoney { value, precision, unit } => SlotValue::AmountOfMoney(
            AmountOfMoneyValue { value, precision: precision_of(precision), unit },
        ),
        RawOutput::Temperature { value, unit } => SlotValue::Temperature(
            TemperatureValue { value, unit },
        ),
        RawOutput::Duration { period, precision } => SlotValue::Duration(
            duration_of(period@, precision),
        ),
    }
}

/// Reads the amount of one grain out of a period.
pub fn amount_at(period: &Vec<Option<i64>>, grain: TimeGrain) -> (amount: i64)
    ensures
        amount == period_amount(period@, grain),
{
    let i: usize = grain.index();
    if i < period.len() {
        match period[i] {
            Some(amount) => amount,
            None => 0,
        }
    } else {
        0
    }
}

impl DurationValue {
    /// The duration of a period: each grain's amount, 0 where the period has
    /// none, and the precision translated.
    pub fn from_period(period: &Vec<Option<i64>>, precision: RawPrecision) -> (r: DurationValue)
        ensures
            r == duration_of(period@, precision),
    {
        DurationValue {
            years: amount_at(period, TimeGrain::Year),
            quarters: amount_at(period, TimeGrain::Quarter),
            months: amount_at(period, TimeGrain::Month),
            weeks: amount_at(period, TimeGrain::Week),
            days: amount_at(period, TimeGrain::Day),
            hours: amount_at(period, TimeGrain::Hour),
            minutes: amount_at(period, TimeGrain::Minute),
            seconds: amount_at(period, TimeGrain::Second),
            precision: Precision::from(precision),
        }
    }
}

impl TimeIntervalValue {
    /// The interval of a resolved interval; what else the engine reports of it
    /// is dropped.
    pub fn from_kind(kind: RawIntervalKind) -> (r: TimeIntervalValue)
        ensures
            r == interval_of(kind),
            r.from is Some || r.to is Some,
            kind.wf() ==> r.wf(),
    {
        match kind {
            RawIntervalKind::After(datetime) => TimeIntervalValue {
                from: Some(datetime.moment),
                to: None,
            },
            RawIntervalKind::Before(datetime) => TimeIntervalValue {
                from: None,
                to: Some(datetime.moment),
            },
            RawIntervalKind::Between { start, end, precision: _ } => TimeIntervalValue {
                from: Some(start),
                to: Some(end),
            },
        }
    }
}

fn copy_unit(unit: &Option<String>) -> (r: Option<String>)
    ensures
        r == *unit,
{
    match unit {
        Some(text) => Some(text.clone()),
        None => None,
    }
}

impl SlotValue {
    /// Converts one raw extraction result into its slot value.
    pub fn of(o: &RawOutput) -> (r: SlotValue)
        ensures
            r == slot_of(*o),
            o.wf() ==> r.wf(),
    {
        match o {
            RawOutput::Integer(i) => SlotValue::Number(
                NumberValue { value: Magnitude::from_integer(*i) },
            ),
            RawOutput::Float(value) => SlotValue::Number(NumberValue { value: *value }),
            RawOutput::Ordinal(value) => SlotValue::Ordinal(OrdinalValue { value: *value }),
            RawOutput::Percentage(value) => SlotValue::Percentage(
                PercentageValue { value: *value },
            ),
            RawOutput::Datetime(datetime) => SlotValue::InstantTime(
                InstantTimeValue {
                    value: datetime.moment,
                    grain: TimeGrain::from(datetime.grain),
                    precision: Precision::from(datetime.precision),
                },
            ),
            RawOutput::DatetimeInterval(kind) => SlotValue::TimeInterval(
                TimeIntervalValue::from_kind(*kind),
            ),
            RawOutput::AmountOfMoney { value, precision, unit } => SlotValue::AmountOfMoney(
                AmountOfMoneyValue {
                    value: *value,
                    precision: Precision::from(*precision),
                    unit: copy_unit(unit),
                },
            ),
            RawOutput::Temperature { value, unit } => SlotValue::Temperature(
                TemperatureValue { value: *value, unit: copy_unit(unit) },
            ),
            RawOutput::Duration { period, precision } => SlotValue::Duration(
                DurationValue::from_period(period, *precision),
            ),
        }
    }
}

impl From<RawOutput> for SlotValue {
    fn from(o: RawOutput) -> (r: SlotValue) {
        SlotValue::of(&o)
    }
}

impl FromSpecImpl<RawOutput> for SlotValue {
    open spec fn obeys_from_spec() -> bool {
        true
    }

    open spec fn from_spec(o: RawOutput) -> SlotValue {
        slot_of(o)
    }
}

} // verus!
