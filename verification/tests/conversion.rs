use rustling_slots::instant::Instant;
use rustling_slots::magnitude::Magnitude;
use rustling_slots::raw::RawDatetime;
use rustling_slots::raw::RawGrain;
use rustling_slots::raw::RawIntervalKind;
use rustling_slots::raw::RawOutput;
use rustling_slots::raw::RawPrecision;
use rustling_slots::slot::amount_at;
use rustling_slots::slot::AmountOfMoneyValue;
use rustling_slots::slot::DurationValue;
use rustling_slots::slot::InstantTimeValue;
use rustling_slots::slot::NumberValue;
use rustling_slots::slot::OrdinalValue;
use rustling_slots::slot::PercentageValue;
use rustling_slots::slot::Precision;
use rustling_slots::slot::SlotValue;
use rustling_slots::slot::TemperatureValue;
use rustling_slots::slot::TimeGrain;
use rustling_slots::slot::TimeIntervalValue;

fn magnitude(x: f64) -> Magnitude {
    Magnitude { bits: x.to_bits() }
}

fn noon(day: u8) -> Instant {
    Instant::new(2013, 2, day, 12, 0, 0, 0).unwrap()
}

fn datetime(day: u8) -> RawDatetime {
    RawDatetime { moment: noon(day), grain: RawGrain::Day, precision: RawPrecision::Exact }
}

#[test]
fn an_integer_becomes_a_number() {
    let slot = SlotValue::from(RawOutput::Integer(42));
    assert_eq!(slot, SlotValue::Number(NumberValue { value: magnitude(42.0) }));
}

#[test]
fn a_negative_integer_becomes_a_number() {
    let slot = SlotValue::of(&RawOutput::Integer(-7));
    assert_eq!(slot, SlotValue::Number(NumberValue { value: magnitude(-7.0) }));
}

#[test]
fn a_float_becomes_a_number_with_the_same_bits() {
    let slot = SlotValue::from(RawOutput::Float(magnitude(2.5)));
    assert_eq!(slot, SlotValue::Number(NumberValue { value: magnitude(2.5) }));
}

#[test]
fn an_ordinal_keeps_its_rank() {
    let slot = SlotValue::from(RawOutput::Ordinal(3));
    assert_eq!(slot, SlotValue::Ordinal(OrdinalValue { value: 3 }));
}

#[test]
fn a_percentage_keeps_its_magnitude() {
    let slot = SlotValue::from(RawOutput::Percentage(magnitude(12.5)));
    assert_eq!(slot, SlotValue::Percentage(PercentageValue { value: magnitude(12.5) }));
}

#[test]
fn a_datetime_becomes_an_instant_time() {
    let raw = RawOutput::Datetime(RawDatetime {
        moment: noon(12),
        grain: RawGrain::Hour,
        precision: RawPrecision::Approximate,
    });
    assert_eq!(
        SlotValue::from(raw),
        SlotValue::InstantTime(InstantTimeValue {
            value: noon(12),
            grain: TimeGrain::Hour,
            precision: Precision::Approximate,
        })
    );
}

#[test]
fn after_an_instant_is_open_ended() {
    let raw = RawOutput::DatetimeInterval(RawIntervalKind::After(datetime(3)));
    assert_eq!(
        SlotValue::from(raw),
        SlotValue::TimeInterval(TimeIntervalValue { from: Some(noon(3)), to: None })
    );
}

#[test]
fn before_an_instant_is_open_at_the_start() {
    let raw = RawOutput::DatetimeInterval(RawIntervalKind::Before(datetime(4)));
    assert_eq!(
        SlotValue::from(raw),
        SlotValue::TimeInterval(TimeIntervalValue { from: None, to: Some(noon(4)) })
    );
}

#[test]
fn between_two_instants_is_closed() {
    let raw = RawOutput::DatetimeInterval(RawIntervalKind::Between {
        start: noon(5),
        end: noon(9),
        precision: RawPrecision::Approximate,
    });
    assert_eq!(
        SlotValue::from(raw),
        SlotValue::TimeInterval(TimeIntervalValue { from: Some(noon(5)), to: Some(noon(9)) })
    );
}

#[test]
fn every_converted_interval_has_a_bound() {
    for kind in [
        RawIntervalKind::After(datetime(1)),
        RawIntervalKind::Before(datetime(2)),
        RawIntervalKind::Between { start: noon(1), end: noon(2), precision: RawPrecision::Exact },
    ] {
        let interval = TimeIntervalValue::from_kind(kind);
        assert!(interval.from.is_some() || interval.to.is_some());
    }
}

#[test]
fn an_amount_of_money_keeps_value_and_unit() {
    let raw = RawOutput::AmountOfMoney {
        value: magnitude(10.5),
        precision: RawPrecision::Exact,
        unit: Some(String::from("EUR")),
    };
    assert_eq!(
        SlotValue::from(raw),
        SlotValue::AmountOfMoney(AmountOfMoneyValue {
            value: magnitude(10.5),
            precision: Precision::Exact,
            unit: Some(String::from("EUR")),
        })
    );
}

#[test]
fn an_amount_without_currency_has_no_unit() {
    let raw = RawOutput::AmountOfMoney {
        value: magnitude(3.0),
        precision: RawPrecision::Approximate,
        unit: None,
    };
    assert_eq!(
        SlotValue::from(raw),
        SlotValue::AmountOfMoney(AmountOfMoneyValue {
            value: magnitude(3.0),
            precision: Precision::Approximate,
            unit: None,
        })
    );
}

#[test]
fn a_temperature_keeps_value_and_unit() {
    let raw = RawOutput::Temperature { value: magnitude(-4.0), unit: Some(String::from("celsius")) };
    assert_eq!(
        SlotValue::from(raw),
        SlotValue::Temperature(TemperatureValue {
            value: magnitude(-4.0),
            unit: Some(String::from("celsius")),
        })
    );
    let bare = RawOutput::Temperature { value: magnitude(70.0), unit: None };
    assert_eq!(
        SlotValue::from(bare),
        SlotValue::Temperature(TemperatureValue { value: magnitude(70.0), unit: None })
    );
}

#[test]
fn a_period_of_months_and_days_fills_only_those_fields() {
    let raw = RawOutput::Duration {
        period: vec![None, None, Some(2), None, Some(5)],
        precision: RawPrecision::Approximate,
    };
    assert_eq!(
        SlotValue::from(raw),
        SlotValue::Duration(DurationValue {
            years: 0,
            quarters: 0,
            months: 2,
            weeks: 0,
            days: 5,
            hours: 0,
            minutes: 0,
            seconds: 0,
            precision: Precision::Approximate,
        })
    );
}

#[test]
fn a_full_period_is_read_by_position() {
    let period = vec![Some(1), Some(2), Some(3), Some(4), Some(5), Some(6), Some(7), Some(8)];
    assert_eq!(
        DurationValue::from_period(&period, RawPrecision::Exact),
        DurationValue {
            years: 1,
            quarters: 2,
            months: 3,
            weeks: 4,
            days: 5,
            hours: 6,
            minutes: 7,
            seconds: 8,
            precision: Precision::Exact,
        }
    );
}

#[test]
fn an_empty_period_is_all_zero() {
    assert_eq!(
        DurationValue::from_period(&Vec::new(), RawPrecision::Exact),
        DurationValue {
            years: 0,
            quarters: 0,
            months: 0,
            weeks: 0,
            days: 0,
            hours: 0,
            minutes: 0,
            seconds: 0,
            precision: Precision::Exact,
        }
    );
}

#[test]
fn entries_past_the_eighth_are_ignored() {
    let period = vec![None, None, None, None, None, None, None, Some(30), Some(99)];
    let duration = DurationValue::from_period(&period, RawPrecision::Exact);
    assert_eq!(duration.seconds, 30);
    assert_eq!(duration.minutes, 0);
}

#[test]
fn an_amount_is_read_at_the_position_of_its_grain() {
    let period = vec![Some(-1), None, Some(9)];
    assert_eq!(amount_at(&period, TimeGrain::Year), -1);
    assert_eq!(amount_at(&period, TimeGrain::Quarter), 0);
    assert_eq!(amount_at(&period, TimeGrain::Month), 9);
    assert_eq!(amount_at(&period, TimeGrain::Week), 0);
}

#[test]
fn grains_are_numbered_from_year_to_second() {
    assert_eq!(TimeGrain::Year.index(), 0);
    assert_eq!(TimeGrain::Quarter.index(), 1);
    assert_eq!(TimeGrain::Month.index(), 2);
    assert_eq!(TimeGrain::Week.index(), 3);
    assert_eq!(TimeGrain::Day.index(), 4);
    assert_eq!(TimeGrain::Hour.index(), 5);
    assert_eq!(TimeGrain::Minute.index(), 6);
    assert_eq!(TimeGrain::Second.index(), 7);
}

#[test]
fn each_grain_is_translated_to_its_namesake() {
    assert_eq!(TimeGrain::from(RawGrain::Year), TimeGrain::Year);
    assert_eq!(TimeGrain::from(RawGrain::Quarter), TimeGrain::Quarter);
    assert_eq!(TimeGrain::from(RawGrain::Month), TimeGrain::Month);
    assert_eq!(TimeGrain::from(RawGrain::Week), TimeGrain::Week);
    assert_eq!(TimeGrain::from(RawGrain::Day), TimeGrain::Day);
    assert_eq!(TimeGrain::from(RawGrain::Hour), TimeGrain::Hour);
    assert_eq!(TimeGrain::from(RawGrain::Minute), TimeGrain::Minute);
    assert_eq!(TimeGrain::from(RawGrain::Second), TimeGrain::Second);
}

#[test]
fn each_precision_is_translated_to_its_namesake() {
    assert_eq!(Precision::from(RawPrecision::Approximate), Precision::Approximate);
    assert_eq!(Precision::from(RawPrecision::Exact), Precision::Exact);
}

#[test]
fn converting_twice_gives_the_same_value() {
    let raw = RawOutput::AmountOfMoney {
        value: magnitude(99.99),
        precision: RawPrecision::Exact,
        unit: Some(String::from("USD")),
    };
    assert_eq!(SlotValue::of(&raw), SlotValue::of(&raw));
    assert_eq!(SlotValue::of(&raw), SlotValue::from(raw.clone()));
}

#[test]
fn a_converted_instant_is_still_valid() {
    let raw = RawOutput::Datetime(datetime(28));
    match SlotValue::of(&raw) {
        SlotValue::InstantTime(v) => {
            let m = v.value;
            assert_eq!(
                Instant::new(
                    m.year,
                    m.month,
                    m.day,
                    m.hour,
                    m.minute,
                    m.second,
                    m.utc_offset_seconds
                ),
                Some(noon(28))
            );
        }
        other => panic!("not an instant: {:?}", other),
    }
}
