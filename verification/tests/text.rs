use rustling_slots::instant::Instant;

#[test]
fn an_instant_is_written_with_its_components() {
    let moment = Instant::new(2019, 3, 7, 9, 5, 1, 3600).unwrap();
    assert_eq!(rustling_slots::moment_json::serialize(&moment), "2019-03-07 09:05:01");
}

#[test]
fn the_text_does_not_depend_on_the_offset() {
    let east = Instant::new(2024, 12, 31, 23, 59, 59, 7200).unwrap();
    let west = Instant::new(2024, 12, 31, 23, 59, 59, -18000).unwrap();
    assert_eq!(rustling_slots::moment_json::serialize(&east), "2024-12-31 23:59:59");
    assert_eq!(rustling_slots::moment_json::serialize(&west), "2024-12-31 23:59:59");
}

#[test]
fn early_years_are_padded_to_four_digits() {
    let moment = Instant::new(7, 1, 1, 0, 0, 0, 0).unwrap();
    assert_eq!(rustling_slots::moment_json::serialize(&moment), "0007-01-01 00:00:00");
    let first = Instant::new(0, 1, 1, 0, 0, 0, 0).unwrap();
    assert_eq!(rustling_slots::moment_json::serialize(&first), "0000-01-01 00:00:00");
}

#[test]
fn the_last_year_and_a_leap_second_are_written() {
    let moment = Instant::new(9999, 12, 31, 23, 59, 60, 0).unwrap();
    assert_eq!(rustling_slots::moment_json::serialize(&moment), "9999-12-31 23:59:60");
}

#[test]
fn the_text_has_nineteen_characters() {
    let moment = Instant::new(1987, 10, 20, 14, 30, 0, 0).unwrap();
    assert_eq!(rustling_slots::moment_json::serialize(&moment).len(), 19);
}

#[test]
fn an_absent_bound_is_written_as_nothing() {
    assert_eq!(rustling_slots::optional_moment_json::serialize(&None), None);
}

#[test]
fn a_present_bound_is_written_as_its_text() {
    let moment = Instant::new(2020, 2, 29, 12, 0, 0, 0).unwrap();
    assert_eq!(
        rustling_slots::optional_moment_json::serialize(&Some(moment)),
        Some(String::from("2020-02-29 12:00:00"))
    );
}

#[test]
fn valid_components_make_an_instant() {
    let moment = Instant::new(2021, 6, 30, 1, 2, 3, -3600).unwrap();
    assert_eq!(moment.year, 2021);
    assert_eq!(moment.month, 6);
    assert_eq!(moment.day, 30);
    assert_eq!(moment.hour, 1);
    assert_eq!(moment.minute, 2);
    assert_eq!(moment.second, 3);
    assert_eq!(moment.utc_offset_seconds, -3600);
}

#[test]
fn february_follows_the_leap_year_rule() {
    assert!(Instant::new(2020, 2, 29, 0, 0, 0, 0).is_some());
    assert!(Instant::new(2021, 2, 29, 0, 0, 0, 0).is_none());
    assert!(Instant::new(1900, 2, 29, 0, 0, 0, 0).is_none());
    assert!(Instant::new(2000, 2, 29, 0, 0, 0, 0).is_some());
    assert!(Instant::new(2000, 2, 30, 0, 0, 0, 0).is_none());
}

#[test]
fn components_out_of_range_make_no_instant() {
    assert!(Instant::new(10000, 1, 1, 0, 0, 0, 0).is_none());
    assert!(Instant::new(2020, 0, 1, 0, 0, 0, 0).is_none());
    assert!(Instant::new(2020, 13, 1, 0, 0, 0, 0).is_none());
    assert!(Instant::new(2020, 1, 0, 0, 0, 0, 0).is_none());
    assert!(Instant::new(2020, 1, 32, 0, 0, 0, 0).is_none());
    assert!(Instant::new(2020, 4, 31, 0, 0, 0, 0).is_none());
    assert!(Instant::new(2020, 1, 1, 24, 0, 0, 0).is_none());
    assert!(Instant::new(2020, 1, 1, 0, 60, 0, 0).is_none());
    assert!(Instant::new(2020, 1, 1, 0, 0, 61, 0).is_none());
    assert!(Instant::new(2020, 1, 1, 0, 0, 0, 86_400).is_none());
    assert!(Instant::new(2020, 1, 1, 0, 0, 0, -86_400).is_none());
    assert!(Instant::new(2020, 1, 1, 0, 0, 0, 86_399).is_some());
}

#[test]
fn instants_that_differ_in_a_component_differ_in_text() {
    let base = Instant::new(2019, 3, 7, 9, 5, 1, 0).unwrap();
    let others = [
        Instant::new(2018, 3, 7, 9, 5, 1, 0).unwrap(),
        Instant::new(2019, 4, 7, 9, 5, 1, 0).unwrap(),
        Instant::new(2019, 3, 8, 9, 5, 1, 0).unwrap(),
        Instant::new(2019, 3, 7, 10, 5, 1, 0).unwrap(),
        Instant::new(2019, 3, 7, 9, 6, 1, 0).unwrap(),
        Instant::new(2019, 3, 7, 9, 5, 2, 0).unwrap(),
    ];
    let text = rustling_slots::moment_json::serialize(&base);
    for other in others.iter() {
        assert_ne!(rustling_slots::moment_json::serialize(other), text);
    }
}
