use typ_js::adapter::TypJs;
use typ_js::clock::date_from_fields;

#[test]
fn leap_year_february() {
    let d = date_from_fields(2024, 2, 29).expect("2024 is a leap year");
    assert_eq!((d.year, d.month, d.day), (2024, 2, 29));
    assert!(date_from_fields(2023, 2, 29).is_none());
    assert!(date_from_fields(1900, 2, 29).is_none(), "century, not divisible by 400");
    assert!(date_from_fields(2000, 2, 29).is_some(), "divisible by 400");
}

#[test]
fn month_lengths() {
    assert!(date_from_fields(2021, 4, 31).is_none());
    assert!(date_from_fields(2021, 4, 30).is_some());
    assert!(date_from_fields(2021, 12, 31).is_some());
}

#[test]
fn year_bounds() {
    assert!(date_from_fields(9999, 1, 1).is_some());
    assert!(date_from_fields(-9999, 1, 1).is_some());
    assert!(date_from_fields(-10000, 1, 1).is_none());
}

#[test]
fn repeated_queries_are_consistent() {
    let mut a = TypJs::new();
    let first = a.today(None).expect("today's local date");
    let second = a.today(None).expect("today's local date again");
    assert_eq!((first.year, first.month, first.day), (second.year, second.month, second.day));
}

#[test]
fn utc_offset_zero_gives_a_date() {
    let mut a = TypJs::new();
    let d = a.today(Some(0)).expect("UTC date");
    assert!((1..=12).contains(&d.month) && (1..=31).contains(&d.day));
}

#[test]
fn absurd_offset_is_unavailable_not_a_panic() {
    let mut a = TypJs::new();
    assert!(a.today(Some(i64::MAX)).is_none());
}
