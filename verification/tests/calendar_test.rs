use finance_analysis::ledger::{decode_date, encode_date};
use finance_analysis::calendar::{
    active_in_month, available_months, books_in_month, leap_year, month_bounds, month_end,
    month_length, Date, MAX_YEAR, MIN_YEAR,
};

fn d(year: i32, month: u32, day: u32) -> Date {
    Date::from_ymd_opt(year, month, day).unwrap()
}

#[test]
fn dates_exist_as_in_the_calendar() {
    assert!(Date::from_ymd_opt(2015, 3, 14).is_some());
    assert!(Date::from_ymd_opt(2015, 0, 14).is_none());
    assert!(Date::from_ymd_opt(2015, 2, 29).is_none());
    assert!(Date::from_ymd_opt(-4, 2, 29).is_some());
    assert!(Date::from_ymd_opt(400000, 1, 1).is_none());
    assert!(Date::from_ymd_opt(-400000, 1, 1).is_none());
    assert!(Date::from_ymd_opt(2024, 2, 29).is_some());
    assert!(Date::from_ymd_opt(1900, 2, 29).is_none());
    assert!(Date::from_ymd_opt(2000, 2, 29).is_some());
    assert!(Date::from_ymd_opt(2025, 4, 31).is_none());
    assert!(Date::from_ymd_opt(2025, 13, 1).is_none());
    assert!(Date::from_ymd_opt(MAX_YEAR, 12, 31).is_some());
    assert!(Date::from_ymd_opt(MIN_YEAR, 1, 1).is_some());
    assert!(leap_year(2024) && !leap_year(2100) && leap_year(2000) && leap_year(-4));
    assert_eq!(month_length(2023, 2), 28);
    assert_eq!(month_length(2024, 2), 29);
    assert_eq!(month_length(2025, 11), 30);
}

#[test]
fn previous_day() {
    assert_eq!(d(2015, 6, 3).pred_opt(), Some(d(2015, 6, 2)));
    assert_eq!(d(2025, 3, 1).pred_opt(), Some(d(2025, 2, 28)));
    assert_eq!(d(2024, 3, 1).pred_opt(), Some(d(2024, 2, 29)));
    assert_eq!(d(2025, 1, 1).pred_opt(), Some(d(2024, 12, 31)));
    assert_eq!(d(MIN_YEAR, 1, 1).pred_opt(), None);
}

#[test]
fn last_day_of_month() {
    assert_eq!(month_end(2025, 8), Some(d(2025, 8, 31)));
    assert_eq!(month_end(2025, 11), Some(d(2025, 11, 30)));
    assert_eq!(month_end(2025, 12), Some(d(2025, 12, 31)));
    assert_eq!(month_end(2024, 2), Some(d(2024, 2, 29)));
    assert_eq!(month_end(MAX_YEAR, 12), None);
    assert_eq!(month_end(MAX_YEAR + 1, 1), None);
    assert_eq!(month_bounds(2025, 2), (d(2025, 2, 1), d(2025, 2, 28)));
}

#[test]
fn month_membership() {
    assert!(books_in_month(&d(2025, 2, 1), 2025, 2));
    assert!(books_in_month(&d(2025, 2, 28), 2025, 2));
    assert!(!books_in_month(&d(2025, 3, 1), 2025, 2));
    assert!(!books_in_month(&d(2024, 2, 10), 2025, 2));
    let (s, e) = (d(2025, 2, 15), d(2025, 8, 10));
    assert!(!active_in_month(&s, &e, 2025, 1));
    assert!(active_in_month(&s, &e, 2025, 2));
    assert!(active_in_month(&s, &e, 2025, 8));
    assert!(!active_in_month(&s, &e, 2025, 9));
    assert!(!active_in_month(&e, &s, 2025, 5));
}

#[test]
fn months_offered_for_navigation() {
    let days = vec![d(2025, 2, 1), d(2025, 10, 1), d(2025, 2, 15), d(2023, 12, 24)];
    let ranges = vec![
        (d(2025, 2, 1), d(2025, 8, 31)),
        (d(2025, 3, 1), d(2025, 11, 30)),
        (d(2022, 5, 1), d(2022, 3, 31)),
    ];
    let months = available_months(&days, &ranges, d(2026, 1, 10));
    let mut expected = vec![(2023, 12)];
    for m in 2..=11 {
        expected.push((2025, m));
    }
    expected.push((2026, 1));
    assert_eq!(months, expected);
}

#[test]
fn months_offered_without_entries_is_current_month() {
    assert_eq!(available_months(&vec![], &vec![], d(2025, 7, 4)), vec![(2025, 7)]);
}

#[test]
fn months_across_a_year_end() {
    let ranges = vec![(d(2024, 11, 20), d(2025, 2, 3))];
    let months = available_months(&vec![], &ranges, d(2025, 1, 1));
    assert_eq!(months, vec![(2024, 11), (2024, 12), (2025, 1), (2025, 2)]);
}

#[test]
fn date_text_and_parsing() {
    assert_eq!(encode_date(&d(2025, 2, 1)), "2025-02-01");
    assert_eq!(encode_date(&d(7, 11, 9)), "0007-11-09");
    assert_eq!(encode_date(&d(12345, 6, 7)), "+12345-06-07");
    assert_eq!(decode_date("2025-02-01"), Some(d(2025, 2, 1)));
    assert_eq!(decode_date("0007-11-09"), Some(d(7, 11, 9)));
    assert_eq!(decode_date("2025-02-30"), None);
    assert_eq!(decode_date("foo"), None);
}
