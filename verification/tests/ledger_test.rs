use finance_analysis::calendar::Date;
use finance_analysis::ledger::{
    decode_date, decode_fixed_salary, decode_regular, decode_singular, decode_variable_salary,
    encode_date, encode_regular, encode_singular, monthly_divisor, regular_selection, singular_selection,
    CategoryKeys, RowError,
};
use finance_analysis::models::{NecessityCategory, Periodicity, RegularEntry, SingularEntry, TypeCategory};

fn d(year: i32, month: u32, day: u32) -> Date {
    Date::from_ymd_opt(year, month, day).unwrap()
}

#[test]
fn one_time_entry_round_trip() {
    let e = SingularEntry {
        id: None,
        amount: 50.0,
        description: "Test entry 2".to_string(),
        date: d(2025, 2, 1),
        type_category: TypeCategory::T8,
        necessity_category: NecessityCategory::N2,
        is_income: false,
    };
    let r = encode_singular(&e);
    assert_eq!(r.date, "2025-02-01");
    assert_eq!(r.type_category, "T8");
    assert_eq!(r.necessity_category, "N2");
    assert_eq!(r.is_income, 0);
    let back = decode_singular(7, 50.0, r.description.clone(), &r.date, &r.type_category, &r.necessity_category, r.is_income).unwrap();
    assert_eq!(back.id, Some(7));
    assert_eq!(back.amount, 50.0);
    assert_eq!(back.description, e.description);
    assert_eq!(back.date, e.date);
    assert_eq!(back.type_category, TypeCategory::T8);
    assert_eq!(back.necessity_category, NecessityCategory::N2);
    assert!(!back.is_income);
}

#[test]
fn recurring_entry_round_trip() {
    let e = RegularEntry {
        id: None,
        amount: 62.0,
        description: "Test entry 1".to_string(),
        periodicity: Periodicity::Yearly,
        start_date: d(2025, 2, 1),
        end_date: d(2025, 8, 31),
        type_category: TypeCategory::T9,
        necessity_category: NecessityCategory::N1,
        is_income: true,
    };
    let r = encode_regular(&e);
    assert_eq!(r.periodicity, "yearly");
    assert_eq!(r.start_date, "2025-02-01");
    assert_eq!(r.end_date, "2025-08-31");
    assert_eq!(r.is_income, 1);
    let back = decode_regular(3, 62.0, r.description.clone(), &r.periodicity, &r.start_date, &r.end_date, &r.type_category, &r.necessity_category, r.is_income).unwrap();
    assert_eq!(back.id, Some(3));
    assert_eq!(back.periodicity, Periodicity::Yearly);
    assert_eq!(back.start_date, e.start_date);
    assert_eq!(back.end_date, e.end_date);
    assert_eq!(back.type_category, TypeCategory::T9);
    assert!(back.is_income);
}

#[test]
fn unreadable_rows() {
    let err = |r: Result<SingularEntry<f64>, RowError>| r.err();
    assert_eq!(err(decode_singular(1, 1.0, String::new(), "2025-02-30", "T1", "N1", 0)), Some(RowError::InvalidDate));
    assert_eq!(err(decode_singular(1, 1.0, String::new(), "2025-02-03", "Freizeit", "N1", 0)), Some(RowError::InvalidTypeCategory));
    assert_eq!(err(decode_singular(1, 1.0, String::new(), "2025-02-03", "T2", "N9", 0)), Some(RowError::InvalidNecessityCategory));
    let e = decode_regular(1, 1.0, String::new(), "weekly", "2025-01-01", "2025-01-31", "T1", "N1", 0);
    assert_eq!(e.err(), Some(RowError::InvalidPeriodicity));
    let e = decode_regular(1, 1.0, String::new(), "monthly", "x", "2025-01-31", "T1", "N1", 0);
    assert_eq!(e.err(), Some(RowError::InvalidStartDate));
    let e = decode_regular(1, 1.0, String::new(), "monthly", "2025-01-01", "", "T1", "N1", 0);
    assert_eq!(e.err(), Some(RowError::InvalidEndDate));
    let ok = decode_singular(1, 1.0, String::new(), "2025-02-03", "T2", "N1", 5).unwrap();
    assert!(ok.is_income);
}

#[test]
fn stored_days() {
    assert_eq!(encode_date(&d(2025, 12, 31)), "2025-12-31");
    assert_eq!(decode_date("2025-12-31"), Some(d(2025, 12, 31)));
    assert_eq!(decode_date("31.12.2025"), None);
    let f = decode_fixed_salary(4, "2024-01-01", 3000.0, 14).unwrap();
    assert_eq!((f.id, f.effective_date, f.monthly_amount, f.payments_per_year), (Some(4), d(2024, 1, 1), 3000.0, 14));
    assert!(decode_fixed_salary(4, "bad", 3000.0, 14).is_none());
    let v = decode_variable_salary(5, "2024-06-30", 500.0, "Bonus".to_string()).unwrap();
    assert_eq!((v.id, v.date, v.amount, v.description.as_str()), (Some(5), d(2024, 6, 30), 500.0, "Bonus"));
}

#[test]
fn monthly_share_of_recurring_amounts() {
    assert_eq!(monthly_divisor("yearly"), 12);
    assert_eq!(monthly_divisor("monthly"), 1);
    assert_eq!(62.0 / monthly_divisor("yearly") as f64, 62.0 / 12.0);
}

#[test]
fn category_keys_keep_first_positions() {
    let mut keys = CategoryKeys::new();
    assert_eq!(keys.slot("T2"), 0);
    assert_eq!(keys.slot("T9"), 1);
    assert_eq!(keys.slot("T2"), 0);
    assert_eq!(keys.slot("N1"), 2);
    assert_eq!(keys.keys, vec!["T2".to_string(), "T9".to_string(), "N1".to_string()]);
}

#[test]
fn one_time_amounts_counted_in_their_month() {
    let rows = vec![
        (d(2025, 1, 31), false),
        (d(2025, 2, 1), false),
        (d(2025, 2, 28), true),
        (d(2025, 2, 14), false),
        (d(2025, 3, 1), false),
        (d(2024, 2, 10), true),
    ];
    assert_eq!(singular_selection(&rows, 2025, 2, false), vec![1, 3]);
    assert_eq!(singular_selection(&rows, 2025, 2, true), vec![2]);
    assert_eq!(singular_selection(&rows, 2024, 2, true), vec![5]);
    assert_eq!(singular_selection(&rows, 2023, 5, false), Vec::<usize>::new());
}

#[test]
fn recurring_amounts_counted_while_valid() {
    let rows = vec![
        (d(2025, 1, 1), d(2025, 12, 31), false),
        (d(2025, 3, 15), d(2025, 3, 15), false),
        (d(2024, 6, 1), d(2025, 2, 1), true),
        (d(2025, 4, 1), d(2026, 1, 1), false),
    ];
    assert_eq!(regular_selection(&rows, 2025, 3, false), vec![0, 1]);
    assert_eq!(regular_selection(&rows, 2025, 2, true), vec![2]);
    assert_eq!(regular_selection(&rows, 2025, 12, false), vec![0, 3]);
    assert_eq!(regular_selection(&rows, 2026, 1, false), vec![3]);
    assert_eq!(regular_selection(&rows, 2024, 5, true), Vec::<usize>::new());
}
