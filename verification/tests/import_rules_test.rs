use finance_analysis::calendar::Date;
use finance_analysis::import::{
    import_expenses_sheet, import_incomes_sheet, parse_excel_date, parse_periodicity,
    AmountReading, CategoryMapping, Cell, CellValue, EntryKind, ImportError, ImportStats,
    RowOutcome, Sheet,
};
use finance_analysis::models::{NecessityCategory, Periodicity, TypeCategory};

fn d(year: i32, month: u32, day: u32) -> Date {
    Date::from_ymd_opt(year, month, day).unwrap()
}

fn empty() -> Cell<f64> {
    Cell { value: CellValue::Empty, display: String::new(), amount: AmountReading::Value { amount: 0.0, is_zero: true } }
}

fn text(s: &str) -> Cell<f64> {
    let amount = match s.parse::<f64>() {
        Ok(v) => AmountReading::Value { amount: v, is_zero: v == 0.0 },
        Err(_) => AmountReading::Unparsable,
    };
    Cell { value: CellValue::Text(s.to_string()), display: s.to_string(), amount }
}

fn num(v: f64) -> Cell<f64> {
    Cell {
        value: CellValue::Float { whole: v as i64, whole_u32: v as u32 },
        display: v.to_string(),
        amount: AmountReading::Value { amount: v, is_zero: v == 0.0 },
    }
}

fn whole(v: i64) -> Cell<f64> {
    Cell { value: CellValue::Int(v), display: v.to_string(), amount: AmountReading::Value { amount: v as f64, is_zero: v == 0 } }
}

fn iso(s: &str) -> Cell<f64> {
    Cell { value: CellValue::DateTimeIso(s.to_string()), display: s.to_string(), amount: AmountReading::NotNumeric }
}

fn serial(days: f64) -> Cell<f64> {
    Cell { value: CellValue::DateTime { whole_days: days as i64 }, display: days.to_string(), amount: AmountReading::NotNumeric }
}

fn mapping() -> CategoryMapping {
    CategoryMapping {
        type_category_recurring: vec![("Versicherung".to_string(), "T9".to_string()), ("Kaputt".to_string(), "X9".to_string())],
        type_category_singular: vec![("Hobby".to_string(), "T2".to_string())],
        necessity_category: vec![("notwendig".to_string(), "N1".to_string()), ("luxus".to_string(), "N3".to_string())],
    }
}

fn row(cells: Vec<Cell<f64>>) -> Vec<Cell<f64>> {
    cells
}

fn expenses_sheet() -> Sheet<f64> {
    Sheet {
        rows: vec![
            // header
            row(vec![text("Nr"), text("Datum"), text("Art"), text("Notwendigkeit"), text("Turnus"), empty(), text("Betrag"), text("Beschreibung"), text("Von"), text("Bis")]),
            // recurring expense: 62 yearly, February to August
            row(vec![empty(), empty(), text("Versicherung"), text("notwendig"), text("jährlich"), empty(), num(62.0), text(" Test entry 1 "), whole(2), num(8.0)]),
            // empty row
            row(vec![empty(), empty(), empty(), empty(), empty(), empty(), empty(), empty(), empty(), empty()]),
            // marker, in another column than the first
            row(vec![empty(), text("Variable Kosten")]),
            // one-time expense: 50 on 1.2.2025
            row(vec![empty(), serial(45689.0), text("Hobby"), text("notwendig"), empty(), empty(), num(50.0), text("Test entry 2")]),
            // unknown category
            row(vec![empty(), text("03.02.2025"), text("Garten"), text("notwendig"), empty(), empty(), num(5.0), text("Erde")]),
        ],
    }
}

fn incomes_sheet() -> Sheet<f64> {
    Sheet {
        rows: vec![
            row(vec![text("Nr"), text("Datum"), text("Turnus"), text("Betrag"), empty(), text("Beschreibung"), text("Von"), text("Bis")]),
            // recurring income: 1000 monthly, March to November
            row(vec![empty(), empty(), text("monatlich"), num(1000.0), empty(), text("Test entry 3"), whole(3), whole(11)]),
            row(vec![empty(), empty(), text("monthly"), num(10.0), empty(), text("Bad month"), whole(3), text("13")]),
            row(vec![text("Variable Einnahmen")]),
            // one-time income: 800 on 1.10.2025
            row(vec![empty(), iso("2025-10-01T00:00:00"), empty(), num(800.0), empty(), text("Test entry 4")]),
        ],
    }
}

#[test]
fn expenses_sheet_rows() {
    let out = import_expenses_sheet(&expenses_sheet(), &mapping(), 2025);
    assert_eq!(out.len(), 3);
    match &out[0] {
        RowOutcome::Regular { row, recurring } => {
            assert_eq!(*row, 1);
            assert_eq!(recurring.amount, 62.0);
            assert_eq!(recurring.periodicity, Periodicity::Yearly);
            assert_eq!(recurring.description, "Test entry 1");
            assert_eq!(recurring.start_date, d(2025, 2, 1));
            assert_eq!(recurring.end_date, d(2025, 8, 31));
            assert_eq!(recurring.type_category, TypeCategory::T9);
            assert_eq!(recurring.necessity_category, NecessityCategory::N1);
            assert!(!recurring.is_income);
            assert_eq!(recurring.id, None);
        }
        _ => panic!("expected a recurring expense"),
    }
    match &out[1] {
        RowOutcome::Singular { row, entry } => {
            assert_eq!(*row, 4);
            assert_eq!(entry.amount, 50.0);
            assert_eq!(entry.date, d(2025, 2, 1));
            assert_eq!(entry.description, "Test entry 2");
            assert_eq!(entry.type_category, TypeCategory::T2);
            assert_eq!(entry.necessity_category, NecessityCategory::N1);
            assert!(!entry.is_income);
        }
        _ => panic!("expected a one-time expense"),
    }
    match &out[2] {
        RowOutcome::Failed { row, error } => {
            assert_eq!(*row, 5);
            assert_eq!(error.message(), "Unknown singular type category: 'Garten'");
        }
        _ => panic!("expected a failed row"),
    }
}

#[test]
fn incomes_sheet_rows() {
    let out = import_incomes_sheet(&incomes_sheet(), 2025);
    assert_eq!(out.len(), 3);
    match &out[0] {
        RowOutcome::Regular { row, recurring } => {
            assert_eq!(*row, 1);
            assert_eq!(recurring.amount, 1000.0);
            assert_eq!(recurring.periodicity, Periodicity::Monthly);
            assert_eq!(recurring.description, "Test entry 3");
            assert_eq!(recurring.start_date, d(2025, 3, 1));
            assert_eq!(recurring.end_date, d(2025, 11, 30));
            assert_eq!(recurring.type_category, TypeCategory::T10);
            assert_eq!(recurring.necessity_category, NecessityCategory::N1);
            assert!(recurring.is_income);
        }
        _ => panic!("expected a recurring income"),
    }
    match &out[1] {
        RowOutcome::Failed { row, error } => {
            assert_eq!(*row, 2);
            assert_eq!(error.message(), "Month out of range: 13");
        }
        _ => panic!("expected a failed row"),
    }
    match &out[2] {
        RowOutcome::Singular { row, entry } => {
            assert_eq!(*row, 4);
            assert_eq!(entry.amount, 800.0);
            assert_eq!(entry.date, d(2025, 10, 1));
            assert_eq!(entry.description, "Test entry 4");
            assert!(entry.is_income);
            assert_eq!(entry.type_category, TypeCategory::T10);
        }
        _ => panic!("expected a one-time income"),
    }
}

#[test]
fn statistics_count_and_report() {
    let mut stats = ImportStats::default();
    assert_eq!(stats.errors.len(), ImportStats::new().errors.len());
    stats.record_added(EntryKind::RegularExpense);
    stats.record_added(EntryKind::SingularIncome);
    stats.record_added(EntryKind::SingularIncome);
    stats.record_error(5, "Unknown singular type category: 'Garten'");
    assert_eq!(stats.regular_expenses, 1);
    assert_eq!(stats.singular_expenses, 0);
    assert_eq!(stats.regular_incomes, 0);
    assert_eq!(stats.singular_incomes, 2);
    assert_eq!(stats.errors, vec!["Row 6: Unknown singular type category: 'Garten'".to_string()]);
}

#[test]
fn mapping_lookups() {
    let m = mapping();
    assert_eq!(m.map_type_recurring("Versicherung").ok(), Some(TypeCategory::T9));
    assert_eq!(m.map_type_recurring("Hobby").err().map(|e| e.message()), Some("Unknown recurring type category: 'Hobby'".to_string()));
    assert_eq!(m.map_type_recurring("Kaputt").err().map(|e| e.message()), Some("Invalid mapped type category: 'X9'".to_string()));
    assert_eq!(m.map_type_singular("Hobby").ok(), Some(TypeCategory::T2));
    assert_eq!(m.map_necessity("luxus").ok(), Some(NecessityCategory::N3));
    assert_eq!(m.map_necessity("egal").err().map(|e| e.message()), Some("Unknown necessity category: 'egal'".to_string()));
}

#[test]
fn periodicity_texts() {
    assert_eq!(parse_periodicity("monatlich").ok(), Some(Periodicity::Monthly));
    assert_eq!(parse_periodicity("MONTHLY").ok(), Some(Periodicity::Monthly));
    assert_eq!(parse_periodicity("Jährlich").ok(), Some(Periodicity::Yearly));
    assert_eq!(parse_periodicity("yearly").ok(), Some(Periodicity::Yearly));
    assert_eq!(parse_periodicity("Jahr").ok(), Some(Periodicity::Yearly));
    assert_eq!(parse_periodicity("wöchentlich").err().map(|e| e.message()), Some("Unknown periodicity: 'wöchentlich'".to_string()));
}

#[test]
fn dates_in_cells() {
    assert_eq!(parse_excel_date(&serial(45689.7)).ok(), Some(d(2025, 2, 1)));
    assert_eq!(parse_excel_date(&num(45658.0)).ok(), Some(d(2025, 1, 1)));
    assert_eq!(parse_excel_date(&whole(0)).ok(), Some(d(1899, 12, 30)));
    assert_eq!(parse_excel_date(&text("01.02.25")).ok(), Some(d(2025, 2, 1)));
    assert_eq!(parse_excel_date(&text("01.02.2025")).ok(), Some(d(2025, 2, 1)));
    assert_eq!(parse_excel_date(&text("2025-02-01")).ok(), Some(d(2025, 2, 1)));
    assert_eq!(parse_excel_date(&text("01/02/2025")).ok(), Some(d(2025, 2, 1)));
    assert_eq!(parse_excel_date(&iso("2025-10-01")).ok(), Some(d(2025, 10, 1)));
    assert_eq!(parse_excel_date(&text("gestern")).err().map(|e| e.message()), Some("Failed to parse date string".to_string()));
    assert_eq!(parse_excel_date(&empty()).err().map(|e| e.message()), Some("Invalid date format".to_string()));
    assert!(matches!(parse_excel_date(&whole(i64::MAX)), Err(ImportError::DateOutOfRange)));
}

#[test]
fn error_messages() {
    assert_eq!(ImportError::EmptyCell { row: 2, col: 7 }.message(), "Empty cell at row 3, col 8");
    assert_eq!(ImportError::MissingCell.message(), "Missing cell");
    assert_eq!(ImportError::InvalidEndMonth(12).message(), "Invalid end month: 12");
}

#[test]
fn failing_cells_of_a_row() {
    let sheet = Sheet {
        rows: vec![
            vec![text("header")],
            vec![empty(), empty(), text("Versicherung"), text("notwendig"), text("monatlich"), empty(), text("zwölf"), text("x"), whole(1), whole(2)],
            vec![empty(), empty(), text("Versicherung"), text("   "), text("monatlich"), empty(), num(3.0), text("x"), whole(1), whole(2)],
            vec![empty(), empty(), text("Versicherung"), text("notwendig"), text("monatlich"), empty(), num(3.0), text("x"), whole(1)],
        ],
    };
    let out = import_expenses_sheet(&sheet, &mapping(), 2025);
    let messages: Vec<String> = out
        .iter()
        .map(|o| match o {
            RowOutcome::Failed { error, .. } => error.message(),
            _ => String::from("stored"),
        })
        .collect();
    assert_eq!(messages, vec!["Failed to parse amount", "Empty cell at row 3, col 4", "Missing month"]);
}

#[test]
fn more_row_failures() {
    let mut m = mapping();
    m.necessity_category.push(("egal".to_string(), "N9".to_string()));
    let sheet = Sheet {
        rows: vec![
            vec![text("header")],
            vec![empty(), empty(), text("Versicherung"), text("notwendig"), text("monatlich"), empty(), iso("2025-01-01"), text("x"), whole(1), whole(2)],
            vec![empty(), empty(), text("Versicherung"), text("notwendig"), text("monatlich"), empty(), num(3.0), text("x"), text("März"), whole(2)],
            vec![empty(), empty(), text("Versicherung"), text("notwendig"), text("monatlich"), empty(), num(3.0), text("x"), iso("2025-01-01"), whole(2)],
            vec![empty(), empty(), text("Versicherung"), text("egal"), text("monatlich"), empty(), num(3.0), text("x"), whole(1), whole(2)],
            vec![empty(), empty(), text("Versicherung"), text("notwendig"), text("alle zwei Wochen"), empty(), num(3.0), text("x"), whole(1), whole(2)],
        ],
    };
    let messages: Vec<String> = import_expenses_sheet(&sheet, &m, 2025)
        .iter()
        .map(|o| match o {
            RowOutcome::Failed { error, .. } => error.message(),
            _ => String::from("stored"),
        })
        .collect();
    assert_eq!(
        messages,
        vec![
            "Invalid number format",
            "Failed to parse month",
            "Invalid month format",
            "Invalid mapped necessity category: 'N9'",
            "Unknown periodicity: 'alle zwei Wochen'",
        ]
    );
    let far = import_expenses_sheet(&sheet, &m, 300000);
    assert_eq!(far.len(), 5);
    let incomes = Sheet {
        rows: vec![
            vec![text("header")],
            vec![empty(), empty(), text("monthly"), num(5.0), empty(), text("y"), whole(4), whole(12)],
        ],
    };
    match &import_incomes_sheet(&incomes, 300000)[0] {
        RowOutcome::Failed { error, .. } => assert_eq!(error.message(), "Invalid start month: 4"),
        _ => panic!("expected a failed row"),
    }
    match &import_incomes_sheet(&incomes, 262142)[0] {
        RowOutcome::Failed { error, .. } => assert_eq!(error.message(), "Invalid end month: 12"),
        _ => panic!("expected a failed row"),
    }
}
