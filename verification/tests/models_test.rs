use finance_analysis::models::{NecessityCategory, Periodicity, TypeCategory};

const ALL_TYPES: [TypeCategory; 10] = [
    TypeCategory::T1,
    TypeCategory::T2,
    TypeCategory::T3,
    TypeCategory::T4,
    TypeCategory::T5,
    TypeCategory::T6,
    TypeCategory::T7,
    TypeCategory::T8,
    TypeCategory::T9,
    TypeCategory::T10,
];

#[test]
fn type_category_display_names() {
    assert_eq!(TypeCategory::T1.as_str(), "Lebensmittel&Haushaltsbedarf");
    assert_eq!(TypeCategory::T2.as_str(), "Freizeit");
    assert_eq!(TypeCategory::T3.as_str(), "Mobilität");
    assert_eq!(TypeCategory::T8.as_str(), "Miete");
    assert_eq!(TypeCategory::T10.as_str(), "Sonstiges");
}

#[test]
fn type_category_names_read_back_except_rent() {
    for c in ALL_TYPES {
        if c == TypeCategory::T8 {
            continue;
        }
        assert_eq!(TypeCategory::from_str(c.as_str()), Some(c));
    }
    assert_eq!(TypeCategory::from_str("Miete"), None);
    assert_eq!(TypeCategory::from_str("MieteC"), Some(TypeCategory::T8));
    assert_eq!(TypeCategory::from_str("freizeit"), None);
    assert_eq!(TypeCategory::from_str(""), None);
}

#[test]
fn type_category_codes_round_trip() {
    for (i, c) in ALL_TYPES.iter().enumerate() {
        let code = c.code();
        assert_eq!(code, format!("T{}", i + 1));
        assert_eq!(TypeCategory::from_code(code), Some(*c));
    }
    assert_eq!(TypeCategory::from_code("T11"), None);
    assert_eq!(TypeCategory::from_code("t1"), None);
}

#[test]
fn necessity_category_names_and_codes() {
    assert_eq!(NecessityCategory::N1.as_str(), "Notwendig");
    assert_eq!(NecessityCategory::N2.as_str(), "Nützlich");
    assert_eq!(NecessityCategory::N3.as_str(), "Luxus");
    for c in [NecessityCategory::N1, NecessityCategory::N2, NecessityCategory::N3] {
        assert_eq!(NecessityCategory::from_str(c.as_str()), Some(c));
        assert_eq!(NecessityCategory::from_code(c.code()), Some(c));
    }
    assert_eq!(NecessityCategory::from_str("Nuetzlich"), None);
    assert_eq!(NecessityCategory::from_code("N4"), None);
}

#[test]
fn periodicity_names() {
    assert_eq!(Periodicity::Monthly.as_str(), "monthly");
    assert_eq!(Periodicity::Yearly.as_str(), "yearly");
    assert_eq!(Periodicity::from_str("monthly"), Some(Periodicity::Monthly));
    assert_eq!(Periodicity::from_str("yearly"), Some(Periodicity::Yearly));
    assert_eq!(Periodicity::from_str("Yearly"), None);
}
