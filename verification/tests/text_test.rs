use finance_analysis::text::{
    chars_of, contains_text, normalize_number_text, parse_u32, push_decimal, same_text, text_of,
};

#[test]
fn reads_unsigned_numbers_like_std() {
    for s in ["7", "+7", "", "+", "-1", "12", "0012", "4294967295", "4294967296", "1a", " 1", "99999999999"] {
        assert_eq!(parse_u32(s), s.parse::<u32>().ok(), "text {:?}", s);
    }
}

#[test]
fn finds_infixes() {
    assert!(contains_text("Variable Kosten 2025", "Variable Kosten"));
    assert!(contains_text("abc", ""));
    assert!(!contains_text("Variable", "Variable Kosten"));
    assert!(contains_text("jährlich", "jähr"));
    assert!(!contains_text("monthly", "year"));
}

#[test]
fn writes_decimal_numbers() {
    let mut s = String::from("n=");
    push_decimal(&mut s, 0);
    s.push(' ');
    push_decimal(&mut s, 1234567890123);
    assert_eq!(s, "n=0 1234567890123");
}

#[test]
fn rewrites_german_number_notation() {
    assert_eq!(normalize_number_text("1.234,56"), "1234.56");
    assert_eq!(normalize_number_text("12,5"), "12.5");
    assert_eq!(normalize_number_text("62"), "62");
    assert_eq!(normalize_number_text("62.5"), "62.5");
    assert_eq!(normalize_number_text("1.234,56").parse::<f64>().unwrap(), 1234.56);
}

#[test]
fn text_helpers() {
    assert!(same_text("Freizeit", "Freizeit"));
    assert!(!same_text("Freizeit", "freizeit"));
    assert_eq!(chars_of("aä"), vec!['a', 'ä']);
    assert_eq!(text_of(&vec!['x', 'y']), "xy");
}
