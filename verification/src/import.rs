//! The rules by which the rows of an expenses sheet and an incomes sheet
//! become ledger entries.
use vstd::prelude::*;

use crate::calendar::{add_days, month_end, month_end_spec, parse_date, parsed_date, shifted_date, valid_ymd, Date};
use crate::models::{
    lemma_necessity_code_read_back, lemma_necessity_code_round_trip, lemma_type_code_read_back,
    lemma_type_code_round_trip, necessity_code, type_code, necessity_from_code, type_from_code, NecessityCategory, Periodicity, RegularEntry,
    RegularEntryView, SingularEntry, SingularEntryView, TypeCategory,
};
use crate::text::{
    ascii_lowercase, chars_of, contains_text, decimal, has_infix, is_ascii_text, lowercase, lowercased, parse_u32, push_decimal,
    text_of, trim_text, trimmed, u32_reading,
};

verus! {

// ─── Category mapping ────────────────────────────────────────────────────────

/// The value of the first pair whose key is `key`.
pub open spec fn lookup(entries: Seq<(String, String)>, key: Seq<char>) -> Option<Seq<char>>
    decreases entries.len(),
{
    if entries.len() == 0 {
        None
    } else if entries[0].0@ == key {
        Some(entries[0].1@)
    } else {
        lookup(entries.drop_first(), key)
    }
}

/// The value stored under a key.
pub fn lookup_value(entries: &Vec<(String, String)>, key: &str) -> (r: Option<String>)
    ensures
        r matches Some(v) ==> lookup(entries@, key@) == Some(v@),
        r is None ==> lookup(entries@, key@) is None,
{
    let mut i: usize = 0;
    assert(entries@.skip(0) =~= entries@);
    while i < entries.len()
        invariant
            i <= entries.len(),
            lookup(entries@, key@) == lookup(entries@.skip(i as int), key@),
        decreases entries.len() - i,
    {
        let ghost rest = entries@.skip(i as int);
        assert(rest.drop_first() =~= entries@.skip(i + 1));
        assert(rest[0] == entries@[i as int]);
        if entries[i].0.as_str().to_owned() == key.to_owned() {
            return Some(entries[i].1.clone());
        }
        i = i + 1;
    }
    proof {
        assert(entries@.skip(i as int).len() == 0);
    }
    None
}

/// How the values found in a spreadsheet are mapped to category codes.
pub struct CategoryMapping {
    pub type_category_recurring: Vec<(String, String)>,
    pub type_category_singular: Vec<(String, String)>,
    pub necessity_category: Vec<(String, String)>,
}

// ─── Errors ──────────────────────────────────────────────────────────────────

/// Why a row could not be read.
#[derive(Debug)]
pub enum ImportError {
    MissingCell,
    /// The row and column indexes, counted from zero, of an empty cell.
    EmptyCell { row: usize, col: usize },
    AmountUnparsable,
    AmountNotNumeric,
    MissingMonth,
    MonthUnparsable,
    MonthFormat,
    MonthOutOfRange(u32),
    MissingDate,
    DateUnparsable,
    DateFormat,
    /// A serial day number that the calendar cannot place.
    DateOutOfRange,
    UnknownPeriodicity(String),
    UnknownRecurringType(String),
    UnknownSingularType(String),
    UnknownNecessity(String),
    InvalidMappedType(String),
    InvalidMappedNecessity(String),
    InvalidStartMonth(u32),
    InvalidEndMonth(u32),
}

/// An import error with its texts as character sequences.
pub enum ImportErrorView {
    MissingCell,
    EmptyCell { row: usize, col: usize },
    AmountUnparsable,
    AmountNotNumeric,
    MissingMonth,
    MonthUnparsable,
    MonthFormat,
    MonthOutOfRange(u32),
    MissingDate,
    DateUnparsable,
    DateFormat,
    DateOutOfRange,
    UnknownPeriodicity(Seq<char>),
    UnknownRecurringType(Seq<char>),
    UnknownSingularType(Seq<char>),
    UnknownNecessity(Seq<char>),
    InvalidMappedType(Seq<char>),
    InvalidMappedNecessity(Seq<char>),
    InvalidStartMonth(u32),
    InvalidEndMonth(u32),
}

impl View for ImportError {
    type V = ImportErrorView;

    open spec fn view(&self) -> ImportErrorView {
        match self {
            ImportError::MissingCell => ImportErrorView::MissingCell,
            ImportError::EmptyCell { row, col } => ImportErrorView::EmptyCell { row: *row, col: *col },
            ImportError::AmountUnparsable => ImportErrorView::AmountUnparsable,
            ImportError::AmountNotNumeric => ImportErrorView::AmountNotNumeric,
            ImportError::MissingMonth => ImportErrorView::MissingMonth,
            ImportError::MonthUnparsable => ImportErrorView::MonthUnparsable,
            ImportError::MonthFormat => ImportErrorView::MonthFormat,
            ImportError::MonthOutOfRange(m) => ImportErrorView::MonthOutOfRange(*m),
            ImportError::MissingDate => ImportErrorView::MissingDate,
            ImportError::DateUnparsable => ImportErrorView::DateUnparsable,
            ImportError::DateFormat => ImportErrorView::DateFormat,
            ImportError::DateOutOfRange => ImportErrorView::DateOutOfRange,
            ImportError::UnknownPeriodicity(s) => ImportErrorView::UnknownPeriodicity(s@),
            ImportError::UnknownRecurringType(s) => ImportErrorView::UnknownRecurringType(s@),
            ImportError::UnknownSingularType(s) => ImportErrorView::UnknownSingularType(s@),
            ImportError::UnknownNecessity(s) => ImportErrorView::UnknownNecessity(s@),
            ImportError::InvalidMappedType(s) => ImportErrorView::InvalidMappedType(s@),
            ImportError::InvalidMappedNecessity(s) => ImportErrorView::InvalidMappedNecessity(s@),
            ImportError::InvalidStartMonth(m) => ImportErrorView::InvalidStartMonth(*m),
            ImportError::InvalidEndMonth(m) => ImportErrorView::InvalidEndMonth(*m),
        }
    }
}

/// A text between single quotes.
pub open spec fn quoted(s: Seq<char>) -> Seq<char> {
    seq!['\''] + s + seq!['\'']
}

/// The message that reports an import error.
pub open spec fn error_message(e: ImportErrorView) -> Seq<char> {
    match e {
        ImportErrorView::MissingCell => "Missing cell"@,
        ImportErrorView::EmptyCell { row, col } => "Empty cell at row "@ + decimal((row + 1) as nat)
            + ", col "@ + decimal((col + 1) as nat),
        ImportErrorView::AmountUnparsable => "Failed to parse amount"@,
        ImportErrorView::AmountNotNumeric => "Invalid number format"@,
        ImportErrorView::MissingMonth => "Missing month"@,
        ImportErrorView::MonthUnparsable => "Failed to parse month"@,
        ImportErrorView::MonthFormat => "Invalid month format"@,
        ImportErrorView::MonthOutOfRange(m) => "Month out of range: "@ + decimal(m as nat),
        ImportErrorView::MissingDate => "Missing date"@,
        ImportErrorView::DateUnparsable => "Failed to parse date string"@,
        ImportErrorView::DateFormat => "Invalid date format"@,
        ImportErrorView::DateOutOfRange => "Date out of range"@,
        ImportErrorView::UnknownPeriodicity(s) => "Unknown periodicity: "@ + quoted(s),
        ImportErrorView::UnknownRecurringType(s) => "Unknown recurring type category: "@ + quoted(s),
        ImportErrorView::UnknownSingularType(s) => "Unknown singular type category: "@ + quoted(s),
        ImportErrorView::UnknownNecessity(s) => "Unknown necessity category: "@ + quoted(s),
        ImportErrorView::InvalidMappedType(s) => "Invalid mapped type category: "@ + quoted(s),
        ImportErrorView::InvalidMappedNecessity(s) => "Invalid mapped necessity category: "@
            + quoted(s),
        ImportErrorView::InvalidStartMonth(m) => "Invalid start month: "@ + decimal(m as nat),
        ImportErrorView::InvalidEndMonth(m) => "Invalid end month: "@ + decimal(m as nat),
    }
}

fn text_with_number(prefix: &str, n: u128) -> (r: String)
    ensures
        r@ == prefix@ + decimal(n as nat),
{
    let mut out = prefix.to_owned();
    push_decimal(&mut out, n);
    out
}

fn text_with_quoted(prefix: &str, s: &String) -> (r: String)
    ensures
        r@ == prefix@ + quoted(s@),
{
    let mut out = prefix.to_owned();
    out.append("'");
    out.append(s.as_str());
    out.append("'");
    proof {
        reveal_strlit("'");
        assert(out@ =~= prefix@ + quoted(s@));
    }
    out
}

impl ImportError {
    /// The message that reports this error.
    pub fn message(&self) -> (r: String)
        ensures
            r@ == error_message(self@),
    {
        match self {
            ImportError::MissingCell => "Missing cell".to_owned(),
            ImportError::EmptyCell { row, col } => {
                let mut out = text_with_number("Empty cell at row ", *row as u128 + 1);
                out.append(", col ");
                push_decimal(&mut out, *col as u128 + 1);
                out
            },
            ImportError::AmountUnparsable => "Failed to parse amount".to_owned(),
            ImportError::AmountNotNumeric => "Invalid number format".to_owned(),
            ImportError::MissingMonth => "Missing month".to_owned(),
            ImportError::MonthUnparsable => "Failed to parse month".to_owned(),
            ImportError::MonthFormat => "Invalid month format".to_owned(),
            ImportError::MonthOutOfRange(m) => text_with_number("Month out of range: ", *m as u128),
            ImportError::MissingDate => "Missing date".to_owned(),
            ImportError::DateUnparsable => "Failed to parse date string".to_owned(),
            ImportError::DateFormat => "Invalid date format".to_owned(),
            ImportError::DateOutOfRange => "Date out of range".to_owned(),
            ImportError::UnknownPeriodicity(s) => text_with_quoted("Unknown periodicity: ", s),
            ImportError::UnknownRecurringType(s) => text_with_quoted(
                "Unknown recurring type category: ",
                s,
            ),
            ImportError::UnknownSingularType(s) => text_with_quoted(
                "Unknown singular type category: ",
                s,
            ),
            ImportError::UnknownNecessity(s) => text_with_quoted("Unknown necessity category: ", s),
            ImportError::InvalidMappedType(s) => text_with_quoted(
                "Invalid mapped type category: ",
                s,
            ),
            ImportError::InvalidMappedNecessity(s) => text_with_quoted(
                "Invalid mapped necessity category: ",
                s,
            ),
            ImportError::InvalidStartMonth(m) => text_with_number("Invalid start month: ", *m as u128),
            ImportError::InvalidEndMonth(m) => text_with_number("Invalid end month: ", *m as u128),
        }
    }
}

// ─── Mapping lookups ─────────────────────────────────────────────────────────

/// The type category a spreadsheet value maps to under a table, with the error
/// for an unknown value given by `unknown`.
pub open spec fn mapped_type(
    table: Seq<(String, String)>,
    value: Seq<char>,
    unknown: ImportErrorView,
) -> Result<TypeCategory, ImportErrorView> {
    match lookup(table, value) {
        None => Err(unknown),
        Some(code) => match type_from_code(code) {
            Some(c) => Ok(c),
            None => Err(ImportErrorView::InvalidMappedType(code)),
        },
    }
}

/// The necessity category a spreadsheet value maps to.
pub open spec fn mapped_necessity(table: Seq<(String, String)>, value: Seq<char>) -> Result<
    NecessityCategory,
    ImportErrorView,
> {
    match lookup(table, value) {
        None => Err(ImportErrorView::UnknownNecessity(value)),
        Some(code) => match necessity_from_code(code) {
            Some(c) => Ok(c),
            None => Err(ImportErrorView::InvalidMappedNecessity(code)),
        },
    }
}

/// A spreadsheet value maps to a type category exactly when the mapping table
/// gives, for that value, the category's storage code as its whole value.
pub proof fn lemma_mapped_type_is_code(
    table: Seq<(String, String)>,
    value: Seq<char>,
    unknown: ImportErrorView,
    c: TypeCategory,
)
    ensures
        (mapped_type(table, value, unknown) == Ok::<TypeCategory, ImportErrorView>(c)) <==> lookup(
            table,
            value,
        ) == Some(type_code(c)),
{
    lemma_type_code_round_trip(c);
    if let Some(code) = lookup(table, value) {
        if type_from_code(code) is Some {
            lemma_type_code_read_back(code);
        }
    }
}

/// A spreadsheet value maps to a necessity category exactly when the mapping
/// table gives, for that value, the category's storage code as its whole value.
pub proof fn lemma_mapped_necessity_is_code(
    table: Seq<(String, String)>,
    value: Seq<char>,
    c: NecessityCategory,
)
    ensures
        (mapped_necessity(table, value) == Ok::<NecessityCategory, ImportErrorView>(c)) <==> lookup(
            table,
            value,
        ) == Some(necessity_code(c)),
{
    lemma_necessity_code_round_trip(c);
    if let Some(code) = lookup(table, value) {
        if necessity_from_code(code) is Some {
            lemma_necessity_code_read_back(code);
        }
    }
}

fn type_of_code(code: String) -> (r: Result<TypeCategory, ImportError>)
    ensures
        r matches Ok(c) ==> type_from_code(code@) == Some(c),
        r matches Err(e) ==> type_from_code(code@) is None && e@
            == ImportErrorView::InvalidMappedType(code@),
{
    match TypeCategory::from_code(code.as_str()) {
        Some(c) => Ok(c),
        None => Err(ImportError::InvalidMappedType(code)),
    }
}

impl CategoryMapping {
    /// The type category of a value in the recurring-expense section.
    pub fn map_type_recurring(&self, excel_value: &str) -> (r: Result<TypeCategory, ImportError>)
        ensures
            match r {
                Ok(c) => mapped_type(
                    self.type_category_recurring@,
                    excel_value@,
                    ImportErrorView::UnknownRecurringType(excel_value@),
                ) == Ok::<TypeCategory, ImportErrorView>(c),
                Err(e) => mapped_type(
                    self.type_category_recurring@,
                    excel_value@,
                    ImportErrorView::UnknownRecurringType(excel_value@),
                ) == Err::<TypeCategory, ImportErrorView>(e@),
            },
    {
        match lookup_value(&self.type_category_recurring, excel_value) {
            None => Err(ImportError::UnknownRecurringType(excel_value.to_owned())),
            Some(code) => type_of_code(code),
        }
    }

    /// The type category of a value in the one-time-expense section.
    pub fn map_type_singular(&self, excel_value: &str) -> (r: Result<TypeCategory, ImportError>)
        ensures
            match r {
                Ok(c) => mapped_type(
                    self.type_category_singular@,
                    excel_value@,
                    ImportErrorView::UnknownSingularType(excel_value@),
                ) == Ok::<TypeCategory, ImportErrorView>(c),
                Err(e) => mapped_type(
                    self.type_category_singular@,
                    excel_value@,
                    ImportErrorView::UnknownSingularType(excel_value@),
                ) == Err::<TypeCategory, ImportErrorView>(e@),
            },
    {
        match lookup_value(&self.type_category_singular, excel_value) {
            None => Err(ImportError::UnknownSingularType(excel_value.to_owned())),
            Some(code) => type_of_code(code),
        }
    }

    /// The necessity category of a value.
    pub fn map_necessity(&self, excel_value: &str) -> (r: Result<NecessityCategory, ImportError>)
        ensures
            match r {
                Ok(c) => mapped_necessity(self.necessity_category@, excel_value@) == Ok::<
                    NecessityCategory,
                    ImportErrorView,
                >(c),
                Err(e) => mapped_necessity(self.necessity_category@, excel_value@) == Err::<
                    NecessityCategory,
                    ImportErrorView,
                >(e@),
            },
    {
        match lookup_value(&self.necessity_category, excel_value) {
            None => Err(ImportError::UnknownNecessity(excel_value.to_owned())),
            Some(code) => match NecessityCategory::from_code(code.as_str()) {
                Some(c) => Ok(c),
                None => Err(ImportError::InvalidMappedNecessity(code)),
            },
        }
    }
}

// ─── Periodicity ─────────────────────────────────────────────────────────────

/// How a periodicity text is read: after lowercasing, a text that mentions a
/// month is monthly, else one that mentions a year is yearly.
pub open spec fn periodicity_reading(s: Seq<char>) -> Result<Periodicity, ImportErrorView> {
    let lower = lowercased(s);
    if has_infix(lower, "month"@) || has_infix(lower, "monat"@) {
        Ok(Periodicity::Monthly)
    } else if has_infix(lower, "year"@) || has_infix(lower, "jahr"@) || has_infix(lower, "jähr"@) {
        Ok(Periodicity::Yearly)
    } else {
        Err(ImportErrorView::UnknownPeriodicity(s))
    }
}

/// Reads a periodicity text such as "monatlich", "jährlich", "monthly" or "yearly".
/// Letter case does not matter: an ASCII text that mentions a month in any
/// case is monthly.
pub fn parse_periodicity(s: &str) -> (r: Result<Periodicity, ImportError>)
    ensures
        match r {
            Ok(p) => periodicity_reading(s@) == Ok::<Periodicity, ImportErrorView>(p),
            Err(e) => periodicity_reading(s@) == Err::<Periodicity, ImportErrorView>(e@),
        },
        is_ascii_text(s@) ==> lowercased(s@) == ascii_lowercase(s@),
        is_ascii_text(s@) && (has_infix(ascii_lowercase(s@), "month"@) || has_infix(
            ascii_lowercase(s@),
            "monat"@,
        )) ==> (r matches Ok(p) && p == Periodicity::Monthly),
{
    let lower = lowercase(s);
    let l = lower.as_str();
    if contains_text(l, "month") || contains_text(l, "monat") {
        Ok(Periodicity::Monthly)
    } else if contains_text(l, "year") || contains_text(l, "jahr") || contains_text(l, "jähr") {
        Ok(Periodicity::Yearly)
    } else {
        Err(ImportError::UnknownPeriodicity(s.to_owned()))
    }
}

/// Reading a periodicity does not depend on letter case: two texts that lowercase
/// to the same text, where lowercasing acts on them as on ASCII letters, are
/// read as the same periodicity.
pub proof fn lemma_periodicity_ignores_case(s: Seq<char>, t: Seq<char>)
    requires
        lowercased(s) == ascii_lowercase(s),
        lowercased(t) == ascii_lowercase(t),
        ascii_lowercase(s) == ascii_lowercase(t),
    ensures
        (periodicity_reading(s) is Ok) == (periodicity_reading(t) is Ok),
        periodicity_reading(s) is Ok ==> periodicity_reading(s) == periodicity_reading(t),
{
}

/// A text that mentions a month ("month" or "monat") in any case of its
/// letters is read as monthly, and one that mentions a year ("year", "jahr")
/// and no month as yearly.
pub proof fn lemma_periodicity_words_in_any_case(s: Seq<char>)
    requires
        lowercased(s) == ascii_lowercase(s),
    ensures
        has_infix(ascii_lowercase(s), "month"@) || has_infix(ascii_lowercase(s), "monat"@)
            ==> periodicity_reading(s) == Ok::<Periodicity, ImportErrorView>(Periodicity::Monthly),
        !has_infix(ascii_lowercase(s), "month"@) && !has_infix(ascii_lowercase(s), "monat"@) && (
        has_infix(ascii_lowercase(s), "year"@) || has_infix(ascii_lowercase(s), "jahr"@))
            ==> periodicity_reading(s) == Ok::<Periodicity, ImportErrorView>(Periodicity::Yearly),
{
}

// ─── Spreadsheet cells ───────────────────────────────────────────────────────

/// The content of a spreadsheet cell, as far as the import rules look at it.
/// A number holds the whole part of its value, cut towards zero as Rust's `as`
/// casts do, once as an `i64` and once as a `u32`.
pub enum CellValue {
    Empty,
    Int(i64),
    Float { whole: i64, whole_u32: u32 },
    Text(String),
    /// A date-time value as a serial day number, cut to whole days.
    DateTime { whole_days: i64 },
    /// A date-time value in ISO 8601 notation.
    DateTimeIso(String),
    Other,
}

/// What a cell gives when it is read as an amount.
pub enum AmountReading<A> {
    Value { amount: A, is_zero: bool },
    /// A text that is not a number.
    Unparsable,
    /// Neither a number, nor a text, nor empty.
    NotNumeric,
}

/// A spreadsheet cell: its content, the text it shows, and its amount reading.
pub struct Cell<A> {
    pub value: CellValue,
    pub display: String,
    pub amount: AmountReading<A>,
}

/// A sheet as rows of cells; a cell that lies outside its row is missing.
pub struct Sheet<A> {
    pub rows: Vec<Vec<Cell<A>>>,
}

pub open spec fn cell_at<A>(s: Sheet<A>, r: int, c: int) -> Option<Cell<A>> {
    if 0 <= r < s.rows@.len() && 0 <= c < s.rows@[r]@.len() {
        Some(s.rows@[r]@[c])
    } else {
        None
    }
}

fn get_cell<'a, A>(s: &'a Sheet<A>, r: usize, c: usize) -> (x: Option<&'a Cell<A>>)
    ensures
        x matches Some(cell) ==> cell_at(*s, r as int, c as int) == Some(*cell),
        x is None ==> cell_at(*s, r as int, c as int) is None,
{
    if r < s.rows.len() && c < s.rows[r].len() {
        Some(&s.rows[r][c])
    } else {
        None
    }
}

/// The trimmed text of a cell, which must not be empty.
pub open spec fn string_reading<A>(s: Sheet<A>, r: int, c: int) -> Result<Seq<char>, ImportErrorView> {
    match cell_at(s, r, c) {
        None => Err(ImportErrorView::MissingCell),
        Some(cell) => {
            let t = trimmed(cell.display@);
            if t.len() == 0 {
                Err(ImportErrorView::EmptyCell { row: r as usize, col: c as usize })
            } else {
                Ok(t)
            }
        },
    }
}

fn get_string<A>(s: &Sheet<A>, r: usize, c: usize) -> (res: Result<String, ImportError>)
    ensures
        match res {
            Ok(t) => string_reading(*s, r as int, c as int) == Ok::<Seq<char>, ImportErrorView>(t@),
            Err(e) => string_reading(*s, r as int, c as int) == Err::<Seq<char>, ImportErrorView>(e@),
        },
{
    match get_cell(s, r, c) {
        None => Err(ImportError::MissingCell),
        Some(cell) => {
            let t = trim_text(cell.display.as_str());
            if t.is_empty() {
                Err(ImportError::EmptyCell { row: r, col: c })
            } else {
                Ok(t.to_owned())
            }
        },
    }
}

/// The amount of a cell and whether it is zero.
pub open spec fn amount_reading<A>(s: Sheet<A>, r: int, c: int) -> Result<(A, bool), ImportErrorView> {
    match cell_at(s, r, c) {
        None => Err(ImportErrorView::MissingCell),
        Some(cell) => match cell.amount {
            AmountReading::Value { amount, is_zero } => Ok((amount, is_zero)),
            AmountReading::Unparsable => Err(ImportErrorView::AmountUnparsable),
            AmountReading::NotNumeric => Err(ImportErrorView::AmountNotNumeric),
        },
    }
}

fn get_amount<A: Copy>(s: &Sheet<A>, r: usize, c: usize) -> (res: Result<(A, bool), ImportError>)
    ensures
        match res {
            Ok(v) => amount_reading(*s, r as int, c as int) == Ok::<(A, bool), ImportErrorView>(v),
            Err(e) => amount_reading(*s, r as int, c as int) == Err::<(A, bool), ImportErrorView>(e@),
        },
{
    match get_cell(s, r, c) {
        None => Err(ImportError::MissingCell),
        Some(cell) => match &cell.amount {
            AmountReading::Value { amount, is_zero } => Ok((*amount, *is_zero)),
            AmountReading::Unparsable => Err(ImportError::AmountUnparsable),
            AmountReading::NotNumeric => Err(ImportError::AmountNotNumeric),
        },
    }
}

/// A month number from 1 to 12 read from a cell.
pub open spec fn month_reading<A>(s: Sheet<A>, r: int, c: int) -> Result<u32, ImportErrorView> {
    match cell_at(s, r, c) {
        None => Err(ImportErrorView::MissingMonth),
        Some(cell) => {
            let raw: Result<u32, ImportErrorView> = match cell.value {
                CellValue::Int(i) => Ok(i as u32),
                CellValue::Float { whole: _, whole_u32 } => Ok(whole_u32),
                CellValue::Text(t) => match u32_reading(t@) {
                    Some(v) => Ok(v),
                    None => Err(ImportErrorView::MonthUnparsable),
                },
                _ => Err(ImportErrorView::MonthFormat),
            };
            match raw {
                Ok(m) => if m < 1 || m > 12 {
                    Err(ImportErrorView::MonthOutOfRange(m))
                } else {
                    Ok(m)
                },
                Err(e) => Err(e),
            }
        },
    }
}

fn get_month<A>(s: &Sheet<A>, r: usize, c: usize) -> (res: Result<u32, ImportError>)
    ensures
        match res {
            Ok(m) => month_reading(*s, r as int, c as int) == Ok::<u32, ImportErrorView>(m),
            Err(e) => month_reading(*s, r as int, c as int) == Err::<u32, ImportErrorView>(e@),
        },
{
    match get_cell(s, r, c) {
        None => Err(ImportError::MissingMonth),
        Some(cell) => {
            let month: u32 = match &cell.value {
                CellValue::Int(i) => *i as u32,
                CellValue::Float { whole: _, whole_u32 } => *whole_u32,
                CellValue::Text(t) => match parse_u32(t.as_str()) {
                    Some(v) => v,
                    None => {
                        return Err(ImportError::MonthUnparsable);
                    },
                },
                _ => {
                    return Err(ImportError::MonthFormat);
                },
            };
            if month < 1 || month > 12 {
                Err(ImportError::MonthOutOfRange(month))
            } else {
                Ok(month)
            }
        },
    }
}

// ─── Dates in cells ──────────────────────────────────────────────────────────

/// The part of a text before its first `T`, or the whole text.
pub open spec fn before_t(s: Seq<char>) -> Seq<char>
    decreases s.len(),
{
    if s.len() == 0 {
        s
    } else if s[0] == 'T' {
        Seq::empty()
    } else {
        seq![s[0]] + before_t(s.drop_first())
    }
}

proof fn lemma_before_t(s: Seq<char>, i: int)
    requires
        0 <= i <= s.len(),
        forall|k: int| 0 <= k < i ==> s[k] != 'T',
        i == s.len() || s[i] == 'T',
    ensures
        before_t(s) == s.subrange(0, i),
    decreases s.len(),
{
    if s.len() == 0 {
        assert(s.subrange(0, i) =~= s);
    } else if i == 0 {
        assert(s.subrange(0, i) =~= Seq::<char>::empty());
    } else {
        lemma_before_t(s.drop_first(), i - 1);
        assert(seq![s[0]] + s.drop_first().subrange(0, i - 1) =~= s.subrange(0, i));
    }
}

fn date_part(s: &str) -> (r: String)
    ensures
        r@ == before_t(s@),
{
    let cs = chars_of(s);
    let mut i: usize = 0;
    while i < cs.len() && cs[i] != 'T'
        invariant
            cs@ == s@,
            i <= cs.len(),
            forall|k: int| 0 <= k < i ==> cs@[k] != 'T',
        decreases cs.len() - i,
    {
        i = i + 1;
    }
    proof {
        lemma_before_t(s@, i as int);
    }
    let mut part: Vec<char> = Vec::new();
    let mut j: usize = 0;
    while j < i
        invariant
            j <= i <= cs.len(),
            part@ == cs@.subrange(0, j as int),
        decreases i - j,
    {
        part.push(cs[j]);
        j = j + 1;
        assert(part@ =~= cs@.subrange(0, j as int));
    }
    text_of(&part)
}

/// A date given as year, month and day.
pub open spec fn date_from_triple(t: (int, int, int)) -> Date {
    Date { year: t.0 as i32, month: t.1 as u32, day: t.2 as u32 }
}

/// The day a serial day number stands for, counting from 1899-12-30.
pub open spec fn serial_reading(n: int) -> Result<Date, ImportErrorView> {
    match shifted_date(1899, 12, 30, n) {
        Some(t) => Ok(date_from_triple(t)),
        None => Err(ImportErrorView::DateOutOfRange),
    }
}

/// The day a text names under the first format that reads it: `DD.MM.YY`,
/// `DD.MM.YYYY`, `YYYY-MM-DD`, `DD/MM/YYYY`.
pub open spec fn text_date_reading(t: Seq<char>) -> Result<Date, ImportErrorView> {
    if parsed_date(t, "%d.%m.%y"@) is Some {
        Ok(date_from_triple(parsed_date(t, "%d.%m.%y"@)->0))
    } else if parsed_date(t, "%d.%m.%Y"@) is Some {
        Ok(date_from_triple(parsed_date(t, "%d.%m.%Y"@)->0))
    } else if parsed_date(t, "%Y-%m-%d"@) is Some {
        Ok(date_from_triple(parsed_date(t, "%Y-%m-%d"@)->0))
    } else if parsed_date(t, "%d/%m/%Y"@) is Some {
        Ok(date_from_triple(parsed_date(t, "%d/%m/%Y"@)->0))
    } else {
        Err(ImportErrorView::DateUnparsable)
    }
}

/// The day a cell holds.
pub open spec fn cell_date_reading<A>(cell: Cell<A>) -> Result<Date, ImportErrorView> {
    match cell.value {
        CellValue::DateTime { whole_days } => serial_reading(whole_days as int),
        CellValue::Float { whole, whole_u32: _ } => serial_reading(whole as int),
        CellValue::Int(i) => serial_reading(i as int),
        CellValue::DateTimeIso(t) => match parsed_date(before_t(t@), "%Y-%m-%d"@) {
            Some(d) => Ok(date_from_triple(d)),
            None => Err(ImportErrorView::DateUnparsable),
        },
        CellValue::Text(t) => text_date_reading(t@),
        _ => Err(ImportErrorView::DateFormat),
    }
}

fn serial_date(n: i64) -> (r: Result<Date, ImportError>)
    ensures
        match r {
            Ok(d) => serial_reading(n as int) == Ok::<Date, ImportErrorView>(d) && d.wf(),
            Err(e) => serial_reading(n as int) == Err::<Date, ImportErrorView>(e@),
        },
{
    let base = Date { year: 1899, month: 12, day: 30 };
    match add_days(&base, n) {
        Some(d) => Ok(d),
        None => Err(ImportError::DateOutOfRange),
    }
}

fn parse_with(t: &str, fmt: &str) -> (r: Option<Date>)
    ensures
        r is Some <==> parsed_date(t@, fmt@) is Some,
        r matches Some(d) ==> d == date_from_triple(parsed_date(t@, fmt@)->0) && d.wf(),
{
    parse_date(t, fmt)
}

/// Reads the day a cell holds: a serial day number, an ISO date-time, or a
/// date text in one of the accepted notations.
pub fn parse_excel_date<A>(cell: &Cell<A>) -> (r: Result<Date, ImportError>)
    ensures
        match r {
            Ok(d) => cell_date_reading(*cell) == Ok::<Date, ImportErrorView>(d) && d.wf(),
            Err(e) => cell_date_reading(*cell) == Err::<Date, ImportErrorView>(e@),
        },
{
    match &cell.value {
        CellValue::DateTime { whole_days } => serial_date(*whole_days),
        CellValue::Float { whole, whole_u32: _ } => serial_date(*whole),
        CellValue::Int(i) => serial_date(*i),
        CellValue::DateTimeIso(t) => {
            let part = date_part(t.as_str());
            match parse_with(part.as_str(), "%Y-%m-%d") {
                Some(d) => Ok(d),
                None => Err(ImportError::DateUnparsable),
            }
        },
        CellValue::Text(t) => {
            let s = t.as_str();
            if let Some(d) = parse_with(s, "%d.%m.%y") {
                Ok(d)
            } else if let Some(d) = parse_with(s, "%d.%m.%Y") {
                Ok(d)
            } else if let Some(d) = parse_with(s, "%Y-%m-%d") {
                Ok(d)
            } else if let Some(d) = parse_with(s, "%d/%m/%Y") {
                Ok(d)
            } else {
                Err(ImportError::DateUnparsable)
            }
        },
        _ => Err(ImportError::DateFormat),
    }
}

/// The last day of month `month` of `year`, for a month number from 1 to 12.
pub open spec fn month_end_reading(year: i32, month: u32) -> Result<Date, ImportErrorView> {
    match month_end_spec(year as int, month as int) {
        Some(d) => Ok(d),
        None => Err(ImportErrorView::InvalidEndMonth(month)),
    }
}

fn month_end_date(year: i32, month: u32) -> (r: Result<Date, ImportError>)
    requires
        1 <= month <= 12,
    ensures
        match r {
            Ok(d) => month_end_reading(year, month) == Ok::<Date, ImportErrorView>(d) && d.wf(),
            Err(e) => month_end_reading(year, month) == Err::<Date, ImportErrorView>(e@),
        },
{
    match month_end(year, month) {
        Some(d) => Ok(d),
        None => Err(ImportError::InvalidEndMonth(month)),
    }
}

/// The first day of month `month` of `year`.
pub open spec fn month_start_reading(year: i32, month: u32) -> Result<Date, ImportErrorView> {
    if valid_ymd(year as int, month as int, 1) {
        Ok(Date { year, month, day: 1 })
    } else {
        Err(ImportErrorView::InvalidStartMonth(month))
    }
}

fn month_start_date(year: i32, month: u32) -> (r: Result<Date, ImportError>)
    ensures
        match r {
            Ok(d) => month_start_reading(year, month) == Ok::<Date, ImportErrorView>(d) && d.wf(),
            Err(e) => month_start_reading(year, month) == Err::<Date, ImportErrorView>(e@),
        },
{
    match Date::from_ymd_opt(year, month, 1) {
        Some(d) => Ok(d),
        None => Err(ImportError::InvalidStartMonth(month)),
    }
}

// ─── Rows ────────────────────────────────────────────────────────────────────

pub open spec fn regular_result_view<A>(r: Result<Option<RegularEntry<A>>, ImportError>) -> Result<
    Option<RegularEntryView<A>>,
    ImportErrorView,
> {
    match r {
        Ok(Some(e)) => Ok(Some(e@)),
        Ok(None) => Ok(None),
        Err(e) => Err(e@),
    }
}

pub open spec fn singular_result_view<A>(r: Result<Option<SingularEntry<A>>, ImportError>) -> Result<
    Option<SingularEntryView<A>>,
    ImportErrorView,
> {
    match r {
        Ok(Some(e)) => Ok(Some(e@)),
        Ok(None) => Ok(None),
        Err(e) => Err(e@),
    }
}

/// A row of the recurring-expense section: amount in G (a zero amount marks an
/// empty row), type in C, necessity in D, periodicity in E, description in H,
/// first month in I and last month in J, all of the year of the import.
pub open spec fn regular_expense_reading<A>(
    s: Sheet<A>,
    row: int,
    m: CategoryMapping,
    year: i32,
) -> Result<Option<RegularEntryView<A>>, ImportErrorView> {
    match amount_reading(s, row, 6) {
        Err(e) => Err(e),
        Ok((amount, zero)) => if zero {
            Ok(None)
        } else {
            match string_reading(s, row, 2) {
                Err(e) => Err(e),
                Ok(type_text) => match string_reading(s, row, 3) {
                    Err(e) => Err(e),
                    Ok(necessity_text) => match string_reading(s, row, 4) {
                        Err(e) => Err(e),
                        Ok(periodicity_text) => match string_reading(s, row, 7) {
                            Err(e) => Err(e),
                            Ok(description) => match month_reading(s, row, 8) {
                                Err(e) => Err(e),
                                Ok(start_month) => match month_reading(s, row, 9) {
                                    Err(e) => Err(e),
                                    Ok(end_month) => match mapped_type(
                                        m.type_category_recurring@,
                                        type_text,
                                        ImportErrorView::UnknownRecurringType(type_text),
                                    ) {
                                        Err(e) => Err(e),
                                        Ok(type_category) => match mapped_necessity(
                                            m.necessity_category@,
                                            necessity_text,
                                        ) {
                                            Err(e) => Err(e),
                                            Ok(necessity_category) => match periodicity_reading(
                                                periodicity_text,
                                            ) {
                                                Err(e) => Err(e),
                                                Ok(periodicity) => match month_start_reading(
                                                    year,
                                                    start_month,
                                                ) {
                                                    Err(e) => Err(e),
                                                    Ok(start_date) => match month_end_reading(
                                                        year,
                                                        end_month,
                                                    ) {
                                                        Err(e) => Err(e),
                                                        Ok(end_date) => Ok(
                                                            Some(
                                                                RegularEntryView {
                                                                    id: None,
                                                                    amount,
                                                                    description,
                                                                    periodicity,
                                                                    start_date,
                                                                    end_date,
                                                                    type_category,
                                                                    necessity_category,
                                                                    is_income: false,
                                                                },
                                                            ),
                                                        ),
                                                    },
                                                },
                                            },
                                        },
                                    },
                                },
                            },
                        },
                    },
                },
            }
        },
    }
}

/// Reads a row of the recurring-expense section.
pub fn parse_regular_expense<A: Copy>(
    sheet: &Sheet<A>,
    row: usize,
    mapping: &CategoryMapping,
    year: i32,
) -> (r: Result<Option<RegularEntry<A>>, ImportError>)
    ensures
        regular_result_view(r) == regular_expense_reading(*sheet, row as int, *mapping, year),
        r matches Ok(Some(e)) ==> e.start_date.wf() && e.end_date.wf(),
{
    let (amount, zero) = match get_amount(sheet, row, 6) {
        Ok(v) => v,
        Err(e) => return Err(e),
    };
    if zero {
        return Ok(None);
    }
    let type_text = match get_string(sheet, row, 2) {
        Ok(v) => v,
        Err(e) => return Err(e),
    };
    let necessity_text = match get_string(sheet, row, 3) {
        Ok(v) => v,
        Err(e) => return Err(e),
    };
    let periodicity_text = match get_string(sheet, row, 4) {
        Ok(v) => v,
        Err(e) => return Err(e),
    };
    let description = match get_string(sheet, row, 7) {
        Ok(v) => v,
        Err(e) => return Err(e),
    };
    let start_month = match get_month(sheet, row, 8) {
        Ok(v) => v,
        Err(e) => return Err(e),
    };
    let end_month = match get_month(sheet, row, 9) {
        Ok(v) => v,
        Err(e) => return Err(e),
    };
    let type_category = match mapping.map_type_recurring(type_text.as_str()) {
        Ok(v) => v,
        Err(e) => return Err(e),
    };
    let necessity_category = match mapping.map_necessity(necessity_text.as_str()) {
        Ok(v) => v,
        Err(e) => return Err(e),
    };
    let periodicity = match parse_periodicity(periodicity_text.as_str()) {
        Ok(v) => v,
        Err(e) => return Err(e),
    };
    let start_date = match month_start_date(year, start_month) {
        Ok(v) => v,
        Err(e) => return Err(e),
    };
    let end_date = match month_end_date(year, end_month) {
        Ok(v) => v,
        Err(e) => return Err(e),
    };
    Ok(
        Some(
            RegularEntry {
                id: None,
                amount,
                description,
                periodicity,
                start_date,
                end_date,
                type_category,
                necessity_category,
                is_income: false,
            },
        ),
    )
}

/// A row of the one-time-expense section: amount in G (a zero amount marks an
/// empty row), day in B, type in C, necessity in D, description in H.
pub open spec fn singular_expense_reading<A>(
    s: Sheet<A>,
    row: int,
    m: CategoryMapping,
) -> Result<Option<SingularEntryView<A>>, ImportErrorView> {
    match amount_reading(s, row, 6) {
        Err(e) => Err(e),
        Ok((amount, zero)) => if zero {
            Ok(None)
        } else {
            match cell_at(s, row, 1) {
                None => Err(ImportErrorView::MissingDate),
                Some(date_cell) => match cell_date_reading(date_cell) {
                    Err(e) => Err(e),
                    Ok(date) => match string_reading(s, row, 2) {
                        Err(e) => Err(e),
                        Ok(type_text) => match string_reading(s, row, 3) {
                            Err(e) => Err(e),
                            Ok(necessity_text) => match string_reading(s, row, 7) {
                                Err(e) => Err(e),
                                Ok(description) => match mapped_type(
                                    m.type_category_singular@,
                                    type_text,
                                    ImportErrorView::UnknownSingularType(type_text),
                                ) {
                                    Err(e) => Err(e),
                                    Ok(type_category) => match mapped_necessity(
                                        m.necessity_category@,
                                        necessity_text,
                                    ) {
                                        Err(e) => Err(e),
                                        Ok(necessity_category) => Ok(
                                            Some(
                                                SingularEntryView {
                                                    id: None,
                                                    amount,
                                                    description,
                                                    date,
                                                    type_category,
                                                    necessity_category,
                                                    is_income: false,
                                                },
                                            ),
                                        ),
                                    },
                                },
                            },
                        },
                    },
                },
            }
        },
    }
}

/// Reads a row of the one-time-expense section.
pub fn parse_singular_expense<A: Copy>(
    sheet: &Sheet<A>,
    row: usize,
    mapping: &CategoryMapping,
) -> (r: Result<Option<SingularEntry<A>>, ImportError>)
    ensures
        singular_result_view(r) == singular_expense_reading(*sheet, row as int, *mapping),
        r matches Ok(Some(e)) ==> e.date.wf(),
{
    let (amount, zero) = match get_amount(sheet, row, 6) {
        Ok(v) => v,
        Err(e) => return Err(e),
    };
    if zero {
        return Ok(None);
    }
    let date = match get_cell(sheet, row, 1) {
        None => return Err(ImportError::MissingDate),
        Some(cell) => match parse_excel_date(cell) {
            Ok(d) => d,
            Err(e) => return Err(e),
        },
    };
    let type_text = match get_string(sheet, row, 2) {
        Ok(v) => v,
        Err(e) => return Err(e),
    };
    let necessity_text = match get_string(sheet, row, 3) {
        Ok(v) => v,
        Err(e) => return Err(e),
    };
    let description = match get_string(sheet, row, 7) {
        Ok(v) => v,
        Err(e) => return Err(e),
    };
    let type_category = match mapping.map_type_singular(type_text.as_str()) {
        Ok(v) => v,
        Err(e) => return Err(e),
    };
    let necessity_category = match mapping.map_necessity(necessity_text.as_str()) {
        Ok(v) => v,
        Err(e) => return Err(e),
    };
    Ok(
        Some(
            SingularEntry {
                id: None,
                amount,
                description,
                date,
                type_category,
                necessity_category,
                is_income: false,
            },
        ),
    )
}

/// A row of the recurring-income section: amount in D (a zero amount marks an
/// empty row), periodicity in C, description in F, first month in G and last
/// month in H. Incomes carry the categories T10 and N1.
pub open spec fn regular_income_reading<A>(s: Sheet<A>, row: int, year: i32) -> Result<
    Option<RegularEntryView<A>>,
    ImportErrorView,
> {
    match amount_reading(s, row, 3) {
        Err(e) => Err(e),
        Ok((amount, zero)) => if zero {
            Ok(None)
        } else {
            match string_reading(s, row, 2) {
                Err(e) => Err(e),
                Ok(periodicity_text) => match string_reading(s, row, 5) {
                    Err(e) => Err(e),
                    Ok(description) => match month_reading(s, row, 6) {
                        Err(e) => Err(e),
                        Ok(start_month) => match month_reading(s, row, 7) {
                            Err(e) => Err(e),
                            Ok(end_month) => match periodicity_reading(periodicity_text) {
                                Err(e) => Err(e),
                                Ok(periodicity) => match month_start_reading(year, start_month) {
                                    Err(e) => Err(e),
                                    Ok(start_date) => match month_end_reading(year, end_month) {
                                        Err(e) => Err(e),
                                        Ok(end_date) => Ok(
                                            Some(
                                                RegularEntryView {
                                                    id: None,
                                                    amount,
                                                    description,
                                                    periodicity,
                                                    start_date,
                                                    end_date,
                                                    type_category: TypeCategory::T10,
                                                    necessity_category: NecessityCategory::N1,
                                                    is_income: true,
                                                },
                                            ),
                                        ),
                                    },
                                },
                            },
                        },
                    },
                },
            }
        },
    }
}

/// Reads a row of the recurring-income section.
pub fn parse_regular_income<A: Copy>(sheet: &Sheet<A>, row: usize, year: i32) -> (r: Result<
    Option<RegularEntry<A>>,
    ImportError,
>)
    ensures
        regular_result_view(r) == regular_income_reading(*sheet, row as int, year),
        r matches Ok(Some(e)) ==> e.start_date.wf() && e.end_date.wf(),
{
    let (amount, zero) = match get_amount(sheet, row, 3) {
        Ok(v) => v,
        Err(e) => return Err(e),
    };
    if zero {
        return Ok(None);
    }
    let periodicity_text = match get_string(sheet, row, 2) {
        Ok(v) => v,
        Err(e) => return Err(e),
    };
    let description = match get_string(sheet, row, 5) {
        Ok(v) => v,
        Err(e) => return Err(e),
    };
    let start_month = match get_month(sheet, row, 6) {
        Ok(v) => v,
        Err(e) => return Err(e),
    };
    let end_month = match get_month(sheet, row, 7) {
        Ok(v) => v,
        Err(e) => return Err(e),
    };
    let periodicity = match parse_periodicity(periodicity_text.as_str()) {
        Ok(v) => v,
        Err(e) => return Err(e),
    };
    let start_date = match month_start_date(year, start_month) {
        Ok(v) => v,
        Err(e) => return Err(e),
    };
    let end_date = match month_end_date(year, end_month) {
        Ok(v) => v,
        Err(e) => return Err(e),
    };
    Ok(
        Some(
            RegularEntry {
                id: None,
                amount,
                description,
                periodicity,
                start_date,
                end_date,
                type_category: TypeCategory::T10,
                necessity_category: NecessityCategory::N1,
                is_income: true,
            },
        ),
    )
}

/// A row of the one-time-income section: amount in D (a zero amount marks an
/// empty row), day in B, description in F. Incomes carry T10 and N1.
pub open spec fn singular_income_reading<A>(s: Sheet<A>, row: int) -> Result<
    Option<SingularEntryView<A>>,
    ImportErrorView,
> {
    match amount_reading(s, row, 3) {
        Err(e) => Err(e),
        Ok((amount, zero)) => if zero {
            Ok(None)
        } else {
            match cell_at(s, row, 1) {
                None => Err(ImportErrorView::MissingDate),
                Some(date_cell) => match cell_date_reading(date_cell) {
                    Err(e) => Err(e),
                    Ok(date) => match string_reading(s, row, 5) {
                        Err(e) => Err(e),
                        Ok(description) => Ok(
                            Some(
                                SingularEntryView {
                                    id: None,
                                    amount,
                                    description,
                                    date,
                                    type_category: TypeCategory::T10,
                                    necessity_category: NecessityCategory::N1,
                                    is_income: true,
                                },
                            ),
                        ),
                    },
                },
            }
        },
    }
}

/// Reads a row of the one-time-income section.
pub fn parse_singular_income<A: Copy>(sheet: &Sheet<A>, row: usize) -> (r: Result<
    Option<SingularEntry<A>>,
    ImportError,
>)
    ensures
        singular_result_view(r) == singular_income_reading(*sheet, row as int),
        r matches Ok(Some(e)) ==> e.date.wf(),
{
    let (amount, zero) = match get_amount(sheet, row, 3) {
        Ok(v) => v,
        Err(e) => return Err(e),
    };
    if zero {
        return Ok(None);
    }
    let date = match get_cell(sheet, row, 1) {
        None => return Err(ImportError::MissingDate),
        Some(cell) => match parse_excel_date(cell) {
            Ok(d) => d,
            Err(e) => return Err(e),
        },
    };
    let description = match get_string(sheet, row, 5) {
        Ok(v) => v,
        Err(e) => return Err(e),
    };
    Ok(
        Some(
            SingularEntry {
                id: None,
                amount,
                description,
                date,
                type_category: TypeCategory::T10,
                necessity_category: NecessityCategory::N1,
                is_income: true,
            },
        ),
    )
}

// ─── Sheets ──────────────────────────────────────────────────────────────────

/// The text in a row that starts the one-time section of the expenses sheet.
pub open spec fn expenses_marker() -> Seq<char> {
    "Variable Kosten"@
}

/// The text in a row that starts the one-time section of the incomes sheet.
pub open spec fn incomes_marker() -> Seq<char> {
    "Variable Einnahmen"@
}

/// Some cell of the row shows a text that contains `marker`.
pub open spec fn row_has_marker<A>(s: Sheet<A>, row: int, marker: Seq<char>) -> bool {
    exists|c: int|
        #![trigger cell_at(s, row, c)]
        cell_at(s, row, c) matches Some(cell) && has_infix(cell.display@, marker)
}

/// Whether some cell of the row shows a text that contains `marker`.
pub fn row_contains_marker<A>(sheet: &Sheet<A>, row: usize, marker: &str) -> (r: bool)
    requires
        row < sheet.rows.len(),
    ensures
        r == row_has_marker(*sheet, row as int, marker@),
{
    let cells = &sheet.rows[row];
    let mut c: usize = 0;
    while c < cells.len()
        invariant
            row < sheet.rows.len(),
            cells == sheet.rows@[row as int],
            c <= cells.len(),
            forall|k: int|
                0 <= k < c ==> !has_infix((#[trigger] cells@[k]).display@, marker@),
        decreases cells.len() - c,
    {
        if contains_text(cells[c].display.as_str(), marker) {
            assert(cell_at(*sheet, row as int, c as int) == Some(cells@[c as int]));
            return true;
        }
        c = c + 1;
    }
    assert forall|k: int| !(#[trigger] cell_at(*sheet, row as int, k) matches Some(cell) && has_infix(
        cell.display@,
        marker@,
    )) by {
        if 0 <= k < cells.len() {
            assert(cell_at(*sheet, row as int, k) == Some(cells@[k]));
        }
    }
    false
}

/// What became of a row of a sheet.
pub enum RowOutcome<A> {
    Singular { row: usize, entry: SingularEntry<A> },
    Regular { row: usize, recurring: RegularEntry<A> },
    Failed { row: usize, error: ImportError },
}

pub enum RowOutcomeView<A> {
    Singular { row: usize, entry: SingularEntryView<A> },
    Regular { row: usize, recurring: RegularEntryView<A> },
    Failed { row: usize, error: ImportErrorView },
}

impl<A> View for RowOutcome<A> {
    type V = RowOutcomeView<A>;

    open spec fn view(&self) -> RowOutcomeView<A> {
        match self {
            RowOutcome::Singular { row, entry } => RowOutcomeView::Singular { row: *row, entry: entry@ },
            RowOutcome::Regular { row, recurring } => RowOutcomeView::Regular {
                row: *row,
                recurring: recurring@,
            },
            RowOutcome::Failed { row, error } => RowOutcomeView::Failed { row: *row, error: error@ },
        }
    }
}

pub open spec fn outcomes_view<A>(v: Seq<RowOutcome<A>>) -> Seq<RowOutcomeView<A>> {
    v.map_values(|o: RowOutcome<A>| o@)
}

/// The outcome of a row read as a one-time entry.
pub open spec fn singular_outcome<A>(
    row: int,
    r: Result<Option<SingularEntryView<A>>, ImportErrorView>,
) -> Seq<RowOutcomeView<A>> {
    match r {
        Ok(Some(e)) => seq![RowOutcomeView::Singular { row: row as usize, entry: e }],
        Ok(None) => seq![],
        Err(e) => seq![RowOutcomeView::Failed { row: row as usize, error: e }],
    }
}

/// The outcome of a row read as a recurring entry.
pub open spec fn regular_outcome<A>(
    row: int,
    r: Result<Option<RegularEntryView<A>>, ImportErrorView>,
) -> Seq<RowOutcomeView<A>> {
    match r {
        Ok(Some(e)) => seq![RowOutcomeView::Regular { row: row as usize, recurring: e }],
        Ok(None) => seq![],
        Err(e) => seq![RowOutcomeView::Failed { row: row as usize, error: e }],
    }
}

/// The outcomes of the expenses sheet from `row` on, with `in_singular` telling
/// whether the one-time section has begun. The marker row itself is not read.
pub open spec fn expenses_outcomes<A>(
    s: Sheet<A>,
    m: CategoryMapping,
    year: i32,
    row: int,
    in_singular: bool,
) -> Seq<RowOutcomeView<A>>
    decreases s.rows@.len() - row,
{
    if row < 0 || row >= s.rows@.len() {
        seq![]
    } else if row_has_marker(s, row, expenses_marker()) {
        expenses_outcomes(s, m, year, row + 1, true)
    } else if in_singular {
        singular_outcome(row, singular_expense_reading(s, row, m)) + expenses_outcomes(
            s,
            m,
            year,
            row + 1,
            true,
        )
    } else {
        regular_outcome(row, regular_expense_reading(s, row, m, year)) + expenses_outcomes(
            s,
            m,
            year,
            row + 1,
            false,
        )
    }
}

/// The outcomes of the incomes sheet from `row` on.
pub open spec fn incomes_outcomes<A>(s: Sheet<A>, year: i32, row: int, in_singular: bool) -> Seq<
    RowOutcomeView<A>,
>
    decreases s.rows@.len() - row,
{
    if row < 0 || row >= s.rows@.len() {
        seq![]
    } else if row_has_marker(s, row, incomes_marker()) {
        incomes_outcomes(s, year, row + 1, true)
    } else if in_singular {
        singular_outcome(row, singular_income_reading(s, row)) + incomes_outcomes(
            s,
            year,
            row + 1,
            true,
        )
    } else {
        regular_outcome(row, regular_income_reading(s, row, year)) + incomes_outcomes(
            s,
            year,
            row + 1,
            false,
        )
    }
}

fn push_singular<A>(
    out: &mut Vec<RowOutcome<A>>,
    row: usize,
    r: Result<Option<SingularEntry<A>>, ImportError>,
)
    ensures
        outcomes_view(final(out)@) == outcomes_view(old(out)@) + singular_outcome(
            row as int,
            singular_result_view(r),
        ),
{
    let ghost before = out@;
    match r {
        Ok(Some(entry)) => out.push(RowOutcome::Singular { row, entry }),
        Ok(None) => {},
        Err(error) => out.push(RowOutcome::Failed { row, error }),
    }
    assert(outcomes_view(out@) =~= outcomes_view(before) + singular_outcome(
        row as int,
        singular_result_view(r),
    ));
}

fn push_regular<A>(
    out: &mut Vec<RowOutcome<A>>,
    row: usize,
    r: Result<Option<RegularEntry<A>>, ImportError>,
)
    ensures
        outcomes_view(final(out)@) == outcomes_view(old(out)@) + regular_outcome(
            row as int,
            regular_result_view(r),
        ),
{
    let ghost before = out@;
    match r {
        Ok(Some(recurring)) => out.push(RowOutcome::Regular { row, recurring }),
        Ok(None) => {},
        Err(error) => out.push(RowOutcome::Failed { row, error }),
    }
    assert(outcomes_view(out@) =~= outcomes_view(before) + regular_outcome(
        row as int,
        regular_result_view(r),
    ));
}

/// Reads the expenses sheet. The first row holds the column headers; recurring
/// expenses follow until a row that shows "Variable Kosten", one-time expenses
/// after it.
pub fn import_expenses_sheet<A: Copy>(sheet: &Sheet<A>, mapping: &CategoryMapping, year: i32) -> (r: Vec<
    RowOutcome<A>,
>)
    ensures
        outcomes_view(r@) == expenses_outcomes(*sheet, *mapping, year, 1, false),
{
    let mut out: Vec<RowOutcome<A>> = Vec::new();
    let mut in_singular = false;
    let mut row: usize = 1;
    let height = sheet.rows.len();
    if height == 0 {
        assert(outcomes_view(out@) =~= Seq::<RowOutcomeView<A>>::empty());
        return out;
    }
    assert(outcomes_view(out@) =~= Seq::<RowOutcomeView<A>>::empty());
    while row < height
        invariant
            height == sheet.rows.len(),
            1 <= row <= height,
            outcomes_view(out@) + expenses_outcomes(*sheet, *mapping, year, row as int, in_singular)
                == expenses_outcomes(*sheet, *mapping, year, 1, false),
        decreases height - row,
    {
        let ghost before = outcomes_view(out@);
        if row_contains_marker(sheet, row, "Variable Kosten") {
            in_singular = true;
        } else if in_singular {
            let r = parse_singular_expense(sheet, row, mapping);
            push_singular(&mut out, row, r);
            assert(before + expenses_outcomes(*sheet, *mapping, year, row as int, true) =~= outcomes_view(
                out@,
            ) + expenses_outcomes(*sheet, *mapping, year, row + 1, true));
        } else {
            let r = parse_regular_expense(sheet, row, mapping, year);
            push_regular(&mut out, row, r);
            assert(before + expenses_outcomes(*sheet, *mapping, year, row as int, false)
                =~= outcomes_view(out@) + expenses_outcomes(*sheet, *mapping, year, row + 1, false));
        }
        row = row + 1;
    }
    assert(outcomes_view(out@) =~= outcomes_view(out@) + expenses_outcomes(
        *sheet,
        *mapping,
        year,
        row as int,
        in_singular,
    ));
    out
}

/// Reads the incomes sheet. The first row holds the column headers; recurring
/// incomes follow until a row that shows "Variable Einnahmen", one-time incomes
/// after it.
pub fn import_incomes_sheet<A: Copy>(sheet: &Sheet<A>, year: i32) -> (r: Vec<RowOutcome<A>>)
    ensures
        outcomes_view(r@) == incomes_outcomes(*sheet, year, 1, false),
{
    let mut out: Vec<RowOutcome<A>> = Vec::new();
    let mut in_singular = false;
    let mut row: usize = 1;
    let height = sheet.rows.len();
    if height == 0 {
        assert(outcomes_view(out@) =~= Seq::<RowOutcomeView<A>>::empty());
        return out;
    }
    assert(outcomes_view(out@) =~= Seq::<RowOutcomeView<A>>::empty());
    while row < height
        invariant
            height == sheet.rows.len(),
            1 <= row <= height,
            outcomes_view(out@) + incomes_outcomes(*sheet, year, row as int, in_singular)
                == incomes_outcomes(*sheet, year, 1, false),
        decreases height - row,
    {
        let ghost before = outcomes_view(out@);
        if row_contains_marker(sheet, row, "Variable Einnahmen") {
            in_singular = true;
        } else if in_singular {
            let r = parse_singular_income(sheet, row);
            push_singular(&mut out, row, r);
            assert(before + incomes_outcomes(*sheet, year, row as int, true) =~= outcomes_view(out@)
                + incomes_outcomes(*sheet, year, row + 1, true));
        } else {
            let r = parse_regular_income(sheet, row, year);
            push_regular(&mut out, row, r);
            assert(before + incomes_outcomes(*sheet, year, row as int, false) =~= outcomes_view(out@)
                + incomes_outcomes(*sheet, year, row + 1, false));
        }
        row = row + 1;
    }
    assert(outcomes_view(out@) =~= outcomes_view(out@) + incomes_outcomes(
        *sheet,
        year,
        row as int,
        in_singular,
    ));
    out
}

/// The row an outcome belongs to.
pub open spec fn outcome_row<A>(o: RowOutcomeView<A>) -> int {
    match o {
        RowOutcomeView::Singular { row, .. } => row as int,
        RowOutcomeView::Regular { row, .. } => row as int,
        RowOutcomeView::Failed { row, .. } => row as int,
    }
}

/// Outcomes belong to rows from `lo` on, below `hi`, one outcome per row at
/// most, in row order.
pub open spec fn rows_in_order<A>(out: Seq<RowOutcomeView<A>>, lo: int, hi: int) -> bool {
    &&& forall|i: int| 0 <= i < out.len() ==> lo <= #[trigger] outcome_row(out[i]) < hi
    &&& forall|i: int, j: int|
        0 <= i < j < out.len() ==> outcome_row(out[i]) < outcome_row(out[j])
}

proof fn lemma_prepend_in_order<A>(first: Seq<RowOutcomeView<A>>, rest: Seq<RowOutcomeView<A>>, row: int, hi: int)
    requires
        first.len() <= 1,
        forall|i: int| 0 <= i < first.len() ==> outcome_row(#[trigger] first[i]) == row,
        row < hi,
        rows_in_order(rest, row + 1, hi),
    ensures
        rows_in_order(first + rest, row, hi),
{
    let out = first + rest;
    assert forall|i: int| 0 <= i < out.len() implies row <= #[trigger] outcome_row(out[i]) < hi by {
        if i >= first.len() {
            assert(out[i] == rest[i - first.len()]);
        }
    }
    assert forall|i: int, j: int| 0 <= i < j < out.len() implies outcome_row(out[i]) < outcome_row(
        out[j],
    ) by {
        if j >= first.len() {
            assert(out[j] == rest[j - first.len()]);
            assert(outcome_row(rest[j - first.len()]) >= row + 1);
            if i >= first.len() {
                assert(out[i] == rest[i - first.len()]);
            }
        }
    }
}

/// The import of the expenses sheet reports every row at most once, in the
/// order of the rows, and never a row before `row`.
pub proof fn lemma_expenses_outcomes_in_row_order<A>(
    s: Sheet<A>,
    m: CategoryMapping,
    year: i32,
    row: int,
    in_singular: bool,
)
    requires
        0 <= row,
    ensures
        rows_in_order(expenses_outcomes(s, m, year, row, in_singular), row, s.rows@.len() as int),
    decreases s.rows@.len() - row,
{
    if row >= s.rows@.len() {
    } else if row_has_marker(s, row, expenses_marker()) {
        lemma_expenses_outcomes_in_row_order(s, m, year, row + 1, true);
    } else if in_singular {
        assert(row < s.rows.len());
        lemma_expenses_outcomes_in_row_order(s, m, year, row + 1, true);
        lemma_prepend_in_order(
            singular_outcome(row, singular_expense_reading(s, row, m)),
            expenses_outcomes(s, m, year, row + 1, true),
            row,
            s.rows@.len() as int,
        );
    } else {
        assert(row < s.rows.len());
        lemma_expenses_outcomes_in_row_order(s, m, year, row + 1, false);
        lemma_prepend_in_order(
            regular_outcome(row, regular_expense_reading(s, row, m, year)),
            expenses_outcomes(s, m, year, row + 1, false),
            row,
            s.rows@.len() as int,
        );
    }
}

/// The import of the incomes sheet reports every row at most once, in the
/// order of the rows, and never a row before `row`.
pub proof fn lemma_incomes_outcomes_in_row_order<A>(s: Sheet<A>, year: i32, row: int, in_singular: bool)
    requires
        0 <= row,
    ensures
        rows_in_order(incomes_outcomes(s, year, row, in_singular), row, s.rows@.len() as int),
    decreases s.rows@.len() - row,
{
    if row >= s.rows@.len() {
    } else if row_has_marker(s, row, incomes_marker()) {
        lemma_incomes_outcomes_in_row_order(s, year, row + 1, true);
    } else if in_singular {
        assert(row < s.rows.len());
        lemma_incomes_outcomes_in_row_order(s, year, row + 1, true);
        lemma_prepend_in_order(
            singular_outcome(row, singular_income_reading(s, row)),
            incomes_outcomes(s, year, row + 1, true),
            row,
            s.rows@.len() as int,
        );
    } else {
        assert(row < s.rows.len());
        lemma_incomes_outcomes_in_row_order(s, year, row + 1, false);
        lemma_prepend_in_order(
            regular_outcome(row, regular_income_reading(s, row, year)),
            incomes_outcomes(s, year, row + 1, false),
            row,
            s.rows@.len() as int,
        );
    }
}

/// An expenses row whose amount cell (column G) reads as zero is a blank row:
/// neither section's reading yields an entry or an error for it.
pub proof fn lemma_zero_amount_expense_rows_are_blank<A>(
    s: Sheet<A>,
    row: int,
    m: CategoryMapping,
    year: i32,
    amount: A,
)
    requires
        amount_reading(s, row, 6) == Ok::<(A, bool), ImportErrorView>((amount, true)),
    ensures
        regular_expense_reading(s, row, m, year) == Ok::<
            Option<RegularEntryView<A>>,
            ImportErrorView,
        >(None),
        singular_expense_reading(s, row, m) == Ok::<Option<SingularEntryView<A>>, ImportErrorView>(
            None,
        ),
{
}

/// An incomes row whose amount cell (column D) reads as zero is a blank row:
/// neither section's reading yields an entry or an error for it.
pub proof fn lemma_zero_amount_income_rows_are_blank<A>(s: Sheet<A>, row: int, year: i32, amount: A)
    requires
        amount_reading(s, row, 3) == Ok::<(A, bool), ImportErrorView>((amount, true)),
    ensures
        regular_income_reading(s, row, year) == Ok::<Option<RegularEntryView<A>>, ImportErrorView>(
            None,
        ),
        singular_income_reading(s, row) == Ok::<Option<SingularEntryView<A>>, ImportErrorView>(
            None,
        ),
{
}

/// The amount cell of a row reads as zero.
pub open spec fn zero_amount<A>(s: Sheet<A>, row: int, col: int) -> bool {
    amount_reading(s, row, col) matches Ok((_, true))
}

/// The import of the expenses sheet reports no row whose amount (column G)
/// reads as zero: blank rows are skipped, in either section.
pub proof fn lemma_expenses_skip_blank_rows<A>(
    s: Sheet<A>,
    m: CategoryMapping,
    year: i32,
    row: int,
    in_singular: bool,
)
    ensures
        forall|i: int|
            0 <= i < expenses_outcomes(s, m, year, row, in_singular).len() ==> !zero_amount(
                s,
                outcome_row(#[trigger] expenses_outcomes(s, m, year, row, in_singular)[i]),
                6,
            ),
    decreases s.rows@.len() - row,
{
    if row < 0 || row >= s.rows@.len() {
    } else {
        let rest = if row_has_marker(s, row, expenses_marker()) || in_singular {
            expenses_outcomes(s, m, year, row + 1, true)
        } else {
            expenses_outcomes(s, m, year, row + 1, false)
        };
        lemma_expenses_skip_blank_rows(s, m, year, row + 1, true);
        lemma_expenses_skip_blank_rows(s, m, year, row + 1, false);
        let first: Seq<RowOutcomeView<A>> = if row_has_marker(s, row, expenses_marker()) {
            seq![]
        } else if in_singular {
            singular_outcome(row, singular_expense_reading(s, row, m))
        } else {
            regular_outcome(row, regular_expense_reading(s, row, m, year))
        };
        let all = expenses_outcomes(s, m, year, row, in_singular);
        assert(all =~= first + rest);
        assert forall|i: int| 0 <= i < all.len() implies !zero_amount(
            s,
            outcome_row(#[trigger] all[i]),
            6,
        ) by {
            if i >= first.len() {
                assert(all[i] == rest[i - first.len()]);
            } else {
                assert(all[i] == first[i]);
                assert(row < s.rows.len());
                assert(outcome_row(all[i]) == row);
                if zero_amount(s, row, 6) {
                    let a = amount_reading(s, row, 6)->Ok_0.0;
                    lemma_zero_amount_expense_rows_are_blank(s, row, m, year, a);
                }
            }
        }
    }
}

/// The import of the incomes sheet reports no row whose amount (column D)
/// reads as zero: blank rows are skipped, in either section.
pub proof fn lemma_incomes_skip_blank_rows<A>(s: Sheet<A>, year: i32, row: int, in_singular: bool)
    ensures
        forall|i: int|
            0 <= i < incomes_outcomes(s, year, row, in_singular).len() ==> !zero_amount(
                s,
                outcome_row(#[trigger] incomes_outcomes(s, year, row, in_singular)[i]),
                3,
            ),
    decreases s.rows@.len() - row,
{
    if row < 0 || row >= s.rows@.len() {
    } else {
        let rest = if row_has_marker(s, row, incomes_marker()) || in_singular {
            incomes_outcomes(s, year, row + 1, true)
        } else {
            incomes_outcomes(s, year, row + 1, false)
        };
        lemma_incomes_skip_blank_rows(s, year, row + 1, true);
        lemma_incomes_skip_blank_rows(s, year, row + 1, false);
        let first: Seq<RowOutcomeView<A>> = if row_has_marker(s, row, incomes_marker()) {
            seq![]
        } else if in_singular {
            singular_outcome(row, singular_income_reading(s, row))
        } else {
            regular_outcome(row, regular_income_reading(s, row, year))
        };
        let all = incomes_outcomes(s, year, row, in_singular);
        assert(all =~= first + rest);
        assert forall|i: int| 0 <= i < all.len() implies !zero_amount(
            s,
            outcome_row(#[trigger] all[i]),
            3,
        ) by {
            if i >= first.len() {
                assert(all[i] == rest[i - first.len()]);
            } else {
                assert(all[i] == first[i]);
                assert(row < s.rows.len());
                assert(outcome_row(all[i]) == row);
                if zero_amount(s, row, 3) {
                    let a = amount_reading(s, row, 3)->Ok_0.0;
                    lemma_zero_amount_income_rows_are_blank(s, row, year, a);
                }
            }
        }
    }
}

/// A row counts as a marker row when any of its cells, at any column, shows a
/// text that contains the marker.
pub proof fn lemma_marker_in_any_column<A>(
    s: Sheet<A>,
    row: int,
    col: int,
    cell: Cell<A>,
    marker: Seq<char>,
)
    requires
        cell_at(s, row, col) == Some(cell),
        has_infix(cell.display@, marker),
    ensures
        row_has_marker(s, row, marker),
{
}

/// A row of the expenses sheet with "Variable Kosten" in any of its cells is
/// not reported, and the rows after it are read as one-time expenses.
pub proof fn lemma_expenses_marker_starts_one_time_section<A>(
    s: Sheet<A>,
    m: CategoryMapping,
    year: i32,
    row: int,
    in_singular: bool,
    col: int,
    cell: Cell<A>,
)
    requires
        0 <= row < s.rows@.len(),
        cell_at(s, row, col) == Some(cell),
        has_infix(cell.display@, expenses_marker()),
    ensures
        expenses_outcomes(s, m, year, row, in_singular) == expenses_outcomes(
            s,
            m,
            year,
            row + 1,
            true,
        ),
{
    lemma_marker_in_any_column(s, row, col, cell, expenses_marker());
}

/// A row of the incomes sheet with "Variable Einnahmen" in any of its cells is
/// not reported, and the rows after it are read as one-time incomes.
pub proof fn lemma_incomes_marker_starts_one_time_section<A>(
    s: Sheet<A>,
    year: i32,
    row: int,
    in_singular: bool,
    col: int,
    cell: Cell<A>,
)
    requires
        0 <= row < s.rows@.len(),
        cell_at(s, row, col) == Some(cell),
        has_infix(cell.display@, incomes_marker()),
    ensures
        incomes_outcomes(s, year, row, in_singular) == incomes_outcomes(s, year, row + 1, true),
{
    lemma_marker_in_any_column(s, row, col, cell, incomes_marker());
}

// ─── Statistics ──────────────────────────────────────────────────────────────

/// The four kinds of imported entries.
#[derive(Debug, Clone, Copy, PartialEq, Eq, Structural)]
pub enum EntryKind {
    RegularExpense,
    SingularExpense,
    RegularIncome,
    SingularIncome,
}

/// What an import did: how many entries of each kind it stored, and the
/// reports of the rows it could not store.
#[derive(Debug)]
pub struct ImportStats {
    pub regular_expenses: usize,
    pub singular_expenses: usize,
    pub regular_incomes: usize,
    pub singular_incomes: usize,
    pub errors: Vec<String>,
}

impl Default for ImportStats {
    fn default() -> (r: ImportStats)
        ensures
            r.regular_expenses == 0,
            r.singular_expenses == 0,
            r.regular_incomes == 0,
            r.singular_incomes == 0,
            r.errors@.len() == 0,
    {
        ImportStats::new()
    }
}

/// The report of a row that could not be stored, with the row counted from one.
pub open spec fn row_report(row: int, message: Seq<char>) -> Seq<char> {
    "Row "@ + decimal((row + 1) as nat) + ": "@ + message
}

impl ImportStats {
    /// Statistics of an import that has not stored anything yet.
    pub fn new() -> (r: ImportStats)
        ensures
            r.regular_expenses == 0,
            r.singular_expenses == 0,
            r.regular_incomes == 0,
            r.singular_incomes == 0,
            r.errors@.len() == 0,
    {
        ImportStats {
            regular_expenses: 0,
            singular_expenses: 0,
            regular_incomes: 0,
            singular_incomes: 0,
            errors: Vec::new(),
        }
    }

    /// The count of one kind of entry.
    pub open spec fn count(&self, kind: EntryKind) -> usize {
        match kind {
            EntryKind::RegularExpense => self.regular_expenses,
            EntryKind::SingularExpense => self.singular_expenses,
            EntryKind::RegularIncome => self.regular_incomes,
            EntryKind::SingularIncome => self.singular_incomes,
        }
    }

    /// Counts a stored entry.
    pub fn record_added(&mut self, kind: EntryKind)
        requires
            old(self).count(kind) < usize::MAX,
        ensures
            final(self).count(kind) == old(self).count(kind) + 1,
            forall|k: EntryKind| k != kind ==> final(self).count(k) == old(self).count(k),
            final(self).errors@ == old(self).errors@,
    {
        match kind {
            EntryKind::RegularExpense => self.regular_expenses = self.regular_expenses + 1,
            EntryKind::SingularExpense => self.singular_expenses = self.singular_expenses + 1,
            EntryKind::RegularIncome => self.regular_incomes = self.regular_incomes + 1,
            EntryKind::SingularIncome => self.singular_incomes = self.singular_incomes + 1,
        }
    }

    /// Reports a row, counted from zero, that could not be stored.
    pub fn record_error(&mut self, row: usize, message: &str)
        ensures
            final(self).errors@.len() == old(self).errors@.len() + 1,
            forall|i: int|
                0 <= i < old(self).errors@.len() ==> final(self).errors@[i] == old(self).errors@[i],
            final(self).errors@.last()@ == row_report(row as int, message@),
            forall|k: EntryKind| final(self).count(k) == old(self).count(k),
    {
        let mut line = "Row ".to_owned();
        push_decimal(&mut line, row as u128 + 1);
        line.append(": ");
        line.append(message);
        self.errors.push(line);
    }
}

} // verus!
