//! How ledger records are written to and read from table rows, and the rules
//! of the monthly figures.
use vstd::prelude::*;

use crate::calendar::{
    active_in_month, books_in_month, date_text, iso_text, month_of, parse_date, parsed_date,
    range_covers, shown_date, Date, MAX_YEAR, MIN_YEAR,
};
use crate::import::date_from_triple;
use crate::models::{
    necessity_code, necessity_from_code, periodicity_from_label, periodicity_label, type_code,
    type_from_code, FixedSalary, NecessityCategory, Periodicity, RegularEntry, RegularEntryView,
    SingularEntry, SingularEntryView, TypeCategory, VariableSalary, lemma_necessity_code_round_trip,
    lemma_periodicity_label_round_trip, lemma_type_code_round_trip,
};
use crate::text::same_text;

verus! {

/// Why a stored row cannot be read back.
#[derive(Debug, Clone, Copy, PartialEq, Eq, Structural)]
pub enum RowError {
    InvalidDate,
    InvalidTypeCategory,
    InvalidNecessityCategory,
    InvalidPeriodicity,
    InvalidStartDate,
    InvalidEndDate,
}

/// The stored text of a day.
pub open spec fn stored_date(d: Date) -> Seq<char> {
    shown_date(d.year as int, d.month as int, d.day as int)
}

/// The day a stored text names.
pub open spec fn read_date(text: Seq<char>) -> Option<Date> {
    match parsed_date(text, "%Y-%m-%d"@) {
        Some(t) => Some(date_from_triple(t)),
        None => None,
    }
}

/// The stored flag of an income.
pub open spec fn income_flag(is_income: bool) -> i32 {
    if is_income { 1 } else { 0 }
}

/// Reads a stored day (`YYYY-MM-DD`). A text in that notation with a
/// four-digit year is read back as the day it names.
pub fn decode_date(text: &str) -> (r: Option<Date>)
    ensures
        r == read_date(text@),
        r matches Some(d) ==> d.wf(),
        forall|d: Date|
            #![trigger iso_text(d)]
            d.wf() && 0 <= d.year <= 9999 && text@ == iso_text(d) ==> r == Some(d),
{
    parse_date(text, "%Y-%m-%d")
}

/// The stored text of a day; `YYYY-MM-DD` for years with four digits.
pub fn encode_date(d: &Date) -> (r: String)
    requires
        d.wf(),
    ensures
        r@ == stored_date(*d),
        0 <= d.year <= 9999 ==> r@ == iso_text(*d),
{
    date_text(d)
}

/// The columns of a stored one-time entry besides its id and amount.
pub struct SingularRow {
    pub description: String,
    pub date: String,
    pub type_category: String,
    pub necessity_category: String,
    pub is_income: i32,
}

/// The columns of a stored recurring entry besides its id and amount.
pub struct RegularRow {
    pub description: String,
    pub periodicity: String,
    pub start_date: String,
    pub end_date: String,
    pub type_category: String,
    pub necessity_category: String,
    pub is_income: i32,
}

/// Writes a one-time entry as the columns of a row: the day as text, the
/// categories as their codes and the income flag as 1 or 0.
pub fn encode_singular<A>(e: &SingularEntry<A>) -> (r: SingularRow)
    requires
        e.date.wf(),
    ensures
        r.description@ == e.description@,
        r.date@ == stored_date(e.date),
        0 <= e.date.year <= 9999 ==> r.date@ == iso_text(e.date),
        r.type_category@ == type_code(e.type_category),
        r.necessity_category@ == necessity_code(e.necessity_category),
        r.is_income == income_flag(e.is_income),
{
    SingularRow {
        description: e.description.clone(),
        date: encode_date(&e.date),
        type_category: e.type_category.code().to_owned(),
        necessity_category: e.necessity_category.code().to_owned(),
        is_income: if e.is_income { 1 } else { 0 },
    }
}

/// The entry a stored one-time row holds, or the first column that cannot be
/// read, in the order day, type, necessity.
pub open spec fn singular_decoding<A>(
    id: i64,
    amount: A,
    description: Seq<char>,
    date: Seq<char>,
    type_category: Seq<char>,
    necessity_category: Seq<char>,
    is_income: i32,
) -> Result<SingularEntryView<A>, RowError> {
    match read_date(date) {
        None => Err(RowError::InvalidDate),
        Some(d) => match type_from_code(type_category) {
            None => Err(RowError::InvalidTypeCategory),
            Some(t) => match necessity_from_code(necessity_category) {
                None => Err(RowError::InvalidNecessityCategory),
                Some(n) => Ok(
                    SingularEntryView {
                        id: Some(id),
                        amount,
                        description,
                        date: d,
                        type_category: t,
                        necessity_category: n,
                        is_income: is_income != 0,
                    },
                ),
            },
        },
    }
}

/// Reads a stored one-time row back as an entry. A row written by
/// `encode_singular` from an entry whose year has four digits is read back as
/// that entry, with the row's id.
pub fn decode_singular<A>(
    id: i64,
    amount: A,
    description: String,
    date: &str,
    type_category: &str,
    necessity_category: &str,
    is_income: i32,
) -> (r: Result<SingularEntry<A>, RowError>)
    ensures
        match r {
            Ok(e) => singular_decoding(
                id,
                amount,
                description@,
                date@,
                type_category@,
                necessity_category@,
                is_income,
            ) == Ok::<SingularEntryView<A>, RowError>(e@) && e.date.wf(),
            Err(err) => singular_decoding(
                id,
                amount,
                description@,
                date@,
                type_category@,
                necessity_category@,
                is_income,
            ) == Err::<SingularEntryView<A>, RowError>(err),
        },
        forall|e: SingularEntryView<A>|
            #![trigger iso_text(e.date)]
            e.date.wf() && 0 <= e.date.year <= 9999 && e.amount == amount && e.description
                == description@ && date@ == iso_text(e.date) && type_category@ == type_code(
                e.type_category,
            ) && necessity_category@ == necessity_code(e.necessity_category) && is_income
                == income_flag(e.is_income) ==> (r matches Ok(x) && x@ == (SingularEntryView {
                id: Some(id),
                ..e
            })),
{
    proof {
        assert forall|t: TypeCategory| type_from_code(#[trigger] type_code(t)) == Some(t) by {
            lemma_type_code_round_trip(t);
        }
        assert forall|n: NecessityCategory| necessity_from_code(#[trigger] necessity_code(n))
            == Some(n) by {
            lemma_necessity_code_round_trip(n);
        }
    }
    let d = match decode_date(date) {
        Some(d) => d,
        None => return Err(RowError::InvalidDate),
    };
    let t = match TypeCategory::from_code(type_category) {
        Some(t) => t,
        None => return Err(RowError::InvalidTypeCategory),
    };
    let n = match NecessityCategory::from_code(necessity_category) {
        Some(n) => n,
        None => return Err(RowError::InvalidNecessityCategory),
    };
    Ok(
        SingularEntry {
            id: Some(id),
            amount,
            description,
            date: d,
            type_category: t,
            necessity_category: n,
            is_income: is_income != 0,
        },
    )
}

/// Writes a recurring entry as the columns of a row.
pub fn encode_regular<A>(e: &RegularEntry<A>) -> (r: RegularRow)
    requires
        e.start_date.wf(),
        e.end_date.wf(),
    ensures
        r.description@ == e.description@,
        r.periodicity@ == periodicity_label(e.periodicity),
        r.start_date@ == stored_date(e.start_date),
        r.end_date@ == stored_date(e.end_date),
        0 <= e.start_date.year <= 9999 ==> r.start_date@ == iso_text(e.start_date),
        0 <= e.end_date.year <= 9999 ==> r.end_date@ == iso_text(e.end_date),
        r.type_category@ == type_code(e.type_category),
        r.necessity_category@ == necessity_code(e.necessity_category),
        r.is_income == income_flag(e.is_income),
{
    RegularRow {
        description: e.description.clone(),
        periodicity: e.periodicity.as_str().to_owned(),
        start_date: encode_date(&e.start_date),
        end_date: encode_date(&e.end_date),
        type_category: e.type_category.code().to_owned(),
        necessity_category: e.necessity_category.code().to_owned(),
        is_income: if e.is_income { 1 } else { 0 },
    }
}

/// The entry a stored recurring row holds, or the first column that cannot be
/// read, in the order periodicity, first day, last day, type, necessity.
pub open spec fn regular_decoding<A>(
    id: i64,
    amount: A,
    description: Seq<char>,
    periodicity: Seq<char>,
    start_date: Seq<char>,
    end_date: Seq<char>,
    type_category: Seq<char>,
    necessity_category: Seq<char>,
    is_income: i32,
) -> Result<RegularEntryView<A>, RowError> {
    match periodicity_from_label(periodicity) {
        None => Err(RowError::InvalidPeriodicity),
        Some(p) => match read_date(start_date) {
            None => Err(RowError::InvalidStartDate),
            Some(s) => match read_date(end_date) {
                None => Err(RowError::InvalidEndDate),
                Some(e) => match type_from_code(type_category) {
                    None => Err(RowError::InvalidTypeCategory),
                    Some(t) => match necessity_from_code(necessity_category) {
                        None => Err(RowError::InvalidNecessityCategory),
                        Some(n) => Ok(
                            RegularEntryView {
                                id: Some(id),
                                amount,
                                description,
                                periodicity: p,
                                start_date: s,
                                end_date: e,
                                type_category: t,
                                necessity_category: n,
                                is_income: is_income != 0,
                            },
                        ),
                    },
                },
            },
        },
    }
}

/// Reads a stored recurring row back as an entry. A row written by
/// `encode_regular` from an entry whose years have four digits is read back as
/// that entry, with the row's id.
pub fn decode_regular<A>(
    id: i64,
    amount: A,
    description: String,
    periodicity: &str,
    start_date: &str,
    end_date: &str,
    type_category: &str,
    necessity_category: &str,
    is_income: i32,
) -> (r: Result<RegularEntry<A>, RowError>)
    ensures
        match r {
            Ok(e) => regular_decoding(
                id,
                amount,
                description@,
                periodicity@,
                start_date@,
                end_date@,
                type_category@,
                necessity_category@,
                is_income,
            ) == Ok::<RegularEntryView<A>, RowError>(e@) && e.start_date.wf() && e.end_date.wf(),
            Err(err) => regular_decoding(
                id,
                amount,
                description@,
                periodicity@,
                start_date@,
                end_date@,
                type_category@,
                necessity_category@,
                is_income,
            ) == Err::<RegularEntryView<A>, RowError>(err),
        },
        forall|e: RegularEntryView<A>|
            #![trigger iso_text(e.start_date), iso_text(e.end_date)]
            e.start_date.wf() && e.end_date.wf() && 0 <= e.start_date.year <= 9999 && 0
                <= e.end_date.year <= 9999 && e.amount == amount && e.description == description@
                && periodicity@ == periodicity_label(e.periodicity) && start_date@ == iso_text(
                e.start_date,
            ) && end_date@ == iso_text(e.end_date) && type_category@ == type_code(
                e.type_category,
            ) && necessity_category@ == necessity_code(e.necessity_category) && is_income
                == income_flag(e.is_income) ==> (r matches Ok(x) && x@ == (RegularEntryView {
                id: Some(id),
                ..e
            })),
{
    proof {
        assert forall|t: TypeCategory| type_from_code(#[trigger] type_code(t)) == Some(t) by {
            lemma_type_code_round_trip(t);
        }
        assert forall|n: NecessityCategory| necessity_from_code(#[trigger] necessity_code(n))
            == Some(n) by {
            lemma_necessity_code_round_trip(n);
        }
        assert forall|p: Periodicity| periodicity_from_label(#[trigger] periodicity_label(p))
            == Some(p) by {
            lemma_periodicity_label_round_trip(p);
        }
    }
    let p = match Periodicity::from_str(periodicity) {
        Some(p) => p,
        None => return Err(RowError::InvalidPeriodicity),
    };
    let s = match decode_date(start_date) {
        Some(d) => d,
        None => return Err(RowError::InvalidStartDate),
    };
    let e = match decode_date(end_date) {
        Some(d) => d,
        None => return Err(RowError::InvalidEndDate),
    };
    let t = match TypeCategory::from_code(type_category) {
        Some(t) => t,
        None => return Err(RowError::InvalidTypeCategory),
    };
    let n = match NecessityCategory::from_code(necessity_category) {
        Some(n) => n,
        None => return Err(RowError::InvalidNecessityCategory),
    };
    Ok(
        RegularEntry {
            id: Some(id),
            amount,
            description,
            periodicity: p,
            start_date: s,
            end_date: e,
            type_category: t,
            necessity_category: n,
            is_income: is_income != 0,
        },
    )
}

/// The month can be bounded by days of the calendar.
pub open spec fn boundable_month(year: i32, month: u32) -> bool {
    &&& 1 <= month <= 12
    &&& MIN_YEAR <= year <= MAX_YEAR
    &&& month == 12 ==> year < MAX_YEAR
}

/// Indexes below `len` in strictly increasing order.
pub open spec fn ascending_indexes(r: Seq<usize>, len: int) -> bool {
    &&& forall|k: int| 0 <= k < r.len() ==> (#[trigger] r[k]) < len
    &&& forall|a: int, b: int| 0 <= a < b < r.len() ==> r[a] < r[b]
}

/// A stored one-time amount counts for a month as an income or an expense
/// when its day falls into the month and its income flag is the one asked for.
pub open spec fn singular_counts(row: (Date, bool), year: i32, month: u32, income: bool) -> bool {
    month_of(row.0) == (year, month) && row.1 == income
}

/// A stored recurring amount counts for a month when its validity range reaches
/// into the month and its income flag is the one asked for.
pub open spec fn regular_counts(row: (Date, Date, bool), year: i32, month: u32, income: bool) -> bool {
    range_covers((row.0, row.1), (year, month)) && row.2 == income
}

/// Which stored one-time amounts, given by day and income flag, count for a
/// month on the income or the expense side.
pub fn singular_selection(rows: &Vec<(Date, bool)>, year: i32, month: u32, income: bool) -> (r: Vec<usize>)
    requires
        boundable_month(year, month),
        forall|i: int| 0 <= i < rows.len() ==> (#[trigger] rows@[i]).0.wf(),
    ensures
        ascending_indexes(r@, rows.len() as int),
        forall|i: int|
            0 <= i < rows.len() ==> (singular_counts(#[trigger] rows@[i], year, month, income)
                <==> r@.contains(i as usize)),
{
    let mut out: Vec<usize> = Vec::new();
    let mut i: usize = 0;
    while i < rows.len()
        invariant
            boundable_month(year, month),
            forall|k: int| 0 <= k < rows.len() ==> (#[trigger] rows@[k]).0.wf(),
            i <= rows.len(),
            forall|k: int| 0 <= k < out.len() ==> (#[trigger] out@[k]) < i,
            forall|a: int, b: int| 0 <= a < b < out.len() ==> out@[a] < out@[b],
            forall|k: int|
                0 <= k < i ==> (singular_counts(rows@[k], year, month, income) <==> out@.contains(
                    k as usize,
                )),
        decreases rows.len() - i,
    {
        let (day, is_income) = rows[i];
        let ghost before = out@;
        if books_in_month(&day, year, month) && is_income == income {
            out.push(i);
        }
        proof {
            assert forall|k: int| 0 <= k < i + 1 implies (singular_counts(
                rows@[k],
                year,
                month,
                income,
            ) <==> out@.contains(k as usize)) by {
                if k < i {
                    if out@.contains(k as usize) {
                        let x = choose|x: int| 0 <= x < out@.len() && out@[x] == k as usize;
                        if x < before.len() {
                            assert(before[x] == k as usize);
                        }
                    }
                    if before.contains(k as usize) {
                        let x = choose|x: int| 0 <= x < before.len() && before[x] == k as usize;
                        assert(out@[x] == k as usize);
                    }
                } else {
                    if out@.contains(k as usize) {
                        let x = choose|x: int| 0 <= x < out@.len() && out@[x] == k as usize;
                        if x < before.len() {
                            assert(before[x] < i);
                        }
                    }
                    if singular_counts(rows@[k], year, month, income) {
                        assert(out@[out@.len() - 1] == k as usize);
                    }
                }
            }
        }
        i = i + 1;
    }
    out
}

/// Which stored recurring amounts, given by first day, last day and income
/// flag, count for a month on the income or the expense side.
pub fn regular_selection(rows: &Vec<(Date, Date, bool)>, year: i32, month: u32, income: bool) -> (r: Vec<
    usize,
>)
    requires
        boundable_month(year, month),
        forall|i: int| 0 <= i < rows.len() ==> (#[trigger] rows@[i]).0.wf() && rows@[i].1.wf(),
    ensures
        ascending_indexes(r@, rows.len() as int),
        forall|i: int|
            0 <= i < rows.len() ==> (regular_counts(#[trigger] rows@[i], year, month, income)
                <==> r@.contains(i as usize)),
{
    let mut out: Vec<usize> = Vec::new();
    let mut i: usize = 0;
    while i < rows.len()
        invariant
            boundable_month(year, month),
            forall|k: int| 0 <= k < rows.len() ==> (#[trigger] rows@[k]).0.wf() && rows@[k].1.wf(),
            i <= rows.len(),
            forall|k: int| 0 <= k < out.len() ==> (#[trigger] out@[k]) < i,
            forall|a: int, b: int| 0 <= a < b < out.len() ==> out@[a] < out@[b],
            forall|k: int|
                0 <= k < i ==> (regular_counts(rows@[k], year, month, income) <==> out@.contains(
                    k as usize,
                )),
        decreases rows.len() - i,
    {
        let (start, end, is_income) = rows[i];
        let ghost before = out@;
        if active_in_month(&start, &end, year, month) && is_income == income {
            out.push(i);
        }
        proof {
            assert forall|k: int| 0 <= k < i + 1 implies (regular_counts(
                rows@[k],
                year,
                month,
                income,
            ) <==> out@.contains(k as usize)) by {
                if k < i {
                    if out@.contains(k as usize) {
                        let x = choose|x: int| 0 <= x < out@.len() && out@[x] == k as usize;
                        if x < before.len() {
                            assert(before[x] == k as usize);
                        }
                    }
                    if before.contains(k as usize) {
                        let x = choose|x: int| 0 <= x < before.len() && before[x] == k as usize;
                        assert(out@[x] == k as usize);
                    }
                } else {
                    if out@.contains(k as usize) {
                        let x = choose|x: int| 0 <= x < out@.len() && out@[x] == k as usize;
                        if x < before.len() {
                            assert(before[x] < i);
                        }
                    }
                    if regular_counts(rows@[k], year, month, income) {
                        assert(out@[out@.len() - 1] == k as usize);
                    }
                }
            }
        }
        i = i + 1;
    }
    out
}

/// The share of a recurring amount that falls on one month: all of it for a
/// monthly entry, a twelfth for a yearly one. The result is the divisor.
pub open spec fn monthly_divisor_of(periodicity: Seq<char>) -> u32 {
    if periodicity == "yearly"@ { 12 } else { 1 }
}

/// The divisor that turns a stored recurring amount into its monthly share.
pub fn monthly_divisor(periodicity: &str) -> (r: u32)
    ensures
        r == monthly_divisor_of(periodicity@),
{
    if same_text(periodicity, "yearly") { 12 } else { 1 }
}

/// The category names met so far, each once, in the order first met; each
/// total of a distribution is kept at its name's position.
pub struct CategoryKeys {
    pub keys: Vec<String>,
}

/// No name occurs twice.
pub open spec fn distinct_names(keys: Seq<String>) -> bool {
    forall|i: int, j: int| 0 <= i < j < keys.len() ==> keys[i]@ != keys[j]@
}

impl CategoryKeys {
    /// A table without names.
    pub fn new() -> (r: CategoryKeys)
        ensures
            r.keys@.len() == 0,
    {
        CategoryKeys { keys: Vec::new() }
    }

    /// The position of a name, which is added at the end when it is new.
    pub fn slot(&mut self, key: &str) -> (i: usize)
        requires
            distinct_names(old(self).keys@),
        ensures
            distinct_names(final(self).keys@),
            i < final(self).keys@.len(),
            final(self).keys@[i as int]@ == key@,
            (exists|j: int| 0 <= j < old(self).keys@.len() && old(self).keys@[j]@ == key@) ==> (
            final(self).keys@ == old(self).keys@),
            (forall|j: int| 0 <= j < old(self).keys@.len() ==> old(self).keys@[j]@ != key@) ==> (
            final(self).keys@.len() == old(self).keys@.len() + 1 && i == old(self).keys@.len()
                && forall|j: int|
                0 <= j < old(self).keys@.len() ==> final(self).keys@[j] == old(self).keys@[j]),
    {
        let mut j: usize = 0;
        while j < self.keys.len()
            invariant
                j <= self.keys.len(),
                self.keys@ == old(self).keys@,
                distinct_names(self.keys@),
                forall|k: int| 0 <= k < j ==> self.keys@[k]@ != key@,
            decreases self.keys.len() - j,
        {
            if same_text(self.keys[j].as_str(), key) {
                return j;
            }
            j = j + 1;
        }
        let ghost before = self.keys@;
        self.keys.push(key.to_owned());
        proof {
            assert forall|a: int, b: int| 0 <= a < b < self.keys@.len() implies self.keys@[a]@
                != self.keys@[b]@ by {
                if b == before.len() {
                    assert(self.keys@[a] == before[a]);
                }
            }
        }
        j
    }
}

/// Reads a stored fixed salary; `None` when its day cannot be read.
pub fn decode_fixed_salary<A>(
    id: i64,
    effective_date: &str,
    monthly_amount: A,
    payments_per_year: u32,
) -> (r: Option<FixedSalary<A>>)
    ensures
        r is Some <==> read_date(effective_date@) is Some,
        r matches Some(s) ==> s.id == Some(id) && Some(s.effective_date) == read_date(
            effective_date@,
        ) && s.monthly_amount == monthly_amount && s.payments_per_year == payments_per_year
            && s.effective_date.wf(),
{
    match decode_date(effective_date) {
        Some(d) => Some(FixedSalary { id: Some(id), effective_date: d, monthly_amount, payments_per_year }),
        None => None,
    }
}

/// Reads a stored one-time salary payment; `None` when its day cannot be read.
pub fn decode_variable_salary<A>(id: i64, date: &str, amount: A, description: String) -> (r: Option<
    VariableSalary<A>,
>)
    ensures
        r is Some <==> read_date(date@) is Some,
        r matches Some(s) ==> s.id == Some(id) && Some(s.date) == read_date(date@) && s.amount
            == amount && s.description@ == description@ && s.date.wf(),
{
    match decode_date(date) {
        Some(d) => Some(VariableSalary { id: Some(id), date: d, amount, description }),
        None => None,
    }
}

} // verus!
