//! Calendar dates of the proleptic Gregorian calendar, in the range of years
//! that chrono's `NaiveDate` represents, and the month arithmetic of the ledger.
use vstd::prelude::*;

use chrono::{Datelike, NaiveDate, TimeDelta};

use crate::text::digit_char;

verus! {

/// The first year a date can have.
pub const MIN_YEAR: i32 = -262143;

/// The last year a date can have.
pub const MAX_YEAR: i32 = 262142;

pub open spec fn is_leap_year(y: int) -> bool {
    (y % 4 == 0 && y % 100 != 0) || y % 400 == 0
}

pub open spec fn days_in_month(y: int, m: int) -> int {
    if m == 2 {
        if is_leap_year(y) { 29 } else { 28 }
    } else if m == 4 || m == 6 || m == 9 || m == 11 {
        30
    } else {
        31
    }
}

/// `year-month-day` names a day of the calendar that a date can hold.
pub open spec fn valid_ymd(y: int, m: int, d: int) -> bool {
    &&& MIN_YEAR <= y <= MAX_YEAR
    &&& 1 <= m <= 12
    &&& 1 <= d <= days_in_month(y, m)
}

/// A calendar day.
#[derive(Debug, Clone, Copy, PartialEq, Eq, Structural)]
pub struct Date {
    pub year: i32,
    pub month: u32,
    pub day: u32,
}

/// The position of a month on a line of months.
pub open spec fn month_key(y: int, m: int) -> int {
    y * 12 + (m - 1)
}

/// The position of a day on a line ordered as the calendar is.
pub open spec fn day_key(d: Date) -> int {
    (d.year as int) * 372 + (d.month as int - 1) * 31 + (d.day as int - 1)
}

impl Date {
    pub open spec fn wf(&self) -> bool {
        valid_ymd(self.year as int, self.month as int, self.day as int)
    }

    /// The date of a day, if the calendar has that day. The rule is that of
    /// chrono's `NaiveDate::from_ymd_opt`, stated by `valid_ymd`.
    pub fn from_ymd_opt(year: i32, month: u32, day: u32) -> (r: Option<Date>)
        ensures
            r is Some <==> valid_ymd(year as int, month as int, day as int),
            r matches Some(d) ==> d == (Date { year, month, day }),
    {
        if year < MIN_YEAR || year > MAX_YEAR || month < 1 || month > 12 || day < 1 {
            return None;
        }
        if day > month_length(year, month) {
            return None;
        }
        Some(Date { year, month, day })
    }

    /// The day before, if the calendar has it, as chrono's `NaiveDate::pred_opt`
    /// gives it.
    pub fn pred_opt(&self) -> (r: Option<Date>)
        requires
            self.wf(),
        ensures
            r == prev_day(*self),
    {
        if self.day > 1 {
            Some(Date { year: self.year, month: self.month, day: self.day - 1 })
        } else if self.month > 1 {
            let m = self.month - 1;
            Some(Date { year: self.year, month: m, day: month_length(self.year, m) })
        } else if self.year > MIN_YEAR {
            Some(Date { year: self.year - 1, month: 12, day: 31 })
        } else {
            None
        }
    }

    /// Whether this day comes no later than `other`.
    pub fn not_after(&self, other: &Date) -> (r: bool)
        requires
            self.wf(),
            other.wf(),
        ensures
            r == (day_key(*self) <= day_key(*other)),
    {
        proof {
            lemma_day_key_order(*self, *other);
            lemma_day_key_order(*other, *self);
        }
        if self.year != other.year {
            self.year < other.year
        } else if self.month != other.month {
            self.month < other.month
        } else {
            self.day <= other.day
        }
    }
}

proof fn lemma_day_key_order(a: Date, b: Date)
    requires
        a.wf(),
        b.wf(),
    ensures
        a.year < b.year ==> day_key(a) < day_key(b),
        a.year == b.year && a.month < b.month ==> day_key(a) < day_key(b),
{
    if a.year < b.year {
        let ya = a.year as int;
        let yb = b.year as int;
        assert(ya * 372 + 371 < yb * 372) by (nonlinear_arith)
            requires ya < yb;
    }
}

/// The day before a date, `None` for the first day of the calendar.
pub open spec fn prev_day(d: Date) -> Option<Date> {
    if d.day > 1 {
        Some(Date { year: d.year, month: d.month, day: (d.day - 1) as u32 })
    } else if d.month > 1 {
        Some(
            Date {
                year: d.year,
                month: (d.month - 1) as u32,
                day: days_in_month(d.year as int, d.month - 1) as u32,
            },
        )
    } else if d.year > MIN_YEAR {
        Some(Date { year: (d.year - 1) as i32, month: 12, day: 31 })
    } else {
        None
    }
}

/// Whether a year of the calendar is a leap year.
pub fn leap_year(year: i32) -> (r: bool)
    requires
        MIN_YEAR <= year <= MAX_YEAR,
    ensures
        r == is_leap_year(year as int),
{
    // The shift is a multiple of 400 that makes the year positive.
    let y: i64 = year as i64 + 400000;
    proof {
        assert(y % 4 == (year as int) % 4) by (nonlinear_arith)
            requires y == year as int + 400000;
        assert(y % 100 == (year as int) % 100) by (nonlinear_arith)
            requires y == year as int + 400000;
        assert(y % 400 == (year as int) % 400) by (nonlinear_arith)
            requires y == year as int + 400000;
    }
    (y % 4 == 0 && y % 100 != 0) || y % 400 == 0
}

/// The number of days of a month.
pub fn month_length(year: i32, month: u32) -> (r: u32)
    requires
        MIN_YEAR <= year <= MAX_YEAR,
    ensures
        r == days_in_month(year as int, month as int),
{
    if month == 2 {
        if leap_year(year) { 29 } else { 28 }
    } else if month == 4 || month == 6 || month == 9 || month == 11 {
        30
    } else {
        31
    }
}

/// The last day of a month, when the calendar also has the first day of the
/// month after it.
pub open spec fn month_end_spec(year: int, month: int) -> Option<Date> {
    if MIN_YEAR <= year <= MAX_YEAR && (month < 12 || year < MAX_YEAR) {
        Some(Date { year: year as i32, month: month as u32, day: days_in_month(year, month) as u32 })
    } else {
        None
    }
}

/// The last day of a month: the day before the first day of the next month.
/// `None` when the calendar lacks that first day.
pub fn month_end(year: i32, month: u32) -> (r: Option<Date>)
    requires
        1 <= month <= 12,
    ensures
        r == month_end_spec(year as int, month as int),
{
    let next = if month == 12 {
        if year == i32::MAX {
            None
        } else {
            Date::from_ymd_opt(year + 1, 1, 1)
        }
    } else {
        Date::from_ymd_opt(year, month + 1, 1)
    };
    match next {
        Some(first) => {
            let last = first.pred_opt();
            proof {
                if month < 12 {
                    assert(first == Date { year, month: (month + 1) as u32, day: 1 });
                } else {
                    assert(days_in_month(year as int, 12) == 31);
                }
            }
            last
        },
        None => None,
    }
}

/// The first and the last day of a month.
pub fn month_bounds(year: i32, month: u32) -> (r: (Date, Date))
    requires
        1 <= month <= 12,
        MIN_YEAR <= year <= MAX_YEAR,
        month == 12 ==> year < MAX_YEAR,
    ensures
        r.0 == (Date { year, month, day: 1 }),
        r.1 == (Date { year, month, day: days_in_month(year as int, month as int) as u32 }),
        r.0.wf(),
        r.1.wf(),
{
    let first = Date::from_ymd_opt(year, month, 1).unwrap();
    let last = month_end(year, month).unwrap();
    (first, last)
}

/// Whether a day falls into a month: it lies between the month's first and
/// last day.
pub fn books_in_month(d: &Date, year: i32, month: u32) -> (r: bool)
    requires
        d.wf(),
        1 <= month <= 12,
        MIN_YEAR <= year <= MAX_YEAR,
        month == 12 ==> year < MAX_YEAR,
    ensures
        r == (month_of(*d) == (year, month)),
{
    let (first, last) = month_bounds(year, month);
    proof {
        lemma_day_key_order(first, *d);
        lemma_day_key_order(*d, first);
        lemma_day_key_order(last, *d);
        lemma_day_key_order(*d, last);
    }
    first.not_after(d) && d.not_after(&last)
}

/// Whether a validity range reaches into a month: it starts no later than the
/// month's last day and ends no earlier than the month's first day.
pub fn active_in_month(start: &Date, end: &Date, year: i32, month: u32) -> (r: bool)
    requires
        start.wf(),
        end.wf(),
        1 <= month <= 12,
        MIN_YEAR <= year <= MAX_YEAR,
        month == 12 ==> year < MAX_YEAR,
    ensures
        r == range_covers((*start, *end), (year, month)),
{
    let (first, last) = month_bounds(year, month);
    proof {
        lemma_day_key_order(first, *end);
        lemma_day_key_order(*end, first);
        lemma_day_key_order(last, *start);
        lemma_day_key_order(*start, last);
        lemma_ym_key_order(month_of(*start), (year, month));
        lemma_ym_key_order((year, month), month_of(*start));
        lemma_ym_key_order(month_of(*end), (year, month));
        lemma_ym_key_order((year, month), month_of(*end));
    }
    start.not_after(&last) && first.not_after(end)
}

/// Every month in which a booked day or a validity range counts is offered for
/// navigation: the month of each day, and each month that a range reaches into.
pub proof fn lemma_counted_months_are_listed(
    days: Seq<Date>,
    ranges: Seq<(Date, Date)>,
    today: Date,
    ym: (i32, u32),
)
    ensures
        (exists|i: int| 0 <= i < days.len() && month_of(days[i]) == ym) ==> is_listed_month(
            ym,
            days,
            ranges,
            today,
        ),
        (exists|j: int| 0 <= j < ranges.len() && range_covers(ranges[j], ym)) ==> is_listed_month(
            ym,
            days,
            ranges,
            today,
        ),
        month_of(today) == ym ==> is_listed_month(ym, days, ranges, today),
{
}

/// The months have their Gregorian lengths: thirty days in April, June,
/// September and November, twenty-eight or, in a leap year, twenty-nine in
/// February, thirty-one in the others; so a year has 365 days, or 366 in a leap
/// year, and the last day of each month is that day of the month.
pub proof fn lemma_gregorian_month_lengths(year: int)
    requires
        MIN_YEAR <= year <= MAX_YEAR,
    ensures
        days_in_month(year, 1) == 31,
        days_in_month(year, 2) == (if is_leap_year(year) { 29int } else { 28int }),
        days_in_month(year, 3) == 31,
        days_in_month(year, 4) == 30,
        days_in_month(year, 5) == 31,
        days_in_month(year, 6) == 30,
        days_in_month(year, 7) == 31,
        days_in_month(year, 8) == 31,
        days_in_month(year, 9) == 30,
        days_in_month(year, 10) == 31,
        days_in_month(year, 11) == 30,
        days_in_month(year, 12) == 31,
        days_in_month(year, 1) + days_in_month(year, 2) + days_in_month(year, 3) + days_in_month(
            year,
            4,
        ) + days_in_month(year, 5) + days_in_month(year, 6) + days_in_month(year, 7)
            + days_in_month(year, 8) + days_in_month(year, 9) + days_in_month(year, 10)
            + days_in_month(year, 11) + days_in_month(year, 12) == (if is_leap_year(year) {
            366int
        } else {
            365int
        }),
        forall|m: int| 1 <= m <= 12 ==> 28 <= #[trigger] days_in_month(year, m) <= 31,
        forall|m: int|
            1 <= m <= 12 && (m < 12 || year < MAX_YEAR) ==> #[trigger] month_end_spec(year, m)
                == Some(Date { year: year as i32, month: m as u32, day: days_in_month(year, m) as u32 }),
        !valid_ymd(year, 4, 31) && !valid_ymd(year, 6, 31) && !valid_ymd(year, 9, 31) && !valid_ymd(
            year,
            11,
            31,
        ) && !valid_ymd(year, 2, 30),
        valid_ymd(year, 2, 29) == is_leap_year(year),
{
}

/// Leap years follow the Gregorian rule: 2024 and 2000 are leap years, 1900 and
/// 2025 are not.
pub proof fn lemma_leap_year_examples()
    ensures
        is_leap_year(2024),
        is_leap_year(2000),
        !is_leap_year(1900),
        !is_leap_year(2025),
{
}

/// The last day of a month is the day before the first day of the next month.
pub proof fn lemma_month_end_precedes_next_month(year: i32, month: u32)
    requires
        1 <= month <= 12,
        MIN_YEAR <= year <= MAX_YEAR,
        month == 12 ==> year < MAX_YEAR,
    ensures
        month_end_spec(year as int, month as int) is Some,
        prev_day(
            if month == 12 {
                Date { year: (year + 1) as i32, month: 1, day: 1 }
            } else {
                Date { year, month: (month + 1) as u32, day: 1 }
            },
        ) == month_end_spec(year as int, month as int),
{
}

/// The month of a day, as year and month.
pub open spec fn month_of(d: Date) -> (i32, u32) {
    (d.year, d.month)
}

/// The position of a year-and-month on the line of months.
pub open spec fn ym_key(ym: (i32, u32)) -> int {
    month_key(ym.0 as int, ym.1 as int)
}

/// A range of days reaches into a month: the month lies between the month of
/// its first day and the month of its last day.
pub open spec fn range_covers(r: (Date, Date), ym: (i32, u32)) -> bool {
    &&& 1 <= ym.1 <= 12
    &&& ym_key(month_of(r.0)) <= ym_key(ym) <= ym_key(month_of(r.1))
}

/// A month holds a booked day, lies in a validity range, or is the current month.
pub open spec fn is_listed_month(
    ym: (i32, u32),
    days: Seq<Date>,
    ranges: Seq<(Date, Date)>,
    today: Date,
) -> bool {
    ||| exists|i: int| 0 <= i < days.len() && month_of(#[trigger] days[i]) == ym
    ||| exists|j: int| 0 <= j < ranges.len() && range_covers(#[trigger] ranges[j], ym)
    ||| month_of(today) == ym
}

/// Months in strictly increasing order, each with a month number from 1 to 12.
pub open spec fn ascending_months(s: Seq<(i32, u32)>) -> bool {
    &&& forall|i: int| 0 <= i < s.len() ==> 1 <= (#[trigger] s[i]).1 <= 12
    &&& forall|i: int, j: int| 0 <= i < j < s.len() ==> ym_key(s[i]) < ym_key(s[j])
}

proof fn lemma_ym_key_order(a: (i32, u32), b: (i32, u32))
    requires
        1 <= a.1 <= 12,
        1 <= b.1 <= 12,
    ensures
        ym_key(a) < ym_key(b) <==> (a.0 < b.0 || (a.0 == b.0 && a.1 < b.1)),
        ym_key(a) == ym_key(b) <==> a == b,
{
    let ya = a.0 as int;
    let yb = b.0 as int;
    if ya < yb {
        assert(ya * 12 + 11 < yb * 12) by (nonlinear_arith)
            requires ya < yb;
    } else if yb < ya {
        assert(yb * 12 + 11 < ya * 12) by (nonlinear_arith)
            requires yb < ya;
    }
}

fn ym_less(a: (i32, u32), b: (i32, u32)) -> (r: bool)
    requires
        1 <= a.1 <= 12,
        1 <= b.1 <= 12,
    ensures
        r == (ym_key(a) < ym_key(b)),
{
    proof {
        lemma_ym_key_order(a, b);
    }
    a.0 < b.0 || (a.0 == b.0 && a.1 < b.1)
}

/// Adds a month to an ascending list of months, keeping it ascending.
fn insert_month(v: &mut Vec<(i32, u32)>, ym: (i32, u32))
    requires
        ascending_months(old(v)@),
        1 <= ym.1 <= 12,
    ensures
        ascending_months(final(v)@),
        forall|x: (i32, u32)| final(v)@.contains(x) <==> (old(v)@.contains(x) || x == ym),
{
    let mut p: usize = 0;
    while p < v.len() && ym_less(v[p], ym)
        invariant
            ascending_months(v@),
            1 <= ym.1 <= 12,
            p <= v.len(),
            forall|k: int| 0 <= k < p ==> ym_key(v@[k]) < ym_key(ym),
        decreases v.len() - p,
    {
        p = p + 1;
    }
    if p < v.len() && v[p].0 == ym.0 && v[p].1 == ym.1 {
        assert(v@[p as int] == ym);
        return;
    }
    proof {
        if p < v.len() {
            lemma_ym_key_order(v@[p as int], ym);
        }
    }
    let ghost before = v@;
    v.insert(p, ym);
    proof {
        before.insert_ensures(p as int, ym);
        assert forall|i: int, j: int| 0 <= i < j < v@.len() implies ym_key(v@[i]) < ym_key(
            v@[j],
        ) by {
            if j < p {
            } else if j == p {
            } else if i < p {
                assert(ym_key(before[j - 1]) > ym_key(ym) || j - 1 >= p);
            } else if i == p {
            } else {
            }
        }
        assert forall|x: (i32, u32)| v@.contains(x) <==> (before.contains(x) || x == ym) by {
            if v@.contains(x) {
                let i = choose|i: int| 0 <= i < v@.len() && v@[i] == x;
                if i < p {
                    assert(before[i] == x);
                } else if i > p {
                    assert(before[i - 1] == x);
                }
            }
            if before.contains(x) {
                let i = choose|i: int| 0 <= i < before.len() && before[i] == x;
                if i < p {
                    assert(v@[i] == x);
                } else {
                    assert(v@[i + 1] == x);
                }
            }
            if x == ym {
                assert(v@[p as int] == x);
            }
        }
    }
}

/// The months to offer for navigation: every month that holds one of `days`,
/// every month that one of `ranges` reaches into, and the month of `today`,
/// each once, in calendar order.
pub fn available_months(days: &Vec<Date>, ranges: &Vec<(Date, Date)>, today: Date) -> (r: Vec<
    (i32, u32),
>)
    requires
        forall|i: int| 0 <= i < days.len() ==> (#[trigger] days@[i]).wf(),
        forall|j: int|
            0 <= j < ranges.len() ==> (#[trigger] ranges@[j]).0.wf() && ranges@[j].1.wf(),
        forall|j: int|
            0 <= j < ranges.len() ==> (#[trigger] ranges@[j]).1.year != MAX_YEAR
                || ranges@[j].1.month < 12 || ym_key(month_of(ranges@[j].0)) > ym_key(
                month_of(ranges@[j].1),
            ),
        today.wf(),
    ensures
        ascending_months(r@),
        forall|ym: (i32, u32)| r@.contains(ym) <==> is_listed_month(ym, days@, ranges@, today),
{
    let mut out: Vec<(i32, u32)> = Vec::new();
    let mut i: usize = 0;
    while i < days.len()
        invariant
            i <= days.len(),
            forall|k: int| 0 <= k < days.len() ==> (#[trigger] days@[k]).wf(),
            ascending_months(out@),
            forall|ym: (i32, u32)|
                out@.contains(ym) <==> exists|k: int|
                    0 <= k < i && month_of(#[trigger] days@[k]) == ym,
        decreases days.len() - i,
    {
        let d = days[i];
        insert_month(&mut out, (d.year, d.month));
        proof {
            assert forall|ym: (i32, u32)|
                out@.contains(ym) <==> exists|k: int|
                    0 <= k < i + 1 && month_of(#[trigger] days@[k]) == ym by {
                if ym == (d.year, d.month) {
                    assert(month_of(days@[i as int]) == ym);
                }
            }
        }
        i = i + 1;
    }
    let mut j: usize = 0;
    while j < ranges.len()
        invariant
            j <= ranges.len(),
            forall|k: int|
                0 <= k < ranges.len() ==> (#[trigger] ranges@[k]).0.wf() && ranges@[k].1.wf(),
            forall|k: int|
                0 <= k < ranges.len() ==> (#[trigger] ranges@[k]).1.year != MAX_YEAR
                    || ranges@[k].1.month < 12 || ym_key(month_of(ranges@[k].0)) > ym_key(
                    month_of(ranges@[k].1),
                ),
            ascending_months(out@),
            forall|ym: (i32, u32)|
                out@.contains(ym) <==> (exists|k: int|
                    0 <= k < days.len() && month_of(#[trigger] days@[k]) == ym) || (exists|
                    k: int,
                | 0 <= k < j && range_covers(#[trigger] ranges@[k], ym)),
        decreases ranges.len() - j,
    {
        let (start, end) = ranges[j];
        let ghost before = out@;
        assert(start.wf() && end.wf());
        let mut y: i32 = start.year;
        let mut m: u32 = start.month;
        while y < end.year || (y == end.year && m <= end.month)
            invariant
                start == ranges@[j as int].0,
                end == ranges@[j as int].1,
                start.wf(),
                end.wf(),
                end.year != MAX_YEAR || end.month < 12 || ym_key(month_of(start)) > ym_key(
                    month_of(end),
                ),
                1 <= m <= 12,
                MIN_YEAR <= y <= MAX_YEAR,
                ym_key(month_of(start)) <= ym_key((y, m)),
                ym_key((y, m)) <= ym_key(month_of(end)) + 1 || ((y, m) == month_of(start)
                    && ym_key(month_of(start)) > ym_key(month_of(end))),
                ascending_months(out@),
                forall|ym: (i32, u32)|
                    out@.contains(ym) <==> (before.contains(ym) || (1 <= ym.1 <= 12 && ym_key(
                        month_of(start),
                    ) <= ym_key(ym) < ym_key((y, m)))),
            decreases ym_key(month_of(end)) + 1 - ym_key((y, m)),
        {
            proof {
                lemma_ym_key_order((y, m), month_of(end));
            }
            let ghost prev = out@;
            insert_month(&mut out, (y, m));
            let ghost cur = (y, m);
            if m == 12 {
                y = y + 1;
                m = 1;
            } else {
                m = m + 1;
            }
            proof {
                assert(ym_key((y, m)) == ym_key(cur) + 1);
                assert forall|ym: (i32, u32)|
                    out@.contains(ym) <==> (before.contains(ym) || (1 <= ym.1 <= 12 && ym_key(
                        month_of(start),
                    ) <= ym_key(ym) < ym_key((y, m)))) by {
                    if 1 <= ym.1 <= 12 && ym_key(ym) == ym_key(cur) {
                        lemma_ym_key_order(ym, cur);
                    }
                    if out@.contains(ym) {
                        if ym != cur {
                            assert(prev.contains(ym));
                        }
                    }
                    if before.contains(ym) {
                        assert(prev.contains(ym));
                    }
                    if 1 <= ym.1 <= 12 && ym_key(month_of(start)) <= ym_key(ym) < ym_key(cur) {
                        assert(prev.contains(ym));
                    }
                }
            }
        }
        proof {
            if y < end.year || (y == end.year && m <= end.month) {
            } else {
                lemma_ym_key_order((y, m), month_of(end));
            }
            assert forall|ym: (i32, u32)|
                out@.contains(ym) <==> (exists|k: int|
                    0 <= k < days.len() && month_of(#[trigger] days@[k]) == ym) || (exists|
                    k: int,
                | 0 <= k < j + 1 && range_covers(#[trigger] ranges@[k], ym)) by {
                if exists|k: int| 0 <= k < j + 1 && range_covers(#[trigger] ranges@[k], ym) {
                    let k = choose|k: int| 0 <= k < j + 1 && range_covers(#[trigger] ranges@[k], ym);
                    if k < j {
                        assert(before.contains(ym));
                    } else {
                        assert(ym_key(ym) < ym_key((y, m)));
                    }
                }
                if out@.contains(ym) && !before.contains(ym) {
                    assert(1 <= ym.1 <= 12);
                    assert(ym_key(month_of(start)) <= ym_key(ym));
                    assert(ym_key(ym) < ym_key((y, m)));
                    assert(ym_key((y, m)) > ym_key(month_of(end)));
                    assert(range_covers(ranges@[j as int], ym));
                }
                if before.contains(ym) {
                    assert((exists|k: int|
                    0 <= k < days.len() && month_of(#[trigger] days@[k]) == ym) || (exists|
                    k: int,
                | 0 <= k < j && range_covers(#[trigger] ranges@[k], ym)));
                }
            }
        }
        j = j + 1;
    }
    insert_month(&mut out, (today.year, today.month));
    proof {
        assert forall|ym: (i32, u32)|
            out@.contains(ym) <==> is_listed_month(ym, days@, ranges@, today) by {
        }
    }
    out
}

/// Two digits of a number below one hundred.
pub open spec fn two_digits(n: int) -> Seq<char> {
    seq![digit_char(n / 10), digit_char(n % 10)]
}

/// The `YYYY-MM-DD` notation of a date whose year has at most four digits.
pub open spec fn iso_text(d: Date) -> Seq<char> {
    two_digits(d.year / 100) + two_digits((d.year % 100) as int) + seq!['-'] + two_digits(d.month as int)
        + seq!['-'] + two_digits(d.day as int)
}

/// What chrono's `NaiveDate` shows for a day.
pub uninterp spec fn shown_date(year: int, month: int, day: int) -> Seq<char>;

/// What chrono's `NaiveDate::parse_from_str` reads from a text with a format,
/// as year, month and day.
pub uninterp spec fn parsed_date(text: Seq<char>, format: Seq<char>) -> Option<(int, int, int)>;

/// What chrono gives for the day a number of days after a day (`checked_add_signed`
/// with `TimeDelta::try_days`), as year, month and day.
pub uninterp spec fn shifted_date(year: int, month: int, day: int, days: int) -> Option<(int, int, int)>;

/// `NaiveDate`'s `Display` (via `ToString`). For years 0 to 9999 chrono's source
/// writes the year in four digits, then `-`, the month and `-` and the day in two
/// digits each; for other years it writes a sign and more digits, which is left
/// to the name.
#[verifier::external_body]
pub(crate) fn date_text(d: &Date) -> (r: String)
    requires
        d.wf(),
    ensures
        r@ == shown_date(d.year as int, d.month as int, d.day as int),
        0 <= d.year <= 9999 ==> r@ == iso_text(*d),
{
    NaiveDate::from_ymd_opt(d.year, d.month, d.day).unwrap().to_string()
}

/// `NaiveDate::parse_from_str`. Its result is named; what it gives is always a day
/// of the calendar, and with the format `%Y-%m-%d` it reads the `YYYY-MM-DD`
/// notation of a day with a four-digit year back as that day (four digits for
/// `%Y`, two for `%m` and `%d`, literal dashes, and the whole text consumed).
#[verifier::external_body]
pub(crate) fn parse_date(s: &str, fmt: &str) -> (r: Option<Date>)
    ensures
        r is Some <==> parsed_date(s@, fmt@) is Some,
        r matches Some(x) ==> x.wf() && parsed_date(s@, fmt@) == Some(
            (x.year as int, x.month as int, x.day as int),
        ),
        fmt@ == "%Y-%m-%d"@ ==> forall|x: Date|
            #![trigger iso_text(x)]
            x.wf() && 0 <= x.year <= 9999 && s@ == iso_text(x) ==> r == Some(x),
{
    match NaiveDate::parse_from_str(s, fmt) {
        Ok(nd) => Some(Date { year: nd.year(), month: nd.month(), day: nd.day() }),
        Err(_) => None,
    }
}

/// `NaiveDate::checked_add_signed` with `TimeDelta::try_days`: the day `days`
/// days after `d`; `None` when chrono cannot represent the span or the result.
#[verifier::external_body]
pub(crate) fn add_days(d: &Date, days: i64) -> (r: Option<Date>)
    requires
        d.wf(),
    ensures
        r is Some <==> shifted_date(d.year as int, d.month as int, d.day as int, days as int) is Some,
        r matches Some(x) ==> x.wf() && shifted_date(
            d.year as int,
            d.month as int,
            d.day as int,
            days as int,
        ) == Some((x.year as int, x.month as int, x.day as int)),
{
    let base = NaiveDate::from_ymd_opt(d.year, d.month, d.day).unwrap();
    match TimeDelta::try_days(days) {
        Some(delta) => match base.checked_add_signed(delta) {
            Some(nd) => Some(Date { year: nd.year(), month: nd.month(), day: nd.day() }),
            None => None,
        },
        None => None,
    }
}

} // verus!
