//! Text helpers: comparison, searching, number reading and decimal rendering.
use vstd::prelude::*;

verus! {

/// What `str::to_lowercase` makes of a text.
pub uninterp spec fn lowercased(text: Seq<char>) -> Seq<char>;

/// What `str::trim` leaves of a text.
pub uninterp spec fn trimmed(text: Seq<char>) -> Seq<char>;

/// Every character of the text is an ASCII character.
pub open spec fn is_ascii_text(s: Seq<char>) -> bool {
    forall|i: int| 0 <= i < s.len() ==> (#[trigger] s[i] as u32) < 128
}

/// An ASCII capital letter made small; any other character is kept.
pub open spec fn ascii_lower_char(c: char) -> char {
    if 65 <= (c as u32) <= 90 {
        ((c as u32) + 32) as char
    } else {
        c
    }
}

/// The text with its ASCII capital letters made small.
pub open spec fn ascii_lowercase(s: Seq<char>) -> Seq<char> {
    s.map_values(|c: char| ascii_lower_char(c))
}

/// `str::to_lowercase`: the text with every character replaced by its
/// lowercase mapping. Its result is named; of an all-ASCII text it is stated:
/// Unicode's lowercase mapping of an ASCII character is one character, the
/// small letter for a capital letter and the character itself otherwise.
#[verifier::external_body]
pub(crate) fn lowercase(s: &str) -> (r: String)
    ensures
        r@ == lowercased(s@),
        is_ascii_text(s@) ==> r@ == ascii_lowercase(s@),
{
    s.to_lowercase()
}

/// `str::trim`: the text without its leading and trailing white space.
/// Its result is named, not described.
#[verifier::external_body]
pub(crate) fn trim_text(s: &str) -> (r: &str)
    ensures
        r@ == trimmed(s@),
{
    s.trim()
}

/// `String::push`: appends one character.
#[verifier::external_body]
pub(crate) fn push_char(s: &mut String, c: char)
    ensures
        final(s)@ == old(s)@.push(c),
{
    s.push(c)
}

/// Whether two texts hold the same characters.
pub fn same_text(a: &str, b: &str) -> (r: bool)
    ensures
        r == (a@ == b@),
{
    let x = a.to_owned();
    let y = b.to_owned();
    x == y
}

/// The characters of a text.
pub fn chars_of(s: &str) -> (r: Vec<char>)
    ensures
        r@ == s@,
{
    let n = s.unicode_len();
    let mut out: Vec<char> = Vec::new();
    let mut i: usize = 0;
    while i < n
        invariant
            n == s@.len(),
            i <= n,
            out@ == s@.subrange(0, i as int),
        decreases n - i,
    {
        let c = s.get_char(i);
        out.push(c);
        i = i + 1;
        assert(out@ =~= s@.subrange(0, i as int));
    }
    assert(out@ =~= s@);
    out
}

/// A text made of the given characters.
pub fn text_of(cs: &Vec<char>) -> (r: String)
    ensures
        r@ == cs@,
{
    let mut out = String::new();
    let mut i: usize = 0;
    while i < cs.len()
        invariant
            i <= cs.len(),
            out@ == cs@.subrange(0, i as int),
        decreases cs.len() - i,
    {
        push_char(&mut out, cs[i]);
        i = i + 1;
        assert(out@ =~= cs@.subrange(0, i as int));
    }
    assert(out@ =~= cs@);
    out
}

/// `needle` occurs in `hay` at position `i`.
pub open spec fn occurs_at(hay: Seq<char>, needle: Seq<char>, i: int) -> bool {
    0 <= i && i + needle.len() <= hay.len() && hay.subrange(i, i + needle.len()) == needle
}

/// `needle` occurs somewhere in `hay`.
pub open spec fn has_infix(hay: Seq<char>, needle: Seq<char>) -> bool {
    exists|i: int| occurs_at(hay, needle, i)
}

fn occurs_at_exec(hay: &Vec<char>, needle: &Vec<char>, i: usize) -> (r: bool)
    requires
        i + needle.len() <= hay.len(),
    ensures
        r == occurs_at(hay@, needle@, i as int),
{
    let mut j: usize = 0;
    while j < needle.len()
        invariant
            i + needle.len() <= hay.len(),
            j <= needle.len(),
            forall|k: int| 0 <= k < j ==> hay@[i + k] == needle@[k],
        decreases needle.len() - j,
    {
        if hay[i + j] != needle[j] {
            assert(hay@.subrange(i as int, i + needle.len())[j as int] != needle@[j as int]);
            return false;
        }
        j = j + 1;
    }
    assert(hay@.subrange(i as int, i + needle.len()) =~= needle@);
    true
}

/// Whether `needle` occurs in `hay`.
pub fn contains_text(hay: &str, needle: &str) -> (r: bool)
    ensures
        r == has_infix(hay@, needle@),
{
    let h = chars_of(hay);
    let n = chars_of(needle);
    if n.len() > h.len() {
        assert forall|i: int| !occurs_at(hay@, needle@, i) by {}
        return false;
    }
    let last = h.len() - n.len();
    let mut i: usize = 0;
    loop
        invariant
            last + n.len() == h.len(),
            i <= last,
            h@ == hay@,
            n@ == needle@,
            forall|k: int| 0 <= k < i ==> !occurs_at(hay@, needle@, k),
        decreases last - i,
    {
        if occurs_at_exec(&h, &n, i) {
            return true;
        }
        if i == last {
            assert forall|k: int| !occurs_at(hay@, needle@, k) by {
                if 0 <= k && k + needle@.len() <= hay@.len() {
                    assert(k <= i);
                }
            }
            return false;
        }
        i = i + 1;
    }
}

/// The character of a decimal digit.
pub open spec fn digit_char(d: int) -> char {
    if d == 0 { '0' }
    else if d == 1 { '1' }
    else if d == 2 { '2' }
    else if d == 3 { '3' }
    else if d == 4 { '4' }
    else if d == 5 { '5' }
    else if d == 6 { '6' }
    else if d == 7 { '7' }
    else if d == 8 { '8' }
    else { '9' }
}

/// The value of a decimal digit character, if it is one.
pub open spec fn digit_value(c: char) -> Option<int> {
    if c == '0' { Some(0) }
    else if c == '1' { Some(1) }
    else if c == '2' { Some(2) }
    else if c == '3' { Some(3) }
    else if c == '4' { Some(4) }
    else if c == '5' { Some(5) }
    else if c == '6' { Some(6) }
    else if c == '7' { Some(7) }
    else if c == '8' { Some(8) }
    else if c == '9' { Some(9) }
    else { None }
}

/// The decimal notation of a natural number, without leading zeros.
pub open spec fn decimal(n: nat) -> Seq<char>
    decreases n,
{
    if n < 10 {
        seq![digit_char(n as int)]
    } else {
        decimal(n / 10).push(digit_char((n % 10) as int))
    }
}

fn digit_of(d: u128) -> (c: char)
    requires
        d < 10,
    ensures
        c == digit_char(d as int),
{
    if d == 0 { '0' }
    else if d == 1 { '1' }
    else if d == 2 { '2' }
    else if d == 3 { '3' }
    else if d == 4 { '4' }
    else if d == 5 { '5' }
    else if d == 6 { '6' }
    else if d == 7 { '7' }
    else if d == 8 { '8' }
    else { '9' }
}

/// Appends the decimal notation of `n`.
pub fn push_decimal(out: &mut String, n: u128)
    ensures
        final(out)@ == old(out)@ + decimal(n as nat),
    decreases n,
{
    if n < 10 {
        push_char(out, digit_of(n));
        assert(final(out)@ =~= old(out)@ + decimal(n as nat)) by {
            assert(decimal(n as nat) == seq![digit_char(n as int)]);
        }
    } else {
        push_decimal(out, n / 10);
        push_char(out, digit_of(n % 10));
        assert(final(out)@ =~= old(out)@ + decimal(n as nat));
    }
}

/// The value of a sequence of decimal digits, read from the left; `None` when a
/// character is not a digit.
pub open spec fn digits_value(s: Seq<char>) -> Option<nat>
    decreases s.len(),
{
    if s.len() == 0 {
        Some(0)
    } else {
        match (digits_value(s.drop_last()), digit_value(s.last())) {
            (Some(v), Some(d)) => Some((v * 10 + d) as nat),
            _ => None,
        }
    }
}

/// How `u32::from_str` reads a text: an optional `+`, then at least one
/// decimal digit, and a value that fits into 32 bits.
pub open spec fn u32_reading(s: Seq<char>) -> Option<u32> {
    let body = if s.len() > 0 && s[0] == '+' { s.drop_first() } else { s };
    if body.len() == 0 {
        None
    } else {
        match digits_value(body) {
            Some(v) => if v <= u32::MAX { Some(v as u32) } else { None },
            None => None,
        }
    }
}

proof fn lemma_digits_value_grows(s: Seq<char>, k: int)
    requires
        0 <= k <= s.len(),
        digits_value(s) is Some,
    ensures
        digits_value(s.subrange(0, k)) is Some,
        digits_value(s.subrange(0, k))->0 <= digits_value(s)->0,
    decreases s.len(),
{
    if k < s.len() {
        assert(s.drop_last() =~= s.subrange(0, s.len() - 1));
        lemma_digits_value_grows(s.drop_last(), k);
        assert(s.drop_last().subrange(0, k) =~= s.subrange(0, k));
    } else {
        assert(s.subrange(0, k) =~= s);
    }
}

/// Reads a text as `u32::from_str` does.
pub fn parse_u32(s: &str) -> (r: Option<u32>)
    ensures
        r == u32_reading(s@),
{
    let cs = chars_of(s);
    let start: usize = if cs.len() > 0 && cs[0] == '+' { 1 } else { 0 };
    let ghost body = if s@.len() > 0 && s@[0] == '+' { s@.drop_first() } else { s@ };
    assert(body =~= cs@.subrange(start as int, cs@.len() as int));
    if start >= cs.len() {
        assert(body.len() == 0);
        return None;
    }
    assert(cs@.subrange(start as int, start as int) =~= Seq::<char>::empty());
    let mut value: u64 = 0;
    let mut i: usize = start;
    while i < cs.len()
        invariant
            cs@ == s@,
            start <= i <= cs.len(),
            body == cs@.subrange(start as int, cs@.len() as int),
            body == (if s@.len() > 0 && s@[0] == '+' { s@.drop_first() } else { s@ }),
            digits_value(cs@.subrange(start as int, i as int)) == Some(value as nat),
            value <= u32::MAX,
        decreases cs.len() - i,
    {
        let c = cs[i];
        let ghost prefix = cs@.subrange(start as int, i + 1);
        assert(prefix.drop_last() =~= cs@.subrange(start as int, i as int));
        assert(prefix.last() == c);
        let d: u64 = if c == '0' { 0 } else if c == '1' { 1 } else if c == '2' { 2 }
            else if c == '3' { 3 } else if c == '4' { 4 } else if c == '5' { 5 }
            else if c == '6' { 6 } else if c == '7' { 7 } else if c == '8' { 8 }
            else if c == '9' { 9 } else {
                proof {
                    assert(digits_value(prefix) is None);
                    assert(body.subrange(0, (i + 1 - start) as int) =~= prefix);
                    if digits_value(body) is Some {
                        lemma_digits_value_grows(body, (i + 1 - start) as int);
                    }
                    assert(digits_value(body) is None);
                    assert(body.len() > 0);
                }
                return None;
            };
        assert(digit_value(c) == Some(d as int));
        let next: u64 = value * 10 + d;
        if next > 4294967295u64 {
            proof {
                assert(digits_value(prefix) == Some(next as nat));
                assert(body.subrange(0, (i + 1 - start) as int) =~= prefix);
                if digits_value(body) is Some {
                    lemma_digits_value_grows(body, (i + 1 - start) as int);
                }
                assert(body.len() > 0);
            }
            return None;
        }
        value = next;
        i = i + 1;
    }
    assert(cs@.subrange(start as int, i as int) =~= body);
    Some(value as u32)
}

/// A number text in German notation (`.` between thousands, `,` before the
/// decimals) rewritten with `.` before the decimals and no thousands marks.
pub open spec fn german_number(s: Seq<char>) -> Seq<char>
    decreases s.len(),
{
    if s.len() == 0 {
        s
    } else {
        let rest = german_number(s.drop_last());
        if s.last() == '.' {
            rest
        } else if s.last() == ',' {
            rest.push('.')
        } else {
            rest.push(s.last())
        }
    }
}

/// A number text as it is handed to the number reader: a text with a comma is
/// read in German notation, any other text as it is.
pub open spec fn number_text(s: Seq<char>) -> Seq<char> {
    if s.contains(',') {
        german_number(s)
    } else {
        s
    }
}

/// Rewrites a number text for the number reader; see `number_text`.
pub fn normalize_number_text(s: &str) -> (r: String)
    ensures
        r@ == number_text(s@),
{
    let cs = chars_of(s);
    let mut has_comma = false;
    let mut i: usize = 0;
    while i < cs.len()
        invariant
            i <= cs.len(),
            has_comma == (exists|k: int| 0 <= k < i && cs@[k] == ','),
        decreases cs.len() - i,
    {
        if cs[i] == ',' {
            has_comma = true;
        }
        i = i + 1;
    }
    if !has_comma {
        assert(!s@.contains(',')) by {
            if s@.contains(',') {
                let k = choose|k: int| 0 <= k < s@.len() && s@[k] == ',';
                assert(cs@[k] == ',');
            }
        }
        return s.to_owned();
    }
    let mut out: Vec<char> = Vec::new();
    let mut j: usize = 0;
    while j < cs.len()
        invariant
            cs@ == s@,
            j <= cs.len(),
            out@ == german_number(cs@.subrange(0, j as int)),
        decreases cs.len() - j,
    {
        let c = cs[j];
        proof {
            let pre = cs@.subrange(0, j + 1);
            assert(pre.drop_last() =~= cs@.subrange(0, j as int));
            assert(pre.last() == c);
        }
        if c == '.' {
        } else if c == ',' {
            out.push('.');
        } else {
            out.push(c);
        }
        j = j + 1;
    }
    assert(cs@.subrange(0, cs@.len() as int) =~= s@);
    assert(s@.contains(','));
    text_of(&out)
}

} // verus!
