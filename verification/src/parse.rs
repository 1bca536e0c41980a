//! Input parsing: date, time and UTC offset strings.
//!
//! Each parser's contract says exactly which strings it accepts and what
//! values they yield: a date is three dash-separated decimal pieces with
//! the month and day in range, a time two colon-separated pieces, and an
//! offset an optionally signed decimal number of hours within half a day
//! either way, returned as whole minutes.

use vstd::prelude::*;
use vstd::string::{StrSliceExecFns, StringExecFns};

verus! {

/// Decimal digits.
pub open spec fn is_digit(c: char) -> bool {
    '0' <= c && c <= '9'
}

/// The value of one digit.
pub open spec fn digit_value(c: char) -> int {
    c as int - '0' as int
}

/// Whether a piece is one or more digits.
pub open spec fn all_digits(s: Seq<char>) -> bool {
    s.len() >= 1 && forall|i: int| 0 <= i < s.len() ==> is_digit(#[trigger] s[i])
}

/// The number a digit string denotes.
pub open spec fn digits_value(s: Seq<char>) -> int
    decreases s.len(),
{
    if s.len() == 0 {
        0
    } else {
        digits_value(s.drop_last()) * 10 + digit_value(s.last())
    }
}

/// The largest number the parsers accept in one piece.
pub const MAX_PIECE_VALUE: u64 = 999_999_999;

/// Whether a piece parses as a number: digits only, and small enough.
pub open spec fn piece_number(s: Seq<char>) -> Option<int> {
    if all_digits(s) && digits_value(s) <= MAX_PIECE_VALUE as int {
        Some(digits_value(s))
    } else {
        None
    }
}

/// Parses a piece of digits into a number.
pub fn parse_digits(s: &str) -> (r: Option<u64>)
    ensures
        match r {
            Some(v) => piece_number(s@) == Some(v as int),
            None => piece_number(s@) is None,
        },
{
    let len = s.unicode_len();
    if len == 0 {
        return None;
    }
    let mut acc: u64 = 0;
    let mut i: usize = 0;
    while i < len
        invariant
            i <= len,
            len == s@.len(),
            acc as int == digits_value(s@.take(i as int)),
            acc <= MAX_PIECE_VALUE,
            forall|j: int| 0 <= j < i ==> is_digit(#[trigger] s@[j]),
        decreases len - i,
    {
        let c = s.get_char(i);
        if c < '0' || c > '9' {
            return None;
        }
        let d: u64 = (c as u32 as u64) - ('0' as u32 as u64);
        proof {
            assert(s@.take(i as int + 1).drop_last() =~= s@.take(i as int));
            assert(s@.take(i as int + 1).last() == s@[i as int]);
        }
        let next = acc * 10 + d;
        if next > MAX_PIECE_VALUE {
            proof {
                if all_digits(s@) {
                    lemma_digits_prefix_monotonic(s@, i as int + 1);
                }
            }
            return None;
        }
        acc = next;
        i = i + 1;
    }
    proof {
        assert(s@.take(len as int) =~= s@);
    }
    Some(acc)
}

/// On an all-digit string a longer prefix never denotes a smaller number,
/// so a prefix past the bound decides the whole string.
proof fn lemma_digits_prefix_monotonic(s: Seq<char>, i: int)
    requires
        0 <= i <= s.len(),
        forall|j: int| 0 <= j < s.len() ==> is_digit(#[trigger] s[j]),
    ensures
        digits_value(s) >= digits_value(s.take(i)),
    decreases s.len(),
{
    if i < s.len() {
        let t = s.drop_last();
        assert forall|j: int| 0 <= j < t.len() implies is_digit(#[trigger] t[j]) by {
            assert(t[j] == s[j]);
        }
        lemma_digits_prefix_monotonic(t, i);
        assert(t.take(i) =~= s.take(i));
        lemma_digits_value_nonneg(t);
        assert(is_digit(s[s.len() - 1]));
        assert(digit_value(s.last()) >= 0);
    } else {
        assert(s.take(i) =~= s);
    }
}

/// All-digit pieces denote nonnegative numbers that grow with each digit.
proof fn lemma_digits_value_nonneg(s: Seq<char>)
    requires
        forall|i: int| 0 <= i < s.len() ==> is_digit(#[trigger] s[i]),
    ensures
        digits_value(s) >= 0,
    decreases s.len(),
{
    if s.len() > 0 {
        assert forall|i: int| 0 <= i < s.drop_last().len() implies is_digit(
            #[trigger] s.drop_last()[i],
        ) by {
            assert(s.drop_last()[i] == s[i]);
        }
        lemma_digits_value_nonneg(s.drop_last());
        assert(is_digit(s[s.len() - 1]));
    }
}

/// The first position of a character at or after `from`; the length when it
/// does not occur.
pub open spec fn first_at(s: Seq<char>, c: char, from: int) -> int
    decreases s.len() - from,
{
    if from < 0 || from >= s.len() {
        s.len() as int
    } else if s[from] == c {
        from
    } else {
        first_at(s, c, from + 1)
    }
}

/// Finds the first occurrence of a character at or after `from`.
pub fn find_char(s: &str, c: char, from: usize) -> (r: usize)
    requires
        from <= s@.len(),
    ensures
        r == first_at(s@, c, from as int),
        from <= r <= s@.len(),
        r < s@.len() ==> s@[r as int] == c,
{
    let len = s.unicode_len();
    let mut i: usize = from;
    while i < len
        invariant
            from <= i <= len,
            len == s@.len(),
            first_at(s@, c, from as int) == first_at(s@, c, i as int),
            forall|j: int| from <= j < i ==> s@[j] != c,
        decreases len - i,
    {
        if s.get_char(i) == c {
            return i;
        }
        i = i + 1;
    }
    len
}

/// What a date string must look like, and the values it denotes: exactly
/// two dashes, three numeric pieces, the month 1 to 12 and the day 1 to 31.
pub open spec fn date_spec(s: Seq<char>) -> Option<(int, int, int)> {
    let i = first_at(s, '-', 0);
    let j = first_at(s, '-', i + 1);
    let k = first_at(s, '-', j + 1);
    if i < s.len() && j < s.len() && k == s.len() {
        match (piece_number(s.subrange(0, i)), piece_number(s.subrange(i + 1, j)), piece_number(
            s.subrange(j + 1, s.len() as int),
        )) {
            (Some(y), Some(m), Some(d)) => if 1 <= m <= 12 && 1 <= d <= 31 {
                Some((y, m, d))
            } else {
                None
            },
            _ => None,
        }
    } else {
        None
    }
}

/// Parses a date of the shape year-month-day.  Succeeds exactly on the
/// strings `date_spec` accepts, with the values it names.
pub fn parse_date(s: &str) -> (r: Result<(i32, u8, u8), String>)
    ensures
        match r {
            Ok((y, m, d)) => date_spec(s@) == Some((y as int, m as int, d as int)),
            Err(e) => date_spec(s@) is None,
        },
{
    let len = s.unicode_len();
    let i = find_char(s, '-', 0);
    let i2 = if i < len {
        i + 1
    } else {
        i
    };
    let j = find_char(s, '-', i2);
    let j2 = if j < len {
        j + 1
    } else {
        j
    };
    let k = find_char(s, '-', j2);
    proof {
        if i >= len {
            assert(first_at(s@, '-', i as int + 1) == s@.len());
        }
    }
    if !(i < len && j < len && k == len) {
        return Err(String::from_str("Expected YYYY-MM-DD"));
    }
    let ys = s.substring_char(0, i);
    let ms = s.substring_char(i + 1, j);
    let ds = s.substring_char(j + 1, len);
    let y = match parse_digits(ys) {
        Some(v) => v,
        None => {
            return Err(String::from_str("Invalid year"));
        },
    };
    let m = match parse_digits(ms) {
        Some(v) => v,
        None => {
            return Err(String::from_str("Invalid month"));
        },
    };
    let d = match parse_digits(ds) {
        Some(v) => v,
        None => {
            return Err(String::from_str("Invalid day"));
        },
    };
    if !(1 <= m && m <= 12) {
        return Err(String::from_str("Month must be 1-12"));
    }
    if !(1 <= d && d <= 31) {
        return Err(String::from_str("Day must be 1-31"));
    }
    Ok((y as i32, m as u8, d as u8))
}

/// What a time string must look like: one colon, two numeric pieces, the
/// hour below 24 and the minute below 60.
pub open spec fn time_spec(s: Seq<char>) -> Option<(int, int)> {
    let i = first_at(s, ':', 0);
    let j = first_at(s, ':', i + 1);
    if i < s.len() && j == s.len() {
        match (piece_number(s.subrange(0, i)), piece_number(s.subrange(i + 1, s.len() as int))) {
            (Some(h), Some(m)) => if h <= 23 && m <= 59 {
                Some((h, m))
            } else {
                None
            },
            _ => None,
        }
    } else {
        None
    }
}

/// Parses a time of the shape hour:minute.  Succeeds exactly on the strings
/// `time_spec` accepts, with the values it names.
pub fn parse_time(s: &str) -> (r: Result<(u8, u8), String>)
    ensures
        match r {
            Ok((h, m)) => time_spec(s@) == Some((h as int, m as int)),
            Err(e) => time_spec(s@) is None,
        },
{
    let len = s.unicode_len();
    let i = find_char(s, ':', 0);
    let i2 = if i < len {
        i + 1
    } else {
        i
    };
    let j = find_char(s, ':', i2);
    proof {
        if i >= len {
            assert(first_at(s@, ':', i as int + 1) == s@.len());
        }
    }
    if !(i < len && j == len) {
        return Err(String::from_str("Expected HH:MM"));
    }
    let hs = s.substring_char(0, i);
    let ms = s.substring_char(i + 1, len);
    let h = match parse_digits(hs) {
        Some(v) => v,
        None => {
            return Err(String::from_str("Invalid hour"));
        },
    };
    let m = match parse_digits(ms) {
        Some(v) => v,
        None => {
            return Err(String::from_str("Invalid minute"));
        },
    };
    if h > 23 {
        return Err(String::from_str("Hour must be 0-23"));
    }
    if m > 59 {
        return Err(String::from_str("Minute must be 0-59"));
    }
    Ok((h as u8, m as u8))
}

/// Powers of ten, for the fractional part of an offset.
pub open spec fn pow10(k: int) -> int
    decreases k,
{
    if k <= 0 {
        1
    } else {
        10 * pow10(k - 1)
    }
}

/// A possibly empty run of digits: empty denotes zero.
pub open spec fn piece_or_zero(s: Seq<char>) -> Option<int> {
    if s.len() == 0 {
        Some(0)
    } else {
        piece_number(s)
    }
}

/// What an offset string must look like and the minutes it denotes: an
/// optional sign, then a decimal number of hours with at most six
/// fractional digits, between -12 and +14 hours inclusive.  The value is
/// rounded to whole minutes, halves away from zero.
pub open spec fn offset_spec(s: Seq<char>) -> Option<int> {
    let negative = s.len() >= 1 && s[0] == '-';
    let body = if s.len() >= 1 && (s[0] == '+' || s[0] == '-') {
        s.drop_first()
    } else {
        s
    };
    let dot = first_at(body, '.', 0);
    let whole = body.subrange(0, dot);
    let frac = if dot < body.len() {
        body.subrange(dot + 1, body.len() as int)
    } else {
        Seq::empty()
    };
    if body.len() == 0 || (whole.len() == 0 && frac.len() == 0) || frac.len() > 6 || (dot
        < body.len() && first_at(body, '.', dot + 1) != body.len()) {
        None
    } else {
        match (piece_or_zero(whole), piece_or_zero(frac)) {
            (Some(h), Some(f)) => {
                let denom = pow10(frac.len() as int);
                let num = h * denom + f;
                let bound = if negative {
                    12 * denom
                } else {
                    14 * denom
                };
                if num <= bound {
                    let minutes = (60 * num + denom / 2) / denom;
                    Some(if negative {
                        -minutes
                    } else {
                        minutes
                    })
                } else {
                    None
                }
            },
            _ => None,
        }
    }
}

/// Looks up a power of ten.
fn pow10_exec(k: usize) -> (r: u64)
    requires
        k <= 6,
    ensures
        r as int == pow10(k as int),
        1 <= r <= 1_000_000,
{
    proof {
        assert(pow10(0) == 1);
        assert(pow10(1) == 10);
        assert(pow10(2) == 100);
        assert(pow10(3) == 1_000);
        assert(pow10(4) == 10_000);
        assert(pow10(5) == 100_000);
        assert(pow10(6) == 1_000_000);
    }
    if k == 0 {
        1
    } else if k == 1 {
        10
    } else if k == 2 {
        100
    } else if k == 3 {
        1_000
    } else if k == 4 {
        10_000
    } else if k == 5 {
        100_000
    } else {
        1_000_000
    }
}

/// Parses a possibly empty digit run.
fn parse_piece_or_zero(s: &str) -> (r: Option<u64>)
    ensures
        match r {
            Some(v) => piece_or_zero(s@) == Some(v as int),
            None => piece_or_zero(s@) is None,
        },
{
    if s.unicode_len() == 0 {
        Some(0)
    } else {
        parse_digits(s)
    }
}

/// Parses a UTC offset in hours (+3, -5, +5.5) into whole minutes.
/// Succeeds exactly on the strings `offset_spec` accepts, with the minutes
/// it names.
pub fn parse_utc_offset(s: &str) -> (r: Result<i32, String>)
    ensures
        match r {
            Ok(m) => offset_spec(s@) == Some(m as int),
            Err(e) => offset_spec(s@) is None,
        },
{
    let len = s.unicode_len();
    let (negative, start): (bool, usize) = if len >= 1 {
        let c = s.get_char(0);
        if c == '-' {
            (true, 1)
        } else if c == '+' {
            (false, 1)
        } else {
            (false, 0)
        }
    } else {
        (false, 0)
    };
    let body = s.substring_char(start, len);
    proof {
        if start == 1 {
            assert(body@ =~= s@.drop_first());
        } else {
            assert(body@ =~= s@);
        }
    }
    let blen = body.unicode_len();
    if blen == 0 {
        return Err(String::from_str("Expected a number of hours"));
    }
    let dot = find_char(body, '.', 0);
    let whole = body.substring_char(0, dot);
    proof {
        reveal_strlit("");
    }
    let frac = if dot < blen {
        body.substring_char(dot + 1, blen)
    } else {
        ""
    };
    proof {
        if dot >= blen {
            assert(frac@ =~= Seq::<char>::empty());
        }
    }
    if whole.unicode_len() == 0 && frac.unicode_len() == 0 {
        return Err(String::from_str("Expected digits"));
    }
    if frac.unicode_len() > 6 {
        return Err(String::from_str("Too many fractional digits"));
    }
    if dot < blen {
        let second = find_char(body, '.', dot + 1);
        if second != blen {
            return Err(String::from_str("Expected one decimal point"));
        }
    }
    let h = match parse_piece_or_zero(whole) {
        Some(v) => v,
        None => {
            return Err(String::from_str("Invalid offset"));
        },
    };
    let f = match parse_piece_or_zero(frac) {
        Some(v) => v,
        None => {
            return Err(String::from_str("Invalid offset"));
        },
    };
    let denom = pow10_exec(frac.unicode_len());
    proof {
        assert(h <= 999_999_999);
        assert(f <= 999_999_999);
        assert(h as int * denom as int <= 999_999_999_000_000) by (nonlinear_arith)
            requires
                h <= 999_999_999,
                1 <= denom <= 1_000_000,
        ;
    }
    let num = h * denom + f;
    let bound = if negative {
        12 * denom
    } else {
        14 * denom
    };
    if num > bound {
        return Err(String::from_str("Offset must be -12 to +14"));
    }
    let minutes = (60 * num + denom / 2) / denom;
    if negative {
        Ok(-(minutes as i32))
    } else {
        Ok(minutes as i32)
    }
}

} // verus!
