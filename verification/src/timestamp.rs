//! Minute-precision UTC timestamps and their exact textual form
//! `YYYY-MM-DDTHH:MMZ`.  Seconds are not transmitted: a text that carries
//! them (or deviates from the pattern in any other way) does not decode.

use vstd::prelude::*;
use vstd::arithmetic::div_mod::{lemma_fundamental_div_mod, lemma_fundamental_div_mod_converse};

verus! {

/// A UTC instant truncated to minute granularity.
#[derive(Clone, Copy, Debug, PartialEq, Eq, Structural)]
pub struct Timestamp {
    pub year: u16,
    pub month: u8,
    pub day: u8,
    pub hour: u8,
    pub minute: u8,
}

/// Gregorian leap-year rule.
pub open spec fn leap_year(y: int) -> bool {
    y % 4 == 0 && (y % 100 != 0 || y % 400 == 0)
}

/// Number of days in month `m` (1-based) of year `y`.
pub open spec fn days_in_month(y: int, m: int) -> int {
    if m == 2 {
        if leap_year(y) {
            29
        } else {
            28
        }
    } else if m == 4 || m == 6 || m == 9 || m == 11 {
        30
    } else {
        31
    }
}

impl Timestamp {
    /// A calendar-valid instant that the four-digit-year pattern can carry.
    pub open spec fn wf(self) -> bool {
        &&& self.year <= 9999
        &&& 1 <= self.month <= 12
        &&& 1 <= self.day <= days_in_month(self.year as int, self.month as int)
        &&& self.hour <= 23
        &&& self.minute <= 59
    }
}

/// The character for one decimal digit.
pub open spec fn digit_char(d: int) -> char {
    if d == 0 {
        '0'
    } else if d == 1 {
        '1'
    } else if d == 2 {
        '2'
    } else if d == 3 {
        '3'
    } else if d == 4 {
        '4'
    } else if d == 5 {
        '5'
    } else if d == 6 {
        '6'
    } else if d == 7 {
        '7'
    } else if d == 8 {
        '8'
    } else {
        '9'
    }
}

/// Two-digit zero-padded rendering of `0 <= n <= 99`.
pub open spec fn two_digits(n: int) -> Seq<char> {
    seq![digit_char(n / 10), digit_char(n % 10)]
}

/// The exact seventeen-character minute-precision form of a timestamp.
pub open spec fn timestamp_chars(t: Timestamp) -> Seq<char> {
    two_digits(t.year as int / 100) + two_digits(t.year as int % 100) + seq!['-']
        + two_digits(t.month as int) + seq!['-'] + two_digits(t.day as int) + seq!['T']
        + two_digits(t.hour as int) + seq![':'] + two_digits(t.minute as int) + seq!['Z']
}

/// The text a timestamp decodes to, if any: the unique well-formed timestamp
/// whose rendering is exactly `s`.
pub open spec fn parse_timestamp(s: Seq<char>) -> Option<Timestamp> {
    if exists|t: Timestamp| t.wf() && s == timestamp_chars(t) {
        Some(choose|t: Timestamp| t.wf() && s == timestamp_chars(t))
    } else {
        None
    }
}

proof fn lemma_chars_shape(t: Timestamp)
    ensures
        timestamp_chars(t) =~= seq![
            digit_char(t.year as int / 100 / 10),
            digit_char(t.year as int / 100 % 10),
            digit_char(t.year as int % 100 / 10),
            digit_char(t.year as int % 100 % 10),
            '-',
            digit_char(t.month as int / 10),
            digit_char(t.month as int % 10),
            '-',
            digit_char(t.day as int / 10),
            digit_char(t.day as int % 10),
            'T',
            digit_char(t.hour as int / 10),
            digit_char(t.hour as int % 10),
            ':',
            digit_char(t.minute as int / 10),
            digit_char(t.minute as int % 10),
            'Z',
        ],
        timestamp_chars(t).len() == 17,
{
}

proof fn lemma_digit_char_inj(x: int, y: int)
    requires
        0 <= x <= 9,
        0 <= y <= 9,
        digit_char(x) == digit_char(y),
    ensures
        x == y,
{
}

/// A two-digit number recombined from digit values splits back into exactly
/// those digits.
proof fn lemma_two_digit_split(n: int, hi: int, lo: int)
    requires
        0 <= n <= 99,
        0 <= hi <= 9,
        0 <= lo <= 9,
        n == 10 * hi + lo,
    ensures
        n / 10 == hi,
        n % 10 == lo,
{
    lemma_fundamental_div_mod_converse(n, 10, hi, lo);
}

/// Two numbers below one hundred whose zero-padded digit characters agree
/// are equal.
proof fn lemma_pair_inj(x: int, v: int)
    requires
        0 <= x <= 99,
        0 <= v <= 99,
        digit_char(x / 10) == digit_char(v / 10),
        digit_char(x % 10) == digit_char(v % 10),
    ensures
        x == v,
{
    lemma_digit_char_inj(x / 10, v / 10);
    lemma_digit_char_inj(x % 10, v % 10);
    lemma_fundamental_div_mod(x, 10);
    lemma_fundamental_div_mod(v, 10);
}

/// A well-formed timestamp is determined by the six two-digit values read
/// off its seventeen-character rendering.
proof fn lemma_fields_from_pairs(
    t: Timestamp,
    s: Seq<char>,
    yh: u8, yl: u8, mo: u8, dy: u8, hr: u8, mi: u8,
)
    requires
        t.wf(),
        s == timestamp_chars(t),
        yh <= 99, yl <= 99, mo <= 99, dy <= 99, hr <= 99, mi <= 99,
        s[0] == digit_char(yh as int / 10),
        s[1] == digit_char(yh as int % 10),
        s[2] == digit_char(yl as int / 10),
        s[3] == digit_char(yl as int % 10),
        s[5] == digit_char(mo as int / 10),
        s[6] == digit_char(mo as int % 10),
        s[8] == digit_char(dy as int / 10),
        s[9] == digit_char(dy as int % 10),
        s[11] == digit_char(hr as int / 10),
        s[12] == digit_char(hr as int % 10),
        s[14] == digit_char(mi as int / 10),
        s[15] == digit_char(mi as int % 10),
    ensures
        t.year as int == 100 * yh as int + yl as int,
        t.month as int == mo as int,
        t.day as int == dy as int,
        t.hour as int == hr as int,
        t.minute as int == mi as int,
{
    lemma_chars_shape(t);
    let y = t.year as int;
    assert(0 <= y / 100 <= 99 && 0 <= y % 100 <= 99) by {
        lemma_fundamental_div_mod(y, 100);
    };
    lemma_pair_inj(y / 100, yh as int);
    lemma_pair_inj(y % 100, yl as int);
    assert(y == 100 * (y / 100) + y % 100) by {
        lemma_fundamental_div_mod(y, 100);
    };
    lemma_pair_inj(t.month as int, mo as int);
    lemma_pair_inj(t.day as int, dy as int);
    lemma_pair_inj(t.hour as int, hr as int);
    lemma_pair_inj(t.minute as int, mi as int);
}

/// Rendering is injective on well-formed timestamps.
pub proof fn lemma_timestamp_chars_injective(t1: Timestamp, t2: Timestamp)
    requires
        t1.wf(),
        t2.wf(),
        timestamp_chars(t1) == timestamp_chars(t2),
    ensures
        t1 == t2,
{
    lemma_chars_shape(t1);
    lemma_chars_shape(t2);
    let s = timestamp_chars(t1);
    let y = t2.year as int;
    assert(0 <= y / 100 <= 99 && 0 <= y % 100 <= 99) by {
        lemma_fundamental_div_mod(y, 100);
    };
    lemma_fields_from_pairs(
        t1, s,
        (y / 100) as u8, (y % 100) as u8,
        t2.month, t2.day, t2.hour, t2.minute,
    );
    lemma_fundamental_div_mod(y, 100);
}

/// Law: decoding then re-encoding through the minute-precision format is the
/// identity on the text — any text that decodes is exactly the rendering of
/// the timestamp it decodes to.
pub proof fn lemma_timestamp_round_trip_text(s: Seq<char>, t: Timestamp)
    requires
        parse_timestamp(s) == Some(t),
    ensures
        t.wf(),
        timestamp_chars(t) == s,
{
    let t0 = choose|t0: Timestamp| t0.wf() && s == timestamp_chars(t0);
    assert(t0 == t);
}

/// Law: encoding then decoding through the minute-precision format is the
/// identity on well-formed timestamps.
pub proof fn lemma_timestamp_round_trip_value(t: Timestamp)
    requires
        t.wf(),
    ensures
        parse_timestamp(timestamp_chars(t)) == Some(t),
{
    let s = timestamp_chars(t);
    assert(t.wf() && s == timestamp_chars(t));
    let t0 = choose|t0: Timestamp| t0.wf() && s == timestamp_chars(t0);
    lemma_timestamp_chars_injective(t0, t);
}

fn digit_str(d: u8) -> (s: &'static str)
    requires
        d <= 9,
    ensures
        s@ =~= seq![digit_char(d as int)],
{
    let s: &'static str = match d {
        0 => "0",
        1 => "1",
        2 => "2",
        3 => "3",
        4 => "4",
        5 => "5",
        6 => "6",
        7 => "7",
        8 => "8",
        _ => "9",
    };
    proof {
        reveal_strlit("0");
        reveal_strlit("1");
        reveal_strlit("2");
        reveal_strlit("3");
        reveal_strlit("4");
        reveal_strlit("5");
        reveal_strlit("6");
        reveal_strlit("7");
        reveal_strlit("8");
        reveal_strlit("9");
    }
    s
}

/// Render a well-formed timestamp in its exact minute-precision form.
pub fn serialize(t: &Timestamp) -> (r: String)
    requires
        t.wf(),
    ensures
        r@ == timestamp_chars(*t),
        parse_timestamp(r@) == Some(*t),
{
    let yhi: u16 = t.year / 100;
    let ylo: u16 = t.year % 100;
    let mut out = String::new();
    out.append(digit_str((yhi / 10) as u8));
    out.append(digit_str((yhi % 10) as u8));
    out.append(digit_str((ylo / 10) as u8));
    out.append(digit_str((ylo % 10) as u8));
    out.append("-");
    out.append(digit_str(t.month / 10));
    out.append(digit_str(t.month % 10));
    out.append("-");
    out.append(digit_str(t.day / 10));
    out.append(digit_str(t.day % 10));
    out.append("T");
    out.append(digit_str(t.hour / 10));
    out.append(digit_str(t.hour % 10));
    out.append(":");
    out.append(digit_str(t.minute / 10));
    out.append(digit_str(t.minute % 10));
    out.append("Z");
    proof {
        reveal_strlit("-");
        reveal_strlit("T");
        reveal_strlit(":");
        reveal_strlit("Z");
        lemma_chars_shape(*t);
        assert(out@ =~= timestamp_chars(*t));
        lemma_timestamp_round_trip_value(*t);
    }
    out
}

fn digit_val(c: char) -> (r: Option<u8>)
    ensures
        r matches Some(d) ==> d <= 9 && digit_char(d as int) == c,
        r is None ==> forall|d: int| 0 <= d <= 9 ==> digit_char(d) != c,
{
    match c {
        '0' => Some(0),
        '1' => Some(1),
        '2' => Some(2),
        '3' => Some(3),
        '4' => Some(4),
        '5' => Some(5),
        '6' => Some(6),
        '7' => Some(7),
        '8' => Some(8),
        '9' => Some(9),
        _ => None,
    }
}

fn leap_year_exec(y: u16) -> (r: bool)
    ensures
        r == leap_year(y as int),
{
    y % 4 == 0 && (y % 100 != 0 || y % 400 == 0)
}

fn days_in_month_exec(y: u16, m: u8) -> (r: u8)
    requires
        1 <= m <= 12,
    ensures
        r as int == days_in_month(y as int, m as int),
{
    if m == 2 {
        if leap_year_exec(y) {
            29
        } else {
            28
        }
    } else if m == 4 || m == 6 || m == 9 || m == 11 {
        30
    } else {
        31
    }
}

/// Read the two-digit value at character positions `i` and `i + 1`.
fn two_digit_at(s: &str, i: usize) -> (r: Option<u8>)
    requires
        i < 16,
        i + 1 < s@.len(),
    ensures
        r matches Some(v) ==> v <= 99 && s@[i as int] == digit_char(v as int / 10)
            && s@[i + 1] == digit_char(v as int % 10),
        r is None ==> (forall|d: int| 0 <= d <= 9 ==> digit_char(d) != s@[i as int])
            || (forall|d: int| 0 <= d <= 9 ==> digit_char(d) != s@[i + 1]),
{
    let a = digit_val(s.get_char(i));
    let b = digit_val(s.get_char(i + 1));
    match (a, b) {
        (Some(a), Some(b)) => {
            let v: u8 = 10 * a + b;
            proof {
                lemma_two_digit_split(v as int, a as int, b as int);
            }
            Some(v)
        },
        _ => None,
    }
}

proof fn lemma_no_parse_len(s: Seq<char>)
    requires
        s.len() != 17,
    ensures
        forall|t: Timestamp| !(t.wf() && s == timestamp_chars(t)),
{
    assert forall|t: Timestamp| !(t.wf() && s == timestamp_chars(t)) by {
        lemma_chars_shape(t);
    };
}

proof fn lemma_no_parse_sep(s: Seq<char>)
    requires
        s.len() == 17,
        s[4] != '-' || s[7] != '-' || s[10] != 'T' || s[13] != ':' || s[16] != 'Z',
    ensures
        forall|t: Timestamp| !(t.wf() && s == timestamp_chars(t)),
{
    assert forall|t: Timestamp| !(t.wf() && s == timestamp_chars(t)) by {
        lemma_chars_shape(t);
    };
}

proof fn lemma_no_parse_not_digit(s: Seq<char>, i: int)
    requires
        s.len() == 17,
        i == 0 || i == 1 || i == 2 || i == 3 || i == 5 || i == 6 || i == 8 || i == 9
            || i == 11 || i == 12 || i == 14 || i == 15,
        forall|d: int| 0 <= d <= 9 ==> digit_char(d) != s[i],
    ensures
        forall|t: Timestamp| !(t.wf() && s == timestamp_chars(t)),
{
    assert forall|t: Timestamp| !(t.wf() && s == timestamp_chars(t)) by {
        if t.wf() && s == timestamp_chars(t) {
            lemma_chars_shape(t);
            let y = t.year as int;
            assert(0 <= y / 100 <= 99 && 0 <= y % 100 <= 99) by {
                lemma_fundamental_div_mod(y, 100);
            };
        }
    };
}

/// Decode the exact pattern `YYYY-MM-DDTHH:MMZ`; any deviation — a wrong
/// length (which includes any pattern carrying seconds), a stray character,
/// or a calendar-invalid field — is a
/// [`crate::errors::DecodeError::InvalidTimestamp`].
pub fn deserialize(s: &str) -> (r: Result<Timestamp, crate::errors::DecodeError>)
    ensures
        r matches Ok(t) ==> t.wf() && s@ == timestamp_chars(t) && parse_timestamp(s@) == Some(t),
        forall|t: Timestamp| t.wf() && s@ == timestamp_chars(t)
            ==> r == Ok::<Timestamp, crate::errors::DecodeError>(t),
        r is Err ==> r == Err::<Timestamp, crate::errors::DecodeError>(
            crate::errors::DecodeError::InvalidTimestamp,
        ) && parse_timestamp(s@) is None,
        s@.len() != 17 ==> r is Err,
{
    let n = s.unicode_len();
    if n != 17 {
        proof {
            lemma_no_parse_len(s@);
        }
        return Err(crate::errors::DecodeError::InvalidTimestamp);
    }
    let sep_ok = s.get_char(4) == '-' && s.get_char(7) == '-' && s.get_char(10) == 'T'
        && s.get_char(13) == ':' && s.get_char(16) == 'Z';
    if !sep_ok {
        proof {
            lemma_no_parse_sep(s@);
        }
        return Err(crate::errors::DecodeError::InvalidTimestamp);
    }
    let yh = two_digit_at(s, 0);
    let yl = two_digit_at(s, 2);
    let mo = two_digit_at(s, 5);
    let dy = two_digit_at(s, 8);
    let hr = two_digit_at(s, 11);
    let mi = two_digit_at(s, 14);
    let (yh, yl, mo, dy, hr, mi) = match (yh, yl, mo, dy, hr, mi) {
        (Some(yh), Some(yl), Some(mo), Some(dy), Some(hr), Some(mi)) => (yh, yl, mo, dy, hr, mi),
        _ => {
            proof {
                if yh is None {
                    if forall|d: int| 0 <= d <= 9 ==> digit_char(d) != s@[0] {
                        lemma_no_parse_not_digit(s@, 0);
                    } else {
                        lemma_no_parse_not_digit(s@, 1);
                    }
                } else if yl is None {
                    if forall|d: int| 0 <= d <= 9 ==> digit_char(d) != s@[2] {
                        lemma_no_parse_not_digit(s@, 2);
                    } else {
                        lemma_no_parse_not_digit(s@, 3);
                    }
                } else if mo is None {
                    if forall|d: int| 0 <= d <= 9 ==> digit_char(d) != s@[5] {
                        lemma_no_parse_not_digit(s@, 5);
                    } else {
                        lemma_no_parse_not_digit(s@, 6);
                    }
                } else if dy is None {
                    if forall|d: int| 0 <= d <= 9 ==> digit_char(d) != s@[8] {
                        lemma_no_parse_not_digit(s@, 8);
                    } else {
                        lemma_no_parse_not_digit(s@, 9);
                    }
                } else if hr is None {
                    if forall|d: int| 0 <= d <= 9 ==> digit_char(d) != s@[11] {
                        lemma_no_parse_not_digit(s@, 11);
                    } else {
                        lemma_no_parse_not_digit(s@, 12);
                    }
                } else {
                    if forall|d: int| 0 <= d <= 9 ==> digit_char(d) != s@[14] {
                        lemma_no_parse_not_digit(s@, 14);
                    } else {
                        lemma_no_parse_not_digit(s@, 15);
                    }
                }
            }
            return Err(crate::errors::DecodeError::InvalidTimestamp);
        },
    };
    let year: u16 = 100 * (yh as u16) + (yl as u16);
    let month: u8 = mo;
    let day: u8 = dy;
    let hour: u8 = hr;
    let minute: u8 = mi;
    let range_ok = 1 <= month && month <= 12 && 1 <= day && hour <= 23 && minute <= 59
        && day <= days_in_month_exec(year, month);
    if !range_ok {
        proof {
            assert forall|t: Timestamp| !(t.wf() && s@ == timestamp_chars(t)) by {
                if t.wf() && s@ == timestamp_chars(t) {
                    lemma_fields_from_pairs(t, s@, yh, yl, mo, dy, hr, mi);
                }
            };
        }
        return Err(crate::errors::DecodeError::InvalidTimestamp);
    }
    let t = Timestamp { year, month, day, hour, minute };
    proof {
        lemma_fundamental_div_mod_converse(t.year as int, 100, yh as int, yl as int);
        lemma_chars_shape(t);
        assert(s@ =~= timestamp_chars(t));
        assert forall|t2: Timestamp| t2.wf() && s@ == timestamp_chars(t2) implies t2 == t by {
            lemma_timestamp_chars_injective(t2, t);
        };
        lemma_timestamp_round_trip_value(t);
    }
    Ok(t)
}

} // verus!
