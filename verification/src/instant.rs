//! UTC instants and their wire text form.
//!
//! An [`Instant`] is a UTC point in time with millisecond resolution. Its wire
//! form is always the canonical RFC3339 text `YYYY-MM-DDTHH:mm:ss.sssZ`:
//! milliseconds written out, offset marker `Z`. Decoding accepts any
//! syntactically valid RFC3339 text with any UTC offset and normalizes the
//! result to UTC.

use vstd::prelude::*;

use crate::digits::digit_char;
use crate::digits::digit_val;
use crate::digits::four_digits;
use crate::digits::is_digit;
use crate::digits::lemma_digit_round_trip;
use crate::digits::push_four_digits;
use crate::digits::push_three_digits;
use crate::digits::push_two_digits;
use crate::digits::three_digits;
use crate::digits::two_digits;
use crate::error::CodecError;
use crate::error::ErrorV;

verus! {

/// A UTC point in time, held as calendar fields with millisecond resolution.
#[derive(Clone, Copy, Debug, PartialEq, Eq, Structural)]
pub struct Instant {
    pub year: u16,
    pub month: u8,
    pub day: u8,
    pub hour: u8,
    pub minute: u8,
    pub second: u8,
    pub milli: u16,
}

/// The proleptic Gregorian leap-year rule.
pub open spec fn is_leap_year(y: int) -> bool {
    (y % 4 == 0 && y % 100 != 0) || y % 400 == 0
}

/// Days in one month of one year.
pub open spec fn days_in_month(y: int, m: int) -> int {
    if m == 2 {
        if is_leap_year(y) {
            29
        } else {
            28
        }
    } else if m == 4 || m == 6 || m == 9 || m == 11 {
        30
    } else {
        31
    }
}

impl Instant {
    /// A well-formed instant: a real calendar date in years 0 through 9999
    /// and a real time of day.
    pub open spec fn wf(self) -> bool {
        &&& self.year <= 9999
        &&& 1 <= self.month <= 12
        &&& 1 <= self.day <= days_in_month(self.year as int, self.month as int)
        &&& self.hour <= 23
        &&& self.minute <= 59
        &&& self.second <= 59
        &&& self.milli <= 999
    }

    /// Construct an instant from calendar fields.
    pub fn new(year: u16, month: u8, day: u8, hour: u8, minute: u8, second: u8, milli: u16) -> (r:
        Instant)
        requires
            year <= 9999,
            1 <= month <= 12,
            1 <= day <= days_in_month(year as int, month as int),
            hour <= 23,
            minute <= 59,
            second <= 59,
            milli <= 999,
        ensures
            r == (Instant { year, month, day, hour, minute, second, milli }),
            r.wf(),
    {
        Instant { year, month, day, hour, minute, second, milli }
    }
}

/// The canonical wire text of an instant: `YYYY-MM-DDTHH:mm:ss.sssZ`.
pub open spec fn rfc3339_of(i: Instant) -> Seq<char> {
    four_digits(i.year as int) + seq!['-'] + two_digits(i.month as int) + seq!['-'] + two_digits(
        i.day as int,
    ) + seq!['T'] + two_digits(i.hour as int) + seq![':'] + two_digits(i.minute as int) + seq![':']
        + two_digits(i.second as int) + seq!['.'] + three_digits(i.milli as int) + seq!['Z']
}

impl Instant {
    /// Encode to canonical RFC3339 text: always succeeds, always ends in `Z`,
    /// always writes exactly millisecond precision.
    pub fn to_rfc3339(&self) -> (r: String)
        requires
            self.wf(),
        ensures
            r@ == rfc3339_of(*self),
            r@.len() == 24,
    {
        proof {
            reveal_strlit("-");
            reveal_strlit("T");
            reveal_strlit(":");
            reveal_strlit(".");
            reveal_strlit("Z");
        }
        let mut s = String::new();
        push_four_digits(&mut s, self.year);
        s.append("-");
        push_two_digits(&mut s, self.month);
        s.append("-");
        push_two_digits(&mut s, self.day);
        s.append("T");
        push_two_digits(&mut s, self.hour);
        s.append(":");
        push_two_digits(&mut s, self.minute);
        s.append(":");
        push_two_digits(&mut s, self.second);
        s.append(".");
        push_three_digits(&mut s, self.milli);
        s.append("Z");
        proof {
            assert(s@ =~= rfc3339_of(*self));
        }
        s
    }
}

/// Count of consecutive digit characters of `s` starting at `i`.
pub open spec fn run_len(s: Seq<char>, i: int) -> int
    decreases s.len() - i,
    when 0 <= i <= s.len()
{
    if i >= s.len() || !is_digit(s[i]) {
        0
    } else {
        1 + run_len(s, i + 1)
    }
}

/// The two-digit number written at position `i`.
pub open spec fn num2(s: Seq<char>, i: int) -> int {
    digit_val(s[i]) * 10 + digit_val(s[i + 1])
}

/// The four-digit number written at position `i`.
pub open spec fn num4(s: Seq<char>, i: int) -> int {
    num2(s, i) * 100 + num2(s, i + 2)
}

/// The date-time prefix `YYYY-MM-DDTHH:mm:ss` is well shaped.
pub open spec fn prefix_ok(s: Seq<char>) -> bool {
    &&& s.len() >= 19
    &&& is_digit(s[0]) && is_digit(s[1]) && is_digit(s[2]) && is_digit(s[3])
    &&& s[4] == '-'
    &&& is_digit(s[5]) && is_digit(s[6])
    &&& s[7] == '-'
    &&& is_digit(s[8]) && is_digit(s[9])
    &&& (s[10] == 'T' || s[10] == 't')
    &&& is_digit(s[11]) && is_digit(s[12])
    &&& s[13] == ':'
    &&& is_digit(s[14]) && is_digit(s[15])
    &&& s[16] == ':'
    &&& is_digit(s[17]) && is_digit(s[18])
}

/// The fraction is well shaped: absent, or a point followed by at least one digit.
pub open spec fn frac_ok(s: Seq<char>) -> bool {
    s.len() > 19 && s[19] == '.' ==> run_len(s, 20) >= 1
}

/// Index where the offset designator starts: right after the optional fraction.
pub open spec fn offset_pos(s: Seq<char>) -> int {
    if s.len() > 19 && s[19] == '.' {
        20 + run_len(s, 20)
    } else {
        19
    }
}

/// The offset designator is well shaped: `Z`/`z`, or a sign with `hh:mm`.
pub open spec fn offset_ok(s: Seq<char>) -> bool {
    let p = offset_pos(s);
    if s.len() == p + 1 {
        s[p] == 'Z' || s[p] == 'z'
    } else if s.len() == p + 6 {
        &&& (s[p] == '+' || s[p] == '-')
        &&& is_digit(s[p + 1]) && is_digit(s[p + 2])
        &&& s[p + 3] == ':'
        &&& is_digit(s[p + 4]) && is_digit(s[p + 5])
        &&& num2(s, p + 1) <= 23
        &&& num2(s, p + 4) <= 59
    } else {
        false
    }
}

/// The written calendar fields are in range.
pub open spec fn fields_ok(s: Seq<char>) -> bool {
    &&& 1 <= num2(s, 5) <= 12
    &&& 1 <= num2(s, 8) <= days_in_month(num4(s, 0), num2(s, 5))
    &&& num2(s, 11) <= 23
    &&& num2(s, 14) <= 59
    &&& num2(s, 17) <= 59
}

/// The written fraction truncated to whole milliseconds.
pub open spec fn frac_millis(s: Seq<char>) -> int {
    if s.len() > 19 && s[19] == '.' {
        let fl = run_len(s, 20);
        if fl == 1 {
            digit_val(s[20]) * 100
        } else if fl == 2 {
            digit_val(s[20]) * 100 + digit_val(s[21]) * 10
        } else {
            digit_val(s[20]) * 100 + digit_val(s[21]) * 10 + digit_val(s[22])
        }
    } else {
        0
    }
}

/// The written offset in signed minutes east of UTC.
pub open spec fn offset_minutes(s: Seq<char>) -> int {
    let p = offset_pos(s);
    if s.len() == p + 1 {
        0
    } else {
        let mag = num2(s, p + 1) * 60 + num2(s, p + 4);
        if s[p] == '+' {
            mag
        } else {
            -mag
        }
    }
}

/// The calendar day after `(y, m, d)`.
pub open spec fn next_day(y: int, m: int, d: int) -> (int, int, int) {
    if d < days_in_month(y, m) {
        (y, m, d + 1)
    } else if m < 12 {
        (y, m + 1, 1)
    } else {
        (y + 1, 1, 1)
    }
}

/// The calendar day before `(y, m, d)`.
pub open spec fn prev_day(y: int, m: int, d: int) -> (int, int, int) {
    if d > 1 {
        (y, m, d - 1)
    } else if m > 1 {
        (y, m - 1, days_in_month(y, m - 1))
    } else {
        (y - 1, 12, 31)
    }
}

/// The written time of day, in minutes, shifted to UTC.
pub open spec fn shifted_minutes(s: Seq<char>) -> int {
    num2(s, 11) * 60 + num2(s, 14) - offset_minutes(s)
}

/// The UTC calendar day the text denotes: the written day, stepped one day
/// back or forward when removing the offset crosses midnight.
pub open spec fn norm_ymd(s: Seq<char>) -> (int, int, int) {
    if shifted_minutes(s) < 0 {
        prev_day(num4(s, 0), num2(s, 5), num2(s, 8))
    } else if shifted_minutes(s) >= 1440 {
        next_day(num4(s, 0), num2(s, 5), num2(s, 8))
    } else {
        (num4(s, 0), num2(s, 5), num2(s, 8))
    }
}

/// The UTC time of day the text denotes, in minutes.
pub open spec fn norm_minutes(s: Seq<char>) -> int {
    if shifted_minutes(s) < 0 {
        shifted_minutes(s) + 1440
    } else if shifted_minutes(s) >= 1440 {
        shifted_minutes(s) - 1440
    } else {
        shifted_minutes(s)
    }
}

/// The text is syntactically valid RFC3339 and its UTC normalization stays in
/// years 0 through 9999.
pub open spec fn parses(s: Seq<char>) -> bool {
    &&& prefix_ok(s)
    &&& frac_ok(s)
    &&& offset_ok(s)
    &&& fields_ok(s)
    &&& 0 <= norm_ymd(s).0 <= 9999
}

/// The UTC instant a valid text denotes.
pub open spec fn instant_of(s: Seq<char>) -> Instant {
    Instant {
        year: norm_ymd(s).0 as u16,
        month: norm_ymd(s).1 as u8,
        day: norm_ymd(s).2 as u8,
        hour: (norm_minutes(s) / 60) as u8,
        minute: (norm_minutes(s) % 60) as u8,
        second: num2(s, 17) as u8,
        milli: frac_millis(s) as u16,
    }
}

/// The numeric value of a digit character; 10 on anything else.
fn digit_of(c: char) -> (r: u8)
    ensures
        r as int == digit_val(c),
{
    match c {
        '0' => 0,
        '1' => 1,
        '2' => 2,
        '3' => 3,
        '4' => 4,
        '5' => 5,
        '6' => 6,
        '7' => 7,
        '8' => 8,
        '9' => 9,
        _ => 10,
    }
}

/// Days in one month of one year, by the leap-year rule.
fn days_in_month_x(y: u16, m: u8) -> (r: u8)
    requires
        1 <= m <= 12,
    ensures
        r as int == days_in_month(y as int, m as int),
{
    if m == 2 {
        if (y % 4 == 0 && y % 100 != 0) || y % 400 == 0 {
            29
        } else {
            28
        }
    } else if m == 4 || m == 6 || m == 9 || m == 11 {
        30
    } else {
        31
    }
}

/// A run of digits from `i` to `j` ending at a non-digit or at the end has
/// length `j - i`.
proof fn lemma_run_len(s: Seq<char>, i: int, j: int)
    requires
        0 <= i <= j <= s.len(),
        forall|k: int| i <= k < j ==> is_digit(s[k]),
        j == s.len() || !is_digit(s[j]),
    ensures
        run_len(s, i) == j - i,
    decreases j - i,
{
    if i < j {
        lemma_run_len(s, i + 1, j);
    }
}

/// First index at or after `start` that holds no digit; the end when all of
/// the rest are digits.
fn scan_digits(s: &str, start: usize) -> (r: usize)
    requires
        start <= s@.len(),
    ensures
        start <= r <= s@.len(),
        forall|k: int| start <= k < r ==> is_digit(s@[k]),
        r == s@.len() || !is_digit(s@[r as int]),
{
    let n = s.unicode_len();
    let mut i: usize = start;
    while i < n
        invariant
            start <= i <= n,
            n == s@.len(),
            forall|k: int| start <= k < i ==> is_digit(s@[k]),
        decreases n - i,
    {
        if digit_of(s.get_char(i)) > 9 {
            return i;
        }
        i = i + 1;
    }
    n
}

impl Instant {
    /// Decode RFC3339 text: any syntactically valid form with any UTC offset
    /// is accepted and normalized to UTC, with sub-millisecond digits
    /// truncated; anything else fails with `MalformedTimestamp` carrying the
    /// offending text.
    #[verifier::rlimit(100)]
    pub fn parse_rfc3339(s: &str) -> (r: Result<Instant, CodecError>)
        ensures
            parses(s@) ==> (r matches Ok(i) && i == instant_of(s@) && i.wf()),
            !parses(s@) ==> (r matches Err(e) && e@ == (ErrorV::MalformedTimestamp { text: s@ })),
    {
        let n = s.unicode_len();
        if n < 20 {
            proof {
                if n == 19 {
                    assert(offset_pos(s@) == 19);
                    assert(!offset_ok(s@));
                }
            }
            return Err(CodecError::MalformedTimestamp { text: s.to_owned() });
        }
        // Fixed-position prefix `YYYY-MM-DDTHH:mm:ss`.
        let d0 = digit_of(s.get_char(0));
        let d1 = digit_of(s.get_char(1));
        let d2 = digit_of(s.get_char(2));
        let d3 = digit_of(s.get_char(3));
        let d5 = digit_of(s.get_char(5));
        let d6 = digit_of(s.get_char(6));
        let d8 = digit_of(s.get_char(8));
        let d9 = digit_of(s.get_char(9));
        let d11 = digit_of(s.get_char(11));
        let d12 = digit_of(s.get_char(12));
        let d14 = digit_of(s.get_char(14));
        let d15 = digit_of(s.get_char(15));
        let d17 = digit_of(s.get_char(17));
        let d18 = digit_of(s.get_char(18));
        let c10 = s.get_char(10);
        if d0 > 9 || d1 > 9 || d2 > 9 || d3 > 9 || s.get_char(4) != '-' || d5 > 9 || d6 > 9
            || s.get_char(7) != '-' || d8 > 9 || d9 > 9 || !(c10 == 'T' || c10 == 't') || d11 > 9
            || d12 > 9 || s.get_char(13) != ':' || d14 > 9 || d15 > 9 || s.get_char(16) != ':'
            || d17 > 9 || d18 > 9 {
            return Err(CodecError::MalformedTimestamp { text: s.to_owned() });
        }
        let year: u16 = (d0 as u16) * 1000 + (d1 as u16) * 100 + (d2 as u16) * 10 + (d3 as u16);
        let month: u8 = d5 * 10 + d6;
        let day: u8 = d8 * 10 + d9;
        let hour: u8 = d11 * 10 + d12;
        let minute: u8 = d14 * 10 + d15;
        let second: u8 = d17 * 10 + d18;
        assert(year as int == num4(s@, 0));
        // Optional fraction: a point, then at least one digit; milliseconds
        // are the first three digits, truncated, padded with zeros.
        let mut p: usize = 19;
        let mut milli: u16 = 0;
        if s.get_char(19) == '.' {
            let i = scan_digits(s, 20);
            proof {
                lemma_run_len(s@, 20, i as int);
            }
            if i == 20 {
                assert(!frac_ok(s@));
                return Err(CodecError::MalformedTimestamp { text: s.to_owned() });
            }
            let f0 = digit_of(s.get_char(20));
            milli = if i == 21 {
                (f0 as u16) * 100
            } else if i == 22 {
                (f0 as u16) * 100 + (digit_of(s.get_char(21)) as u16) * 10
            } else {
                (f0 as u16) * 100 + (digit_of(s.get_char(21)) as u16) * 10 + (digit_of(
                    s.get_char(22),
                ) as u16)
            };
            assert(milli as int == frac_millis(s@));
            p = i;
        } else {
            assert(offset_pos(s@) == 19);
            assert(milli as int == frac_millis(s@));
        }
        assert(p as int == offset_pos(s@));
        if p >= n {
            assert(!offset_ok(s@));
            return Err(CodecError::MalformedTimestamp { text: s.to_owned() });
        }
        // Offset designator: `Z`/`z`, or a signed `hh:mm` offset.
        let mut offset_min: i32 = 0;
        let cp = s.get_char(p);
        if cp == 'Z' || cp == 'z' {
            if n - p != 1 {
                assert(!offset_ok(s@));
                return Err(CodecError::MalformedTimestamp { text: s.to_owned() });
            }
            assert(offset_min as int == offset_minutes(s@));
        } else if cp == '+' || cp == '-' {
            if n - p != 6 {
                assert(!offset_ok(s@));
                return Err(CodecError::MalformedTimestamp { text: s.to_owned() });
            }
            let oh1 = digit_of(s.get_char(p + 1));
            let oh2 = digit_of(s.get_char(p + 2));
            let om1 = digit_of(s.get_char(p + 4));
            let om2 = digit_of(s.get_char(p + 5));
            if oh1 > 9 || oh2 > 9 || s.get_char(p + 3) != ':' || om1 > 9 || om2 > 9 {
                assert(!offset_ok(s@));
                return Err(CodecError::MalformedTimestamp { text: s.to_owned() });
            }
            let oh: i32 = (oh1 as i32) * 10 + (oh2 as i32);
            let om: i32 = (om1 as i32) * 10 + (om2 as i32);
            if oh > 23 || om > 59 {
                assert(!offset_ok(s@));
                return Err(CodecError::MalformedTimestamp { text: s.to_owned() });
            }
            offset_min = if cp == '+' {
                oh * 60 + om
            } else {
                -(oh * 60 + om)
            };
            assert(offset_min as int == offset_minutes(s@));
        } else {
            assert(!offset_ok(s@));
            return Err(CodecError::MalformedTimestamp { text: s.to_owned() });
        }
        // Range checks on the written fields.
        if month < 1 || month > 12 || hour > 23 || minute > 59 || second > 59 {
            assert(!fields_ok(s@));
            return Err(CodecError::MalformedTimestamp { text: s.to_owned() });
        }
        if day < 1 || day > days_in_month_x(year, month) {
            assert(!fields_ok(s@));
            return Err(CodecError::MalformedTimestamp { text: s.to_owned() });
        }
        // Normalize to UTC: remove the offset, stepping across midnight when
        // needed.
        let shifted: i32 = (hour as i32) * 60 + (minute as i32) - offset_min;
        assert(shifted as int == shifted_minutes(s@));
        let (ny, nm, nd, tod): (u16, u8, u8, i32) = if shifted < 0 {
            if day > 1 {
                (year, month, day - 1, shifted + 1440)
            } else if month > 1 {
                (year, month - 1, days_in_month_x(year, month - 1), shifted + 1440)
            } else if year > 0 {
                (year - 1, 12, 31, shifted + 1440)
            } else {
                assert(norm_ymd(s@).0 == -1);
                return Err(CodecError::MalformedTimestamp { text: s.to_owned() });
            }
        } else if shifted >= 1440 {
            if day < days_in_month_x(year, month) {
                (year, month, day + 1, shifted - 1440)
            } else if month < 12 {
                (year, month + 1, 1, shifted - 1440)
            } else if year < 9999 {
                (year + 1, 1, 1, shifted - 1440)
            } else {
                assert(norm_ymd(s@).0 == 10000);
                return Err(CodecError::MalformedTimestamp { text: s.to_owned() });
            }
        } else {
            (year, month, day, shifted)
        };
        let i = Instant {
            year: ny,
            month: nm,
            day: nd,
            hour: (tod / 60) as u8,
            minute: (tod % 60) as u8,
            second,
            milli,
        };
        assert(parses(s@));
        assert(i == instant_of(s@));
        Ok(i)
    }
}

/// The canonical text written character by character.
#[verifier::rlimit(100)]
proof fn lemma_rfc3339_chars(i: Instant)
    requires
        i.wf(),
    ensures
        rfc3339_of(i) =~= seq![
            digit_char(i.year as int / 100 / 10),
            digit_char(i.year as int / 100 % 10),
            digit_char(i.year as int % 100 / 10),
            digit_char(i.year as int % 100 % 10),
            '-',
            digit_char(i.month as int / 10),
            digit_char(i.month as int % 10),
            '-',
            digit_char(i.day as int / 10),
            digit_char(i.day as int % 10),
            'T',
            digit_char(i.hour as int / 10),
            digit_char(i.hour as int % 10),
            ':',
            digit_char(i.minute as int / 10),
            digit_char(i.minute as int % 10),
            ':',
            digit_char(i.second as int / 10),
            digit_char(i.second as int % 10),
            '.',
            digit_char(i.milli as int / 100),
            digit_char(i.milli as int / 10 % 10),
            digit_char(i.milli as int % 10),
            'Z',
        ],
{
}

/// Decoding the canonical text an encode produced yields the encoded instant
/// back, and that text always parses.
#[verifier::rlimit(100)]
pub proof fn lemma_instant_round_trip(i: Instant)
    requires
        i.wf(),
    ensures
        parses(rfc3339_of(i)),
        instant_of(rfc3339_of(i)) == i,
{
    let s = rfc3339_of(i);
    lemma_rfc3339_chars(i);
    assert(s.len() == 24);
    lemma_digit_round_trip(i.year as int / 100 / 10);
    lemma_digit_round_trip(i.year as int / 100 % 10);
    lemma_digit_round_trip(i.year as int % 100 / 10);
    lemma_digit_round_trip(i.year as int % 100 % 10);
    lemma_digit_round_trip(i.milli as int / 10 % 10);
    lemma_digit_round_trip(i.month as int / 10);
    lemma_digit_round_trip(i.month as int % 10);
    lemma_digit_round_trip(i.day as int / 10);
    lemma_digit_round_trip(i.day as int % 10);
    lemma_digit_round_trip(i.hour as int / 10);
    lemma_digit_round_trip(i.hour as int % 10);
    lemma_digit_round_trip(i.minute as int / 10);
    lemma_digit_round_trip(i.minute as int % 10);
    lemma_digit_round_trip(i.second as int / 10);
    lemma_digit_round_trip(i.second as int % 10);
    lemma_digit_round_trip(i.milli as int / 100);
    lemma_digit_round_trip(i.milli as int % 10);
    assert(is_digit(s[20]) && is_digit(s[21]) && is_digit(s[22]));
    assert(s[23] == 'Z');
    assert(!is_digit('Z'));
    lemma_run_len(s, 20, 23);
    assert(offset_pos(s) == 23);
    assert(offset_ok(s));
    assert(num4(s, 0) == i.year as int);
    assert(num2(s, 5) == i.month as int);
    assert(num2(s, 8) == i.day as int);
    assert(num2(s, 11) == i.hour as int);
    assert(num2(s, 14) == i.minute as int);
    assert(num2(s, 17) == i.second as int);
    assert(frac_millis(s) == i.milli as int);
    assert(offset_minutes(s) == 0);
    assert(0 <= shifted_minutes(s) < 1440);
    assert(norm_ymd(s) == (i.year as int, i.month as int, i.day as int));
    assert(norm_minutes(s) == i.hour as int * 60 + i.minute as int);
    assert(instant_of(s) == i);
}

} // verus!

