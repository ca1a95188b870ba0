//! The text form in which TLS libraries print certificate times, such as
//! `Feb  3 09:05:07 2031 GMT`: a three-letter month, the day padded to two
//! places with a space, the time of day, a four-digit year and `GMT`.
use vstd::prelude::*;
use crate::calendar::Timestamp;

verus! {

pub open spec fn is_digit(c: char) -> bool {
    48 <= c as u32 <= 57
}

pub open spec fn digit_value(c: char) -> int {
    c as u32 - 48
}

/// `s[i]` and `s[i + 1]` are decimal digits that spell `v`.
pub open spec fn two_digits_at(s: Seq<char>, i: int, v: int) -> bool {
    &&& is_digit(s[i])
    &&& is_digit(s[i + 1])
    &&& digit_value(s[i]) * 10 + digit_value(s[i + 1]) == v
}

pub open spec fn month_abbrev(m: int) -> (char, char, char) {
    if m == 1 {
        ('J', 'a', 'n')
    } else if m == 2 {
        ('F', 'e', 'b')
    } else if m == 3 {
        ('M', 'a', 'r')
    } else if m == 4 {
        ('A', 'p', 'r')
    } else if m == 5 {
        ('M', 'a', 'y')
    } else if m == 6 {
        ('J', 'u', 'n')
    } else if m == 7 {
        ('J', 'u', 'l')
    } else if m == 8 {
        ('A', 'u', 'g')
    } else if m == 9 {
        ('S', 'e', 'p')
    } else if m == 10 {
        ('O', 'c', 't')
    } else if m == 11 {
        ('N', 'o', 'v')
    } else {
        ('D', 'e', 'c')
    }
}

/// `s` is the text form of `t`.
pub open spec fn describes(s: Seq<char>, t: Timestamp) -> bool {
    &&& s.len() == 24
    &&& 1 <= t.month <= 12
    &&& (s[0], s[1], s[2]) == month_abbrev(t.month as int)
    &&& s[3] == ' '
    &&& if t.day < 10 {
        s[4] == ' ' && is_digit(s[5]) && digit_value(s[5]) == t.day
    } else {
        two_digits_at(s, 4, t.day as int)
    }
    &&& s[6] == ' '
    &&& two_digits_at(s, 7, t.hour as int)
    &&& s[9] == ':'
    &&& two_digits_at(s, 10, t.minute as int)
    &&& s[12] == ':'
    &&& two_digits_at(s, 13, t.second as int)
    &&& s[15] == ' '
    &&& 1000 <= t.year
    &&& two_digits_at(s, 16, t.year as int / 100)
    &&& two_digits_at(s, 18, t.year as int % 100)
    &&& s[20] == ' '
    &&& s[21] == 'G'
    &&& s[22] == 'M'
    &&& s[23] == 'T'
}

/// Some valid timestamp has `s` as its text form.
pub open spec fn is_time_text(s: Seq<char>) -> bool {
    exists|t: Timestamp| t.wf() && #[trigger] describes(s, t)
}

/// A text describes at most one valid timestamp.
pub proof fn lemma_describes_unique(s: Seq<char>, a: Timestamp, b: Timestamp)
    requires
        a.wf(),
        b.wf(),
        describes(s, a),
        describes(s, b),
    ensures
        a == b,
{
    assert(a.month == b.month) by {
        if a.month != b.month {
            lemma_abbrev_distinct(a.month as int, b.month as int);
        }
    }
    assert(a.year == b.year) by {
        assert(a.year as int == (a.year as int / 100) * 100 + a.year as int % 100);
        assert(b.year as int == (b.year as int / 100) * 100 + b.year as int % 100);
    }
}

proof fn lemma_abbrev_distinct(m: int, n: int)
    requires
        1 <= m <= 12,
        1 <= n <= 12,
        m != n,
    ensures
        month_abbrev(m) != month_abbrev(n),
{
}

fn digit_at(s: &str, i: usize) -> (r: Option<u8>)
    requires
        i < s@.len(),
    ensures
        match r {
            Some(v) => is_digit(s@[i as int]) && v == digit_value(s@[i as int]),
            None => !is_digit(s@[i as int]),
        },
{
    let c = s.get_char(i);
    let code = c as u32;
    if 48 <= code && code <= 57 {
        Some((code - 48) as u8)
    } else {
        None
    }
}

fn two_digits(s: &str, i: usize) -> (r: Option<u8>)
    requires
        i + 1 < s@.len() == 24,
    ensures
        match r {
            Some(v) => two_digits_at(s@, i as int, v as int),
            None => forall|v: int| !two_digits_at(s@, i as int, v),
        },
{
    match digit_at(s, i) {
        Some(hi) => match digit_at(s, i + 1) {
            Some(lo) => Some(hi * 10 + lo),
            None => None,
        },
        None => None,
    }
}

fn month_from_abbrev(a: char, b: char, c: char) -> (r: Option<u8>)
    ensures
        match r {
            Some(m) => 1 <= m <= 12 && (a, b, c) == month_abbrev(m as int),
            None => forall|m: int| 1 <= m <= 12 ==> (a, b, c) != month_abbrev(m),
        },
{
    let mut m: u8 = 1;
    while m <= 12
        invariant
            1 <= m <= 13,
            forall|k: int| 1 <= k < m ==> (a, b, c) != month_abbrev(k),
        decreases 13 - m,
    {
        let (x, y, z) = abbrev_of(m);
        if a == x && b == y && c == z {
            return Some(m);
        }
        m = m + 1;
    }
    None
}

fn abbrev_of(m: u8) -> (r: (char, char, char))
    requires
        1 <= m <= 12,
    ensures
        r == month_abbrev(m as int),
{
    match m {
        1 => ('J', 'a', 'n'),
        2 => ('F', 'e', 'b'),
        3 => ('M', 'a', 'r'),
        4 => ('A', 'p', 'r'),
        5 => ('M', 'a', 'y'),
        6 => ('J', 'u', 'n'),
        7 => ('J', 'u', 'l'),
        8 => ('A', 'u', 'g'),
        9 => ('S', 'e', 'p'),
        10 => ('O', 'c', 't'),
        11 => ('N', 'o', 'v'),
        _ => ('D', 'e', 'c'),
    }
}

/// Reads a timestamp from its text form; `None` when `s` is the text form of
/// no valid timestamp.
pub fn parse_time_text(s: &str) -> (r: Option<Timestamp>)
    ensures
        match r {
            Some(t) => t.wf() && describes(s@, t),
            None => !is_time_text(s@),
        },
{
    if s.unicode_len() != 24 {
        return None;
    }
    let month = match month_from_abbrev(s.get_char(0), s.get_char(1), s.get_char(2)) {
        Some(m) => m,
        None => return None,
    };
    if s.get_char(3) != ' ' || s.get_char(6) != ' ' || s.get_char(9) != ':' || s.get_char(12)
        != ':' || s.get_char(15) != ' ' || s.get_char(20) != ' ' || s.get_char(21) != 'G'
        || s.get_char(22) != 'M' || s.get_char(23) != 'T' {
        return None;
    }
    let day = if s.get_char(4) == ' ' {
        match digit_at(s, 5) {
            Some(d) => d,
            None => return None,
        }
    } else {
        match two_digits(s, 4) {
            Some(v) => {
                if v < 10 {
                    return None;
                }
                v
            },
            None => return None,
        }
    };
    let hour = match two_digits(s, 7) {
        Some(v) => v,
        None => return None,
    };
    let minute = match two_digits(s, 10) {
        Some(v) => v,
        None => return None,
    };
    let second = match two_digits(s, 13) {
        Some(v) => v,
        None => return None,
    };
    let century = match two_digits(s, 16) {
        Some(v) => v,
        None => return None,
    };
    let rest = match two_digits(s, 18) {
        Some(v) => v,
        None => return None,
    };
    if century < 10 {
        return None;
    }
    let t = Timestamp { year: century as u16 * 100 + rest as u16, month, day, hour, minute, second };
    if !t.is_valid() {
        return None;
    }
    Some(t)
}

} // verus!
