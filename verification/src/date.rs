//! The date model: a resolved date with its provenance, calendar validity,
//! `YYYY-MM-DD` formatting and parsing, and extraction of the date portion
//! of a timestamp string.

use vstd::prelude::*;
use vstd::string::*;
use crate::text::{dec_seq, digit_char, padded_dec, push_padded2, push_padded4};

verus! {

/// Where a resolved date came from: embedded metadata, or a filesystem
/// timestamp used as a fallback.
#[derive(Clone, Copy, Debug, PartialEq, Eq, Structural)]
pub enum DateSource {
    Authoritative,
    FallbackModified,
    FallbackAccessed,
}

/// A resolved creation date. `valid` is false only when no date at all could
/// be produced; such a value stands for the `no.date` sentinel.
#[derive(Clone, Copy, Debug, PartialEq, Eq, Structural)]
pub struct ResolvedDate {
    pub year: u32,
    pub month: u32,
    pub day: u32,
    pub source: DateSource,
    pub valid: bool,
}

pub open spec fn is_leap_year(y: int) -> bool {
    y % 4 == 0 && (y % 100 != 0 || y % 400 == 0)
}

pub open spec fn days_in_month(y: int, m: int) -> int {
    if m == 2 {
        if is_leap_year(y) {
            29
        } else {
            28
        }
    } else if m == 4 || m == 6 || m == 9 || m == 11 {
        30
    } else {
        31
    }
}

/// A proper calendar date that the four-digit form can carry.
pub open spec fn valid_ymd(y: int, m: int, d: int) -> bool {
    0 <= y <= 9999 && 1 <= m <= 12 && 1 <= d <= days_in_month(y, m)
}

pub fn is_valid_ymd(y: u32, m: u32, d: u32) -> (r: bool)
    ensures
        r == valid_ymd(y as int, m as int, d as int),
{
    if y > 9999 || m < 1 || m > 12 || d < 1 {
        return false;
    }
    let leap: bool = y % 4 == 0 && (y % 100 != 0 || y % 400 == 0);
    let limit: u32 = if m == 2 {
        if leap {
            29
        } else {
            28
        }
    } else if m == 4 || m == 6 || m == 9 || m == 11 {
        30
    } else {
        31
    };
    d <= limit
}

/// The characters of `YYYY-MM-DD` for the given components.
pub open spec fn ymd_seq(y: nat, m: nat, d: nat) -> Seq<char> {
    padded_dec(y, 4) + seq!['-'] + padded_dec(m, 2) + seq!['-'] + padded_dec(d, 2)
}

/// Formats the components as `YYYY-MM-DD`.
pub fn format_ymd(y: u32, m: u32, d: u32) -> (r: String)
    ensures
        r@ == ymd_seq(y as nat, m as nat, d as nat),
{
    let mut s = String::new();
    push_padded4(&mut s, y);
    s.append("-");
    push_padded2(&mut s, m);
    s.append("-");
    push_padded2(&mut s, d);
    proof {
        reveal_strlit("-");
        assert(s@ =~= ymd_seq(y as nat, m as nat, d as nat));
    }
    s
}

/// The string a resolved date is shown as: `YYYY-MM-DD` for an authoritative
/// date, `YYYY-MM-DD.fallback` for a fallback date, and `no.date` when no
/// date could be produced.
pub open spec fn date_string_of(rd: ResolvedDate) -> Seq<char> {
    if !rd.valid {
        "no.date"@
    } else if rd.source == DateSource::Authoritative {
        ymd_seq(rd.year as nat, rd.month as nat, rd.day as nat)
    } else {
        ymd_seq(rd.year as nat, rd.month as nat, rd.day as nat) + ".fallback"@
    }
}

pub fn date_string(rd: &ResolvedDate) -> (r: String)
    ensures
        r@ == date_string_of(*rd),
{
    if !rd.valid {
        return String::from_str("no.date");
    }
    let mut s = format_ymd(rd.year, rd.month, rd.day);
    match rd.source {
        DateSource::Authoritative => {},
        _ => {
            s.append(".fallback");
        },
    }
    s
}

/// A character that separates the date part of a timestamp from the time
/// part: `T` or ASCII whitespace.
pub open spec fn is_time_separator(c: char) -> bool {
    c == 'T' || c == ' ' || c == '\t' || c == '\n' || c == '\r'
}

/// The position of the first time separator in `s`, or the length of `s`
/// when none occurs.
pub open spec fn first_sep_index(s: Seq<char>) -> int
    decreases s.len(),
{
    if s.len() == 0 {
        0
    } else if is_time_separator(s[0]) {
        0
    } else {
        1 + first_sep_index(s.skip(1))
    }
}

pub proof fn lemma_first_sep_index(s: Seq<char>)
    ensures
        0 <= first_sep_index(s) <= s.len(),
        forall|j: int| 0 <= j < first_sep_index(s) ==> !is_time_separator(s[j]),
        first_sep_index(s) < s.len() ==> is_time_separator(s[first_sep_index(s)]),
    decreases s.len(),
{
    if s.len() > 0 && !is_time_separator(s[0]) {
        lemma_first_sep_index(s.skip(1));
        assert forall|j: int| 0 <= j < first_sep_index(s) implies !is_time_separator(s[j]) by {
            if j > 0 {
                assert(s.skip(1)[j - 1] == s[j]);
                assert(!is_time_separator(s.skip(1)[j - 1]));
            }
        }
    }
}

/// The date portion of a timestamp string: its prefix before the first time
/// separator, or nothing when that prefix is empty.
pub open spec fn date_portion(s: Seq<char>) -> Option<Seq<char>> {
    if first_sep_index(s) == 0 {
        None
    } else {
        Some(s.take(first_sep_index(s)))
    }
}

fn is_time_separator_exec(c: char) -> (r: bool)
    ensures
        r == is_time_separator(c),
{
    c == 'T' || c == ' ' || c == '\t' || c == '\n' || c == '\r'
}

/// Copies the date portion of `s` out as an owned string, if there is one.
pub fn date_portion_str(s: &str) -> (r: Option<String>)
    ensures
        match r {
            Some(p) => date_portion(s@) == Some(p@),
            None => date_portion(s@) is None,
        },
{
    proof {
        lemma_first_sep_index(s@);
    }
    let n: usize = s.unicode_len();
    let mut i: usize = 0;
    while i < n && !is_time_separator_exec(s.get_char(i))
        invariant
            n == s@.len(),
            i <= n,
            forall|j: int| 0 <= j < i ==> !is_time_separator(s@[j]),
        decreases n - i,
    {
        i += 1;
    }
    proof {
        lemma_first_sep_index(s@);
        assert(i == first_sep_index(s@));
    }
    if i == 0 {
        None
    } else {
        Some(String::from_str(s.substring_char(0, i)))
    }
}

/// The digit value of `c`, if `c` is a decimal digit.
pub open spec fn spec_char_digit(c: char) -> Option<int> {
    if c == '0' {
        Some(0int)
    } else if c == '1' {
        Some(1int)
    } else if c == '2' {
        Some(2int)
    } else if c == '3' {
        Some(3int)
    } else if c == '4' {
        Some(4int)
    } else if c == '5' {
        Some(5int)
    } else if c == '6' {
        Some(6int)
    } else if c == '7' {
        Some(7int)
    } else if c == '8' {
        Some(8int)
    } else if c == '9' {
        Some(9int)
    } else {
        None
    }
}

fn char_digit(c: char) -> (r: Option<u8>)
    ensures
        match r {
            Some(d) => spec_char_digit(c) == Some(d as int),
            None => spec_char_digit(c) is None,
        },
{
    match c {
        '0' => Some(0u8),
        '1' => Some(1u8),
        '2' => Some(2u8),
        '3' => Some(3u8),
        '4' => Some(4u8),
        '5' => Some(5u8),
        '6' => Some(6u8),
        '7' => Some(7u8),
        '8' => Some(8u8),
        '9' => Some(9u8),
        _ => None,
    }
}

/// Whether `s` has the exact shape `YYYY-MM-DD`.
pub open spec fn is_ymd_shape(s: Seq<char>) -> bool {
    &&& s.len() == 10
    &&& spec_char_digit(s[0]) is Some
    &&& spec_char_digit(s[1]) is Some
    &&& spec_char_digit(s[2]) is Some
    &&& spec_char_digit(s[3]) is Some
    &&& s[4] == '-'
    &&& spec_char_digit(s[5]) is Some
    &&& spec_char_digit(s[6]) is Some
    &&& s[7] == '-'
    &&& spec_char_digit(s[8]) is Some
    &&& spec_char_digit(s[9]) is Some
}

pub open spec fn parsed_year(s: Seq<char>) -> int {
    spec_char_digit(s[0])->Some_0 * 1000 + spec_char_digit(s[1])->Some_0 * 100 + spec_char_digit(
        s[2],
    )->Some_0 * 10 + spec_char_digit(s[3])->Some_0
}

pub open spec fn parsed_month(s: Seq<char>) -> int {
    spec_char_digit(s[5])->Some_0 * 10 + spec_char_digit(s[6])->Some_0
}

pub open spec fn parsed_day(s: Seq<char>) -> int {
    spec_char_digit(s[8])->Some_0 * 10 + spec_char_digit(s[9])->Some_0
}

/// Reads `YYYY-MM-DD` components out of `s`, when `s` has exactly that shape.
pub fn parse_ymd(s: &str) -> (r: Option<(u32, u32, u32)>)
    ensures
        match r {
            Some(ymd) => is_ymd_shape(s@) && ymd.0 == parsed_year(s@) && ymd.1 == parsed_month(s@)
                && ymd.2 == parsed_day(s@),
            None => !is_ymd_shape(s@),
        },
{
    if s.unicode_len() != 10 {
        return None;
    }
    if s.get_char(4) != '-' || s.get_char(7) != '-' {
        return None;
    }
    let d0 = char_digit(s.get_char(0));
    let d1 = char_digit(s.get_char(1));
    let d2 = char_digit(s.get_char(2));
    let d3 = char_digit(s.get_char(3));
    let d5 = char_digit(s.get_char(5));
    let d6 = char_digit(s.get_char(6));
    let d8 = char_digit(s.get_char(8));
    let d9 = char_digit(s.get_char(9));
    match (d0, d1, d2, d3, d5, d6, d8, d9) {
        (
            Some(a),
            Some(b),
            Some(c),
            Some(d),
            Some(e),
            Some(f),
            Some(g),
            Some(h),
        ) => {
            let y: u32 = a as u32 * 1000 + b as u32 * 100 + c as u32 * 10 + d as u32;
            let m: u32 = e as u32 * 10 + f as u32;
            let day: u32 = g as u32 * 10 + h as u32;
            Some((y, m, day))
        },
        _ => None,
    }
}

/// A formatted `YYYY-MM-DD` string parses back to its own components.
pub proof fn lemma_ymd_seq_parses_back(y: nat, m: nat, d: nat)
    requires
        y <= 9999,
        m <= 99,
        d <= 99,
    ensures
        is_ymd_shape(ymd_seq(y, m, d)),
        parsed_year(ymd_seq(y, m, d)) == y,
        parsed_month(ymd_seq(y, m, d)) == m,
        parsed_day(ymd_seq(y, m, d)) == d,
{
    crate::text::lemma_padded4_digits(y);
    crate::text::lemma_padded2_digits(m);
    crate::text::lemma_padded2_digits(d);
    let s = ymd_seq(y, m, d);
    assert(s[0] == digit_char((y / 1000) as int));
    assert(s[1] == digit_char(((y / 100) % 10) as int));
    assert(s[2] == digit_char(((y / 10) % 10) as int));
    assert(s[3] == digit_char((y % 10) as int));
    assert(s[4] == '-');
    assert(s[5] == digit_char((m / 10) as int));
    assert(s[6] == digit_char((m % 10) as int));
    assert(s[7] == '-');
    assert(s[8] == digit_char((d / 10) as int));
    assert(s[9] == digit_char((d % 10) as int));
    assert forall|k: int| 0 <= k < 10 implies spec_char_digit(digit_char(k)) == Some(k) by {}
    vstd::arithmetic::div_mod::lemma_fundamental_div_mod(y as int, 10);
    vstd::arithmetic::div_mod::lemma_fundamental_div_mod(y as int / 10, 10);
    vstd::arithmetic::div_mod::lemma_fundamental_div_mod(y as int / 100, 10);
    vstd::arithmetic::div_mod::lemma_div_denominator(y as int, 10, 10);
    vstd::arithmetic::div_mod::lemma_div_denominator(y as int, 100, 10);
    vstd::arithmetic::div_mod::lemma_fundamental_div_mod(m as int, 10);
    vstd::arithmetic::div_mod::lemma_fundamental_div_mod(d as int, 10);
}

/// The resolved date a date string stands for: `YYYY-MM-DD` is an
/// authoritative date, `YYYY-MM-DD.fallback` a fallback one, and anything
/// else — the `no.date` sentinel included — carries no date.
pub open spec fn spec_parse_resolved(s: Seq<char>) -> ResolvedDate {
    if s.len() == 19 && s.skip(10) == ".fallback"@ && is_ymd_shape(s.take(10)) {
        ResolvedDate {
            year: parsed_year(s.take(10)) as u32,
            month: parsed_month(s.take(10)) as u32,
            day: parsed_day(s.take(10)) as u32,
            source: DateSource::FallbackModified,
            valid: true,
        }
    } else if is_ymd_shape(s) {
        ResolvedDate {
            year: parsed_year(s) as u32,
            month: parsed_month(s) as u32,
            day: parsed_day(s) as u32,
            source: DateSource::Authoritative,
            valid: true,
        }
    } else {
        ResolvedDate {
            year: 0,
            month: 0,
            day: 0,
            source: DateSource::FallbackModified,
            valid: false,
        }
    }
}

/// Reads a resolved date back out of its string form.
pub fn parse_resolved(s: &str) -> (rd: ResolvedDate)
    ensures
        rd == spec_parse_resolved(s@),
{
    proof {
        reveal_strlit(".fallback");
    }
    let n: usize = s.unicode_len();
    if n == 19 && crate::text::ends_with_str(s, ".fallback") {
        proof {
            assert(s@.skip(10) == s@.skip(s@.len() - ".fallback"@.len()));
        }
        if let Some((y, m, d)) = parse_ymd(s.substring_char(0, 10)) {
            return ResolvedDate {
                year: y,
                month: m,
                day: d,
                source: DateSource::FallbackModified,
                valid: true,
            };
        }
        return ResolvedDate {
            year: 0,
            month: 0,
            day: 0,
            source: DateSource::FallbackModified,
            valid: false,
        };
    }
    if let Some((y, m, d)) = parse_ymd(s) {
        return ResolvedDate {
            year: y,
            month: m,
            day: d,
            source: DateSource::Authoritative,
            valid: true,
        };
    }
    ResolvedDate { year: 0, month: 0, day: 0, source: DateSource::FallbackModified, valid: false }
}

/// Formatting a resolved date and parsing the string back returns the same
/// date, for every date the four-digit form can carry. An accessed-time
/// fallback reads back as a modified-time one: the string form carries one
/// fallback marker for both.
pub proof fn lemma_date_string_round_trip(rd: ResolvedDate)
    requires
        rd.valid,
        rd.year <= 9999,
        rd.month <= 99,
        rd.day <= 99,
        rd.source != DateSource::FallbackAccessed,
    ensures
        spec_parse_resolved(date_string_of(rd)) == rd,
{
    reveal_strlit(".fallback");
    reveal_strlit("no.date");
    lemma_ymd_seq_parses_back(rd.year as nat, rd.month as nat, rd.day as nat);
    let ymd = ymd_seq(rd.year as nat, rd.month as nat, rd.day as nat);
    assert(ymd.len() == 10);
    if rd.source == DateSource::Authoritative {
        let s = date_string_of(rd);
        assert(s == ymd);
    } else {
        let s = date_string_of(rd);
        assert(s == ymd + ".fallback"@);
        assert(s.len() == 19);
        assert(s.skip(10) =~= ".fallback"@);
        assert(s.take(10) =~= ymd);
    }
}

} // verus!
