//! Character-level utilities: decimal formatting, string equality and
//! suffix tests, and locating path separators and extension dots.

use vstd::prelude::*;
use vstd::string::*;

verus! {

/// The decimal digit character for `d` (0 through 9).
pub open spec fn digit_char(d: int) -> char {
    if d == 0 {
        '0'
    } else if d == 1 {
        '1'
    } else if d == 2 {
        '2'
    } else if d == 3 {
        '3'
    } else if d == 4 {
        '4'
    } else if d == 5 {
        '5'
    } else if d == 6 {
        '6'
    } else if d == 7 {
        '7'
    } else if d == 8 {
        '8'
    } else {
        '9'
    }
}

/// The decimal representation of `n`, without leading zeroes.
pub open spec fn dec_seq(n: nat) -> Seq<char>
    decreases n,
{
    if n < 10 {
        seq![digit_char(n as int)]
    } else {
        dec_seq(n / 10) + seq![digit_char((n % 10) as int)]
    }
}

/// `n` in decimal, left-padded with zeroes to at least `width` characters.
pub open spec fn padded_dec(n: nat, width: nat) -> Seq<char> {
    if dec_seq(n).len() >= width {
        dec_seq(n)
    } else {
        Seq::new((width - dec_seq(n).len()) as nat, |i: int| '0') + dec_seq(n)
    }
}

/// Whether `c` is a decimal digit character.
pub open spec fn is_digit_char(c: char) -> bool {
    c == '0' || c == '1' || c == '2' || c == '3' || c == '4' || c == '5' || c == '6' || c == '7'
        || c == '8' || c == '9'
}

pub proof fn lemma_dec_seq_digits(n: nat)
    ensures
        forall|j: int| 0 <= j < dec_seq(n).len() ==> is_digit_char(dec_seq(n)[j]),
    decreases n,
{
    if n < 10 {
        assert(dec_seq(n) =~= seq![digit_char(n as int)]);
        assert(is_digit_char(digit_char(n as int)));
    } else {
        lemma_dec_seq_digits(n / 10);
        assert(dec_seq(n) =~= dec_seq(n / 10) + seq![digit_char((n % 10) as int)]);
        assert forall|j: int| 0 <= j < dec_seq(n).len() implies is_digit_char(dec_seq(n)[j]) by {
            if j < dec_seq(n / 10).len() {
                assert(dec_seq(n)[j] == dec_seq(n / 10)[j]);
            } else {
                assert(dec_seq(n)[j] == digit_char((n % 10) as int));
            }
        }
    }
}

pub proof fn lemma_padded_dec_digits(n: nat, width: nat)
    ensures
        forall|j: int| 0 <= j < padded_dec(n, width).len() ==> is_digit_char(padded_dec(n, width)[j]),
{
    lemma_dec_seq_digits(n);
}

pub proof fn lemma_dec_seq_len(n: nat)
    ensures
        n < 10 ==> dec_seq(n).len() == 1,
        10 <= n < 100 ==> dec_seq(n).len() == 2,
        100 <= n < 1000 ==> dec_seq(n).len() == 3,
        1000 <= n < 10000 ==> dec_seq(n).len() == 4,
        n >= 1000 ==> dec_seq(n).len() >= 4,
    decreases n,
{
    if n >= 10 {
        lemma_dec_seq_len(n / 10);
    }
}

/// A number below 10000, zero-padded to width four, shows exactly its four
/// decimal digits.
pub proof fn lemma_padded4_digits(n: nat)
    requires
        n <= 9999,
    ensures
        padded_dec(n, 4) =~= seq![
            digit_char((n / 1000) as int),
            digit_char(((n / 100) % 10) as int),
            digit_char(((n / 10) % 10) as int),
            digit_char((n % 10) as int),
        ],
{
    lemma_dec_seq_len(n);
    vstd::arithmetic::div_mod::lemma_div_denominator(n as int, 10, 10);
    vstd::arithmetic::div_mod::lemma_div_denominator(n as int, 100, 10);
    vstd::arithmetic::div_mod::lemma_div_denominator(n as int, 10, 100);
    if n < 10 {
    } else if n < 100 {
        assert(dec_seq(n) =~= dec_seq(n / 10) + seq![digit_char((n % 10) as int)]);
    } else if n < 1000 {
        assert(dec_seq(n) =~= dec_seq(n / 10) + seq![digit_char((n % 10) as int)]);
        assert(dec_seq(n / 10) =~= dec_seq(n / 100) + seq![digit_char(((n / 10) % 10) as int)]);
    } else {
        assert(dec_seq(n) =~= dec_seq(n / 10) + seq![digit_char((n % 10) as int)]);
        assert(dec_seq(n / 10) =~= dec_seq(n / 100) + seq![digit_char(((n / 10) % 10) as int)]);
        assert(dec_seq(n / 100) =~= dec_seq(n / 1000) + seq![digit_char(((n / 100) % 10) as int)]);
    }
}

/// A number below 100, zero-padded to width two, shows exactly its two
/// decimal digits.
pub proof fn lemma_padded2_digits(n: nat)
    requires
        n <= 99,
    ensures
        padded_dec(n, 2) =~= seq![digit_char((n / 10) as int), digit_char((n % 10) as int)],
{
    lemma_dec_seq_len(n);
    if n >= 10 {
        assert(dec_seq(n) =~= dec_seq(n / 10) + seq![digit_char((n % 10) as int)]);
    }
}

/// A one-character string for the digit `d`.
fn digit_str(d: u8) -> (r: &'static str)
    requires
        d < 10,
    ensures
        r@ == seq![digit_char(d as int)],
{
    if d == 0 {
        proof {
            reveal_strlit("0");
            assert("0"@ =~= seq![digit_char(0)]);
        }
        "0"
    } else if d == 1 {
        proof {
            reveal_strlit("1");
            assert("1"@ =~= seq![digit_char(1)]);
        }
        "1"
    } else if d == 2 {
        proof {
            reveal_strlit("2");
            assert("2"@ =~= seq![digit_char(2)]);
        }
        "2"
    } else if d == 3 {
        proof {
            reveal_strlit("3");
            assert("3"@ =~= seq![digit_char(3)]);
        }
        "3"
    } else if d == 4 {
        proof {
            reveal_strlit("4");
            assert("4"@ =~= seq![digit_char(4)]);
        }
        "4"
    } else if d == 5 {
        proof {
            reveal_strlit("5");
            assert("5"@ =~= seq![digit_char(5)]);
        }
        "5"
    } else if d == 6 {
        proof {
            reveal_strlit("6");
            assert("6"@ =~= seq![digit_char(6)]);
        }
        "6"
    } else if d == 7 {
        proof {
            reveal_strlit("7");
            assert("7"@ =~= seq![digit_char(7)]);
        }
        "7"
    } else if d == 8 {
        proof {
            reveal_strlit("8");
            assert("8"@ =~= seq![digit_char(8)]);
        }
        "8"
    } else {
        proof {
            reveal_strlit("9");
            assert("9"@ =~= seq![digit_char(9)]);
        }
        "9"
    }
}

/// Appends the decimal representation of `n` to `s`.
pub fn push_dec(s: &mut String, n: u32)
    ensures
        final(s)@ == old(s)@ + dec_seq(n as nat),
    decreases n,
{
    if n >= 10 {
        push_dec(s, n / 10);
    }
    let d: u8 = (n % 10) as u8;
    s.append(digit_str(d));
    proof {
        assert(s@ =~= old(s)@ + dec_seq(n as nat));
    }
}

/// Appends `n` in decimal, zero-padded to at least two characters.
pub fn push_padded2(s: &mut String, n: u32)
    ensures
        final(s)@ == old(s)@ + padded_dec(n as nat, 2),
{
    proof {
        lemma_dec_seq_len(n as nat);
        reveal_strlit("0");
    }
    if n < 10 {
        s.append("0");
    }
    push_dec(s, n);
    proof {
        assert(s@ =~= old(s)@ + padded_dec(n as nat, 2));
    }
}

/// Appends `n` in decimal, zero-padded to at least four characters.
pub fn push_padded4(s: &mut String, n: u32)
    ensures
        final(s)@ == old(s)@ + padded_dec(n as nat, 4),
{
    proof {
        lemma_dec_seq_len(n as nat);
        reveal_strlit("000");
        reveal_strlit("00");
        reveal_strlit("0");
    }
    if n < 10 {
        s.append("000");
    } else if n < 100 {
        s.append("00");
    } else if n < 1000 {
        s.append("0");
    }
    push_dec(s, n);
    proof {
        assert(s@ =~= old(s)@ + padded_dec(n as nat, 4));
    }
}

/// True when the two strings hold the same characters.
pub fn str_eq(a: &str, b: &str) -> (r: bool)
    ensures
        r == (a@ == b@),
{
    let na: usize = a.unicode_len();
    let nb: usize = b.unicode_len();
    if na != nb {
        return false;
    }
    let mut i: usize = 0;
    while i < na
        invariant
            na == a@.len(),
            nb == b@.len(),
            na == nb,
            i <= na,
            forall|j: int| 0 <= j < i ==> a@[j] == b@[j],
        decreases na - i,
    {
        if a.get_char(i) != b.get_char(i) {
            return false;
        }
        i += 1;
    }
    proof {
        assert(a@ =~= b@);
    }
    true
}

/// True when `suffix` closes `s`.
pub fn ends_with_str(s: &str, suffix: &str) -> (r: bool)
    ensures
        r == (suffix@.len() <= s@.len() && s@.skip(s@.len() - suffix@.len()) == suffix@),
{
    let n: usize = s.unicode_len();
    let m: usize = suffix.unicode_len();
    if m > n {
        return false;
    }
    let mut j: usize = 0;
    while j < m
        invariant
            n == s@.len(),
            m == suffix@.len(),
            m <= n,
            j <= m,
            forall|k: int| 0 <= k < j ==> s@[n - m + k] == suffix@[k],
        decreases m - j,
    {
        if s.get_char(n - m + j) != suffix.get_char(j) {
            assert(s@.skip(s@.len() - suffix@.len())[j as int] != suffix@[j as int]);
            return false;
        }
        j += 1;
    }
    proof {
        assert(s@.skip(s@.len() - suffix@.len()) =~= suffix@);
    }
    true
}

/// The position of the last occurrence of `c` in `s`, or -1 when absent.
pub open spec fn last_index(s: Seq<char>, c: char) -> int
    decreases s.len(),
{
    if s.len() == 0 {
        -1
    } else if s[s.len() - 1] == c {
        s.len() - 1
    } else {
        last_index(s.drop_last(), c)
    }
}

pub proof fn lemma_last_index(s: Seq<char>, c: char)
    ensures
        -1 <= last_index(s, c) < s.len(),
        last_index(s, c) >= 0 ==> s[last_index(s, c)] == c,
        forall|j: int| last_index(s, c) < j < s.len() ==> s[j] != c,
        (exists|j: int| 0 <= j < s.len() && s[j] == c) ==> last_index(s, c) >= 0,
    decreases s.len(),
{
    if s.len() > 0 && s[s.len() - 1] != c {
        lemma_last_index(s.drop_last(), c);
        assert(forall|j: int| 0 <= j < s.len() - 1 ==> s[j] == s.drop_last()[j]);
    }
}

/// The last position of `c` in `s`, if any.
pub fn find_last_char(s: &str, c: char) -> (r: Option<usize>)
    ensures
        match r {
            Some(i) => i == last_index(s@, c),
            None => last_index(s@, c) == -1,
        },
{
    proof {
        lemma_last_index(s@, c);
    }
    let n: usize = s.unicode_len();
    let mut i: usize = n;
    while i > 0
        invariant
            n == s@.len(),
            i <= n,
            forall|j: int| i <= j < n ==> s@[j] != c,
        decreases i,
    {
        i -= 1;
        if s.get_char(i) == c {
            proof {
                lemma_last_index(s@, c);
            }
            return Some(i);
        }
    }
    None
}

/// The part of `path` after its last separator; the whole of it when no
/// separator occurs.
pub open spec fn file_name_of(path: Seq<char>) -> Seq<char> {
    path.skip(last_index(path, '/') + 1)
}

/// The extension of a bare file name: the part after the last dot, provided
/// that dot is neither the leading character nor absent.
pub open spec fn extension_of(name: Seq<char>) -> Option<Seq<char>> {
    let j = last_index(name, '.');
    if j >= 1 {
        Some(name.skip(j + 1))
    } else {
        None
    }
}

/// The extension of the file named by `path`.
pub open spec fn path_extension(path: Seq<char>) -> Option<Seq<char>> {
    extension_of(file_name_of(path))
}

/// Copies the file-name component of `path` out as an owned string.
pub fn file_name_str(path: &str) -> (r: String)
    ensures
        r@ == file_name_of(path@),
{
    proof {
        lemma_last_index(path@, '/');
    }
    let n: usize = path.unicode_len();
    let start: usize = match find_last_char(path, '/') {
        Some(i) => i + 1,
        None => 0,
    };
    String::from_str(path.substring_char(start, n))
}

/// Copies the extension of the file name `name` out as an owned string.
pub fn extension_str(name: &str) -> (r: Option<String>)
    ensures
        match r {
            Some(e) => extension_of(name@) == Some(e@),
            None => extension_of(name@) is None,
        },
{
    proof {
        lemma_last_index(name@, '.');
    }
    let n: usize = name.unicode_len();
    match find_last_char(name, '.') {
        Some(j) if j >= 1 => Some(String::from_str(name.substring_char(j + 1, n))),
        _ => None,
    }
}

} // verus!
