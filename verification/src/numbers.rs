//! Unsigned numbers in decimal: how the library prints and reads them.
use vstd::prelude::*;

use crate::text;

verus! {

/// The digit character of `d`.
pub open spec fn digit_char(d: nat) -> char {
    ((48 + d) as u32) as char
}

/// `n` in decimal, without leading zeros.
pub open spec fn decimal(n: nat) -> Seq<char>
    decreases n,
{
    if n < 10 {
        seq![digit_char(n)]
    } else {
        decimal(n / 10).push(digit_char(n % 10))
    }
}

/// The number that a text of digits stands for.
pub open spec fn decimal_value(s: Seq<char>) -> nat
    decreases s.len(),
{
    if s.len() == 0 {
        0
    } else {
        10 * decimal_value(s.drop_last()) + (s.last() as u32 - 48) as nat
    }
}

pub open spec fn all_digits(s: Seq<char>) -> bool {
    forall|i: int| 0 <= i < s.len() ==> text::is_digit(#[trigger] s[i])
}

/// The digits of a number as it may be written: one leading `+` is allowed.
pub open spec fn without_plus(s: Seq<char>) -> Seq<char> {
    if s.len() > 0 && s[0] == '+' {
        s.drop_first()
    } else {
        s
    }
}

/// What reading `s` as a number of at most `max` gives: digits, after an
/// optional `+`, whose value does not exceed `max`.
pub open spec fn read_number(s: Seq<char>, max: nat) -> Option<nat> {
    let d = without_plus(s);
    if d.len() > 0 && all_digits(d) && decimal_value(d) <= max {
        Some(decimal_value(d))
    } else {
        None
    }
}

fn digit_of(d: u64) -> (c: char)
    requires
        d < 10,
    ensures
        c == digit_char(d as nat),
{
    if d == 0 {
        '0'
    } else if d == 1 {
        '1'
    } else if d == 2 {
        '2'
    } else if d == 3 {
        '3'
    } else if d == 4 {
        '4'
    } else if d == 5 {
        '5'
    } else if d == 6 {
        '6'
    } else if d == 7 {
        '7'
    } else if d == 8 {
        '8'
    } else {
        '9'
    }
}

/// `n` in decimal.
pub fn decimal_text(n: u64) -> (r: String)
    ensures
        r@ == decimal(n as nat),
    decreases n,
{
    if n < 10 {
        let mut out = String::new();
        out.push(digit_of(n));
        assert(out@ =~= seq![digit_char(n as nat)]);
        out
    } else {
        let mut out = decimal_text(n / 10);
        out.push(digit_of(n % 10));
        out
    }
}

pub proof fn lemma_decimal_len(n: nat)
    ensures
        decimal(n).len() >= 1,
        all_digits(decimal(n)),
    decreases n,
{
    if n >= 10 {
        lemma_decimal_len(n / 10);
        let p = decimal(n / 10);
        assert forall|i: int| 0 <= i < decimal(n).len() implies text::is_digit(#[trigger] decimal(n)[i]) by {
            if i < p.len() {
                assert(decimal(n)[i] == p[i]);
            }
        }
    }
}

/// Printing a number and reading it back gives the number.
pub proof fn lemma_decimal_round_trip(n: nat)
    ensures
        decimal_value(decimal(n)) == n,
        read_number(decimal(n), n) == Some(n),
    decreases n,
{
    lemma_decimal_len(n);
    if n < 10 {
        let s = seq![digit_char(n)];
        assert(s.drop_last() =~= Seq::<char>::empty());
        assert(decimal_value(s.drop_last()) == 0);
    } else {
        lemma_decimal_round_trip(n / 10);
        assert(decimal(n).drop_last() =~= decimal(n / 10));
    }
    assert(text::is_digit(decimal(n)[0]));
}

/// `n` in decimal, with zeros in front up to five characters.
pub open spec fn decimal_padded5(n: nat) -> Seq<char> {
    zeros(5 - decimal(n).len()) + decimal(n)
}

pub open spec fn zeros(k: int) -> Seq<char>
    decreases k,
{
    if k <= 0 {
        Seq::empty()
    } else {
        zeros(k - 1).push('0')
    }
}

proof fn lemma_leading_zeros(k: int, d: Seq<char>)
    ensures
        decimal_value(zeros(k) + d) == decimal_value(d),
    decreases d.len(), k,
{
    let s = zeros(k) + d;
    if d.len() > 0 {
        lemma_leading_zeros(k, d.drop_last());
        assert(s.drop_last() =~= zeros(k) + d.drop_last());
    } else if k > 0 {
        lemma_leading_zeros(k - 1, d);
        assert(s.drop_last() =~= zeros(k - 1) + d);
        assert(s.last() == '0');
    } else {
        assert(s =~= d);
    }
}

/// Different numbers are written differently.
pub proof fn lemma_padded5_differs(m: nat, n: nat)
    requires
        m != n,
    ensures
        decimal_padded5(m) != decimal_padded5(n),
{
    lemma_leading_zeros(5 - decimal(m).len(), decimal(m));
    lemma_leading_zeros(5 - decimal(n).len(), decimal(n));
    lemma_decimal_round_trip(m);
    lemma_decimal_round_trip(n);
}

/// The zeros that bring `digits` to a width of `width` characters.
pub fn zeros_text(digits: &str, width: usize) -> (r: String)
    ensures
        r@ == zeros(width - digits@.len()),
{
    let len: usize = digits.unicode_len();
    let mut out = String::new();
    let mut k: usize = 0;
    if len < width {
        while k < width - len
            invariant
                k <= width - len,
                len <= width,
                out@ == zeros(k as int),
            decreases width - len - k,
        {
            out.push('0');
            k = k + 1;
        }
    }
    out
}

/// `n` in decimal, at least five characters wide.
pub fn decimal_text_padded5(n: u64) -> (r: String)
    ensures
        r@ == decimal_padded5(n as nat),
{
    let digits = decimal_text(n);
    let mut out = zeros_text(&digits, 5);
    out.append(&digits);
    out
}

/// Reads a number of at most `max`.
fn read_up_to(s: &str, max: u64) -> (r: Option<u64>)
    requires
        max <= 0xffff_ffff,
    ensures
        match r {
            Some(n) => read_number(s@, max as nat) == Some(n as nat),
            None => read_number(s@, max as nat) is None,
        },
{
    let v = text::chars_of(s);
    let start: usize = if v.len() > 0 && v[0] == '+' {
        1
    } else {
        0
    };
    let ghost d = without_plus(s@);
    assert(d =~= v@.skip(start as int));
    if v.len() == start {
        return None;
    }
    let mut i: usize = start;
    let mut n: u64 = 0;
    let mut over: bool = false;
    assert(d.take(0) =~= Seq::<char>::empty());
    while i < v.len()
        invariant
            start <= i <= v@.len(),
            v@ == s@,
            d == without_plus(s@),
            d == v@.skip(start as int),
            forall|j: int| 0 <= j < i - start ==> text::is_digit(#[trigger] d[j]),
            !over ==> n == decimal_value(d.take(i - start)) && n <= max,
            over ==> decimal_value(d.take(i - start)) > max,
            max <= 0xffff_ffff,
        decreases v@.len() - i,
    {
        let c: char = v[i];
        assert(c == d[i - start]);
        if !('0' <= c && c <= '9') {
            assert(!text::is_digit(d[i - start]));
            return None;
        }
        let digit: u64 = (c as u32 - 48) as u64;
        assert(d.take(i - start + 1).drop_last() =~= d.take(i - start));
        assert(d.take(i - start + 1).last() == c);
        if !over {
            n = n * 10 + digit;
            if n > max {
                over = true;
            }
        }
        i = i + 1;
    }
    assert(d.take(d.len() as int) =~= d);
    if over {
        None
    } else {
        Some(n)
    }
}

/// Reads a port number: `str::parse::<u16>` without its error.
pub fn parse_u16(s: &str) -> (r: Option<u16>)
    ensures
        match r {
            Some(n) => read_number(s@, 0xffff) == Some(n as nat),
            None => read_number(s@, 0xffff) is None,
        },
{
    match read_up_to(s, 0xffff) {
        Some(n) => Some(n as u16),
        None => None,
    }
}

/// Reads a prefix length: `str::parse::<u8>` without its error.
pub fn parse_u8(s: &str) -> (r: Option<u8>)
    ensures
        match r {
            Some(n) => read_number(s@, 0xff) == Some(n as nat),
            None => read_number(s@, 0xff) is None,
        },
{
    match read_up_to(s, 0xff) {
        Some(n) => Some(n as u8),
        None => None,
    }
}

} // verus!
