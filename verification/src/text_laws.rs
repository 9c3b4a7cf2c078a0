//! Laws of texts and numbers: how texts are cut, put together and ordered, and how
//! numbers are written.
use vstd::prelude::*;

use crate::numbers;
use crate::text;

verus! {

// ---------------------------------------------------------------------------
// Characters
// ---------------------------------------------------------------------------
/// The white space, the control characters and the digits, one by one.
pub proof fn classes_hold_their_characters(c: char)
    ensures
        text::is_whitespace(c) <==> {
            ||| c == '\t' || c == '\n' || c == '\u{b}' || c == '\u{c}' || c == '\r' || c == ' '
            ||| c == '\u{85}' || c == '\u{a0}' || c == '\u{1680}'
            ||| '\u{2000}' <= c <= '\u{200a}'
            ||| c == '\u{2028}' || c == '\u{2029}' || c == '\u{202f}' || c == '\u{205f}'
            ||| c == '\u{3000}'
        },
        text::is_control(c) <==> c <= '\u{1f}' || '\u{7f}' <= c <= '\u{9f}',
        text::is_digit(c) <==> '0' <= c <= '9',
{
}

/// The letters `a` to `z` and `A` to `Z` are each other's other case; every other
/// character is its own.
pub proof fn letters_change_their_case(s: Seq<char>, i: int)
    requires
        0 <= i < s.len(),
    ensures
        text::ascii_upper(s).len() == s.len(),
        text::ascii_lower(s).len() == s.len(),
        'a' <= s[i] <= 'z' ==> text::ascii_upper(s)[i] as u32 + 32 == s[i] as u32,
        !('a' <= s[i] <= 'z') ==> text::ascii_upper(s)[i] == s[i],
        'A' <= s[i] <= 'Z' ==> text::ascii_lower(s)[i] as u32 == s[i] as u32 + 32,
        !('A' <= s[i] <= 'Z') ==> text::ascii_lower(s)[i] == s[i],
{
}

// ---------------------------------------------------------------------------
// Trimming
// ---------------------------------------------------------------------------
/// Whether a text is nothing but white space.
pub open spec fn is_blank(s: Seq<char>) -> bool {
    forall|i: int| 0 <= i < s.len() ==> text::is_whitespace(#[trigger] s[i])
}

proof fn lemma_trim_start_of(blank: Seq<char>, s: Seq<char>)
    requires
        is_blank(blank),
    ensures
        text::trim_start(blank + s) == text::trim_start(s),
    decreases blank.len(),
{
    if blank.len() == 0 {
        assert(blank + s =~= s);
    } else {
        let rest = blank.drop_first();
        assert forall|i: int| 0 <= i < rest.len() implies text::is_whitespace(
            #[trigger] rest[i],
        ) by {
            assert(rest[i] == blank[i + 1]);
        }
        assert((blank + s)[0] == blank[0]);
        assert((blank + s).drop_first() =~= rest + s);
        lemma_trim_start_of(rest, s);
    }
}

proof fn lemma_trim_end_of(s: Seq<char>, blank: Seq<char>)
    requires
        is_blank(blank),
    ensures
        text::trim_end(s + blank) == text::trim_end(s),
    decreases blank.len(),
{
    if blank.len() == 0 {
        assert(s + blank =~= s);
    } else {
        let rest = blank.drop_last();
        assert forall|i: int| 0 <= i < rest.len() implies text::is_whitespace(
            #[trigger] rest[i],
        ) by {
            assert(rest[i] == blank[i]);
        }
        assert((s + blank).last() == blank[blank.len() - 1]);
        assert((s + blank).drop_last() =~= s + rest);
        lemma_trim_end_of(s, rest);
    }
}

/// Trimming takes away the white space at both ends and nothing else.
pub proof fn trimming_takes_the_blanks_around(before: Seq<char>, s: Seq<char>, after: Seq<char>)
    requires
        is_blank(before),
        is_blank(after),
        s.len() > 0 ==> !text::is_whitespace(s[0]) && !text::is_whitespace(s[s.len() - 1]),
    ensures
        text::trimmed(before + s + after) == s,
{
    assert(before + s + after =~= before + (s + after));
    lemma_trim_start_of(before, s + after);
    if s.len() > 0 {
        assert((s + after)[0] == s[0]);
        assert(text::trim_start(s + after) == s + after);
        lemma_trim_end_of(s, after);
        assert(text::trim_end(s) == s);
    } else {
        assert(s + after =~= after + s);
        lemma_trim_start_of(after, s);
        assert(text::trim_start(s) =~= s);
        assert(text::trim_end(s) =~= s);
    }
}

// ---------------------------------------------------------------------------
// Splitting and joining
// ---------------------------------------------------------------------------
proof fn lemma_no_separator(s: Seq<char>, sep: char, n: int)
    requires
        0 <= n <= s.len(),
        !s.take(n).contains(sep),
        n < s.len() ==> s[n] == sep,
    ensures
        text::first_where(s, text::exactly(sep)) == n,
{
    assert forall|j: int| 0 <= j < n implies !text::exactly(sep)(#[trigger] s[j]) by {
        assert(s.take(n)[j] == s[j]);
        assert(s.take(n).contains(s.take(n)[j]));
    }
    text::lemma_first_where_is(s, text::exactly(sep), n);
}

/// Splitting cuts at every separator: what has none is one part, and what stands
/// before the first is the first part.
pub proof fn splitting_cuts_at_every_separator(part: Seq<char>, rest: Seq<char>, sep: char)
    requires
        !part.contains(sep),
    ensures
        text::split_on(part, sep) == seq![part],
        text::split_on(part + seq![sep] + rest, sep) == seq![part] + text::split_on(rest, sep),
        text::split_once_at(part, sep) is None,
        text::split_once_at(part + seq![sep] + rest, sep) == Some((part, rest)),
{
    let n = part.len() as int;
    assert(part.take(n) =~= part);
    lemma_no_separator(part, sep, n);
    let s = part + seq![sep] + rest;
    assert(s.take(n) =~= part);
    lemma_no_separator(s, sep, n);
    assert(s.skip(n + 1) =~= rest);
}

/// Parts are put together with the separator between each two.
pub proof fn joining_puts_the_separator_between(
    parts: Seq<Seq<char>>,
    last: Seq<char>,
    sep: Seq<char>,
)
    ensures
        text::joined(Seq::empty(), sep).len() == 0,
        text::joined(seq![last], sep) == last,
        parts.len() > 0 ==> text::joined(parts.push(last), sep) == text::joined(parts, sep) + sep
            + last,
{
    assert(parts.push(last).drop_last() =~= parts);
}

proof fn lemma_white_at(s: Seq<char>, n: int)
    requires
        0 <= n <= s.len(),
        forall|i: int| 0 <= i < n ==> !text::is_whitespace(#[trigger] s[i]),
        n < s.len() ==> text::is_whitespace(s[n]),
    ensures
        text::first_where(s, text::white()) == n,
{
    assert forall|j: int| 0 <= j < n implies !text::white()(#[trigger] s[j]) by {}
    text::lemma_first_where_is(s, text::white(), n);
}

/// A word by itself is one word, and white space is none.
pub proof fn word_is_one_word(word: Seq<char>, blank: Seq<char>)
    requires
        word.len() > 0,
        forall|i: int| 0 <= i < word.len() ==> !text::is_whitespace(#[trigger] word[i]),
        is_blank(blank),
    ensures
        text::words(word) == seq![word],
        text::words(blank) == Seq::<Seq<char>>::empty(),
{
    lemma_white_at(word, word.len() as int);
    assert(text::trim_start(word) == word);
    assert(word.take(word.len() as int) =~= word);
    let none = word.skip(word.len() as int);
    assert(none =~= Seq::<char>::empty());
    assert(text::words(none) =~= Seq::<Seq<char>>::empty());
    assert(text::words(word) =~= seq![word]);
    assert(blank + Seq::<char>::empty() =~= blank);
    lemma_trim_start_of(blank, Seq::empty());
}

proof fn lemma_trim_start_splits(s: Seq<char>) -> (n: int)
    ensures
        0 <= n <= s.len(),
        is_blank(s.take(n)),
        text::trim_start(s) == s.skip(n),
        n < s.len() ==> !text::is_whitespace(s[n]),
    decreases s.len(),
{
    if s.len() > 0 && text::is_whitespace(s[0]) {
        let m = lemma_trim_start_splits(s.drop_first());
        assert forall|i: int| 0 <= i < m + 1 implies text::is_whitespace(
            #[trigger] s.take(m + 1)[i],
        ) by {
            if i > 0 {
                assert(s.take(m + 1)[i] == s.drop_first().take(m)[i - 1]);
            }
        }
        assert(s.drop_first().skip(m) =~= s.skip(m + 1));
        m + 1
    } else {
        assert(s.skip(0) =~= s);
        0
    }
}

/// White space keeps words apart: the words before it, and then those behind it.
pub proof fn words_are_kept_apart(a: Seq<char>, gap: char, b: Seq<char>)
    requires
        text::is_whitespace(gap),
    ensures
        text::words(a + seq![gap] + b) == text::words(a) + text::words(b),
    decreases a.len(),
{
    let s = a + seq![gap] + b;
    let k = lemma_trim_start_splits(a);
    let t = a.skip(k);
    let one = seq![gap];
    assert(is_blank(one));
    if t.len() == 0 {
        assert(a.take(k) =~= a);
        let blank = a + one;
        assert forall|i: int| 0 <= i < blank.len() implies text::is_whitespace(
            #[trigger] blank[i],
        ) by {
            if i < a.len() {
                assert(blank[i] == a[i]);
            }
        }
        lemma_trim_start_of(blank, b);
        assert(text::words(a) =~= Seq::<Seq<char>>::empty());
        assert(text::words(s) == text::words(b));
        assert(text::words(a) + text::words(b) =~= text::words(b));
    } else {
        let all = t + one + b;
        assert(s =~= a.take(k) + all);
        lemma_trim_start_of(a.take(k), all);
        assert(all[0] == t[0]);
        assert(text::trim_start(all) == all);
        text::lemma_first_where(t, text::white());
        let n = text::first_where(t, text::white()) as int;
        assert forall|i: int| 0 <= i < n implies !text::is_whitespace(#[trigger] all[i]) by {
            assert(all[i] == t[i]);
            assert(!text::white()(t[i]));
        }
        assert(n < t.len() ==> text::white()(t[n]));
        lemma_white_at(all, n);
        assert(n > 0) by {
            assert(!text::is_whitespace(t[0]));
        }
        assert(all.take(n) =~= t.take(n));
        let rest = t.skip(n);
        assert(all.skip(n) =~= rest + one + b);
        words_are_kept_apart(rest, gap, b);
        assert(text::words(s) == seq![t.take(n)] + (text::words(rest) + text::words(b)));
        assert(text::words(a) == seq![t.take(n)] + text::words(rest));
        assert(text::words(s) =~= text::words(a) + text::words(b));
    }
}

/// A part is in a text where something stands before it and something behind it.
pub proof fn part_stands_within_the_text(s: Seq<char>, before: Seq<char>, part: Seq<char>, after: Seq<char>)
    ensures
        s == before + part + after ==> text::has_part(s, part),
        text::has_part(s, part) ==> exists|i: int|
            0 <= i && i + part.len() <= s.len() && part == #[trigger] s.subrange(
                i,
                i + part.len(),
            ),
{
    if s == before + part + after {
        let i = before.len() as int;
        assert(s.subrange(i, i + part.len()) =~= part);
        assert(text::occurs_at(s, part, i));
    }
    if text::has_part(s, part) {
        let i = choose|i: int| text::occurs_at(s, part, i);
        assert(text::occurs_at(s, part, i));
        assert(part == s.subrange(i, i + part.len()));
    }
}

// ---------------------------------------------------------------------------
// Order
// ---------------------------------------------------------------------------
/// The first difference decides the order; without one, the shorter comes first.
pub proof fn first_difference_decides(
    same: Seq<char>,
    a: char,
    rest_a: Seq<char>,
    b: char,
    rest_b: Seq<char>,
)
    requires
        a != b,
    ensures
        text::text_before(same + seq![a] + rest_a, same + seq![b] + rest_b) <==> a < b,
        text::text_before(same, same + seq![b] + rest_b),
        !text::text_before(same + seq![b] + rest_b, same),
    decreases same.len(),
{
    let x = same + seq![a] + rest_a;
    let y = same + seq![b] + rest_b;
    if same.len() > 0 {
        let rest = same.drop_first();
        first_difference_decides(rest, a, rest_a, b, rest_b);
        assert(x.drop_first() =~= rest + seq![a] + rest_a);
        assert(y.drop_first() =~= rest + seq![b] + rest_b);
        assert(x[0] == same[0] && y[0] == same[0]);
    }
}

// ---------------------------------------------------------------------------
// Numbers
// ---------------------------------------------------------------------------
/// A number is written with its last digit behind the number without it; the digits
/// are the characters from `0` on.
pub proof fn numbers_are_written_in_digits(n: nat)
    ensures
        n < 10 ==> numbers::decimal(n).len() == 1,
        numbers::decimal(n)[numbers::decimal(n).len() - 1] as u32 == '0' as u32 + n % 10,
        n >= 10 ==> numbers::decimal(n).take(numbers::decimal(n).len() - 1) == numbers::decimal(
            n / 10,
        ),
{
    numbers::lemma_decimal_len(n);
    if n >= 10 {
        assert(numbers::decimal(n).take(numbers::decimal(n).len() - 1) =~= numbers::decimal(
            n / 10,
        ));
    }
}

/// A number that was written is read back where it is not too large, with or
/// without a plus before it.
pub proof fn numbers_are_read_back(n: nat, max: nat)
    ensures
        numbers::read_number(numbers::decimal(n), max) == if n <= max {
            Some(n)
        } else {
            None
        },
        numbers::read_number(seq!['+'] + numbers::decimal(n), max) == if n <= max {
            Some(n)
        } else {
            None
        },
{
    numbers::lemma_decimal_len(n);
    numbers::lemma_decimal_round_trip(n);
    let d = numbers::decimal(n);
    assert(text::is_digit(d[0]));
    assert((seq!['+'] + d).drop_first() =~= d);
}

/// What holds anything but digits, or nothing, is no number.
pub proof fn other_texts_are_no_numbers(s: Seq<char>, i: int, max: nat)
    requires
        s.len() == 0 || (0 <= i < s.len() && !('0' <= s[i] <= '9') && (i > 0 || s[i] != '+')),
    ensures
        numbers::read_number(s, max) is None,
{
    if s.len() > 0 {
        let d = numbers::without_plus(s);
        if s[0] == '+' {
            assert(d[i - 1] == s[i]);
        } else {
            assert(d[i] == s[i]);
        }
    }
}

/// A number is padded with zeros up to five characters, and a longer one is not.
pub proof fn short_numbers_are_padded(n: nat, i: int)
    ensures
        numbers::decimal(n).len() >= 5 ==> numbers::decimal_padded5(n) == numbers::decimal(n),
        numbers::decimal(n).len() < 5 ==> numbers::decimal_padded5(n).len() == 5,
        ({
            let k = numbers::decimal_padded5(n).len() - numbers::decimal(n).len();
            &&& numbers::decimal_padded5(n).skip(k) == numbers::decimal(n)
            &&& 0 <= i < k ==> numbers::decimal_padded5(n)[i] == '0'
        }),
{
    let k = 5 - numbers::decimal(n).len();
    lemma_zeros(k);
    let padded = numbers::decimal_padded5(n);
    assert(padded.skip(padded.len() - numbers::decimal(n).len()) =~= numbers::decimal(n));
    if k <= 0 {
        assert(padded =~= numbers::decimal(n));
    }
}

proof fn lemma_zeros(k: int)
    ensures
        numbers::zeros(k).len() == if k > 0 {
            k
        } else {
            0
        },
        forall|i: int| 0 <= i < numbers::zeros(k).len() ==> #[trigger] numbers::zeros(k)[i] == '0',
    decreases k,
{
    if k > 0 {
        lemma_zeros(k - 1);
    }
}

} // verus!
