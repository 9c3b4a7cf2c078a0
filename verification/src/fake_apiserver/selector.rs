//! Query parameters and field selectors.
use vstd::prelude::*;

use crate::json;
use crate::json::{Json, JsonModel};
use crate::numbers;
use crate::text;

verus! {

// ---------------------------------------------------------------------------
// Percent-decoding
// ---------------------------------------------------------------------------
/// The value of a hexadecimal digit.
pub open spec fn hex_digit(c: char) -> Option<nat> {
    if '0' <= c <= '9' {
        Some((c as nat - '0' as nat) as nat)
    } else if 'a' <= c <= 'f' {
        Some((c as nat - 'a' as nat + 10) as nat)
    } else if 'A' <= c <= 'F' {
        Some((c as nat - 'A' as nat + 10) as nat)
    } else {
        None
    }
}

/// The byte that at most two characters stand for: one or two hexadecimal
/// digits, or one digit after a `+`.
pub open spec fn hex_byte(h: Seq<char>) -> Option<nat> {
    let d = numbers::without_plus(h);
    if d.len() == 1 {
        hex_digit(d[0])
    } else if d.len() == 2 && hex_digit(d[0]) is Some && hex_digit(d[1]) is Some {
        Some(16 * hex_digit(d[0])->0 + hex_digit(d[1])->0)
    } else {
        None
    }
}

/// The two characters after the first, or as many as there are.
pub open spec fn escape_digits(s: Seq<char>) -> Seq<char> {
    s.subrange(
        1,
        if s.len() < 3 {
            s.len() as int
        } else {
            3
        },
    )
}

/// What an escape becomes: the character with the number of its byte, or itself
/// where its digits name no byte.
pub open spec fn unescaped(digits: Seq<char>) -> Seq<char> {
    match hex_byte(digits) {
        Some(byte) => seq![byte as char],
        None => seq!['%'] + digits,
    }
}

/// `s` with `+` read as a space and each `%` with its digits as one character.
pub open spec fn percent_decoded(s: Seq<char>) -> Seq<char>
    decreases s.len(),
{
    if s.len() == 0 {
        Seq::empty()
    } else if s[0] == '%' {
        let digits = escape_digits(s);
        unescaped(digits) + percent_decoded(s.skip(1 + digits.len() as int))
    } else {
        seq![
            if s[0] == '+' {
                ' '
            } else {
                s[0]
            },
        ] + percent_decoded(s.skip(1))
    }
}

fn hex_digit_of(c: char) -> (r: Option<u8>)
    ensures
        match r {
            Some(d) => hex_digit(c) == Some(d as nat) && d < 16,
            None => hex_digit(c) is None,
        },
{
    let n: u32 = c as u32;
    if '0' <= c && c <= '9' {
        Some((n - 48) as u8)
    } else if 'a' <= c && c <= 'f' {
        Some((n - 87) as u8)
    } else if 'A' <= c && c <= 'F' {
        Some((n - 55) as u8)
    } else {
        None
    }
}

fn hex_byte_between(v: &[char], start: usize, end: usize) -> (r: Option<u8>)
    requires
        start <= end <= v@.len(),
        end - start <= 2,
    ensures
        match r {
            Some(b) => hex_byte(v@.subrange(start as int, end as int)) == Some(b as nat),
            None => hex_byte(v@.subrange(start as int, end as int)) is None,
        },
{
    let ghost h = v@.subrange(start as int, end as int);
    let first: usize = if start < end && v[start] == '+' {
        start + 1
    } else {
        start
    };
    let ghost d = numbers::without_plus(h);
    assert(d =~= v@.subrange(first as int, end as int));
    if end == first {
        None
    } else if end == first + 1 {
        hex_digit_of(v[first])
    } else {
        match (hex_digit_of(v[first]), hex_digit_of(v[first + 1])) {
            (Some(high), Some(low)) => Some(16 * high + low),
            _ => None,
        }
    }
}

/// Decodes the value of a query parameter.
pub fn urlencoding_decode(s: &str) -> (r: String)
    ensures
        r@ == percent_decoded(s@),
{
    let v = text::chars_of(s);
    let mut out = String::new();
    let mut i: usize = 0;
    assert(v@.skip(0) =~= v@);
    assert(out@ + percent_decoded(v@) =~= percent_decoded(v@));
    while i < v.len()
        invariant
            i <= v@.len(),
            v@ == s@,
            out@ + percent_decoded(v@.skip(i as int)) == percent_decoded(s@),
        decreases v@.len() - i,
    {
        let ghost before = out@;
        let ghost rest = v@.skip(i as int);
        let c: char = v[i];
        if c == '%' {
            let end: usize = if v.len() - i < 3 {
                v.len()
            } else {
                i + 3
            };
            assert(escape_digits(rest) =~= v@.subrange(i + 1, end as int));
            match hex_byte_between(&v, i + 1, end) {
                Some(byte) => {
                    out.push(byte as char);
                    assert(out@ =~= before + unescaped(escape_digits(rest)));
                },
                None => {
                    out.push('%');
                    let digits = text::string_between(&v, i + 1, end);
                    out.append(&digits);
                    assert(out@ =~= before + unescaped(escape_digits(rest)));
                },
            }
            assert(rest.skip(1 + escape_digits(rest).len() as int) =~= v@.skip(end as int));
            assert(out@ + percent_decoded(v@.skip(end as int)) =~= before + percent_decoded(rest));
            i = end;
        } else {
            out.push(
                if c == '+' {
                    ' '
                } else {
                    c
                },
            );
            assert(rest.skip(1) =~= v@.skip(i + 1));
            assert(out@ + percent_decoded(v@.skip(i + 1)) =~= before + percent_decoded(rest));
            i = i + 1;
        }
    }
    assert(out@ =~= out@ + percent_decoded(v@.skip(i as int)));
    out
}

/// Text without `%` and `+` is its own decoding.
pub proof fn plain_text_decodes_to_itself(s: Seq<char>)
    requires
        forall|i: int| 0 <= i < s.len() ==> #[trigger] s[i] != '%' && s[i] != '+',
    ensures
        percent_decoded(s) == s,
    decreases s.len(),
{
    if s.len() > 0 {
        assert forall|i: int| 0 <= i < s.skip(1).len() implies #[trigger] s.skip(1)[i] != '%'
            && s.skip(1)[i] != '+' by {
            assert(s.skip(1)[i] == s[i + 1]);
        }
        plain_text_decodes_to_itself(s.skip(1));
        assert(s =~= seq![s[0]] + s.skip(1));
    } else {
        assert(s =~= Seq::<char>::empty());
    }
}

// ---------------------------------------------------------------------------
// Query parameters
// ---------------------------------------------------------------------------
/// The value of the parameter `name` in the pair `pair`, where it is that pair.
pub open spec fn pair_value(pair: Seq<char>, name: Seq<char>) -> Option<Seq<char>> {
    match text::split_once_at(pair, '=') {
        Some((key, value)) => if key == name {
            Some(percent_decoded(value))
        } else {
            None
        },
        None => None,
    }
}

/// The value of the first of the pairs, from number `i` on, that is `name`.
pub open spec fn value_from(pairs: Seq<Seq<char>>, name: Seq<char>, i: int) -> Option<Seq<char>>
    decreases pairs.len() - i,
{
    if i < 0 || i >= pairs.len() {
        None
    } else if pair_value(pairs[i], name) is Some {
        pair_value(pairs[i], name)
    } else {
        value_from(pairs, name, i + 1)
    }
}

/// The decoded value of the parameter `name` in a query.
pub open spec fn parameter(query: Seq<char>, name: Seq<char>) -> Option<Seq<char>> {
    value_from(text::split_on(query, '&'), name, 0)
}

/// The decoded value of the first parameter `name` in a query.
pub fn query_param(query: &str, name: &str) -> (r: Option<String>)
    ensures
        r.deep_view() == parameter(query@, name@),
{
    let pairs = text::split(&text::chars_of(query), '&');
    let mut i: usize = 0;
    while i < pairs.len()
        invariant
            i <= pairs@.len(),
            pairs.deep_view() == text::split_on(query@, '&'),
            value_from(pairs.deep_view(), name@, i as int) == parameter(query@, name@),
        decreases pairs@.len() - i,
    {
        assert(pairs.deep_view()[i as int] == pairs@[i as int]@);
        match text::split_once(&pairs[i], '=') {
            Some((key, value)) => {
                if text::text_eq(&key, name) {
                    return Some(urlencoding_decode(&value));
                }
            },
            None => {},
        }
        i = i + 1;
    }
    None
}

// ---------------------------------------------------------------------------
// Field selectors
// ---------------------------------------------------------------------------
/// The text at a path of member names that dots separate.
pub open spec fn text_at(value: JsonModel, path: Seq<char>) -> Option<Seq<char>> {
    match value.at(text::split_on(path, '.'), 0) {
        Some(found) => found.as_text(),
        None => None,
    }
}

/// Whether a value meets one clause, `path=text`. What has no `=` holds of
/// every value.
pub open spec fn clause_holds(value: JsonModel, clause: Seq<char>) -> bool {
    match text::split_once_at(clause, '=') {
        Some((path, expected)) => text_at(value, path) == Some(expected),
        None => true,
    }
}

/// Whether a value meets every clause of a selector, which commas separate.
pub open spec fn selects(value: JsonModel, selector: Seq<char>) -> bool {
    forall|i: int|
        0 <= i < text::split_on(selector, ',').len() ==> clause_holds(
            value,
            #[trigger] text::split_on(selector, ',')[i],
        )
}

/// The text at a path of member names that dots separate.
pub fn json_path_str(value: &Json, path: &str) -> (r: Option<String>)
    ensures
        r.deep_view() == text_at(value.model(), path@),
{
    let segments = text::split(&text::chars_of(path), '.');
    let mut found = value;
    let mut i: usize = 0;
    while i < segments.len()
        invariant
            i <= segments@.len(),
            segments.deep_view() == text::split_on(path@, '.'),
            found.model().at(segments.deep_view(), i as int) == value.model().at(
                segments.deep_view(),
                0,
            ),
        decreases segments@.len() - i,
    {
        assert(segments.deep_view()[i as int] == segments@[i as int]@);
        match found.get(&segments[i]) {
            Some(inner) => {
                found = inner;
            },
            None => {
                return None;
            },
        }
        i = i + 1;
    }
    match found.as_str() {
        Some(s) => Some(s.to_owned()),
        None => None,
    }
}

/// Whether a value meets a field selector.
pub fn matches_field_selector(value: &Json, selector: &str) -> (r: bool)
    ensures
        r == selects(value.model(), selector@),
{
    let clauses = text::split(&text::chars_of(selector), ',');
    let mut i: usize = 0;
    while i < clauses.len()
        invariant
            i <= clauses@.len(),
            clauses.deep_view() == text::split_on(selector@, ','),
            forall|j: int|
                0 <= j < i ==> clause_holds(
                    value.model(),
                    #[trigger] text::split_on(selector@, ',')[j],
                ),
        decreases clauses@.len() - i,
    {
        assert(clauses.deep_view()[i as int] == clauses@[i as int]@);
        match text::split_once(&clauses[i], '=') {
            Some((path, expected)) => {
                let holds: bool = match json_path_str(value, &path) {
                    Some(found) => text::text_eq(&found, &expected),
                    None => false,
                };
                if !holds {
                    assert(!clause_holds(value.model(), text::split_on(selector@, ',')[i as int]));
                    return false;
                }
            },
            None => {},
        }
        i = i + 1;
    }
    true
}

} // verus!
