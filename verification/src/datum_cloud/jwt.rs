//! Reading when a bearer token expires.
use vstd::prelude::*;
use vstd::utf8::*;

use crate::text;

verus! {

/// Why the expiry of a token cannot be read.
#[derive(Debug, Clone, PartialEq, Eq)]
pub enum JwtParseError {
    InvalidToken(String),
    InvalidBase64(String),
    InvalidUtf8(String),
    Json(String),
}

/// The model of a [`JwtParseError`].
pub enum JwtParseErrorModel {
    InvalidToken(Seq<char>),
    InvalidBase64(Seq<char>),
    InvalidUtf8(Seq<char>),
    Json(Seq<char>),
}

impl DeepView for JwtParseError {
    type V = JwtParseErrorModel;

    open spec fn deep_view(&self) -> JwtParseErrorModel {
        match self {
            JwtParseError::InvalidToken(e) => JwtParseErrorModel::InvalidToken(e@),
            JwtParseError::InvalidBase64(e) => JwtParseErrorModel::InvalidBase64(e@),
            JwtParseError::InvalidUtf8(e) => JwtParseErrorModel::InvalidUtf8(e@),
            JwtParseError::Json(e) => JwtParseErrorModel::Json(e@),
        }
    }
}

impl JwtParseErrorModel {
    /// The message of this error.
    pub open spec fn text(self) -> Seq<char> {
        match self {
            JwtParseErrorModel::InvalidToken(e) => "invalid JWT format: "@ + e,
            JwtParseErrorModel::InvalidBase64(e) => "invalid base64url encoding: "@ + e,
            JwtParseErrorModel::InvalidUtf8(e) => "invalid UTF-8 in JWT payload: "@ + e,
            JwtParseErrorModel::Json(e) => "failed to parse JWT payload as JSON: "@ + e,
        }
    }
}

impl JwtParseError {
    /// The message of this error.
    pub fn message(&self) -> (r: String)
        ensures
            r@ == self.deep_view().text(),
    {
        match self {
            JwtParseError::InvalidToken(e) => text::concat2("invalid JWT format: ", e),
            JwtParseError::InvalidBase64(e) => text::concat2("invalid base64url encoding: ", e),
            JwtParseError::InvalidUtf8(e) => text::concat2("invalid UTF-8 in JWT payload: ", e),
            JwtParseError::Json(e) => text::concat2("failed to parse JWT payload as JSON: ", e),
        }
    }
}

// ---------------------------------------------------------------------------
// What other crates compute
// ---------------------------------------------------------------------------
/// The bytes that a text encodes in standard padded base64, or the message of
/// the decoder that refuses it.
pub uninterp spec fn base64_decoded(input: Seq<char>) -> Result<Seq<u8>, Seq<char>>;

/// `base64::engine::general_purpose::STANDARD.decode`. What is claimed: the
/// bytes, or the text of the error, depend on the input alone.
#[verifier::external_body]
fn decode_base64(input: &str) -> (r: Result<Vec<u8>, String>)
    ensures
        match r {
            Ok(bytes) => base64_decoded(input@) == Ok::<Seq<u8>, Seq<char>>(bytes@),
            Err(e) => base64_decoded(input@) == Err::<Seq<u8>, Seq<char>>(e@),
        },
{
    base64::Engine::decode(&base64::engine::general_purpose::STANDARD, input).map_err(
        |e| e.to_string(),
    )
}

/// The message of the standard library for bytes that are not UTF-8.
pub uninterp spec fn utf8_error(bytes: Seq<u8>) -> Seq<char>;

/// `String::from_utf8`. What is claimed: it succeeds exactly on UTF-8, with the
/// text that the bytes encode; the text of the error depends on the bytes
/// alone.
#[verifier::external_body]
fn text_from_utf8(bytes: Vec<u8>) -> (r: Result<String, String>)
    ensures
        match r {
            Ok(s) => valid_utf8(bytes@) && s@ == decode_utf8(bytes@),
            Err(e) => !valid_utf8(bytes@) && e@ == utf8_error(bytes@),
        },
{
    String::from_utf8(bytes).map_err(|e| e.to_string())
}

/// The member `key` of the JSON object that `input` is, where it is a whole
/// number that is not negative and fits; or the message of the parser that
/// refuses the text.
pub uninterp spec fn json_u64_member(input: Seq<char>, key: Seq<char>) -> Result<
    Option<u64>,
    Seq<char>,
>;

/// `serde_json::from_str` into a `serde_json::Value`, read through `get` and
/// `as_u64`. What is claimed: the number, or the text of the error, depends on
/// the input and the key alone.
#[verifier::external_body]
fn read_json_u64_member(input: &str, key: &str) -> (r: Result<Option<u64>, String>)
    ensures
        match r {
            Ok(n) => json_u64_member(input@, key@) == Ok::<Option<u64>, Seq<char>>(n),
            Err(e) => json_u64_member(input@, key@) == Err::<Option<u64>, Seq<char>>(e@),
        },
{
    match serde_json::from_str::<serde_json::Value>(input) {
        Ok(value) => Ok(value.get(key).and_then(|v| v.as_u64())),
        Err(e) => Err(e.to_string()),
    }
}

// ---------------------------------------------------------------------------
// The payload of a token
// ---------------------------------------------------------------------------
/// The payload of a token: what stands after its first dot, up to the next.
pub open spec fn payload_of(token: Seq<char>) -> Option<Seq<char>> {
    let first = text::first_where(token, text::exactly('.')) as int;
    if first >= token.len() {
        None
    } else {
        let rest = token.skip(first + 1);
        Some(rest.take(text::first_where(rest, text::exactly('.')) as int))
    }
}

/// The payload of a token.
pub fn jwt_payload(token: &str) -> (r: Option<String>)
    ensures
        r.deep_view() == payload_of(token@),
{
    let v = text::chars_of(token);
    let first: usize = text::find_char(&v, '.');
    if first >= v.len() {
        return None;
    }
    let rest = text::chars_of(&text::string_between(&v, first + 1, v.len()));
    assert(rest@ =~= token@.skip(first + 1));
    let end: usize = text::find_char(&rest, '.');
    let r = text::string_between(&rest, 0, end);
    assert(r@ =~= rest@.take(end as int));
    Some(r)
}

/// The character of standard base64 for one of the URL-safe alphabet.
pub open spec fn standard_char(c: char) -> char {
    if c == '-' {
        '+'
    } else if c == '_' {
        '/'
    } else {
        c
    }
}

/// The number of padding characters for an encoded length.
pub open spec fn padding(len: nat) -> nat {
    ((4 - len % 4) % 4) as nat
}

/// URL-safe base64 without padding as standard base64 with padding.
pub open spec fn standard_base64(payload: Seq<char>) -> Seq<char> {
    let s = Seq::new(payload.len(), |i: int| standard_char(payload[i]));
    s + Seq::new(padding(text::utf8_len(s)), |i: int| '=')
}

fn to_standard_char(c: char) -> (r: char)
    ensures
        r == standard_char(c),
{
    if c == '-' {
        '+'
    } else if c == '_' {
        '/'
    } else {
        c
    }
}

/// URL-safe base64 without padding as standard base64 with padding.
pub fn to_standard_base64(payload: &str) -> (r: String)
    ensures
        r@ == standard_base64(payload@),
{
    let v = text::chars_of(payload);
    let ghost s = Seq::new(payload@.len(), |i: int| standard_char(payload@[i]));
    let mut out = String::new();
    let mut i: usize = 0;
    while i < v.len()
        invariant
            i <= v@.len(),
            v@ == payload@,
            s == Seq::new(payload@.len(), |i: int| standard_char(payload@[i])),
            out@ == s.take(i as int),
        decreases v@.len() - i,
    {
        out.push(to_standard_char(v[i]));
        i = i + 1;
        assert(out@ =~= s.take(i as int));
    }
    assert(out@ =~= s);
    let len: usize = text::byte_len(&out);
    let pad: usize = (4 - len % 4) % 4;
    let mut k: usize = 0;
    while k < pad
        invariant
            k <= pad,
            out@ == s + Seq::new(k as nat, |i: int| '='),
        decreases pad - k,
    {
        out.push('=');
        k = k + 1;
        assert(out@ =~= s + Seq::new(k as nat, |i: int| '='));
    }
    out
}

proof fn lemma_padded_len(s: Seq<char>, k: nat)
    ensures
        text::utf8_len(s + Seq::new(k, |i: int| '=')) == text::utf8_len(s) + k,
    decreases k,
{
    let padded = s + Seq::new(k, |i: int| '=');
    if k == 0 {
        assert(padded =~= s);
    } else {
        lemma_padded_len(s, (k - 1) as nat);
        let shorter = s + Seq::new((k - 1) as nat, |i: int| '=');
        assert(padded =~= shorter.push('='));
        text::lemma_utf8_len_push(shorter, '=');
    }
}

/// What is decoded has a length that base64 allows, a multiple of four bytes, and
/// less than four characters of padding.
pub proof fn standard_base64_is_padded(payload: Seq<char>)
    ensures
        text::utf8_len(standard_base64(payload)) % 4 == 0,
        standard_base64(payload).len() < payload.len() + 4,
{
    let s = Seq::new(payload.len(), |i: int| standard_char(payload[i]));
    lemma_padded_len(s, padding(text::utf8_len(s)));
}

// ---------------------------------------------------------------------------
// The expiry
// ---------------------------------------------------------------------------
/// The claim that holds the expiry.
pub const EXPIRY_CLAIM: &'static str = "exp";

/// The expiry that the decoded payload of a token states.
pub open spec fn expiry_in(decoded: Result<Seq<u8>, Seq<char>>) -> Result<
    Option<u64>,
    JwtParseErrorModel,
> {
    match decoded {
        Err(e) => Err(JwtParseErrorModel::InvalidBase64(e)),
        Ok(bytes) => if !valid_utf8(bytes) {
            Err(JwtParseErrorModel::InvalidUtf8(utf8_error(bytes)))
        } else {
            match json_u64_member(decode_utf8(bytes), EXPIRY_CLAIM@) {
                Ok(exp) => Ok(exp),
                Err(e) => Err(JwtParseErrorModel::Json(e)),
            }
        },
    }
}

/// When a token expires, in seconds since the epoch; `None` where it does not
/// say.
pub open spec fn expiry_of(token: Seq<char>) -> Result<Option<u64>, JwtParseErrorModel> {
    match payload_of(token) {
        None => Err(
            JwtParseErrorModel::InvalidToken(
                "JWT must have at least 2 segments (header.payload[.signature])"@,
            ),
        ),
        Some(payload) => expiry_in(base64_decoded(standard_base64(payload))),
    }
}

/// The model of a result that holds an expiry.
pub open spec fn expiry_result(r: Result<Option<u64>, JwtParseError>) -> Result<
    Option<u64>,
    JwtParseErrorModel,
> {
    match r {
        Ok(exp) => Ok(exp),
        Err(e) => Err(e.deep_view()),
    }
}

/// The model of a decoder's result.
pub open spec fn decoded_result(r: Result<Vec<u8>, String>) -> Result<Seq<u8>, Seq<char>> {
    match r {
        Ok(bytes) => Ok(bytes@),
        Err(e) => Err(e@),
    }
}

/// The expiry that the decoded payload of a token states.
pub fn expiry_in_payload(decoded: Result<Vec<u8>, String>) -> (r: Result<Option<u64>, JwtParseError>)
    ensures
        expiry_result(r) == expiry_in(decoded_result(decoded)),
{
    match decoded {
        Err(e) => Err(JwtParseError::InvalidBase64(e)),
        Ok(bytes) => match text_from_utf8(bytes) {
            Err(e) => Err(JwtParseError::InvalidUtf8(e)),
            Ok(payload) => match read_json_u64_member(&payload, EXPIRY_CLAIM) {
                Ok(exp) => Ok(exp),
                Err(e) => Err(JwtParseError::Json(e)),
            },
        },
    }
}

/// Reads when a token expires.
pub fn parse_jwt_expiry(token: &str) -> (r: Result<Option<u64>, JwtParseError>)
    ensures
        expiry_result(r) == expiry_of(token@),
{
    match jwt_payload(token) {
        None => Err(
            JwtParseError::InvalidToken(
                "JWT must have at least 2 segments (header.payload[.signature])".to_owned(),
            ),
        ),
        Some(payload) => expiry_in_payload(decode_base64(&to_standard_base64(&payload))),
    }
}

/// The header and the signature of a token do not matter for its expiry.
pub proof fn expiry_depends_on_payload_only(
    header: Seq<char>,
    other_header: Seq<char>,
    payload: Seq<char>,
    signature: Seq<char>,
)
    requires
        !header.contains('.'),
        !other_header.contains('.'),
        !payload.contains('.'),
    ensures
        expiry_of(header + "."@ + payload) == expiry_of(
            other_header + "."@ + payload + "."@ + signature,
        ),
{
    reveal_strlit(".");
    lemma_payload_between(header, payload, Seq::empty());
    lemma_payload_between(other_header, payload, "."@ + signature);
    assert(header + "."@ + payload + Seq::<char>::empty() =~= header + "."@ + payload);
    assert(other_header + "."@ + payload + ("."@ + signature) =~= other_header + "."@ + payload
        + "."@ + signature);
}

proof fn lemma_payload_between(header: Seq<char>, payload: Seq<char>, tail: Seq<char>)
    requires
        !header.contains('.'),
        !payload.contains('.'),
        tail.len() > 0 ==> tail[0] == '.',
    ensures
        payload_of(header + "."@ + payload + tail) == Some(payload),
{
    reveal_strlit(".");
    let token = header + "."@ + payload + tail;
    let dot = text::exactly('.');
    assert forall|j: int| 0 <= j < header.len() implies !dot(#[trigger] token[j]) by {
        assert(token[j] == header[j]);
    }
    text::lemma_first_where_is(token, dot, header.len() as int);
    let rest = token.skip(header.len() as int + 1);
    assert(rest =~= payload + tail);
    assert forall|j: int| 0 <= j < payload.len() implies !dot(#[trigger] rest[j]) by {
        assert(rest[j] == payload[j]);
    }
    text::lemma_first_where_is(rest, dot, payload.len() as int);
    assert(rest.take(payload.len() as int) =~= payload);
}

} // verus!
