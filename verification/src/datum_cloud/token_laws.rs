//! Laws of tokens: what the helper's output means, when a token expires and when it
//! is refreshed, and where it is used.
use vstd::prelude::*;
use vstd::utf8::*;

use crate::datum_cloud::helper;
use crate::datum_cloud::helper::{
    ExternalTokenErrorModel, HelperOutcome, HelperOutput,
};
use crate::datum_cloud::jwt;
use crate::datum_cloud::jwt::JwtParseErrorModel;
use crate::datum_cloud::refresh;
use crate::datum_cloud::refresh::TokenModel;
use crate::datum_cloud::session;
use crate::numbers;
use crate::text;

verus! {

// ---------------------------------------------------------------------------
// The helper
// ---------------------------------------------------------------------------
/// The token is what a successful helper wrote, without the white space around it;
/// an empty one is refused, and so is output of more than 64 KiB.
pub proof fn helper_output_is_the_token(output: HelperOutput, timeout_millis: u64)
    requires
        output.success,
    ensures
        ({
            let token = text::trimmed(helper::lossy_text(output.stdout@));
            helper::helper_token(HelperOutcome::Completed(output), timeout_millis) == if output.stdout@.len()
                > 65536 {
                Err::<Seq<char>, ExternalTokenErrorModel>(
                    ExternalTokenErrorModel::HelperOutputTooLarge,
                )
            } else if token.len() == 0 {
                Err(ExternalTokenErrorModel::HelperExecError("empty token returned"@))
            } else {
                Ok(token)
            }
        }),
{
}

/// A helper that did not succeed gives no token, whatever it wrote: the error says
/// how it ended, and shows at most 4 KiB of its standard error.
pub proof fn failed_helper_gives_no_token(
    output: HelperOutput,
    message: String,
    timeout_millis: u64,
)
    requires
        !output.success,
    ensures
        output.stderr@.len() <= 4096 ==> helper::helper_token(
            HelperOutcome::Completed(output),
            timeout_millis,
        ) == Err::<Seq<char>, ExternalTokenErrorModel>(
            ExternalTokenErrorModel::HelperExecError(
                "exit code "@ + output.status@ + ": "@ + helper::shown_text(
                    helper::lossy_text(output.stderr@),
                    false,
                ),
            ),
        ),
        output.stderr@.len() > 4096 ==> helper::helper_token(
            HelperOutcome::Completed(output),
            timeout_millis,
        ) == Err::<Seq<char>, ExternalTokenErrorModel>(
            ExternalTokenErrorModel::HelperExecError(
                "exit code "@ + output.status@ + ": "@ + helper::shown_text(
                    helper::lossy_text(output.stderr@.take(4096)),
                    true,
                ),
            ),
        ),
        helper::helper_token(HelperOutcome::Cancelled, timeout_millis) == Err::<
            Seq<char>,
            ExternalTokenErrorModel,
        >(ExternalTokenErrorModel::HelperCancelled),
        helper::helper_token(HelperOutcome::TimedOut, timeout_millis) == Err::<
            Seq<char>,
            ExternalTokenErrorModel,
        >(ExternalTokenErrorModel::HelperTimedOut(timeout_millis)),
        helper::helper_token(HelperOutcome::Broken(message), timeout_millis) == Err::<
            Seq<char>,
            ExternalTokenErrorModel,
        >(ExternalTokenErrorModel::HelperExecError("process I/O failed: "@ + message@)),
        helper::HELPER_TIMEOUT_MILLIS == 15000,
{
}

/// What stands in a text besides control characters and white space.
pub open spec fn solid(s: Seq<char>) -> Seq<char>
    decreases s.len(),
{
    if s.len() == 0 {
        s
    } else if text::is_control(s.last()) || text::is_whitespace(s.last()) {
        solid(s.drop_last())
    } else {
        solid(s.drop_last()).push(s.last())
    }
}

proof fn lemma_squeezed_is_solid(s: Seq<char>)
    ensures
        solid(helper::squeezed(s)) == solid(s),
    decreases s.len(),
{
    if s.len() > 0 {
        let before = helper::squeezed(s.drop_last());
        lemma_squeezed_is_solid(s.drop_last());
        assert(text::is_whitespace(' '));
        if !helper::is_gap(s.last()) {
            assert(before.push(s.last()).drop_last() =~= before);
        } else if before.len() == 0 || before.last() == ' ' {
        } else {
            assert(before.push(' ').drop_last() =~= before);
        }
    }
}

/// Putting a text on one line drops nothing but control characters and white space.
pub proof fn one_line_keeps_what_is_said(s: Seq<char>)
    ensures
        solid(helper::one_line(s)) == solid(s),
{
    lemma_squeezed_is_solid(s);
    assert(text::is_whitespace(' '));
}

proof fn lemma_squeezed_gaps(s: Seq<char>, gaps: Seq<char>)
    requires
        helper::squeezed(s).len() > 0,
        helper::squeezed(s).last() != ' ',
        gaps.len() > 0,
        forall|i: int| 0 <= i < gaps.len() ==> helper::is_gap(#[trigger] gaps[i]),
    ensures
        helper::squeezed(s + gaps) == helper::squeezed(s).push(' '),
    decreases gaps.len(),
{
    let all = s + gaps;
    let shorter = gaps.drop_last();
    assert(all.drop_last() =~= s + shorter);
    assert(all.last() == gaps[gaps.len() - 1]);
    if shorter.len() == 0 {
        assert(s + shorter =~= s);
    } else {
        assert forall|i: int| 0 <= i < shorter.len() implies helper::is_gap(
            #[trigger] shorter[i],
        ) by {
            assert(shorter[i] == gaps[i]);
        }
        lemma_squeezed_gaps(s, shorter);
    }
}

/// Whatever stands between two words becomes one space.
pub proof fn words_stay_apart_by_one_space(s: Seq<char>, gaps: Seq<char>, c: char)
    requires
        helper::squeezed(s).len() > 0,
        helper::squeezed(s).last() != ' ',
        gaps.len() > 0,
        forall|i: int|
            0 <= i < gaps.len() ==> text::is_control(#[trigger] gaps[i]) || text::is_whitespace(
                gaps[i],
            ),
        !text::is_control(c),
        !text::is_whitespace(c),
    ensures
        helper::one_line(s + gaps + seq![c]) == helper::squeezed(s) + seq![' ', c],
{
    let all = s + gaps + seq![c];
    lemma_squeezed_gaps(s, gaps);
    assert(all.drop_last() =~= s + gaps);
    assert(all.last() == c);
    assert(text::is_whitespace(' '));
    assert(helper::squeezed(all) =~= helper::squeezed(s) + seq![' ', c]);
}

/// What is shown of a text says whether it was cut, and that there was none.
pub proof fn cut_text_is_marked(shown: Seq<char>)
    ensures
        helper::shown_text(shown, true) == helper::one_line(shown) + " [truncated]"@,
        helper::one_line(shown).len() > 0 ==> helper::shown_text(shown, false) == helper::one_line(
            shown,
        ),
        helper::one_line(shown).len() == 0 ==> helper::shown_text(shown, false)
            == "no stderr output"@,
{
}

/// The messages of the errors say what went wrong and why.
pub proof fn token_errors_say_why(e: Seq<char>, millis: u64)
    ensures
        ExternalTokenErrorModel::HelperExecError(e).text() == "credentials helper exec failed: "@
            + e,
        ExternalTokenErrorModel::HelperTimedOut(millis).text()
            == "credentials helper timed out after "@ + helper::duration_text(millis as nat),
        ExternalTokenErrorModel::HelperOutputTooLarge.text()
            == "credentials helper returned more than "@ + numbers::decimal(65536) + " bytes"@,
        ExternalTokenErrorModel::InvalidToken(e).text() == "invalid JWT token: "@ + e,
        ExternalTokenErrorModel::JwtParse(e).text() == "failed to parse JWT payload: "@ + e,
        ExternalTokenErrorModel::RefreshTaskFailed(e).text() == "token refresh task failed: "@ + e,
        ExternalTokenErrorModel::RefreshRuntimeUnavailable(e).text()
            == "token refresh requires a Tokio runtime: "@ + e,
        ExternalTokenErrorModel::MissingHelper.text()
            == "DATUM_CREDENTIALS_HELPER environment variable not set"@,
        ExternalTokenErrorModel::MissingSession.text()
            == "DATUM_SESSION not set and no session argument provided"@,
        ExternalTokenErrorModel::HelperCancelled.text()
            == "credentials helper execution was cancelled"@,
        ExternalTokenErrorModel::RefreshAlreadyStarted.text()
            == "token refresh task is already started"@,
        ExternalTokenErrorModel::RefreshShutdownInProgress.text()
            == "token refresh task is already shutting down"@,
        ExternalTokenErrorModel::RefreshStatePoisoned.text()
            == "token refresh task state lock is poisoned"@,
        ExternalTokenErrorModel::RefreshTaskHandleUnavailable.text()
            == "token refresh task handle is unavailable"@,
        JwtParseErrorModel::InvalidToken(e).text() == "invalid JWT format: "@ + e,
        JwtParseErrorModel::InvalidBase64(e).text() == "invalid base64url encoding: "@ + e,
        JwtParseErrorModel::InvalidUtf8(e).text() == "invalid UTF-8 in JWT payload: "@ + e,
        JwtParseErrorModel::Json(e).text() == "failed to parse JWT payload as JSON: "@ + e,
{
}

/// A duration of whole seconds is shown in seconds, and one below a second in
/// milliseconds; the digits behind the point are those of the milliseconds.
pub proof fn durations_are_shown_in_seconds(secs: nat, millis: nat)
    ensures
        secs > 0 ==> helper::duration_text(secs * 1000) == numbers::decimal(secs) + "s"@,
        0 < millis < 1000 ==> helper::duration_text(millis) == numbers::decimal(millis) + "ms"@,
        secs > 0 && 100 <= millis < 1000 && millis % 10 != 0 ==> helper::duration_text(
            secs * 1000 + millis,
        ) == numbers::decimal(secs) + "."@ + numbers::zeros(3 - numbers::decimal(millis).len())
            + numbers::decimal(millis) + "s"@,
{
    assert((secs * 1000) / 1000 == secs && (secs * 1000) % 1000 == 0);
    if secs > 0 && millis < 1000 {
        assert((secs * 1000 + millis) / 1000 == secs && (secs * 1000 + millis) % 1000 == millis);
        assert(millis % 10 != 0 ==> millis % 100 != 0);
    }
}

// ---------------------------------------------------------------------------
// The expiry
// ---------------------------------------------------------------------------
/// The payload is what stands between the first dot and the next, or the end.
pub proof fn payload_stands_between_the_dots(
    header: Seq<char>,
    payload: Seq<char>,
    signature: Seq<char>,
)
    requires
        !header.contains('.'),
        !payload.contains('.'),
    ensures
        jwt::payload_of(header) is None,
        jwt::payload_of(header + seq!['.'] + payload) == Some(payload),
        jwt::payload_of(header + seq!['.'] + payload + seq!['.'] + signature) == Some(payload),
{
    let dot = text::exactly('.');
    assert forall|j: int| 0 <= j < header.len() implies !dot(#[trigger] header[j]) by {
        assert(header.contains(header[j]));
    }
    text::lemma_first_where_is(header, dot, header.len() as int);
    lemma_payload(header, payload, Seq::empty());
    lemma_payload(header, payload, seq!['.'] + signature);
    assert(header + seq!['.'] + payload + Seq::<char>::empty() =~= header + seq!['.'] + payload);
    assert(header + seq!['.'] + payload + (seq!['.'] + signature) =~= header + seq!['.'] + payload
        + seq!['.'] + signature);
}

proof fn lemma_payload(header: Seq<char>, payload: Seq<char>, tail: Seq<char>)
    requires
        !header.contains('.'),
        !payload.contains('.'),
        tail.len() > 0 ==> tail[0] == '.',
    ensures
        jwt::payload_of(header + seq!['.'] + payload + tail) == Some(payload),
{
    let token = header + seq!['.'] + payload + tail;
    let dot = text::exactly('.');
    assert forall|j: int| 0 <= j < header.len() implies !dot(#[trigger] token[j]) by {
        assert(token[j] == header[j]);
        assert(header.contains(header[j]));
    }
    text::lemma_first_where_is(token, dot, header.len() as int);
    let rest = token.skip(header.len() as int + 1);
    assert(rest =~= payload + tail);
    assert forall|j: int| 0 <= j < payload.len() implies !dot(#[trigger] rest[j]) by {
        assert(rest[j] == payload[j]);
        assert(payload.contains(payload[j]));
    }
    text::lemma_first_where_is(rest, dot, payload.len() as int);
    assert(rest.take(payload.len() as int) =~= payload);
}

/// The expiry is the claim `exp` of the JSON that the payload encodes; what stands in
/// the way of reading it is the error.
pub proof fn expiry_is_the_claim_of_the_payload(
    token: Seq<char>,
    payload: Seq<char>,
    bytes: Seq<u8>,
    e: Seq<char>,
)
    requires
        jwt::payload_of(token) == Some(payload),
    ensures
        jwt::base64_decoded(jwt::standard_base64(payload)) == Err::<Seq<u8>, Seq<char>>(e)
            ==> jwt::expiry_of(token) == Err::<Option<u64>, JwtParseErrorModel>(
            JwtParseErrorModel::InvalidBase64(e),
        ),
        jwt::base64_decoded(jwt::standard_base64(payload)) == Ok::<Seq<u8>, Seq<char>>(bytes)
            && !valid_utf8(bytes) ==> jwt::expiry_of(token) == Err::<
            Option<u64>,
            JwtParseErrorModel,
        >(JwtParseErrorModel::InvalidUtf8(jwt::utf8_error(bytes))),
        jwt::base64_decoded(jwt::standard_base64(payload)) == Ok::<Seq<u8>, Seq<char>>(bytes)
            && valid_utf8(bytes) ==> match jwt::json_u64_member(decode_utf8(bytes), "exp"@) {
            Ok(exp) => jwt::expiry_of(token) == Ok::<Option<u64>, JwtParseErrorModel>(exp),
            Err(e) => jwt::expiry_of(token) == Err::<Option<u64>, JwtParseErrorModel>(
                JwtParseErrorModel::Json(e),
            ),
        },
{
}

/// A token without a dot is none.
pub proof fn token_needs_a_payload(token: Seq<char>)
    requires
        !token.contains('.'),
    ensures
        jwt::expiry_of(token) == Err::<Option<u64>, JwtParseErrorModel>(
            JwtParseErrorModel::InvalidToken(
                "JWT must have at least 2 segments (header.payload[.signature])"@,
            ),
        ),
{
    payload_stands_between_the_dots(token, Seq::empty(), Seq::empty());
}

/// The characters of the URL-safe alphabet become those of the standard one, all
/// others stay, and padding follows.
pub proof fn url_safe_characters_are_replaced(payload: Seq<char>, i: int)
    requires
        0 <= i < payload.len(),
    ensures
        ({
            let c = jwt::standard_base64(payload)[i];
            &&& payload[i] == '-' <==> c == '+' && payload[i] != '+'
            &&& payload[i] == '_' <==> c == '/' && payload[i] != '/'
            &&& payload[i] != '-' && payload[i] != '_' ==> c == payload[i]
        }),
        forall|k: int|
            payload.len() <= k < jwt::standard_base64(payload).len() ==> #[trigger] jwt::standard_base64(
                payload,
            )[k] == '=',
        text::utf8_len(jwt::standard_base64(payload)) % 4 == 0,
        jwt::standard_base64(payload).len() < payload.len() + 4,
{
    jwt::standard_base64_is_padded(payload);
}

// ---------------------------------------------------------------------------
// The schedule
// ---------------------------------------------------------------------------
/// A token is refreshed a minute before its expiry, or an hour from now where it
/// states none.
pub proof fn token_is_refreshed_a_minute_early(expiry: u64, now: int)
    ensures
        expiry >= 60 ==> refresh::refresh_time(Some(expiry), now) == (expiry - 60)
            * 1_000_000_000,
        expiry < 60 ==> refresh::refresh_time(Some(expiry), now) == 0,
        refresh::refresh_time(None, now) == now + 3600 * 1_000_000_000,
{
    assert(0 * 1_000_000_000 == 0);
}

/// The first retry waits five seconds, each further one twice as long, up to a
/// minute.
pub proof fn retries_wait_ever_longer(failures: nat)
    ensures
        refresh::backoff_after(0) == 5,
        refresh::backoff_after(1) == 10,
        refresh::backoff_after(2) == 20,
        refresh::backoff_after(3) == 40,
        failures >= 4 ==> refresh::backoff_after(failures) == 60,
        refresh::MIN_BACKOFF_SECS == 5,
        refresh::MAX_BACKOFF_SECS == 60,
        refresh::doubled(5) == 10,
        forall|b: u64| 5 <= b <= 60 ==> #[trigger] refresh::doubled(b) == if 2 * b < 60 {
            2 * b
        } else {
            60
        },
{
    refresh::backoff_grows_to_its_maximum(failures);
    reveal_with_fuel(refresh::backoff_after, 6);
}

/// A swap replaces the token and counts it; asking for a refresh counts the wish and
/// leaves the token.
pub proof fn swaps_and_wishes_are_counted(source: TokenModel, token: Seq<char>)
    ensures
        TokenModel::fresh(token) == (TokenModel { token, revision: 0, trigger: 0 }),
        source.swapped(token).token == token,
        source.revision < u64::MAX ==> source.swapped(token).revision == source.revision + 1,
        source.revision == u64::MAX ==> source.swapped(token).revision == u64::MAX,
        source.swapped(token).trigger == source.trigger,
        source.asked().token == source.token,
        source.asked().revision == source.revision,
        source.trigger < u64::MAX ==> source.asked().trigger == source.trigger + 1,
        source.trigger == u64::MAX ==> source.asked().trigger == 0,
{
}

// ---------------------------------------------------------------------------
// Where it is used
// ---------------------------------------------------------------------------
/// The control plane of a project stands below the API that was given, under the
/// project's name.
pub proof fn control_plane_is_that_of_the_project(
    api_url: Seq<char>,
    project_id: Seq<char>,
    other: Seq<char>,
)
    ensures
        session::control_plane_url(api_url, project_id) == api_url
            + "/apis/resourcemanager.miloapis.com/v1alpha1/projects/"@ + project_id
            + "/control-plane"@,
        project_id.len() == other.len() && project_id != other ==> session::control_plane_url(
            api_url,
            project_id,
        ) != session::control_plane_url(api_url, other),
{
    let middle = "/apis/resourcemanager.miloapis.com/v1alpha1/projects/"@;
    let a = session::control_plane_url(api_url, project_id);
    let b = session::control_plane_url(api_url, other);
    if project_id.len() == other.len() && a == b {
        let n = (api_url.len() + middle.len()) as int;
        assert(a.subrange(n, n + project_id.len()) =~= project_id);
        assert(b.subrange(n, n + other.len()) =~= other);
    }
}

} // verus!
