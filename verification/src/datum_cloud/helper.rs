//! The credentials helper: what its output means.
use vstd::prelude::*;
use vstd::utf8::*;

use crate::datum_cloud::jwt;
use crate::numbers;
use crate::text;

verus! {

/// How long the helper may take, in milliseconds.
pub const HELPER_TIMEOUT_MILLIS: u64 = 15_000;

/// The most bytes of standard output that are taken.
pub const MAX_HELPER_STDOUT_BYTES: usize = 65_536;

/// The most bytes of standard error that are shown.
pub const MAX_HELPER_STDERR_BYTES: usize = 4_096;

/// Why no token could be obtained or kept fresh.
#[derive(Debug, Clone, PartialEq, Eq)]
pub enum ExternalTokenError {
    MissingHelper,
    MissingSession,
    HelperExecError(String),
    /// The helper took longer than this many milliseconds.
    HelperTimedOut(u64),
    HelperCancelled,
    HelperOutputTooLarge,
    RefreshAlreadyStarted,
    RefreshShutdownInProgress,
    RefreshRuntimeUnavailable(String),
    RefreshStatePoisoned,
    RefreshTaskHandleUnavailable,
    RefreshTaskFailed(String),
    InvalidToken(String),
    JwtParse(String),
}

/// The model of an [`ExternalTokenError`].
pub enum ExternalTokenErrorModel {
    MissingHelper,
    MissingSession,
    HelperExecError(Seq<char>),
    HelperTimedOut(u64),
    HelperCancelled,
    HelperOutputTooLarge,
    RefreshAlreadyStarted,
    RefreshShutdownInProgress,
    RefreshRuntimeUnavailable(Seq<char>),
    RefreshStatePoisoned,
    RefreshTaskHandleUnavailable,
    RefreshTaskFailed(Seq<char>),
    InvalidToken(Seq<char>),
    JwtParse(Seq<char>),
}

impl DeepView for ExternalTokenError {
    type V = ExternalTokenErrorModel;

    open spec fn deep_view(&self) -> ExternalTokenErrorModel {
        match self {
            ExternalTokenError::MissingHelper => ExternalTokenErrorModel::MissingHelper,
            ExternalTokenError::MissingSession => ExternalTokenErrorModel::MissingSession,
            ExternalTokenError::HelperExecError(e) => ExternalTokenErrorModel::HelperExecError(e@),
            ExternalTokenError::HelperTimedOut(millis) => ExternalTokenErrorModel::HelperTimedOut(
                *millis,
            ),
            ExternalTokenError::HelperCancelled => ExternalTokenErrorModel::HelperCancelled,
            ExternalTokenError::HelperOutputTooLarge => ExternalTokenErrorModel::HelperOutputTooLarge,
            ExternalTokenError::RefreshAlreadyStarted => ExternalTokenErrorModel::RefreshAlreadyStarted,
            ExternalTokenError::RefreshShutdownInProgress =>
                ExternalTokenErrorModel::RefreshShutdownInProgress,
            ExternalTokenError::RefreshRuntimeUnavailable(e) =>
                ExternalTokenErrorModel::RefreshRuntimeUnavailable(e@),
            ExternalTokenError::RefreshStatePoisoned => ExternalTokenErrorModel::RefreshStatePoisoned,
            ExternalTokenError::RefreshTaskHandleUnavailable =>
                ExternalTokenErrorModel::RefreshTaskHandleUnavailable,
            ExternalTokenError::RefreshTaskFailed(e) => ExternalTokenErrorModel::RefreshTaskFailed(
                e@,
            ),
            ExternalTokenError::InvalidToken(e) => ExternalTokenErrorModel::InvalidToken(e@),
            ExternalTokenError::JwtParse(e) => ExternalTokenErrorModel::JwtParse(e@),
        }
    }
}

/// A number of milliseconds as a duration is shown: in whole milliseconds below
/// a second, else in seconds with the digits that are needed.
pub open spec fn duration_text(millis: nat) -> Seq<char> {
    let secs = millis / 1000;
    let rest = millis % 1000;
    if millis == 0 {
        "0ns"@
    } else if millis < 1000 {
        numbers::decimal(millis) + "ms"@
    } else if rest == 0 {
        numbers::decimal(secs) + "s"@
    } else if rest % 100 == 0 {
        numbers::decimal(secs) + "."@ + numbers::decimal(rest / 100) + "s"@
    } else if rest % 10 == 0 {
        numbers::decimal(secs) + "."@ + numbers::zeros(2 - numbers::decimal(rest / 10).len())
            + numbers::decimal(rest / 10) + "s"@
    } else {
        numbers::decimal(secs) + "."@ + numbers::zeros(3 - numbers::decimal(rest).len())
            + numbers::decimal(rest) + "s"@
    }
}

/// A number of milliseconds as a duration is shown.
pub fn show_duration(millis: u64) -> (r: String)
    ensures
        r@ == duration_text(millis as nat),
{
    let secs: u64 = millis / 1000;
    let rest: u64 = millis % 1000;
    if millis == 0 {
        return "0ns".to_owned();
    }
    if millis < 1000 {
        return text::concat2(&numbers::decimal_text(millis), "ms");
    }
    let mut out = numbers::decimal_text(secs);
    if rest == 0 {
    } else if rest % 100 == 0 {
        out.append(".");
        out.append(&numbers::decimal_text(rest / 100));
    } else if rest % 10 == 0 {
        out.append(".");
        out.append(&numbers::zeros_text(&numbers::decimal_text(rest / 10), 2));
        out.append(&numbers::decimal_text(rest / 10));
    } else {
        out.append(".");
        out.append(&numbers::zeros_text(&numbers::decimal_text(rest), 3));
        out.append(&numbers::decimal_text(rest));
    }
    out.append("s");
    out
}

impl ExternalTokenErrorModel {
    /// The message of this error.
    pub open spec fn text(self) -> Seq<char> {
        match self {
            ExternalTokenErrorModel::MissingHelper =>
                "DATUM_CREDENTIALS_HELPER environment variable not set"@,
            ExternalTokenErrorModel::MissingSession =>
                "DATUM_SESSION not set and no session argument provided"@,
            ExternalTokenErrorModel::HelperExecError(e) => "credentials helper exec failed: "@ + e,
            ExternalTokenErrorModel::HelperTimedOut(millis) =>
                "credentials helper timed out after "@ + duration_text(millis as nat),
            ExternalTokenErrorModel::HelperCancelled =>
                "credentials helper execution was cancelled"@,
            ExternalTokenErrorModel::HelperOutputTooLarge => "credentials helper returned more than "@
                + numbers::decimal(MAX_HELPER_STDOUT_BYTES as nat) + " bytes"@,
            ExternalTokenErrorModel::RefreshAlreadyStarted =>
                "token refresh task is already started"@,
            ExternalTokenErrorModel::RefreshShutdownInProgress =>
                "token refresh task is already shutting down"@,
            ExternalTokenErrorModel::RefreshRuntimeUnavailable(e) =>
                "token refresh requires a Tokio runtime: "@ + e,
            ExternalTokenErrorModel::RefreshStatePoisoned =>
                "token refresh task state lock is poisoned"@,
            ExternalTokenErrorModel::RefreshTaskHandleUnavailable =>
                "token refresh task handle is unavailable"@,
            ExternalTokenErrorModel::RefreshTaskFailed(e) => "token refresh task failed: "@ + e,
            ExternalTokenErrorModel::InvalidToken(e) => "invalid JWT token: "@ + e,
            ExternalTokenErrorModel::JwtParse(e) => "failed to parse JWT payload: "@ + e,
        }
    }
}

impl ExternalTokenError {
    /// The message of this error.
    pub fn message(&self) -> (r: String)
        ensures
            r@ == self.deep_view().text(),
    {
        match self {
            ExternalTokenError::MissingHelper => {
                "DATUM_CREDENTIALS_HELPER environment variable not set".to_owned()
            },
            ExternalTokenError::MissingSession => {
                "DATUM_SESSION not set and no session argument provided".to_owned()
            },
            ExternalTokenError::HelperExecError(e) => text::concat2(
                "credentials helper exec failed: ",
                e,
            ),
            ExternalTokenError::HelperTimedOut(millis) => text::concat2(
                "credentials helper timed out after ",
                &show_duration(*millis),
            ),
            ExternalTokenError::HelperCancelled => {
                "credentials helper execution was cancelled".to_owned()
            },
            ExternalTokenError::HelperOutputTooLarge => text::concat3(
                "credentials helper returned more than ",
                &numbers::decimal_text(MAX_HELPER_STDOUT_BYTES as u64),
                " bytes",
            ),
            ExternalTokenError::RefreshAlreadyStarted => {
                "token refresh task is already started".to_owned()
            },
            ExternalTokenError::RefreshShutdownInProgress => {
                "token refresh task is already shutting down".to_owned()
            },
            ExternalTokenError::RefreshRuntimeUnavailable(e) => text::concat2(
                "token refresh requires a Tokio runtime: ",
                e,
            ),
            ExternalTokenError::RefreshStatePoisoned => {
                "token refresh task state lock is poisoned".to_owned()
            },
            ExternalTokenError::RefreshTaskHandleUnavailable => {
                "token refresh task handle is unavailable".to_owned()
            },
            ExternalTokenError::RefreshTaskFailed(e) => text::concat2(
                "token refresh task failed: ",
                e,
            ),
            ExternalTokenError::InvalidToken(e) => text::concat2("invalid JWT token: ", e),
            ExternalTokenError::JwtParse(e) => text::concat2("failed to parse JWT payload: ", e),
        }
    }
}

// ---------------------------------------------------------------------------
// The command
// ---------------------------------------------------------------------------
/// The helper and the session to run it with: the session that is given comes
/// before that of the environment.
pub fn helper_config(
    helper: Option<String>,
    session: Option<String>,
    session_variable: Option<String>,
) -> (r: Result<(String, String), ExternalTokenError>)
    ensures
        match (helper, session, session_variable) {
            (None, _, _) => r == Err::<(String, String), ExternalTokenError>(
                ExternalTokenError::MissingHelper,
            ),
            (Some(h), Some(s), _) => r == Ok::<(String, String), ExternalTokenError>((h, s)),
            (Some(h), None, Some(s)) => r == Ok::<(String, String), ExternalTokenError>((h, s)),
            (Some(_), None, None) => r == Err::<(String, String), ExternalTokenError>(
                ExternalTokenError::MissingSession,
            ),
        },
{
    match (helper, session, session_variable) {
        (None, _, _) => Err(ExternalTokenError::MissingHelper),
        (Some(h), Some(s), _) => Ok((h, s)),
        (Some(h), None, Some(s)) => Ok((h, s)),
        (Some(_), None, None) => Err(ExternalTokenError::MissingSession),
    }
}

/// The arguments of the helper for a session.
pub fn helper_arguments(session: &str) -> (r: Vec<String>)
    ensures
        r.deep_view() == seq!["auth"@, "get-token"@, "--session"@, session@],
{
    let mut args: Vec<String> = Vec::new();
    args.push("auth".to_owned());
    args.push("get-token".to_owned());
    args.push("--session".to_owned());
    args.push(session.to_owned());
    assert(args.deep_view() =~= seq!["auth"@, "get-token"@, "--session"@, session@]);
    args
}

// ---------------------------------------------------------------------------
// Its standard error
// ---------------------------------------------------------------------------
/// The text that bytes stand for, with a replacement character for what is not
/// UTF-8.
pub uninterp spec fn lossy_text(bytes: Seq<u8>) -> Seq<char>;

/// `String::from_utf8_lossy`. What is claimed: the text depends on the bytes
/// alone, and is what they encode where they are UTF-8.
#[verifier::external_body]
pub(crate) fn text_from_utf8_lossy(bytes: &[u8]) -> (r: String)
    ensures
        r@ == lossy_text(bytes@),
        valid_utf8(bytes@) ==> r@ == decode_utf8(bytes@),
{
    String::from_utf8_lossy(bytes).into_owned()
}

/// Whether a character is shown as a space: control characters and white space.
pub open spec fn is_gap(c: char) -> bool {
    text::is_control(c) || text::is_whitespace(c)
}

/// `s` with every run of gaps as one space, and none at the start.
pub open spec fn squeezed(s: Seq<char>) -> Seq<char>
    decreases s.len(),
{
    if s.len() == 0 {
        s
    } else {
        let before = squeezed(s.drop_last());
        if !is_gap(s.last()) {
            before.push(s.last())
        } else if before.len() == 0 || before.last() == ' ' {
            before
        } else {
            before.push(' ')
        }
    }
}

/// `s` on one line: every run of gaps between its words as one space.
pub open spec fn one_line(s: Seq<char>) -> Seq<char> {
    let q = squeezed(s);
    if q.len() > 0 && q.last() == ' ' {
        q.drop_last()
    } else {
        q
    }
}

/// The part of the standard error that is shown.
pub open spec fn shown_part(stderr: Seq<u8>) -> Seq<u8> {
    if stderr.len() > MAX_HELPER_STDERR_BYTES {
        stderr.take(MAX_HELPER_STDERR_BYTES as int)
    } else {
        stderr
    }
}

/// How a text from standard error is shown: on one line, marked where it was
/// cut, and never empty.
pub open spec fn shown_text(shown: Seq<char>, truncated: bool) -> Seq<char> {
    if truncated {
        one_line(shown) + " [truncated]"@
    } else if one_line(shown).len() == 0 {
        "no stderr output"@
    } else {
        one_line(shown)
    }
}

/// How the standard error of the helper is shown.
pub open spec fn sanitized(stderr: Seq<u8>) -> Seq<char> {
    shown_text(lossy_text(shown_part(stderr)), stderr.len() > MAX_HELPER_STDERR_BYTES)
}

/// How a text from standard error is shown.
pub fn show_stderr(shown: &str, truncated: bool) -> (r: String)
    ensures
        r@ == shown_text(shown@, truncated),
{
    let v = text::chars_of(shown);
    let mut out: Vec<char> = Vec::new();
    let mut i: usize = 0;
    assert(v@.take(0) =~= Seq::<char>::empty());
    while i < v.len()
        invariant
            i <= v@.len(),
            out@ == squeezed(v@.take(i as int)),
        decreases v@.len() - i,
    {
        let c: char = v[i];
        proof {
            assert(v@.take(i + 1).drop_last() =~= v@.take(i as int));
            assert(v@.take(i + 1).last() == c);
        }
        if !(text::char_is_control(c) || text::char_is_whitespace(c)) {
            out.push(c);
        } else if out.len() > 0 && out[out.len() - 1] != ' ' {
            out.push(' ');
        }
        i = i + 1;
    }
    assert(v@.take(v@.len() as int) =~= v@);
    let len: usize = out.len();
    let end: usize = if len > 0 && out[len - 1] == ' ' {
        len - 1
    } else {
        len
    };
    let mut line = text::string_between(&out, 0, end);
    assert(line@ =~= one_line(shown@));
    if truncated {
        line.append(" [truncated]");
        line
    } else if end == 0 {
        "no stderr output".to_owned()
    } else {
        line
    }
}

fn copy_bytes(bytes: &[u8], end: usize) -> (r: Vec<u8>)
    requires
        end <= bytes@.len(),
    ensures
        r@ == bytes@.take(end as int),
{
    let mut out: Vec<u8> = Vec::new();
    let mut i: usize = 0;
    while i < end
        invariant
            i <= end <= bytes@.len(),
            out@ == bytes@.take(i as int),
        decreases end - i,
    {
        out.push(bytes[i]);
        i = i + 1;
        assert(out@ =~= bytes@.take(i as int));
    }
    out
}

/// How the standard error of the helper is shown.
pub fn sanitize_stderr(stderr: &[u8]) -> (r: String)
    ensures
        r@ == sanitized(stderr@),
{
    let truncated: bool = stderr.len() > MAX_HELPER_STDERR_BYTES;
    let end: usize = if truncated {
        MAX_HELPER_STDERR_BYTES
    } else {
        stderr.len()
    };
    let bounded = copy_bytes(stderr, end);
    assert(bounded@ =~= shown_part(stderr@));
    let shown = text_from_utf8_lossy(&bounded);
    show_stderr(&shown, truncated)
}

proof fn lemma_squeezed(s: Seq<char>)
    ensures
        forall|i: int|
            0 <= i < squeezed(s).len() ==> (is_gap(#[trigger] squeezed(s)[i]) ==> squeezed(s)[i]
                == ' '),
        forall|i: int|
            0 <= i < squeezed(s).len() - 1 && #[trigger] squeezed(s)[i] == ' ' ==> squeezed(s)[i
                + 1] != ' ',
        squeezed(s).len() > 0 ==> squeezed(s)[0] != ' ',
        squeezed(s).len() <= s.len(),
    decreases s.len(),
{
    if s.len() > 0 {
        lemma_squeezed(s.drop_last());
        assert(is_gap(' '));
    }
}

/// What is shown of the standard error is one line: it has no control
/// characters and no white space but single spaces between words, it is never
/// empty, and at most the marker is added to it.
pub proof fn shown_text_is_one_line(shown: Seq<char>, truncated: bool)
    ensures
        shown_text(shown, truncated).len() > 0,
        forall|i: int|
            0 <= i < one_line(shown).len() ==> (is_gap(#[trigger] one_line(shown)[i])
                ==> one_line(shown)[i] == ' '),
        forall|i: int|
            0 <= i < one_line(shown).len() - 1 && #[trigger] one_line(shown)[i] == ' '
                ==> one_line(shown)[i + 1] != ' ',
        one_line(shown).len() > 0 ==> one_line(shown)[0] != ' ' && one_line(shown).last() != ' ',
        one_line(shown).len() <= shown.len(),
{
    lemma_squeezed(shown);
    reveal_strlit(" [truncated]");
    reveal_strlit("no stderr output");
    let q = squeezed(shown);
    if q.len() > 0 && q.last() == ' ' {
        assert(q.len() > 1);
        if q[q.len() - 2] == ' ' {
            assert(q[q.len() - 2 + 1] != ' ');
        }
    }
}

// ---------------------------------------------------------------------------
// Its outcome
// ---------------------------------------------------------------------------
/// What a run of the helper left.
pub struct HelperOutput {
    pub success: bool,
    /// The exit status, as the platform shows it.
    pub status: String,
    pub stdout: Vec<u8>,
    pub stderr: Vec<u8>,
}

/// How a run of the helper ended.
pub enum HelperOutcome {
    Completed(HelperOutput),
    /// Its output could not be read.
    Broken(String),
    Cancelled,
    TimedOut,
}

/// The token in the standard output of the helper.
pub open spec fn token_in(stdout: Seq<char>) -> Result<Seq<char>, ExternalTokenErrorModel> {
    let token = text::trimmed(stdout);
    if token.len() == 0 {
        Err(ExternalTokenErrorModel::HelperExecError("empty token returned"@))
    } else {
        Ok(token)
    }
}

/// The token that a run of the helper gave.
pub open spec fn helper_token(outcome: HelperOutcome, timeout_millis: u64) -> Result<
    Seq<char>,
    ExternalTokenErrorModel,
> {
    match outcome {
        HelperOutcome::Cancelled => Err(ExternalTokenErrorModel::HelperCancelled),
        HelperOutcome::TimedOut => Err(ExternalTokenErrorModel::HelperTimedOut(timeout_millis)),
        HelperOutcome::Broken(e) => Err(
            ExternalTokenErrorModel::HelperExecError("process I/O failed: "@ + e@),
        ),
        HelperOutcome::Completed(output) => if !output.success {
            Err(
                ExternalTokenErrorModel::HelperExecError(
                    "exit code "@ + output.status@ + ": "@ + sanitized(output.stderr@),
                ),
            )
        } else if output.stdout@.len() > MAX_HELPER_STDOUT_BYTES {
            Err(ExternalTokenErrorModel::HelperOutputTooLarge)
        } else {
            token_in(lossy_text(output.stdout@))
        },
    }
}

/// The token in the standard output of the helper.
pub fn token_in_output(stdout: &str) -> (r: Result<String, ExternalTokenError>)
    ensures
        match r {
            Ok(token) => token_in(stdout@) == Ok::<Seq<char>, ExternalTokenErrorModel>(token@),
            Err(e) => token_in(stdout@) == Err::<Seq<char>, ExternalTokenErrorModel>(e.deep_view()),
        },
{
    let token = text::trim(stdout);
    if token.as_str().is_empty() {
        Err(ExternalTokenError::HelperExecError("empty token returned".to_owned()))
    } else {
        Ok(token)
    }
}

/// The token that a run of the helper gave.
pub fn helper_result(outcome: HelperOutcome, timeout_millis: u64) -> (r: Result<
    String,
    ExternalTokenError,
>)
    ensures
        match r {
            Ok(token) => helper_token(outcome, timeout_millis) == Ok::<
                Seq<char>,
                ExternalTokenErrorModel,
            >(token@),
            Err(e) => helper_token(outcome, timeout_millis) == Err::<
                Seq<char>,
                ExternalTokenErrorModel,
            >(e.deep_view()),
        },
{
    match outcome {
        HelperOutcome::Cancelled => Err(ExternalTokenError::HelperCancelled),
        HelperOutcome::TimedOut => Err(ExternalTokenError::HelperTimedOut(timeout_millis)),
        HelperOutcome::Broken(e) => Err(
            ExternalTokenError::HelperExecError(text::concat2("process I/O failed: ", &e)),
        ),
        HelperOutcome::Completed(output) => {
            if !output.success {
                let mut message = text::concat3("exit code ", &output.status, ": ");
                message.append(&sanitize_stderr(&output.stderr));
                return Err(ExternalTokenError::HelperExecError(message));
            }
            if output.stdout.len() > MAX_HELPER_STDOUT_BYTES {
                return Err(ExternalTokenError::HelperOutputTooLarge);
            }
            token_in_output(&text_from_utf8_lossy(&output.stdout))
        },
    }
}

/// A token that the helper gave is never empty and has no white space around
/// it.
pub proof fn helper_token_is_trimmed(outcome: HelperOutcome, timeout_millis: u64)
    ensures
        helper_token(outcome, timeout_millis) matches Ok(token) ==> token.len() > 0
            && text::trimmed(token) == token,
{
    if let HelperOutcome::Completed(output) = outcome {
        text::lemma_trimmed_idempotent(lossy_text(output.stdout@));
    }
}

} // verus!
