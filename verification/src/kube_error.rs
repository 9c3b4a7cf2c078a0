//! What the failures of control plane requests mean.
use vstd::prelude::*;

use crate::text;

verus! {

/// How a request to a control plane failed.
#[derive(Debug, Clone, PartialEq, Eq)]
pub enum ApiError {
    /// The server answered with an error status.
    Api { status: String, code: u16, reason: String, message: String },
    /// The request did not get an answer: what the error says, and what those
    /// behind it say, from the nearest on.
    Other { message: String, sources: Vec<String> },
}

/// The model of a [`ApiError`].
#[verifier::ext_equal]
pub enum ApiErrorModel {
    Api { status: Seq<char>, code: u16, reason: Seq<char>, message: Seq<char> },
    Other { message: Seq<char>, sources: Seq<Seq<char>> },
}

impl DeepView for ApiError {
    type V = ApiErrorModel;

    open spec fn deep_view(&self) -> ApiErrorModel {
        match self {
            ApiError::Api { status, code, reason, message } => ApiErrorModel::Api {
                status: status.deep_view(),
                code: *code,
                reason: reason.deep_view(),
                message: message.deep_view(),
            },
            ApiError::Other { message, sources } => ApiErrorModel::Other {
                message: message.deep_view(),
                sources: sources.deep_view(),
            },
        }
    }
}

/// A failure that is about the project as a whole, with the answer behind it.
#[derive(Debug, Clone, PartialEq, Eq)]
pub enum ControlPlaneError {
    /// The control plane of the project does not exist.
    ProjectNotFound { project_id: String, source: ApiError },
    /// The token is valid, but not for this project.
    PermissionDenied { project_id: String, source: ApiError },
    /// The token was rejected.
    Unauthorized { project_id: String, source: ApiError },
}

/// The model of a [`ControlPlaneError`].
#[verifier::ext_equal]
pub enum ControlPlaneErrorModel {
    ProjectNotFound { project_id: Seq<char>, source: ApiErrorModel },
    PermissionDenied { project_id: Seq<char>, source: ApiErrorModel },
    Unauthorized { project_id: Seq<char>, source: ApiErrorModel },
}

impl DeepView for ControlPlaneError {
    type V = ControlPlaneErrorModel;

    open spec fn deep_view(&self) -> ControlPlaneErrorModel {
        match self {
            ControlPlaneError::ProjectNotFound { project_id, source } => ControlPlaneErrorModel::ProjectNotFound {
                project_id: project_id.deep_view(),
                source: source.deep_view(),
            },
            ControlPlaneError::PermissionDenied { project_id, source } => ControlPlaneErrorModel::PermissionDenied {
                project_id: project_id.deep_view(),
                source: source.deep_view(),
            },
            ControlPlaneError::Unauthorized { project_id, source } => ControlPlaneErrorModel::Unauthorized {
                project_id: project_id.deep_view(),
                source: source.deep_view(),
            },
        }
    }
}

/// An error with what was being done when it came.
#[derive(Debug)]
pub enum ErrorChain {
    /// What was being done, and the error that came.
    Context { context: String, source: Box<ErrorChain> },
    ControlPlane(ControlPlaneError),
    Api(ApiError),
    Message(String),
}

/// The model of an [`ErrorChain`].
pub enum ErrorChainModel {
    Context { context: Seq<char>, source: Box<ErrorChainModel> },
    ControlPlane(ControlPlaneErrorModel),
    Api(ApiErrorModel),
    Message(Seq<char>),
}

impl ErrorChain {
    pub open spec fn model(self) -> ErrorChainModel
        decreases self,
    {
        match self {
            ErrorChain::Context { context, source } => ErrorChainModel::Context {
                context: context@,
                source: Box::new((*source).model()),
            },
            ErrorChain::ControlPlane(e) => ErrorChainModel::ControlPlane(e.deep_view()),
            ErrorChain::Api(e) => ErrorChainModel::Api(e.deep_view()),
            ErrorChain::Message(m) => ErrorChainModel::Message(m@),
        }
    }
}

impl ErrorChainModel {
    /// The failure about the project as a whole that is anywhere in the chain.
    pub open spec fn control_plane(self) -> Option<ControlPlaneErrorModel>
        decreases self,
    {
        match self {
            ErrorChainModel::Context { source, .. } => (*source).control_plane(),
            ErrorChainModel::ControlPlane(e) => Some(e),
            _ => None,
        }
    }
}

// ---------------------------------------------------------------------------
// What errors say
// ---------------------------------------------------------------------------
/// What the answer of a server says.
pub open spec fn answer_text(message: Seq<char>, reason: Seq<char>) -> Seq<char> {
    message + ": "@ + reason
}

/// The answer of a server with all its fields, as `kube::core::ErrorResponse` is
/// shown in the debug format.
pub uninterp spec fn debug_answer(
    status: Seq<char>,
    message: Seq<char>,
    reason: Seq<char>,
    code: u16,
) -> Seq<char>;

/// The `Display` of `kube::Error::Api`. What is claimed: it names the kind of
/// error, says what the answer says, and shows the answer in the debug format in
/// brackets; the debug format depends on the fields of the answer alone.
#[verifier::external_body]
fn show_answer(status: &str, message: &str, reason: &str, code: u16) -> (r: String)
    ensures
        r@ == "ApiError: "@ + answer_text(message@, reason@) + " ("@ + debug_answer(
            status@,
            message@,
            reason@,
            code,
        ) + ")"@,
{
    let answer = kube::core::ErrorResponse {
        status: status.to_owned(),
        message: message.to_owned(),
        reason: reason.to_owned(),
        code,
    };
    kube::Error::Api(answer).to_string()
}

/// Texts, each after a colon.
pub open spec fn after_colons(texts: Seq<Seq<char>>) -> Seq<char>
    decreases texts.len(),
{
    if texts.len() == 0 {
        Seq::empty()
    } else {
        after_colons(texts.drop_last()) + ": "@ + texts.last()
    }
}

impl ApiErrorModel {
    /// The message of this error.
    pub open spec fn text(self) -> Seq<char> {
        match self {
            ApiErrorModel::Api { status, code, reason, message } => "ApiError: "@ + answer_text(
                message,
                reason,
            ) + " ("@ + debug_answer(status, message, reason, code) + ")"@,
            ApiErrorModel::Other { message, .. } => message,
        }
    }

    /// The messages of the errors behind this one, from the nearest on.
    pub open spec fn behind(self) -> Seq<Seq<char>> {
        match self {
            ApiErrorModel::Api { reason, message, .. } => seq![answer_text(message, reason)],
            ApiErrorModel::Other { sources, .. } => sources,
        }
    }

    /// The message of this error and of those behind it.
    pub open spec fn full_text(self) -> Seq<char> {
        self.text() + after_colons(self.behind())
    }
}

impl ErrorChainModel {
    /// What was being done, or the error where nothing is said of that.
    pub open spec fn headline(self) -> Seq<char> {
        match self {
            ErrorChainModel::Context { context, .. } => context,
            ErrorChainModel::ControlPlane(e) => e.text(),
            ErrorChainModel::Api(e) => e.text(),
            ErrorChainModel::Message(message) => message,
        }
    }

    /// The whole chain, from what was being done to the answer behind it.
    pub open spec fn text(self) -> Seq<char>
        decreases self,
    {
        match self {
            ErrorChainModel::Context { context, source } => context + ": "@ + (*source).text(),
            ErrorChainModel::ControlPlane(e) => e.text() + ": "@ + e.answer().full_text(),
            ErrorChainModel::Api(e) => e.full_text(),
            ErrorChainModel::Message(message) => message,
        }
    }
}

impl ControlPlaneErrorModel {
    /// The answer behind this error.
    pub open spec fn answer(self) -> ApiErrorModel {
        match self {
            ControlPlaneErrorModel::ProjectNotFound { source, .. } => source,
            ControlPlaneErrorModel::PermissionDenied { source, .. } => source,
            ControlPlaneErrorModel::Unauthorized { source, .. } => source,
        }
    }

    pub open spec fn about(self) -> Seq<char> {
        match self {
            ControlPlaneErrorModel::ProjectNotFound { project_id, .. } => project_id,
            ControlPlaneErrorModel::PermissionDenied { project_id, .. } => project_id,
            ControlPlaneErrorModel::Unauthorized { project_id, .. } => project_id,
        }
    }

    /// The message of this error.
    pub open spec fn text(self) -> Seq<char> {
        match self {
            ControlPlaneErrorModel::ProjectNotFound { project_id, .. } =>
                "control plane for project '"@ + project_id + "' not found"@,
            ControlPlaneErrorModel::PermissionDenied { project_id, .. } =>
                "permission denied in project '"@ + project_id + "'"@,
            ControlPlaneErrorModel::Unauthorized { project_id, .. } =>
                "authentication failed for project '"@ + project_id + "'"@,
        }
    }
}

impl ControlPlaneError {
    /// The project that this error is about.
    pub fn project_id(&self) -> (r: &str)
        ensures
            r@ == self.deep_view().about(),
    {
        match self {
            ControlPlaneError::ProjectNotFound { project_id, .. } => project_id.as_str(),
            ControlPlaneError::PermissionDenied { project_id, .. } => project_id.as_str(),
            ControlPlaneError::Unauthorized { project_id, .. } => project_id.as_str(),
        }
    }

    /// The answer behind this error.
    pub fn source(&self) -> (r: &ApiError)
        ensures
            r.deep_view() == self.deep_view().answer(),
    {
        match self {
            ControlPlaneError::ProjectNotFound { source, .. } => source,
            ControlPlaneError::PermissionDenied { source, .. } => source,
            ControlPlaneError::Unauthorized { source, .. } => source,
        }
    }

    /// The message of this error.
    pub fn message(&self) -> (r: String)
        ensures
            r@ == self.deep_view().text(),
    {
        match self {
            ControlPlaneError::ProjectNotFound { project_id, .. } => text::concat3(
                "control plane for project '",
                project_id,
                "' not found",
            ),
            ControlPlaneError::PermissionDenied { project_id, .. } => text::concat3(
                "permission denied in project '",
                project_id,
                "'",
            ),
            ControlPlaneError::Unauthorized { project_id, .. } => text::concat3(
                "authentication failed for project '",
                project_id,
                "'",
            ),
        }
    }

    /// The failure about the project as a whole that is anywhere in a chain,
    /// however much context was added.
    pub fn find_in(err: &ErrorChain) -> (r: Option<&ControlPlaneError>)
        ensures
            r.deep_view() == err.model().control_plane(),
        decreases *err,
    {
        match err {
            ErrorChain::Context { source, .. } => ControlPlaneError::find_in(source),
            ErrorChain::ControlPlane(e) => Some(e),
            _ => None,
        }
    }
}

impl ApiError {
    /// The message of this error.
    pub fn message(&self) -> (r: String)
        ensures
            r@ == self.deep_view().text(),
    {
        match self {
            ApiError::Api { status, code, reason, message } => {
                show_answer(status, message, reason, *code)
            },
            ApiError::Other { message, .. } => message.clone(),
        }
    }

    /// The message of this error and of those behind it.
    pub fn full_message(&self) -> (r: String)
        ensures
            r@ == self.deep_view().full_text(),
    {
        let mut out = self.message();
        match self {
            ApiError::Api { reason, message, .. } => {
                out.append(": ");
                out.append(message);
                out.append(": ");
                out.append(reason);
                proof {
                    let behind = self.deep_view().behind();
                    reveal_with_fuel(after_colons, 2);
                    assert(behind.drop_last() =~= Seq::<Seq<char>>::empty());
                    assert(out@ =~= self.deep_view().full_text());
                }
            },
            ApiError::Other { sources, .. } => {
                let ghost texts = sources.deep_view();
                let ghost start = out@;
                let mut i: usize = 0;
                assert(texts.take(0) =~= Seq::<Seq<char>>::empty());
                while i < sources.len()
                    invariant
                        i <= sources@.len(),
                        texts == sources.deep_view(),
                        out@ =~= start + after_colons(texts.take(i as int)),
                    decreases sources@.len() - i,
                {
                    out.append(": ");
                    out.append(&sources[i]);
                    proof {
                        let more = texts.take(i + 1);
                        assert(more.drop_last() =~= texts.take(i as int));
                        assert(more.last() == sources@[i as int]@);
                    }
                    i = i + 1;
                }
                assert(texts.take(texts.len() as int) =~= texts);
            },
        }
        out
    }
}

impl ErrorChain {
    /// What was being done, or the error where nothing is said of that.
    pub fn message(&self) -> (r: String)
        ensures
            r@ == self.model().headline(),
    {
        match self {
            ErrorChain::Context { context, .. } => context.clone(),
            ErrorChain::ControlPlane(e) => e.message(),
            ErrorChain::Api(e) => e.message(),
            ErrorChain::Message(message) => message.clone(),
        }
    }

    /// The whole chain, from what was being done to the answer behind it.
    pub fn full_message(&self) -> (r: String)
        ensures
            r@ == self.model().text(),
        decreases *self,
    {
        match self {
            ErrorChain::Context { context, source } => {
                text::concat3(context, ": ", &source.full_message())
            },
            ErrorChain::ControlPlane(e) => {
                text::concat3(&e.message(), ": ", &e.source().full_message())
            },
            ErrorChain::Api(e) => e.full_message(),
            ErrorChain::Message(message) => message.clone(),
        }
    }
}

/// The status that the server answered with.
pub open spec fn code_of(err: ApiErrorModel) -> Option<u16> {
    match err {
        ApiErrorModel::Api { code, .. } => Some(code),
        ApiErrorModel::Other { .. } => None,
    }
}

/// What a failed list request means for the project. An existing control plane
/// answers a list even when it is empty, so that it is not found says that the
/// project is missing.
pub open spec fn classified(project_id: Seq<char>, err: ApiErrorModel) -> ErrorChainModel {
    match code_of(err) {
        Some(404) => ErrorChainModel::ControlPlane(
            ControlPlaneErrorModel::ProjectNotFound { project_id, source: err },
        ),
        Some(403) => ErrorChainModel::ControlPlane(
            ControlPlaneErrorModel::PermissionDenied { project_id, source: err },
        ),
        Some(401) => ErrorChainModel::ControlPlane(
            ControlPlaneErrorModel::Unauthorized { project_id, source: err },
        ),
        _ => ErrorChainModel::Api(err),
    }
}

/// What a failed list request means, with what was being done.
pub fn classify_list_error(project_id: &str, context: &str, err: ApiError) -> (r: ErrorChain)
    ensures
        r.model() == (ErrorChainModel::Context {
            context: context@,
            source: Box::new(classified(project_id@, err.deep_view())),
        }),
{
    let code: Option<u16> = match &err {
        ApiError::Api { code, .. } => Some(*code),
        ApiError::Other { .. } => None,
    };
    let project_id = project_id.to_owned();
    let source = match code {
        Some(404) => ErrorChain::ControlPlane(
            ControlPlaneError::ProjectNotFound { project_id, source: err },
        ),
        Some(403) => ErrorChain::ControlPlane(
            ControlPlaneError::PermissionDenied { project_id, source: err },
        ),
        Some(401) => ErrorChain::ControlPlane(
            ControlPlaneError::Unauthorized { project_id, source: err },
        ),
        _ => ErrorChain::Api(err),
    };
    proof {
        reveal_with_fuel(ErrorChain::model, 3);
    }
    ErrorChain::Context { context: context.to_owned(), source: Box::new(source) }
}

/// A failed list request is about the project as a whole exactly when the
/// server answered 401, 403 or 404, however much context is added to it.
pub proof fn only_project_level_failures_are_classified(
    project_id: Seq<char>,
    context: Seq<char>,
    outer: Seq<char>,
    err: ApiErrorModel,
)
    ensures
        ({
            let chain = ErrorChainModel::Context {
                context,
                source: Box::new(classified(project_id, err)),
            };
            let wrapped = ErrorChainModel::Context { context: outer, source: Box::new(chain) };
            &&& wrapped.control_plane() == chain.control_plane()
            &&& chain.control_plane() is Some <==> (code_of(err) == Some(401u16) || code_of(err)
                == Some(403u16) || code_of(err) == Some(404u16))
            &&& chain.control_plane() matches Some(e) ==> e.about() == project_id
        }),
{
    reveal_with_fuel(ErrorChainModel::control_plane, 4);
}

/// Whether the token was rejected.
pub fn is_unauthorized(err: &ApiError) -> (r: bool)
    ensures
        r == (code_of(err.deep_view()) == Some(401u16)),
{
    match err {
        ApiError::Api { code, .. } => *code == 401,
        ApiError::Other { .. } => false,
    }
}

/// Whether what was asked for does not exist.
pub fn is_not_found(err: &ApiError) -> (r: bool)
    ensures
        r == (code_of(err.deep_view()) == Some(404u16)),
{
    match err {
        ApiError::Api { code, .. } => *code == 404,
        ApiError::Other { .. } => false,
    }
}

/// Whether the check of a quota took too long, which passes: not that the
/// quota is used up.
pub fn is_quota_check_timeout(err: &ApiError) -> (r: bool)
    ensures
        r == (err.deep_view() matches ApiErrorModel::Api { code, message, .. } && code == 403
            && text::has_part(message, "took too long to be checked against your quota"@)),
{
    match err {
        ApiError::Api { code, message, .. } => *code == 403 && text::contains_text(
            message,
            "took too long to be checked against your quota",
        ),
        ApiError::Other { .. } => false,
    }
}

} // verus!
