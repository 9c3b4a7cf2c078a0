//! Probing URLs: the local origin, best effort, and the tunnel's proxy until it
//! answers.
use vstd::prelude::*;

use crate::cli::output;
use crate::cli::output::{Mode, Output, OutputModel};
use crate::endpoint;
use crate::endpoint::{UrlParts, UrlPartsModel};
use crate::numbers;
use crate::text;

verus! {

// ---------------------------------------------------------------------------
// URLs
// ---------------------------------------------------------------------------
/// Whether `s` starts with `prefix`.
pub open spec fn starts_with(s: Seq<char>, prefix: Seq<char>) -> bool {
    text::occurs_at(s, prefix, 0)
}

/// The URL of a local service.
pub open spec fn origin_url(endpoint: Seq<char>) -> Seq<char> {
    if starts_with(endpoint, "http://"@) || starts_with(endpoint, "https://"@) {
        endpoint
    } else {
        "http://"@ + endpoint
    }
}

/// The URLs to probe: that of the local service, and that of the tunnel.
pub fn build_probe_urls(endpoint: &str, hostname: &str) -> (r: (String, String))
    ensures
        r.0@ == origin_url(endpoint@),
        r.1@ == "https://"@ + hostname@,
{
    let origin = if text::starts_with_text(endpoint, "http://") || text::starts_with_text(
        endpoint,
        "https://",
    ) {
        endpoint.to_owned()
    } else {
        text::concat2("http://", endpoint)
    };
    (origin, text::concat2("https://", hostname))
}

// ---------------------------------------------------------------------------
// Errors of name resolution
// ---------------------------------------------------------------------------
pub open spec fn is_ascii(s: Seq<char>) -> bool {
    forall|i: int| 0 <= i < s.len() ==> #[trigger] s[i] < '\u{80}'
}

/// The lower case of a text, by Unicode.
pub uninterp spec fn lowercased(s: Seq<char>) -> Seq<char>;

/// `str::to_lowercase`. What is claimed: the lower case depends on the text
/// alone; of ASCII text, it is that of each letter.
#[verifier::external_body]
fn to_lowercase(s: &str) -> (r: String)
    ensures
        r@ == lowercased(s@),
        is_ascii(s@) ==> r@ == text::ascii_lower(s@),
{
    s.to_lowercase()
}

/// Whether a message, in lower case, is about the resolution of a name.
pub open spec fn is_about_names(message: Seq<char>) -> bool {
    ||| text::has_part(message, "dns"@)
    ||| text::has_part(message, "name or service not known"@)
    ||| text::has_part(message, "nodomain"@)
    ||| text::has_part(message, "failed to lookup"@)
    ||| text::has_part(message, "no such host"@)
}

/// Whether an error, or one of its causes, is about the resolution of a name.
pub open spec fn is_about_dns(chain: Seq<Seq<char>>) -> bool {
    exists|i: int| 0 <= i < chain.len() && is_about_names(lowercased(#[trigger] chain[i]))
}

/// Whether a message, in lower case, is about the resolution of a name.
pub fn names_dns_failure(message: &str) -> (r: bool)
    ensures
        r == is_about_names(message@),
{
    text::contains_text(message, "dns") || text::contains_text(
        message,
        "name or service not known",
    ) || text::contains_text(message, "nodomain") || text::contains_text(
        message,
        "failed to lookup",
    ) || text::contains_text(message, "no such host")
}

/// Whether an error, given by its message and those of its causes, is about the
/// resolution of a name.
pub fn is_dns_error(chain: &Vec<String>) -> (r: bool)
    ensures
        r == is_about_dns(chain.deep_view()),
{
    let mut i: usize = 0;
    while i < chain.len()
        invariant
            i <= chain@.len(),
            forall|j: int|
                0 <= j < i ==> !is_about_names(lowercased(#[trigger] chain.deep_view()[j])),
        decreases chain@.len() - i,
    {
        assert(chain.deep_view()[i as int] == chain@[i as int]@);
        if names_dns_failure(&to_lowercase(&chain[i])) {
            return true;
        }
        i = i + 1;
    }
    false
}

// ---------------------------------------------------------------------------
// A probe that resolves the name elsewhere where that is what fails
// ---------------------------------------------------------------------------
/// How far a probe is: what it waits for.
#[derive(Debug, Clone, PartialEq, Eq)]
pub enum DnsProbe {
    /// The answer to the first request.
    First,
    /// The addresses of the host.
    Looking { scheme: String, host: String, port: u16 },
    /// The answer of an address; `next` is the index of the one after it.
    Trying { scheme: String, host: String, port: u16, addresses: Vec<String>, next: usize },
    /// The answer to the last request.
    Last,
}

/// The model of a [`DnsProbe`].
#[verifier::ext_equal]
pub enum DnsProbeModel {
    First,
    Looking { scheme: Seq<char>, host: Seq<char>, port: u16 },
    Trying { scheme: Seq<char>, host: Seq<char>, port: u16, addresses: Seq<Seq<char>>, next: usize },
    Last,
}

impl DeepView for DnsProbe {
    type V = DnsProbeModel;

    open spec fn deep_view(&self) -> DnsProbeModel {
        match self {
            DnsProbe::First => DnsProbeModel::First,
            DnsProbe::Looking { scheme, host, port } => DnsProbeModel::Looking {
                scheme: scheme.deep_view(),
                host: host.deep_view(),
                port: *port,
            },
            DnsProbe::Trying { scheme, host, port, addresses, next } => DnsProbeModel::Trying {
                scheme: scheme.deep_view(),
                host: host.deep_view(),
                port: *port,
                addresses: addresses.deep_view(),
                next: *next,
            },
            DnsProbe::Last => DnsProbeModel::Last,
        }
    }
}

/// What a probe does next.
#[derive(Debug, Clone, PartialEq, Eq)]
pub enum ProbeAction {
    /// Requests the URL.
    Get { url: String },
    /// Resolves the host by the public resolver.
    Lookup { host: String },
    /// Requests the URL, which names an address, for the host.
    GetVia { url: String, host: String },
}

/// The model of a [`ProbeAction`].
#[verifier::ext_equal]
pub enum ProbeActionModel {
    Get { url: Seq<char> },
    Lookup { host: Seq<char> },
    GetVia { url: Seq<char>, host: Seq<char> },
}

impl DeepView for ProbeAction {
    type V = ProbeActionModel;

    open spec fn deep_view(&self) -> ProbeActionModel {
        match self {
            ProbeAction::Get { url } => ProbeActionModel::Get {
                url: url.deep_view(),
            },
            ProbeAction::Lookup { host } => ProbeActionModel::Lookup {
                host: host.deep_view(),
            },
            ProbeAction::GetVia { url, host } => ProbeActionModel::GetVia {
                url: url.deep_view(),
                host: host.deep_view(),
            },
        }
    }
}

/// What comes back.
#[derive(Debug, Clone, PartialEq, Eq)]
pub enum ProbeReply {
    /// An answer with this status.
    Answered { status: u16 },
    /// No answer: the message of the error and those of its causes.
    Failed { chain: Vec<String> },
    /// The addresses of the host.
    Addresses { addresses: Vec<String> },
}

/// The model of a [`ProbeReply`].
#[verifier::ext_equal]
pub enum ProbeReplyModel {
    Answered { status: u16 },
    Failed { chain: Seq<Seq<char>> },
    Addresses { addresses: Seq<Seq<char>> },
}

impl DeepView for ProbeReply {
    type V = ProbeReplyModel;

    open spec fn deep_view(&self) -> ProbeReplyModel {
        match self {
            ProbeReply::Answered { status } => ProbeReplyModel::Answered {
                status: *status,
            },
            ProbeReply::Failed { chain } => ProbeReplyModel::Failed {
                chain: chain.deep_view(),
            },
            ProbeReply::Addresses { addresses } => ProbeReplyModel::Addresses {
                addresses: addresses.deep_view(),
            },
        }
    }
}

/// What comes of a reply.
#[derive(Debug, Clone, PartialEq, Eq)]
pub enum ProbeStep {
    /// The probe goes on.
    Next { state: DnsProbe, action: ProbeAction },
    /// The probe was answered with this status.
    Answered { status: u16 },
    /// The probe has failed.
    Failed { chain: Vec<String> },
}

/// The model of a [`ProbeStep`].
#[verifier::ext_equal]
pub enum ProbeStepModel {
    Next { state: DnsProbeModel, action: ProbeActionModel },
    Answered { status: u16 },
    Failed { chain: Seq<Seq<char>> },
}

impl DeepView for ProbeStep {
    type V = ProbeStepModel;

    open spec fn deep_view(&self) -> ProbeStepModel {
        match self {
            ProbeStep::Next { state, action } => ProbeStepModel::Next {
                state: state.deep_view(),
                action: action.deep_view(),
            },
            ProbeStep::Answered { status } => ProbeStepModel::Answered {
                status: *status,
            },
            ProbeStep::Failed { chain } => ProbeStepModel::Failed {
                chain: chain.deep_view(),
            },
        }
    }
}

/// The URL of one address of a host.
pub open spec fn address_url(scheme: Seq<char>, address: Seq<char>, port: u16) -> Seq<char> {
    scheme + "://"@ + address + ":"@ + numbers::decimal(port as nat) + "/"@
}

/// The step of a probe whose other ways are used up: it asks once more.
pub open spec fn ask_once_more(url: Seq<char>) -> ProbeStepModel {
    ProbeStepModel::Next { state: DnsProbeModel::Last, action: ProbeActionModel::Get { url } }
}

/// The step of a probe that goes on with the address number `i`.
pub open spec fn try_address(
    url: Seq<char>,
    scheme: Seq<char>,
    host: Seq<char>,
    port: u16,
    addresses: Seq<Seq<char>>,
    i: usize,
) -> ProbeStepModel {
    if i < addresses.len() {
        ProbeStepModel::Next {
            state: DnsProbeModel::Trying { scheme, host, port, addresses, next: (i + 1) as usize },
            action: ProbeActionModel::GetVia {
                url: address_url(scheme, addresses[i as int], port),
                host,
            },
        }
    } else {
        ask_once_more(url)
    }
}

/// The step of a probe whose name could not be resolved: it asks the public
/// resolver, where the URL names a host.
pub open spec fn resolve_elsewhere(
    url: Seq<char>,
    parts: Option<UrlPartsModel>,
) -> ProbeStepModel {
    match parts {
        Some(parts) => match parts.host {
            Some(host) => ProbeStepModel::Next {
                state: DnsProbeModel::Looking {
                    scheme: parts.scheme,
                    host,
                    port: match parts.port_or_known_default {
                        Some(port) => port,
                        None => 443,
                    },
                },
                action: ProbeActionModel::Lookup { host },
            },
            None => ask_once_more(url),
        },
        None => ask_once_more(url),
    }
}

/// What a probe of `url` does when a reply comes.
///
/// It asks, and where the name could not be resolved, it resolves it elsewhere
/// and asks each address in turn; where none answers, it asks once more. An
/// error that is not about names is final.
pub open spec fn probe_step(
    state: DnsProbeModel,
    url: Seq<char>,
    reply: ProbeReplyModel,
) -> ProbeStepModel {
    match (state, reply) {
        (DnsProbeModel::First, ProbeReplyModel::Answered { status }) => ProbeStepModel::Answered {
            status,
        },
        (DnsProbeModel::First, ProbeReplyModel::Failed { chain }) => if is_about_dns(chain) {
            resolve_elsewhere(url, endpoint::url_parts(url))
        } else {
            ProbeStepModel::Failed { chain }
        },
        (
            DnsProbeModel::Looking { scheme, host, port },
            ProbeReplyModel::Addresses { addresses },
        ) => try_address(url, scheme, host, port, addresses, 0),
        (DnsProbeModel::Looking { .. }, _) => ask_once_more(url),
        (
            DnsProbeModel::Trying { .. },
            ProbeReplyModel::Answered { status },
        ) => ProbeStepModel::Answered { status },
        (DnsProbeModel::Trying { scheme, host, port, addresses, next }, _) => try_address(
            url,
            scheme,
            host,
            port,
            addresses,
            next,
        ),
        (DnsProbeModel::Last, ProbeReplyModel::Answered { status }) => ProbeStepModel::Answered {
            status,
        },
        (DnsProbeModel::Last, ProbeReplyModel::Failed { chain }) => ProbeStepModel::Failed {
            chain,
        },
        _ => ProbeStepModel::Failed { chain: seq!["unexpected reply"@] },
    }
}

fn once_more(url: &str) -> (r: ProbeStep)
    ensures
        r.deep_view() == ask_once_more(url@),
{
    ProbeStep::Next { state: DnsProbe::Last, action: ProbeAction::Get { url: url.to_owned() } }
}

fn next_address(
    url: &str,
    scheme: String,
    host: String,
    port: u16,
    addresses: Vec<String>,
    i: usize,
) -> (r: ProbeStep)
    ensures
        r.deep_view() == try_address(url@, scheme@, host@, port, addresses.deep_view(), i),
{
    if i < addresses.len() {
        assert(addresses.deep_view()[i as int] == addresses@[i as int]@);
        let mut via = text::concat3(&scheme, "://", &addresses[i]);
        via.append(":");
        via.append(&numbers::decimal_text(port as u64));
        via.append("/");
        let action = ProbeAction::GetVia { url: via, host: host.clone() };
        ProbeStep::Next {
            state: DnsProbe::Trying { scheme, host, port, addresses, next: i + 1 },
            action,
        }
    } else {
        once_more(url)
    }
}

/// Where a probe goes on whose name could not be resolved, by the parts of its
/// URL.
pub fn elsewhere(url: &str, parts: Option<UrlParts>) -> (r: ProbeStep)
    ensures
        r.deep_view() == resolve_elsewhere(url@, parts.deep_view()),
{
    match parts {
        Some(UrlParts { scheme, host: Some(host), port_or_known_default, .. }) => {
            let port: u16 = match port_or_known_default {
                Some(port) => port,
                None => 443,
            };
            let action = ProbeAction::Lookup { host: host.clone() };
            ProbeStep::Next { state: DnsProbe::Looking { scheme, host, port }, action }
        },
        _ => once_more(url),
    }
}

impl DnsProbe {
    /// The first request of a probe.
    pub fn start(url: &str) -> (r: (DnsProbe, ProbeAction))
        ensures
            r.0.deep_view() == DnsProbeModel::First,
            r.1.deep_view() == (ProbeActionModel::Get { url: url@ }),
    {
        (DnsProbe::First, ProbeAction::Get { url: url.to_owned() })
    }

    /// Goes on with a probe when a reply comes.
    pub fn step(self, url: &str, reply: ProbeReply) -> (r: ProbeStep)
        ensures
            r.deep_view() == probe_step(self.deep_view(), url@, reply.deep_view()),
    {
        match (self, reply) {
            (DnsProbe::First, ProbeReply::Failed { chain }) => {
                if is_dns_error(&chain) {
                    elsewhere(url, endpoint::read_url(url))
                } else {
                    ProbeStep::Failed { chain }
                }
            },
            (DnsProbe::Looking { scheme, host, port }, ProbeReply::Addresses { addresses }) => {
                next_address(url, scheme, host, port, addresses, 0)
            },
            (DnsProbe::Looking { .. }, _) => once_more(url),
            (DnsProbe::Trying { .. }, ProbeReply::Answered { status }) => ProbeStep::Answered {
                status,
            },
            (DnsProbe::Trying { scheme, host, port, addresses, next }, _) => {
                next_address(url, scheme, host, port, addresses, next)
            },
            (DnsProbe::First, ProbeReply::Answered { status }) => ProbeStep::Answered { status },
            (DnsProbe::Last, ProbeReply::Answered { status }) => ProbeStep::Answered { status },
            (DnsProbe::Last, ProbeReply::Failed { chain }) => ProbeStep::Failed { chain },
            _ => {
                let mut chain: Vec<String> = Vec::new();
                chain.push("unexpected reply".to_owned());
                assert(chain.deep_view() =~= seq!["unexpected reply"@]);
                ProbeStep::Failed { chain }
            },
        }
    }
}

/// How many requests may still follow once the addresses are known.
pub open spec fn requests_left(state: DnsProbeModel) -> int {
    match state {
        DnsProbeModel::Trying { addresses, next, .. } => if next < addresses.len() {
            addresses.len() - next + 1
        } else {
            1
        },
        _ => 0,
    }
}

/// Where a state stands on the way of a probe.
pub open spec fn stage(state: DnsProbeModel) -> int {
    match state {
        DnsProbeModel::First => 3,
        DnsProbeModel::Looking { .. } => 2,
        DnsProbeModel::Trying { .. } => 1,
        DnsProbeModel::Last => 0,
    }
}

/// Every probe comes to its end: each step leads to a later stage, or leaves
/// fewer addresses to try.
pub proof fn probe_always_ends(state: DnsProbeModel, url: Seq<char>, reply: ProbeReplyModel)
    requires
        state matches DnsProbeModel::Trying { addresses, .. } ==> addresses.len() <= usize::MAX,
    ensures
        probe_step(state, url, reply) matches ProbeStepModel::Next { state: next, .. } ==> 0
            <= stage(next) < stage(state) || stage(next) == stage(state) && 0 <= requests_left(next)
            < requests_left(state),
{
}

/// An error that is not about names is the probe's own, at once.
pub proof fn other_errors_are_final(url: Seq<char>, chain: Seq<Seq<char>>)
    requires
        !is_about_dns(chain),
    ensures
        probe_step(DnsProbeModel::First, url, ProbeReplyModel::Failed { chain }) == (
        ProbeStepModel::Failed { chain }),
{
}

// ---------------------------------------------------------------------------
// Verifying both ends of a tunnel
// ---------------------------------------------------------------------------
/// How long the first pause between two requests to the origin is.
pub const MIN_BACKOFF_NANOS: u64 = 250_000_000;

/// How long such a pause is at most.
pub const MAX_BACKOFF_NANOS: u64 = 2_000_000_000;

/// How long a pause between two requests to the proxy is.
pub const PROXY_PAUSE_NANOS: u64 = 10_000_000_000;

/// What is verified.
#[derive(Debug, Clone, PartialEq, Eq)]
pub struct VerifyContext {
    pub origin_url: String,
    pub proxy_url: String,
    /// How long the origin may take, in nanoseconds.
    pub budget: u64,
    pub mode: Mode,
}

/// The model of a [`VerifyContext`].
#[verifier::ext_equal]
pub struct VerifyContextModel {
    pub origin_url: Seq<char>,
    pub proxy_url: Seq<char>,
    pub budget: u64,
    pub mode: Mode,
}

impl DeepView for VerifyContext {
    type V = VerifyContextModel;

    open spec fn deep_view(&self) -> VerifyContextModel {
        VerifyContextModel {
            origin_url: self.origin_url.deep_view(),
            proxy_url: self.proxy_url.deep_view(),
            budget: self.budget,
            mode: self.mode.deep_view(),
        }
    }
}

/// How long something has taken.
#[derive(Debug, Clone, PartialEq, Eq)]
pub struct Elapsed {
    pub nanos: u64,
    /// In seconds, with one decimal.
    pub tenths: String,
    /// In whole seconds.
    pub whole: String,
}

/// The model of a [`Elapsed`].
#[verifier::ext_equal]
pub struct ElapsedModel {
    pub nanos: u64,
    pub tenths: Seq<char>,
    pub whole: Seq<char>,
}

impl DeepView for Elapsed {
    type V = ElapsedModel;

    open spec fn deep_view(&self) -> ElapsedModel {
        ElapsedModel {
            nanos: self.nanos,
            tenths: self.tenths.deep_view(),
            whole: self.whole.deep_view(),
        }
    }
}

/// How far the verification is: what it waits for.
#[derive(Debug, Clone, PartialEq, Eq)]
pub enum Verification {
    /// The start.
    Start,
    /// The end of a pause before the origin is asked again.
    OriginDue { backoff: u64 },
    /// The answer of the origin.
    OriginAsked { backoff: u64 },
    /// The answer of the proxy.
    ProxyAsked,
    /// The end of a pause before the proxy is asked again.
    ProxyPaused,
}

/// The model of a [`Verification`].
#[verifier::ext_equal]
pub enum VerificationModel {
    Start,
    OriginDue { backoff: u64 },
    OriginAsked { backoff: u64 },
    ProxyAsked,
    ProxyPaused,
}

impl DeepView for Verification {
    type V = VerificationModel;

    open spec fn deep_view(&self) -> VerificationModel {
        match self {
            Verification::Start => VerificationModel::Start,
            Verification::OriginDue { backoff } => VerificationModel::OriginDue {
                backoff: *backoff,
            },
            Verification::OriginAsked { backoff } => VerificationModel::OriginAsked {
                backoff: *backoff,
            },
            Verification::ProxyAsked => VerificationModel::ProxyAsked,
            Verification::ProxyPaused => VerificationModel::ProxyPaused,
        }
    }
}

/// What happens.
#[derive(Debug, Clone, PartialEq, Eq)]
pub enum VerifyEvent {
    /// The start, or the end of a pause.
    Resumed,
    /// An answer with this status.
    Answered { status: u16 },
    /// No answer: the message of the error and those of its causes.
    Failed { chain: Vec<String> },
}

/// The model of a [`VerifyEvent`].
#[verifier::ext_equal]
pub enum VerifyEventModel {
    Resumed,
    Answered { status: u16 },
    Failed { chain: Seq<Seq<char>> },
}

impl DeepView for VerifyEvent {
    type V = VerifyEventModel;

    open spec fn deep_view(&self) -> VerifyEventModel {
        match self {
            VerifyEvent::Resumed => VerifyEventModel::Resumed,
            VerifyEvent::Answered { status } => VerifyEventModel::Answered {
                status: *status,
            },
            VerifyEvent::Failed { chain } => VerifyEventModel::Failed {
                chain: chain.deep_view(),
            },
        }
    }
}

/// What the verification does next.
#[derive(Debug, Clone, PartialEq, Eq)]
pub enum VerifyAction {
    /// Requests the URL.
    GetOrigin { url: String },
    /// Requests the URL. The first of these starts the clock anew; before each
    /// other the connection details are refreshed.
    GetProxy { url: String, first: bool },
    /// Pauses for this many nanoseconds.
    Sleep { nanos: u64 },
    /// The proxy answers: the verification is over.
    Finish,
    /// What happened was not waited for.
    Abandon,
}

/// The model of a [`VerifyAction`].
#[verifier::ext_equal]
pub enum VerifyActionModel {
    GetOrigin { url: Seq<char> },
    GetProxy { url: Seq<char>, first: bool },
    Sleep { nanos: u64 },
    Finish,
    Abandon,
}

impl DeepView for VerifyAction {
    type V = VerifyActionModel;

    open spec fn deep_view(&self) -> VerifyActionModel {
        match self {
            VerifyAction::GetOrigin { url } => VerifyActionModel::GetOrigin {
                url: url.deep_view(),
            },
            VerifyAction::GetProxy { url, first } => VerifyActionModel::GetProxy {
                url: url.deep_view(),
                first: *first,
            },
            VerifyAction::Sleep { nanos } => VerifyActionModel::Sleep {
                nanos: *nanos,
            },
            VerifyAction::Finish => VerifyActionModel::Finish,
            VerifyAction::Abandon => VerifyActionModel::Abandon,
        }
    }
}

/// What the verification does when something happens: its next state, what is
/// written, and what is done.
#[derive(Debug)]
pub struct VerifyStep {
    pub state: Verification,
    pub outputs: Vec<Output>,
    pub action: VerifyAction,
}

/// The model of a [`VerifyStep`].
#[verifier::ext_equal]
pub struct VerifyStepModel {
    pub state: VerificationModel,
    pub outputs: Seq<OutputModel>,
    pub action: VerifyActionModel,
}

impl DeepView for VerifyStep {
    type V = VerifyStepModel;

    open spec fn deep_view(&self) -> VerifyStepModel {
        VerifyStepModel {
            state: self.state.deep_view(),
            outputs: self.outputs.deep_view(),
            action: self.action.deep_view(),
        }
    }
}

/// Whether a status says that something answers: it is no server error.
pub open spec fn is_answer(status: u16) -> bool {
    status < 500
}

/// How long the origin may take: half of the budget.
pub open spec fn origin_budget(cx: VerifyContextModel) -> u64 {
    cx.budget / 2
}

/// The pause after one of `backoff`.
pub open spec fn next_backoff(backoff: u64) -> u64 {
    if backoff * 2 < MAX_BACKOFF_NANOS {
        (backoff * 2) as u64
    } else {
        MAX_BACKOFF_NANOS
    }
}

/// The event that a probe starts.
pub open spec fn verifying(mode: Mode, url: Seq<char>) -> Seq<OutputModel> {
    output::event_only(mode, output::probe_event_model("tunnel_verifying"@, url))
}

/// The proxy's turn, after what is written of the origin.
pub open spec fn turn_to_proxy(
    cx: VerifyContextModel,
    outputs: Seq<OutputModel>,
) -> VerifyStepModel {
    VerifyStepModel {
        state: VerificationModel::ProxyAsked,
        outputs: outputs + verifying(cx.mode, cx.proxy_url),
        action: VerifyActionModel::GetProxy { url: cx.proxy_url, first: true },
    }
}

/// The warning that the origin did not answer.
pub open spec fn origin_warning(url: Seq<char>) -> OutputModel {
    OutputModel::Note(
        "warning: origin "@ + url + " did not respond within budget \u{2014} continuing"@,
    )
}

/// The origin's turn, unless its time is over.
pub open spec fn ask_origin(
    cx: VerifyContextModel,
    backoff: u64,
    elapsed: ElapsedModel,
    outputs: Seq<OutputModel>,
) -> VerifyStepModel {
    if elapsed.nanos >= origin_budget(cx) {
        turn_to_proxy(cx, outputs.push(origin_warning(cx.origin_url)))
    } else {
        VerifyStepModel {
            state: VerificationModel::OriginAsked { backoff },
            outputs,
            action: VerifyActionModel::GetOrigin { url: cx.origin_url },
        }
    }
}

/// The origin did not answer: a pause, unless its time is over.
pub open spec fn pause_origin(
    cx: VerifyContextModel,
    backoff: u64,
    elapsed: ElapsedModel,
) -> VerifyStepModel {
    if elapsed.nanos >= origin_budget(cx) {
        turn_to_proxy(cx, seq![origin_warning(cx.origin_url)])
    } else {
        let remaining = (origin_budget(cx) - elapsed.nanos) as u64;
        VerifyStepModel {
            state: VerificationModel::OriginDue { backoff: next_backoff(backoff) },
            outputs: seq![],
            action: VerifyActionModel::Sleep {
                nanos: if backoff < remaining {
                    backoff
                } else {
                    remaining
                },
            },
        }
    }
}

/// The proxy did not answer, for this cause: a pause.
pub open spec fn pause_proxy(
    cx: VerifyContextModel,
    elapsed: ElapsedModel,
    cause: Seq<char>,
) -> VerifyStepModel {
    VerifyStepModel {
        state: VerificationModel::ProxyPaused,
        outputs: seq![
            OutputModel::Note(
                output::WAITING_MARK@ + "tunnel ["@ + cx.proxy_url + "] ("@ + elapsed.whole
                    + "s) ... "@ + cause,
            ),
        ],
        action: VerifyActionModel::Sleep { nanos: PROXY_PAUSE_NANOS },
    }
}

/// The cause at the bottom of an error.
pub open spec fn root_cause(chain: Seq<Seq<char>>) -> Seq<char> {
    if chain.len() > 0 {
        chain.last()
    } else {
        Seq::empty()
    }
}

/// What the verification does when something happens, `elapsed` after the start
/// of the origin's turn or the proxy's.
///
/// The origin is asked, with longer and longer pauses, until it answers or half
/// of the budget is used; that it does not is only a warning. Then the proxy is
/// asked, with fixed pauses, until it answers.
pub open spec fn verify_step(
    state: VerificationModel,
    cx: VerifyContextModel,
    event: VerifyEventModel,
    elapsed: ElapsedModel,
) -> VerifyStepModel {
    match (state, event) {
        (VerificationModel::Start, VerifyEventModel::Resumed) => ask_origin(
            cx,
            MIN_BACKOFF_NANOS,
            elapsed,
            verifying(cx.mode, cx.origin_url),
        ),
        (VerificationModel::OriginDue { backoff }, VerifyEventModel::Resumed) => ask_origin(
            cx,
            backoff,
            elapsed,
            seq![],
        ),
        (VerificationModel::OriginAsked { backoff }, VerifyEventModel::Answered { status }) => {
            if is_answer(status) {
                turn_to_proxy(
                    cx,
                    output::verify_outputs(
                        cx.mode,
                        "origin reachable"@,
                        cx.origin_url,
                        elapsed.tenths,
                        Some(status),
                    ),
                )
            } else {
                pause_origin(cx, backoff, elapsed)
            }
        },
        (VerificationModel::OriginAsked { backoff }, VerifyEventModel::Failed { .. }) =>
            pause_origin(cx, backoff, elapsed),
        (VerificationModel::ProxyAsked, VerifyEventModel::Answered { status }) => {
            if is_answer(status) {
                VerifyStepModel {
                    state: VerificationModel::ProxyAsked,
                    outputs: output::verify_outputs(
                        cx.mode,
                        "proxy responding"@,
                        cx.proxy_url,
                        elapsed.tenths,
                        Some(status),
                    ),
                    action: VerifyActionModel::Finish,
                }
            } else {
                pause_proxy(cx, elapsed, "HTTP "@ + numbers::decimal(status as nat))
            }
        },
        (VerificationModel::ProxyAsked, VerifyEventModel::Failed { chain }) => pause_proxy(
            cx,
            elapsed,
            root_cause(chain),
        ),
        (VerificationModel::ProxyPaused, VerifyEventModel::Resumed) => VerifyStepModel {
            state: VerificationModel::ProxyAsked,
            outputs: seq![],
            action: VerifyActionModel::GetProxy { url: cx.proxy_url, first: false },
        },
        _ => VerifyStepModel { state, outputs: seq![], action: VerifyActionModel::Abandon },
    }
}

/// The verification of a tunnel to `endpoint` under `hostname`.
pub open spec fn verify_context(
    endpoint: Seq<char>,
    hostname: Seq<char>,
    budget: u64,
    mode: Mode,
) -> VerifyContextModel {
    VerifyContextModel {
        origin_url: origin_url(endpoint),
        proxy_url: "https://"@ + hostname,
        budget,
        mode,
    }
}

impl VerifyContext {
    /// The verification of a tunnel to `endpoint` under `hostname`.
    pub fn new(endpoint: &str, hostname: &str, budget: u64, mode: Mode) -> (r: Self)
        ensures
            r.deep_view() == (VerifyContextModel {
                origin_url: origin_url(endpoint@),
                proxy_url: "https://"@ + hostname@,
                budget,
                mode,
            }),
            r.deep_view() == verify_context(endpoint@, hostname@, budget, mode),
    {
        let (origin_url, proxy_url) = build_probe_urls(endpoint, hostname);
        VerifyContext { origin_url, proxy_url, budget, mode }
    }

    fn add_verifying(&self, outputs: &mut Vec<Output>, url: &str)
        ensures
            final(outputs).deep_view() == old(outputs).deep_view() + verifying(self.mode, url@),
    {
        let ghost before = outputs.deep_view();
        if self.mode == Mode::Json {
            outputs.push(Output::Event(output::probe_event("tunnel_verifying", url)));
        }
        assert(outputs.deep_view() =~= before + verifying(self.mode, url@));
    }

    fn proxy_turn(&self, outputs: Vec<Output>) -> (r: VerifyStep)
        ensures
            r.deep_view() == turn_to_proxy(self.deep_view(), outputs.deep_view()),
    {
        let mut outputs = outputs;
        self.add_verifying(&mut outputs, &self.proxy_url);
        VerifyStep {
            state: Verification::ProxyAsked,
            outputs,
            action: VerifyAction::GetProxy { url: self.proxy_url.clone(), first: true },
        }
    }

    fn warning(&self) -> (r: Output)
        ensures
            r.deep_view() == origin_warning(self.deep_view().origin_url),
    {
        Output::Note(
            text::concat3(
                "warning: origin ",
                &self.origin_url,
                " did not respond within budget \u{2014} continuing",
            ),
        )
    }

    fn origin_turn(&self, backoff: u64, elapsed: &Elapsed, outputs: Vec<Output>) -> (r: VerifyStep)
        ensures
            r.deep_view() == ask_origin(
                self.deep_view(),
                backoff,
                elapsed.deep_view(),
                outputs.deep_view(),
            ),
    {
        if elapsed.nanos >= self.budget / 2 {
            let ghost before = outputs.deep_view();
            let mut outputs = outputs;
            outputs.push(self.warning());
            assert(outputs.deep_view() =~= before.push(
                origin_warning(self.deep_view().origin_url),
            ));
            self.proxy_turn(outputs)
        } else {
            VerifyStep {
                state: Verification::OriginAsked { backoff },
                outputs,
                action: VerifyAction::GetOrigin { url: self.origin_url.clone() },
            }
        }
    }

    fn origin_pause(&self, backoff: u64, elapsed: &Elapsed) -> (r: VerifyStep)
        ensures
            r.deep_view() == pause_origin(self.deep_view(), backoff, elapsed.deep_view()),
    {
        let mut outputs: Vec<Output> = Vec::new();
        if elapsed.nanos >= self.budget / 2 {
            outputs.push(self.warning());
            assert(outputs.deep_view() =~= seq![origin_warning(self.deep_view().origin_url)]);
            self.proxy_turn(outputs)
        } else {
            let remaining: u64 = self.budget / 2 - elapsed.nanos;
            let longer: u64 = if backoff < MAX_BACKOFF_NANOS && backoff * 2 < MAX_BACKOFF_NANOS {
                backoff * 2
            } else {
                MAX_BACKOFF_NANOS
            };
            assert(outputs.deep_view() =~= seq![]);
            VerifyStep {
                state: Verification::OriginDue { backoff: longer },
                outputs,
                action: VerifyAction::Sleep {
                    nanos: if backoff < remaining {
                        backoff
                    } else {
                        remaining
                    },
                },
            }
        }
    }

    fn proxy_pause(&self, elapsed: &Elapsed, cause: &str) -> (r: VerifyStep)
        ensures
            r.deep_view() == pause_proxy(self.deep_view(), elapsed.deep_view(), cause@),
    {
        let mut note = text::concat3(output::WAITING_MARK, "tunnel [", &self.proxy_url);
        note.append("] (");
        note.append(&elapsed.whole);
        note.append("s) ... ");
        note.append(cause);
        let mut outputs: Vec<Output> = Vec::new();
        outputs.push(Output::Note(note));
        assert(outputs.deep_view() =~= pause_proxy(
            self.deep_view(),
            elapsed.deep_view(),
            cause@,
        ).outputs);
        VerifyStep {
            state: Verification::ProxyPaused,
            outputs,
            action: VerifyAction::Sleep { nanos: PROXY_PAUSE_NANOS },
        }
    }
}

impl Verification {
    /// Goes on with the verification when something happens.
    pub fn step(self, cx: &VerifyContext, event: VerifyEvent, elapsed: &Elapsed) -> (r: VerifyStep)
        ensures
            r.deep_view() == verify_step(
                self.deep_view(),
                cx.deep_view(),
                event.deep_view(),
                elapsed.deep_view(),
            ),
    {
        let mut none: Vec<Output> = Vec::new();
        assert(none.deep_view() =~= seq![]);
        match (self, event) {
            (Verification::Start, VerifyEvent::Resumed) => {
                cx.add_verifying(&mut none, &cx.origin_url);
                assert(none.deep_view() =~= verifying(cx.mode, cx.origin_url@));
                cx.origin_turn(MIN_BACKOFF_NANOS, elapsed, none)
            },
            (Verification::OriginDue { backoff }, VerifyEvent::Resumed) => {
                cx.origin_turn(backoff, elapsed, none)
            },
            (Verification::OriginAsked { backoff }, VerifyEvent::Answered { status }) => {
                if status < 500 {
                    cx.proxy_turn(
                        output::render_verify(
                            cx.mode,
                            "origin reachable",
                            &cx.origin_url,
                            &elapsed.tenths,
                            Some(status),
                        ),
                    )
                } else {
                    cx.origin_pause(backoff, elapsed)
                }
            },
            (Verification::OriginAsked { backoff }, VerifyEvent::Failed { .. }) => {
                cx.origin_pause(backoff, elapsed)
            },
            (Verification::ProxyAsked, VerifyEvent::Answered { status }) => {
                if status < 500 {
                    VerifyStep {
                        state: Verification::ProxyAsked,
                        outputs: output::render_verify(
                            cx.mode,
                            "proxy responding",
                            &cx.proxy_url,
                            &elapsed.tenths,
                            Some(status),
                        ),
                        action: VerifyAction::Finish,
                    }
                } else {
                    let cause = text::concat2("HTTP ", &numbers::decimal_text(status as u64));
                    cx.proxy_pause(elapsed, &cause)
                }
            },
            (Verification::ProxyAsked, VerifyEvent::Failed { chain }) => {
                let n: usize = chain.len();
                let cause: &str = if n > 0 {
                    assert(chain.deep_view()[n - 1] == chain@[n - 1]@);
                    chain[n - 1].as_str()
                } else {
                    ""
                };
                proof {
                    reveal_strlit("");
                    assert(cause@ =~= root_cause(chain.deep_view()));
                }
                cx.proxy_pause(elapsed, cause)
            },
            (Verification::ProxyPaused, VerifyEvent::Resumed) => VerifyStep {
                state: Verification::ProxyAsked,
                outputs: none,
                action: VerifyAction::GetProxy { url: cx.proxy_url.clone(), first: false },
            },
            (state, _) => VerifyStep { state, outputs: none, action: VerifyAction::Abandon },
        }
    }
}

/// The verification succeeds only when the proxy answers with something other
/// than a server error.
pub proof fn verified_means_answered(
    state: VerificationModel,
    cx: VerifyContextModel,
    event: VerifyEventModel,
    elapsed: ElapsedModel,
)
    ensures
        verify_step(state, cx, event, elapsed).action is Finish <==> state is ProxyAsked && (
        event matches VerifyEventModel::Answered { status } && is_answer(status)),
{
}

/// The proxy is asked for as long as it takes: whatever it replies but an answer,
/// the user is told, and it is asked again after ten seconds.
pub proof fn proxy_is_asked_until_it_answers(
    cx: VerifyContextModel,
    event: VerifyEventModel,
    elapsed: ElapsedModel,
    later: ElapsedModel,
)
    requires
        event is Failed || (event matches VerifyEventModel::Answered { status } && !is_answer(
            status,
        )),
    ensures
        ({
            let paused = verify_step(VerificationModel::ProxyAsked, cx, event, elapsed);
            let resumed = verify_step(paused.state, cx, VerifyEventModel::Resumed, later);
            &&& paused.action == (VerifyActionModel::Sleep { nanos: PROXY_PAUSE_NANOS })
            &&& paused.outputs.len() == 1 && paused.outputs[0] is Note
            &&& resumed.action == (VerifyActionModel::GetProxy { url: cx.proxy_url, first: false })
            &&& resumed.state is ProxyAsked
        }),
{
}

/// A pause of the origin's turn never goes beyond its time, and pauses grow from
/// a quarter of a second to two seconds.
pub proof fn origin_keeps_its_budget(
    backoff: u64,
    cx: VerifyContextModel,
    event: VerifyEventModel,
    elapsed: ElapsedModel,
)
    requires
        MIN_BACKOFF_NANOS <= backoff <= MAX_BACKOFF_NANOS,
    ensures
        verify_step(
            VerificationModel::OriginAsked { backoff },
            cx,
            event,
            elapsed,
        ).action matches VerifyActionModel::Sleep { nanos } ==> nanos <= backoff && elapsed.nanos
            + nanos <= origin_budget(cx),
        verify_step(
            VerificationModel::OriginAsked { backoff },
            cx,
            event,
            elapsed,
        ).state matches VerificationModel::OriginDue { backoff: longer } ==> backoff <= longer
            <= MAX_BACKOFF_NANOS,
{
}

/// An origin that does not answer never keeps the proxy from being asked: once
/// its time is over, the proxy's turn comes.
pub proof fn origin_is_best_effort(
    backoff: u64,
    cx: VerifyContextModel,
    chain: Seq<Seq<char>>,
    elapsed: ElapsedModel,
)
    requires
        elapsed.nanos >= origin_budget(cx),
    ensures
        verify_step(
            VerificationModel::OriginAsked { backoff },
            cx,
            VerifyEventModel::Failed { chain },
            elapsed,
        ).action == (VerifyActionModel::GetProxy { url: cx.proxy_url, first: true }),
{
}

// ---------------------------------------------------------------------------
// What is asked, and when
// ---------------------------------------------------------------------------
/// The local service is asked at its endpoint, by HTTP where no scheme is written;
/// the tunnel is asked by HTTPS at its hostname.
pub proof fn both_ends_are_asked_at_their_urls(
    endpoint: Seq<char>,
    hostname: Seq<char>,
    budget: u64,
    mode: Mode,
)
    ensures
        ({
            let cx = verify_context(endpoint, hostname, budget, mode);
            &&& cx.proxy_url == "https://"@ + hostname
            &&& cx.budget == budget
            &&& cx.mode == mode
            &&& if "http://"@.is_prefix_of(endpoint) || "https://"@.is_prefix_of(endpoint) {
                cx.origin_url == endpoint
            } else {
                cx.origin_url == "http://"@ + endpoint
            }
        }),
{
    assert(starts_with(endpoint, "http://"@) <==> "http://"@.is_prefix_of(endpoint));
    assert(starts_with(endpoint, "https://"@) <==> "https://"@.is_prefix_of(endpoint));
}

/// The origin is asked first; once it answers with anything but a server error,
/// that is told, and the proxy is asked.
pub proof fn origin_is_asked_before_the_proxy(
    cx: VerifyContextModel,
    backoff: u64,
    status: u16,
    elapsed: ElapsedModel,
)
    ensures
        elapsed.nanos < cx.budget / 2 ==> ({
            let step = verify_step(
                VerificationModel::Start,
                cx,
                VerifyEventModel::Resumed,
                elapsed,
            );
            &&& step.action == (VerifyActionModel::GetOrigin { url: cx.origin_url })
            &&& step.state == (VerificationModel::OriginAsked { backoff: 250_000_000 })
            &&& cx.mode is Json ==> step.outputs.len() == 1 && step.outputs[0] == OutputModel::Event(
                output::probe_event_model("tunnel_verifying"@, cx.origin_url),
            )
            &&& cx.mode is Text ==> step.outputs.len() == 0
        }),
        elapsed.nanos < cx.budget / 2 ==> verify_step(
            VerificationModel::OriginDue { backoff },
            cx,
            VerifyEventModel::Resumed,
            elapsed,
        ) == (VerifyStepModel {
            state: VerificationModel::OriginAsked { backoff },
            outputs: seq![],
            action: VerifyActionModel::GetOrigin { url: cx.origin_url },
        }),
        status < 500 ==> ({
            let step = verify_step(
                VerificationModel::OriginAsked { backoff },
                cx,
                VerifyEventModel::Answered { status },
                elapsed,
            );
            &&& step.state is ProxyAsked
            &&& step.action == (VerifyActionModel::GetProxy { url: cx.proxy_url, first: true })
            &&& step.outputs.len() == if cx.mode is Json {
                3int
            } else {
                1
            }
            &&& cx.mode is Json ==> step.outputs[1] == OutputModel::Event(
                output::probe_event_model("tunnel_verified"@, cx.origin_url),
            ) && step.outputs[2] == OutputModel::Event(
                output::probe_event_model("tunnel_verifying"@, cx.proxy_url),
            )
        }),
{
}

/// An origin that does not answer, or with a server error, is asked again after a
/// pause that doubles up to two seconds and does not go beyond half of the budget;
/// once that half is over, the user is warned and the proxy is asked.
pub proof fn origin_is_asked_again_within_half_the_budget(
    cx: VerifyContextModel,
    backoff: u64,
    event: VerifyEventModel,
    elapsed: ElapsedModel,
)
    requires
        event is Failed || (event matches VerifyEventModel::Answered { status } && status >= 500),
    ensures
        ({
            let step = verify_step(VerificationModel::OriginAsked { backoff }, cx, event, elapsed);
            let left = cx.budget / 2 - elapsed.nanos;
            if left > 0 {
                &&& step.action == (VerifyActionModel::Sleep {
                    nanos: if backoff < left {
                        backoff
                    } else {
                        left as u64
                    },
                })
                &&& step.state matches VerificationModel::OriginDue { backoff: longer } && longer
                    == if backoff <= 1_000_000_000 {
                    2 * backoff
                } else {
                    2_000_000_000
                }
                &&& step.outputs.len() == 0
            } else {
                &&& step.action == (VerifyActionModel::GetProxy { url: cx.proxy_url, first: true })
                &&& step.state is ProxyAsked
                &&& step.outputs.len() > 0
                &&& step.outputs[0] == OutputModel::Note(
                    "warning: origin "@ + cx.origin_url
                        + " did not respond within budget \u{2014} continuing"@,
                )
            }
        }),
{
}

/// A proxy that answers with anything but a server error is verified, which is
/// told; else the user is told what came back, and it is asked again ten seconds
/// later.
pub proof fn proxy_is_verified_by_an_answer(
    cx: VerifyContextModel,
    status: u16,
    chain: Seq<Seq<char>>,
    elapsed: ElapsedModel,
    later: ElapsedModel,
)
    requires
        chain.len() > 0,
    ensures
        ({
            let step = verify_step(
                VerificationModel::ProxyAsked,
                cx,
                VerifyEventModel::Answered { status },
                elapsed,
            );
            if status < 500 {
                &&& step.action is Finish
                &&& cx.mode is Json ==> step.outputs.len() == 2 && step.outputs[1]
                    == OutputModel::Event(
                    output::probe_event_model("tunnel_verified"@, cx.proxy_url),
                )
            } else {
                &&& step.action == (VerifyActionModel::Sleep { nanos: 10_000_000_000 })
                &&& step.state is ProxyPaused
                &&& step.outputs.len() == 1
                &&& step.outputs[0] == OutputModel::Note(
                    "  \u{25CB} waiting for "@ + "tunnel ["@ + cx.proxy_url + "] ("@ + elapsed.whole
                        + "s) ... "@ + ("HTTP "@ + numbers::decimal(status as nat)),
                )
            }
        }),
        ({
            let step = verify_step(
                VerificationModel::ProxyAsked,
                cx,
                VerifyEventModel::Failed { chain },
                elapsed,
            );
            &&& step.action == (VerifyActionModel::Sleep { nanos: 10_000_000_000 })
            &&& step.state is ProxyPaused
            &&& step.outputs.len() == 1
            &&& step.outputs[0] == OutputModel::Note(
                "  \u{25CB} waiting for "@ + "tunnel ["@ + cx.proxy_url + "] ("@ + elapsed.whole
                    + "s) ... "@ + chain[chain.len() - 1],
            )
        }),
        verify_step(VerificationModel::ProxyPaused, cx, VerifyEventModel::Resumed, later) == (
        VerifyStepModel {
            state: VerificationModel::ProxyAsked,
            outputs: seq![],
            action: VerifyActionModel::GetProxy { url: cx.proxy_url, first: false },
        }),
{
}

/// An error is about names where it, or one of its causes, speaks of one of these.
pub proof fn name_errors_are_known_by_their_words(chain: Seq<Seq<char>>, i: int)
    requires
        0 <= i < chain.len(),
    ensures
        ({
            let message = lowercased(chain[i]);
            text::has_part(message, "dns"@) || text::has_part(
                message,
                "name or service not known"@,
            ) || text::has_part(message, "nodomain"@) || text::has_part(
                message,
                "failed to lookup"@,
            ) || text::has_part(message, "no such host"@)
        }) ==> is_about_dns(chain),
        is_about_dns(chain) ==> exists|j: int|
            0 <= j < chain.len() && {
                let message = lowercased(#[trigger] chain[j]);
                ||| text::has_part(message, "dns"@)
                ||| text::has_part(message, "name or service not known"@)
                ||| text::has_part(message, "nodomain"@)
                ||| text::has_part(message, "failed to lookup"@)
                ||| text::has_part(message, "no such host"@)
            },
{
}

/// A name that could not be resolved is looked up elsewhere, and then each of its
/// addresses is asked, in order, for that host and at the port of the URL or the
/// one that its scheme implies; where none answers, the URL is asked once more.
pub proof fn addresses_are_asked_in_order(
    url: Seq<char>,
    parts: UrlPartsModel,
    host: Seq<char>,
    chain: Seq<Seq<char>>,
    addresses: Seq<Seq<char>>,
    i: int,
)
    requires
        endpoint::url_parts(url) == Some(parts),
        parts.host == Some(host),
        is_about_dns(chain),
        0 <= i <= addresses.len() < usize::MAX,
    ensures
        ({
            let port = match parts.port_or_known_default {
                Some(port) => port,
                None => 443,
            };
            let looking = DnsProbeModel::Looking { scheme: parts.scheme, host, port };
            let ask = if i < addresses.len() {
                ProbeStepModel::Next {
                    state: DnsProbeModel::Trying {
                        scheme: parts.scheme,
                        host,
                        port,
                        addresses,
                        next: (i + 1) as usize,
                    },
                    action: ProbeActionModel::GetVia {
                        url: parts.scheme + "://"@ + addresses[i] + ":"@ + numbers::decimal(
                            port as nat,
                        ) + "/"@,
                        host,
                    },
                }
            } else {
                ProbeStepModel::Next {
                    state: DnsProbeModel::Last,
                    action: ProbeActionModel::Get { url },
                }
            };
            &&& probe_step(DnsProbeModel::First, url, ProbeReplyModel::Failed { chain }) == (
            ProbeStepModel::Next { state: looking, action: ProbeActionModel::Lookup { host } })
            &&& i == 0 ==> probe_step(
                looking,
                url,
                ProbeReplyModel::Addresses { addresses },
            ) == ask
            &&& i > 0 ==> probe_step(
                DnsProbeModel::Trying {
                    scheme: parts.scheme,
                    host,
                    port,
                    addresses,
                    next: i as usize,
                },
                url,
                ProbeReplyModel::Failed { chain },
            ) == ask
            &&& probe_step(looking, url, ProbeReplyModel::Failed { chain }) == (
            ProbeStepModel::Next {
                state: DnsProbeModel::Last,
                action: ProbeActionModel::Get { url },
            })
        }),
{
}

/// Whatever is asked, an answer is the probe's answer, with its status; and the
/// error of the last request is the probe's error.
pub proof fn an_answer_is_passed_on(
    state: DnsProbeModel,
    url: Seq<char>,
    status: u16,
    chain: Seq<Seq<char>>,
)
    requires
        !(state is Looking),
    ensures
        probe_step(state, url, ProbeReplyModel::Answered { status }) == (ProbeStepModel::Answered {
            status,
        }),
        probe_step(DnsProbeModel::Last, url, ProbeReplyModel::Failed { chain }) == (
        ProbeStepModel::Failed { chain }),
{
}

/// Once half of the budget is over, the origin is not asked any more: the user is
/// warned of it, and the proxy is asked.
pub proof fn origin_is_given_up_after_half_the_budget(
    cx: VerifyContextModel,
    backoff: u64,
    elapsed: ElapsedModel,
)
    requires
        elapsed.nanos >= cx.budget / 2,
    ensures
        ({
            let due = verify_step(
                VerificationModel::OriginDue { backoff },
                cx,
                VerifyEventModel::Resumed,
                elapsed,
            );
            let warning = OutputModel::Note(
                "warning: origin "@ + cx.origin_url
                    + " did not respond within budget \u{2014} continuing"@,
            );
            &&& due.action == (VerifyActionModel::GetProxy { url: cx.proxy_url, first: true })
            &&& due.state is ProxyAsked
            &&& due.outputs.len() > 0
            &&& due.outputs[0] == warning
            &&& verify_step(
                VerificationModel::Start,
                cx,
                VerifyEventModel::Resumed,
                elapsed,
            ).action == due.action
            &&& verify_step(
                VerificationModel::Start,
                cx,
                VerifyEventModel::Resumed,
                elapsed,
            ).outputs.contains(warning)
        }),
{
    let step = verify_step(VerificationModel::Start, cx, VerifyEventModel::Resumed, elapsed);
    let n = verifying(cx.mode, cx.origin_url).len() as int;
    assert(step.outputs[n] == origin_warning(cx.origin_url));
}

/// What answered is told with the time it took, to a tenth of a second, its place and
/// its status.
pub proof fn answers_are_told_with_their_time(
    cx: VerifyContextModel,
    backoff: u64,
    status: u16,
    elapsed: ElapsedModel,
)
    requires
        status < 500,
    ensures
        verify_step(
            VerificationModel::OriginAsked { backoff },
            cx,
            VerifyEventModel::Answered { status },
            elapsed,
        ).outputs[0] == OutputModel::Note(
            "  \u{2713} "@ + "origin reachable"@ + " ("@ + elapsed.tenths + "s) ["@ + cx.origin_url
                + "]"@ + (": HTTP "@ + numbers::decimal(status as nat)),
        ),
        verify_step(
            VerificationModel::ProxyAsked,
            cx,
            VerifyEventModel::Answered { status },
            elapsed,
        ).outputs[0] == OutputModel::Note(
            "  \u{2713} "@ + "proxy responding"@ + " ("@ + elapsed.tenths + "s) ["@ + cx.proxy_url
                + "]"@ + (": HTTP "@ + numbers::decimal(status as nat)),
        ),
{
}

} // verus!
