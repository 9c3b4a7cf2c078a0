//! The progress of a tunnel: what the conditions of its resources say about
//! each checkpoint of the setup.
use vstd::prelude::*;

use crate::datum_apis::connector::{
    Connector, ConnectorModel, CONNECTOR_CONDITION_IROH_DNS_PUBLISHED, CONNECTOR_CONDITION_READY,
    CONNECTOR_REASON_DEFERRED_TO_OWNER,
};
use crate::datum_apis::http_proxy::{
    HTTPProxy, HTTPProxyModel, HTTP_PROXY_CONDITION_ACCEPTED,
    HTTP_PROXY_CONDITION_CERTIFICATES_READY, HTTP_PROXY_CONDITION_CONNECTOR_METADATA_PROGRAMMED,
    HTTP_PROXY_CONDITION_PROGRAMMED,
};
use crate::datum_apis::meta;
use crate::datum_apis::meta::{Condition, ConditionModel};
use crate::text;
use crate::tunnels::resources;

verus! {

/// One checkpoint in the setup of a tunnel. Each stands for one condition that
/// a controller reports; the order is that of a healthy setup.
#[derive(Debug, Clone, Copy, PartialEq, Eq, Structural)]
pub enum ProgressStepKind {
    /// HTTPProxy `Accepted`: the control plane accepted the resource.
    ProxyAccepted,
    /// HTTPProxy `CertificatesReady`: TLS certificates are issued for the hostname.
    CertificatesReady,
    /// Connector `Ready`: the agent is online and renews its lease.
    ConnectorReady,
    /// Connector `IrohDNSPublished`: the iroh DNS record is published. Where another
    /// connector with the same key owns it, the reason is `DeferredToOwner`.
    IrohDnsPublished,
    /// HTTPProxy `Programmed`: the edge has the route.
    ProxyProgrammed,
    /// HTTPProxy `ConnectorMetadataProgrammed`: Envoy has what it needs to dial the
    /// connector.
    ConnectorMetadataProgrammed,
}

impl DeepView for ProgressStepKind {
    type V = ProgressStepKind;

    open spec fn deep_view(&self) -> ProgressStepKind {
        *self
    }
}

/// How far a checkpoint is.
#[derive(Debug, Clone, Copy, PartialEq, Eq, Structural)]
pub enum StepStatus {
    /// No controller has reported the condition yet.
    Unknown,
    /// The condition is reported, but not as true of the current generation.
    Pending,
    /// The condition is true of the current generation.
    Ready,
}

impl DeepView for StepStatus {
    type V = StepStatus;

    open spec fn deep_view(&self) -> StepStatus {
        *self
    }
}

/// The state of one checkpoint.
#[derive(Debug, Clone, PartialEq, Eq)]
pub struct ProgressStep {
    pub kind: ProgressStepKind,
    pub status: StepStatus,
    pub reason: Option<String>,
    pub message: Option<String>,
    /// `Kind/name` of the resource behind the checkpoint, where it exists.
    pub resource: Option<String>,
}

/// The model of a [`ProgressStep`].
#[verifier::ext_equal]
pub struct ProgressStepModel {
    pub kind: ProgressStepKind,
    pub status: StepStatus,
    pub reason: Option<Seq<char>>,
    pub message: Option<Seq<char>>,
    pub resource: Option<Seq<char>>,
}

impl DeepView for ProgressStep {
    type V = ProgressStepModel;

    open spec fn deep_view(&self) -> ProgressStepModel {
        ProgressStepModel {
            kind: self.kind.deep_view(),
            status: self.status.deep_view(),
            reason: self.reason.deep_view(),
            message: self.message.deep_view(),
            resource: self.resource.deep_view(),
        }
    }
}

/// How far the setup of a tunnel is.
#[derive(Debug, Clone, PartialEq, Eq)]
pub struct TunnelProgress {
    pub hostnames: Vec<String>,
    pub steps: Vec<ProgressStep>,
}

/// The model of a [`TunnelProgress`].
#[verifier::ext_equal]
pub struct TunnelProgressModel {
    pub hostnames: Seq<Seq<char>>,
    pub steps: Seq<ProgressStepModel>,
}

impl DeepView for TunnelProgress {
    type V = TunnelProgressModel;

    open spec fn deep_view(&self) -> TunnelProgressModel {
        TunnelProgressModel {
            hostnames: self.hostnames.deep_view(),
            steps: self.steps.deep_view(),
        }
    }
}

// ---------------------------------------------------------------------------
// Checkpoints
// ---------------------------------------------------------------------------
impl ProgressStepKind {
    /// What the checkpoint is called in messages to users.
    pub open spec fn label_text(self) -> Seq<char> {
        match self {
            ProgressStepKind::ProxyAccepted => "tunnel accepted"@,
            ProgressStepKind::CertificatesReady => "TLS certificate issued"@,
            ProgressStepKind::ConnectorReady => "connector ready"@,
            ProgressStepKind::IrohDnsPublished => "iroh DNS published"@,
            ProgressStepKind::ProxyProgrammed => "route programmed"@,
            ProgressStepKind::ConnectorMetadataProgrammed => "envoy metadata propagated"@,
        }
    }

    /// Whether a condition of the Connector is behind the checkpoint; else it is
    /// one of the HTTPProxy.
    pub open spec fn is_connector_step(self) -> bool {
        self is ConnectorReady || self is IrohDnsPublished
    }

    /// The kind of the resource behind the checkpoint.
    pub open spec fn resource_kind_text(self) -> Seq<char> {
        if self.is_connector_step() {
            "Connector"@
        } else {
            "HTTPProxy"@
        }
    }

    /// The condition behind the checkpoint.
    pub open spec fn condition_text(self) -> Seq<char> {
        match self {
            ProgressStepKind::ProxyAccepted => HTTP_PROXY_CONDITION_ACCEPTED@,
            ProgressStepKind::CertificatesReady => HTTP_PROXY_CONDITION_CERTIFICATES_READY@,
            ProgressStepKind::ConnectorReady => CONNECTOR_CONDITION_READY@,
            ProgressStepKind::IrohDnsPublished => CONNECTOR_CONDITION_IROH_DNS_PUBLISHED@,
            ProgressStepKind::ProxyProgrammed => HTTP_PROXY_CONDITION_PROGRAMMED@,
            ProgressStepKind::ConnectorMetadataProgrammed =>
                HTTP_PROXY_CONDITION_CONNECTOR_METADATA_PROGRAMMED@,
        }
    }

    /// What the checkpoint is called in messages to users.
    pub fn label(&self) -> (r: &'static str)
        ensures
            r@ == self.label_text(),
    {
        match self {
            ProgressStepKind::ProxyAccepted => "tunnel accepted",
            ProgressStepKind::CertificatesReady => "TLS certificate issued",
            ProgressStepKind::ConnectorReady => "connector ready",
            ProgressStepKind::IrohDnsPublished => "iroh DNS published",
            ProgressStepKind::ProxyProgrammed => "route programmed",
            ProgressStepKind::ConnectorMetadataProgrammed => "envoy metadata propagated",
        }
    }

    /// All checkpoints, in the order of a healthy setup.
    pub fn all() -> (r: [ProgressStepKind; 6])
        ensures
            r@ == all_kinds(),
    {
        let r = [
            ProgressStepKind::ProxyAccepted,
            ProgressStepKind::CertificatesReady,
            ProgressStepKind::ConnectorReady,
            ProgressStepKind::IrohDnsPublished,
            ProgressStepKind::ProxyProgrammed,
            ProgressStepKind::ConnectorMetadataProgrammed,
        ];
        assert(r@ =~= all_kinds());
        r
    }

    /// The kind of the resource behind the checkpoint.
    pub fn resource_kind(&self) -> (r: &'static str)
        ensures
            r@ == self.resource_kind_text(),
    {
        match self {
            ProgressStepKind::ConnectorReady | ProgressStepKind::IrohDnsPublished => "Connector",
            ProgressStepKind::ProxyAccepted
            | ProgressStepKind::CertificatesReady
            | ProgressStepKind::ProxyProgrammed
            | ProgressStepKind::ConnectorMetadataProgrammed => "HTTPProxy",
        }
    }

    fn condition_name(&self) -> (r: &'static str)
        ensures
            r@ == self.condition_text(),
    {
        match self {
            ProgressStepKind::ProxyAccepted => HTTP_PROXY_CONDITION_ACCEPTED,
            ProgressStepKind::CertificatesReady => HTTP_PROXY_CONDITION_CERTIFICATES_READY,
            ProgressStepKind::ConnectorReady => CONNECTOR_CONDITION_READY,
            ProgressStepKind::IrohDnsPublished => CONNECTOR_CONDITION_IROH_DNS_PUBLISHED,
            ProgressStepKind::ProxyProgrammed => HTTP_PROXY_CONDITION_PROGRAMMED,
            ProgressStepKind::ConnectorMetadataProgrammed => {
                HTTP_PROXY_CONDITION_CONNECTOR_METADATA_PROGRAMMED
            },
        }
    }
}

/// All checkpoints, in the order of a healthy setup.
pub open spec fn all_kinds() -> Seq<ProgressStepKind> {
    seq![
        ProgressStepKind::ProxyAccepted,
        ProgressStepKind::CertificatesReady,
        ProgressStepKind::ConnectorReady,
        ProgressStepKind::IrohDnsPublished,
        ProgressStepKind::ProxyProgrammed,
        ProgressStepKind::ConnectorMetadataProgrammed,
    ]
}

impl ProgressStepModel {
    /// Whether the checkpoint fails for good: another connector with the same
    /// key owns the DNS record, and waiting does not change that.
    pub open spec fn is_terminal(self) -> bool {
        &&& self.kind is IrohDnsPublished
        &&& self.status is Pending
        &&& self.reason == Some(CONNECTOR_REASON_DEFERRED_TO_OWNER@)
    }
}

impl ProgressStep {
    /// Whether the checkpoint fails for good.
    pub fn is_terminal_failure(&self) -> (r: bool)
        ensures
            r == self.deep_view().is_terminal(),
    {
        match (self.kind, self.status, &self.reason) {
            (ProgressStepKind::IrohDnsPublished, StepStatus::Pending, Some(reason)) =>
                text::text_eq(reason, CONNECTOR_REASON_DEFERRED_TO_OWNER),
            _ => false,
        }
    }
}

// ---------------------------------------------------------------------------
// From resources to progress
// ---------------------------------------------------------------------------
/// Whether a condition is true of the resource in its current generation. A
/// generation that is not given counts as 0.
pub open spec fn holds_now(condition: ConditionModel, generation: Option<i64>) -> bool {
    let current = generation.unwrap_or(0);
    let observed = condition.observed_generation.unwrap_or(0);
    condition.status == "True"@ && observed >= current
}

/// How far the checkpoint behind this condition is.
pub open spec fn status_of(condition: Option<ConditionModel>, generation: Option<i64>) -> StepStatus {
    match condition {
        Some(c) => if holds_now(c, generation) {
            StepStatus::Ready
        } else {
            StepStatus::Pending
        },
        None => StepStatus::Unknown,
    }
}

/// The state of a checkpoint behind the condition `condition` of a resource.
pub open spec fn step_from(
    kind: ProgressStepKind,
    condition: Option<ConditionModel>,
    generation: Option<i64>,
    resource: Option<Seq<char>>,
) -> ProgressStepModel {
    ProgressStepModel {
        kind,
        status: status_of(condition, generation),
        reason: match condition {
            Some(c) => Some(c.reason),
            None => None,
        },
        message: match condition {
            Some(c) => Some(c.message),
            None => None,
        },
        resource,
    }
}

/// `Kind/name` of a resource that has a name.
pub open spec fn resource_label(kind: Seq<char>, name: Option<Seq<char>>) -> Option<Seq<char>> {
    match name {
        Some(name) => Some(kind + "/"@ + name),
        None => None,
    }
}

/// The state of the checkpoint `kind` of a tunnel with these resources.
pub open spec fn step_of(
    kind: ProgressStepKind,
    proxy: HTTPProxyModel,
    connector: Option<ConnectorModel>,
) -> ProgressStepModel {
    if kind.is_connector_step() {
        match connector {
            Some(c) => step_from(
                kind,
                meta::condition_of(resources::connector_conditions(c), kind.condition_text()),
                c.metadata.generation,
                resource_label("Connector"@, c.metadata.name),
            ),
            None => step_from(kind, None, None, None),
        }
    } else {
        step_from(
            kind,
            meta::condition_of(resources::proxy_conditions(proxy), kind.condition_text()),
            proxy.metadata.generation,
            resource_label("HTTPProxy"@, proxy.metadata.name),
        )
    }
}

/// The progress of a tunnel with these resources: its hostnames and the state
/// of each checkpoint, in order.
pub open spec fn progress_of(proxy: HTTPProxyModel, connector: Option<ConnectorModel>) -> TunnelProgressModel {
    TunnelProgressModel {
        hostnames: resources::hostnames_of(proxy),
        steps: Seq::new(6, |i: int| step_of(all_kinds()[i], proxy, connector)),
    }
}

fn make_step(
    kind: ProgressStepKind,
    conditions: Option<&Vec<Condition>>,
    generation: Option<i64>,
    resource: Option<String>,
) -> (r: ProgressStep)
    ensures
        r.deep_view() == step_from(
            kind,
            meta::condition_of(conditions.deep_view(), kind.condition_text()),
            generation,
            resource.deep_view(),
        ),
{
    match meta::find_condition(conditions, kind.condition_name()) {
        Some(condition) => {
            let observed: i64 = match condition.observed_generation {
                Some(observed) => observed,
                None => 0,
            };
            let current: i64 = match generation {
                Some(current) => current,
                None => 0,
            };
            let status = if text::text_eq(&condition.status, "True") && observed >= current {
                StepStatus::Ready
            } else {
                StepStatus::Pending
            };
            ProgressStep {
                kind,
                status,
                reason: Some(condition.reason.clone()),
                message: Some(condition.message.clone()),
                resource,
            }
        },
        None => ProgressStep {
            kind,
            status: StepStatus::Unknown,
            reason: None,
            message: None,
            resource,
        },
    }
}

fn label_resource(kind: &str, name: &Option<String>) -> (r: Option<String>)
    ensures
        r.deep_view() == resource_label(kind@, name.deep_view()),
{
    match name {
        Some(name) => Some(text::concat3(kind, "/", name)),
        None => None,
    }
}

fn read_step(kind: ProgressStepKind, proxy: &HTTPProxy, connector: Option<&Connector>) -> (r:
    ProgressStep)
    ensures
        r.deep_view() == step_of(kind, proxy.deep_view(), connector.deep_view()),
{
    match kind {
        ProgressStepKind::ConnectorReady | ProgressStepKind::IrohDnsPublished => match connector {
            Some(c) => {
                let conditions = match &c.status {
                    Some(status) => status.conditions.as_ref(),
                    None => None,
                };
                let resource = label_resource("Connector", &c.metadata.name);
                make_step(kind, conditions, c.metadata.generation, resource)
            },
            None => make_step(kind, None, None, None),
        },
        _ => {
            let conditions = match &proxy.status {
                Some(status) => status.conditions.as_ref(),
                None => None,
            };
            let resource = label_resource("HTTPProxy", &proxy.metadata.name);
            make_step(kind, conditions, proxy.metadata.generation, resource)
        },
    }
}

impl TunnelProgressModel {
    pub open spec fn is_all_ready(self) -> bool {
        forall|i: int| 0 <= i < self.steps.len() ==> (#[trigger] self.steps[i]).status is Ready
    }

    /// The first step from index `i` on that is a terminal failure.
    pub open spec fn terminal_from(self, i: int) -> Option<ProgressStepModel>
        decreases self.steps.len() - i,
    {
        if i < 0 || i >= self.steps.len() {
            None
        } else if self.steps[i].is_terminal() {
            Some(self.steps[i])
        } else {
            self.terminal_from(i + 1)
        }
    }

    /// The first step from index `i` on of the kind `kind`.
    pub open spec fn step_from(self, kind: ProgressStepKind, i: int) -> Option<ProgressStepModel>
        decreases self.steps.len() - i,
    {
        if i < 0 || i >= self.steps.len() {
            None
        } else if self.steps[i].kind == kind {
            Some(self.steps[i])
        } else {
            self.step_from(kind, i + 1)
        }
    }
}

impl TunnelProgress {
    /// The progress of a tunnel with these resources.
    pub fn from_resources(proxy: &HTTPProxy, connector: Option<&Connector>) -> (r: Self)
        ensures
            r.deep_view() == progress_of(proxy.deep_view(), connector.deep_view()),
    {
        let kinds = ProgressStepKind::all();
        let mut steps: Vec<ProgressStep> = Vec::new();
        let mut i: usize = 0;
        while i < 6
            invariant
                i <= 6,
                kinds@ == all_kinds(),
                steps@.len() == i,
                forall|j: int|
                    0 <= j < i ==> (#[trigger] steps@[j]).deep_view() == step_of(
                        all_kinds()[j],
                        proxy.deep_view(),
                        connector.deep_view(),
                    ),
            decreases 6 - i,
        {
            let step = read_step(kinds[i], proxy, connector);
            steps.push(step);
            i = i + 1;
        }
        let r = TunnelProgress { hostnames: resources::proxy_hostnames(proxy), steps };
        assert(r.deep_view().steps =~= progress_of(
            proxy.deep_view(),
            connector.deep_view(),
        ).steps);
        r
    }

    /// Whether every checkpoint is reached.
    pub fn all_ready(&self) -> (r: bool)
        ensures
            r == self.deep_view().is_all_ready(),
    {
        let ghost steps = self.deep_view().steps;
        let mut i: usize = 0;
        while i < self.steps.len()
            invariant
                i <= self.steps@.len(),
                steps == self.deep_view().steps,
                forall|j: int| 0 <= j < i ==> (#[trigger] steps[j]).status is Ready,
            decreases self.steps@.len() - i,
        {
            if self.steps[i].status != StepStatus::Ready {
                assert(!(steps[i as int].status is Ready));
                return false;
            }
            i = i + 1;
        }
        true
    }

    /// The state of the checkpoint `kind`.
    pub fn step(&self, kind: ProgressStepKind) -> (r: Option<&ProgressStep>)
        ensures
            r.deep_view() == self.deep_view().step_from(kind, 0),
    {
        let mut i: usize = 0;
        while i < self.steps.len()
            invariant
                i <= self.steps@.len(),
                self.deep_view().step_from(kind, i as int) == self.deep_view().step_from(kind, 0),
            decreases self.steps@.len() - i,
        {
            if self.steps[i].kind == kind {
                return Some(&self.steps[i]);
            }
            i = i + 1;
        }
        None
    }

    /// The first checkpoint that fails for good.
    pub fn terminal_failure(&self) -> (r: Option<&ProgressStep>)
        ensures
            r.deep_view() == self.deep_view().terminal_from(0),
    {
        let mut i: usize = 0;
        while i < self.steps.len()
            invariant
                i <= self.steps@.len(),
                self.deep_view().terminal_from(i as int) == self.deep_view().terminal_from(0),
            decreases self.steps@.len() - i,
        {
            if self.steps[i].is_terminal_failure() {
                return Some(&self.steps[i]);
            }
            i = i + 1;
        }
        None
    }
}

// ---------------------------------------------------------------------------
// What the progress of a tunnel means
// ---------------------------------------------------------------------------
/// The steps of a tunnel are the checkpoints in order, each once, and each
/// names a resource of the kind behind it or none.
pub proof fn progress_has_every_checkpoint_once(
    proxy: HTTPProxyModel,
    connector: Option<ConnectorModel>,
    kind: ProgressStepKind,
)
    ensures
        progress_of(proxy, connector).steps.len() == 6,
        forall|i: int|
            0 <= i < 6 ==> (#[trigger] progress_of(proxy, connector).steps[i]).kind
                == all_kinds()[i],
        progress_of(proxy, connector).step_from(kind, 0) == Some(step_of(kind, proxy, connector)),
        step_of(kind, proxy, connector).resource matches Some(label) ==> (
        kind.resource_kind_text() + "/"@).is_prefix_of(label),
{
    let p = progress_of(proxy, connector);
    reveal_with_fuel(TunnelProgressModel::step_from, 7);
    assert(p.steps[0].kind is ProxyAccepted);
    assert(p.steps[1].kind is CertificatesReady);
    assert(p.steps[2].kind is ConnectorReady);
    assert(p.steps[3].kind is IrohDnsPublished);
    assert(p.steps[4].kind is ProxyProgrammed);
    assert(p.steps[5].kind is ConnectorMetadataProgrammed);
    let s = step_of(kind, proxy, connector);
    let name = if kind.is_connector_step() {
        connector->0.metadata.name
    } else {
        proxy.metadata.name
    };
    if s.resource is Some {
        let head = kind.resource_kind_text() + "/"@;
        assert(s.resource->0 == head + name->0);
        assert((head + name->0).subrange(0, head.len() as int) =~= head);
    }
}

/// A checkpoint is ready exactly when its condition is true of the current
/// generation of its resource: what a controller said of an older generation
/// never counts.
pub proof fn ready_means_true_of_current_generation(
    kind: ProgressStepKind,
    condition: Option<ConditionModel>,
    generation: Option<i64>,
    resource: Option<Seq<char>>,
)
    ensures
        step_from(kind, condition, generation, resource).status is Ready <==> (condition matches Some(
            c,
        ) && c.status == "True"@ && c.observed_generation.unwrap_or(0) >= generation.unwrap_or(0)),
        step_from(kind, condition, generation, resource).status is Unknown <==> condition is None,
{
}

/// While the controllers have not yet looked at the current generation of a
/// tunnel's HTTPProxy, no checkpoint behind it is ready.
pub proof fn stale_proxy_is_never_ready(
    proxy: HTTPProxyModel,
    connector: Option<ConnectorModel>,
    kind: ProgressStepKind,
)
    requires
        !kind.is_connector_step(),
        resources::proxy_conditions(proxy) matches Some(conditions) ==> forall|i: int|
            0 <= i < conditions.len() ==> (
            #[trigger] conditions[i]).observed_generation.unwrap_or(0)
                < proxy.metadata.generation.unwrap_or(0),
    ensures
        !(step_of(kind, proxy, connector).status is Ready),
        !progress_of(proxy, connector).is_all_ready(),
{
    if let Some(conditions) = resources::proxy_conditions(proxy) {
        lemma_found_condition_is_one(conditions, kind.condition_text(), 0);
    }
    let p = progress_of(proxy, connector);
    let i = if kind is ProxyAccepted {
        0
    } else if kind is CertificatesReady {
        1
    } else if kind is ProxyProgrammed {
        4
    } else {
        5int
    };
    assert(p.steps[i] == step_of(kind, proxy, connector));
}

proof fn lemma_found_condition_is_one(conditions: Seq<ConditionModel>, kind: Seq<char>, i: int)
    ensures
        meta::find_condition_from(conditions, kind, i) matches Some(c) ==> exists|j: int|
            0 <= j < conditions.len() && #[trigger] conditions[j] == c,
    decreases conditions.len() - i,
{
    if 0 <= i < conditions.len() {
        if conditions[i].type_ != kind {
            lemma_found_condition_is_one(conditions, kind, i + 1);
        }
    }
}

/// A tunnel with a checkpoint that fails for good is never ready as a whole.
pub proof fn terminal_failure_excludes_ready(progress: TunnelProgressModel)
    ensures
        progress.terminal_from(0) is Some ==> !progress.is_all_ready(),
{
    lemma_terminal_is_a_step(progress, 0);
}

proof fn lemma_terminal_is_a_step(progress: TunnelProgressModel, i: int)
    requires
        0 <= i,
    ensures
        progress.terminal_from(i) matches Some(step) ==> step.is_terminal() && exists|j: int|
            0 <= j < progress.steps.len() && #[trigger] progress.steps[j] == step,
    decreases progress.steps.len() - i,
{
    if i < progress.steps.len() && !progress.steps[i].is_terminal() {
        lemma_terminal_is_a_step(progress, i + 1);
    }
}

} // verus!
