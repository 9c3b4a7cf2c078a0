//! What the resources of a tunnel mean: which requests its rules take, what its
//! conditions say, and what is offered and told on its behalf.
use vstd::prelude::*;

use crate::datum_apis::connector::{
    ConnectorConnectionType, ConnectorModel, PublicKeyDiscoveryMode,
};
use crate::datum_apis::connector_advertisement::{
    ConnectorAdvertisementModel, ConnectorAdvertisementSpecModel, Protocol,
};
use crate::datum_apis::http_proxy::{
    HTTPProxyModel, HTTPProxyRuleBackendModel, HTTPProxyRuleModel, HTTPRouteMatchModel, HTTPRouteRulesFiltersType,
    HTTPRouteRulesMatchesHeadersType, HTTPRouteRulesMatchesPathType,
};
use crate::datum_apis::meta;
use crate::datum_apis::meta::{ConditionModel, ObjectMetaModel};
use crate::datum_apis::traffic_protection_policy::{
    TrafficProtectionPolicyMode, TrafficProtectionPolicyRuleSetType,
};
use crate::endpoint;
use crate::endpoint::ParsedTargetModel;
use crate::numbers;
use crate::text;
use crate::tunnels::connector_search;
use crate::tunnels::listing;
use crate::tunnels::listing::TunnelSummaryModel;
use crate::tunnels::progress;
use crate::tunnels::progress::{ProgressStepModel, StepStatus, TunnelProgressModel};
use crate::tunnels::resources;
use crate::tunnels::resources::EndpointInfoModel;

verus! {

// ---------------------------------------------------------------------------
// Conditions
// ---------------------------------------------------------------------------
/// Whether the condition at index `i` is the first with the type `kind`.
pub open spec fn comes_first(conditions: Seq<ConditionModel>, kind: Seq<char>, i: int) -> bool {
    &&& 0 <= i < conditions.len()
    &&& conditions[i].type_ == kind
    &&& forall|j: int| 0 <= j < i ==> (#[trigger] conditions[j]).type_ != kind
}

/// Whether `condition` is what the conditions say first about `kind`; nothing
/// where none of them is about it.
pub open spec fn is_said(
    conditions: Option<Seq<ConditionModel>>,
    kind: Seq<char>,
    condition: Option<ConditionModel>,
) -> bool {
    match (conditions, condition) {
        (Some(conditions), Some(condition)) => exists|i: int| #[trigger]
            comes_first(conditions, kind, i) && conditions[i] == condition,
        (Some(conditions), None) => forall|j: int|
            0 <= j < conditions.len() ==> (#[trigger] conditions[j]).type_ != kind,
        (None, Some(_)) => false,
        (None, None) => true,
    }
}

/// Whether the first condition about `kind` has the status `True`.
pub open spec fn says_true(conditions: Option<Seq<ConditionModel>>, kind: Seq<char>) -> bool {
    conditions matches Some(conditions) && exists|i: int| #[trigger]
        comes_first(conditions, kind, i) && conditions[i].status == "True"@
}

/// What the status of an HTTPProxy reports.
pub open spec fn on_proxy(proxy: HTTPProxyModel) -> Option<Seq<ConditionModel>> {
    match proxy.status {
        Some(status) => status.conditions,
        None => None,
    }
}

/// What the status of a Connector reports.
pub open spec fn on_connector(connector: Option<ConnectorModel>) -> Option<Seq<ConditionModel>> {
    match connector {
        Some(connector) => match connector.status {
            Some(status) => status.conditions,
            None => None,
        },
        None => None,
    }
}

proof fn lemma_find_condition(conditions: Seq<ConditionModel>, kind: Seq<char>, from: int)
    requires
        0 <= from <= conditions.len(),
        forall|j: int| 0 <= j < from ==> (#[trigger] conditions[j]).type_ != kind,
    ensures
        is_said(
            Some(conditions),
            kind,
            meta::find_condition_from(conditions, kind, from),
        ),
    decreases conditions.len() - from,
{
    if from < conditions.len() {
        if conditions[from].type_ == kind {
            assert(comes_first(conditions, kind, from));
        } else {
            lemma_find_condition(conditions, kind, from + 1);
        }
    }
}

proof fn lemma_comes_first_once(conditions: Seq<ConditionModel>, kind: Seq<char>, i: int, j: int)
    requires
        comes_first(conditions, kind, i),
        comes_first(conditions, kind, j),
    ensures
        i == j,
{
    if i < j {
        assert(conditions[i].type_ != kind);
    } else if j < i {
        assert(conditions[j].type_ != kind);
    }
}

/// The condition that is looked up is the first with the type that is asked for,
/// and it counts as true exactly when its status is `True`.
pub proof fn first_condition_counts(conditions: Option<Seq<ConditionModel>>, kind: Seq<char>)
    ensures
        is_said(conditions, kind, meta::condition_of(conditions, kind)),
        meta::is_true(conditions, kind) <==> says_true(conditions, kind),
{
    if let Some(list) = conditions {
        lemma_find_condition(list, kind, 0);
        if says_true(conditions, kind) {
            let i = choose|i: int| #[trigger]
                comes_first(list, kind, i) && list[i].status == "True"@;
            let found = meta::condition_of(conditions, kind);
            assert(found is Some) by {
                if found is None {
                    assert(list[i].type_ != kind);
                }
            }
            let k = choose|k: int| #[trigger] comes_first(list, kind, k) && list[k] == found->0;
            lemma_comes_first_once(list, kind, i, k);
        }
        if meta::is_true(conditions, kind) {
            let found = meta::condition_of(conditions, kind)->0;
            let k = choose|k: int| #[trigger] comes_first(list, kind, k) && list[k] == found;
            assert(comes_first(list, kind, k) && list[k].status == "True"@);
        }
    }
}

// ---------------------------------------------------------------------------
// Annotations
// ---------------------------------------------------------------------------
/// Whether the annotation at index `i` is the first under `key`.
pub open spec fn key_comes_first(
    annotations: Seq<(Seq<char>, Seq<char>)>,
    key: Seq<char>,
    i: int,
) -> bool {
    &&& 0 <= i < annotations.len()
    &&& annotations[i].0 == key
    &&& forall|j: int| 0 <= j < i ==> (#[trigger] annotations[j]).0 != key
}

/// Whether `value` is annotated under `key`; nothing where no annotation is.
pub open spec fn is_annotated(
    metadata: ObjectMetaModel,
    key: Seq<char>,
    value: Option<Seq<char>>,
) -> bool {
    match (metadata.annotations, value) {
        (Some(annotations), Some(value)) => exists|i: int| #[trigger]
            key_comes_first(annotations, key, i) && annotations[i].1 == value,
        (Some(annotations), None) => forall|j: int|
            0 <= j < annotations.len() ==> (#[trigger] annotations[j]).0 != key,
        (None, Some(_)) => false,
        (None, None) => true,
    }
}

proof fn lemma_lookup(annotations: Seq<(Seq<char>, Seq<char>)>, key: Seq<char>, from: int)
    requires
        0 <= from <= annotations.len(),
        forall|j: int| 0 <= j < from ==> (#[trigger] annotations[j]).0 != key,
    ensures
        match meta::lookup_from(annotations, key, from) {
            Some(value) => exists|i: int| #[trigger]
                key_comes_first(annotations, key, i) && annotations[i].1 == value,
            None => forall|j: int|
                0 <= j < annotations.len() ==> (#[trigger] annotations[j]).0 != key,
        },
    decreases annotations.len() - from,
{
    if from < annotations.len() {
        if annotations[from].0 == key {
            assert(key_comes_first(annotations, key, from));
        } else {
            lemma_lookup(annotations, key, from + 1);
        }
    }
}

/// The annotation that is looked up is the first under the key.
pub proof fn annotation_is_looked_up(metadata: ObjectMetaModel, key: Seq<char>)
    ensures
        is_annotated(metadata, key, metadata.annotation(key)),
{
    if let Some(annotations) = metadata.annotations {
        lemma_lookup(annotations, key, 0);
    }
}

// ---------------------------------------------------------------------------
// Summaries
// ---------------------------------------------------------------------------
/// Whether `hostnames` are those of the tunnel behind `proxy`: those that its
/// status reports, or else those that its desired state asks for, or else none.
pub open spec fn are_hostnames(proxy: HTTPProxyModel, hostnames: Seq<Seq<char>>) -> bool {
    if proxy.status matches Some(status) && status.hostnames is Some {
        proxy.status->0.hostnames == Some(hostnames)
    } else if proxy.spec.hostnames is Some {
        proxy.spec.hostnames == Some(hostnames)
    } else {
        hostnames.len() == 0
    }
}

/// Whether a summary shows the hostnames of `proxy` and what its conditions
/// `Accepted` and `Programmed` say.
pub open spec fn shows_status(summary: TunnelSummaryModel, proxy: HTTPProxyModel) -> bool {
    &&& are_hostnames(proxy, summary.hostnames)
    &&& summary.accepted <==> says_true(on_proxy(proxy), "Accepted"@)
    &&& summary.programmed <==> says_true(on_proxy(proxy), "Programmed"@)
}

/// Whether the rule at index `i` is the first with a backend.
pub open spec fn first_with_backend(rules: Seq<HTTPProxyRuleModel>, i: int) -> bool {
    &&& 0 <= i < rules.len()
    &&& rules[i].backends matches Some(backends) && backends.len() > 0
    &&& forall|j: int|
        0 <= j < i ==> ((#[trigger] rules[j]).backends matches Some(backends) ==> backends.len()
            == 0)
}

/// Whether `to` is the endpoint of the first rule with a backend, in normal form,
/// or nothing where no rule has one.
pub open spec fn leads_to(rules: Seq<HTTPProxyRuleModel>, to: Seq<char>) -> bool {
    ||| exists|i: int| #[trigger]
        first_with_backend(rules, i) && to == endpoint::normalized(
            rules[i].backends->0[0].endpoint,
        )
    ||| to.len() == 0 && forall|j: int|
        0 <= j < rules.len() ==> ((#[trigger] rules[j]).backends matches Some(backends)
            ==> backends.len() == 0)
}

/// Whether `label` is the display name of the resource, or else `id`.
pub open spec fn is_labelled(metadata: ObjectMetaModel, id: Seq<char>, label: Seq<char>) -> bool {
    ||| is_annotated(metadata, "app.kubernetes.io/name"@, Some(label))
    ||| is_annotated(metadata, "app.kubernetes.io/name"@, None) && label == id
}

/// Whether one of the advertisements has the name `id`.
pub open spec fn has_advertisement(ads: Seq<ConnectorAdvertisementModel>, id: Seq<char>) -> bool {
    exists|i: int| 0 <= i < ads.len() && (#[trigger] ads[i]).metadata.name == Some(id)
}

/// Whether some backend of some rule of the proxy names the connector.
pub open spec fn goes_through(proxy: HTTPProxyModel, connector: Seq<char>) -> bool {
    exists|i: int, j: int|
        {
            &&& 0 <= i < proxy.spec.rules.len()
            &&& proxy.spec.rules[i].backends is Some
            &&& 0 <= j < proxy.spec.rules[i].backends->0.len()
            &&& (#[trigger] proxy.spec.rules[i].backends->0[j]).connector is Some
            &&& proxy.spec.rules[i].backends->0[j].connector->0.name == connector
        }
}

/// Whether a summary describes the tunnel behind `proxy`.
pub open spec fn describes(
    summary: TunnelSummaryModel,
    proxy: HTTPProxyModel,
    ads: Seq<ConnectorAdvertisementModel>,
) -> bool {
    &&& proxy.metadata.name == Some(summary.id)
    &&& is_labelled(proxy.metadata, summary.id, summary.label)
    &&& leads_to(proxy.spec.rules, summary.endpoint)
    &&& summary.enabled <==> has_advertisement(ads, summary.id)
    &&& shows_status(summary, proxy)
}

/// A summary has the ID, label, endpoint and switch that it is given, the
/// hostnames of the HTTPProxy, and says that the tunnel is accepted, or
/// programmed, exactly when the first condition of that type is true.
pub proof fn summary_shows_the_proxy(
    proxy: HTTPProxyModel,
    id: Seq<char>,
    label: Seq<char>,
    to: Seq<char>,
    enabled: bool,
)
    ensures
        ({
            let summary = listing::summary_with(proxy, id, label, to, enabled);
            &&& summary.id == id
            &&& summary.label == label
            &&& summary.endpoint == to
            &&& summary.enabled == enabled
            &&& shows_status(summary, proxy)
        }),
{
    first_condition_counts(on_proxy(proxy), "Accepted"@);
    first_condition_counts(on_proxy(proxy), "Programmed"@);
}

proof fn lemma_endpoint_in_rules(rules: Seq<HTTPProxyRuleModel>, from: int)
    requires
        0 <= from <= rules.len(),
        forall|j: int|
            0 <= j < from ==> ((#[trigger] rules[j]).backends matches Some(backends)
                ==> backends.len() == 0),
    ensures
        match resources::endpoint_in_rules(rules, from) {
            Some(to) => exists|i: int| #[trigger]
                first_with_backend(rules, i) && to == rules[i].backends->0[0].endpoint,
            None => forall|j: int|
                0 <= j < rules.len() ==> ((#[trigger] rules[j]).backends matches Some(backends)
                    ==> backends.len() == 0),
        },
    decreases rules.len() - from,
{
    if from < rules.len() {
        if rules[from].backends matches Some(backends) && backends.len() > 0 {
            assert(first_with_backend(rules, from));
        } else {
            lemma_endpoint_in_rules(rules, from + 1);
        }
    }
}

/// The endpoint and the label of a tunnel are those of its HTTPProxy.
pub proof fn label_and_endpoint_are_those_of_the_proxy(proxy: HTTPProxyModel, id: Seq<char>)
    ensures
        is_labelled(proxy.metadata, id, listing::label_of(proxy, id)),
        leads_to(proxy.spec.rules, listing::endpoint_of(proxy)),
{
    annotation_is_looked_up(proxy.metadata, "app.kubernetes.io/name"@);
    lemma_endpoint_in_rules(proxy.spec.rules, 0);
    match resources::endpoint_in_rules(proxy.spec.rules, 0) {
        Some(to) => {
            let i = choose|i: int| #[trigger]
                first_with_backend(proxy.spec.rules, i) && to
                    == proxy.spec.rules[i].backends->0[0].endpoint;
            assert(first_with_backend(proxy.spec.rules, i));
        },
        None => {
            assert(text::trimmed(Seq::<char>::empty()).len() == 0);
        },
    }
}

/// A proxy goes through a connector exactly when one of its backends names it.
pub proof fn any_backend_counts(proxy: HTTPProxyModel, connector: Seq<char>)
    ensures
        resources::uses_connector(proxy, connector) <==> goes_through(proxy, connector),
{
    let rules = proxy.spec.rules;
    if resources::uses_connector(proxy, connector) {
        let i = choose|i: int|
            0 <= i < rules.len() && resources::rule_uses(#[trigger] rules[i], connector);
        let backends = rules[i].backends->0;
        let j = choose|j: int|
            0 <= j < backends.len() && resources::backend_uses(#[trigger] backends[j], connector);
        assert(proxy.spec.rules[i].backends->0[j].connector is Some);
    }
    if goes_through(proxy, connector) {
        let (i, j) = choose|i: int, j: int|
            {
                &&& 0 <= i < proxy.spec.rules.len()
                &&& proxy.spec.rules[i].backends is Some
                &&& 0 <= j < proxy.spec.rules[i].backends->0.len()
                &&& (#[trigger] proxy.spec.rules[i].backends->0[j]).connector is Some
                &&& proxy.spec.rules[i].backends->0[j].connector->0.name == connector
            };
        let backends = rules[i].backends->0;
        assert(resources::backend_uses(backends[j], connector));
        assert(resources::rule_uses(rules[i], connector));
    }
}

/// Whether a summary describes one of the HTTPProxies, which goes through the
/// connector.
pub open spec fn describes_one(
    summary: TunnelSummaryModel,
    proxies: Seq<HTTPProxyModel>,
    connector: Seq<char>,
    ads: Seq<ConnectorAdvertisementModel>,
) -> bool {
    exists|i: int|
        0 <= i < proxies.len() && goes_through(#[trigger] proxies[i], connector) && describes(
            summary,
            proxies[i],
            ads,
        )
}

/// Whether one of the summaries describes the HTTPProxy.
pub open spec fn is_described(
    proxy: HTTPProxyModel,
    summaries: Seq<TunnelSummaryModel>,
    ads: Seq<ConnectorAdvertisementModel>,
) -> bool {
    exists|k: int| 0 <= k < summaries.len() && describes(#[trigger] summaries[k], proxy, ads)
}

proof fn lemma_tunnel_of_describes(
    proxy: HTTPProxyModel,
    connector: Seq<char>,
    ads: Seq<ConnectorAdvertisementModel>,
)
    ensures
        match listing::tunnel_of(proxy, connector, ads) {
            Some(summary) => goes_through(proxy, connector) && describes(summary, proxy, ads),
            None => proxy.metadata.name is None || !goes_through(proxy, connector),
        },
{
    any_backend_counts(proxy, connector);
    if let Some(id) = proxy.metadata.name {
        label_and_endpoint_are_those_of_the_proxy(proxy, id);
        summary_shows_the_proxy(
            proxy,
            id,
            listing::label_of(proxy, id),
            listing::endpoint_of(proxy),
            listing::is_advertised(ads, id),
        );
    }
}

/// Every tunnel that is listed describes an HTTPProxy that goes through the
/// connector, and every such HTTPProxy with a name is listed.
pub proof fn listed_tunnels_describe_their_proxies(
    proxies: Seq<HTTPProxyModel>,
    connector: Seq<char>,
    ads: Seq<ConnectorAdvertisementModel>,
)
    ensures
        forall|k: int|
            0 <= k < listing::tunnels_of(proxies, connector, ads).len() ==> describes_one(
                #[trigger] listing::tunnels_of(proxies, connector, ads)[k],
                proxies,
                connector,
                ads,
            ),
        forall|i: int|
            0 <= i < proxies.len() && (#[trigger] proxies[i]).metadata.name is Some
                && goes_through(proxies[i], connector) ==> is_described(
                proxies[i],
                listing::tunnels_of(proxies, connector, ads),
                ads,
            ),
{
    let all = listing::tunnels_of(proxies, connector, ads);
    assert forall|k: int| 0 <= k < all.len() implies describes_one(
        #[trigger] all[k],
        proxies,
        connector,
        ads,
    ) by {
        assert(all.contains(all[k]));
        listing::lemma_tunnels_of_contains(proxies, connector, ads, all[k]);
        let i = choose|i: int|
            0 <= i < proxies.len() && listing::tunnel_of(#[trigger] proxies[i], connector, ads)
                == Some(all[k]);
        lemma_tunnel_of_describes(proxies[i], connector, ads);
    }
    assert forall|i: int|
        0 <= i < proxies.len() && (#[trigger] proxies[i]).metadata.name is Some && goes_through(
            proxies[i],
            connector,
        ) implies is_described(proxies[i], all, ads) by {
        lemma_tunnel_of_describes(proxies[i], connector, ads);
        let t = listing::tunnel_of(proxies[i], connector, ads)->0;
        assert(listing::tunnel_of(proxies[i], connector, ads) == Some(t));
        listing::lemma_tunnels_of_contains(proxies, connector, ads, t);
        assert(all.contains(t));
        let k = choose|k: int| 0 <= k < all.len() && all[k] == t;
        assert(describes(all[k], proxies[i], ads));
    }
}

// ---------------------------------------------------------------------------
// Checkpoints
// ---------------------------------------------------------------------------
/// Whether a step says what the first condition of the type `kind` says of a
/// resource in this generation: it is unknown where there is no such condition,
/// ready where the condition is true of that generation or a later one, and else
/// pending.
pub open spec fn tells_condition(
    step: ProgressStepModel,
    conditions: Option<Seq<ConditionModel>>,
    kind: Seq<char>,
    generation: Option<i64>,
) -> bool {
    exists|said: Option<ConditionModel>|
        {
            &&& #[trigger] is_said(conditions, kind, said)
            &&& match said {
                None => step.status is Unknown && step.reason is None && step.message is None,
                Some(c) => {
                    &&& step.reason == Some(c.reason)
                    &&& step.message == Some(c.message)
                    &&& step.status == if c.status == "True"@ && c.observed_generation.unwrap_or(0)
                        >= generation.unwrap_or(0) {
                        StepStatus::Ready
                    } else {
                        StepStatus::Pending
                    }
                },
            }
        }
}

/// The generation of a connector, where there is one.
pub open spec fn generation_of(connector: Option<ConnectorModel>) -> Option<i64> {
    match connector {
        Some(connector) => connector.metadata.generation,
        None => None,
    }
}

/// Whether `p` is the progress of the tunnel with these resources: its six steps
/// tell, in this order, what is said of `Accepted` and `CertificatesReady` on the
/// HTTPProxy, of `Ready` and `IrohDNSPublished` on the Connector, and of
/// `Programmed` and `ConnectorMetadataProgrammed` on the HTTPProxy. The hostnames
/// are those of the HTTPProxy.
pub open spec fn is_progress(
    p: TunnelProgressModel,
    proxy: HTTPProxyModel,
    connector: Option<ConnectorModel>,
) -> bool {
    let current = proxy.metadata.generation;
    let reached = generation_of(connector);
    &&& are_hostnames(proxy, p.hostnames)
    &&& p.steps.len() == 6
    &&& p.steps[0].kind is ProxyAccepted
    &&& p.steps[1].kind is CertificatesReady
    &&& p.steps[2].kind is ConnectorReady
    &&& p.steps[3].kind is IrohDnsPublished
    &&& p.steps[4].kind is ProxyProgrammed
    &&& p.steps[5].kind is ConnectorMetadataProgrammed
    &&& tells_condition(p.steps[0], on_proxy(proxy), "Accepted"@, current)
    &&& tells_condition(p.steps[1], on_proxy(proxy), "CertificatesReady"@, current)
    &&& tells_condition(p.steps[2], on_connector(connector), "Ready"@, reached)
    &&& tells_condition(p.steps[3], on_connector(connector), "IrohDNSPublished"@, reached)
    &&& tells_condition(p.steps[4], on_proxy(proxy), "Programmed"@, current)
    &&& tells_condition(p.steps[5], on_proxy(proxy), "ConnectorMetadataProgrammed"@, current)
}

/// Each step of the setup tells what is said of its own condition.
pub proof fn steps_tell_their_conditions(
    proxy: HTTPProxyModel,
    connector: Option<ConnectorModel>,
)
    ensures
        is_progress(progress::progress_of(proxy, connector), proxy, connector),
{
    let on = on_proxy(proxy);
    let of = on_connector(connector);
    first_condition_counts(on, "Accepted"@);
    first_condition_counts(on, "CertificatesReady"@);
    first_condition_counts(of, "Ready"@);
    first_condition_counts(of, "IrohDNSPublished"@);
    first_condition_counts(on, "Programmed"@);
    first_condition_counts(on, "ConnectorMetadataProgrammed"@);
    assert(is_said(on, "Accepted"@, meta::condition_of(on, "Accepted"@)));
    assert(is_said(on, "CertificatesReady"@, meta::condition_of(on, "CertificatesReady"@)));
    assert(is_said(of, "Ready"@, meta::condition_of(of, "Ready"@)));
    assert(is_said(of, "IrohDNSPublished"@, meta::condition_of(of, "IrohDNSPublished"@)));
    assert(is_said(on, "Programmed"@, meta::condition_of(on, "Programmed"@)));
    assert(is_said(
        on,
        "ConnectorMetadataProgrammed"@,
        meta::condition_of(on, "ConnectorMetadataProgrammed"@),
    ));
}

/// Whether the first condition about `kind` is true of the generation.
pub open spec fn true_now(
    conditions: Option<Seq<ConditionModel>>,
    kind: Seq<char>,
    generation: Option<i64>,
) -> bool {
    conditions matches Some(conditions) && exists|i: int| #[trigger]
        comes_first(conditions, kind, i) && conditions[i].status == "True"@
            && conditions[i].observed_generation.unwrap_or(0) >= generation.unwrap_or(0)
}

proof fn lemma_told_ready(
    step: ProgressStepModel,
    conditions: Option<Seq<ConditionModel>>,
    kind: Seq<char>,
    generation: Option<i64>,
)
    requires
        tells_condition(step, conditions, kind, generation),
    ensures
        step.status is Ready <==> true_now(conditions, kind, generation),
{
    let said = choose|said: Option<ConditionModel>|
        {
            &&& #[trigger] is_said(conditions, kind, said)
            &&& match said {
                None => step.status is Unknown && step.reason is None && step.message is None,
                Some(c) => {
                    &&& step.reason == Some(c.reason)
                    &&& step.message == Some(c.message)
                    &&& step.status == if c.status == "True"@ && c.observed_generation.unwrap_or(0)
                        >= generation.unwrap_or(0) {
                        StepStatus::Ready
                    } else {
                        StepStatus::Pending
                    }
                },
            }
        };
    if let Some(list) = conditions {
        if let Some(c) = said {
            let k = choose|k: int| #[trigger] comes_first(list, kind, k) && list[k] == c;
            if true_now(conditions, kind, generation) {
                let i = choose|i: int| #[trigger]
                    comes_first(list, kind, i) && list[i].status == "True"@
                        && list[i].observed_generation.unwrap_or(0) >= generation.unwrap_or(0);
                lemma_comes_first_once(list, kind, i, k);
            }
        }
    }
}

/// A tunnel is set up exactly when each of the six conditions is true of the
/// current generation of its resource.
pub proof fn set_up_means_six_true_conditions(
    proxy: HTTPProxyModel,
    connector: Option<ConnectorModel>,
)
    ensures
        progress::progress_of(proxy, connector).is_all_ready() <==> {
            &&& true_now(on_proxy(proxy), "Accepted"@, proxy.metadata.generation)
            &&& true_now(on_proxy(proxy), "CertificatesReady"@, proxy.metadata.generation)
            &&& true_now(on_connector(connector), "Ready"@, generation_of(connector))
            &&& true_now(on_connector(connector), "IrohDNSPublished"@, generation_of(connector))
            &&& true_now(on_proxy(proxy), "Programmed"@, proxy.metadata.generation)
            &&& true_now(
                on_proxy(proxy),
                "ConnectorMetadataProgrammed"@,
                proxy.metadata.generation,
            )
        },
{
    let p = progress::progress_of(proxy, connector);
    let current = proxy.metadata.generation;
    let reached = generation_of(connector);
    steps_tell_their_conditions(proxy, connector);
    lemma_told_ready(p.steps[0], on_proxy(proxy), "Accepted"@, current);
    lemma_told_ready(p.steps[1], on_proxy(proxy), "CertificatesReady"@, current);
    lemma_told_ready(p.steps[2], on_connector(connector), "Ready"@, reached);
    lemma_told_ready(p.steps[3], on_connector(connector), "IrohDNSPublished"@, reached);
    lemma_told_ready(p.steps[4], on_proxy(proxy), "Programmed"@, current);
    lemma_told_ready(p.steps[5], on_proxy(proxy), "ConnectorMetadataProgrammed"@, current);
}

/// The setup of a tunnel fails for good exactly when another connector owns the
/// DNS record: the first condition `IrohDNSPublished` of the connector has the
/// reason `DeferredToOwner` and is not true of the current generation.
pub proof fn only_a_deferred_record_is_final(
    proxy: HTTPProxyModel,
    connector: Option<ConnectorModel>,
)
    ensures
        progress::progress_of(proxy, connector).terminal_from(0) is Some <==> (on_connector(
            connector,
        ) matches Some(conditions) && exists|i: int| #[trigger]
            comes_first(conditions, "IrohDNSPublished"@, i) && conditions[i].reason
                == "DeferredToOwner"@ && !(conditions[i].status == "True"@
                && conditions[i].observed_generation.unwrap_or(0) >= generation_of(
                connector,
            ).unwrap_or(0))),
        progress::progress_of(proxy, connector).terminal_from(0) matches Some(step) ==> step
            == progress::progress_of(proxy, connector).steps[3],
{
    let p = progress::progress_of(proxy, connector);
    steps_tell_their_conditions(proxy, connector);
    reveal_with_fuel(progress::TunnelProgressModel::terminal_from, 7);
    let of = on_connector(connector);
    let kind = "IrohDNSPublished"@;
    let found = meta::condition_of(of, kind);
    first_condition_counts(of, kind);
    if let Some(list) = of {
        if let Some(c) = found {
            let k = choose|k: int| #[trigger] comes_first(list, kind, k) && list[k] == c;
            assert forall|i: int| #[trigger] comes_first(list, kind, i) implies i == k by {
                lemma_comes_first_once(list, kind, i, k);
            }
        }
    }
}

/// What a step calls its resource: `Kind/name`, of the resource that its
/// condition is on.
pub proof fn steps_name_their_resources(proxy: HTTPProxyModel, connector: Option<ConnectorModel>)
    ensures
        ({
            let p = progress::progress_of(proxy, connector);
            &&& forall|i: int|
                0 <= i < 6 && i != 2 && i != 3 ==> ((#[trigger] p.steps[i]).resource
                    == match proxy.metadata.name {
                    Some(name) => Some("HTTPProxy/"@ + name),
                    None => None,
                })
            &&& forall|i: int|
                2 <= i <= 3 ==> ((#[trigger] p.steps[i]).resource == match connector {
                    Some(connector) => match connector.metadata.name {
                        Some(name) => Some("Connector/"@ + name),
                        None => None,
                    },
                    None => None,
                })
        }),
{
    reveal_strlit("HTTPProxy");
    reveal_strlit("Connector");
    reveal_strlit("/");
    reveal_strlit("HTTPProxy/");
    reveal_strlit("Connector/");
    assert("HTTPProxy"@ + "/"@ =~= "HTTPProxy/"@);
    assert("Connector"@ + "/"@ =~= "Connector/"@);
}

// ---------------------------------------------------------------------------
// Rules
// ---------------------------------------------------------------------------
/// A request as the rules of an HTTPProxy see it: its path, and its headers by
/// name.
pub struct Request {
    pub path: Seq<char>,
    pub headers: Map<Seq<char>, Seq<char>>,
}

/// Whether a match takes a request: its path begins with the prefix, and each
/// header has exactly the value.
pub open spec fn match_takes(m: HTTPRouteMatchModel, request: Request) -> bool {
    &&& m.path matches Some(path) ==> {
        &&& path.type_ == Some(HTTPRouteRulesMatchesPathType::PathPrefix)
        &&& path.value matches Some(prefix) && prefix.is_prefix_of(request.path)
    }
    &&& m.headers matches Some(headers) ==> forall|i: int|
        0 <= i < headers.len() ==> {
            let header = #[trigger] headers[i];
            &&& header.type_ == Some(HTTPRouteRulesMatchesHeadersType::Exact)
            &&& request.headers.contains_key(header.name)
            &&& request.headers[header.name] == header.value
        }
}

/// Whether a rule takes a request: one of its matches does.
pub open spec fn rule_takes(rule: HTTPProxyRuleModel, request: Request) -> bool {
    exists|i: int| 0 <= i < rule.matches.len() && match_takes(#[trigger] rule.matches[i], request)
}

/// Whether the rule at index `i` decides about a request: it is the first that
/// takes it.
pub open spec fn decides(rules: Seq<HTTPProxyRuleModel>, request: Request, i: int) -> bool {
    &&& 0 <= i < rules.len()
    &&& rule_takes(rules[i], request)
    &&& forall|j: int| 0 <= j < i ==> !rule_takes(#[trigger] rules[j], request)
}

/// Whether a rule answers with a permanent redirect to HTTPS, and with nothing
/// else.
pub open spec fn redirects_to_https(rule: HTTPProxyRuleModel) -> bool {
    &&& rule.backends is None
    &&& rule.filters matches Some(filters) && filters.len() == 1 && filters[0].type_
        == HTTPRouteRulesFiltersType::RequestRedirect && filters[0].request_redirect is Some
        && filters[0].request_redirect->0.scheme == Some("https"@)
        && filters[0].request_redirect->0.status_code == Some(301i64)
}

/// Whether a rule delivers to the endpoint through the connector, unchanged.
pub open spec fn delivers(
    rule: HTTPProxyRuleModel,
    to: Seq<char>,
    connector: Seq<char>,
) -> bool {
    &&& rule.filters is None
    &&& rule.backends matches Some(backends) && backends.len() == 1 && backends[0].endpoint == to
        && backends[0].connector is Some && backends[0].connector->0.name == connector
}

/// Whether the request came in over plain HTTP, as the edge marks it.
pub open spec fn is_plain_http(request: Request) -> bool {
    request.headers.contains_key("x-forwarded-proto"@) && request.headers["x-forwarded-proto"@]
        == "http"@
}

/// Whether the rule that decides about a request sends plain HTTP to HTTPS, and
/// delivers any other to the endpoint through the connector.
pub open spec fn is_served(
    rules: Seq<HTTPProxyRuleModel>,
    request: Request,
    to: Seq<char>,
    connector: Seq<char>,
) -> bool {
    exists|i: int| #[trigger]
        decides(rules, request, i) && if is_plain_http(request) {
            redirects_to_https(rules[i])
        } else {
            delivers(rules[i], to, connector)
        }
}

/// Whether the rules serve every request so.
pub open spec fn serves_https(
    rules: Seq<HTTPProxyRuleModel>,
    to: Seq<char>,
    connector: Seq<char>,
) -> bool {
    forall|request: Request|
        request.path.len() > 0 && request.path[0] == '/' ==> #[trigger] is_served(
            rules,
            request,
            to,
            connector,
        )
}

/// Of the rules of a tunnel, the first that takes a request decides: plain HTTP is
/// redirected to HTTPS for good, and every other request goes to the endpoint
/// through the connector.
pub proof fn rules_serve_https(to: Seq<char>, connector: Seq<char>)
    ensures
        serves_https(resources::tunnel_rules_model(to, connector), to, connector),
{
    let rules = resources::tunnel_rules_model(to, connector);
    reveal_strlit("/");
    assert forall|request: Request|
        request.path.len() > 0 && request.path[0] == '/' implies #[trigger] is_served(
        rules,
        request,
        to,
        connector,
    ) by {
        assert("/"@ =~= request.path.subrange(0, 1));
        assert("/"@.is_prefix_of(request.path));
        let first = rules[0].matches[0];
        let second = rules[1].matches[0];
        assert(match_takes(second, request));
        assert(rule_takes(rules[1], request));
        if is_plain_http(request) {
            assert(match_takes(first, request));
            assert(rule_takes(rules[0], request));
            assert(decides(rules, request, 0));
        } else {
            assert(first.headers->0[0].name == "x-forwarded-proto"@);
            assert(!match_takes(first, request));
            assert(!rule_takes(rules[0], request));
            assert(decides(rules, request, 1));
        }
    }
}

// ---------------------------------------------------------------------------
// What is offered and told
// ---------------------------------------------------------------------------
/// Whether an advertisement offers the target, over TCP, on behalf of the
/// connector, and nothing else.
pub open spec fn offers(
    spec: ConnectorAdvertisementSpecModel,
    connector: Seq<char>,
    target: ParsedTargetModel,
) -> bool {
    &&& spec.connector_ref.name == connector
    &&& spec.layer4 matches Some(groups) && groups.len() == 1 && groups[0].name == "default"@
        && groups[0].services.len() == 1 && groups[0].services[0].address == target.address
        && groups[0].services[0].ports.len() == 1 && groups[0].services[0].ports[0].port
        == target.port && groups[0].services[0].ports[0].protocol == Protocol::Tcp
        && groups[0].services[0].ports[0].name == "tcp-"@ + numbers::decimal(target.port as nat)
}

/// An advertisement has the name of its tunnel and offers its target.
pub proof fn advertisement_offers_the_target(
    name: Seq<char>,
    connector: Seq<char>,
    target: ParsedTargetModel,
)
    ensures
        ({
            let spec = resources::advertisement_spec_model(connector, target);
            let ad = resources::advertisement_model(name, spec);
            ad.metadata.name == Some(name) && ad.spec == spec && offers(spec, connector, target)
        }),
{
}

/// The policy of a tunnel protects the gateway of that tunnel alone: the OWASP
/// core rule set at the lowest paranoia level, enforced.
pub proof fn policy_enforces_the_core_rules(name: Seq<char>)
    ensures
        ({
            let policy = resources::policy_model(name);
            &&& policy.metadata.name == Some(name)
            &&& policy.spec.target_refs.len() == 1
            &&& policy.spec.target_refs[0].group == "gateway.networking.k8s.io"@
            &&& policy.spec.target_refs[0].kind == "Gateway"@
            &&& policy.spec.target_refs[0].name == name
            &&& policy.spec.target_refs[0].section_name is None
            &&& policy.spec.mode == Some(TrafficProtectionPolicyMode::Enforce)
            &&& policy.spec.sampling_percentage is None
            &&& policy.spec.rule_sets matches Some(sets) && sets.len() == 1
                && sets[0].rule_set_type == TrafficProtectionPolicyRuleSetType::OWASPCoreRuleSet
                && sets[0].owasp_core_rule_set is Some
                && sets[0].owasp_core_rule_set->0.paranoia_levels is Some
                && sets[0].owasp_core_rule_set->0.paranoia_levels->0.blocking == Some(1i32)
                && sets[0].owasp_core_rule_set->0.paranoia_levels->0.detection == Some(1i32)
        }),
{
}

/// The HTTPProxy of a new tunnel carries the label under which it is shown,
/// leaves its name and hostnames to the server, and serves the endpoint.
pub proof fn new_proxy_carries_label_and_endpoint(
    label: Seq<char>,
    to: Seq<char>,
    connector: Seq<char>,
)
    ensures
        ({
            let proxy = resources::new_proxy_model(label, to, connector);
            &&& proxy.metadata.name is None
            &&& proxy.metadata.generate_name == Some("tunnel-"@)
            &&& is_annotated(proxy.metadata, "app.kubernetes.io/name"@, Some(label))
            &&& proxy.spec.hostnames is None
            &&& serves_https(proxy.spec.rules, to, connector)
            &&& proxy.status is None
        }),
{
    let proxy = resources::new_proxy_model(label, to, connector);
    rules_serve_https(to, connector);
    assert(key_comes_first(proxy.metadata.annotations->0, "app.kubernetes.io/name"@, 0));
}

/// The connector of a new device leaves its name to the server, is of the class
/// of these agents, and carries what describes the device.
pub proof fn new_connector_describes_the_device(annotations: Seq<(Seq<char>, Seq<char>)>)
    ensures
        ({
            let connector = resources::new_connector_model(annotations);
            &&& connector.metadata.name is None
            &&& connector.metadata.generate_name == Some("datum-connect-"@)
            &&& connector.metadata.annotations == Some(annotations)
            &&& connector.spec.connector_class_name == "datum-connect"@
            &&& connector.status is None
        }),
{
}

/// A device is reached by its public key, at its first relay and at each of its
/// addresses; while it has no relay, nothing is told.
pub proof fn details_tell_how_the_device_is_reached(endpoint: EndpointInfoModel)
    ensures
        match resources::connection_details_of(endpoint) {
            None => endpoint.relay_urls.len() == 0,
            Some(details) => {
                &&& endpoint.relay_urls.len() > 0
                &&& details.connection_type == ConnectorConnectionType::PublicKey
                &&& details.public_key is Some
                &&& details.public_key->0.id == endpoint.id
                &&& details.public_key->0.discovery_mode == Some(PublicKeyDiscoveryMode::Dns)
                &&& details.public_key->0.home_relay == endpoint.relay_urls[0]
                &&& details.public_key->0.addresses.len() == endpoint.ip_addrs.len()
                &&& forall|i: int|
                    0 <= i < endpoint.ip_addrs.len() ==> (
                    #[trigger] details.public_key->0.addresses[i]).address
                        == endpoint.ip_addrs[i].0 && details.public_key->0.addresses[i].port
                        == endpoint.ip_addrs[i].1
            },
        },
{
}

/// Whether the status of a connector says that it has the public key `id`.
pub open spec fn has_key(connector: ConnectorModel, id: Seq<char>) -> bool {
    &&& connector.status is Some
    &&& connector.status->0.connection_details is Some
    &&& connector.status->0.connection_details->0.public_key is Some
    &&& connector.status->0.connection_details->0.public_key->0.id == id
}

/// A connector is known by the public key that its status says.
pub proof fn connector_is_known_by_its_key(connector: ConnectorModel, id: Seq<char>)
    ensures
        resources::connector_endpoint_id(connector) == Some(id) <==> has_key(connector, id),
{
}

/// Whether the backend `j` of the rule `i` is the first with a connector, which is
/// `name`.
pub open spec fn first_connector(
    rules: Seq<HTTPProxyRuleModel>,
    i: int,
    j: int,
    name: Seq<char>,
) -> bool {
    &&& 0 <= i < rules.len()
    &&& rules[i].backends matches Some(backends) && 0 <= j < backends.len()
        && backends[j].connector is Some && backends[j].connector->0.name == name && forall|k: int|
        0 <= k < j ==> (#[trigger] backends[k]).connector is None
    &&& forall|r: int| 0 <= r < i ==> has_no_connector(#[trigger] rules[r])
}

/// Whether no backend of a rule has a connector.
pub open spec fn has_no_connector(rule: HTTPProxyRuleModel) -> bool {
    rule.backends matches Some(backends) ==> forall|k: int|
        0 <= k < backends.len() ==> (#[trigger] backends[k]).connector is None
}

proof fn lemma_connector_in_backends(backends: Seq<HTTPProxyRuleBackendModel>, from: int)
    requires
        0 <= from <= backends.len(),
        forall|k: int| 0 <= k < from ==> (#[trigger] backends[k]).connector is None,
    ensures
        match resources::connector_in_backends(backends, from) {
            Some(name) => exists|j: int|
                0 <= j < backends.len() && (#[trigger] backends[j]).connector is Some
                    && backends[j].connector->0.name == name && forall|k: int|
                    0 <= k < j ==> (#[trigger] backends[k]).connector is None,
            None => forall|k: int|
                0 <= k < backends.len() ==> (#[trigger] backends[k]).connector is None,
        },
    decreases backends.len() - from,
{
    if from < backends.len() {
        if backends[from].connector is None {
            lemma_connector_in_backends(backends, from + 1);
        }
    }
}

proof fn lemma_connector_in_rules(rules: Seq<HTTPProxyRuleModel>, from: int)
    requires
        0 <= from <= rules.len(),
        forall|r: int| 0 <= r < from ==> has_no_connector(#[trigger] rules[r]),
    ensures
        match resources::connector_in_rules(rules, from) {
            Some(name) => exists|i: int, j: int| #[trigger] first_connector(rules, i, j, name),
            None => forall|r: int| 0 <= r < rules.len() ==> has_no_connector(#[trigger] rules[r]),
        },
    decreases rules.len() - from,
{
    if from < rules.len() {
        if let Some(backends) = rules[from].backends {
            lemma_connector_in_backends(backends, 0);
            if let Some(name) = resources::connector_in_backends(backends, 0) {
                let j = choose|j: int|
                    0 <= j < backends.len() && (#[trigger] backends[j]).connector is Some
                        && backends[j].connector->0.name == name && forall|k: int|
                        0 <= k < j ==> (#[trigger] backends[k]).connector is None;
                assert(first_connector(rules, from, j, name));
            } else {
                assert(has_no_connector(rules[from]));
                lemma_connector_in_rules(rules, from + 1);
            }
        } else {
            lemma_connector_in_rules(rules, from + 1);
        }
    }
}

/// The connector of a tunnel is the first that a backend names, in the order of
/// the rules and their backends.
pub proof fn first_named_connector_counts(rules: Seq<HTTPProxyRuleModel>)
    ensures
        match resources::connector_in_rules(rules, 0) {
            Some(name) => exists|i: int, j: int| #[trigger] first_connector(rules, i, j, name),
            None => forall|r: int| 0 <= r < rules.len() ==> has_no_connector(#[trigger] rules[r]),
        },
{
    lemma_connector_in_rules(rules, 0);
}

/// Connectors are selected by their public key, and advertisements by their
/// connector.
pub proof fn selectors_name_their_fields(value: Seq<char>)
    ensures
        connector_search::endpoint_selector(value) == "status.connectionDetails.publicKey.id="@
            + value,
        listing::advertisement_selector(value) == "spec.connectorRef.name="@ + value,
{
    reveal_strlit("status.connectionDetails.publicKey.id");
    reveal_strlit("status.connectionDetails.publicKey.id=");
    reveal_strlit("spec.connectorRef.name");
    reveal_strlit("spec.connectorRef.name=");
    reveal_strlit("=");
    assert("status.connectionDetails.publicKey.id"@ + "="@
        =~= "status.connectionDetails.publicKey.id="@);
    assert("spec.connectorRef.name"@ + "="@ =~= "spec.connectorRef.name="@);
}

/// A device is annotated with its name and its operating system. The name is the
/// one that its user gave it, without white space around it; where there is none,
/// it is the hostname, without `.local` at its end.
pub proof fn device_is_annotated_with_name_and_system(
    computer_name: Option<Seq<char>>,
    hostname: Seq<char>,
    os: Seq<char>,
)
    ensures
        ({
            let r = resources::device_annotations_model(computer_name, hostname, os);
            &&& r.len() == 2
            &&& r[0].0 == "datum.net/device-name"@
            &&& r[1].0 == "datum.net/device-os"@
            &&& r[1].1 == os
            &&& if computer_name matches Some(name) && text::trimmed(name).len() > 0 {
                r[0].1 == text::trimmed(computer_name->0)
            } else {
                ||| r[0].1 + ".local"@ == hostname
                ||| r[0].1 == hostname && !(".local"@).is_suffix_of(hostname)
            }
        }),
{
    reveal_strlit(".local");
    if (".local"@).is_suffix_of(hostname) {
        let head = hostname.take(hostname.len() - ".local"@.len());
        assert(hostname.subrange(
            hostname.len() - ".local"@.len(),
            hostname.len() as int,
        ) =~= ".local"@);
        assert(head + ".local"@ =~= hostname);
    }
}

/// The annotations of a connector are set again exactly where one that describes
/// the device is missing or another.
pub proof fn annotations_are_set_where_they_differ(
    expected: Seq<(Seq<char>, Seq<char>)>,
    metadata: ObjectMetaModel,
)
    ensures
        resources::annotations_differ(expected, metadata) <==> exists|i: int|
            0 <= i < expected.len() && !is_annotated(
                metadata,
                (#[trigger] expected[i]).0,
                Some(expected[i].1),
            ),
{
    assert forall|i: int| 0 <= i < expected.len() implies (metadata.annotation(
        (#[trigger] expected[i]).0,
    ) == Some(expected[i].1) <==> is_annotated(metadata, expected[i].0, Some(expected[i].1))) by {
        let key = expected[i].0;
        let value = expected[i].1;
        annotation_is_looked_up(metadata, key);
        if let Some(list) = metadata.annotations {
            if is_annotated(metadata, key, Some(value)) {
                let a = choose|a: int| #[trigger]
                    key_comes_first(list, key, a) && list[a].1 == value;
                match metadata.annotation(key) {
                    Some(found) => {
                        let b = choose|b: int| #[trigger]
                            key_comes_first(list, key, b) && list[b].1 == found;
                        if a < b {
                            assert(list[a].0 != key);
                        } else if b < a {
                            assert(list[b].0 != key);
                        }
                    },
                    None => {
                        assert(list[a].0 != key);
                    },
                }
            }
        }
    }
}

/// An error that speaks of a quota is answered with what can be done about it;
/// any other is passed on with what could not be created.
pub proof fn create_failures_name_the_resource(error: Seq<char>, resource: Seq<char>)
    ensures
        text::has_part(error, "quota"@) ==> ("Quota limit exceeded for "@ + resource
            + " resources."@).is_prefix_of(resources::create_failure(error, resource)),
        !text::has_part(error, "quota"@) ==> resources::create_failure(error, resource)
            == "Failed to create "@ + resource + ": "@ + error,
{
    reveal_strlit(" resources.");
    reveal_strlit(" resources.\n\nYou've reached the limit for creating ");
    let long = " resources.\n\nYou've reached the limit for creating "@;
    let head = "Quota limit exceeded for "@ + resource + " resources."@;
    let whole = resources::quota_message(resource);
    assert(long.subrange(0, " resources."@.len() as int) =~= " resources."@);
    assert(whole.subrange(0, head.len() as int) =~= head);
}

/// A tunnel is found by its ID, and by its endpoint, as the first in the list that has
/// it.
pub proof fn first_tunnel_with_the_id_is_found(
    tunnels: Seq<TunnelSummaryModel>,
    id: Seq<char>,
    endpoint: Seq<char>,
)
    ensures
        match listing::find_id_from(tunnels, id, 0) {
            Some(k) => 0 <= k < tunnels.len() && tunnels[k].id == id && forall|j: int|
                0 <= j < k ==> (#[trigger] tunnels[j]).id != id,
            None => forall|j: int| 0 <= j < tunnels.len() ==> (#[trigger] tunnels[j]).id != id,
        },
        match listing::find_endpoint_from(tunnels, endpoint, 0) {
            Some(k) => 0 <= k < tunnels.len() && tunnels[k].endpoint == endpoint && forall|j: int|
                0 <= j < k ==> (#[trigger] tunnels[j]).endpoint != endpoint,
            None => forall|j: int|
                0 <= j < tunnels.len() ==> (#[trigger] tunnels[j]).endpoint != endpoint,
        },
{
    lemma_tunnel_found(tunnels, id, endpoint, 0);
}

proof fn lemma_tunnel_found(
    tunnels: Seq<TunnelSummaryModel>,
    id: Seq<char>,
    endpoint: Seq<char>,
    i: int,
)
    requires
        0 <= i <= tunnels.len(),
    ensures
        match listing::find_id_from(tunnels, id, i) {
            Some(k) => i <= k < tunnels.len() && tunnels[k].id == id && forall|j: int|
                i <= j < k ==> (#[trigger] tunnels[j]).id != id,
            None => forall|j: int| i <= j < tunnels.len() ==> (#[trigger] tunnels[j]).id != id,
        },
        match listing::find_endpoint_from(tunnels, endpoint, i) {
            Some(k) => i <= k < tunnels.len() && tunnels[k].endpoint == endpoint && forall|j: int|
                i <= j < k ==> (#[trigger] tunnels[j]).endpoint != endpoint,
            None => forall|j: int|
                i <= j < tunnels.len() ==> (#[trigger] tunnels[j]).endpoint != endpoint,
        },
    decreases tunnels.len() - i,
{
    if i < tunnels.len() {
        lemma_tunnel_found(tunnels, id, endpoint, i + 1);
    }
}

/// An object is known by its name, or by what its name is to start with.
pub proof fn object_is_known_by_its_name(metadata: ObjectMetaModel)
    ensures
        metadata.name is Some ==> metadata.name == Some(metadata.name_any()),
        metadata.name is None && metadata.generate_name is Some ==> metadata.generate_name == Some(
            metadata.name_any(),
        ),
        metadata.name is None && metadata.generate_name is None ==> metadata.name_any().len() == 0,
{
}

/// A switch is on by one of these words, and off by any other.
pub proof fn switch_is_on_by_its_word(value: Seq<char>)
    ensures
        resources::is_on(value) <==> {
            ||| value == "1"@
            ||| value == "true"@
            ||| value == "TRUE"@
            ||| value == "yes"@
            ||| value == "YES"@
        },
{
}

/// Both rules of a tunnel take every path.
pub proof fn rules_take_every_path(endpoint: Seq<char>, connector: Seq<char>, i: int)
    requires
        0 <= i < 2,
    ensures
        ({
            let rules = resources::tunnel_rules_model(endpoint, connector);
            &&& rules.len() == 2
            &&& rules[i].matches.len() == 1
            &&& rules[i].matches[0].path is Some
            &&& rules[i].matches[0].path->0.type_ == Some(HTTPRouteRulesMatchesPathType::PathPrefix)
            &&& rules[i].matches[0].path->0.value == Some("/"@)
        }),
{
}

} // verus!
