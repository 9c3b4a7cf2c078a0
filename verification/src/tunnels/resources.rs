//! The resources of a tunnel: what is read from them and how they are built.
use vstd::prelude::*;

use crate::datum_apis::connector::{
    Connector, ConnectorConnectionDetails, ConnectorConnectionDetailsModel,
    ConnectorConnectionDetailsPublicKey, ConnectorConnectionDetailsPublicKeyModel,
    ConnectorConnectionType, ConnectorModel, ConnectorSpec, ConnectorSpecModel,
    LocalConnectorReference, LocalConnectorReferenceModel, PublicKeyConnectorAddress,
    PublicKeyConnectorAddressModel, PublicKeyDiscoveryMode,
};
use crate::datum_apis::connector_advertisement::{
    ConnectorAdvertisement, ConnectorAdvertisementLayer4, ConnectorAdvertisementLayer4Model,
    ConnectorAdvertisementLayer4Service, ConnectorAdvertisementLayer4ServiceModel,
    ConnectorAdvertisementModel, ConnectorAdvertisementSpec, ConnectorAdvertisementSpecModel,
    Layer4ServicePort, Layer4ServicePortModel, Protocol,
};
use crate::datum_apis::http_proxy::{
    ConnectorReference, ConnectorReferenceModel, HTTPProxy, HTTPProxyModel, HTTPProxyRule,
    HTTPProxyRuleBackend, HTTPProxyRuleBackendModel, HTTPProxyRuleModel, HTTPProxySpec,
    HTTPProxySpecModel, HTTPRouteMatch, HTTPRouteMatchModel, HTTPRouteRulesFilters,
    HTTPRouteRulesFiltersModel, HTTPRouteRulesFiltersRequestRedirect,
    HTTPRouteRulesFiltersRequestRedirectModel, HTTPRouteRulesFiltersType,
    HTTPRouteRulesMatchesHeaders, HTTPRouteRulesMatchesHeadersModel,
    HTTPRouteRulesMatchesHeadersType, HTTPRouteRulesMatchesPath, HTTPRouteRulesMatchesPathModel,
    HTTPRouteRulesMatchesPathType, HTTP_PROXY_CONDITION_ACCEPTED, HTTP_PROXY_CONDITION_PROGRAMMED,
};
use crate::datum_apis::meta;
use crate::datum_apis::meta::{Condition, ConditionModel, ObjectMeta, ObjectMetaModel};
use crate::datum_apis::traffic_protection_policy::{
    LocalPolicyTargetReferenceWithSectionName, LocalPolicyTargetReferenceWithSectionNameModel,
    ParanoiaLevels, ParanoiaLevelsModel, TrafficProtectionPolicy, TrafficProtectionPolicyMode,
    TrafficProtectionPolicyModel, TrafficProtectionPolicyRuleSet,
    TrafficProtectionPolicyRuleSetModel, TrafficProtectionPolicyRuleSetType,
    TrafficProtectionPolicySpec, TrafficProtectionPolicySpecModel, OWASPCRS, OWASPCRSModel,
};
use crate::endpoint::{ParsedTarget, ParsedTargetModel};
use crate::numbers;
use crate::text;

verus! {

/// The conditions that controllers report on an HTTPProxy.
pub open spec fn proxy_conditions(proxy: HTTPProxyModel) -> Option<Seq<ConditionModel>> {
    match proxy.status {
        Some(status) => status.conditions,
        None => None,
    }
}

/// The conditions that controllers report on a Connector.
pub open spec fn connector_conditions(connector: ConnectorModel) -> Option<Seq<ConditionModel>> {
    match connector.status {
        Some(status) => status.conditions,
        None => None,
    }
}

/// The hostnames of a tunnel: those that its status reports, or else those
/// that its desired state asks for.
pub open spec fn hostnames_of(proxy: HTTPProxyModel) -> Seq<Seq<char>> {
    let reported = match proxy.status {
        Some(status) => status.hostnames,
        None => None,
    };
    match (reported, proxy.spec.hostnames) {
        (Some(hostnames), _) => hostnames,
        (None, Some(hostnames)) => hostnames,
        (None, None) => Seq::empty(),
    }
}

/// The hostnames of a tunnel.
pub fn proxy_hostnames(proxy: &HTTPProxy) -> (r: Vec<String>)
    ensures
        r.deep_view() == hostnames_of(proxy.deep_view()),
{
    match &proxy.status {
        Some(status) => match &status.hostnames {
            Some(hostnames) => return text::copy_texts(hostnames),
            None => {},
        },
        None => {},
    }
    match &proxy.spec.hostnames {
        Some(hostnames) => text::copy_texts(hostnames),
        None => {
            let r: Vec<String> = Vec::new();
            assert(r.deep_view() =~= Seq::<Seq<char>>::empty());
            r
        },
    }
}

// ---------------------------------------------------------------------------
// Reading
// ---------------------------------------------------------------------------
pub const DEFAULT_PCP_NAMESPACE: &'static str = "default";

pub const DEFAULT_CONNECTOR_CLASS_NAME: &'static str = "datum-connect";

pub const CONNECTOR_SELECTOR_FIELD: &'static str = "status.connectionDetails.publicKey.id";

pub const ADVERTISEMENT_CONNECTOR_FIELD: &'static str = "spec.connectorRef.name";

pub const DISPLAY_NAME_ANNOTATION: &'static str = "app.kubernetes.io/name";

pub const DEVICE_NAME_ANNOTATION: &'static str = "datum.net/device-name";

pub const DEVICE_OS_ANNOTATION: &'static str = "datum.net/device-os";

/// The first backend of a rule.
pub open spec fn first_backend(rule: HTTPProxyRuleModel) -> Option<HTTPProxyRuleBackendModel> {
    match rule.backends {
        Some(backends) => if backends.len() > 0 {
            Some(backends[0])
        } else {
            None
        },
        None => None,
    }
}

/// Whether a backend references the connector `name`.
pub open spec fn backend_uses(backend: HTTPProxyRuleBackendModel, name: Seq<char>) -> bool {
    backend.connector == Some(ConnectorReferenceModel { name })
}

/// Whether one of the backends references the connector `name`.
pub open spec fn some_backend_uses(
    backends: Seq<HTTPProxyRuleBackendModel>,
    name: Seq<char>,
) -> bool {
    exists|j: int| 0 <= j < backends.len() && backend_uses(#[trigger] backends[j], name)
}

/// Whether a backend of the rule references the connector `name`.
pub open spec fn rule_uses(rule: HTTPProxyRuleModel, name: Seq<char>) -> bool {
    match rule.backends {
        Some(backends) => some_backend_uses(backends, name),
        None => false,
    }
}

/// Whether some rule of the proxy has a backend that references the connector
/// `name`.
pub open spec fn uses_connector(proxy: HTTPProxyModel, name: Seq<char>) -> bool {
    exists|i: int| 0 <= i < proxy.spec.rules.len() && rule_uses(#[trigger] proxy.spec.rules[i], name)
}

fn first_backend_of(rule: &HTTPProxyRule) -> (r: Option<&HTTPProxyRuleBackend>)
    ensures
        r.deep_view() == first_backend(rule.deep_view()),
{
    match &rule.backends {
        Some(backends) => if backends.len() > 0 {
            Some(&backends[0])
        } else {
            None
        },
        None => None,
    }
}

fn backends_use(backends: &Vec<HTTPProxyRuleBackend>, connector_name: &str) -> (r: bool)
    ensures
        r == some_backend_uses(backends.deep_view(), connector_name@),
{
    let ghost all = backends.deep_view();
    let mut j: usize = 0;
    while j < backends.len()
        invariant
            j <= backends@.len(),
            all == backends.deep_view(),
            forall|k: int| 0 <= k < j ==> !backend_uses(#[trigger] all[k], connector_name@),
        decreases backends@.len() - j,
    {
        assert(all[j as int] == backends@[j as int].deep_view());
        if let Some(connector) = &backends[j].connector {
            if text::text_eq(&connector.name, connector_name) {
                assert(backend_uses(all[j as int], connector_name@));
                return true;
            }
        }
        j = j + 1;
    }
    false
}

/// Whether some rule of the proxy has a backend that references the connector
/// `connector_name`.
pub fn proxy_uses_connector(proxy: &HTTPProxy, connector_name: &str) -> (r: bool)
    ensures
        r == uses_connector(proxy.deep_view(), connector_name@),
{
    let ghost rules = proxy.deep_view().spec.rules;
    let mut i: usize = 0;
    while i < proxy.spec.rules.len()
        invariant
            i <= proxy.spec.rules@.len(),
            rules == proxy.deep_view().spec.rules,
            forall|j: int| 0 <= j < i ==> !rule_uses(#[trigger] rules[j], connector_name@),
        decreases proxy.spec.rules@.len() - i,
    {
        assert(rules[i as int] == proxy.spec.rules@[i as int].deep_view());
        if let Some(backends) = &proxy.spec.rules[i].backends {
            if backends_use(backends, connector_name) {
                assert(rule_uses(rules[i as int], connector_name@));
                return true;
            }
        }
        i = i + 1;
    }
    false
}

/// The connector of the first backend from index `j` on that has one.
pub open spec fn connector_in_backends(backends: Seq<HTTPProxyRuleBackendModel>, j: int) -> Option<
    Seq<char>,
>
    decreases backends.len() - j,
{
    if j < 0 || j >= backends.len() {
        None
    } else {
        match backends[j].connector {
            Some(connector) => Some(connector.name),
            None => connector_in_backends(backends, j + 1),
        }
    }
}

/// The connector of the first backend of the rules from index `i` on that has
/// one.
pub open spec fn connector_in_rules(rules: Seq<HTTPProxyRuleModel>, i: int) -> Option<Seq<char>>
    decreases rules.len() - i,
{
    if i < 0 || i >= rules.len() {
        None
    } else {
        let found = match rules[i].backends {
            Some(backends) => connector_in_backends(backends, 0),
            None => None,
        };
        match found {
            Some(name) => Some(name),
            None => connector_in_rules(rules, i + 1),
        }
    }
}

fn connector_of_backends(backends: &Vec<HTTPProxyRuleBackend>) -> (r: Option<String>)
    ensures
        r.deep_view() == connector_in_backends(backends.deep_view(), 0),
{
    let mut j: usize = 0;
    while j < backends.len()
        invariant
            j <= backends@.len(),
            connector_in_backends(backends.deep_view(), j as int) == connector_in_backends(
                backends.deep_view(),
                0,
            ),
        decreases backends@.len() - j,
    {
        if let Some(connector) = &backends[j].connector {
            return Some(connector.name.clone());
        }
        j = j + 1;
    }
    None
}

/// The connector of the first backend that references one.
pub fn proxy_connector_name(proxy: &HTTPProxy) -> (r: Option<String>)
    ensures
        r.deep_view() == connector_in_rules(proxy.deep_view().spec.rules, 0),
{
    let ghost rules = proxy.deep_view().spec.rules;
    let mut i: usize = 0;
    while i < proxy.spec.rules.len()
        invariant
            i <= proxy.spec.rules@.len(),
            rules == proxy.deep_view().spec.rules,
            connector_in_rules(rules, i as int) == connector_in_rules(rules, 0),
        decreases proxy.spec.rules@.len() - i,
    {
        assert(rules[i as int] == proxy.spec.rules@[i as int].deep_view());
        if let Some(backends) = &proxy.spec.rules[i].backends {
            let found = connector_of_backends(backends);
            if found.is_some() {
                return found;
            }
        }
        i = i + 1;
    }
    None
}

/// The endpoint of the first backend that comes first in a rule, from index
/// `i` on.
pub open spec fn endpoint_in_rules(rules: Seq<HTTPProxyRuleModel>, i: int) -> Option<Seq<char>>
    decreases rules.len() - i,
{
    if i < 0 || i >= rules.len() {
        None
    } else {
        match first_backend(rules[i]) {
            Some(backend) => Some(backend.endpoint),
            None => endpoint_in_rules(rules, i + 1),
        }
    }
}

/// The endpoint that the proxy delivers to.
pub fn proxy_backend_endpoint(proxy: &HTTPProxy) -> (r: Option<String>)
    ensures
        r.deep_view() == endpoint_in_rules(proxy.deep_view().spec.rules, 0),
{
    let ghost rules = proxy.deep_view().spec.rules;
    let mut i: usize = 0;
    while i < proxy.spec.rules.len()
        invariant
            i <= proxy.spec.rules@.len(),
            rules == proxy.deep_view().spec.rules,
            endpoint_in_rules(rules, i as int) == endpoint_in_rules(rules, 0),
        decreases proxy.spec.rules@.len() - i,
    {
        assert(rules[i as int] == proxy.spec.rules@[i as int].deep_view());
        if let Some(backend) = first_backend_of(&proxy.spec.rules[i]) {
            return Some(backend.endpoint.clone());
        }
        i = i + 1;
    }
    None
}

/// Whether the HTTPProxy has the condition `kind` as true.
pub fn proxy_condition_is_true(proxy: &HTTPProxy, kind: &str) -> (r: bool)
    ensures
        r == meta::is_true(proxy_conditions(proxy.deep_view()), kind@),
{
    match &proxy.status {
        Some(status) => meta::condition_is_true(status.conditions.as_ref(), kind),
        None => false,
    }
}

// ---------------------------------------------------------------------------
// Building
// ---------------------------------------------------------------------------
/// The match that takes every request.
pub open spec fn default_match_model() -> HTTPRouteMatchModel {
    HTTPRouteMatchModel {
        path: Some(
            HTTPRouteRulesMatchesPathModel {
                type_: Some(HTTPRouteRulesMatchesPathType::PathPrefix),
                value: Some("/"@),
            },
        ),
        headers: None,
    }
}

/// The match that takes every request.
pub fn default_match() -> (r: HTTPRouteMatch)
    ensures
        r.deep_view() == default_match_model(),
{
    HTTPRouteMatch {
        path: Some(
            HTTPRouteRulesMatchesPath {
                type_: Some(HTTPRouteRulesMatchesPathType::PathPrefix),
                value: Some("/".to_owned()),
            },
        ),
        headers: None,
    }
}

/// The rule that answers plain HTTP with a permanent redirect to HTTPS.
pub open spec fn redirect_rule_model() -> HTTPProxyRuleModel {
    HTTPProxyRuleModel {
        name: None,
        matches: seq![
            HTTPRouteMatchModel {
                path: default_match_model().path,
                headers: Some(
                    seq![
                        HTTPRouteRulesMatchesHeadersModel {
                            name: "x-forwarded-proto"@,
                            type_: Some(HTTPRouteRulesMatchesHeadersType::Exact),
                            value: "http"@,
                        },
                    ],
                ),
            },
        ],
        filters: Some(
            seq![
                HTTPRouteRulesFiltersModel {
                    type_: HTTPRouteRulesFiltersType::RequestRedirect,
                    request_redirect: Some(
                        HTTPRouteRulesFiltersRequestRedirectModel {
                            scheme: Some("https"@),
                            status_code: Some(301),
                        },
                    ),
                },
            ],
        ),
        backends: None,
    }
}

/// The rule that answers plain HTTP with a permanent redirect to HTTPS. It
/// comes before the rule with the backend.
pub fn https_redirect_rule() -> (r: HTTPProxyRule)
    ensures
        r.deep_view() == redirect_rule_model(),
{
    let header = HTTPRouteRulesMatchesHeaders {
        name: "x-forwarded-proto".to_owned(),
        type_: Some(HTTPRouteRulesMatchesHeadersType::Exact),
        value: "http".to_owned(),
    };
    let mut headers: Vec<HTTPRouteRulesMatchesHeaders> = Vec::new();
    headers.push(header);
    let m = HTTPRouteMatch { path: default_match().path, headers: Some(headers) };
    let mut matches: Vec<HTTPRouteMatch> = Vec::new();
    matches.push(m);
    let filter = HTTPRouteRulesFilters {
        type_: HTTPRouteRulesFiltersType::RequestRedirect,
        request_redirect: Some(
            HTTPRouteRulesFiltersRequestRedirect {
                scheme: Some("https".to_owned()),
                status_code: Some(301),
            },
        ),
    };
    let mut filters: Vec<HTTPRouteRulesFilters> = Vec::new();
    filters.push(filter);
    let r = HTTPProxyRule { name: None, matches, filters: Some(filters), backends: None };
    proof {
        let model = redirect_rule_model();
        assert(r.deep_view().matches[0].headers->0 =~= model.matches[0].headers->0);
        assert(r.deep_view().matches =~= model.matches);
        assert(r.deep_view().filters->0 =~= model.filters->0);
    }
    r
}

/// The rule that sends every request to `endpoint` through the connector.
pub open spec fn proxy_rule_model(endpoint: Seq<char>, connector_name: Seq<char>) -> HTTPProxyRuleModel {
    HTTPProxyRuleModel {
        name: None,
        matches: seq![default_match_model()],
        filters: None,
        backends: Some(
            seq![
                HTTPProxyRuleBackendModel {
                    endpoint,
                    connector: Some(ConnectorReferenceModel { name: connector_name }),
                },
            ],
        ),
    }
}

/// The rule that sends every request to `endpoint` through the connector.
pub fn proxy_rule(endpoint: &str, connector_name: &str) -> (r: HTTPProxyRule)
    ensures
        r.deep_view() == proxy_rule_model(endpoint@, connector_name@),
{
    let mut matches: Vec<HTTPRouteMatch> = Vec::new();
    matches.push(default_match());
    let backend = HTTPProxyRuleBackend {
        endpoint: endpoint.to_owned(),
        connector: Some(ConnectorReference { name: connector_name.to_owned() }),
    };
    let mut backends: Vec<HTTPProxyRuleBackend> = Vec::new();
    backends.push(backend);
    let r = HTTPProxyRule { name: None, matches, filters: None, backends: Some(backends) };
    proof {
        let model = proxy_rule_model(endpoint@, connector_name@);
        assert(r.deep_view().matches =~= model.matches);
        assert(r.deep_view().backends->0 =~= model.backends->0);
    }
    r
}

/// The rules of a tunnel: the redirect to HTTPS, then the backend.
pub open spec fn tunnel_rules_model(endpoint: Seq<char>, connector_name: Seq<char>) -> Seq<
    HTTPProxyRuleModel,
> {
    seq![redirect_rule_model(), proxy_rule_model(endpoint, connector_name)]
}

/// The rules of a tunnel.
pub fn tunnel_rules(endpoint: &str, connector_name: &str) -> (r: Vec<HTTPProxyRule>)
    ensures
        r.deep_view() == tunnel_rules_model(endpoint@, connector_name@),
{
    let mut rules: Vec<HTTPProxyRule> = Vec::new();
    rules.push(https_redirect_rule());
    rules.push(proxy_rule(endpoint, connector_name));
    assert(rules.deep_view() =~= tunnel_rules_model(endpoint@, connector_name@));
    rules
}

/// The HTTPProxy of a new tunnel.
pub open spec fn new_proxy_model(
    label: Seq<char>,
    endpoint: Seq<char>,
    connector_name: Seq<char>,
) -> HTTPProxyModel {
    HTTPProxyModel {
        metadata: ObjectMetaModel {
            name: None,
            generate_name: Some("tunnel-"@),
            generation: None,
            annotations: Some(seq![(DISPLAY_NAME_ANNOTATION@, label)]),
        },
        spec: HTTPProxySpecModel {
            hostnames: None,
            rules: tunnel_rules_model(endpoint, connector_name),
        },
        status: None,
    }
}

/// The HTTPProxy of a new tunnel.
pub fn new_proxy(label: &str, endpoint: &str, connector_name: &str) -> (r: HTTPProxy)
    ensures
        r.deep_view() == new_proxy_model(label@, endpoint@, connector_name@),
{
    let mut annotations: Vec<(String, String)> = Vec::new();
    annotations.push((DISPLAY_NAME_ANNOTATION.to_owned(), label.to_owned()));
    let r = HTTPProxy {
        metadata: ObjectMeta {
            name: None,
            generate_name: Some("tunnel-".to_owned()),
            generation: None,
            annotations: Some(annotations),
        },
        spec: HTTPProxySpec { hostnames: None, rules: tunnel_rules(endpoint, connector_name) },
        status: None,
    };
    proof {
        let model = new_proxy_model(label@, endpoint@, connector_name@);
        assert(r.deep_view().metadata.annotations->0 =~= model.metadata.annotations->0);
    }
    r
}

/// What is read from the rules of a tunnel is what they were built from.
pub proof fn tunnel_rules_read_back(
    proxy: HTTPProxyModel,
    endpoint: Seq<char>,
    connector_name: Seq<char>,
    other: Seq<char>,
)
    requires
        proxy.spec.rules == tunnel_rules_model(endpoint, connector_name),
    ensures
        endpoint_in_rules(proxy.spec.rules, 0) == Some(endpoint),
        connector_in_rules(proxy.spec.rules, 0) == Some(connector_name),
        uses_connector(proxy, other) <==> other == connector_name,
{
    let rules = proxy.spec.rules;
    reveal_with_fuel(endpoint_in_rules, 3);
    reveal_with_fuel(connector_in_rules, 3);
    reveal_with_fuel(connector_in_backends, 2);
    assert(rules[0] == redirect_rule_model());
    assert(rules[1] == proxy_rule_model(endpoint, connector_name));
    if other == connector_name {
        assert(rule_uses(rules[1], other));
    }
}

/// What a connector offers at `target`.
pub open spec fn advertisement_spec_model(connector_name: Seq<char>, target: ParsedTargetModel) -> ConnectorAdvertisementSpecModel {
    ConnectorAdvertisementSpecModel {
        connector_ref: LocalConnectorReferenceModel { name: connector_name },
        layer4: Some(
            seq![
                ConnectorAdvertisementLayer4Model {
                    name: "default"@,
                    services: seq![
                        ConnectorAdvertisementLayer4ServiceModel {
                            address: target.address,
                            ports: seq![
                                Layer4ServicePortModel {
                                    name: "tcp-"@ + numbers::decimal(target.port as nat),
                                    port: target.port as i32,
                                    protocol: Protocol::Tcp,
                                },
                            ],
                        },
                    ],
                },
            ],
        ),
    }
}

/// What a connector offers at `target`.
pub fn advertisement_spec(connector_name: &str, target: ParsedTarget) -> (r:
    ConnectorAdvertisementSpec)
    ensures
        r.deep_view() == advertisement_spec_model(connector_name@, target.deep_view()),
{
    let ghost model = advertisement_spec_model(connector_name@, target.deep_view());
    let port = Layer4ServicePort {
        name: text::concat2("tcp-", &numbers::decimal_text(target.port as u64)),
        port: target.port as i32,
        protocol: Protocol::Tcp,
    };
    let mut ports: Vec<Layer4ServicePort> = Vec::new();
    ports.push(port);
    let service = ConnectorAdvertisementLayer4Service { address: target.address, ports };
    let mut services: Vec<ConnectorAdvertisementLayer4Service> = Vec::new();
    services.push(service);
    let group = ConnectorAdvertisementLayer4 { name: "default".to_owned(), services };
    let mut layer4: Vec<ConnectorAdvertisementLayer4> = Vec::new();
    layer4.push(group);
    let r = ConnectorAdvertisementSpec {
        connector_ref: LocalConnectorReference { name: connector_name.to_owned() },
        layer4: Some(layer4),
    };
    proof {
        let got = r.deep_view().layer4->0[0];
        let want = model.layer4->0[0];
        assert(got.services[0].ports =~= want.services[0].ports);
        assert(got.services =~= want.services);
        assert(r.deep_view().layer4->0 =~= model.layer4->0);
    }
    r
}

/// The advertisement named `name` with this content.
pub open spec fn advertisement_model(name: Seq<char>, spec: ConnectorAdvertisementSpecModel) -> ConnectorAdvertisementModel {
    ConnectorAdvertisementModel {
        metadata: ObjectMetaModel {
            name: Some(name),
            generate_name: None,
            generation: None,
            annotations: None,
        },
        spec,
    }
}

/// The advertisement named `name` with this content.
pub fn new_advertisement(name: &str, spec: ConnectorAdvertisementSpec) -> (r:
    ConnectorAdvertisement)
    ensures
        r.deep_view() == advertisement_model(name@, spec.deep_view()),
{
    ConnectorAdvertisement {
        metadata: ObjectMeta {
            name: Some(name.to_owned()),
            generate_name: None,
            generation: None,
            annotations: None,
        },
        spec,
    }
}

/// The traffic protection policy of the tunnel `name`: the OWASP core rule set
/// at its lowest paranoia level, enforced.
pub open spec fn policy_model(name: Seq<char>) -> TrafficProtectionPolicyModel {
    TrafficProtectionPolicyModel {
        metadata: ObjectMetaModel {
            name: Some(name),
            generate_name: None,
            generation: None,
            annotations: None,
        },
        spec: TrafficProtectionPolicySpecModel {
            target_refs: seq![
                LocalPolicyTargetReferenceWithSectionNameModel {
                    group: "gateway.networking.k8s.io"@,
                    kind: "Gateway"@,
                    name,
                    section_name: None,
                },
            ],
            mode: Some(TrafficProtectionPolicyMode::Enforce),
            sampling_percentage: None,
            rule_sets: Some(
                seq![
                    TrafficProtectionPolicyRuleSetModel {
                        rule_set_type: TrafficProtectionPolicyRuleSetType::OWASPCoreRuleSet,
                        owasp_core_rule_set: Some(
                            OWASPCRSModel {
                                paranoia_levels: Some(
                                    ParanoiaLevelsModel { blocking: Some(1), detection: Some(1) },
                                ),
                            },
                        ),
                    },
                ],
            ),
        },
    }
}

/// The traffic protection policy of the tunnel `name`.
pub fn new_policy(name: &str) -> (r: TrafficProtectionPolicy)
    ensures
        r.deep_view() == policy_model(name@),
{
    let mut target_refs: Vec<LocalPolicyTargetReferenceWithSectionName> = Vec::new();
    target_refs.push(
        LocalPolicyTargetReferenceWithSectionName {
            group: "gateway.networking.k8s.io".to_owned(),
            kind: "Gateway".to_owned(),
            name: name.to_owned(),
            section_name: None,
        },
    );
    let mut rule_sets: Vec<TrafficProtectionPolicyRuleSet> = Vec::new();
    rule_sets.push(
        TrafficProtectionPolicyRuleSet {
            rule_set_type: TrafficProtectionPolicyRuleSetType::OWASPCoreRuleSet,
            owasp_core_rule_set: Some(
                OWASPCRS {
                    paranoia_levels: Some(
                        ParanoiaLevels { blocking: Some(1), detection: Some(1) },
                    ),
                },
            ),
        },
    );
    let r = TrafficProtectionPolicy {
        metadata: ObjectMeta {
            name: Some(name.to_owned()),
            generate_name: None,
            generation: None,
            annotations: None,
        },
        spec: TrafficProtectionPolicySpec {
            target_refs,
            mode: Some(TrafficProtectionPolicyMode::Enforce),
            sampling_percentage: None,
            rule_sets: Some(rule_sets),
        },
    };
    proof {
        let model = policy_model(name@);
        assert(r.deep_view().spec.target_refs =~= model.spec.target_refs);
        assert(r.deep_view().spec.rule_sets->0 =~= model.spec.rule_sets->0);
    }
    r
}

// ---------------------------------------------------------------------------
// The connector of this device
// ---------------------------------------------------------------------------
/// How this device can be reached: its endpoint, as iroh knows it.
#[derive(Debug, Clone, PartialEq, Eq)]
pub struct EndpointInfo {
    pub id: String,
    pub relay_urls: Vec<String>,
    /// The address and port of each socket.
    pub ip_addrs: Vec<(String, u16)>,
}

/// The model of a [`EndpointInfo`].
#[verifier::ext_equal]
pub struct EndpointInfoModel {
    pub id: Seq<char>,
    pub relay_urls: Seq<Seq<char>>,
    pub ip_addrs: Seq<(Seq<char>, u16)>,
}

impl DeepView for EndpointInfo {
    type V = EndpointInfoModel;

    open spec fn deep_view(&self) -> EndpointInfoModel {
        EndpointInfoModel {
            id: self.id.deep_view(),
            relay_urls: self.relay_urls.deep_view(),
            ip_addrs: self.ip_addrs.deep_view(),
        }
    }
}

/// How to reach the endpoint: nothing while it has no relay.
pub open spec fn connection_details_of(endpoint: EndpointInfoModel) -> Option<
    ConnectorConnectionDetailsModel,
> {
    if endpoint.relay_urls.len() == 0 {
        None
    } else {
        Some(
            ConnectorConnectionDetailsModel {
                connection_type: ConnectorConnectionType::PublicKey,
                public_key: Some(
                    ConnectorConnectionDetailsPublicKeyModel {
                        id: endpoint.id,
                        discovery_mode: Some(PublicKeyDiscoveryMode::Dns),
                        home_relay: endpoint.relay_urls[0],
                        addresses: Seq::new(
                            endpoint.ip_addrs.len(),
                            |i: int|
                                PublicKeyConnectorAddressModel {
                                    address: endpoint.ip_addrs[i].0,
                                    port: endpoint.ip_addrs[i].1 as i32,
                                },
                        ),
                    },
                ),
            },
        )
    }
}

/// How to reach the endpoint.
pub fn build_connection_details(endpoint: &EndpointInfo) -> (r: Option<ConnectorConnectionDetails>)
    ensures
        r.deep_view() == connection_details_of(endpoint.deep_view()),
{
    if endpoint.relay_urls.len() == 0 {
        return None;
    }
    let mut addresses: Vec<PublicKeyConnectorAddress> = Vec::new();
    let mut i: usize = 0;
    while i < endpoint.ip_addrs.len()
        invariant
            i <= endpoint.ip_addrs@.len(),
            addresses@.len() == i,
            forall|j: int|
                0 <= j < i ==> (#[trigger] addresses@[j]).deep_view() == (
                PublicKeyConnectorAddressModel {
                    address: endpoint.ip_addrs@[j].0@,
                    port: endpoint.ip_addrs@[j].1 as i32,
                }),
        decreases endpoint.ip_addrs@.len() - i,
    {
        addresses.push(
            PublicKeyConnectorAddress {
                address: endpoint.ip_addrs[i].0.clone(),
                port: endpoint.ip_addrs[i].1 as i32,
            },
        );
        i = i + 1;
    }
    let r = Some(
        ConnectorConnectionDetails {
            connection_type: ConnectorConnectionType::PublicKey,
            public_key: Some(
                ConnectorConnectionDetailsPublicKey {
                    id: endpoint.id.clone(),
                    discovery_mode: Some(PublicKeyDiscoveryMode::Dns),
                    home_relay: endpoint.relay_urls[0].clone(),
                    addresses,
                },
            ),
        },
    );
    proof {
        let model = connection_details_of(endpoint.deep_view());
        assert(r.deep_view()->0.public_key->0.addresses =~= model->0.public_key->0.addresses);
    }
    r
}

/// A hostname without the suffix that local name resolution adds.
pub open spec fn without_local(hostname: Seq<char>) -> Seq<char> {
    if ".local"@.is_suffix_of(hostname) {
        hostname.take(hostname.len() - ".local"@.len())
    } else {
        hostname
    }
}

/// The name of a device: the one that its user has given it, where the system
/// knows that and it is not blank, or else its hostname.
pub open spec fn device_name_of(computer_name: Option<Seq<char>>, hostname: Seq<char>) -> Seq<
    char,
> {
    match computer_name {
        Some(name) => if text::trimmed(name).len() > 0 {
            text::trimmed(name)
        } else {
            without_local(hostname)
        },
        None => without_local(hostname),
    }
}

/// The name of a device. `computer_name` is the one that its user has given it,
/// where the system knows that.
pub fn friendly_device_name(computer_name: &Option<String>, hostname: &str) -> (r: String)
    ensures
        r@ == device_name_of(computer_name.deep_view(), hostname@),
{
    if let Some(name) = computer_name {
        let given = text::trim(name);
        if !given.as_str().is_empty() {
            return given;
        }
    }
    let v = text::chars_of(hostname);
    let suffix = text::chars_of(".local");
    if suffix.len() <= v.len() && text::stands_at(&v, &suffix, v.len() - suffix.len()) {
        let head = text::string_between(&v, 0, v.len() - suffix.len());
        assert(head@ =~= hostname@.take(hostname@.len() - ".local"@.len()));
        assert(".local"@.is_suffix_of(hostname@));
        head
    } else {
        assert(!(".local"@.is_suffix_of(hostname@)));
        hostname.to_owned()
    }
}

/// The annotations that describe a device.
pub open spec fn device_annotations_model(
    computer_name: Option<Seq<char>>,
    hostname: Seq<char>,
    os: Seq<char>,
) -> Seq<(Seq<char>, Seq<char>)> {
    seq![
        (DEVICE_NAME_ANNOTATION@, device_name_of(computer_name, hostname)),
        (DEVICE_OS_ANNOTATION@, os),
    ]
}

/// The annotations that describe a device.
pub fn device_annotations(computer_name: &Option<String>, hostname: &str, os: &str) -> (r: Vec<
    (String, String),
>)
    ensures
        r.deep_view() == device_annotations_model(computer_name.deep_view(), hostname@, os@),
{
    let mut r: Vec<(String, String)> = Vec::new();
    r.push((DEVICE_NAME_ANNOTATION.to_owned(), friendly_device_name(computer_name, hostname)));
    r.push((DEVICE_OS_ANNOTATION.to_owned(), os.to_owned()));
    assert(r.deep_view() =~= device_annotations_model(computer_name.deep_view(), hostname@, os@));
    r
}

/// Whether an annotation that is expected is missing or has another value.
pub open spec fn annotations_differ(
    expected: Seq<(Seq<char>, Seq<char>)>,
    metadata: ObjectMetaModel,
) -> bool {
    exists|i: int|
        0 <= i < expected.len() && metadata.annotation((#[trigger] expected[i]).0) != Some(
            expected[i].1,
        )
}

/// Whether an annotation that is expected is missing or has another value.
pub fn needs_annotation_patch(expected: &Vec<(String, String)>, metadata: &ObjectMeta) -> (r: bool)
    ensures
        r == annotations_differ(expected.deep_view(), metadata.deep_view()),
{
    let ghost all = expected.deep_view();
    let mut i: usize = 0;
    while i < expected.len()
        invariant
            i <= expected@.len(),
            all == expected.deep_view(),
            forall|j: int|
                0 <= j < i ==> metadata.deep_view().annotation((#[trigger] all[j]).0) == Some(
                    all[j].1,
                ),
        decreases expected@.len() - i,
    {
        let current = metadata.annotation(&expected[i].0);
        assert(all[i as int] == (expected@[i as int].0@, expected@[i as int].1@));
        match current {
            Some(value) => {
                if !text::text_eq(&value, &expected[i].1) {
                    assert(metadata.deep_view().annotation(all[i as int].0) != Some(
                        all[i as int].1,
                    ));
                    return true;
                }
            },
            None => {
                assert(metadata.deep_view().annotation(all[i as int].0) != Some(all[i as int].1));
                return true;
            },
        }
        i = i + 1;
    }
    false
}

/// The Connector of a new device.
pub open spec fn new_connector_model(annotations: Seq<(Seq<char>, Seq<char>)>) -> ConnectorModel {
    ConnectorModel {
        metadata: ObjectMetaModel {
            name: None,
            generate_name: Some("datum-connect-"@),
            generation: None,
            annotations: Some(annotations),
        },
        spec: ConnectorSpecModel { connector_class_name: DEFAULT_CONNECTOR_CLASS_NAME@ },
        status: None,
    }
}

/// The Connector of a new device.
pub fn new_connector(annotations: Vec<(String, String)>) -> (r: Connector)
    ensures
        r.deep_view() == new_connector_model(annotations.deep_view()),
{
    Connector {
        metadata: ObjectMeta {
            name: None,
            generate_name: Some("datum-connect-".to_owned()),
            generation: None,
            annotations: Some(annotations),
        },
        spec: ConnectorSpec { connector_class_name: DEFAULT_CONNECTOR_CLASS_NAME.to_owned() },
        status: None,
    }
}

/// The endpoint that the connector says it has.
pub open spec fn connector_endpoint_id(connector: ConnectorModel) -> Option<Seq<char>> {
    match connector.status {
        Some(status) => match status.connection_details {
            Some(details) => match details.public_key {
                Some(key) => Some(key.id),
                None => None,
            },
            None => None,
        },
        None => None,
    }
}

/// Whether the connector does not yet say that it has the endpoint `id`.
pub fn needs_details_patch(connector: &Connector, id: &str) -> (r: bool)
    ensures
        r == (connector_endpoint_id(connector.deep_view()) != Some(id@)),
{
    match &connector.status {
        Some(status) => match &status.connection_details {
            Some(details) => match &details.public_key {
                Some(key) => !text::text_eq(&key.id, id),
                None => true,
            },
            None => true,
        },
        None => true,
    }
}

// ---------------------------------------------------------------------------
// Messages and switches
// ---------------------------------------------------------------------------
/// What users are told when the quota of a resource is used up.
pub open spec fn quota_message(resource_type: Seq<char>) -> Seq<char> {
    "Quota limit exceeded for "@ + resource_type
        + " resources.\n\nYou've reached the limit for creating "@ + resource_type
        + " resources in this project.\n\nTo fix this, you can:\n  - Delete unused tunnels to free up capacity\n  - Contact support to request a higher quota limit\n\nRun 'tunnel list' to see existing tunnels."@
}

/// The message for an error that speaks of a quota; nothing for another.
pub fn format_quota_error(error: &str, resource_type: &str) -> (r: Option<String>)
    ensures
        r.deep_view() == (if text::has_part(error@, "quota"@) {
            Some(quota_message(resource_type@))
        } else {
            None
        }),
{
    if text::contains_text(error, "quota") {
        let mut out = text::concat3(
            "Quota limit exceeded for ",
            resource_type,
            " resources.\n\nYou've reached the limit for creating ",
        );
        out.append(resource_type);
        out.append(
            " resources in this project.\n\nTo fix this, you can:\n  - Delete unused tunnels to free up capacity\n  - Contact support to request a higher quota limit\n\nRun 'tunnel list' to see existing tunnels.",
        );
        Some(out)
    } else {
        None
    }
}

/// What users are told when a resource could not be created.
pub open spec fn create_failure(error: Seq<char>, resource_type: Seq<char>) -> Seq<char> {
    if text::has_part(error, "quota"@) {
        quota_message(resource_type)
    } else {
        "Failed to create "@ + resource_type + ": "@ + error
    }
}

/// What users are told when a resource could not be created.
pub fn format_create_failure(error: &str, resource_type: &str) -> (r: String)
    ensures
        r@ == create_failure(error@, resource_type@),
{
    match format_quota_error(error, resource_type) {
        Some(message) => message,
        None => {
            let mut out = text::concat3("Failed to create ", resource_type, ": ");
            out.append(error);
            out
        },
    }
}

/// The values that switch a setting on.
pub open spec fn is_on(value: Seq<char>) -> bool {
    value == "1"@ || value == "true"@ || value == "TRUE"@ || value == "yes"@ || value == "YES"@
}

/// Whether a switch is on: by the environment where it says something, or else
/// by what was set when the program was built; off where neither does.
pub fn switch_is_on(environment: Option<&str>, built_in: Option<&str>) -> (r: bool)
    ensures
        r == (match (environment, built_in) {
            (Some(value), _) => is_on(value@),
            (None, Some(value)) => is_on(value@),
            (None, None) => false,
        }),
{
    let value = match (environment, built_in) {
        (Some(value), _) => value,
        (None, Some(value)) => value,
        (None, None) => return false,
    };
    text::text_eq(value, "1") || text::text_eq(value, "true") || text::text_eq(value, "TRUE")
        || text::text_eq(value, "yes") || text::text_eq(value, "YES")
}

} // verus!
