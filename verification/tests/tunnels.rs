use datum_connect::datum_apis::connector::Connector;
use datum_connect::datum_apis::connector_advertisement::{ConnectorAdvertisement, Protocol};
use datum_connect::datum_apis::http_proxy::{
    ConnectorReference, HTTPProxy, HTTPProxyRule, HTTPProxyRuleBackend, HTTPProxySpec,
    HTTPProxyStatus,
};
use datum_connect::datum_apis::meta::{Condition, ObjectMeta};
use datum_connect::datum_apis::traffic_protection_policy::{
    TrafficProtectionPolicy, TrafficProtectionPolicyMode,
};
use datum_connect::endpoint::{
    normalize_endpoint, origin_authority, parse_target, proxy_state_from_summary, read_url,
    strip_scheme, TargetError,
};
use datum_connect::state::{ProxyState, SelectedContext};
use datum_connect::tunnels::create::CreateContext;
use datum_connect::tunnels::delete::{DeleteContext, TunnelDeleteOutcome};
use datum_connect::tunnels::enable::EnableContext;
use datum_connect::tunnels::listing::{
    find_tunnel, find_tunnel_by_endpoint, ListTunnels, ReadProgress, TunnelSummary,
};
use datum_connect::tunnels::progress::TunnelProgress;
use datum_connect::tunnels::requests::{
    active_project, PlaneReply, PlaneRequest, ServiceError, Step,
};
use datum_connect::tunnels::resources::{
    build_connection_details, device_annotations, format_create_failure, format_quota_error,
    friendly_device_name, needs_annotation_patch, new_policy, proxy_uses_connector, switch_is_on,
    EndpointInfo,
};
use datum_connect::tunnels::update::UpdateContext;

/// A control plane and a device, in memory.
struct World {
    connectors: Vec<Connector>,
    proxies: Vec<HTTPProxy>,
    ads: Vec<ConnectorAdvertisement>,
    policies: Vec<TrafficProtectionPolicy>,
    served: Vec<ProxyState>,
    made: u32,
    refuse: Option<&'static str>,
    log: Vec<String>,
}

fn name_of(meta: &ObjectMeta) -> String {
    meta.name_any()
}

impl World {
    fn new() -> World {
        World {
            connectors: vec![],
            proxies: vec![],
            ads: vec![],
            policies: vec![],
            served: vec![],
            made: 0,
            refuse: None,
            log: vec![],
        }
    }

    fn make_name(&mut self, meta: &mut ObjectMeta) {
        if meta.name.is_none() {
            self.made += 1;
            let prefix = meta.generate_name.clone().unwrap_or_default();
            meta.name = Some(format!("{prefix}{}", self.made));
        }
    }

    fn answer(&mut self, request: PlaneRequest) -> PlaneReply {
        let shown = format!("{request:?}");
        let kind = shown.split([' ', '{']).next().unwrap_or("").to_string();
        self.log.push(kind.clone());
        if self.refuse == Some(kind.as_str()) {
            return PlaneReply::Failed {
                error: "Insufficient quota".to_string(),
            };
        }
        match request {
            PlaneRequest::ListConnectors { selector } => {
                let wanted = selector.and_then(|s| s.rsplit_once('=').map(|(_, v)| v.to_string()));
                let items = self
                    .connectors
                    .iter()
                    .filter(|c| match &wanted {
                        None => true,
                        Some(id) => c
                            .status
                            .as_ref()
                            .and_then(|s| s.connection_details.as_ref())
                            .and_then(|d| d.public_key.as_ref())
                            .is_some_and(|k| &k.id == id),
                    })
                    .cloned()
                    .collect();
                PlaneReply::Connectors { items }
            }
            PlaneRequest::GetConnector { name } => {
                match self.connectors.iter().find(|c| name_of(&c.metadata) == name) {
                    Some(c) => PlaneReply::Connector {
                        connector: c.clone(),
                    },
                    None => PlaneReply::Failed {
                        error: "not found".to_string(),
                    },
                }
            }
            PlaneRequest::FindConnector { name } => PlaneReply::MaybeConnector {
                connector: self
                    .connectors
                    .iter()
                    .find(|c| name_of(&c.metadata) == name)
                    .cloned(),
            },
            PlaneRequest::CreateConnector { mut connector } => {
                self.make_name(&mut connector.metadata);
                self.connectors.push(connector.clone());
                PlaneReply::Connector { connector }
            }
            PlaneRequest::PatchConnectorDetails { name, details } => {
                for c in &mut self.connectors {
                    if name_of(&c.metadata) == name {
                        let status = c.status.get_or_insert(
                            datum_connect::datum_apis::connector::ConnectorStatus {
                                conditions: None,
                                connection_details: None,
                            },
                        );
                        status.connection_details = Some(details.clone());
                    }
                }
                PlaneReply::Done
            }
            PlaneRequest::PatchConnectorAnnotations { name, annotations } => {
                match self.connectors.iter_mut().find(|c| name_of(&c.metadata) == name) {
                    Some(c) => {
                        c.metadata.annotations = Some(annotations);
                        PlaneReply::Connector {
                            connector: c.clone(),
                        }
                    }
                    None => PlaneReply::Failed {
                        error: "not found".to_string(),
                    },
                }
            }
            PlaneRequest::DeleteConnector { name } => {
                self.connectors.retain(|c| name_of(&c.metadata) != name);
                PlaneReply::Done
            }
            PlaneRequest::ListProxies => PlaneReply::Proxies {
                items: self.proxies.clone(),
            },
            PlaneRequest::GetProxy { name } => {
                match self.proxies.iter().find(|p| name_of(&p.metadata) == name) {
                    Some(p) => PlaneReply::Proxy { proxy: p.clone() },
                    None => PlaneReply::Failed {
                        error: "not found".to_string(),
                    },
                }
            }
            PlaneRequest::FindProxy { name } => PlaneReply::MaybeProxy {
                proxy: self
                    .proxies
                    .iter()
                    .find(|p| name_of(&p.metadata) == name)
                    .cloned(),
            },
            PlaneRequest::CreateProxy { mut proxy } => {
                self.make_name(&mut proxy.metadata);
                self.proxies.push(proxy.clone());
                PlaneReply::Proxy { proxy }
            }
            PlaneRequest::PatchProxy {
                name,
                label,
                hostnames,
                rules,
            } => {
                for p in &mut self.proxies {
                    if name_of(&p.metadata) == name {
                        p.metadata.annotations =
                            Some(vec![("app.kubernetes.io/name".to_string(), label.clone())]);
                        p.spec.hostnames = Some(hostnames.clone());
                        p.spec.rules = rules.clone();
                    }
                }
                PlaneReply::Done
            }
            PlaneRequest::DeleteProxy { name } => {
                self.proxies.retain(|p| name_of(&p.metadata) != name);
                PlaneReply::Done
            }
            PlaneRequest::ListAdvertisements { selector } => {
                let wanted = selector.rsplit_once('=').map(|(_, v)| v.to_string());
                PlaneReply::Advertisements {
                    items: self
                        .ads
                        .iter()
                        .filter(|a| Some(&a.spec.connector_ref.name) == wanted.as_ref())
                        .cloned()
                        .collect(),
                }
            }
            PlaneRequest::HasAdvertisement { name } => PlaneReply::Exists {
                found: self.ads.iter().any(|a| name_of(&a.metadata) == name),
            },
            PlaneRequest::CreateAdvertisement { advertisement } => {
                self.ads.push(advertisement);
                PlaneReply::Done
            }
            PlaneRequest::PatchAdvertisement { name, spec } => {
                for a in &mut self.ads {
                    if name_of(&a.metadata) == name {
                        a.spec = spec.clone();
                    }
                }
                PlaneReply::Done
            }
            PlaneRequest::DeleteAdvertisement { name } => {
                self.ads.retain(|a| name_of(&a.metadata) != name);
                PlaneReply::Done
            }
            PlaneRequest::HasPolicy { name } => PlaneReply::Exists {
                found: self.policies.iter().any(|p| name_of(&p.metadata) == name),
            },
            PlaneRequest::CreatePolicy { policy } => {
                self.policies.push(policy);
                PlaneReply::Done
            }
            PlaneRequest::DeletePolicy { name } => {
                self.policies.retain(|p| name_of(&p.metadata) != name);
                PlaneReply::Done
            }
            PlaneRequest::HasConnector { name } => PlaneReply::Exists {
                found: self.connectors.iter().any(|c| name_of(&c.metadata) == name),
            },
            PlaneRequest::HasProxy { name } => PlaneReply::Exists {
                found: self.proxies.iter().any(|p| name_of(&p.metadata) == name),
            },
            PlaneRequest::DescribeEndpoint => PlaneReply::Endpoint {
                endpoint: EndpointInfo {
                    id: "device-1".to_string(),
                    relay_urls: vec!["https://relay.example.com".to_string()],
                    ip_addrs: vec![("192.0.2.7".to_string(), 4242)],
                },
            },
            PlaneRequest::PublishProxy { proxy } | PlaneRequest::StoreProxy { proxy } => {
                self.served.retain(|p| p.id() != proxy.id());
                self.served.push(proxy);
                PlaneReply::Done
            }
            PlaneRequest::UnpublishProxy { id } | PlaneRequest::ForgetProxy { id } => {
                self.served.retain(|p| p.id() != id);
                PlaneReply::Done
            }
        }
    }

    fn create(&mut self, label: &str, endpoint: &str) -> Result<TunnelSummary, ServiceError> {
        let cx = CreateContext::new(label, endpoint, "device-1".to_string(), annotations(), false, true)?;
        let (mut state, mut request) = cx.start();
        loop {
            let reply = self.answer(request);
            match state.step(&cx, reply) {
                Step::Next { state: s, request: r } => {
                    state = s;
                    request = r;
                }
                Step::Finished { outcome } => return Ok(outcome),
                Step::Failed { error } => return Err(error),
            }
        }
    }

    fn list(&mut self) -> Vec<TunnelSummary> {
        let (mut state, mut request) = ListTunnels::start("device-1");
        loop {
            let reply = self.answer(request);
            match state.step(reply) {
                Step::Next { state: s, request: r } => {
                    state = s;
                    request = r;
                }
                Step::Finished { outcome } => return outcome,
                Step::Failed { error } => panic!("{}", error.message()),
            }
        }
    }

    fn update(&mut self, id: &str, label: &str, endpoint: &str) -> Result<TunnelSummary, ServiceError> {
        let cx = UpdateContext::new(id, label, endpoint, "device-1".to_string(), annotations(), false)?;
        let (mut state, mut request) = cx.start();
        loop {
            let reply = self.answer(request);
            match state.step(&cx, reply) {
                Step::Next { state: s, request: r } => {
                    state = s;
                    request = r;
                }
                Step::Finished { outcome } => return Ok(outcome),
                Step::Failed { error } => return Err(error),
            }
        }
    }

    fn enable(&mut self, id: &str, enabled: bool) -> Result<TunnelSummary, ServiceError> {
        let cx = EnableContext::new(id, enabled, "device-1".to_string(), annotations(), false);
        let (mut state, mut request) = cx.start();
        loop {
            let reply = self.answer(request);
            match state.step(&cx, reply) {
                Step::Next { state: s, request: r } => {
                    state = s;
                    request = r;
                }
                Step::Finished { outcome } => return Ok(outcome),
                Step::Failed { error } => return Err(error),
            }
        }
    }

    fn delete(&mut self, id: &str) -> Result<TunnelDeleteOutcome, ServiceError> {
        let cx = DeleteContext::new("proj", id, "device-1".to_string(), annotations(), false);
        let (mut state, mut request) = cx.start();
        loop {
            let reply = self.answer(request);
            match state.step(&cx, reply) {
                Step::Next { state: s, request: r } => {
                    state = s;
                    request = r;
                }
                Step::Finished { outcome } => return Ok(outcome),
                Step::Failed { error } => return Err(error),
            }
        }
    }

    fn progress(&mut self, id: &str) -> Option<TunnelProgress> {
        let (mut state, mut request) = ReadProgress::start(id);
        loop {
            let reply = self.answer(request);
            match state.step(reply) {
                Step::Next { state: s, request: r } => {
                    state = s;
                    request = r;
                }
                Step::Finished { outcome } => return outcome,
                Step::Failed { error } => panic!("{}", error.message()),
            }
        }
    }
}

fn annotations() -> Vec<(String, String)> {
    device_annotations(&None, "laptop.local", "linux")
}

#[test]
fn a_created_tunnel_is_listed_advertised_protected_and_served() {
    let mut world = World::new();
    let created = world.create("web", " localhost:8080 ").unwrap();
    assert_eq!(created.label, "web");
    assert_eq!(created.endpoint, "http://localhost:8080");
    assert!(created.enabled);
    assert_eq!(world.connectors.len(), 1);
    assert_eq!(world.ads.len(), 1);
    assert_eq!(name_of(&world.ads[0].metadata), created.id);
    let service = &world.ads[0].spec.layer4.as_ref().unwrap()[0].services[0];
    assert_eq!(service.address, "localhost");
    assert_eq!(service.ports[0].port, 8080);
    assert_eq!(service.ports[0].name, "tcp-8080");
    assert_eq!(service.ports[0].protocol, Protocol::Tcp);
    assert_eq!(world.policies.len(), 1);
    assert_eq!(world.served.len(), 1);
    assert_eq!(world.served[0].info.host, "localhost");
    assert_eq!(world.served[0].info.port, 8080);
    assert_eq!(world.list(), vec![created]);
}

#[test]
fn tunnels_of_one_device_share_its_connector() {
    let mut world = World::new();
    let a = world.create("a", "localhost:1").unwrap();
    let b = world.create("b", "localhost:2").unwrap();
    assert_ne!(a.id, b.id);
    assert_eq!(world.connectors.len(), 1);
    let listed = world.list();
    assert_eq!(listed.len(), 2);
    assert_eq!(find_tunnel(&listed, &b.id), Some(1));
    assert_eq!(find_tunnel(&listed, "none"), None);
    assert_eq!(find_tunnel_by_endpoint(&listed, "localhost:2"), Some(1));
    assert_eq!(find_tunnel_by_endpoint(&listed, "http://localhost:1"), Some(0));
    assert_eq!(find_tunnel_by_endpoint(&listed, "localhost:3"), None);
}

#[test]
fn an_update_changes_the_tunnel_and_its_advertisement() {
    let mut world = World::new();
    let made = world.create("web", "localhost:8080").unwrap();
    let updated = world.update(&made.id, "site", "localhost:9090").unwrap();
    assert_eq!(updated.id, made.id);
    assert_eq!(updated.label, "site");
    assert_eq!(updated.endpoint, "http://localhost:9090");
    let service = &world.ads[0].spec.layer4.as_ref().unwrap()[0].services[0];
    assert_eq!(service.ports[0].port, 9090);
    assert_eq!(world.list(), vec![updated]);
}

#[test]
fn a_tunnel_is_switched_off_and_on() {
    let mut world = World::new();
    let made = world.create("web", "localhost:8080").unwrap();
    let off = world.enable(&made.id, false).unwrap();
    assert!(!off.enabled);
    assert!(world.ads.is_empty());
    assert!(!world.list()[0].enabled);
    let on = world.enable(&made.id, true).unwrap();
    assert!(on.enabled);
    assert_eq!(world.ads.len(), 1);
    assert!(world.list()[0].enabled);
}

#[test]
fn deleting_the_last_tunnel_deletes_the_connector() {
    let mut world = World::new();
    let a = world.create("a", "localhost:1").unwrap();
    let b = world.create("b", "localhost:2").unwrap();
    let outcome = world.delete(&a.id).unwrap();
    assert_eq!(outcome.project_id, "proj");
    assert!(!outcome.connector_deleted);
    assert_eq!(world.connectors.len(), 1);
    assert_eq!(world.proxies.len(), 1);
    assert_eq!(world.served.len(), 1);
    let outcome = world.delete(&b.id).unwrap();
    assert!(outcome.connector_deleted);
    assert!(world.connectors.is_empty());
    assert!(world.proxies.is_empty());
    assert!(world.ads.is_empty());
    assert!(world.policies.is_empty());
    assert!(world.served.is_empty());
}

fn backend(connector: Option<&str>) -> HTTPProxyRuleBackend {
    HTTPProxyRuleBackend {
        endpoint: "http://localhost:3".to_string(),
        connector: connector.map(|name| ConnectorReference {
            name: name.to_string(),
        }),
    }
}

/// An HTTPProxy with one rule for each list of backends.
fn proxy_with(name: &str, rules: Vec<Option<Vec<HTTPProxyRuleBackend>>>) -> HTTPProxy {
    HTTPProxy {
        metadata: ObjectMeta {
            name: Some(name.to_string()),
            generate_name: None,
            generation: None,
            annotations: None,
        },
        spec: HTTPProxySpec {
            hostnames: None,
            rules: rules
                .into_iter()
                .map(|backends| HTTPProxyRule {
                    name: None,
                    matches: vec![],
                    filters: None,
                    backends,
                })
                .collect(),
        },
        status: None,
    }
}

#[test]
fn every_backend_of_every_rule_counts() {
    let second = proxy_with("p", vec![Some(vec![backend(None), backend(Some("c1"))])]);
    assert!(proxy_uses_connector(&second, "c1"));
    assert!(!proxy_uses_connector(&second, "c2"));
    let later = proxy_with(
        "p",
        vec![
            None,
            Some(vec![]),
            Some(vec![backend(Some("c2")), backend(None), backend(Some("c1"))]),
        ],
    );
    assert!(proxy_uses_connector(&later, "c1"));
    assert!(proxy_uses_connector(&later, "c2"));
    assert!(!proxy_uses_connector(&later, "c3"));
    assert!(!proxy_uses_connector(&proxy_with("p", vec![]), "c1"));
}

#[test]
fn a_second_backend_keeps_the_connector_and_is_listed() {
    let mut world = World::new();
    let made = world.create("web", "localhost:8080").unwrap();
    let connector = name_of(&world.connectors[0].metadata);
    world.proxies.push(proxy_with(
        "mixed",
        vec![Some(vec![backend(None), backend(Some(&connector))])],
    ));
    let outcome = world.delete(&made.id).unwrap();
    assert!(!outcome.connector_deleted);
    assert_eq!(world.connectors.len(), 1);
    let listed: Vec<String> = world.list().into_iter().map(|t| t.id).collect();
    assert_eq!(listed, vec!["mixed".to_string()]);
    assert!(world.delete("mixed").unwrap().connector_deleted);
    assert!(world.connectors.is_empty());
}

#[test]
fn deleting_what_is_gone_succeeds() {
    let mut world = World::new();
    let outcome = world.delete("missing").unwrap();
    assert!(!outcome.connector_deleted);
}

#[test]
fn a_full_quota_is_explained() {
    let mut world = World::new();
    world.refuse = Some("CreateProxy");
    let error = world.create("web", "localhost:8080").unwrap_err();
    assert!(error
        .message()
        .starts_with("Quota limit exceeded for HTTPProxy resources."));
    assert_eq!(format_quota_error("timed out", "HTTPProxy"), None);
    assert!(format_create_failure("timed out", "HTTPProxy").contains("timed out"));
}

#[test]
fn an_endpoint_must_name_a_target() {
    let mut world = World::new();
    let error = world.create("web", "localhost:").unwrap_err();
    assert_eq!(error.cause, None);
    assert!(world.log.is_empty());
}

#[test]
fn progress_is_read_from_the_proxy_and_its_connector() {
    let mut world = World::new();
    assert_eq!(world.progress("missing"), None);
    let made = world.create("web", "localhost:8080").unwrap();
    world.proxies[0].status = Some(HTTPProxyStatus {
        addresses: None,
        hostnames: Some(vec!["x.example.com".to_string()]),
        conditions: Some(vec![Condition {
            type_: "Accepted".to_string(),
            status: "True".to_string(),
            reason: "Accepted".to_string(),
            message: String::new(),
            observed_generation: None,
        }]),
    });
    let progress = world.progress(&made.id).unwrap();
    assert_eq!(progress.hostnames, vec!["x.example.com"]);
    assert!(progress.steps[2].resource.is_some());
    assert!(world.list()[0].accepted);
}

#[test]
fn operations_need_a_selected_project() {
    assert_eq!(
        active_project(None).unwrap_err().message(),
        "No project selected"
    );
    assert_eq!(
        active_project(Some(&SelectedContext::for_project("p"))),
        Ok("p")
    );
}

// Endpoints.

#[test]
fn endpoints_have_a_normal_form() {
    assert_eq!(normalize_endpoint(" localhost:80 "), "http://localhost:80");
    assert_eq!(normalize_endpoint("https://h"), "https://h");
    assert_eq!(normalize_endpoint("  "), "");
    assert_eq!(
        normalize_endpoint(&normalize_endpoint("h:1")),
        normalize_endpoint("h:1")
    );
}

#[test]
fn targets_are_read_from_urls_and_addresses() {
    let target = |s: &str| parse_target(s).map(|t| (t.address, t.port));
    assert_eq!(target("http://localhost:8080"), Ok(("localhost".to_string(), 8080)));
    assert_eq!(target("https://example.com"), Err(TargetError::MissingPort));
    assert_eq!(target("[fd00::1]:90"), Ok(("fd00::1".to_string(), 90)));
    assert_eq!(target("[fd00::1"), Err(TargetError::InvalidIpv6));
    assert!(target("http://localhost:99999").is_err());
}

#[test]
fn urls_are_parsed() {
    let parts = read_url("HTTPS://Example.COM/path").unwrap();
    assert_eq!(parts.scheme, "https");
    assert_eq!(parts.host.as_deref(), Some("example.com"));
    assert_eq!(parts.port, None);
    assert_eq!(parts.port_or_known_default, Some(443));
    assert!(read_url("not a url").is_none());
}

#[test]
fn an_origin_is_a_host_and_a_port() {
    assert_eq!(strip_scheme("http://localhost:8080"), "localhost:8080");
    let origin = origin_authority("http://localhost:8080").unwrap();
    assert_eq!((origin.host.as_str(), origin.port), ("localhost", 8080));
    let state = proxy_state_from_summary("t", "http://localhost:8080", false).unwrap();
    assert_eq!(state.id(), "t");
    assert!(!state.enabled);
}

// Resources.

#[test]
fn devices_are_named_without_their_local_suffix() {
    assert_eq!(friendly_device_name(&None, "laptop.local"), "laptop");
    assert_eq!(friendly_device_name(&None, "laptop"), "laptop");
    let given = Some(" My Laptop\n".to_string());
    assert_eq!(friendly_device_name(&given, "laptop.local"), "My Laptop");
    let blank = Some(" \n".to_string());
    assert_eq!(friendly_device_name(&blank, "laptop.local"), "laptop");
    let expected = annotations();
    let mut meta = ObjectMeta::empty();
    assert!(needs_annotation_patch(&expected, &meta));
    meta.annotations = Some(expected.clone());
    assert!(!needs_annotation_patch(&expected, &meta));
}

#[test]
fn a_device_without_a_relay_tells_no_details() {
    let mut endpoint = EndpointInfo {
        id: "d".to_string(),
        relay_urls: vec![],
        ip_addrs: vec![("192.0.2.1".to_string(), 1)],
    };
    assert!(build_connection_details(&endpoint).is_none());
    endpoint.relay_urls.push("https://relay".to_string());
    let details = build_connection_details(&endpoint).unwrap();
    let key = details.public_key.unwrap();
    assert_eq!(key.id, "d");
    assert_eq!(key.home_relay, "https://relay");
    assert_eq!(key.addresses[0].address, "192.0.2.1");
}

#[test]
fn policies_enforce_the_core_rules() {
    let policy = new_policy("t");
    assert_eq!(policy.spec.mode, Some(TrafficProtectionPolicyMode::Enforce));
    assert_eq!(policy.spec.target_refs[0].name, "t");
    assert_eq!(policy.spec.target_refs[0].kind, "Gateway");
}

#[test]
fn switches_are_read_from_the_environment_first() {
    for on in ["1", "true", "TRUE", "yes", "YES"] {
        assert!(switch_is_on(Some(on), None), "{on}");
    }
    for off in ["0", "True", "on", ""] {
        assert!(!switch_is_on(Some(off), Some("1")), "{off}");
    }
    assert!(switch_is_on(None, Some("1")));
    assert!(!switch_is_on(None, None));
}

#[test]
fn without_a_selected_context_there_are_no_tunnels() {
    assert!(matches!(
        ListTunnels::start_active(None, "device-1"),
        Step::Finished { outcome } if outcome.is_empty()
    ));
    assert!(matches!(
        ReadProgress::start_active(None, "t"),
        Step::Finished { outcome: None }
    ));
    let selected = SelectedContext::for_project("p");
    assert!(matches!(
        ListTunnels::start_active(Some(&selected), "device-1"),
        Step::Next { request: PlaneRequest::ListConnectors { selector: Some(s) }, .. }
            if s == "status.connectionDetails.publicKey.id=device-1"
    ));
    assert!(matches!(
        ReadProgress::start_active(Some(&selected), "t"),
        Step::Next { request: PlaneRequest::FindProxy { name }, .. } if name == "t"
    ));
}
