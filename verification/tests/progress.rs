use datum_connect::cli::output::{
    format_terminal_failure, progress_event, render_progress_step, render_verify, render_waiting,
    status_to_str, step_kind_to_str, Mode, Output,
};
use datum_connect::cli::progress::{PollVerdict, ProgressWatch, Report};
use datum_connect::datum_apis::connector::{
    Connector, ConnectorSpec, ConnectorStatus, CONNECTOR_CONDITION_IROH_DNS_PUBLISHED,
    CONNECTOR_CONDITION_READY, CONNECTOR_REASON_DEFERRED_TO_OWNER,
};
use datum_connect::datum_apis::http_proxy::{
    HTTPProxy, HTTPProxySpec, HTTPProxyStatus, HTTP_PROXY_CONDITION_ACCEPTED,
    HTTP_PROXY_CONDITION_CERTIFICATES_READY, HTTP_PROXY_CONDITION_CONNECTOR_METADATA_PROGRAMMED,
    HTTP_PROXY_CONDITION_PROGRAMMED,
};
use datum_connect::datum_apis::meta::{Condition, ObjectMeta};
use datum_connect::json::Json;
use datum_connect::tunnels::progress::{
    ProgressStep, ProgressStepKind, StepStatus, TunnelProgress,
};

fn cond(type_: &str, status: &str, reason: &str, message: &str) -> Condition {
    Condition {
        type_: type_.to_string(),
        status: status.to_string(),
        reason: reason.to_string(),
        message: message.to_string(),
        observed_generation: None,
    }
}

fn named(name: &str) -> ObjectMeta {
    ObjectMeta {
        name: Some(name.to_string()),
        generate_name: None,
        generation: None,
        annotations: None,
    }
}

fn proxy(conds: Vec<Condition>) -> HTTPProxy {
    HTTPProxy {
        metadata: named("tunnel-test"),
        spec: HTTPProxySpec {
            hostnames: None,
            rules: vec![],
        },
        status: Some(HTTPProxyStatus {
            addresses: None,
            hostnames: Some(vec!["ground-pearl.datumproxy.net".to_string()]),
            conditions: Some(conds),
        }),
    }
}

fn connector(conds: Vec<Condition>) -> Connector {
    Connector {
        metadata: named("datum-connect-test"),
        spec: ConnectorSpec {
            connector_class_name: "datum-connect".to_string(),
        },
        status: Some(ConnectorStatus {
            conditions: Some(conds),
            connection_details: None,
        }),
    }
}

// From resources to progress.

#[test]
fn progress_unknown_when_controllers_silent() {
    let p = proxy(vec![]);
    let progress = TunnelProgress::from_resources(&p, None);
    assert_eq!(progress.steps.len(), 6);
    assert!(
        progress.steps.iter().all(|s| s.status == StepStatus::Unknown),
        "no conditions yet, so every step is unknown"
    );
    assert!(!progress.all_ready());
    assert!(progress.terminal_failure().is_none());
}

#[test]
fn progress_all_ready_when_every_condition_true() {
    let p = proxy(vec![
        cond(HTTP_PROXY_CONDITION_ACCEPTED, "True", "Accepted", ""),
        cond(HTTP_PROXY_CONDITION_CERTIFICATES_READY, "True", "AllCertificatesReady", ""),
        cond(HTTP_PROXY_CONDITION_PROGRAMMED, "True", "Programmed", ""),
        cond(
            HTTP_PROXY_CONDITION_CONNECTOR_METADATA_PROGRAMMED,
            "True",
            "ConnectorMetadataApplied",
            "",
        ),
    ]);
    let c = connector(vec![
        cond(CONNECTOR_CONDITION_READY, "True", "ConnectorReady", ""),
        cond(CONNECTOR_CONDITION_IROH_DNS_PUBLISHED, "True", "Owner", ""),
    ]);
    let progress = TunnelProgress::from_resources(&p, Some(&c));
    assert!(progress.all_ready());
    assert!(progress.terminal_failure().is_none());
}

#[test]
fn progress_flags_deferred_to_owner_as_terminal() {
    let p = proxy(vec![cond(HTTP_PROXY_CONDITION_ACCEPTED, "True", "Accepted", "")]);
    let owner_msg =
        "iroh DNS record is owned by Connector /other-project/default/datum-connect-xyz";
    let c = connector(vec![
        cond(CONNECTOR_CONDITION_READY, "True", "ConnectorReady", ""),
        cond(
            CONNECTOR_CONDITION_IROH_DNS_PUBLISHED,
            "False",
            CONNECTOR_REASON_DEFERRED_TO_OWNER,
            owner_msg,
        ),
    ]);
    let progress = TunnelProgress::from_resources(&p, Some(&c));
    let fail = progress.terminal_failure().expect("terminal failure detected");
    assert_eq!(fail.kind, ProgressStepKind::IrohDnsPublished);
    assert_eq!(fail.message.as_deref(), Some(owner_msg));
    assert!(!progress.all_ready());
}

#[test]
fn progress_pending_for_false_but_non_terminal_reason() {
    let p = proxy(vec![cond(
        HTTP_PROXY_CONDITION_CERTIFICATES_READY,
        "False",
        "Issuing",
        "Certificate request submitted",
    )]);
    let progress = TunnelProgress::from_resources(&p, None);
    let cert_step = progress
        .step(ProgressStepKind::CertificatesReady)
        .expect("step exists");
    assert_eq!(cert_step.status, StepStatus::Pending);
    assert!(progress.terminal_failure().is_none());
}

#[test]
fn progress_step_carries_resource_label() {
    let p = proxy(vec![]);
    let c = connector(vec![]);
    let progress = TunnelProgress::from_resources(&p, Some(&c));

    for step in &progress.steps {
        let resource = step.resource.as_deref().expect("resource label set");
        let expected_kind = step.kind.resource_kind();
        assert!(
            resource.starts_with(&format!("{expected_kind}/")),
            "step {:?} should be backed by {expected_kind}, got {resource}",
            step.kind,
        );
    }

    let progress_no_conn = TunnelProgress::from_resources(&p, None);
    let iroh = progress_no_conn
        .step(ProgressStepKind::IrohDnsPublished)
        .unwrap();
    assert!(
        iroh.resource.is_none(),
        "connector-backed step has no resource when connector is missing"
    );
    let proxy_step = progress_no_conn
        .step(ProgressStepKind::ProxyAccepted)
        .unwrap();
    assert_eq!(
        proxy_step.resource.as_deref(),
        Some("HTTPProxy/tunnel-test")
    );
}

#[test]
fn progress_pending_when_status_is_stale_for_current_generation() {
    let mut stale = cond(
        HTTP_PROXY_CONDITION_PROGRAMMED,
        "True",
        "Programmed",
        "Stale from previous generation",
    );
    stale.observed_generation = Some(1);
    let mut p_stale = proxy(vec![stale]);
    p_stale.metadata.generation = Some(2);
    let progress_stale = TunnelProgress::from_resources(&p_stale, None);
    let step = progress_stale
        .step(ProgressStepKind::ProxyProgrammed)
        .expect("step exists");
    assert_eq!(
        step.status,
        StepStatus::Pending,
        "True condition with observedGeneration < generation must be Pending"
    );
    assert!(!progress_stale.all_ready());

    let mut fresh = cond(HTTP_PROXY_CONDITION_PROGRAMMED, "True", "Programmed", "");
    fresh.observed_generation = Some(2);
    let mut p_fresh = proxy(vec![fresh]);
    p_fresh.metadata.generation = Some(2);
    let progress_fresh = TunnelProgress::from_resources(&p_fresh, None);
    assert_eq!(
        progress_fresh
            .step(ProgressStepKind::ProxyProgrammed)
            .unwrap()
            .status,
        StepStatus::Ready,
        "matched observedGeneration must be Ready"
    );
}

#[test]
fn every_checkpoint_occurs_once_and_in_order() {
    let progress = TunnelProgress::from_resources(&proxy(vec![]), None);
    let kinds: Vec<ProgressStepKind> = progress.steps.iter().map(|s| s.kind).collect();
    assert_eq!(kinds, ProgressStepKind::all().to_vec());
    assert_eq!(progress.hostnames, vec!["ground-pearl.datumproxy.net"]);
    assert_eq!(ProgressStepKind::ProxyAccepted.label(), "tunnel accepted");
}

// What is said about it.

fn step(kind: ProgressStepKind, status: StepStatus, reason: Option<&str>) -> ProgressStep {
    ProgressStep {
        kind,
        status,
        reason: reason.map(String::from),
        message: None,
        resource: Some(format!("{}/x", kind.resource_kind())),
    }
}

#[test]
fn terminal_failure_iroh_owner_collision_includes_actionable_message() {
    let s = step(
        ProgressStepKind::IrohDnsPublished,
        StepStatus::Pending,
        Some("DeferredToOwner"),
    );
    let out = format_terminal_failure(&s);
    assert!(out.contains("Tunnel setup failed at step"));
    assert!(out.contains("Another connector with the same iroh key"));
}

#[test]
fn terminal_failure_generic_still_has_header_and_resource() {
    let s = step(
        ProgressStepKind::ProxyAccepted,
        StepStatus::Pending,
        Some("Whatever"),
    );
    let out = format_terminal_failure(&s);
    assert!(out.contains("Tunnel setup failed at step"));
    assert!(out.contains("resource: HTTPProxy/x"));
    assert!(!out.contains("Another connector with the same iroh key"));
}

#[test]
fn a_failure_is_described_line_by_line() {
    let mut s = step(ProgressStepKind::ProxyAccepted, StepStatus::Pending, Some("R"));
    s.message = Some("M".to_string());
    assert_eq!(
        format_terminal_failure(&s),
        "Tunnel setup failed at step: tunnel accepted (HTTPProxy)\n  resource: HTTPProxy/x\n  reason: R\n  message: M\n"
    );
    s.resource = None;
    s.reason = None;
    s.message = None;
    assert_eq!(
        format_terminal_failure(&s),
        "Tunnel setup failed at step: tunnel accepted (HTTPProxy)\n  resource: (none)\n"
    );
}

fn member(event: &Json, key: &str) -> Option<String> {
    event.get(key).and_then(|v| v.as_str()).map(String::from)
}

#[test]
fn json_progress_event_parses_back_to_expected_fields() {
    let s = step(ProgressStepKind::ProxyAccepted, StepStatus::Ready, None);
    assert_eq!(step_kind_to_str(s.kind), "proxy_accepted");
    assert_eq!(status_to_str(s.status), "ready");
    let parsed = progress_event(&s);
    assert_eq!(member(&parsed, "type").as_deref(), Some("tunnel_progress"));
    assert_eq!(member(&parsed, "step").as_deref(), Some("proxy_accepted"));
    assert_eq!(member(&parsed, "status").as_deref(), Some("ready"));
    assert!(member(&parsed, "resource").is_some());
}

#[test]
fn names_in_events() {
    let names: Vec<&str> = ProgressStepKind::all()
        .iter()
        .map(|k| step_kind_to_str(*k))
        .collect();
    assert_eq!(
        names,
        vec![
            "proxy_accepted",
            "certificates_ready",
            "connector_ready",
            "iroh_dns_published",
            "proxy_programmed",
            "connector_metadata_programmed"
        ]
    );
    assert_eq!(status_to_str(StepStatus::Unknown), "unknown");
    assert_eq!(status_to_str(StepStatus::Pending), "pending");
}

#[test]
fn a_ready_step_is_ticked_off() {
    let s = step(ProgressStepKind::ProxyAccepted, StepStatus::Ready, None);
    let text = render_progress_step(Mode::Text, &s, "1.5");
    assert!(
        matches!(&text[..], [Output::Note(line)] if line == "  \u{2713} tunnel accepted (1.5s) [HTTPProxy/x]")
    );
    let json = render_progress_step(Mode::Json, &s, "1.5");
    assert!(matches!(&json[..], [Output::Note(_), Output::Event(_)]));
    let pending = step(ProgressStepKind::ProxyAccepted, StepStatus::Pending, None);
    assert!(render_progress_step(Mode::Text, &pending, "1.5").is_empty());
}

#[test]
fn a_waiting_step_is_mentioned() {
    let mut s = step(ProgressStepKind::ConnectorReady, StepStatus::Pending, None);
    s.resource = None;
    assert!(
        matches!(render_waiting(&s, "20"), Output::Note(line) if line == "  \u{25CB} waiting for connector ready (20s) []")
    );
}

#[test]
fn a_probe_is_reported() {
    let out = render_verify(Mode::Json, "origin reachable", "http://h", "0.2", Some(204));
    match &out[..] {
        [Output::Note(line), Output::Event(event)] => {
            assert_eq!(line, "  \u{2713} origin reachable (0.2s) [http://h]: HTTP 204");
            assert_eq!(member(event, "type").as_deref(), Some("tunnel_verified"));
            assert_eq!(member(event, "url").as_deref(), Some("http://h"));
        }
        other => panic!("{other:?}"),
    }
    let out = render_verify(Mode::Json, "l", "u", "0.0", None);
    assert!(
        matches!(&out[1], Output::Event(e) if member(e, "type").as_deref() == Some("tunnel_verifying"))
    );
}

// Waiting for it.

const SEC: u64 = 1_000_000_000;

fn progress_with(status: StepStatus) -> TunnelProgress {
    TunnelProgress {
        hostnames: vec![],
        steps: vec![step(ProgressStepKind::ProxyAccepted, status, None)],
    }
}

#[test]
fn changes_are_reported_once() {
    let mut watch = ProgressWatch::new();
    let reply = Ok(Some(progress_with(StepStatus::Pending)));
    let (reports, verdict) = watch.on_poll("t", &reply, 0);
    assert_eq!(
        reports,
        vec![Report::Changed {
            index: 0,
            from: StepStatus::Unknown
        }]
    );
    assert_eq!(verdict, PollVerdict::Wait { nanos: 250_000_000 });
    let (reports, _) = watch.on_poll("t", &reply, SEC);
    assert!(reports.is_empty());
    let (reports, verdict) = watch.on_poll("t", &Ok(Some(progress_with(StepStatus::Ready))), 2 * SEC);
    assert_eq!(
        reports,
        vec![Report::Changed {
            index: 0,
            from: StepStatus::Pending
        }]
    );
    assert_eq!(verdict, PollVerdict::Ready);
}

#[test]
fn a_waiting_step_is_mentioned_every_ten_seconds() {
    let mut watch = ProgressWatch::new();
    let reply = Ok(Some(progress_with(StepStatus::Pending)));
    watch.on_poll("t", &reply, 5 * SEC);
    let mut mentioned = Vec::new();
    for second in 6..40 {
        let (reports, _) = watch.on_poll("t", &reply, second * SEC);
        if !reports.is_empty() {
            assert_eq!(
                reports,
                vec![Report::Waiting {
                    index: 0,
                    elapsed: (second - 5) * SEC
                }]
            );
            mentioned.push(second - 5);
        }
    }
    assert_eq!(mentioned, vec![10, 20, 30]);
}

#[test]
fn a_step_that_was_ready_in_between_starts_anew() {
    let mut watch = ProgressWatch::new();
    let pending = Ok(Some(progress_with(StepStatus::Pending)));
    watch.on_poll("t", &pending, 0);
    watch.on_poll("t", &Ok(Some(progress_with(StepStatus::Unknown))), 9 * SEC);
    watch.on_poll("t", &pending, 10 * SEC);
    let (reports, _) = watch.on_poll("t", &pending, 15 * SEC);
    assert!(reports.is_empty());
}

#[test]
fn the_wait_fails_when_the_tunnel_is_gone_or_cannot_be_read() {
    let mut watch = ProgressWatch::new();
    let (_, verdict) = watch.on_poll("t", &Ok(None), 0);
    assert_eq!(
        verdict,
        PollVerdict::Failed {
            message: "Tunnel t disappeared during setup".to_string()
        }
    );
    let (_, verdict) = watch.on_poll("t", &Err("refused".to_string()), 0);
    assert_eq!(
        verdict,
        PollVerdict::Failed {
            message: "polling tunnel t progress: refused".to_string()
        }
    );
}

#[test]
fn the_wait_fails_at_a_terminal_failure() {
    let failed = step(
        ProgressStepKind::IrohDnsPublished,
        StepStatus::Pending,
        Some("DeferredToOwner"),
    );
    let message = format_terminal_failure(&failed);
    let progress = TunnelProgress {
        hostnames: vec![],
        steps: vec![failed],
    };
    let (reports, verdict) = ProgressWatch::new().on_poll("t", &Ok(Some(progress)), 0);
    assert_eq!(reports.len(), 1);
    assert_eq!(verdict, PollVerdict::Failed { message });
}
