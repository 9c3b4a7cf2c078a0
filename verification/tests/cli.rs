use datum_connect::cli::commands::{
    check_plugin_mode, plan_update, render_delete, render_list, render_update, select_project,
};
use datum_connect::cli::listen::{
    ExitReason, ListenAction, ListenContext, ListenEvent, ListenStep, Listening, LOGIN_LOST,
};
use datum_connect::cli::output::{mode_of, Mode, Output};
use datum_connect::cli::probe::{
    build_probe_urls, elsewhere, is_dns_error, names_dns_failure, DnsProbe, Elapsed, ProbeAction,
    ProbeReply, ProbeStep, Verification, VerifyAction, VerifyContext, VerifyEvent,
};
use datum_connect::cli::vpc::{
    Join, JoinAction, JoinContext, JoinEvent, JoinStep, Joining, NEVER_ASSIGNED, UNCHECKED_WARNING,
};
use datum_connect::datum_cloud::session::LoginState;
use datum_connect::json::{Json, JsonNumber};
use datum_connect::tunnels::listing::TunnelSummary;
use datum_connect::tunnels::progress::{
    ProgressStep, ProgressStepKind, StepStatus, TunnelProgress,
};
use datum_connect::tunnels::requests::ServiceError;
use datum_connect::vpc::routing::ModeArg;

fn summary(id: &str, label: &str, endpoint: &str) -> TunnelSummary {
    TunnelSummary {
        id: id.to_string(),
        label: label.to_string(),
        endpoint: endpoint.to_string(),
        hostnames: vec![format!("{id}.example.com")],
        enabled: true,
        accepted: true,
        programmed: false,
    }
}

fn member(event: &Json, key: &str) -> Option<String> {
    event.get(key).and_then(|v| v.as_str()).map(String::from)
}

// Probes.

#[test]
fn build_probe_urls_adds_http_prefix_to_bare_endpoint() {
    let (origin, proxy) = build_probe_urls("localhost:8080", "x.example.com");
    assert_eq!(origin, "http://localhost:8080");
    assert_eq!(proxy, "https://x.example.com");
}

#[test]
fn build_probe_urls_keeps_scheme_when_present() {
    let (origin, _) = build_probe_urls("https://api.example.com", "x.example.com");
    assert_eq!(origin, "https://api.example.com");
}

fn chain(messages: &[&str]) -> Vec<String> {
    messages.iter().map(|m| m.to_string()).collect()
}

#[test]
fn errors_about_names_are_recognized_in_any_cause() {
    assert!(is_dns_error(&chain(&["error sending request", "DNS error"])));
    assert!(is_dns_error(&chain(&["Name or Service Not Known"])));
    assert!(is_dns_error(&chain(&["a", "b", "Failed to LOOKUP address"])));
    assert!(is_dns_error(&chain(&["No Such Host is known"])));
    assert!(is_dns_error(&chain(&["NODOMAIN"])));
    assert!(!is_dns_error(&chain(&["connection refused", "tcp connect error"])));
    assert!(!is_dns_error(&[].to_vec()));
    assert!(names_dns_failure("no such host"));
    assert!(!names_dns_failure("No Such Host"));
}

fn next(step: ProbeStep) -> (DnsProbe, ProbeAction) {
    match step {
        ProbeStep::Next { state, action } => (state, action),
        other => panic!("{other:?}"),
    }
}

#[test]
fn a_name_that_is_not_resolved_is_resolved_elsewhere() {
    let url = "https://x.example.com";
    let (state, action) = DnsProbe::start(url);
    assert_eq!(action, ProbeAction::Get { url: url.to_string() });
    let failed = || ProbeReply::Failed { chain: chain(&["dns error"]) };
    let (state, action) = next(state.step(url, failed()));
    assert_eq!(action, ProbeAction::Lookup { host: "x.example.com".to_string() });
    let (state, action) = next(state.step(
        url,
        ProbeReply::Addresses { addresses: chain(&["192.0.2.1", "192.0.2.2"]) },
    ));
    assert_eq!(
        action,
        ProbeAction::GetVia {
            url: "https://192.0.2.1:443/".to_string(),
            host: "x.example.com".to_string()
        }
    );
    let (state, action) = next(state.step(url, failed()));
    assert_eq!(
        action,
        ProbeAction::GetVia {
            url: "https://192.0.2.2:443/".to_string(),
            host: "x.example.com".to_string()
        }
    );
    let (state, action) = next(state.step(url, failed()));
    assert_eq!(action, ProbeAction::Get { url: url.to_string() });
    assert_eq!(
        state.step(url, ProbeReply::Answered { status: 503 }),
        ProbeStep::Answered { status: 503 }
    );
}

#[test]
fn a_probe_ends_at_once_on_an_answer_or_another_error() {
    let url = "http://h:8080";
    let (state, _) = DnsProbe::start(url);
    assert_eq!(
        state.step(url, ProbeReply::Answered { status: 200 }),
        ProbeStep::Answered { status: 200 }
    );
    let (state, _) = DnsProbe::start(url);
    let refused = chain(&["connection refused"]);
    assert_eq!(
        state.step(url, ProbeReply::Failed { chain: refused.clone() }),
        ProbeStep::Failed { chain: refused }
    );
    assert!(matches!(
        elsewhere("no url", None),
        ProbeStep::Next { state: DnsProbe::Last, .. }
    ));
}

fn after(nanos: u64) -> Elapsed {
    Elapsed {
        nanos,
        tenths: "1.0".to_string(),
        whole: "1".to_string(),
    }
}

const SEC: u64 = 1_000_000_000;

#[test]
fn the_origin_is_asked_with_longer_pauses_until_its_time_is_over() {
    let cx = VerifyContext::new("localhost:1", "x.example.com", 8 * SEC, Mode::Json);
    let step = Verification::Start.step(&cx, VerifyEvent::Resumed, &after(0));
    assert!(
        matches!(&step.outputs[..], [Output::Event(e)] if member(e, "type").as_deref() == Some("tunnel_verifying"))
    );
    assert_eq!(
        step.action,
        VerifyAction::GetOrigin { url: "http://localhost:1".to_string() }
    );
    let mut state = step.state;
    let mut now = 0;
    let mut pauses = Vec::new();
    loop {
        let step = state.step(&cx, VerifyEvent::Answered { status: 502 }, &after(now));
        let nanos = match step.action {
            VerifyAction::Sleep { nanos } => nanos,
            other => panic!("{other:?}"),
        };
        pauses.push(nanos / 1_000_000);
        now += nanos;
        let step = step.state.step(&cx, VerifyEvent::Resumed, &after(now));
        state = step.state;
        if let VerifyAction::GetProxy { url, first } = step.action {
            assert_eq!(url, "https://x.example.com");
            assert!(first);
            assert!(
                matches!(&step.outputs[0], Output::Note(w) if w == "warning: origin http://localhost:1 did not respond within budget \u{2014} continuing")
            );
            break;
        }
    }
    assert_eq!(pauses, vec![250, 500, 1000, 2000, 250]);
    assert_eq!(now, 4 * SEC);
}

#[test]
fn the_proxy_is_asked_until_it_answers() {
    let cx = VerifyContext::new("localhost:1", "x.example.com", 8 * SEC, Mode::Text);
    let asked = Verification::OriginAsked { backoff: 250_000_000 };
    let step = asked.step(&cx, VerifyEvent::Answered { status: 404 }, &after(SEC));
    assert_eq!(step.outputs.len(), 1);
    assert!(matches!(step.action, VerifyAction::GetProxy { first: true, .. }));
    let failed = VerifyEvent::Failed { chain: chain(&["outer", "root cause"]) };
    let step = step.state.step(&cx, failed, &after(SEC));
    assert_eq!(step.action, VerifyAction::Sleep { nanos: 10 * SEC });
    assert!(
        matches!(&step.outputs[..], [Output::Note(n)] if n == "  \u{25CB} waiting for tunnel [https://x.example.com] (1s) ... root cause")
    );
    let step = step.state.step(&cx, VerifyEvent::Resumed, &after(11 * SEC));
    assert!(matches!(step.action, VerifyAction::GetProxy { first: false, .. }));
    let step = step.state.step(&cx, VerifyEvent::Answered { status: 503 }, &after(11 * SEC));
    assert!(matches!(&step.outputs[..], [Output::Note(n)] if n.ends_with("... HTTP 503")));
    let step = step.state.step(&cx, VerifyEvent::Resumed, &after(21 * SEC));
    let step = step.state.step(&cx, VerifyEvent::Answered { status: 499 }, &after(21 * SEC));
    assert_eq!(step.action, VerifyAction::Finish);
    assert!(
        matches!(&step.outputs[..], [Output::Note(n)] if n == "  \u{2713} proxy responding (1.0s) [https://x.example.com]: HTTP 499")
    );
    let odd = Verification::ProxyPaused.step(&cx, VerifyEvent::Answered { status: 200 }, &after(0));
    assert_eq!(odd.action, VerifyAction::Abandon);
}

// `listen`.

fn listen(label: Option<&str>, endpoint: Option<&str>, id: Option<&str>, mode: Mode) -> ListenContext {
    ListenContext {
        project_id: "proj".to_string(),
        label: label.map(String::from),
        endpoint: endpoint.map(String::from),
        id: id.map(String::from),
        endpoint_id: "device".to_string(),
        mode,
    }
}

fn start(cx: &ListenContext) -> ListenStep {
    Listening::Start.step(cx, ListenEvent::Started, 0)
}

fn error_of(step: &ListenStep) -> Option<String> {
    match &step.action {
        ListenAction::Exit { error } => error.clone(),
        _ => None,
    }
}

#[test]
fn a_new_tunnel_is_created_set_up_verified_and_served() {
    let cx = listen(None, Some("localhost:80"), None, Mode::Json);
    let step = start(&cx);
    assert_eq!(
        step.action,
        ListenAction::GetByEndpoint { endpoint: "localhost:80".to_string() }
    );
    let step = step.state.step(&cx, ListenEvent::Tunnel { tunnel: None }, 0);
    assert_eq!(
        step.action,
        ListenAction::Create {
            label: "localhost:80".to_string(),
            endpoint: "localhost:80".to_string()
        }
    );
    assert!(
        matches!(&step.outputs[..], [Output::Note(a), Output::Note(b)] if a == "Your endpoint ID: device" && b == "Setting up tunnel...")
    );
    let created = summary("t1", "localhost:80", "localhost:80");
    let step = step.state.step(&cx, ListenEvent::Changed { tunnel: created.clone() }, 0);
    assert!(
        matches!(&step.outputs[..], [Output::Event(e)] if member(e, "type").as_deref() == Some("tunnel_created"))
    );
    assert_eq!(step.action, ListenAction::Enable { id: "t1".to_string() });
    let step = step.state.step(&cx, ListenEvent::Enabled, 0);
    assert_eq!(step.action, ListenAction::AwaitProgress { id: "t1".to_string() });
    let progressed = ListenEvent::Progressed {
        hostnames: vec!["first.example.com".to_string(), "second.example.com".to_string()],
    };
    let step = step.state.step(&cx, progressed, 20 * SEC);
    assert_eq!(
        step.action,
        ListenAction::Verify {
            endpoint: "localhost:80".to_string(),
            hostname: "first.example.com".to_string(),
            budget: 40 * SEC
        }
    );
    let step = step.state.step(&cx, ListenEvent::Verified, 20 * SEC);
    assert_eq!(step.action, ListenAction::Get { id: "t1".to_string() });
    let step = step.state.step(&cx, ListenEvent::Tunnel { tunnel: Some(created) }, 21 * SEC + 5);
    assert_eq!(step.action, ListenAction::Watch);
    match &step.outputs[..] {
        [Output::Event(e)] => {
            assert_eq!(member(e, "type").as_deref(), Some("tunnel_ready"));
            assert_eq!(member(e, "id").as_deref(), Some("t1"));
            assert_eq!(member(e, "endpoint_id").as_deref(), Some("device"));
            assert_eq!(member(e, "status").as_deref(), Some("ready"));
            assert_eq!(
                e.get("elapsed_secs"),
                Some(&Json::Number(JsonNumber::Unsigned(21)))
            );
            assert_eq!(
                e.get("hostnames"),
                Some(&Json::Array(vec![Json::Text("t1.example.com".to_string())]))
            );
        }
        other => panic!("{other:?}"),
    }
    // It is told once.
    let step = step.state.step(&cx, ListenEvent::LoginClosed, 22 * SEC);
    assert!(step.outputs.is_empty());
}

#[test]
fn an_existing_tunnel_is_updated_when_its_label_differs() {
    let cx = listen(Some("new"), Some("localhost:80"), None, Mode::Json);
    let existing = summary("t1", "old", "localhost:80");
    let step = start(&cx).state.step(&cx, ListenEvent::Tunnel { tunnel: Some(existing) }, 0);
    assert_eq!(
        step.action,
        ListenAction::Update {
            id: "t1".to_string(),
            label: "new".to_string(),
            endpoint: "localhost:80".to_string()
        }
    );
    let updated = summary("t1", "new", "localhost:80");
    let step = step.state.step(&cx, ListenEvent::Changed { tunnel: updated }, 0);
    match &step.outputs[..] {
        [Output::Event(e)] => {
            assert_eq!(member(e, "type").as_deref(), Some("tunnel_updated"));
            assert_eq!(member(e, "label").as_deref(), Some("new"));
            assert_eq!(member(e, "endpoint").as_deref(), Some("localhost:80"));
            assert!(e.get("hostnames").is_some());
        }
        other => panic!("{other:?}"),
    }
    let same = listen(Some("old"), Some("localhost:80"), None, Mode::Json);
    let step = start(&same).state.step(
        &same,
        ListenEvent::Tunnel { tunnel: Some(summary("t1", "old", "localhost:80")) },
        0,
    );
    assert_eq!(step.action, ListenAction::Enable { id: "t1".to_string() });
}

#[test]
fn a_tunnel_is_found_by_its_id() {
    let cx = listen(None, None, Some("t1"), Mode::Text);
    let step = start(&cx);
    assert_eq!(step.action, ListenAction::Get { id: "t1".to_string() });
    let step = step.state.step(&cx, ListenEvent::Tunnel { tunnel: None }, 0);
    assert_eq!(
        error_of(&step).as_deref(),
        Some("Tunnel 't1' not found in project proj")
    );
    let both = listen(None, Some("localhost:80"), Some("t1"), Mode::Text);
    let found = ListenEvent::Tunnel { tunnel: Some(summary("t1", "l", "localhost:81")) };
    let step = start(&both).state.step(&both, found, 0);
    assert_eq!(
        error_of(&step).as_deref(),
        Some("--id 't1' references endpoint 'localhost:81' but --endpoint was 'localhost:80' \u{2014} they must agree (or omit --endpoint to inherit from the tunnel)")
    );
    let found = ListenEvent::Tunnel { tunnel: Some(summary("t1", "l", "localhost:81")) };
    let step = start(&cx).state.step(&cx, found, 0);
    assert_eq!(step.action, ListenAction::Enable { id: "t1".to_string() });
}

#[test]
fn without_flags_a_tunnel_is_picked() {
    let cx = listen(None, None, None, Mode::Text);
    assert_eq!(start(&cx).action, ListenAction::List);
    let step = start(&cx).state.step(&cx, ListenEvent::Tunnels { tunnels: vec![] }, 0);
    assert_eq!(
        error_of(&step).as_deref(),
        Some("No tunnels exist in project proj. Pass --endpoint to create one.")
    );
    let one = ListenEvent::Tunnels { tunnels: vec![summary("a", "A", "h:1")] };
    let step = start(&cx).state.step(&cx, one, 0);
    assert_eq!(step.action, ListenAction::Enable { id: "a".to_string() });
    let two = ListenEvent::Tunnels {
        tunnels: vec![summary("a", "A", "h:1"), summary("b", "B", "h:2")],
    };
    let step = start(&cx).state.step(&cx, two, 0);
    assert_eq!(
        step.action,
        ListenAction::Pick {
            choices: vec![
                "A  (a)  \u{2192} h:1".to_string(),
                "B  (b)  \u{2192} h:2".to_string()
            ]
        }
    );
    let step = step.state.step(&cx, ListenEvent::Picked { index: 1 }, 0);
    assert_eq!(step.action, ListenAction::Enable { id: "b".to_string() });
}

fn watching() -> Listening {
    Listening::Watching { id: "t1".to_string() }
}

#[test]
fn a_served_tunnel_is_switched_off_however_it_ends() {
    let cx = listen(None, None, None, Mode::Json);
    let deferred = TunnelProgress {
        hostnames: vec![],
        steps: vec![ProgressStep {
            kind: ProgressStepKind::IrohDnsPublished,
            status: StepStatus::Pending,
            reason: Some("DeferredToOwner".to_string()),
            message: None,
            resource: None,
        }],
    };
    let cases = [
        (ListenEvent::Interrupted, ExitReason::CtrlC, None, None),
        (
            ListenEvent::Polled { progress: None },
            ExitReason::DeletedUpstream,
            Some("tunnel_deleted_upstream"),
            Some("tunnel deleted upstream"),
        ),
        (
            ListenEvent::Polled { progress: Some(deferred) },
            ExitReason::TerminalFailure,
            Some("tunnel_terminal_failure"),
            Some("tunnel exited with terminal failure"),
        ),
    ];
    for (event, reason, told, error) in cases {
        let step = watching().step(&cx, event, 0);
        assert_eq!(step.action, ListenAction::Disable { id: "t1".to_string() });
        assert_eq!(
            step.state,
            Listening::Disabling { id: "t1".to_string(), reason }
        );
        let kind = step.outputs.first().map(|o| match o {
            Output::Event(e) => member(e, "type").unwrap(),
            other => panic!("{other:?}"),
        });
        assert_eq!(kind.as_deref(), told);
        let step = step.state.step(&cx, ListenEvent::Disabled, 0);
        assert_eq!(
            step.action,
            ListenAction::Exit { error: error.map(String::from) }
        );
        assert!(
            matches!(&step.outputs[..], [Output::Event(e)] if member(e, "type").as_deref() == Some("tunnel_disabled"))
        );
    }
}

#[test]
fn a_served_tunnel_survives_a_lost_login_and_a_failed_poll() {
    let cx = listen(None, None, None, Mode::Text);
    let lost = ListenEvent::LoginChanged { state: LoginState::Missing };
    let step = watching().step(&cx, lost, 0);
    assert_eq!(step.action, ListenAction::Watch);
    assert!(matches!(&step.outputs[..], [Output::Note(n)] if n == LOGIN_LOST));
    for event in [
        ListenEvent::LoginChanged { state: LoginState::Valid },
        ListenEvent::LoginClosed,
        ListenEvent::PollFailed,
        ListenEvent::Polled {
            progress: Some(TunnelProgress { hostnames: vec![], steps: vec![] }),
        },
    ] {
        let step = watching().step(&cx, event, 0);
        assert_eq!(step.action, ListenAction::Watch);
        assert!(step.outputs.is_empty());
    }
}

#[test]
fn failures_on_the_way_end_the_command() {
    let cx = listen(None, Some("h:1"), None, Mode::Text);
    let failed = || ListenEvent::Failed { message: "boom".to_string() };
    assert_eq!(error_of(&start(&cx).state.step(&cx, failed(), 0)).as_deref(), Some("boom"));
    let setting_up = Listening::SettingUp { endpoint: "h:1".to_string(), id: "t".to_string() };
    let step = setting_up.step(&cx, ListenEvent::Progressed { hostnames: vec![] }, 0);
    assert_eq!(
        error_of(&step).as_deref(),
        Some("Tunnel t has no hostname after Ready")
    );
    let fetching = Listening::Fetching { id: "t".to_string() };
    let step = fetching.step(&cx, ListenEvent::Tunnel { tunnel: None }, 0);
    assert_eq!(
        error_of(&step).as_deref(),
        Some("Tunnel t not found after setup")
    );
}

#[test]
fn readers_see_a_line_for_each_hostname() {
    let cx = listen(None, None, None, Mode::Text);
    let fetching = Listening::Fetching { id: "t".to_string() };
    let tunnel = ListenEvent::Tunnel { tunnel: Some(summary("t", "l", "h:1")) };
    let step = fetching.step(&cx, tunnel, 3 * SEC);
    assert!(
        matches!(&step.outputs[..], [Output::Line(l)] if l == "Tunnel ready after 3 sec: https://t.example.com")
    );
}

#[test]
fn verification_has_at_least_five_seconds() {
    let cx = listen(None, None, None, Mode::Text);
    for (elapsed, expected) in [(0, 60), (30, 30), (55, 5), (59, 5), (100, 5)] {
        let state = Listening::SettingUp { endpoint: "h:1".to_string(), id: "t".to_string() };
        let event = ListenEvent::Progressed { hostnames: vec!["x".to_string()] };
        let step = state.step(&cx, event, elapsed * SEC);
        assert!(
            matches!(step.action, ListenAction::Verify { budget, .. } if budget == expected * SEC),
            "{elapsed}"
        );
    }
}

// The other commands.

#[test]
fn the_program_runs_as_a_plugin_only() {
    let text = |s: &str| Some(s.to_string());
    assert_eq!(check_plugin_mode(&text("s"), &None), Ok(()));
    assert_eq!(check_plugin_mode(&None, &text("1")), Ok(()));
    let refused = check_plugin_mode(&None, &text("0")).unwrap_err();
    assert!(refused.contains("DATUM_PLUGIN_MODE=1"));
    assert!(check_plugin_mode(&None, &None).is_err());
}

#[test]
fn a_project_is_asked_for_or_named_by_the_session() {
    let text = |s: &str| Some(s.to_string());
    assert_eq!(select_project(text("p"), text("s")), Ok("p".to_string()));
    assert_eq!(select_project(None, text("s")), Ok("s".to_string()));
    assert!(select_project(None, text("")).unwrap_err().starts_with("no project set"));
    assert!(select_project(None, None).is_err());
}

#[test]
fn tunnels_are_listed_with_their_status() {
    assert_eq!(mode_of(true), Mode::Json);
    let none = render_list(mode_of(false), &vec![]);
    assert!(matches!(&none[..], [Output::Line(l)] if l == "No tunnels found."));
    let mut tunnels = vec![summary("a", "A", "h:1"), summary("b", "B", "h:2"), summary("c", "C", "h:3")];
    tunnels[1].programmed = true;
    tunnels[2].accepted = false;
    match &render_list(Mode::Json, &tunnels)[..] {
        [Output::Pretty(Json::Array(items))] => {
            let statuses: Vec<String> = items.iter().map(|i| member(i, "status").unwrap()).collect();
            assert_eq!(statuses, vec!["accepted", "ready", "pending"]);
            assert_eq!(member(&items[0], "type").as_deref(), Some("tunnel"));
            assert_eq!(items[0].get("enabled"), Some(&Json::Bool(true)));
        }
        other => panic!("{other:?}"),
    }
    assert_eq!(render_list(Mode::Text, &tunnels).len(), 3);
}

#[test]
fn an_update_keeps_what_is_not_asked_for() {
    let text = |s: &str| Some(s.to_string());
    assert_eq!(
        plan_update("a", Some(summary("a", "A", "h:1")), None, text("h:9")),
        Ok(("A".to_string(), "h:9".to_string()))
    );
    assert_eq!(
        plan_update("a", Some(summary("a", "A", "h:1")), text("B"), None),
        Ok(("B".to_string(), "h:1".to_string()))
    );
    assert_eq!(
        plan_update("a", None, None, None),
        Err("Tunnel a not found".to_string())
    );
    let lines = render_update(Mode::Text, &summary("a", "A", "h:1"));
    assert!(
        matches!(&lines[..], [Output::Line(x), Output::Line(y), Output::Line(z)]
            if x == "Updated tunnel a:" && y == "  label: A" && z == "  endpoint: h:1")
    );
    assert!(matches!(&render_update(Mode::Json, &summary("a", "A", "h:1"))[..], [Output::Event(_)]));
}

#[test]
fn a_deletion_is_told() {
    assert!(
        matches!(&render_delete(Mode::Text, "a")[..], [Output::Line(l)] if l == "Deleted tunnel a")
    );
    match &render_delete(Mode::Json, "a")[..] {
        [Output::Event(e)] => {
            assert_eq!(member(e, "type").as_deref(), Some("tunnel_deleted"));
            assert_eq!(e.get("deleted"), Some(&Json::Bool(true)));
        }
        other => panic!("{other:?}"),
    }
}

#[test]
fn joining_a_vpc_is_told() {
    let mut joining = Joining {
        vpc: "lab".to_string(),
        endpoint_id: "device".to_string(),
        bound_addrs: vec!["0.0.0.0:1".to_string(), "[::]:2".to_string()],
        tun_name: "datum-vpc0".to_string(),
        mtu: 1280,
        router_id: None,
        route_mode: ModeArg::VpcOnly,
        mode: Mode::Text,
    };
    match &joining.render_listening()[..] {
        [Output::Note(a), Output::Note(b), Output::Note(c)] => {
            assert_eq!(a, "  \u{25CB} Interface datum-vpc0 created (unaddressed, mtu 1280) \u{2014} waiting for router assignment");
            assert_eq!(b, "  \u{25CB} Listening on: 0.0.0.0:1, [::]:2");
            assert_eq!(c, "  \u{25CB} Your endpoint ID: device \u{2014} waiting for any router to connect");
        }
        other => panic!("{other:?}"),
    }
    match &joining.render_joined("fd00::2", 64)[..] {
        [Output::Note(a), Output::Note(b)] => {
            assert_eq!(a, "  \u{2713} Router assigned address fd00::2 (/64) \u{2014} interface datum-vpc0 configured");
            assert_eq!(b, "VPC attachment ready. Press Ctrl+C to stop...");
        }
        other => panic!("{other:?}"),
    }
    joining.mode = Mode::Json;
    joining.router_id = Some("r".to_string());
    assert!(
        matches!(&joining.render_listening()[..], [Output::Event(e)] if member(e, "type").as_deref() == Some("vpc_listening"))
    );
    match &joining.render_joined("fd00::2", 64)[..] {
        [Output::Event(e)] => {
            assert_eq!(member(e, "type").as_deref(), Some("vpc_ready"));
            assert_eq!(member(e, "mode").as_deref(), Some("vpc-only"));
            assert_eq!(member(e, "address").as_deref(), Some("fd00::2"));
        }
        other => panic!("{other:?}"),
    }
}

fn join_context(router_id: Option<&str>) -> JoinContext {
    JoinContext {
        vpc: "lab".to_string(),
        router_id: router_id.map(str::to_string),
        tun_name: "datum-vpc0".to_string(),
        mtu: 1280,
        route_mode: ModeArg::VpcOnly,
        mode: Mode::Text,
    }
}

fn joined(step: (Vec<Output>, JoinStep)) -> (Vec<Output>, Join, JoinAction) {
    match step {
        (out, JoinStep::Next { state, action }) => (out, state, action),
        other => panic!("{other:?}"),
    }
}

#[test]
fn a_device_joins_a_vpc_step_by_step() {
    let cx = join_context(None);
    let (out, state, action) = joined(cx.start());
    assert!(matches!(&out[..], [Output::Note(n)] if n == UNCHECKED_WARNING));
    assert_eq!(
        action,
        JoinAction::CreateTun {
            tun_name: "datum-vpc0".to_string(),
            mtu: 1280
        }
    );
    // The kernel may give the interface another name; that one counts.
    let created = JoinEvent::TunCreated {
        tun_name: "utun6".to_string(),
    };
    let (out, state, action) = joined(state.step(&cx, created));
    assert!(out.is_empty());
    assert_eq!(
        action,
        JoinAction::Bind {
            router: None,
            tun_name: "utun6".to_string(),
            mtu: 1280
        }
    );
    let bound = JoinEvent::Bound {
        endpoint_id: "device".to_string(),
        bound_addrs: vec!["0.0.0.0:1".to_string()],
    };
    let (out, state, action) = joined(state.step(&cx, bound));
    assert_eq!(out.len(), 3);
    assert_eq!(action, JoinAction::AwaitAssignment);
    assert!(matches!(
        state.clone().step(&cx, JoinEvent::NeverAssigned),
        (_, JoinStep::Exit { error: Some(e) }) if e.message() == NEVER_ASSIGNED
    ));
    let assigned = JoinEvent::Assigned {
        address: "fd00::2".to_string(),
        prefix_len: 64,
    };
    let (out, state, action) = joined(state.step(&cx, assigned));
    match &out[..] {
        [Output::Note(a), Output::Note(_)] => assert_eq!(
            a,
            "  \u{2713} Router assigned address fd00::2 (/64) \u{2014} interface utun6 configured"
        ),
        other => panic!("{other:?}"),
    }
    assert_eq!(action, JoinAction::AwaitInterrupt);
    let (_, state, action) = joined(state.step(&cx, JoinEvent::Interrupted));
    assert_eq!(action, JoinAction::Shutdown);
    assert!(matches!(
        state.step(&cx, JoinEvent::Stopped),
        (_, JoinStep::Exit { error: None })
    ));
}

#[test]
fn a_bad_router_id_ends_the_join() {
    let bad = join_context(Some("not an id")).start();
    match bad {
        (out, JoinStep::Exit { error: Some(e) }) => {
            assert!(out.is_empty());
            assert!(e
                .message()
                .starts_with("parsing --router-id as an iroh endpoint id: "));
        }
        other => panic!("{other:?}"),
    }
    let id = "ae58ff8833241ac82d6ff7611046ed67b5072d142c588d0063e942d9a75502b6";
    let (out, state, _) = joined(join_context(Some(id)).start());
    assert!(out.is_empty());
    assert_eq!(
        state,
        Join::CreatingTun {
            router: Some(id.to_string())
        }
    );
    let failed = JoinEvent::Failed {
        error: ServiceError::plain("no tun here"),
    };
    assert!(matches!(
        state.clone().step(&join_context(Some(id)), failed),
        (_, JoinStep::Exit { error: Some(e) }) if e.message() == "no tun here"
    ));
    assert!(matches!(
        state.step(&join_context(Some(id)), JoinEvent::Stopped),
        (_, JoinStep::Exit { error: Some(e) }) if e.message() == "unexpected event"
    ));
}
