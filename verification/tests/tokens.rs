use base64::Engine;
use datum_connect::datum_cloud::client::{authorization_header, DatumCloudClient};
use datum_connect::datum_cloud::helper::{
    helper_arguments, helper_config, helper_result, sanitize_stderr, show_duration,
    token_in_output, ExternalTokenError, HelperOutcome, HelperOutput,
};
use datum_connect::datum_cloud::jwt::{
    jwt_payload, parse_jwt_expiry, to_standard_base64, JwtParseError,
};
use datum_connect::datum_cloud::refresh::{
    check_token, ExternalTokenSource, RefreshAction, RefreshLoop, RefreshResult, RefreshTaskHealth,
    RefreshTaskState, StaticTokenSource, Wakeup, WakeupAction,
};
use datum_connect::datum_cloud::session::{
    auth_watch_action, AccessToken, AuthAction, AuthEvent, LoginState, Organization,
    OrganizationWithProjects, Project, Session,
};
use datum_connect::project_control_plane::ProjectControlPlaneClient;
use datum_connect::state::SelectedContext;

fn encode(bytes: &[u8]) -> String {
    base64::engine::general_purpose::URL_SAFE_NO_PAD.encode(bytes)
}

fn make_jwt_with_exp(exp: u64) -> String {
    let header = encode(br#"{"alg":"HS256","typ":"JWT"}"#);
    let payload = encode(format!(r#"{{"exp":{exp},"sub":"test-user"}}"#).as_bytes());
    format!("{header}.{payload}.fake_sig")
}

fn source() -> ExternalTokenSource {
    ExternalTokenSource::from_token(make_jwt_with_exp(9_999_999_999))
}

fn client() -> DatumCloudClient {
    DatumCloudClient::with_external_token_source(
        "https://api.datum.net".to_string(),
        "https://cloud.datum.net".to_string(),
        source(),
    )
}

// Expiry of tokens.

#[test]
fn parse_jwt_expiry_extracts_exp() {
    let token = make_jwt_with_exp(1700000000);
    let exp = parse_jwt_expiry(&token).unwrap().unwrap();
    assert_eq!(exp, 1700000000);
}

#[test]
fn parse_jwt_expiry_returns_none_when_missing() {
    let header = encode(b"{}");
    let payload = encode(br#"{"sub":"test-user"}"#);
    let token = format!("{header}.{payload}.sig");
    let exp = parse_jwt_expiry(&token).unwrap();
    assert!(exp.is_none());
}

#[test]
fn parse_jwt_expiry_rejects_too_short() {
    let result = parse_jwt_expiry("not-a-jwt");
    assert!(result.is_err());
    assert!(matches!(result, Err(JwtParseError::InvalidToken(_))));
}

#[test]
fn parse_jwt_expiry_rejects_invalid_base64() {
    let token = "header.!!!.sig".to_string();
    let result = parse_jwt_expiry(&token);
    assert!(result.is_err());
    assert!(matches!(result, Err(JwtParseError::InvalidBase64(_))));
}

#[test]
fn parse_jwt_expiry_rejects_invalid_json() {
    let header = encode(b"{}");
    let payload = encode(b"not-json");
    let token = format!("{header}.{payload}.sig");
    let result = parse_jwt_expiry(&token);
    assert!(result.is_err());
    assert!(matches!(result, Err(JwtParseError::Json(_))));
}

#[test]
fn parse_jwt_expiry_handles_url_safe_chars() {
    let payload_b64 = encode(br#"{"exp":9999999999,"sub":"test"}"#);
    let header = encode(b"{}");
    let token = format!("{header}.{payload_b64}.sig");
    let exp = parse_jwt_expiry(&token).unwrap().unwrap();
    assert_eq!(exp, 9999999999);
}

#[test]
fn a_payload_with_both_url_safe_characters_is_read() {
    // The encoding of this payload holds both `-` and `_`.
    let payload = encode("{\"exp\":7,\"x\":\"\u{3ff}\u{3bf}~~??>>\"}".as_bytes());
    assert!(payload.contains('_') || payload.contains('-'));
    assert_eq!(parse_jwt_expiry(&format!("h.{payload}.s")), Ok(Some(7)));
}

#[test]
fn a_payload_that_is_not_text_is_refused() {
    let payload = encode(&[0xff, 0xfe, 0x01]);
    assert!(matches!(
        parse_jwt_expiry(&format!("h.{payload}.s")),
        Err(JwtParseError::InvalidUtf8(_))
    ));
}

#[test]
fn an_expiry_that_is_no_whole_number_counts_as_none() {
    for exp in ["-1", "1.5", "\"7\"", "null"] {
        let payload = encode(format!("{{\"exp\":{exp}}}").as_bytes());
        assert_eq!(parse_jwt_expiry(&format!("h.{payload}.s")), Ok(None), "{exp}");
    }
}

#[test]
fn only_the_payload_counts() {
    let payload = encode(br#"{"exp":5}"#);
    assert_eq!(parse_jwt_expiry(&format!("a.{payload}.b")), Ok(Some(5)));
    assert_eq!(parse_jwt_expiry(&format!("c.{payload}.d")), Ok(Some(5)));
    assert_eq!(jwt_payload("a.b.c"), Some("b".to_string()));
}

#[test]
fn standard_base64_has_padding() {
    assert_eq!(to_standard_base64("a-_b"), "a+/b");
    assert_eq!(to_standard_base64("ab"), "ab==");
    assert_eq!(to_standard_base64("abc"), "abc=");
}

// The credentials helper.

#[test]
fn the_helper_and_the_session_are_needed() {
    let text = |s: &str| Some(s.to_string());
    assert_eq!(
        helper_config(None, text("s"), None),
        Err(ExternalTokenError::MissingHelper)
    );
    assert_eq!(
        helper_config(text("h"), None, None),
        Err(ExternalTokenError::MissingSession)
    );
    assert_eq!(
        helper_config(text("h"), text("s"), text("e")),
        Ok(("h".to_string(), "s".to_string()))
    );
    assert_eq!(
        helper_config(text("h"), None, text("e")),
        Ok(("h".to_string(), "e".to_string()))
    );
    assert_eq!(
        helper_arguments("my-session"),
        vec!["auth", "get-token", "--session", "my-session"]
    );
}

fn completed(success: bool, stdout: &[u8], stderr: &[u8]) -> HelperOutcome {
    HelperOutcome::Completed(HelperOutput {
        success,
        status: "exit status: 3".to_string(),
        stdout: stdout.to_vec(),
        stderr: stderr.to_vec(),
    })
}

#[test]
fn the_helper_writes_the_token_and_a_line_end() {
    assert_eq!(
        helper_result(completed(true, b"  token\n", b""), 1000),
        Ok("token".to_string())
    );
    assert_eq!(
        token_in_output(" \n"),
        Err(ExternalTokenError::HelperExecError(
            "empty token returned".to_string()
        ))
    );
}

#[test]
fn a_failed_helper_is_described_on_one_line() {
    let result = helper_result(completed(false, b"", b"no\n  such\tsession\x07\n"), 1000);
    assert_eq!(
        result,
        Err(ExternalTokenError::HelperExecError(
            "exit code exit status: 3: no such session".to_string()
        ))
    );
}

#[test]
fn bytes_that_are_no_text_are_shown_as_replacements() {
    assert_eq!(sanitize_stderr(b"caf\xe9!"), "caf\u{fffd}!");
}

#[test]
fn the_helper_can_break_off() {
    assert_eq!(
        helper_result(HelperOutcome::Cancelled, 1000),
        Err(ExternalTokenError::HelperCancelled)
    );
    assert_eq!(
        helper_result(HelperOutcome::TimedOut, 1500),
        Err(ExternalTokenError::HelperTimedOut(1500))
    );
    assert_eq!(
        helper_result(HelperOutcome::Broken("pipe".to_string()), 1000),
        Err(ExternalTokenError::HelperExecError(
            "process I/O failed: pipe".to_string()
        ))
    );
    assert_eq!(show_duration(30_000), "30s");
}

#[test]
fn a_bad_token_is_named_as_such() {
    assert_eq!(
        ExternalTokenError::InvalidToken("no dots".to_string()).message(),
        "invalid JWT token: no dots"
    );
    assert_eq!(
        ExternalTokenError::JwtParse("expected value".to_string()).message(),
        "failed to parse JWT payload: expected value"
    );
}

// Token sources.

#[test]
fn swap_token_updates_and_notifies_revision_watch() {
    let mut source = source();
    let seen = source.revision();
    let new_token = make_jwt_with_exp(8888888888);
    source.swap_token(new_token.clone());

    assert_eq!(source.token(), new_token);
    assert_ne!(source.revision(), seen);
    assert_eq!(source.revision(), 1);
}

#[test]
fn swap_token_multiple_times() {
    let mut source = source();
    for i in 1..=5 {
        let seen = source.revision();
        let new_token = make_jwt_with_exp(7777777000 + i);
        source.swap_token(new_token.clone());
        assert_eq!(source.token(), new_token);
        assert_ne!(source.revision(), seen);
        assert_eq!(source.revision(), i);
    }
}

#[test]
fn a_wish_for_a_refresh_is_no_swap() {
    let mut source = source();
    source.swap_token("one".to_string());
    source.force_refresh();
    source.swap_token("two".to_string());
    assert_eq!(source.revision(), 2);
    assert_eq!(source.refresh_trigger(), 1);
    assert_eq!(source.token(), "two");
}

#[test]
fn watch_receiver_initial_value() {
    let source = source();
    assert_eq!(source.revision(), 0);
}

#[test]
fn force_refresh_triggers_signal() {
    let mut source = source();
    assert_eq!(source.refresh_trigger(), 0);

    source.force_refresh();
    assert_eq!(source.refresh_trigger(), 1);

    source.force_refresh();
    assert_eq!(source.refresh_trigger(), 2);
}

#[test]
fn static_source_returns_and_rotates_token() {
    let mut source = StaticTokenSource::new("first");
    assert_eq!(source.token(), "first");

    source.set("second");
    assert_eq!(source.token(), "second");
}

#[test]
fn static_source_counts_refresh_requests() {
    let mut source = StaticTokenSource::new("t");
    assert_eq!(source.refresh_requests(), 0);
    source.force_refresh();
    source.force_refresh();
    assert_eq!(source.refresh_requests(), 2);
    assert_eq!(source.token(), "t", "no rotation on refresh");
}

#[test]
fn late_subscriber_sees_rotation_that_happened_with_no_receivers() {
    let mut source = StaticTokenSource::new("initial");
    source.set("rotated-with-nobody-listening");
    assert_eq!(source.token(), "rotated-with-nobody-listening");
}

// The refresh task.

const SEC: u128 = 1_000_000_000;

#[test]
fn a_token_is_refreshed_a_minute_before_it_expires() {
    let schedule = RefreshLoop::new(Some(10_000), 1_000 * SEC);
    assert_eq!(schedule.wait(1_000 * SEC), 8_940 * SEC);
    assert_eq!(schedule.wait(20_000 * SEC), 0);
    let schedule = RefreshLoop::new(None, 1_000 * SEC);
    assert_eq!(schedule.wait(1_000 * SEC), 3_600 * SEC);
}

#[test]
fn failures_wait_longer_and_longer_up_to_a_minute() {
    let mut schedule = RefreshLoop::new(Some(0), 0);
    let mut waits = Vec::new();
    for _ in 0..6 {
        assert_eq!(
            schedule.on_result(RefreshResult::Failed, 0),
            RefreshAction::Wait
        );
        waits.push(schedule.wait(0) / SEC);
    }
    assert_eq!(waits, vec![5, 10, 20, 40, 60, 60]);
    schedule.on_result(RefreshResult::Refreshed { expiry: Some(1_000) }, 0);
    assert_eq!(schedule.wait(0), 940 * SEC);
    schedule.on_result(RefreshResult::Failed, 0);
    assert_eq!(schedule.wait(0), 5 * SEC);
}

#[test]
fn the_task_stops_when_it_is_told_to() {
    let mut schedule = RefreshLoop::new(None, 0);
    assert_eq!(schedule.on_wakeup(Wakeup::Cancelled), WakeupAction::Stop);
    assert_eq!(schedule.on_wakeup(Wakeup::Closed), WakeupAction::Stop);
    assert_eq!(
        schedule.on_wakeup(Wakeup::Forced),
        WakeupAction::Refresh { forced: true }
    );
    assert_eq!(
        schedule.on_wakeup(Wakeup::Timer),
        WakeupAction::Refresh { forced: false }
    );
    assert_eq!(
        schedule.on_result(RefreshResult::Cancelled { stopping: true }, 0),
        RefreshAction::Stop
    );
}

#[test]
fn the_task_is_started_once_and_stopped_once() {
    let mut state = RefreshTaskState::Stopped;
    assert_eq!(state.health(false), RefreshTaskHealth::Stopped);
    assert_eq!(state.start(), Ok(()));
    assert_eq!(
        state.start(),
        Err(ExternalTokenError::RefreshAlreadyStarted)
    );
    assert_eq!(state.health(false), RefreshTaskHealth::Running);
    assert_eq!(state.health(true), RefreshTaskHealth::Finished);
    assert_eq!(state.begin_shutdown(), Ok(true));
    assert_eq!(state.health(false), RefreshTaskHealth::Stopping);
    assert_eq!(
        state.begin_shutdown(),
        Err(ExternalTokenError::RefreshShutdownInProgress)
    );
    state.finish_shutdown();
    assert_eq!(state.begin_shutdown(), Ok(false));
}

#[test]
fn a_token_without_a_readable_expiry_is_refused() {
    assert!(matches!(
        check_token("not-a-jwt".to_string()),
        Err(ExternalTokenError::InvalidToken(m)) if m.starts_with("failed to extract expiry: ")
    ));
    let token = make_jwt_with_exp(42);
    assert_eq!(check_token(token.clone()), Ok((token, Some(42))));
}

// The client.

#[test]
fn with_external_token_source_creates_plugin_mode_client() {
    assert!(client().is_plugin_mode());
}

#[test]
fn login_state_valid_in_plugin_mode() {
    assert_eq!(client().login_state(), LoginState::Valid);
}

#[test]
fn token_returns_external_token() {
    let expected = make_jwt_with_exp(9999999999);
    let client = DatumCloudClient::with_external_token_source(
        "https://api.datum.net".to_string(),
        "https://cloud.datum.net".to_string(),
        ExternalTokenSource::from_token(expected.clone()),
    );
    assert_eq!(client.token(), expected);
}

#[test]
fn auth_state_returns_dummy_in_plugin_mode() {
    let client = client();
    let auth = client.auth_state(1_700_000_000);
    assert_eq!(auth.profile.user_id, "external");
    assert_eq!(auth.profile.email, "external@plugin");
    assert_eq!(auth.tokens.access_token.secret(), client.token());
    assert_eq!(auth.tokens.access_token.as_str(), client.token());
    assert_eq!(auth.tokens.refresh_token, None);
    assert_eq!(auth.tokens.issued_at, 1_700_000_000);
    assert_eq!(auth.tokens.expires_in, 3600);
}

#[test]
fn api_url_from_env_in_plugin_mode() {
    assert!(client().api_url().contains("datum.net"));
}

#[test]
fn web_url_from_env_in_plugin_mode() {
    assert!(client().web_url().contains("datum.net"));
}

#[test]
fn selected_context_is_none_in_plugin_mode() {
    assert!(client().selected_context().is_none());
}

#[test]
fn selecting_a_project_makes_its_control_plane_the_active_one() {
    let mut client = client();
    assert_eq!(client.active_control_plane_url(), None);
    assert!(client.set_selected_context(Some(SelectedContext::for_project("p1"))));
    assert!(!client.set_selected_context(Some(SelectedContext::for_project("p1"))));
    assert_eq!(client.selected_context().unwrap().project_id, "p1");
    assert_eq!(
        client.active_control_plane_url().unwrap(),
        "https://api.datum.net/apis/resourcemanager.miloapis.com/v1alpha1/projects/p1/control-plane"
    );
    client.swap_token("next".to_string());
    assert_eq!(client.token(), "next");
    assert_eq!(authorization_header("next"), "Bearer next");
    assert!(client.orgs_projects_cache().is_empty());
}

#[test]
fn a_control_plane_client_is_built_again_for_another_token() {
    let mut plane = ProjectControlPlaneClient::new(
        "test-project".to_string(),
        "https://api.datum.net/cp".to_string(),
        "one".to_string(),
    );
    assert_eq!(plane.project_id(), "test-project");
    assert_eq!(plane.server_url(), "https://api.datum.net/cp");
    assert!(!plane.needs_rebuild("one"));
    assert!(plane.needs_rebuild("two"));
    plane.rebuilt("two".to_string());
    assert_eq!(plane.access_token(), "two");
    assert!(!plane.needs_rebuild("two"));
}

#[test]
fn projects_are_announced_when_they_change() {
    let orgs = || {
        vec![OrganizationWithProjects {
            org: Organization {
                resource_id: "o".to_string(),
                display_name: "Org".to_string(),
                type_: "personal".to_string(),
            },
            projects: vec![Project {
                resource_id: "p".to_string(),
                display_name: "Project".to_string(),
            }],
        }]
    };
    let mut session = Session::empty();
    assert!(session.set_orgs_projects(orgs()));
    assert!(!session.set_orgs_projects(orgs()));
    let mut other = orgs();
    other[0].projects[0].display_name = "Renamed".to_string();
    assert!(session.set_orgs_projects(other));
}

#[test]
fn a_watched_token_is_followed() {
    let act = auth_watch_action;
    assert_eq!(act(true, AuthEvent::Started, LoginState::Missing), AuthAction::Refresh);
    assert_eq!(act(true, AuthEvent::Changed, LoginState::Missing), AuthAction::UseAnnounced);
    assert_eq!(act(false, AuthEvent::Started, LoginState::Missing), AuthAction::Wait);
    assert_eq!(act(false, AuthEvent::Changed, LoginState::Valid), AuthAction::Refresh);
    assert_eq!(act(true, AuthEvent::Closed, LoginState::Valid), AuthAction::Stop);
    assert_eq!(LoginState::default(), LoginState::Missing);
    assert_eq!(AccessToken::new("t".to_string()).secret(), "t");
}

// What the environment must name.

#[test]
fn from_env_requires_helper() {
    let session = Some("test-session".to_string());
    assert_eq!(
        helper_config(None, session.clone(), session),
        Err(ExternalTokenError::MissingHelper)
    );
}

#[test]
fn from_env_requires_session() {
    assert_eq!(
        helper_config(Some("/bin/echo".to_string()), None, None),
        Err(ExternalTokenError::MissingSession)
    );
}

#[test]
fn from_env_requires_datum_credentials_helper() {
    assert_eq!(
        helper_config(None, None, Some("test-session".to_string())),
        Err(ExternalTokenError::MissingHelper)
    );
}

#[test]
fn from_env_succeeds_with_fake_helper() {
    let written = format!("{}\n", make_jwt_with_exp(9_999_999_999));
    let token = helper_result(completed(true, written.as_bytes(), b""), 15_000)
        .expect("fake helper should produce a token");
    let (token, expiry) = check_token(token).expect("a token with an expiry");
    assert!(token.starts_with("eyJ"));
    assert_eq!(expiry, Some(9_999_999_999));
}

#[test]
fn helper_execution_times_out() {
    assert_eq!(
        helper_result(HelperOutcome::TimedOut, 100),
        Err(ExternalTokenError::HelperTimedOut(100))
    );
}

#[test]
fn duplicate_refresh_start_is_rejected() {
    let mut state = RefreshTaskState::Stopped;
    state.start().expect("first refresh task should start");
    assert_eq!(state.health(false), RefreshTaskHealth::Running);
    assert_eq!(
        state.start(),
        Err(ExternalTokenError::RefreshAlreadyStarted)
    );
    assert_eq!(state.begin_shutdown(), Ok(true));
    state.finish_shutdown();
    assert_eq!(state.health(false), RefreshTaskHealth::Stopped);
}

// Control planes.

const PLANE_URL: &str = "https://api.datum.net/apis/resourcemanager.miloapis.com/v1alpha1/projects/test-project/control-plane";

#[test]
fn new_with_shared_token_source_sets_project_id() {
    let url = PLANE_URL.replace("test-project", "my-project-id");
    let plane =
        ProjectControlPlaneClient::new("my-project-id".to_string(), url, source().token());
    assert_eq!(plane.project_id(), "my-project-id");
}

#[test]
fn access_token_returns_token_from_source() {
    let source = source();
    let plane = ProjectControlPlaneClient::new(
        "test-project".to_string(),
        PLANE_URL.to_string(),
        source.token(),
    );
    assert_eq!(plane.access_token(), source.token());
}

#[test]
fn server_url_is_stored() {
    let url = "https://custom.api.net/apis/resourcemanager.miloapis.com/v1alpha1/projects/test/control-plane";
    let plane = ProjectControlPlaneClient::new(
        "test-project".to_string(),
        url.to_string(),
        source().token(),
    );
    assert_eq!(plane.server_url(), url);
}

#[test]
fn retained_client_from_normal_factory_observes_rotation() {
    let mut source = StaticTokenSource::new("initial-token");
    let mut plane = ProjectControlPlaneClient::new(
        "test-project".to_string(),
        PLANE_URL.to_string(),
        source.token(),
    );
    assert_eq!(plane.access_token(), "initial-token");
    source.set("rotated-token");
    assert_eq!(
        auth_watch_action(true, AuthEvent::Changed, LoginState::Valid),
        AuthAction::UseAnnounced
    );
    assert!(plane.needs_rebuild(&source.token()));
    plane.rebuilt(source.token());
    assert_eq!(plane.access_token(), "rotated-token");
}
