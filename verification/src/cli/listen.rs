//! `listen`: which tunnel is served, how it is set up, and what ends it.
use vstd::prelude::*;

use crate::cli::output;
use crate::cli::output::{Mode, Output, OutputModel};
use crate::datum_cloud::session::LoginState;
use crate::json::JsonModel;
use crate::numbers;
use crate::text;
use crate::tunnels::listing::{TunnelSummary, TunnelSummaryModel};
use crate::tunnels::progress::{TunnelProgress, TunnelProgressModel};

verus! {

pub const NANOS_PER_SEC: u64 = 1_000_000_000;

/// How long setup and verification take together, as planned.
pub const TOTAL_BUDGET_NANOS: u64 = 60_000_000_000;

/// How long the verification may take in any case.
pub const MIN_BUDGET_NANOS: u64 = 5_000_000_000;

/// What the user is told when the login is lost.
pub const LOGIN_LOST: &'static str =
    "Datum login has expired or been revoked. Stop this command and run `datum login` to refresh credentials. The tunnel will continue running on cached credentials until they expire.";

/// Why a tunnel is served no longer.
#[derive(Debug, Clone, Copy, PartialEq, Eq, Structural)]
pub enum ExitReason {
    /// The user has stopped it.
    CtrlC,
    /// A checkpoint fails for good.
    TerminalFailure,
    /// The tunnel is gone.
    DeletedUpstream,
}

impl DeepView for ExitReason {
    type V = ExitReason;

    open spec fn deep_view(&self) -> ExitReason {
        *self
    }
}

/// What is asked for.
#[derive(Debug, Clone, PartialEq, Eq)]
pub struct ListenContext {
    pub project_id: String,
    pub label: Option<String>,
    pub endpoint: Option<String>,
    pub id: Option<String>,
    /// The ID of this device.
    pub endpoint_id: String,
    pub mode: Mode,
}

/// The model of a [`ListenContext`].
#[verifier::ext_equal]
pub struct ListenContextModel {
    pub project_id: Seq<char>,
    pub label: Option<Seq<char>>,
    pub endpoint: Option<Seq<char>>,
    pub id: Option<Seq<char>>,
    pub endpoint_id: Seq<char>,
    pub mode: Mode,
}

impl DeepView for ListenContext {
    type V = ListenContextModel;

    open spec fn deep_view(&self) -> ListenContextModel {
        ListenContextModel {
            project_id: self.project_id.deep_view(),
            label: self.label.deep_view(),
            endpoint: self.endpoint.deep_view(),
            id: self.id.deep_view(),
            endpoint_id: self.endpoint_id.deep_view(),
            mode: self.mode.deep_view(),
        }
    }
}

/// How far serving a tunnel is: what it waits for.
#[derive(Debug, Clone, PartialEq, Eq)]
pub enum Listening {
    /// The start.
    Start,
    /// The tunnel that was asked for by its ID.
    Finding,
    /// The tunnels of the project.
    Listing,
    /// Which of the tunnels the user picks.
    Picking { tunnels: Vec<TunnelSummary> },
    /// The tunnel to the endpoint, where there is one.
    Matching { endpoint: String },
    /// The tunnel as it was created or updated.
    Changing { endpoint: String, created: bool },
    /// That the tunnel is switched on.
    Enabling { endpoint: String, id: String },
    /// That every checkpoint is ready.
    SettingUp { endpoint: String, id: String },
    /// That the proxy answers.
    Verifying { id: String },
    /// The tunnel as it is after the setup.
    Fetching { id: String },
    /// Something that ends the tunnel.
    Watching { id: String },
    /// That the tunnel is switched off.
    Disabling { id: String, reason: ExitReason },
    /// Nothing.
    Over,
}

/// The model of a [`Listening`].
#[verifier::ext_equal]
pub enum ListeningModel {
    Start,
    Finding,
    Listing,
    Picking { tunnels: Seq<TunnelSummaryModel> },
    Matching { endpoint: Seq<char> },
    Changing { endpoint: Seq<char>, created: bool },
    Enabling { endpoint: Seq<char>, id: Seq<char> },
    SettingUp { endpoint: Seq<char>, id: Seq<char> },
    Verifying { id: Seq<char> },
    Fetching { id: Seq<char> },
    Watching { id: Seq<char> },
    Disabling { id: Seq<char>, reason: ExitReason },
    Over,
}

impl DeepView for Listening {
    type V = ListeningModel;

    open spec fn deep_view(&self) -> ListeningModel {
        match self {
            Listening::Start => ListeningModel::Start,
            Listening::Finding => ListeningModel::Finding,
            Listening::Listing => ListeningModel::Listing,
            Listening::Picking { tunnels } => ListeningModel::Picking {
                tunnels: tunnels.deep_view(),
            },
            Listening::Matching { endpoint } => ListeningModel::Matching {
                endpoint: endpoint.deep_view(),
            },
            Listening::Changing { endpoint, created } => ListeningModel::Changing {
                endpoint: endpoint.deep_view(),
                created: *created,
            },
            Listening::Enabling { endpoint, id } => ListeningModel::Enabling {
                endpoint: endpoint.deep_view(),
                id: id.deep_view(),
            },
            Listening::SettingUp { endpoint, id } => ListeningModel::SettingUp {
                endpoint: endpoint.deep_view(),
                id: id.deep_view(),
            },
            Listening::Verifying { id } => ListeningModel::Verifying {
                id: id.deep_view(),
            },
            Listening::Fetching { id } => ListeningModel::Fetching {
                id: id.deep_view(),
            },
            Listening::Watching { id } => ListeningModel::Watching {
                id: id.deep_view(),
            },
            Listening::Disabling { id, reason } => ListeningModel::Disabling {
                id: id.deep_view(),
                reason: reason.deep_view(),
            },
            Listening::Over => ListeningModel::Over,
        }
    }
}

/// What happens.
#[derive(Debug, Clone, PartialEq, Eq)]
pub enum ListenEvent {
    /// The command starts.
    Started,
    /// The tunnel that was asked for, where it exists.
    Tunnel { tunnel: Option<TunnelSummary> },
    /// The tunnels of the project.
    Tunnels { tunnels: Vec<TunnelSummary> },
    /// The user has picked the tunnel at this index.
    Picked { index: usize },
    /// The tunnel was created or updated.
    Changed { tunnel: TunnelSummary },
    /// The tunnel is switched on.
    Enabled,
    /// Every checkpoint is ready.
    Progressed { hostnames: Vec<String> },
    /// The proxy answers.
    Verified,
    /// The user stops the command.
    Interrupted,
    /// The login has another state.
    LoginChanged { state: LoginState },
    /// The login is not watched any more.
    LoginClosed,
    /// The progress of the tunnel, where it exists.
    Polled { progress: Option<TunnelProgress> },
    /// The progress could not be read.
    PollFailed,
    /// The tunnel was switched off, or could not be.
    Disabled,
    /// What was asked for failed.
    Failed { message: String },
}

/// The model of a [`ListenEvent`].
#[verifier::ext_equal]
pub enum ListenEventModel {
    Started,
    Tunnel { tunnel: Option<TunnelSummaryModel> },
    Tunnels { tunnels: Seq<TunnelSummaryModel> },
    Picked { index: usize },
    Changed { tunnel: TunnelSummaryModel },
    Enabled,
    Progressed { hostnames: Seq<Seq<char>> },
    Verified,
    Interrupted,
    LoginChanged { state: LoginState },
    LoginClosed,
    Polled { progress: Option<TunnelProgressModel> },
    PollFailed,
    Disabled,
    Failed { message: Seq<char> },
}

impl DeepView for ListenEvent {
    type V = ListenEventModel;

    open spec fn deep_view(&self) -> ListenEventModel {
        match self {
            ListenEvent::Started => ListenEventModel::Started,
            ListenEvent::Tunnel { tunnel } => ListenEventModel::Tunnel {
                tunnel: tunnel.deep_view(),
            },
            ListenEvent::Tunnels { tunnels } => ListenEventModel::Tunnels {
                tunnels: tunnels.deep_view(),
            },
            ListenEvent::Picked { index } => ListenEventModel::Picked {
                index: *index,
            },
            ListenEvent::Changed { tunnel } => ListenEventModel::Changed {
                tunnel: tunnel.deep_view(),
            },
            ListenEvent::Enabled => ListenEventModel::Enabled,
            ListenEvent::Progressed { hostnames } => ListenEventModel::Progressed {
                hostnames: hostnames.deep_view(),
            },
            ListenEvent::Verified => ListenEventModel::Verified,
            ListenEvent::Interrupted => ListenEventModel::Interrupted,
            ListenEvent::LoginChanged { state } => ListenEventModel::LoginChanged {
                state: state.deep_view(),
            },
            ListenEvent::LoginClosed => ListenEventModel::LoginClosed,
            ListenEvent::Polled { progress } => ListenEventModel::Polled {
                progress: progress.deep_view(),
            },
            ListenEvent::PollFailed => ListenEventModel::PollFailed,
            ListenEvent::Disabled => ListenEventModel::Disabled,
            ListenEvent::Failed { message } => ListenEventModel::Failed {
                message: message.deep_view(),
            },
        }
    }
}

/// What is done next.
#[derive(Debug, Clone, PartialEq, Eq)]
pub enum ListenAction {
    /// Reads the tunnel.
    Get { id: String },
    /// Reads the tunnels of the project.
    List,
    /// Lets the user pick one of these.
    Pick { choices: Vec<String> },
    /// Reads the tunnel to the endpoint.
    GetByEndpoint { endpoint: String },
    /// Updates the tunnel.
    Update { id: String, label: String, endpoint: String },
    /// Creates a tunnel.
    Create { label: String, endpoint: String },
    /// Switches the tunnel on.
    Enable { id: String },
    /// Waits for the checkpoints of the tunnel.
    AwaitProgress { id: String },
    /// Verifies both ends of the tunnel.
    Verify { endpoint: String, hostname: String, budget: u64 },
    /// Waits for what happens next.
    Watch,
    /// Switches the tunnel off.
    Disable { id: String },
    /// Ends, with an error where there is one.
    Exit { error: Option<String> },
}

/// The model of a [`ListenAction`].
#[verifier::ext_equal]
pub enum ListenActionModel {
    Get { id: Seq<char> },
    List,
    Pick { choices: Seq<Seq<char>> },
    GetByEndpoint { endpoint: Seq<char> },
    Update { id: Seq<char>, label: Seq<char>, endpoint: Seq<char> },
    Create { label: Seq<char>, endpoint: Seq<char> },
    Enable { id: Seq<char> },
    AwaitProgress { id: Seq<char> },
    Verify { endpoint: Seq<char>, hostname: Seq<char>, budget: u64 },
    Watch,
    Disable { id: Seq<char> },
    Exit { error: Option<Seq<char>> },
}

impl DeepView for ListenAction {
    type V = ListenActionModel;

    open spec fn deep_view(&self) -> ListenActionModel {
        match self {
            ListenAction::Get { id } => ListenActionModel::Get {
                id: id.deep_view(),
            },
            ListenAction::List => ListenActionModel::List,
            ListenAction::Pick { choices } => ListenActionModel::Pick {
                choices: choices.deep_view(),
            },
            ListenAction::GetByEndpoint { endpoint } => ListenActionModel::GetByEndpoint {
                endpoint: endpoint.deep_view(),
            },
            ListenAction::Update { id, label, endpoint } => ListenActionModel::Update {
                id: id.deep_view(),
                label: label.deep_view(),
                endpoint: endpoint.deep_view(),
            },
            ListenAction::Create { label, endpoint } => ListenActionModel::Create {
                label: label.deep_view(),
                endpoint: endpoint.deep_view(),
            },
            ListenAction::Enable { id } => ListenActionModel::Enable {
                id: id.deep_view(),
            },
            ListenAction::AwaitProgress { id } => ListenActionModel::AwaitProgress {
                id: id.deep_view(),
            },
            ListenAction::Verify { endpoint, hostname, budget } => ListenActionModel::Verify {
                endpoint: endpoint.deep_view(),
                hostname: hostname.deep_view(),
                budget: *budget,
            },
            ListenAction::Watch => ListenActionModel::Watch,
            ListenAction::Disable { id } => ListenActionModel::Disable {
                id: id.deep_view(),
            },
            ListenAction::Exit { error } => ListenActionModel::Exit {
                error: error.deep_view(),
            },
        }
    }
}

/// What comes of an event: the next state, what is written, and what is done.
#[derive(Debug)]
pub struct ListenStep {
    pub state: Listening,
    pub outputs: Vec<Output>,
    pub action: ListenAction,
}

/// The model of a [`ListenStep`].
#[verifier::ext_equal]
pub struct ListenStepModel {
    pub state: ListeningModel,
    pub outputs: Seq<OutputModel>,
    pub action: ListenActionModel,
}

impl DeepView for ListenStep {
    type V = ListenStepModel;

    open spec fn deep_view(&self) -> ListenStepModel {
        ListenStepModel {
            state: self.state.deep_view(),
            outputs: self.outputs.deep_view(),
            action: self.action.deep_view(),
        }
    }
}

// ---------------------------------------------------------------------------
// What each event leads to
// ---------------------------------------------------------------------------
/// The next state and action, with nothing written.
pub open spec fn quietly(state: ListeningModel, action: ListenActionModel) -> ListenStepModel {
    ListenStepModel { state, outputs: seq![], action }
}

/// The end, with an error.
pub open spec fn fail_with(message: Seq<char>) -> ListenStepModel {
    quietly(ListeningModel::Over, ListenActionModel::Exit { error: Some(message) })
}

/// The tunnel is switched on.
pub open spec fn enable(
    endpoint: Seq<char>,
    id: Seq<char>,
    outputs: Seq<OutputModel>,
) -> ListenStepModel {
    ListenStepModel {
        state: ListeningModel::Enabling { endpoint, id },
        outputs,
        action: ListenActionModel::Enable { id },
    }
}

/// What is written when the setup begins.
pub open spec fn setup_notes(cx: ListenContextModel) -> Seq<OutputModel> {
    seq![
        OutputModel::Note("Your endpoint ID: "@ + cx.endpoint_id),
        OutputModel::Note("Setting up tunnel..."@),
    ]
}

/// The setup begins: of an existing tunnel, whose label is changed where another
/// is asked for, or of a new one.
pub open spec fn set_up(
    cx: ListenContextModel,
    existing: Option<TunnelSummaryModel>,
    endpoint: Seq<char>,
) -> ListenStepModel {
    match existing {
        Some(tunnel) => match cx.label {
            Some(label) => if label != tunnel.label {
                ListenStepModel {
                    state: ListeningModel::Changing { endpoint, created: false },
                    outputs: setup_notes(cx),
                    action: ListenActionModel::Update { id: tunnel.id, label, endpoint },
                }
            } else {
                enable(endpoint, tunnel.id, setup_notes(cx))
            },
            None => enable(endpoint, tunnel.id, setup_notes(cx)),
        },
        None => ListenStepModel {
            state: ListeningModel::Changing { endpoint, created: true },
            outputs: setup_notes(cx),
            action: ListenActionModel::Create {
                label: match cx.label {
                    Some(label) => label,
                    None => endpoint,
                },
                endpoint,
            },
        },
    }
}

/// The tunnel that was asked for by its ID must exist, and must lead to the
/// endpoint, where that was asked for too.
pub open spec fn found(
    cx: ListenContextModel,
    id: Seq<char>,
    tunnel: Option<TunnelSummaryModel>,
) -> ListenStepModel {
    match tunnel {
        None => fail_with("Tunnel '"@ + id + "' not found in project "@ + cx.project_id),
        Some(tunnel) => match cx.endpoint {
            Some(endpoint) => if endpoint != tunnel.endpoint {
                fail_with(
                    "--id '"@ + id + "' references endpoint '"@ + tunnel.endpoint
                        + "' but --endpoint was '"@ + endpoint
                        + "' \u{2014} they must agree (or omit --endpoint to inherit from the tunnel)"@,
                )
            } else {
                set_up(cx, Some(tunnel), endpoint)
            },
            None => set_up(cx, Some(tunnel), tunnel.endpoint),
        },
    }
}

/// How a tunnel is shown to the user who picks one.
pub open spec fn choice_text(tunnel: TunnelSummaryModel) -> Seq<char> {
    tunnel.label + "  ("@ + tunnel.id + ")  \u{2192} "@ + tunnel.endpoint
}

/// How the tunnels are shown to the user who picks one.
pub open spec fn choice_texts(tunnels: Seq<TunnelSummaryModel>) -> Seq<Seq<char>> {
    Seq::new(tunnels.len(), |i: int| choice_text(tunnels[i]))
}

/// Of the tunnels of the project, the only one is taken; among several the user
/// picks.
pub open spec fn choose_from(
    cx: ListenContextModel,
    tunnels: Seq<TunnelSummaryModel>,
) -> ListenStepModel {
    if tunnels.len() == 0 {
        fail_with(
            "No tunnels exist in project "@ + cx.project_id + ". Pass --endpoint to create one."@,
        )
    } else if tunnels.len() == 1 {
        set_up(cx, Some(tunnels[0]), tunnels[0].endpoint)
    } else {
        quietly(
            ListeningModel::Picking { tunnels },
            ListenActionModel::Pick { choices: choice_texts(tunnels) },
        )
    }
}

/// How long the verification may take after a setup that took `elapsed`.
pub open spec fn verify_budget(elapsed: u64) -> u64 {
    if elapsed + MIN_BUDGET_NANOS < TOTAL_BUDGET_NANOS {
        (TOTAL_BUDGET_NANOS - elapsed) as u64
    } else {
        MIN_BUDGET_NANOS
    }
}

/// What is written when the tunnel is ready.
pub open spec fn ready_outputs(
    cx: ListenContextModel,
    tunnel: TunnelSummaryModel,
    elapsed: u64,
) -> Seq<OutputModel> {
    let secs = elapsed / NANOS_PER_SEC;
    match cx.mode {
        Mode::Json => seq![
            OutputModel::Event(output::ready_event_model(tunnel, cx.endpoint_id, secs)),
        ],
        Mode::Text => Seq::new(
            tunnel.hostnames.len(),
            |i: int| OutputModel::Line(ready_line(secs, tunnel.hostnames[i])),
        ),
    }
}

/// The line for one hostname of a tunnel that is ready.
pub open spec fn ready_line(secs: u64, hostname: Seq<char>) -> Seq<char> {
    "Tunnel ready after "@ + numbers::decimal(secs as nat) + " sec: https://"@ + hostname
}

/// The tunnel is switched off, for this reason.
pub open spec fn disable(
    id: Seq<char>,
    reason: ExitReason,
    outputs: Seq<OutputModel>,
) -> ListenStepModel {
    ListenStepModel {
        state: ListeningModel::Disabling { id, reason },
        outputs,
        action: ListenActionModel::Disable { id },
    }
}

/// The error that the command ends with.
pub open spec fn exit_error(reason: ExitReason) -> Option<Seq<char>> {
    match reason {
        ExitReason::CtrlC => None,
        ExitReason::TerminalFailure => Some("tunnel exited with terminal failure"@),
        ExitReason::DeletedUpstream => Some("tunnel deleted upstream"@),
    }
}

/// What an event means for a tunnel that is served.
pub open spec fn watch(
    cx: ListenContextModel,
    id: Seq<char>,
    event: ListenEventModel,
) -> ListenStepModel {
    let on = quietly(ListeningModel::Watching { id }, ListenActionModel::Watch);
    match event {
        ListenEventModel::Interrupted => disable(id, ExitReason::CtrlC, seq![]),
        ListenEventModel::LoginChanged { state } => if state is Missing {
            ListenStepModel {
                outputs: seq![
                    output::told(
                        cx.mode,
                        output::message_event_model("tunnel_login_lost"@, id, LOGIN_LOST@),
                        LOGIN_LOST@,
                    ),
                ],
                ..on
            }
        } else {
            on
        },
        ListenEventModel::LoginClosed => on,
        ListenEventModel::PollFailed => on,
        ListenEventModel::Polled { progress: None } => {
            let message = "Tunnel "@ + id + " no longer exists on the server"@;
            disable(
                id,
                ExitReason::DeletedUpstream,
                seq![
                    output::told(
                        cx.mode,
                        output::message_event_model("tunnel_deleted_upstream"@, id, message),
                        message,
                    ),
                ],
            )
        },
        ListenEventModel::Polled { progress: Some(progress) } => match progress.terminal_from(0) {
            Some(step) => disable(
                id,
                ExitReason::TerminalFailure,
                seq![
                    output::told(
                        cx.mode,
                        output::message_event_model(
                            "tunnel_terminal_failure"@,
                            id,
                            output::failure_text(step),
                        ),
                        output::failure_text(step),
                    ),
                ],
            ),
            None => on,
        },
        ListenEventModel::Failed { message } => fail_with(message),
        _ => fail_with("unexpected event"@),
    }
}

/// What the command does when something happens, `elapsed` nanoseconds after
/// the setup began.
pub open spec fn listen_step(
    state: ListeningModel,
    cx: ListenContextModel,
    event: ListenEventModel,
    elapsed: u64,
) -> ListenStepModel {
    match (state, event) {
        (ListeningModel::Start, ListenEventModel::Started) => match (cx.id, cx.endpoint) {
            (Some(id), _) => quietly(ListeningModel::Finding, ListenActionModel::Get { id }),
            (None, Some(endpoint)) => quietly(
                ListeningModel::Matching { endpoint },
                ListenActionModel::GetByEndpoint { endpoint },
            ),
            (None, None) => quietly(ListeningModel::Listing, ListenActionModel::List),
        },
        (ListeningModel::Finding, ListenEventModel::Tunnel { tunnel }) => found(
            cx,
            match cx.id {
                Some(id) => id,
                None => Seq::empty(),
            },
            tunnel,
        ),
        (ListeningModel::Listing, ListenEventModel::Tunnels { tunnels }) => choose_from(
            cx,
            tunnels,
        ),
        (ListeningModel::Picking { tunnels }, ListenEventModel::Picked { index }) => if index
            < tunnels.len() {
            set_up(cx, Some(tunnels[index as int]), tunnels[index as int].endpoint)
        } else {
            fail_with("unexpected event"@)
        },
        (ListeningModel::Matching { endpoint }, ListenEventModel::Tunnel { tunnel }) => set_up(
            cx,
            tunnel,
            endpoint,
        ),
        (
            ListeningModel::Changing { endpoint, created },
            ListenEventModel::Changed { tunnel },
        ) => enable(
            endpoint,
            tunnel.id,
            output::event_only(
                cx.mode,
                if created {
                    output::id_event_model("tunnel_created"@, tunnel.id)
                } else {
                    output::updated_event_model(tunnel)
                },
            ),
        ),
        (ListeningModel::Enabling { endpoint, id }, ListenEventModel::Enabled) => quietly(
            ListeningModel::SettingUp { endpoint, id },
            ListenActionModel::AwaitProgress { id },
        ),
        (
            ListeningModel::SettingUp { endpoint, id },
            ListenEventModel::Progressed { hostnames },
        ) => if hostnames.len() == 0 {
            fail_with("Tunnel "@ + id + " has no hostname after Ready"@)
        } else {
            ListenStepModel {
                state: ListeningModel::Verifying { id },
                outputs: seq![OutputModel::Note("Verifying connectivity..."@)],
                action: ListenActionModel::Verify {
                    endpoint,
                    hostname: hostnames[0],
                    budget: verify_budget(elapsed),
                },
            }
        },
        (ListeningModel::Verifying { id }, ListenEventModel::Verified) => quietly(
            ListeningModel::Fetching { id },
            ListenActionModel::Get { id },
        ),
        (ListeningModel::Fetching { id }, ListenEventModel::Tunnel { tunnel }) => match tunnel {
            None => fail_with("Tunnel "@ + id + " not found after setup"@),
            Some(tunnel) => ListenStepModel {
                state: ListeningModel::Watching { id },
                outputs: ready_outputs(cx, tunnel, elapsed),
                action: ListenActionModel::Watch,
            },
        },
        (ListeningModel::Watching { id }, event) => watch(cx, id, event),
        (ListeningModel::Disabling { id, reason }, ListenEventModel::Disabled) => ListenStepModel {
            state: ListeningModel::Over,
            outputs: output::event_only(
                cx.mode,
                output::id_event_model("tunnel_disabled"@, id),
            ),
            action: ListenActionModel::Exit { error: exit_error(reason) },
        },
        (_, ListenEventModel::Failed { message }) => fail_with(message),
        _ => fail_with("unexpected event"@),
    }
}

// ---------------------------------------------------------------------------
// The steps
// ---------------------------------------------------------------------------
fn silent(state: Listening, action: ListenAction) -> (r: ListenStep)
    ensures
        r.deep_view() == quietly(state.deep_view(), action.deep_view()),
{
    let outputs: Vec<Output> = Vec::new();
    assert(outputs.deep_view() =~= seq![]);
    ListenStep { state, outputs, action }
}

fn failed(message: String) -> (r: ListenStep)
    ensures
        r.deep_view() == fail_with(message@),
{
    silent(Listening::Over, ListenAction::Exit { error: Some(message) })
}

fn switch_on(endpoint: String, id: String, outputs: Vec<Output>) -> (r: ListenStep)
    ensures
        r.deep_view() == enable(endpoint@, id@, outputs.deep_view()),
{
    let action = ListenAction::Enable { id: id.clone() };
    ListenStep { state: Listening::Enabling { endpoint, id }, outputs, action }
}

fn switch_off(id: String, reason: ExitReason, outputs: Vec<Output>) -> (r: ListenStep)
    ensures
        r.deep_view() == disable(id@, reason, outputs.deep_view()),
{
    let action = ListenAction::Disable { id: id.clone() };
    ListenStep { state: Listening::Disabling { id, reason }, outputs, action }
}

fn choices(tunnels: &Vec<TunnelSummary>) -> (r: Vec<String>)
    ensures
        r.deep_view() == choice_texts(tunnels.deep_view()),
{
    let mut out: Vec<String> = Vec::new();
    let mut i: usize = 0;
    while i < tunnels.len()
        invariant
            i <= tunnels@.len(),
            out@.len() == i,
            forall|j: int|
                0 <= j < i ==> (#[trigger] out@[j])@ == choice_text(tunnels@[j].deep_view()),
        decreases tunnels@.len() - i,
    {
        let tunnel = &tunnels[i];
        let mut choice = text::concat3(&tunnel.label, "  (", &tunnel.id);
        choice.append(")  \u{2192} ");
        choice.append(&tunnel.endpoint);
        out.push(choice);
        i = i + 1;
    }
    assert(out.deep_view() =~= choice_texts(tunnels.deep_view()));
    out
}

fn ready_lines(secs: u64, hostnames: &Vec<String>) -> (r: Vec<Output>)
    ensures
        r.deep_view() == Seq::new(
            hostnames.deep_view().len(),
            |i: int| OutputModel::Line(ready_line(secs, hostnames.deep_view()[i])),
        ),
{
    let mut out: Vec<Output> = Vec::new();
    let number = numbers::decimal_text(secs);
    let mut i: usize = 0;
    while i < hostnames.len()
        invariant
            i <= hostnames@.len(),
            number@ == numbers::decimal(secs as nat),
            out@.len() == i,
            forall|j: int|
                0 <= j < i ==> (#[trigger] out@[j]).deep_view() == OutputModel::Line(
                    ready_line(secs, hostnames@[j]@),
                ),
        decreases hostnames@.len() - i,
    {
        let mut line = text::concat3("Tunnel ready after ", &number, " sec: https://");
        line.append(&hostnames[i]);
        out.push(Output::Line(line));
        i = i + 1;
    }
    assert(out.deep_view() =~= Seq::new(
        hostnames.deep_view().len(),
        |i: int| OutputModel::Line(ready_line(secs, hostnames.deep_view()[i])),
    ));
    out
}

fn budget_after(elapsed: u64) -> (r: u64)
    ensures
        r == verify_budget(elapsed),
{
    if elapsed < TOTAL_BUDGET_NANOS - MIN_BUDGET_NANOS {
        TOTAL_BUDGET_NANOS - elapsed
    } else {
        MIN_BUDGET_NANOS
    }
}

impl ListenContext {
    fn notes(&self) -> (r: Vec<Output>)
        ensures
            r.deep_view() == setup_notes(self.deep_view()),
    {
        let mut out: Vec<Output> = Vec::new();
        out.push(Output::Note(text::concat2("Your endpoint ID: ", &self.endpoint_id)));
        out.push(Output::Note("Setting up tunnel...".to_owned()));
        assert(out.deep_view() =~= setup_notes(self.deep_view()));
        out
    }

    /// What is told in words, or as an event.
    fn tell(&self, kind: &str, id: &str, message: &str) -> (r: Vec<Output>)
        ensures
            r.deep_view() == seq![
                output::told(
                    self.mode,
                    output::message_event_model(kind@, id@, message@),
                    message@,
                ),
            ],
    {
        let mut out: Vec<Output> = Vec::new();
        if self.mode == Mode::Json {
            out.push(Output::Event(output::message_event(kind, id, message)));
        } else {
            out.push(Output::Note(message.to_owned()));
        }
        assert(out.deep_view() =~= seq![
            output::told(
                self.mode,
                output::message_event_model(kind@, id@, message@),
                message@,
            ),
        ]);
        out
    }

    fn begin(&self, existing: Option<TunnelSummary>, endpoint: String) -> (r: ListenStep)
        ensures
            r.deep_view() == set_up(self.deep_view(), existing.deep_view(), endpoint@),
    {
        let outputs = self.notes();
        match existing {
            Some(tunnel) => {
                match &self.label {
                    Some(label) => {
                        if !text::text_eq(label, &tunnel.label) {
                            let action = ListenAction::Update {
                                id: tunnel.id,
                                label: label.clone(),
                                endpoint: endpoint.clone(),
                            };
                            return ListenStep {
                                state: Listening::Changing { endpoint, created: false },
                                outputs,
                                action,
                            };
                        }
                    },
                    None => {},
                }
                switch_on(endpoint, tunnel.id, outputs)
            },
            None => {
                let label: String = match &self.label {
                    Some(label) => label.clone(),
                    None => endpoint.clone(),
                };
                let action = ListenAction::Create { label, endpoint: endpoint.clone() };
                ListenStep {
                    state: Listening::Changing { endpoint, created: true },
                    outputs,
                    action,
                }
            },
        }
    }

    fn adopt(&self, tunnel: TunnelSummary) -> (r: ListenStep)
        ensures
            r.deep_view() == set_up(
                self.deep_view(),
                Some(tunnel.deep_view()),
                tunnel.deep_view().endpoint,
            ),
    {
        let endpoint = tunnel.endpoint.clone();
        self.begin(Some(tunnel), endpoint)
    }

    fn on_found(&self, tunnel: Option<TunnelSummary>) -> (r: ListenStep)
        ensures
            r.deep_view() == found(
                self.deep_view(),
                match self.deep_view().id {
                    Some(id) => id,
                    None => Seq::empty(),
                },
                tunnel.deep_view(),
            ),
    {
        let id: &str = match &self.id {
            Some(id) => id.as_str(),
            None => "",
        };
        proof {
            reveal_strlit("");
            assert(self.id is None ==> id@ =~= Seq::empty());
        }
        match tunnel {
            None => {
                let mut message = text::concat3("Tunnel '", id, "' not found in project ");
                message.append(&self.project_id);
                failed(message)
            },
            Some(tunnel) => {
                match &self.endpoint {
                    Some(endpoint) => {
                        if !text::text_eq(endpoint, &tunnel.endpoint) {
                            let mut message = text::concat3("--id '", id, "' references endpoint '");
                            message.append(&tunnel.endpoint);
                            message.append("' but --endpoint was '");
                            message.append(endpoint);
                            message.append(
                                "' \u{2014} they must agree (or omit --endpoint to inherit from the tunnel)",
                            );
                            return failed(message);
                        }
                    },
                    None => {},
                }
                self.adopt(tunnel)
            },
        }
    }

    fn on_tunnels(&self, tunnels: Vec<TunnelSummary>) -> (r: ListenStep)
        ensures
            r.deep_view() == choose_from(self.deep_view(), tunnels.deep_view()),
    {
        if tunnels.len() == 0 {
            return failed(
                text::concat3(
                    "No tunnels exist in project ",
                    &self.project_id,
                    ". Pass --endpoint to create one.",
                ),
            );
        }
        let mut tunnels = tunnels;
        if tunnels.len() == 1 {
            assert(tunnels.deep_view()[0] == tunnels@[0].deep_view());
            let tunnel = tunnels.remove(0);
            return self.adopt(tunnel);
        }
        let action = ListenAction::Pick { choices: choices(&tunnels) };
        silent(Listening::Picking { tunnels }, action)
    }

    fn on_watch(&self, id: String, event: ListenEvent) -> (r: ListenStep)
        ensures
            r.deep_view() == watch(self.deep_view(), id@, event.deep_view()),
    {
        match event {
            ListenEvent::Interrupted => {
                let outputs: Vec<Output> = Vec::new();
                assert(outputs.deep_view() =~= seq![]);
                switch_off(id, ExitReason::CtrlC, outputs)
            },
            ListenEvent::LoginChanged { state: LoginState::Missing } => {
                let outputs = self.tell("tunnel_login_lost", &id, LOGIN_LOST);
                ListenStep {
                    state: Listening::Watching { id },
                    outputs,
                    action: ListenAction::Watch,
                }
            },
            ListenEvent::LoginChanged { .. }
            | ListenEvent::LoginClosed
            | ListenEvent::PollFailed => silent(Listening::Watching { id }, ListenAction::Watch),
            ListenEvent::Polled { progress: None } => {
                let message = text::concat3("Tunnel ", &id, " no longer exists on the server");
                let outputs = self.tell("tunnel_deleted_upstream", &id, &message);
                switch_off(id, ExitReason::DeletedUpstream, outputs)
            },
            ListenEvent::Polled { progress: Some(progress) } => {
                match progress.terminal_failure() {
                    Some(step) => {
                        let message = output::format_terminal_failure(step);
                        let outputs = self.tell("tunnel_terminal_failure", &id, &message);
                        switch_off(id, ExitReason::TerminalFailure, outputs)
                    },
                    None => silent(Listening::Watching { id }, ListenAction::Watch),
                }
            },
            ListenEvent::Failed { message } => failed(message),
            _ => failed("unexpected event".to_owned()),
        }
    }

    fn on_changed(&self, endpoint: String, created: bool, tunnel: TunnelSummary) -> (r: ListenStep)
        ensures
            r.deep_view() == listen_step(
                ListeningModel::Changing { endpoint: endpoint@, created },
                self.deep_view(),
                ListenEventModel::Changed { tunnel: tunnel.deep_view() },
                0,
            ),
    {
        let mut outputs: Vec<Output> = Vec::new();
        if self.mode == Mode::Json {
            outputs.push(
                Output::Event(
                    if created {
                        output::id_event("tunnel_created", &tunnel.id)
                    } else {
                        output::updated_event(&tunnel)
                    },
                ),
            );
        }
        assert(outputs.deep_view() =~= output::event_only(
            self.mode,
            if created {
                output::id_event_model("tunnel_created"@, tunnel.deep_view().id)
            } else {
                output::updated_event_model(tunnel.deep_view())
            },
        ));
        switch_on(endpoint, tunnel.id, outputs)
    }

    fn on_progress(
        &self,
        endpoint: String,
        id: String,
        hostnames: Vec<String>,
        elapsed: u64,
    ) -> (r: ListenStep)
        ensures
            r.deep_view() == listen_step(
                ListeningModel::SettingUp { endpoint: endpoint@, id: id@ },
                self.deep_view(),
                ListenEventModel::Progressed { hostnames: hostnames.deep_view() },
                elapsed,
            ),
    {
        if hostnames.len() == 0 {
            return failed(text::concat3("Tunnel ", &id, " has no hostname after Ready"));
        }
        assert(hostnames.deep_view()[0] == hostnames@[0]@);
        let mut outputs: Vec<Output> = Vec::new();
        outputs.push(Output::Note("Verifying connectivity...".to_owned()));
        assert(outputs.deep_view() =~= seq![OutputModel::Note("Verifying connectivity..."@)]);
        ListenStep {
            state: Listening::Verifying { id },
            outputs,
            action: ListenAction::Verify {
                endpoint,
                hostname: hostnames[0].clone(),
                budget: budget_after(elapsed),
            },
        }
    }

    fn on_ready(&self, id: String, tunnel: Option<TunnelSummary>, elapsed: u64) -> (r: ListenStep)
        ensures
            r.deep_view() == listen_step(
                ListeningModel::Fetching { id: id@ },
                self.deep_view(),
                ListenEventModel::Tunnel { tunnel: tunnel.deep_view() },
                elapsed,
            ),
    {
        let tunnel = match tunnel {
            None => {
                return failed(text::concat3("Tunnel ", &id, " not found after setup"));
            },
            Some(tunnel) => tunnel,
        };
        let secs: u64 = elapsed / NANOS_PER_SEC;
        let outputs: Vec<Output> = if self.mode == Mode::Json {
            let mut outputs: Vec<Output> = Vec::new();
            outputs.push(Output::Event(output::ready_event(&tunnel, &self.endpoint_id, secs)));
            outputs
        } else {
            ready_lines(secs, &tunnel.hostnames)
        };
        assert(outputs.deep_view() =~= ready_outputs(
            self.deep_view(),
            tunnel.deep_view(),
            elapsed,
        ));
        ListenStep { state: Listening::Watching { id }, outputs, action: ListenAction::Watch }
    }

    fn on_disabled(&self, id: String, reason: ExitReason) -> (r: ListenStep)
        ensures
            r.deep_view() == listen_step(
                ListeningModel::Disabling { id: id@, reason },
                self.deep_view(),
                ListenEventModel::Disabled,
                0,
            ),
    {
        let mut outputs: Vec<Output> = Vec::new();
        if self.mode == Mode::Json {
            outputs.push(Output::Event(output::id_event("tunnel_disabled", &id)));
        }
        assert(outputs.deep_view() =~= output::event_only(
            self.mode,
            output::id_event_model("tunnel_disabled"@, id@),
        ));
        let error: Option<String> = match reason {
            ExitReason::CtrlC => None,
            ExitReason::TerminalFailure => Some("tunnel exited with terminal failure".to_owned()),
            ExitReason::DeletedUpstream => Some("tunnel deleted upstream".to_owned()),
        };
        ListenStep { state: Listening::Over, outputs, action: ListenAction::Exit { error } }
    }
}

impl Listening {
    /// Goes on with the command when something happens, `elapsed` nanoseconds
    /// after the setup began.
    pub fn step(self, cx: &ListenContext, event: ListenEvent, elapsed: u64) -> (r: ListenStep)
        ensures
            r.deep_view() == listen_step(
                self.deep_view(),
                cx.deep_view(),
                event.deep_view(),
                elapsed,
            ),
    {
        match (self, event) {
            (Listening::Start, ListenEvent::Started) => match (&cx.id, &cx.endpoint) {
                (Some(id), _) => silent(Listening::Finding, ListenAction::Get { id: id.clone() }),
                (None, Some(endpoint)) => silent(
                    Listening::Matching { endpoint: endpoint.clone() },
                    ListenAction::GetByEndpoint { endpoint: endpoint.clone() },
                ),
                (None, None) => silent(Listening::Listing, ListenAction::List),
            },
            (Listening::Finding, ListenEvent::Tunnel { tunnel }) => cx.on_found(tunnel),
            (Listening::Listing, ListenEvent::Tunnels { tunnels }) => cx.on_tunnels(tunnels),
            (Listening::Picking { tunnels }, ListenEvent::Picked { index }) => {
                if index < tunnels.len() {
                    assert(tunnels.deep_view()[index as int] == tunnels@[index as int].deep_view());
                    let mut tunnels = tunnels;
                    let tunnel = tunnels.remove(index);
                    cx.adopt(tunnel)
                } else {
                    failed("unexpected event".to_owned())
                }
            },
            (Listening::Matching { endpoint }, ListenEvent::Tunnel { tunnel }) => {
                cx.begin(tunnel, endpoint)
            },
            (Listening::Changing { endpoint, created }, ListenEvent::Changed { tunnel }) => {
                cx.on_changed(endpoint, created, tunnel)
            },
            (Listening::Enabling { endpoint, id }, ListenEvent::Enabled) => {
                let action = ListenAction::AwaitProgress { id: id.clone() };
                silent(Listening::SettingUp { endpoint, id }, action)
            },
            (Listening::SettingUp { endpoint, id }, ListenEvent::Progressed { hostnames }) => {
                cx.on_progress(endpoint, id, hostnames, elapsed)
            },
            (Listening::Verifying { id }, ListenEvent::Verified) => {
                let action = ListenAction::Get { id: id.clone() };
                silent(Listening::Fetching { id }, action)
            },
            (Listening::Fetching { id }, ListenEvent::Tunnel { tunnel }) => {
                cx.on_ready(id, tunnel, elapsed)
            },
            (Listening::Watching { id }, event) => cx.on_watch(id, event),
            (Listening::Disabling { id, reason }, ListenEvent::Disabled) => {
                cx.on_disabled(id, reason)
            },
            (_, ListenEvent::Failed { message }) => failed(message),
            _ => failed("unexpected event".to_owned()),
        }
    }
}

// ---------------------------------------------------------------------------
// Laws
// ---------------------------------------------------------------------------
/// Something that happened, and how long after the start of the setup.
pub type Happening = (ListenEventModel, u64);

/// The state of the command after the first `n` of the things that happened.
pub open spec fn state_after(cx: ListenContextModel, events: Seq<Happening>, n: int) -> ListeningModel
    decreases n,
{
    if n <= 0 {
        ListeningModel::Start
    } else {
        listen_step(state_after(cx, events, n - 1), cx, events[n - 1].0, events[n - 1].1).state
    }
}

/// Whether the proxy was found to answer among the first `n` things.
pub open spec fn verified_before(events: Seq<Happening>, n: int) -> bool {
    exists|i: int| 0 <= i < n && (#[trigger] events[i]).0 is Verified
}

/// Whether every checkpoint was found to be ready among the first `n` things.
pub open spec fn set_up_before(events: Seq<Happening>, n: int) -> bool {
    exists|i: int| 0 <= i < n && (#[trigger] events[i]).0 is Progressed
}

/// A tunnel is served, and told to be ready, only after every checkpoint was
/// ready and the proxy answered.
pub proof fn ready_comes_after_setup_and_verification(
    cx: ListenContextModel,
    events: Seq<Happening>,
    n: int,
)
    requires
        0 <= n <= events.len(),
    ensures
        state_after(cx, events, n) is Verifying ==> set_up_before(events, n),
        state_after(cx, events, n) is Fetching || state_after(cx, events, n) is Watching
            || state_after(cx, events, n) is Disabling ==> set_up_before(events, n)
            && verified_before(events, n),
    decreases n,
{
    if n > 0 {
        ready_comes_after_setup_and_verification(cx, events, n - 1);
        if set_up_before(events, n - 1) {
            let i = choose|i: int| 0 <= i < n - 1 && (#[trigger] events[i]).0 is Progressed;
            assert(0 <= i < n && events[i].0 is Progressed);
        }
        if verified_before(events, n - 1) {
            let i = choose|i: int| 0 <= i < n - 1 && (#[trigger] events[i]).0 is Verified;
            assert(0 <= i < n && events[i].0 is Verified);
        }
        let last = events[n - 1];
        assert(0 <= n - 1 < n);
    }
}

/// Whether something that is written is the event that the tunnel is ready.
pub open spec fn says_ready(written: OutputModel) -> bool {
    written matches OutputModel::Event(JsonModel::Object(members)) && members.contains_key("type"@)
        && members["type"@] == JsonModel::Text("tunnel_ready"@)
}

/// Whether a step writes the event that the tunnel is ready.
pub open spec fn tells_ready(step: ListenStepModel) -> bool {
    exists|i: int| 0 <= i < step.outputs.len() && says_ready(#[trigger] step.outputs[i])
}

/// The step that the thing number `n` leads to.
pub open spec fn step_at(cx: ListenContextModel, events: Seq<Happening>, n: int) -> ListenStepModel {
    listen_step(state_after(cx, events, n), cx, events[n].0, events[n].1)
}

/// How far the command is in a state.
spec fn stage(state: ListeningModel) -> int {
    match state {
        ListeningModel::Start => 0,
        ListeningModel::Finding => 1,
        ListeningModel::Listing => 1,
        ListeningModel::Matching { .. } => 1,
        ListeningModel::Picking { .. } => 2,
        ListeningModel::Changing { .. } => 3,
        ListeningModel::Enabling { .. } => 4,
        ListeningModel::SettingUp { .. } => 5,
        ListeningModel::Verifying { .. } => 6,
        ListeningModel::Fetching { .. } => 7,
        ListeningModel::Watching { .. } => 8,
        ListeningModel::Disabling { .. } => 9,
        ListeningModel::Over => 10,
    }
}

proof fn lemma_event_kinds()
    ensures
        "tunnel_ready"@ != "tunnel_created"@,
        "tunnel_ready"@ != "tunnel_updated"@,
        "tunnel_ready"@ != "tunnel_login_lost"@,
        "tunnel_ready"@ != "tunnel_terminal_failure"@,
        "tunnel_ready"@ != "tunnel_deleted_upstream"@,
        "tunnel_ready"@ != "tunnel_disabled"@,
        "type"@ != "id"@,
        "type"@ != "message"@,
        "type"@ != "label"@,
        "type"@ != "endpoint"@,
        "type"@ != "hostnames"@,
        "type"@ != "endpoint_id"@,
        "type"@ != "status"@,
        "type"@ != "elapsed_secs"@,
{
    reveal_strlit("tunnel_ready");
    reveal_strlit("tunnel_created");
    reveal_strlit("tunnel_updated");
    reveal_strlit("tunnel_login_lost");
    reveal_strlit("tunnel_terminal_failure");
    reveal_strlit("tunnel_deleted_upstream");
    reveal_strlit("tunnel_disabled");
    reveal_strlit("type");
    reveal_strlit("id");
    reveal_strlit("message");
    reveal_strlit("label");
    reveal_strlit("endpoint");
    reveal_strlit("hostnames");
    reveal_strlit("endpoint_id");
    reveal_strlit("status");
    reveal_strlit("elapsed_secs");
    assert("tunnel_ready"@.len() == 12);
    assert("tunnel_created"@.len() == 14);
    assert("tunnel_updated"@.len() == 14);
    assert("tunnel_login_lost"@.len() == 17);
    assert("tunnel_terminal_failure"@.len() == 23);
    assert("tunnel_deleted_upstream"@.len() == 23);
    assert("tunnel_disabled"@.len() == 15);
    assert("type"@.len() == 4);
    assert("id"@.len() == 2);
    assert("message"@.len() == 7);
    assert("label"@.len() == 5);
    assert("endpoint"@.len() == 8);
    assert("hostnames"@.len() == 9);
    assert("endpoint_id"@.len() == 11);
    assert("status"@.len() == 6);
    assert("elapsed_secs"@.len() == 12);
}

/// The event that the tunnel is ready is written by the step that begins to serve
/// it, and by no other.
pub proof fn ready_is_told_where_serving_begins(
    cx: ListenContextModel,
    state: ListeningModel,
    event: ListenEventModel,
    elapsed: u64,
)
    requires
        cx.mode is Json,
    ensures
        tells_ready(listen_step(state, cx, event, elapsed)) <==> state is Fetching && listen_step(
            state,
            cx,
            event,
            elapsed,
        ).state is Watching,
{
    lemma_event_kinds();
    let step = listen_step(state, cx, event, elapsed);
    if state is Fetching && step.state is Watching {
        assert(says_ready(step.outputs[0]));
    }
}

proof fn lemma_stages_grow(cx: ListenContextModel, events: Seq<Happening>, i: int, j: int)
    requires
        0 <= i <= j,
    ensures
        stage(state_after(cx, events, i)) <= stage(state_after(cx, events, j)),
    decreases j - i,
{
    if i < j {
        lemma_stages_grow(cx, events, i, j - 1);
    }
}

/// The event that the tunnel is ready is written at most once in a run.
pub proof fn ready_is_told_once(
    cx: ListenContextModel,
    events: Seq<Happening>,
    i: int,
    j: int,
)
    requires
        cx.mode is Json,
        0 <= i < j < events.len(),
        tells_ready(step_at(cx, events, i)),
    ensures
        !tells_ready(step_at(cx, events, j)),
{
    ready_is_told_where_serving_begins(
        cx,
        state_after(cx, events, i),
        events[i].0,
        events[i].1,
    );
    ready_is_told_where_serving_begins(
        cx,
        state_after(cx, events, j),
        events[j].0,
        events[j].1,
    );
    assert(state_after(cx, events, i + 1) == step_at(cx, events, i).state);
    lemma_stages_grow(cx, events, i + 1, j);
}

/// Whether an event is one of those that a served tunnel waits for.
pub open spec fn is_watched(event: ListenEventModel) -> bool {
    event is Interrupted || event is LoginChanged || event is LoginClosed || event is Polled
        || event is PollFailed
}

/// Whatever ends a served tunnel, the tunnel is switched off before the command
/// ends, and the command succeeds only where the user stopped it.
pub proof fn served_tunnel_is_switched_off(
    cx: ListenContextModel,
    id: Seq<char>,
    event: ListenEventModel,
    elapsed: u64,
    reason: ExitReason,
)
    requires
        is_watched(event),
    ensures
        ({
            let step = listen_step(ListeningModel::Watching { id }, cx, event, elapsed);
            ||| step.state == (ListeningModel::Watching { id }) && step.action is Watch
            ||| step.state is Disabling && step.action == (ListenActionModel::Disable { id })
        }),
        listen_step(
            ListeningModel::Disabling { id, reason },
            cx,
            ListenEventModel::Disabled,
            elapsed,
        ).action matches ListenActionModel::Exit { error } && (error is None <==> reason is CtrlC),
{
}

/// A lost login is told, and the tunnel stays.
pub proof fn lost_login_keeps_the_tunnel(
    cx: ListenContextModel,
    id: Seq<char>,
    state: LoginState,
    elapsed: u64,
)
    ensures
        ({
            let step = listen_step(
                ListeningModel::Watching { id },
                cx,
                ListenEventModel::LoginChanged { state },
                elapsed,
            );
            &&& step.state == (ListeningModel::Watching { id })
            &&& step.action is Watch
            &&& step.outputs.len() > 0 <==> state is Missing
        }),
{
}

/// `--id` and `--endpoint` must agree: where they do not, nothing is changed and
/// the command fails.
pub proof fn disagreeing_flags_are_refused(
    cx: ListenContextModel,
    tunnel: TunnelSummaryModel,
    elapsed: u64,
)
    requires
        cx.endpoint matches Some(endpoint) && endpoint != tunnel.endpoint,
    ensures
        ({
            let step = listen_step(
                ListeningModel::Finding,
                cx,
                ListenEventModel::Tunnel { tunnel: Some(tunnel) },
                elapsed,
            );
            &&& step.state is Over
            &&& step.action matches ListenActionModel::Exit { error } && error is Some
        }),
{
}

/// A tunnel is created only where an endpoint was asked for that no tunnel
/// leads to.
pub proof fn tunnel_is_created_only_where_none_exists(
    state: ListeningModel,
    cx: ListenContextModel,
    event: ListenEventModel,
    elapsed: u64,
)
    requires
        listen_step(state, cx, event, elapsed).action is Create,
    ensures
        state is Matching,
        event == (ListenEventModel::Tunnel { tunnel: None }),
{
}

/// Serving an existing tunnel keeps its endpoint: an update changes its label
/// alone.
pub proof fn existing_tunnel_keeps_its_endpoint(
    cx: ListenContextModel,
    tunnel: TunnelSummaryModel,
    elapsed: u64,
)
    requires
        cx.endpoint matches Some(endpoint) ==> endpoint == tunnel.endpoint,
    ensures
        listen_step(
            ListeningModel::Finding,
            cx,
            ListenEventModel::Tunnel { tunnel: Some(tunnel) },
            elapsed,
        ).action matches ListenActionModel::Update { id, endpoint, .. } ==> id == tunnel.id
            && endpoint == tunnel.endpoint,
        listen_step(
            ListeningModel::Finding,
            cx,
            ListenEventModel::Tunnel { tunnel: Some(tunnel) },
            elapsed,
        ).action is Update <==> (cx.label matches Some(label) && label != tunnel.label),
{
}

} // verus!
