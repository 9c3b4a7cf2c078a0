//! Which tunnel `listen` serves, and what it tells of it.
use vstd::prelude::*;

use crate::cli::listen;
use crate::cli::listen::{
    ExitReason, Happening, ListenActionModel, ListenContextModel, ListenEventModel,
    ListenStepModel, ListeningModel,
};
use crate::cli::output::{Mode, OutputModel};
use crate::cli::output_laws;
use crate::datum_cloud::session::LoginState;
use crate::json::{JsonModel, JsonNumberModel};
use crate::numbers;
use crate::tunnels::listing::TunnelSummaryModel;
use crate::tunnels::progress::TunnelProgressModel;

verus! {

// ---------------------------------------------------------------------------
// Which tunnel is set up
// ---------------------------------------------------------------------------
/// Whether a step begins to set up the tunnel with this ID at this endpoint: it is
/// switched on, or gets the label that was asked for first, where it has another.
pub open spec fn begins(
    step: ListenStepModel,
    cx: ListenContextModel,
    id: Seq<char>,
    label: Seq<char>,
    endpoint: Seq<char>,
) -> bool {
    if cx.label matches Some(wanted) && wanted != label {
        &&& step.action == (ListenActionModel::Update { id, label: cx.label->0, endpoint })
        &&& step.state == (ListeningModel::Changing { endpoint, created: false })
    } else {
        &&& step.action == (ListenActionModel::Enable { id })
        &&& step.state == (ListeningModel::Enabling { endpoint, id })
    }
}

/// Whether a step ends the command with an error.
pub open spec fn fails(step: ListenStepModel) -> bool {
    &&& step.state is Over
    &&& step.action is Exit
    &&& step.action->error is Some
}

/// The tunnel that the user picks is set up, at its own endpoint, and no other.
pub proof fn picked_tunnel_is_set_up(
    cx: ListenContextModel,
    tunnels: Seq<TunnelSummaryModel>,
    index: usize,
    elapsed: u64,
)
    requires
        index < tunnels.len(),
    ensures
        begins(
            listen::listen_step(
                ListeningModel::Picking { tunnels },
                cx,
                ListenEventModel::Picked { index },
                elapsed,
            ),
            cx,
            tunnels[index as int].id,
            tunnels[index as int].label,
            tunnels[index as int].endpoint,
        ),
{
}

/// The only tunnel of a project is set up, at its own endpoint. Of several the
/// user picks: they are all shown, in order, and kept in that order.
pub proof fn only_tunnel_is_set_up(
    cx: ListenContextModel,
    tunnels: Seq<TunnelSummaryModel>,
    elapsed: u64,
)
    ensures
        ({
            let step = listen::listen_step(
                ListeningModel::Listing,
                cx,
                ListenEventModel::Tunnels { tunnels },
                elapsed,
            );
            &&& tunnels.len() == 0 ==> fails(step)
            &&& tunnels.len() == 1 ==> begins(
                step,
                cx,
                tunnels[0].id,
                tunnels[0].label,
                tunnels[0].endpoint,
            )
            &&& tunnels.len() > 1 ==> {
                &&& step.state == (ListeningModel::Picking { tunnels })
                &&& step.action is Pick
                &&& step.action->choices.len() == tunnels.len()
                &&& forall|i: int|
                    0 <= i < tunnels.len() ==> #[trigger] step.action->choices[i]
                        == tunnels[i].label + "  ("@ + tunnels[i].id + ")  \u{2192} "@
                        + tunnels[i].endpoint
            }
        }),
{
}

/// The tunnel that was asked for by its ID is set up, at its own endpoint, unless
/// another was asked for too.
pub proof fn found_tunnel_is_set_up(
    cx: ListenContextModel,
    tunnel: TunnelSummaryModel,
    elapsed: u64,
)
    requires
        cx.endpoint matches Some(endpoint) ==> endpoint == tunnel.endpoint,
    ensures
        begins(
            listen::listen_step(
                ListeningModel::Finding,
                cx,
                ListenEventModel::Tunnel { tunnel: Some(tunnel) },
                elapsed,
            ),
            cx,
            tunnel.id,
            tunnel.label,
            tunnel.endpoint,
        ),
        listen::listen_step(
            ListeningModel::Finding,
            cx,
            ListenEventModel::Tunnel { tunnel: None },
            elapsed,
        ).action matches ListenActionModel::Exit { error } && error is Some,
{
}

/// An endpoint that was asked for is served by the tunnel that leads to it, or by a
/// new one, whose label is the one that was asked for, or else the endpoint.
pub proof fn asked_endpoint_is_set_up(
    cx: ListenContextModel,
    endpoint: Seq<char>,
    tunnel: TunnelSummaryModel,
    elapsed: u64,
)
    ensures
        begins(
            listen::listen_step(
                ListeningModel::Matching { endpoint },
                cx,
                ListenEventModel::Tunnel { tunnel: Some(tunnel) },
                elapsed,
            ),
            cx,
            tunnel.id,
            tunnel.label,
            endpoint,
        ),
        ({
            let step = listen::listen_step(
                ListeningModel::Matching { endpoint },
                cx,
                ListenEventModel::Tunnel { tunnel: None },
                elapsed,
            );
            &&& step.state == (ListeningModel::Changing { endpoint, created: true })
            &&& step.action == (ListenActionModel::Create {
                label: match cx.label {
                    Some(label) => label,
                    None => endpoint,
                },
                endpoint,
            })
        }),
{
}

/// What is looked for first: the tunnel with the ID, or else the tunnel to the
/// endpoint, or else all tunnels.
pub proof fn flags_decide_what_is_looked_for(cx: ListenContextModel, elapsed: u64)
    ensures
        ({
            let step = listen::listen_step(
                ListeningModel::Start,
                cx,
                ListenEventModel::Started,
                elapsed,
            );
            match (cx.id, cx.endpoint) {
                (Some(id), _) => step.state is Finding && step.action == (ListenActionModel::Get {
                    id,
                }),
                (None, Some(endpoint)) => step.state == (ListeningModel::Matching { endpoint })
                    && step.action == (ListenActionModel::GetByEndpoint { endpoint }),
                (None, None) => step.state is Listing && step.action is List,
            }
        }),
{
}

/// Before a tunnel is set up, the user is told the ID of this device.
pub proof fn setup_is_announced(
    cx: ListenContextModel,
    tunnel: TunnelSummaryModel,
    elapsed: u64,
)
    requires
        cx.endpoint is None,
    ensures
        ({
            let outputs = listen::listen_step(
                ListeningModel::Finding,
                cx,
                ListenEventModel::Tunnel { tunnel: Some(tunnel) },
                elapsed,
            ).outputs;
            &&& outputs.len() == 2
            &&& outputs[0] == OutputModel::Note("Your endpoint ID: "@ + cx.endpoint_id)
            &&& outputs[1] == OutputModel::Note("Setting up tunnel..."@)
        }),
{
}

// ---------------------------------------------------------------------------
// The way of one tunnel
// ---------------------------------------------------------------------------
/// The tunnel that was created or changed is the one that is switched on, at the
/// endpoint that it was created for or had; in JSON mode an event tells of it.
pub proof fn changed_tunnel_is_switched_on(
    cx: ListenContextModel,
    endpoint: Seq<char>,
    created: bool,
    tunnel: TunnelSummaryModel,
    elapsed: u64,
)
    ensures
        ({
            let step = listen::listen_step(
                ListeningModel::Changing { endpoint, created },
                cx,
                ListenEventModel::Changed { tunnel },
                elapsed,
            );
            &&& step.state == (ListeningModel::Enabling { endpoint, id: tunnel.id })
            &&& step.action == (ListenActionModel::Enable { id: tunnel.id })
            &&& cx.mode is Text ==> step.outputs.len() == 0
            &&& cx.mode is Json ==> output_laws::is_one_event(step.outputs)
            &&& cx.mode is Json && created ==> output_laws::says(
                step.outputs[0]->Event_0,
                "type"@,
                "tunnel_created"@,
            ) && output_laws::says(step.outputs[0]->Event_0, "id"@, tunnel.id)
            &&& cx.mode is Json && !created ==> output_laws::is_about(
                step.outputs[0]->Event_0,
                "tunnel_updated"@,
                tunnel,
            )
        }),
{
    output_laws::events_name_the_tunnel("tunnel_created"@, tunnel.id, Seq::empty());
    output_laws::events_describe_the_tunnel(tunnel, Seq::empty(), 0);
}

/// A tunnel that is switched on is waited for; once it is set up, both its ends are
/// verified: its own endpoint, and the first of its hostnames. A tunnel without a
/// hostname fails.
pub proof fn both_ends_of_the_tunnel_are_verified(
    cx: ListenContextModel,
    endpoint: Seq<char>,
    id: Seq<char>,
    hostnames: Seq<Seq<char>>,
    elapsed: u64,
)
    ensures
        ({
            let step = listen::listen_step(
                ListeningModel::Enabling { endpoint, id },
                cx,
                ListenEventModel::Enabled,
                elapsed,
            );
            &&& step.state == (ListeningModel::SettingUp { endpoint, id })
            &&& step.action == (ListenActionModel::AwaitProgress { id })
        }),
        ({
            let step = listen::listen_step(
                ListeningModel::SettingUp { endpoint, id },
                cx,
                ListenEventModel::Progressed { hostnames },
                elapsed,
            );
            if hostnames.len() == 0 {
                step.action matches ListenActionModel::Exit { error } && error is Some
            } else {
                &&& step.state == (ListeningModel::Verifying { id })
                &&& step.action matches ListenActionModel::Verify {
                    endpoint: origin,
                    hostname,
                    budget,
                } && origin == endpoint && hostname == hostnames[0] && budget == if elapsed
                    <= 55_000_000_000 {
                    60_000_000_000 - elapsed
                } else {
                    5_000_000_000
                }
            }
        }),
{
}

/// A verified tunnel is read once more, and then served; it is told to be ready as
/// it then is: as an event, or with one line for each of its hostnames.
pub proof fn verified_tunnel_is_served(
    cx: ListenContextModel,
    id: Seq<char>,
    tunnel: TunnelSummaryModel,
    elapsed: u64,
)
    ensures
        ({
            let step = listen::listen_step(
                ListeningModel::Verifying { id },
                cx,
                ListenEventModel::Verified,
                elapsed,
            );
            &&& step.state == (ListeningModel::Fetching { id })
            &&& step.action == (ListenActionModel::Get { id })
        }),
        ({
            let step = listen::listen_step(
                ListeningModel::Fetching { id },
                cx,
                ListenEventModel::Tunnel { tunnel: Some(tunnel) },
                elapsed,
            );
            &&& step.state == (ListeningModel::Watching { id })
            &&& step.action is Watch
            &&& cx.mode is Json ==> output_laws::is_one_event(step.outputs)
                && output_laws::is_about(step.outputs[0]->Event_0, "tunnel_ready"@, tunnel)
                && output_laws::says(
                step.outputs[0]->Event_0,
                "endpoint_id"@,
                cx.endpoint_id,
            ) && step.outputs[0]->Event_0->Object_0["elapsed_secs"@] == JsonModel::Number(
                JsonNumberModel::Unsigned(elapsed / 1_000_000_000),
            )
            &&& cx.mode is Text ==> step.outputs.len() == tunnel.hostnames.len() && forall|i: int|
                0 <= i < step.outputs.len() ==> #[trigger] step.outputs[i] == OutputModel::Line(
                    "Tunnel ready after "@ + numbers::decimal((elapsed / 1_000_000_000) as nat)
                        + " sec: https://"@ + tunnel.hostnames[i],
                )
        }),
        listen::listen_step(
            ListeningModel::Fetching { id },
            cx,
            ListenEventModel::Tunnel { tunnel: None },
            elapsed,
        ).action matches ListenActionModel::Exit { error } && error is Some,
{
    output_laws::events_describe_the_tunnel(
        tunnel,
        cx.endpoint_id,
        elapsed / listen::NANOS_PER_SEC,
    );
}

/// Whether something that is written tells a message about a tunnel, as an event of
/// this type or in words.
pub open spec fn tells(
    outputs: Seq<OutputModel>,
    mode: Mode,
    kind: Seq<char>,
    id: Seq<char>,
    message: Seq<char>,
) -> bool {
    outputs.len() == 1 && match mode {
        Mode::Json => outputs[0] matches OutputModel::Event(event) && output_laws::says(
            event,
            "type"@,
            kind,
        ) && output_laws::says(event, "id"@, id) && output_laws::says(event, "message"@, message),
        Mode::Text => outputs[0] == OutputModel::Note(message),
    }
}

/// A served tunnel that is gone ends the command for that reason, and so does a
/// checkpoint that fails for good, and the user; any other progress does not.
pub proof fn what_ends_a_served_tunnel(
    cx: ListenContextModel,
    id: Seq<char>,
    progress: TunnelProgressModel,
    elapsed: u64,
)
    ensures
        ({
            let step = listen::listen_step(
                ListeningModel::Watching { id },
                cx,
                ListenEventModel::Polled { progress: None },
                elapsed,
            );
            &&& step.state == (ListeningModel::Disabling { id, reason: ExitReason::DeletedUpstream })
            &&& step.action == (ListenActionModel::Disable { id })
            &&& tells(
                step.outputs,
                cx.mode,
                "tunnel_deleted_upstream"@,
                id,
                "Tunnel "@ + id + " no longer exists on the server"@,
            )
        }),
        ({
            let step = listen::listen_step(
                ListeningModel::Watching { id },
                cx,
                ListenEventModel::Polled { progress: Some(progress) },
                elapsed,
            );
            let failed = exists|i: int|
                0 <= i < progress.steps.len() && (#[trigger] progress.steps[i]).kind
                    is IrohDnsPublished && progress.steps[i].status is Pending
                    && progress.steps[i].reason == Some("DeferredToOwner"@);
            if failed {
                &&& step.state == (ListeningModel::Disabling {
                    id,
                    reason: ExitReason::TerminalFailure,
                })
                &&& step.action == (ListenActionModel::Disable { id })
                &&& step.outputs.len() == 1
            } else {
                &&& step.state == (ListeningModel::Watching { id })
                &&& step.action is Watch
                &&& step.outputs.len() == 0
            }
        }),
        ({
            let step = listen::listen_step(
                ListeningModel::Watching { id },
                cx,
                ListenEventModel::Interrupted,
                elapsed,
            );
            &&& step.state == (ListeningModel::Disabling { id, reason: ExitReason::CtrlC })
            &&& step.action == (ListenActionModel::Disable { id })
            &&& step.outputs.len() == 0
        }),
        ({
            let step = listen::listen_step(
                ListeningModel::Watching { id },
                cx,
                ListenEventModel::LoginChanged { state: LoginState::Missing },
                elapsed,
            );
            &&& step.outputs.len() == 1
            &&& cx.mode is Json ==> output_laws::is_one_event(step.outputs) && output_laws::says(
                step.outputs[0]->Event_0,
                "type"@,
                "tunnel_login_lost"@,
            ) && output_laws::says(step.outputs[0]->Event_0, "id"@, id)
        }),
{
    let gone = "Tunnel "@ + id + " no longer exists on the server"@;
    output_laws::events_name_the_tunnel("tunnel_deleted_upstream"@, id, gone);
    output_laws::events_name_the_tunnel("tunnel_login_lost"@, id, listen::LOGIN_LOST@);
    lemma_terminal(progress, 0);
}

proof fn lemma_terminal(progress: TunnelProgressModel, from: int)
    requires
        0 <= from <= progress.steps.len(),
    ensures
        progress.terminal_from(from) is Some <==> exists|i: int|
            from <= i < progress.steps.len() && (#[trigger] progress.steps[i]).kind
                is IrohDnsPublished && progress.steps[i].status is Pending
                && progress.steps[i].reason == Some("DeferredToOwner"@),
    decreases progress.steps.len() - from,
{
    if from < progress.steps.len() {
        lemma_terminal(progress, from + 1);
        if progress.terminal_from(from + 1) is Some {
            let i = choose|i: int|
                from + 1 <= i < progress.steps.len() && (#[trigger] progress.steps[i]).kind
                    is IrohDnsPublished && progress.steps[i].status is Pending
                    && progress.steps[i].reason == Some("DeferredToOwner"@);
            assert(from <= i);
        }
        assert(progress.steps[from].is_terminal() <==> progress.steps[from].kind
            is IrohDnsPublished && progress.steps[from].status is Pending
            && progress.steps[from].reason == Some("DeferredToOwner"@));
    }
}

/// A tunnel that was switched off is told as disabled in JSON mode, and the command
/// ends: well where the user stopped it, and else with the reason.
pub proof fn command_ends_with_its_reason(
    cx: ListenContextModel,
    id: Seq<char>,
    reason: ExitReason,
    elapsed: u64,
)
    ensures
        ({
            let step = listen::listen_step(
                ListeningModel::Disabling { id, reason },
                cx,
                ListenEventModel::Disabled,
                elapsed,
            );
            &&& step.state is Over
            &&& step.action == (ListenActionModel::Exit {
                error: match reason {
                    ExitReason::CtrlC => None,
                    ExitReason::TerminalFailure => Some("tunnel exited with terminal failure"@),
                    ExitReason::DeletedUpstream => Some("tunnel deleted upstream"@),
                },
            })
            &&& cx.mode is Text ==> step.outputs.len() == 0
            &&& cx.mode is Json ==> output_laws::is_one_event(step.outputs) && output_laws::says(
                step.outputs[0]->Event_0,
                "type"@,
                "tunnel_disabled"@,
            ) && output_laws::says(step.outputs[0]->Event_0, "id"@, id)
        }),
{
    output_laws::events_name_the_tunnel("tunnel_disabled"@, id, Seq::empty());
}

/// What fails before the tunnel is served ends the command with that message.
pub proof fn failure_ends_the_command(
    state: ListeningModel,
    cx: ListenContextModel,
    message: Seq<char>,
    elapsed: u64,
)
    ensures
        listen::listen_step(state, cx, ListenEventModel::Failed { message }, elapsed).action == (
        ListenActionModel::Exit { error: Some(message) }),
{
}

// ---------------------------------------------------------------------------
// Whole runs
// ---------------------------------------------------------------------------
/// The ID of the tunnel that a state is about.
pub open spec fn tunnel_in(state: ListeningModel) -> Option<Seq<char>> {
    match state {
        ListeningModel::Enabling { id, .. } => Some(id),
        ListeningModel::SettingUp { id, .. } => Some(id),
        ListeningModel::Verifying { id } => Some(id),
        ListeningModel::Fetching { id } => Some(id),
        ListeningModel::Watching { id } => Some(id),
        ListeningModel::Disabling { id, .. } => Some(id),
        _ => None,
    }
}

/// From the moment that a tunnel is switched on, a run is about that tunnel alone:
/// the same is set up, verified, served and switched off.
pub proof fn run_is_about_one_tunnel(
    cx: ListenContextModel,
    events: Seq<Happening>,
    i: int,
    j: int,
)
    requires
        0 <= i <= j,
        tunnel_in(listen::state_after(cx, events, i)) is Some,
        tunnel_in(listen::state_after(cx, events, j)) is Some,
    ensures
        tunnel_in(listen::state_after(cx, events, i)) == tunnel_in(
            listen::state_after(cx, events, j),
        ),
    decreases j - i,
{
    if i < j {
        lemma_stays_or_over(cx, events, i, j - 1);
        if tunnel_in(listen::state_after(cx, events, j - 1)) is Some {
            run_is_about_one_tunnel(cx, events, i, j - 1);
        }
    }
}

proof fn lemma_stays_or_over(cx: ListenContextModel, events: Seq<Happening>, i: int, j: int)
    requires
        0 <= i <= j,
        tunnel_in(listen::state_after(cx, events, i)) is Some,
    ensures
        tunnel_in(listen::state_after(cx, events, j)) is Some || listen::state_after(
            cx,
            events,
            j,
        ) is Over,
    decreases j - i,
{
    if i < j {
        lemma_stays_or_over(cx, events, i, j - 1);
    }
}

/// Whether the thing number `m` names the tunnel that is to be served.
pub open spec fn names_tunnel(
    cx: ListenContextModel,
    events: Seq<Happening>,
    m: int,
    tunnel: TunnelSummaryModel,
) -> bool {
    match (listen::state_after(cx, events, m), events[m].0) {
        (ListeningModel::Finding, ListenEventModel::Tunnel { tunnel: found }) => found == Some(
            tunnel,
        ),
        (ListeningModel::Matching { .. }, ListenEventModel::Tunnel { tunnel: found }) => found
            == Some(tunnel),
        (ListeningModel::Listing, ListenEventModel::Tunnels { tunnels }) => tunnels.len() == 1
            && tunnels[0] == tunnel,
        (ListeningModel::Picking { tunnels }, ListenEventModel::Picked { index }) => index
            < tunnels.len() && tunnels[index as int] == tunnel,
        (ListeningModel::Changing { .. }, ListenEventModel::Changed { tunnel: changed }) => changed
            == tunnel,
        _ => false,
    }
}

/// Whether an endpoint is the one that was asked for, or that of a tunnel that was
/// named among the first `n` things.
pub open spec fn is_due(
    cx: ListenContextModel,
    events: Seq<Happening>,
    n: int,
    endpoint: Seq<char>,
) -> bool {
    match cx.endpoint {
        Some(asked) => endpoint == asked,
        None => exists|m: int, tunnel: TunnelSummaryModel|
            0 <= m < n && #[trigger] names_tunnel(cx, events, m, tunnel) && !(
            events[m].0 is Changed) && tunnel.endpoint == endpoint,
    }
}

/// Whether the tunnel with this ID was named among the first `n` things.
pub open spec fn is_named(
    cx: ListenContextModel,
    events: Seq<Happening>,
    n: int,
    id: Seq<char>,
) -> bool {
    exists|m: int, tunnel: TunnelSummaryModel|
        0 <= m < n && #[trigger] names_tunnel(cx, events, m, tunnel) && tunnel.id == id
}

/// The endpoint that a state is about.
pub open spec fn endpoint_in(state: ListeningModel) -> Option<Seq<char>> {
    match state {
        ListeningModel::Matching { endpoint } => Some(endpoint),
        ListeningModel::Changing { endpoint, .. } => Some(endpoint),
        ListeningModel::Enabling { endpoint, .. } => Some(endpoint),
        ListeningModel::SettingUp { endpoint, .. } => Some(endpoint),
        _ => None,
    }
}

proof fn lemma_due(cx: ListenContextModel, events: Seq<Happening>, n: int)
    requires
        0 <= n <= events.len(),
    ensures
        endpoint_in(listen::state_after(cx, events, n)) matches Some(endpoint) ==> is_due(
            cx,
            events,
            n,
            endpoint,
        ),
        tunnel_in(listen::state_after(cx, events, n)) matches Some(id) ==> is_named(
            cx,
            events,
            n,
            id,
        ),
        listen::state_after(cx, events, n) is Matching ==> cx.endpoint is Some,
        listen::state_after(cx, events, n) is Listing || listen::state_after(
            cx,
            events,
            n,
        ) is Picking ==> cx.endpoint is None,
    decreases n,
{
    if n > 0 {
        lemma_due(cx, events, n - 1);
        let before = listen::state_after(cx, events, n - 1);
        let after = listen::state_after(cx, events, n);
        let m = n - 1;
        if let Some(endpoint) = endpoint_in(after) {
            if cx.endpoint is None {
                if endpoint_in(before) == Some(endpoint) {
                    let (k, tunnel) = choose|k: int, tunnel: TunnelSummaryModel|
                        0 <= k < n - 1 && #[trigger] names_tunnel(cx, events, k, tunnel) && !(
                        events[k].0 is Changed) && tunnel.endpoint == endpoint;
                    assert(0 <= k < n && names_tunnel(cx, events, k, tunnel));
                } else {
                    let tunnel = match (before, events[m].0) {
                        (ListeningModel::Picking { tunnels }, ListenEventModel::Picked { index }) =>
                            tunnels[index as int],
                        (_, ListenEventModel::Tunnels { tunnels }) => tunnels[0],
                        (_, ListenEventModel::Tunnel { tunnel }) => tunnel->0,
                        _ => arbitrary(),
                    };
                    assert(names_tunnel(cx, events, m, tunnel));
                }
            }
        }
        if let Some(id) = tunnel_in(after) {
            if tunnel_in(before) == Some(id) {
                let (k, tunnel) = choose|k: int, tunnel: TunnelSummaryModel|
                    0 <= k < n - 1 && #[trigger] names_tunnel(cx, events, k, tunnel) && tunnel.id
                        == id;
                assert(0 <= k < n && names_tunnel(cx, events, k, tunnel));
            } else {
                let tunnel = match (before, events[m].0) {
                    (ListeningModel::Picking { tunnels }, ListenEventModel::Picked { index }) =>
                        tunnels[index as int],
                    (_, ListenEventModel::Tunnels { tunnels }) => tunnels[0],
                    (_, ListenEventModel::Tunnel { tunnel }) => tunnel->0,
                    (_, ListenEventModel::Changed { tunnel }) => tunnel,
                    _ => arbitrary(),
                };
                assert(names_tunnel(cx, events, m, tunnel));
            }
        }
    }
}

/// Whatever happens, the origin that is verified is the endpoint that was asked
/// for; where none was, it is the endpoint of the tunnel that was found, picked or
/// the only one. The tunnel whose setup is verified, and which is served, is that
/// tunnel, or the one that came of creating or changing it.
pub proof fn verified_origin_is_that_of_the_tunnel(
    cx: ListenContextModel,
    events: Seq<Happening>,
    n: int,
)
    requires
        0 <= n < events.len(),
    ensures
        listen::step_at(cx, events, n).action matches ListenActionModel::Verify {
            endpoint,
            ..
        } ==> is_due(cx, events, n, endpoint),
        tunnel_in(listen::state_after(cx, events, n)) matches Some(id) ==> is_named(
            cx,
            events,
            n,
            id,
        ),
{
    lemma_due(cx, events, n);
}

/// Whether a step ends the command with this message.
pub open spec fn fails_saying(step: ListenStepModel, message: Seq<char>) -> bool {
    &&& step.state is Over
    &&& step.outputs.len() == 0
    &&& step.action == (ListenActionModel::Exit { error: Some(message) })
}

/// The command says why it cannot go on: the tunnel that was named is not there or
/// leads elsewhere than asked, there is none, or it has no name or is gone once it is
/// set up.
pub proof fn command_says_why_it_fails(
    cx: ListenContextModel,
    id: Seq<char>,
    endpoint: Seq<char>,
    tunnel: TunnelSummaryModel,
    tunnels: Seq<TunnelSummaryModel>,
    index: usize,
    elapsed: u64,
)
    ensures
        cx.id == Some(id) ==> fails_saying(
            listen::listen_step(
                ListeningModel::Finding,
                cx,
                ListenEventModel::Tunnel { tunnel: None },
                elapsed,
            ),
            "Tunnel '"@ + id + "' not found in project "@ + cx.project_id,
        ),
        cx.id == Some(id) && cx.endpoint == Some(endpoint) && endpoint != tunnel.endpoint
            ==> fails_saying(
            listen::listen_step(
                ListeningModel::Finding,
                cx,
                ListenEventModel::Tunnel { tunnel: Some(tunnel) },
                elapsed,
            ),
            "--id '"@ + id + "' references endpoint '"@ + tunnel.endpoint
                + "' but --endpoint was '"@ + endpoint
                + "' \u{2014} they must agree (or omit --endpoint to inherit from the tunnel)"@,
        ),
        fails_saying(
            listen::listen_step(
                ListeningModel::Listing,
                cx,
                ListenEventModel::Tunnels { tunnels: seq![] },
                elapsed,
            ),
            "No tunnels exist in project "@ + cx.project_id
                + ". Pass --endpoint to create one."@,
        ),
        index >= tunnels.len() ==> fails_saying(
            listen::listen_step(
                ListeningModel::Picking { tunnels },
                cx,
                ListenEventModel::Picked { index },
                elapsed,
            ),
            "unexpected event"@,
        ),
        fails_saying(
            listen::listen_step(
                ListeningModel::SettingUp { endpoint, id },
                cx,
                ListenEventModel::Progressed { hostnames: seq![] },
                elapsed,
            ),
            "Tunnel "@ + id + " has no hostname after Ready"@,
        ),
        fails_saying(
            listen::listen_step(
                ListeningModel::Fetching { id },
                cx,
                ListenEventModel::Tunnel { tunnel: None },
                elapsed,
            ),
            "Tunnel "@ + id + " not found after setup"@,
        ),
        fails_saying(
            listen::listen_step(
                ListeningModel::Verifying { id },
                cx,
                ListenEventModel::Enabled,
                elapsed,
            ),
            "unexpected event"@,
        ),
{
}

} // verus!
