//! What the events and lines of the program say.
use vstd::prelude::*;

use crate::cli::commands;
use crate::cli::output;
use crate::cli::output::{Mode, OutputModel};
use crate::json;
use crate::json::{JsonModel, JsonNumberModel};
use crate::numbers;
use crate::text;
use crate::tunnels::listing::TunnelSummaryModel;
use crate::tunnels::progress::{ProgressStepKind, ProgressStepModel, StepStatus};

verus! {

/// Whether a JSON object has the member `key` with this text.
pub open spec fn says(event: JsonModel, key: Seq<char>, value: Seq<char>) -> bool {
    event matches JsonModel::Object(members) && members.contains_key(key) && members[key]
        == JsonModel::Text(value)
}

/// Whether a JSON object has the member `key` with this list of texts.
pub open spec fn lists(event: JsonModel, key: Seq<char>, values: Seq<Seq<char>>) -> bool {
    &&& event is Object
    &&& event->Object_0.contains_key(key)
    &&& event->Object_0[key] matches JsonModel::Array(items) && items.len() == values.len()
        && forall|i: int|
        0 <= i < items.len() ==> #[trigger] items[i] == JsonModel::Text(values[i])
}

/// Whether a JSON object has the member `key` with this truth value.
pub open spec fn holds(event: JsonModel, key: Seq<char>, value: bool) -> bool {
    event matches JsonModel::Object(members) && members.contains_key(key) && members[key]
        == JsonModel::Bool(value)
}

/// Whether one event is written, and nothing else.
pub open spec fn is_one_event(outputs: Seq<OutputModel>) -> bool {
    outputs.len() == 1 && outputs[0] is Event
}

/// Whether a JSON object has just these members.
pub open spec fn has_just(event: JsonModel, keys: Set<Seq<char>>) -> bool {
    event matches JsonModel::Object(members) && members.dom() == keys
}

proof fn lemma_keys()
    ensures
        "type"@.len() == 4,
        "step"@.len() == 4,
        "type"@ != "step"@,
        "id"@.len() == 2,
        "url"@.len() == 3,
        "label"@.len() == 5,
        "status"@.len() == 6,
        "message"@.len() == 7,
        "enabled"@.len() == 7,
        "deleted"@.len() == 7,
        "endpoint"@.len() == 8,
        "resource"@.len() == 8,
        "hostnames"@.len() == 9,
        "endpoint_id"@.len() == 11,
        "elapsed_secs"@.len() == 12,
{
    reveal_strlit("type");
    reveal_strlit("step");
    reveal_strlit("id");
    reveal_strlit("url");
    reveal_strlit("label");
    reveal_strlit("status");
    reveal_strlit("message");
    reveal_strlit("enabled");
    reveal_strlit("deleted");
    reveal_strlit("endpoint");
    reveal_strlit("resource");
    reveal_strlit("hostnames");
    reveal_strlit("endpoint_id");
    reveal_strlit("elapsed_secs");
    assert("type"@[0] == 't' && "step"@[0] == 's');
}

// ---------------------------------------------------------------------------
// Names
// ---------------------------------------------------------------------------
/// Each checkpoint has its own name in events, and each status too.
pub proof fn checkpoints_have_their_names(kind: ProgressStepKind, status: StepStatus)
    ensures
        output::step_name(kind) == "proxy_accepted"@ <== kind is ProxyAccepted,
        output::step_name(kind) == "certificates_ready"@ <== kind is CertificatesReady,
        output::step_name(kind) == "connector_ready"@ <== kind is ConnectorReady,
        output::step_name(kind) == "iroh_dns_published"@ <== kind is IrohDnsPublished,
        output::step_name(kind) == "proxy_programmed"@ <== kind is ProxyProgrammed,
        output::step_name(kind) == "connector_metadata_programmed"@
            <== kind is ConnectorMetadataProgrammed,
        output::status_name(status) == "unknown"@ <== status is Unknown,
        output::status_name(status) == "pending"@ <== status is Pending,
        output::status_name(status) == "ready"@ <== status is Ready,
{
}

/// A tunnel is shown as ready exactly when it is accepted and programmed, as
/// accepted when it is only that, and else as pending.
pub proof fn ready_is_shown_of_programmed_tunnels(tunnel: TunnelSummaryModel)
    ensures
        output::tunnel_status_name(tunnel) == "ready"@ <==> tunnel.accepted && tunnel.programmed,
        output::tunnel_status_name(tunnel) == "accepted"@ <==> tunnel.accepted
            && !tunnel.programmed,
        output::tunnel_status_name(tunnel) == "pending"@ <==> !tunnel.accepted,
{
    reveal_strlit("ready");
    reveal_strlit("accepted");
    reveal_strlit("pending");
    assert("ready"@.len() == 5);
    assert("accepted"@.len() == 8);
    assert("pending"@.len() == 7);
}

// ---------------------------------------------------------------------------
// Events
// ---------------------------------------------------------------------------
/// Whether an event says what a tunnel is.
pub open spec fn is_about(event: JsonModel, kind: Seq<char>, tunnel: TunnelSummaryModel) -> bool {
    &&& says(event, "type"@, kind)
    &&& says(event, "id"@, tunnel.id)
    &&& says(event, "label"@, tunnel.label)
    &&& says(event, "endpoint"@, tunnel.endpoint)
    &&& lists(event, "hostnames"@, tunnel.hostnames)
}

/// The events about a tunnel say its ID, label, endpoint and hostnames; that it is
/// ready says also whose endpoint serves it and how many seconds that took; an
/// entry of a list says its status and switch.
pub proof fn events_describe_the_tunnel(
    tunnel: TunnelSummaryModel,
    endpoint_id: Seq<char>,
    secs: u64,
)
    ensures
        is_about(output::updated_event_model(tunnel), "tunnel_updated"@, tunnel),
        has_just(
            output::updated_event_model(tunnel),
            set!["type"@, "id"@, "label"@, "endpoint"@, "hostnames"@],
        ),
        ({
            let event = output::ready_event_model(tunnel, endpoint_id, secs);
            &&& is_about(event, "tunnel_ready"@, tunnel)
            &&& says(event, "endpoint_id"@, endpoint_id)
            &&& says(event, "status"@, "ready"@)
            &&& event->Object_0.contains_key("elapsed_secs"@)
            &&& event->Object_0["elapsed_secs"@] == JsonModel::Number(
                JsonNumberModel::Unsigned(secs),
            )
        }),
        ({
            let event = output::tunnel_entry_model(tunnel);
            &&& is_about(event, "tunnel"@, tunnel)
            &&& holds(event, "enabled"@, tunnel.enabled)
            &&& says(event, "status"@, "ready"@) <==> tunnel.accepted && tunnel.programmed
            &&& says(event, "status"@, "accepted"@) <==> tunnel.accepted && !tunnel.programmed
            &&& says(event, "status"@, "pending"@) <==> !tunnel.accepted
        }),
{
    lemma_keys();
    ready_is_shown_of_programmed_tunnels(tunnel);
    assert(output::updated_event_model(tunnel)->Object_0.dom() =~= set![
        "type"@,
        "id"@,
        "label"@,
        "endpoint"@,
        "hostnames"@,
    ]);
}

/// The events of what happened to a tunnel say what, to which, and the message
/// where there is one.
pub proof fn events_name_the_tunnel(kind: Seq<char>, id: Seq<char>, message: Seq<char>)
    ensures
        says(output::id_event_model(kind, id), "type"@, kind),
        says(output::id_event_model(kind, id), "id"@, id),
        has_just(output::id_event_model(kind, id), set!["type"@, "id"@]),
        says(output::message_event_model(kind, id, message), "type"@, kind),
        says(output::message_event_model(kind, id, message), "id"@, id),
        says(output::message_event_model(kind, id, message), "message"@, message),
        has_just(
            output::message_event_model(kind, id, message),
            set!["type"@, "id"@, "message"@],
        ),
        says(output::deleted_event_model(id), "type"@, "tunnel_deleted"@),
        says(output::deleted_event_model(id), "id"@, id),
        holds(output::deleted_event_model(id), "deleted"@, true),
        says(output::probe_event_model(kind, id), "type"@, kind),
        says(output::probe_event_model(kind, id), "url"@, id),
{
    lemma_keys();
    assert(output::id_event_model(kind, id)->Object_0.dom() =~= set!["type"@, "id"@]);
    assert(output::message_event_model(kind, id, message)->Object_0.dom() =~= set![
        "type"@,
        "id"@,
        "message"@,
    ]);
}

/// The event of a checkpoint says which it is, its status, and the resource behind
/// it, or null.
pub proof fn progress_event_tells_the_step(step: ProgressStepModel)
    ensures
        ({
            let event = output::progress_event_model(step);
            &&& says(event, "type"@, "tunnel_progress"@)
            &&& says(event, "step"@, output::step_name(step.kind))
            &&& says(event, "status"@, "ready"@) <== step.status is Ready
            &&& says(event, "status"@, "pending"@) <== step.status is Pending
            &&& says(event, "status"@, "unknown"@) <== step.status is Unknown
            &&& match step.resource {
                Some(resource) => says(event, "resource"@, resource),
                None => event->Object_0["resource"@] == JsonModel::Null,
            }
            &&& has_just(event, set!["type"@, "step"@, "status"@, "resource"@])
        }),
{
    lemma_keys();
    assert(output::progress_event_model(step)->Object_0.dom() =~= set![
        "type"@,
        "step"@,
        "status"@,
        "resource"@,
    ]);
}

// ---------------------------------------------------------------------------
// Lines
// ---------------------------------------------------------------------------
/// A checkpoint that is reached is told in a line; in JSON mode every new status
/// is told as an event, and nothing else is written.
pub proof fn new_status_is_told(mode: Mode, step: ProgressStepModel, seconds: Seq<char>)
    ensures
        ({
            let out = output::progress_outputs(mode, step, seconds);
            let lines = if step.status is Ready {
                1int
            } else {
                0
            };
            &&& out.len() == lines + if mode is Json {
                1int
            } else {
                0
            }
            &&& step.status is Ready ==> out[0] is Note
            &&& mode is Json ==> out[lines] == OutputModel::Event(
                output::progress_event_model(step),
            )
        }),
{
}

/// The line of a checkpoint says what it is called, how long it took, and where.
pub proof fn line_of_a_checkpoint(step: ProgressStepModel, seconds: Seq<char>)
    requires
        step.status is Ready,
        step.resource is Some,
    ensures
        output::progress_outputs(Mode::Text, step, seconds)[0] == OutputModel::Note(
            "  \u{2713} "@ + step.kind.label_text() + " ("@ + seconds + "s) ["@ + step.resource->0
                + "]"@,
        ),
        output::waiting_note(step, seconds) == "  \u{25CB} waiting for "@ + step.kind.label_text()
            + " ("@ + seconds + "s) ["@ + step.resource->0 + "]"@,
{
}

/// The checkpoints have their names in lines, and say which resource is behind
/// them.
pub proof fn checkpoints_have_their_labels(kind: ProgressStepKind)
    ensures
        kind.label_text() == "tunnel accepted"@ <== kind is ProxyAccepted,
        kind.label_text() == "TLS certificate issued"@ <== kind is CertificatesReady,
        kind.label_text() == "connector ready"@ <== kind is ConnectorReady,
        kind.label_text() == "iroh DNS published"@ <== kind is IrohDnsPublished,
        kind.label_text() == "route programmed"@ <== kind is ProxyProgrammed,
        kind.label_text() == "envoy metadata propagated"@ <== kind is ConnectorMetadataProgrammed,
        kind.resource_kind_text() == "Connector"@ <== kind is ConnectorReady
            || kind is IrohDnsPublished,
        kind.resource_kind_text() == "HTTPProxy"@ <== !(kind is ConnectorReady
            || kind is IrohDnsPublished),
{
}

/// What is said of a failed setup: the checkpoint first, then a line each for the
/// resource, the reason and the message that there are, and at the end what can be
/// done, where another connector owns the record.
pub proof fn failure_tells_step_reason_and_message(
    step: ProgressStepModel,
    resource: Seq<char>,
    reason: Seq<char>,
    message: Seq<char>,
)
    requires
        step.resource == Some(resource),
        step.reason == Some(reason),
        step.message == Some(message),
    ensures
        ({
            let head = "Tunnel setup failed at step: "@ + step.kind.label_text() + " ("@
                + step.kind.resource_kind_text() + ")\n  resource: "@ + resource
                + "\n  reason: "@ + reason + "\n  message: "@ + message + "\n"@;
            let owned = step.kind is IrohDnsPublished && step.status is Pending && reason
                == "DeferredToOwner"@;
            &&& head.is_prefix_of(output::failure_text(step))
            &&& output::failure_text(step).len() == head.len() <==> !owned
        }),
{
    reveal_strlit(")\n");
    reveal_strlit(")\n  resource: ");
    reveal_strlit("  ");
    reveal_strlit("resource");
    reveal_strlit("reason");
    reveal_strlit("message");
    reveal_strlit(": ");
    reveal_strlit("\n");
    reveal_strlit("\n  reason: ");
    reveal_strlit("\n  message: ");
    reveal_strlit(
        "\nAnother connector with the same iroh key owns the DNS record for this tunnel. Most likely this means you are running two connectors against the same listen_key store. Stop the other connector or use a different repo directory.\n",
    );
    let a = "Tunnel setup failed at step: "@ + step.kind.label_text() + " ("@
        + step.kind.resource_kind_text();
    let head = a + ")\n  resource: "@ + resource + "\n  reason: "@ + reason + "\n  message: "@
        + message + "\n"@;
    assert(")\n"@ + ("  "@ + "resource"@ + ": "@) =~= ")\n  resource: "@);
    assert("\n"@ + ("  "@ + "reason"@ + ": "@) =~= "\n  reason: "@);
    assert("\n"@ + ("  "@ + "message"@ + ": "@) =~= "\n  message: "@);
    let whole = a + ")\n"@ + ("  "@ + "resource"@ + ": "@ + resource + "\n"@) + ("  "@ + "reason"@
        + ": "@ + reason + "\n"@) + ("  "@ + "message"@ + ": "@ + message + "\n"@);
    assert(whole =~= a + (")\n"@ + ("  "@ + "resource"@ + ": "@)) + resource + ("\n"@ + ("  "@
        + "reason"@ + ": "@)) + reason + ("\n"@ + ("  "@ + "message"@ + ": "@)) + message
        + "\n"@);
    assert(whole == head);
    let full = output::failure_text(step);
    assert(full.subrange(0, head.len() as int) =~= head);
}

/// A probe that starts is told as verifying and one that was answered as verified,
/// with its URL, and the answer's status in the line.
pub proof fn probes_are_told(
    mode: Mode,
    label: Seq<char>,
    url: Seq<char>,
    seconds: Seq<char>,
    status: Option<u16>,
)
    ensures
        ({
            let out = output::verify_outputs(mode, label, url, seconds, status);
            let line = "  \u{2713} "@ + label + " ("@ + seconds + "s) ["@ + url + "]"@;
            &&& out.len() == if mode is Json {
                2int
            } else {
                1
            }
            &&& status is None ==> out[0] == OutputModel::Note(line)
            &&& status matches Some(code) ==> out[0] == OutputModel::Note(
                line + ": HTTP "@ + numbers::decimal(code as nat),
            )
            &&& mode is Json ==> out[1] is Event && says(
                out[1]->Event_0,
                "type"@,
                if status is Some {
                    "tunnel_verified"@
                } else {
                    "tunnel_verifying"@
                },
            ) && says(out[1]->Event_0, "url"@, url)
        }),
{
    lemma_keys();
    let line = "  \u{2713} "@ + label + " ("@ + seconds + "s) ["@ + url + "]"@;
    assert(line + Seq::<char>::empty() =~= line);
    if let Some(code) = status {
        assert(line + (": HTTP "@ + numbers::decimal(code as nat)) =~= line + ": HTTP "@
            + numbers::decimal(code as nat));
    }
}

// ---------------------------------------------------------------------------
// Commands
// ---------------------------------------------------------------------------
/// `list` shows every tunnel, in order: in JSON mode as one array, and else one by
/// one; where there is none, it says so.
pub proof fn list_shows_every_tunnel(tunnels: Seq<TunnelSummaryModel>, i: int)
    requires
        0 <= i < tunnels.len(),
    ensures
        commands::list_outputs(Mode::Json, tunnels).len() == 1,
        commands::list_outputs(Mode::Json, tunnels)[0] matches OutputModel::Pretty(
            JsonModel::Array(items),
        ) && items.len() == tunnels.len() && is_about(items[i], "tunnel"@, tunnels[i]) && holds(
            items[i],
            "enabled"@,
            tunnels[i].enabled,
        ) && (says(items[i], "status"@, "ready"@) <==> tunnels[i].accepted
            && tunnels[i].programmed),
        commands::list_outputs(Mode::Text, tunnels).len() == tunnels.len(),
        commands::list_outputs(Mode::Text, tunnels)[i] matches OutputModel::Event(item) && is_about(
            item,
            "tunnel"@,
            tunnels[i],
        ) && holds(item, "enabled"@, tunnels[i].enabled),
        commands::list_outputs(Mode::Text, Seq::empty()) == seq![
            OutputModel::Line("No tunnels found."@),
        ],
        commands::list_outputs(Mode::Json, Seq::empty())[0] matches OutputModel::Pretty(
            JsonModel::Array(none),
        ) && none.len() == 0,
{
    events_describe_the_tunnel(tunnels[i], Seq::empty(), 0);
}

/// `update` changes what is asked for and leaves the rest of the tunnel as it is;
/// it tells the tunnel as it then is.
pub proof fn update_changes_what_is_asked_for(
    current: TunnelSummaryModel,
    label: Option<Seq<char>>,
    endpoint: Option<Seq<char>>,
)
    ensures
        label matches Some(new) ==> commands::updated_values(current, label, endpoint).0 == new,
        label is None ==> commands::updated_values(current, label, endpoint).0 == current.label,
        endpoint matches Some(new) ==> commands::updated_values(current, label, endpoint).1 == new,
        endpoint is None ==> commands::updated_values(current, label, endpoint).1
            == current.endpoint,
        commands::update_outputs(Mode::Text, current).len() == 3,
        commands::update_outputs(Mode::Text, current)[0] == OutputModel::Line(
            "Updated tunnel "@ + current.id + ":"@,
        ),
        commands::update_outputs(Mode::Text, current)[1] == OutputModel::Line(
            "  label: "@ + current.label,
        ),
        commands::update_outputs(Mode::Text, current)[2] == OutputModel::Line(
            "  endpoint: "@ + current.endpoint,
        ),
        commands::update_outputs(Mode::Json, current).len() == 1,
        commands::update_outputs(Mode::Json, current)[0] matches OutputModel::Event(event)
            && is_about(event, "tunnel_updated"@, current),
{
    events_describe_the_tunnel(current, Seq::empty(), 0);
}

/// `delete` tells which tunnel was deleted.
pub proof fn delete_names_the_tunnel(id: Seq<char>)
    ensures
        commands::delete_outputs(Mode::Text, id) == seq![
            OutputModel::Line("Deleted tunnel "@ + id),
        ],
        commands::delete_outputs(Mode::Json, id).len() == 1,
        commands::delete_outputs(Mode::Json, id)[0] matches OutputModel::Event(event) && says(
            event,
            "type"@,
            "tunnel_deleted"@,
        ) && says(event, "id"@, id) && holds(event, "deleted"@, true),
{
    events_name_the_tunnel("tunnel_deleted"@, id, Seq::empty());
}

/// The program runs as a plugin where it has a session or is told so by `1`.
pub proof fn plugin_needs_session_or_switch(session: Option<Seq<char>>, mode: Option<Seq<char>>)
    ensures
        session is Some ==> commands::runs_as_plugin(session, mode),
        session is None ==> (commands::runs_as_plugin(session, mode) <==> mode == Some("1"@)),
{
}

/// The project that is asked for wins over that of the session; an empty one of
/// the session counts as none.
pub proof fn asked_project_wins(project: Option<Seq<char>>, session: Option<Seq<char>>)
    ensures
        project is Some ==> commands::chosen_project(project, session) == project,
        project is None && (session matches Some(id) && id.len() > 0) ==> commands::chosen_project(
            project,
            session,
        ) == session,
        project is None && !(session matches Some(id) && id.len() > 0) ==> commands::chosen_project(
            project,
            session,
        ) is None,
{
}

} // verus!
