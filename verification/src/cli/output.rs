//! What the program tells its user and its supervisor: lines, and events of
//! one JSON object each.
use vstd::prelude::*;

use crate::json;
use crate::json::{Json, JsonModel, JsonNumber, JsonNumberModel};
use crate::numbers;
use crate::text;
use crate::tunnels::listing::{TunnelSummary, TunnelSummaryModel};
use crate::tunnels::progress::{ProgressStep, ProgressStepKind, ProgressStepModel, StepStatus};

verus! {

/// Whether events are written besides the lines for a reader.
#[derive(Debug, Clone, Copy, PartialEq, Eq, Structural)]
pub enum Mode {
    Text,
    Json,
}

impl DeepView for Mode {
    type V = Mode;

    open spec fn deep_view(&self) -> Mode {
        *self
    }
}

/// The mode of a program that was started with or without `--json`.
pub fn mode_of(json: bool) -> (r: Mode)
    ensures
        r == (if json {
            Mode::Json
        } else {
            Mode::Text
        }),
{
    if json {
        Mode::Json
    } else {
        Mode::Text
    }
}

/// Something to write.
#[derive(Debug)]
pub enum Output {
    /// An event, as one line of JSON on standard output.
    Event(Json),
    /// A value, over several lines of JSON on standard output.
    Pretty(Json),
    /// A line on standard output.
    Line(String),
    /// A line on standard error.
    Note(String),
}

/// The model of an [`Output`].
#[verifier::ext_equal]
pub enum OutputModel {
    Event(JsonModel),
    Pretty(JsonModel),
    Line(Seq<char>),
    Note(Seq<char>),
}

impl DeepView for Output {
    type V = OutputModel;

    open spec fn deep_view(&self) -> OutputModel {
        match self {
            Output::Event(event) => OutputModel::Event(event.deep_view()),
            Output::Pretty(value) => OutputModel::Pretty(value.deep_view()),
            Output::Line(line) => OutputModel::Line(line@),
            Output::Note(note) => OutputModel::Note(note@),
        }
    }
}

/// The note for someone who reads along, or the event for the supervisor.
pub open spec fn told(mode: Mode, event: JsonModel, note: Seq<char>) -> OutputModel {
    match mode {
        Mode::Json => OutputModel::Event(event),
        Mode::Text => OutputModel::Note(note),
    }
}

/// The event, where events are written.
pub open spec fn event_only(mode: Mode, event: JsonModel) -> Seq<OutputModel> {
    match mode {
        Mode::Json => seq![OutputModel::Event(event)],
        Mode::Text => seq![],
    }
}

// ---------------------------------------------------------------------------
// Names
// ---------------------------------------------------------------------------
/// The name of a checkpoint in events.
pub open spec fn step_name(kind: ProgressStepKind) -> Seq<char> {
    match kind {
        ProgressStepKind::ProxyAccepted => "proxy_accepted"@,
        ProgressStepKind::CertificatesReady => "certificates_ready"@,
        ProgressStepKind::ConnectorReady => "connector_ready"@,
        ProgressStepKind::IrohDnsPublished => "iroh_dns_published"@,
        ProgressStepKind::ProxyProgrammed => "proxy_programmed"@,
        ProgressStepKind::ConnectorMetadataProgrammed => "connector_metadata_programmed"@,
    }
}

/// The name of a status in events.
pub open spec fn status_name(status: StepStatus) -> Seq<char> {
    match status {
        StepStatus::Unknown => "unknown"@,
        StepStatus::Pending => "pending"@,
        StepStatus::Ready => "ready"@,
    }
}

pub fn step_kind_to_str(kind: ProgressStepKind) -> (r: &'static str)
    ensures
        r@ == step_name(kind),
{
    match kind {
        ProgressStepKind::ProxyAccepted => "proxy_accepted",
        ProgressStepKind::CertificatesReady => "certificates_ready",
        ProgressStepKind::ConnectorReady => "connector_ready",
        ProgressStepKind::IrohDnsPublished => "iroh_dns_published",
        ProgressStepKind::ProxyProgrammed => "proxy_programmed",
        ProgressStepKind::ConnectorMetadataProgrammed => "connector_metadata_programmed",
    }
}

pub fn status_to_str(status: StepStatus) -> (r: &'static str)
    ensures
        r@ == status_name(status),
{
    match status {
        StepStatus::Unknown => "unknown",
        StepStatus::Pending => "pending",
        StepStatus::Ready => "ready",
    }
}

/// The first word of a tunnel's state: whether it is accepted and programmed.
pub open spec fn tunnel_status_name(tunnel: TunnelSummaryModel) -> Seq<char> {
    if tunnel.accepted && tunnel.programmed {
        "ready"@
    } else if tunnel.accepted {
        "accepted"@
    } else {
        "pending"@
    }
}

// ---------------------------------------------------------------------------
// Events
// ---------------------------------------------------------------------------
/// The members of an event of the given type.
pub open spec fn event_of(kind: Seq<char>) -> Map<Seq<char>, JsonModel> {
    Map::empty().insert("type"@, JsonModel::Text(kind))
}

/// A checkpoint has a new status.
pub open spec fn progress_event_model(step: ProgressStepModel) -> JsonModel {
    JsonModel::Object(
        event_of("tunnel_progress"@).insert("step"@, JsonModel::Text(step_name(step.kind))).insert(
            "status"@,
            JsonModel::Text(status_name(step.status)),
        ).insert(
            "resource"@,
            match step.resource {
                Some(resource) => JsonModel::Text(resource),
                None => JsonModel::Null,
            },
        ),
    )
}

/// A probe of a URL starts, or has succeeded.
pub open spec fn probe_event_model(kind: Seq<char>, url: Seq<char>) -> JsonModel {
    JsonModel::Object(event_of(kind).insert("url"@, JsonModel::Text(url)))
}

/// Something happened to a tunnel.
pub open spec fn id_event_model(kind: Seq<char>, id: Seq<char>) -> JsonModel {
    JsonModel::Object(event_of(kind).insert("id"@, JsonModel::Text(id)))
}

/// Something happened to a tunnel that needs words.
pub open spec fn message_event_model(
    kind: Seq<char>,
    id: Seq<char>,
    message: Seq<char>,
) -> JsonModel {
    JsonModel::Object(
        event_of(kind).insert("id"@, JsonModel::Text(id)).insert(
            "message"@,
            JsonModel::Text(message),
        ),
    )
}

/// The members that say what a tunnel is.
pub open spec fn tunnel_members(
    kind: Seq<char>,
    tunnel: TunnelSummaryModel,
) -> Map<Seq<char>, JsonModel> {
    event_of(kind).insert("id"@, JsonModel::Text(tunnel.id)).insert(
        "label"@,
        JsonModel::Text(tunnel.label),
    ).insert("endpoint"@, JsonModel::Text(tunnel.endpoint)).insert(
        "hostnames"@,
        json::text_array_model(tunnel.hostnames),
    )
}

/// A tunnel has another label or endpoint.
pub open spec fn updated_event_model(tunnel: TunnelSummaryModel) -> JsonModel {
    JsonModel::Object(tunnel_members("tunnel_updated"@, tunnel))
}

/// A tunnel is set up and its proxy answers.
pub open spec fn ready_event_model(
    tunnel: TunnelSummaryModel,
    endpoint_id: Seq<char>,
    elapsed_secs: u64,
) -> JsonModel {
    JsonModel::Object(
        tunnel_members("tunnel_ready"@, tunnel).insert(
            "endpoint_id"@,
            JsonModel::Text(endpoint_id),
        ).insert("status"@, JsonModel::Text("ready"@)).insert(
            "elapsed_secs"@,
            JsonModel::Number(JsonNumberModel::Unsigned(elapsed_secs)),
        ),
    )
}

/// A tunnel was deleted.
pub open spec fn deleted_event_model(id: Seq<char>) -> JsonModel {
    JsonModel::Object(
        event_of("tunnel_deleted"@).insert("id"@, JsonModel::Text(id)).insert(
            "deleted"@,
            JsonModel::Bool(true),
        ),
    )
}

/// One entry of a list of tunnels.
pub open spec fn tunnel_entry_model(tunnel: TunnelSummaryModel) -> JsonModel {
    JsonModel::Object(
        tunnel_members("tunnel"@, tunnel).insert(
            "status"@,
            JsonModel::Text(tunnel_status_name(tunnel)),
        ).insert("enabled"@, JsonModel::Bool(tunnel.enabled)),
    )
}

fn start_event(kind: &str) -> (r: Vec<(String, Json)>)
    ensures
        json::members_wf(r@),
        json::member_map(r@) == event_of(kind@),
{
    let mut members = json::no_members();
    json::set_text(&mut members, "type", kind);
    members
}

fn finish_event(members: Vec<(String, Json)>) -> (r: Json)
    requires
        json::members_wf(members@),
    ensures
        r.model() == JsonModel::Object(json::member_map(members@)),
        r.wf(),
{
    proof {
        json::lemma_object_model(members);
    }
    Json::Object(members)
}

/// The event of a checkpoint with a new status.
pub fn progress_event(step: &ProgressStep) -> (r: Json)
    ensures
        r.model() == progress_event_model(step.deep_view()),
        r.wf(),
{
    let mut members = start_event("tunnel_progress");
    json::set_text(&mut members, "step", step_kind_to_str(step.kind));
    json::set_text(&mut members, "status", status_to_str(step.status));
    let resource: Json = match &step.resource {
        Some(resource) => Json::Text(resource.clone()),
        None => Json::Null,
    };
    json::set_member(&mut members, "resource", resource);
    finish_event(members)
}

/// The event of a probe that starts or has succeeded.
pub fn probe_event(kind: &str, url: &str) -> (r: Json)
    ensures
        r.model() == probe_event_model(kind@, url@),
        r.wf(),
{
    let mut members = start_event(kind);
    json::set_text(&mut members, "url", url);
    finish_event(members)
}

/// The event of something that happened to a tunnel.
pub fn id_event(kind: &str, id: &str) -> (r: Json)
    ensures
        r.model() == id_event_model(kind@, id@),
        r.wf(),
{
    let mut members = start_event(kind);
    json::set_text(&mut members, "id", id);
    finish_event(members)
}

/// The event of something that happened to a tunnel, in words.
pub fn message_event(kind: &str, id: &str, message: &str) -> (r: Json)
    ensures
        r.model() == message_event_model(kind@, id@, message@),
        r.wf(),
{
    let mut members = start_event(kind);
    json::set_text(&mut members, "id", id);
    json::set_text(&mut members, "message", message);
    finish_event(members)
}

fn describe(kind: &str, tunnel: &TunnelSummary) -> (r: Vec<(String, Json)>)
    ensures
        json::members_wf(r@),
        json::member_map(r@) == tunnel_members(kind@, tunnel.deep_view()),
{
    let mut members = start_event(kind);
    json::set_text(&mut members, "id", &tunnel.id);
    json::set_text(&mut members, "label", &tunnel.label);
    json::set_text(&mut members, "endpoint", &tunnel.endpoint);
    json::set_member(&mut members, "hostnames", json::text_array(&tunnel.hostnames));
    members
}

/// The event of a tunnel with another label or endpoint.
pub fn updated_event(tunnel: &TunnelSummary) -> (r: Json)
    ensures
        r.model() == updated_event_model(tunnel.deep_view()),
        r.wf(),
{
    finish_event(describe("tunnel_updated", tunnel))
}

/// The event of a tunnel that is ready.
pub fn ready_event(tunnel: &TunnelSummary, endpoint_id: &str, elapsed_secs: u64) -> (r: Json)
    ensures
        r.model() == ready_event_model(tunnel.deep_view(), endpoint_id@, elapsed_secs),
        r.wf(),
{
    let mut members = describe("tunnel_ready", tunnel);
    json::set_text(&mut members, "endpoint_id", endpoint_id);
    json::set_text(&mut members, "status", "ready");
    json::set_member(
        &mut members,
        "elapsed_secs",
        Json::Number(JsonNumber::Unsigned(elapsed_secs)),
    );
    finish_event(members)
}

/// The event of a tunnel that was deleted.
pub fn deleted_event(id: &str) -> (r: Json)
    ensures
        r.model() == deleted_event_model(id@),
        r.wf(),
{
    let mut members = start_event("tunnel_deleted");
    json::set_text(&mut members, "id", id);
    json::set_member(&mut members, "deleted", Json::Bool(true));
    finish_event(members)
}

/// One entry of a list of tunnels.
pub fn tunnel_entry(tunnel: &TunnelSummary) -> (r: Json)
    ensures
        r.model() == tunnel_entry_model(tunnel.deep_view()),
        r.wf(),
{
    let status: &str = if tunnel.accepted && tunnel.programmed {
        "ready"
    } else if tunnel.accepted {
        "accepted"
    } else {
        "pending"
    };
    let mut members = describe("tunnel", tunnel);
    json::set_text(&mut members, "status", status);
    json::set_member(&mut members, "enabled", Json::Bool(tunnel.enabled));
    finish_event(members)
}

// ---------------------------------------------------------------------------
// Lines
// ---------------------------------------------------------------------------
/// What to do when another connector owns the DNS record.
pub const OWNER_COLLISION_HINT: &'static str =
    "\nAnother connector with the same iroh key owns the DNS record for this tunnel. Most likely this means you are running two connectors against the same listen_key store. Stop the other connector or use a different repo directory.\n";

/// A line `  name: value`, where there is a value.
pub open spec fn detail_line(name: Seq<char>, value: Option<Seq<char>>) -> Seq<char> {
    match value {
        Some(value) => "  "@ + name + ": "@ + value + "\n"@,
        None => Seq::empty(),
    }
}

/// What is said when the setup of a tunnel has failed at a checkpoint.
pub open spec fn failure_text(step: ProgressStepModel) -> Seq<char> {
    "Tunnel setup failed at step: "@ + step.kind.label_text() + " ("@
        + step.kind.resource_kind_text() + ")\n"@ + detail_line(
        "resource"@,
        Some(
            match step.resource {
                Some(resource) => resource,
                None => "(none)"@,
            },
        ),
    ) + detail_line("reason"@, step.reason) + detail_line("message"@, step.message) + (
    if step.is_terminal() {
        OWNER_COLLISION_HINT@
    } else {
        Seq::empty()
    })
}

fn detail(name: &str, value: &str) -> (r: String)
    ensures
        r@ == detail_line(name@, Some(value@)),
{
    let mut out = text::concat3("  ", name, ": ");
    out.append(value);
    out.append("\n");
    out
}

/// What is said when the setup of a tunnel has failed at a checkpoint.
pub fn format_terminal_failure(step: &ProgressStep) -> (r: String)
    ensures
        r@ == failure_text(step.deep_view()),
{
    let mut out = text::concat3("Tunnel setup failed at step: ", step.kind.label(), " (");
    out.append(step.kind.resource_kind());
    out.append(")\n");
    match &step.resource {
        Some(resource) => {
            out.append(&detail("resource", resource));
        },
        None => {
            out.append(&detail("resource", "(none)"));
        },
    }
    let ghost before = out@;
    match &step.reason {
        Some(reason) => {
            out.append(&detail("reason", reason));
        },
        None => {},
    }
    assert(out@ =~= before + detail_line("reason"@, step.deep_view().reason));
    let ghost before = out@;
    match &step.message {
        Some(message) => {
            out.append(&detail("message", message));
        },
        None => {},
    }
    assert(out@ =~= before + detail_line("message"@, step.deep_view().message));
    if step.is_terminal_failure() {
        out.append(OWNER_COLLISION_HINT);
    }
    assert(out@ =~= failure_text(step.deep_view()));
    out
}

/// The line `mark what (seconds s) [where]`.
pub open spec fn timed_line(
    mark: Seq<char>,
    what: Seq<char>,
    seconds: Seq<char>,
    place: Seq<char>,
) -> Seq<char> {
    mark + what + " ("@ + seconds + "s) ["@ + place + "]"@
}

/// The mark of something that is done.
pub const DONE_MARK: &'static str = "  \u{2713} ";

/// The mark of something that is waited for.
pub const WAITING_MARK: &'static str = "  \u{25CB} waiting for ";

fn timed(mark: &str, what: &str, seconds: &str, place: &str) -> (r: String)
    ensures
        r@ == timed_line(mark@, what@, seconds@, place@),
{
    let mut out = text::concat3(mark, what, " (");
    out.append(seconds);
    out.append("s) [");
    out.append(place);
    out.append("]");
    out
}

/// The resource behind a checkpoint, as lines show it.
pub open spec fn shown_resource(step: ProgressStepModel) -> Seq<char> {
    match step.resource {
        Some(resource) => resource,
        None => Seq::empty(),
    }
}

/// What is written when a checkpoint has a new status. `seconds` is how long
/// it took, as text.
pub open spec fn progress_outputs(
    mode: Mode,
    step: ProgressStepModel,
    seconds: Seq<char>,
) -> Seq<OutputModel> {
    (if step.status is Ready {
        seq![
            OutputModel::Note(
                timed_line(DONE_MARK@, step.kind.label_text(), seconds, shown_resource(step)),
            ),
        ]
    } else {
        seq![]
    }) + event_only(mode, progress_event_model(step))
}

/// What is written when a checkpoint has a new status.
pub fn render_progress_step(mode: Mode, step: &ProgressStep, seconds: &str) -> (r: Vec<Output>)
    ensures
        r.deep_view() == progress_outputs(mode, step.deep_view(), seconds@),
{
    let mut out: Vec<Output> = Vec::new();
    if step.status == StepStatus::Ready {
        let place: &str = match &step.resource {
            Some(resource) => resource.as_str(),
            None => "",
        };
        proof {
            reveal_strlit("");
            assert(place@ =~= shown_resource(step.deep_view()));
        }
        out.push(Output::Note(timed(DONE_MARK, step.kind.label(), seconds, place)));
    }
    if mode == Mode::Json {
        out.push(Output::Event(progress_event(step)));
    }
    assert(out.deep_view() =~= progress_outputs(mode, step.deep_view(), seconds@));
    out
}

/// The note about a checkpoint that keeps waiting.
pub open spec fn waiting_note(step: ProgressStepModel, seconds: Seq<char>) -> Seq<char> {
    timed_line(WAITING_MARK@, step.kind.label_text(), seconds, shown_resource(step))
}

/// The note about a checkpoint that keeps waiting.
pub fn render_waiting(step: &ProgressStep, seconds: &str) -> (r: Output)
    ensures
        r.deep_view() == OutputModel::Note(waiting_note(step.deep_view(), seconds@)),
{
    let place: &str = match &step.resource {
        Some(resource) => resource.as_str(),
        None => "",
    };
    proof {
        reveal_strlit("");
        assert(place@ =~= shown_resource(step.deep_view()));
    }
    Output::Note(timed(WAITING_MARK, step.kind.label(), seconds, place))
}

/// What is written about a probe: that it starts, without a status, or that it
/// was answered.
pub open spec fn verify_outputs(
    mode: Mode,
    label: Seq<char>,
    url: Seq<char>,
    seconds: Seq<char>,
    status: Option<u16>,
) -> Seq<OutputModel> {
    seq![
        OutputModel::Note(
            timed_line(DONE_MARK@, label, seconds, url) + (match status {
                Some(status) => ": HTTP "@ + numbers::decimal(status as nat),
                None => Seq::empty(),
            }),
        ),
    ] + event_only(
        mode,
        probe_event_model(
            match status {
                Some(_) => "tunnel_verified"@,
                None => "tunnel_verifying"@,
            },
            url,
        ),
    )
}

/// What is written about a probe.
pub fn render_verify(
    mode: Mode,
    label: &str,
    url: &str,
    seconds: &str,
    status: Option<u16>,
) -> (r: Vec<Output>)
    ensures
        r.deep_view() == verify_outputs(mode, label@, url@, seconds@, status),
{
    let mut line = timed(DONE_MARK, label, seconds, url);
    let ghost before = line@;
    let mut kind: &str = "tunnel_verifying";
    match status {
        Some(status) => {
            let number = numbers::decimal_text(status as u64);
            line.append(&text::concat2(": HTTP ", &number));
            kind = "tunnel_verified";
        },
        None => {
            assert(line@ =~= before + Seq::<char>::empty());
        },
    }
    let mut out: Vec<Output> = Vec::new();
    out.push(Output::Note(line));
    if mode == Mode::Json {
        out.push(Output::Event(probe_event(kind, url)));
    }
    assert(out.deep_view() =~= verify_outputs(mode, label@, url@, seconds@, status));
    out
}

} // verus!
