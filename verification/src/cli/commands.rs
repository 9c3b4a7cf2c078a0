//! The other commands, and what every command needs first.
use vstd::prelude::*;

use crate::cli::output;
use crate::cli::output::{Mode, Output, OutputModel};
use crate::json;
use crate::json::{Json, JsonModel};
use crate::text;
use crate::tunnels::listing::{TunnelSummary, TunnelSummaryModel};

verus! {

// ---------------------------------------------------------------------------
// The environment of the program
// ---------------------------------------------------------------------------
/// What is said outside of plugin mode.
pub const NOT_A_PLUGIN: &'static str =
    "neither DATUM_SESSION nor DATUM_PLUGIN_MODE=1 set \u{2014} this binary runs in plugin mode only";

/// What is said where no project is known.
pub const NO_PROJECT: &'static str =
    "no project set \u{2014} pass --project or run 'datumctl config set project <name>'";

/// Whether the program runs as a plugin: it has a session, or is told so.
pub open spec fn runs_as_plugin(session: Option<Seq<char>>, plugin_mode: Option<Seq<char>>) -> bool {
    session is Some || plugin_mode == Some("1"@)
}

/// The program runs in plugin mode only.
pub fn check_plugin_mode(session: &Option<String>, plugin_mode: &Option<String>) -> (r: Result<
    (),
    String,
>)
    ensures
        r is Ok <==> runs_as_plugin(session.deep_view(), plugin_mode.deep_view()),
        r matches Err(message) ==> message@ == NOT_A_PLUGIN@,
{
    if session.is_some() {
        return Ok(());
    }
    match plugin_mode {
        Some(mode) => if text::text_eq(mode, "1") {
            Ok(())
        } else {
            Err(NOT_A_PLUGIN.to_owned())
        },
        None => Err(NOT_A_PLUGIN.to_owned()),
    }
}

/// The project that a command acts on: the one that is asked for, or else the
/// one that the session names.
pub open spec fn chosen_project(
    project: Option<Seq<char>>,
    session: Option<Seq<char>>,
) -> Option<Seq<char>> {
    match project {
        Some(project) => Some(project),
        None => match session {
            Some(session) => if session.len() > 0 {
                Some(session)
            } else {
                None
            },
            None => None,
        },
    }
}

/// The project that a command acts on.
pub fn select_project(project: Option<String>, session: Option<String>) -> (r: Result<
    String,
    String,
>)
    ensures
        match r {
            Ok(id) => chosen_project(project.deep_view(), session.deep_view()) == Some(id@),
            Err(message) => chosen_project(project.deep_view(), session.deep_view()) is None
                && message@ == NO_PROJECT@,
        },
{
    match (project, session) {
        (Some(project), _) => Ok(project),
        (None, Some(session)) => if session.as_str().is_empty() {
            Err(NO_PROJECT.to_owned())
        } else {
            Ok(session)
        },
        (None, None) => Err(NO_PROJECT.to_owned()),
    }
}

// ---------------------------------------------------------------------------
// `list`
// ---------------------------------------------------------------------------
/// The entries of a list of tunnels.
pub open spec fn entry_models(tunnels: Seq<TunnelSummaryModel>) -> Seq<JsonModel> {
    Seq::new(tunnels.len(), |i: int| output::tunnel_entry_model(tunnels[i]))
}

/// What `list` writes: one array, or one line for each tunnel.
pub open spec fn list_outputs(mode: Mode, tunnels: Seq<TunnelSummaryModel>) -> Seq<OutputModel> {
    match mode {
        Mode::Json => seq![OutputModel::Pretty(JsonModel::Array(entry_models(tunnels)))],
        Mode::Text => if tunnels.len() == 0 {
            seq![OutputModel::Line("No tunnels found."@)]
        } else {
            Seq::new(
                tunnels.len(),
                |i: int| OutputModel::Event(output::tunnel_entry_model(tunnels[i])),
            )
        },
    }
}

/// What `list` writes.
pub fn render_list(mode: Mode, tunnels: &Vec<TunnelSummary>) -> (r: Vec<Output>)
    ensures
        r.deep_view() == list_outputs(mode, tunnels.deep_view()),
{
    let mut entries: Vec<Json> = Vec::new();
    let mut lines: Vec<Output> = Vec::new();
    let mut i: usize = 0;
    while i < tunnels.len()
        invariant
            i <= tunnels@.len(),
            entries@.len() == (if mode == Mode::Json {
                i as nat
            } else {
                0
            }),
            lines@.len() == (if mode == Mode::Json {
                0
            } else {
                i as nat
            }),
            forall|j: int|
                0 <= j < entries@.len() ==> (#[trigger] entries@[j]).model()
                    == output::tunnel_entry_model(tunnels@[j].deep_view()),
            forall|j: int|
                0 <= j < lines@.len() ==> (#[trigger] lines@[j]).deep_view() == OutputModel::Event(
                    output::tunnel_entry_model(tunnels@[j].deep_view()),
                ),
        decreases tunnels@.len() - i,
    {
        let entry = output::tunnel_entry(&tunnels[i]);
        if mode == Mode::Json {
            entries.push(entry);
        } else {
            lines.push(Output::Event(entry));
        }
        i = i + 1;
    }
    if mode == Mode::Json {
        proof {
            json::lemma_array_model(entries);
            assert(json::models(entries@) =~= entry_models(tunnels.deep_view()));
        }
        lines.push(Output::Pretty(Json::Array(entries)));
    } else if tunnels.len() == 0 {
        lines.push(Output::Line("No tunnels found.".to_owned()));
    }
    assert(lines.deep_view() =~= list_outputs(mode, tunnels.deep_view()));
    lines
}

// ---------------------------------------------------------------------------
// `update`
// ---------------------------------------------------------------------------
/// The label and endpoint that `update` gives the tunnel: those that are asked
/// for, or else those that it has.
pub open spec fn updated_values(
    current: TunnelSummaryModel,
    label: Option<Seq<char>>,
    endpoint: Option<Seq<char>>,
) -> (Seq<char>, Seq<char>) {
    (
        match label {
            Some(label) => label,
            None => current.label,
        },
        match endpoint {
            Some(endpoint) => endpoint,
            None => current.endpoint,
        },
    )
}

/// The label and endpoint that `update` gives the tunnel, which must exist.
pub fn plan_update(
    id: &str,
    current: Option<TunnelSummary>,
    label: Option<String>,
    endpoint: Option<String>,
) -> (r: Result<(String, String), String>)
    ensures
        match (r, current) {
            (Ok((new_label, new_endpoint)), Some(tunnel)) => (new_label@, new_endpoint@)
                == updated_values(tunnel.deep_view(), label.deep_view(), endpoint.deep_view()),
            (Err(message), None) => message@ == "Tunnel "@ + id@ + " not found"@,
            _ => false,
        },
{
    match current {
        None => Err(text::concat3("Tunnel ", id, " not found")),
        Some(tunnel) => {
            let new_label: String = match label {
                Some(label) => label,
                None => tunnel.label,
            };
            let new_endpoint: String = match endpoint {
                Some(endpoint) => endpoint,
                None => tunnel.endpoint,
            };
            Ok((new_label, new_endpoint))
        },
    }
}

/// What `update` writes.
pub open spec fn update_outputs(mode: Mode, tunnel: TunnelSummaryModel) -> Seq<OutputModel> {
    match mode {
        Mode::Json => seq![OutputModel::Event(output::updated_event_model(tunnel))],
        Mode::Text => seq![
            OutputModel::Line("Updated tunnel "@ + tunnel.id + ":"@),
            OutputModel::Line("  label: "@ + tunnel.label),
            OutputModel::Line("  endpoint: "@ + tunnel.endpoint),
        ],
    }
}

/// What `update` writes.
pub fn render_update(mode: Mode, tunnel: &TunnelSummary) -> (r: Vec<Output>)
    ensures
        r.deep_view() == update_outputs(mode, tunnel.deep_view()),
{
    let mut out: Vec<Output> = Vec::new();
    if mode == Mode::Json {
        out.push(Output::Event(output::updated_event(tunnel)));
    } else {
        out.push(Output::Line(text::concat3("Updated tunnel ", &tunnel.id, ":")));
        out.push(Output::Line(text::concat2("  label: ", &tunnel.label)));
        out.push(Output::Line(text::concat2("  endpoint: ", &tunnel.endpoint)));
    }
    assert(out.deep_view() =~= update_outputs(mode, tunnel.deep_view()));
    out
}

// ---------------------------------------------------------------------------
// `delete`
// ---------------------------------------------------------------------------
/// What `delete` writes.
pub open spec fn delete_outputs(mode: Mode, id: Seq<char>) -> Seq<OutputModel> {
    match mode {
        Mode::Json => seq![OutputModel::Event(output::deleted_event_model(id))],
        Mode::Text => seq![OutputModel::Line("Deleted tunnel "@ + id)],
    }
}

/// What `delete` writes.
pub fn render_delete(mode: Mode, id: &str) -> (r: Vec<Output>)
    ensures
        r.deep_view() == delete_outputs(mode, id@),
{
    let mut out: Vec<Output> = Vec::new();
    if mode == Mode::Json {
        out.push(Output::Event(output::deleted_event(id)));
    } else {
        out.push(Output::Line(text::concat2("Deleted tunnel ", id)));
    }
    assert(out.deep_view() =~= delete_outputs(mode, id@));
    out
}

/// In JSON mode each command writes JSON alone on standard output.
pub proof fn json_mode_writes_json_alone(
    tunnels: Seq<TunnelSummaryModel>,
    tunnel: TunnelSummaryModel,
    id: Seq<char>,
    i: int,
)
    ensures
        0 <= i < list_outputs(Mode::Json, tunnels).len() ==> !(list_outputs(
            Mode::Json,
            tunnels,
        )[i] is Line),
        0 <= i < update_outputs(Mode::Json, tunnel).len() ==> !(update_outputs(
            Mode::Json,
            tunnel,
        )[i] is Line),
        0 <= i < delete_outputs(Mode::Json, id).len() ==> !(delete_outputs(Mode::Json, id)[i] is Line),
{
}

} // verus!
