//! `vpc join`: how a device joins a VPC, and what is written meanwhile.
use vstd::prelude::*;

use crate::cli::output;
use crate::cli::output::{Mode, Output, OutputModel};
use crate::json;
use crate::json::{Json, JsonModel};
use crate::numbers;
use crate::text;
use crate::tunnels::requests::{ServiceError, ServiceErrorModel};
use crate::vpc::admission;
use crate::vpc::admission::{read_router_id, ROUTER_ID_CONTEXT};
use crate::vpc::routing;
use crate::vpc::routing::ModeArg;

verus! {

/// What is warned of where any router may connect.
pub const UNCHECKED_WARNING: &'static str =
    "  \u{26A0} No --router-id set \u{2014} accepting any dialer (trust-on-first-connect). This is only appropriate for lab/dev use; see design/vpc-attachment.md.";

/// What is said where the router never connected.
pub const NEVER_ASSIGNED: &'static str =
    "on_assign callback was never invoked \u{2014} router did not connect";

/// What a device says about itself while it joins.
#[derive(Debug)]
pub struct Joining {
    pub vpc: String,
    pub endpoint_id: String,
    pub bound_addrs: Vec<String>,
    pub tun_name: String,
    pub mtu: u16,
    pub router_id: Option<String>,
    pub route_mode: ModeArg,
    pub mode: Mode,
}

/// The model of a [`Joining`].
#[verifier::ext_equal]
pub struct JoiningModel {
    pub vpc: Seq<char>,
    pub endpoint_id: Seq<char>,
    pub bound_addrs: Seq<Seq<char>>,
    pub tun_name: Seq<char>,
    pub mtu: u16,
    pub router_id: Option<Seq<char>>,
    pub route_mode: ModeArg,
    pub mode: Mode,
}

impl DeepView for Joining {
    type V = JoiningModel;

    open spec fn deep_view(&self) -> JoiningModel {
        JoiningModel {
            vpc: self.vpc@,
            endpoint_id: self.endpoint_id@,
            bound_addrs: self.bound_addrs.deep_view(),
            tun_name: self.tun_name@,
            mtu: self.mtu,
            router_id: self.router_id.deep_view(),
            route_mode: self.route_mode,
            mode: self.mode,
        }
    }
}

/// The members that both events of a join have.
pub open spec fn join_members(kind: Seq<char>, j: JoiningModel) -> Map<Seq<char>, JsonModel> {
    output::event_of(kind).insert("vpc"@, JsonModel::Text(j.vpc)).insert(
        "endpoint_id"@,
        JsonModel::Text(j.endpoint_id),
    ).insert("bound_addrs"@, json::text_array_model(j.bound_addrs)).insert(
        "tun_name"@,
        JsonModel::Text(j.tun_name),
    )
}

/// What is written once the device waits for its router.
pub open spec fn listening_outputs(j: JoiningModel) -> Seq<OutputModel> {
    match j.mode {
        Mode::Json => seq![
            OutputModel::Event(JsonModel::Object(join_members("vpc_listening"@, j))),
        ],
        Mode::Text => seq![
            OutputModel::Note(
                "  \u{25CB} Interface "@ + j.tun_name + " created (unaddressed, mtu "@
                    + numbers::decimal(j.mtu as nat) + ") \u{2014} waiting for router assignment"@,
            ),
            OutputModel::Note(
                "  \u{25CB} Listening on: "@ + text::joined(j.bound_addrs, ", "@),
            ),
            OutputModel::Note(
                "  \u{25CB} Your endpoint ID: "@ + j.endpoint_id + " \u{2014} waiting for "@ + (
                match j.router_id {
                    Some(id) => "router "@ + id,
                    None => "any router"@,
                }) + " to connect"@,
            ),
        ],
    }
}

/// What is written once the router has assigned an address.
pub open spec fn joined_outputs(
    j: JoiningModel,
    address: Seq<char>,
    prefix_len: u8,
) -> Seq<OutputModel> {
    match j.mode {
        Mode::Json => seq![
            OutputModel::Event(
                JsonModel::Object(
                    join_members("vpc_ready"@, j).insert("address"@, JsonModel::Text(address)).insert(
                        "mode"@,
                        JsonModel::Text(routing::mode_name(j.route_mode)),
                    ),
                ),
            ),
        ],
        Mode::Text => seq![
            OutputModel::Note(
                "  \u{2713} Router assigned address "@ + address + " (/"@ + numbers::decimal(
                    prefix_len as nat,
                ) + ") \u{2014} interface "@ + j.tun_name + " configured"@,
            ),
            OutputModel::Note("VPC attachment ready. Press Ctrl+C to stop..."@),
        ],
    }
}

impl Joining {
    fn members(&self, kind: &str) -> (r: Vec<(String, Json)>)
        ensures
            json::members_wf(r@),
            json::member_map(r@) == join_members(kind@, self.deep_view()),
    {
        let mut members = json::no_members();
        json::set_text(&mut members, "type", kind);
        json::set_text(&mut members, "vpc", &self.vpc);
        json::set_text(&mut members, "endpoint_id", &self.endpoint_id);
        json::set_member(&mut members, "bound_addrs", json::text_array(&self.bound_addrs));
        json::set_text(&mut members, "tun_name", &self.tun_name);
        members
    }

    /// What is written once the device waits for its router.
    pub fn render_listening(&self) -> (r: Vec<Output>)
        ensures
            r.deep_view() == listening_outputs(self.deep_view()),
    {
        let mut out: Vec<Output> = Vec::new();
        if self.mode == Mode::Json {
            let members = self.members("vpc_listening");
            proof {
                json::lemma_object_model(members);
            }
            out.push(Output::Event(Json::Object(members)));
        } else {
            let mut created = text::concat3(
                "  \u{25CB} Interface ",
                &self.tun_name,
                " created (unaddressed, mtu ",
            );
            created.append(&numbers::decimal_text(self.mtu as u64));
            created.append(") \u{2014} waiting for router assignment");
            out.push(Output::Note(created));
            out.push(
                Output::Note(
                    text::concat2("  \u{25CB} Listening on: ", &text::join(&self.bound_addrs, ", ")),
                ),
            );
            let expected: String = match &self.router_id {
                Some(id) => text::concat2("router ", id),
                None => "any router".to_owned(),
            };
            let mut waiting = text::concat3(
                "  \u{25CB} Your endpoint ID: ",
                &self.endpoint_id,
                " \u{2014} waiting for ",
            );
            waiting.append(&expected);
            waiting.append(" to connect");
            out.push(Output::Note(waiting));
        }
        assert(out.deep_view() =~= listening_outputs(self.deep_view()));
        out
    }

    /// What is written once the router has assigned an address.
    pub fn render_joined(&self, address: &str, prefix_len: u8) -> (r: Vec<Output>)
        ensures
            r.deep_view() == joined_outputs(self.deep_view(), address@, prefix_len),
    {
        let mut out: Vec<Output> = Vec::new();
        if self.mode == Mode::Json {
            let mut members = self.members("vpc_ready");
            json::set_text(&mut members, "address", address);
            json::set_text(&mut members, "mode", self.route_mode.name());
            proof {
                json::lemma_object_model(members);
            }
            out.push(Output::Event(Json::Object(members)));
        } else {
            let mut assigned = text::concat3(
                "  \u{2713} Router assigned address ",
                address,
                " (/",
            );
            assigned.append(&numbers::decimal_text(prefix_len as u64));
            assigned.append(") \u{2014} interface ");
            assigned.append(&self.tun_name);
            assigned.append(" configured");
            out.push(Output::Note(assigned));
            out.push(Output::Note("VPC attachment ready. Press Ctrl+C to stop...".to_owned()));
        }
        assert(out.deep_view() =~= joined_outputs(self.deep_view(), address@, prefix_len));
        out
    }
}

// ---------------------------------------------------------------------------
// Joining
// ---------------------------------------------------------------------------
/// What is asked for.
#[derive(Debug, Clone, PartialEq, Eq)]
pub struct JoinContext {
    pub vpc: String,
    /// The router that may connect; any, where none is given.
    pub router_id: Option<String>,
    pub tun_name: String,
    pub mtu: u16,
    pub route_mode: ModeArg,
    pub mode: Mode,
}

/// The model of a [`JoinContext`].
#[verifier::ext_equal]
pub struct JoinContextModel {
    pub vpc: Seq<char>,
    pub router_id: Option<Seq<char>>,
    pub tun_name: Seq<char>,
    pub mtu: u16,
    pub route_mode: ModeArg,
    pub mode: Mode,
}

impl DeepView for JoinContext {
    type V = JoinContextModel;

    open spec fn deep_view(&self) -> JoinContextModel {
        JoinContextModel {
            vpc: self.vpc@,
            router_id: self.router_id.deep_view(),
            tun_name: self.tun_name@,
            mtu: self.mtu,
            route_mode: self.route_mode,
            mode: self.mode,
        }
    }
}

/// How far joining is: what it waits for.
#[derive(Debug, Clone, PartialEq, Eq)]
pub enum Join {
    /// The interface.
    CreatingTun { router: Option<String> },
    /// The endpoint that the router connects to.
    Binding { tun_name: String },
    /// The assignment of the router.
    Waiting { tun_name: String, endpoint_id: String, bound_addrs: Vec<String> },
    /// That the user stops the command.
    Serving,
    /// That the endpoint is shut down.
    Stopping,
}

/// The model of a [`Join`].
#[verifier::ext_equal]
pub enum JoinModel {
    CreatingTun { router: Option<Seq<char>> },
    Binding { tun_name: Seq<char> },
    Waiting { tun_name: Seq<char>, endpoint_id: Seq<char>, bound_addrs: Seq<Seq<char>> },
    Serving,
    Stopping,
}

impl DeepView for Join {
    type V = JoinModel;

    open spec fn deep_view(&self) -> JoinModel {
        match self {
            Join::CreatingTun { router } => JoinModel::CreatingTun {
                router: router.deep_view(),
            },
            Join::Binding { tun_name } => JoinModel::Binding {
                tun_name: tun_name.deep_view(),
            },
            Join::Waiting { tun_name, endpoint_id, bound_addrs } => JoinModel::Waiting {
                tun_name: tun_name.deep_view(),
                endpoint_id: endpoint_id.deep_view(),
                bound_addrs: bound_addrs.deep_view(),
            },
            Join::Serving => JoinModel::Serving,
            Join::Stopping => JoinModel::Stopping,
        }
    }
}

/// What happens.
#[derive(Debug, Clone, PartialEq, Eq)]
pub enum JoinEvent {
    /// The interface was created; the kernel gives it its name.
    TunCreated { tun_name: String },
    /// The endpoint waits for connections.
    Bound { endpoint_id: String, bound_addrs: Vec<String> },
    /// The router has assigned an address, and the interface is set up.
    Assigned { address: String, prefix_len: u8 },
    /// Nobody waits for connections any more.
    NeverAssigned,
    /// The user stops the command.
    Interrupted,
    /// The endpoint is shut down.
    Stopped,
    /// What was asked for failed.
    Failed { error: ServiceError },
}

/// The model of a [`JoinEvent`].
#[verifier::ext_equal]
pub enum JoinEventModel {
    TunCreated { tun_name: Seq<char> },
    Bound { endpoint_id: Seq<char>, bound_addrs: Seq<Seq<char>> },
    Assigned { address: Seq<char>, prefix_len: u8 },
    NeverAssigned,
    Interrupted,
    Stopped,
    Failed { error: ServiceErrorModel },
}

impl DeepView for JoinEvent {
    type V = JoinEventModel;

    open spec fn deep_view(&self) -> JoinEventModel {
        match self {
            JoinEvent::TunCreated { tun_name } => JoinEventModel::TunCreated {
                tun_name: tun_name.deep_view(),
            },
            JoinEvent::Bound { endpoint_id, bound_addrs } => JoinEventModel::Bound {
                endpoint_id: endpoint_id.deep_view(),
                bound_addrs: bound_addrs.deep_view(),
            },
            JoinEvent::Assigned { address, prefix_len } => JoinEventModel::Assigned {
                address: address.deep_view(),
                prefix_len: *prefix_len,
            },
            JoinEvent::NeverAssigned => JoinEventModel::NeverAssigned,
            JoinEvent::Interrupted => JoinEventModel::Interrupted,
            JoinEvent::Stopped => JoinEventModel::Stopped,
            JoinEvent::Failed { error } => JoinEventModel::Failed {
                error: error.deep_view(),
            },
        }
    }
}

/// What is done next.
#[derive(Debug, Clone, PartialEq, Eq)]
pub enum JoinAction {
    /// Creates the interface, without an address.
    CreateTun { tun_name: String, mtu: u16 },
    /// Lets this router connect, or any; its assignment is set up before packets
    /// flow.
    Bind { router: Option<String>, tun_name: String, mtu: u16 },
    /// Waits for the assignment of the router.
    AwaitAssignment,
    /// Waits until the user stops the command.
    AwaitInterrupt,
    /// Shuts the endpoint down.
    Shutdown,
}

/// The model of a [`JoinAction`].
#[verifier::ext_equal]
pub enum JoinActionModel {
    CreateTun { tun_name: Seq<char>, mtu: u16 },
    Bind { router: Option<Seq<char>>, tun_name: Seq<char>, mtu: u16 },
    AwaitAssignment,
    AwaitInterrupt,
    Shutdown,
}

impl DeepView for JoinAction {
    type V = JoinActionModel;

    open spec fn deep_view(&self) -> JoinActionModel {
        match self {
            JoinAction::CreateTun { tun_name, mtu } => JoinActionModel::CreateTun {
                tun_name: tun_name.deep_view(),
                mtu: *mtu,
            },
            JoinAction::Bind { router, tun_name, mtu } => JoinActionModel::Bind {
                router: router.deep_view(),
                tun_name: tun_name.deep_view(),
                mtu: *mtu,
            },
            JoinAction::AwaitAssignment => JoinActionModel::AwaitAssignment,
            JoinAction::AwaitInterrupt => JoinActionModel::AwaitInterrupt,
            JoinAction::Shutdown => JoinActionModel::Shutdown,
        }
    }
}

/// What comes of an event.
#[derive(Debug, Clone, PartialEq, Eq)]
pub enum JoinStep {
    /// Joining goes on.
    Next { state: Join, action: JoinAction },
    /// The command ends, with an error where there is one.
    Exit { error: Option<ServiceError> },
}

/// The model of a [`JoinStep`].
#[verifier::ext_equal]
pub enum JoinStepModel {
    Next { state: JoinModel, action: JoinActionModel },
    Exit { error: Option<ServiceErrorModel> },
}

impl DeepView for JoinStep {
    type V = JoinStepModel;

    open spec fn deep_view(&self) -> JoinStepModel {
        match self {
            JoinStep::Next { state, action } => JoinStepModel::Next {
                state: state.deep_view(),
                action: action.deep_view(),
            },
            JoinStep::Exit { error } => JoinStepModel::Exit {
                error: error.deep_view(),
            },
        }
    }
}

/// What a device says about itself once its endpoint is bound.
pub open spec fn joining_model(
    c: JoinContextModel,
    tun_name: Seq<char>,
    endpoint_id: Seq<char>,
    bound_addrs: Seq<Seq<char>>,
) -> JoiningModel {
    JoiningModel {
        vpc: c.vpc,
        endpoint_id,
        bound_addrs,
        tun_name,
        mtu: c.mtu,
        router_id: c.router_id,
        route_mode: c.route_mode,
        mode: c.mode,
    }
}

/// How joining begins, with the router that may connect as it was read.
pub open spec fn join_start(
    c: JoinContextModel,
    router: Result<Option<Seq<char>>, ServiceErrorModel>,
) -> (Seq<OutputModel>, JoinStepModel) {
    match router {
        Ok(router) => (
            if router is None {
                seq![OutputModel::Note(UNCHECKED_WARNING@)]
            } else {
                seq![]
            },
            JoinStepModel::Next {
                state: JoinModel::CreatingTun { router },
                action: JoinActionModel::CreateTun { tun_name: c.tun_name, mtu: c.mtu },
            },
        ),
        Err(error) => (seq![], JoinStepModel::Exit { error: Some(error) }),
    }
}

/// What joining does when something happens, and what is written: the interface
/// is created, the router assigns an address, and traffic flows until the user
/// stops it.
pub open spec fn join_step(c: JoinContextModel, state: JoinModel, event: JoinEventModel) -> (
    Seq<OutputModel>,
    JoinStepModel,
) {
    match (state, event) {
        (_, JoinEventModel::Failed { error }) => (
            seq![],
            JoinStepModel::Exit { error: Some(error) },
        ),
        (JoinModel::CreatingTun { router }, JoinEventModel::TunCreated { tun_name }) => (
            seq![],
            JoinStepModel::Next {
                state: JoinModel::Binding { tun_name },
                action: JoinActionModel::Bind { router, tun_name, mtu: c.mtu },
            },
        ),
        (JoinModel::Binding { tun_name }, JoinEventModel::Bound { endpoint_id, bound_addrs }) => (
            listening_outputs(joining_model(c, tun_name, endpoint_id, bound_addrs)),
            JoinStepModel::Next {
                state: JoinModel::Waiting { tun_name, endpoint_id, bound_addrs },
                action: JoinActionModel::AwaitAssignment,
            },
        ),
        (
            JoinModel::Waiting { tun_name, endpoint_id, bound_addrs },
            JoinEventModel::Assigned { address, prefix_len },
        ) => (
            joined_outputs(
                joining_model(c, tun_name, endpoint_id, bound_addrs),
                address,
                prefix_len,
            ),
            JoinStepModel::Next {
                state: JoinModel::Serving,
                action: JoinActionModel::AwaitInterrupt,
            },
        ),
        (JoinModel::Waiting { .. }, JoinEventModel::NeverAssigned) => (
            seq![],
            JoinStepModel::Exit { error: Some(ServiceErrorModel::plain(NEVER_ASSIGNED@)) },
        ),
        (JoinModel::Serving, JoinEventModel::Interrupted) => (
            seq![],
            JoinStepModel::Next { state: JoinModel::Stopping, action: JoinActionModel::Shutdown },
        ),
        (JoinModel::Stopping, JoinEventModel::Stopped) => (
            seq![],
            JoinStepModel::Exit { error: None },
        ),
        _ => (
            seq![],
            JoinStepModel::Exit { error: Some(ServiceErrorModel::plain("unexpected event"@)) },
        ),
    }
}

fn silent() -> (r: Vec<Output>)
    ensures
        r.deep_view() == Seq::<OutputModel>::empty(),
{
    let r: Vec<Output> = Vec::new();
    assert(r.deep_view() =~= Seq::<OutputModel>::empty());
    r
}

/// The model of the router that may connect, as it was read.
pub open spec fn router_model(router: Result<Option<String>, ServiceError>) -> Result<
    Option<Seq<char>>,
    ServiceErrorModel,
> {
    match router {
        Ok(router) => Ok(router.deep_view()),
        Err(error) => Err(error.deep_view()),
    }
}

/// The router that may connect, as it is read from what the user names.
pub open spec fn router_read(given: Option<Seq<char>>) -> Result<
    Option<Seq<char>>,
    ServiceErrorModel,
> {
    match given {
        None => Ok(None),
        Some(given) => match admission::read_id(
            ROUTER_ID_CONTEXT@,
            admission::endpoint_id_of(given),
        ) {
            Ok(id) => Ok(Some(id)),
            Err(error) => Err(error),
        },
    }
}

impl JoinContext {
    /// How joining begins.
    pub fn start(&self) -> (r: (Vec<Output>, JoinStep))
        ensures
            (r.0.deep_view(), r.1.deep_view()) == join_start(
                self.deep_view(),
                router_read(self.router_id.deep_view()),
            ),
    {
        self.begin(read_router_id(&self.router_id))
    }

    /// How joining begins, with the router that may connect as it was read.
    pub fn begin(&self, router: Result<Option<String>, ServiceError>) -> (r: (
        Vec<Output>,
        JoinStep,
    ))
        ensures
            (r.0.deep_view(), r.1.deep_view()) == join_start(
                self.deep_view(),
                router_model(router),
            ),
    {
        match router {
            Ok(router) => {
                let mut out = silent();
                if router.is_none() {
                    out.push(Output::Note(UNCHECKED_WARNING.to_owned()));
                    assert(out.deep_view() =~= seq![OutputModel::Note(UNCHECKED_WARNING@)]);
                }
                let action = JoinAction::CreateTun {
                    tun_name: self.tun_name.clone(),
                    mtu: self.mtu,
                };
                (out, JoinStep::Next { state: Join::CreatingTun { router }, action })
            },
            Err(error) => (silent(), JoinStep::Exit { error: Some(error) }),
        }
    }

    fn joining(&self, tun_name: &str, endpoint_id: &str, bound_addrs: &Vec<String>) -> (r: Joining)
        ensures
            r.deep_view() == joining_model(
                self.deep_view(),
                tun_name@,
                endpoint_id@,
                bound_addrs.deep_view(),
            ),
    {
        Joining {
            vpc: self.vpc.clone(),
            endpoint_id: endpoint_id.to_owned(),
            bound_addrs: text::copy_texts(bound_addrs),
            tun_name: tun_name.to_owned(),
            mtu: self.mtu,
            router_id: self.router_id.clone(),
            route_mode: self.route_mode,
            mode: self.mode,
        }
    }
}

impl Join {
    /// Goes on with joining when something happens.
    pub fn step(self, c: &JoinContext, event: JoinEvent) -> (r: (Vec<Output>, JoinStep))
        ensures
            (r.0.deep_view(), r.1.deep_view()) == join_step(
                c.deep_view(),
                self.deep_view(),
                event.deep_view(),
            ),
    {
        match (self, event) {
            (_, JoinEvent::Failed { error }) => (silent(), JoinStep::Exit { error: Some(error) }),
            (Join::CreatingTun { router }, JoinEvent::TunCreated { tun_name }) => {
                let action = JoinAction::Bind { router, tun_name: tun_name.clone(), mtu: c.mtu };
                (silent(), JoinStep::Next { state: Join::Binding { tun_name }, action })
            },
            (Join::Binding { tun_name }, JoinEvent::Bound { endpoint_id, bound_addrs }) => {
                let out = c.joining(&tun_name, &endpoint_id, &bound_addrs).render_listening();
                let state = Join::Waiting { tun_name, endpoint_id, bound_addrs };
                (out, JoinStep::Next { state, action: JoinAction::AwaitAssignment })
            },
            (
                Join::Waiting { tun_name, endpoint_id, bound_addrs },
                JoinEvent::Assigned { address, prefix_len },
            ) => {
                let joining = c.joining(&tun_name, &endpoint_id, &bound_addrs);
                let out = joining.render_joined(&address, prefix_len);
                (out, JoinStep::Next { state: Join::Serving, action: JoinAction::AwaitInterrupt })
            },
            (Join::Waiting { .. }, JoinEvent::NeverAssigned) => {
                let error = ServiceError::plain(NEVER_ASSIGNED);
                (silent(), JoinStep::Exit { error: Some(error) })
            },
            (Join::Serving, JoinEvent::Interrupted) => {
                let action = JoinAction::Shutdown;
                (silent(), JoinStep::Next { state: Join::Stopping, action })
            },
            (Join::Stopping, JoinEvent::Stopped) => (silent(), JoinStep::Exit { error: None }),
            _ => {
                let error = ServiceError::plain("unexpected event");
                (silent(), JoinStep::Exit { error: Some(error) })
            },
        }
    }
}

// ---------------------------------------------------------------------------
// Laws
// ---------------------------------------------------------------------------
/// The device says that it is ready only once the router has assigned an address
/// and the interface is set up: that alone leads to the state that serves.
pub proof fn ready_comes_with_the_assignment(
    c: JoinContextModel,
    state: JoinModel,
    event: JoinEventModel,
    action: JoinActionModel,
)
    requires
        join_step(c, state, event).1 == (JoinStepModel::Next { state: JoinModel::Serving, action }),
    ensures
        state is Waiting,
        event is Assigned,
        join_step(c, state, event).0.len() > 0,
{
}

/// Only the router that the user names gets to connect: whoever binds the
/// endpoint is handed the ID that was read, and a text that is no ID ends the
/// command before anything is created.
pub proof fn named_router_is_handed_on(
    c: JoinContextModel,
    given: Seq<char>,
    tun_name: Seq<char>,
)
    requires
        c.router_id == Some(given),
    ensures
        match admission::endpoint_id_of(given) {
            Ok(id) => {
                let begun = join_start(c, router_read(c.router_id)).1;
                &&& begun matches JoinStepModel::Next { state, .. }
                &&& join_step(c, state, JoinEventModel::TunCreated { tun_name }).1
                    matches JoinStepModel::Next { action, .. }
                &&& action == (JoinActionModel::Bind { router: Some(id), tun_name, mtu: c.mtu })
            },
            Err(_) => join_start(c, router_read(c.router_id)).1 is Exit,
        },
{
}

/// Joining begins with the interface that was asked for, and warns where any router
/// may connect.
pub proof fn joining_begins_with_the_interface(
    c: JoinContextModel,
    router: Option<Seq<char>>,
    error: ServiceErrorModel,
)
    ensures
        ({
            let (outputs, step) = join_start(c, Ok(router));
            &&& step == (JoinStepModel::Next {
                state: JoinModel::CreatingTun { router },
                action: JoinActionModel::CreateTun { tun_name: c.tun_name, mtu: c.mtu },
            })
            &&& router is Some <==> outputs.len() == 0
            &&& router is None ==> outputs.len() == 1 && outputs[0] is Note
        }),
        join_start(c, Err(error)).1 == (JoinStepModel::Exit { error: Some(error) }),
        router_read(None) == Ok::<Option<Seq<char>>, ServiceErrorModel>(None),
{
}

/// Whether a JSON object has the member `key` with this text.
pub open spec fn event_says(event: JsonModel, key: Seq<char>, value: Seq<char>) -> bool {
    event matches JsonModel::Object(members) && members.contains_key(key) && members[key]
        == JsonModel::Text(value)
}

proof fn lemma_join_keys()
    ensures
        "type"@.len() == 4,
        "mode"@.len() == 4,
        "type"@ != "mode"@,
        "vpc"@.len() == 3,
        "address"@.len() == 7,
        "tun_name"@.len() == 8,
        "endpoint_id"@.len() == 11,
        "bound_addrs"@.len() == 11,
        "endpoint_id"@ != "bound_addrs"@,
{
    reveal_strlit("type");
    reveal_strlit("mode");
    reveal_strlit("vpc");
    reveal_strlit("address");
    reveal_strlit("tun_name");
    reveal_strlit("endpoint_id");
    reveal_strlit("bound_addrs");
    assert("type"@[0] == 't' && "mode"@[0] == 'm');
    assert("endpoint_id"@[0] == 'e' && "bound_addrs"@[0] == 'b');
}

/// The interface that the kernel named is bound, waited for and told; once the
/// router has assigned an address, that address is told as ready, and the user may
/// stop the command, which shuts the endpoint down and ends well.
pub proof fn joining_keeps_to_its_interface(
    c: JoinContextModel,
    router: Option<Seq<char>>,
    tun_name: Seq<char>,
    endpoint_id: Seq<char>,
    bound_addrs: Seq<Seq<char>>,
    address: Seq<char>,
    prefix_len: u8,
)
    ensures
        join_step(
            c,
            JoinModel::CreatingTun { router },
            JoinEventModel::TunCreated { tun_name },
        ).1 == (JoinStepModel::Next {
            state: JoinModel::Binding { tun_name },
            action: JoinActionModel::Bind { router, tun_name, mtu: c.mtu },
        }),
        ({
            let (outputs, step) = join_step(
                c,
                JoinModel::Binding { tun_name },
                JoinEventModel::Bound { endpoint_id, bound_addrs },
            );
            &&& step == (JoinStepModel::Next {
                state: JoinModel::Waiting { tun_name, endpoint_id, bound_addrs },
                action: JoinActionModel::AwaitAssignment,
            })
            &&& c.mode is Json ==> outputs.len() == 1 && outputs[0] is Event && event_says(
                outputs[0]->Event_0,
                "type"@,
                "vpc_listening"@,
            ) && event_says(outputs[0]->Event_0, "vpc"@, c.vpc) && event_says(
                outputs[0]->Event_0,
                "endpoint_id"@,
                endpoint_id,
            ) && event_says(outputs[0]->Event_0, "tun_name"@, tun_name)
                && outputs[0]->Event_0->Object_0["bound_addrs"@] == json::text_array_model(
                bound_addrs,
            )
            &&& c.mode is Text ==> outputs.len() == 3 && outputs[2] == OutputModel::Note(
                "  \u{25CB} Your endpoint ID: "@ + endpoint_id + " \u{2014} waiting for "@ + (
                match c.router_id {
                    Some(id) => "router "@ + id,
                    None => "any router"@,
                }) + " to connect"@,
            )
        }),
        ({
            let (outputs, step) = join_step(
                c,
                JoinModel::Waiting { tun_name, endpoint_id, bound_addrs },
                JoinEventModel::Assigned { address, prefix_len },
            );
            &&& step == (JoinStepModel::Next {
                state: JoinModel::Serving,
                action: JoinActionModel::AwaitInterrupt,
            })
            &&& c.mode is Json ==> outputs.len() == 1 && outputs[0] is Event && event_says(
                outputs[0]->Event_0,
                "type"@,
                "vpc_ready"@,
            ) && event_says(outputs[0]->Event_0, "vpc"@, c.vpc) && event_says(
                outputs[0]->Event_0,
                "endpoint_id"@,
                endpoint_id,
            ) && event_says(outputs[0]->Event_0, "tun_name"@, tun_name) && event_says(
                outputs[0]->Event_0,
                "address"@,
                address,
            ) && event_says(
                outputs[0]->Event_0,
                "mode"@,
                match c.route_mode {
                    ModeArg::VpcOnly => "vpc-only"@,
                    ModeArg::DefaultRoute => "default-route"@,
                },
            )
            &&& c.mode is Text ==> outputs.len() == 2 && outputs[0] == OutputModel::Note(
                "  \u{2713} Router assigned address "@ + address + " (/"@ + numbers::decimal(
                    prefix_len as nat,
                ) + ") \u{2014} interface "@ + tun_name + " configured"@,
            )
        }),
        join_step(c, JoinModel::Serving, JoinEventModel::Interrupted).1 == (JoinStepModel::Next {
            state: JoinModel::Stopping,
            action: JoinActionModel::Shutdown,
        }),
        join_step(c, JoinModel::Stopping, JoinEventModel::Stopped).1 == (JoinStepModel::Exit {
            error: None,
        }),
        join_step(
            c,
            JoinModel::Waiting { tun_name, endpoint_id, bound_addrs },
            JoinEventModel::NeverAssigned,
        ).1 matches JoinStepModel::Exit { error } && error is Some,
{
    lemma_join_keys();
}

/// What fails ends the command with that error, wherever it is.
pub proof fn failure_ends_the_join(
    c: JoinContextModel,
    state: JoinModel,
    error: ServiceErrorModel,
)
    ensures
        join_step(c, state, JoinEventModel::Failed { error }) == (
            Seq::<OutputModel>::empty(),
            JoinStepModel::Exit { error: Some(error) },
        ),
{
}

/// What the user reads while the device joins: the interface, where it listens, who
/// is waited for, and what went wrong.
pub proof fn joining_tells_the_user(
    c: JoinContextModel,
    tun_name: Seq<char>,
    endpoint_id: Seq<char>,
    bound_addrs: Seq<Seq<char>>,
    address: Seq<char>,
    prefix_len: u8,
    given: Seq<char>,
)
    ensures
        c.mode is Text ==> ({
            let outputs = join_step(
                c,
                JoinModel::Binding { tun_name },
                JoinEventModel::Bound { endpoint_id, bound_addrs },
            ).0;
            &&& outputs[0] == OutputModel::Note(
                "  \u{25CB} Interface "@ + tun_name + " created (unaddressed, mtu "@
                    + numbers::decimal(c.mtu as nat) + ") \u{2014} waiting for router assignment"@,
            )
            &&& outputs[1] == OutputModel::Note(
                "  \u{25CB} Listening on: "@ + text::joined(bound_addrs, ", "@),
            )
        }),
        c.mode is Text ==> join_step(
            c,
            JoinModel::Waiting { tun_name, endpoint_id, bound_addrs },
            JoinEventModel::Assigned { address, prefix_len },
        ).0[1] == OutputModel::Note("VPC attachment ready. Press Ctrl+C to stop..."@),
        join_start(c, Ok(None)).0 == seq![
            OutputModel::Note(
                "  \u{26A0} No --router-id set \u{2014} accepting any dialer (trust-on-first-connect). This is only appropriate for lab/dev use; see design/vpc-attachment.md."@,
            ),
        ],
        join_step(
            c,
            JoinModel::Waiting { tun_name, endpoint_id, bound_addrs },
            JoinEventModel::NeverAssigned,
        ).1 == (JoinStepModel::Exit {
            error: Some(
                ServiceErrorModel {
                    context: "on_assign callback was never invoked \u{2014} router did not connect"@,
                    cause: None,
                },
            ),
        }),
        match admission::endpoint_id_of(given) {
            Ok(id) => router_read(Some(given)) == Ok::<Option<Seq<char>>, ServiceErrorModel>(
                Some(id),
            ),
            Err(cause) => router_read(Some(given)) == Err::<Option<Seq<char>>, ServiceErrorModel>(
                ServiceErrorModel {
                    context: "parsing --router-id as an iroh endpoint id"@,
                    cause: Some(cause),
                },
            ),
        },
{
}

} // verus!
