//! Setting up the local interface of a VPC attachment, once the router has
//! assigned an address: which `ip` command runs when, and what ends the setup.
use vstd::prelude::*;

use crate::text;
use crate::vpc::routing;
use crate::vpc::routing::Mode;

verus! {

/// What is to be set up.
#[derive(Debug, Clone, PartialEq, Eq)]
pub struct SetupContext {
    /// The interface.
    pub name: String,
    pub mtu: u16,
    pub mode: Mode,
    /// The address that the router is reached at from outside the VPC.
    pub router_ip: Option<String>,
    /// The address that the router has assigned.
    pub address: String,
    pub prefix_len: u8,
    pub vpc_prefixes: Vec<String>,
}

/// The model of a [`SetupContext`].
#[verifier::ext_equal]
pub struct SetupContextModel {
    pub name: Seq<char>,
    pub mtu: u16,
    pub mode: Mode,
    pub router_ip: Option<Seq<char>>,
    pub address: Seq<char>,
    pub prefix_len: u8,
    pub vpc_prefixes: Seq<Seq<char>>,
}

impl DeepView for SetupContext {
    type V = SetupContextModel;

    open spec fn deep_view(&self) -> SetupContextModel {
        SetupContextModel {
            name: self.name@,
            mtu: self.mtu,
            mode: self.mode,
            router_ip: self.router_ip.deep_view(),
            address: self.address@,
            prefix_len: self.prefix_len,
            vpc_prefixes: self.vpc_prefixes.deep_view(),
        }
    }
}

/// How far the setup is: what it waits for.
#[derive(Debug, Clone, PartialEq, Eq)]
pub enum Setup {
    /// That a command has configured the interface; these follow.
    Configuring { left: Vec<Vec<String>> },
    /// The present default route.
    AskingDefaultRoute,
    /// That a command has added a route; these follow.
    Routing { left: Vec<Vec<String>> },
}

/// The model of a [`Setup`].
#[verifier::ext_equal]
pub enum SetupModel {
    Configuring { left: Seq<Seq<Seq<char>>> },
    AskingDefaultRoute,
    Routing { left: Seq<Seq<Seq<char>>> },
}

impl DeepView for Setup {
    type V = SetupModel;

    open spec fn deep_view(&self) -> SetupModel {
        match self {
            Setup::Configuring { left } => SetupModel::Configuring {
                left: left.deep_view(),
            },
            Setup::AskingDefaultRoute => SetupModel::AskingDefaultRoute,
            Setup::Routing { left } => SetupModel::Routing {
                left: left.deep_view(),
            },
        }
    }
}

/// What is done next.
#[derive(Debug, Clone, PartialEq, Eq)]
pub enum SetupAction {
    /// Runs `ip` with these arguments.
    Run { args: Vec<String> },
    /// Reads the present default route.
    ShowDefaultRoute,
}

/// The model of a [`SetupAction`].
#[verifier::ext_equal]
pub enum SetupActionModel {
    Run { args: Seq<Seq<char>> },
    ShowDefaultRoute,
}

impl DeepView for SetupAction {
    type V = SetupActionModel;

    open spec fn deep_view(&self) -> SetupActionModel {
        match self {
            SetupAction::Run { args } => SetupActionModel::Run {
                args: args.deep_view(),
            },
            SetupAction::ShowDefaultRoute => SetupActionModel::ShowDefaultRoute,
        }
    }
}

/// What comes back.
#[derive(Debug, Clone, PartialEq, Eq)]
pub enum SetupReply {
    /// The command has succeeded.
    Ran,
    /// The gateway and the interface of the present default route, where there
    /// is one.
    DefaultRoute { route: Option<(String, String)> },
    /// What was asked for failed.
    Failed { message: String },
}

/// The model of a [`SetupReply`].
#[verifier::ext_equal]
pub enum SetupReplyModel {
    Ran,
    DefaultRoute { route: Option<(Seq<char>, Seq<char>)> },
    Failed { message: Seq<char> },
}

impl DeepView for SetupReply {
    type V = SetupReplyModel;

    open spec fn deep_view(&self) -> SetupReplyModel {
        match self {
            SetupReply::Ran => SetupReplyModel::Ran,
            SetupReply::DefaultRoute { route } => SetupReplyModel::DefaultRoute {
                route: route.deep_view(),
            },
            SetupReply::Failed { message } => SetupReplyModel::Failed {
                message: message.deep_view(),
            },
        }
    }
}

/// What comes of a reply.
#[derive(Debug, Clone, PartialEq, Eq)]
pub enum SetupStep {
    /// The setup goes on; `unpinned` where the way to the router could not be
    /// kept out of the interface, which is warned of.
    Next { state: Setup, action: SetupAction, unpinned: bool },
    /// The interface is set up.
    Ready,
    /// The setup has failed.
    Failed { message: String },
}

/// The model of a [`SetupStep`].
#[verifier::ext_equal]
pub enum SetupStepModel {
    Next { state: SetupModel, action: SetupActionModel, unpinned: bool },
    Ready,
    Failed { message: Seq<char> },
}

impl DeepView for SetupStep {
    type V = SetupStepModel;

    open spec fn deep_view(&self) -> SetupStepModel {
        match self {
            SetupStep::Next { state, action, unpinned } => SetupStepModel::Next {
                state: state.deep_view(),
                action: action.deep_view(),
                unpinned: *unpinned,
            },
            SetupStep::Ready => SetupStepModel::Ready,
            SetupStep::Failed { message } => SetupStepModel::Failed {
                message: message.deep_view(),
            },
        }
    }
}

/// The commands that configure the interface.
pub open spec fn configuring_commands(c: SetupContextModel) -> Seq<Seq<Seq<char>>> {
    routing::interface_command_texts(c.name, c.address, c.prefix_len, c.mtu)
}

/// The commands that add the routes, where `route` is the present default route.
pub open spec fn routing_commands(
    c: SetupContextModel,
    route: Option<(Seq<char>, Seq<char>)>,
) -> Seq<Seq<Seq<char>>> {
    routing::route_command_texts(c.name, c.mode, c.vpc_prefixes, c.router_ip, route)
}

/// The step that runs the first of the commands that configure the interface.
pub open spec fn configure_next(left: Seq<Seq<Seq<char>>>) -> SetupStepModel {
    SetupStepModel::Next {
        state: SetupModel::Configuring { left: left.drop_first() },
        action: SetupActionModel::Run { args: left[0] },
        unpinned: false,
    }
}

/// The step that runs the first of the commands that add the routes, where there
/// is one.
pub open spec fn route_next(left: Seq<Seq<Seq<char>>>, unpinned: bool) -> SetupStepModel {
    if left.len() == 0 {
        SetupStepModel::Ready
    } else {
        SetupStepModel::Next {
            state: SetupModel::Routing { left: left.drop_first() },
            action: SetupActionModel::Run { args: left[0] },
            unpinned,
        }
    }
}

/// The step that begins with the routes: the present default route is read first
/// where the way to the router must be kept out of the interface.
pub open spec fn begin_routing(c: SetupContextModel) -> SetupStepModel {
    if c.mode is DefaultRoute && c.router_ip is Some {
        SetupStepModel::Next {
            state: SetupModel::AskingDefaultRoute,
            action: SetupActionModel::ShowDefaultRoute,
            unpinned: false,
        }
    } else {
        route_next(routing_commands(c, None), false)
    }
}

/// What the setup does when a reply comes: the interface is configured, then the
/// routes are added, one command at a time, and the first that fails ends it.
pub open spec fn setup_step(
    c: SetupContextModel,
    state: SetupModel,
    reply: SetupReplyModel,
) -> SetupStepModel {
    match (state, reply) {
        (SetupModel::Configuring { left }, SetupReplyModel::Ran) => if left.len() > 0 {
            configure_next(left)
        } else {
            begin_routing(c)
        },
        (SetupModel::AskingDefaultRoute, SetupReplyModel::DefaultRoute { route }) => route_next(
            routing_commands(c, route),
            c.mode is DefaultRoute && c.router_ip is Some && route is None,
        ),
        (SetupModel::Routing { left }, SetupReplyModel::Ran) => route_next(left, false),
        (SetupModel::Configuring { .. }, SetupReplyModel::Failed { message }) => {
            SetupStepModel::Failed { message: "configure interface: "@ + message }
        },
        (_, SetupReplyModel::Failed { message }) => SetupStepModel::Failed {
            message: "install routes: "@ + message,
        },
        _ => SetupStepModel::Failed { message: "unexpected reply"@ },
    }
}

fn configure(commands: Vec<Vec<String>>) -> (r: SetupStep)
    requires
        commands@.len() > 0,
    ensures
        r.deep_view() == configure_next(commands.deep_view()),
{
    let mut left = commands;
    let args = left.remove(0);
    assert(left.deep_view() =~= commands.deep_view().drop_first());
    SetupStep::Next {
        state: Setup::Configuring { left },
        action: SetupAction::Run { args },
        unpinned: false,
    }
}

fn route(commands: Vec<Vec<String>>, unpinned: bool) -> (r: SetupStep)
    ensures
        r.deep_view() == route_next(commands.deep_view(), unpinned),
{
    if commands.len() == 0 {
        return SetupStep::Ready;
    }
    let mut left = commands;
    let args = left.remove(0);
    assert(left.deep_view() =~= commands.deep_view().drop_first());
    SetupStep::Next { state: Setup::Routing { left }, action: SetupAction::Run { args }, unpinned }
}

impl SetupContext {
    /// The first thing that the setup does.
    pub fn start(&self) -> (r: SetupStep)
        ensures
            r.deep_view() == configure_next(configuring_commands(self.deep_view())),
    {
        configure(
            routing::configure_interface(&self.name, &self.address, self.prefix_len, self.mtu),
        )
    }

    fn add_routes(&self, present: Option<(String, String)>) -> (r: SetupStep)
        ensures
            r.deep_view() == route_next(
                routing_commands(self.deep_view(), present.deep_view()),
                self.mode is DefaultRoute && self.router_ip is Some && present is None,
            ),
    {
        let (commands, unpinned) = routing::install_routes(
            &self.name,
            self.mode,
            &self.vpc_prefixes,
            &self.router_ip,
            &present,
        );
        assert(routing::route_model(present) == present.deep_view());
        route(commands, unpinned)
    }
}

impl Setup {
    /// Goes on with the setup when a reply comes.
    pub fn step(self, c: &SetupContext, reply: SetupReply) -> (r: SetupStep)
        ensures
            r.deep_view() == setup_step(c.deep_view(), self.deep_view(), reply.deep_view()),
    {
        match (self, reply) {
            (Setup::Configuring { left }, SetupReply::Ran) => if left.len() > 0 {
                configure(left)
            } else if routing::needs_default_route(c.mode, &c.router_ip) {
                SetupStep::Next {
                    state: Setup::AskingDefaultRoute,
                    action: SetupAction::ShowDefaultRoute,
                    unpinned: false,
                }
            } else {
                c.add_routes(None)
            },
            (Setup::AskingDefaultRoute, SetupReply::DefaultRoute { route }) => c.add_routes(route),
            (Setup::Routing { left }, SetupReply::Ran) => route(left, false),
            (Setup::Configuring { .. }, SetupReply::Failed { message }) => SetupStep::Failed {
                message: text::concat2("configure interface: ", &message),
            },
            (_, SetupReply::Failed { message }) => SetupStep::Failed {
                message: text::concat2("install routes: ", &message),
            },
            _ => SetupStep::Failed { message: "unexpected reply".to_owned() },
        }
    }
}

// ---------------------------------------------------------------------------
// Laws
// ---------------------------------------------------------------------------
/// The commands that run from a step on, where every one succeeds and `route` is
/// the present default route, in at most `fuel` steps.
pub open spec fn commands_run(
    c: SetupContextModel,
    step: SetupStepModel,
    route: Option<(Seq<char>, Seq<char>)>,
    fuel: nat,
) -> Seq<Seq<Seq<char>>>
    decreases fuel,
{
    match step {
        SetupStepModel::Next { state, action, .. } => if fuel == 0 {
            seq![]
        } else {
            match action {
                SetupActionModel::Run { args } => seq![args] + commands_run(
                    c,
                    setup_step(c, state, SetupReplyModel::Ran),
                    route,
                    (fuel - 1) as nat,
                ),
                SetupActionModel::ShowDefaultRoute => commands_run(
                    c,
                    setup_step(c, state, SetupReplyModel::DefaultRoute { route }),
                    route,
                    (fuel - 1) as nat,
                ),
            }
        },
        _ => seq![],
    }
}

/// The present default route, where the setup reads it.
pub open spec fn route_read(
    c: SetupContextModel,
    route: Option<(Seq<char>, Seq<char>)>,
) -> Option<(Seq<char>, Seq<char>)> {
    if c.mode is DefaultRoute && c.router_ip is Some {
        route
    } else {
        None
    }
}

proof fn lemma_routes_run(
    c: SetupContextModel,
    left: Seq<Seq<Seq<char>>>,
    unpinned: bool,
    route: Option<(Seq<char>, Seq<char>)>,
    fuel: nat,
)
    requires
        fuel >= left.len(),
    ensures
        commands_run(c, route_next(left, unpinned), route, fuel) == left,
    decreases left.len(),
{
    if left.len() == 0 {
        assert(left =~= seq![]);
    } else {
        lemma_routes_run(c, left.drop_first(), false, route, (fuel - 1) as nat);
        assert(left =~= seq![left[0]] + left.drop_first());
    }
}

/// Where nothing fails, the setup runs exactly the commands that configure the
/// interface and then those that add the routes, each once and in order.
pub proof fn setup_runs_every_command(
    c: SetupContextModel,
    route: Option<(Seq<char>, Seq<char>)>,
    fuel: nat,
)
    requires
        fuel >= 4 + routing_commands(c, route_read(c, route)).len(),
    ensures
        commands_run(c, configure_next(configuring_commands(c)), route, fuel)
            == configuring_commands(c) + routing_commands(c, route_read(c, route)),
{
    let all = configuring_commands(c);
    let routes = routing_commands(c, route_read(c, route));
    let rest = (fuel - 3) as nat;
    assert(all.len() == 3);
    assert(commands_run(c, begin_routing(c), route, rest) == routes) by {
        if c.mode is DefaultRoute && c.router_ip is Some {
            lemma_routes_run(c, routes, route is None, route, (rest - 1) as nat);
        } else {
            lemma_routes_run(c, routes, false, route, rest);
        }
    }
    let second = all.drop_first();
    let third = second.drop_first();
    assert(third.drop_first().len() == 0);
    assert(commands_run(c, configure_next(third), route, (fuel - 2) as nat) =~= seq![all[2]]
        + routes);
    assert(commands_run(c, configure_next(second), route, (fuel - 1) as nat) =~= seq![all[1]] + (
    seq![all[2]] + routes));
    assert(commands_run(c, configure_next(all), route, fuel) =~= seq![all[0]] + (seq![all[1]] + (
    seq![all[2]] + routes)));
    assert(all + routes =~= seq![all[0]] + (seq![all[1]] + (seq![all[2]] + routes)));
}

/// A command that fails is the last: the setup fails with it, whatever was still
/// to come.
pub proof fn failure_ends_the_setup(
    c: SetupContextModel,
    state: SetupModel,
    message: Seq<char>,
)
    ensures
        setup_step(c, state, SetupReplyModel::Failed { message }) is Failed,
{
}

} // verus!
