//! Deleting a tunnel, and the connector with its last one.
use vstd::prelude::*;

use crate::datum_apis::connector::{Connector, ConnectorModel};
use crate::datum_apis::connector_advertisement::{
    ConnectorAdvertisement, ConnectorAdvertisementModel,
};
use crate::datum_apis::http_proxy::{HTTPProxy, HTTPProxyModel};
use crate::tunnels::connector_search;
use crate::tunnels::connector_search::{
    ConnectorSearch, ConnectorSearchModel, SearchContext, SearchContextModel,
};
use crate::tunnels::listing;
use crate::tunnels::requests::{
    PlaneReply, PlaneReplyModel, PlaneRequest, PlaneRequestModel, ServiceError, ServiceErrorModel,
    Step, StepModel,
};
use crate::tunnels::resources;

verus! {

/// What deleting a tunnel did.
#[derive(Debug, Clone, PartialEq, Eq)]
pub struct TunnelDeleteOutcome {
    pub project_id: String,
    /// Whether the connector had no other tunnel and was deleted too.
    pub connector_deleted: bool,
}

/// The model of a [`TunnelDeleteOutcome`].
#[verifier::ext_equal]
pub struct TunnelDeleteOutcomeModel {
    pub project_id: Seq<char>,
    pub connector_deleted: bool,
}

impl DeepView for TunnelDeleteOutcome {
    type V = TunnelDeleteOutcomeModel;

    open spec fn deep_view(&self) -> TunnelDeleteOutcomeModel {
        TunnelDeleteOutcomeModel {
            project_id: self.project_id.deep_view(),
            connector_deleted: self.connector_deleted,
        }
    }
}

/// Which tunnel is deleted.
#[derive(Debug, Clone, PartialEq, Eq)]
pub struct DeleteContext {
    pub project_id: String,
    pub tunnel_id: String,
    /// How the connector of this device is found.
    pub search: SearchContext,
    /// Whether tunnels are announced with tickets.
    pub publish_tickets: bool,
}

/// The model of a [`DeleteContext`].
#[verifier::ext_equal]
pub struct DeleteContextModel {
    pub project_id: Seq<char>,
    pub tunnel_id: Seq<char>,
    pub search: SearchContextModel,
    pub publish_tickets: bool,
}

impl DeepView for DeleteContext {
    type V = DeleteContextModel;

    open spec fn deep_view(&self) -> DeleteContextModel {
        DeleteContextModel {
            project_id: self.project_id.deep_view(),
            tunnel_id: self.tunnel_id.deep_view(),
            search: self.search.deep_view(),
            publish_tickets: self.publish_tickets,
        }
    }
}

/// How far deleting a tunnel is: what it waits for.
#[derive(Debug, Clone, PartialEq, Eq)]
pub enum DeleteTunnel {
    /// The connector of this device.
    Searching { search: ConnectorSearch },
    /// Whether the HTTPProxy exists.
    CheckingProxy { connector: Option<String> },
    /// That the HTTPProxy is deleted.
    DeletingProxy { connector: Option<String> },
    /// Whether the advertisement exists.
    CheckingAdvertisement { connector: Option<String> },
    /// That the advertisement is deleted.
    DeletingAdvertisement { connector: Option<String> },
    /// Whether the traffic protection policy exists.
    CheckingPolicy { connector: Option<String> },
    /// That the traffic protection policy is deleted.
    DeletingPolicy { connector: Option<String> },
    /// That this device stopped serving the tunnel.
    Withdrawing { connector: Option<String> },
    /// The HTTPProxies that are left.
    CheckingOthers { connector: String },
    /// The advertisements that the connector still has.
    ListingLeftovers { connector: String },
    /// That a left advertisement is deleted; `rest` are to follow.
    DeletingLeftovers { connector: String, rest: Vec<String> },
    /// Whether the connector exists.
    CheckingConnector { connector: String },
    /// That the connector is deleted.
    DeletingConnector,
}

/// The model of a [`DeleteTunnel`].
#[verifier::ext_equal]
pub enum DeleteTunnelModel {
    Searching { search: ConnectorSearchModel },
    CheckingProxy { connector: Option<Seq<char>> },
    DeletingProxy { connector: Option<Seq<char>> },
    CheckingAdvertisement { connector: Option<Seq<char>> },
    DeletingAdvertisement { connector: Option<Seq<char>> },
    CheckingPolicy { connector: Option<Seq<char>> },
    DeletingPolicy { connector: Option<Seq<char>> },
    Withdrawing { connector: Option<Seq<char>> },
    CheckingOthers { connector: Seq<char> },
    ListingLeftovers { connector: Seq<char> },
    DeletingLeftovers { connector: Seq<char>, rest: Seq<Seq<char>> },
    CheckingConnector { connector: Seq<char> },
    DeletingConnector,
}

impl DeepView for DeleteTunnel {
    type V = DeleteTunnelModel;

    open spec fn deep_view(&self) -> DeleteTunnelModel {
        match self {
            DeleteTunnel::Searching { search } => DeleteTunnelModel::Searching {
                search: search.deep_view(),
            },
            DeleteTunnel::CheckingProxy { connector } => DeleteTunnelModel::CheckingProxy {
                connector: connector.deep_view(),
            },
            DeleteTunnel::DeletingProxy { connector } => DeleteTunnelModel::DeletingProxy {
                connector: connector.deep_view(),
            },
            DeleteTunnel::CheckingAdvertisement { connector } => DeleteTunnelModel::CheckingAdvertisement {
                connector: connector.deep_view(),
            },
            DeleteTunnel::DeletingAdvertisement { connector } => DeleteTunnelModel::DeletingAdvertisement {
                connector: connector.deep_view(),
            },
            DeleteTunnel::CheckingPolicy { connector } => DeleteTunnelModel::CheckingPolicy {
                connector: connector.deep_view(),
            },
            DeleteTunnel::DeletingPolicy { connector } => DeleteTunnelModel::DeletingPolicy {
                connector: connector.deep_view(),
            },
            DeleteTunnel::Withdrawing { connector } => DeleteTunnelModel::Withdrawing {
                connector: connector.deep_view(),
            },
            DeleteTunnel::CheckingOthers { connector } => DeleteTunnelModel::CheckingOthers {
                connector: connector.deep_view(),
            },
            DeleteTunnel::ListingLeftovers { connector } => DeleteTunnelModel::ListingLeftovers {
                connector: connector.deep_view(),
            },
            DeleteTunnel::DeletingLeftovers { connector, rest } => DeleteTunnelModel::DeletingLeftovers {
                connector: connector.deep_view(),
                rest: rest.deep_view(),
            },
            DeleteTunnel::CheckingConnector { connector } => DeleteTunnelModel::CheckingConnector {
                connector: connector.deep_view(),
            },
            DeleteTunnel::DeletingConnector => DeleteTunnelModel::DeletingConnector,
        }
    }
}

/// Whether none of the proxies goes to the connector.
pub open spec fn none_uses(proxies: Seq<HTTPProxyModel>, connector: Seq<char>) -> bool {
    forall|i: int|
        0 <= i < proxies.len() ==> !resources::uses_connector(#[trigger] proxies[i], connector)
}

/// The names of the advertisements that have one, in order.
pub open spec fn names_in(ads: Seq<ConnectorAdvertisementModel>) -> Seq<Seq<char>>
    decreases ads.len(),
{
    if ads.len() == 0 {
        Seq::empty()
    } else {
        match ads.last().metadata.name {
            Some(name) => names_in(ads.drop_last()).push(name),
            None => names_in(ads.drop_last()),
        }
    }
}

/// The end of the operation.
pub open spec fn deleted(cx: DeleteContextModel, connector_deleted: bool) -> StepModel<
    DeleteTunnelModel,
    TunnelDeleteOutcomeModel,
> {
    StepModel::Finished {
        outcome: TunnelDeleteOutcomeModel { project_id: cx.project_id, connector_deleted },
    }
}

pub open spec fn check_advertisement(cx: DeleteContextModel, connector: Option<Seq<char>>) -> StepModel<
    DeleteTunnelModel,
    TunnelDeleteOutcomeModel,
> {
    StepModel::Next {
        state: DeleteTunnelModel::CheckingAdvertisement { connector },
        request: PlaneRequestModel::HasAdvertisement { name: cx.tunnel_id },
    }
}

pub open spec fn check_policy(cx: DeleteContextModel, connector: Option<Seq<char>>) -> StepModel<
    DeleteTunnelModel,
    TunnelDeleteOutcomeModel,
> {
    StepModel::Next {
        state: DeleteTunnelModel::CheckingPolicy { connector },
        request: PlaneRequestModel::HasPolicy { name: cx.tunnel_id },
    }
}

pub open spec fn withdraw(cx: DeleteContextModel, connector: Option<Seq<char>>) -> StepModel<
    DeleteTunnelModel,
    TunnelDeleteOutcomeModel,
> {
    StepModel::Next {
        state: DeleteTunnelModel::Withdrawing { connector },
        request: if cx.publish_tickets {
            PlaneRequestModel::UnpublishProxy { id: cx.tunnel_id }
        } else {
            PlaneRequestModel::ForgetProxy { id: cx.tunnel_id }
        },
    }
}

pub open spec fn check_others(cx: DeleteContextModel, connector: Option<Seq<char>>) -> StepModel<
    DeleteTunnelModel,
    TunnelDeleteOutcomeModel,
> {
    match connector {
        Some(connector) => StepModel::Next {
            state: DeleteTunnelModel::CheckingOthers { connector },
            request: PlaneRequestModel::ListProxies,
        },
        None => deleted(cx, false),
    }
}

pub open spec fn delete_leftovers(connector: Seq<char>, names: Seq<Seq<char>>) -> StepModel<
    DeleteTunnelModel,
    TunnelDeleteOutcomeModel,
> {
    if names.len() == 0 {
        StepModel::Next {
            state: DeleteTunnelModel::CheckingConnector { connector },
            request: PlaneRequestModel::HasConnector { name: connector },
        }
    } else {
        StepModel::Next {
            state: DeleteTunnelModel::DeletingLeftovers { connector, rest: names.drop_first() },
            request: PlaneRequestModel::DeleteAdvertisement { name: names[0] },
        }
    }
}

/// What deleting does when a reply comes.
///
/// The HTTPProxy, the advertisement and the policy of the tunnel are deleted
/// where they exist, and this device stops serving it. Where no HTTPProxy is
/// left that goes to the connector of this device, its advertisements and then
/// the connector itself are deleted. That serving cannot be stopped, or a left
/// advertisement not deleted, does not fail the operation.
pub open spec fn delete_step(
    state: DeleteTunnelModel,
    cx: DeleteContextModel,
    reply: PlaneReplyModel,
) -> StepModel<DeleteTunnelModel, TunnelDeleteOutcomeModel> {
    match (state, reply) {
        (DeleteTunnelModel::Searching { search }, reply) => match connector_search::search_step(
            search,
            cx.search,
            reply,
        ) {
            StepModel::Next { state, request } => StepModel::Next {
                state: DeleteTunnelModel::Searching { search: state },
                request,
            },
            StepModel::Failed { error } => StepModel::Failed { error },
            StepModel::Finished { outcome } => StepModel::Next {
                state: DeleteTunnelModel::CheckingProxy {
                    connector: match outcome {
                        Some(connector) => Some(connector.metadata.name_any()),
                        None => None,
                    },
                },
                request: PlaneRequestModel::HasProxy { name: cx.tunnel_id },
            },
        },
        (DeleteTunnelModel::CheckingProxy { connector }, PlaneReplyModel::Exists { found }) => {
            if found {
                StepModel::Next {
                    state: DeleteTunnelModel::DeletingProxy { connector },
                    request: PlaneRequestModel::DeleteProxy { name: cx.tunnel_id },
                }
            } else {
                check_advertisement(cx, connector)
            }
        },
        (
            DeleteTunnelModel::CheckingProxy { .. },
            PlaneReplyModel::Failed { error },
        ) => StepModel::Failed {
            error: ServiceErrorModel::because("Failed to load HTTPProxy"@, error),
        },
        (
            DeleteTunnelModel::DeletingProxy { connector },
            PlaneReplyModel::Done,
        ) => check_advertisement(cx, connector),
        (
            DeleteTunnelModel::DeletingProxy { .. },
            PlaneReplyModel::Failed { error },
        ) => StepModel::Failed {
            error: ServiceErrorModel::because("Failed to delete HTTPProxy"@, error),
        },
        (
            DeleteTunnelModel::CheckingAdvertisement { connector },
            PlaneReplyModel::Exists { found },
        ) => {
            if found {
                StepModel::Next {
                    state: DeleteTunnelModel::DeletingAdvertisement { connector },
                    request: PlaneRequestModel::DeleteAdvertisement { name: cx.tunnel_id },
                }
            } else {
                check_policy(cx, connector)
            }
        },
        (
            DeleteTunnelModel::CheckingAdvertisement { .. },
            PlaneReplyModel::Failed { error },
        ) => StepModel::Failed {
            error: ServiceErrorModel::because("Failed to load ConnectorAdvertisement"@, error),
        },
        (
            DeleteTunnelModel::DeletingAdvertisement { connector },
            PlaneReplyModel::Done,
        ) => check_policy(cx, connector),
        (
            DeleteTunnelModel::DeletingAdvertisement { .. },
            PlaneReplyModel::Failed { error },
        ) => StepModel::Failed {
            error: ServiceErrorModel::because("Failed to delete ConnectorAdvertisement"@, error),
        },
        (DeleteTunnelModel::CheckingPolicy { connector }, PlaneReplyModel::Exists { found }) => {
            if found {
                StepModel::Next {
                    state: DeleteTunnelModel::DeletingPolicy { connector },
                    request: PlaneRequestModel::DeletePolicy { name: cx.tunnel_id },
                }
            } else {
                withdraw(cx, connector)
            }
        },
        (
            DeleteTunnelModel::CheckingPolicy { .. },
            PlaneReplyModel::Failed { error },
        ) => StepModel::Failed {
            error: ServiceErrorModel::because("Failed to load TrafficProtectionPolicy"@, error),
        },
        (DeleteTunnelModel::DeletingPolicy { connector }, PlaneReplyModel::Done) => withdraw(
            cx,
            connector,
        ),
        (
            DeleteTunnelModel::DeletingPolicy { .. },
            PlaneReplyModel::Failed { error },
        ) => StepModel::Failed {
            error: ServiceErrorModel::because("Failed to delete TrafficProtectionPolicy"@, error),
        },
        (DeleteTunnelModel::Withdrawing { connector }, PlaneReplyModel::Done) => check_others(
            cx,
            connector,
        ),
        (
            DeleteTunnelModel::Withdrawing { connector },
            PlaneReplyModel::Failed { .. },
        ) => check_others(cx, connector),
        (DeleteTunnelModel::CheckingOthers { connector }, PlaneReplyModel::Proxies { items }) => {
            if none_uses(items, connector) {
                StepModel::Next {
                    state: DeleteTunnelModel::ListingLeftovers { connector },
                    request: PlaneRequestModel::ListAdvertisements {
                        selector: listing::advertisement_selector(connector),
                    },
                }
            } else {
                deleted(cx, false)
            }
        },
        (
            DeleteTunnelModel::CheckingOthers { .. },
            PlaneReplyModel::Failed { error },
        ) => StepModel::Failed {
            error: ServiceErrorModel::because("Failed to list remaining HTTPProxy objects"@, error),
        },
        (
            DeleteTunnelModel::ListingLeftovers { connector },
            PlaneReplyModel::Advertisements { items },
        ) => delete_leftovers(connector, names_in(items)),
        (
            DeleteTunnelModel::ListingLeftovers { .. },
            PlaneReplyModel::Failed { error },
        ) => StepModel::Failed {
            error: ServiceErrorModel::because(
                "Failed to list remaining ConnectorAdvertisements"@,
                error,
            ),
        },
        (
            DeleteTunnelModel::DeletingLeftovers { connector, rest },
            PlaneReplyModel::Done,
        ) => delete_leftovers(connector, rest),
        (
            DeleteTunnelModel::DeletingLeftovers { connector, rest },
            PlaneReplyModel::Failed { .. },
        ) => delete_leftovers(connector, rest),
        (
            DeleteTunnelModel::CheckingConnector { connector },
            PlaneReplyModel::Exists { found },
        ) => {
            if found {
                StepModel::Next {
                    state: DeleteTunnelModel::DeletingConnector,
                    request: PlaneRequestModel::DeleteConnector { name: connector },
                }
            } else {
                deleted(cx, false)
            }
        },
        (
            DeleteTunnelModel::CheckingConnector { .. },
            PlaneReplyModel::Failed { error },
        ) => StepModel::Failed {
            error: ServiceErrorModel::because("Failed to load Connector"@, error),
        },
        (DeleteTunnelModel::DeletingConnector, PlaneReplyModel::Done) => deleted(cx, true),
        (
            DeleteTunnelModel::DeletingConnector,
            PlaneReplyModel::Failed { error },
        ) => StepModel::Failed {
            error: ServiceErrorModel::because("Failed to delete Connector"@, error),
        },
        _ => StepModel::Failed { error: ServiceErrorModel::unexpected_reply() },
    }
}

fn none_of_them_uses(proxies: &Vec<HTTPProxy>, connector: &str) -> (r: bool)
    ensures
        r == none_uses(proxies.deep_view(), connector@),
{
    let ghost all = proxies.deep_view();
    let mut i: usize = 0;
    while i < proxies.len()
        invariant
            i <= proxies@.len(),
            all == proxies.deep_view(),
            forall|j: int|
                0 <= j < i ==> !resources::uses_connector(#[trigger] all[j], connector@),
        decreases proxies@.len() - i,
    {
        if resources::proxy_uses_connector(&proxies[i], connector) {
            assert(resources::uses_connector(all[i as int], connector@));
            return false;
        }
        assert(all[i as int] == proxies@[i as int].deep_view());
        i = i + 1;
    }
    true
}

fn advertisement_names(ads: &Vec<ConnectorAdvertisement>) -> (r: Vec<String>)
    ensures
        r.deep_view() == names_in(ads.deep_view()),
{
    let ghost all = ads.deep_view();
    let mut out: Vec<String> = Vec::new();
    let mut i: usize = 0;
    assert(all.take(0) =~= Seq::<ConnectorAdvertisementModel>::empty());
    assert(out.deep_view() =~= Seq::<Seq<char>>::empty());
    while i < ads.len()
        invariant
            i <= ads@.len(),
            all == ads.deep_view(),
            out.deep_view() == names_in(all.take(i as int)),
        decreases ads@.len() - i,
    {
        let ghost before = out.deep_view();
        proof {
            assert(all[i as int] == ads@[i as int].deep_view());
            assert(all.take(i + 1).drop_last() =~= all.take(i as int));
            assert(all.take(i + 1).last() == all[i as int]);
        }
        if let Some(name) = &ads[i].metadata.name {
            out.push(name.clone());
            assert(out.deep_view() =~= before.push(name@));
        }
        i = i + 1;
    }
    assert(all.take(all.len() as int) =~= all);
    out
}

impl DeleteContext {
    /// The deletion of the tunnel `tunnel_id`. The connector of this device is
    /// looked for, and not made where there is none.
    pub fn new(
        project_id: &str,
        tunnel_id: &str,
        endpoint_id: String,
        annotations: Vec<(String, String)>,
        publish_tickets: bool,
    ) -> (r: Self)
        ensures
            r.deep_view() == (DeleteContextModel {
                project_id: project_id@,
                tunnel_id: tunnel_id@,
                search: SearchContextModel {
                    endpoint_id: endpoint_id@,
                    annotations: annotations.deep_view(),
                    ensure: false,
                },
                publish_tickets,
            }),
    {
        DeleteContext {
            project_id: project_id.to_owned(),
            tunnel_id: tunnel_id.to_owned(),
            search: SearchContext { endpoint_id, annotations, ensure: false },
            publish_tickets,
        }
    }

    fn finish(&self, connector_deleted: bool) -> (r: Step<DeleteTunnel, TunnelDeleteOutcome>)
        ensures
            r.deep_view() == deleted(self.deep_view(), connector_deleted),
    {
        Step::Finished {
            outcome: TunnelDeleteOutcome { project_id: self.project_id.clone(), connector_deleted },
        }
    }

    fn next_advertisement(&self, connector: Option<String>) -> (r: Step<
        DeleteTunnel,
        TunnelDeleteOutcome,
    >)
        ensures
            r.deep_view() == check_advertisement(self.deep_view(), connector.deep_view()),
    {
        Step::Next {
            state: DeleteTunnel::CheckingAdvertisement { connector },
            request: PlaneRequest::HasAdvertisement { name: self.tunnel_id.clone() },
        }
    }

    fn next_policy(&self, connector: Option<String>) -> (r: Step<DeleteTunnel, TunnelDeleteOutcome>)
        ensures
            r.deep_view() == check_policy(self.deep_view(), connector.deep_view()),
    {
        Step::Next {
            state: DeleteTunnel::CheckingPolicy { connector },
            request: PlaneRequest::HasPolicy { name: self.tunnel_id.clone() },
        }
    }

    fn next_withdraw(&self, connector: Option<String>) -> (r: Step<
        DeleteTunnel,
        TunnelDeleteOutcome,
    >)
        ensures
            r.deep_view() == withdraw(self.deep_view(), connector.deep_view()),
    {
        let request = if self.publish_tickets {
            PlaneRequest::UnpublishProxy { id: self.tunnel_id.clone() }
        } else {
            PlaneRequest::ForgetProxy { id: self.tunnel_id.clone() }
        };
        Step::Next { state: DeleteTunnel::Withdrawing { connector }, request }
    }

    fn next_others(&self, connector: Option<String>) -> (r: Step<DeleteTunnel, TunnelDeleteOutcome>)
        ensures
            r.deep_view() == check_others(self.deep_view(), connector.deep_view()),
    {
        match connector {
            Some(connector) => Step::Next {
                state: DeleteTunnel::CheckingOthers { connector },
                request: PlaneRequest::ListProxies,
            },
            None => self.finish(false),
        }
    }

    /// The first request of the operation.
    pub fn start(&self) -> (r: (DeleteTunnel, PlaneRequest))
        ensures
            r.0.deep_view() == (DeleteTunnelModel::Searching {
                search: ConnectorSearchModel::ByEndpoint,
            }),
            r.1.deep_view() == (PlaneRequestModel::ListConnectors {
                selector: Some(
                    connector_search::endpoint_selector(self.deep_view().search.endpoint_id),
                ),
            }),
    {
        (DeleteTunnel::Searching { search: ConnectorSearch::ByEndpoint }, self.search.start())
    }
}

fn next_leftover(connector: String, names: Vec<String>) -> (r: Step<
    DeleteTunnel,
    TunnelDeleteOutcome,
>)
    ensures
        r.deep_view() == delete_leftovers(connector@, names.deep_view()),
{
    if names.len() == 0 {
        let name = connector.clone();
        Step::Next {
            state: DeleteTunnel::CheckingConnector { connector },
            request: PlaneRequest::HasConnector { name },
        }
    } else {
        let ghost all = names.deep_view();
        let mut rest = names;
        let name = rest.remove(0);
        assert(rest.deep_view() =~= all.drop_first());
        Step::Next {
            state: DeleteTunnel::DeletingLeftovers { connector, rest },
            request: PlaneRequest::DeleteAdvertisement { name },
        }
    }
}

impl DeleteTunnel {
    /// Goes on with deleting when a reply comes.
    pub fn step(self, cx: &DeleteContext, reply: PlaneReply) -> (r: Step<
        DeleteTunnel,
        TunnelDeleteOutcome,
    >)
        ensures
            r.deep_view() == delete_step(self.deep_view(), cx.deep_view(), reply.deep_view()),
    {
        match (self, reply) {
            (DeleteTunnel::Searching { search }, reply) => match search.step(&cx.search, reply) {
                Step::Next { state, request } => Step::Next {
                    state: DeleteTunnel::Searching { search: state },
                    request,
                },
                Step::Failed { error } => Step::Failed { error },
                Step::Finished { outcome } => {
                    let connector = match outcome {
                        Some(connector) => Some(connector.metadata.name_any()),
                        None => None,
                    };
                    Step::Next {
                        state: DeleteTunnel::CheckingProxy { connector },
                        request: PlaneRequest::HasProxy { name: cx.tunnel_id.clone() },
                    }
                },
            },
            (DeleteTunnel::CheckingProxy { connector }, PlaneReply::Exists { found }) => {
                if found {
                    Step::Next {
                        state: DeleteTunnel::DeletingProxy { connector },
                        request: PlaneRequest::DeleteProxy { name: cx.tunnel_id.clone() },
                    }
                } else {
                    cx.next_advertisement(connector)
                }
            },
            (DeleteTunnel::CheckingProxy { .. }, PlaneReply::Failed { error }) => Step::Failed {
                error: ServiceError::because("Failed to load HTTPProxy", error),
            },
            (DeleteTunnel::DeletingProxy { connector }, PlaneReply::Done) => cx.next_advertisement(
                connector,
            ),
            (DeleteTunnel::DeletingProxy { .. }, PlaneReply::Failed { error }) => Step::Failed {
                error: ServiceError::because("Failed to delete HTTPProxy", error),
            },
            (DeleteTunnel::CheckingAdvertisement { connector }, PlaneReply::Exists { found }) => {
                if found {
                    Step::Next {
                        state: DeleteTunnel::DeletingAdvertisement { connector },
                        request: PlaneRequest::DeleteAdvertisement { name: cx.tunnel_id.clone() },
                    }
                } else {
                    cx.next_policy(connector)
                }
            },
            (DeleteTunnel::CheckingAdvertisement { .. }, PlaneReply::Failed { error }) => {
                Step::Failed {
                    error: ServiceError::because("Failed to load ConnectorAdvertisement", error),
                }
            },
            (DeleteTunnel::DeletingAdvertisement { connector }, PlaneReply::Done) => cx.next_policy(
                connector,
            ),
            (DeleteTunnel::DeletingAdvertisement { .. }, PlaneReply::Failed { error }) => {
                Step::Failed {
                    error: ServiceError::because("Failed to delete ConnectorAdvertisement", error),
                }
            },
            (DeleteTunnel::CheckingPolicy { connector }, PlaneReply::Exists { found }) => {
                if found {
                    Step::Next {
                        state: DeleteTunnel::DeletingPolicy { connector },
                        request: PlaneRequest::DeletePolicy { name: cx.tunnel_id.clone() },
                    }
                } else {
                    cx.next_withdraw(connector)
                }
            },
            (DeleteTunnel::CheckingPolicy { .. }, PlaneReply::Failed { error }) => Step::Failed {
                error: ServiceError::because("Failed to load TrafficProtectionPolicy", error),
            },
            (DeleteTunnel::DeletingPolicy { connector }, PlaneReply::Done) => cx.next_withdraw(
                connector,
            ),
            (DeleteTunnel::DeletingPolicy { .. }, PlaneReply::Failed { error }) => Step::Failed {
                error: ServiceError::because("Failed to delete TrafficProtectionPolicy", error),
            },
            (DeleteTunnel::Withdrawing { connector }, PlaneReply::Done) => cx.next_others(connector),
            (DeleteTunnel::Withdrawing { connector }, PlaneReply::Failed { .. }) => cx.next_others(
                connector,
            ),
            (DeleteTunnel::CheckingOthers { connector }, PlaneReply::Proxies { items }) => {
                if none_of_them_uses(&items, &connector) {
                    let selector = listing::select_advertisements(&connector);
                    Step::Next {
                        state: DeleteTunnel::ListingLeftovers { connector },
                        request: PlaneRequest::ListAdvertisements { selector },
                    }
                } else {
                    cx.finish(false)
                }
            },
            (DeleteTunnel::CheckingOthers { .. }, PlaneReply::Failed { error }) => Step::Failed {
                error: ServiceError::because("Failed to list remaining HTTPProxy objects", error),
            },
            (
                DeleteTunnel::ListingLeftovers { connector },
                PlaneReply::Advertisements { items },
            ) => next_leftover(connector, advertisement_names(&items)),
            (DeleteTunnel::ListingLeftovers { .. }, PlaneReply::Failed { error }) => Step::Failed {
                error: ServiceError::because(
                    "Failed to list remaining ConnectorAdvertisements",
                    error,
                ),
            },
            (DeleteTunnel::DeletingLeftovers { connector, rest }, PlaneReply::Done) => {
                next_leftover(connector, rest)
            },
            (DeleteTunnel::DeletingLeftovers { connector, rest }, PlaneReply::Failed { .. }) => {
                next_leftover(connector, rest)
            },
            (DeleteTunnel::CheckingConnector { connector }, PlaneReply::Exists { found }) => {
                if found {
                    Step::Next {
                        state: DeleteTunnel::DeletingConnector,
                        request: PlaneRequest::DeleteConnector { name: connector },
                    }
                } else {
                    cx.finish(false)
                }
            },
            (DeleteTunnel::CheckingConnector { .. }, PlaneReply::Failed { error }) => Step::Failed {
                error: ServiceError::because("Failed to load Connector", error),
            },
            (DeleteTunnel::DeletingConnector, PlaneReply::Done) => cx.finish(true),
            (DeleteTunnel::DeletingConnector, PlaneReply::Failed { error }) => Step::Failed {
                error: ServiceError::because("Failed to delete Connector", error),
            },
            _ => Step::Failed { error: ServiceError::unexpected_reply() },
        }
    }
}

} // verus!
