//! Creating a tunnel.
use vstd::prelude::*;

use crate::datum_apis::connector::{Connector, ConnectorModel};
use crate::datum_apis::connector_advertisement::{
    ConnectorAdvertisementSpec, ConnectorAdvertisementSpecModel,
};
use crate::datum_apis::http_proxy::{HTTPProxy, HTTPProxyModel};
use crate::endpoint;
use crate::endpoint::{ParsedTarget, ParsedTargetModel};
use crate::tunnels::connector_search;
use crate::tunnels::connector_search::{
    ConnectorSearch, ConnectorSearchModel, SearchContext, SearchContextModel,
};
use crate::tunnels::listing;
use crate::tunnels::listing::{TunnelSummary, TunnelSummaryModel};
use crate::tunnels::requests::{
    PlaneReply, PlaneReplyModel, PlaneRequest, PlaneRequestModel, ServiceError, ServiceErrorModel,
    Step, StepModel,
};
use crate::tunnels::resources;

verus! {

/// Which tunnel is created.
#[derive(Debug, Clone, PartialEq, Eq)]
pub struct CreateContext {
    pub label: String,
    /// The endpoint in normal form.
    pub endpoint: String,
    /// What the endpoint names.
    pub target: ParsedTarget,
    /// How the connector of this device is found or made.
    pub search: SearchContext,
    /// Whether tunnels are announced with tickets.
    pub publish_tickets: bool,
    /// Whether tunnels get a traffic protection policy.
    pub create_policies: bool,
}

/// The model of a [`CreateContext`].
#[verifier::ext_equal]
pub struct CreateContextModel {
    pub label: Seq<char>,
    pub endpoint: Seq<char>,
    pub target: ParsedTargetModel,
    pub search: SearchContextModel,
    pub publish_tickets: bool,
    pub create_policies: bool,
}

impl DeepView for CreateContext {
    type V = CreateContextModel;

    open spec fn deep_view(&self) -> CreateContextModel {
        CreateContextModel {
            label: self.label.deep_view(),
            endpoint: self.endpoint.deep_view(),
            target: self.target.deep_view(),
            search: self.search.deep_view(),
            publish_tickets: self.publish_tickets,
            create_policies: self.create_policies,
        }
    }
}

/// How far creating a tunnel is: what it waits for.
#[derive(Debug, Clone, PartialEq, Eq)]
pub enum CreateTunnel {
    /// The connector of this device.
    Searching { search: ConnectorSearch },
    /// The new HTTPProxy.
    CreatingProxy { connector: String },
    /// That the tunnel is advertised.
    Advertising { proxy: HTTPProxy },
    /// That the tunnel has its traffic protection policy.
    Protecting { proxy: HTTPProxy },
    /// That this device serves the tunnel.
    Remembering { proxy: HTTPProxy },
}

/// The model of a [`CreateTunnel`].
#[verifier::ext_equal]
pub enum CreateTunnelModel {
    Searching { search: ConnectorSearchModel },
    CreatingProxy { connector: Seq<char> },
    Advertising { proxy: HTTPProxyModel },
    Protecting { proxy: HTTPProxyModel },
    Remembering { proxy: HTTPProxyModel },
}

impl DeepView for CreateTunnel {
    type V = CreateTunnelModel;

    open spec fn deep_view(&self) -> CreateTunnelModel {
        match self {
            CreateTunnel::Searching { search } => CreateTunnelModel::Searching {
                search: search.deep_view(),
            },
            CreateTunnel::CreatingProxy { connector } => CreateTunnelModel::CreatingProxy {
                connector: connector.deep_view(),
            },
            CreateTunnel::Advertising { proxy } => CreateTunnelModel::Advertising {
                proxy: proxy.deep_view(),
            },
            CreateTunnel::Protecting { proxy } => CreateTunnelModel::Protecting {
                proxy: proxy.deep_view(),
            },
            CreateTunnel::Remembering { proxy } => CreateTunnelModel::Remembering {
                proxy: proxy.deep_view(),
            },
        }
    }
}

/// What creating does once the tunnel exists: this device serves it.
pub open spec fn remember_new(cx: CreateContextModel, proxy: HTTPProxyModel) -> StepModel<
    CreateTunnelModel,
    TunnelSummaryModel,
> {
    match endpoint::proxy_state_of(proxy.metadata.name_any(), cx.endpoint, true) {
        Ok(state) => StepModel::Next {
            state: CreateTunnelModel::Remembering { proxy },
            request: if cx.publish_tickets {
                PlaneRequestModel::PublishProxy { proxy: state }
            } else {
                PlaneRequestModel::StoreProxy { proxy: state }
            },
        },
        Err(e) => StepModel::Failed { error: ServiceErrorModel::plain(e.text()) },
    }
}

/// The summary of the new tunnel.
pub open spec fn created(cx: CreateContextModel, proxy: HTTPProxyModel) -> StepModel<
    CreateTunnelModel,
    TunnelSummaryModel,
> {
    StepModel::Finished {
        outcome: listing::summary_with(
            proxy,
            proxy.metadata.name_any(),
            cx.label,
            cx.endpoint,
            true,
        ),
    }
}

/// What creating does when a reply comes.
///
/// The HTTPProxy is created for the connector of this device; under the name
/// that it got, the tunnel is then advertised and, where that is switched on,
/// protected by a policy; then this device serves it. That it cannot serve the
/// tunnel does not fail the operation.
pub open spec fn create_step(
    state: CreateTunnelModel,
    cx: CreateContextModel,
    reply: PlaneReplyModel,
) -> StepModel<CreateTunnelModel, TunnelSummaryModel> {
    match (state, reply) {
        (CreateTunnelModel::Searching { search }, reply) => match connector_search::search_step(
            search,
            cx.search,
            reply,
        ) {
            StepModel::Next { state, request } => StepModel::Next {
                state: CreateTunnelModel::Searching { search: state },
                request,
            },
            StepModel::Finished { outcome: Some(connector) } => StepModel::Next {
                state: CreateTunnelModel::CreatingProxy {
                    connector: connector.metadata.name_any(),
                },
                request: PlaneRequestModel::CreateProxy {
                    proxy: resources::new_proxy_model(
                        cx.label,
                        cx.endpoint,
                        connector.metadata.name_any(),
                    ),
                },
            },
            StepModel::Finished { outcome: None } => StepModel::Failed {
                error: ServiceErrorModel::unexpected_reply(),
            },
            StepModel::Failed { error } => StepModel::Failed { error },
        },
        (
            CreateTunnelModel::CreatingProxy { connector },
            PlaneReplyModel::Proxy { proxy },
        ) => StepModel::Next {
            state: CreateTunnelModel::Advertising { proxy },
            request: PlaneRequestModel::CreateAdvertisement {
                advertisement: resources::advertisement_model(
                    proxy.metadata.name_any(),
                    resources::advertisement_spec_model(connector, cx.target),
                ),
            },
        },
        (
            CreateTunnelModel::CreatingProxy { .. },
            PlaneReplyModel::Failed { error },
        ) => StepModel::Failed {
            error: ServiceErrorModel::plain(resources::create_failure(error, "HTTPProxy"@)),
        },
        (CreateTunnelModel::Advertising { proxy }, PlaneReplyModel::Done) => {
            if cx.create_policies {
                StepModel::Next {
                    state: CreateTunnelModel::Protecting { proxy },
                    request: PlaneRequestModel::CreatePolicy {
                        policy: resources::policy_model(proxy.metadata.name_any()),
                    },
                }
            } else {
                remember_new(cx, proxy)
            }
        },
        (
            CreateTunnelModel::Advertising { .. },
            PlaneReplyModel::Failed { error },
        ) => StepModel::Failed {
            error: ServiceErrorModel::plain(
                resources::create_failure(error, "ConnectorAdvertisement"@),
            ),
        },
        (CreateTunnelModel::Protecting { proxy }, PlaneReplyModel::Done) => remember_new(cx, proxy),
        (
            CreateTunnelModel::Protecting { .. },
            PlaneReplyModel::Failed { error },
        ) => StepModel::Failed {
            error: ServiceErrorModel::plain(
                resources::create_failure(error, "TrafficProtectionPolicy"@),
            ),
        },
        (CreateTunnelModel::Remembering { proxy }, PlaneReplyModel::Done) => created(cx, proxy),
        (CreateTunnelModel::Remembering { proxy }, PlaneReplyModel::Failed { .. }) => created(
            cx,
            proxy,
        ),
        _ => StepModel::Failed { error: ServiceErrorModel::unexpected_reply() },
    }
}

/// A copy of a target.
pub fn copy_target(target: &ParsedTarget) -> (r: ParsedTarget)
    ensures
        r.deep_view() == target.deep_view(),
{
    ParsedTarget { address: target.address.clone(), port: target.port }
}

impl CreateContext {
    /// The creation of a tunnel to `endpoint`, which must name a target.
    pub fn new(
        label: &str,
        endpoint: &str,
        endpoint_id: String,
        annotations: Vec<(String, String)>,
        publish_tickets: bool,
        create_policies: bool,
    ) -> (r: Result<Self, ServiceError>)
        ensures
            match (r, endpoint::parsed_target(endpoint::normalized(endpoint@))) {
                (Ok(cx), Ok(target)) => cx.deep_view() == (CreateContextModel {
                    label: label@,
                    endpoint: endpoint::normalized(endpoint@),
                    target,
                    search: SearchContextModel {
                        endpoint_id: endpoint_id@,
                        annotations: annotations.deep_view(),
                        ensure: true,
                    },
                    publish_tickets,
                    create_policies,
                }),
                (Err(error), Err(e)) => error.deep_view() == ServiceErrorModel::plain(e.text()),
                _ => false,
            },
    {
        let normal = endpoint::normalize_endpoint(endpoint);
        match endpoint::parse_target(&normal) {
            Ok(target) => Ok(
                CreateContext {
                    label: label.to_owned(),
                    endpoint: normal,
                    target,
                    search: SearchContext { endpoint_id, annotations, ensure: true },
                    publish_tickets,
                    create_policies,
                },
            ),
            Err(e) => Err(ServiceError::plain(e.message())),
        }
    }

    /// The first request of the operation.
    pub fn start(&self) -> (r: (CreateTunnel, PlaneRequest))
        ensures
            r.0.deep_view() == (CreateTunnelModel::Searching {
                search: ConnectorSearchModel::ByEndpoint,
            }),
            r.1.deep_view() == (PlaneRequestModel::ListConnectors {
                selector: Some(
                    connector_search::endpoint_selector(self.deep_view().search.endpoint_id),
                ),
            }),
    {
        (CreateTunnel::Searching { search: ConnectorSearch::ByEndpoint }, self.search.start())
    }

    fn remember(&self, proxy: HTTPProxy) -> (r: Step<CreateTunnel, TunnelSummary>)
        ensures
            r.deep_view() == remember_new(self.deep_view(), proxy.deep_view()),
    {
        let name = proxy.metadata.name_any();
        match endpoint::proxy_state_from_summary(&name, &self.endpoint, true) {
            Ok(state) => {
                let request = if self.publish_tickets {
                    PlaneRequest::PublishProxy { proxy: state }
                } else {
                    PlaneRequest::StoreProxy { proxy: state }
                };
                Step::Next { state: CreateTunnel::Remembering { proxy }, request }
            },
            Err(e) => Step::Failed { error: ServiceError::plain(e.message()) },
        }
    }

    fn finish(&self, proxy: HTTPProxy) -> (r: Step<CreateTunnel, TunnelSummary>)
        ensures
            r.deep_view() == created(self.deep_view(), proxy.deep_view()),
    {
        Step::Finished {
            outcome: listing::build_summary(
                &proxy,
                proxy.metadata.name_any(),
                self.label.clone(),
                self.endpoint.clone(),
                true,
            ),
        }
    }
}

impl CreateTunnel {
    /// Goes on with creating when a reply comes.
    pub fn step(self, cx: &CreateContext, reply: PlaneReply) -> (r: Step<
        CreateTunnel,
        TunnelSummary,
    >)
        ensures
            r.deep_view() == create_step(self.deep_view(), cx.deep_view(), reply.deep_view()),
    {
        match (self, reply) {
            (CreateTunnel::Searching { search }, reply) => match search.step(&cx.search, reply) {
                Step::Next { state, request } => Step::Next {
                    state: CreateTunnel::Searching { search: state },
                    request,
                },
                Step::Finished { outcome: Some(connector) } => {
                    let name = connector.metadata.name_any();
                    let proxy = resources::new_proxy(&cx.label, &cx.endpoint, &name);
                    Step::Next {
                        state: CreateTunnel::CreatingProxy { connector: name },
                        request: PlaneRequest::CreateProxy { proxy },
                    }
                },
                Step::Finished { outcome: None } => Step::Failed {
                    error: ServiceError::unexpected_reply(),
                },
                Step::Failed { error } => Step::Failed { error },
            },
            (CreateTunnel::CreatingProxy { connector }, PlaneReply::Proxy { proxy }) => {
                let spec = resources::advertisement_spec(&connector, copy_target(&cx.target));
                let advertisement = resources::new_advertisement(&proxy.metadata.name_any(), spec);
                Step::Next {
                    state: CreateTunnel::Advertising { proxy },
                    request: PlaneRequest::CreateAdvertisement { advertisement },
                }
            },
            (CreateTunnel::CreatingProxy { .. }, PlaneReply::Failed { error }) => Step::Failed {
                error: ServiceError::plain(&resources::format_create_failure(&error, "HTTPProxy")),
            },
            (CreateTunnel::Advertising { proxy }, PlaneReply::Done) => {
                if cx.create_policies {
                    let policy = resources::new_policy(&proxy.metadata.name_any());
                    Step::Next {
                        state: CreateTunnel::Protecting { proxy },
                        request: PlaneRequest::CreatePolicy { policy },
                    }
                } else {
                    cx.remember(proxy)
                }
            },
            (CreateTunnel::Advertising { .. }, PlaneReply::Failed { error }) => Step::Failed {
                error: ServiceError::plain(
                    &resources::format_create_failure(&error, "ConnectorAdvertisement"),
                ),
            },
            (CreateTunnel::Protecting { proxy }, PlaneReply::Done) => cx.remember(proxy),
            (CreateTunnel::Protecting { .. }, PlaneReply::Failed { error }) => Step::Failed {
                error: ServiceError::plain(
                    &resources::format_create_failure(&error, "TrafficProtectionPolicy"),
                ),
            },
            (CreateTunnel::Remembering { proxy }, PlaneReply::Done) => cx.finish(proxy),
            (CreateTunnel::Remembering { proxy }, PlaneReply::Failed { .. }) => cx.finish(proxy),
            _ => Step::Failed { error: ServiceError::unexpected_reply() },
        }
    }
}

} // verus!
