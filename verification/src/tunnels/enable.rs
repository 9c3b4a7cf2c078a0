//! Enabling and disabling a tunnel: whether it is advertised.
use vstd::prelude::*;

use crate::datum_apis::connector::{Connector, ConnectorModel};
use crate::datum_apis::connector_advertisement::{
    ConnectorAdvertisementSpec, ConnectorAdvertisementSpecModel,
};
use crate::datum_apis::http_proxy::{HTTPProxy, HTTPProxyModel};
use crate::endpoint;
use crate::endpoint::{ParsedTarget, ParsedTargetModel};
use crate::tunnels::connector_search;
use crate::tunnels::connector_search::{
    ConnectorSearch, ConnectorSearchModel, SearchContext, SearchContextModel,
};
use crate::tunnels::listing;
use crate::tunnels::listing::{TunnelSummary, TunnelSummaryModel};
use crate::tunnels::requests::{
    PlaneReply, PlaneReplyModel, PlaneRequest, PlaneRequestModel, ServiceError, ServiceErrorModel,
    Step, StepModel,
};
use crate::tunnels::resources;

verus! {

/// Which tunnel is switched, and how.
#[derive(Debug, Clone, PartialEq, Eq)]
pub struct EnableContext {
    pub tunnel_id: String,
    pub enabled: bool,
    /// How the connector of this device is found or made.
    pub search: SearchContext,
    /// Whether tunnels are announced with tickets.
    pub publish_tickets: bool,
}

/// The model of a [`EnableContext`].
#[verifier::ext_equal]
pub struct EnableContextModel {
    pub tunnel_id: Seq<char>,
    pub enabled: bool,
    pub search: SearchContextModel,
    pub publish_tickets: bool,
}

impl DeepView for EnableContext {
    type V = EnableContextModel;

    open spec fn deep_view(&self) -> EnableContextModel {
        EnableContextModel {
            tunnel_id: self.tunnel_id.deep_view(),
            enabled: self.enabled,
            search: self.search.deep_view(),
            publish_tickets: self.publish_tickets,
        }
    }
}

/// How far switching a tunnel is: what it waits for.
#[derive(Debug, Clone, PartialEq, Eq)]
pub enum EnableTunnel {
    /// The connector of this device.
    Searching { search: ConnectorSearch },
    /// The HTTPProxy.
    Fetching { connector: String },
    /// Whether the tunnel to be enabled is advertised.
    Enabling { proxy: HTTPProxy, spec: ConnectorAdvertisementSpec },
    /// Whether the tunnel to be disabled is advertised.
    Disabling { proxy: HTTPProxy },
    /// That the advertisement is changed.
    Readvertising { proxy: HTTPProxy },
    /// That the tunnel is advertised.
    Advertising { proxy: HTTPProxy },
    /// That the advertisement is deleted.
    Withdrawing { proxy: HTTPProxy },
    /// That this device knows of the switch.
    Remembering { summary: TunnelSummary },
}

/// The model of a [`EnableTunnel`].
#[verifier::ext_equal]
pub enum EnableTunnelModel {
    Searching { search: ConnectorSearchModel },
    Fetching { connector: Seq<char> },
    Enabling { proxy: HTTPProxyModel, spec: ConnectorAdvertisementSpecModel },
    Disabling { proxy: HTTPProxyModel },
    Readvertising { proxy: HTTPProxyModel },
    Advertising { proxy: HTTPProxyModel },
    Withdrawing { proxy: HTTPProxyModel },
    Remembering { summary: TunnelSummaryModel },
}

impl DeepView for EnableTunnel {
    type V = EnableTunnelModel;

    open spec fn deep_view(&self) -> EnableTunnelModel {
        match self {
            EnableTunnel::Searching { search } => EnableTunnelModel::Searching {
                search: search.deep_view(),
            },
            EnableTunnel::Fetching { connector } => EnableTunnelModel::Fetching {
                connector: connector.deep_view(),
            },
            EnableTunnel::Enabling { proxy, spec } => EnableTunnelModel::Enabling {
                proxy: proxy.deep_view(),
                spec: spec.deep_view(),
            },
            EnableTunnel::Disabling { proxy } => EnableTunnelModel::Disabling {
                proxy: proxy.deep_view(),
            },
            EnableTunnel::Readvertising { proxy } => EnableTunnelModel::Readvertising {
                proxy: proxy.deep_view(),
            },
            EnableTunnel::Advertising { proxy } => EnableTunnelModel::Advertising {
                proxy: proxy.deep_view(),
            },
            EnableTunnel::Withdrawing { proxy } => EnableTunnelModel::Withdrawing {
                proxy: proxy.deep_view(),
            },
            EnableTunnel::Remembering { summary } => EnableTunnelModel::Remembering {
                summary: summary.deep_view(),
            },
        }
    }
}

/// The end of the operation, for a tunnel with this HTTPProxy.
pub open spec fn switched(cx: EnableContextModel, proxy: HTTPProxyModel) -> StepModel<
    EnableTunnelModel,
    TunnelSummaryModel,
> {
    let summary = listing::summary_with(
        proxy,
        cx.tunnel_id,
        listing::label_of(proxy, cx.tunnel_id),
        listing::endpoint_of(proxy),
        cx.enabled,
    );
    match crate::tunnels::update::remember_changed(cx.publish_tickets, summary) {
        Some(request) => StepModel::Next {
            state: EnableTunnelModel::Remembering { summary },
            request,
        },
        None => StepModel::Finished { outcome: summary },
    }
}

/// What switching does when a reply comes.
///
/// An enabled tunnel has an advertisement for its endpoint: one that exists is
/// changed, a missing one is created. A disabled tunnel has none.
pub open spec fn enable_step(
    state: EnableTunnelModel,
    cx: EnableContextModel,
    reply: PlaneReplyModel,
) -> StepModel<EnableTunnelModel, TunnelSummaryModel> {
    match (state, reply) {
        (EnableTunnelModel::Searching { search }, reply) => match connector_search::search_step(
            search,
            cx.search,
            reply,
        ) {
            StepModel::Next { state, request } => StepModel::Next {
                state: EnableTunnelModel::Searching { search: state },
                request,
            },
            StepModel::Finished { outcome: Some(connector) } => StepModel::Next {
                state: EnableTunnelModel::Fetching { connector: connector.metadata.name_any() },
                request: PlaneRequestModel::GetProxy { name: cx.tunnel_id },
            },
            StepModel::Finished { outcome: None } => StepModel::Failed {
                error: ServiceErrorModel::unexpected_reply(),
            },
            StepModel::Failed { error } => StepModel::Failed { error },
        },
        (EnableTunnelModel::Fetching { connector }, PlaneReplyModel::Proxy { proxy }) => {
            let ask = PlaneRequestModel::HasAdvertisement { name: cx.tunnel_id };
            if cx.enabled {
                match endpoint::parsed_target(listing::endpoint_of(proxy)) {
                    Ok(target) => StepModel::Next {
                        state: EnableTunnelModel::Enabling {
                            proxy,
                            spec: resources::advertisement_spec_model(connector, target),
                        },
                        request: ask,
                    },
                    Err(e) => StepModel::Failed { error: ServiceErrorModel::plain(e.text()) },
                }
            } else {
                StepModel::Next { state: EnableTunnelModel::Disabling { proxy }, request: ask }
            }
        },
        (EnableTunnelModel::Fetching { .. }, PlaneReplyModel::Failed { error }) => StepModel::Failed {
            error: ServiceErrorModel::because("Failed to fetch HTTPProxy"@, error),
        },
        (EnableTunnelModel::Enabling { proxy, spec }, PlaneReplyModel::Exists { found }) => {
            if found {
                StepModel::Next {
                    state: EnableTunnelModel::Readvertising { proxy },
                    request: PlaneRequestModel::PatchAdvertisement { name: cx.tunnel_id, spec },
                }
            } else {
                StepModel::Next {
                    state: EnableTunnelModel::Advertising { proxy },
                    request: PlaneRequestModel::CreateAdvertisement {
                        advertisement: resources::advertisement_model(cx.tunnel_id, spec),
                    },
                }
            }
        },
        (EnableTunnelModel::Disabling { proxy }, PlaneReplyModel::Exists { found }) => {
            if found {
                StepModel::Next {
                    state: EnableTunnelModel::Withdrawing { proxy },
                    request: PlaneRequestModel::DeleteAdvertisement { name: cx.tunnel_id },
                }
            } else {
                switched(cx, proxy)
            }
        },
        (EnableTunnelModel::Enabling { .. }, PlaneReplyModel::Failed { error }) => StepModel::Failed {
            error: ServiceErrorModel::because("Failed to load ConnectorAdvertisement"@, error),
        },
        (
            EnableTunnelModel::Disabling { .. },
            PlaneReplyModel::Failed { error },
        ) => StepModel::Failed {
            error: ServiceErrorModel::because("Failed to load ConnectorAdvertisement"@, error),
        },
        (EnableTunnelModel::Readvertising { proxy }, PlaneReplyModel::Done) => switched(cx, proxy),
        (
            EnableTunnelModel::Readvertising { .. },
            PlaneReplyModel::Failed { error },
        ) => StepModel::Failed {
            error: ServiceErrorModel::because("Failed to update ConnectorAdvertisement"@, error),
        },
        (EnableTunnelModel::Advertising { proxy }, PlaneReplyModel::Done) => switched(cx, proxy),
        (
            EnableTunnelModel::Advertising { .. },
            PlaneReplyModel::Failed { error },
        ) => StepModel::Failed {
            error: ServiceErrorModel::because("Failed to create ConnectorAdvertisement"@, error),
        },
        (EnableTunnelModel::Withdrawing { proxy }, PlaneReplyModel::Done) => switched(cx, proxy),
        (
            EnableTunnelModel::Withdrawing { .. },
            PlaneReplyModel::Failed { error },
        ) => StepModel::Failed {
            error: ServiceErrorModel::because("Failed to delete ConnectorAdvertisement"@, error),
        },
        (
            EnableTunnelModel::Remembering { summary },
            PlaneReplyModel::Done,
        ) => StepModel::Finished { outcome: summary },
        (
            EnableTunnelModel::Remembering { summary },
            PlaneReplyModel::Failed { .. },
        ) => StepModel::Finished { outcome: summary },
        _ => StepModel::Failed { error: ServiceErrorModel::unexpected_reply() },
    }
}

impl EnableContext {
    /// Switching the tunnel `tunnel_id`.
    pub fn new(
        tunnel_id: &str,
        enabled: bool,
        endpoint_id: String,
        annotations: Vec<(String, String)>,
        publish_tickets: bool,
    ) -> (r: Self)
        ensures
            r.deep_view() == (EnableContextModel {
                tunnel_id: tunnel_id@,
                enabled,
                search: SearchContextModel {
                    endpoint_id: endpoint_id@,
                    annotations: annotations.deep_view(),
                    ensure: true,
                },
                publish_tickets,
            }),
    {
        EnableContext {
            tunnel_id: tunnel_id.to_owned(),
            enabled,
            search: SearchContext { endpoint_id, annotations, ensure: true },
            publish_tickets,
        }
    }

    /// The first request of the operation.
    pub fn start(&self) -> (r: (EnableTunnel, PlaneRequest))
        ensures
            r.0.deep_view() == (EnableTunnelModel::Searching {
                search: ConnectorSearchModel::ByEndpoint,
            }),
            r.1.deep_view() == (PlaneRequestModel::ListConnectors {
                selector: Some(
                    connector_search::endpoint_selector(self.deep_view().search.endpoint_id),
                ),
            }),
    {
        (EnableTunnel::Searching { search: ConnectorSearch::ByEndpoint }, self.search.start())
    }

    fn finish(&self, proxy: HTTPProxy) -> (r: Step<EnableTunnel, TunnelSummary>)
        ensures
            r.deep_view() == switched(self.deep_view(), proxy.deep_view()),
    {
        let summary = listing::build_summary(
            &proxy,
            self.tunnel_id.clone(),
            listing::proxy_label(&proxy, &self.tunnel_id),
            listing::proxy_endpoint(&proxy),
            self.enabled,
        );
        match crate::tunnels::update::remember_request(self.publish_tickets, &summary) {
            Some(request) => Step::Next { state: EnableTunnel::Remembering { summary }, request },
            None => Step::Finished { outcome: summary },
        }
    }
}

impl EnableTunnel {
    /// Goes on with switching when a reply comes.
    pub fn step(self, cx: &EnableContext, reply: PlaneReply) -> (r: Step<
        EnableTunnel,
        TunnelSummary,
    >)
        ensures
            r.deep_view() == enable_step(self.deep_view(), cx.deep_view(), reply.deep_view()),
    {
        match (self, reply) {
            (EnableTunnel::Searching { search }, reply) => match search.step(&cx.search, reply) {
                Step::Next { state, request } => Step::Next {
                    state: EnableTunnel::Searching { search: state },
                    request,
                },
                Step::Finished { outcome: Some(connector) } => Step::Next {
                    state: EnableTunnel::Fetching { connector: connector.metadata.name_any() },
                    request: PlaneRequest::GetProxy { name: cx.tunnel_id.clone() },
                },
                Step::Finished { outcome: None } => Step::Failed {
                    error: ServiceError::unexpected_reply(),
                },
                Step::Failed { error } => Step::Failed { error },
            },
            (EnableTunnel::Fetching { connector }, PlaneReply::Proxy { proxy }) => {
                let request = PlaneRequest::HasAdvertisement { name: cx.tunnel_id.clone() };
                if cx.enabled {
                    let endpoint = listing::proxy_endpoint(&proxy);
                    match endpoint::parse_target(&endpoint) {
                        Ok(target) => {
                            let spec = resources::advertisement_spec(&connector, target);
                            Step::Next { state: EnableTunnel::Enabling { proxy, spec }, request }
                        },
                        Err(e) => Step::Failed { error: ServiceError::plain(e.message()) },
                    }
                } else {
                    Step::Next { state: EnableTunnel::Disabling { proxy }, request }
                }
            },
            (EnableTunnel::Fetching { .. }, PlaneReply::Failed { error }) => Step::Failed {
                error: ServiceError::because("Failed to fetch HTTPProxy", error),
            },
            (EnableTunnel::Enabling { proxy, spec }, PlaneReply::Exists { found }) => {
                if found {
                    Step::Next {
                        state: EnableTunnel::Readvertising { proxy },
                        request: PlaneRequest::PatchAdvertisement {
                            name: cx.tunnel_id.clone(),
                            spec,
                        },
                    }
                } else {
                    Step::Next {
                        state: EnableTunnel::Advertising { proxy },
                        request: PlaneRequest::CreateAdvertisement {
                            advertisement: resources::new_advertisement(&cx.tunnel_id, spec),
                        },
                    }
                }
            },
            (EnableTunnel::Disabling { proxy }, PlaneReply::Exists { found }) => {
                if found {
                    Step::Next {
                        state: EnableTunnel::Withdrawing { proxy },
                        request: PlaneRequest::DeleteAdvertisement { name: cx.tunnel_id.clone() },
                    }
                } else {
                    cx.finish(proxy)
                }
            },
            (EnableTunnel::Enabling { .. }, PlaneReply::Failed { error }) => Step::Failed {
                error: ServiceError::because("Failed to load ConnectorAdvertisement", error),
            },
            (EnableTunnel::Disabling { .. }, PlaneReply::Failed { error }) => Step::Failed {
                error: ServiceError::because("Failed to load ConnectorAdvertisement", error),
            },
            (EnableTunnel::Readvertising { proxy }, PlaneReply::Done) => cx.finish(proxy),
            (EnableTunnel::Readvertising { .. }, PlaneReply::Failed { error }) => Step::Failed {
                error: ServiceError::because("Failed to update ConnectorAdvertisement", error),
            },
            (EnableTunnel::Advertising { proxy }, PlaneReply::Done) => cx.finish(proxy),
            (EnableTunnel::Advertising { .. }, PlaneReply::Failed { error }) => Step::Failed {
                error: ServiceError::because("Failed to create ConnectorAdvertisement", error),
            },
            (EnableTunnel::Withdrawing { proxy }, PlaneReply::Done) => cx.finish(proxy),
            (EnableTunnel::Withdrawing { .. }, PlaneReply::Failed { error }) => Step::Failed {
                error: ServiceError::because("Failed to delete ConnectorAdvertisement", error),
            },
            (EnableTunnel::Remembering { summary }, PlaneReply::Done) => Step::Finished {
                outcome: summary,
            },
            (EnableTunnel::Remembering { summary }, PlaneReply::Failed { .. }) => Step::Finished {
                outcome: summary,
            },
            _ => Step::Failed { error: ServiceError::unexpected_reply() },
        }
    }
}

} // verus!
