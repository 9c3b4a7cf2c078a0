//! Changing the label and the endpoint of a tunnel.
use vstd::prelude::*;

use crate::datum_apis::connector::{Connector, ConnectorModel};
use crate::datum_apis::connector_advertisement::{
    ConnectorAdvertisementSpec, ConnectorAdvertisementSpecModel,
};
use crate::datum_apis::http_proxy::{HTTPProxy, HTTPProxyModel};
use crate::endpoint;
use crate::endpoint::{ParsedTarget, ParsedTargetModel};
use crate::text;
use crate::tunnels::connector_search;
use crate::tunnels::connector_search::{
    ConnectorSearch, ConnectorSearchModel, SearchContext, SearchContextModel,
};
use crate::tunnels::listing;
use crate::tunnels::listing::{TunnelSummary, TunnelSummaryModel};
use crate::tunnels::requests::{
    PlaneReply, PlaneReplyModel, PlaneRequest, PlaneRequestModel, ServiceError, ServiceErrorModel,
    Step, StepModel,
};
use crate::tunnels::resources;

verus! {

/// Which tunnel is changed, and to what.
#[derive(Debug, Clone, PartialEq, Eq)]
pub struct UpdateContext {
    pub tunnel_id: String,
    pub label: String,
    /// The endpoint in normal form.
    pub endpoint: String,
    /// What the endpoint names.
    pub target: ParsedTarget,
    /// How the connector of this device is found or made.
    pub search: SearchContext,
    /// Whether tunnels are announced with tickets.
    pub publish_tickets: bool,
}

/// The model of a [`UpdateContext`].
#[verifier::ext_equal]
pub struct UpdateContextModel {
    pub tunnel_id: Seq<char>,
    pub label: Seq<char>,
    pub endpoint: Seq<char>,
    pub target: ParsedTargetModel,
    pub search: SearchContextModel,
    pub publish_tickets: bool,
}

impl DeepView for UpdateContext {
    type V = UpdateContextModel;

    open spec fn deep_view(&self) -> UpdateContextModel {
        UpdateContextModel {
            tunnel_id: self.tunnel_id.deep_view(),
            label: self.label.deep_view(),
            endpoint: self.endpoint.deep_view(),
            target: self.target.deep_view(),
            search: self.search.deep_view(),
            publish_tickets: self.publish_tickets,
        }
    }
}

/// How far changing a tunnel is: what it waits for.
#[derive(Debug, Clone, PartialEq, Eq)]
pub enum UpdateTunnel {
    /// The connector of this device.
    Searching { search: ConnectorSearch },
    /// The HTTPProxy.
    Fetching { connector: String },
    /// That the HTTPProxy is changed.
    Patching { proxy: HTTPProxy, connector: String },
    /// Whether the tunnel is advertised.
    Checking { proxy: HTTPProxy, connector: String },
    /// That the advertisement is changed.
    Readvertising { proxy: HTTPProxy },
    /// Whether the tunnel is advertised, for its summary.
    Loading { proxy: HTTPProxy },
    /// That this device serves the changed tunnel.
    Remembering { summary: TunnelSummary },
}

/// The model of a [`UpdateTunnel`].
#[verifier::ext_equal]
pub enum UpdateTunnelModel {
    Searching { search: ConnectorSearchModel },
    Fetching { connector: Seq<char> },
    Patching { proxy: HTTPProxyModel, connector: Seq<char> },
    Checking { proxy: HTTPProxyModel, connector: Seq<char> },
    Readvertising { proxy: HTTPProxyModel },
    Loading { proxy: HTTPProxyModel },
    Remembering { summary: TunnelSummaryModel },
}

impl DeepView for UpdateTunnel {
    type V = UpdateTunnelModel;

    open spec fn deep_view(&self) -> UpdateTunnelModel {
        match self {
            UpdateTunnel::Searching { search } => UpdateTunnelModel::Searching {
                search: search.deep_view(),
            },
            UpdateTunnel::Fetching { connector } => UpdateTunnelModel::Fetching {
                connector: connector.deep_view(),
            },
            UpdateTunnel::Patching { proxy, connector } => UpdateTunnelModel::Patching {
                proxy: proxy.deep_view(),
                connector: connector.deep_view(),
            },
            UpdateTunnel::Checking { proxy, connector } => UpdateTunnelModel::Checking {
                proxy: proxy.deep_view(),
                connector: connector.deep_view(),
            },
            UpdateTunnel::Readvertising { proxy } => UpdateTunnelModel::Readvertising {
                proxy: proxy.deep_view(),
            },
            UpdateTunnel::Loading { proxy } => UpdateTunnelModel::Loading {
                proxy: proxy.deep_view(),
            },
            UpdateTunnel::Remembering { summary } => UpdateTunnelModel::Remembering {
                summary: summary.deep_view(),
            },
        }
    }
}

/// The hostnames that the desired state of a proxy asks for.
pub open spec fn asked_hostnames(proxy: HTTPProxyModel) -> Seq<Seq<char>> {
    match proxy.spec.hostnames {
        Some(hostnames) => hostnames,
        None => Seq::empty(),
    }
}

/// The last request of the operation: where tunnels are not announced with
/// tickets and the endpoint names an origin, this device serves it.
pub open spec fn remember_changed(
    publish_tickets: bool,
    summary: TunnelSummaryModel,
) -> Option<PlaneRequestModel> {
    match endpoint::proxy_state_of(summary.id, summary.endpoint, summary.enabled) {
        Ok(state) => if publish_tickets {
            None
        } else {
            Some(PlaneRequestModel::StoreProxy { proxy: state })
        },
        Err(_) => None,
    }
}

/// The last request of the operation.
pub fn remember_request(publish_tickets: bool, summary: &TunnelSummary) -> (r: Option<PlaneRequest>)
    ensures
        r.deep_view() == remember_changed(publish_tickets, summary.deep_view()),
{
    if publish_tickets {
        return None;
    }
    match endpoint::proxy_state_from_summary(&summary.id, &summary.endpoint, summary.enabled) {
        Ok(state) => Some(PlaneRequest::StoreProxy { proxy: state }),
        Err(_) => None,
    }
}

pub open spec fn load(cx: UpdateContextModel, proxy: HTTPProxyModel) -> StepModel<
    UpdateTunnelModel,
    TunnelSummaryModel,
> {
    StepModel::Next {
        state: UpdateTunnelModel::Loading { proxy },
        request: PlaneRequestModel::HasAdvertisement { name: cx.tunnel_id },
    }
}

/// The end of the operation, for a tunnel whose HTTPProxy was `proxy`.
pub open spec fn changed(cx: UpdateContextModel, proxy: HTTPProxyModel, enabled: bool) -> StepModel<
    UpdateTunnelModel,
    TunnelSummaryModel,
> {
    let summary = listing::summary_with(proxy, cx.tunnel_id, cx.label, cx.endpoint, enabled);
    match remember_changed(cx.publish_tickets, summary) {
        Some(request) => StepModel::Next {
            state: UpdateTunnelModel::Remembering { summary },
            request,
        },
        None => StepModel::Finished { outcome: summary },
    }
}

/// What changing does when a reply comes.
///
/// The label, the hostnames that were asked for and the rules of the HTTPProxy
/// are set; where the tunnel is advertised, the advertisement follows.
pub open spec fn update_step(
    state: UpdateTunnelModel,
    cx: UpdateContextModel,
    reply: PlaneReplyModel,
) -> StepModel<UpdateTunnelModel, TunnelSummaryModel> {
    match (state, reply) {
        (UpdateTunnelModel::Searching { search }, reply) => match connector_search::search_step(
            search,
            cx.search,
            reply,
        ) {
            StepModel::Next { state, request } => StepModel::Next {
                state: UpdateTunnelModel::Searching { search: state },
                request,
            },
            StepModel::Finished { outcome: Some(connector) } => StepModel::Next {
                state: UpdateTunnelModel::Fetching { connector: connector.metadata.name_any() },
                request: PlaneRequestModel::GetProxy { name: cx.tunnel_id },
            },
            StepModel::Finished { outcome: None } => StepModel::Failed {
                error: ServiceErrorModel::unexpected_reply(),
            },
            StepModel::Failed { error } => StepModel::Failed { error },
        },
        (
            UpdateTunnelModel::Fetching { connector },
            PlaneReplyModel::Proxy { proxy },
        ) => StepModel::Next {
            state: UpdateTunnelModel::Patching { proxy, connector },
            request: PlaneRequestModel::PatchProxy {
                name: cx.tunnel_id,
                label: cx.label,
                hostnames: asked_hostnames(proxy),
                rules: resources::tunnel_rules_model(cx.endpoint, connector),
            },
        },
        (UpdateTunnelModel::Fetching { .. }, PlaneReplyModel::Failed { error }) => StepModel::Failed {
            error: ServiceErrorModel::because("Failed to fetch HTTPProxy"@, error),
        },
        (
            UpdateTunnelModel::Patching { proxy, connector },
            PlaneReplyModel::Done,
        ) => StepModel::Next {
            state: UpdateTunnelModel::Checking { proxy, connector },
            request: PlaneRequestModel::HasAdvertisement { name: cx.tunnel_id },
        },
        (UpdateTunnelModel::Patching { .. }, PlaneReplyModel::Failed { error }) => StepModel::Failed {
            error: ServiceErrorModel::because("Failed to update HTTPProxy"@, error),
        },
        (UpdateTunnelModel::Checking { proxy, connector }, PlaneReplyModel::Exists { found }) => {
            if found {
                StepModel::Next {
                    state: UpdateTunnelModel::Readvertising { proxy },
                    request: PlaneRequestModel::PatchAdvertisement {
                        name: cx.tunnel_id,
                        spec: resources::advertisement_spec_model(connector, cx.target),
                    },
                }
            } else {
                load(cx, proxy)
            }
        },
        (UpdateTunnelModel::Checking { proxy, .. }, PlaneReplyModel::Failed { .. }) => load(
            cx,
            proxy,
        ),
        (UpdateTunnelModel::Readvertising { proxy }, PlaneReplyModel::Done) => load(cx, proxy),
        (
            UpdateTunnelModel::Readvertising { .. },
            PlaneReplyModel::Failed { error },
        ) => StepModel::Failed {
            error: ServiceErrorModel::because("Failed to update ConnectorAdvertisement"@, error),
        },
        (UpdateTunnelModel::Loading { proxy }, PlaneReplyModel::Exists { found }) => changed(
            cx,
            proxy,
            found,
        ),
        (UpdateTunnelModel::Loading { .. }, PlaneReplyModel::Failed { error }) => StepModel::Failed {
            error: ServiceErrorModel::because("Failed to load ConnectorAdvertisement"@, error),
        },
        (
            UpdateTunnelModel::Remembering { summary },
            PlaneReplyModel::Done,
        ) => StepModel::Finished { outcome: summary },
        (
            UpdateTunnelModel::Remembering { summary },
            PlaneReplyModel::Failed { .. },
        ) => StepModel::Finished { outcome: summary },
        _ => StepModel::Failed { error: ServiceErrorModel::unexpected_reply() },
    }
}

impl UpdateContext {
    /// The change of the tunnel `tunnel_id` to this label and endpoint, which
    /// must name a target.
    pub fn new(
        tunnel_id: &str,
        label: &str,
        endpoint: &str,
        endpoint_id: String,
        annotations: Vec<(String, String)>,
        publish_tickets: bool,
    ) -> (r: Result<Self, ServiceError>)
        ensures
            match (r, endpoint::parsed_target(endpoint::normalized(endpoint@))) {
                (Ok(cx), Ok(target)) => cx.deep_view() == (UpdateContextModel {
                    tunnel_id: tunnel_id@,
                    label: label@,
                    endpoint: endpoint::normalized(endpoint@),
                    target,
                    search: SearchContextModel {
                        endpoint_id: endpoint_id@,
                        annotations: annotations.deep_view(),
                        ensure: true,
                    },
                    publish_tickets,
                }),
                (Err(error), Err(e)) => error.deep_view() == ServiceErrorModel::plain(e.text()),
                _ => false,
            },
    {
        let normal = endpoint::normalize_endpoint(endpoint);
        match endpoint::parse_target(&normal) {
            Ok(target) => Ok(
                UpdateContext {
                    tunnel_id: tunnel_id.to_owned(),
                    label: label.to_owned(),
                    endpoint: normal,
                    target,
                    search: SearchContext { endpoint_id, annotations, ensure: true },
                    publish_tickets,
                },
            ),
            Err(e) => Err(ServiceError::plain(e.message())),
        }
    }

    /// The first request of the operation.
    pub fn start(&self) -> (r: (UpdateTunnel, PlaneRequest))
        ensures
            r.0.deep_view() == (UpdateTunnelModel::Searching {
                search: ConnectorSearchModel::ByEndpoint,
            }),
            r.1.deep_view() == (PlaneRequestModel::ListConnectors {
                selector: Some(
                    connector_search::endpoint_selector(self.deep_view().search.endpoint_id),
                ),
            }),
    {
        (UpdateTunnel::Searching { search: ConnectorSearch::ByEndpoint }, self.search.start())
    }

    fn next_load(&self, proxy: HTTPProxy) -> (r: Step<UpdateTunnel, TunnelSummary>)
        ensures
            r.deep_view() == load(self.deep_view(), proxy.deep_view()),
    {
        Step::Next {
            state: UpdateTunnel::Loading { proxy },
            request: PlaneRequest::HasAdvertisement { name: self.tunnel_id.clone() },
        }
    }

    fn finish(&self, proxy: HTTPProxy, enabled: bool) -> (r: Step<UpdateTunnel, TunnelSummary>)
        ensures
            r.deep_view() == changed(self.deep_view(), proxy.deep_view(), enabled),
    {
        let summary = listing::build_summary(
            &proxy,
            self.tunnel_id.clone(),
            self.label.clone(),
            self.endpoint.clone(),
            enabled,
        );
        match remember_request(self.publish_tickets, &summary) {
            Some(request) => Step::Next { state: UpdateTunnel::Remembering { summary }, request },
            None => Step::Finished { outcome: summary },
        }
    }
}

fn hostnames_to_keep(proxy: &HTTPProxy) -> (r: Vec<String>)
    ensures
        r.deep_view() == asked_hostnames(proxy.deep_view()),
{
    match &proxy.spec.hostnames {
        Some(hostnames) => text::copy_texts(hostnames),
        None => {
            let r: Vec<String> = Vec::new();
            assert(r.deep_view() =~= Seq::<Seq<char>>::empty());
            r
        },
    }
}

impl UpdateTunnel {
    /// Goes on with changing when a reply comes.
    pub fn step(self, cx: &UpdateContext, reply: PlaneReply) -> (r: Step<
        UpdateTunnel,
        TunnelSummary,
    >)
        ensures
            r.deep_view() == update_step(self.deep_view(), cx.deep_view(), reply.deep_view()),
    {
        match (self, reply) {
            (UpdateTunnel::Searching { search }, reply) => match search.step(&cx.search, reply) {
                Step::Next { state, request } => Step::Next {
                    state: UpdateTunnel::Searching { search: state },
                    request,
                },
                Step::Finished { outcome: Some(connector) } => Step::Next {
                    state: UpdateTunnel::Fetching { connector: connector.metadata.name_any() },
                    request: PlaneRequest::GetProxy { name: cx.tunnel_id.clone() },
                },
                Step::Finished { outcome: None } => Step::Failed {
                    error: ServiceError::unexpected_reply(),
                },
                Step::Failed { error } => Step::Failed { error },
            },
            (UpdateTunnel::Fetching { connector }, PlaneReply::Proxy { proxy }) => {
                let hostnames = hostnames_to_keep(&proxy);
                let rules = resources::tunnel_rules(&cx.endpoint, &connector);
                Step::Next {
                    state: UpdateTunnel::Patching { proxy, connector },
                    request: PlaneRequest::PatchProxy {
                        name: cx.tunnel_id.clone(),
                        label: cx.label.clone(),
                        hostnames,
                        rules,
                    },
                }
            },
            (UpdateTunnel::Fetching { .. }, PlaneReply::Failed { error }) => Step::Failed {
                error: ServiceError::because("Failed to fetch HTTPProxy", error),
            },
            (UpdateTunnel::Patching { proxy, connector }, PlaneReply::Done) => Step::Next {
                state: UpdateTunnel::Checking { proxy, connector },
                request: PlaneRequest::HasAdvertisement { name: cx.tunnel_id.clone() },
            },
            (UpdateTunnel::Patching { .. }, PlaneReply::Failed { error }) => Step::Failed {
                error: ServiceError::because("Failed to update HTTPProxy", error),
            },
            (UpdateTunnel::Checking { proxy, connector }, PlaneReply::Exists { found }) => {
                if found {
                    let spec = resources::advertisement_spec(
                        &connector,
                        crate::tunnels::create::copy_target(&cx.target),
                    );
                    Step::Next {
                        state: UpdateTunnel::Readvertising { proxy },
                        request: PlaneRequest::PatchAdvertisement {
                            name: cx.tunnel_id.clone(),
                            spec,
                        },
                    }
                } else {
                    cx.next_load(proxy)
                }
            },
            (UpdateTunnel::Checking { proxy, .. }, PlaneReply::Failed { .. }) => cx.next_load(proxy),
            (UpdateTunnel::Readvertising { proxy }, PlaneReply::Done) => cx.next_load(proxy),
            (UpdateTunnel::Readvertising { .. }, PlaneReply::Failed { error }) => Step::Failed {
                error: ServiceError::because("Failed to update ConnectorAdvertisement", error),
            },
            (UpdateTunnel::Loading { proxy }, PlaneReply::Exists { found }) => cx.finish(
                proxy,
                found,
            ),
            (UpdateTunnel::Loading { .. }, PlaneReply::Failed { error }) => Step::Failed {
                error: ServiceError::because("Failed to load ConnectorAdvertisement", error),
            },
            (UpdateTunnel::Remembering { summary }, PlaneReply::Done) => Step::Finished {
                outcome: summary,
            },
            (UpdateTunnel::Remembering { summary }, PlaneReply::Failed { .. }) => Step::Finished {
                outcome: summary,
            },
            _ => Step::Failed { error: ServiceError::unexpected_reply() },
        }
    }
}

} // verus!
