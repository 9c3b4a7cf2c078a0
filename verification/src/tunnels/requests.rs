//! What the operations on tunnels ask for, and what comes back.
use vstd::prelude::*;

use crate::datum_apis::connector::{
    Connector, ConnectorConnectionDetails, ConnectorConnectionDetailsModel, ConnectorModel,
};
use crate::datum_apis::connector_advertisement::{
    ConnectorAdvertisement, ConnectorAdvertisementModel, ConnectorAdvertisementSpec,
    ConnectorAdvertisementSpecModel,
};
use crate::datum_apis::http_proxy::{HTTPProxy, HTTPProxyModel, HTTPProxyRule, HTTPProxyRuleModel};
use crate::datum_apis::traffic_protection_policy::{
    TrafficProtectionPolicy, TrafficProtectionPolicyModel,
};
use crate::state::{ProxyState, ProxyStateModel, SelectedContext};
use crate::text;
use crate::tunnels::resources::{EndpointInfo, EndpointInfoModel};

verus! {

/// What an operation asks of the control plane of a project or of this device.
#[derive(Debug, Clone, PartialEq, Eq)]
pub enum PlaneRequest {
    /// The connectors, or those that a field selector picks.
    ListConnectors { selector: Option<String> },
    /// The connector `name`; that it is missing is a failure.
    GetConnector { name: String },
    /// The connector `name`, or that it is missing.
    FindConnector { name: String },
    /// A new connector.
    CreateConnector { connector: Connector },
    /// Sets how the connector is reached, in its status.
    PatchConnectorDetails { name: String, details: ConnectorConnectionDetails },
    /// Sets annotations of the connector.
    PatchConnectorAnnotations { name: String, annotations: Vec<(String, String)> },
    /// Deletes the connector.
    DeleteConnector { name: String },
    /// All HTTPProxies.
    ListProxies,
    /// The HTTPProxy `name`; that it is missing is a failure.
    GetProxy { name: String },
    /// The HTTPProxy `name`, or that it is missing.
    FindProxy { name: String },
    /// A new HTTPProxy.
    CreateProxy { proxy: HTTPProxy },
    /// Sets the label, the hostnames and the rules of the HTTPProxy.
    PatchProxy { name: String, label: String, hostnames: Vec<String>, rules: Vec<HTTPProxyRule> },
    /// Deletes the HTTPProxy.
    DeleteProxy { name: String },
    /// The advertisements that a field selector picks.
    ListAdvertisements { selector: String },
    /// Whether the advertisement `name` exists.
    HasAdvertisement { name: String },
    /// A new advertisement.
    CreateAdvertisement { advertisement: ConnectorAdvertisement },
    /// Sets the content of the advertisement.
    PatchAdvertisement { name: String, spec: ConnectorAdvertisementSpec },
    /// Deletes the advertisement.
    DeleteAdvertisement { name: String },
    /// Whether the traffic protection policy `name` exists.
    HasPolicy { name: String },
    /// A new traffic protection policy.
    CreatePolicy { policy: TrafficProtectionPolicy },
    /// Deletes the traffic protection policy.
    DeletePolicy { name: String },
    /// Whether the connector `name` exists.
    HasConnector { name: String },
    /// Whether the HTTPProxy `name` exists.
    HasProxy { name: String },
    /// How this device can be reached.
    DescribeEndpoint,
    /// Serves the proxy and publishes its ticket.
    PublishProxy { proxy: ProxyState },
    /// Serves the proxy.
    StoreProxy { proxy: ProxyState },
    /// Stops serving the tunnel and withdraws its ticket.
    UnpublishProxy { id: String },
    /// Stops serving the tunnel.
    ForgetProxy { id: String },
}

/// The model of a [`PlaneRequest`].
#[verifier::ext_equal]
pub enum PlaneRequestModel {
    ListConnectors { selector: Option<Seq<char>> },
    GetConnector { name: Seq<char> },
    FindConnector { name: Seq<char> },
    CreateConnector { connector: ConnectorModel },
    PatchConnectorDetails { name: Seq<char>, details: ConnectorConnectionDetailsModel },
    PatchConnectorAnnotations { name: Seq<char>, annotations: Seq<(Seq<char>, Seq<char>)> },
    DeleteConnector { name: Seq<char> },
    ListProxies,
    GetProxy { name: Seq<char> },
    FindProxy { name: Seq<char> },
    CreateProxy { proxy: HTTPProxyModel },
    PatchProxy { name: Seq<char>, label: Seq<char>, hostnames: Seq<Seq<char>>, rules: Seq<HTTPProxyRuleModel> },
    DeleteProxy { name: Seq<char> },
    ListAdvertisements { selector: Seq<char> },
    HasAdvertisement { name: Seq<char> },
    CreateAdvertisement { advertisement: ConnectorAdvertisementModel },
    PatchAdvertisement { name: Seq<char>, spec: ConnectorAdvertisementSpecModel },
    DeleteAdvertisement { name: Seq<char> },
    HasPolicy { name: Seq<char> },
    CreatePolicy { policy: TrafficProtectionPolicyModel },
    DeletePolicy { name: Seq<char> },
    HasConnector { name: Seq<char> },
    HasProxy { name: Seq<char> },
    DescribeEndpoint,
    PublishProxy { proxy: ProxyStateModel },
    StoreProxy { proxy: ProxyStateModel },
    UnpublishProxy { id: Seq<char> },
    ForgetProxy { id: Seq<char> },
}

impl DeepView for PlaneRequest {
    type V = PlaneRequestModel;

    open spec fn deep_view(&self) -> PlaneRequestModel {
        match self {
            PlaneRequest::ListConnectors { selector } => PlaneRequestModel::ListConnectors {
                selector: selector.deep_view(),
            },
            PlaneRequest::GetConnector { name } => PlaneRequestModel::GetConnector {
                name: name.deep_view(),
            },
            PlaneRequest::FindConnector { name } => PlaneRequestModel::FindConnector {
                name: name.deep_view(),
            },
            PlaneRequest::CreateConnector { connector } => PlaneRequestModel::CreateConnector {
                connector: connector.deep_view(),
            },
            PlaneRequest::PatchConnectorDetails { name, details } => PlaneRequestModel::PatchConnectorDetails {
                name: name.deep_view(),
                details: details.deep_view(),
            },
            PlaneRequest::PatchConnectorAnnotations { name, annotations } => PlaneRequestModel::PatchConnectorAnnotations {
                name: name.deep_view(),
                annotations: annotations.deep_view(),
            },
            PlaneRequest::DeleteConnector { name } => PlaneRequestModel::DeleteConnector {
                name: name.deep_view(),
            },
            PlaneRequest::ListProxies => PlaneRequestModel::ListProxies,
            PlaneRequest::GetProxy { name } => PlaneRequestModel::GetProxy {
                name: name.deep_view(),
            },
            PlaneRequest::FindProxy { name } => PlaneRequestModel::FindProxy {
                name: name.deep_view(),
            },
            PlaneRequest::CreateProxy { proxy } => PlaneRequestModel::CreateProxy {
                proxy: proxy.deep_view(),
            },
            PlaneRequest::PatchProxy { name, label, hostnames, rules } => PlaneRequestModel::PatchProxy {
                name: name.deep_view(),
                label: label.deep_view(),
                hostnames: hostnames.deep_view(),
                rules: rules.deep_view(),
            },
            PlaneRequest::DeleteProxy { name } => PlaneRequestModel::DeleteProxy {
                name: name.deep_view(),
            },
            PlaneRequest::ListAdvertisements { selector } => PlaneRequestModel::ListAdvertisements {
                selector: selector.deep_view(),
            },
            PlaneRequest::HasAdvertisement { name } => PlaneRequestModel::HasAdvertisement {
                name: name.deep_view(),
            },
            PlaneRequest::CreateAdvertisement { advertisement } => PlaneRequestModel::CreateAdvertisement {
                advertisement: advertisement.deep_view(),
            },
            PlaneRequest::PatchAdvertisement { name, spec } => PlaneRequestModel::PatchAdvertisement {
                name: name.deep_view(),
                spec: spec.deep_view(),
            },
            PlaneRequest::DeleteAdvertisement { name } => PlaneRequestModel::DeleteAdvertisement {
                name: name.deep_view(),
            },
            PlaneRequest::HasPolicy { name } => PlaneRequestModel::HasPolicy {
                name: name.deep_view(),
            },
            PlaneRequest::CreatePolicy { policy } => PlaneRequestModel::CreatePolicy {
                policy: policy.deep_view(),
            },
            PlaneRequest::DeletePolicy { name } => PlaneRequestModel::DeletePolicy {
                name: name.deep_view(),
            },
            PlaneRequest::HasConnector { name } => PlaneRequestModel::HasConnector {
                name: name.deep_view(),
            },
            PlaneRequest::HasProxy { name } => PlaneRequestModel::HasProxy {
                name: name.deep_view(),
            },
            PlaneRequest::DescribeEndpoint => PlaneRequestModel::DescribeEndpoint,
            PlaneRequest::PublishProxy { proxy } => PlaneRequestModel::PublishProxy {
                proxy: proxy.deep_view(),
            },
            PlaneRequest::StoreProxy { proxy } => PlaneRequestModel::StoreProxy {
                proxy: proxy.deep_view(),
            },
            PlaneRequest::UnpublishProxy { id } => PlaneRequestModel::UnpublishProxy {
                id: id.deep_view(),
            },
            PlaneRequest::ForgetProxy { id } => PlaneRequestModel::ForgetProxy {
                id: id.deep_view(),
            },
        }
    }
}

/// What came back for a [`PlaneRequest`].
#[derive(Debug, Clone, PartialEq, Eq)]
pub enum PlaneReply {
    Connectors { items: Vec<Connector> },
    Connector { connector: Connector },
    MaybeConnector { connector: Option<Connector> },
    Proxies { items: Vec<HTTPProxy> },
    Proxy { proxy: HTTPProxy },
    MaybeProxy { proxy: Option<HTTPProxy> },
    Advertisements { items: Vec<ConnectorAdvertisement> },
    Exists { found: bool },
    Endpoint { endpoint: EndpointInfo },
    /// The request was carried out.
    Done,
    /// The request was not carried out; why.
    Failed { error: String },
}

/// The model of a [`PlaneReply`].
#[verifier::ext_equal]
pub enum PlaneReplyModel {
    Connectors { items: Seq<ConnectorModel> },
    Connector { connector: ConnectorModel },
    MaybeConnector { connector: Option<ConnectorModel> },
    Proxies { items: Seq<HTTPProxyModel> },
    Proxy { proxy: HTTPProxyModel },
    MaybeProxy { proxy: Option<HTTPProxyModel> },
    Advertisements { items: Seq<ConnectorAdvertisementModel> },
    Exists { found: bool },
    Endpoint { endpoint: EndpointInfoModel },
    Done,
    Failed { error: Seq<char> },
}

impl DeepView for PlaneReply {
    type V = PlaneReplyModel;

    open spec fn deep_view(&self) -> PlaneReplyModel {
        match self {
            PlaneReply::Connectors { items } => PlaneReplyModel::Connectors {
                items: items.deep_view(),
            },
            PlaneReply::Connector { connector } => PlaneReplyModel::Connector {
                connector: connector.deep_view(),
            },
            PlaneReply::MaybeConnector { connector } => PlaneReplyModel::MaybeConnector {
                connector: connector.deep_view(),
            },
            PlaneReply::Proxies { items } => PlaneReplyModel::Proxies {
                items: items.deep_view(),
            },
            PlaneReply::Proxy { proxy } => PlaneReplyModel::Proxy {
                proxy: proxy.deep_view(),
            },
            PlaneReply::MaybeProxy { proxy } => PlaneReplyModel::MaybeProxy {
                proxy: proxy.deep_view(),
            },
            PlaneReply::Advertisements { items } => PlaneReplyModel::Advertisements {
                items: items.deep_view(),
            },
            PlaneReply::Exists { found } => PlaneReplyModel::Exists {
                found: *found,
            },
            PlaneReply::Endpoint { endpoint } => PlaneReplyModel::Endpoint {
                endpoint: endpoint.deep_view(),
            },
            PlaneReply::Done => PlaneReplyModel::Done,
            PlaneReply::Failed { error } => PlaneReplyModel::Failed {
                error: error.deep_view(),
            },
        }
    }
}

/// Why an operation failed: what it was doing, and the failure behind it.
#[derive(Debug, Clone, PartialEq, Eq)]
pub struct ServiceError {
    pub context: String,
    pub cause: Option<String>,
}

/// The model of a [`ServiceError`].
#[verifier::ext_equal]
pub struct ServiceErrorModel {
    pub context: Seq<char>,
    pub cause: Option<Seq<char>>,
}

impl DeepView for ServiceError {
    type V = ServiceErrorModel;

    open spec fn deep_view(&self) -> ServiceErrorModel {
        ServiceErrorModel {
            context: self.context.deep_view(),
            cause: self.cause.deep_view(),
        }
    }
}

impl ServiceErrorModel {
    /// An error with nothing behind it.
    pub open spec fn plain(context: Seq<char>) -> Self {
        ServiceErrorModel { context, cause: None }
    }

    /// The failure `cause` of what `context` names.
    pub open spec fn because(context: Seq<char>, cause: Seq<char>) -> Self {
        ServiceErrorModel { context, cause: Some(cause) }
    }

    /// The reply is none to the request that was made.
    pub open spec fn unexpected_reply() -> Self {
        ServiceErrorModel { context: "unexpected reply from the control plane"@, cause: None }
    }
}

impl ServiceError {
    pub fn plain(context: &str) -> (r: Self)
        ensures
            r.deep_view() == ServiceErrorModel::plain(context@),
    {
        ServiceError { context: context.to_owned(), cause: None }
    }

    pub fn because(context: &str, cause: String) -> (r: Self)
        ensures
            r.deep_view() == ServiceErrorModel::because(context@, cause@),
    {
        ServiceError { context: context.to_owned(), cause: Some(cause) }
    }

    pub fn unexpected_reply() -> (r: Self)
        ensures
            r.deep_view() == ServiceErrorModel::unexpected_reply(),
    {
        ServiceError::plain("unexpected reply from the control plane")
    }

    /// The message of this error, with what is behind it.
    pub fn message(&self) -> (r: String)
        ensures
            r@ == (match self.deep_view().cause {
                Some(cause) => self.deep_view().context + ": "@ + cause,
                None => self.deep_view().context,
            }),
    {
        match &self.cause {
            Some(cause) => text::concat3(&self.context, ": ", cause),
            None => self.context.clone(),
        }
    }
}

/// What an operation does next: it makes a request and waits for the reply, or
/// it has come to its end.
pub enum Step<S, T> {
    Next { state: S, request: PlaneRequest },
    Finished { outcome: T },
    Failed { error: ServiceError },
}

/// The model of a [`Step`].
#[verifier::ext_equal]
pub enum StepModel<S, T> {
    Next { state: S, request: PlaneRequestModel },
    Finished { outcome: T },
    Failed { error: ServiceErrorModel },
}

impl<S: DeepView, T: DeepView> DeepView for Step<S, T> {
    type V = StepModel<S::V, T::V>;

    open spec fn deep_view(&self) -> StepModel<S::V, T::V> {
        match self {
            Step::Next { state, request } => StepModel::Next {
                state: state.deep_view(),
                request: request.deep_view(),
            },
            Step::Finished { outcome } => StepModel::Finished { outcome: outcome.deep_view() },
            Step::Failed { error } => StepModel::Failed { error: error.deep_view() },
        }
    }
}

/// The project that operations act on: that of the selected context.
pub fn active_project(selected: Option<&SelectedContext>) -> (r: Result<&str, ServiceError>)
    ensures
        match (selected, r) {
            (Some(context), Ok(project_id)) => project_id@ == context.deep_view().project_id,
            (None, Err(e)) => e.deep_view() == ServiceErrorModel::plain("No project selected"@),
            _ => false,
        },
{
    match selected {
        Some(context) => Ok(context.project_id.as_str()),
        None => Err(ServiceError::plain("No project selected")),
    }
}

} // verus!
