//! The HTTPProxy resource.
use vstd::prelude::*;

use crate::datum_apis::meta::{Condition, ConditionModel, ObjectMeta, ObjectMetaModel};

verus! {

/// Names the connector that serves a backend.
#[derive(Debug, Clone, PartialEq, Eq)]
pub struct ConnectorReference {
    pub name: String,
}

/// The model of a [`ConnectorReference`].
#[verifier::ext_equal]
pub struct ConnectorReferenceModel {
    pub name: Seq<char>,
}

impl DeepView for ConnectorReference {
    type V = ConnectorReferenceModel;

    open spec fn deep_view(&self) -> ConnectorReferenceModel {
        ConnectorReferenceModel {
            name: self.name.deep_view(),
        }
    }
}

/// Where the requests of a rule go.
#[derive(Debug, Clone, PartialEq, Eq)]
pub struct HTTPProxyRuleBackend {
    pub endpoint: String,
    pub connector: Option<ConnectorReference>,
}

/// The model of a [`HTTPProxyRuleBackend`].
#[verifier::ext_equal]
pub struct HTTPProxyRuleBackendModel {
    pub endpoint: Seq<char>,
    pub connector: Option<ConnectorReferenceModel>,
}

impl DeepView for HTTPProxyRuleBackend {
    type V = HTTPProxyRuleBackendModel;

    open spec fn deep_view(&self) -> HTTPProxyRuleBackendModel {
        HTTPProxyRuleBackendModel {
            endpoint: self.endpoint.deep_view(),
            connector: self.connector.deep_view(),
        }
    }
}

/// How a path is matched.
#[derive(Debug, Clone, Copy, PartialEq, Eq, Structural)]
pub enum HTTPRouteRulesMatchesPathType {
    Exact,
    PathPrefix,
    RegularExpression,
}

impl DeepView for HTTPRouteRulesMatchesPathType {
    type V = HTTPRouteRulesMatchesPathType;

    open spec fn deep_view(&self) -> HTTPRouteRulesMatchesPathType {
        *self
    }
}

/// A condition on the path of a request.
#[derive(Debug, Clone, PartialEq, Eq)]
pub struct HTTPRouteRulesMatchesPath {
    pub type_: Option<HTTPRouteRulesMatchesPathType>,
    pub value: Option<String>,
}

/// The model of a [`HTTPRouteRulesMatchesPath`].
#[verifier::ext_equal]
pub struct HTTPRouteRulesMatchesPathModel {
    pub type_: Option<HTTPRouteRulesMatchesPathType>,
    pub value: Option<Seq<char>>,
}

impl DeepView for HTTPRouteRulesMatchesPath {
    type V = HTTPRouteRulesMatchesPathModel;

    open spec fn deep_view(&self) -> HTTPRouteRulesMatchesPathModel {
        HTTPRouteRulesMatchesPathModel {
            type_: self.type_.deep_view(),
            value: self.value.deep_view(),
        }
    }
}

/// How a header value is matched.
#[derive(Debug, Clone, Copy, PartialEq, Eq, Structural)]
pub enum HTTPRouteRulesMatchesHeadersType {
    Exact,
    RegularExpression,
}

impl DeepView for HTTPRouteRulesMatchesHeadersType {
    type V = HTTPRouteRulesMatchesHeadersType;

    open spec fn deep_view(&self) -> HTTPRouteRulesMatchesHeadersType {
        *self
    }
}

/// A condition on one header of a request.
#[derive(Debug, Clone, PartialEq, Eq)]
pub struct HTTPRouteRulesMatchesHeaders {
    pub name: String,
    pub type_: Option<HTTPRouteRulesMatchesHeadersType>,
    pub value: String,
}

/// The model of a [`HTTPRouteRulesMatchesHeaders`].
#[verifier::ext_equal]
pub struct HTTPRouteRulesMatchesHeadersModel {
    pub name: Seq<char>,
    pub type_: Option<HTTPRouteRulesMatchesHeadersType>,
    pub value: Seq<char>,
}

impl DeepView for HTTPRouteRulesMatchesHeaders {
    type V = HTTPRouteRulesMatchesHeadersModel;

    open spec fn deep_view(&self) -> HTTPRouteRulesMatchesHeadersModel {
        HTTPRouteRulesMatchesHeadersModel {
            name: self.name.deep_view(),
            type_: self.type_.deep_view(),
            value: self.value.deep_view(),
        }
    }
}

/// The requests that a rule takes.
#[derive(Debug, Clone, PartialEq, Eq)]
pub struct HTTPRouteMatch {
    pub path: Option<HTTPRouteRulesMatchesPath>,
    pub headers: Option<Vec<HTTPRouteRulesMatchesHeaders>>,
}

/// The model of a [`HTTPRouteMatch`].
#[verifier::ext_equal]
pub struct HTTPRouteMatchModel {
    pub path: Option<HTTPRouteRulesMatchesPathModel>,
    pub headers: Option<Seq<HTTPRouteRulesMatchesHeadersModel>>,
}

impl DeepView for HTTPRouteMatch {
    type V = HTTPRouteMatchModel;

    open spec fn deep_view(&self) -> HTTPRouteMatchModel {
        HTTPRouteMatchModel {
            path: self.path.deep_view(),
            headers: self.headers.deep_view(),
        }
    }
}

/// What a filter does.
#[derive(Debug, Clone, Copy, PartialEq, Eq, Structural)]
pub enum HTTPRouteRulesFiltersType {
    RequestHeaderModifier,
    ResponseHeaderModifier,
    RequestMirror,
    RequestRedirect,
    URLRewrite,
    ExtensionRef,
}

impl DeepView for HTTPRouteRulesFiltersType {
    type V = HTTPRouteRulesFiltersType;

    open spec fn deep_view(&self) -> HTTPRouteRulesFiltersType {
        *self
    }
}

/// The redirect that a filter answers with.
#[derive(Debug, Clone, PartialEq, Eq)]
pub struct HTTPRouteRulesFiltersRequestRedirect {
    pub scheme: Option<String>,
    pub status_code: Option<i64>,
}

/// The model of a [`HTTPRouteRulesFiltersRequestRedirect`].
#[verifier::ext_equal]
pub struct HTTPRouteRulesFiltersRequestRedirectModel {
    pub scheme: Option<Seq<char>>,
    pub status_code: Option<i64>,
}

impl DeepView for HTTPRouteRulesFiltersRequestRedirect {
    type V = HTTPRouteRulesFiltersRequestRedirectModel;

    open spec fn deep_view(&self) -> HTTPRouteRulesFiltersRequestRedirectModel {
        HTTPRouteRulesFiltersRequestRedirectModel {
            scheme: self.scheme.deep_view(),
            status_code: self.status_code.deep_view(),
        }
    }
}

/// One filter of a rule.
#[derive(Debug, Clone, PartialEq, Eq)]
pub struct HTTPRouteRulesFilters {
    pub type_: HTTPRouteRulesFiltersType,
    pub request_redirect: Option<HTTPRouteRulesFiltersRequestRedirect>,
}

/// The model of a [`HTTPRouteRulesFilters`].
#[verifier::ext_equal]
pub struct HTTPRouteRulesFiltersModel {
    pub type_: HTTPRouteRulesFiltersType,
    pub request_redirect: Option<HTTPRouteRulesFiltersRequestRedirectModel>,
}

impl DeepView for HTTPRouteRulesFilters {
    type V = HTTPRouteRulesFiltersModel;

    open spec fn deep_view(&self) -> HTTPRouteRulesFiltersModel {
        HTTPRouteRulesFiltersModel {
            type_: self.type_.deep_view(),
            request_redirect: self.request_redirect.deep_view(),
        }
    }
}

/// One rule of an HTTPProxy.
#[derive(Debug, Clone, PartialEq, Eq)]
pub struct HTTPProxyRule {
    pub name: Option<String>,
    pub matches: Vec<HTTPRouteMatch>,
    pub filters: Option<Vec<HTTPRouteRulesFilters>>,
    pub backends: Option<Vec<HTTPProxyRuleBackend>>,
}

/// The model of a [`HTTPProxyRule`].
#[verifier::ext_equal]
pub struct HTTPProxyRuleModel {
    pub name: Option<Seq<char>>,
    pub matches: Seq<HTTPRouteMatchModel>,
    pub filters: Option<Seq<HTTPRouteRulesFiltersModel>>,
    pub backends: Option<Seq<HTTPProxyRuleBackendModel>>,
}

impl DeepView for HTTPProxyRule {
    type V = HTTPProxyRuleModel;

    open spec fn deep_view(&self) -> HTTPProxyRuleModel {
        HTTPProxyRuleModel {
            name: self.name.deep_view(),
            matches: self.matches.deep_view(),
            filters: self.filters.deep_view(),
            backends: self.backends.deep_view(),
        }
    }
}

/// The desired state of an HTTPProxy.
#[derive(Debug, Clone, PartialEq, Eq)]
pub struct HTTPProxySpec {
    pub hostnames: Option<Vec<String>>,
    pub rules: Vec<HTTPProxyRule>,
}

/// The model of a [`HTTPProxySpec`].
#[verifier::ext_equal]
pub struct HTTPProxySpecModel {
    pub hostnames: Option<Seq<Seq<char>>>,
    pub rules: Seq<HTTPProxyRuleModel>,
}

impl DeepView for HTTPProxySpec {
    type V = HTTPProxySpecModel;

    open spec fn deep_view(&self) -> HTTPProxySpecModel {
        HTTPProxySpecModel {
            hostnames: self.hostnames.deep_view(),
            rules: self.rules.deep_view(),
        }
    }
}

/// The observed state of an HTTPProxy.
#[derive(Debug, Clone, PartialEq, Eq)]
pub struct HTTPProxyStatus {
    pub addresses: Option<Vec<Vec<String>>>,
    pub hostnames: Option<Vec<String>>,
    pub conditions: Option<Vec<Condition>>,
}

/// The model of a [`HTTPProxyStatus`].
#[verifier::ext_equal]
pub struct HTTPProxyStatusModel {
    pub addresses: Option<Seq<Seq<Seq<char>>>>,
    pub hostnames: Option<Seq<Seq<char>>>,
    pub conditions: Option<Seq<ConditionModel>>,
}

impl DeepView for HTTPProxyStatus {
    type V = HTTPProxyStatusModel;

    open spec fn deep_view(&self) -> HTTPProxyStatusModel {
        HTTPProxyStatusModel {
            addresses: self.addresses.deep_view(),
            hostnames: self.hostnames.deep_view(),
            conditions: self.conditions.deep_view(),
        }
    }
}

/// A route from public hostnames to a backend: what a tunnel is on the server.
#[derive(Debug, Clone, PartialEq, Eq)]
pub struct HTTPProxy {
    pub metadata: ObjectMeta,
    pub spec: HTTPProxySpec,
    pub status: Option<HTTPProxyStatus>,
}

/// The model of a [`HTTPProxy`].
#[verifier::ext_equal]
pub struct HTTPProxyModel {
    pub metadata: ObjectMetaModel,
    pub spec: HTTPProxySpecModel,
    pub status: Option<HTTPProxyStatusModel>,
}

impl DeepView for HTTPProxy {
    type V = HTTPProxyModel;

    open spec fn deep_view(&self) -> HTTPProxyModel {
        HTTPProxyModel {
            metadata: self.metadata.deep_view(),
            spec: self.spec.deep_view(),
            status: self.status.deep_view(),
        }
    }
}

pub const HTTP_PROXY_CONDITION_ACCEPTED: &'static str = "Accepted";

pub const HTTP_PROXY_CONDITION_PROGRAMMED: &'static str = "Programmed";

pub const HTTP_PROXY_CONDITION_CERTIFICATES_READY: &'static str = "CertificatesReady";

pub const HTTP_PROXY_CONDITION_CONNECTOR_METADATA_PROGRAMMED: &'static str = "ConnectorMetadataProgrammed";

pub const HTTP_PROXY_CONDITION_HOSTNAMES_VERIFIED: &'static str = "HostnamesVerified";

pub const HTTP_PROXY_CONDITION_HOSTNAMES_IN_USE: &'static str = "HostnamesInUse";

pub const HTTP_PROXY_REASON_ACCEPTED: &'static str = "Accepted";

pub const HTTP_PROXY_REASON_PROGRAMMED: &'static str = "Programmed";

pub const HTTP_PROXY_REASON_CONFLICT: &'static str = "Conflict";

pub const HTTP_PROXY_REASON_PENDING: &'static str = "Pending";

} // verus!
