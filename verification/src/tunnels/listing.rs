//! Listing tunnels and reading their progress.
use vstd::prelude::*;

use crate::datum_apis::connector_advertisement::{
    ConnectorAdvertisement, ConnectorAdvertisementModel,
};
use crate::datum_apis::http_proxy::{
    HTTPProxy, HTTPProxyModel, HTTP_PROXY_CONDITION_ACCEPTED, HTTP_PROXY_CONDITION_PROGRAMMED,
};
use crate::datum_apis::meta;
use crate::endpoint;
use crate::state::SelectedContext;
use crate::text;
use crate::tunnels::connector_search;
use crate::tunnels::progress;
use crate::tunnels::progress::{TunnelProgress, TunnelProgressModel};
use crate::tunnels::requests::{
    PlaneReply, PlaneReplyModel, PlaneRequest, PlaneRequestModel, ServiceError, ServiceErrorModel,
    Step, StepModel,
};
use crate::tunnels::resources;
use crate::tunnels::resources::{
    ADVERTISEMENT_CONNECTOR_FIELD, CONNECTOR_SELECTOR_FIELD, DISPLAY_NAME_ANNOTATION,
};

verus! {

/// A tunnel as users see it.
#[derive(Debug, Clone, PartialEq, Eq)]
pub struct TunnelSummary {
    pub id: String,
    pub label: String,
    pub endpoint: String,
    pub hostnames: Vec<String>,
    /// Whether the tunnel is advertised.
    pub enabled: bool,
    pub accepted: bool,
    pub programmed: bool,
}

/// The model of a [`TunnelSummary`].
#[verifier::ext_equal]
pub struct TunnelSummaryModel {
    pub id: Seq<char>,
    pub label: Seq<char>,
    pub endpoint: Seq<char>,
    pub hostnames: Seq<Seq<char>>,
    pub enabled: bool,
    pub accepted: bool,
    pub programmed: bool,
}

impl DeepView for TunnelSummary {
    type V = TunnelSummaryModel;

    open spec fn deep_view(&self) -> TunnelSummaryModel {
        TunnelSummaryModel {
            id: self.id.deep_view(),
            label: self.label.deep_view(),
            endpoint: self.endpoint.deep_view(),
            hostnames: self.hostnames.deep_view(),
            enabled: self.enabled,
            accepted: self.accepted,
            programmed: self.programmed,
        }
    }
}

/// The summary of the tunnel behind `proxy`, with this ID, label, endpoint and
/// switch.
pub open spec fn summary_with(
    proxy: HTTPProxyModel,
    id: Seq<char>,
    label: Seq<char>,
    endpoint: Seq<char>,
    enabled: bool,
) -> TunnelSummaryModel {
    TunnelSummaryModel {
        id,
        label,
        endpoint,
        hostnames: resources::hostnames_of(proxy),
        enabled,
        accepted: meta::is_true(resources::proxy_conditions(proxy), HTTP_PROXY_CONDITION_ACCEPTED@),
        programmed: meta::is_true(
            resources::proxy_conditions(proxy),
            HTTP_PROXY_CONDITION_PROGRAMMED@,
        ),
    }
}

/// The summary of the tunnel behind `proxy`, with this ID, label, endpoint and
/// switch.
pub fn build_summary(
    proxy: &HTTPProxy,
    id: String,
    label: String,
    endpoint: String,
    enabled: bool,
) -> (r: TunnelSummary)
    ensures
        r.deep_view() == summary_with(proxy.deep_view(), id@, label@, endpoint@, enabled),
{
    TunnelSummary {
        id,
        label,
        endpoint,
        hostnames: resources::proxy_hostnames(proxy),
        enabled,
        accepted: resources::proxy_condition_is_true(proxy, HTTP_PROXY_CONDITION_ACCEPTED),
        programmed: resources::proxy_condition_is_true(proxy, HTTP_PROXY_CONDITION_PROGRAMMED),
    }
}

/// The label of a tunnel: its display name, or else its ID.
pub open spec fn label_of(proxy: HTTPProxyModel, id: Seq<char>) -> Seq<char> {
    match proxy.metadata.annotation(DISPLAY_NAME_ANNOTATION@) {
        Some(label) => label,
        None => id,
    }
}

/// The endpoint of a tunnel in normal form; empty where it has no backend.
pub open spec fn endpoint_of(proxy: HTTPProxyModel) -> Seq<char> {
    match resources::endpoint_in_rules(proxy.spec.rules, 0) {
        Some(endpoint) => endpoint::normalized(endpoint),
        None => endpoint::normalized(Seq::empty()),
    }
}

/// The label of a tunnel.
pub fn proxy_label(proxy: &HTTPProxy, id: &str) -> (r: String)
    ensures
        r@ == label_of(proxy.deep_view(), id@),
{
    match proxy.metadata.annotation(DISPLAY_NAME_ANNOTATION) {
        Some(label) => label,
        None => id.to_owned(),
    }
}

/// The endpoint of a tunnel in normal form.
pub fn proxy_endpoint(proxy: &HTTPProxy) -> (r: String)
    ensures
        r@ == endpoint_of(proxy.deep_view()),
{
    match resources::proxy_backend_endpoint(proxy) {
        Some(endpoint) => endpoint::normalize_endpoint(&endpoint),
        None => endpoint::normalize_endpoint(&String::new()),
    }
}

impl TunnelSummary {
    /// The host and port that the endpoint of the tunnel names.
    pub fn origin_authority(&self) -> (r: Option<endpoint::Authority>)
        ensures
            match r {
                Some(authority) => endpoint::origin_of(self.deep_view().endpoint) == Ok::<
                    (Seq<char>, nat),
                    crate::state::HostPortError,
                >((authority.deep_view().host, authority.port as nat)),
                None => endpoint::origin_of(self.deep_view().endpoint) is Err,
            },
    {
        endpoint::origin_authority(&self.endpoint)
    }
}

// ---------------------------------------------------------------------------
// The tunnels of a connector
// ---------------------------------------------------------------------------
/// Whether one of the advertisements is named `name`.
pub open spec fn is_advertised(ads: Seq<ConnectorAdvertisementModel>, name: Seq<char>) -> bool {
    exists|i: int| 0 <= i < ads.len() && (#[trigger] ads[i]).metadata.name == Some(name)
}

/// The tunnel behind `proxy`, if it has a name and goes to the connector.
pub open spec fn tunnel_of(
    proxy: HTTPProxyModel,
    connector_name: Seq<char>,
    ads: Seq<ConnectorAdvertisementModel>,
) -> Option<TunnelSummaryModel> {
    match proxy.metadata.name {
        Some(name) => if resources::uses_connector(proxy, connector_name) {
            Some(
                summary_with(
                    proxy,
                    name,
                    label_of(proxy, name),
                    endpoint_of(proxy),
                    is_advertised(ads, name),
                ),
            )
        } else {
            None
        },
        None => None,
    }
}

/// The tunnels of a connector: those of the proxies that go to it, in order.
pub open spec fn tunnels_of(
    proxies: Seq<HTTPProxyModel>,
    connector_name: Seq<char>,
    ads: Seq<ConnectorAdvertisementModel>,
) -> Seq<TunnelSummaryModel>
    decreases proxies.len(),
{
    if proxies.len() == 0 {
        Seq::empty()
    } else {
        let before = tunnels_of(proxies.drop_last(), connector_name, ads);
        match tunnel_of(proxies.last(), connector_name, ads) {
            Some(tunnel) => before.push(tunnel),
            None => before,
        }
    }
}

fn advertised(ads: &Vec<ConnectorAdvertisement>, name: &str) -> (r: bool)
    ensures
        r == is_advertised(ads.deep_view(), name@),
{
    let ghost all = ads.deep_view();
    let mut i: usize = 0;
    while i < ads.len()
        invariant
            i <= ads@.len(),
            all == ads.deep_view(),
            forall|j: int| 0 <= j < i ==> (#[trigger] all[j]).metadata.name != Some(name@),
        decreases ads@.len() - i,
    {
        assert(all[i as int] == ads@[i as int].deep_view());
        if let Some(ad_name) = &ads[i].metadata.name {
            if text::text_eq(ad_name, name) {
                assert(all[i as int].metadata.name == Some(name@));
                return true;
            }
        }
        i = i + 1;
    }
    false
}

/// The tunnels of a connector.
pub fn list_tunnels(
    proxies: &Vec<HTTPProxy>,
    connector_name: &str,
    ads: &Vec<ConnectorAdvertisement>,
) -> (r: Vec<TunnelSummary>)
    ensures
        r.deep_view() == tunnels_of(proxies.deep_view(), connector_name@, ads.deep_view()),
{
    let ghost all = proxies.deep_view();
    let mut out: Vec<TunnelSummary> = Vec::new();
    let mut i: usize = 0;
    assert(all.take(0) =~= Seq::<HTTPProxyModel>::empty());
    assert(out.deep_view() =~= Seq::<TunnelSummaryModel>::empty());
    while i < proxies.len()
        invariant
            i <= proxies@.len(),
            all == proxies.deep_view(),
            out.deep_view() == tunnels_of(all.take(i as int), connector_name@, ads.deep_view()),
        decreases proxies@.len() - i,
    {
        let proxy = &proxies[i];
        let ghost before = out.deep_view();
        proof {
            assert(all[i as int] == proxy.deep_view());
            assert(all.take(i + 1).drop_last() =~= all.take(i as int));
            assert(all.take(i + 1).last() == all[i as int]);
        }
        if let Some(name) = &proxy.metadata.name {
            if resources::proxy_uses_connector(proxy, connector_name) {
                let tunnel = build_summary(
                    proxy,
                    name.clone(),
                    proxy_label(proxy, name),
                    proxy_endpoint(proxy),
                    advertised(ads, name),
                );
                out.push(tunnel);
                assert(out.deep_view() =~= before.push(tunnel.deep_view()));
            }
        }
        i = i + 1;
    }
    assert(all.take(all.len() as int) =~= all);
    out
}

pub proof fn lemma_tunnels_of_contains(
    proxies: Seq<HTTPProxyModel>,
    connector_name: Seq<char>,
    ads: Seq<ConnectorAdvertisementModel>,
    tunnel: TunnelSummaryModel,
)
    ensures
        tunnels_of(proxies, connector_name, ads).contains(tunnel) <==> exists|i: int|
            0 <= i < proxies.len() && tunnel_of(#[trigger] proxies[i], connector_name, ads) == Some(
                tunnel,
            ),
    decreases proxies.len(),
{
    if proxies.len() > 0 {
        let rest = proxies.drop_last();
        let before = tunnels_of(rest, connector_name, ads);
        let all = tunnels_of(proxies, connector_name, ads);
        lemma_tunnels_of_contains(rest, connector_name, ads, tunnel);
        if all.contains(tunnel) {
            let k = choose|k: int| 0 <= k < all.len() && all[k] == tunnel;
            if k < before.len() {
                assert(before[k] == tunnel);
                let i = choose|i: int|
                    0 <= i < rest.len() && tunnel_of(#[trigger] rest[i], connector_name, ads)
                        == Some(tunnel);
                assert(proxies[i] == rest[i]);
            } else {
                assert(tunnel_of(proxies[proxies.len() - 1], connector_name, ads) == Some(tunnel));
            }
        }
        if exists|i: int|
            0 <= i < proxies.len() && tunnel_of(#[trigger] proxies[i], connector_name, ads) == Some(
                tunnel,
            ) {
            let i = choose|i: int|
                0 <= i < proxies.len() && tunnel_of(#[trigger] proxies[i], connector_name, ads)
                    == Some(tunnel);
            if i < rest.len() {
                assert(rest[i] == proxies[i]);
                let k = choose|k: int| 0 <= k < before.len() && before[k] == tunnel;
                assert(all[k] == tunnel);
            } else {
                assert(all[all.len() - 1] == tunnel);
            }
        }
    }
}

/// A tunnel is listed exactly when a proxy with a name goes to the connector,
/// and it is shown as enabled exactly when an advertisement has its name.
pub proof fn listed_tunnels_are_those_of_the_connector(
    proxies: Seq<HTTPProxyModel>,
    connector_name: Seq<char>,
    ads: Seq<ConnectorAdvertisementModel>,
    id: Seq<char>,
)
    ensures
        (exists|k: int|
            0 <= k < tunnels_of(proxies, connector_name, ads).len() && (#[trigger] tunnels_of(
                proxies,
                connector_name,
                ads,
            )[k]).id == id) <==> (exists|i: int|
            0 <= i < proxies.len() && (#[trigger] proxies[i]).metadata.name == Some(id)
                && resources::uses_connector(proxies[i], connector_name)),
        forall|k: int|
            0 <= k < tunnels_of(proxies, connector_name, ads).len() ==> {
                let t = #[trigger] tunnels_of(proxies, connector_name, ads)[k];
                t.enabled <==> is_advertised(ads, t.id)
            },
{
    let all = tunnels_of(proxies, connector_name, ads);
    assert forall|k: int| 0 <= k < all.len() implies {
        let t = #[trigger] all[k];
        &&& (t.enabled <==> is_advertised(ads, t.id))
        &&& exists|i: int|
            0 <= i < proxies.len() && (#[trigger] proxies[i]).metadata.name == Some(t.id)
                && resources::uses_connector(proxies[i], connector_name)
    } by {
        let t = all[k];
        assert(all.contains(t));
        lemma_tunnels_of_contains(proxies, connector_name, ads, t);
        let i = choose|i: int|
            0 <= i < proxies.len() && tunnel_of(#[trigger] proxies[i], connector_name, ads) == Some(
                t,
            );
        assert(proxies[i].metadata.name == Some(t.id));
    }
    if exists|i: int|
        0 <= i < proxies.len() && (#[trigger] proxies[i]).metadata.name == Some(id)
            && resources::uses_connector(proxies[i], connector_name) {
        let i = choose|i: int|
            0 <= i < proxies.len() && (#[trigger] proxies[i]).metadata.name == Some(id)
                && resources::uses_connector(proxies[i], connector_name);
        let t = tunnel_of(proxies[i], connector_name, ads)->0;
        lemma_tunnels_of_contains(proxies, connector_name, ads, t);
        assert(all.contains(t));
        let k = choose|k: int| 0 <= k < all.len() && all[k] == t;
        assert(all[k].id == id);
    }
}

/// The index of the first tunnel from index `i` on with this ID.
pub open spec fn find_id_from(tunnels: Seq<TunnelSummaryModel>, id: Seq<char>, i: int) -> Option<int>
    decreases tunnels.len() - i,
{
    if i < 0 || i >= tunnels.len() {
        None
    } else if tunnels[i].id == id {
        Some(i)
    } else {
        find_id_from(tunnels, id, i + 1)
    }
}

/// The index of the first tunnel from index `i` on with this endpoint.
pub open spec fn find_endpoint_from(tunnels: Seq<TunnelSummaryModel>, endpoint: Seq<char>, i: int) -> Option<
    int,
>
    decreases tunnels.len() - i,
{
    if i < 0 || i >= tunnels.len() {
        None
    } else if tunnels[i].endpoint == endpoint {
        Some(i)
    } else {
        find_endpoint_from(tunnels, endpoint, i + 1)
    }
}

/// The index of the tunnel `id` in a list.
pub fn find_tunnel(tunnels: &Vec<TunnelSummary>, id: &str) -> (r: Option<usize>)
    ensures
        match r {
            Some(i) => i < tunnels@.len() && find_id_from(tunnels.deep_view(), id@, 0) == Some(
                i as int,
            ),
            None => find_id_from(tunnels.deep_view(), id@, 0) is None,
        },
{
    let mut i: usize = 0;
    while i < tunnels.len()
        invariant
            i <= tunnels@.len(),
            find_id_from(tunnels.deep_view(), id@, i as int) == find_id_from(
                tunnels.deep_view(),
                id@,
                0,
            ),
        decreases tunnels@.len() - i,
    {
        if text::text_eq(&tunnels[i].id, id) {
            return Some(i);
        }
        i = i + 1;
    }
    None
}

/// The index of the tunnel to `endpoint`, in whatever form it is written.
pub fn find_tunnel_by_endpoint(tunnels: &Vec<TunnelSummary>, endpoint: &str) -> (r: Option<usize>)
    ensures
        match r {
            Some(i) => i < tunnels@.len() && find_endpoint_from(
                tunnels.deep_view(),
                endpoint::normalized(endpoint@),
                0,
            ) == Some(i as int),
            None => find_endpoint_from(tunnels.deep_view(), endpoint::normalized(endpoint@), 0) is None,
        },
{
    let wanted = endpoint::normalize_endpoint(endpoint);
    let mut i: usize = 0;
    while i < tunnels.len()
        invariant
            i <= tunnels@.len(),
            wanted@ == endpoint::normalized(endpoint@),
            find_endpoint_from(tunnels.deep_view(), wanted@, i as int) == find_endpoint_from(
                tunnels.deep_view(),
                wanted@,
                0,
            ),
        decreases tunnels@.len() - i,
    {
        if text::text_eq(&tunnels[i].endpoint, &wanted) {
            return Some(i);
        }
        i = i + 1;
    }
    None
}

// ---------------------------------------------------------------------------
// The operations
// ---------------------------------------------------------------------------
/// How far listing the tunnels of this device is: what it waits for.
#[derive(Debug, Clone, PartialEq, Eq)]
pub enum ListTunnels {
    /// The connectors that have the endpoint of this device.
    Searching,
    /// The HTTPProxies.
    Listing { connector_name: String },
    /// The advertisements of the connector.
    Advertised { connector_name: String, proxies: Vec<HTTPProxy> },
}

/// The model of a [`ListTunnels`].
#[verifier::ext_equal]
pub enum ListTunnelsModel {
    Searching,
    Listing { connector_name: Seq<char> },
    Advertised { connector_name: Seq<char>, proxies: Seq<HTTPProxyModel> },
}

impl DeepView for ListTunnels {
    type V = ListTunnelsModel;

    open spec fn deep_view(&self) -> ListTunnelsModel {
        match self {
            ListTunnels::Searching => ListTunnelsModel::Searching,
            ListTunnels::Listing { connector_name } => ListTunnelsModel::Listing {
                connector_name: connector_name.deep_view(),
            },
            ListTunnels::Advertised { connector_name, proxies } => ListTunnelsModel::Advertised {
                connector_name: connector_name.deep_view(),
                proxies: proxies.deep_view(),
            },
        }
    }
}

/// The selector of the advertisements of a connector.
pub open spec fn advertisement_selector(connector_name: Seq<char>) -> Seq<char> {
    ADVERTISEMENT_CONNECTOR_FIELD@ + "="@ + connector_name
}

/// The selector of the advertisements of a connector.
pub fn select_advertisements(connector_name: &str) -> (r: String)
    ensures
        r@ == advertisement_selector(connector_name@),
{
    text::concat3(ADVERTISEMENT_CONNECTOR_FIELD, "=", connector_name)
}

/// What listing does when a reply comes. A device without a connector has no
/// tunnels; of several connectors the first counts.
pub open spec fn list_step(state: ListTunnelsModel, reply: PlaneReplyModel) -> StepModel<
    ListTunnelsModel,
    Seq<TunnelSummaryModel>,
> {
    match (state, reply) {
        (ListTunnelsModel::Searching, PlaneReplyModel::Connectors { items }) => {
            if items.len() == 0 {
                StepModel::Finished { outcome: Seq::empty() }
            } else {
                StepModel::Next {
                    state: ListTunnelsModel::Listing { connector_name: items[0].metadata.name_any() },
                    request: PlaneRequestModel::ListProxies,
                }
            }
        },
        (ListTunnelsModel::Searching, PlaneReplyModel::Failed { error }) => StepModel::Failed {
            error: ServiceErrorModel::because("Failed to list connectors"@, error),
        },
        (
            ListTunnelsModel::Listing { connector_name },
            PlaneReplyModel::Proxies { items },
        ) => StepModel::Next {
            state: ListTunnelsModel::Advertised { connector_name, proxies: items },
            request: PlaneRequestModel::ListAdvertisements {
                selector: advertisement_selector(connector_name),
            },
        },
        (ListTunnelsModel::Listing { .. }, PlaneReplyModel::Failed { error }) => StepModel::Failed {
            error: ServiceErrorModel::because("Failed to list HTTPProxy objects"@, error),
        },
        (
            ListTunnelsModel::Advertised { connector_name, proxies },
            PlaneReplyModel::Advertisements { items },
        ) => StepModel::Finished { outcome: tunnels_of(proxies, connector_name, items) },
        (
            ListTunnelsModel::Advertised { .. },
            PlaneReplyModel::Failed { error },
        ) => StepModel::Failed {
            error: ServiceErrorModel::because(
                "Failed to list ConnectorAdvertisement objects"@,
                error,
            ),
        },
        _ => StepModel::Failed { error: ServiceErrorModel::unexpected_reply() },
    }
}

impl ListTunnels {
    /// Starts listing the tunnels of the device with this endpoint.
    pub fn start(endpoint_id: &str) -> (r: (ListTunnels, PlaneRequest))
        ensures
            r.0.deep_view() == ListTunnelsModel::Searching,
            r.1.deep_view() == (PlaneRequestModel::ListConnectors {
                selector: Some(connector_search::endpoint_selector(endpoint_id@)),
            }),
    {
        (
            ListTunnels::Searching,
            PlaneRequest::ListConnectors {
                selector: Some(text::concat3(CONNECTOR_SELECTOR_FIELD, "=", endpoint_id)),
            },
        )
    }

    /// Starts listing in the selected context. Where none is selected, there are
    /// no tunnels.
    pub fn start_active(selected: Option<&SelectedContext>, endpoint_id: &str) -> (r: Step<
        ListTunnels,
        Vec<TunnelSummary>,
    >)
        ensures
            r.deep_view() == (if selected is Some {
                StepModel::Next {
                    state: ListTunnelsModel::Searching,
                    request: PlaneRequestModel::ListConnectors {
                        selector: Some(connector_search::endpoint_selector(endpoint_id@)),
                    },
                }
            } else {
                StepModel::Finished { outcome: Seq::<TunnelSummaryModel>::empty() }
            }),
    {
        if selected.is_some() {
            let (state, request) = ListTunnels::start(endpoint_id);
            Step::Next { state, request }
        } else {
            let outcome: Vec<TunnelSummary> = Vec::new();
            assert(outcome.deep_view() =~= Seq::empty());
            Step::Finished { outcome }
        }
    }

    /// Goes on with listing when a reply comes.
    pub fn step(self, reply: PlaneReply) -> (r: Step<ListTunnels, Vec<TunnelSummary>>)
        ensures
            r.deep_view() == list_step(self.deep_view(), reply.deep_view()),
    {
        match (self, reply) {
            (ListTunnels::Searching, PlaneReply::Connectors { items }) => {
                if items.len() == 0 {
                    let outcome: Vec<TunnelSummary> = Vec::new();
                    assert(outcome.deep_view() =~= Seq::<TunnelSummaryModel>::empty());
                    Step::Finished { outcome }
                } else {
                    Step::Next {
                        state: ListTunnels::Listing { connector_name: items[0].metadata.name_any() },
                        request: PlaneRequest::ListProxies,
                    }
                }
            },
            (ListTunnels::Searching, PlaneReply::Failed { error }) => Step::Failed {
                error: ServiceError::because("Failed to list connectors", error),
            },
            (ListTunnels::Listing { connector_name }, PlaneReply::Proxies { items }) => {
                let selector = select_advertisements(&connector_name);
                Step::Next {
                    state: ListTunnels::Advertised { connector_name, proxies: items },
                    request: PlaneRequest::ListAdvertisements { selector },
                }
            },
            (ListTunnels::Listing { .. }, PlaneReply::Failed { error }) => Step::Failed {
                error: ServiceError::because("Failed to list HTTPProxy objects", error),
            },
            (
                ListTunnels::Advertised { connector_name, proxies },
                PlaneReply::Advertisements { items },
            ) => Step::Finished { outcome: list_tunnels(&proxies, &connector_name, &items) },
            (ListTunnels::Advertised { .. }, PlaneReply::Failed { error }) => Step::Failed {
                error: ServiceError::because(
                    "Failed to list ConnectorAdvertisement objects",
                    error,
                ),
            },
            _ => Step::Failed { error: ServiceError::unexpected_reply() },
        }
    }
}

/// How far reading the progress of a tunnel is: what it waits for.
#[derive(Debug, Clone, PartialEq, Eq)]
pub enum ReadProgress {
    /// The HTTPProxy of the tunnel.
    Proxy,
    /// The connector that the HTTPProxy goes to.
    ItsConnector { proxy: HTTPProxy },
}

/// The model of a [`ReadProgress`].
#[verifier::ext_equal]
pub enum ReadProgressModel {
    Proxy,
    ItsConnector { proxy: HTTPProxyModel },
}

impl DeepView for ReadProgress {
    type V = ReadProgressModel;

    open spec fn deep_view(&self) -> ReadProgressModel {
        match self {
            ReadProgress::Proxy => ReadProgressModel::Proxy,
            ReadProgress::ItsConnector { proxy } => ReadProgressModel::ItsConnector {
                proxy: proxy.deep_view(),
            },
        }
    }
}

/// What reading the progress of a tunnel does when a reply comes. A tunnel that
/// does not exist has no progress.
pub open spec fn read_progress_step(state: ReadProgressModel, reply: PlaneReplyModel) -> StepModel<
    ReadProgressModel,
    Option<TunnelProgressModel>,
> {
    match (state, reply) {
        (ReadProgressModel::Proxy, PlaneReplyModel::MaybeProxy { proxy }) => match proxy {
            None => StepModel::Finished { outcome: None },
            Some(proxy) => match resources::connector_in_rules(proxy.spec.rules, 0) {
                Some(name) => StepModel::Next {
                    state: ReadProgressModel::ItsConnector { proxy },
                    request: PlaneRequestModel::FindConnector { name },
                },
                None => StepModel::Finished { outcome: Some(progress::progress_of(proxy, None)) },
            },
        },
        (ReadProgressModel::Proxy, PlaneReplyModel::Failed { error }) => StepModel::Failed {
            error: ServiceErrorModel::because("Failed to fetch HTTPProxy"@, error),
        },
        (
            ReadProgressModel::ItsConnector { proxy },
            PlaneReplyModel::MaybeConnector { connector },
        ) => StepModel::Finished { outcome: Some(progress::progress_of(proxy, connector)) },
        (
            ReadProgressModel::ItsConnector { .. },
            PlaneReplyModel::Failed { error },
        ) => StepModel::Failed {
            error: ServiceErrorModel::because("Failed to fetch Connector"@, error),
        },
        _ => StepModel::Failed { error: ServiceErrorModel::unexpected_reply() },
    }
}

impl ReadProgress {
    /// Starts reading the progress of the tunnel `tunnel_id`.
    pub fn start(tunnel_id: &str) -> (r: (ReadProgress, PlaneRequest))
        ensures
            r.0.deep_view() == ReadProgressModel::Proxy,
            r.1.deep_view() == (PlaneRequestModel::FindProxy { name: tunnel_id@ }),
    {
        (ReadProgress::Proxy, PlaneRequest::FindProxy { name: tunnel_id.to_owned() })
    }

    /// Starts reading in the selected context. Where none is selected, there is no
    /// such tunnel.
    pub fn start_active(selected: Option<&SelectedContext>, tunnel_id: &str) -> (r: Step<
        ReadProgress,
        Option<TunnelProgress>,
    >)
        ensures
            r.deep_view() == (if selected is Some {
                StepModel::Next {
                    state: ReadProgressModel::Proxy,
                    request: PlaneRequestModel::FindProxy { name: tunnel_id@ },
                }
            } else {
                StepModel::Finished { outcome: None::<TunnelProgressModel> }
            }),
    {
        if selected.is_some() {
            let (state, request) = ReadProgress::start(tunnel_id);
            Step::Next { state, request }
        } else {
            Step::Finished { outcome: None }
        }
    }

    /// Goes on with reading when a reply comes.
    pub fn step(self, reply: PlaneReply) -> (r: Step<ReadProgress, Option<TunnelProgress>>)
        ensures
            r.deep_view() == read_progress_step(self.deep_view(), reply.deep_view()),
    {
        match (self, reply) {
            (ReadProgress::Proxy, PlaneReply::MaybeProxy { proxy }) => match proxy {
                None => Step::Finished { outcome: None },
                Some(proxy) => match resources::proxy_connector_name(&proxy) {
                    Some(name) => Step::Next {
                        state: ReadProgress::ItsConnector { proxy },
                        request: PlaneRequest::FindConnector { name },
                    },
                    None => Step::Finished {
                        outcome: Some(TunnelProgress::from_resources(&proxy, None)),
                    },
                },
            },
            (ReadProgress::Proxy, PlaneReply::Failed { error }) => Step::Failed {
                error: ServiceError::because("Failed to fetch HTTPProxy", error),
            },
            (ReadProgress::ItsConnector { proxy }, PlaneReply::MaybeConnector { connector }) => {
                Step::Finished {
                    outcome: Some(TunnelProgress::from_resources(&proxy, connector.as_ref())),
                }
            },
            (ReadProgress::ItsConnector { .. }, PlaneReply::Failed { error }) => Step::Failed {
                error: ServiceError::because("Failed to fetch Connector", error),
            },
            _ => Step::Failed { error: ServiceError::unexpected_reply() },
        }
    }
}

} // verus!
