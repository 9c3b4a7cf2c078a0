//! A model of the control plane of a project, and what the search for the
//! connector of this device does to it.
use vstd::prelude::*;

use crate::datum_apis::connector::{
    ConnectorConnectionDetailsModel, ConnectorModel, ConnectorStatusModel,
};
use crate::datum_apis::connector_advertisement::{
    ConnectorAdvertisementModel, ConnectorAdvertisementSpecModel,
};
use crate::datum_apis::http_proxy::HTTPProxyModel;
use crate::tunnels::connector_search;
use crate::tunnels::connector_search::{ConnectorSearchModel, SearchContextModel};
use crate::tunnels::listing;
use crate::tunnels::requests::{PlaneReplyModel, PlaneRequestModel, StepModel};
use crate::tunnels::resources;
use crate::tunnels::resources::EndpointInfoModel;

verus! {

/// The resources of a project, by name, and the endpoint of this device.
#[verifier::ext_equal]
pub struct Plane {
    pub connectors: Map<Seq<char>, ConnectorModel>,
    pub proxies: Map<Seq<char>, HTTPProxyModel>,
    pub ads: Map<Seq<char>, ConnectorAdvertisementSpecModel>,
    pub policies: Set<Seq<char>>,
    pub endpoint: EndpointInfoModel,
}

impl Plane {
    /// Every resource is kept under its own name.
    pub open spec fn well_formed(self) -> bool {
        &&& forall|name: Seq<char>|
            #[trigger] self.connectors.contains_key(name)
                ==> self.connectors[name].metadata.name == Some(name)
        &&& forall|name: Seq<char>|
            #[trigger] self.proxies.contains_key(name) ==> self.proxies[name].metadata.name == Some(
                name,
            )
    }

    /// Whether nothing but the content of connectors differs from `other`.
    pub open spec fn same_but_connectors(self, other: Plane) -> bool {
        &&& self.proxies == other.proxies
        &&& self.ads == other.ads
        &&& self.policies == other.policies
        &&& self.endpoint == other.endpoint
    }
}

/// `items` are the connectors of `all` that have the endpoint `id`, or all of
/// them where no endpoint is given, each once.
pub open spec fn lists_connectors(
    items: Seq<ConnectorModel>,
    all: Map<Seq<char>, ConnectorModel>,
    id: Option<Seq<char>>,
) -> bool {
    &&& forall|i: int, j: int|
        0 <= i < j < items.len() ==> (#[trigger] items[i]).metadata.name != (
        #[trigger] items[j]).metadata.name
    &&& forall|i: int|
        0 <= i < items.len() ==> {
            let item = #[trigger] items[i];
            &&& item.metadata.name is Some
            &&& all.contains_key(item.metadata.name->0)
            &&& all[item.metadata.name->0] == item
            &&& id is Some ==> resources::connector_endpoint_id(item) == id
        }
    &&& forall|name: Seq<char>|
        #[trigger] all.contains_key(name) && (id is Some ==> resources::connector_endpoint_id(
            all[name],
        ) == id) ==> items.contains(all[name])
}

/// `items` are all HTTPProxies of `all`.
pub open spec fn lists_proxies(
    items: Seq<HTTPProxyModel>,
    all: Map<Seq<char>, HTTPProxyModel>,
) -> bool {
    &&& forall|i: int|
        0 <= i < items.len() ==> {
            let item = #[trigger] items[i];
            &&& item.metadata.name is Some
            &&& all.contains_key(item.metadata.name->0)
            &&& all[item.metadata.name->0] == item
        }
    &&& forall|name: Seq<char>| #[trigger] all.contains_key(name) ==> items.contains(all[name])
}

/// `items` are the advertisements of `all` that belong to the connector, each
/// once.
pub open spec fn lists_advertisements(
    items: Seq<ConnectorAdvertisementModel>,
    all: Map<Seq<char>, ConnectorAdvertisementSpecModel>,
    connector: Seq<char>,
) -> bool {
    &&& forall|i: int, j: int|
        0 <= i < j < items.len() ==> (#[trigger] items[i]).metadata.name != (
        #[trigger] items[j]).metadata.name
    &&& forall|i: int|
        0 <= i < items.len() ==> {
            let item = #[trigger] items[i];
            &&& item.metadata.name is Some
            &&& all.contains_key(item.metadata.name->0)
            &&& all[item.metadata.name->0] == item.spec
            &&& item.spec.connector_ref.name == connector
        }
    &&& forall|name: Seq<char>|
        #[trigger] all.contains_key(name) && all[name].connector_ref.name == connector
            ==> listing::is_advertised(items, name)
}

/// The connector after it was told how it is reached.
pub open spec fn told(
    connector: ConnectorModel,
    details: ConnectorConnectionDetailsModel,
) -> ConnectorModel {
    ConnectorModel {
        status: Some(
            ConnectorStatusModel {
                conditions: resources::connector_conditions(connector),
                connection_details: Some(details),
            },
        ),
        ..connector
    }
}

/// The connector after its annotations were set: only they differ, and they
/// have the values that were set.
pub open spec fn annotated(
    before: ConnectorModel,
    annotations: Seq<(Seq<char>, Seq<char>)>,
    after: ConnectorModel,
) -> bool {
    &&& after.metadata.name == before.metadata.name
    &&& after.spec == before.spec
    &&& after.status == before.status
    &&& !resources::annotations_differ(annotations, after.metadata)
}

/// What a control plane without faults may reply to a request, and what it is
/// after that. New objects get a name of their own; requests for this device
/// leave the project as it is.
pub open spec fn answers(
    plane: Plane,
    request: PlaneRequestModel,
    reply: PlaneReplyModel,
    after: Plane,
) -> bool {
    match request {
        PlaneRequestModel::ListConnectors { selector } => {
            &&& after == plane
            &&& reply matches PlaneReplyModel::Connectors { items } && (match selector {
                None => lists_connectors(items, plane.connectors, None),
                Some(selector) => forall|id: Seq<char>|
                    selector == #[trigger] connector_search::endpoint_selector(id)
                        ==> lists_connectors(items, plane.connectors, Some(id)),
            })
        },
        PlaneRequestModel::GetConnector { name } => {
            &&& after == plane
            &&& if plane.connectors.contains_key(name) {
                reply == (PlaneReplyModel::Connector { connector: plane.connectors[name] })
            } else {
                reply is Failed
            }
        },
        PlaneRequestModel::FindConnector { name } => {
            &&& after == plane
            &&& reply == (PlaneReplyModel::MaybeConnector {
                connector: if plane.connectors.contains_key(name) {
                    Some(plane.connectors[name])
                } else {
                    None
                },
            })
        },
        PlaneRequestModel::HasConnector { name } => {
            &&& after == plane
            &&& reply == (PlaneReplyModel::Exists { found: plane.connectors.contains_key(name) })
        },
        PlaneRequestModel::CreateConnector { connector } => {
            reply matches PlaneReplyModel::Connector { connector: made } && {
                &&& made.metadata.name is Some
                &&& !plane.connectors.contains_key(made.metadata.name->0)
                &&& made.metadata.annotations == connector.metadata.annotations
                &&& made.spec == connector.spec
                &&& after == Plane {
                    connectors: plane.connectors.insert(made.metadata.name->0, made),
                    ..plane
                }
            }
        },
        PlaneRequestModel::PatchConnectorDetails { name, details } => {
            if plane.connectors.contains_key(name) {
                &&& reply == PlaneReplyModel::Done
                &&& after == Plane {
                    connectors: plane.connectors.insert(
                        name,
                        told(plane.connectors[name], details),
                    ),
                    ..plane
                }
            } else {
                reply is Failed && after == plane
            }
        },
        PlaneRequestModel::PatchConnectorAnnotations { name, annotations } => {
            if plane.connectors.contains_key(name) {
                reply matches PlaneReplyModel::Connector { connector } && {
                    &&& annotated(plane.connectors[name], annotations, connector)
                    &&& after == Plane {
                        connectors: plane.connectors.insert(name, connector),
                        ..plane
                    }
                }
            } else {
                reply is Failed && after == plane
            }
        },
        PlaneRequestModel::DeleteConnector { name } => {
            if plane.connectors.contains_key(name) {
                &&& reply == PlaneReplyModel::Done
                &&& after == Plane { connectors: plane.connectors.remove(name), ..plane }
            } else {
                reply is Failed && after == plane
            }
        },
        PlaneRequestModel::ListProxies => {
            &&& after == plane
            &&& reply matches PlaneReplyModel::Proxies { items } && lists_proxies(
                items,
                plane.proxies,
            )
        },
        PlaneRequestModel::GetProxy { name } => {
            &&& after == plane
            &&& if plane.proxies.contains_key(name) {
                reply == (PlaneReplyModel::Proxy { proxy: plane.proxies[name] })
            } else {
                reply is Failed
            }
        },
        PlaneRequestModel::FindProxy { name } => {
            &&& after == plane
            &&& reply == (PlaneReplyModel::MaybeProxy {
                proxy: if plane.proxies.contains_key(name) {
                    Some(plane.proxies[name])
                } else {
                    None
                },
            })
        },
        PlaneRequestModel::HasProxy { name } => {
            &&& after == plane
            &&& reply == (PlaneReplyModel::Exists { found: plane.proxies.contains_key(name) })
        },
        PlaneRequestModel::CreateProxy { proxy } => {
            reply matches PlaneReplyModel::Proxy { proxy: made } && {
                &&& made.metadata.name is Some
                &&& !plane.proxies.contains_key(made.metadata.name->0)
                &&& made.metadata.annotations == proxy.metadata.annotations
                &&& made.spec == proxy.spec
                &&& after == Plane {
                    proxies: plane.proxies.insert(made.metadata.name->0, made),
                    ..plane
                }
            }
        },
        PlaneRequestModel::PatchProxy { name, label, hostnames, rules } => {
            if plane.proxies.contains_key(name) {
                &&& reply == PlaneReplyModel::Done
                &&& after == Plane {
                    proxies: plane.proxies.insert(name, after.proxies[name]),
                    ..plane
                }
                &&& after.proxies[name].metadata.name == plane.proxies[name].metadata.name
                &&& after.proxies[name].metadata.annotation(resources::DISPLAY_NAME_ANNOTATION@)
                    == Some(label)
                &&& after.proxies[name].spec.hostnames == Some(hostnames)
                &&& after.proxies[name].spec.rules == rules
            } else {
                reply is Failed && after == plane
            }
        },
        PlaneRequestModel::DeleteProxy { name } => {
            if plane.proxies.contains_key(name) {
                &&& reply == PlaneReplyModel::Done
                &&& after == Plane { proxies: plane.proxies.remove(name), ..plane }
            } else {
                reply is Failed && after == plane
            }
        },
        PlaneRequestModel::ListAdvertisements { selector } => {
            &&& after == plane
            &&& reply matches PlaneReplyModel::Advertisements { items } && forall|
                connector: Seq<char>,
            |
                selector == #[trigger] listing::advertisement_selector(connector)
                    ==> lists_advertisements(items, plane.ads, connector)
        },
        PlaneRequestModel::HasAdvertisement { name } => {
            &&& after == plane
            &&& reply == (PlaneReplyModel::Exists { found: plane.ads.contains_key(name) })
        },
        PlaneRequestModel::CreateAdvertisement { advertisement } => {
            let name = advertisement.metadata.name_any();
            if plane.ads.contains_key(name) {
                reply is Failed && after == plane
            } else {
                &&& reply == PlaneReplyModel::Done
                &&& after == Plane { ads: plane.ads.insert(name, advertisement.spec), ..plane }
            }
        },
        PlaneRequestModel::PatchAdvertisement { name, spec } => {
            if plane.ads.contains_key(name) {
                &&& reply == PlaneReplyModel::Done
                &&& after == Plane { ads: plane.ads.insert(name, spec), ..plane }
            } else {
                reply is Failed && after == plane
            }
        },
        PlaneRequestModel::DeleteAdvertisement { name } => {
            if plane.ads.contains_key(name) {
                &&& reply == PlaneReplyModel::Done
                &&& after == Plane { ads: plane.ads.remove(name), ..plane }
            } else {
                reply is Failed && after == plane
            }
        },
        PlaneRequestModel::HasPolicy { name } => {
            &&& after == plane
            &&& reply == (PlaneReplyModel::Exists { found: plane.policies.contains(name) })
        },
        PlaneRequestModel::CreatePolicy { policy } => {
            let name = policy.metadata.name_any();
            if plane.policies.contains(name) {
                reply is Failed && after == plane
            } else {
                &&& reply == PlaneReplyModel::Done
                &&& after == Plane { policies: plane.policies.insert(name), ..plane }
            }
        },
        PlaneRequestModel::DeletePolicy { name } => {
            if plane.policies.contains(name) {
                &&& reply == PlaneReplyModel::Done
                &&& after == Plane { policies: plane.policies.remove(name), ..plane }
            } else {
                reply is Failed && after == plane
            }
        },
        PlaneRequestModel::DescribeEndpoint => {
            &&& after == plane
            &&& reply == (PlaneReplyModel::Endpoint { endpoint: plane.endpoint })
        },
        PlaneRequestModel::PublishProxy { .. }
        | PlaneRequestModel::StoreProxy { .. }
        | PlaneRequestModel::UnpublishProxy { .. }
        | PlaneRequestModel::ForgetProxy { .. } => {
            &&& after == plane
            &&& reply == PlaneReplyModel::Done || reply is Failed
        },
    }
}

// ---------------------------------------------------------------------------
// The search for a connector
// ---------------------------------------------------------------------------
/// Whether every run of an operation from `step` on, with a control plane
/// without faults, ends within `fuel` replies, without a failure, and meets
/// `goal`. The operation is given by what it does in a state when a reply
/// comes.
pub open spec fn runs<S, T>(
    operation: spec_fn(S, PlaneReplyModel) -> StepModel<S, T>,
    step: StepModel<S, T>,
    plane: Plane,
    fuel: nat,
    goal: spec_fn(T, Plane) -> bool,
) -> bool
    decreases fuel,
{
    match step {
        StepModel::Finished { outcome } => goal(outcome, plane),
        StepModel::Failed { .. } => false,
        StepModel::Next { state, request } => fuel > 0 && forall|
            reply: PlaneReplyModel,
            after: Plane,
        |
            #[trigger] answers(plane, request, reply, after) ==> runs(
                operation,
                operation(state, reply),
                after,
                (fuel - 1) as nat,
                goal,
            ),
    }
}

/// A run that ends within `fuel` replies ends within any greater number.
pub proof fn lemma_runs_more<S, T>(
    operation: spec_fn(S, PlaneReplyModel) -> StepModel<S, T>,
    step: StepModel<S, T>,
    plane: Plane,
    fuel: nat,
    more: nat,
    goal: spec_fn(T, Plane) -> bool,
)
    requires
        runs(operation, step, plane, fuel, goal),
        fuel <= more,
    ensures
        runs(operation, step, plane, more, goal),
    decreases fuel,
{
    if let StepModel::Next { state, request } = step {
        assert forall|reply: PlaneReplyModel, after: Plane| #[trigger]
            answers(plane, request, reply, after) implies runs(
            operation,
            operation(state, reply),
            after,
            (more - 1) as nat,
            goal,
        ) by {
            lemma_runs_more(
                operation,
                operation(state, reply),
                after,
                (fuel - 1) as nat,
                (more - 1) as nat,
                goal,
            );
        }
    }
}

/// The step of an operation that begins with a search: `wrap` makes its states
/// while the search is going on, `then_do` is what it does with the outcome.
pub open spec fn chained<S, T>(
    step: StepModel<ConnectorSearchModel, Option<ConnectorModel>>,
    wrap: spec_fn(ConnectorSearchModel) -> S,
    then_do: spec_fn(Option<ConnectorModel>) -> StepModel<S, T>,
) -> StepModel<S, T> {
    match step {
        StepModel::Next { state, request } => StepModel::Next { state: wrap(state), request },
        StepModel::Finished { outcome } => then_do(outcome),
        StepModel::Failed { error } => StepModel::Failed { error },
    }
}

/// An operation that begins with a search runs as the search does and then as
/// it goes on with the outcome.
pub proof fn lemma_runs_chained<S, T>(
    cx: SearchContextModel,
    operation: spec_fn(S, PlaneReplyModel) -> StepModel<S, T>,
    wrap: spec_fn(ConnectorSearchModel) -> S,
    then_do: spec_fn(Option<ConnectorModel>) -> StepModel<S, T>,
    step: StepModel<ConnectorSearchModel, Option<ConnectorModel>>,
    plane: Plane,
    fuel: nat,
    rest: nat,
    between: spec_fn(Option<ConnectorModel>, Plane) -> bool,
    goal: spec_fn(T, Plane) -> bool,
)
    requires
        runs(search_operation(cx), step, plane, fuel, between),
        forall|state: ConnectorSearchModel, reply: PlaneReplyModel|
            #[trigger] operation(wrap(state), reply) == chained(
                connector_search::search_step(state, cx, reply),
                wrap,
                then_do,
            ),
        forall|outcome: Option<ConnectorModel>, after: Plane|
            between(outcome, after) ==> #[trigger] runs(
                operation,
                then_do(outcome),
                after,
                rest,
                goal,
            ),
    ensures
        runs(operation, chained(step, wrap, then_do), plane, fuel + rest, goal),
    decreases fuel,
{
    match step {
        StepModel::Finished { outcome } => {
            assert(between(outcome, plane));
            assert(runs(operation, then_do(outcome), plane, rest, goal));
            lemma_runs_more(operation, then_do(outcome), plane, rest, fuel + rest, goal);
        },
        StepModel::Failed { .. } => {},
        StepModel::Next { state, request } => {
            assert forall|reply: PlaneReplyModel, after: Plane| #[trigger]
                answers(plane, request, reply, after) implies runs(
                operation,
                operation(wrap(state), reply),
                after,
                (fuel + rest - 1) as nat,
                goal,
            ) by {
                let next = connector_search::search_step(state, cx, reply);
                assert(runs(
                    search_operation(cx),
                    search_operation(cx)(state, reply),
                    after,
                    (fuel - 1) as nat,
                    between,
                ));
                lemma_runs_chained(
                    cx,
                    operation,
                    wrap,
                    then_do,
                    next,
                    after,
                    (fuel - 1) as nat,
                    rest,
                    between,
                    goal,
                );
            }
        },
    }
}

/// The search for the connector of this device, as an operation.
pub open spec fn search_operation(cx: SearchContextModel) -> spec_fn(
    ConnectorSearchModel,
    PlaneReplyModel,
) -> StepModel<ConnectorSearchModel, Option<ConnectorModel>> {
    |state: ConnectorSearchModel, reply: PlaneReplyModel|
        connector_search::search_step(state, cx, reply)
}

/// Whether the connector `name` is one that this device takes as its own: it has
/// this device's endpoint, or no connector has and it is the only one.
pub open spec fn is_own_connector(cx: SearchContextModel, p: Plane, name: Seq<char>) -> bool {
    &&& p.connectors.contains_key(name)
    &&& {
        ||| resources::connector_endpoint_id(p.connectors[name]) == Some(cx.endpoint_id)
        ||| forall|n: Seq<char>| #[trigger]
            p.connectors.contains_key(n) ==> n == name && resources::connector_endpoint_id(
                p.connectors[n],
            ) != Some(cx.endpoint_id)
    }
}

/// Whether there is no connector that this device takes as its own.
pub open spec fn owns_none(cx: SearchContextModel, p: Plane) -> bool {
    forall|n: Seq<char>| #[trigger] p.connectors.contains_key(n) ==> !is_own_connector(cx, p, n)
}

/// Whether `name` is a connector that a search can give: one that this device
/// takes as its own, or a new one where there is none to take.
pub open spec fn is_given(cx: SearchContextModel, before: Plane, name: Seq<char>) -> bool {
    if before.connectors.contains_key(name) {
        is_own_connector(cx, before, name)
    } else {
        cx.ensure && owns_none(cx, before)
    }
}

/// What a search leaves behind: only connectors may have changed, none is
/// lost, a new one only comes where there was none to take and one is needed,
/// and the connector that it gives exists under its name.
pub open spec fn search_goal(cx: SearchContextModel, before: Plane) -> spec_fn(
    Option<ConnectorModel>,
    Plane,
) -> bool {
    |outcome: Option<ConnectorModel>, after: Plane|
        {
            &&& after.well_formed()
            &&& after.same_but_connectors(before)
            &&& before.connectors.dom().subset_of(after.connectors.dom())
            &&& !cx.ensure ==> after.connectors.dom() == before.connectors.dom()
            &&& outcome is None ==> !cx.ensure && after == before && owns_none(cx, before)
            &&& outcome matches Some(connector) ==> {
                &&& connector.metadata.name is Some
                &&& after.connectors.contains_key(connector.metadata.name->0)
                &&& is_given(cx, before, connector.metadata.name->0)
            }
        }
}

/// Whether the search has so far only changed connectors, and lost none.
spec fn search_keeps(cx: SearchContextModel, before: Plane, plane: Plane) -> bool {
    &&& plane.well_formed()
    &&& plane.same_but_connectors(before)
    &&& before.connectors.dom().subset_of(plane.connectors.dom())
    &&& !cx.ensure ==> plane.connectors.dom() == before.connectors.dom()
}

proof fn lemma_found_runs(
    cx: SearchContextModel,
    before: Plane,
    plane: Plane,
    connector: ConnectorModel,
)
    requires
        search_keeps(cx, before, plane),
        connector.metadata.name is Some,
        plane.connectors.contains_key(connector.metadata.name->0),
        is_given(cx, before, connector.metadata.name->0),
    ensures
        runs(
            search_operation(cx),
            connector_search::when_found(cx, connector),
            plane,
            1,
            search_goal(cx, before),
        ),
{
    reveal_with_fuel(runs, 2);
    let goal = search_goal(cx, before);
    let name = connector.metadata.name->0;
    if let StepModel::Next { state, request } = connector_search::when_found(cx, connector) {
        assert forall|reply: PlaneReplyModel, after: Plane| #[trigger]
            answers(plane, request, reply, after) implies runs(
                search_operation(cx),
                connector_search::search_step(state, cx, reply),
                after,
                0,
                goal,
            ) by {
            assert(reply is Connector);
            assert(after.connectors.contains_key(name));
            assert(after.connectors.dom() =~= plane.connectors.dom());
        }
    }
}

proof fn lemma_telling_runs(
    cx: SearchContextModel,
    before: Plane,
    plane: Plane,
    connector: ConnectorModel,
    details: ConnectorConnectionDetailsModel,
)
    requires
        search_keeps(cx, before, plane),
        connector.metadata.name is Some,
        plane.connectors.contains_key(connector.metadata.name->0),
        is_given(cx, before, connector.metadata.name->0),
    ensures
        runs(search_operation(cx), StepModel::Next {
                state: ConnectorSearchModel::Telling { connector },
                request: PlaneRequestModel::PatchConnectorDetails {
                    name: connector.metadata.name_any(),
                    details,
                },
            }, plane, 3, search_goal(cx, before)),
{
    let goal = search_goal(cx, before);
    let name = connector.metadata.name->0;
    let request = PlaneRequestModel::PatchConnectorDetails {
        name: connector.metadata.name_any(),
        details,
    };
    assert forall|reply: PlaneReplyModel, after: Plane| #[trigger]
        answers(plane, request, reply, after) implies runs(
            search_operation(cx),
            connector_search::search_step(ConnectorSearchModel::Telling { connector }, cx, reply),
            after,
            2,
            goal,
        ) by {
        assert(after.connectors.contains_key(name));
        assert(after.connectors.dom() =~= plane.connectors.dom());
        let get = PlaneRequestModel::GetConnector { name };
        assert forall|reply2: PlaneReplyModel, after2: Plane| #[trigger]
            answers(after, get, reply2, after2) implies runs(
                search_operation(cx),
                connector_search::search_step(ConnectorSearchModel::Reloading, cx, reply2),
                after2,
                1,
                goal,
            ) by {
            lemma_found_runs(cx, before, after, after.connectors[name]);
        }
    }
}

proof fn lemma_describing_runs(
    cx: SearchContextModel,
    before: Plane,
    plane: Plane,
    connector: ConnectorModel,
)
    requires
        search_keeps(cx, before, plane),
        connector.metadata.name is Some,
        plane.connectors.contains_key(connector.metadata.name->0),
        is_given(cx, before, connector.metadata.name->0),
    ensures
        runs(search_operation(cx), StepModel::Next {
                state: ConnectorSearchModel::Describing { connector },
                request: PlaneRequestModel::DescribeEndpoint,
            }, plane, 4, search_goal(cx, before)),
{
    let goal = search_goal(cx, before);
    assert forall|reply: PlaneReplyModel, after: Plane| #[trigger]
        answers(plane, PlaneRequestModel::DescribeEndpoint, reply, after) implies runs(
            search_operation(cx),
            connector_search::search_step(ConnectorSearchModel::Describing { connector }, cx, reply),
            after,
            3,
            goal,
        ) by {
        match resources::connection_details_of(plane.endpoint) {
            Some(details) => {
                lemma_telling_runs(cx, before, plane, connector, details);
            },
            None => {
                lemma_found_runs(cx, before, plane, connector);
                lemma_runs_more(
                    search_operation(cx),
                    connector_search::when_found(cx, connector),
                    plane,
                    1,
                    3,
                    goal,
                );
            },
        }
    }
}

proof fn lemma_missing_runs(cx: SearchContextModel, before: Plane)
    requires
        before.well_formed(),
        owns_none(cx, before),
    ensures
        runs(
            search_operation(cx),
            connector_search::when_missing(cx),
            before,
            3,
            search_goal(cx, before),
        ),
{
    let goal = search_goal(cx, before);
    if let StepModel::Next { state, request } = connector_search::when_missing(cx) {
        assert forall|reply: PlaneReplyModel, after: Plane| #[trigger]
            answers(before, request, reply, after) implies runs(
                search_operation(cx),
                connector_search::search_step(state, cx, reply),
                after,
                2,
                goal,
            ) by {
            let made = reply->Connector_connector;
            let name = made.metadata.name->0;
            assert(search_keeps(cx, before, after));
            let next = ConnectorSearchModel::DescribingNew { connector: made };
            assert forall|reply2: PlaneReplyModel, after2: Plane| #[trigger]
                answers(after, PlaneRequestModel::DescribeEndpoint, reply2, after2) implies runs(
                    search_operation(cx),
                    connector_search::search_step(next, cx, reply2),
                    after2,
                    1,
                    goal,
                ) by {
                if let Some(details) = resources::connection_details_of(after.endpoint) {
                    let tell = PlaneRequestModel::PatchConnectorDetails { name, details };
                    let last = ConnectorSearchModel::TellingNew { connector: made };
                    assert forall|reply3: PlaneReplyModel, after3: Plane| #[trigger]
                        answers(after2, tell, reply3, after3) implies runs(
                            search_operation(cx),
                            connector_search::search_step(last, cx, reply3),
                            after3,
                            0,
                            goal,
                        ) by {
                        assert(after3.connectors.contains_key(name));
                    }
                }
            }
        }
    }
}

proof fn lemma_fallback_runs(cx: SearchContextModel, before: Plane)
    requires
        before.well_formed(),
        forall|n: Seq<char>| #[trigger]
            before.connectors.contains_key(n) ==> resources::connector_endpoint_id(
                before.connectors[n],
            ) != Some(cx.endpoint_id),
    ensures
        runs(search_operation(cx), StepModel::Next {
                state: ConnectorSearchModel::Fallback,
                request: PlaneRequestModel::ListConnectors { selector: None },
            }, before, 5, search_goal(cx, before)),
{
    let goal = search_goal(cx, before);
    let request = PlaneRequestModel::ListConnectors { selector: None };
    assert forall|reply: PlaneReplyModel, after: Plane| #[trigger]
        answers(before, request, reply, after) implies runs(
            search_operation(cx),
            connector_search::search_step(ConnectorSearchModel::Fallback, cx, reply),
            after,
            4,
            goal,
        ) by {
        let items = reply->Connectors_items;
        assert(lists_connectors(items, before.connectors, None));
        if items.len() != 1 {
            assert(owns_none(cx, before)) by {
                assert forall|n: Seq<char>| #[trigger]
                    before.connectors.contains_key(n) implies !is_own_connector(
                    cx,
                    before,
                    n,
                ) by {
                    assert(items.contains(before.connectors[n]));
                    assert(items[0].metadata.name != items[1].metadata.name);
                    assert(before.connectors.contains_key(items[0].metadata.name->0));
                    assert(before.connectors.contains_key(items[1].metadata.name->0));
                }
            }
            lemma_missing_runs(cx, before);
            lemma_runs_more(
                search_operation(cx),
                connector_search::when_missing(cx),
                before,
                3,
                4,
                goal,
            );
        } else {
            assert(items[0].metadata.name is Some);
            assert forall|n: Seq<char>| #[trigger] before.connectors.contains_key(n) implies n
                == items[0].metadata.name->0 by {
                assert(items.contains(before.connectors[n]));
            }
            lemma_describing_runs(cx, before, before, items[0]);
            lemma_found_runs(cx, before, before, items[0]);
            lemma_runs_more(
                search_operation(cx),
                connector_search::when_found(cx, items[0]),
                before,
                1,
                4,
                goal,
            );
        }
    }
}

/// With a control plane without faults, the search for the connector of this
/// device always ends, within six replies and without a failure. It changes
/// nothing but connectors and loses none; the connector that it gives exists;
/// and where one is needed, it gives one.
pub proof fn search_always_succeeds(cx: SearchContextModel, plane: Plane)
    requires
        plane.well_formed(),
    ensures
        runs(search_operation(cx), StepModel::Next {
                state: ConnectorSearchModel::ByEndpoint,
                request: PlaneRequestModel::ListConnectors {
                    selector: Some(connector_search::endpoint_selector(cx.endpoint_id)),
                },
            }, plane, 6, search_goal(cx, plane)),
{
    let goal = search_goal(cx, plane);
    let request = PlaneRequestModel::ListConnectors {
        selector: Some(connector_search::endpoint_selector(cx.endpoint_id)),
    };
    assert forall|reply: PlaneReplyModel, after: Plane| #[trigger]
        answers(plane, request, reply, after) implies runs(
            search_operation(cx),
            connector_search::search_step(ConnectorSearchModel::ByEndpoint, cx, reply),
            after,
            5,
            goal,
        ) by {
        let items = reply->Connectors_items;
        assert(lists_connectors(items, plane.connectors, Some(cx.endpoint_id)));
        if items.len() == 0 {
            assert forall|n: Seq<char>| #[trigger]
                plane.connectors.contains_key(n) implies resources::connector_endpoint_id(
                plane.connectors[n],
            ) != Some(cx.endpoint_id) by {
                assert(!items.contains(plane.connectors[n]));
            }
            lemma_fallback_runs(cx, plane);
        } else {
            assert(items[0].metadata.name is Some);
            lemma_found_runs(cx, plane, plane, items[0]);
            lemma_runs_more(
                search_operation(cx),
                connector_search::when_found(cx, items[0]),
                plane,
                1,
                5,
                goal,
            );
        }
    }
}

/// A search that is not to make a connector never asks for one to be made.
pub proof fn search_only_creates_when_asked(
    state: ConnectorSearchModel,
    cx: SearchContextModel,
    reply: PlaneReplyModel,
)
    requires
        !cx.ensure,
    ensures
        connector_search::search_step(state, cx, reply) matches StepModel::Next { request, .. } ==> !(
        request is CreateConnector),
{
}

} // verus!
