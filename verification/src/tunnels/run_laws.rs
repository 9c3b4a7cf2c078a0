//! What whole runs of the operations on tunnels leave behind, told by the fields
//! of the resources before and after them.
use vstd::prelude::*;

use crate::datum_apis::connector::ConnectorModel;
use crate::datum_apis::connector_advertisement::ConnectorAdvertisementModel;
use crate::datum_apis::http_proxy::HTTPProxyModel;
use crate::endpoint;
use crate::endpoint::ParsedTargetModel;
use crate::state::ProxyStateModel;
use crate::tunnels::change_laws;
use crate::tunnels::connector_search;
use crate::tunnels::connector_search::{ConnectorSearchModel, SearchContextModel};
use crate::tunnels::create;
use crate::tunnels::create::{CreateContextModel, CreateTunnelModel};
use crate::tunnels::delete;
use crate::tunnels::delete::{DeleteContextModel, DeleteTunnelModel, TunnelDeleteOutcomeModel};
use crate::tunnels::delete_laws;
use crate::tunnels::enable;
use crate::tunnels::enable::{EnableContextModel, EnableTunnelModel};
use crate::tunnels::listing;
use crate::tunnels::listing::{ListTunnelsModel, ReadProgressModel, TunnelSummaryModel};
use crate::tunnels::plane;
use crate::tunnels::plane::Plane;
use crate::tunnels::progress::TunnelProgressModel;
use crate::tunnels::requests::{PlaneReplyModel, PlaneRequestModel, StepModel};
use crate::tunnels::resource_laws;
use crate::tunnels::resources;
use crate::tunnels::update;
use crate::tunnels::update::{UpdateContextModel, UpdateTunnelModel};

verus! {

/// A run that meets a goal meets every goal that follows from it.
proof fn lemma_runs_weaker<S, T>(
    operation: spec_fn(S, PlaneReplyModel) -> StepModel<S, T>,
    step: StepModel<S, T>,
    p: Plane,
    fuel: nat,
    goal: spec_fn(T, Plane) -> bool,
    other: spec_fn(T, Plane) -> bool,
)
    requires
        plane::runs(operation, step, p, fuel, goal),
        forall|outcome: T, after: Plane| #[trigger] goal(outcome, after) ==> other(outcome, after),
    ensures
        plane::runs(operation, step, p, fuel, other),
    decreases fuel,
{
    if let StepModel::Next { state, request } = step {
        assert forall|reply: PlaneReplyModel, after: Plane| #[trigger]
            plane::answers(p, request, reply, after) implies plane::runs(
            operation,
            operation(state, reply),
            after,
            (fuel - 1) as nat,
            other,
        ) by {
            lemma_runs_weaker(
                operation,
                operation(state, reply),
                after,
                (fuel - 1) as nat,
                goal,
                other,
            );
        }
    }
}

/// The request that an operation for the device with the key `id` begins with:
/// the connectors with that key.
pub open spec fn asks_for_own_connectors(id: Seq<char>) -> PlaneRequestModel {
    PlaneRequestModel::ListConnectors {
        selector: Some("status.connectionDetails.publicKey.id="@ + id),
    }
}

// ---------------------------------------------------------------------------
// The connector of this device
// ---------------------------------------------------------------------------
/// Whether the device with the key `id` takes the connector `name` as its own: it
/// has that key, or it is the only one, and has another.
pub open spec fn takes_as_own(id: Seq<char>, p: Plane, name: Seq<char>) -> bool {
    &&& p.connectors.contains_key(name)
    &&& {
        ||| resource_laws::has_key(p.connectors[name], id)
        ||| forall|n: Seq<char>| #[trigger]
            p.connectors.contains_key(n) ==> n == name && !resource_laws::has_key(
                p.connectors[n],
                id,
            )
    }
}

/// Whether the connector `name` is the device's own, or a new one where the device
/// had none.
pub open spec fn serves_the_device(id: Seq<char>, before: Plane, after: Plane, name: Seq<char>) -> bool {
    &&& after.connectors.contains_key(name)
    &&& if before.connectors.contains_key(name) {
        takes_as_own(id, before, name)
    } else {
        forall|n: Seq<char>| #[trigger]
            before.connectors.contains_key(n) ==> !takes_as_own(id, before, n)
    }
}

proof fn lemma_own(cx: SearchContextModel, p: Plane)
    ensures
        forall|n: Seq<char>|
            #![trigger plane::is_own_connector(cx, p, n)]
            #![trigger takes_as_own(cx.endpoint_id, p, n)]
            plane::is_own_connector(cx, p, n) <==> takes_as_own(cx.endpoint_id, p, n),
{
    assert forall|n: Seq<char>| #[trigger] p.connectors.contains_key(n) implies (
    resources::connector_endpoint_id(p.connectors[n]) == Some(cx.endpoint_id)
        <==> resource_laws::has_key(p.connectors[n], cx.endpoint_id)) by {
        resource_laws::connector_is_known_by_its_key(p.connectors[n], cx.endpoint_id);
    }
}

proof fn lemma_given(cx: SearchContextModel, before: Plane, after: Plane, name: Seq<char>)
    requires
        after.connectors.contains_key(name),
        plane::is_given(cx, before, name),
    ensures
        serves_the_device(cx.endpoint_id, before, after, name),
{
    lemma_own(cx, before);
}

// ---------------------------------------------------------------------------
// Creating
// ---------------------------------------------------------------------------
/// What is there after a tunnel was created. Under a name that is new there is an
/// HTTPProxy with the label, which serves the endpoint through the connector of
/// this device, and an advertisement of the target; where policies are asked for,
/// there is one for it. All else is as before, and the summary shows the tunnel.
pub open spec fn tunnel_is_there(cx: CreateContextModel, before: Plane) -> spec_fn(
    TunnelSummaryModel,
    Plane,
) -> bool {
    |outcome: TunnelSummaryModel, after: Plane|
        exists|connector: Seq<char>| #[trigger]
            serves_the_device(cx.search.endpoint_id, before, after, connector) && {
                let id = outcome.id;
                let made = after.proxies[id];
                &&& !before.proxies.contains_key(id)
                &&& after.proxies == before.proxies.insert(id, made)
                &&& made.metadata.name == Some(id)
                &&& resource_laws::is_annotated(
                    made.metadata,
                    "app.kubernetes.io/name"@,
                    Some(cx.label),
                )
                &&& resource_laws::serves_https(made.spec.rules, cx.endpoint, connector)
                &&& after.ads == before.ads.insert(id, after.ads[id])
                &&& resource_laws::offers(after.ads[id], connector, cx.target)
                &&& after.policies == if cx.create_policies {
                    before.policies.insert(id)
                } else {
                    before.policies
                }
                &&& outcome.label == cx.label
                &&& outcome.endpoint == cx.endpoint
                &&& outcome.enabled
            }
}

/// With a control plane without faults and without leftovers, creating a tunnel
/// ends within ten replies, and [`tunnel_is_there`].
pub proof fn created_tunnel_serves_its_endpoint(
    cx: CreateContextModel,
    written: Seq<char>,
    before: Plane,
)
    requires
        before.well_formed(),
        before.ads.dom().subset_of(before.proxies.dom()),
        before.policies.subset_of(before.proxies.dom()),
        cx.search.ensure,
        cx.endpoint == endpoint::normalized(written),
        endpoint::parsed_target(cx.endpoint) == Ok::<
            ParsedTargetModel,
            endpoint::TargetError,
        >(cx.target),
    ensures
        plane::runs(
            change_laws::create_operation(cx),
            StepModel::Next {
                state: CreateTunnelModel::Searching { search: ConnectorSearchModel::ByEndpoint },
                request: asks_for_own_connectors(cx.search.endpoint_id),
            },
            before,
            10,
            tunnel_is_there(cx, before),
        ),
{
    let goal = change_laws::create_goal(cx, before);
    let other = tunnel_is_there(cx, before);
    resource_laws::selectors_name_their_fields(cx.search.endpoint_id);
    change_laws::create_makes_the_tunnel(cx, written, before);
    assert forall|outcome: TunnelSummaryModel, after: Plane| #[trigger] goal(
        outcome,
        after,
    ) implies other(outcome, after) by {
        let connector = choose|connector: Seq<char>|
            #[trigger] after.connectors.contains_key(connector) && plane::is_given(
                cx.search,
                before,
                connector,
            ) && change_laws::created_for(cx, before, outcome, after, connector);
        lemma_given(cx.search, before, after, connector);
        resource_laws::annotation_is_looked_up(
            after.proxies[outcome.id].metadata,
            "app.kubernetes.io/name"@,
        );
        resource_laws::rules_serve_https(cx.endpoint, connector);
        resource_laws::advertisement_offers_the_target(outcome.id, connector, cx.target);
        assert(after.ads.contains_key(outcome.id));
        assert(serves_the_device(cx.search.endpoint_id, before, after, connector));
    }
    lemma_runs_weaker(
        change_laws::create_operation(cx),
        StepModel::Next {
            state: CreateTunnelModel::Searching { search: ConnectorSearchModel::ByEndpoint },
            request: asks_for_own_connectors(cx.search.endpoint_id),
        },
        before,
        10,
        goal,
        other,
    );
}

/// The tunnel that creating tells of shows the hostnames and the status of the
/// HTTPProxy that the server made, under the name that the server gave it.
pub proof fn created_summary_shows_the_new_proxy(cx: CreateContextModel, proxy: HTTPProxyModel)
    requires
        proxy.metadata.name is Some,
    ensures
        create::create_step(
            CreateTunnelModel::Remembering { proxy },
            cx,
            PlaneReplyModel::Done,
        ) matches StepModel::Finished { outcome } && {
            &&& proxy.metadata.name == Some(outcome.id)
            &&& outcome.label == cx.label
            &&& outcome.endpoint == cx.endpoint
            &&& outcome.enabled
            &&& resource_laws::shows_status(outcome, proxy)
        },
        forall|error: Seq<char>|
            #[trigger] create::create_step(
                CreateTunnelModel::Remembering { proxy },
                cx,
                PlaneReplyModel::Failed { error },
            ) == create::create_step(
                CreateTunnelModel::Remembering { proxy },
                cx,
                PlaneReplyModel::Done,
            ),
{
    resource_laws::summary_shows_the_proxy(
        proxy,
        proxy.metadata.name->0,
        cx.label,
        cx.endpoint,
        true,
    );
}

/// Where policies are asked for, the new tunnel gets one before it is served, and
/// it enforces the core rules on the gateway of that tunnel; else none is created.
pub proof fn policy_is_created_where_asked(cx: CreateContextModel, proxy: HTTPProxyModel)
    requires
        proxy.metadata.name is Some,
    ensures
        ({
            let step = create::create_step(
                CreateTunnelModel::Advertising { proxy },
                cx,
                PlaneReplyModel::Done,
            );
            if cx.create_policies {
                step matches StepModel::Next { state, request: PlaneRequestModel::CreatePolicy {
                    policy,
                } } && state == (CreateTunnelModel::Protecting { proxy }) && policy.metadata.name
                    == proxy.metadata.name && policy.spec.target_refs.len() == 1
                    && policy.spec.target_refs[0].kind == "Gateway"@ && Some(
                    policy.spec.target_refs[0].name,
                ) == proxy.metadata.name && policy.spec.mode == Some(
                    crate::datum_apis::traffic_protection_policy::TrafficProtectionPolicyMode::Enforce,
                )
            } else {
                !(step matches StepModel::Next { request, .. } && request is CreatePolicy)
            }
        }),
{
}

// ---------------------------------------------------------------------------
// Changing
// ---------------------------------------------------------------------------
/// What is there after a tunnel was changed. Its HTTPProxy has the new label,
/// serves the new endpoint through the connector of this device, and keeps the
/// hostnames that it asked for. An advertisement that was there offers the new
/// target, and none comes or goes. All else is as before. The summary shows the
/// new label and endpoint, and else what the HTTPProxy said before.
pub open spec fn tunnel_is_changed(cx: UpdateContextModel, before: Plane) -> spec_fn(
    TunnelSummaryModel,
    Plane,
) -> bool {
    |outcome: TunnelSummaryModel, after: Plane|
        {
            let id = cx.tunnel_id;
            let then = before.proxies[id];
            let now = after.proxies[id];
            &&& exists|connector: Seq<char>| #[trigger]
                serves_the_device(cx.search.endpoint_id, before, after, connector)
                    && resource_laws::serves_https(now.spec.rules, cx.endpoint, connector) && (
                before.ads.contains_key(id) ==> resource_laws::offers(
                    after.ads[id],
                    connector,
                    cx.target,
                ))
            &&& after.proxies == before.proxies.insert(id, now)
            &&& now.metadata.name == Some(id)
            &&& resource_laws::is_annotated(
                now.metadata,
                "app.kubernetes.io/name"@,
                Some(cx.label),
            )
            &&& match then.spec.hostnames {
                Some(hostnames) => now.spec.hostnames == Some(hostnames),
                None => now.spec.hostnames == Some(Seq::<Seq<char>>::empty()),
            }
            &&& after.ads == if before.ads.contains_key(id) {
                before.ads.insert(id, after.ads[id])
            } else {
                before.ads
            }
            &&& after.policies == before.policies
            &&& outcome.id == id
            &&& outcome.label == cx.label
            &&& outcome.endpoint == cx.endpoint
            &&& outcome.enabled == before.ads.contains_key(id)
            &&& resource_laws::shows_status(outcome, then)
        }
}

/// With a control plane without faults, changing a tunnel that exists ends within
/// twelve replies, and [`tunnel_is_changed`]: no hostname is lost.
pub proof fn changed_tunnel_keeps_its_hostnames(cx: UpdateContextModel, before: Plane)
    requires
        before.well_formed(),
        before.proxies.contains_key(cx.tunnel_id),
        cx.search.ensure,
    ensures
        plane::runs(
            change_laws::update_operation(cx),
            StepModel::Next {
                state: UpdateTunnelModel::Searching { search: ConnectorSearchModel::ByEndpoint },
                request: asks_for_own_connectors(cx.search.endpoint_id),
            },
            before,
            12,
            tunnel_is_changed(cx, before),
        ),
{
    let goal = change_laws::update_goal(cx, before);
    let other = tunnel_is_changed(cx, before);
    let id = cx.tunnel_id;
    resource_laws::selectors_name_their_fields(cx.search.endpoint_id);
    change_laws::update_changes_the_tunnel(cx, before);
    assert forall|outcome: TunnelSummaryModel, after: Plane| #[trigger] goal(
        outcome,
        after,
    ) implies other(outcome, after) by {
        let connector = choose|connector: Seq<char>|
            #[trigger] after.connectors.contains_key(connector) && plane::is_given(
                cx.search,
                before,
                connector,
            ) && change_laws::changed_for(cx, before, after, connector);
        lemma_given(cx.search, before, after, connector);
        resource_laws::annotation_is_looked_up(
            after.proxies[id].metadata,
            "app.kubernetes.io/name"@,
        );
        resource_laws::rules_serve_https(cx.endpoint, connector);
        resource_laws::advertisement_offers_the_target(id, connector, cx.target);
        resource_laws::summary_shows_the_proxy(
            before.proxies[id],
            id,
            cx.label,
            cx.endpoint,
            before.ads.contains_key(id),
        );
        assert(serves_the_device(cx.search.endpoint_id, before, after, connector));
    }
    lemma_runs_weaker(
        change_laws::update_operation(cx),
        StepModel::Next {
            state: UpdateTunnelModel::Searching { search: ConnectorSearchModel::ByEndpoint },
            request: asks_for_own_connectors(cx.search.endpoint_id),
        },
        before,
        12,
        goal,
        other,
    );
}

// ---------------------------------------------------------------------------
// Switching
// ---------------------------------------------------------------------------
/// What is there after a tunnel was switched. An enabled one has an advertisement
/// that offers the target of its endpoint for the connector of this device; a
/// disabled one has none. All else is as before, and the summary shows the tunnel.
pub open spec fn tunnel_is_switched(cx: EnableContextModel, before: Plane) -> spec_fn(
    TunnelSummaryModel,
    Plane,
) -> bool {
    |outcome: TunnelSummaryModel, after: Plane|
        {
            let id = cx.tunnel_id;
            let proxy = before.proxies[id];
            &&& after.proxies == before.proxies
            &&& after.policies == before.policies
            &&& if cx.enabled {
                &&& after.ads == before.ads.insert(id, after.ads[id])
                &&& exists|connector: Seq<char>| #[trigger]
                    serves_the_device(cx.search.endpoint_id, before, after, connector)
                        && endpoint::parsed_target(outcome.endpoint) is Ok && resource_laws::offers(
                        after.ads[id],
                        connector,
                        endpoint::parsed_target(outcome.endpoint)->Ok_0,
                    )
            } else {
                after.ads == before.ads.remove(id)
            }
            &&& outcome.id == id
            &&& resource_laws::is_labelled(proxy.metadata, id, outcome.label)
            &&& resource_laws::leads_to(proxy.spec.rules, outcome.endpoint)
            &&& outcome.enabled == cx.enabled
            &&& resource_laws::shows_status(outcome, proxy)
        }
}

/// With a control plane without faults, switching a tunnel that exists ends within
/// ten replies, and [`tunnel_is_switched`].
pub proof fn switched_tunnel_is_offered_while_enabled(cx: EnableContextModel, before: Plane)
    requires
        before.well_formed(),
        before.proxies.contains_key(cx.tunnel_id),
        cx.search.ensure,
        cx.enabled ==> endpoint::parsed_target(
            listing::endpoint_of(before.proxies[cx.tunnel_id]),
        ) is Ok,
    ensures
        plane::runs(
            change_laws::enable_operation(cx),
            StepModel::Next {
                state: EnableTunnelModel::Searching { search: ConnectorSearchModel::ByEndpoint },
                request: asks_for_own_connectors(cx.search.endpoint_id),
            },
            before,
            10,
            tunnel_is_switched(cx, before),
        ),
{
    let goal = change_laws::enable_goal(cx, before);
    let other = tunnel_is_switched(cx, before);
    let id = cx.tunnel_id;
    let proxy = before.proxies[id];
    resource_laws::selectors_name_their_fields(cx.search.endpoint_id);
    change_laws::enable_switches_the_advertisement(cx, before);
    resource_laws::label_and_endpoint_are_those_of_the_proxy(proxy, id);
    resource_laws::summary_shows_the_proxy(
        proxy,
        id,
        listing::label_of(proxy, id),
        listing::endpoint_of(proxy),
        cx.enabled,
    );
    assert forall|outcome: TunnelSummaryModel, after: Plane| #[trigger] goal(
        outcome,
        after,
    ) implies other(outcome, after) by {
        if cx.enabled {
            let target = endpoint::parsed_target(listing::endpoint_of(proxy))->Ok_0;
            let connector = choose|connector: Seq<char>| #[trigger]
                after.connectors.contains_key(connector) && plane::is_given(
                    cx.search,
                    before,
                    connector,
                ) && after.ads == before.ads.insert(
                    id,
                    resources::advertisement_spec_model(connector, target),
                );
            lemma_given(cx.search, before, after, connector);
            resource_laws::advertisement_offers_the_target(id, connector, target);
            assert(serves_the_device(cx.search.endpoint_id, before, after, connector));
        }
    }
    lemma_runs_weaker(
        change_laws::enable_operation(cx),
        StepModel::Next {
            state: EnableTunnelModel::Searching { search: ConnectorSearchModel::ByEndpoint },
            request: asks_for_own_connectors(cx.search.endpoint_id),
        },
        before,
        10,
        goal,
        other,
    );
}

// ---------------------------------------------------------------------------
// Deleting
// ---------------------------------------------------------------------------
/// What is left after a tunnel was deleted. Its HTTPProxy, advertisement and policy
/// are gone, and all other HTTPProxies and policies are as before. The connector of
/// this device goes with the last tunnel that leads through it, and its
/// advertisements go with it; nothing else does.
pub open spec fn tunnel_is_gone(cx: DeleteContextModel, before: Plane) -> spec_fn(
    TunnelDeleteOutcomeModel,
    Plane,
) -> bool {
    |outcome: TunnelDeleteOutcomeModel, after: Plane|
        {
            let id = cx.search.endpoint_id;
            &&& outcome.project_id == cx.project_id
            &&& after.proxies == before.proxies.remove(cx.tunnel_id)
            &&& after.policies == before.policies.remove(cx.tunnel_id)
            &&& !after.ads.contains_key(cx.tunnel_id)
            &&& if outcome.connector_deleted {
                exists|name: Seq<char>|
                    {
                        &&& #[trigger] takes_as_own(id, before, name)
                        &&& after.connectors.dom() == before.connectors.dom().remove(name)
                        &&& forall|n: Seq<char>| #[trigger]
                            after.proxies.contains_key(n) ==> !resource_laws::goes_through(
                                after.proxies[n],
                                name,
                            )
                        &&& forall|n: Seq<char>| #[trigger]
                            after.ads.contains_key(n) ==> after.ads[n].connector_ref.name != name
                        &&& forall|n: Seq<char>| #[trigger]
                            before.ads.contains_key(n) && n != cx.tunnel_id
                                && before.ads[n].connector_ref.name != name
                                ==> after.ads.contains_key(n) && after.ads[n] == before.ads[n]
                    }
            } else {
                &&& after.connectors.dom() == before.connectors.dom()
                &&& after.ads == before.ads.remove(cx.tunnel_id)
                &&& {
                    ||| forall|n: Seq<char>| #[trigger]
                        before.connectors.contains_key(n) ==> !takes_as_own(id, before, n)
                    ||| exists|name: Seq<char>, n: Seq<char>|
                        #![trigger takes_as_own(id, before, name), after.proxies.contains_key(n)]
                        takes_as_own(id, before, name) && after.proxies.contains_key(n)
                            && resource_laws::goes_through(after.proxies[n], name)
                }
            }
        }
}

/// With a control plane without faults, deleting a tunnel ends, and
/// [`tunnel_is_gone`].
pub proof fn deleted_tunnel_is_gone(cx: DeleteContextModel, before: Plane)
    requires
        before.well_formed(),
        before.ads.dom().finite(),
        !cx.search.ensure,
    ensures
        plane::runs(
            delete_laws::delete_operation(cx),
            StepModel::Next {
                state: DeleteTunnelModel::Searching { search: ConnectorSearchModel::ByEndpoint },
                request: asks_for_own_connectors(cx.search.endpoint_id),
            },
            before,
            before.ads.dom().len() + 17,
            tunnel_is_gone(cx, before),
        ),
{
    let goal = delete_laws::delete_goal(cx, before);
    let other = tunnel_is_gone(cx, before);
    let id = cx.search.endpoint_id;
    resource_laws::selectors_name_their_fields(id);
    delete_laws::delete_removes_the_tunnel(cx, before);
    lemma_own(cx.search, before);
    assert forall|outcome: TunnelDeleteOutcomeModel, after: Plane| #[trigger] goal(
        outcome,
        after,
    ) implies other(outcome, after) by {
        assert forall|n: Seq<char>, name: Seq<char>| #[trigger]
            resources::uses_connector(after.proxies[n], name) == resource_laws::goes_through(
                after.proxies[n],
                name,
            ) by {
            resource_laws::any_backend_counts(after.proxies[n], name);
        }
        if outcome.connector_deleted {
            let name = choose|name: Seq<char>|
                {
                    &&& #[trigger] plane::is_own_connector(cx.search, before, name)
                    &&& after.connectors.dom() == before.connectors.dom().remove(name)
                    &&& delete_laws::nothing_refers_to(after, name)
                    &&& forall|n: Seq<char>|
                        #[trigger] before.ads.contains_key(n) && n != cx.tunnel_id
                            && before.ads[n].connector_ref.name != name
                            ==> after.ads.contains_key(n) && after.ads[n] == before.ads[n]
                };
            assert(takes_as_own(id, before, name));
            assert forall|n: Seq<char>| #[trigger]
                after.proxies.contains_key(n) implies !resource_laws::goes_through(
                after.proxies[n],
                name,
            ) by {
                assert(!resources::uses_connector(after.proxies[n], name));
            }
        } else if !plane::owns_none(cx.search, before) {
            let name = choose|name: Seq<char>|
                #[trigger] plane::is_own_connector(cx.search, before, name)
                    && delete_laws::is_used(after, name);
            let n = choose|n: Seq<char>|
                #[trigger] after.proxies.contains_key(n) && resources::uses_connector(
                    after.proxies[n],
                    name,
                );
            assert(takes_as_own(id, before, name) && after.proxies.contains_key(n));
        } else {
            assert forall|n: Seq<char>| #[trigger]
                before.connectors.contains_key(n) implies !takes_as_own(id, before, n) by {
                assert(!plane::is_own_connector(cx.search, before, n));
            }
        }
    }
    lemma_runs_weaker(
        delete_laws::delete_operation(cx),
        StepModel::Next {
            state: DeleteTunnelModel::Searching { search: ConnectorSearchModel::ByEndpoint },
            request: asks_for_own_connectors(id),
        },
        before,
        before.ads.dom().len() + 17,
        goal,
        other,
    );
}

// ---------------------------------------------------------------------------
// Listing
// ---------------------------------------------------------------------------
/// Listing the tunnels of this device, as an operation.
pub open spec fn list_operation() -> spec_fn(ListTunnelsModel, PlaneReplyModel) -> StepModel<
    ListTunnelsModel,
    Seq<TunnelSummaryModel>,
> {
    |state: ListTunnelsModel, reply: PlaneReplyModel| listing::list_step(state, reply)
}

/// Whether a summary shows the tunnel that is there under its ID, which leads
/// through the connector.
pub open spec fn shows_tunnel(
    summary: TunnelSummaryModel,
    p: Plane,
    connector: Seq<char>,
) -> bool {
    let id = summary.id;
    let proxy = p.proxies[id];
    &&& p.proxies.contains_key(id)
    &&& resource_laws::goes_through(proxy, connector)
    &&& resource_laws::is_labelled(proxy.metadata, id, summary.label)
    &&& resource_laws::leads_to(proxy.spec.rules, summary.endpoint)
    &&& summary.enabled <==> (p.ads.contains_key(id) && p.ads[id].connector_ref.name == connector)
    &&& resource_laws::shows_status(summary, proxy)
}

/// Whether a tunnel is among those that are listed.
pub open spec fn is_among(id: Seq<char>, summaries: Seq<TunnelSummaryModel>) -> bool {
    exists|k: int| 0 <= k < summaries.len() && (#[trigger] summaries[k]).id == id
}

/// What is listed: nothing is changed; where a connector has the key of this
/// device, exactly the tunnels that lead through one such connector are shown, and
/// else none.
pub open spec fn tunnels_are_shown(id: Seq<char>, before: Plane) -> spec_fn(
    Seq<TunnelSummaryModel>,
    Plane,
) -> bool {
    |outcome: Seq<TunnelSummaryModel>, after: Plane|
        {
            &&& after == before
            &&& {
                ||| outcome.len() == 0 && forall|n: Seq<char>| #[trigger]
                    before.connectors.contains_key(n) ==> !resource_laws::has_key(
                        before.connectors[n],
                        id,
                    )
                ||| exists|connector: Seq<char>|
                    {
                        &&& #[trigger] before.connectors.contains_key(connector)
                        &&& resource_laws::has_key(before.connectors[connector], id)
                        &&& forall|k: int|
                            0 <= k < outcome.len() ==> shows_tunnel(
                                #[trigger] outcome[k],
                                before,
                                connector,
                            )
                        &&& forall|n: Seq<char>| #[trigger]
                            before.proxies.contains_key(n) && resource_laws::goes_through(
                                before.proxies[n],
                                connector,
                            ) ==> is_among(n, outcome)
                    }
            }
        }
}

proof fn lemma_listed_are_shown(
    p: Plane,
    connector: Seq<char>,
    proxies: Seq<HTTPProxyModel>,
    ads: Seq<ConnectorAdvertisementModel>,
)
    requires
        p.well_formed(),
        plane::lists_proxies(proxies, p.proxies),
        plane::lists_advertisements(ads, p.ads, connector),
    ensures
        ({
            let all = listing::tunnels_of(proxies, connector, ads);
            &&& forall|k: int|
                0 <= k < all.len() ==> shows_tunnel(#[trigger] all[k], p, connector)
            &&& forall|n: Seq<char>| #[trigger]
                p.proxies.contains_key(n) && resource_laws::goes_through(p.proxies[n], connector)
                    ==> is_among(n, all)
        }),
{
    let all = listing::tunnels_of(proxies, connector, ads);
    resource_laws::listed_tunnels_describe_their_proxies(proxies, connector, ads);
    assert forall|k: int| 0 <= k < all.len() implies shows_tunnel(
        #[trigger] all[k],
        p,
        connector,
    ) by {
        let t = all[k];
        assert(resource_laws::describes_one(t, proxies, connector, ads));
        let i = choose|i: int|
            0 <= i < proxies.len() && resource_laws::goes_through(
                #[trigger] proxies[i],
                connector,
            ) && resource_laws::describes(t, proxies[i], ads);
        assert(p.proxies[t.id] == proxies[i]);
        if resource_laws::has_advertisement(ads, t.id) {
            let a = choose|a: int|
                0 <= a < ads.len() && (#[trigger] ads[a]).metadata.name == Some(t.id);
            assert(p.ads.contains_key(t.id));
        }
        if p.ads.contains_key(t.id) && p.ads[t.id].connector_ref.name == connector {
            assert(listing::is_advertised(ads, t.id));
            let a = choose|a: int|
                0 <= a < ads.len() && (#[trigger] ads[a]).metadata.name == Some(t.id);
            assert(resource_laws::has_advertisement(ads, t.id));
        }
    }
    assert forall|n: Seq<char>| #[trigger]
        p.proxies.contains_key(n) && resource_laws::goes_through(
            p.proxies[n],
            connector,
        ) implies is_among(n, all) by {
        assert(proxies.contains(p.proxies[n]));
        let i = choose|i: int| 0 <= i < proxies.len() && proxies[i] == p.proxies[n];
        assert(proxies[i].metadata.name == Some(n));
        assert(resource_laws::is_described(proxies[i], all, ads));
        let k = choose|k: int|
            0 <= k < all.len() && resource_laws::describes(#[trigger] all[k], proxies[i], ads);
        assert(all[k].id == n);
    }
}

/// With a control plane without faults, listing the tunnels of the device with the
/// key `id` ends within three replies, and [`tunnels_are_shown`].
pub proof fn listing_shows_the_tunnels_of_the_device(id: Seq<char>, before: Plane)
    requires
        before.well_formed(),
    ensures
        plane::runs(
            list_operation(),
            StepModel::Next {
                state: ListTunnelsModel::Searching,
                request: asks_for_own_connectors(id),
            },
            before,
            3,
            tunnels_are_shown(id, before),
        ),
{
    let goal = tunnels_are_shown(id, before);
    let op = list_operation();
    let ask = asks_for_own_connectors(id);
    resource_laws::selectors_name_their_fields(id);
    reveal_with_fuel(plane::runs, 2);
    assert forall|reply: PlaneReplyModel, after: Plane| #[trigger]
        plane::answers(before, ask, reply, after) implies plane::runs(
        op,
        op(ListTunnelsModel::Searching, reply),
        after,
        2,
        goal,
    ) by {
        assert(connector_search::endpoint_selector(id)
            == "status.connectionDetails.publicKey.id="@ + id);
        let items = reply->Connectors_items;
        assert(plane::lists_connectors(items, before.connectors, Some(id)));
        if items.len() == 0 {
            assert forall|n: Seq<char>| #[trigger]
                before.connectors.contains_key(n) implies !resource_laws::has_key(
                before.connectors[n],
                id,
            ) by {
                resource_laws::connector_is_known_by_its_key(before.connectors[n], id);
                assert(!items.contains(before.connectors[n]));
            }
            assert(goal(Seq::<TunnelSummaryModel>::empty(), before));
        } else {
            let name = items[0].metadata.name->0;
            resource_laws::connector_is_known_by_its_key(items[0], id);
            resource_laws::selectors_name_their_fields(name);
            let first = ListTunnelsModel::Listing { connector_name: name };
            assert forall|reply2: PlaneReplyModel, after2: Plane| #[trigger]
                plane::answers(
                    before,
                    PlaneRequestModel::ListProxies,
                    reply2,
                    after2,
                ) implies plane::runs(op, op(first, reply2), after2, 1, goal) by {
                let proxies = reply2->Proxies_items;
                let second = ListTunnelsModel::Advertised { connector_name: name, proxies };
                let last = PlaneRequestModel::ListAdvertisements {
                    selector: listing::advertisement_selector(name),
                };
                assert forall|reply3: PlaneReplyModel, after3: Plane| #[trigger]
                    plane::answers(before, last, reply3, after3) implies plane::runs(
                    op,
                    op(second, reply3),
                    after3,
                    0,
                    goal,
                ) by {
                    let ads = reply3->Advertisements_items;
                    assert(plane::lists_advertisements(ads, before.ads, name));
                    lemma_listed_are_shown(before, name, proxies, ads);
                    assert(before.connectors.contains_key(name));
                    assert(goal(listing::tunnels_of(proxies, name, ads), before));
                }
            }
        }
    }
}

// ---------------------------------------------------------------------------
// Progress
// ---------------------------------------------------------------------------
/// Reading the progress of a tunnel, as an operation.
pub open spec fn read_operation() -> spec_fn(ReadProgressModel, PlaneReplyModel) -> StepModel<
    ReadProgressModel,
    Option<TunnelProgressModel>,
> {
    |state: ReadProgressModel, reply: PlaneReplyModel| listing::read_progress_step(state, reply)
}

/// Whether `connector` is the one that the rules of `proxy` name first, where it
/// exists; nothing where it does not, or none is named.
pub open spec fn is_its_connector(
    p: Plane,
    proxy: HTTPProxyModel,
    connector: Option<ConnectorModel>,
) -> bool {
    ||| exists|i: int, j: int, name: Seq<char>| #[trigger]
        resource_laws::first_connector(proxy.spec.rules, i, j, name) && connector
            == if p.connectors.contains_key(name) {
            Some(p.connectors[name])
        } else {
            None
        }
    ||| connector is None && forall|r: int|
        0 <= r < proxy.spec.rules.len() ==> resource_laws::has_no_connector(
            #[trigger] proxy.spec.rules[r],
        )
}

/// What is read: nothing is changed; a tunnel that does not exist has no progress,
/// and one that does has that of its HTTPProxy and the connector that it names.
pub open spec fn progress_is_read(tunnel_id: Seq<char>, before: Plane) -> spec_fn(
    Option<TunnelProgressModel>,
    Plane,
) -> bool {
    |outcome: Option<TunnelProgressModel>, after: Plane|
        {
            &&& after == before
            &&& match outcome {
                None => !before.proxies.contains_key(tunnel_id),
                Some(p) => before.proxies.contains_key(tunnel_id) && exists|
                    connector: Option<ConnectorModel>,
                | #[trigger]
                    is_its_connector(before, before.proxies[tunnel_id], connector)
                        && resource_laws::is_progress(p, before.proxies[tunnel_id], connector),
            }
        }
}

/// With a control plane without faults, reading the progress of a tunnel ends
/// within two replies, and [`progress_is_read`].
pub proof fn reading_gives_the_progress_of_the_tunnel(tunnel_id: Seq<char>, before: Plane)
    ensures
        plane::runs(
            read_operation(),
            StepModel::Next {
                state: ReadProgressModel::Proxy,
                request: PlaneRequestModel::FindProxy { name: tunnel_id },
            },
            before,
            2,
            progress_is_read(tunnel_id, before),
        ),
{
    let goal = progress_is_read(tunnel_id, before);
    let op = read_operation();
    let ask = PlaneRequestModel::FindProxy { name: tunnel_id };
    reveal_with_fuel(plane::runs, 2);
    assert forall|reply: PlaneReplyModel, after: Plane| #[trigger]
        plane::answers(before, ask, reply, after) implies plane::runs(
        op,
        op(ReadProgressModel::Proxy, reply),
        after,
        1,
        goal,
    ) by {
        if before.proxies.contains_key(tunnel_id) {
            let proxy = before.proxies[tunnel_id];
            resource_laws::first_named_connector_counts(proxy.spec.rules);
            match resources::connector_in_rules(proxy.spec.rules, 0) {
                Some(name) => {
                    let find = PlaneRequestModel::FindConnector { name };
                    let waiting = ReadProgressModel::ItsConnector { proxy };
                    assert forall|reply2: PlaneReplyModel, after2: Plane| #[trigger]
                        plane::answers(before, find, reply2, after2) implies plane::runs(
                        op,
                        op(waiting, reply2),
                        after2,
                        0,
                        goal,
                    ) by {
                        let connector = reply2->MaybeConnector_connector;
                        resource_laws::steps_tell_their_conditions(proxy, connector);
                        let (i, j) = choose|i: int, j: int| #[trigger]
                            resource_laws::first_connector(proxy.spec.rules, i, j, name);
                        assert(resource_laws::first_connector(proxy.spec.rules, i, j, name));
                        assert(is_its_connector(before, proxy, connector));
                    }
                },
                None => {
                    resource_laws::steps_tell_their_conditions(proxy, None);
                    assert(is_its_connector(before, proxy, None));
                },
            }
        }
    }
}

// ---------------------------------------------------------------------------
// What this device serves
// ---------------------------------------------------------------------------
/// Whether the device remembers the tunnel `id` with the host and port that the
/// endpoint names as a URL.
pub open spec fn remembers(
    state: ProxyStateModel,
    id: Seq<char>,
    to: Seq<char>,
    enabled: bool,
) -> bool {
    &&& state.info.resource_id == id
    &&& state.enabled == enabled
    &&& endpoint::url_parts(to) matches Some(parts) ==> parts.host matches Some(host)
        ==> parts.port matches Some(port) ==> state.info.host == host && state.info.port == port
}

/// What the device remembers of a tunnel is its ID, its switch, and the host and
/// port of its endpoint.
pub proof fn device_remembers_host_and_port(id: Seq<char>, to: Seq<char>, enabled: bool)
    ensures
        endpoint::proxy_state_of(id, to, enabled) matches Ok(state) ==> remembers(
            state,
            id,
            to,
            enabled,
        ),
{
    if let Some(parts) = endpoint::url_parts(to) {
        if parts.host is Some && parts.port is Some {
            let data = crate::state::TcpProxyDataModel {
                resource_id: id,
                host: parts.host->0,
                port: parts.port->0,
            };
            crate::state::address_round_trip(data);
        }
    }
}

/// A new tunnel is served by this device as soon as its resources are there: it is
/// announced with a ticket where those are published, and else stored.
pub proof fn new_tunnel_is_served(cx: CreateContextModel, proxy: HTTPProxyModel)
    requires
        proxy.metadata.name is Some,
        endpoint::origin_of(cx.endpoint) is Ok,
    ensures
        ({
            let waiting = if cx.create_policies {
                CreateTunnelModel::Protecting { proxy }
            } else {
                CreateTunnelModel::Advertising { proxy }
            };
            create::create_step(waiting, cx, PlaneReplyModel::Done) matches StepModel::Next {
                state,
                request,
            } && state == (CreateTunnelModel::Remembering { proxy }) && match request {
                PlaneRequestModel::PublishProxy { proxy: told } => cx.publish_tickets && remembers(
                    told,
                    proxy.metadata.name->0,
                    cx.endpoint,
                    true,
                ),
                PlaneRequestModel::StoreProxy { proxy: told } => !cx.publish_tickets && remembers(
                    told,
                    proxy.metadata.name->0,
                    cx.endpoint,
                    true,
                ),
                _ => false,
            }
        }),
{
    device_remembers_host_and_port(proxy.metadata.name->0, cx.endpoint, true);
}

/// A changed or switched tunnel is remembered with what its summary shows, where
/// tickets are not published and its endpoint names an origin; else the operation
/// ends at once. Either way it ends with that summary.
pub open spec fn ends_remembering(
    request: Option<PlaneRequestModel>,
    summary: TunnelSummaryModel,
    publish_tickets: bool,
) -> bool {
    match request {
        Some(PlaneRequestModel::StoreProxy { proxy }) => !publish_tickets && remembers(
            proxy,
            summary.id,
            summary.endpoint,
            summary.enabled,
        ),
        Some(_) => false,
        None => publish_tickets || endpoint::origin_of(summary.endpoint) is Err,
    }
}

/// A changed tunnel is remembered as its summary shows it.
pub proof fn changed_tunnel_is_remembered(
    cx: UpdateContextModel,
    proxy: HTTPProxyModel,
    found: bool,
)
    ensures
        match update::update_step(
            UpdateTunnelModel::Loading { proxy },
            cx,
            PlaneReplyModel::Exists { found },
        ) {
            StepModel::Next { state: UpdateTunnelModel::Remembering { summary }, request } => {
                &&& summary.id == cx.tunnel_id
                &&& summary.label == cx.label
                &&& summary.endpoint == cx.endpoint
                &&& summary.enabled == found
                &&& ends_remembering(Some(request), summary, cx.publish_tickets)
                &&& update::update_step(
                    UpdateTunnelModel::Remembering { summary },
                    cx,
                    PlaneReplyModel::Done,
                ) == (StepModel::<UpdateTunnelModel, TunnelSummaryModel>::Finished {
                    outcome: summary,
                })
            },
            StepModel::Finished { outcome } => {
                &&& outcome.id == cx.tunnel_id
                &&& outcome.label == cx.label
                &&& outcome.endpoint == cx.endpoint
                &&& outcome.enabled == found
                &&& ends_remembering(None, outcome, cx.publish_tickets)
            },
            _ => false,
        },
{
    device_remembers_host_and_port(cx.tunnel_id, cx.endpoint, found);
}

/// A switched tunnel is remembered as its summary shows it.
pub proof fn switched_tunnel_is_remembered(cx: EnableContextModel, proxy: HTTPProxyModel)
    ensures
        forall|state: EnableTunnelModel|
            #![trigger enable::enable_step(state, cx, PlaneReplyModel::Done)]
            state == (EnableTunnelModel::Readvertising { proxy }) || state == (
            EnableTunnelModel::Advertising { proxy }) || state == (EnableTunnelModel::Withdrawing {
                proxy,
            }) ==> match enable::enable_step(state, cx, PlaneReplyModel::Done) {
                StepModel::Next { state: EnableTunnelModel::Remembering { summary }, request } =>
                    summary.id == cx.tunnel_id && summary.enabled == cx.enabled && ends_remembering(
                        Some(request),
                        summary,
                        cx.publish_tickets,
                    ),
                StepModel::Finished { outcome } => outcome.id == cx.tunnel_id && outcome.enabled
                    == cx.enabled && ends_remembering(None, outcome, cx.publish_tickets),
                _ => false,
            },
{
    device_remembers_host_and_port(cx.tunnel_id, listing::endpoint_of(proxy), cx.enabled);
}

/// A deleted tunnel is served no longer: once its resources are gone, its ticket is
/// withdrawn where tickets are published, and else it is forgotten. That this fails
/// does not keep the rest from being deleted.
pub proof fn deleted_tunnel_is_served_no_longer(
    cx: DeleteContextModel,
    connector: Option<Seq<char>>,
    error: Seq<char>,
)
    ensures
        delete::delete_step(
            DeleteTunnelModel::DeletingPolicy { connector },
            cx,
            PlaneReplyModel::Done,
        ) == delete::delete_step(
            DeleteTunnelModel::CheckingPolicy { connector },
            cx,
            PlaneReplyModel::Exists { found: false },
        ),
        delete::delete_step(
            DeleteTunnelModel::DeletingPolicy { connector },
            cx,
            PlaneReplyModel::Done,
        ) matches StepModel::Next { state, request } && state == (DeleteTunnelModel::Withdrawing {
            connector,
        }) && request == if cx.publish_tickets {
            PlaneRequestModel::UnpublishProxy { id: cx.tunnel_id }
        } else {
            PlaneRequestModel::ForgetProxy { id: cx.tunnel_id }
        },
        delete::delete_step(
            DeleteTunnelModel::Withdrawing { connector },
            cx,
            PlaneReplyModel::Failed { error },
        ) == delete::delete_step(
            DeleteTunnelModel::Withdrawing { connector },
            cx,
            PlaneReplyModel::Done,
        ),
{
}

// ---------------------------------------------------------------------------
// What a connector is told
// ---------------------------------------------------------------------------
/// Whether a step of the search sets on the connector how this device is reached.
pub open spec fn tells_of(
    step: StepModel<ConnectorSearchModel, Option<ConnectorModel>>,
    connector: ConnectorModel,
    endpoint: resources::EndpointInfoModel,
) -> bool {
    step matches StepModel::Next { request, .. } && request
        matches PlaneRequestModel::PatchConnectorDetails { name, details } && Some(name)
        == connector.metadata.name && details.public_key is Some && details.public_key->0.id
        == endpoint.id && details.public_key->0.home_relay == endpoint.relay_urls[0]
        && details.public_key->0.addresses.len() == endpoint.ip_addrs.len()
}

/// A connector that is told how it is reached, and one that is new, is told of the
/// endpoint of this device: the search asks for that endpoint first, and then sets
/// on that connector what [`details_tell_how_the_device_is_reached`] says.
///
/// [`details_tell_how_the_device_is_reached`]: resource_laws::details_tell_how_the_device_is_reached
pub proof fn connector_is_told_of_this_device(
    cx: SearchContextModel,
    connector: ConnectorModel,
    endpoint: resources::EndpointInfoModel,
)
    requires
        connector.metadata.name is Some,
        endpoint.relay_urls.len() > 0,
    ensures
        connector_search::search_step(
            ConnectorSearchModel::Creating,
            cx,
            PlaneReplyModel::Connector { connector },
        ) == (StepModel::<ConnectorSearchModel, Option<ConnectorModel>>::Next {
            state: ConnectorSearchModel::DescribingNew { connector },
            request: PlaneRequestModel::DescribeEndpoint,
        }),
        forall|state: ConnectorSearchModel|
            #![trigger connector_search::search_step(
                state,
                cx,
                PlaneReplyModel::Endpoint { endpoint },
            )]
            state == (ConnectorSearchModel::DescribingNew { connector }) || state == (
            ConnectorSearchModel::Describing { connector }) ==> tells_of(
                connector_search::search_step(state, cx, PlaneReplyModel::Endpoint { endpoint }),
                connector,
                endpoint,
            ),
{
}

/// The first connector with the key of this device is taken; where there is none,
/// the only connector of the project is, and it is told of this device unless it
/// has that key already. A connector whose annotations do not describe this device
/// is annotated.
pub proof fn first_connector_with_the_key_is_taken(
    cx: SearchContextModel,
    items: Seq<ConnectorModel>,
)
    requires
        items.len() > 0,
        items[0].metadata.name is Some,
    ensures
        connector_search::search_step(
            ConnectorSearchModel::ByEndpoint,
            cx,
            PlaneReplyModel::Connectors { items },
        ) == if exists|i: int|
            0 <= i < cx.annotations.len() && !resource_laws::is_annotated(
                items[0].metadata,
                (#[trigger] cx.annotations[i]).0,
                Some(cx.annotations[i].1),
            ) {
            StepModel::<ConnectorSearchModel, Option<ConnectorModel>>::Next {
                state: ConnectorSearchModel::Annotating { connector: items[0] },
                request: PlaneRequestModel::PatchConnectorAnnotations {
                    name: items[0].metadata.name->0,
                    annotations: cx.annotations,
                },
            }
        } else {
            StepModel::Finished { outcome: Some(items[0]) }
        },
        items.len() == 1 && !resource_laws::has_key(items[0], cx.endpoint_id)
            ==> connector_search::search_step(
            ConnectorSearchModel::Fallback,
            cx,
            PlaneReplyModel::Connectors { items },
        ) == (StepModel::<ConnectorSearchModel, Option<ConnectorModel>>::Next {
            state: ConnectorSearchModel::Describing { connector: items[0] },
            request: PlaneRequestModel::DescribeEndpoint,
        }),
{
    resource_laws::annotations_are_set_where_they_differ(cx.annotations, items[0].metadata);
    resource_laws::connector_is_known_by_its_key(items[0], cx.endpoint_id);
}

} // verus!
