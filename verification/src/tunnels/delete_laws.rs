//! What deleting a tunnel does to the control plane of a project.
use vstd::prelude::*;

use crate::datum_apis::connector::ConnectorModel;
use crate::datum_apis::connector_advertisement::ConnectorAdvertisementModel;
use crate::datum_apis::http_proxy::HTTPProxyModel;
use crate::tunnels::connector_search;
use crate::tunnels::connector_search::ConnectorSearchModel;
use crate::tunnels::delete;
use crate::tunnels::delete::{DeleteContextModel, DeleteTunnelModel, TunnelDeleteOutcomeModel};
use crate::tunnels::listing;
use crate::tunnels::plane;
use crate::tunnels::plane::Plane;
use crate::tunnels::requests::{PlaneReplyModel, PlaneRequestModel, StepModel};
use crate::tunnels::resources;

verus! {

/// Deleting a tunnel, as an operation.
pub open spec fn delete_operation(cx: DeleteContextModel) -> spec_fn(
    DeleteTunnelModel,
    PlaneReplyModel,
) -> StepModel<DeleteTunnelModel, TunnelDeleteOutcomeModel> {
    |state: DeleteTunnelModel, reply: PlaneReplyModel| delete::delete_step(state, cx, reply)
}

/// Whether nothing in the project refers to the connector `name`.
pub open spec fn nothing_refers_to(p: Plane, name: Seq<char>) -> bool {
    &&& forall|n: Seq<char>|
        #[trigger] p.proxies.contains_key(n) ==> !resources::uses_connector(p.proxies[n], name)
    &&& forall|n: Seq<char>|
        #[trigger] p.ads.contains_key(n) ==> p.ads[n].connector_ref.name != name
}

/// Whether a tunnel of the project leads through the connector `name`.
pub open spec fn is_used(p: Plane, name: Seq<char>) -> bool {
    exists|n: Seq<char>|
        #[trigger] p.proxies.contains_key(n) && resources::uses_connector(p.proxies[n], name)
}

/// What is left after the tunnel was deleted.
///
/// Its HTTPProxy, advertisement and policy are gone; all other HTTPProxies and
/// policies are as before. Where the outcome says that the connector was
/// deleted, exactly one connector is gone, which was this device's own, nothing
/// refers to it, and only advertisements of it went with it. Else no connector is
/// lost and all other advertisements are as before: the device has no connector,
/// or another tunnel leads through it.
pub open spec fn delete_goal(cx: DeleteContextModel, before: Plane) -> spec_fn(
    TunnelDeleteOutcomeModel,
    Plane,
) -> bool {
    |outcome: TunnelDeleteOutcomeModel, after: Plane|
        {
            &&& outcome.project_id == cx.project_id
            &&& after.proxies == before.proxies.remove(cx.tunnel_id)
            &&& after.policies == before.policies.remove(cx.tunnel_id)
            &&& !after.ads.contains_key(cx.tunnel_id)
            &&& if outcome.connector_deleted {
                exists|name: Seq<char>|
                    {
                        &&& #[trigger] plane::is_own_connector(cx.search, before, name)
                        &&& after.connectors.dom() == before.connectors.dom().remove(name)
                        &&& nothing_refers_to(after, name)
                        &&& forall|n: Seq<char>|
                            #[trigger] before.ads.contains_key(n) && n != cx.tunnel_id
                                && before.ads[n].connector_ref.name != name
                                ==> after.ads.contains_key(n) && after.ads[n] == before.ads[n]
                    }
            } else {
                &&& after.connectors.dom() == before.connectors.dom()
                &&& after.ads == before.ads.remove(cx.tunnel_id)
                &&& plane::owns_none(cx.search, before) || exists|name: Seq<char>|
                    #[trigger] plane::is_own_connector(cx.search, before, name) && is_used(
                        after,
                        name,
                    )
            }
        }
}

/// How far the plane `p` is from what it was `before`: the tunnel is deleted
/// up to the stage `stage`.
spec fn deleted_up_to(cx: DeleteContextModel, before: Plane, p: Plane, stage: int) -> bool {
    &&& p.well_formed()
    &&& p.connectors.dom() == before.connectors.dom()
    &&& p.proxies == if stage >= 1 {
        before.proxies.remove(cx.tunnel_id)
    } else {
        before.proxies
    }
    &&& p.ads == if stage >= 2 {
        before.ads.remove(cx.tunnel_id)
    } else {
        before.ads
    }
    &&& p.policies == if stage >= 3 {
        before.policies.remove(cx.tunnel_id)
    } else {
        before.policies
    }
}

/// Whether `connector` is what the search can have given.
spec fn searched(
    cx: DeleteContextModel,
    before: Plane,
    p: Plane,
    connector: Option<Seq<char>>,
) -> bool {
    match connector {
        Some(name) => p.connectors.contains_key(name) && plane::is_own_connector(
            cx.search,
            before,
            name,
        ),
        None => plane::owns_none(cx.search, before),
    }
}

proof fn lemma_connector_runs(
    cx: DeleteContextModel,
    before: Plane,
    p: Plane,
    connector: Seq<char>,
)
    requires
        p.connectors.dom() == before.connectors.dom(),
        p.connectors.contains_key(connector),
        plane::is_own_connector(cx.search, before, connector),
        p.proxies == before.proxies.remove(cx.tunnel_id),
        p.policies == before.policies.remove(cx.tunnel_id),
        !p.ads.contains_key(cx.tunnel_id),
        nothing_refers_to(p, connector),
        forall|n: Seq<char>|
            #[trigger] before.ads.contains_key(n) && n != cx.tunnel_id
                && before.ads[n].connector_ref.name != connector ==> p.ads.contains_key(n)
                && p.ads[n] == before.ads[n],
    ensures
        plane::runs(
            delete_operation(cx),
            delete::delete_leftovers(connector, Seq::empty()),
            p,
            2,
            delete_goal(cx, before),
        ),
{
    let goal = delete_goal(cx, before);
    let ask = PlaneRequestModel::HasConnector { name: connector };
    let state = DeleteTunnelModel::CheckingConnector { connector };
    assert forall|reply: PlaneReplyModel, after: Plane| #[trigger]
        plane::answers(p, ask, reply, after) implies plane::runs(
            delete_operation(cx),
            delete::delete_step(state, cx, reply),
            after,
            1,
            goal,
        ) by {
        let remove = PlaneRequestModel::DeleteConnector { name: connector };
        assert forall|reply2: PlaneReplyModel, after2: Plane| #[trigger]
            plane::answers(p, remove, reply2, after2) implies plane::runs(
                delete_operation(cx),
                delete::delete_step(DeleteTunnelModel::DeletingConnector, cx, reply2),
                after2,
                0,
                goal,
            ) by {
            assert(before.connectors.contains_key(connector));
            assert(after2.connectors.dom() =~= before.connectors.dom().remove(connector));
        }
    }
}

proof fn lemma_leftovers_run(
    cx: DeleteContextModel,
    before: Plane,
    p: Plane,
    connector: Seq<char>,
    names: Seq<Seq<char>>,
)
    requires
        p.connectors.dom() == before.connectors.dom(),
        p.connectors.contains_key(connector),
        plane::is_own_connector(cx.search, before, connector),
        p.proxies == before.proxies.remove(cx.tunnel_id),
        p.policies == before.policies.remove(cx.tunnel_id),
        !p.ads.contains_key(cx.tunnel_id),
        forall|n: Seq<char>|
            #[trigger] p.proxies.contains_key(n) ==> !resources::uses_connector(
                p.proxies[n],
                connector,
            ),
        forall|n: Seq<char>|
            #[trigger] p.ads.contains_key(n) && p.ads[n].connector_ref.name == connector
                ==> names.contains(n),
        forall|i: int|
            0 <= i < names.len() && p.ads.contains_key(#[trigger] names[i])
                ==> p.ads[names[i]].connector_ref.name == connector,
        forall|n: Seq<char>|
            #[trigger] before.ads.contains_key(n) && n != cx.tunnel_id
                && before.ads[n].connector_ref.name != connector ==> p.ads.contains_key(n)
                && p.ads[n] == before.ads[n],
    ensures
        plane::runs(
            delete_operation(cx),
            delete::delete_leftovers(connector, names),
            p,
            names.len() + 2,
            delete_goal(cx, before),
        ),
    decreases names.len(),
{
    let goal = delete_goal(cx, before);
    if names.len() == 0 {
        assert(names =~= Seq::<Seq<char>>::empty());
        lemma_connector_runs(cx, before, p, connector);
    } else {
        let name = names[0];
        let rest = names.drop_first();
        let request = PlaneRequestModel::DeleteAdvertisement { name };
        let state = DeleteTunnelModel::DeletingLeftovers { connector, rest };
        assert forall|reply: PlaneReplyModel, after: Plane| #[trigger]
            plane::answers(p, request, reply, after) implies plane::runs(
                delete_operation(cx),
                delete::delete_step(state, cx, reply),
                after,
                (names.len() + 1) as nat,
                goal,
            ) by {
            assert forall|n: Seq<char>| #[trigger]
                after.ads.contains_key(n) && after.ads[n].connector_ref.name
                    == connector implies rest.contains(n) by {
                assert(names.contains(n));
                let i = choose|i: int| 0 <= i < names.len() && names[i] == n;
                assert(i > 0);
                assert(rest[i - 1] == n);
            }
            assert forall|i: int| 0 <= i < rest.len() && after.ads.contains_key(
                #[trigger] rest[i],
            ) implies after.ads[rest[i]].connector_ref.name == connector by {
                assert(rest[i] == names[i + 1]);
            }
            lemma_leftovers_run(cx, before, after, connector, rest);
        }
    }
}

proof fn lemma_names_in(items: Seq<ConnectorAdvertisementModel>)
    requires
        forall|i: int| 0 <= i < items.len() ==> (#[trigger] items[i]).metadata.name is Some,
    ensures
        delete::names_in(items).len() == items.len(),
        forall|i: int|
            0 <= i < items.len() ==> #[trigger] delete::names_in(items)[i]
                == items[i].metadata.name->0,
    decreases items.len(),
{
    if items.len() > 0 {
        let rest = items.drop_last();
        assert forall|i: int| 0 <= i < rest.len() implies (
        #[trigger] rest[i]).metadata.name is Some by {
            assert(rest[i] == items[i]);
        }
        lemma_names_in(rest);
        assert(items[items.len() - 1].metadata.name is Some);
        assert forall|i: int| 0 <= i < items.len() implies #[trigger] delete::names_in(items)[i]
            == items[i].metadata.name->0 by {
            if i < rest.len() {
                assert(rest[i] == items[i]);
                assert(delete::names_in(items)[i] == delete::names_in(rest)[i]);
            }
        }
    }
}

proof fn lemma_distinct_within(names: Seq<Seq<char>>, all: Set<Seq<char>>)
    requires
        names.no_duplicates(),
        forall|i: int| 0 <= i < names.len() ==> all.contains(#[trigger] names[i]),
        all.finite(),
    ensures
        names.len() <= all.len(),
{
    names.unique_seq_to_set();
    assert(names.to_set().subset_of(all));
    vstd::set_lib::lemma_len_subset(names.to_set(), all);
}

proof fn lemma_others_run(
    cx: DeleteContextModel,
    before: Plane,
    p: Plane,
    connector: Option<Seq<char>>,
)
    requires
        deleted_up_to(cx, before, p, 3),
        before.ads.dom().finite(),
        searched(cx, before, p, connector),
    ensures
        plane::runs(
            delete_operation(cx),
            delete::check_others(cx, connector),
            p,
            before.ads.dom().len() + 4,
            delete_goal(cx, before),
        ),
{
    let goal = delete_goal(cx, before);
    let count = before.ads.dom().len();
    if let Some(name) = connector {
        let state = DeleteTunnelModel::CheckingOthers { connector: name };
        assert forall|reply: PlaneReplyModel, after: Plane| #[trigger]
            plane::answers(p, PlaneRequestModel::ListProxies, reply, after) implies plane::runs(
                delete_operation(cx),
                delete::delete_step(state, cx, reply),
                after,
                (count + 3) as nat,
                goal,
            ) by {
            let items = reply->Proxies_items;
            if !delete::none_uses(items, name) {
                let i = choose|i: int|
                    0 <= i < items.len() && resources::uses_connector(items[i], name);
                assert(p.proxies.contains_key(items[i].metadata.name->0));
                assert(is_used(p, name));
            } else {
                assert forall|n: Seq<char>| #[trigger]
                    p.proxies.contains_key(n) implies !resources::uses_connector(
                    p.proxies[n],
                    name,
                ) by {
                    assert(items.contains(p.proxies[n]));
                    let i = choose|i: int| 0 <= i < items.len() && items[i] == p.proxies[n];
                    assert(!resources::uses_connector(items[i], name));
                }
                let list = PlaneRequestModel::ListAdvertisements {
                    selector: listing::advertisement_selector(name),
                };
                let next = DeleteTunnelModel::ListingLeftovers { connector: name };
                assert forall|reply2: PlaneReplyModel, after2: Plane| #[trigger]
                    plane::answers(p, list, reply2, after2) implies plane::runs(
                        delete_operation(cx),
                        delete::delete_step(next, cx, reply2),
                        after2,
                        (count + 2) as nat,
                        goal,
                    ) by {
                    let ads = reply2->Advertisements_items;
                    assert(plane::lists_advertisements(ads, p.ads, name));
                    lemma_names_in(ads);
                    let names = delete::names_in(ads);
                    assert forall|n: Seq<char>| #[trigger]
                        p.ads.contains_key(n) && p.ads[n].connector_ref.name
                            == name implies names.contains(n) by {
                        assert(listing::is_advertised(ads, n));
                        let i = choose|i: int|
                            0 <= i < ads.len() && (#[trigger] ads[i]).metadata.name == Some(n);
                        assert(names[i] == n);
                    }
                    assert(names.no_duplicates()) by {
                        assert forall|i: int, j: int|
                            0 <= i < names.len() && 0 <= j < names.len() && i
                                != j implies names[i] != names[j] by {
                            if i < j {
                                assert(ads[i].metadata.name != ads[j].metadata.name);
                            } else {
                                assert(ads[j].metadata.name != ads[i].metadata.name);
                            }
                        }
                    }
                    assert forall|i: int| 0 <= i < names.len() implies before.ads.dom().contains(
                        #[trigger] names[i],
                    ) by {
                        assert(p.ads.contains_key(ads[i].metadata.name->0));
                    }
                    lemma_distinct_within(names, before.ads.dom());
                    lemma_leftovers_run(cx, before, p, name, names);
                    plane::lemma_runs_more(
                        delete_operation(cx),
                        delete::delete_leftovers(name, names),
                        p,
                        (names.len() + 2) as nat,
                        (count + 2) as nat,
                        goal,
                    );
                }
            }
        }
    }
}

proof fn lemma_withdraw_runs(
    cx: DeleteContextModel,
    before: Plane,
    p: Plane,
    connector: Option<Seq<char>>,
)
    requires
        deleted_up_to(cx, before, p, 3),
        before.ads.dom().finite(),
        searched(cx, before, p, connector),
    ensures
        plane::runs(
            delete_operation(cx),
            delete::withdraw(cx, connector),
            p,
            before.ads.dom().len() + 5,
            delete_goal(cx, before),
        ),
{
    lemma_others_run(cx, before, p, connector);
    if let StepModel::Next { state, request } = delete::withdraw(cx, connector) {
        assert forall|reply: PlaneReplyModel, after: Plane| #[trigger]
            plane::answers(p, request, reply, after) implies plane::runs(
                delete_operation(cx),
                delete::delete_step(state, cx, reply),
                after,
                (before.ads.dom().len() + 4) as nat,
                delete_goal(cx, before),
            ) by {}
    }
}

proof fn lemma_policy_runs(
    cx: DeleteContextModel,
    before: Plane,
    p: Plane,
    connector: Option<Seq<char>>,
)
    requires
        deleted_up_to(cx, before, p, 2),
        before.ads.dom().finite(),
        searched(cx, before, p, connector),
    ensures
        plane::runs(
            delete_operation(cx),
            delete::check_policy(cx, connector),
            p,
            before.ads.dom().len() + 7,
            delete_goal(cx, before),
        ),
{
    let goal = delete_goal(cx, before);
    let count = before.ads.dom().len();
    let ask = PlaneRequestModel::HasPolicy { name: cx.tunnel_id };
    let state = DeleteTunnelModel::CheckingPolicy { connector };
    assert forall|reply: PlaneReplyModel, after: Plane| #[trigger]
        plane::answers(p, ask, reply, after) implies plane::runs(
            delete_operation(cx),
            delete::delete_step(state, cx, reply),
            after,
            (count + 6) as nat,
            goal,
        ) by {
        if p.policies.contains(cx.tunnel_id) {
            let remove = PlaneRequestModel::DeletePolicy { name: cx.tunnel_id };
            let next = DeleteTunnelModel::DeletingPolicy { connector };
            assert forall|reply2: PlaneReplyModel, after2: Plane| #[trigger]
                plane::answers(p, remove, reply2, after2) implies plane::runs(
                    delete_operation(cx),
                    delete::delete_step(next, cx, reply2),
                    after2,
                    (count + 5) as nat,
                    goal,
                ) by {
                lemma_withdraw_runs(cx, before, after2, connector);
            }
        } else {
            assert(before.policies.remove(cx.tunnel_id) =~= before.policies);
            lemma_withdraw_runs(cx, before, p, connector);
            plane::lemma_runs_more(
                delete_operation(cx),
                delete::withdraw(cx, connector),
                p,
                (count + 5) as nat,
                (count + 6) as nat,
                goal,
            );
        }
    }
}

proof fn lemma_advertisement_runs(
    cx: DeleteContextModel,
    before: Plane,
    p: Plane,
    connector: Option<Seq<char>>,
)
    requires
        deleted_up_to(cx, before, p, 1),
        before.ads.dom().finite(),
        searched(cx, before, p, connector),
    ensures
        plane::runs(
            delete_operation(cx),
            delete::check_advertisement(cx, connector),
            p,
            before.ads.dom().len() + 9,
            delete_goal(cx, before),
        ),
{
    let goal = delete_goal(cx, before);
    let count = before.ads.dom().len();
    let ask = PlaneRequestModel::HasAdvertisement { name: cx.tunnel_id };
    let state = DeleteTunnelModel::CheckingAdvertisement { connector };
    assert forall|reply: PlaneReplyModel, after: Plane| #[trigger]
        plane::answers(p, ask, reply, after) implies plane::runs(
            delete_operation(cx),
            delete::delete_step(state, cx, reply),
            after,
            (count + 8) as nat,
            goal,
        ) by {
        if p.ads.contains_key(cx.tunnel_id) {
            let remove = PlaneRequestModel::DeleteAdvertisement { name: cx.tunnel_id };
            let next = DeleteTunnelModel::DeletingAdvertisement { connector };
            assert forall|reply2: PlaneReplyModel, after2: Plane| #[trigger]
                plane::answers(p, remove, reply2, after2) implies plane::runs(
                    delete_operation(cx),
                    delete::delete_step(next, cx, reply2),
                    after2,
                    (count + 7) as nat,
                    goal,
                ) by {
                lemma_policy_runs(cx, before, after2, connector);
            }
        } else {
            assert(before.ads.remove(cx.tunnel_id) =~= before.ads);
            lemma_policy_runs(cx, before, p, connector);
            plane::lemma_runs_more(
                delete_operation(cx),
                delete::check_policy(cx, connector),
                p,
                (count + 7) as nat,
                (count + 8) as nat,
                goal,
            );
        }
    }
}

/// What the operation does once the search is over.
spec fn after_search(cx: DeleteContextModel) -> spec_fn(Option<ConnectorModel>) -> StepModel<
    DeleteTunnelModel,
    TunnelDeleteOutcomeModel,
> {
    |outcome: Option<ConnectorModel>|
        StepModel::Next {
            state: DeleteTunnelModel::CheckingProxy {
                connector: match outcome {
                    Some(connector) => Some(connector.metadata.name_any()),
                    None => None,
                },
            },
            request: PlaneRequestModel::HasProxy { name: cx.tunnel_id },
        }
}

proof fn lemma_proxy_runs(
    cx: DeleteContextModel,
    before: Plane,
    p: Plane,
    outcome: Option<ConnectorModel>,
)
    requires
        deleted_up_to(cx, before, p, 0),
        before.ads.dom().finite(),
        searched(
            cx,
            before,
            p,
            match outcome {
                Some(c) => Some(c.metadata.name_any()),
                None => None,
            },
        ),
    ensures
        plane::runs(
            delete_operation(cx),
            after_search(cx)(outcome),
            p,
            before.ads.dom().len() + 11,
            delete_goal(cx, before),
        ),
{
    let goal = delete_goal(cx, before);
    let count = before.ads.dom().len();
    let connector = match outcome {
        Some(c) => Some(c.metadata.name_any()),
        None => None,
    };
    let ask = PlaneRequestModel::HasProxy { name: cx.tunnel_id };
    let state = DeleteTunnelModel::CheckingProxy { connector };
    assert forall|reply: PlaneReplyModel, after: Plane| #[trigger]
        plane::answers(p, ask, reply, after) implies plane::runs(
            delete_operation(cx),
            delete::delete_step(state, cx, reply),
            after,
            (count + 10) as nat,
            goal,
        ) by {
        if p.proxies.contains_key(cx.tunnel_id) {
            let remove = PlaneRequestModel::DeleteProxy { name: cx.tunnel_id };
            let next = DeleteTunnelModel::DeletingProxy { connector };
            assert forall|reply2: PlaneReplyModel, after2: Plane| #[trigger]
                plane::answers(p, remove, reply2, after2) implies plane::runs(
                    delete_operation(cx),
                    delete::delete_step(next, cx, reply2),
                    after2,
                    (count + 9) as nat,
                    goal,
                ) by {
                lemma_advertisement_runs(cx, before, after2, connector);
            }
        } else {
            assert(before.proxies.remove(cx.tunnel_id) =~= before.proxies);
            lemma_advertisement_runs(cx, before, p, connector);
            plane::lemma_runs_more(
                delete_operation(cx),
                delete::check_advertisement(cx, connector),
                p,
                (count + 9) as nat,
                (count + 10) as nat,
                goal,
            );
        }
    }
}

/// With a control plane without faults, deleting a tunnel always ends, without
/// a failure, and leaves the project as [`delete_goal`] says: the tunnel is
/// gone, other tunnels are untouched, and the connector goes exactly with its
/// last tunnel.
pub proof fn delete_removes_the_tunnel(cx: DeleteContextModel, before: Plane)
    requires
        before.well_formed(),
        before.ads.dom().finite(),
        !cx.search.ensure,
    ensures
        plane::runs(delete_operation(cx), StepModel::Next {
                state: DeleteTunnelModel::Searching { search: ConnectorSearchModel::ByEndpoint },
                request: PlaneRequestModel::ListConnectors {
                    selector: Some(connector_search::endpoint_selector(cx.search.endpoint_id)),
                },
            }, before, before.ads.dom().len() + 17, delete_goal(cx, before)),
{
    let goal = delete_goal(cx, before);
    let rest = (before.ads.dom().len() + 11) as nat;
    let search_goal = plane::search_goal(cx.search, before);
    plane::search_always_succeeds(cx.search, before);
    assert forall|outcome: Option<ConnectorModel>, after: Plane| search_goal(
        outcome,
        after,
    ) implies #[trigger] plane::runs(
        delete_operation(cx),
        after_search(cx)(outcome),
        after,
        rest,
        goal,
    ) by {
        lemma_proxy_runs(cx, before, after, outcome);
    }
    let first = StepModel::<ConnectorSearchModel, Option<ConnectorModel>>::Next {
        state: ConnectorSearchModel::ByEndpoint,
        request: PlaneRequestModel::ListConnectors {
            selector: Some(connector_search::endpoint_selector(cx.search.endpoint_id)),
        },
    };
    let wrap = |search: ConnectorSearchModel| DeleteTunnelModel::Searching { search };
    plane::lemma_runs_chained(
        cx.search,
        delete_operation(cx),
        wrap,
        after_search(cx),
        first,
        before,
        6,
        rest,
        search_goal,
        goal,
    );
}

} // verus!
