//! What creating, changing and switching a tunnel does to the control plane of
//! a project.
use vstd::prelude::*;

use crate::datum_apis::connector::ConnectorModel;
use crate::datum_apis::connector_advertisement::ConnectorAdvertisementModel;
use crate::datum_apis::http_proxy::HTTPProxyModel;
use crate::endpoint;
use crate::numbers;
use crate::state;
use crate::text;
use crate::tunnels::connector_search;
use crate::tunnels::connector_search::ConnectorSearchModel;
use crate::tunnels::create;
use crate::tunnels::create::{CreateContextModel, CreateTunnelModel};
use crate::tunnels::enable;
use crate::tunnels::enable::{EnableContextModel, EnableTunnelModel};
use crate::tunnels::listing;
use crate::tunnels::listing::TunnelSummaryModel;
use crate::tunnels::plane;
use crate::tunnels::plane::Plane;
use crate::tunnels::requests::{PlaneReplyModel, PlaneRequestModel, ServiceErrorModel, StepModel};
use crate::tunnels::resources;
use crate::tunnels::update;
use crate::tunnels::update::{UpdateContextModel, UpdateTunnelModel};

verus! {

// ---------------------------------------------------------------------------
// Targets and origins
// ---------------------------------------------------------------------------
proof fn lemma_no_colon_in_number(digits: Seq<char>, max: nat)
    requires
        numbers::read_number(digits, max) is Some,
    ensures
        !digits.contains(':'),
{
    let d = numbers::without_plus(digits);
    assert forall|i: int| 0 <= i < digits.len() implies digits[i] != ':' by {
        if digits[0] == '+' {
            if i > 0 {
                assert(text::is_digit(d[i - 1]));
            }
        } else {
            assert(text::is_digit(d[i]));
        }
    }
}

proof fn lemma_split_at_port(s: Seq<char>, i: int)
    requires
        0 <= i < s.len(),
        s[i] == ':',
        numbers::read_number(s.skip(i + 1), 0xffff) is Some,
    ensures
        state::host_port(s) is Ok,
{
    let digits = s.skip(i + 1);
    lemma_no_colon_in_number(digits, 0xffff);
    assert forall|j: int| i < j < s.len() implies #[trigger] s[j] != ':' by {
        assert(digits[j - i - 1] == s[j]);
    }
    text::lemma_last_index_is(s, ':', i);
}

/// An endpoint in normal form that names a target also names the origin that
/// this device serves.
pub proof fn target_names_an_origin(written: Seq<char>)
    requires
        endpoint::parsed_target(endpoint::normalized(written)) is Ok,
    ensures
        endpoint::origin_of(endpoint::normalized(written)) is Ok,
{
    let e = endpoint::normalized(written);
    endpoint::normalizing_is_idempotent(written);
    lemma_normalized_is_trimmed(written);
    match endpoint::url_parts(e) {
        Some(parts) => {
            let data = state::TcpProxyDataModel {
                resource_id: Seq::empty(),
                host: parts.host->0,
                port: parts.port->0,
            };
            state::address_round_trip(data);
        },
        None => {
            if e.len() > 0 && e[0] == '[' {
                let end = text::first_where(e, text::exactly(']')) as int;
                lemma_split_at_port(e, end + 1);
            } else {
                text::lemma_last_index(e, ':');
                lemma_split_at_port(e, text::last_index(e, ':'));
            }
        },
    }
}

proof fn lemma_normalized_is_trimmed(written: Seq<char>)
    ensures
        text::trimmed(endpoint::normalized(written)) == endpoint::normalized(written),
{
    let e = text::trimmed(written);
    text::lemma_trimmed_idempotent(written);
    if e.len() > 0 && !text::has_part(e, "://"@) {
        reveal_strlit("http://");
        let n = "http://"@ + e;
        assert(n[0] == 'h');
        assert(n.last() == e.last());
        assert(text::trim_start(n) == n);
        assert(text::trim_end(n) == n);
    }
}

// ---------------------------------------------------------------------------
// Creating
// ---------------------------------------------------------------------------
/// Creating a tunnel, as an operation.
pub open spec fn create_operation(cx: CreateContextModel) -> spec_fn(
    CreateTunnelModel,
    PlaneReplyModel,
) -> StepModel<CreateTunnelModel, TunnelSummaryModel> {
    |state: CreateTunnelModel, reply: PlaneReplyModel| create::create_step(state, cx, reply)
}

/// Whether the proxy `p` is that of a tunnel with this name and label that
/// goes to `endpoint` through `connector`.
pub open spec fn is_tunnel_proxy(
    p: HTTPProxyModel,
    id: Seq<char>,
    label: Seq<char>,
    to: Seq<char>,
    connector: Seq<char>,
) -> bool {
    &&& p.metadata.name == Some(id)
    &&& p.metadata.annotation(resources::DISPLAY_NAME_ANNOTATION@) == Some(label)
    &&& p.spec.rules == resources::tunnel_rules_model(to, connector)
}

/// What is there after a tunnel was created for `connector`.
///
/// Under a name that is new, there is an HTTPProxy with the label and the
/// endpoint, an advertisement of the target, and the policy where it is
/// switched on; all else is as before. The summary says the same.
pub open spec fn created_for(
    cx: CreateContextModel,
    before: Plane,
    outcome: TunnelSummaryModel,
    after: Plane,
    connector: Seq<char>,
) -> bool {
    let id = outcome.id;
    &&& !before.proxies.contains_key(id)
    &&& after.proxies == before.proxies.insert(id, after.proxies[id])
    &&& is_tunnel_proxy(after.proxies[id], id, cx.label, cx.endpoint, connector)
    &&& after.ads == before.ads.insert(
        id,
        resources::advertisement_spec_model(connector, cx.target),
    )
    &&& after.policies == if cx.create_policies {
        before.policies.insert(id)
    } else {
        before.policies
    }
    &&& outcome.label == cx.label
    &&& outcome.endpoint == cx.endpoint
    &&& outcome.enabled
}

/// What is there after a tunnel was created: all that [`created_for`] says, for
/// this device's own connector, or for a new one where it had none.
pub open spec fn create_goal(cx: CreateContextModel, before: Plane) -> spec_fn(
    TunnelSummaryModel,
    Plane,
) -> bool {
    |outcome: TunnelSummaryModel, after: Plane|
        exists|connector: Seq<char>|
            #[trigger] after.connectors.contains_key(connector) && plane::is_given(
                cx.search,
                before,
                connector,
            ) && created_for(cx, before, outcome, after, connector)
}

proof fn lemma_remember_runs(
    cx: CreateContextModel,
    before: Plane,
    p: Plane,
    made: HTTPProxyModel,
    connector: Seq<char>,
)
    requires
        endpoint::origin_of(cx.endpoint) is Ok,
        made.metadata.name is Some,
        p.connectors.contains_key(connector),
        plane::is_given(cx.search, before, connector),
        created_for(
            cx,
            before,
            listing::summary_with(
                made,
                made.metadata.name->0,
                cx.label,
                cx.endpoint,
                true,
            ),
            p,
            connector,
        ),
    ensures
        plane::runs(
            create_operation(cx),
            create::remember_new(cx, made),
            p,
            1,
            create_goal(cx, before),
        ),
{
    let goal = create_goal(cx, before);
    reveal_with_fuel(plane::runs, 2);
    if let StepModel::Next { state, request } = create::remember_new(cx, made) {
        assert forall|reply: PlaneReplyModel, after: Plane| #[trigger]
            plane::answers(p, request, reply, after) implies plane::runs(
            create_operation(cx),
            create_operation(cx)(state, reply),
            after,
            0,
            goal,
        ) by {
            assert(create::create_step(state, cx, reply) == create::created(cx, made));
        }
    }
}

proof fn lemma_new_proxy_label(label: Seq<char>, to: Seq<char>, connector: Seq<char>)
    ensures
        resources::new_proxy_model(label, to, connector).metadata.annotation(
            resources::DISPLAY_NAME_ANNOTATION@,
        ) == Some(label),
{
    reveal_with_fuel(crate::datum_apis::meta::lookup_from, 2);
}

proof fn lemma_create_after_search(
    cx: CreateContextModel,
    before: Plane,
    p: Plane,
    connector: ConnectorModel,
)
    requires
        p.well_formed(),
        p.same_but_connectors(before),
        before.ads.dom().subset_of(before.proxies.dom()),
        before.policies.subset_of(before.proxies.dom()),
        connector.metadata.name is Some,
        p.connectors.contains_key(connector.metadata.name->0),
        plane::is_given(cx.search, before, connector.metadata.name->0),
        endpoint::origin_of(cx.endpoint) is Ok,
    ensures
        plane::runs(
            create_operation(cx),
            after_create_search(cx)(Some(connector)),
            p,
            4,
            create_goal(cx, before),
        ),
{
    let goal = create_goal(cx, before);
    let op = create_operation(cx);
    let name = connector.metadata.name->0;
    let wanted = resources::new_proxy_model(cx.label, cx.endpoint, name);
    lemma_new_proxy_label(cx.label, cx.endpoint, name);
    let request = PlaneRequestModel::CreateProxy { proxy: wanted };
    let state = CreateTunnelModel::CreatingProxy { connector: name };
    assert forall|reply: PlaneReplyModel, after: Plane| #[trigger]
        plane::answers(p, request, reply, after) implies plane::runs(
        op,
        op(state, reply),
        after,
        3,
        goal,
    ) by {
        let made = reply->Proxy_proxy;
        let id = made.metadata.name->0;
        assert(made.metadata.annotation(resources::DISPLAY_NAME_ANNOTATION@)
            == wanted.metadata.annotation(resources::DISPLAY_NAME_ANNOTATION@));
        assert(!before.ads.dom().contains(id));
        assert(!before.policies.contains(id));
        let spec = resources::advertisement_spec_model(name, cx.target);
        let advertise = PlaneRequestModel::CreateAdvertisement {
            advertisement: resources::advertisement_model(id, spec),
        };
        let next = CreateTunnelModel::Advertising { proxy: made };
        assert forall|reply2: PlaneReplyModel, after2: Plane| #[trigger]
            plane::answers(after, advertise, reply2, after2) implies plane::runs(
            op,
            op(next, reply2),
            after2,
            2,
            goal,
        ) by {
            assert(reply2 == PlaneReplyModel::Done);
            let summary = listing::summary_with(made, id, cx.label, cx.endpoint, true);
            if cx.create_policies {
                let protect = PlaneRequestModel::CreatePolicy {
                    policy: resources::policy_model(id),
                };
                let last = CreateTunnelModel::Protecting { proxy: made };
                assert forall|reply3: PlaneReplyModel, after3: Plane| #[trigger]
                    plane::answers(after2, protect, reply3, after3) implies plane::runs(
                    op,
                    op(last, reply3),
                    after3,
                    1,
                    goal,
                ) by {
                    assert(created_for(cx, before, summary, after3, name));
                    lemma_remember_runs(cx, before, after3, made, name);
                }
            } else {
                assert(created_for(cx, before, summary, after2, name));
                lemma_remember_runs(cx, before, after2, made, name);
                plane::lemma_runs_more(op, create::remember_new(cx, made), after2, 1, 2, goal);
            }
        }
    }
}

spec fn after_create_search(cx: CreateContextModel) -> spec_fn(Option<ConnectorModel>) -> StepModel<
    CreateTunnelModel,
    TunnelSummaryModel,
> {
    |outcome: Option<ConnectorModel>|
        match outcome {
            Some(connector) => StepModel::Next {
                state: CreateTunnelModel::CreatingProxy {
                    connector: connector.metadata.name_any(),
                },
                request: PlaneRequestModel::CreateProxy {
                    proxy: resources::new_proxy_model(
                        cx.label,
                        cx.endpoint,
                        connector.metadata.name_any(),
                    ),
                },
            },
            None => StepModel::Failed { error: ServiceErrorModel::unexpected_reply() },
        }
}

/// With a control plane without faults and without leftovers of deleted
/// tunnels, creating a tunnel always ends, within ten replies and without a
/// failure, and leaves the project as [`create_goal`] says.
pub proof fn create_makes_the_tunnel(cx: CreateContextModel, written: Seq<char>, before: Plane)
    requires
        before.well_formed(),
        before.ads.dom().subset_of(before.proxies.dom()),
        before.policies.subset_of(before.proxies.dom()),
        cx.search.ensure,
        cx.endpoint == endpoint::normalized(written),
        endpoint::parsed_target(cx.endpoint) == Ok::<
            endpoint::ParsedTargetModel,
            endpoint::TargetError,
        >(cx.target),
    ensures
        plane::runs(
            create_operation(cx),
            StepModel::Next {
                state: CreateTunnelModel::Searching { search: ConnectorSearchModel::ByEndpoint },
                request: PlaneRequestModel::ListConnectors {
                    selector: Some(connector_search::endpoint_selector(cx.search.endpoint_id)),
                },
            },
            before,
            10,
            create_goal(cx, before),
        ),
{
    let goal = create_goal(cx, before);
    let op = create_operation(cx);
    let between = plane::search_goal(cx.search, before);
    target_names_an_origin(written);
    plane::search_always_succeeds(cx.search, before);
    assert forall|outcome: Option<ConnectorModel>, after: Plane| between(
        outcome,
        after,
    ) implies #[trigger] plane::runs(op, after_create_search(cx)(outcome), after, 4, goal) by {
        lemma_create_after_search(cx, before, after, outcome->0);
    }
    let wrap = |search: ConnectorSearchModel| CreateTunnelModel::Searching { search };
    let first = StepModel::<ConnectorSearchModel, Option<ConnectorModel>>::Next {
        state: ConnectorSearchModel::ByEndpoint,
        request: PlaneRequestModel::ListConnectors {
            selector: Some(connector_search::endpoint_selector(cx.search.endpoint_id)),
        },
    };
    plane::lemma_runs_chained(
        cx.search,
        op,
        wrap,
        after_create_search(cx),
        first,
        before,
        6,
        4,
        between,
        goal,
    );
}

/// Whether a summary has this ID, label, endpoint and switch.
pub open spec fn shows(
    summary: TunnelSummaryModel,
    id: Seq<char>,
    label: Seq<char>,
    to: Seq<char>,
    enabled: bool,
) -> bool {
    summary.id == id && summary.label == label && summary.endpoint == to && summary.enabled
        == enabled
}

/// A tunnel that was just created is listed for its connector, with the label
/// and the endpoint that were given, and as enabled.
pub proof fn created_tunnel_is_listed(
    cx: CreateContextModel,
    written: Seq<char>,
    before: Plane,
    outcome: TunnelSummaryModel,
    after: Plane,
    connector: Seq<char>,
    proxies: Seq<HTTPProxyModel>,
    ads: Seq<ConnectorAdvertisementModel>,
)
    requires
        cx.endpoint == endpoint::normalized(written),
        created_for(cx, before, outcome, after, connector),
        plane::lists_proxies(proxies, after.proxies),
        plane::lists_advertisements(ads, after.ads, connector),
    ensures
        exists|k: int|
            0 <= k < listing::tunnels_of(proxies, connector, ads).len() && shows(
                #[trigger] listing::tunnels_of(proxies, connector, ads)[k],
                outcome.id,
                cx.label,
                cx.endpoint,
                true,
            ),
{
    let id = outcome.id;
    let p = after.proxies[id];
    assert(after.proxies.contains_key(id));
    assert(proxies.contains(p));
    let i = choose|i: int| 0 <= i < proxies.len() && proxies[i] == p;
    assert(after.ads.contains_key(id));
    assert(listing::is_advertised(ads, id));
    resources::tunnel_rules_read_back(p, cx.endpoint, connector, connector);
    endpoint::normalizing_is_idempotent(written);
    let t = listing::tunnel_of(p, connector, ads)->0;
    assert(listing::tunnel_of(proxies[i], connector, ads) == Some(t));
    listing::lemma_tunnels_of_contains(proxies, connector, ads, t);
    let listed = listing::tunnels_of(proxies, connector, ads);
    assert(listed.contains(t));
    let k = choose|k: int| 0 <= k < listed.len() && listed[k] == t;
    assert(shows(listed[k], id, cx.label, cx.endpoint, true));
}

// ---------------------------------------------------------------------------
// Enabling and disabling
// ---------------------------------------------------------------------------
/// Switching a tunnel, as an operation.
pub open spec fn enable_operation(cx: EnableContextModel) -> spec_fn(
    EnableTunnelModel,
    PlaneReplyModel,
) -> StepModel<EnableTunnelModel, TunnelSummaryModel> {
    |state: EnableTunnelModel, reply: PlaneReplyModel| enable::enable_step(state, cx, reply)
}

/// What is there after a tunnel was switched: it is advertised, for its own
/// endpoint and this device's connector, exactly when it is enabled; all else is
/// as before.
pub open spec fn enable_goal(cx: EnableContextModel, before: Plane) -> spec_fn(
    TunnelSummaryModel,
    Plane,
) -> bool {
    |outcome: TunnelSummaryModel, after: Plane|
        {
            let p = before.proxies[cx.tunnel_id];
            let to = listing::endpoint_of(p);
            &&& after.proxies == before.proxies
            &&& after.policies == before.policies
            &&& if cx.enabled {
                exists|connector: Seq<char>| #[trigger]
                    after.connectors.contains_key(connector) && plane::is_given(
                        cx.search,
                        before,
                        connector,
                    ) && after.ads == before.ads.insert(
                        cx.tunnel_id,
                        resources::advertisement_spec_model(
                            connector,
                            endpoint::parsed_target(to)->Ok_0,
                        ),
                    )
            } else {
                after.ads == before.ads.remove(cx.tunnel_id)
            }
            &&& outcome == listing::summary_with(
                p,
                cx.tunnel_id,
                listing::label_of(p, cx.tunnel_id),
                to,
                cx.enabled,
            )
        }
}

spec fn after_enable_search(cx: EnableContextModel) -> spec_fn(Option<ConnectorModel>) -> StepModel<
    EnableTunnelModel,
    TunnelSummaryModel,
> {
    |outcome: Option<ConnectorModel>|
        match outcome {
            Some(connector) => StepModel::Next {
                state: EnableTunnelModel::Fetching { connector: connector.metadata.name_any() },
                request: PlaneRequestModel::GetProxy { name: cx.tunnel_id },
            },
            None => StepModel::Failed { error: ServiceErrorModel::unexpected_reply() },
        }
}

proof fn lemma_switched_runs(cx: EnableContextModel, before: Plane, p: Plane)
    requires
        enable_goal(cx, before)(
            listing::summary_with(
                before.proxies[cx.tunnel_id],
                cx.tunnel_id,
                listing::label_of(before.proxies[cx.tunnel_id], cx.tunnel_id),
                listing::endpoint_of(before.proxies[cx.tunnel_id]),
                cx.enabled,
            ),
            p,
        ),
    ensures
        plane::runs(
            enable_operation(cx),
            enable::switched(cx, before.proxies[cx.tunnel_id]),
            p,
            1,
            enable_goal(cx, before),
        ),
{
    reveal_with_fuel(plane::runs, 2);
    let step = enable::switched(cx, before.proxies[cx.tunnel_id]);
    if let StepModel::Next { state, request } = step {
        assert forall|reply: PlaneReplyModel, after: Plane| #[trigger]
            plane::answers(p, request, reply, after) implies plane::runs(
            enable_operation(cx),
            enable_operation(cx)(state, reply),
            after,
            0,
            enable_goal(cx, before),
        ) by {}
    }
}

proof fn lemma_enable_after_search(
    cx: EnableContextModel,
    before: Plane,
    p: Plane,
    connector: ConnectorModel,
)
    requires
        p.same_but_connectors(before),
        before.proxies.contains_key(cx.tunnel_id),
        connector.metadata.name is Some,
        p.connectors.contains_key(connector.metadata.name->0),
        plane::is_given(cx.search, before, connector.metadata.name->0),
        cx.enabled ==> endpoint::parsed_target(
            listing::endpoint_of(before.proxies[cx.tunnel_id]),
        ) is Ok,
    ensures
        plane::runs(
            enable_operation(cx),
            after_enable_search(cx)(Some(connector)),
            p,
            4,
            enable_goal(cx, before),
        ),
{
    let goal = enable_goal(cx, before);
    let op = enable_operation(cx);
    let name = connector.metadata.name->0;
    let proxy = before.proxies[cx.tunnel_id];
    let target = endpoint::parsed_target(listing::endpoint_of(proxy))->Ok_0;
    let spec = resources::advertisement_spec_model(name, target);
    let get = PlaneRequestModel::GetProxy { name: cx.tunnel_id };
    let ask = PlaneRequestModel::HasAdvertisement { name: cx.tunnel_id };
    let fetching = EnableTunnelModel::Fetching { connector: name };
    assert forall|reply: PlaneReplyModel, after: Plane| #[trigger]
        plane::answers(p, get, reply, after) implies plane::runs(
        op,
        op(fetching, reply),
        after,
        3,
        goal,
    ) by {
        assert(reply == (PlaneReplyModel::Proxy { proxy }));
        let waiting = if cx.enabled {
            EnableTunnelModel::Enabling { proxy, spec }
        } else {
            EnableTunnelModel::Disabling { proxy }
        };
        assert forall|reply2: PlaneReplyModel, after2: Plane| #[trigger]
            plane::answers(p, ask, reply2, after2) implies plane::runs(
            op,
            op(waiting, reply2),
            after2,
            2,
            goal,
        ) by {
            if let StepModel::Next { state, request } = enable::enable_step(waiting, cx, reply2) {
                if cx.enabled || p.ads.contains_key(cx.tunnel_id) {
                    assert forall|reply3: PlaneReplyModel, after3: Plane| #[trigger]
                        plane::answers(p, request, reply3, after3) implies plane::runs(
                        op,
                        op(state, reply3),
                        after3,
                        1,
                        goal,
                    ) by {
                        assert(reply3 == PlaneReplyModel::Done);
                        assert(after3.connectors.contains_key(name));
                        if cx.enabled {
                            assert(after3.ads == before.ads.insert(cx.tunnel_id, spec));
                        }
                        lemma_switched_runs(cx, before, after3);
                        assert(enable::enable_step(state, cx, reply3) == enable::switched(
                            cx,
                            proxy,
                        ));
                    }
                }
            }
            if !cx.enabled && !p.ads.contains_key(cx.tunnel_id) {
                assert(before.ads.remove(cx.tunnel_id) =~= before.ads);
                lemma_switched_runs(cx, before, p);
                plane::lemma_runs_more(op, enable::switched(cx, proxy), p, 1, 2, goal);
            }
        }
    }
}

/// With a control plane without faults, switching a tunnel that exists always
/// ends, within ten replies and without a failure, and leaves the project as
/// [`enable_goal`] says: the tunnel is advertised exactly when it is enabled.
pub proof fn enable_switches_the_advertisement(cx: EnableContextModel, before: Plane)
    requires
        before.well_formed(),
        before.proxies.contains_key(cx.tunnel_id),
        cx.search.ensure,
        cx.enabled ==> endpoint::parsed_target(
            listing::endpoint_of(before.proxies[cx.tunnel_id]),
        ) is Ok,
    ensures
        plane::runs(
            enable_operation(cx),
            StepModel::Next {
                state: EnableTunnelModel::Searching { search: ConnectorSearchModel::ByEndpoint },
                request: PlaneRequestModel::ListConnectors {
                    selector: Some(connector_search::endpoint_selector(cx.search.endpoint_id)),
                },
            },
            before,
            10,
            enable_goal(cx, before),
        ),
{
    let goal = enable_goal(cx, before);
    let op = enable_operation(cx);
    let between = plane::search_goal(cx.search, before);
    plane::search_always_succeeds(cx.search, before);
    assert forall|outcome: Option<ConnectorModel>, after: Plane| between(
        outcome,
        after,
    ) implies #[trigger] plane::runs(op, after_enable_search(cx)(outcome), after, 4, goal) by {
        lemma_enable_after_search(cx, before, after, outcome->0);
    }
    let wrap = |search: ConnectorSearchModel| EnableTunnelModel::Searching { search };
    let first = StepModel::<ConnectorSearchModel, Option<ConnectorModel>>::Next {
        state: ConnectorSearchModel::ByEndpoint,
        request: PlaneRequestModel::ListConnectors {
            selector: Some(connector_search::endpoint_selector(cx.search.endpoint_id)),
        },
    };
    plane::lemma_runs_chained(
        cx.search,
        op,
        wrap,
        after_enable_search(cx),
        first,
        before,
        6,
        4,
        between,
        goal,
    );
}

// ---------------------------------------------------------------------------
// Changing
// ---------------------------------------------------------------------------
/// Changing a tunnel, as an operation.
pub open spec fn update_operation(cx: UpdateContextModel) -> spec_fn(
    UpdateTunnelModel,
    PlaneReplyModel,
) -> StepModel<UpdateTunnelModel, TunnelSummaryModel> {
    |state: UpdateTunnelModel, reply: PlaneReplyModel| update::update_step(state, cx, reply)
}

/// What is there after a tunnel was changed for `connector`: its HTTPProxy has
/// the label, the endpoint and the hostnames that were asked for before; an
/// advertisement that exists is for the new target, and none comes or goes; all
/// else is as before.
pub open spec fn changed_for(
    cx: UpdateContextModel,
    before: Plane,
    after: Plane,
    connector: Seq<char>,
) -> bool {
    let id = cx.tunnel_id;
    &&& after.proxies == before.proxies.insert(id, after.proxies[id])
    &&& is_tunnel_proxy(after.proxies[id], id, cx.label, cx.endpoint, connector)
    &&& after.proxies[id].spec.hostnames == Some(update::asked_hostnames(before.proxies[id]))
    &&& after.ads == if before.ads.contains_key(id) {
        before.ads.insert(id, resources::advertisement_spec_model(connector, cx.target))
    } else {
        before.ads
    }
    &&& after.policies == before.policies
}

/// What is there after a tunnel was changed: all that [`changed_for`] says, for
/// this device's own connector, or for a new one where it had none. The summary
/// has the new label and endpoint.
pub open spec fn update_goal(cx: UpdateContextModel, before: Plane) -> spec_fn(
    TunnelSummaryModel,
    Plane,
) -> bool {
    |outcome: TunnelSummaryModel, after: Plane|
        {
            &&& exists|connector: Seq<char>| #[trigger]
                after.connectors.contains_key(connector) && plane::is_given(
                    cx.search,
                    before,
                    connector,
                ) && changed_for(cx, before, after, connector)
            &&& outcome == listing::summary_with(
                before.proxies[cx.tunnel_id],
                cx.tunnel_id,
                cx.label,
                cx.endpoint,
                before.ads.contains_key(cx.tunnel_id),
            )
        }
}

spec fn after_update_search(cx: UpdateContextModel) -> spec_fn(Option<ConnectorModel>) -> StepModel<
    UpdateTunnelModel,
    TunnelSummaryModel,
> {
    |outcome: Option<ConnectorModel>|
        match outcome {
            Some(connector) => StepModel::Next {
                state: UpdateTunnelModel::Fetching { connector: connector.metadata.name_any() },
                request: PlaneRequestModel::GetProxy { name: cx.tunnel_id },
            },
            None => StepModel::Failed { error: ServiceErrorModel::unexpected_reply() },
        }
}

proof fn lemma_load_runs(cx: UpdateContextModel, before: Plane, p: Plane, connector: Seq<char>)
    requires
        p.connectors.contains_key(connector),
        plane::is_given(cx.search, before, connector),
        before.proxies.contains_key(cx.tunnel_id),
        changed_for(cx, before, p, connector),
    ensures
        plane::runs(
            update_operation(cx),
            update::load(cx, before.proxies[cx.tunnel_id]),
            p,
            2,
            update_goal(cx, before),
        ),
{
    let goal = update_goal(cx, before);
    let op = update_operation(cx);
    let proxy = before.proxies[cx.tunnel_id];
    let found = before.ads.contains_key(cx.tunnel_id);
    let ask = PlaneRequestModel::HasAdvertisement { name: cx.tunnel_id };
    let loading = UpdateTunnelModel::Loading { proxy };
    reveal_with_fuel(plane::runs, 2);
    assert forall|reply: PlaneReplyModel, after: Plane| #[trigger]
        plane::answers(p, ask, reply, after) implies plane::runs(
        op,
        op(loading, reply),
        after,
        1,
        goal,
    ) by {
        assert(reply == (PlaneReplyModel::Exists { found }));
        if let StepModel::Next { state, request } = update::changed(cx, proxy, found) {
            assert forall|reply2: PlaneReplyModel, after2: Plane| #[trigger]
                plane::answers(p, request, reply2, after2) implies plane::runs(
                op,
                op(state, reply2),
                after2,
                0,
                goal,
            ) by {}
        }
    }
}

proof fn lemma_update_after_search(
    cx: UpdateContextModel,
    before: Plane,
    p: Plane,
    connector: ConnectorModel,
)
    requires
        p.well_formed(),
        p.same_but_connectors(before),
        before.proxies.contains_key(cx.tunnel_id),
        connector.metadata.name is Some,
        p.connectors.contains_key(connector.metadata.name->0),
        plane::is_given(cx.search, before, connector.metadata.name->0),
    ensures
        plane::runs(
            update_operation(cx),
            after_update_search(cx)(Some(connector)),
            p,
            6,
            update_goal(cx, before),
        ),
{
    let goal = update_goal(cx, before);
    let op = update_operation(cx);
    let name = connector.metadata.name->0;
    let id = cx.tunnel_id;
    let proxy = before.proxies[id];
    let get = PlaneRequestModel::GetProxy { name: id };
    let ask = PlaneRequestModel::HasAdvertisement { name: id };
    let fetching = UpdateTunnelModel::Fetching { connector: name };
    assert forall|reply: PlaneReplyModel, after: Plane| #[trigger]
        plane::answers(p, get, reply, after) implies plane::runs(
        op,
        op(fetching, reply),
        after,
        5,
        goal,
    ) by {
        assert(reply == (PlaneReplyModel::Proxy { proxy }));
        let patching = UpdateTunnelModel::Patching { proxy, connector: name };
        let patch = PlaneRequestModel::PatchProxy {
            name: id,
            label: cx.label,
            hostnames: update::asked_hostnames(proxy),
            rules: resources::tunnel_rules_model(cx.endpoint, name),
        };
        assert forall|reply2: PlaneReplyModel, after2: Plane| #[trigger]
            plane::answers(p, patch, reply2, after2) implies plane::runs(
            op,
            op(patching, reply2),
            after2,
            4,
            goal,
        ) by {
            assert(reply2 == PlaneReplyModel::Done);
            let checking = UpdateTunnelModel::Checking { proxy, connector: name };
            assert forall|reply3: PlaneReplyModel, after3: Plane| #[trigger]
                plane::answers(after2, ask, reply3, after3) implies plane::runs(
                op,
                op(checking, reply3),
                after3,
                3,
                goal,
            ) by {
                if before.ads.contains_key(id) {
                    let spec = resources::advertisement_spec_model(name, cx.target);
                    let readvertise = PlaneRequestModel::PatchAdvertisement { name: id, spec };
                    let waiting = UpdateTunnelModel::Readvertising { proxy };
                    assert forall|reply4: PlaneReplyModel, after4: Plane| #[trigger]
                        plane::answers(after2, readvertise, reply4, after4) implies plane::runs(
                        op,
                        op(waiting, reply4),
                        after4,
                        2,
                        goal,
                    ) by {
                        assert(changed_for(cx, before, after4, name));
                        lemma_load_runs(cx, before, after4, name);
                    }
                } else {
                    assert(changed_for(cx, before, after2, name));
                    lemma_load_runs(cx, before, after2, name);
                    plane::lemma_runs_more(op, update::load(cx, proxy), after2, 2, 3, goal);
                }
            }
        }
    }
}

/// With a control plane without faults, changing a tunnel that exists always
/// ends, within twelve replies and without a failure, and leaves the project
/// as [`update_goal`] says.
pub proof fn update_changes_the_tunnel(cx: UpdateContextModel, before: Plane)
    requires
        before.well_formed(),
        before.proxies.contains_key(cx.tunnel_id),
        cx.search.ensure,
    ensures
        plane::runs(
            update_operation(cx),
            StepModel::Next {
                state: UpdateTunnelModel::Searching { search: ConnectorSearchModel::ByEndpoint },
                request: PlaneRequestModel::ListConnectors {
                    selector: Some(connector_search::endpoint_selector(cx.search.endpoint_id)),
                },
            },
            before,
            12,
            update_goal(cx, before),
        ),
{
    let goal = update_goal(cx, before);
    let op = update_operation(cx);
    let between = plane::search_goal(cx.search, before);
    plane::search_always_succeeds(cx.search, before);
    assert forall|outcome: Option<ConnectorModel>, after: Plane| between(
        outcome,
        after,
    ) implies #[trigger] plane::runs(op, after_update_search(cx)(outcome), after, 6, goal) by {
        lemma_update_after_search(cx, before, after, outcome->0);
    }
    let wrap = |search: ConnectorSearchModel| UpdateTunnelModel::Searching { search };
    let first = StepModel::<ConnectorSearchModel, Option<ConnectorModel>>::Next {
        state: ConnectorSearchModel::ByEndpoint,
        request: PlaneRequestModel::ListConnectors {
            selector: Some(connector_search::endpoint_selector(cx.search.endpoint_id)),
        },
    };
    plane::lemma_runs_chained(
        cx.search,
        op,
        wrap,
        after_update_search(cx),
        first,
        before,
        6,
        6,
        between,
        goal,
    );
}

} // verus!
