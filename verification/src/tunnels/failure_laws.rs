//! Laws of requests that fail: which of them end an operation and with what words,
//! and which do not matter.
use vstd::prelude::*;

use crate::datum_apis::connector::ConnectorModel;
use crate::datum_apis::http_proxy::HTTPProxyModel;
use crate::tunnels::connector_search;
use crate::tunnels::connector_search::{ConnectorSearchModel, SearchContextModel};
use crate::tunnels::create;
use crate::tunnels::create::{CreateContextModel, CreateTunnelModel};
use crate::tunnels::delete;
use crate::tunnels::delete::{DeleteContextModel, DeleteTunnelModel};
use crate::tunnels::enable;
use crate::tunnels::enable::{EnableContextModel, EnableTunnelModel};
use crate::tunnels::listing;
use crate::tunnels::listing::{ListTunnelsModel, ReadProgressModel, TunnelSummaryModel};
use crate::tunnels::requests::{PlaneReplyModel, ServiceErrorModel, StepModel};
use crate::tunnels::update;
use crate::tunnels::update::{UpdateContextModel, UpdateTunnelModel};

verus! {

/// Whether an operation has failed while doing what `context` says, because of
/// `cause`.
pub open spec fn failed_while<S, O>(
    step: StepModel<S, O>,
    context: Seq<char>,
    cause: Seq<char>,
) -> bool {
    step == StepModel::<S, O>::Failed {
        error: ServiceErrorModel { context, cause: Some(cause) },
    }
}

/// The search for the connector fails where connectors cannot be listed, created or
/// read again, and says so.
pub proof fn search_fails_where_connectors_cannot_be_had(cx: SearchContextModel, error: Seq<char>)
    ensures
        ({
            let failed = PlaneReplyModel::Failed { error };
            &&& failed_while(
                connector_search::search_step(ConnectorSearchModel::ByEndpoint, cx, failed),
                "Failed to list connectors"@,
                error,
            )
            &&& failed_while(
                connector_search::search_step(ConnectorSearchModel::Fallback, cx, failed),
                "Failed to list connectors for fallback"@,
                error,
            )
            &&& failed_while(
                connector_search::search_step(ConnectorSearchModel::Reloading, cx, failed),
                "Failed to reload connector after patch"@,
                error,
            )
            &&& failed_while(
                connector_search::search_step(ConnectorSearchModel::Creating, cx, failed),
                "Failed to create Connector"@,
                error,
            )
        }),
{
}

/// A connector that could not be told of the device, or of its annotations, is used
/// as it was.
pub proof fn search_goes_on_where_telling_fails(
    cx: SearchContextModel,
    connector: ConnectorModel,
    error: Seq<char>,
)
    ensures
        ({
            let failed = PlaneReplyModel::Failed { error };
            &&& connector_search::search_step(
                ConnectorSearchModel::Annotating { connector },
                cx,
                failed,
            ) == (StepModel::<ConnectorSearchModel, Option<ConnectorModel>>::Finished {
                outcome: Some(connector),
            })
            &&& connector_search::search_step(
                ConnectorSearchModel::TellingNew { connector },
                cx,
                failed,
            ) == (StepModel::<ConnectorSearchModel, Option<ConnectorModel>>::Finished {
                outcome: Some(connector),
            })
            &&& connector_search::search_step(
                ConnectorSearchModel::Telling { connector },
                cx,
                failed,
            ) == connector_search::search_step(
                ConnectorSearchModel::Reloading,
                cx,
                PlaneReplyModel::Connector { connector },
            )
        }),
{
}

/// Creating and changing a tunnel fail with the request that failed; that the device
/// cannot remember the tunnel does not matter.
pub proof fn changes_fail_with_their_requests(
    ccx: CreateContextModel,
    ucx: UpdateContextModel,
    proxy: HTTPProxyModel,
    connector: Seq<char>,
    summary: TunnelSummaryModel,
    error: Seq<char>,
)
    ensures
        ({
            let failed = PlaneReplyModel::Failed { error };
            &&& create::create_step(CreateTunnelModel::Remembering { proxy }, ccx, failed)
                == create::create_step(
                CreateTunnelModel::Remembering { proxy },
                ccx,
                PlaneReplyModel::Done,
            )
            &&& failed_while(
                update::update_step(UpdateTunnelModel::Fetching { connector }, ucx, failed),
                "Failed to fetch HTTPProxy"@,
                error,
            )
            &&& failed_while(
                update::update_step(UpdateTunnelModel::Patching { proxy, connector }, ucx, failed),
                "Failed to update HTTPProxy"@,
                error,
            )
            &&& update::update_step(UpdateTunnelModel::Checking { proxy, connector }, ucx, failed)
                == update::update_step(
                UpdateTunnelModel::Checking { proxy, connector },
                ucx,
                PlaneReplyModel::Exists { found: false },
            )
            &&& failed_while(
                update::update_step(UpdateTunnelModel::Readvertising { proxy }, ucx, failed),
                "Failed to update ConnectorAdvertisement"@,
                error,
            )
            &&& failed_while(
                update::update_step(UpdateTunnelModel::Loading { proxy }, ucx, failed),
                "Failed to load ConnectorAdvertisement"@,
                error,
            )
            &&& update::update_step(UpdateTunnelModel::Remembering { summary }, ucx, failed) == (
            StepModel::<UpdateTunnelModel, TunnelSummaryModel>::Finished { outcome: summary })
        }),
{
}

/// The words for a resource that could not be created name the resource.
pub proof fn creations_fail_with_their_resource(
    cx: CreateContextModel,
    proxy: HTTPProxyModel,
    connector: Seq<char>,
    error: Seq<char>,
)
    requires
        !crate::text::has_part(error, "quota"@),
    ensures
        ({
            let failed = PlaneReplyModel::Failed { error };
            &&& create::create_step(CreateTunnelModel::CreatingProxy { connector }, cx, failed) == (
            StepModel::<CreateTunnelModel, TunnelSummaryModel>::Failed {
                error: ServiceErrorModel {
                    context: "Failed to create "@ + "HTTPProxy"@ + ": "@ + error,
                    cause: None,
                },
            })
            &&& create::create_step(CreateTunnelModel::Advertising { proxy }, cx, failed) == (
            StepModel::<CreateTunnelModel, TunnelSummaryModel>::Failed {
                error: ServiceErrorModel {
                    context: "Failed to create "@ + "ConnectorAdvertisement"@ + ": "@ + error,
                    cause: None,
                },
            })
            &&& create::create_step(CreateTunnelModel::Protecting { proxy }, cx, failed) == (
            StepModel::<CreateTunnelModel, TunnelSummaryModel>::Failed {
                error: ServiceErrorModel {
                    context: "Failed to create "@ + "TrafficProtectionPolicy"@ + ": "@ + error,
                    cause: None,
                },
            })
        }),
{
}

/// Switching a tunnel fails with the request that failed; that the device cannot
/// remember the switch does not matter.
pub proof fn switches_fail_with_their_requests(
    cx: EnableContextModel,
    state: EnableTunnelModel,
    error: Seq<char>,
)
    ensures
        ({
            let step = enable::enable_step(state, cx, PlaneReplyModel::Failed { error });
            match state {
                EnableTunnelModel::Searching { .. } => true,
                EnableTunnelModel::Fetching { .. } => failed_while(
                    step,
                    "Failed to fetch HTTPProxy"@,
                    error,
                ),
                EnableTunnelModel::Enabling { .. } => failed_while(
                    step,
                    "Failed to load ConnectorAdvertisement"@,
                    error,
                ),
                EnableTunnelModel::Disabling { .. } => failed_while(
                    step,
                    "Failed to load ConnectorAdvertisement"@,
                    error,
                ),
                EnableTunnelModel::Readvertising { .. } => failed_while(
                    step,
                    "Failed to update ConnectorAdvertisement"@,
                    error,
                ),
                EnableTunnelModel::Advertising { .. } => failed_while(
                    step,
                    "Failed to create ConnectorAdvertisement"@,
                    error,
                ),
                EnableTunnelModel::Withdrawing { .. } => failed_while(
                    step,
                    "Failed to delete ConnectorAdvertisement"@,
                    error,
                ),
                EnableTunnelModel::Remembering { summary } => step == (StepModel::<
                    EnableTunnelModel,
                    TunnelSummaryModel,
                >::Finished { outcome: summary }),
            }
        }),
{
}

/// Deleting a tunnel fails with the request that failed; that the device cannot
/// forget it, or that an advertisement that nobody needs stays, does not matter.
pub proof fn deletions_fail_with_their_requests(
    cx: DeleteContextModel,
    state: DeleteTunnelModel,
    error: Seq<char>,
)
    ensures
        ({
            let step = delete::delete_step(state, cx, PlaneReplyModel::Failed { error });
            let done = delete::delete_step(state, cx, PlaneReplyModel::Done);
            match state {
                DeleteTunnelModel::Searching { .. } => true,
                DeleteTunnelModel::CheckingProxy { .. } => failed_while(
                    step,
                    "Failed to load HTTPProxy"@,
                    error,
                ),
                DeleteTunnelModel::DeletingProxy { .. } => failed_while(
                    step,
                    "Failed to delete HTTPProxy"@,
                    error,
                ),
                DeleteTunnelModel::CheckingAdvertisement { .. } => failed_while(
                    step,
                    "Failed to load ConnectorAdvertisement"@,
                    error,
                ),
                DeleteTunnelModel::DeletingAdvertisement { .. } => failed_while(
                    step,
                    "Failed to delete ConnectorAdvertisement"@,
                    error,
                ),
                DeleteTunnelModel::CheckingPolicy { .. } => failed_while(
                    step,
                    "Failed to load TrafficProtectionPolicy"@,
                    error,
                ),
                DeleteTunnelModel::DeletingPolicy { .. } => failed_while(
                    step,
                    "Failed to delete TrafficProtectionPolicy"@,
                    error,
                ),
                DeleteTunnelModel::Withdrawing { .. } => step == done && !(step is Failed),
                DeleteTunnelModel::CheckingOthers { .. } => failed_while(
                    step,
                    "Failed to list remaining HTTPProxy objects"@,
                    error,
                ),
                DeleteTunnelModel::ListingLeftovers { .. } => failed_while(
                    step,
                    "Failed to list remaining ConnectorAdvertisements"@,
                    error,
                ),
                DeleteTunnelModel::DeletingLeftovers { .. } => step == done && !(step is Failed),
                DeleteTunnelModel::CheckingConnector { .. } => failed_while(
                    step,
                    "Failed to load Connector"@,
                    error,
                ),
                DeleteTunnelModel::DeletingConnector => failed_while(
                    step,
                    "Failed to delete Connector"@,
                    error,
                ),
            }
        }),
{
}

/// Listing the tunnels and reading their progress fail with the request that failed.
pub proof fn readings_fail_with_their_requests(
    connector_name: Seq<char>,
    proxies: Seq<HTTPProxyModel>,
    proxy: HTTPProxyModel,
    error: Seq<char>,
)
    ensures
        ({
            let failed = PlaneReplyModel::Failed { error };
            &&& failed_while(
                listing::list_step(ListTunnelsModel::Searching, failed),
                "Failed to list connectors"@,
                error,
            )
            &&& failed_while(
                listing::list_step(ListTunnelsModel::Listing { connector_name }, failed),
                "Failed to list HTTPProxy objects"@,
                error,
            )
            &&& failed_while(
                listing::list_step(
                    ListTunnelsModel::Advertised { connector_name, proxies },
                    failed,
                ),
                "Failed to list ConnectorAdvertisement objects"@,
                error,
            )
            &&& failed_while(
                listing::read_progress_step(ReadProgressModel::Proxy, failed),
                "Failed to fetch HTTPProxy"@,
                error,
            )
            &&& failed_while(
                listing::read_progress_step(ReadProgressModel::ItsConnector { proxy }, failed),
                "Failed to fetch Connector"@,
                error,
            )
        }),
{
}

/// A reply that is none to the request ends an operation.
pub proof fn wrong_reply_ends_the_operation(
    ccx: CreateContextModel,
    cx: EnableContextModel,
    connector: Seq<char>,
    proxy: HTTPProxyModel,
)
    ensures
        ({
            let error = ServiceErrorModel {
                context: "unexpected reply from the control plane"@,
                cause: None,
            };
            &&& create::create_step(
                CreateTunnelModel::CreatingProxy { connector },
                ccx,
                PlaneReplyModel::Done,
            ) == (StepModel::<CreateTunnelModel, TunnelSummaryModel>::Failed { error })
            &&& enable::enable_step(
                EnableTunnelModel::Advertising { proxy },
                cx,
                PlaneReplyModel::Exists { found: true },
            ) == (StepModel::<EnableTunnelModel, TunnelSummaryModel>::Failed { error })
        }),
{
}

} // verus!
