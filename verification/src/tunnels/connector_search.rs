//! Finding the connector of this device in a project, and making one where it
//! is needed and there is none.
use vstd::prelude::*;

use crate::datum_apis::connector::{Connector, ConnectorModel};
use crate::text;
use crate::tunnels::requests::{
    PlaneReply, PlaneReplyModel, PlaneRequest, PlaneRequestModel, ServiceError, ServiceErrorModel,
    Step, StepModel,
};
use crate::tunnels::resources;
use crate::tunnels::resources::CONNECTOR_SELECTOR_FIELD;

verus! {

/// Whose connector is searched, and whether one is made where there is none.
#[derive(Debug, Clone, PartialEq, Eq)]
pub struct SearchContext {
    /// The endpoint of this device.
    pub endpoint_id: String,
    /// The annotations that describe this device.
    pub annotations: Vec<(String, String)>,
    /// Whether a missing connector is created.
    pub ensure: bool,
}

/// The model of a [`SearchContext`].
#[verifier::ext_equal]
pub struct SearchContextModel {
    pub endpoint_id: Seq<char>,
    pub annotations: Seq<(Seq<char>, Seq<char>)>,
    pub ensure: bool,
}

impl DeepView for SearchContext {
    type V = SearchContextModel;

    open spec fn deep_view(&self) -> SearchContextModel {
        SearchContextModel {
            endpoint_id: self.endpoint_id.deep_view(),
            annotations: self.annotations.deep_view(),
            ensure: self.ensure,
        }
    }
}

/// How far the search for the connector of this device is: what it waits for.
#[derive(Debug, Clone, PartialEq, Eq)]
pub enum ConnectorSearch {
    /// The connectors that have the endpoint of this device.
    ByEndpoint,
    /// All connectors.
    Fallback,
    /// The endpoint, to tell it to a connector that does not have it yet.
    Describing { connector: Connector },
    /// That the connector was told how it is reached.
    Telling { connector: Connector },
    /// The connector after it was told.
    Reloading,
    /// That the annotations of the connector are set.
    Annotating { connector: Connector },
    /// The new connector.
    Creating,
    /// The endpoint, to tell it to the new connector.
    DescribingNew { connector: Connector },
    /// That the new connector was told how it is reached.
    TellingNew { connector: Connector },
}

/// The model of a [`ConnectorSearch`].
#[verifier::ext_equal]
pub enum ConnectorSearchModel {
    ByEndpoint,
    Fallback,
    Describing { connector: ConnectorModel },
    Telling { connector: ConnectorModel },
    Reloading,
    Annotating { connector: ConnectorModel },
    Creating,
    DescribingNew { connector: ConnectorModel },
    TellingNew { connector: ConnectorModel },
}

impl DeepView for ConnectorSearch {
    type V = ConnectorSearchModel;

    open spec fn deep_view(&self) -> ConnectorSearchModel {
        match self {
            ConnectorSearch::ByEndpoint => ConnectorSearchModel::ByEndpoint,
            ConnectorSearch::Fallback => ConnectorSearchModel::Fallback,
            ConnectorSearch::Describing { connector } => ConnectorSearchModel::Describing {
                connector: connector.deep_view(),
            },
            ConnectorSearch::Telling { connector } => ConnectorSearchModel::Telling {
                connector: connector.deep_view(),
            },
            ConnectorSearch::Reloading => ConnectorSearchModel::Reloading,
            ConnectorSearch::Annotating { connector } => ConnectorSearchModel::Annotating {
                connector: connector.deep_view(),
            },
            ConnectorSearch::Creating => ConnectorSearchModel::Creating,
            ConnectorSearch::DescribingNew { connector } => ConnectorSearchModel::DescribingNew {
                connector: connector.deep_view(),
            },
            ConnectorSearch::TellingNew { connector } => ConnectorSearchModel::TellingNew {
                connector: connector.deep_view(),
            },
        }
    }
}

/// The selector of the connectors with the endpoint `id`.
pub open spec fn endpoint_selector(id: Seq<char>) -> Seq<char> {
    CONNECTOR_SELECTOR_FIELD@ + "="@ + id
}

/// The end of a search that found no connector: one is made where it is
/// needed.
pub open spec fn when_missing(cx: SearchContextModel) -> StepModel<
    ConnectorSearchModel,
    Option<ConnectorModel>,
> {
    if cx.ensure {
        StepModel::Next {
            state: ConnectorSearchModel::Creating,
            request: PlaneRequestModel::CreateConnector {
                connector: resources::new_connector_model(cx.annotations),
            },
        }
    } else {
        StepModel::Finished { outcome: None }
    }
}

/// The end of a search that found `connector`: its annotations are set where
/// they do not describe this device.
pub open spec fn when_found(cx: SearchContextModel, connector: ConnectorModel) -> StepModel<
    ConnectorSearchModel,
    Option<ConnectorModel>,
> {
    if resources::annotations_differ(cx.annotations, connector.metadata) {
        StepModel::Next {
            state: ConnectorSearchModel::Annotating { connector },
            request: PlaneRequestModel::PatchConnectorAnnotations {
                name: connector.metadata.name_any(),
                annotations: cx.annotations,
            },
        }
    } else {
        StepModel::Finished { outcome: Some(connector) }
    }
}

/// What the search does when a reply comes.
///
/// The first connector with the endpoint of this device is taken. Where there
/// is none, the only connector of the project is: it is told how it is
/// reached, as far as this device knows that, and read again. That telling it
/// or annotating it fails does not fail the search.
pub open spec fn search_step(
    state: ConnectorSearchModel,
    cx: SearchContextModel,
    reply: PlaneReplyModel,
) -> StepModel<ConnectorSearchModel, Option<ConnectorModel>> {
    match (state, reply) {
        (ConnectorSearchModel::ByEndpoint, PlaneReplyModel::Connectors { items }) => {
            if items.len() == 0 {
                StepModel::Next {
                    state: ConnectorSearchModel::Fallback,
                    request: PlaneRequestModel::ListConnectors { selector: None },
                }
            } else {
                when_found(cx, items[0])
            }
        },
        (ConnectorSearchModel::ByEndpoint, PlaneReplyModel::Failed { error }) => StepModel::Failed {
            error: ServiceErrorModel::because("Failed to list connectors"@, error),
        },
        (ConnectorSearchModel::Fallback, PlaneReplyModel::Connectors { items }) => {
            if items.len() != 1 {
                when_missing(cx)
            } else if resources::connector_endpoint_id(items[0]) != Some(cx.endpoint_id) {
                StepModel::Next {
                    state: ConnectorSearchModel::Describing { connector: items[0] },
                    request: PlaneRequestModel::DescribeEndpoint,
                }
            } else {
                when_found(cx, items[0])
            }
        },
        (ConnectorSearchModel::Fallback, PlaneReplyModel::Failed { error }) => StepModel::Failed {
            error: ServiceErrorModel::because("Failed to list connectors for fallback"@, error),
        },
        (
            ConnectorSearchModel::Describing { connector },
            PlaneReplyModel::Endpoint { endpoint },
        ) => match resources::connection_details_of(endpoint) {
            Some(details) => StepModel::Next {
                state: ConnectorSearchModel::Telling { connector },
                request: PlaneRequestModel::PatchConnectorDetails {
                    name: connector.metadata.name_any(),
                    details,
                },
            },
            None => when_found(cx, connector),
        },
        (ConnectorSearchModel::Telling { connector }, PlaneReplyModel::Done) => StepModel::Next {
            state: ConnectorSearchModel::Reloading,
            request: PlaneRequestModel::GetConnector { name: connector.metadata.name_any() },
        },
        (ConnectorSearchModel::Telling { connector }, PlaneReplyModel::Failed { .. }) => when_found(
            cx,
            connector,
        ),
        (ConnectorSearchModel::Reloading, PlaneReplyModel::Connector { connector }) => when_found(
            cx,
            connector,
        ),
        (ConnectorSearchModel::Reloading, PlaneReplyModel::Failed { error }) => StepModel::Failed {
            error: ServiceErrorModel::because("Failed to reload connector after patch"@, error),
        },
        (
            ConnectorSearchModel::Annotating { .. },
            PlaneReplyModel::Connector { connector },
        ) => StepModel::Finished { outcome: Some(connector) },
        (
            ConnectorSearchModel::Annotating { connector },
            PlaneReplyModel::Failed { .. },
        ) => StepModel::Finished { outcome: Some(connector) },
        (
            ConnectorSearchModel::Creating,
            PlaneReplyModel::Connector { connector },
        ) => StepModel::Next {
            state: ConnectorSearchModel::DescribingNew { connector },
            request: PlaneRequestModel::DescribeEndpoint,
        },
        (ConnectorSearchModel::Creating, PlaneReplyModel::Failed { error }) => StepModel::Failed {
            error: ServiceErrorModel::because("Failed to create Connector"@, error),
        },
        (
            ConnectorSearchModel::DescribingNew { connector },
            PlaneReplyModel::Endpoint { endpoint },
        ) => match resources::connection_details_of(endpoint) {
            Some(details) => StepModel::Next {
                state: ConnectorSearchModel::TellingNew { connector },
                request: PlaneRequestModel::PatchConnectorDetails {
                    name: connector.metadata.name_any(),
                    details,
                },
            },
            None => StepModel::Finished { outcome: Some(connector) },
        },
        (
            ConnectorSearchModel::TellingNew { connector },
            PlaneReplyModel::Done,
        ) => StepModel::Finished { outcome: Some(connector) },
        (
            ConnectorSearchModel::TellingNew { connector },
            PlaneReplyModel::Failed { .. },
        ) => StepModel::Finished { outcome: Some(connector) },
        _ => StepModel::Failed { error: ServiceErrorModel::unexpected_reply() },
    }
}

/// A copy of a list of annotations.
pub fn copy_annotations(annotations: &Vec<(String, String)>) -> (r: Vec<(String, String)>)
    ensures
        r.deep_view() == annotations.deep_view(),
{
    let mut out: Vec<(String, String)> = Vec::new();
    let mut i: usize = 0;
    while i < annotations.len()
        invariant
            i <= annotations@.len(),
            out@.len() == i,
            forall|j: int|
                0 <= j < i ==> (#[trigger] out@[j]).deep_view() == annotations@[j].deep_view(),
        decreases annotations@.len() - i,
    {
        out.push((annotations[i].0.clone(), annotations[i].1.clone()));
        i = i + 1;
    }
    assert(out.deep_view() =~= annotations.deep_view());
    out
}

/// The first of a list that has one.
pub fn take_first(items: Vec<Connector>) -> (r: Connector)
    requires
        items@.len() > 0,
    ensures
        r.deep_view() == items.deep_view()[0],
{
    let mut items = items;
    items.remove(0)
}

impl SearchContext {
    fn missing(&self) -> (r: Step<ConnectorSearch, Option<Connector>>)
        ensures
            r.deep_view() == when_missing(self.deep_view()),
    {
        if self.ensure {
            Step::Next {
                state: ConnectorSearch::Creating,
                request: PlaneRequest::CreateConnector {
                    connector: resources::new_connector(copy_annotations(&self.annotations)),
                },
            }
        } else {
            Step::Finished { outcome: None }
        }
    }

    fn found(&self, connector: Connector) -> (r: Step<ConnectorSearch, Option<Connector>>)
        ensures
            r.deep_view() == when_found(self.deep_view(), connector.deep_view()),
    {
        if resources::needs_annotation_patch(&self.annotations, &connector.metadata) {
            let name = connector.metadata.name_any();
            Step::Next {
                state: ConnectorSearch::Annotating { connector },
                request: PlaneRequest::PatchConnectorAnnotations {
                    name,
                    annotations: copy_annotations(&self.annotations),
                },
            }
        } else {
            Step::Finished { outcome: Some(connector) }
        }
    }

    /// The first request of a search.
    pub fn start(&self) -> (r: PlaneRequest)
        ensures
            r.deep_view() == (PlaneRequestModel::ListConnectors {
                selector: Some(endpoint_selector(self.deep_view().endpoint_id)),
            }),
    {
        PlaneRequest::ListConnectors {
            selector: Some(text::concat3(CONNECTOR_SELECTOR_FIELD, "=", &self.endpoint_id)),
        }
    }
}

impl ConnectorSearch {
    /// Goes on with the search when a reply comes.
    pub fn step(self, cx: &SearchContext, reply: PlaneReply) -> (r: Step<
        ConnectorSearch,
        Option<Connector>,
    >)
        ensures
            r.deep_view() == search_step(self.deep_view(), cx.deep_view(), reply.deep_view()),
    {
        match (self, reply) {
            (ConnectorSearch::ByEndpoint, PlaneReply::Connectors { items }) => {
                if items.len() == 0 {
                    Step::Next {
                        state: ConnectorSearch::Fallback,
                        request: PlaneRequest::ListConnectors { selector: None },
                    }
                } else {
                    cx.found(take_first(items))
                }
            },
            (ConnectorSearch::ByEndpoint, PlaneReply::Failed { error }) => Step::Failed {
                error: ServiceError::because("Failed to list connectors", error),
            },
            (ConnectorSearch::Fallback, PlaneReply::Connectors { items }) => {
                if items.len() != 1 {
                    cx.missing()
                } else {
                    let connector = take_first(items);
                    if resources::needs_details_patch(&connector, &cx.endpoint_id) {
                        Step::Next {
                            state: ConnectorSearch::Describing { connector },
                            request: PlaneRequest::DescribeEndpoint,
                        }
                    } else {
                        cx.found(connector)
                    }
                }
            },
            (ConnectorSearch::Fallback, PlaneReply::Failed { error }) => Step::Failed {
                error: ServiceError::because("Failed to list connectors for fallback", error),
            },
            (ConnectorSearch::Describing { connector }, PlaneReply::Endpoint { endpoint }) => {
                match resources::build_connection_details(&endpoint) {
                    Some(details) => {
                        let name = connector.metadata.name_any();
                        Step::Next {
                            state: ConnectorSearch::Telling { connector },
                            request: PlaneRequest::PatchConnectorDetails { name, details },
                        }
                    },
                    None => cx.found(connector),
                }
            },
            (ConnectorSearch::Telling { connector }, PlaneReply::Done) => Step::Next {
                state: ConnectorSearch::Reloading,
                request: PlaneRequest::GetConnector { name: connector.metadata.name_any() },
            },
            (ConnectorSearch::Telling { connector }, PlaneReply::Failed { .. }) => cx.found(
                connector,
            ),
            (ConnectorSearch::Reloading, PlaneReply::Connector { connector }) => cx.found(connector),
            (ConnectorSearch::Reloading, PlaneReply::Failed { error }) => Step::Failed {
                error: ServiceError::because("Failed to reload connector after patch", error),
            },
            (ConnectorSearch::Annotating { .. }, PlaneReply::Connector { connector }) => {
                Step::Finished { outcome: Some(connector) }
            },
            (ConnectorSearch::Annotating { connector }, PlaneReply::Failed { .. }) => {
                Step::Finished { outcome: Some(connector) }
            },
            (ConnectorSearch::Creating, PlaneReply::Connector { connector }) => Step::Next {
                state: ConnectorSearch::DescribingNew { connector },
                request: PlaneRequest::DescribeEndpoint,
            },
            (ConnectorSearch::Creating, PlaneReply::Failed { error }) => Step::Failed {
                error: ServiceError::because("Failed to create Connector", error),
            },
            (ConnectorSearch::DescribingNew { connector }, PlaneReply::Endpoint { endpoint }) => {
                match resources::build_connection_details(&endpoint) {
                    Some(details) => {
                        let name = connector.metadata.name_any();
                        Step::Next {
                            state: ConnectorSearch::TellingNew { connector },
                            request: PlaneRequest::PatchConnectorDetails { name, details },
                        }
                    },
                    None => Step::Finished { outcome: Some(connector) },
                }
            },
            (ConnectorSearch::TellingNew { connector }, PlaneReply::Done) => Step::Finished {
                outcome: Some(connector),
            },
            (ConnectorSearch::TellingNew { connector }, PlaneReply::Failed { .. }) => {
                Step::Finished { outcome: Some(connector) }
            },
            _ => Step::Failed { error: ServiceError::unexpected_reply() },
        }
    }
}

} // verus!
