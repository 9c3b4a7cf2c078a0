//! The Connector resource.
use vstd::prelude::*;

use crate::datum_apis::meta::{Condition, ConditionModel, ObjectMeta, ObjectMetaModel};

verus! {

/// Names a connector in the same namespace.
#[derive(Debug, Clone, PartialEq, Eq)]
pub struct LocalConnectorReference {
    pub name: String,
}

/// The model of a [`LocalConnectorReference`].
#[verifier::ext_equal]
pub struct LocalConnectorReferenceModel {
    pub name: Seq<char>,
}

impl DeepView for LocalConnectorReference {
    type V = LocalConnectorReferenceModel;

    open spec fn deep_view(&self) -> LocalConnectorReferenceModel {
        LocalConnectorReferenceModel {
            name: self.name.deep_view(),
        }
    }
}

/// The desired state of a Connector.
#[derive(Debug, Clone, PartialEq, Eq)]
pub struct ConnectorSpec {
    pub connector_class_name: String,
}

/// The model of a [`ConnectorSpec`].
#[verifier::ext_equal]
pub struct ConnectorSpecModel {
    pub connector_class_name: Seq<char>,
}

impl DeepView for ConnectorSpec {
    type V = ConnectorSpecModel;

    open spec fn deep_view(&self) -> ConnectorSpecModel {
        ConnectorSpecModel {
            connector_class_name: self.connector_class_name.deep_view(),
        }
    }
}

/// How a connector is reached.
#[derive(Debug, Clone, Copy, PartialEq, Eq, Structural)]
pub enum ConnectorConnectionType {
    PublicKey,
}

impl DeepView for ConnectorConnectionType {
    type V = ConnectorConnectionType;

    open spec fn deep_view(&self) -> ConnectorConnectionType {
        *self
    }
}

/// How the addresses behind a public key are found.
#[derive(Debug, Clone, Copy, PartialEq, Eq, Structural)]
pub enum PublicKeyDiscoveryMode {
    Dns,
}

impl DeepView for PublicKeyDiscoveryMode {
    type V = PublicKeyDiscoveryMode;

    open spec fn deep_view(&self) -> PublicKeyDiscoveryMode {
        *self
    }
}

/// One direct address of a connector.
#[derive(Debug, Clone, PartialEq, Eq)]
pub struct PublicKeyConnectorAddress {
    pub address: String,
    pub port: i32,
}

/// The model of a [`PublicKeyConnectorAddress`].
#[verifier::ext_equal]
pub struct PublicKeyConnectorAddressModel {
    pub address: Seq<char>,
    pub port: i32,
}

impl DeepView for PublicKeyConnectorAddress {
    type V = PublicKeyConnectorAddressModel;

    open spec fn deep_view(&self) -> PublicKeyConnectorAddressModel {
        PublicKeyConnectorAddressModel {
            address: self.address.deep_view(),
            port: self.port,
        }
    }
}

/// The public key of a connector and where it is reached.
#[derive(Debug, Clone, PartialEq, Eq)]
pub struct ConnectorConnectionDetailsPublicKey {
    pub id: String,
    pub discovery_mode: Option<PublicKeyDiscoveryMode>,
    pub home_relay: String,
    pub addresses: Vec<PublicKeyConnectorAddress>,
}

/// The model of a [`ConnectorConnectionDetailsPublicKey`].
#[verifier::ext_equal]
pub struct ConnectorConnectionDetailsPublicKeyModel {
    pub id: Seq<char>,
    pub discovery_mode: Option<PublicKeyDiscoveryMode>,
    pub home_relay: Seq<char>,
    pub addresses: Seq<PublicKeyConnectorAddressModel>,
}

impl DeepView for ConnectorConnectionDetailsPublicKey {
    type V = ConnectorConnectionDetailsPublicKeyModel;

    open spec fn deep_view(&self) -> ConnectorConnectionDetailsPublicKeyModel {
        ConnectorConnectionDetailsPublicKeyModel {
            id: self.id.deep_view(),
            discovery_mode: self.discovery_mode.deep_view(),
            home_relay: self.home_relay.deep_view(),
            addresses: self.addresses.deep_view(),
        }
    }
}

/// How to reach a connector.
#[derive(Debug, Clone, PartialEq, Eq)]
pub struct ConnectorConnectionDetails {
    pub connection_type: ConnectorConnectionType,
    pub public_key: Option<ConnectorConnectionDetailsPublicKey>,
}

/// The model of a [`ConnectorConnectionDetails`].
#[verifier::ext_equal]
pub struct ConnectorConnectionDetailsModel {
    pub connection_type: ConnectorConnectionType,
    pub public_key: Option<ConnectorConnectionDetailsPublicKeyModel>,
}

impl DeepView for ConnectorConnectionDetails {
    type V = ConnectorConnectionDetailsModel;

    open spec fn deep_view(&self) -> ConnectorConnectionDetailsModel {
        ConnectorConnectionDetailsModel {
            connection_type: self.connection_type.deep_view(),
            public_key: self.public_key.deep_view(),
        }
    }
}

/// The observed state of a Connector.
#[derive(Debug, Clone, PartialEq, Eq)]
pub struct ConnectorStatus {
    pub conditions: Option<Vec<Condition>>,
    pub connection_details: Option<ConnectorConnectionDetails>,
}

/// The model of a [`ConnectorStatus`].
#[verifier::ext_equal]
pub struct ConnectorStatusModel {
    pub conditions: Option<Seq<ConditionModel>>,
    pub connection_details: Option<ConnectorConnectionDetailsModel>,
}

impl DeepView for ConnectorStatus {
    type V = ConnectorStatusModel;

    open spec fn deep_view(&self) -> ConnectorStatusModel {
        ConnectorStatusModel {
            conditions: self.conditions.deep_view(),
            connection_details: self.connection_details.deep_view(),
        }
    }
}

/// The agent of one device in a project.
#[derive(Debug, Clone, PartialEq, Eq)]
pub struct Connector {
    pub metadata: ObjectMeta,
    pub spec: ConnectorSpec,
    pub status: Option<ConnectorStatus>,
}

/// The model of a [`Connector`].
#[verifier::ext_equal]
pub struct ConnectorModel {
    pub metadata: ObjectMetaModel,
    pub spec: ConnectorSpecModel,
    pub status: Option<ConnectorStatusModel>,
}

impl DeepView for Connector {
    type V = ConnectorModel;

    open spec fn deep_view(&self) -> ConnectorModel {
        ConnectorModel {
            metadata: self.metadata.deep_view(),
            spec: self.spec.deep_view(),
            status: self.status.deep_view(),
        }
    }
}

pub const CONNECTOR_CONDITION_READY: &'static str = "Ready";

pub const CONNECTOR_CONDITION_IROH_DNS_PUBLISHED: &'static str = "IrohDNSPublished";

/// The reason on `IrohDNSPublished` when another connector owns the record.
pub const CONNECTOR_REASON_DEFERRED_TO_OWNER: &'static str = "DeferredToOwner";

} // verus!
