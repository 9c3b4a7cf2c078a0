//! The ConnectorAdvertisement resource.
use vstd::prelude::*;

use crate::datum_apis::connector::{LocalConnectorReference, LocalConnectorReferenceModel};
use crate::datum_apis::meta::{ObjectMeta, ObjectMetaModel};

verus! {

/// A layer-4 protocol.
#[derive(Debug, Clone, Copy, PartialEq, Eq, Structural)]
pub enum Protocol {
    Tcp,
    Udp,
}

impl DeepView for Protocol {
    type V = Protocol;

    open spec fn deep_view(&self) -> Protocol {
        *self
    }
}

/// One port of a service.
#[derive(Debug, Clone, PartialEq, Eq)]
pub struct Layer4ServicePort {
    pub name: String,
    pub port: i32,
    pub protocol: Protocol,
}

/// The model of a [`Layer4ServicePort`].
#[verifier::ext_equal]
pub struct Layer4ServicePortModel {
    pub name: Seq<char>,
    pub port: i32,
    pub protocol: Protocol,
}

impl DeepView for Layer4ServicePort {
    type V = Layer4ServicePortModel;

    open spec fn deep_view(&self) -> Layer4ServicePortModel {
        Layer4ServicePortModel {
            name: self.name.deep_view(),
            port: self.port,
            protocol: self.protocol.deep_view(),
        }
    }
}

/// A service that a connector offers.
#[derive(Debug, Clone, PartialEq, Eq)]
pub struct ConnectorAdvertisementLayer4Service {
    pub address: String,
    pub ports: Vec<Layer4ServicePort>,
}

/// The model of a [`ConnectorAdvertisementLayer4Service`].
#[verifier::ext_equal]
pub struct ConnectorAdvertisementLayer4ServiceModel {
    pub address: Seq<char>,
    pub ports: Seq<Layer4ServicePortModel>,
}

impl DeepView for ConnectorAdvertisementLayer4Service {
    type V = ConnectorAdvertisementLayer4ServiceModel;

    open spec fn deep_view(&self) -> ConnectorAdvertisementLayer4ServiceModel {
        ConnectorAdvertisementLayer4ServiceModel {
            address: self.address.deep_view(),
            ports: self.ports.deep_view(),
        }
    }
}

/// A named group of services.
#[derive(Debug, Clone, PartialEq, Eq)]
pub struct ConnectorAdvertisementLayer4 {
    pub name: String,
    pub services: Vec<ConnectorAdvertisementLayer4Service>,
}

/// The model of a [`ConnectorAdvertisementLayer4`].
#[verifier::ext_equal]
pub struct ConnectorAdvertisementLayer4Model {
    pub name: Seq<char>,
    pub services: Seq<ConnectorAdvertisementLayer4ServiceModel>,
}

impl DeepView for ConnectorAdvertisementLayer4 {
    type V = ConnectorAdvertisementLayer4Model;

    open spec fn deep_view(&self) -> ConnectorAdvertisementLayer4Model {
        ConnectorAdvertisementLayer4Model {
            name: self.name.deep_view(),
            services: self.services.deep_view(),
        }
    }
}

/// What a connector offers.
#[derive(Debug, Clone, PartialEq, Eq)]
pub struct ConnectorAdvertisementSpec {
    pub connector_ref: LocalConnectorReference,
    pub layer4: Option<Vec<ConnectorAdvertisementLayer4>>,
}

/// The model of a [`ConnectorAdvertisementSpec`].
#[verifier::ext_equal]
pub struct ConnectorAdvertisementSpecModel {
    pub connector_ref: LocalConnectorReferenceModel,
    pub layer4: Option<Seq<ConnectorAdvertisementLayer4Model>>,
}

impl DeepView for ConnectorAdvertisementSpec {
    type V = ConnectorAdvertisementSpecModel;

    open spec fn deep_view(&self) -> ConnectorAdvertisementSpecModel {
        ConnectorAdvertisementSpecModel {
            connector_ref: self.connector_ref.deep_view(),
            layer4: self.layer4.deep_view(),
        }
    }
}

/// The advertisement that enables a tunnel.
#[derive(Debug, Clone, PartialEq, Eq)]
pub struct ConnectorAdvertisement {
    pub metadata: ObjectMeta,
    pub spec: ConnectorAdvertisementSpec,
}

/// The model of a [`ConnectorAdvertisement`].
#[verifier::ext_equal]
pub struct ConnectorAdvertisementModel {
    pub metadata: ObjectMetaModel,
    pub spec: ConnectorAdvertisementSpecModel,
}

impl DeepView for ConnectorAdvertisement {
    type V = ConnectorAdvertisementModel;

    open spec fn deep_view(&self) -> ConnectorAdvertisementModel {
        ConnectorAdvertisementModel {
            metadata: self.metadata.deep_view(),
            spec: self.spec.deep_view(),
        }
    }
}

} // verus!
