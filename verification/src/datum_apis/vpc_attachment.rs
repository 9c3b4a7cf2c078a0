//! The VPCAttachment resource.
use vstd::prelude::*;

use crate::datum_apis::connector::{LocalConnectorReference, LocalConnectorReferenceModel};
use crate::datum_apis::meta::{Condition, ConditionModel};

verus! {

/// Names a VPC in the same namespace.
#[derive(Debug, Clone, PartialEq, Eq)]
pub struct LocalVPCReference {
    pub name: String,
}

/// The model of a [`LocalVPCReference`].
#[verifier::ext_equal]
pub struct LocalVPCReferenceModel {
    pub name: Seq<char>,
}

impl DeepView for LocalVPCReference {
    type V = LocalVPCReferenceModel;

    open spec fn deep_view(&self) -> LocalVPCReferenceModel {
        LocalVPCReferenceModel {
            name: self.name.deep_view(),
        }
    }
}

/// The routing mode of an attachment.
#[derive(Debug, Clone, Copy, PartialEq, Eq, Structural)]
pub enum VPCAttachmentMode {
    /// Only the prefixes of the VPC are routed through the interface.
    VpcOnly,
    /// The interface becomes the default route of the host.
    DefaultRoute,
}

impl DeepView for VPCAttachmentMode {
    type V = VPCAttachmentMode;

    open spec fn deep_view(&self) -> VPCAttachmentMode {
        *self
    }
}

/// The desired state of a VPC attachment.
#[derive(Debug, Clone, PartialEq, Eq)]
pub struct VPCAttachmentSpec {
    pub connector_ref: LocalConnectorReference,
    pub vpc_ref: LocalVPCReference,
    pub mode: VPCAttachmentMode,
}

/// The model of a [`VPCAttachmentSpec`].
#[verifier::ext_equal]
pub struct VPCAttachmentSpecModel {
    pub connector_ref: LocalConnectorReferenceModel,
    pub vpc_ref: LocalVPCReferenceModel,
    pub mode: VPCAttachmentMode,
}

impl DeepView for VPCAttachmentSpec {
    type V = VPCAttachmentSpecModel;

    open spec fn deep_view(&self) -> VPCAttachmentSpecModel {
        VPCAttachmentSpecModel {
            connector_ref: self.connector_ref.deep_view(),
            vpc_ref: self.vpc_ref.deep_view(),
            mode: self.mode.deep_view(),
        }
    }
}

/// The observed state of a VPC attachment.
#[derive(Debug, Clone, PartialEq, Eq)]
pub struct VPCAttachmentStatus {
    pub conditions: Option<Vec<Condition>>,
    /// The address of this client in the VPC, without a prefix length.
    pub assigned_address: Option<String>,
    /// The prefixes that are routable in the VPC.
    pub advertised_prefixes: Option<Vec<String>>,
    /// The MTU that the client should use.
    pub mtu: Option<i32>,
    /// The endpoint of the router that claimed the attachment.
    pub router_endpoint_id: Option<String>,
}

/// The model of a [`VPCAttachmentStatus`].
#[verifier::ext_equal]
pub struct VPCAttachmentStatusModel {
    pub conditions: Option<Seq<ConditionModel>>,
    pub assigned_address: Option<Seq<char>>,
    pub advertised_prefixes: Option<Seq<Seq<char>>>,
    pub mtu: Option<i32>,
    pub router_endpoint_id: Option<Seq<char>>,
}

impl DeepView for VPCAttachmentStatus {
    type V = VPCAttachmentStatusModel;

    open spec fn deep_view(&self) -> VPCAttachmentStatusModel {
        VPCAttachmentStatusModel {
            conditions: self.conditions.deep_view(),
            assigned_address: self.assigned_address.deep_view(),
            advertised_prefixes: self.advertised_prefixes.deep_view(),
            mtu: self.mtu.deep_view(),
            router_endpoint_id: self.router_endpoint_id.deep_view(),
        }
    }
}

pub const VPC_ATTACHMENT_CONDITION_BOUND: &'static str = "Bound";

pub const VPC_ATTACHMENT_CONDITION_ADDRESS_ASSIGNED: &'static str = "AddressAssigned";

pub const VPC_ATTACHMENT_CONDITION_READY: &'static str = "Ready";

} // verus!
