//! VPC attachments: the frames on the wire, who may connect, the local
//! interface and its routes, and the router of the lab.
pub mod admission;
pub mod attachment_laws;
pub mod frames;
pub mod router;
pub mod routing;
pub mod setup;
