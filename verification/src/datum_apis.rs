//! The Kubernetes resources behind a tunnel, with the fields that the library
//! reads or writes, and the model of each.
pub mod connector;
pub mod connector_advertisement;
pub mod http_proxy;
pub mod meta;
pub mod traffic_protection_policy;
pub mod vpc_attachment;
