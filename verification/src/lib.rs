//! Datum Connect: the verified core of the tunnel agent.
#![allow(unused_imports)]

pub mod cli;
pub mod datum_apis;
pub mod datum_cloud;
pub mod device_laws;
pub mod endpoint;
pub mod fake_apiserver;
pub mod identifiers;
pub mod json;
pub mod kube_error;
pub mod numbers;
pub mod project_control_plane;
pub mod repo;
pub mod state;
pub mod text;
pub mod text_laws;
pub mod tunnels;
pub mod vpc;
