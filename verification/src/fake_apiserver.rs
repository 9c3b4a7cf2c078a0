//! An API server in memory: what a control plane answers, without a network.
pub mod answer_laws;
pub mod routes;
pub mod selector;
pub mod server;
pub mod store;
