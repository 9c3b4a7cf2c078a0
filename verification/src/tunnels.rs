//! Tunnels: their progress, their resources, and the operations on them.
pub mod change_laws;
pub mod connector_search;
pub mod create;
pub mod delete;
pub mod delete_laws;
pub mod enable;
pub mod failure_laws;
pub mod listing;
pub mod plane;
pub mod progress;
pub mod requests;
pub mod resource_laws;
pub mod resources;
pub mod run_laws;
pub mod update;
