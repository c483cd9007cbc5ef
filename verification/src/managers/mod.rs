//! The managers of the application's services, each reduced to the state it
//! keeps and the decisions it takes.

pub mod config_manager;
pub mod binary_manager;
pub mod bifrost_manager;
pub mod auth_manager;
pub mod server_manager;
pub mod tunnel_manager;
pub mod dashboard_manager;
