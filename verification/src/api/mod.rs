pub mod auth_api;
pub mod proxy;
pub mod stats_api;
