pub mod api;
pub mod config;
pub mod db;
pub mod error;
pub mod health;
pub mod middleware;
pub mod mock;
pub mod proxy;
pub mod service;
pub mod text;
pub mod timestamp;
