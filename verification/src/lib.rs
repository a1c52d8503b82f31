//! Credential management and search-index schema building for a Redis client.

pub mod auth;
pub mod auth_management;
pub mod clock;
pub mod entra_id;
pub mod ratio;
pub mod refresh_service;
pub mod search;
pub mod streaming;
pub mod text;
pub mod token_manager;
pub mod types;
