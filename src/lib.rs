pub mod core_models;
pub mod shared_models;
pub mod users;
pub mod validation;
pub mod auth;
pub mod store;
pub mod api;
