//! Authentication and paginated user listing for a small account service.

pub mod auth;
pub mod config;
pub mod listing;
pub mod password;
pub mod roles;
pub mod text;
pub mod token;
