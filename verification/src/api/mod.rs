pub mod auth;
pub mod blocking;
pub mod profile;
