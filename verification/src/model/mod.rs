pub mod auth;
pub mod db;
pub mod errors;
pub mod response;
pub mod user;
pub mod view;
