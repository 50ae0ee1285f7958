//! The authentication core of a small account service: salted password
//! hashing, signed time-bound identity tokens, the guard that admits or
//! rejects each request, and the register, login and profile use-cases.
//!
//! The library holds no connection, reads no environment and opens no socket.
//! Whoever embeds it looks users up in the store, hands the outcome in as a
//! plain value and sends the response that comes back.

pub mod api;
pub mod clock;
pub mod constants;
pub mod crypto;
pub mod email;
pub mod extractor;
pub mod middleware;
pub mod model;
pub mod text;
pub mod utils;
