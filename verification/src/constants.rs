//! Messages, header names and the routes that need no token.

use vstd::prelude::*;

verus! {

pub const MESSAGE_REGISTER_SUCCESS: &'static str = "Registered successfully";

pub const MESSAGE_LOGIN_SUCCESS: &'static str = "Logged in successfully";

pub const MESSAGE_GET_PROFILE_SUCCESS: &'static str = "Get profile success";

pub const MESSAGE_INVALID_TOKEN: &'static str = "Invalid token";

/// Name of the request header that carries the bearer token.
pub const AUTHORIZATION: &'static str = "Authorization";

/// Request method of a CORS preflight; such a request is admitted without a token.
pub const PREFLIGHT_METHOD: &'static str = "OPTIONS";

/// Every path that begins with one of these is admitted without a token.
pub const AUTH_ROUTES: [&'static str; 2] = ["/v1/auth/login", "/v1/auth/register"];

/// Seconds between the issue of a token and its expiry: seven days.
pub const TOKEN_LIFETIME: i64 = 604800;

pub const STATUS_OK: u16 = 200;

pub const STATUS_BAD_REQUEST: u16 = 400;

pub const STATUS_UNAUTHORIZED: u16 = 401;

pub const STATUS_INTERNAL_SERVER_ERROR: u16 = 500;

} // verus!
