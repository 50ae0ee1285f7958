//! The identity that the guard attaches to a request.

use vstd::prelude::*;
use super::view::opt_view;

verus! {

/// Who is calling, as established from a valid token.
#[derive(Debug, Clone, PartialEq, Eq)]
pub struct AuthMiddlewareData {
    pub email: String,
}

pub struct AuthMiddlewareDataView {
    pub email: Seq<char>,
}

impl View for AuthMiddlewareData {
    type V = AuthMiddlewareDataView;

    open spec fn view(&self) -> AuthMiddlewareDataView {
        AuthMiddlewareDataView { email: self.email@ }
    }
}

/// What travels with a request from the guard to its handler. Only the guard
/// fills it in.
#[derive(Debug, Clone, PartialEq, Eq)]
pub struct RequestContext {
    pub identity: Option<AuthMiddlewareData>,
}

pub struct RequestContextView {
    pub identity: Option<AuthMiddlewareDataView>,
}

impl View for RequestContext {
    type V = RequestContextView;

    open spec fn view(&self) -> RequestContextView {
        RequestContextView { identity: opt_view(self.identity) }
    }
}

} // verus!
