//! How a handler gets at the identity that the guard established.

use vstd::prelude::*;
use crate::model::auth::{AuthMiddlewareData, RequestContext};
use crate::model::view::opt_view;

verus! {

/// The identity of the caller, if the guard attached one.
#[derive(Debug, Clone, PartialEq, Eq)]
pub struct AuthExtractor(pub Option<AuthMiddlewareData>);

impl AuthExtractor {
    /// Copies the identity out of a request's context. It never fails: a
    /// request without identity gives an empty extractor.
    pub fn from_request(context: &RequestContext) -> (r: AuthExtractor)
        ensures
            opt_view(r.0) == context@.identity,
    {
        match &context.identity {
            Some(data) => AuthExtractor(Some(AuthMiddlewareData { email: data.email.clone() })),
            None => AuthExtractor(None),
        }
    }

    pub fn deref(&self) -> (r: &Option<AuthMiddlewareData>)
        ensures
            *r == self.0,
    {
        &self.0
    }

    /// The address to look the caller up by: the one in the identity, or the
    /// empty text where there is none.
    pub open spec fn subject(&self) -> Seq<char> {
        match self.0 {
            Some(data) => data.email@,
            None => Seq::empty(),
        }
    }

    pub fn email_or_default(&self) -> (r: String)
        ensures
            r@ == self.subject(),
    {
        match &self.0 {
            Some(data) => data.email.clone(),
            None => String::new(),
        }
    }
}

} // verus!
