//! The guard that every request passes before it reaches a handler.
//!
//! A request is looked at once. A preflight request and a request for a
//! public route are forwarded as they are. Any other request must carry an
//! `Authorization` header of the form `Bearer <token>` with a valid token; it
//! is then forwarded with the identity from the token attached. Every other
//! request is answered on the spot, always with the same response, so that a
//! client cannot tell which step refused it.

use vstd::prelude::*;
use crate::constants::{
    AUTH_ROUTES,
    MESSAGE_INVALID_TOKEN,
    PREFLIGHT_METHOD,
    STATUS_UNAUTHORIZED,
};
use crate::model::auth::{
    AuthMiddlewareData,
    AuthMiddlewareDataView,
    RequestContext,
    RequestContextView,
};
use crate::model::errors::{ErrorResponse, ErrorResponseView, ServiceError};
use crate::model::response::{envelope, ResponseBody};
use crate::model::view::{opt_view, res_view};
use crate::text::{
    bare_text_is_its_own_trimming,
    chars_of,
    leading_white_space_is_trimmed,
    starts_with,
    starts_with_ignore_case,
    starts_with_ignoring_case,
    trim_from,
    trimmed,
};
use crate::constants::TOKEN_LIFETIME;
use crate::crypto::is_compact;
use crate::utils::{decode_jwt, decode_jwt_at, issued_to, validated, JWTClaim, JWTClaimView};

verus! {

/// The scheme that an `Authorization` header must begin with, in whatever
/// case.
pub const BEARER: &'static str = "bearer";

/// What the guard looks at in a request.
#[derive(Debug, Clone, PartialEq, Eq)]
pub struct GuardRequest {
    pub method: String,
    pub path: String,
    /// The value of the `Authorization` header, if the request has one that
    /// is text.
    pub authorization: Option<String>,
}

pub struct GuardRequestView {
    pub method: Seq<char>,
    pub path: Seq<char>,
    pub authorization: Option<Seq<char>>,
}

impl View for GuardRequest {
    type V = GuardRequestView;

    open spec fn view(&self) -> GuardRequestView {
        GuardRequestView {
            method: self.method@,
            path: self.path@,
            authorization: opt_view(self.authorization),
        }
    }
}

/// What the guard decides before any token is read.
#[derive(Debug, Clone, PartialEq, Eq)]
pub enum Screening {
    /// Forward the request; it needs no identity.
    Admit,
    /// Answer the request with the rejection.
    Reject,
    /// Validate this token, then conclude.
    Check(String),
}

pub enum ScreeningView {
    Admit,
    Reject,
    Check(Seq<char>),
}

impl View for Screening {
    type V = ScreeningView;

    open spec fn view(&self) -> ScreeningView {
        match self {
            Screening::Admit => ScreeningView::Admit,
            Screening::Reject => ScreeningView::Reject,
            Screening::Check(token) => ScreeningView::Check(token@),
        }
    }
}

/// What becomes of a request at the guard.
#[derive(Debug, Clone, PartialEq, Eq)]
pub enum GuardOutcome {
    /// The request goes on to its handler, with this context.
    Forward(RequestContext),
    /// The request ends here, with this response.
    Respond(ErrorResponse),
}

pub enum GuardOutcomeView {
    Forward(RequestContextView),
    Respond(ErrorResponseView),
}

impl View for GuardOutcome {
    type V = GuardOutcomeView;

    open spec fn view(&self) -> GuardOutcomeView {
        match self {
            GuardOutcome::Forward(context) => GuardOutcomeView::Forward(context@),
            GuardOutcome::Respond(response) => GuardOutcomeView::Respond(response@),
        }
    }
}

/// Holds when a path begins with one of the routes that need no token.
pub open spec fn is_public_route(path: Seq<char>) -> bool {
    exists|i: int| 0 <= i < AUTH_ROUTES@.len() && (#[trigger] AUTH_ROUTES@[i])@.is_prefix_of(path)
}

/// Holds when the method is that of a CORS preflight.
pub open spec fn is_preflight(method: Seq<char>) -> bool {
    method == PREFLIGHT_METHOD@
}

/// The token in the value of an `Authorization` header: what follows the
/// scheme, without white space at either end. `None` where the value does
/// not begin with the scheme.
pub open spec fn bearer_token(header: Seq<char>) -> Option<Seq<char>> {
    if starts_with_ignoring_case(header, BEARER@) {
        Some(trimmed(header.skip(BEARER@.len() as int)))
    } else {
        None
    }
}

/// The first three steps of the guard.
pub open spec fn screened(request: GuardRequestView) -> ScreeningView {
    if is_preflight(request.method) || is_public_route(request.path) {
        ScreeningView::Admit
    } else {
        match request.authorization {
            None => ScreeningView::Reject,
            Some(header) => match bearer_token(header) {
                None => ScreeningView::Reject,
                Some(token) => ScreeningView::Check(token),
            },
        }
    }
}

/// The one response with which the guard turns a request away: the envelope
/// without data, with the code and the explanation of an invalid token,
/// whichever step found the request wanting.
pub open spec fn rejection() -> ErrorResponseView {
    ErrorResponseView {
        status: STATUS_UNAUTHORIZED,
        body: envelope(MESSAGE_INVALID_TOKEN@, None, Some(ServiceError::InvalidToken)),
    }
}

/// The last step of the guard: valid claims become the identity of the
/// request, anything else becomes the rejection.
pub open spec fn concluded(verdict: Result<JWTClaimView, ServiceError>) -> GuardOutcomeView {
    match verdict {
        Ok(claims) => GuardOutcomeView::Forward(
            RequestContextView { identity: Some(AuthMiddlewareDataView { email: claims.email }) },
        ),
        Err(_) => GuardOutcomeView::Respond(rejection()),
    }
}

/// What becomes of a request at the instant `now`.
pub open spec fn decided(
    request: GuardRequestView,
    secret: Seq<char>,
    now: i64,
) -> GuardOutcomeView {
    match screened(request) {
        ScreeningView::Admit => GuardOutcomeView::Forward(RequestContextView { identity: None }),
        ScreeningView::Reject => GuardOutcomeView::Respond(rejection()),
        ScreeningView::Check(token) => concluded(validated(token, secret, now)),
    }
}

/// A preflight request and a request for a public route are forwarded
/// without identity, whatever header they carry.
pub proof fn open_request_is_forwarded(request: GuardRequestView, secret: Seq<char>, now: i64)
    requires
        is_preflight(request.method) || is_public_route(request.path),
    ensures
        decided(request, secret, now) == GuardOutcomeView::Forward(
            RequestContextView { identity: None },
        ),
{
}

/// A request that needs a token and has no `Authorization` header, or one
/// that does not begin with the scheme, is turned away with the status 401,
/// whatever the secret and the instant.
pub proof fn request_without_token_is_rejected(
    request: GuardRequestView,
    secret: Seq<char>,
    now: i64,
)
    requires
        !is_preflight(request.method),
        !is_public_route(request.path),
        request.authorization matches Some(header) ==> bearer_token(header) is None,
    ensures
        decided(request, secret, now) == GuardOutcomeView::Respond(rejection()),
        rejection().status == 401,
{
}

/// The value of the `Authorization` header that presents a token: the
/// scheme, a blank and the token.
pub open spec fn bearer_header(token: Seq<char>) -> Seq<char> {
    "Bearer "@ + token
}

/// A compact token is read back from the header that presents it.
pub proof fn compact_token_is_read_from_its_header(token: Seq<char>)
    requires
        is_compact(token),
    ensures
        bearer_token(bearer_header(token)) == Some(token),
{
    reveal_strlit("Bearer ");
    reveal_strlit("bearer");
    let header = bearer_header(token);
    assert(starts_with_ignoring_case(header, BEARER@));
    assert(header.skip(BEARER@.len() as int) =~= seq![' '] + token);
    leading_white_space_is_trimmed(' ', token);
    bare_text_is_its_own_trimming(token);
}

/// A request that needs a token and presents one issued to `email` is
/// forwarded with `email` as its identity at every instant before the token
/// expires, seven days after its issue, and turned away from then on.
pub proof fn request_with_issued_token_is_forwarded_until_expiry(
    request: GuardRequestView,
    token: Seq<char>,
    email: Seq<char>,
    secret: Seq<char>,
    issued_at: i64,
    now: i64,
)
    requires
        !is_preflight(request.method),
        !is_public_route(request.path),
        request.authorization == Some(bearer_header(token)),
        issued_at + TOKEN_LIFETIME <= i64::MAX,
        issued_to(token, email, secret, issued_at),
    ensures
        now < issued_at + TOKEN_LIFETIME ==> decided(request, secret, now)
            == GuardOutcomeView::Forward(
            RequestContextView { identity: Some(AuthMiddlewareDataView { email }) },
        ),
        now >= issued_at + TOKEN_LIFETIME ==> decided(request, secret, now)
            == GuardOutcomeView::Respond(rejection()),
{
    compact_token_is_read_from_its_header(token);
}

/// Whatever the reason for which a request is turned away, the response is
/// the same, and an identity is attached only where a token was validated.
pub proof fn every_rejection_is_alike(request: GuardRequestView, secret: Seq<char>, now: i64)
    ensures
        match decided(request, secret, now) {
            GuardOutcomeView::Respond(response) => response == rejection(),
            GuardOutcomeView::Forward(context) => context.identity matches Some(identity)
                ==> request.authorization matches Some(header) && bearer_token(header) matches Some(
                token,
            ) && validated(token, secret, now) matches Ok(claims) && claims.email
                == identity.email,
        },
{
}

/// Tells whether a path begins with one of the routes that need no token.
pub fn public_route(path: &str) -> (r: bool)
    ensures
        r == is_public_route(path@),
{
    let chars = chars_of(path);
    let mut i: usize = 0;
    while i < AUTH_ROUTES.len()
        invariant
            i <= AUTH_ROUTES@.len(),
            chars@ == path@,
            forall|j: int| 0 <= j < i ==> !(#[trigger] AUTH_ROUTES@[j])@.is_prefix_of(path@),
        decreases AUTH_ROUTES@.len() - i,
    {
        let route = chars_of(AUTH_ROUTES[i]);
        if starts_with(&chars, &route) {
            return true;
        }
        i += 1;
    }
    false
}

/// Takes the token out of the value of an `Authorization` header.
pub fn token_of(header: &str) -> (r: Option<String>)
    ensures
        opt_view(r) == bearer_token(header@),
{
    let chars = chars_of(header);
    let scheme = chars_of(BEARER);
    if starts_with_ignore_case(&chars, &scheme) {
        Some(trim_from(header, scheme.len()))
    } else {
        None
    }
}

/// The response with which the guard turns a request away.
pub fn reject() -> (r: ErrorResponse)
    ensures
        r@ == rejection(),
{
    ErrorResponse {
        status: STATUS_UNAUTHORIZED,
        body: ResponseBody::new(MESSAGE_INVALID_TOKEN, None, Some(ServiceError::InvalidToken)),
    }
}

/// Decides what can be decided without reading a token.
pub fn screen(request: &GuardRequest) -> (r: Screening)
    ensures
        r@ == screened(request@),
{
    if request.method == PREFLIGHT_METHOD.to_string() || public_route(request.path.as_str()) {
        return Screening::Admit;
    }
    match &request.authorization {
        None => Screening::Reject,
        Some(header) => match token_of(header.as_str()) {
            None => Screening::Reject,
            Some(token) => Screening::Check(token),
        },
    }
}

/// Turns the verdict on a token into the outcome for the request.
pub fn conclude(verdict: Result<JWTClaim, ServiceError>) -> (r: GuardOutcome)
    ensures
        r@ == concluded(res_view(verdict)),
{
    match verdict {
        Ok(claims) => GuardOutcome::Forward(
            RequestContext { identity: Some(AuthMiddlewareData { email: claims.email }) },
        ),
        Err(_) => GuardOutcome::Respond(reject()),
    }
}

/// The guard, before it is put in front of a service.
#[derive(Debug, Clone, Copy, PartialEq, Eq)]
pub struct Authentication;

impl Authentication {
    /// Puts the guard in front of `service`.
    pub fn new_transform<S>(&self, service: S) -> (r: AuthenticationMiddleware<S>)
        ensures
            r.service == service,
    {
        AuthenticationMiddleware { service }
    }
}

/// The guard in front of a service. The guard decides; whoever holds it hands
/// a forwarded request to `service`.
pub struct AuthenticationMiddleware<S> {
    pub service: S,
}

impl<S> AuthenticationMiddleware<S> {
    /// Decides on a request at the instant `now`, with tokens checked against
    /// `secret`.
    pub fn call_at(&self, request: &GuardRequest, secret: &str, now: i64) -> (r: GuardOutcome)
        ensures
            r@ == decided(request@, secret@, now),
    {
        match screen(request) {
            Screening::Admit => GuardOutcome::Forward(RequestContext { identity: None }),
            Screening::Reject => GuardOutcome::Respond(reject()),
            Screening::Check(token) => conclude(decode_jwt_at(token.as_str(), secret, now)),
        }
    }

    /// Decides on a request now: the outcome is that of `call_at` at some
    /// instant, the one the clock showed when the token was checked.
    pub fn call(&self, request: &GuardRequest, secret: &str) -> (r: GuardOutcome)
        ensures
            exists|now: i64| r@ == #[trigger] decided(request@, secret@, now),
    {
        match screen(request) {
            Screening::Admit => {
                assert(decided(request@, secret@, 0) == GuardOutcomeView::Forward(
                    RequestContextView { identity: None },
                ));
                GuardOutcome::Forward(RequestContext { identity: None })
            },
            Screening::Reject => {
                assert(decided(request@, secret@, 0) == GuardOutcomeView::Respond(rejection()));
                GuardOutcome::Respond(reject())
            },
            Screening::Check(token) => {
                let verdict = decode_jwt(token, secret);
                proof {
                    let now = choose|now: i64|
                        res_view(verdict) == #[trigger] validated(token@, secret@, now);
                    assert(concluded(res_view(verdict)) == decided(request@, secret@, now));
                }
                conclude(verdict)
            },
        }
    }
}

} // verus!
