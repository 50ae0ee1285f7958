//! Logging in: a password is exchanged for a token.
//!
//! An address that is unknown is answered exactly like a password that does
//! not match, so that the answer gives away nothing about who has an account.

use vstd::prelude::*;
use crate::api::blocking::{settle, settled, BlockingError, HttpReply};
use crate::constants::{MESSAGE_LOGIN_SUCCESS, TOKEN_LIFETIME};
use crate::crypto::argon2_accepts;
use crate::model::db::StoreError;
use crate::model::errors::{GlobalServiceError, GlobalServiceErrorView, ServiceError};
use crate::model::response::{envelope, ResponseBody, ResponseBodyView};
use crate::model::user::{User, UserView};
use crate::model::view::res_view;
use crate::utils::{generate_jwt, generate_jwt_at, issued, issued_to, verify_password};

verus! {

#[derive(Debug, Clone, PartialEq, Eq)]
pub struct LoginRequest {
    pub email: String,
    pub password: String,
}

pub struct LoginRequestView {
    pub email: Seq<char>,
    pub password: Seq<char>,
}

impl View for LoginRequest {
    type V = LoginRequestView;

    open spec fn view(&self) -> LoginRequestView {
        LoginRequestView { email: self.email@, password: self.password@ }
    }
}

#[derive(Debug, Clone, PartialEq, Eq)]
pub struct LoginResponse {
    pub email: String,
    pub full_name: String,
    pub token: String,
}

pub struct LoginResponseView {
    pub email: Seq<char>,
    pub full_name: Seq<char>,
    pub token: Seq<char>,
}

impl View for LoginResponse {
    type V = LoginResponseView;

    open spec fn view(&self) -> LoginResponseView {
        LoginResponseView { email: self.email@, full_name: self.full_name@, token: self.token@ }
    }
}

/// The one error for every login that is refused.
pub open spec fn refusal() -> GlobalServiceErrorView {
    GlobalServiceErrorView::Unauthorized(ServiceError::EmailOrPasswordMismatch)
}

/// The user a login is checked against: the last record that the store
/// found under the address. No record is a refusal, whether the store says
/// so by an empty list or by an error; any other failure of the store is an
/// internal error.
pub open spec fn candidate(found: Result<Seq<User>, StoreError>) -> Result<
    User,
    GlobalServiceErrorView,
> {
    match found {
        Err(StoreError::NotFound) => Err(refusal()),
        Err(StoreError::Failure) => Err(GlobalServiceErrorView::InternalServerError),
        Ok(users) => if users.len() == 0 {
            Err(refusal())
        } else {
            Ok(users.last())
        },
    }
}

/// The answer to a login, once the user is found, the password is checked
/// and a token has been asked for.
pub open spec fn answered(
    user: UserView,
    accepted: bool,
    token: Result<Seq<char>, GlobalServiceErrorView>,
) -> Result<ResponseBodyView<LoginResponseView>, GlobalServiceErrorView> {
    if !accepted {
        Err(refusal())
    } else {
        match token {
            Ok(token) => Ok(
                envelope(
                    MESSAGE_LOGIN_SUCCESS@,
                    Some(
                        LoginResponseView {
                            email: user.email,
                            full_name: user.display_name(),
                            token,
                        },
                    ),
                    None,
                ),
            ),
            Err(e) => Err(e),
        }
    }
}

/// The answer to a login at the instant `now`.
pub open spec fn logged_in(
    request: LoginRequestView,
    found: Result<Seq<User>, StoreError>,
    secret: Seq<char>,
    now: i64,
) -> Result<ResponseBodyView<LoginResponseView>, GlobalServiceErrorView> {
    match candidate(found) {
        Err(e) => Err(e),
        Ok(user) => answered(
            user@,
            argon2_accepts(request.password, user.hashed_password@),
            issued(request.email, secret, now),
        ),
    }
}

/// Picks the user a login is checked against.
pub fn pick(found: Result<Vec<User>, StoreError>) -> (r: Result<User, GlobalServiceError>)
    ensures
        match candidate(res_view(found)) {
            Ok(user) => r == Ok::<User, GlobalServiceError>(user),
            Err(e) => r matches Err(err) && err@ == e,
        },
{
    match found {
        Err(StoreError::NotFound) => Err(
            GlobalServiceError::Unauthorized(ServiceError::EmailOrPasswordMismatch),
        ),
        Err(StoreError::Failure) => Err(GlobalServiceError::InternalServerError),
        Ok(mut current_users) => match current_users.pop() {
            Some(user) => Ok(user),
            None => Err(GlobalServiceError::Unauthorized(ServiceError::EmailOrPasswordMismatch)),
        },
    }
}

/// Builds the answer to a login from the verdict on the password and the
/// outcome of issuing a token.
pub fn answer(user: User, accepted: bool, token: Result<String, GlobalServiceError>) -> (r: Result<
    ResponseBody<LoginResponse>,
    GlobalServiceError,
>)
    ensures
        res_view(r) == answered(user@, accepted, res_view(token)),
{
    if !accepted {
        return Err(GlobalServiceError::Unauthorized(ServiceError::EmailOrPasswordMismatch));
    }
    match token {
        Ok(jwt_token) => {
            let response = LoginResponse {
                token: jwt_token,
                email: user.email.clone(),
                full_name: user.into_display_name(),
            };
            Ok(ResponseBody::new(MESSAGE_LOGIN_SUCCESS, Some(response), None))
        },
        Err(e) => Err(e),
    }
}

/// Holds when an answer carries a token issued at `now` to the address in
/// the request.
pub open spec fn carries_token(
    body: ResponseBody<LoginResponse>,
    request: LoginRequestView,
    secret: Seq<char>,
    now: i64,
) -> bool {
    body.data matches Some(data) && issued_to(data.token@, request.email, secret, now)
}

/// Answers a login at the instant `now`, given what the store found under
/// the address in the request. An answer that is no error carries a token
/// issued at `now` to that address.
pub fn query_at(
    req: LoginRequest,
    found: Result<Vec<User>, StoreError>,
    secret: &str,
    now: i64,
) -> (r: Result<ResponseBody<LoginResponse>, GlobalServiceError>)
    ensures
        res_view(r) == logged_in(req@, res_view(found), secret@, now),
        r matches Ok(body) ==> carries_token(body, req@, secret@, now),
{
    match pick(found) {
        Err(e) => Err(e),
        Ok(user) => {
            let accepted = verify_password(req.password.as_str(), user.hashed_password.as_str())
                .is_ok();
            if accepted {
                let token = generate_jwt_at(&req.email, secret, now);
                answer(user, true, token)
            } else {
                Err(GlobalServiceError::Unauthorized(ServiceError::EmailOrPasswordMismatch))
            }
        },
    }
}

/// Answers a login now: the outcome is that of `query_at` at some instant,
/// the one the clock showed when the token was issued, and so is the token
/// that an answer carries.
pub fn query(req: LoginRequest, found: Result<Vec<User>, StoreError>, secret: &str) -> (r: Result<
    ResponseBody<LoginResponse>,
    GlobalServiceError,
>)
    ensures
        exists|now: i64|
            {
                &&& res_view(r) == #[trigger] logged_in(req@, res_view(found), secret@, now)
                &&& r matches Ok(body) ==> carries_token(body, req@, secret@, now)
            },
{
    match pick(found) {
        Err(e) => {
            assert(res_view::<ResponseBody<LoginResponse>, _>(Err(e)) == logged_in(
                req@,
                res_view(found),
                secret@,
                0,
            ));
            Err(e)
        },
        Ok(user) => {
            let accepted = verify_password(req.password.as_str(), user.hashed_password.as_str())
                .is_ok();
            if accepted {
                let token = generate_jwt(&req.email, secret);
                let r = answer(user, true, token);
                proof {
                    let now = choose|now: i64|
                        {
                            &&& res_view(token) == #[trigger] issued(req.email@, secret@, now)
                            &&& token is Ok <==> now + TOKEN_LIFETIME <= i64::MAX
                            &&& token matches Ok(t) ==> issued_to(t@, req.email@, secret@, now)
                        };
                    assert(res_view(r) == logged_in(req@, res_view(found), secret@, now));
                    assert(r matches Ok(body) ==> carries_token(body, req@, secret@, now));
                }
                r
            } else {
                assert(refusal() == logged_in(req@, res_view(found), secret@, 0)->Err_0);
                Err(GlobalServiceError::Unauthorized(ServiceError::EmailOrPasswordMismatch))
            }
        },
    }
}

/// The store answers "no such address" by an error or by an empty list, and
/// a password may fail to match: all three logins are refused with the same
/// error, whose response has the status 401.
pub proof fn unknown_address_is_answered_like_wrong_password(
    request: LoginRequestView,
    users: Seq<User>,
    secret: Seq<char>,
    now: i64,
)
    requires
        users.len() > 0,
        !argon2_accepts(request.password, users.last().hashed_password@),
    ensures
        logged_in(request, Err(StoreError::NotFound), secret, now) == Err::<
            ResponseBodyView<LoginResponseView>,
            _,
        >(refusal()),
        logged_in(request, Ok(Seq::empty()), secret, now) == logged_in(
            request,
            Err(StoreError::NotFound),
            secret,
            now,
        ),
        logged_in(request, Ok(users), secret, now) == logged_in(
            request,
            Err(StoreError::NotFound),
            secret,
            now,
        ),
        refusal().response().status == 401,
{
}

pub fn login_handler(
    outcome: Result<ResponseBody<LoginResponse>, BlockingError<GlobalServiceError>>,
) -> (r: Result<HttpReply<ResponseBody<LoginResponse>>, GlobalServiceError>)
    ensures
        r == settled(outcome),
{
    settle(outcome)
}

} // verus!
