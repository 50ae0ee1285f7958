//! Registering: an address, a password and a name become a stored user.
//!
//! The work falls into three steps, with the store in between: the address is
//! validated; what the store holds under the address is judged and the
//! password hashed; the outcome of the insertion becomes the answer.
//!
//! An address that is already taken is turned away with the same error as any
//! other unusable data. The answer does not say that the address exists.
//! Nothing is hashed and nothing is inserted for it.

use vstd::prelude::*;
use crate::api::blocking::{settle, settled, BlockingError, HttpReply};
use crate::constants::MESSAGE_REGISTER_SUCCESS;
use crate::crypto::{argon2_accepts, is_salt_text};
use crate::email::is_email;
use crate::model::db::StoreError;
use crate::model::errors::{GlobalServiceError, GlobalServiceErrorView};
use crate::model::response::{envelope, ResponseBody, ResponseBodyView};
use crate::model::user::{NewUser, NewUserView, User};
use crate::model::view::res_view;
use crate::utils::{
    hash_password,
    hash_password_with,
    hashed,
    hashed_after,
    validate_email,
    HashedPasswordAndSalt,
    HashedPasswordAndSaltView,
};

verus! {

pub const MESSAGE_WRONG_EMAIL_FORMAT: &'static str = "Wrong E-mail Format";

pub const MESSAGE_INVALID_DATA: &'static str = "Invalid Data";

#[derive(Debug, Clone, PartialEq, Eq)]
pub struct RegisterRequest {
    pub email: String,
    pub password: String,
    pub full_name: String,
}

pub struct RegisterRequestView {
    pub email: Seq<char>,
    pub password: Seq<char>,
    pub full_name: Seq<char>,
}

impl View for RegisterRequest {
    type V = RegisterRequestView;

    open spec fn view(&self) -> RegisterRequestView {
        RegisterRequestView {
            email: self.email@,
            password: self.password@,
            full_name: self.full_name@,
        }
    }
}

#[derive(Debug, Clone, PartialEq, Eq)]
pub struct RegisterResponse {
    pub email: String,
    pub full_name: String,
}

pub struct RegisterResponseView {
    pub email: Seq<char>,
    pub full_name: Seq<char>,
}

impl View for RegisterResponse {
    type V = RegisterResponseView;

    open spec fn view(&self) -> RegisterResponseView {
        RegisterResponseView { email: self.email@, full_name: self.full_name@ }
    }
}

/// Why a registration cannot go on to the insertion, if it cannot: the
/// address is malformed, which is a bad request; or the store holds the
/// address already, which is a bad request that does not say so; or the store
/// failed, which is an internal error. The store may say that it holds no
/// such address by an empty list or by an error.
pub open spec fn obstacle(
    request: RegisterRequestView,
    existing: Result<Seq<User>, StoreError>,
) -> Option<GlobalServiceErrorView> {
    if !is_email(request.email) {
        Some(GlobalServiceErrorView::BadRequest(MESSAGE_WRONG_EMAIL_FORMAT@))
    } else {
        match existing {
            Ok(users) => if users.len() == 0 {
                None
            } else {
                Some(GlobalServiceErrorView::BadRequest(MESSAGE_INVALID_DATA@))
            },
            Err(StoreError::NotFound) => None,
            Err(StoreError::Failure) => Some(GlobalServiceErrorView::InternalServerError),
        }
    }
}

/// What the second step yields under a given salt: the credentials to store,
/// or the reason why nothing is stored.
pub open spec fn prepared(
    request: RegisterRequestView,
    existing: Result<Seq<User>, StoreError>,
    salt: Seq<char>,
) -> Result<HashedPasswordAndSaltView, GlobalServiceErrorView> {
    match obstacle(request, existing) {
        Some(e) => Err(e),
        None => hashed(request.password, salt),
    }
}

/// What the second step yields once the salt has been drawn, or could not
/// be: the reason why nothing is stored, whatever was drawn, or else what
/// hashing the password yields.
pub open spec fn prepared_after(
    request: RegisterRequestView,
    existing: Result<Seq<User>, StoreError>,
    drawn: Option<Seq<char>>,
) -> Result<HashedPasswordAndSaltView, GlobalServiceErrorView> {
    match obstacle(request, existing) {
        Some(e) => Err(e),
        None => hashed_after(request.password, drawn),
    }
}

/// What the last step yields: an envelope with the address and the name of
/// the request, or an internal error where the store did not take the user.
pub open spec fn finished(
    request: RegisterRequestView,
    inserted: Result<usize, StoreError>,
) -> Result<ResponseBodyView<RegisterResponseView>, GlobalServiceErrorView> {
    match inserted {
        Ok(_) => Ok(
            envelope(
                MESSAGE_REGISTER_SUCCESS@,
                Some(RegisterResponseView { email: request.email, full_name: request.full_name }),
                None,
            ),
        ),
        Err(_) => Err(GlobalServiceErrorView::InternalServerError),
    }
}

/// The first step: turns a request with a malformed address away before the
/// store is asked.
pub fn validate(data: &RegisterRequest) -> (r: Result<(), GlobalServiceError>)
    ensures
        r is Ok <==> is_email(data.email@),
        r matches Err(e) ==> e@ == GlobalServiceErrorView::BadRequest(MESSAGE_WRONG_EMAIL_FORMAT@),
{
    if !validate_email(&data.email) {
        return Err(GlobalServiceError::BadRequest(MESSAGE_WRONG_EMAIL_FORMAT.to_string()));
    }
    Ok(())
}

/// Judges the request and what the store holds under its address.
pub fn check(data: &RegisterRequest, existing: &Result<Vec<User>, StoreError>) -> (r: Result<
    (),
    GlobalServiceError,
>)
    ensures
        match obstacle(data@, res_view(*existing)) {
            Some(e) => r matches Err(err) && err@ == e,
            None => r is Ok,
        },
{
    match validate(data) {
        Err(e) => Err(e),
        Ok(_) => match existing {
            Ok(users) => if users.len() == 0 {
                Ok(())
            } else {
                Err(GlobalServiceError::BadRequest(MESSAGE_INVALID_DATA.to_string()))
            },
            Err(StoreError::NotFound) => Ok(()),
            Err(StoreError::Failure) => Err(GlobalServiceError::InternalServerError),
        },
    }
}

/// The second step under the salt it is handed.
pub fn prepare_with(
    data: &RegisterRequest,
    existing: &Result<Vec<User>, StoreError>,
    salt: String,
) -> (r: Result<HashedPasswordAndSalt, GlobalServiceError>)
    ensures
        res_view(r) == prepared(data@, res_view(*existing), salt@),
        r matches Ok(h) ==> argon2_accepts(data.password@, h.hashed_password@),
{
    match check(data, existing) {
        Err(e) => Err(e),
        Ok(_) => hash_password_with(data.password.as_str(), salt),
    }
}

/// The second step: where nothing stands in the way, the password is hashed
/// under a salt drawn for this call. The outcome is that of `prepare_with`
/// under the salt that was drawn, which has the shape of a fresh salt; where
/// none could be drawn it is an internal error. Where something stands in
/// the way, that is the error, and no salt is drawn. Credentials that come
/// back accept the password.
pub fn prepare(data: &RegisterRequest, existing: &Result<Vec<User>, StoreError>) -> (r: Result<
    HashedPasswordAndSalt,
    GlobalServiceError,
>)
    ensures
        exists|drawn: Option<Seq<char>>|
            {
                &&& res_view(r) == #[trigger] prepared_after(data@, res_view(*existing), drawn)
                &&& drawn matches Some(salt) ==> is_salt_text(salt)
            },
        r matches Ok(h) ==> argon2_accepts(data.password@, h.hashed_password@),
{
    match check(data, existing) {
        Err(e) => {
            assert(res_view::<HashedPasswordAndSalt, _>(Err(e)) == prepared_after(
                data@,
                res_view(*existing),
                None,
            ));
            Err(e)
        },
        Ok(_) => {
            let r = hash_password(data.password.as_str());
            proof {
                let drawn = choose|drawn: Option<Seq<char>>|
                    {
                        &&& res_view(r) == #[trigger] hashed_after(data.password@, drawn)
                        &&& drawn matches Some(salt) ==> is_salt_text(salt)
                    };
                assert(res_view(r) == prepared_after(data@, res_view(*existing), drawn));
            }
            r
        },
    }
}

/// The record to insert for a request and its credentials.
pub fn new_user<'a>(data: &'a RegisterRequest, credentials: &'a HashedPasswordAndSalt) -> (r:
    NewUser<'a>)
    ensures
        r@ == (NewUserView {
            email: data.email@,
            hashed_password: credentials.hashed_password@,
            salt: credentials.salt@,
            full_name: data.full_name@,
        }),
{
    NewUser {
        email: data.email.as_str(),
        hashed_password: credentials.hashed_password.as_str(),
        salt: credentials.salt.as_str(),
        full_name: data.full_name.as_str(),
    }
}

/// The last step: the outcome of the insertion becomes the answer.
pub fn finish(data: RegisterRequest, inserted: Result<usize, StoreError>) -> (r: Result<
    ResponseBody<RegisterResponse>,
    GlobalServiceError,
>)
    ensures
        res_view(r) == finished(data@, inserted),
{
    match inserted {
        Err(_) => Err(GlobalServiceError::InternalServerError),
        Ok(_) => {
            let response = RegisterResponse { email: data.email, full_name: data.full_name };
            Ok(ResponseBody::new(MESSAGE_REGISTER_SUCCESS, Some(response), None))
        },
    }
}

pub fn register_handler(
    outcome: Result<ResponseBody<RegisterResponse>, BlockingError<GlobalServiceError>>,
) -> (r: Result<HttpReply<ResponseBody<RegisterResponse>>, GlobalServiceError>)
    ensures
        r == settled(outcome),
{
    settle(outcome)
}

} // verus!
