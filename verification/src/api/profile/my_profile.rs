//! The profile of the caller.

use vstd::prelude::*;
use crate::api::blocking::{settle, settled, BlockingError, HttpReply};
use crate::constants::MESSAGE_GET_PROFILE_SUCCESS;
use crate::model::db::StoreError;
use crate::model::errors::{GlobalServiceError, GlobalServiceErrorView};
use crate::model::response::{envelope, ResponseBody, ResponseBodyView};
use crate::model::user::{User, UserView};
use crate::model::view::res_view;

verus! {

#[derive(Debug, Clone, PartialEq, Eq)]
pub struct MyProfileResponse {
    pub email: String,
    pub full_name: String,
}

pub struct MyProfileResponseView {
    pub email: Seq<char>,
    pub full_name: Seq<char>,
}

impl View for MyProfileResponse {
    type V = MyProfileResponseView;

    open spec fn view(&self) -> MyProfileResponseView {
        MyProfileResponseView { email: self.email@, full_name: self.full_name@ }
    }
}

/// The answer to a profile request, given what the store found under the
/// caller's address: the user's address and name, or an internal error. A
/// caller whose token is valid and whose record is gone is a fault of the
/// service, not of the caller.
pub open spec fn profile(found: Result<UserView, StoreError>) -> Result<
    ResponseBodyView<MyProfileResponseView>,
    GlobalServiceErrorView,
> {
    match found {
        Ok(user) => Ok(
            envelope(
                MESSAGE_GET_PROFILE_SUCCESS@,
                Some(MyProfileResponseView { email: user.email, full_name: user.display_name() }),
                None,
            ),
        ),
        Err(_) => Err(GlobalServiceErrorView::InternalServerError),
    }
}

pub fn query(found: Result<User, StoreError>) -> (r: Result<
    ResponseBody<MyProfileResponse>,
    GlobalServiceError,
>)
    ensures
        res_view(r) == profile(res_view(found)),
{
    match found {
        Ok(user) => {
            let response = MyProfileResponse {
                email: user.email.clone(),
                full_name: user.into_display_name(),
            };
            Ok(ResponseBody::new(MESSAGE_GET_PROFILE_SUCCESS, Some(response), None))
        },
        Err(_) => Err(GlobalServiceError::InternalServerError),
    }
}

pub fn my_profile_handler(
    outcome: Result<ResponseBody<MyProfileResponse>, BlockingError<GlobalServiceError>>,
) -> (r: Result<HttpReply<ResponseBody<MyProfileResponse>>, GlobalServiceError>)
    ensures
        r == settled(outcome),
{
    settle(outcome)
}

} // verus!
