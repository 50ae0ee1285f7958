//! The failures a client can be shown, and the response each one becomes.

use vstd::prelude::*;
use vstd::string::StringExecFns;
use super::response::{envelope, ResponseBody, ResponseBodyView};
use crate::constants::{STATUS_BAD_REQUEST, STATUS_INTERNAL_SERVER_ERROR, STATUS_UNAUTHORIZED};

verus! {

/// The reason behind a refusal, as a client may be told it.
#[derive(Debug, Clone, Copy, PartialEq, Eq, Structural)]
pub enum ServiceError {
    EmailOrPasswordMismatch,
    EmailAlreadyExists,
    UserNotFound,
    InvalidToken,
}

impl View for ServiceError {
    type V = ServiceError;

    open spec fn view(&self) -> ServiceError {
        *self
    }
}

impl ServiceError {
    /// The five-digit code that stands for this error in a response.
    pub open spec fn code_text(self) -> Seq<char> {
        match self {
            ServiceError::EmailOrPasswordMismatch => "00001"@,
            ServiceError::EmailAlreadyExists => "00002"@,
            ServiceError::UserNotFound => "00003"@,
            ServiceError::InvalidToken => "00004"@,
        }
    }

    /// The sentence that explains this error to a person.
    pub open spec fn message_text(self) -> Seq<char> {
        match self {
            ServiceError::EmailOrPasswordMismatch => "Email or password mismatch"@,
            ServiceError::EmailAlreadyExists => "Email already exists"@,
            ServiceError::UserNotFound => "User not found"@,
            ServiceError::InvalidToken => "Invalid token"@,
        }
    }

    /// The error's code, as it is written into a response.
    pub fn to_string(&self) -> (r: String)
        ensures
            r@ == self.code_text(),
    {
        match self {
            ServiceError::EmailOrPasswordMismatch => "00001".to_string(),
            ServiceError::EmailAlreadyExists => "00002".to_string(),
            ServiceError::UserNotFound => "00003".to_string(),
            ServiceError::InvalidToken => "00004".to_string(),
        }
    }
}

pub fn error_to_message(error: Option<ServiceError>) -> (r: Option<String>)
    ensures
        match error {
            Some(e) => r matches Some(s) && s@ == e.message_text(),
            None => r is None,
        },
{
    match error {
        None => None,
        Some(ServiceError::EmailOrPasswordMismatch) => Some(
            "Email or password mismatch".to_string(),
        ),
        Some(ServiceError::EmailAlreadyExists) => Some("Email already exists".to_string()),
        Some(ServiceError::UserNotFound) => Some("User not found".to_string()),
        Some(ServiceError::InvalidToken) => Some("Invalid token".to_string()),
    }
}

/// The one message with which every internal fault is answered.
pub const INTERNAL_SERVER_ERROR_TEXT: &'static str =
    "Internal Server Error, please please pleaseee try again maybe later";

/// How a request ends when it does not succeed.
#[derive(Debug, Clone, PartialEq, Eq)]
pub enum GlobalServiceError {
    /// A fault of the service itself: the store, the hasher, the signer.
    InternalServerError,
    /// The request was malformed; the text says how.
    BadRequest(String),
    /// The caller is not who the request claims.
    Unauthorized(ServiceError),
}

pub enum GlobalServiceErrorView {
    InternalServerError,
    BadRequest(Seq<char>),
    Unauthorized(ServiceError),
}

impl View for GlobalServiceError {
    type V = GlobalServiceErrorView;

    open spec fn view(&self) -> GlobalServiceErrorView {
        match self {
            GlobalServiceError::InternalServerError => GlobalServiceErrorView::InternalServerError,
            GlobalServiceError::BadRequest(detail) => GlobalServiceErrorView::BadRequest(detail@),
            GlobalServiceError::Unauthorized(e) => GlobalServiceErrorView::Unauthorized(*e),
        }
    }
}

/// A status code and the envelope that is sent as JSON with it.
#[derive(Debug, Clone, PartialEq, Eq)]
pub struct ErrorResponse {
    pub status: u16,
    pub body: ResponseBody<()>,
}

pub struct ErrorResponseView {
    pub status: u16,
    pub body: ResponseBodyView<()>,
}

impl View for ErrorResponse {
    type V = ErrorResponseView;

    open spec fn view(&self) -> ErrorResponseView {
        ErrorResponseView { status: self.status, body: self.body@ }
    }
}

impl GlobalServiceErrorView {
    /// The one-line rendering of the error.
    pub open spec fn text(self) -> Seq<char> {
        match self {
            GlobalServiceErrorView::InternalServerError => "Internal Server Error"@,
            GlobalServiceErrorView::BadRequest(detail) => "Bad Request: "@ + detail,
            GlobalServiceErrorView::Unauthorized(_) => "Unauthorized"@,
        }
    }

    /// The status code the error is answered with.
    pub open spec fn status(self) -> u16 {
        match self {
            GlobalServiceErrorView::InternalServerError => STATUS_INTERNAL_SERVER_ERROR,
            GlobalServiceErrorView::BadRequest(_) => STATUS_BAD_REQUEST,
            GlobalServiceErrorView::Unauthorized(_) => STATUS_UNAUTHORIZED,
        }
    }

    /// The envelope the error is answered with. None carries data.
    ///
    /// An internal fault is answered with one fixed message that gives
    /// nothing away, and with neither code nor explanation. A bad request is
    /// answered with its detail as the explanation. Every authentication
    /// failure is answered with the code and the explanation of a credential
    /// mismatch, whatever the reason recorded in the error: a client cannot
    /// tell which step refused it.
    pub open spec fn body(self) -> ResponseBodyView<()> {
        match self {
            GlobalServiceErrorView::InternalServerError => envelope(
                INTERNAL_SERVER_ERROR_TEXT@,
                None,
                None,
            ),
            GlobalServiceErrorView::BadRequest(detail) => ResponseBodyView {
                message: self.text(),
                data: None,
                error_code: None,
                error_message: Some(detail),
            },
            GlobalServiceErrorView::Unauthorized(_) => envelope(
                self.text(),
                None,
                Some(ServiceError::EmailOrPasswordMismatch),
            ),
        }
    }

    /// The response the error is answered with.
    pub open spec fn response(self) -> ErrorResponseView {
        ErrorResponseView { status: self.status(), body: self.body() }
    }
}

impl GlobalServiceError {
    pub fn to_string(&self) -> (r: String)
        ensures
            r@ == self@.text(),
    {
        match self {
            GlobalServiceError::InternalServerError => "Internal Server Error".to_string(),
            GlobalServiceError::BadRequest(detail) => "Bad Request: ".to_string().concat(
                detail.as_str(),
            ),
            GlobalServiceError::Unauthorized(_) => "Unauthorized".to_string(),
        }
    }

    pub fn error_response(&self) -> (r: ErrorResponse)
        ensures
            r@ == self@.response(),
    {
        match self {
            GlobalServiceError::InternalServerError => ErrorResponse {
                status: STATUS_INTERNAL_SERVER_ERROR,
                body: ResponseBody::new(INTERNAL_SERVER_ERROR_TEXT, None, None),
            },
            GlobalServiceError::BadRequest(detail) => ErrorResponse {
                status: STATUS_BAD_REQUEST,
                body: ResponseBody {
                    message: self.to_string(),
                    data: None,
                    error_code: None,
                    error_message: Some(detail.clone()),
                },
            },
            GlobalServiceError::Unauthorized(_) => {
                let text = self.to_string();
                ErrorResponse {
                    status: STATUS_UNAUTHORIZED,
                    body: ResponseBody::new(
                        text.as_str(),
                        None,
                        Some(ServiceError::EmailOrPasswordMismatch),
                    ),
                }
            },
        }
    }
}

/// Whatever the error, the response is the envelope without data; a bad
/// request and an authentication failure explain themselves in it, and an
/// internal fault says the same whatever led to it.
pub proof fn error_responses_are_envelopes(error: GlobalServiceErrorView)
    ensures
        error.response().body.data is None,
        error is BadRequest ==> error.response().body.error_message == Some(
            error->BadRequest_0,
        ),
        error is Unauthorized ==> error.response().body.error_message == Some(
            ServiceError::EmailOrPasswordMismatch.message_text(),
        ),
        error is InternalServerError ==> error.response().body == envelope::<()>(
            INTERNAL_SERVER_ERROR_TEXT@,
            None,
            None,
        ),
{
}

} // verus!
