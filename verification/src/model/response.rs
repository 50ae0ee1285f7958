//! The envelope in which every structured response travels.

use vstd::prelude::*;
use super::errors::{error_to_message, ServiceError};
use super::view::opt_view;

verus! {

#[derive(Debug, Clone, PartialEq, Eq)]
pub struct ResponseBody<T> {
    pub message: String,
    pub data: Option<T>,
    pub error_code: Option<String>,
    pub error_message: Option<String>,
}

/// What an envelope says, with every text as a sequence of characters.
pub struct ResponseBodyView<D> {
    pub message: Seq<char>,
    pub data: Option<D>,
    pub error_code: Option<Seq<char>>,
    pub error_message: Option<Seq<char>>,
}

impl<T: View> View for ResponseBody<T> {
    type V = ResponseBodyView<T::V>;

    open spec fn view(&self) -> ResponseBodyView<T::V> {
        ResponseBodyView {
            message: self.message@,
            data: opt_view(self.data),
            error_code: opt_view(self.error_code),
            error_message: opt_view(self.error_message),
        }
    }
}

/// The code of an error, if there is one.
pub open spec fn code_of(error: Option<ServiceError>) -> Option<Seq<char>> {
    match error {
        Some(e) => Some(e.code_text()),
        None => None,
    }
}

/// The human-readable sentence for an error, if there is one.
pub open spec fn message_of(error: Option<ServiceError>) -> Option<Seq<char>> {
    match error {
        Some(e) => Some(e.message_text()),
        None => None,
    }
}

/// The envelope for a message, a payload and an optional error: code and
/// sentence are both derived from the error, and both absent without one.
pub open spec fn envelope<D>(
    message: Seq<char>,
    data: Option<D>,
    error: Option<ServiceError>,
) -> ResponseBodyView<D> {
    ResponseBodyView {
        message,
        data,
        error_code: code_of(error),
        error_message: message_of(error),
    }
}

impl<T> ResponseBody<T> {
    /// Holds when this envelope carries exactly `message`, `data` and what
    /// `error` stands for.
    pub open spec fn carries(
        &self,
        message: Seq<char>,
        data: Option<T>,
        error: Option<ServiceError>,
    ) -> bool {
        &&& self.message@ == message
        &&& self.data == data
        &&& opt_view(self.error_code) == code_of(error)
        &&& opt_view(self.error_message) == message_of(error)
    }

    pub fn new(message: &str, data: Option<T>, error: Option<ServiceError>) -> (r: ResponseBody<T>)
        ensures
            r.carries(message@, data, error),
    {
        ResponseBody {
            message: message.to_string(),
            data,
            error_code: match error {
                None => None,
                Some(code) => Some(code.to_string()),
            },
            error_message: error_to_message(error),
        }
    }
}

} // verus!
