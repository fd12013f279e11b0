//! The ways in which a call can fail.

use reqwest::Error as ReqwestError;
use vstd::prelude::*;

verus! {

/// `reqwest::Error`, the failure that the HTTP transport reports, made known
/// to the verifier as a type of which nothing is known. The client never looks
/// inside one: it hands each on to the caller as it came.
#[verifier::external_type_specification]
#[verifier::external_body]
pub struct ExReqwestError(ReqwestError);

/// The body of the provider's error envelope.
#[derive(Debug)]
pub struct ErrorData {
    /// The request parameter that the error is about, where the provider names one.
    pub param: Option<String>,
    /// A message for a human reader.
    pub message: String,
    /// The provider's tag for the kind of error. The set of tags is open.
    pub error_type: String,
    /// The provider's code for the error.
    pub code: String,
}

/// What an [`ErrorData`] holds, as mathematical values.
pub struct ErrorDataView {
    pub param: Option<Seq<char>>,
    pub message: Seq<char>,
    pub error_type: Seq<char>,
    pub code: Seq<char>,
}

impl View for ErrorData {
    type V = ErrorDataView;

    open spec fn view(&self) -> ErrorDataView {
        ErrorDataView {
            param: match self.param {
                Some(name) => Some(name@),
                None => None,
            },
            message: self.message@,
            error_type: self.error_type@,
            code: self.code@,
        }
    }
}

/// The provider's error envelope.
#[derive(Debug)]
pub struct Error {
    pub error: ErrorData,
}

/// What an [`Error`] holds, as mathematical values.
pub struct ErrorView {
    pub error: ErrorDataView,
}

impl View for Error {
    type V = ErrorView;

    open spec fn view(&self) -> ErrorView {
        ErrorView { error: self.error@ }
    }
}

/// The envelope that stands for an error body that could not be read: no
/// parameter, and the word `Unknown` as message, kind and code.
pub open spec fn unknown_error() -> ErrorView {
    ErrorView {
        error: ErrorDataView {
            param: None,
            message: "Unknown"@,
            error_type: "Unknown"@,
            code: "Unknown"@,
        },
    }
}

impl Error {
    /// Builds the envelope that stands for an unreadable error body.
    pub fn unknown() -> (r: Error)
        ensures
            r@ == unknown_error(),
    {
        Error {
            error: ErrorData {
                param: None,
                message: "Unknown".to_owned(),
                error_type: "Unknown".to_owned(),
                code: "Unknown".to_owned(),
            },
        }
    }
}

/// Why a call failed. Exactly one of the three holds of a failed call.
#[derive(Debug)]
pub enum ClientError {
    /// The provider answered with this status outside the success range, and
    /// nothing more is known.
    HttpStatus(u16),
    /// The transport failed, or the body of a successful answer could not be read.
    Reqwest(ReqwestError),
    /// The provider answered with an error.
    ApiError(Error),
}

/// What a [`ClientError`] holds, as mathematical values.
pub enum ClientErrorView {
    HttpStatus(u16),
    Reqwest(ReqwestError),
    ApiError(ErrorView),
}

impl View for ClientError {
    type V = ClientErrorView;

    open spec fn view(&self) -> ClientErrorView {
        match self {
            ClientError::HttpStatus(status) => ClientErrorView::HttpStatus(*status),
            ClientError::Reqwest(cause) => ClientErrorView::Reqwest(*cause),
            ClientError::ApiError(error) => ClientErrorView::ApiError(error@),
        }
    }
}

/// Why a call failed, for callers that only tell an answer of the provider
/// from a failure of the transport.
#[derive(Debug)]
pub enum ErrorType {
    /// The provider answered with an error.
    ResponseError(Error),
    /// The transport failed, or the body of a successful answer could not be read.
    ReqwestError(ReqwestError),
}

/// What an [`ErrorType`] holds, as mathematical values.
pub enum ErrorTypeView {
    ResponseError(ErrorView),
    ReqwestError(ReqwestError),
}

impl View for ErrorType {
    type V = ErrorTypeView;

    open spec fn view(&self) -> ErrorTypeView {
        match self {
            ErrorType::ResponseError(error) => ErrorTypeView::ResponseError(error@),
            ErrorType::ReqwestError(cause) => ErrorTypeView::ReqwestError(*cause),
        }
    }
}

/// The place of `error` in [`ErrorType`]. An error of the provider keeps its
/// envelope and an error of the transport its cause. A bare status is an
/// answer of the provider without an envelope, so [`unknown_error`] stands in
/// for one.
pub open spec fn folded(error: ClientErrorView) -> ErrorTypeView {
    match error {
        ClientErrorView::HttpStatus(_) => ErrorTypeView::ResponseError(unknown_error()),
        ClientErrorView::Reqwest(cause) => ErrorTypeView::ReqwestError(cause),
        ClientErrorView::ApiError(error) => ErrorTypeView::ResponseError(error),
    }
}

impl ClientError {
    /// Sorts the error into an answer of the provider or a failure of the
    /// transport.
    pub fn into_error_type(self) -> (r: ErrorType)
        ensures
            r@ == folded(self@),
    {
        match self {
            ClientError::HttpStatus(_) => ErrorType::ResponseError(Error::unknown()),
            ClientError::Reqwest(cause) => ErrorType::ReqwestError(cause),
            ClientError::ApiError(error) => ErrorType::ResponseError(error),
        }
    }
}

} // verus!
