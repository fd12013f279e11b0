//! One call, as an exchange with the transport: the client says what to do
//! next, the caller does it and reports what came of it.

use crate::structs::errors::{unknown_error, ClientError, ClientErrorView, Error, ErrorView};
use reqwest::Error as ReqwestError;
use vstd::prelude::*;

verus! {

/// The HTTP method of a request. The client only ever reads.
#[derive(Debug, Clone, Copy, PartialEq, Eq)]
pub enum Method {
    Get,
}

/// The name of `method` on the wire.
pub open spec fn method_name(method: Method) -> Seq<char> {
    match method {
        Method::Get => "GET"@,
    }
}

impl Method {
    /// The name of the method on the wire.
    pub fn as_str(&self) -> (r: &'static str)
        ensures
            r@ == method_name(*self),
    {
        match self {
            Method::Get => "GET",
        }
    }
}

/// One header line of a request.
#[derive(Debug)]
pub struct Header {
    pub name: String,
    pub value: String,
}

/// What a [`Header`] holds, as mathematical values.
pub struct HeaderView {
    pub name: Seq<char>,
    pub value: Seq<char>,
}

impl View for Header {
    type V = HeaderView;

    open spec fn view(&self) -> HeaderView {
        HeaderView { name: self.name@, value: self.value@ }
    }
}

/// A request for the transport to send. It has no body.
#[derive(Debug)]
pub struct Request {
    pub method: Method,
    pub url: String,
    pub headers: Vec<Header>,
}

/// What a [`Request`] holds, as mathematical values.
pub struct RequestView {
    pub method: Method,
    pub url: Seq<char>,
    pub headers: Seq<HeaderView>,
}

impl View for Request {
    type V = RequestView;

    open spec fn view(&self) -> RequestView {
        RequestView {
            method: self.method,
            url: self.url@,
            headers: self.headers@.map_values(|header: Header| header@),
        }
    }
}

/// The header that carries the API key as a bearer token.
pub open spec fn authorization(api_key: Seq<char>) -> HeaderView {
    HeaderView { name: "Authorization"@, value: "Bearer "@ + api_key }
}

/// The authenticated read of `url`: a GET whose only header is the
/// authorization for `api_key`.
pub open spec fn authenticated_get(url: Seq<char>, api_key: Seq<char>) -> RequestView {
    RequestView { method: Method::Get, url, headers: seq![authorization(api_key)] }
}

impl Request {
    /// Builds the authenticated read of `url`.
    pub fn get(url: String, api_key: &str) -> (r: Request)
        ensures
            r@ == authenticated_get(url@, api_key@),
    {
        let mut value = "Bearer ".to_owned();
        value.append(api_key);
        let mut headers: Vec<Header> = Vec::new();
        headers.push(Header { name: "Authorization".to_owned(), value });
        let r = Request { method: Method::Get, url, headers };
        assert(r@.headers =~= seq![authorization(api_key@)]);
        r
    }
}

/// Whether an HTTP status code lies in the success range, 200 to 299.
pub open spec fn status_is_success(status: u16) -> bool {
    200 <= status <= 299
}

/// Tells a success status from every other one.
pub fn is_success(status: u16) -> (r: bool)
    ensures
        r == status_is_success(status),
{
    200 <= status && status <= 299
}

/// What the caller reports to the client.
#[derive(Debug)]
pub enum Event<T> {
    /// The call begins: nothing has been sent yet.
    Started,
    /// The request could not be sent, or no response came back.
    SendFailed(ReqwestError),
    /// A response came back with this status code.
    Responded(u16),
    /// The body of the response, read as the payload of the endpoint, or why
    /// it could not be read so.
    Payload(Result<T, ReqwestError>),
    /// The body of the response, read as the provider's error envelope, or
    /// why it could not be read so.
    ErrorBody(Result<Error, ReqwestError>),
}

/// What an [`Event`] holds, as mathematical values.
pub enum EventView<V> {
    Started,
    SendFailed(ReqwestError),
    Responded(u16),
    Payload(Result<V, ReqwestError>),
    ErrorBody(Result<ErrorView, ReqwestError>),
}

impl<T: View> View for Event<T> {
    type V = EventView<T::V>;

    open spec fn view(&self) -> EventView<T::V> {
        match self {
            Event::Started => EventView::Started,
            Event::SendFailed(cause) => EventView::SendFailed(*cause),
            Event::Responded(status) => EventView::Responded(*status),
            Event::Payload(Ok(payload)) => EventView::Payload(Ok(payload@)),
            Event::Payload(Err(cause)) => EventView::Payload(Err(*cause)),
            Event::ErrorBody(Ok(error)) => EventView::ErrorBody(Ok(error@)),
            Event::ErrorBody(Err(cause)) => EventView::ErrorBody(Err(*cause)),
        }
    }
}

/// What the client asks of the caller.
#[derive(Debug)]
pub enum Action<T> {
    /// Send this request and report `SendFailed` or `Responded`.
    Send(Request),
    /// Read the body of the response as the payload and report `Payload`.
    ReadPayload,
    /// Read the body of the response as an error envelope and report `ErrorBody`.
    ReadError,
    /// The call is over, with this result.
    Done(Result<T, ClientError>),
}

/// What an [`Action`] holds, as mathematical values.
pub enum ActionView<V> {
    Send(RequestView),
    ReadPayload,
    ReadError,
    Done(Result<V, ClientErrorView>),
}

impl<T: View> View for Action<T> {
    type V = ActionView<T::V>;

    open spec fn view(&self) -> ActionView<T::V> {
        match self {
            Action::Send(request) => ActionView::Send(request@),
            Action::ReadPayload => ActionView::ReadPayload,
            Action::ReadError => ActionView::ReadError,
            Action::Done(Ok(payload)) => ActionView::Done(Ok(payload@)),
            Action::Done(Err(error)) => ActionView::Done(Err(error@)),
        }
    }
}

/// The action with which a call that sends `request` answers `event`.
///
/// The start of the call sends the request. A failure to send ends the call
/// with the transport's error. A status in the success range asks for the
/// payload, every other status for the error envelope. A payload ends the
/// call with success, an unreadable one with the transport's error. An error
/// envelope ends the call with an API error, and so does an unreadable one,
/// with [`unknown_error`] in its place.
pub open spec fn next<V>(request: RequestView, event: EventView<V>) -> ActionView<V> {
    match event {
        EventView::Started => ActionView::Send(request),
        EventView::SendFailed(cause) => ActionView::Done(Err(ClientErrorView::Reqwest(cause))),
        EventView::Responded(status) => if status_is_success(status) {
            ActionView::ReadPayload
        } else {
            ActionView::ReadError
        },
        EventView::Payload(Ok(payload)) => ActionView::Done(Ok(payload)),
        EventView::Payload(Err(cause)) => ActionView::Done(Err(ClientErrorView::Reqwest(cause))),
        EventView::ErrorBody(Ok(error)) => ActionView::Done(Err(ClientErrorView::ApiError(error))),
        EventView::ErrorBody(Err(_)) => ActionView::Done(
            Err(ClientErrorView::ApiError(unknown_error())),
        ),
    }
}

/// What the transport has to report in the course of one call: what comes of
/// sending the request, and what comes of reading the body in either way.
pub struct Exchange<V> {
    /// The status of the response, or why there is none.
    pub sent: Result<u16, ReqwestError>,
    /// The body read as the payload, or why it cannot be read so.
    pub payload: Result<V, ReqwestError>,
    /// The body read as an error envelope, or why it cannot be read so.
    pub error_body: Result<ErrorView, ReqwestError>,
}

/// The event with which the transport of `exchange` follows `action`. Nothing
/// follows the end of a call.
pub open spec fn report<V>(exchange: Exchange<V>, action: ActionView<V>) -> Option<EventView<V>> {
    match action {
        ActionView::Send(_) => Some(
            match exchange.sent {
                Ok(status) => EventView::Responded(status),
                Err(cause) => EventView::SendFailed(cause),
            },
        ),
        ActionView::ReadPayload => Some(EventView::Payload(exchange.payload)),
        ActionView::ReadError => Some(EventView::ErrorBody(exchange.error_body)),
        ActionView::Done(_) => None,
    }
}

/// The result of a whole call, given what the transport has to report.
///
/// No response is a transport error. A response in the success range is its
/// payload, or a transport error where the payload cannot be read. Any other
/// response is an API error: the envelope in its body, or [`unknown_error`]
/// where the body holds none that can be read.
pub open spec fn outcome<V>(exchange: Exchange<V>) -> Result<V, ClientErrorView> {
    match exchange.sent {
        Err(cause) => Err(ClientErrorView::Reqwest(cause)),
        Ok(status) => if status_is_success(status) {
            match exchange.payload {
                Ok(payload) => Ok(payload),
                Err(cause) => Err(ClientErrorView::Reqwest(cause)),
            }
        } else {
            match exchange.error_body {
                Ok(error) => Err(ClientErrorView::ApiError(error)),
                Err(_) => Err(ClientErrorView::ApiError(unknown_error())),
            }
        },
    }
}

impl<T: View> Event<T> {
    /// Answers every event but the start of a call, which alone depends on
    /// the request to send: for that one there is no answer here.
    pub(crate) fn answer(self) -> (r: Option<Action<T>>)
        ensures
            self is Started <==> r is None,
            r matches Some(action) ==> forall|request: RequestView|
                action@ == #[trigger] next(request, self@),
    {
        match self {
            Event::Started => None,
            Event::SendFailed(cause) => Some(Action::Done(Err(ClientError::Reqwest(cause)))),
            Event::Responded(status) => if is_success(status) {
                Some(Action::ReadPayload)
            } else {
                Some(Action::ReadError)
            },
            Event::Payload(Ok(payload)) => Some(Action::Done(Ok(payload))),
            Event::Payload(Err(cause)) => Some(Action::Done(Err(ClientError::Reqwest(cause)))),
            Event::ErrorBody(Ok(error)) => Some(Action::Done(Err(ClientError::ApiError(error)))),
            Event::ErrorBody(Err(_)) => Some(
                Action::Done(Err(ClientError::ApiError(Error::unknown()))),
            ),
        }
    }
}

} // verus!
