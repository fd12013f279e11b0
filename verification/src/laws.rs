//! What holds of every call, whatever the transport reports.

use crate::models::model_request;
use crate::structs::errors::{unknown_error, ClientErrorView, ErrorView};
use crate::structs::model::{ModelDataView, ModelView};
use crate::transport::{
    next, outcome, report, status_is_success, ActionView, EventView, Exchange, RequestView,
};
use crate::ClientView;
use reqwest::Error as ReqwestError;
use vstd::prelude::*;

verus! {

/// A call sends its request once, asks at most once for the body, and then
/// ends with the result that [`outcome`] gives for what the transport
/// reported.
pub proof fn call_ends_with_outcome<V>(request: RequestView, exchange: Exchange<V>)
    ensures
        ({
            let first = next::<V>(request, EventView::Started);
            let second = next(request, report(exchange, first).unwrap());
            let last = if second is Done {
                second
            } else {
                next(request, report(exchange, second).unwrap())
            };
            &&& first == ActionView::<V>::Send(request)
            &&& !(second is Send)
            &&& second is Done <==> exchange.sent is Err
            &&& last == ActionView::Done(outcome(exchange))
        }),
{
}

/// A response in the success range whose payload can be read gives that
/// payload, unchanged.
pub proof fn success_returns_payload<V>(exchange: Exchange<V>, payload: V)
    requires
        exchange.sent matches Ok(status) && status_is_success(status),
        exchange.payload == Ok::<V, ReqwestError>(payload),
    ensures
        outcome(exchange) == Ok::<V, ClientErrorView>(payload),
{
}

/// A listing that the provider sends with the tag `list` reaches the caller
/// with that tag.
pub proof fn listing_keeps_its_tag(exchange: Exchange<ModelView>, listing: ModelView)
    requires
        exchange.sent matches Ok(status) && status_is_success(status),
        exchange.payload == Ok::<ModelView, ReqwestError>(listing),
        listing.object == "list"@,
    ensures
        outcome(exchange) matches Ok(model) && model.object == "list"@,
{
}

/// Fetching an entry of a listing by its identifier asks for the address that
/// ends in that identifier and, where the provider answers with the entry of
/// that identifier, gives a model with the same identifier.
pub proof fn listed_model_is_fetched_by_its_id(
    client: ClientView,
    listing: ModelView,
    index: int,
    exchange: Exchange<ModelDataView>,
)
    requires
        0 <= index < listing.data.len(),
        exchange.sent matches Ok(status) && status_is_success(status),
        exchange.payload matches Ok(entry) && entry.id == listing.data[index].id,
    ensures
        model_request(client, listing.data[index].id).url == client.base_url + "/v1/models/"@
            + listing.data[index].id,
        outcome(exchange) matches Ok(model) && model.id == listing.data[index].id,
{
}

/// A call succeeds only where a response came back in the success range and
/// its payload could be read.
pub proof fn success_needs_readable_success<V>(exchange: Exchange<V>)
    ensures
        outcome(exchange) is Ok <==> {
            &&& exchange.sent matches Ok(status)
            &&& status_is_success(status)
            &&& exchange.payload is Ok
        },
{
}

/// A call that gets no response, or one outside the success range, as for a
/// model that the provider does not know, gives an error: a transport error
/// for the first, an API error for the second, never a success.
pub proof fn unanswered_or_refused_call_fails<V>(exchange: Exchange<V>)
    requires
        exchange.sent matches Ok(status) ==> !status_is_success(status),
    ensures
        outcome(exchange) is Err,
        exchange.sent is Err ==> outcome(exchange)->Err_0 is Reqwest,
        exchange.sent is Ok ==> outcome(exchange)->Err_0 is ApiError,
{
}

/// A response outside the success range gives an API error, never a
/// transport error: the envelope that its body holds, or [`unknown_error`]
/// where the body holds none that can be read.
pub proof fn failure_status_gives_api_error<V>(exchange: Exchange<V>)
    requires
        exchange.sent matches Ok(status) && !status_is_success(status),
    ensures
        outcome(exchange) == Err::<V, ClientErrorView>(
            ClientErrorView::ApiError(
                match exchange.error_body {
                    Ok(error) => error,
                    Err(_) => unknown_error(),
                },
            ),
        ),
{
}

/// An error envelope that the provider sends with a status outside the
/// success range, as for a credential that it does not accept, reaches the
/// caller as it is, as an API error.
pub proof fn structured_error_is_kept<V>(exchange: Exchange<V>, error: ErrorView)
    requires
        exchange.sent matches Ok(status) && !status_is_success(status),
        exchange.error_body == Ok::<ErrorView, ReqwestError>(error),
    ensures
        outcome(exchange) == Err::<V, ClientErrorView>(ClientErrorView::ApiError(error)),
{
}

/// No call ends with a bare status: a status outside the success range always
/// comes with an envelope.
pub proof fn outcome_is_never_bare_status<V>(exchange: Exchange<V>)
    ensures
        !(outcome(exchange) matches Err(ClientErrorView::HttpStatus(_))),
{
}

/// Two calls that both get a response in the success range with the same
/// readable payload give the same result, whatever else differs between them.
pub proof fn same_payload_same_result<V>(first: Exchange<V>, second: Exchange<V>)
    requires
        first.sent matches Ok(status) && status_is_success(status),
        second.sent matches Ok(status) && status_is_success(status),
        first.payload is Ok,
        first.payload == second.payload,
    ensures
        outcome(first) == outcome(second),
{
}

} // verus!
