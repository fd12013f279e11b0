use open_ai_api::structs::errors::{ClientError, Error, ErrorData, ErrorType};
use open_ai_api::structs::model::{Model, ModelData};
use open_ai_api::transport::{Action, Event};
use open_ai_api::Client;

fn transport_failure() -> reqwest::Error {
    reqwest::Client::new().get("no address").build().unwrap_err()
}

fn invalid_api_key() -> Error {
    Error {
        error: ErrorData {
            param: Some("api_key".to_string()),
            message: "Invalid API key".to_string(),
            error_type: "invalid_request_error".to_string(),
            code: "invalid_api_key".to_string(),
        },
    }
}

#[test]
fn unknown_error_holds_the_placeholder() {
    let error = Error::unknown();
    assert_eq!(error.error.param, None);
    assert_eq!(error.error.message, "Unknown");
    assert_eq!(error.error.error_type, "Unknown");
    assert_eq!(error.error.code, "Unknown");
}

#[test]
fn failure_to_send_is_a_transport_error() {
    let client = Client::new("api_key");
    let expected = transport_failure().to_string();
    match client.get_models(Event::SendFailed(transport_failure())) {
        Action::Done(Err(ClientError::Reqwest(cause))) => {
            assert!(cause.is_builder());
            assert_eq!(cause.to_string(), expected);
        }
        other => panic!("expected a transport error, not {:?}", other),
    }
    match client.get_model_by_id("id", Event::SendFailed(transport_failure())) {
        Action::Done(Err(ClientError::Reqwest(cause))) => {
            assert!(cause.is_builder());
            assert_eq!(cause.to_string(), expected);
        }
        other => panic!("expected a transport error, not {:?}", other),
    }
}

#[test]
fn unreadable_payload_is_a_transport_error() {
    let client = Client::new("api_key");
    let expected = transport_failure().to_string();
    match client.get_models(Event::Payload(Err(transport_failure()))) {
        Action::Done(Err(ClientError::Reqwest(cause))) => {
            assert_eq!(cause.to_string(), expected);
        }
        other => panic!("expected a transport error, not {:?}", other),
    }
    match client.get_model_by_id("id", Event::Payload(Err(transport_failure()))) {
        Action::Done(Err(ClientError::Reqwest(cause))) => {
            assert_eq!(cause.to_string(), expected);
        }
        other => panic!("expected a transport error, not {:?}", other),
    }
}

#[test]
fn error_envelope_is_an_api_error() {
    let client = Client::new("api_key");
    match client.get_models(Event::ErrorBody(Ok(invalid_api_key()))) {
        Action::Done(Err(ClientError::ApiError(e))) => {
            assert_eq!(e.error.param.as_deref(), Some("api_key"));
            assert_eq!(e.error.message, "Invalid API key");
            assert_eq!(e.error.error_type, "invalid_request_error");
            assert_eq!(e.error.code, "invalid_api_key");
        }
        other => panic!("expected an API error, not {:?}", other),
    }
    match client.get_model_by_id("id", Event::ErrorBody(Ok(invalid_api_key()))) {
        Action::Done(Err(ClientError::ApiError(e))) => {
            assert_eq!(e.error.error_type, "invalid_request_error");
            assert_eq!(e.error.code, "invalid_api_key");
        }
        other => panic!("expected an API error, not {:?}", other),
    }
}

#[test]
fn error_envelope_without_parameter_is_kept() {
    let client = Client::new("api_key");
    let envelope = Error {
        error: ErrorData {
            param: None,
            message: "The model does not exist".to_string(),
            error_type: "invalid_request_error".to_string(),
            code: "model_not_found".to_string(),
        },
    };
    match client.get_model_by_id("id", Event::ErrorBody(Ok(envelope))) {
        Action::Done(Err(ClientError::ApiError(e))) => {
            assert_eq!(e.error.param, None);
            assert_eq!(e.error.message, "The model does not exist");
            assert_eq!(e.error.error_type, "invalid_request_error");
            assert_eq!(e.error.code, "model_not_found");
        }
        other => panic!("expected an API error, not {:?}", other),
    }
}

#[test]
fn unreadable_error_body_is_the_unknown_api_error() {
    let client = Client::new("api_key");
    match client.get_models(Event::ErrorBody(Err(transport_failure()))) {
        Action::Done(Err(ClientError::ApiError(e))) => {
            assert_eq!(e.error.param, None);
            assert_eq!(e.error.message, "Unknown");
            assert_eq!(e.error.error_type, "Unknown");
            assert_eq!(e.error.code, "Unknown");
        }
        other => panic!("expected an API error, not {:?}", other),
    }
    match client.get_model_by_id("id", Event::ErrorBody(Err(transport_failure()))) {
        Action::Done(Err(ClientError::ApiError(e))) => {
            assert_eq!(e.error.param, None);
            assert_eq!(e.error.message, "Unknown");
            assert_eq!(e.error.error_type, "Unknown");
            assert_eq!(e.error.code, "Unknown");
        }
        other => panic!("expected an API error, not {:?}", other),
    }
}

#[test]
fn api_error_sorts_as_response_error() {
    match ClientError::ApiError(invalid_api_key()).into_error_type() {
        ErrorType::ResponseError(e) => {
            assert_eq!(e.error.param.as_deref(), Some("api_key"));
            assert_eq!(e.error.message, "Invalid API key");
            assert_eq!(e.error.error_type, "invalid_request_error");
            assert_eq!(e.error.code, "invalid_api_key");
        }
        other => panic!("expected a response error, not {:?}", other),
    }
}

#[test]
fn transport_error_sorts_as_reqwest_error() {
    let expected = transport_failure().to_string();
    match ClientError::Reqwest(transport_failure()).into_error_type() {
        ErrorType::ReqwestError(cause) => {
            assert!(cause.is_builder());
            assert_eq!(cause.to_string(), expected);
        }
        other => panic!("expected a transport error, not {:?}", other),
    }
}

#[test]
fn bare_status_sorts_as_unknown_response_error() {
    for status in [404u16, 500, 0] {
        match ClientError::HttpStatus(status).into_error_type() {
            ErrorType::ResponseError(e) => {
                assert_eq!(e.error.param, None);
                assert_eq!(e.error.message, "Unknown");
                assert_eq!(e.error.error_type, "Unknown");
                assert_eq!(e.error.code, "Unknown");
            }
            other => panic!("expected a response error, not {:?}", other),
        }
    }
}

#[test]
fn single_model_payload_ends_the_call_unchanged() {
    let client = Client::new("api_key");
    let entry = ModelData {
        id: "gpt-3.5-turbo".to_string(),
        object: "model".to_string(),
        created: 1623155845,
        owned_by: "openai".to_string(),
    };
    match client.get_model_by_id("gpt-3.5-turbo", Event::Payload(Ok(entry))) {
        Action::Done(Ok(model)) => {
            assert_eq!(model.id, "gpt-3.5-turbo");
            assert_eq!(model.object, "model");
            assert_eq!(model.created, 1623155845);
            assert_eq!(model.owned_by, "openai");
        }
        other => panic!("a payload ends the call with success, not with {:?}", other),
    }
}

#[test]
fn payload_is_not_checked_against_the_identifier() {
    let client = Client::new("api_key");
    let entry = ModelData {
        id: "another".to_string(),
        object: "model".to_string(),
        created: 0,
        owned_by: String::new(),
    };
    match client.get_model_by_id("asked-for", Event::Payload(Ok(entry))) {
        Action::Done(Ok(model)) => assert_eq!(model.id, "another"),
        other => panic!("a payload ends the call with success, not with {:?}", other),
    }
}

#[test]
fn events_after_the_start_send_nothing() {
    let client = Client::new("api_key");
    let listing = Model { object: "list".to_string(), data: Vec::new() };
    assert!(!matches!(client.get_models(Event::SendFailed(transport_failure())), Action::Send(_)));
    assert!(!matches!(client.get_models(Event::Responded(200)), Action::Send(_)));
    assert!(!matches!(client.get_models(Event::Responded(503)), Action::Send(_)));
    assert!(!matches!(client.get_models(Event::Payload(Ok(listing))), Action::Send(_)));
    assert!(!matches!(
        client.get_models(Event::Payload(Err(transport_failure()))),
        Action::Send(_)
    ));
    assert!(!matches!(
        client.get_models(Event::ErrorBody(Ok(invalid_api_key()))),
        Action::Send(_)
    ));
    assert!(!matches!(
        client.get_models(Event::ErrorBody(Err(transport_failure()))),
        Action::Send(_)
    ));
}
