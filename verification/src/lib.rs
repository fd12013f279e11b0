//! A client for the model endpoints of the OpenAI API that leaves the network
//! to its caller.
//!
//! A call is a short exchange. The caller reports [`transport::Event::Started`]
//! to [`Client::get_models`] or [`Client::get_model_by_id`], does what the
//! [`transport::Action`] says, reports what came of it, and goes on until the
//! action is [`transport::Action::Done`], which holds the result. The client
//! builds the request, tells a success from a failure by the status of the
//! response, and sorts every failure into a [`structs::errors::ClientError`].
//! What each step answers is stated by [`transport::next`], what a whole call
//! comes to by [`transport::outcome`], and [`laws`] holds what follows for
//! every call.

use vstd::prelude::*;

pub mod laws;
pub mod models;
pub mod structs;
pub mod transport;

verus! {

/// The address of the provider, where no other is given.
pub open spec fn default_base_url() -> Seq<char> {
    "https://api.openai.com"@
}

/// The settings of a client: the credential and the address of the API. They
/// are set when the client is made and never change.
pub struct Client {
    api_key: String,
    base_url: String,
}

/// What a [`Client`] holds, as mathematical values.
pub struct ClientView {
    pub api_key: Seq<char>,
    pub base_url: Seq<char>,
}

impl View for Client {
    type V = ClientView;

    closed spec fn view(&self) -> ClientView {
        ClientView { api_key: self.api_key@, base_url: self.base_url@ }
    }
}

impl Client {
    /// A client for the provider's own address.
    pub fn new(api_key: &str) -> (r: Client)
        ensures
            r@ == (ClientView { api_key: api_key@, base_url: default_base_url() }),
    {
        Client::with_base_url(api_key, None)
    }

    /// A client for the API at `base_url`, or at the provider's own address
    /// where none is given. The address is taken as it is: whether it is one
    /// shows when a request is sent.
    pub fn with_base_url(api_key: &str, base_url: Option<&str>) -> (r: Client)
        ensures
            r@.api_key == api_key@,
            r@.base_url == match base_url {
                Some(url) => url@,
                None => default_base_url(),
            },
    {
        let base_url = match base_url {
            Some(url) => url.to_owned(),
            None => "https://api.openai.com".to_owned(),
        };
        Client { api_key: api_key.to_owned(), base_url }
    }

    /// The credential.
    pub fn api_key(&self) -> (r: &str)
        ensures
            r@ == self@.api_key,
    {
        self.api_key.as_str()
    }

    /// The address of the API.
    pub fn base_url(&self) -> (r: &str)
        ensures
            r@ == self@.base_url,
    {
        self.base_url.as_str()
    }
}

} // verus!
