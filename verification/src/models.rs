//! The two calls of the model endpoints: the catalog, and one of its entries.

use crate::structs::model::{Model, ModelData};
use crate::transport::{authenticated_get, next, Action, Event, Request, RequestView};
use crate::{Client, ClientView};
use vstd::prelude::*;

verus! {

/// The request that asks `client` for the catalog.
pub open spec fn models_request(client: ClientView) -> RequestView {
    authenticated_get(client.base_url + "/v1/models"@, client.api_key)
}

/// The request that asks `client` for the model `id`. The identifier goes
/// into the address as it is.
pub open spec fn model_request(client: ClientView, id: Seq<char>) -> RequestView {
    authenticated_get(client.base_url + "/v1/models/"@ + id, client.api_key)
}

impl Client {
    /// One step of the call that lists all models: what to do after `event`.
    ///
    /// Begin with [`Event::Started`], do what the action says, report what
    /// came of it, and go on until the action is [`Action::Done`].
    pub fn get_models(&self, event: Event<Model>) -> (action: Action<Model>)
        ensures
            action@ == next(models_request(self@), event@),
    {
        match event.answer() {
            Some(action) => action,
            None => {
                let mut url = self.base_url().to_owned();
                url.append("/v1/models");
                Action::Send(Request::get(url, self.api_key()))
            },
        }
    }

    /// One step of the call that fetches the model `id`: what to do after
    /// `event`. No identifier is refused here: whether the provider knows it
    /// shows in its answer.
    ///
    /// Begin with [`Event::Started`], do what the action says, report what
    /// came of it, and go on until the action is [`Action::Done`].
    pub fn get_model_by_id(&self, id: &str, event: Event<ModelData>) -> (action: Action<ModelData>)
        ensures
            action@ == next(model_request(self@, id@), event@),
    {
        match event.answer() {
            Some(action) => action,
            None => {
                let mut url = self.base_url().to_owned();
                url.append("/v1/models/");
                url.append(id);
                Action::Send(Request::get(url, self.api_key()))
            },
        }
    }
}

} // verus!
