//! The success payloads: the model catalog and its entries.

use vstd::prelude::*;

verus! {

/// One model of the catalog.
#[derive(Debug)]
pub struct ModelData {
    /// The identifier of the model, unique within the catalog.
    pub id: String,
    /// The object tag that the provider gives the entry.
    pub object: String,
    /// When the model was created, in seconds since the epoch.
    pub created: u64,
    /// Who owns the model.
    pub owned_by: String,
}

/// What a [`ModelData`] holds, as mathematical values.
pub struct ModelDataView {
    pub id: Seq<char>,
    pub object: Seq<char>,
    pub created: nat,
    pub owned_by: Seq<char>,
}

impl View for ModelData {
    type V = ModelDataView;

    open spec fn view(&self) -> ModelDataView {
        ModelDataView {
            id: self.id@,
            object: self.object@,
            created: self.created as nat,
            owned_by: self.owned_by@,
        }
    }
}

/// The answer of the listing endpoint: an object tag and the catalog, in the
/// order in which the provider sent it.
#[derive(Debug)]
pub struct Model {
    /// The object tag of the answer.
    pub object: String,
    /// The models, in the provider's order.
    pub data: Vec<ModelData>,
}

/// What a [`Model`] holds, as mathematical values.
pub struct ModelView {
    pub object: Seq<char>,
    pub data: Seq<ModelDataView>,
}

impl View for Model {
    type V = ModelView;

    open spec fn view(&self) -> ModelView {
        ModelView { object: self.object@, data: self.data@.map_values(|entry: ModelData| entry@) }
    }
}

} // verus!
