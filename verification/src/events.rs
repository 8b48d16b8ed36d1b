//! The index's event schema, as the pipeline's caller consumes it.
//!
//! The pipeline's embedding output is the payload of these messages; the
//! schema carries data only, and no logic of its own.

use vstd::prelude::*;
use crate::models::ModelArchitecture;

verus! {

#[verifier::external_type_specification]
#[verifier::external_body]
pub struct ExUrl(url::Url);

/// An image carried inline.
pub struct ImageBytes {
    pub bytes: Vec<u8>,
}

/// Where an event's image comes from: inline bytes or a remote location.
pub enum ImageSource {
    ImageBytes(ImageBytes),
    Url(url::Url),
}

/// A collection's configuration: which architecture embeds its images.
pub struct GenericModelConfig {
    pub architecture: ModelArchitecture,
}

/// Adds one image to a collection.
pub struct AddImage {
    pub source: ImageSource,
    pub collection_name: String,
    pub id: String,
}

/// Searches a collection with an image as the query.
pub struct SearchImage {
    pub source: ImageSource,
    pub collection_name: String,
    pub n_results: usize,
}

/// Removes one image from an index.
pub struct RemoveImage {
    pub index_name: String,
    pub id: String,
}

/// Creates or replaces a collection.
pub struct UpsertCollection {
    pub name: String,
    pub config: GenericModelConfig,
}

/// Removes a collection.
pub struct RemoveCollection {
    pub name: String,
}

/// Everything the index can be asked to do.
pub enum Event {
    AddImage(AddImage),
    RemoveImage(RemoveImage),
    SearchImage(SearchImage),
    UpsertCollection(UpsertCollection),
    RemoveCollection(RemoveCollection),
}

} // verus!
