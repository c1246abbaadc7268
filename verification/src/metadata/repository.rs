//! Infrastructure layer for managing metadata persistency on SurrealDB.

use super::domain::{text_of, Metadata, MetadataView};
use std::time::SystemTime;
use vstd::prelude::*;
use vstd::std_specs::convert::FromSpecImpl;

verus! {

/// Metadata as the store keeps it.
#[derive(Debug)]
pub struct SurrealMetadata {
    pub created_by: Option<String>,
    pub created_at: Option<SystemTime>,
    pub updated_at: Option<SystemTime>,
    pub deleted_at: Option<SystemTime>,
}

impl View for SurrealMetadata {
    type V = MetadataView;

    open spec fn view(&self) -> MetadataView {
        MetadataView {
            created_by: text_of(self.created_by),
            created_at: self.created_at,
            updated_at: self.updated_at,
            deleted_at: self.deleted_at,
        }
    }
}

impl Default for SurrealMetadata {
    fn default() -> (stored: Self)
        ensures
            stored@ == MetadataView::blank(),
    {
        SurrealMetadata { created_by: None, created_at: None, updated_at: None, deleted_at: None }
    }
}

impl Clone for SurrealMetadata {
    fn clone(&self) -> (copy: Self)
        ensures
            copy@ == self@,
    {
        SurrealMetadata {
            created_by: match &self.created_by {
                Some(name) => Some(name.clone()),
                None => None,
            },
            created_at: self.created_at,
            updated_at: self.updated_at,
            deleted_at: self.deleted_at,
        }
    }
}

impl From<Metadata> for SurrealMetadata {
    /// The stored form holds what the metadata holds.
    fn from(value: Metadata) -> (stored: Self)
        ensures
            stored@ == value@,
    {
        SurrealMetadata {
            created_by: match value.created_by() {
                Some(name) => Some(name.to_owned()),
                None => None,
            },
            created_at: value.created_at(),
            updated_at: value.updated_at(),
            deleted_at: value.deleted_at(),
        }
    }
}

/// The conversion is stated on `from` itself, over views.
impl FromSpecImpl<Metadata> for SurrealMetadata {
    open spec fn obeys_from_spec() -> bool {
        false
    }

    open spec fn from_spec(value: Metadata) -> SurrealMetadata {
        arbitrary()
    }
}

impl From<SurrealMetadata> for Metadata {
    /// The metadata holds what the stored form holds.
    fn from(value: SurrealMetadata) -> (meta: Self)
        ensures
            meta@ == value@,
    {
        Metadata::from_parts(
            value.created_by,
            value.created_at,
            value.updated_at,
            value.deleted_at,
        )
    }
}

/// The conversion is stated on `from` itself, over views.
impl FromSpecImpl<SurrealMetadata> for Metadata {
    open spec fn obeys_from_spec() -> bool {
        false
    }

    open spec fn from_spec(value: SurrealMetadata) -> Metadata {
        arbitrary()
    }
}

} // verus!
