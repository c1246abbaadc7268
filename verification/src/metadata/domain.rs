//! Domain layer of the metadata entity.

use std::time::SystemTime;
use vstd::prelude::*;

verus! {

/// An instant of the system clock. Its inside is not modelled: contracts only
/// carry instants around and compare them for equality.
#[verifier::external_type_specification]
#[verifier::external_body]
pub struct ExSystemTime(SystemTime);

/// Reads the system clock with `SystemTime::now`. The answer depends on the
/// moment of the call, so nothing is claimed about it.
#[verifier::external_body]
pub(crate) fn now() -> (instant: SystemTime) {
    SystemTime::now()
}

/// What a [`Metadata`] holds, as plain values.
pub struct MetadataView {
    pub created_by: Option<Seq<char>>,
    pub created_at: Option<SystemTime>,
    pub updated_at: Option<SystemTime>,
    pub deleted_at: Option<SystemTime>,
}

impl MetadataView {
    /// Creator and creation time are stamped together or not at all.
    pub open spec fn stamped_together(self) -> bool {
        self.created_by is Some <==> self.created_at is Some
    }

    /// The metadata of an aggregate nobody has touched yet.
    pub open spec fn blank() -> MetadataView {
        MetadataView { created_by: None, created_at: None, updated_at: None, deleted_at: None }
    }
}

/// View of an optional string.
pub open spec fn text_of(value: Option<String>) -> Option<Seq<char>> {
    match value {
        Some(text) => Some(text@),
        None => None,
    }
}

/// View of an optional borrowed string.
pub open spec fn optional_text(value: Option<&str>) -> Option<Seq<char>> {
    match value {
        Some(text) => Some(text@),
        None => None,
    }
}

/// Who created an aggregate and when it was created, changed and deleted.
#[derive(Debug)]
pub struct Metadata {
    created_by: Option<String>,
    created_at: Option<SystemTime>,
    updated_at: Option<SystemTime>,
    deleted_at: Option<SystemTime>,
}

impl View for Metadata {
    type V = MetadataView;

    closed spec fn view(&self) -> MetadataView {
        MetadataView {
            created_by: text_of(self.created_by),
            created_at: self.created_at,
            updated_at: self.updated_at,
            deleted_at: self.deleted_at,
        }
    }
}

impl Metadata {
    /// Metadata of an aggregate that `created_by` creates right now.
    pub fn new(created_by: &str) -> (meta: Self)
        ensures
            meta@.created_by == Some(created_by@),
            meta@.created_at is Some,
            meta@.updated_at is None,
            meta@.deleted_at is None,
            meta@.stamped_together(),
    {
        Metadata {
            created_by: Some(created_by.to_owned()),
            created_at: Some(now()),
            updated_at: None,
            deleted_at: None,
        }
    }

    /// Metadata rebuilt from stored values, taken as they are.
    pub fn from_parts(
        created_by: Option<String>,
        created_at: Option<SystemTime>,
        updated_at: Option<SystemTime>,
        deleted_at: Option<SystemTime>,
    ) -> (meta: Self)
        ensures
            meta@ == (MetadataView {
                created_by: text_of(created_by),
                created_at,
                updated_at,
                deleted_at,
            }),
    {
        Metadata { created_by, created_at, updated_at, deleted_at }
    }

    pub fn created_by(&self) -> (creator: Option<&str>)
        ensures
            match creator {
                Some(name) => self@.created_by == Some(name@),
                None => self@.created_by is None,
            },
    {
        match &self.created_by {
            Some(name) => Some(name.as_str()),
            None => None,
        }
    }

    pub fn created_at(&self) -> (instant: Option<SystemTime>)
        ensures
            instant == self@.created_at,
    {
        self.created_at
    }

    pub fn updated_at(&self) -> (instant: Option<SystemTime>)
        ensures
            instant == self@.updated_at,
    {
        self.updated_at
    }

    pub fn deleted_at(&self) -> (instant: Option<SystemTime>)
        ensures
            instant == self@.deleted_at,
    {
        self.deleted_at
    }

    /// Records a change made right now. Creator and creation time stay as
    /// they are.
    pub fn touch(&mut self)
        ensures
            final(self)@.created_by == old(self)@.created_by,
            final(self)@.created_at == old(self)@.created_at,
            final(self)@.deleted_at == old(self)@.deleted_at,
            final(self)@.updated_at is Some,
            final(self)@.stamped_together() == old(self)@.stamped_together(),
    {
        self.updated_at = Some(now());
    }
}

impl Default for Metadata {
    fn default() -> (meta: Self)
        ensures
            meta@ == MetadataView::blank(),
            meta@.stamped_together(),
    {
        Metadata { created_by: None, created_at: None, updated_at: None, deleted_at: None }
    }
}

impl Clone for Metadata {
    fn clone(&self) -> (copy: Self)
        ensures
            copy@ == self@,
    {
        Metadata {
            created_by: match &self.created_by {
                Some(name) => Some(name.clone()),
                None => None,
            },
            created_at: self.created_at,
            updated_at: self.updated_at,
            deleted_at: self.deleted_at,
        }
    }
}

} // verus!
