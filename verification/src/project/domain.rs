//! Domain layer of the project entity.

use crate::metadata::domain::{text_of, Metadata, MetadataView};
use vstd::prelude::*;

verus! {

/// What a [`Project`] holds, as plain values.
pub struct ProjectView {
    pub id: Seq<char>,
    pub name: Seq<char>,
    pub description: Seq<char>,
    pub reference: Option<Seq<char>>,
    pub highlight: bool,
    pub meta: MetadataView,
}

impl ProjectView {
    /// Whether `user` created this project.
    pub open spec fn owned_by(self, user: Seq<char>) -> bool {
        self.meta.created_by == Some(user)
    }

    /// This project under another id.
    pub open spec fn with_id(self, id: Seq<char>) -> ProjectView {
        ProjectView { id, ..self }
    }
}

/// Represents a project
#[derive(Debug)]
pub struct Project {
    id: String,
    name: String,
    description: String,
    reference: Option<String>,
    highlight: bool,
    meta: Metadata,
}

impl View for Project {
    type V = ProjectView;

    closed spec fn view(&self) -> ProjectView {
        ProjectView {
            id: self.id@,
            name: self.name@,
            description: self.description@,
            reference: text_of(self.reference),
            highlight: self.highlight,
            meta: self.meta@,
        }
    }
}

impl Project {
    /// A project that `created_by` creates right now. It has no id yet: the
    /// store assigns one when the project is persisted.
    pub fn new(
        name: &str,
        created_by: &str,
        description: String,
        reference: Option<String>,
        highlight: bool,
    ) -> (project: Self)
        ensures
            project@.id.len() == 0,
            project@.name == name@,
            project@.description == description@,
            project@.reference == text_of(reference),
            project@.highlight == highlight,
            project@.meta.created_by == Some(created_by@),
            project@.meta.created_at is Some,
            project@.meta.updated_at is None,
            project@.meta.deleted_at is None,
    {
        Project {
            id: String::new(),
            name: name.to_owned(),
            description,
            reference,
            highlight,
            meta: Metadata::new(created_by),
        }
    }

    /// A project rebuilt from stored values, taken as they are.
    pub fn from_parts(
        id: String,
        name: String,
        description: String,
        reference: Option<String>,
        highlight: bool,
        meta: Metadata,
    ) -> (project: Self)
        ensures
            project@ == (ProjectView {
                id: id@,
                name: name@,
                description: description@,
                reference: text_of(reference),
                highlight,
                meta: meta@,
            }),
    {
        Project { id, name, description, reference, highlight, meta }
    }

    pub fn id(&self) -> (id: &str)
        ensures
            id@ == self@.id,
    {
        self.id.as_str()
    }

    pub fn name(&self) -> (name: &str)
        ensures
            name@ == self@.name,
    {
        self.name.as_str()
    }

    pub fn description(&self) -> (description: &str)
        ensures
            description@ == self@.description,
    {
        self.description.as_str()
    }

    pub fn reference(&self) -> (reference: Option<&str>)
        ensures
            match reference {
                Some(key) => self@.reference == Some(key@),
                None => self@.reference is None,
            },
    {
        match &self.reference {
            Some(key) => Some(key.as_str()),
            None => None,
        }
    }

    pub fn highlight(&self) -> (highlight: bool)
        ensures
            highlight == self@.highlight,
    {
        self.highlight
    }

    pub fn meta(&self) -> (meta: &Metadata)
        ensures
            meta@ == self@.meta,
    {
        &self.meta
    }

    /// Gives the project the id under which the store keeps it.
    pub fn assign_id(&mut self, id: String)
        ensures
            final(self)@ == old(self)@.with_id(id@),
    {
        self.id = id;
    }

    /// Changes name and description, and records the change in the metadata.
    /// Id, reference, creator and creation time stay as they are.
    pub fn revise(&mut self, name: &str, description: &str)
        ensures
            final(self)@.id == old(self)@.id,
            final(self)@.name == name@,
            final(self)@.description == description@,
            final(self)@.reference == old(self)@.reference,
            final(self)@.highlight == old(self)@.highlight,
            final(self)@.meta.created_by == old(self)@.meta.created_by,
            final(self)@.meta.created_at == old(self)@.meta.created_at,
            final(self)@.meta.deleted_at == old(self)@.meta.deleted_at,
            final(self)@.meta.updated_at is Some,
    {
        self.name = name.to_owned();
        self.description = description.to_owned();
        self.meta.touch();
    }
}

impl Clone for Project {
    fn clone(&self) -> (copy: Self)
        ensures
            copy@ == self@,
    {
        Project {
            id: self.id.clone(),
            name: self.name.clone(),
            description: self.description.clone(),
            reference: match &self.reference {
                Some(key) => Some(key.clone()),
                None => None,
            },
            highlight: self.highlight,
            meta: self.meta.clone(),
        }
    }
}

/// Represents all the cardinalities a project could have
#[derive(Clone, Copy, Debug, PartialEq, Eq, Structural)]
pub struct Cardinalities {
    pub total_characters: i32,
    pub total_objects: i32,
    pub total_locations: i32,
    pub total_events: i32,
}

/// Represents a [`Project`] and all its [`Cardinalities`]
#[derive(Debug)]
pub struct ProjectWithCardinalities {
    pub project: Project,
    pub cardinalities: Cardinalities,
}

} // verus!
