//! Infrastructure layer for managing projects persistency on SurrealDB.
//!
//! The rows of the store and how they become projects and back. Queries and
//! the connection belong to whoever talks to the store.

use super::domain::{Cardinalities, Project, ProjectView, ProjectWithCardinalities};
use crate::metadata::domain::{text_of, Metadata};
use crate::metadata::repository::SurrealMetadata;
use crate::result::Error;
use vstd::prelude::*;
use vstd::std_specs::convert::FromSpecImpl;

verus! {

/// A project row. `id` is the record's id in the form the store prints it.
#[derive(Debug)]
pub struct SurrealProject {
    pub id: String,
    pub name: String,
    pub description: String,
    pub reference: Option<String>,
    pub meta: SurrealMetadata,
    pub highlight: bool,
}

impl View for SurrealProject {
    type V = ProjectView;

    open spec fn view(&self) -> ProjectView {
        ProjectView {
            id: self.id@,
            name: self.name@,
            description: self.description@,
            reference: text_of(self.reference),
            highlight: self.highlight,
            meta: self.meta@,
        }
    }
}

/// A project row together with the counts the store computed for it.
#[derive(Debug)]
pub struct SurrealProjectWithCardinalities {
    pub id: String,
    pub name: String,
    pub description: String,
    pub reference: Option<String>,
    pub meta: SurrealMetadata,
    pub highlight: bool,
    pub total_characters: i32,
    pub total_objects: i32,
    pub total_locations: i32,
    pub total_events: i32,
}

/// A project row before the store gave it an id.
#[derive(Debug)]
pub struct SurrealAnonymousProject {
    pub name: String,
    pub description: String,
    pub reference: Option<String>,
    pub meta: SurrealMetadata,
    pub highlight: bool,
}

impl From<SurrealProject> for Project {
    /// The project holds what the row holds.
    fn from(value: SurrealProject) -> (project: Self)
        ensures
            project@ == value@,
    {
        Project::from_parts(
            value.id,
            value.name,
            value.description,
            value.reference,
            value.highlight,
            Metadata::from(value.meta),
        )
    }
}

/// The conversion is stated on `from` itself, over views.
impl FromSpecImpl<SurrealProject> for Project {
    open spec fn obeys_from_spec() -> bool {
        false
    }

    open spec fn from_spec(value: SurrealProject) -> Project {
        arbitrary()
    }
}

impl From<&Project> for SurrealProject {
    /// The row holds what the project holds.
    fn from(value: &Project) -> (row: Self)
        ensures
            row@ == value@,
    {
        SurrealProject {
            id: value.id().to_owned(),
            name: value.name().to_owned(),
            description: value.description().to_owned(),
            reference: match value.reference() {
                Some(key) => Some(key.to_owned()),
                None => None,
            },
            meta: SurrealMetadata::from(value.meta().clone()),
            highlight: value.highlight(),
        }
    }
}

/// The conversion is stated on `from` itself, over views.
impl FromSpecImpl<&Project> for SurrealProject {
    open spec fn obeys_from_spec() -> bool {
        false
    }

    open spec fn from_spec(value: &Project) -> SurrealProject {
        arbitrary()
    }
}

impl From<SurrealProjectWithCardinalities> for ProjectWithCardinalities {
    /// The project holds what the row holds, and the counts are the row's.
    fn from(value: SurrealProjectWithCardinalities) -> (counted: Self)
        ensures
            counted.project@ == (ProjectView {
                id: value.id@,
                name: value.name@,
                description: value.description@,
                reference: text_of(value.reference),
                highlight: value.highlight,
                meta: value.meta@,
            }),
            counted.cardinalities == (Cardinalities {
                total_characters: value.total_characters,
                total_objects: value.total_objects,
                total_locations: value.total_locations,
                total_events: value.total_events,
            }),
    {
        ProjectWithCardinalities {
            project: Project::from_parts(
                value.id,
                value.name,
                value.description,
                value.reference,
                value.highlight,
                Metadata::from(value.meta),
            ),
            cardinalities: Cardinalities {
                total_characters: value.total_characters,
                total_objects: value.total_objects,
                total_locations: value.total_locations,
                total_events: value.total_events,
            },
        }
    }
}

/// The conversion is stated on `from` itself, over views.
impl FromSpecImpl<SurrealProjectWithCardinalities> for ProjectWithCardinalities {
    open spec fn obeys_from_spec() -> bool {
        false
    }

    open spec fn from_spec(value: SurrealProjectWithCardinalities) -> ProjectWithCardinalities {
        arbitrary()
    }
}

impl From<&Project> for SurrealAnonymousProject {
    /// The row holds what the project holds, but for the id.
    fn from(value: &Project) -> (row: Self)
        ensures
            row.name@ == value@.name,
            row.description@ == value@.description,
            text_of(row.reference) == value@.reference,
            row.meta@ == value@.meta,
            row.highlight == value@.highlight,
    {
        SurrealAnonymousProject {
            name: value.name().to_owned(),
            description: value.description().to_owned(),
            reference: match value.reference() {
                Some(key) => Some(key.to_owned()),
                None => None,
            },
            meta: SurrealMetadata::from(value.meta().clone()),
            highlight: value.highlight(),
        }
    }
}

/// The conversion is stated on `from` itself, over views.
impl FromSpecImpl<&Project> for SurrealAnonymousProject {
    open spec fn obeys_from_spec() -> bool {
        false
    }

    open spec fn from_spec(value: &Project) -> SurrealAnonymousProject {
        arbitrary()
    }
}

/// The table that holds the projects.
pub const TABLENAME: &'static str = "project";

/// The key of the record that `id` names: what follows the table's name and
/// a colon, or all of `id` where it does not start with them.
pub open spec fn key_of(id: Seq<char>) -> Seq<char> {
    if "project:"@.is_prefix_of(id) {
        id.skip("project:"@.len() as int)
    } else {
        id
    }
}

/// The key of the record that `id` names, as the store wants it when a
/// record is addressed by table and key.
pub fn record_key(id: &str) -> (key: &str)
    ensures
        key@ == key_of(id@),
{
    let prefix = "project:";
    proof {
        reveal_strlit("project:");
    }
    let width = prefix.unicode_len();
    let length = id.unicode_len();
    if length < width {
        return id;
    }
    let mut at: usize = 0;
    while at < width
        invariant
            at <= width <= length,
            width == prefix@.len(),
            prefix@ == "project:"@,
            length == id@.len(),
            forall|j: int| 0 <= j < at ==> id@[j] == prefix@[j],
        decreases width - at,
    {
        if id.get_char(at) != prefix.get_char(at) {
            proof {
                let head = id@.subrange(0, prefix@.len() as int);
                assert(head[at as int] == id@[at as int]);
                assert(prefix@[at as int] != head[at as int]);
                assert(!(prefix@ =~= head));
                assert(!"project:"@.is_prefix_of(id@));
            }
            return id;
        }
        at = at + 1;
    }
    proof {
        assert(prefix@ =~= id@.subrange(0, prefix@.len() as int));
        assert(id@.subrange(width as int, length as int) =~= id@.skip(width as int));
    }
    id.substring_char(width, length)
}

/// What the store's answer to a create means for `project`: an id that is
/// not empty becomes the project's id, and no id, or an empty one, is a
/// failed create that leaves the project as it was.
pub fn assigned(project: &mut Project, id: Option<String>) -> (stored: Result<(), Error>)
    ensures
        match id {
            Some(given) if given@.len() > 0 => stored is Ok && final(project)@ == old(
                project,
            )@.with_id(given@),
            _ => stored == Err::<(), Error>(Error::Unknown) && final(project)@ == old(project)@,
        },
{
    match id {
        Some(given) => {
            if given.as_str().is_empty() {
                return Err(Error::Unknown);
            }
            project.assign_id(given);
            Ok(())
        },
        None => Err(Error::Unknown),
    }
}

/// What a lookup by id answers once the store has answered with `item`: a
/// project without an id is no project.
pub fn found(item: Project) -> (answer: Result<Project, Error>)
    ensures
        answer == (if item@.id.len() == 0 {
            Err::<Project, Error>(Error::NotFound)
        } else {
            Ok::<Project, Error>(item)
        }),
{
    if item.id().is_empty() {
        return Err(Error::NotFound);
    }
    Ok(item)
}

} // verus!
