//! Messages of the project RPC interface.

use super::domain::ProjectView;
use vstd::prelude::*;

verus! {

/// A call without arguments.
#[derive(Clone, Copy, Debug, PartialEq, Eq, Structural)]
pub struct Empty {}

/// A project as remote callers see it.
#[derive(Debug)]
pub struct Project {
    pub id: String,
    pub name: String,
    pub description: String,
    pub highlight: bool,
}

impl Project {
    /// Whether this message shows `project`: its id, name, description and
    /// highlight. Reference and metadata are not shown.
    pub open spec fn shows(&self, project: ProjectView) -> bool {
        &&& self.id@ == project.id
        &&& self.name@ == project.name
        &&& self.description@ == project.description
        &&& self.highlight == project.highlight
    }
}

/// One count of a project, by name.
#[derive(Debug)]
pub struct Cardinality {
    pub name: String,
    pub value: i32,
}

/// A project and the counts that are not zero.
#[derive(Debug)]
pub struct ProjectWithCardinalities {
    pub project: Option<Project>,
    pub cardinalities: Vec<Cardinality>,
}

/// The projects of one caller.
#[derive(Debug)]
pub struct ProjectList {
    pub projects: Vec<Project>,
}

} // verus!
