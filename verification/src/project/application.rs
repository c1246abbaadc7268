//! Application layer of the project entity.
//!
//! The rules live here. The store and the event bus are reached through the
//! two traits below; what they hold is named by a ghost model, so that every
//! rule can say what it reads and what it changes.
//!
//! Uniqueness policy: `create` keeps the projects of a creator apart. It
//! looks the store up before it writes and refuses, with `AlreadyExists`, a
//! name or a reference that the creator already uses; the store does not
//! enforce this by itself. Only `create` does so: `update` writes the name
//! it is given and looks no other project up, so a rename onto a name in
//! use goes through.

use super::domain::{Project, ProjectView};
use crate::metadata::domain::{optional_text, text_of};
use crate::result::Error;
use vstd::prelude::*;

verus! {

/// Whether `projects` holds a project under `id` that `created_by` created.
pub open spec fn holds(
    projects: Map<Seq<char>, ProjectView>,
    id: Seq<char>,
    created_by: Seq<char>,
) -> bool {
    projects.contains_key(id) && projects[id].owned_by(created_by)
}

/// Whether `project` stands in the way of a new project of `created_by` named
/// `name` and, where one is given, tied to `reference`.
pub open spec fn clashes(
    project: ProjectView,
    created_by: Seq<char>,
    name: Seq<char>,
    reference: Option<Seq<char>>,
) -> bool {
    &&& project.owned_by(created_by)
    &&& project.name == name || (reference is Some && project.reference == reference)
}

/// Whether some project in `projects` clashes.
pub open spec fn taken(
    projects: Map<Seq<char>, ProjectView>,
    created_by: Seq<char>,
    name: Seq<char>,
    reference: Option<Seq<char>>,
) -> bool {
    exists|id: Seq<char>| #[trigger]
        projects.contains_key(id) && clashes(projects[id], created_by, name, reference)
}

/// Whether `listed` is what `created_by` owns in `projects`: every owned
/// project once, and nothing else.
pub open spec fn lists(
    listed: Seq<Project>,
    projects: Map<Seq<char>, ProjectView>,
    created_by: Seq<char>,
) -> bool {
    &&& forall|i: int|
        0 <= i < listed.len() ==> holds(projects, (#[trigger] listed[i])@.id, created_by)
            && projects[listed[i]@.id] == listed[i]@
    &&& forall|i: int, j: int|
        0 <= i < j < listed.len() ==> (#[trigger] listed[i])@.id != (#[trigger] listed[j])@.id
    &&& forall|id: Seq<char>| #[trigger]
        holds(projects, id, created_by) ==> exists|i: int|
            0 <= i < listed.len() && (#[trigger] listed[i])@ == projects[id]
}

/// Whether a lookup failed in a way the store is allowed to fail.
pub open spec fn store_failure(error: Error) -> bool {
    error == Error::NotFound || error == Error::Unknown
}

/// Persistence of the project aggregate. `projects` is the model: what the
/// store holds, by id. A write that fails must leave the store as it was.
pub trait ProjectRepository {
    /// What the store holds. A verified store says so here. The body stands
    /// for stores outside the verifier, which cannot name a model; generic
    /// code learns nothing from it.
    open spec fn projects(&self) -> Map<Seq<char>, ProjectView> {
        Map::empty()
    }

    /// The project stored under `id`, if `created_by` created it. A project
    /// of somebody else is as absent as one that was never stored.
    fn find(&self, id: &str, created_by: &str) -> (found: Result<Project, Error>)
        ensures
            match found {
                Ok(project) => {
                    &&& holds(self.projects(), id@, created_by@)
                    &&& project@ == self.projects()[id@]
                    &&& project@.id == id@
                },
                Err(error) => {
                    &&& store_failure(error)
                    &&& error == Error::NotFound ==> !holds(self.projects(), id@, created_by@)
                },
            },
    ;

    /// A project of `created_by` that has `name` or, where one is given,
    /// `reference`.
    fn find_by_name_or_reference(
        &self,
        created_by: &str,
        name: &str,
        reference: Option<&str>,
    ) -> (found: Result<Project, Error>)
        ensures
            match found {
                Ok(project) => {
                    &&& self.projects().contains_key(project@.id)
                    &&& project@ == self.projects()[project@.id]
                    &&& clashes(project@, created_by@, name@, optional_text(reference))
                },
                Err(error) => {
                    &&& store_failure(error)
                    &&& error == Error::NotFound ==> !taken(
                        self.projects(),
                        created_by@,
                        name@,
                        optional_text(reference),
                    )
                },
            },
    ;

    /// Every project of `created_by`. None at all is an empty list, not an
    /// error.
    fn find_all(&self, created_by: &str) -> (found: Result<Vec<Project>, Error>)
        ensures
            match found {
                Ok(listed) => lists(listed@, self.projects(), created_by@),
                Err(error) => error == Error::Unknown,
            },
    ;

    /// Stores `project` under an id that the store picks: not empty and not
    /// in use. The id is written into `project`.
    fn create(&mut self, project: &mut Project) -> (stored: Result<(), Error>)
        ensures
            match stored {
                Ok(()) => {
                    &&& final(project)@ == old(project)@.with_id(final(project)@.id)
                    &&& final(project)@.id.len() > 0
                    &&& !old(self).projects().contains_key(final(project)@.id)
                    &&& final(self).projects() == old(self).projects().insert(
                        final(project)@.id,
                        final(project)@,
                    )
                },
                Err(error) => {
                    &&& error == Error::Unknown
                    &&& final(project)@ == old(project)@
                    &&& final(self).projects() == old(self).projects()
                },
            },
    ;

    /// Replaces, as a whole, what is stored under the project's id.
    fn update(&mut self, project: &Project) -> (stored: Result<(), Error>)
        ensures
            match stored {
                Ok(()) => final(self).projects() == old(self).projects().insert(
                    project@.id,
                    project@,
                ),
                Err(error) => error == Error::Unknown && final(self).projects() == old(
                    self,
                ).projects(),
            },
    ;
}

/// Publication of project events. `announced` is the model: the projects
/// whose creation the broker has confirmed to hold, oldest first. An emit
/// that fails has confirmed nothing.
pub trait EventBus {
    /// What the bus has announced. A verified bus says so here. The body
    /// stands for buses outside the verifier, which cannot name a model;
    /// generic code learns nothing from it.
    open spec fn announced(&self) -> Seq<ProjectView> {
        Seq::empty()
    }

    /// Announces that `project` was created. Success means that the broker
    /// confirmed the event. A project without a creator cannot be announced.
    fn emit_file_created(&mut self, project: &Project) -> (emitted: Result<(), Error>)
        ensures
            match emitted {
                Ok(()) => {
                    &&& project@.meta.created_by is Some
                    &&& final(self).announced() == old(self).announced().push(project@)
                },
                Err(error) => {
                    &&& error == Error::Unknown || error == Error::MissingFields
                    &&& error == Error::MissingFields ==> project@.meta.created_by is None
                    &&& final(self).announced() == old(self).announced()
                },
            },
    ;
}

/// What a create may set besides name and creator.
#[derive(Debug)]
pub struct CreateOptions {
    pub description: Option<String>,
    pub reference: Option<String>,
    pub highlight: bool,
}

impl Default for CreateOptions {
    fn default() -> (options: Self)
        ensures
            options.description is None,
            options.reference is None,
            !options.highlight,
    {
        CreateOptions { description: None, reference: None, highlight: false }
    }
}

impl Clone for CreateOptions {
    fn clone(&self) -> (copy: Self)
        ensures
            text_of(copy.description) == text_of(self.description),
            text_of(copy.reference) == text_of(self.reference),
            copy.highlight == self.highlight,
    {
        CreateOptions {
            description: match &self.description {
                Some(text) => Some(text.clone()),
                None => None,
            },
            reference: match &self.reference {
                Some(key) => Some(key.clone()),
                None => None,
            },
            highlight: self.highlight,
        }
    }
}

/// The description a project gets: the one given, or none at all.
pub open spec fn description_or_empty(description: Option<Seq<char>>) -> Seq<char> {
    match description {
        Some(text) => text,
        None => Seq::empty(),
    }
}

/// Whether `project` is what a create makes of its arguments: the fields as
/// given, creator and creation time stamped, never changed or deleted.
pub open spec fn drafted(
    project: ProjectView,
    name: Seq<char>,
    created_by: Seq<char>,
    description: Option<Seq<char>>,
    reference: Option<Seq<char>>,
    highlight: bool,
) -> bool {
    &&& project.name == name
    &&& project.description == description_or_empty(description)
    &&& project.reference == reference
    &&& project.highlight == highlight
    &&& project.meta.created_by == Some(created_by)
    &&& project.meta.created_at is Some
    &&& project.meta.updated_at is None
    &&& project.meta.deleted_at is None
}

/// Whether `project` is `stored` after its name and description were
/// replaced: the change is recorded, everything else is kept.
pub open spec fn revised(
    project: ProjectView,
    stored: ProjectView,
    name: Seq<char>,
    description: Seq<char>,
) -> bool {
    &&& project.id == stored.id
    &&& project.name == name
    &&& project.description == description
    &&& project.reference == stored.reference
    &&& project.highlight == stored.highlight
    &&& project.meta.created_by == stored.meta.created_by
    &&& project.meta.created_at == stored.meta.created_at
    &&& project.meta.deleted_at == stored.meta.deleted_at
    &&& project.meta.updated_at is Some
}

/// The outcome of a use case, the project as plain values.
pub open spec fn shown(outcome: Result<Project, Error>) -> Result<ProjectView, Error> {
    match outcome {
        Ok(project) => Ok(project@),
        Err(error) => Err(error),
    }
}

/// The use cases of the project aggregate.
pub struct ProjectApplication<P: ProjectRepository, B: EventBus> {
    pub project_repo: P,
    pub event_bus: B,
}

impl<P: ProjectRepository, B: EventBus> ProjectApplication<P, B> {
    /// Whether store and bus hold what they held in `before`.
    pub open spec fn untouched_since(&self, before: &Self) -> bool {
        &&& self.project_repo.projects() == before.project_repo.projects()
        &&& self.event_bus.announced() == before.event_bus.announced()
    }

    /// Whether the store holds what it held in `before` and, on top,
    /// `project`, stored under its id, which was free.
    pub open spec fn stored_since(&self, before: &Self, project: ProjectView) -> bool {
        &&& !before.project_repo.projects().contains_key(project.id)
        &&& self.project_repo.projects() == before.project_repo.projects().insert(
            project.id,
            project,
        )
    }

    /// Whether store and bus hold what they held in `before` and, on top,
    /// `project`: stored under its id, which was free, and announced.
    pub open spec fn grown_since(&self, before: &Self, project: ProjectView) -> bool {
        &&& self.stored_since(before, project)
        &&& self.event_bus.announced() == before.event_bus.announced().push(project)
    }

    /// What a get for `id` by `created_by` may answer. A project is answered
    /// only if it is stored under `id` and `created_by` created it.
    /// Somebody else's project is answered like a missing one: with
    /// `NotFound`, or with `Unknown` when the store could not tell, and never
    /// with a sign that it exists.
    pub open spec fn gets(
        &self,
        id: Seq<char>,
        created_by: Seq<char>,
        outcome: Result<ProjectView, Error>,
    ) -> bool {
        match outcome {
            Ok(project) => {
                &&& holds(self.project_repo.projects(), id, created_by)
                &&& project == self.project_repo.projects()[id]
                &&& project.id == id
            },
            Err(error) => {
                &&& store_failure(error)
                &&& error == Error::NotFound ==> !holds(self.project_repo.projects(), id, created_by)
            },
        }
    }

    /// What a create may answer and do, from the state `before` to the state
    /// `after`.
    ///
    /// It answers a project only if name and creator are not empty and the
    /// creator uses neither the name nor the reference yet; the project is
    /// then drafted from the arguments, has an id, and is stored and
    /// announced. It answers `MissingFields` exactly for an empty name or
    /// creator, `AlreadyExists` only for a name or reference in use, and
    /// `Unknown` when store or bus failed.
    ///
    /// Whenever it fails nothing is announced. The store is then as it was,
    /// with one exception: after `Unknown` it may hold, on top, the one
    /// project that was drafted and stored before the announcement failed.
    /// That project clashed with nothing.
    pub open spec fn creates(
        before: &Self,
        after: &Self,
        name: Seq<char>,
        created_by: Seq<char>,
        description: Option<Seq<char>>,
        reference: Option<Seq<char>>,
        highlight: bool,
        outcome: Result<ProjectView, Error>,
    ) -> bool {
        let in_use = taken(before.project_repo.projects(), created_by, name, reference);
        match outcome {
            Ok(project) => {
                &&& name.len() > 0
                &&& created_by.len() > 0
                &&& !in_use
                &&& drafted(project, name, created_by, description, reference, highlight)
                &&& project.id.len() > 0
                &&& after.grown_since(before, project)
            },
            Err(error) => {
                &&& error == Error::MissingFields || error == Error::AlreadyExists || error
                    == Error::Unknown
                &&& error == Error::MissingFields <==> name.len() == 0 || created_by.len() == 0
                &&& error == Error::AlreadyExists ==> in_use
                &&& after.event_bus.announced() == before.event_bus.announced()
                &&& after.untouched_since(before) || {
                    &&& error == Error::Unknown
                    &&& !in_use
                    &&& exists|project: ProjectView|
                        {
                            &&& #[trigger] after.stored_since(before, project)
                            &&& project.id.len() > 0
                            &&& drafted(
                                project,
                                name,
                                created_by,
                                description,
                                reference,
                                highlight,
                            )
                        }
                }
            },
        }
    }

    /// What an update may answer and do, from the state `before` to the
    /// state `after`.
    ///
    /// It answers a project only if one is stored under `id` that
    /// `created_by` created, and the name is not empty; the project is then
    /// the stored one with name and description replaced, and it replaces
    /// the stored one. Somebody else's project is answered like a missing
    /// one, with `NotFound` or `Unknown`, and `MissingFields` is answered
    /// only for an empty name on a project of the creator's own. An empty
    /// name never succeeds. Whenever it fails the store is as it was.
    /// Nothing is announced.
    pub open spec fn updates(
        before: &Self,
        after: &Self,
        id: Seq<char>,
        name: Seq<char>,
        description: Seq<char>,
        created_by: Seq<char>,
        outcome: Result<ProjectView, Error>,
    ) -> bool {
        let own = holds(before.project_repo.projects(), id, created_by);
        &&& after.event_bus.announced() == before.event_bus.announced()
        &&& match outcome {
            Ok(project) => {
                &&& own
                &&& name.len() > 0
                &&& revised(project, before.project_repo.projects()[id], name, description)
                &&& project.id == id
                &&& after.project_repo.projects() == before.project_repo.projects().insert(
                    id,
                    project,
                )
            },
            Err(error) => {
                &&& store_failure(error) || error == Error::MissingFields
                &&& error == Error::NotFound ==> !own
                &&& error == Error::MissingFields ==> own && name.len() == 0
                &&& after.project_repo.projects() == before.project_repo.projects()
            },
        }
    }

    /// The project stored under `id`, if `created_by` created it.
    pub fn get(&self, id: &str, created_by: &str) -> (found: Result<Project, Error>)
        ensures
            self.gets(id@, created_by@, shown(found)),
    {
        self.project_repo.find(id, created_by)
    }

    /// Every project of `uid`, each once. None at all is an empty list.
    pub fn list(&self, uid: &str) -> (found: Result<Vec<Project>, Error>)
        ensures
            match found {
                Ok(listed) => lists(listed@, self.project_repo.projects(), uid@),
                Err(error) => error == Error::Unknown,
            },
    {
        self.project_repo.find_all(uid)
    }

    /// What a lookup for a clashing project means for a create: a project
    /// found is in the way, none found leaves the way free, and a store that
    /// could not tell stops the create.
    pub fn vacancy(lookup: Result<Project, Error>) -> (free: Result<(), Error>)
        ensures
            free == (match lookup {
                Ok(_) => Err::<(), Error>(Error::AlreadyExists),
                Err(Error::NotFound) => Ok::<(), Error>(()),
                Err(error) => Err::<(), Error>(error),
            }),
    {
        match lookup {
            Ok(_) => Err(Error::AlreadyExists),
            Err(Error::NotFound) => Ok(()),
            Err(error) => Err(error),
        }
    }

    /// Creates a project of `created_by` named `name`, stores it and
    /// announces it, as [`Self::creates`] says.
    ///
    /// The store is asked first whether the creator already uses the name or
    /// the reference. When the announcement fails the create fails too,
    /// although the project is stored by then: the answer is `Unknown`.
    pub fn create(&mut self, name: &str, created_by: &str, options: CreateOptions) -> (created:
        Result<Project, Error>)
        ensures
            Self::creates(
                old(self),
                final(self),
                name@,
                created_by@,
                text_of(options.description),
                text_of(options.reference),
                options.highlight,
                shown(created),
            ),
    {
        if name.is_empty() || created_by.is_empty() {
            return Err(Error::MissingFields);
        }
        let reference = match &options.reference {
            Some(key) => Some(key.as_str()),
            None => None,
        };
        let lookup = self.project_repo.find_by_name_or_reference(created_by, name, reference);
        if let Err(error) = Self::vacancy(lookup) {
            return Err(error);
        }
        let description = match options.description {
            Some(text) => text,
            None => String::new(),
        };
        let mut project = Project::new(
            name,
            created_by,
            description,
            options.reference,
            options.highlight,
        );
        if let Err(error) = self.project_repo.create(&mut project) {
            return Err(error);
        }
        if let Err(error) = self.event_bus.emit_file_created(&project) {
            assert(self.stored_since(old(self), project@));
            return Err(error);
        }
        Ok(project)
    }

    /// What a lookup by id and creator means for an update: a failed lookup
    /// fails the update with the same error, a project found is refused with
    /// `MissingFields` when the new name is empty, and is otherwise revised:
    /// name and description replaced, the change recorded, the rest kept.
    pub fn revision(found: Result<Project, Error>, name: &str, description: &str) -> (outcome:
        Result<Project, Error>)
        ensures
            match found {
                Err(error) => outcome == Err::<Project, Error>(error),
                Ok(stored) => if name@.len() == 0 {
                    outcome == Err::<Project, Error>(Error::MissingFields)
                } else {
                    outcome matches Ok(project) && revised(
                        project@,
                        stored@,
                        name@,
                        description@,
                    )
                },
            },
    {
        let mut project = match found {
            Ok(project) => project,
            Err(error) => {
                return Err(error);
            },
        };
        if name.is_empty() {
            return Err(Error::MissingFields);
        }
        project.revise(name, description);
        Ok(project)
    }

    /// Replaces name and description of the project stored under `id`, as
    /// [`Self::updates`] says.
    ///
    /// The project is looked up first, by id and creator; only then is the
    /// name checked, as [`Self::revision`] says.
    pub fn update(&mut self, id: &str, name: &str, description: &str, created_by: &str) -> (updated:
        Result<Project, Error>)
        ensures
            Self::updates(
                old(self),
                final(self),
                id@,
                name@,
                description@,
                created_by@,
                shown(updated),
            ),
    {
        let found = self.project_repo.find(id, created_by);
        let project = match Self::revision(found, name, description) {
            Ok(project) => project,
            Err(error) => {
                return Err(error);
            },
        };
        if let Err(error) = self.project_repo.update(&project) {
            return Err(error);
        }
        Ok(project)
    }
}

/// What a stored project blocks: after a create has stored `project`, the
/// creator uses its name, and its reference if it has one.
proof fn lemma_created_is_in_use<P: ProjectRepository, B: EventBus>(
    before: ProjectApplication<P, B>,
    after: ProjectApplication<P, B>,
    project: ProjectView,
    created_by: Seq<char>,
    later_name: Seq<char>,
    later_reference: Option<Seq<char>>,
)
    requires
        after.grown_since(&before, project),
        project.owned_by(created_by),
        project.name == later_name || (later_reference is Some && project.reference
            == later_reference),
    ensures
        taken(after.project_repo.projects(), created_by, later_name, later_reference),
{
    let projects = after.project_repo.projects();
    assert(projects.contains_key(project.id) && clashes(
        projects[project.id],
        created_by,
        later_name,
        later_reference,
    ));
}

/// A second create is refused. When a create for `created_by` under `name`
/// has answered a project, every later create of the same creator under the
/// same name fails, whatever else it asks for, and leaves store and bus as
/// they were. The failure is `AlreadyExists`, or `Unknown` when the store
/// could not be asked.
pub proof fn lemma_second_create_is_refused<P: ProjectRepository, B: EventBus>(
    first: ProjectApplication<P, B>,
    second: ProjectApplication<P, B>,
    third: ProjectApplication<P, B>,
    name: Seq<char>,
    created_by: Seq<char>,
    first_options: (Option<Seq<char>>, Option<Seq<char>>, bool),
    first_outcome: Result<ProjectView, Error>,
    second_options: (Option<Seq<char>>, Option<Seq<char>>, bool),
    second_outcome: Result<ProjectView, Error>,
)
    requires
        ProjectApplication::creates(
            &first,
            &second,
            name,
            created_by,
            first_options.0,
            first_options.1,
            first_options.2,
            first_outcome,
        ),
        first_outcome is Ok,
        ProjectApplication::creates(
            &second,
            &third,
            name,
            created_by,
            second_options.0,
            second_options.1,
            second_options.2,
            second_outcome,
        ),
    ensures
        second_outcome == Err::<ProjectView, Error>(Error::AlreadyExists) || second_outcome
            == Err::<ProjectView, Error>(Error::Unknown),
        third.untouched_since(&second),
{
    lemma_created_is_in_use(
        first,
        second,
        first_outcome->Ok_0,
        created_by,
        name,
        second_options.1,
    );
}

/// A create is not repeated by reference. When a create for `created_by`
/// with `reference` has answered a project, every later create of the same
/// creator with the same reference fails, under whatever name, and leaves
/// store and bus as they were: one reference never gives two projects.
pub proof fn lemma_reference_is_created_once<P: ProjectRepository, B: EventBus>(
    first: ProjectApplication<P, B>,
    second: ProjectApplication<P, B>,
    third: ProjectApplication<P, B>,
    reference: Seq<char>,
    created_by: Seq<char>,
    first_request: (Seq<char>, Option<Seq<char>>, bool),
    first_outcome: Result<ProjectView, Error>,
    second_request: (Seq<char>, Option<Seq<char>>, bool),
    second_outcome: Result<ProjectView, Error>,
)
    requires
        ProjectApplication::creates(
            &first,
            &second,
            first_request.0,
            created_by,
            first_request.1,
            Some(reference),
            first_request.2,
            first_outcome,
        ),
        first_outcome is Ok,
        ProjectApplication::creates(
            &second,
            &third,
            second_request.0,
            created_by,
            second_request.1,
            Some(reference),
            second_request.2,
            second_outcome,
        ),
    ensures
        second_outcome is Err,
        third.untouched_since(&second),
        third.project_repo.projects() == second.project_repo.projects(),
{
    lemma_created_is_in_use(
        first,
        second,
        first_outcome->Ok_0,
        created_by,
        second_request.0,
        Some(reference),
    );
}

/// Whether no creator has two projects in `projects` that share a name or
/// share a reference.
pub open spec fn distinct_per_creator(projects: Map<Seq<char>, ProjectView>) -> bool {
    forall|first: Seq<char>, second: Seq<char>, user: Seq<char>|
        first != second && #[trigger] holds(projects, first, user) && #[trigger] holds(
            projects,
            second,
            user,
        ) ==> {
            &&& projects[first].name != projects[second].name
            &&& projects[first].reference is Some ==> projects[first].reference
                != projects[second].reference
        }
}

/// Create keeps the projects of every creator distinct. If no creator had
/// two projects of one name or of one reference before a create, none has
/// after it, whatever the create answered.
pub proof fn lemma_create_keeps_projects_distinct<P: ProjectRepository, B: EventBus>(
    before: ProjectApplication<P, B>,
    after: ProjectApplication<P, B>,
    name: Seq<char>,
    created_by: Seq<char>,
    options: (Option<Seq<char>>, Option<Seq<char>>, bool),
    outcome: Result<ProjectView, Error>,
)
    requires
        ProjectApplication::creates(
            &before,
            &after,
            name,
            created_by,
            options.0,
            options.1,
            options.2,
            outcome,
        ),
        distinct_per_creator(before.project_repo.projects()),
    ensures
        distinct_per_creator(after.project_repo.projects()),
{
    let old_projects = before.project_repo.projects();
    let new_projects = after.project_repo.projects();
    if new_projects != old_projects {
        let project = if outcome is Ok {
            outcome->Ok_0
        } else {
            choose|project: ProjectView|
                {
                    &&& #[trigger] after.stored_since(&before, project)
                    &&& project.id.len() > 0
                    &&& drafted(project, name, created_by, options.0, options.1, options.2)
                }
        };
        assert(after.stored_since(&before, project));
        assert forall|first: Seq<char>, second: Seq<char>, user: Seq<char>|
            first != second && #[trigger] holds(new_projects, first, user) && #[trigger] holds(
                new_projects,
                second,
                user,
            ) implies {
            &&& new_projects[first].name != new_projects[second].name
            &&& new_projects[first].reference is Some ==> new_projects[first].reference
                != new_projects[second].reference
        } by {
            if first == project.id {
                assert(old_projects.contains_key(second));
                assert(!clashes(old_projects[second], created_by, name, options.1));
            } else if second == project.id {
                assert(old_projects.contains_key(first));
                assert(!clashes(old_projects[first], created_by, name, options.1));
            } else {
                assert(holds(old_projects, first, user) && holds(old_projects, second, user));
            }
        }
    }
}

/// Whether `created_by` owns nothing in `projects`.
pub open spec fn owns_nothing(projects: Map<Seq<char>, ProjectView>, created_by: Seq<char>) -> bool {
    forall|id: Seq<char>| !#[trigger] holds(projects, id, created_by)
}

/// A first project is its creator's whole list. When a create for a creator
/// who owned nothing has answered a project, the project has an id and the
/// name asked for, every list of that creator holds exactly this project,
/// and every list of somebody who owns nothing is empty.
pub proof fn lemma_first_project_is_the_whole_list<P: ProjectRepository, B: EventBus>(
    before: ProjectApplication<P, B>,
    after: ProjectApplication<P, B>,
    name: Seq<char>,
    created_by: Seq<char>,
    options: (Option<Seq<char>>, Option<Seq<char>>, bool),
    project: ProjectView,
    listed: Seq<Project>,
    other: Seq<char>,
    listed_for_other: Seq<Project>,
)
    requires
        ProjectApplication::creates(
            &before,
            &after,
            name,
            created_by,
            options.0,
            options.1,
            options.2,
            Ok(project),
        ),
        owns_nothing(before.project_repo.projects(), created_by),
        owns_nothing(before.project_repo.projects(), other),
        other != created_by,
        lists(listed, after.project_repo.projects(), created_by),
        lists(listed_for_other, after.project_repo.projects(), other),
    ensures
        project.id.len() > 0,
        project.name == name,
        listed.len() == 1,
        listed[0]@ == project,
        listed_for_other.len() == 0,
{
    let old_projects = before.project_repo.projects();
    let new_projects = after.project_repo.projects();
    assert(new_projects.contains_key(project.id) && new_projects[project.id] == project);
    assert forall|i: int| 0 <= i < listed.len() implies (#[trigger] listed[i])@ == project by {
        let id = listed[i]@.id;
        assert(holds(new_projects, id, created_by));
        if id != project.id {
            assert(holds(old_projects, id, created_by));
        }
    }
    assert(listed.len() <= 1) by {
        if listed.len() > 1 {
            assert(listed[0]@.id != listed[1]@.id);
        }
    }
    assert(holds(new_projects, project.id, created_by));
    let at = choose|i: int| 0 <= i < listed.len() && (#[trigger] listed[i])@ == new_projects[project.id];
    assert(0 <= at < listed.len());
    if listed_for_other.len() > 0 {
        let id = listed_for_other[0]@.id;
        assert(holds(new_projects, id, other));
        if id != project.id {
            assert(holds(old_projects, id, other));
        }
    }
}

/// Somebody else's project is hidden. For a project that `owner` created, a
/// get and an update by anybody else are answered like those for a missing
/// project: with `NotFound`, or with `Unknown` when the store could not be
/// asked, with no other sign, and the update changes nothing.
pub proof fn lemma_foreign_project_is_hidden<P: ProjectRepository, B: EventBus>(
    before: ProjectApplication<P, B>,
    after: ProjectApplication<P, B>,
    id: Seq<char>,
    owner: Seq<char>,
    other: Seq<char>,
    name: Seq<char>,
    description: Seq<char>,
    got: Result<ProjectView, Error>,
    updated: Result<ProjectView, Error>,
)
    requires
        holds(before.project_repo.projects(), id, owner),
        other != owner,
        before.gets(id, other, got),
        ProjectApplication::updates(&before, &after, id, name, description, other, updated),
    ensures
        got == Err::<ProjectView, Error>(Error::NotFound) || got == Err::<ProjectView, Error>(
            Error::Unknown,
        ),
        updated == Err::<ProjectView, Error>(Error::NotFound) || updated == Err::<
            ProjectView,
            Error,
        >(Error::Unknown),
        after.untouched_since(&before),
{
}

} // verus!
