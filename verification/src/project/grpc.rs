//! Infrastructure layer for serving the project's application as a gRPC service.
//!
//! Every call names its caller in a trusted header. The transport looks the
//! header up and hands over what it found; the rest is decided here.

use super::application::{
    lists, shown, CreateOptions, EventBus, ProjectApplication, ProjectRepository,
};
use super::domain;
use super::proto::{Cardinality, Project, ProjectList, ProjectWithCardinalities};
use crate::grpc::{get_header, HeaderLookup, Status};
use crate::result::Error;
use vstd::prelude::*;
use vstd::std_specs::convert::FromSpecImpl;

verus! {

/// Serves the project use cases to remote callers.
pub struct GrpcProjectServer<P: ProjectRepository, B: EventBus> {
    pub project_app: ProjectApplication<P, B>,
    /// The name of the header that carries the caller's user id.
    pub uid_header: String,
}

/// Whether `found` names no caller, and so every call with it is refused
/// before anything is done.
pub open spec fn nameless(found: HeaderLookup) -> bool {
    !(found is Text)
}

/// The status that refuses a call whose caller header is missing or
/// unreadable.
pub open spec fn refusal(found: HeaderLookup) -> Status
    recommends
        nameless(found),
{
    if found is Missing {
        Error::Unauthorized.status()
    } else {
        Error::InvalidHeader.status()
    }
}

/// Whether `response` is the answer to a call that ended in `outcome`: the
/// project as a message, or the error as its status.
pub open spec fn answers(
    response: Result<Project, Status>,
    outcome: Result<domain::ProjectView, Error>,
) -> bool {
    match outcome {
        Ok(project) => response matches Ok(message) && message.shows(project),
        Err(error) => response == Err::<Project, Status>(error.status()),
    }
}

/// The answer to a call that ended in `outcome`.
pub fn answer(outcome: Result<domain::Project, Error>) -> (response: Result<Project, Status>)
    ensures
        answers(response, shown(outcome)),
{
    match outcome {
        Ok(project) => Ok(Project::from(project)),
        Err(error) => Err(Status::from(error)),
    }
}

impl<P: ProjectRepository, B: EventBus> GrpcProjectServer<P, B> {
    /// Get: the caller's project stored under the id of `request`.
    pub fn get(&self, uid: HeaderLookup, request: Project) -> (response: Result<Project, Status>)
        ensures
            match uid {
                HeaderLookup::Text(user) => exists|outcome: Result<domain::ProjectView, Error>|
                    #[trigger] self.project_app.gets(request.id@, user@, outcome) && answers(
                        response,
                        outcome,
                    ),
                _ => response == Err::<Project, Status>(refusal(uid)),
            },
    {
        let user = match get_header(uid) {
            Ok(user) => user,
            Err(status) => {
                return Err(status);
            },
        };
        let found = self.project_app.get(request.id.as_str(), user.as_str());
        proof {
            assert(self.project_app.gets(request.id@, user@, shown(found)));
        }
        answer(found)
    }

    /// List: every project of the caller, each once.
    pub fn list(&self, uid: HeaderLookup) -> (response: Result<ProjectList, Status>)
        ensures
            match uid {
                HeaderLookup::Text(user) => match response {
                    Ok(list) => exists|listed: Seq<domain::Project>|
                        {
                            &&& #[trigger] lists(
                                listed,
                                self.project_app.project_repo.projects(),
                                user@,
                            )
                            &&& list.projects@.len() == listed.len()
                            &&& forall|i: int|
                                0 <= i < listed.len() ==> (#[trigger] list.projects@[i]).shows(
                                    listed[i]@,
                                )
                        },
                    Err(status) => status == Error::Unknown.status(),
                },
                _ => response == Err::<ProjectList, Status>(refusal(uid)),
            },
    {
        let user = match get_header(uid) {
            Ok(user) => user,
            Err(status) => {
                return Err(status);
            },
        };
        match self.project_app.list(user.as_str()) {
            Ok(projects) => {
                let ghost listed = projects@;
                let list = ProjectList::from(projects);
                proof {
                    assert(lists(listed, self.project_app.project_repo.projects(), user@));
                }
                Ok(list)
            },
            Err(error) => Err(Status::from(error)),
        }
    }

    /// Create: a project of the caller with the name, description and
    /// highlight of `request`, and no reference.
    pub fn create(&mut self, uid: HeaderLookup, request: Project) -> (response: Result<
        Project,
        Status,
    >)
        ensures
            final(self).uid_header == old(self).uid_header,
            match uid {
                HeaderLookup::Text(user) => exists|outcome: Result<domain::ProjectView, Error>|
                    #[trigger] ProjectApplication::creates(
                        &old(self).project_app,
                        &final(self).project_app,
                        request.name@,
                        user@,
                        Some(request.description@),
                        None,
                        request.highlight,
                        outcome,
                    ) && answers(response, outcome),
                _ => response == Err::<Project, Status>(refusal(uid)) && final(self).project_app
                    == old(self).project_app,
            },
    {
        let user = match get_header(uid) {
            Ok(user) => user,
            Err(status) => {
                return Err(status);
            },
        };
        let options = CreateOptions {
            description: Some(request.description),
            reference: None,
            highlight: request.highlight,
        };
        let made = self.project_app.create(request.name.as_str(), user.as_str(), options);
        proof {
            assert(ProjectApplication::creates(
                &old(self).project_app,
                &self.project_app,
                request.name@,
                user@,
                Some(request.description@),
                None,
                request.highlight,
                shown(made),
            ));
        }
        answer(made)
    }

    /// Update: the name and description of `request` for the caller's
    /// project stored under its id.
    pub fn update(&mut self, uid: HeaderLookup, request: Project) -> (response: Result<
        Project,
        Status,
    >)
        ensures
            final(self).uid_header == old(self).uid_header,
            match uid {
                HeaderLookup::Text(user) => exists|outcome: Result<domain::ProjectView, Error>|
                    #[trigger] ProjectApplication::updates(
                        &old(self).project_app,
                        &final(self).project_app,
                        request.id@,
                        request.name@,
                        request.description@,
                        user@,
                        outcome,
                    ) && answers(response, outcome),
                _ => response == Err::<Project, Status>(refusal(uid)) && final(self).project_app
                    == old(self).project_app,
            },
    {
        let user = match get_header(uid) {
            Ok(user) => user,
            Err(status) => {
                return Err(status);
            },
        };
        let made = self.project_app.update(
            request.id.as_str(),
            request.name.as_str(),
            request.description.as_str(),
            user.as_str(),
        );
        proof {
            assert(ProjectApplication::updates(
                &old(self).project_app,
                &self.project_app,
                request.id@,
                request.name@,
                request.description@,
                user@,
                shown(made),
            ));
        }
        answer(made)
    }
}

impl From<domain::Project> for Project {
    /// The message shows the project.
    fn from(value: domain::Project) -> (message: Self)
        ensures
            message.shows(value@),
    {
        Project {
            id: value.id().to_owned(),
            name: value.name().to_owned(),
            description: value.description().to_owned(),
            highlight: value.highlight(),
        }
    }
}

/// The conversion is stated on `from` itself, over views.
impl FromSpecImpl<domain::Project> for Project {
    open spec fn obeys_from_spec() -> bool {
        false
    }

    open spec fn from_spec(value: domain::Project) -> Project {
        arbitrary()
    }
}

impl From<Vec<domain::Project>> for ProjectList {
    /// The list shows the projects, one message each, in their order.
    fn from(value: Vec<domain::Project>) -> (list: Self)
        ensures
            list.projects@.len() == value@.len(),
            forall|i: int|
                0 <= i < value@.len() ==> (#[trigger] list.projects@[i]).shows(value@[i]@),
    {
        let mut value = value;
        let ghost all = value@;
        let mut projects: Vec<Project> = Vec::new();
        while value.len() > 0
            invariant
                projects@.len() <= all.len(),
                value@ == all.skip(projects@.len() as int),
                forall|i: int| 0 <= i < projects@.len() ==> (#[trigger] projects@[i]).shows(all[i]@),
            decreases value@.len(),
        {
            let project = value.remove(0);
            projects.push(Project::from(project));
        }
        ProjectList { projects }
    }
}

/// The conversion is stated on `from` itself, over views.
impl FromSpecImpl<Vec<domain::Project>> for ProjectList {
    open spec fn obeys_from_spec() -> bool {
        false
    }

    open spec fn from_spec(value: Vec<domain::Project>) -> ProjectList {
        arbitrary()
    }
}

/// One count as it is listed: under its name if it is above zero, and not at
/// all otherwise.
pub open spec fn counted(name: Seq<char>, total: i32) -> Seq<(Seq<char>, i32)> {
    if total > 0 {
        seq![(name, total)]
    } else {
        Seq::empty()
    }
}

/// The counts above zero, by name: characters, objects, locations, events.
pub open spec fn counts(value: domain::Cardinalities) -> Seq<(Seq<char>, i32)> {
    counted("characters"@, value.total_characters) + counted("objects"@, value.total_objects)
        + counted("locations"@, value.total_locations) + counted("events"@, value.total_events)
}

/// What a list of cardinalities holds, as plain values.
pub open spec fn listing(cardinalities: Seq<Cardinality>) -> Seq<(Seq<char>, i32)> {
    cardinalities.map_values(|one: Cardinality| (one.name@, one.value))
}

impl From<domain::Cardinalities> for Vec<Cardinality> {
    /// Lists the counts that are above zero.
    fn from(value: domain::Cardinalities) -> (cardinalities: Self)
        ensures
            listing(cardinalities@) == counts(value),
    {
        let mut cardinalities: Vec<Cardinality> = Vec::new();
        if value.total_characters > 0 {
            cardinalities.push(
                Cardinality { name: "characters".to_owned(), value: value.total_characters },
            );
        }
        assert(listing(cardinalities@) =~= counted("characters"@, value.total_characters));
        if value.total_objects > 0 {
            cardinalities.push(
                Cardinality { name: "objects".to_owned(), value: value.total_objects },
            );
        }
        assert(listing(cardinalities@) =~= counted("characters"@, value.total_characters)
            + counted("objects"@, value.total_objects));
        if value.total_locations > 0 {
            cardinalities.push(
                Cardinality { name: "locations".to_owned(), value: value.total_locations },
            );
        }
        assert(listing(cardinalities@) =~= counted("characters"@, value.total_characters)
            + counted("objects"@, value.total_objects) + counted(
            "locations"@,
            value.total_locations,
        ));
        if value.total_events > 0 {
            cardinalities.push(
                Cardinality { name: "events".to_owned(), value: value.total_events },
            );
        }
        assert(listing(cardinalities@) =~= counts(value));
        cardinalities
    }
}

/// The conversion is stated on `from` itself, over views.
impl FromSpecImpl<domain::Cardinalities> for Vec<Cardinality> {
    open spec fn obeys_from_spec() -> bool {
        false
    }

    open spec fn from_spec(value: domain::Cardinalities) -> Vec<Cardinality> {
        arbitrary()
    }
}

impl From<domain::ProjectWithCardinalities> for ProjectWithCardinalities {
    /// The message shows the project and lists its counts above zero.
    fn from(value: domain::ProjectWithCardinalities) -> (message: Self)
        ensures
            message.project matches Some(project) && project.shows(value.project@),
            listing(message.cardinalities@) == counts(value.cardinalities),
    {
        ProjectWithCardinalities {
            project: Some(Project::from(value.project)),
            cardinalities: Vec::from(value.cardinalities),
        }
    }
}

/// The conversion is stated on `from` itself, over views.
impl FromSpecImpl<domain::ProjectWithCardinalities> for ProjectWithCardinalities {
    open spec fn obeys_from_spec() -> bool {
        false
    }

    open spec fn from_spec(value: domain::ProjectWithCardinalities) -> ProjectWithCardinalities {
        arbitrary()
    }
}

} // verus!
