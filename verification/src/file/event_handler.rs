//! Event handler implementation for consuming file related events.

use crate::event::payloads::{decoding, EventKind, FileEventPayload, FileEventPayloadView};
use crate::project::application::{
    lemma_second_create_is_refused, shown, CreateOptions, EventBus, ProjectApplication,
    ProjectRepository,
};
use crate::project::domain::ProjectView;
use crate::rabbitmq::EventHandler;
use crate::result::Error;
use vstd::prelude::*;

verus! {

/// Whether `issuer` is one of `issuers`.
pub open spec fn listed(issuers: Seq<String>, issuer: Seq<char>) -> bool {
    exists|i: int| 0 <= i < issuers.len() && (#[trigger] issuers[i])@ == issuer
}

/// The names of `issuers`, as plain values.
pub open spec fn names_of(issuers: Seq<String>) -> Seq<Seq<char>> {
    Seq::new(issuers.len(), |i: int| issuers[i]@)
}

/// `names` written as one list, a semicolon between each two.
pub open spec fn joined(names: Seq<Seq<char>>) -> Seq<char>
    decreases names.len(),
{
    if names.len() == 0 {
        Seq::empty()
    } else if names.len() == 1 {
        names[0]
    } else {
        joined(names.drop_last()) + seq![';'] + names.last()
    }
}

/// Whether `names` are the names that `list` holds between its semicolons:
/// written as one list they give `list` back, and none holds a semicolon. A
/// list without a semicolon is one name, be it empty.
pub open spec fn separated(names: Seq<Seq<char>>, list: Seq<char>) -> bool {
    &&& names.len() > 0
    &&& joined(names) == list
    &&& forall|i: int, j: int|
        0 <= i < names.len() && 0 <= j < names[i].len() ==> #[trigger] names[i][j] != ';'
}

/// The issuers that a list names, one after the other, with semicolons in
/// between. This is how the allow-list is configured.
pub fn issuers_of(list: &str) -> (issuers: Vec<String>)
    ensures
        separated(names_of(issuers@), list@),
{
    let length = list.unicode_len();
    let mut issuers: Vec<String> = Vec::new();
    let mut start: usize = 0;
    let mut at: usize = 0;
    while at < length
        invariant
            start <= at <= length,
            length == list@.len(),
            forall|j: int| start <= j < at ==> list@[j] != ';',
            forall|i: int, j: int|
                0 <= i < issuers@.len() && 0 <= j < issuers@[i]@.len() ==> #[trigger] issuers@[i]@[j]
                    != ';',
            issuers@.len() == 0 ==> start == 0,
            issuers@.len() > 0 ==> joined(names_of(issuers@)) + seq![';'] == list@.subrange(
                0,
                start as int,
            ),
        decreases length - at,
    {
        if list.get_char(at) == ';' {
            let ghost before = names_of(issuers@);
            let name = list.substring_char(start, at).to_owned();
            issuers.push(name);
            proof {
                let after = names_of(issuers@);
                assert(after.drop_last() =~= before);
                assert(after.last() == list@.subrange(start as int, at as int));
                assert(joined(after) + seq![';'] =~= list@.subrange(0, at + 1));
                assert forall|i: int, j: int|
                    0 <= i < issuers@.len() && 0 <= j < issuers@[i]@.len() implies #[trigger] issuers@[i]@[j]
                    != ';' by {
                    if i == issuers@.len() - 1 {
                        assert(issuers@[i]@[j] == list@[start + j]);
                    }
                }
            }
            start = at + 1;
        }
        at = at + 1;
    }
    let ghost before = names_of(issuers@);
    let name = list.substring_char(start, length).to_owned();
    issuers.push(name);
    proof {
        let after = names_of(issuers@);
        assert(after.drop_last() =~= before);
        assert(after.last() == list@.subrange(start as int, length as int));
        assert(joined(after) =~= list@);
        assert forall|i: int, j: int|
            0 <= i < after.len() && 0 <= j < after[i].len() implies #[trigger] after[i][j]
            != ';' by {
            assert(after[i] == issuers@[i]@);
            if i == after.len() - 1 {
                assert(issuers@[i]@[j] == list@[start + j]);
            } else {
                assert(issuers@[i]@[j] != ';');
            }
        }
    }
    issuers
}

/// Turns the events of trusted file services into projects.
pub struct FileEventHandler<P: ProjectRepository, B: EventBus> {
    pub issuers_whitelist: Vec<String>,
    pub project_app: ProjectApplication<P, B>,
}

impl<P: ProjectRepository, B: EventBus> FileEventHandler<P, B> {
    /// Whether events of `issuer` are acted on.
    pub open spec fn trusts(&self, issuer: Seq<char>) -> bool {
        listed(self.issuers_whitelist@, issuer)
    }

    /// Whether `outcome` and the state `after` are what the creation of a
    /// project for `event` gives: a project named after the file, owned by
    /// the event's user and tied to the file by its reference. The outcome
    /// is the one of the create, without the project.
    pub open spec fn synced(
        before: &ProjectApplication<P, B>,
        after: &ProjectApplication<P, B>,
        event: FileEventPayloadView,
        outcome: Result<(), Error>,
    ) -> bool {
        exists|made: Result<ProjectView, Error>|
            {
                &&& #[trigger] ProjectApplication::creates(
                    before,
                    after,
                    event.file_name,
                    event.user_id,
                    None,
                    Some(event.file_id),
                    false,
                    made,
                )
                &&& outcome is Ok <==> made is Ok
                &&& outcome is Err ==> outcome->Err_0 == made->Err_0
            }
    }

    /// Whether the allow-list holds `issuer`.
    pub fn is_trusted(&self, issuer: &str) -> (trusted: bool)
        ensures
            trusted == self.trusts(issuer@),
    {
        let wanted = issuer.to_owned();
        let mut at: usize = 0;
        while at < self.issuers_whitelist.len()
            invariant
                at <= self.issuers_whitelist@.len(),
                wanted@ == issuer@,
                forall|i: int| 0 <= i < at ==> (#[trigger] self.issuers_whitelist@[i])@ != issuer@,
            decreases self.issuers_whitelist@.len() - at,
        {
            if self.issuers_whitelist[at] == wanted {
                return true;
            }
            at = at + 1;
        }
        false
    }

    /// Creates the project that stands for a created file: named after the
    /// file, owned by the event's user, with the file's id as its reference.
    /// Delivering the same event again finds that reference taken and
    /// creates nothing.
    pub fn on_file_created(&mut self, event: FileEventPayload) -> (outcome: Result<(), Error>)
        ensures
            Self::synced(&old(self).project_app, &final(self).project_app, event@, outcome),
            final(self).issuers_whitelist == old(self).issuers_whitelist,
    {
        let options = CreateOptions {
            description: None,
            reference: Some(event.file_id().to_owned()),
            highlight: false,
        };
        let made = self.project_app.create(event.file_name(), event.user_id(), options);
        proof {
            assert(ProjectApplication::creates(
                &old(self).project_app,
                &self.project_app,
                event@.file_name,
                event@.user_id,
                None,
                Some(event@.file_id),
                false,
                shown(made),
            ));
        }
        match made {
            Ok(_) => Ok(()),
            Err(error) => Err(error),
        }
    }
}

impl<P: ProjectRepository, B: EventBus> EventHandler for FileEventHandler<P, B> {
    /// Handles one delivery, gate by gate. A body that carries no payload
    /// is an error. A payload of an issuer outside the allow-list is dropped
    /// and answered with success, and so is a payload of any kind but
    /// `created`: neither touches store or bus. A `created` payload of a
    /// trusted issuer becomes a project.
    fn on_event(&mut self, body: Vec<u8>) -> (outcome: Result<(), Error>)
        ensures
            match decoding(body@) {
                None => outcome == Err::<(), Error>(Error::Unknown) && *final(self) == *old(self),
                Some(event) => if old(self).trusts(event.issuer) && event.kind
                    == EventKind::Created {
                    Self::synced(&old(self).project_app, &final(self).project_app, event, outcome)
                } else {
                    outcome == Ok::<(), Error>(()) && *final(self) == *old(self)
                },
            },
            final(self).issuers_whitelist == old(self).issuers_whitelist,
    {
        let payload = match FileEventPayload::decode(body.as_slice()) {
            Ok(payload) => payload,
            Err(error) => {
                return Err(error);
            },
        };
        if !self.is_trusted(payload.issuer()) {
            return Ok(());
        }
        match payload.kind() {
            EventKind::Created => self.on_file_created(payload),
            _ => Ok(()),
        }
    }
}

/// A replayed event creates nothing. When a `created` event has become a
/// project, delivering the same event again fails and leaves store and bus as
/// they were: the file's id is the project's reference, and that reference
/// is in use. The failure is `AlreadyExists`, or `Unknown` when the store
/// could not be asked.
pub proof fn lemma_replayed_event_creates_nothing<P: ProjectRepository, B: EventBus>(
    first: ProjectApplication<P, B>,
    second: ProjectApplication<P, B>,
    third: ProjectApplication<P, B>,
    event: FileEventPayloadView,
    replayed: Result<(), Error>,
)
    requires
        FileEventHandler::<P, B>::synced(&first, &second, event, Ok(())),
        FileEventHandler::<P, B>::synced(&second, &third, event, replayed),
    ensures
        replayed == Err::<(), Error>(Error::AlreadyExists) || replayed == Err::<(), Error>(
            Error::Unknown,
        ),
        third.untouched_since(&second),
{
    let made_first = choose|made: Result<ProjectView, Error>|
        {
            &&& #[trigger] ProjectApplication::creates(
                &first,
                &second,
                event.file_name,
                event.user_id,
                None,
                Some(event.file_id),
                false,
                made,
            )
            &&& made is Ok
        };
    let made_second = choose|made: Result<ProjectView, Error>|
        {
            &&& #[trigger] ProjectApplication::creates(
                &second,
                &third,
                event.file_name,
                event.user_id,
                None,
                Some(event.file_id),
                false,
                made,
            )
            &&& replayed is Ok <==> made is Ok
            &&& replayed is Err ==> replayed->Err_0 == made->Err_0
        };
    lemma_second_create_is_refused(
        first,
        second,
        third,
        event.file_name,
        event.user_id,
        (None, Some(event.file_id), false),
        made_first,
        (None, Some(event.file_id), false),
        made_second,
    );
}

} // verus!
