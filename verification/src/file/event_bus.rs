//! Event bus implementation for emitting file related events.
//!
//! This side prepares what is published and judges how the publishing went.
//! The publishing itself is the work of whoever owns the channel.

use crate::event::payloads::{decoding, EventKind, FileEventPayload, FileEventPayloadView};
use crate::project::domain::{Project, ProjectView};
use crate::result::Error;
use vstd::prelude::*;

verus! {

/// A message ready for the broker.
#[derive(Debug)]
pub struct Publication {
    pub exchange: String,
    pub routing_key: &'static str,
    pub payload: Vec<u8>,
}

/// How the broker took a publication.
#[derive(Clone, Copy, Debug, PartialEq, Eq, Structural)]
pub enum PublishOutcome {
    /// The broker confirmed that it holds the message.
    Confirmed,
    /// The broker refused the message.
    Refused,
    /// The broker confirms nothing on this channel.
    Unconfirmed,
    /// The message could not be sent.
    SendFailed,
    /// The message was sent and the wait for the confirmation failed.
    ConfirmFailed,
}

/// The identity this service stamps on its events, and where they go.
#[derive(Debug)]
pub struct RabbitMqFileBus {
    pub app_id: String,
    pub issuer: String,
    pub exchange: String,
}

impl RabbitMqFileBus {
    /// The event that tells of the creation of `project`, stamped with this
    /// service's identity. The project's id is the event's subject.
    pub open spec fn file_created(&self, project: ProjectView) -> FileEventPayloadView
        recommends
            project.meta.created_by is Some,
    {
        FileEventPayloadView {
            issuer: self.issuer@,
            user_id: project.meta.created_by->0,
            app_id: self.app_id@,
            file_name: project.name,
            file_id: project.id,
            file_reference: project.reference,
            kind: EventKind::Created,
        }
    }

    /// The event that tells of the creation of `project`. A project without
    /// a creator has no such event.
    pub fn file_created_event(&self, project: &Project) -> (event: Result<FileEventPayload, Error>)
        ensures
            match event {
                Ok(payload) => project@.meta.created_by is Some && payload@ == self.file_created(
                    project@,
                ),
                Err(error) => error == Error::MissingFields && project@.meta.created_by is None,
            },
    {
        let user_id = match project.meta().created_by() {
            Some(user_id) => user_id,
            None => {
                return Err(Error::MissingFields);
            },
        };
        let file_reference = match project.reference() {
            Some(key) => Some(key.to_owned()),
            None => None,
        };
        Ok(
            FileEventPayload::new(
                self.issuer.clone(),
                user_id.to_owned(),
                self.app_id.clone(),
                project.name().to_owned(),
                project.id().to_owned(),
                file_reference,
                EventKind::Created,
            ),
        )
    }

    /// What to publish so that the creation of `project` becomes known: the
    /// encoded event, for this bus's exchange, with an empty routing key. The
    /// exchange fans out, so every bound queue gets the event and the
    /// consumers do the filtering.
    ///
    /// Every project with a creator has its publication. A project without
    /// one is refused with `MissingFields`.
    pub fn emit_file_created(&self, project: &Project) -> (publication: Result<Publication, Error>)
        ensures
            publication is Ok <==> project@.meta.created_by is Some,
            match publication {
                Ok(message) => {
                    &&& message.exchange@ == self.exchange@
                    &&& message.routing_key@.len() == 0
                    &&& message.payload@ == self.file_created(project@).encoding()
                    &&& decoding(message.payload@) == Some(self.file_created(project@))
                },
                Err(error) => error == Error::MissingFields,
            },
    {
        let event = match self.file_created_event(project) {
            Ok(event) => event,
            Err(error) => {
                return Err(error);
            },
        };
        let payload = match event.encode() {
            Ok(payload) => payload,
            Err(error) => {
                return Err(error);
            },
        };
        proof {
            reveal_strlit("");
        }
        Ok(Publication { exchange: self.exchange.clone(), routing_key: "", payload })
    }

    /// Whether an event counts as emitted: only when the broker confirmed
    /// that it holds the message. Every other outcome is `Unknown`, whether
    /// the sending or the confirmation went wrong.
    pub fn settle(outcome: PublishOutcome) -> (emitted: Result<(), Error>)
        ensures
            emitted == (if outcome == PublishOutcome::Confirmed {
                Ok::<(), Error>(())
            } else {
                Err::<(), Error>(Error::Unknown)
            }),
    {
        match outcome {
            PublishOutcome::Confirmed => Ok(()),
            _ => Err(Error::Unknown),
        }
    }
}

} // verus!
