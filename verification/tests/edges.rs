use agora::event::payloads::{EventKind, FileEventPayload};
use agora::file::event_bus::{PublishOutcome, RabbitMqFileBus};
use agora::grpc::{get_header, Code, HeaderLookup, Status};
use agora::metadata::domain::Metadata;
use agora::metadata::repository::SurrealMetadata;
use agora::project::domain::{Cardinalities, Project, ProjectWithCardinalities};
use agora::project::proto;
use agora::project::repository::{
    assigned, found, record_key, SurrealAnonymousProject, SurrealProject,
    SurrealProjectWithCardinalities, TABLENAME,
};
use agora::result::Error;
use agora::surreal::{export_item, export_items};
use std::time::{Duration, SystemTime};

fn bus() -> RabbitMqFileBus {
    RabbitMqFileBus {
        app_id: "agora".to_string(),
        issuer: "agora-1".to_string(),
        exchange: "files".to_string(),
    }
}

fn stored_project() -> Project {
    let meta = Metadata::from_parts(
        Some("u1".to_string()),
        Some(SystemTime::UNIX_EPOCH + Duration::from_secs(10)),
        None,
        None,
    );
    Project::from_parts(
        "project:1".to_string(),
        "Atlas".to_string(),
        "maps".to_string(),
        Some("file:7".to_string()),
        true,
        meta,
    )
}

fn row() -> SurrealProject {
    SurrealProject {
        id: "project:1".to_string(),
        name: "Atlas".to_string(),
        description: "maps".to_string(),
        reference: Some("file:7".to_string()),
        meta: SurrealMetadata {
            created_by: Some("u1".to_string()),
            created_at: Some(SystemTime::UNIX_EPOCH + Duration::from_secs(10)),
            updated_at: Some(SystemTime::UNIX_EPOCH + Duration::from_secs(20)),
            deleted_at: None,
        },
        highlight: true,
    }
}

#[test]
fn metadata_new_stamps_the_creator() {
    let before = SystemTime::now();
    let meta = Metadata::new("u1");
    let after = SystemTime::now();
    assert_eq!(meta.created_by(), Some("u1"));
    let created_at = meta.created_at().unwrap();
    assert!(before <= created_at && created_at <= after);
    assert_eq!(meta.updated_at(), None);
    assert_eq!(meta.deleted_at(), None);
}

#[test]
fn metadata_default_is_blank() {
    let meta = Metadata::default();
    assert_eq!(meta.created_by(), None);
    assert_eq!(meta.created_at(), None);
    assert_eq!(meta.updated_at(), None);
    assert_eq!(meta.deleted_at(), None);
}

#[test]
fn metadata_touch_keeps_the_creation() {
    let mut meta = Metadata::new("u1");
    let created_at = meta.created_at();
    meta.touch();
    assert_eq!(meta.created_by(), Some("u1"));
    assert_eq!(meta.created_at(), created_at);
    assert!(meta.updated_at().is_some());
    assert_eq!(meta.deleted_at(), None);
}

#[test]
fn metadata_clone_is_equal() {
    let meta = Metadata::new("u1");
    let copy = meta.clone();
    assert_eq!(copy.created_by(), meta.created_by());
    assert_eq!(copy.created_at(), meta.created_at());
    assert_eq!(copy.updated_at(), meta.updated_at());
    assert_eq!(copy.deleted_at(), meta.deleted_at());
}

#[test]
fn metadata_survives_the_store() {
    let meta = Metadata::from_parts(
        Some("u1".to_string()),
        Some(SystemTime::UNIX_EPOCH + Duration::from_secs(10)),
        Some(SystemTime::UNIX_EPOCH + Duration::from_secs(20)),
        Some(SystemTime::UNIX_EPOCH + Duration::from_secs(30)),
    );
    let stored = SurrealMetadata::from(meta.clone());
    assert_eq!(stored.created_by.as_deref(), Some("u1"));
    assert_eq!(stored.created_at, meta.created_at());
    assert_eq!(stored.updated_at, meta.updated_at());
    assert_eq!(stored.deleted_at, meta.deleted_at());
    let back = Metadata::from(stored);
    assert_eq!(back.created_by(), Some("u1"));
    assert_eq!(back.created_at(), meta.created_at());
    assert_eq!(back.updated_at(), meta.updated_at());
    assert_eq!(back.deleted_at(), meta.deleted_at());
}

#[test]
fn stored_metadata_default_is_blank() {
    let stored = SurrealMetadata::default();
    assert!(stored.created_by.is_none());
    assert!(stored.created_at.is_none());
    assert!(stored.updated_at.is_none());
    assert!(stored.deleted_at.is_none());
    assert!(stored.clone().created_by.is_none());
}

#[test]
fn project_new_has_no_id() {
    let project = Project::new("Atlas", "u1", "maps".to_string(), None, true);
    assert_eq!(project.id(), "");
    assert_eq!(project.name(), "Atlas");
    assert_eq!(project.description(), "maps");
    assert_eq!(project.reference(), None);
    assert!(project.highlight());
    assert_eq!(project.meta().created_by(), Some("u1"));
}

#[test]
fn project_assign_id_changes_the_id_only() {
    let mut project = stored_project();
    project.assign_id("project:2".to_string());
    assert_eq!(project.id(), "project:2");
    assert_eq!(project.name(), "Atlas");
    assert_eq!(project.description(), "maps");
    assert_eq!(project.reference(), Some("file:7"));
    assert!(project.highlight());
    assert_eq!(project.meta().created_by(), Some("u1"));
}

#[test]
fn project_revise_records_the_change() {
    let mut project = stored_project();
    let created_at = project.meta().created_at();
    project.revise("Globe", "round");
    assert_eq!(project.id(), "project:1");
    assert_eq!(project.name(), "Globe");
    assert_eq!(project.description(), "round");
    assert_eq!(project.reference(), Some("file:7"));
    assert_eq!(project.meta().created_at(), created_at);
    assert!(project.meta().updated_at().is_some());
}

#[test]
fn project_clone_is_equal() {
    let project = stored_project();
    let copy = project.clone();
    assert_eq!(copy.id(), project.id());
    assert_eq!(copy.name(), project.name());
    assert_eq!(copy.description(), project.description());
    assert_eq!(copy.reference(), project.reference());
    assert_eq!(copy.highlight(), project.highlight());
    assert_eq!(copy.meta().created_by(), project.meta().created_by());
}

#[test]
fn row_becomes_project_and_back() {
    let project = Project::from(row());
    assert_eq!(project.id(), "project:1");
    assert_eq!(project.name(), "Atlas");
    assert_eq!(project.description(), "maps");
    assert_eq!(project.reference(), Some("file:7"));
    assert!(project.highlight());
    assert_eq!(project.meta().created_by(), Some("u1"));
    assert_eq!(project.meta().updated_at(), Some(SystemTime::UNIX_EPOCH + Duration::from_secs(20)));

    let back = SurrealProject::from(&project);
    assert_eq!(back.id, "project:1");
    assert_eq!(back.name, "Atlas");
    assert_eq!(back.description, "maps");
    assert_eq!(back.reference.as_deref(), Some("file:7"));
    assert!(back.highlight);
    assert_eq!(back.meta.created_by.as_deref(), Some("u1"));
}

#[test]
fn anonymous_row_leaves_the_id_out() {
    let anonymous = SurrealAnonymousProject::from(&stored_project());
    assert_eq!(anonymous.name, "Atlas");
    assert_eq!(anonymous.description, "maps");
    assert_eq!(anonymous.reference.as_deref(), Some("file:7"));
    assert!(anonymous.highlight);
    assert_eq!(anonymous.meta.created_by.as_deref(), Some("u1"));
}

#[test]
fn counted_row_becomes_counted_project() {
    let counted = ProjectWithCardinalities::from(SurrealProjectWithCardinalities {
        id: "project:1".to_string(),
        name: "Atlas".to_string(),
        description: String::new(),
        reference: None,
        meta: SurrealMetadata::default(),
        highlight: false,
        total_characters: 1,
        total_objects: 2,
        total_locations: 3,
        total_events: 4,
    });
    assert_eq!(counted.project.id(), "project:1");
    assert_eq!(counted.project.name(), "Atlas");
    assert_eq!(
        counted.cardinalities,
        Cardinalities { total_characters: 1, total_objects: 2, total_locations: 3, total_events: 4 }
    );
}

#[test]
fn found_refuses_a_project_without_id() {
    assert_eq!(found(stored_project()).unwrap().id(), "project:1");
    let nameless = Project::new("Atlas", "u1", String::new(), None, false);
    assert_eq!(found(nameless).unwrap_err(), Error::NotFound);
}

#[test]
fn export_item_reads_the_statement() {
    let exported: Result<Project, Error> = export_item::<SurrealProject, Project, ()>(Ok(Some(row())));
    assert_eq!(exported.unwrap().name(), "Atlas");
    let nothing: Result<Project, Error> = export_item::<SurrealProject, Project, ()>(Ok(None));
    assert_eq!(nothing.unwrap_err(), Error::NotFound);
    let failed: Result<Project, Error> = export_item::<SurrealProject, Project, ()>(Err(()));
    assert_eq!(failed.unwrap_err(), Error::Unknown);
}

#[test]
fn export_items_keeps_the_order() {
    let mut second = row();
    second.id = "project:2".to_string();
    second.name = "Globe".to_string();
    let exported: Vec<Project> =
        export_items::<SurrealProject, Project, ()>(Ok(vec![row(), second])).unwrap();
    assert_eq!(exported.len(), 2);
    assert_eq!(exported[0].id(), "project:1");
    assert_eq!(exported[1].id(), "project:2");
    assert_eq!(exported[1].name(), "Globe");
    let none: Vec<Project> = export_items::<SurrealProject, Project, ()>(Ok(Vec::new())).unwrap();
    assert!(none.is_empty());
    let failed = export_items::<SurrealProject, Project, ()>(Err(()));
    assert_eq!(failed.unwrap_err(), Error::Unknown);
}

#[test]
fn statuses_follow_the_error_kind() {
    let expected = [
        (Error::Unknown, Code::Unknown, "unknown"),
        (Error::NotFound, Code::NotFound, "not found"),
        (Error::NotAvailable, Code::Unavailable, "not available"),
        (Error::Unauthorized, Code::PermissionDenied, "unauthorized"),
        (Error::InvalidToken, Code::InvalidArgument, "invalid token"),
        (Error::InvalidFormat, Code::InvalidArgument, "invalid format"),
        (Error::InvalidHeader, Code::InvalidArgument, "invalid header"),
        (Error::WrongCredentials, Code::Unauthenticated, "wrong credentials"),
        (Error::RegexNotMatch, Code::FailedPrecondition, "regex not match"),
        (Error::AlreadyExists, Code::AlreadyExists, "already exists"),
        (Error::MissingFields, Code::InvalidArgument, "missing fields"),
    ];
    for (error, code, message) in expected {
        assert_eq!(Status::from(error), Status { code, message });
        assert_eq!(error.as_str(), message);
    }
}

#[test]
fn get_header_reads_the_lookup() {
    assert_eq!(get_header(HeaderLookup::Text("u1".to_string())), Ok("u1".to_string()));
    assert_eq!(get_header(HeaderLookup::Text(String::new())), Ok(String::new()));
    assert_eq!(
        get_header(HeaderLookup::Missing),
        Err(Status { code: Code::PermissionDenied, message: "unauthorized" })
    );
    assert_eq!(
        get_header(HeaderLookup::Unreadable),
        Err(Status { code: Code::InvalidArgument, message: "invalid header" })
    );
}

#[test]
fn project_message_shows_the_project() {
    let message = proto::Project::from(stored_project());
    assert_eq!(message.id, "project:1");
    assert_eq!(message.name, "Atlas");
    assert_eq!(message.description, "maps");
    assert!(message.highlight);
}

#[test]
fn project_list_keeps_the_order() {
    let mut second = stored_project();
    second.assign_id("project:2".to_string());
    let list = proto::ProjectList::from(vec![stored_project(), second]);
    assert_eq!(list.projects.len(), 2);
    assert_eq!(list.projects[0].id, "project:1");
    assert_eq!(list.projects[1].id, "project:2");
    assert!(proto::ProjectList::from(Vec::new()).projects.is_empty());
}

fn listed(cardinalities: &[proto::Cardinality]) -> Vec<(&str, i32)> {
    cardinalities.iter().map(|one| (one.name.as_str(), one.value)).collect()
}

#[test]
fn cardinalities_list_the_counts_above_zero() {
    let all = Vec::<proto::Cardinality>::from(Cardinalities {
        total_characters: 1,
        total_objects: 2,
        total_locations: 3,
        total_events: 4,
    });
    assert_eq!(
        listed(&all),
        vec![("characters", 1), ("objects", 2), ("locations", 3), ("events", 4)]
    );
    let some = Vec::<proto::Cardinality>::from(Cardinalities {
        total_characters: 0,
        total_objects: 5,
        total_locations: -1,
        total_events: i32::MAX,
    });
    assert_eq!(listed(&some), vec![("objects", 5), ("events", i32::MAX)]);
    let none = Vec::<proto::Cardinality>::from(Cardinalities {
        total_characters: 0,
        total_objects: 0,
        total_locations: 0,
        total_events: i32::MIN,
    });
    assert!(none.is_empty());
}

#[test]
fn counted_project_message_shows_project_and_counts() {
    let message = proto::ProjectWithCardinalities::from(ProjectWithCardinalities {
        project: stored_project(),
        cardinalities: Cardinalities {
            total_characters: 0,
            total_objects: 0,
            total_locations: 7,
            total_events: 0,
        },
    });
    assert_eq!(message.project.unwrap().id, "project:1");
    assert_eq!(listed(&message.cardinalities), vec![("locations", 7)]);
}

#[test]
fn file_created_event_is_stamped_with_the_identity() {
    let event = bus().file_created_event(&stored_project()).unwrap();
    assert_eq!(event.issuer(), "agora-1");
    assert_eq!(event.app_id(), "agora");
    assert_eq!(event.user_id(), "u1");
    assert_eq!(event.file_name(), "Atlas");
    assert_eq!(event.file_id(), "project:1");
    assert_eq!(event.file_reference(), Some("file:7"));
    assert_eq!(event.kind(), EventKind::Created);
}

#[test]
fn emit_prepares_the_publication() {
    let publication = bus().emit_file_created(&stored_project()).unwrap();
    assert_eq!(publication.exchange, "files");
    assert_eq!(publication.routing_key, "");
    let event = FileEventPayload::decode(&publication.payload).unwrap();
    assert_eq!(event.issuer(), "agora-1");
    assert_eq!(event.app_id(), "agora");
    assert_eq!(event.user_id(), "u1");
    assert_eq!(event.file_name(), "Atlas");
    assert_eq!(event.file_id(), "project:1");
    assert_eq!(event.file_reference(), Some("file:7"));
    assert_eq!(event.kind(), EventKind::Created);
}

#[test]
fn emit_refuses_a_project_without_creator() {
    let orphan = Project::from_parts(
        "project:1".to_string(),
        "Atlas".to_string(),
        String::new(),
        None,
        false,
        Metadata::default(),
    );
    assert_eq!(bus().emit_file_created(&orphan).unwrap_err(), Error::MissingFields);
    assert_eq!(bus().file_created_event(&orphan).unwrap_err(), Error::MissingFields);
}

#[test]
fn settle_counts_a_confirmed_publication_only() {
    assert_eq!(RabbitMqFileBus::settle(PublishOutcome::Confirmed), Ok(()));
    assert_eq!(RabbitMqFileBus::settle(PublishOutcome::Refused), Err(Error::Unknown));
    assert_eq!(RabbitMqFileBus::settle(PublishOutcome::Unconfirmed), Err(Error::Unknown));
    assert_eq!(RabbitMqFileBus::settle(PublishOutcome::SendFailed), Err(Error::Unknown));
    assert_eq!(RabbitMqFileBus::settle(PublishOutcome::ConfirmFailed), Err(Error::Unknown));
}

#[test]
fn emit_answers_every_project_with_a_creator() {
    let plain = Project::new("", "u", String::new(), None, false);
    assert!(bus().emit_file_created(&plain).is_ok());
    let long = Project::new(&"n".repeat(70_000), "u1", "d".repeat(70_000), None, true);
    let publication = bus().emit_file_created(&long).unwrap();
    let event = FileEventPayload::decode(&publication.payload).unwrap();
    assert_eq!(event.file_name().len(), 70_000);
    assert_eq!(event.file_id(), "");
    assert_eq!(event.file_reference(), None);
}

#[test]
fn record_key_drops_the_table() {
    assert_eq!(TABLENAME, "project");
    assert_eq!(record_key("project:abc"), "abc");
    assert_eq!(record_key("project:"), "");
    assert_eq!(record_key("project:project:x"), "project:x");
    assert_eq!(record_key("abc"), "abc");
    assert_eq!(record_key(""), "");
    assert_eq!(record_key("project"), "project");
    assert_eq!(record_key("projects:abc"), "projects:abc");
    assert_eq!(record_key("Project:abc"), "Project:abc");
    assert_eq!(record_key("project:\u{e9}\u{1F30D}"), "\u{e9}\u{1F30D}");
    assert_eq!(record_key("\u{e9}roject:abc"), "\u{e9}roject:abc");
}

#[test]
fn assigned_takes_an_id_that_is_not_empty() {
    let mut project = Project::new("Atlas", "u1", String::new(), None, false);
    assert_eq!(assigned(&mut project, Some("project:1".to_string())), Ok(()));
    assert_eq!(project.id(), "project:1");
    assert_eq!(project.name(), "Atlas");
    assert_eq!(assigned(&mut project, Some(String::new())), Err(Error::Unknown));
    assert_eq!(project.id(), "project:1");
    assert_eq!(assigned(&mut project, None), Err(Error::Unknown));
    assert_eq!(project.id(), "project:1");
}
