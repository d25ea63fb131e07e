//! Publications on concrete values.

use factory_kernel::audit::AuditRow;
use factory_kernel::digest::ContentDigest;
use factory_kernel::identity::{
    ArtifactId, AuditLogId, ContractError, DecisionId, ExperimentRunId, OfficeId, PublicationId,
    SessionId, TicketId,
};
use factory_kernel::publication::{
    admit_publication, anchor_columns, bound_actor_office, command_from_request,
    created_publication_receipt, find_idempotent, fingerprint, plan_publication,
    publication_error_code, publication_kind_code, require_active_office, session_principal,
    validate_command, AnchorColumns, CreatePublication, InstitutionalReference,
    PublicationAttachmentInput, PublicationAttachmentWire, PublicationCreateRequest,
    PublicationKind, PublicationLimits, PublicationRpcError, PublicationStoreError,
};

fn artifact(value: i64) -> ArtifactId {
    ArtifactId::new(value).unwrap()
}

fn limits() -> PublicationLimits {
    PublicationLimits {
        summary_bytes: 20,
        attachments: 2,
        label_bytes: 5,
    }
}

fn attachment(id: i64, label: &str) -> PublicationAttachmentInput {
    PublicationAttachmentInput {
        artifact_id: artifact(id),
        label: label.to_owned(),
    }
}

fn command() -> CreatePublication {
    CreatePublication {
        client_command_id: "publish-1".to_owned(),
        anchor: InstitutionalReference::Ticket(TicketId::new(20).unwrap()),
        kind: PublicationKind::Finding,
        summary: "found it".to_owned(),
        body_artifact_id: artifact(10),
        attachments: vec![attachment(11, "log"), attachment(12, "trace")],
        reply_to: None,
        supersedes: Some(PublicationId::new(3).unwrap()),
    }
}

#[test]
fn publications_are_bounded_and_anchored() {
    assert_eq!(validate_command(&command(), limits()), Ok(()));
    let refused = |change: fn(&mut CreatePublication)| {
        let mut command = command();
        change(&mut command);
        validate_command(&command, limits()).unwrap_err()
    };
    assert_eq!(
        refused(|command| command.client_command_id = "a b".to_owned()),
        PublicationStoreError::InvalidCommandIdentity
    );
    assert_eq!(
        refused(|command| command.anchor =
            InstitutionalReference::ExperimentRun(ExperimentRunId::new(1).unwrap())),
        PublicationStoreError::InvalidAnchor
    );
    assert_eq!(
        refused(|command| command.summary = "x".repeat(21)),
        PublicationStoreError::InvalidSummary
    );
    assert_eq!(
        refused(|command| command.attachments.push(attachment(13, "more"))),
        PublicationStoreError::AttachmentLimitExceeded
    );
    assert_eq!(
        refused(|command| command.attachments[1].label = "too long".to_owned()),
        PublicationStoreError::InvalidAttachmentLabel
    );
    assert_eq!(
        refused(|command| command.attachments[1].artifact_id = artifact(11)),
        PublicationStoreError::DuplicateAttachmentArtifact
    );
    assert_eq!(
        refused(|command| command.attachments[0].artifact_id = artifact(10)),
        PublicationStoreError::DuplicateAttachmentArtifact
    );
}

#[test]
fn a_fingerprint_holds_every_field_in_order() {
    fn framed(text: &str) -> Vec<u8> {
        let mut bytes = (text.len() as u64).to_be_bytes().to_vec();
        bytes.extend(text.as_bytes());
        bytes
    }
    let mut preimage = Vec::new();
    preimage.extend(framed("publication.create"));
    preimage.extend(framed("publish-1"));
    preimage.extend(framed("ticket"));
    preimage.extend(20_i64.to_be_bytes());
    preimage.extend(framed("finding"));
    preimage.extend(framed("found it"));
    preimage.extend(10_i64.to_be_bytes());
    preimage.extend(11_i64.to_be_bytes());
    preimage.extend(framed("log"));
    preimage.extend(12_i64.to_be_bytes());
    preimage.extend(framed("trace"));
    preimage.extend(0_i64.to_be_bytes());
    preimage.extend(3_i64.to_be_bytes());
    assert_eq!(fingerprint(&command()), ContentDigest::of_bytes(&preimage));
    let mut swapped = command();
    swapped.attachments.swap(0, 1);
    assert_ne!(fingerprint(&command()), fingerprint(&swapped));
    let mut linked = command();
    linked.reply_to = linked.supersedes.take();
    assert_ne!(fingerprint(&command()), fingerprint(&linked));
}

fn row() -> AuditRow {
    AuditRow {
        id: 8,
        operation: "publication.create".to_owned(),
        command_fingerprint: fingerprint(&command()).as_bytes().to_vec(),
        subject_kind: 60,
        subject_id: 5,
        resulting_revision: 0,
    }
}

#[test]
fn a_repeated_publication_is_answered_with_its_first_receipt() {
    let principal = session_principal(SessionId::new(7).unwrap());
    assert_eq!(principal, "session:7");
    assert_eq!(
        admit_publication(&command(), limits(), &principal, None),
        Ok(None)
    );
    let first = created_publication_receipt(5, 8).unwrap();
    assert!(!first.was_idempotent_retry);
    assert_eq!(first.audit_log_id, AuditLogId::new(8).unwrap());
    let again = admit_publication(&command(), limits(), &principal, Some(&row()))
        .unwrap()
        .unwrap();
    assert!(again.was_idempotent_retry);
    assert_eq!(again.publication_id, first.publication_id);
    assert_eq!(again.resulting_revision, first.resulting_revision);
    let found = |change: fn(&mut AuditRow)| {
        let mut row = row();
        change(&mut row);
        find_idempotent(
            Some(&row),
            &"session:7".to_owned(),
            &command(),
            fingerprint(&command()),
        )
        .unwrap_err()
    };
    assert_eq!(
        found(|row| row.operation = "publication.other".to_owned()),
        PublicationStoreError::IdempotencyConflict {
            principal: "session:7".to_owned(),
            command_id: "publish-1".to_owned(),
        }
    );
    assert_eq!(
        found(|row| row.resulting_revision = -1),
        PublicationStoreError::RevisionOutOfRange
    );
    assert_eq!(
        found(|row| row.subject_kind = 6),
        PublicationStoreError::AuditSubjectKindMismatch
    );
    assert_eq!(
        found(|row| row.subject_id = 0),
        PublicationStoreError::Contract(ContractError::NonPositiveIdentity)
    );
}

#[test]
fn a_publication_row_points_at_one_object() {
    let planned = plan_publication(&command(), &vec![true, true, true]).unwrap();
    assert_eq!(planned.kind, 0);
    assert_eq!(
        planned.anchor,
        AnchorColumns {
            ticket_id: Some(20),
            ..AnchorColumns::default()
        }
    );
    assert_eq!(planned.supersedes, Some(3));
    assert_eq!(
        plan_publication(&command(), &vec![true, false, false]),
        Err(PublicationStoreError::UnknownArtifact {
            artifact_id: artifact(11)
        })
    );
    let decision = InstitutionalReference::Decision(DecisionId::new(4).unwrap());
    assert_eq!(anchor_columns(decision).decision_id, Some(4));
    assert_eq!(publication_kind_code(PublicationKind::Note), 5);
}

#[test]
fn authoring_offices_are_active() {
    let office_id = OfficeId::new(2).unwrap();
    assert_eq!(bound_actor_office(Some(2)), Ok(office_id));
    assert_eq!(
        bound_actor_office(None),
        Err(PublicationStoreError::BoundSessionUnavailable)
    );
    assert_eq!(
        require_active_office(false, office_id),
        Err(PublicationStoreError::InactiveOrUnknownOffice { office_id })
    );
}

fn request() -> PublicationCreateRequest {
    PublicationCreateRequest {
        client_command_id: "publish-1".to_owned(),
        anchor: Ok(InstitutionalReference::Ticket(TicketId::new(20).unwrap())),
        kind: Ok(PublicationKind::Finding),
        summary: "found it".to_owned(),
        body_artifact_id: 10,
        attachments: vec![
            PublicationAttachmentWire {
                artifact_id: 11,
                label: "log".to_owned(),
            },
            PublicationAttachmentWire {
                artifact_id: 12,
                label: "trace".to_owned(),
            },
        ],
        reply_to: None,
        supersedes: Some(3),
    }
}

#[test]
fn a_request_spells_its_command() {
    assert_eq!(command_from_request(&request()), Ok(command()));
    let mut unknown = request();
    unknown.kind = Err(ContractError::InvalidRequest);
    assert_eq!(
        command_from_request(&unknown),
        Err(ContractError::InvalidRequest)
    );
    let mut unnamed = request();
    unnamed.attachments[1].artifact_id = 0;
    assert_eq!(
        command_from_request(&unnamed),
        Err(ContractError::NonPositiveIdentity)
    );
}

#[test]
fn publication_failures_have_three_codes() {
    assert_eq!(
        publication_error_code(&PublicationRpcError::Frame),
        "invalid_publication_request"
    );
    assert_eq!(
        publication_error_code(&PublicationRpcError::Contract(ContractError::InvalidRequest)),
        "invalid_publication_request"
    );
    assert_eq!(
        publication_error_code(&PublicationRpcError::Store(
            PublicationStoreError::InvalidAnchor
        )),
        "publication_rejected"
    );
    assert_eq!(
        publication_error_code(&PublicationRpcError::Store(
            PublicationStoreError::IdempotencyConflict {
                principal: "p".to_owned(),
                command_id: "c".to_owned(),
            }
        )),
        "idempotency_conflict"
    );
}
