//! Checks on a restored store: every receipt names a subject of its family,
//! every fact has its creation receipt, every artifact matches its bytes.

use vstd::prelude::*;

use crate::campaign::bytes_to_digest;
use crate::digest::ContentDigest;
use crate::error::StoreError;
use crate::identity::CasArtifact;
use crate::storage::ARTIFACT_SUBJECT;
use crate::text::text_equal;

verus! {

/// The families of rows an audit receipt may name.
#[derive(Clone, Copy, Debug, PartialEq, Eq, Structural)]
pub enum SubjectFamily {
    KernelBuild,
    ApplicationRevision,
    Repository,
    Artifact,
    Campaign,
    Assignment,
    Session,
    ForumTopic,
    ForumThread,
    ForumPost,
    TicketRevision,
    TicketAttempt,
    Candidate,
    Validation,
    Review,
    ArchitectDecision,
    Delivery,
}

/// The family a subject kind belongs to.
pub open spec fn spec_subject_family(subject_kind: i16) -> Option<SubjectFamily> {
    match subject_kind {
        0 => Some(SubjectFamily::KernelBuild),
        1 => Some(SubjectFamily::ApplicationRevision),
        2 => Some(SubjectFamily::Repository),
        3 => Some(SubjectFamily::Artifact),
        4 | 39 => Some(SubjectFamily::Campaign),
        5 => Some(SubjectFamily::Assignment),
        6 => Some(SubjectFamily::Session),
        10 => Some(SubjectFamily::ForumTopic),
        11 => Some(SubjectFamily::ForumThread),
        12 => Some(SubjectFamily::ForumPost),
        30 | 31 | 33 | 34 => Some(SubjectFamily::TicketRevision),
        32 | 35 | 36 | 37 | 38 => Some(SubjectFamily::TicketAttempt),
        40 => Some(SubjectFamily::Candidate),
        41 => Some(SubjectFamily::Validation),
        42 => Some(SubjectFamily::Review),
        43 => Some(SubjectFamily::ArchitectDecision),
        44 => Some(SubjectFamily::Delivery),
        _ => None,
    }
}

/// Whether an operation may mint a receipt of a subject kind.
pub open spec fn is_registered_operation(subject_kind: i16, operation: Seq<char>) -> bool {
    match subject_kind {
        0 => operation == "kernel_build.install"@,
        1 => operation == "application_revision.admit"@ || operation
            == "application_revision.activate"@,
        2 => operation == "repository.register"@,
        3 => operation == "artifact.register"@,
        4 => operation == "campaign.start"@ || operation == "campaign.cancel"@ || operation
            == "campaign.fail"@,
        5 => operation == "assignment.create"@,
        6 => operation == "session.start"@ || operation == "session.terminal"@,
        10 => operation == "forum.topic.create"@ || operation == "forum.topic.supersede"@,
        11 => operation == "forum.thread.create"@ || operation == "forum.thread.supersede"@,
        12 => operation == "forum.post.append"@,
        30 => operation == "ticket.propose"@,
        31 => operation == "ticket.sponsor"@,
        32 | 33 | 34 => operation == "ticket.claim"@,
        35 => operation == "ticket_attempt.fail"@,
        36 | 37 | 38 => operation == "ticket_attempt.release"@,
        39 => operation == "campaign.complete_delivery_target"@,
        40 => operation == "candidate.submit"@ || operation == "candidate.commit.attach"@,
        41 => operation == "validation.record"@,
        42 => operation == "quality.review.submit"@,
        43 => operation == "architect.ticket.sponsor"@ || operation == "architect.ticket.release"@
            || operation == "architect.candidate.decide"@,
        44 => operation == "delivery.record"@,
        _ => false,
    }
}

/// The family a subject kind belongs to.
pub fn subject_family(subject_kind: i16) -> (family: Option<SubjectFamily>)
    ensures
        family == spec_subject_family(subject_kind),
{
    match subject_kind {
        0 => Some(SubjectFamily::KernelBuild),
        1 => Some(SubjectFamily::ApplicationRevision),
        2 => Some(SubjectFamily::Repository),
        3 => Some(SubjectFamily::Artifact),
        4 | 39 => Some(SubjectFamily::Campaign),
        5 => Some(SubjectFamily::Assignment),
        6 => Some(SubjectFamily::Session),
        10 => Some(SubjectFamily::ForumTopic),
        11 => Some(SubjectFamily::ForumThread),
        12 => Some(SubjectFamily::ForumPost),
        30 | 31 | 33 | 34 => Some(SubjectFamily::TicketRevision),
        32 | 35 | 36 | 37 | 38 => Some(SubjectFamily::TicketAttempt),
        40 => Some(SubjectFamily::Candidate),
        41 => Some(SubjectFamily::Validation),
        42 => Some(SubjectFamily::Review),
        43 => Some(SubjectFamily::ArchitectDecision),
        44 => Some(SubjectFamily::Delivery),
        _ => None,
    }
}

/// Whether an operation may mint a receipt of a subject kind.
pub fn operation_is_registered(subject_kind: i16, operation: &str) -> (registered: bool)
    ensures
        registered == is_registered_operation(subject_kind, operation@),
{
    match subject_kind {
        0 => text_equal(operation, "kernel_build.install"),
        1 => text_equal(operation, "application_revision.admit") || text_equal(
            operation,
            "application_revision.activate",
        ),
        2 => text_equal(operation, "repository.register"),
        3 => text_equal(operation, "artifact.register"),
        4 => text_equal(operation, "campaign.start") || text_equal(operation, "campaign.cancel")
            || text_equal(operation, "campaign.fail"),
        5 => text_equal(operation, "assignment.create"),
        6 => text_equal(operation, "session.start") || text_equal(operation, "session.terminal"),
        10 => text_equal(operation, "forum.topic.create") || text_equal(
            operation,
            "forum.topic.supersede",
        ),
        11 => text_equal(operation, "forum.thread.create") || text_equal(
            operation,
            "forum.thread.supersede",
        ),
        12 => text_equal(operation, "forum.post.append"),
        30 => text_equal(operation, "ticket.propose"),
        31 => text_equal(operation, "ticket.sponsor"),
        32 | 33 | 34 => text_equal(operation, "ticket.claim"),
        35 => text_equal(operation, "ticket_attempt.fail"),
        36 | 37 | 38 => text_equal(operation, "ticket_attempt.release"),
        39 => text_equal(operation, "campaign.complete_delivery_target"),
        40 => text_equal(operation, "candidate.submit") || text_equal(
            operation,
            "candidate.commit.attach",
        ),
        41 => text_equal(operation, "validation.record"),
        42 => text_equal(operation, "quality.review.submit"),
        43 => text_equal(operation, "architect.ticket.sponsor") || text_equal(
            operation,
            "architect.ticket.release",
        ) || text_equal(operation, "architect.candidate.decide"),
        44 => text_equal(operation, "delivery.record"),
        _ => false,
    }
}

/// An operation of each subject kind that has one.
spec fn registered_operation(subject_kind: i16) -> Seq<char> {
    match subject_kind {
        0 => "kernel_build.install"@,
        1 => "application_revision.admit"@,
        2 => "repository.register"@,
        3 => "artifact.register"@,
        4 => "campaign.start"@,
        5 => "assignment.create"@,
        6 => "session.start"@,
        10 => "forum.topic.create"@,
        11 => "forum.thread.create"@,
        12 => "forum.post.append"@,
        30 => "ticket.propose"@,
        31 => "ticket.sponsor"@,
        32 | 33 | 34 => "ticket.claim"@,
        35 => "ticket_attempt.fail"@,
        36 | 37 | 38 => "ticket_attempt.release"@,
        39 => "campaign.complete_delivery_target"@,
        40 => "candidate.submit"@,
        41 => "validation.record"@,
        42 => "quality.review.submit"@,
        43 => "architect.ticket.sponsor"@,
        _ => "delivery.record"@,
    }
}

/// A kind has an operation exactly when it has a family.
pub proof fn law_every_registered_kind_has_a_family(subject_kind: i16)
    ensures
        spec_subject_family(subject_kind) is Some <==> exists|operation: Seq<char>|
            is_registered_operation(subject_kind, operation),
{
    if spec_subject_family(subject_kind) is Some {
        assert(is_registered_operation(subject_kind, registered_operation(subject_kind)));
    }
}

/// The receipts of campaign, assignment, session, storage and ticket commands
/// are registered under the operations and kinds those commands write, the
/// two attempt retries excepted.
pub proof fn law_written_receipts_are_registered()
    ensures
        is_registered_operation(
            crate::storage::KERNEL_BUILD_SUBJECT,
            crate::storage::INSTALL_KERNEL_BUILD_OPERATION@,
        ),
        is_registered_operation(
            crate::storage::REPOSITORY_SUBJECT,
            crate::storage::REGISTER_REPOSITORY_OPERATION@,
        ),
        is_registered_operation(
            ARTIFACT_SUBJECT,
            crate::storage::REGISTER_ARTIFACT_OPERATION@,
        ),
        is_registered_operation(
            crate::protocol::CAMPAIGN_SUBJECT,
            crate::protocol::CAMPAIGN_START@,
        ),
        is_registered_operation(
            crate::protocol::CAMPAIGN_SUBJECT,
            crate::protocol::CAMPAIGN_CANCEL@,
        ),
        is_registered_operation(
            crate::protocol::CAMPAIGN_SUBJECT,
            crate::protocol::CAMPAIGN_FAIL@,
        ),
        is_registered_operation(
            crate::protocol::ASSIGNMENT_SUBJECT,
            crate::protocol::ASSIGNMENT_CREATE@,
        ),
        is_registered_operation(
            crate::protocol::SESSION_SUBJECT,
            crate::protocol::SESSION_START@,
        ),
        is_registered_operation(
            crate::protocol::SESSION_SUBJECT,
            crate::protocol::SESSION_TERMINAL@,
        ),
        is_registered_operation(
            crate::ticket::PROPOSAL_SUBJECT,
            crate::ticket::PROPOSE_OPERATION@,
        ),
        is_registered_operation(
            crate::ticket::SPONSORSHIP_SUBJECT,
            crate::ticket::SPONSOR_OPERATION@,
        ),
        forall|kind: i16|
            crate::ticket::CLAIMED_ATTEMPT_SUBJECT <= kind <= crate::ticket::CLAIM_BLOCKED_SUBJECT
                ==> #[trigger] is_registered_operation(kind, crate::ticket::CLAIM_OPERATION@),
        is_registered_operation(
            crate::ticket::FAILED_ATTEMPT_SUBJECT,
            crate::ticket::FAIL_OPERATION@,
        ),
        forall|kind: i16|
            crate::ticket::RELEASED_ATTEMPT_SUBJECT <= kind
                <= crate::ticket::RELEASE_BLOCKED_SUBJECT ==> #[trigger] is_registered_operation(
                kind,
                crate::ticket::RELEASE_OPERATION@,
            ),
        is_registered_operation(
            crate::ticket::CAMPAIGN_COMPLETED_SUBJECT,
            crate::ticket::COMPLETE_CAMPAIGN_OPERATION@,
        ),
{
}

/// One audit receipt and whether a row of its family carries its subject.
#[derive(Clone, Debug, PartialEq, Eq)]
pub struct AuditSubjectRow {
    pub audit_log_id: i64,
    pub subject_kind: i16,
    pub operation: String,
    pub subject_id: i64,
    pub subject_exists: bool,
}

/// A receipt whose subject is unknown, ambiguous or missing.
#[derive(Clone, Copy, Debug, PartialEq, Eq, Structural)]
pub struct InvalidAuditSubject {
    pub audit_log_id: i64,
    pub subject_kind: i16,
    pub subject_id: i64,
}

/// Whether a receipt names an existing subject of its family under an
/// operation of that family.
pub open spec fn subject_is_valid(row: AuditSubjectRow) -> bool {
    is_registered_operation(row.subject_kind, row.operation@) && row.subject_exists
}

/// The first receipt, in the order given, whose subject is invalid.
pub fn first_invalid_audit_subject(rows: &[AuditSubjectRow]) -> (invalid: Option<
    InvalidAuditSubject,
>)
    ensures
        match invalid {
            None => forall|i: int|
                0 <= i < rows@.len() ==> subject_is_valid(#[trigger] rows@[i]),
            Some(subject) => exists|at: int|
                #![trigger rows@[at]]
                0 <= at < rows@.len() && !subject_is_valid(rows@[at]) && subject == (
                InvalidAuditSubject {
                    audit_log_id: rows@[at].audit_log_id,
                    subject_kind: rows@[at].subject_kind,
                    subject_id: rows@[at].subject_id,
                }) && forall|i: int| 0 <= i < at ==> subject_is_valid(#[trigger] rows@[i]),
        },
{
    let mut index: usize = 0;
    while index < rows.len()
        invariant
            index <= rows.len(),
            forall|i: int| 0 <= i < index ==> subject_is_valid(#[trigger] rows@[i]),
        decreases rows.len() - index,
    {
        let row = &rows[index];
        if !(operation_is_registered(row.subject_kind, row.operation.as_str())
            && row.subject_exists) {
            assert(!subject_is_valid(rows@[index as int]));
            return Some(
                InvalidAuditSubject {
                    audit_log_id: row.audit_log_id,
                    subject_kind: row.subject_kind,
                    subject_id: row.subject_id,
                },
            );
        }
        index += 1;
    }
    None
}

/// How many creation receipts a fact has.
#[derive(Clone, Copy, Debug, PartialEq, Eq, Structural)]
pub struct FactReceiptCount {
    pub subject_kind: i16,
    pub receipts: i64,
}

/// A fact has exactly one creation receipt; an artifact has at least one.
pub open spec fn receipts_suffice(fact: FactReceiptCount) -> bool {
    if fact.subject_kind == ARTIFACT_SUBJECT {
        fact.receipts != 0
    } else {
        fact.receipts == 1
    }
}

/// Whether every fact has its creation receipts.
pub fn audit_is_consistent(facts: &[FactReceiptCount]) -> (consistent: bool)
    ensures
        consistent == (forall|i: int|
            0 <= i < facts@.len() ==> receipts_suffice(#[trigger] facts@[i])),
{
    let mut index: usize = 0;
    while index < facts.len()
        invariant
            index <= facts.len(),
            forall|i: int| 0 <= i < index ==> receipts_suffice(#[trigger] facts@[i]),
        decreases facts.len() - index,
    {
        let fact = facts[index];
        if fact.receipts == 0 || (fact.subject_kind != ARTIFACT_SUBJECT && fact.receipts != 1) {
            assert(!receipts_suffice(facts@[index as int]));
            return false;
        }
        index += 1;
    }
    true
}

/// Refuses a store whose audit and facts disagree.
pub fn check_restored_audit(consistent: bool, invalid: Option<InvalidAuditSubject>) -> (result:
    Result<(), StoreError>)
    ensures
        result == (if !consistent {
            Err::<(), StoreError>(StoreError::RestoreAuditInconsistent)
        } else {
            match invalid {
                Some(subject) => Err(
                    StoreError::RestoreAuditSubjectInvalid {
                        audit_log_id: subject.audit_log_id,
                        subject_kind: subject.subject_kind,
                        subject_id: subject.subject_id,
                    },
                ),
                None => Ok(()),
            }
        }),
{
    if !consistent {
        return Err(StoreError::RestoreAuditInconsistent);
    }
    match invalid {
        Some(subject) => Err(
            StoreError::RestoreAuditSubjectInvalid {
                audit_log_id: subject.audit_log_id,
                subject_kind: subject.subject_kind,
                subject_id: subject.subject_id,
            },
        ),
        None => Ok(()),
    }
}

/// A registered artifact, as its columns hold it.
#[derive(Clone, Debug, PartialEq, Eq)]
pub struct RestoredArtifactRow {
    pub id: i64,
    pub digest: Vec<u8>,
    pub byte_length: i64,
    pub cas_relative_path: String,
}

/// Reads the seal a registered artifact claims.
pub fn restored_artifact_seal(row: &RestoredArtifactRow) -> (result: Result<
    CasArtifact,
    StoreError,
>)
    ensures
        match result {
            Ok(seal) => row.digest@.len() == 32 && row.byte_length >= 0 && seal.digest.bytes@
                == row.digest@ && seal.byte_length == row.byte_length,
            Err(fault) => if row.digest@.len() != 32 {
                fault == StoreError::CorruptDigestColumn
            } else {
                row.byte_length < 0 && fault == StoreError::ArtifactLengthOutOfRange
            },
        },
{
    let bytes: [u8; 32] = match bytes_to_digest(row.digest.as_slice()) {
        Ok(bytes) => bytes,
        Err(fault) => return Err(fault),
    };
    if row.byte_length < 0 {
        return Err(StoreError::ArtifactLengthOutOfRange);
    }
    Ok(CasArtifact { digest: ContentDigest { bytes }, byte_length: row.byte_length as u64 })
}

/// Refuses a restored artifact under another path than its canonical one.
pub fn check_restored_path(seal: &CasArtifact, persisted_path: &str, canonical_path: &str) -> (result:
    Result<(), StoreError>)
    ensures
        result == (if persisted_path@ == canonical_path@ {
            Ok::<(), StoreError>(())
        } else {
            Err(StoreError::RestoreArtifactPathMismatch { digest: seal.digest })
        }),
{
    if text_equal(persisted_path, canonical_path) {
        Ok(())
    } else {
        Err(StoreError::RestoreArtifactPathMismatch { digest: seal.digest })
    }
}

/// Refuses a restored artifact whose bytes have another length.
pub fn check_restored_length(seal: &CasArtifact, observed: u64) -> (result: Result<(), StoreError>)
    ensures
        result == (if seal.byte_length == observed {
            Ok::<(), StoreError>(())
        } else {
            Err(
                StoreError::RestoreArtifactLengthMismatch {
                    digest: seal.digest,
                    expected: seal.byte_length,
                    observed,
                },
            )
        }),
{
    if seal.byte_length == observed {
        Ok(())
    } else {
        Err(
            StoreError::RestoreArtifactLengthMismatch {
                digest: seal.digest,
                expected: seal.byte_length,
                observed,
            },
        )
    }
}

/// Which family of subjects a receipt's kind belongs to.
pub proof fn law_kinds_belong_to_their_family(subject_kind: i16)
    ensures
        ({
            let family = spec_subject_family(subject_kind);
            &&& family == Some(SubjectFamily::KernelBuild) <==> subject_kind == 0
            &&& family == Some(SubjectFamily::ApplicationRevision) <==> subject_kind == 1
            &&& family == Some(SubjectFamily::Repository) <==> subject_kind == 2
            &&& family == Some(SubjectFamily::Artifact) <==> subject_kind == 3
            &&& family == Some(SubjectFamily::Campaign) <==> subject_kind == 4 || subject_kind == 39
            &&& family == Some(SubjectFamily::Assignment) <==> subject_kind == 5
            &&& family == Some(SubjectFamily::Session) <==> subject_kind == 6
            &&& family == Some(SubjectFamily::ForumTopic) <==> subject_kind == 10
            &&& family == Some(SubjectFamily::ForumThread) <==> subject_kind == 11
            &&& family == Some(SubjectFamily::ForumPost) <==> subject_kind == 12
            &&& family == Some(SubjectFamily::TicketRevision) <==> subject_kind == 30
                || subject_kind == 31 || subject_kind == 33 || subject_kind == 34
            &&& family == Some(SubjectFamily::TicketAttempt) <==> subject_kind == 32 || 35
                <= subject_kind <= 38
            &&& family == Some(SubjectFamily::Candidate) <==> subject_kind == 40
            &&& family == Some(SubjectFamily::Validation) <==> subject_kind == 41
            &&& family == Some(SubjectFamily::Review) <==> subject_kind == 42
            &&& family == Some(SubjectFamily::ArchitectDecision) <==> subject_kind == 43
            &&& family == Some(SubjectFamily::Delivery) <==> subject_kind == 44
        }),
{
}

/// A fact carries exactly one receipt, but for an artifact, which may be
/// registered more than once and at least once; a receipt is valid exactly when
/// its operation is registered for its kind and its subject is there.
pub proof fn law_restored_facts_have_their_receipts(fact: FactReceiptCount, row: AuditSubjectRow)
    ensures
        fact.subject_kind == 3 ==> (receipts_suffice(fact) <==> fact.receipts != 0),
        fact.subject_kind != 3 ==> (receipts_suffice(fact) <==> fact.receipts == 1),
        subject_is_valid(row) ==> row.subject_exists,
        !row.subject_exists ==> !subject_is_valid(row),
        row.subject_exists ==> (subject_is_valid(row) <==> is_registered_operation(
            row.subject_kind,
            row.operation@,
        )),
{
}

/// Each kind of receipt is written by its own operations and by no other.
pub proof fn law_kinds_are_written_by_their_operations(subject_kind: i16, operation: Seq<char>)
    ensures
        is_registered_operation(subject_kind, operation) <==> {
            ||| subject_kind == 0 && operation == "kernel_build.install"@
            ||| subject_kind == 1 && operation == "application_revision.admit"@
            ||| subject_kind == 1 && operation == "application_revision.activate"@
            ||| subject_kind == 2 && operation == "repository.register"@
            ||| subject_kind == 3 && operation == "artifact.register"@
            ||| subject_kind == 4 && operation == "campaign.start"@
            ||| subject_kind == 4 && operation == "campaign.cancel"@
            ||| subject_kind == 4 && operation == "campaign.fail"@
            ||| subject_kind == 5 && operation == "assignment.create"@
            ||| subject_kind == 6 && operation == "session.start"@
            ||| subject_kind == 6 && operation == "session.terminal"@
            ||| subject_kind == 10 && operation == "forum.topic.create"@
            ||| subject_kind == 10 && operation == "forum.topic.supersede"@
            ||| subject_kind == 11 && operation == "forum.thread.create"@
            ||| subject_kind == 11 && operation == "forum.thread.supersede"@
            ||| subject_kind == 12 && operation == "forum.post.append"@
            ||| subject_kind == 30 && operation == "ticket.propose"@
            ||| subject_kind == 31 && operation == "ticket.sponsor"@
            ||| 32 <= subject_kind <= 34 && operation == "ticket.claim"@
            ||| subject_kind == 35 && operation == "ticket_attempt.fail"@
            ||| 36 <= subject_kind <= 38 && operation == "ticket_attempt.release"@
            ||| subject_kind == 39 && operation == "campaign.complete_delivery_target"@
            ||| subject_kind == 40 && operation == "candidate.submit"@
            ||| subject_kind == 40 && operation == "candidate.commit.attach"@
            ||| subject_kind == 41 && operation == "validation.record"@
            ||| subject_kind == 42 && operation == "quality.review.submit"@
            ||| subject_kind == 43 && operation == "architect.ticket.sponsor"@
            ||| subject_kind == 43 && operation == "architect.ticket.release"@
            ||| subject_kind == 43 && operation == "architect.candidate.decide"@
            ||| subject_kind == 44 && operation == "delivery.record"@
        },
{
}

} // verus!
