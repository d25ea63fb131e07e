//! Ticket transitions: proposing, sponsoring, claiming, failing, retrying,
//! releasing, and completing a campaign at its delivery target.
//!
//! Every command is decided in three steps. It is admitted or answered from
//! its earlier receipt, it is planned against the locked rows, and the
//! performed plan is answered with a receipt.

use vstd::prelude::*;

use crate::audit::{
    aggregate_revision_from_sql, find_audit, next_revision, replay, revision_to_sql,
    spec_find_audit, spec_next_revision, spec_replay, spec_revision_from_sql, spec_revision_to_sql,
    Audit, AuditRow,
};
use crate::digest::{blake3_of, ContentDigest};
use crate::error::StoreError;
use crate::identity::{
    is_identity, AggregateRevision, ApplicationRevisionId, ArtifactId, ExpectedRevision,
    TicketAttemptId, TicketId, TicketRevisionId,
};
use crate::protocol::{COST_KNOWN, RUNNING};
use crate::text::bytes_equal;
use crate::ticket::{
    artifact_digest, bad_identity, can_retry_engineering_attempt, can_retry_quality_attempt,
    claim_outcome_from_receipt, classify_requalification, column_bytes, digest_column_fault,
    engineering_retry_allowed, lock_ticket_attempt, lock_ticket_revision, quality_retry_allowed,
    release_outcome_from_receipt, requalification_fault, requalification_outcome, require_expected,
    require_ticket_state, spec_claim_outcome, spec_lock_ticket_attempt, spec_lock_ticket_revision,
    spec_release_outcome, spec_require_expected, spec_require_ticket_state,
    spec_validate_reason, spec_validate_requalification,
    spec_validate_snapshot, spec_validate_ticket_key, stands_at, validate_command, validate_reason,
    validate_requalification, validate_snapshot, ClaimOutcome, ReleaseOutcome,
    RequalificationDigests, RequalificationOutcome, TicketAttemptLocked, TicketAttemptRow,
    TicketRevisionLocked, TicketRevisionRow, TicketState, ATTEMPT_AWAITING_ARCHITECT,
    ATTEMPT_CANCELLED, ATTEMPT_ENGINEERING, ATTEMPT_FAILED, ATTEMPT_HARD_VALIDATION,
    ATTEMPT_QUALITY, ATTEMPT_REWORK_ENGINEERING, ATTEMPT_REWORK_QUALITY,
    ATTEMPT_REWORK_VALIDATION, CAMPAIGN_COMPLETED, CAMPAIGN_COMPLETED_SUBJECT,
    CLAIMED_ATTEMPT_SUBJECT, CLAIM_BLOCKED_SUBJECT, CLAIM_OPERATION, CLAIM_RESOLVED_SUBJECT,
    COMPLETE_CAMPAIGN_OPERATION, DIVERGED_REASON, ENGINEERING_RETRY_OPERATION,
    ENGINEERING_RETRY_SUBJECT, FAILED_ATTEMPT_SUBJECT, FAIL_OPERATION, PROPOSAL_SUBJECT,
    PROPOSE_OPERATION, QUALITY_RETRY_OPERATION, QUALITY_RETRY_SUBJECT, RELEASED_ATTEMPT_SUBJECT,
    RELEASE_BLOCKED_SUBJECT, RELEASE_OPERATION, RELEASE_RESOLVED_SUBJECT,
    REQUALIFICATION_DIVERGED, REQUALIFICATION_REPRODUCED, REQUALIFICATION_RESOLVED,
    SPONSORSHIP_SUBJECT, SPONSOR_OPERATION, TICKET_BLOCKED, TICKET_IN_FLIGHT, TICKET_PROPOSED,
    TICKET_RESOLVED, TICKET_SPONSORED,
};
use crate::ticket_commands::{
    claim_fingerprint, claim_preimage, completion_fingerprint, completion_preimage,
    engineering_retry_fingerprint, engineering_retry_preimage, failure_fingerprint,
    failure_preimage, proposal_fingerprint, proposal_preimage, quality_retry_fingerprint,
    quality_retry_preimage, release_fingerprint, release_preimage, sponsor_fingerprint,
    sponsor_preimage, ClaimSponsoredTicket, ClaimTicketReceipt, CompleteCampaignAtDeliveryTarget,
    FailTicketAttempt, ReleaseTicketAttempt, ReleaseTicketReceipt, RetryEngineeringAttempt,
    RetryQualityAttempt, SponsorTicketRevision, SubmitTicketProposal, TicketAttemptReceipt,
    TicketProposalReceipt, TicketRevisionReceipt,
};

verus! {

/// A ticket's and its revision's move to their next state and revision.
#[derive(Clone, Copy, Debug, PartialEq, Eq, Structural)]
pub struct TicketTransition {
    pub ticket_id: TicketId,
    pub ticket_revision_id: TicketRevisionId,
    pub lifecycle: i16,
    pub resulting_revision: AggregateRevision,
    pub revision_column: i64,
}

/// An attempt's move to its next stage and revision.
#[derive(Clone, Copy, Debug, PartialEq, Eq, Structural)]
pub struct AttemptTransition {
    pub stage: i16,
    pub resulting_revision: AggregateRevision,
    pub revision_column: i64,
}

/// What an optional reference points at.
pub open spec fn referent<T>(value: Option<&T>) -> Option<T> {
    match value {
        Some(inner) => Some(*inner),
        None => None,
    }
}

pub open spec fn spec_ticket_transition(ticket: TicketRevisionLocked, lifecycle: i16) -> Result<
    TicketTransition,
    StoreError,
> {
    match spec_next_revision(ticket.revision) {
        Err(fault) => Err(fault),
        Ok(resulting_revision) => match spec_revision_to_sql(resulting_revision) {
            Err(fault) => Err(fault),
            Ok(revision_column) => Ok(
                TicketTransition {
                    ticket_id: ticket.ticket_id,
                    ticket_revision_id: ticket.ticket_revision_id,
                    lifecycle,
                    resulting_revision,
                    revision_column,
                },
            ),
        },
    }
}

fn ticket_transition(ticket: &TicketRevisionLocked, lifecycle: i16) -> (result: Result<
    TicketTransition,
    StoreError,
>)
    ensures
        result == spec_ticket_transition(*ticket, lifecycle),
{
    let resulting_revision = match next_revision(ticket.revision) {
        Ok(revision) => revision,
        Err(fault) => return Err(fault),
    };
    let revision_column: i64 = match revision_to_sql(resulting_revision) {
        Ok(column) => column,
        Err(fault) => return Err(fault),
    };
    Ok(
        TicketTransition {
            ticket_id: ticket.ticket_id,
            ticket_revision_id: ticket.ticket_revision_id,
            lifecycle,
            resulting_revision,
            revision_column,
        },
    )
}

pub open spec fn spec_attempt_transition(current: AggregateRevision, stage: i16) -> Result<
    AttemptTransition,
    StoreError,
> {
    match spec_next_revision(current) {
        Err(fault) => Err(fault),
        Ok(resulting_revision) => match spec_revision_to_sql(resulting_revision) {
            Err(fault) => Err(fault),
            Ok(revision_column) => Ok(
                AttemptTransition { stage, resulting_revision, revision_column },
            ),
        },
    }
}

fn attempt_transition(current: AggregateRevision, stage: i16) -> (result: Result<
    AttemptTransition,
    StoreError,
>)
    ensures
        result == spec_attempt_transition(current, stage),
{
    let resulting_revision = match next_revision(current) {
        Ok(revision) => revision,
        Err(fault) => return Err(fault),
    };
    match revision_to_sql(resulting_revision) {
        Ok(revision_column) => Ok(
            AttemptTransition { stage, resulting_revision, revision_column },
        ),
        Err(fault) => Err(fault),
    }
}

/// The application revision a proposal is made under, as its columns hold it.
#[derive(Clone, Copy, Debug, PartialEq, Eq, Structural)]
pub struct ProposalApplicationRow {
    pub aggregate_revision: i64,
    pub proposal_maximum: i32,
}

/// What the store holds about a proposal's artifacts and its buffer.
#[derive(Clone, Debug, PartialEq, Eq)]
pub struct ProposalFacts {
    pub expected: Option<Vec<u8>>,
    pub first: Option<Vec<u8>>,
    pub second: Option<Vec<u8>>,
    pub proposal: Option<Vec<u8>>,
    pub reproducer: Option<Vec<u8>>,
    pub proposed_count: i64,
    /// Whether a ticket that is not blocked already owns the reproducer.
    pub reproducer_taken: bool,
}

/// The ticket and ticket revision rows to insert.
#[derive(Clone, Copy, Debug, PartialEq, Eq, Structural)]
pub struct ProposalPlan {
    pub lifecycle: i16,
    pub revision_ordinal: i32,
    pub discovery_observation_artifact_id: ArtifactId,
    pub resulting_revision: AggregateRevision,
}

pub open spec fn spec_validate_proposal(command: SubmitTicketProposal) -> Result<(), StoreError> {
    match spec_validate_ticket_key(command.principal@, command.command_id@) {
        Err(fault) => Err(fault),
        Ok(()) => match spec_validate_snapshot(command.discovery_commit@, "discovery commit") {
            Err(fault) => Err(fault),
            Ok(()) => spec_validate_snapshot(command.discovery_tree@, "discovery tree"),
        },
    }
}

/// Whether a proposal is admitted, refused, or answered from its receipt.
pub open spec fn spec_admit_proposal(
    command: SubmitTicketProposal,
    application: Option<ProposalApplicationRow>,
    audit: Option<AuditRow>,
) -> Result<Option<Audit>, StoreError> {
    match spec_validate_proposal(command) {
        Err(fault) => Err(fault),
        Ok(()) => match application {
            None => Err(
                StoreError::UnknownApplicationRevision {
                    application_revision_id: command.application_revision_id,
                },
            ),
            Some(_) => spec_replay(
                audit,
                command.principal,
                command.command_id,
                PROPOSE_OPERATION@,
                ContentDigest { bytes: blake3_of(proposal_preimage(command)) },
                PROPOSAL_SUBJECT,
            ),
        },
    }
}

/// Admits a proposal or finds the receipt that answers it.
pub fn admit_ticket_proposal(
    command: &SubmitTicketProposal,
    application: Option<ProposalApplicationRow>,
    audit: Option<&AuditRow>,
) -> (result: Result<Option<Audit>, StoreError>)
    ensures
        result == spec_admit_proposal(*command, application, referent(audit)),
{
    match validate_command(command.principal.as_str(), command.command_id.as_str()) {
        Err(fault) => return Err(fault),
        Ok(()) => {},
    }
    match validate_snapshot(command.discovery_commit.as_str(), "discovery commit") {
        Err(fault) => return Err(fault),
        Ok(()) => {},
    }
    match validate_snapshot(command.discovery_tree.as_str(), "discovery tree") {
        Err(fault) => return Err(fault),
        Ok(()) => {},
    }
    if application.is_none() {
        return Err(
            StoreError::UnknownApplicationRevision {
                application_revision_id: command.application_revision_id,
            },
        );
    }
    replay(
        audit,
        &command.principal,
        &command.command_id,
        PROPOSE_OPERATION,
        proposal_fingerprint(command),
        PROPOSAL_SUBJECT,
    )
}

/// Why a proposal's sealed artifacts are refused, if they are.
pub open spec fn proposal_artifact_fault(
    command: SubmitTicketProposal,
    facts: ProposalFacts,
) -> Option<StoreError> {
    let expected = digest_column_fault(
        column_bytes(facts.expected),
        command.expected_observation_artifact_id,
    );
    let first = digest_column_fault(
        column_bytes(facts.first),
        command.first_actual_observation_artifact_id,
    );
    let second = digest_column_fault(
        column_bytes(facts.second),
        command.second_actual_observation_artifact_id,
    );
    let proposal = digest_column_fault(column_bytes(facts.proposal), command.proposal_artifact_id);
    let reproducer = digest_column_fault(
        column_bytes(facts.reproducer),
        command.reproducer_artifact_id,
    );
    if expected is Some {
        expected
    } else if first is Some {
        first
    } else if second is Some {
        second
    } else if proposal is Some {
        proposal
    } else if reproducer is Some {
        reproducer
    } else if column_bytes(facts.first) != column_bytes(facts.second) {
        Some(StoreError::ProposalNotReproducible)
    } else if column_bytes(facts.first) == column_bytes(facts.expected) {
        Some(StoreError::ProposalDoesNotFail)
    } else {
        None
    }
}

/// Why a proposal is refused, if it is.
pub open spec fn proposal_fault(
    command: SubmitTicketProposal,
    application: ProposalApplicationRow,
    facts: ProposalFacts,
) -> Option<StoreError> {
    match spec_revision_from_sql(application.aggregate_revision) {
        Err(fault) => Some(fault),
        Ok(current) => match spec_require_expected(
            command.expected_application_revision,
            current,
        ) {
            Err(fault) => Some(fault),
            Ok(()) => if proposal_artifact_fault(command, facts) is Some {
                proposal_artifact_fault(command, facts)
            } else if facts.proposed_count >= application.proposal_maximum {
                Some(StoreError::ProposalBufferFull)
            } else if facts.reproducer_taken {
                Some(
                    StoreError::DuplicateTicketReproducer {
                        reproducer_artifact_id: command.reproducer_artifact_id,
                    },
                )
            } else {
                None
            },
        },
    }
}

/// The rows an accepted proposal inserts: the first observation becomes the
/// discovered failure.
pub open spec fn planned_proposal(command: SubmitTicketProposal) -> ProposalPlan {
    ProposalPlan {
        lifecycle: TICKET_PROPOSED,
        revision_ordinal: 1,
        discovery_observation_artifact_id: command.first_actual_observation_artifact_id,
        resulting_revision: AggregateRevision::spec_initial(),
    }
}

/// Plans the rows of a proposal.
pub fn submit_ticket_proposal(
    command: &SubmitTicketProposal,
    application: ProposalApplicationRow,
    facts: &ProposalFacts,
) -> (result: Result<ProposalPlan, StoreError>)
    ensures
        match result {
            Ok(plan) => proposal_fault(*command, application, *facts) is None && plan
                == planned_proposal(*command),
            Err(fault) => proposal_fault(*command, application, *facts) == Some(fault),
        },
{
    let current = match aggregate_revision_from_sql(application.aggregate_revision) {
        Ok(revision) => revision,
        Err(fault) => return Err(fault),
    };
    match require_expected(command.expected_application_revision, current) {
        Err(fault) => return Err(fault),
        Ok(()) => {},
    }
    let expected = match artifact_digest(
        &facts.expected,
        command.expected_observation_artifact_id,
    ) {
        Ok(digest) => digest,
        Err(fault) => return Err(fault),
    };
    let first = match artifact_digest(&facts.first, command.first_actual_observation_artifact_id) {
        Ok(digest) => digest,
        Err(fault) => return Err(fault),
    };
    let second = match artifact_digest(
        &facts.second,
        command.second_actual_observation_artifact_id,
    ) {
        Ok(digest) => digest,
        Err(fault) => return Err(fault),
    };
    match artifact_digest(&facts.proposal, command.proposal_artifact_id) {
        Ok(_) => {},
        Err(fault) => return Err(fault),
    }
    match artifact_digest(&facts.reproducer, command.reproducer_artifact_id) {
        Ok(_) => {},
        Err(fault) => return Err(fault),
    }
    if !bytes_equal(first, second) {
        return Err(StoreError::ProposalNotReproducible);
    }
    if bytes_equal(first, expected) {
        return Err(StoreError::ProposalDoesNotFail);
    }
    if facts.proposed_count >= application.proposal_maximum as i64 {
        return Err(StoreError::ProposalBufferFull);
    }
    if facts.reproducer_taken {
        return Err(
            StoreError::DuplicateTicketReproducer {
                reproducer_artifact_id: command.reproducer_artifact_id,
            },
        );
    }
    Ok(
        ProposalPlan {
            lifecycle: TICKET_PROPOSED,
            revision_ordinal: 1,
            discovery_observation_artifact_id: command.first_actual_observation_artifact_id,
            resulting_revision: AggregateRevision::initial(),
        },
    )
}

/// A proposal is accepted only on the expected application revision, with two
/// equal observations that differ from the expected one, with room in the
/// proposal buffer, and for a reproducer no live ticket owns.
pub proof fn law_accepted_proposal_shows_a_reproducible_failure(
    command: SubmitTicketProposal,
    application: ProposalApplicationRow,
    facts: ProposalFacts,
)
    requires
        proposal_fault(command, application, facts) is None,
    ensures
        application.aggregate_revision
            == command.expected_application_revision.revision.value,
        column_bytes(facts.first) is Some,
        column_bytes(facts.first) == column_bytes(facts.second),
        column_bytes(facts.first) != column_bytes(facts.expected),
        facts.proposed_count < application.proposal_maximum,
        !facts.reproducer_taken,
{
}

pub open spec fn spec_proposal_receipt(
    ticket_row: i64,
    revision_row: i64,
    audit_log_id: i64,
) -> Result<TicketProposalReceipt, StoreError> {
    if !is_identity(ticket_row) || !is_identity(revision_row) {
        Err(bad_identity())
    } else {
        Ok(
            TicketProposalReceipt {
                ticket_id: TicketId { value: ticket_row },
                ticket_revision_id: TicketRevisionId { value: revision_row },
                resulting_revision: AggregateRevision::spec_initial(),
                audit_log_id,
                was_idempotent_retry: false,
            },
        )
    }
}

/// Answers a performed proposal.
pub fn proposal_receipt(ticket_row: i64, revision_row: i64, audit_log_id: i64) -> (result: Result<
    TicketProposalReceipt,
    StoreError,
>)
    ensures
        result == spec_proposal_receipt(ticket_row, revision_row, audit_log_id),
{
    let ticket_id = match TicketId::new(ticket_row) {
        Ok(id) => id,
        Err(fault) => return Err(StoreError::Contract(fault)),
    };
    let ticket_revision_id = match TicketRevisionId::new(revision_row) {
        Ok(id) => id,
        Err(fault) => return Err(StoreError::Contract(fault)),
    };
    Ok(
        TicketProposalReceipt {
            ticket_id,
            ticket_revision_id,
            resulting_revision: AggregateRevision::initial(),
            audit_log_id,
            was_idempotent_retry: false,
        },
    )
}

pub open spec fn spec_replayed_proposal(audit: Audit, ticket_row: Option<i64>) -> Result<
    TicketProposalReceipt,
    StoreError,
> {
    if !is_identity(audit.subject_id) {
        Err(bad_identity())
    } else {
        let ticket_revision_id = TicketRevisionId { value: audit.subject_id };
        match ticket_row {
            None => Err(StoreError::UnknownTicketRevision { ticket_revision_id }),
            Some(ticket_row) => if !is_identity(ticket_row) {
                Err(bad_identity())
            } else {
                Ok(
                    TicketProposalReceipt {
                        ticket_id: TicketId { value: ticket_row },
                        ticket_revision_id,
                        resulting_revision: audit.resulting_revision,
                        audit_log_id: audit.audit_log_id,
                        was_idempotent_retry: true,
                    },
                )
            },
        }
    }
}

/// Answers a repeated proposal from its receipt and the ticket that owns its
/// ticket revision.
pub fn replayed_proposal_receipt(audit: &Audit, ticket_row: Option<i64>) -> (result: Result<
    TicketProposalReceipt,
    StoreError,
>)
    ensures
        result == spec_replayed_proposal(*audit, ticket_row),
{
    let ticket_revision_id = match TicketRevisionId::new(audit.subject_id) {
        Ok(id) => id,
        Err(fault) => return Err(StoreError::Contract(fault)),
    };
    let ticket_row: i64 = match ticket_row {
        Some(row) => row,
        None => return Err(StoreError::UnknownTicketRevision { ticket_revision_id }),
    };
    let ticket_id = match TicketId::new(ticket_row) {
        Ok(id) => id,
        Err(fault) => return Err(StoreError::Contract(fault)),
    };
    Ok(
        TicketProposalReceipt {
            ticket_id,
            ticket_revision_id,
            resulting_revision: audit.resulting_revision,
            audit_log_id: audit.audit_log_id,
            was_idempotent_retry: true,
        },
    )
}

/// The ready-buffer policy of an application revision.
#[derive(Clone, Copy, Debug, PartialEq, Eq, Structural)]
pub struct ReadyBufferRow {
    /// No maximum means an unrestricted backlog.
    pub ticket_maximum: Option<i32>,
}

/// Whether the ready buffer takes one more ticket.
pub open spec fn spec_ready_buffer(
    application: Option<ReadyBufferRow>,
    application_revision_id: ApplicationRevisionId,
    sponsored_count: i64,
) -> Result<(), StoreError> {
    match application {
        None => Err(StoreError::UnknownApplicationRevision { application_revision_id }),
        Some(row) => match row.ticket_maximum {
            Some(maximum) => if sponsored_count >= maximum {
                Err(StoreError::ReadyTicketBufferFull)
            } else {
                Ok(())
            },
            None => Ok(()),
        },
    }
}

fn ready_buffer(
    application: Option<ReadyBufferRow>,
    application_revision_id: ApplicationRevisionId,
    sponsored_count: i64,
) -> (result: Result<(), StoreError>)
    ensures
        result == spec_ready_buffer(application, application_revision_id, sponsored_count),
{
    match application {
        None => Err(StoreError::UnknownApplicationRevision { application_revision_id }),
        Some(row) => match row.ticket_maximum {
            Some(maximum) => if sponsored_count >= maximum as i64 {
                Err(StoreError::ReadyTicketBufferFull)
            } else {
                Ok(())
            },
            None => Ok(()),
        },
    }
}

/// Whether a sponsorship is admitted, refused, or answered from its receipt.
pub open spec fn spec_admit_sponsorship(
    command: SponsorTicketRevision,
    audit: Option<AuditRow>,
) -> Result<Option<Audit>, StoreError> {
    match spec_validate_ticket_key(command.principal@, command.command_id@) {
        Err(fault) => Err(fault),
        Ok(()) => match spec_validate_reason(command.reason@, "sponsorship reason") {
            Err(fault) => Err(fault),
            Ok(()) => spec_replay(
                audit,
                command.principal,
                command.command_id,
                SPONSOR_OPERATION@,
                ContentDigest { bytes: blake3_of(sponsor_preimage(command)) },
                SPONSORSHIP_SUBJECT,
            ),
        },
    }
}

/// Admits a sponsorship or finds the receipt that answers it.
pub fn admit_sponsorship(command: &SponsorTicketRevision, audit: Option<&AuditRow>) -> (result:
    Result<Option<Audit>, StoreError>)
    ensures
        result == spec_admit_sponsorship(*command, referent(audit)),
{
    match validate_command(command.principal.as_str(), command.command_id.as_str()) {
        Err(fault) => return Err(fault),
        Ok(()) => {},
    }
    match validate_reason(command.reason.as_str(), "sponsorship reason") {
        Err(fault) => return Err(fault),
        Ok(()) => {},
    }
    replay(
        audit,
        &command.principal,
        &command.command_id,
        SPONSOR_OPERATION,
        sponsor_fingerprint(command),
        SPONSORSHIP_SUBJECT,
    )
}

/// The transition of an accepted sponsorship, or the first refusal.
pub open spec fn spec_sponsor(
    command: SponsorTicketRevision,
    row: Option<TicketRevisionRow>,
    application: Option<ReadyBufferRow>,
    sponsored_count: i64,
) -> Result<TicketTransition, StoreError> {
    match spec_lock_ticket_revision(row, command.ticket_revision_id) {
        Err(fault) => Err(fault),
        Ok(ticket) => match spec_require_expected(
            command.expected_ticket_revision,
            ticket.revision,
        ) {
            Err(fault) => Err(fault),
            Ok(()) => match spec_require_ticket_state(TicketState::Proposed, ticket.state) {
                Err(fault) => Err(fault),
                Ok(()) => match spec_ready_buffer(
                    application,
                    ticket.application_revision_id,
                    sponsored_count,
                ) {
                    Err(fault) => Err(fault),
                    Ok(()) => spec_ticket_transition(ticket, TICKET_SPONSORED),
                },
            },
        },
    }
}

/// Plans the transition of a proposed ticket to the ready buffer.
pub fn sponsor_ticket_revision(
    command: &SponsorTicketRevision,
    row: Option<TicketRevisionRow>,
    application: Option<ReadyBufferRow>,
    sponsored_count: i64,
) -> (result: Result<TicketTransition, StoreError>)
    ensures
        result == spec_sponsor(*command, row, application, sponsored_count),
{
    let ticket = match lock_ticket_revision(row, command.ticket_revision_id) {
        Ok(ticket) => ticket,
        Err(fault) => return Err(fault),
    };
    match require_expected(command.expected_ticket_revision, ticket.revision) {
        Err(fault) => return Err(fault),
        Ok(()) => {},
    }
    match require_ticket_state(TicketState::Proposed, ticket.state) {
        Err(fault) => return Err(fault),
        Ok(()) => {},
    }
    match ready_buffer(application, ticket.application_revision_id, sponsored_count) {
        Err(fault) => return Err(fault),
        Ok(()) => {},
    }
    ticket_transition(&ticket, TICKET_SPONSORED)
}

/// Answers a performed sponsorship.
pub fn sponsorship_receipt(transition: &TicketTransition, audit_log_id: i64) -> (receipt:
    TicketRevisionReceipt)
    ensures
        receipt == (TicketRevisionReceipt {
            ticket_id: transition.ticket_id,
            ticket_revision_id: transition.ticket_revision_id,
            state: TicketState::Sponsored,
            resulting_revision: transition.resulting_revision,
            audit_log_id,
            was_idempotent_retry: false,
        }),
{
    TicketRevisionReceipt {
        ticket_id: transition.ticket_id,
        ticket_revision_id: transition.ticket_revision_id,
        state: TicketState::Sponsored,
        resulting_revision: transition.resulting_revision,
        audit_log_id,
        was_idempotent_retry: false,
    }
}

pub open spec fn spec_replayed_sponsorship(
    command: SponsorTicketRevision,
    audit: Audit,
    row: Option<TicketRevisionRow>,
) -> Result<TicketRevisionReceipt, StoreError> {
    match spec_lock_ticket_revision(row, command.ticket_revision_id) {
        Err(fault) => Err(fault),
        Ok(ticket) => Ok(
            TicketRevisionReceipt {
                ticket_id: ticket.ticket_id,
                ticket_revision_id: command.ticket_revision_id,
                state: ticket.state,
                resulting_revision: audit.resulting_revision,
                audit_log_id: audit.audit_log_id,
                was_idempotent_retry: true,
            },
        ),
    }
}

/// Answers a repeated sponsorship: the recorded revision with the ticket's
/// present state.
pub fn replayed_sponsorship_receipt(
    command: &SponsorTicketRevision,
    audit: &Audit,
    row: Option<TicketRevisionRow>,
) -> (result: Result<TicketRevisionReceipt, StoreError>)
    ensures
        result == spec_replayed_sponsorship(*command, *audit, row),
{
    match lock_ticket_revision(row, command.ticket_revision_id) {
        Err(fault) => Err(fault),
        Ok(ticket) => Ok(
            TicketRevisionReceipt {
                ticket_id: ticket.ticket_id,
                ticket_revision_id: command.ticket_revision_id,
                state: ticket.state,
                resulting_revision: audit.resulting_revision,
                audit_log_id: audit.audit_log_id,
                was_idempotent_retry: true,
            },
        ),
    }
}

/// The campaign that pays for a claim, as its columns hold it.
#[derive(Clone, Copy, Debug, PartialEq, Eq, Structural)]
pub struct ClaimCampaignRow {
    pub lifecycle: i16,
    pub revision: i64,
    pub cost_state: i16,
    pub deadline_open: bool,
    pub campaign_application_revision_id: i64,
    pub ticket_application_revision_id: i64,
}

/// What the store holds when a ticket is about to be claimed.
#[derive(Clone, Debug, PartialEq, Eq)]
pub struct ClaimFacts {
    pub ticket: Option<TicketRevisionRow>,
    pub campaign: Option<ClaimCampaignRow>,
    /// The tickets in flight of every revision of the application.
    pub in_flight_count: i64,
    pub paid_session_active: bool,
    pub digests: RequalificationDigests,
}

/// What a judged requalification writes to the ticket.
#[derive(Clone, Copy, Debug, PartialEq, Eq)]
pub struct RequalificationPlan {
    pub outcome: RequalificationOutcome,
    pub ticket: TicketTransition,
    pub requalification_outcome: i16,
    pub blocked_reason: Option<&'static str>,
}

pub open spec fn outcome_code(outcome: RequalificationOutcome) -> i16 {
    match outcome {
        RequalificationOutcome::Reproduced => REQUALIFICATION_REPRODUCED,
        RequalificationOutcome::Resolved => REQUALIFICATION_RESOLVED,
        RequalificationOutcome::Diverged => REQUALIFICATION_DIVERGED,
    }
}

/// The ticket state an outcome leads to, given the state a reproduced failure
/// leads to.
pub open spec fn outcome_lifecycle(outcome: RequalificationOutcome, reproduced: i16) -> i16 {
    match outcome {
        RequalificationOutcome::Reproduced => reproduced,
        RequalificationOutcome::Resolved => TICKET_RESOLVED,
        RequalificationOutcome::Diverged => TICKET_BLOCKED,
    }
}

pub open spec fn outcome_reason(outcome: RequalificationOutcome) -> Option<&'static str> {
    match outcome {
        RequalificationOutcome::Diverged => Some(DIVERGED_REASON),
        _ => None,
    }
}

pub open spec fn spec_requalification_plan(
    ticket: TicketRevisionLocked,
    outcome: RequalificationOutcome,
    reproduced: i16,
) -> Result<RequalificationPlan, StoreError> {
    match spec_ticket_transition(ticket, outcome_lifecycle(outcome, reproduced)) {
        Err(fault) => Err(fault),
        Ok(transition) => Ok(
            RequalificationPlan {
                outcome,
                ticket: transition,
                requalification_outcome: outcome_code(outcome),
                blocked_reason: outcome_reason(outcome),
            },
        ),
    }
}

fn requalification_plan(
    ticket: &TicketRevisionLocked,
    outcome: RequalificationOutcome,
    reproduced: i16,
) -> (result: Result<RequalificationPlan, StoreError>)
    ensures
        result == spec_requalification_plan(*ticket, outcome, reproduced),
{
    let lifecycle: i16 = match outcome {
        RequalificationOutcome::Reproduced => reproduced,
        RequalificationOutcome::Resolved => TICKET_RESOLVED,
        RequalificationOutcome::Diverged => TICKET_BLOCKED,
    };
    let requalification_outcome: i16 = match outcome {
        RequalificationOutcome::Reproduced => REQUALIFICATION_REPRODUCED,
        RequalificationOutcome::Resolved => REQUALIFICATION_RESOLVED,
        RequalificationOutcome::Diverged => REQUALIFICATION_DIVERGED,
    };
    let blocked_reason = match outcome {
        RequalificationOutcome::Diverged => Some(DIVERGED_REASON),
        _ => None,
    };
    match ticket_transition(ticket, lifecycle) {
        Err(fault) => Err(fault),
        Ok(transition) => Ok(
            RequalificationPlan {
                outcome,
                ticket: transition,
                requalification_outcome,
                blocked_reason,
            },
        ),
    }
}

/// Whether a claim is admitted, refused, or answered from its receipt.
pub open spec fn spec_admit_claim(command: ClaimSponsoredTicket, audit: Option<AuditRow>) -> Result<
    Option<Audit>,
    StoreError,
> {
    match spec_validate_ticket_key(command.principal@, command.command_id@) {
        Err(fault) => Err(fault),
        Ok(()) => match spec_validate_requalification(command.requalification) {
            Err(fault) => Err(fault),
            Ok(()) => spec_find_audit(
                audit,
                command.principal,
                command.command_id,
                CLAIM_OPERATION@,
                ContentDigest { bytes: blake3_of(claim_preimage(command)) },
            ),
        },
    }
}

/// Admits a claim or finds the receipt that answers it.
pub fn admit_claim(command: &ClaimSponsoredTicket, audit: Option<&AuditRow>) -> (result: Result<
    Option<Audit>,
    StoreError,
>)
    ensures
        result == spec_admit_claim(*command, referent(audit)),
{
    match validate_command(command.principal.as_str(), command.command_id.as_str()) {
        Err(fault) => return Err(fault),
        Ok(()) => {},
    }
    match validate_requalification(&command.requalification) {
        Err(fault) => return Err(fault),
        Ok(()) => {},
    }
    find_audit(
        audit,
        &command.principal,
        &command.command_id,
        CLAIM_OPERATION,
        claim_fingerprint(command),
    )
}

/// Whether a campaign may pay for a claim: running, before its deadline, with
/// a known cost, over the ticket's own application revision, with nothing in
/// flight and no paid session running.
pub open spec fn spec_claim_campaign(
    command: ClaimSponsoredTicket,
    campaign: Option<ClaimCampaignRow>,
    in_flight_count: i64,
    paid_session_active: bool,
) -> Result<(), StoreError> {
    match campaign {
        None => Err(StoreError::UnknownCampaign { campaign_id: command.campaign_id }),
        Some(row) => match spec_revision_from_sql(row.revision) {
            Err(fault) => Err(fault),
            Ok(current) => match spec_require_expected(
                command.expected_campaign_revision,
                current,
            ) {
                Err(fault) => Err(fault),
                Ok(()) => if row.lifecycle != RUNNING {
                    Err(StoreError::CampaignClosed { campaign_id: command.campaign_id })
                } else if !row.deadline_open {
                    Err(StoreError::CampaignDeadlineElapsed)
                } else if row.cost_state != COST_KNOWN {
                    Err(StoreError::CampaignCostFrozen { campaign_id: command.campaign_id })
                } else if row.campaign_application_revision_id
                    != row.ticket_application_revision_id {
                    Err(StoreError::CampaignApplicationMismatch)
                } else if in_flight_count > 0 {
                    Err(StoreError::EngineeringTicketAlreadyInFlight)
                } else if paid_session_active {
                    Err(StoreError::PaidSessionAlreadyRunning)
                } else {
                    Ok(())
                },
            },
        },
    }
}

/// Holds a claim to its campaign.
pub fn validate_claim_campaign(
    command: &ClaimSponsoredTicket,
    campaign: Option<ClaimCampaignRow>,
    in_flight_count: i64,
    paid_session_active: bool,
) -> (result: Result<(), StoreError>)
    ensures
        result == spec_claim_campaign(*command, campaign, in_flight_count, paid_session_active),
{
    let row = match campaign {
        Some(row) => row,
        None => return Err(StoreError::UnknownCampaign { campaign_id: command.campaign_id }),
    };
    let current = match aggregate_revision_from_sql(row.revision) {
        Ok(revision) => revision,
        Err(fault) => return Err(fault),
    };
    match require_expected(command.expected_campaign_revision, current) {
        Err(fault) => return Err(fault),
        Ok(()) => {},
    }
    if row.lifecycle != RUNNING {
        return Err(StoreError::CampaignClosed { campaign_id: command.campaign_id });
    }
    if !row.deadline_open {
        return Err(StoreError::CampaignDeadlineElapsed);
    }
    if row.cost_state != COST_KNOWN {
        return Err(StoreError::CampaignCostFrozen { campaign_id: command.campaign_id });
    }
    if row.campaign_application_revision_id != row.ticket_application_revision_id {
        return Err(StoreError::CampaignApplicationMismatch);
    }
    if in_flight_count > 0 {
        return Err(StoreError::EngineeringTicketAlreadyInFlight);
    }
    if paid_session_active {
        return Err(StoreError::PaidSessionAlreadyRunning);
    }
    Ok(())
}

/// The plan of a claim, or the first refusal.
pub open spec fn spec_claim(command: ClaimSponsoredTicket, facts: ClaimFacts) -> Result<
    RequalificationPlan,
    StoreError,
> {
    match spec_lock_ticket_revision(facts.ticket, command.ticket_revision_id) {
        Err(fault) => Err(fault),
        Ok(ticket) => match spec_require_expected(
            command.expected_ticket_revision,
            ticket.revision,
        ) {
            Err(fault) => Err(fault),
            Ok(()) => match spec_require_ticket_state(TicketState::Sponsored, ticket.state) {
                Err(fault) => Err(fault),
                Ok(()) => match spec_claim_campaign(
                    command,
                    facts.campaign,
                    facts.in_flight_count,
                    facts.paid_session_active,
                ) {
                    Err(fault) => Err(fault),
                    Ok(()) => match requalification_fault(
                        ticket,
                        command.requalification,
                        facts.digests,
                    ) {
                        Some(fault) => Err(fault),
                        None => spec_requalification_plan(
                            ticket,
                            requalification_outcome(facts.digests),
                            TICKET_IN_FLIGHT,
                        ),
                    },
                },
            },
        },
    }
}

/// Plans a claim. A reproduced failure puts the ticket in flight and inserts
/// an attempt at the Engineering stage; any other outcome inserts none.
pub fn claim_sponsored_ticket(command: &ClaimSponsoredTicket, facts: &ClaimFacts) -> (result:
    Result<RequalificationPlan, StoreError>)
    ensures
        result == spec_claim(*command, *facts),
{
    let ticket = match lock_ticket_revision(facts.ticket, command.ticket_revision_id) {
        Ok(ticket) => ticket,
        Err(fault) => return Err(fault),
    };
    match require_expected(command.expected_ticket_revision, ticket.revision) {
        Err(fault) => return Err(fault),
        Ok(()) => {},
    }
    match require_ticket_state(TicketState::Sponsored, ticket.state) {
        Err(fault) => return Err(fault),
        Ok(()) => {},
    }
    match validate_claim_campaign(
        command,
        facts.campaign,
        facts.in_flight_count,
        facts.paid_session_active,
    ) {
        Err(fault) => return Err(fault),
        Ok(()) => {},
    }
    let outcome = match classify_requalification(
        &ticket,
        &command.requalification,
        &facts.digests,
    ) {
        Ok(outcome) => outcome,
        Err(fault) => return Err(fault),
    };
    requalification_plan(&ticket, outcome, TICKET_IN_FLIGHT)
}

/// The outcome and audited subject of a performed claim: the new attempt where
/// one was inserted, otherwise the ticket revision.
pub open spec fn spec_claim_subject(plan: RequalificationPlan, attempt_row: Option<i64>) -> Result<
    (ClaimOutcome, i16, i64),
    StoreError,
> {
    let ticket_revision = plan.ticket.ticket_revision_id.value;
    match plan.outcome {
        RequalificationOutcome::Reproduced => if is_identity(attempt_row->0) {
            Ok(
                (
                    ClaimOutcome::Claimed {
                        ticket_attempt_id: TicketAttemptId { value: attempt_row->0 },
                    },
                    CLAIMED_ATTEMPT_SUBJECT,
                    attempt_row->0,
                ),
            )
        } else {
            Err(bad_identity())
        },
        RequalificationOutcome::Resolved => Ok(
            (ClaimOutcome::Resolved, CLAIM_RESOLVED_SUBJECT, ticket_revision),
        ),
        RequalificationOutcome::Diverged => Ok(
            (ClaimOutcome::Blocked, CLAIM_BLOCKED_SUBJECT, ticket_revision),
        ),
    }
}

/// Names the outcome and audited subject of a performed claim.
pub fn claim_subject(plan: &RequalificationPlan, attempt_row: Option<i64>) -> (result: Result<
    (ClaimOutcome, i16, i64),
    StoreError,
>)
    requires
        plan.outcome == RequalificationOutcome::Reproduced ==> attempt_row is Some,
    ensures
        result == spec_claim_subject(*plan, attempt_row),
{
    let ticket_revision: i64 = plan.ticket.ticket_revision_id.value;
    match plan.outcome {
        RequalificationOutcome::Reproduced => {
            let attempt: i64 = attempt_row.unwrap();
            match TicketAttemptId::new(attempt) {
                Ok(ticket_attempt_id) => Ok(
                    (ClaimOutcome::Claimed { ticket_attempt_id }, CLAIMED_ATTEMPT_SUBJECT, attempt),
                ),
                Err(fault) => Err(StoreError::Contract(fault)),
            }
        },
        RequalificationOutcome::Resolved => Ok(
            (ClaimOutcome::Resolved, CLAIM_RESOLVED_SUBJECT, ticket_revision),
        ),
        RequalificationOutcome::Diverged => Ok(
            (ClaimOutcome::Blocked, CLAIM_BLOCKED_SUBJECT, ticket_revision),
        ),
    }
}

/// The receipt of a performed claim reads back as the same outcome.
pub proof fn law_claim_outcome_replays(plan: RequalificationPlan, attempt_row: Option<i64>, audit: Audit)
    requires
        spec_claim_subject(plan, attempt_row) is Ok,
        audit.subject_kind == spec_claim_subject(plan, attempt_row)->Ok_0.1,
        audit.subject_id == spec_claim_subject(plan, attempt_row)->Ok_0.2,
    ensures
        spec_claim_outcome(audit) == Ok::<ClaimOutcome, StoreError>(
            spec_claim_subject(plan, attempt_row)->Ok_0.0,
        ),
{
}

/// Answers a performed claim.
pub fn claim_receipt(plan: &RequalificationPlan, outcome: ClaimOutcome, audit_log_id: i64) -> (receipt:
    ClaimTicketReceipt)
    ensures
        receipt == (ClaimTicketReceipt {
            ticket_id: plan.ticket.ticket_id,
            ticket_revision_id: plan.ticket.ticket_revision_id,
            outcome,
            resulting_ticket_revision: plan.ticket.resulting_revision,
            audit_log_id,
            was_idempotent_retry: false,
        }),
{
    ClaimTicketReceipt {
        ticket_id: plan.ticket.ticket_id,
        ticket_revision_id: plan.ticket.ticket_revision_id,
        outcome,
        resulting_ticket_revision: plan.ticket.resulting_revision,
        audit_log_id,
        was_idempotent_retry: false,
    }
}

/// The ticket revision a repeated claim is answered for: that of the recorded
/// attempt where one was made, otherwise the claimed one.
pub open spec fn spec_claim_replay_revision(
    command: ClaimSponsoredTicket,
    outcome: ClaimOutcome,
    attempt_ticket_revision: Option<i64>,
) -> Result<TicketRevisionId, StoreError> {
    match outcome {
        ClaimOutcome::Claimed { ticket_attempt_id } => match attempt_ticket_revision {
            None => Err(StoreError::UnknownTicketAttempt { ticket_attempt_id }),
            Some(row) => if is_identity(row) {
                Ok(TicketRevisionId { value: row })
            } else {
                Err(bad_identity())
            },
        },
        _ => Ok(command.ticket_revision_id),
    }
}

/// Finds the ticket revision a repeated claim is answered for.
pub fn claim_replay_revision(
    command: &ClaimSponsoredTicket,
    outcome: ClaimOutcome,
    attempt_ticket_revision: Option<i64>,
) -> (result: Result<TicketRevisionId, StoreError>)
    ensures
        result == spec_claim_replay_revision(*command, outcome, attempt_ticket_revision),
{
    match outcome {
        ClaimOutcome::Claimed { ticket_attempt_id } => match attempt_ticket_revision {
            None => Err(StoreError::UnknownTicketAttempt { ticket_attempt_id }),
            Some(row) => match TicketRevisionId::new(row) {
                Ok(id) => Ok(id),
                Err(fault) => Err(StoreError::Contract(fault)),
            },
        },
        _ => Ok(command.ticket_revision_id),
    }
}

pub open spec fn spec_replayed_claim(
    command: ClaimSponsoredTicket,
    audit: Audit,
    attempt_ticket_revision: Option<i64>,
    row: Option<TicketRevisionRow>,
) -> Result<ClaimTicketReceipt, StoreError> {
    match spec_claim_outcome(audit) {
        Err(fault) => Err(fault),
        Ok(outcome) => match spec_claim_replay_revision(command, outcome, attempt_ticket_revision) {
            Err(fault) => Err(fault),
            Ok(ticket_revision_id) => match spec_lock_ticket_revision(row, ticket_revision_id) {
                Err(fault) => Err(fault),
                Ok(ticket) => Ok(
                    ClaimTicketReceipt {
                        ticket_id: ticket.ticket_id,
                        ticket_revision_id,
                        outcome,
                        resulting_ticket_revision: audit.resulting_revision,
                        audit_log_id: audit.audit_log_id,
                        was_idempotent_retry: true,
                    },
                ),
            },
        },
    }
}

/// Answers a repeated claim from its receipt.
pub fn replayed_claim_receipt(
    command: &ClaimSponsoredTicket,
    audit: &Audit,
    attempt_ticket_revision: Option<i64>,
    row: Option<TicketRevisionRow>,
) -> (result: Result<ClaimTicketReceipt, StoreError>)
    ensures
        result == spec_replayed_claim(*command, *audit, attempt_ticket_revision, row),
{
    let outcome = match claim_outcome_from_receipt(audit) {
        Ok(outcome) => outcome,
        Err(fault) => return Err(fault),
    };
    let ticket_revision_id = match claim_replay_revision(
        command,
        outcome,
        attempt_ticket_revision,
    ) {
        Ok(id) => id,
        Err(fault) => return Err(fault),
    };
    match lock_ticket_revision(row, ticket_revision_id) {
        Err(fault) => Err(fault),
        Ok(ticket) => Ok(
            ClaimTicketReceipt {
                ticket_id: ticket.ticket_id,
                ticket_revision_id,
                outcome,
                resulting_ticket_revision: audit.resulting_revision,
                audit_log_id: audit.audit_log_id,
                was_idempotent_retry: true,
            },
        ),
    }
}

/// A claim puts a ticket in flight only when nothing else of the application
/// is in flight, no paid session runs, the campaign is running, before its
/// deadline, with a known cost, and both fresh runs reproduce the failure.
pub proof fn law_claim_keeps_one_ticket_in_flight(command: ClaimSponsoredTicket, facts: ClaimFacts)
    requires
        spec_claim(command, facts) is Ok,
        spec_claim(command, facts)->Ok_0.ticket.lifecycle == TICKET_IN_FLIGHT,
    ensures
        facts.in_flight_count <= 0,
        !facts.paid_session_active,
        facts.campaign is Some,
        facts.campaign->0.lifecycle == RUNNING,
        facts.campaign->0.deadline_open,
        facts.campaign->0.cost_state == COST_KNOWN,
        facts.campaign->0.campaign_application_revision_id
            == facts.campaign->0.ticket_application_revision_id,
        column_bytes(facts.digests.first) == column_bytes(facts.digests.second),
        column_bytes(facts.digests.first) == column_bytes(facts.digests.discovery),
        column_bytes(facts.digests.first) != column_bytes(facts.digests.expected),
{
}

/// The fences every attempt command is held to: the attempt and its ticket at
/// their expected revisions, with the ticket in flight.
pub open spec fn spec_fenced_attempt(
    row: Option<TicketAttemptRow>,
    ticket_attempt_id: TicketAttemptId,
    expected_attempt_revision: ExpectedRevision,
    expected_ticket_revision: ExpectedRevision,
) -> Result<TicketAttemptLocked, StoreError> {
    match spec_lock_ticket_attempt(row, ticket_attempt_id) {
        Err(fault) => Err(fault),
        Ok(attempt) => match spec_require_expected(expected_attempt_revision, attempt.revision) {
            Err(fault) => Err(fault),
            Ok(()) => match spec_require_expected(
                expected_ticket_revision,
                attempt.ticket_revision,
            ) {
                Err(fault) => Err(fault),
                Ok(()) => match spec_require_ticket_state(
                    TicketState::InFlight,
                    attempt.ticket_state,
                ) {
                    Err(fault) => Err(fault),
                    Ok(()) => Ok(attempt),
                },
            },
        },
    }
}

fn fenced_attempt(
    row: Option<TicketAttemptRow>,
    ticket_attempt_id: TicketAttemptId,
    expected_attempt_revision: ExpectedRevision,
    expected_ticket_revision: ExpectedRevision,
) -> (result: Result<TicketAttemptLocked, StoreError>)
    ensures
        result == spec_fenced_attempt(
            row,
            ticket_attempt_id,
            expected_attempt_revision,
            expected_ticket_revision,
        ),
{
    let attempt = match lock_ticket_attempt(row, ticket_attempt_id) {
        Ok(attempt) => attempt,
        Err(fault) => return Err(fault),
    };
    match require_expected(expected_attempt_revision, attempt.revision) {
        Err(fault) => return Err(fault),
        Ok(()) => {},
    }
    match require_expected(expected_ticket_revision, attempt.ticket_revision) {
        Err(fault) => return Err(fault),
        Ok(()) => {},
    }
    match require_ticket_state(TicketState::InFlight, attempt.ticket_state) {
        Err(fault) => Err(fault),
        Ok(()) => Ok(attempt),
    }
}

/// Whether an attempt command is admitted, refused, or answered from its
/// receipt.
pub open spec fn spec_admit_attempt(
    principal: String,
    command_id: String,
    reason: Seq<char>,
    reason_field: &'static str,
    audit: Option<AuditRow>,
    operation: Seq<char>,
    preimage: Seq<u8>,
    subject_kind: i16,
) -> Result<Option<Audit>, StoreError> {
    match spec_validate_ticket_key(principal@, command_id@) {
        Err(fault) => Err(fault),
        Ok(()) => match spec_validate_reason(reason, reason_field) {
            Err(fault) => Err(fault),
            Ok(()) => spec_replay(
                audit,
                principal,
                command_id,
                operation,
                ContentDigest { bytes: blake3_of(preimage) },
                subject_kind,
            ),
        },
    }
}

/// Admits an attempt's failure or finds the receipt that answers it.
pub fn admit_attempt_failure(command: &FailTicketAttempt, audit: Option<&AuditRow>) -> (result:
    Result<Option<Audit>, StoreError>)
    ensures
        result == spec_admit_attempt(
            command.principal,
            command.command_id,
            command.reason@,
            "failure reason",
            referent(audit),
            FAIL_OPERATION@,
            failure_preimage(*command),
            FAILED_ATTEMPT_SUBJECT,
        ),
{
    match validate_command(command.principal.as_str(), command.command_id.as_str()) {
        Err(fault) => return Err(fault),
        Ok(()) => {},
    }
    match validate_reason(command.reason.as_str(), "failure reason") {
        Err(fault) => return Err(fault),
        Ok(()) => {},
    }
    replay(
        audit,
        &command.principal,
        &command.command_id,
        FAIL_OPERATION,
        failure_fingerprint(command),
        FAILED_ATTEMPT_SUBJECT,
    )
}

/// The stages an attempt can fail from: every stage but the terminal three.
pub open spec fn is_live_stage(stage: i16) -> bool {
    ATTEMPT_ENGINEERING <= stage <= ATTEMPT_REWORK_QUALITY
}

pub open spec fn spec_fail_attempt(command: FailTicketAttempt, row: Option<TicketAttemptRow>) -> Result<
    AttemptTransition,
    StoreError,
> {
    match spec_fenced_attempt(
        row,
        command.ticket_attempt_id,
        command.expected_attempt_revision,
        command.expected_ticket_revision,
    ) {
        Err(fault) => Err(fault),
        Ok(attempt) => if !is_live_stage(attempt.stage) {
            Err(StoreError::TicketAttemptNotReleasable)
        } else {
            spec_attempt_transition(attempt.revision, ATTEMPT_FAILED)
        },
    }
}

/// Plans the end of an attempt. The ticket itself is left as it is.
pub fn fail_ticket_attempt(command: &FailTicketAttempt, row: Option<TicketAttemptRow>) -> (result:
    Result<AttemptTransition, StoreError>)
    ensures
        result == spec_fail_attempt(*command, row),
{
    let attempt = match fenced_attempt(
        row,
        command.ticket_attempt_id,
        command.expected_attempt_revision,
        command.expected_ticket_revision,
    ) {
        Ok(attempt) => attempt,
        Err(fault) => return Err(fault),
    };
    let live = attempt.stage == ATTEMPT_ENGINEERING || attempt.stage == ATTEMPT_HARD_VALIDATION
        || attempt.stage == ATTEMPT_QUALITY || attempt.stage == ATTEMPT_AWAITING_ARCHITECT
        || attempt.stage == ATTEMPT_REWORK_ENGINEERING || attempt.stage
        == ATTEMPT_REWORK_VALIDATION || attempt.stage == ATTEMPT_REWORK_QUALITY;
    if !live {
        return Err(StoreError::TicketAttemptNotReleasable);
    }
    attempt_transition(attempt.revision, ATTEMPT_FAILED)
}

/// The answer to a performed attempt command.
pub open spec fn spec_attempt_receipt(
    ticket_attempt_id: TicketAttemptId,
    resulting_attempt_revision: AggregateRevision,
    audit_log_id: i64,
    was_idempotent_retry: bool,
) -> TicketAttemptReceipt {
    TicketAttemptReceipt {
        ticket_attempt_id,
        resulting_attempt_revision,
        audit_log_id,
        was_idempotent_retry,
    }
}

/// Answers a performed attempt command.
pub fn attempt_receipt(
    ticket_attempt_id: TicketAttemptId,
    transition: &AttemptTransition,
    audit_log_id: i64,
) -> (receipt: TicketAttemptReceipt)
    ensures
        receipt == spec_attempt_receipt(
            ticket_attempt_id,
            transition.resulting_revision,
            audit_log_id,
            false,
        ),
{
    TicketAttemptReceipt {
        ticket_attempt_id,
        resulting_attempt_revision: transition.resulting_revision,
        audit_log_id,
        was_idempotent_retry: false,
    }
}

/// Answers a repeated attempt command from its receipt.
pub fn replayed_attempt_receipt(ticket_attempt_id: TicketAttemptId, audit: &Audit) -> (receipt:
    TicketAttemptReceipt)
    ensures
        receipt == spec_attempt_receipt(
            ticket_attempt_id,
            audit.resulting_revision,
            audit.audit_log_id,
            true,
        ),
{
    TicketAttemptReceipt {
        ticket_attempt_id,
        resulting_attempt_revision: audit.resulting_revision,
        audit_log_id: audit.audit_log_id,
        was_idempotent_retry: true,
    }
}

/// Admits a Quality retry or finds the receipt that answers it.
pub fn admit_quality_retry(command: &RetryQualityAttempt, audit: Option<&AuditRow>) -> (result:
    Result<Option<Audit>, StoreError>)
    ensures
        result == spec_admit_attempt(
            command.principal,
            command.command_id,
            command.reason@,
            "Quality retry reason",
            referent(audit),
            QUALITY_RETRY_OPERATION@,
            quality_retry_preimage(*command),
            QUALITY_RETRY_SUBJECT,
        ),
{
    match validate_command(command.principal.as_str(), command.command_id.as_str()) {
        Err(fault) => return Err(fault),
        Ok(()) => {},
    }
    match validate_reason(command.reason.as_str(), "Quality retry reason") {
        Err(fault) => return Err(fault),
        Ok(()) => {},
    }
    replay(
        audit,
        &command.principal,
        &command.command_id,
        QUALITY_RETRY_OPERATION,
        quality_retry_fingerprint(command),
        QUALITY_RETRY_SUBJECT,
    )
}

/// The candidate of an attempt, as its columns hold it.
#[derive(Clone, Copy, Debug, PartialEq, Eq, Structural)]
pub struct RetryCandidateRow {
    pub lifecycle: i16,
    pub candidate_commit_present: bool,
}

pub open spec fn spec_retry_quality(
    command: RetryQualityAttempt,
    row: Option<TicketAttemptRow>,
    candidate: Option<RetryCandidateRow>,
    prior_quality_retry_exists: bool,
) -> Result<AttemptTransition, StoreError> {
    match spec_fenced_attempt(
        row,
        command.ticket_attempt_id,
        command.expected_attempt_revision,
        command.expected_ticket_revision,
    ) {
        Err(fault) => Err(fault),
        Ok(attempt) => if candidate is None || !quality_retry_allowed(
            attempt.stage,
            candidate->0.lifecycle,
            candidate->0.candidate_commit_present,
            prior_quality_retry_exists,
        ) {
            Err(StoreError::TicketAttemptNotReleasable)
        } else {
            spec_attempt_transition(attempt.revision, ATTEMPT_REWORK_QUALITY)
        },
    }
}

/// Plans the one Quality retry of an attempt.
pub fn retry_quality_attempt(
    command: &RetryQualityAttempt,
    row: Option<TicketAttemptRow>,
    candidate: Option<RetryCandidateRow>,
    prior_quality_retry_exists: bool,
) -> (result: Result<AttemptTransition, StoreError>)
    ensures
        result == spec_retry_quality(*command, row, candidate, prior_quality_retry_exists),
{
    let attempt = match fenced_attempt(
        row,
        command.ticket_attempt_id,
        command.expected_attempt_revision,
        command.expected_ticket_revision,
    ) {
        Ok(attempt) => attempt,
        Err(fault) => return Err(fault),
    };
    let candidate = match candidate {
        Some(candidate) => candidate,
        None => return Err(StoreError::TicketAttemptNotReleasable),
    };
    if !can_retry_quality_attempt(
        attempt.stage,
        candidate.lifecycle,
        candidate.candidate_commit_present,
        prior_quality_retry_exists,
    ) {
        return Err(StoreError::TicketAttemptNotReleasable);
    }
    attempt_transition(attempt.revision, ATTEMPT_REWORK_QUALITY)
}

/// Quality is retried at most once per attempt: a retry leads to rework
/// Quality, and neither an attempt that was retried nor one in rework Quality
/// is retried.
pub proof fn law_quality_retry_happens_once(
    command: RetryQualityAttempt,
    row: Option<TicketAttemptRow>,
    candidate: Option<RetryCandidateRow>,
    prior: bool,
)
    ensures
        spec_retry_quality(command, row, candidate, true) is Err,
        spec_retry_quality(command, row, candidate, prior) matches Ok(transition)
            ==> transition.stage == ATTEMPT_REWORK_QUALITY,
        row is Some && row->0.stage == ATTEMPT_REWORK_QUALITY ==> spec_retry_quality(
            command,
            row,
            candidate,
            prior,
        ) is Err,
{
}

/// Admits an Engineering retry or finds the receipt that answers it.
pub fn admit_engineering_retry(command: &RetryEngineeringAttempt, audit: Option<&AuditRow>) -> (result:
    Result<Option<Audit>, StoreError>)
    ensures
        result == spec_admit_attempt(
            command.principal,
            command.command_id,
            command.reason@,
            "Engineering retry reason",
            referent(audit),
            ENGINEERING_RETRY_OPERATION@,
            engineering_retry_preimage(*command),
            ENGINEERING_RETRY_SUBJECT,
        ),
{
    match validate_command(command.principal.as_str(), command.command_id.as_str()) {
        Err(fault) => return Err(fault),
        Ok(()) => {},
    }
    match validate_reason(command.reason.as_str(), "Engineering retry reason") {
        Err(fault) => return Err(fault),
        Ok(()) => {},
    }
    replay(
        audit,
        &command.principal,
        &command.command_id,
        ENGINEERING_RETRY_OPERATION,
        engineering_retry_fingerprint(command),
        ENGINEERING_RETRY_SUBJECT,
    )
}

/// The campaign that paid for an attempt, as its columns hold it.
#[derive(Clone, Copy, Debug, PartialEq, Eq, Structural)]
pub struct RetryCampaignRow {
    pub lifecycle: i16,
    pub cost_state: i16,
}

pub open spec fn spec_retry_engineering(
    command: RetryEngineeringAttempt,
    row: Option<TicketAttemptRow>,
    campaign: Option<RetryCampaignRow>,
    candidate_exists: bool,
    prior_retry_exists: bool,
) -> Result<AttemptTransition, StoreError> {
    match spec_fenced_attempt(
        row,
        command.ticket_attempt_id,
        command.expected_attempt_revision,
        command.expected_ticket_revision,
    ) {
        Err(fault) => Err(fault),
        Ok(attempt) => if attempt.released || campaign is None || campaign->0.lifecycle != RUNNING
            || campaign->0.cost_state != COST_KNOWN || !engineering_retry_allowed(
            attempt.stage,
            candidate_exists,
            prior_retry_exists,
        ) {
            Err(StoreError::TicketAttemptNotReleasable)
        } else {
            spec_attempt_transition(attempt.revision, ATTEMPT_ENGINEERING)
        },
    }
}

/// Plans the one Engineering retry of a failed attempt: the failure is
/// cleared and the attempt returns to Engineering.
pub fn retry_engineering_attempt(
    command: &RetryEngineeringAttempt,
    row: Option<TicketAttemptRow>,
    campaign: Option<RetryCampaignRow>,
    candidate_exists: bool,
    prior_retry_exists: bool,
) -> (result: Result<AttemptTransition, StoreError>)
    ensures
        result == spec_retry_engineering(
            *command,
            row,
            campaign,
            candidate_exists,
            prior_retry_exists,
        ),
{
    let attempt = match fenced_attempt(
        row,
        command.ticket_attempt_id,
        command.expected_attempt_revision,
        command.expected_ticket_revision,
    ) {
        Ok(attempt) => attempt,
        Err(fault) => return Err(fault),
    };
    if attempt.released || attempt.stage != ATTEMPT_FAILED {
        return Err(StoreError::TicketAttemptNotReleasable);
    }
    let campaign = match campaign {
        Some(campaign) => campaign,
        None => return Err(StoreError::TicketAttemptNotReleasable),
    };
    if campaign.lifecycle != RUNNING || campaign.cost_state != COST_KNOWN {
        return Err(StoreError::TicketAttemptNotReleasable);
    }
    if !can_retry_engineering_attempt(attempt.stage, candidate_exists, prior_retry_exists) {
        return Err(StoreError::TicketAttemptNotReleasable);
    }
    attempt_transition(attempt.revision, ATTEMPT_ENGINEERING)
}

/// Engineering is retried at most once per attempt, and only after a failure
/// that left no candidate.
pub proof fn law_engineering_retry_happens_once(
    command: RetryEngineeringAttempt,
    row: Option<TicketAttemptRow>,
    campaign: Option<RetryCampaignRow>,
    candidate_exists: bool,
    prior: bool,
)
    ensures
        spec_retry_engineering(command, row, campaign, candidate_exists, true) is Err,
        spec_retry_engineering(command, row, campaign, true, prior) is Err,
        spec_retry_engineering(command, row, campaign, candidate_exists, prior) is Ok ==> row
            is Some && row->0.stage == ATTEMPT_FAILED && !row->0.released,
{
}

/// Whether a release is admitted, refused, or answered from its receipt.
pub open spec fn spec_admit_release(
    command: ReleaseTicketAttempt,
    audit: Option<AuditRow>,
) -> Result<Option<Audit>, StoreError> {
    match spec_validate_ticket_key(command.principal@, command.command_id@) {
        Err(fault) => Err(fault),
        Ok(()) => match spec_validate_reason(command.reason@, "release reason") {
            Err(fault) => Err(fault),
            Ok(()) => match spec_validate_requalification(command.requalification) {
                Err(fault) => Err(fault),
                Ok(()) => spec_find_audit(
                    audit,
                    command.principal,
                    command.command_id,
                    RELEASE_OPERATION@,
                    ContentDigest { bytes: blake3_of(release_preimage(command)) },
                ),
            },
        },
    }
}

/// Admits a release or finds the receipt that answers it.
pub fn admit_release(command: &ReleaseTicketAttempt, audit: Option<&AuditRow>) -> (result: Result<
    Option<Audit>,
    StoreError,
>)
    ensures
        result == spec_admit_release(*command, referent(audit)),
{
    match validate_command(command.principal.as_str(), command.command_id.as_str()) {
        Err(fault) => return Err(fault),
        Ok(()) => {},
    }
    match validate_reason(command.reason.as_str(), "release reason") {
        Err(fault) => return Err(fault),
        Ok(()) => {},
    }
    match validate_requalification(&command.requalification) {
        Err(fault) => return Err(fault),
        Ok(()) => {},
    }
    find_audit(
        audit,
        &command.principal,
        &command.command_id,
        RELEASE_OPERATION,
        release_fingerprint(command),
    )
}

/// What the store holds when an attempt is about to be released.
#[derive(Clone, Debug, PartialEq, Eq)]
pub struct ReleaseFacts {
    pub attempt: Option<TicketAttemptRow>,
    pub digests: RequalificationDigests,
    pub application: Option<ReadyBufferRow>,
    pub sponsored_count: i64,
}

/// What a release writes.
#[derive(Clone, Copy, Debug, PartialEq, Eq)]
pub struct ReleasePlan {
    pub outcome: ReleaseOutcome,
    pub subject_kind: i16,
    pub requalification: RequalificationPlan,
    pub attempt: AttemptTransition,
}

pub open spec fn spec_released_as(outcome: RequalificationOutcome) -> ReleaseOutcome {
    match outcome {
        RequalificationOutcome::Reproduced => ReleaseOutcome::Released,
        RequalificationOutcome::Resolved => ReleaseOutcome::Resolved,
        RequalificationOutcome::Diverged => ReleaseOutcome::Blocked,
    }
}

pub open spec fn spec_release_subject(outcome: RequalificationOutcome) -> i16 {
    match outcome {
        RequalificationOutcome::Reproduced => RELEASED_ATTEMPT_SUBJECT,
        RequalificationOutcome::Resolved => RELEASE_RESOLVED_SUBJECT,
        RequalificationOutcome::Diverged => RELEASE_BLOCKED_SUBJECT,
    }
}

/// The plan of a releasable attempt. Only a reproduced failure needs room in
/// the ready buffer.
pub open spec fn spec_release_plan(
    attempt: TicketAttemptLocked,
    outcome: RequalificationOutcome,
    facts: ReleaseFacts,
) -> Result<ReleasePlan, StoreError> {
    match (if outcome == RequalificationOutcome::Reproduced {
        spec_ready_buffer(
            facts.application,
            attempt.ticket.application_revision_id,
            facts.sponsored_count,
        )
    } else {
        Ok::<(), StoreError>(())
    }) {
        Err(fault) => Err(fault),
        Ok(()) => match spec_attempt_transition(attempt.revision, attempt.stage) {
            Err(fault) => Err(fault),
            Ok(attempt_move) => match spec_requalification_plan(
                attempt.ticket,
                outcome,
                TICKET_SPONSORED,
            ) {
                Err(fault) => Err(fault),
                Ok(requalification) => Ok(
                    ReleasePlan {
                        outcome: spec_released_as(outcome),
                        subject_kind: spec_release_subject(outcome),
                        requalification,
                        attempt: attempt_move,
                    },
                ),
            },
        },
    }
}

/// The plan of a release, or the first refusal.
pub open spec fn spec_release(command: ReleaseTicketAttempt, facts: ReleaseFacts) -> Result<
    ReleasePlan,
    StoreError,
> {
    match spec_fenced_attempt(
        facts.attempt,
        command.ticket_attempt_id,
        command.expected_attempt_revision,
        command.expected_ticket_revision,
    ) {
        Err(fault) => Err(fault),
        Ok(attempt) => if attempt.released {
            Err(StoreError::TicketAttemptAlreadyReleased)
        } else if attempt.stage != ATTEMPT_FAILED && attempt.stage != ATTEMPT_CANCELLED {
            Err(StoreError::TicketAttemptNotReleasable)
        } else {
            match requalification_fault(attempt.ticket, command.requalification, facts.digests) {
                Some(fault) => Err(fault),
                None => spec_release_plan(attempt, requalification_outcome(facts.digests), facts),
            }
        },
    }
}

/// Plans the release of a failed or cancelled attempt. The attempt keeps its
/// stage and gains a release; the ticket moves by the fresh observations.
pub fn release_ticket_attempt(command: &ReleaseTicketAttempt, facts: &ReleaseFacts) -> (result:
    Result<ReleasePlan, StoreError>)
    ensures
        result == spec_release(*command, *facts),
{
    let attempt = match fenced_attempt(
        facts.attempt,
        command.ticket_attempt_id,
        command.expected_attempt_revision,
        command.expected_ticket_revision,
    ) {
        Ok(attempt) => attempt,
        Err(fault) => return Err(fault),
    };
    if attempt.released {
        return Err(StoreError::TicketAttemptAlreadyReleased);
    }
    if attempt.stage != ATTEMPT_FAILED && attempt.stage != ATTEMPT_CANCELLED {
        return Err(StoreError::TicketAttemptNotReleasable);
    }
    let outcome = match classify_requalification(
        &attempt.ticket,
        &command.requalification,
        &facts.digests,
    ) {
        Ok(outcome) => outcome,
        Err(fault) => return Err(fault),
    };
    if outcome == RequalificationOutcome::Reproduced {
        match ready_buffer(
            facts.application,
            attempt.ticket.application_revision_id,
            facts.sponsored_count,
        ) {
            Err(fault) => return Err(fault),
            Ok(()) => {},
        }
    }
    let attempt_move = match attempt_transition(attempt.revision, attempt.stage) {
        Ok(transition) => transition,
        Err(fault) => return Err(fault),
    };
    let requalification = match requalification_plan(&attempt.ticket, outcome, TICKET_SPONSORED) {
        Ok(plan) => plan,
        Err(fault) => return Err(fault),
    };
    let (released_as, subject_kind) = match outcome {
        RequalificationOutcome::Reproduced => (ReleaseOutcome::Released, RELEASED_ATTEMPT_SUBJECT),
        RequalificationOutcome::Resolved => (ReleaseOutcome::Resolved, RELEASE_RESOLVED_SUBJECT),
        RequalificationOutcome::Diverged => (ReleaseOutcome::Blocked, RELEASE_BLOCKED_SUBJECT),
    };
    Ok(
        ReleasePlan {
            outcome: released_as,
            subject_kind,
            requalification,
            attempt: attempt_move,
        },
    )
}

/// Answers a performed release.
pub fn release_receipt(
    ticket_attempt_id: TicketAttemptId,
    plan: &ReleasePlan,
    audit_log_id: i64,
) -> (receipt: ReleaseTicketReceipt)
    ensures
        receipt == (ReleaseTicketReceipt {
            ticket_id: plan.requalification.ticket.ticket_id,
            ticket_revision_id: plan.requalification.ticket.ticket_revision_id,
            ticket_attempt_id,
            outcome: plan.outcome,
            resulting_ticket_revision: plan.requalification.ticket.resulting_revision,
            resulting_attempt_revision: plan.attempt.resulting_revision,
            audit_log_id,
            was_idempotent_retry: false,
        }),
{
    ReleaseTicketReceipt {
        ticket_id: plan.requalification.ticket.ticket_id,
        ticket_revision_id: plan.requalification.ticket.ticket_revision_id,
        ticket_attempt_id,
        outcome: plan.outcome,
        resulting_ticket_revision: plan.requalification.ticket.resulting_revision,
        resulting_attempt_revision: plan.attempt.resulting_revision,
        audit_log_id,
        was_idempotent_retry: false,
    }
}

pub open spec fn spec_replayed_release(
    command: ReleaseTicketAttempt,
    audit: Audit,
    row: Option<TicketAttemptRow>,
) -> Result<ReleaseTicketReceipt, StoreError> {
    match spec_release_outcome(audit) {
        Err(fault) => Err(fault),
        Ok(outcome) => match spec_lock_ticket_attempt(row, command.ticket_attempt_id) {
            Err(fault) => Err(fault),
            Ok(attempt) => Ok(
                ReleaseTicketReceipt {
                    ticket_id: attempt.ticket_id,
                    ticket_revision_id: attempt.ticket_revision_id,
                    ticket_attempt_id: command.ticket_attempt_id,
                    outcome,
                    resulting_ticket_revision: attempt.ticket.revision,
                    resulting_attempt_revision: audit.resulting_revision,
                    audit_log_id: audit.audit_log_id,
                    was_idempotent_retry: true,
                },
            ),
        },
    }
}

/// Answers a repeated release from its receipt and the ticket's present
/// revision.
pub fn replayed_release_receipt(
    command: &ReleaseTicketAttempt,
    audit: &Audit,
    row: Option<TicketAttemptRow>,
) -> (result: Result<ReleaseTicketReceipt, StoreError>)
    ensures
        result == spec_replayed_release(*command, *audit, row),
{
    let outcome = match release_outcome_from_receipt(audit) {
        Ok(outcome) => outcome,
        Err(fault) => return Err(fault),
    };
    match lock_ticket_attempt(row, command.ticket_attempt_id) {
        Err(fault) => Err(fault),
        Ok(attempt) => Ok(
            ReleaseTicketReceipt {
                ticket_id: attempt.ticket_id,
                ticket_revision_id: attempt.ticket_revision_id,
                ticket_attempt_id: command.ticket_attempt_id,
                outcome,
                resulting_ticket_revision: attempt.ticket.revision,
                resulting_attempt_revision: audit.resulting_revision,
                audit_log_id: audit.audit_log_id,
                was_idempotent_retry: true,
            },
        ),
    }
}

/// The receipt of a performed release reads back as the same outcome.
pub proof fn law_release_outcome_replays(command: ReleaseTicketAttempt, facts: ReleaseFacts, audit: Audit)
    requires
        spec_release(command, facts) is Ok,
        audit.subject_kind == spec_release(command, facts)->Ok_0.subject_kind,
    ensures
        spec_release_outcome(audit) == Ok::<ReleaseOutcome, StoreError>(
            spec_release(command, facts)->Ok_0.outcome,
        ),
{
}

/// A release returns a ticket to the ready buffer only when both fresh runs
/// reproduce the failure and the buffer has room; a resolved or divergent head
/// leaves it resolved or blocked.
pub proof fn law_release_never_readies_an_unreproduced_ticket(
    command: ReleaseTicketAttempt,
    facts: ReleaseFacts,
)
    requires
        spec_release(command, facts) is Ok,
    ensures
        ({
            let plan = spec_release(command, facts)->Ok_0;
            let outcome = requalification_outcome(facts.digests);
            &&& plan.requalification.ticket.lifecycle == TICKET_SPONSORED <==> outcome
                == RequalificationOutcome::Reproduced
            &&& plan.requalification.ticket.lifecycle == TICKET_RESOLVED <==> outcome
                == RequalificationOutcome::Resolved
            &&& plan.requalification.ticket.lifecycle == TICKET_BLOCKED <==> outcome
                == RequalificationOutcome::Diverged
            &&& plan.requalification.ticket.lifecycle == TICKET_SPONSORED ==> spec_ready_buffer(
                facts.application,
                ApplicationRevisionId { value: facts.attempt->0.ticket.application_revision_id },
                facts.sponsored_count,
            ) is Ok
            &&& !facts.attempt->0.released
        }),
{
}

/// A ticket whose attempt failed stays in flight, and a ticket in flight can
/// be neither sponsored nor claimed: only a release makes it claimable again.
pub proof fn law_failed_attempt_is_not_claimable(
    failure: FailTicketAttempt,
    row: TicketAttemptRow,
    claim: ClaimSponsoredTicket,
    claim_facts: ClaimFacts,
    sponsor: SponsorTicketRevision,
    application: Option<ReadyBufferRow>,
    sponsored_count: i64,
)
    requires
        spec_fail_attempt(failure, Some(row)) is Ok,
        claim_facts.ticket == Some(row.ticket),
    ensures
        row.ticket.ticket_lifecycle == TICKET_IN_FLIGHT,
        spec_claim(claim, claim_facts) is Err,
        spec_sponsor(sponsor, Some(row.ticket), application, sponsored_count) is Err,
{
}

/// Every accepted transition starts from exactly the revisions its command
/// expects and moves each of them by one.
pub proof fn law_ticket_transitions_are_revision_fenced(
    sponsor: SponsorTicketRevision,
    ticket: TicketRevisionRow,
    application: Option<ReadyBufferRow>,
    sponsored_count: i64,
    claim: ClaimSponsoredTicket,
    claim_facts: ClaimFacts,
    failure: FailTicketAttempt,
    attempt: TicketAttemptRow,
    release: ReleaseTicketAttempt,
    release_facts: ReleaseFacts,
)
    requires
        claim_facts.ticket == Some(ticket),
        release_facts.attempt == Some(attempt),
    ensures
        spec_sponsor(sponsor, Some(ticket), application, sponsored_count) matches Ok(transition)
            ==> ticket.ticket_aggregate_revision == sponsor.expected_ticket_revision.revision.value
            && transition.revision_column == ticket.ticket_aggregate_revision + 1,
        spec_claim(claim, claim_facts) matches Ok(plan) ==> ticket.ticket_aggregate_revision
            == claim.expected_ticket_revision.revision.value && plan.ticket.revision_column
            == ticket.ticket_aggregate_revision + 1,
        spec_fail_attempt(failure, Some(attempt)) matches Ok(transition)
            ==> attempt.attempt_revision == failure.expected_attempt_revision.revision.value
            && attempt.ticket.ticket_aggregate_revision
            == failure.expected_ticket_revision.revision.value && transition.revision_column
            == attempt.attempt_revision + 1,
        spec_release(release, release_facts) matches Ok(plan) ==> attempt.attempt_revision
            == release.expected_attempt_revision.revision.value
            && attempt.ticket.ticket_aggregate_revision
            == release.expected_ticket_revision.revision.value && plan.attempt.revision_column
            == attempt.attempt_revision + 1 && plan.requalification.ticket.revision_column
            == attempt.ticket.ticket_aggregate_revision + 1,
{
}

/// Whether a completion is admitted, refused, or answered from its receipt.
pub open spec fn spec_admit_completion(
    command: CompleteCampaignAtDeliveryTarget,
    audit: Option<AuditRow>,
) -> Result<Option<Audit>, StoreError> {
    match spec_validate_ticket_key(command.principal@, command.command_id@) {
        Err(fault) => Err(fault),
        Ok(()) => spec_replay(
            audit,
            command.principal,
            command.command_id,
            COMPLETE_CAMPAIGN_OPERATION@,
            ContentDigest { bytes: blake3_of(completion_preimage(command)) },
            CAMPAIGN_COMPLETED_SUBJECT,
        ),
    }
}

/// Admits a completion or finds the receipt that answers it.
pub fn admit_completion(command: &CompleteCampaignAtDeliveryTarget, audit: Option<&AuditRow>) -> (result:
    Result<Option<Audit>, StoreError>)
    ensures
        result == spec_admit_completion(*command, referent(audit)),
{
    match validate_command(command.principal.as_str(), command.command_id.as_str()) {
        Err(fault) => return Err(fault),
        Ok(()) => {},
    }
    replay(
        audit,
        &command.principal,
        &command.command_id,
        COMPLETE_CAMPAIGN_OPERATION,
        completion_fingerprint(command),
        CAMPAIGN_COMPLETED_SUBJECT,
    )
}

/// The campaign about to be completed, as its columns hold it.
#[derive(Clone, Copy, Debug, PartialEq, Eq, Structural)]
pub struct CompletionCampaignRow {
    pub lifecycle: i16,
    pub revision: i64,
    pub delivery_target: i32,
}

/// A campaign's move to its completed revision.
#[derive(Clone, Copy, Debug, PartialEq, Eq, Structural)]
pub struct CompletionPlan {
    pub lifecycle: i16,
    pub resulting_revision: AggregateRevision,
    pub revision_column: i64,
}

pub open spec fn spec_complete(
    command: CompleteCampaignAtDeliveryTarget,
    campaign: Option<CompletionCampaignRow>,
    delivered_count: i64,
) -> Result<CompletionPlan, StoreError> {
    match campaign {
        None => Err(StoreError::UnknownCampaign { campaign_id: command.campaign_id }),
        Some(row) => match spec_revision_from_sql(row.revision) {
            Err(fault) => Err(fault),
            Ok(current) => match spec_require_expected(
                command.expected_campaign_revision,
                current,
            ) {
                Err(fault) => Err(fault),
                Ok(()) => if row.lifecycle != RUNNING {
                    Err(StoreError::CampaignClosed { campaign_id: command.campaign_id })
                } else if delivered_count < row.delivery_target {
                    Err(StoreError::CampaignDeliveryTargetNotReached)
                } else {
                    match spec_attempt_transition(current, CAMPAIGN_COMPLETED) {
                        Err(fault) => Err(fault),
                        Ok(transition) => Ok(
                            CompletionPlan {
                                lifecycle: CAMPAIGN_COMPLETED,
                                resulting_revision: transition.resulting_revision,
                                revision_column: transition.revision_column,
                            },
                        ),
                    }
                },
            },
        },
    }
}

/// Plans the completion of a running campaign whose delivered attempts meet
/// its target.
pub fn complete_campaign_at_delivery_target(
    command: &CompleteCampaignAtDeliveryTarget,
    campaign: Option<CompletionCampaignRow>,
    delivered_count: i64,
) -> (result: Result<CompletionPlan, StoreError>)
    ensures
        result == spec_complete(*command, campaign, delivered_count),
{
    let row = match campaign {
        Some(row) => row,
        None => return Err(StoreError::UnknownCampaign { campaign_id: command.campaign_id }),
    };
    let current = match aggregate_revision_from_sql(row.revision) {
        Ok(revision) => revision,
        Err(fault) => return Err(fault),
    };
    match require_expected(command.expected_campaign_revision, current) {
        Err(fault) => return Err(fault),
        Ok(()) => {},
    }
    if row.lifecycle != RUNNING {
        return Err(StoreError::CampaignClosed { campaign_id: command.campaign_id });
    }
    if delivered_count < row.delivery_target as i64 {
        return Err(StoreError::CampaignDeliveryTargetNotReached);
    }
    match attempt_transition(current, CAMPAIGN_COMPLETED) {
        Err(fault) => Err(fault),
        Ok(transition) => Ok(
            CompletionPlan {
                lifecycle: CAMPAIGN_COMPLETED,
                resulting_revision: transition.resulting_revision,
                revision_column: transition.revision_column,
            },
        ),
    }
}

/// A campaign completes only while it runs, at the expected revision, with at
/// least its target delivered.
pub proof fn law_completion_needs_the_delivery_target(
    command: CompleteCampaignAtDeliveryTarget,
    campaign: Option<CompletionCampaignRow>,
    delivered_count: i64,
)
    requires
        spec_complete(command, campaign, delivered_count) is Ok,
    ensures
        campaign is Some,
        campaign->0.lifecycle == RUNNING,
        campaign->0.revision == command.expected_campaign_revision.revision.value,
        delivered_count >= campaign->0.delivery_target,
{
}

/// A proposal is accepted whenever the application stands at the expected
/// revision, all five artifacts are registered with whole digests, both runs
/// show one observation that is not the expected one, the buffer has room, and
/// no live ticket owns the reproducer. It is then a first proposed revision of
/// its first observation.
pub proof fn law_sound_proposal_is_accepted(
    command: SubmitTicketProposal,
    application: ProposalApplicationRow,
    facts: ProposalFacts,
)
    requires
        application.aggregate_revision >= 0,
        application.aggregate_revision == command.expected_application_revision.revision.value,
        facts.expected is Some && facts.expected->0@.len() == 32,
        facts.first is Some && facts.first->0@.len() == 32,
        facts.second is Some && facts.second->0@.len() == 32,
        facts.proposal is Some && facts.proposal->0@.len() == 32,
        facts.reproducer is Some && facts.reproducer->0@.len() == 32,
        facts.first->0@ == facts.second->0@,
        facts.first->0@ != facts.expected->0@,
        facts.proposed_count < application.proposal_maximum,
        !facts.reproducer_taken,
    ensures
        proposal_fault(command, application, facts) is None,
        planned_proposal(command).lifecycle == 0,
        planned_proposal(command).revision_ordinal == 1,
        planned_proposal(command).discovery_observation_artifact_id
            == command.first_actual_observation_artifact_id,
        planned_proposal(command).resulting_revision.value == 0,
{
}

/// Every refusal of a proposal has its cause: a full buffer is one at its
/// maximum, a reproducer is a duplicate only where a live ticket owns it, a
/// conflict is another application revision, and an unreproducible or passing
/// proposal shows it in its observations.
pub proof fn law_refused_proposal_has_its_cause(
    command: SubmitTicketProposal,
    application: ProposalApplicationRow,
    facts: ProposalFacts,
)
    ensures
        ({
            let fault = proposal_fault(command, application, facts);
            &&& fault == Some(StoreError::ProposalBufferFull) ==> facts.proposed_count
                >= application.proposal_maximum
            &&& fault == Some(
                StoreError::DuplicateTicketReproducer {
                    reproducer_artifact_id: command.reproducer_artifact_id,
                },
            ) ==> facts.reproducer_taken
            &&& fault matches Some(StoreError::RevisionConflict { expected, current }) ==> expected
                == command.expected_application_revision && current.value
                == application.aggregate_revision && expected.revision != current
            &&& fault == Some(StoreError::ProposalNotReproducible) ==> facts.first->0@
                != facts.second->0@
            &&& fault == Some(StoreError::ProposalDoesNotFail) ==> facts.first->0@
                == facts.second->0@ && facts.first->0@ == facts.expected->0@
            &&& fault == Some(StoreError::RevisionOutOfRange) ==> application.aggregate_revision < 0
            &&& fault == Some(StoreError::CorruptDigestColumn) ==> {
                ||| facts.expected is Some && facts.expected->0@.len() != 32
                ||| facts.first is Some && facts.first->0@.len() != 32
                ||| facts.second is Some && facts.second->0@.len() != 32
                ||| facts.proposal is Some && facts.proposal->0@.len() != 32
                ||| facts.reproducer is Some && facts.reproducer->0@.len() != 32
            }
            &&& fault matches Some(StoreError::UnknownArtifact { artifact_id }) ==> {
                ||| facts.expected is None && artifact_id
                    == command.expected_observation_artifact_id
                ||| facts.first is None && artifact_id
                    == command.first_actual_observation_artifact_id
                ||| facts.second is None && artifact_id
                    == command.second_actual_observation_artifact_id
                ||| facts.proposal is None && artifact_id == command.proposal_artifact_id
                ||| facts.reproducer is None && artifact_id == command.reproducer_artifact_id
            }
        }),
{
}

/// A ticket is sponsored exactly when it is the proposed current revision at
/// the expected revision and the ready buffer has room; no maximum is always
/// room. It then moves on to the sponsored state by one revision.
pub proof fn law_sponsorship_is_granted_exactly_with_room(
    command: SponsorTicketRevision,
    row: Option<TicketRevisionRow>,
    application: Option<ReadyBufferRow>,
    sponsored_count: i64,
)
    ensures
        ({
            let planned = spec_sponsor(command, row, application, sponsored_count);
            let expected = command.expected_ticket_revision.revision.value;
            let proposed = row is Some && stands_at(
                row->0,
                command.ticket_revision_id,
                0,
                expected,
            );
            &&& planned is Ok <==> {
                &&& proposed
                &&& expected < i64::MAX
                &&& application is Some
                &&& application->0.ticket_maximum matches Some(maximum) ==> sponsored_count
                    < maximum
            }
            &&& planned is Ok ==> {
                &&& planned->Ok_0.ticket_id.value == row->0.ticket_id
                &&& planned->Ok_0.ticket_revision_id == command.ticket_revision_id
                &&& planned->Ok_0.lifecycle == 1
                &&& planned->Ok_0.resulting_revision.value == expected + 1
                &&& planned->Ok_0.revision_column == expected + 1
            }
            &&& planned == Err::<TicketTransition, StoreError>(StoreError::ReadyTicketBufferFull)
                <==> proposed && application is Some && application->0.ticket_maximum is Some
                && sponsored_count >= application->0.ticket_maximum->0
        }),
{
}

/// A claim is judged exactly when its ticket is the sponsored current revision
/// at the expected revision, its campaign runs at the expected revision before
/// its deadline with known cost under the ticket's application revision,
/// nothing is in flight, no paid session runs, and all four observations are
/// registered. Then only the observations decide: reproduced goes in flight,
/// resolved is closed, divergent is blocked with the reason.
pub proof fn law_claim_is_judged_exactly_when_it_may_be(
    command: ClaimSponsoredTicket,
    facts: ClaimFacts,
)
    ensures
        ({
            let planned = spec_claim(command, facts);
            let expected = command.expected_ticket_revision.revision.value;
            let digests = facts.digests;
            &&& planned is Ok <==> {
                &&& facts.ticket is Some
                &&& stands_at(facts.ticket->0, command.ticket_revision_id, 1, expected)
                &&& expected < i64::MAX
                &&& facts.campaign is Some
                &&& facts.campaign->0.revision
                    == command.expected_campaign_revision.revision.value
                &&& facts.campaign->0.lifecycle == 0
                &&& facts.campaign->0.deadline_open
                &&& facts.campaign->0.cost_state == 0
                &&& facts.campaign->0.campaign_application_revision_id
                    == facts.campaign->0.ticket_application_revision_id
                &&& facts.in_flight_count <= 0
                &&& !facts.paid_session_active
                &&& digests.expected is Some && digests.expected->0@.len() == 32
                &&& digests.discovery is Some && digests.discovery->0@.len() == 32
                &&& digests.first is Some && digests.first->0@.len() == 32
                &&& digests.second is Some && digests.second->0@.len() == 32
            }
            &&& planned is Ok ==> {
                let plan = planned->Ok_0;
                let alike = digests.first->0@ == digests.second->0@;
                let passes = digests.first->0@ == digests.expected->0@;
                let fails_as_found = digests.first->0@ == digests.discovery->0@;
                &&& plan.ticket.ticket_id.value == facts.ticket->0.ticket_id
                &&& plan.ticket.ticket_revision_id == command.ticket_revision_id
                &&& plan.ticket.resulting_revision.value == expected + 1
                &&& plan.ticket.revision_column == expected + 1
                &&& alike && passes ==> plan.outcome == RequalificationOutcome::Resolved
                    && plan.ticket.lifecycle == 5 && plan.requalification_outcome == 1
                    && plan.blocked_reason is None
                &&& alike && !passes && fails_as_found ==> plan.outcome
                    == RequalificationOutcome::Reproduced && plan.ticket.lifecycle == 2
                    && plan.requalification_outcome == 0 && plan.blocked_reason is None
                &&& !alike || (!passes && !fails_as_found) ==> plan.outcome
                    == RequalificationOutcome::Diverged && plan.ticket.lifecycle == 4
                    && plan.requalification_outcome == 2 && plan.blocked_reason == Some(
                    DIVERGED_REASON,
                )
            }
        }),
{
}

/// Which of a campaign's obstacles a claim is told of: a stale revision before
/// a closed campaign, then the deadline, the cost, another application, a
/// ticket in flight, and last a paid session.
pub proof fn law_claim_is_told_the_first_obstacle(
    command: ClaimSponsoredTicket,
    row: ClaimCampaignRow,
    in_flight_count: i64,
    paid_session_active: bool,
)
    requires
        row.revision >= 0,
    ensures
        ({
            let answer = spec_claim_campaign(
                command,
                Some(row),
                in_flight_count,
                paid_session_active,
            );
            let current = row.revision == command.expected_campaign_revision.revision.value;
            let open = current && row.lifecycle == 0;
            let timely = open && row.deadline_open;
            let funded = timely && row.cost_state == 0;
            let own = funded && row.campaign_application_revision_id
                == row.ticket_application_revision_id;
            let free = own && in_flight_count <= 0;
            &&& answer == Err::<(), StoreError>(
                StoreError::RevisionConflict {
                    expected: command.expected_campaign_revision,
                    current: AggregateRevision { value: row.revision as u64 },
                },
            ) <==> !current
            &&& answer == Err::<(), StoreError>(
                StoreError::CampaignClosed { campaign_id: command.campaign_id },
            ) <==> current && !open
            &&& answer == Err::<(), StoreError>(StoreError::CampaignDeadlineElapsed) <==> open
                && !timely
            &&& answer == Err::<(), StoreError>(
                StoreError::CampaignCostFrozen { campaign_id: command.campaign_id },
            ) <==> timely && !funded
            &&& answer == Err::<(), StoreError>(StoreError::CampaignApplicationMismatch) <==> funded
                && !own
            &&& answer == Err::<(), StoreError>(StoreError::EngineeringTicketAlreadyInFlight)
                <==> own && !free
            &&& answer == Err::<(), StoreError>(StoreError::PaidSessionAlreadyRunning) <==> free
                && paid_session_active
            &&& answer is Ok <==> free && !paid_session_active
        }),
{
}

/// The audit subject of a claim: the new attempt where the ticket was
/// reproduced, the ticket revision otherwise.
pub proof fn law_claim_records_what_it_made(plan: RequalificationPlan, attempt_row: Option<i64>)
    requires
        plan.outcome == RequalificationOutcome::Reproduced ==> attempt_row is Some,
    ensures
        ({
            let subject = spec_claim_subject(plan, attempt_row);
            &&& plan.outcome == RequalificationOutcome::Reproduced ==> (subject is Ok
                <==> attempt_row->0 > 0)
            &&& plan.outcome == RequalificationOutcome::Reproduced && attempt_row->0 > 0
                ==> subject->Ok_0.0 == (ClaimOutcome::Claimed {
                ticket_attempt_id: TicketAttemptId { value: attempt_row->0 },
            }) && subject->Ok_0.1 == 32 && subject->Ok_0.2 == attempt_row->0
            &&& plan.outcome == RequalificationOutcome::Resolved ==> subject == Ok::<
                (ClaimOutcome, i16, i64),
                StoreError,
            >((ClaimOutcome::Resolved, 33i16, plan.ticket.ticket_revision_id.value))
            &&& plan.outcome == RequalificationOutcome::Diverged ==> subject == Ok::<
                (ClaimOutcome, i16, i64),
                StoreError,
            >((ClaimOutcome::Blocked, 34i16, plan.ticket.ticket_revision_id.value))
        }),
{
}

/// Whether an attempt row and its ticket stand at the revisions a command
/// expects, with the ticket in flight.
pub open spec fn is_in_flight_at(
    row: Option<TicketAttemptRow>,
    expected_attempt_revision: ExpectedRevision,
    expected_ticket_revision: ExpectedRevision,
) -> bool {
    &&& row is Some
    &&& row->0.ticket_revision_id > 0
    &&& row->0.attempt_revision == expected_attempt_revision.revision.value
    &&& stands_at(
        row->0.ticket,
        TicketRevisionId { value: row->0.ticket_revision_id },
        2,
        expected_ticket_revision.revision.value,
    )
    &&& expected_ticket_revision.revision.value <= i64::MAX
}

/// An attempt is failed exactly when it is one of the seven live stages of a
/// ticket in flight at the expected revisions.
pub proof fn law_live_attempt_can_be_failed(
    command: FailTicketAttempt,
    row: Option<TicketAttemptRow>,
)
    ensures
        ({
            let planned = spec_fail_attempt(command, row);
            &&& planned is Ok <==> is_in_flight_at(
                row,
                command.expected_attempt_revision,
                command.expected_ticket_revision,
            ) && 0 <= row->0.stage <= 6 && row->0.attempt_revision < i64::MAX
            &&& planned is Ok ==> planned->Ok_0.stage == 8 && planned->Ok_0.revision_column
                == row->0.attempt_revision + 1 && planned->Ok_0.resulting_revision.value
                == row->0.attempt_revision + 1
        }),
{
}

/// Quality is retried exactly when the attempt is in Quality or failed, its
/// candidate is validated and committed, and it was not retried before.
pub proof fn law_quality_retry_is_granted_exactly_once(
    command: RetryQualityAttempt,
    row: Option<TicketAttemptRow>,
    candidate: Option<RetryCandidateRow>,
    prior: bool,
)
    ensures
        ({
            let planned = spec_retry_quality(command, row, candidate, prior);
            &&& planned is Ok <==> {
                &&& is_in_flight_at(
                    row,
                    command.expected_attempt_revision,
                    command.expected_ticket_revision,
                )
                &&& row->0.stage == 2 || row->0.stage == 8
                &&& candidate is Some
                &&& candidate->0.lifecycle == 1
                &&& candidate->0.candidate_commit_present
                &&& !prior
                &&& row->0.attempt_revision < i64::MAX
            }
            &&& planned is Ok ==> planned->Ok_0.stage == 6 && planned->Ok_0.revision_column
                == row->0.attempt_revision + 1 && planned->Ok_0.resulting_revision.value
                == row->0.attempt_revision + 1
        }),
{
}

/// Engineering is retried exactly when a failed attempt that was not released
/// left no candidate and was not retried before, in a running campaign with
/// known cost.
pub proof fn law_engineering_retry_is_granted_exactly_once(
    command: RetryEngineeringAttempt,
    row: Option<TicketAttemptRow>,
    campaign: Option<RetryCampaignRow>,
    candidate_exists: bool,
    prior: bool,
)
    ensures
        ({
            let planned = spec_retry_engineering(command, row, campaign, candidate_exists, prior);
            &&& planned is Ok <==> {
                &&& is_in_flight_at(
                    row,
                    command.expected_attempt_revision,
                    command.expected_ticket_revision,
                )
                &&& row->0.stage == 8
                &&& !row->0.released
                &&& campaign is Some
                &&& campaign->0.lifecycle == 0
                &&& campaign->0.cost_state == 0
                &&& !candidate_exists
                &&& !prior
                &&& row->0.attempt_revision < i64::MAX
            }
            &&& planned is Ok ==> planned->Ok_0.stage == 0 && planned->Ok_0.revision_column
                == row->0.attempt_revision + 1 && planned->Ok_0.resulting_revision.value
                == row->0.attempt_revision + 1
        }),
{
}

/// An attempt is released exactly when it failed or was cancelled, was not
/// released before, all four observations are registered, and a reproduced
/// ticket finds room in the ready buffer. The observations alone decide whether
/// its ticket is sponsored again, resolved or blocked; the attempt keeps its
/// stage.
pub proof fn law_release_is_judged_exactly_when_it_may_be(
    command: ReleaseTicketAttempt,
    facts: ReleaseFacts,
)
    ensures
        ({
            let planned = spec_release(command, facts);
            let row = facts.attempt->0;
            let digests = facts.digests;
            let alike = digests.first->0@ == digests.second->0@;
            let passes = digests.first->0@ == digests.expected->0@;
            let fails_as_found = digests.first->0@ == digests.discovery->0@;
            &&& planned is Ok <==> {
                &&& is_in_flight_at(
                    facts.attempt,
                    command.expected_attempt_revision,
                    command.expected_ticket_revision,
                )
                &&& !row.released
                &&& row.stage == 8 || row.stage == 9
                &&& digests.expected is Some && digests.expected->0@.len() == 32
                &&& digests.discovery is Some && digests.discovery->0@.len() == 32
                &&& digests.first is Some && digests.first->0@.len() == 32
                &&& digests.second is Some && digests.second->0@.len() == 32
                &&& alike && !passes && fails_as_found ==> facts.application is Some && (
                facts.application->0.ticket_maximum matches Some(maximum) ==> facts.sponsored_count
                    < maximum)
                &&& row.attempt_revision < i64::MAX
                &&& command.expected_ticket_revision.revision.value < i64::MAX
            }
            &&& planned is Ok ==> {
                let plan = planned->Ok_0;
                let ticket = plan.requalification.ticket;
                &&& plan.attempt.stage == row.stage
                &&& plan.attempt.revision_column == row.attempt_revision + 1
                &&& plan.attempt.resulting_revision.value == row.attempt_revision + 1
                &&& ticket.ticket_id.value == row.ticket.ticket_id
                &&& ticket.ticket_revision_id.value == row.ticket_revision_id
                &&& ticket.revision_column == command.expected_ticket_revision.revision.value + 1
                &&& ticket.resulting_revision.value
                    == command.expected_ticket_revision.revision.value + 1
                &&& alike && passes ==> plan.outcome == ReleaseOutcome::Resolved
                    && plan.subject_kind == 37 && ticket.lifecycle == 5
                    && plan.requalification.requalification_outcome == 1
                &&& alike && !passes && fails_as_found ==> plan.outcome == ReleaseOutcome::Released
                    && plan.subject_kind == 36 && ticket.lifecycle == 1
                    && plan.requalification.requalification_outcome == 0
                &&& !alike || (!passes && !fails_as_found) ==> plan.outcome
                    == ReleaseOutcome::Blocked && plan.subject_kind == 38 && ticket.lifecycle == 4
                    && plan.requalification.requalification_outcome == 2
                    && plan.requalification.blocked_reason == Some(DIVERGED_REASON)
            }
        }),
{
}

/// A campaign is completed exactly when it runs at the expected revision and
/// has delivered its target; it is then completed by one revision.
pub proof fn law_campaign_is_completed_exactly_at_its_target(
    command: CompleteCampaignAtDeliveryTarget,
    campaign: Option<CompletionCampaignRow>,
    delivered_count: i64,
)
    ensures
        ({
            let planned = spec_complete(command, campaign, delivered_count);
            let row = campaign->0;
            let current = campaign is Some && row.revision >= 0 && row.revision
                == command.expected_campaign_revision.revision.value;
            &&& planned is Ok <==> current && row.lifecycle == 0 && delivered_count
                >= row.delivery_target && row.revision < i64::MAX
            &&& planned is Ok ==> planned->Ok_0.lifecycle == 1
                && planned->Ok_0.resulting_revision.value == row.revision + 1
                && planned->Ok_0.revision_column == row.revision + 1
            &&& planned == Err::<CompletionPlan, StoreError>(
                StoreError::CampaignDeliveryTargetNotReached,
            ) <==> current && row.lifecycle == 0 && delivered_count < row.delivery_target
            &&& planned == Err::<CompletionPlan, StoreError>(
                StoreError::CampaignClosed { campaign_id: command.campaign_id },
            ) <==> current && row.lifecycle != 0
        }),
{
}

/// What a repeated ticket command is answered comes from its receipt and from
/// the ticket as it now stands, and is marked as a repetition.
pub proof fn law_repeated_ticket_commands_answer_from_the_receipt(
    audit: Audit,
    ticket_row: Option<i64>,
    sponsor: SponsorTicketRevision,
    claim: ClaimSponsoredTicket,
    attempt_ticket_revision: Option<i64>,
    row: Option<TicketRevisionRow>,
    release: ReleaseTicketAttempt,
    attempt: Option<TicketAttemptRow>,
)
    ensures
        spec_replayed_proposal(audit, ticket_row) is Ok <==> audit.subject_id > 0 && ticket_row
            is Some && ticket_row->0 > 0,
        spec_replayed_proposal(audit, ticket_row) matches Ok(receipt) ==> receipt.ticket_id.value
            == ticket_row->0 && receipt.ticket_revision_id.value == audit.subject_id
            && receipt.resulting_revision == audit.resulting_revision && receipt.audit_log_id
            == audit.audit_log_id && receipt.was_idempotent_retry,
        spec_replayed_sponsorship(sponsor, audit, row) matches Ok(receipt) ==> row is Some
            && receipt.ticket_id.value == row->0.ticket_id && receipt.ticket_revision_id
            == sponsor.ticket_revision_id && receipt.resulting_revision == audit.resulting_revision
            && receipt.audit_log_id == audit.audit_log_id && receipt.was_idempotent_retry,
        spec_replayed_claim(claim, audit, attempt_ticket_revision, row) matches Ok(receipt) ==> {
            &&& row is Some && receipt.ticket_id.value == row->0.ticket_id
            &&& receipt.resulting_ticket_revision == audit.resulting_revision
            &&& receipt.audit_log_id == audit.audit_log_id
            &&& receipt.was_idempotent_retry
            &&& audit.subject_kind == 32 ==> receipt.outcome == (ClaimOutcome::Claimed {
                ticket_attempt_id: TicketAttemptId { value: audit.subject_id },
            }) && receipt.ticket_revision_id.value == attempt_ticket_revision->0
            &&& audit.subject_kind == 33 ==> receipt.outcome == ClaimOutcome::Resolved
                && receipt.ticket_revision_id == claim.ticket_revision_id
            &&& audit.subject_kind == 34 ==> receipt.outcome == ClaimOutcome::Blocked
                && receipt.ticket_revision_id == claim.ticket_revision_id
        },
        spec_replayed_release(release, audit, attempt) matches Ok(receipt) ==> {
            &&& attempt is Some && receipt.ticket_id.value == attempt->0.ticket.ticket_id
            &&& receipt.ticket_revision_id.value == attempt->0.ticket_revision_id
            &&& receipt.ticket_attempt_id == release.ticket_attempt_id
            &&& receipt.resulting_ticket_revision.value
                == attempt->0.ticket.ticket_aggregate_revision
            &&& receipt.resulting_attempt_revision == audit.resulting_revision
            &&& receipt.audit_log_id == audit.audit_log_id
            &&& receipt.was_idempotent_retry
        },
{
}

/// A proposal is looked up exactly when its key and snapshot are well formed
/// and the application known; it is then fresh without a receipt, and answered
/// by a receipt exactly when that is its own.
pub proof fn law_proposal_is_looked_up(
    command: SubmitTicketProposal,
    application: Option<ProposalApplicationRow>,
    audit: Option<AuditRow>,
)
    ensures
        ({
            let fresh = spec_admit_proposal(command, application, None);
            let answer = spec_admit_proposal(command, application, audit);
            let well_formed = {
                &&& crate::text::is_command_component(command.principal@)
                &&& crate::text::is_command_component(command.command_id@)
                &&& crate::text::is_bounded_text(command.discovery_commit@, 240)
                &&& crate::text::is_bounded_text(command.discovery_tree@, 240)
                &&& application is Some
            };
            let recorded = audit is Some && crate::audit::is_receipt_of(
                audit->0,
                "ticket.propose"@,
                blake3_of(proposal_preimage(command)),
                30,
            );
            &&& fresh == Ok::<Option<Audit>, StoreError>(None) <==> well_formed
            &&& answer is Ok <==> well_formed && (audit is None || recorded)
            &&& answer matches Ok(Some(receipt)) ==> crate::audit::repeats(receipt, audit->0)
            &&& audit is Some ==> answer != Ok::<Option<Audit>, StoreError>(None)
        }),
{
}

/// A sponsorship is looked up exactly when its key and reason are well formed;
/// it is then fresh without a receipt, and answered by a receipt exactly when
/// that is its own.
pub proof fn law_sponsorship_is_looked_up(
    command: SponsorTicketRevision,
    audit: Option<AuditRow>,
)
    ensures
        ({
            let fresh = spec_admit_sponsorship(command, None);
            let answer = spec_admit_sponsorship(command, audit);
            let well_formed = {
                &&& crate::text::is_command_component(command.principal@)
                &&& crate::text::is_command_component(command.command_id@)
                &&& crate::text::is_bounded_text(command.reason@, 4096)
            };
            let recorded = audit is Some && crate::audit::is_receipt_of(
                audit->0,
                "ticket.sponsor"@,
                blake3_of(sponsor_preimage(command)),
                31,
            );
            &&& fresh == Ok::<Option<Audit>, StoreError>(None) <==> well_formed
            &&& answer is Ok <==> well_formed && (audit is None || recorded)
            &&& answer matches Ok(Some(receipt)) ==> crate::audit::repeats(receipt, audit->0)
            &&& audit is Some ==> answer != Ok::<Option<Audit>, StoreError>(None)
        }),
{
}

/// A completion is looked up exactly when its key is well formed;
/// it is then fresh without a receipt, and answered by a receipt exactly when
/// that is its own.
pub proof fn law_completion_is_looked_up(
    command: CompleteCampaignAtDeliveryTarget,
    audit: Option<AuditRow>,
)
    ensures
        ({
            let fresh = spec_admit_completion(command, None);
            let answer = spec_admit_completion(command, audit);
            let well_formed = {
                &&& crate::text::is_command_component(command.principal@)
                &&& crate::text::is_command_component(command.command_id@)
            };
            let recorded = audit is Some && crate::audit::is_receipt_of(
                audit->0,
                "campaign.complete_delivery_target"@,
                blake3_of(completion_preimage(command)),
                39,
            );
            &&& fresh == Ok::<Option<Audit>, StoreError>(None) <==> well_formed
            &&& answer is Ok <==> well_formed && (audit is None || recorded)
            &&& answer matches Ok(Some(receipt)) ==> crate::audit::repeats(receipt, audit->0)
            &&& audit is Some ==> answer != Ok::<Option<Audit>, StoreError>(None)
        }),
{
}

/// A claim is looked up exactly when its key and requalification are well formed;
/// it is then fresh without a receipt, and answered by a receipt exactly when
/// that is its own.
pub proof fn law_claim_is_looked_up(
    command: ClaimSponsoredTicket,
    audit: Option<AuditRow>,
)
    ensures
        ({
            let fresh = spec_admit_claim(command, None);
            let answer = spec_admit_claim(command, audit);
            let well_formed = {
                &&& crate::text::is_command_component(command.principal@)
                &&& crate::text::is_command_component(command.command_id@)
                &&& crate::text::is_bounded_text(command.requalification.current_head_commit@, 240)
                &&& crate::text::is_bounded_text(command.requalification.current_head_tree@, 240)
            };
            let recorded = audit is Some && crate::audit::is_receipt_of(
                audit->0,
                "ticket.claim"@,
                blake3_of(claim_preimage(command)),
                audit->0.subject_kind,
            );
            &&& fresh == Ok::<Option<Audit>, StoreError>(None) <==> well_formed
            &&& answer is Ok <==> well_formed && (audit is None || recorded)
            &&& answer matches Ok(Some(receipt)) ==> crate::audit::repeats(receipt, audit->0)
            &&& audit is Some ==> answer != Ok::<Option<Audit>, StoreError>(None)
        }),
{
}

/// A release is looked up exactly when its key, reason and requalification are
/// well formed; it is then fresh without a receipt, and answered by a receipt
/// exactly when that is its own.
pub proof fn law_release_is_looked_up(
    command: ReleaseTicketAttempt,
    audit: Option<AuditRow>,
)
    ensures
        ({
            let fresh = spec_admit_release(command, None);
            let answer = spec_admit_release(command, audit);
            let well_formed = {
                &&& crate::text::is_command_component(command.principal@)
                &&& crate::text::is_command_component(command.command_id@)
                &&& crate::text::is_bounded_text(command.reason@, 4096)
                &&& crate::text::is_bounded_text(command.requalification.current_head_commit@, 240)
                &&& crate::text::is_bounded_text(command.requalification.current_head_tree@, 240)
            };
            let recorded = audit is Some && crate::audit::is_receipt_of(
                audit->0,
                "ticket_attempt.release"@,
                blake3_of(release_preimage(command)),
                audit->0.subject_kind,
            );
            &&& fresh == Ok::<Option<Audit>, StoreError>(None) <==> well_formed
            &&& answer is Ok <==> well_formed && (audit is None || recorded)
            &&& answer matches Ok(Some(receipt)) ==> crate::audit::repeats(receipt, audit->0)
            &&& audit is Some ==> answer != Ok::<Option<Audit>, StoreError>(None)
        }),
{
}

/// A command on an attempt is looked up exactly when its key and reason are well
/// formed; it is then fresh without a receipt, and answered by a receipt exactly
/// when that is its own.
pub proof fn law_attempt_command_is_looked_up(
    principal: String,
    command_id: String,
    reason: Seq<char>,
    reason_field: &'static str,
    audit: Option<AuditRow>,
    operation: Seq<char>,
    preimage: Seq<u8>,
    subject_kind: i16,
)
    ensures
        ({
            let answer = spec_admit_attempt(
                principal,
                command_id,
                reason,
                reason_field,
                audit,
                operation,
                preimage,
                subject_kind,
            );
            let well_formed = {
                &&& crate::text::is_command_component(principal@)
                &&& crate::text::is_command_component(command_id@)
                &&& crate::text::is_bounded_text(reason, 4096)
            };
            let recorded = audit is Some && crate::audit::is_receipt_of(
                audit->0,
                operation,
                blake3_of(preimage),
                subject_kind,
            );
            &&& answer is Ok <==> well_formed && (audit is None || recorded)
            &&& answer == Ok::<Option<Audit>, StoreError>(None) <==> well_formed && audit is None
            &&& answer matches Ok(Some(receipt)) ==> crate::audit::repeats(receipt, audit->0)
        }),
{
}

/// A fresh proposal's receipt names its rows at the first revision, and is there
/// exactly when both are identities.
pub proof fn law_proposal_receipt_names_its_rows(
    ticket_row: i64,
    revision_row: i64,
    audit_log_id: i64,
)
    ensures
        ({
            let made = spec_proposal_receipt(ticket_row, revision_row, audit_log_id);
            &&& made is Ok <==> ticket_row > 0 && revision_row > 0
            &&& made matches Ok(receipt) ==> {
                &&& receipt.ticket_id.value == ticket_row
                &&& receipt.ticket_revision_id.value == revision_row
                &&& receipt.resulting_revision.value == 0
                &&& receipt.audit_log_id == audit_log_id
                &&& !receipt.was_idempotent_retry
            }
        }),
{
}

} // verus!
