//! Ticket lifecycles: stored codes, locked rows, current-head requalification
//! and the bounded retry rules.

use vstd::prelude::*;

use crate::audit::{aggregate_revision_from_sql, spec_revision_from_sql, Audit};
use crate::error::StoreError;
use crate::identity::{
    is_identity, AggregateRevision, ApplicationRevisionId, ArtifactId, ContractError,
    ExpectedRevision, TicketAttemptId, TicketId, TicketRevisionId,
};
use crate::text::{
    bounded_text_ok, bytes_equal, command_component_ok, is_bounded_text, is_command_component,
};

verus! {

pub const TICKET_PROPOSED: i16 = 0;

pub const TICKET_SPONSORED: i16 = 1;

pub const TICKET_IN_FLIGHT: i16 = 2;

pub const TICKET_DELIVERED: i16 = 3;

pub const TICKET_BLOCKED: i16 = 4;

pub const TICKET_RESOLVED: i16 = 5;

pub const TICKET_SUPERSEDED: i16 = 6;

pub const TICKET_REJECTED: i16 = 7;

pub const ATTEMPT_ENGINEERING: i16 = 0;

pub const ATTEMPT_HARD_VALIDATION: i16 = 1;

pub const ATTEMPT_QUALITY: i16 = 2;

pub const ATTEMPT_AWAITING_ARCHITECT: i16 = 3;

pub const ATTEMPT_REWORK_ENGINEERING: i16 = 4;

pub const ATTEMPT_REWORK_VALIDATION: i16 = 5;

pub const ATTEMPT_REWORK_QUALITY: i16 = 6;

pub const ATTEMPT_DELIVERED: i16 = 7;

pub const ATTEMPT_FAILED: i16 = 8;

pub const ATTEMPT_CANCELLED: i16 = 9;

pub const CANDIDATE_SUBMITTED: i16 = 0;

pub const CANDIDATE_VALIDATED: i16 = 1;

pub const CANDIDATE_REJECTED: i16 = 2;

pub const CANDIDATE_ACCEPTED: i16 = 3;

pub const REQUALIFICATION_REPRODUCED: i16 = 0;

pub const REQUALIFICATION_RESOLVED: i16 = 1;

pub const REQUALIFICATION_DIVERGED: i16 = 2;

pub const CAMPAIGN_COMPLETED: i16 = 1;

pub const PROPOSAL_SUBJECT: i16 = 30;

pub const SPONSORSHIP_SUBJECT: i16 = 31;

pub const CLAIMED_ATTEMPT_SUBJECT: i16 = 32;

pub const CLAIM_RESOLVED_SUBJECT: i16 = 33;

pub const CLAIM_BLOCKED_SUBJECT: i16 = 34;

pub const FAILED_ATTEMPT_SUBJECT: i16 = 35;

pub const RELEASED_ATTEMPT_SUBJECT: i16 = 36;

pub const RELEASE_RESOLVED_SUBJECT: i16 = 37;

pub const RELEASE_BLOCKED_SUBJECT: i16 = 38;

pub const CAMPAIGN_COMPLETED_SUBJECT: i16 = 39;

pub const QUALITY_RETRY_SUBJECT: i16 = 45;

pub const ENGINEERING_RETRY_SUBJECT: i16 = 46;

pub const PROPOSE_OPERATION: &'static str = "ticket.propose";

pub const SPONSOR_OPERATION: &'static str = "ticket.sponsor";

pub const CLAIM_OPERATION: &'static str = "ticket.claim";

pub const FAIL_OPERATION: &'static str = "ticket_attempt.fail";

pub const RELEASE_OPERATION: &'static str = "ticket_attempt.release";

pub const QUALITY_RETRY_OPERATION: &'static str = "ticket_attempt.retry_quality";

pub const ENGINEERING_RETRY_OPERATION: &'static str = "ticket_attempt.retry_engineering";

pub const COMPLETE_CAMPAIGN_OPERATION: &'static str = "campaign.complete_delivery_target";

/// Explanation stored with a ticket whose fresh observation differs.
pub const DIVERGED_REASON: &'static str =
    "current-head reproducer differs from the sponsored failure";

/// Lifecycle of a ticket revision.
#[derive(Clone, Copy, Debug, PartialEq, Eq, Structural)]
pub enum TicketState {
    Proposed,
    Sponsored,
    InFlight,
    Delivered,
    Blocked,
    Resolved,
    Superseded,
    Rejected,
}

/// Stage of a ticket attempt.
#[derive(Clone, Copy, Debug, PartialEq, Eq, Structural)]
pub enum TicketAttemptStage {
    Engineering,
    HardValidation,
    Quality,
    AwaitingArchitect,
    ReworkEngineering,
    ReworkValidation,
    ReworkQuality,
    Delivered,
    Failed,
    Cancelled,
}

pub open spec fn spec_ticket_state_code(state: TicketState) -> i16 {
    match state {
        TicketState::Proposed => TICKET_PROPOSED,
        TicketState::Sponsored => TICKET_SPONSORED,
        TicketState::InFlight => TICKET_IN_FLIGHT,
        TicketState::Delivered => TICKET_DELIVERED,
        TicketState::Blocked => TICKET_BLOCKED,
        TicketState::Resolved => TICKET_RESOLVED,
        TicketState::Superseded => TICKET_SUPERSEDED,
        TicketState::Rejected => TICKET_REJECTED,
    }
}

pub open spec fn spec_ticket_state_from_sql(value: i16) -> Result<TicketState, StoreError> {
    if value == TICKET_PROPOSED {
        Ok(TicketState::Proposed)
    } else if value == TICKET_SPONSORED {
        Ok(TicketState::Sponsored)
    } else if value == TICKET_IN_FLIGHT {
        Ok(TicketState::InFlight)
    } else if value == TICKET_DELIVERED {
        Ok(TicketState::Delivered)
    } else if value == TICKET_BLOCKED {
        Ok(TicketState::Blocked)
    } else if value == TICKET_RESOLVED {
        Ok(TicketState::Resolved)
    } else if value == TICKET_SUPERSEDED {
        Ok(TicketState::Superseded)
    } else if value == TICKET_REJECTED {
        Ok(TicketState::Rejected)
    } else {
        Err(StoreError::CorruptTicketState)
    }
}

pub open spec fn spec_attempt_stage_code(stage: TicketAttemptStage) -> i16 {
    match stage {
        TicketAttemptStage::Engineering => ATTEMPT_ENGINEERING,
        TicketAttemptStage::HardValidation => ATTEMPT_HARD_VALIDATION,
        TicketAttemptStage::Quality => ATTEMPT_QUALITY,
        TicketAttemptStage::AwaitingArchitect => ATTEMPT_AWAITING_ARCHITECT,
        TicketAttemptStage::ReworkEngineering => ATTEMPT_REWORK_ENGINEERING,
        TicketAttemptStage::ReworkValidation => ATTEMPT_REWORK_VALIDATION,
        TicketAttemptStage::ReworkQuality => ATTEMPT_REWORK_QUALITY,
        TicketAttemptStage::Delivered => ATTEMPT_DELIVERED,
        TicketAttemptStage::Failed => ATTEMPT_FAILED,
        TicketAttemptStage::Cancelled => ATTEMPT_CANCELLED,
    }
}

/// Reads a ticket lifecycle column.
pub fn ticket_state_from_sql(value: i16) -> (result: Result<TicketState, StoreError>)
    ensures
        result == spec_ticket_state_from_sql(value),
{
    if value == TICKET_PROPOSED {
        Ok(TicketState::Proposed)
    } else if value == TICKET_SPONSORED {
        Ok(TicketState::Sponsored)
    } else if value == TICKET_IN_FLIGHT {
        Ok(TicketState::InFlight)
    } else if value == TICKET_DELIVERED {
        Ok(TicketState::Delivered)
    } else if value == TICKET_BLOCKED {
        Ok(TicketState::Blocked)
    } else if value == TICKET_RESOLVED {
        Ok(TicketState::Resolved)
    } else if value == TICKET_SUPERSEDED {
        Ok(TicketState::Superseded)
    } else if value == TICKET_REJECTED {
        Ok(TicketState::Rejected)
    } else {
        Err(StoreError::CorruptTicketState)
    }
}

/// Reads an attempt stage column.
pub fn ticket_attempt_stage_from_sql(value: i16) -> (result: Result<
    TicketAttemptStage,
    StoreError,
>)
    ensures
        match result {
            Ok(stage) => spec_attempt_stage_code(stage) == value,
            Err(fault) => (value < ATTEMPT_ENGINEERING || value > ATTEMPT_CANCELLED) && fault
                == StoreError::CorruptTicketState,
        },
{
    if value == ATTEMPT_ENGINEERING {
        Ok(TicketAttemptStage::Engineering)
    } else if value == ATTEMPT_HARD_VALIDATION {
        Ok(TicketAttemptStage::HardValidation)
    } else if value == ATTEMPT_QUALITY {
        Ok(TicketAttemptStage::Quality)
    } else if value == ATTEMPT_AWAITING_ARCHITECT {
        Ok(TicketAttemptStage::AwaitingArchitect)
    } else if value == ATTEMPT_REWORK_ENGINEERING {
        Ok(TicketAttemptStage::ReworkEngineering)
    } else if value == ATTEMPT_REWORK_VALIDATION {
        Ok(TicketAttemptStage::ReworkValidation)
    } else if value == ATTEMPT_REWORK_QUALITY {
        Ok(TicketAttemptStage::ReworkQuality)
    } else if value == ATTEMPT_DELIVERED {
        Ok(TicketAttemptStage::Delivered)
    } else if value == ATTEMPT_FAILED {
        Ok(TicketAttemptStage::Failed)
    } else if value == ATTEMPT_CANCELLED {
        Ok(TicketAttemptStage::Cancelled)
    } else {
        Err(StoreError::CorruptTicketState)
    }
}

/// A stored ticket state reads back as itself, and two states never share a
/// code.
pub proof fn law_ticket_state_round_trips(state: TicketState, code: i16)
    ensures
        spec_ticket_state_from_sql(spec_ticket_state_code(state)) == Ok::<TicketState, StoreError>(
            state,
        ),
        spec_ticket_state_from_sql(code) == Ok::<TicketState, StoreError>(state) ==> code
            == spec_ticket_state_code(state),
{
}

/// A ticket command key is well formed when principal and command ID both are.
pub open spec fn spec_validate_ticket_key(principal: Seq<char>, command_id: Seq<char>) -> Result<
    (),
    StoreError,
> {
    if !is_command_component(principal) {
        Err(StoreError::InvalidCommandComponent { field: "principal" })
    } else if !is_command_component(command_id) {
        Err(StoreError::InvalidCommandComponent { field: "command ID" })
    } else {
        Ok(())
    }
}

/// Refuses a malformed principal or command ID of a ticket command.
pub fn validate_command(principal: &str, command_id: &str) -> (result: Result<(), StoreError>)
    ensures
        result == spec_validate_ticket_key(principal@, command_id@),
{
    if !command_component_ok(principal) {
        return Err(StoreError::InvalidCommandComponent { field: "principal" });
    }
    if !command_component_ok(command_id) {
        return Err(StoreError::InvalidCommandComponent { field: "command ID" });
    }
    Ok(())
}

pub open spec fn spec_validate_snapshot(value: Seq<char>, field: &'static str) -> Result<
    (),
    StoreError,
> {
    if is_bounded_text(value, 240) {
        Ok(())
    } else {
        Err(StoreError::InvalidTicketField { field })
    }
}

/// Refuses a commit or tree name that is empty, over 240 bytes or holds NUL.
pub fn validate_snapshot(value: &str, field: &'static str) -> (result: Result<(), StoreError>)
    ensures
        result == spec_validate_snapshot(value@, field),
{
    if bounded_text_ok(value, 240) {
        Ok(())
    } else {
        Err(StoreError::InvalidTicketField { field })
    }
}

pub open spec fn spec_validate_reason(value: Seq<char>, field: &'static str) -> Result<
    (),
    StoreError,
> {
    if is_bounded_text(value, 4096) {
        Ok(())
    } else {
        Err(StoreError::InvalidTicketField { field })
    }
}

/// Refuses a reason that is empty, over 4096 bytes or holds NUL.
pub fn validate_reason(value: &str, field: &'static str) -> (result: Result<(), StoreError>)
    ensures
        result == spec_validate_reason(value@, field),
{
    if bounded_text_ok(value, 4096) {
        Ok(())
    } else {
        Err(StoreError::InvalidTicketField { field })
    }
}

pub open spec fn spec_u32_from_sql(value: i64, field: &'static str) -> Result<u32, StoreError> {
    if 0 <= value <= u32::MAX {
        Ok(value as u32)
    } else {
        Err(StoreError::InvalidTicketField { field })
    }
}

/// Reads a count column.
pub fn u32_from_sql(value: i64, field: &'static str) -> (result: Result<u32, StoreError>)
    ensures
        result == spec_u32_from_sql(value, field),
{
    if 0 <= value && value <= u32::MAX as i64 {
        Ok(value as u32)
    } else {
        Err(StoreError::InvalidTicketField { field })
    }
}

pub open spec fn spec_require_ticket_state(required: TicketState, observed: TicketState) -> Result<
    (),
    StoreError,
> {
    if required == observed {
        Ok(())
    } else {
        Err(StoreError::TicketStateConflict { required, observed })
    }
}

/// Holds a ticket to the state a transition starts from.
pub fn require_ticket_state(required: TicketState, observed: TicketState) -> (result: Result<
    (),
    StoreError,
>)
    ensures
        result == spec_require_ticket_state(required, observed),
{
    if required == observed {
        Ok(())
    } else {
        Err(StoreError::TicketStateConflict { required, observed })
    }
}

pub open spec fn spec_require_expected(
    expected: ExpectedRevision,
    current: AggregateRevision,
) -> Result<(), StoreError> {
    if expected.revision == current {
        Ok(())
    } else {
        Err(StoreError::RevisionConflict { expected, current })
    }
}

/// Holds an aggregate to the revision its caller expects.
pub fn require_expected(expected: ExpectedRevision, current: AggregateRevision) -> (result: Result<
    (),
    StoreError,
>)
    ensures
        result == spec_require_expected(expected, current),
{
    if expected.revision == current {
        Ok(())
    } else {
        Err(StoreError::RevisionConflict { expected, current })
    }
}

/// A ticket revision joined to its ticket, as their columns hold them.
#[derive(Clone, Copy, Debug, PartialEq, Eq, Structural)]
pub struct TicketRevisionRow {
    pub ticket_id: i64,
    pub application_revision_id: i64,
    pub ticket_revision_lifecycle: i16,
    pub ticket_revision_aggregate_revision: i64,
    pub expected_observation_artifact_id: i64,
    pub discovery_observation_artifact_id: i64,
    pub ticket_lifecycle: i16,
    pub ticket_aggregate_revision: i64,
    pub current_ticket_revision_id: i64,
}

/// A locked, internally consistent ticket revision.
#[derive(Clone, Copy, Debug, PartialEq, Eq, Structural)]
pub struct TicketRevisionLocked {
    pub ticket_id: TicketId,
    pub ticket_revision_id: TicketRevisionId,
    pub application_revision_id: ApplicationRevisionId,
    pub state: TicketState,
    pub revision: AggregateRevision,
    pub expected_observation_artifact_id: ArtifactId,
    pub discovery_observation_artifact_id: ArtifactId,
}

/// A ticket attempt joined to its ticket revision.
#[derive(Clone, Copy, Debug, PartialEq, Eq, Structural)]
pub struct TicketAttemptRow {
    pub ticket_revision_id: i64,
    pub stage: i16,
    pub released: bool,
    pub attempt_revision: i64,
    pub ticket: TicketRevisionRow,
}

/// A locked attempt and the ticket revision it works on.
#[derive(Clone, Copy, Debug, PartialEq, Eq, Structural)]
pub struct TicketAttemptLocked {
    pub ticket_id: TicketId,
    pub ticket_revision_id: TicketRevisionId,
    pub stage: i16,
    pub released: bool,
    pub revision: AggregateRevision,
    pub ticket_revision: AggregateRevision,
    pub ticket_state: TicketState,
    pub ticket: TicketRevisionLocked,
}

/// The refusal of an identity column that is not positive.
pub open spec fn bad_identity() -> StoreError {
    StoreError::Contract(ContractError::NonPositiveIdentity)
}

/// Whether ticket and ticket revision agree that this revision is current,
/// and on its lifecycle and revision.
pub open spec fn ticket_row_consistent(
    row: TicketRevisionRow,
    ticket_revision_id: TicketRevisionId,
) -> bool {
    &&& row.current_ticket_revision_id == ticket_revision_id.value
    &&& spec_ticket_state_from_sql(row.ticket_revision_lifecycle) is Ok
    &&& row.ticket_revision_lifecycle == row.ticket_lifecycle
    &&& row.ticket_revision_aggregate_revision == row.ticket_aggregate_revision
}

/// A ticket revision row read under lock.
pub open spec fn spec_locked_ticket(
    row: TicketRevisionRow,
    ticket_revision_id: TicketRevisionId,
) -> Result<TicketRevisionLocked, StoreError> {
    if !ticket_row_consistent(row, ticket_revision_id) {
        Err(StoreError::CorruptTicketState)
    } else if !is_identity(row.ticket_id) || !is_identity(row.application_revision_id) {
        Err(bad_identity())
    } else if row.ticket_revision_aggregate_revision < 0 {
        Err(StoreError::RevisionOutOfRange)
    } else if !is_identity(row.expected_observation_artifact_id) || !is_identity(
        row.discovery_observation_artifact_id,
    ) {
        Err(bad_identity())
    } else {
        Ok(
            TicketRevisionLocked {
                ticket_id: TicketId { value: row.ticket_id },
                ticket_revision_id,
                application_revision_id: ApplicationRevisionId {
                    value: row.application_revision_id,
                },
                state: spec_ticket_state_from_sql(row.ticket_revision_lifecycle)->Ok_0,
                revision: AggregateRevision { value: row.ticket_revision_aggregate_revision as u64 },
                expected_observation_artifact_id: ArtifactId {
                    value: row.expected_observation_artifact_id,
                },
                discovery_observation_artifact_id: ArtifactId {
                    value: row.discovery_observation_artifact_id,
                },
            },
        )
    }
}

fn locked_ticket(row: TicketRevisionRow, ticket_revision_id: TicketRevisionId) -> (result: Result<
    TicketRevisionLocked,
    StoreError,
>)
    ensures
        result == spec_locked_ticket(row, ticket_revision_id),
{
    if row.current_ticket_revision_id != ticket_revision_id.value {
        return Err(StoreError::CorruptTicketState);
    }
    let state = match ticket_state_from_sql(row.ticket_revision_lifecycle) {
        Ok(state) => state,
        Err(fault) => return Err(fault),
    };
    let ticket_state = match ticket_state_from_sql(row.ticket_lifecycle) {
        Ok(state) => state,
        Err(fault) => return Err(fault),
    };
    if state != ticket_state {
        return Err(StoreError::CorruptTicketState);
    }
    if row.ticket_revision_aggregate_revision != row.ticket_aggregate_revision {
        return Err(StoreError::CorruptTicketState);
    }
    let ticket_id = match TicketId::new(row.ticket_id) {
        Ok(id) => id,
        Err(fault) => return Err(StoreError::Contract(fault)),
    };
    let application_revision_id = match ApplicationRevisionId::new(row.application_revision_id) {
        Ok(id) => id,
        Err(fault) => return Err(StoreError::Contract(fault)),
    };
    let revision = match aggregate_revision_from_sql(row.ticket_revision_aggregate_revision) {
        Ok(revision) => revision,
        Err(fault) => return Err(fault),
    };
    let expected_observation_artifact_id = match ArtifactId::new(
        row.expected_observation_artifact_id,
    ) {
        Ok(id) => id,
        Err(fault) => return Err(StoreError::Contract(fault)),
    };
    let discovery_observation_artifact_id = match ArtifactId::new(
        row.discovery_observation_artifact_id,
    ) {
        Ok(id) => id,
        Err(fault) => return Err(StoreError::Contract(fault)),
    };
    Ok(
        TicketRevisionLocked {
            ticket_id,
            ticket_revision_id,
            application_revision_id,
            state,
            revision,
            expected_observation_artifact_id,
            discovery_observation_artifact_id,
        },
    )
}

/// A ticket revision looked up under lock.
pub open spec fn spec_lock_ticket_revision(
    row: Option<TicketRevisionRow>,
    ticket_revision_id: TicketRevisionId,
) -> Result<TicketRevisionLocked, StoreError> {
    match row {
        None => Err(StoreError::UnknownTicketRevision { ticket_revision_id }),
        Some(row) => spec_locked_ticket(row, ticket_revision_id),
    }
}

/// Reads a ticket revision under lock and refuses an inconsistent one.
pub fn lock_ticket_revision(
    row: Option<TicketRevisionRow>,
    ticket_revision_id: TicketRevisionId,
) -> (result: Result<TicketRevisionLocked, StoreError>)
    ensures
        result == spec_lock_ticket_revision(row, ticket_revision_id),
{
    match row {
        None => Err(StoreError::UnknownTicketRevision { ticket_revision_id }),
        Some(row) => locked_ticket(row, ticket_revision_id),
    }
}

/// A ticket attempt looked up under lock.
pub open spec fn spec_lock_ticket_attempt(
    row: Option<TicketAttemptRow>,
    ticket_attempt_id: TicketAttemptId,
) -> Result<TicketAttemptLocked, StoreError> {
    match row {
        None => Err(StoreError::UnknownTicketAttempt { ticket_attempt_id }),
        Some(row) => if !is_identity(row.ticket_revision_id) {
            Err(bad_identity())
        } else {
            match spec_locked_ticket(
                row.ticket,
                TicketRevisionId { value: row.ticket_revision_id },
            ) {
                Err(fault) => Err(fault),
                Ok(ticket) => match spec_revision_from_sql(row.attempt_revision) {
                    Err(fault) => Err(fault),
                    Ok(revision) => Ok(
                        TicketAttemptLocked {
                            ticket_id: ticket.ticket_id,
                            ticket_revision_id: ticket.ticket_revision_id,
                            stage: row.stage,
                            released: row.released,
                            revision,
                            ticket_revision: ticket.revision,
                            ticket_state: ticket.state,
                            ticket,
                        },
                    ),
                },
            }
        },
    }
}

/// Reads a ticket attempt under lock and refuses an inconsistent one.
pub fn lock_ticket_attempt(
    row: Option<TicketAttemptRow>,
    ticket_attempt_id: TicketAttemptId,
) -> (result: Result<TicketAttemptLocked, StoreError>)
    ensures
        result == spec_lock_ticket_attempt(row, ticket_attempt_id),
{
    let row = match row {
        None => return Err(StoreError::UnknownTicketAttempt { ticket_attempt_id }),
        Some(row) => row,
    };
    let ticket_revision_id = match TicketRevisionId::new(row.ticket_revision_id) {
        Ok(id) => id,
        Err(fault) => return Err(StoreError::Contract(fault)),
    };
    let ticket = match locked_ticket(row.ticket, ticket_revision_id) {
        Ok(ticket) => ticket,
        Err(fault) => return Err(fault),
    };
    let revision = match aggregate_revision_from_sql(row.attempt_revision) {
        Ok(revision) => revision,
        Err(fault) => return Err(fault),
    };
    Ok(
        TicketAttemptLocked {
            ticket_id: ticket.ticket_id,
            ticket_revision_id,
            stage: row.stage,
            released: row.released,
            revision,
            ticket_revision: ticket.revision,
            ticket_state: ticket.state,
            ticket,
        },
    )
}

/// Why an artifact's digest column cannot be used, if it cannot.
pub open spec fn digest_column_fault(row: Option<Seq<u8>>, artifact_id: ArtifactId) -> Option<
    StoreError,
> {
    match row {
        None => Some(StoreError::UnknownArtifact { artifact_id }),
        Some(digest) => if digest.len() != 32 {
            Some(StoreError::CorruptDigestColumn)
        } else {
            None
        },
    }
}

/// What an optional byte column holds.
pub open spec fn column_bytes(row: Option<Vec<u8>>) -> Option<Seq<u8>> {
    match row {
        Some(bytes) => Some(bytes@),
        None => None,
    }
}

/// Reads the digest column of one artifact.
pub fn artifact_digest<'a>(row: &'a Option<Vec<u8>>, artifact_id: ArtifactId) -> (result: Result<
    &'a [u8],
    StoreError,
>)
    ensures
        match result {
            Ok(digest) => digest_column_fault(column_bytes(*row), artifact_id) is None
                && column_bytes(*row) == Some(digest@),
            Err(fault) => digest_column_fault(column_bytes(*row), artifact_id) == Some(fault),
        },
{
    match row {
        None => Err(StoreError::UnknownArtifact { artifact_id }),
        Some(digest) => if digest.len() != 32 {
            Err(StoreError::CorruptDigestColumn)
        } else {
            Ok(digest.as_slice())
        },
    }
}

/// What two fresh runs of a stored reproducer show.
#[derive(Clone, Copy, Debug, PartialEq, Eq, Structural)]
pub enum RequalificationOutcome {
    Reproduced,
    Resolved,
    Diverged,
}

/// An exact re-run of a stored reproducer on one clean current head.
#[derive(Clone, Debug, PartialEq, Eq)]
pub struct CurrentHeadRequalification {
    pub current_head_commit: String,
    pub current_head_tree: String,
    pub first_actual_observation_artifact_id: ArtifactId,
    pub second_actual_observation_artifact_id: ArtifactId,
}

pub open spec fn spec_validate_requalification(value: CurrentHeadRequalification) -> Result<
    (),
    StoreError,
> {
    match spec_validate_snapshot(value.current_head_commit@, "current-head commit") {
        Err(fault) => Err(fault),
        Ok(()) => spec_validate_snapshot(value.current_head_tree@, "current-head tree"),
    }
}

/// Refuses a requalification with a malformed commit or tree.
pub fn validate_requalification(value: &CurrentHeadRequalification) -> (result: Result<
    (),
    StoreError,
>)
    ensures
        result == spec_validate_requalification(*value),
{
    match validate_snapshot(value.current_head_commit.as_str(), "current-head commit") {
        Err(fault) => Err(fault),
        Ok(()) => validate_snapshot(value.current_head_tree.as_str(), "current-head tree"),
    }
}

/// The digest columns a requalification is judged by.
#[derive(Clone, Debug, PartialEq, Eq)]
pub struct RequalificationDigests {
    pub expected: Option<Vec<u8>>,
    pub discovery: Option<Vec<u8>>,
    pub first: Option<Vec<u8>>,
    pub second: Option<Vec<u8>>,
}

/// Why a requalification cannot be judged, if it cannot.
pub open spec fn requalification_fault(
    ticket: TicketRevisionLocked,
    requalification: CurrentHeadRequalification,
    digests: RequalificationDigests,
) -> Option<StoreError> {
    let expected = digest_column_fault(
        column_bytes(digests.expected),
        ticket.expected_observation_artifact_id,
    );
    let discovery = digest_column_fault(
        column_bytes(digests.discovery),
        ticket.discovery_observation_artifact_id,
    );
    let first = digest_column_fault(
        column_bytes(digests.first),
        requalification.first_actual_observation_artifact_id,
    );
    let second = digest_column_fault(
        column_bytes(digests.second),
        requalification.second_actual_observation_artifact_id,
    );
    if expected is Some {
        expected
    } else if discovery is Some {
        discovery
    } else if first is Some {
        first
    } else {
        second
    }
}

/// The judgement: two runs that agree and show the expected observation
/// resolve the ticket, two that agree and show the discovered failure
/// reproduce it, and anything else diverges.
pub open spec fn requalification_outcome(digests: RequalificationDigests) -> RequalificationOutcome {
    let first = column_bytes(digests.first);
    if first != column_bytes(digests.second) {
        RequalificationOutcome::Diverged
    } else if first == column_bytes(digests.expected) {
        RequalificationOutcome::Resolved
    } else if first == column_bytes(digests.discovery) {
        RequalificationOutcome::Reproduced
    } else {
        RequalificationOutcome::Diverged
    }
}

/// Judges a requalification by the digests of its observations.
pub fn classify_requalification(
    ticket: &TicketRevisionLocked,
    requalification: &CurrentHeadRequalification,
    digests: &RequalificationDigests,
) -> (result: Result<RequalificationOutcome, StoreError>)
    ensures
        match result {
            Ok(outcome) => requalification_fault(*ticket, *requalification, *digests) is None
                && outcome == requalification_outcome(*digests),
            Err(fault) => requalification_fault(*ticket, *requalification, *digests) == Some(fault),
        },
{
    let expected = match artifact_digest(
        &digests.expected,
        ticket.expected_observation_artifact_id,
    ) {
        Ok(digest) => digest,
        Err(fault) => return Err(fault),
    };
    let discovery = match artifact_digest(
        &digests.discovery,
        ticket.discovery_observation_artifact_id,
    ) {
        Ok(digest) => digest,
        Err(fault) => return Err(fault),
    };
    let first = match artifact_digest(
        &digests.first,
        requalification.first_actual_observation_artifact_id,
    ) {
        Ok(digest) => digest,
        Err(fault) => return Err(fault),
    };
    let second = match artifact_digest(
        &digests.second,
        requalification.second_actual_observation_artifact_id,
    ) {
        Ok(digest) => digest,
        Err(fault) => return Err(fault),
    };
    if !bytes_equal(first, second) {
        return Ok(RequalificationOutcome::Diverged);
    }
    if bytes_equal(first, expected) {
        return Ok(RequalificationOutcome::Resolved);
    }
    if bytes_equal(first, discovery) {
        return Ok(RequalificationOutcome::Reproduced);
    }
    Ok(RequalificationOutcome::Diverged)
}

/// A requalification reproduces the ticket only when both runs show exactly
/// the discovered failure and not the expected observation.
pub proof fn law_reproduction_is_exact(digests: RequalificationDigests)
    ensures
        requalification_outcome(digests) == RequalificationOutcome::Reproduced <==> (column_bytes(
            digests.first,
        ) == column_bytes(digests.second) && column_bytes(digests.first) == column_bytes(
            digests.discovery,
        ) && column_bytes(digests.first) != column_bytes(digests.expected)),
        requalification_outcome(digests) == RequalificationOutcome::Resolved <==> (column_bytes(
            digests.first,
        ) == column_bytes(digests.second) && column_bytes(digests.first) == column_bytes(
            digests.expected,
        )),
{
}

/// Whether Quality may be retried: an attempt in Quality or failed, over a
/// validated and committed candidate, that was not retried before.
pub open spec fn quality_retry_allowed(
    attempt_stage: i16,
    candidate_lifecycle: i16,
    candidate_commit_present: bool,
    prior_quality_retry_exists: bool,
) -> bool {
    &&& attempt_stage == ATTEMPT_QUALITY || attempt_stage == ATTEMPT_FAILED
    &&& candidate_lifecycle == CANDIDATE_VALIDATED
    &&& candidate_commit_present
    &&& !prior_quality_retry_exists
}

/// Whether Quality may be retried.
pub fn can_retry_quality_attempt(
    attempt_stage: i16,
    candidate_lifecycle: i16,
    candidate_commit_present: bool,
    prior_quality_retry_exists: bool,
) -> (allowed: bool)
    ensures
        allowed == quality_retry_allowed(
            attempt_stage,
            candidate_lifecycle,
            candidate_commit_present,
            prior_quality_retry_exists,
        ),
{
    (attempt_stage == ATTEMPT_QUALITY || attempt_stage == ATTEMPT_FAILED) && candidate_lifecycle
        == CANDIDATE_VALIDATED && candidate_commit_present && !prior_quality_retry_exists
}

/// Whether Engineering may be retried: a failed attempt that left no candidate
/// and was not retried before.
pub open spec fn engineering_retry_allowed(
    attempt_stage: i16,
    candidate_exists: bool,
    prior_engineering_retry_exists: bool,
) -> bool {
    attempt_stage == ATTEMPT_FAILED && !candidate_exists && !prior_engineering_retry_exists
}

/// Whether Engineering may be retried.
pub fn can_retry_engineering_attempt(
    attempt_stage: i16,
    candidate_exists: bool,
    prior_engineering_retry_exists: bool,
) -> (allowed: bool)
    ensures
        allowed == engineering_retry_allowed(
            attempt_stage,
            candidate_exists,
            prior_engineering_retry_exists,
        ),
{
    attempt_stage == ATTEMPT_FAILED && !candidate_exists && !prior_engineering_retry_exists
}

/// What a claim led to.
#[derive(Clone, Copy, Debug, PartialEq, Eq, Structural)]
pub enum ClaimOutcome {
    Claimed { ticket_attempt_id: TicketAttemptId },
    Resolved,
    Blocked,
}

/// What a release led to.
#[derive(Clone, Copy, Debug, PartialEq, Eq, Structural)]
pub enum ReleaseOutcome {
    Released,
    Resolved,
    Blocked,
}

pub open spec fn spec_claim_outcome(receipt: Audit) -> Result<ClaimOutcome, StoreError> {
    if receipt.subject_kind == CLAIMED_ATTEMPT_SUBJECT {
        if is_identity(receipt.subject_id) {
            Ok(
                ClaimOutcome::Claimed {
                    ticket_attempt_id: TicketAttemptId { value: receipt.subject_id },
                },
            )
        } else {
            Err(bad_identity())
        }
    } else if receipt.subject_kind == CLAIM_RESOLVED_SUBJECT {
        Ok(ClaimOutcome::Resolved)
    } else if receipt.subject_kind == CLAIM_BLOCKED_SUBJECT {
        Ok(ClaimOutcome::Blocked)
    } else {
        Err(StoreError::AuditSubjectKindMismatch)
    }
}

/// Reads a claim's outcome back from its receipt.
pub fn claim_outcome_from_receipt(receipt: &Audit) -> (result: Result<ClaimOutcome, StoreError>)
    ensures
        result == spec_claim_outcome(*receipt),
{
    if receipt.subject_kind == CLAIMED_ATTEMPT_SUBJECT {
        match TicketAttemptId::new(receipt.subject_id) {
            Ok(ticket_attempt_id) => Ok(ClaimOutcome::Claimed { ticket_attempt_id }),
            Err(fault) => Err(StoreError::Contract(fault)),
        }
    } else if receipt.subject_kind == CLAIM_RESOLVED_SUBJECT {
        Ok(ClaimOutcome::Resolved)
    } else if receipt.subject_kind == CLAIM_BLOCKED_SUBJECT {
        Ok(ClaimOutcome::Blocked)
    } else {
        Err(StoreError::AuditSubjectKindMismatch)
    }
}

pub open spec fn spec_release_outcome(receipt: Audit) -> Result<ReleaseOutcome, StoreError> {
    if receipt.subject_kind == RELEASED_ATTEMPT_SUBJECT {
        Ok(ReleaseOutcome::Released)
    } else if receipt.subject_kind == RELEASE_RESOLVED_SUBJECT {
        Ok(ReleaseOutcome::Resolved)
    } else if receipt.subject_kind == RELEASE_BLOCKED_SUBJECT {
        Ok(ReleaseOutcome::Blocked)
    } else {
        Err(StoreError::AuditSubjectKindMismatch)
    }
}

/// Reads a release's outcome back from its receipt.
pub fn release_outcome_from_receipt(receipt: &Audit) -> (result: Result<
    ReleaseOutcome,
    StoreError,
>)
    ensures
        result == spec_release_outcome(*receipt),
{
    if receipt.subject_kind == RELEASED_ATTEMPT_SUBJECT {
        Ok(ReleaseOutcome::Released)
    } else if receipt.subject_kind == RELEASE_RESOLVED_SUBJECT {
        Ok(ReleaseOutcome::Resolved)
    } else if receipt.subject_kind == RELEASE_BLOCKED_SUBJECT {
        Ok(ReleaseOutcome::Blocked)
    } else {
        Err(StoreError::AuditSubjectKindMismatch)
    }
}

/// Whether a row is the current revision of its ticket, in this state at this
/// revision on both, and names only durable identities.
pub open spec fn stands_at(
    row: TicketRevisionRow,
    ticket_revision_id: TicketRevisionId,
    lifecycle: i16,
    revision: u64,
) -> bool {
    &&& row.current_ticket_revision_id == ticket_revision_id.value
    &&& row.ticket_lifecycle == lifecycle
    &&& row.ticket_revision_lifecycle == lifecycle
    &&& row.ticket_aggregate_revision == revision
    &&& row.ticket_revision_aggregate_revision == revision
    &&& row.ticket_id > 0
    &&& row.application_revision_id > 0
    &&& row.expected_observation_artifact_id > 0
    &&& row.discovery_observation_artifact_id > 0
}

/// A ticket revision is locked exactly where its row is consistent, and is then
/// what its own columns say.
pub proof fn law_locked_ticket_is_its_row(
    row: TicketRevisionRow,
    ticket_revision_id: TicketRevisionId,
    state: TicketState,
    revision: u64,
)
    requires
        revision <= i64::MAX,
    ensures
        ({
            let locked = spec_lock_ticket_revision(Some(row), ticket_revision_id);
            let code = match state {
                TicketState::Proposed => 0i16,
                TicketState::Sponsored => 1,
                TicketState::InFlight => 2,
                TicketState::Delivered => 3,
                TicketState::Blocked => 4,
                TicketState::Resolved => 5,
                TicketState::Superseded => 6,
                TicketState::Rejected => 7,
            };
            &&& stands_at(row, ticket_revision_id, code, revision) <==> locked is Ok
                && locked->Ok_0.state == state && locked->Ok_0.revision.value == revision
            &&& locked is Ok ==> {
                &&& locked->Ok_0.ticket_id.value == row.ticket_id
                &&& locked->Ok_0.ticket_revision_id == ticket_revision_id
                &&& locked->Ok_0.application_revision_id.value == row.application_revision_id
                &&& locked->Ok_0.expected_observation_artifact_id.value
                    == row.expected_observation_artifact_id
                &&& locked->Ok_0.discovery_observation_artifact_id.value
                    == row.discovery_observation_artifact_id
            }
        }),
{
}

/// Two equal fresh runs reproduce a ticket where they show its discovered
/// failure, and resolve it where they show the expected observation, which goes
/// first. Every other pair of runs diverges.
pub proof fn law_requalification_compares_runs(digests: RequalificationDigests)
    requires
        digests.expected is Some,
        digests.discovery is Some,
        digests.first is Some,
        digests.second is Some,
    ensures
        ({
            let outcome = requalification_outcome(digests);
            let alike = digests.first->0@ == digests.second->0@;
            let passes = digests.first->0@ == digests.expected->0@;
            let fails_as_found = digests.first->0@ == digests.discovery->0@;
            &&& outcome == RequalificationOutcome::Resolved <==> alike && passes
            &&& outcome == RequalificationOutcome::Reproduced <==> alike && !passes
                && fails_as_found
            &&& outcome == RequalificationOutcome::Diverged <==> !alike || (!passes
                && !fails_as_found)
        }),
{
}

/// A performed claim or release is read back from the kind of its receipt.
pub proof fn law_receipt_kind_names_the_outcome(receipt: Audit)
    ensures
        spec_claim_outcome(receipt) is Ok <==> (receipt.subject_kind == 32 && receipt.subject_id
            > 0) || receipt.subject_kind == 33 || receipt.subject_kind == 34,
        spec_claim_outcome(receipt) matches Ok(ClaimOutcome::Claimed { ticket_attempt_id })
            ==> receipt.subject_kind == 32 && ticket_attempt_id.value == receipt.subject_id,
        spec_claim_outcome(receipt) matches Ok(ClaimOutcome::Resolved) ==> receipt.subject_kind
            == 33,
        spec_claim_outcome(receipt) matches Ok(ClaimOutcome::Blocked) ==> receipt.subject_kind
            == 34,
        spec_release_outcome(receipt) is Ok <==> 36 <= receipt.subject_kind <= 38,
        spec_release_outcome(receipt) matches Ok(ReleaseOutcome::Released) ==> receipt.subject_kind
            == 36,
        spec_release_outcome(receipt) matches Ok(ReleaseOutcome::Resolved) ==> receipt.subject_kind
            == 37,
        spec_release_outcome(receipt) matches Ok(ReleaseOutcome::Blocked) ==> receipt.subject_kind
            == 38,
{
}

/// Keys, reasons and snapshots of ticket commands are bounded, and each refusal
/// names the field that is not.
pub proof fn law_ticket_fields_are_bounded(
    principal: Seq<char>,
    command_id: Seq<char>,
    value: Seq<char>,
    field: &'static str,
    requalification: CurrentHeadRequalification,
)
    ensures
        spec_validate_ticket_key(principal, command_id) is Ok <==> is_command_component(principal)
            && is_command_component(command_id),
        spec_validate_reason(value, field) is Ok <==> is_bounded_text(value, 4096),
        spec_validate_snapshot(value, field) is Ok <==> is_bounded_text(value, 240),
        spec_validate_reason(value, field) matches Err(fault) ==> fault == (
        StoreError::InvalidTicketField { field }),
        spec_validate_snapshot(value, field) matches Err(fault) ==> fault == (
        StoreError::InvalidTicketField { field }),
        spec_validate_requalification(requalification) is Ok <==> is_bounded_text(
            requalification.current_head_commit@,
            240,
        ) && is_bounded_text(requalification.current_head_tree@, 240),
{
}

/// Which number stands for which stage of an attempt.
pub proof fn law_attempt_stages_have_codes(stage: TicketAttemptStage)
    ensures
        spec_attempt_stage_code(stage) == (match stage {
            TicketAttemptStage::Engineering => 0i16,
            TicketAttemptStage::HardValidation => 1,
            TicketAttemptStage::Quality => 2,
            TicketAttemptStage::AwaitingArchitect => 3,
            TicketAttemptStage::ReworkEngineering => 4,
            TicketAttemptStage::ReworkValidation => 5,
            TicketAttemptStage::ReworkQuality => 6,
            TicketAttemptStage::Delivered => 7,
            TicketAttemptStage::Failed => 8,
            TicketAttemptStage::Cancelled => 9,
        }),
{
}

} // verus!
