//! Read-only ticket projections: buffer pressure, the downstream head with its
//! evidence, and the fences of recoverable failures.

use vstd::prelude::*;

use crate::audit::{aggregate_revision_from_sql, spec_revision_from_sql};
use crate::error::StoreError;
use crate::identity::{
    is_identity, AggregateRevision, ApplicationRevisionId, ArchitectDecisionId, ArtifactId,
    CampaignId, CandidateId, RepositoryId, ReviewId, TicketAttemptId, TicketId, TicketRevisionId,
    ValidationId,
};
use crate::protocol::{COST_KNOWN, RUNNING};
use crate::ticket::{
    bad_identity, lock_ticket_attempt, spec_lock_ticket_attempt, spec_ticket_state_from_sql,
    spec_u32_from_sql, ticket_state_from_sql, u32_from_sql, TicketAttemptRow, TicketState,
    ATTEMPT_AWAITING_ARCHITECT, ATTEMPT_HARD_VALIDATION, ATTEMPT_QUALITY,
    ATTEMPT_REWORK_ENGINEERING, ATTEMPT_REWORK_QUALITY, ATTEMPT_REWORK_VALIDATION,
    CANDIDATE_ACCEPTED, CANDIDATE_REJECTED, CANDIDATE_SUBMITTED, CANDIDATE_VALIDATED,
};

verus! {

/// The stage at the head of work that was already started.
#[derive(Clone, Copy, Debug, PartialEq, Eq, Structural)]
pub enum DownstreamActionStage {
    HardValidation,
    Quality,
    CandidateCommitAttachRequired,
    QualityReviewRequired,
    AwaitingArchitect,
    /// The candidate was accepted for delivery; no further review is asked.
    DeliverAccepted,
    ReworkEngineering,
    ReworkValidation,
    ReworkQuality,
}

impl DownstreamActionStage {
    pub open spec fn spec_name(self) -> &'static str {
        match self {
            DownstreamActionStage::HardValidation => "hard_validation",
            DownstreamActionStage::Quality => "quality",
            DownstreamActionStage::CandidateCommitAttachRequired =>
                "candidate_commit_attach_required",
            DownstreamActionStage::QualityReviewRequired => "quality_review_required",
            DownstreamActionStage::AwaitingArchitect => "awaiting_architect",
            DownstreamActionStage::DeliverAccepted => "deliver_accepted",
            DownstreamActionStage::ReworkEngineering => "rework_engineering",
            DownstreamActionStage::ReworkValidation => "rework_validation",
            DownstreamActionStage::ReworkQuality => "rework_quality",
        }
    }

    /// The stage an attempt and its candidate stand at, where the pair is one
    /// that can be continued.
    pub open spec fn spec_from_attempt_and_candidate(
        attempt_stage: i16,
        candidate_lifecycle: i16,
        candidate_commit_present: bool,
        quality_review_present: bool,
    ) -> Option<DownstreamActionStage> {
        if attempt_stage == ATTEMPT_HARD_VALIDATION && candidate_lifecycle == CANDIDATE_SUBMITTED {
            Some(DownstreamActionStage::HardValidation)
        } else if attempt_stage == ATTEMPT_QUALITY && candidate_lifecycle == CANDIDATE_VALIDATED {
            if candidate_commit_present {
                Some(DownstreamActionStage::Quality)
            } else {
                Some(DownstreamActionStage::CandidateCommitAttachRequired)
            }
        } else if attempt_stage == ATTEMPT_AWAITING_ARCHITECT && candidate_lifecycle
            == CANDIDATE_VALIDATED {
            if quality_review_present {
                Some(DownstreamActionStage::AwaitingArchitect)
            } else {
                Some(DownstreamActionStage::QualityReviewRequired)
            }
        } else if attempt_stage == ATTEMPT_AWAITING_ARCHITECT && candidate_lifecycle
            == CANDIDATE_ACCEPTED {
            Some(DownstreamActionStage::DeliverAccepted)
        } else if attempt_stage == ATTEMPT_REWORK_ENGINEERING && candidate_lifecycle
            == CANDIDATE_REJECTED {
            Some(DownstreamActionStage::ReworkEngineering)
        } else if attempt_stage == ATTEMPT_REWORK_VALIDATION && candidate_lifecycle
            == CANDIDATE_SUBMITTED {
            Some(DownstreamActionStage::ReworkValidation)
        } else if attempt_stage == ATTEMPT_REWORK_QUALITY && candidate_lifecycle
            == CANDIDATE_VALIDATED {
            if candidate_commit_present {
                Some(DownstreamActionStage::ReworkQuality)
            } else {
                Some(DownstreamActionStage::CandidateCommitAttachRequired)
            }
        } else {
            None
        }
    }

    /// The spelling of a stage on status surfaces.
    pub fn name(self) -> (name: &'static str)
        ensures
            name == self.spec_name(),
    {
        match self {
            DownstreamActionStage::HardValidation => "hard_validation",
            DownstreamActionStage::Quality => "quality",
            DownstreamActionStage::CandidateCommitAttachRequired =>
                "candidate_commit_attach_required",
            DownstreamActionStage::QualityReviewRequired => "quality_review_required",
            DownstreamActionStage::AwaitingArchitect => "awaiting_architect",
            DownstreamActionStage::DeliverAccepted => "deliver_accepted",
            DownstreamActionStage::ReworkEngineering => "rework_engineering",
            DownstreamActionStage::ReworkValidation => "rework_validation",
            DownstreamActionStage::ReworkQuality => "rework_quality",
        }
    }

    /// The stage an attempt and its candidate stand at.
    pub fn from_attempt_and_candidate(
        attempt_stage: i16,
        candidate_lifecycle: i16,
        candidate_commit_present: bool,
        quality_review_present: bool,
    ) -> (stage: Option<DownstreamActionStage>)
        ensures
            stage == DownstreamActionStage::spec_from_attempt_and_candidate(
                attempt_stage,
                candidate_lifecycle,
                candidate_commit_present,
                quality_review_present,
            ),
    {
        if attempt_stage == ATTEMPT_HARD_VALIDATION && candidate_lifecycle == CANDIDATE_SUBMITTED {
            Some(DownstreamActionStage::HardValidation)
        } else if attempt_stage == ATTEMPT_QUALITY && candidate_lifecycle == CANDIDATE_VALIDATED {
            if candidate_commit_present {
                Some(DownstreamActionStage::Quality)
            } else {
                Some(DownstreamActionStage::CandidateCommitAttachRequired)
            }
        } else if attempt_stage == ATTEMPT_AWAITING_ARCHITECT && candidate_lifecycle
            == CANDIDATE_VALIDATED {
            if quality_review_present {
                Some(DownstreamActionStage::AwaitingArchitect)
            } else {
                Some(DownstreamActionStage::QualityReviewRequired)
            }
        } else if attempt_stage == ATTEMPT_AWAITING_ARCHITECT && candidate_lifecycle
            == CANDIDATE_ACCEPTED {
            Some(DownstreamActionStage::DeliverAccepted)
        } else if attempt_stage == ATTEMPT_REWORK_ENGINEERING && candidate_lifecycle
            == CANDIDATE_REJECTED {
            Some(DownstreamActionStage::ReworkEngineering)
        } else if attempt_stage == ATTEMPT_REWORK_VALIDATION && candidate_lifecycle
            == CANDIDATE_SUBMITTED {
            Some(DownstreamActionStage::ReworkValidation)
        } else if attempt_stage == ATTEMPT_REWORK_QUALITY && candidate_lifecycle
            == CANDIDATE_VALIDATED {
            if candidate_commit_present {
                Some(DownstreamActionStage::ReworkQuality)
            } else {
                Some(DownstreamActionStage::CandidateCommitAttachRequired)
            }
        } else {
            None
        }
    }
}

/// Quality is only ever continued over a validated candidate with a commit,
/// and delivery only over an accepted one; a terminal attempt has no stage.
pub proof fn law_downstream_stage_matches_candidate(
    attempt_stage: i16,
    candidate_lifecycle: i16,
    commit: bool,
    review: bool,
)
    ensures
        ({
            let stage = DownstreamActionStage::spec_from_attempt_and_candidate(
                attempt_stage,
                candidate_lifecycle,
                commit,
                review,
            );
            &&& stage == Some(DownstreamActionStage::Quality) || stage == Some(
                DownstreamActionStage::ReworkQuality,
            ) ==> commit && candidate_lifecycle == CANDIDATE_VALIDATED
            &&& stage == Some(DownstreamActionStage::DeliverAccepted) <==> attempt_stage
                == ATTEMPT_AWAITING_ARCHITECT && candidate_lifecycle == CANDIDATE_ACCEPTED
            &&& attempt_stage < ATTEMPT_HARD_VALIDATION || attempt_stage > ATTEMPT_REWORK_QUALITY
                ==> stage is None
        }),
{
}

/// The exact head of downstream work, with every revision that fences it.
#[derive(Clone, Copy, Debug, PartialEq, Eq, Structural)]
pub struct DownstreamActionContext {
    pub stage: DownstreamActionStage,
    pub ticket_attempt_id: TicketAttemptId,
    pub ticket_attempt_revision: AggregateRevision,
    pub ticket_revision: AggregateRevision,
    pub candidate_id: CandidateId,
    pub candidate_revision: AggregateRevision,
}

/// Immutable evidence attached to the downstream candidate.
#[derive(Clone, Debug, PartialEq, Eq)]
pub struct DownstreamEvidenceContext {
    pub candidate_commit: Option<String>,
    pub latest_validation: Option<DownstreamValidationEvidence>,
    pub review: Option<DownstreamReviewEvidence>,
    pub architect_decision: Option<DownstreamArchitectDecisionEvidence>,
}

#[derive(Clone, Copy, Debug, PartialEq, Eq, Structural)]
pub struct DownstreamValidationEvidence {
    pub validation_id: ValidationId,
    pub state: DownstreamValidationState,
    pub log_artifact_id: ArtifactId,
}

#[derive(Clone, Copy, Debug, PartialEq, Eq, Structural)]
pub enum DownstreamValidationState {
    Passed,
    Failed,
    Interrupted,
}

impl DownstreamValidationState {
    pub open spec fn spec_from_sql(value: i16) -> Result<DownstreamValidationState, StoreError> {
        if value == 1 {
            Ok(DownstreamValidationState::Passed)
        } else if value == 2 {
            Ok(DownstreamValidationState::Failed)
        } else if value == 3 {
            Ok(DownstreamValidationState::Interrupted)
        } else {
            Err(StoreError::CorruptLifecycleColumn)
        }
    }

    pub open spec fn spec_name(self) -> &'static str {
        match self {
            DownstreamValidationState::Passed => "passed",
            DownstreamValidationState::Failed => "failed",
            DownstreamValidationState::Interrupted => "interrupted",
        }
    }

    /// Reads a validation lifecycle column.
    pub fn from_sql(value: i16) -> (result: Result<DownstreamValidationState, StoreError>)
        ensures
            result == DownstreamValidationState::spec_from_sql(value),
    {
        match value {
            1 => Ok(DownstreamValidationState::Passed),
            2 => Ok(DownstreamValidationState::Failed),
            3 => Ok(DownstreamValidationState::Interrupted),
            _ => Err(StoreError::CorruptLifecycleColumn),
        }
    }

    pub fn name(self) -> (name: &'static str)
        ensures
            name == self.spec_name(),
    {
        match self {
            DownstreamValidationState::Passed => "passed",
            DownstreamValidationState::Failed => "failed",
            DownstreamValidationState::Interrupted => "interrupted",
        }
    }
}

#[derive(Clone, Copy, Debug, PartialEq, Eq, Structural)]
pub struct DownstreamReviewEvidence {
    pub review_id: ReviewId,
    pub revision: AggregateRevision,
    pub verdict: DownstreamReviewVerdict,
    pub rationale_artifact_id: ArtifactId,
}

#[derive(Clone, Copy, Debug, PartialEq, Eq, Structural)]
pub enum DownstreamReviewVerdict {
    Accept,
    Reject,
}

impl DownstreamReviewVerdict {
    pub open spec fn spec_from_sql(value: i16) -> Result<DownstreamReviewVerdict, StoreError> {
        if value == 0 {
            Ok(DownstreamReviewVerdict::Accept)
        } else if value == 1 {
            Ok(DownstreamReviewVerdict::Reject)
        } else {
            Err(StoreError::CorruptLifecycleColumn)
        }
    }

    pub open spec fn spec_name(self) -> &'static str {
        match self {
            DownstreamReviewVerdict::Accept => "accept",
            DownstreamReviewVerdict::Reject => "reject",
        }
    }

    /// Reads a review verdict column.
    pub fn from_sql(value: i16) -> (result: Result<DownstreamReviewVerdict, StoreError>)
        ensures
            result == DownstreamReviewVerdict::spec_from_sql(value),
    {
        match value {
            0 => Ok(DownstreamReviewVerdict::Accept),
            1 => Ok(DownstreamReviewVerdict::Reject),
            _ => Err(StoreError::CorruptLifecycleColumn),
        }
    }

    pub fn name(self) -> (name: &'static str)
        ensures
            name == self.spec_name(),
    {
        match self {
            DownstreamReviewVerdict::Accept => "accept",
            DownstreamReviewVerdict::Reject => "reject",
        }
    }
}

#[derive(Clone, Copy, Debug, PartialEq, Eq, Structural)]
pub struct DownstreamArchitectDecisionEvidence {
    pub architect_decision_id: ArchitectDecisionId,
    pub kind: DownstreamArchitectDecisionKind,
    pub rationale_artifact_id: ArtifactId,
}

#[derive(Clone, Copy, Debug, PartialEq, Eq, Structural)]
pub enum DownstreamArchitectDecisionKind {
    Deliver,
    Rework,
    Reject,
}

impl DownstreamArchitectDecisionKind {
    pub open spec fn spec_from_sql(value: i16) -> Result<
        DownstreamArchitectDecisionKind,
        StoreError,
    > {
        if value == 2 {
            Ok(DownstreamArchitectDecisionKind::Deliver)
        } else if value == 3 {
            Ok(DownstreamArchitectDecisionKind::Rework)
        } else if value == 4 {
            Ok(DownstreamArchitectDecisionKind::Reject)
        } else {
            Err(StoreError::CorruptLifecycleColumn)
        }
    }

    pub open spec fn spec_name(self) -> &'static str {
        match self {
            DownstreamArchitectDecisionKind::Deliver => "deliver",
            DownstreamArchitectDecisionKind::Rework => "rework",
            DownstreamArchitectDecisionKind::Reject => "reject",
        }
    }

    /// Reads a decision kind column.
    pub fn from_sql(value: i16) -> (result: Result<DownstreamArchitectDecisionKind, StoreError>)
        ensures
            result == DownstreamArchitectDecisionKind::spec_from_sql(value),
    {
        match value {
            2 => Ok(DownstreamArchitectDecisionKind::Deliver),
            3 => Ok(DownstreamArchitectDecisionKind::Rework),
            4 => Ok(DownstreamArchitectDecisionKind::Reject),
            _ => Err(StoreError::CorruptLifecycleColumn),
        }
    }

    pub fn name(self) -> (name: &'static str)
        ensures
            name == self.spec_name(),
    {
        match self {
            DownstreamArchitectDecisionKind::Deliver => "deliver",
            DownstreamArchitectDecisionKind::Rework => "rework",
            DownstreamArchitectDecisionKind::Reject => "reject",
        }
    }
}

/// Validation evidence read back: all columns or none.
pub open spec fn spec_validation_evidence(
    validation_id: Option<i64>,
    lifecycle: Option<i16>,
    log_artifact_id: Option<i64>,
) -> Result<Option<DownstreamValidationEvidence>, StoreError> {
    match (validation_id, lifecycle, log_artifact_id) {
        (None, None, None) => Ok(None),
        (Some(validation_id), Some(lifecycle), Some(log_artifact_id)) => if !is_identity(
            validation_id,
        ) {
            Err(bad_identity())
        } else {
            match DownstreamValidationState::spec_from_sql(lifecycle) {
                Err(fault) => Err(fault),
                Ok(state) => if !is_identity(log_artifact_id) {
                    Err(bad_identity())
                } else {
                    Ok(
                        Some(
                            DownstreamValidationEvidence {
                                validation_id: ValidationId { value: validation_id },
                                state,
                                log_artifact_id: ArtifactId { value: log_artifact_id },
                            },
                        ),
                    )
                },
            }
        },
        _ => Err(StoreError::CorruptLifecycleColumn),
    }
}

/// Reads validation evidence back.
pub fn downstream_validation_evidence(
    validation_id: Option<i64>,
    lifecycle: Option<i16>,
    log_artifact_id: Option<i64>,
) -> (result: Result<Option<DownstreamValidationEvidence>, StoreError>)
    ensures
        result == spec_validation_evidence(validation_id, lifecycle, log_artifact_id),
{
    match (validation_id, lifecycle, log_artifact_id) {
        (None, None, None) => Ok(None),
        (Some(validation_id), Some(lifecycle), Some(log_artifact_id)) => {
            let validation_id = match ValidationId::new(validation_id) {
                Ok(id) => id,
                Err(fault) => return Err(StoreError::Contract(fault)),
            };
            let state = match DownstreamValidationState::from_sql(lifecycle) {
                Ok(state) => state,
                Err(fault) => return Err(fault),
            };
            let log_artifact_id = match ArtifactId::new(log_artifact_id) {
                Ok(id) => id,
                Err(fault) => return Err(StoreError::Contract(fault)),
            };
            Ok(Some(DownstreamValidationEvidence { validation_id, state, log_artifact_id }))
        },
        _ => Err(StoreError::CorruptLifecycleColumn),
    }
}

/// Review evidence read back: all columns or none.
pub open spec fn spec_review_evidence(
    review_id: Option<i64>,
    revision: Option<i64>,
    verdict: Option<i16>,
    rationale_artifact_id: Option<i64>,
) -> Result<Option<DownstreamReviewEvidence>, StoreError> {
    match (review_id, revision, verdict, rationale_artifact_id) {
        (None, None, None, None) => Ok(None),
        (
            Some(review_id),
            Some(revision),
            Some(verdict),
            Some(rationale_artifact_id),
        ) => if !is_identity(review_id) {
            Err(bad_identity())
        } else {
            match (
                spec_revision_from_sql(revision),
                DownstreamReviewVerdict::spec_from_sql(verdict),
            ) {
                (Err(fault), _) => Err(fault),
                (Ok(_), Err(fault)) => Err(fault),
                (Ok(revision), Ok(verdict)) => if !is_identity(rationale_artifact_id) {
                    Err(bad_identity())
                } else {
                    Ok(
                        Some(
                            DownstreamReviewEvidence {
                                review_id: ReviewId { value: review_id },
                                revision,
                                verdict,
                                rationale_artifact_id: ArtifactId { value: rationale_artifact_id },
                            },
                        ),
                    )
                },
            }
        },
        _ => Err(StoreError::CorruptLifecycleColumn),
    }
}

/// Reads review evidence back.
pub fn downstream_review_evidence(
    review_id: Option<i64>,
    revision: Option<i64>,
    verdict: Option<i16>,
    rationale_artifact_id: Option<i64>,
) -> (result: Result<Option<DownstreamReviewEvidence>, StoreError>)
    ensures
        result == spec_review_evidence(review_id, revision, verdict, rationale_artifact_id),
{
    match (review_id, revision, verdict, rationale_artifact_id) {
        (None, None, None, None) => Ok(None),
        (Some(review_id), Some(revision), Some(verdict), Some(rationale_artifact_id)) => {
            let review_id = match ReviewId::new(review_id) {
                Ok(id) => id,
                Err(fault) => return Err(StoreError::Contract(fault)),
            };
            let revision = match aggregate_revision_from_sql(revision) {
                Ok(revision) => revision,
                Err(fault) => return Err(fault),
            };
            let verdict = match DownstreamReviewVerdict::from_sql(verdict) {
                Ok(verdict) => verdict,
                Err(fault) => return Err(fault),
            };
            let rationale_artifact_id = match ArtifactId::new(rationale_artifact_id) {
                Ok(id) => id,
                Err(fault) => return Err(StoreError::Contract(fault)),
            };
            Ok(
                Some(
                    DownstreamReviewEvidence { review_id, revision, verdict, rationale_artifact_id },
                ),
            )
        },
        _ => Err(StoreError::CorruptLifecycleColumn),
    }
}

/// Decision evidence read back: all columns or none.
pub open spec fn spec_decision_evidence(
    architect_decision_id: Option<i64>,
    kind: Option<i16>,
    rationale_artifact_id: Option<i64>,
) -> Result<Option<DownstreamArchitectDecisionEvidence>, StoreError> {
    match (architect_decision_id, kind, rationale_artifact_id) {
        (None, None, None) => Ok(None),
        (Some(decision_id), Some(kind), Some(rationale_artifact_id)) => if !is_identity(
            decision_id,
        ) {
            Err(bad_identity())
        } else {
            match DownstreamArchitectDecisionKind::spec_from_sql(kind) {
                Err(fault) => Err(fault),
                Ok(kind) => if !is_identity(rationale_artifact_id) {
                    Err(bad_identity())
                } else {
                    Ok(
                        Some(
                            DownstreamArchitectDecisionEvidence {
                                architect_decision_id: ArchitectDecisionId { value: decision_id },
                                kind,
                                rationale_artifact_id: ArtifactId { value: rationale_artifact_id },
                            },
                        ),
                    )
                },
            }
        },
        _ => Err(StoreError::CorruptLifecycleColumn),
    }
}

/// Reads decision evidence back.
pub fn downstream_architect_decision_evidence(
    architect_decision_id: Option<i64>,
    kind: Option<i16>,
    rationale_artifact_id: Option<i64>,
) -> (result: Result<Option<DownstreamArchitectDecisionEvidence>, StoreError>)
    ensures
        result == spec_decision_evidence(architect_decision_id, kind, rationale_artifact_id),
{
    match (architect_decision_id, kind, rationale_artifact_id) {
        (None, None, None) => Ok(None),
        (Some(decision_id), Some(kind), Some(rationale_artifact_id)) => {
            let architect_decision_id = match ArchitectDecisionId::new(decision_id) {
                Ok(id) => id,
                Err(fault) => return Err(StoreError::Contract(fault)),
            };
            let kind = match DownstreamArchitectDecisionKind::from_sql(kind) {
                Ok(kind) => kind,
                Err(fault) => return Err(fault),
            };
            let rationale_artifact_id = match ArtifactId::new(rationale_artifact_id) {
                Ok(id) => id,
                Err(fault) => return Err(StoreError::Contract(fault)),
            };
            Ok(
                Some(
                    DownstreamArchitectDecisionEvidence {
                        architect_decision_id,
                        kind,
                        rationale_artifact_id,
                    },
                ),
            )
        },
        _ => Err(StoreError::CorruptLifecycleColumn),
    }
}

/// The oldest ready ticket that may be claimed, with the revision a claim must
/// present.
#[derive(Clone, Copy, Debug, PartialEq, Eq, Structural)]
pub struct SponsoredTicketClaimContext {
    pub ticket_revision_id: TicketRevisionId,
    pub revision: AggregateRevision,
}

/// Ticket-buffer pressure under a campaign's pinned application revision.
#[derive(Clone, Debug, PartialEq, Eq)]
pub struct TicketBufferStatus {
    pub campaign_id: CampaignId,
    pub campaign_revision: AggregateRevision,
    pub campaign_is_running: bool,
    pub campaign_deadline_open: bool,
    pub campaign_cost_known: bool,
    pub delivery_target: u32,
    pub delivered_attempt_count: u32,
    pub ready_count: u32,
    pub proposed_count: u32,
    pub in_flight_count: u32,
    pub downstream_attempt_count: u32,
    /// The oldest attempt that must progress before unrelated work starts.
    pub downstream_action: Option<DownstreamActionContext>,
    pub downstream_evidence: Option<DownstreamEvidenceContext>,
    pub paid_session_active: bool,
    pub low_water: u32,
    pub target: u32,
    /// No maximum means an unrestricted backlog.
    pub maximum: Option<u32>,
    pub proposal_maximum: u32,
    pub oldest_sponsored_ticket: Option<SponsoredTicketClaimContext>,
}

/// A campaign with its buffer policy, as the columns hold them.
#[derive(Clone, Copy, Debug, PartialEq, Eq, Structural)]
pub struct BufferCampaignRow {
    pub lifecycle: i16,
    pub revision: i64,
    pub delivery_target: i32,
    pub cost_state: i16,
    pub deadline_open: bool,
    pub application_revision_id: i64,
    pub ticket_low_water: i32,
    pub ticket_target: i32,
    pub ticket_maximum: Option<i32>,
    pub proposal_maximum: i32,
}

/// The downstream count and its head, as one statement returns them.
#[derive(Clone, Debug, PartialEq, Eq)]
pub struct DownstreamRow {
    pub count: i64,
    pub ticket_attempt_id: Option<i64>,
    pub ticket_attempt_revision: Option<i64>,
    pub ticket_revision: Option<i64>,
    pub ticket_attempt_stage: Option<i16>,
    pub candidate_id: Option<i64>,
    pub candidate_revision: Option<i64>,
    pub candidate_lifecycle: Option<i16>,
    pub candidate_commit: Option<String>,
    pub candidate_commit_present: Option<bool>,
    pub validation_id: Option<i64>,
    pub validation_lifecycle: Option<i16>,
    pub validation_log_artifact_id: Option<i64>,
    pub quality_review_id: Option<i64>,
    pub review_revision: Option<i64>,
    pub review_verdict: Option<i16>,
    pub review_rationale_artifact_id: Option<i64>,
    pub architect_decision_id: Option<i64>,
    pub architect_decision_kind: Option<i16>,
    pub architect_decision_rationale_artifact_id: Option<i64>,
}

/// The oldest ready ticket, as its columns hold it.
#[derive(Clone, Copy, Debug, PartialEq, Eq, Structural)]
pub struct SponsoredRow {
    pub id: i64,
    pub revision: i64,
}

/// Everything a buffer status is derived from.
#[derive(Clone, Debug, PartialEq, Eq)]
pub struct BufferFacts {
    pub campaign: Option<BufferCampaignRow>,
    pub ready: i64,
    pub proposed: i64,
    pub in_flight: i64,
    pub downstream: DownstreamRow,
    pub paid_session_active: bool,
    pub delivered: i64,
    pub oldest: Option<SponsoredRow>,
}

pub open spec fn row_validation(row: DownstreamRow) -> Result<
    Option<DownstreamValidationEvidence>,
    StoreError,
> {
    spec_validation_evidence(
        row.validation_id,
        row.validation_lifecycle,
        row.validation_log_artifact_id,
    )
}

pub open spec fn row_review(row: DownstreamRow) -> Result<
    Option<DownstreamReviewEvidence>,
    StoreError,
> {
    spec_review_evidence(
        row.quality_review_id,
        row.review_revision,
        row.review_verdict,
        row.review_rationale_artifact_id,
    )
}

pub open spec fn row_decision(row: DownstreamRow) -> Result<
    Option<DownstreamArchitectDecisionEvidence>,
    StoreError,
> {
    spec_decision_evidence(
        row.architect_decision_id,
        row.architect_decision_kind,
        row.architect_decision_rationale_artifact_id,
    )
}

/// Why the downstream evidence is refused, if it is.
pub open spec fn evidence_fault(row: DownstreamRow) -> Option<StoreError> {
    if row.candidate_id is None {
        if row.validation_id is Some || row.quality_review_id is Some || row.architect_decision_id
            is Some {
            Some(StoreError::CorruptLifecycleColumn)
        } else {
            None
        }
    } else {
        match (row_validation(row), row_review(row), row_decision(row)) {
            (Err(fault), _, _) => Some(fault),
            (Ok(_), Err(fault), _) => Some(fault),
            (Ok(_), Ok(_), Err(fault)) => Some(fault),
            (Ok(_), Ok(_), Ok(_)) => None,
        }
    }
}

/// Whether a projection is the evidence of a row.
pub open spec fn evidence_of(
    row: DownstreamRow,
    evidence: Option<DownstreamEvidenceContext>,
) -> bool {
    if row.candidate_id is None {
        evidence is None
    } else {
        &&& evidence is Some
        &&& evidence->0.candidate_commit == row.candidate_commit
        &&& row_validation(row) == Ok::<Option<DownstreamValidationEvidence>, StoreError>(
            evidence->0.latest_validation,
        )
        &&& row_review(row) == Ok::<Option<DownstreamReviewEvidence>, StoreError>(
            evidence->0.review,
        )
        &&& row_decision(row) == Ok::<Option<DownstreamArchitectDecisionEvidence>, StoreError>(
            evidence->0.architect_decision,
        )
    }
}

fn downstream_evidence(row: &DownstreamRow) -> (result: Result<
    Option<DownstreamEvidenceContext>,
    StoreError,
>)
    ensures
        match result {
            Ok(evidence) => evidence_fault(*row) is None && evidence_of(*row, evidence),
            Err(fault) => evidence_fault(*row) == Some(fault),
        },
{
    if row.candidate_id.is_none() {
        if row.validation_id.is_some() || row.quality_review_id.is_some()
            || row.architect_decision_id.is_some() {
            return Err(StoreError::CorruptLifecycleColumn);
        }
        return Ok(None);
    }
    let latest_validation = match downstream_validation_evidence(
        row.validation_id,
        row.validation_lifecycle,
        row.validation_log_artifact_id,
    ) {
        Ok(evidence) => evidence,
        Err(fault) => return Err(fault),
    };
    let review = match downstream_review_evidence(
        row.quality_review_id,
        row.review_revision,
        row.review_verdict,
        row.review_rationale_artifact_id,
    ) {
        Ok(evidence) => evidence,
        Err(fault) => return Err(fault),
    };
    let architect_decision = match downstream_architect_decision_evidence(
        row.architect_decision_id,
        row.architect_decision_kind,
        row.architect_decision_rationale_artifact_id,
    ) {
        Ok(evidence) => evidence,
        Err(fault) => return Err(fault),
    };
    let candidate_commit = match &row.candidate_commit {
        Some(commit) => Some(commit.clone()),
        None => None,
    };
    Ok(
        Some(
            DownstreamEvidenceContext {
                candidate_commit,
                latest_validation,
                review,
                architect_decision,
            },
        ),
    )
}

/// The fences of an attempt and its candidate, read from columns.
pub open spec fn spec_action_context(
    stage: DownstreamActionStage,
    attempt_id: i64,
    attempt_revision: i64,
    ticket_revision: i64,
    candidate_id: i64,
    candidate_revision: i64,
) -> Result<DownstreamActionContext, StoreError> {
    if !is_identity(attempt_id) {
        Err(bad_identity())
    } else if attempt_revision < 0 || ticket_revision < 0 {
        Err(StoreError::RevisionOutOfRange)
    } else if !is_identity(candidate_id) {
        Err(bad_identity())
    } else if candidate_revision < 0 {
        Err(StoreError::RevisionOutOfRange)
    } else {
        Ok(
            DownstreamActionContext {
                stage,
                ticket_attempt_id: TicketAttemptId { value: attempt_id },
                ticket_attempt_revision: AggregateRevision { value: attempt_revision as u64 },
                ticket_revision: AggregateRevision { value: ticket_revision as u64 },
                candidate_id: CandidateId { value: candidate_id },
                candidate_revision: AggregateRevision { value: candidate_revision as u64 },
            },
        )
    }
}

fn action_context(
    stage: DownstreamActionStage,
    attempt_id: i64,
    attempt_revision: i64,
    ticket_revision: i64,
    candidate_id: i64,
    candidate_revision: i64,
) -> (result: Result<DownstreamActionContext, StoreError>)
    ensures
        result == spec_action_context(
            stage,
            attempt_id,
            attempt_revision,
            ticket_revision,
            candidate_id,
            candidate_revision,
        ),
{
    let ticket_attempt_id = match TicketAttemptId::new(attempt_id) {
        Ok(id) => id,
        Err(fault) => return Err(StoreError::Contract(fault)),
    };
    let ticket_attempt_revision = match aggregate_revision_from_sql(attempt_revision) {
        Ok(revision) => revision,
        Err(fault) => return Err(fault),
    };
    let ticket_revision = match aggregate_revision_from_sql(ticket_revision) {
        Ok(revision) => revision,
        Err(fault) => return Err(fault),
    };
    let candidate_id = match CandidateId::new(candidate_id) {
        Ok(id) => id,
        Err(fault) => return Err(StoreError::Contract(fault)),
    };
    let candidate_revision = match aggregate_revision_from_sql(candidate_revision) {
        Ok(revision) => revision,
        Err(fault) => return Err(fault),
    };
    Ok(
        DownstreamActionContext {
            stage,
            ticket_attempt_id,
            ticket_attempt_revision,
            ticket_revision,
            candidate_id,
            candidate_revision,
        },
    )
}

/// The downstream head: none where a column is missing or attempt and
/// candidate do not fit together.
pub open spec fn spec_downstream_action(row: DownstreamRow) -> Result<
    Option<DownstreamActionContext>,
    StoreError,
> {
    match (
        row.ticket_attempt_id,
        row.ticket_attempt_revision,
        row.ticket_revision,
        row.ticket_attempt_stage,
        row.candidate_id,
        row.candidate_revision,
        row.candidate_lifecycle,
        row.candidate_commit_present,
    ) {
        (
            Some(attempt_id),
            Some(attempt_revision),
            Some(ticket_revision),
            Some(stage),
            Some(candidate_id),
            Some(candidate_revision),
            Some(lifecycle),
            Some(commit_present),
        ) => match DownstreamActionStage::spec_from_attempt_and_candidate(
            stage,
            lifecycle,
            commit_present,
            row.quality_review_id is Some,
        ) {
            None => Ok(None),
            Some(stage) => match spec_action_context(
                stage,
                attempt_id,
                attempt_revision,
                ticket_revision,
                candidate_id,
                candidate_revision,
            ) {
                Err(fault) => Err(fault),
                Ok(context) => Ok(Some(context)),
            },
        },
        _ => Ok(None),
    }
}

fn downstream_action(row: &DownstreamRow) -> (result: Result<
    Option<DownstreamActionContext>,
    StoreError,
>)
    ensures
        result == spec_downstream_action(*row),
{
    match (
        row.ticket_attempt_id,
        row.ticket_attempt_revision,
        row.ticket_revision,
        row.ticket_attempt_stage,
        row.candidate_id,
        row.candidate_revision,
        row.candidate_lifecycle,
        row.candidate_commit_present,
    ) {
        (
            Some(attempt_id),
            Some(attempt_revision),
            Some(ticket_revision),
            Some(stage),
            Some(candidate_id),
            Some(candidate_revision),
            Some(lifecycle),
            Some(commit_present),
        ) => match DownstreamActionStage::from_attempt_and_candidate(
            stage,
            lifecycle,
            commit_present,
            row.quality_review_id.is_some(),
        ) {
            None => Ok(None),
            Some(stage) => match action_context(
                stage,
                attempt_id,
                attempt_revision,
                ticket_revision,
                candidate_id,
                candidate_revision,
            ) {
                Err(fault) => Err(fault),
                Ok(context) => Ok(Some(context)),
            },
        },
        _ => Ok(None),
    }
}

pub open spec fn spec_oldest_sponsored(row: Option<SponsoredRow>) -> Result<
    Option<SponsoredTicketClaimContext>,
    StoreError,
> {
    match row {
        None => Ok(None),
        Some(row) => if !is_identity(row.id) {
            Err(bad_identity())
        } else {
            match spec_revision_from_sql(row.revision) {
                Err(fault) => Err(fault),
                Ok(revision) => Ok(
                    Some(
                        SponsoredTicketClaimContext {
                            ticket_revision_id: TicketRevisionId { value: row.id },
                            revision,
                        },
                    ),
                ),
            }
        },
    }
}

fn oldest_sponsored(row: Option<SponsoredRow>) -> (result: Result<
    Option<SponsoredTicketClaimContext>,
    StoreError,
>)
    ensures
        result == spec_oldest_sponsored(row),
{
    let row = match row {
        None => return Ok(None),
        Some(row) => row,
    };
    let ticket_revision_id = match TicketRevisionId::new(row.id) {
        Ok(id) => id,
        Err(fault) => return Err(StoreError::Contract(fault)),
    };
    match aggregate_revision_from_sql(row.revision) {
        Ok(revision) => Ok(Some(SponsoredTicketClaimContext { ticket_revision_id, revision })),
        Err(fault) => Err(fault),
    }
}

/// The first count in a list that does not fit, by its field name.
pub open spec fn count_fault(counts: Seq<(i64, &'static str)>) -> Option<StoreError>
    decreases counts.len(),
{
    if counts.len() == 0 {
        None
    } else if spec_u32_from_sql(counts[0].0, counts[0].1) is Err {
        Some(StoreError::InvalidTicketField { field: counts[0].1 })
    } else {
        count_fault(counts.skip(1))
    }
}

/// The counts a status reads before its downstream head.
pub open spec fn pressure_counts(campaign: BufferCampaignRow, facts: BufferFacts) -> Seq<
    (i64, &'static str),
> {
    seq![
        (campaign.delivery_target as i64, "delivery target"),
        (facts.delivered, "delivered attempt count"),
        (facts.ready, "ready ticket count"),
        (facts.proposed, "proposed ticket count"),
        (facts.in_flight, "in-flight ticket count"),
        (facts.downstream.count, "downstream attempt count"),
    ]
}

/// Why the buffer policy is refused, if it is.
pub open spec fn policy_fault(campaign: BufferCampaignRow) -> Option<StoreError> {
    if campaign.ticket_low_water < 0 {
        Some(StoreError::InvalidTicketField { field: "low water" })
    } else if campaign.ticket_target < 0 {
        Some(StoreError::InvalidTicketField { field: "ticket target" })
    } else if campaign.ticket_maximum is Some && campaign.ticket_maximum->0 < 0 {
        Some(StoreError::InvalidTicketField { field: "ticket maximum" })
    } else if campaign.proposal_maximum < 0 {
        Some(StoreError::InvalidTicketField { field: "proposal maximum" })
    } else {
        None
    }
}

/// Why a buffer status cannot be derived, if it cannot.
pub open spec fn buffer_fault(campaign_id: CampaignId, facts: BufferFacts) -> Option<StoreError> {
    match facts.campaign {
        None => Some(StoreError::UnknownCampaign { campaign_id }),
        Some(campaign) => if !is_identity(campaign.application_revision_id) {
            Some(bad_identity())
        } else if evidence_fault(facts.downstream) is Some {
            evidence_fault(facts.downstream)
        } else if campaign.revision < 0 {
            Some(StoreError::RevisionOutOfRange)
        } else if count_fault(pressure_counts(campaign, facts)) is Some {
            count_fault(pressure_counts(campaign, facts))
        } else {
            match spec_downstream_action(facts.downstream) {
                Err(fault) => Some(fault),
                Ok(_) => if policy_fault(campaign) is Some {
                    policy_fault(campaign)
                } else {
                    match spec_oldest_sponsored(facts.oldest) {
                        Err(fault) => Some(fault),
                        Ok(_) => None,
                    }
                },
            }
        },
    }
}

/// Whether a status is the one derived from the facts.
pub open spec fn status_of(
    campaign_id: CampaignId,
    facts: BufferFacts,
    status: TicketBufferStatus,
) -> bool {
    let campaign = facts.campaign->0;
    &&& status.campaign_id == campaign_id
    &&& status.campaign_revision.value == campaign.revision
    &&& status.campaign_is_running == (campaign.lifecycle == RUNNING)
    &&& status.campaign_deadline_open == campaign.deadline_open
    &&& status.campaign_cost_known == (campaign.cost_state == COST_KNOWN)
    &&& status.delivery_target == campaign.delivery_target
    &&& status.delivered_attempt_count == facts.delivered
    &&& status.ready_count == facts.ready
    &&& status.proposed_count == facts.proposed
    &&& status.in_flight_count == facts.in_flight
    &&& status.downstream_attempt_count == facts.downstream.count
    &&& spec_downstream_action(facts.downstream) == Ok::<
        Option<DownstreamActionContext>,
        StoreError,
    >(status.downstream_action)
    &&& evidence_of(facts.downstream, status.downstream_evidence)
    &&& status.paid_session_active == facts.paid_session_active
    &&& status.low_water == campaign.ticket_low_water
    &&& status.target == campaign.ticket_target
    &&& match (status.maximum, campaign.ticket_maximum) {
        (Some(maximum), Some(column)) => maximum == column,
        (None, None) => true,
        _ => false,
    }
    &&& status.proposal_maximum == campaign.proposal_maximum
    &&& spec_oldest_sponsored(facts.oldest) == Ok::<
        Option<SponsoredTicketClaimContext>,
        StoreError,
    >(status.oldest_sponsored_ticket)
}

/// The first count that does not fit, checked in order.
fn check_counts(counts: &[(i64, &'static str)]) -> (result: Result<(), StoreError>)
    ensures
        match result {
            Ok(()) => count_fault(counts@) is None && forall|i: int|
                0 <= i < counts@.len() ==> 0 <= (#[trigger] counts@[i]).0 <= u32::MAX,
            Err(fault) => count_fault(counts@) == Some(fault),
        },
{
    let mut index: usize = 0;
    assert(counts@.skip(0) =~= counts@);
    while index < counts.len()
        invariant
            index <= counts.len(),
            count_fault(counts@) == count_fault(counts@.skip(index as int)),
            forall|i: int| 0 <= i < index ==> 0 <= (#[trigger] counts@[i]).0 <= u32::MAX,
        decreases counts.len() - index,
    {
        let (value, field) = counts[index];
        assert(counts@.skip(index as int)[0] == counts@[index as int]);
        assert(counts@.skip(index as int).skip(1) =~= counts@.skip(index as int + 1));
        match u32_from_sql(value, field) {
            Ok(_) => {},
            Err(fault) => return Err(fault),
        }
        index += 1;
    }
    assert(counts@.skip(index as int).len() == 0);
    Ok(())
}

/// Why a policy column does not fit.
fn check_policy(campaign: &BufferCampaignRow) -> (result: Result<(), StoreError>)
    ensures
        match result {
            Ok(()) => policy_fault(*campaign) is None,
            Err(fault) => policy_fault(*campaign) == Some(fault),
        },
{
    match u32_from_sql(campaign.ticket_low_water as i64, "low water") {
        Ok(_) => {},
        Err(fault) => return Err(fault),
    }
    match u32_from_sql(campaign.ticket_target as i64, "ticket target") {
        Ok(_) => {},
        Err(fault) => return Err(fault),
    }
    match campaign.ticket_maximum {
        Some(maximum) => match u32_from_sql(maximum as i64, "ticket maximum") {
            Ok(_) => {},
            Err(fault) => return Err(fault),
        },
        None => {},
    }
    match u32_from_sql(campaign.proposal_maximum as i64, "proposal maximum") {
        Ok(_) => Ok(()),
        Err(fault) => Err(fault),
    }
}

/// Derives ticket-buffer pressure from the columns.
#[verifier::rlimit(40)]
pub fn ticket_buffer_status(campaign_id: CampaignId, facts: &BufferFacts) -> (result: Result<
    TicketBufferStatus,
    StoreError,
>)
    ensures
        match result {
            Ok(status) => buffer_fault(campaign_id, *facts) is None && status_of(
                campaign_id,
                *facts,
                status,
            ),
            Err(fault) => buffer_fault(campaign_id, *facts) == Some(fault),
        },
{
    let campaign = match facts.campaign {
        Some(campaign) => campaign,
        None => return Err(StoreError::UnknownCampaign { campaign_id }),
    };
    match ApplicationRevisionId::new(campaign.application_revision_id) {
        Ok(_) => {},
        Err(fault) => return Err(StoreError::Contract(fault)),
    }
    let evidence = match downstream_evidence(&facts.downstream) {
        Ok(evidence) => evidence,
        Err(fault) => return Err(fault),
    };
    let campaign_revision = match aggregate_revision_from_sql(campaign.revision) {
        Ok(revision) => revision,
        Err(fault) => return Err(fault),
    };
    let counts: [(i64, &'static str); 6] = [
        (campaign.delivery_target as i64, "delivery target"),
        (facts.delivered, "delivered attempt count"),
        (facts.ready, "ready ticket count"),
        (facts.proposed, "proposed ticket count"),
        (facts.in_flight, "in-flight ticket count"),
        (facts.downstream.count, "downstream attempt count"),
    ];
    assert(counts@ =~= pressure_counts(campaign, *facts));
    match check_counts(counts.as_slice()) {
        Ok(()) => {},
        Err(fault) => return Err(fault),
    }
    assert(counts@[0].0 == campaign.delivery_target);
    assert(counts@[1].0 == facts.delivered);
    assert(counts@[2].0 == facts.ready);
    assert(counts@[3].0 == facts.proposed);
    assert(counts@[4].0 == facts.in_flight);
    assert(counts@[5].0 == facts.downstream.count);
    let action = match downstream_action(&facts.downstream) {
        Ok(action) => action,
        Err(fault) => return Err(fault),
    };
    match check_policy(&campaign) {
        Ok(()) => {},
        Err(fault) => return Err(fault),
    }
    let oldest_sponsored_ticket = match oldest_sponsored(facts.oldest) {
        Ok(ticket) => ticket,
        Err(fault) => return Err(fault),
    };
    Ok(
        TicketBufferStatus {
            campaign_id,
            campaign_revision,
            campaign_is_running: campaign.lifecycle == RUNNING,
            campaign_deadline_open: campaign.deadline_open,
            campaign_cost_known: campaign.cost_state == COST_KNOWN,
            delivery_target: campaign.delivery_target as u32,
            delivered_attempt_count: facts.delivered as u32,
            ready_count: facts.ready as u32,
            proposed_count: facts.proposed as u32,
            in_flight_count: facts.in_flight as u32,
            downstream_attempt_count: facts.downstream.count as u32,
            downstream_action: action,
            downstream_evidence: evidence,
            paid_session_active: facts.paid_session_active,
            low_water: campaign.ticket_low_water as u32,
            target: campaign.ticket_target as u32,
            maximum: match campaign.ticket_maximum {
                Some(maximum) => Some(maximum as u32),
                None => None,
            },
            proposal_maximum: campaign.proposal_maximum as u32,
            oldest_sponsored_ticket,
        },
    )
}

/// Bounds on what a ticket proposal may hold.
#[derive(Clone, Copy, Debug, PartialEq, Eq, Structural)]
pub struct TicketBounds {
    pub narrative_byte_limit: u32,
    pub acceptance_criteria_limit: u16,
    pub contract_read_limit: u16,
}

/// Immutable application inputs that proposal admission needs.
#[derive(Clone, Copy, Debug, PartialEq, Eq, Structural)]
pub struct ProposalAdmissionContext {
    pub application_revision_id: ApplicationRevisionId,
    pub aggregate_revision: AggregateRevision,
    pub bundle_artifact_id: ArtifactId,
    pub repository_id: RepositoryId,
    pub proposal_maximum: u32,
    pub ticket_bounds: TicketBounds,
}

/// The application revision of a proposal, as its columns hold it.
#[derive(Clone, Copy, Debug, PartialEq, Eq, Structural)]
pub struct AdmissionRow {
    pub aggregate_revision: i64,
    pub bundle_artifact_id: i64,
    pub repository_id: i64,
    pub proposal_maximum: i32,
    pub ticket_narrative_byte_limit: i32,
    pub ticket_acceptance_criteria_limit: i32,
    pub ticket_contract_read_limit: i32,
}

pub open spec fn spec_admission_context(
    application_revision_id: ApplicationRevisionId,
    row: Option<AdmissionRow>,
) -> Result<ProposalAdmissionContext, StoreError> {
    match row {
        None => Err(StoreError::UnknownApplicationRevision { application_revision_id }),
        Some(row) => if row.aggregate_revision < 0 {
            Err(StoreError::RevisionOutOfRange)
        } else if !is_identity(row.bundle_artifact_id) || !is_identity(row.repository_id) {
            Err(bad_identity())
        } else if row.proposal_maximum < 0 {
            Err(StoreError::InvalidTicketField { field: "proposal maximum" })
        } else if row.ticket_narrative_byte_limit < 0 {
            Err(StoreError::InvalidTicketField { field: "ticket narrative byte limit" })
        } else if !(0 <= row.ticket_acceptance_criteria_limit <= u16::MAX) {
            Err(StoreError::InvalidTicketField { field: "ticket acceptance criteria limit" })
        } else if !(0 <= row.ticket_contract_read_limit <= u16::MAX) {
            Err(StoreError::InvalidTicketField { field: "ticket contract read limit" })
        } else {
            Ok(
                ProposalAdmissionContext {
                    application_revision_id,
                    aggregate_revision: AggregateRevision { value: row.aggregate_revision as u64 },
                    bundle_artifact_id: ArtifactId { value: row.bundle_artifact_id },
                    repository_id: RepositoryId { value: row.repository_id },
                    proposal_maximum: row.proposal_maximum as u32,
                    ticket_bounds: TicketBounds {
                        narrative_byte_limit: row.ticket_narrative_byte_limit as u32,
                        acceptance_criteria_limit: row.ticket_acceptance_criteria_limit as u16,
                        contract_read_limit: row.ticket_contract_read_limit as u16,
                    },
                },
            )
        },
    }
}

/// Reads the application inputs of proposal admission.
pub fn proposal_admission_context(
    application_revision_id: ApplicationRevisionId,
    row: Option<AdmissionRow>,
) -> (result: Result<ProposalAdmissionContext, StoreError>)
    ensures
        result == spec_admission_context(application_revision_id, row),
{
    let row = match row {
        Some(row) => row,
        None => return Err(StoreError::UnknownApplicationRevision { application_revision_id }),
    };
    let aggregate_revision = match aggregate_revision_from_sql(row.aggregate_revision) {
        Ok(revision) => revision,
        Err(fault) => return Err(fault),
    };
    let bundle_artifact_id = match ArtifactId::new(row.bundle_artifact_id) {
        Ok(id) => id,
        Err(fault) => return Err(StoreError::Contract(fault)),
    };
    let repository_id = match RepositoryId::new(row.repository_id) {
        Ok(id) => id,
        Err(fault) => return Err(StoreError::Contract(fault)),
    };
    let proposal_maximum: u32 = match u32_from_sql(
        row.proposal_maximum as i64,
        "proposal maximum",
    ) {
        Ok(count) => count,
        Err(fault) => return Err(fault),
    };
    let narrative_byte_limit: u32 = match u32_from_sql(
        row.ticket_narrative_byte_limit as i64,
        "ticket narrative byte limit",
    ) {
        Ok(count) => count,
        Err(fault) => return Err(fault),
    };
    if row.ticket_acceptance_criteria_limit < 0 || row.ticket_acceptance_criteria_limit
        > u16::MAX as i32 {
        return Err(StoreError::InvalidTicketField { field: "ticket acceptance criteria limit" });
    }
    if row.ticket_contract_read_limit < 0 || row.ticket_contract_read_limit > u16::MAX as i32 {
        return Err(StoreError::InvalidTicketField { field: "ticket contract read limit" });
    }
    Ok(
        ProposalAdmissionContext {
            application_revision_id,
            aggregate_revision,
            bundle_artifact_id,
            repository_id,
            proposal_maximum,
            ticket_bounds: TicketBounds {
                narrative_byte_limit,
                acceptance_criteria_limit: row.ticket_acceptance_criteria_limit as u16,
                contract_read_limit: row.ticket_contract_read_limit as u16,
            },
        },
    )
}

/// A live ticket's proposal artifact.
#[derive(Clone, Copy, Debug, PartialEq, Eq, Structural)]
pub struct LiveTicketProposalArtifact {
    pub ticket_id: TicketId,
    pub ticket_revision_id: TicketRevisionId,
    pub state: TicketState,
    pub proposal_artifact_id: ArtifactId,
}

/// A live ticket revision, as its columns hold it.
#[derive(Clone, Copy, Debug, PartialEq, Eq, Structural)]
pub struct LiveTicketRow {
    pub ticket_id: i64,
    pub id: i64,
    pub lifecycle: i16,
    pub proposal_artifact_id: i64,
}

pub open spec fn spec_live_ticket(row: LiveTicketRow) -> Result<
    LiveTicketProposalArtifact,
    StoreError,
> {
    if !is_identity(row.ticket_id) || !is_identity(row.id) {
        Err(bad_identity())
    } else {
        match spec_ticket_state_from_sql(row.lifecycle) {
            Err(fault) => Err(fault),
            Ok(state) => if !is_identity(row.proposal_artifact_id) {
                Err(bad_identity())
            } else {
                Ok(
                    LiveTicketProposalArtifact {
                        ticket_id: TicketId { value: row.ticket_id },
                        ticket_revision_id: TicketRevisionId { value: row.id },
                        state,
                        proposal_artifact_id: ArtifactId { value: row.proposal_artifact_id },
                    },
                )
            },
        }
    }
}

fn live_ticket(row: &LiveTicketRow) -> (result: Result<LiveTicketProposalArtifact, StoreError>)
    ensures
        result == spec_live_ticket(*row),
{
    let ticket_id = match TicketId::new(row.ticket_id) {
        Ok(id) => id,
        Err(fault) => return Err(StoreError::Contract(fault)),
    };
    let ticket_revision_id = match TicketRevisionId::new(row.id) {
        Ok(id) => id,
        Err(fault) => return Err(StoreError::Contract(fault)),
    };
    let state = match ticket_state_from_sql(row.lifecycle) {
        Ok(state) => state,
        Err(fault) => return Err(fault),
    };
    let proposal_artifact_id = match ArtifactId::new(row.proposal_artifact_id) {
        Ok(id) => id,
        Err(fault) => return Err(StoreError::Contract(fault)),
    };
    Ok(LiveTicketProposalArtifact { ticket_id, ticket_revision_id, state, proposal_artifact_id })
}

/// Reads the live proposals, in the order given, or refuses at the first bad
/// row.
pub fn live_ticket_proposal_artifacts(rows: &[LiveTicketRow]) -> (result: Result<
    Vec<LiveTicketProposalArtifact>,
    StoreError,
>)
    ensures
        match result {
            Ok(artifacts) => artifacts@.len() == rows@.len() && forall|i: int|
                0 <= i < rows@.len() ==> spec_live_ticket(#[trigger] rows@[i]) == Ok::<
                    LiveTicketProposalArtifact,
                    StoreError,
                >(artifacts@[i]),
            Err(fault) => exists|at: int|
                #![trigger rows@[at]]
                0 <= at < rows@.len() && spec_live_ticket(rows@[at]) == Err::<
                    LiveTicketProposalArtifact,
                    StoreError,
                >(fault) && forall|i: int|
                    0 <= i < at ==> spec_live_ticket(#[trigger] rows@[i]) is Ok,
        },
{
    let mut artifacts: Vec<LiveTicketProposalArtifact> = Vec::new();
    let mut index: usize = 0;
    while index < rows.len()
        invariant
            index <= rows.len(),
            artifacts@.len() == index,
            forall|i: int|
                0 <= i < index ==> spec_live_ticket(#[trigger] rows@[i]) == Ok::<
                    LiveTicketProposalArtifact,
                    StoreError,
                >(artifacts@[i]),
        decreases rows.len() - index,
    {
        match live_ticket(&rows[index]) {
            Ok(artifact) => artifacts.push(artifact),
            Err(fault) => {
                assert(spec_live_ticket(rows@[index as int]) == Err::<
                    LiveTicketProposalArtifact,
                    StoreError,
                >(fault));
                return Err(fault);
            },
        }
        index += 1;
    }
    Ok(artifacts)
}

/// The fences of a failed Engineering attempt that may be retried.
#[derive(Clone, Copy, Debug, PartialEq, Eq, Structural)]
pub struct EngineeringFailureContext {
    pub ticket_attempt_id: TicketAttemptId,
    pub attempt_revision: AggregateRevision,
    pub ticket_revision: AggregateRevision,
}

/// A failed Engineering attempt, as its columns hold it.
#[derive(Clone, Copy, Debug, PartialEq, Eq, Structural)]
pub struct EngineeringFailureRow {
    pub ticket_attempt_id: i64,
    pub attempt_revision: i64,
    pub ticket_revision: i64,
}

pub open spec fn spec_engineering_failure(row: Option<EngineeringFailureRow>) -> Result<
    Option<EngineeringFailureContext>,
    StoreError,
> {
    match row {
        None => Ok(None),
        Some(row) => if !is_identity(row.ticket_attempt_id) {
            Err(bad_identity())
        } else if row.attempt_revision < 0 || row.ticket_revision < 0 {
            Err(StoreError::RevisionOutOfRange)
        } else {
            Ok(
                Some(
                    EngineeringFailureContext {
                        ticket_attempt_id: TicketAttemptId { value: row.ticket_attempt_id },
                        attempt_revision: AggregateRevision { value: row.attempt_revision as u64 },
                        ticket_revision: AggregateRevision { value: row.ticket_revision as u64 },
                    },
                ),
            )
        },
    }
}

/// Reads the fences of the Engineering failure to recover, where there is one.
pub fn recoverable_engineering_failure(row: Option<EngineeringFailureRow>) -> (result: Result<
    Option<EngineeringFailureContext>,
    StoreError,
>)
    ensures
        result == spec_engineering_failure(row),
{
    let row = match row {
        None => return Ok(None),
        Some(row) => row,
    };
    let ticket_attempt_id = match TicketAttemptId::new(row.ticket_attempt_id) {
        Ok(id) => id,
        Err(fault) => return Err(StoreError::Contract(fault)),
    };
    let attempt_revision = match aggregate_revision_from_sql(row.attempt_revision) {
        Ok(revision) => revision,
        Err(fault) => return Err(fault),
    };
    match aggregate_revision_from_sql(row.ticket_revision) {
        Ok(ticket_revision) => Ok(
            Some(EngineeringFailureContext { ticket_attempt_id, attempt_revision, ticket_revision }),
        ),
        Err(fault) => Err(fault),
    }
}

/// A failed Quality attempt and its candidate, as their columns hold them.
#[derive(Clone, Copy, Debug, PartialEq, Eq, Structural)]
pub struct QualityFailureRow {
    pub attempt_id: i64,
    pub attempt_revision: i64,
    pub ticket_revision: i64,
    pub candidate_id: i64,
    pub candidate_revision: i64,
}

pub open spec fn spec_quality_failure(row: Option<QualityFailureRow>) -> Result<
    Option<DownstreamActionContext>,
    StoreError,
> {
    match row {
        None => Ok(None),
        Some(row) => match spec_action_context(
            DownstreamActionStage::ReworkQuality,
            row.attempt_id,
            row.attempt_revision,
            row.ticket_revision,
            row.candidate_id,
            row.candidate_revision,
        ) {
            Err(fault) => Err(fault),
            Ok(context) => Ok(Some(context)),
        },
    }
}

/// Reads the fences of the Quality failure to recover, where there is one.
pub fn recoverable_quality_failure(row: Option<QualityFailureRow>) -> (result: Result<
    Option<DownstreamActionContext>,
    StoreError,
>)
    ensures
        result == spec_quality_failure(row),
{
    match row {
        None => Ok(None),
        Some(row) => match action_context(
            DownstreamActionStage::ReworkQuality,
            row.attempt_id,
            row.attempt_revision,
            row.ticket_revision,
            row.candidate_id,
            row.candidate_revision,
        ) {
            Err(fault) => Err(fault),
            Ok(context) => Ok(Some(context)),
        },
    }
}

/// The two fences needed to close an attempt.
#[derive(Clone, Copy, Debug, PartialEq, Eq, Structural)]
pub struct TicketAttemptFailureContext {
    pub attempt_revision: AggregateRevision,
    pub ticket_revision: AggregateRevision,
}

/// Reads the current failure fences of an attempt.
pub fn failure_context(row: Option<TicketAttemptRow>, ticket_attempt_id: TicketAttemptId) -> (result:
    Result<TicketAttemptFailureContext, StoreError>)
    ensures
        result == (match spec_lock_ticket_attempt(row, ticket_attempt_id) {
            Err(fault) => Err::<TicketAttemptFailureContext, StoreError>(fault),
            Ok(attempt) => Ok(
                TicketAttemptFailureContext {
                    attempt_revision: attempt.revision,
                    ticket_revision: attempt.ticket_revision,
                },
            ),
        }),
{
    match lock_ticket_attempt(row, ticket_attempt_id) {
        Err(fault) => Err(fault),
        Ok(attempt) => Ok(
            TicketAttemptFailureContext {
                attempt_revision: attempt.revision,
                ticket_revision: attempt.ticket_revision,
            },
        ),
    }
}

/// Each downstream stage belongs to exactly one pair of attempt stage and
/// candidate state, told apart by a commit or a review where the pair allows
/// two; every other pair is no downstream work.
pub proof fn law_downstream_stages_are_told_apart(
    attempt_stage: i16,
    candidate_lifecycle: i16,
    commit_present: bool,
    review_present: bool,
)
    ensures
        ({
            let stage = DownstreamActionStage::spec_from_attempt_and_candidate(
                attempt_stage,
                candidate_lifecycle,
                commit_present,
                review_present,
            );
            let in_quality = attempt_stage == 2 && candidate_lifecycle == 1;
            let in_rework_quality = attempt_stage == 6 && candidate_lifecycle == 1;
            &&& stage == Some(DownstreamActionStage::HardValidation) <==> attempt_stage == 1
                && candidate_lifecycle == 0
            &&& stage == Some(DownstreamActionStage::Quality) <==> in_quality && commit_present
            &&& stage == Some(DownstreamActionStage::ReworkQuality) <==> in_rework_quality
                && commit_present
            &&& stage == Some(DownstreamActionStage::CandidateCommitAttachRequired) <==> (in_quality
                || in_rework_quality) && !commit_present
            &&& stage == Some(DownstreamActionStage::AwaitingArchitect) <==> attempt_stage == 3
                && candidate_lifecycle == 1 && review_present
            &&& stage == Some(DownstreamActionStage::QualityReviewRequired) <==> attempt_stage == 3
                && candidate_lifecycle == 1 && !review_present
            &&& stage == Some(DownstreamActionStage::DeliverAccepted) <==> attempt_stage == 3
                && candidate_lifecycle == 3
            &&& stage == Some(DownstreamActionStage::ReworkEngineering) <==> attempt_stage == 4
                && candidate_lifecycle == 2
            &&& stage == Some(DownstreamActionStage::ReworkValidation) <==> attempt_stage == 5
                && candidate_lifecycle == 0
        }),
{
}

/// A buffer status is the campaign's and the counts' own columns, each in its
/// own place, and the heads that were read with them.
pub proof fn law_status_is_what_was_read(
    campaign_id: CampaignId,
    facts: BufferFacts,
    status: TicketBufferStatus,
)
    requires
        buffer_fault(campaign_id, facts) is None,
        status_of(campaign_id, facts, status),
    ensures
        ({
            let campaign = facts.campaign->0;
            &&& status.campaign_id == campaign_id
            &&& status.campaign_revision.value == campaign.revision
            &&& status.campaign_is_running <==> campaign.lifecycle == 0
            &&& status.campaign_deadline_open <==> campaign.deadline_open
            &&& status.campaign_cost_known <==> campaign.cost_state == 0
            &&& status.delivery_target == campaign.delivery_target
            &&& status.delivered_attempt_count == facts.delivered
            &&& status.ready_count == facts.ready
            &&& status.proposed_count == facts.proposed
            &&& status.in_flight_count == facts.in_flight
            &&& status.downstream_attempt_count == facts.downstream.count
            &&& status.paid_session_active == facts.paid_session_active
            &&& status.low_water == campaign.ticket_low_water
            &&& status.target == campaign.ticket_target
            &&& status.maximum is Some <==> campaign.ticket_maximum is Some
            &&& status.maximum is Some ==> status.maximum->0 == campaign.ticket_maximum->0
            &&& status.proposal_maximum == campaign.proposal_maximum
            &&& status.oldest_sponsored_ticket is Some <==> facts.oldest is Some
            &&& facts.oldest is Some
                ==> status.oldest_sponsored_ticket->0.ticket_revision_id.value
                == facts.oldest->0.id && status.oldest_sponsored_ticket->0.revision.value
                == facts.oldest->0.revision
        }),
{
}

/// The downstream head is read exactly when the attempt, its ticket and its
/// candidate are all there and their states make a stage; it then carries the
/// identities and revisions of its own columns.
pub proof fn law_downstream_head_is_its_row(
    campaign_id: CampaignId,
    facts: BufferFacts,
    status: TicketBufferStatus,
)
    requires
        buffer_fault(campaign_id, facts) is None,
        status_of(campaign_id, facts, status),
    ensures
        ({
            let row = facts.downstream;
            let whole = row.ticket_attempt_id is Some && row.ticket_attempt_revision is Some
                && row.ticket_revision is Some && row.ticket_attempt_stage is Some
                && row.candidate_id is Some && row.candidate_revision is Some
                && row.candidate_lifecycle is Some && row.candidate_commit_present is Some;
            &&& !whole ==> status.downstream_action is None
            &&& whole ==> match (
                status.downstream_action,
                DownstreamActionStage::spec_from_attempt_and_candidate(
                    row.ticket_attempt_stage->0,
                    row.candidate_lifecycle->0,
                    row.candidate_commit_present->0,
                    row.quality_review_id is Some,
                ),
            ) {
                (Some(action), Some(stage)) => {
                    &&& action.stage == stage
                    &&& action.ticket_attempt_id.value == row.ticket_attempt_id->0
                    &&& action.ticket_attempt_revision.value == row.ticket_attempt_revision->0
                    &&& action.ticket_revision.value == row.ticket_revision->0
                    &&& action.candidate_id.value == row.candidate_id->0
                    &&& action.candidate_revision.value == row.candidate_revision->0
                },
                (None, None) => true,
                _ => false,
            }
            &&& status.downstream_evidence is Some <==> row.candidate_id is Some
            &&& row.candidate_id is Some ==> {
                let evidence = status.downstream_evidence->0;
                &&& evidence.candidate_commit == row.candidate_commit
                &&& evidence.latest_validation is Some <==> row.validation_id is Some
                &&& evidence.latest_validation matches Some(validation)
                    ==> validation.validation_id.value == row.validation_id->0
                    && validation.log_artifact_id.value == row.validation_log_artifact_id->0 && (
                validation.state == DownstreamValidationState::Passed <==> row.validation_lifecycle
                    == Some(1i16)) && (validation.state == DownstreamValidationState::Failed
                    <==> row.validation_lifecycle == Some(2i16))
                &&& evidence.review is Some <==> row.quality_review_id is Some
                &&& evidence.review matches Some(review) ==> review.review_id.value
                    == row.quality_review_id->0 && review.revision.value == row.review_revision->0
                    && review.rationale_artifact_id.value == row.review_rationale_artifact_id->0
                    && (review.verdict == DownstreamReviewVerdict::Accept <==> row.review_verdict
                    == Some(0i16))
                &&& evidence.architect_decision is Some <==> row.architect_decision_id is Some
                &&& evidence.architect_decision matches Some(decision)
                    ==> decision.architect_decision_id.value == row.architect_decision_id->0
                    && decision.rationale_artifact_id.value
                    == row.architect_decision_rationale_artifact_id->0 && (decision.kind
                    == DownstreamArchitectDecisionKind::Deliver <==> row.architect_decision_kind
                    == Some(2i16)) && (decision.kind == DownstreamArchitectDecisionKind::Rework
                    <==> row.architect_decision_kind == Some(3i16))
            }
        }),
{
}

/// A status is read exactly when the campaign is there with a whole, bounded
/// policy, every count fits, and what is attached to the heads is whole.
pub proof fn law_status_is_read_exactly_when_it_is_whole(
    campaign_id: CampaignId,
    facts: BufferFacts,
)
    ensures
        buffer_fault(campaign_id, facts) is None <==> {
            let campaign = facts.campaign->0;
            let row = facts.downstream;
            let head = row.ticket_attempt_id is Some && row.ticket_attempt_revision is Some
                && row.ticket_revision is Some && row.ticket_attempt_stage is Some
                && row.candidate_id is Some && row.candidate_revision is Some
                && row.candidate_lifecycle is Some && row.candidate_commit_present is Some
                && DownstreamActionStage::spec_from_attempt_and_candidate(
                row.ticket_attempt_stage->0,
                row.candidate_lifecycle->0,
                row.candidate_commit_present->0,
                row.quality_review_id is Some,
            ) is Some;
            &&& facts.campaign is Some
            &&& campaign.application_revision_id > 0
            &&& campaign.revision >= 0
            &&& campaign.delivery_target >= 0
            &&& 0 <= facts.delivered <= u32::MAX
            &&& 0 <= facts.ready <= u32::MAX
            &&& 0 <= facts.proposed <= u32::MAX
            &&& 0 <= facts.in_flight <= u32::MAX
            &&& 0 <= row.count <= u32::MAX
            &&& campaign.ticket_low_water >= 0
            &&& campaign.ticket_target >= 0
            &&& campaign.ticket_maximum matches Some(maximum) ==> maximum >= 0
            &&& campaign.proposal_maximum >= 0
            &&& facts.oldest matches Some(oldest) ==> oldest.id > 0 && oldest.revision >= 0
            &&& head ==> row.ticket_attempt_id->0 > 0 && row.ticket_attempt_revision->0 >= 0
                && row.ticket_revision->0 >= 0 && row.candidate_id->0 > 0
                && row.candidate_revision->0 >= 0
            &&& row.candidate_id is None ==> row.validation_id is None && row.quality_review_id
                is None && row.architect_decision_id is None
            &&& row.candidate_id is Some ==> {
                &&& match (
                    row.validation_id,
                    row.validation_lifecycle,
                    row.validation_log_artifact_id,
                ) {
                    (None, None, None) => true,
                    (Some(id), Some(state), Some(log)) => id > 0 && 1 <= state <= 3 && log > 0,
                    _ => false,
                }
                &&& match (
                    row.quality_review_id,
                    row.review_revision,
                    row.review_verdict,
                    row.review_rationale_artifact_id,
                ) {
                    (None, None, None, None) => true,
                    (Some(id), Some(revision), Some(verdict), Some(rationale)) => id > 0 && revision
                        >= 0 && 0 <= verdict <= 1 && rationale > 0,
                    _ => false,
                }
                &&& match (
                    row.architect_decision_id,
                    row.architect_decision_kind,
                    row.architect_decision_rationale_artifact_id,
                ) {
                    (None, None, None) => true,
                    (Some(id), Some(kind), Some(rationale)) => id > 0 && 2 <= kind <= 4 && rationale
                        > 0,
                    _ => false,
                }
            }
        },
{
    if facts.campaign is Some {
        let counts = pressure_counts(facts.campaign->0, facts);
        lemma_counts_fit(counts);
        assert(counts[0].0 == facts.campaign->0.delivery_target);
        assert(counts[1].0 == facts.delivered);
        assert(counts[2].0 == facts.ready);
        assert(counts[3].0 == facts.proposed);
        assert(counts[4].0 == facts.in_flight);
        assert(counts[5].0 == facts.downstream.count);
    }
}

proof fn lemma_counts_fit(counts: Seq<(i64, &'static str)>)
    ensures
        count_fault(counts) is None <==> forall|i: int|
            0 <= i < counts.len() ==> 0 <= (#[trigger] counts[i]).0 <= u32::MAX,
    decreases counts.len(),
{
    if counts.len() > 0 {
        lemma_counts_fit(counts.skip(1));
        let fits = forall|i: int| 0 <= i < counts.len() ==> 0 <= (#[trigger] counts[i]).0 <= u32::MAX;
        if fits {
            assert forall|i: int| 0 <= i < counts.skip(1).len() implies 0 <= (
            #[trigger] counts.skip(1)[i]).0 <= u32::MAX by {
                assert(counts.skip(1)[i] == counts[i + 1]);
            }
            assert(0 <= counts[0].0 <= u32::MAX);
        }
        if count_fault(counts) is None {
            assert forall|i: int| 0 <= i < counts.len() implies 0 <= (#[trigger] counts[i]).0
                <= u32::MAX by {
                if i > 0 {
                    assert(counts.skip(1)[i - 1] == counts[i]);
                }
            }
        }
    }
}

/// The context a proposal is admitted under is its application row, each bound
/// from its own column, and is there exactly when every column is in range.
pub proof fn law_admission_context_is_its_row(
    application_revision_id: ApplicationRevisionId,
    row: AdmissionRow,
)
    ensures
        ({
            let context = spec_admission_context(application_revision_id, Some(row));
            &&& context is Ok <==> row.aggregate_revision >= 0 && row.bundle_artifact_id > 0
                && row.repository_id > 0 && row.proposal_maximum >= 0
                && row.ticket_narrative_byte_limit >= 0 && 0
                <= row.ticket_acceptance_criteria_limit <= u16::MAX && 0
                <= row.ticket_contract_read_limit <= u16::MAX
            &&& context matches Ok(context) ==> {
                &&& context.application_revision_id == application_revision_id
                &&& context.aggregate_revision.value == row.aggregate_revision
                &&& context.bundle_artifact_id.value == row.bundle_artifact_id
                &&& context.repository_id.value == row.repository_id
                &&& context.proposal_maximum == row.proposal_maximum
                &&& context.ticket_bounds.narrative_byte_limit == row.ticket_narrative_byte_limit
                &&& context.ticket_bounds.acceptance_criteria_limit
                    == row.ticket_acceptance_criteria_limit
                &&& context.ticket_bounds.contract_read_limit == row.ticket_contract_read_limit
            }
        }),
{
}

/// Recoverable failures are read from their own columns; a recoverable Quality
/// failure is always Quality rework.
pub proof fn law_recoverable_failures_are_their_rows(
    engineering: EngineeringFailureRow,
    quality: QualityFailureRow,
    live: LiveTicketRow,
)
    ensures
        spec_engineering_failure(None) == Ok::<Option<EngineeringFailureContext>, StoreError>(None),
        spec_quality_failure(None) == Ok::<Option<DownstreamActionContext>, StoreError>(None),
        spec_engineering_failure(Some(engineering)) is Ok <==> engineering.ticket_attempt_id > 0
            && engineering.attempt_revision >= 0 && engineering.ticket_revision >= 0,
        spec_engineering_failure(Some(engineering)) matches Ok(found) ==> found is Some
            && found->0.ticket_attempt_id.value == engineering.ticket_attempt_id
            && found->0.attempt_revision.value == engineering.attempt_revision
            && found->0.ticket_revision.value == engineering.ticket_revision,
        spec_quality_failure(Some(quality)) is Ok <==> quality.attempt_id > 0
            && quality.attempt_revision >= 0 && quality.ticket_revision >= 0
            && quality.candidate_id > 0 && quality.candidate_revision >= 0,
        spec_quality_failure(Some(quality)) matches Ok(found) ==> found is Some && found->0.stage
            == DownstreamActionStage::ReworkQuality && found->0.ticket_attempt_id.value
            == quality.attempt_id && found->0.ticket_attempt_revision.value
            == quality.attempt_revision && found->0.ticket_revision.value == quality.ticket_revision
            && found->0.candidate_id.value == quality.candidate_id
            && found->0.candidate_revision.value == quality.candidate_revision,
        spec_live_ticket(live) is Ok <==> live.ticket_id > 0 && live.id > 0 && 0 <= live.lifecycle
            <= 7 && live.proposal_artifact_id > 0,
        spec_live_ticket(live) matches Ok(found) ==> found.ticket_id.value == live.ticket_id
            && found.ticket_revision_id.value == live.id && found.proposal_artifact_id.value
            == live.proposal_artifact_id,
{
}

} // verus!
