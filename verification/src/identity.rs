//! Durable identities and aggregate revisions.

use vstd::prelude::*;

use crate::digest::ContentDigest;

verus! {

/// Why a plain value is not a value of a closed contract type.
#[derive(Clone, Copy, Debug, PartialEq, Eq, Structural)]
pub enum ContractError {
    /// A durable identity must be positive.
    NonPositiveIdentity,
    /// A digest must be 64 lowercase hexadecimal digits.
    InvalidDigest,
    /// An aggregate revision cannot advance past its last value.
    RevisionOverflow,
    /// An assignment packet breaks its own contract.
    InvalidPacket,
    /// A request field is outside its closed contract.
    InvalidRequest,
}

/// Position of an aggregate in its own history.
#[derive(Clone, Copy, Debug, PartialEq, Eq, PartialOrd, Ord, Hash, Structural)]
pub struct AggregateRevision {
    pub value: u64,
}

impl AggregateRevision {
    /// The revision of an aggregate that was just created.
    pub open spec fn spec_initial() -> AggregateRevision {
        AggregateRevision { value: 0 }
    }

    /// The revision after this one, where there is one.
    pub open spec fn spec_next(self) -> Result<AggregateRevision, ContractError> {
        if self.value == u64::MAX {
            Err(ContractError::RevisionOverflow)
        } else {
            Ok(AggregateRevision { value: (self.value + 1) as u64 })
        }
    }

    pub fn initial() -> (revision: AggregateRevision)
        ensures
            revision == AggregateRevision::spec_initial(),
    {
        AggregateRevision { value: 0 }
    }

    /// A revision read back from storage.
    pub fn from_persisted(value: u64) -> (revision: AggregateRevision)
        ensures
            revision.value == value,
    {
        AggregateRevision { value }
    }

    pub fn get(self) -> (value: u64)
        ensures
            value == self.value,
    {
        self.value
    }

    /// The revision after this one.
    pub fn next(self) -> (result: Result<AggregateRevision, ContractError>)
        ensures
            result == self.spec_next(),
    {
        if self.value == u64::MAX {
            Err(ContractError::RevisionOverflow)
        } else {
            Ok(AggregateRevision { value: self.value + 1 })
        }
    }
}

/// The revision a caller believes an aggregate to be at.
#[derive(Clone, Copy, Debug, PartialEq, Eq, PartialOrd, Ord, Hash, Structural)]
pub struct ExpectedRevision {
    pub revision: AggregateRevision,
}

impl ExpectedRevision {
    pub fn new(revision: AggregateRevision) -> (expected: ExpectedRevision)
        ensures
            expected.revision == revision,
    {
        ExpectedRevision { revision }
    }

    pub fn get(self) -> (revision: AggregateRevision)
        ensures
            revision == self.revision,
    {
        self.revision
    }
}

/// Identity of one installed kernel build.
#[derive(Clone, Copy, Debug, PartialEq, Eq, Hash)]
pub struct KernelBuildId {
    pub digest: ContentDigest,
}

impl KernelBuildId {
    pub fn new(digest: ContentDigest) -> (build: KernelBuildId)
        ensures
            build.digest == digest,
    {
        KernelBuildId { digest }
    }

    pub fn digest(&self) -> (digest: ContentDigest)
        ensures
            digest == self.digest,
    {
        self.digest
    }

    /// Whether two build identities are equal.
    pub fn same(&self, other: &KernelBuildId) -> (equal: bool)
        ensures
            equal == (*self == *other),
    {
        self.digest.same(&other.digest)
    }
}

/// Physical seal of bytes held in content-addressed storage.
#[derive(Clone, Copy, Debug, PartialEq, Eq, Hash)]
pub struct CasArtifact {
    pub digest: ContentDigest,
    pub byte_length: u64,
}

impl CasArtifact {
    pub fn digest(&self) -> (digest: ContentDigest)
        ensures
            digest == self.digest,
    {
        self.digest
    }

    pub fn byte_length(&self) -> (byte_length: u64)
        ensures
            byte_length == self.byte_length,
    {
        self.byte_length
    }

    /// Whether two seals name the same bytes.
    pub fn same(&self, other: &CasArtifact) -> (equal: bool)
        ensures
            equal == (*self == *other),
    {
        self.digest.same(&other.digest) && self.byte_length == other.byte_length
    }
}

/// A durable identity is positive.
pub open spec fn is_identity(value: i64) -> bool {
    value > 0
}

/// Identity of a campaign.
#[derive(Clone, Copy, Debug, PartialEq, Eq, PartialOrd, Ord, Hash, Structural)]
pub struct CampaignId {
    pub value: i64,
}

impl CampaignId {
    pub open spec fn spec_new(value: i64) -> Result<CampaignId, ContractError> {
        if is_identity(value) {
            Ok(CampaignId { value })
        } else {
            Err(ContractError::NonPositiveIdentity)
        }
    }

    pub fn new(value: i64) -> (result: Result<CampaignId, ContractError>)
        ensures
            result == CampaignId::spec_new(value),
    {
        if value > 0 {
            Ok(CampaignId { value })
        } else {
            Err(ContractError::NonPositiveIdentity)
        }
    }

    pub fn get(self) -> (value: i64)
        ensures
            value == self.value,
    {
        self.value
    }
}

/// Identity of an assignment.
#[derive(Clone, Copy, Debug, PartialEq, Eq, PartialOrd, Ord, Hash, Structural)]
pub struct AssignmentId {
    pub value: i64,
}

impl AssignmentId {
    pub open spec fn spec_new(value: i64) -> Result<AssignmentId, ContractError> {
        if is_identity(value) {
            Ok(AssignmentId { value })
        } else {
            Err(ContractError::NonPositiveIdentity)
        }
    }

    pub fn new(value: i64) -> (result: Result<AssignmentId, ContractError>)
        ensures
            result == AssignmentId::spec_new(value),
    {
        if value > 0 {
            Ok(AssignmentId { value })
        } else {
            Err(ContractError::NonPositiveIdentity)
        }
    }

    pub fn get(self) -> (value: i64)
        ensures
            value == self.value,
    {
        self.value
    }
}

/// Identity of a session.
#[derive(Clone, Copy, Debug, PartialEq, Eq, PartialOrd, Ord, Hash, Structural)]
pub struct SessionId {
    pub value: i64,
}

impl SessionId {
    pub open spec fn spec_new(value: i64) -> Result<SessionId, ContractError> {
        if is_identity(value) {
            Ok(SessionId { value })
        } else {
            Err(ContractError::NonPositiveIdentity)
        }
    }

    pub fn new(value: i64) -> (result: Result<SessionId, ContractError>)
        ensures
            result == SessionId::spec_new(value),
    {
        if value > 0 {
            Ok(SessionId { value })
        } else {
            Err(ContractError::NonPositiveIdentity)
        }
    }

    pub fn get(self) -> (value: i64)
        ensures
            value == self.value,
    {
        self.value
    }
}

/// Identity of a sealed artifact.
#[derive(Clone, Copy, Debug, PartialEq, Eq, PartialOrd, Ord, Hash, Structural)]
pub struct ArtifactId {
    pub value: i64,
}

impl ArtifactId {
    pub open spec fn spec_new(value: i64) -> Result<ArtifactId, ContractError> {
        if is_identity(value) {
            Ok(ArtifactId { value })
        } else {
            Err(ContractError::NonPositiveIdentity)
        }
    }

    pub fn new(value: i64) -> (result: Result<ArtifactId, ContractError>)
        ensures
            result == ArtifactId::spec_new(value),
    {
        if value > 0 {
            Ok(ArtifactId { value })
        } else {
            Err(ContractError::NonPositiveIdentity)
        }
    }

    pub fn get(self) -> (value: i64)
        ensures
            value == self.value,
    {
        self.value
    }
}

/// Identity of an application revision.
#[derive(Clone, Copy, Debug, PartialEq, Eq, PartialOrd, Ord, Hash, Structural)]
pub struct ApplicationRevisionId {
    pub value: i64,
}

impl ApplicationRevisionId {
    pub open spec fn spec_new(value: i64) -> Result<ApplicationRevisionId, ContractError> {
        if is_identity(value) {
            Ok(ApplicationRevisionId { value })
        } else {
            Err(ContractError::NonPositiveIdentity)
        }
    }

    pub fn new(value: i64) -> (result: Result<ApplicationRevisionId, ContractError>)
        ensures
            result == ApplicationRevisionId::spec_new(value),
    {
        if value > 0 {
            Ok(ApplicationRevisionId { value })
        } else {
            Err(ContractError::NonPositiveIdentity)
        }
    }

    pub fn get(self) -> (value: i64)
        ensures
            value == self.value,
    {
        self.value
    }
}

/// Identity of a repository.
#[derive(Clone, Copy, Debug, PartialEq, Eq, PartialOrd, Ord, Hash, Structural)]
pub struct RepositoryId {
    pub value: i64,
}

impl RepositoryId {
    pub open spec fn spec_new(value: i64) -> Result<RepositoryId, ContractError> {
        if is_identity(value) {
            Ok(RepositoryId { value })
        } else {
            Err(ContractError::NonPositiveIdentity)
        }
    }

    pub fn new(value: i64) -> (result: Result<RepositoryId, ContractError>)
        ensures
            result == RepositoryId::spec_new(value),
    {
        if value > 0 {
            Ok(RepositoryId { value })
        } else {
            Err(ContractError::NonPositiveIdentity)
        }
    }

    pub fn get(self) -> (value: i64)
        ensures
            value == self.value,
    {
        self.value
    }
}

/// Identity of a ticket.
#[derive(Clone, Copy, Debug, PartialEq, Eq, PartialOrd, Ord, Hash, Structural)]
pub struct TicketId {
    pub value: i64,
}

impl TicketId {
    pub open spec fn spec_new(value: i64) -> Result<TicketId, ContractError> {
        if is_identity(value) {
            Ok(TicketId { value })
        } else {
            Err(ContractError::NonPositiveIdentity)
        }
    }

    pub fn new(value: i64) -> (result: Result<TicketId, ContractError>)
        ensures
            result == TicketId::spec_new(value),
    {
        if value > 0 {
            Ok(TicketId { value })
        } else {
            Err(ContractError::NonPositiveIdentity)
        }
    }

    pub fn get(self) -> (value: i64)
        ensures
            value == self.value,
    {
        self.value
    }
}

/// Identity of a ticket revision.
#[derive(Clone, Copy, Debug, PartialEq, Eq, PartialOrd, Ord, Hash, Structural)]
pub struct TicketRevisionId {
    pub value: i64,
}

impl TicketRevisionId {
    pub open spec fn spec_new(value: i64) -> Result<TicketRevisionId, ContractError> {
        if is_identity(value) {
            Ok(TicketRevisionId { value })
        } else {
            Err(ContractError::NonPositiveIdentity)
        }
    }

    pub fn new(value: i64) -> (result: Result<TicketRevisionId, ContractError>)
        ensures
            result == TicketRevisionId::spec_new(value),
    {
        if value > 0 {
            Ok(TicketRevisionId { value })
        } else {
            Err(ContractError::NonPositiveIdentity)
        }
    }

    pub fn get(self) -> (value: i64)
        ensures
            value == self.value,
    {
        self.value
    }
}

/// Identity of a ticket attempt.
#[derive(Clone, Copy, Debug, PartialEq, Eq, PartialOrd, Ord, Hash, Structural)]
pub struct TicketAttemptId {
    pub value: i64,
}

impl TicketAttemptId {
    pub open spec fn spec_new(value: i64) -> Result<TicketAttemptId, ContractError> {
        if is_identity(value) {
            Ok(TicketAttemptId { value })
        } else {
            Err(ContractError::NonPositiveIdentity)
        }
    }

    pub fn new(value: i64) -> (result: Result<TicketAttemptId, ContractError>)
        ensures
            result == TicketAttemptId::spec_new(value),
    {
        if value > 0 {
            Ok(TicketAttemptId { value })
        } else {
            Err(ContractError::NonPositiveIdentity)
        }
    }

    pub fn get(self) -> (value: i64)
        ensures
            value == self.value,
    {
        self.value
    }
}

/// Identity of a candidate.
#[derive(Clone, Copy, Debug, PartialEq, Eq, PartialOrd, Ord, Hash, Structural)]
pub struct CandidateId {
    pub value: i64,
}

impl CandidateId {
    pub open spec fn spec_new(value: i64) -> Result<CandidateId, ContractError> {
        if is_identity(value) {
            Ok(CandidateId { value })
        } else {
            Err(ContractError::NonPositiveIdentity)
        }
    }

    pub fn new(value: i64) -> (result: Result<CandidateId, ContractError>)
        ensures
            result == CandidateId::spec_new(value),
    {
        if value > 0 {
            Ok(CandidateId { value })
        } else {
            Err(ContractError::NonPositiveIdentity)
        }
    }

    pub fn get(self) -> (value: i64)
        ensures
            value == self.value,
    {
        self.value
    }
}

/// Identity of a validation.
#[derive(Clone, Copy, Debug, PartialEq, Eq, PartialOrd, Ord, Hash, Structural)]
pub struct ValidationId {
    pub value: i64,
}

impl ValidationId {
    pub open spec fn spec_new(value: i64) -> Result<ValidationId, ContractError> {
        if is_identity(value) {
            Ok(ValidationId { value })
        } else {
            Err(ContractError::NonPositiveIdentity)
        }
    }

    pub fn new(value: i64) -> (result: Result<ValidationId, ContractError>)
        ensures
            result == ValidationId::spec_new(value),
    {
        if value > 0 {
            Ok(ValidationId { value })
        } else {
            Err(ContractError::NonPositiveIdentity)
        }
    }

    pub fn get(self) -> (value: i64)
        ensures
            value == self.value,
    {
        self.value
    }
}

/// Identity of a review.
#[derive(Clone, Copy, Debug, PartialEq, Eq, PartialOrd, Ord, Hash, Structural)]
pub struct ReviewId {
    pub value: i64,
}

impl ReviewId {
    pub open spec fn spec_new(value: i64) -> Result<ReviewId, ContractError> {
        if is_identity(value) {
            Ok(ReviewId { value })
        } else {
            Err(ContractError::NonPositiveIdentity)
        }
    }

    pub fn new(value: i64) -> (result: Result<ReviewId, ContractError>)
        ensures
            result == ReviewId::spec_new(value),
    {
        if value > 0 {
            Ok(ReviewId { value })
        } else {
            Err(ContractError::NonPositiveIdentity)
        }
    }

    pub fn get(self) -> (value: i64)
        ensures
            value == self.value,
    {
        self.value
    }
}

/// Identity of an architect decision.
#[derive(Clone, Copy, Debug, PartialEq, Eq, PartialOrd, Ord, Hash, Structural)]
pub struct ArchitectDecisionId {
    pub value: i64,
}

impl ArchitectDecisionId {
    pub open spec fn spec_new(value: i64) -> Result<ArchitectDecisionId, ContractError> {
        if is_identity(value) {
            Ok(ArchitectDecisionId { value })
        } else {
            Err(ContractError::NonPositiveIdentity)
        }
    }

    pub fn new(value: i64) -> (result: Result<ArchitectDecisionId, ContractError>)
        ensures
            result == ArchitectDecisionId::spec_new(value),
    {
        if value > 0 {
            Ok(ArchitectDecisionId { value })
        } else {
            Err(ContractError::NonPositiveIdentity)
        }
    }

    pub fn get(self) -> (value: i64)
        ensures
            value == self.value,
    {
        self.value
    }
}

/// Identity of a publication.
#[derive(Clone, Copy, Debug, PartialEq, Eq, PartialOrd, Ord, Hash, Structural)]
pub struct PublicationId {
    pub value: i64,
}

impl PublicationId {
    pub open spec fn spec_new(value: i64) -> Result<PublicationId, ContractError> {
        if is_identity(value) {
            Ok(PublicationId { value })
        } else {
            Err(ContractError::NonPositiveIdentity)
        }
    }

    pub fn new(value: i64) -> (result: Result<PublicationId, ContractError>)
        ensures
            result == PublicationId::spec_new(value),
    {
        if value > 0 {
            Ok(PublicationId { value })
        } else {
            Err(ContractError::NonPositiveIdentity)
        }
    }

    pub fn get(self) -> (value: i64)
        ensures
            value == self.value,
    {
        self.value
    }
}

/// Identity of an office.
#[derive(Clone, Copy, Debug, PartialEq, Eq, PartialOrd, Ord, Hash, Structural)]
pub struct OfficeId {
    pub value: i64,
}

impl OfficeId {
    pub open spec fn spec_new(value: i64) -> Result<OfficeId, ContractError> {
        if is_identity(value) {
            Ok(OfficeId { value })
        } else {
            Err(ContractError::NonPositiveIdentity)
        }
    }

    pub fn new(value: i64) -> (result: Result<OfficeId, ContractError>)
        ensures
            result == OfficeId::spec_new(value),
    {
        if value > 0 {
            Ok(OfficeId { value })
        } else {
            Err(ContractError::NonPositiveIdentity)
        }
    }

    pub fn get(self) -> (value: i64)
        ensures
            value == self.value,
    {
        self.value
    }
}

/// Identity of an audit receipt.
#[derive(Clone, Copy, Debug, PartialEq, Eq, PartialOrd, Ord, Hash, Structural)]
pub struct AuditLogId {
    pub value: i64,
}

impl AuditLogId {
    pub open spec fn spec_new(value: i64) -> Result<AuditLogId, ContractError> {
        if is_identity(value) {
            Ok(AuditLogId { value })
        } else {
            Err(ContractError::NonPositiveIdentity)
        }
    }

    pub fn new(value: i64) -> (result: Result<AuditLogId, ContractError>)
        ensures
            result == AuditLogId::spec_new(value),
    {
        if value > 0 {
            Ok(AuditLogId { value })
        } else {
            Err(ContractError::NonPositiveIdentity)
        }
    }

    pub fn get(self) -> (value: i64)
        ensures
            value == self.value,
    {
        self.value
    }
}

/// Identity of a project.
#[derive(Clone, Copy, Debug, PartialEq, Eq, PartialOrd, Ord, Hash, Structural)]
pub struct ProjectId {
    pub value: i64,
}

impl ProjectId {
    pub open spec fn spec_new(value: i64) -> Result<ProjectId, ContractError> {
        if is_identity(value) {
            Ok(ProjectId { value })
        } else {
            Err(ContractError::NonPositiveIdentity)
        }
    }

    pub fn new(value: i64) -> (result: Result<ProjectId, ContractError>)
        ensures
            result == ProjectId::spec_new(value),
    {
        if value > 0 {
            Ok(ProjectId { value })
        } else {
            Err(ContractError::NonPositiveIdentity)
        }
    }

    pub fn get(self) -> (value: i64)
        ensures
            value == self.value,
    {
        self.value
    }
}

/// Identity of a request for comments.
#[derive(Clone, Copy, Debug, PartialEq, Eq, PartialOrd, Ord, Hash, Structural)]
pub struct RfcId {
    pub value: i64,
}

impl RfcId {
    pub open spec fn spec_new(value: i64) -> Result<RfcId, ContractError> {
        if is_identity(value) {
            Ok(RfcId { value })
        } else {
            Err(ContractError::NonPositiveIdentity)
        }
    }

    pub fn new(value: i64) -> (result: Result<RfcId, ContractError>)
        ensures
            result == RfcId::spec_new(value),
    {
        if value > 0 {
            Ok(RfcId { value })
        } else {
            Err(ContractError::NonPositiveIdentity)
        }
    }

    pub fn get(self) -> (value: i64)
        ensures
            value == self.value,
    {
        self.value
    }
}

/// Identity of a revision of a request for comments.
#[derive(Clone, Copy, Debug, PartialEq, Eq, PartialOrd, Ord, Hash, Structural)]
pub struct RfcRevisionId {
    pub value: i64,
}

impl RfcRevisionId {
    pub open spec fn spec_new(value: i64) -> Result<RfcRevisionId, ContractError> {
        if is_identity(value) {
            Ok(RfcRevisionId { value })
        } else {
            Err(ContractError::NonPositiveIdentity)
        }
    }

    pub fn new(value: i64) -> (result: Result<RfcRevisionId, ContractError>)
        ensures
            result == RfcRevisionId::spec_new(value),
    {
        if value > 0 {
            Ok(RfcRevisionId { value })
        } else {
            Err(ContractError::NonPositiveIdentity)
        }
    }

    pub fn get(self) -> (value: i64)
        ensures
            value == self.value,
    {
        self.value
    }
}

/// Identity of an experiment.
#[derive(Clone, Copy, Debug, PartialEq, Eq, PartialOrd, Ord, Hash, Structural)]
pub struct ExperimentId {
    pub value: i64,
}

impl ExperimentId {
    pub open spec fn spec_new(value: i64) -> Result<ExperimentId, ContractError> {
        if is_identity(value) {
            Ok(ExperimentId { value })
        } else {
            Err(ContractError::NonPositiveIdentity)
        }
    }

    pub fn new(value: i64) -> (result: Result<ExperimentId, ContractError>)
        ensures
            result == ExperimentId::spec_new(value),
    {
        if value > 0 {
            Ok(ExperimentId { value })
        } else {
            Err(ContractError::NonPositiveIdentity)
        }
    }

    pub fn get(self) -> (value: i64)
        ensures
            value == self.value,
    {
        self.value
    }
}

/// Identity of a run of an experiment.
#[derive(Clone, Copy, Debug, PartialEq, Eq, PartialOrd, Ord, Hash, Structural)]
pub struct ExperimentRunId {
    pub value: i64,
}

impl ExperimentRunId {
    pub open spec fn spec_new(value: i64) -> Result<ExperimentRunId, ContractError> {
        if is_identity(value) {
            Ok(ExperimentRunId { value })
        } else {
            Err(ContractError::NonPositiveIdentity)
        }
    }

    pub fn new(value: i64) -> (result: Result<ExperimentRunId, ContractError>)
        ensures
            result == ExperimentRunId::spec_new(value),
    {
        if value > 0 {
            Ok(ExperimentRunId { value })
        } else {
            Err(ContractError::NonPositiveIdentity)
        }
    }

    pub fn get(self) -> (value: i64)
        ensures
            value == self.value,
    {
        self.value
    }
}

/// Identity of a claim.
#[derive(Clone, Copy, Debug, PartialEq, Eq, PartialOrd, Ord, Hash, Structural)]
pub struct ClaimId {
    pub value: i64,
}

impl ClaimId {
    pub open spec fn spec_new(value: i64) -> Result<ClaimId, ContractError> {
        if is_identity(value) {
            Ok(ClaimId { value })
        } else {
            Err(ContractError::NonPositiveIdentity)
        }
    }

    pub fn new(value: i64) -> (result: Result<ClaimId, ContractError>)
        ensures
            result == ClaimId::spec_new(value),
    {
        if value > 0 {
            Ok(ClaimId { value })
        } else {
            Err(ContractError::NonPositiveIdentity)
        }
    }

    pub fn get(self) -> (value: i64)
        ensures
            value == self.value,
    {
        self.value
    }
}

/// Identity of a decision.
#[derive(Clone, Copy, Debug, PartialEq, Eq, PartialOrd, Ord, Hash, Structural)]
pub struct DecisionId {
    pub value: i64,
}

impl DecisionId {
    pub open spec fn spec_new(value: i64) -> Result<DecisionId, ContractError> {
        if is_identity(value) {
            Ok(DecisionId { value })
        } else {
            Err(ContractError::NonPositiveIdentity)
        }
    }

    pub fn new(value: i64) -> (result: Result<DecisionId, ContractError>)
        ensures
            result == DecisionId::spec_new(value),
    {
        if value > 0 {
            Ok(DecisionId { value })
        } else {
            Err(ContractError::NonPositiveIdentity)
        }
    }

    pub fn get(self) -> (value: i64)
        ensures
            value == self.value,
    {
        self.value
    }
}

/// An identity is a positive number, and a revision begins at zero and advances
/// by one up to its last value.
pub proof fn law_identities_and_revisions(value: i64, revision: AggregateRevision)
    ensures
        is_identity(value) <==> value > 0,
        AggregateRevision::spec_initial().value == 0,
        revision.spec_next() is Ok <==> revision.value < 18_446_744_073_709_551_615,
        revision.spec_next() matches Ok(next) ==> next.value == revision.value + 1,
{
}

} // verus!
