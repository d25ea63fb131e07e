//! Closed refusals of the durable store.

use vstd::prelude::*;

use crate::digest::ContentDigest;
use crate::identity::{
    AggregateRevision, ApplicationRevisionId, ArtifactId, AssignmentId, CampaignId, ContractError,
    ExpectedRevision, KernelBuildId, RepositoryId, SessionId, TicketAttemptId, TicketRevisionId,
};
use crate::ticket::TicketState;

verus! {

#[allow(inconsistent_fields)]
/// Why the store refuses a command, a projection or a persisted row.
#[derive(Clone, Debug, PartialEq, Eq)]
pub enum StoreError {
    /// A plain value is not a value of its closed contract type.
    Contract(ContractError),
    /// The schema does not carry the identity this library was written for.
    SchemaIdentityMismatch { observed: Option<String> },
    /// Restored audit and material facts disagree.
    RestoreAuditInconsistent,
    /// A restored audit receipt names an unknown, ambiguous or missing subject.
    RestoreAuditSubjectInvalid { audit_log_id: i64, subject_kind: i16, subject_id: i64 },
    /// A restored artifact has a noncanonical persisted path.
    RestoreArtifactPathMismatch { digest: ContentDigest },
    /// A restored artifact's persisted length differs from its bytes.
    RestoreArtifactLengthMismatch { digest: ContentDigest, expected: u64, observed: u64 },
    /// The database server reported a version that is no number.
    UnparseablePostgresVersion { server_version_num: String },
    /// The database server is older than the supported baseline.
    UnsupportedPostgresVersion { server_version_num: u32 },
    /// Another daemon owns the singleton lock.
    DaemonAlreadyRunning,
    /// The daemon lock has already been released.
    DaemonLockAlreadyReleased,
    /// The daemon lock was not owned by this connection.
    DaemonLockLost,
    /// An installed build names another schema identity.
    InstalledSchemaIdentityMismatch,
    /// A path is not an absolute NUL-free UTF-8 path.
    InvalidAbsolutePath { field: &'static str },
    /// A repository's default branch is unsafe.
    InvalidDefaultBranch,
    /// The repository key is already registered.
    RepositoryAlreadyRegistered { repository_key: String },
    /// The kernel build is not installed.
    UnknownKernelBuild { kernel_build_id: KernelBuildId },
    /// No installed kernel build is current.
    NoCurrentKernelBuild,
    /// No kernel build is installed at the named revision.
    UnknownKernelBuildRevision { expected_revision: ExpectedRevision },
    /// The artifact exists with different immutable metadata.
    ArtifactIdentityConflict { digest: ContentDigest },
    /// A supplied seal no longer verifies.
    ArtifactSealChanged,
    /// The qualification receipt changed after it was sealed.
    QualificationReceiptChanged,
    /// A byte length does not fit the artifact column.
    ArtifactLengthOutOfRange,
    /// The audit receipt's subject kind does not match its operation.
    AuditSubjectKindMismatch,
    /// The aggregate is not at the revision the caller expected.
    RevisionConflict { expected: ExpectedRevision, current: AggregateRevision },
    /// The command key was used before for another command.
    IdempotencyConflict { principal: String, command_id: String },
    /// A principal, command ID or bounded text is malformed.
    InvalidCommandComponent { field: &'static str },
    /// A revision does not fit its column, in either direction.
    RevisionOutOfRange,
    /// A digest column does not hold 32 bytes.
    CorruptDigestColumn,
    /// A field of a process command is malformed.
    InvalidProcessCommand { field: &'static str },
    UnknownCampaign { campaign_id: CampaignId },
    /// The campaign is no longer running.
    CampaignClosed { campaign_id: CampaignId },
    /// Another campaign is already running.
    CampaignAlreadyRunning,
    /// More than one campaign is running.
    RunningCampaignCardinality { observed_running: usize },
    /// The campaign still has a running paid session.
    CampaignHasRunningSession { campaign_id: CampaignId },
    /// The campaign's cost admission is frozen.
    CampaignCostFrozen { campaign_id: CampaignId },
    /// The campaign's deadline has passed.
    CampaignDeadlineElapsed,
    UnknownApplicationRevision { application_revision_id: ApplicationRevisionId },
    /// The application revision is not active.
    ApplicationRevisionInactive { application_revision_id: ApplicationRevisionId },
    /// The application revision belongs to no application of that key.
    UnknownApplicationRevisionForKey {
        application_key: String,
        application_revision_id: Option<ApplicationRevisionId>,
    },
    UnknownRepositoryId { repository_id: RepositoryId },
    UnknownAssignment { assignment_id: AssignmentId },
    UnknownSession { session_id: SessionId },
    UnknownArtifact { artifact_id: ArtifactId },
    /// Packet bytes do not carry the digest they are presented under.
    InvalidPacketDigest,
    /// A packet does not match its campaign, assignment or session.
    PacketIdentityMismatch,
    /// A packet's remaining allowance differs from the campaign's.
    RemainingAllowanceMismatch,
    /// Packet bytes differ from the sealed packet artifact.
    PacketArtifactDigestMismatch,
    /// The assignment is not prepared.
    AssignmentStateConflict { assignment_id: AssignmentId },
    /// The session is already terminal.
    SessionAlreadyTerminal { session_id: SessionId },
    /// Another paid session is already running.
    PaidSessionAlreadyRunning,
    /// The terminal operation is not legal for the assignment.
    TerminalOperationNotAllowed,
    /// The stop reason and the cost evidence disagree.
    TerminalCostMismatch,
    /// A lifecycle column holds no known code.
    CorruptLifecycleColumn,
    /// A cost column holds no legal value.
    CorruptCostColumn,
    /// Not every required read was satisfied.
    RequiredReadIncomplete,
    /// The required-read manifest does not belong to the assignment.
    RequiredReadManifestMismatch,
    /// The artifact was sealed by another kernel build.
    ArtifactBuildMismatch,
    /// A terminal artifact is not registered.
    UnregisteredTerminalArtifact,
    UnknownTicketRevision { ticket_revision_id: TicketRevisionId },
    UnknownTicketAttempt { ticket_attempt_id: TicketAttemptId },
    /// The ticket revision is not in the required state.
    TicketStateConflict { required: TicketState, observed: TicketState },
    /// The attempt is not in a releasable failed state.
    TicketAttemptNotReleasable,
    /// The attempt has already been released.
    TicketAttemptAlreadyReleased,
    /// Another ticket already owns the reproducer.
    DuplicateTicketReproducer { reproducer_artifact_id: ArtifactId },
    /// Ticket and campaign belong to different applications.
    CampaignApplicationMismatch,
    /// The two proposal observations differ.
    ProposalNotReproducible,
    /// The proposal's reproducer does not show the declared failure.
    ProposalDoesNotFail,
    /// The unsponsored proposal buffer is full.
    ProposalBufferFull,
    /// The sponsored ready buffer is full.
    ReadyTicketBufferFull,
    /// Another ticket of the application is in flight.
    EngineeringTicketAlreadyInFlight,
    /// Requalification evidence is incomplete or inconsistent.
    InvalidTicketRequalification,
    /// The campaign has not delivered its target yet.
    CampaignDeliveryTargetNotReached,
    /// A field of a ticket command is malformed.
    InvalidTicketField { field: &'static str },
    /// A ticket column holds no known code.
    CorruptTicketState,
    /// A provider effect was recorded before with other contents.
    ProviderEffectConflict,
    /// A provider effect was settled before it was started.
    ProviderEffectNotStarted,
    /// A harness names another packet artifact than the admitted one.
    HarnessPacketArtifactMismatch,
}

} // verus!
