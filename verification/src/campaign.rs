//! Campaign commands: starting, cancelling, failing, and the status projection.

use vstd::prelude::*;

use crate::audit::{
    aggregate_revision_from_sql, next_revision, replay, revision_to_sql, spec_next_revision,
    spec_replay, spec_revision_from_sql, spec_revision_to_sql, spec_validate_process_key,
    validate_command, Audit, AuditRow,
};
use crate::digest::{blake3_of, ContentDigest};
use crate::encoding::{
    be32, be64, be_i64, frameable, framed, lemma_be32_head, lemma_be64_head, lemma_be_i64_head,
    lemma_framed_head, push_framed, push_i64, push_u32, push_u64,
};
use crate::error::StoreError;
use crate::identity::{
    AggregateRevision, ApplicationRevisionId, CampaignId, ExpectedRevision, KernelBuildId,
    RepositoryId, SessionId,
};
use crate::protocol::{
    campaign_state_from_code, spec_campaign_state_from_code, CampaignState, MicroUsd, TerminalCost,
    CAMPAIGN_CANCEL, CAMPAIGN_FAIL, CAMPAIGN_START, CAMPAIGN_SUBJECT, COST_EXCEEDED, COST_KNOWN,
    COST_UNKNOWN, RUNNING,
};
use crate::text::{bounded_text_ok, is_bounded_text, is_printable, printable_ok};

verus! {

/// Opens a campaign over one application revision.
#[derive(Clone, Debug, PartialEq, Eq)]
pub struct StartCampaign {
    pub principal: String,
    pub command_id: String,
    /// Guards the application revision the campaign is pinned to. The current
    /// build and the repository are resolved, not chosen by the caller.
    pub expected_application_revision: ExpectedRevision,
    pub application_revision_id: ApplicationRevisionId,
    pub aggregate_budget: MicroUsd,
    pub deadline_unix_millis: u64,
    pub delivery_target: u32,
}

/// The answer to a campaign command.
#[derive(Clone, Copy, Debug, PartialEq, Eq)]
pub struct CampaignReceipt {
    pub campaign_id: CampaignId,
    pub resulting_revision: AggregateRevision,
    pub kernel_build_id: KernelBuildId,
    pub application_revision_id: ApplicationRevisionId,
    pub repository_id: RepositoryId,
    pub audit_log_id: i64,
    pub was_idempotent_retry: bool,
}

/// Operator-authorized cancellation of a running campaign.
#[derive(Clone, Debug, PartialEq, Eq)]
pub struct CancelCampaign {
    pub principal: String,
    pub command_id: String,
    pub expected_revision: ExpectedRevision,
    pub campaign_id: CampaignId,
}

/// Closes a running campaign after a failure, with one bounded explanation.
#[derive(Clone, Debug, PartialEq, Eq)]
pub struct FailCampaign {
    pub principal: String,
    pub command_id: String,
    pub expected_revision: ExpectedRevision,
    pub campaign_id: CampaignId,
    pub reason: String,
}

/// The newest Git identities of a campaign's work and its newest delivery.
/// Fields are absent until their facts exist.
#[derive(Clone, Debug, PartialEq, Eq)]
pub struct CampaignProductIdentity {
    pub base_commit: Option<String>,
    pub candidate_tree: Option<String>,
    pub candidate_commit: Option<String>,
    pub delivered_commit: Option<String>,
    pub delivered_factory_cost_micro_usd: Option<u64>,
}

/// The newest identities of a campaign, as their columns hold them.
#[derive(Clone, Debug, PartialEq, Eq)]
pub struct ProductIdentityRow {
    /// The newest attempt's claimed commit.
    pub claimed_commit: Option<String>,
    /// The newest candidate's base commit.
    pub base_commit: Option<String>,
    pub candidate_tree: Option<String>,
    pub candidate_commit: Option<String>,
    pub delivered_commit: Option<String>,
    pub delivered_factory_cost_micro_usd: Option<i64>,
}

/// The newest identities of a campaign's work. A candidate's base comes before
/// the claim it grew from; a negative cost is refused.
pub fn campaign_product_identity(row: ProductIdentityRow) -> (result: Result<
    CampaignProductIdentity,
    StoreError,
>)
    ensures
        match result {
            Err(fault) => fault == StoreError::CorruptCostColumn && (
            row.delivered_factory_cost_micro_usd matches Some(cost) && cost < 0),
            Ok(identity) => {
                &&& row.delivered_factory_cost_micro_usd matches Some(cost) ==> cost >= 0
                &&& identity == (CampaignProductIdentity {
                    base_commit: if row.base_commit is Some {
                        row.base_commit
                    } else {
                        row.claimed_commit
                    },
                    candidate_tree: row.candidate_tree,
                    candidate_commit: row.candidate_commit,
                    delivered_commit: row.delivered_commit,
                    delivered_factory_cost_micro_usd: match row.delivered_factory_cost_micro_usd {
                        Some(cost) => Some(cost as u64),
                        None => None,
                    },
                })
            },
        },
{
    let cost = match row.delivered_factory_cost_micro_usd {
        None => None,
        Some(cost) => {
            if cost < 0 {
                return Err(StoreError::CorruptCostColumn);
            }
            Some(cost as u64)
        },
    };
    Ok(
        CampaignProductIdentity {
            base_commit: match row.base_commit {
                Some(commit) => Some(commit),
                None => row.claimed_commit,
            },
            candidate_tree: row.candidate_tree,
            candidate_commit: row.candidate_commit,
            delivered_commit: row.delivered_commit,
            delivered_factory_cost_micro_usd: cost,
        },
    )
}

/// Proof that the active session of a campaign was waited for and reconciled.
#[derive(Clone, Copy, Debug, PartialEq, Eq, Structural)]
pub struct ReconciledSessionCancellation {
    pub campaign_id: CampaignId,
    pub session_id: SessionId,
    pub campaign_revision: AggregateRevision,
}

/// What a cancellation request leads to.
#[derive(Clone, Copy, Debug, PartialEq, Eq, Structural)]
pub enum CampaignCancellationAdmission {
    /// The campaign moves to its cancelled revision.
    Cancel(CampaignTransition),
    /// A paid session must be stopped and reconciled first.
    ActiveSession { session_id: SessionId },
}

/// A campaign row's move to its next revision.
#[derive(Clone, Copy, Debug, PartialEq, Eq, Structural)]
pub struct CampaignTransition {
    pub resulting_revision: AggregateRevision,
    pub revision_column: i64,
}

/// The installed build that is current, as its columns hold it.
#[derive(Clone, Debug, PartialEq, Eq)]
pub struct CurrentBuildRow {
    pub id: i64,
    pub build_digest: Vec<u8>,
}

/// The selected application revision, as its columns hold it.
#[derive(Clone, Copy, Debug, PartialEq, Eq, Structural)]
pub struct ApplicationRow {
    pub repository_id: i64,
    pub aggregate_revision: i64,
    pub is_active: bool,
}

/// What the store holds when a campaign is about to be started.
#[derive(Clone, Debug, PartialEq, Eq)]
pub struct StartCampaignFacts {
    pub any_campaign_running: bool,
    pub current_build: Option<CurrentBuildRow>,
    pub application: Option<ApplicationRow>,
    /// Whether the requested deadline lies after the store's clock.
    pub deadline_open: bool,
}

/// The campaign row to insert, at revision zero, and the pins to answer with.
#[derive(Clone, Copy, Debug, PartialEq, Eq)]
pub struct StartCampaignPlan {
    pub kernel_build_row: i64,
    pub kernel_build_id: KernelBuildId,
    pub repository_id: RepositoryId,
    pub budget: i64,
    pub deadline: i64,
    pub delivery_target: i32,
}

/// A campaign row under lock.
#[derive(Clone, Copy, Debug, PartialEq, Eq, Structural)]
pub struct CampaignRow {
    pub lifecycle: i16,
    pub revision: i64,
}

/// The immutable pins of a campaign, as their columns hold them.
#[derive(Clone, Debug, PartialEq, Eq)]
pub struct CampaignPinRow {
    pub build_digest: Vec<u8>,
    pub application_revision_id: i64,
    pub repository_id: i64,
}

/// The immutable pins of a campaign.
#[derive(Clone, Copy, Debug, PartialEq, Eq)]
pub struct CampaignPinning {
    pub kernel_build_id: KernelBuildId,
    pub application_revision_id: ApplicationRevisionId,
    pub repository_id: RepositoryId,
}

/// Reads a digest column back.
pub fn bytes_to_digest(bytes: &[u8]) -> (result: Result<[u8; 32], StoreError>)
    ensures
        match result {
            Ok(array) => bytes@.len() == 32 && array@ == bytes@,
            Err(fault) => bytes@.len() != 32 && fault == StoreError::CorruptDigestColumn,
        },
{
    if bytes.len() != 32 {
        return Err(StoreError::CorruptDigestColumn);
    }
    let mut array: [u8; 32] = [0u8; 32];
    let mut index: usize = 0;
    while index < 32
        invariant
            index <= 32,
            bytes@.len() == 32,
            array@.len() == 32,
            forall|i: int| 0 <= i < index ==> array@[i] == bytes@[i],
        decreases 32 - index,
    {
        array[index] = bytes[index];
        index += 1;
    }
    assert(array@ =~= bytes@);
    Ok(array)
}

/// The bytes a start command is fingerprinted by.
pub open spec fn start_preimage(command: StartCampaign) -> Seq<u8> {
    framed(CAMPAIGN_START@) + (framed(command.principal@) + (framed(command.command_id@) + (be64(
        command.expected_application_revision.revision.value,
    ) + (be_i64(command.application_revision_id.value) + (be64(command.aggregate_budget.value) + (
    be64(command.deadline_unix_millis) + be32(command.delivery_target)))))))
}

/// The bytes a cancel command is fingerprinted by.
pub open spec fn cancel_preimage(command: CancelCampaign) -> Seq<u8> {
    framed(CAMPAIGN_CANCEL@) + (framed(command.principal@) + (framed(command.command_id@) + (be64(
        command.expected_revision.revision.value,
    ) + be_i64(command.campaign_id.value))))
}

/// The bytes a fail command is fingerprinted by.
pub open spec fn fail_preimage(command: FailCampaign) -> Seq<u8> {
    framed(CAMPAIGN_FAIL@) + (framed(command.principal@) + (framed(command.command_id@) + (be64(
        command.expected_revision.revision.value,
    ) + (be_i64(command.campaign_id.value) + framed(command.reason@)))))
}

/// Fingerprint of a start command.
pub fn fingerprint_campaign(command: &StartCampaign) -> (digest: ContentDigest)
    ensures
        digest.bytes == blake3_of(start_preimage(*command)),
{
    let mut bytes: Vec<u8> = Vec::new();
    push_framed(&mut bytes, CAMPAIGN_START);
    push_framed(&mut bytes, command.principal.as_str());
    push_framed(&mut bytes, command.command_id.as_str());
    push_u64(&mut bytes, command.expected_application_revision.revision.value);
    push_i64(&mut bytes, command.application_revision_id.value);
    push_u64(&mut bytes, command.aggregate_budget.value);
    push_u64(&mut bytes, command.deadline_unix_millis);
    push_u32(&mut bytes, command.delivery_target);
    assert(bytes@ =~= start_preimage(*command));
    ContentDigest::of_bytes(bytes.as_slice())
}

/// Fingerprint of a cancel command.
pub fn fingerprint_cancel_campaign(command: &CancelCampaign) -> (digest: ContentDigest)
    ensures
        digest.bytes == blake3_of(cancel_preimage(*command)),
{
    let mut bytes: Vec<u8> = Vec::new();
    push_framed(&mut bytes, CAMPAIGN_CANCEL);
    push_framed(&mut bytes, command.principal.as_str());
    push_framed(&mut bytes, command.command_id.as_str());
    push_u64(&mut bytes, command.expected_revision.revision.value);
    push_i64(&mut bytes, command.campaign_id.value);
    assert(bytes@ =~= cancel_preimage(*command));
    ContentDigest::of_bytes(bytes.as_slice())
}

/// Fingerprint of a fail command.
pub fn fingerprint_fail_campaign(command: &FailCampaign) -> (digest: ContentDigest)
    ensures
        digest.bytes == blake3_of(fail_preimage(*command)),
{
    let mut bytes: Vec<u8> = Vec::new();
    push_framed(&mut bytes, CAMPAIGN_FAIL);
    push_framed(&mut bytes, command.principal.as_str());
    push_framed(&mut bytes, command.command_id.as_str());
    push_u64(&mut bytes, command.expected_revision.revision.value);
    push_i64(&mut bytes, command.campaign_id.value);
    push_framed(&mut bytes, command.reason.as_str());
    assert(bytes@ =~= fail_preimage(*command));
    ContentDigest::of_bytes(bytes.as_slice())
}

/// Two start commands are hashed from the same bytes only when they agree in
/// every field.
pub proof fn law_start_preimage_injective(left: StartCampaign, right: StartCampaign)
    requires
        frameable(left.principal@),
        frameable(left.command_id@),
        frameable(right.principal@),
        frameable(right.command_id@),
        start_preimage(left) == start_preimage(right),
    ensures
        left.principal@ == right.principal@,
        left.command_id@ == right.command_id@,
        left.expected_application_revision == right.expected_application_revision,
        left.application_revision_id == right.application_revision_id,
        left.aggregate_budget == right.aggregate_budget,
        left.deadline_unix_millis == right.deadline_unix_millis,
        left.delivery_target == right.delivery_target,
{
    let l6 = be32(left.delivery_target);
    let r6 = be32(right.delivery_target);
    let l5 = be64(left.deadline_unix_millis) + l6;
    let r5 = be64(right.deadline_unix_millis) + r6;
    let l4 = be64(left.aggregate_budget.value) + l5;
    let r4 = be64(right.aggregate_budget.value) + r5;
    let l3 = be_i64(left.application_revision_id.value) + l4;
    let r3 = be_i64(right.application_revision_id.value) + r4;
    let l2 = be64(left.expected_application_revision.revision.value) + l3;
    let r2 = be64(right.expected_application_revision.revision.value) + r3;
    let l1 = framed(left.command_id@) + l2;
    let r1 = framed(right.command_id@) + r2;
    crate::encoding::lemma_concat_split(
        framed(CAMPAIGN_START@),
        framed(left.principal@) + l1,
        framed(CAMPAIGN_START@),
        framed(right.principal@) + r1,
    );
    lemma_framed_head(left.principal@, l1, right.principal@, r1);
    lemma_framed_head(left.command_id@, l2, right.command_id@, r2);
    lemma_be64_head(
        left.expected_application_revision.revision.value,
        l3,
        right.expected_application_revision.revision.value,
        r3,
    );
    lemma_be_i64_head(left.application_revision_id.value, l4, right.application_revision_id.value, r4);
    lemma_be64_head(left.aggregate_budget.value, l5, right.aggregate_budget.value, r5);
    lemma_be64_head(left.deadline_unix_millis, l6, right.deadline_unix_millis, r6);
    assert(l6 =~= l6 + Seq::<u8>::empty());
    assert(r6 =~= r6 + Seq::<u8>::empty());
    lemma_be32_head(left.delivery_target, Seq::empty(), right.delivery_target, Seq::empty());
}

/// Two cancel commands are hashed from the same bytes only when they agree in
/// every field.
pub proof fn law_cancel_preimage_injective(left: CancelCampaign, right: CancelCampaign)
    requires
        frameable(left.principal@),
        frameable(left.command_id@),
        frameable(right.principal@),
        frameable(right.command_id@),
        cancel_preimage(left) == cancel_preimage(right),
    ensures
        left.principal@ == right.principal@,
        left.command_id@ == right.command_id@,
        left.expected_revision == right.expected_revision,
        left.campaign_id == right.campaign_id,
{
    let l3 = be_i64(left.campaign_id.value);
    let r3 = be_i64(right.campaign_id.value);
    let l2 = be64(left.expected_revision.revision.value) + l3;
    let r2 = be64(right.expected_revision.revision.value) + r3;
    let l1 = framed(left.command_id@) + l2;
    let r1 = framed(right.command_id@) + r2;
    crate::encoding::lemma_concat_split(
        framed(CAMPAIGN_CANCEL@),
        framed(left.principal@) + l1,
        framed(CAMPAIGN_CANCEL@),
        framed(right.principal@) + r1,
    );
    lemma_framed_head(left.principal@, l1, right.principal@, r1);
    lemma_framed_head(left.command_id@, l2, right.command_id@, r2);
    lemma_be64_head(
        left.expected_revision.revision.value,
        l3,
        right.expected_revision.revision.value,
        r3,
    );
    assert(l3 =~= l3 + Seq::<u8>::empty());
    assert(r3 =~= r3 + Seq::<u8>::empty());
    lemma_be_i64_head(left.campaign_id.value, Seq::empty(), right.campaign_id.value, Seq::empty());
}

/// Two fail commands are hashed from the same bytes only when they agree in
/// every field.
pub proof fn law_fail_preimage_injective(left: FailCampaign, right: FailCampaign)
    requires
        frameable(left.principal@),
        frameable(left.command_id@),
        frameable(left.reason@),
        frameable(right.principal@),
        frameable(right.command_id@),
        frameable(right.reason@),
        fail_preimage(left) == fail_preimage(right),
    ensures
        left.principal@ == right.principal@,
        left.command_id@ == right.command_id@,
        left.expected_revision == right.expected_revision,
        left.campaign_id == right.campaign_id,
        left.reason@ == right.reason@,
{
    let l4 = framed(left.reason@);
    let r4 = framed(right.reason@);
    let l3 = be_i64(left.campaign_id.value) + l4;
    let r3 = be_i64(right.campaign_id.value) + r4;
    let l2 = be64(left.expected_revision.revision.value) + l3;
    let r2 = be64(right.expected_revision.revision.value) + r3;
    let l1 = framed(left.command_id@) + l2;
    let r1 = framed(right.command_id@) + r2;
    crate::encoding::lemma_concat_split(
        framed(CAMPAIGN_FAIL@),
        framed(left.principal@) + l1,
        framed(CAMPAIGN_FAIL@),
        framed(right.principal@) + r1,
    );
    lemma_framed_head(left.principal@, l1, right.principal@, r1);
    lemma_framed_head(left.command_id@, l2, right.command_id@, r2);
    lemma_be64_head(
        left.expected_revision.revision.value,
        l3,
        right.expected_revision.revision.value,
        r3,
    );
    lemma_be_i64_head(left.campaign_id.value, l4, right.campaign_id.value, r4);
    assert(l4 =~= l4 + Seq::<u8>::empty());
    assert(r4 =~= r4 + Seq::<u8>::empty());
    lemma_framed_head(left.reason@, Seq::empty(), right.reason@, Seq::empty());
}

/// Whether a failure explanation is one through 240 bytes of printable text.
pub open spec fn spec_validate_failure_reason(reason: Seq<char>) -> Result<(), StoreError> {
    if is_bounded_text(reason, 240) && is_printable(reason) {
        Ok(())
    } else {
        Err(StoreError::InvalidProcessCommand { field: "campaign failure reason" })
    }
}

/// Refuses an empty, overlong or unprintable failure explanation: it explains
/// one fault and is no channel for reports.
pub fn validate_failure_reason(reason: &str) -> (result: Result<(), StoreError>)
    ensures
        result == spec_validate_failure_reason(reason@),
{
    if bounded_text_ok(reason, 240) && printable_ok(reason) {
        Ok(())
    } else {
        Err(StoreError::InvalidProcessCommand { field: "campaign failure reason" })
    }
}

/// The receipt, if any, that already answers a start command; or why it is
/// refused before the store is looked at any further.
pub open spec fn spec_admit_start(command: StartCampaign, audit: Option<AuditRow>) -> Result<
    Option<Audit>,
    StoreError,
> {
    match spec_validate_process_key(command.principal@, command.command_id@) {
        Err(fault) => Err(fault),
        Ok(()) => if command.delivery_target == 0 || command.deadline_unix_millis == 0 {
            Err(StoreError::InvalidProcessCommand { field: "campaign bounds" })
        } else {
            spec_replay(
                audit,
                command.principal,
                command.command_id,
                CAMPAIGN_START@,
                ContentDigest { bytes: blake3_of(start_preimage(command)) },
                CAMPAIGN_SUBJECT,
            )
        },
    }
}

/// Admits a start command against its command key.
pub fn admit_start_campaign(command: &StartCampaign, audit: Option<&AuditRow>) -> (result: Result<
    Option<Audit>,
    StoreError,
>)
    ensures
        result == spec_admit_start(
            *command,
            match audit {
                Some(row) => Some(*row),
                None => None,
            },
        ),
{
    match validate_command(command.principal.as_str(), command.command_id.as_str()) {
        Err(fault) => return Err(fault),
        Ok(()) => {},
    }
    if command.delivery_target == 0 || command.deadline_unix_millis == 0 {
        return Err(StoreError::InvalidProcessCommand { field: "campaign bounds" });
    }
    replay(
        audit,
        &command.principal,
        &command.command_id,
        CAMPAIGN_START,
        fingerprint_campaign(command),
        CAMPAIGN_SUBJECT,
    )
}

/// Why a start command that no receipt answers is refused, if it is.
pub open spec fn start_fault(command: StartCampaign, facts: StartCampaignFacts) -> Option<
    StoreError,
> {
    if facts.any_campaign_running {
        Some(StoreError::CampaignAlreadyRunning)
    } else if facts.current_build is None {
        Some(StoreError::NoCurrentKernelBuild)
    } else if facts.current_build->0.build_digest@.len() != 32 {
        Some(StoreError::CorruptDigestColumn)
    } else if facts.application is None {
        Some(
            StoreError::UnknownApplicationRevision {
                application_revision_id: command.application_revision_id,
            },
        )
    } else {
        let application = facts.application->0;
        if application.aggregate_revision < 0 {
            Some(StoreError::RevisionOutOfRange)
        } else if command.expected_application_revision.revision.value
            != application.aggregate_revision {
            Some(
                StoreError::RevisionConflict {
                    expected: command.expected_application_revision,
                    current: AggregateRevision { value: application.aggregate_revision as u64 },
                },
            )
        } else if !application.is_active {
            Some(
                StoreError::ApplicationRevisionInactive {
                    application_revision_id: command.application_revision_id,
                },
            )
        } else if application.repository_id <= 0 {
            Some(StoreError::Contract(crate::identity::ContractError::NonPositiveIdentity))
        } else if command.aggregate_budget.value > i64::MAX {
            Some(StoreError::InvalidProcessCommand { field: "aggregate budget" })
        } else if command.deadline_unix_millis > i64::MAX {
            Some(StoreError::InvalidProcessCommand { field: "deadline" })
        } else if command.delivery_target > i32::MAX {
            Some(StoreError::InvalidProcessCommand { field: "delivery target" })
        } else if !facts.deadline_open {
            Some(StoreError::CampaignDeadlineElapsed)
        } else {
            None
        }
    }
}

/// Plans the campaign row of a start command that no receipt answers.
pub fn start_campaign(command: &StartCampaign, facts: &StartCampaignFacts) -> (result: Result<
    StartCampaignPlan,
    StoreError,
>)
    ensures
        match result {
            Err(fault) => start_fault(*command, *facts) == Some(fault),
            Ok(plan) => {
                &&& start_fault(*command, *facts) is None
                &&& plan.kernel_build_row == facts.current_build->0.id
                &&& plan.kernel_build_id.digest.bytes@ == facts.current_build->0.build_digest@
                &&& plan.repository_id.value == facts.application->0.repository_id
                &&& plan.budget == command.aggregate_budget.value
                &&& plan.deadline == command.deadline_unix_millis
                &&& plan.delivery_target == command.delivery_target
            },
        },
{
    if facts.any_campaign_running {
        return Err(StoreError::CampaignAlreadyRunning);
    }
    let build = match &facts.current_build {
        Some(build) => build,
        None => return Err(StoreError::NoCurrentKernelBuild),
    };
    let digest = match bytes_to_digest(build.build_digest.as_slice()) {
        Ok(bytes) => ContentDigest { bytes },
        Err(fault) => return Err(fault),
    };
    let application = match facts.application {
        Some(application) => application,
        None => return Err(
            StoreError::UnknownApplicationRevision {
                application_revision_id: command.application_revision_id,
            },
        ),
    };
    let current = match aggregate_revision_from_sql(application.aggregate_revision) {
        Ok(revision) => revision,
        Err(fault) => return Err(fault),
    };
    if command.expected_application_revision.revision != current {
        return Err(
            StoreError::RevisionConflict {
                expected: command.expected_application_revision,
                current,
            },
        );
    }
    if !application.is_active {
        return Err(
            StoreError::ApplicationRevisionInactive {
                application_revision_id: command.application_revision_id,
            },
        );
    }
    let repository_id = match RepositoryId::new(application.repository_id) {
        Ok(id) => id,
        Err(fault) => return Err(StoreError::Contract(fault)),
    };
    if command.aggregate_budget.value > i64::MAX as u64 {
        return Err(StoreError::InvalidProcessCommand { field: "aggregate budget" });
    }
    if command.deadline_unix_millis > i64::MAX as u64 {
        return Err(StoreError::InvalidProcessCommand { field: "deadline" });
    }
    if command.delivery_target > i32::MAX as u32 {
        return Err(StoreError::InvalidProcessCommand { field: "delivery target" });
    }
    if !facts.deadline_open {
        return Err(StoreError::CampaignDeadlineElapsed);
    }
    Ok(
        StartCampaignPlan {
            kernel_build_row: build.id,
            kernel_build_id: KernelBuildId { digest },
            repository_id,
            budget: command.aggregate_budget.value as i64,
            deadline: command.deadline_unix_millis as i64,
            delivery_target: command.delivery_target as i32,
        },
    )
}

/// The receipt of a campaign whose row and audit receipt were just written.
pub fn started_campaign_receipt(
    command: &StartCampaign,
    plan: &StartCampaignPlan,
    campaign_row: i64,
    audit_log_id: i64,
) -> (result: Result<CampaignReceipt, StoreError>)
    ensures
        match result {
            Err(fault) => campaign_row <= 0 && fault == StoreError::Contract(
                crate::identity::ContractError::NonPositiveIdentity,
            ),
            Ok(receipt) => campaign_row > 0 && receipt == (CampaignReceipt {
                campaign_id: CampaignId { value: campaign_row },
                resulting_revision: AggregateRevision::spec_initial(),
                kernel_build_id: plan.kernel_build_id,
                application_revision_id: command.application_revision_id,
                repository_id: plan.repository_id,
                audit_log_id,
                was_idempotent_retry: false,
            }),
        },
{
    let campaign_id = match CampaignId::new(campaign_row) {
        Ok(id) => id,
        Err(fault) => return Err(StoreError::Contract(fault)),
    };
    Ok(
        CampaignReceipt {
            campaign_id,
            resulting_revision: AggregateRevision::initial(),
            kernel_build_id: plan.kernel_build_id,
            application_revision_id: command.application_revision_id,
            repository_id: plan.repository_id,
            audit_log_id,
            was_idempotent_retry: false,
        },
    )
}

/// Why a campaign's persisted pins are refused, if they are.
pub open spec fn pinning_fault(row: Option<CampaignPinRow>, campaign_id: CampaignId) -> Option<
    StoreError,
> {
    match row {
        None => Some(StoreError::UnknownCampaign { campaign_id }),
        Some(row) => if row.build_digest@.len() != 32 {
            Some(StoreError::CorruptDigestColumn)
        } else if row.application_revision_id <= 0 || row.repository_id <= 0 {
            Some(StoreError::Contract(crate::identity::ContractError::NonPositiveIdentity))
        } else {
            None
        },
    }
}

/// Whether `pins` are what the row holds.
pub open spec fn pins_of(row: CampaignPinRow, pins: CampaignPinning) -> bool {
    &&& pins.kernel_build_id.digest.bytes@ == row.build_digest@
    &&& pins.application_revision_id.value == row.application_revision_id
    &&& pins.repository_id.value == row.repository_id
}

/// Reads the immutable pins of a campaign back.
pub fn campaign_pinning(row: Option<&CampaignPinRow>, campaign_id: CampaignId) -> (result: Result<
    CampaignPinning,
    StoreError,
>)
    ensures
        ({
            let row = match row {
                Some(row) => Some(*row),
                None => None,
            };
            match result {
                Err(fault) => pinning_fault(row, campaign_id) == Some(fault),
                Ok(pins) => pinning_fault(row, campaign_id) is None && pins_of(row->0, pins),
            }
        }),
{
    let row = match row {
        Some(row) => row,
        None => return Err(StoreError::UnknownCampaign { campaign_id }),
    };
    let digest = match bytes_to_digest(row.build_digest.as_slice()) {
        Ok(bytes) => ContentDigest { bytes },
        Err(fault) => return Err(fault),
    };
    let application_revision_id = match ApplicationRevisionId::new(row.application_revision_id) {
        Ok(id) => id,
        Err(fault) => return Err(StoreError::Contract(fault)),
    };
    let repository_id = match RepositoryId::new(row.repository_id) {
        Ok(id) => id,
        Err(fault) => return Err(StoreError::Contract(fault)),
    };
    Ok(
        CampaignPinning {
            kernel_build_id: KernelBuildId { digest },
            application_revision_id,
            repository_id,
        },
    )
}

/// The receipt a repeated campaign command is answered with: the recorded
/// subject and revision, and the campaign's pins.
pub fn replayed_campaign_receipt(audit: &Audit, pins: &CampaignPinning) -> (result: Result<
    CampaignReceipt,
    StoreError,
>)
    ensures
        match result {
            Err(fault) => audit.subject_id <= 0 && fault == StoreError::Contract(
                crate::identity::ContractError::NonPositiveIdentity,
            ),
            Ok(receipt) => audit.subject_id > 0 && receipt == (CampaignReceipt {
                campaign_id: CampaignId { value: audit.subject_id },
                resulting_revision: audit.resulting_revision,
                kernel_build_id: pins.kernel_build_id,
                application_revision_id: pins.application_revision_id,
                repository_id: pins.repository_id,
                audit_log_id: audit.audit_log_id,
                was_idempotent_retry: true,
            }),
        },
{
    let campaign_id = match CampaignId::new(audit.subject_id) {
        Ok(id) => id,
        Err(fault) => return Err(StoreError::Contract(fault)),
    };
    Ok(
        CampaignReceipt {
            campaign_id,
            resulting_revision: audit.resulting_revision,
            kernel_build_id: pins.kernel_build_id,
            application_revision_id: pins.application_revision_id,
            repository_id: pins.repository_id,
            audit_log_id: audit.audit_log_id,
            was_idempotent_retry: true,
        },
    )
}

/// The receipt of a campaign transition that was just written.
pub fn campaign_transition_receipt(
    campaign_id: CampaignId,
    transition: &CampaignTransition,
    pins: &CampaignPinning,
    audit_log_id: i64,
) -> (receipt: CampaignReceipt)
    ensures
        receipt == (CampaignReceipt {
            campaign_id,
            resulting_revision: transition.resulting_revision,
            kernel_build_id: pins.kernel_build_id,
            application_revision_id: pins.application_revision_id,
            repository_id: pins.repository_id,
            audit_log_id,
            was_idempotent_retry: false,
        }),
{
    CampaignReceipt {
        campaign_id,
        resulting_revision: transition.resulting_revision,
        kernel_build_id: pins.kernel_build_id,
        application_revision_id: pins.application_revision_id,
        repository_id: pins.repository_id,
        audit_log_id,
        was_idempotent_retry: false,
    }
}

/// A row's move from `current` to the revision after it.
pub open spec fn spec_transition(current: AggregateRevision) -> Result<
    CampaignTransition,
    StoreError,
> {
    match spec_next_revision(current) {
        Err(fault) => Err(fault),
        Ok(resulting_revision) => match spec_revision_to_sql(resulting_revision) {
            Err(fault) => Err(fault),
            Ok(revision_column) => Ok(CampaignTransition { resulting_revision, revision_column }),
        },
    }
}

/// Plans a row's move to its next revision.
pub fn plan_transition(current: AggregateRevision) -> (result: Result<
    CampaignTransition,
    StoreError,
>)
    ensures
        result == spec_transition(current),
{
    match next_revision(current) {
        Err(fault) => Err(fault),
        Ok(resulting_revision) => match revision_to_sql(resulting_revision) {
            Err(fault) => Err(fault),
            Ok(revision_column) => Ok(CampaignTransition { resulting_revision, revision_column }),
        },
    }
}

/// The receipt, if any, that already answers a cancel command.
pub open spec fn spec_admit_cancel(command: CancelCampaign, audit: Option<AuditRow>) -> Result<
    Option<Audit>,
    StoreError,
> {
    match spec_validate_process_key(command.principal@, command.command_id@) {
        Err(fault) => Err(fault),
        Ok(()) => spec_replay(
            audit,
            command.principal,
            command.command_id,
            CAMPAIGN_CANCEL@,
            ContentDigest { bytes: blake3_of(cancel_preimage(command)) },
            CAMPAIGN_SUBJECT,
        ),
    }
}

/// Admits a cancel command against its command key.
pub fn admit_cancel_campaign(command: &CancelCampaign, audit: Option<&AuditRow>) -> (result: Result<
    Option<Audit>,
    StoreError,
>)
    ensures
        result == spec_admit_cancel(
            *command,
            match audit {
                Some(row) => Some(*row),
                None => None,
            },
        ),
{
    match validate_command(command.principal.as_str(), command.command_id.as_str()) {
        Err(fault) => return Err(fault),
        Ok(()) => {},
    }
    replay(
        audit,
        &command.principal,
        &command.command_id,
        CAMPAIGN_CANCEL,
        fingerprint_cancel_campaign(command),
        CAMPAIGN_SUBJECT,
    )
}

/// What a fresh cancel command leads to: the campaign must be running at the
/// expected revision; a running session must be stopped first.
pub open spec fn spec_admit_campaign_cancellation(
    command: CancelCampaign,
    campaign: Option<CampaignRow>,
    running_session: Option<i64>,
) -> Result<CampaignCancellationAdmission, StoreError> {
    match campaign {
        None => Err(StoreError::UnknownCampaign { campaign_id: command.campaign_id }),
        Some(row) => match spec_revision_from_sql(row.revision) {
            Err(fault) => Err(fault),
            Ok(current) => if command.expected_revision.revision != current {
                Err(StoreError::RevisionConflict { expected: command.expected_revision, current })
            } else if row.lifecycle != RUNNING {
                Err(StoreError::CampaignClosed { campaign_id: command.campaign_id })
            } else {
                match running_session {
                    Some(id) => match SessionId::spec_new(id) {
                        Ok(session_id) => Ok(
                            CampaignCancellationAdmission::ActiveSession { session_id },
                        ),
                        Err(fault) => Err(StoreError::Contract(fault)),
                    },
                    None => match spec_transition(current) {
                        Ok(transition) => Ok(CampaignCancellationAdmission::Cancel(transition)),
                        Err(fault) => Err(fault),
                    },
                }
            },
        },
    }
}

/// Decides what a fresh cancel command leads to.
pub fn admit_campaign_cancellation(
    command: &CancelCampaign,
    campaign: Option<CampaignRow>,
    running_session: Option<i64>,
) -> (result: Result<CampaignCancellationAdmission, StoreError>)
    ensures
        result == spec_admit_campaign_cancellation(*command, campaign, running_session),
{
    let row = match campaign {
        Some(row) => row,
        None => return Err(StoreError::UnknownCampaign { campaign_id: command.campaign_id }),
    };
    let current = match aggregate_revision_from_sql(row.revision) {
        Ok(revision) => revision,
        Err(fault) => return Err(fault),
    };
    if command.expected_revision.revision != current {
        return Err(
            StoreError::RevisionConflict { expected: command.expected_revision, current },
        );
    }
    if row.lifecycle != RUNNING {
        return Err(StoreError::CampaignClosed { campaign_id: command.campaign_id });
    }
    if let Some(id) = running_session {
        return match SessionId::new(id) {
            Ok(session_id) => Ok(CampaignCancellationAdmission::ActiveSession { session_id }),
            Err(fault) => Err(StoreError::Contract(fault)),
        };
    }
    match plan_transition(current) {
        Ok(transition) => Ok(CampaignCancellationAdmission::Cancel(transition)),
        Err(fault) => Err(fault),
    }
}

/// A plain cancellation: an active session refuses it.
pub fn cancel_campaign(command: &CancelCampaign, admission: CampaignCancellationAdmission) -> (result:
    Result<CampaignTransition, StoreError>)
    ensures
        result == (match admission {
            CampaignCancellationAdmission::Cancel(transition) => Ok::<
                CampaignTransition,
                StoreError,
            >(transition),
            CampaignCancellationAdmission::ActiveSession { .. } => Err(
                StoreError::CampaignHasRunningSession { campaign_id: command.campaign_id },
            ),
        }),
{
    match admission {
        CampaignCancellationAdmission::Cancel(transition) => Ok(transition),
        CampaignCancellationAdmission::ActiveSession { .. } => Err(
            StoreError::CampaignHasRunningSession { campaign_id: command.campaign_id },
        ),
    }
}

/// Whether a reconciliation belongs to this cancel command: the same campaign,
/// one revision past the one the command expected.
pub open spec fn spec_check_reconciled(
    command: CancelCampaign,
    reconciled: ReconciledSessionCancellation,
) -> Result<(), StoreError> {
    if reconciled.campaign_id != command.campaign_id {
        Err(StoreError::InvalidProcessCommand { field: "reconciled cancellation session" })
    } else {
        match spec_next_revision(command.expected_revision.revision) {
            Err(fault) => Err(fault),
            Ok(next) => if reconciled.campaign_revision != next {
                Err(StoreError::InvalidProcessCommand { field: "reconciled cancellation session" })
            } else {
                Ok(())
            },
        }
    }
}

/// Admits the second half of a cancellation against its command key.
pub fn admit_finish_cancellation(
    command: &CancelCampaign,
    reconciled: ReconciledSessionCancellation,
    audit: Option<&AuditRow>,
) -> (result: Result<Option<Audit>, StoreError>)
    ensures
        result == (match spec_validate_process_key(command.principal@, command.command_id@) {
            Err(fault) => Err(fault),
            Ok(()) => match spec_check_reconciled(*command, reconciled) {
                Err(fault) => Err(fault),
                Ok(()) => spec_admit_cancel(
                    *command,
                    match audit {
                        Some(row) => Some(*row),
                        None => None,
                    },
                ),
            },
        }),
{
    match validate_command(command.principal.as_str(), command.command_id.as_str()) {
        Err(fault) => return Err(fault),
        Ok(()) => {},
    }
    if reconciled.campaign_id != command.campaign_id {
        return Err(
            StoreError::InvalidProcessCommand { field: "reconciled cancellation session" },
        );
    }
    match next_revision(command.expected_revision.revision) {
        Err(fault) => return Err(fault),
        Ok(next) => if reconciled.campaign_revision != next {
            return Err(
                StoreError::InvalidProcessCommand { field: "reconciled cancellation session" },
            );
        },
    }
    admit_cancel_campaign(command, audit)
}

/// The campaign transition that completes a cancellation whose session was
/// reconciled: the campaign must be running at the reconciled revision.
pub open spec fn spec_finish_campaign_cancellation(
    command: CancelCampaign,
    reconciled: ReconciledSessionCancellation,
    campaign: Option<CampaignRow>,
) -> Result<CampaignTransition, StoreError> {
    match campaign {
        None => Err(StoreError::UnknownCampaign { campaign_id: command.campaign_id }),
        Some(row) => match spec_revision_from_sql(row.revision) {
            Err(fault) => Err(fault),
            Ok(current) => if row.lifecycle != RUNNING {
                Err(StoreError::CampaignClosed { campaign_id: command.campaign_id })
            } else if current != reconciled.campaign_revision {
                Err(
                    StoreError::RevisionConflict {
                        expected: ExpectedRevision { revision: reconciled.campaign_revision },
                        current,
                    },
                )
            } else {
                spec_transition(current)
            },
        },
    }
}

/// Plans the completion of a cancellation whose session was reconciled.
pub fn finish_campaign_cancellation(
    command: &CancelCampaign,
    reconciled: ReconciledSessionCancellation,
    campaign: Option<CampaignRow>,
) -> (result: Result<CampaignTransition, StoreError>)
    ensures
        result == spec_finish_campaign_cancellation(*command, reconciled, campaign),
{
    let row = match campaign {
        Some(row) => row,
        None => return Err(StoreError::UnknownCampaign { campaign_id: command.campaign_id }),
    };
    let current = match aggregate_revision_from_sql(row.revision) {
        Ok(revision) => revision,
        Err(fault) => return Err(fault),
    };
    if row.lifecycle != RUNNING {
        return Err(StoreError::CampaignClosed { campaign_id: command.campaign_id });
    }
    if current != reconciled.campaign_revision {
        return Err(
            StoreError::RevisionConflict {
                expected: ExpectedRevision { revision: reconciled.campaign_revision },
                current,
            },
        );
    }
    plan_transition(current)
}

/// The receipt, if any, that already answers a fail command.
pub open spec fn spec_admit_fail(command: FailCampaign, audit: Option<AuditRow>) -> Result<
    Option<Audit>,
    StoreError,
> {
    match spec_validate_process_key(command.principal@, command.command_id@) {
        Err(fault) => Err(fault),
        Ok(()) => match spec_validate_failure_reason(command.reason@) {
            Err(fault) => Err(fault),
            Ok(()) => spec_replay(
                audit,
                command.principal,
                command.command_id,
                CAMPAIGN_FAIL@,
                ContentDigest { bytes: blake3_of(fail_preimage(command)) },
                CAMPAIGN_SUBJECT,
            ),
        },
    }
}

/// Admits a fail command against its command key.
pub fn admit_fail_campaign(command: &FailCampaign, audit: Option<&AuditRow>) -> (result: Result<
    Option<Audit>,
    StoreError,
>)
    ensures
        result == spec_admit_fail(
            *command,
            match audit {
                Some(row) => Some(*row),
                None => None,
            },
        ),
{
    match validate_command(command.principal.as_str(), command.command_id.as_str()) {
        Err(fault) => return Err(fault),
        Ok(()) => {},
    }
    match validate_failure_reason(command.reason.as_str()) {
        Err(fault) => return Err(fault),
        Ok(()) => {},
    }
    replay(
        audit,
        &command.principal,
        &command.command_id,
        CAMPAIGN_FAIL,
        fingerprint_fail_campaign(command),
        CAMPAIGN_SUBJECT,
    )
}

/// The transition of a fresh fail command. The row's lifecycle becomes failed
/// and its failure reason the command's.
pub open spec fn spec_fail_campaign(
    command: FailCampaign,
    campaign: Option<CampaignRow>,
    has_running_session: bool,
) -> Result<CampaignTransition, StoreError> {
    match campaign {
        None => Err(StoreError::UnknownCampaign { campaign_id: command.campaign_id }),
        Some(row) => match spec_revision_from_sql(row.revision) {
            Err(fault) => Err(fault),
            Ok(current) => if command.expected_revision.revision != current {
                Err(StoreError::RevisionConflict { expected: command.expected_revision, current })
            } else if row.lifecycle != RUNNING {
                Err(StoreError::CampaignClosed { campaign_id: command.campaign_id })
            } else if has_running_session {
                Err(StoreError::CampaignHasRunningSession { campaign_id: command.campaign_id })
            } else {
                spec_transition(current)
            },
        },
    }
}

/// Plans the transition of a fresh fail command.
pub fn fail_campaign(
    command: &FailCampaign,
    campaign: Option<CampaignRow>,
    has_running_session: bool,
) -> (result: Result<CampaignTransition, StoreError>)
    ensures
        result == spec_fail_campaign(*command, campaign, has_running_session),
{
    let row = match campaign {
        Some(row) => row,
        None => return Err(StoreError::UnknownCampaign { campaign_id: command.campaign_id }),
    };
    let current = match aggregate_revision_from_sql(row.revision) {
        Ok(revision) => revision,
        Err(fault) => return Err(fault),
    };
    if command.expected_revision.revision != current {
        return Err(
            StoreError::RevisionConflict { expected: command.expected_revision, current },
        );
    }
    if row.lifecycle != RUNNING {
        return Err(StoreError::CampaignClosed { campaign_id: command.campaign_id });
    }
    if has_running_session {
        return Err(StoreError::CampaignHasRunningSession { campaign_id: command.campaign_id });
    }
    plan_transition(current)
}

/// Every accepted campaign transition advances the campaign by exactly one
/// revision from the one its command named, and a campaign that is no longer
/// running admits none.
pub proof fn law_campaign_transitions_are_revision_fenced(
    cancel: CancelCampaign,
    fail: FailCampaign,
    reconciled: ReconciledSessionCancellation,
    campaign: Option<CampaignRow>,
    running_session: Option<i64>,
)
    ensures
        spec_admit_campaign_cancellation(cancel, campaign, running_session) matches Ok(
            CampaignCancellationAdmission::Cancel(transition),
        ) ==> {
            &&& campaign is Some && campaign->0.lifecycle == RUNNING && running_session is None
            &&& campaign->0.revision == cancel.expected_revision.revision.value
            &&& transition.revision_column == campaign->0.revision + 1
            &&& transition.resulting_revision.value == campaign->0.revision + 1
        },
        spec_finish_campaign_cancellation(cancel, reconciled, campaign) matches Ok(transition) ==> {
            &&& campaign is Some && campaign->0.lifecycle == RUNNING
            &&& campaign->0.revision == reconciled.campaign_revision.value
            &&& transition.revision_column == campaign->0.revision + 1
            &&& transition.resulting_revision.value == campaign->0.revision + 1
        },
        spec_fail_campaign(fail, campaign, running_session is Some) matches Ok(transition) ==> {
            &&& campaign is Some && campaign->0.lifecycle == RUNNING && running_session is None
            &&& campaign->0.revision == fail.expected_revision.revision.value
            &&& transition.revision_column == campaign->0.revision + 1
            &&& transition.resulting_revision.value == campaign->0.revision + 1
        },
{
}

/// The one running campaign among the rows found running.
pub open spec fn spec_current_running_campaign(rows: Seq<i64>) -> Result<
    Option<CampaignId>,
    StoreError,
> {
    if rows.len() == 0 {
        Ok(None)
    } else if rows.len() == 1 {
        match CampaignId::spec_new(rows[0]) {
            Ok(id) => Ok(Some(id)),
            Err(fault) => Err(StoreError::Contract(fault)),
        }
    } else {
        Err(StoreError::RunningCampaignCardinality { observed_running: rows.len() as usize })
    }
}

/// The one running campaign, if any; two or more are corruption.
pub fn current_running_campaign_id(rows: &[i64]) -> (result: Result<Option<CampaignId>, StoreError>)
    ensures
        result == spec_current_running_campaign(rows@),
{
    if rows.len() == 0 {
        Ok(None)
    } else if rows.len() == 1 {
        match CampaignId::new(rows[0]) {
            Ok(id) => Ok(Some(id)),
            Err(fault) => Err(StoreError::Contract(fault)),
        }
    } else {
        Err(StoreError::RunningCampaignCardinality { observed_running: rows.len() })
    }
}

/// The number of Product assignments a campaign has admitted.
pub fn product_assignment_count(count: i64) -> (result: Result<u32, StoreError>)
    ensures
        result == (if 0 <= count <= u32::MAX {
            Ok::<u32, StoreError>(count as u32)
        } else {
            Err(StoreError::InvalidProcessCommand { field: "product assignment count" })
        }),
{
    if 0 <= count && count <= u32::MAX as i64 {
        Ok(count as u32)
    } else {
        Err(StoreError::InvalidProcessCommand { field: "product assignment count" })
    }
}

/// A campaign row read for its status, as its columns hold it.
#[derive(Clone, Debug, PartialEq, Eq)]
pub struct CampaignStatusRow {
    pub lifecycle: i16,
    pub failure_reason: Option<String>,
    pub aggregate_budget_micro_usd: i64,
    pub measured_cost_micro_usd: i64,
    pub cost_state: i16,
    pub revision: i64,
    pub application_revision_id: i64,
    pub repository_id: i64,
    pub delivery_target: i32,
    pub deadline_unix_millis: i64,
    pub build_digest: Vec<u8>,
}

/// Where a campaign stands.
#[derive(Clone, Debug, PartialEq, Eq)]
pub struct CampaignStatus {
    pub campaign_id: CampaignId,
    pub state: CampaignState,
    pub kernel_build_id: KernelBuildId,
    pub application_revision_id: ApplicationRevisionId,
    pub repository_id: RepositoryId,
    pub aggregate_budget: MicroUsd,
    pub measured_cost: TerminalCost,
    pub revision: AggregateRevision,
    pub deadline_unix_millis: u64,
    pub delivery_target: u32,
    pub failure_reason: Option<String>,
}

/// What a campaign's cost state says of its measured cost.
pub open spec fn spec_measured_cost(cost_state: i16, measured: u64) -> Option<TerminalCost> {
    if cost_state == COST_KNOWN {
        Some(TerminalCost::Known(MicroUsd { value: measured }))
    } else if cost_state == COST_UNKNOWN {
        Some(TerminalCost::Unknown)
    } else if cost_state == COST_EXCEEDED {
        Some(TerminalCost::Exceeded(MicroUsd { value: measured }))
    } else {
        None
    }
}

/// Why a campaign's status row is refused, if it is.
pub open spec fn status_fault(campaign_id: CampaignId, row: Option<CampaignStatusRow>) -> Option<
    StoreError,
> {
    match row {
        None => Some(StoreError::UnknownCampaign { campaign_id }),
        Some(row) => if row.measured_cost_micro_usd < 0 || spec_measured_cost(
            row.cost_state,
            0,
        ) is None {
            Some(StoreError::CorruptCostColumn)
        } else if spec_campaign_state_from_code(row.lifecycle) is Err {
            Some(StoreError::CorruptLifecycleColumn)
        } else if row.build_digest@.len() != 32 {
            Some(StoreError::CorruptDigestColumn)
        } else if row.application_revision_id <= 0 || row.repository_id <= 0 {
            Some(StoreError::Contract(crate::identity::ContractError::NonPositiveIdentity))
        } else if row.aggregate_budget_micro_usd < 0 {
            Some(StoreError::CorruptCostColumn)
        } else if row.revision < 0 {
            Some(StoreError::RevisionOutOfRange)
        } else if row.deadline_unix_millis < 0 {
            Some(StoreError::InvalidProcessCommand { field: "deadline" })
        } else if row.delivery_target < 0 {
            Some(StoreError::InvalidProcessCommand { field: "delivery target" })
        } else {
            None
        },
    }
}

/// Derives a campaign's status from its row.
pub fn campaign_status(campaign_id: CampaignId, row: Option<&CampaignStatusRow>) -> (result: Result<
    CampaignStatus,
    StoreError,
>)
    ensures
        ({
            let read = match row {
                Some(row) => Some(*row),
                None => None,
            };
            match result {
                Err(fault) => status_fault(campaign_id, read) == Some(fault),
                Ok(status) => {
                    let row = read->0;
                    &&& status_fault(campaign_id, read) is None
                    &&& status.campaign_id == campaign_id
                    &&& spec_campaign_state_from_code(row.lifecycle) == Ok::<
                        CampaignState,
                        StoreError,
                    >(status.state)
                    &&& status.kernel_build_id.digest.bytes@ == row.build_digest@
                    &&& status.application_revision_id.value == row.application_revision_id
                    &&& status.repository_id.value == row.repository_id
                    &&& status.aggregate_budget.value == row.aggregate_budget_micro_usd
                    &&& spec_measured_cost(row.cost_state, row.measured_cost_micro_usd as u64)
                        == Some(status.measured_cost)
                    &&& status.revision.value == row.revision
                    &&& status.deadline_unix_millis == row.deadline_unix_millis
                    &&& status.delivery_target == row.delivery_target
                    &&& status.failure_reason == row.failure_reason
                },
            }
        }),
{
    let row = match row {
        Some(row) => row,
        None => return Err(StoreError::UnknownCampaign { campaign_id }),
    };
    if row.measured_cost_micro_usd < 0 {
        return Err(StoreError::CorruptCostColumn);
    }
    let measured = MicroUsd { value: row.measured_cost_micro_usd as u64 };
    let measured_cost = if row.cost_state == COST_KNOWN {
        TerminalCost::Known(measured)
    } else if row.cost_state == COST_UNKNOWN {
        TerminalCost::Unknown
    } else if row.cost_state == COST_EXCEEDED {
        TerminalCost::Exceeded(measured)
    } else {
        return Err(StoreError::CorruptCostColumn);
    };
    let state = match campaign_state_from_code(row.lifecycle) {
        Ok(state) => state,
        Err(fault) => return Err(fault),
    };
    let digest = match bytes_to_digest(row.build_digest.as_slice()) {
        Ok(bytes) => ContentDigest { bytes },
        Err(fault) => return Err(fault),
    };
    let application_revision_id = match ApplicationRevisionId::new(row.application_revision_id) {
        Ok(id) => id,
        Err(fault) => return Err(StoreError::Contract(fault)),
    };
    let repository_id = match RepositoryId::new(row.repository_id) {
        Ok(id) => id,
        Err(fault) => return Err(StoreError::Contract(fault)),
    };
    if row.aggregate_budget_micro_usd < 0 {
        return Err(StoreError::CorruptCostColumn);
    }
    let revision = match aggregate_revision_from_sql(row.revision) {
        Ok(revision) => revision,
        Err(fault) => return Err(fault),
    };
    if row.deadline_unix_millis < 0 {
        return Err(StoreError::InvalidProcessCommand { field: "deadline" });
    }
    if row.delivery_target < 0 {
        return Err(StoreError::InvalidProcessCommand { field: "delivery target" });
    }
    let failure_reason = match &row.failure_reason {
        Some(reason) => Some(reason.clone()),
        None => None,
    };
    Ok(
        CampaignStatus {
            campaign_id,
            state,
            kernel_build_id: KernelBuildId { digest },
            application_revision_id,
            repository_id,
            aggregate_budget: MicroUsd { value: row.aggregate_budget_micro_usd as u64 },
            measured_cost,
            revision,
            deadline_unix_millis: row.deadline_unix_millis as u64,
            delivery_target: row.delivery_target as u32,
            failure_reason,
        },
    )
}

/// A campaign is started exactly when none runs, a build is current, the
/// application revision is the active one at the expected revision, every bound
/// fits its column and the deadline lies ahead.
pub proof fn law_campaign_starts_exactly_when_it_may(
    command: StartCampaign,
    facts: StartCampaignFacts,
)
    ensures
        start_fault(command, facts) is None <==> {
            &&& !facts.any_campaign_running
            &&& facts.current_build is Some && facts.current_build->0.build_digest@.len() == 32
            &&& facts.application is Some
            &&& facts.application->0.aggregate_revision
                == command.expected_application_revision.revision.value
            &&& facts.application->0.is_active
            &&& facts.application->0.repository_id > 0
            &&& command.aggregate_budget.value <= i64::MAX
            &&& command.deadline_unix_millis <= i64::MAX
            &&& command.delivery_target <= i32::MAX
            &&& facts.deadline_open
        },
        start_fault(command, facts) == Some(StoreError::CampaignAlreadyRunning)
            <==> facts.any_campaign_running,
        start_fault(command, facts) == Some(StoreError::NoCurrentKernelBuild)
            <==> !facts.any_campaign_running && facts.current_build is None,
        start_fault(command, facts) == Some(StoreError::CampaignDeadlineElapsed)
            ==> !facts.deadline_open,
        start_fault(command, facts) == Some(
            StoreError::ApplicationRevisionInactive {
                application_revision_id: command.application_revision_id,
            },
        ) ==> facts.application is Some && !facts.application->0.is_active,
        start_fault(command, facts) matches Some(StoreError::RevisionConflict { expected, current })
            ==> expected == command.expected_application_revision && current.value
            == facts.application->0.aggregate_revision && expected.revision != current,
{
}

/// A campaign can be cancelled exactly while it runs at the expected revision.
/// Without a session it moves on at once; with one, that very session has to be
/// stopped first.
pub proof fn law_cancellation_is_admitted_exactly_while_running(
    command: CancelCampaign,
    campaign: Option<CampaignRow>,
    running_session: Option<i64>,
)
    ensures
        ({
            let admission = spec_admit_campaign_cancellation(command, campaign, running_session);
            let row = campaign->0;
            let open = campaign is Some && row.revision >= 0 && row.revision
                == command.expected_revision.revision.value && row.lifecycle == 0;
            &&& admission == Ok::<CampaignCancellationAdmission, StoreError>(
                CampaignCancellationAdmission::Cancel(
                    CampaignTransition {
                        resulting_revision: AggregateRevision { value: (row.revision + 1) as u64 },
                        revision_column: (row.revision + 1) as i64,
                    },
                ),
            ) <==> open && running_session is None && row.revision < i64::MAX
            &&& running_session is Some && running_session->0 > 0 ==> (admission == Ok::<
                CampaignCancellationAdmission,
                StoreError,
            >(
                CampaignCancellationAdmission::ActiveSession {
                    session_id: SessionId { value: running_session->0 },
                },
            ) <==> open)
            &&& admission is Ok ==> open
            &&& admission == Err::<CampaignCancellationAdmission, StoreError>(
                StoreError::CampaignClosed { campaign_id: command.campaign_id },
            ) <==> campaign is Some && row.revision >= 0 && row.revision
                == command.expected_revision.revision.value && row.lifecycle != 0
            &&& admission == Err::<CampaignCancellationAdmission, StoreError>(
                StoreError::UnknownCampaign { campaign_id: command.campaign_id },
            ) <==> campaign is None
        }),
{
}

/// The second half of a cancellation belongs to its command exactly when it is
/// of the same campaign, one revision on; it then completes exactly while the
/// campaign still runs at that revision.
pub proof fn law_cancellation_is_finished_exactly_behind_its_session(
    command: CancelCampaign,
    reconciled: ReconciledSessionCancellation,
    campaign: Option<CampaignRow>,
)
    ensures
        spec_check_reconciled(command, reconciled) is Ok <==> reconciled.campaign_id
            == command.campaign_id && reconciled.campaign_revision.value
            == command.expected_revision.revision.value + 1,
        ({
            let finished = spec_finish_campaign_cancellation(command, reconciled, campaign);
            let row = campaign->0;
            &&& finished is Ok <==> {
                &&& campaign is Some
                &&& row.lifecycle == 0
                &&& row.revision == reconciled.campaign_revision.value
                &&& row.revision < i64::MAX
            }
            &&& finished is Ok ==> finished->Ok_0.revision_column == row.revision + 1
                && finished->Ok_0.resulting_revision.value == row.revision + 1
            &&& finished == Err::<CampaignTransition, StoreError>(
                StoreError::CampaignClosed { campaign_id: command.campaign_id },
            ) <==> campaign is Some && row.revision >= 0 && row.lifecycle != 0
        }),
{
}

/// A campaign is failed exactly while it runs at the expected revision without
/// a session.
pub proof fn law_campaign_fails_exactly_without_a_session(
    command: FailCampaign,
    campaign: Option<CampaignRow>,
    has_running_session: bool,
)
    ensures
        ({
            let planned = spec_fail_campaign(command, campaign, has_running_session);
            let row = campaign->0;
            let open = campaign is Some && row.revision == command.expected_revision.revision.value
                && row.lifecycle == 0;
            &&& planned is Ok <==> open && !has_running_session && row.revision < i64::MAX
            &&& planned is Ok ==> planned->Ok_0.revision_column == row.revision + 1
                && planned->Ok_0.resulting_revision.value == row.revision + 1
            &&& planned == Err::<CampaignTransition, StoreError>(
                StoreError::CampaignHasRunningSession { campaign_id: command.campaign_id },
            ) <==> open && has_running_session
        }),
{
}

/// A failure explanation is accepted exactly when it is one through 240 bytes
/// of text without a control character.
pub proof fn law_failure_reason_is_short_and_printable(reason: Seq<char>)
    ensures
        spec_validate_failure_reason(reason) is Ok <==> {
            &&& 1 <= vstd::utf8::encode_utf8(reason).len() <= 240
            &&& !vstd::utf8::encode_utf8(reason).contains(0u8)
            &&& forall|i: int|
                0 <= i < reason.len() ==> (0x20 <= #[trigger] reason[i] as int <= 0x7e) || reason[i]
                    as int >= 0xa0
        },
{
    assert forall|c: char| !(#[trigger] crate::text::is_control(c)) <==> (0x20 <= c as int <= 0x7e)
        || c as int >= 0xa0 by {}
}

/// A campaign's status reports a cost exactly as its state says: known with the
/// measured amount, unknown without one, or exceeded with it. It is there
/// exactly when every column is in range.
pub proof fn law_campaign_status_reads_its_columns(
    campaign_id: CampaignId,
    row: CampaignStatusRow,
    measured: u64,
)
    ensures
        spec_measured_cost(0, measured) == Some(TerminalCost::Known(MicroUsd { value: measured })),
        spec_measured_cost(1, measured) == Some(TerminalCost::Unknown),
        spec_measured_cost(2, measured) == Some(
            TerminalCost::Exceeded(MicroUsd { value: measured }),
        ),
        spec_measured_cost(row.cost_state, measured) is Some <==> 0 <= row.cost_state <= 2,
        status_fault(campaign_id, Some(row)) is None <==> {
            &&& row.measured_cost_micro_usd >= 0
            &&& 0 <= row.cost_state <= 2
            &&& 0 <= row.lifecycle <= 3
            &&& row.build_digest@.len() == 32
            &&& row.application_revision_id > 0
            &&& row.repository_id > 0
            &&& row.aggregate_budget_micro_usd >= 0
            &&& row.revision >= 0
            &&& row.deadline_unix_millis >= 0
            &&& row.delivery_target >= 0
        },
{
}

/// One campaign runs at a time: none or one row is the answer, more are an
/// error that counts them.
pub proof fn law_at_most_one_campaign_runs(rows: Seq<i64>)
    requires
        rows.len() <= usize::MAX,
    ensures
        spec_current_running_campaign(rows) == Ok::<Option<CampaignId>, StoreError>(None)
            <==> rows.len() == 0,
        spec_current_running_campaign(rows) matches Ok(Some(id)) ==> rows.len() == 1 && id.value
            == rows[0],
        rows.len() == 1 && rows[0] > 0 ==> spec_current_running_campaign(rows) is Ok,
        rows.len() > 1 ==> spec_current_running_campaign(rows) == Err::<
            Option<CampaignId>,
            StoreError,
        >(StoreError::RunningCampaignCardinality { observed_running: rows.len() as usize }),
{
}

/// A campaign start is looked up exactly when its key is well formed and its
/// bounds are positive; it is then fresh without a receipt, and answered by a
/// receipt exactly when that is its own.
pub proof fn law_start_is_looked_up(
    command: StartCampaign,
    audit: Option<AuditRow>,
)
    ensures
        ({
            let fresh = spec_admit_start(command, None);
            let answer = spec_admit_start(command, audit);
            let well_formed = {
                &&& crate::text::is_command_component(command.principal@)
                &&& crate::text::is_command_component(command.command_id@)
                &&& command.delivery_target > 0
                &&& command.deadline_unix_millis > 0
            };
            let recorded = audit is Some && crate::audit::is_receipt_of(
                audit->0,
                "campaign.start"@,
                blake3_of(start_preimage(command)),
                4,
            );
            &&& fresh == Ok::<Option<Audit>, StoreError>(None) <==> well_formed
            &&& answer is Ok <==> well_formed && (audit is None || recorded)
            &&& answer matches Ok(Some(receipt)) ==> crate::audit::repeats(receipt, audit->0)
            &&& audit is Some ==> answer != Ok::<Option<Audit>, StoreError>(None)
        }),
{
}

/// A cancellation is looked up exactly when its key is well formed;
/// it is then fresh without a receipt, and answered by a receipt exactly when
/// that is its own.
pub proof fn law_cancellation_is_looked_up(
    command: CancelCampaign,
    audit: Option<AuditRow>,
)
    ensures
        ({
            let fresh = spec_admit_cancel(command, None);
            let answer = spec_admit_cancel(command, audit);
            let well_formed = {
                &&& crate::text::is_command_component(command.principal@)
                &&& crate::text::is_command_component(command.command_id@)
            };
            let recorded = audit is Some && crate::audit::is_receipt_of(
                audit->0,
                "campaign.cancel"@,
                blake3_of(cancel_preimage(command)),
                4,
            );
            &&& fresh == Ok::<Option<Audit>, StoreError>(None) <==> well_formed
            &&& answer is Ok <==> well_formed && (audit is None || recorded)
            &&& answer matches Ok(Some(receipt)) ==> crate::audit::repeats(receipt, audit->0)
            &&& audit is Some ==> answer != Ok::<Option<Audit>, StoreError>(None)
        }),
{
}

/// A failure is looked up exactly when its key is well formed and its reason valid;
/// it is then fresh without a receipt, and answered by a receipt exactly when
/// that is its own.
pub proof fn law_failure_is_looked_up(
    command: FailCampaign,
    audit: Option<AuditRow>,
)
    ensures
        ({
            let fresh = spec_admit_fail(command, None);
            let answer = spec_admit_fail(command, audit);
            let well_formed = {
                &&& crate::text::is_command_component(command.principal@)
                &&& crate::text::is_command_component(command.command_id@)
                &&& spec_validate_failure_reason(command.reason@) is Ok
            };
            let recorded = audit is Some && crate::audit::is_receipt_of(
                audit->0,
                "campaign.fail"@,
                blake3_of(fail_preimage(command)),
                4,
            );
            &&& fresh == Ok::<Option<Audit>, StoreError>(None) <==> well_formed
            &&& answer is Ok <==> well_formed && (audit is None || recorded)
            &&& answer matches Ok(Some(receipt)) ==> crate::audit::repeats(receipt, audit->0)
            &&& audit is Some ==> answer != Ok::<Option<Audit>, StoreError>(None)
        }),
{
}

/// What a campaign is pinned to is its row's build, application and repository,
/// read exactly when the digest is whole and both identities positive.
pub proof fn law_pins_are_their_row(
    row: Option<CampaignPinRow>,
    campaign_id: CampaignId,
    pins: CampaignPinning,
)
    ensures
        pinning_fault(row, campaign_id) is None <==> row is Some && row->0.build_digest@.len() == 32
            && row->0.application_revision_id > 0 && row->0.repository_id > 0,
        pinning_fault(row, campaign_id) == Some(StoreError::UnknownCampaign { campaign_id })
            <==> row is None,
        row is Some ==> (pins_of(row->0, pins) <==> pins.kernel_build_id.digest.bytes@
            == row->0.build_digest@ && pins.application_revision_id.value
            == row->0.application_revision_id && pins.repository_id.value == row->0.repository_id),
{
}

/// A campaign command's bytes are its operation's name, its key and its fields,
/// one behind the other.
pub proof fn law_campaign_commands_are_written_in_order(
    start: StartCampaign,
    cancel: CancelCampaign,
    fail: FailCampaign,
)
    ensures
        start_preimage(start) == framed("campaign.start"@) + (framed(start.principal@) + (framed(
            start.command_id@,
        ) + (be64(start.expected_application_revision.revision.value) + (be_i64(
            start.application_revision_id.value,
        ) + (be64(start.aggregate_budget.value) + (be64(start.deadline_unix_millis) + be32(
            start.delivery_target,
        ))))))),
        cancel_preimage(cancel) == framed("campaign.cancel"@) + (framed(cancel.principal@) + (
        framed(cancel.command_id@) + (be64(cancel.expected_revision.revision.value) + be_i64(
            cancel.campaign_id.value,
        )))),
        fail_preimage(fail) == framed("campaign.fail"@) + (framed(fail.principal@) + (framed(
            fail.command_id@,
        ) + (be64(fail.expected_revision.revision.value) + (be_i64(fail.campaign_id.value) + framed(
            fail.reason@,
        ))))),
{
}

} // verus!
