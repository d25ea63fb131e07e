//! Closed vocabularies of sessions, assignments and campaigns, with the codes
//! and names under which they are stored and spoken.

use vstd::prelude::*;

use crate::digest::ContentDigest;
use crate::error::StoreError;
use crate::identity::{ContractError, ExpectedRevision};

verus! {

pub const CAMPAIGN_SUBJECT: i16 = 4;

pub const ASSIGNMENT_SUBJECT: i16 = 5;

pub const SESSION_SUBJECT: i16 = 6;

pub const CAMPAIGN_START: &'static str = "campaign.start";

pub const CAMPAIGN_CANCEL: &'static str = "campaign.cancel";

pub const CAMPAIGN_FAIL: &'static str = "campaign.fail";

pub const ASSIGNMENT_CREATE: &'static str = "assignment.create";

pub const SESSION_START: &'static str = "session.start";

pub const SESSION_TERMINAL: &'static str = "session.terminal";

/// Lifecycle code of a running campaign.
pub const RUNNING: i16 = 0;

/// Lifecycle code of a failed campaign.
pub const FAILED: i16 = 2;

/// Lifecycle code of a cancelled campaign.
pub const CANCELLED: i16 = 3;

/// Lifecycle code of a prepared assignment.
pub const PREPARED: i16 = 0;

/// Lifecycle code of a running session or assignment.
pub const SESSION_RUNNING: i16 = 1;

pub const COST_KNOWN: i16 = 0;

pub const COST_UNKNOWN: i16 = 1;

pub const COST_EXCEEDED: i16 = 2;

/// Millionths of a US dollar.
#[derive(Clone, Copy, Debug, PartialEq, Eq, PartialOrd, Ord, Hash, Structural)]
pub struct MicroUsd {
    pub value: u64,
}

impl MicroUsd {
    pub fn new(value: u64) -> (amount: MicroUsd)
        ensures
            amount.value == value,
    {
        MicroUsd { value }
    }

    pub fn get(self) -> (value: u64)
        ensures
            value == self.value,
    {
        self.value
    }
}

/// The role an assignment is executed in.
#[derive(Clone, Copy, Debug, PartialEq, Eq, Hash, Structural)]
pub enum AssignmentRole {
    ProductResearch,
    Engineering,
    Quality,
}

/// How much a model is asked to reason.
#[derive(Clone, Copy, Debug, PartialEq, Eq, Hash, Structural)]
pub enum ThinkingLevel {
    NoThinking,
    Low,
    Medium,
    High,
    XHigh,
}

/// The operation an actor ends its work with.
#[derive(Clone, Copy, Debug, PartialEq, Eq, Hash, Structural)]
pub enum TerminalOperation {
    WorkComplete,
    CandidateSubmit,
    QualitySubmitReview,
}

/// Why a session stopped. Its stored code is its position in this list.
#[derive(Clone, Copy, Debug, PartialEq, Eq, Hash, Structural)]
pub enum StopReason {
    Completed,
    Cancelled,
    Deadline,
    DaemonDisconnected,
    NonZeroExit,
    OutputLimit,
    ProtocolError,
    UnknownCost,
    CostLimit,
}

/// Lifecycle of a session.
#[derive(Clone, Copy, Debug, PartialEq, Eq, Hash, Structural)]
pub enum SessionState {
    Prepared,
    Running,
    Succeeded,
    Failed,
    Cancelled,
    Interrupted,
}

/// Lifecycle of a campaign.
#[derive(Clone, Copy, Debug, PartialEq, Eq, Hash, Structural)]
pub enum CampaignState {
    Running,
    Completed,
    Failed,
    Cancelled,
}

/// What is known of the cost of a session or campaign.
#[derive(Clone, Copy, Debug, PartialEq, Eq, Structural)]
pub enum TerminalCost {
    Known(MicroUsd),
    Unknown,
    Exceeded(MicroUsd),
}

/// Token and cost totals; absent totals are unknown, not zero.
#[derive(Clone, Copy, Debug, PartialEq, Eq, Structural)]
pub struct UsageTotals {
    pub input_tokens: Option<u64>,
    pub output_tokens: Option<u64>,
    pub cache_read_tokens: Option<u64>,
    pub cache_write_tokens: Option<u64>,
    pub reasoning_tokens: Option<u64>,
    pub reported_cost_micro_usd: Option<MicroUsd>,
}

impl Default for UsageTotals {
    /// Nothing is known.
    fn default() -> (totals: UsageTotals)
        ensures
            totals == (UsageTotals {
                input_tokens: None,
                output_tokens: None,
                cache_read_tokens: None,
                cache_write_tokens: None,
                reasoning_tokens: None,
                reported_cost_micro_usd: None,
            }),
    {
        UsageTotals {
            input_tokens: None,
            output_tokens: None,
            cache_read_tokens: None,
            cache_write_tokens: None,
            reasoning_tokens: None,
            reported_cost_micro_usd: None,
        }
    }
}

impl UsageTotals {
    /// The cost the provider reported. Token counts never stand in for it.
    pub fn provider_cost(&self) -> (result: Result<MicroUsd, ContractError>)
        ensures
            result == (match self.reported_cost_micro_usd {
                Some(amount) => Ok::<MicroUsd, ContractError>(amount),
                None => Err(ContractError::InvalidRequest),
            }),
    {
        match self.reported_cost_micro_usd {
            Some(amount) => Ok(amount),
            None => Err(ContractError::InvalidRequest),
        }
    }
}

/// Identity of one directly spawned child process.
#[derive(Clone, Copy, Debug, PartialEq, Eq, Structural)]
pub struct ProcessCustody {
    pub pid: u32,
    pub pgid: u32,
    pub started_at_unix_millis: u64,
}

/// What a session claims when it stops.
#[derive(Clone, Copy, Debug, PartialEq, Eq)]
pub struct TerminalReport {
    pub packet_digest: ContentDigest,
    pub expected_session_revision: ExpectedRevision,
    pub operation: Option<TerminalOperation>,
    pub stop_reason: StopReason,
    pub report_digest: ContentDigest,
}

pub open spec fn spec_assignment_role_code(role: AssignmentRole) -> i16 {
    match role {
        AssignmentRole::ProductResearch => 0,
        AssignmentRole::Engineering => 1,
        AssignmentRole::Quality => 2,
    }
}

pub open spec fn spec_assignment_role_from_code(value: i16) -> Result<AssignmentRole, StoreError> {
    if value == 0 {
        Ok(AssignmentRole::ProductResearch)
    } else if value == 1 {
        Ok(AssignmentRole::Engineering)
    } else if value == 2 {
        Ok(AssignmentRole::Quality)
    } else {
        Err(StoreError::CorruptLifecycleColumn)
    }
}

pub open spec fn spec_assignment_role_name(role: AssignmentRole) -> &'static str {
    match role {
        AssignmentRole::ProductResearch => "product_research",
        AssignmentRole::Engineering => "engineering",
        AssignmentRole::Quality => "quality",
    }
}

pub open spec fn spec_thinking_code(level: ThinkingLevel) -> i16 {
    match level {
        ThinkingLevel::NoThinking => 0,
        ThinkingLevel::Low => 1,
        ThinkingLevel::Medium => 2,
        ThinkingLevel::High => 3,
        ThinkingLevel::XHigh => 4,
    }
}

pub open spec fn spec_thinking_name(level: ThinkingLevel) -> &'static str {
    match level {
        ThinkingLevel::NoThinking => "none",
        ThinkingLevel::Low => "low",
        ThinkingLevel::Medium => "medium",
        ThinkingLevel::High => "high",
        ThinkingLevel::XHigh => "xhigh",
    }
}

pub open spec fn spec_terminal_operation_code(operation: TerminalOperation) -> i16 {
    match operation {
        TerminalOperation::WorkComplete => 0,
        TerminalOperation::CandidateSubmit => 1,
        TerminalOperation::QualitySubmitReview => 2,
    }
}

pub open spec fn spec_terminal_operation_name(operation: TerminalOperation) -> &'static str {
    match operation {
        TerminalOperation::WorkComplete => "work_complete",
        TerminalOperation::CandidateSubmit => "candidate_submit",
        TerminalOperation::QualitySubmitReview => "quality_submit_review",
    }
}

pub open spec fn spec_stop_reason_code(reason: StopReason) -> i16 {
    match reason {
        StopReason::Completed => 0,
        StopReason::Cancelled => 1,
        StopReason::Deadline => 2,
        StopReason::DaemonDisconnected => 3,
        StopReason::NonZeroExit => 4,
        StopReason::OutputLimit => 5,
        StopReason::ProtocolError => 6,
        StopReason::UnknownCost => 7,
        StopReason::CostLimit => 8,
    }
}

/// The state a stop reason leaves a session in. Losing the daemon and running
/// into the deadline interrupt; only a completion succeeds.
pub open spec fn spec_session_state(reason: StopReason) -> SessionState {
    match reason {
        StopReason::Completed => SessionState::Succeeded,
        StopReason::Cancelled => SessionState::Cancelled,
        StopReason::DaemonDisconnected | StopReason::Deadline => SessionState::Interrupted,
        _ => SessionState::Failed,
    }
}

pub open spec fn spec_session_state_code(state: SessionState) -> i16 {
    match state {
        SessionState::Prepared => 0,
        SessionState::Running => 1,
        SessionState::Succeeded => 2,
        SessionState::Failed => 3,
        SessionState::Cancelled => 4,
        SessionState::Interrupted => 5,
    }
}

pub open spec fn spec_session_state_from_code(value: i16) -> Result<SessionState, StoreError> {
    if value == 0 {
        Ok(SessionState::Prepared)
    } else if value == 1 {
        Ok(SessionState::Running)
    } else if value == 2 {
        Ok(SessionState::Succeeded)
    } else if value == 3 {
        Ok(SessionState::Failed)
    } else if value == 4 {
        Ok(SessionState::Cancelled)
    } else if value == 5 {
        Ok(SessionState::Interrupted)
    } else {
        Err(StoreError::CorruptLifecycleColumn)
    }
}

/// The lifecycle code of an assignment whose session ended in `state`.
pub open spec fn spec_assignment_state_code(state: SessionState) -> i16 {
    match state {
        SessionState::Succeeded => 2,
        SessionState::Cancelled => 4,
        SessionState::Interrupted => 5,
        _ => 3,
    }
}

pub open spec fn spec_campaign_state_from_code(value: i16) -> Result<CampaignState, StoreError> {
    if value == 0 {
        Ok(CampaignState::Running)
    } else if value == 1 {
        Ok(CampaignState::Completed)
    } else if value == 2 {
        Ok(CampaignState::Failed)
    } else if value == 3 {
        Ok(CampaignState::Cancelled)
    } else {
        Err(StoreError::CorruptLifecycleColumn)
    }
}

/// The mask bit of one terminal operation.
pub open spec fn operation_bit(operation: TerminalOperation) -> i64 {
    match operation {
        TerminalOperation::WorkComplete => 1,
        TerminalOperation::CandidateSubmit => 2,
        TerminalOperation::QualitySubmitReview => 4,
    }
}

pub open spec fn spec_operation_mask_one(operation: Option<TerminalOperation>) -> i64 {
    match operation {
        Some(operation) => operation_bit(operation),
        None => 0,
    }
}

/// The mask of a list of operations: the bits of those that occur in it.
pub open spec fn spec_operation_mask(operations: Seq<TerminalOperation>) -> i64 {
    let work = if operations.contains(TerminalOperation::WorkComplete) { 1i64 } else { 0 };
    let candidate = if operations.contains(TerminalOperation::CandidateSubmit) { 2i64 } else { 0 };
    let review = if operations.contains(TerminalOperation::QualitySubmitReview) { 4i64 } else { 0 };
    (work + candidate + review) as i64
}

/// The stored failure code: every stop but a completion has one.
pub open spec fn spec_failure_code(reason: StopReason) -> Option<i16> {
    if reason == StopReason::Completed {
        None
    } else {
        Some(spec_stop_reason_code(reason))
    }
}

/// Persisted session cost columns read back.
pub open spec fn spec_db_cost(state: Option<i16>, value: Option<i64>) -> Result<
    Option<TerminalCost>,
    StoreError,
> {
    match (state, value) {
        (None, None) => Ok(None),
        (Some(code), Some(amount)) => if code == COST_KNOWN && amount >= 0 {
            Ok(Some(TerminalCost::Known(MicroUsd { value: amount as u64 })))
        } else if code == COST_EXCEEDED && amount >= 0 {
            Ok(Some(TerminalCost::Exceeded(MicroUsd { value: amount as u64 })))
        } else {
            Err(StoreError::CorruptCostColumn)
        },
        (Some(code), None) => if code == COST_UNKNOWN {
            Ok(Some(TerminalCost::Unknown))
        } else {
            Err(StoreError::CorruptCostColumn)
        },
        (None, Some(_)) => Err(StoreError::CorruptCostColumn),
    }
}

/// Usage totals as they are stored.
#[derive(Clone, Copy, Debug, PartialEq, Eq, Structural)]
pub struct UsageColumns {
    pub input_tokens: Option<i64>,
    pub output_tokens: Option<i64>,
    pub cache_read_tokens: Option<i64>,
    pub cache_write_tokens: Option<i64>,
    pub reasoning_tokens: Option<i64>,
    pub reported_cost_micro_usd: Option<i64>,
}

/// Whether an optional count fits a signed 64-bit column.
pub open spec fn storable(value: Option<u64>) -> bool {
    value matches Some(count) ==> count <= i64::MAX
}

/// An optional count as its column holds it.
pub open spec fn stored(value: Option<u64>) -> Option<i64> {
    match value {
        Some(count) => Some(count as i64),
        None => None,
    }
}

/// The plain amount of an optional cost.
pub open spec fn amount_of(value: Option<MicroUsd>) -> Option<u64> {
    match value {
        Some(amount) => Some(amount.value),
        None => None,
    }
}

/// Usage totals prepared for storage; a total that does not fit is refused.
pub open spec fn spec_usage_sql(usage: UsageTotals) -> Result<UsageColumns, StoreError> {
    if storable(usage.input_tokens) && storable(usage.output_tokens) && storable(
        usage.cache_read_tokens,
    ) && storable(usage.cache_write_tokens) && storable(usage.reasoning_tokens) && storable(
        amount_of(usage.reported_cost_micro_usd),
    ) {
        Ok(
            UsageColumns {
                input_tokens: stored(usage.input_tokens),
                output_tokens: stored(usage.output_tokens),
                cache_read_tokens: stored(usage.cache_read_tokens),
                cache_write_tokens: stored(usage.cache_write_tokens),
                reasoning_tokens: stored(usage.reasoning_tokens),
                reported_cost_micro_usd: stored(amount_of(usage.reported_cost_micro_usd)),
            },
        )
    } else {
        Err(StoreError::InvalidProcessCommand { field: "usage total" })
    }
}

pub fn assignment_role_code(role: AssignmentRole) -> (code: i16)
    ensures
        code == spec_assignment_role_code(role),
{
    match role {
        AssignmentRole::ProductResearch => 0,
        AssignmentRole::Engineering => 1,
        AssignmentRole::Quality => 2,
    }
}

pub fn assignment_role_from_code(value: i16) -> (result: Result<AssignmentRole, StoreError>)
    ensures
        result == spec_assignment_role_from_code(value),
{
    match value {
        0 => Ok(AssignmentRole::ProductResearch),
        1 => Ok(AssignmentRole::Engineering),
        2 => Ok(AssignmentRole::Quality),
        _ => Err(StoreError::CorruptLifecycleColumn),
    }
}

pub fn assignment_role_name(role: AssignmentRole) -> (name: &'static str)
    ensures
        name == spec_assignment_role_name(role),
{
    match role {
        AssignmentRole::ProductResearch => "product_research",
        AssignmentRole::Engineering => "engineering",
        AssignmentRole::Quality => "quality",
    }
}

pub fn thinking_code(level: ThinkingLevel) -> (code: i16)
    ensures
        code == spec_thinking_code(level),
{
    match level {
        ThinkingLevel::NoThinking => 0,
        ThinkingLevel::Low => 1,
        ThinkingLevel::Medium => 2,
        ThinkingLevel::High => 3,
        ThinkingLevel::XHigh => 4,
    }
}

pub fn thinking_name(level: ThinkingLevel) -> (name: &'static str)
    ensures
        name == spec_thinking_name(level),
{
    match level {
        ThinkingLevel::NoThinking => "none",
        ThinkingLevel::Low => "low",
        ThinkingLevel::Medium => "medium",
        ThinkingLevel::High => "high",
        ThinkingLevel::XHigh => "xhigh",
    }
}

pub fn terminal_operation_code(operation: TerminalOperation) -> (code: i16)
    ensures
        code == spec_terminal_operation_code(operation),
{
    match operation {
        TerminalOperation::WorkComplete => 0,
        TerminalOperation::CandidateSubmit => 1,
        TerminalOperation::QualitySubmitReview => 2,
    }
}

pub fn terminal_operation_name(operation: TerminalOperation) -> (name: &'static str)
    ensures
        name == spec_terminal_operation_name(operation),
{
    match operation {
        TerminalOperation::WorkComplete => "work_complete",
        TerminalOperation::CandidateSubmit => "candidate_submit",
        TerminalOperation::QualitySubmitReview => "quality_submit_review",
    }
}

pub fn stop_reason_code(reason: StopReason) -> (code: i16)
    ensures
        code == spec_stop_reason_code(reason),
{
    match reason {
        StopReason::Completed => 0,
        StopReason::Cancelled => 1,
        StopReason::Deadline => 2,
        StopReason::DaemonDisconnected => 3,
        StopReason::NonZeroExit => 4,
        StopReason::OutputLimit => 5,
        StopReason::ProtocolError => 6,
        StopReason::UnknownCost => 7,
        StopReason::CostLimit => 8,
    }
}

/// The state a stop reason leaves a session in.
pub fn session_state(reason: StopReason) -> (state: SessionState)
    ensures
        state == spec_session_state(reason),
{
    match reason {
        StopReason::Completed => SessionState::Succeeded,
        StopReason::Cancelled => SessionState::Cancelled,
        StopReason::DaemonDisconnected | StopReason::Deadline => SessionState::Interrupted,
        _ => SessionState::Failed,
    }
}

pub fn session_state_code(state: SessionState) -> (code: i16)
    ensures
        code == spec_session_state_code(state),
{
    match state {
        SessionState::Prepared => 0,
        SessionState::Running => 1,
        SessionState::Succeeded => 2,
        SessionState::Failed => 3,
        SessionState::Cancelled => 4,
        SessionState::Interrupted => 5,
    }
}

pub fn session_state_from_code(value: i16) -> (result: Result<SessionState, StoreError>)
    ensures
        result == spec_session_state_from_code(value),
{
    match value {
        0 => Ok(SessionState::Prepared),
        1 => Ok(SessionState::Running),
        2 => Ok(SessionState::Succeeded),
        3 => Ok(SessionState::Failed),
        4 => Ok(SessionState::Cancelled),
        5 => Ok(SessionState::Interrupted),
        _ => Err(StoreError::CorruptLifecycleColumn),
    }
}

/// The lifecycle code of an assignment whose session ended in `state`.
pub fn assignment_state_code(state: SessionState) -> (code: i16)
    ensures
        code == spec_assignment_state_code(state),
{
    match state {
        SessionState::Succeeded => 2,
        SessionState::Cancelled => 4,
        SessionState::Interrupted => 5,
        _ => 3,
    }
}

pub fn campaign_state_from_code(value: i16) -> (result: Result<CampaignState, StoreError>)
    ensures
        result == spec_campaign_state_from_code(value),
{
    match value {
        0 => Ok(CampaignState::Running),
        1 => Ok(CampaignState::Completed),
        2 => Ok(CampaignState::Failed),
        3 => Ok(CampaignState::Cancelled),
        _ => Err(StoreError::CorruptLifecycleColumn),
    }
}

/// The mask bit of an optional operation, zero for none.
pub fn operation_mask_one(operation: Option<TerminalOperation>) -> (mask: i64)
    ensures
        mask == spec_operation_mask_one(operation),
{
    match operation {
        Some(TerminalOperation::WorkComplete) => 1,
        Some(TerminalOperation::CandidateSubmit) => 2,
        Some(TerminalOperation::QualitySubmitReview) => 4,
        None => 0,
    }
}

/// The mask of a list of operations.
pub fn operation_mask(operations: &[TerminalOperation]) -> (mask: i64)
    ensures
        mask == spec_operation_mask(operations@),
{
    let mut work = false;
    let mut candidate = false;
    let mut review = false;
    let mut index: usize = 0;
    while index < operations.len()
        invariant
            index <= operations.len(),
            work == operations@.take(index as int).contains(TerminalOperation::WorkComplete),
            candidate == operations@.take(index as int).contains(
                TerminalOperation::CandidateSubmit,
            ),
            review == operations@.take(index as int).contains(
                TerminalOperation::QualitySubmitReview,
            ),
        decreases operations.len() - index,
    {
        let ghost before = operations@.take(index as int);
        let ghost after = operations@.take(index as int + 1);
        proof {
            assert(after =~= before.push(operations@[index as int]));
            vstd::seq_lib::lemma_seq_contains_after_push(
                before,
                operations@[index as int],
                TerminalOperation::WorkComplete,
            );
            vstd::seq_lib::lemma_seq_contains_after_push(
                before,
                operations@[index as int],
                TerminalOperation::CandidateSubmit,
            );
            vstd::seq_lib::lemma_seq_contains_after_push(
                before,
                operations@[index as int],
                TerminalOperation::QualitySubmitReview,
            );
        }
        match operations[index] {
            TerminalOperation::WorkComplete => {
                work = true;
            },
            TerminalOperation::CandidateSubmit => {
                candidate = true;
            },
            TerminalOperation::QualitySubmitReview => {
                review = true;
            },
        }
        index += 1;
    }
    assert(operations@.take(index as int) =~= operations@);
    let first: i64 = if work { 1 } else { 0 };
    let second: i64 = if candidate { 2 } else { 0 };
    let third: i64 = if review { 4 } else { 0 };
    first + second + third
}

/// A mask built from a list admits exactly the operations in that list.
pub proof fn law_mask_admits_its_operations(
    operations: Seq<TerminalOperation>,
    operation: TerminalOperation,
)
    ensures
        (operation_bit(operation) & spec_operation_mask(operations) != 0) == operations.contains(
            operation,
        ),
{
    let work = if operations.contains(TerminalOperation::WorkComplete) { 1i64 } else { 0 };
    let candidate = if operations.contains(TerminalOperation::CandidateSubmit) { 2i64 } else { 0 };
    let review = if operations.contains(TerminalOperation::QualitySubmitReview) { 4i64 } else { 0 };
    let mask = spec_operation_mask(operations);
    assert((1i64 & mask != 0) == (work == 1) && (2i64 & mask != 0) == (candidate == 2) && (4i64
        & mask != 0) == (review == 4)) by (bit_vector)
        requires
            mask == work + candidate + review,
            work == 0 || work == 1,
            candidate == 0 || candidate == 2,
            review == 0 || review == 4,
    ;
}

/// Codes that were written read back as what they stood for.
pub proof fn law_codes_round_trip(role: AssignmentRole, state: SessionState)
    ensures
        spec_assignment_role_from_code(spec_assignment_role_code(role)) == Ok::<
            AssignmentRole,
            StoreError,
        >(role),
        spec_session_state_from_code(spec_session_state_code(state)) == Ok::<
            SessionState,
            StoreError,
        >(state),
{
}

/// The stored failure code of a stop reason.
pub fn failure_code(reason: StopReason) -> (code: Option<i16>)
    ensures
        code == spec_failure_code(reason),
{
    if reason == StopReason::Completed {
        None
    } else {
        Some(stop_reason_code(reason))
    }
}

fn stored_count(value: Option<u64>) -> (result: Option<Option<i64>>)
    ensures
        result == (if storable(value) {
            Some(stored(value))
        } else {
            None
        }),
{
    match value {
        None => Some(None),
        Some(count) => if count > i64::MAX as u64 {
            None
        } else {
            Some(Some(count as i64))
        },
    }
}

/// Usage totals prepared for storage.
pub fn usage_sql(usage: UsageTotals) -> (result: Result<UsageColumns, StoreError>)
    ensures
        result == spec_usage_sql(usage),
{
    let amount: Option<u64> = match usage.reported_cost_micro_usd {
        Some(amount) => Some(amount.value),
        None => None,
    };
    match (
        stored_count(usage.input_tokens),
        stored_count(usage.output_tokens),
        stored_count(usage.cache_read_tokens),
        stored_count(usage.cache_write_tokens),
        stored_count(usage.reasoning_tokens),
        stored_count(amount),
    ) {
        (
            Some(input_tokens),
            Some(output_tokens),
            Some(cache_read_tokens),
            Some(cache_write_tokens),
            Some(reasoning_tokens),
            Some(reported_cost_micro_usd),
        ) => Ok(
            UsageColumns {
                input_tokens,
                output_tokens,
                cache_read_tokens,
                cache_write_tokens,
                reasoning_tokens,
                reported_cost_micro_usd,
            },
        ),
        _ => Err(StoreError::InvalidProcessCommand { field: "usage total" }),
    }
}

/// Reads persisted session cost columns back.
pub fn db_cost(state: Option<i16>, value: Option<i64>) -> (result: Result<
    Option<TerminalCost>,
    StoreError,
>)
    ensures
        result == spec_db_cost(state, value),
{
    match (state, value) {
        (None, None) => Ok(None),
        (Some(code), Some(amount)) => {
            if amount < 0 {
                return Err(StoreError::CorruptCostColumn);
            }
            let cost = MicroUsd { value: amount as u64 };
            if code == COST_KNOWN {
                Ok(Some(TerminalCost::Known(cost)))
            } else if code == COST_EXCEEDED {
                Ok(Some(TerminalCost::Exceeded(cost)))
            } else {
                Err(StoreError::CorruptCostColumn)
            }
        },
        (Some(code), None) => if code == COST_UNKNOWN {
            Ok(Some(TerminalCost::Unknown))
        } else {
            Err(StoreError::CorruptCostColumn)
        },
        (None, Some(_)) => Err(StoreError::CorruptCostColumn),
    }
}

/// How a session ends by why it stopped: succeeded only when completed,
/// cancelled only when cancelled, interrupted by a lost daemon or the deadline,
/// failed otherwise; a failure code is kept for all but completion.
pub proof fn law_stop_reason_decides_the_end(reason: StopReason)
    ensures
        spec_session_state(reason) is Succeeded <==> reason is Completed,
        spec_session_state(reason) is Cancelled <==> reason is Cancelled,
        spec_session_state(reason) is Interrupted <==> reason is DaemonDisconnected || reason
            is Deadline,
        spec_session_state(reason) is Failed <==> reason is NonZeroExit || reason is OutputLimit
            || reason is ProtocolError || reason is UnknownCost || reason is CostLimit,
        spec_failure_code(reason) is None <==> reason is Completed,
        spec_failure_code(reason) matches Some(code) ==> code == (match reason {
            StopReason::Completed => 0i16,
            StopReason::Cancelled => 1,
            StopReason::Deadline => 2,
            StopReason::DaemonDisconnected => 3,
            StopReason::NonZeroExit => 4,
            StopReason::OutputLimit => 5,
            StopReason::ProtocolError => 6,
            StopReason::UnknownCost => 7,
            StopReason::CostLimit => 8,
        }),
{
}

/// Which number stands for which state, role, level and operation.
pub proof fn law_codes_are_assigned(
    state: SessionState,
    role: AssignmentRole,
    level: ThinkingLevel,
    operation: TerminalOperation,
    reason: StopReason,
)
    ensures
        spec_session_state_code(state) == (match state {
            SessionState::Prepared => 0i16,
            SessionState::Running => 1,
            SessionState::Succeeded => 2,
            SessionState::Failed => 3,
            SessionState::Cancelled => 4,
            SessionState::Interrupted => 5,
        }),
        spec_assignment_state_code(state) == (match state {
            SessionState::Succeeded => 2i16,
            SessionState::Cancelled => 4,
            SessionState::Interrupted => 5,
            SessionState::Prepared | SessionState::Running | SessionState::Failed => 3,
        }),
        spec_assignment_role_code(role) == (match role {
            AssignmentRole::ProductResearch => 0i16,
            AssignmentRole::Engineering => 1,
            AssignmentRole::Quality => 2,
        }),
        spec_thinking_code(level) == (match level {
            ThinkingLevel::NoThinking => 0i16,
            ThinkingLevel::Low => 1,
            ThinkingLevel::Medium => 2,
            ThinkingLevel::High => 3,
            ThinkingLevel::XHigh => 4,
        }),
        spec_terminal_operation_code(operation) == (match operation {
            TerminalOperation::WorkComplete => 0i16,
            TerminalOperation::CandidateSubmit => 1,
            TerminalOperation::QualitySubmitReview => 2,
        }),
        spec_stop_reason_code(reason) == (match reason {
            StopReason::Completed => 0i16,
            StopReason::Cancelled => 1,
            StopReason::Deadline => 2,
            StopReason::DaemonDisconnected => 3,
            StopReason::NonZeroExit => 4,
            StopReason::OutputLimit => 5,
            StopReason::ProtocolError => 6,
            StopReason::UnknownCost => 7,
            StopReason::CostLimit => 8,
        }),
        spec_operation_mask_one(Some(operation)) == (match operation {
            TerminalOperation::WorkComplete => 1i64,
            TerminalOperation::CandidateSubmit => 2,
            TerminalOperation::QualitySubmitReview => 4,
        }),
        spec_operation_mask_one(None) == 0,
        spec_assignment_role_name(role)@ == (match role {
            AssignmentRole::ProductResearch => "product_research"@,
            AssignmentRole::Engineering => "engineering"@,
            AssignmentRole::Quality => "quality"@,
        }),
        spec_thinking_name(level)@ == (match level {
            ThinkingLevel::NoThinking => "none"@,
            ThinkingLevel::Low => "low"@,
            ThinkingLevel::Medium => "medium"@,
            ThinkingLevel::High => "high"@,
            ThinkingLevel::XHigh => "xhigh"@,
        }),
        spec_terminal_operation_name(operation)@ == (match operation {
            TerminalOperation::WorkComplete => "work_complete"@,
            TerminalOperation::CandidateSubmit => "candidate_submit"@,
            TerminalOperation::QualitySubmitReview => "quality_submit_review"@,
        }),
{
}

/// A code is read exactly when it stands for something, and for what it stands.
pub proof fn law_codes_are_read(value: i16)
    ensures
        spec_session_state_from_code(value) is Ok <==> 0 <= value <= 5,
        spec_session_state_from_code(value) matches Ok(state) ==> spec_session_state_code(state)
            == value,
        spec_assignment_role_from_code(value) is Ok <==> 0 <= value <= 2,
        spec_assignment_role_from_code(value) matches Ok(role) ==> spec_assignment_role_code(role)
            == value,
        spec_campaign_state_from_code(value) is Ok <==> 0 <= value <= 3,
        spec_campaign_state_from_code(value) matches Ok(state) ==> value == (match state {
            CampaignState::Running => 0i16,
            CampaignState::Completed => 1,
            CampaignState::Failed => 2,
            CampaignState::Cancelled => 3,
        }),
{
}

/// A set of operations is stored as the sum of the bits of its members.
pub proof fn law_mask_is_the_sum_of_its_bits(operations: Seq<TerminalOperation>)
    ensures
        spec_operation_mask(operations) == (if operations.contains(
            TerminalOperation::WorkComplete,
        ) { 1int } else { 0 }) + (if operations.contains(TerminalOperation::CandidateSubmit) { 2int
        } else { 0 }) + (if operations.contains(TerminalOperation::QualitySubmitReview) { 4int
        } else { 0 }),
{
}

/// A stored cost is read by its state: known or exceeded with an amount,
/// unknown without one, none without a state; everything else is corrupt.
pub proof fn law_stored_cost_is_read_by_state(state: Option<i16>, value: Option<i64>)
    ensures
        ({
            let cost = spec_db_cost(state, value);
            let amount = value is Some && value->0 >= 0;
            &&& cost == Ok::<Option<TerminalCost>, StoreError>(None) <==> state is None && value
                is None
            &&& cost == Ok::<Option<TerminalCost>, StoreError>(Some(TerminalCost::Unknown)) <==> state
                == Some(1i16) && value is None
            &&& state == Some(0i16) && amount ==> cost == Ok::<Option<TerminalCost>, StoreError>(
                Some(TerminalCost::Known(MicroUsd { value: value->0 as u64 })),
            )
            &&& state == Some(2i16) && amount ==> cost == Ok::<Option<TerminalCost>, StoreError>(
                Some(TerminalCost::Exceeded(MicroUsd { value: value->0 as u64 })),
            )
            &&& cost is Ok <==> {
                ||| state is None && value is None
                ||| state == Some(1i16) && value is None
                ||| (state == Some(0i16) || state == Some(2i16)) && amount
            }
        }),
{
}

/// Usage is stored exactly when every reported count fits, each in its own
/// column, and what was not reported stays so.
pub proof fn law_usage_is_stored_exactly_when_it_fits(usage: UsageTotals)
    ensures
        ({
            let columns = spec_usage_sql(usage);
            &&& columns is Ok <==> {
                &&& usage.input_tokens matches Some(count) ==> count <= i64::MAX
                &&& usage.output_tokens matches Some(count) ==> count <= i64::MAX
                &&& usage.cache_read_tokens matches Some(count) ==> count <= i64::MAX
                &&& usage.cache_write_tokens matches Some(count) ==> count <= i64::MAX
                &&& usage.reasoning_tokens matches Some(count) ==> count <= i64::MAX
                &&& usage.reported_cost_micro_usd matches Some(amount) ==> amount.value <= i64::MAX
            }
            &&& columns matches Ok(columns) ==> {
                &&& columns.input_tokens is Some <==> usage.input_tokens is Some
                &&& usage.input_tokens matches Some(count) ==> columns.input_tokens->0 == count
                &&& columns.output_tokens is Some <==> usage.output_tokens is Some
                &&& usage.output_tokens matches Some(count) ==> columns.output_tokens->0 == count
                &&& columns.cache_read_tokens is Some <==> usage.cache_read_tokens is Some
                &&& usage.cache_read_tokens matches Some(count) ==> columns.cache_read_tokens->0
                    == count
                &&& columns.cache_write_tokens is Some <==> usage.cache_write_tokens is Some
                &&& usage.cache_write_tokens matches Some(count) ==> columns.cache_write_tokens->0
                    == count
                &&& columns.reasoning_tokens is Some <==> usage.reasoning_tokens is Some
                &&& usage.reasoning_tokens matches Some(count) ==> columns.reasoning_tokens->0
                    == count
                &&& columns.reported_cost_micro_usd is Some <==> usage.reported_cost_micro_usd
                    is Some
                &&& usage.reported_cost_micro_usd matches Some(amount)
                    ==> columns.reported_cost_micro_usd->0 == amount.value
            }
        }),
{
}

} // verus!
