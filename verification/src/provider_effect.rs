//! Provider requests of a session: recording intent, settling it, and the
//! ledger derived from both.

use vstd::prelude::*;
use vstd::string::StringExecFns;

use crate::audit::{
    aggregate_revision_from_sql, spec_revision_from_sql, spec_validate_process_key,
    validate_command,
};
use crate::digest::{digest_bytes, is_digest_text, ContentDigest};
use crate::error::StoreError;
use crate::identity::{AggregateRevision, AssignmentId, ExpectedRevision, SessionId};
use crate::protocol::{amount_of, storable, stored, MicroUsd, UsageTotals, SESSION_RUNNING};
use crate::session::{count_from_sql, spec_count_from_sql};
use crate::text::{
    bounded_text_ok, bytes_equal, decimal, is_bounded_text, push_decimal_i64, push_decimal_u64,
    text_equal,
};

verus! {

/// Closed state of a provider request.
#[derive(Clone, Copy, Debug, PartialEq, Eq, Structural)]
pub enum ProviderEffectState {
    Started,
    Settled,
    Failed,
    Cancelled,
}

impl ProviderEffectState {
    pub open spec fn spec_name(self) -> &'static str {
        match self {
            ProviderEffectState::Started => "started",
            ProviderEffectState::Settled => "settled",
            ProviderEffectState::Failed => "failed",
            ProviderEffectState::Cancelled => "cancelled",
        }
    }

    pub open spec fn spec_code(self) -> i16 {
        match self {
            ProviderEffectState::Started => 0,
            ProviderEffectState::Settled => 1,
            ProviderEffectState::Failed => 2,
            ProviderEffectState::Cancelled => 3,
        }
    }

    /// The state a settlement outcome names; a settlement cannot start.
    pub open spec fn spec_from_settlement(value: Seq<char>) -> Result<
        ProviderEffectState,
        StoreError,
    > {
        if value == "settled"@ {
            Ok(ProviderEffectState::Settled)
        } else if value == "failed"@ {
            Ok(ProviderEffectState::Failed)
        } else if value == "cancelled"@ {
            Ok(ProviderEffectState::Cancelled)
        } else {
            Err(StoreError::InvalidProcessCommand { field: "provider effect outcome" })
        }
    }

    pub fn name(self) -> (name: &'static str)
        ensures
            name == self.spec_name(),
    {
        match self {
            ProviderEffectState::Started => "started",
            ProviderEffectState::Settled => "settled",
            ProviderEffectState::Failed => "failed",
            ProviderEffectState::Cancelled => "cancelled",
        }
    }

    pub fn code(self) -> (code: i16)
        ensures
            code == self.spec_code(),
    {
        match self {
            ProviderEffectState::Started => 0,
            ProviderEffectState::Settled => 1,
            ProviderEffectState::Failed => 2,
            ProviderEffectState::Cancelled => 3,
        }
    }

    /// Reads a settlement outcome.
    pub fn from_settlement(value: &str) -> (result: Result<ProviderEffectState, StoreError>)
        ensures
            result == ProviderEffectState::spec_from_settlement(value@),
    {
        if text_equal(value, "settled") {
            Ok(ProviderEffectState::Settled)
        } else if text_equal(value, "failed") {
            Ok(ProviderEffectState::Failed)
        } else if text_equal(value, "cancelled") {
            Ok(ProviderEffectState::Cancelled)
        } else {
            Err(StoreError::InvalidProcessCommand { field: "provider effect outcome" })
        }
    }
}

pub open spec fn spec_state_from_code(value: i16) -> Result<ProviderEffectState, StoreError> {
    if value == 0 {
        Ok(ProviderEffectState::Started)
    } else if value == 1 {
        Ok(ProviderEffectState::Settled)
    } else if value == 2 {
        Ok(ProviderEffectState::Failed)
    } else if value == 3 {
        Ok(ProviderEffectState::Cancelled)
    } else {
        Err(StoreError::CorruptLifecycleColumn)
    }
}

/// Reads a stored state code.
pub fn provider_effect_state_from_code(value: i16) -> (result: Result<
    ProviderEffectState,
    StoreError,
>)
    ensures
        result == spec_state_from_code(value),
{
    match value {
        0 => Ok(ProviderEffectState::Started),
        1 => Ok(ProviderEffectState::Settled),
        2 => Ok(ProviderEffectState::Failed),
        3 => Ok(ProviderEffectState::Cancelled),
        _ => Err(StoreError::CorruptLifecycleColumn),
    }
}

/// A stored state reads back as itself, and a settlement outcome reads as the
/// state it names.
pub proof fn law_effect_state_round_trips(state: ProviderEffectState)
    ensures
        spec_state_from_code(state.spec_code()) == Ok::<ProviderEffectState, StoreError>(state),
        state != ProviderEffectState::Started ==> ProviderEffectState::spec_from_settlement(
            state.spec_name()@,
        ) == Ok::<ProviderEffectState, StoreError>(state),
{
    reveal_strlit("settled");
    reveal_strlit("failed");
    reveal_strlit("cancelled");
    assert("settled"@.len() == 7);
    assert("failed"@.len() == 6);
    assert("cancelled"@.len() == 9);
}

/// Intent to send one provider request.
#[derive(Clone, Debug, PartialEq, Eq)]
pub struct ProviderRequestStart {
    pub client_command_id: String,
    pub expected_revision: u64,
    pub core_run_id: String,
    pub effect_id: u64,
    pub harness_snapshot_id: String,
    pub harness_revision_id: String,
    pub model_harness_profile_id: String,
    pub provider_surface_digest: String,
    pub provider: String,
    pub model: String,
    pub request_fingerprint: String,
}

/// Outcome of one provider request.
#[derive(Clone, Debug, PartialEq, Eq)]
pub struct ProviderRequestSettle {
    pub client_command_id: String,
    pub expected_revision: u64,
    pub core_run_id: String,
    pub effect_id: u64,
    pub outcome: String,
    pub stop_reason: String,
    pub context_overflow: bool,
    pub input_tokens: Option<u64>,
    pub output_tokens: Option<u64>,
    pub cache_read_tokens: Option<u64>,
    pub cache_write_tokens: Option<u64>,
    pub reasoning_tokens: Option<u64>,
    pub reported_cost_micro_usd: Option<u64>,
    pub failure_class: Option<String>,
}

/// Why a start request's texts are refused, if they are.
pub open spec fn start_text_fault(request: ProviderRequestStart) -> Option<StoreError> {
    if !is_bounded_text(request.core_run_id@, 60) {
        Some(StoreError::InvalidProcessCommand { field: "provider effect core run ID" })
    } else if !is_bounded_text(request.harness_snapshot_id@, 240) {
        Some(StoreError::InvalidProcessCommand { field: "provider effect harness snapshot ID" })
    } else if !is_bounded_text(request.harness_revision_id@, 240) {
        Some(StoreError::InvalidProcessCommand { field: "provider effect harness revision ID" })
    } else if !is_bounded_text(request.model_harness_profile_id@, 240) {
        Some(
            StoreError::InvalidProcessCommand { field: "provider effect model harness profile ID" },
        )
    } else if !is_bounded_text(request.provider@, 160) {
        Some(StoreError::InvalidProcessCommand { field: "provider effect provider" })
    } else if !is_bounded_text(request.model@, 240) {
        Some(StoreError::InvalidProcessCommand { field: "provider effect model" })
    } else {
        None
    }
}

/// Refuses a start request with an empty, overlong or NUL-bearing text.
pub fn validate_provider_effect_start(request: &ProviderRequestStart) -> (result: Result<
    (),
    StoreError,
>)
    ensures
        match result {
            Ok(()) => start_text_fault(*request) is None,
            Err(fault) => start_text_fault(*request) == Some(fault),
        },
{
    if !bounded_text_ok(request.core_run_id.as_str(), 60) {
        return Err(StoreError::InvalidProcessCommand { field: "provider effect core run ID" });
    }
    if !bounded_text_ok(request.harness_snapshot_id.as_str(), 240) {
        return Err(
            StoreError::InvalidProcessCommand { field: "provider effect harness snapshot ID" },
        );
    }
    if !bounded_text_ok(request.harness_revision_id.as_str(), 240) {
        return Err(
            StoreError::InvalidProcessCommand { field: "provider effect harness revision ID" },
        );
    }
    if !bounded_text_ok(request.model_harness_profile_id.as_str(), 240) {
        return Err(
            StoreError::InvalidProcessCommand { field: "provider effect model harness profile ID" },
        );
    }
    if !bounded_text_ok(request.provider.as_str(), 160) {
        return Err(StoreError::InvalidProcessCommand { field: "provider effect provider" });
    }
    if !bounded_text_ok(request.model.as_str(), 240) {
        return Err(StoreError::InvalidProcessCommand { field: "provider effect model" });
    }
    Ok(())
}

/// Refuses a settlement whose run identity is empty, overlong or holds NUL.
pub fn validate_provider_effect_settlement_identity(request: &ProviderRequestSettle) -> (result:
    Result<(), StoreError>)
    ensures
        result == (if is_bounded_text(request.core_run_id@, 60) {
            Ok::<(), StoreError>(())
        } else {
            Err(StoreError::InvalidProcessCommand { field: "provider effect core run ID" })
        }),
{
    if bounded_text_ok(request.core_run_id.as_str(), 60) {
        Ok(())
    } else {
        Err(StoreError::InvalidProcessCommand { field: "provider effect core run ID" })
    }
}

/// The one command ID a phase of a provider request may be sent under.
pub open spec fn effect_command_id(
    phase: Seq<char>,
    session_id: SessionId,
    assignment_id: AssignmentId,
    core_run_id: Seq<char>,
    effect_id: u64,
) -> Seq<char> {
    "provider-effect-"@ + phase + "-session-"@ + decimal(session_id.value as int)
        + "-assignment-"@ + decimal(assignment_id.value as int) + "-run-"@ + core_run_id
        + "-effect-"@ + decimal(effect_id as int)
}

/// Whether a command ID is the one its phase must be sent under.
pub open spec fn spec_require_effect_command(
    phase: Seq<char>,
    session_id: SessionId,
    assignment_id: AssignmentId,
    command_id: Seq<char>,
    core_run_id: Seq<char>,
    effect_id: u64,
) -> Result<(), StoreError> {
    if command_id != effect_command_id(phase, session_id, assignment_id, core_run_id, effect_id) {
        Err(StoreError::InvalidProcessCommand { field: "provider effect client command ID" })
    } else {
        spec_validate_process_key("actor"@, command_id)
    }
}

/// Refuses any command ID but the one the phase must be sent under.
pub fn require_provider_effect_command(
    phase: &str,
    session_id: SessionId,
    assignment_id: AssignmentId,
    command_id: &str,
    core_run_id: &str,
    effect_id: u64,
) -> (result: Result<(), StoreError>)
    ensures
        result == spec_require_effect_command(
            phase@,
            session_id,
            assignment_id,
            command_id@,
            core_run_id@,
            effect_id,
        ),
{
    let mut expected = String::new();
    expected.append("provider-effect-");
    expected.append(phase);
    expected.append("-session-");
    push_decimal_i64(&mut expected, session_id.value);
    expected.append("-assignment-");
    push_decimal_i64(&mut expected, assignment_id.value);
    expected.append("-run-");
    expected.append(core_run_id);
    expected.append("-effect-");
    push_decimal_u64(&mut expected, effect_id);
    assert(Seq::<char>::empty() + "provider-effect-"@ =~= "provider-effect-"@);
    assert(expected@ == effect_command_id(
        phase@,
        session_id,
        assignment_id,
        core_run_id@,
        effect_id,
    ));
    if !text_equal(command_id, expected.as_str()) {
        return Err(
            StoreError::InvalidProcessCommand { field: "provider effect client command ID" },
        );
    }
    validate_command("actor", command_id)
}

/// The session a provider request belongs to, as its columns hold it.
#[derive(Clone, Debug, PartialEq, Eq)]
pub struct EffectSessionRow {
    pub assignment_id: i64,
    pub revision: i64,
    pub lifecycle: i16,
    pub model_provider: String,
    pub model_id: String,
}

/// Why a session does not take a provider request, if it does not.
pub open spec fn effect_session_fault(
    row: Option<EffectSessionRow>,
    session_id: SessionId,
    assignment_id: AssignmentId,
    expected_revision: u64,
) -> Option<StoreError> {
    match row {
        None => Some(StoreError::UnknownSession { session_id }),
        Some(row) => if row.assignment_id != assignment_id.value {
            Some(StoreError::PacketIdentityMismatch)
        } else {
            match spec_revision_from_sql(row.revision) {
                Err(fault) => Some(fault),
                Ok(current) => if current.value != expected_revision {
                    Some(
                        StoreError::RevisionConflict {
                            expected: ExpectedRevision {
                                revision: AggregateRevision { value: expected_revision },
                            },
                            current,
                        },
                    )
                } else if row.lifecycle != SESSION_RUNNING {
                    Some(StoreError::SessionAlreadyTerminal { session_id })
                } else {
                    None
                },
            }
        },
    }
}

/// Holds a settlement to its running session.
pub fn provider_effect_session_matches_settlement(
    row: Option<&EffectSessionRow>,
    session_id: SessionId,
    assignment_id: AssignmentId,
    expected_revision: u64,
) -> (fault: Option<StoreError>)
    ensures
        fault == effect_session_fault(
            match row {
                Some(row) => Some(*row),
                None => None,
            },
            session_id,
            assignment_id,
            expected_revision,
        ),
{
    let row = match row {
        Some(row) => row,
        None => return Some(StoreError::UnknownSession { session_id }),
    };
    if row.assignment_id != assignment_id.value {
        return Some(StoreError::PacketIdentityMismatch);
    }
    let current = match aggregate_revision_from_sql(row.revision) {
        Ok(revision) => revision,
        Err(fault) => return Some(fault),
    };
    if current.value != expected_revision {
        return Some(
            StoreError::RevisionConflict {
                expected: ExpectedRevision {
                    revision: AggregateRevision { value: expected_revision },
                },
                current,
            },
        );
    }
    if row.lifecycle != SESSION_RUNNING {
        return Some(StoreError::SessionAlreadyTerminal { session_id });
    }
    None
}

/// A recorded provider request, as its identifying columns hold it.
#[derive(Clone, Debug, PartialEq, Eq)]
pub struct EffectStartRow {
    pub harness_snapshot_id: String,
    pub harness_revision_id: String,
    pub model_harness_profile_id: String,
    pub provider_surface_digest: Vec<u8>,
    pub provider: String,
    pub model: String,
    pub request_fingerprint: Vec<u8>,
    pub state: i16,
}

/// What a start request leads to.
#[derive(Clone, Copy, Debug, PartialEq, Eq)]
pub enum EffectStartDecision {
    /// The same request is recorded already, in this state.
    Recorded(ProviderEffectState),
    /// A started row is inserted under these values.
    Insert {
        effect_id: i64,
        provider_surface_digest: ContentDigest,
        request_fingerprint: ContentDigest,
    },
}

/// Whether a recorded request has the same contents.
pub open spec fn start_row_matches(row: EffectStartRow, request: ProviderRequestStart) -> bool {
    &&& row.harness_snapshot_id@ == request.harness_snapshot_id@
    &&& row.harness_revision_id@ == request.harness_revision_id@
    &&& row.model_harness_profile_id@ == request.model_harness_profile_id@
    &&& row.provider_surface_digest@ == digest_bytes(request.provider_surface_digest@)
    &&& row.provider@ == request.provider@
    &&& row.model@ == request.model@
    &&& row.request_fingerprint@ == digest_bytes(request.request_fingerprint@)
}

/// Why a start request's own contents are refused, if they are.
pub open spec fn start_request_fault(
    session_id: SessionId,
    assignment_id: AssignmentId,
    request: ProviderRequestStart,
) -> Option<StoreError> {
    match start_text_fault(request) {
        Some(fault) => Some(fault),
        None => match spec_require_effect_command(
            "start"@,
            session_id,
            assignment_id,
            request.client_command_id@,
            request.core_run_id@,
            request.effect_id,
        ) {
            Err(fault) => Some(fault),
            Ok(()) => if !is_digest_text(request.provider_surface_digest@) {
                Some(
                    StoreError::InvalidProcessCommand {
                        field: "provider effect provider surface digest",
                    },
                )
            } else if !is_digest_text(request.request_fingerprint@) {
                Some(
                    StoreError::InvalidProcessCommand {
                        field: "provider effect request fingerprint",
                    },
                )
            } else {
                None
            },
        },
    }
}

/// Why a start request is refused, if it is.
pub open spec fn start_fault(
    session_id: SessionId,
    assignment_id: AssignmentId,
    request: ProviderRequestStart,
    session: Option<EffectSessionRow>,
    existing: Option<EffectStartRow>,
) -> Option<StoreError> {
    if start_request_fault(session_id, assignment_id, request) is Some {
        start_request_fault(session_id, assignment_id, request)
    } else if effect_session_fault(
        session,
        session_id,
        assignment_id,
        request.expected_revision,
    ) is Some {
        effect_session_fault(session, session_id, assignment_id, request.expected_revision)
    } else if session->0.model_provider@ != request.provider@ || session->0.model_id@
        != request.model@ {
        Some(StoreError::PacketIdentityMismatch)
    } else if request.effect_id > i64::MAX {
        Some(StoreError::InvalidProcessCommand { field: "provider effect ID" })
    } else {
        match existing {
            None => None,
            Some(row) => if !start_row_matches(row, request) {
                Some(StoreError::ProviderEffectConflict)
            } else {
                match spec_state_from_code(row.state) {
                    Err(fault) => Some(fault),
                    Ok(_) => None,
                }
            },
        }
    }
}

/// Decides what a start request leads to.
pub fn provider_effect_start(
    session_id: SessionId,
    assignment_id: AssignmentId,
    request: &ProviderRequestStart,
    session: Option<&EffectSessionRow>,
    existing: Option<&EffectStartRow>,
) -> (result: Result<EffectStartDecision, StoreError>)
    ensures
        ({
            let session_read = match session {
                Some(row) => Some(*row),
                None => None,
            };
            let existing_read = match existing {
                Some(row) => Some(*row),
                None => None,
            };
            match result {
                Err(fault) => start_fault(
                    session_id,
                    assignment_id,
                    *request,
                    session_read,
                    existing_read,
                ) == Some(fault),
                Ok(decision) => {
                    &&& start_fault(
                        session_id,
                        assignment_id,
                        *request,
                        session_read,
                        existing_read,
                    ) is None
                    &&& match (existing_read, decision) {
                        (Some(row), EffectStartDecision::Recorded(state)) => spec_state_from_code(
                            row.state,
                        ) == Ok::<ProviderEffectState, StoreError>(state),
                        (
                            None,
                            EffectStartDecision::Insert {
                                effect_id,
                                provider_surface_digest,
                                request_fingerprint,
                            },
                        ) => effect_id == request.effect_id && provider_surface_digest.bytes@
                            == digest_bytes(request.provider_surface_digest@)
                            && request_fingerprint.bytes@ == digest_bytes(
                            request.request_fingerprint@,
                        ),
                        _ => false,
                    }
                },
            }
        }),
{
    match validate_provider_effect_start(request) {
        Err(fault) => return Err(fault),
        Ok(()) => {},
    }
    match require_provider_effect_command(
        "start",
        session_id,
        assignment_id,
        request.client_command_id.as_str(),
        request.core_run_id.as_str(),
        request.effect_id,
    ) {
        Err(fault) => return Err(fault),
        Ok(()) => {},
    }
    let provider_surface_digest = match ContentDigest::parse_hex(
        request.provider_surface_digest.as_str(),
    ) {
        Some(digest) => digest,
        None => return Err(
            StoreError::InvalidProcessCommand { field: "provider effect provider surface digest" },
        ),
    };
    let request_fingerprint = match ContentDigest::parse_hex(
        request.request_fingerprint.as_str(),
    ) {
        Some(digest) => digest,
        None => return Err(
            StoreError::InvalidProcessCommand { field: "provider effect request fingerprint" },
        ),
    };
    match provider_effect_session_matches_settlement(
        session,
        session_id,
        assignment_id,
        request.expected_revision,
    ) {
        Some(fault) => return Err(fault),
        None => {},
    }
    let row = match session {
        Some(row) => row,
        None => return Err(StoreError::UnknownSession { session_id }),
    };
    if !text_equal(row.model_provider.as_str(), request.provider.as_str()) || !text_equal(
        row.model_id.as_str(),
        request.model.as_str(),
    ) {
        return Err(StoreError::PacketIdentityMismatch);
    }
    if request.effect_id > i64::MAX as u64 {
        return Err(StoreError::InvalidProcessCommand { field: "provider effect ID" });
    }
    match existing {
        None => Ok(
            EffectStartDecision::Insert {
                effect_id: request.effect_id as i64,
                provider_surface_digest,
                request_fingerprint,
            },
        ),
        Some(row) => {
            let matches = text_equal(
                row.harness_snapshot_id.as_str(),
                request.harness_snapshot_id.as_str(),
            ) && text_equal(
                row.harness_revision_id.as_str(),
                request.harness_revision_id.as_str(),
            ) && text_equal(
                row.model_harness_profile_id.as_str(),
                request.model_harness_profile_id.as_str(),
            ) && bytes_equal(
                row.provider_surface_digest.as_slice(),
                provider_surface_digest.bytes.as_slice(),
            ) && text_equal(row.provider.as_str(), request.provider.as_str()) && text_equal(
                row.model.as_str(),
                request.model.as_str(),
            ) && bytes_equal(
                row.request_fingerprint.as_slice(),
                request_fingerprint.bytes.as_slice(),
            );
            if !matches {
                return Err(StoreError::ProviderEffectConflict);
            }
            match provider_effect_state_from_code(row.state) {
                Ok(state) => Ok(EffectStartDecision::Recorded(state)),
                Err(fault) => Err(fault),
            }
        },
    }
}

/// The columns a settlement writes.
#[derive(Clone, Debug, PartialEq, Eq)]
pub struct ProviderEffectSettlement {
    pub stop_reason: String,
    pub context_overflow: bool,
    pub input_tokens: Option<i64>,
    pub output_tokens: Option<i64>,
    pub cache_read_tokens: Option<i64>,
    pub cache_write_tokens: Option<i64>,
    pub reasoning_tokens: Option<i64>,
    pub reported_cost_micro_usd: Option<i64>,
    pub failure_class: Option<String>,
}

/// The closed list of provider stop reasons.
pub open spec fn is_provider_stop_reason(value: Seq<char>) -> bool {
    ||| value == "stop"@
    ||| value == "tool_use"@
    ||| value == "length"@
    ||| value == "aborted"@
    ||| value == "cancelled"@
    ||| value == "error"@
}

/// The closed list of provider failure classes.
pub open spec fn is_provider_failure_class(value: Seq<char>) -> bool {
    ||| value == "provider_response_error"@
    ||| value == "provider_transport_error"@
}

/// Why a settlement's contents are refused, if they are.
pub open spec fn settlement_fault(request: ProviderRequestSettle, state: ProviderEffectState) -> Option<
    StoreError,
> {
    if !is_provider_stop_reason(request.stop_reason@) {
        Some(StoreError::InvalidProcessCommand { field: "provider effect stop reason" })
    } else if request.failure_class is Some && (state == ProviderEffectState::Settled
        || !is_provider_failure_class(request.failure_class->0@)) {
        Some(StoreError::InvalidProcessCommand { field: "provider effect failure class" })
    } else if !storable(request.input_tokens) || !storable(request.output_tokens) || !storable(
        request.cache_read_tokens,
    ) || !storable(request.cache_write_tokens) || !storable(request.reasoning_tokens) || !storable(
        request.reported_cost_micro_usd,
    ) {
        Some(StoreError::InvalidProcessCommand { field: "provider effect usage" })
    } else {
        None
    }
}

/// Whether columns hold what a settlement says.
pub open spec fn settlement_of(
    request: ProviderRequestSettle,
    settlement: ProviderEffectSettlement,
) -> bool {
    &&& settlement.stop_reason@ == request.stop_reason@
    &&& settlement.context_overflow == request.context_overflow
    &&& settlement.input_tokens == stored(request.input_tokens)
    &&& settlement.output_tokens == stored(request.output_tokens)
    &&& settlement.cache_read_tokens == stored(request.cache_read_tokens)
    &&& settlement.cache_write_tokens == stored(request.cache_write_tokens)
    &&& settlement.reasoning_tokens == stored(request.reasoning_tokens)
    &&& settlement.reported_cost_micro_usd == stored(request.reported_cost_micro_usd)
    &&& settlement.failure_class == request.failure_class
}

fn stored_usage(value: Option<u64>) -> (result: Result<Option<i64>, StoreError>)
    ensures
        result == (if storable(value) {
            Ok::<Option<i64>, StoreError>(stored(value))
        } else {
            Err(StoreError::InvalidProcessCommand { field: "provider effect usage" })
        }),
{
    match value {
        None => Ok(None),
        Some(count) => if count > i64::MAX as u64 {
            Err(StoreError::InvalidProcessCommand { field: "provider effect usage" })
        } else {
            Ok(Some(count as i64))
        },
    }
}

/// Reads a settlement's contents into columns.
pub fn provider_effect_settlement(request: &ProviderRequestSettle, state: ProviderEffectState) -> (result:
    Result<ProviderEffectSettlement, StoreError>)
    ensures
        match result {
            Err(fault) => settlement_fault(*request, state) == Some(fault),
            Ok(settlement) => {
                &&& settlement_fault(*request, state) is None
                &&& settlement_of(*request, settlement)
            },
        },
{
    let reason = request.stop_reason.as_str();
    if !(text_equal(reason, "stop") || text_equal(reason, "tool_use") || text_equal(
        reason,
        "length",
    ) || text_equal(reason, "aborted") || text_equal(reason, "cancelled") || text_equal(
        reason,
        "error",
    )) {
        return Err(StoreError::InvalidProcessCommand { field: "provider effect stop reason" });
    }
    let failure_class = match &request.failure_class {
        None => None,
        Some(class) => {
            if state == ProviderEffectState::Settled || !(text_equal(
                class.as_str(),
                "provider_response_error",
            ) || text_equal(class.as_str(), "provider_transport_error")) {
                return Err(
                    StoreError::InvalidProcessCommand { field: "provider effect failure class" },
                );
            }
            Some(class.clone())
        },
    };
    let input_tokens: Option<i64> = match stored_usage(request.input_tokens) {
        Ok(count) => count,
        Err(fault) => return Err(fault),
    };
    let output_tokens: Option<i64> = match stored_usage(request.output_tokens) {
        Ok(count) => count,
        Err(fault) => return Err(fault),
    };
    let cache_read_tokens: Option<i64> = match stored_usage(request.cache_read_tokens) {
        Ok(count) => count,
        Err(fault) => return Err(fault),
    };
    let cache_write_tokens: Option<i64> = match stored_usage(request.cache_write_tokens) {
        Ok(count) => count,
        Err(fault) => return Err(fault),
    };
    let reasoning_tokens: Option<i64> = match stored_usage(request.reasoning_tokens) {
        Ok(count) => count,
        Err(fault) => return Err(fault),
    };
    let reported_cost_micro_usd: Option<i64> = match stored_usage(
        request.reported_cost_micro_usd,
    ) {
        Ok(count) => count,
        Err(fault) => return Err(fault),
    };
    Ok(
        ProviderEffectSettlement {
            stop_reason: request.stop_reason.clone(),
            context_overflow: request.context_overflow,
            input_tokens,
            output_tokens,
            cache_read_tokens,
            cache_write_tokens,
            reasoning_tokens,
            reported_cost_micro_usd,
            failure_class,
        },
    )
}

/// A recorded settlement, as its columns hold it.
#[derive(Clone, Debug, PartialEq, Eq)]
pub struct EffectSettlementRow {
    pub state: i16,
    pub stop_reason: Option<String>,
    pub context_overflow: Option<bool>,
    pub input_tokens: Option<i64>,
    pub output_tokens: Option<i64>,
    pub cache_read_tokens: Option<i64>,
    pub cache_write_tokens: Option<i64>,
    pub reasoning_tokens: Option<i64>,
    pub reported_cost_micro_usd: Option<i64>,
    pub failure_class: Option<String>,
}

/// What an optional text says.
pub open spec fn optional_text(value: Option<String>) -> Option<Seq<char>> {
    match value {
        Some(text) => Some(text@),
        None => None,
    }
}

/// Whether a recorded settlement says exactly the same.
pub open spec fn settlement_row_matches(
    row: EffectSettlementRow,
    request: ProviderRequestSettle,
    state: ProviderEffectState,
) -> bool {
    &&& row.state == state.spec_code()
    &&& optional_text(row.stop_reason) == Some(request.stop_reason@)
    &&& row.context_overflow == Some(request.context_overflow)
    &&& row.input_tokens == stored(request.input_tokens)
    &&& row.output_tokens == stored(request.output_tokens)
    &&& row.cache_read_tokens == stored(request.cache_read_tokens)
    &&& row.cache_write_tokens == stored(request.cache_write_tokens)
    &&& row.reasoning_tokens == stored(request.reasoning_tokens)
    &&& row.reported_cost_micro_usd == stored(request.reported_cost_micro_usd)
    &&& optional_text(row.failure_class) == optional_text(request.failure_class)
}

fn optional_text_equal(left: &Option<String>, right: &Option<String>) -> (equal: bool)
    ensures
        equal == (optional_text(*left) == optional_text(*right)),
{
    match (left, right) {
        (Some(l), Some(r)) => text_equal(l.as_str(), r.as_str()),
        (None, None) => true,
        _ => false,
    }
}

fn optional_i64_equal(left: Option<i64>, right: Option<i64>) -> (equal: bool)
    ensures
        equal == (left == right),
{
    match (left, right) {
        (Some(l), Some(r)) => l == r,
        (None, None) => true,
        _ => false,
    }
}

fn settlement_recorded(
    row: &EffectSettlementRow,
    settlement: &ProviderEffectSettlement,
    recorded: ProviderEffectState,
    state: ProviderEffectState,
    Ghost(request): Ghost<ProviderRequestSettle>,
) -> (equal: bool)
    requires
        settlement_of(request, *settlement),
        row.state == recorded.spec_code(),
    ensures
        equal == settlement_row_matches(*row, request, state),
{
    let stop_equal = match &row.stop_reason {
        Some(text) => text_equal(text.as_str(), settlement.stop_reason.as_str()),
        None => false,
    };
    let overflow_equal = match row.context_overflow {
        Some(flag) => flag == settlement.context_overflow,
        None => false,
    };
    recorded == state && stop_equal && overflow_equal && optional_i64_equal(
        row.input_tokens,
        settlement.input_tokens,
    ) && optional_i64_equal(row.output_tokens, settlement.output_tokens) && optional_i64_equal(
        row.cache_read_tokens,
        settlement.cache_read_tokens,
    ) && optional_i64_equal(row.cache_write_tokens, settlement.cache_write_tokens)
        && optional_i64_equal(row.reasoning_tokens, settlement.reasoning_tokens)
        && optional_i64_equal(row.reported_cost_micro_usd, settlement.reported_cost_micro_usd)
        && optional_text_equal(&row.failure_class, &settlement.failure_class)
}

/// What a settlement leads to.
#[derive(Clone, Debug, PartialEq, Eq)]
pub enum EffectSettleDecision {
    /// The same settlement is recorded already.
    Recorded(ProviderEffectState),
    /// The started row takes this state and these columns.
    Settle { effect_id: i64, state: ProviderEffectState, settlement: ProviderEffectSettlement },
}

/// Why a settlement is refused, if it is.
pub open spec fn settle_fault(
    session_id: SessionId,
    assignment_id: AssignmentId,
    request: ProviderRequestSettle,
    session: Option<EffectSessionRow>,
    existing: Option<EffectSettlementRow>,
) -> Option<StoreError> {
    if !is_bounded_text(request.core_run_id@, 60) {
        Some(StoreError::InvalidProcessCommand { field: "provider effect core run ID" })
    } else {
        match spec_require_effect_command(
            "settle"@,
            session_id,
            assignment_id,
            request.client_command_id@,
            request.core_run_id@,
            request.effect_id,
        ) {
            Err(fault) => Some(fault),
            Ok(()) => match ProviderEffectState::spec_from_settlement(request.outcome@) {
                Err(fault) => Some(fault),
                Ok(state) => if settlement_fault(request, state) is Some {
                    settlement_fault(request, state)
                } else if effect_session_fault(
                    session,
                    session_id,
                    assignment_id,
                    request.expected_revision,
                ) is Some {
                    effect_session_fault(
                        session,
                        session_id,
                        assignment_id,
                        request.expected_revision,
                    )
                } else if request.effect_id > i64::MAX {
                    Some(StoreError::InvalidProcessCommand { field: "provider effect ID" })
                } else {
                    match existing {
                        None => Some(StoreError::ProviderEffectNotStarted),
                        Some(row) => match spec_state_from_code(row.state) {
                            Err(fault) => Some(fault),
                            Ok(recorded) => if recorded != ProviderEffectState::Started
                                && !settlement_row_matches(row, request, state) {
                                Some(StoreError::ProviderEffectConflict)
                            } else {
                                None
                            },
                        },
                    }
                },
            },
        }
    }
}

/// Decides what a settlement leads to. A settlement equal to the recorded one
/// is accepted again; any other repetition conflicts.
pub fn provider_effect_settle(
    session_id: SessionId,
    assignment_id: AssignmentId,
    request: &ProviderRequestSettle,
    session: Option<&EffectSessionRow>,
    existing: Option<&EffectSettlementRow>,
) -> (result: Result<EffectSettleDecision, StoreError>)
    ensures
        ({
            let session_read = match session {
                Some(row) => Some(*row),
                None => None,
            };
            let existing_read = match existing {
                Some(row) => Some(*row),
                None => None,
            };
            match result {
                Err(fault) => settle_fault(
                    session_id,
                    assignment_id,
                    *request,
                    session_read,
                    existing_read,
                ) == Some(fault),
                Ok(decision) => {
                    let recorded = spec_state_from_code(existing_read->0.state)->Ok_0;
                    &&& settle_fault(
                        session_id,
                        assignment_id,
                        *request,
                        session_read,
                        existing_read,
                    ) is None
                    &&& match decision {
                        EffectSettleDecision::Recorded(state) => recorded
                            != ProviderEffectState::Started && state == recorded,
                        EffectSettleDecision::Settle { effect_id, state, settlement } => recorded
                            == ProviderEffectState::Started && effect_id == request.effect_id
                            && ProviderEffectState::spec_from_settlement(request.outcome@) == Ok::<
                            ProviderEffectState,
                            StoreError,
                        >(state) && settlement_of(*request, settlement),
                    }
                },
            }
        }),
{
    match validate_provider_effect_settlement_identity(request) {
        Err(fault) => return Err(fault),
        Ok(()) => {},
    }
    match require_provider_effect_command(
        "settle",
        session_id,
        assignment_id,
        request.client_command_id.as_str(),
        request.core_run_id.as_str(),
        request.effect_id,
    ) {
        Err(fault) => return Err(fault),
        Ok(()) => {},
    }
    let state = match ProviderEffectState::from_settlement(request.outcome.as_str()) {
        Ok(state) => state,
        Err(fault) => return Err(fault),
    };
    let settlement = match provider_effect_settlement(request, state) {
        Ok(settlement) => settlement,
        Err(fault) => return Err(fault),
    };
    match provider_effect_session_matches_settlement(
        session,
        session_id,
        assignment_id,
        request.expected_revision,
    ) {
        Some(fault) => return Err(fault),
        None => {},
    }
    if request.effect_id > i64::MAX as u64 {
        return Err(StoreError::InvalidProcessCommand { field: "provider effect ID" });
    }
    let row = match existing {
        Some(row) => row,
        None => return Err(StoreError::ProviderEffectNotStarted),
    };
    let recorded = match provider_effect_state_from_code(row.state) {
        Ok(recorded) => recorded,
        Err(fault) => return Err(fault),
    };
    if recorded != ProviderEffectState::Started {
        return if settlement_recorded(row, &settlement, recorded, state, Ghost(*request)) {
            Ok(EffectSettleDecision::Recorded(recorded))
        } else {
            Err(StoreError::ProviderEffectConflict)
        };
    }
    Ok(EffectSettleDecision::Settle { effect_id: request.effect_id as i64, state, settlement })
}

/// The columns of one provider request that the ledger reads.
#[derive(Clone, Copy, Debug, PartialEq, Eq, Structural)]
pub struct EffectLedgerColumns {
    pub state: i16,
    pub input_tokens: Option<i64>,
    pub output_tokens: Option<i64>,
    pub cache_read_tokens: Option<i64>,
    pub cache_write_tokens: Option<i64>,
    pub reasoning_tokens: Option<i64>,
    pub reported_cost_micro_usd: Option<i64>,
}

/// One provider request as the ledger reads it.
#[derive(Clone, Copy, Debug, PartialEq, Eq, Structural)]
pub struct ProviderEffectLedgerRow {
    pub state: ProviderEffectState,
    pub input_tokens: Option<u64>,
    pub output_tokens: Option<u64>,
    pub cache_read_tokens: Option<u64>,
    pub cache_write_tokens: Option<u64>,
    pub reasoning_tokens: Option<u64>,
    pub reported_cost_micro_usd: Option<MicroUsd>,
}

/// The compact ledger of a session's provider requests.
#[derive(Clone, Copy, Debug, PartialEq, Eq, Structural)]
pub struct ProviderEffectLedger {
    pub provider_effect_count: u32,
    pub settled_provider_effect_count: u32,
    pub complete_usage: bool,
    pub complete_cost: bool,
    pub usage: UsageTotals,
}

/// A ledger row read back from its columns.
pub open spec fn spec_ledger_row(columns: EffectLedgerColumns) -> Result<
    ProviderEffectLedgerRow,
    StoreError,
> {
    match spec_state_from_code(columns.state) {
        Err(fault) => Err(fault),
        Ok(state) => match (
            spec_count_from_sql(columns.input_tokens),
            spec_count_from_sql(columns.output_tokens),
            spec_count_from_sql(columns.cache_read_tokens),
            spec_count_from_sql(columns.cache_write_tokens),
            spec_count_from_sql(columns.reasoning_tokens),
            spec_count_from_sql(columns.reported_cost_micro_usd),
        ) {
            (
                Ok(input_tokens),
                Ok(output_tokens),
                Ok(cache_read_tokens),
                Ok(cache_write_tokens),
                Ok(reasoning_tokens),
                Ok(cost),
            ) => Ok(
                ProviderEffectLedgerRow {
                    state,
                    input_tokens,
                    output_tokens,
                    cache_read_tokens,
                    cache_write_tokens,
                    reasoning_tokens,
                    reported_cost_micro_usd: match cost {
                        Some(value) => Some(MicroUsd { value }),
                        None => None,
                    },
                },
            ),
            _ => Err(StoreError::CorruptCostColumn),
        },
    }
}

/// Reads a ledger row back from its columns.
pub fn provider_effect_ledger_row(columns: EffectLedgerColumns) -> (result: Result<
    ProviderEffectLedgerRow,
    StoreError,
>)
    ensures
        result == spec_ledger_row(columns),
{
    let state = match provider_effect_state_from_code(columns.state) {
        Ok(state) => state,
        Err(fault) => return Err(fault),
    };
    match (
        count_from_sql(columns.input_tokens),
        count_from_sql(columns.output_tokens),
        count_from_sql(columns.cache_read_tokens),
        count_from_sql(columns.cache_write_tokens),
        count_from_sql(columns.reasoning_tokens),
        count_from_sql(columns.reported_cost_micro_usd),
    ) {
        (
            Ok(input_tokens),
            Ok(output_tokens),
            Ok(cache_read_tokens),
            Ok(cache_write_tokens),
            Ok(reasoning_tokens),
            Ok(cost),
        ) => Ok(
            ProviderEffectLedgerRow {
                state,
                input_tokens,
                output_tokens,
                cache_read_tokens,
                cache_write_tokens,
                reasoning_tokens,
                reported_cost_micro_usd: match cost {
                    Some(value) => Some(MicroUsd { value }),
                    None => None,
                },
            },
        ),
        _ => Err(StoreError::CorruptCostColumn),
    }
}

/// The running total of optional counts: unknown from the first absent count
/// on, refused where the total no longer fits.
pub open spec fn spec_total(counts: Seq<Option<u64>>) -> Result<Option<u64>, StoreError>
    decreases counts.len(),
{
    if counts.len() == 0 {
        Ok(Some(0))
    } else {
        match spec_total(counts.drop_last()) {
            Err(fault) => Err(fault),
            Ok(None) => Ok(None),
            Ok(Some(total)) => match counts.last() {
                None => Ok(None),
                Some(count) => if total + count > u64::MAX {
                    Err(
                        StoreError::InvalidProcessCommand {
                            field: "provider effect usage aggregate",
                        },
                    )
                } else {
                    Ok(Some((total + count) as u64))
                },
            },
        }
    }
}

/// The mathematical sum of counts, absent ones left out.
pub open spec fn sum_of(counts: Seq<Option<u64>>) -> nat
    decreases counts.len(),
{
    if counts.len() == 0 {
        0
    } else {
        sum_of(counts.drop_last()) + (match counts.last() {
            Some(count) => count as nat,
            None => 0,
        })
    }
}

pub open spec fn all_present(counts: Seq<Option<u64>>) -> bool {
    forall|i: int| 0 <= i < counts.len() ==> (#[trigger] counts[i]) is Some
}

/// A total is known exactly when every count is and the sum fits; it is then
/// that sum.
pub proof fn law_total_is_the_sum(counts: Seq<Option<u64>>)
    ensures
        spec_total(counts) matches Ok(Some(total)) ==> all_present(counts) && total == sum_of(
            counts,
        ),
        all_present(counts) && sum_of(counts) <= u64::MAX ==> spec_total(counts) == Ok::<
            Option<u64>,
            StoreError,
        >(Some(sum_of(counts) as u64)),
        all_present(counts) && sum_of(counts) > u64::MAX ==> spec_total(counts) is Err,
    decreases counts.len(),
{
    if counts.len() > 0 {
        let rest = counts.drop_last();
        law_total_is_the_sum(rest);
        assert(counts =~= rest.push(counts.last()));
        assert(all_present(counts) ==> all_present(rest) && counts.last() is Some) by {
            if all_present(counts) {
                assert forall|i: int| 0 <= i < rest.len() implies (#[trigger] rest[i]) is Some by {
                    assert(counts[i] is Some);
                }
                assert(counts[counts.len() - 1] is Some);
            }
        }
        if all_present(rest) && counts.last() is Some {
            assert forall|i: int| 0 <= i < counts.len() implies (#[trigger] counts[i]) is Some by {
                if i < rest.len() {
                    assert(rest[i] is Some);
                }
            }
        }
    }
}

/// Adds one count to a running total.
fn add_count(total: Option<u64>, count: Option<u64>) -> (result: Result<Option<u64>, StoreError>)
    ensures
        result == (match (total, count) {
            (Some(total), Some(count)) => if total + count > u64::MAX {
                Err::<Option<u64>, StoreError>(
                    StoreError::InvalidProcessCommand { field: "provider effect usage aggregate" },
                )
            } else {
                Ok(Some((total + count) as u64))
            },
            _ => Ok(None),
        }),
{
    match (total, count) {
        (Some(total), Some(count)) => match total.checked_add(count) {
            Some(sum) => Ok(Some(sum)),
            None => Err(
                StoreError::InvalidProcessCommand { field: "provider effect usage aggregate" },
            ),
        },
        _ => Ok(None),
    }
}

/// The columns of a ledger, each as one list of counts.
pub open spec fn input_counts(rows: Seq<ProviderEffectLedgerRow>) -> Seq<Option<u64>> {
    rows.map_values(|row: ProviderEffectLedgerRow| row.input_tokens)
}

pub open spec fn output_counts(rows: Seq<ProviderEffectLedgerRow>) -> Seq<Option<u64>> {
    rows.map_values(|row: ProviderEffectLedgerRow| row.output_tokens)
}

pub open spec fn cache_read_counts(rows: Seq<ProviderEffectLedgerRow>) -> Seq<Option<u64>> {
    rows.map_values(|row: ProviderEffectLedgerRow| row.cache_read_tokens)
}

pub open spec fn cache_write_counts(rows: Seq<ProviderEffectLedgerRow>) -> Seq<Option<u64>> {
    rows.map_values(|row: ProviderEffectLedgerRow| row.cache_write_tokens)
}

pub open spec fn reasoning_counts(rows: Seq<ProviderEffectLedgerRow>) -> Seq<Option<u64>> {
    rows.map_values(|row: ProviderEffectLedgerRow| row.reasoning_tokens)
}

pub open spec fn cost_counts(rows: Seq<ProviderEffectLedgerRow>) -> Seq<Option<u64>> {
    rows.map_values(|row: ProviderEffectLedgerRow| amount_of(row.reported_cost_micro_usd))
}

/// How many requests are no longer just started.
pub open spec fn settled_count(rows: Seq<ProviderEffectLedgerRow>) -> nat
    decreases rows.len(),
{
    if rows.len() == 0 {
        0
    } else {
        settled_count(rows.drop_last()) + (if rows.last().state != ProviderEffectState::Started {
            1nat
        } else {
            0
        })
    }
}

/// Whether every request was settled.
pub open spec fn all_settled(rows: Seq<ProviderEffectLedgerRow>) -> bool {
    forall|i: int|
        0 <= i < rows.len() ==> (#[trigger] rows[i]).state == ProviderEffectState::Settled
}

/// Whether all six column totals exist.
pub open spec fn totals_fit(rows: Seq<ProviderEffectLedgerRow>) -> bool {
    &&& spec_total(input_counts(rows)) is Ok
    &&& spec_total(output_counts(rows)) is Ok
    &&& spec_total(cache_read_counts(rows)) is Ok
    &&& spec_total(cache_write_counts(rows)) is Ok
    &&& spec_total(reasoning_counts(rows)) is Ok
    &&& spec_total(cost_counts(rows)) is Ok
}

/// A total of a complete ledger; unknown while any request is unsettled.
pub open spec fn settled_total(complete: bool, counts: Seq<Option<u64>>) -> Option<u64> {
    if complete {
        spec_total(counts)->Ok_0
    } else {
        None
    }
}

/// The ledger of a list of requests.
pub open spec fn spec_ledger(rows: Seq<ProviderEffectLedgerRow>) -> Result<
    ProviderEffectLedger,
    StoreError,
> {
    if !totals_fit(rows) {
        Err(StoreError::InvalidProcessCommand { field: "provider effect usage aggregate" })
    } else if rows.len() > u32::MAX {
        Err(StoreError::InvalidProcessCommand { field: "provider effect count" })
    } else {
        let complete = all_settled(rows);
        let cost = settled_total(complete, cost_counts(rows));
        let usage = UsageTotals {
            input_tokens: settled_total(complete, input_counts(rows)),
            output_tokens: settled_total(complete, output_counts(rows)),
            cache_read_tokens: settled_total(complete, cache_read_counts(rows)),
            cache_write_tokens: settled_total(complete, cache_write_counts(rows)),
            reasoning_tokens: settled_total(complete, reasoning_counts(rows)),
            reported_cost_micro_usd: match cost {
                Some(value) => Some(MicroUsd { value }),
                None => None,
            },
        };
        Ok(
            ProviderEffectLedger {
                provider_effect_count: rows.len() as u32,
                settled_provider_effect_count: settled_count(rows) as u32,
                complete_usage: usage.input_tokens is Some && usage.output_tokens is Some
                    && usage.cache_read_tokens is Some && usage.cache_write_tokens is Some
                    && usage.reasoning_tokens is Some,
                complete_cost: cost is Some,
                usage,
            },
        )
    }
}

/// The kinds of counts a ledger sums.
#[derive(Clone, Copy, PartialEq, Eq, Structural)]
enum Column {
    Input,
    Output,
    CacheRead,
    CacheWrite,
    Reasoning,
    Cost,
}

spec fn column_counts(rows: Seq<ProviderEffectLedgerRow>, column: Column) -> Seq<Option<u64>> {
    match column {
        Column::Input => input_counts(rows),
        Column::Output => output_counts(rows),
        Column::CacheRead => cache_read_counts(rows),
        Column::CacheWrite => cache_write_counts(rows),
        Column::Reasoning => reasoning_counts(rows),
        Column::Cost => cost_counts(rows),
    }
}

fn column_count(row: &ProviderEffectLedgerRow, column: Column) -> (count: Option<u64>)
    ensures
        forall|rows: Seq<ProviderEffectLedgerRow>, i: int|
            0 <= i < rows.len() && rows[i] == *row ==> #[trigger] column_counts(rows, column)[i]
                == count,
{
    match column {
        Column::Input => row.input_tokens,
        Column::Output => row.output_tokens,
        Column::CacheRead => row.cache_read_tokens,
        Column::CacheWrite => row.cache_write_tokens,
        Column::Reasoning => row.reasoning_tokens,
        Column::Cost => match row.reported_cost_micro_usd {
            Some(amount) => Some(amount.value),
            None => None,
        },
    }
}

proof fn lemma_total_prefix(counts: Seq<Option<u64>>, at: int)
    requires
        0 <= at <= counts.len(),
    ensures
        spec_total(counts.take(at)) is Err ==> spec_total(counts) is Err,
    decreases counts.len(),
{
    if at == counts.len() {
        assert(counts.take(at) =~= counts);
    } else {
        lemma_total_prefix(counts.drop_last(), at);
        assert(counts.drop_last().take(at) =~= counts.take(at));
    }
}

proof fn lemma_total_error(counts: Seq<Option<u64>>)
    ensures
        spec_total(counts) matches Err(fault) ==> fault == (StoreError::InvalidProcessCommand {
            field: "provider effect usage aggregate",
        }),
    decreases counts.len(),
{
    if counts.len() > 0 {
        lemma_total_error(counts.drop_last());
    }
}

fn column_total(rows: &[ProviderEffectLedgerRow], column: Column) -> (result: Result<
    Option<u64>,
    StoreError,
>)
    ensures
        result == spec_total(column_counts(rows@, column)),
{
    let mut total: Option<u64> = Some(0);
    let mut index: usize = 0;
    let ghost counts = column_counts(rows@, column);
    assert(counts.take(0) =~= Seq::empty());
    while index < rows.len()
        invariant
            index <= rows.len(),
            counts == column_counts(rows@, column),
            counts.len() == rows@.len(),
            spec_total(counts.take(index as int)) == Ok::<Option<u64>, StoreError>(total),
        decreases rows.len() - index,
    {
        let count = column_count(&rows[index], column);
        proof {
            assert(counts[index as int] == count);
            let taken = counts.take(index as int + 1);
            assert(taken.drop_last() =~= counts.take(index as int));
            assert(taken.last() == counts[index as int]);
            lemma_total_prefix(counts, index as int + 1);
            lemma_total_error(counts);
        }
        match add_count(total, count) {
            Ok(sum) => {
                total = sum;
            },
            Err(fault) => return Err(fault),
        }
        index += 1;
    }
    assert(counts.take(index as int) =~= counts);
    Ok(total)
}

/// Derives the ledger of a session's provider requests.
pub fn provider_effect_ledger(rows: &[ProviderEffectLedgerRow]) -> (result: Result<
    ProviderEffectLedger,
    StoreError,
>)
    ensures
        result == spec_ledger(rows@),
{
    proof {
        lemma_total_error(input_counts(rows@));
        lemma_total_error(output_counts(rows@));
        lemma_total_error(cache_read_counts(rows@));
        lemma_total_error(cache_write_counts(rows@));
        lemma_total_error(reasoning_counts(rows@));
        lemma_total_error(cost_counts(rows@));
    }
    let input_tokens: Option<u64> = match column_total(rows, Column::Input) {
        Ok(total) => total,
        Err(fault) => return Err(fault),
    };
    let output_tokens: Option<u64> = match column_total(rows, Column::Output) {
        Ok(total) => total,
        Err(fault) => return Err(fault),
    };
    let cache_read_tokens: Option<u64> = match column_total(rows, Column::CacheRead) {
        Ok(total) => total,
        Err(fault) => return Err(fault),
    };
    let cache_write_tokens: Option<u64> = match column_total(rows, Column::CacheWrite) {
        Ok(total) => total,
        Err(fault) => return Err(fault),
    };
    let reasoning_tokens: Option<u64> = match column_total(rows, Column::Reasoning) {
        Ok(total) => total,
        Err(fault) => return Err(fault),
    };
    let cost: Option<u64> = match column_total(rows, Column::Cost) {
        Ok(total) => total,
        Err(fault) => return Err(fault),
    };
    if rows.len() as u64 > u32::MAX as u64 {
        return Err(StoreError::InvalidProcessCommand { field: "provider effect count" });
    }
    let mut complete = true;
    let mut settled: u32 = 0;
    let mut index: usize = 0;
    while index < rows.len()
        invariant
            index <= rows.len() <= u32::MAX,
            settled <= index,
            complete == all_settled(rows@.take(index as int)),
            settled == settled_count(rows@.take(index as int)),
        decreases rows.len() - index,
    {
        let state = rows[index].state;
        proof {
            let before = rows@.take(index as int);
            let after = rows@.take(index as int + 1);
            assert(after.drop_last() =~= before);
            assert(after.last() == rows@[index as int]);
            assert(all_settled(after) == (all_settled(before) && state
                == ProviderEffectState::Settled)) by {
                if all_settled(after) {
                    assert forall|i: int| 0 <= i < before.len() implies (#[trigger] before[i]).state
                        == ProviderEffectState::Settled by {
                        assert(after[i] == before[i]);
                    }
                    assert(after[index as int].state == ProviderEffectState::Settled);
                }
                if all_settled(before) && state == ProviderEffectState::Settled {
                    assert forall|i: int| 0 <= i < after.len() implies (#[trigger] after[i]).state
                        == ProviderEffectState::Settled by {
                        if i < before.len() {
                            assert(after[i] == before[i]);
                        }
                    }
                }
            }
        }
        if state != ProviderEffectState::Settled {
            complete = false;
        }
        if state != ProviderEffectState::Started {
            settled += 1;
        }
        index += 1;
    }
    assert(rows@.take(index as int) =~= rows@);
    let usage = if complete {
        UsageTotals {
            input_tokens,
            output_tokens,
            cache_read_tokens,
            cache_write_tokens,
            reasoning_tokens,
            reported_cost_micro_usd: match cost {
                Some(value) => Some(MicroUsd { value }),
                None => None,
            },
        }
    } else {
        UsageTotals::default()
    };
    Ok(
        ProviderEffectLedger {
            provider_effect_count: rows.len() as u32,
            settled_provider_effect_count: settled,
            complete_usage: usage.input_tokens.is_some() && usage.output_tokens.is_some()
                && usage.cache_read_tokens.is_some() && usage.cache_write_tokens.is_some()
                && usage.reasoning_tokens.is_some(),
            complete_cost: usage.reported_cost_micro_usd.is_some(),
            usage,
        },
    )
}

/// A ledger reports a cost only when every request was settled with a reported
/// cost, and then the cost is their exact sum; a request that is only started
/// keeps the cost unknown.
pub proof fn law_ledger_cost_is_complete_or_unknown(rows: Seq<ProviderEffectLedgerRow>)
    requires
        spec_ledger(rows) is Ok,
    ensures
        ({
            let ledger = spec_ledger(rows)->Ok_0;
            &&& ledger.complete_cost == (all_settled(rows) && all_present(cost_counts(rows)))
            &&& ledger.complete_cost ==> ledger.usage.reported_cost_micro_usd is Some
                && ledger.usage.reported_cost_micro_usd->0.value == sum_of(cost_counts(rows))
            &&& !ledger.complete_cost ==> ledger.usage.reported_cost_micro_usd is None
        }),
{
    law_total_is_the_sum(cost_counts(rows));
}

/// A recorded start answers the same request again, before and after it is
/// settled, and refuses every other request under its identity.
pub proof fn law_started_effect_replays(
    session_id: SessionId,
    assignment_id: AssignmentId,
    request: ProviderRequestStart,
    other: ProviderRequestStart,
    session: Option<EffectSessionRow>,
    row: EffectStartRow,
    state: ProviderEffectState,
)
    requires
        start_fault(session_id, assignment_id, request, session, None) is None,
        start_row_matches(row, request),
        row.state == state.spec_code(),
    ensures
        start_fault(session_id, assignment_id, request, session, Some(row)) is None,
        spec_state_from_code(row.state) == Ok::<ProviderEffectState, StoreError>(state),
        !start_row_matches(row, other) ==> start_fault(
            session_id,
            assignment_id,
            other,
            session,
            Some(row),
        ) is Some,
{
}

/// A recorded settlement answers the same settlement again with the state it
/// recorded, and refuses every settlement that says anything else.
pub proof fn law_settlement_replays(
    session_id: SessionId,
    assignment_id: AssignmentId,
    request: ProviderRequestSettle,
    other: ProviderRequestSettle,
    session: Option<EffectSessionRow>,
    started: EffectSettlementRow,
    settled: EffectSettlementRow,
    state: ProviderEffectState,
)
    requires
        settle_fault(session_id, assignment_id, request, session, Some(started)) is None,
        ProviderEffectState::spec_from_settlement(request.outcome@) == Ok::<
            ProviderEffectState,
            StoreError,
        >(state),
        settlement_row_matches(settled, request, state),
    ensures
        settle_fault(session_id, assignment_id, request, session, Some(settled)) is None,
        spec_state_from_code(settled.state) == Ok::<ProviderEffectState, StoreError>(state),
        state != ProviderEffectState::Started,
        settle_fault(session_id, assignment_id, other, session, Some(settled)) is None
            ==> settlement_row_matches(settled, other, state),
{
}

/// The ledger reads back exactly what a settlement reported.
pub proof fn law_settled_counts_are_read_back(
    request: ProviderRequestSettle,
    state: ProviderEffectState,
    settlement: ProviderEffectSettlement,
)
    requires
        settlement_fault(request, state) is None,
        settlement_of(request, settlement),
    ensures
        spec_ledger_row(
            EffectLedgerColumns {
                state: state.spec_code(),
                input_tokens: settlement.input_tokens,
                output_tokens: settlement.output_tokens,
                cache_read_tokens: settlement.cache_read_tokens,
                cache_write_tokens: settlement.cache_write_tokens,
                reasoning_tokens: settlement.reasoning_tokens,
                reported_cost_micro_usd: settlement.reported_cost_micro_usd,
            },
        ) == Ok::<ProviderEffectLedgerRow, StoreError>(
            ProviderEffectLedgerRow {
                state,
                input_tokens: request.input_tokens,
                output_tokens: request.output_tokens,
                cache_read_tokens: request.cache_read_tokens,
                cache_write_tokens: request.cache_write_tokens,
                reasoning_tokens: request.reasoning_tokens,
                reported_cost_micro_usd: match request.reported_cost_micro_usd {
                    Some(value) => Some(MicroUsd { value }),
                    None => None,
                },
            },
        ),
{
}

proof fn lemma_refused_total_is_too_large(counts: Seq<Option<u64>>)
    ensures
        spec_total(counts) is Err ==> sum_of(counts) > u64::MAX,
        spec_total(counts) == Ok::<Option<u64>, StoreError>(None) ==> !all_present(counts),
    decreases counts.len(),
{
    if counts.len() > 0 {
        lemma_refused_total_is_too_large(counts.drop_last());
        law_total_is_the_sum(counts.drop_last());
        if spec_total(counts) == Ok::<Option<u64>, StoreError>(None) {
            if counts.last() is None {
                assert(counts[counts.len() - 1] is None);
            } else if all_present(counts) {
                assert forall|i: int| 0 <= i < counts.drop_last().len() implies (
                #[trigger] counts.drop_last()[i]) is Some by {
                    assert(counts[i] is Some);
                }
            }
        }
    }
}

/// A total over settled requests is the sum of what each of them reports, and
/// unknown where one of them reports nothing.
pub open spec fn is_exact_total(counts: Seq<Option<u64>>, total: Option<u64>) -> bool {
    match total {
        Some(total) => all_present(counts) && total == sum_of(counts),
        None => !all_present(counts),
    }
}

/// Where every request is settled, each total of the ledger is the exact sum of
/// its own column: input, output, cache reads, cache writes, reasoning and cost.
/// A column with an absent count has no total. Where a request is not settled,
/// there is no total at all.
pub proof fn law_ledger_totals_are_column_sums(rows: Seq<ProviderEffectLedgerRow>)
    requires
        spec_ledger(rows) is Ok,
    ensures
        ({
            let usage = spec_ledger(rows)->Ok_0.usage;
            let settled = forall|i: int|
                0 <= i < rows.len() ==> (#[trigger] rows[i]).state == ProviderEffectState::Settled;
            &&& settled ==> {
                &&& is_exact_total(
                    rows.map_values(|row: ProviderEffectLedgerRow| row.input_tokens),
                    usage.input_tokens,
                )
                &&& is_exact_total(
                    rows.map_values(|row: ProviderEffectLedgerRow| row.output_tokens),
                    usage.output_tokens,
                )
                &&& is_exact_total(
                    rows.map_values(|row: ProviderEffectLedgerRow| row.cache_read_tokens),
                    usage.cache_read_tokens,
                )
                &&& is_exact_total(
                    rows.map_values(|row: ProviderEffectLedgerRow| row.cache_write_tokens),
                    usage.cache_write_tokens,
                )
                &&& is_exact_total(
                    rows.map_values(|row: ProviderEffectLedgerRow| row.reasoning_tokens),
                    usage.reasoning_tokens,
                )
                &&& is_exact_total(
                    rows.map_values(
                        |row: ProviderEffectLedgerRow|
                            match row.reported_cost_micro_usd {
                                Some(amount) => Some(amount.value),
                                None => None,
                            },
                    ),
                    match usage.reported_cost_micro_usd {
                        Some(amount) => Some(amount.value),
                        None => None,
                    },
                )
            }
            &&& !settled ==> {
                &&& usage.input_tokens is None
                &&& usage.output_tokens is None
                &&& usage.cache_read_tokens is None
                &&& usage.cache_write_tokens is None
                &&& usage.reasoning_tokens is None
                &&& usage.reported_cost_micro_usd is None
            }
        }),
{
    let cost = rows.map_values(
        |row: ProviderEffectLedgerRow|
            match row.reported_cost_micro_usd {
                Some(amount) => Some(amount.value),
                None => None,
            },
    );
    assert(rows.map_values(|row: ProviderEffectLedgerRow| row.input_tokens) =~= input_counts(rows));
    assert(rows.map_values(|row: ProviderEffectLedgerRow| row.output_tokens) =~= output_counts(
        rows,
    ));
    assert(rows.map_values(|row: ProviderEffectLedgerRow| row.cache_read_tokens)
        =~= cache_read_counts(rows));
    assert(rows.map_values(|row: ProviderEffectLedgerRow| row.cache_write_tokens)
        =~= cache_write_counts(rows));
    assert(rows.map_values(|row: ProviderEffectLedgerRow| row.reasoning_tokens)
        =~= reasoning_counts(rows));
    assert(cost =~= cost_counts(rows));
    law_total_is_the_sum(input_counts(rows));
    law_total_is_the_sum(output_counts(rows));
    law_total_is_the_sum(cache_read_counts(rows));
    law_total_is_the_sum(cache_write_counts(rows));
    law_total_is_the_sum(reasoning_counts(rows));
    law_total_is_the_sum(cost_counts(rows));
    lemma_refused_total_is_too_large(input_counts(rows));
    lemma_refused_total_is_too_large(output_counts(rows));
    lemma_refused_total_is_too_large(cache_read_counts(rows));
    lemma_refused_total_is_too_large(cache_write_counts(rows));
    lemma_refused_total_is_too_large(reasoning_counts(rows));
    lemma_refused_total_is_too_large(cost_counts(rows));
}

/// A ledger exists for every list of requests whose sums fit, and counts its
/// requests: all of them, and those that are no longer just started. It calls
/// its usage complete exactly when it has all five token totals.
pub proof fn law_ledger_counts_its_requests(rows: Seq<ProviderEffectLedgerRow>)
    ensures
        rows.len() <= u32::MAX && sum_of(input_counts(rows)) <= u64::MAX && sum_of(
            output_counts(rows),
        ) <= u64::MAX && sum_of(cache_read_counts(rows)) <= u64::MAX && sum_of(
            cache_write_counts(rows),
        ) <= u64::MAX && sum_of(reasoning_counts(rows)) <= u64::MAX && sum_of(cost_counts(rows))
            <= u64::MAX ==> spec_ledger(rows) is Ok,
        spec_ledger(rows) matches Ok(ledger) ==> {
            &&& ledger.provider_effect_count == rows.len()
            &&& ledger.settled_provider_effect_count == rows.filter(
                |row: ProviderEffectLedgerRow| row.state != ProviderEffectState::Started,
            ).len()
            &&& ledger.complete_usage <==> ledger.usage.input_tokens is Some
                && ledger.usage.output_tokens is Some && ledger.usage.cache_read_tokens is Some
                && ledger.usage.cache_write_tokens is Some && ledger.usage.reasoning_tokens is Some
            &&& ledger.complete_cost <==> ledger.usage.reported_cost_micro_usd is Some
        },
{
    lemma_refused_total_is_too_large(input_counts(rows));
    lemma_refused_total_is_too_large(output_counts(rows));
    lemma_refused_total_is_too_large(cache_read_counts(rows));
    lemma_refused_total_is_too_large(cache_write_counts(rows));
    lemma_refused_total_is_too_large(reasoning_counts(rows));
    lemma_refused_total_is_too_large(cost_counts(rows));
    lemma_settled_requests_are_counted(rows);
}

proof fn lemma_settled_requests_are_counted(rows: Seq<ProviderEffectLedgerRow>)
    ensures
        settled_count(rows) == rows.filter(
            |row: ProviderEffectLedgerRow| row.state != ProviderEffectState::Started,
        ).len(),
        settled_count(rows) <= rows.len(),
    decreases rows.len(),
{
    reveal(Seq::filter);
    if rows.len() > 0 {
        lemma_settled_requests_are_counted(rows.drop_last());
    }
}

/// An effect may be recorded for a session exactly while it runs, for its own
/// assignment, at the expected revision; each refusal has its cause.
pub proof fn law_effect_needs_its_running_session(
    row: Option<EffectSessionRow>,
    session_id: SessionId,
    assignment_id: AssignmentId,
    expected_revision: u64,
)
    ensures
        ({
            let fault = effect_session_fault(row, session_id, assignment_id, expected_revision);
            &&& fault is None <==> {
                &&& row is Some
                &&& row->0.assignment_id == assignment_id.value
                &&& row->0.revision == expected_revision
                &&& row->0.lifecycle == 1
            }
            &&& fault == Some(StoreError::UnknownSession { session_id }) <==> row is None
            &&& fault == Some(StoreError::PacketIdentityMismatch) <==> row is Some
                && row->0.assignment_id != assignment_id.value
            &&& fault == Some(StoreError::SessionAlreadyTerminal { session_id }) <==> row is Some
                && row->0.assignment_id == assignment_id.value && row->0.revision
                == expected_revision && row->0.lifecycle != 1
        }),
{
}

/// A start is recorded exactly when its texts are bounded, it comes under the
/// command of its own effect, its digests are written in full, its session runs
/// with the same provider and model, and nothing else was recorded under the
/// effect.
pub proof fn law_effect_starts_exactly_when_it_may(
    session_id: SessionId,
    assignment_id: AssignmentId,
    request: ProviderRequestStart,
    session: Option<EffectSessionRow>,
    existing: Option<EffectStartRow>,
)
    ensures
        start_fault(session_id, assignment_id, request, session, existing) is None <==> {
            &&& is_bounded_text(request.core_run_id@, 60)
            &&& is_bounded_text(request.harness_snapshot_id@, 240)
            &&& is_bounded_text(request.harness_revision_id@, 240)
            &&& is_bounded_text(request.model_harness_profile_id@, 240)
            &&& is_bounded_text(request.provider@, 160)
            &&& is_bounded_text(request.model@, 240)
            &&& request.client_command_id@ == "provider-effect-"@ + "start"@ + "-session-"@
                + decimal(session_id.value as int) + "-assignment-"@ + decimal(
                assignment_id.value as int,
            ) + "-run-"@ + request.core_run_id@ + "-effect-"@ + decimal(request.effect_id as int)
            &&& spec_validate_process_key("actor"@, request.client_command_id@) is Ok
            &&& is_digest_text(request.provider_surface_digest@)
            &&& is_digest_text(request.request_fingerprint@)
            &&& session is Some
            &&& session->0.assignment_id == assignment_id.value
            &&& session->0.revision == request.expected_revision
            &&& session->0.lifecycle == 1
            &&& session->0.model_provider@ == request.provider@
            &&& session->0.model_id@ == request.model@
            &&& request.effect_id <= i64::MAX
            &&& existing matches Some(row) ==> {
                &&& row.harness_snapshot_id@ == request.harness_snapshot_id@
                &&& row.harness_revision_id@ == request.harness_revision_id@
                &&& row.model_harness_profile_id@ == request.model_harness_profile_id@
                &&& row.provider_surface_digest@ == digest_bytes(request.provider_surface_digest@)
                &&& row.provider@ == request.provider@
                &&& row.model@ == request.model@
                &&& row.request_fingerprint@ == digest_bytes(request.request_fingerprint@)
                &&& 0 <= row.state <= 3
            }
        },
{
}

/// A settlement is recorded exactly when it comes under the command of its own
/// effect with a known outcome and stop reason, a failure class only for what
/// did not settle, counts that fit, a running session, and a started effect, or
/// one that was settled in the same way.
pub proof fn law_effect_settles_exactly_when_it_may(
    session_id: SessionId,
    assignment_id: AssignmentId,
    request: ProviderRequestSettle,
    session: Option<EffectSessionRow>,
    existing: Option<EffectSettlementRow>,
)
    ensures
        settle_fault(session_id, assignment_id, request, session, existing) is None <==> {
            let stop = request.stop_reason@;
            let outcome = request.outcome@;
            &&& is_bounded_text(request.core_run_id@, 60)
            &&& request.client_command_id@ == "provider-effect-"@ + "settle"@ + "-session-"@
                + decimal(session_id.value as int) + "-assignment-"@ + decimal(
                assignment_id.value as int,
            ) + "-run-"@ + request.core_run_id@ + "-effect-"@ + decimal(request.effect_id as int)
            &&& spec_validate_process_key("actor"@, request.client_command_id@) is Ok
            &&& outcome == "settled"@ || outcome == "failed"@ || outcome == "cancelled"@
            &&& stop == "stop"@ || stop == "tool_use"@ || stop == "length"@ || stop == "aborted"@
                || stop == "cancelled"@ || stop == "error"@
            &&& request.failure_class is Some ==> outcome != "settled"@ && (
            request.failure_class->0@ == "provider_response_error"@ || request.failure_class->0@
                == "provider_transport_error"@)
            &&& request.input_tokens matches Some(count) ==> count <= i64::MAX
            &&& request.output_tokens matches Some(count) ==> count <= i64::MAX
            &&& request.cache_read_tokens matches Some(count) ==> count <= i64::MAX
            &&& request.cache_write_tokens matches Some(count) ==> count <= i64::MAX
            &&& request.reasoning_tokens matches Some(count) ==> count <= i64::MAX
            &&& request.reported_cost_micro_usd matches Some(count) ==> count <= i64::MAX
            &&& session is Some
            &&& session->0.assignment_id == assignment_id.value
            &&& session->0.revision == request.expected_revision
            &&& session->0.lifecycle == 1
            &&& request.effect_id <= i64::MAX
            &&& existing is Some
            &&& existing->0.state == 0 || (1 <= existing->0.state <= 3 && settlement_row_matches(
                existing->0,
                request,
                ProviderEffectState::spec_from_settlement(outcome)->Ok_0,
            ))
        },
        existing is None && settle_fault(
            session_id,
            assignment_id,
            request,
            session,
            existing,
        ) is Some ==> settle_fault(session_id, assignment_id, request, session, existing) != Some(
            StoreError::ProviderEffectConflict,
        ),
{
    reveal_strlit("settled");
    reveal_strlit("failed");
    reveal_strlit("cancelled");
    assert("failed"@.len() != "settled"@.len());
    assert("cancelled"@.len() != "settled"@.len());
}

/// What was recorded answers a settlement exactly when every column is what the
/// settlement would store.
pub proof fn law_recorded_settlement_is_compared_by_column(
    row: EffectSettlementRow,
    request: ProviderRequestSettle,
    state: ProviderEffectState,
)
    requires
        storable(request.input_tokens),
        storable(request.output_tokens),
        storable(request.cache_read_tokens),
        storable(request.cache_write_tokens),
        storable(request.reasoning_tokens),
        storable(request.reported_cost_micro_usd),
    ensures
        settlement_row_matches(row, request, state) <==> {
            &&& row.state == (match state {
                ProviderEffectState::Started => 0i16,
                ProviderEffectState::Settled => 1,
                ProviderEffectState::Failed => 2,
                ProviderEffectState::Cancelled => 3,
            })
            &&& row.stop_reason is Some && row.stop_reason->0@ == request.stop_reason@
            &&& row.context_overflow == Some(request.context_overflow)
            &&& row.input_tokens is Some <==> request.input_tokens is Some
            &&& row.input_tokens is Some ==> row.input_tokens->0 == request.input_tokens->0
            &&& row.output_tokens is Some <==> request.output_tokens is Some
            &&& row.output_tokens is Some ==> row.output_tokens->0 == request.output_tokens->0
            &&& row.cache_read_tokens is Some <==> request.cache_read_tokens is Some
            &&& row.cache_read_tokens is Some ==> row.cache_read_tokens->0
                == request.cache_read_tokens->0
            &&& row.cache_write_tokens is Some <==> request.cache_write_tokens is Some
            &&& row.cache_write_tokens is Some ==> row.cache_write_tokens->0
                == request.cache_write_tokens->0
            &&& row.reasoning_tokens is Some <==> request.reasoning_tokens is Some
            &&& row.reasoning_tokens is Some ==> row.reasoning_tokens->0
                == request.reasoning_tokens->0
            &&& row.reported_cost_micro_usd is Some <==> request.reported_cost_micro_usd is Some
            &&& row.reported_cost_micro_usd is Some ==> row.reported_cost_micro_usd->0
                == request.reported_cost_micro_usd->0
            &&& row.failure_class is Some <==> request.failure_class is Some
            &&& row.failure_class is Some ==> row.failure_class->0@ == request.failure_class->0@
        },
{
}

/// A settlement stores each reported count in its own column.
pub proof fn law_settlement_is_stored_by_column(
    request: ProviderRequestSettle,
    state: ProviderEffectState,
    settlement: ProviderEffectSettlement,
)
    requires
        settlement_fault(request, state) is None,
        settlement_of(request, settlement),
    ensures
        settlement.stop_reason@ == request.stop_reason@,
        settlement.context_overflow == request.context_overflow,
        settlement.input_tokens is Some <==> request.input_tokens is Some,
        request.input_tokens matches Some(count) ==> settlement.input_tokens->0 == count,
        settlement.output_tokens is Some <==> request.output_tokens is Some,
        request.output_tokens matches Some(count) ==> settlement.output_tokens->0 == count,
        settlement.cache_read_tokens is Some <==> request.cache_read_tokens is Some,
        request.cache_read_tokens matches Some(count) ==> settlement.cache_read_tokens->0 == count,
        settlement.cache_write_tokens is Some <==> request.cache_write_tokens is Some,
        request.cache_write_tokens matches Some(count) ==> settlement.cache_write_tokens->0
            == count,
        settlement.reasoning_tokens is Some <==> request.reasoning_tokens is Some,
        request.reasoning_tokens matches Some(count) ==> settlement.reasoning_tokens->0 == count,
        settlement.reported_cost_micro_usd is Some <==> request.reported_cost_micro_usd is Some,
        request.reported_cost_micro_usd matches Some(count)
            ==> settlement.reported_cost_micro_usd->0 == count,
        settlement.failure_class is Some <==> request.failure_class is Some,
        request.failure_class is Some ==> settlement.failure_class->0@
            == request.failure_class->0@,
{
}

/// A ledger row is read exactly when its state is known and no count is
/// negative, each count from its own column.
pub proof fn law_ledger_row_is_its_columns(columns: EffectLedgerColumns)
    ensures
        ({
            let read = spec_ledger_row(columns);
            &&& read is Ok <==> {
                &&& 0 <= columns.state <= 3
                &&& columns.input_tokens matches Some(count) ==> count >= 0
                &&& columns.output_tokens matches Some(count) ==> count >= 0
                &&& columns.cache_read_tokens matches Some(count) ==> count >= 0
                &&& columns.cache_write_tokens matches Some(count) ==> count >= 0
                &&& columns.reasoning_tokens matches Some(count) ==> count >= 0
                &&& columns.reported_cost_micro_usd matches Some(count) ==> count >= 0
            }
            &&& read matches Ok(row) ==> {
                &&& row.state is Started <==> columns.state == 0
                &&& row.state is Settled <==> columns.state == 1
                &&& row.state is Failed <==> columns.state == 2
                &&& row.state is Cancelled <==> columns.state == 3
                &&& row.input_tokens is Some <==> columns.input_tokens is Some
                &&& row.input_tokens matches Some(count) ==> count == columns.input_tokens->0
                &&& row.output_tokens is Some <==> columns.output_tokens is Some
                &&& row.output_tokens matches Some(count) ==> count == columns.output_tokens->0
                &&& row.cache_read_tokens is Some <==> columns.cache_read_tokens is Some
                &&& row.cache_read_tokens matches Some(count) ==> count
                    == columns.cache_read_tokens->0
                &&& row.cache_write_tokens is Some <==> columns.cache_write_tokens is Some
                &&& row.cache_write_tokens matches Some(count) ==> count
                    == columns.cache_write_tokens->0
                &&& row.reasoning_tokens is Some <==> columns.reasoning_tokens is Some
                &&& row.reasoning_tokens matches Some(count) ==> count
                    == columns.reasoning_tokens->0
                &&& row.reported_cost_micro_usd is Some <==> columns.reported_cost_micro_usd
                    is Some
                &&& row.reported_cost_micro_usd matches Some(amount) ==> amount.value
                    == columns.reported_cost_micro_usd->0
            }
        }),
{
}

/// What the states of an effect are called and which number stands for each; an
/// outcome is read by its name and never as started.
pub proof fn law_effect_states_have_names(state: ProviderEffectState, value: Seq<char>)
    ensures
        state.spec_name()@ == (match state {
            ProviderEffectState::Started => "started"@,
            ProviderEffectState::Settled => "settled"@,
            ProviderEffectState::Failed => "failed"@,
            ProviderEffectState::Cancelled => "cancelled"@,
        }),
        state.spec_code() == (match state {
            ProviderEffectState::Started => 0i16,
            ProviderEffectState::Settled => 1,
            ProviderEffectState::Failed => 2,
            ProviderEffectState::Cancelled => 3,
        }),
        ProviderEffectState::spec_from_settlement(value) is Ok <==> value == "settled"@ || value
            == "failed"@ || value == "cancelled"@,
        ProviderEffectState::spec_from_settlement(value) matches Ok(read) ==> !(read is Started)
            && value == read.spec_name()@,
{
}

} // verus!
