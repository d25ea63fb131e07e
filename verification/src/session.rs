//! Starting sessions, reading them back, and recovering them after a daemon
//! restart.

use vstd::prelude::*;

use crate::assignment::ArtifactRow;
use crate::audit::{
    aggregate_revision_from_sql, replay, spec_replay, spec_revision_from_sql,
    spec_validate_process_key, validate_command, Audit, AuditRow,
};
use crate::campaign::{bytes_to_digest, plan_transition, spec_transition, CampaignTransition};
use crate::digest::{blake3_of, ContentDigest};
use crate::encoding::{
    be32, be64, be_i64, frameable, framed, lemma_be32_head, lemma_be64_head, lemma_be_i64_head,
    lemma_concat_split, lemma_framed_head, push_framed, push_i64, push_u32, push_u64,
};
use crate::error::StoreError;
use crate::identity::{
    AggregateRevision, ArtifactId, AssignmentId, CampaignId, CasArtifact, ExpectedRevision,
    SessionId,
};
use crate::packet::{
    assignment_packet_from_wire, spec_verify_wire_domain_mapping, verify_wire_domain_mapping,
    wire_fault, wire_maps, AssignmentPacket, AssignmentPacketWire, WireContract,
};
use crate::protocol::{
    assignment_role_code, assignment_role_from_code, db_cost, session_state_from_code,
    spec_assignment_role_code, spec_assignment_role_from_code, spec_db_cost,
    spec_session_state_from_code, spec_thinking_code, thinking_code, AssignmentRole, ProcessCustody,
    SessionState, TerminalCost, ThinkingLevel, UsageTotals, COST_KNOWN, PREPARED, RUNNING,
    SESSION_RUNNING, SESSION_START, SESSION_SUBJECT,
};
use crate::text::{bytes_equal, push_bytes, text_equal};

verus! {

/// Registers process custody before the host is released.
#[derive(Clone, Debug, PartialEq, Eq)]
pub struct StartSession {
    pub principal: String,
    pub command_id: String,
    pub expected_assignment_revision: ExpectedRevision,
    pub assignment_id: AssignmentId,
    pub packet_digest: ContentDigest,
    pub custody: ProcessCustody,
}

/// The answer to a start command.
#[derive(Clone, Copy, Debug, PartialEq, Eq, Structural)]
pub struct SessionReceipt {
    pub session_id: SessionId,
    pub resulting_revision: AggregateRevision,
    pub assignment_revision: AggregateRevision,
    pub audit_log_id: i64,
    pub was_idempotent_retry: bool,
}

/// Where a session stands.
#[derive(Clone, Copy, Debug, PartialEq, Eq, Structural)]
pub struct SessionStatus {
    pub session_id: SessionId,
    pub assignment_id: AssignmentId,
    pub state: SessionState,
    pub revision: AggregateRevision,
    pub cost: Option<TerminalCost>,
}

/// An assignment under lock with its campaign, as their columns hold them.
#[derive(Clone, Debug, PartialEq, Eq)]
pub struct SessionAssignmentRow {
    pub campaign_id: i64,
    pub packet_digest: Vec<u8>,
    pub revision: i64,
    pub lifecycle: i16,
    pub campaign_lifecycle: i16,
    pub cost_state: i16,
    pub deadline_open: bool,
}

/// The columns of the session row to insert, at revision zero, and the
/// assignment's move to its next revision.
#[derive(Clone, Copy, Debug, PartialEq, Eq, Structural)]
pub struct SessionPlan {
    pub pid: i32,
    pub pgid: i32,
    pub process_started_at_unix_millis: i64,
    pub assignment: CampaignTransition,
}

/// The bytes a start command is fingerprinted by.
pub open spec fn session_preimage(command: StartSession) -> Seq<u8> {
    framed(SESSION_START@) + (framed(command.principal@) + (framed(command.command_id@) + (be64(
        command.expected_assignment_revision.revision.value,
    ) + (be_i64(command.assignment_id.value) + (command.packet_digest.bytes@ + (be32(
        command.custody.pid,
    ) + (be32(command.custody.pgid) + be64(command.custody.started_at_unix_millis))))))))
}

/// Fingerprint of a start command.
pub fn fingerprint_session_start(command: &StartSession) -> (digest: ContentDigest)
    ensures
        digest.bytes == blake3_of(session_preimage(*command)),
{
    let mut bytes: Vec<u8> = Vec::new();
    push_framed(&mut bytes, SESSION_START);
    push_framed(&mut bytes, command.principal.as_str());
    push_framed(&mut bytes, command.command_id.as_str());
    push_u64(&mut bytes, command.expected_assignment_revision.revision.value);
    push_i64(&mut bytes, command.assignment_id.value);
    push_bytes(&mut bytes, command.packet_digest.bytes.as_slice());
    push_u32(&mut bytes, command.custody.pid);
    push_u32(&mut bytes, command.custody.pgid);
    push_u64(&mut bytes, command.custody.started_at_unix_millis);
    assert(bytes@ =~= session_preimage(*command));
    ContentDigest::of_bytes(bytes.as_slice())
}

/// Two start commands are hashed from the same bytes only when they agree in
/// every field.
pub proof fn law_session_preimage_injective(left: StartSession, right: StartSession)
    requires
        frameable(left.principal@),
        frameable(left.command_id@),
        frameable(right.principal@),
        frameable(right.command_id@),
        session_preimage(left) == session_preimage(right),
    ensures
        left.principal@ == right.principal@,
        left.command_id@ == right.command_id@,
        left.expected_assignment_revision == right.expected_assignment_revision,
        left.assignment_id == right.assignment_id,
        left.packet_digest == right.packet_digest,
        left.custody == right.custody,
{
    let l7 = be64(left.custody.started_at_unix_millis);
    let r7 = be64(right.custody.started_at_unix_millis);
    let l6 = be32(left.custody.pgid) + l7;
    let r6 = be32(right.custody.pgid) + r7;
    let l5 = be32(left.custody.pid) + l6;
    let r5 = be32(right.custody.pid) + r6;
    let l4 = left.packet_digest.bytes@ + l5;
    let r4 = right.packet_digest.bytes@ + r5;
    let l3 = be_i64(left.assignment_id.value) + l4;
    let r3 = be_i64(right.assignment_id.value) + r4;
    let l2 = be64(left.expected_assignment_revision.revision.value) + l3;
    let r2 = be64(right.expected_assignment_revision.revision.value) + r3;
    let l1 = framed(left.command_id@) + l2;
    let r1 = framed(right.command_id@) + r2;
    lemma_concat_split(
        framed(SESSION_START@),
        framed(left.principal@) + l1,
        framed(SESSION_START@),
        framed(right.principal@) + r1,
    );
    lemma_framed_head(left.principal@, l1, right.principal@, r1);
    lemma_framed_head(left.command_id@, l2, right.command_id@, r2);
    lemma_be64_head(
        left.expected_assignment_revision.revision.value,
        l3,
        right.expected_assignment_revision.revision.value,
        r3,
    );
    lemma_be_i64_head(left.assignment_id.value, l4, right.assignment_id.value, r4);
    lemma_concat_split(left.packet_digest.bytes@, l5, right.packet_digest.bytes@, r5);
    lemma_be32_head(left.custody.pid, l6, right.custody.pid, r6);
    lemma_be32_head(left.custody.pgid, l7, right.custody.pgid, r7);
    assert(l7 =~= l7 + Seq::<u8>::empty());
    assert(r7 =~= r7 + Seq::<u8>::empty());
    lemma_be64_head(
        left.custody.started_at_unix_millis,
        Seq::empty(),
        right.custody.started_at_unix_millis,
        Seq::empty(),
    );
    assert(left.packet_digest.bytes =~= right.packet_digest.bytes);
}

/// The receipt, if any, that already answers a start command.
pub open spec fn spec_admit_session(command: StartSession, audit: Option<AuditRow>) -> Result<
    Option<Audit>,
    StoreError,
> {
    match spec_validate_process_key(command.principal@, command.command_id@) {
        Err(fault) => Err(fault),
        Ok(()) => if command.custody.pid == 0 || command.custody.pgid == 0
            || command.custody.started_at_unix_millis == 0 {
            Err(StoreError::InvalidProcessCommand { field: "process custody" })
        } else {
            spec_replay(
                audit,
                command.principal,
                command.command_id,
                SESSION_START@,
                ContentDigest { bytes: blake3_of(session_preimage(command)) },
                SESSION_SUBJECT,
            )
        },
    }
}

/// Admits a start command against its command key.
pub fn admit_start_session(command: &StartSession, audit: Option<&AuditRow>) -> (result: Result<
    Option<Audit>,
    StoreError,
>)
    ensures
        result == spec_admit_session(
            *command,
            match audit {
                Some(row) => Some(*row),
                None => None,
            },
        ),
{
    match validate_command(command.principal.as_str(), command.command_id.as_str()) {
        Err(fault) => return Err(fault),
        Ok(()) => {},
    }
    if command.custody.pid == 0 || command.custody.pgid == 0
        || command.custody.started_at_unix_millis == 0 {
        return Err(StoreError::InvalidProcessCommand { field: "process custody" });
    }
    replay(
        audit,
        &command.principal,
        &command.command_id,
        SESSION_START,
        fingerprint_session_start(command),
        SESSION_SUBJECT,
    )
}

/// Why a start command that no receipt answers is refused, if it is.
pub open spec fn session_fault(
    command: StartSession,
    assignment: Option<SessionAssignmentRow>,
    any_session_running: bool,
) -> Option<StoreError> {
    match assignment {
        None => Some(StoreError::UnknownAssignment { assignment_id: command.assignment_id }),
        Some(row) => match spec_revision_from_sql(row.revision) {
            Err(fault) => Some(fault),
            Ok(current) => if command.expected_assignment_revision.revision != current {
                Some(
                    StoreError::RevisionConflict {
                        expected: command.expected_assignment_revision,
                        current,
                    },
                )
            } else if row.lifecycle != PREPARED {
                Some(StoreError::AssignmentStateConflict { assignment_id: command.assignment_id })
            } else if row.campaign_lifecycle != RUNNING || row.cost_state != COST_KNOWN {
                match CampaignId::spec_new(row.campaign_id) {
                    Ok(campaign_id) => Some(StoreError::CampaignCostFrozen { campaign_id }),
                    Err(fault) => Some(StoreError::Contract(fault)),
                }
            } else if !row.deadline_open {
                Some(StoreError::CampaignDeadlineElapsed)
            } else if row.packet_digest@ != command.packet_digest.bytes@ {
                Some(StoreError::PacketIdentityMismatch)
            } else if any_session_running {
                Some(StoreError::PaidSessionAlreadyRunning)
            } else if command.custody.pid > i32::MAX {
                Some(StoreError::InvalidProcessCommand { field: "PID" })
            } else if command.custody.pgid > i32::MAX {
                Some(StoreError::InvalidProcessCommand { field: "PGID" })
            } else if command.custody.started_at_unix_millis > i64::MAX {
                Some(StoreError::InvalidProcessCommand { field: "process start time" })
            } else {
                match spec_transition(current) {
                    Err(fault) => Some(fault),
                    Ok(_) => None,
                }
            },
        },
    }
}

/// Plans the rows of a start command that no receipt answers.
pub fn start_session(
    command: &StartSession,
    assignment: Option<&SessionAssignmentRow>,
    any_session_running: bool,
) -> (result: Result<SessionPlan, StoreError>)
    ensures
        ({
            let read = match assignment {
                Some(row) => Some(*row),
                None => None,
            };
            match result {
                Err(fault) => session_fault(*command, read, any_session_running) == Some(fault),
                Ok(plan) => {
                    &&& session_fault(*command, read, any_session_running) is None
                    &&& plan.pid == command.custody.pid
                    &&& plan.pgid == command.custody.pgid
                    &&& plan.process_started_at_unix_millis
                        == command.custody.started_at_unix_millis
                    &&& spec_transition(command.expected_assignment_revision.revision) == Ok::<
                        CampaignTransition,
                        StoreError,
                    >(plan.assignment)
                },
            }
        }),
{
    let row = match assignment {
        Some(row) => row,
        None => return Err(StoreError::UnknownAssignment { assignment_id: command.assignment_id }),
    };
    let current = match aggregate_revision_from_sql(row.revision) {
        Ok(revision) => revision,
        Err(fault) => return Err(fault),
    };
    if command.expected_assignment_revision.revision != current {
        return Err(
            StoreError::RevisionConflict {
                expected: command.expected_assignment_revision,
                current,
            },
        );
    }
    if row.lifecycle != PREPARED {
        return Err(StoreError::AssignmentStateConflict { assignment_id: command.assignment_id });
    }
    if row.campaign_lifecycle != RUNNING || row.cost_state != COST_KNOWN {
        return match CampaignId::new(row.campaign_id) {
            Ok(campaign_id) => Err(StoreError::CampaignCostFrozen { campaign_id }),
            Err(fault) => Err(StoreError::Contract(fault)),
        };
    }
    if !row.deadline_open {
        return Err(StoreError::CampaignDeadlineElapsed);
    }
    if !bytes_equal(row.packet_digest.as_slice(), command.packet_digest.bytes.as_slice()) {
        return Err(StoreError::PacketIdentityMismatch);
    }
    if any_session_running {
        return Err(StoreError::PaidSessionAlreadyRunning);
    }
    if command.custody.pid > i32::MAX as u32 {
        return Err(StoreError::InvalidProcessCommand { field: "PID" });
    }
    if command.custody.pgid > i32::MAX as u32 {
        return Err(StoreError::InvalidProcessCommand { field: "PGID" });
    }
    if command.custody.started_at_unix_millis > i64::MAX as u64 {
        return Err(StoreError::InvalidProcessCommand { field: "process start time" });
    }
    match plan_transition(current) {
        Err(fault) => Err(fault),
        Ok(transition) => Ok(
            SessionPlan {
                pid: command.custody.pid as i32,
                pgid: command.custody.pgid as i32,
                process_started_at_unix_millis: command.custody.started_at_unix_millis as i64,
                assignment: transition,
            },
        ),
    }
}

/// A session is only started for a prepared assignment of a running campaign
/// with known cost, before its deadline, while no other session is running;
/// the assignment advances by one revision.
pub proof fn law_started_session_is_sole_and_funded(
    command: StartSession,
    assignment: Option<SessionAssignmentRow>,
    any_session_running: bool,
)
    requires
        session_fault(command, assignment, any_session_running) is None,
    ensures
        !any_session_running,
        assignment is Some,
        assignment->0.lifecycle == PREPARED,
        assignment->0.campaign_lifecycle == RUNNING,
        assignment->0.cost_state == COST_KNOWN,
        assignment->0.deadline_open,
        assignment->0.packet_digest@ == command.packet_digest.bytes@,
        spec_transition(command.expected_assignment_revision.revision) matches Ok(transition)
            && transition.revision_column == assignment->0.revision + 1,
{
}

/// The receipt of a session whose row was just written.
pub fn started_session_receipt(plan: &SessionPlan, session_row: i64, audit_log_id: i64) -> (result:
    Result<SessionReceipt, StoreError>)
    ensures
        result == (match SessionId::spec_new(session_row) {
            Err(fault) => Err::<SessionReceipt, StoreError>(StoreError::Contract(fault)),
            Ok(session_id) => Ok(
                SessionReceipt {
                    session_id,
                    resulting_revision: AggregateRevision::spec_initial(),
                    assignment_revision: plan.assignment.resulting_revision,
                    audit_log_id,
                    was_idempotent_retry: false,
                },
            ),
        }),
{
    match SessionId::new(session_row) {
        Err(fault) => Err(StoreError::Contract(fault)),
        Ok(session_id) => Ok(
            SessionReceipt {
                session_id,
                resulting_revision: AggregateRevision::initial(),
                assignment_revision: plan.assignment.resulting_revision,
                audit_log_id,
                was_idempotent_retry: false,
            },
        ),
    }
}

/// The receipt a repeated start command is answered with; the assignment's
/// revision is the one it has by then.
pub open spec fn spec_replayed_session(audit: Audit, assignment_revision: i64) -> Result<
    SessionReceipt,
    StoreError,
> {
    match spec_revision_from_sql(assignment_revision) {
        Err(fault) => Err(fault),
        Ok(assignment_revision) => match SessionId::spec_new(audit.subject_id) {
            Err(fault) => Err(StoreError::Contract(fault)),
            Ok(session_id) => Ok(
                SessionReceipt {
                    session_id,
                    resulting_revision: audit.resulting_revision,
                    assignment_revision,
                    audit_log_id: audit.audit_log_id,
                    was_idempotent_retry: true,
                },
            ),
        },
    }
}

/// Answers a repeated start command.
pub fn replayed_session_receipt(audit: &Audit, assignment_revision: i64) -> (result: Result<
    SessionReceipt,
    StoreError,
>)
    ensures
        result == spec_replayed_session(*audit, assignment_revision),
{
    let assignment_revision = match aggregate_revision_from_sql(assignment_revision) {
        Ok(revision) => revision,
        Err(fault) => return Err(fault),
    };
    match SessionId::new(audit.subject_id) {
        Err(fault) => Err(StoreError::Contract(fault)),
        Ok(session_id) => Ok(
            SessionReceipt {
                session_id,
                resulting_revision: audit.resulting_revision,
                assignment_revision,
                audit_log_id: audit.audit_log_id,
                was_idempotent_retry: true,
            },
        ),
    }
}

/// A session row read for its status, as its columns hold it.
#[derive(Clone, Copy, Debug, PartialEq, Eq, Structural)]
pub struct SessionStatusRow {
    pub assignment_id: i64,
    pub lifecycle: i16,
    pub revision: i64,
    pub cost_state: Option<i16>,
    pub cost_micro_usd: Option<i64>,
}

/// What a session's row says of it.
pub open spec fn spec_session_status(session_id: SessionId, row: Option<SessionStatusRow>) -> Result<
    SessionStatus,
    StoreError,
> {
    match row {
        None => Err(StoreError::UnknownSession { session_id }),
        Some(row) => match AssignmentId::spec_new(row.assignment_id) {
            Err(fault) => Err(StoreError::Contract(fault)),
            Ok(assignment_id) => match spec_session_state_from_code(row.lifecycle) {
                Err(fault) => Err(fault),
                Ok(state) => match spec_revision_from_sql(row.revision) {
                    Err(fault) => Err(fault),
                    Ok(revision) => match spec_db_cost(row.cost_state, row.cost_micro_usd) {
                        Err(fault) => Err(fault),
                        Ok(cost) => Ok(
                            SessionStatus { session_id, assignment_id, state, revision, cost },
                        ),
                    },
                },
            },
        },
    }
}

/// Derives a session's status from its row.
pub fn session_status(session_id: SessionId, row: Option<SessionStatusRow>) -> (result: Result<
    SessionStatus,
    StoreError,
>)
    ensures
        result == spec_session_status(session_id, row),
{
    let row = match row {
        Some(row) => row,
        None => return Err(StoreError::UnknownSession { session_id }),
    };
    let assignment_id = match AssignmentId::new(row.assignment_id) {
        Ok(id) => id,
        Err(fault) => return Err(StoreError::Contract(fault)),
    };
    let state = match session_state_from_code(row.lifecycle) {
        Ok(state) => state,
        Err(fault) => return Err(fault),
    };
    let revision = match aggregate_revision_from_sql(row.revision) {
        Ok(revision) => revision,
        Err(fault) => return Err(fault),
    };
    match db_cost(row.cost_state, row.cost_micro_usd) {
        Err(fault) => Err(fault),
        Ok(cost) => Ok(SessionStatus { session_id, assignment_id, state, revision, cost }),
    }
}

/// What the exact canonical packet bytes prove of a packet: they must carry the
/// digest they are presented under, spell this packet, and be the sealed bytes.
pub open spec fn spec_verify_packet_bytes(
    packet: AssignmentPacket,
    wire: Option<AssignmentPacketWire>,
    canonical_packet_bytes: Seq<u8>,
    sealed_bytes: Seq<u8>,
) -> Result<(), StoreError> {
    match wire {
        None => Err(StoreError::InvalidPacketDigest),
        Some(wire) => if wire.assignment_id != packet.assignment_id.value
            || spec_verify_wire_domain_mapping(wire, packet) is Err {
            Err(StoreError::PacketIdentityMismatch)
        } else if sealed_bytes != canonical_packet_bytes {
            Err(StoreError::PacketArtifactDigestMismatch)
        } else {
            Ok(())
        },
    }
}

/// Verifies canonical packet bytes against the packet and the sealed bytes.
/// `wire` is the packet parsed from the bytes, where they carry the digest they
/// are presented under.
pub fn verify_packet_bytes(
    packet: &AssignmentPacket,
    wire: Option<&AssignmentPacketWire>,
    canonical_packet_bytes: &[u8],
    sealed_bytes: &[u8],
) -> (result: Result<(), StoreError>)
    ensures
        result == spec_verify_packet_bytes(
            *packet,
            match wire {
                Some(wire) => Some(*wire),
                None => None,
            },
            canonical_packet_bytes@,
            sealed_bytes@,
        ),
{
    let wire = match wire {
        Some(wire) => wire,
        None => return Err(StoreError::InvalidPacketDigest),
    };
    if wire.assignment_id != packet.assignment_id.value || verify_wire_domain_mapping(
        wire,
        packet,
    ).is_err() {
        return Err(StoreError::PacketIdentityMismatch);
    }
    if !bytes_equal(sealed_bytes, canonical_packet_bytes) {
        return Err(StoreError::PacketArtifactDigestMismatch);
    }
    Ok(())
}

/// The digest a registered artifact is to be verified under.
pub fn registered_digest(row: Option<&ArtifactRow>, artifact_id: ArtifactId) -> (result: Result<
    ContentDigest,
    StoreError,
>)
    ensures
        match result {
            Ok(digest) => row is Some && digest.bytes@ == row->0.digest@,
            Err(fault) => match row {
                None => fault == (StoreError::UnknownArtifact { artifact_id }),
                Some(row) => row.digest@.len() != 32 && fault == StoreError::CorruptDigestColumn,
            },
        },
{
    let row = match row {
        Some(row) => row,
        None => return Err(StoreError::UnknownArtifact { artifact_id }),
    };
    match bytes_to_digest(row.digest.as_slice()) {
        Ok(bytes) => Ok(ContentDigest { bytes }),
        Err(fault) => Err(fault),
    }
}

/// Holds a physically verified seal to the length its row declares.
pub fn registered_artifact(row: &ArtifactRow, sealed: CasArtifact) -> (result: Result<
    CasArtifact,
    StoreError,
>)
    ensures
        result == (if row.byte_length < 0 {
            Err::<CasArtifact, StoreError>(StoreError::ArtifactLengthOutOfRange)
        } else if sealed.byte_length != row.byte_length {
            Err(StoreError::ArtifactSealChanged)
        } else {
            Ok(sealed)
        }),
{
    if row.byte_length < 0 {
        return Err(StoreError::ArtifactLengthOutOfRange);
    }
    if sealed.byte_length != row.byte_length as u64 {
        return Err(StoreError::ArtifactSealChanged);
    }
    Ok(sealed)
}

/// A session row read to bind an actor connection, as its columns hold it.
#[derive(Clone, Copy, Debug, PartialEq, Eq, Structural)]
pub struct SessionIdentityRow {
    pub assignment_id: i64,
    pub application_revision_id: i64,
    pub campaign_id: i64,
    pub assignment_role: i16,
    pub lifecycle: i16,
}

/// Whether a running session is the session of this exact packet.
pub open spec fn session_is_of_packet(row: SessionIdentityRow, packet: AssignmentPacket) -> bool {
    &&& row.lifecycle == SESSION_RUNNING
    &&& row.assignment_id == packet.assignment_id.value
    &&& row.application_revision_id == packet.application_revision_id.value
    &&& row.campaign_id == packet.campaign_id.value
    &&& row.assignment_role == spec_assignment_role_code(packet.assignment_role)
}

/// Admits an actor connection: only the running session of the exact packet.
pub fn actor_connection_identity(
    session_id: SessionId,
    row: Option<SessionIdentityRow>,
    packet: &AssignmentPacket,
) -> (result: Result<(), StoreError>)
    ensures
        result == (match row {
            None => Err::<(), StoreError>(StoreError::UnknownSession { session_id }),
            Some(row) => if session_is_of_packet(row, *packet) {
                Ok(())
            } else {
                Err(StoreError::PacketIdentityMismatch)
            },
        }),
{
    let row = match row {
        Some(row) => row,
        None => return Err(StoreError::UnknownSession { session_id }),
    };
    if row.lifecycle != SESSION_RUNNING || row.assignment_id != packet.assignment_id.value
        || row.application_revision_id != packet.application_revision_id.value || row.campaign_id
        != packet.campaign_id.value || row.assignment_role != assignment_role_code(
        packet.assignment_role,
    ) {
        return Err(StoreError::PacketIdentityMismatch);
    }
    Ok(())
}

/// A session row read for its cost, as its columns hold it.
#[derive(Clone, Debug, PartialEq, Eq)]
pub struct SessionCostRow {
    pub id: i64,
    pub assignment_id: i64,
    pub assignment_role: i16,
    pub model_provider: String,
    pub model_id: String,
    pub lifecycle: i16,
    pub cost_state: Option<i16>,
    pub cost_micro_usd: Option<i64>,
    pub input_tokens: Option<i64>,
    pub output_tokens: Option<i64>,
    pub cache_read_tokens: Option<i64>,
    pub cache_write_tokens: Option<i64>,
    pub reasoning_tokens: Option<i64>,
    pub elapsed_millis: Option<i64>,
}

/// The cost facts of one session.
#[derive(Clone, Debug, PartialEq, Eq)]
pub struct SessionCostBreakdown {
    pub session_id: SessionId,
    pub assignment_id: AssignmentId,
    pub assignment_role: AssignmentRole,
    pub model_provider: String,
    pub model_id: String,
    pub outcome: SessionState,
    pub cost: Option<TerminalCost>,
    pub usage: UsageTotals,
    pub elapsed_millis: Option<u64>,
}

/// An optional count column read back; a negative count is corrupt.
pub open spec fn spec_count_from_sql(value: Option<i64>) -> Result<Option<u64>, StoreError> {
    match value {
        None => Ok(None),
        Some(count) => if count < 0 {
            Err(StoreError::CorruptCostColumn)
        } else {
            Ok(Some(count as u64))
        },
    }
}

/// Reads an optional count column back.
pub fn count_from_sql(value: Option<i64>) -> (result: Result<Option<u64>, StoreError>)
    ensures
        result == spec_count_from_sql(value),
{
    match value {
        None => Ok(None),
        Some(count) => if count < 0 {
            Err(StoreError::CorruptCostColumn)
        } else {
            Ok(Some(count as u64))
        },
    }
}

/// Why a session's cost row is refused, if it is.
pub open spec fn cost_row_fault(row: SessionCostRow) -> Option<StoreError> {
    if row.id <= 0 || row.assignment_id <= 0 {
        Some(StoreError::Contract(crate::identity::ContractError::NonPositiveIdentity))
    } else if spec_assignment_role_from_code(row.assignment_role) is Err
        || spec_session_state_from_code(row.lifecycle) is Err {
        Some(StoreError::CorruptLifecycleColumn)
    } else if spec_db_cost(row.cost_state, row.cost_micro_usd) is Err || spec_count_from_sql(
        row.input_tokens,
    ) is Err || spec_count_from_sql(row.output_tokens) is Err || spec_count_from_sql(
        row.cache_read_tokens,
    ) is Err || spec_count_from_sql(row.cache_write_tokens) is Err || spec_count_from_sql(
        row.reasoning_tokens,
    ) is Err || spec_count_from_sql(row.elapsed_millis) is Err {
        Some(StoreError::CorruptCostColumn)
    } else {
        None
    }
}

/// Derives one session's cost facts from its row.
pub fn session_cost_breakdown(row: &SessionCostRow) -> (result: Result<
    SessionCostBreakdown,
    StoreError,
>)
    ensures
        match result {
            Err(fault) => cost_row_fault(*row) == Some(fault),
            Ok(facts) => {
                &&& cost_row_fault(*row) is None
                &&& facts.session_id.value == row.id
                &&& facts.assignment_id.value == row.assignment_id
                &&& spec_assignment_role_from_code(row.assignment_role) == Ok::<
                    AssignmentRole,
                    StoreError,
                >(facts.assignment_role)
                &&& facts.model_provider == row.model_provider
                &&& facts.model_id == row.model_id
                &&& spec_session_state_from_code(row.lifecycle) == Ok::<SessionState, StoreError>(
                    facts.outcome,
                )
                &&& spec_db_cost(row.cost_state, row.cost_micro_usd) == Ok::<
                    Option<TerminalCost>,
                    StoreError,
                >(facts.cost)
                &&& spec_count_from_sql(row.input_tokens) == Ok::<Option<u64>, StoreError>(
                    facts.usage.input_tokens,
                )
                &&& spec_count_from_sql(row.output_tokens) == Ok::<Option<u64>, StoreError>(
                    facts.usage.output_tokens,
                )
                &&& spec_count_from_sql(row.cache_read_tokens) == Ok::<Option<u64>, StoreError>(
                    facts.usage.cache_read_tokens,
                )
                &&& spec_count_from_sql(row.cache_write_tokens) == Ok::<Option<u64>, StoreError>(
                    facts.usage.cache_write_tokens,
                )
                &&& spec_count_from_sql(row.reasoning_tokens) == Ok::<Option<u64>, StoreError>(
                    facts.usage.reasoning_tokens,
                )
                &&& facts.usage.reported_cost_micro_usd is None
                &&& spec_count_from_sql(row.elapsed_millis) == Ok::<Option<u64>, StoreError>(
                    facts.elapsed_millis,
                )
            },
        },
{
    let session_id = match SessionId::new(row.id) {
        Ok(id) => id,
        Err(fault) => return Err(StoreError::Contract(fault)),
    };
    let assignment_id = match AssignmentId::new(row.assignment_id) {
        Ok(id) => id,
        Err(fault) => return Err(StoreError::Contract(fault)),
    };
    let assignment_role = match assignment_role_from_code(row.assignment_role) {
        Ok(role) => role,
        Err(fault) => return Err(fault),
    };
    let outcome = match session_state_from_code(row.lifecycle) {
        Ok(state) => state,
        Err(fault) => return Err(fault),
    };
    let cost = match db_cost(row.cost_state, row.cost_micro_usd) {
        Ok(cost) => cost,
        Err(fault) => return Err(fault),
    };
    let input_tokens: Option<u64> = match count_from_sql(row.input_tokens) {
        Ok(count) => count,
        Err(fault) => return Err(fault),
    };
    let output_tokens: Option<u64> = match count_from_sql(row.output_tokens) {
        Ok(count) => count,
        Err(fault) => return Err(fault),
    };
    let cache_read_tokens: Option<u64> = match count_from_sql(row.cache_read_tokens) {
        Ok(count) => count,
        Err(fault) => return Err(fault),
    };
    let cache_write_tokens: Option<u64> = match count_from_sql(row.cache_write_tokens) {
        Ok(count) => count,
        Err(fault) => return Err(fault),
    };
    let reasoning_tokens: Option<u64> = match count_from_sql(row.reasoning_tokens) {
        Ok(count) => count,
        Err(fault) => return Err(fault),
    };
    let elapsed_millis: Option<u64> = match count_from_sql(row.elapsed_millis) {
        Ok(count) => count,
        Err(fault) => return Err(fault),
    };
    Ok(
        SessionCostBreakdown {
            session_id,
            assignment_id,
            assignment_role,
            model_provider: row.model_provider.clone(),
            model_id: row.model_id.clone(),
            outcome,
            cost,
            usage: UsageTotals {
                input_tokens,
                output_tokens,
                cache_read_tokens,
                cache_write_tokens,
                reasoning_tokens,
                reported_cost_micro_usd: None,
            },
            elapsed_millis,
        },
    )
}

/// A page of session costs holds one through a hundred sessions.
pub fn validate_cost_page(limit: u8) -> (result: Result<(), StoreError>)
    ensures
        result == (if 1 <= limit <= 100 {
            Ok::<(), StoreError>(())
        } else {
            Err(StoreError::InvalidProcessCommand { field: "session cost breakdown limit" })
        }),
{
    if 1 <= limit && limit <= 100 {
        Ok(())
    } else {
        Err(StoreError::InvalidProcessCommand { field: "session cost breakdown limit" })
    }
}

/// One group of sessions summed by role, model and outcome, as its columns
/// hold it.
#[derive(Clone, Debug, PartialEq, Eq)]
pub struct SessionCostAggregateRow {
    pub assignment_role: i16,
    pub model_provider: String,
    pub model_id: String,
    pub lifecycle: i16,
    pub session_count: i64,
    pub accounted_cost_micro_usd: i64,
    pub pending_cost_session_count: i64,
    pub unknown_cost_session_count: i64,
    pub exceeded_cost_session_count: i64,
}

/// One group of sessions summed by role, model and outcome.
#[derive(Clone, Debug, PartialEq, Eq)]
pub struct SessionCostAggregate {
    pub assignment_role: AssignmentRole,
    pub model_provider: String,
    pub model_id: String,
    pub outcome: SessionState,
    pub session_count: u32,
    pub accounted_cost_micro_usd: u64,
    pub pending_cost_session_count: u32,
    pub unknown_cost_session_count: u32,
    pub exceeded_cost_session_count: u32,
}

/// The most role, model and outcome groups one campaign can have.
pub const CAMPAIGN_SESSION_COST_AGGREGATE_MAXIMUM: usize = 18;

pub open spec fn is_session_count(value: i64) -> bool {
    0 <= value <= u32::MAX
}

/// Why one group row is refused, if it is.
pub open spec fn aggregate_row_fault(row: SessionCostAggregateRow) -> Option<StoreError> {
    if spec_assignment_role_from_code(row.assignment_role) is Err || spec_session_state_from_code(
        row.lifecycle,
    ) is Err {
        Some(StoreError::CorruptLifecycleColumn)
    } else if !is_session_count(row.session_count) || row.accounted_cost_micro_usd < 0
        || !is_session_count(row.pending_cost_session_count) || !is_session_count(
        row.unknown_cost_session_count,
    ) || !is_session_count(row.exceeded_cost_session_count) {
        Some(StoreError::CorruptCostColumn)
    } else {
        None
    }
}

/// Whether a group is what its row holds.
pub open spec fn aggregate_of(row: SessionCostAggregateRow, group: SessionCostAggregate) -> bool {
    &&& spec_assignment_role_from_code(row.assignment_role) == Ok::<AssignmentRole, StoreError>(
        group.assignment_role,
    )
    &&& group.model_provider == row.model_provider
    &&& group.model_id == row.model_id
    &&& spec_session_state_from_code(row.lifecycle) == Ok::<SessionState, StoreError>(
        group.outcome,
    )
    &&& group.session_count == row.session_count
    &&& group.accounted_cost_micro_usd == row.accounted_cost_micro_usd
    &&& group.pending_cost_session_count == row.pending_cost_session_count
    &&& group.unknown_cost_session_count == row.unknown_cost_session_count
    &&& group.exceeded_cost_session_count == row.exceeded_cost_session_count
}

/// The first fault among group rows.
pub open spec fn aggregate_rows_fault(rows: Seq<SessionCostAggregateRow>) -> Option<StoreError>
    decreases rows.len(),
{
    if rows.len() == 0 {
        None
    } else {
        match aggregate_rows_fault(rows.drop_last()) {
            Some(fault) => Some(fault),
            None => aggregate_row_fault(rows.last()),
        }
    }
}

fn session_cost_aggregate(row: &SessionCostAggregateRow) -> (result: Result<
    SessionCostAggregate,
    StoreError,
>)
    ensures
        match result {
            Err(fault) => aggregate_row_fault(*row) == Some(fault),
            Ok(group) => aggregate_row_fault(*row) is None && aggregate_of(*row, group),
        },
{
    let assignment_role = match assignment_role_from_code(row.assignment_role) {
        Ok(role) => role,
        Err(fault) => return Err(fault),
    };
    let outcome = match session_state_from_code(row.lifecycle) {
        Ok(state) => state,
        Err(fault) => return Err(fault),
    };
    let limit: i64 = u32::MAX as i64;
    if row.session_count < 0 || row.session_count > limit || row.accounted_cost_micro_usd < 0
        || row.pending_cost_session_count < 0 || row.pending_cost_session_count > limit
        || row.unknown_cost_session_count < 0 || row.unknown_cost_session_count > limit
        || row.exceeded_cost_session_count < 0 || row.exceeded_cost_session_count > limit {
        return Err(StoreError::CorruptCostColumn);
    }
    Ok(
        SessionCostAggregate {
            assignment_role,
            model_provider: row.model_provider.clone(),
            model_id: row.model_id.clone(),
            outcome,
            session_count: row.session_count as u32,
            accounted_cost_micro_usd: row.accounted_cost_micro_usd as u64,
            pending_cost_session_count: row.pending_cost_session_count as u32,
            unknown_cost_session_count: row.unknown_cost_session_count as u32,
            exceeded_cost_session_count: row.exceeded_cost_session_count as u32,
        },
    )
}

/// Derives a campaign's cost groups from their rows. More groups than the
/// application profile allows are corruption.
pub fn campaign_session_cost_aggregates(rows: &[SessionCostAggregateRow]) -> (result: Result<
    Vec<SessionCostAggregate>,
    StoreError,
>)
    ensures
        match result {
            Err(fault) => if rows@.len() > CAMPAIGN_SESSION_COST_AGGREGATE_MAXIMUM {
                fault == StoreError::CorruptLifecycleColumn
            } else {
                aggregate_rows_fault(rows@) == Some(fault)
            },
            Ok(groups) => {
                &&& rows@.len() <= CAMPAIGN_SESSION_COST_AGGREGATE_MAXIMUM
                &&& aggregate_rows_fault(rows@) is None
                &&& groups@.len() == rows@.len()
                &&& forall|i: int|
                    0 <= i < rows@.len() ==> aggregate_of(#[trigger] rows@[i], groups@[i])
            },
        },
{
    if rows.len() > CAMPAIGN_SESSION_COST_AGGREGATE_MAXIMUM {
        return Err(StoreError::CorruptLifecycleColumn);
    }
    let mut groups: Vec<SessionCostAggregate> = Vec::new();
    let mut index: usize = 0;
    while index < rows.len()
        invariant
            index <= rows.len(),
            rows@.len() <= CAMPAIGN_SESSION_COST_AGGREGATE_MAXIMUM,
            groups@.len() == index,
            aggregate_rows_fault(rows@.take(index as int)) is None,
            forall|i: int| 0 <= i < index ==> aggregate_of(#[trigger] rows@[i], groups@[i]),
        decreases rows.len() - index,
    {
        proof {
            let taken = rows@.take(index as int + 1);
            assert(taken.drop_last() =~= rows@.take(index as int));
            assert(taken.last() == rows@[index as int]);
            lemma_aggregate_fault_prefix(rows@, index as int + 1);
        }
        match session_cost_aggregate(&rows[index]) {
            Ok(group) => {
                groups.push(group);
            },
            Err(fault) => return Err(fault),
        }
        index += 1;
    }
    assert(rows@.take(index as int) =~= rows@);
    Ok(groups)
}

proof fn lemma_aggregate_fault_prefix(rows: Seq<SessionCostAggregateRow>, at: int)
    requires
        0 <= at <= rows.len(),
    ensures
        aggregate_rows_fault(rows.take(at)) is Some ==> aggregate_rows_fault(rows)
            == aggregate_rows_fault(rows.take(at)),
    decreases rows.len(),
{
    if at == rows.len() {
        assert(rows.take(at) =~= rows);
    } else {
        lemma_aggregate_fault_prefix(rows.drop_last(), at);
        assert(rows.drop_last().take(at) =~= rows.take(at));
    }
}

/// One running session with its assignment, packet artifact and build, as
/// their columns hold them.
#[derive(Clone, Debug, PartialEq, Eq)]
pub struct RecoveryRow {
    pub id: i64,
    pub revision: i64,
    pub assignment_id: i64,
    pub campaign_id: i64,
    pub kernel_build_id: i64,
    pub application_revision_id: i64,
    pub session_assignment_role: i16,
    pub session_model_provider: String,
    pub session_model_id: String,
    pub session_thinking_level: i16,
    pub session_input_price: i64,
    pub session_output_price: i64,
    pub session_cache_read_price: i64,
    pub session_cache_write_price: i64,
    pub pid: i32,
    pub pgid: i32,
    pub process_started_at_unix_millis: i64,
    pub assignment_assignment_role: i16,
    pub target: String,
    pub packet_artifact_id: i64,
    pub packet_digest: Vec<u8>,
    pub system_prompt_artifact_id: i64,
    pub assignment_prompt_artifact_id: i64,
    pub required_read_manifest_artifact_id: i64,
    pub assignment_model_provider: String,
    pub assignment_model_id: String,
    pub assignment_thinking_level: i16,
    pub assignment_input_price: i64,
    pub assignment_output_price: i64,
    pub assignment_cache_read_price: i64,
    pub assignment_cache_write_price: i64,
    pub packet_artifact_digest: Vec<u8>,
    pub packet_artifact_byte_length: i64,
    pub kernel_build_digest: Vec<u8>,
}

/// The durable inputs of one session's recovery.
#[derive(Clone, Debug, PartialEq, Eq)]
pub struct RestartRecoverySession {
    pub session_id: SessionId,
    pub expected_session_revision: AggregateRevision,
    pub custody: ProcessCustody,
    pub packet: AssignmentPacket,
    pub packet_artifact: CasArtifact,
    /// The exact bytes the packet was read from.
    pub canonical_packet_bytes: Vec<u8>,
}

/// Why the plain columns of a recovery row are refused, if they are.
pub open spec fn recovery_column_fault(row: RecoveryRow, sealed_length: u64) -> Option<StoreError> {
    if row.id <= 0 {
        Some(StoreError::Contract(crate::identity::ContractError::NonPositiveIdentity))
    } else if row.revision < 0 {
        Some(StoreError::RevisionOutOfRange)
    } else if row.pid < 0 {
        Some(StoreError::InvalidProcessCommand { field: "persisted PID" })
    } else if row.pgid < 0 {
        Some(StoreError::InvalidProcessCommand { field: "persisted PGID" })
    } else if row.process_started_at_unix_millis < 0 {
        Some(StoreError::InvalidProcessCommand { field: "persisted process start time" })
    } else if row.packet_artifact_digest@.len() != 32 {
        Some(StoreError::CorruptDigestColumn)
    } else if row.packet_artifact_byte_length < 0 {
        Some(StoreError::ArtifactLengthOutOfRange)
    } else if sealed_length != row.packet_artifact_byte_length {
        Some(StoreError::PacketArtifactDigestMismatch)
    } else if row.packet_digest@.len() != 32 {
        Some(StoreError::CorruptDigestColumn)
    } else {
        None
    }
}

/// Whether the row's identity columns agree with the packet.
pub open spec fn recovery_identity_agrees(row: RecoveryRow, packet: AssignmentPacket) -> bool {
    let role = spec_assignment_role_code(packet.assignment_role);
    let thinking = spec_thinking_code(packet.model.thinking_level);
    &&& packet.assignment_id.value == row.assignment_id
    &&& packet.campaign_id.value == row.campaign_id
    &&& packet.application_revision_id.value == row.application_revision_id
    &&& packet.kernel_build_id.digest.bytes@ == row.kernel_build_digest@
    &&& packet.packet_digest.bytes@ == row.packet_digest@
    &&& role == row.assignment_assignment_role
    &&& role == row.session_assignment_role
    &&& packet.target@ == row.target@
    &&& packet.system_prompt_artifact_id.value == row.system_prompt_artifact_id
    &&& packet.assignment_prompt_artifact_id.value == row.assignment_prompt_artifact_id
    &&& packet.required_read_manifest_artifact_id.value == row.required_read_manifest_artifact_id
    &&& packet.model.provider@ == row.assignment_model_provider@
    &&& packet.model.provider@ == row.session_model_provider@
    &&& packet.model.model_id@ == row.assignment_model_id@
    &&& packet.model.model_id@ == row.session_model_id@
    &&& thinking == row.assignment_thinking_level
    &&& thinking == row.session_thinking_level
}

/// The packet's prices paired with the persisted ones, in the order in which
/// they are compared.
pub open spec fn recovery_prices(row: RecoveryRow, packet: AssignmentPacket) -> Seq<(u64, i64)> {
    let model = packet.model;
    seq![
        (model.price_input_micro_usd_per_million_tokens.value, row.assignment_input_price),
        (model.price_input_micro_usd_per_million_tokens.value, row.session_input_price),
        (model.price_output_micro_usd_per_million_tokens.value, row.assignment_output_price),
        (model.price_output_micro_usd_per_million_tokens.value, row.session_output_price),
        (model.price_cache_read_micro_usd_per_million_tokens.value, row.assignment_cache_read_price),
        (model.price_cache_read_micro_usd_per_million_tokens.value, row.session_cache_read_price),
        (
            model.price_cache_write_micro_usd_per_million_tokens.value,
            row.assignment_cache_write_price,
        ),
        (model.price_cache_write_micro_usd_per_million_tokens.value, row.session_cache_write_price),
    ]
}

/// What the first disagreeing price says: a negative column is corrupt, any
/// other difference is an identity mismatch.
pub open spec fn price_fault(prices: Seq<(u64, i64)>) -> Option<StoreError>
    decreases prices.len(),
{
    if prices.len() == 0 {
        None
    } else if prices[0].1 < 0 {
        Some(StoreError::CorruptCostColumn)
    } else if prices[0].0 != prices[0].1 {
        Some(StoreError::PacketIdentityMismatch)
    } else {
        price_fault(prices.skip(1))
    }
}

/// Why a recovered packet does not belong to its row, if it does not.
pub open spec fn recovery_identity_fault(row: RecoveryRow, packet: AssignmentPacket) -> Option<
    StoreError,
> {
    if row.kernel_build_digest@.len() != 32 {
        Some(StoreError::CorruptDigestColumn)
    } else if !recovery_identity_agrees(row, packet) {
        Some(StoreError::PacketIdentityMismatch)
    } else {
        match price_fault(recovery_prices(row, packet)) {
            Some(fault) => Some(fault),
            None => if row.packet_artifact_id <= 0 || row.kernel_build_id <= 0 {
                Some(StoreError::PacketIdentityMismatch)
            } else {
                None
            },
        }
    }
}

fn price_difference(expected: u64, persisted: i64) -> (fault: Option<StoreError>)
    ensures
        fault == (if persisted < 0 {
            Some(StoreError::CorruptCostColumn)
        } else if expected != persisted {
            Some(StoreError::PacketIdentityMismatch)
        } else {
            None
        }),
{
    if persisted < 0 {
        Some(StoreError::CorruptCostColumn)
    } else if expected != persisted as u64 {
        Some(StoreError::PacketIdentityMismatch)
    } else {
        None
    }
}

fn first_price_fault(prices: &Vec<(u64, i64)>) -> (fault: Option<StoreError>)
    ensures
        fault == price_fault(prices@),
{
    let mut index: usize = 0;
    assert(prices@.skip(0) =~= prices@);
    while index < prices.len()
        invariant
            index <= prices.len(),
            price_fault(prices@) == price_fault(prices@.skip(index as int)),
        decreases prices.len() - index,
    {
        let (expected, persisted) = prices[index];
        proof {
            assert(prices@.skip(index as int)[0] == prices@[index as int]);
            assert(prices@.skip(index as int).skip(1) =~= prices@.skip(index as int + 1));
        }
        match price_difference(expected, persisted) {
            Some(fault) => return Some(fault),
            None => {},
        }
        index += 1;
    }
    None
}

/// Whether a recovered packet belongs to its row.
pub fn check_recovery_identity(row: &RecoveryRow, packet: &AssignmentPacket) -> (result: Result<
    (),
    StoreError,
>)
    ensures
        match result {
            Ok(()) => recovery_identity_fault(*row, *packet) is None,
            Err(fault) => recovery_identity_fault(*row, *packet) == Some(fault),
        },
{
    if row.kernel_build_digest.len() != 32 {
        return Err(StoreError::CorruptDigestColumn);
    }
    let role = assignment_role_code(packet.assignment_role);
    let thinking = thinking_code(packet.model.thinking_level);
    if packet.assignment_id.value != row.assignment_id || packet.campaign_id.value
        != row.campaign_id || packet.application_revision_id.value != row.application_revision_id
        || !bytes_equal(
        packet.kernel_build_id.digest.bytes.as_slice(),
        row.kernel_build_digest.as_slice(),
    ) || !bytes_equal(packet.packet_digest.bytes.as_slice(), row.packet_digest.as_slice()) || role
        != row.assignment_assignment_role || role != row.session_assignment_role || !text_equal(
        packet.target.as_str(),
        row.target.as_str(),
    ) || packet.system_prompt_artifact_id.value != row.system_prompt_artifact_id
        || packet.assignment_prompt_artifact_id.value != row.assignment_prompt_artifact_id
        || packet.required_read_manifest_artifact_id.value != row.required_read_manifest_artifact_id
        || !text_equal(packet.model.provider.as_str(), row.assignment_model_provider.as_str())
        || !text_equal(packet.model.provider.as_str(), row.session_model_provider.as_str())
        || !text_equal(packet.model.model_id.as_str(), row.assignment_model_id.as_str())
        || !text_equal(packet.model.model_id.as_str(), row.session_model_id.as_str()) || thinking
        != row.assignment_thinking_level || thinking != row.session_thinking_level {
        return Err(StoreError::PacketIdentityMismatch);
    }
    let model = &packet.model;
    let mut prices: Vec<(u64, i64)> = Vec::new();
    prices.push(
        (model.price_input_micro_usd_per_million_tokens.value, row.assignment_input_price),
    );
    prices.push((model.price_input_micro_usd_per_million_tokens.value, row.session_input_price));
    prices.push(
        (model.price_output_micro_usd_per_million_tokens.value, row.assignment_output_price),
    );
    prices.push((model.price_output_micro_usd_per_million_tokens.value, row.session_output_price));
    prices.push(
        (model.price_cache_read_micro_usd_per_million_tokens.value, row.assignment_cache_read_price),
    );
    prices.push(
        (model.price_cache_read_micro_usd_per_million_tokens.value, row.session_cache_read_price),
    );
    prices.push(
        (
            model.price_cache_write_micro_usd_per_million_tokens.value,
            row.assignment_cache_write_price,
        ),
    );
    prices.push(
        (model.price_cache_write_micro_usd_per_million_tokens.value, row.session_cache_write_price),
    );
    assert(prices@ =~= recovery_prices(*row, *packet));
    match first_price_fault(&prices) {
        Some(fault) => return Err(fault),
        None => {},
    }
    if row.packet_artifact_id <= 0 || row.kernel_build_id <= 0 {
        return Err(StoreError::PacketIdentityMismatch);
    }
    Ok(())
}

/// Reconstructs the durable inputs of one session's recovery. `packet_artifact`
/// is the verified seal under the row's packet artifact digest,
/// `canonical_packet_bytes` the bytes under it, and `wire` the packet parsed
/// from them where they carry the row's packet digest.
pub fn restart_recovery_session(
    row: &RecoveryRow,
    packet_artifact: CasArtifact,
    canonical_packet_bytes: Vec<u8>,
    wire: Option<&AssignmentPacketWire>,
    contract: &WireContract,
) -> (result: Result<RestartRecoverySession, StoreError>)
    ensures
        match result {
            Err(fault) => if recovery_column_fault(*row, packet_artifact.byte_length) is Some {
                recovery_column_fault(*row, packet_artifact.byte_length) == Some(fault)
            } else if wire is None {
                fault == StoreError::InvalidPacketDigest
            } else if wire_fault(*wire->0, *contract) is Some {
                wire_fault(*wire->0, *contract) == Some(fault)
            } else {
                exists|packet: AssignmentPacket|
                    wire_maps(*wire->0, packet) && recovery_identity_fault(*row, packet) == Some(
                        fault,
                    )
            },
            Ok(session) => {
                &&& recovery_column_fault(*row, packet_artifact.byte_length) is None
                &&& wire is Some
                &&& wire_fault(*wire->0, *contract) is None
                &&& wire_maps(*wire->0, session.packet)
                &&& session.packet.format_version == wire->0.format_version
                &&& recovery_identity_fault(*row, session.packet) is None
                &&& session.session_id.value == row.id
                &&& session.expected_session_revision.value == row.revision
                &&& session.custody.pid == row.pid
                &&& session.custody.pgid == row.pgid
                &&& session.custody.started_at_unix_millis == row.process_started_at_unix_millis
                &&& session.packet_artifact == packet_artifact
                &&& session.canonical_packet_bytes == canonical_packet_bytes
            },
        },
{
    let session_id = match SessionId::new(row.id) {
        Ok(id) => id,
        Err(fault) => return Err(StoreError::Contract(fault)),
    };
    let expected_session_revision = match aggregate_revision_from_sql(row.revision) {
        Ok(revision) => revision,
        Err(fault) => return Err(fault),
    };
    if row.pid < 0 {
        return Err(StoreError::InvalidProcessCommand { field: "persisted PID" });
    }
    if row.pgid < 0 {
        return Err(StoreError::InvalidProcessCommand { field: "persisted PGID" });
    }
    if row.process_started_at_unix_millis < 0 {
        return Err(StoreError::InvalidProcessCommand { field: "persisted process start time" });
    }
    let custody = ProcessCustody {
        pid: row.pid as u32,
        pgid: row.pgid as u32,
        started_at_unix_millis: row.process_started_at_unix_millis as u64,
    };
    if row.packet_artifact_digest.len() != 32 {
        return Err(StoreError::CorruptDigestColumn);
    }
    if row.packet_artifact_byte_length < 0 {
        return Err(StoreError::ArtifactLengthOutOfRange);
    }
    if packet_artifact.byte_length != row.packet_artifact_byte_length as u64 {
        return Err(StoreError::PacketArtifactDigestMismatch);
    }
    if row.packet_digest.len() != 32 {
        return Err(StoreError::CorruptDigestColumn);
    }
    let wire = match wire {
        Some(wire) => wire,
        None => return Err(StoreError::InvalidPacketDigest),
    };
    let packet = match assignment_packet_from_wire(wire, contract) {
        Ok(packet) => packet,
        Err(fault) => return Err(fault),
    };
    match check_recovery_identity(row, &packet) {
        Err(fault) => return Err(fault),
        Ok(()) => {},
    }
    Ok(
        RestartRecoverySession {
            session_id,
            expected_session_revision,
            custody,
            packet,
            packet_artifact,
            canonical_packet_bytes,
        },
    )
}

/// A session is started exactly for a prepared assignment at the expected
/// revision with the commanded packet, in a running campaign of known cost
/// before its deadline, while no session runs, with process facts that fit.
pub proof fn law_session_starts_exactly_when_it_may(
    command: StartSession,
    assignment: Option<SessionAssignmentRow>,
    any_session_running: bool,
)
    ensures
        ({
            let fault = session_fault(command, assignment, any_session_running);
            let row = assignment->0;
            &&& fault is None <==> {
                &&& assignment is Some
                &&& row.revision == command.expected_assignment_revision.revision.value
                &&& row.lifecycle == 0
                &&& row.campaign_lifecycle == 0
                &&& row.cost_state == 0
                &&& row.deadline_open
                &&& row.packet_digest@ == command.packet_digest.bytes@
                &&& !any_session_running
                &&& command.custody.pid <= i32::MAX
                &&& command.custody.pgid <= i32::MAX
                &&& command.custody.started_at_unix_millis <= i64::MAX
                &&& row.revision < i64::MAX
            }
            &&& fault == Some(StoreError::PaidSessionAlreadyRunning) ==> any_session_running
            &&& fault == Some(StoreError::PacketIdentityMismatch) ==> row.packet_digest@
                != command.packet_digest.bytes@
            &&& fault == Some(StoreError::CampaignDeadlineElapsed) ==> !row.deadline_open
            &&& fault == Some(
                StoreError::AssignmentStateConflict { assignment_id: command.assignment_id },
            ) ==> row.lifecycle != 0
            &&& fault == Some(
                StoreError::CampaignCostFrozen {
                    campaign_id: CampaignId { value: row.campaign_id },
                },
            ) ==> row.campaign_lifecycle != 0 || row.cost_state != 0
            &&& fault == Some(
                StoreError::UnknownAssignment { assignment_id: command.assignment_id },
            ) <==> assignment is None
        }),
{
}

/// A session's status is its own columns, and is there exactly when they are in
/// range; a session without a terminal cost has none.
pub proof fn law_session_status_reads_its_columns(session_id: SessionId, row: SessionStatusRow)
    ensures
        ({
            let status = spec_session_status(session_id, Some(row));
            &&& status is Ok <==> {
                &&& row.assignment_id > 0
                &&& 0 <= row.lifecycle <= 5
                &&& row.revision >= 0
                &&& match (row.cost_state, row.cost_micro_usd) {
                    (None, None) => true,
                    (Some(state), Some(amount)) => (state == 0 || state == 2) && amount >= 0,
                    (Some(state), None) => state == 1,
                    (None, Some(_)) => false,
                }
            }
            &&& status matches Ok(status) ==> {
                &&& status.session_id == session_id
                &&& status.assignment_id.value == row.assignment_id
                &&& status.revision.value == row.revision
                &&& status.state == SessionState::Running <==> row.lifecycle == 1
                &&& status.state == SessionState::Succeeded <==> row.lifecycle == 2
                &&& status.state == SessionState::Interrupted <==> row.lifecycle == 5
                &&& status.cost is None <==> row.cost_state is None
                &&& status.cost matches Some(TerminalCost::Known(amount)) ==> row.cost_state
                    == Some(0i16) && amount.value == row.cost_micro_usd->0
                &&& status.cost matches Some(TerminalCost::Exceeded(amount)) ==> row.cost_state
                    == Some(2i16) && amount.value == row.cost_micro_usd->0
                &&& status.cost matches Some(TerminalCost::Unknown) ==> row.cost_state == Some(1i16)
            }
        }),
{
}

/// An actor connection is a session's exactly when that session runs and is of
/// the packet's assignment, application, campaign and role.
pub proof fn law_connection_is_of_its_packet(row: SessionIdentityRow, packet: AssignmentPacket)
    ensures
        session_is_of_packet(row, packet) <==> {
            &&& row.lifecycle == 1
            &&& row.assignment_id == packet.assignment_id.value
            &&& row.application_revision_id == packet.application_revision_id.value
            &&& row.campaign_id == packet.campaign_id.value
            &&& row.assignment_role == (match packet.assignment_role {
                AssignmentRole::ProductResearch => 0i16,
                AssignmentRole::Engineering => 1,
                AssignmentRole::Quality => 2,
            })
        },
{
}

/// The bytes of a packet are accepted exactly when they carry its digest, spell
/// the packet itself and are the sealed ones.
pub proof fn law_packet_bytes_are_the_sealed_spelling(
    packet: AssignmentPacket,
    wire: Option<AssignmentPacketWire>,
    canonical_packet_bytes: Seq<u8>,
    sealed_bytes: Seq<u8>,
)
    ensures
        ({
            let verified = spec_verify_packet_bytes(
                packet,
                wire,
                canonical_packet_bytes,
                sealed_bytes,
            );
            let spelled = wire is Some && wire->0.assignment_id == packet.assignment_id.value
                && spec_verify_wire_domain_mapping(wire->0, packet) is Ok;
            &&& verified is Ok <==> spelled && sealed_bytes == canonical_packet_bytes
            &&& verified == Err::<(), StoreError>(StoreError::InvalidPacketDigest) <==> wire is None
            &&& verified == Err::<(), StoreError>(StoreError::PacketArtifactDigestMismatch)
                <==> spelled && sealed_bytes != canonical_packet_bytes
        }),
{
}

/// A row of the cost report is read exactly when its identities, states, counts
/// and cost are in range.
pub proof fn law_cost_rows_are_read_strictly(
    row: SessionCostRow,
    group: SessionCostAggregateRow,
    count: Option<i64>,
)
    ensures
        cost_row_fault(row) is None <==> {
            &&& row.id > 0
            &&& row.assignment_id > 0
            &&& 0 <= row.assignment_role <= 2
            &&& 0 <= row.lifecycle <= 5
            &&& match (row.cost_state, row.cost_micro_usd) {
                (None, None) => true,
                (Some(state), Some(amount)) => (state == 0 || state == 2) && amount >= 0,
                (Some(state), None) => state == 1,
                (None, Some(_)) => false,
            }
            &&& row.input_tokens matches Some(value) ==> value >= 0
            &&& row.output_tokens matches Some(value) ==> value >= 0
            &&& row.cache_read_tokens matches Some(value) ==> value >= 0
            &&& row.cache_write_tokens matches Some(value) ==> value >= 0
            &&& row.reasoning_tokens matches Some(value) ==> value >= 0
            &&& row.elapsed_millis matches Some(value) ==> value >= 0
        },
        aggregate_row_fault(group) is None <==> {
            &&& 0 <= group.assignment_role <= 2
            &&& 0 <= group.lifecycle <= 5
            &&& 0 <= group.session_count <= u32::MAX
            &&& group.accounted_cost_micro_usd >= 0
            &&& 0 <= group.pending_cost_session_count <= u32::MAX
            &&& 0 <= group.unknown_cost_session_count <= u32::MAX
            &&& 0 <= group.exceeded_cost_session_count <= u32::MAX
        },
        match (count, spec_count_from_sql(count)) {
            (None, Ok(None)) => true,
            (Some(value), Ok(Some(read))) => read == value,
            (Some(value), Err(_)) => value < 0,
            _ => false,
        },
{
}

/// A group of the cost report carries each of its columns in its own place.
pub proof fn law_cost_group_is_its_row(row: SessionCostAggregateRow, group: SessionCostAggregate)
    requires
        aggregate_of(row, group),
    ensures
        group.model_provider == row.model_provider,
        group.model_id == row.model_id,
        group.session_count == row.session_count,
        group.accounted_cost_micro_usd == row.accounted_cost_micro_usd,
        group.pending_cost_session_count == row.pending_cost_session_count,
        group.unknown_cost_session_count == row.unknown_cost_session_count,
        group.exceeded_cost_session_count == row.exceeded_cost_session_count,
        group.outcome == SessionState::Succeeded <==> row.lifecycle == 2,
        group.outcome == SessionState::Running <==> row.lifecycle == 1,
        group.assignment_role == AssignmentRole::Quality <==> row.assignment_role == 2,
        group.assignment_role == AssignmentRole::Engineering <==> row.assignment_role == 1,
{
}

/// A recovered packet is taken for its session exactly when every identity,
/// prompt, model, thinking level and price of both the assignment and the
/// session row is the packet's own.
pub proof fn law_recovered_packet_is_its_row(row: RecoveryRow, packet: AssignmentPacket)
    ensures
        recovery_identity_fault(row, packet) is None <==> {
            let role = match packet.assignment_role {
                AssignmentRole::ProductResearch => 0i16,
                AssignmentRole::Engineering => 1,
                AssignmentRole::Quality => 2,
            };
            let thinking = match packet.model.thinking_level {
                ThinkingLevel::NoThinking => 0i16,
                ThinkingLevel::Low => 1,
                ThinkingLevel::Medium => 2,
                ThinkingLevel::High => 3,
                ThinkingLevel::XHigh => 4,
            };
            let model = packet.model;
            &&& row.assignment_id == packet.assignment_id.value
            &&& row.campaign_id == packet.campaign_id.value
            &&& row.application_revision_id == packet.application_revision_id.value
            &&& row.kernel_build_digest@ == packet.kernel_build_id.digest.bytes@
            &&& row.packet_digest@ == packet.packet_digest.bytes@
            &&& row.assignment_assignment_role == role && row.session_assignment_role == role
            &&& row.target@ == packet.target@
            &&& row.system_prompt_artifact_id == packet.system_prompt_artifact_id.value
            &&& row.assignment_prompt_artifact_id == packet.assignment_prompt_artifact_id.value
            &&& row.required_read_manifest_artifact_id
                == packet.required_read_manifest_artifact_id.value
            &&& row.assignment_model_provider@ == model.provider@ && row.session_model_provider@
                == model.provider@
            &&& row.assignment_model_id@ == model.model_id@ && row.session_model_id@
                == model.model_id@
            &&& row.assignment_thinking_level == thinking && row.session_thinking_level == thinking
            &&& row.assignment_input_price == model.price_input_micro_usd_per_million_tokens.value
            &&& row.session_input_price == model.price_input_micro_usd_per_million_tokens.value
            &&& row.assignment_output_price == model.price_output_micro_usd_per_million_tokens.value
            &&& row.session_output_price == model.price_output_micro_usd_per_million_tokens.value
            &&& row.assignment_cache_read_price
                == model.price_cache_read_micro_usd_per_million_tokens.value
            &&& row.session_cache_read_price
                == model.price_cache_read_micro_usd_per_million_tokens.value
            &&& row.assignment_cache_write_price
                == model.price_cache_write_micro_usd_per_million_tokens.value
            &&& row.session_cache_write_price
                == model.price_cache_write_micro_usd_per_million_tokens.value
            &&& row.packet_artifact_id > 0
            &&& row.kernel_build_id > 0
        },
{
    let prices = recovery_prices(row, packet);
    lemma_prices_agree(prices);
    assert(prices[0] == (
        packet.model.price_input_micro_usd_per_million_tokens.value,
        row.assignment_input_price,
    ));
    assert(prices[1] == (
        packet.model.price_input_micro_usd_per_million_tokens.value,
        row.session_input_price,
    ));
    assert(prices[2] == (
        packet.model.price_output_micro_usd_per_million_tokens.value,
        row.assignment_output_price,
    ));
    assert(prices[3] == (
        packet.model.price_output_micro_usd_per_million_tokens.value,
        row.session_output_price,
    ));
    assert(prices[4] == (
        packet.model.price_cache_read_micro_usd_per_million_tokens.value,
        row.assignment_cache_read_price,
    ));
    assert(prices[5] == (
        packet.model.price_cache_read_micro_usd_per_million_tokens.value,
        row.session_cache_read_price,
    ));
    assert(prices[6] == (
        packet.model.price_cache_write_micro_usd_per_million_tokens.value,
        row.assignment_cache_write_price,
    ));
    assert(prices[7] == (
        packet.model.price_cache_write_micro_usd_per_million_tokens.value,
        row.session_cache_write_price,
    ));
}

proof fn lemma_prices_agree(prices: Seq<(u64, i64)>)
    ensures
        price_fault(prices) is None <==> forall|i: int|
            0 <= i < prices.len() ==> (#[trigger] prices[i]).0 == prices[i].1,
    decreases prices.len(),
{
    if prices.len() > 0 {
        let rest = prices.skip(1);
        lemma_prices_agree(rest);
        if price_fault(prices) is None {
            assert forall|i: int| 0 <= i < prices.len() implies (#[trigger] prices[i]).0
                == prices[i].1 by {
                if i > 0 {
                    assert(rest[i - 1] == prices[i]);
                }
            }
        }
        if forall|i: int| 0 <= i < prices.len() ==> (#[trigger] prices[i]).0 == prices[i].1 {
            assert(prices[0].0 == prices[0].1);
            assert forall|i: int| 0 <= i < rest.len() implies (#[trigger] rest[i]).0
                == rest[i].1 by {
                assert(rest[i] == prices[i + 1]);
            }
        }
    }
}

/// A running session's row is recovered from exactly when its identity,
/// revision and process facts are in range and its packet is sealed at the
/// recorded length under whole digests.
pub proof fn law_recovery_row_is_read_strictly(row: RecoveryRow, sealed_length: u64)
    ensures
        recovery_column_fault(row, sealed_length) is None <==> {
            &&& row.id > 0
            &&& row.revision >= 0
            &&& row.pid >= 0
            &&& row.pgid >= 0
            &&& row.process_started_at_unix_millis >= 0
            &&& row.packet_artifact_digest@.len() == 32
            &&& row.packet_artifact_byte_length == sealed_length
            &&& row.packet_digest@.len() == 32
        },
{
}

/// A session start is looked up exactly when its key and its process facts are
/// whole; it is then fresh without a receipt, and answered by a receipt exactly
/// when that is its own.
pub proof fn law_session_start_is_looked_up(
    command: StartSession,
    audit: Option<AuditRow>,
)
    ensures
        ({
            let fresh = spec_admit_session(command, None);
            let answer = spec_admit_session(command, audit);
            let well_formed = {
                &&& crate::text::is_command_component(command.principal@)
                &&& crate::text::is_command_component(command.command_id@)
                &&& command.custody.pid > 0
                &&& command.custody.pgid > 0
                &&& command.custody.started_at_unix_millis > 0
            };
            let recorded = audit is Some && crate::audit::is_receipt_of(
                audit->0,
                "session.start"@,
                blake3_of(session_preimage(command)),
                6,
            );
            &&& fresh == Ok::<Option<Audit>, StoreError>(None) <==> well_formed
            &&& answer is Ok <==> well_formed && (audit is None || recorded)
            &&& answer matches Ok(Some(receipt)) ==> crate::audit::repeats(receipt, audit->0)
            &&& audit is Some ==> answer != Ok::<Option<Audit>, StoreError>(None)
        }),
{
}

/// A repeated start is answered from its receipt, read exactly when identity and
/// revision are in range; groups of the cost report are read exactly when each
/// is.
pub proof fn law_session_rows_answer(
    audit: Audit,
    assignment_revision: i64,
    rows: Seq<SessionCostAggregateRow>,
)
    ensures
        ({
            let replayed = spec_replayed_session(audit, assignment_revision);
            &&& replayed is Ok <==> assignment_revision >= 0 && audit.subject_id > 0
            &&& replayed matches Ok(receipt) ==> {
                &&& receipt.session_id.value == audit.subject_id
                &&& receipt.resulting_revision == audit.resulting_revision
                &&& receipt.assignment_revision.value == assignment_revision
                &&& receipt.audit_log_id == audit.audit_log_id
                &&& receipt.was_idempotent_retry
            }
        }),
        aggregate_rows_fault(rows) is None <==> forall|i: int|
            0 <= i < rows.len() ==> aggregate_row_fault(#[trigger] rows[i]) is None,
        aggregate_rows_fault(rows) matches Some(fault) ==> exists|at: int|
            #![trigger rows[at]]
            0 <= at < rows.len() && aggregate_row_fault(rows[at]) == Some(fault) && forall|i: int|
                0 <= i < at ==> aggregate_row_fault(#[trigger] rows[i]) is None,
    decreases rows.len(),
{
    if rows.len() > 0 {
        let front = rows.drop_last();
        law_session_rows_answer(audit, assignment_revision, front);
        assert forall|i: int| 0 <= i < front.len() implies #[trigger] rows[i] == front[i] by {}
        if aggregate_rows_fault(front) is Some {
            let fault = aggregate_rows_fault(front)->0;
            let at = choose|at: int|
                #![trigger front[at]]
                0 <= at < front.len() && aggregate_row_fault(front[at]) == Some(fault) && forall|
                    i: int,
                |
                    0 <= i < at ==> aggregate_row_fault(#[trigger] front[i]) is None;
            assert(rows[at] == front[at]);
        } else {
            assert(rows[rows.len() - 1] == rows.last());
        }
    }
}

/// A session start's bytes are its operation's name, its key and its fields, one
/// behind the other.
pub proof fn law_session_start_is_written_in_order(command: StartSession)
    ensures
        session_preimage(command) == framed("session.start"@) + (framed(command.principal@) + (
        framed(command.command_id@) + (be64(command.expected_assignment_revision.revision.value) + (
        be_i64(command.assignment_id.value) + (command.packet_digest.bytes@ + (be32(
            command.custody.pid,
        ) + (be32(command.custody.pgid) + be64(command.custody.started_at_unix_millis)))))))),
{
}

} // verus!
