//! Creating assignments: packet admission, target authority, budget and the
//! row that is written.

use vstd::prelude::*;
use vstd::utf8::encode_utf8;

use crate::audit::{
    aggregate_revision_from_sql, replay, spec_replay, spec_revision_from_sql,
    spec_validate_process_key, validate_command, Audit, AuditRow,
};
use crate::base64::{decode_base64_lenient, decoded_leniently};
use crate::campaign::{plan_transition, spec_transition, CampaignTransition};
use crate::digest::{blake3_of, digest_bytes, is_digest_text, ContentDigest};
use crate::encoding::{
    be32, be64, be_i64, frameable, framed, lemma_be32_head, lemma_be64_head, lemma_be_i64_head,
    lemma_concat_split, lemma_framed_head, push_framed, push_i64, push_u32, push_u64,
};
use crate::error::StoreError;
use crate::identity::{
    AggregateRevision, ApplicationRevisionId, ArtifactId, AssignmentId, CasArtifact, ContractError,
    ExpectedRevision,
};
use crate::packet::{
    spec_verify_wire_domain_mapping, verify_wire_domain_mapping, AssignmentPacket,
    AssignmentPacketWire,
};
use crate::protocol::{
    assignment_role_code, operation_mask, spec_assignment_role_code, spec_operation_mask,
    spec_thinking_code, thinking_code, AssignmentRole, ASSIGNMENT_CREATE, ASSIGNMENT_SUBJECT,
    COST_KNOWN, RUNNING,
};
use crate::text::{bytes_equal, push_bytes};

verus! {

/// The right to use one reserved assignment identity.
#[derive(Clone, Copy, Debug, PartialEq, Eq, Structural)]
pub struct AssignmentIdentityCapability {
    pub id: AssignmentId,
}

impl AssignmentIdentityCapability {
    pub fn assignment_id(self) -> (id: AssignmentId)
        ensures
            id == self.id,
    {
        self.id
    }
}

/// What the harness compiler recorded for an assignment.
#[derive(Clone, Copy, Debug, PartialEq, Eq)]
pub struct HarnessCompilation {
    pub assignment_id: AssignmentId,
    pub application_revision_id: ApplicationRevisionId,
    pub assignment_role: AssignmentRole,
    pub system_prompt_artifact_id: ArtifactId,
    pub assignment_prompt_artifact_id: ArtifactId,
    pub packet_artifact_id: ArtifactId,
    pub packet_digest: ContentDigest,
}

/// Admits one assignment into a running campaign.
#[derive(Clone, Debug, PartialEq, Eq)]
pub struct CreateAssignment {
    pub principal: String,
    pub command_id: String,
    pub expected_campaign_revision: ExpectedRevision,
    pub identity: AssignmentIdentityCapability,
    pub packet: AssignmentPacket,
    /// The exact canonical bytes of the signed wire packet.
    pub packet_bytes: Vec<u8>,
    pub packet_artifact: CasArtifact,
    pub required_read_manifest_artifact_id: ArtifactId,
    pub attempt_ordinal: u32,
    pub harness: Option<HarnessCompilation>,
}

/// The answer to a create command.
#[derive(Clone, Copy, Debug, PartialEq, Eq, Structural)]
pub struct AssignmentReceipt {
    pub assignment_id: AssignmentId,
    pub resulting_revision: AggregateRevision,
    pub resulting_campaign_revision: AggregateRevision,
    pub audit_log_id: i64,
    pub was_idempotent_retry: bool,
}

/// What is known of a command's packet before the store is looked at.
#[derive(Clone, Debug, PartialEq, Eq)]
pub struct PacketFacts {
    /// Why the typed packet breaks its own contract, if it does.
    pub packet_contract: Option<ContractError>,
    /// The wire packet, where the bytes carry the packet's digest.
    pub wire: Option<AssignmentPacketWire>,
    /// The bytes held under the packet artifact's digest.
    pub sealed_bytes: Vec<u8>,
    /// Why the harness record breaks its own contract, if it does.
    pub harness_contract: Option<ContractError>,
}

/// A ticket attempt an Engineering packet may target.
#[derive(Clone, Copy, Debug, PartialEq, Eq, Structural)]
pub struct AttemptTargetRow {
    pub id: i64,
    pub campaign_id: i64,
    pub application_revision_id: i64,
    pub stage: i16,
}

/// A candidate a Quality packet may target, with its attempt.
#[derive(Clone, Copy, Debug, PartialEq, Eq, Structural)]
pub struct CandidateTargetRow {
    pub id: i64,
    pub ticket_attempt_id: i64,
    pub campaign_id: i64,
    pub application_revision_id: i64,
    pub lifecycle: i16,
    pub has_commit: bool,
    pub stage: i16,
    pub has_passed_full_suite: bool,
    pub has_review: bool,
}

/// The campaign an assignment is admitted into, as its columns hold it.
#[derive(Clone, Debug, PartialEq, Eq)]
pub struct AssignmentCampaignRow {
    pub revision: i64,
    pub lifecycle: i16,
    pub aggregate_budget_micro_usd: i64,
    pub measured_cost_micro_usd: i64,
    pub cost_state: i16,
    pub application_revision_id: i64,
    pub build_digest: Vec<u8>,
    pub deadline_open: bool,
}

/// An artifact row, as its columns hold it.
#[derive(Clone, Debug, PartialEq, Eq)]
pub struct ArtifactRow {
    pub id: i64,
    pub digest: Vec<u8>,
    pub byte_length: i64,
}

/// What the store holds when an assignment is about to be created.
#[derive(Clone, Debug, PartialEq, Eq)]
pub struct AssignmentFacts {
    pub campaign: Option<AssignmentCampaignRow>,
    pub attempt_target: Option<AttemptTargetRow>,
    pub candidate_target: Option<CandidateTargetRow>,
    /// The artifact under the packet artifact's digest and the packet's length.
    pub packet_artifact: Option<ArtifactRow>,
    pub system_prompt: Option<ArtifactRow>,
    pub assignment_prompt: Option<ArtifactRow>,
    pub required_read_manifest: Option<ArtifactRow>,
}

/// The columns of the assignment row to insert, at revision zero, and the
/// campaign's move to its next revision.
#[derive(Clone, Copy, Debug, PartialEq, Eq, Structural)]
pub struct AssignmentPlan {
    pub packet_artifact_id: ArtifactId,
    pub role_code: i16,
    pub thinking_code: i16,
    pub context_token_limit: i32,
    pub output_token_limit: i32,
    pub input_price: i64,
    pub output_price: i64,
    pub cache_read_price: i64,
    pub cache_write_price: i64,
    pub wall_limit_millis: i64,
    pub output_byte_limit: i32,
    pub terminal_operations_mask: i64,
    pub remaining_campaign_allowance: i64,
    pub attempt_ordinal: i32,
    pub campaign: CampaignTransition,
}

/// The bytes a create command is fingerprinted by. The packet is represented
/// by its digest, the packet artifact by its seal's digest.
pub open spec fn assignment_preimage(command: CreateAssignment) -> Seq<u8> {
    framed(ASSIGNMENT_CREATE@) + (framed(command.principal@) + (framed(command.command_id@) + (be64(
        command.expected_campaign_revision.revision.value,
    ) + (command.packet.packet_digest.bytes@ + (command.packet_artifact.digest.bytes@ + (be_i64(
        command.required_read_manifest_artifact_id.value,
    ) + be32(command.attempt_ordinal)))))))
}

/// Fingerprint of a create command.
pub fn fingerprint_assignment(command: &CreateAssignment) -> (digest: ContentDigest)
    ensures
        digest.bytes == blake3_of(assignment_preimage(*command)),
{
    let mut bytes: Vec<u8> = Vec::new();
    push_framed(&mut bytes, ASSIGNMENT_CREATE);
    push_framed(&mut bytes, command.principal.as_str());
    push_framed(&mut bytes, command.command_id.as_str());
    push_u64(&mut bytes, command.expected_campaign_revision.revision.value);
    push_bytes(&mut bytes, command.packet.packet_digest.bytes.as_slice());
    push_bytes(&mut bytes, command.packet_artifact.digest.bytes.as_slice());
    push_i64(&mut bytes, command.required_read_manifest_artifact_id.value);
    push_u32(&mut bytes, command.attempt_ordinal);
    assert(bytes@ =~= assignment_preimage(*command));
    ContentDigest::of_bytes(bytes.as_slice())
}

/// Two create commands are hashed from the same bytes only when they agree in
/// key, revision, packet digest, packet seal, manifest and ordinal.
pub proof fn law_assignment_preimage_injective(left: CreateAssignment, right: CreateAssignment)
    requires
        frameable(left.principal@),
        frameable(left.command_id@),
        frameable(right.principal@),
        frameable(right.command_id@),
        assignment_preimage(left) == assignment_preimage(right),
    ensures
        left.principal@ == right.principal@,
        left.command_id@ == right.command_id@,
        left.expected_campaign_revision == right.expected_campaign_revision,
        left.packet.packet_digest == right.packet.packet_digest,
        left.packet_artifact.digest == right.packet_artifact.digest,
        left.required_read_manifest_artifact_id == right.required_read_manifest_artifact_id,
        left.attempt_ordinal == right.attempt_ordinal,
{
    let l6 = be32(left.attempt_ordinal);
    let r6 = be32(right.attempt_ordinal);
    let l5 = be_i64(left.required_read_manifest_artifact_id.value) + l6;
    let r5 = be_i64(right.required_read_manifest_artifact_id.value) + r6;
    let l4 = left.packet_artifact.digest.bytes@ + l5;
    let r4 = right.packet_artifact.digest.bytes@ + r5;
    let l3 = left.packet.packet_digest.bytes@ + l4;
    let r3 = right.packet.packet_digest.bytes@ + r4;
    let l2 = be64(left.expected_campaign_revision.revision.value) + l3;
    let r2 = be64(right.expected_campaign_revision.revision.value) + r3;
    let l1 = framed(left.command_id@) + l2;
    let r1 = framed(right.command_id@) + r2;
    lemma_concat_split(
        framed(ASSIGNMENT_CREATE@),
        framed(left.principal@) + l1,
        framed(ASSIGNMENT_CREATE@),
        framed(right.principal@) + r1,
    );
    lemma_framed_head(left.principal@, l1, right.principal@, r1);
    lemma_framed_head(left.command_id@, l2, right.command_id@, r2);
    lemma_be64_head(
        left.expected_campaign_revision.revision.value,
        l3,
        right.expected_campaign_revision.revision.value,
        r3,
    );
    lemma_concat_split(
        left.packet.packet_digest.bytes@,
        l4,
        right.packet.packet_digest.bytes@,
        r4,
    );
    lemma_concat_split(
        left.packet_artifact.digest.bytes@,
        l5,
        right.packet_artifact.digest.bytes@,
        r5,
    );
    lemma_be_i64_head(
        left.required_read_manifest_artifact_id.value,
        l6,
        right.required_read_manifest_artifact_id.value,
        r6,
    );
    assert(l6 =~= l6 + Seq::<u8>::empty());
    assert(r6 =~= r6 + Seq::<u8>::empty());
    lemma_be32_head(left.attempt_ordinal, Seq::empty(), right.attempt_ordinal, Seq::empty());
    assert(left.packet.packet_digest.bytes =~= right.packet.packet_digest.bytes);
    assert(left.packet_artifact.digest.bytes =~= right.packet_artifact.digest.bytes);
}

/// Whether a harness record describes the packet that is being admitted.
pub open spec fn harness_matches(command: CreateAssignment, harness: HarnessCompilation) -> bool {
    &&& harness.assignment_id == command.identity.id
    &&& harness.application_revision_id == command.packet.application_revision_id
    &&& harness.assignment_role == command.packet.assignment_role
    &&& harness.system_prompt_artifact_id == command.packet.system_prompt_artifact_id
    &&& harness.assignment_prompt_artifact_id == command.packet.assignment_prompt_artifact_id
    &&& harness.packet_digest == command.packet.packet_digest
}

/// What the comparison of a harness record with its command finds.
pub open spec fn spec_validate_harness(
    command: CreateAssignment,
    harness: HarnessCompilation,
    harness_contract: Option<ContractError>,
) -> Result<(), StoreError> {
    if harness_contract is Some {
        Err(StoreError::Contract(harness_contract->0))
    } else if !harness_matches(command, harness) {
        Err(StoreError::PacketIdentityMismatch)
    } else {
        Ok(())
    }
}

/// Holds a harness record to the packet that is being admitted.
pub fn validate_harness_for_assignment(
    command: &CreateAssignment,
    harness: &HarnessCompilation,
    harness_contract: Option<ContractError>,
) -> (result: Result<(), StoreError>)
    ensures
        result == spec_validate_harness(*command, *harness, harness_contract),
{
    if let Some(fault) = harness_contract {
        return Err(StoreError::Contract(fault));
    }
    if harness.assignment_id != command.identity.id || harness.application_revision_id
        != command.packet.application_revision_id || harness.assignment_role
        != command.packet.assignment_role || harness.system_prompt_artifact_id
        != command.packet.system_prompt_artifact_id || harness.assignment_prompt_artifact_id
        != command.packet.assignment_prompt_artifact_id || !harness.packet_digest.same(
        &command.packet.packet_digest,
    ) {
        return Err(StoreError::PacketIdentityMismatch);
    }
    Ok(())
}

/// Why a create command's own contents are refused, if they are.
pub open spec fn assignment_packet_fault(command: CreateAssignment, facts: PacketFacts) -> Option<
    StoreError,
> {
    match spec_validate_process_key(command.principal@, command.command_id@) {
        Err(fault) => Some(fault),
        Ok(()) => if facts.packet_contract is Some {
            Some(StoreError::Contract(facts.packet_contract->0))
        } else {
            match facts.wire {
                None => Some(StoreError::InvalidPacketDigest),
                Some(wire) => if wire.assignment_id != command.identity.id.value
                    || command.packet.assignment_id != command.identity.id {
                    Some(StoreError::PacketIdentityMismatch)
                } else {
                    match spec_verify_wire_domain_mapping(wire, command.packet) {
                        Err(fault) => Some(fault),
                        Ok(()) => if facts.sealed_bytes@ != command.packet_bytes@ {
                            Some(StoreError::PacketArtifactDigestMismatch)
                        } else if command.packet.campaign_id.value <= 0 || command.attempt_ordinal
                            == 0 {
                            Some(StoreError::InvalidProcessCommand { field: "assignment identity" })
                        } else if command.required_read_manifest_artifact_id
                            != command.packet.required_read_manifest_artifact_id {
                            Some(StoreError::RequiredReadManifestMismatch)
                        } else {
                            match command.harness {
                                None => None,
                                Some(harness) => match spec_validate_harness(
                                    command,
                                    harness,
                                    facts.harness_contract,
                                ) {
                                    Err(fault) => Some(fault),
                                    Ok(()) => None,
                                },
                            }
                        },
                    }
                },
            }
        },
    }
}

/// Checks a create command's own contents.
pub fn check_assignment_packet(command: &CreateAssignment, facts: &PacketFacts) -> (result: Result<
    (),
    StoreError,
>)
    ensures
        match result {
            Ok(()) => assignment_packet_fault(*command, *facts) is None,
            Err(fault) => assignment_packet_fault(*command, *facts) == Some(fault),
        },
{
    match validate_command(command.principal.as_str(), command.command_id.as_str()) {
        Err(fault) => return Err(fault),
        Ok(()) => {},
    }
    if let Some(fault) = facts.packet_contract {
        return Err(StoreError::Contract(fault));
    }
    let wire = match &facts.wire {
        Some(wire) => wire,
        None => return Err(StoreError::InvalidPacketDigest),
    };
    if wire.assignment_id != command.identity.id.value || command.packet.assignment_id
        != command.identity.id {
        return Err(StoreError::PacketIdentityMismatch);
    }
    match verify_wire_domain_mapping(wire, &command.packet) {
        Err(fault) => return Err(fault),
        Ok(()) => {},
    }
    if !bytes_equal(facts.sealed_bytes.as_slice(), command.packet_bytes.as_slice()) {
        return Err(StoreError::PacketArtifactDigestMismatch);
    }
    if command.packet.campaign_id.value <= 0 || command.attempt_ordinal == 0 {
        return Err(StoreError::InvalidProcessCommand { field: "assignment identity" });
    }
    if command.required_read_manifest_artifact_id
        != command.packet.required_read_manifest_artifact_id {
        return Err(StoreError::RequiredReadManifestMismatch);
    }
    if let Some(harness) = &command.harness {
        return validate_harness_for_assignment(command, harness, facts.harness_contract);
    }
    Ok(())
}

/// The receipt, if any, that already answers a create command.
pub open spec fn spec_admit_assignment(
    command: CreateAssignment,
    facts: PacketFacts,
    audit: Option<AuditRow>,
) -> Result<Option<Audit>, StoreError> {
    match assignment_packet_fault(command, facts) {
        Some(fault) => Err(fault),
        None => spec_replay(
            audit,
            command.principal,
            command.command_id,
            ASSIGNMENT_CREATE@,
            ContentDigest { bytes: blake3_of(assignment_preimage(command)) },
            ASSIGNMENT_SUBJECT,
        ),
    }
}

/// Admits a create command against its contents and its command key.
pub fn admit_create_assignment(
    command: &CreateAssignment,
    facts: &PacketFacts,
    audit: Option<&AuditRow>,
) -> (result: Result<Option<Audit>, StoreError>)
    ensures
        result == spec_admit_assignment(
            *command,
            *facts,
            match audit {
                Some(row) => Some(*row),
                None => None,
            },
        ),
{
    match check_assignment_packet(command, facts) {
        Err(fault) => return Err(fault),
        Ok(()) => {},
    }
    replay(
        audit,
        &command.principal,
        &command.command_id,
        ASSIGNMENT_CREATE,
        fingerprint_assignment(command),
        ASSIGNMENT_SUBJECT,
    )
}

/// Whether a packet's target is durable work of its own campaign and
/// application in a stage that its role may act on. A Product packet targets
/// nothing; Engineering targets an attempt that is open or sent back; Quality
/// targets a committed candidate that awaits its review.
pub open spec fn target_admitted(
    packet: AssignmentPacket,
    attempt: Option<AttemptTargetRow>,
    candidate: Option<CandidateTargetRow>,
) -> bool {
    match (packet.assignment_role, packet.ticket_attempt_id, packet.candidate_id) {
        (AssignmentRole::ProductResearch, None, None) => true,
        (AssignmentRole::Engineering, Some(attempt_id), None) => attempt matches Some(row)
            && row.id == attempt_id.value && row.campaign_id == packet.campaign_id.value
            && row.application_revision_id == packet.application_revision_id.value && (row.stage
            == 0 || row.stage == 4),
        (AssignmentRole::Quality, Some(attempt_id), Some(candidate_id)) => candidate matches Some(
            row,
        ) && row.id == candidate_id.value && row.ticket_attempt_id == attempt_id.value
            && row.campaign_id == packet.campaign_id.value && row.application_revision_id
            == packet.application_revision_id.value && row.lifecycle == 1 && row.has_commit && (
        row.stage == 2 || row.stage == 6 || (row.stage == 3 && row.has_passed_full_suite
            && !row.has_review)),
        _ => false,
    }
}

/// Holds a packet's target to the durable ticket graph.
pub fn validate_assignment_target(
    packet: &AssignmentPacket,
    attempt: Option<AttemptTargetRow>,
    candidate: Option<CandidateTargetRow>,
) -> (result: Result<(), StoreError>)
    ensures
        result == (if target_admitted(*packet, attempt, candidate) {
            Ok::<(), StoreError>(())
        } else {
            Err(StoreError::PacketIdentityMismatch)
        }),
{
    let admitted = match (packet.assignment_role, packet.ticket_attempt_id, packet.candidate_id) {
        (AssignmentRole::ProductResearch, None, None) => true,
        (AssignmentRole::Engineering, Some(attempt_id), None) => match attempt {
            Some(row) => row.id == attempt_id.value && row.campaign_id == packet.campaign_id.value
                && row.application_revision_id == packet.application_revision_id.value && (row.stage
                == 0 || row.stage == 4),
            None => false,
        },
        (AssignmentRole::Quality, Some(attempt_id), Some(candidate_id)) => match candidate {
            Some(row) => row.id == candidate_id.value && row.ticket_attempt_id == attempt_id.value
                && row.campaign_id == packet.campaign_id.value && row.application_revision_id
                == packet.application_revision_id.value && row.lifecycle == 1 && row.has_commit && (
            row.stage == 2 || row.stage == 6 || (row.stage == 3 && row.has_passed_full_suite
                && !row.has_review)),
            None => false,
        },
        _ => false,
    };
    if admitted {
        Ok(())
    } else {
        Err(StoreError::PacketIdentityMismatch)
    }
}

/// What the artifact row of a seal, looked up by digest and length, proves.
pub open spec fn spec_require_artifact_seal(row: Option<ArtifactRow>, seal: CasArtifact) -> Result<
    ArtifactId,
    StoreError,
> {
    match row {
        None => Err(StoreError::UnregisteredTerminalArtifact),
        Some(row) => if row.digest@ != seal.digest.bytes@ || row.byte_length != seal.byte_length {
            Err(StoreError::PacketArtifactDigestMismatch)
        } else {
            match ArtifactId::spec_new(row.id) {
                Ok(id) => Ok(id),
                Err(fault) => Err(StoreError::Contract(fault)),
            }
        },
    }
}

/// Resolves a seal to its registered artifact.
pub fn require_artifact_seal(row: Option<&ArtifactRow>, seal: CasArtifact) -> (result: Result<
    ArtifactId,
    StoreError,
>)
    ensures
        result == spec_require_artifact_seal(
            match row {
                Some(row) => Some(*row),
                None => None,
            },
            seal,
        ),
{
    let row = match row {
        Some(row) => row,
        None => return Err(StoreError::UnregisteredTerminalArtifact),
    };
    let length_equal = row.byte_length >= 0 && row.byte_length as u64 == seal.byte_length;
    if !bytes_equal(row.digest.as_slice(), seal.digest.bytes.as_slice()) || !length_equal {
        return Err(StoreError::PacketArtifactDigestMismatch);
    }
    match ArtifactId::new(row.id) {
        Ok(id) => Ok(id),
        Err(fault) => Err(StoreError::Contract(fault)),
    }
}

/// Refuses an artifact that is not registered, or not under the given digest.
pub fn require_artifact(
    row: Option<&ArtifactRow>,
    artifact_id: ArtifactId,
    digest: Option<ContentDigest>,
) -> (result: Result<(), StoreError>)
    ensures
        result == (match row {
            None => Err::<(), StoreError>(StoreError::UnknownArtifact { artifact_id }),
            Some(row) => if digest matches Some(expected) && row.digest@ != expected.bytes@ {
                Err(StoreError::PacketArtifactDigestMismatch)
            } else {
                Ok(())
            },
        }),
{
    let row = match row {
        Some(row) => row,
        None => return Err(StoreError::UnknownArtifact { artifact_id }),
    };
    if let Some(expected) = digest {
        if !bytes_equal(row.digest.as_slice(), expected.bytes.as_slice()) {
            return Err(StoreError::PacketArtifactDigestMismatch);
        }
    }
    Ok(())
}

/// Whether an inline prompt of a wire packet carries its own digest.
pub open spec fn prompt_sound(bytes_b64: Seq<char>, digest: Seq<char>) -> bool {
    &&& decoded_leniently(encode_utf8(bytes_b64)) is Some
    &&& is_digest_text(digest)
    &&& blake3_of(decoded_leniently(encode_utf8(bytes_b64))->0)@ == digest_bytes(digest)
}

/// What the registered artifact of an inline prompt proves.
pub open spec fn prompt_artifact_fault(
    artifact_id: i64,
    bytes_b64: Seq<char>,
    digest: Seq<char>,
    row: Option<ArtifactRow>,
) -> Option<StoreError> {
    if artifact_id <= 0 {
        Some(StoreError::Contract(ContractError::NonPositiveIdentity))
    } else {
        match row {
            None => Some(
                StoreError::UnknownArtifact { artifact_id: ArtifactId { value: artifact_id } },
            ),
            Some(row) => if row.digest@ != digest_bytes(digest) || row.byte_length
                != decoded_leniently(encode_utf8(bytes_b64))->0.len() {
                Some(StoreError::PacketArtifactDigestMismatch)
            } else {
                None
            },
        }
    }
}

/// Why the inline prompts of a wire packet are refused, if they are.
pub open spec fn prompts_fault(
    wire: AssignmentPacketWire,
    system: Option<ArtifactRow>,
    assignment: Option<ArtifactRow>,
) -> Option<StoreError> {
    if !prompt_sound(wire.system_prompt_bytes_b64@, wire.system_prompt_digest@) || !prompt_sound(
        wire.assignment_prompt_bytes_b64@,
        wire.assignment_prompt_digest@,
    ) {
        Some(StoreError::InvalidPacketDigest)
    } else {
        match prompt_artifact_fault(
            wire.system_prompt_artifact_id,
            wire.system_prompt_bytes_b64@,
            wire.system_prompt_digest@,
            system,
        ) {
            Some(fault) => Some(fault),
            None => prompt_artifact_fault(
                wire.assignment_prompt_artifact_id,
                wire.assignment_prompt_bytes_b64@,
                wire.assignment_prompt_digest@,
                assignment,
            ),
        }
    }
}

fn read_prompt(bytes_b64: &str, digest: &str) -> (result: Option<(Vec<u8>, ContentDigest)>)
    ensures
        match result {
            None => !prompt_sound(bytes_b64@, digest@),
            Some((bytes, read)) => {
                &&& prompt_sound(bytes_b64@, digest@)
                &&& decoded_leniently(encode_utf8(bytes_b64@)) == Some(bytes@)
                &&& read.bytes@ == digest_bytes(digest@)
            },
        },
{
    let bytes = match decode_base64_lenient(bytes_b64) {
        Some(bytes) => bytes,
        None => return None,
    };
    let read = match ContentDigest::parse_hex(digest) {
        Some(read) => read,
        None => return None,
    };
    let actual = ContentDigest::of_bytes(bytes.as_slice());
    if !actual.same(&read) {
        proof {
            if actual.bytes@ == read.bytes@ {
                assert(actual.bytes =~= read.bytes);
            }
        }
        return None;
    }
    Some((bytes, read))
}

fn check_prompt_artifact(
    artifact_id: i64,
    bytes: &Vec<u8>,
    digest: &ContentDigest,
    row: Option<&ArtifactRow>,
    bytes_b64: &str,
    digest_text: &str,
) -> (result: Result<(), StoreError>)
    requires
        decoded_leniently(encode_utf8(bytes_b64@)) == Some(bytes@),
        digest.bytes@ == digest_bytes(digest_text@),
    ensures
        ({
            let read = match row {
                Some(row) => Some(*row),
                None => None,
            };
            match result {
                Ok(()) => prompt_artifact_fault(artifact_id, bytes_b64@, digest_text@, read) is None,
                Err(fault) => prompt_artifact_fault(artifact_id, bytes_b64@, digest_text@, read)
                    == Some(fault),
            }
        }),
{
    let id = match ArtifactId::new(artifact_id) {
        Ok(id) => id,
        Err(fault) => return Err(StoreError::Contract(fault)),
    };
    let row = match row {
        Some(row) => row,
        None => return Err(StoreError::UnknownArtifact { artifact_id: id }),
    };
    let length_equal = row.byte_length >= 0 && row.byte_length as u64 == bytes.len() as u64;
    if !bytes_equal(row.digest.as_slice(), digest.bytes.as_slice()) || !length_equal {
        return Err(StoreError::PacketArtifactDigestMismatch);
    }
    Ok(())
}

/// Proves that the inline prompts are the registered prompt artifacts.
pub fn verify_prompt_artifacts(
    wire: &AssignmentPacketWire,
    system: Option<&ArtifactRow>,
    assignment: Option<&ArtifactRow>,
) -> (result: Result<(), StoreError>)
    ensures
        ({
            let system = match system {
                Some(row) => Some(*row),
                None => None,
            };
            let assignment = match assignment {
                Some(row) => Some(*row),
                None => None,
            };
            match result {
                Ok(()) => prompts_fault(*wire, system, assignment) is None,
                Err(fault) => prompts_fault(*wire, system, assignment) == Some(fault),
            }
        }),
{
    let (system_bytes, system_digest) = match read_prompt(
        wire.system_prompt_bytes_b64.as_str(),
        wire.system_prompt_digest.as_str(),
    ) {
        Some(read) => read,
        None => return Err(StoreError::InvalidPacketDigest),
    };
    let (assignment_bytes, assignment_digest) = match read_prompt(
        wire.assignment_prompt_bytes_b64.as_str(),
        wire.assignment_prompt_digest.as_str(),
    ) {
        Some(read) => read,
        None => return Err(StoreError::InvalidPacketDigest),
    };
    match check_prompt_artifact(
        wire.system_prompt_artifact_id,
        &system_bytes,
        &system_digest,
        system,
        wire.system_prompt_bytes_b64.as_str(),
        wire.system_prompt_digest.as_str(),
    ) {
        Err(fault) => return Err(fault),
        Ok(()) => {},
    }
    check_prompt_artifact(
        wire.assignment_prompt_artifact_id,
        &assignment_bytes,
        &assignment_digest,
        assignment,
        wire.assignment_prompt_bytes_b64.as_str(),
        wire.assignment_prompt_digest.as_str(),
    )
}

/// Why the campaign does not admit the assignment, if it does not.
pub open spec fn assignment_campaign_fault(
    command: CreateAssignment,
    facts: AssignmentFacts,
) -> Option<StoreError> {
    let campaign_id = command.packet.campaign_id;
    match facts.campaign {
        None => Some(StoreError::UnknownCampaign { campaign_id }),
        Some(row) => match spec_revision_from_sql(row.revision) {
            Err(fault) => Some(fault),
            Ok(current) => if command.expected_campaign_revision.revision != current {
                Some(
                    StoreError::RevisionConflict {
                        expected: command.expected_campaign_revision,
                        current,
                    },
                )
            } else if row.lifecycle != RUNNING {
                Some(StoreError::CampaignClosed { campaign_id })
            } else if !row.deadline_open {
                Some(StoreError::CampaignDeadlineElapsed)
            } else if row.cost_state != COST_KNOWN {
                Some(StoreError::CampaignCostFrozen { campaign_id })
            } else if row.application_revision_id != command.packet.application_revision_id.value
                || row.build_digest@ != command.packet.kernel_build_id.digest.bytes@ {
                Some(StoreError::PacketIdentityMismatch)
            } else if !target_admitted(
                command.packet,
                facts.attempt_target,
                facts.candidate_target,
            ) {
                Some(StoreError::PacketIdentityMismatch)
            } else if row.aggregate_budget_micro_usd < 0 || row.measured_cost_micro_usd < 0
                || row.aggregate_budget_micro_usd < row.measured_cost_micro_usd {
                Some(StoreError::CorruptCostColumn)
            } else if command.packet.remaining_campaign_allowance.value
                != row.aggregate_budget_micro_usd - row.measured_cost_micro_usd {
                Some(StoreError::RemainingAllowanceMismatch)
            } else {
                None
            },
        },
    }
}

/// Checks that the campaign admits the assignment; gives the campaign's
/// revision and remaining allowance.
pub fn check_assignment_campaign(command: &CreateAssignment, facts: &AssignmentFacts) -> (result:
    Result<(AggregateRevision, i64), StoreError>)
    ensures
        match result {
            Err(fault) => assignment_campaign_fault(*command, *facts) == Some(fault),
            Ok((revision, remaining)) => {
                &&& assignment_campaign_fault(*command, *facts) is None
                &&& revision.value == facts.campaign->0.revision
                &&& remaining == facts.campaign->0.aggregate_budget_micro_usd
                    - facts.campaign->0.measured_cost_micro_usd
            },
        },
{
    let campaign_id = command.packet.campaign_id;
    let row = match &facts.campaign {
        Some(row) => row,
        None => return Err(StoreError::UnknownCampaign { campaign_id }),
    };
    let current = match aggregate_revision_from_sql(row.revision) {
        Ok(revision) => revision,
        Err(fault) => return Err(fault),
    };
    if command.expected_campaign_revision.revision != current {
        return Err(
            StoreError::RevisionConflict {
                expected: command.expected_campaign_revision,
                current,
            },
        );
    }
    if row.lifecycle != RUNNING {
        return Err(StoreError::CampaignClosed { campaign_id });
    }
    if !row.deadline_open {
        return Err(StoreError::CampaignDeadlineElapsed);
    }
    if row.cost_state != COST_KNOWN {
        return Err(StoreError::CampaignCostFrozen { campaign_id });
    }
    if row.application_revision_id != command.packet.application_revision_id.value || !bytes_equal(
        row.build_digest.as_slice(),
        command.packet.kernel_build_id.digest.bytes.as_slice(),
    ) {
        return Err(StoreError::PacketIdentityMismatch);
    }
    match validate_assignment_target(
        &command.packet,
        facts.attempt_target,
        facts.candidate_target,
    ) {
        Err(fault) => return Err(fault),
        Ok(()) => {},
    }
    if row.aggregate_budget_micro_usd < 0 || row.measured_cost_micro_usd < 0
        || row.aggregate_budget_micro_usd < row.measured_cost_micro_usd {
        return Err(StoreError::CorruptCostColumn);
    }
    let remaining: i64 = row.aggregate_budget_micro_usd - row.measured_cost_micro_usd;
    if command.packet.remaining_campaign_allowance.value != remaining as u64 {
        return Err(StoreError::RemainingAllowanceMismatch);
    }
    Ok((current, remaining))
}

/// Why an assignment's artifacts are refused, if they are.
pub open spec fn assignment_artifact_fault(
    command: CreateAssignment,
    wire: AssignmentPacketWire,
    facts: AssignmentFacts,
) -> Option<StoreError> {
    match spec_require_artifact_seal(facts.packet_artifact, command.packet_artifact) {
        Err(fault) => Some(fault),
        Ok(packet_artifact_id) => if facts.system_prompt is None {
            Some(
                StoreError::UnknownArtifact {
                    artifact_id: command.packet.system_prompt_artifact_id,
                },
            )
        } else if facts.assignment_prompt is None {
            Some(
                StoreError::UnknownArtifact {
                    artifact_id: command.packet.assignment_prompt_artifact_id,
                },
            )
        } else if facts.required_read_manifest is None {
            Some(
                StoreError::UnknownArtifact {
                    artifact_id: command.required_read_manifest_artifact_id,
                },
            )
        } else {
            match prompts_fault(wire, facts.system_prompt, facts.assignment_prompt) {
                Some(fault) => Some(fault),
                None => if command.harness matches Some(harness) && harness.packet_artifact_id
                    != packet_artifact_id {
                    Some(StoreError::HarnessPacketArtifactMismatch)
                } else {
                    None
                },
            }
        },
    }
}

/// Checks an assignment's artifacts; gives the packet's registered artifact.
pub fn check_assignment_artifacts(
    command: &CreateAssignment,
    wire: &AssignmentPacketWire,
    facts: &AssignmentFacts,
) -> (result: Result<ArtifactId, StoreError>)
    ensures
        match result {
            Err(fault) => assignment_artifact_fault(*command, *wire, *facts) == Some(fault),
            Ok(id) => {
                &&& assignment_artifact_fault(*command, *wire, *facts) is None
                &&& spec_require_artifact_seal(facts.packet_artifact, command.packet_artifact)
                    == Ok::<ArtifactId, StoreError>(id)
            },
        },
{
    let packet_artifact_id = match require_artifact_seal(
        facts.packet_artifact.as_ref(),
        command.packet_artifact,
    ) {
        Ok(id) => id,
        Err(fault) => return Err(fault),
    };
    match require_artifact(
        facts.system_prompt.as_ref(),
        command.packet.system_prompt_artifact_id,
        None,
    ) {
        Err(fault) => return Err(fault),
        Ok(()) => {},
    }
    match require_artifact(
        facts.assignment_prompt.as_ref(),
        command.packet.assignment_prompt_artifact_id,
        None,
    ) {
        Err(fault) => return Err(fault),
        Ok(()) => {},
    }
    match require_artifact(
        facts.required_read_manifest.as_ref(),
        command.required_read_manifest_artifact_id,
        None,
    ) {
        Err(fault) => return Err(fault),
        Ok(()) => {},
    }
    match verify_prompt_artifacts(
        wire,
        facts.system_prompt.as_ref(),
        facts.assignment_prompt.as_ref(),
    ) {
        Err(fault) => return Err(fault),
        Ok(()) => {},
    }
    if let Some(harness) = &command.harness {
        if harness.packet_artifact_id != packet_artifact_id {
            return Err(StoreError::HarnessPacketArtifactMismatch);
        }
    }
    Ok(packet_artifact_id)
}

/// Why a packet's bounds do not fit their columns, if they do not.
pub open spec fn assignment_column_fault(command: CreateAssignment) -> Option<StoreError> {
    let model = command.packet.model;
    let limits = command.packet.limits;
    if model.context_token_limit > i32::MAX {
        Some(StoreError::InvalidProcessCommand { field: "context token limit" })
    } else if model.output_token_limit > i32::MAX {
        Some(StoreError::InvalidProcessCommand { field: "output token limit" })
    } else if model.price_input_micro_usd_per_million_tokens.value > i64::MAX {
        Some(StoreError::InvalidProcessCommand { field: "input price" })
    } else if model.price_output_micro_usd_per_million_tokens.value > i64::MAX {
        Some(StoreError::InvalidProcessCommand { field: "output price" })
    } else if model.price_cache_read_micro_usd_per_million_tokens.value > i64::MAX {
        Some(StoreError::InvalidProcessCommand { field: "cache read price" })
    } else if model.price_cache_write_micro_usd_per_million_tokens.value > i64::MAX {
        Some(StoreError::InvalidProcessCommand { field: "cache write price" })
    } else if limits.wall_limit_millis > i64::MAX {
        Some(StoreError::InvalidProcessCommand { field: "wall limit" })
    } else if limits.output_byte_limit > i32::MAX {
        Some(StoreError::InvalidProcessCommand { field: "output limit" })
    } else if command.attempt_ordinal > i32::MAX {
        Some(StoreError::InvalidProcessCommand { field: "attempt ordinal" })
    } else {
        None
    }
}

/// Why a create command that no receipt answers is refused, if it is: by the
/// campaign, by its artifacts, by its bounds, or at the last revision.
pub open spec fn assignment_fault(
    command: CreateAssignment,
    wire: AssignmentPacketWire,
    facts: AssignmentFacts,
) -> Option<StoreError> {
    if assignment_campaign_fault(command, facts) is Some {
        assignment_campaign_fault(command, facts)
    } else if assignment_artifact_fault(command, wire, facts) is Some {
        assignment_artifact_fault(command, wire, facts)
    } else if assignment_column_fault(command) is Some {
        assignment_column_fault(command)
    } else {
        match spec_transition(command.expected_campaign_revision.revision) {
            Err(fault) => Some(fault),
            Ok(_) => None,
        }
    }
}

/// The assignment row that an accepted create command writes.
pub open spec fn planned_assignment(
    command: CreateAssignment,
    facts: AssignmentFacts,
    plan: AssignmentPlan,
) -> bool {
    let model = command.packet.model;
    let campaign = facts.campaign->0;
    &&& spec_require_artifact_seal(facts.packet_artifact, command.packet_artifact) == Ok::<
        ArtifactId,
        StoreError,
    >(plan.packet_artifact_id)
    &&& plan.role_code == spec_assignment_role_code(command.packet.assignment_role)
    &&& plan.thinking_code == spec_thinking_code(model.thinking_level)
    &&& plan.context_token_limit == model.context_token_limit
    &&& plan.output_token_limit == model.output_token_limit
    &&& plan.input_price == model.price_input_micro_usd_per_million_tokens.value
    &&& plan.output_price == model.price_output_micro_usd_per_million_tokens.value
    &&& plan.cache_read_price == model.price_cache_read_micro_usd_per_million_tokens.value
    &&& plan.cache_write_price == model.price_cache_write_micro_usd_per_million_tokens.value
    &&& plan.wall_limit_millis == command.packet.limits.wall_limit_millis
    &&& plan.output_byte_limit == command.packet.limits.output_byte_limit
    &&& plan.terminal_operations_mask == spec_operation_mask(command.packet.terminal_operations@)
    &&& plan.remaining_campaign_allowance == campaign.aggregate_budget_micro_usd
        - campaign.measured_cost_micro_usd
    &&& plan.attempt_ordinal == command.attempt_ordinal
    &&& spec_transition(command.expected_campaign_revision.revision) == Ok::<
        CampaignTransition,
        StoreError,
    >(plan.campaign)
}

/// Plans the rows of a create command that no receipt answers.
pub fn create_assignment(
    command: &CreateAssignment,
    wire: &AssignmentPacketWire,
    facts: &AssignmentFacts,
) -> (result: Result<AssignmentPlan, StoreError>)
    ensures
        match result {
            Err(fault) => assignment_fault(*command, *wire, *facts) == Some(fault),
            Ok(plan) => {
                &&& assignment_fault(*command, *wire, *facts) is None
                &&& planned_assignment(*command, *facts, plan)
            },
        },
{
    let (current, remaining) = match check_assignment_campaign(command, facts) {
        Ok(found) => found,
        Err(fault) => return Err(fault),
    };
    let packet_artifact_id = match check_assignment_artifacts(command, wire, facts) {
        Ok(id) => id,
        Err(fault) => return Err(fault),
    };
    let model = &command.packet.model;
    if model.context_token_limit > i32::MAX as u32 {
        return Err(StoreError::InvalidProcessCommand { field: "context token limit" });
    }
    if model.output_token_limit > i32::MAX as u32 {
        return Err(StoreError::InvalidProcessCommand { field: "output token limit" });
    }
    if model.price_input_micro_usd_per_million_tokens.value > i64::MAX as u64 {
        return Err(StoreError::InvalidProcessCommand { field: "input price" });
    }
    if model.price_output_micro_usd_per_million_tokens.value > i64::MAX as u64 {
        return Err(StoreError::InvalidProcessCommand { field: "output price" });
    }
    if model.price_cache_read_micro_usd_per_million_tokens.value > i64::MAX as u64 {
        return Err(StoreError::InvalidProcessCommand { field: "cache read price" });
    }
    if model.price_cache_write_micro_usd_per_million_tokens.value > i64::MAX as u64 {
        return Err(StoreError::InvalidProcessCommand { field: "cache write price" });
    }
    if command.packet.limits.wall_limit_millis > i64::MAX as u64 {
        return Err(StoreError::InvalidProcessCommand { field: "wall limit" });
    }
    if command.packet.limits.output_byte_limit > i32::MAX as u32 {
        return Err(StoreError::InvalidProcessCommand { field: "output limit" });
    }
    if command.attempt_ordinal > i32::MAX as u32 {
        return Err(StoreError::InvalidProcessCommand { field: "attempt ordinal" });
    }
    let campaign = match plan_transition(current) {
        Ok(transition) => transition,
        Err(fault) => return Err(fault),
    };
    Ok(
        AssignmentPlan {
            packet_artifact_id,
            role_code: assignment_role_code(command.packet.assignment_role),
            thinking_code: thinking_code(model.thinking_level),
            context_token_limit: model.context_token_limit as i32,
            output_token_limit: model.output_token_limit as i32,
            input_price: model.price_input_micro_usd_per_million_tokens.value as i64,
            output_price: model.price_output_micro_usd_per_million_tokens.value as i64,
            cache_read_price: model.price_cache_read_micro_usd_per_million_tokens.value as i64,
            cache_write_price: model.price_cache_write_micro_usd_per_million_tokens.value as i64,
            wall_limit_millis: command.packet.limits.wall_limit_millis as i64,
            output_byte_limit: command.packet.limits.output_byte_limit as i32,
            terminal_operations_mask: operation_mask(
                command.packet.terminal_operations.as_slice(),
            ),
            remaining_campaign_allowance: remaining,
            attempt_ordinal: command.attempt_ordinal as i32,
            campaign,
        },
    )
}

/// The receipt of an assignment that was just written.
pub fn created_assignment_receipt(
    command: &CreateAssignment,
    plan: &AssignmentPlan,
    audit_log_id: i64,
) -> (receipt: AssignmentReceipt)
    ensures
        receipt == (AssignmentReceipt {
            assignment_id: command.identity.id,
            resulting_revision: AggregateRevision::spec_initial(),
            resulting_campaign_revision: plan.campaign.resulting_revision,
            audit_log_id,
            was_idempotent_retry: false,
        }),
{
    AssignmentReceipt {
        assignment_id: command.identity.id,
        resulting_revision: AggregateRevision::initial(),
        resulting_campaign_revision: plan.campaign.resulting_revision,
        audit_log_id,
        was_idempotent_retry: false,
    }
}

/// The receipt a repeated create command is answered with; the campaign's
/// revision is the one it has by then.
pub open spec fn spec_replayed_assignment(audit: Audit, campaign_revision: i64) -> Result<
    AssignmentReceipt,
    StoreError,
> {
    match AssignmentId::spec_new(audit.subject_id) {
        Err(fault) => Err(StoreError::Contract(fault)),
        Ok(assignment_id) => match spec_revision_from_sql(campaign_revision) {
            Err(fault) => Err(fault),
            Ok(resulting_campaign_revision) => Ok(
                AssignmentReceipt {
                    assignment_id,
                    resulting_revision: audit.resulting_revision,
                    resulting_campaign_revision,
                    audit_log_id: audit.audit_log_id,
                    was_idempotent_retry: true,
                },
            ),
        },
    }
}

/// Answers a repeated create command.
pub fn replayed_assignment_receipt(audit: &Audit, campaign_revision: i64) -> (result: Result<
    AssignmentReceipt,
    StoreError,
>)
    ensures
        result == spec_replayed_assignment(*audit, campaign_revision),
{
    let assignment_id = match AssignmentId::new(audit.subject_id) {
        Ok(id) => id,
        Err(fault) => return Err(StoreError::Contract(fault)),
    };
    match aggregate_revision_from_sql(campaign_revision) {
        Err(fault) => Err(fault),
        Ok(resulting_campaign_revision) => Ok(
            AssignmentReceipt {
                assignment_id,
                resulting_revision: audit.resulting_revision,
                resulting_campaign_revision,
                audit_log_id: audit.audit_log_id,
                was_idempotent_retry: true,
            },
        ),
    }
}

/// An admitted assignment belongs to a running campaign before its deadline
/// whose cost is known, holds exactly the campaign's remaining allowance, and
/// advances the campaign by one revision.
pub proof fn law_admitted_assignment_is_within_budget(
    command: CreateAssignment,
    wire: AssignmentPacketWire,
    facts: AssignmentFacts,
    plan: AssignmentPlan,
)
    requires
        assignment_fault(command, wire, facts) is None,
        planned_assignment(command, facts, plan),
    ensures
        facts.campaign is Some,
        facts.campaign->0.lifecycle == RUNNING,
        facts.campaign->0.cost_state == COST_KNOWN,
        facts.campaign->0.deadline_open,
        plan.remaining_campaign_allowance >= 0,
        plan.remaining_campaign_allowance == command.packet.remaining_campaign_allowance.value,
        facts.campaign->0.measured_cost_micro_usd + plan.remaining_campaign_allowance
            == facts.campaign->0.aggregate_budget_micro_usd,
        plan.campaign.revision_column == facts.campaign->0.revision + 1,
        target_admitted(command.packet, facts.attempt_target, facts.candidate_target),
{
}

/// A packet may be assigned exactly to what its role works on: research to
/// nothing, engineering to its own attempt of the same campaign and application
/// that is still built or rebuilt, quality to the sealed committed candidate of
/// its attempt that waits for judgment, or that passed its suite unreviewed.
pub proof fn law_target_is_the_work_of_its_role(
    packet: AssignmentPacket,
    attempt: Option<AttemptTargetRow>,
    candidate: Option<CandidateTargetRow>,
)
    ensures
        packet.assignment_role == AssignmentRole::ProductResearch ==> (target_admitted(
            packet,
            attempt,
            candidate,
        ) <==> packet.ticket_attempt_id is None && packet.candidate_id is None),
        packet.assignment_role == AssignmentRole::Engineering ==> (target_admitted(
            packet,
            attempt,
            candidate,
        ) <==> {
            &&& packet.ticket_attempt_id is Some && packet.candidate_id is None
            &&& attempt is Some
            &&& attempt->0.id == packet.ticket_attempt_id->0.value
            &&& attempt->0.campaign_id == packet.campaign_id.value
            &&& attempt->0.application_revision_id == packet.application_revision_id.value
            &&& attempt->0.stage == 0 || attempt->0.stage == 4
        }),
        packet.assignment_role == AssignmentRole::Quality ==> (target_admitted(
            packet,
            attempt,
            candidate,
        ) <==> {
            &&& packet.ticket_attempt_id is Some && packet.candidate_id is Some
            &&& candidate is Some
            &&& candidate->0.id == packet.candidate_id->0.value
            &&& candidate->0.ticket_attempt_id == packet.ticket_attempt_id->0.value
            &&& candidate->0.campaign_id == packet.campaign_id.value
            &&& candidate->0.application_revision_id == packet.application_revision_id.value
            &&& candidate->0.lifecycle == 1
            &&& candidate->0.has_commit
            &&& candidate->0.stage == 2 || candidate->0.stage == 6 || (candidate->0.stage == 3
                && candidate->0.has_passed_full_suite && !candidate->0.has_review)
        }),
{
}

/// A packet is accepted exactly when it keeps its contract, its bytes spell it
/// under its own identity and are the sealed ones, its manifest is the
/// commanded one, and its harness record, where there is one, is of this very
/// packet.
pub proof fn law_packet_is_accepted_exactly_when_it_is_the_commanded_one(
    command: CreateAssignment,
    facts: PacketFacts,
)
    ensures
        assignment_packet_fault(command, facts) is None <==> {
            &&& crate::text::is_command_component(command.principal@)
            &&& crate::text::is_command_component(command.command_id@)
            &&& facts.packet_contract is None
            &&& facts.wire is Some
            &&& facts.wire->0.assignment_id == command.identity.id.value
            &&& command.packet.assignment_id == command.identity.id
            &&& spec_verify_wire_domain_mapping(facts.wire->0, command.packet) is Ok
            &&& facts.sealed_bytes@ == command.packet_bytes@
            &&& command.packet.campaign_id.value > 0
            &&& command.attempt_ordinal > 0
            &&& command.required_read_manifest_artifact_id
                == command.packet.required_read_manifest_artifact_id
            &&& command.harness matches Some(harness) ==> {
                &&& facts.harness_contract is None
                &&& harness.assignment_id == command.identity.id
                &&& harness.application_revision_id == command.packet.application_revision_id
                &&& harness.assignment_role == command.packet.assignment_role
                &&& harness.system_prompt_artifact_id == command.packet.system_prompt_artifact_id
                &&& harness.assignment_prompt_artifact_id
                    == command.packet.assignment_prompt_artifact_id
                &&& harness.packet_digest == command.packet.packet_digest
            }
        },
        assignment_packet_fault(command, facts) == Some(StoreError::PacketArtifactDigestMismatch)
            ==> facts.sealed_bytes@ != command.packet_bytes@,
        assignment_packet_fault(command, facts) == Some(StoreError::RequiredReadManifestMismatch)
            ==> command.required_read_manifest_artifact_id
            != command.packet.required_read_manifest_artifact_id,
        crate::text::is_command_component(command.principal@) && crate::text::is_command_component(
            command.command_id@,
        ) && facts.packet_contract is None && facts.wire is None ==> assignment_packet_fault(
            command,
            facts,
        ) == Some(StoreError::InvalidPacketDigest),
{
}

/// A campaign takes an assignment exactly while it runs at the expected revision
/// before its deadline with a known cost, pinned to the packet's application and
/// build, for an admitted target, with the whole rest of its budget as the
/// packet's allowance.
pub proof fn law_assignment_needs_an_open_campaign(
    command: CreateAssignment,
    facts: AssignmentFacts,
)
    ensures
        ({
            let row = facts.campaign->0;
            let fault = assignment_campaign_fault(command, facts);
            &&& fault is None <==> {
                &&& facts.campaign is Some
                &&& row.revision == command.expected_campaign_revision.revision.value
                &&& row.lifecycle == 0
                &&& row.deadline_open
                &&& row.cost_state == 0
                &&& row.application_revision_id == command.packet.application_revision_id.value
                &&& row.build_digest@ == command.packet.kernel_build_id.digest.bytes@
                &&& target_admitted(command.packet, facts.attempt_target, facts.candidate_target)
                &&& 0 <= row.measured_cost_micro_usd <= row.aggregate_budget_micro_usd
                &&& command.packet.remaining_campaign_allowance.value
                    == row.aggregate_budget_micro_usd - row.measured_cost_micro_usd
            }
            &&& fault == Some(StoreError::CampaignDeadlineElapsed) ==> !row.deadline_open
            &&& fault == Some(
                StoreError::CampaignCostFrozen { campaign_id: command.packet.campaign_id },
            ) ==> row.cost_state != 0
            &&& fault == Some(StoreError::CampaignClosed { campaign_id: command.packet.campaign_id })
                ==> row.lifecycle != 0
            &&& fault == Some(StoreError::RemainingAllowanceMismatch)
                ==> command.packet.remaining_campaign_allowance.value
                != row.aggregate_budget_micro_usd - row.measured_cost_micro_usd
            &&& fault == Some(
                StoreError::UnknownCampaign { campaign_id: command.packet.campaign_id },
            ) <==> facts.campaign is None
        }),
{
}

/// A prompt of a packet is accepted exactly when its text decodes to bytes that
/// hash to its digest, and its artifact holds that digest and length.
pub proof fn law_prompts_are_their_artifacts(
    wire: AssignmentPacketWire,
    system: Option<ArtifactRow>,
    assignment: Option<ArtifactRow>,
)
    ensures
        prompts_fault(wire, system, assignment) is None <==> {
            let system_bytes = decoded_leniently(encode_utf8(wire.system_prompt_bytes_b64@));
            let assignment_bytes = decoded_leniently(
                encode_utf8(wire.assignment_prompt_bytes_b64@),
            );
            &&& system_bytes is Some && is_digest_text(wire.system_prompt_digest@)
            &&& blake3_of(system_bytes->0)@ == digest_bytes(wire.system_prompt_digest@)
            &&& assignment_bytes is Some && is_digest_text(wire.assignment_prompt_digest@)
            &&& blake3_of(assignment_bytes->0)@ == digest_bytes(wire.assignment_prompt_digest@)
            &&& wire.system_prompt_artifact_id > 0 && wire.assignment_prompt_artifact_id > 0
            &&& system is Some && system->0.digest@ == blake3_of(system_bytes->0)@
            &&& system->0.byte_length == system_bytes->0.len()
            &&& assignment is Some && assignment->0.digest@ == blake3_of(assignment_bytes->0)@
            &&& assignment->0.byte_length == assignment_bytes->0.len()
        },
        prompts_fault(wire, system, assignment) == Some(
            StoreError::UnknownArtifact {
                artifact_id: ArtifactId { value: wire.system_prompt_artifact_id },
            },
        ) ==> system is None || (assignment is None && wire.system_prompt_artifact_id
            == wire.assignment_prompt_artifact_id),
{
}

/// Every artifact of an assignment is registered: the packet under its seal, both
/// prompts and the manifest; a harness record names the packet's own artifact.
pub proof fn law_assignment_needs_its_artifacts(
    command: CreateAssignment,
    wire: AssignmentPacketWire,
    facts: AssignmentFacts,
)
    ensures
        assignment_artifact_fault(command, wire, facts) is None <==> {
            let row = facts.packet_artifact->0;
            &&& facts.packet_artifact is Some
            &&& row.digest@ == command.packet_artifact.digest.bytes@
            &&& row.byte_length == command.packet_artifact.byte_length
            &&& row.id > 0
            &&& facts.required_read_manifest is Some
            &&& prompts_fault(wire, facts.system_prompt, facts.assignment_prompt) is None
            &&& command.harness matches Some(harness) ==> harness.packet_artifact_id.value == row.id
        },
        assignment_artifact_fault(command, wire, facts) == Some(
            StoreError::HarnessPacketArtifactMismatch,
        ) ==> command.harness is Some && command.harness->0.packet_artifact_id.value
            != facts.packet_artifact->0.id,
        facts.packet_artifact is None ==> assignment_artifact_fault(command, wire, facts) == Some(
            StoreError::UnregisteredTerminalArtifact,
        ),
{
}

/// An assignment is created exactly when its campaign takes it, its artifacts
/// are registered and every bound fits its column; the plan stores each bound
/// in its own column and moves the campaign on by one revision.
pub proof fn law_assignment_is_created_as_commanded(
    command: CreateAssignment,
    wire: AssignmentPacketWire,
    facts: AssignmentFacts,
    plan: AssignmentPlan,
)
    ensures
        assignment_fault(command, wire, facts) is None <==> {
            let model = command.packet.model;
            &&& assignment_campaign_fault(command, facts) is None
            &&& assignment_artifact_fault(command, wire, facts) is None
            &&& model.context_token_limit <= i32::MAX
            &&& model.output_token_limit <= i32::MAX
            &&& model.price_input_micro_usd_per_million_tokens.value <= i64::MAX
            &&& model.price_output_micro_usd_per_million_tokens.value <= i64::MAX
            &&& model.price_cache_read_micro_usd_per_million_tokens.value <= i64::MAX
            &&& model.price_cache_write_micro_usd_per_million_tokens.value <= i64::MAX
            &&& command.packet.limits.wall_limit_millis <= i64::MAX
            &&& command.packet.limits.output_byte_limit <= i32::MAX
            &&& command.attempt_ordinal <= i32::MAX
            &&& command.expected_campaign_revision.revision.value < i64::MAX
        },
        assignment_fault(command, wire, facts) is None && planned_assignment(command, facts, plan)
            ==> {
            let model = command.packet.model;
            &&& plan.packet_artifact_id.value == facts.packet_artifact->0.id
            &&& plan.role_code == (match command.packet.assignment_role {
                AssignmentRole::ProductResearch => 0i16,
                AssignmentRole::Engineering => 1,
                AssignmentRole::Quality => 2,
            })
            &&& plan.thinking_code == (match model.thinking_level {
                crate::protocol::ThinkingLevel::NoThinking => 0i16,
                crate::protocol::ThinkingLevel::Low => 1,
                crate::protocol::ThinkingLevel::Medium => 2,
                crate::protocol::ThinkingLevel::High => 3,
                crate::protocol::ThinkingLevel::XHigh => 4,
            })
            &&& plan.terminal_operations_mask == (if command.packet.terminal_operations@.contains(
                crate::protocol::TerminalOperation::WorkComplete,
            ) { 1int } else { 0 }) + (if command.packet.terminal_operations@.contains(
                crate::protocol::TerminalOperation::CandidateSubmit,
            ) { 2int } else { 0 }) + (if command.packet.terminal_operations@.contains(
                crate::protocol::TerminalOperation::QualitySubmitReview,
            ) { 4int } else { 0 })
            &&& plan.context_token_limit == model.context_token_limit
            &&& plan.output_token_limit == model.output_token_limit
            &&& plan.input_price == model.price_input_micro_usd_per_million_tokens.value
            &&& plan.output_price == model.price_output_micro_usd_per_million_tokens.value
            &&& plan.cache_read_price == model.price_cache_read_micro_usd_per_million_tokens.value
            &&& plan.cache_write_price == model.price_cache_write_micro_usd_per_million_tokens.value
            &&& plan.wall_limit_millis == command.packet.limits.wall_limit_millis
            &&& plan.output_byte_limit == command.packet.limits.output_byte_limit
            &&& plan.remaining_campaign_allowance
                == command.packet.remaining_campaign_allowance.value
            &&& plan.attempt_ordinal == command.attempt_ordinal
            &&& plan.campaign.revision_column == facts.campaign->0.revision + 1
            &&& plan.campaign.resulting_revision.value == facts.campaign->0.revision + 1
        },
{
}

/// An assignment is looked up exactly when its packet is the commanded one;
/// it is then fresh without a receipt, and answered by a receipt exactly when
/// that is its own.
pub proof fn law_assignment_is_looked_up(
    command: CreateAssignment,
    facts: PacketFacts,
    audit: Option<AuditRow>,
)
    ensures
        ({
            let fresh = spec_admit_assignment(command, facts, None);
            let answer = spec_admit_assignment(command, facts, audit);
            let well_formed = {
                &&& assignment_packet_fault(command, facts) is None
            };
            let recorded = audit is Some && crate::audit::is_receipt_of(
                audit->0,
                "assignment.create"@,
                blake3_of(assignment_preimage(command)),
                5,
            );
            &&& fresh == Ok::<Option<Audit>, StoreError>(None) <==> well_formed
            &&& answer is Ok <==> well_formed && (audit is None || recorded)
            &&& answer matches Ok(Some(receipt)) ==> crate::audit::repeats(receipt, audit->0)
            &&& audit is Some ==> answer != Ok::<Option<Audit>, StoreError>(None)
        }),
{
}

/// A repeated assignment is answered from its receipt, exactly when identity and
/// campaign revision are in range.
pub proof fn law_repeated_assignment_is_answered_from_its_receipt(
    audit: Audit,
    campaign_revision: i64,
)
    ensures
        ({
            let replayed = spec_replayed_assignment(audit, campaign_revision);
            &&& replayed is Ok <==> audit.subject_id > 0 && campaign_revision >= 0
            &&& replayed matches Ok(receipt) ==> {
                &&& receipt.assignment_id.value == audit.subject_id
                &&& receipt.resulting_revision == audit.resulting_revision
                &&& receipt.resulting_campaign_revision.value == campaign_revision
                &&& receipt.audit_log_id == audit.audit_log_id
                &&& receipt.was_idempotent_retry
            }
        }),
{
}

/// An assignment's bytes are its operation's name, its key and its fields, one
/// behind the other.
pub proof fn law_assignment_is_written_in_order(command: CreateAssignment)
    ensures
        assignment_preimage(command) == framed("assignment.create"@) + (framed(command.principal@)
            + (framed(command.command_id@) + (be64(
            command.expected_campaign_revision.revision.value,
        ) + (command.packet.packet_digest.bytes@ + (command.packet_artifact.digest.bytes@ + (be_i64(
            command.required_read_manifest_artifact_id.value,
        ) + be32(command.attempt_ordinal))))))),
{
}

} // verus!
