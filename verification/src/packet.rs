//! Assignment packets: the typed packet, its wire spelling, and the mapping
//! between them.

use vstd::prelude::*;
use vstd::utf8::encode_utf8;

use crate::base64::{decode_base64_lenient, decoded_leniently};
use crate::digest::{
    digest_bytes, hex_of, is_digest_text, law_digest_text_is_canonical, ContentDigest,
};
use crate::encoding::{be32, push_u32};
use crate::error::StoreError;
use crate::identity::{
    AggregateRevision, ApplicationRevisionId, ArtifactId, AssignmentId, CampaignId, CandidateId,
    ContractError, KernelBuildId, TicketAttemptId,
};
use crate::protocol::{
    assignment_role_name, spec_assignment_role_name, spec_terminal_operation_name,
    spec_thinking_name, terminal_operation_name, thinking_name, AssignmentRole, MicroUsd,
    TerminalOperation, ThinkingLevel,
};
use crate::text::{bytes_equal, push_bytes, push_text, text_equal};

verus! {

/// A capability a model profile may declare.
#[derive(Clone, Copy, Debug, PartialEq, Eq, Structural)]
pub enum ModelCapability {
    Reasoning,
}

/// The exact model an assignment runs on, with its prices.
#[derive(Clone, Debug, PartialEq, Eq)]
pub struct ModelProfile {
    pub provider: String,
    pub model_id: String,
    pub thinking_level: ThinkingLevel,
    pub context_token_limit: u32,
    pub output_token_limit: u32,
    pub price_input_micro_usd_per_million_tokens: MicroUsd,
    pub price_output_micro_usd_per_million_tokens: MicroUsd,
    pub price_cache_read_micro_usd_per_million_tokens: MicroUsd,
    pub price_cache_write_micro_usd_per_million_tokens: MicroUsd,
    pub capability_flags: Vec<ModelCapability>,
}

/// Bounds of one session.
#[derive(Clone, Copy, Debug, PartialEq, Eq, Structural)]
pub struct SessionLimits {
    pub wall_limit_millis: u64,
    pub output_byte_limit: u32,
}

/// The host a session runs in.
#[derive(Clone, Debug, PartialEq, Eq)]
pub struct RuntimeIdentity {
    pub host_executable: String,
    pub core_head: String,
    pub core_source_digest: ContentDigest,
    pub rust_toolchain: String,
    pub credential_env: String,
}

/// A file that must be read exactly before any mutation.
#[derive(Clone, Debug, PartialEq, Eq)]
pub struct ReadExactFile {
    pub path: String,
    pub digest: ContentDigest,
    pub reason: String,
}

/// One artifact an assignment may read as evidence.
#[derive(Clone, Debug, PartialEq, Eq)]
pub struct AssignmentEvidence {
    pub role: String,
    pub artifact_id: ArtifactId,
    pub digest: ContentDigest,
    pub byte_length: u64,
}

/// The typed assignment packet.
#[derive(Clone, Debug, PartialEq, Eq)]
pub struct AssignmentPacket {
    pub format_version: u16,
    pub campaign_id: CampaignId,
    pub assignment_id: AssignmentId,
    pub kernel_build_id: KernelBuildId,
    pub application_revision_id: ApplicationRevisionId,
    pub assignment_role: AssignmentRole,
    pub target: String,
    pub ticket_attempt_id: Option<TicketAttemptId>,
    pub candidate_id: Option<CandidateId>,
    pub system_prompt_artifact_id: ArtifactId,
    pub assignment_prompt_artifact_id: ArtifactId,
    pub required_read_manifest_artifact_id: ArtifactId,
    pub policy_digest: ContentDigest,
    pub policy_byte_limit: u32,
    pub policy_bytes: Vec<u8>,
    pub policy_entrypoint: String,
    pub workspace_root: String,
    pub staging_root: String,
    pub model: ModelProfile,
    pub limits: SessionLimits,
    pub runtime: RuntimeIdentity,
    pub required_reads: Vec<ReadExactFile>,
    pub assignment_evidence: Vec<AssignmentEvidence>,
    pub terminal_operations: Vec<TerminalOperation>,
    pub remaining_campaign_allowance: MicroUsd,
    pub revision: AggregateRevision,
    pub packet_digest: ContentDigest,
}

/// Wire spelling of a model profile.
#[derive(Clone, Debug, PartialEq, Eq)]
pub struct ModelProfileWire {
    pub provider: String,
    pub model_id: String,
    pub thinking_level: String,
    pub context_token_limit: u32,
    pub output_token_limit: u32,
    pub price_input_micro_usd_per_million_tokens: u64,
    pub price_output_micro_usd_per_million_tokens: u64,
    pub price_cache_read_micro_usd_per_million_tokens: u64,
    pub price_cache_write_micro_usd_per_million_tokens: u64,
    pub capability_flags: Vec<String>,
}

/// Wire spelling of a runtime identity.
#[derive(Clone, Debug, PartialEq, Eq)]
pub struct RuntimeIdentityWire {
    pub host_executable: String,
    pub core_head: String,
    pub core_source_digest: String,
    pub rust_toolchain: String,
    pub credential_env: String,
}

/// Wire spelling of a required read.
#[derive(Clone, Debug, PartialEq, Eq)]
pub struct ReadExactFileWire {
    pub path: String,
    pub digest: String,
    pub reason: String,
}

/// Wire spelling of an evidence reference.
#[derive(Clone, Debug, PartialEq, Eq)]
pub struct AssignmentEvidenceWire {
    pub role: String,
    pub artifact_id: i64,
    pub digest: String,
    pub byte_length: u64,
}

/// The signed wire packet, as parsed from its canonical bytes.
#[derive(Clone, Debug, PartialEq, Eq)]
pub struct AssignmentPacketWire {
    pub format_version: u16,
    pub campaign_id: i64,
    pub assignment_id: i64,
    pub kernel_build_id: String,
    pub application_revision_id: i64,
    pub assignment_role: String,
    pub target: String,
    pub ticket_attempt_id: Option<i64>,
    pub candidate_id: Option<i64>,
    pub system_prompt_artifact_id: i64,
    pub system_prompt_digest: String,
    pub system_prompt_bytes_b64: String,
    pub assignment_prompt_artifact_id: i64,
    pub assignment_prompt_digest: String,
    pub assignment_prompt_bytes_b64: String,
    pub required_read_manifest_artifact_id: i64,
    pub policy_digest: String,
    pub policy_byte_limit: u32,
    pub policy_bytes_b64: String,
    pub policy_entrypoint: String,
    pub workspace_root: String,
    pub staging_root: String,
    pub model: ModelProfileWire,
    pub limits: SessionLimits,
    pub runtime: RuntimeIdentityWire,
    pub required_reads: Vec<ReadExactFileWire>,
    pub assignment_evidence: Vec<AssignmentEvidenceWire>,
    pub terminal_operations: Vec<String>,
    pub tools: Vec<String>,
    pub remaining_campaign_allowance_micro_usd: u64,
    pub aggregate_revision: u64,
    pub packet_digest: String,
}

/// The first item of a list that the protocol's own parser refuses, and why.
#[derive(Clone, Copy, Debug, PartialEq, Eq, Structural)]
pub struct RefusedItem {
    pub at: usize,
    pub fault: ContractError,
}

/// What the protocol's own parsers refuse of a wire packet.
#[derive(Clone, Copy, Debug, PartialEq, Eq, Structural)]
pub struct WireContract {
    /// The first required read whose path is not repository-relative.
    pub required_read_path: Option<RefusedItem>,
    /// The first evidence reference without a known role.
    pub evidence_role: Option<RefusedItem>,
    /// Whether the policy entrypoint is known.
    pub policy_entrypoint: bool,
    pub workspace_root: Option<ContractError>,
    pub staging_root: Option<ContractError>,
    pub host_executable: Option<ContractError>,
    /// The packet as a whole.
    pub packet: Option<ContractError>,
}

/// Whether a wire text renders a digest.
pub open spec fn renders(text: Seq<char>, digest: ContentDigest) -> bool {
    text == hex_of(digest.bytes@)
}

/// The wire name of a capability.
pub open spec fn spec_capability_name(capability: ModelCapability) -> &'static str {
    match capability {
        ModelCapability::Reasoning => "reasoning",
    }
}

/// An optional wire identity spells an optional typed one.
pub open spec fn spells_attempt(wire: Option<i64>, packet: Option<TicketAttemptId>) -> bool {
    match (wire, packet) {
        (Some(value), Some(id)) => value == id.value,
        (None, None) => true,
        _ => false,
    }
}

/// An optional wire identity spells an optional typed one.
pub open spec fn spells_candidate(wire: Option<i64>, packet: Option<CandidateId>) -> bool {
    match (wire, packet) {
        (Some(value), Some(id)) => value == id.value,
        (None, None) => true,
        _ => false,
    }
}

/// The identity part of the mapping.
pub open spec fn identity_maps(wire: AssignmentPacketWire, packet: AssignmentPacket) -> bool {
    &&& wire.campaign_id == packet.campaign_id.value
    &&& wire.assignment_id == packet.assignment_id.value
    &&& wire.application_revision_id == packet.application_revision_id.value
    &&& renders(wire.kernel_build_id@, packet.kernel_build_id.digest)
    &&& wire.assignment_role@ == spec_assignment_role_name(packet.assignment_role)@
    &&& wire.target@ == packet.target@
    &&& spells_attempt(wire.ticket_attempt_id, packet.ticket_attempt_id)
    &&& spells_candidate(wire.candidate_id, packet.candidate_id)
    &&& wire.system_prompt_artifact_id == packet.system_prompt_artifact_id.value
    &&& wire.assignment_prompt_artifact_id == packet.assignment_prompt_artifact_id.value
    &&& wire.required_read_manifest_artifact_id == packet.required_read_manifest_artifact_id.value
    &&& wire.workspace_root@ == packet.workspace_root@
    &&& wire.staging_root@ == packet.staging_root@
    &&& wire.remaining_campaign_allowance_micro_usd == packet.remaining_campaign_allowance.value
    &&& wire.aggregate_revision == packet.revision.value
    &&& renders(wire.packet_digest@, packet.packet_digest)
}

/// The model part of the mapping.
pub open spec fn model_maps(wire: ModelProfileWire, model: ModelProfile) -> bool {
    &&& wire.provider@ == model.provider@
    &&& wire.model_id@ == model.model_id@
    &&& wire.thinking_level@ == spec_thinking_name(model.thinking_level)@
    &&& wire.context_token_limit == model.context_token_limit
    &&& wire.output_token_limit == model.output_token_limit
    &&& wire.price_input_micro_usd_per_million_tokens
        == model.price_input_micro_usd_per_million_tokens.value
    &&& wire.price_output_micro_usd_per_million_tokens
        == model.price_output_micro_usd_per_million_tokens.value
    &&& wire.price_cache_read_micro_usd_per_million_tokens
        == model.price_cache_read_micro_usd_per_million_tokens.value
    &&& wire.price_cache_write_micro_usd_per_million_tokens
        == model.price_cache_write_micro_usd_per_million_tokens.value
    &&& capabilities_map(wire.capability_flags@, model.capability_flags@)
}

pub open spec fn capabilities_map(wire: Seq<String>, flags: Seq<ModelCapability>) -> bool {
    &&& wire.len() == flags.len()
    &&& forall|i: int|
        0 <= i < wire.len() ==> (#[trigger] wire[i])@ == spec_capability_name(flags[i])@
}

/// The bounds and runtime part of the mapping.
pub open spec fn runtime_maps(wire: AssignmentPacketWire, packet: AssignmentPacket) -> bool {
    &&& wire.limits == packet.limits
    &&& wire.runtime.host_executable@ == packet.runtime.host_executable@
    &&& wire.runtime.core_head@ == packet.runtime.core_head@
    &&& renders(wire.runtime.core_source_digest@, packet.runtime.core_source_digest)
    &&& wire.runtime.rust_toolchain@ == packet.runtime.rust_toolchain@
    &&& wire.runtime.credential_env@ == packet.runtime.credential_env@
}

/// The policy part of the mapping.
pub open spec fn policy_maps(wire: AssignmentPacketWire, packet: AssignmentPacket) -> bool {
    &&& renders(wire.policy_digest@, packet.policy_digest)
    &&& wire.policy_byte_limit == packet.policy_byte_limit
    &&& decoded_leniently(encode_utf8(wire.policy_bytes_b64@)) == Some(packet.policy_bytes@)
    &&& wire.policy_entrypoint@ == packet.policy_entrypoint@
}

pub open spec fn read_maps(wire: ReadExactFileWire, read: ReadExactFile) -> bool {
    &&& wire.path@ == read.path@
    &&& renders(wire.digest@, read.digest)
    &&& wire.reason@ == read.reason@
}

pub open spec fn reads_map(wire: Seq<ReadExactFileWire>, reads: Seq<ReadExactFile>) -> bool {
    &&& wire.len() == reads.len()
    &&& forall|i: int| 0 <= i < wire.len() ==> read_maps(#[trigger] wire[i], reads[i])
}

pub open spec fn operations_map(wire: Seq<String>, operations: Seq<TerminalOperation>) -> bool {
    &&& wire.len() == operations.len()
    &&& forall|i: int|
        0 <= i < wire.len() ==> (#[trigger] wire[i])@ == spec_terminal_operation_name(
            operations[i],
        )@
}

pub open spec fn evidence_item_maps(
    wire: AssignmentEvidenceWire,
    evidence: AssignmentEvidence,
) -> bool {
    &&& wire.role@ == evidence.role@
    &&& wire.artifact_id == evidence.artifact_id.value
    &&& renders(wire.digest@, evidence.digest)
    &&& wire.byte_length == evidence.byte_length
}

pub open spec fn evidence_maps(
    wire: Seq<AssignmentEvidenceWire>,
    evidence: Seq<AssignmentEvidence>,
) -> bool {
    &&& wire.len() == evidence.len()
    &&& forall|i: int| 0 <= i < wire.len() ==> evidence_item_maps(#[trigger] wire[i], evidence[i])
}

/// Whether the wire packet is the wire spelling of the typed packet.
pub open spec fn wire_maps(wire: AssignmentPacketWire, packet: AssignmentPacket) -> bool {
    &&& identity_maps(wire, packet)
    &&& model_maps(wire.model, packet.model)
    &&& runtime_maps(wire, packet)
    &&& policy_maps(wire, packet)
    &&& reads_map(wire.required_reads@, packet.required_reads@)
    &&& operations_map(wire.terminal_operations@, packet.terminal_operations@)
    &&& evidence_maps(wire.assignment_evidence@, packet.assignment_evidence@)
}

/// What the comparison of a wire packet with a typed packet finds. Unreadable
/// packet and build digests are met first, then identity, model and runtime,
/// then unreadable policy bytes and digest, then everything else.
pub open spec fn spec_verify_wire_domain_mapping(
    wire: AssignmentPacketWire,
    packet: AssignmentPacket,
) -> Result<(), StoreError> {
    if !is_digest_text(wire.kernel_build_id@) || !is_digest_text(wire.packet_digest@) {
        Err(StoreError::InvalidPacketDigest)
    } else if !identity_maps(wire, packet) || !model_maps(wire.model, packet.model)
        || !runtime_maps(wire, packet) {
        Err(StoreError::PacketIdentityMismatch)
    } else if decoded_leniently(encode_utf8(wire.policy_bytes_b64@)) is None || !is_digest_text(
        wire.policy_digest@,
    ) {
        Err(StoreError::InvalidPacketDigest)
    } else if !wire_maps(wire, packet) {
        Err(StoreError::PacketIdentityMismatch)
    } else {
        Ok(())
    }
}

/// Whether a wire text renders a digest.
fn digest_rendered(text: &str, digest: &ContentDigest) -> (equal: bool)
    ensures
        equal == renders(text@, *digest),
{
    let hex = digest.to_hex();
    text_equal(text, hex.as_str())
}

fn attempt_spelled(wire: Option<i64>, packet: Option<TicketAttemptId>) -> (equal: bool)
    ensures
        equal == spells_attempt(wire, packet),
{
    match (wire, packet) {
        (Some(value), Some(id)) => value == id.value,
        (None, None) => true,
        _ => false,
    }
}

fn candidate_spelled(wire: Option<i64>, packet: Option<CandidateId>) -> (equal: bool)
    ensures
        equal == spells_candidate(wire, packet),
{
    match (wire, packet) {
        (Some(value), Some(id)) => value == id.value,
        (None, None) => true,
        _ => false,
    }
}

fn identity_mapped(wire: &AssignmentPacketWire, packet: &AssignmentPacket) -> (equal: bool)
    ensures
        equal == identity_maps(*wire, *packet),
{
    wire.campaign_id == packet.campaign_id.value && wire.assignment_id == packet.assignment_id.value
        && wire.application_revision_id == packet.application_revision_id.value && digest_rendered(
        wire.kernel_build_id.as_str(),
        &packet.kernel_build_id.digest,
    ) && text_equal(
        wire.assignment_role.as_str(),
        assignment_role_name(packet.assignment_role),
    ) && text_equal(wire.target.as_str(), packet.target.as_str()) && attempt_spelled(
        wire.ticket_attempt_id,
        packet.ticket_attempt_id,
    ) && candidate_spelled(wire.candidate_id, packet.candidate_id)
        && wire.system_prompt_artifact_id == packet.system_prompt_artifact_id.value
        && wire.assignment_prompt_artifact_id == packet.assignment_prompt_artifact_id.value
        && wire.required_read_manifest_artifact_id
        == packet.required_read_manifest_artifact_id.value && text_equal(
        wire.workspace_root.as_str(),
        packet.workspace_root.as_str(),
    ) && text_equal(wire.staging_root.as_str(), packet.staging_root.as_str())
        && wire.remaining_campaign_allowance_micro_usd == packet.remaining_campaign_allowance.value
        && wire.aggregate_revision == packet.revision.value && digest_rendered(
        wire.packet_digest.as_str(),
        &packet.packet_digest,
    )
}

fn capability_name(capability: ModelCapability) -> (name: &'static str)
    ensures
        name == spec_capability_name(capability),
{
    match capability {
        ModelCapability::Reasoning => "reasoning",
    }
}

fn capabilities_mapped(wire: &Vec<String>, flags: &Vec<ModelCapability>) -> (equal: bool)
    ensures
        equal == capabilities_map(wire@, flags@),
{
    if wire.len() != flags.len() {
        return false;
    }
    let mut index: usize = 0;
    while index < wire.len()
        invariant
            index <= wire.len(),
            wire.len() == flags.len(),
            forall|i: int|
                0 <= i < index ==> (#[trigger] wire@[i])@ == spec_capability_name(flags@[i])@,
        decreases wire.len() - index,
    {
        if !text_equal(wire[index].as_str(), capability_name(flags[index])) {
            return false;
        }
        index += 1;
    }
    true
}

fn model_mapped(wire: &ModelProfileWire, model: &ModelProfile) -> (equal: bool)
    ensures
        equal == model_maps(*wire, *model),
{
    text_equal(wire.provider.as_str(), model.provider.as_str()) && text_equal(
        wire.model_id.as_str(),
        model.model_id.as_str(),
    ) && text_equal(wire.thinking_level.as_str(), thinking_name(model.thinking_level))
        && wire.context_token_limit == model.context_token_limit && wire.output_token_limit
        == model.output_token_limit && wire.price_input_micro_usd_per_million_tokens
        == model.price_input_micro_usd_per_million_tokens.value
        && wire.price_output_micro_usd_per_million_tokens
        == model.price_output_micro_usd_per_million_tokens.value
        && wire.price_cache_read_micro_usd_per_million_tokens
        == model.price_cache_read_micro_usd_per_million_tokens.value
        && wire.price_cache_write_micro_usd_per_million_tokens
        == model.price_cache_write_micro_usd_per_million_tokens.value && capabilities_mapped(
        &wire.capability_flags,
        &model.capability_flags,
    )
}

fn runtime_mapped(wire: &AssignmentPacketWire, packet: &AssignmentPacket) -> (equal: bool)
    ensures
        equal == runtime_maps(*wire, *packet),
{
    wire.limits == packet.limits && text_equal(
        wire.runtime.host_executable.as_str(),
        packet.runtime.host_executable.as_str(),
    ) && text_equal(wire.runtime.core_head.as_str(), packet.runtime.core_head.as_str())
        && digest_rendered(
        wire.runtime.core_source_digest.as_str(),
        &packet.runtime.core_source_digest,
    ) && text_equal(wire.runtime.rust_toolchain.as_str(), packet.runtime.rust_toolchain.as_str())
        && text_equal(
        wire.runtime.credential_env.as_str(),
        packet.runtime.credential_env.as_str(),
    )
}

fn reads_mapped(wire: &Vec<ReadExactFileWire>, reads: &Vec<ReadExactFile>) -> (equal: bool)
    ensures
        equal == reads_map(wire@, reads@),
{
    if wire.len() != reads.len() {
        return false;
    }
    let mut index: usize = 0;
    while index < wire.len()
        invariant
            index <= wire.len(),
            wire.len() == reads.len(),
            forall|i: int| 0 <= i < index ==> read_maps(#[trigger] wire@[i], reads@[i]),
        decreases wire.len() - index,
    {
        let left = &wire[index];
        let right = &reads[index];
        let equal = text_equal(left.path.as_str(), right.path.as_str()) && digest_rendered(
            left.digest.as_str(),
            &right.digest,
        ) && text_equal(left.reason.as_str(), right.reason.as_str());
        if !equal {
            assert(!read_maps(wire@[index as int], reads@[index as int]));
            return false;
        }
        index += 1;
    }
    true
}

fn operations_mapped(wire: &Vec<String>, operations: &Vec<TerminalOperation>) -> (equal: bool)
    ensures
        equal == operations_map(wire@, operations@),
{
    if wire.len() != operations.len() {
        return false;
    }
    let mut index: usize = 0;
    while index < wire.len()
        invariant
            index <= wire.len(),
            wire.len() == operations.len(),
            forall|i: int|
                0 <= i < index ==> (#[trigger] wire@[i])@ == spec_terminal_operation_name(
                    operations@[i],
                )@,
        decreases wire.len() - index,
    {
        if !text_equal(wire[index].as_str(), terminal_operation_name(operations[index])) {
            return false;
        }
        index += 1;
    }
    true
}

fn evidence_mapped(
    wire: &Vec<AssignmentEvidenceWire>,
    evidence: &Vec<AssignmentEvidence>,
) -> (equal: bool)
    ensures
        equal == evidence_maps(wire@, evidence@),
{
    if wire.len() != evidence.len() {
        return false;
    }
    let mut index: usize = 0;
    while index < wire.len()
        invariant
            index <= wire.len(),
            wire.len() == evidence.len(),
            forall|i: int|
                0 <= i < index ==> evidence_item_maps(#[trigger] wire@[i], evidence@[i]),
        decreases wire.len() - index,
    {
        let left = &wire[index];
        let right = &evidence[index];
        let equal = text_equal(left.role.as_str(), right.role.as_str()) && left.artifact_id
            == right.artifact_id.value && digest_rendered(left.digest.as_str(), &right.digest)
            && left.byte_length == right.byte_length;
        if !equal {
            assert(!evidence_item_maps(wire@[index as int], evidence@[index as int]));
            return false;
        }
        index += 1;
    }
    true
}

/// Compares a wire packet with a typed packet, field by field.
pub fn verify_wire_domain_mapping(wire: &AssignmentPacketWire, packet: &AssignmentPacket) -> (result:
    Result<(), StoreError>)
    ensures
        result == spec_verify_wire_domain_mapping(*wire, *packet),
{
    if ContentDigest::parse_hex(wire.kernel_build_id.as_str()).is_none()
        || ContentDigest::parse_hex(wire.packet_digest.as_str()).is_none() {
        return Err(StoreError::InvalidPacketDigest);
    }
    if !identity_mapped(wire, packet) || !model_mapped(&wire.model, &packet.model)
        || !runtime_mapped(wire, packet) {
        return Err(StoreError::PacketIdentityMismatch);
    }
    let policy = match decode_base64_lenient(wire.policy_bytes_b64.as_str()) {
        Some(bytes) => bytes,
        None => return Err(StoreError::InvalidPacketDigest),
    };
    if ContentDigest::parse_hex(wire.policy_digest.as_str()).is_none() {
        return Err(StoreError::InvalidPacketDigest);
    }
    let policy_equal = digest_rendered(wire.policy_digest.as_str(), &packet.policy_digest)
        && wire.policy_byte_limit == packet.policy_byte_limit && bytes_equal(
        policy.as_slice(),
        packet.policy_bytes.as_slice(),
    ) && text_equal(wire.policy_entrypoint.as_str(), packet.policy_entrypoint.as_str());
    if !policy_equal || !reads_mapped(&wire.required_reads, &packet.required_reads)
        || !operations_mapped(&wire.terminal_operations, &packet.terminal_operations)
        || !evidence_mapped(&wire.assignment_evidence, &packet.assignment_evidence) {
        return Err(StoreError::PacketIdentityMismatch);
    }
    Ok(())
}

/// The typed role of a wire role.
pub open spec fn spec_role_of(name: Seq<char>) -> Option<AssignmentRole> {
    if name == "product_research"@ {
        Some(AssignmentRole::ProductResearch)
    } else if name == "engineering"@ {
        Some(AssignmentRole::Engineering)
    } else if name == "quality"@ {
        Some(AssignmentRole::Quality)
    } else {
        None
    }
}

/// The typed thinking level of a wire thinking level.
pub open spec fn spec_thinking_of(name: Seq<char>) -> Option<ThinkingLevel> {
    if name == "none"@ {
        Some(ThinkingLevel::NoThinking)
    } else if name == "low"@ {
        Some(ThinkingLevel::Low)
    } else if name == "medium"@ {
        Some(ThinkingLevel::Medium)
    } else if name == "high"@ {
        Some(ThinkingLevel::High)
    } else if name == "xhigh"@ {
        Some(ThinkingLevel::XHigh)
    } else {
        None
    }
}

/// The typed terminal operation of a wire operation.
pub open spec fn spec_operation_of(name: Seq<char>) -> Option<TerminalOperation> {
    if name == "work_complete"@ {
        Some(TerminalOperation::WorkComplete)
    } else if name == "candidate_submit"@ {
        Some(TerminalOperation::CandidateSubmit)
    } else if name == "quality_submit_review"@ {
        Some(TerminalOperation::QualitySubmitReview)
    } else {
        None
    }
}

/// The closed list of host tools.
pub open spec fn is_host_tool(name: Seq<char>) -> bool {
    ||| name == "workspace_read"@
    ||| name == "workspace_write"@
    ||| name == "workspace_edit"@
    ||| name == "workspace_search"@
    ||| name == "workspace_list"@
    ||| name == "shell"@
    ||| name == "forum_search"@
    ||| name == "forum_list_topics"@
    ||| name == "forum_list_threads"@
    ||| name == "forum_read_thread"@
    ||| name == "publication_create"@
    ||| name == "artifact_seal"@
    ||| name == "artifact_read"@
    ||| name == "product_submit_ticket"@
    ||| name == "candidate_checkpoint_regression"@
    ||| name == "candidate_submit"@
    ||| name == "quality_run_full_suite"@
    ||| name == "quality_submit_review"@
    ||| name == "work_complete"@
}

/// The typed role of a wire role name.
pub fn role_of(name: &str) -> (role: Option<AssignmentRole>)
    ensures
        role == spec_role_of(name@),
{
    if text_equal(name, "product_research") {
        Some(AssignmentRole::ProductResearch)
    } else if text_equal(name, "engineering") {
        Some(AssignmentRole::Engineering)
    } else if text_equal(name, "quality") {
        Some(AssignmentRole::Quality)
    } else {
        None
    }
}

/// The typed thinking level of a wire thinking level name.
pub fn thinking_of(name: &str) -> (level: Option<ThinkingLevel>)
    ensures
        level == spec_thinking_of(name@),
{
    if text_equal(name, "none") {
        Some(ThinkingLevel::NoThinking)
    } else if text_equal(name, "low") {
        Some(ThinkingLevel::Low)
    } else if text_equal(name, "medium") {
        Some(ThinkingLevel::Medium)
    } else if text_equal(name, "high") {
        Some(ThinkingLevel::High)
    } else if text_equal(name, "xhigh") {
        Some(ThinkingLevel::XHigh)
    } else {
        None
    }
}

/// The typed terminal operation of a wire operation name.
pub fn parse_terminal_operation(name: &str) -> (operation: Option<TerminalOperation>)
    ensures
        operation == spec_operation_of(name@),
{
    if text_equal(name, "work_complete") {
        Some(TerminalOperation::WorkComplete)
    } else if text_equal(name, "candidate_submit") {
        Some(TerminalOperation::CandidateSubmit)
    } else if text_equal(name, "quality_submit_review") {
        Some(TerminalOperation::QualitySubmitReview)
    } else {
        None
    }
}

/// Whether a wire tool name is on the closed list.
pub fn host_tool_ok(name: &str) -> (ok: bool)
    ensures
        ok == is_host_tool(name@),
{
    text_equal(name, "workspace_read") || text_equal(name, "workspace_write") || text_equal(
        name,
        "workspace_edit",
    ) || text_equal(name, "workspace_search") || text_equal(name, "workspace_list") || text_equal(
        name,
        "shell",
    ) || text_equal(name, "forum_search") || text_equal(name, "forum_list_topics") || text_equal(
        name,
        "forum_list_threads",
    ) || text_equal(name, "forum_read_thread") || text_equal(name, "publication_create")
        || text_equal(name, "artifact_seal") || text_equal(name, "artifact_read") || text_equal(
        name,
        "product_submit_ticket",
    ) || text_equal(name, "candidate_checkpoint_regression") || text_equal(name, "candidate_submit")
        || text_equal(name, "quality_run_full_suite") || text_equal(name, "quality_submit_review")
        || text_equal(name, "work_complete")
}

pub open spec fn capabilities_known(wire: Seq<String>) -> bool {
    forall|i: int| 0 <= i < wire.len() ==> (#[trigger] wire[i])@ == "reasoning"@
}

/// The refusal of the item at `at`, if it is the refused one.
pub open spec fn refusal_at(refused: Option<RefusedItem>, at: int) -> Option<ContractError> {
    match refused {
        Some(item) => if item.at == at {
            Some(item.fault)
        } else {
            None
        },
        None => None,
    }
}

/// Why the required reads from `from` on cannot be read, if they cannot. Of
/// each the path is looked at first, and the digest behind it.
pub open spec fn reads_fault(
    wire: Seq<ReadExactFileWire>,
    refused: Option<RefusedItem>,
    from: int,
) -> Option<ContractError>
    decreases wire.len() - from,
{
    if from < 0 || from >= wire.len() {
        None
    } else if refusal_at(refused, from) is Some {
        refusal_at(refused, from)
    } else if !is_digest_text(wire[from].digest@) {
        Some(ContractError::InvalidDigest)
    } else {
        reads_fault(wire, refused, from + 1)
    }
}

pub open spec fn operations_known(wire: Seq<String>) -> bool {
    forall|i: int| 0 <= i < wire.len() ==> spec_operation_of((#[trigger] wire[i])@) is Some
}

pub open spec fn tools_known(wire: Seq<String>) -> bool {
    forall|i: int| 0 <= i < wire.len() ==> is_host_tool((#[trigger] wire[i])@)
}

/// Why the evidence references from `from` on cannot be read, if they cannot.
/// Of each the role is looked at first, then the artifact, then the digest.
pub open spec fn evidence_fault(
    wire: Seq<AssignmentEvidenceWire>,
    refused: Option<RefusedItem>,
    from: int,
) -> Option<ContractError>
    decreases wire.len() - from,
{
    if from < 0 || from >= wire.len() {
        None
    } else if refusal_at(refused, from) is Some {
        refusal_at(refused, from)
    } else if wire[from].artifact_id <= 0 {
        Some(ContractError::NonPositiveIdentity)
    } else if !is_digest_text(wire[from].digest@) {
        Some(ContractError::InvalidDigest)
    } else {
        evidence_fault(wire, refused, from + 1)
    }
}

/// Why one of the identities that head a wire packet is none, if one is. The
/// build digest stands between them.
pub open spec fn wire_identity_fault(wire: AssignmentPacketWire) -> Option<ContractError> {
    if wire.campaign_id <= 0 || wire.assignment_id <= 0 {
        Some(ContractError::NonPositiveIdentity)
    } else if !is_digest_text(wire.kernel_build_id@) {
        Some(ContractError::InvalidDigest)
    } else if wire.application_revision_id <= 0 || (wire.ticket_attempt_id matches Some(id) && id
        <= 0) || (wire.candidate_id matches Some(id) && id <= 0) || wire.system_prompt_artifact_id
        <= 0 || wire.assignment_prompt_artifact_id <= 0 || wire.required_read_manifest_artifact_id
        <= 0 {
        Some(ContractError::NonPositiveIdentity)
    } else {
        None
    }
}

/// Why a field of a wire packet is not a value of its type, if one is not: the
/// first one, in the order of the packet's fields.
pub open spec fn wire_field_fault(wire: AssignmentPacketWire, contract: WireContract) -> Option<
    ContractError,
> {
    if wire_identity_fault(wire) is Some {
        wire_identity_fault(wire)
    } else if contract.workspace_root is Some {
        contract.workspace_root
    } else if contract.staging_root is Some {
        contract.staging_root
    } else if contract.host_executable is Some {
        contract.host_executable
    } else if !is_digest_text(wire.runtime.core_source_digest@) {
        Some(ContractError::InvalidDigest)
    } else if evidence_fault(wire.assignment_evidence@, contract.evidence_role, 0) is Some {
        evidence_fault(wire.assignment_evidence@, contract.evidence_role, 0)
    } else if !is_digest_text(wire.packet_digest@) {
        Some(ContractError::InvalidDigest)
    } else {
        contract.packet
    }
}

/// Why a wire packet cannot be read as a typed packet, if it cannot. Unknown
/// names are identity mismatches, unreadable policy is an invalid packet
/// digest, and a value outside its type is that type's own contract fault.
pub open spec fn wire_fault(wire: AssignmentPacketWire, contract: WireContract) -> Option<
    StoreError,
> {
    if spec_role_of(wire.assignment_role@) is None || spec_thinking_of(
        wire.model.thinking_level@,
    ) is None || !capabilities_known(wire.model.capability_flags@) {
        Some(StoreError::PacketIdentityMismatch)
    } else if reads_fault(wire.required_reads@, contract.required_read_path, 0) is Some {
        Some(
            StoreError::Contract(
                reads_fault(wire.required_reads@, contract.required_read_path, 0)->0,
            ),
        )
    } else if decoded_leniently(encode_utf8(wire.policy_bytes_b64@)) is None || !is_digest_text(
        wire.policy_digest@,
    ) {
        Some(StoreError::InvalidPacketDigest)
    } else if !contract.policy_entrypoint || !operations_known(wire.terminal_operations@)
        || !tools_known(wire.tools@) {
        Some(StoreError::PacketIdentityMismatch)
    } else {
        match wire_field_fault(wire, contract) {
            Some(fault) => Some(StoreError::Contract(fault)),
            None => None,
        }
    }
}

fn read_capabilities(wire: &Vec<String>) -> (result: Option<Vec<ModelCapability>>)
    ensures
        match result {
            Some(flags) => capabilities_known(wire@) && capabilities_map(wire@, flags@),
            None => !capabilities_known(wire@),
        },
{
    let mut flags: Vec<ModelCapability> = Vec::new();
    let mut index: usize = 0;
    while index < wire.len()
        invariant
            index <= wire.len(),
            flags.len() == index,
            forall|i: int|
                0 <= i < index ==> (#[trigger] wire@[i])@ == "reasoning"@ && wire@[i]@
                    == spec_capability_name(flags@[i])@,
        decreases wire.len() - index,
    {
        if !text_equal(wire[index].as_str(), "reasoning") {
            assert(wire@[index as int]@ != "reasoning"@);
            return None;
        }
        flags.push(ModelCapability::Reasoning);
        index += 1;
    }
    Some(flags)
}

fn refused_here(refused: Option<RefusedItem>, at: usize) -> (fault: Option<ContractError>)
    ensures
        fault == refusal_at(refused, at as int),
{
    match refused {
        Some(item) => if item.at == at {
            Some(item.fault)
        } else {
            None
        },
        None => None,
    }
}

fn read_reads(wire: &Vec<ReadExactFileWire>, refused: Option<RefusedItem>) -> (result: Result<
    Vec<ReadExactFile>,
    ContractError,
>)
    ensures
        match result {
            Ok(reads) => reads_fault(wire@, refused, 0) is None && reads_map(wire@, reads@),
            Err(fault) => reads_fault(wire@, refused, 0) == Some(fault),
        },
{
    let mut reads: Vec<ReadExactFile> = Vec::new();
    let mut index: usize = 0;
    while index < wire.len()
        invariant
            index <= wire.len(),
            reads.len() == index,
            reads_fault(wire@, refused, 0) == reads_fault(wire@, refused, index as int),
            forall|i: int| 0 <= i < index ==> read_maps(#[trigger] wire@[i], reads@[i]),
        decreases wire.len() - index,
    {
        let item = &wire[index];
        assert(wire@[index as int] == *item);
        match refused_here(refused, index) {
            Some(fault) => return Err(fault),
            None => {},
        }
        let digest = match ContentDigest::parse_hex(item.digest.as_str()) {
            Some(digest) => digest,
            None => return Err(ContractError::InvalidDigest),
        };
        proof {
            law_digest_text_is_canonical(item.digest@);
        }
        let read = ReadExactFile { path: item.path.clone(), digest, reason: item.reason.clone() };
        reads.push(read);
        index += 1;
    }
    Ok(reads)
}

fn read_operations(wire: &Vec<String>) -> (result: Option<Vec<TerminalOperation>>)
    ensures
        match result {
            Some(operations) => operations_known(wire@) && operations_map(wire@, operations@),
            None => !operations_known(wire@),
        },
{
    let mut operations: Vec<TerminalOperation> = Vec::new();
    let mut index: usize = 0;
    while index < wire.len()
        invariant
            index <= wire.len(),
            operations.len() == index,
            forall|i: int|
                0 <= i < index ==> spec_operation_of((#[trigger] wire@[i])@) is Some && wire@[i]@
                    == spec_terminal_operation_name(operations@[i])@,
        decreases wire.len() - index,
    {
        match parse_terminal_operation(wire[index].as_str()) {
            Some(operation) => {
                operations.push(operation);
            },
            None => {
                assert(spec_operation_of(wire@[index as int]@) is None);
                return None;
            },
        }
        index += 1;
    }
    Some(operations)
}

fn tools_all_known(wire: &Vec<String>) -> (ok: bool)
    ensures
        ok == tools_known(wire@),
{
    let mut index: usize = 0;
    while index < wire.len()
        invariant
            index <= wire.len(),
            forall|i: int| 0 <= i < index ==> is_host_tool((#[trigger] wire@[i])@),
        decreases wire.len() - index,
    {
        if !host_tool_ok(wire[index].as_str()) {
            assert(!is_host_tool(wire@[index as int]@));
            return false;
        }
        index += 1;
    }
    true
}

fn read_evidence(wire: &Vec<AssignmentEvidenceWire>, refused: Option<RefusedItem>) -> (result:
    Result<Vec<AssignmentEvidence>, ContractError>)
    ensures
        match result {
            Ok(evidence) => evidence_fault(wire@, refused, 0) is None && evidence_maps(
                wire@,
                evidence@,
            ),
            Err(fault) => evidence_fault(wire@, refused, 0) == Some(fault),
        },
{
    let mut evidence: Vec<AssignmentEvidence> = Vec::new();
    let mut index: usize = 0;
    while index < wire.len()
        invariant
            index <= wire.len(),
            evidence.len() == index,
            evidence_fault(wire@, refused, 0) == evidence_fault(wire@, refused, index as int),
            forall|i: int| 0 <= i < index ==> evidence_item_maps(#[trigger] wire@[i], evidence@[i]),
        decreases wire.len() - index,
    {
        let item = &wire[index];
        assert(wire@[index as int] == *item);
        match refused_here(refused, index) {
            Some(fault) => return Err(fault),
            None => {},
        }
        let artifact_id = match ArtifactId::new(item.artifact_id) {
            Ok(id) => id,
            Err(fault) => return Err(fault),
        };
        let digest = match ContentDigest::parse_hex(item.digest.as_str()) {
            Some(digest) => digest,
            None => return Err(ContractError::InvalidDigest),
        };
        proof {
            law_digest_text_is_canonical(item.digest@);
        }
        evidence.push(
            AssignmentEvidence {
                role: item.role.clone(),
                artifact_id,
                digest,
                byte_length: item.byte_length,
            },
        );
        index += 1;
    }
    Ok(evidence)
}

fn check_wire_identities(wire: &AssignmentPacketWire) -> (result: Result<
    ContentDigest,
    ContractError,
>)
    ensures
        match result {
            Ok(build) => wire_identity_fault(*wire) is None && is_digest_text(wire.kernel_build_id@)
                && build.bytes@ == digest_bytes(wire.kernel_build_id@),
            Err(fault) => wire_identity_fault(*wire) == Some(fault),
        },
{
    if wire.campaign_id <= 0 || wire.assignment_id <= 0 {
        return Err(ContractError::NonPositiveIdentity);
    }
    let build = match ContentDigest::parse_hex(wire.kernel_build_id.as_str()) {
        Some(digest) => digest,
        None => return Err(ContractError::InvalidDigest),
    };
    let attempt_ok = match wire.ticket_attempt_id {
        Some(id) => id > 0,
        None => true,
    };
    let candidate_ok = match wire.candidate_id {
        Some(id) => id > 0,
        None => true,
    };
    if wire.application_revision_id <= 0 || !attempt_ok || !candidate_ok
        || wire.system_prompt_artifact_id <= 0 || wire.assignment_prompt_artifact_id <= 0
        || wire.required_read_manifest_artifact_id <= 0 {
        return Err(ContractError::NonPositiveIdentity);
    }
    Ok(build)
}

/// Reconstitutes the typed packet from the exact signed wire packet. Every
/// textual discriminant is closed: an unknown one is refused, never defaulted.
#[verifier::rlimit(40)]
pub fn assignment_packet_from_wire(wire: &AssignmentPacketWire, contract: &WireContract) -> (result:
    Result<AssignmentPacket, StoreError>)
    ensures
        match result {
            Err(fault) => wire_fault(*wire, *contract) == Some(fault),
            Ok(packet) => {
                &&& wire_fault(*wire, *contract) is None
                &&& wire_maps(*wire, packet)
                &&& packet.format_version == wire.format_version
            },
        },
{
    let assignment_role = match role_of(wire.assignment_role.as_str()) {
        Some(role) => role,
        None => return Err(StoreError::PacketIdentityMismatch),
    };
    let thinking_level = match thinking_of(wire.model.thinking_level.as_str()) {
        Some(level) => level,
        None => return Err(StoreError::PacketIdentityMismatch),
    };
    let capability_flags = match read_capabilities(&wire.model.capability_flags) {
        Some(flags) => flags,
        None => return Err(StoreError::PacketIdentityMismatch),
    };
    let required_reads = match read_reads(&wire.required_reads, contract.required_read_path) {
        Ok(reads) => reads,
        Err(fault) => return Err(StoreError::Contract(fault)),
    };
    let policy_bytes = match decode_base64_lenient(wire.policy_bytes_b64.as_str()) {
        Some(bytes) => bytes,
        None => return Err(StoreError::InvalidPacketDigest),
    };
    let policy_digest = match ContentDigest::parse_hex(wire.policy_digest.as_str()) {
        Some(digest) => digest,
        None => return Err(StoreError::InvalidPacketDigest),
    };
    if !contract.policy_entrypoint {
        return Err(StoreError::PacketIdentityMismatch);
    }
    let terminal_operations = match read_operations(&wire.terminal_operations) {
        Some(operations) => operations,
        None => return Err(StoreError::PacketIdentityMismatch),
    };
    if !tools_all_known(&wire.tools) {
        return Err(StoreError::PacketIdentityMismatch);
    }
    let build_digest = match check_wire_identities(wire) {
        Ok(digest) => digest,
        Err(fault) => return Err(StoreError::Contract(fault)),
    };
    if let Some(fault) = contract.workspace_root {
        return Err(StoreError::Contract(fault));
    }
    if let Some(fault) = contract.staging_root {
        return Err(StoreError::Contract(fault));
    }
    if let Some(fault) = contract.host_executable {
        return Err(StoreError::Contract(fault));
    }
    let core_source_digest = match ContentDigest::parse_hex(
        wire.runtime.core_source_digest.as_str(),
    ) {
        Some(digest) => digest,
        None => return Err(StoreError::Contract(ContractError::InvalidDigest)),
    };
    let assignment_evidence = match read_evidence(
        &wire.assignment_evidence,
        contract.evidence_role,
    ) {
        Ok(evidence) => evidence,
        Err(fault) => return Err(StoreError::Contract(fault)),
    };
    let packet_digest = match ContentDigest::parse_hex(wire.packet_digest.as_str()) {
        Some(digest) => digest,
        None => return Err(StoreError::Contract(ContractError::InvalidDigest)),
    };
    if let Some(fault) = contract.packet {
        return Err(StoreError::Contract(fault));
    }
    proof {
        law_digest_text_is_canonical(wire.kernel_build_id@);
        law_digest_text_is_canonical(wire.runtime.core_source_digest@);
        law_digest_text_is_canonical(wire.packet_digest@);
        law_digest_text_is_canonical(wire.policy_digest@);
    }
    let ticket_attempt_id = match wire.ticket_attempt_id {
        Some(value) => Some(TicketAttemptId { value }),
        None => None,
    };
    let candidate_id = match wire.candidate_id {
        Some(value) => Some(CandidateId { value }),
        None => None,
    };
    let model = ModelProfile {
        provider: wire.model.provider.clone(),
        model_id: wire.model.model_id.clone(),
        thinking_level,
        context_token_limit: wire.model.context_token_limit,
        output_token_limit: wire.model.output_token_limit,
        price_input_micro_usd_per_million_tokens: MicroUsd {
            value: wire.model.price_input_micro_usd_per_million_tokens,
        },
        price_output_micro_usd_per_million_tokens: MicroUsd {
            value: wire.model.price_output_micro_usd_per_million_tokens,
        },
        price_cache_read_micro_usd_per_million_tokens: MicroUsd {
            value: wire.model.price_cache_read_micro_usd_per_million_tokens,
        },
        price_cache_write_micro_usd_per_million_tokens: MicroUsd {
            value: wire.model.price_cache_write_micro_usd_per_million_tokens,
        },
        capability_flags,
    };
    let runtime = RuntimeIdentity {
        host_executable: wire.runtime.host_executable.clone(),
        core_head: wire.runtime.core_head.clone(),
        core_source_digest,
        rust_toolchain: wire.runtime.rust_toolchain.clone(),
        credential_env: wire.runtime.credential_env.clone(),
    };
    Ok(
        AssignmentPacket {
            format_version: wire.format_version,
            campaign_id: CampaignId { value: wire.campaign_id },
            assignment_id: AssignmentId { value: wire.assignment_id },
            kernel_build_id: KernelBuildId { digest: build_digest },
            application_revision_id: ApplicationRevisionId { value: wire.application_revision_id },
            assignment_role,
            target: wire.target.clone(),
            ticket_attempt_id,
            candidate_id,
            system_prompt_artifact_id: ArtifactId { value: wire.system_prompt_artifact_id },
            assignment_prompt_artifact_id: ArtifactId { value: wire.assignment_prompt_artifact_id },
            required_read_manifest_artifact_id: ArtifactId {
                value: wire.required_read_manifest_artifact_id,
            },
            policy_digest,
            policy_byte_limit: wire.policy_byte_limit,
            policy_bytes,
            policy_entrypoint: wire.policy_entrypoint.clone(),
            workspace_root: wire.workspace_root.clone(),
            staging_root: wire.staging_root.clone(),
            model,
            limits: wire.limits,
            runtime,
            required_reads,
            assignment_evidence,
            terminal_operations,
            remaining_campaign_allowance: MicroUsd {
                value: wire.remaining_campaign_allowance_micro_usd,
            },
            revision: AggregateRevision { value: wire.aggregate_revision },
            packet_digest,
        },
    )
}

/// A packet read from a wire packet passes the comparison with that wire
/// packet.
pub proof fn law_reconstituted_packet_verifies(
    wire: AssignmentPacketWire,
    contract: WireContract,
    packet: AssignmentPacket,
)
    requires
        wire_fault(wire, contract) is None,
        wire_maps(wire, packet),
    ensures
        spec_verify_wire_domain_mapping(wire, packet) == Ok::<(), StoreError>(()),
{
}

/// One entry of the required-read manifest.
pub open spec fn manifest_entry(read: ReadExactFile) -> Seq<u8> {
    be32(encode_utf8(read.path@).len() as u32) + encode_utf8(read.path@) + read.digest.bytes@
        + be32(encode_utf8(read.reason@).len() as u32) + encode_utf8(read.reason@)
}

/// The entries of a list of reads, in order.
pub open spec fn manifest_entries(reads: Seq<ReadExactFile>) -> Seq<u8>
    decreases reads.len(),
{
    if reads.len() == 0 {
        Seq::empty()
    } else {
        manifest_entries(reads.drop_last()) + manifest_entry(reads.last())
    }
}

/// The domain tag that begins every required-read manifest.
pub const READ_MANIFEST_TAG: &'static str = "factory-read-manifest-v1\0";

/// The canonical bytes of a required-read manifest.
pub open spec fn manifest_bytes(reads: Seq<ReadExactFile>) -> Seq<u8> {
    encode_utf8(READ_MANIFEST_TAG@) + be32(reads.len() as u32) + manifest_entries(reads)
}

/// Canonical immutable required-read manifest bytes. Lengths are written in
/// four bytes.
pub fn canonical_required_manifest(required: &[ReadExactFile]) -> (bytes: Vec<u8>)
    ensures
        bytes@ == manifest_bytes(required@),
{
    let mut bytes: Vec<u8> = Vec::new();
    push_text(&mut bytes, READ_MANIFEST_TAG);
    push_u32(&mut bytes, #[verifier::truncate] (required.len() as u32));
    let ghost head = bytes@;
    assert(head =~= encode_utf8(READ_MANIFEST_TAG@) + be32(required@.len() as u32));
    let mut index: usize = 0;
    assert(required@.take(0) =~= Seq::empty());
    assert(head + manifest_entries(required@.take(0)) =~= head);
    while index < required.len()
        invariant
            index <= required.len(),
            bytes@ == head + manifest_entries(required@.take(index as int)),
        decreases required.len() - index,
    {
        let item = &required[index];
        let ghost before = bytes@;
        let path = item.path.as_str().as_bytes();
        push_u32(&mut bytes, #[verifier::truncate] (path.len() as u32));
        push_bytes(&mut bytes, path);
        push_bytes(&mut bytes, item.digest.bytes.as_slice());
        let reason = item.reason.as_str().as_bytes();
        push_u32(&mut bytes, #[verifier::truncate] (reason.len() as u32));
        push_bytes(&mut bytes, reason);
        assert(bytes@ =~= before + manifest_entry(*item));
        proof {
            let taken = required@.take(index as int + 1);
            assert(taken.drop_last() =~= required@.take(index as int));
            assert(taken.last() == *item);
            assert(head + (manifest_entries(required@.take(index as int)) + manifest_entry(*item))
                =~= before + manifest_entry(*item));
        }
        index += 1;
    }
    assert(required@.take(index as int) =~= required@);
    assert(bytes@ =~= manifest_bytes(required@));
    bytes
}

/// A wire packet spells a packet exactly when every field does: identities,
/// model and prices, limits and runtime, policy, and the reads, operations and
/// evidence item by item.
pub proof fn law_wire_packet_spells_every_field(
    wire: AssignmentPacketWire,
    packet: AssignmentPacket,
)
    ensures
        spec_verify_wire_domain_mapping(wire, packet) is Ok <==> {
            &&& is_digest_text(wire.kernel_build_id@) && is_digest_text(wire.packet_digest@)
                && is_digest_text(wire.policy_digest@)
            &&& wire.campaign_id == packet.campaign_id.value
            &&& wire.assignment_id == packet.assignment_id.value
            &&& wire.application_revision_id == packet.application_revision_id.value
            &&& wire.kernel_build_id@ == hex_of(packet.kernel_build_id.digest.bytes@)
            &&& wire.assignment_role@ == (match packet.assignment_role {
                AssignmentRole::ProductResearch => "product_research"@,
                AssignmentRole::Engineering => "engineering"@,
                AssignmentRole::Quality => "quality"@,
            })
            &&& wire.target@ == packet.target@
            &&& wire.ticket_attempt_id is Some <==> packet.ticket_attempt_id is Some
            &&& wire.ticket_attempt_id matches Some(id) ==> id == packet.ticket_attempt_id->0.value
            &&& wire.candidate_id is Some <==> packet.candidate_id is Some
            &&& wire.candidate_id matches Some(id) ==> id == packet.candidate_id->0.value
            &&& wire.system_prompt_artifact_id == packet.system_prompt_artifact_id.value
            &&& wire.assignment_prompt_artifact_id == packet.assignment_prompt_artifact_id.value
            &&& wire.required_read_manifest_artifact_id
                == packet.required_read_manifest_artifact_id.value
            &&& wire.workspace_root@ == packet.workspace_root@
            &&& wire.staging_root@ == packet.staging_root@
            &&& wire.remaining_campaign_allowance_micro_usd
                == packet.remaining_campaign_allowance.value
            &&& wire.aggregate_revision == packet.revision.value
            &&& wire.packet_digest@ == hex_of(packet.packet_digest.bytes@)
            &&& wire.model.provider@ == packet.model.provider@
            &&& wire.model.model_id@ == packet.model.model_id@
            &&& wire.model.thinking_level@ == (match packet.model.thinking_level {
                ThinkingLevel::NoThinking => "none"@,
                ThinkingLevel::Low => "low"@,
                ThinkingLevel::Medium => "medium"@,
                ThinkingLevel::High => "high"@,
                ThinkingLevel::XHigh => "xhigh"@,
            })
            &&& wire.model.context_token_limit == packet.model.context_token_limit
            &&& wire.model.output_token_limit == packet.model.output_token_limit
            &&& wire.model.price_input_micro_usd_per_million_tokens
                == packet.model.price_input_micro_usd_per_million_tokens.value
            &&& wire.model.price_output_micro_usd_per_million_tokens
                == packet.model.price_output_micro_usd_per_million_tokens.value
            &&& wire.model.price_cache_read_micro_usd_per_million_tokens
                == packet.model.price_cache_read_micro_usd_per_million_tokens.value
            &&& wire.model.price_cache_write_micro_usd_per_million_tokens
                == packet.model.price_cache_write_micro_usd_per_million_tokens.value
            &&& wire.model.capability_flags@.len() == packet.model.capability_flags@.len()
            &&& forall|i: int|
                0 <= i < wire.model.capability_flags@.len() ==> (
                #[trigger] wire.model.capability_flags@[i])@ == "reasoning"@
            &&& wire.limits == packet.limits
            &&& wire.runtime.host_executable@ == packet.runtime.host_executable@
            &&& wire.runtime.core_head@ == packet.runtime.core_head@
            &&& wire.runtime.core_source_digest@ == hex_of(packet.runtime.core_source_digest.bytes@)
            &&& wire.runtime.rust_toolchain@ == packet.runtime.rust_toolchain@
            &&& wire.runtime.credential_env@ == packet.runtime.credential_env@
            &&& wire.policy_digest@ == hex_of(packet.policy_digest.bytes@)
            &&& wire.policy_byte_limit == packet.policy_byte_limit
            &&& decoded_leniently(encode_utf8(wire.policy_bytes_b64@)) == Some(packet.policy_bytes@)
            &&& wire.policy_entrypoint@ == packet.policy_entrypoint@
            &&& wire.required_reads@.len() == packet.required_reads@.len()
            &&& forall|i: int|
                0 <= i < wire.required_reads@.len() ==> {
                    &&& (#[trigger] wire.required_reads@[i]).path@ == packet.required_reads@[i].path@
                    &&& wire.required_reads@[i].digest@ == hex_of(
                        packet.required_reads@[i].digest.bytes@,
                    )
                    &&& wire.required_reads@[i].reason@ == packet.required_reads@[i].reason@
                }
            &&& wire.terminal_operations@.len() == packet.terminal_operations@.len()
            &&& forall|i: int|
                0 <= i < wire.terminal_operations@.len() ==> (
                #[trigger] wire.terminal_operations@[i])@ == (
                match packet.terminal_operations@[i] {
                    TerminalOperation::WorkComplete => "work_complete"@,
                    TerminalOperation::CandidateSubmit => "candidate_submit"@,
                    TerminalOperation::QualitySubmitReview => "quality_submit_review"@,
                })
            &&& wire.assignment_evidence@.len() == packet.assignment_evidence@.len()
            &&& forall|i: int|
                0 <= i < wire.assignment_evidence@.len() ==> {
                    &&& (#[trigger] wire.assignment_evidence@[i]).role@
                        == packet.assignment_evidence@[i].role@
                    &&& wire.assignment_evidence@[i].artifact_id
                        == packet.assignment_evidence@[i].artifact_id.value
                    &&& wire.assignment_evidence@[i].digest@ == hex_of(
                        packet.assignment_evidence@[i].digest.bytes@,
                    )
                    &&& wire.assignment_evidence@[i].byte_length
                        == packet.assignment_evidence@[i].byte_length
                }
        },
{
}

/// Roles, thinking levels and terminal operations are read by their own names,
/// and every such name is read.
pub proof fn law_wire_names_are_read(name: Seq<char>)
    ensures
        spec_role_of(name) == Some(AssignmentRole::ProductResearch) ==> name
            == "product_research"@,
        spec_role_of(name) == Some(AssignmentRole::Engineering) ==> name == "engineering"@,
        spec_role_of(name) == Some(AssignmentRole::Quality) ==> name == "quality"@,
        spec_role_of(name) is Some <==> name == "product_research"@ || name == "engineering"@
            || name == "quality"@,
        spec_thinking_of(name) == Some(ThinkingLevel::NoThinking) ==> name == "none"@,
        spec_thinking_of(name) == Some(ThinkingLevel::Low) ==> name == "low"@,
        spec_thinking_of(name) == Some(ThinkingLevel::Medium) ==> name == "medium"@,
        spec_thinking_of(name) == Some(ThinkingLevel::High) ==> name == "high"@,
        spec_thinking_of(name) == Some(ThinkingLevel::XHigh) ==> name == "xhigh"@,
        spec_thinking_of(name) is Some <==> name == "none"@ || name == "low"@ || name == "medium"@
            || name == "high"@ || name == "xhigh"@,
        spec_operation_of(name) == Some(TerminalOperation::WorkComplete) ==> name
            == "work_complete"@,
        spec_operation_of(name) == Some(TerminalOperation::CandidateSubmit) ==> name
            == "candidate_submit"@,
        spec_operation_of(name) == Some(TerminalOperation::QualitySubmitReview) ==> name
            == "quality_submit_review"@,
        spec_operation_of(name) is Some <==> name == "work_complete"@ || name
            == "candidate_submit"@ || name == "quality_submit_review"@,
        is_host_tool(name) <==> {
            ||| name == "workspace_read"@ || name == "workspace_write"@ || name
                == "workspace_edit"@ || name == "workspace_search"@ || name == "workspace_list"@
            ||| name == "shell"@
            ||| name == "forum_search"@ || name == "forum_list_topics"@ || name
                == "forum_list_threads"@ || name == "forum_read_thread"@
            ||| name == "publication_create"@
            ||| name == "artifact_seal"@ || name == "artifact_read"@
            ||| name == "product_submit_ticket"@
            ||| name == "candidate_checkpoint_regression"@ || name == "candidate_submit"@
            ||| name == "quality_run_full_suite"@ || name == "quality_submit_review"@
            ||| name == "work_complete"@
        },
{
}

/// A wire packet is read exactly when every name in it is known, every identity
/// positive, every digest written in full, its policy decodes, and none of its
/// paths, roles and bounds is refused.
pub proof fn law_wire_packet_is_read_exactly_when_sound(
    wire: AssignmentPacketWire,
    contract: WireContract,
)
    ensures
        wire_fault(wire, contract) is None <==> {
            &&& spec_role_of(wire.assignment_role@) is Some
            &&& spec_thinking_of(wire.model.thinking_level@) is Some
            &&& forall|i: int|
                0 <= i < wire.model.capability_flags@.len() ==> (
                #[trigger] wire.model.capability_flags@[i])@ == "reasoning"@
            &&& contract.required_read_path matches Some(item) ==> item.at
                >= wire.required_reads@.len()
            &&& forall|i: int|
                0 <= i < wire.required_reads@.len() ==> is_digest_text(
                    (#[trigger] wire.required_reads@[i]).digest@,
                )
            &&& decoded_leniently(encode_utf8(wire.policy_bytes_b64@)) is Some
            &&& is_digest_text(wire.policy_digest@)
            &&& contract.policy_entrypoint
            &&& forall|i: int|
                0 <= i < wire.terminal_operations@.len() ==> spec_operation_of(
                    (#[trigger] wire.terminal_operations@[i])@,
                ) is Some
            &&& forall|i: int|
                0 <= i < wire.tools@.len() ==> is_host_tool((#[trigger] wire.tools@[i])@)
            &&& wire.campaign_id > 0 && wire.assignment_id > 0
            &&& is_digest_text(wire.kernel_build_id@)
            &&& wire.application_revision_id > 0
            &&& wire.ticket_attempt_id matches Some(id) ==> id > 0
            &&& wire.candidate_id matches Some(id) ==> id > 0
            &&& wire.system_prompt_artifact_id > 0 && wire.assignment_prompt_artifact_id > 0
            &&& wire.required_read_manifest_artifact_id > 0
            &&& contract.workspace_root is None && contract.staging_root is None
            &&& contract.host_executable is None
            &&& is_digest_text(wire.runtime.core_source_digest@)
            &&& contract.evidence_role matches Some(item) ==> item.at
                >= wire.assignment_evidence@.len()
            &&& forall|i: int|
                0 <= i < wire.assignment_evidence@.len() ==> (
                #[trigger] wire.assignment_evidence@[i]).artifact_id > 0 && is_digest_text(
                    wire.assignment_evidence@[i].digest@,
                )
            &&& is_digest_text(wire.packet_digest@)
            &&& contract.packet is None
        },
{
    lemma_reads_are_sound(wire.required_reads@, contract.required_read_path, 0);
    lemma_evidence_is_sound(wire.assignment_evidence@, contract.evidence_role, 0);
}

proof fn lemma_reads_are_sound(
    wire: Seq<ReadExactFileWire>,
    refused: Option<RefusedItem>,
    from: int,
)
    requires
        0 <= from,
    ensures
        reads_fault(wire, refused, from) is None <==> {
            &&& refused matches Some(item) ==> !(from <= item.at < wire.len())
            &&& forall|i: int|
                from <= i < wire.len() ==> is_digest_text((#[trigger] wire[i]).digest@)
        },
    decreases wire.len() - from,
{
    if from < wire.len() {
        lemma_reads_are_sound(wire, refused, from + 1);
        let read = wire[from];
    }
}

proof fn lemma_evidence_is_sound(
    wire: Seq<AssignmentEvidenceWire>,
    refused: Option<RefusedItem>,
    from: int,
)
    requires
        0 <= from,
    ensures
        evidence_fault(wire, refused, from) is None <==> {
            &&& refused matches Some(item) ==> !(from <= item.at < wire.len())
            &&& forall|i: int|
                from <= i < wire.len() ==> (#[trigger] wire[i]).artifact_id > 0 && is_digest_text(
                    wire[i].digest@,
                )
        },
    decreases wire.len() - from,
{
    if from < wire.len() {
        lemma_evidence_is_sound(wire, refused, from + 1);
        let item = wire[from];
    }
}

/// A manifest of required reads counts them and lists each, one behind the
/// other, by path, digest and reason.
pub proof fn law_manifest_lists_its_reads(reads: Seq<ReadExactFile>, read: ReadExactFile)
    ensures
        manifest_bytes(Seq::empty()) == encode_utf8("factory-read-manifest-v1\0"@) + be32(0),
        manifest_bytes(reads) == encode_utf8("factory-read-manifest-v1\0"@) + be32(
            reads.len() as u32,
        ) + manifest_entries(reads),
        manifest_entries(reads.push(read)) == manifest_entries(reads) + (be32(
            encode_utf8(read.path@).len() as u32,
        ) + encode_utf8(read.path@) + read.digest.bytes@ + be32(
            encode_utf8(read.reason@).len() as u32,
        ) + encode_utf8(read.reason@)),
{
    assert(reads.push(read).drop_last() =~= reads);
    let none = Seq::<ReadExactFile>::empty();
    assert(manifest_bytes(none) =~= encode_utf8(READ_MANIFEST_TAG@) + be32(0));
}

} // verus!
