//! What an actor may ask of its session: which operation a framed request
//! names, which gates stand before it, and what a refusal is answered.

use vstd::prelude::*;
use vstd::string::StringExecFns;
use vstd::utf8::encode_utf8;

use crate::base64::{decode_base64, decoded};
use crate::digest::{hex_of, is_digest_text, digest_bytes, ContentDigest};
use crate::error::StoreError;
use crate::identity::{
    AggregateRevision, ApplicationRevisionId, ArtifactId, AssignmentId, CampaignId, CasArtifact,
    ContractError, SessionId,
};
use crate::packet::{
    parse_terminal_operation, spec_operation_of, AssignmentPacket, AssignmentPacketWire,
};
use crate::protocol::{AssignmentRole, StopReason, TerminalOperation};
use crate::session::{spec_verify_packet_bytes, verify_packet_bytes};
use crate::session_state::{EngineeringSessionState, QualitySessionState};
use crate::text::{bytes_equal, push_decimal_i64, text_equal};

verus! {

/// The protocol version every answer to an actor carries.
pub const PROTOCOL_VERSION_V1: u16 = 1;

pub const OP_SESSION_VERIFY_PACKET: &'static str = "session.verify_packet";

pub const OP_SESSION_SEAL_ARTIFACT: &'static str = "session.seal_artifact";

pub const OP_ARTIFACT_SEAL_WORKSPACE_FILE: &'static str = "artifact.seal_workspace_file";

pub const OP_ARTIFACT_READ: &'static str = "artifact.read";

pub const OP_PRODUCT_SUBMIT_TICKET: &'static str = "product.submit_ticket";

pub const OP_CANDIDATE_CHECKPOINT_REGRESSION: &'static str = "candidate.checkpoint_regression";

pub const OP_CANDIDATE_SUBMIT: &'static str = "candidate.submit";

pub const OP_QUALITY_RUN_FULL_SUITE: &'static str = "quality.run_full_suite";

pub const OP_QUALITY_SUBMIT_REVIEW: &'static str = "quality.submit_review";

pub const OP_SESSION_SUBMIT_TERMINAL: &'static str = "session.submit_terminal";

pub const OP_WORKSPACE_READ: &'static str = "workspace.read";

pub const OP_FORUM_SEARCH: &'static str = "forum.search";

pub const OP_FORUM_LIST_TOPICS: &'static str = "forum.list_topics";

pub const OP_FORUM_LIST_THREADS: &'static str = "forum.list_threads";

pub const OP_FORUM_READ_THREAD: &'static str = "forum.read_thread";

pub const OP_FORUM_CREATE_TOPIC: &'static str = "forum.create_topic";

pub const OP_FORUM_CREATE_THREAD: &'static str = "forum.create_thread";

pub const OP_FORUM_POST: &'static str = "forum.post";

/// Label of the refusals that belong to no single operation.
pub const SESSION_SCOPE: &'static str = "session";

/// Label of the refusals made by candidate and review work.
pub const CANDIDATE_SCOPE: &'static str = "candidate_quality";

/// The one artifact role an actor may seal out of its staging directory.
pub const TRANSCRIPT_ROLE: &'static str = "pi_transcript_gzip";

/// Code of the answer to a refused session request.
pub const SESSION_REJECTED: &'static str = "session_rejected";

/// Code of the answer to a refused workspace read.
pub const WORKSPACE_READ_REJECTED: &'static str = "workspace_read_rejected";

/// A refusal in fixed words.
#[derive(Clone, Copy, Debug, PartialEq, Eq)]
pub struct RpcRefusal {
    pub operation: &'static str,
    pub detail: &'static str,
}

/// Why a framed request fails.
#[allow(inconsistent_fields)]
#[derive(Clone, Debug, PartialEq, Eq)]
pub enum RpcError {
    /// The request is refused; the connection stays open.
    Refused(RpcRefusal),
    /// The request is refused because a stored value breaks its contract; the
    /// connection stays open.
    Contract { operation: &'static str, fault: ContractError },
    /// Custody, binding or storage failed; the connection is lost.
    Store(StoreError),
}

/// An actor operation of a session.
#[derive(Clone, Copy, Debug, PartialEq, Eq)]
pub enum SessionOperation {
    VerifyPacket,
    SealArtifact,
    SealWorkspaceFile,
    ReadArtifact,
    SubmitProductTicket,
    CheckpointRegression,
    SubmitCandidate,
    RunQualityFullSuite,
    SubmitQualityReview,
    SubmitTerminal,
    /// A forum operation, by the tool that grants it.
    Forum { tool: &'static str },
}

/// The tool that grants a forum operation.
pub open spec fn spec_forum_tool_name(operation: Seq<char>) -> Option<&'static str> {
    if operation == OP_FORUM_SEARCH@ {
        Some("forum_search")
    } else if operation == OP_FORUM_LIST_TOPICS@ {
        Some("forum_list_topics")
    } else if operation == OP_FORUM_LIST_THREADS@ {
        Some("forum_list_threads")
    } else if operation == OP_FORUM_READ_THREAD@ {
        Some("forum_read_thread")
    } else if operation == OP_FORUM_CREATE_TOPIC@ {
        Some("forum_create_topic")
    } else if operation == OP_FORUM_CREATE_THREAD@ {
        Some("forum_create_thread")
    } else if operation == OP_FORUM_POST@ {
        Some("forum_post")
    } else {
        None
    }
}

/// The tool that grants a forum operation, if `operation` is one.
pub fn forum_tool_name(operation: &str) -> (tool: Option<&'static str>)
    ensures
        tool == spec_forum_tool_name(operation@),
{
    if text_equal(operation, OP_FORUM_SEARCH) {
        Some("forum_search")
    } else if text_equal(operation, OP_FORUM_LIST_TOPICS) {
        Some("forum_list_topics")
    } else if text_equal(operation, OP_FORUM_LIST_THREADS) {
        Some("forum_list_threads")
    } else if text_equal(operation, OP_FORUM_READ_THREAD) {
        Some("forum_read_thread")
    } else if text_equal(operation, OP_FORUM_CREATE_TOPIC) {
        Some("forum_create_topic")
    } else if text_equal(operation, OP_FORUM_CREATE_THREAD) {
        Some("forum_create_thread")
    } else if text_equal(operation, OP_FORUM_POST) {
        Some("forum_post")
    } else {
        None
    }
}

/// Whether `tools` names `tool`.
pub open spec fn grants(tools: Seq<String>, tool: Seq<char>) -> bool {
    exists|i: int| 0 <= i < tools.len() && #[trigger] tools[i]@ == tool
}

/// Whether the assigned tools name `tool`.
pub fn tool_granted(tools: &Vec<String>, tool: &str) -> (granted: bool)
    ensures
        granted == grants(tools@, tool@),
{
    let mut index: usize = 0;
    while index < tools.len()
        invariant
            index <= tools.len(),
            forall|i: int| 0 <= i < index ==> #[trigger] tools@[i]@ != tool@,
        decreases tools.len() - index,
    {
        if text_equal(tools[index].as_str(), tool) {
            assert(tools@[index as int]@ == tool@);
            return true;
        }
        index += 1;
    }
    false
}

/// The operation a request names, or why no session serves it.
pub open spec fn spec_route_operation(operation: Seq<char>, tools: Seq<String>) -> Result<
    SessionOperation,
    RpcRefusal,
> {
    if operation == OP_SESSION_VERIFY_PACKET@ {
        Ok(SessionOperation::VerifyPacket)
    } else if operation == OP_SESSION_SEAL_ARTIFACT@ {
        Ok(SessionOperation::SealArtifact)
    } else if operation == OP_ARTIFACT_SEAL_WORKSPACE_FILE@ {
        Ok(SessionOperation::SealWorkspaceFile)
    } else if operation == OP_ARTIFACT_READ@ {
        Ok(SessionOperation::ReadArtifact)
    } else if operation == OP_PRODUCT_SUBMIT_TICKET@ {
        Ok(SessionOperation::SubmitProductTicket)
    } else if operation == OP_CANDIDATE_CHECKPOINT_REGRESSION@ {
        Ok(SessionOperation::CheckpointRegression)
    } else if operation == OP_CANDIDATE_SUBMIT@ {
        Ok(SessionOperation::SubmitCandidate)
    } else if operation == OP_QUALITY_RUN_FULL_SUITE@ {
        Ok(SessionOperation::RunQualityFullSuite)
    } else if operation == OP_QUALITY_SUBMIT_REVIEW@ {
        Ok(SessionOperation::SubmitQualityReview)
    } else if operation == OP_SESSION_SUBMIT_TERMINAL@ {
        Ok(SessionOperation::SubmitTerminal)
    } else {
        match spec_forum_tool_name(operation) {
            Some(tool) => if grants(tools, tool@) {
                Ok(SessionOperation::Forum { tool })
            } else {
                Err(RpcRefusal { operation: "forum", detail: "Forum operation is not assigned" })
            },
            None => Err(
                RpcRefusal {
                    operation: SESSION_SCOPE,
                    detail: "operation is outside session authority",
                },
            ),
        }
    }
}

/// Routes a framed request to the operation that serves it.
pub fn route_operation(operation: &str, tools: &Vec<String>) -> (result: Result<
    SessionOperation,
    RpcRefusal,
>)
    ensures
        result == spec_route_operation(operation@, tools@),
{
    if text_equal(operation, OP_SESSION_VERIFY_PACKET) {
        return Ok(SessionOperation::VerifyPacket);
    }
    if text_equal(operation, OP_SESSION_SEAL_ARTIFACT) {
        return Ok(SessionOperation::SealArtifact);
    }
    if text_equal(operation, OP_ARTIFACT_SEAL_WORKSPACE_FILE) {
        return Ok(SessionOperation::SealWorkspaceFile);
    }
    if text_equal(operation, OP_ARTIFACT_READ) {
        return Ok(SessionOperation::ReadArtifact);
    }
    if text_equal(operation, OP_PRODUCT_SUBMIT_TICKET) {
        return Ok(SessionOperation::SubmitProductTicket);
    }
    if text_equal(operation, OP_CANDIDATE_CHECKPOINT_REGRESSION) {
        return Ok(SessionOperation::CheckpointRegression);
    }
    if text_equal(operation, OP_CANDIDATE_SUBMIT) {
        return Ok(SessionOperation::SubmitCandidate);
    }
    if text_equal(operation, OP_QUALITY_RUN_FULL_SUITE) {
        return Ok(SessionOperation::RunQualityFullSuite);
    }
    if text_equal(operation, OP_QUALITY_SUBMIT_REVIEW) {
        return Ok(SessionOperation::SubmitQualityReview);
    }
    if text_equal(operation, OP_SESSION_SUBMIT_TERMINAL) {
        return Ok(SessionOperation::SubmitTerminal);
    }
    match forum_tool_name(operation) {
        Some(tool) => if tool_granted(tools, tool) {
            Ok(SessionOperation::Forum { tool })
        } else {
            Err(RpcRefusal { operation: "forum", detail: "Forum operation is not assigned" })
        },
        None => Err(
            RpcRefusal {
                operation: SESSION_SCOPE,
                detail: "operation is outside session authority",
            },
        ),
    }
}

/// The identity an actor connection was bound to.
#[derive(Clone, Copy, Debug, PartialEq, Eq)]
pub struct ActorBinding {
    pub session_id: SessionId,
    pub assignment_id: AssignmentId,
    pub application_revision_id: ApplicationRevisionId,
    pub campaign_id: CampaignId,
    pub assignment_role: AssignmentRole,
}

/// Whether a connection belongs to this session of this packet.
pub open spec fn binding_matches(
    binding: ActorBinding,
    session_id: SessionId,
    packet: AssignmentPacket,
) -> bool {
    &&& binding.session_id == session_id
    &&& binding.assignment_id == packet.assignment_id
    &&& binding.application_revision_id == packet.application_revision_id
    &&& binding.campaign_id == packet.campaign_id
    &&& binding.assignment_role == packet.assignment_role
}

/// Refuses a connection that belongs to another session.
pub fn verify_binding(
    binding: &ActorBinding,
    session_id: SessionId,
    packet: &AssignmentPacket,
) -> (result: Result<(), StoreError>)
    ensures
        result == (if binding_matches(*binding, session_id, *packet) {
            Ok::<(), StoreError>(())
        } else {
            Err(StoreError::PacketIdentityMismatch)
        }),
{
    if binding.session_id.value != session_id.value || binding.assignment_id.value
        != packet.assignment_id.value || binding.application_revision_id.value
        != packet.application_revision_id.value || binding.campaign_id.value
        != packet.campaign_id.value || binding.assignment_role != packet.assignment_role {
        return Err(StoreError::PacketIdentityMismatch);
    }
    Ok(())
}

/// What is known of a session's required reads.
#[derive(Clone, Copy, Debug, PartialEq, Eq, Structural)]
pub enum RequiredReads {
    /// The authority that records reads failed.
    Poisoned,
    /// The authority that records reads has been taken away.
    Unavailable,
    /// Some assigned exact read is missing.
    Incomplete,
    Satisfied,
}

/// Refuses a mutation before every assigned exact read has been made.
pub fn require_required_reads_before_mutation(
    operation: &'static str,
    reads: RequiredReads,
) -> (result: Result<(), RpcRefusal>)
    ensures
        result == spec_required_reads(operation, reads),
{
    match reads {
        RequiredReads::Poisoned => Err(
            RpcRefusal { operation, detail: "required-read authority is poisoned" },
        ),
        RequiredReads::Unavailable => Err(
            RpcRefusal { operation, detail: "required-read authority is unavailable" },
        ),
        RequiredReads::Incomplete => Err(
            RpcRefusal {
                operation,
                detail: "all assigned exact reads are required before mutation",
            },
        ),
        RequiredReads::Satisfied => Ok(()),
    }
}

/// Mutations wait for the required reads.
pub open spec fn spec_required_reads(operation: &'static str, reads: RequiredReads) -> Result<
    (),
    RpcRefusal,
> {
    match reads {
        RequiredReads::Poisoned => Err(
            RpcRefusal { operation, detail: "required-read authority is poisoned" },
        ),
        RequiredReads::Unavailable => Err(
            RpcRefusal { operation, detail: "required-read authority is unavailable" },
        ),
        RequiredReads::Incomplete => Err(
            RpcRefusal {
                operation,
                detail: "all assigned exact reads are required before mutation",
            },
        ),
        RequiredReads::Satisfied => Ok(()),
    }
}

/// Refuses an operation before the actor has verified its packet.
pub fn require_packet_verified(packet_verified: bool) -> (result: Result<(), RpcRefusal>)
    ensures
        result == spec_packet_verified(packet_verified),
{
    if packet_verified {
        Ok(())
    } else {
        Err(RpcRefusal { operation: SESSION_SCOPE, detail: "packet has not been verified" })
    }
}

/// Operations wait for the packet to be verified.
pub open spec fn spec_packet_verified(packet_verified: bool) -> Result<(), RpcRefusal> {
    if packet_verified {
        Ok(())
    } else {
        Err(RpcRefusal { operation: SESSION_SCOPE, detail: "packet has not been verified" })
    }
}

/// An operation that changes durable state.
#[derive(Clone, Copy, Debug, PartialEq, Eq, Structural)]
pub enum Mutation {
    SubmitProductTicket,
    CheckpointRegression,
    SubmitCandidate,
    RunQualityFullSuite,
    SubmitQualityReview,
}

/// The role a mutation belongs to.
pub open spec fn mutation_role(mutation: Mutation) -> AssignmentRole {
    match mutation {
        Mutation::SubmitProductTicket => AssignmentRole::ProductResearch,
        Mutation::CheckpointRegression | Mutation::SubmitCandidate => AssignmentRole::Engineering,
        Mutation::RunQualityFullSuite | Mutation::SubmitQualityReview => AssignmentRole::Quality,
    }
}

/// The tool that grants a mutation.
pub open spec fn mutation_tool(mutation: Mutation) -> &'static str {
    match mutation {
        Mutation::SubmitProductTicket => "product_submit_ticket",
        Mutation::CheckpointRegression => "candidate_checkpoint_regression",
        Mutation::SubmitCandidate => "candidate_submit",
        Mutation::RunQualityFullSuite => "quality_run_full_suite",
        Mutation::SubmitQualityReview => "quality_submit_review",
    }
}

/// The operation name of a mutation.
pub open spec fn mutation_operation(mutation: Mutation) -> &'static str {
    match mutation {
        Mutation::SubmitProductTicket => OP_PRODUCT_SUBMIT_TICKET,
        Mutation::CheckpointRegression => OP_CANDIDATE_CHECKPOINT_REGRESSION,
        Mutation::SubmitCandidate => OP_CANDIDATE_SUBMIT,
        Mutation::RunQualityFullSuite => OP_QUALITY_RUN_FULL_SUITE,
        Mutation::SubmitQualityReview => OP_QUALITY_SUBMIT_REVIEW,
    }
}

/// What a mutation is answered in a session that was not given it.
pub open spec fn unassigned_mutation(mutation: Mutation) -> RpcRefusal {
    RpcRefusal {
        operation: mutation_operation(mutation),
        detail: match mutation {
            Mutation::SubmitProductTicket => "Product submission is not assigned to this office",
            Mutation::CheckpointRegression => {
                "Engineering regression checkpoint is not assigned to this office"
            },
            Mutation::SubmitCandidate => {
                "Engineering candidate submission is not assigned to this office"
            },
            Mutation::RunQualityFullSuite => {
                "Quality full-suite execution is not assigned to this office"
            },
            Mutation::SubmitQualityReview => {
                "Quality review submission is not assigned to this office"
            },
        },
    }
}

/// The gates before a mutation: the role and tool of the assignment, the
/// verified packet, the required reads, in this order.
pub open spec fn spec_admit_mutation(
    mutation: Mutation,
    role: AssignmentRole,
    tools: Seq<String>,
    packet_verified: bool,
    reads: RequiredReads,
) -> Result<(), RpcRefusal> {
    if role != mutation_role(mutation) || !grants(tools, mutation_tool(mutation)@) {
        Err(unassigned_mutation(mutation))
    } else if !packet_verified {
        spec_packet_verified(false)
    } else {
        spec_required_reads(mutation_operation(mutation), reads)
    }
}

/// Admits a mutation, or says which gate refuses it.
pub fn admit_mutation(
    mutation: Mutation,
    role: AssignmentRole,
    tools: &Vec<String>,
    packet_verified: bool,
    reads: RequiredReads,
) -> (result: Result<(), RpcRefusal>)
    ensures
        result == spec_admit_mutation(mutation, role, tools@, packet_verified, reads),
{
    let (required, tool, refusal) = match mutation {
        Mutation::SubmitProductTicket => (
            AssignmentRole::ProductResearch,
            "product_submit_ticket",
            RpcRefusal {
                operation: OP_PRODUCT_SUBMIT_TICKET,
                detail: "Product submission is not assigned to this office",
            },
        ),
        Mutation::CheckpointRegression => (
            AssignmentRole::Engineering,
            "candidate_checkpoint_regression",
            RpcRefusal {
                operation: OP_CANDIDATE_CHECKPOINT_REGRESSION,
                detail: "Engineering regression checkpoint is not assigned to this office",
            },
        ),
        Mutation::SubmitCandidate => (
            AssignmentRole::Engineering,
            "candidate_submit",
            RpcRefusal {
                operation: OP_CANDIDATE_SUBMIT,
                detail: "Engineering candidate submission is not assigned to this office",
            },
        ),
        Mutation::RunQualityFullSuite => (
            AssignmentRole::Quality,
            "quality_run_full_suite",
            RpcRefusal {
                operation: OP_QUALITY_RUN_FULL_SUITE,
                detail: "Quality full-suite execution is not assigned to this office",
            },
        ),
        Mutation::SubmitQualityReview => (
            AssignmentRole::Quality,
            "quality_submit_review",
            RpcRefusal {
                operation: OP_QUALITY_SUBMIT_REVIEW,
                detail: "Quality review submission is not assigned to this office",
            },
        ),
    };
    if role != required || !tool_granted(tools, tool) {
        return Err(refusal);
    }
    match require_packet_verified(packet_verified) {
        Err(refusal) => Err(refusal),
        Ok(()) => require_required_reads_before_mutation(refusal.operation, reads),
    }
}

/// No mutation is admitted outside its own role and tool, before the packet is
/// verified, or before every assigned exact read; and nothing else stops it.
pub proof fn law_mutation_passes_every_gate(
    mutation: Mutation,
    role: AssignmentRole,
    tools: Seq<String>,
    packet_verified: bool,
    reads: RequiredReads,
)
    ensures
        spec_admit_mutation(mutation, role, tools, packet_verified, reads) is Ok <==> (role
            == mutation_role(mutation) && grants(tools, mutation_tool(mutation)@)
            && packet_verified && reads == RequiredReads::Satisfied),
{
}

/// A refused read of the sender's revision, common to every fenced operation.
pub open spec fn stale_session(operation: &'static str) -> RpcRefusal {
    RpcRefusal { operation, detail: "session revision is stale" }
}

/// Refuses a request written for another revision of the session.
pub fn require_session_revision(
    operation: &'static str,
    expected_revision: u64,
    session_revision: AggregateRevision,
) -> (result: Result<(), RpcRefusal>)
    ensures
        result == (if expected_revision == session_revision.value {
            Ok::<(), RpcRefusal>(())
        } else {
            Err(stale_session(operation))
        }),
{
    if expected_revision != session_revision.value {
        return Err(RpcRefusal { operation, detail: "session revision is stale" });
    }
    Ok(())
}

/// Admission of a product ticket: every gate of the mutation, and the session
/// revision the request was written for.
pub fn admit_product_ticket(
    role: AssignmentRole,
    tools: &Vec<String>,
    packet_verified: bool,
    reads: RequiredReads,
    expected_revision: u64,
    session_revision: AggregateRevision,
) -> (result: Result<(), RpcRefusal>)
    ensures
        result == (match spec_admit_mutation(
            Mutation::SubmitProductTicket,
            role,
            tools@,
            packet_verified,
            reads,
        ) {
            Err(refusal) => Err(refusal),
            Ok(()) => if expected_revision == session_revision.value {
                Ok::<(), RpcRefusal>(())
            } else {
                Err(stale_session(OP_PRODUCT_SUBMIT_TICKET))
            },
        }),
{
    match admit_mutation(Mutation::SubmitProductTicket, role, tools, packet_verified, reads) {
        Err(refusal) => Err(refusal),
        Ok(()) => require_session_revision(
            OP_PRODUCT_SUBMIT_TICKET,
            expected_revision,
            session_revision,
        ),
    }
}

/// A packet-verification request.
#[derive(Clone, Debug, PartialEq, Eq)]
pub struct VerifyPacketRequest {
    pub request_id: String,
    pub packet_digest: String,
    pub packet_bytes_b64: String,
}

/// The answer to a verified packet.
#[derive(Clone, Debug, PartialEq, Eq)]
pub struct PacketVerification {
    pub request_id: String,
    pub operation: &'static str,
    pub packet_digest: String,
    pub verified: bool,
}

/// Refusal of a packet-verification request.
pub open spec fn verify_packet_refusal(detail: &'static str) -> RpcError {
    RpcError::Refused(RpcRefusal { operation: OP_SESSION_VERIFY_PACKET, detail })
}

/// Why a packet-verification request fails, if it does.
pub open spec fn verify_packet_fault(
    request: VerifyPacketRequest,
    canonical_packet_bytes: Seq<u8>,
    packet: AssignmentPacket,
    wire: Option<AssignmentPacketWire>,
    sealed_bytes: Seq<u8>,
) -> Option<RpcError> {
    if !is_digest_text(request.packet_digest@) {
        Some(verify_packet_refusal("packet digest is invalid"))
    } else {
        match decoded(encode_utf8(request.packet_bytes_b64@)) {
            Err(fault) => Some(verify_packet_refusal(fault)),
            Ok(bytes) => if bytes != canonical_packet_bytes {
                Some(verify_packet_refusal("packet bytes differ from daemon admission"))
            } else {
                match spec_verify_packet_bytes(packet, wire, bytes, sealed_bytes) {
                    Err(fault) => Some(RpcError::Store(fault)),
                    Ok(()) => None,
                }
            },
        }
    }
}

/// The fixed text of a base64 fault, as a refusal.
fn verify_packet_refused(detail: &'static str) -> (error: RpcError)
    ensures
        error == verify_packet_refusal(detail),
{
    RpcError::Refused(RpcRefusal { operation: OP_SESSION_VERIFY_PACKET, detail })
}

/// Verifies the packet an actor presents against the admitted one. `wire` is
/// the packet parsed from the presented bytes, where they carry the digest of
/// the request. The digest answered is the one asked about, in lower case.
pub fn verify_packet(
    request: &VerifyPacketRequest,
    canonical_packet_bytes: &[u8],
    packet: &AssignmentPacket,
    wire: Option<&AssignmentPacketWire>,
    sealed_bytes: &[u8],
    packet_verified: &mut bool,
) -> (result: Result<PacketVerification, RpcError>)
    ensures
        match result {
            Err(fault) => verify_packet_fault(
                *request,
                canonical_packet_bytes@,
                *packet,
                match wire {
                    Some(wire) => Some(*wire),
                    None => None,
                },
                sealed_bytes@,
            ) == Some(fault) && *final(packet_verified) == *old(packet_verified),
            Ok(answer) => {
                &&& verify_packet_fault(
                    *request,
                    canonical_packet_bytes@,
                    *packet,
                    match wire {
                        Some(wire) => Some(*wire),
                        None => None,
                    },
                    sealed_bytes@,
                ) is None
                &&& *final(packet_verified)
                &&& answer.request_id == request.request_id
                &&& answer.operation == OP_SESSION_VERIFY_PACKET
                &&& answer.packet_digest@ == hex_of(digest_bytes(request.packet_digest@))
                &&& answer.verified
            },
        },
{
    let digest = match ContentDigest::parse_hex(request.packet_digest.as_str()) {
        Some(digest) => digest,
        None => return Err(verify_packet_refused("packet digest is invalid")),
    };
    let bytes = match decode_base64(request.packet_bytes_b64.as_str()) {
        Ok(bytes) => bytes,
        Err(detail) => return Err(verify_packet_refused(detail)),
    };
    if !bytes_equal(bytes.as_slice(), canonical_packet_bytes) {
        return Err(verify_packet_refused("packet bytes differ from daemon admission"));
    }
    match verify_packet_bytes(packet, wire, bytes.as_slice(), sealed_bytes) {
        Err(fault) => return Err(RpcError::Store(fault)),
        Ok(()) => {},
    }
    *packet_verified = true;
    Ok(
        PacketVerification {
            request_id: request.request_id.clone(),
            operation: OP_SESSION_VERIFY_PACKET,
            packet_digest: digest.to_hex(),
            verified: true,
        },
    )
}

/// Whether a seal request lies inside the assignment's authority.
pub open spec fn seal_bounds_ok(
    expected_revision: u64,
    byte_limit: u64,
    session_revision: AggregateRevision,
    maximum_object_bytes: u64,
) -> bool {
    &&& expected_revision == session_revision.value
    &&& 0 < byte_limit <= maximum_object_bytes
}

/// Why the actor's transcript may not be sealed, if it may not.
pub open spec fn seal_artifact_refusal(
    packet_verified: bool,
    bounds_ok: bool,
    role: Seq<char>,
    path_valid: bool,
) -> Option<RpcRefusal> {
    if !packet_verified {
        Some(RpcRefusal { operation: SESSION_SCOPE, detail: "packet has not been verified" })
    } else if !bounds_ok || role != TRANSCRIPT_ROLE@ {
        Some(
            RpcRefusal {
                operation: OP_SESSION_SEAL_ARTIFACT,
                detail: "revision, role, or byte limit is outside assignment authority",
            },
        )
    } else if !path_valid {
        Some(
            RpcRefusal { operation: OP_SESSION_SEAL_ARTIFACT, detail: "staging path is invalid" },
        )
    } else {
        None
    }
}

/// Admits sealing the actor's transcript out of its staging directory.
/// `path_valid` says whether the named path is a runtime-relative one.
pub fn admit_seal_artifact(
    packet_verified: bool,
    expected_revision: u64,
    role: &str,
    byte_limit: u64,
    session_revision: AggregateRevision,
    maximum_object_bytes: u64,
    path_valid: bool,
) -> (result: Result<(), RpcRefusal>)
    ensures
        result == (match seal_artifact_refusal(
            packet_verified,
            seal_bounds_ok(expected_revision, byte_limit, session_revision, maximum_object_bytes),
            role@,
            path_valid,
        ) {
            Some(refusal) => Err::<(), RpcRefusal>(refusal),
            None => Ok(()),
        }),
{
    match require_packet_verified(packet_verified) {
        Err(refusal) => return Err(refusal),
        Ok(()) => {},
    }
    if expected_revision != session_revision.value || !text_equal(role, TRANSCRIPT_ROLE)
        || byte_limit == 0 || byte_limit > maximum_object_bytes {
        return Err(
            RpcRefusal {
                operation: OP_SESSION_SEAL_ARTIFACT,
                detail: "revision, role, or byte limit is outside assignment authority",
            },
        );
    }
    if !path_valid {
        return Err(
            RpcRefusal { operation: OP_SESSION_SEAL_ARTIFACT, detail: "staging path is invalid" },
        );
    }
    Ok(())
}

/// Why a workspace file may not be sealed, if it may not.
pub open spec fn seal_workspace_file_refusal(
    tools: Seq<String>,
    packet_verified: bool,
    bounds_ok: bool,
    path_valid: bool,
) -> Option<RpcRefusal> {
    if !grants(tools, "artifact_seal"@) {
        Some(
            RpcRefusal {
                operation: OP_ARTIFACT_SEAL_WORKSPACE_FILE,
                detail: "artifact sealing is not assigned",
            },
        )
    } else if !packet_verified {
        Some(RpcRefusal { operation: SESSION_SCOPE, detail: "packet has not been verified" })
    } else if !bounds_ok {
        Some(
            RpcRefusal {
                operation: OP_ARTIFACT_SEAL_WORKSPACE_FILE,
                detail: "revision or byte limit is outside assignment authority",
            },
        )
    } else if !path_valid {
        Some(
            RpcRefusal {
                operation: OP_ARTIFACT_SEAL_WORKSPACE_FILE,
                detail: "workspace path is invalid",
            },
        )
    } else {
        None
    }
}

/// Admits sealing a workspace file. `path_valid` says whether the named path
/// is a repository-relative one.
pub fn admit_seal_workspace_file(
    tools: &Vec<String>,
    packet_verified: bool,
    expected_revision: u64,
    byte_limit: u64,
    session_revision: AggregateRevision,
    maximum_object_bytes: u64,
    path_valid: bool,
) -> (result: Result<(), RpcRefusal>)
    ensures
        result == (match seal_workspace_file_refusal(
            tools@,
            packet_verified,
            seal_bounds_ok(expected_revision, byte_limit, session_revision, maximum_object_bytes),
            path_valid,
        ) {
            Some(refusal) => Err::<(), RpcRefusal>(refusal),
            None => Ok(()),
        }),
{
    if !tool_granted(tools, "artifact_seal") {
        return Err(
            RpcRefusal {
                operation: OP_ARTIFACT_SEAL_WORKSPACE_FILE,
                detail: "artifact sealing is not assigned",
            },
        );
    }
    match require_packet_verified(packet_verified) {
        Err(refusal) => return Err(refusal),
        Ok(()) => {},
    }
    if expected_revision != session_revision.value || byte_limit == 0 || byte_limit
        > maximum_object_bytes {
        return Err(
            RpcRefusal {
                operation: OP_ARTIFACT_SEAL_WORKSPACE_FILE,
                detail: "revision or byte limit is outside assignment authority",
            },
        );
    }
    if !path_valid {
        return Err(
            RpcRefusal {
                operation: OP_ARTIFACT_SEAL_WORKSPACE_FILE,
                detail: "workspace path is invalid",
            },
        );
    }
    Ok(())
}

/// A sealed artifact and the identity it was registered under.
#[derive(Clone, Copy, Debug, PartialEq, Eq)]
pub struct RegisteredSessionArtifact {
    pub seal: CasArtifact,
    pub artifact_id: ArtifactId,
}

/// The receipt of one sealed artifact.
#[derive(Clone, Debug, PartialEq, Eq)]
pub struct ArtifactReceiptResponse {
    pub request_id: String,
    pub operation: &'static str,
    pub artifact_id: i64,
    pub digest: String,
    pub byte_length: u64,
    pub aggregate_revision: u64,
}

/// The receipt of a sealed artifact, at the revision of its session.
pub fn artifact_receipt_response(
    request_id: &String,
    operation: &'static str,
    registered: &RegisteredSessionArtifact,
    session_revision: AggregateRevision,
) -> (receipt: ArtifactReceiptResponse)
    ensures
        receipt.request_id == *request_id,
        receipt.operation == operation,
        receipt.artifact_id == registered.artifact_id.value,
        receipt.digest@ == hex_of(registered.seal.digest.bytes@),
        receipt.byte_length == registered.seal.byte_length,
        receipt.aggregate_revision == session_revision.value,
{
    ArtifactReceiptResponse {
        request_id: request_id.clone(),
        operation,
        artifact_id: registered.artifact_id.value,
        digest: registered.seal.digest.to_hex(),
        byte_length: registered.seal.byte_length,
        aggregate_revision: session_revision.value,
    }
}

/// Whether a sealed transcript disagrees with one sealed before.
pub open spec fn transcript_conflicts(
    prior: Option<RegisteredSessionArtifact>,
    registered: RegisteredSessionArtifact,
) -> bool {
    match prior {
        Some(prior) => prior != registered,
        None => false,
    }
}

/// Keeps the transcript of a session; a different one is refused.
pub fn register_transcript(
    transcript: &mut Option<RegisteredSessionArtifact>,
    registered: RegisteredSessionArtifact,
) -> (result: Result<(), RpcRefusal>)
    ensures
        result == (if transcript_conflicts(*old(transcript), registered) {
            Err::<(), RpcRefusal>(
                RpcRefusal {
                    operation: OP_SESSION_SEAL_ARTIFACT,
                    detail: "a different transcript was already sealed",
                },
            )
        } else {
            Ok(())
        }),
        *final(transcript) == (if result is Ok {
            Some(registered)
        } else {
            *old(transcript)
        }),
{
    match transcript {
        Some(prior) => {
            if !prior.seal.same(&registered.seal) || prior.artifact_id.value
                != registered.artifact_id.value {
                return Err(
                    RpcRefusal {
                        operation: OP_SESSION_SEAL_ARTIFACT,
                        detail: "a different transcript was already sealed",
                    },
                );
            }
        },
        None => {},
    }
    *transcript = Some(registered);
    Ok(())
}

/// Why candidate and review authority could not be resolved.
#[derive(Clone, Debug, PartialEq, Eq)]
pub enum CandidateQualityAuthorityResolutionError {
    /// No resolver is configured.
    Unavailable,
    /// The authority asked for does not hold.
    Precondition { message: String },
}

pub const AUTHORITY_UNAVAILABLE: &'static str =
    "the trusted Candidate/Quality authority resolver is not configured";

pub const AUTHORITY_UNRESOLVABLE: &'static str =
    "the requested Candidate/Quality authority is not resolvable: ";

impl CandidateQualityAuthorityResolutionError {
    /// The refusal in words.
    pub fn message(&self) -> (text: String)
        ensures
            text@ == (match self {
                CandidateQualityAuthorityResolutionError::Unavailable => AUTHORITY_UNAVAILABLE@,
                CandidateQualityAuthorityResolutionError::Precondition { message } => {
                    AUTHORITY_UNRESOLVABLE@ + message@
                },
            }),
    {
        let mut text = String::new();
        match self {
            CandidateQualityAuthorityResolutionError::Unavailable => {
                text.append(AUTHORITY_UNAVAILABLE);
                assert(text@ =~= AUTHORITY_UNAVAILABLE@);
            },
            CandidateQualityAuthorityResolutionError::Precondition { message } => {
                text.append(AUTHORITY_UNRESOLVABLE);
                text.append(message.as_str());
                assert(text@ =~= AUTHORITY_UNRESOLVABLE@ + message@);
            },
        }
        text
    }
}

/// Refuses candidate and review work where no resolver was composed, before
/// anything is marked in flight.
pub fn require_candidate_quality_runtime<R>(runtime: Option<&R>) -> (result: Result<
    &R,
    RpcRefusal,
>)
    ensures
        result == (match runtime {
            Some(runtime) => Ok::<&R, RpcRefusal>(runtime),
            None => Err(RpcRefusal { operation: CANDIDATE_SCOPE, detail: AUTHORITY_UNAVAILABLE }),
        }),
{
    match runtime {
        Some(runtime) => Ok(runtime),
        None => Err(RpcRefusal { operation: CANDIDATE_SCOPE, detail: AUTHORITY_UNAVAILABLE }),
    }
}

/// Refuses a second full suite where an interrupted session already left a
/// durable passed receipt.
pub fn require_no_prior_full_suite(prior_full_suite: bool) -> (result: Result<(), RpcRefusal>)
    ensures
        result == (if prior_full_suite {
            Err::<(), RpcRefusal>(
                RpcRefusal {
                    operation: CANDIDATE_SCOPE,
                    detail: "this Quality assignment already has a durable passed full-suite receipt; submit its missing review instead",
                },
            )
        } else {
            Ok(())
        }),
{
    if prior_full_suite {
        return Err(
            RpcRefusal {
                operation: CANDIDATE_SCOPE,
                detail: "this Quality assignment already has a durable passed full-suite receipt; submit its missing review instead",
            },
        );
    }
    Ok(())
}

/// What a candidate whose hard validation did not pass is answered.
pub open spec fn hard_validation_text(state: Seq<char>, candidate_id: i64, validation_id: i64) -> Seq<
    char,
> {
    "hard candidate validation is "@ + state + " (candidate "@ + crate::text::decimal(
        candidate_id as int,
    ) + ", validation "@ + crate::text::decimal(validation_id as int) + ")"@
}

/// What a candidate whose hard validation did not pass is answered.
pub fn hard_validation_rejection(state: &str, candidate_id: i64, validation_id: i64) -> (text:
    String)
    ensures
        text@ == hard_validation_text(state@, candidate_id, validation_id),
{
    let mut text = String::new();
    text.append("hard candidate validation is ");
    text.append(state);
    text.append(" (candidate ");
    push_decimal_i64(&mut text, candidate_id);
    text.append(", validation ");
    push_decimal_i64(&mut text, validation_id);
    text.append(")");
    assert(text@ =~= hard_validation_text(state@, candidate_id, validation_id));
    text
}

/// Stop reasons an actor may name.
pub open spec fn spec_parse_stop_reason(value: Seq<char>) -> Option<StopReason> {
    if value == "completed"@ {
        Some(StopReason::Completed)
    } else if value == "cancelled"@ {
        Some(StopReason::Cancelled)
    } else if value == "deadline"@ {
        Some(StopReason::Deadline)
    } else if value == "daemon_disconnected"@ {
        Some(StopReason::DaemonDisconnected)
    } else if value == "nonzero_exit"@ {
        Some(StopReason::NonZeroExit)
    } else if value == "output_limit"@ {
        Some(StopReason::OutputLimit)
    } else if value == "protocol_error"@ {
        Some(StopReason::ProtocolError)
    } else if value == "unknown_cost"@ {
        Some(StopReason::UnknownCost)
    } else {
        None
    }
}

/// The stop reason of a wire name.
pub fn parse_stop_reason(value: &str) -> (reason: Option<StopReason>)
    ensures
        reason == spec_parse_stop_reason(value@),
{
    if text_equal(value, "completed") {
        Some(StopReason::Completed)
    } else if text_equal(value, "cancelled") {
        Some(StopReason::Cancelled)
    } else if text_equal(value, "deadline") {
        Some(StopReason::Deadline)
    } else if text_equal(value, "daemon_disconnected") {
        Some(StopReason::DaemonDisconnected)
    } else if text_equal(value, "nonzero_exit") {
        Some(StopReason::NonZeroExit)
    } else if text_equal(value, "output_limit") {
        Some(StopReason::OutputLimit)
    } else if text_equal(value, "protocol_error") {
        Some(StopReason::ProtocolError)
    } else if text_equal(value, "unknown_cost") {
        Some(StopReason::UnknownCost)
    } else {
        None
    }
}

/// An actor's request to end its session.
#[derive(Clone, Debug, PartialEq, Eq)]
pub struct TerminalRequest {
    pub request_id: String,
    pub client_command_id: String,
    pub expected_revision: u64,
    pub terminal_operation: Option<String>,
    pub stop_reason: String,
    pub terminal_payload_b64: String,
    pub transcript_artifact_id: i64,
    pub input_tokens: Option<u64>,
    pub output_tokens: Option<u64>,
    pub cache_read_tokens: Option<u64>,
    pub cache_write_tokens: Option<u64>,
    pub reasoning_tokens: Option<u64>,
    pub reported_cost_micro_usd: Option<u64>,
}

/// Whether two optional texts are equal.
pub open spec fn same_optional_text(left: Option<String>, right: Option<String>) -> bool {
    match (left, right) {
        (None, None) => true,
        (Some(left), Some(right)) => left@ == right@,
        _ => false,
    }
}

/// Whether two terminal requests ask the same.
pub open spec fn same_terminal_request(left: TerminalRequest, right: TerminalRequest) -> bool {
    &&& left.request_id@ == right.request_id@
    &&& left.client_command_id@ == right.client_command_id@
    &&& left.expected_revision == right.expected_revision
    &&& same_optional_text(left.terminal_operation, right.terminal_operation)
    &&& left.stop_reason@ == right.stop_reason@
    &&& left.terminal_payload_b64@ == right.terminal_payload_b64@
    &&& left.transcript_artifact_id == right.transcript_artifact_id
    &&& left.input_tokens == right.input_tokens
    &&& left.output_tokens == right.output_tokens
    &&& left.cache_read_tokens == right.cache_read_tokens
    &&& left.cache_write_tokens == right.cache_write_tokens
    &&& left.reasoning_tokens == right.reasoning_tokens
    &&& left.reported_cost_micro_usd == right.reported_cost_micro_usd
}

/// Whether two counts are equal, absent ones only to absent ones.
fn counts_equal(left: Option<u64>, right: Option<u64>) -> (equal: bool)
    ensures
        equal == (left == right),
{
    match (left, right) {
        (None, None) => true,
        (Some(left), Some(right)) => left == right,
        _ => false,
    }
}

/// Whether two terminal requests ask the same.
pub fn terminal_requests_equal(left: &TerminalRequest, right: &TerminalRequest) -> (equal: bool)
    ensures
        equal == same_terminal_request(*left, *right),
{
    let operations_equal = match (&left.terminal_operation, &right.terminal_operation) {
        (None, None) => true,
        (Some(left), Some(right)) => text_equal(left.as_str(), right.as_str()),
        _ => false,
    };
    operations_equal && text_equal(left.request_id.as_str(), right.request_id.as_str())
        && text_equal(left.client_command_id.as_str(), right.client_command_id.as_str())
        && left.expected_revision == right.expected_revision && text_equal(
        left.stop_reason.as_str(),
        right.stop_reason.as_str(),
    ) && text_equal(left.terminal_payload_b64.as_str(), right.terminal_payload_b64.as_str())
        && left.transcript_artifact_id == right.transcript_artifact_id && counts_equal(
        left.input_tokens,
        right.input_tokens,
    ) && counts_equal(left.output_tokens, right.output_tokens) && counts_equal(
        left.cache_read_tokens,
        right.cache_read_tokens,
    ) && counts_equal(left.cache_write_tokens, right.cache_write_tokens) && counts_equal(
        left.reasoning_tokens,
        right.reasoning_tokens,
    ) && counts_equal(left.reported_cost_micro_usd, right.reported_cost_micro_usd)
}

/// What a session remembers between its actor's requests.
#[derive(Clone, Debug, PartialEq, Eq)]
pub struct SessionRpcState<E, C, Q, S> {
    pub packet_verified: bool,
    pub transcript: Option<RegisteredSessionArtifact>,
    pub terminal_request: Option<TerminalRequest>,
    pub engineering: EngineeringSessionState<E, C>,
    pub quality: QualitySessionState<Q, S>,
}

impl<E: Copy, C: Copy, Q: Copy, S: Copy> Default for SessionRpcState<E, C, Q, S> {
    /// Nothing has been asked yet.
    fn default() -> (state: SessionRpcState<E, C, Q, S>)
        ensures
            !state.packet_verified,
            state.transcript is None,
            state.terminal_request is None,
            state.engineering == EngineeringSessionState::<E, C>::spec_default(),
            state.quality == QualitySessionState::<Q, S>::spec_default(),
    {
        SessionRpcState {
            packet_verified: false,
            transcript: None,
            terminal_request: None,
            engineering: EngineeringSessionState::default(),
            quality: QualitySessionState::default(),
        }
    }
}

/// Refusal of a terminal request.
pub open spec fn terminal_refusal(detail: &'static str) -> Option<RpcRefusal> {
    Some(RpcRefusal { operation: OP_SESSION_SUBMIT_TERMINAL, detail })
}

/// Why the words of a terminal request are refused, if they are.
pub open spec fn terminal_words_refusal(request: TerminalRequest, payload_maximum: int) -> Option<
    RpcRefusal,
> {
    match decoded(encode_utf8(request.terminal_payload_b64@)) {
        Err(fault) => terminal_refusal(fault),
        Ok(payload) => if payload.len() > payload_maximum {
            terminal_refusal("terminal payload exceeds its bound")
        } else {
            match spec_parse_stop_reason(request.stop_reason@) {
                None => terminal_refusal("stop reason is unknown"),
                Some(stop) => match request.terminal_operation {
                    None => if stop == StopReason::Completed {
                        terminal_refusal("operation and stop reason disagree")
                    } else {
                        None
                    },
                    Some(name) => match spec_operation_of(name@) {
                        None => terminal_refusal("operation is unknown"),
                        Some(_) => if stop != StopReason::Completed {
                            terminal_refusal("operation and stop reason disagree")
                        } else {
                            None
                        },
                    },
                },
            }
        },
    }
}

/// The terminal operation a request names.
pub open spec fn requested_operation(request: TerminalRequest) -> Option<TerminalOperation> {
    match request.terminal_operation {
        None => None,
        Some(name) => spec_operation_of(name@),
    }
}

/// Why a session in this state refuses a terminal request, if it does: a
/// completion claims work the session did, the transcript is sealed and named,
/// and one session makes one terminal request.
pub open spec fn terminal_state_refusal<E, C, Q, S>(
    state: SessionRpcState<E, C, Q, S>,
    request: TerminalRequest,
) -> Option<RpcRefusal> {
    let operation = requested_operation(request);
    if operation == Some(TerminalOperation::CandidateSubmit) && !state.engineering.submitted {
        terminal_refusal(
            "candidate terminal completion requires this session's candidate submission",
        )
    } else if operation == Some(TerminalOperation::QualitySubmitReview)
        && !state.quality.review_submitted {
        terminal_refusal("Quality terminal completion requires this session's review submission")
    } else {
        match state.transcript {
            None => terminal_refusal("transcript is not sealed"),
            Some(transcript) => if transcript.artifact_id.value != request.transcript_artifact_id {
                terminal_refusal("transcript artifact identity does not match")
            } else {
                match state.terminal_request {
                    Some(prior) => if !same_terminal_request(prior, request) {
                        terminal_refusal("a different terminal request already exists")
                    } else {
                        None
                    },
                    None => None,
                }
            },
        }
    }
}

/// Why a terminal request is refused, if it is.
pub open spec fn submit_terminal_refusal<E, C, Q, S>(
    state: SessionRpcState<E, C, Q, S>,
    request: TerminalRequest,
    session_revision: AggregateRevision,
    payload_maximum: int,
) -> Option<RpcRefusal> {
    if !state.packet_verified {
        Some(RpcRefusal { operation: SESSION_SCOPE, detail: "packet has not been verified" })
    } else if request.expected_revision != session_revision.value {
        Some(stale_session(OP_SESSION_SUBMIT_TERMINAL))
    } else {
        match terminal_words_refusal(request, payload_maximum) {
            Some(refusal) => Some(refusal),
            None => terminal_state_refusal(state, request),
        }
    }
}

fn terminal_refused(detail: &'static str) -> (refusal: RpcRefusal)
    ensures
        Some(refusal) == terminal_refusal(detail),
{
    RpcRefusal { operation: OP_SESSION_SUBMIT_TERMINAL, detail }
}

/// The terminal operation of a request in legal words.
fn read_terminal_words(request: &TerminalRequest, payload_maximum: usize) -> (result: Result<
    Option<TerminalOperation>,
    RpcRefusal,
>)
    ensures
        match result {
            Err(refusal) => terminal_words_refusal(*request, payload_maximum as int) == Some(
                refusal,
            ),
            Ok(operation) => terminal_words_refusal(*request, payload_maximum as int) is None
                && operation == requested_operation(*request),
        },
{
    let payload = match decode_base64(request.terminal_payload_b64.as_str()) {
        Ok(payload) => payload,
        Err(detail) => return Err(terminal_refused(detail)),
    };
    if payload.len() > payload_maximum {
        return Err(terminal_refused("terminal payload exceeds its bound"));
    }
    let stop = match parse_stop_reason(request.stop_reason.as_str()) {
        Some(stop) => stop,
        None => return Err(terminal_refused("stop reason is unknown")),
    };
    let operation = match &request.terminal_operation {
        None => None,
        Some(name) => match parse_terminal_operation(name.as_str()) {
            Some(operation) => Some(operation),
            None => return Err(terminal_refused("operation is unknown")),
        },
    };
    if (stop == StopReason::Completed) != operation.is_some() {
        return Err(terminal_refused("operation and stop reason disagree"));
    }
    Ok(operation)
}

/// Admits a terminal request as the one proposal of its session.
pub fn submit_terminal<E: Copy, C: Copy, Q: Copy, S: Copy>(
    state: &mut SessionRpcState<E, C, Q, S>,
    request: TerminalRequest,
    session_revision: AggregateRevision,
    payload_maximum: usize,
) -> (result: Result<(), RpcRefusal>)
    ensures
        match result {
            Err(refusal) => submit_terminal_refusal(
                *old(state),
                request,
                session_revision,
                payload_maximum as int,
            ) == Some(refusal) && *final(state) == *old(state),
            Ok(()) => {
                &&& submit_terminal_refusal(
                    *old(state),
                    request,
                    session_revision,
                    payload_maximum as int,
                ) is None
                &&& *final(state) == (SessionRpcState {
                    terminal_request: Some(request),
                    ..*old(state)
                })
            },
        },
{
    match require_packet_verified(state.packet_verified) {
        Err(refusal) => return Err(refusal),
        Ok(()) => {},
    }
    match require_session_revision(
        OP_SESSION_SUBMIT_TERMINAL,
        request.expected_revision,
        session_revision,
    ) {
        Err(refusal) => return Err(refusal),
        Ok(()) => {},
    }
    let operation = match read_terminal_words(&request, payload_maximum) {
        Ok(operation) => operation,
        Err(refusal) => return Err(refusal),
    };
    match operation {
        Some(TerminalOperation::CandidateSubmit) => {
            if !state.engineering.submitted {
                return Err(
                    terminal_refused(
                        "candidate terminal completion requires this session's candidate submission",
                    ),
                );
            }
        },
        Some(TerminalOperation::QualitySubmitReview) => {
            if !state.quality.review_submitted {
                return Err(
                    terminal_refused(
                        "Quality terminal completion requires this session's review submission",
                    ),
                );
            }
        },
        _ => {},
    }
    match &state.transcript {
        None => return Err(terminal_refused("transcript is not sealed")),
        Some(transcript) => {
            if transcript.artifact_id.value != request.transcript_artifact_id {
                return Err(terminal_refused("transcript artifact identity does not match"));
            }
        },
    }
    match &state.terminal_request {
        Some(prior) => {
            if !terminal_requests_equal(prior, &request) {
                return Err(terminal_refused("a different terminal request already exists"));
            }
        },
        None => {},
    }
    state.terminal_request = Some(request);
    Ok(())
}

/// A session answers one terminal request: after one was admitted, the same
/// request is admitted again and a different one never is.
pub proof fn law_one_terminal_request_per_session<E, C, Q, S>(
    state: SessionRpcState<E, C, Q, S>,
    first: TerminalRequest,
    second: TerminalRequest,
    session_revision: AggregateRevision,
    payload_maximum: int,
)
    requires
        submit_terminal_refusal(state, first, session_revision, payload_maximum) is None,
    ensures
        submit_terminal_refusal(
            SessionRpcState { terminal_request: Some(first), ..state },
            first,
            session_revision,
            payload_maximum,
        ) is None,
        !same_terminal_request(first, second) ==> submit_terminal_refusal(
            SessionRpcState { terminal_request: Some(first), ..state },
            second,
            session_revision,
            payload_maximum,
        ) is Some,
{
}

/// A completed session did its work: its terminal request claims a candidate
/// only after the session submitted one, and a review only after it submitted
/// one.
pub proof fn law_completion_claims_own_work<E, C, Q, S>(
    state: SessionRpcState<E, C, Q, S>,
    request: TerminalRequest,
    session_revision: AggregateRevision,
    payload_maximum: int,
)
    requires
        submit_terminal_refusal(state, request, session_revision, payload_maximum) is None,
    ensures
        requested_operation(request) == Some(TerminalOperation::CandidateSubmit)
            ==> state.engineering.submitted,
        requested_operation(request) == Some(TerminalOperation::QualitySubmitReview)
            ==> state.quality.review_submitted,
        spec_parse_stop_reason(request.stop_reason@) == Some(StopReason::Completed)
            <==> requested_operation(request) is Some,
        state.transcript is Some,
{
}

/// The answer to a refused request; it keeps the connection open.
#[derive(Clone, Debug, PartialEq, Eq)]
pub struct ErrorResponse {
    pub request_id: String,
    pub operation: String,
    pub error_code: &'static str,
    pub message: String,
}

/// What goes back to the actor.
#[derive(Clone, Debug, PartialEq, Eq)]
pub enum Reply {
    /// The operation's own answer.
    Frame(Vec<u8>),
    /// The refusal of the request.
    Rejection(ErrorResponse),
}

/// How a workspace read failed.
#[derive(Clone, Debug, PartialEq, Eq)]
pub enum WorkspaceReadFault {
    /// The capability itself belongs to another connection.
    ConnectionIdentityMismatch,
    /// The request or path is refused, in these words.
    Rejected { message: String },
}

/// A refused path or request is an ordinary answer; only a capability of
/// another connection loses the transport.
pub fn workspace_read_response(
    request_id: String,
    operation: String,
    result: Result<Vec<u8>, WorkspaceReadFault>,
) -> (reply: Result<Reply, WorkspaceReadFault>)
    ensures
        reply == (match result {
            Ok(response) => Ok::<Reply, WorkspaceReadFault>(Reply::Frame(response)),
            Err(WorkspaceReadFault::ConnectionIdentityMismatch) => Err(
                WorkspaceReadFault::ConnectionIdentityMismatch,
            ),
            Err(WorkspaceReadFault::Rejected { message }) => Ok(
                Reply::Rejection(
                    ErrorResponse {
                        request_id,
                        operation,
                        error_code: WORKSPACE_READ_REJECTED,
                        message,
                    },
                ),
            ),
        }),
{
    match result {
        Ok(response) => Ok(Reply::Frame(response)),
        Err(WorkspaceReadFault::ConnectionIdentityMismatch) => Err(
            WorkspaceReadFault::ConnectionIdentityMismatch,
        ),
        Err(WorkspaceReadFault::Rejected { message }) => Ok(
            Reply::Rejection(
                ErrorResponse {
                    request_id,
                    operation,
                    error_code: WORKSPACE_READ_REJECTED,
                    message,
                },
            ),
        ),
    }
}

/// How a dispatched request failed.
#[derive(Clone, Debug, PartialEq, Eq)]
pub enum DispatchFault<F> {
    /// The request is refused, in these words.
    Refused { message: String },
    /// Custody, binding, storage or I/O failed.
    Fatal(F),
}

/// A refused request is an ordinary answer; any other failure loses the
/// transport and is never disclosed to the actor.
pub fn dispatch_response<F>(
    request_id: String,
    operation: String,
    result: Result<Vec<u8>, DispatchFault<F>>,
) -> (reply: Result<Reply, F>)
    ensures
        reply == (match result {
            Ok(response) => Ok::<Reply, F>(Reply::Frame(response)),
            Err(DispatchFault::Refused { message }) => Ok(
                Reply::Rejection(
                    ErrorResponse { request_id, operation, error_code: SESSION_REJECTED, message },
                ),
            ),
            Err(DispatchFault::Fatal(fault)) => Err(fault),
        }),
{
    match result {
        Ok(response) => Ok(Reply::Frame(response)),
        Err(DispatchFault::Refused { message }) => Ok(
            Reply::Rejection(
                ErrorResponse { request_id, operation, error_code: SESSION_REJECTED, message },
            ),
        ),
        Err(DispatchFault::Fatal(fault)) => Err(fault),
    }
}

/// An operation is routed by its name alone: each route has one name, every
/// name of a route outside the forum is routed, and a forum name exactly with
/// its own tool granted.
pub proof fn law_operations_are_routed_by_name(operation: Seq<char>, tools: Seq<String>)
    ensures
        ({
            let routed = spec_route_operation(operation, tools);
            let forum_tool = spec_forum_tool_name(operation);
            &&& routed == Ok::<SessionOperation, RpcRefusal>(SessionOperation::VerifyPacket)
                <==> operation == "session.verify_packet"@
            &&& routed == Ok::<SessionOperation, RpcRefusal>(SessionOperation::SealArtifact)
                ==> operation == "session.seal_artifact"@
            &&& routed == Ok::<SessionOperation, RpcRefusal>(SessionOperation::SealWorkspaceFile)
                ==> operation == "artifact.seal_workspace_file"@
            &&& routed == Ok::<SessionOperation, RpcRefusal>(SessionOperation::ReadArtifact)
                ==> operation == "artifact.read"@
            &&& routed == Ok::<SessionOperation, RpcRefusal>(SessionOperation::SubmitProductTicket)
                ==> operation == "product.submit_ticket"@
            &&& routed == Ok::<SessionOperation, RpcRefusal>(SessionOperation::CheckpointRegression)
                ==> operation == "candidate.checkpoint_regression"@
            &&& routed == Ok::<SessionOperation, RpcRefusal>(SessionOperation::SubmitCandidate)
                ==> operation == "candidate.submit"@
            &&& routed == Ok::<SessionOperation, RpcRefusal>(SessionOperation::RunQualityFullSuite)
                ==> operation == "quality.run_full_suite"@
            &&& routed == Ok::<SessionOperation, RpcRefusal>(SessionOperation::SubmitQualityReview)
                ==> operation == "quality.submit_review"@
            &&& routed == Ok::<SessionOperation, RpcRefusal>(SessionOperation::SubmitTerminal)
                ==> operation == "session.submit_terminal"@
            &&& routed matches Ok(SessionOperation::Forum { tool }) ==> forum_tool == Some(tool)
                && exists|i: int| 0 <= i < tools.len() && #[trigger] tools[i]@ == tool@
            &&& forum_tool matches Some(tool) ==> {
                ||| operation == "forum.search"@ && tool@ == "forum_search"@
                ||| operation == "forum.list_topics"@ && tool@ == "forum_list_topics"@
                ||| operation == "forum.list_threads"@ && tool@ == "forum_list_threads"@
                ||| operation == "forum.read_thread"@ && tool@ == "forum_read_thread"@
                ||| operation == "forum.create_topic"@ && tool@ == "forum_create_topic"@
                ||| operation == "forum.create_thread"@ && tool@ == "forum_create_thread"@
                ||| operation == "forum.post"@ && tool@ == "forum_post"@
            }
            &&& operation == "forum.search"@ || operation == "forum.list_topics"@ || operation
                == "forum.list_threads"@ || operation == "forum.read_thread"@ || operation
                == "forum.create_topic"@ || operation == "forum.create_thread"@ || operation
                == "forum.post"@ ==> forum_tool is Some
            &&& routed is Ok <==> {
                ||| operation == "session.verify_packet"@
                ||| operation == "session.seal_artifact"@
                ||| operation == "artifact.seal_workspace_file"@
                ||| operation == "artifact.read"@
                ||| operation == "product.submit_ticket"@
                ||| operation == "candidate.checkpoint_regression"@
                ||| operation == "candidate.submit"@
                ||| operation == "quality.run_full_suite"@
                ||| operation == "quality.submit_review"@
                ||| operation == "session.submit_terminal"@
                ||| forum_tool is Some && exists|i: int|
                    0 <= i < tools.len() && #[trigger] tools[i]@ == forum_tool->0@
            }
        }),
{
}

/// A mutation is admitted exactly to its own office with its own tool, on a
/// verified packet, once every exact read is made.
pub proof fn law_mutation_is_admitted_exactly_to_its_office(
    mutation: Mutation,
    role: AssignmentRole,
    tools: Seq<String>,
    packet_verified: bool,
    reads: RequiredReads,
)
    ensures
        spec_admit_mutation(mutation, role, tools, packet_verified, reads) is Ok <==> {
            &&& packet_verified
            &&& reads is Satisfied
            &&& match mutation {
                Mutation::SubmitProductTicket => role == AssignmentRole::ProductResearch && exists|
                    i: int,
                |
                    0 <= i < tools.len() && #[trigger] tools[i]@ == "product_submit_ticket"@,
                Mutation::CheckpointRegression => role == AssignmentRole::Engineering && exists|
                    i: int,
                |
                    0 <= i < tools.len() && #[trigger] tools[i]@
                        == "candidate_checkpoint_regression"@,
                Mutation::SubmitCandidate => role == AssignmentRole::Engineering && exists|i: int|
                    0 <= i < tools.len() && #[trigger] tools[i]@ == "candidate_submit"@,
                Mutation::RunQualityFullSuite => role == AssignmentRole::Quality && exists|i: int|
                    0 <= i < tools.len() && #[trigger] tools[i]@ == "quality_run_full_suite"@,
                Mutation::SubmitQualityReview => role == AssignmentRole::Quality && exists|i: int|
                    0 <= i < tools.len() && #[trigger] tools[i]@ == "quality_submit_review"@,
            }
        },
{
}

/// A connection is a session's exactly when all five identities agree.
pub proof fn law_binding_is_of_its_session(
    binding: ActorBinding,
    session_id: SessionId,
    packet: AssignmentPacket,
)
    ensures
        binding_matches(binding, session_id, packet) <==> {
            &&& binding.session_id == session_id
            &&& binding.assignment_id == packet.assignment_id
            &&& binding.application_revision_id == packet.application_revision_id
            &&& binding.campaign_id == packet.campaign_id
            &&& binding.assignment_role == packet.assignment_role
        },
{
}

/// A packet is verified exactly when its digest is written in full and its text
/// decodes to the admitted bytes, which are the sealed spelling of the packet.
pub proof fn law_packet_is_verified_exactly_when_admitted(
    request: VerifyPacketRequest,
    canonical_packet_bytes: Seq<u8>,
    packet: AssignmentPacket,
    wire: Option<AssignmentPacketWire>,
    sealed_bytes: Seq<u8>,
)
    ensures
        verify_packet_fault(request, canonical_packet_bytes, packet, wire, sealed_bytes) is None
            <==> {
            &&& is_digest_text(request.packet_digest@)
            &&& decoded(encode_utf8(request.packet_bytes_b64@)) == Ok::<Seq<u8>, &'static str>(
                canonical_packet_bytes,
            )
            &&& spec_verify_packet_bytes(packet, wire, canonical_packet_bytes, sealed_bytes) is Ok
        },
{
}

/// A file is sealed exactly at the session's revision within a positive limit
/// no greater than the store's, on a verified packet and under a valid path: a
/// staged one only as the transcript, one of the workspace only with its tool.
pub proof fn law_files_are_sealed_within_bounds(
    tools: Seq<String>,
    packet_verified: bool,
    expected_revision: u64,
    byte_limit: u64,
    session_revision: AggregateRevision,
    maximum_object_bytes: u64,
    role: Seq<char>,
    path_valid: bool,
)
    ensures
        ({
            let bounds_ok = seal_bounds_ok(
                expected_revision,
                byte_limit,
                session_revision,
                maximum_object_bytes,
            );
            let within = expected_revision == session_revision.value && byte_limit > 0 && byte_limit
                <= maximum_object_bytes;
            &&& seal_artifact_refusal(packet_verified, bounds_ok, role, path_valid) is None <==> {
                &&& packet_verified
                &&& within
                &&& role == "pi_transcript_gzip"@
                &&& path_valid
            }
            &&& seal_workspace_file_refusal(tools, packet_verified, bounds_ok, path_valid) is None
                <==> {
                &&& exists|i: int| 0 <= i < tools.len() && #[trigger] tools[i]@ == "artifact_seal"@
                &&& packet_verified
                &&& within
                &&& path_valid
            }
        }),
{
}

/// A transcript conflicts exactly with another one registered before it.
pub proof fn law_transcript_is_registered_once(
    prior: Option<RegisteredSessionArtifact>,
    registered: RegisteredSessionArtifact,
)
    ensures
        transcript_conflicts(prior, registered) <==> prior is Some && (prior->0.seal
            != registered.seal || prior->0.artifact_id != registered.artifact_id),
{
}

/// Stop reasons are read by their own names.
pub proof fn law_stop_reasons_have_names(value: Seq<char>)
    ensures
        ({
            let reason = spec_parse_stop_reason(value);
            &&& reason == Some(StopReason::Completed) ==> value == "completed"@
            &&& reason == Some(StopReason::Cancelled) ==> value == "cancelled"@
            &&& reason == Some(StopReason::Deadline) ==> value == "deadline"@
            &&& reason == Some(StopReason::DaemonDisconnected) ==> value == "daemon_disconnected"@
            &&& reason == Some(StopReason::NonZeroExit) ==> value == "nonzero_exit"@
            &&& reason == Some(StopReason::OutputLimit) ==> value == "output_limit"@
            &&& reason == Some(StopReason::ProtocolError) ==> value == "protocol_error"@
            &&& reason == Some(StopReason::UnknownCost) ==> value == "unknown_cost"@
            &&& reason is Some <==> {
                ||| value == "completed"@
                ||| value == "cancelled"@
                ||| value == "deadline"@
                ||| value == "daemon_disconnected"@
                ||| value == "nonzero_exit"@
                ||| value == "output_limit"@
                ||| value == "protocol_error"@
                ||| value == "unknown_cost"@
            }
        }),
{
}

/// A terminal request is taken exactly on a verified packet at the session's
/// revision, with a bounded payload, a known stop reason that is `completed`
/// exactly when a known operation is named, the session's own submission behind
/// that operation, its sealed transcript, and no other request before it.
pub proof fn law_terminal_request_is_taken_exactly_when_whole<E, C, Q, S>(
    state: SessionRpcState<E, C, Q, S>,
    request: TerminalRequest,
    session_revision: AggregateRevision,
    payload_maximum: int,
)
    ensures
        submit_terminal_refusal(state, request, session_revision, payload_maximum) is None <==> {
            let payload = decoded(encode_utf8(request.terminal_payload_b64@));
            let stop = spec_parse_stop_reason(request.stop_reason@);
            &&& state.packet_verified
            &&& request.expected_revision == session_revision.value
            &&& payload is Ok && payload->Ok_0.len() <= payload_maximum
            &&& stop is Some
            &&& stop == Some(StopReason::Completed) <==> request.terminal_operation is Some
            &&& request.terminal_operation matches Some(name) ==> {
                let operation = spec_operation_of(name@);
                &&& operation is Some
                &&& operation == Some(TerminalOperation::CandidateSubmit)
                    ==> state.engineering.submitted
                &&& operation == Some(TerminalOperation::QualitySubmitReview)
                    ==> state.quality.review_submitted
            }
            &&& state.transcript is Some
            &&& state.transcript->0.artifact_id.value == request.transcript_artifact_id
            &&& state.terminal_request matches Some(prior) ==> same_terminal_request(prior, request)
        },
{
}

/// Two terminal requests are the same exactly when they agree in every field.
pub proof fn law_same_terminal_request_is_equality(left: TerminalRequest, right: TerminalRequest)
    ensures
        same_terminal_request(left, right) <==> {
            &&& left.request_id@ == right.request_id@
            &&& left.client_command_id@ == right.client_command_id@
            &&& left.expected_revision == right.expected_revision
            &&& left.terminal_operation is Some <==> right.terminal_operation is Some
            &&& left.terminal_operation is Some ==> left.terminal_operation->0@
                == right.terminal_operation->0@
            &&& left.stop_reason@ == right.stop_reason@
            &&& left.terminal_payload_b64@ == right.terminal_payload_b64@
            &&& left.transcript_artifact_id == right.transcript_artifact_id
            &&& left.input_tokens == right.input_tokens
            &&& left.output_tokens == right.output_tokens
            &&& left.cache_read_tokens == right.cache_read_tokens
            &&& left.cache_write_tokens == right.cache_write_tokens
            &&& left.reasoning_tokens == right.reasoning_tokens
            &&& left.reported_cost_micro_usd == right.reported_cost_micro_usd
        },
{
}

/// A failed validation is told in these words.
pub proof fn law_hard_validation_is_told(state: Seq<char>, candidate_id: i64, validation_id: i64)
    ensures
        hard_validation_text(state, candidate_id, validation_id)
            == "hard candidate validation is "@ + state + " (candidate "@ + crate::text::decimal(
            candidate_id as int,
        ) + ", validation "@ + crate::text::decimal(validation_id as int) + ")"@,
{
}

} // verus!
