//! Reading evidence: an artifact is readable by a session only if its packet
//! names it and the assignment's durable evidence still reaches it.

use vstd::prelude::*;

use crate::base64::{ascii_text, base64_encode, base64_of};
use crate::digest::{digest_bytes, hex_of, is_digest_text, ContentDigest};
use crate::identity::{ArtifactId, CandidateId, CasArtifact, TicketAttemptId};
use crate::packet::{AssignmentEvidence, AssignmentPacket};
use crate::session_rpc::{
    grants, require_packet_verified, spec_packet_verified, tool_granted, RpcError, RpcRefusal,
    OP_ARTIFACT_READ,
};

verus! {

/// The largest artifact a session may read. Its answer carries base64, so this
/// stays far below what one frame can hold.
pub const ARTIFACT_READ_MAX_BYTES: u64 = 2097152;

/// Stage of an attempt whose candidate was sent back for rework.
pub const REWORK_STAGE: i16 = 4;

/// Refusal of an artifact read.
pub open spec fn read_refusal(detail: &'static str) -> RpcRefusal {
    RpcRefusal { operation: OP_ARTIFACT_READ, detail }
}

fn read_refused(detail: &'static str) -> (refusal: RpcRefusal)
    ensures
        refusal == read_refusal(detail),
{
    RpcRefusal { operation: OP_ARTIFACT_READ, detail }
}

/// The first reference to an artifact.
pub open spec fn reference_to(evidence: Seq<AssignmentEvidence>, artifact_id: ArtifactId) -> Option<
    AssignmentEvidence,
>
    decreases evidence.len(),
{
    if evidence.len() == 0 {
        None
    } else if evidence[0].artifact_id == artifact_id {
        Some(evidence[0])
    } else {
        reference_to(evidence.skip(1), artifact_id)
    }
}

/// Why an artifact's packet reference does not admit a read, if it does not.
pub open spec fn reference_fault(
    reference: Option<AssignmentEvidence>,
    requested_digest: ContentDigest,
    registered_digest: ContentDigest,
    registered_byte_length: u64,
) -> Option<RpcRefusal> {
    match reference {
        None => Some(read_refusal("artifact is not named by this assignment packet evidence")),
        Some(reference) => if reference.digest != requested_digest {
            Some(
                read_refusal(
                    "requested digest differs from the assignment packet evidence reference",
                ),
            )
        } else if reference.digest != registered_digest {
            Some(
                read_refusal(
                    "registered artifact digest differs from the assignment packet evidence reference",
                ),
            )
        } else if reference.byte_length != registered_byte_length {
            Some(
                read_refusal(
                    "registered artifact length differs from the assignment packet evidence reference",
                ),
            )
        } else {
            None
        },
    }
}

/// The packet's reference to an artifact must agree with the request and with
/// the registered seal.
pub fn require_packet_evidence_reference(
    packet: &AssignmentPacket,
    artifact_id: ArtifactId,
    requested_digest: ContentDigest,
    registered_digest: ContentDigest,
    registered_byte_length: u64,
) -> (result: Result<(), RpcRefusal>)
    ensures
        result == (match reference_fault(
            reference_to(packet.assignment_evidence@, artifact_id),
            requested_digest,
            registered_digest,
            registered_byte_length,
        ) {
            Some(refusal) => Err::<(), RpcRefusal>(refusal),
            None => Ok(()),
        }),
{
    let evidence = &packet.assignment_evidence;
    let mut index: usize = 0;
    assert(evidence@.skip(0) =~= evidence@);
    while index < evidence.len()
        invariant
            index <= evidence.len(),
            evidence == packet.assignment_evidence,
            reference_to(evidence@, artifact_id) == reference_to(
                evidence@.skip(index as int),
                artifact_id,
            ),
        decreases evidence.len() - index,
    {
        assert(evidence@.skip(index as int).skip(1) =~= evidence@.skip(index as int + 1));
        let reference = &evidence[index];
        if reference.artifact_id.value == artifact_id.value {
            if !reference.digest.same(&requested_digest) {
                return Err(
                    read_refused(
                        "requested digest differs from the assignment packet evidence reference",
                    ),
                );
            }
            if !reference.digest.same(&registered_digest) {
                return Err(
                    read_refused(
                        "registered artifact digest differs from the assignment packet evidence reference",
                    ),
                );
            }
            if reference.byte_length != registered_byte_length {
                return Err(
                    read_refused(
                        "registered artifact length differs from the assignment packet evidence reference",
                    ),
                );
            }
            return Ok(());
        }
        index += 1;
    }
    Err(read_refused("artifact is not named by this assignment packet evidence"))
}

/// Whether a closure holds an artifact.
pub fn closure_contains(closure: &Vec<ArtifactId>, artifact_id: ArtifactId) -> (found: bool)
    ensures
        found == closure@.contains(artifact_id),
{
    let mut index: usize = 0;
    while index < closure.len()
        invariant
            index <= closure.len(),
            forall|i: int| 0 <= i < index ==> closure@[i] != artifact_id,
        decreases closure.len() - index,
    {
        if closure[index].value == artifact_id.value {
            assert(closure@[index as int] == artifact_id);
            return true;
        }
        index += 1;
    }
    false
}

/// The assignment's current durable evidence must reach the artifact.
pub fn require_current_assignment_evidence_closure(
    closure: &Vec<ArtifactId>,
    artifact_id: ArtifactId,
) -> (result: Result<(), RpcRefusal>)
    ensures
        result == (if closure@.contains(artifact_id) {
            Ok::<(), RpcRefusal>(())
        } else {
            Err(
                read_refusal(
                    "artifact is not in this assignment's current durable evidence closure",
                ),
            )
        }),
{
    if closure_contains(closure, artifact_id) {
        Ok(())
    } else {
        Err(
            read_refused("artifact is not in this assignment's current durable evidence closure"),
        )
    }
}

/// What an artifact read names, or why the request is refused.
pub open spec fn read_request_refusal(
    tools: Seq<String>,
    packet_verified: bool,
    artifact_id: i64,
    expected_digest: Seq<char>,
) -> Option<RpcRefusal> {
    if !grants(tools, "artifact_read"@) {
        Some(read_refusal("artifact reading is not assigned"))
    } else if !packet_verified {
        match spec_packet_verified(false) {
            Err(refusal) => Some(refusal),
            Ok(()) => None,
        }
    } else if ArtifactId::spec_new(artifact_id) is Err {
        Some(read_refusal("artifact ID is invalid"))
    } else if !is_digest_text(expected_digest) {
        Some(read_refusal("expected digest is invalid"))
    } else {
        None
    }
}

/// Reads the identity and digest an artifact read names.
pub fn admit_artifact_read(
    tools: &Vec<String>,
    packet_verified: bool,
    artifact_id: i64,
    expected_digest: &str,
) -> (result: Result<(ArtifactId, ContentDigest), RpcRefusal>)
    ensures
        match result {
            Err(refusal) => read_request_refusal(
                tools@,
                packet_verified,
                artifact_id,
                expected_digest@,
            ) == Some(refusal),
            Ok((id, digest)) => {
                &&& read_request_refusal(
                    tools@,
                    packet_verified,
                    artifact_id,
                    expected_digest@,
                ) is None
                &&& id.value == artifact_id
                &&& digest.bytes@ == digest_bytes(expected_digest@)
            },
        },
{
    if !tool_granted(tools, "artifact_read") {
        return Err(read_refused("artifact reading is not assigned"));
    }
    match require_packet_verified(packet_verified) {
        Err(refusal) => return Err(refusal),
        Ok(()) => {},
    }
    let id = match ArtifactId::new(artifact_id) {
        Ok(id) => id,
        Err(_) => return Err(read_refused("artifact ID is invalid")),
    };
    match ContentDigest::parse_hex(expected_digest) {
        Some(digest) => Ok((id, digest)),
        None => Err(read_refused("expected digest is invalid")),
    }
}

/// Why a registered artifact may not be read, if it may not: the packet names
/// it under this digest, its seal agrees, the closure reaches it, and it is
/// small enough, in this order.
pub open spec fn artifact_read_fault(
    packet: AssignmentPacket,
    artifact_id: ArtifactId,
    requested_digest: ContentDigest,
    sealed: CasArtifact,
    closure: Seq<ArtifactId>,
) -> Option<RpcRefusal> {
    match reference_fault(
        reference_to(packet.assignment_evidence@, artifact_id),
        requested_digest,
        sealed.digest,
        sealed.byte_length,
    ) {
        Some(refusal) => Some(refusal),
        None => if !closure.contains(artifact_id) {
            Some(
                read_refusal(
                    "artifact is not in this assignment's current durable evidence closure",
                ),
            )
        } else if sealed.byte_length > ARTIFACT_READ_MAX_BYTES {
            Some(read_refusal("artifact exceeds the bounded assignment read limit"))
        } else {
            None
        },
    }
}

/// Decides whether a session may read a registered artifact.
pub fn read_assignment_artifact(
    packet: &AssignmentPacket,
    artifact_id: ArtifactId,
    requested_digest: ContentDigest,
    sealed: CasArtifact,
    closure: &Vec<ArtifactId>,
) -> (result: Result<(), RpcRefusal>)
    ensures
        result == (match artifact_read_fault(
            *packet,
            artifact_id,
            requested_digest,
            sealed,
            closure@,
        ) {
            Some(refusal) => Err::<(), RpcRefusal>(refusal),
            None => Ok(()),
        }),
{
    match require_packet_evidence_reference(
        packet,
        artifact_id,
        requested_digest,
        sealed.digest,
        sealed.byte_length,
    ) {
        Err(refusal) => return Err(refusal),
        Ok(()) => {},
    }
    match require_current_assignment_evidence_closure(closure, artifact_id) {
        Err(refusal) => return Err(refusal),
        Ok(()) => {},
    }
    if sealed.byte_length > ARTIFACT_READ_MAX_BYTES {
        return Err(read_refused("artifact exceeds the bounded assignment read limit"));
    }
    Ok(())
}

/// An artifact is read only if the packet names it under the digest asked for
/// and registered, the current closure reaches it, and it is within bounds;
/// neither a packet reference nor a durable relation alone is enough.
pub proof fn law_artifact_read_needs_packet_and_closure(
    packet: AssignmentPacket,
    artifact_id: ArtifactId,
    requested_digest: ContentDigest,
    sealed: CasArtifact,
    closure: Seq<ArtifactId>,
)
    ensures
        artifact_read_fault(packet, artifact_id, requested_digest, sealed, closure) is None <==> ({
            &&& reference_to(packet.assignment_evidence@, artifact_id) matches Some(reference)
            &&& reference.digest == requested_digest
            &&& sealed.digest == requested_digest
            &&& sealed.byte_length == reference.byte_length
            &&& closure.contains(artifact_id)
            &&& sealed.byte_length <= ARTIFACT_READ_MAX_BYTES
        }),
{
}

/// The answer to an artifact read.
#[derive(Clone, Debug, PartialEq, Eq)]
pub struct ArtifactContent {
    pub request_id: String,
    pub operation: &'static str,
    pub artifact_id: i64,
    pub digest: String,
    pub byte_length: u64,
    pub content_base64: String,
}

/// The answer that carries an artifact's verified bytes.
pub fn artifact_content(
    request_id: &String,
    artifact_id: ArtifactId,
    sealed: CasArtifact,
    bytes: &[u8],
) -> (content: ArtifactContent)
    ensures
        content.request_id == *request_id,
        content.operation == OP_ARTIFACT_READ,
        content.artifact_id == artifact_id.value,
        content.digest@ == hex_of(sealed.digest.bytes@),
        content.byte_length == sealed.byte_length,
        content.content_base64@ == ascii_text(base64_of(bytes@)),
{
    ArtifactContent {
        request_id: request_id.clone(),
        operation: OP_ARTIFACT_READ,
        artifact_id: artifact_id.value,
        digest: sealed.digest.to_hex(),
        byte_length: sealed.byte_length,
        content_base64: base64_encode(bytes),
    }
}

/// Adds an artifact to a closure that holds each artifact once.
pub fn insert_artifact(closure: &mut Vec<ArtifactId>, artifact_id: ArtifactId)
    requires
        old(closure)@.no_duplicates(),
    ensures
        final(closure)@.no_duplicates(),
        final(closure)@ == (if old(closure)@.contains(artifact_id) {
            old(closure)@
        } else {
            old(closure)@.push(artifact_id)
        }),
        final(closure)@.to_set() == old(closure)@.to_set().insert(artifact_id),
{
    if !closure_contains(closure, artifact_id) {
        closure.push(artifact_id);
        proof {
            let before = old(closure)@;
            let after = closure@;
            assert(after.to_set() =~= before.to_set().insert(artifact_id)) by {
                assert forall|id: ArtifactId| after.contains(id) implies before.to_set().insert(
                    artifact_id,
                ).contains(id) by {
                    let at = choose|i: int| 0 <= i < after.len() && after[i] == id;
                    if at < before.len() {
                        assert(before[at] == id);
                    }
                }
                assert(after[before.len() as int] == artifact_id);
                assert forall|id: ArtifactId| before.contains(id) implies after.contains(id) by {
                    let at = choose|i: int| 0 <= i < before.len() && before[i] == id;
                    assert(after[at] == id);
                }
            }
        }
    } else {
        assert(closure@.to_set() =~= closure@.to_set().insert(artifact_id));
    }
}

/// Adds the artifacts a ticket proposal refers to.
pub fn extend_ticket_proposal_closure(closure: &mut Vec<ArtifactId>, references: &Vec<ArtifactId>)
    requires
        old(closure)@.no_duplicates(),
    ensures
        final(closure)@.no_duplicates(),
        final(closure)@.to_set() == old(closure)@.to_set().union(references@.to_set()),
{
    let mut index: usize = 0;
    assert(closure@.to_set() =~= old(closure)@.to_set().union(references@.take(0).to_set()));
    while index < references.len()
        invariant
            index <= references.len(),
            closure@.no_duplicates(),
            closure@.to_set() == old(closure)@.to_set().union(
                references@.take(index as int).to_set(),
            ),
        decreases references.len() - index,
    {
        insert_artifact(closure, references[index]);
        proof {
            lemma_set_grows(references@, index as int);
        }
        assert(closure@.to_set() =~= old(closure)@.to_set().union(
            references@.take(index as int + 1).to_set(),
        ));
        index += 1;
    }
    assert(references@.take(index as int) =~= references@);
}

/// The members of a prefix, one longer.
proof fn lemma_set_grows(ids: Seq<ArtifactId>, at: int)
    requires
        0 <= at < ids.len(),
    ensures
        ids.take(at + 1).to_set() =~= ids.take(at).to_set().insert(ids[at]),
{
    let longer = ids.take(at + 1);
    let shorter = ids.take(at);
    assert forall|id: ArtifactId| longer.contains(id) implies shorter.to_set().insert(
        ids[at],
    ).contains(id) by {
        let i = choose|i: int| 0 <= i < longer.len() && longer[i] == id;
        if i < at {
            assert(shorter[i] == id);
        }
    }
    assert(longer[at] == ids[at]);
    assert forall|id: ArtifactId| shorter.contains(id) implies longer.contains(id) by {
        let i = choose|i: int| 0 <= i < shorter.len() && shorter[i] == id;
        assert(longer[i] == id);
    }
}

/// The artifacts a ticket proposal refers to.
#[derive(Clone, Copy, Debug, PartialEq, Eq)]
pub struct ProposalReferences {
    pub narrative: ArtifactId,
    pub evidence: ArtifactId,
    pub command: ArtifactId,
    pub expected_stdout: ArtifactId,
    pub expected_stderr: ArtifactId,
    pub first_stdout: ArtifactId,
    pub first_stderr: ArtifactId,
    pub second_stdout: ArtifactId,
    pub second_stderr: ArtifactId,
    pub stdin: Option<ArtifactId>,
}

/// Every artifact a proposal refers to, its standard input last.
pub open spec fn spec_proposal_artifact_references(proposal: ProposalReferences) -> Seq<
    ArtifactId,
> {
    seq![
        proposal.narrative,
        proposal.evidence,
        proposal.command,
        proposal.expected_stdout,
        proposal.expected_stderr,
        proposal.first_stdout,
        proposal.first_stderr,
        proposal.second_stdout,
        proposal.second_stderr,
    ] + (match proposal.stdin {
        Some(stdin) => seq![stdin],
        None => Seq::<ArtifactId>::empty(),
    })
}

/// Every artifact a proposal refers to.
pub fn proposal_artifact_references(proposal: &ProposalReferences) -> (references: Vec<ArtifactId>)
    ensures
        references@ == spec_proposal_artifact_references(*proposal),
{
    let mut references: Vec<ArtifactId> = Vec::new();
    references.push(proposal.narrative);
    references.push(proposal.evidence);
    references.push(proposal.command);
    references.push(proposal.expected_stdout);
    references.push(proposal.expected_stderr);
    references.push(proposal.first_stdout);
    references.push(proposal.first_stderr);
    references.push(proposal.second_stdout);
    references.push(proposal.second_stderr);
    match proposal.stdin {
        Some(stdin) => references.push(stdin),
        None => {},
    }
    assert(references@ =~= spec_proposal_artifact_references(*proposal));
    references
}

/// The attempt an Engineering session works on.
pub fn engineering_target(packet: &AssignmentPacket) -> (result: Result<
    TicketAttemptId,
    RpcRefusal,
>)
    ensures
        result == (match packet.ticket_attempt_id {
            Some(attempt) => Ok::<TicketAttemptId, RpcRefusal>(attempt),
            None => Err(read_refusal("Engineering packet has no attempt target")),
        }),
{
    match packet.ticket_attempt_id {
        Some(attempt) => Ok(attempt),
        None => Err(read_refused("Engineering packet has no attempt target")),
    }
}

/// The attempt and candidate a Quality session works on.
pub fn quality_target(packet: &AssignmentPacket) -> (result: Result<
    (TicketAttemptId, CandidateId),
    RpcRefusal,
>)
    ensures
        result == (match (packet.ticket_attempt_id, packet.candidate_id) {
            (None, _) => Err::<(TicketAttemptId, CandidateId), RpcRefusal>(
                read_refusal("Quality packet has no attempt target"),
            ),
            (Some(_), None) => Err(read_refusal("Quality packet has no candidate target")),
            (Some(attempt), Some(candidate)) => Ok((attempt, candidate)),
        }),
{
    let attempt = match packet.ticket_attempt_id {
        Some(attempt) => attempt,
        None => return Err(read_refused("Quality packet has no attempt target")),
    };
    match packet.candidate_id {
        Some(candidate) => Ok((attempt, candidate)),
        None => Err(read_refused("Quality packet has no candidate target")),
    }
}

/// The active attempt of an Engineering session, with the artifacts of the
/// ticket revision it works on.
#[derive(Clone, Copy, Debug, PartialEq, Eq)]
pub struct EngineeringEvidenceRow {
    pub stage: i16,
    pub proposal_artifact_id: i64,
    pub reproducer_artifact_id: i64,
    pub expected_observation_artifact_id: i64,
    pub discovery_observation_artifact_id: i64,
}

/// A stored artifact identity that is none.
pub open spec fn stored_id_fault(value: i64) -> Option<RpcError> {
    match ArtifactId::spec_new(value) {
        Ok(_) => None,
        Err(fault) => Some(RpcError::Contract { operation: OP_ARTIFACT_READ, fault }),
    }
}

/// The artifact of a stored identity.
pub fn stored_artifact_id(value: i64) -> (result: Result<ArtifactId, RpcError>)
    ensures
        match result {
            Ok(id) => stored_id_fault(value) is None && id.value == value,
            Err(fault) => stored_id_fault(value) == Some(fault),
        },
{
    match ArtifactId::new(value) {
        Ok(id) => Ok(id),
        Err(fault) => Err(RpcError::Contract { operation: OP_ARTIFACT_READ, fault }),
    }
}

/// Why an Engineering session has no evidence, if it has none.
pub open spec fn engineering_evidence_fault(row: Option<EngineeringEvidenceRow>) -> Option<
    RpcError,
> {
    match row {
        None => Some(RpcError::Refused(read_refusal("Engineering target is not active"))),
        Some(row) => if stored_id_fault(row.proposal_artifact_id) is Some {
            stored_id_fault(row.proposal_artifact_id)
        } else if stored_id_fault(row.reproducer_artifact_id) is Some {
            stored_id_fault(row.reproducer_artifact_id)
        } else if stored_id_fault(row.expected_observation_artifact_id) is Some {
            stored_id_fault(row.expected_observation_artifact_id)
        } else {
            stored_id_fault(row.discovery_observation_artifact_id)
        },
    }
}

/// The ticket's own artifacts, and whether a rejected candidate's evidence
/// belongs to the closure too.
pub struct EngineeringEvidence {
    pub proposal: ArtifactId,
    pub closure: Vec<ArtifactId>,
    pub rework: bool,
}

/// The evidence an Engineering session starts from. The proposal's own
/// references and, for a rework, the rejected candidate's evidence are added
/// to it.
pub fn engineering_evidence(row: Option<EngineeringEvidenceRow>) -> (result: Result<
    EngineeringEvidence,
    RpcError,
>)
    ensures
        match result {
            Err(fault) => engineering_evidence_fault(row) == Some(fault),
            Ok(evidence) => {
                &&& engineering_evidence_fault(row) is None
                &&& row matches Some(row)
                &&& evidence.proposal.value == row.proposal_artifact_id
                &&& evidence.rework == (row.stage == REWORK_STAGE)
                &&& evidence.closure@.no_duplicates()
                &&& evidence.closure@.to_set() == set![
                    ArtifactId { value: row.proposal_artifact_id },
                    ArtifactId { value: row.reproducer_artifact_id },
                    ArtifactId { value: row.expected_observation_artifact_id },
                    ArtifactId { value: row.discovery_observation_artifact_id },
                ]
            },
        },
{
    let row = match row {
        Some(row) => row,
        None => return Err(RpcError::Refused(read_refused("Engineering target is not active"))),
    };
    let proposal = match stored_artifact_id(row.proposal_artifact_id) {
        Ok(id) => id,
        Err(fault) => return Err(fault),
    };
    let reproducer = match stored_artifact_id(row.reproducer_artifact_id) {
        Ok(id) => id,
        Err(fault) => return Err(fault),
    };
    let expected = match stored_artifact_id(row.expected_observation_artifact_id) {
        Ok(id) => id,
        Err(fault) => return Err(fault),
    };
    let discovery = match stored_artifact_id(row.discovery_observation_artifact_id) {
        Ok(id) => id,
        Err(fault) => return Err(fault),
    };
    let mut closure: Vec<ArtifactId> = Vec::new();
    assert(closure@.to_set() =~= Set::<ArtifactId>::empty());
    insert_artifact(&mut closure, proposal);
    insert_artifact(&mut closure, reproducer);
    insert_artifact(&mut closure, expected);
    insert_artifact(&mut closure, discovery);
    Ok(EngineeringEvidence { proposal, closure, rework: row.stage == REWORK_STAGE })
}

/// The first unreadable row of a stored closure: an absent identity, or one
/// that is none.
pub open spec fn closure_rows_fault(rows: Seq<Option<i64>>, corrupt: &'static str) -> Option<
    RpcError,
>
    decreases rows.len(),
{
    if rows.len() == 0 {
        None
    } else {
        match rows[0] {
            None => Some(RpcError::Refused(read_refusal(corrupt))),
            Some(value) => match stored_id_fault(value) {
                Some(fault) => Some(fault),
                None => closure_rows_fault(rows.skip(1), corrupt),
            },
        }
    }
}

/// The artifacts of readable rows.
pub open spec fn row_artifacts(rows: Seq<Option<i64>>) -> Set<ArtifactId> {
    rows.map_values(|row: Option<i64>| ArtifactId { value: row->0 }).to_set()
}

/// The rows before the first unreadable one.
pub open spec fn readable_rows(rows: Seq<Option<i64>>) -> Seq<Option<i64>>
    decreases rows.len(),
{
    if rows.len() > 0 && rows[0] is Some && stored_id_fault(rows[0]->0) is None {
        seq![rows[0]] + readable_rows(rows.skip(1))
    } else {
        Seq::empty()
    }
}

proof fn lemma_all_rows_readable(rows: Seq<Option<i64>>, corrupt: &'static str)
    requires
        closure_rows_fault(rows, corrupt) is None,
    ensures
        readable_rows(rows) == rows,
    decreases rows.len(),
{
    if rows.len() > 0 {
        lemma_all_rows_readable(rows.skip(1), corrupt);
        assert(seq![rows[0]] + rows.skip(1) =~= rows);
    } else {
        assert(rows =~= Seq::empty());
    }
}

/// Adds the artifacts of stored rows, up to the first unreadable one.
fn extend_from_rows(
    closure: &mut Vec<ArtifactId>,
    rows: &Vec<Option<i64>>,
    corrupt: &'static str,
) -> (result: Result<(), RpcError>)
    requires
        old(closure)@.no_duplicates(),
    ensures
        final(closure)@.no_duplicates(),
        match result {
            Err(fault) => closure_rows_fault(rows@, corrupt) == Some(fault),
            Ok(()) => closure_rows_fault(rows@, corrupt) is None && readable_rows(rows@) == rows@,
        },
        final(closure)@.to_set() == old(closure)@.to_set().union(
            row_artifacts(readable_rows(rows@)),
        ),
{
    let ghost ids = rows@.map_values(|row: Option<i64>| ArtifactId { value: row->0 });
    let mut index: usize = 0;
    assert(rows@.skip(0) =~= rows@);
    assert(readable_rows(rows@) =~= rows@.take(0) + readable_rows(rows@));
    assert(closure@.to_set() =~= old(closure)@.to_set().union(ids.take(0).to_set()));
    while index < rows.len()
        invariant
            index <= rows.len(),
            ids == rows@.map_values(|row: Option<i64>| ArtifactId { value: row->0 }),
            closure@.no_duplicates(),
            closure_rows_fault(rows@, corrupt) == closure_rows_fault(
                rows@.skip(index as int),
                corrupt,
            ),
            readable_rows(rows@) == rows@.take(index as int) + readable_rows(
                rows@.skip(index as int),
            ),
            closure@.to_set() == old(closure)@.to_set().union(ids.take(index as int).to_set()),
        decreases rows.len() - index,
    {
        assert(rows@.skip(index as int).skip(1) =~= rows@.skip(index as int + 1));
        proof {
            lemma_readable_so_far(rows@, index as int);
        }
        let value: i64 = match rows[index] {
            Some(value) => value,
            None => return Err(RpcError::Refused(read_refused(corrupt))),
        };
        let id = match stored_artifact_id(value) {
            Ok(id) => id,
            Err(fault) => return Err(fault),
        };
        assert(rows@.take(index as int + 1) + readable_rows(rows@.skip(index as int + 1))
            =~= rows@.take(index as int) + (seq![rows@[index as int]] + readable_rows(
            rows@.skip(index as int + 1),
        )));
        assert(ids[index as int] == id);
        insert_artifact(closure, id);
        proof {
            lemma_set_grows(ids, index as int);
        }
        assert(closure@.to_set() =~= old(closure)@.to_set().union(
            ids.take(index as int + 1).to_set(),
        ));
        index += 1;
    }
    assert(ids.take(index as int) =~= ids);
    proof {
        lemma_all_rows_readable(rows@, corrupt);
    }
    Ok(())
}

/// Where a row is unreadable, what was read is what stands before it.
proof fn lemma_readable_so_far(rows: Seq<Option<i64>>, at: int)
    requires
        0 <= at < rows.len(),
        readable_rows(rows) == rows.take(at) + readable_rows(rows.skip(at)),
    ensures
        rows.skip(at)[0] == rows[at],
        rows[at] is None || stored_id_fault(rows[at]->0) is Some ==> row_artifacts(
            readable_rows(rows),
        ) == rows.map_values(|row: Option<i64>| ArtifactId { value: row->0 }).take(at).to_set(),
{
    if rows[at] is None || stored_id_fault(rows[at]->0) is Some {
        assert(readable_rows(rows) =~= rows.take(at));
        assert(rows.take(at).map_values(|row: Option<i64>| ArtifactId { value: row->0 })
            =~= rows.map_values(|row: Option<i64>| ArtifactId { value: row->0 }).take(at));
    }
}

/// Why the evidence of a rejected candidate cannot be added, if it cannot.
pub open spec fn rework_fault(rows: Seq<Option<i64>>) -> Option<RpcError> {
    if rows.len() == 0 {
        Some(
            RpcError::Refused(
                read_refusal("Engineering rework has no current rejected candidate evidence"),
            ),
        )
    } else {
        closure_rows_fault(rows, "Engineering rework evidence closure is corrupt")
    }
}

/// Adds the rejected candidate's evidence to the closure of a rework, up to the
/// first unreadable row.
pub fn extend_rework_candidate_closure(
    closure: &mut Vec<ArtifactId>,
    rows: &Vec<Option<i64>>,
) -> (result: Result<(), RpcError>)
    requires
        old(closure)@.no_duplicates(),
    ensures
        final(closure)@.no_duplicates(),
        match result {
            Err(fault) => rework_fault(rows@) == Some(fault),
            Ok(()) => rework_fault(rows@) is None && readable_rows(rows@) == rows@,
        },
        final(closure)@.to_set() == old(closure)@.to_set().union(
            row_artifacts(readable_rows(rows@)),
        ),
{
    if rows.len() == 0 {
        assert(closure@.to_set() =~= closure@.to_set().union(row_artifacts(readable_rows(rows@))));
        return Err(
            RpcError::Refused(
                read_refused("Engineering rework has no current rejected candidate evidence"),
            ),
        );
    }
    extend_from_rows(closure, rows, "Engineering rework evidence closure is corrupt")
}

/// Why a Quality session has no evidence, if it has none.
pub open spec fn quality_evidence_fault(rows: Seq<Option<i64>>) -> Option<RpcError> {
    if rows.len() == 0 {
        Some(RpcError::Refused(read_refusal("Quality target is not active")))
    } else {
        closure_rows_fault(rows, "Quality evidence closure is corrupt")
    }
}

/// The evidence a Quality session starts from. The proposal's own references
/// are added to it.
pub fn quality_evidence(rows: &Vec<Option<i64>>) -> (result: Result<Vec<ArtifactId>, RpcError>)
    ensures
        match result {
            Err(fault) => quality_evidence_fault(rows@) == Some(fault),
            Ok(closure) => {
                &&& quality_evidence_fault(rows@) is None
                &&& closure@.no_duplicates()
                &&& closure@.to_set() == row_artifacts(rows@)
            },
        },
{
    if rows.len() == 0 {
        return Err(RpcError::Refused(read_refused("Quality target is not active")));
    }
    let mut closure: Vec<ArtifactId> = Vec::new();
    assert(closure@.to_set() =~= Set::<ArtifactId>::empty());
    match extend_from_rows(&mut closure, rows, "Quality evidence closure is corrupt") {
        Err(fault) => Err(fault),
        Ok(()) => {
            assert(closure@.to_set() =~= row_artifacts(rows@));
            Ok(closure)
        },
    }
}

/// The proposal of the ticket a Quality session reviews.
pub fn quality_ticket_proposal_artifact(row: Option<i64>) -> (result: Result<ArtifactId, RpcError>)
    ensures
        match result {
            Ok(id) => row == Some(id.value) && stored_id_fault(id.value) is None,
            Err(fault) => match row {
                None => fault == RpcError::Refused(read_refusal("Quality target is not active")),
                Some(value) => stored_id_fault(value) == Some(fault),
            },
        },
{
    match row {
        None => Err(RpcError::Refused(read_refused("Quality target is not active"))),
        Some(value) => stored_artifact_id(value),
    }
}

/// An artifact is read exactly when the first reference of the packet to it
/// carries the requested digest, which with the length is the registered one,
/// it lies in the current closure, and it is within two mebibytes.
pub proof fn law_artifact_is_read_exactly_when_referenced(
    packet: AssignmentPacket,
    artifact_id: ArtifactId,
    requested_digest: ContentDigest,
    sealed: CasArtifact,
    closure: Seq<ArtifactId>,
)
    ensures
        artifact_read_fault(packet, artifact_id, requested_digest, sealed, closure) is None <==> {
            &&& exists|at: int|
                #![trigger packet.assignment_evidence@[at]]
                {
                    &&& 0 <= at < packet.assignment_evidence@.len()
                    &&& packet.assignment_evidence@[at].artifact_id == artifact_id
                    &&& packet.assignment_evidence@[at].digest == requested_digest
                    &&& packet.assignment_evidence@[at].digest == sealed.digest
                    &&& packet.assignment_evidence@[at].byte_length == sealed.byte_length
                    &&& forall|i: int|
                        0 <= i < at ==> (#[trigger] packet.assignment_evidence@[i]).artifact_id
                            != artifact_id
                }
            &&& closure.contains(artifact_id)
            &&& sealed.byte_length <= 2_097_152
        },
{
    let evidence = packet.assignment_evidence@;
    lemma_reference_is_the_first(evidence, artifact_id);
    if artifact_read_fault(packet, artifact_id, requested_digest, sealed, closure) is None {
        let at = choose|at: int|
            #![trigger evidence[at]]
            0 <= at < evidence.len() && evidence[at].artifact_id == artifact_id && reference_to(
                evidence,
                artifact_id,
            ) == Some(evidence[at]) && forall|i: int|
                0 <= i < at ==> (#[trigger] evidence[i]).artifact_id != artifact_id;
        assert(evidence[at].digest == requested_digest);
    }
}

proof fn lemma_reference_is_the_first(evidence: Seq<AssignmentEvidence>, artifact_id: ArtifactId)
    ensures
        reference_to(evidence, artifact_id) is None <==> forall|i: int|
            0 <= i < evidence.len() ==> (#[trigger] evidence[i]).artifact_id != artifact_id,
        reference_to(evidence, artifact_id) is Some ==> exists|at: int|
            #![trigger evidence[at]]
            0 <= at < evidence.len() && evidence[at].artifact_id == artifact_id && reference_to(
                evidence,
                artifact_id,
            ) == Some(evidence[at]) && forall|i: int|
                0 <= i < at ==> (#[trigger] evidence[i]).artifact_id != artifact_id,
        forall|at: int|
            #![trigger evidence[at]]
            0 <= at < evidence.len() && evidence[at].artifact_id == artifact_id && (forall|i: int|
                0 <= i < at ==> (#[trigger] evidence[i]).artifact_id != artifact_id)
                ==> reference_to(evidence, artifact_id) == Some(evidence[at]),
    decreases evidence.len(),
{
    if evidence.len() > 0 {
        let first = evidence[0];
        let rest = evidence.skip(1);
        if first.artifact_id != artifact_id {
            lemma_reference_is_the_first(rest, artifact_id);
            assert forall|i: int| 1 <= i < evidence.len() implies (#[trigger] evidence[i])
                == rest[i - 1] by {}
            if reference_to(rest, artifact_id) is Some {
                let at = choose|at: int|
                    #![trigger rest[at]]
                    0 <= at < rest.len() && rest[at].artifact_id == artifact_id && reference_to(
                        rest,
                        artifact_id,
                    ) == Some(rest[at]) && forall|i: int|
                        0 <= i < at ==> (#[trigger] rest[i]).artifact_id != artifact_id;
                assert(evidence[at + 1] == rest[at]);
            } else {
                assert forall|i: int| 0 <= i < evidence.len() implies (
                #[trigger] evidence[i]).artifact_id != artifact_id by {
                    if i > 0 {
                        assert(rest[i - 1].artifact_id != artifact_id);
                    }
                }
            }
            assert forall|at: int|
                #![trigger evidence[at]]
                0 <= at < evidence.len() && evidence[at].artifact_id == artifact_id && (forall|
                    i: int,
                |
                    0 <= i < at ==> (#[trigger] evidence[i]).artifact_id
                        != artifact_id) implies reference_to(evidence, artifact_id) == Some(
                evidence[at],
            ) by {
                assert(rest[at - 1] == evidence[at]);
                assert forall|i: int| 0 <= i < at - 1 implies (#[trigger] rest[i]).artifact_id
                    != artifact_id by {
                    assert(evidence[i + 1] == rest[i]);
                }
            }
        } else {
            assert forall|at: int|
                #![trigger evidence[at]]
                0 <= at < evidence.len() && evidence[at].artifact_id == artifact_id && (forall|
                    i: int,
                |
                    0 <= i < at ==> (#[trigger] evidence[i]).artifact_id
                        != artifact_id) implies reference_to(evidence, artifact_id) == Some(
                evidence[at],
            ) by {
                if at > 0 {
                    assert(evidence[0].artifact_id != artifact_id);
                }
            }
        }
    }
}

/// A read is admitted exactly with its tool on a verified packet, for a positive
/// identity and a digest written in full.
pub proof fn law_read_is_admitted_exactly_when_asked_well(
    tools: Seq<String>,
    packet_verified: bool,
    artifact_id: i64,
    expected_digest: Seq<char>,
)
    ensures
        read_request_refusal(tools, packet_verified, artifact_id, expected_digest) is None <==> {
            &&& exists|i: int| 0 <= i < tools.len() && #[trigger] tools[i]@ == "artifact_read"@
            &&& packet_verified
            &&& artifact_id > 0
            &&& is_digest_text(expected_digest)
        },
{
}

/// A proposal's references are its nine artifacts and its input, where it has
/// one, and nothing else.
pub proof fn law_proposal_references_are_its_artifacts(
    proposal: ProposalReferences,
    artifact_id: ArtifactId,
)
    ensures
        spec_proposal_artifact_references(proposal).contains(artifact_id) <==> {
            ||| artifact_id == proposal.narrative
            ||| artifact_id == proposal.evidence
            ||| artifact_id == proposal.command
            ||| artifact_id == proposal.expected_stdout
            ||| artifact_id == proposal.expected_stderr
            ||| artifact_id == proposal.first_stdout
            ||| artifact_id == proposal.first_stderr
            ||| artifact_id == proposal.second_stdout
            ||| artifact_id == proposal.second_stderr
            ||| proposal.stdin == Some(artifact_id)
        },
{
    let references = spec_proposal_artifact_references(proposal);
    assert(references[0] == proposal.narrative);
    assert(references[1] == proposal.evidence);
    assert(references[2] == proposal.command);
    assert(references[3] == proposal.expected_stdout);
    assert(references[4] == proposal.expected_stderr);
    assert(references[5] == proposal.first_stdout);
    assert(references[6] == proposal.first_stderr);
    assert(references[7] == proposal.second_stdout);
    assert(references[8] == proposal.second_stderr);
    if proposal.stdin is Some {
        assert(references[9] == proposal.stdin->0);
    }
    if references.contains(artifact_id) {
        let at = choose|at: int| 0 <= at < references.len() && references[at] == artifact_id;
        assert(at <= 9);
    }
}

/// An Engineering target's evidence is read exactly when it is active and all
/// four identities are positive.
pub proof fn law_engineering_evidence_is_whole(row: Option<EngineeringEvidenceRow>)
    ensures
        engineering_evidence_fault(row) is None <==> {
            &&& row is Some
            &&& row->0.proposal_artifact_id > 0
            &&& row->0.reproducer_artifact_id > 0
            &&& row->0.expected_observation_artifact_id > 0
            &&& row->0.discovery_observation_artifact_id > 0
        },
{
}

/// Rows of an evidence closure are read exactly when there is one and each names
/// a positive identity; the closure they give holds each of them and nothing
/// else.
pub proof fn law_closure_rows_are_whole(rows: Seq<Option<i64>>, artifact_id: ArtifactId)
    ensures
        quality_evidence_fault(rows) is None <==> rows.len() > 0 && forall|i: int|
            0 <= i < rows.len() ==> #[trigger] rows[i] is Some && rows[i]->0 > 0,
        rework_fault(rows) is None <==> rows.len() > 0 && forall|i: int|
            0 <= i < rows.len() ==> #[trigger] rows[i] is Some && rows[i]->0 > 0,
        row_artifacts(rows).contains(artifact_id) <==> exists|i: int|
            0 <= i < rows.len() && (#[trigger] rows[i])->0 == artifact_id.value,
{
    lemma_rows_are_whole(rows, "Quality evidence closure is corrupt");
    lemma_rows_are_whole(rows, "Engineering rework evidence closure is corrupt");
    let mapped = rows.map_values(|row: Option<i64>| ArtifactId { value: row->0 });
    if row_artifacts(rows).contains(artifact_id) {
        let at = choose|at: int| 0 <= at < mapped.len() && mapped[at] == artifact_id;
        assert(rows[at]->0 == artifact_id.value);
    }
    if exists|i: int| 0 <= i < rows.len() && (#[trigger] rows[i])->0 == artifact_id.value {
        let at = choose|i: int| 0 <= i < rows.len() && (#[trigger] rows[i])->0 == artifact_id.value;
        assert(mapped[at] == artifact_id);
    }
}

proof fn lemma_rows_are_whole(rows: Seq<Option<i64>>, corrupt: &'static str)
    ensures
        closure_rows_fault(rows, corrupt) is None <==> forall|i: int|
            0 <= i < rows.len() ==> #[trigger] rows[i] is Some && rows[i]->0 > 0,
    decreases rows.len(),
{
    if rows.len() > 0 {
        let rest = rows.skip(1);
        lemma_rows_are_whole(rest, corrupt);
        assert forall|i: int| 0 <= i < rest.len() implies #[trigger] rest[i] == rows[i + 1] by {}
        if closure_rows_fault(rows, corrupt) is None {
            assert forall|i: int| 0 <= i < rows.len() implies #[trigger] rows[i] is Some
                && rows[i]->0 > 0 by {
                if i > 0 {
                    assert(rest[i - 1] == rows[i]);
                }
            }
        } else if forall|i: int|
            0 <= i < rows.len() ==> #[trigger] rows[i] is Some && rows[i]->0 > 0 {
            assert(rows[0] is Some && rows[0]->0 > 0);
        }
    }
}

/// The rows that are read of a closure are those before the first that names no
/// positive identity.
pub proof fn law_rows_are_read_up_to_the_first_fault(
    sound: Seq<Option<i64>>,
    rest: Seq<Option<i64>>,
)
    requires
        forall|i: int| 0 <= i < sound.len() ==> #[trigger] sound[i] is Some && sound[i]->0 > 0,
        rest.len() > 0 ==> rest[0] is None || rest[0]->0 <= 0,
    ensures
        readable_rows(sound + rest) == sound,
    decreases sound.len(),
{
    let rows = sound + rest;
    if sound.len() > 0 {
        let tail = sound.skip(1);
        assert forall|i: int| 0 <= i < tail.len() implies #[trigger] tail[i] is Some && tail[i]->0
            > 0 by {
            assert(tail[i] == sound[i + 1]);
        }
        law_rows_are_read_up_to_the_first_fault(tail, rest);
        assert(rows.skip(1) =~= tail + rest);
        assert(rows[0] == sound[0]);
        assert(seq![sound[0]] + tail =~= sound);
    } else {
        assert(rows =~= rest);
        assert(readable_rows(rows) =~= sound);
    }
}

} // verus!
