//! Ticket commands, their receipts, and the fingerprints that identify a
//! repeated command.

use vstd::prelude::*;
use vstd::utf8::encode_utf8;

use crate::digest::{blake3_of, ContentDigest};
use crate::encoding::{
    be64, be_i64, frameable, framed, lemma_be64_head, lemma_be_i64_head, lemma_concat_assoc,
    lemma_concat_split, lemma_framed_head, push_framed, push_i64, push_u64,
};
use crate::identity::{
    AggregateRevision, ApplicationRevisionId, ArtifactId, CampaignId, CandidateId,
    ExpectedRevision, TicketAttemptId, TicketId, TicketRevisionId,
};
use crate::text::{push_bytes, push_text};
use crate::ticket::{
    ClaimOutcome, CurrentHeadRequalification, ReleaseOutcome, TicketState, CLAIM_OPERATION,
    COMPLETE_CAMPAIGN_OPERATION, ENGINEERING_RETRY_OPERATION, FAIL_OPERATION, PROPOSE_OPERATION,
    QUALITY_RETRY_OPERATION, RELEASE_OPERATION, SPONSOR_OPERATION,
};

verus! {

/// A proposal whose failure was observed twice. Both sealed observations must
/// agree with each other and differ from the expected one.
#[derive(Clone, Debug, PartialEq, Eq)]
pub struct SubmitTicketProposal {
    pub principal: String,
    pub command_id: String,
    pub expected_application_revision: ExpectedRevision,
    pub application_revision_id: ApplicationRevisionId,
    pub proposal_artifact_id: ArtifactId,
    pub reproducer_artifact_id: ArtifactId,
    pub expected_observation_artifact_id: ArtifactId,
    pub first_actual_observation_artifact_id: ArtifactId,
    pub second_actual_observation_artifact_id: ArtifactId,
    pub discovery_commit: String,
    pub discovery_tree: String,
}

#[derive(Clone, Copy, Debug, PartialEq, Eq, Structural)]
pub struct TicketProposalReceipt {
    pub ticket_id: TicketId,
    pub ticket_revision_id: TicketRevisionId,
    pub resulting_revision: AggregateRevision,
    pub audit_log_id: i64,
    pub was_idempotent_retry: bool,
}

#[derive(Clone, Debug, PartialEq, Eq)]
pub struct SponsorTicketRevision {
    pub principal: String,
    pub command_id: String,
    pub ticket_revision_id: TicketRevisionId,
    pub expected_ticket_revision: ExpectedRevision,
    pub reason: String,
}

#[derive(Clone, Copy, Debug, PartialEq, Eq, Structural)]
pub struct TicketRevisionReceipt {
    pub ticket_id: TicketId,
    pub ticket_revision_id: TicketRevisionId,
    pub state: TicketState,
    pub resulting_revision: AggregateRevision,
    pub audit_log_id: i64,
    pub was_idempotent_retry: bool,
}

#[derive(Clone, Debug, PartialEq, Eq)]
pub struct ClaimSponsoredTicket {
    pub principal: String,
    pub command_id: String,
    pub campaign_id: CampaignId,
    pub expected_campaign_revision: ExpectedRevision,
    pub ticket_revision_id: TicketRevisionId,
    pub expected_ticket_revision: ExpectedRevision,
    pub requalification: CurrentHeadRequalification,
}

#[derive(Clone, Copy, Debug, PartialEq, Eq, Structural)]
pub struct ClaimTicketReceipt {
    pub ticket_id: TicketId,
    pub ticket_revision_id: TicketRevisionId,
    pub outcome: ClaimOutcome,
    pub resulting_ticket_revision: AggregateRevision,
    pub audit_log_id: i64,
    pub was_idempotent_retry: bool,
}

/// Ends the current attempt after a paid failure. The ticket does not become
/// claimable; only [`ReleaseTicketAttempt`] makes it so.
#[derive(Clone, Debug, PartialEq, Eq)]
pub struct FailTicketAttempt {
    pub principal: String,
    pub command_id: String,
    pub ticket_attempt_id: TicketAttemptId,
    pub expected_attempt_revision: ExpectedRevision,
    pub expected_ticket_revision: ExpectedRevision,
    pub reason: String,
}

#[derive(Clone, Copy, Debug, PartialEq, Eq, Structural)]
pub struct TicketAttemptReceipt {
    pub ticket_attempt_id: TicketAttemptId,
    pub resulting_attempt_revision: AggregateRevision,
    pub audit_log_id: i64,
    pub was_idempotent_retry: bool,
}

/// One Quality-only recovery that keeps the validated candidate.
#[derive(Clone, Debug, PartialEq, Eq)]
pub struct RetryQualityAttempt {
    pub principal: String,
    pub command_id: String,
    pub ticket_attempt_id: TicketAttemptId,
    pub candidate_id: CandidateId,
    pub expected_attempt_revision: ExpectedRevision,
    pub expected_ticket_revision: ExpectedRevision,
    pub reason: String,
}

/// One Engineering recovery that keeps the claimed base and the ticket.
#[derive(Clone, Debug, PartialEq, Eq)]
pub struct RetryEngineeringAttempt {
    pub principal: String,
    pub command_id: String,
    pub ticket_attempt_id: TicketAttemptId,
    pub expected_attempt_revision: ExpectedRevision,
    pub expected_ticket_revision: ExpectedRevision,
    pub reason: String,
}

/// Releases a failed attempt after a current-head requalification. A resolved
/// or divergent head stays terminal.
#[derive(Clone, Debug, PartialEq, Eq)]
pub struct ReleaseTicketAttempt {
    pub principal: String,
    pub command_id: String,
    pub ticket_attempt_id: TicketAttemptId,
    pub expected_attempt_revision: ExpectedRevision,
    pub expected_ticket_revision: ExpectedRevision,
    pub reason: String,
    pub requalification: CurrentHeadRequalification,
}

#[derive(Clone, Copy, Debug, PartialEq, Eq, Structural)]
pub struct ReleaseTicketReceipt {
    pub ticket_id: TicketId,
    pub ticket_revision_id: TicketRevisionId,
    pub ticket_attempt_id: TicketAttemptId,
    pub outcome: ReleaseOutcome,
    pub resulting_ticket_revision: AggregateRevision,
    pub resulting_attempt_revision: AggregateRevision,
    pub audit_log_id: i64,
    pub was_idempotent_retry: bool,
}

/// Completes a running campaign whose delivered attempts meet its target.
#[derive(Clone, Debug, PartialEq, Eq)]
pub struct CompleteCampaignAtDeliveryTarget {
    pub principal: String,
    pub command_id: String,
    pub campaign_id: CampaignId,
    pub expected_campaign_revision: ExpectedRevision,
}

/// The bytes every ticket fingerprint begins with, followed by `rest`.
pub open spec fn ticket_preimage(
    operation: Seq<char>,
    principal: Seq<char>,
    command_id: Seq<char>,
    rest: Seq<u8>,
) -> Seq<u8> {
    encode_utf8(operation) + (framed(principal) + (framed(command_id) + rest))
}

/// The bytes a requalification contributes, followed by nothing.
pub open spec fn requalification_bytes(value: CurrentHeadRequalification) -> Seq<u8> {
    framed(value.current_head_commit@) + (framed(value.current_head_tree@) + (be_i64(
        value.first_actual_observation_artifact_id.value,
    ) + be_i64(value.second_actual_observation_artifact_id.value)))
}

pub open spec fn proposal_preimage(command: SubmitTicketProposal) -> Seq<u8> {
    ticket_preimage(
        PROPOSE_OPERATION@,
        command.principal@,
        command.command_id@,
        be64(command.expected_application_revision.revision.value) + (be_i64(
            command.application_revision_id.value,
        ) + (be_i64(command.proposal_artifact_id.value) + (be_i64(
            command.reproducer_artifact_id.value,
        ) + (be_i64(command.expected_observation_artifact_id.value) + (be_i64(
            command.first_actual_observation_artifact_id.value,
        ) + (be_i64(command.second_actual_observation_artifact_id.value) + (framed(
            command.discovery_commit@,
        ) + framed(command.discovery_tree@)))))))),
    )
}

pub open spec fn sponsor_preimage(command: SponsorTicketRevision) -> Seq<u8> {
    ticket_preimage(
        SPONSOR_OPERATION@,
        command.principal@,
        command.command_id@,
        be_i64(command.ticket_revision_id.value) + (be64(
            command.expected_ticket_revision.revision.value,
        ) + framed(command.reason@)),
    )
}

pub open spec fn claim_preimage(command: ClaimSponsoredTicket) -> Seq<u8> {
    ticket_preimage(
        CLAIM_OPERATION@,
        command.principal@,
        command.command_id@,
        be_i64(command.campaign_id.value) + (be64(
            command.expected_campaign_revision.revision.value,
        ) + (be_i64(command.ticket_revision_id.value) + (be64(
            command.expected_ticket_revision.revision.value,
        ) + requalification_bytes(command.requalification)))),
    )
}

/// The bytes of an attempt, its two fences and a reason, followed by `rest`.
pub open spec fn attempt_bytes(
    ticket_attempt_id: TicketAttemptId,
    expected_attempt_revision: ExpectedRevision,
    expected_ticket_revision: ExpectedRevision,
    reason: Seq<char>,
    rest: Seq<u8>,
) -> Seq<u8> {
    be_i64(ticket_attempt_id.value) + (be64(expected_attempt_revision.revision.value) + (be64(
        expected_ticket_revision.revision.value,
    ) + (framed(reason) + rest)))
}

pub open spec fn failure_preimage(command: FailTicketAttempt) -> Seq<u8> {
    ticket_preimage(
        FAIL_OPERATION@,
        command.principal@,
        command.command_id@,
        attempt_bytes(
            command.ticket_attempt_id,
            command.expected_attempt_revision,
            command.expected_ticket_revision,
            command.reason@,
            Seq::empty(),
        ),
    )
}

pub open spec fn quality_retry_preimage(command: RetryQualityAttempt) -> Seq<u8> {
    ticket_preimage(
        QUALITY_RETRY_OPERATION@,
        command.principal@,
        command.command_id@,
        be_i64(command.ticket_attempt_id.value) + (be_i64(command.candidate_id.value) + (be64(
            command.expected_attempt_revision.revision.value,
        ) + (be64(command.expected_ticket_revision.revision.value) + framed(command.reason@)))),
    )
}

pub open spec fn engineering_retry_preimage(command: RetryEngineeringAttempt) -> Seq<u8> {
    ticket_preimage(
        ENGINEERING_RETRY_OPERATION@,
        command.principal@,
        command.command_id@,
        attempt_bytes(
            command.ticket_attempt_id,
            command.expected_attempt_revision,
            command.expected_ticket_revision,
            command.reason@,
            Seq::empty(),
        ),
    )
}

pub open spec fn release_preimage(command: ReleaseTicketAttempt) -> Seq<u8> {
    ticket_preimage(
        RELEASE_OPERATION@,
        command.principal@,
        command.command_id@,
        attempt_bytes(
            command.ticket_attempt_id,
            command.expected_attempt_revision,
            command.expected_ticket_revision,
            command.reason@,
            requalification_bytes(command.requalification),
        ),
    )
}

pub open spec fn completion_preimage(command: CompleteCampaignAtDeliveryTarget) -> Seq<u8> {
    ticket_preimage(
        COMPLETE_CAMPAIGN_OPERATION@,
        command.principal@,
        command.command_id@,
        be_i64(command.campaign_id.value) + be64(command.expected_campaign_revision.revision.value),
    )
}

/// Digest of the ticket preimage whose remainder is `rest`.
fn ticket_fingerprint(operation: &str, principal: &str, command_id: &str, rest: &[u8]) -> (digest:
    ContentDigest)
    ensures
        digest.bytes == blake3_of(ticket_preimage(operation@, principal@, command_id@, rest@)),
{
    let mut bytes: Vec<u8> = Vec::new();
    push_text(&mut bytes, operation);
    push_framed(&mut bytes, principal);
    push_framed(&mut bytes, command_id);
    push_bytes(&mut bytes, rest);
    assert(bytes@ =~= ticket_preimage(operation@, principal@, command_id@, rest@));
    ContentDigest::of_bytes(bytes.as_slice())
}

fn push_requalification(output: &mut Vec<u8>, value: &CurrentHeadRequalification)
    ensures
        final(output)@ == old(output)@ + requalification_bytes(*value),
{
    push_framed(output, value.current_head_commit.as_str());
    push_framed(output, value.current_head_tree.as_str());
    push_i64(output, value.first_actual_observation_artifact_id.value);
    push_i64(output, value.second_actual_observation_artifact_id.value);
    assert(output@ =~= old(output)@ + requalification_bytes(*value));
}

/// Fingerprint of a proposal.
#[verifier::spinoff_prover]
#[verifier::rlimit(40)]
pub fn proposal_fingerprint(command: &SubmitTicketProposal) -> (digest: ContentDigest)
    ensures
        digest.bytes == blake3_of(proposal_preimage(*command)),
{
    let mut rest: Vec<u8> = Vec::new();
    push_u64(&mut rest, command.expected_application_revision.revision.value);
    push_i64(&mut rest, command.application_revision_id.value);
    push_i64(&mut rest, command.proposal_artifact_id.value);
    push_i64(&mut rest, command.reproducer_artifact_id.value);
    push_i64(&mut rest, command.expected_observation_artifact_id.value);
    push_i64(&mut rest, command.first_actual_observation_artifact_id.value);
    push_i64(&mut rest, command.second_actual_observation_artifact_id.value);
    push_framed(&mut rest, command.discovery_commit.as_str());
    push_framed(&mut rest, command.discovery_tree.as_str());
    proof {
        let a = be64(command.expected_application_revision.revision.value);
        let b = be_i64(command.application_revision_id.value);
        let c = be_i64(command.proposal_artifact_id.value);
        let d = be_i64(command.reproducer_artifact_id.value);
        let e = be_i64(command.expected_observation_artifact_id.value);
        let f = be_i64(command.first_actual_observation_artifact_id.value);
        let g = be_i64(command.second_actual_observation_artifact_id.value);
        let h = framed(command.discovery_commit@);
        let i = framed(command.discovery_tree@);
        assert(Seq::<u8>::empty() + a =~= a);
        lemma_concat_assoc(a + b + c + d + e + f + g, h, i);
        lemma_concat_assoc(a + b + c + d + e + f, g, h + i);
        lemma_concat_assoc(a + b + c + d + e, f, g + (h + i));
        lemma_concat_assoc(a + b + c + d, e, f + (g + (h + i)));
        lemma_concat_assoc(a + b + c, d, e + (f + (g + (h + i))));
        lemma_concat_assoc(a + b, c, d + (e + (f + (g + (h + i)))));
        lemma_concat_assoc(a, b, c + (d + (e + (f + (g + (h + i))))));
    }
    ticket_fingerprint(
        PROPOSE_OPERATION,
        command.principal.as_str(),
        command.command_id.as_str(),
        rest.as_slice(),
    )
}

/// Fingerprint of a sponsorship.
pub fn sponsor_fingerprint(command: &SponsorTicketRevision) -> (digest: ContentDigest)
    ensures
        digest.bytes == blake3_of(sponsor_preimage(*command)),
{
    let mut rest: Vec<u8> = Vec::new();
    push_i64(&mut rest, command.ticket_revision_id.value);
    push_u64(&mut rest, command.expected_ticket_revision.revision.value);
    push_framed(&mut rest, command.reason.as_str());
    assert(rest@ =~= be_i64(command.ticket_revision_id.value) + (be64(
        command.expected_ticket_revision.revision.value,
    ) + framed(command.reason@)));
    ticket_fingerprint(
        SPONSOR_OPERATION,
        command.principal.as_str(),
        command.command_id.as_str(),
        rest.as_slice(),
    )
}

/// Fingerprint of a claim.
pub fn claim_fingerprint(command: &ClaimSponsoredTicket) -> (digest: ContentDigest)
    ensures
        digest.bytes == blake3_of(claim_preimage(*command)),
{
    let mut rest: Vec<u8> = Vec::new();
    push_i64(&mut rest, command.campaign_id.value);
    push_u64(&mut rest, command.expected_campaign_revision.revision.value);
    push_i64(&mut rest, command.ticket_revision_id.value);
    push_u64(&mut rest, command.expected_ticket_revision.revision.value);
    push_requalification(&mut rest, &command.requalification);
    assert(rest@ =~= be_i64(command.campaign_id.value) + (be64(
        command.expected_campaign_revision.revision.value,
    ) + (be_i64(command.ticket_revision_id.value) + (be64(
        command.expected_ticket_revision.revision.value,
    ) + requalification_bytes(command.requalification)))));
    ticket_fingerprint(
        CLAIM_OPERATION,
        command.principal.as_str(),
        command.command_id.as_str(),
        rest.as_slice(),
    )
}

fn push_attempt(
    output: &mut Vec<u8>,
    ticket_attempt_id: TicketAttemptId,
    expected_attempt_revision: ExpectedRevision,
    expected_ticket_revision: ExpectedRevision,
    reason: &str,
)
    requires
        old(output)@.len() == 0,
    ensures
        forall|rest: Seq<u8>| #[trigger]
            (final(output)@ + rest) == attempt_bytes(
                ticket_attempt_id,
                expected_attempt_revision,
                expected_ticket_revision,
                reason@,
                rest,
            ),
{
    push_i64(output, ticket_attempt_id.value);
    push_u64(output, expected_attempt_revision.revision.value);
    push_u64(output, expected_ticket_revision.revision.value);
    push_framed(output, reason);
    assert forall|rest: Seq<u8>| #[trigger] (output@ + rest) == attempt_bytes(
        ticket_attempt_id,
        expected_attempt_revision,
        expected_ticket_revision,
        reason@,
        rest,
    ) by {
        assert(output@ + rest =~= attempt_bytes(
            ticket_attempt_id,
            expected_attempt_revision,
            expected_ticket_revision,
            reason@,
            rest,
        ));
    }
}

/// Fingerprint of an attempt's failure.
pub fn failure_fingerprint(command: &FailTicketAttempt) -> (digest: ContentDigest)
    ensures
        digest.bytes == blake3_of(failure_preimage(*command)),
{
    let mut rest: Vec<u8> = Vec::new();
    push_attempt(
        &mut rest,
        command.ticket_attempt_id,
        command.expected_attempt_revision,
        command.expected_ticket_revision,
        command.reason.as_str(),
    );
    assert(rest@ =~= rest@ + Seq::<u8>::empty());
    ticket_fingerprint(
        FAIL_OPERATION,
        command.principal.as_str(),
        command.command_id.as_str(),
        rest.as_slice(),
    )
}

/// Fingerprint of a Quality retry.
pub fn quality_retry_fingerprint(command: &RetryQualityAttempt) -> (digest: ContentDigest)
    ensures
        digest.bytes == blake3_of(quality_retry_preimage(*command)),
{
    let mut rest: Vec<u8> = Vec::new();
    push_i64(&mut rest, command.ticket_attempt_id.value);
    push_i64(&mut rest, command.candidate_id.value);
    push_u64(&mut rest, command.expected_attempt_revision.revision.value);
    push_u64(&mut rest, command.expected_ticket_revision.revision.value);
    push_framed(&mut rest, command.reason.as_str());
    assert(rest@ =~= be_i64(command.ticket_attempt_id.value) + (be_i64(command.candidate_id.value)
        + (be64(command.expected_attempt_revision.revision.value) + (be64(
        command.expected_ticket_revision.revision.value,
    ) + framed(command.reason@)))));
    ticket_fingerprint(
        QUALITY_RETRY_OPERATION,
        command.principal.as_str(),
        command.command_id.as_str(),
        rest.as_slice(),
    )
}

/// Fingerprint of an Engineering retry.
pub fn engineering_retry_fingerprint(command: &RetryEngineeringAttempt) -> (digest: ContentDigest)
    ensures
        digest.bytes == blake3_of(engineering_retry_preimage(*command)),
{
    let mut rest: Vec<u8> = Vec::new();
    push_attempt(
        &mut rest,
        command.ticket_attempt_id,
        command.expected_attempt_revision,
        command.expected_ticket_revision,
        command.reason.as_str(),
    );
    assert(rest@ =~= rest@ + Seq::<u8>::empty());
    ticket_fingerprint(
        ENGINEERING_RETRY_OPERATION,
        command.principal.as_str(),
        command.command_id.as_str(),
        rest.as_slice(),
    )
}

/// Fingerprint of a release.
pub fn release_fingerprint(command: &ReleaseTicketAttempt) -> (digest: ContentDigest)
    ensures
        digest.bytes == blake3_of(release_preimage(*command)),
{
    let mut rest: Vec<u8> = Vec::new();
    push_attempt(
        &mut rest,
        command.ticket_attempt_id,
        command.expected_attempt_revision,
        command.expected_ticket_revision,
        command.reason.as_str(),
    );
    push_requalification(&mut rest, &command.requalification);
    ticket_fingerprint(
        RELEASE_OPERATION,
        command.principal.as_str(),
        command.command_id.as_str(),
        rest.as_slice(),
    )
}

/// Fingerprint of a campaign completion.
pub fn completion_fingerprint(command: &CompleteCampaignAtDeliveryTarget) -> (digest: ContentDigest)
    ensures
        digest.bytes == blake3_of(completion_preimage(*command)),
{
    let mut rest: Vec<u8> = Vec::new();
    push_i64(&mut rest, command.campaign_id.value);
    push_u64(&mut rest, command.expected_campaign_revision.revision.value);
    assert(rest@ =~= be_i64(command.campaign_id.value) + be64(
        command.expected_campaign_revision.revision.value,
    ));
    ticket_fingerprint(
        COMPLETE_CAMPAIGN_OPERATION,
        command.principal.as_str(),
        command.command_id.as_str(),
        rest.as_slice(),
    )
}

proof fn lemma_ticket_preimage_head(
    operation: Seq<char>,
    left_principal: Seq<char>,
    left_command: Seq<char>,
    left: Seq<u8>,
    right_principal: Seq<char>,
    right_command: Seq<char>,
    right: Seq<u8>,
)
    requires
        frameable(left_principal),
        frameable(left_command),
        frameable(right_principal),
        frameable(right_command),
        ticket_preimage(operation, left_principal, left_command, left) == ticket_preimage(
            operation,
            right_principal,
            right_command,
            right,
        ),
    ensures
        left_principal == right_principal,
        left_command == right_command,
        left == right,
{
    let l1 = framed(left_command) + left;
    let r1 = framed(right_command) + right;
    lemma_concat_split(
        encode_utf8(operation),
        framed(left_principal) + l1,
        encode_utf8(operation),
        framed(right_principal) + r1,
    );
    lemma_framed_head(left_principal, l1, right_principal, r1);
    lemma_framed_head(left_command, left, right_command, right);
}

proof fn lemma_framed_alone(left: Seq<char>, right: Seq<char>)
    requires
        frameable(left),
        frameable(right),
        framed(left) == framed(right),
    ensures
        left == right,
{
    assert(framed(left) =~= framed(left) + Seq::<u8>::empty());
    assert(framed(right) =~= framed(right) + Seq::<u8>::empty());
    lemma_framed_head(left, Seq::empty(), right, Seq::empty());
}

/// Whether two requalifications say the same.
pub open spec fn same_requalification(
    left: CurrentHeadRequalification,
    right: CurrentHeadRequalification,
) -> bool {
    &&& left.current_head_commit@ == right.current_head_commit@
    &&& left.current_head_tree@ == right.current_head_tree@
    &&& left.first_actual_observation_artifact_id == right.first_actual_observation_artifact_id
    &&& left.second_actual_observation_artifact_id == right.second_actual_observation_artifact_id
}

/// Whether a requalification's texts can be length-prefixed.
pub open spec fn requalification_frameable(value: CurrentHeadRequalification) -> bool {
    frameable(value.current_head_commit@) && frameable(value.current_head_tree@)
}

proof fn lemma_requalification_injective(
    left: CurrentHeadRequalification,
    right: CurrentHeadRequalification,
)
    requires
        requalification_frameable(left),
        requalification_frameable(right),
        requalification_bytes(left) == requalification_bytes(right),
    ensures
        same_requalification(left, right),
{
    let l3 = be_i64(left.second_actual_observation_artifact_id.value);
    let r3 = be_i64(right.second_actual_observation_artifact_id.value);
    let l2 = be_i64(left.first_actual_observation_artifact_id.value) + l3;
    let r2 = be_i64(right.first_actual_observation_artifact_id.value) + r3;
    let l1 = framed(left.current_head_tree@) + l2;
    let r1 = framed(right.current_head_tree@) + r2;
    lemma_framed_head(left.current_head_commit@, l1, right.current_head_commit@, r1);
    lemma_framed_head(left.current_head_tree@, l2, right.current_head_tree@, r2);
    lemma_be_i64_head(
        left.first_actual_observation_artifact_id.value,
        l3,
        right.first_actual_observation_artifact_id.value,
        r3,
    );
    assert(l3 =~= l3 + Seq::<u8>::empty());
    assert(r3 =~= r3 + Seq::<u8>::empty());
    lemma_be_i64_head(
        left.second_actual_observation_artifact_id.value,
        Seq::empty(),
        right.second_actual_observation_artifact_id.value,
        Seq::empty(),
    );
}

/// Two proposals are hashed from the same bytes only when they agree in every
/// field.
pub proof fn law_proposal_preimage_injective(left: SubmitTicketProposal, right: SubmitTicketProposal)
    requires
        frameable(left.principal@),
        frameable(left.command_id@),
        frameable(left.discovery_commit@),
        frameable(left.discovery_tree@),
        frameable(right.principal@),
        frameable(right.command_id@),
        frameable(right.discovery_commit@),
        frameable(right.discovery_tree@),
        proposal_preimage(left) == proposal_preimage(right),
    ensures
        left.principal@ == right.principal@,
        left.command_id@ == right.command_id@,
        left.expected_application_revision == right.expected_application_revision,
        left.application_revision_id == right.application_revision_id,
        left.proposal_artifact_id == right.proposal_artifact_id,
        left.reproducer_artifact_id == right.reproducer_artifact_id,
        left.expected_observation_artifact_id == right.expected_observation_artifact_id,
        left.first_actual_observation_artifact_id == right.first_actual_observation_artifact_id,
        left.second_actual_observation_artifact_id == right.second_actual_observation_artifact_id,
        left.discovery_commit@ == right.discovery_commit@,
        left.discovery_tree@ == right.discovery_tree@,
{
    let l8 = framed(left.discovery_tree@);
    let r8 = framed(right.discovery_tree@);
    let l7 = framed(left.discovery_commit@) + l8;
    let r7 = framed(right.discovery_commit@) + r8;
    let l6 = be_i64(left.second_actual_observation_artifact_id.value) + l7;
    let r6 = be_i64(right.second_actual_observation_artifact_id.value) + r7;
    let l5 = be_i64(left.first_actual_observation_artifact_id.value) + l6;
    let r5 = be_i64(right.first_actual_observation_artifact_id.value) + r6;
    let l4 = be_i64(left.expected_observation_artifact_id.value) + l5;
    let r4 = be_i64(right.expected_observation_artifact_id.value) + r5;
    let l3 = be_i64(left.reproducer_artifact_id.value) + l4;
    let r3 = be_i64(right.reproducer_artifact_id.value) + r4;
    let l2 = be_i64(left.proposal_artifact_id.value) + l3;
    let r2 = be_i64(right.proposal_artifact_id.value) + r3;
    let l1 = be_i64(left.application_revision_id.value) + l2;
    let r1 = be_i64(right.application_revision_id.value) + r2;
    let l0 = be64(left.expected_application_revision.revision.value) + l1;
    let r0 = be64(right.expected_application_revision.revision.value) + r1;
    lemma_ticket_preimage_head(
        PROPOSE_OPERATION@,
        left.principal@,
        left.command_id@,
        l0,
        right.principal@,
        right.command_id@,
        r0,
    );
    lemma_be64_head(
        left.expected_application_revision.revision.value,
        l1,
        right.expected_application_revision.revision.value,
        r1,
    );
    lemma_be_i64_head(left.application_revision_id.value, l2, right.application_revision_id.value, r2);
    lemma_be_i64_head(left.proposal_artifact_id.value, l3, right.proposal_artifact_id.value, r3);
    lemma_be_i64_head(left.reproducer_artifact_id.value, l4, right.reproducer_artifact_id.value, r4);
    lemma_be_i64_head(
        left.expected_observation_artifact_id.value,
        l5,
        right.expected_observation_artifact_id.value,
        r5,
    );
    lemma_be_i64_head(
        left.first_actual_observation_artifact_id.value,
        l6,
        right.first_actual_observation_artifact_id.value,
        r6,
    );
    lemma_be_i64_head(
        left.second_actual_observation_artifact_id.value,
        l7,
        right.second_actual_observation_artifact_id.value,
        r7,
    );
    lemma_framed_head(left.discovery_commit@, l8, right.discovery_commit@, r8);
    lemma_framed_alone(left.discovery_tree@, right.discovery_tree@);
}

/// Two sponsorships are hashed from the same bytes only when they agree in
/// every field.
pub proof fn law_sponsor_preimage_injective(
    left: SponsorTicketRevision,
    right: SponsorTicketRevision,
)
    requires
        frameable(left.principal@),
        frameable(left.command_id@),
        frameable(left.reason@),
        frameable(right.principal@),
        frameable(right.command_id@),
        frameable(right.reason@),
        sponsor_preimage(left) == sponsor_preimage(right),
    ensures
        left.principal@ == right.principal@,
        left.command_id@ == right.command_id@,
        left.ticket_revision_id == right.ticket_revision_id,
        left.expected_ticket_revision == right.expected_ticket_revision,
        left.reason@ == right.reason@,
{
    let l2 = framed(left.reason@);
    let r2 = framed(right.reason@);
    let l1 = be64(left.expected_ticket_revision.revision.value) + l2;
    let r1 = be64(right.expected_ticket_revision.revision.value) + r2;
    let l0 = be_i64(left.ticket_revision_id.value) + l1;
    let r0 = be_i64(right.ticket_revision_id.value) + r1;
    lemma_ticket_preimage_head(
        SPONSOR_OPERATION@,
        left.principal@,
        left.command_id@,
        l0,
        right.principal@,
        right.command_id@,
        r0,
    );
    lemma_be_i64_head(left.ticket_revision_id.value, l1, right.ticket_revision_id.value, r1);
    lemma_be64_head(
        left.expected_ticket_revision.revision.value,
        l2,
        right.expected_ticket_revision.revision.value,
        r2,
    );
    lemma_framed_alone(left.reason@, right.reason@);
}

/// Two claims are hashed from the same bytes only when they agree in every
/// field.
pub proof fn law_claim_preimage_injective(left: ClaimSponsoredTicket, right: ClaimSponsoredTicket)
    requires
        frameable(left.principal@),
        frameable(left.command_id@),
        requalification_frameable(left.requalification),
        frameable(right.principal@),
        frameable(right.command_id@),
        requalification_frameable(right.requalification),
        claim_preimage(left) == claim_preimage(right),
    ensures
        left.principal@ == right.principal@,
        left.command_id@ == right.command_id@,
        left.campaign_id == right.campaign_id,
        left.expected_campaign_revision == right.expected_campaign_revision,
        left.ticket_revision_id == right.ticket_revision_id,
        left.expected_ticket_revision == right.expected_ticket_revision,
        same_requalification(left.requalification, right.requalification),
{
    let l4 = requalification_bytes(left.requalification);
    let r4 = requalification_bytes(right.requalification);
    let l3 = be64(left.expected_ticket_revision.revision.value) + l4;
    let r3 = be64(right.expected_ticket_revision.revision.value) + r4;
    let l2 = be_i64(left.ticket_revision_id.value) + l3;
    let r2 = be_i64(right.ticket_revision_id.value) + r3;
    let l1 = be64(left.expected_campaign_revision.revision.value) + l2;
    let r1 = be64(right.expected_campaign_revision.revision.value) + r2;
    let l0 = be_i64(left.campaign_id.value) + l1;
    let r0 = be_i64(right.campaign_id.value) + r1;
    lemma_ticket_preimage_head(
        CLAIM_OPERATION@,
        left.principal@,
        left.command_id@,
        l0,
        right.principal@,
        right.command_id@,
        r0,
    );
    lemma_be_i64_head(left.campaign_id.value, l1, right.campaign_id.value, r1);
    lemma_be64_head(
        left.expected_campaign_revision.revision.value,
        l2,
        right.expected_campaign_revision.revision.value,
        r2,
    );
    lemma_be_i64_head(left.ticket_revision_id.value, l3, right.ticket_revision_id.value, r3);
    lemma_be64_head(
        left.expected_ticket_revision.revision.value,
        l4,
        right.expected_ticket_revision.revision.value,
        r4,
    );
    lemma_requalification_injective(left.requalification, right.requalification);
}

proof fn lemma_attempt_bytes_head(
    left_attempt: TicketAttemptId,
    left_fence: ExpectedRevision,
    left_ticket: ExpectedRevision,
    left_reason: Seq<char>,
    left: Seq<u8>,
    right_attempt: TicketAttemptId,
    right_fence: ExpectedRevision,
    right_ticket: ExpectedRevision,
    right_reason: Seq<char>,
    right: Seq<u8>,
)
    requires
        frameable(left_reason),
        frameable(right_reason),
        attempt_bytes(left_attempt, left_fence, left_ticket, left_reason, left) == attempt_bytes(
            right_attempt,
            right_fence,
            right_ticket,
            right_reason,
            right,
        ),
    ensures
        left_attempt == right_attempt,
        left_fence == right_fence,
        left_ticket == right_ticket,
        left_reason == right_reason,
        left == right,
{
    let l2 = framed(left_reason) + left;
    let r2 = framed(right_reason) + right;
    let l1 = be64(left_ticket.revision.value) + l2;
    let r1 = be64(right_ticket.revision.value) + r2;
    let l0 = be64(left_fence.revision.value) + l1;
    let r0 = be64(right_fence.revision.value) + r1;
    lemma_be_i64_head(left_attempt.value, l0, right_attempt.value, r0);
    lemma_be64_head(left_fence.revision.value, l1, right_fence.revision.value, r1);
    lemma_be64_head(left_ticket.revision.value, l2, right_ticket.revision.value, r2);
    lemma_framed_head(left_reason, left, right_reason, right);
}

/// Two attempt failures are hashed from the same bytes only when they agree in
/// every field.
pub proof fn law_failure_preimage_injective(left: FailTicketAttempt, right: FailTicketAttempt)
    requires
        frameable(left.principal@),
        frameable(left.command_id@),
        frameable(left.reason@),
        frameable(right.principal@),
        frameable(right.command_id@),
        frameable(right.reason@),
        failure_preimage(left) == failure_preimage(right),
    ensures
        left.principal@ == right.principal@,
        left.command_id@ == right.command_id@,
        left.ticket_attempt_id == right.ticket_attempt_id,
        left.expected_attempt_revision == right.expected_attempt_revision,
        left.expected_ticket_revision == right.expected_ticket_revision,
        left.reason@ == right.reason@,
{
    lemma_ticket_preimage_head(
        FAIL_OPERATION@,
        left.principal@,
        left.command_id@,
        attempt_bytes(
            left.ticket_attempt_id,
            left.expected_attempt_revision,
            left.expected_ticket_revision,
            left.reason@,
            Seq::empty(),
        ),
        right.principal@,
        right.command_id@,
        attempt_bytes(
            right.ticket_attempt_id,
            right.expected_attempt_revision,
            right.expected_ticket_revision,
            right.reason@,
            Seq::empty(),
        ),
    );
    lemma_attempt_bytes_head(
        left.ticket_attempt_id,
        left.expected_attempt_revision,
        left.expected_ticket_revision,
        left.reason@,
        Seq::empty(),
        right.ticket_attempt_id,
        right.expected_attempt_revision,
        right.expected_ticket_revision,
        right.reason@,
        Seq::empty(),
    );
}

/// Two Quality retries are hashed from the same bytes only when they agree in
/// every field.
pub proof fn law_quality_retry_preimage_injective(
    left: RetryQualityAttempt,
    right: RetryQualityAttempt,
)
    requires
        frameable(left.principal@),
        frameable(left.command_id@),
        frameable(left.reason@),
        frameable(right.principal@),
        frameable(right.command_id@),
        frameable(right.reason@),
        quality_retry_preimage(left) == quality_retry_preimage(right),
    ensures
        left.principal@ == right.principal@,
        left.command_id@ == right.command_id@,
        left.ticket_attempt_id == right.ticket_attempt_id,
        left.candidate_id == right.candidate_id,
        left.expected_attempt_revision == right.expected_attempt_revision,
        left.expected_ticket_revision == right.expected_ticket_revision,
        left.reason@ == right.reason@,
{
    let l3 = framed(left.reason@);
    let r3 = framed(right.reason@);
    let l2 = be64(left.expected_ticket_revision.revision.value) + l3;
    let r2 = be64(right.expected_ticket_revision.revision.value) + r3;
    let l1 = be64(left.expected_attempt_revision.revision.value) + l2;
    let r1 = be64(right.expected_attempt_revision.revision.value) + r2;
    let l0 = be_i64(left.candidate_id.value) + l1;
    let r0 = be_i64(right.candidate_id.value) + r1;
    lemma_ticket_preimage_head(
        QUALITY_RETRY_OPERATION@,
        left.principal@,
        left.command_id@,
        be_i64(left.ticket_attempt_id.value) + l0,
        right.principal@,
        right.command_id@,
        be_i64(right.ticket_attempt_id.value) + r0,
    );
    lemma_be_i64_head(left.ticket_attempt_id.value, l0, right.ticket_attempt_id.value, r0);
    lemma_be_i64_head(left.candidate_id.value, l1, right.candidate_id.value, r1);
    lemma_be64_head(
        left.expected_attempt_revision.revision.value,
        l2,
        right.expected_attempt_revision.revision.value,
        r2,
    );
    lemma_be64_head(
        left.expected_ticket_revision.revision.value,
        l3,
        right.expected_ticket_revision.revision.value,
        r3,
    );
    lemma_framed_alone(left.reason@, right.reason@);
}

/// Two Engineering retries are hashed from the same bytes only when they agree
/// in every field.
pub proof fn law_engineering_retry_preimage_injective(
    left: RetryEngineeringAttempt,
    right: RetryEngineeringAttempt,
)
    requires
        frameable(left.principal@),
        frameable(left.command_id@),
        frameable(left.reason@),
        frameable(right.principal@),
        frameable(right.command_id@),
        frameable(right.reason@),
        engineering_retry_preimage(left) == engineering_retry_preimage(right),
    ensures
        left.principal@ == right.principal@,
        left.command_id@ == right.command_id@,
        left.ticket_attempt_id == right.ticket_attempt_id,
        left.expected_attempt_revision == right.expected_attempt_revision,
        left.expected_ticket_revision == right.expected_ticket_revision,
        left.reason@ == right.reason@,
{
    lemma_ticket_preimage_head(
        ENGINEERING_RETRY_OPERATION@,
        left.principal@,
        left.command_id@,
        attempt_bytes(
            left.ticket_attempt_id,
            left.expected_attempt_revision,
            left.expected_ticket_revision,
            left.reason@,
            Seq::empty(),
        ),
        right.principal@,
        right.command_id@,
        attempt_bytes(
            right.ticket_attempt_id,
            right.expected_attempt_revision,
            right.expected_ticket_revision,
            right.reason@,
            Seq::empty(),
        ),
    );
    lemma_attempt_bytes_head(
        left.ticket_attempt_id,
        left.expected_attempt_revision,
        left.expected_ticket_revision,
        left.reason@,
        Seq::empty(),
        right.ticket_attempt_id,
        right.expected_attempt_revision,
        right.expected_ticket_revision,
        right.reason@,
        Seq::empty(),
    );
}

/// Two releases are hashed from the same bytes only when they agree in every
/// field.
pub proof fn law_release_preimage_injective(
    left: ReleaseTicketAttempt,
    right: ReleaseTicketAttempt,
)
    requires
        frameable(left.principal@),
        frameable(left.command_id@),
        frameable(left.reason@),
        requalification_frameable(left.requalification),
        frameable(right.principal@),
        frameable(right.command_id@),
        frameable(right.reason@),
        requalification_frameable(right.requalification),
        release_preimage(left) == release_preimage(right),
    ensures
        left.principal@ == right.principal@,
        left.command_id@ == right.command_id@,
        left.ticket_attempt_id == right.ticket_attempt_id,
        left.expected_attempt_revision == right.expected_attempt_revision,
        left.expected_ticket_revision == right.expected_ticket_revision,
        left.reason@ == right.reason@,
        same_requalification(left.requalification, right.requalification),
{
    lemma_ticket_preimage_head(
        RELEASE_OPERATION@,
        left.principal@,
        left.command_id@,
        attempt_bytes(
            left.ticket_attempt_id,
            left.expected_attempt_revision,
            left.expected_ticket_revision,
            left.reason@,
            requalification_bytes(left.requalification),
        ),
        right.principal@,
        right.command_id@,
        attempt_bytes(
            right.ticket_attempt_id,
            right.expected_attempt_revision,
            right.expected_ticket_revision,
            right.reason@,
            requalification_bytes(right.requalification),
        ),
    );
    lemma_attempt_bytes_head(
        left.ticket_attempt_id,
        left.expected_attempt_revision,
        left.expected_ticket_revision,
        left.reason@,
        requalification_bytes(left.requalification),
        right.ticket_attempt_id,
        right.expected_attempt_revision,
        right.expected_ticket_revision,
        right.reason@,
        requalification_bytes(right.requalification),
    );
    lemma_requalification_injective(left.requalification, right.requalification);
}

/// Two completions are hashed from the same bytes only when they agree in
/// every field.
pub proof fn law_completion_preimage_injective(
    left: CompleteCampaignAtDeliveryTarget,
    right: CompleteCampaignAtDeliveryTarget,
)
    requires
        frameable(left.principal@),
        frameable(left.command_id@),
        frameable(right.principal@),
        frameable(right.command_id@),
        completion_preimage(left) == completion_preimage(right),
    ensures
        left.principal@ == right.principal@,
        left.command_id@ == right.command_id@,
        left.campaign_id == right.campaign_id,
        left.expected_campaign_revision == right.expected_campaign_revision,
{
    let l1 = be64(left.expected_campaign_revision.revision.value);
    let r1 = be64(right.expected_campaign_revision.revision.value);
    lemma_ticket_preimage_head(
        COMPLETE_CAMPAIGN_OPERATION@,
        left.principal@,
        left.command_id@,
        be_i64(left.campaign_id.value) + l1,
        right.principal@,
        right.command_id@,
        be_i64(right.campaign_id.value) + r1,
    );
    lemma_be_i64_head(left.campaign_id.value, l1, right.campaign_id.value, r1);
    assert(l1 =~= l1 + Seq::<u8>::empty());
    assert(r1 =~= r1 + Seq::<u8>::empty());
    lemma_be64_head(
        left.expected_campaign_revision.revision.value,
        Seq::empty(),
        right.expected_campaign_revision.revision.value,
        Seq::empty(),
    );
}

/// A ticket command's bytes are its operation's name, its key and its fields,
/// one behind the other.
pub proof fn law_ticket_commands_are_written_in_order(
    proposal: SubmitTicketProposal,
    sponsor: SponsorTicketRevision,
    claim: ClaimSponsoredTicket,
    completion: CompleteCampaignAtDeliveryTarget,
)
    ensures
        proposal_preimage(proposal) == encode_utf8("ticket.propose"@) + (framed(proposal.principal@)
            + (framed(proposal.command_id@) + (be64(
            proposal.expected_application_revision.revision.value,
        ) + (be_i64(proposal.application_revision_id.value) + (be_i64(
            proposal.proposal_artifact_id.value,
        ) + (be_i64(proposal.reproducer_artifact_id.value) + (be_i64(
            proposal.expected_observation_artifact_id.value,
        ) + (be_i64(proposal.first_actual_observation_artifact_id.value) + (be_i64(
            proposal.second_actual_observation_artifact_id.value,
        ) + (framed(proposal.discovery_commit@) + framed(proposal.discovery_tree@))))))))))),
        sponsor_preimage(sponsor) == encode_utf8("ticket.sponsor"@) + (framed(sponsor.principal@)
            + (framed(sponsor.command_id@) + (be_i64(sponsor.ticket_revision_id.value) + (be64(
            sponsor.expected_ticket_revision.revision.value,
        ) + framed(sponsor.reason@))))),
        claim_preimage(claim) == encode_utf8("ticket.claim"@) + (framed(claim.principal@) + (framed(
            claim.command_id@,
        ) + (be_i64(claim.campaign_id.value) + (be64(
            claim.expected_campaign_revision.revision.value,
        ) + (be_i64(claim.ticket_revision_id.value) + (be64(
            claim.expected_ticket_revision.revision.value,
        ) + (framed(claim.requalification.current_head_commit@) + (framed(
            claim.requalification.current_head_tree@,
        ) + (be_i64(claim.requalification.first_actual_observation_artifact_id.value) + be_i64(
            claim.requalification.second_actual_observation_artifact_id.value,
        )))))))))),
        completion_preimage(completion) == encode_utf8("campaign.complete_delivery_target"@) + (
        framed(completion.principal@) + (framed(completion.command_id@) + (be_i64(
            completion.campaign_id.value,
        ) + be64(completion.expected_campaign_revision.revision.value)))),
{
}

/// The bytes of a command on an attempt are its operation's name, its key and
/// its fields, one behind the other.
pub proof fn law_attempt_commands_are_written_in_order(
    failure: FailTicketAttempt,
    quality: RetryQualityAttempt,
    engineering: RetryEngineeringAttempt,
    release: ReleaseTicketAttempt,
)
    ensures
        failure_preimage(failure) == encode_utf8("ticket_attempt.fail"@) + (framed(
            failure.principal@,
        ) + (framed(failure.command_id@) + (be_i64(failure.ticket_attempt_id.value) + (be64(
            failure.expected_attempt_revision.revision.value,
        ) + (be64(failure.expected_ticket_revision.revision.value) + framed(failure.reason@)))))),
        quality_retry_preimage(quality) == encode_utf8("ticket_attempt.retry_quality"@) + (framed(
            quality.principal@,
        ) + (framed(quality.command_id@) + (be_i64(quality.ticket_attempt_id.value) + (be_i64(
            quality.candidate_id.value,
        ) + (be64(quality.expected_attempt_revision.revision.value) + (be64(
            quality.expected_ticket_revision.revision.value,
        ) + framed(quality.reason@))))))),
        engineering_retry_preimage(engineering) == encode_utf8(
            "ticket_attempt.retry_engineering"@,
        ) + (framed(engineering.principal@) + (framed(engineering.command_id@) + (be_i64(
            engineering.ticket_attempt_id.value,
        ) + (be64(engineering.expected_attempt_revision.revision.value) + (be64(
            engineering.expected_ticket_revision.revision.value,
        ) + framed(engineering.reason@)))))),
        release_preimage(release) == encode_utf8("ticket_attempt.release"@) + (framed(
            release.principal@,
        ) + (framed(release.command_id@) + (be_i64(release.ticket_attempt_id.value) + (be64(
            release.expected_attempt_revision.revision.value,
        ) + (be64(release.expected_ticket_revision.revision.value) + (framed(release.reason@) + (
        framed(release.requalification.current_head_commit@) + (framed(
            release.requalification.current_head_tree@,
        ) + (be_i64(release.requalification.first_actual_observation_artifact_id.value) + be_i64(
            release.requalification.second_actual_observation_artifact_id.value,
        )))))))))),
{
    let none = Seq::<u8>::empty();
    assert(framed(failure.reason@) + none =~= framed(failure.reason@));
    assert(framed(engineering.reason@) + none =~= framed(engineering.reason@));
}

} // verus!
