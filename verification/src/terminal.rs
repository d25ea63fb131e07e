//! Ending a session: terminal evidence, the cost transition and the receipt.

use vstd::prelude::*;
use vstd::utf8::encode_utf8;

use crate::audit::{
    aggregate_revision_from_sql, next_revision, replay, spec_next_revision,
    spec_replay, spec_revision_from_sql, spec_validate_process_key,
    validate_command, Audit, AuditRow,
};
use crate::campaign::{
    plan_transition, spec_admit_campaign_cancellation, spec_check_reconciled,
    spec_finish_campaign_cancellation, spec_transition, CampaignCancellationAdmission, CampaignRow,
    CampaignTransition, CancelCampaign, ReconciledSessionCancellation,
};
use crate::digest::{blake3_of, ContentDigest};
use crate::encoding::{
    be32, be64, be_bytes, be_i64, framed, lemma_be32_head, lemma_be64_head, lemma_be_i64_head,
    lemma_concat_assoc, lemma_concat_split, push_framed, push_i64, push_u32, push_u64,
};
use crate::error::StoreError;
use crate::identity::{
    AggregateRevision, ArtifactId, AssignmentId, CampaignId, CasArtifact, ContractError, SessionId,
};
use crate::packet::{
    canonical_required_manifest, manifest_bytes, AssignmentPacket, ReadExactFile,
};
use crate::protocol::{
    amount_of, assignment_state_code, db_cost, failure_code, operation_bit, operation_mask_one,
    session_state, session_state_code, session_state_from_code, spec_assignment_state_code,
    spec_db_cost, spec_failure_code, spec_operation_mask_one, spec_session_state,
    spec_session_state_code, spec_session_state_from_code, spec_stop_reason_code,
    spec_terminal_operation_code, spec_usage_sql, stop_reason_code, terminal_operation_code,
    usage_sql, MicroUsd, SessionState, StopReason, TerminalCost, TerminalOperation, TerminalReport,
    UsageColumns, UsageTotals, COST_EXCEEDED, COST_KNOWN, COST_UNKNOWN, FAILED, RUNNING,
    SESSION_RUNNING, SESSION_SUBJECT, SESSION_TERMINAL,
};
use crate::text::{bytes_equal, push_bytes, text_equal};

verus! {

pub const UNKNOWN_TERMINAL_COST_FAILURE_REASON: &'static str = "terminal session cost is unknown";

pub const EXCEEDED_TERMINAL_COST_FAILURE_REASON: &'static str =
    "terminal session exceeded the campaign cost limit";

/// The sealed files a session leaves behind.
#[derive(Clone, Copy, Debug, PartialEq, Eq)]
pub struct TerminalArtifactSeals {
    pub transcript: CasArtifact,
    pub execution_summary: Option<CasArtifact>,
    pub stdout: CasArtifact,
    pub stderr: CasArtifact,
    pub partial_transcript: Option<CasArtifact>,
}

/// Terminal evidence resolved to registered artifacts.
#[derive(Clone, Copy, Debug, PartialEq, Eq, Structural)]
pub struct VerifiedTerminalEvidence {
    pub transcript_artifact_id: ArtifactId,
    pub execution_summary_artifact_id: Option<ArtifactId>,
    pub stdout_artifact_id: ArtifactId,
    pub stderr_artifact_id: ArtifactId,
    pub partial_transcript_artifact_id: Option<ArtifactId>,
    pub required_read_assertion_artifact_id: ArtifactId,
    pub required_read_expected_count: u32,
    pub required_read_satisfied_count: u32,
    pub usage: Option<UsageTotals>,
}

/// The answer to a terminal report.
#[derive(Clone, Copy, Debug, PartialEq, Eq, Structural)]
pub struct TerminalReceipt {
    pub session_id: SessionId,
    pub session_state: SessionState,
    pub cost: TerminalCost,
    pub resulting_revision: AggregateRevision,
    pub campaign_revision: AggregateRevision,
    pub audit_log_id: i64,
    pub was_idempotent_retry: bool,
}

/// An optional value behind a presence word.
#[verifier::opaque]
pub open spec fn optional_count_bytes(value: Option<u64>) -> Seq<u8> {
    match value {
        Some(count) => be32(1) + be64(count),
        None => be32(0),
    }
}

/// An optional artifact identity behind a presence word.
pub open spec fn optional_artifact_bytes(value: Option<ArtifactId>) -> Seq<u8> {
    match value {
        Some(id) => be32(1) + be_i64(id.value),
        None => be32(0),
    }
}

/// The bytes of a session's usage; absent usage is one word of ones.
pub open spec fn usage_bytes(usage: Option<UsageTotals>) -> Seq<u8> {
    match usage {
        Some(usage) => optional_count_bytes(usage.input_tokens) + (optional_count_bytes(
            usage.output_tokens,
        ) + (optional_count_bytes(usage.cache_read_tokens) + (optional_count_bytes(
            usage.cache_write_tokens,
        ) + (optional_count_bytes(usage.reasoning_tokens) + optional_count_bytes(
            amount_of(usage.reported_cost_micro_usd),
        ))))),
        None => be64(u64::MAX),
    }
}

/// The word of an optional terminal operation.
pub open spec fn operation_word(operation: Option<TerminalOperation>) -> u32 {
    match operation {
        Some(operation) => spec_terminal_operation_code(operation) as u32,
        None => u32::MAX,
    }
}

/// The bytes a terminal report is fingerprinted by. The command key is not
/// among them: the session and its revision are.
pub open spec fn terminal_preimage(
    session_id: SessionId,
    report: TerminalReport,
    evidence: VerifiedTerminalEvidence,
) -> Seq<u8> {
    framed(SESSION_TERMINAL@) + (be_i64(session_id.value) + (report.packet_digest.bytes@ + (be64(
        report.expected_session_revision.revision.value,
    ) + (be_i64(evidence.transcript_artifact_id.value) + (optional_artifact_bytes(
        evidence.execution_summary_artifact_id,
    ) + (be_i64(evidence.required_read_assertion_artifact_id.value) + (be32(
        evidence.required_read_expected_count,
    ) + (be32(evidence.required_read_satisfied_count) + (be32(
        spec_stop_reason_code(report.stop_reason) as u32,
    ) + (be32(operation_word(report.operation)) + (usage_bytes(evidence.usage)
        + report.report_digest.bytes@)))))))))))
}

proof fn lemma_optional_count_head(
    left: Option<u64>,
    rest_left: Seq<u8>,
    right: Option<u64>,
    rest_right: Seq<u8>,
)
    requires
        optional_count_bytes(left) + rest_left == optional_count_bytes(right) + rest_right,
    ensures
        left == right,
        rest_left == rest_right,
{
    reveal(optional_count_bytes);
    let word_left = if left is Some { 1u32 } else { 0 };
    let word_right = if right is Some { 1u32 } else { 0 };
    let tail_left = if left is Some { be64(left->0) + rest_left } else { rest_left };
    let tail_right = if right is Some { be64(right->0) + rest_right } else { rest_right };
    assert(optional_count_bytes(left) + rest_left =~= be32(word_left) + tail_left);
    assert(optional_count_bytes(right) + rest_right =~= be32(word_right) + tail_right);
    lemma_be32_head(word_left, tail_left, word_right, tail_right);
    if left is Some {
        lemma_be64_head(left->0, rest_left, right->0, rest_right);
    }
}

proof fn lemma_optional_artifact_head(
    left: Option<ArtifactId>,
    rest_left: Seq<u8>,
    right: Option<ArtifactId>,
    rest_right: Seq<u8>,
)
    requires
        optional_artifact_bytes(left) + rest_left == optional_artifact_bytes(right) + rest_right,
    ensures
        left == right,
        rest_left == rest_right,
{
    let word_left = if left is Some { 1u32 } else { 0 };
    let word_right = if right is Some { 1u32 } else { 0 };
    let tail_left = if left is Some { be_i64(left->0.value) + rest_left } else { rest_left };
    let tail_right = if right is Some { be_i64(right->0.value) + rest_right } else { rest_right };
    assert(optional_artifact_bytes(left) + rest_left =~= be32(word_left) + tail_left);
    assert(optional_artifact_bytes(right) + rest_right =~= be32(word_right) + tail_right);
    lemma_be32_head(word_left, tail_left, word_right, tail_right);
    if left is Some {
        lemma_be_i64_head(left->0.value, rest_left, right->0.value, rest_right);
    }
}

proof fn lemma_absent_usage_word()
    ensures
        be64(u64::MAX) == be32(u32::MAX) + be32(u32::MAX),
{
    reveal_with_fuel(be_bytes, 9);
    assert(be64(u64::MAX) =~= be32(u32::MAX) + be32(u32::MAX));
}

proof fn lemma_usage_is_not_absent(usage: UsageTotals, rest: Seq<u8>, other: Seq<u8>)
    ensures
        usage_bytes(Some(usage)) + rest != usage_bytes(None) + other,
{
    if usage_bytes(Some(usage)) + rest == usage_bytes(None) + other {
        lemma_absent_usage_word();
        let word = if usage.input_tokens is Some { 1u32 } else { 0 };
        let tail = usage_bytes(Some(usage)).skip(4) + rest;
        assert(be32(word).len() == 4) by {
            reveal_with_fuel(be_bytes, 5);
        }
        assert(usage_bytes(Some(usage)) + rest =~= be32(word) + tail) by {
            reveal(optional_count_bytes);
            assert(usage_bytes(Some(usage)).take(4) =~= be32(word));
            assert(usage_bytes(Some(usage)) =~= usage_bytes(Some(usage)).take(4) + usage_bytes(
                Some(usage),
            ).skip(4));
        }
        assert(usage_bytes(None) + other =~= be32(u32::MAX) + (be32(u32::MAX) + other));
        lemma_be32_head(word, tail, u32::MAX, be32(u32::MAX) + other);
    }
}

proof fn lemma_usage_head(
    left: Option<UsageTotals>,
    rest_left: Seq<u8>,
    right: Option<UsageTotals>,
    rest_right: Seq<u8>,
)
    requires
        usage_bytes(left) + rest_left == usage_bytes(right) + rest_right,
    ensures
        left == right,
        rest_left == rest_right,
{
    match (left, right) {
        (Some(l), Some(r)) => {
            let l5 = optional_count_bytes(amount_of(l.reported_cost_micro_usd));
            let r5 = optional_count_bytes(amount_of(r.reported_cost_micro_usd));
            let l4 = optional_count_bytes(l.reasoning_tokens) + l5;
            let r4 = optional_count_bytes(r.reasoning_tokens) + r5;
            let l3 = optional_count_bytes(l.cache_write_tokens) + l4;
            let r3 = optional_count_bytes(r.cache_write_tokens) + r4;
            let l2 = optional_count_bytes(l.cache_read_tokens) + l3;
            let r2 = optional_count_bytes(r.cache_read_tokens) + r3;
            let l1 = optional_count_bytes(l.output_tokens) + l2;
            let r1 = optional_count_bytes(r.output_tokens) + r2;
            lemma_concat_assoc(optional_count_bytes(l.input_tokens), l1, rest_left);
            lemma_concat_assoc(optional_count_bytes(r.input_tokens), r1, rest_right);
            lemma_optional_count_head(
                l.input_tokens,
                l1 + rest_left,
                r.input_tokens,
                r1 + rest_right,
            );
            lemma_concat_assoc(optional_count_bytes(l.output_tokens), l2, rest_left);
            lemma_concat_assoc(optional_count_bytes(r.output_tokens), r2, rest_right);
            lemma_optional_count_head(
                l.output_tokens,
                l2 + rest_left,
                r.output_tokens,
                r2 + rest_right,
            );
            lemma_concat_assoc(optional_count_bytes(l.cache_read_tokens), l3, rest_left);
            lemma_concat_assoc(optional_count_bytes(r.cache_read_tokens), r3, rest_right);
            lemma_optional_count_head(
                l.cache_read_tokens,
                l3 + rest_left,
                r.cache_read_tokens,
                r3 + rest_right,
            );
            lemma_concat_assoc(optional_count_bytes(l.cache_write_tokens), l4, rest_left);
            lemma_concat_assoc(optional_count_bytes(r.cache_write_tokens), r4, rest_right);
            lemma_optional_count_head(
                l.cache_write_tokens,
                l4 + rest_left,
                r.cache_write_tokens,
                r4 + rest_right,
            );
            lemma_concat_assoc(optional_count_bytes(l.reasoning_tokens), l5, rest_left);
            lemma_concat_assoc(optional_count_bytes(r.reasoning_tokens), r5, rest_right);
            lemma_optional_count_head(
                l.reasoning_tokens,
                l5 + rest_left,
                r.reasoning_tokens,
                r5 + rest_right,
            );
            lemma_optional_count_head(
                amount_of(l.reported_cost_micro_usd),
                rest_left,
                amount_of(r.reported_cost_micro_usd),
                rest_right,
            );
        },
        (None, None) => {
            lemma_be64_head(u64::MAX, rest_left, u64::MAX, rest_right);
        },
        (Some(l), None) => {
            lemma_usage_is_not_absent(l, rest_left, rest_right);
        },
        (None, Some(r)) => {
            lemma_usage_is_not_absent(r, rest_right, rest_left);
        },
    }
}

/// Two terminal reports are hashed from the same bytes only when they agree in
/// the session, in every field of the report, and in the evidence's transcript,
/// summary, assertion, read counts and usage.
pub proof fn law_terminal_preimage_injective(
    left_id: SessionId,
    left: TerminalReport,
    left_evidence: VerifiedTerminalEvidence,
    right_id: SessionId,
    right: TerminalReport,
    right_evidence: VerifiedTerminalEvidence,
)
    requires
        terminal_preimage(left_id, left, left_evidence) == terminal_preimage(
            right_id,
            right,
            right_evidence,
        ),
    ensures
        left_id == right_id,
        left == right,
        left_evidence.transcript_artifact_id == right_evidence.transcript_artifact_id,
        left_evidence.execution_summary_artifact_id == right_evidence.execution_summary_artifact_id,
        left_evidence.required_read_assertion_artifact_id
            == right_evidence.required_read_assertion_artifact_id,
        left_evidence.required_read_expected_count == right_evidence.required_read_expected_count,
        left_evidence.required_read_satisfied_count == right_evidence.required_read_satisfied_count,
        left_evidence.usage == right_evidence.usage,
{
    let l11 = left.report_digest.bytes@;
    let r11 = right.report_digest.bytes@;
    let l10 = usage_bytes(left_evidence.usage) + l11;
    let r10 = usage_bytes(right_evidence.usage) + r11;
    let l9 = be32(operation_word(left.operation)) + l10;
    let r9 = be32(operation_word(right.operation)) + r10;
    let l8 = be32(spec_stop_reason_code(left.stop_reason) as u32) + l9;
    let r8 = be32(spec_stop_reason_code(right.stop_reason) as u32) + r9;
    let l7 = be32(left_evidence.required_read_satisfied_count) + l8;
    let r7 = be32(right_evidence.required_read_satisfied_count) + r8;
    let l6 = be32(left_evidence.required_read_expected_count) + l7;
    let r6 = be32(right_evidence.required_read_expected_count) + r7;
    let l5 = be_i64(left_evidence.required_read_assertion_artifact_id.value) + l6;
    let r5 = be_i64(right_evidence.required_read_assertion_artifact_id.value) + r6;
    let l4 = optional_artifact_bytes(left_evidence.execution_summary_artifact_id) + l5;
    let r4 = optional_artifact_bytes(right_evidence.execution_summary_artifact_id) + r5;
    let l3 = be_i64(left_evidence.transcript_artifact_id.value) + l4;
    let r3 = be_i64(right_evidence.transcript_artifact_id.value) + r4;
    let l2 = be64(left.expected_session_revision.revision.value) + l3;
    let r2 = be64(right.expected_session_revision.revision.value) + r3;
    let l1 = left.packet_digest.bytes@ + l2;
    let r1 = right.packet_digest.bytes@ + r2;
    lemma_concat_split(
        framed(SESSION_TERMINAL@),
        be_i64(left_id.value) + l1,
        framed(SESSION_TERMINAL@),
        be_i64(right_id.value) + r1,
    );
    lemma_be_i64_head(left_id.value, l1, right_id.value, r1);
    lemma_concat_split(left.packet_digest.bytes@, l2, right.packet_digest.bytes@, r2);
    lemma_be64_head(
        left.expected_session_revision.revision.value,
        l3,
        right.expected_session_revision.revision.value,
        r3,
    );
    lemma_be_i64_head(
        left_evidence.transcript_artifact_id.value,
        l4,
        right_evidence.transcript_artifact_id.value,
        r4,
    );
    lemma_optional_artifact_head(
        left_evidence.execution_summary_artifact_id,
        l5,
        right_evidence.execution_summary_artifact_id,
        r5,
    );
    lemma_be_i64_head(
        left_evidence.required_read_assertion_artifact_id.value,
        l6,
        right_evidence.required_read_assertion_artifact_id.value,
        r6,
    );
    lemma_be32_head(
        left_evidence.required_read_expected_count,
        l7,
        right_evidence.required_read_expected_count,
        r7,
    );
    lemma_be32_head(
        left_evidence.required_read_satisfied_count,
        l8,
        right_evidence.required_read_satisfied_count,
        r8,
    );
    lemma_be32_head(
        spec_stop_reason_code(left.stop_reason) as u32,
        l9,
        spec_stop_reason_code(right.stop_reason) as u32,
        r9,
    );
    lemma_be32_head(operation_word(left.operation), l10, operation_word(right.operation), r10);
    lemma_usage_head(left_evidence.usage, l11, right_evidence.usage, r11);
    assert(left.packet_digest.bytes =~= right.packet_digest.bytes);
    assert(left.report_digest.bytes =~= right.report_digest.bytes);
}

fn push_optional_count(output: &mut Vec<u8>, value: Option<u64>)
    ensures
        final(output)@ == old(output)@ + optional_count_bytes(value),
{
    reveal(optional_count_bytes);
    match value {
        Some(count) => {
            push_u32(output, 1);
            push_u64(output, count);
            assert(output@ =~= old(output)@ + optional_count_bytes(value));
        },
        None => {
            push_u32(output, 0);
        },
    }
}

fn push_optional_artifact_id(output: &mut Vec<u8>, value: Option<ArtifactId>)
    ensures
        final(output)@ == old(output)@ + optional_artifact_bytes(value),
{
    match value {
        Some(id) => {
            push_u32(output, 1);
            push_i64(output, id.value);
            assert(output@ =~= old(output)@ + optional_artifact_bytes(value));
        },
        None => {
            push_u32(output, 0);
        },
    }
}

fn push_usage(output: &mut Vec<u8>, usage: Option<UsageTotals>)
    ensures
        final(output)@ == old(output)@ + usage_bytes(usage),
{
    match usage {
        Some(totals) => {
            let amount: Option<u64> = match totals.reported_cost_micro_usd {
                Some(amount) => Some(amount.value),
                None => None,
            };
            push_optional_count(output, totals.input_tokens);
            push_optional_count(output, totals.output_tokens);
            push_optional_count(output, totals.cache_read_tokens);
            push_optional_count(output, totals.cache_write_tokens);
            push_optional_count(output, totals.reasoning_tokens);
            push_optional_count(output, amount);
            proof {
                let start = old(output)@;
                let c0 = optional_count_bytes(totals.input_tokens);
                let c1 = optional_count_bytes(totals.output_tokens);
                let c2 = optional_count_bytes(totals.cache_read_tokens);
                let c3 = optional_count_bytes(totals.cache_write_tokens);
                let c4 = optional_count_bytes(totals.reasoning_tokens);
                let c5 = optional_count_bytes(amount);
                lemma_concat_assoc(start + c0 + c1 + c2 + c3, c4, c5);
                lemma_concat_assoc(start + c0 + c1 + c2, c3, c4 + c5);
                lemma_concat_assoc(start + c0 + c1, c2, c3 + (c4 + c5));
                lemma_concat_assoc(start + c0, c1, c2 + (c3 + (c4 + c5)));
                lemma_concat_assoc(start, c0, c1 + (c2 + (c3 + (c4 + c5))));
            }
        },
        None => {
            push_u64(output, u64::MAX);
        },
    }
}

/// Fingerprint of a terminal report with its evidence.
pub fn fingerprint_terminal(
    session_id: SessionId,
    report: &TerminalReport,
    evidence: &VerifiedTerminalEvidence,
) -> (digest: ContentDigest)
    ensures
        digest.bytes == blake3_of(terminal_preimage(session_id, *report, *evidence)),
{
    let mut bytes: Vec<u8> = Vec::new();
    push_framed(&mut bytes, SESSION_TERMINAL);
    push_i64(&mut bytes, session_id.value);
    push_bytes(&mut bytes, report.packet_digest.bytes.as_slice());
    push_u64(&mut bytes, report.expected_session_revision.revision.value);
    push_i64(&mut bytes, evidence.transcript_artifact_id.value);
    push_optional_artifact_id(&mut bytes, evidence.execution_summary_artifact_id);
    push_i64(&mut bytes, evidence.required_read_assertion_artifact_id.value);
    push_u32(&mut bytes, evidence.required_read_expected_count);
    push_u32(&mut bytes, evidence.required_read_satisfied_count);
    push_u32(&mut bytes, stop_reason_code(report.stop_reason) as u32);
    let word: u32 = match report.operation {
        Some(operation) => terminal_operation_code(operation) as u32,
        None => u32::MAX,
    };
    push_u32(&mut bytes, word);
    push_usage(&mut bytes, evidence.usage);
    push_bytes(&mut bytes, report.report_digest.bytes.as_slice());
    proof {
        let c0 = framed(SESSION_TERMINAL@);
        let c1 = be_i64(session_id.value);
        let c2 = report.packet_digest.bytes@;
        let c3 = be64(report.expected_session_revision.revision.value);
        let c4 = be_i64(evidence.transcript_artifact_id.value);
        let c5 = optional_artifact_bytes(evidence.execution_summary_artifact_id);
        let c6 = be_i64(evidence.required_read_assertion_artifact_id.value);
        let c7 = be32(evidence.required_read_expected_count);
        let c8 = be32(evidence.required_read_satisfied_count);
        let c9 = be32(spec_stop_reason_code(report.stop_reason) as u32);
        let c10 = be32(operation_word(report.operation));
        let c11 = usage_bytes(evidence.usage);
        let c12 = report.report_digest.bytes@;
        let p0 = Seq::<u8>::empty() + c0;
        assert(p0 =~= c0);
        let p1 = p0 + c1;
        let p2 = p1 + c2;
        let p3 = p2 + c3;
        let p4 = p3 + c4;
        let p5 = p4 + c5;
        let p6 = p5 + c6;
        let p7 = p6 + c7;
        let p8 = p7 + c8;
        let p9 = p8 + c9;
        let p10 = p9 + c10;
        let p11 = p10 + c11;
        let t12 = c12;
        let t11 = c11 + t12;
        let t10 = c10 + t11;
        let t9 = c9 + t10;
        let t8 = c8 + t9;
        let t7 = c7 + t8;
        let t6 = c6 + t7;
        let t5 = c5 + t6;
        let t4 = c4 + t5;
        let t3 = c3 + t4;
        let t2 = c2 + t3;
        let t1 = c1 + t2;
        lemma_concat_assoc(p10, c11, t12);
        lemma_concat_assoc(p9, c10, t11);
        lemma_concat_assoc(p8, c9, t10);
        lemma_concat_assoc(p7, c8, t9);
        lemma_concat_assoc(p6, c7, t8);
        lemma_concat_assoc(p5, c6, t7);
        lemma_concat_assoc(p4, c5, t6);
        lemma_concat_assoc(p3, c4, t5);
        lemma_concat_assoc(p2, c3, t4);
        lemma_concat_assoc(p1, c2, t3);
        lemma_concat_assoc(p0, c1, t2);
    }
    assert(bytes@ == terminal_preimage(session_id, *report, *evidence));
    ContentDigest::of_bytes(bytes.as_slice())
}

/// A session under lock with its assignment and campaign, as their columns
/// hold them.
#[derive(Clone, Debug, PartialEq, Eq)]
pub struct TerminalSessionRow {
    pub assignment_id: i64,
    pub campaign_id: i64,
    pub revision: i64,
    pub lifecycle: i16,
    pub packet_digest: Vec<u8>,
    pub terminal_operations_mask: i64,
    pub required_read_manifest_artifact_id: i64,
    pub campaign_revision: i64,
    pub aggregate_budget_micro_usd: i64,
    pub measured_cost_micro_usd: i64,
    pub campaign_cost_state: i16,
    pub campaign_lifecycle: i16,
}

/// The cost side of a terminal transition.
#[derive(Clone, Copy, Debug, PartialEq, Eq, Structural)]
pub struct CostTransition {
    /// The session's cost state, and at least the campaign's next one.
    pub cost_state: i16,
    /// The session's own cost, where it is known.
    pub cost_value: Option<u64>,
    /// The campaign's measured cost afterwards.
    pub measured: u64,
    /// The campaign's lifecycle afterwards.
    pub campaign_lifecycle: i16,
}

/// What a terminal transition writes to the session, assignment and campaign
/// rows.
#[derive(Clone, Copy, Debug, PartialEq, Eq)]
pub struct TerminalPlan {
    pub session_state: SessionState,
    pub session_state_code: i16,
    pub required_read_expected_count: i32,
    pub required_read_satisfied_count: i32,
    pub usage: Option<UsageColumns>,
    pub cost_state: i16,
    /// The session's cost column; empty where the value does not fit it.
    pub cost_column: Option<i64>,
    pub stop_reason_code: i16,
    pub operation_code: Option<i16>,
    pub failure_code: Option<i16>,
    pub session: CampaignTransition,
    pub assignment_state_code: i16,
    pub campaign: CampaignTransition,
    pub campaign_measured: i64,
    pub campaign_cost_state: i16,
    pub campaign_lifecycle: i16,
    pub campaign_failure_reason: Option<&'static str>,
    pub receipt_cost: TerminalCost,
}

/// The receipt, if any, that already answers a terminal report.
pub open spec fn spec_admit_terminal(
    principal: String,
    command_id: String,
    session_id: SessionId,
    report: TerminalReport,
    evidence: VerifiedTerminalEvidence,
    audit: Option<AuditRow>,
) -> Result<Option<Audit>, StoreError> {
    match spec_validate_process_key(principal@, command_id@) {
        Err(fault) => Err(fault),
        Ok(()) => spec_replay(
            audit,
            principal,
            command_id,
            SESSION_TERMINAL@,
            ContentDigest { bytes: blake3_of(terminal_preimage(session_id, report, evidence)) },
            SESSION_SUBJECT,
        ),
    }
}

/// Admits a terminal report against its command key.
pub fn admit_terminal_session(
    principal: &String,
    command_id: &String,
    session_id: SessionId,
    report: &TerminalReport,
    evidence: &VerifiedTerminalEvidence,
    audit: Option<&AuditRow>,
) -> (result: Result<Option<Audit>, StoreError>)
    ensures
        result == spec_admit_terminal(
            *principal,
            *command_id,
            session_id,
            *report,
            *evidence,
            match audit {
                Some(row) => Some(*row),
                None => None,
            },
        ),
{
    match validate_command(principal.as_str(), command_id.as_str()) {
        Err(fault) => return Err(fault),
        Ok(()) => {},
    }
    replay(
        audit,
        principal,
        command_id,
        SESSION_TERMINAL,
        fingerprint_terminal(session_id, report, evidence),
        SESSION_SUBJECT,
    )
}

/// A finished session read to answer a repeated report, as its columns hold it.
#[derive(Clone, Copy, Debug, PartialEq, Eq, Structural)]
pub struct FinishedSessionRow {
    pub lifecycle: i16,
    pub campaign_id: i64,
    pub cost_state: Option<i16>,
    pub cost_micro_usd: Option<i64>,
}

/// The receipt a repeated terminal report is answered with.
pub open spec fn spec_replayed_terminal(
    session_id: SessionId,
    audit: Audit,
    row: FinishedSessionRow,
    campaign_revision: i64,
) -> Result<TerminalReceipt, StoreError> {
    match CampaignId::spec_new(row.campaign_id) {
        Err(fault) => Err(StoreError::Contract(fault)),
        Ok(_) => match spec_revision_from_sql(campaign_revision) {
            Err(fault) => Err(fault),
            Ok(campaign_revision) => match spec_session_state_from_code(row.lifecycle) {
                Err(fault) => Err(fault),
                Ok(session_state) => match spec_db_cost(row.cost_state, row.cost_micro_usd) {
                    Ok(Some(cost)) => Ok(
                        TerminalReceipt {
                            session_id,
                            session_state,
                            cost,
                            resulting_revision: audit.resulting_revision,
                            campaign_revision,
                            audit_log_id: audit.audit_log_id,
                            was_idempotent_retry: true,
                        },
                    ),
                    _ => Err(StoreError::CorruptCostColumn),
                },
            },
        },
    }
}

/// Answers a repeated terminal report.
pub fn replayed_terminal_receipt(
    session_id: SessionId,
    audit: &Audit,
    row: FinishedSessionRow,
    campaign_revision: i64,
) -> (result: Result<TerminalReceipt, StoreError>)
    ensures
        result == spec_replayed_terminal(session_id, *audit, row, campaign_revision),
{
    match CampaignId::new(row.campaign_id) {
        Err(fault) => return Err(StoreError::Contract(fault)),
        Ok(_) => {},
    }
    let campaign_revision = match aggregate_revision_from_sql(campaign_revision) {
        Ok(revision) => revision,
        Err(fault) => return Err(fault),
    };
    let session_state = match session_state_from_code(row.lifecycle) {
        Ok(state) => state,
        Err(fault) => return Err(fault),
    };
    match db_cost(row.cost_state, row.cost_micro_usd) {
        Ok(Some(cost)) => Ok(
            TerminalReceipt {
                session_id,
                session_state,
                cost,
                resulting_revision: audit.resulting_revision,
                campaign_revision,
                audit_log_id: audit.audit_log_id,
                was_idempotent_retry: true,
            },
        ),
        _ => Err(StoreError::CorruptCostColumn),
    }
}

/// Whether a report's stop reason, operation and evidence go together. A
/// completion needs an operation that the assignment allows, every required
/// read and usage totals; nothing else carries an operation.
pub open spec fn report_fault(
    report: TerminalReport,
    evidence: VerifiedTerminalEvidence,
    terminal_operations_mask: i64,
) -> Option<StoreError> {
    match report.stop_reason {
        StopReason::Completed => if report.operation is None || spec_operation_mask_one(
            report.operation,
        ) & terminal_operations_mask == 0 {
            Some(StoreError::TerminalOperationNotAllowed)
        } else if evidence.required_read_satisfied_count != evidence.required_read_expected_count {
            Some(StoreError::RequiredReadIncomplete)
        } else if evidence.usage is None {
            Some(StoreError::TerminalCostMismatch)
        } else {
            None
        },
        StopReason::UnknownCost => if report.operation is Some {
            Some(StoreError::TerminalCostMismatch)
        } else {
            None
        },
        _ => if report.operation is Some {
            Some(StoreError::TerminalOperationNotAllowed)
        } else {
            None
        },
    }
}

/// The provider's reported cost, unknown where none was reported.
pub open spec fn evidence_cost(evidence: VerifiedTerminalEvidence) -> TerminalCost {
    match evidence.usage {
        Some(usage) => match usage.reported_cost_micro_usd {
            Some(amount) => TerminalCost::Known(amount),
            None => TerminalCost::Unknown,
        },
        None => TerminalCost::Unknown,
    }
}

/// How a session's cost moves its campaign. A known cost is added while the
/// campaign's own cost is known; going over the budget, or stopping at the
/// cost limit, exceeds it and fails the campaign. An unknown cost fails the
/// campaign too, except for a cancellation, which leaves it running but frozen
/// until the cancel command completes. Once the campaign's cost is no longer
/// known, a known session cost changes nothing.
pub open spec fn spec_cost_transition(
    cost: TerminalCost,
    stop_reason: StopReason,
    budget: u64,
    measured: u64,
    campaign_cost_state: i16,
    campaign_lifecycle: i16,
) -> Result<CostTransition, StoreError> {
    match cost {
        TerminalCost::Known(value) => if stop_reason == StopReason::CostLimit
            || campaign_cost_state == COST_KNOWN {
            if measured + value.value > u64::MAX {
                Err(StoreError::CorruptCostColumn)
            } else if stop_reason == StopReason::CostLimit || measured + value.value > budget {
                Ok(
                    CostTransition {
                        cost_state: COST_EXCEEDED,
                        cost_value: Some(value.value),
                        measured: (measured + value.value) as u64,
                        campaign_lifecycle: FAILED,
                    },
                )
            } else {
                Ok(
                    CostTransition {
                        cost_state: COST_KNOWN,
                        cost_value: Some(value.value),
                        measured: (measured + value.value) as u64,
                        campaign_lifecycle,
                    },
                )
            }
        } else {
            Ok(
                CostTransition {
                    cost_state: campaign_cost_state,
                    cost_value: Some(value.value),
                    measured,
                    campaign_lifecycle,
                },
            )
        },
        TerminalCost::Exceeded(value) => Ok(
            CostTransition {
                cost_state: COST_EXCEEDED,
                cost_value: Some(value.value),
                measured: if measured + value.value > u64::MAX {
                    u64::MAX
                } else {
                    (measured + value.value) as u64
                },
                campaign_lifecycle: FAILED,
            },
        ),
        TerminalCost::Unknown => Ok(
            CostTransition {
                cost_state: COST_UNKNOWN,
                cost_value: None,
                measured,
                campaign_lifecycle: if stop_reason == StopReason::Cancelled {
                    campaign_lifecycle
                } else {
                    FAILED
                },
            },
        ),
    }
}

/// Decides how a session's cost moves its campaign.
pub fn cost_transition(
    cost: TerminalCost,
    stop_reason: StopReason,
    budget: u64,
    measured: u64,
    campaign_cost_state: i16,
    campaign_lifecycle: i16,
) -> (result: Result<CostTransition, StoreError>)
    ensures
        result == spec_cost_transition(
            cost,
            stop_reason,
            budget,
            measured,
            campaign_cost_state,
            campaign_lifecycle,
        ),
{
    match cost {
        TerminalCost::Known(value) => {
            let at_limit = stop_reason == StopReason::CostLimit;
            if !at_limit && campaign_cost_state != COST_KNOWN {
                return Ok(
                    CostTransition {
                        cost_state: campaign_cost_state,
                        cost_value: Some(value.value),
                        measured,
                        campaign_lifecycle,
                    },
                );
            }
            let total: u64 = match measured.checked_add(value.value) {
                Some(total) => total,
                None => return Err(StoreError::CorruptCostColumn),
            };
            if at_limit || total > budget {
                Ok(
                    CostTransition {
                        cost_state: COST_EXCEEDED,
                        cost_value: Some(value.value),
                        measured: total,
                        campaign_lifecycle: FAILED,
                    },
                )
            } else {
                Ok(
                    CostTransition {
                        cost_state: COST_KNOWN,
                        cost_value: Some(value.value),
                        measured: total,
                        campaign_lifecycle,
                    },
                )
            }
        },
        TerminalCost::Exceeded(value) => Ok(
            CostTransition {
                cost_state: COST_EXCEEDED,
                cost_value: Some(value.value),
                measured: measured.saturating_add(value.value),
                campaign_lifecycle: FAILED,
            },
        ),
        TerminalCost::Unknown => {
            let campaign_lifecycle: i16 = if stop_reason == StopReason::Cancelled {
                campaign_lifecycle
            } else {
                FAILED
            };
            Ok(
                CostTransition {
                    cost_state: COST_UNKNOWN,
                    cost_value: None,
                    measured,
                    campaign_lifecycle,
                },
            )
        },
    }
}

/// The explanation a campaign fails with when a session's cost fails it.
pub open spec fn spec_campaign_failure_reason(transition: CostTransition) -> Option<&'static str> {
    if transition.campaign_lifecycle == FAILED && transition.cost_state == COST_UNKNOWN {
        Some(UNKNOWN_TERMINAL_COST_FAILURE_REASON)
    } else if transition.campaign_lifecycle == FAILED && transition.cost_state == COST_EXCEEDED {
        Some(EXCEEDED_TERMINAL_COST_FAILURE_REASON)
    } else {
        None
    }
}

/// The cost a receipt reports: exceeded wherever the transition exceeded.
pub open spec fn spec_receipt_cost(cost: TerminalCost, transition: CostTransition) -> TerminalCost {
    match transition.cost_value {
        Some(value) => if transition.cost_state == COST_EXCEEDED {
            TerminalCost::Exceeded(MicroUsd { value })
        } else {
            cost
        },
        None => cost,
    }
}

/// The larger of two cost states: unknown outweighs known, exceeded outweighs
/// both.
pub open spec fn worse_cost_state(left: i16, right: i16) -> i16 {
    if left >= right {
        left
    } else {
        right
    }
}

/// Why a terminal report that no receipt answers is refused before its cost is
/// looked at, if it is.
pub open spec fn terminal_row_fault(
    session_id: SessionId,
    report: TerminalReport,
    evidence: VerifiedTerminalEvidence,
    row: Option<TerminalSessionRow>,
) -> Option<StoreError> {
    match row {
        None => Some(StoreError::UnknownSession { session_id }),
        Some(row) => match spec_revision_from_sql(row.revision) {
            Err(fault) => Some(fault),
            Ok(current) => if report.expected_session_revision.revision != current {
                Some(
                    StoreError::RevisionConflict {
                        expected: report.expected_session_revision,
                        current,
                    },
                )
            } else if row.lifecycle != SESSION_RUNNING {
                Some(StoreError::SessionAlreadyTerminal { session_id })
            } else if row.packet_digest@ != report.packet_digest.bytes@ {
                Some(StoreError::PacketIdentityMismatch)
            } else if report_fault(report, evidence, row.terminal_operations_mask) is Some {
                report_fault(report, evidence, row.terminal_operations_mask)
            } else if evidence.required_read_assertion_artifact_id.value
                == row.required_read_manifest_artifact_id {
                Some(StoreError::RequiredReadManifestMismatch)
            } else if row.aggregate_budget_micro_usd < 0 || row.measured_cost_micro_usd < 0 {
                Some(StoreError::CorruptCostColumn)
            } else {
                None
            },
        },
    }
}

/// The cost transition of an otherwise acceptable report.
pub open spec fn row_cost_transition(
    report: TerminalReport,
    evidence: VerifiedTerminalEvidence,
    row: TerminalSessionRow,
) -> Result<CostTransition, StoreError> {
    spec_cost_transition(
        evidence_cost(evidence),
        report.stop_reason,
        row.aggregate_budget_micro_usd as u64,
        row.measured_cost_micro_usd as u64,
        row.campaign_cost_state,
        row.campaign_lifecycle,
    )
}

/// Why the columns of an otherwise acceptable transition cannot be written, if
/// they cannot.
pub open spec fn terminal_column_fault(
    report: TerminalReport,
    evidence: VerifiedTerminalEvidence,
    row: TerminalSessionRow,
    cost: CostTransition,
) -> Option<StoreError> {
    let current = report.expected_session_revision.revision;
    if spec_next_revision(current) is Err {
        Some(spec_next_revision(current)->Err_0)
    } else if spec_session_state(report.stop_reason) == SessionState::Succeeded
        && evidence.execution_summary_artifact_id is None {
        Some(StoreError::InvalidProcessCommand { field: "execution summary evidence" })
    } else if evidence.usage is Some && spec_usage_sql(evidence.usage->0) is Err {
        Some(StoreError::InvalidProcessCommand { field: "usage total" })
    } else if evidence.required_read_expected_count > i32::MAX
        || evidence.required_read_satisfied_count > i32::MAX {
        Some(StoreError::InvalidProcessCommand { field: "required read count" })
    } else if spec_transition(current) is Err {
        Some(spec_transition(current)->Err_0)
    } else if spec_revision_from_sql(row.campaign_revision) is Err {
        Some(StoreError::RevisionOutOfRange)
    } else if spec_next_revision(AggregateRevision { value: row.campaign_revision as u64 }) is Err {
        Some(
            spec_next_revision(AggregateRevision { value: row.campaign_revision as u64 })->Err_0,
        )
    } else if cost.measured > i64::MAX {
        Some(StoreError::RevisionOutOfRange)
    } else if spec_transition(AggregateRevision { value: row.campaign_revision as u64 }) is Err {
        Some(spec_transition(AggregateRevision { value: row.campaign_revision as u64 })->Err_0)
    } else {
        None
    }
}

/// Why a terminal report that no receipt answers is refused, if it is.
pub open spec fn terminal_fault(
    session_id: SessionId,
    report: TerminalReport,
    evidence: VerifiedTerminalEvidence,
    row: Option<TerminalSessionRow>,
) -> Option<StoreError> {
    match terminal_row_fault(session_id, report, evidence, row) {
        Some(fault) => Some(fault),
        None => match row_cost_transition(report, evidence, row->0) {
            Err(fault) => Some(fault),
            Ok(cost) => terminal_column_fault(report, evidence, row->0, cost),
        },
    }
}

/// What an accepted terminal report writes.
pub open spec fn planned_terminal(
    report: TerminalReport,
    evidence: VerifiedTerminalEvidence,
    row: TerminalSessionRow,
    plan: TerminalPlan,
) -> bool {
    let cost = row_cost_transition(report, evidence, row)->Ok_0;
    let state = spec_session_state(report.stop_reason);
    &&& plan.session_state == state
    &&& plan.session_state_code == spec_session_state_code(state)
    &&& plan.required_read_expected_count == evidence.required_read_expected_count
    &&& plan.required_read_satisfied_count == evidence.required_read_satisfied_count
    &&& match evidence.usage {
        Some(usage) => plan.usage matches Some(columns) && spec_usage_sql(usage) == Ok::<
            UsageColumns,
            StoreError,
        >(columns),
        None => plan.usage is None,
    }
    &&& plan.cost_state == cost.cost_state
    &&& plan.cost_column == (match cost.cost_value {
        Some(value) => if value <= i64::MAX {
            Some(value as i64)
        } else {
            None
        },
        None => None,
    })
    &&& plan.stop_reason_code == spec_stop_reason_code(report.stop_reason)
    &&& plan.operation_code == (match report.operation {
        Some(operation) => Some(spec_terminal_operation_code(operation)),
        None => None,
    })
    &&& plan.failure_code == spec_failure_code(report.stop_reason)
    &&& spec_transition(report.expected_session_revision.revision) == Ok::<
        CampaignTransition,
        StoreError,
    >(plan.session)
    &&& plan.assignment_state_code == spec_assignment_state_code(state)
    &&& spec_transition(AggregateRevision { value: row.campaign_revision as u64 }) == Ok::<
        CampaignTransition,
        StoreError,
    >(plan.campaign)
    &&& plan.campaign_measured == cost.measured
    &&& plan.campaign_cost_state == worse_cost_state(cost.cost_state, row.campaign_cost_state)
    &&& plan.campaign_lifecycle == cost.campaign_lifecycle
    &&& plan.campaign_failure_reason == spec_campaign_failure_reason(cost)
    &&& plan.receipt_cost == spec_receipt_cost(evidence_cost(evidence), cost)
}

fn check_report(
    report: &TerminalReport,
    evidence: &VerifiedTerminalEvidence,
    terminal_operations_mask: i64,
) -> (fault: Option<StoreError>)
    ensures
        fault == report_fault(*report, *evidence, terminal_operations_mask),
{
    match report.stop_reason {
        StopReason::Completed => if report.operation.is_none() || operation_mask_one(
            report.operation,
        ) & terminal_operations_mask == 0 {
            Some(StoreError::TerminalOperationNotAllowed)
        } else if evidence.required_read_satisfied_count != evidence.required_read_expected_count {
            Some(StoreError::RequiredReadIncomplete)
        } else if evidence.usage.is_none() {
            Some(StoreError::TerminalCostMismatch)
        } else {
            None
        },
        StopReason::UnknownCost => if report.operation.is_some() {
            Some(StoreError::TerminalCostMismatch)
        } else {
            None
        },
        _ => if report.operation.is_some() {
            Some(StoreError::TerminalOperationNotAllowed)
        } else {
            None
        },
    }
}

fn cost_of_evidence(evidence: &VerifiedTerminalEvidence) -> (cost: TerminalCost)
    ensures
        cost == evidence_cost(*evidence),
{
    match evidence.usage {
        Some(usage) => match usage.provider_cost() {
            Ok(amount) => TerminalCost::Known(amount),
            Err(_) => TerminalCost::Unknown,
        },
        None => TerminalCost::Unknown,
    }
}

fn check_terminal_row(
    session_id: SessionId,
    report: &TerminalReport,
    evidence: &VerifiedTerminalEvidence,
    row: &TerminalSessionRow,
) -> (fault: Option<StoreError>)
    ensures
        fault == terminal_row_fault(session_id, *report, *evidence, Some(*row)),
{
    let current = match aggregate_revision_from_sql(row.revision) {
        Ok(revision) => revision,
        Err(fault) => return Some(fault),
    };
    if report.expected_session_revision.revision != current {
        return Some(
            StoreError::RevisionConflict { expected: report.expected_session_revision, current },
        );
    }
    if row.lifecycle != SESSION_RUNNING {
        return Some(StoreError::SessionAlreadyTerminal { session_id });
    }
    if !bytes_equal(row.packet_digest.as_slice(), report.packet_digest.bytes.as_slice()) {
        return Some(StoreError::PacketIdentityMismatch);
    }
    match check_report(report, evidence, row.terminal_operations_mask) {
        Some(fault) => return Some(fault),
        None => {},
    }
    if evidence.required_read_assertion_artifact_id.value
        == row.required_read_manifest_artifact_id {
        return Some(StoreError::RequiredReadManifestMismatch);
    }
    if row.aggregate_budget_micro_usd < 0 || row.measured_cost_micro_usd < 0 {
        return Some(StoreError::CorruptCostColumn);
    }
    None
}

/// Plans the rows of a terminal report that no receipt answers.
#[verifier::rlimit(30)]
pub fn terminal_session(
    session_id: SessionId,
    report: &TerminalReport,
    evidence: &VerifiedTerminalEvidence,
    row: Option<&TerminalSessionRow>,
) -> (result: Result<TerminalPlan, StoreError>)
    ensures
        ({
            let read = match row {
                Some(row) => Some(*row),
                None => None,
            };
            match result {
                Err(fault) => terminal_fault(session_id, *report, *evidence, read) == Some(fault),
                Ok(plan) => {
                    &&& terminal_fault(session_id, *report, *evidence, read) is None
                    &&& planned_terminal(*report, *evidence, read->0, plan)
                },
            }
        }),
{
    let row = match row {
        Some(row) => row,
        None => return Err(StoreError::UnknownSession { session_id }),
    };
    match check_terminal_row(session_id, report, evidence, row) {
        Some(fault) => return Err(fault),
        None => {},
    }
    let provider_cost = cost_of_evidence(evidence);
    let cost = match cost_transition(
        provider_cost,
        report.stop_reason,
        row.aggregate_budget_micro_usd as u64,
        row.measured_cost_micro_usd as u64,
        row.campaign_cost_state,
        row.campaign_lifecycle,
    ) {
        Ok(cost) => cost,
        Err(fault) => return Err(fault),
    };
    let state = session_state(report.stop_reason);
    let current = report.expected_session_revision.revision;
    match next_revision(current) {
        Err(fault) => return Err(fault),
        Ok(_) => {},
    }
    if state == SessionState::Succeeded && evidence.execution_summary_artifact_id.is_none() {
        return Err(StoreError::InvalidProcessCommand { field: "execution summary evidence" });
    }
    let usage = match evidence.usage {
        Some(totals) => match usage_sql(totals) {
            Ok(columns) => Some(columns),
            Err(fault) => return Err(fault),
        },
        None => None,
    };
    if evidence.required_read_expected_count > i32::MAX as u32
        || evidence.required_read_satisfied_count > i32::MAX as u32 {
        return Err(StoreError::InvalidProcessCommand { field: "required read count" });
    }
    let session = match plan_transition(current) {
        Ok(transition) => transition,
        Err(fault) => return Err(fault),
    };
    let campaign_current = match aggregate_revision_from_sql(row.campaign_revision) {
        Ok(revision) => revision,
        Err(fault) => return Err(fault),
    };
    match next_revision(campaign_current) {
        Err(fault) => return Err(fault),
        Ok(_) => {},
    }
    if cost.measured > i64::MAX as u64 {
        return Err(StoreError::RevisionOutOfRange);
    }
    let campaign = match plan_transition(campaign_current) {
        Ok(transition) => transition,
        Err(fault) => return Err(fault),
    };
    let cost_column: Option<i64> = match cost.cost_value {
        Some(value) => if value <= i64::MAX as u64 {
            Some(value as i64)
        } else {
            None
        },
        None => None,
    };
    let receipt_cost = match cost.cost_value {
        Some(value) => if cost.cost_state == COST_EXCEEDED {
            TerminalCost::Exceeded(MicroUsd { value })
        } else {
            provider_cost
        },
        None => provider_cost,
    };
    let campaign_failure_reason = if cost.campaign_lifecycle == FAILED && cost.cost_state
        == COST_UNKNOWN {
        Some(UNKNOWN_TERMINAL_COST_FAILURE_REASON)
    } else if cost.campaign_lifecycle == FAILED && cost.cost_state == COST_EXCEEDED {
        Some(EXCEEDED_TERMINAL_COST_FAILURE_REASON)
    } else {
        None
    };
    let campaign_cost_state: i16 = if cost.cost_state >= row.campaign_cost_state {
        cost.cost_state
    } else {
        row.campaign_cost_state
    };
    let operation_code: Option<i16> = match report.operation {
        Some(operation) => Some(terminal_operation_code(operation)),
        None => None,
    };
    Ok(
        TerminalPlan {
            session_state: state,
            session_state_code: session_state_code(state),
            required_read_expected_count: evidence.required_read_expected_count as i32,
            required_read_satisfied_count: evidence.required_read_satisfied_count as i32,
            usage,
            cost_state: cost.cost_state,
            cost_column,
            stop_reason_code: stop_reason_code(report.stop_reason),
            operation_code,
            failure_code: failure_code(report.stop_reason),
            session,
            assignment_state_code: assignment_state_code(state),
            campaign,
            campaign_measured: cost.measured as i64,
            campaign_cost_state,
            campaign_lifecycle: cost.campaign_lifecycle,
            campaign_failure_reason,
            receipt_cost,
        },
    )
}

/// The receipt of a terminal transition that was just written.
pub fn terminal_receipt(session_id: SessionId, plan: &TerminalPlan, audit_log_id: i64) -> (receipt:
    TerminalReceipt)
    ensures
        receipt == (TerminalReceipt {
            session_id,
            session_state: plan.session_state,
            cost: plan.receipt_cost,
            resulting_revision: plan.session.resulting_revision,
            campaign_revision: plan.campaign.resulting_revision,
            audit_log_id,
            was_idempotent_retry: false,
        }),
{
    TerminalReceipt {
        session_id,
        session_state: plan.session_state,
        cost: plan.receipt_cost,
        resulting_revision: plan.session.resulting_revision,
        campaign_revision: plan.campaign.resulting_revision,
        audit_log_id,
        was_idempotent_retry: false,
    }
}

/// A terminal transition advances session and campaign by one revision each,
/// and takes the session out of the running state for good.
pub proof fn law_terminal_transition_advances_once(
    session_id: SessionId,
    report: TerminalReport,
    evidence: VerifiedTerminalEvidence,
    row: TerminalSessionRow,
    plan: TerminalPlan,
)
    requires
        terminal_fault(session_id, report, evidence, Some(row)) is None,
        planned_terminal(report, evidence, row, plan),
    ensures
        plan.session.revision_column == row.revision + 1,
        plan.campaign.revision_column == row.campaign_revision + 1,
        plan.session_state_code != SESSION_RUNNING,
        plan.assignment_state_code != SESSION_RUNNING,
        spec_session_state_from_code(plan.session_state_code) == Ok::<SessionState, StoreError>(
            plan.session_state,
        ),
{
}

/// Money is never lost and never spent past the budget unnoticed: the measured
/// cost of a campaign does not fall; a campaign that is left running with known
/// cost has measured exactly the old cost plus the session's, within its
/// budget; and a campaign's cost state never improves.
pub proof fn law_campaign_cost_is_accounted(
    session_id: SessionId,
    report: TerminalReport,
    evidence: VerifiedTerminalEvidence,
    row: TerminalSessionRow,
    plan: TerminalPlan,
)
    requires
        terminal_fault(session_id, report, evidence, Some(row)) is None,
        planned_terminal(report, evidence, row, plan),
    ensures
        plan.campaign_measured >= row.measured_cost_micro_usd,
        plan.campaign_cost_state >= row.campaign_cost_state,
        plan.campaign_cost_state == COST_KNOWN && row.campaign_cost_state == COST_KNOWN ==> {
            &&& evidence_cost(evidence) is Known
            &&& plan.campaign_measured == row.measured_cost_micro_usd + evidence_cost(
                evidence,
            )->Known_0.value
            &&& plan.campaign_measured <= row.aggregate_budget_micro_usd
            &&& plan.campaign_lifecycle == row.campaign_lifecycle
        },
{
}

/// A session whose cost is unknown freezes its campaign: the cost state leaves
/// the known state, the measured cost stays, and the campaign fails unless the
/// session was cancelled.
pub proof fn law_unknown_cost_freezes_campaign(
    session_id: SessionId,
    report: TerminalReport,
    evidence: VerifiedTerminalEvidence,
    row: TerminalSessionRow,
    plan: TerminalPlan,
)
    requires
        terminal_fault(session_id, report, evidence, Some(row)) is None,
        planned_terminal(report, evidence, row, plan),
        evidence_cost(evidence) is Unknown,
    ensures
        plan.campaign_cost_state != COST_KNOWN,
        plan.campaign_measured == row.measured_cost_micro_usd,
        plan.receipt_cost is Unknown,
        report.stop_reason != StopReason::Cancelled ==> plan.campaign_lifecycle == FAILED
            && plan.campaign_failure_reason == Some(UNKNOWN_TERMINAL_COST_FAILURE_REASON),
        report.stop_reason == StopReason::Cancelled ==> plan.campaign_lifecycle
            == row.campaign_lifecycle,
{
}

/// A restarted daemon ends a session as disconnected without usage: the session
/// is interrupted, its cost unknown, and its campaign frozen and failed.
pub proof fn law_daemon_restart_freezes_campaign(
    session_id: SessionId,
    report: TerminalReport,
    evidence: VerifiedTerminalEvidence,
    row: TerminalSessionRow,
    plan: TerminalPlan,
)
    requires
        terminal_fault(session_id, report, evidence, Some(row)) is None,
        planned_terminal(report, evidence, row, plan),
        report.stop_reason == StopReason::DaemonDisconnected,
        evidence.usage is None,
    ensures
        plan.session_state == SessionState::Interrupted,
        plan.campaign_lifecycle == FAILED,
        plan.campaign_cost_state != COST_KNOWN,
{
}

/// A running campaign that a session ends as failed is left with the reason,
/// and one that goes on is left with none.
pub proof fn law_failed_campaign_is_explained(
    session_id: SessionId,
    report: TerminalReport,
    evidence: VerifiedTerminalEvidence,
    row: TerminalSessionRow,
    plan: TerminalPlan,
)
    requires
        terminal_fault(session_id, report, evidence, Some(row)) is None,
        planned_terminal(report, evidence, row, plan),
        row.campaign_lifecycle == RUNNING,
    ensures
        plan.campaign_lifecycle == RUNNING || plan.campaign_lifecycle == FAILED,
        plan.campaign_failure_reason is Some <==> plan.campaign_lifecycle == FAILED,
{
}

/// A cancellation that had to stop a session first is completed by the same
/// command: the session's end moves the campaign by exactly the one revision
/// that the second half of the cancellation accounts for. An unknown cost never
/// stands in the way; a session that broke the budget does, since it failed the
/// campaign.
pub proof fn law_cancellation_outlives_its_session(
    cancel: CancelCampaign,
    running_session: i64,
    session_id: SessionId,
    report: TerminalReport,
    evidence: VerifiedTerminalEvidence,
    row: TerminalSessionRow,
    plan: TerminalPlan,
)
    requires
        spec_admit_campaign_cancellation(
            cancel,
            Some(CampaignRow { lifecycle: row.campaign_lifecycle, revision: row.campaign_revision }),
            Some(running_session),
        ) == Ok::<CampaignCancellationAdmission, StoreError>(
            CampaignCancellationAdmission::ActiveSession { session_id },
        ),
        terminal_fault(session_id, report, evidence, Some(row)) is None,
        planned_terminal(report, evidence, row, plan),
        report.stop_reason == StopReason::Cancelled,
        row.campaign_revision < i64::MAX - 1,
    ensures
        ({
            let reconciled = ReconciledSessionCancellation {
                campaign_id: cancel.campaign_id,
                session_id,
                campaign_revision: plan.campaign.resulting_revision,
            };
            let left = CampaignRow {
                lifecycle: plan.campaign_lifecycle,
                revision: plan.campaign.revision_column,
            };
            let finished = spec_finish_campaign_cancellation(cancel, reconciled, Some(left));
            &&& spec_check_reconciled(cancel, reconciled) is Ok
            &&& evidence_cost(evidence) is Unknown ==> plan.campaign_lifecycle == RUNNING
                && plan.campaign_cost_state != COST_KNOWN
            &&& plan.campaign_lifecycle == RUNNING ==> finished is Ok
                && finished->Ok_0.revision_column == row.campaign_revision + 2
            &&& plan.campaign_lifecycle != RUNNING ==> finished == Err::<
                CampaignTransition,
                StoreError,
            >(StoreError::CampaignClosed { campaign_id: cancel.campaign_id })
        }),
{
}

/// Only a completion succeeds, and it had an allowed operation, every required
/// read, usage totals and an execution summary.
pub proof fn law_success_needs_complete_evidence(
    session_id: SessionId,
    report: TerminalReport,
    evidence: VerifiedTerminalEvidence,
    row: TerminalSessionRow,
    plan: TerminalPlan,
)
    requires
        terminal_fault(session_id, report, evidence, Some(row)) is None,
        planned_terminal(report, evidence, row, plan),
        plan.session_state == SessionState::Succeeded,
    ensures
        report.stop_reason == StopReason::Completed,
        report.operation is Some,
        operation_bit(report.operation->0) & row.terminal_operations_mask != 0,
        evidence.required_read_satisfied_count == evidence.required_read_expected_count,
        evidence.usage is Some,
        evidence.execution_summary_artifact_id is Some,
{
}

/// Whether one byte string sorts before or with another.
pub open spec fn bytes_le(left: Seq<u8>, right: Seq<u8>) -> bool
    decreases left.len(),
{
    if left.len() == 0 {
        true
    } else if right.len() == 0 {
        false
    } else if left[0] != right[0] {
        left[0] < right[0]
    } else {
        bytes_le(left.skip(1), right.skip(1))
    }
}

/// A read as plain values.
pub struct ReadView {
    pub path: Seq<char>,
    pub digest: ContentDigest,
    pub reason: Seq<char>,
}

pub open spec fn read_view(read: ReadExactFile) -> ReadView {
    ReadView { path: read.path@, digest: read.digest, reason: read.reason@ }
}

pub open spec fn read_views(reads: Seq<ReadExactFile>) -> Seq<ReadView> {
    reads.map_values(|read: ReadExactFile| read_view(read))
}

/// Inserts a read behind every read whose path does not sort after its own.
pub open spec fn inserted_by_path(sorted: Seq<ReadView>, read: ReadView) -> Seq<ReadView>
    decreases sorted.len(),
{
    if sorted.len() == 0 || bytes_le(encode_utf8(sorted.last().path), encode_utf8(read.path)) {
        sorted.push(read)
    } else {
        inserted_by_path(sorted.drop_last(), read).push(sorted.last())
    }
}

/// The reads in path order; reads of one path keep their order.
pub open spec fn sorted_by_path(reads: Seq<ReadView>) -> Seq<ReadView>
    decreases reads.len(),
{
    if reads.len() == 0 {
        reads
    } else {
        inserted_by_path(sorted_by_path(reads.drop_last()), reads.last())
    }
}

fn bytes_not_after(left: &[u8], right: &[u8]) -> (ok: bool)
    ensures
        ok == bytes_le(left@, right@),
{
    let mut index: usize = 0;
    assert(left@.skip(0) =~= left@);
    assert(right@.skip(0) =~= right@);
    while index < left.len()
        invariant
            index <= left.len(),
            index <= right.len(),
            bytes_le(left@, right@) == bytes_le(left@.skip(index as int), right@.skip(index as int)),
        decreases left.len() - index,
    {
        let ghost tail_left = left@.skip(index as int);
        let ghost tail_right = right@.skip(index as int);
        if index >= right.len() {
            return false;
        }
        assert(tail_left[0] == left@[index as int]);
        assert(tail_right[0] == right@[index as int]);
        assert(tail_left.skip(1) =~= left@.skip(index as int + 1));
        assert(tail_right.skip(1) =~= right@.skip(index as int + 1));
        if left[index] != right[index] {
            return left[index] < right[index];
        }
        index += 1;
    }
    assert(left@.skip(index as int).len() == 0);
    true
}

fn copy_read(read: &ReadExactFile) -> (copy: ReadExactFile)
    ensures
        read_view(copy) == read_view(*read),
{
    ReadExactFile { path: read.path.clone(), digest: read.digest, reason: read.reason.clone() }
}

proof fn lemma_inserted_at(sorted: Seq<ReadView>, read: ReadView, at: int)
    requires
        0 <= at <= sorted.len(),
        forall|i: int|
            at <= i < sorted.len() ==> !bytes_le(
                encode_utf8((#[trigger] sorted[i]).path),
                encode_utf8(read.path),
            ),
        at > 0 ==> bytes_le(encode_utf8(sorted[at - 1].path), encode_utf8(read.path)),
    ensures
        inserted_by_path(sorted, read) == sorted.insert(at, read),
    decreases sorted.len(),
{
    if at == sorted.len() {
        assert(sorted.insert(at, read) =~= sorted.push(read));
    } else {
        assert(sorted.last() == sorted[sorted.len() - 1]);
        lemma_inserted_at(sorted.drop_last(), read, at);
        assert(sorted.drop_last().insert(at, read).push(sorted.last()) =~= sorted.insert(at, read));
    }
}

fn insert_read(sorted: &mut Vec<ReadExactFile>, read: ReadExactFile)
    ensures
        read_views(final(sorted)@) == inserted_by_path(read_views(old(sorted)@), read_view(read)),
{
    let mut at: usize = sorted.len();
    let ghost views = read_views(sorted@);
    while at > 0 && !bytes_not_after(
        sorted[at - 1].path.as_str().as_bytes(),
        read.path.as_str().as_bytes(),
    )
        invariant
            at <= sorted.len(),
            sorted@ == old(sorted)@,
            views == read_views(sorted@),
            forall|i: int|
                at <= i < views.len() ==> !bytes_le(
                    encode_utf8((#[trigger] views[i]).path),
                    encode_utf8(read.path@),
                ),
        ensures
            at <= sorted.len(),
            sorted@ == old(sorted)@,
            forall|i: int|
                at <= i < views.len() ==> !bytes_le(
                    encode_utf8((#[trigger] views[i]).path),
                    encode_utf8(read.path@),
                ),
            at > 0 ==> bytes_le(encode_utf8(views[at - 1].path), encode_utf8(read.path@)),
        decreases at,
    {
        at -= 1;
    }
    proof {
        lemma_inserted_at(views, read_view(read), at as int);
        assert(read_views(sorted@.insert(at as int, read)) =~= views.insert(
            at as int,
            read_view(read),
        ));
    }
    sorted.insert(at, read);
}

fn sorted_reads(reads: &[ReadExactFile]) -> (sorted: Vec<ReadExactFile>)
    ensures
        read_views(sorted@) == sorted_by_path(read_views(reads@)),
{
    let mut sorted: Vec<ReadExactFile> = Vec::new();
    let mut index: usize = 0;
    assert(read_views(sorted@) =~= sorted_by_path(read_views(reads@.take(0))));
    while index < reads.len()
        invariant
            index <= reads.len(),
            read_views(sorted@) == sorted_by_path(read_views(reads@.take(index as int))),
        decreases reads.len() - index,
    {
        let copy = copy_read(&reads[index]);
        proof {
            let taken = read_views(reads@.take(index as int + 1));
            assert(taken.drop_last() =~= read_views(reads@.take(index as int)));
            assert(taken.last() == read_view(reads@[index as int]));
        }
        insert_read(&mut sorted, copy);
        index += 1;
    }
    assert(reads@.take(index as int) =~= reads@);
    sorted
}

/// Whether two lists of required reads are equal.
pub fn reads_equal(left: &Vec<ReadExactFile>, right: &Vec<ReadExactFile>) -> (equal: bool)
    ensures
        equal == (read_views(left@) == read_views(right@)),
{
    if left.len() != right.len() {
        assert(read_views(left@).len() != read_views(right@).len());
        return false;
    }
    let mut index: usize = 0;
    while index < left.len()
        invariant
            index <= left.len(),
            left.len() == right.len(),
            forall|i: int| 0 <= i < index ==> read_view(left@[i]) == read_view(right@[i]),
        decreases left.len() - index,
    {
        let l = &left[index];
        let r = &right[index];
        let equal = text_equal(l.path.as_str(), r.path.as_str()) && l.digest.same(&r.digest)
            && text_equal(l.reason.as_str(), r.reason.as_str());
        if !equal {
            proof {
                assert(read_views(left@)[index as int] == read_view(*l));
                assert(read_views(right@)[index as int] == read_view(*r));
            }
            return false;
        }
        index += 1;
    }
    assert(read_views(left@) =~= read_views(right@));
    true
}

proof fn lemma_insertion_keeps_reads(sorted: Seq<ReadView>, read: ReadView)
    ensures
        inserted_by_path(sorted, read).to_multiset() == sorted.to_multiset().insert(read),
    decreases sorted.len(),
{
    broadcast use vstd::seq_lib::group_to_multiset_ensures;

    if sorted.len() == 0 || bytes_le(encode_utf8(sorted.last().path), encode_utf8(read.path)) {
    } else {
        lemma_insertion_keeps_reads(sorted.drop_last(), read);
        assert(sorted =~= sorted.drop_last().push(sorted.last()));
        assert(inserted_by_path(sorted, read).to_multiset() =~= sorted.to_multiset().insert(read));
    }
}

/// Ordering a list of reads by path neither adds nor drops a read.
pub proof fn law_path_order_keeps_reads(reads: Seq<ReadView>)
    ensures
        sorted_by_path(reads).to_multiset() == reads.to_multiset(),
    decreases reads.len(),
{
    broadcast use vstd::seq_lib::group_to_multiset_ensures;

    if reads.len() > 0 {
        law_path_order_keeps_reads(reads.drop_last());
        lemma_insertion_keeps_reads(sorted_by_path(reads.drop_last()), reads.last());
        assert(reads =~= reads.drop_last().push(reads.last()));
    }
}

/// A session's assignment as evidence is checked against it, in column form.
#[derive(Clone, Debug, PartialEq, Eq)]
pub struct EvidenceAssignmentRow {
    pub id: i64,
    pub packet_artifact_id: i64,
    pub packet_digest: Vec<u8>,
    pub required_read_manifest_artifact_id: i64,
    pub campaign_id: i64,
    pub kernel_build_id: i64,
    pub application_revision_id: i64,
}

/// The sealed assertion of which required reads a session made.
#[derive(Clone, Debug, PartialEq, Eq)]
pub struct RequiredReadAssertion {
    pub session_id: SessionId,
    pub assignment_id: AssignmentId,
    pub expected_manifest_artifact_id: ArtifactId,
    pub expected: Vec<ReadExactFile>,
    /// Why the first observed read that breaks its contract does, if one does.
    pub observed_contract: Option<ContractError>,
    pub satisfied_count: u32,
    pub canonical_bytes: Vec<u8>,
    pub artifact: CasArtifact,
}

/// What the store and the content store hold when evidence is verified.
#[derive(Clone, Debug, PartialEq, Eq)]
pub struct TerminalEvidenceFacts {
    /// Why the packet breaks its own contract, if it does.
    pub packet_contract: Option<ContractError>,
    /// The canonical packet bytes carry the packet's digest.
    pub packet_bytes_verified: bool,
    pub assignment: Option<EvidenceAssignmentRow>,
    /// The build row under the packet's build digest.
    pub packet_build_row: i64,
    /// The digest column of the assignment's manifest artifact.
    pub manifest_digest: Vec<u8>,
    /// The bytes held under that digest.
    pub manifest_content: Vec<u8>,
    /// The bytes held under the assertion's digest.
    pub assertion_content: Vec<u8>,
    /// Registered artifact rows found for each seal.
    pub packet_artifact_row: Option<i64>,
    pub transcript_row: Option<i64>,
    pub execution_summary_row: Option<i64>,
    pub stdout_row: Option<i64>,
    pub stderr_row: Option<i64>,
    pub partial_transcript_row: Option<i64>,
    pub assertion_row: Option<i64>,
}

/// The registered artifact of a seal, looked up by digest and length.
pub open spec fn spec_artifact_id_for_seal(seal: CasArtifact, row: Option<i64>) -> Result<
    ArtifactId,
    StoreError,
> {
    if seal.byte_length > i64::MAX {
        Err(StoreError::ArtifactLengthOutOfRange)
    } else {
        match row {
            None => Err(StoreError::UnregisteredTerminalArtifact),
            Some(id) => match ArtifactId::spec_new(id) {
                Ok(id) => Ok(id),
                Err(fault) => Err(StoreError::Contract(fault)),
            },
        }
    }
}

/// Resolves a seal to its registered artifact.
pub fn artifact_id_for_seal(seal: CasArtifact, row: Option<i64>) -> (result: Result<
    ArtifactId,
    StoreError,
>)
    ensures
        result == spec_artifact_id_for_seal(seal, row),
{
    if seal.byte_length > i64::MAX as u64 {
        return Err(StoreError::ArtifactLengthOutOfRange);
    }
    match row {
        None => Err(StoreError::UnregisteredTerminalArtifact),
        Some(id) => match ArtifactId::new(id) {
            Ok(id) => Ok(id),
            Err(fault) => Err(StoreError::Contract(fault)),
        },
    }
}

/// Why the packet does not belong to the session's assignment, if it does not.
pub open spec fn evidence_packet_fault(
    session_id: SessionId,
    packet: AssignmentPacket,
    packet_artifact: CasArtifact,
    assertion: RequiredReadAssertion,
    facts: TerminalEvidenceFacts,
) -> Option<StoreError> {
    if facts.packet_contract is Some {
        Some(StoreError::Contract(facts.packet_contract->0))
    } else if !facts.packet_bytes_verified {
        Some(StoreError::InvalidPacketDigest)
    } else if assertion.session_id != session_id {
        Some(StoreError::RequiredReadManifestMismatch)
    } else {
        match facts.assignment {
            None => Some(StoreError::UnknownSession { session_id }),
            Some(row) => if row.id != packet.assignment_id.value || row.campaign_id
                != packet.campaign_id.value || row.application_revision_id
                != packet.application_revision_id.value || row.packet_digest@
                != packet.packet_digest.bytes@ {
                Some(StoreError::PacketIdentityMismatch)
            } else {
                match spec_artifact_id_for_seal(packet_artifact, facts.packet_artifact_row) {
                    Err(fault) => Some(fault),
                    Ok(id) => if row.packet_artifact_id != id.value {
                        Some(StoreError::PacketArtifactDigestMismatch)
                    } else if row.kernel_build_id != facts.packet_build_row {
                        Some(StoreError::PacketIdentityMismatch)
                    } else if facts.manifest_digest@.len() != 32 || facts.manifest_content@
                        != manifest_bytes(packet.required_reads@) || assertion.assignment_id.value
                        != row.id || assertion.expected_manifest_artifact_id.value
                        != row.required_read_manifest_artifact_id {
                        Some(StoreError::RequiredReadManifestMismatch)
                    } else {
                        None
                    },
                }
            },
        }
    }
}

/// Why a session's artifacts are refused, if they are.
pub open spec fn evidence_artifact_fault(
    artifacts: TerminalArtifactSeals,
    assertion: RequiredReadAssertion,
    facts: TerminalEvidenceFacts,
) -> Option<StoreError> {
    match spec_artifact_id_for_seal(artifacts.transcript, facts.transcript_row) {
        Err(fault) => Some(fault),
        Ok(transcript) => {
            let summary = match artifacts.execution_summary {
                None => Ok(None),
                Some(seal) => match spec_artifact_id_for_seal(seal, facts.execution_summary_row) {
                    Ok(id) => Ok(Some(id)),
                    Err(fault) => Err(fault),
                },
            };
            match summary {
                Err(fault) => Some(fault),
                Ok(summary) => if summary == Some(transcript) {
                    Some(StoreError::InvalidProcessCommand { field: "execution summary evidence" })
                } else {
                    match spec_artifact_id_for_seal(artifacts.stdout, facts.stdout_row) {
                        Err(fault) => Some(fault),
                        Ok(_) => match spec_artifact_id_for_seal(
                            artifacts.stderr,
                            facts.stderr_row,
                        ) {
                            Err(fault) => Some(fault),
                            Ok(_) => {
                                let partial = match artifacts.partial_transcript {
                                    None => Ok(None),
                                    Some(seal) => match spec_artifact_id_for_seal(
                                        seal,
                                        facts.partial_transcript_row,
                                    ) {
                                        Ok(id) => Ok(Some(id)),
                                        Err(fault) => Err(fault),
                                    },
                                };
                                match partial {
                                    Err(fault) => Some(fault),
                                    Ok(_) => match spec_artifact_id_for_seal(
                                        assertion.artifact,
                                        facts.assertion_row,
                                    ) {
                                        Err(fault) => Some(fault),
                                        Ok(_) => None,
                                    },
                                }
                            },
                        },
                    }
                },
            }
        },
    }
}

/// Why a required-read assertion is refused, if it is.
pub open spec fn evidence_read_fault(
    packet: AssignmentPacket,
    assertion: RequiredReadAssertion,
    facts: TerminalEvidenceFacts,
) -> Option<StoreError> {
    if sorted_by_path(read_views(packet.required_reads@)) != sorted_by_path(
        read_views(assertion.expected@),
    ) {
        Some(StoreError::RequiredReadManifestMismatch)
    } else if assertion.observed_contract is Some {
        Some(StoreError::Contract(assertion.observed_contract->0))
    } else if facts.assertion_content@ != assertion.canonical_bytes@
        || facts.assignment->0.required_read_manifest_artifact_id
        != packet.required_read_manifest_artifact_id.value {
        Some(StoreError::RequiredReadManifestMismatch)
    } else if packet.required_reads@.len() > u32::MAX {
        Some(StoreError::InvalidProcessCommand { field: "required read count" })
    } else {
        None
    }
}

/// Why terminal evidence is refused, if it is: because of the packet, the
/// artifacts, or the required reads, in that order.
pub open spec fn evidence_fault(
    session_id: SessionId,
    packet: AssignmentPacket,
    packet_artifact: CasArtifact,
    artifacts: TerminalArtifactSeals,
    assertion: RequiredReadAssertion,
    facts: TerminalEvidenceFacts,
) -> Option<StoreError> {
    match evidence_packet_fault(session_id, packet, packet_artifact, assertion, facts) {
        Some(fault) => Some(fault),
        None => match evidence_artifact_fault(artifacts, assertion, facts) {
            Some(fault) => Some(fault),
            None => evidence_read_fault(packet, assertion, facts),
        },
    }
}

fn check_evidence_packet(
    session_id: SessionId,
    packet: &AssignmentPacket,
    packet_artifact: CasArtifact,
    assertion: &RequiredReadAssertion,
    facts: &TerminalEvidenceFacts,
) -> (fault: Option<StoreError>)
    ensures
        fault == evidence_packet_fault(session_id, *packet, packet_artifact, *assertion, *facts),
{
    if let Some(fault) = facts.packet_contract {
        return Some(StoreError::Contract(fault));
    }
    if !facts.packet_bytes_verified {
        return Some(StoreError::InvalidPacketDigest);
    }
    if assertion.session_id != session_id {
        return Some(StoreError::RequiredReadManifestMismatch);
    }
    let row = match &facts.assignment {
        Some(row) => row,
        None => return Some(StoreError::UnknownSession { session_id }),
    };
    if row.id != packet.assignment_id.value || row.campaign_id != packet.campaign_id.value
        || row.application_revision_id != packet.application_revision_id.value || !bytes_equal(
        row.packet_digest.as_slice(),
        packet.packet_digest.bytes.as_slice(),
    ) {
        return Some(StoreError::PacketIdentityMismatch);
    }
    let id = match artifact_id_for_seal(packet_artifact, facts.packet_artifact_row) {
        Ok(id) => id,
        Err(fault) => return Some(fault),
    };
    if row.packet_artifact_id != id.value {
        return Some(StoreError::PacketArtifactDigestMismatch);
    }
    if row.kernel_build_id != facts.packet_build_row {
        return Some(StoreError::PacketIdentityMismatch);
    }
    let manifest = canonical_required_manifest(packet.required_reads.as_slice());
    if facts.manifest_digest.len() != 32 || !bytes_equal(
        facts.manifest_content.as_slice(),
        manifest.as_slice(),
    ) || assertion.assignment_id.value != row.id || assertion.expected_manifest_artifact_id.value
        != row.required_read_manifest_artifact_id {
        return Some(StoreError::RequiredReadManifestMismatch);
    }
    None
}

fn optional_artifact_id_for_seal(seal: Option<CasArtifact>, row: Option<i64>) -> (result: Result<
    Option<ArtifactId>,
    StoreError,
>)
    ensures
        result == (match seal {
            None => Ok::<Option<ArtifactId>, StoreError>(None),
            Some(seal) => match spec_artifact_id_for_seal(seal, row) {
                Ok(id) => Ok(Some(id)),
                Err(fault) => Err(fault),
            },
        }),
{
    match seal {
        None => Ok(None),
        Some(seal) => match artifact_id_for_seal(seal, row) {
            Ok(id) => Ok(Some(id)),
            Err(fault) => Err(fault),
        },
    }
}

/// Verifies that a session's files, packet and required reads belong together
/// and are all registered.
pub fn verify_terminal_evidence(
    session_id: SessionId,
    packet: &AssignmentPacket,
    packet_artifact: CasArtifact,
    artifacts: &TerminalArtifactSeals,
    assertion: &RequiredReadAssertion,
    usage: Option<UsageTotals>,
    facts: &TerminalEvidenceFacts,
) -> (result: Result<VerifiedTerminalEvidence, StoreError>)
    ensures
        match result {
            Err(fault) => evidence_fault(
                session_id,
                *packet,
                packet_artifact,
                *artifacts,
                *assertion,
                *facts,
            ) == Some(fault),
            Ok(evidence) => {
                &&& evidence_fault(
                    session_id,
                    *packet,
                    packet_artifact,
                    *artifacts,
                    *assertion,
                    *facts,
                ) is None
                &&& evidence.transcript_artifact_id.value == facts.transcript_row->0
                &&& evidence.execution_summary_artifact_id == (match artifacts.execution_summary {
                    Some(_) => Some(ArtifactId { value: facts.execution_summary_row->0 }),
                    None => None,
                })
                &&& evidence.stdout_artifact_id.value == facts.stdout_row->0
                &&& evidence.stderr_artifact_id.value == facts.stderr_row->0
                &&& evidence.partial_transcript_artifact_id == (match artifacts.partial_transcript {
                    Some(_) => Some(ArtifactId { value: facts.partial_transcript_row->0 }),
                    None => None,
                })
                &&& evidence.required_read_assertion_artifact_id.value == facts.assertion_row->0
                &&& evidence.required_read_expected_count == packet.required_reads@.len()
                &&& evidence.required_read_satisfied_count == assertion.satisfied_count
                &&& evidence.usage == usage
            },
        },
{
    match check_evidence_packet(session_id, packet, packet_artifact, assertion, facts) {
        Some(fault) => return Err(fault),
        None => {},
    }
    let transcript_artifact_id = match artifact_id_for_seal(
        artifacts.transcript,
        facts.transcript_row,
    ) {
        Ok(id) => id,
        Err(fault) => return Err(fault),
    };
    let execution_summary_artifact_id = match optional_artifact_id_for_seal(
        artifacts.execution_summary,
        facts.execution_summary_row,
    ) {
        Ok(id) => id,
        Err(fault) => return Err(fault),
    };
    if let Some(summary) = execution_summary_artifact_id {
        if summary == transcript_artifact_id {
            return Err(
                StoreError::InvalidProcessCommand { field: "execution summary evidence" },
            );
        }
    }
    let stdout_artifact_id = match artifact_id_for_seal(artifacts.stdout, facts.stdout_row) {
        Ok(id) => id,
        Err(fault) => return Err(fault),
    };
    let stderr_artifact_id = match artifact_id_for_seal(artifacts.stderr, facts.stderr_row) {
        Ok(id) => id,
        Err(fault) => return Err(fault),
    };
    let partial_transcript_artifact_id = match optional_artifact_id_for_seal(
        artifacts.partial_transcript,
        facts.partial_transcript_row,
    ) {
        Ok(id) => id,
        Err(fault) => return Err(fault),
    };
    let required_read_assertion_artifact_id = match artifact_id_for_seal(
        assertion.artifact,
        facts.assertion_row,
    ) {
        Ok(id) => id,
        Err(fault) => return Err(fault),
    };
    let expected = sorted_reads(packet.required_reads.as_slice());
    let asserted = sorted_reads(assertion.expected.as_slice());
    if !reads_equal(&expected, &asserted) {
        return Err(StoreError::RequiredReadManifestMismatch);
    }
    if let Some(fault) = assertion.observed_contract {
        return Err(StoreError::Contract(fault));
    }
    let manifest_row: i64 = match &facts.assignment {
        Some(row) => row.required_read_manifest_artifact_id,
        None => return Err(StoreError::UnknownSession { session_id }),
    };
    if !bytes_equal(facts.assertion_content.as_slice(), assertion.canonical_bytes.as_slice())
        || manifest_row != packet.required_read_manifest_artifact_id.value {
        return Err(StoreError::RequiredReadManifestMismatch);
    }
    if packet.required_reads.len() as u64 > u32::MAX as u64 {
        return Err(StoreError::InvalidProcessCommand { field: "required read count" });
    }
    Ok(
        VerifiedTerminalEvidence {
            transcript_artifact_id,
            execution_summary_artifact_id,
            stdout_artifact_id,
            stderr_artifact_id,
            partial_transcript_artifact_id,
            required_read_assertion_artifact_id,
            required_read_expected_count: packet.required_reads.len() as u32,
            required_read_satisfied_count: assertion.satisfied_count,
            usage,
        },
    )
}

/// A known session cost within the budget leaves a campaign of known cost as it
/// was: the cost is added and nothing else changes. Going over the budget, or
/// stopping at the cost limit, exceeds and fails it, and nothing else does.
pub proof fn law_campaign_exceeds_only_for_cause(
    amount: MicroUsd,
    stop_reason: StopReason,
    budget: u64,
    measured: u64,
    campaign_cost_state: i16,
    campaign_lifecycle: i16,
)
    ensures
        ({
            let moved = spec_cost_transition(
                TerminalCost::Known(amount),
                stop_reason,
                budget,
                measured,
                campaign_cost_state,
                campaign_lifecycle,
            );
            let sum = measured + amount.value;
            let limited = stop_reason == StopReason::CostLimit;
            &&& !limited && campaign_cost_state == COST_KNOWN && sum <= budget ==> moved == Ok::<
                CostTransition,
                StoreError,
            >(
                CostTransition {
                    cost_state: 0,
                    cost_value: Some(amount.value),
                    measured: sum as u64,
                    campaign_lifecycle,
                },
            )
            &&& sum <= u64::MAX && (limited || (campaign_cost_state == COST_KNOWN && sum > budget))
                ==> moved == Ok::<CostTransition, StoreError>(
                CostTransition {
                    cost_state: 2,
                    cost_value: Some(amount.value),
                    measured: sum as u64,
                    campaign_lifecycle: 2,
                },
            )
            &&& !limited && campaign_cost_state != COST_KNOWN ==> moved == Ok::<
                CostTransition,
                StoreError,
            >(
                CostTransition {
                    cost_state: campaign_cost_state,
                    cost_value: Some(amount.value),
                    measured,
                    campaign_lifecycle,
                },
            )
            &&& moved is Err <==> sum > u64::MAX && (limited || campaign_cost_state == COST_KNOWN)
            &&& moved is Err ==> moved->Err_0 == StoreError::CorruptCostColumn
        }),
{
}

/// A session without a known cost adds nothing and has no value. Its campaign's
/// cost is unknown from then on, and it fails unless the session was cancelled.
/// A session already over its own limit fails its campaign as exceeded.
pub proof fn law_unmeasured_cost_is_never_added(
    stop_reason: StopReason,
    budget: u64,
    measured: u64,
    campaign_cost_state: i16,
    campaign_lifecycle: i16,
    over: MicroUsd,
)
    ensures
        spec_cost_transition(
            TerminalCost::Unknown,
            stop_reason,
            budget,
            measured,
            campaign_cost_state,
            campaign_lifecycle,
        ) == Ok::<CostTransition, StoreError>(
            CostTransition {
                cost_state: 1,
                cost_value: None,
                measured,
                campaign_lifecycle: if stop_reason == StopReason::Cancelled {
                    campaign_lifecycle
                } else {
                    2
                },
            },
        ),
        spec_cost_transition(
            TerminalCost::Exceeded(over),
            stop_reason,
            budget,
            measured,
            campaign_cost_state,
            campaign_lifecycle,
        ) matches Ok(moved) && moved.cost_state == 2 && moved.cost_value == Some(over.value)
            && moved.campaign_lifecycle == 2 && (measured + over.value <= u64::MAX
            ==> moved.measured == measured + over.value) && (measured + over.value > u64::MAX
            ==> moved.measured == u64::MAX),
{
}

/// An accepted report within the budget of a campaign with known cost leaves
/// that campaign exactly as it was, with the session's cost added; one that is
/// over the budget or stopped at the cost limit fails it as exceeded, with the
/// reason and the whole sum on record.
pub proof fn law_reported_cost_settles_the_campaign(
    session_id: SessionId,
    report: TerminalReport,
    evidence: VerifiedTerminalEvidence,
    row: TerminalSessionRow,
    plan: TerminalPlan,
)
    requires
        terminal_fault(session_id, report, evidence, Some(row)) is None,
        planned_terminal(report, evidence, row, plan),
        evidence.usage is Some,
        evidence.usage->0.reported_cost_micro_usd is Some,
    ensures
        ({
            let amount = evidence.usage->0.reported_cost_micro_usd->0;
            let sum = row.measured_cost_micro_usd + amount.value;
            let limited = report.stop_reason == StopReason::CostLimit;
            &&& !limited && row.campaign_cost_state == COST_KNOWN && sum
                <= row.aggregate_budget_micro_usd ==> {
                &&& plan.campaign_cost_state == COST_KNOWN
                &&& plan.cost_state == COST_KNOWN
                &&& plan.campaign_lifecycle == row.campaign_lifecycle
                &&& plan.campaign_failure_reason is None
                &&& plan.campaign_measured == sum
                &&& plan.cost_column == Some(amount.value as i64)
                &&& plan.receipt_cost == TerminalCost::Known(amount)
            }
            &&& limited || (row.campaign_cost_state == COST_KNOWN && sum
                > row.aggregate_budget_micro_usd) ==> {
                &&& plan.campaign_cost_state >= COST_EXCEEDED
                &&& plan.cost_state == COST_EXCEEDED
                &&& plan.campaign_lifecycle == FAILED
                &&& plan.campaign_failure_reason == Some(EXCEEDED_TERMINAL_COST_FAILURE_REASON)
                &&& plan.campaign_measured == sum
                &&& plan.receipt_cost == TerminalCost::Exceeded(amount)
            }
            &&& !limited && row.campaign_cost_state != COST_KNOWN ==> {
                &&& plan.campaign_cost_state == row.campaign_cost_state
                &&& plan.campaign_lifecycle == row.campaign_lifecycle
                &&& plan.campaign_measured == row.measured_cost_micro_usd
            }
        }),
{
}

/// A report is accepted exactly when its session runs at the expected revision
/// with the reported packet, its operation and evidence go with its stop
/// reason, and every number it writes fits its column.
pub proof fn law_report_is_accepted_exactly_when_it_holds(
    session_id: SessionId,
    report: TerminalReport,
    evidence: VerifiedTerminalEvidence,
    row: TerminalSessionRow,
)
    ensures
        terminal_fault(session_id, report, evidence, Some(row)) is None <==> {
            let completed = report.stop_reason == StopReason::Completed;
            let amount = if evidence.usage is Some {
                evidence.usage->0.reported_cost_micro_usd
            } else {
                None
            };
            let adds = amount is Some && (report.stop_reason == StopReason::CostLimit
                || row.campaign_cost_state == COST_KNOWN);
            &&& 0 <= row.revision < i64::MAX
            &&& row.revision == report.expected_session_revision.revision.value
            &&& row.lifecycle == SESSION_RUNNING
            &&& row.packet_digest@ == report.packet_digest.bytes@
            &&& !completed ==> report.operation is None
            &&& completed ==> {
                &&& match report.operation {
                    Some(TerminalOperation::WorkComplete) => 1i64 & row.terminal_operations_mask
                        != 0,
                    Some(TerminalOperation::CandidateSubmit) => 2i64 & row.terminal_operations_mask
                        != 0,
                    Some(TerminalOperation::QualitySubmitReview) => 4i64
                        & row.terminal_operations_mask != 0,
                    None => false,
                }
                &&& evidence.required_read_satisfied_count == evidence.required_read_expected_count
                &&& evidence.usage is Some
                &&& evidence.execution_summary_artifact_id is Some
            }
            &&& evidence.required_read_assertion_artifact_id.value
                != row.required_read_manifest_artifact_id
            &&& row.aggregate_budget_micro_usd >= 0
            &&& row.measured_cost_micro_usd >= 0
            &&& adds ==> row.measured_cost_micro_usd + amount->0.value <= i64::MAX
            &&& evidence.usage matches Some(usage) ==> {
                &&& usage.input_tokens matches Some(count) ==> count <= i64::MAX
                &&& usage.output_tokens matches Some(count) ==> count <= i64::MAX
                &&& usage.cache_read_tokens matches Some(count) ==> count <= i64::MAX
                &&& usage.cache_write_tokens matches Some(count) ==> count <= i64::MAX
                &&& usage.reasoning_tokens matches Some(count) ==> count <= i64::MAX
                &&& usage.reported_cost_micro_usd matches Some(amount) ==> amount.value <= i64::MAX
            }
            &&& evidence.required_read_expected_count <= i32::MAX
            &&& evidence.required_read_satisfied_count <= i32::MAX
            &&& 0 <= row.campaign_revision < i64::MAX
        },
{
}

/// Every refusal of a report has its cause.
pub proof fn law_refused_report_has_its_cause(
    session_id: SessionId,
    report: TerminalReport,
    evidence: VerifiedTerminalEvidence,
    row: Option<TerminalSessionRow>,
)
    ensures
        ({
            let fault = terminal_fault(session_id, report, evidence, row);
            &&& fault == Some(StoreError::UnknownSession { session_id }) <==> row is None
            &&& row is Some && row->0.revision >= 0 ==> (fault == Some(
                StoreError::RevisionConflict {
                    expected: report.expected_session_revision,
                    current: AggregateRevision { value: row->0.revision as u64 },
                },
            ) <==> row->0.revision != report.expected_session_revision.revision.value)
            &&& fault == Some(StoreError::SessionAlreadyTerminal { session_id }) ==> row->0.lifecycle
                != SESSION_RUNNING
            &&& fault == Some(StoreError::PacketIdentityMismatch) ==> row->0.packet_digest@
                != report.packet_digest.bytes@
            &&& fault == Some(StoreError::TerminalOperationNotAllowed) ==> report.stop_reason
                == StopReason::Completed || report.operation is Some
            &&& fault == Some(StoreError::RequiredReadIncomplete) ==> report.stop_reason
                == StopReason::Completed && evidence.required_read_satisfied_count
                != evidence.required_read_expected_count
            &&& fault == Some(StoreError::TerminalCostMismatch) ==> (report.stop_reason
                == StopReason::Completed && evidence.usage is None) || (report.stop_reason
                == StopReason::UnknownCost && report.operation is Some)
            &&& fault == Some(StoreError::RequiredReadManifestMismatch)
                ==> evidence.required_read_assertion_artifact_id.value
                == row->0.required_read_manifest_artifact_id
            &&& fault == Some(
                StoreError::InvalidProcessCommand { field: "execution summary evidence" },
            ) ==> report.stop_reason == StopReason::Completed
                && evidence.execution_summary_artifact_id is None
        }),
{
    reveal_strlit("execution summary evidence");
    reveal_strlit("usage total");
    reveal_strlit("required read count");
}

/// A finished session is recorded in the state its stop reason names, and its
/// assignment in the same one; only a completion is a success, and only other
/// stops have a failure code.
pub proof fn law_session_ends_as_it_stopped(
    session_id: SessionId,
    report: TerminalReport,
    evidence: VerifiedTerminalEvidence,
    row: TerminalSessionRow,
    plan: TerminalPlan,
)
    requires
        terminal_fault(session_id, report, evidence, Some(row)) is None,
        planned_terminal(report, evidence, row, plan),
    ensures
        plan.session_state == SessionState::Succeeded <==> report.stop_reason
            == StopReason::Completed,
        plan.session_state == SessionState::Cancelled <==> report.stop_reason
            == StopReason::Cancelled,
        plan.session_state == SessionState::Interrupted <==> report.stop_reason
            == StopReason::Deadline || report.stop_reason == StopReason::DaemonDisconnected,
        plan.session_state == SessionState::Failed <==> !(plan.session_state
            == SessionState::Succeeded || plan.session_state == SessionState::Cancelled
            || plan.session_state == SessionState::Interrupted),
        plan.assignment_state_code == plan.session_state_code,
        plan.session_state == SessionState::Succeeded ==> plan.session_state_code == 2,
        plan.session_state == SessionState::Failed ==> plan.session_state_code == 3,
        plan.session_state == SessionState::Cancelled ==> plan.session_state_code == 4,
        plan.session_state == SessionState::Interrupted ==> plan.session_state_code == 5,
        plan.failure_code == (if report.stop_reason == StopReason::Completed {
            None
        } else {
            Some(plan.stop_reason_code)
        }),
        plan.operation_code is Some <==> report.operation is Some,
        plan.required_read_expected_count == evidence.required_read_expected_count,
        plan.required_read_satisfied_count == evidence.required_read_satisfied_count,
        plan.session.resulting_revision.value == row.revision + 1,
        plan.campaign.resulting_revision.value == row.campaign_revision + 1,
        plan.usage is Some <==> evidence.usage is Some,
{
}

/// Every usage total is stored in its own column, unchanged; an absent one
/// stays absent.
pub proof fn law_usage_is_stored_by_column(
    session_id: SessionId,
    report: TerminalReport,
    evidence: VerifiedTerminalEvidence,
    row: TerminalSessionRow,
    plan: TerminalPlan,
)
    requires
        terminal_fault(session_id, report, evidence, Some(row)) is None,
        planned_terminal(report, evidence, row, plan),
        evidence.usage is Some,
    ensures
        ({
            let usage = evidence.usage->0;
            let columns = plan.usage->0;
            &&& plan.usage is Some
            &&& match (usage.input_tokens, columns.input_tokens) {
                (Some(count), Some(column)) => count == column,
                (None, None) => true,
                _ => false,
            }
            &&& match (usage.output_tokens, columns.output_tokens) {
                (Some(count), Some(column)) => count == column,
                (None, None) => true,
                _ => false,
            }
            &&& match (usage.cache_read_tokens, columns.cache_read_tokens) {
                (Some(count), Some(column)) => count == column,
                (None, None) => true,
                _ => false,
            }
            &&& match (usage.cache_write_tokens, columns.cache_write_tokens) {
                (Some(count), Some(column)) => count == column,
                (None, None) => true,
                _ => false,
            }
            &&& match (usage.reasoning_tokens, columns.reasoning_tokens) {
                (Some(count), Some(column)) => count == column,
                (None, None) => true,
                _ => false,
            }
            &&& match (usage.reported_cost_micro_usd, columns.reported_cost_micro_usd) {
                (Some(amount), Some(column)) => amount.value == column,
                (None, None) => true,
                _ => false,
            }
        }),
{
}

/// Bytes are compared from the first: a prefix comes before what it begins, and
/// otherwise the first difference decides.
pub proof fn law_bytes_are_compared_from_the_first(
    prefix: Seq<u8>,
    left: u8,
    left_rest: Seq<u8>,
    right: u8,
    right_rest: Seq<u8>,
)
    ensures
        bytes_le(prefix, prefix + left_rest),
        left_rest.len() > 0 ==> !bytes_le(prefix + left_rest, prefix),
        left != right ==> (bytes_le(
            prefix + seq![left] + left_rest,
            prefix + seq![right] + right_rest,
        ) <==> left < right),
    decreases prefix.len(),
{
    let longer = prefix + left_rest;
    let one = prefix + seq![left] + left_rest;
    let other = prefix + seq![right] + right_rest;
    if prefix.len() > 0 {
        let rest = prefix.skip(1);
        law_bytes_are_compared_from_the_first(rest, left, left_rest, right, right_rest);
        assert(longer.skip(1) =~= rest + left_rest);
        assert(one.skip(1) =~= rest + seq![left] + left_rest);
        assert(other.skip(1) =~= rest + seq![right] + right_rest);
        assert(longer[0] == prefix[0] && one[0] == prefix[0] && other[0] == prefix[0]);
    } else {
        assert(one[0] == left && other[0] == right);
    }
}

/// Reads ordered by path stand in the order of their paths' bytes.
pub proof fn law_reads_stand_in_path_order(reads: Seq<ReadView>)
    ensures
        forall|i: int, j: int|
            0 <= i < j < sorted_by_path(reads).len() ==> bytes_le(
                encode_utf8((#[trigger] sorted_by_path(reads)[i]).path),
                encode_utf8((#[trigger] sorted_by_path(reads)[j]).path),
            ),
    decreases reads.len(),
{
    if reads.len() > 0 {
        law_reads_stand_in_path_order(reads.drop_last());
        lemma_insertion_keeps_order(sorted_by_path(reads.drop_last()), reads.last());
    }
}

spec fn in_path_order(reads: Seq<ReadView>) -> bool {
    forall|i: int, j: int|
        0 <= i < j < reads.len() ==> bytes_le(
            encode_utf8((#[trigger] reads[i]).path),
            encode_utf8((#[trigger] reads[j]).path),
        )
}

proof fn lemma_bytes_are_ordered(left: Seq<u8>, middle: Seq<u8>, right: Seq<u8>)
    ensures
        bytes_le(left, right) || bytes_le(right, left),
        bytes_le(left, middle) && bytes_le(middle, right) ==> bytes_le(left, right),
    decreases left.len() + middle.len() + right.len(),
{
    if left.len() > 0 && middle.len() > 0 && right.len() > 0 {
        lemma_bytes_are_ordered(left.skip(1), middle.skip(1), right.skip(1));
    } else if left.len() > 0 && right.len() > 0 {
        lemma_bytes_are_ordered(left.skip(1), middle, right.skip(1));
    }
}

proof fn lemma_insertion_keeps_order(sorted: Seq<ReadView>, read: ReadView)
    requires
        in_path_order(sorted),
    ensures
        in_path_order(inserted_by_path(sorted, read)),
        forall|bound: Seq<u8>|
            (forall|i: int|
                0 <= i < sorted.len() ==> bytes_le(
                    encode_utf8((#[trigger] sorted[i]).path),
                    bound,
                )) && bytes_le(encode_utf8(read.path), bound) ==> (forall|i: int|
                0 <= i < inserted_by_path(sorted, read).len() ==> #[trigger] bytes_le(
                    encode_utf8(inserted_by_path(sorted, read)[i].path),
                    bound,
                )),
    decreases sorted.len(),
{
    let inserted = inserted_by_path(sorted, read);
    let key = encode_utf8(read.path);
    if sorted.len() == 0 {
    } else if bytes_le(encode_utf8(sorted.last().path), key) {
        assert forall|i: int, j: int| 0 <= i < j < inserted.len() implies bytes_le(
            encode_utf8((#[trigger] inserted[i]).path),
            encode_utf8((#[trigger] inserted[j]).path),
        ) by {
            if j < sorted.len() {
                assert(inserted[i] == sorted[i] && inserted[j] == sorted[j]);
            } else {
                assert(inserted[i] == sorted[i]);
                if i < sorted.len() - 1 {
                    assert(bytes_le(
                        encode_utf8(sorted[i].path),
                        encode_utf8(sorted[sorted.len() - 1].path),
                    ));
                    lemma_bytes_are_ordered(
                        encode_utf8(sorted[i].path),
                        encode_utf8(sorted.last().path),
                        key,
                    );
                }
            }
        }
        assert forall|bound: Seq<u8>|
            (forall|i: int|
                0 <= i < sorted.len() ==> bytes_le(
                    encode_utf8((#[trigger] sorted[i]).path),
                    bound,
                )) && bytes_le(key, bound) implies (forall|i: int|
            0 <= i < inserted.len() ==> #[trigger] bytes_le(
                encode_utf8(inserted[i].path),
                bound,
            )) by {
            assert forall|i: int| 0 <= i < inserted.len() implies #[trigger] bytes_le(
                encode_utf8(inserted[i].path),
                bound,
            ) by {
                if i < sorted.len() {
                    assert(inserted[i] == sorted[i]);
                }
            }
        }
    } else {
        let front = sorted.drop_last();
        let last = sorted.last();
        let bound = encode_utf8(last.path);
        assert(in_path_order(front)) by {
            assert forall|i: int, j: int| 0 <= i < j < front.len() implies bytes_le(
                encode_utf8((#[trigger] front[i]).path),
                encode_utf8((#[trigger] front[j]).path),
            ) by {
                assert(front[i] == sorted[i] && front[j] == sorted[j]);
            }
        }
        lemma_insertion_keeps_order(front, read);
        lemma_bytes_are_ordered(bound, key, key);
        lemma_bytes_are_ordered(key, bound, bound);
        assert(bytes_le(key, bound));
        let below = inserted_by_path(front, read);
        assert forall|i: int| 0 <= i < front.len() implies bytes_le(
            encode_utf8((#[trigger] front[i]).path),
            bound,
        ) by {
            assert(front[i] == sorted[i]);
            assert(sorted[sorted.len() - 1] == last);
        }
        assert forall|i: int| 0 <= i < below.len() implies #[trigger] bytes_le(
            encode_utf8(below[i].path),
            bound,
        ) by {}
        assert forall|i: int, j: int| 0 <= i < j < inserted.len() implies bytes_le(
            encode_utf8((#[trigger] inserted[i]).path),
            encode_utf8((#[trigger] inserted[j]).path),
        ) by {
            assert(inserted[i] == below[i]);
            if j < below.len() {
                assert(inserted[j] == below[j]);
            } else {
                assert(inserted[j] == last);
                assert(bytes_le(encode_utf8(below[i].path), bound));
            }
        }
        assert forall|limit: Seq<u8>|
            (forall|i: int|
                0 <= i < sorted.len() ==> bytes_le(
                    encode_utf8((#[trigger] sorted[i]).path),
                    limit,
                )) && bytes_le(key, limit) implies (forall|i: int|
            0 <= i < inserted.len() ==> #[trigger] bytes_le(
                encode_utf8(inserted[i].path),
                limit,
            )) by {
            assert forall|i: int| 0 <= i < front.len() implies bytes_le(
                encode_utf8((#[trigger] front[i]).path),
                limit,
            ) by {
                assert(front[i] == sorted[i]);
            }
            assert forall|i: int| 0 <= i < inserted.len() implies #[trigger] bytes_le(
                encode_utf8(inserted[i].path),
                limit,
            ) by {
                if i < below.len() {
                    assert(inserted[i] == below[i]);
                    assert(bytes_le(encode_utf8(below[i].path), limit));
                } else {
                    assert(inserted[i] == sorted[sorted.len() - 1]);
                }
            }
        }
    }
}

/// Evidence is verified exactly when the packet keeps its contract under its
/// digest, the durable assignment is its own in every identity, the manifest
/// holds the packet's required reads, every sealed artifact is registered and
/// the summary is not the transcript, and the assertion is this session's, over
/// the same reads, in the bytes it says.
pub proof fn law_evidence_is_verified_exactly_when_whole(
    session_id: SessionId,
    packet: AssignmentPacket,
    packet_artifact: CasArtifact,
    artifacts: TerminalArtifactSeals,
    assertion: RequiredReadAssertion,
    facts: TerminalEvidenceFacts,
)
    ensures
        evidence_fault(session_id, packet, packet_artifact, artifacts, assertion, facts) is None
            <==> {
            let row = facts.assignment->0;
            &&& facts.packet_contract is None
            &&& facts.packet_bytes_verified
            &&& assertion.session_id == session_id
            &&& facts.assignment is Some
            &&& row.id == packet.assignment_id.value
            &&& row.campaign_id == packet.campaign_id.value
            &&& row.application_revision_id == packet.application_revision_id.value
            &&& row.packet_digest@ == packet.packet_digest.bytes@
            &&& is_registered_seal(packet_artifact, facts.packet_artifact_row)
            &&& row.packet_artifact_id == facts.packet_artifact_row->0
            &&& row.kernel_build_id == facts.packet_build_row
            &&& facts.manifest_digest@.len() == 32
            &&& facts.manifest_content@ == manifest_bytes(packet.required_reads@)
            &&& assertion.assignment_id.value == row.id
            &&& assertion.expected_manifest_artifact_id.value
                == row.required_read_manifest_artifact_id
            &&& row.required_read_manifest_artifact_id
                == packet.required_read_manifest_artifact_id.value
            &&& is_registered_seal(artifacts.transcript, facts.transcript_row)
            &&& artifacts.execution_summary matches Some(seal) ==> is_registered_seal(
                seal,
                facts.execution_summary_row,
            ) && facts.execution_summary_row->0 != facts.transcript_row->0
            &&& is_registered_seal(artifacts.stdout, facts.stdout_row)
            &&& is_registered_seal(artifacts.stderr, facts.stderr_row)
            &&& artifacts.partial_transcript matches Some(seal) ==> is_registered_seal(
                seal,
                facts.partial_transcript_row,
            )
            &&& is_registered_seal(assertion.artifact, facts.assertion_row)
            &&& sorted_by_path(read_views(packet.required_reads@)) == sorted_by_path(
                read_views(assertion.expected@),
            )
            &&& assertion.observed_contract is None
            &&& facts.assertion_content@ == assertion.canonical_bytes@
            &&& packet.required_reads@.len() <= u32::MAX
        },
{
}

/// Whether a seal fits its column and was found registered under an identity.
pub open spec fn is_registered_seal(seal: CasArtifact, row: Option<i64>) -> bool {
    seal.byte_length <= i64::MAX && row is Some && row->0 > 0
}

/// A terminal report is looked up exactly when its key is well formed;
/// it is then fresh without a receipt, and answered by a receipt exactly when
/// that is its own.
pub proof fn law_terminal_report_is_looked_up(
    principal: String,
    command_id: String,
    session_id: SessionId,
    report: TerminalReport,
    evidence: VerifiedTerminalEvidence,
    audit: Option<AuditRow>,
)
    ensures
        ({
            let fresh = spec_admit_terminal(principal, command_id, session_id, report, evidence, None);
            let answer = spec_admit_terminal(principal, command_id, session_id, report, evidence, audit);
            let well_formed = {
                &&& crate::text::is_command_component(principal@)
                &&& crate::text::is_command_component(command_id@)
            };
            let recorded = audit is Some && crate::audit::is_receipt_of(
                audit->0,
                "session.terminal"@,
                blake3_of(terminal_preimage(session_id, report, evidence)),
                6,
            );
            &&& fresh == Ok::<Option<Audit>, StoreError>(None) <==> well_formed
            &&& answer is Ok <==> well_formed && (audit is None || recorded)
            &&& answer matches Ok(Some(receipt)) ==> crate::audit::repeats(receipt, audit->0)
            &&& audit is Some ==> answer != Ok::<Option<Audit>, StoreError>(None)
        }),
{
}

/// A repeated terminal report is answered from its receipt and its session's
/// row, exactly when state, cost and revision are in range.
pub proof fn law_repeated_report_is_answered_from_its_row(
    session_id: SessionId,
    audit: Audit,
    row: FinishedSessionRow,
    campaign_revision: i64,
)
    ensures
        ({
            let replayed = spec_replayed_terminal(session_id, audit, row, campaign_revision);
            &&& replayed is Ok <==> {
                &&& row.campaign_id > 0
                &&& campaign_revision >= 0
                &&& 0 <= row.lifecycle <= 5
                &&& match (row.cost_state, row.cost_micro_usd) {
                    (Some(state), Some(amount)) => (state == 0 || state == 2) && amount >= 0,
                    (Some(state), None) => state == 1,
                    _ => false,
                }
            }
            &&& replayed matches Ok(receipt) ==> {
                &&& receipt.session_id == session_id
                &&& receipt.session_state is Succeeded <==> row.lifecycle == 2
                &&& receipt.session_state is Failed <==> row.lifecycle == 3
                &&& receipt.session_state is Cancelled <==> row.lifecycle == 4
                &&& receipt.session_state is Interrupted <==> row.lifecycle == 5
                &&& receipt.cost is Unknown <==> row.cost_state == Some(1i16)
                &&& receipt.cost matches TerminalCost::Known(amount) ==> row.cost_state
                    == Some(0i16) && amount.value == row.cost_micro_usd->0
                &&& receipt.cost matches TerminalCost::Exceeded(amount) ==> row.cost_state
                    == Some(2i16) && amount.value == row.cost_micro_usd->0
                &&& receipt.resulting_revision == audit.resulting_revision
                &&& receipt.campaign_revision.value == campaign_revision
                &&& receipt.audit_log_id == audit.audit_log_id
                &&& receipt.was_idempotent_retry
            }
        }),
{
}

/// A terminal report's bytes are its operation's name, its session, what it
/// reports and what proves it, one behind the other; what was not reported is
/// told apart from every report.
pub proof fn law_terminal_report_is_written_in_order(
    session_id: SessionId,
    report: TerminalReport,
    evidence: VerifiedTerminalEvidence,
    usage: UsageTotals,
    count: u64,
    artifact_id: ArtifactId,
)
    ensures
        terminal_preimage(session_id, report, evidence) == framed("session.terminal"@) + (be_i64(
            session_id.value,
        ) + (report.packet_digest.bytes@ + (be64(report.expected_session_revision.revision.value)
            + (be_i64(evidence.transcript_artifact_id.value) + (optional_artifact_bytes(
            evidence.execution_summary_artifact_id,
        ) + (be_i64(evidence.required_read_assertion_artifact_id.value) + (be32(
            evidence.required_read_expected_count,
        ) + (be32(evidence.required_read_satisfied_count) + (be32(
            spec_stop_reason_code(report.stop_reason) as u32,
        ) + (be32(operation_word(report.operation)) + (usage_bytes(evidence.usage)
            + report.report_digest.bytes@))))))))))),
        optional_artifact_bytes(Some(artifact_id)) == be32(1) + be_i64(artifact_id.value),
        optional_artifact_bytes(None) == be32(0),
        optional_count_bytes(Some(count)) == be32(1) + be64(count),
        optional_count_bytes(None) == be32(0),
        operation_word(Some(TerminalOperation::WorkComplete)) == 0,
        operation_word(Some(TerminalOperation::CandidateSubmit)) == 1,
        operation_word(Some(TerminalOperation::QualitySubmitReview)) == 2,
        operation_word(None) == 4_294_967_295,
        usage_bytes(None) == be64(18_446_744_073_709_551_615),
        usage_bytes(Some(usage)) == optional_count_bytes(usage.input_tokens) + (
        optional_count_bytes(usage.output_tokens) + (optional_count_bytes(usage.cache_read_tokens)
            + (optional_count_bytes(usage.cache_write_tokens) + (optional_count_bytes(
            usage.reasoning_tokens,
        ) + optional_count_bytes(
            match usage.reported_cost_micro_usd {
                Some(amount) => Some(amount.value),
                None => None,
            },
        ))))),
{
    reveal(optional_count_bytes);
}

} // verus!
