//! The exact bytes behind every command fingerprint.

use factory_kernel::campaign::{
    fingerprint_campaign, fingerprint_fail_campaign, FailCampaign, StartCampaign,
};
use factory_kernel::digest::ContentDigest;
use factory_kernel::identity::{
    AggregateRevision, ApplicationRevisionId, ArtifactId, AssignmentId, CampaignId, CandidateId,
    CasArtifact, ExpectedRevision, KernelBuildId, SessionId, TicketAttemptId, TicketRevisionId,
};
use factory_kernel::protocol::{
    MicroUsd, ProcessCustody, StopReason, TerminalOperation, TerminalReport, UsageTotals,
};
use factory_kernel::session::{fingerprint_session_start, StartSession};
use factory_kernel::storage::{InstallKernelBuild, RegisterArtifact, RegisterRepository};
use factory_kernel::terminal::{fingerprint_terminal, VerifiedTerminalEvidence};
use factory_kernel::ticket::CurrentHeadRequalification;
use factory_kernel::ticket_commands::{
    claim_fingerprint, completion_fingerprint, engineering_retry_fingerprint,
    failure_fingerprint, proposal_fingerprint, quality_retry_fingerprint, release_fingerprint,
    sponsor_fingerprint, ClaimSponsoredTicket, CompleteCampaignAtDeliveryTarget,
    FailTicketAttempt, ReleaseTicketAttempt, RetryEngineeringAttempt, RetryQualityAttempt,
    SponsorTicketRevision, SubmitTicketProposal,
};

fn text(value: &str) -> Vec<u8> {
    let mut bytes = (value.len() as u64).to_be_bytes().to_vec();
    bytes.extend(value.as_bytes());
    bytes
}

fn id(value: i64) -> Vec<u8> {
    value.to_be_bytes().to_vec()
}

fn count(value: u64) -> Vec<u8> {
    value.to_be_bytes().to_vec()
}

fn word(value: u32) -> Vec<u8> {
    value.to_be_bytes().to_vec()
}

fn digest(value: &str) -> ContentDigest {
    ContentDigest::of_bytes(value.as_bytes())
}

fn of(parts: &[Vec<u8>]) -> ContentDigest {
    ContentDigest::of_bytes(&parts.concat())
}

fn expected(value: u64) -> ExpectedRevision {
    ExpectedRevision::new(AggregateRevision::from_persisted(value))
}

fn artifact(value: i64) -> ArtifactId {
    ArtifactId::new(value).unwrap()
}

fn keyed(operation: &str) -> Vec<u8> {
    [operation.as_bytes().to_vec(), text("p"), text("c")].concat()
}

#[test]
fn storage_fingerprints_begin_with_the_bare_operation() {
    let install = InstallKernelBuild {
        principal: "p".to_owned(),
        command_id: "c".to_owned(),
        expected_revision: expected(4),
        build_id: KernelBuildId::new(digest("build")),
        source_digest: digest("source"),
        binary_digest: digest("binary"),
        schema_identity: "schema".to_owned(),
        deno_executable_path: "/deno".to_owned(),
        deno_version: "2".to_owned(),
        deno_lock_digest: digest("lock"),
        qualification_receipt: CasArtifact {
            digest: digest("receipt"),
            byte_length: 7,
        },
    };
    assert_eq!(
        install.fingerprint(),
        of(&[
            keyed("kernel_build.install"),
            count(4),
            digest("build").as_bytes().to_vec(),
            digest("source").as_bytes().to_vec(),
            digest("binary").as_bytes().to_vec(),
            text("schema"),
            text("/deno"),
            text("2"),
            digest("lock").as_bytes().to_vec(),
            digest("receipt").as_bytes().to_vec(),
            count(7),
        ])
    );
    let repository = RegisterRepository {
        principal: "p".to_owned(),
        command_id: "c".to_owned(),
        expected_revision: expected(0),
        repository_key: "key".to_owned(),
        canonical_local_path: "/repo".to_owned(),
        default_branch: "main".to_owned(),
    };
    assert_eq!(
        repository.fingerprint(),
        of(&[
            keyed("repository.register"),
            count(0),
            text("key"),
            text("/repo"),
            text("main"),
        ])
    );
    let registration = RegisterArtifact {
        principal: "p".to_owned(),
        command_id: "c".to_owned(),
        expected_kernel_build_revision: expected(2),
        kernel_build_id: KernelBuildId::new(digest("build")),
        sealed: CasArtifact {
            digest: digest("sealed"),
            byte_length: 9,
        },
    };
    assert_eq!(
        registration.fingerprint(),
        of(&[
            keyed("artifact.register"),
            count(2),
            digest("build").as_bytes().to_vec(),
            digest("sealed").as_bytes().to_vec(),
            count(9),
        ])
    );
}

#[test]
fn process_fingerprints_frame_the_operation() {
    let start = StartCampaign {
        principal: "p".to_owned(),
        command_id: "c".to_owned(),
        expected_application_revision: expected(1),
        application_revision_id: ApplicationRevisionId::new(2).unwrap(),
        aggregate_budget: MicroUsd::new(3),
        deadline_unix_millis: 4,
        delivery_target: 5,
    };
    assert_eq!(
        fingerprint_campaign(&start),
        of(&[
            text("campaign.start"),
            text("p"),
            text("c"),
            count(1),
            id(2),
            count(3),
            count(4),
            word(5),
        ])
    );
    let fail = FailCampaign {
        principal: "p".to_owned(),
        command_id: "c".to_owned(),
        expected_revision: expected(1),
        campaign_id: CampaignId::new(2).unwrap(),
        reason: "why".to_owned(),
    };
    assert_eq!(
        fingerprint_fail_campaign(&fail),
        of(&[
            text("campaign.fail"),
            text("p"),
            text("c"),
            count(1),
            id(2),
            text("why"),
        ])
    );
    let session = StartSession {
        principal: "p".to_owned(),
        command_id: "c".to_owned(),
        expected_assignment_revision: expected(1),
        assignment_id: AssignmentId::new(2).unwrap(),
        packet_digest: digest("packet"),
        custody: ProcessCustody {
            pid: 3,
            pgid: 4,
            started_at_unix_millis: 5,
        },
    };
    assert_eq!(
        fingerprint_session_start(&session),
        of(&[
            text("session.start"),
            text("p"),
            text("c"),
            count(1),
            id(2),
            digest("packet").as_bytes().to_vec(),
            word(3),
            word(4),
            count(5),
        ])
    );
}

#[test]
fn terminal_fingerprints_mark_what_is_missing() {
    let report = TerminalReport {
        packet_digest: digest("packet"),
        expected_session_revision: expected(1),
        operation: Some(TerminalOperation::CandidateSubmit),
        stop_reason: StopReason::Completed,
        report_digest: digest("report"),
    };
    let evidence = VerifiedTerminalEvidence {
        transcript_artifact_id: artifact(10),
        execution_summary_artifact_id: Some(artifact(11)),
        stdout_artifact_id: artifact(12),
        stderr_artifact_id: artifact(13),
        partial_transcript_artifact_id: None,
        required_read_assertion_artifact_id: artifact(14),
        required_read_expected_count: 2,
        required_read_satisfied_count: 1,
        usage: Some(UsageTotals {
            input_tokens: Some(100),
            output_tokens: None,
            cache_read_tokens: None,
            cache_write_tokens: None,
            reasoning_tokens: None,
            reported_cost_micro_usd: Some(MicroUsd::new(7)),
        }),
    };
    let session_id = SessionId::new(6).unwrap();
    assert_eq!(
        fingerprint_terminal(session_id, &report, &evidence),
        of(&[
            text("session.terminal"),
            id(6),
            digest("packet").as_bytes().to_vec(),
            count(1),
            id(10),
            word(1),
            id(11),
            id(14),
            word(2),
            word(1),
            word(0),
            word(1),
            word(1),
            count(100),
            word(0),
            word(0),
            word(0),
            word(0),
            word(1),
            count(7),
            digest("report").as_bytes().to_vec(),
        ])
    );
    let silent = TerminalReport {
        operation: None,
        ..report
    };
    let unpriced = VerifiedTerminalEvidence {
        execution_summary_artifact_id: None,
        usage: None,
        ..evidence
    };
    assert_eq!(
        fingerprint_terminal(session_id, &silent, &unpriced),
        of(&[
            text("session.terminal"),
            id(6),
            digest("packet").as_bytes().to_vec(),
            count(1),
            id(10),
            word(0),
            id(14),
            word(2),
            word(1),
            word(0),
            word(u32::MAX),
            count(u64::MAX),
            digest("report").as_bytes().to_vec(),
        ])
    );
}

fn requalification() -> CurrentHeadRequalification {
    CurrentHeadRequalification {
        current_head_commit: "head".to_owned(),
        current_head_tree: "tree".to_owned(),
        first_actual_observation_artifact_id: artifact(30),
        second_actual_observation_artifact_id: artifact(31),
    }
}

fn requalified() -> Vec<u8> {
    [text("head"), text("tree"), id(30), id(31)].concat()
}

#[test]
fn ticket_fingerprints_begin_with_the_bare_operation() {
    let proposal = SubmitTicketProposal {
        principal: "p".to_owned(),
        command_id: "c".to_owned(),
        expected_application_revision: expected(1),
        application_revision_id: ApplicationRevisionId::new(2).unwrap(),
        proposal_artifact_id: artifact(10),
        reproducer_artifact_id: artifact(11),
        expected_observation_artifact_id: artifact(12),
        first_actual_observation_artifact_id: artifact(13),
        second_actual_observation_artifact_id: artifact(14),
        discovery_commit: "dc".to_owned(),
        discovery_tree: "dt".to_owned(),
    };
    assert_eq!(
        proposal_fingerprint(&proposal),
        of(&[
            keyed("ticket.propose"),
            count(1),
            id(2),
            id(10),
            id(11),
            id(12),
            id(13),
            id(14),
            text("dc"),
            text("dt"),
        ])
    );
    let sponsorship = SponsorTicketRevision {
        principal: "p".to_owned(),
        command_id: "c".to_owned(),
        ticket_revision_id: TicketRevisionId::new(3).unwrap(),
        expected_ticket_revision: expected(4),
        reason: "why".to_owned(),
    };
    assert_eq!(
        sponsor_fingerprint(&sponsorship),
        of(&[keyed("ticket.sponsor"), id(3), count(4), text("why")])
    );
    let claim = ClaimSponsoredTicket {
        principal: "p".to_owned(),
        command_id: "c".to_owned(),
        campaign_id: CampaignId::new(1).unwrap(),
        expected_campaign_revision: expected(2),
        ticket_revision_id: TicketRevisionId::new(3).unwrap(),
        expected_ticket_revision: expected(4),
        requalification: requalification(),
    };
    assert_eq!(
        claim_fingerprint(&claim),
        of(&[
            keyed("ticket.claim"),
            id(1),
            count(2),
            id(3),
            count(4),
            requalified(),
        ])
    );
    let complete = CompleteCampaignAtDeliveryTarget {
        principal: "p".to_owned(),
        command_id: "c".to_owned(),
        campaign_id: CampaignId::new(1).unwrap(),
        expected_campaign_revision: expected(2),
    };
    assert_eq!(
        completion_fingerprint(&complete),
        of(&[keyed("campaign.complete_delivery_target"), id(1), count(2)])
    );
}

#[test]
fn attempt_fingerprints_hold_both_revisions() {
    let ticket_attempt_id = TicketAttemptId::new(5).unwrap();
    let fail = FailTicketAttempt {
        principal: "p".to_owned(),
        command_id: "c".to_owned(),
        ticket_attempt_id,
        expected_attempt_revision: expected(6),
        expected_ticket_revision: expected(7),
        reason: "why".to_owned(),
    };
    assert_eq!(
        failure_fingerprint(&fail),
        of(&[
            keyed("ticket_attempt.fail"),
            id(5),
            count(6),
            count(7),
            text("why"),
        ])
    );
    let quality = RetryQualityAttempt {
        principal: "p".to_owned(),
        command_id: "c".to_owned(),
        ticket_attempt_id,
        candidate_id: CandidateId::new(8).unwrap(),
        expected_attempt_revision: expected(6),
        expected_ticket_revision: expected(7),
        reason: "why".to_owned(),
    };
    assert_eq!(
        quality_retry_fingerprint(&quality),
        of(&[
            keyed("ticket_attempt.retry_quality"),
            id(5),
            id(8),
            count(6),
            count(7),
            text("why"),
        ])
    );
    let engineering = RetryEngineeringAttempt {
        principal: "p".to_owned(),
        command_id: "c".to_owned(),
        ticket_attempt_id,
        expected_attempt_revision: expected(6),
        expected_ticket_revision: expected(7),
        reason: "why".to_owned(),
    };
    assert_eq!(
        engineering_retry_fingerprint(&engineering),
        of(&[
            keyed("ticket_attempt.retry_engineering"),
            id(5),
            count(6),
            count(7),
            text("why"),
        ])
    );
    let release = ReleaseTicketAttempt {
        principal: "p".to_owned(),
        command_id: "c".to_owned(),
        ticket_attempt_id,
        expected_attempt_revision: expected(6),
        expected_ticket_revision: expected(7),
        reason: "why".to_owned(),
        requalification: requalification(),
    };
    assert_eq!(
        release_fingerprint(&release),
        of(&[
            keyed("ticket_attempt.release"),
            id(5),
            count(6),
            count(7),
            text("why"),
            requalified(),
        ])
    );
}
