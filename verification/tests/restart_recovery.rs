//! Recovery after a restart on concrete values.

use factory_kernel::digest::ContentDigest;
use factory_kernel::identity::{
    AggregateRevision, ApplicationRevisionId, ArtifactId, AssignmentId, CampaignId, CasArtifact,
    KernelBuildId, SessionId,
};
use factory_kernel::packet::{
    AssignmentEvidence, AssignmentPacket, ModelCapability, ModelProfile, ReadExactFile,
    RuntimeIdentity, SessionLimits,
};
use factory_kernel::protocol::{
    AssignmentRole, MicroUsd, ProcessCustody, SessionState, StopReason, TerminalCost,
    TerminalOperation, ThinkingLevel,
};
use factory_kernel::restart_recovery::{
    check_recovered_artifact, check_recovery_assertion, conclude_wait, inspect_group,
    judge_partial_ndjson,
    keeps_partial_transcript, owned_group, reconcile_one_session, recovery_stream_placeholder,
    recovery_transcript_placeholder, restart_command_id, restart_report_digest,
    restart_role_command_id, validate_partial_ndjson,
    wait_for_group_absence, AbsenceStep, EvidenceProgress, GroupAction, GroupPhase, LeaderObservation, ProcessGroupObservation,
    RecoveredArtifact, RecoveryAction, RecoveryItem, RecoveryProgress, RestartRecoveryError,
    RestartRecoveryPolicy, RestartRecoveryReport,
};
use factory_kernel::session::RestartRecoverySession;
use factory_kernel::terminal::TerminalReceipt;

fn digest(text: &str) -> ContentDigest {
    ContentDigest::of_bytes(text.as_bytes())
}

fn seal(text: &str) -> CasArtifact {
    CasArtifact {
        digest: digest(text),
        byte_length: text.len() as u64,
    }
}

fn artifact(value: i64) -> ArtifactId {
    ArtifactId::new(value).unwrap()
}

fn product_packet() -> AssignmentPacket {
    AssignmentPacket {
        format_version: 2,
        campaign_id: CampaignId::new(1).unwrap(),
        assignment_id: AssignmentId::new(2).unwrap(),
        kernel_build_id: KernelBuildId::new(digest("build")),
        application_revision_id: ApplicationRevisionId::new(3).unwrap(),
        assignment_role: AssignmentRole::ProductResearch,
        target: "discover".to_owned(),
        ticket_attempt_id: None,
        candidate_id: None,
        system_prompt_artifact_id: artifact(4),
        assignment_prompt_artifact_id: artifact(5),
        required_read_manifest_artifact_id: artifact(6),
        policy_digest: digest("policy"),
        policy_byte_limit: 64,
        policy_bytes: b"policy".to_vec(),
        policy_entrypoint: "main.ts".to_owned(),
        workspace_root: "/tmp/workspace".to_owned(),
        staging_root: "/tmp/staging".to_owned(),
        model: ModelProfile {
            provider: "provider".to_owned(),
            model_id: "model".to_owned(),
            thinking_level: ThinkingLevel::High,
            context_token_limit: 1000,
            output_token_limit: 100,
            price_input_micro_usd_per_million_tokens: MicroUsd::new(1),
            price_output_micro_usd_per_million_tokens: MicroUsd::new(2),
            price_cache_read_micro_usd_per_million_tokens: MicroUsd::new(3),
            price_cache_write_micro_usd_per_million_tokens: MicroUsd::new(4),
            capability_flags: vec![ModelCapability::Reasoning],
        },
        limits: SessionLimits {
            wall_limit_millis: 60_000,
            output_byte_limit: 4096,
        },
        runtime: RuntimeIdentity {
            host_executable: "/opt/host".to_owned(),
            core_head: "head".to_owned(),
            core_source_digest: digest("core"),
            rust_toolchain: "1.90".to_owned(),
            credential_env: "PROVIDER_KEY".to_owned(),
        },
        required_reads: vec![ReadExactFile {
            path: "AGENTS.md".to_owned(),
            digest: digest("read"),
            reason: "orientation".to_owned(),
        }],
        assignment_evidence: vec![AssignmentEvidence {
            role: "ticket_proposal".to_owned(),
            artifact_id: artifact(7),
            digest: digest("proposal"),
            byte_length: 8,
        }],
        terminal_operations: vec![TerminalOperation::WorkComplete],
        remaining_campaign_allowance: MicroUsd::new(900),
        revision: AggregateRevision::initial(),
        packet_digest: digest("packet"),
    }
}

#[test]
fn partial_ndjson_requires_complete_valid_records() {
    assert!(validate_partial_ndjson(b"").is_ok());
    assert!(validate_partial_ndjson(b"{\"type\":\"event\"}\n{\"n\":2}\n").is_ok());
    assert!(matches!(
        validate_partial_ndjson(b"{\"type\":\"event\"}"),
        Err(RestartRecoveryError::PartialTranscriptTruncated)
    ));
    assert!(matches!(
        validate_partial_ndjson(b"{\"type\":\n"),
        Err(RestartRecoveryError::PartialTranscriptInvalidJson)
    ));
}

#[test]
fn unreadable_transcripts_are_told_apart_and_dropped() {
    assert_eq!(
        validate_partial_ndjson(b"{}\n\n"),
        Err(RestartRecoveryError::PartialTranscriptBlankRecord)
    );
    assert_eq!(
        validate_partial_ndjson(b"\xff\n"),
        Err(RestartRecoveryError::PartialTranscriptUtf8)
    );
    assert_eq!(validate_partial_ndjson(b"{}\r\n[1]\n"), Ok(()));
    assert_eq!(keeps_partial_transcript(Ok(())), Ok(true));
    assert_eq!(
        keeps_partial_transcript(Err(RestartRecoveryError::PartialTranscriptUtf8)),
        Ok(false)
    );
    assert_eq!(
        keeps_partial_transcript(Err(RestartRecoveryError::RecoveredArtifactChanged)),
        Err(RestartRecoveryError::RecoveredArtifactChanged)
    );
}

fn custody() -> ProcessCustody {
    ProcessCustody {
        pid: 400,
        pgid: 400,
        started_at_unix_millis: 1_000,
    }
}

#[test]
fn only_a_group_led_by_the_recorded_child_is_signalled() {
    assert_eq!(owned_group(custody()), Ok(400));
    let foreign = ProcessCustody {
        pgid: 401,
        ..custody()
    };
    assert_eq!(
        owned_group(foreign),
        Err(RestartRecoveryError::InvalidCustody { custody: foreign })
    );
    let huge = ProcessCustody {
        pid: u32::MAX,
        pgid: u32::MAX,
        ..custody()
    };
    assert_eq!(
        owned_group(huge),
        Err(RestartRecoveryError::PidOutOfRange { value: u32::MAX })
    );
    assert_eq!(
        inspect_group(custody(), LeaderObservation::InGroup(400), true),
        Ok(GroupAction::SignalTerm)
    );
    assert_eq!(
        inspect_group(custody(), LeaderObservation::InGroup(7), true),
        Err(RestartRecoveryError::PidGroupMismatch {
            pid: 400,
            expected_pgid: 400,
            observed_pgid: 7,
        })
    );
    assert_eq!(
        inspect_group(custody(), LeaderObservation::Missing, true),
        Err(RestartRecoveryError::LeaderMissingGroupSurvives {
            pid: 400,
            pgid: 400,
        })
    );
    assert_eq!(
        inspect_group(custody(), LeaderObservation::Missing, false),
        Ok(GroupAction::Done(ProcessGroupObservation::Absent))
    );
}

#[test]
fn a_group_is_killed_after_an_expired_grace() {
    let policy = RestartRecoveryPolicy::new(100, 30).unwrap();
    assert_eq!(
        wait_for_group_absence(policy, true, 80),
        AbsenceStep::Sleep { nanos: 20 }
    );
    assert_eq!(
        wait_for_group_absence(policy, true, 0),
        AbsenceStep::Sleep { nanos: 30 }
    );
    assert_eq!(
        wait_for_group_absence(policy, true, 100),
        AbsenceStep::Expired
    );
    assert_eq!(
        wait_for_group_absence(policy, false, 0),
        AbsenceStep::Absent
    );
    assert_eq!(
        conclude_wait(custody(), GroupPhase::TermSent, false),
        Ok(GroupAction::SignalKill)
    );
    assert_eq!(
        conclude_wait(custody(), GroupPhase::TermSent, true),
        Ok(GroupAction::Done(
            ProcessGroupObservation::TerminatedAfterTerm
        ))
    );
    assert_eq!(
        conclude_wait(custody(), GroupPhase::KillSent, false),
        Err(RestartRecoveryError::GroupSurvivedKill {
            pid: 400,
            pgid: 400,
        })
    );
    assert_eq!(
        RestartRecoveryPolicy::new(0, 1),
        Err(RestartRecoveryError::ZeroTerminationGrace)
    );
    assert_eq!(
        RestartRecoveryPolicy::new(1, 0),
        Err(RestartRecoveryError::ZeroPollInterval)
    );
    assert_eq!(
        RestartRecoveryPolicy::bounded_default().termination_grace_nanos,
        250_000_000
    );
}

fn session() -> RestartRecoverySession {
    RestartRecoverySession {
        session_id: SessionId::new(21).unwrap(),
        expected_session_revision: AggregateRevision::from_persisted(3),
        custody: custody(),
        packet: product_packet(),
        packet_artifact: seal("packet bytes"),
        canonical_packet_bytes: b"packet bytes".to_vec(),
    }
}

#[test]
fn recovery_walks_from_inspection_to_the_terminal_report() {
    let session = session();
    let mut progress = RecoveryProgress::new();
    assert!(matches!(
        reconcile_one_session(&session, &progress),
        RecoveryAction::Inspect {
            item: RecoveryItem::Stdout,
            file: "stdout.log",
        }
    ));
    progress.record(RecoveryItem::Stdout, EvidenceProgress::Staged);
    assert!(matches!(
        reconcile_one_session(&session, &progress),
        RecoveryAction::Adopt {
            item: RecoveryItem::Stdout,
            file: "stdout.log",
            role: "stdout",
        }
    ));
    let stdout = RecoveredArtifact::Staged(seal("stdout"));
    progress.record(RecoveryItem::Stdout, EvidenceProgress::Sealed(stdout));
    progress.record(RecoveryItem::Stderr, EvidenceProgress::Missing);
    match reconcile_one_session(&session, &progress) {
        RecoveryAction::WritePlaceholder {
            item,
            file,
            bytes,
            role,
        } => {
            assert_eq!(item, RecoveryItem::Stderr);
            assert_eq!(file, "stderr-unavailable.txt");
            assert_eq!(role, "stderr-unavailable");
            assert_eq!(
                bytes,
                b"factory-restart-stream-unavailable-v1\nsession_id=21\nstream=stderr\n"
            );
        }
        _ => panic!("a missing stream gets a stand-in"),
    }
    let stderr = RecoveredArtifact::Placeholder(seal("stderr"));
    progress.record(RecoveryItem::Stderr, EvidenceProgress::Sealed(stderr));
    let transcript = RecoveredArtifact::Staged(seal("transcript"));
    progress.record(RecoveryItem::Transcript, EvidenceProgress::Sealed(transcript));
    assert!(matches!(
        reconcile_one_session(&session, &progress),
        RecoveryAction::SealAssertion
    ));
    progress.assertion_sealed = true;
    match reconcile_one_session(&session, &progress) {
        RecoveryAction::Commit { seals, report } => {
            assert_eq!(seals.transcript, seal("transcript"));
            assert_eq!(seals.partial_transcript, Some(seal("transcript")));
            assert_eq!(report.stop_reason, StopReason::DaemonDisconnected);
            assert_eq!(report.operation, None);
            assert_eq!(report.report_digest, restart_report_digest(&session));
        }
        _ => panic!("complete evidence is committed"),
    }
}

#[test]
fn recovery_texts_are_exact() {
    let session_id = SessionId::new(21).unwrap();
    assert_eq!(restart_command_id(session_id), "kernel-restart-session-21");
    assert_eq!(
        restart_role_command_id(session_id, "stdout"),
        "kernel-restart-session-21-stdout"
    );
    assert_eq!(
        recovery_transcript_placeholder(session_id),
        b"{\"kind\":\"factory.restart.transcript_unavailable.v1\",\"session_id\":21}\n"
    );
    assert!(recovery_stream_placeholder(session_id, "stdout").ends_with(b"stream=stdout\n"));
    let mut preimage = b"factory-daemon-restart-terminal-v1\0".to_vec();
    preimage.extend(21_i64.to_be_bytes());
    preimage.extend(digest("packet").as_bytes());
    preimage.extend(400_u32.to_be_bytes());
    preimage.extend(400_u32.to_be_bytes());
    preimage.extend(1_000_u64.to_be_bytes());
    assert_eq!(
        restart_report_digest(&session()),
        ContentDigest::of_bytes(&preimage)
    );
}

#[test]
fn recovered_bytes_do_not_change_on_the_way() {
    assert_eq!(check_recovered_artifact(&seal("a"), &seal("a")), Ok(()));
    assert_eq!(
        check_recovered_artifact(&seal("a"), &seal("b")),
        Err(RestartRecoveryError::RecoveredArtifactChanged)
    );
    assert_eq!(
        check_recovery_assertion(&seal("a"), &seal("b")),
        Err(RestartRecoveryError::RecoveryAssertionChanged)
    );
    let mut report = RestartRecoveryReport::new();
    let terminal = TerminalReceipt {
        session_id: SessionId::new(21).unwrap(),
        session_state: SessionState::Interrupted,
        cost: TerminalCost::Unknown,
        resulting_revision: AggregateRevision::from_persisted(4),
        campaign_revision: AggregateRevision::from_persisted(9),
        audit_log_id: 1,
        was_idempotent_retry: false,
    };
    report.record(&session(), ProcessGroupObservation::Absent, terminal);
    assert_eq!(report.recovered.len(), 1);
    assert_eq!(report.recovered[0].terminal, terminal);
}

#[test]
fn a_judged_transcript_has_the_verdict_of_its_first_bad_record() {
    let digits = "7".repeat(400);
    let transcripts: [(String, Result<(), RestartRecoveryError>); 8] = [
        (String::new(), Ok(())),
        ("{}\n[1,-2.5e3]\n".to_owned(), Ok(())),
        (format!("\"{digits}\\\"{digits}\"\n"), Ok(())),
        (
            "{}".to_owned(),
            Err(RestartRecoveryError::PartialTranscriptTruncated),
        ),
        (
            "{}\n\n{\n".to_owned(),
            Err(RestartRecoveryError::PartialTranscriptBlankRecord),
        ),
        (
            "{}\n{\n\n".to_owned(),
            Err(RestartRecoveryError::PartialTranscriptInvalidJson),
        ),
        (
            format!("{digits}\n"),
            Err(RestartRecoveryError::PartialTranscriptInvalidJson),
        ),
        (format!("{digits}e-390\n"), Ok(())),
    ];
    for (transcript, verdict) in transcripts {
        assert_eq!(
            judge_partial_ndjson(transcript.as_bytes()),
            Some(verdict.clone())
        );
        assert_eq!(validate_partial_ndjson(transcript.as_bytes()), verdict);
    }
    assert_eq!(
        judge_partial_ndjson(b"\xff\n"),
        Some(Err(RestartRecoveryError::PartialTranscriptUtf8))
    );
}
