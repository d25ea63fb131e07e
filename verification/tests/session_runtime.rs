//! Launch and end of a session on concrete values.

use factory_kernel::base64::base64_encode;
use factory_kernel::digest::ContentDigest;
use factory_kernel::error::StoreError;
use factory_kernel::identity::{
    AggregateRevision, ApplicationRevisionId, ArtifactId, AssignmentId, CampaignId, CasArtifact,
    ExpectedRevision, KernelBuildId, SessionId, TicketAttemptId,
};
use factory_kernel::packet::{
    AssignmentEvidence, AssignmentPacket, ModelProfile, ReadExactFile, RuntimeIdentity,
    SessionLimits,
};
use factory_kernel::process_custody::{
    PiHostSpawnSpec, ProcessStopReason, ProcessSupervisionSpec, SupervisedProcessOutcome,
};
use factory_kernel::protocol::{
    AssignmentRole, MicroUsd, ProcessCustody, StopReason, TerminalOperation, ThinkingLevel,
};
use factory_kernel::session::SessionReceipt;
use factory_kernel::session_rpc::{RegisteredSessionArtifact, TerminalRequest};
use factory_kernel::session_runtime::{
    actor_session_principal, admission_line, after_actor_report, begin_launch,
    check_read_assertion, conclude_failed_launch, conclude_stop, infrastructure_report_digest,
    launch_session, read_assertion_file, reconcile_command_id, reconcile_terminal, reported_usage,
    runtime_artifact_path, session_artifact_command_id, session_terminal_seals,
    stop_cancels_child, ActiveSessionCancellationRegistry, FirstStop, LaunchAction, LaunchPhase,
    ReconciliationStep, RuntimeVerificationError, SessionLaunchRequest, SessionRuntimeError,
    SessionTransportStop, TranscriptSource, TransportEnd,
};

fn packet() -> AssignmentPacket {
    AssignmentPacket {
        format_version: 1,
        campaign_id: CampaignId::new(1).unwrap(),
        assignment_id: AssignmentId::new(2).unwrap(),
        kernel_build_id: KernelBuildId::new(ContentDigest::of_bytes(b"build")),
        application_revision_id: ApplicationRevisionId::new(3).unwrap(),
        assignment_role: AssignmentRole::Engineering,
        target: "test".to_owned(),
        ticket_attempt_id: Some(TicketAttemptId::new(1).unwrap()),
        candidate_id: None,
        system_prompt_artifact_id: ArtifactId::new(4).unwrap(),
        assignment_prompt_artifact_id: ArtifactId::new(5).unwrap(),
        required_read_manifest_artifact_id: ArtifactId::new(6).unwrap(),
        policy_digest: ContentDigest::of_bytes(b"policy"),
        policy_byte_limit: 6,
        policy_bytes: b"policy".to_vec(),
        policy_entrypoint: "policy".to_owned(),
        workspace_root: "/tmp/workspace".to_owned(),
        staging_root: "/tmp/staging".to_owned(),
        model: ModelProfile {
            provider: "test".to_owned(),
            model_id: "test-model".to_owned(),
            thinking_level: ThinkingLevel::NoThinking,
            context_token_limit: 1,
            output_token_limit: 1,
            price_input_micro_usd_per_million_tokens: MicroUsd::new(1),
            price_output_micro_usd_per_million_tokens: MicroUsd::new(1),
            price_cache_read_micro_usd_per_million_tokens: MicroUsd::new(1),
            price_cache_write_micro_usd_per_million_tokens: MicroUsd::new(1),
            capability_flags: Vec::new(),
        },
        limits: SessionLimits {
            wall_limit_millis: 1,
            output_byte_limit: 1,
        },
        runtime: RuntimeIdentity {
            host_executable: "/opt/deno".to_owned(),
            core_head: "test".to_owned(),
            core_source_digest: ContentDigest::of_bytes(b"graph"),
            rust_toolchain: "test".to_owned(),
            credential_env: "TEST".to_owned(),
        },
        required_reads: vec![ReadExactFile {
            path: "AGENTS.md".to_owned(),
            digest: ContentDigest::of_bytes(b"read"),
            reason: "test".to_owned(),
        }],
        assignment_evidence: vec![AssignmentEvidence {
            role: "ticket_proposal".to_owned(),
            artifact_id: ArtifactId::new(7).unwrap(),
            digest: ContentDigest::of_bytes(b"proposal"),
            byte_length: 8,
        }],
        terminal_operations: vec![TerminalOperation::WorkComplete],
        remaining_campaign_allowance: MicroUsd::new(1),
        revision: AggregateRevision::initial(),
        packet_digest: ContentDigest::of_bytes(b"fixture packet"),
    }
}


fn custody() -> ProcessCustody {
    ProcessCustody {
        pid: 41,
        pgid: 41,
        started_at_unix_millis: 5,
    }
}

fn request() -> SessionLaunchRequest {
    let packet = packet();
    SessionLaunchRequest {
        principal: "operator".to_owned(),
        command_id: "launch-1".to_owned(),
        expected_assignment_revision: ExpectedRevision::new(AggregateRevision::initial()),
        assignment_id: packet.assignment_id,
        packet_digest: packet.packet_digest,
        canonical_packet_bytes: b"{}".to_vec(),
        packet_artifact: CasArtifact {
            digest: ContentDigest::of_bytes(b"{}"),
            byte_length: 2,
        },
        spawn: PiHostSpawnSpec {
            deno_executable: b"/opt/deno".to_vec(),
            host_entrypoint: b"/opt/host.ts".to_vec(),
            deno_config: b"/opt/deno.json".to_vec(),
            deno_lock: b"/opt/deno.lock".to_vec(),
            working_directory: b"/tmp/workspace".to_vec(),
            actor_source_fd: 5,
            deno_dir: None,
            environment: Vec::new(),
        },
        supervision: ProcessSupervisionSpec {
            stdout_path: b"/tmp/staging/stdout.log".to_vec(),
            stderr_path: b"/tmp/staging//stderr.log".to_vec(),
            stdout_byte_limit: 1,
            stderr_byte_limit: 1,
            wall_limit_nanos: 1,
            termination_grace_nanos: 1,
        },
        workspace_root: b"/tmp/workspace/".to_vec(),
        expected_read_manifest_artifact_id: packet.required_read_manifest_artifact_id,
        required_reads: packet.required_reads.clone(),
        packet,
    }
}

#[test]
fn a_launch_request_names_its_own_packet() {
    assert_eq!(request().validate_identity::<u8>(2), Ok(()));
    assert_eq!(
        begin_launch::<u8>(&request(), 2),
        LaunchAction::Perform(LaunchPhase::VerifyPacket)
    );
    let refused = |change: fn(&mut SessionLaunchRequest)| {
        let mut request = request();
        change(&mut request);
        request.validate_identity::<u8>(2).unwrap_err()
    };
    let mismatch = SessionRuntimeError::PacketIdentityMismatch;
    assert_eq!(
        refused(|request| request.assignment_id = AssignmentId::new(9).unwrap()),
        mismatch
    );
    assert_eq!(
        refused(|request| request.packet_digest = ContentDigest::of_bytes(b"other")),
        mismatch
    );
    assert_eq!(refused(|request| request.required_reads.clear()), mismatch);
    assert_eq!(
        refused(|request| request.expected_read_manifest_artifact_id = ArtifactId::new(9).unwrap()),
        mismatch
    );
    assert_eq!(
        refused(|request| request.workspace_root = b"/tmp/other".to_vec()),
        mismatch
    );
    assert_eq!(
        refused(|request| request.canonical_packet_bytes.clear()),
        SessionRuntimeError::PacketBytesEmpty
    );
    assert_eq!(
        refused(|request| request.canonical_packet_bytes.push(b' ')),
        SessionRuntimeError::PacketBytesTooLarge {
            actual: 3,
            maximum: 2
        }
    );
    assert_eq!(
        refused(|request| {
            request.workspace_root.clear();
            request.packet.workspace_root.clear();
        }),
        SessionRuntimeError::WorkspaceRootEmpty
    );
    assert_eq!(
        refused(|request| request.supervision.stdout_path = b"/tmp/stdout.log".to_vec()),
        SessionRuntimeError::CapturePathOutsideStaging { stream: "stdout" }
    );
    assert_eq!(
        refused(|request| request.supervision.stderr_path = b"/tmp/staging/err.log".to_vec()),
        SessionRuntimeError::CapturePathOutsideStaging { stream: "stderr" }
    );
    let command = request().start_command(custody());
    assert_eq!(command.command_id, "launch-1");
    assert_eq!(command.custody, custody());
}

#[test]
fn a_launch_that_never_fails_serves_after_thirteen_steps() {
    let mut action = begin_launch::<u8>(&request(), 2);
    let mut phases = Vec::new();
    while let LaunchAction::Perform(phase) = action {
        phases.push(phase);
        action = launch_session(phase, Ok(()));
    }
    assert_eq!(action, LaunchAction::Serve);
    assert_eq!(phases.len(), 13);
    let position = |phase| phases.iter().position(|other| *other == phase).unwrap();
    assert!(position(LaunchPhase::Spawn) < position(LaunchPhase::Start));
    assert!(position(LaunchPhase::Start) < position(LaunchPhase::SendAdmission));
}

#[test]
fn a_failed_launch_waits_for_a_spawned_child() {
    let fault = || SessionRuntimeError::Store(StoreError::InvalidDefaultBranch);
    assert_eq!(
        launch_session::<u8>(LaunchPhase::Spawn, Err(fault())),
        LaunchAction::Fail(fault())
    );
    assert_eq!(
        launch_session::<u8>(LaunchPhase::Register, Err(fault())),
        LaunchAction::CancelAndWait(fault())
    );
    assert_eq!(
        conclude_failed_launch::<u8>(LaunchPhase::Start, fault(), Ok(())),
        SessionRuntimeError::StartFailed(StoreError::InvalidDefaultBranch)
    );
    assert_eq!(
        conclude_failed_launch(LaunchPhase::Start, fault(), Err(4)),
        SessionRuntimeError::StartAndCleanupFailed {
            start: StoreError::InvalidDefaultBranch,
            cleanup: 4
        }
    );
    assert_eq!(
        conclude_failed_launch(
            LaunchPhase::SendAdmission,
            SessionRuntimeError::Transport(1),
            Ok(())
        ),
        SessionRuntimeError::AdmissionFailed { source: 1 }
    );
    assert_eq!(
        conclude_failed_launch(
            LaunchPhase::SendAdmission,
            SessionRuntimeError::Transport(1),
            Err(2)
        ),
        SessionRuntimeError::AdmissionCleanupFailed(2)
    );
    assert_eq!(
        conclude_failed_launch(LaunchPhase::OpenReads, SessionRuntimeError::Read(3), Err(2)),
        SessionRuntimeError::Read(3)
    );
    assert_eq!(
        RuntimeVerificationError::RuntimeIdentity("x".to_owned()),
        RuntimeVerificationError::RuntimeIdentity("x".to_owned())
    );
}

fn outcome() -> SupervisedProcessOutcome {
    SupervisedProcessOutcome {
        custody: custody(),
        reason: ProcessStopReason::NonZeroExit,
        exit_code: Some(3),
        signal: None,
        escalated_to_kill: false,
        stdout_bytes: 10,
        stderr_bytes: 20,
    }
}

fn terminal() -> TerminalRequest {
    TerminalRequest {
        request_id: "r".to_owned(),
        client_command_id: "actor-1".to_owned(),
        expected_revision: 1,
        terminal_operation: Some("work_complete".to_owned()),
        stop_reason: "completed".to_owned(),
        terminal_payload_b64: base64_encode(b"payload"),
        transcript_artifact_id: 30,
        input_tokens: Some(1),
        output_tokens: None,
        cache_read_tokens: None,
        cache_write_tokens: None,
        reasoning_tokens: None,
        reported_cost_micro_usd: Some(2),
    }
}

#[test]
fn the_first_stop_names_how_a_session_ended() {
    let ended = conclude_stop::<u8>(FirstStop::Process(Ok(outcome())), None, Some(terminal()))
        .ok()
        .unwrap();
    assert_eq!(ended.transport, SessionTransportStop::ProcessExited);
    assert_eq!(ended.proposal, Some(terminal()));
    assert_eq!(ended.process, outcome());
    let closed = conclude_stop::<u8>(
        FirstStop::Transport(TransportEnd::PeerClosed),
        Some(Ok(outcome())),
        None,
    )
    .ok()
    .unwrap();
    assert_eq!(closed.transport, SessionTransportStop::PeerDisconnected);
    assert_eq!(closed.proposal, None);
    let proposed = conclude_stop::<u8>(FirstStop::Terminal(terminal()), Some(Ok(outcome())), None)
        .ok()
        .unwrap();
    assert_eq!(proposed.transport, SessionTransportStop::ProcessExited);
    assert_eq!(proposed.proposal, Some(terminal()));
    assert_eq!(
        conclude_stop::<u8>(FirstStop::TransportChannelClosed, None, None).err(),
        Some(SessionRuntimeError::TransportResultChannelClosed)
    );
    assert_eq!(
        conclude_stop::<u8>(FirstStop::ProcessChannelClosed, None, None).err(),
        Some(SessionRuntimeError::ProcessResultChannelClosed)
    );
    assert_eq!(
        conclude_stop(
            FirstStop::Transport(TransportEnd::Failed),
            Some(Err(5)),
            None
        )
        .err(),
        Some(SessionRuntimeError::Custody(5))
    );
    assert!(!stop_cancels_child::<u8>(&FirstStop::Process(Ok(outcome()))));
    assert!(stop_cancels_child::<u8>(&FirstStop::Transport(
        TransportEnd::Failed
    )));
}

fn receipt() -> SessionReceipt {
    SessionReceipt {
        session_id: SessionId::new(7).unwrap(),
        resulting_revision: AggregateRevision::from_persisted(1),
        assignment_revision: AggregateRevision::from_persisted(2),
        audit_log_id: 3,
        was_idempotent_retry: false,
    }
}

#[test]
fn infrastructure_reports_are_digested_in_a_fixed_form() {
    let mut preimage = b"factory-session-infrastructure-terminal-v1\0".to_vec();
    preimage.extend([1, 2]);
    preimage.extend(3_i32.to_be_bytes());
    preimage.extend(i32::MIN.to_be_bytes());
    preimage.extend(10_u64.to_be_bytes());
    preimage.extend(20_u64.to_be_bytes());
    assert_eq!(
        infrastructure_report_digest(&outcome(), SessionTransportStop::TransportFailed),
        ContentDigest::of_bytes(&preimage)
    );
}

#[test]
fn a_session_is_reconciled_from_its_proposal_or_its_infrastructure() {
    let packet = packet();
    let plan = reconcile_terminal::<u8>(
        Some(&terminal()),
        &receipt(),
        &packet,
        packet.packet_digest,
        &outcome(),
        SessionTransportStop::ProcessExited,
    )
    .ok()
    .unwrap();
    let actor = plan.actor.unwrap();
    assert_eq!(
        actor.principal,
        "actor-session-7-assignment-2-application-3-campaign-1"
    );
    assert_eq!(actor.principal, actor_session_principal(&receipt(), &packet));
    assert_eq!(actor.command_id, "actor-1");
    assert_eq!(actor.report.operation, Some(TerminalOperation::WorkComplete));
    assert_eq!(actor.report.stop_reason, StopReason::Completed);
    assert_eq!(
        actor.report.report_digest,
        ContentDigest::of_bytes(b"payload")
    );
    assert_eq!(plan.infrastructure.principal, "kernel");
    assert_eq!(plan.infrastructure.command_id, reconcile_command_id(receipt().session_id));
    assert_eq!(plan.infrastructure.command_id, "kernel-reconcile-session-7");
    assert_eq!(plan.infrastructure.report.operation, None);
    assert_eq!(
        plan.infrastructure.report.stop_reason,
        StopReason::NonZeroExit
    );
    let mut garbled = terminal();
    garbled.stop_reason = "done".to_owned();
    assert_eq!(
        reconcile_terminal::<u8>(
            Some(&garbled),
            &receipt(),
            &packet,
            packet.packet_digest,
            &outcome(),
            SessionTransportStop::ProcessExited,
        )
        .err(),
        Some(SessionRuntimeError::InvalidTerminalContract)
    );
    assert!(matches!(
        after_actor_report(Some(Err(StoreError::InvalidDefaultBranch))),
        ReconciliationStep::RecordInfrastructure
    ));
    assert!(matches!(
        after_actor_report::<StoreError>(None),
        ReconciliationStep::RecordInfrastructure
    ));
    let usage = reported_usage(Some(&terminal())).unwrap();
    assert_eq!(usage.input_tokens, Some(1));
    assert_eq!(usage.reported_cost_micro_usd, Some(MicroUsd::new(2)));
    assert_eq!(reported_usage(None), None);
}

#[test]
fn session_evidence_is_named_after_the_session() {
    let session_id = receipt().session_id;
    assert_eq!(
        session_artifact_command_id(session_id, "stdout"),
        "kernel-session-7-stdout"
    );
    assert_eq!(
        read_assertion_file(session_id),
        "required-read-assertion-7.json"
    );
    assert_eq!(
        runtime_artifact_path::<u8>(b"/tmp/staging/a/b".to_vec(), b"/tmp/staging", true),
        Ok(vec![b"a".to_vec(), b"b".to_vec()])
    );
    for (path, valid) in [(b"/tmp/other/a".to_vec(), true), (b"/tmp/staging/a".to_vec(), false)] {
        assert_eq!(
            runtime_artifact_path::<u8>(path.clone(), b"/tmp/staging", valid),
            Err(SessionRuntimeError::ArtifactPathOutsideStaging { path })
        );
    }
    let seal = |text: &[u8]| CasArtifact {
        digest: ContentDigest::of_bytes(text),
        byte_length: text.len() as u64,
    };
    let registered = session_terminal_seals(
        TranscriptSource::Registered(RegisteredSessionArtifact {
            seal: seal(b"t"),
            artifact_id: ArtifactId::new(30).unwrap(),
        }),
        Some(seal(b"s")),
        seal(b"o"),
        seal(b"e"),
    );
    assert_eq!(registered.transcript, seal(b"t"));
    assert_eq!(registered.execution_summary, Some(seal(b"s")));
    assert_eq!(registered.partial_transcript, None);
    let partial = session_terminal_seals(
        TranscriptSource::Partial(seal(b"p")),
        None,
        seal(b"o"),
        seal(b"e"),
    );
    assert_eq!(partial.partial_transcript, Some(seal(b"p")));
    assert_eq!(check_read_assertion::<u8>(&seal(b"a"), &seal(b"a")), Ok(()));
    assert_eq!(
        check_read_assertion::<u8>(&seal(b"a"), &seal(b"b")),
        Err(SessionRuntimeError::AssertionChanged)
    );
}

#[test]
fn an_admission_line_is_bounded() {
    let packet = packet();
    let line = |maximum| {
        admission_line::<u8>(
            packet.assignment_id,
            SessionId::new(7).unwrap(),
            AggregateRevision::initial(),
            packet.packet_digest,
            b"{}",
            maximum,
        )
    };
    let bytes = line(4096).unwrap();
    assert_eq!(line(bytes.len()), Ok(bytes.clone()));
    assert_eq!(
        line(bytes.len() - 1),
        Err(SessionRuntimeError::AdmissionOversized {
            actual: bytes.len(),
            maximum: bytes.len() - 1
        })
    );
}

#[test]
fn a_session_is_cancelled_through_one_handle() {
    let mut registry = ActiveSessionCancellationRegistry::new();
    let session_id = SessionId::new(7).unwrap();
    assert_eq!(registry.register::<u8>(session_id, 'a'), Ok(()));
    assert_eq!(
        registry.register::<u8>(session_id, 'b'),
        Err(SessionRuntimeError::CancellationRegistryConflict { session_id })
    );
    assert_eq!(registry.handle::<u8>(session_id), Ok(&'a'));
    registry.finish(session_id);
    assert_eq!(
        registry.handle::<u8>(session_id),
        Err(SessionRuntimeError::ActiveSessionCancellationMissing { session_id })
    );
    assert_eq!(registry.register::<u8>(session_id, 'b'), Ok(()));
}
