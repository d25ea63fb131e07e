//! Durable sessions from start to end on concrete values.

use factory_kernel::assignment::ArtifactRow;
use factory_kernel::audit::AuditRow;
use factory_kernel::base64::base64_encode;
use factory_kernel::campaign::{
    admit_campaign_cancellation, admit_finish_cancellation, finish_campaign_cancellation,
    CampaignCancellationAdmission, CampaignRow, CancelCampaign, ReconciledSessionCancellation,
};
use factory_kernel::digest::ContentDigest;
use factory_kernel::error::StoreError;
use factory_kernel::identity::{
    AggregateRevision, ApplicationRevisionId, ArtifactId, AssignmentId, CampaignId, CasArtifact,
    ContractError, ExpectedRevision, KernelBuildId, SessionId,
};
use factory_kernel::packet::{
    canonical_required_manifest, AssignmentEvidence, AssignmentEvidenceWire, AssignmentPacket,
    AssignmentPacketWire, ModelCapability, ModelProfile, ModelProfileWire, ReadExactFile,
    ReadExactFileWire, RuntimeIdentity, RuntimeIdentityWire, SessionLimits, WireContract,
};
use factory_kernel::protocol::{
    db_cost, failure_code, stop_reason_code, usage_sql, AssignmentRole, MicroUsd, ProcessCustody,
    SessionState, StopReason, TerminalCost, TerminalOperation, TerminalReport, ThinkingLevel,
    UsageTotals,
};
use factory_kernel::session::{
    actor_connection_identity, admit_start_session, campaign_session_cost_aggregates,
    count_from_sql, fingerprint_session_start, registered_artifact, registered_digest,
    replayed_session_receipt, restart_recovery_session, session_cost_breakdown, session_status,
    start_session, started_session_receipt, validate_cost_page, verify_packet_bytes, RecoveryRow,
    SessionAssignmentRow, SessionCostAggregateRow, SessionCostRow, SessionIdentityRow,
    SessionStatusRow, StartSession,
};
use factory_kernel::terminal::{
    admit_terminal_session, cost_transition, fingerprint_terminal, replayed_terminal_receipt,
    terminal_receipt, terminal_session, verify_terminal_evidence, EvidenceAssignmentRow,
    FinishedSessionRow, RequiredReadAssertion, TerminalArtifactSeals, TerminalEvidenceFacts,
    TerminalSessionRow, VerifiedTerminalEvidence,
};

fn digest(text: &str) -> ContentDigest {
    ContentDigest::of_bytes(text.as_bytes())
}

fn seal(text: &str) -> CasArtifact {
    CasArtifact {
        digest: digest(text),
        byte_length: text.len() as u64,
    }
}

fn artifact(value: i64) -> ArtifactId {
    ArtifactId::new(value).unwrap()
}

fn product_packet() -> AssignmentPacket {
    AssignmentPacket {
        format_version: 2,
        campaign_id: CampaignId::new(1).unwrap(),
        assignment_id: AssignmentId::new(2).unwrap(),
        kernel_build_id: KernelBuildId::new(digest("build")),
        application_revision_id: ApplicationRevisionId::new(3).unwrap(),
        assignment_role: AssignmentRole::ProductResearch,
        target: "discover".to_owned(),
        ticket_attempt_id: None,
        candidate_id: None,
        system_prompt_artifact_id: artifact(4),
        assignment_prompt_artifact_id: artifact(5),
        required_read_manifest_artifact_id: artifact(6),
        policy_digest: digest("policy"),
        policy_byte_limit: 64,
        policy_bytes: b"policy".to_vec(),
        policy_entrypoint: "main.ts".to_owned(),
        workspace_root: "/tmp/workspace".to_owned(),
        staging_root: "/tmp/staging".to_owned(),
        model: ModelProfile {
            provider: "provider".to_owned(),
            model_id: "model".to_owned(),
            thinking_level: ThinkingLevel::High,
            context_token_limit: 1000,
            output_token_limit: 100,
            price_input_micro_usd_per_million_tokens: MicroUsd::new(1),
            price_output_micro_usd_per_million_tokens: MicroUsd::new(2),
            price_cache_read_micro_usd_per_million_tokens: MicroUsd::new(3),
            price_cache_write_micro_usd_per_million_tokens: MicroUsd::new(4),
            capability_flags: vec![ModelCapability::Reasoning],
        },
        limits: SessionLimits {
            wall_limit_millis: 60_000,
            output_byte_limit: 4096,
        },
        runtime: RuntimeIdentity {
            host_executable: "/opt/host".to_owned(),
            core_head: "head".to_owned(),
            core_source_digest: digest("core"),
            rust_toolchain: "1.90".to_owned(),
            credential_env: "PROVIDER_KEY".to_owned(),
        },
        required_reads: vec![ReadExactFile {
            path: "AGENTS.md".to_owned(),
            digest: digest("read"),
            reason: "orientation".to_owned(),
        }],
        assignment_evidence: vec![AssignmentEvidence {
            role: "ticket_proposal".to_owned(),
            artifact_id: artifact(7),
            digest: digest("proposal"),
            byte_length: 8,
        }],
        terminal_operations: vec![TerminalOperation::WorkComplete],
        remaining_campaign_allowance: MicroUsd::new(900),
        revision: AggregateRevision::initial(),
        packet_digest: digest("packet"),
    }
}

fn wire_of(packet: &AssignmentPacket) -> AssignmentPacketWire {
    AssignmentPacketWire {
        format_version: packet.format_version,
        campaign_id: packet.campaign_id.get(),
        assignment_id: packet.assignment_id.get(),
        kernel_build_id: packet.kernel_build_id.digest().to_hex(),
        application_revision_id: packet.application_revision_id.get(),
        assignment_role: "product_research".to_owned(),
        target: packet.target.clone(),
        ticket_attempt_id: None,
        candidate_id: None,
        system_prompt_artifact_id: 4,
        system_prompt_digest: digest("system").to_hex(),
        system_prompt_bytes_b64: base64_encode(b"system"),
        assignment_prompt_artifact_id: 5,
        assignment_prompt_digest: digest("assignment").to_hex(),
        assignment_prompt_bytes_b64: base64_encode(b"assignment"),
        required_read_manifest_artifact_id: 6,
        policy_digest: packet.policy_digest.to_hex(),
        policy_byte_limit: packet.policy_byte_limit,
        policy_bytes_b64: base64_encode(&packet.policy_bytes),
        policy_entrypoint: packet.policy_entrypoint.clone(),
        workspace_root: packet.workspace_root.clone(),
        staging_root: packet.staging_root.clone(),
        model: ModelProfileWire {
            provider: packet.model.provider.clone(),
            model_id: packet.model.model_id.clone(),
            thinking_level: "high".to_owned(),
            context_token_limit: 1000,
            output_token_limit: 100,
            price_input_micro_usd_per_million_tokens: 1,
            price_output_micro_usd_per_million_tokens: 2,
            price_cache_read_micro_usd_per_million_tokens: 3,
            price_cache_write_micro_usd_per_million_tokens: 4,
            capability_flags: vec!["reasoning".to_owned()],
        },
        limits: packet.limits,
        runtime: RuntimeIdentityWire {
            host_executable: "/opt/host".to_owned(),
            core_head: "head".to_owned(),
            core_source_digest: digest("core").to_hex(),
            rust_toolchain: "1.90".to_owned(),
            credential_env: "PROVIDER_KEY".to_owned(),
        },
        required_reads: vec![ReadExactFileWire {
            path: "AGENTS.md".to_owned(),
            digest: digest("read").to_hex(),
            reason: "orientation".to_owned(),
        }],
        assignment_evidence: vec![AssignmentEvidenceWire {
            role: "ticket_proposal".to_owned(),
            artifact_id: 7,
            digest: digest("proposal").to_hex(),
            byte_length: 8,
        }],
        terminal_operations: vec!["work_complete".to_owned()],
        tools: vec!["workspace_read".to_owned()],
        remaining_campaign_allowance_micro_usd: 900,
        aggregate_revision: 0,
        packet_digest: digest("packet").to_hex(),
    }
}

fn session_id() -> SessionId {
    SessionId::new(21).unwrap()
}

fn revision(value: u64) -> AggregateRevision {
    AggregateRevision::from_persisted(value)
}

fn start() -> StartSession {
    StartSession {
        principal: "operator".to_owned(),
        command_id: "launch-1".to_owned(),
        expected_assignment_revision: ExpectedRevision::new(revision(0)),
        assignment_id: AssignmentId::new(2).unwrap(),
        packet_digest: digest("packet"),
        custody: ProcessCustody {
            pid: 400,
            pgid: 400,
            started_at_unix_millis: 1_000,
        },
    }
}

fn assignment_row() -> SessionAssignmentRow {
    SessionAssignmentRow {
        campaign_id: 1,
        packet_digest: digest("packet").as_bytes().to_vec(),
        revision: 0,
        lifecycle: 0,
        campaign_lifecycle: 0,
        cost_state: 0,
        deadline_open: true,
    }
}

#[test]
fn a_session_starts_once_with_its_own_process() {
    assert_eq!(admit_start_session(&start(), None), Ok(None));
    let plan = start_session(&start(), Some(&assignment_row()), false).unwrap();
    assert_eq!(plan.pid, 400);
    assert_eq!(plan.process_started_at_unix_millis, 1_000);
    let receipt = started_session_receipt(&plan, 21, 31).unwrap();
    assert_eq!(receipt.session_id, session_id());
    assert_eq!(receipt.assignment_revision, revision(1));
    assert!(!receipt.was_idempotent_retry);
    let row = AuditRow {
        id: 31,
        operation: "session.start".to_owned(),
        command_fingerprint: fingerprint_session_start(&start()).as_bytes().to_vec(),
        subject_kind: 6,
        subject_id: 21,
        resulting_revision: 0,
    };
    let audit = admit_start_session(&start(), Some(&row)).unwrap().unwrap();
    let replayed = replayed_session_receipt(&audit, 1).unwrap();
    assert!(replayed.was_idempotent_retry);
    assert_eq!(replayed.session_id, session_id());
    let mut other = start();
    other.custody.pid = 401;
    assert!(matches!(
        admit_start_session(&other, Some(&row)),
        Err(StoreError::IdempotencyConflict { .. })
    ));
}

#[test]
fn a_start_is_refused_in_every_other_state() {
    let refused = |change: fn(&mut StartSession, &mut SessionAssignmentRow), running: bool| {
        let mut command = start();
        let mut row = assignment_row();
        change(&mut command, &mut row);
        start_session(&command, Some(&row), running).unwrap_err()
    };
    let assignment_id = AssignmentId::new(2).unwrap();
    assert_eq!(
        start_session(&start(), None, false),
        Err(StoreError::UnknownAssignment { assignment_id })
    );
    assert_eq!(
        refused(|_, row| row.revision = 1, false),
        StoreError::RevisionConflict {
            expected: ExpectedRevision::new(revision(0)),
            current: revision(1),
        }
    );
    assert_eq!(
        refused(|_, row| row.lifecycle = 1, false),
        StoreError::AssignmentStateConflict { assignment_id }
    );
    assert_eq!(
        refused(|_, row| row.cost_state = 1, false),
        StoreError::CampaignCostFrozen {
            campaign_id: CampaignId::new(1).unwrap()
        }
    );
    assert_eq!(
        refused(|_, row| row.deadline_open = false, false),
        StoreError::CampaignDeadlineElapsed
    );
    assert_eq!(
        refused(|command, _| command.packet_digest = digest("other"), false),
        StoreError::PacketIdentityMismatch
    );
    assert_eq!(
        refused(|_, _| {}, true),
        StoreError::PaidSessionAlreadyRunning
    );
    assert_eq!(
        refused(|command, _| command.custody.pid = u32::MAX, false),
        StoreError::InvalidProcessCommand { field: "PID" }
    );
}

fn report(stop_reason: StopReason, operation: Option<TerminalOperation>) -> TerminalReport {
    TerminalReport {
        packet_digest: digest("packet"),
        expected_session_revision: ExpectedRevision::new(revision(0)),
        operation,
        stop_reason,
        report_digest: digest("report"),
    }
}

fn usage(cost: Option<u64>) -> UsageTotals {
    UsageTotals {
        input_tokens: Some(10),
        output_tokens: Some(20),
        cache_read_tokens: None,
        cache_write_tokens: None,
        reasoning_tokens: None,
        reported_cost_micro_usd: cost.map(MicroUsd::new),
    }
}

fn evidence(usage: Option<UsageTotals>) -> VerifiedTerminalEvidence {
    VerifiedTerminalEvidence {
        transcript_artifact_id: artifact(51),
        execution_summary_artifact_id: Some(artifact(52)),
        stdout_artifact_id: artifact(53),
        stderr_artifact_id: artifact(54),
        partial_transcript_artifact_id: None,
        required_read_assertion_artifact_id: artifact(55),
        required_read_expected_count: 1,
        required_read_satisfied_count: 1,
        usage,
    }
}

fn terminal_row() -> TerminalSessionRow {
    TerminalSessionRow {
        assignment_id: 2,
        campaign_id: 1,
        revision: 0,
        lifecycle: 1,
        packet_digest: digest("packet").as_bytes().to_vec(),
        terminal_operations_mask: 1,
        required_read_manifest_artifact_id: 6,
        campaign_revision: 6,
        aggregate_budget_micro_usd: 1_000,
        measured_cost_micro_usd: 100,
        campaign_cost_state: 0,
        campaign_lifecycle: 0,
    }
}

#[test]
fn a_completed_session_accounts_its_cost() {
    let report = report(StopReason::Completed, Some(TerminalOperation::WorkComplete));
    let evidence = evidence(Some(usage(Some(250))));
    let plan = terminal_session(session_id(), &report, &evidence, Some(&terminal_row())).unwrap();
    assert_eq!(plan.session_state, SessionState::Succeeded);
    assert_eq!(plan.campaign_measured, 350);
    assert_eq!(plan.campaign_cost_state, 0);
    assert_eq!(plan.cost_column, Some(250));
    assert_eq!(plan.session.resulting_revision, revision(1));
    assert_eq!(plan.campaign.resulting_revision, revision(7));
    assert_eq!(plan.operation_code, Some(0));
    assert_eq!(plan.failure_code, None);
    assert_eq!(plan.campaign_failure_reason, None);
    let receipt = terminal_receipt(session_id(), &plan, 61);
    assert_eq!(receipt.cost, TerminalCost::Known(MicroUsd::new(250)));
    assert_eq!(receipt.campaign_revision, revision(7));
}

#[test]
fn an_unknown_cost_fails_the_campaign_unless_it_was_cancelled() {
    let silent = evidence(None);
    let plan = terminal_session(
        session_id(),
        &report(StopReason::DaemonDisconnected, None),
        &silent,
        Some(&terminal_row()),
    )
    .unwrap();
    assert_eq!(plan.session_state, SessionState::Interrupted);
    assert_eq!(plan.campaign_lifecycle, 2);
    assert_eq!(plan.campaign_cost_state, 1);
    assert_eq!(
        plan.campaign_failure_reason,
        Some("terminal session cost is unknown")
    );
    let cancelled = terminal_session(
        session_id(),
        &report(StopReason::Cancelled, None),
        &silent,
        Some(&terminal_row()),
    )
    .unwrap();
    assert_eq!(cancelled.campaign_lifecycle, 0);
    assert_eq!(cancelled.campaign_cost_state, 1);
    assert_eq!(cancelled.receipt_cost, TerminalCost::Unknown);
}

#[test]
fn a_cancellation_outlives_the_session_it_stopped() {
    let campaign_id = CampaignId::new(1).unwrap();
    let row = terminal_row();
    let cancel = CancelCampaign {
        principal: "operator".to_owned(),
        command_id: "cancel-1".to_owned(),
        expected_revision: ExpectedRevision::new(revision(6)),
        campaign_id,
    };
    let before = CampaignRow {
        lifecycle: row.campaign_lifecycle,
        revision: row.campaign_revision,
    };
    assert_eq!(
        admit_campaign_cancellation(&cancel, Some(before), Some(session_id().get())),
        Ok(CampaignCancellationAdmission::ActiveSession {
            session_id: session_id()
        })
    );
    let end = |cost: Option<u64>| {
        let plan = terminal_session(
            session_id(),
            &report(StopReason::Cancelled, None),
            &evidence(Some(usage(cost))),
            Some(&row),
        )
        .unwrap();
        let reconciled = ReconciledSessionCancellation {
            campaign_id,
            session_id: session_id(),
            campaign_revision: plan.campaign.resulting_revision,
        };
        assert_eq!(admit_finish_cancellation(&cancel, reconciled, None), Ok(None));
        let left = CampaignRow {
            lifecycle: plan.campaign_lifecycle,
            revision: plan.campaign.revision_column,
        };
        finish_campaign_cancellation(&cancel, reconciled, Some(left))
    };
    assert_eq!(end(None).unwrap().revision_column, 8);
    assert_eq!(end(Some(900)).unwrap().revision_column, 8);
    assert_eq!(end(Some(901)), Err(StoreError::CampaignClosed { campaign_id }));
}

#[test]
fn a_cost_over_the_budget_exceeds_the_campaign() {
    let plan = terminal_session(
        session_id(),
        &report(StopReason::Completed, Some(TerminalOperation::WorkComplete)),
        &evidence(Some(usage(Some(901)))),
        Some(&terminal_row()),
    )
    .unwrap();
    assert_eq!(plan.campaign_cost_state, 2);
    assert_eq!(plan.campaign_lifecycle, 2);
    assert_eq!(plan.campaign_measured, 1_001);
    assert_eq!(
        plan.campaign_failure_reason,
        Some("terminal session exceeded the campaign cost limit")
    );
    assert_eq!(plan.receipt_cost, TerminalCost::Exceeded(MicroUsd::new(901)));
    let exact = cost_transition(
        TerminalCost::Known(MicroUsd::new(900)),
        StopReason::Completed,
        1_000,
        100,
        0,
        0,
    )
    .unwrap();
    assert_eq!(exact.cost_state, 0);
    assert_eq!(exact.measured, 1_000);
    assert_eq!(
        cost_transition(
            TerminalCost::Known(MicroUsd::new(u64::MAX)),
            StopReason::Completed,
            1_000,
            100,
            0,
            0,
        ),
        Err(StoreError::CorruptCostColumn)
    );
}

#[test]
fn terminal_reports_are_refused_where_they_do_not_hold() {
    let complete = report(StopReason::Completed, Some(TerminalOperation::WorkComplete));
    let full = evidence(Some(usage(Some(1))));
    let refused = |report: &TerminalReport, evidence: &VerifiedTerminalEvidence| {
        terminal_session(session_id(), report, evidence, Some(&terminal_row())).unwrap_err()
    };
    assert_eq!(
        terminal_session(session_id(), &complete, &full, None),
        Err(StoreError::UnknownSession {
            session_id: session_id()
        })
    );
    let stale = TerminalReport {
        expected_session_revision: ExpectedRevision::new(revision(4)),
        ..complete
    };
    assert_eq!(
        refused(&stale, &full),
        StoreError::RevisionConflict {
            expected: ExpectedRevision::new(revision(4)),
            current: revision(0),
        }
    );
    let ended = TerminalSessionRow {
        lifecycle: 2,
        ..terminal_row()
    };
    assert_eq!(
        terminal_session(session_id(), &complete, &full, Some(&ended)),
        Err(StoreError::SessionAlreadyTerminal {
            session_id: session_id()
        })
    );
    assert_eq!(
        refused(
            &report(StopReason::Completed, Some(TerminalOperation::CandidateSubmit)),
            &full
        ),
        StoreError::TerminalOperationNotAllowed
    );
    assert_eq!(
        refused(&report(StopReason::Deadline, Some(TerminalOperation::WorkComplete)), &full),
        StoreError::TerminalOperationNotAllowed
    );
    let unread = VerifiedTerminalEvidence {
        required_read_satisfied_count: 0,
        ..full
    };
    assert_eq!(
        refused(&complete, &unread),
        StoreError::RequiredReadIncomplete
    );
    assert_eq!(
        refused(&complete, &evidence(None)),
        StoreError::TerminalCostMismatch
    );
    let summaryless = VerifiedTerminalEvidence {
        execution_summary_artifact_id: None,
        ..full
    };
    assert_eq!(
        refused(&complete, &summaryless),
        StoreError::InvalidProcessCommand {
            field: "execution summary evidence"
        }
    );
    let manifest_again = VerifiedTerminalEvidence {
        required_read_assertion_artifact_id: artifact(6),
        ..full
    };
    assert_eq!(
        refused(&complete, &manifest_again),
        StoreError::RequiredReadManifestMismatch
    );
}

#[test]
fn a_repeated_terminal_report_is_answered() {
    let principal = "kernel".to_owned();
    let command_id = "end-1".to_owned();
    let report = report(StopReason::Cancelled, None);
    let evidence = evidence(None);
    assert_eq!(
        admit_terminal_session(&principal, &command_id, session_id(), &report, &evidence, None),
        Ok(None)
    );
    let row = AuditRow {
        id: 61,
        operation: "session.terminal".to_owned(),
        command_fingerprint: fingerprint_terminal(session_id(), &report, &evidence)
            .as_bytes()
            .to_vec(),
        subject_kind: 6,
        subject_id: 21,
        resulting_revision: 1,
    };
    let audit = admit_terminal_session(
        &principal,
        &command_id,
        session_id(),
        &report,
        &evidence,
        Some(&row),
    )
    .unwrap()
    .unwrap();
    let finished = FinishedSessionRow {
        lifecycle: 4,
        campaign_id: 1,
        cost_state: Some(1),
        cost_micro_usd: None,
    };
    let receipt = replayed_terminal_receipt(session_id(), &audit, finished, 7).unwrap();
    assert_eq!(receipt.session_state, SessionState::Cancelled);
    assert_eq!(receipt.cost, TerminalCost::Unknown);
    assert!(receipt.was_idempotent_retry);
    let other = TerminalReport {
        report_digest: digest("other"),
        ..report
    };
    assert_ne!(
        fingerprint_terminal(session_id(), &report, &evidence),
        fingerprint_terminal(session_id(), &other, &evidence)
    );
}

fn assertion() -> RequiredReadAssertion {
    RequiredReadAssertion {
        session_id: session_id(),
        assignment_id: AssignmentId::new(2).unwrap(),
        expected_manifest_artifact_id: artifact(6),
        expected: product_packet().required_reads,
        observed_contract: None,
        satisfied_count: 1,
        canonical_bytes: b"assertion".to_vec(),
        artifact: seal("assertion"),
    }
}

fn seals() -> TerminalArtifactSeals {
    TerminalArtifactSeals {
        transcript: seal("transcript"),
        execution_summary: None,
        stdout: seal("stdout"),
        stderr: seal("stderr"),
        partial_transcript: Some(seal("transcript")),
    }
}

fn evidence_facts() -> TerminalEvidenceFacts {
    TerminalEvidenceFacts {
        packet_contract: None,
        packet_bytes_verified: true,
        assignment: Some(EvidenceAssignmentRow {
            id: 2,
            packet_artifact_id: 9,
            packet_digest: digest("packet").as_bytes().to_vec(),
            required_read_manifest_artifact_id: 6,
            campaign_id: 1,
            kernel_build_id: 5,
            application_revision_id: 3,
        }),
        packet_build_row: 5,
        manifest_digest: digest("manifest").as_bytes().to_vec(),
        manifest_content: canonical_required_manifest(&product_packet().required_reads),
        assertion_content: b"assertion".to_vec(),
        packet_artifact_row: Some(9),
        transcript_row: Some(51),
        execution_summary_row: None,
        stdout_row: Some(53),
        stderr_row: Some(54),
        partial_transcript_row: Some(51),
        assertion_row: Some(55),
    }
}

#[test]
fn terminal_evidence_is_resolved_to_registered_artifacts() {
    let verified = verify_terminal_evidence(
        session_id(),
        &product_packet(),
        seal("packet bytes"),
        &seals(),
        &assertion(),
        None,
        &evidence_facts(),
    )
    .unwrap();
    assert_eq!(verified.transcript_artifact_id, artifact(51));
    assert_eq!(verified.execution_summary_artifact_id, None);
    assert_eq!(verified.partial_transcript_artifact_id, Some(artifact(51)));
    assert_eq!(verified.required_read_expected_count, 1);
    assert_eq!(verified.required_read_satisfied_count, 1);
    assert_eq!(verified.usage, None);
}

#[test]
fn terminal_evidence_of_another_session_is_refused() {
    let refused = |change: fn(&mut RequiredReadAssertion, &mut TerminalEvidenceFacts)| {
        let mut assertion = assertion();
        let mut facts = evidence_facts();
        change(&mut assertion, &mut facts);
        verify_terminal_evidence(
            session_id(),
            &product_packet(),
            seal("packet bytes"),
            &seals(),
            &assertion,
            None,
            &facts,
        )
        .unwrap_err()
    };
    assert_eq!(
        refused(|assertion, _| assertion.session_id = SessionId::new(22).unwrap()),
        StoreError::RequiredReadManifestMismatch
    );
    assert_eq!(
        refused(|_, facts| facts.packet_bytes_verified = false),
        StoreError::InvalidPacketDigest
    );
    assert_eq!(
        refused(|_, facts| facts.assignment = None),
        StoreError::UnknownSession {
            session_id: session_id()
        }
    );
    assert_eq!(
        refused(|_, facts| facts.stdout_row = None),
        StoreError::UnregisteredTerminalArtifact
    );
    assert_eq!(
        refused(|_, facts| facts.packet_artifact_row = Some(10)),
        StoreError::PacketArtifactDigestMismatch
    );
    assert_eq!(
        refused(|_, facts| facts.packet_build_row = 6),
        StoreError::PacketIdentityMismatch
    );
    assert_eq!(
        refused(|_, facts| facts.manifest_content.clear()),
        StoreError::RequiredReadManifestMismatch
    );
    assert_eq!(
        refused(|assertion, _| assertion.expected[0].reason = "other".to_owned()),
        StoreError::RequiredReadManifestMismatch
    );
    assert_eq!(
        refused(|assertion, _| assertion.observed_contract = Some(ContractError::InvalidRequest)),
        StoreError::Contract(ContractError::InvalidRequest)
    );
    assert_eq!(
        refused(|_, facts| facts.assertion_content.clear()),
        StoreError::RequiredReadManifestMismatch
    );
}

#[test]
fn read_order_does_not_matter_to_an_assertion() {
    let mut packet = product_packet();
    packet.required_reads.push(ReadExactFile {
        path: "README.md".to_owned(),
        digest: digest("readme"),
        reason: "context".to_owned(),
    });
    let mut reversed = assertion();
    reversed.expected = packet.required_reads.iter().rev().cloned().collect();
    reversed.satisfied_count = 2;
    let mut facts = evidence_facts();
    facts.manifest_content = canonical_required_manifest(&packet.required_reads);
    let verified = verify_terminal_evidence(
        session_id(),
        &packet,
        seal("packet bytes"),
        &seals(),
        &reversed,
        None,
        &facts,
    )
    .unwrap();
    assert_eq!(verified.required_read_expected_count, 2);
}

#[test]
fn packet_bytes_are_the_sealed_ones_of_the_packet() {
    let packet = product_packet();
    let wire = wire_of(&packet);
    assert_eq!(
        verify_packet_bytes(&packet, Some(&wire), b"bytes", b"bytes"),
        Ok(())
    );
    assert_eq!(
        verify_packet_bytes(&packet, None, b"bytes", b"bytes"),
        Err(StoreError::InvalidPacketDigest)
    );
    assert_eq!(
        verify_packet_bytes(&packet, Some(&wire), b"bytes", b"other"),
        Err(StoreError::PacketArtifactDigestMismatch)
    );
    let mut other = wire.clone();
    other.target = "other".to_owned();
    assert_eq!(
        verify_packet_bytes(&packet, Some(&other), b"bytes", b"bytes"),
        Err(StoreError::PacketIdentityMismatch)
    );
}

#[test]
fn a_connection_identity_needs_the_running_session_of_its_packet() {
    let row = SessionIdentityRow {
        assignment_id: 2,
        application_revision_id: 3,
        campaign_id: 1,
        assignment_role: 0,
        lifecycle: 1,
    };
    let packet = product_packet();
    assert_eq!(
        actor_connection_identity(session_id(), Some(row), &packet),
        Ok(())
    );
    assert_eq!(
        actor_connection_identity(session_id(), None, &packet),
        Err(StoreError::UnknownSession {
            session_id: session_id()
        })
    );
    let ended = SessionIdentityRow {
        lifecycle: 2,
        ..row
    };
    assert_eq!(
        actor_connection_identity(session_id(), Some(ended), &packet),
        Err(StoreError::PacketIdentityMismatch)
    );
}

#[test]
fn registered_artifacts_keep_their_length() {
    let row = ArtifactRow {
        id: 9,
        digest: digest("bytes").as_bytes().to_vec(),
        byte_length: 5,
    };
    assert_eq!(
        registered_digest(Some(&row), artifact(9)),
        Ok(digest("bytes"))
    );
    assert_eq!(
        registered_digest(None, artifact(9)),
        Err(StoreError::UnknownArtifact {
            artifact_id: artifact(9)
        })
    );
    assert_eq!(registered_artifact(&row, seal("bytes")), Ok(seal("bytes")));
    assert_eq!(
        registered_artifact(&row, seal("longer bytes")),
        Err(StoreError::ArtifactSealChanged)
    );
}

#[test]
fn session_projections_read_their_columns() {
    let status = session_status(
        session_id(),
        Some(SessionStatusRow {
            assignment_id: 2,
            lifecycle: 2,
            revision: 1,
            cost_state: Some(0),
            cost_micro_usd: Some(9),
        }),
    )
    .unwrap();
    assert_eq!(status.state, SessionState::Succeeded);
    assert_eq!(status.cost, Some(TerminalCost::Known(MicroUsd::new(9))));
    let breakdown = session_cost_breakdown(&SessionCostRow {
        id: 21,
        assignment_id: 2,
        assignment_role: 1,
        model_provider: "provider".to_owned(),
        model_id: "model".to_owned(),
        lifecycle: 1,
        cost_state: None,
        cost_micro_usd: None,
        input_tokens: Some(3),
        output_tokens: None,
        cache_read_tokens: None,
        cache_write_tokens: None,
        reasoning_tokens: None,
        elapsed_millis: Some(12),
    })
    .unwrap();
    assert_eq!(breakdown.assignment_role, AssignmentRole::Engineering);
    assert_eq!(breakdown.usage.input_tokens, Some(3));
    assert_eq!(breakdown.usage.reported_cost_micro_usd, None);
    assert_eq!(breakdown.elapsed_millis, Some(12));
    assert_eq!(count_from_sql(Some(-1)), Err(StoreError::CorruptCostColumn));
    assert_eq!(validate_cost_page(100), Ok(()));
    assert!(validate_cost_page(0).is_err());
    assert!(validate_cost_page(101).is_err());
}

#[test]
fn cost_aggregates_are_bounded() {
    let row = SessionCostAggregateRow {
        assignment_role: 2,
        model_provider: "provider".to_owned(),
        model_id: "model".to_owned(),
        lifecycle: 3,
        session_count: 4,
        accounted_cost_micro_usd: 5,
        pending_cost_session_count: 0,
        unknown_cost_session_count: 1,
        exceeded_cost_session_count: 0,
    };
    let aggregates = campaign_session_cost_aggregates(&[row.clone()]).unwrap();
    assert_eq!(aggregates.len(), 1);
    assert_eq!(aggregates[0].session_count, 4);
    assert_eq!(aggregates[0].outcome, SessionState::Failed);
    assert_eq!(
        campaign_session_cost_aggregates(&vec![row; 19]),
        Err(StoreError::CorruptLifecycleColumn)
    );
}

#[test]
fn codes_and_costs_are_read_from_their_columns() {
    assert_eq!(stop_reason_code(StopReason::CostLimit), 8);
    assert_eq!(failure_code(StopReason::Completed), None);
    assert_eq!(db_cost(None, None), Ok(None));
    assert_eq!(db_cost(Some(1), None), Ok(Some(TerminalCost::Unknown)));
    assert_eq!(
        db_cost(Some(2), Some(3)),
        Ok(Some(TerminalCost::Exceeded(MicroUsd::new(3))))
    );
    assert_eq!(
        db_cost(Some(0), Some(-1)),
        Err(StoreError::CorruptCostColumn)
    );
    let columns = usage_sql(usage(Some(7))).unwrap();
    assert_eq!(columns.input_tokens, Some(10));
    let unstorable = UsageTotals {
        input_tokens: Some(u64::MAX),
        ..usage(None)
    };
    assert_eq!(
        usage_sql(unstorable),
        Err(StoreError::InvalidProcessCommand {
            field: "usage total"
        })
    );
}

fn recovery_row() -> RecoveryRow {
    RecoveryRow {
        id: 21,
        revision: 0,
        assignment_id: 2,
        campaign_id: 1,
        kernel_build_id: 5,
        application_revision_id: 3,
        session_assignment_role: 0,
        session_model_provider: "provider".to_owned(),
        session_model_id: "model".to_owned(),
        session_thinking_level: 3,
        session_input_price: 1,
        session_output_price: 2,
        session_cache_read_price: 3,
        session_cache_write_price: 4,
        pid: 400,
        pgid: 400,
        process_started_at_unix_millis: 1_000,
        assignment_assignment_role: 0,
        target: "discover".to_owned(),
        packet_artifact_id: 9,
        packet_digest: digest("packet").as_bytes().to_vec(),
        system_prompt_artifact_id: 4,
        assignment_prompt_artifact_id: 5,
        required_read_manifest_artifact_id: 6,
        assignment_model_provider: "provider".to_owned(),
        assignment_model_id: "model".to_owned(),
        assignment_thinking_level: 3,
        assignment_input_price: 1,
        assignment_output_price: 2,
        assignment_cache_read_price: 3,
        assignment_cache_write_price: 4,
        packet_artifact_digest: digest("packet bytes").as_bytes().to_vec(),
        packet_artifact_byte_length: 12,
        kernel_build_digest: digest("build").as_bytes().to_vec(),
    }
}

#[test]
fn a_recovered_session_is_rebuilt_from_its_packet() {
    let contract = WireContract {
        required_read_path: None,
        evidence_role: None,
        policy_entrypoint: true,
        workspace_root: None,
        staging_root: None,
        host_executable: None,
        packet: None,
    };
    let wire = wire_of(&product_packet());
    let recover = |row: &RecoveryRow| {
        let bytes = b"packet bytes".to_vec();
        restart_recovery_session(row, seal("packet bytes"), bytes, Some(&wire), &contract)
    };
    let session = recover(&recovery_row()).unwrap();
    assert_eq!(session.session_id, session_id());
    assert_eq!(session.custody.pid, 400);
    assert_eq!(session.packet, product_packet());
    assert_eq!(session.canonical_packet_bytes, b"packet bytes");
    let mut repriced = recovery_row();
    repriced.session_output_price = 3;
    assert!(matches!(
        recover(&repriced),
        Err(StoreError::PacketIdentityMismatch)
    ));
    let mut corrupt = recovery_row();
    corrupt.assignment_input_price = -1;
    assert!(matches!(
        recover(&corrupt),
        Err(StoreError::CorruptCostColumn)
    ));
    let mut unsigned = recovery_row();
    unsigned.pid = -1;
    assert!(matches!(
        recover(&unsigned),
        Err(StoreError::InvalidProcessCommand {
            field: "persisted PID"
        })
    ));
    assert!(matches!(
        restart_recovery_session(
            &recovery_row(),
            seal("packet bytes"),
            b"packet bytes".to_vec(),
            None,
            &contract
        ),
        Err(StoreError::InvalidPacketDigest)
    ));
}
