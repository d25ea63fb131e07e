//! The requests of a running session on concrete values.

use factory_kernel::base64::base64_encode;
use factory_kernel::digest::ContentDigest;
use factory_kernel::evidence_closure::{
    admit_artifact_read, artifact_content, engineering_evidence, engineering_target,
    extend_rework_candidate_closure, extend_ticket_proposal_closure, proposal_artifact_references,
    quality_evidence, quality_target, quality_ticket_proposal_artifact, read_assignment_artifact,
    EngineeringEvidenceRow, ProposalReferences, ARTIFACT_READ_MAX_BYTES,
};
use factory_kernel::identity::{
    AggregateRevision, ApplicationRevisionId, ArtifactId, AssignmentId, CampaignId, CasArtifact,
    ContractError, KernelBuildId, SessionId, TicketAttemptId,
};
use factory_kernel::packet::{
    AssignmentEvidence, AssignmentPacket, ModelProfile, ReadExactFile, RuntimeIdentity,
    SessionLimits,
};
use factory_kernel::protocol::{
    AssignmentRole, MicroUsd, StopReason, TerminalOperation, ThinkingLevel,
};
use factory_kernel::session_rpc::{
    admit_mutation, admit_product_ticket, admit_seal_artifact, admit_seal_workspace_file,
    artifact_receipt_response, dispatch_response, forum_tool_name, hard_validation_rejection,
    parse_stop_reason, register_transcript, require_no_prior_full_suite, route_operation,
    submit_terminal, verify_binding, verify_packet, workspace_read_response, ActorBinding,
    CandidateQualityAuthorityResolutionError, DispatchFault, Mutation, RegisteredSessionArtifact,
    Reply, RequiredReads, RpcError, SessionOperation, SessionRpcState, TerminalRequest,
    VerifyPacketRequest, WorkspaceReadFault,
};
use factory_kernel::session_state::{EngineeringSessionState, QualitySessionState, RecoveredQuality};

fn packet() -> AssignmentPacket {
    AssignmentPacket {
        format_version: 1,
        campaign_id: CampaignId::new(1).unwrap(),
        assignment_id: AssignmentId::new(2).unwrap(),
        kernel_build_id: KernelBuildId::new(ContentDigest::of_bytes(b"build")),
        application_revision_id: ApplicationRevisionId::new(3).unwrap(),
        assignment_role: AssignmentRole::Engineering,
        target: "test".to_owned(),
        ticket_attempt_id: Some(TicketAttemptId::new(1).unwrap()),
        candidate_id: None,
        system_prompt_artifact_id: ArtifactId::new(4).unwrap(),
        assignment_prompt_artifact_id: ArtifactId::new(5).unwrap(),
        required_read_manifest_artifact_id: ArtifactId::new(6).unwrap(),
        policy_digest: ContentDigest::of_bytes(b"policy"),
        policy_byte_limit: 6,
        policy_bytes: b"policy".to_vec(),
        policy_entrypoint: "policy".to_owned(),
        workspace_root: "/tmp/workspace".to_owned(),
        staging_root: "/tmp/staging".to_owned(),
        model: ModelProfile {
            provider: "test".to_owned(),
            model_id: "test-model".to_owned(),
            thinking_level: ThinkingLevel::NoThinking,
            context_token_limit: 1,
            output_token_limit: 1,
            price_input_micro_usd_per_million_tokens: MicroUsd::new(1),
            price_output_micro_usd_per_million_tokens: MicroUsd::new(1),
            price_cache_read_micro_usd_per_million_tokens: MicroUsd::new(1),
            price_cache_write_micro_usd_per_million_tokens: MicroUsd::new(1),
            capability_flags: Vec::new(),
        },
        limits: SessionLimits {
            wall_limit_millis: 1,
            output_byte_limit: 1,
        },
        runtime: RuntimeIdentity {
            host_executable: "/opt/deno".to_owned(),
            core_head: "test".to_owned(),
            core_source_digest: ContentDigest::of_bytes(b"graph"),
            rust_toolchain: "test".to_owned(),
            credential_env: "TEST".to_owned(),
        },
        required_reads: vec![ReadExactFile {
            path: "AGENTS.md".to_owned(),
            digest: ContentDigest::of_bytes(b"read"),
            reason: "test".to_owned(),
        }],
        assignment_evidence: vec![AssignmentEvidence {
            role: "ticket_proposal".to_owned(),
            artifact_id: ArtifactId::new(7).unwrap(),
            digest: ContentDigest::of_bytes(b"proposal"),
            byte_length: 8,
        }],
        terminal_operations: vec![TerminalOperation::WorkComplete],
        remaining_campaign_allowance: MicroUsd::new(1),
        revision: AggregateRevision::initial(),
        packet_digest: ContentDigest::of_bytes(b"fixture packet"),
    }
}


fn artifact(value: i64) -> ArtifactId {
    ArtifactId::new(value).unwrap()
}

fn tools(names: &[&str]) -> Vec<String> {
    names.iter().map(|name| (*name).to_owned()).collect()
}

fn revision(value: u64) -> AggregateRevision {
    AggregateRevision::from_persisted(value)
}

#[test]
fn operations_are_routed_by_name_and_forum_tools_by_grant() {
    let none = tools(&[]);
    assert_eq!(
        route_operation("candidate.submit", &none),
        Ok(SessionOperation::SubmitCandidate)
    );
    assert_eq!(
        route_operation("session.submit_terminal", &none),
        Ok(SessionOperation::SubmitTerminal)
    );
    let tool = forum_tool_name("forum.post").unwrap();
    assert_eq!(
        route_operation("forum.post", &none).unwrap_err().detail,
        "Forum operation is not assigned"
    );
    assert_eq!(
        route_operation("forum.post", &tools(&[tool])),
        Ok(SessionOperation::Forum { tool })
    );
    assert_eq!(
        route_operation("campaign.cancel", &none).unwrap_err().detail,
        "operation is outside session authority"
    );
    assert_eq!(forum_tool_name("workspace.read"), None);
}

#[test]
fn an_actor_is_bound_to_its_packet() {
    let packet = packet();
    let binding = ActorBinding {
        session_id: SessionId::new(9).unwrap(),
        assignment_id: packet.assignment_id,
        application_revision_id: packet.application_revision_id,
        campaign_id: packet.campaign_id,
        assignment_role: packet.assignment_role,
    };
    let session_id = SessionId::new(9).unwrap();
    assert_eq!(verify_binding(&binding, session_id, &packet), Ok(()));
    assert!(verify_binding(&binding, SessionId::new(8).unwrap(), &packet).is_err());
    let mut other = binding;
    other.assignment_role = AssignmentRole::Quality;
    assert!(verify_binding(&other, session_id, &packet).is_err());
}

#[test]
fn a_mutation_passes_office_packet_and_read_gates_in_order() {
    let granted = tools(&["candidate_submit"]);
    let answer = |role, tools: &Vec<String>, verified, reads| {
        admit_mutation(Mutation::SubmitCandidate, role, tools, verified, reads)
    };
    let engineering = AssignmentRole::Engineering;
    assert_eq!(
        answer(engineering, &granted, true, RequiredReads::Satisfied),
        Ok(())
    );
    let detail = |result: Result<(), factory_kernel::session_rpc::RpcRefusal>| {
        result.unwrap_err().detail
    };
    assert_eq!(
        detail(answer(
            AssignmentRole::Quality,
            &granted,
            true,
            RequiredReads::Satisfied
        )),
        "Engineering candidate submission is not assigned to this office"
    );
    assert_eq!(
        detail(answer(engineering, &tools(&[]), true, RequiredReads::Satisfied)),
        "Engineering candidate submission is not assigned to this office"
    );
    assert_eq!(
        detail(answer(engineering, &granted, false, RequiredReads::Satisfied)),
        "packet has not been verified"
    );
    assert_eq!(
        detail(answer(engineering, &granted, true, RequiredReads::Poisoned)),
        "required-read authority is poisoned"
    );
    assert_eq!(
        detail(answer(engineering, &granted, true, RequiredReads::Unavailable)),
        "required-read authority is unavailable"
    );
    assert_eq!(
        detail(answer(engineering, &granted, true, RequiredReads::Incomplete)),
        "all assigned exact reads are required before mutation"
    );
}

#[test]
fn a_product_ticket_is_revision_fenced() {
    let granted = tools(&["product_submit_ticket"]);
    let answer = |expected| {
        admit_product_ticket(
            AssignmentRole::ProductResearch,
            &granted,
            true,
            RequiredReads::Satisfied,
            expected,
            revision(3),
        )
    };
    assert_eq!(answer(3), Ok(()));
    assert_eq!(answer(2).unwrap_err().detail, "session revision is stale");
}

#[test]
fn unsound_packet_submissions_leave_the_packet_unverified() {
    let packet = packet();
    let bytes = b"{}".to_vec();
    let mut verified = false;
    let mut refused = |request: VerifyPacketRequest| {
        let result = verify_packet(&request, &bytes, &packet, None, &bytes, &mut verified);
        assert!(!verified);
        result.unwrap_err()
    };
    let request = VerifyPacketRequest {
        request_id: "r".to_owned(),
        packet_digest: packet.packet_digest.to_hex(),
        packet_bytes_b64: base64_encode(b"{}"),
    };
    let detail = |error: RpcError| match error {
        RpcError::Refused(refusal) => refusal.detail,
        other => panic!("{other:?}"),
    };
    let mut unreadable = request.clone();
    unreadable.packet_digest.pop();
    assert_eq!(detail(refused(unreadable)), "packet digest is invalid");
    let mut different = request.clone();
    different.packet_bytes_b64 = base64_encode(b"[]");
    assert_eq!(
        detail(refused(different)),
        "packet bytes differ from daemon admission"
    );
    let mut garbled = request.clone();
    garbled.packet_bytes_b64 = "e30".to_owned();
    assert!(matches!(refused(garbled), RpcError::Refused(_)));
    assert!(matches!(refused(request), RpcError::Store(_)));
}

#[test]
fn only_the_transcript_is_sealed_from_staging() {
    let seal = |verified, expected, role, limit, path_valid| {
        admit_seal_artifact(verified, expected, role, limit, revision(1), 100, path_valid)
    };
    assert_eq!(seal(true, 1, "pi_transcript_gzip", 100, true), Ok(()));
    assert!(seal(false, 1, "pi_transcript_gzip", 100, true).is_err());
    for (expected, role, limit) in [
        (2, "pi_transcript_gzip", 100),
        (1, "stdout", 100),
        (1, "pi_transcript_gzip", 0),
        (1, "pi_transcript_gzip", 101),
    ] {
        assert_eq!(
            seal(true, expected, role, limit, true).unwrap_err().detail,
            "revision, role, or byte limit is outside assignment authority"
        );
    }
    assert_eq!(
        seal(true, 1, "pi_transcript_gzip", 1, false)
            .unwrap_err()
            .detail,
        "staging path is invalid"
    );
    let workspace = |names: &[&str], limit, path_valid| {
        admit_seal_workspace_file(&tools(names), true, 1, limit, revision(1), 100, path_valid)
    };
    let granted = ["artifact_seal"];
    assert_eq!(workspace(&granted, 100, true), Ok(()));
    assert_eq!(
        workspace(&[], 100, true).unwrap_err().detail,
        "artifact sealing is not assigned"
    );
    assert_eq!(
        workspace(&granted, 101, true).unwrap_err().detail,
        "revision or byte limit is outside assignment authority"
    );
    assert_eq!(
        workspace(&granted, 1, false).unwrap_err().detail,
        "workspace path is invalid"
    );
}

fn transcript(text: &[u8]) -> RegisteredSessionArtifact {
    RegisteredSessionArtifact {
        seal: CasArtifact {
            digest: ContentDigest::of_bytes(text),
            byte_length: text.len() as u64,
        },
        artifact_id: artifact(30),
    }
}

#[test]
fn a_session_has_one_transcript() {
    let mut registered = None;
    assert_eq!(register_transcript(&mut registered, transcript(b"a")), Ok(()));
    assert_eq!(register_transcript(&mut registered, transcript(b"a")), Ok(()));
    assert_eq!(
        register_transcript(&mut registered, transcript(b"b"))
            .unwrap_err()
            .detail,
        "a different transcript was already sealed"
    );
    assert_eq!(registered, Some(transcript(b"a")));
    let receipt = artifact_receipt_response(
        &"r".to_owned(),
        "session.seal_artifact",
        &transcript(b"a"),
        revision(4),
    );
    assert_eq!(receipt.artifact_id, 30);
    assert_eq!(receipt.digest, ContentDigest::of_bytes(b"a").to_hex());
    assert_eq!(receipt.byte_length, 1);
    assert_eq!(receipt.aggregate_revision, 4);
}

fn terminal() -> TerminalRequest {
    TerminalRequest {
        request_id: "r".to_owned(),
        client_command_id: "c".to_owned(),
        expected_revision: 1,
        terminal_operation: Some("work_complete".to_owned()),
        stop_reason: "completed".to_owned(),
        terminal_payload_b64: base64_encode(b"payload"),
        transcript_artifact_id: 30,
        input_tokens: Some(1),
        output_tokens: None,
        cache_read_tokens: None,
        cache_write_tokens: None,
        reasoning_tokens: None,
        reported_cost_micro_usd: Some(2),
    }
}

fn ready() -> SessionRpcState<u8, u8, u8, u8> {
    let mut state = SessionRpcState::default();
    state.packet_verified = true;
    state.transcript = Some(transcript(b"a"));
    state
}

#[test]
fn a_session_ends_with_one_request() {
    let mut state = ready();
    assert_eq!(submit_terminal(&mut state, terminal(), revision(1), 7), Ok(()));
    assert_eq!(state.terminal_request, Some(terminal()));
    assert_eq!(submit_terminal(&mut state, terminal(), revision(1), 7), Ok(()));
    let mut other = terminal();
    other.reported_cost_micro_usd = None;
    assert_eq!(
        submit_terminal(&mut state, other, revision(1), 7)
            .unwrap_err()
            .detail,
        "a different terminal request already exists"
    );
    assert_eq!(state.terminal_request, Some(terminal()));
}

#[test]
fn unsound_terminal_requests_are_refused_and_change_nothing() {
    let refused = |change: fn(&mut SessionRpcState<u8, u8, u8, u8>, &mut TerminalRequest)| {
        let mut state = ready();
        let mut request = terminal();
        change(&mut state, &mut request);
        let before = state.clone();
        let refusal = submit_terminal(&mut state, request, revision(1), 7).unwrap_err();
        assert_eq!(state, before);
        refusal.detail
    };
    assert_eq!(
        refused(|state, _| state.packet_verified = false),
        "packet has not been verified"
    );
    assert_eq!(
        refused(|_, request| request.expected_revision = 0),
        "session revision is stale"
    );
    assert_eq!(
        refused(|_, request| request.terminal_payload_b64 = base64_encode(b"too long")),
        "terminal payload exceeds its bound"
    );
    assert_eq!(
        refused(|_, request| request.stop_reason = "cost_limit".to_owned()),
        "stop reason is unknown"
    );
    assert_eq!(
        refused(|_, request| request.terminal_operation = Some("other".to_owned())),
        "operation is unknown"
    );
    assert_eq!(
        refused(|_, request| request.terminal_operation = None),
        "operation and stop reason disagree"
    );
    assert_eq!(
        refused(|_, request| request.stop_reason = "cancelled".to_owned()),
        "operation and stop reason disagree"
    );
    assert_eq!(
        refused(|_, request| request.terminal_operation = Some("candidate_submit".to_owned())),
        "candidate terminal completion requires this session's candidate submission"
    );
    assert_eq!(
        refused(|_, request| request.terminal_operation = Some("quality_submit_review".to_owned())),
        "Quality terminal completion requires this session's review submission"
    );
    assert_eq!(
        refused(|state, _| state.transcript = None),
        "transcript is not sealed"
    );
    assert_eq!(
        refused(|_, request| request.transcript_artifact_id = 31),
        "transcript artifact identity does not match"
    );
}

#[test]
fn own_work_lets_a_session_complete() {
    let mut state = ready();
    state.engineering.begin_checkpoint().unwrap();
    state.engineering.accept_checkpoint(1, 2);
    assert_eq!(state.engineering.begin_submission(), Ok((1, 2)));
    state.engineering.complete_submission();
    assert!(state.engineering.begin_submission().is_err());
    assert!(state.engineering.begin_checkpoint().is_err());
    let mut request = terminal();
    request.terminal_operation = Some("candidate_submit".to_owned());
    assert_eq!(submit_terminal(&mut state, request, revision(1), 7), Ok(()));
}

#[test]
fn an_abandoned_submission_can_be_tried_again() {
    let mut state = EngineeringSessionState::<u8, u8>::default();
    state.begin_checkpoint().unwrap();
    state.accept_checkpoint(1, 2);
    state.begin_submission().unwrap();
    assert!(state.begin_submission().is_err());
    state.abandon_submission();
    assert_eq!(state.begin_submission(), Ok((1, 2)));
}

#[test]
fn a_review_uses_its_own_or_a_recovered_full_suite() {
    let mut state = QualitySessionState::<u8, u8>::default();
    state.begin_full_suite().unwrap();
    assert_eq!(
        state.begin_review(None),
        Err("the Quality session full suite is still running")
    );
    state.accept_full_suite(3, 4);
    assert!(!state.needs_recovery());
    assert_eq!(state.begin_review(None), Ok((3, 4)));
    state.abandon_review();
    assert_eq!(state.begin_review(None), Ok((3, 4)));
    state.complete_review();
    assert_eq!(
        state.begin_review(None),
        Err("the Quality session already submitted its review")
    );
    let mut fresh = QualitySessionState::<u8, u8>::default();
    assert!(fresh.needs_recovery());
    assert_eq!(
        fresh.begin_review(Some(RecoveredQuality {
            authority: 3,
            prior_full_suite: None,
        })),
        Err("this Quality assignment has no persisted passed full-suite receipt to review")
    );
    assert_eq!(
        fresh.begin_review(Some(RecoveredQuality {
            authority: 3,
            prior_full_suite: Some(5),
        })),
        Ok((3, 5))
    );
}

#[test]
fn rejection_texts_are_exact() {
    assert_eq!(
        hard_validation_rejection("failed", 12, 40),
        "hard candidate validation is failed (candidate 12, validation 40)"
    );
    assert_eq!(
        CandidateQualityAuthorityResolutionError::Unavailable.message(),
        "the trusted Candidate/Quality authority resolver is not configured"
    );
    assert_eq!(
        CandidateQualityAuthorityResolutionError::Precondition {
            message: "no build".to_owned(),
        }
        .message(),
        "the requested Candidate/Quality authority is not resolvable: no build"
    );
    assert!(require_no_prior_full_suite(false).is_ok());
    assert!(require_no_prior_full_suite(true).is_err());
    assert_eq!(parse_stop_reason("nonzero_exit"), Some(StopReason::NonZeroExit));
    assert_eq!(parse_stop_reason("Completed"), None);
}

#[test]
fn refusals_are_answered_and_faults_end_the_session() {
    let reply = dispatch_response::<u8>(
        "r".to_owned(),
        "artifact.read".to_owned(),
        Err(DispatchFault::Refused {
            message: "no".to_owned(),
        }),
    );
    match reply {
        Ok(Reply::Rejection(error)) => {
            assert_eq!(error.request_id, "r");
            assert_eq!(error.operation, "artifact.read");
            assert_eq!(error.error_code, "session_rejected");
            assert_eq!(error.message, "no");
        }
        other => panic!("{other:?}"),
    }
    assert_eq!(
        dispatch_response("r".to_owned(), "o".to_owned(), Err(DispatchFault::Fatal(7))),
        Err(7)
    );
    assert_eq!(
        dispatch_response::<u8>("r".to_owned(), "o".to_owned(), Ok(vec![1])),
        Ok(Reply::Frame(vec![1]))
    );
    assert!(workspace_read_response(
        "r".to_owned(),
        "workspace.read".to_owned(),
        Err(WorkspaceReadFault::ConnectionIdentityMismatch),
    )
    .is_err());
}

#[test]
fn artifact_reads_are_granted_bounded_and_exact() {
    let granted = tools(&["artifact_read"]);
    let digest = ContentDigest::of_bytes(b"proposal");
    assert_eq!(
        admit_artifact_read(&granted, true, 7, &digest.to_hex()),
        Ok((artifact(7), digest))
    );
    let detail = |names: &[&str], verified, id, digest: &str| {
        admit_artifact_read(&tools(names), verified, id, digest)
            .unwrap_err()
            .detail
    };
    let hex = digest.to_hex();
    assert_eq!(detail(&[], true, 7, &hex), "artifact reading is not assigned");
    assert_eq!(
        detail(&["artifact_read"], false, 7, &hex),
        "packet has not been verified"
    );
    assert_eq!(detail(&["artifact_read"], true, 0, &hex), "artifact ID is invalid");
    assert_eq!(
        detail(&["artifact_read"], true, 7, "zz"),
        "expected digest is invalid"
    );
    let mut packet = packet();
    let sealed = CasArtifact {
        digest,
        byte_length: 8,
    };
    let closure = vec![artifact(7)];
    assert_eq!(
        read_assignment_artifact(&packet, artifact(7), digest, sealed, &closure),
        Ok(())
    );
    packet.assignment_evidence[0].byte_length = ARTIFACT_READ_MAX_BYTES + 1;
    assert_eq!(
        read_assignment_artifact(
            &packet,
            artifact(7),
            digest,
            CasArtifact {
                digest,
                byte_length: ARTIFACT_READ_MAX_BYTES + 1,
            },
            &closure,
        )
        .unwrap_err()
        .detail,
        "artifact exceeds the bounded assignment read limit"
    );
    let content = artifact_content(&"r".to_owned(), artifact(7), sealed, b"proposal");
    assert_eq!(content.artifact_id, 7);
    assert_eq!(content.content_base64, "cHJvcG9zYWw=");
}

#[test]
fn engineering_closures_name_the_ticket_evidence() {
    let row = EngineeringEvidenceRow {
        stage: 4,
        proposal_artifact_id: 1,
        reproducer_artifact_id: 2,
        expected_observation_artifact_id: 3,
        discovery_observation_artifact_id: 1,
    };
    let mut evidence = engineering_evidence(Some(row)).unwrap();
    assert!(evidence.rework);
    assert_eq!(evidence.proposal, artifact(1));
    assert_eq!(evidence.closure, [artifact(1), artifact(2), artifact(3)]);
    let references = proposal_artifact_references(&ProposalReferences {
        narrative: artifact(10),
        evidence: artifact(11),
        command: artifact(12),
        expected_stdout: artifact(13),
        expected_stderr: artifact(14),
        first_stdout: artifact(15),
        first_stderr: artifact(16),
        second_stdout: artifact(17),
        second_stderr: artifact(18),
        stdin: Some(artifact(19)),
    });
    extend_ticket_proposal_closure(&mut evidence.closure, &references);
    for value in 10..20 {
        assert!(evidence.closure.contains(&artifact(value)));
    }
    extend_rework_candidate_closure(&mut evidence.closure, &vec![Some(20), Some(2)]).unwrap();
    assert_eq!(evidence.closure.len(), 14);
    assert!(extend_rework_candidate_closure(&mut evidence.closure, &Vec::new()).is_err());
    assert!(extend_rework_candidate_closure(&mut evidence.closure, &vec![None]).is_err());
    assert_eq!(evidence.closure.len(), 14);
    let broken = vec![Some(21), None, Some(22)];
    assert!(extend_rework_candidate_closure(&mut evidence.closure, &broken).is_err());
    assert!(evidence.closure.contains(&artifact(21)));
    assert!(!evidence.closure.contains(&artifact(22)));
    assert!(engineering_evidence(None).is_err());
    assert_eq!(
        engineering_evidence(Some(EngineeringEvidenceRow {
            stage: 0,
            reproducer_artifact_id: 0,
            ..row
        }))
        .err(),
        Some(RpcError::Contract {
            operation: "artifact.read",
            fault: ContractError::NonPositiveIdentity,
        })
    );
}

#[test]
fn quality_closures_name_the_candidate_evidence() {
    assert_eq!(
        quality_evidence(&vec![Some(1), Some(2), Some(1)]).unwrap(),
        [artifact(1), artifact(2)]
    );
    assert!(quality_evidence(&Vec::new()).is_err());
    assert!(quality_evidence(&vec![Some(1), None]).is_err());
    assert_eq!(quality_ticket_proposal_artifact(Some(5)).unwrap(), artifact(5));
    assert!(quality_ticket_proposal_artifact(None).is_err());
    let packet = packet();
    assert_eq!(engineering_target(&packet), Ok(TicketAttemptId::new(1).unwrap()));
    assert!(quality_target(&packet).is_err());
}
