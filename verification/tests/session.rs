//! A session's requests, launch and end on concrete values.

use factory_kernel::base64::{base64_encode, decode_base64};
use factory_kernel::digest::ContentDigest;
use factory_kernel::evidence_closure::{
    require_current_assignment_evidence_closure, require_packet_evidence_reference,
};
use factory_kernel::identity::{
    AggregateRevision, ApplicationRevisionId, ArtifactId, AssignmentId, CampaignId, KernelBuildId,
    SessionId, TicketAttemptId,
};
use factory_kernel::packet::{
    AssignmentEvidence, AssignmentPacket, ModelProfile, ReadExactFile, RuntimeIdentity,
    SessionLimits,
};
use factory_kernel::process_custody::ProcessStopReason;
use factory_kernel::protocol::{
    AssignmentRole, MicroUsd, StopReason, TerminalOperation, ThinkingLevel,
};
use factory_kernel::session_rpc::{
    require_candidate_quality_runtime, workspace_read_response, Reply, SessionRpcState,
    WorkspaceReadFault, OP_WORKSPACE_READ,
};
use factory_kernel::session_runtime::{
    admission_line, infrastructure_stop_reason, SessionRuntimeError, SessionTransportStop,
};
use factory_kernel::session_state::{EngineeringSessionState, QualitySessionState};

fn packet() -> AssignmentPacket {
    AssignmentPacket {
        format_version: 1,
        campaign_id: CampaignId::new(1).unwrap(),
        assignment_id: AssignmentId::new(2).unwrap(),
        kernel_build_id: KernelBuildId::new(ContentDigest::of_bytes(b"build")),
        application_revision_id: ApplicationRevisionId::new(3).unwrap(),
        assignment_role: AssignmentRole::Engineering,
        target: "test".to_owned(),
        ticket_attempt_id: Some(TicketAttemptId::new(1).unwrap()),
        candidate_id: None,
        system_prompt_artifact_id: ArtifactId::new(4).unwrap(),
        assignment_prompt_artifact_id: ArtifactId::new(5).unwrap(),
        required_read_manifest_artifact_id: ArtifactId::new(6).unwrap(),
        policy_digest: ContentDigest::of_bytes(b"policy"),
        policy_byte_limit: 6,
        policy_bytes: b"policy".to_vec(),
        policy_entrypoint: "policy".to_owned(),
        workspace_root: "/tmp/workspace".to_owned(),
        staging_root: "/tmp/staging".to_owned(),
        model: ModelProfile {
            provider: "test".to_owned(),
            model_id: "test-model".to_owned(),
            thinking_level: ThinkingLevel::NoThinking,
            context_token_limit: 1,
            output_token_limit: 1,
            price_input_micro_usd_per_million_tokens: MicroUsd::new(1),
            price_output_micro_usd_per_million_tokens: MicroUsd::new(1),
            price_cache_read_micro_usd_per_million_tokens: MicroUsd::new(1),
            price_cache_write_micro_usd_per_million_tokens: MicroUsd::new(1),
            capability_flags: Vec::new(),
        },
        limits: SessionLimits {
            wall_limit_millis: 1,
            output_byte_limit: 1,
        },
        runtime: RuntimeIdentity {
            host_executable: "/opt/deno".to_owned(),
            core_head: "test".to_owned(),
            core_source_digest: ContentDigest::of_bytes(b"graph"),
            rust_toolchain: "test".to_owned(),
            credential_env: "TEST".to_owned(),
        },
        required_reads: vec![ReadExactFile {
            path: "AGENTS.md".to_owned(),
            digest: ContentDigest::of_bytes(b"read"),
            reason: "test".to_owned(),
        }],
        assignment_evidence: vec![AssignmentEvidence {
            role: "ticket_proposal".to_owned(),
            artifact_id: ArtifactId::new(7).unwrap(),
            digest: ContentDigest::of_bytes(b"proposal"),
            byte_length: 8,
        }],
        terminal_operations: vec![TerminalOperation::WorkComplete],
        remaining_campaign_allowance: MicroUsd::new(1),
        revision: AggregateRevision::initial(),
        packet_digest: ContentDigest::of_bytes(b"fixture packet"),
    }
}

#[test]
fn startup_line_is_exact_and_canonical_base64() {
    let packet = packet();
    let line = admission_line::<()>(
        packet.assignment_id,
        SessionId::new(7).unwrap(),
        AggregateRevision::initial(),
        packet.packet_digest,
        b"{}",
        4096,
    )
    .unwrap();
    assert_eq!(line.last(), Some(&b'\n'));
    let text = std::str::from_utf8(&line).unwrap();
    assert!(text.contains("\"type\":\"session.admitted\""));
    assert!(text.contains("\"assignment_id\":\"2\""));
    assert!(text.contains("\"packet_b64\":\"e30=\""));
    assert!(text.contains("\"session_id\":7"));
}

#[test]
fn base64_encoder_handles_utf8_and_padding() {
    assert_eq!(base64_encode("\u{2713}".as_bytes()), "4pyT");
    assert_eq!(base64_encode(b"a"), "YQ==");
    assert_eq!(base64_encode(b"ab"), "YWI=");
    assert_eq!(base64_encode(b"abc"), "YWJj");
    assert_eq!(decode_base64("YQ==").unwrap(), b"a");
    assert_eq!(decode_base64("YWI=").unwrap(), b"ab");
    assert!(decode_base64("YR==").is_err());
    assert!(decode_base64("YWJ=").is_err());
    assert!(decode_base64("Y=Jj").is_err());
}

#[test]
fn engineering_submission_requires_the_session_owned_checkpoint() {
    let mut state = EngineeringSessionState::<u8, u8>::default();
    assert!(matches!(
        state.begin_submission(),
        Err("an accepted regression checkpoint is required before candidate submission")
    ));
    assert!(!state.submission_in_flight);

    state.begin_checkpoint().expect("first checkpoint begins");
    assert_eq!(
        state.begin_checkpoint(),
        Err("the Engineering session already has a regression checkpoint or candidate submission")
    );
    state.abandon_checkpoint();
    assert!(!state.checkpoint_in_flight);
}

#[test]
fn quality_review_requires_the_session_owned_full_suite() {
    let mut state = QualitySessionState::<u8, u8>::default();
    assert!(matches!(
        state.begin_review(None),
        Err("this session must run its kernel-owned full suite before review submission")
    ));
    assert!(!state.review_in_flight);

    state.begin_full_suite().expect("first full suite begins");
    assert_eq!(
        state.begin_full_suite(),
        Err("the Quality session already has a full-suite receipt or review submission")
    );
    state.abandon_full_suite();
    assert!(!state.full_suite_in_flight);
}

#[test]
fn unavailable_candidate_quality_authority_rejects_before_session_mutation() {
    let state = SessionRpcState::<u8, u8, u8, u8>::default();
    assert!(require_candidate_quality_runtime::<u8>(None).is_err());
    assert!(!state.engineering.checkpoint_in_flight);
    assert!(!state.engineering.submission_in_flight);
    assert!(!state.quality.full_suite_in_flight);
    assert!(!state.quality.review_in_flight);
}

#[test]
fn artifact_read_requires_packet_identity_and_current_durable_closure() {
    let packet = packet();
    let reference = &packet.assignment_evidence[0];
    let expected_id = reference.artifact_id;
    let expected_digest = reference.digest;

    require_packet_evidence_reference(
        &packet,
        expected_id,
        expected_digest,
        expected_digest,
        reference.byte_length,
    )
    .expect("exact packet reference is accepted");
    assert!(require_packet_evidence_reference(
        &packet,
        ArtifactId::new(8).unwrap(),
        expected_digest,
        expected_digest,
        reference.byte_length,
    )
    .is_err());
    assert!(require_packet_evidence_reference(
        &packet,
        expected_id,
        ContentDigest::of_bytes(b"wrong digest"),
        expected_digest,
        reference.byte_length,
    )
    .is_err());
    assert!(require_packet_evidence_reference(
        &packet,
        expected_id,
        expected_digest,
        expected_digest,
        reference.byte_length + 1,
    )
    .is_err());

    let closure = vec![expected_id];
    require_current_assignment_evidence_closure(&closure, expected_id)
        .expect("current stage retains named reference");
    assert!(require_current_assignment_evidence_closure(&Vec::new(), expected_id).is_err());
}

#[test]
fn rejected_workspace_read_is_a_response_and_later_reads_can_continue() {
    let rejected = workspace_read_response(
        "missing-read".to_owned(),
        OP_WORKSPACE_READ.to_owned(),
        Err(WorkspaceReadFault::Rejected {
            message: "canonicalize workspace file missing.xsh: entity not found".to_owned(),
        }),
    )
    .expect("a missing path is a framed actor response");
    let error = match rejected {
        Reply::Rejection(error) => error,
        Reply::Frame(_) => panic!("a missing path is no answer of the operation"),
    };
    assert_eq!(error.request_id, "missing-read");
    assert_eq!(error.operation, OP_WORKSPACE_READ);
    assert_eq!(error.error_code, "workspace_read_rejected");

    let successful = br#"{"operation":"workspace.read","request_id":"next"}"#.to_vec();
    assert_eq!(
        workspace_read_response(
            "next".to_owned(),
            OP_WORKSPACE_READ.to_owned(),
            Ok(successful.clone()),
        )
        .expect("the same dispatcher remains usable"),
        Reply::Frame(successful)
    );
}

#[test]
fn initiating_transport_failure_is_not_mislabeled_as_actor_cancellation() {
    assert_eq!(
        infrastructure_stop_reason(
            ProcessStopReason::Cancelled,
            SessionTransportStop::TransportFailed,
        ),
        StopReason::ProtocolError,
    );
    assert_eq!(
        infrastructure_stop_reason(
            ProcessStopReason::Cancelled,
            SessionTransportStop::PeerDisconnected,
        ),
        StopReason::Cancelled,
    );
}
