//! Stored codes and their names.

use factory_kernel::error::StoreError;
use factory_kernel::identity::{
    AggregateRevision, CampaignId, ExpectedRevision, ArtifactId, OfficeId, PublicationId,
    TicketRevisionId,
};
use factory_kernel::packet::{host_tool_ok, parse_terminal_operation, role_of, thinking_of};
use factory_kernel::protocol::{
    assignment_role_code, assignment_role_from_code, assignment_role_name, assignment_state_code,
    campaign_state_from_code, db_cost, failure_code, operation_mask, operation_mask_one,
    session_state, session_state_code, session_state_from_code, stop_reason_code,
    terminal_operation_code, terminal_operation_name, thinking_code, thinking_name,
    AssignmentRole, CampaignState, MicroUsd, SessionState, StopReason, TerminalCost,
    TerminalOperation, ThinkingLevel,
};
use factory_kernel::publication::{
    publication_kind_code, publication_kind_name, InstitutionalReference, PublicationKind,
};
use factory_kernel::scheduler::{
    ClaimReadyTicketAction, CompleteCampaignAction, TicketScheduler,
};
use factory_kernel::ticket::CurrentHeadRequalification;
use factory_kernel::ticket_status::{
    downstream_architect_decision_evidence, downstream_review_evidence,
    downstream_validation_evidence, DownstreamArchitectDecisionKind, DownstreamReviewVerdict,
    DownstreamValidationState, SponsoredTicketClaimContext,
};

#[test]
fn roles_have_codes_and_names() {
    for (code, name, role) in [
        (0, "product_research", AssignmentRole::ProductResearch),
        (1, "engineering", AssignmentRole::Engineering),
        (2, "quality", AssignmentRole::Quality),
    ] {
        assert_eq!(assignment_role_code(role), code);
        assert_eq!(assignment_role_from_code(code), Ok(role));
        assert_eq!(assignment_role_name(role), name);
        assert_eq!(role_of(name), Some(role));
    }
    for code in [-1, 3] {
        assert_eq!(
            assignment_role_from_code(code),
            Err(StoreError::CorruptLifecycleColumn)
        );
    }
    assert_eq!(role_of("Quality"), None);
}

#[test]
fn thinking_levels_have_codes_and_names() {
    for (code, name, level) in [
        (0, "none", ThinkingLevel::NoThinking),
        (1, "low", ThinkingLevel::Low),
        (2, "medium", ThinkingLevel::Medium),
        (3, "high", ThinkingLevel::High),
        (4, "xhigh", ThinkingLevel::XHigh),
    ] {
        assert_eq!(thinking_code(level), code);
        assert_eq!(thinking_name(level), name);
        assert_eq!(thinking_of(name), Some(level));
    }
    assert_eq!(thinking_of("max"), None);
    assert!(host_tool_ok("shell"));
    assert!(!host_tool_ok("forum_post"));
}

#[test]
fn terminal_operations_are_bits_of_a_mask() {
    let all = [
        TerminalOperation::WorkComplete,
        TerminalOperation::CandidateSubmit,
        TerminalOperation::QualitySubmitReview,
    ];
    for (index, operation) in all.into_iter().enumerate() {
        assert_eq!(terminal_operation_code(operation), index as i16);
        assert_eq!(operation_mask_one(Some(operation)), 1 << index);
        let name = terminal_operation_name(operation);
        assert_eq!(parse_terminal_operation(name), Some(operation));
    }
    assert_eq!(operation_mask_one(None), 0);
    assert_eq!(operation_mask(&[all[2], all[0], all[2]]), 5);
    assert_eq!(parse_terminal_operation("other"), None);
}

#[test]
fn states_are_closed() {
    for (code, state) in [
        (0, SessionState::Prepared),
        (1, SessionState::Running),
        (2, SessionState::Succeeded),
        (3, SessionState::Failed),
        (4, SessionState::Cancelled),
        (5, SessionState::Interrupted),
    ] {
        assert_eq!(session_state_code(state), code);
        assert_eq!(session_state_from_code(code), Ok(state));
    }
    assert!(session_state_from_code(6).is_err());
    assert_eq!(assignment_state_code(SessionState::Running), 3);
    assert_eq!(assignment_state_code(SessionState::Interrupted), 5);
    assert_eq!(campaign_state_from_code(1), Ok(CampaignState::Completed));
    assert_eq!(
        campaign_state_from_code(4),
        Err(StoreError::CorruptLifecycleColumn)
    );
}

#[test]
fn stop_reasons_end_sessions_in_one_state() {
    for (code, reason, state) in [
        (0, StopReason::Completed, SessionState::Succeeded),
        (1, StopReason::Cancelled, SessionState::Cancelled),
        (2, StopReason::Deadline, SessionState::Interrupted),
        (3, StopReason::DaemonDisconnected, SessionState::Interrupted),
        (4, StopReason::NonZeroExit, SessionState::Failed),
        (5, StopReason::OutputLimit, SessionState::Failed),
        (6, StopReason::ProtocolError, SessionState::Failed),
        (7, StopReason::UnknownCost, SessionState::Failed),
        (8, StopReason::CostLimit, SessionState::Failed),
    ] {
        assert_eq!(stop_reason_code(reason), code);
        assert_eq!(session_state(reason), state);
        let failure = if reason == StopReason::Completed {
            None
        } else {
            Some(code)
        };
        assert_eq!(failure_code(reason), failure);
    }
}

#[test]
fn stored_costs_are_read_strictly() {
    assert_eq!(db_cost(None, None), Ok(None));
    assert_eq!(
        db_cost(Some(0), Some(5)),
        Ok(Some(TerminalCost::Known(MicroUsd::new(5))))
    );
    assert_eq!(db_cost(Some(1), None), Ok(Some(TerminalCost::Unknown)));
    assert_eq!(
        db_cost(Some(2), Some(5)),
        Ok(Some(TerminalCost::Exceeded(MicroUsd::new(5))))
    );
    assert_eq!(db_cost(Some(0), Some(-5)), Err(StoreError::CorruptCostColumn));
    assert_eq!(db_cost(Some(3), Some(5)), Err(StoreError::CorruptCostColumn));
}

#[test]
fn downstream_evidence_is_whole_or_absent() {
    let passed = downstream_validation_evidence(Some(1), Some(1), Some(2)).unwrap().unwrap();
    assert_eq!(passed.state, DownstreamValidationState::Passed);
    assert_eq!(passed.state.name(), "passed");
    assert_eq!(downstream_validation_evidence(None, None, None), Ok(None));
    assert_eq!(
        downstream_validation_evidence(Some(1), None, Some(2)),
        Err(StoreError::CorruptLifecycleColumn)
    );
    assert!(downstream_validation_evidence(Some(1), Some(0), Some(2)).is_err());
    let review = downstream_review_evidence(Some(1), Some(0), Some(1), Some(2)).unwrap().unwrap();
    assert_eq!(review.verdict, DownstreamReviewVerdict::Reject);
    assert_eq!(review.verdict.name(), "reject");
    assert!(downstream_review_evidence(Some(1), Some(0), None, Some(2)).is_err());
    assert!(downstream_review_evidence(Some(1), Some(0), Some(2), Some(2)).is_err());
    let decision =
        downstream_architect_decision_evidence(Some(1), Some(3), Some(2)).unwrap().unwrap();
    assert_eq!(decision.kind, DownstreamArchitectDecisionKind::Rework);
    assert_eq!(decision.kind.name(), "rework");
    assert!(downstream_architect_decision_evidence(Some(1), Some(1), Some(2)).is_err());
    assert_eq!(downstream_architect_decision_evidence(None, None, None), Ok(None));
}

#[test]
fn publications_name_their_kinds_and_anchors() {
    for (code, name, kind) in [
        (0, "finding", PublicationKind::Finding),
        (1, "question", PublicationKind::Question),
        (2, "challenge", PublicationKind::Challenge),
        (3, "correction", PublicationKind::Correction),
        (4, "decision_link", PublicationKind::DecisionLink),
        (5, "note", PublicationKind::Note),
    ] {
        assert_eq!(publication_kind_code(kind), code);
        assert_eq!(publication_kind_name(kind), name);
    }
    let office = InstitutionalReference::Office(OfficeId::new(4).unwrap());
    assert!(office.can_anchor_publication());
    assert_eq!((office.kind_name(), office.id()), ("office", 4));
    let publication = InstitutionalReference::Publication(PublicationId::new(5).unwrap());
    assert!(!publication.can_anchor_publication());
}

#[test]
fn scheduled_actions_carry_their_revisions() {
    let expected = ExpectedRevision::new(AggregateRevision::from_persisted(3));
    let campaign_id = CampaignId::new(1).unwrap();
    let claim = TicketScheduler::claim_ready_ticket(
        "p".to_owned(),
        "c".to_owned(),
        ClaimReadyTicketAction {
            campaign_id,
            expected_campaign_revision: expected,
            ticket: SponsoredTicketClaimContext {
                ticket_revision_id: TicketRevisionId::new(9).unwrap(),
                revision: AggregateRevision::from_persisted(2),
            },
        },
        CurrentHeadRequalification {
            current_head_commit: "head".to_owned(),
            current_head_tree: "tree".to_owned(),
            first_actual_observation_artifact_id: ArtifactId::new(1).unwrap(),
            second_actual_observation_artifact_id: ArtifactId::new(2).unwrap(),
        },
    );
    assert_eq!(claim.expected_campaign_revision, expected);
    assert_eq!(claim.expected_ticket_revision.get().get(), 2);
    assert_eq!(claim.ticket_revision_id.get(), 9);
    let complete = TicketScheduler::complete_campaign(
        "p".to_owned(),
        "c".to_owned(),
        CompleteCampaignAction {
            campaign_id,
            expected_campaign_revision: expected,
        },
    );
    assert_eq!(complete.campaign_id, campaign_id);
    assert_eq!(complete.expected_campaign_revision, expected);
}
