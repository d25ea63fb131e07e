//! Tickets from proposal to release on concrete rows.

use factory_kernel::audit::AuditRow;
use factory_kernel::digest::ContentDigest;
use factory_kernel::error::StoreError;
use factory_kernel::identity::{
    AggregateRevision, ApplicationRevisionId, ArtifactId, CampaignId, CandidateId, ContractError,
    ExpectedRevision, TicketAttemptId, TicketRevisionId,
};
use factory_kernel::ticket::{
    can_retry_engineering_attempt, can_retry_quality_attempt, claim_outcome_from_receipt,
    release_outcome_from_receipt, ticket_attempt_stage_from_sql, ticket_state_from_sql,
    u32_from_sql, validate_reason, validate_snapshot, ClaimOutcome, CurrentHeadRequalification,
    ReleaseOutcome, RequalificationDigests, RequalificationOutcome, TicketAttemptRow,
    TicketAttemptStage, TicketRevisionRow, TicketState, ATTEMPT_AWAITING_ARCHITECT,
    ATTEMPT_ENGINEERING, ATTEMPT_FAILED, ATTEMPT_QUALITY, ATTEMPT_REWORK_ENGINEERING,
    ATTEMPT_REWORK_QUALITY, CANDIDATE_ACCEPTED, CANDIDATE_REJECTED, CANDIDATE_SUBMITTED,
    CANDIDATE_VALIDATED,
};
use factory_kernel::ticket_commands::{
    claim_fingerprint, completion_fingerprint, engineering_retry_fingerprint,
    failure_fingerprint, proposal_fingerprint, quality_retry_fingerprint, release_fingerprint,
    sponsor_fingerprint, ClaimSponsoredTicket, CompleteCampaignAtDeliveryTarget,
    FailTicketAttempt, ReleaseTicketAttempt, RetryEngineeringAttempt, RetryQualityAttempt,
    SponsorTicketRevision, SubmitTicketProposal,
};
use factory_kernel::ticket_status::{
    failure_context, live_ticket_proposal_artifacts, proposal_admission_context,
    recoverable_engineering_failure, recoverable_quality_failure, ticket_buffer_status,
    AdmissionRow, BufferCampaignRow, BufferFacts, DownstreamActionStage,
    DownstreamArchitectDecisionKind, DownstreamReviewVerdict, DownstreamRow,
    DownstreamValidationState, EngineeringFailureRow, LiveTicketRow, QualityFailureRow,
    SponsoredRow,
};
use factory_kernel::ticket_transitions::{
    admit_attempt_failure, admit_claim, admit_completion, admit_engineering_retry,
    admit_quality_retry, admit_release, admit_sponsorship, admit_ticket_proposal,
    attempt_receipt, claim_receipt, claim_sponsored_ticket, claim_subject,
    complete_campaign_at_delivery_target, fail_ticket_attempt, proposal_receipt,
    release_receipt, release_ticket_attempt, replayed_attempt_receipt, replayed_claim_receipt,
    replayed_proposal_receipt, replayed_release_receipt, replayed_sponsorship_receipt,
    retry_engineering_attempt, retry_quality_attempt, sponsor_ticket_revision,
    sponsorship_receipt, submit_ticket_proposal, ClaimCampaignRow, ClaimFacts,
    CompletionCampaignRow, ProposalApplicationRow, ProposalFacts, ReadyBufferRow, ReleaseFacts,
    RetryCampaignRow, RetryCandidateRow,
};

#[test]
fn downstream_stage_mapping_is_closed_and_preserves_delivery_handoff() {
    assert_eq!(
        DownstreamActionStage::from_attempt_and_candidate(
            ATTEMPT_QUALITY,
            CANDIDATE_VALIDATED,
            true,
            false,
        ),
        Some(DownstreamActionStage::Quality)
    );
    assert_eq!(
        DownstreamActionStage::from_attempt_and_candidate(
            ATTEMPT_QUALITY,
            CANDIDATE_VALIDATED,
            false,
            false,
        ),
        Some(DownstreamActionStage::CandidateCommitAttachRequired)
    );
    assert_eq!(
        DownstreamActionStage::from_attempt_and_candidate(
            ATTEMPT_REWORK_ENGINEERING,
            CANDIDATE_REJECTED,
            false,
            false,
        ),
        Some(DownstreamActionStage::ReworkEngineering)
    );
    assert_eq!(
        DownstreamActionStage::from_attempt_and_candidate(
            ATTEMPT_REWORK_QUALITY,
            CANDIDATE_VALIDATED,
            true,
            false,
        ),
        Some(DownstreamActionStage::ReworkQuality)
    );
    assert_eq!(
        DownstreamActionStage::from_attempt_and_candidate(
            ATTEMPT_AWAITING_ARCHITECT,
            CANDIDATE_ACCEPTED,
            true,
            true,
        ),
        Some(DownstreamActionStage::DeliverAccepted)
    );
    assert_eq!(
        DownstreamActionStage::from_attempt_and_candidate(
            ATTEMPT_AWAITING_ARCHITECT,
            CANDIDATE_REJECTED,
            false,
            false,
        ),
        None,
        "a rejected candidate must be terminally released, not rescheduled"
    );
    assert_eq!(
        DownstreamActionStage::from_attempt_and_candidate(
            ATTEMPT_AWAITING_ARCHITECT,
            CANDIDATE_VALIDATED,
            true,
            false,
        ),
        Some(DownstreamActionStage::QualityReviewRequired)
    );
    assert_eq!(
        DownstreamActionStage::from_attempt_and_candidate(
            ATTEMPT_AWAITING_ARCHITECT,
            CANDIDATE_VALIDATED,
            true,
            true,
        ),
        Some(DownstreamActionStage::AwaitingArchitect)
    );
}

#[test]
fn quality_retry_is_bounded_to_one_validated_committed_candidate() {
    assert!(can_retry_quality_attempt(
        ATTEMPT_QUALITY,
        CANDIDATE_VALIDATED,
        true,
        false,
    ));
    assert!(can_retry_quality_attempt(
        ATTEMPT_FAILED,
        CANDIDATE_VALIDATED,
        true,
        false,
    ));
    assert!(!can_retry_quality_attempt(
        ATTEMPT_FAILED,
        CANDIDATE_VALIDATED,
        true,
        true,
    ));
    assert!(!can_retry_quality_attempt(
        ATTEMPT_REWORK_QUALITY,
        CANDIDATE_VALIDATED,
        true,
        false,
    ));
    assert!(!can_retry_quality_attempt(
        ATTEMPT_QUALITY,
        CANDIDATE_SUBMITTED,
        true,
        false,
    ));
    assert!(!can_retry_quality_attempt(
        ATTEMPT_QUALITY,
        CANDIDATE_VALIDATED,
        false,
        false,
    ));
}

#[test]
fn engineering_retry_is_bounded_to_one_candidate_less_failure() {
    assert!(can_retry_engineering_attempt(ATTEMPT_FAILED, false, false));
    assert!(!can_retry_engineering_attempt(ATTEMPT_FAILED, false, true));
    assert!(!can_retry_engineering_attempt(
        ATTEMPT_ENGINEERING,
        false,
        false
    ));
    assert!(!can_retry_engineering_attempt(ATTEMPT_FAILED, true, false));
}

fn artifact(value: i64) -> ArtifactId {
    ArtifactId::new(value).unwrap()
}

fn revision(value: u64) -> AggregateRevision {
    AggregateRevision::from_persisted(value)
}

fn expected(value: u64) -> ExpectedRevision {
    ExpectedRevision::new(revision(value))
}

fn column(text: &str) -> Option<Vec<u8>> {
    Some(ContentDigest::of_bytes(text.as_bytes()).as_bytes().to_vec())
}

fn audit(
    operation: &str,
    fingerprint: ContentDigest,
    subject_kind: i16,
    subject_id: i64,
    resulting_revision: i64,
) -> AuditRow {
    AuditRow {
        id: 90,
        operation: operation.to_owned(),
        command_fingerprint: fingerprint.as_bytes().to_vec(),
        subject_kind,
        subject_id,
        resulting_revision,
    }
}

fn propose() -> SubmitTicketProposal {
    SubmitTicketProposal {
        principal: "actor".to_owned(),
        command_id: "propose-1".to_owned(),
        expected_application_revision: expected(2),
        application_revision_id: ApplicationRevisionId::new(3).unwrap(),
        proposal_artifact_id: artifact(10),
        reproducer_artifact_id: artifact(11),
        expected_observation_artifact_id: artifact(12),
        first_actual_observation_artifact_id: artifact(13),
        second_actual_observation_artifact_id: artifact(14),
        discovery_commit: "commit".to_owned(),
        discovery_tree: "tree".to_owned(),
    }
}

fn proposal_facts() -> ProposalFacts {
    ProposalFacts {
        expected: column("expected"),
        first: column("failure"),
        second: column("failure"),
        proposal: column("proposal"),
        reproducer: column("reproducer"),
        proposed_count: 0,
        reproducer_taken: false,
    }
}

fn application() -> ProposalApplicationRow {
    ProposalApplicationRow {
        aggregate_revision: 2,
        proposal_maximum: 3,
    }
}

#[test]
fn a_proposal_needs_one_failure_seen_twice() {
    assert_eq!(
        admit_ticket_proposal(&propose(), Some(application()), None),
        Ok(None)
    );
    let plan = submit_ticket_proposal(&propose(), application(), &proposal_facts()).unwrap();
    assert_eq!(plan.lifecycle, 0);
    assert_eq!(plan.discovery_observation_artifact_id, artifact(13));
    let refused = |change: fn(&mut ProposalFacts)| {
        let mut facts = proposal_facts();
        change(&mut facts);
        submit_ticket_proposal(&propose(), application(), &facts).unwrap_err()
    };
    assert_eq!(
        refused(|facts| facts.second = column("other")),
        StoreError::ProposalNotReproducible
    );
    assert_eq!(
        refused(|facts| {
            facts.first = column("expected");
            facts.second = column("expected");
        }),
        StoreError::ProposalDoesNotFail
    );
    assert_eq!(
        refused(|facts| facts.proposed_count = 3),
        StoreError::ProposalBufferFull
    );
    assert_eq!(
        refused(|facts| facts.reproducer_taken = true),
        StoreError::DuplicateTicketReproducer {
            reproducer_artifact_id: artifact(11)
        }
    );
    assert_eq!(
        refused(|facts| facts.expected = None),
        StoreError::UnknownArtifact {
            artifact_id: artifact(12)
        }
    );
    assert_eq!(
        submit_ticket_proposal(
            &propose(),
            ProposalApplicationRow {
                aggregate_revision: 3,
                ..application()
            },
            &proposal_facts(),
        ),
        Err(StoreError::RevisionConflict {
            expected: expected(2),
            current: revision(3),
        })
    );
}

#[test]
fn a_repeated_proposal_is_answered() {
    let row = audit(
        "ticket.propose",
        proposal_fingerprint(&propose()),
        30,
        21,
        0,
    );
    let found = admit_ticket_proposal(&propose(), Some(application()), Some(&row))
        .unwrap()
        .unwrap();
    let replayed = replayed_proposal_receipt(&found, Some(20)).unwrap();
    let first = proposal_receipt(20, 21, 90).unwrap();
    assert!(replayed.was_idempotent_retry);
    assert_eq!(replayed.ticket_id, first.ticket_id);
    assert_eq!(replayed.ticket_revision_id, first.ticket_revision_id);
    assert_eq!(replayed.audit_log_id, first.audit_log_id);
    let mut other = propose();
    other.discovery_tree = "other".to_owned();
    assert!(matches!(
        admit_ticket_proposal(&other, Some(application()), Some(&row)),
        Err(StoreError::IdempotencyConflict { .. })
    ));
}

fn ticket_row(lifecycle: i16, aggregate_revision: i64) -> TicketRevisionRow {
    TicketRevisionRow {
        ticket_id: 20,
        application_revision_id: 3,
        ticket_revision_lifecycle: lifecycle,
        ticket_revision_aggregate_revision: aggregate_revision,
        expected_observation_artifact_id: 12,
        discovery_observation_artifact_id: 13,
        ticket_lifecycle: lifecycle,
        ticket_aggregate_revision: aggregate_revision,
        current_ticket_revision_id: 21,
    }
}

fn sponsor() -> SponsorTicketRevision {
    SponsorTicketRevision {
        principal: "architect".to_owned(),
        command_id: "sponsor-1".to_owned(),
        ticket_revision_id: TicketRevisionId::new(21).unwrap(),
        expected_ticket_revision: expected(0),
        reason: "worth it".to_owned(),
    }
}

#[test]
fn sponsorship_moves_a_proposal_into_the_ready_buffer() {
    let buffer = Some(ReadyBufferRow {
        ticket_maximum: Some(5),
    });
    assert_eq!(admit_sponsorship(&sponsor(), None), Ok(None));
    let moved = sponsor_ticket_revision(&sponsor(), Some(ticket_row(0, 0)), buffer, 4).unwrap();
    assert_eq!(moved.lifecycle, 1);
    assert_eq!(moved.resulting_revision, revision(1));
    let receipt = sponsorship_receipt(&moved, 91);
    assert_eq!(receipt.state, TicketState::Sponsored);
    let row = audit("ticket.sponsor", sponsor_fingerprint(&sponsor()), 31, 21, 1);
    let found = admit_sponsorship(&sponsor(), Some(&row)).unwrap().unwrap();
    let replayed =
        replayed_sponsorship_receipt(&sponsor(), &found, Some(ticket_row(1, 1))).unwrap();
    assert!(replayed.was_idempotent_retry);
    assert_eq!(replayed.resulting_revision, revision(1));
    assert_eq!(
        sponsor_ticket_revision(&sponsor(), Some(ticket_row(0, 0)), buffer, 5),
        Err(StoreError::ReadyTicketBufferFull)
    );
    assert_eq!(
        sponsor_ticket_revision(&sponsor(), Some(ticket_row(1, 0)), buffer, 0),
        Err(StoreError::TicketStateConflict {
            required: TicketState::Proposed,
            observed: TicketState::Sponsored,
        })
    );
    assert_eq!(
        sponsor_ticket_revision(&sponsor(), None, buffer, 0),
        Err(StoreError::UnknownTicketRevision {
            ticket_revision_id: TicketRevisionId::new(21).unwrap()
        })
    );
}

fn requalification() -> CurrentHeadRequalification {
    CurrentHeadRequalification {
        current_head_commit: "head".to_owned(),
        current_head_tree: "head-tree".to_owned(),
        first_actual_observation_artifact_id: artifact(15),
        second_actual_observation_artifact_id: artifact(16),
    }
}

fn digests(first: &str, second: &str) -> RequalificationDigests {
    RequalificationDigests {
        expected: column("expected"),
        discovery: column("failure"),
        first: column(first),
        second: column(second),
    }
}

fn claim() -> ClaimSponsoredTicket {
    ClaimSponsoredTicket {
        principal: "scheduler".to_owned(),
        command_id: "claim-1".to_owned(),
        campaign_id: CampaignId::new(1).unwrap(),
        expected_campaign_revision: expected(4),
        ticket_revision_id: TicketRevisionId::new(21).unwrap(),
        expected_ticket_revision: expected(1),
        requalification: requalification(),
    }
}

fn claim_facts(first: &str, second: &str) -> ClaimFacts {
    ClaimFacts {
        ticket: Some(ticket_row(1, 1)),
        campaign: Some(ClaimCampaignRow {
            lifecycle: 0,
            revision: 4,
            cost_state: 0,
            deadline_open: true,
            campaign_application_revision_id: 3,
            ticket_application_revision_id: 3,
        }),
        in_flight_count: 0,
        paid_session_active: false,
        digests: digests(first, second),
    }
}

#[test]
fn a_claim_follows_what_the_current_head_shows() {
    assert_eq!(admit_claim(&claim(), None), Ok(None));
    let claimed = claim_sponsored_ticket(&claim(), &claim_facts("failure", "failure")).unwrap();
    assert_eq!(claimed.outcome, RequalificationOutcome::Reproduced);
    assert_eq!(claimed.ticket.lifecycle, 2);
    let (outcome, kind, subject) = claim_subject(&claimed, Some(33)).unwrap();
    assert_eq!(kind, 32);
    assert_eq!(subject, 33);
    let receipt = claim_receipt(&claimed, outcome, 92);
    assert_eq!(
        receipt.outcome,
        ClaimOutcome::Claimed {
            ticket_attempt_id: TicketAttemptId::new(33).unwrap()
        }
    );
    let row = audit("ticket.claim", claim_fingerprint(&claim()), 32, 33, 2);
    let found = admit_claim(&claim(), Some(&row)).unwrap().unwrap();
    assert_eq!(claim_outcome_from_receipt(&found), Ok(outcome));
    let replayed =
        replayed_claim_receipt(&claim(), &found, Some(21), Some(ticket_row(2, 2))).unwrap();
    assert_eq!(replayed.outcome, outcome);
    assert!(replayed.was_idempotent_retry);

    let resolved = claim_sponsored_ticket(&claim(), &claim_facts("expected", "expected")).unwrap();
    assert_eq!(resolved.outcome, RequalificationOutcome::Resolved);
    assert_eq!(resolved.ticket.lifecycle, 5);
    let diverged = claim_sponsored_ticket(&claim(), &claim_facts("failure", "other")).unwrap();
    assert_eq!(diverged.outcome, RequalificationOutcome::Diverged);
    assert_eq!(diverged.ticket.lifecycle, 4);
    assert!(diverged.blocked_reason.is_some());
}

#[test]
fn a_claim_needs_an_open_idle_campaign() {
    let refused = |change: fn(&mut ClaimFacts)| {
        let mut facts = claim_facts("failure", "failure");
        change(&mut facts);
        claim_sponsored_ticket(&claim(), &facts).unwrap_err()
    };
    let campaign_id = CampaignId::new(1).unwrap();
    assert_eq!(
        refused(|facts| facts.campaign = None),
        StoreError::UnknownCampaign { campaign_id }
    );
    assert_eq!(
        refused(|facts| facts.campaign.as_mut().unwrap().lifecycle = 1),
        StoreError::CampaignClosed { campaign_id }
    );
    assert_eq!(
        refused(|facts| facts.campaign.as_mut().unwrap().cost_state = 1),
        StoreError::CampaignCostFrozen { campaign_id }
    );
    assert_eq!(
        refused(|facts| facts.campaign.as_mut().unwrap().deadline_open = false),
        StoreError::CampaignDeadlineElapsed
    );
    assert_eq!(
        refused(|facts| facts.campaign.as_mut().unwrap().campaign_application_revision_id = 9),
        StoreError::CampaignApplicationMismatch
    );
    assert_eq!(
        refused(|facts| facts.in_flight_count = 1),
        StoreError::EngineeringTicketAlreadyInFlight
    );
    assert_eq!(
        refused(|facts| facts.paid_session_active = true),
        StoreError::PaidSessionAlreadyRunning
    );
    assert_eq!(
        refused(|facts| facts.ticket = Some(ticket_row(0, 1))),
        StoreError::TicketStateConflict {
            required: TicketState::Sponsored,
            observed: TicketState::Proposed,
        }
    );
    let mut nameless = claim();
    nameless.requalification.current_head_commit = String::new();
    assert_eq!(
        admit_claim(&nameless, None),
        Err(StoreError::InvalidTicketField {
            field: "current-head commit"
        })
    );
}

fn attempt_row(stage: i16, released: bool) -> TicketAttemptRow {
    TicketAttemptRow {
        ticket_revision_id: 21,
        stage,
        released,
        attempt_revision: 5,
        ticket: ticket_row(2, 2),
    }
}

fn attempt_id() -> TicketAttemptId {
    TicketAttemptId::new(33).unwrap()
}

fn failure() -> FailTicketAttempt {
    FailTicketAttempt {
        principal: "kernel".to_owned(),
        command_id: "fail-1".to_owned(),
        ticket_attempt_id: attempt_id(),
        expected_attempt_revision: expected(5),
        expected_ticket_revision: expected(2),
        reason: "stuck".to_owned(),
    }
}

#[test]
fn a_failed_attempt_keeps_its_ticket_in_flight() {
    assert_eq!(admit_attempt_failure(&failure(), None), Ok(None));
    let failed = fail_ticket_attempt(&failure(), Some(attempt_row(0, false))).unwrap();
    assert_eq!(failed.stage, ATTEMPT_FAILED);
    assert_eq!(failed.resulting_revision, revision(6));
    let receipt = attempt_receipt(attempt_id(), &failed, 93);
    let row = audit(
        "ticket_attempt.fail",
        failure_fingerprint(&failure()),
        35,
        33,
        6,
    );
    let found = admit_attempt_failure(&failure(), Some(&row))
        .unwrap()
        .unwrap();
    let replayed = replayed_attempt_receipt(attempt_id(), &found);
    assert_eq!(
        replayed.resulting_attempt_revision,
        receipt.resulting_attempt_revision
    );
    assert!(replayed.was_idempotent_retry);
    assert_eq!(
        fail_ticket_attempt(&failure(), None),
        Err(StoreError::UnknownTicketAttempt {
            ticket_attempt_id: attempt_id()
        })
    );
    let moved = TicketAttemptRow {
        attempt_revision: 6,
        ..attempt_row(0, false)
    };
    assert_eq!(
        fail_ticket_attempt(&failure(), Some(moved)),
        Err(StoreError::RevisionConflict {
            expected: expected(5),
            current: revision(6),
        })
    );
}

#[test]
fn retries_happen_once_each() {
    let quality = RetryQualityAttempt {
        principal: "architect".to_owned(),
        command_id: "retry-q".to_owned(),
        ticket_attempt_id: attempt_id(),
        candidate_id: CandidateId::new(44).unwrap(),
        expected_attempt_revision: expected(5),
        expected_ticket_revision: expected(2),
        reason: "again".to_owned(),
    };
    let validated = Some(RetryCandidateRow {
        lifecycle: CANDIDATE_VALIDATED,
        candidate_commit_present: true,
    });
    assert_eq!(admit_quality_retry(&quality, None), Ok(None));
    let retried =
        retry_quality_attempt(&quality, Some(attempt_row(ATTEMPT_FAILED, false)), validated, false)
            .unwrap();
    assert_eq!(retried.stage, ATTEMPT_REWORK_QUALITY);
    assert!(retry_quality_attempt(
        &quality,
        Some(attempt_row(ATTEMPT_FAILED, false)),
        validated,
        true
    )
    .is_err());
    let engineering = RetryEngineeringAttempt {
        principal: "architect".to_owned(),
        command_id: "retry-e".to_owned(),
        ticket_attempt_id: attempt_id(),
        expected_attempt_revision: expected(5),
        expected_ticket_revision: expected(2),
        reason: "again".to_owned(),
    };
    let open = Some(RetryCampaignRow {
        lifecycle: 0,
        cost_state: 0,
    });
    assert_eq!(admit_engineering_retry(&engineering, None), Ok(None));
    let again = retry_engineering_attempt(
        &engineering,
        Some(attempt_row(ATTEMPT_FAILED, false)),
        open,
        false,
        false,
    )
    .unwrap();
    assert_eq!(again.stage, ATTEMPT_ENGINEERING);
    assert!(retry_engineering_attempt(
        &engineering,
        Some(attempt_row(ATTEMPT_FAILED, false)),
        open,
        false,
        true,
    )
    .is_err());
    assert_ne!(
        quality_retry_fingerprint(&quality),
        engineering_retry_fingerprint(&engineering)
    );
}

fn release() -> ReleaseTicketAttempt {
    ReleaseTicketAttempt {
        principal: "architect".to_owned(),
        command_id: "release-1".to_owned(),
        ticket_attempt_id: attempt_id(),
        expected_attempt_revision: expected(5),
        expected_ticket_revision: expected(2),
        reason: "back to the buffer".to_owned(),
        requalification: requalification(),
    }
}

fn release_facts(first: &str, second: &str) -> ReleaseFacts {
    ReleaseFacts {
        attempt: Some(attempt_row(ATTEMPT_FAILED, false)),
        digests: digests(first, second),
        application: Some(ReadyBufferRow {
            ticket_maximum: Some(5),
        }),
        sponsored_count: 0,
    }
}

#[test]
fn a_release_readies_only_a_reproduced_ticket() {
    assert_eq!(admit_release(&release(), None), Ok(None));
    let plan = release_ticket_attempt(&release(), &release_facts("failure", "failure")).unwrap();
    assert_eq!(plan.outcome, ReleaseOutcome::Released);
    assert_eq!(plan.requalification.ticket.lifecycle, 1);
    let receipt = release_receipt(attempt_id(), &plan, 94);
    assert_eq!(receipt.outcome, ReleaseOutcome::Released);
    let row = audit(
        "ticket_attempt.release",
        release_fingerprint(&release()),
        plan.subject_kind,
        33,
        3,
    );
    let found = admit_release(&release(), Some(&row)).unwrap().unwrap();
    assert_eq!(
        release_outcome_from_receipt(&found),
        Ok(ReleaseOutcome::Released)
    );
    let mut released = attempt_row(ATTEMPT_FAILED, true);
    released.ticket = ticket_row(1, 3);
    let replayed = replayed_release_receipt(&release(), &found, Some(released)).unwrap();
    assert!(replayed.was_idempotent_retry);

    let resolved = release_ticket_attempt(&release(), &release_facts("expected", "expected"));
    assert_eq!(resolved.unwrap().outcome, ReleaseOutcome::Resolved);
    let blocked = release_ticket_attempt(&release(), &release_facts("failure", "expected"));
    assert_eq!(blocked.unwrap().outcome, ReleaseOutcome::Blocked);
}

#[test]
fn only_an_unreleased_failure_is_released() {
    let refused = |change: fn(&mut ReleaseFacts)| {
        let mut facts = release_facts("failure", "failure");
        change(&mut facts);
        release_ticket_attempt(&release(), &facts).unwrap_err()
    };
    assert_eq!(
        refused(|facts| facts.attempt = Some(attempt_row(ATTEMPT_FAILED, true))),
        StoreError::TicketAttemptAlreadyReleased
    );
    assert_eq!(
        refused(|facts| facts.attempt = Some(attempt_row(ATTEMPT_ENGINEERING, false))),
        StoreError::TicketAttemptNotReleasable
    );
    assert_eq!(
        refused(|facts| facts.sponsored_count = 5),
        StoreError::ReadyTicketBufferFull
    );
}

#[test]
fn a_campaign_completes_at_its_delivery_target() {
    let complete = CompleteCampaignAtDeliveryTarget {
        principal: "scheduler".to_owned(),
        command_id: "complete-1".to_owned(),
        campaign_id: CampaignId::new(1).unwrap(),
        expected_campaign_revision: expected(4),
    };
    let campaign = Some(CompletionCampaignRow {
        lifecycle: 0,
        revision: 4,
        delivery_target: 2,
    });
    assert_eq!(admit_completion(&complete, None), Ok(None));
    let plan = complete_campaign_at_delivery_target(&complete, campaign, 2).unwrap();
    assert_eq!(plan.lifecycle, 1);
    assert_eq!(plan.resulting_revision, revision(5));
    assert_eq!(
        complete_campaign_at_delivery_target(&complete, campaign, 1),
        Err(StoreError::CampaignDeliveryTargetNotReached)
    );
    let mut other = complete.clone();
    other.command_id = "complete-2".to_owned();
    assert_ne!(
        completion_fingerprint(&complete),
        completion_fingerprint(&other)
    );
}

#[test]
fn ticket_columns_are_closed() {
    assert_eq!(ticket_state_from_sql(7), Ok(TicketState::Rejected));
    assert_eq!(
        ticket_state_from_sql(8),
        Err(StoreError::CorruptTicketState)
    );
    assert_eq!(
        ticket_attempt_stage_from_sql(9),
        Ok(TicketAttemptStage::Cancelled)
    );
    assert!(ticket_attempt_stage_from_sql(10).is_err());
    assert_eq!(u32_from_sql(4, "count"), Ok(4));
    assert_eq!(
        u32_from_sql(-1, "count"),
        Err(StoreError::InvalidTicketField { field: "count" })
    );
    assert_eq!(validate_reason("why", "reason"), Ok(()));
    assert_eq!(
        validate_reason("", "reason"),
        Err(StoreError::InvalidTicketField { field: "reason" })
    );
    assert_eq!(
        validate_snapshot(&"c".repeat(241), "commit"),
        Err(StoreError::InvalidTicketField { field: "commit" })
    );
    assert_eq!(DownstreamActionStage::DeliverAccepted.name(), "deliver_accepted");
    assert_eq!(DownstreamValidationState::Passed.name(), "passed");
    assert_eq!(DownstreamReviewVerdict::Reject.name(), "reject");
    assert_eq!(DownstreamArchitectDecisionKind::Rework.name(), "rework");
}

fn no_downstream() -> DownstreamRow {
    DownstreamRow {
        count: 0,
        ticket_attempt_id: None,
        ticket_attempt_revision: None,
        ticket_revision: None,
        ticket_attempt_stage: None,
        candidate_id: None,
        candidate_revision: None,
        candidate_lifecycle: None,
        candidate_commit: None,
        candidate_commit_present: None,
        validation_id: None,
        validation_lifecycle: None,
        validation_log_artifact_id: None,
        quality_review_id: None,
        review_revision: None,
        review_verdict: None,
        review_rationale_artifact_id: None,
        architect_decision_id: None,
        architect_decision_kind: None,
        architect_decision_rationale_artifact_id: None,
    }
}

fn buffer() -> BufferFacts {
    BufferFacts {
        campaign: Some(BufferCampaignRow {
            lifecycle: 0,
            revision: 4,
            delivery_target: 2,
            cost_state: 0,
            deadline_open: true,
            application_revision_id: 3,
            ticket_low_water: 1,
            ticket_target: 2,
            ticket_maximum: Some(5),
            proposal_maximum: 3,
        }),
        ready: 1,
        proposed: 2,
        in_flight: 0,
        downstream: no_downstream(),
        paid_session_active: false,
        delivered: 0,
        oldest: Some(SponsoredRow {
            id: 21,
            revision: 1,
        }),
    }
}

#[test]
fn a_buffer_status_reads_every_count() {
    let campaign_id = CampaignId::new(1).unwrap();
    let status = ticket_buffer_status(campaign_id, &buffer()).unwrap();
    assert_eq!(status.ready_count, 1);
    assert_eq!(status.proposed_count, 2);
    assert_eq!(status.maximum, Some(5));
    assert!(status.campaign_is_running);
    assert_eq!(
        status.oldest_sponsored_ticket.unwrap().revision,
        revision(1)
    );
    let mut downstream = buffer();
    downstream.downstream = DownstreamRow {
        count: 1,
        ticket_attempt_id: Some(33),
        ticket_attempt_revision: Some(5),
        ticket_revision: Some(2),
        ticket_attempt_stage: Some(2),
        candidate_id: Some(44),
        candidate_revision: Some(1),
        candidate_lifecycle: Some(1),
        candidate_commit: Some("commit".to_owned()),
        candidate_commit_present: Some(true),
        validation_id: Some(45),
        validation_lifecycle: Some(1),
        validation_log_artifact_id: Some(46),
        ..no_downstream()
    };
    let status = ticket_buffer_status(campaign_id, &downstream).unwrap();
    let action = status.downstream_action.unwrap();
    assert_eq!(action.stage, DownstreamActionStage::Quality);
    assert_eq!(action.candidate_revision, revision(1));
    let evidence = status.downstream_evidence.unwrap();
    assert_eq!(
        evidence.latest_validation.unwrap().state,
        DownstreamValidationState::Passed
    );
    let mut unknown = buffer();
    unknown.campaign = None;
    assert_eq!(
        ticket_buffer_status(campaign_id, &unknown),
        Err(StoreError::UnknownCampaign { campaign_id })
    );
}

#[test]
fn ticket_projections_read_their_columns() {
    let application_revision_id = ApplicationRevisionId::new(3).unwrap();
    let context = proposal_admission_context(
        application_revision_id,
        Some(AdmissionRow {
            aggregate_revision: 2,
            bundle_artifact_id: 10,
            repository_id: 6,
            proposal_maximum: 3,
            ticket_narrative_byte_limit: 4096,
            ticket_acceptance_criteria_limit: 10,
            ticket_contract_read_limit: 5,
        }),
    )
    .unwrap();
    assert_eq!(context.bundle_artifact_id, artifact(10));
    assert_eq!(context.ticket_bounds.acceptance_criteria_limit, 10);
    assert_eq!(
        proposal_admission_context(application_revision_id, None),
        Err(StoreError::UnknownApplicationRevision {
            application_revision_id
        })
    );
    let live = live_ticket_proposal_artifacts(&[LiveTicketRow {
        ticket_id: 20,
        id: 21,
        lifecycle: 1,
        proposal_artifact_id: 10,
    }])
    .unwrap();
    assert_eq!(live[0].state, TicketState::Sponsored);
    let bad = live_ticket_proposal_artifacts(&[LiveTicketRow {
        ticket_id: 0,
        id: 21,
        lifecycle: 1,
        proposal_artifact_id: 10,
    }]);
    assert_eq!(
        bad,
        Err(StoreError::Contract(ContractError::NonPositiveIdentity))
    );
    assert_eq!(recoverable_engineering_failure(None), Ok(None));
    let engineering = recoverable_engineering_failure(Some(EngineeringFailureRow {
        ticket_attempt_id: 33,
        attempt_revision: 5,
        ticket_revision: 2,
    }))
    .unwrap()
    .unwrap();
    assert_eq!(engineering.attempt_revision, revision(5));
    let quality = recoverable_quality_failure(Some(QualityFailureRow {
        attempt_id: 33,
        attempt_revision: 5,
        ticket_revision: 2,
        candidate_id: 44,
        candidate_revision: 1,
    }))
    .unwrap()
    .unwrap();
    assert_eq!(quality.candidate_revision, revision(1));
    let context = failure_context(Some(attempt_row(ATTEMPT_ENGINEERING, false)), attempt_id());
    assert_eq!(context.unwrap().ticket_revision, revision(2));
}
