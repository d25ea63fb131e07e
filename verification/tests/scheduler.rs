//! Scheduling decisions on concrete statuses.

use factory_kernel::identity::{
    AggregateRevision, CampaignId, CandidateId, ExpectedRevision, TicketAttemptId,
    TicketRevisionId,
};
use factory_kernel::scheduler::{
    ClaimReadyTicketAction, SchedulerConstraint, SchedulerNextAction, TicketScheduler,
    IN_FLIGHT_TICKET_MAXIMUM,
};
use factory_kernel::ticket_status::{
    DownstreamActionContext, DownstreamActionStage, SponsoredTicketClaimContext,
    TicketBufferStatus,
};

fn status() -> TicketBufferStatus {
    TicketBufferStatus {
        campaign_id: CampaignId::new(11).expect("positive campaign"),
        campaign_revision: AggregateRevision::from_persisted(7),
        campaign_is_running: true,
        campaign_deadline_open: true,
        campaign_cost_known: true,
        delivery_target: 2,
        delivered_attempt_count: 0,
        ready_count: 0,
        proposed_count: 0,
        in_flight_count: 0,
        downstream_attempt_count: 0,
        downstream_action: None,
        downstream_evidence: None,
        paid_session_active: false,
        low_water: 2,
        target: 3,
        maximum: Some(5),
        proposal_maximum: 3,
        oldest_sponsored_ticket: None,
    }
}

fn ready_ticket(id: i64, revision: u64) -> SponsoredTicketClaimContext {
    SponsoredTicketClaimContext {
        ticket_revision_id: TicketRevisionId::new(id).expect("positive ticket revision"),
        revision: AggregateRevision::from_persisted(revision),
    }
}

fn downstream_action(
    stage: DownstreamActionStage,
    attempt_id: i64,
    attempt_revision: u64,
    candidate_id: i64,
    candidate_revision: u64,
) -> DownstreamActionContext {
    DownstreamActionContext {
        stage,
        ticket_attempt_id: TicketAttemptId::new(attempt_id).expect("positive attempt"),
        ticket_attempt_revision: AggregateRevision::from_persisted(attempt_revision),
        ticket_revision: AggregateRevision::from_persisted(1),
        candidate_id: CandidateId::new(candidate_id).expect("positive candidate"),
        candidate_revision: AggregateRevision::from_persisted(candidate_revision),
    }
}

#[test]
fn empty_low_target_and_full_buffers_have_one_deterministic_next_action() {
    let empty = status();
    assert!(matches!(
        TicketScheduler::decide(&empty),
        SchedulerNextAction::ReplenishProduct { .. }
    ));

    let low = TicketBufferStatus {
        ready_count: 1,
        oldest_sponsored_ticket: Some(ready_ticket(30, 4)),
        ..status()
    };
    assert_eq!(
        TicketScheduler::decide(&low),
        SchedulerNextAction::ClaimReadyTicket(ClaimReadyTicketAction {
            campaign_id: low.campaign_id,
            expected_campaign_revision: ExpectedRevision::new(low.campaign_revision),
            ticket: ready_ticket(30, 4),
        }),
        "a sponsored ready ticket is implementation work, not a reason to spend on buffer refill"
    );

    let target = TicketBufferStatus {
        ready_count: 3,
        oldest_sponsored_ticket: Some(ready_ticket(30, 4)),
        ..status()
    };
    assert_eq!(
        TicketScheduler::decide(&target),
        SchedulerNextAction::ClaimReadyTicket(ClaimReadyTicketAction {
            campaign_id: target.campaign_id,
            expected_campaign_revision: ExpectedRevision::new(target.campaign_revision),
            ticket: ready_ticket(30, 4),
        })
    );

    let full = TicketBufferStatus {
        ready_count: 5,
        oldest_sponsored_ticket: Some(ready_ticket(9, 2)),
        ..status()
    };
    assert_eq!(
        TicketScheduler::decide(&full),
        SchedulerNextAction::ClaimReadyTicket(ClaimReadyTicketAction {
            campaign_id: full.campaign_id,
            expected_campaign_revision: ExpectedRevision::new(full.campaign_revision),
            ticket: ready_ticket(9, 2),
        })
    );
}

#[test]
fn proposal_backpressure_and_in_flight_work_precede_new_product_or_claims() {
    let awaiting_architect = TicketBufferStatus {
        proposed_count: 1,
        ..status()
    };
    assert!(matches!(
        TicketScheduler::decide(&awaiting_architect),
        SchedulerNextAction::AwaitArchitectDecision { .. }
    ));

    let mixed_ready_and_proposed = TicketBufferStatus {
        ready_count: 3,
        proposed_count: 1,
        oldest_sponsored_ticket: Some(ready_ticket(31, 5)),
        ..status()
    };
    assert_eq!(
        TicketScheduler::decide(&mixed_ready_and_proposed),
        SchedulerNextAction::ClaimReadyTicket(ClaimReadyTicketAction {
            campaign_id: mixed_ready_and_proposed.campaign_id,
            expected_campaign_revision: ExpectedRevision::new(
                mixed_ready_and_proposed.campaign_revision,
            ),
            ticket: ready_ticket(31, 5),
        }),
        "sponsored FIFO work is ahead of unrelated proposed tickets"
    );

    let at_proposal_maximum = TicketBufferStatus {
        proposed_count: 3,
        ready_count: 1,
        oldest_sponsored_ticket: Some(ready_ticket(30, 4)),
        ..status()
    };
    assert_eq!(
        TicketScheduler::decide(&at_proposal_maximum),
        SchedulerNextAction::ClaimReadyTicket(ClaimReadyTicketAction {
            campaign_id: at_proposal_maximum.campaign_id,
            expected_campaign_revision: ExpectedRevision::new(
                at_proposal_maximum.campaign_revision,
            ),
            ticket: ready_ticket(30, 4),
        }),
        "proposal pressure stops Product replenishment, never a sponsored FIFO claim"
    );

    let in_flight = TicketBufferStatus {
        ready_count: 5,
        in_flight_count: 1,
        oldest_sponsored_ticket: Some(ready_ticket(30, 4)),
        ..status()
    };
    assert_eq!(
        TicketScheduler::decide(&in_flight),
        SchedulerNextAction::Blocked(SchedulerConstraint::InFlightTicketLimitReached {
            in_flight_count: 1,
            maximum: IN_FLIGHT_TICKET_MAXIMUM,
        })
    );

    let engineering_rework = downstream_action(
        DownstreamActionStage::ReworkEngineering,
        7,
        4,
        12,
        8,
    );
    let downstream = TicketBufferStatus {
        in_flight_count: 1,
        downstream_attempt_count: 1,
        downstream_action: Some(engineering_rework),
        ..status()
    };
    assert_eq!(
        TicketScheduler::decide(&downstream),
        SchedulerNextAction::ContinueDownstream(engineering_rework)
    );
}

#[test]
fn downstream_fifo_actions_preserve_stage_and_all_concurrency_revisions() {
    let first_quality = downstream_action(
        DownstreamActionStage::Quality,
        17,
        2,
        20,
        3,
    );
    let quality = TicketBufferStatus {
        downstream_attempt_count: 1,
        downstream_action: Some(first_quality),
        ..status()
    };
    assert_eq!(
        TicketScheduler::decide(&quality),
        SchedulerNextAction::ContinueDownstream(first_quality)
    );

    let rework_quality = downstream_action(
        DownstreamActionStage::ReworkQuality,
        17,
        9,
        24,
        4,
    );
    let rework = TicketBufferStatus {
        downstream_attempt_count: 1,
        downstream_action: Some(rework_quality),
        ..status()
    };
    assert_eq!(
        TicketScheduler::decide(&rework),
        SchedulerNextAction::ContinueDownstream(rework_quality)
    );

    let attach_candidate_commit = downstream_action(
        DownstreamActionStage::CandidateCommitAttachRequired,
        17,
        10,
        24,
        5,
    );
    let attach = TicketBufferStatus {
        downstream_attempt_count: 1,
        downstream_action: Some(attach_candidate_commit),
        ..status()
    };
    assert_eq!(
        TicketScheduler::decide(&attach),
        SchedulerNextAction::ContinueDownstream(attach_candidate_commit)
    );

    let require_quality_review = downstream_action(
        DownstreamActionStage::QualityReviewRequired,
        17,
        11,
        24,
        6,
    );
    let review = TicketBufferStatus {
        downstream_attempt_count: 1,
        downstream_action: Some(require_quality_review),
        ..status()
    };
    assert_eq!(
        TicketScheduler::decide(&review),
        SchedulerNextAction::ContinueDownstream(require_quality_review)
    );

    let deliver_accepted = downstream_action(
        DownstreamActionStage::DeliverAccepted,
        17,
        10,
        24,
        5,
    );
    let delivery = TicketBufferStatus {
        downstream_attempt_count: 1,
        downstream_action: Some(deliver_accepted),
        ..status()
    };
    assert_eq!(
        TicketScheduler::decide(&delivery),
        SchedulerNextAction::ContinueDownstream(deliver_accepted)
    );
}

#[test]
fn cost_and_paid_session_gates_precede_expired_campaign_closeout() {
    let complete = TicketBufferStatus {
        delivered_attempt_count: 2,
        campaign_cost_known: false,
        ..status()
    };
    assert!(matches!(
        TicketScheduler::decide(&complete),
        SchedulerNextAction::CompleteCampaign(_)
    ));

    let frozen = TicketBufferStatus {
        campaign_cost_known: false,
        ..status()
    };
    assert_eq!(
        TicketScheduler::decide(&frozen),
        SchedulerNextAction::Blocked(SchedulerConstraint::AggregateCostFrozen)
    );
    let expired = TicketBufferStatus {
        campaign_deadline_open: false,
        ..status()
    };
    assert_eq!(
        TicketScheduler::decide(&expired),
        SchedulerNextAction::Blocked(SchedulerConstraint::CampaignDeadlineElapsed)
    );
    let paid = TicketBufferStatus {
        paid_session_active: true,
        ..status()
    };
    assert_eq!(
        TicketScheduler::decide(&paid),
        SchedulerNextAction::Blocked(SchedulerConstraint::PaidSessionActive)
    );

    let delivery = downstream_action(
        DownstreamActionStage::DeliverAccepted,
        17,
        10,
        24,
        5,
    );
    let expired_delivery = TicketBufferStatus {
        campaign_deadline_open: false,
        downstream_attempt_count: 1,
        downstream_action: Some(delivery),
        ..status()
    };
    assert_eq!(
        TicketScheduler::decide(&expired_delivery),
        SchedulerNextAction::ContinueDownstream(delivery),
        "deadline expiry blocks paid work, not deterministic local delivery"
    );
    let expired_delivery_with_paid_session = TicketBufferStatus {
        paid_session_active: true,
        ..expired_delivery
    };
    assert_eq!(
        TicketScheduler::decide(&expired_delivery_with_paid_session),
        SchedulerNextAction::Blocked(SchedulerConstraint::PaidSessionActive)
    );
}

#[test]
fn restart_and_stale_claim_reads_are_deterministic_and_revision_fenced() {
    let snapshot = TicketBufferStatus {
        ready_count: 3,
        oldest_sponsored_ticket: Some(ready_ticket(21, 8)),
        ..status()
    };
    let before_restart = TicketScheduler::decide(&snapshot);
    let after_restart = TicketScheduler::decide(&snapshot);
    assert_eq!(before_restart, after_restart);

    let SchedulerNextAction::ClaimReadyTicket(action) = before_restart else {
        panic!("ready FIFO head must produce a claim action");
    };
    assert_eq!(action.ticket, ready_ticket(21, 8));
    let changed_head = TicketBufferStatus {
        oldest_sponsored_ticket: Some(ready_ticket(21, 9)),
        ..snapshot
    };
    let SchedulerNextAction::ClaimReadyTicket(changed_action) =
        TicketScheduler::decide(&changed_head)
    else {
        panic!("ready FIFO head must produce a claim action");
    };
    assert_ne!(action.ticket.revision, changed_action.ticket.revision);
}

#[test]
fn inconsistent_buffer_reads_fail_closed_without_writes() {
    let missing_head = TicketBufferStatus {
        ready_count: 1,
        ..status()
    };
    assert_eq!(
        TicketScheduler::decide(&missing_head),
        SchedulerNextAction::Blocked(SchedulerConstraint::ReadyBufferHeadMissing)
    );
    let unexpected_head = TicketBufferStatus {
        oldest_sponsored_ticket: Some(ready_ticket(1, 0)),
        ..status()
    };
    assert_eq!(
        TicketScheduler::decide(&unexpected_head),
        SchedulerNextAction::Blocked(SchedulerConstraint::ReadyBufferHeadUnexpected)
    );
    let missing_downstream = TicketBufferStatus {
        downstream_attempt_count: 1,
        ..status()
    };
    assert_eq!(
        TicketScheduler::decide(&missing_downstream),
        SchedulerNextAction::Blocked(SchedulerConstraint::DownstreamActionHeadMissing)
    );
    let unexpected_downstream = TicketBufferStatus {
        downstream_action: Some(downstream_action(
            DownstreamActionStage::Quality,
            1,
            0,
            1,
            0,
        )),
        ..status()
    };
    assert_eq!(
        TicketScheduler::decide(&unexpected_downstream),
        SchedulerNextAction::Blocked(SchedulerConstraint::DownstreamActionHeadUnexpected)
    );
    let overfull = TicketBufferStatus {
        ready_count: 6,
        oldest_sponsored_ticket: Some(ready_ticket(1, 0)),
        ..status()
    };
    assert!(matches!(
        TicketScheduler::decide(&overfull),
        SchedulerNextAction::Blocked(SchedulerConstraint::ReadyBufferMaximumExceeded { .. })
    ));
}
