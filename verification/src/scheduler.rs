//! The one next action a ticket-buffer status leads to.

use vstd::prelude::*;

use crate::identity::{CampaignId, ExpectedRevision};
use crate::ticket::CurrentHeadRequalification;
use crate::ticket_commands::{ClaimSponsoredTicket, CompleteCampaignAtDeliveryTarget};
use crate::ticket_status::{
    DownstreamActionContext, DownstreamActionStage, SponsoredTicketClaimContext,
    TicketBufferStatus,
};

verus! {

/// One application may have one ticket in flight.
pub const IN_FLIGHT_TICKET_MAXIMUM: u32 = 1;

/// Decides from a status alone. It owns no process and starts nothing.
#[derive(Clone, Copy, Debug, PartialEq, Eq)]
pub struct TicketScheduler {}

/// A campaign's terminal transition, fenced by the observed revision.
#[derive(Clone, Copy, Debug, PartialEq, Eq, Structural)]
pub struct CompleteCampaignAction {
    pub campaign_id: CampaignId,
    pub expected_campaign_revision: ExpectedRevision,
}

/// One exact sponsored revision to requalify and claim.
#[derive(Clone, Copy, Debug, PartialEq, Eq, Structural)]
pub struct ClaimReadyTicketAction {
    pub campaign_id: CampaignId,
    pub expected_campaign_revision: ExpectedRevision,
    pub ticket: SponsoredTicketClaimContext,
}

/// Why nothing can be done now.
#[derive(Clone, Copy, Debug, PartialEq, Eq, Structural)]
#[allow(inconsistent_fields)]
pub enum SchedulerConstraint {
    CampaignTerminal,
    AggregateCostFrozen,
    CampaignDeadlineElapsed,
    PaidSessionActive,
    InFlightTicketLimitReached { in_flight_count: u32, maximum: u32 },
    ReadyBufferMaximumExceeded { ready_count: u32, maximum: u32 },
    ProposalBufferMaximumExceeded { proposed_count: u32, maximum: u32 },
    DownstreamActionHeadMissing,
    DownstreamActionHeadUnexpected,
    ReadyBufferHeadMissing,
    ReadyBufferHeadUnexpected,
}

/// The next action. None of them writes or starts a process by itself.
#[derive(Clone, Copy, Debug, PartialEq, Eq, Structural)]
#[allow(inconsistent_fields)]
pub enum SchedulerNextAction {
    CompleteCampaign(CompleteCampaignAction),
    ReplenishProduct { campaign_id: CampaignId, expected_campaign_revision: ExpectedRevision },
    ClaimReadyTicket(ClaimReadyTicketAction),
    ContinueDownstream(DownstreamActionContext),
    AwaitArchitectDecision { campaign_id: CampaignId, proposed_count: u32 },
    Blocked(SchedulerConstraint),
    Idle { campaign_id: CampaignId },
}

/// Whether the downstream head is work that costs nothing and may be finished
/// after the deadline.
pub open spec fn is_open_delivery(status: TicketBufferStatus) -> bool {
    &&& status.downstream_attempt_count > 0
    &&& status.downstream_action is Some
    &&& status.downstream_action->0.stage == DownstreamActionStage::DeliverAccepted
}

/// What holds a campaign back before any ticket is looked at.
pub open spec fn campaign_gate(status: TicketBufferStatus) -> Option<SchedulerNextAction> {
    if !status.campaign_is_running {
        Some(SchedulerNextAction::Blocked(SchedulerConstraint::CampaignTerminal))
    } else if status.delivered_attempt_count >= status.delivery_target {
        Some(
            SchedulerNextAction::CompleteCampaign(
                CompleteCampaignAction {
                    campaign_id: status.campaign_id,
                    expected_campaign_revision: ExpectedRevision {
                        revision: status.campaign_revision,
                    },
                },
            ),
        )
    } else if !status.campaign_cost_known {
        Some(SchedulerNextAction::Blocked(SchedulerConstraint::AggregateCostFrozen))
    } else if status.paid_session_active {
        Some(SchedulerNextAction::Blocked(SchedulerConstraint::PaidSessionActive))
    } else if !status.campaign_deadline_open && is_open_delivery(status) {
        Some(SchedulerNextAction::ContinueDownstream(status.downstream_action->0))
    } else if !status.campaign_deadline_open {
        Some(SchedulerNextAction::Blocked(SchedulerConstraint::CampaignDeadlineElapsed))
    } else {
        None
    }
}

/// Started work goes before anything new, and a count that disagrees with its
/// head stops everything.
pub open spec fn downstream_gate(status: TicketBufferStatus) -> Option<SchedulerNextAction> {
    match status.downstream_action {
        Some(action) => if status.downstream_attempt_count == 0 {
            Some(SchedulerNextAction::Blocked(SchedulerConstraint::DownstreamActionHeadUnexpected))
        } else {
            Some(SchedulerNextAction::ContinueDownstream(action))
        },
        None => if status.downstream_attempt_count > 0 {
            Some(SchedulerNextAction::Blocked(SchedulerConstraint::DownstreamActionHeadMissing))
        } else {
            None
        },
    }
}

/// Buffers past their bounds, and a ready count that disagrees with its head.
pub open spec fn buffer_gate(status: TicketBufferStatus) -> Option<SchedulerNextAction> {
    if status.in_flight_count >= IN_FLIGHT_TICKET_MAXIMUM {
        Some(
            SchedulerNextAction::Blocked(
                SchedulerConstraint::InFlightTicketLimitReached {
                    in_flight_count: status.in_flight_count,
                    maximum: IN_FLIGHT_TICKET_MAXIMUM,
                },
            ),
        )
    } else if status.maximum is Some && status.ready_count > status.maximum->0 {
        Some(
            SchedulerNextAction::Blocked(
                SchedulerConstraint::ReadyBufferMaximumExceeded {
                    ready_count: status.ready_count,
                    maximum: status.maximum->0,
                },
            ),
        )
    } else if status.proposed_count > status.proposal_maximum {
        Some(
            SchedulerNextAction::Blocked(
                SchedulerConstraint::ProposalBufferMaximumExceeded {
                    proposed_count: status.proposed_count,
                    maximum: status.proposal_maximum,
                },
            ),
        )
    } else if status.ready_count == 0 && status.oldest_sponsored_ticket is Some {
        Some(SchedulerNextAction::Blocked(SchedulerConstraint::ReadyBufferHeadUnexpected))
    } else if status.ready_count > 0 && status.oldest_sponsored_ticket is None {
        Some(SchedulerNextAction::Blocked(SchedulerConstraint::ReadyBufferHeadMissing))
    } else {
        None
    }
}

/// What to do with consistent buffers: claim the oldest sponsored ticket, wait
/// for pending proposals, replenish below the target, or idle.
pub open spec fn buffer_action(status: TicketBufferStatus) -> SchedulerNextAction {
    let expected_campaign_revision = ExpectedRevision { revision: status.campaign_revision };
    match status.oldest_sponsored_ticket {
        Some(ticket) => SchedulerNextAction::ClaimReadyTicket(
            ClaimReadyTicketAction {
                campaign_id: status.campaign_id,
                expected_campaign_revision,
                ticket,
            },
        ),
        None => if status.proposed_count > 0 {
            SchedulerNextAction::AwaitArchitectDecision {
                campaign_id: status.campaign_id,
                proposed_count: status.proposed_count,
            }
        } else if status.ready_count < status.low_water || status.ready_count < status.target {
            SchedulerNextAction::ReplenishProduct {
                campaign_id: status.campaign_id,
                expected_campaign_revision,
            }
        } else {
            SchedulerNextAction::Idle { campaign_id: status.campaign_id }
        },
    }
}

/// The next action of a status.
pub open spec fn spec_decide(status: TicketBufferStatus) -> SchedulerNextAction {
    if campaign_gate(status) is Some {
        campaign_gate(status)->0
    } else if downstream_gate(status) is Some {
        downstream_gate(status)->0
    } else if buffer_gate(status) is Some {
        buffer_gate(status)->0
    } else {
        buffer_action(status)
    }
}

impl TicketScheduler {
    /// Decides the next action from a status alone.
    pub fn decide(status: &TicketBufferStatus) -> (action: SchedulerNextAction)
        ensures
            action == spec_decide(*status),
    {
        if !status.campaign_is_running {
            return SchedulerNextAction::Blocked(SchedulerConstraint::CampaignTerminal);
        }
        let expected_campaign_revision = ExpectedRevision::new(status.campaign_revision);
        if status.delivered_attempt_count >= status.delivery_target {
            return SchedulerNextAction::CompleteCampaign(
                CompleteCampaignAction {
                    campaign_id: status.campaign_id,
                    expected_campaign_revision,
                },
            );
        }
        if !status.campaign_cost_known {
            return SchedulerNextAction::Blocked(SchedulerConstraint::AggregateCostFrozen);
        }
        if status.paid_session_active {
            return SchedulerNextAction::Blocked(SchedulerConstraint::PaidSessionActive);
        }
        if !status.campaign_deadline_open {
            if status.downstream_attempt_count > 0 {
                if let Some(action) = status.downstream_action {
                    if action.stage == DownstreamActionStage::DeliverAccepted {
                        return SchedulerNextAction::ContinueDownstream(action);
                    }
                }
            }
            return SchedulerNextAction::Blocked(SchedulerConstraint::CampaignDeadlineElapsed);
        }
        match status.downstream_action {
            Some(action) => {
                if status.downstream_attempt_count == 0 {
                    return SchedulerNextAction::Blocked(
                        SchedulerConstraint::DownstreamActionHeadUnexpected,
                    );
                }
                return SchedulerNextAction::ContinueDownstream(action);
            },
            None => {
                if status.downstream_attempt_count > 0 {
                    return SchedulerNextAction::Blocked(
                        SchedulerConstraint::DownstreamActionHeadMissing,
                    );
                }
            },
        }
        if status.in_flight_count >= IN_FLIGHT_TICKET_MAXIMUM {
            return SchedulerNextAction::Blocked(
                SchedulerConstraint::InFlightTicketLimitReached {
                    in_flight_count: status.in_flight_count,
                    maximum: IN_FLIGHT_TICKET_MAXIMUM,
                },
            );
        }
        if let Some(maximum) = status.maximum {
            if status.ready_count > maximum {
                return SchedulerNextAction::Blocked(
                    SchedulerConstraint::ReadyBufferMaximumExceeded {
                        ready_count: status.ready_count,
                        maximum,
                    },
                );
            }
        }
        if status.proposed_count > status.proposal_maximum {
            return SchedulerNextAction::Blocked(
                SchedulerConstraint::ProposalBufferMaximumExceeded {
                    proposed_count: status.proposed_count,
                    maximum: status.proposal_maximum,
                },
            );
        }
        match status.oldest_sponsored_ticket {
            Some(ticket) => {
                if status.ready_count == 0 {
                    return SchedulerNextAction::Blocked(
                        SchedulerConstraint::ReadyBufferHeadUnexpected,
                    );
                }
                return SchedulerNextAction::ClaimReadyTicket(
                    ClaimReadyTicketAction {
                        campaign_id: status.campaign_id,
                        expected_campaign_revision,
                        ticket,
                    },
                );
            },
            None => {
                if status.ready_count > 0 {
                    return SchedulerNextAction::Blocked(
                        SchedulerConstraint::ReadyBufferHeadMissing,
                    );
                }
            },
        }
        if status.ready_count < status.low_water && status.proposed_count == 0 {
            return SchedulerNextAction::ReplenishProduct {
                campaign_id: status.campaign_id,
                expected_campaign_revision,
            };
        }
        if status.proposed_count > 0 {
            return SchedulerNextAction::AwaitArchitectDecision {
                campaign_id: status.campaign_id,
                proposed_count: status.proposed_count,
            };
        }
        if status.ready_count < status.target {
            return SchedulerNextAction::ReplenishProduct {
                campaign_id: status.campaign_id,
                expected_campaign_revision,
            };
        }
        SchedulerNextAction::Idle { campaign_id: status.campaign_id }
    }

    /// The claim command of an action, with both revisions it was decided on.
    pub fn claim_ready_ticket(
        principal: String,
        command_id: String,
        action: ClaimReadyTicketAction,
        requalification: CurrentHeadRequalification,
    ) -> (command: ClaimSponsoredTicket)
        ensures
            command == (ClaimSponsoredTicket {
                principal,
                command_id,
                campaign_id: action.campaign_id,
                expected_campaign_revision: action.expected_campaign_revision,
                ticket_revision_id: action.ticket.ticket_revision_id,
                expected_ticket_revision: ExpectedRevision { revision: action.ticket.revision },
                requalification,
            }),
    {
        ClaimSponsoredTicket {
            principal,
            command_id,
            campaign_id: action.campaign_id,
            expected_campaign_revision: action.expected_campaign_revision,
            ticket_revision_id: action.ticket.ticket_revision_id,
            expected_ticket_revision: ExpectedRevision::new(action.ticket.revision),
            requalification,
        }
    }

    /// The completion command of an action.
    pub fn complete_campaign(
        principal: String,
        command_id: String,
        action: CompleteCampaignAction,
    ) -> (command: CompleteCampaignAtDeliveryTarget)
        ensures
            command == (CompleteCampaignAtDeliveryTarget {
                principal,
                command_id,
                campaign_id: action.campaign_id,
                expected_campaign_revision: action.expected_campaign_revision,
            }),
    {
        CompleteCampaignAtDeliveryTarget {
            principal,
            command_id,
            campaign_id: action.campaign_id,
            expected_campaign_revision: action.expected_campaign_revision,
        }
    }
}

/// Whether an action asks for paid work.
pub open spec fn asks_for_new_work(action: SchedulerNextAction) -> bool {
    action is ReplenishProduct || action is ClaimReadyTicket
}

/// New work is only asked for by a running campaign short of its target, with
/// a known cost, an open deadline, no paid session, no started work and
/// nothing in flight.
pub proof fn law_new_work_passes_every_gate(status: TicketBufferStatus)
    requires
        asks_for_new_work(spec_decide(status)),
    ensures
        status.campaign_is_running,
        status.delivered_attempt_count < status.delivery_target,
        status.campaign_cost_known,
        !status.paid_session_active,
        status.campaign_deadline_open,
        status.downstream_attempt_count == 0,
        status.downstream_action is None,
        status.in_flight_count < IN_FLIGHT_TICKET_MAXIMUM,
        status.maximum is Some ==> status.ready_count <= status.maximum->0,
        status.proposed_count <= status.proposal_maximum,
{
}

/// After the deadline a short campaign only continues a delivery that was
/// already accepted.
pub proof fn law_deadline_lets_only_delivery_through(status: TicketBufferStatus)
    requires
        !status.campaign_deadline_open,
    ensures
        spec_decide(status) is ContinueDownstream ==> is_open_delivery(status) && spec_decide(
            status,
        )->ContinueDownstream_0 == status.downstream_action->0,
        !asks_for_new_work(spec_decide(status)),
        !(spec_decide(status) is AwaitArchitectDecision) && !(spec_decide(status) is Idle),
{
}

/// A running paid session blocks everything but completing the campaign.
pub proof fn law_paid_session_blocks_scheduling(status: TicketBufferStatus)
    requires
        status.paid_session_active,
    ensures
        spec_decide(status) is Blocked || spec_decide(status) is CompleteCampaign,
{
}

/// A sponsored ticket is claimed before Product is asked for more, and Product
/// is not asked while proposals await a decision.
pub proof fn law_sponsored_work_goes_first(status: TicketBufferStatus)
    ensures
        spec_decide(status) is ReplenishProduct ==> status.oldest_sponsored_ticket is None
            && status.ready_count == 0 && status.proposed_count == 0,
        spec_decide(status) is AwaitArchitectDecision ==> status.oldest_sponsored_ticket is None,
{
}

/// An action carries exactly the campaign, the ticket and the revisions of the
/// status it was decided on.
pub proof fn law_actions_are_revision_fenced(status: TicketBufferStatus)
    ensures
        match spec_decide(status) {
            SchedulerNextAction::CompleteCampaign(action) => action.campaign_id
                == status.campaign_id && action.expected_campaign_revision.revision
                == status.campaign_revision,
            SchedulerNextAction::ClaimReadyTicket(action) => action.campaign_id
                == status.campaign_id && action.expected_campaign_revision.revision
                == status.campaign_revision && Some(action.ticket)
                == status.oldest_sponsored_ticket,
            SchedulerNextAction::ReplenishProduct {
                campaign_id,
                expected_campaign_revision,
            } => campaign_id == status.campaign_id && expected_campaign_revision.revision
                == status.campaign_revision,
            SchedulerNextAction::ContinueDownstream(action) => Some(action)
                == status.downstream_action,
            SchedulerNextAction::AwaitArchitectDecision { campaign_id, proposed_count } =>
                campaign_id == status.campaign_id && proposed_count == status.proposed_count,
            SchedulerNextAction::Idle { campaign_id } => campaign_id == status.campaign_id,
            SchedulerNextAction::Blocked(_) => true,
        },
{
}

/// A count that disagrees with its head never leads to work.
pub proof fn law_inconsistent_reads_block(status: TicketBufferStatus)
    requires
        campaign_gate(status) is None,
        (status.downstream_attempt_count == 0) != (status.downstream_action is None) || (
        downstream_gate(status) is None && (status.ready_count == 0) != (
        status.oldest_sponsored_ticket is None)),
    ensures
        spec_decide(status) is Blocked,
{
}

/// A running campaign is completed exactly when its delivered attempts meet
/// its target, and a campaign that does not run is only ever reported as such.
pub proof fn law_completion_is_asked_exactly_at_the_target(status: TicketBufferStatus)
    ensures
        spec_decide(status) is CompleteCampaign <==> status.campaign_is_running
            && status.delivered_attempt_count >= status.delivery_target,
        spec_decide(status) == SchedulerNextAction::Blocked(SchedulerConstraint::CampaignTerminal)
            <==> !status.campaign_is_running,
{
}

/// A running campaign short of its target is held back by a frozen cost before
/// anything else, and by its paid session next.
pub proof fn law_frozen_cost_and_paid_session_hold_back(status: TicketBufferStatus)
    ensures
        spec_decide(status) == SchedulerNextAction::Blocked(
            SchedulerConstraint::AggregateCostFrozen,
        ) <==> {
            &&& status.campaign_is_running
            &&& status.delivered_attempt_count < status.delivery_target
            &&& !status.campaign_cost_known
        },
        spec_decide(status) == SchedulerNextAction::Blocked(SchedulerConstraint::PaidSessionActive)
            <==> {
            &&& status.campaign_is_running
            &&& status.delivered_attempt_count < status.delivery_target
            &&& status.campaign_cost_known
            &&& status.paid_session_active
        },
{
}

/// Started work is continued exactly when an unhindered campaign has some and
/// its head was read: at any stage before the deadline, and behind it only the
/// delivery of an accepted candidate. Without that the elapsed deadline blocks.
pub proof fn law_started_work_is_continued(
    status: TicketBufferStatus,
    action: DownstreamActionContext,
)
    requires
        status.campaign_is_running,
        status.delivered_attempt_count < status.delivery_target,
        status.campaign_cost_known,
        !status.paid_session_active,
    ensures
        spec_decide(status) == SchedulerNextAction::ContinueDownstream(action) <==> {
            &&& status.downstream_action == Some(action)
            &&& status.downstream_attempt_count > 0
            &&& status.campaign_deadline_open || action.stage
                == DownstreamActionStage::DeliverAccepted
        },
        spec_decide(status) == SchedulerNextAction::Blocked(
            SchedulerConstraint::CampaignDeadlineElapsed,
        ) <==> !status.campaign_deadline_open && !(status.downstream_attempt_count > 0
            && status.downstream_action is Some && status.downstream_action->0.stage
            == DownstreamActionStage::DeliverAccepted),
        spec_decide(status) == SchedulerNextAction::Blocked(
            SchedulerConstraint::DownstreamActionHeadMissing,
        ) <==> status.campaign_deadline_open && status.downstream_attempt_count > 0
            && status.downstream_action is None,
        spec_decide(status) == SchedulerNextAction::Blocked(
            SchedulerConstraint::DownstreamActionHeadUnexpected,
        ) <==> status.campaign_deadline_open && status.downstream_attempt_count == 0
            && status.downstream_action is Some,
{
}

/// With nothing started, a ticket in flight blocks, and behind it a buffer past
/// its bound; a missing ready maximum bounds nothing.
pub proof fn law_full_buffers_block(status: TicketBufferStatus)
    requires
        status.campaign_is_running,
        status.delivered_attempt_count < status.delivery_target,
        status.campaign_cost_known,
        !status.paid_session_active,
        status.campaign_deadline_open,
        status.downstream_attempt_count == 0,
        status.downstream_action is None,
    ensures
        status.in_flight_count >= 1 <==> spec_decide(status) == SchedulerNextAction::Blocked(
            SchedulerConstraint::InFlightTicketLimitReached {
                in_flight_count: status.in_flight_count,
                maximum: 1,
            },
        ),
        status.in_flight_count == 0 && status.maximum is Some && status.ready_count
            > status.maximum->0 <==> spec_decide(status) == SchedulerNextAction::Blocked(
            SchedulerConstraint::ReadyBufferMaximumExceeded {
                ready_count: status.ready_count,
                maximum: status.maximum->0,
            },
        ),
        status.in_flight_count == 0 && (status.maximum is Some ==> status.ready_count
            <= status.maximum->0) && status.proposed_count > status.proposal_maximum
            <==> spec_decide(status) == SchedulerNextAction::Blocked(
            SchedulerConstraint::ProposalBufferMaximumExceeded {
                proposed_count: status.proposed_count,
                maximum: status.proposal_maximum,
            },
        ),
{
}

/// Behind every gate the oldest sponsored ticket is claimed where there is one,
/// pending proposals are waited for where there is none, Product is asked for
/// more where a level is above zero, and only then the campaign idles. A ready
/// count that disagrees with its head blocks.
pub proof fn law_open_campaign_takes_the_next_step(status: TicketBufferStatus)
    requires
        status.campaign_is_running,
        status.delivered_attempt_count < status.delivery_target,
        status.campaign_cost_known,
        !status.paid_session_active,
        status.campaign_deadline_open,
        status.downstream_attempt_count == 0,
        status.downstream_action is None,
        status.in_flight_count == 0,
        status.maximum is Some ==> status.ready_count <= status.maximum->0,
        status.proposed_count <= status.proposal_maximum,
    ensures
        status.oldest_sponsored_ticket is Some && status.ready_count > 0 ==> spec_decide(status)
            == SchedulerNextAction::ClaimReadyTicket(
            ClaimReadyTicketAction {
                campaign_id: status.campaign_id,
                expected_campaign_revision: ExpectedRevision { revision: status.campaign_revision },
                ticket: status.oldest_sponsored_ticket->0,
            },
        ),
        status.oldest_sponsored_ticket is Some && status.ready_count == 0 ==> spec_decide(status)
            == SchedulerNextAction::Blocked(SchedulerConstraint::ReadyBufferHeadUnexpected),
        status.oldest_sponsored_ticket is None && status.ready_count > 0 ==> spec_decide(status)
            == SchedulerNextAction::Blocked(SchedulerConstraint::ReadyBufferHeadMissing),
        status.oldest_sponsored_ticket is None && status.ready_count == 0 && status.proposed_count
            > 0 ==> spec_decide(status) == (SchedulerNextAction::AwaitArchitectDecision {
            campaign_id: status.campaign_id,
            proposed_count: status.proposed_count,
        }),
        status.oldest_sponsored_ticket is None && status.ready_count == 0 && status.proposed_count
            == 0 && (status.low_water > 0 || status.target > 0) ==> spec_decide(status) == (
        SchedulerNextAction::ReplenishProduct {
            campaign_id: status.campaign_id,
            expected_campaign_revision: ExpectedRevision { revision: status.campaign_revision },
        }),
        status.oldest_sponsored_ticket is None && status.ready_count == 0 && status.proposed_count
            == 0 && status.low_water == 0 && status.target == 0 ==> spec_decide(status) == (
        SchedulerNextAction::Idle { campaign_id: status.campaign_id }),
{
}

} // verus!
