//! Campaigns from start to end on concrete values.

use factory_kernel::audit::AuditRow;
use factory_kernel::campaign::{
    admit_cancel_campaign, admit_campaign_cancellation, admit_fail_campaign,
    admit_finish_cancellation, admit_start_campaign, campaign_pinning, campaign_product_identity,
    campaign_status, campaign_transition_receipt, cancel_campaign, current_running_campaign_id,
    fail_campaign, fingerprint_campaign, fingerprint_cancel_campaign, fingerprint_fail_campaign,
    finish_campaign_cancellation, plan_transition, product_assignment_count,
    replayed_campaign_receipt, start_campaign, started_campaign_receipt, validate_failure_reason,
    ApplicationRow, CampaignCancellationAdmission, CampaignPinRow, CampaignRow,
    CampaignStatusRow, CancelCampaign, CurrentBuildRow, FailCampaign, ProductIdentityRow,
    ReconciledSessionCancellation, StartCampaign, StartCampaignFacts,
};
use factory_kernel::digest::ContentDigest;
use factory_kernel::error::StoreError;
use factory_kernel::identity::{
    AggregateRevision, ApplicationRevisionId, CampaignId, ContractError, ExpectedRevision,
    SessionId,
};
use factory_kernel::protocol::{CampaignState, MicroUsd, TerminalCost};

fn revision(value: u64) -> AggregateRevision {
    AggregateRevision::from_persisted(value)
}

fn campaign_id() -> CampaignId {
    CampaignId::new(7).unwrap()
}

fn build_digest() -> Vec<u8> {
    ContentDigest::of_bytes(b"build").as_bytes().to_vec()
}

fn start() -> StartCampaign {
    StartCampaign {
        principal: "operator".to_owned(),
        command_id: "start-1".to_owned(),
        expected_application_revision: ExpectedRevision::new(revision(3)),
        application_revision_id: ApplicationRevisionId::new(4).unwrap(),
        aggregate_budget: MicroUsd::new(1_000),
        deadline_unix_millis: 2_000,
        delivery_target: 2,
    }
}

fn facts() -> StartCampaignFacts {
    StartCampaignFacts {
        any_campaign_running: false,
        current_build: Some(CurrentBuildRow {
            id: 5,
            build_digest: build_digest(),
        }),
        application: Some(ApplicationRow {
            repository_id: 6,
            aggregate_revision: 3,
            is_active: true,
        }),
        deadline_open: true,
    }
}

#[test]
fn a_campaign_starts_on_the_current_build_and_active_application() {
    let command = start();
    assert_eq!(admit_start_campaign(&command, None), Ok(None));
    let plan = start_campaign(&command, &facts()).unwrap();
    assert_eq!(plan.kernel_build_row, 5);
    assert_eq!(plan.budget, 1_000);
    assert_eq!(plan.delivery_target, 2);
    let receipt = started_campaign_receipt(&command, &plan, 7, 8).unwrap();
    assert_eq!(receipt.campaign_id, campaign_id());
    assert_eq!(receipt.resulting_revision, AggregateRevision::initial());
    assert_eq!(receipt.repository_id.get(), 6);
    assert!(!receipt.was_idempotent_retry);
    assert_eq!(
        started_campaign_receipt(&command, &plan, 0, 8),
        Err(StoreError::Contract(ContractError::NonPositiveIdentity))
    );
}

#[test]
fn start_commands_are_bounded_and_keyed() {
    let bounds = Err(StoreError::InvalidProcessCommand {
        field: "campaign bounds",
    });
    let mut command = start();
    command.delivery_target = 0;
    assert_eq!(admit_start_campaign(&command, None), bounds);
    let mut command = start();
    command.deadline_unix_millis = 0;
    assert_eq!(admit_start_campaign(&command, None), bounds);
    let row = AuditRow {
        id: 8,
        operation: "campaign.start".to_owned(),
        command_fingerprint: fingerprint_campaign(&start()).as_bytes().to_vec(),
        subject_kind: 4,
        subject_id: 7,
        resulting_revision: 0,
    };
    let audit = admit_start_campaign(&start(), Some(&row)).unwrap().unwrap();
    let pins = campaign_pinning(
        Some(&CampaignPinRow {
            build_digest: build_digest(),
            application_revision_id: 4,
            repository_id: 6,
        }),
        campaign_id(),
    )
    .unwrap();
    let receipt = replayed_campaign_receipt(&audit, &pins).unwrap();
    assert!(receipt.was_idempotent_retry);
    assert_eq!(receipt.campaign_id, campaign_id());
    let mut other = start();
    other.aggregate_budget = MicroUsd::new(1_001);
    assert!(matches!(
        admit_start_campaign(&other, Some(&row)),
        Err(StoreError::IdempotencyConflict { .. })
    ));
}

#[test]
fn a_start_is_refused_where_its_facts_do_not_hold() {
    let refused = |change: fn(&mut StartCampaign, &mut StartCampaignFacts)| {
        let mut command = start();
        let mut facts = facts();
        change(&mut command, &mut facts);
        start_campaign(&command, &facts).unwrap_err()
    };
    let application_revision_id = ApplicationRevisionId::new(4).unwrap();
    assert_eq!(
        refused(|_, facts| facts.any_campaign_running = true),
        StoreError::CampaignAlreadyRunning
    );
    assert_eq!(
        refused(|_, facts| facts.current_build = None),
        StoreError::NoCurrentKernelBuild
    );
    assert_eq!(
        refused(|_, facts| facts.current_build.as_mut().unwrap().build_digest.clear()),
        StoreError::CorruptDigestColumn
    );
    assert_eq!(
        refused(|_, facts| facts.application = None),
        StoreError::UnknownApplicationRevision {
            application_revision_id
        }
    );
    assert_eq!(
        refused(|_, facts| facts.application.as_mut().unwrap().aggregate_revision = 4),
        StoreError::RevisionConflict {
            expected: ExpectedRevision::new(revision(3)),
            current: revision(4),
        }
    );
    assert_eq!(
        refused(|_, facts| facts.application.as_mut().unwrap().is_active = false),
        StoreError::ApplicationRevisionInactive {
            application_revision_id
        }
    );
    assert_eq!(
        refused(|command, _| command.aggregate_budget = MicroUsd::new(u64::MAX)),
        StoreError::InvalidProcessCommand {
            field: "aggregate budget"
        }
    );
    assert_eq!(
        refused(|_, facts| facts.deadline_open = false),
        StoreError::CampaignDeadlineElapsed
    );
}

fn cancel() -> CancelCampaign {
    CancelCampaign {
        principal: "operator".to_owned(),
        command_id: "cancel-1".to_owned(),
        expected_revision: ExpectedRevision::new(revision(3)),
        campaign_id: campaign_id(),
    }
}

fn running() -> Option<CampaignRow> {
    Some(CampaignRow {
        lifecycle: 0,
        revision: 3,
    })
}

#[test]
fn a_cancellation_waits_for_the_active_session() {
    assert_eq!(admit_cancel_campaign(&cancel(), None), Ok(None));
    let direct = admit_campaign_cancellation(&cancel(), running(), None).unwrap();
    let transition = cancel_campaign(&cancel(), direct).unwrap();
    assert_eq!(transition.resulting_revision, revision(4));
    let session_id = SessionId::new(21).unwrap();
    let active = admit_campaign_cancellation(&cancel(), running(), Some(21)).unwrap();
    assert_eq!(
        active,
        CampaignCancellationAdmission::ActiveSession { session_id }
    );
    assert_eq!(
        cancel_campaign(&cancel(), active),
        Err(StoreError::CampaignHasRunningSession {
            campaign_id: campaign_id()
        })
    );
    let reconciled = ReconciledSessionCancellation {
        campaign_id: campaign_id(),
        session_id,
        campaign_revision: revision(4),
    };
    assert_eq!(
        admit_finish_cancellation(&cancel(), reconciled, None),
        Ok(None)
    );
    let finished = finish_campaign_cancellation(
        &cancel(),
        reconciled,
        Some(CampaignRow {
            lifecycle: 0,
            revision: 4,
        }),
    )
    .unwrap();
    assert_eq!(finished.resulting_revision, revision(5));
    let stale = ReconciledSessionCancellation {
        campaign_revision: revision(5),
        ..reconciled
    };
    assert_eq!(
        admit_finish_cancellation(&cancel(), stale, None),
        Err(StoreError::InvalidProcessCommand {
            field: "reconciled cancellation session"
        })
    );
}

#[test]
fn campaign_transitions_are_fenced_by_revision_and_lifecycle() {
    let conflict = StoreError::RevisionConflict {
        expected: ExpectedRevision::new(revision(3)),
        current: revision(9),
    };
    let moved = Some(CampaignRow {
        lifecycle: 0,
        revision: 9,
    });
    let closed = Some(CampaignRow {
        lifecycle: 1,
        revision: 3,
    });
    assert_eq!(
        admit_campaign_cancellation(&cancel(), moved, None),
        Err(conflict.clone())
    );
    assert_eq!(
        admit_campaign_cancellation(&cancel(), closed, None),
        Err(StoreError::CampaignClosed {
            campaign_id: campaign_id()
        })
    );
    assert_eq!(
        admit_campaign_cancellation(&cancel(), None, None),
        Err(StoreError::UnknownCampaign {
            campaign_id: campaign_id()
        })
    );
    assert_eq!(fail_campaign(&fail(), moved, false), Err(conflict));
    assert_eq!(
        fail_campaign(&fail(), closed, false),
        Err(StoreError::CampaignClosed {
            campaign_id: campaign_id()
        })
    );
    assert_eq!(
        plan_transition(revision(i64::MAX as u64)),
        Err(StoreError::RevisionOutOfRange)
    );
}

fn fail() -> FailCampaign {
    FailCampaign {
        principal: "operator".to_owned(),
        command_id: "fail-1".to_owned(),
        expected_revision: ExpectedRevision::new(revision(3)),
        campaign_id: campaign_id(),
        reason: "broken".to_owned(),
    }
}

#[test]
fn a_failed_campaign_carries_one_bounded_reason() {
    assert_eq!(admit_fail_campaign(&fail(), None), Ok(None));
    let transition = fail_campaign(&fail(), running(), false).unwrap();
    assert_eq!(transition.revision_column, 4);
    assert_eq!(
        fail_campaign(&fail(), running(), true),
        Err(StoreError::CampaignHasRunningSession {
            campaign_id: campaign_id()
        })
    );
    let pins = campaign_pinning(
        Some(&CampaignPinRow {
            build_digest: build_digest(),
            application_revision_id: 4,
            repository_id: 6,
        }),
        campaign_id(),
    )
    .unwrap();
    let receipt = campaign_transition_receipt(campaign_id(), &transition, &pins, 9);
    assert_eq!(receipt.audit_log_id, 9);
    assert_eq!(receipt.resulting_revision, revision(4));
    let reason = Err(StoreError::InvalidProcessCommand {
        field: "campaign failure reason",
    });
    assert_eq!(validate_failure_reason(""), reason);
    assert_eq!(validate_failure_reason(&"x".repeat(241)), reason);
    assert_eq!(validate_failure_reason(&"x".repeat(240)), Ok(()));
    for unprintable in ["\0", "\u{7}\u{1b}", "a\nb", "a\tb", "a\u{1f}", "\u{7f}", "a\u{80}", "\u{9f}b"] {
        assert_eq!(validate_failure_reason(unprintable), reason);
    }
    for printable in [" ", "~", "\u{a0}", "delivery host \u{2014} unreachable"] {
        assert_eq!(validate_failure_reason(printable), Ok(()));
    }
    let fail = FailCampaign {
        reason: "\u{7}\u{1b}".to_owned(),
        ..fail()
    };
    assert_eq!(admit_fail_campaign(&fail, None), Err(reason.unwrap_err()));
}

#[test]
fn fingerprints_separate_commands_and_operations() {
    let a = fingerprint_cancel_campaign(&cancel());
    let mut other = cancel();
    other.command_id = "cancel-2".to_owned();
    assert_ne!(a, fingerprint_cancel_campaign(&other));
    let mut reasoned = fail();
    reasoned.reason = "other".to_owned();
    assert_ne!(
        fingerprint_fail_campaign(&fail()),
        fingerprint_fail_campaign(&reasoned)
    );
    let mut preimage = Vec::new();
    for text in ["campaign.cancel", "operator", "cancel-1"] {
        preimage.extend((text.len() as u64).to_be_bytes());
        preimage.extend(text.as_bytes());
    }
    preimage.extend(3_u64.to_be_bytes());
    preimage.extend(7_i64.to_be_bytes());
    assert_eq!(a, ContentDigest::of_bytes(&preimage));
}

#[test]
fn a_status_reports_state_and_cost() {
    let row = CampaignStatusRow {
        lifecycle: 2,
        failure_reason: Some("broken".to_owned()),
        aggregate_budget_micro_usd: 1_000,
        measured_cost_micro_usd: 400,
        cost_state: 0,
        revision: 4,
        application_revision_id: 4,
        repository_id: 6,
        delivery_target: 2,
        deadline_unix_millis: 2_000,
        build_digest: build_digest(),
    };
    let status = campaign_status(campaign_id(), Some(&row)).unwrap();
    assert_eq!(status.state, CampaignState::Failed);
    assert_eq!(status.measured_cost, TerminalCost::Known(MicroUsd::new(400)));
    assert_eq!(status.failure_reason.as_deref(), Some("broken"));
    assert_eq!(
        campaign_status(campaign_id(), None),
        Err(StoreError::UnknownCampaign {
            campaign_id: campaign_id()
        })
    );
    let corrupt = CampaignStatusRow {
        lifecycle: 9,
        ..row
    };
    assert_eq!(
        campaign_status(campaign_id(), Some(&corrupt)),
        Err(StoreError::CorruptLifecycleColumn)
    );
}

#[test]
fn one_campaign_runs_at_a_time() {
    assert_eq!(current_running_campaign_id(&[]), Ok(None));
    assert_eq!(current_running_campaign_id(&[7]), Ok(Some(campaign_id())));
    assert_eq!(
        current_running_campaign_id(&[7, 8]),
        Err(StoreError::RunningCampaignCardinality {
            observed_running: 2
        })
    );
    assert_eq!(product_assignment_count(5), Ok(5));
    assert!(product_assignment_count(-1).is_err());
}

#[test]
fn a_product_identity_prefers_the_candidate_base() {
    let row = ProductIdentityRow {
        claimed_commit: Some("claimed".to_owned()),
        base_commit: None,
        candidate_tree: None,
        candidate_commit: None,
        delivered_commit: Some("delivered".to_owned()),
        delivered_factory_cost_micro_usd: Some(12),
    };
    let claimed = campaign_product_identity(row.clone()).unwrap();
    assert_eq!(claimed.base_commit.as_deref(), Some("claimed"));
    assert_eq!(claimed.delivered_factory_cost_micro_usd, Some(12));
    let candidate = campaign_product_identity(ProductIdentityRow {
        base_commit: Some("base".to_owned()),
        ..row.clone()
    })
    .unwrap();
    assert_eq!(candidate.base_commit.as_deref(), Some("base"));
    assert_eq!(
        campaign_product_identity(ProductIdentityRow {
            delivered_factory_cost_micro_usd: Some(-1),
            ..row
        }),
        Err(StoreError::CorruptCostColumn)
    );
}
