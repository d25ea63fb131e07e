//! Session ends, costs and the provider-effect ledger on concrete values.

use factory_kernel::protocol::{
    operation_mask, operation_mask_one, session_state, MicroUsd, SessionState, StopReason,
    TerminalOperation, UsageTotals,
};
use factory_kernel::digest::ContentDigest;
use factory_kernel::error::StoreError;
use factory_kernel::identity::{AggregateRevision, AssignmentId, ExpectedRevision, SessionId};
use factory_kernel::provider_effect::{
    provider_effect_ledger, provider_effect_ledger_row, provider_effect_settle,
    provider_effect_start, provider_effect_state_from_code, require_provider_effect_command,
    EffectLedgerColumns, EffectSessionRow, EffectSettleDecision, EffectSettlementRow,
    EffectStartDecision, EffectStartRow, ProviderEffectLedgerRow, ProviderEffectState,
    ProviderRequestSettle, ProviderRequestStart,
};

#[test]
fn terminal_state_mapping_keeps_infrastructure_stops_interrupted() {
    assert_eq!(
        session_state(StopReason::Completed),
        SessionState::Succeeded
    );
    assert_eq!(
        session_state(StopReason::DaemonDisconnected),
        SessionState::Interrupted
    );
    assert_eq!(
        session_state(StopReason::UnknownCost),
        SessionState::Failed
    );
    assert_eq!(session_state(StopReason::CostLimit), SessionState::Failed);
}

#[test]
fn terminal_operation_mask_is_closed_and_bounded() {
    let mask = operation_mask(&[
        TerminalOperation::WorkComplete,
        TerminalOperation::QualitySubmitReview,
    ]);
    assert_eq!(mask, 1 | (1 << 2));
    assert_eq!(operation_mask_one(None), 0);
}

#[test]
fn provider_cost_is_unknown_when_absent_even_with_token_usage() {
    let usage = UsageTotals {
        input_tokens: Some(100),
        output_tokens: Some(100),
        reported_cost_micro_usd: None,
        ..UsageTotals::default()
    };
    assert!(usage.provider_cost().is_err());
}

fn provider_row(
    state: ProviderEffectState,
    tokens: Option<u64>,
    cost: Option<u64>,
) -> ProviderEffectLedgerRow {
    ProviderEffectLedgerRow {
        state,
        input_tokens: tokens,
        output_tokens: tokens,
        cache_read_tokens: tokens,
        cache_write_tokens: tokens,
        reasoning_tokens: tokens,
        reported_cost_micro_usd: cost.map(MicroUsd::new),
    }
}

#[test]
fn provider_effect_ledger_recovers_multiple_complete_turns() {
    let ledger = provider_effect_ledger(&[
        provider_row(ProviderEffectState::Settled, Some(2), Some(3)),
        provider_row(ProviderEffectState::Settled, Some(5), Some(7)),
    ])
    .expect("complete provider ledger");
    assert_eq!(ledger.provider_effect_count, 2);
    assert_eq!(ledger.settled_provider_effect_count, 2);
    assert!(ledger.complete_usage);
    assert!(ledger.complete_cost);
    assert_eq!(ledger.usage.input_tokens, Some(7));
    assert_eq!(ledger.usage.cache_read_tokens, Some(7));
    assert_eq!(ledger.usage.reported_cost_micro_usd, Some(MicroUsd::new(10)));
}

#[test]
fn provider_effect_ledger_distinguishes_known_zero_from_unknown() {
    let zero = provider_effect_ledger(&[provider_row(
        ProviderEffectState::Settled,
        Some(0),
        Some(0),
    )])
    .expect("known zero provider ledger");
    assert!(zero.complete_cost);
    assert_eq!(zero.usage.reported_cost_micro_usd, Some(MicroUsd::new(0)));

    let unknown = provider_effect_ledger(&[provider_row(
        ProviderEffectState::Settled,
        None,
        None,
    )])
    .expect("unknown provider ledger remains representable");
    assert!(!unknown.complete_usage);
    assert!(!unknown.complete_cost);
    assert_eq!(unknown.usage.input_tokens, None);
    assert_eq!(unknown.usage.reported_cost_micro_usd, None);
}

#[test]
fn started_provider_effect_keeps_terminal_cost_incomplete() {
    let ledger = provider_effect_ledger(&[provider_row(
        ProviderEffectState::Started,
        Some(1),
        Some(1),
    )])
    .expect("started effect ledger");
    assert_eq!(ledger.settled_provider_effect_count, 0);
    assert!(!ledger.complete_usage);
    assert!(!ledger.complete_cost);
    assert_eq!(ledger.usage.reported_cost_micro_usd, None);
}

fn session_id() -> SessionId {
    SessionId::new(7).unwrap()
}

fn assignment_id() -> AssignmentId {
    AssignmentId::new(2).unwrap()
}

fn effect_start() -> ProviderRequestStart {
    ProviderRequestStart {
        client_command_id: "provider-effect-start-session-7-assignment-2-run-run-effect-1"
            .to_owned(),
        expected_revision: 0,
        core_run_id: "run".to_owned(),
        effect_id: 1,
        harness_snapshot_id: "snapshot".to_owned(),
        harness_revision_id: "revision".to_owned(),
        model_harness_profile_id: "profile".to_owned(),
        provider_surface_digest: ContentDigest::of_bytes(b"surface").to_hex(),
        provider: "provider".to_owned(),
        model: "model".to_owned(),
        request_fingerprint: ContentDigest::of_bytes(b"request").to_hex(),
    }
}

fn effect_session() -> EffectSessionRow {
    EffectSessionRow {
        assignment_id: 2,
        revision: 0,
        lifecycle: 1,
        model_provider: "provider".to_owned(),
        model_id: "model".to_owned(),
    }
}

fn start_effect(
    request: &ProviderRequestStart,
    session: Option<&EffectSessionRow>,
    existing: Option<&EffectStartRow>,
) -> Result<EffectStartDecision, StoreError> {
    provider_effect_start(session_id(), assignment_id(), request, session, existing)
}

#[test]
fn a_provider_request_is_recorded_once() {
    let decision = start_effect(&effect_start(), Some(&effect_session()), None).unwrap();
    assert_eq!(
        decision,
        EffectStartDecision::Insert {
            effect_id: 1,
            provider_surface_digest: ContentDigest::of_bytes(b"surface"),
            request_fingerprint: ContentDigest::of_bytes(b"request"),
        }
    );
    let recorded = EffectStartRow {
        harness_snapshot_id: "snapshot".to_owned(),
        harness_revision_id: "revision".to_owned(),
        model_harness_profile_id: "profile".to_owned(),
        provider_surface_digest: ContentDigest::of_bytes(b"surface").as_bytes().to_vec(),
        provider: "provider".to_owned(),
        model: "model".to_owned(),
        request_fingerprint: ContentDigest::of_bytes(b"request").as_bytes().to_vec(),
        state: 0,
    };
    assert_eq!(
        start_effect(&effect_start(), Some(&effect_session()), Some(&recorded)),
        Ok(EffectStartDecision::Recorded(ProviderEffectState::Started))
    );
    let other = EffectStartRow {
        harness_revision_id: "other".to_owned(),
        ..recorded
    };
    assert_eq!(
        start_effect(&effect_start(), Some(&effect_session()), Some(&other)),
        Err(StoreError::ProviderEffectConflict)
    );
}

#[test]
fn a_provider_request_belongs_to_its_running_session() {
    assert_eq!(
        start_effect(&effect_start(), None, None),
        Err(StoreError::UnknownSession {
            session_id: session_id()
        })
    );
    let ended = EffectSessionRow {
        lifecycle: 2,
        ..effect_session()
    };
    assert_eq!(
        start_effect(&effect_start(), Some(&ended), None),
        Err(StoreError::SessionAlreadyTerminal {
            session_id: session_id()
        })
    );
    let moved = EffectSessionRow {
        revision: 1,
        ..effect_session()
    };
    assert_eq!(
        start_effect(&effect_start(), Some(&moved), None),
        Err(StoreError::RevisionConflict {
            expected: ExpectedRevision::new(AggregateRevision::from_persisted(0)),
            current: AggregateRevision::from_persisted(1),
        })
    );
    let elsewhere = EffectSessionRow {
        model_id: "other".to_owned(),
        ..effect_session()
    };
    assert_eq!(
        start_effect(&effect_start(), Some(&elsewhere), None),
        Err(StoreError::PacketIdentityMismatch)
    );
    let mut renamed = effect_start();
    renamed.client_command_id = "mine".to_owned();
    assert_eq!(
        start_effect(&renamed, Some(&effect_session()), None),
        Err(StoreError::InvalidProcessCommand {
            field: "provider effect client command ID"
        })
    );
    assert_eq!(
        require_provider_effect_command(
            "settle",
            session_id(),
            assignment_id(),
            "provider-effect-settle-session-7-assignment-2-run-run-effect-9",
            "run",
            9,
        ),
        Ok(())
    );
}

fn effect_settle() -> ProviderRequestSettle {
    ProviderRequestSettle {
        client_command_id: "provider-effect-settle-session-7-assignment-2-run-run-effect-1"
            .to_owned(),
        expected_revision: 0,
        core_run_id: "run".to_owned(),
        effect_id: 1,
        outcome: "settled".to_owned(),
        stop_reason: "stop".to_owned(),
        context_overflow: false,
        input_tokens: Some(3),
        output_tokens: Some(4),
        cache_read_tokens: None,
        cache_write_tokens: None,
        reasoning_tokens: None,
        reported_cost_micro_usd: Some(5),
        failure_class: None,
    }
}

fn unsettled() -> EffectSettlementRow {
    EffectSettlementRow {
        state: 0,
        stop_reason: None,
        context_overflow: None,
        input_tokens: None,
        output_tokens: None,
        cache_read_tokens: None,
        cache_write_tokens: None,
        reasoning_tokens: None,
        reported_cost_micro_usd: None,
        failure_class: None,
    }
}

#[test]
fn a_started_request_settles_once() {
    let settle = |existing: Option<&EffectSettlementRow>| {
        provider_effect_settle(
            session_id(),
            assignment_id(),
            &effect_settle(),
            Some(&effect_session()),
            existing,
        )
    };
    let settled = match settle(Some(&unsettled())).unwrap() {
        EffectSettleDecision::Settle {
            effect_id,
            state,
            settlement,
        } => {
            assert_eq!(effect_id, 1);
            assert_eq!(state, ProviderEffectState::Settled);
            settlement
        }
        EffectSettleDecision::Recorded(_) => panic!("nothing was settled before"),
    };
    assert_eq!(settled.input_tokens, Some(3));
    assert_eq!(settled.reported_cost_micro_usd, Some(5));
    let recorded = EffectSettlementRow {
        state: 1,
        stop_reason: Some("stop".to_owned()),
        context_overflow: Some(false),
        input_tokens: Some(3),
        output_tokens: Some(4),
        reported_cost_micro_usd: Some(5),
        ..unsettled()
    };
    assert_eq!(
        settle(Some(&recorded)),
        Ok(EffectSettleDecision::Recorded(ProviderEffectState::Settled))
    );
    let other = EffectSettlementRow {
        output_tokens: Some(9),
        ..recorded
    };
    assert_eq!(
        settle(Some(&other)),
        Err(StoreError::ProviderEffectConflict)
    );
    assert_eq!(settle(None), Err(StoreError::ProviderEffectNotStarted));
}

#[test]
fn effect_states_and_rows_are_closed() {
    assert_eq!(
        provider_effect_state_from_code(2),
        Ok(ProviderEffectState::Failed)
    );
    assert!(provider_effect_state_from_code(4).is_err());
    assert_eq!(ProviderEffectState::Cancelled.name(), "cancelled");
    assert_eq!(ProviderEffectState::Cancelled.code(), 3);
    assert!(ProviderEffectState::from_settlement("started").is_err());
    let row = provider_effect_ledger_row(EffectLedgerColumns {
        state: 1,
        input_tokens: Some(1),
        output_tokens: None,
        cache_read_tokens: None,
        cache_write_tokens: None,
        reasoning_tokens: None,
        reported_cost_micro_usd: Some(2),
    })
    .unwrap();
    assert_eq!(row.reported_cost_micro_usd, Some(MicroUsd::new(2)));
    assert!(provider_effect_ledger_row(EffectLedgerColumns {
        state: 1,
        input_tokens: Some(-1),
        output_tokens: None,
        cache_read_tokens: None,
        cache_write_tokens: None,
        reasoning_tokens: None,
        reported_cost_micro_usd: None,
    })
    .is_err());
}
