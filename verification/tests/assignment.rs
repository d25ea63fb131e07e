//! Packets and assignments on concrete values.

use factory_kernel::assignment::{
    admit_create_assignment, create_assignment, created_assignment_receipt,
    fingerprint_assignment, replayed_assignment_receipt, require_artifact, require_artifact_seal,
    validate_assignment_target, validate_harness_for_assignment, ArtifactRow,
    AssignmentCampaignRow, AssignmentFacts, AssignmentIdentityCapability, AttemptTargetRow,
    CandidateTargetRow, CreateAssignment, HarnessCompilation, PacketFacts,
};
use factory_kernel::audit::AuditRow;
use factory_kernel::base64::base64_encode;
use factory_kernel::digest::ContentDigest;
use factory_kernel::error::StoreError;
use factory_kernel::identity::{
    AggregateRevision, ApplicationRevisionId, ArtifactId, AssignmentId, CampaignId, CandidateId,
    CasArtifact, ContractError, ExpectedRevision, KernelBuildId, TicketAttemptId,
};
use factory_kernel::packet::{
    assignment_packet_from_wire, canonical_required_manifest, host_tool_ok,
    verify_wire_domain_mapping, AssignmentEvidence, AssignmentEvidenceWire, AssignmentPacket,
    AssignmentPacketWire, ModelCapability, ModelProfile, ModelProfileWire, ReadExactFile,
    ReadExactFileWire, RefusedItem, RuntimeIdentity, RuntimeIdentityWire, SessionLimits,
    WireContract,
};
use factory_kernel::protocol::{AssignmentRole, MicroUsd, TerminalOperation, ThinkingLevel};

fn digest(text: &str) -> ContentDigest {
    ContentDigest::of_bytes(text.as_bytes())
}

fn seal(text: &str) -> CasArtifact {
    CasArtifact {
        digest: digest(text),
        byte_length: text.len() as u64,
    }
}

fn artifact(value: i64) -> ArtifactId {
    ArtifactId::new(value).unwrap()
}

fn product_packet() -> AssignmentPacket {
    AssignmentPacket {
        format_version: 2,
        campaign_id: CampaignId::new(1).unwrap(),
        assignment_id: AssignmentId::new(2).unwrap(),
        kernel_build_id: KernelBuildId::new(digest("build")),
        application_revision_id: ApplicationRevisionId::new(3).unwrap(),
        assignment_role: AssignmentRole::ProductResearch,
        target: "discover".to_owned(),
        ticket_attempt_id: None,
        candidate_id: None,
        system_prompt_artifact_id: artifact(4),
        assignment_prompt_artifact_id: artifact(5),
        required_read_manifest_artifact_id: artifact(6),
        policy_digest: digest("policy"),
        policy_byte_limit: 64,
        policy_bytes: b"policy".to_vec(),
        policy_entrypoint: "main.ts".to_owned(),
        workspace_root: "/tmp/workspace".to_owned(),
        staging_root: "/tmp/staging".to_owned(),
        model: ModelProfile {
            provider: "provider".to_owned(),
            model_id: "model".to_owned(),
            thinking_level: ThinkingLevel::High,
            context_token_limit: 1000,
            output_token_limit: 100,
            price_input_micro_usd_per_million_tokens: MicroUsd::new(1),
            price_output_micro_usd_per_million_tokens: MicroUsd::new(2),
            price_cache_read_micro_usd_per_million_tokens: MicroUsd::new(3),
            price_cache_write_micro_usd_per_million_tokens: MicroUsd::new(4),
            capability_flags: vec![ModelCapability::Reasoning],
        },
        limits: SessionLimits {
            wall_limit_millis: 60_000,
            output_byte_limit: 4096,
        },
        runtime: RuntimeIdentity {
            host_executable: "/opt/host".to_owned(),
            core_head: "head".to_owned(),
            core_source_digest: digest("core"),
            rust_toolchain: "1.90".to_owned(),
            credential_env: "PROVIDER_KEY".to_owned(),
        },
        required_reads: vec![ReadExactFile {
            path: "AGENTS.md".to_owned(),
            digest: digest("read"),
            reason: "orientation".to_owned(),
        }],
        assignment_evidence: vec![AssignmentEvidence {
            role: "ticket_proposal".to_owned(),
            artifact_id: artifact(7),
            digest: digest("proposal"),
            byte_length: 8,
        }],
        terminal_operations: vec![TerminalOperation::WorkComplete],
        remaining_campaign_allowance: MicroUsd::new(900),
        revision: AggregateRevision::initial(),
        packet_digest: digest("packet"),
    }
}

fn wire_of(packet: &AssignmentPacket) -> AssignmentPacketWire {
    AssignmentPacketWire {
        format_version: packet.format_version,
        campaign_id: packet.campaign_id.get(),
        assignment_id: packet.assignment_id.get(),
        kernel_build_id: packet.kernel_build_id.digest().to_hex(),
        application_revision_id: packet.application_revision_id.get(),
        assignment_role: "product_research".to_owned(),
        target: packet.target.clone(),
        ticket_attempt_id: None,
        candidate_id: None,
        system_prompt_artifact_id: 4,
        system_prompt_digest: digest("system").to_hex(),
        system_prompt_bytes_b64: base64_encode(b"system"),
        assignment_prompt_artifact_id: 5,
        assignment_prompt_digest: digest("assignment").to_hex(),
        assignment_prompt_bytes_b64: base64_encode(b"assignment"),
        required_read_manifest_artifact_id: 6,
        policy_digest: packet.policy_digest.to_hex(),
        policy_byte_limit: packet.policy_byte_limit,
        policy_bytes_b64: base64_encode(&packet.policy_bytes),
        policy_entrypoint: packet.policy_entrypoint.clone(),
        workspace_root: packet.workspace_root.clone(),
        staging_root: packet.staging_root.clone(),
        model: ModelProfileWire {
            provider: packet.model.provider.clone(),
            model_id: packet.model.model_id.clone(),
            thinking_level: "high".to_owned(),
            context_token_limit: 1000,
            output_token_limit: 100,
            price_input_micro_usd_per_million_tokens: 1,
            price_output_micro_usd_per_million_tokens: 2,
            price_cache_read_micro_usd_per_million_tokens: 3,
            price_cache_write_micro_usd_per_million_tokens: 4,
            capability_flags: vec!["reasoning".to_owned()],
        },
        limits: packet.limits,
        runtime: RuntimeIdentityWire {
            host_executable: "/opt/host".to_owned(),
            core_head: "head".to_owned(),
            core_source_digest: digest("core").to_hex(),
            rust_toolchain: "1.90".to_owned(),
            credential_env: "PROVIDER_KEY".to_owned(),
        },
        required_reads: vec![ReadExactFileWire {
            path: "AGENTS.md".to_owned(),
            digest: digest("read").to_hex(),
            reason: "orientation".to_owned(),
        }],
        assignment_evidence: vec![AssignmentEvidenceWire {
            role: "ticket_proposal".to_owned(),
            artifact_id: 7,
            digest: digest("proposal").to_hex(),
            byte_length: 8,
        }],
        terminal_operations: vec!["work_complete".to_owned()],
        tools: vec!["workspace_read".to_owned()],
        remaining_campaign_allowance_micro_usd: 900,
        aggregate_revision: 0,
        packet_digest: digest("packet").to_hex(),
    }
}

fn contract() -> WireContract {
    WireContract {
        required_read_path: None,
        evidence_role: None,
        policy_entrypoint: true,
        workspace_root: None,
        staging_root: None,
        host_executable: None,
        packet: None,
    }
}

fn create() -> CreateAssignment {
    CreateAssignment {
        principal: "operator".to_owned(),
        command_id: "assign-1".to_owned(),
        expected_campaign_revision: ExpectedRevision::new(AggregateRevision::from_persisted(5)),
        identity: AssignmentIdentityCapability {
            id: AssignmentId::new(2).unwrap(),
        },
        packet: product_packet(),
        packet_bytes: b"packet bytes".to_vec(),
        packet_artifact: seal("packet bytes"),
        required_read_manifest_artifact_id: artifact(6),
        attempt_ordinal: 1,
        harness: None,
    }
}

fn packet_facts() -> PacketFacts {
    PacketFacts {
        packet_contract: None,
        wire: Some(wire_of(&product_packet())),
        sealed_bytes: b"packet bytes".to_vec(),
        harness_contract: None,
    }
}

fn artifact_row(id: i64, text: &str) -> ArtifactRow {
    ArtifactRow {
        id,
        digest: digest(text).as_bytes().to_vec(),
        byte_length: text.len() as i64,
    }
}

fn facts() -> AssignmentFacts {
    AssignmentFacts {
        campaign: Some(AssignmentCampaignRow {
            revision: 5,
            lifecycle: 0,
            aggregate_budget_micro_usd: 1000,
            measured_cost_micro_usd: 100,
            cost_state: 0,
            application_revision_id: 3,
            build_digest: digest("build").as_bytes().to_vec(),
            deadline_open: true,
        }),
        attempt_target: None,
        candidate_target: None,
        packet_artifact: Some(artifact_row(9, "packet bytes")),
        system_prompt: Some(artifact_row(4, "system")),
        assignment_prompt: Some(artifact_row(5, "assignment")),
        required_read_manifest: Some(artifact_row(6, "manifest")),
    }
}

#[test]
fn wire_packet_reads_back_to_the_packet_it_spells() {
    let packet = product_packet();
    let wire = wire_of(&packet);
    assert_eq!(verify_wire_domain_mapping(&wire, &packet), Ok(()));
    let read = assignment_packet_from_wire(&wire, &contract()).unwrap();
    assert_eq!(read, packet);
    assert_eq!(verify_wire_domain_mapping(&wire, &read), Ok(()));
}

#[test]
fn every_part_of_a_wire_packet_is_compared() {
    let packet = product_packet();
    let changed = |change: fn(&mut AssignmentPacketWire)| {
        let mut wire = wire_of(&product_packet());
        change(&mut wire);
        verify_wire_domain_mapping(&wire, &packet)
    };
    let mismatch = Err(StoreError::PacketIdentityMismatch);
    assert_eq!(changed(|wire| wire.campaign_id = 8), mismatch);
    assert_eq!(changed(|wire| wire.target = "other".to_owned()), mismatch);
    assert_eq!(changed(|wire| wire.ticket_attempt_id = Some(1)), mismatch);
    assert_eq!(changed(|wire| wire.model.output_token_limit = 101), mismatch);
    assert_eq!(
        changed(|wire| wire.model.capability_flags.clear()),
        mismatch
    );
    assert_eq!(changed(|wire| wire.limits.output_byte_limit = 1), mismatch);
    assert_eq!(
        changed(|wire| wire.runtime.rust_toolchain = "1.0".to_owned()),
        mismatch
    );
    assert_eq!(
        changed(|wire| wire.policy_bytes_b64 = base64_encode(b"other")),
        mismatch
    );
    assert_eq!(
        changed(|wire| wire.required_reads[0].reason = "other".to_owned()),
        mismatch
    );
    assert_eq!(
        changed(|wire| wire.terminal_operations.clear()),
        mismatch
    );
    assert_eq!(
        changed(|wire| wire.assignment_evidence[0].byte_length = 9),
        mismatch
    );
    let unreadable = Err(StoreError::InvalidPacketDigest);
    assert_eq!(
        changed(|wire| wire.packet_digest = "x".to_owned()),
        unreadable
    );
    assert_eq!(
        changed(|wire| wire.policy_bytes_b64 = "*".to_owned()),
        unreadable
    );
}

#[test]
fn wire_packets_outside_the_contract_are_refused() {
    let changed = |change: fn(&mut AssignmentPacketWire)| {
        let mut wire = wire_of(&product_packet());
        change(&mut wire);
        assignment_packet_from_wire(&wire, &contract())
    };
    let mismatch = Err(StoreError::PacketIdentityMismatch);
    let no_identity = Err(StoreError::Contract(ContractError::NonPositiveIdentity));
    let no_digest = Err(StoreError::Contract(ContractError::InvalidDigest));
    assert_eq!(
        changed(|wire| wire.assignment_role = "manager".to_owned()),
        mismatch
    );
    assert_eq!(
        changed(|wire| wire.model.thinking_level = "max".to_owned()),
        mismatch
    );
    assert_eq!(
        changed(|wire| wire.tools = vec!["unknown".to_owned()]),
        mismatch
    );
    assert_eq!(
        changed(|wire| wire.terminal_operations = vec!["stop".to_owned()]),
        mismatch
    );
    let identities: [fn(&mut AssignmentPacketWire); 9] = [
        |wire| wire.campaign_id = 0,
        |wire| wire.assignment_id = -1,
        |wire| wire.application_revision_id = 0,
        |wire| wire.ticket_attempt_id = Some(0),
        |wire| wire.candidate_id = Some(-7),
        |wire| wire.system_prompt_artifact_id = 0,
        |wire| wire.assignment_prompt_artifact_id = 0,
        |wire| wire.required_read_manifest_artifact_id = 0,
        |wire| wire.assignment_evidence[0].artifact_id = 0,
    ];
    for change in identities {
        assert_eq!(changed(change), no_identity);
    }
    let digests: [fn(&mut AssignmentPacketWire); 5] = [
        |wire| wire.kernel_build_id = "x".to_owned(),
        |wire| wire.runtime.core_source_digest = "x".to_owned(),
        |wire| wire.packet_digest = "x".to_owned(),
        |wire| wire.required_reads[0].digest = "x".to_owned(),
        |wire| wire.assignment_evidence[0].digest = "x".to_owned(),
    ];
    for change in digests {
        assert_eq!(changed(change), no_digest);
    }
    assert_eq!(
        changed(|wire| wire.policy_digest = "x".to_owned()),
        Err(StoreError::InvalidPacketDigest)
    );
    let wire = wire_of(&product_packet());
    let invalid = ContractError::InvalidRequest;
    let contracts: [fn(&mut WireContract, ContractError); 6] = [
        |contract, fault| contract.workspace_root = Some(fault),
        |contract, fault| contract.staging_root = Some(fault),
        |contract, fault| contract.host_executable = Some(fault),
        |contract, fault| contract.packet = Some(fault),
        |contract, fault| contract.required_read_path = Some(RefusedItem { at: 0, fault }),
        |contract, fault| contract.evidence_role = Some(RefusedItem { at: 0, fault }),
    ];
    for refuse in contracts {
        let mut refused = contract();
        refuse(&mut refused, invalid);
        assert_eq!(
            assignment_packet_from_wire(&wire, &refused),
            Err(StoreError::Contract(invalid))
        );
    }
    assert!(host_tool_ok("shell"));
    assert!(!host_tool_ok("forum_post"));
}

#[test]
fn the_first_unreadable_field_of_a_wire_packet_decides() {
    let invalid = ContractError::InvalidRequest;
    let mut wire = wire_of(&product_packet());
    let mut refused = contract();
    let answer = |wire: &AssignmentPacketWire, contract: &WireContract| {
        match assignment_packet_from_wire(wire, contract) {
            Err(StoreError::Contract(fault)) => fault,
            other => panic!("{other:?}"),
        }
    };
    refused.packet = Some(ContractError::InvalidPacket);
    assert_eq!(answer(&wire, &refused), ContractError::InvalidPacket);
    wire.packet_digest = "x".to_owned();
    assert_eq!(answer(&wire, &refused), ContractError::InvalidDigest);
    wire.assignment_evidence[0].artifact_id = 0;
    assert_eq!(answer(&wire, &refused), ContractError::NonPositiveIdentity);
    refused.evidence_role = Some(RefusedItem { at: 1, fault: invalid });
    assert_eq!(answer(&wire, &refused), ContractError::NonPositiveIdentity);
    refused.evidence_role = Some(RefusedItem { at: 0, fault: invalid });
    assert_eq!(answer(&wire, &refused), invalid);
    wire.runtime.core_source_digest = "x".to_owned();
    assert_eq!(answer(&wire, &refused), ContractError::InvalidDigest);
    refused.staging_root = Some(invalid);
    assert_eq!(answer(&wire, &refused), invalid);
    wire.required_read_manifest_artifact_id = 0;
    assert_eq!(answer(&wire, &refused), ContractError::NonPositiveIdentity);
    wire.kernel_build_id = "x".to_owned();
    assert_eq!(answer(&wire, &refused), ContractError::InvalidDigest);
    wire.assignment_id = 0;
    assert_eq!(answer(&wire, &refused), ContractError::NonPositiveIdentity);
    wire.required_reads[0].digest = "x".to_owned();
    assert_eq!(answer(&wire, &refused), ContractError::InvalidDigest);
    refused.required_read_path = Some(RefusedItem { at: 0, fault: invalid });
    assert_eq!(answer(&wire, &refused), invalid);
}

#[test]
fn read_manifest_frames_paths_digests_and_reasons() {
    let packet = product_packet();
    let bytes = canonical_required_manifest(&packet.required_reads);
    let mut expected = b"factory-read-manifest-v1\0".to_vec();
    expected.extend(1_u32.to_be_bytes());
    expected.extend(9_u32.to_be_bytes());
    expected.extend(b"AGENTS.md");
    expected.extend(digest("read").as_bytes());
    expected.extend(11_u32.to_be_bytes());
    expected.extend(b"orientation");
    assert_eq!(bytes, expected);
    assert_eq!(
        canonical_required_manifest(&[]),
        b"factory-read-manifest-v1\0\0\0\0\0".to_vec()
    );
}

#[test]
fn an_assignment_is_planned_within_its_campaign() {
    let command = create();
    assert_eq!(
        admit_create_assignment(&command, &packet_facts(), None),
        Ok(None)
    );
    let plan = create_assignment(&command, &wire_of(&command.packet), &facts()).unwrap();
    assert_eq!(plan.packet_artifact_id, artifact(9));
    assert_eq!(plan.role_code, 0);
    assert_eq!(plan.remaining_campaign_allowance, 900);
    assert_eq!(plan.terminal_operations_mask, 1);
    assert_eq!(plan.campaign.revision_column, 6);
    let receipt = created_assignment_receipt(&command, &plan, 44);
    assert_eq!(receipt.assignment_id.get(), 2);
    assert_eq!(receipt.resulting_campaign_revision.get(), 6);
    assert_eq!(receipt.audit_log_id, 44);
    assert!(!receipt.was_idempotent_retry);
}

#[test]
fn a_repeated_assignment_is_answered_and_another_one_conflicts() {
    let command = create();
    let row = AuditRow {
        id: 44,
        operation: "assignment.create".to_owned(),
        command_fingerprint: fingerprint_assignment(&command).as_bytes().to_vec(),
        subject_kind: 5,
        subject_id: 2,
        resulting_revision: 0,
    };
    let audit = admit_create_assignment(&command, &packet_facts(), Some(&row))
        .unwrap()
        .expect("the receipt answers");
    let receipt = replayed_assignment_receipt(&audit, 6).unwrap();
    assert!(receipt.was_idempotent_retry);
    assert_eq!(receipt.resulting_campaign_revision.get(), 6);
    let mut other = create();
    other.attempt_ordinal = 2;
    assert_ne!(
        fingerprint_assignment(&command),
        fingerprint_assignment(&other)
    );
    assert_eq!(
        admit_create_assignment(&other, &packet_facts(), Some(&row)),
        Err(StoreError::IdempotencyConflict {
            principal: "operator".to_owned(),
            command_id: "assign-1".to_owned(),
        })
    );
}

#[test]
fn assignment_commands_are_refused_before_the_campaign_is_read() {
    let admission = |change: fn(&mut CreateAssignment, &mut PacketFacts)| {
        let mut command = create();
        let mut facts = packet_facts();
        change(&mut command, &mut facts);
        admit_create_assignment(&command, &facts, None)
    };
    assert_eq!(
        admission(|command, _| command.principal = String::new()),
        Err(StoreError::InvalidProcessCommand { field: "principal" })
    );
    assert_eq!(
        admission(|_, facts| facts.packet_contract = Some(ContractError::InvalidPacket)),
        Err(StoreError::Contract(ContractError::InvalidPacket))
    );
    assert_eq!(
        admission(|_, facts| facts.wire = None),
        Err(StoreError::InvalidPacketDigest)
    );
    assert_eq!(
        admission(|command, _| command.identity.id = AssignmentId::new(3).unwrap()),
        Err(StoreError::PacketIdentityMismatch)
    );
    assert_eq!(
        admission(|_, facts| facts.sealed_bytes.clear()),
        Err(StoreError::PacketArtifactDigestMismatch)
    );
    assert_eq!(
        admission(|command, _| command.attempt_ordinal = 0),
        Err(StoreError::InvalidProcessCommand {
            field: "assignment identity"
        })
    );
    assert_eq!(
        admission(|command, _| command.required_read_manifest_artifact_id =
            ArtifactId::new(8).unwrap()),
        Err(StoreError::RequiredReadManifestMismatch)
    );
}

#[test]
fn a_campaign_refuses_assignments_it_cannot_carry() {
    let plan = |change: fn(&mut CreateAssignment, &mut AssignmentFacts)| {
        let mut command = create();
        let mut facts = facts();
        change(&mut command, &mut facts);
        let wire = wire_of(&command.packet);
        create_assignment(&command, &wire, &facts).unwrap_err()
    };
    let campaign_id = CampaignId::new(1).unwrap();
    assert_eq!(
        plan(|_, facts| facts.campaign = None),
        StoreError::UnknownCampaign { campaign_id }
    );
    assert_eq!(
        plan(|_, facts| facts.campaign.as_mut().unwrap().revision = 6),
        StoreError::RevisionConflict {
            expected: ExpectedRevision::new(AggregateRevision::from_persisted(5)),
            current: AggregateRevision::from_persisted(6),
        }
    );
    assert_eq!(
        plan(|_, facts| facts.campaign.as_mut().unwrap().lifecycle = 2),
        StoreError::CampaignClosed { campaign_id }
    );
    assert_eq!(
        plan(|_, facts| facts.campaign.as_mut().unwrap().deadline_open = false),
        StoreError::CampaignDeadlineElapsed
    );
    assert_eq!(
        plan(|_, facts| facts.campaign.as_mut().unwrap().cost_state = 1),
        StoreError::CampaignCostFrozen { campaign_id }
    );
    assert_eq!(
        plan(|_, facts| facts.campaign.as_mut().unwrap().application_revision_id = 4),
        StoreError::PacketIdentityMismatch
    );
    assert_eq!(
        plan(|_, facts| facts.campaign.as_mut().unwrap().measured_cost_micro_usd = -1),
        StoreError::CorruptCostColumn
    );
    assert_eq!(
        plan(|_, facts| facts.campaign.as_mut().unwrap().measured_cost_micro_usd = 99),
        StoreError::RemainingAllowanceMismatch
    );
    assert_eq!(
        plan(|_, facts| facts.packet_artifact = None),
        StoreError::UnregisteredTerminalArtifact
    );
    assert_eq!(
        plan(|_, facts| facts.system_prompt = None),
        StoreError::UnknownArtifact {
            artifact_id: artifact(4)
        }
    );
    assert_eq!(
        plan(|command, _| command.packet.limits.output_byte_limit = u32::MAX),
        StoreError::InvalidProcessCommand {
            field: "output limit"
        }
    );
}

#[test]
fn inline_prompts_are_the_registered_ones() {
    let command = create();
    let mut wire = wire_of(&command.packet);
    wire.system_prompt_bytes_b64 = base64_encode(b"other");
    assert_eq!(
        create_assignment(&command, &wire, &facts()).unwrap_err(),
        StoreError::InvalidPacketDigest
    );
    let mut changed = facts();
    changed.assignment_prompt = Some(artifact_row(5, "changed"));
    assert_eq!(
        create_assignment(&command, &wire_of(&command.packet), &changed).unwrap_err(),
        StoreError::PacketArtifactDigestMismatch
    );
    assert_eq!(
        require_artifact_seal(Some(&artifact_row(9, "packet bytes")), seal("other")),
        Err(StoreError::PacketArtifactDigestMismatch)
    );
    assert_eq!(
        require_artifact(None, artifact(9), None),
        Err(StoreError::UnknownArtifact {
            artifact_id: artifact(9)
        })
    );
}

#[test]
fn a_harness_record_belongs_to_its_packet() {
    let command = create();
    let harness = HarnessCompilation {
        assignment_id: AssignmentId::new(2).unwrap(),
        application_revision_id: ApplicationRevisionId::new(3).unwrap(),
        assignment_role: AssignmentRole::ProductResearch,
        system_prompt_artifact_id: artifact(4),
        assignment_prompt_artifact_id: artifact(5),
        packet_artifact_id: artifact(9),
        packet_digest: digest("packet"),
    };
    assert_eq!(
        validate_harness_for_assignment(&command, &harness, None),
        Ok(())
    );
    assert_eq!(
        validate_harness_for_assignment(&command, &harness, Some(ContractError::InvalidRequest)),
        Err(StoreError::Contract(ContractError::InvalidRequest))
    );
    let other = HarnessCompilation {
        packet_digest: digest("other"),
        ..harness
    };
    assert_eq!(
        validate_harness_for_assignment(&command, &other, None),
        Err(StoreError::PacketIdentityMismatch)
    );
    let mut elsewhere = create();
    elsewhere.harness = Some(HarnessCompilation {
        packet_artifact_id: artifact(10),
        ..harness
    });
    assert_eq!(
        create_assignment(&elsewhere, &wire_of(&elsewhere.packet), &facts()).unwrap_err(),
        StoreError::HarnessPacketArtifactMismatch
    );
}

#[test]
fn targets_match_the_role_and_the_stage_of_the_work() {
    let mut packet = product_packet();
    assert_eq!(validate_assignment_target(&packet, None, None), Ok(()));
    packet.assignment_role = AssignmentRole::Engineering;
    packet.ticket_attempt_id = Some(TicketAttemptId::new(11).unwrap());
    let attempt = AttemptTargetRow {
        id: 11,
        campaign_id: 1,
        application_revision_id: 3,
        stage: 4,
    };
    assert_eq!(
        validate_assignment_target(&packet, Some(attempt), None),
        Ok(())
    );
    assert_eq!(
        validate_assignment_target(&packet, Some(AttemptTargetRow { stage: 2, ..attempt }), None),
        Err(StoreError::PacketIdentityMismatch)
    );
    packet.assignment_role = AssignmentRole::Quality;
    packet.candidate_id = Some(CandidateId::new(12).unwrap());
    let candidate = CandidateTargetRow {
        id: 12,
        ticket_attempt_id: 11,
        campaign_id: 1,
        application_revision_id: 3,
        lifecycle: 1,
        has_commit: true,
        stage: 3,
        has_passed_full_suite: true,
        has_review: false,
    };
    assert_eq!(
        validate_assignment_target(&packet, None, Some(candidate)),
        Ok(())
    );
    assert_eq!(
        validate_assignment_target(
            &packet,
            None,
            Some(CandidateTargetRow {
                has_review: true,
                ..candidate
            })
        ),
        Err(StoreError::PacketIdentityMismatch)
    );
}
