//! Installed builds, repositories, artifacts and restored stores on concrete
//! values.

use factory_kernel::audit::AuditRow;
use factory_kernel::digest::ContentDigest;
use factory_kernel::error::StoreError;
use factory_kernel::identity::{
    AggregateRevision, ApplicationRevisionId, ArtifactId, CasArtifact, ContractError,
    ExpectedRevision, KernelBuildId,
};
use factory_kernel::restore::{
    audit_is_consistent, check_restored_audit, check_restored_length, check_restored_path,
    first_invalid_audit_subject, operation_is_registered, restored_artifact_seal, subject_family,
    AuditSubjectRow, FactReceiptCount, RestoredArtifactRow, SubjectFamily,
};
use factory_kernel::storage::{
    admit_artifact, admit_install, admit_repository, adopted_artifact_command, application_status,
    application_revision_view, artifact_receipt, check_installed_receipt, check_receipt_path,
    install_kernel_build, install_qualified_kernel_build, installed_path, installed_receipt_seal,
    kernel_build_at_revision, kernel_build_receipt, kernel_build_status, register_artifact,
    register_repository, repository_receipt, require_artifact_owner, verify_postgres_baseline,
    verify_schema_identity, ApplicationHeadRow, ApplicationKey, ApplicationRevisionRow,
    ArtifactAdoptionError, ArtifactTarget, BuildRow, ExistingArtifactRow, InstallKernelBuild,
    InstallQualifiedKernelBuild, InstalledBuildReceipt, InstalledBuildRow, InstalledReceiptRow,
    QualificationArtifact, RegisterArtifact, RegisterRepository, SCHEMA_IDENTITY,
};

fn digest(text: &str) -> ContentDigest {
    ContentDigest::of_bytes(text.as_bytes())
}

fn seal(text: &str) -> CasArtifact {
    CasArtifact {
        digest: digest(text),
        byte_length: text.len() as u64,
    }
}

fn expected(value: u64) -> ExpectedRevision {
    ExpectedRevision::new(AggregateRevision::from_persisted(value))
}

fn install() -> InstallKernelBuild {
    InstallKernelBuild {
        principal: "operator".to_owned(),
        command_id: "install-1".to_owned(),
        expected_revision: expected(0),
        build_id: KernelBuildId::new(digest("build")),
        source_digest: digest("source"),
        binary_digest: digest("binary"),
        schema_identity: SCHEMA_IDENTITY.to_owned(),
        deno_executable_path: "/opt/deno".to_owned(),
        deno_version: "2.0".to_owned(),
        deno_lock_digest: digest("lock"),
        qualification_receipt: seal("receipt"),
    }
}

#[test]
fn an_installation_becomes_the_current_build() {
    let command = install();
    assert_eq!(admit_install(&command, &seal("receipt"), None), Ok(None));
    let plan = install_kernel_build(&command, 0, None, "objects/r").unwrap();
    assert_eq!(plan.resulting_revision.get(), 1);
    assert_eq!(
        plan.qualification,
        QualificationArtifact::Insert { byte_length: 7 }
    );
    let receipt = kernel_build_receipt(&command, plan.resulting_revision, 3, false);
    assert_eq!(receipt.kernel_build_id, command.build_id);
    let known = ExistingArtifactRow {
        id: 9,
        byte_length: 7,
        cas_relative_path: "objects/r".to_owned(),
    };
    assert_eq!(
        install_kernel_build(&command, 0, Some(&known), "objects/r")
            .unwrap()
            .qualification,
        QualificationArtifact::Existing { id: 9 }
    );
    assert_eq!(
        install_kernel_build(&command, 0, Some(&known), "objects/other"),
        Err(StoreError::ArtifactIdentityConflict {
            digest: digest("receipt")
        })
    );
    assert_eq!(
        install_kernel_build(&command, 4, None, "objects/r"),
        Err(StoreError::RevisionConflict {
            expected: expected(0),
            current: AggregateRevision::from_persisted(4),
        })
    );
    assert_eq!(
        admit_install(&command, &seal("changed"), None),
        Err(StoreError::QualificationReceiptChanged)
    );
}

#[test]
fn an_installation_replays_and_another_under_its_key_conflicts() {
    let command = install();
    let row = AuditRow {
        id: 3,
        operation: "kernel_build.install".to_owned(),
        command_fingerprint: command.fingerprint().as_bytes().to_vec(),
        subject_kind: 0,
        subject_id: 5,
        resulting_revision: 1,
    };
    let replayed = admit_install(&command, &seal("receipt"), Some(&row)).unwrap().unwrap();
    assert_eq!(replayed.audit_log_id, 3);
    let receipt = kernel_build_receipt(&command, replayed.resulting_revision, 3, true);
    assert_eq!(receipt.resulting_revision.get(), 1);
    assert!(receipt.was_idempotent_retry);
    let other = InstallKernelBuild {
        deno_version: "2.9.9".to_owned(),
        ..command
    };
    assert_eq!(
        admit_install(&other, &seal("receipt"), Some(&row)),
        Err(StoreError::IdempotencyConflict {
            principal: other.principal.clone(),
            command_id: other.command_id.clone(),
        })
    );
}

#[test]
fn installations_are_validated_in_order() {
    let refused = |change: fn(&mut InstallKernelBuild)| {
        let mut command = install();
        change(&mut command);
        command.validate().unwrap_err()
    };
    assert_eq!(
        refused(|command| command.command_id = "a b".to_owned()),
        StoreError::InvalidCommandComponent {
            field: "command ID"
        }
    );
    assert_eq!(
        refused(|command| command.schema_identity = "other".to_owned()),
        StoreError::InstalledSchemaIdentityMismatch
    );
    assert_eq!(
        refused(|command| command.deno_executable_path = "opt/deno".to_owned()),
        StoreError::InvalidAbsolutePath {
            field: "Deno executable path"
        }
    );
    assert_eq!(
        refused(|command| command.deno_version = String::new()),
        StoreError::InvalidCommandComponent {
            field: "Deno version"
        }
    );
    let mut other = install();
    other.deno_version = "2.1".to_owned();
    assert_ne!(install().fingerprint(), other.fingerprint());
}

#[test]
fn a_qualified_receipt_spells_its_installation() {
    let qualified = InstallQualifiedKernelBuild {
        principal: "operator".to_owned(),
        command_id: "install-1".to_owned(),
        expected_revision: expected(0),
        receipt: InstalledBuildReceipt {
            kernel_build_id: KernelBuildId::new(digest("build")),
            kernel_source_digest: digest("source"),
            kernel_binary_digest: digest("binary"),
            schema_identity: SCHEMA_IDENTITY.to_owned(),
            deno_executable: b"/opt/deno".to_vec(),
            deno_version: "2.0".to_owned(),
            deno_lock_digest: digest("lock"),
        },
    };
    let command = install_qualified_kernel_build(&qualified, seal("receipt")).unwrap();
    assert_eq!(command, install());
    assert_eq!(
        installed_path("Deno executable path", b"relative"),
        Err(StoreError::InvalidAbsolutePath {
            field: "Deno executable path"
        })
    );
    assert_eq!(
        installed_path("Deno executable path", b"/\xff"),
        Err(StoreError::InvalidAbsolutePath {
            field: "Deno executable path"
        })
    );
}

#[test]
fn the_database_baseline_is_checked() {
    assert_eq!(verify_postgres_baseline(&"180001".to_owned()), Ok(()));
    assert_eq!(
        verify_postgres_baseline(&"170005".to_owned()),
        Err(StoreError::UnsupportedPostgresVersion {
            server_version_num: 170_005
        })
    );
    assert_eq!(
        verify_postgres_baseline(&"18.1".to_owned()),
        Err(StoreError::UnparseablePostgresVersion {
            server_version_num: "18.1".to_owned()
        })
    );
    assert_eq!(
        verify_schema_identity(&Some(SCHEMA_IDENTITY.to_owned())),
        Ok(())
    );
    assert_eq!(
        verify_schema_identity(&None),
        Err(StoreError::SchemaIdentityMismatch { observed: None })
    );
}

fn repository() -> RegisterRepository {
    RegisterRepository {
        principal: "operator".to_owned(),
        command_id: "repository-1".to_owned(),
        expected_revision: expected(0),
        repository_key: "product".to_owned(),
        canonical_local_path: "/work/product".to_owned(),
        default_branch: "main".to_owned(),
    }
}

#[test]
fn a_repository_is_registered_once() {
    assert_eq!(admit_repository(&repository(), None), Ok(None));
    let plan = register_repository(&repository(), None).unwrap();
    assert_eq!(plan.revision_column, 1);
    let receipt = repository_receipt(6, plan.resulting_revision, 4, false).unwrap();
    assert_eq!(receipt.repository_id.get(), 6);
    assert_eq!(
        repository_receipt(0, plan.resulting_revision, 4, false),
        Err(StoreError::Contract(ContractError::NonPositiveIdentity))
    );
    let again = RegisterRepository {
        expected_revision: expected(1),
        ..repository()
    };
    assert_eq!(
        register_repository(&again, Some(1)),
        Err(StoreError::RepositoryAlreadyRegistered {
            repository_key: "product".to_owned()
        })
    );
    let refused = |change: fn(&mut RegisterRepository)| {
        let mut command = repository();
        change(&mut command);
        command.validate().unwrap_err()
    };
    for branch in ["main branch", "a..b", "main/"] {
        let mut command = repository();
        command.default_branch = branch.to_owned();
        assert_eq!(command.validate(), Err(StoreError::InvalidDefaultBranch));
    }
    assert!(matches!(
        refused(|command| command.canonical_local_path = "work".to_owned()),
        StoreError::InvalidAbsolutePath { .. }
    ));
}

fn artifact_command() -> RegisterArtifact {
    RegisterArtifact {
        principal: "actor".to_owned(),
        command_id: "seal-1".to_owned(),
        expected_kernel_build_revision: expected(2),
        kernel_build_id: KernelBuildId::new(digest("build")),
        sealed: seal("bytes"),
    }
}

#[test]
fn an_artifact_keeps_its_first_metadata() {
    let build = Some(BuildRow { id: 5, revision: 2 });
    assert_eq!(
        admit_artifact(&artifact_command(), &seal("bytes"), None),
        Ok(None)
    );
    let plan = register_artifact(&artifact_command(), build, None, "objects/b").unwrap();
    assert_eq!(
        plan.target,
        ArtifactTarget::Insert {
            byte_length: 5,
            kernel_build_row: 5,
        }
    );
    let known = ExistingArtifactRow {
        id: 9,
        byte_length: 5,
        cas_relative_path: "objects/b".to_owned(),
    };
    let reused = register_artifact(&artifact_command(), build, Some(&known), "objects/b").unwrap();
    assert_eq!(reused.target, ArtifactTarget::Reuse { artifact_row: 9 });
    assert_eq!(
        register_artifact(&artifact_command(), build, Some(&known), "objects/c"),
        Err(StoreError::ArtifactIdentityConflict {
            digest: digest("bytes")
        })
    );
    assert_eq!(
        register_artifact(&artifact_command(), None, None, "objects/b"),
        Err(StoreError::UnknownKernelBuild {
            kernel_build_id: KernelBuildId::new(digest("build"))
        })
    );
    assert_eq!(
        admit_artifact(&artifact_command(), &seal("other"), None),
        Err(StoreError::ArtifactSealChanged)
    );
    let receipt = artifact_receipt(9, 3, false, true).unwrap();
    assert_eq!(receipt.artifact_id, ArtifactId::new(9).unwrap());
    assert!(receipt.was_reused);
    let row = AuditRow {
        id: 3,
        operation: "artifact.register".to_owned(),
        command_fingerprint: artifact_command().fingerprint().as_bytes().to_vec(),
        subject_kind: 3,
        subject_id: 9,
        resulting_revision: 2,
    };
    assert!(admit_artifact(&artifact_command(), &seal("bytes"), Some(&row))
        .unwrap()
        .is_some());
}

#[test]
fn adopted_files_stay_within_their_limit() {
    let adopt = |limit: u64, revision: Option<i64>| {
        adopted_artifact_command(
            &"actor".to_owned(),
            &"seal-1".to_owned(),
            KernelBuildId::new(digest("build")),
            revision,
            seal("bytes"),
            limit,
        )
    };
    assert_eq!(adopt(5, Some(2)), Ok(artifact_command()));
    assert_eq!(
        adopt(4, Some(2)),
        Err(ArtifactAdoptionError::SizeLimitExceeded {
            maximum: 4,
            observed: 5,
        })
    );
    assert_eq!(
        adopt(0, Some(2)),
        Err(ArtifactAdoptionError::SizeLimitExceeded {
            maximum: 0,
            observed: 5,
        })
    );
    assert_eq!(
        adopt(5, None),
        Err(ArtifactAdoptionError::Store(StoreError::UnknownKernelBuild {
            kernel_build_id: KernelBuildId::new(digest("build"))
        }))
    );
    assert_eq!(require_artifact_owner(true), Ok(()));
    assert_eq!(
        require_artifact_owner(false),
        Err(StoreError::ArtifactBuildMismatch)
    );
}

#[test]
fn build_and_application_projections_read_their_columns() {
    let row = InstalledBuildRow {
        build_digest: digest("build").as_bytes().to_vec(),
        revision: 3,
    };
    let status = kernel_build_status(Some(&row)).unwrap();
    assert_eq!(status.aggregate_revision.get(), 3);
    assert_eq!(
        status.current_kernel_build_id,
        Some(KernelBuildId::new(digest("build")))
    );
    let none = kernel_build_status(None).unwrap();
    assert_eq!(none.current_kernel_build_id, None);
    assert_eq!(none.aggregate_revision.get(), 0);
    assert_eq!(
        kernel_build_at_revision(expected(7), None),
        Err(StoreError::UnknownKernelBuildRevision {
            expected_revision: expected(7)
        })
    );
    let key = ApplicationKey {
        value: "product".to_owned(),
    };
    let head = application_status(
        &key,
        Some(ApplicationHeadRow {
            id: 3,
            aggregate_revision: 2,
        }),
    )
    .unwrap();
    assert_eq!(
        head.application_revision_id,
        Some(ApplicationRevisionId::new(3).unwrap())
    );
    let view = application_revision_view(
        &key,
        None,
        Some(ApplicationRevisionRow {
            id: 3,
            aggregate_revision: 2,
            bundle_artifact_id: 10,
            is_active: true,
        }),
    )
    .unwrap();
    assert!(view.is_active);
    assert_eq!(
        application_revision_view(&key, None, None),
        Err(StoreError::UnknownApplicationRevisionForKey {
            application_key: "product".to_owned(),
            application_revision_id: None,
        })
    );
}

#[test]
fn an_installed_receipt_is_the_sealed_one() {
    let seal = installed_receipt_seal(&InstalledReceiptRow {
        build_digest: digest("build").as_bytes().to_vec(),
        receipt_digest: digest("receipt").as_bytes().to_vec(),
        receipt_byte_length: 7,
        cas_relative_path: "objects/r".to_owned(),
    })
    .unwrap();
    assert_eq!(check_receipt_path("objects/r", "objects/r"), Ok(()));
    assert!(check_receipt_path("objects/r", "objects/s").is_err());
    let build = KernelBuildId::new(digest("build"));
    assert_eq!(check_installed_receipt(&seal, 7, &build), Ok(()));
    assert!(check_installed_receipt(&seal, 8, &build).is_err());
    assert!(check_installed_receipt(&seal, 7, &KernelBuildId::new(digest("other"))).is_err());
}

#[test]
fn restored_receipts_name_existing_subjects() {
    assert_eq!(subject_family(6), Some(SubjectFamily::Session));
    assert_eq!(subject_family(7), None);
    assert!(operation_is_registered(4, "campaign.fail"));
    assert!(!operation_is_registered(4, "session.start"));
    let row = |subject_kind: i16, operation: &str, subject_exists: bool| AuditSubjectRow {
        audit_log_id: 8,
        subject_kind,
        operation: operation.to_owned(),
        subject_id: 21,
        subject_exists,
    };
    assert_eq!(
        first_invalid_audit_subject(&[row(6, "session.start", true)]),
        None
    );
    let invalid = first_invalid_audit_subject(&[
        row(6, "session.start", true),
        row(6, "session.start", false),
    ])
    .unwrap();
    assert_eq!(invalid.subject_id, 21);
    assert_eq!(
        check_restored_audit(true, Some(invalid)),
        Err(StoreError::RestoreAuditSubjectInvalid {
            audit_log_id: 8,
            subject_kind: 6,
            subject_id: 21,
        })
    );
    assert_eq!(
        check_restored_audit(false, None),
        Err(StoreError::RestoreAuditInconsistent)
    );
    assert!(first_invalid_audit_subject(&[row(99, "session.start", true)]).is_some());
    assert!(audit_is_consistent(&[]));
    assert!(!audit_is_consistent(&[FactReceiptCount {
        subject_kind: 4,
        receipts: 0,
    }]));
}

#[test]
fn restored_artifacts_are_at_their_canonical_place() {
    let restored = restored_artifact_seal(&RestoredArtifactRow {
        id: 9,
        digest: digest("bytes").as_bytes().to_vec(),
        byte_length: 5,
        cas_relative_path: "objects/b".to_owned(),
    })
    .unwrap();
    assert_eq!(restored, seal("bytes"));
    assert_eq!(
        check_restored_path(&restored, "objects/c", "objects/b"),
        Err(StoreError::RestoreArtifactPathMismatch {
            digest: digest("bytes")
        })
    );
    assert_eq!(
        check_restored_length(&restored, 6),
        Err(StoreError::RestoreArtifactLengthMismatch {
            digest: digest("bytes"),
            expected: 5,
            observed: 6,
        })
    );
    assert_eq!(check_restored_length(&restored, 5), Ok(()));
}
