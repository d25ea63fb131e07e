//! Product discovery on concrete values.

use factory_kernel::digest::ContentDigest;
use factory_kernel::identity::{
    AggregateRevision, ApplicationRevisionId, ArtifactId, CasArtifact,
};
use factory_kernel::product::{
    admit_reproducer, check_discovery, check_reference, contains_bytes, contains_terms,
    discover_clean_snapshot, duplicate_query_terms, execute_duplicate_query,
    execute_product_proposal, git_identity_ok, git_probe, git_probe_output, keep_long_fields,
    next_proposal_phase, persisted_discovery_observations, product_observation_manifest_bytes,
    proposal_command_id, split_runs, texts_are_duplicates, CommandProfile, CommandTerminal,
    GitProbe, LiveProposal, ProductRuntimeError, ProposalAction, ProposalArtifacts, ProposalPhase,
    SealedArtifactReference, Snapshot,
};

#[test]
fn status_only_discovery_uses_the_first_observation_as_the_ticket_replay_identity() {
    let first = ArtifactId::new(41).expect("non-zero artifact id");
    let second = ArtifactId::new(42).expect("non-zero artifact id");

    assert_eq!(
        persisted_discovery_observations(first, second),
        (first, first)
    );
}

#[test]
fn product_manifest_excludes_host_specific_output_bytes() {
    assert_eq!(
        String::from_utf8(product_observation_manifest_bytes(
            &CommandTerminal::Exited { exit_code: 101 },
        ))
        .expect("static JSON is UTF-8"),
        "{\"comparison_revision\":\"status-only-v1\",\"terminal\":\"exited\",\"exit_status\":101,\"signal\":null}"
    );
}

fn artifact(value: i64) -> ArtifactId {
    ArtifactId::new(value).unwrap()
}

#[test]
fn manifests_tell_terminals_apart_and_nothing_else() {
    let manifest = |terminal: CommandTerminal| {
        String::from_utf8(product_observation_manifest_bytes(&terminal)).unwrap()
    };
    assert_eq!(
        manifest(CommandTerminal::Signaled { signal: 9 }),
        "{\"comparison_revision\":\"status-only-v1\",\"terminal\":\"signaled\",\"exit_status\":null,\"signal\":9}"
    );
    let all = [
        CommandTerminal::Exited { exit_code: 0 },
        CommandTerminal::Exited { exit_code: -1 },
        CommandTerminal::Exited { exit_code: 11 },
        CommandTerminal::Signaled { signal: 11 },
        CommandTerminal::TimedOut,
        CommandTerminal::StdoutLimit,
        CommandTerminal::StderrLimit,
    ];
    for left in all {
        for right in all {
            assert_eq!(manifest(left) == manifest(right), left == right);
        }
    }
}

fn profile(name: &str) -> CommandProfile {
    CommandProfile {
        name: name.to_owned(),
        executable: "cargo".to_owned(),
        argv: vec!["test".to_owned()],
        working_directory: ".".to_owned(),
        environment: vec![("CI".to_owned(), "1".to_owned())],
        timeout_millis: 1_000,
        stdout_byte_limit: 10,
        stderr_byte_limit: 10,
        expected_exit_status: 0,
    }
}

#[test]
fn a_reproducer_is_the_admitted_profile_of_its_name() {
    let profiles = vec![profile("build"), profile("test")];
    let admitted = admit_reproducer(&profiles, "test", profile("test"), 101).unwrap();
    assert_eq!(admitted.expected_exit_status, 101);
    assert_eq!(admitted.argv, profile("test").argv);
    assert_eq!(
        admit_reproducer(&profiles, "other", profile("other"), 101),
        Err(ProductRuntimeError::UnknownReproducerProfile)
    );
    let mut changed = profile("test");
    changed.environment[0].1 = "2".to_owned();
    assert_eq!(
        admit_reproducer(&profiles, "test", changed, 101),
        Err(ProductRuntimeError::ReproducerProfileMismatch)
    );
}

#[test]
fn references_agree_with_the_registered_seal() {
    let seal = CasArtifact {
        digest: ContentDigest::of_bytes(b"a"),
        byte_length: 1,
    };
    let reference = SealedArtifactReference {
        artifact_id: artifact(3),
        seal,
    };
    assert_eq!(check_reference(&reference, &seal), Ok(()));
    let longer = CasArtifact {
        byte_length: 2,
        ..seal
    };
    assert_eq!(
        check_reference(&reference, &longer),
        Err(ProductRuntimeError::ArtifactIdentityMismatch)
    );
}

#[test]
fn git_is_asked_for_tracked_changes_commit_and_tree() {
    let status = git_probe(GitProbe::Status);
    assert_eq!(status.name, "product-discovery-git-status");
    assert_eq!(
        status.argv,
        ["status", "--porcelain=v1", "--untracked-files=no"]
    );
    assert_eq!(
        git_probe(GitProbe::Tree).argv,
        ["rev-parse", "--verify", "HEAD^{tree}"]
    );
    assert_eq!(git_probe(GitProbe::Commit).name, "product-discovery-git-rev-parse");
    assert_eq!(git_probe_output(true, b"abc\n"), Ok("abc".to_owned()));
    assert_eq!(git_probe_output(true, b"abc\n\n"), Ok("abc\n".to_owned()));
    assert_eq!(git_probe_output(true, b""), Ok(String::new()));
    assert_eq!(
        git_probe_output(false, b"abc"),
        Err(ProductRuntimeError::ProposalContract {
            detail: "discovery Git probe failed"
        })
    );
    assert_eq!(
        git_probe_output(true, b"\xff"),
        Err(ProductRuntimeError::ProposalContract {
            detail: "discovery Git output is not UTF-8"
        })
    );
}

#[test]
fn a_snapshot_is_clean_and_fully_named() {
    let commit = "a".repeat(40);
    let tree = "0".repeat(64);
    let snapshot = discover_clean_snapshot("", commit.clone(), tree.clone()).unwrap();
    assert_eq!(
        snapshot,
        Snapshot {
            commit: commit.clone(),
            tree: tree.clone(),
        }
    );
    assert_eq!(
        discover_clean_snapshot(" M src/lib.rs", commit.clone(), tree.clone()),
        Err(ProductRuntimeError::ProposalContract {
            detail: "discovery workspace is not clean"
        })
    );
    assert_eq!(
        discover_clean_snapshot("", "A".repeat(40), tree),
        Err(ProductRuntimeError::ProposalContract {
            detail: "discovery Git identity is invalid"
        })
    );
    assert!(!git_identity_ok(&commit[1..]));
    let moved = Snapshot {
        commit: "b".repeat(40),
        ..snapshot.clone()
    };
    assert_eq!(check_discovery(true, &snapshot, &snapshot), Ok(()));
    assert_eq!(
        check_discovery(false, &snapshot, &snapshot),
        Err(ProductRuntimeError::ReproducerNotStableFailure)
    );
    assert_eq!(
        check_discovery(true, &snapshot, &moved),
        Err(ProductRuntimeError::ProposalContract {
            detail: "discovery reproducer changed the clean snapshot"
        })
    );
}

#[test]
fn query_terms_are_long_lowercase_runs() {
    assert_eq!(
        duplicate_query_terms("Parser PANICS, on (if) \u{c9}t\u{e9}"),
        ["parser", "panics", "\u{e9}t\u{e9}"]
    );
    assert!(duplicate_query_terms("a b - if").is_empty());
    assert_eq!(
        split_runs("ab,c", &vec![true, true, false, true]),
        ["ab", "c"]
    );
    assert_eq!(
        keep_long_fields(
            &vec!["AB".to_owned(), "ABC".to_owned()],
            vec!["ab".to_owned(), "abc".to_owned()],
        ),
        ["abc"]
    );
    assert!(contains_bytes(b"abc", b"bc"));
    assert!(contains_bytes(b"abc", b""));
    assert!(!contains_bytes(b"abc", b"ac"));
    let terms = vec!["parser".to_owned(), "panics".to_owned()];
    assert!(contains_terms("the parser panics", &terms));
    assert!(!contains_terms("the parser works", &terms));
    assert!(texts_are_duplicates("parser panics", "panics parser", &terms));
}

#[test]
fn a_live_proposal_that_answers_the_query_is_a_duplicate() {
    let live = |id: i64, text: &str| LiveProposal {
        artifact_id: artifact(id),
        bytes: text.as_bytes().to_vec(),
    };
    let proposals = vec![
        live(1, "unrelated"),
        live(2, "The PARSER panics on \u{fffd}"),
    ];
    let current = b"parser panics \xff";
    assert_eq!(
        execute_duplicate_query("parser panics", 2, current, &proposals),
        Err(ProductRuntimeError::DuplicateLiveProposal {
            artifact_id: artifact(2)
        })
    );
    assert_eq!(
        execute_duplicate_query("parser panics", 1, current, &proposals),
        Ok(())
    );
    assert_eq!(
        execute_duplicate_query("parser panics", 2, b"something else", &proposals),
        Ok(())
    );
    assert_eq!(
        execute_duplicate_query("if a", 2, current, &proposals),
        Err(ProductRuntimeError::ProposalContract {
            detail: "duplicate search query has no searchable term"
        })
    );
}

#[test]
fn a_proposal_command_keeps_the_first_observation() {
    assert_eq!(
        proposal_command_id("cmd", "proposal-envelope"),
        "cmd-proposal-envelope"
    );
    let command = execute_product_proposal(
        &"actor".to_owned(),
        &"cmd".to_owned(),
        AggregateRevision::from_persisted(2),
        ApplicationRevisionId::new(3).unwrap(),
        &ProposalArtifacts {
            proposal: artifact(10),
            reproducer: artifact(11),
            expected_observation: artifact(12),
            first_observation: artifact(13),
            second_observation: artifact(14),
        },
        Snapshot {
            commit: "c".to_owned(),
            tree: "t".to_owned(),
        },
    );
    assert_eq!(command.first_actual_observation_artifact_id, artifact(13));
    assert_eq!(command.second_actual_observation_artifact_id, artifact(13));
    assert_eq!(command.discovery_tree, "t");
}

#[test]
fn a_proposal_is_persisted_behind_every_other_step() {
    let steps = [
        ProposalPhase::ReadContext,
        ProposalPhase::ReadBundle,
        ProposalPhase::ReadProposal,
        ProposalPhase::VerifyArtifacts,
        ProposalPhase::AdmitReproducer,
        ProposalPhase::ReadInput,
        ProposalPhase::TakeSnapshot,
        ProposalPhase::Reproduce,
        ProposalPhase::CompareSnapshot,
        ProposalPhase::SealObservations,
        ProposalPhase::QueryDuplicates,
        ProposalPhase::SealProposal,
        ProposalPhase::Persist,
    ];
    for (index, step) in steps.into_iter().enumerate() {
        let expected = match steps.get(index + 1) {
            Some(next) => ProposalAction::Perform(*next),
            None => ProposalAction::Persisted,
        };
        assert_eq!(
            next_proposal_phase::<ProductRuntimeError>(step, Ok(())),
            expected
        );
        assert_eq!(
            next_proposal_phase(step, Err(ProductRuntimeError::ReproducerNotStableFailure)),
            ProposalAction::Refuse(ProductRuntimeError::ReproducerNotStableFailure)
        );
    }
}
