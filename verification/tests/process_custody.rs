//! Launch contracts, supervision and capture on concrete values.

use factory_kernel::process_custody::{
    capture_step, finish, process_stop_code, signal_group, spawned_custody, supervise,
    validate_environment_name, ChildStatus, PiHostSpawnSpec, ProcessCancellation,
    ProcessCustodyError, ProcessStopReason, ProcessSupervisionSpec, WaitAction, WaitObservation,
    WaitPhase,
};

fn bytes(text: &str) -> Vec<u8> {
    text.as_bytes().to_vec()
}

fn spec(environment: Vec<(Vec<u8>, Vec<u8>)>) -> PiHostSpawnSpec {
    PiHostSpawnSpec::new(
        bytes("/opt/deno"),
        bytes("/factory/packages/factory-pi-host/main.ts"),
        bytes("/factory/deno.json"),
        bytes("/factory/deno.lock"),
        bytes("/work/repository"),
        0,
        environment,
    )
    .expect("valid spawn spec")
}

#[test]
fn exact_deno_launch_has_no_node_install_update_or_resume_path() {
    let spec = spec(vec![(bytes("ANTHROPIC_API_KEY"), bytes("secret"))]);
    assert_eq!(spec.executable(), b"/opt/deno");
    assert_eq!(
        spec.arguments(),
        [
            "run",
            "-A",
            "--no-prompt",
            "--frozen",
            "--cached-only",
            "--config",
            "/factory/deno.json",
            "--lock",
            "/factory/deno.lock",
            "/factory/packages/factory-pi-host/main.ts",
        ]
        .map(bytes)
    );
    assert_eq!(spec.working_directory(), b"/work/repository");
    assert_eq!(spec.actor_source_fd(), 0);
    assert_eq!(
        spec.environment(),
        [
            (bytes("DENO_NO_UPDATE_CHECK"), bytes("1")),
            (bytes("NO_COLOR"), bytes("1")),
            (bytes("ANTHROPIC_API_KEY"), bytes("secret")),
        ]
    );
}

#[test]
fn rejects_relative_paths_non_stdin_descriptors_and_environment_ambiguity() {
    let relative = PiHostSpawnSpec::new(
        bytes("deno"),
        bytes("/host.ts"),
        bytes("/deno.json"),
        bytes("/deno.lock"),
        bytes("/work"),
        0,
        Vec::new(),
    );
    assert!(matches!(
        relative,
        Err(ProcessCustodyError::PathNotAbsolute {
            field: "Deno executable"
        })
    ));

    let invalid_fd = PiHostSpawnSpec::new(
        bytes("/deno"),
        bytes("/host.ts"),
        bytes("/deno.json"),
        bytes("/deno.lock"),
        bytes("/work"),
        -1,
        Vec::new(),
    );
    assert!(matches!(
        invalid_fd,
        Err(ProcessCustodyError::ActorDescriptorMustBeStdin {
            actor_source_fd: -1
        })
    ));

    let non_stdin_fd = PiHostSpawnSpec::new(
        bytes("/deno"),
        bytes("/host.ts"),
        bytes("/deno.json"),
        bytes("/deno.lock"),
        bytes("/work"),
        3,
        Vec::new(),
    );
    assert!(matches!(
        non_stdin_fd,
        Err(ProcessCustodyError::ActorDescriptorMustBeStdin { actor_source_fd: 3 })
    ));

    let replaced = PiHostSpawnSpec::new(
        bytes("/deno"),
        bytes("/host.ts"),
        bytes("/deno.json"),
        bytes("/deno.lock"),
        bytes("/work"),
        0,
        vec![(bytes("DENO_NO_UPDATE_CHECK"), bytes("0"))],
    );
    assert!(matches!(
        replaced,
        Err(ProcessCustodyError::DuplicateEnvironmentName { name })
            if name == bytes("DENO_NO_UPDATE_CHECK")
    ));

    let ambient_cache = PiHostSpawnSpec::new(
        bytes("/deno"),
        bytes("/host.ts"),
        bytes("/deno.json"),
        bytes("/deno.lock"),
        bytes("/work"),
        0,
        vec![(bytes("DENO_DIR"), bytes("/ambient/cache"))],
    );
    assert!(matches!(
        ambient_cache,
        Err(ProcessCustodyError::DuplicateEnvironmentName { name })
            if name == bytes("DENO_DIR")
    ));
}

#[test]
fn assignment_spawn_spec_owns_one_explicit_deno_cache() {
    let spec = PiHostSpawnSpec::new_for_assignment(
        bytes("/opt/deno"),
        bytes("/factory/packages/factory-pi-host/main.ts"),
        bytes("/factory/deno.json"),
        bytes("/factory/deno.lock"),
        bytes("/work/repository"),
        0,
        bytes("/factory/runtime/deno-cache"),
        Vec::new(),
    )
    .expect("assignment spawn spec");

    assert_eq!(
        spec.host_entrypoint(),
        b"/factory/packages/factory-pi-host/main.ts"
    );
    assert_eq!(spec.deno_config(), b"/factory/deno.json");
    assert_eq!(spec.deno_lock(), b"/factory/deno.lock");
    assert_eq!(
        spec.deno_dir(),
        Some(b"/factory/runtime/deno-cache".as_slice())
    );
    assert_eq!(
        spec.environment()
            .iter()
            .filter(|(name, _)| name == b"DENO_DIR")
            .count(),
        1
    );
}

fn supervision() -> ProcessSupervisionSpec {
    ProcessSupervisionSpec::new(bytes("/tmp/out"), bytes("/tmp/err"), 10, 10, 1_000, 100)
        .expect("valid supervision")
}

#[test]
fn supervision_contracts_are_bounded() {
    let new = |stdout: &str, stderr: &str, limit: u64, wall: u128, grace: u128| {
        ProcessSupervisionSpec::new(bytes(stdout), bytes(stderr), limit, limit, wall, grace)
    };
    assert_eq!(
        new("out", "/tmp/err", 1, 1, 1),
        Err(ProcessCustodyError::PathNotAbsolute {
            field: "stdout capture"
        })
    );
    assert_eq!(
        new("/tmp/out", "/tmp/./out", 1, 1, 1),
        Err(ProcessCustodyError::CapturePathsOverlap)
    );
    assert_eq!(
        new("/tmp/out", "/tmp/err", 0, 1, 1),
        Err(ProcessCustodyError::ZeroStreamLimit)
    );
    assert_eq!(
        new("/tmp/out", "/tmp/err", 1, 0, 1),
        Err(ProcessCustodyError::ZeroWallLimit)
    );
    assert_eq!(
        new("/tmp/out", "/tmp/err", 1, 1, 0),
        Err(ProcessCustodyError::ZeroTerminationGrace)
    );
    assert_eq!(supervision().stdout_path(), b"/tmp/out");
    assert_eq!(supervision().stderr_path(), b"/tmp/err");
}

fn observation(elapsed: u128) -> WaitObservation {
    WaitObservation {
        exited: false,
        cancellation_requested: false,
        stdout_limit_exceeded: false,
        stderr_limit_exceeded: false,
        phase_elapsed_nanos: elapsed,
    }
}

#[test]
fn a_child_is_killed_only_after_its_grace() {
    let spec = supervision();
    assert_eq!(
        supervise(&spec, WaitPhase::Running, observation(999)),
        (WaitPhase::Running, WaitAction::Poll)
    );
    let terminating = WaitPhase::Terminating(ProcessStopReason::Deadline);
    assert_eq!(
        supervise(&spec, WaitPhase::Running, observation(1_000)),
        (terminating, WaitAction::Terminate)
    );
    assert_eq!(
        supervise(&spec, terminating, observation(99)),
        (terminating, WaitAction::Poll)
    );
    let killed = WaitPhase::Killed(ProcessStopReason::Deadline);
    assert_eq!(
        supervise(&spec, terminating, observation(100)),
        (killed, WaitAction::Kill)
    );
    let exited = WaitObservation {
        exited: true,
        ..observation(0)
    };
    assert_eq!(
        supervise(&spec, killed, exited).1,
        WaitAction::Finish {
            forced_reason: Some(ProcessStopReason::Deadline),
            escalated_to_kill: true,
        }
    );
    let cancelled = WaitObservation {
        cancellation_requested: true,
        stdout_limit_exceeded: true,
        ..observation(5_000)
    };
    assert_eq!(
        supervise(&spec, WaitPhase::Running, cancelled).0,
        WaitPhase::Terminating(ProcessStopReason::Cancelled)
    );
}

#[test]
fn a_finished_child_keeps_the_reason_it_was_stopped_for() {
    let custody = spawned_custody(400, 1_000).unwrap();
    assert_eq!(custody.pgid, 400);
    let status = ChildStatus {
        success: false,
        exit_code: Some(7),
        signal: None,
    };
    assert_eq!(
        finish(custody, status, None, false, 8, 7).reason,
        ProcessStopReason::NonZeroExit
    );
    assert_eq!(
        finish(custody, status, Some(ProcessStopReason::StderrLimit), true, 8, 7).reason,
        ProcessStopReason::StderrLimit
    );
    assert_eq!(process_stop_code(ProcessStopReason::StderrLimit), 5);
    assert_eq!(
        spawned_custody(400, u128::MAX),
        Err(ProcessCustodyError::TimestampOutOfRange)
    );
    assert_eq!(signal_group(400), Ok(400));
    assert_eq!(
        signal_group(u32::MAX),
        Err(ProcessCustodyError::PidOutOfRange { pid: u32::MAX })
    );
}

#[test]
fn a_capture_holds_a_bounded_prefix() {
    let first = capture_step(10, 0, 6);
    assert_eq!((first.admitted, first.total, first.exceeded), (6, 6, false));
    let second = capture_step(10, first.total, 6);
    assert_eq!(
        (second.admitted, second.total, second.exceeded),
        (4, 10, true)
    );
}

#[test]
fn environment_names_are_plain_and_values_hold_no_nul() {
    assert!(validate_environment_name(b"PROVIDER_KEY_2"));
    assert!(!validate_environment_name(b"2KEY"));
    assert!(!validate_environment_name(b"key"));
    assert!(!validate_environment_name(b""));
    let with = |environment: Vec<(Vec<u8>, Vec<u8>)>| {
        PiHostSpawnSpec::new(
            bytes("/deno"),
            bytes("/host.ts"),
            bytes("/deno.json"),
            bytes("/deno.lock"),
            bytes("/work"),
            0,
            environment,
        )
    };
    assert!(matches!(
        with(vec![(bytes("key"), bytes("1"))]),
        Err(ProcessCustodyError::InvalidEnvironmentName)
    ));
    assert!(matches!(
        with(vec![(bytes("KEY"), b"a\0".to_vec())]),
        Err(ProcessCustodyError::EnvironmentValueContainsNul { .. })
    ));
    assert!(matches!(
        with(vec![(bytes("KEY"), bytes("1")), (bytes("KEY"), bytes("2"))]),
        Err(ProcessCustodyError::DuplicateEnvironmentName { .. })
    ));
}

#[test]
fn a_cancellation_is_seen_by_every_clone() {
    let owner = ProcessCancellation::new();
    let other_host = ProcessCancellation::new();
    let before = owner.clone();
    let through = before.clone();
    assert!(!owner.is_requested());
    through.request();
    assert!(owner.is_requested());
    assert!(before.is_requested());
    assert!(through.is_requested());
    assert!(through.clone().is_requested());
    through.request();
    assert!(owner.is_requested());
    assert!(!other_host.is_requested());
}
