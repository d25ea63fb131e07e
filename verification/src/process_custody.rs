//! Launch contract and supervision of one actor host process.

use std::sync::atomic::{AtomicBool, Ordering};
use std::sync::Arc;

use vstd::prelude::*;
use vstd::utf8::encode_utf8;

use crate::path::{byte_views, components, is_absolute, path_is_absolute, paths_equal};
use crate::protocol::ProcessCustody;
use crate::text::{bytes_equal, push_bytes};

verus! {

/// Why a launch or supervision contract is refused.
#[allow(inconsistent_fields)]
#[derive(Clone, Debug, PartialEq, Eq)]
pub enum ProcessCustodyError {
    PathNotAbsolute { field: &'static str },
    /// The actor descriptor must be the inherited standard input.
    ActorDescriptorMustBeStdin { actor_source_fd: i32 },
    InvalidEnvironmentName,
    DuplicateEnvironmentName { name: Vec<u8> },
    EnvironmentValueContainsNul { name: Vec<u8> },
    CapturePathsOverlap,
    ZeroStreamLimit,
    ZeroWallLimit,
    ZeroTerminationGrace,
    TimestampOutOfRange,
    PidOutOfRange { pid: u32 },
    StreamCountOutOfRange,
}

/// A name and value of the child's environment.
pub type EnvironmentEntry = (Vec<u8>, Vec<u8>);

/// What environment entries hold.
pub open spec fn entry_views(entries: Seq<EnvironmentEntry>) -> Seq<(Seq<u8>, Seq<u8>)> {
    entries.map_values(|entry: EnvironmentEntry| (entry.0@, entry.1@))
}

/// A safe environment name: one through 160 uppercase ASCII letters, digits
/// and underscores, not beginning with a digit.
pub open spec fn is_environment_name(name: Seq<u8>) -> bool {
    &&& 1 <= name.len() <= 160
    &&& forall|i: int|
        0 <= i < name.len() ==> (0x41 <= #[trigger] name[i] <= 0x5a || 0x30 <= name[i] <= 0x39
            || name[i] == 0x5f)
    &&& !(0x30 <= name[0] <= 0x39)
}

/// The names the kernel sets itself.
pub open spec fn is_kernel_name(name: Seq<u8>) -> bool {
    ||| name == encode_utf8("DENO_DIR"@)
    ||| name == encode_utf8("DENO_NO_UPDATE_CHECK"@)
    ||| name == encode_utf8("NO_COLOR"@)
}

/// What is wrong with an environment entry.
#[derive(Clone, Copy, Debug, PartialEq, Eq, Structural)]
pub enum EntryFault {
    Name,
    Nul,
    Repeated,
}

/// What is wrong with one entry of an environment, if anything is.
pub open spec fn entry_fault(entries: Seq<(Seq<u8>, Seq<u8>)>, at: int) -> Option<EntryFault> {
    if !is_environment_name(entries[at].0) {
        Some(EntryFault::Name)
    } else if entries[at].1.contains(0u8) {
        Some(EntryFault::Nul)
    } else if is_kernel_name(entries[at].0) || exists|j: int|
        0 <= j < at && (#[trigger] entries[j]).0 == entries[at].0 {
        Some(EntryFault::Repeated)
    } else {
        None
    }
}

/// The first entry with a fault, from `from` on.
pub open spec fn first_entry_fault(entries: Seq<(Seq<u8>, Seq<u8>)>, from: int) -> Option<
    (int, EntryFault),
>
    decreases entries.len() - from,
{
    if from >= entries.len() {
        None
    } else {
        match entry_fault(entries, from) {
            Some(fault) => Some((from, fault)),
            None => first_entry_fault(entries, from + 1),
        }
    }
}

/// Whether an error reports the fault of an entry.
pub open spec fn reports_entry(
    entries: Seq<(Seq<u8>, Seq<u8>)>,
    at: int,
    fault: EntryFault,
    error: ProcessCustodyError,
) -> bool {
    match (fault, error) {
        (EntryFault::Name, ProcessCustodyError::InvalidEnvironmentName) => true,
        (EntryFault::Nul, ProcessCustodyError::EnvironmentValueContainsNul { name }) => name@
            == entries[at].0,
        (EntryFault::Repeated, ProcessCustodyError::DuplicateEnvironmentName { name }) => name@
            == entries[at].0,
        _ => false,
    }
}

/// Refuses an unsafe environment name.
pub fn validate_environment_name(name: &[u8]) -> (ok: bool)
    ensures
        ok == is_environment_name(name@),
{
    if name.len() == 0 || name.len() > 160 {
        return false;
    }
    let mut index: usize = 0;
    while index < name.len()
        invariant
            index <= name.len(),
            forall|i: int|
                0 <= i < index ==> (0x41 <= #[trigger] name@[i] <= 0x5a || 0x30 <= name@[i] <= 0x39
                    || name@[i] == 0x5f),
        decreases name.len() - index,
    {
        let byte: u8 = name[index];
        let letter = 0x41 <= byte && byte <= 0x5a;
        let digit = 0x30 <= byte && byte <= 0x39;
        if !(letter || digit || byte == 0x5f) {
            assert(!(0x41 <= name@[index as int] <= 0x5a));
            return false;
        }
        index += 1;
    }
    !(0x30 <= name[0] && name[0] <= 0x39)
}

fn kernel_name(name: &[u8]) -> (kernel: bool)
    ensures
        kernel == is_kernel_name(name@),
{
    bytes_equal(name, "DENO_DIR".as_bytes()) || bytes_equal(name, "DENO_NO_UPDATE_CHECK".as_bytes())
        || bytes_equal(name, "NO_COLOR".as_bytes())
}

fn contains_nul(bytes: &[u8]) -> (found: bool)
    ensures
        found == bytes@.contains(0u8),
{
    let mut index: usize = 0;
    while index < bytes.len()
        invariant
            index <= bytes.len(),
            forall|i: int| 0 <= i < index ==> bytes@[i] != 0,
        decreases bytes.len() - index,
    {
        if bytes[index] == 0 {
            assert(bytes@[index as int] == 0u8);
            return true;
        }
        index += 1;
    }
    false
}

fn copy_bytes(bytes: &[u8]) -> (copy: Vec<u8>)
    ensures
        copy@ == bytes@,
{
    let mut copy: Vec<u8> = Vec::new();
    push_bytes(&mut copy, bytes);
    assert(copy@ =~= bytes@);
    copy
}

/// Whether an earlier entry has the name of entry `at`.
fn repeats_earlier(entries: &Vec<EnvironmentEntry>, at: usize) -> (repeats: bool)
    requires
        at < entries@.len(),
    ensures
        repeats == (exists|j: int|
            0 <= j < at && (#[trigger] entry_views(entries@)[j]).0 == entry_views(
                entries@,
            )[at as int].0),
{
    let ghost views = entry_views(entries@);
    let mut index: usize = 0;
    while index < at
        invariant
            index <= at < entries@.len(),
            views == entry_views(entries@),
            forall|j: int| 0 <= j < index ==> (#[trigger] views[j]).0 != views[at as int].0,
        decreases at - index,
    {
        assert(views[index as int].0 == entries@[index as int].0@);
        assert(views[at as int].0 == entries@[at as int].0@);
        if bytes_equal(entries[index].0.as_slice(), entries[at].0.as_slice()) {
            return true;
        }
        index += 1;
    }
    false
}

fn check_environment(entries: &Vec<EnvironmentEntry>) -> (result: Result<(), ProcessCustodyError>)
    ensures
        match result {
            Ok(()) => first_entry_fault(entry_views(entries@), 0) is None,
            Err(error) => first_entry_fault(entry_views(entries@), 0) matches Some((at, fault))
                && reports_entry(entry_views(entries@), at, fault, error),
        },
{
    let ghost views = entry_views(entries@);
    let mut index: usize = 0;
    while index < entries.len()
        invariant
            index <= entries.len(),
            views == entry_views(entries@),
            views.len() == entries@.len(),
            first_entry_fault(views, 0) == first_entry_fault(views, index as int),
        decreases entries.len() - index,
    {
        assert(views[index as int] == (entries@[index as int].0@, entries@[index as int].1@));
        let name = entries[index].0.as_slice();
        if !validate_environment_name(name) {
            return Err(ProcessCustodyError::InvalidEnvironmentName);
        }
        if contains_nul(entries[index].1.as_slice()) {
            return Err(ProcessCustodyError::EnvironmentValueContainsNul { name: copy_bytes(name) });
        }
        if kernel_name(name) || repeats_earlier(entries, index) {
            return Err(ProcessCustodyError::DuplicateEnvironmentName { name: copy_bytes(name) });
        }
        index += 1;
    }
    Ok(())
}

/// Immutable process inputs of one host.
#[derive(Clone, Debug, PartialEq, Eq)]
pub struct PiHostSpawnSpec {
    pub deno_executable: Vec<u8>,
    pub host_entrypoint: Vec<u8>,
    pub deno_config: Vec<u8>,
    pub deno_lock: Vec<u8>,
    pub working_directory: Vec<u8>,
    pub actor_source_fd: i32,
    pub deno_dir: Option<Vec<u8>>,
    pub environment: Vec<EnvironmentEntry>,
}

/// The entries the kernel puts before the admitted ones.
pub open spec fn kernel_entries() -> Seq<(Seq<u8>, Seq<u8>)> {
    seq![
        (encode_utf8("DENO_NO_UPDATE_CHECK"@), encode_utf8("1"@)),
        (encode_utf8("NO_COLOR"@), encode_utf8("1"@)),
    ]
}

/// The first field whose path is not absolute.
pub open spec fn relative_field(
    deno_executable: Seq<u8>,
    host_entrypoint: Seq<u8>,
    deno_config: Seq<u8>,
    deno_lock: Seq<u8>,
    working_directory: Seq<u8>,
) -> Option<&'static str> {
    if !is_absolute(deno_executable) {
        Some("Deno executable")
    } else if !is_absolute(host_entrypoint) {
        Some("Pi host entrypoint")
    } else if !is_absolute(deno_config) {
        Some("Deno config")
    } else if !is_absolute(deno_lock) {
        Some("Deno lock")
    } else if !is_absolute(working_directory) {
        Some("working directory")
    } else {
        None
    }
}

/// Refuses a path that is not absolute.
pub fn require_absolute_path(field: &'static str, path: &[u8]) -> (result: Result<
    (),
    ProcessCustodyError,
>)
    ensures
        result == (if is_absolute(path@) {
            Ok::<(), ProcessCustodyError>(())
        } else {
            Err(ProcessCustodyError::PathNotAbsolute { field })
        }),
{
    if path_is_absolute(path) {
        Ok(())
    } else {
        Err(ProcessCustodyError::PathNotAbsolute { field })
    }
}

fn kernel_environment() -> (environment: Vec<EnvironmentEntry>)
    ensures
        entry_views(environment@) == kernel_entries(),
{
    let mut environment: Vec<EnvironmentEntry> = Vec::new();
    environment.push((copy_bytes("DENO_NO_UPDATE_CHECK".as_bytes()), copy_bytes("1".as_bytes())));
    environment.push((copy_bytes("NO_COLOR".as_bytes()), copy_bytes("1".as_bytes())));
    assert(entry_views(environment@) =~= kernel_entries());
    environment
}

fn append_entries(target: &mut Vec<EnvironmentEntry>, entries: &Vec<EnvironmentEntry>)
    ensures
        entry_views(final(target)@) == entry_views(old(target)@) + entry_views(entries@),
{
    let ghost start = entry_views(target@);
    let ghost views = entry_views(entries@);
    let mut index: usize = 0;
    assert(start + views.take(0) =~= start);
    while index < entries.len()
        invariant
            index <= entries.len(),
            views == entry_views(entries@),
            views.len() == entries@.len(),
            entry_views(target@) == start + views.take(index as int),
        decreases entries.len() - index,
    {
        let ghost before = entry_views(target@);
        target.push(
            (copy_bytes(entries[index].0.as_slice()), copy_bytes(entries[index].1.as_slice())),
        );
        proof {
            assert(views[index as int] == (entries@[index as int].0@, entries@[index as int].1@));
            assert(entry_views(target@) =~= before.push(views[index as int]));
            assert(views.take(index as int + 1) =~= views.take(index as int).push(
                views[index as int],
            ));
            assert(entry_views(target@) =~= start + views.take(index as int + 1));
        }
        index += 1;
    }
    assert(views.take(index as int) =~= views);
}

impl PiHostSpawnSpec {
    /// Whether this is the contract of the given inputs, before any cache
    /// directory is set.
    pub open spec fn holds_inputs(
        &self,
        deno_executable: Seq<u8>,
        host_entrypoint: Seq<u8>,
        deno_config: Seq<u8>,
        deno_lock: Seq<u8>,
        working_directory: Seq<u8>,
        actor_source_fd: i32,
    ) -> bool {
        &&& self.deno_executable@ == deno_executable
        &&& self.host_entrypoint@ == host_entrypoint
        &&& self.deno_config@ == deno_config
        &&& self.deno_lock@ == deno_lock
        &&& self.working_directory@ == working_directory
        &&& self.actor_source_fd == actor_source_fd
    }

    /// Builds the launch contract. The admitted environment may not repeat a
    /// name nor replace one the kernel sets.
    pub fn new(
        deno_executable: Vec<u8>,
        host_entrypoint: Vec<u8>,
        deno_config: Vec<u8>,
        deno_lock: Vec<u8>,
        working_directory: Vec<u8>,
        actor_source_fd: i32,
        admitted_environment: Vec<EnvironmentEntry>,
    ) -> (result: Result<PiHostSpawnSpec, ProcessCustodyError>)
        ensures
            ({
                let relative = relative_field(
                    deno_executable@,
                    host_entrypoint@,
                    deno_config@,
                    deno_lock@,
                    working_directory@,
                );
                let entries = entry_views(admitted_environment@);
                match result {
                    Err(error) => if relative is Some {
                        error == (ProcessCustodyError::PathNotAbsolute { field: relative->0 })
                    } else if actor_source_fd != 0 {
                        error == (ProcessCustodyError::ActorDescriptorMustBeStdin {
                            actor_source_fd,
                        })
                    } else {
                        first_entry_fault(entries, 0) matches Some((at, fault)) && reports_entry(
                            entries,
                            at,
                            fault,
                            error,
                        )
                    },
                    Ok(spec) => {
                        &&& relative is None
                        &&& actor_source_fd == 0
                        &&& first_entry_fault(entries, 0) is None
                        &&& spec.holds_inputs(
                            deno_executable@,
                            host_entrypoint@,
                            deno_config@,
                            deno_lock@,
                            working_directory@,
                            actor_source_fd,
                        )
                        &&& spec.deno_dir is None
                        &&& entry_views(spec.environment@) == kernel_entries() + entries
                    },
                }
            }),
    {
        match require_absolute_path("Deno executable", deno_executable.as_slice()) {
            Err(error) => return Err(error),
            Ok(()) => {},
        }
        match require_absolute_path("Pi host entrypoint", host_entrypoint.as_slice()) {
            Err(error) => return Err(error),
            Ok(()) => {},
        }
        match require_absolute_path("Deno config", deno_config.as_slice()) {
            Err(error) => return Err(error),
            Ok(()) => {},
        }
        match require_absolute_path("Deno lock", deno_lock.as_slice()) {
            Err(error) => return Err(error),
            Ok(()) => {},
        }
        match require_absolute_path("working directory", working_directory.as_slice()) {
            Err(error) => return Err(error),
            Ok(()) => {},
        }
        if actor_source_fd != 0 {
            return Err(ProcessCustodyError::ActorDescriptorMustBeStdin { actor_source_fd });
        }
        match check_environment(&admitted_environment) {
            Err(error) => return Err(error),
            Ok(()) => {},
        }
        let mut environment = kernel_environment();
        append_entries(&mut environment, &admitted_environment);
        Ok(
            PiHostSpawnSpec {
                deno_executable,
                host_entrypoint,
                deno_config,
                deno_lock,
                working_directory,
                actor_source_fd,
                deno_dir: None,
                environment,
            },
        )
    }

    /// Builds the launch contract of an assignment, with the kernel's own
    /// cache directory.
    pub fn new_for_assignment(
        deno_executable: Vec<u8>,
        host_entrypoint: Vec<u8>,
        deno_config: Vec<u8>,
        deno_lock: Vec<u8>,
        working_directory: Vec<u8>,
        actor_source_fd: i32,
        deno_dir: Vec<u8>,
        admitted_environment: Vec<EnvironmentEntry>,
    ) -> (result: Result<PiHostSpawnSpec, ProcessCustodyError>)
        ensures
            ({
                let relative = relative_field(
                    deno_executable@,
                    host_entrypoint@,
                    deno_config@,
                    deno_lock@,
                    working_directory@,
                );
                let entries = entry_views(admitted_environment@);
                let cache_given = exists|j: int|
                    0 <= j < entries.len() && (#[trigger] entries[j]).0 == encode_utf8(
                        "DENO_DIR"@,
                    );
                match result {
                    Err(error) => if !is_absolute(deno_dir@) {
                        error == (ProcessCustodyError::PathNotAbsolute { field: "DENO_DIR" })
                    } else if cache_given {
                        error matches ProcessCustodyError::DuplicateEnvironmentName { name }
                            && name@ == encode_utf8("DENO_DIR"@)
                    } else if relative is Some {
                        error == (ProcessCustodyError::PathNotAbsolute { field: relative->0 })
                    } else if actor_source_fd != 0 {
                        error == (ProcessCustodyError::ActorDescriptorMustBeStdin {
                            actor_source_fd,
                        })
                    } else {
                        first_entry_fault(entries, 0) matches Some((at, fault)) && reports_entry(
                            entries,
                            at,
                            fault,
                            error,
                        )
                    },
                    Ok(spec) => {
                        &&& is_absolute(deno_dir@)
                        &&& !cache_given
                        &&& relative is None
                        &&& actor_source_fd == 0
                        &&& first_entry_fault(entries, 0) is None
                        &&& spec.holds_inputs(
                            deno_executable@,
                            host_entrypoint@,
                            deno_config@,
                            deno_lock@,
                            working_directory@,
                            actor_source_fd,
                        )
                        &&& spec.deno_dir is Some
                        &&& spec.deno_dir->0@ == deno_dir@
                        &&& entry_views(spec.environment@) == kernel_entries().push(
                            (encode_utf8("DENO_DIR"@), deno_dir@),
                        ) + entries
                    },
                }
            }),
    {
        match require_absolute_path("DENO_DIR", deno_dir.as_slice()) {
            Err(error) => return Err(error),
            Ok(()) => {},
        }
        let ghost entries = entry_views(admitted_environment@);
        let mut index: usize = 0;
        while index < admitted_environment.len()
            invariant
                index <= admitted_environment.len(),
                entries == entry_views(admitted_environment@),
                entries.len() == admitted_environment@.len(),
                is_absolute(deno_dir@),
                forall|j: int|
                    0 <= j < index ==> (#[trigger] entries[j]).0 != encode_utf8("DENO_DIR"@),
            decreases admitted_environment.len() - index,
        {
            assert(entries[index as int].0 == admitted_environment@[index as int].0@);
            if bytes_equal(admitted_environment[index].0.as_slice(), "DENO_DIR".as_bytes()) {
                return Err(
                    ProcessCustodyError::DuplicateEnvironmentName {
                        name: copy_bytes("DENO_DIR".as_bytes()),
                    },
                );
            }
            index += 1;
        }
        let spec = match PiHostSpawnSpec::new(
            deno_executable,
            host_entrypoint,
            deno_config,
            deno_lock,
            working_directory,
            actor_source_fd,
            admitted_environment,
        ) {
            Ok(spec) => spec,
            Err(error) => return Err(error),
        };
        let mut environment = kernel_environment();
        environment.push((copy_bytes("DENO_DIR".as_bytes()), copy_bytes(deno_dir.as_slice())));
        assert(entry_views(environment@) =~= kernel_entries().push(
            (encode_utf8("DENO_DIR"@), deno_dir@),
        ));
        let mut at: usize = 2;
        let ghost base = entry_views(environment@);
        let ghost full = entry_views(spec.environment@);
        assert(full =~= kernel_entries() + entries);
        assert(full.len() == spec.environment@.len());
        assert(base + entries.take(0) =~= base);
        while at < spec.environment.len()
            invariant
                2 <= at <= spec.environment@.len(),
                full == entry_views(spec.environment@),
                full == kernel_entries() + entries,
                full.len() == spec.environment@.len(),
                entry_views(environment@) == base + entries.take(at - 2),
            decreases spec.environment.len() - at,
        {
            let ghost before = entry_views(environment@);
            environment.push(
                (
                    copy_bytes(spec.environment[at].0.as_slice()),
                    copy_bytes(spec.environment[at].1.as_slice()),
                ),
            );
            proof {
                assert(full[at as int] == entries[at - 2]);
                assert(full[at as int] == (
                    spec.environment@[at as int].0@,
                    spec.environment@[at as int].1@,
                ));
                assert(entry_views(environment@) =~= before.push(entries[at - 2]));
                assert(entries.take(at - 1) =~= entries.take(at - 2).push(entries[at - 2]));
                assert(entry_views(environment@) =~= base + entries.take(at - 1));
            }
            at += 1;
        }
        assert(entries.take(at - 2) =~= entries);
        Ok(
            PiHostSpawnSpec {
                deno_executable: spec.deno_executable,
                host_entrypoint: spec.host_entrypoint,
                deno_config: spec.deno_config,
                deno_lock: spec.deno_lock,
                working_directory: spec.working_directory,
                actor_source_fd: spec.actor_source_fd,
                deno_dir: Some(deno_dir),
                environment,
            },
        )
    }

    pub fn executable(&self) -> (path: &[u8])
        ensures
            path@ == self.deno_executable@,
    {
        self.deno_executable.as_slice()
    }

    pub fn host_entrypoint(&self) -> (path: &[u8])
        ensures
            path@ == self.host_entrypoint@,
    {
        self.host_entrypoint.as_slice()
    }

    pub fn deno_config(&self) -> (path: &[u8])
        ensures
            path@ == self.deno_config@,
    {
        self.deno_config.as_slice()
    }

    pub fn deno_lock(&self) -> (path: &[u8])
        ensures
            path@ == self.deno_lock@,
    {
        self.deno_lock.as_slice()
    }

    pub fn deno_dir(&self) -> (path: Option<&[u8]>)
        ensures
            match path {
                Some(path) => self.deno_dir is Some && path@ == self.deno_dir->0@,
                None => self.deno_dir is None,
            },
    {
        match &self.deno_dir {
            Some(path) => Some(path.as_slice()),
            None => None,
        }
    }

    /// The exact arguments of the host; nothing an actor says adds to them.
    pub open spec fn spec_arguments(&self) -> Seq<Seq<u8>> {
        seq![
            encode_utf8("run"@),
            encode_utf8("-A"@),
            encode_utf8("--no-prompt"@),
            encode_utf8("--frozen"@),
            encode_utf8("--cached-only"@),
            encode_utf8("--config"@),
            self.deno_config@,
            encode_utf8("--lock"@),
            self.deno_lock@,
            self.host_entrypoint@,
        ]
    }

    pub fn arguments(&self) -> (arguments: Vec<Vec<u8>>)
        ensures
            byte_views(arguments@) == self.spec_arguments(),
    {
        let mut arguments: Vec<Vec<u8>> = Vec::new();
        arguments.push(copy_bytes("run".as_bytes()));
        arguments.push(copy_bytes("-A".as_bytes()));
        arguments.push(copy_bytes("--no-prompt".as_bytes()));
        arguments.push(copy_bytes("--frozen".as_bytes()));
        arguments.push(copy_bytes("--cached-only".as_bytes()));
        arguments.push(copy_bytes("--config".as_bytes()));
        arguments.push(copy_bytes(self.deno_config.as_slice()));
        arguments.push(copy_bytes("--lock".as_bytes()));
        arguments.push(copy_bytes(self.deno_lock.as_slice()));
        arguments.push(copy_bytes(self.host_entrypoint.as_slice()));
        assert(byte_views(arguments@) =~= self.spec_arguments());
        arguments
    }

    pub fn working_directory(&self) -> (path: &[u8])
        ensures
            path@ == self.working_directory@,
    {
        self.working_directory.as_slice()
    }

    pub fn actor_source_fd(&self) -> (descriptor: i32)
        ensures
            descriptor == self.actor_source_fd,
    {
        self.actor_source_fd
    }

    /// The complete child environment.
    pub fn environment(&self) -> (entries: &[EnvironmentEntry])
        ensures
            entries@ == self.environment@,
    {
        self.environment.as_slice()
    }
}

proof fn lemma_no_entry_fault(entries: Seq<(Seq<u8>, Seq<u8>)>, from: int, at: int)
    requires
        0 <= from <= at < entries.len(),
        first_entry_fault(entries, from) is None,
    ensures
        entry_fault(entries, at) is None,
    decreases at - from,
{
    if from < at {
        lemma_no_entry_fault(entries, from + 1, at);
    }
}

/// No name stands twice in an admitted environment, none is one the kernel
/// sets, and no value holds NUL: neither the plain contract nor that of an
/// assignment can be made ambiguous.
pub proof fn law_environment_is_unambiguous(entries: Seq<(Seq<u8>, Seq<u8>)>, left: int, right: int)
    requires
        first_entry_fault(entries, 0) is None,
        0 <= left < right < entries.len(),
    ensures
        entries[left].0 != entries[right].0,
        !is_kernel_name(entries[left].0),
        !is_kernel_name(entries[right].0),
        !entries[left].1.contains(0u8),
        !entries[right].1.contains(0u8),
{
    lemma_no_entry_fault(entries, 0, left);
    lemma_no_entry_fault(entries, 0, right);
}

/// Bounded captures and deadlines of one child. Durations are nanoseconds.
#[derive(Clone, Debug, PartialEq, Eq)]
pub struct ProcessSupervisionSpec {
    pub stdout_path: Vec<u8>,
    pub stderr_path: Vec<u8>,
    pub stdout_byte_limit: u64,
    pub stderr_byte_limit: u64,
    pub wall_limit_nanos: u128,
    pub termination_grace_nanos: u128,
}

/// Why a supervision contract is refused, if it is.
pub open spec fn supervision_fault(
    stdout_path: Seq<u8>,
    stderr_path: Seq<u8>,
    stdout_byte_limit: u64,
    stderr_byte_limit: u64,
    wall_limit_nanos: u128,
    termination_grace_nanos: u128,
) -> Option<ProcessCustodyError> {
    if !is_absolute(stdout_path) {
        Some(ProcessCustodyError::PathNotAbsolute { field: "stdout capture" })
    } else if !is_absolute(stderr_path) {
        Some(ProcessCustodyError::PathNotAbsolute { field: "stderr capture" })
    } else if components(stdout_path) == components(stderr_path) {
        Some(ProcessCustodyError::CapturePathsOverlap)
    } else if stdout_byte_limit == 0 || stderr_byte_limit == 0 {
        Some(ProcessCustodyError::ZeroStreamLimit)
    } else if wall_limit_nanos == 0 {
        Some(ProcessCustodyError::ZeroWallLimit)
    } else if termination_grace_nanos == 0 {
        Some(ProcessCustodyError::ZeroTerminationGrace)
    } else {
        None
    }
}

impl ProcessSupervisionSpec {
    /// Whether the contract is one [`ProcessSupervisionSpec::new`] admits.
    pub open spec fn well_formed(&self) -> bool {
        supervision_fault(
            self.stdout_path@,
            self.stderr_path@,
            self.stdout_byte_limit,
            self.stderr_byte_limit,
            self.wall_limit_nanos,
            self.termination_grace_nanos,
        ) is None
    }

    pub fn new(
        stdout_path: Vec<u8>,
        stderr_path: Vec<u8>,
        stdout_byte_limit: u64,
        stderr_byte_limit: u64,
        wall_limit_nanos: u128,
        termination_grace_nanos: u128,
    ) -> (result: Result<ProcessSupervisionSpec, ProcessCustodyError>)
        ensures
            match result {
                Err(error) => supervision_fault(
                    stdout_path@,
                    stderr_path@,
                    stdout_byte_limit,
                    stderr_byte_limit,
                    wall_limit_nanos,
                    termination_grace_nanos,
                ) == Some(error),
                Ok(spec) => {
                    &&& spec.well_formed()
                    &&& spec.stdout_path@ == stdout_path@
                    &&& spec.stderr_path@ == stderr_path@
                    &&& spec.stdout_byte_limit == stdout_byte_limit
                    &&& spec.stderr_byte_limit == stderr_byte_limit
                    &&& spec.wall_limit_nanos == wall_limit_nanos
                    &&& spec.termination_grace_nanos == termination_grace_nanos
                },
            },
    {
        match require_absolute_path("stdout capture", stdout_path.as_slice()) {
            Err(error) => return Err(error),
            Ok(()) => {},
        }
        match require_absolute_path("stderr capture", stderr_path.as_slice()) {
            Err(error) => return Err(error),
            Ok(()) => {},
        }
        if paths_equal(stdout_path.as_slice(), stderr_path.as_slice()) {
            return Err(ProcessCustodyError::CapturePathsOverlap);
        }
        if stdout_byte_limit == 0 || stderr_byte_limit == 0 {
            return Err(ProcessCustodyError::ZeroStreamLimit);
        }
        if wall_limit_nanos == 0 {
            return Err(ProcessCustodyError::ZeroWallLimit);
        }
        if termination_grace_nanos == 0 {
            return Err(ProcessCustodyError::ZeroTerminationGrace);
        }
        Ok(
            ProcessSupervisionSpec {
                stdout_path,
                stderr_path,
                stdout_byte_limit,
                stderr_byte_limit,
                wall_limit_nanos,
                termination_grace_nanos,
            },
        )
    }

    /// Where the child's standard output is captured.
    pub fn stdout_path(&self) -> (path: &[u8])
        ensures
            path@ == self.stdout_path@,
    {
        self.stdout_path.as_slice()
    }

    /// Where the child's standard error is captured.
    pub fn stderr_path(&self) -> (path: &[u8])
        ensures
            path@ == self.stderr_path@,
    {
        self.stderr_path.as_slice()
    }
}

/// A handle that cancels one child. Its clones share one flag, which is raised
/// once and never lowered. It names no process: only the owner of the child
/// reads it.
#[derive(Debug)]
pub struct ProcessCancellation {
    requested: Arc<AtomicBool>,
}

impl ProcessCancellation {
    /// Whether two handles share one flag.
    pub closed spec fn shares_flag(&self, other: &ProcessCancellation) -> bool {
        self.requested == other.requested
    }

    /// A handle with a flag of its own that is not raised.
    pub fn new() -> (cancellation: ProcessCancellation) {
        ProcessCancellation { requested: Arc::new(AtomicBool::new(false)) }
    }

    /// Raises the flag that every clone of the handle shares; raising it again
    /// changes nothing.
    pub fn request(&self) {
        self.requested.store(true, Ordering::Release);
    }

    /// Whether the flag was raised, through this handle or a clone of it. What
    /// is read depends on what other threads have done by then.
    pub fn is_requested(&self) -> (requested: bool) {
        self.requested.load(Ordering::Acquire)
    }
}

impl Clone for ProcessCancellation {
    /// Another handle on the same flag.
    fn clone(&self) -> (other: ProcessCancellation)
        ensures
            other.shares_flag(self),
    {
        ProcessCancellation { requested: Arc::clone(&self.requested) }
    }
}

/// All clones of a handle, and clones of clones, share its one flag.
pub proof fn law_clones_share_one_flag(
    owner: ProcessCancellation,
    clone: ProcessCancellation,
    again: ProcessCancellation,
)
    requires
        clone.shares_flag(&owner),
        again.shares_flag(&clone),
    ensures
        owner.shares_flag(&owner),
        again.shares_flag(&owner),
        owner.shares_flag(&again),
{
}

/// Why a child stopped. Its digest code is its position in this list.
#[derive(Clone, Copy, Debug, PartialEq, Eq, Structural)]
pub enum ProcessStopReason {
    Exited,
    NonZeroExit,
    Cancelled,
    Deadline,
    StdoutLimit,
    StderrLimit,
}

pub open spec fn spec_process_stop_code(reason: ProcessStopReason) -> u8 {
    match reason {
        ProcessStopReason::Exited => 0,
        ProcessStopReason::NonZeroExit => 1,
        ProcessStopReason::Cancelled => 2,
        ProcessStopReason::Deadline => 3,
        ProcessStopReason::StdoutLimit => 4,
        ProcessStopReason::StderrLimit => 5,
    }
}

pub fn process_stop_code(reason: ProcessStopReason) -> (code: u8)
    ensures
        code == spec_process_stop_code(reason),
{
    match reason {
        ProcessStopReason::Exited => 0,
        ProcessStopReason::NonZeroExit => 1,
        ProcessStopReason::Cancelled => 2,
        ProcessStopReason::Deadline => 3,
        ProcessStopReason::StdoutLimit => 4,
        ProcessStopReason::StderrLimit => 5,
    }
}

/// What direct waiting for a child found.
#[derive(Clone, Copy, Debug, PartialEq, Eq, Structural)]
pub struct SupervisedProcessOutcome {
    pub custody: ProcessCustody,
    pub reason: ProcessStopReason,
    pub exit_code: Option<i32>,
    pub signal: Option<i32>,
    pub escalated_to_kill: bool,
    pub stdout_bytes: u64,
    pub stderr_bytes: u64,
}

/// How far the supervision of a child has come.
#[derive(Clone, Copy, Debug, PartialEq, Eq, Structural)]
pub enum WaitPhase {
    /// The child runs undisturbed.
    Running,
    /// The group was asked to terminate, for this reason.
    Terminating(ProcessStopReason),
    /// The group was killed after its grace, for this reason.
    Killed(ProcessStopReason),
}

/// What one poll of a child observes.
#[derive(Clone, Copy, Debug, PartialEq, Eq, Structural)]
pub struct WaitObservation {
    pub exited: bool,
    pub cancellation_requested: bool,
    pub stdout_limit_exceeded: bool,
    pub stderr_limit_exceeded: bool,
    /// Time since the child started, or since it was asked to terminate.
    pub phase_elapsed_nanos: u128,
}

/// What a supervisor does after a poll.
#[derive(Clone, Copy, Debug, PartialEq, Eq, Structural)]
pub enum WaitAction {
    /// Poll again after a short sleep.
    Poll,
    /// Send TERM to the exact group.
    Terminate,
    /// Send KILL to the exact group and wait for the child.
    Kill,
    /// Collect the exit status.
    Finish { forced_reason: Option<ProcessStopReason>, escalated_to_kill: bool },
}

/// The first reason to stop a running child: cancellation, then an exceeded
/// stream, then the deadline.
pub open spec fn spec_forced_reason(
    supervision: ProcessSupervisionSpec,
    observation: WaitObservation,
) -> Option<ProcessStopReason> {
    if observation.cancellation_requested {
        Some(ProcessStopReason::Cancelled)
    } else if observation.stdout_limit_exceeded {
        Some(ProcessStopReason::StdoutLimit)
    } else if observation.stderr_limit_exceeded {
        Some(ProcessStopReason::StderrLimit)
    } else if observation.phase_elapsed_nanos >= supervision.wall_limit_nanos {
        Some(ProcessStopReason::Deadline)
    } else {
        None
    }
}

/// The next phase and action of a supervisor.
pub open spec fn spec_supervise(
    supervision: ProcessSupervisionSpec,
    phase: WaitPhase,
    observation: WaitObservation,
) -> (WaitPhase, WaitAction) {
    match phase {
        WaitPhase::Running => if observation.exited {
            (phase, WaitAction::Finish { forced_reason: None, escalated_to_kill: false })
        } else {
            match spec_forced_reason(supervision, observation) {
                Some(reason) => (WaitPhase::Terminating(reason), WaitAction::Terminate),
                None => (phase, WaitAction::Poll),
            }
        },
        WaitPhase::Terminating(reason) => if observation.exited {
            (phase, WaitAction::Finish { forced_reason: Some(reason), escalated_to_kill: false })
        } else if observation.phase_elapsed_nanos >= supervision.termination_grace_nanos {
            (WaitPhase::Killed(reason), WaitAction::Kill)
        } else {
            (phase, WaitAction::Poll)
        },
        WaitPhase::Killed(reason) => if observation.exited {
            (phase, WaitAction::Finish { forced_reason: Some(reason), escalated_to_kill: true })
        } else {
            (phase, WaitAction::Poll)
        },
    }
}

/// Decides the next phase and action of a supervisor.
pub fn supervise(
    supervision: &ProcessSupervisionSpec,
    phase: WaitPhase,
    observation: WaitObservation,
) -> (next: (WaitPhase, WaitAction))
    ensures
        next == spec_supervise(*supervision, phase, observation),
{
    match phase {
        WaitPhase::Running => {
            if observation.exited {
                return (phase, WaitAction::Finish { forced_reason: None, escalated_to_kill: false });
            }
            let forced = if observation.cancellation_requested {
                Some(ProcessStopReason::Cancelled)
            } else if observation.stdout_limit_exceeded {
                Some(ProcessStopReason::StdoutLimit)
            } else if observation.stderr_limit_exceeded {
                Some(ProcessStopReason::StderrLimit)
            } else if observation.phase_elapsed_nanos >= supervision.wall_limit_nanos {
                Some(ProcessStopReason::Deadline)
            } else {
                None
            };
            match forced {
                Some(reason) => (WaitPhase::Terminating(reason), WaitAction::Terminate),
                None => (phase, WaitAction::Poll),
            }
        },
        WaitPhase::Terminating(reason) => if observation.exited {
            (phase, WaitAction::Finish { forced_reason: Some(reason), escalated_to_kill: false })
        } else if observation.phase_elapsed_nanos >= supervision.termination_grace_nanos {
            (WaitPhase::Killed(reason), WaitAction::Kill)
        } else {
            (phase, WaitAction::Poll)
        },
        WaitPhase::Killed(reason) => if observation.exited {
            (phase, WaitAction::Finish { forced_reason: Some(reason), escalated_to_kill: true })
        } else {
            (phase, WaitAction::Poll)
        },
    }
}

/// A group is killed only after it was asked to terminate and its whole grace
/// has passed, and the reason it was asked for stays its reason.
pub proof fn law_kill_follows_term_and_grace(
    supervision: ProcessSupervisionSpec,
    phase: WaitPhase,
    observation: WaitObservation,
)
    ensures
        ({
            let (next, action) = spec_supervise(supervision, phase, observation);
            &&& action is Kill ==> phase is Terminating && observation.phase_elapsed_nanos
                >= supervision.termination_grace_nanos && next == WaitPhase::Killed(
                phase->Terminating_0,
            )
            &&& phase matches WaitPhase::Terminating(reason) ==> (next == phase || next
                == WaitPhase::Killed(reason)) && (action matches WaitAction::Finish {
                forced_reason,
                ..
            } ==> forced_reason == Some(reason))
            &&& phase matches WaitPhase::Killed(reason) ==> next == phase
            &&& action is Finish ==> observation.exited
        }),
{
}

/// The reason of a finished child: the forced one, or its own exit.
pub open spec fn spec_finish_reason(forced: Option<ProcessStopReason>, success: bool) -> ProcessStopReason {
    match forced {
        Some(reason) => reason,
        None => if success {
            ProcessStopReason::Exited
        } else {
            ProcessStopReason::NonZeroExit
        },
    }
}

/// How a child exited.
#[derive(Clone, Copy, Debug, PartialEq, Eq, Structural)]
pub struct ChildStatus {
    pub success: bool,
    pub exit_code: Option<i32>,
    pub signal: Option<i32>,
}

/// Composes the outcome of a finished child.
pub fn finish(
    custody: ProcessCustody,
    status: ChildStatus,
    forced_reason: Option<ProcessStopReason>,
    escalated_to_kill: bool,
    stdout_bytes: u64,
    stderr_bytes: u64,
) -> (outcome: SupervisedProcessOutcome)
    ensures
        outcome == (SupervisedProcessOutcome {
            custody,
            reason: spec_finish_reason(forced_reason, status.success),
            exit_code: status.exit_code,
            signal: status.signal,
            escalated_to_kill,
            stdout_bytes,
            stderr_bytes,
        }),
{
    let reason = match forced_reason {
        Some(reason) => reason,
        None => if status.success {
            ProcessStopReason::Exited
        } else {
            ProcessStopReason::NonZeroExit
        },
    };
    SupervisedProcessOutcome {
        custody,
        reason,
        exit_code: status.exit_code,
        signal: status.signal,
        escalated_to_kill,
        stdout_bytes,
        stderr_bytes,
    }
}

/// What a capture does with the bytes it just read.
#[derive(Clone, Copy, Debug, PartialEq, Eq, Structural)]
pub struct CaptureStep {
    /// How many of the bytes are written.
    pub admitted: usize,
    /// How many bytes have been written in all.
    pub total: u64,
    /// Whether bytes were dropped.
    pub exceeded: bool,
}

/// Admits bytes up to the limit and drops the rest.
pub fn capture_step(byte_limit: u64, total: u64, count: usize) -> (step: CaptureStep)
    requires
        total <= byte_limit,
    ensures
        step.admitted == (if count <= byte_limit - total {
            count as int
        } else {
            byte_limit - total
        }),
        step.total == total + step.admitted,
        step.exceeded == (step.admitted < count),
        step.total <= byte_limit,
{
    let remaining: u64 = byte_limit - total;
    let admitted: usize = if count as u64 <= remaining {
        count
    } else {
        remaining as usize
    };
    CaptureStep { admitted, total: total + admitted as u64, exceeded: admitted < count }
}

/// How many bytes a capture writes of reads of the given sizes.
pub open spec fn captured(byte_limit: nat, counts: Seq<nat>) -> nat
    decreases counts.len(),
{
    if counts.len() == 0 {
        0
    } else {
        let before = captured(byte_limit, counts.drop_last());
        let room = (byte_limit - before) as nat;
        before + (if counts.last() <= room {
            counts.last()
        } else {
            room
        })
    }
}

/// How many bytes reads of the given sizes deliver.
pub open spec fn delivered(counts: Seq<nat>) -> nat
    decreases counts.len(),
{
    if counts.len() == 0 {
        0
    } else {
        delivered(counts.drop_last()) + counts.last()
    }
}

/// A capture holds everything delivered, up to exactly its limit.
pub proof fn law_capture_is_a_bounded_prefix(byte_limit: nat, counts: Seq<nat>)
    ensures
        captured(byte_limit, counts) == (if delivered(counts) <= byte_limit {
            delivered(counts)
        } else {
            byte_limit
        }),
    decreases counts.len(),
{
    if counts.len() > 0 {
        law_capture_is_a_bounded_prefix(byte_limit, counts.drop_last());
    }
}

/// The custody of a child spawned as the leader of its own group.
pub fn spawned_custody(pid: u32, started_at_millis: u128) -> (result: Result<
    ProcessCustody,
    ProcessCustodyError,
>)
    ensures
        result == (if started_at_millis <= u64::MAX {
            Ok::<ProcessCustody, ProcessCustodyError>(
                ProcessCustody {
                    pid,
                    pgid: pid,
                    started_at_unix_millis: started_at_millis as u64,
                },
            )
        } else {
            Err(ProcessCustodyError::TimestampOutOfRange)
        }),
{
    if started_at_millis > u64::MAX as u128 {
        return Err(ProcessCustodyError::TimestampOutOfRange);
    }
    Ok(ProcessCustody { pid, pgid: pid, started_at_unix_millis: started_at_millis as u64 })
}

/// The raw identifier under which a group is signalled.
pub fn signal_group(pgid: u32) -> (result: Result<i32, ProcessCustodyError>)
    ensures
        result == (if 0 < pgid <= i32::MAX {
            Ok::<i32, ProcessCustodyError>(pgid as i32)
        } else {
            Err(ProcessCustodyError::PidOutOfRange { pid: pgid })
        }),
{
    if pgid == 0 || pgid > i32::MAX as u32 {
        return Err(ProcessCustodyError::PidOutOfRange { pid: pgid });
    }
    Ok(pgid as i32)
}

/// A running child that has not exited is terminated exactly where it is
/// cancelled, over an output limit, or at its wall limit; the reason is the
/// first of these that holds. With none of them it is left alone.
pub proof fn law_running_child_is_stopped_for_cause(
    supervision: ProcessSupervisionSpec,
    observation: WaitObservation,
)
    requires
        !observation.exited,
    ensures
        ({
            let (next, action) = spec_supervise(supervision, WaitPhase::Running, observation);
            let late = observation.phase_elapsed_nanos >= supervision.wall_limit_nanos;
            &&& observation.cancellation_requested ==> next == WaitPhase::Terminating(
                ProcessStopReason::Cancelled,
            ) && action == WaitAction::Terminate
            &&& !observation.cancellation_requested && observation.stdout_limit_exceeded ==> next
                == WaitPhase::Terminating(ProcessStopReason::StdoutLimit) && action
                == WaitAction::Terminate
            &&& !observation.cancellation_requested && !observation.stdout_limit_exceeded
                && observation.stderr_limit_exceeded ==> next == WaitPhase::Terminating(
                ProcessStopReason::StderrLimit,
            ) && action == WaitAction::Terminate
            &&& !observation.cancellation_requested && !observation.stdout_limit_exceeded
                && !observation.stderr_limit_exceeded && late ==> next == WaitPhase::Terminating(
                ProcessStopReason::Deadline,
            ) && action == WaitAction::Terminate
            &&& !observation.cancellation_requested && !observation.stdout_limit_exceeded
                && !observation.stderr_limit_exceeded && !late ==> next == WaitPhase::Running
                && action == WaitAction::Poll
        }),
{
}

/// A child that has exited is collected at once, in every phase and whatever
/// else was observed, with the reason it was stopped for and whether it had to
/// be killed.
pub proof fn law_exited_child_is_collected(
    supervision: ProcessSupervisionSpec,
    reason: ProcessStopReason,
    observation: WaitObservation,
)
    requires
        observation.exited,
    ensures
        spec_supervise(supervision, WaitPhase::Running, observation).1 == (WaitAction::Finish {
            forced_reason: None,
            escalated_to_kill: false,
        }),
        spec_supervise(supervision, WaitPhase::Terminating(reason), observation).1 == (
        WaitAction::Finish { forced_reason: Some(reason), escalated_to_kill: false }),
        spec_supervise(supervision, WaitPhase::Killed(reason), observation).1 == (
        WaitAction::Finish { forced_reason: Some(reason), escalated_to_kill: true }),
{
}

/// A child that was asked to terminate is killed exactly when its grace has
/// passed, is waited for until then, and is never asked or killed twice.
pub proof fn law_stubborn_child_is_killed_behind_its_grace(
    supervision: ProcessSupervisionSpec,
    reason: ProcessStopReason,
    observation: WaitObservation,
)
    requires
        !observation.exited,
    ensures
        observation.phase_elapsed_nanos >= supervision.termination_grace_nanos ==> spec_supervise(
            supervision,
            WaitPhase::Terminating(reason),
            observation,
        ) == (WaitPhase::Killed(reason), WaitAction::Kill),
        observation.phase_elapsed_nanos < supervision.termination_grace_nanos ==> spec_supervise(
            supervision,
            WaitPhase::Terminating(reason),
            observation,
        ) == (WaitPhase::Terminating(reason), WaitAction::Poll),
        spec_supervise(supervision, WaitPhase::Killed(reason), observation) == (
            WaitPhase::Killed(reason),
            WaitAction::Poll,
        ),
{
}

/// An environment is admitted exactly when every name is one through one
/// hundred and sixty capital letters, digits and underscores that begins with
/// no digit, no value holds a zero byte, no name is the kernel's own, and none
/// stands twice.
pub proof fn law_environment_is_admitted_exactly_when_sound(entries: Seq<(Seq<u8>, Seq<u8>)>)
    ensures
        first_entry_fault(entries, 0) is None <==> {
            &&& forall|i: int| 0 <= i < entries.len() ==> 1 <= (#[trigger] entries[i]).0.len() <= 160
            &&& forall|i: int, k: int|
                #![trigger entries[i].0[k]]
                0 <= i < entries.len() && 0 <= k < entries[i].0.len() ==> {
                    let byte = entries[i].0[k];
                    65 <= byte <= 90 || 48 <= byte <= 57 && k > 0 || byte == 95
                }
            &&& forall|i: int|
                0 <= i < entries.len() ==> !(#[trigger] entries[i]).1.contains(0u8)
            &&& forall|i: int|
                0 <= i < entries.len() ==> (#[trigger] entries[i]).0 != encode_utf8("DENO_DIR"@)
                    && entries[i].0 != encode_utf8("DENO_NO_UPDATE_CHECK"@) && entries[i].0
                    != encode_utf8("NO_COLOR"@)
            &&& forall|i: int, j: int|
                0 <= i < j < entries.len() ==> (#[trigger] entries[i]).0 != (
                #[trigger] entries[j]).0
        },
{
    lemma_entries_are_sound(entries, 0);
    if first_entry_fault(entries, 0) is None {
        assert forall|i: int| 0 <= i < entries.len() implies 1 <= (#[trigger] entries[i]).0.len()
            <= 160 by {
            assert(entry_fault(entries, i) is None);
        }
        assert forall|i: int, k: int|
            #![trigger entries[i].0[k]]
            0 <= i < entries.len() && 0 <= k < entries[i].0.len() implies {
            let byte = entries[i].0[k];
            65 <= byte <= 90 || 48 <= byte <= 57 && k > 0 || byte == 95
        } by {
            assert(entry_fault(entries, i) is None);
        }
        assert forall|i: int| 0 <= i < entries.len() implies !(
        #[trigger] entries[i]).1.contains(0u8) by {
            assert(entry_fault(entries, i) is None);
        }
        assert forall|i: int| 0 <= i < entries.len() implies (#[trigger] entries[i]).0
            != encode_utf8("DENO_DIR"@) && entries[i].0 != encode_utf8("DENO_NO_UPDATE_CHECK"@)
            && entries[i].0 != encode_utf8("NO_COLOR"@) by {
            assert(entry_fault(entries, i) is None);
        }
        assert forall|i: int, j: int| 0 <= i < j < entries.len() implies (
        #[trigger] entries[i]).0 != (#[trigger] entries[j]).0 by {
            assert(entry_fault(entries, j) is None);
        }
    }
    if {
        &&& forall|i: int| 0 <= i < entries.len() ==> 1 <= (#[trigger] entries[i]).0.len() <= 160
        &&& forall|i: int, k: int|
            #![trigger entries[i].0[k]]
            0 <= i < entries.len() && 0 <= k < entries[i].0.len() ==> {
                let byte = entries[i].0[k];
                65 <= byte <= 90 || 48 <= byte <= 57 && k > 0 || byte == 95
            }
        &&& forall|i: int| 0 <= i < entries.len() ==> !(#[trigger] entries[i]).1.contains(0u8)
        &&& forall|i: int|
            0 <= i < entries.len() ==> (#[trigger] entries[i]).0 != encode_utf8("DENO_DIR"@)
                && entries[i].0 != encode_utf8("DENO_NO_UPDATE_CHECK"@) && entries[i].0
                != encode_utf8("NO_COLOR"@)
        &&& forall|i: int, j: int|
            0 <= i < j < entries.len() ==> (#[trigger] entries[i]).0 != (#[trigger] entries[j]).0
    } {
        assert forall|i: int| 0 <= i < entries.len() implies #[trigger] entry_fault(entries, i)
            is None by {
            let name = entries[i].0;
            assert forall|k: int| 0 <= k < name.len() implies (0x41 <= #[trigger] name[k] <= 0x5a
                || 0x30 <= name[k] <= 0x39 || name[k] == 0x5f) by {
                let byte = entries[i].0[k];
            }
            let first = entries[i].0[0];
        }
    }
}

proof fn lemma_entries_are_sound(entries: Seq<(Seq<u8>, Seq<u8>)>, from: int)
    requires
        0 <= from,
    ensures
        first_entry_fault(entries, from) is None <==> forall|i: int|
            from <= i < entries.len() ==> #[trigger] entry_fault(entries, i) is None,
        first_entry_fault(entries, from) matches Some((at, fault)) ==> from <= at < entries.len()
            && entry_fault(entries, at) == Some(fault) && forall|i: int|
            from <= i < at ==> #[trigger] entry_fault(entries, i) is None,
    decreases entries.len() - from,
{
    if from < entries.len() {
        lemma_entries_are_sound(entries, from + 1);
        let here = entry_fault(entries, from);
    }
}

/// The entry that is refused is the first one with a fault, and its fault is its
/// own: a malformed name, a zero byte, or a name that is taken.
pub proof fn law_refused_entry_is_the_first(entries: Seq<(Seq<u8>, Seq<u8>)>)
    ensures
        first_entry_fault(entries, 0) matches Some((at, fault)) ==> {
            &&& 0 <= at < entries.len()
            &&& first_entry_fault(entries.take(at), 0) is None
            &&& fault is Nul ==> entries[at].1.contains(0u8)
            &&& fault is Repeated ==> {
                ||| entries[at].0 == encode_utf8("DENO_DIR"@)
                ||| entries[at].0 == encode_utf8("DENO_NO_UPDATE_CHECK"@)
                ||| entries[at].0 == encode_utf8("NO_COLOR"@)
                ||| exists|j: int| 0 <= j < at && (#[trigger] entries[j]).0 == entries[at].0
            }
        },
{
    lemma_entries_are_sound(entries, 0);
    if first_entry_fault(entries, 0) is Some {
        let refused = first_entry_fault(entries, 0)->0;
        let at = refused.0;
        let before = entries.take(at);
        lemma_entries_are_sound(before, 0);
        assert forall|i: int| 0 <= i < before.len() implies #[trigger] entry_fault(before, i)
            is None by {
            assert(entry_fault(entries, i) is None);
            assert(before[i] == entries[i]);
            if exists|j: int| 0 <= j < i && (#[trigger] before[j]).0 == before[i].0 {
                let j = choose|j: int| 0 <= j < i && (#[trigger] before[j]).0 == before[i].0;
                assert(entries[j] == before[j]);
            }
        }
    }
}

/// A host is spawned only from absolute paths, and the field reported is one
/// that is not absolute.
pub proof fn law_spawn_paths_are_absolute(
    deno_executable: Seq<u8>,
    host_entrypoint: Seq<u8>,
    deno_config: Seq<u8>,
    deno_lock: Seq<u8>,
    working_directory: Seq<u8>,
)
    ensures
        ({
            let relative = relative_field(
                deno_executable,
                host_entrypoint,
                deno_config,
                deno_lock,
                working_directory,
            );
            &&& relative is None <==> is_absolute(deno_executable) && is_absolute(host_entrypoint)
                && is_absolute(deno_config) && is_absolute(deno_lock) && is_absolute(
                working_directory,
            )
            &&& relative matches Some(field) ==> {
                ||| field@ == "Deno executable"@ && !is_absolute(deno_executable)
                ||| field@ == "Pi host entrypoint"@ && !is_absolute(host_entrypoint)
                ||| field@ == "Deno config"@ && !is_absolute(deno_config)
                ||| field@ == "Deno lock"@ && !is_absolute(deno_lock)
                ||| field@ == "working directory"@ && !is_absolute(working_directory)
            }
        }),
{
}

/// The host runs frozen and from its cache alone, with its own configuration
/// and lock, and its environment begins with what the kernel sets.
pub proof fn law_host_is_run_as_pinned(spec: PiHostSpawnSpec)
    ensures
        spec.spec_arguments() == seq![
            encode_utf8("run"@),
            encode_utf8("-A"@),
            encode_utf8("--no-prompt"@),
            encode_utf8("--frozen"@),
            encode_utf8("--cached-only"@),
            encode_utf8("--config"@),
            spec.deno_config@,
            encode_utf8("--lock"@),
            spec.deno_lock@,
            spec.host_entrypoint@,
        ],
        kernel_entries() == seq![
            (encode_utf8("DENO_NO_UPDATE_CHECK"@), encode_utf8("1"@)),
            (encode_utf8("NO_COLOR"@), encode_utf8("1"@)),
        ],
{
}

/// Supervision is well formed exactly with two absolute and different capture
/// paths and four positive limits; each refusal has its cause.
pub proof fn law_supervision_is_well_formed_exactly_within_limits(
    stdout_path: Seq<u8>,
    stderr_path: Seq<u8>,
    stdout_byte_limit: u64,
    stderr_byte_limit: u64,
    wall_limit_nanos: u128,
    termination_grace_nanos: u128,
)
    ensures
        ({
            let fault = supervision_fault(
                stdout_path,
                stderr_path,
                stdout_byte_limit,
                stderr_byte_limit,
                wall_limit_nanos,
                termination_grace_nanos,
            );
            &&& fault is None <==> {
                &&& is_absolute(stdout_path) && is_absolute(stderr_path)
                &&& components(stdout_path) != components(stderr_path)
                &&& stdout_byte_limit > 0 && stderr_byte_limit > 0
                &&& wall_limit_nanos > 0
                &&& termination_grace_nanos > 0
            }
            &&& fault is Some && fault->0 is CapturePathsOverlap ==> components(stdout_path)
                == components(stderr_path)
            &&& fault is Some && fault->0 is ZeroStreamLimit ==> stdout_byte_limit == 0
                || stderr_byte_limit == 0
            &&& fault is Some && fault->0 is ZeroWallLimit ==> wall_limit_nanos == 0
            &&& fault is Some && fault->0 is ZeroTerminationGrace ==> termination_grace_nanos == 0
            &&& fault is Some && fault->0 is PathNotAbsolute ==> !is_absolute(stdout_path)
                || !is_absolute(stderr_path)
        }),
{
}

/// A child that was forced ended for that reason; one that was not ended by
/// itself, well exactly when it succeeded.
pub proof fn law_child_ended_as_forced(forced: Option<ProcessStopReason>, success: bool)
    ensures
        forced matches Some(reason) ==> spec_finish_reason(forced, success) == reason,
        forced is None ==> (spec_finish_reason(forced, success) is Exited <==> success),
        forced is None ==> (spec_finish_reason(forced, success) is NonZeroExit <==> !success),
{
}

/// A refused entry is reported by its own fault and, but for a malformed name,
/// by its name; a spawn specification holds each input in its own place.
pub proof fn law_refused_entry_is_reported_by_name(
    entries: Seq<(Seq<u8>, Seq<u8>)>,
    at: int,
    fault: EntryFault,
    error: ProcessCustodyError,
    spec: PiHostSpawnSpec,
    deno_executable: Seq<u8>,
    host_entrypoint: Seq<u8>,
    deno_config: Seq<u8>,
    deno_lock: Seq<u8>,
    working_directory: Seq<u8>,
    actor_source_fd: i32,
)
    ensures
        reports_entry(entries, at, fault, error) ==> match error {
            ProcessCustodyError::InvalidEnvironmentName => fault is Name,
            ProcessCustodyError::EnvironmentValueContainsNul { name } => fault is Nul && name@
                == entries[at].0,
            ProcessCustodyError::DuplicateEnvironmentName { name } => fault is Repeated && name@
                == entries[at].0,
            _ => false,
        },
        spec.holds_inputs(
            deno_executable,
            host_entrypoint,
            deno_config,
            deno_lock,
            working_directory,
            actor_source_fd,
        ) <==> {
            &&& spec.deno_executable@ == deno_executable
            &&& spec.host_entrypoint@ == host_entrypoint
            &&& spec.deno_config@ == deno_config
            &&& spec.deno_lock@ == deno_lock
            &&& spec.working_directory@ == working_directory
            &&& spec.actor_source_fd == actor_source_fd
        },
{
}

} // verus!
