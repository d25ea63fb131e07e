//! Product discovery: a proposed ticket is persisted only behind a failure the
//! kernel reproduced itself, on a clean snapshot, with a command the
//! application admitted.

use vstd::prelude::*;
use vstd::string::StringExecFns;
use vstd::utf8::{decode_utf8, encode_utf8, valid_utf8};

use crate::error::StoreError;
use crate::identity::{
    AggregateRevision, ApplicationRevisionId, ArtifactId, CasArtifact, ExpectedRevision,
};
use crate::json::{json_string, quoted};
use crate::text::{
    decimal, law_decimal_is_read_back, push_decimal_i64, push_text, text_equal, utf8_text,
};
use crate::ticket_commands::SubmitTicketProposal;

verus! {

broadcast use vstd::string::group_string_axioms;

/// The rule by which two discovery observations are compared: by how the
/// command ended, not by what it printed.
pub const PRODUCT_PROPOSAL_COMPARISON_REVISION: &'static str = "status-only-v1";

/// Why a proposal is not persisted.
#[allow(inconsistent_fields)]
#[derive(Clone, Debug, PartialEq, Eq)]
pub enum ProductRuntimeError {
    Store(StoreError),
    /// The admitted application bundle cannot be read, in these words.
    ApplicationBundle { detail: String },
    /// The proposal breaks its contract.
    ProposalContract { detail: &'static str },
    /// An artifact reference disagrees with the registered seal.
    ArtifactIdentityMismatch,
    /// The named reproducer profile is not admitted.
    UnknownReproducerProfile,
    /// The sealed command is not the admitted profile.
    ReproducerProfileMismatch,
    /// Discovery did not fail twice in the same way.
    ReproducerNotStableFailure,
    /// A live proposal already answers the duplicate query.
    DuplicateLiveProposal { artifact_id: ArtifactId },
}

/// A command the kernel may run.
#[derive(Clone, Debug, PartialEq, Eq)]
pub struct CommandProfile {
    pub name: String,
    pub executable: String,
    pub argv: Vec<String>,
    pub working_directory: String,
    pub environment: Vec<(String, String)>,
    pub timeout_millis: u64,
    pub stdout_byte_limit: u64,
    pub stderr_byte_limit: u64,
    pub expected_exit_status: i32,
}

/// What a list of texts holds.
pub open spec fn text_views(texts: Seq<String>) -> Seq<Seq<char>> {
    texts.map_values(|text: String| text@)
}

/// What a list of environment entries holds.
pub open spec fn pair_views(pairs: Seq<(String, String)>) -> Seq<(Seq<char>, Seq<char>)> {
    pairs.map_values(|pair: (String, String)| (pair.0@, pair.1@))
}

/// Whether two profiles are the same command.
pub open spec fn same_profile(left: CommandProfile, right: CommandProfile) -> bool {
    &&& left.name@ == right.name@
    &&& left.executable@ == right.executable@
    &&& text_views(left.argv@) == text_views(right.argv@)
    &&& left.working_directory@ == right.working_directory@
    &&& pair_views(left.environment@) == pair_views(right.environment@)
    &&& left.timeout_millis == right.timeout_millis
    &&& left.stdout_byte_limit == right.stdout_byte_limit
    &&& left.stderr_byte_limit == right.stderr_byte_limit
    &&& left.expected_exit_status == right.expected_exit_status
}

fn texts_equal(left: &Vec<String>, right: &Vec<String>) -> (equal: bool)
    ensures
        equal == (text_views(left@) == text_views(right@)),
{
    if left.len() != right.len() {
        assert(text_views(left@).len() != text_views(right@).len());
        return false;
    }
    let mut index: usize = 0;
    while index < left.len()
        invariant
            index <= left.len(),
            left.len() == right.len(),
            forall|i: int| 0 <= i < index ==> left@[i]@ == right@[i]@,
        decreases left.len() - index,
    {
        if !text_equal(left[index].as_str(), right[index].as_str()) {
            assert(text_views(left@)[index as int] == left@[index as int]@);
            assert(text_views(right@)[index as int] == right@[index as int]@);
            return false;
        }
        index += 1;
    }
    assert(text_views(left@) =~= text_views(right@));
    true
}

fn pairs_equal(left: &Vec<(String, String)>, right: &Vec<(String, String)>) -> (equal: bool)
    ensures
        equal == (pair_views(left@) == pair_views(right@)),
{
    if left.len() != right.len() {
        assert(pair_views(left@).len() != pair_views(right@).len());
        return false;
    }
    let mut index: usize = 0;
    while index < left.len()
        invariant
            index <= left.len(),
            left.len() == right.len(),
            forall|i: int|
                0 <= i < index ==> left@[i].0@ == right@[i].0@ && left@[i].1@ == right@[i].1@,
        decreases left.len() - index,
    {
        let l = &left[index];
        let r = &right[index];
        if !text_equal(l.0.as_str(), r.0.as_str()) || !text_equal(l.1.as_str(), r.1.as_str()) {
            assert(pair_views(left@)[index as int] == (l.0@, l.1@));
            assert(pair_views(right@)[index as int] == (r.0@, r.1@));
            return false;
        }
        index += 1;
    }
    assert(pair_views(left@) =~= pair_views(right@));
    true
}

/// Whether two profiles are the same command.
pub fn profiles_equal(left: &CommandProfile, right: &CommandProfile) -> (equal: bool)
    ensures
        equal == same_profile(*left, *right),
{
    text_equal(left.name.as_str(), right.name.as_str()) && text_equal(
        left.executable.as_str(),
        right.executable.as_str(),
    ) && texts_equal(&left.argv, &right.argv) && text_equal(
        left.working_directory.as_str(),
        right.working_directory.as_str(),
    ) && pairs_equal(&left.environment, &right.environment) && left.timeout_millis
        == right.timeout_millis && left.stdout_byte_limit == right.stdout_byte_limit
        && left.stderr_byte_limit == right.stderr_byte_limit && left.expected_exit_status
        == right.expected_exit_status
}

/// The first profile of a name.
pub open spec fn profile_named(profiles: Seq<CommandProfile>, name: Seq<char>) -> Option<
    CommandProfile,
>
    decreases profiles.len(),
{
    if profiles.len() == 0 {
        None
    } else if profiles[0].name@ == name {
        Some(profiles[0])
    } else {
        profile_named(profiles.skip(1), name)
    }
}

/// Why a sealed command may not reproduce a proposal, if it may not.
pub open spec fn reproducer_fault(
    profiles: Seq<CommandProfile>,
    name: Seq<char>,
    sealed: CommandProfile,
) -> Option<ProductRuntimeError> {
    match profile_named(profiles, name) {
        None => Some(ProductRuntimeError::UnknownReproducerProfile),
        Some(admitted) => if same_profile(admitted, sealed) {
            None
        } else {
            Some(ProductRuntimeError::ReproducerProfileMismatch)
        },
    }
}

/// Admits the sealed command of a proposal: it is the admitted profile of the
/// name the proposal gives. What is run expects the proposal's exit status.
pub fn admit_reproducer(
    profiles: &Vec<CommandProfile>,
    name: &str,
    sealed: CommandProfile,
    expected_exit_status: i32,
) -> (result: Result<CommandProfile, ProductRuntimeError>)
    ensures
        match result {
            Err(fault) => reproducer_fault(profiles@, name@, sealed) == Some(fault),
            Ok(profile) => {
                &&& reproducer_fault(profiles@, name@, sealed) is None
                &&& profile == (CommandProfile { expected_exit_status, ..sealed })
            },
        },
{
    let mut index: usize = 0;
    assert(profiles@.skip(0) =~= profiles@);
    while index < profiles.len()
        invariant
            index <= profiles.len(),
            profile_named(profiles@, name@) == profile_named(profiles@.skip(index as int), name@),
        decreases profiles.len() - index,
    {
        assert(profiles@.skip(index as int).skip(1) =~= profiles@.skip(index as int + 1));
        let admitted = &profiles[index];
        if text_equal(admitted.name.as_str(), name) {
            if !profiles_equal(admitted, &sealed) {
                return Err(ProductRuntimeError::ReproducerProfileMismatch);
            }
            let mut profile = sealed;
            profile.expected_exit_status = expected_exit_status;
            return Ok(profile);
        }
        index += 1;
    }
    Err(ProductRuntimeError::UnknownReproducerProfile)
}

/// A reference a proposal makes to a sealed artifact.
#[derive(Clone, Copy, Debug, PartialEq, Eq)]
pub struct SealedArtifactReference {
    pub artifact_id: ArtifactId,
    pub seal: CasArtifact,
}

/// Refuses a reference that disagrees with the registered seal.
pub fn check_reference(reference: &SealedArtifactReference, registered: &CasArtifact) -> (result:
    Result<(), ProductRuntimeError>)
    ensures
        result == (if reference.seal == *registered {
            Ok::<(), ProductRuntimeError>(())
        } else {
            Err(ProductRuntimeError::ArtifactIdentityMismatch)
        }),
{
    if reference.seal.same(registered) {
        Ok(())
    } else {
        Err(ProductRuntimeError::ArtifactIdentityMismatch)
    }
}

/// What discovery asks git.
#[derive(Clone, Copy, Debug, PartialEq, Eq, Structural)]
pub enum GitProbe {
    /// Which tracked files differ from the commit.
    Status,
    /// The commit the workspace stands at.
    Commit,
    /// The tree of that commit.
    Tree,
}

/// The arguments of a probe. Untracked files do not count: sealed evidence is
/// written into the workspace.
pub open spec fn probe_arguments(probe: GitProbe) -> Seq<Seq<char>> {
    match probe {
        GitProbe::Status => seq!["status"@, "--porcelain=v1"@, "--untracked-files=no"@],
        GitProbe::Commit => seq!["rev-parse"@, "--verify"@, "HEAD^{commit}"@],
        GitProbe::Tree => seq!["rev-parse"@, "--verify"@, "HEAD^{tree}"@],
    }
}

/// A copy of a literal.
fn owned(text: &str) -> (copy: String)
    ensures
        copy@ == text@,
{
    let mut copy = String::new();
    copy.append(text);
    assert(copy@ =~= text@);
    copy
}

/// The command of a probe: git itself, in the workspace, with an empty
/// environment.
pub fn git_probe(probe: GitProbe) -> (profile: CommandProfile)
    ensures
        profile.name@ == "product-discovery-git-"@ + probe_arguments(probe)[0],
        profile.executable@ == "git"@,
        text_views(profile.argv@) == probe_arguments(probe),
        profile.working_directory@ == "."@,
        profile.environment@.len() == 0,
        profile.timeout_millis == 30000,
        profile.stdout_byte_limit == 65536,
        profile.stderr_byte_limit == 65536,
        profile.expected_exit_status == 0,
{
    let (first, second, third) = match probe {
        GitProbe::Status => ("status", "--porcelain=v1", "--untracked-files=no"),
        GitProbe::Commit => ("rev-parse", "--verify", "HEAD^{commit}"),
        GitProbe::Tree => ("rev-parse", "--verify", "HEAD^{tree}"),
    };
    let mut name = owned("product-discovery-git-");
    name.append(first);
    let mut argv: Vec<String> = Vec::new();
    argv.push(owned(first));
    argv.push(owned(second));
    argv.push(owned(third));
    assert(text_views(argv@) =~= probe_arguments(probe));
    CommandProfile {
        name,
        executable: owned("git"),
        argv,
        working_directory: owned("."),
        environment: Vec::new(),
        timeout_millis: 30000,
        stdout_byte_limit: 65536,
        stderr_byte_limit: 65536,
        expected_exit_status: 0,
    }
}

/// A text without the line feed at its end.
pub open spec fn without_line_feed(text: Seq<char>) -> Seq<char> {
    if text.len() > 0 && text.last() == '\n' {
        text.drop_last()
    } else {
        text
    }
}

/// Why the answer of a probe cannot be used, if it cannot.
pub open spec fn probe_fault(matches_expectation: bool, stdout: Seq<u8>) -> Option<
    ProductRuntimeError,
> {
    if !matches_expectation {
        Some(ProductRuntimeError::ProposalContract { detail: "discovery Git probe failed" })
    } else if !valid_utf8(stdout) {
        Some(ProductRuntimeError::ProposalContract { detail: "discovery Git output is not UTF-8" })
    } else {
        None
    }
}

/// Reads the answer of a probe: its output without the final line feed.
pub fn git_probe_output(matches_expectation: bool, stdout: &[u8]) -> (result: Result<
    String,
    ProductRuntimeError,
>)
    ensures
        match result {
            Err(fault) => probe_fault(matches_expectation, stdout@) == Some(fault),
            Ok(output) => {
                &&& probe_fault(matches_expectation, stdout@) is None
                &&& output@ == without_line_feed(decode_utf8(stdout@))
            },
        },
{
    if !matches_expectation {
        return Err(
            ProductRuntimeError::ProposalContract { detail: "discovery Git probe failed" },
        );
    }
    let text = match utf8_text(stdout) {
        Some(text) => text,
        None => return Err(
            ProductRuntimeError::ProposalContract { detail: "discovery Git output is not UTF-8" },
        ),
    };
    proof {
        vstd::utf8::encode_utf8_decode_utf8(text@);
    }
    let length: usize = text.unicode_len();
    if length == 0 || text.get_char(length - 1) != '\n' {
        return Ok(owned(text));
    }
    let mut output = String::new();
    let mut index: usize = 0;
    while index < length - 1
        invariant
            index <= length - 1,
            length == text@.len(),
            output@ == text@.take(index as int),
        decreases length - index,
    {
        let character = text.get_char(index);
        output.push(character);
        assert(output@ =~= text@.take(index as int + 1));
        index += 1;
    }
    assert(output@ =~= text@.drop_last());
    Ok(output)
}

/// A full commit or tree name: 40 or 64 lowercase hexadecimal digits.
pub open spec fn is_git_identity(value: Seq<char>) -> bool {
    let bytes = encode_utf8(value);
    &&& bytes.len() == 40 || bytes.len() == 64
    &&& forall|i: int|
        0 <= i < bytes.len() ==> 0x30 <= #[trigger] bytes[i] <= 0x39 || 0x61 <= bytes[i] <= 0x66
}

/// Whether `value` is a full commit or tree name.
pub fn git_identity_ok(value: &str) -> (ok: bool)
    ensures
        ok == is_git_identity(value@),
{
    let bytes = value.as_bytes();
    if bytes.len() != 40 && bytes.len() != 64 {
        return false;
    }
    let mut index: usize = 0;
    while index < bytes.len()
        invariant
            index <= bytes.len(),
            bytes@ == encode_utf8(value@),
            forall|i: int|
                0 <= i < index ==> 0x30 <= #[trigger] bytes@[i] <= 0x39 || 0x61 <= bytes@[i]
                    <= 0x66,
        decreases bytes.len() - index,
    {
        let byte: u8 = bytes[index];
        if !(0x30 <= byte && byte <= 0x39) && !(0x61 <= byte && byte <= 0x66) {
            assert(bytes@[index as int] == byte);
            return false;
        }
        index += 1;
    }
    true
}

/// Refuses a workspace with tracked changes.
pub fn require_clean_workspace(status: &str) -> (result: Result<(), ProductRuntimeError>)
    ensures
        result == (if status@.len() == 0 {
            Ok::<(), ProductRuntimeError>(())
        } else {
            Err(ProductRuntimeError::ProposalContract { detail: "discovery workspace is not clean" })
        }),
{
    if status.unicode_len() == 0 {
        Ok(())
    } else {
        Err(ProductRuntimeError::ProposalContract { detail: "discovery workspace is not clean" })
    }
}

/// The commit and tree a clean workspace stands at.
#[derive(Clone, Debug, PartialEq, Eq)]
pub struct Snapshot {
    pub commit: String,
    pub tree: String,
}

/// Why a workspace has no clean snapshot, if it has none.
pub open spec fn snapshot_fault(status: Seq<char>, commit: Seq<char>, tree: Seq<char>) -> Option<
    ProductRuntimeError,
> {
    if status.len() != 0 {
        Some(ProductRuntimeError::ProposalContract { detail: "discovery workspace is not clean" })
    } else if !is_git_identity(commit) || !is_git_identity(tree) {
        Some(ProductRuntimeError::ProposalContract { detail: "discovery Git identity is invalid" })
    } else {
        None
    }
}

/// The snapshot of a workspace, from the answers of the three probes. Tracked
/// changes and abbreviated names are refused.
pub fn discover_clean_snapshot(status: &str, commit: String, tree: String) -> (result: Result<
    Snapshot,
    ProductRuntimeError,
>)
    ensures
        match result {
            Err(fault) => snapshot_fault(status@, commit@, tree@) == Some(fault),
            Ok(snapshot) => {
                &&& snapshot_fault(status@, commit@, tree@) is None
                &&& snapshot == (Snapshot { commit, tree })
            },
        },
{
    match require_clean_workspace(status) {
        Err(fault) => return Err(fault),
        Ok(()) => {},
    }
    if !git_identity_ok(commit.as_str()) || !git_identity_ok(tree.as_str()) {
        return Err(
            ProductRuntimeError::ProposalContract { detail: "discovery Git identity is invalid" },
        );
    }
    Ok(Snapshot { commit, tree })
}

/// Whether two snapshots are the same.
pub open spec fn same_snapshot(left: Snapshot, right: Snapshot) -> bool {
    left.commit@ == right.commit@ && left.tree@ == right.tree@
}

/// Why a reproduction does not carry a proposal, if it does not: it is no
/// failure reproduced twice, or it changed the snapshot it ran on.
pub open spec fn discovery_fault(
    reproducible_failure: bool,
    before: Snapshot,
    after: Snapshot,
) -> Option<ProductRuntimeError> {
    if !reproducible_failure {
        Some(ProductRuntimeError::ReproducerNotStableFailure)
    } else if !same_snapshot(before, after) {
        Some(
            ProductRuntimeError::ProposalContract {
                detail: "discovery reproducer changed the clean snapshot",
            },
        )
    } else {
        None
    }
}

/// Refuses a reproduction that did not fail twice in one way.
pub fn require_stable_failure(reproducible_failure: bool) -> (result: Result<
    (),
    ProductRuntimeError,
>)
    ensures
        result == (if reproducible_failure {
            Ok::<(), ProductRuntimeError>(())
        } else {
            Err(ProductRuntimeError::ReproducerNotStableFailure)
        }),
{
    if reproducible_failure {
        Ok(())
    } else {
        Err(ProductRuntimeError::ReproducerNotStableFailure)
    }
}

/// Judges a reproduction by its classification and by the snapshots before and
/// behind it.
pub fn check_discovery(reproducible_failure: bool, before: &Snapshot, after: &Snapshot) -> (result:
    Result<(), ProductRuntimeError>)
    ensures
        result == (match discovery_fault(reproducible_failure, *before, *after) {
            Some(fault) => Err::<(), ProductRuntimeError>(fault),
            None => Ok(()),
        }),
{
    match require_stable_failure(reproducible_failure) {
        Err(fault) => return Err(fault),
        Ok(()) => {},
    }
    if !text_equal(before.commit.as_str(), after.commit.as_str()) || !text_equal(
        before.tree.as_str(),
        after.tree.as_str(),
    ) {
        return Err(
            ProductRuntimeError::ProposalContract {
                detail: "discovery reproducer changed the clean snapshot",
            },
        );
    }
    Ok(())
}

/// The observations a ticket keeps of a discovery. The second one stays sealed
/// for diagnosis; by the admitted comparison rule the first stands for both.
pub fn persisted_discovery_observations(first: ArtifactId, _second_raw_diagnostic: ArtifactId) -> (kept:
    (ArtifactId, ArtifactId))
    ensures
        kept == (first, first),
{
    (first, first)
}

/// How a command ended.
#[derive(Clone, Copy, Debug, PartialEq, Eq, Structural)]
pub enum CommandTerminal {
    Exited { exit_code: i32 },
    Signaled { signal: i32 },
    TimedOut,
    StdoutLimit,
    StderrLimit,
}

/// The name of a terminal.
pub open spec fn terminal_name(terminal: CommandTerminal) -> &'static str {
    match terminal {
        CommandTerminal::Exited { .. } => "exited",
        CommandTerminal::Signaled { .. } => "signaled",
        CommandTerminal::TimedOut => "timed_out",
        CommandTerminal::StdoutLimit => "stdout_limit",
        CommandTerminal::StderrLimit => "stderr_limit",
    }
}

/// A status as JSON spells it.
pub open spec fn status_text(status: Option<i32>) -> Seq<char> {
    match status {
        Some(status) => decimal(status as int),
        None => "null"@,
    }
}

/// The exit status of a terminal.
pub open spec fn terminal_exit_status(terminal: CommandTerminal) -> Option<i32> {
    match terminal {
        CommandTerminal::Exited { exit_code } => Some(exit_code),
        _ => None,
    }
}

/// The signal of a terminal.
pub open spec fn terminal_signal(terminal: CommandTerminal) -> Option<i32> {
    match terminal {
        CommandTerminal::Signaled { signal } => Some(signal),
        _ => None,
    }
}

/// The identity of an observation under the admitted comparison rule.
pub open spec fn manifest_text(terminal: CommandTerminal) -> Seq<char> {
    "{\"comparison_revision\":"@ + quoted(PRODUCT_PROPOSAL_COMPARISON_REVISION@)
        + ",\"terminal\":"@ + quoted(terminal_name(terminal)@) + ",\"exit_status\":"@
        + status_text(terminal_exit_status(terminal)) + ",\"signal\":"@ + status_text(
        terminal_signal(terminal),
    ) + "}"@
}

fn push_status(text: &mut String, status: Option<i32>)
    ensures
        final(text)@ == old(text)@ + status_text(status),
{
    match status {
        Some(status) => push_decimal_i64(text, status as i64),
        None => text.append("null"),
    }
}

/// The bytes an observation is identified by. What the command printed is
/// sealed beside them and never part of them.
pub fn product_observation_manifest_bytes(terminal: &CommandTerminal) -> (bytes: Vec<u8>)
    ensures
        bytes@ == encode_utf8(manifest_text(*terminal)),
{
    let (name, exit_status, signal) = match terminal {
        CommandTerminal::Exited { exit_code } => ("exited", Some(*exit_code), None),
        CommandTerminal::Signaled { signal } => ("signaled", None, Some(*signal)),
        CommandTerminal::TimedOut => ("timed_out", None, None),
        CommandTerminal::StdoutLimit => ("stdout_limit", None, None),
        CommandTerminal::StderrLimit => ("stderr_limit", None, None),
    };
    proof {
        reveal_strlit("status-only-v1");
        reveal_strlit("exited");
        reveal_strlit("signaled");
        reveal_strlit("timed_out");
        reveal_strlit("stdout_limit");
        reveal_strlit("stderr_limit");
    }
    let mut text = String::new();
    text.append("{\"comparison_revision\":");
    text.append(json_string(PRODUCT_PROPOSAL_COMPARISON_REVISION).as_str());
    text.append(",\"terminal\":");
    text.append(json_string(name).as_str());
    text.append(",\"exit_status\":");
    push_status(&mut text, exit_status);
    text.append(",\"signal\":");
    push_status(&mut text, signal);
    text.append("}");
    assert(text@ =~= manifest_text(*terminal));
    let mut bytes: Vec<u8> = Vec::new();
    push_text(&mut bytes, text.as_str());
    assert(bytes@ =~= encode_utf8(text@));
    bytes
}

/// What stands behind the name in a manifest.
spec fn manifest_rest(terminal: CommandTerminal) -> Seq<char> {
    seq!['"'] + (",\"exit_status\":"@ + (status_text(terminal_exit_status(terminal)) + (
    ",\"signal\":"@ + (status_text(terminal_signal(terminal)) + "}"@))))
}

/// What stands before the name in a manifest.
spec fn manifest_head() -> Seq<char> {
    "{\"comparison_revision\":"@ + quoted(PRODUCT_PROPOSAL_COMPARISON_REVISION@)
        + ",\"terminal\":"@ + seq!['"']
}

/// Two texts with one beginning have one end.
proof fn lemma_strip_head(head: Seq<char>, left: Seq<char>, right: Seq<char>)
    requires
        head + left == head + right,
    ensures
        left == right,
{
    assert(left =~= (head + left).skip(head.len() as int));
    assert(right =~= (head + right).skip(head.len() as int));
}

proof fn lemma_manifest_parts(terminal: CommandTerminal)
    ensures
        manifest_text(terminal) == manifest_head() + (terminal_name(terminal)@ + manifest_rest(
            terminal,
        )),
{
    assert(manifest_text(terminal) =~= manifest_head() + (terminal_name(terminal)@
        + manifest_rest(terminal)));
}

/// A terminal is named by the first four characters of its name.
#[verifier::spinoff_prover]
proof fn lemma_names_differ(
    left: CommandTerminal,
    left_rest: Seq<char>,
    right: CommandTerminal,
    right_rest: Seq<char>,
)
    requires
        terminal_name(left)@ + left_rest == terminal_name(right)@ + right_rest,
    ensures
        terminal_name(left) == terminal_name(right),
        left is Exited <==> right is Exited,
        left is Signaled <==> right is Signaled,
        left is TimedOut <==> right is TimedOut,
        left is StdoutLimit <==> right is StdoutLimit,
        left is StderrLimit <==> right is StderrLimit,
{
    reveal_strlit("exited");
    reveal_strlit("signaled");
    reveal_strlit("timed_out");
    reveal_strlit("stdout_limit");
    reveal_strlit("stderr_limit");
    let l = terminal_name(left)@ + left_rest;
    let r = terminal_name(right)@ + right_rest;
    assert(l[0] == terminal_name(left)@[0]);
    assert(r[0] == terminal_name(right)@[0]);
    assert(l[1] == terminal_name(left)@[1]);
    assert(r[1] == terminal_name(right)@[1]);
    assert(l[2] == terminal_name(left)@[2]);
    assert(r[2] == terminal_name(right)@[2]);
    assert(l[3] == terminal_name(left)@[3]);
    assert(r[3] == terminal_name(right)@[3]);
}

proof fn lemma_exit_status_read_back(a: i32, b: i32)
    requires
        manifest_rest(CommandTerminal::Exited { exit_code: a }) == manifest_rest(
            CommandTerminal::Exited { exit_code: b },
        ),
    ensures
        a == b,
{
    reveal_strlit(",\"signal\":");
    let tail = ",\"signal\":"@ + ("null"@ + "}"@);
    let x = decimal(a as int) + tail;
    let y = decimal(b as int) + tail;
    lemma_strip_head(seq!['"'], ",\"exit_status\":"@ + x, ",\"exit_status\":"@ + y);
    lemma_strip_head(",\"exit_status\":"@, x, y);
    assert(tail[0] == ',');
    law_decimal_is_read_back(a as int, tail, b as int, tail);
}

proof fn lemma_signal_read_back(a: i32, b: i32)
    requires
        manifest_rest(CommandTerminal::Signaled { signal: a }) == manifest_rest(
            CommandTerminal::Signaled { signal: b },
        ),
    ensures
        a == b,
{
    reveal_strlit("}");
    let x = decimal(a as int) + "}"@;
    let y = decimal(b as int) + "}"@;
    let xs = ",\"signal\":"@ + x;
    let ys = ",\"signal\":"@ + y;
    lemma_strip_head(
        seq!['"'],
        ",\"exit_status\":"@ + ("null"@ + xs),
        ",\"exit_status\":"@ + ("null"@ + ys),
    );
    lemma_strip_head(",\"exit_status\":"@, "null"@ + xs, "null"@ + ys);
    lemma_strip_head("null"@, xs, ys);
    lemma_strip_head(",\"signal\":"@, x, y);
    law_decimal_is_read_back(a as int, "}"@, b as int, "}"@);
}

/// Two observations have one identity exactly when the commands ended in one
/// way; no output byte takes part.
pub proof fn law_manifest_identifies_terminal(left: CommandTerminal, right: CommandTerminal)
    ensures
        encode_utf8(manifest_text(left)) == encode_utf8(manifest_text(right)) <==> left == right,
{
    if encode_utf8(manifest_text(left)) == encode_utf8(manifest_text(right)) {
        vstd::utf8::encode_utf8_decode_utf8(manifest_text(left));
        vstd::utf8::encode_utf8_decode_utf8(manifest_text(right));
        lemma_manifest_parts(left);
        lemma_manifest_parts(right);
        let l = terminal_name(left)@ + manifest_rest(left);
        let r = terminal_name(right)@ + manifest_rest(right);
        lemma_strip_head(manifest_head(), l, r);
        lemma_names_differ(left, manifest_rest(left), right, manifest_rest(right));
        lemma_strip_head(terminal_name(left)@, manifest_rest(left), manifest_rest(right));
        match (left, right) {
            (
                CommandTerminal::Exited { exit_code: a },
                CommandTerminal::Exited { exit_code: b },
            ) => {
                lemma_exit_status_read_back(a, b);
            },
            (
                CommandTerminal::Signaled { signal: a },
                CommandTerminal::Signaled { signal: b },
            ) => {
                lemma_signal_read_back(a, b);
            },
            _ => {},
        }
    }
}

/// Whether the standard library counts a character as alphabetic or numeric.
pub uninterp spec fn is_alphanumeric(character: char) -> bool;

/// The standard library's `char::is_alphanumeric`. Its answer depends on the
/// character alone and is the value [`is_alphanumeric`] names.
#[verifier::external_body]
fn character_is_alphanumeric(character: char) -> (result: bool)
    ensures
        result == is_alphanumeric(character),
{
    character.is_alphanumeric()
}

/// The lowercase form of a text.
pub uninterp spec fn lowercase_of(text: Seq<char>) -> Seq<char>;

/// The standard library's `str::to_lowercase`. Its result depends on the text
/// alone and is the value [`lowercase_of`] names.
#[verifier::external_body]
fn lowercase(text: &str) -> (lower: String)
    ensures
        lower@ == lowercase_of(text@),
{
    text.to_lowercase()
}

/// The text of bytes that need not be UTF-8.
pub uninterp spec fn lossy_text_of(bytes: Seq<u8>) -> Seq<char>;

/// The standard library's `String::from_utf8_lossy`, as an owned text. Its
/// result depends on the bytes alone and is the value [`lossy_text_of`] names;
/// valid UTF-8 is kept as it is.
#[verifier::external_body]
fn lossy_text(bytes: &[u8]) -> (text: String)
    ensures
        text@ == lossy_text_of(bytes@),
        valid_utf8(bytes@) ==> text@ == decode_utf8(bytes@),
{
    String::from_utf8_lossy(bytes).into_owned()
}

/// The runs of kept characters, and the empty runs between dropped ones.
pub open spec fn runs(characters: Seq<char>, kept: Seq<bool>) -> Seq<Seq<char>>
    decreases characters.len(),
{
    if characters.len() == 0 {
        seq![Seq::empty()]
    } else {
        let before = runs(characters.drop_last(), kept);
        if kept[characters.len() - 1] {
            before.drop_last().push(before.last().push(characters.last()))
        } else {
            before.push(Seq::empty())
        }
    }
}

proof fn lemma_runs_nonempty(characters: Seq<char>, kept: Seq<bool>)
    ensures
        runs(characters, kept).len() > 0,
    decreases characters.len(),
{
    if characters.len() > 0 {
        lemma_runs_nonempty(characters.drop_last(), kept);
    }
}

/// Splits a text at every character that is not kept.
pub fn split_runs(text: &str, kept: &Vec<bool>) -> (fields: Vec<String>)
    requires
        kept@.len() == text@.len(),
    ensures
        text_views(fields@) == runs(text@, kept@),
{
    let length: usize = text.unicode_len();
    let mut fields: Vec<String> = Vec::new();
    let mut field = String::new();
    let mut index: usize = 0;
    proof {
        let none = runs(text@.take(0), kept@);
        assert(text@.take(0) =~= Seq::empty());
        assert(none =~= seq![Seq::<char>::empty()]);
        assert(text_views(fields@) =~= none.drop_last());
        assert(field@ =~= none.last());
    }
    while index < length
        invariant
            index <= length,
            length == text@.len(),
            kept@.len() == length,
            runs(text@.take(index as int), kept@).len() > 0,
            text_views(fields@) == runs(text@.take(index as int), kept@).drop_last(),
            field@ == runs(text@.take(index as int), kept@).last(),
        decreases length - index,
    {
        let ghost before = runs(text@.take(index as int), kept@);
        let ghost after = runs(text@.take(index as int + 1), kept@);
        let character = text.get_char(index);
        proof {
            let longer = text@.take(index as int + 1);
            assert(longer.drop_last() =~= text@.take(index as int));
            assert(longer.last() == character);
            lemma_runs_nonempty(longer, kept@);
        }
        if kept[index] {
            field.push(character);
            assert(after.drop_last() =~= before.drop_last());
        } else {
            fields.push(field);
            field = String::new();
            proof {
                assert(text_views(fields@) =~= before.drop_last().push(before.last()));
                assert(before =~= before.drop_last().push(before.last()));
                assert(after.drop_last() =~= before);
                assert(field@ =~= Seq::empty());
            }
        }
        index += 1;
    }
    assert(text@.take(index as int) =~= text@);
    fields.push(field);
    proof {
        let all = runs(text@, kept@);
        assert(text_views(fields@) =~= all.drop_last().push(all.last()));
        assert(all =~= all.drop_last().push(all.last()));
    }
    fields
}

/// The lowered fields of three bytes or more, before lowering.
pub open spec fn long_fields(fields: Seq<Seq<char>>, lowered: Seq<Seq<char>>) -> Seq<Seq<char>>
    decreases fields.len(),
{
    if fields.len() == 0 {
        Seq::empty()
    } else {
        let before = long_fields(fields.drop_last(), lowered);
        if encode_utf8(fields.last()).len() >= 3 {
            before.push(lowered[fields.len() - 1])
        } else {
            before
        }
    }
}

/// Keeps the lowered fields that had three bytes or more.
pub fn keep_long_fields(fields: &Vec<String>, lowered: Vec<String>) -> (terms: Vec<String>)
    requires
        lowered@.len() == fields@.len(),
    ensures
        text_views(terms@) == long_fields(text_views(fields@), text_views(lowered@)),
{
    let mut terms: Vec<String> = Vec::new();
    let mut index: usize = 0;
    let ghost all = text_views(fields@);
    let ghost low = text_views(lowered@);
    assert(text_views(terms@) =~= long_fields(all.take(0), low));
    while index < fields.len()
        invariant
            index <= fields.len(),
            lowered@.len() == fields@.len(),
            all == text_views(fields@),
            low == text_views(lowered@),
            text_views(terms@) == long_fields(all.take(index as int), low),
        decreases fields.len() - index,
    {
        proof {
            let longer = all.take(index as int + 1);
            assert(longer.drop_last() =~= all.take(index as int));
            assert(longer.last() == fields@[index as int]@);
            assert(low[index as int] == lowered@[index as int]@);
        }
        if fields[index].as_str().as_bytes().len() >= 3 {
            let ghost shorter = text_views(terms@);
            terms.push(lowered[index].clone());
            assert(text_views(terms@) =~= shorter.push(low[index as int]));
        }
        index += 1;
    }
    assert(all.take(index as int) =~= all);
    terms
}

/// Which characters of a query belong to a term.
pub open spec fn query_characters(query: Seq<char>) -> Seq<bool> {
    query.map_values(|character: char| is_alphanumeric(character))
}

/// The terms of a duplicate query: its alphanumeric runs of three bytes or
/// more, in lower case.
pub open spec fn query_terms(query: Seq<char>) -> Seq<Seq<char>> {
    let fields = runs(query, query_characters(query));
    long_fields(fields, fields.map_values(|field: Seq<char>| lowercase_of(field)))
}

/// The terms of a duplicate query.
pub fn duplicate_query_terms(query: &str) -> (terms: Vec<String>)
    ensures
        text_views(terms@) == query_terms(query@),
{
    let length: usize = query.unicode_len();
    let mut kept: Vec<bool> = Vec::new();
    let mut index: usize = 0;
    while index < length
        invariant
            index <= length,
            length == query@.len(),
            kept@ == query_characters(query@.take(index as int)),
        decreases length - index,
    {
        kept.push(character_is_alphanumeric(query.get_char(index)));
        assert(kept@ =~= query_characters(query@.take(index as int + 1)));
        index += 1;
    }
    assert(query@.take(index as int) =~= query@);
    let fields = split_runs(query, &kept);
    let ghost views = text_views(fields@);
    let ghost expected = views.map_values(|field: Seq<char>| lowercase_of(field));
    let mut lowered: Vec<String> = Vec::new();
    let mut at: usize = 0;
    while at < fields.len()
        invariant
            at <= fields.len(),
            views == text_views(fields@),
            expected == views.map_values(|field: Seq<char>| lowercase_of(field)),
            text_views(lowered@) == expected.take(at as int),
        decreases fields.len() - at,
    {
        let ghost before = text_views(lowered@);
        lowered.push(lowercase(fields[at].as_str()));
        proof {
            assert(views[at as int] == fields@[at as int]@);
            assert(text_views(lowered@) =~= before.push(expected[at as int]));
            assert(before.push(expected[at as int]) =~= expected.take(at as int + 1));
        }
        at += 1;
    }
    assert(expected.take(at as int) =~= expected);
    keep_long_fields(&fields, lowered)
}

/// Whether `bytes` holds `part` at some place.
pub open spec fn holds_bytes(bytes: Seq<u8>, part: Seq<u8>) -> bool {
    exists|at: int|
        0 <= at <= bytes.len() - part.len() && #[trigger] bytes.subrange(at, at + part.len())
            == part
}

/// Whether `bytes` holds `part` at some place.
pub fn contains_bytes(bytes: &[u8], part: &[u8]) -> (found: bool)
    ensures
        found == holds_bytes(bytes@, part@),
{
    if part.len() > bytes.len() {
        return false;
    }
    let last: usize = bytes.len() - part.len();
    let mut at: usize = 0;
    while at <= last
        invariant
            at <= last + 1,
            last == bytes@.len() - part@.len(),
            bytes@.len() <= usize::MAX,
            forall|i: int|
                0 <= i < at ==> #[trigger] bytes@.subrange(i, i + part@.len()) != part@,
        decreases last + 1 - at,
    {
        let mut index: usize = 0;
        while index < part.len() && bytes[at + index] == part[index]
            invariant
                index <= part.len(),
                at <= last,
                last == bytes@.len() - part@.len(),
                bytes@.len() <= usize::MAX,
                forall|i: int| 0 <= i < index ==> bytes@[at + i] == part@[i],
            decreases part.len() - index,
        {
            index += 1;
        }
        if index == part.len() {
            assert(bytes@.subrange(at as int, at + part@.len()) =~= part@);
            return true;
        }
        proof {
            let window = bytes@.subrange(at as int, at + part@.len());
            assert(window[index as int] == bytes@[at + index]);
            assert(window != part@);
        }
        if at == last {
            return false;
        }
        at += 1;
    }
    false
}

/// Whether a text holds every term.
pub open spec fn holds_terms(text: Seq<char>, terms: Seq<Seq<char>>) -> bool {
    forall|i: int|
        0 <= i < terms.len() ==> holds_bytes(encode_utf8(text), encode_utf8(#[trigger] terms[i]))
}

/// Whether a text holds every term.
pub fn contains_terms(text: &str, terms: &Vec<String>) -> (all: bool)
    ensures
        all == holds_terms(text@, text_views(terms@)),
{
    let mut index: usize = 0;
    while index < terms.len()
        invariant
            index <= terms.len(),
            forall|i: int|
                0 <= i < index ==> holds_bytes(
                    encode_utf8(text@),
                    encode_utf8(#[trigger] text_views(terms@)[i]),
                ),
        decreases terms.len() - index,
    {
        assert(text_views(terms@)[index as int] == terms@[index as int]@);
        if !contains_bytes(text.as_bytes(), terms[index].as_str().as_bytes()) {
            return false;
        }
        index += 1;
    }
    true
}

/// Whether two lowered texts both answer a query.
pub fn texts_are_duplicates(live: &str, current: &str, terms: &Vec<String>) -> (duplicate: bool)
    ensures
        duplicate == (holds_terms(live@, text_views(terms@)) && holds_terms(
            current@,
            text_views(terms@),
        )),
{
    contains_terms(live, terms) && contains_terms(current, terms)
}

/// A live proposal and its bytes.
pub struct LiveProposal {
    pub artifact_id: ArtifactId,
    pub bytes: Vec<u8>,
}

/// Whether a live proposal answers a query that the proposal at hand answers
/// too.
pub open spec fn is_duplicate(terms: Seq<Seq<char>>, live: Seq<u8>, current: Seq<u8>) -> bool {
    &&& holds_terms(lowercase_of(lossy_text_of(live)), terms)
    &&& holds_terms(lowercase_of(lossy_text_of(current)), terms)
}

/// The first duplicate among live proposals.
pub open spec fn first_duplicate(
    terms: Seq<Seq<char>>,
    live: Seq<LiveProposal>,
    current: Seq<u8>,
) -> Option<ArtifactId>
    decreases live.len(),
{
    if live.len() == 0 {
        None
    } else if is_duplicate(terms, live[0].bytes@, current) {
        Some(live[0].artifact_id)
    } else {
        first_duplicate(terms, live.skip(1), current)
    }
}

/// The live proposals a query looks at: the first `limit` of them.
pub open spec fn searched(live: Seq<LiveProposal>, limit: u8) -> Seq<LiveProposal> {
    if live.len() <= limit {
        live
    } else {
        live.take(limit as int)
    }
}

/// Why a duplicate query stops a proposal, if it does.
pub open spec fn duplicate_fault(
    terms: Seq<Seq<char>>,
    limit: u8,
    current: Seq<u8>,
    live: Seq<LiveProposal>,
) -> Option<ProductRuntimeError> {
    if terms.len() == 0 {
        Some(
            ProductRuntimeError::ProposalContract {
                detail: "duplicate search query has no searchable term",
            },
        )
    } else {
        match first_duplicate(terms, searched(live, limit), current) {
            Some(artifact_id) => Some(ProductRuntimeError::DuplicateLiveProposal { artifact_id }),
            None => None,
        }
    }
}

/// Decides a duplicate query over its terms.
pub fn judge_duplicates(
    terms: &Vec<String>,
    limit: u8,
    current_proposal: &[u8],
    live: &Vec<LiveProposal>,
) -> (result: Result<(), ProductRuntimeError>)
    ensures
        result == (match duplicate_fault(
            text_views(terms@),
            limit,
            current_proposal@,
            live@,
        ) {
            Some(fault) => Err::<(), ProductRuntimeError>(fault),
            None => Ok(()),
        }),
{
    if terms.len() == 0 {
        return Err(
            ProductRuntimeError::ProposalContract {
                detail: "duplicate search query has no searchable term",
            },
        );
    }
    let current = lowercase(lossy_text(current_proposal).as_str());
    let bound: usize = if live.len() <= limit as usize {
        live.len()
    } else {
        limit as usize
    };
    let ghost views = text_views(terms@);
    let ghost all = searched(live@, limit);
    let mut index: usize = 0;
    assert(all.skip(0) =~= all);
    while index < bound
        invariant
            index <= bound <= live.len(),
            all == searched(live@, limit),
            all.len() == bound,
            views == text_views(terms@),
            current@ == lowercase_of(lossy_text_of(current_proposal@)),
            first_duplicate(views, all, current_proposal@) == first_duplicate(
                views,
                all.skip(index as int),
                current_proposal@,
            ),
            terms@.len() > 0,
        decreases bound - index,
    {
        let candidate = &live[index];
        proof {
            assert(all.skip(index as int)[0] == live@[index as int]);
            assert(all.skip(index as int).skip(1) =~= all.skip(index as int + 1));
        }
        let text = lowercase(lossy_text(candidate.bytes.as_slice()).as_str());
        if texts_are_duplicates(text.as_str(), current.as_str(), terms) {
            return Err(
                ProductRuntimeError::DuplicateLiveProposal { artifact_id: candidate.artifact_id },
            );
        }
        index += 1;
    }
    Ok(())
}

/// Runs the duplicate query of a proposal over the live proposals: a proposal
/// is refused where one of the first `limit` live ones answers its query as it
/// does itself.
pub fn execute_duplicate_query(
    query: &str,
    limit: u8,
    current_proposal: &[u8],
    live: &Vec<LiveProposal>,
) -> (result: Result<(), ProductRuntimeError>)
    ensures
        result == (match duplicate_fault(
            query_terms(query@),
            limit,
            current_proposal@,
            live@,
        ) {
            Some(fault) => Err::<(), ProductRuntimeError>(fault),
            None => Ok(()),
        }),
{
    let terms = duplicate_query_terms(query);
    judge_duplicates(&terms, limit, current_proposal, live)
}

/// A proposal is never persisted twice under its own query: where the query
/// finds a term and the proposal itself is live within the limit, it is
/// refused as long as it answers its own query.
pub proof fn law_own_copy_is_a_duplicate(
    terms: Seq<Seq<char>>,
    limit: u8,
    current: Seq<u8>,
    live: Seq<LiveProposal>,
    at: int,
)
    requires
        terms.len() > 0,
        0 <= at < live.len(),
        at < limit,
        live[at].bytes@ == current,
        holds_terms(lowercase_of(lossy_text_of(current)), terms),
    ensures
        duplicate_fault(terms, limit, current, live) is Some,
{
    let all = searched(live, limit);
    assert(all[at] == live[at]);
    lemma_duplicate_found(terms, all, current, at);
}

proof fn lemma_duplicate_found(
    terms: Seq<Seq<char>>,
    live: Seq<LiveProposal>,
    current: Seq<u8>,
    at: int,
)
    requires
        0 <= at < live.len(),
        is_duplicate(terms, live[at].bytes@, current),
    ensures
        first_duplicate(terms, live, current) is Some,
    decreases at,
{
    if at > 0 {
        assert(live.skip(1)[at - 1] == live[at]);
        lemma_duplicate_found(terms, live.skip(1), current, at - 1);
    }
}

/// The command ID of a part of a proposal.
pub fn proposal_command_id(client_command_id: &str, part: &str) -> (text: String)
    ensures
        text@ == client_command_id@ + "-"@ + part@,
{
    let mut text = String::new();
    text.append(client_command_id);
    text.append("-");
    text.append(part);
    assert(text@ =~= client_command_id@ + "-"@ + part@);
    text
}

/// The artifacts sealed for a proposal.
#[derive(Clone, Copy, Debug, PartialEq, Eq)]
pub struct ProposalArtifacts {
    pub proposal: ArtifactId,
    pub reproducer: ArtifactId,
    pub expected_observation: ArtifactId,
    pub first_observation: ArtifactId,
    pub second_observation: ArtifactId,
}

/// The command that persists a proposal, at the application revision it was
/// admitted under and on the snapshot it was discovered on.
pub fn execute_product_proposal(
    principal: &String,
    client_command_id: &String,
    aggregate_revision: AggregateRevision,
    application_revision_id: ApplicationRevisionId,
    artifacts: &ProposalArtifacts,
    discovery: Snapshot,
) -> (command: SubmitTicketProposal)
    ensures
        command == (SubmitTicketProposal {
            principal: *principal,
            command_id: *client_command_id,
            expected_application_revision: ExpectedRevision { revision: aggregate_revision },
            application_revision_id,
            proposal_artifact_id: artifacts.proposal,
            reproducer_artifact_id: artifacts.reproducer,
            expected_observation_artifact_id: artifacts.expected_observation,
            first_actual_observation_artifact_id: artifacts.first_observation,
            second_actual_observation_artifact_id: artifacts.first_observation,
            discovery_commit: discovery.commit,
            discovery_tree: discovery.tree,
        }),
{
    let (first, second) = persisted_discovery_observations(
        artifacts.first_observation,
        artifacts.second_observation,
    );
    SubmitTicketProposal {
        principal: principal.clone(),
        command_id: client_command_id.clone(),
        expected_application_revision: ExpectedRevision::new(aggregate_revision),
        application_revision_id,
        proposal_artifact_id: artifacts.proposal,
        reproducer_artifact_id: artifacts.reproducer,
        expected_observation_artifact_id: artifacts.expected_observation,
        first_actual_observation_artifact_id: first,
        second_actual_observation_artifact_id: second,
        discovery_commit: discovery.commit,
        discovery_tree: discovery.tree,
    }
}

/// The steps of a proposal, in the order they are taken.
#[derive(Clone, Copy, Debug, PartialEq, Eq, Structural)]
pub enum ProposalPhase {
    /// What the application revision admits is read.
    ReadContext,
    /// The exact admitted application bundle is read.
    ReadBundle,
    /// The proposal is read within the application's bounds.
    ReadProposal,
    /// Every referenced artifact is held to its registered seal.
    VerifyArtifacts,
    /// The sealed command is held to the admitted profile.
    AdmitReproducer,
    /// The command's input is read from its seal.
    ReadInput,
    /// The clean snapshot to run on is taken.
    TakeSnapshot,
    /// The command is run twice and must fail in one way.
    Reproduce,
    /// The snapshot behind the runs must be the one before them.
    CompareSnapshot,
    /// What the runs showed is sealed.
    SealObservations,
    /// The live proposals are searched for a duplicate.
    QueryDuplicates,
    /// Proposal, reproducer and expected observation are sealed.
    SealProposal,
    /// The ticket store is asked to persist the proposal.
    Persist,
}

/// What a proposal does next.
#[derive(Clone, Debug, PartialEq, Eq)]
pub enum ProposalAction<E> {
    Perform(ProposalPhase),
    /// The proposal is persisted.
    Persisted,
    Refuse(E),
}

/// Position of a step in a proposal.
pub open spec fn proposal_rank(phase: ProposalPhase) -> int {
    match phase {
        ProposalPhase::ReadContext => 0,
        ProposalPhase::ReadBundle => 1,
        ProposalPhase::ReadProposal => 2,
        ProposalPhase::VerifyArtifacts => 3,
        ProposalPhase::AdmitReproducer => 4,
        ProposalPhase::ReadInput => 5,
        ProposalPhase::TakeSnapshot => 6,
        ProposalPhase::Reproduce => 7,
        ProposalPhase::CompareSnapshot => 8,
        ProposalPhase::SealObservations => 9,
        ProposalPhase::QueryDuplicates => 10,
        ProposalPhase::SealProposal => 11,
        ProposalPhase::Persist => 12,
    }
}

/// The step behind a step, if there is one.
pub open spec fn proposal_phase_after(phase: ProposalPhase) -> Option<ProposalPhase> {
    match phase {
        ProposalPhase::ReadContext => Some(ProposalPhase::ReadBundle),
        ProposalPhase::ReadBundle => Some(ProposalPhase::ReadProposal),
        ProposalPhase::ReadProposal => Some(ProposalPhase::VerifyArtifacts),
        ProposalPhase::VerifyArtifacts => Some(ProposalPhase::AdmitReproducer),
        ProposalPhase::AdmitReproducer => Some(ProposalPhase::ReadInput),
        ProposalPhase::ReadInput => Some(ProposalPhase::TakeSnapshot),
        ProposalPhase::TakeSnapshot => Some(ProposalPhase::Reproduce),
        ProposalPhase::Reproduce => Some(ProposalPhase::CompareSnapshot),
        ProposalPhase::CompareSnapshot => Some(ProposalPhase::SealObservations),
        ProposalPhase::SealObservations => Some(ProposalPhase::QueryDuplicates),
        ProposalPhase::QueryDuplicates => Some(ProposalPhase::SealProposal),
        ProposalPhase::SealProposal => Some(ProposalPhase::Persist),
        ProposalPhase::Persist => None,
    }
}

/// What follows a step of a proposal: the next step where it succeeded, and
/// its refusal where it did not.
pub open spec fn spec_next_proposal_phase<E>(
    phase: ProposalPhase,
    outcome: Result<(), E>,
) -> ProposalAction<E> {
    match outcome {
        Err(fault) => ProposalAction::Refuse(fault),
        Ok(()) => match proposal_phase_after(phase) {
            Some(next) => ProposalAction::Perform(next),
            None => ProposalAction::Persisted,
        },
    }
}

/// Takes the outcome of one step of a proposal and says what follows. `E` is
/// what the steps are refused with.
pub fn next_proposal_phase<E>(phase: ProposalPhase, outcome: Result<(), E>) -> (action:
    ProposalAction<E>)
    ensures
        action == spec_next_proposal_phase(phase, outcome),
{
    match outcome {
        Err(fault) => return ProposalAction::Refuse(fault),
        Ok(()) => {},
    }
    match phase {
        ProposalPhase::ReadContext => ProposalAction::Perform(ProposalPhase::ReadBundle),
        ProposalPhase::ReadBundle => ProposalAction::Perform(ProposalPhase::ReadProposal),
        ProposalPhase::ReadProposal => ProposalAction::Perform(ProposalPhase::VerifyArtifacts),
        ProposalPhase::VerifyArtifacts => ProposalAction::Perform(ProposalPhase::AdmitReproducer),
        ProposalPhase::AdmitReproducer => ProposalAction::Perform(ProposalPhase::ReadInput),
        ProposalPhase::ReadInput => ProposalAction::Perform(ProposalPhase::TakeSnapshot),
        ProposalPhase::TakeSnapshot => ProposalAction::Perform(ProposalPhase::Reproduce),
        ProposalPhase::Reproduce => ProposalAction::Perform(ProposalPhase::CompareSnapshot),
        ProposalPhase::CompareSnapshot => ProposalAction::Perform(ProposalPhase::SealObservations),
        ProposalPhase::SealObservations => ProposalAction::Perform(ProposalPhase::QueryDuplicates),
        ProposalPhase::QueryDuplicates => ProposalAction::Perform(ProposalPhase::SealProposal),
        ProposalPhase::SealProposal => ProposalAction::Perform(ProposalPhase::Persist),
        ProposalPhase::Persist => ProposalAction::Persisted,
    }
}

/// The step a proposal stands at once its earlier steps had these outcomes;
/// none where the proposal is over.
pub open spec fn proposal_after<E>(outcomes: Seq<Result<(), E>>) -> Option<ProposalPhase>
    decreases outcomes.len(),
{
    if outcomes.len() == 0 {
        Some(ProposalPhase::ReadContext)
    } else {
        match proposal_after(outcomes.drop_last()) {
            None => None,
            Some(phase) => match spec_next_proposal_phase(phase, outcomes.last()) {
                ProposalAction::Perform(next) => Some(next),
                _ => None,
            },
        }
    }
}

/// A step of a proposal is reached only through the success of every step
/// before it. So the ticket store is asked to persist a proposal only once the
/// bundle and every artifact were verified, the command failed twice on one
/// clean snapshot, the observations were sealed and the duplicate query found
/// nothing.
pub proof fn law_persistence_passes_every_gate<E>(
    outcomes: Seq<Result<(), E>>,
    phase: ProposalPhase,
)
    requires
        proposal_after(outcomes) == Some(phase),
    ensures
        outcomes.len() == proposal_rank(phase),
        forall|i: int| 0 <= i < outcomes.len() ==> #[trigger] outcomes[i] is Ok,
        phase == ProposalPhase::Persist ==> {
            &&& outcomes[proposal_rank(ProposalPhase::ReadBundle)] is Ok
            &&& outcomes[proposal_rank(ProposalPhase::VerifyArtifacts)] is Ok
            &&& outcomes[proposal_rank(ProposalPhase::AdmitReproducer)] is Ok
            &&& outcomes[proposal_rank(ProposalPhase::TakeSnapshot)] is Ok
            &&& outcomes[proposal_rank(ProposalPhase::Reproduce)] is Ok
            &&& outcomes[proposal_rank(ProposalPhase::CompareSnapshot)] is Ok
            &&& outcomes[proposal_rank(ProposalPhase::SealObservations)] is Ok
            &&& outcomes[proposal_rank(ProposalPhase::QueryDuplicates)] is Ok
        },
    decreases outcomes.len(),
{
    if outcomes.len() > 0 {
        let earlier = outcomes.drop_last();
        law_persistence_passes_every_gate(earlier, proposal_after(earlier)->Some_0);
        assert forall|i: int| 0 <= i < outcomes.len() implies #[trigger] outcomes[i] is Ok by {
            if i < earlier.len() {
                assert(earlier[i] is Ok);
            }
        }
    }
}

/// A sealed command is admitted exactly when the first profile of the name
/// agrees with it in every field.
pub proof fn law_reproducer_is_an_admitted_profile(
    profiles: Seq<CommandProfile>,
    name: Seq<char>,
    sealed: CommandProfile,
)
    ensures
        reproducer_fault(profiles, name, sealed) is None <==> exists|at: int|
            #![trigger profiles[at]]
            {
                &&& 0 <= at < profiles.len()
                &&& profiles[at].name@ == name
                &&& forall|i: int| 0 <= i < at ==> (#[trigger] profiles[i]).name@ != name
                &&& profiles[at].name@ == sealed.name@
                &&& profiles[at].executable@ == sealed.executable@
                &&& text_views(profiles[at].argv@) == text_views(sealed.argv@)
                &&& profiles[at].working_directory@ == sealed.working_directory@
                &&& pair_views(profiles[at].environment@) == pair_views(sealed.environment@)
                &&& profiles[at].timeout_millis == sealed.timeout_millis
                &&& profiles[at].stdout_byte_limit == sealed.stdout_byte_limit
                &&& profiles[at].stderr_byte_limit == sealed.stderr_byte_limit
                &&& profiles[at].expected_exit_status == sealed.expected_exit_status
            },
        reproducer_fault(profiles, name, sealed) == Some(
            ProductRuntimeError::UnknownReproducerProfile,
        ) <==> forall|i: int| 0 <= i < profiles.len() ==> (#[trigger] profiles[i]).name@ != name,
{
    lemma_profile_is_the_first(profiles, name);
    if reproducer_fault(profiles, name, sealed) is None {
        let at = choose|at: int|
            #![trigger profiles[at]]
            0 <= at < profiles.len() && profiles[at].name@ == name && profile_named(profiles, name)
                == Some(profiles[at]) && forall|i: int|
                0 <= i < at ==> (#[trigger] profiles[i]).name@ != name;
        assert(same_profile(profiles[at], sealed));
    }
}

proof fn lemma_profile_is_the_first(profiles: Seq<CommandProfile>, name: Seq<char>)
    ensures
        profile_named(profiles, name) is None <==> forall|i: int|
            0 <= i < profiles.len() ==> (#[trigger] profiles[i]).name@ != name,
        profile_named(profiles, name) is Some ==> exists|at: int|
            #![trigger profiles[at]]
            0 <= at < profiles.len() && profiles[at].name@ == name && profile_named(profiles, name)
                == Some(profiles[at]) && forall|i: int|
                0 <= i < at ==> (#[trigger] profiles[i]).name@ != name,
        forall|at: int|
            #![trigger profiles[at]]
            0 <= at < profiles.len() && profiles[at].name@ == name && (forall|i: int|
                0 <= i < at ==> (#[trigger] profiles[i]).name@ != name) ==> profile_named(
                profiles,
                name,
            ) == Some(profiles[at]),
    decreases profiles.len(),
{
    if profiles.len() > 0 {
        let first = profiles[0];
        let rest = profiles.skip(1);
        if first.name@ != name {
            lemma_profile_is_the_first(rest, name);
            if profile_named(rest, name) is Some {
                let at = choose|at: int|
                    #![trigger rest[at]]
                    0 <= at < rest.len() && rest[at].name@ == name && profile_named(rest, name)
                        == Some(rest[at]) && forall|i: int|
                        0 <= i < at ==> (#[trigger] rest[i]).name@ != name;
                assert(profiles[at + 1] == rest[at]);
                assert forall|i: int| 0 <= i < at + 1 implies (#[trigger] profiles[i]).name@
                    != name by {
                    if i > 0 {
                        assert(rest[i - 1] == profiles[i]);
                    }
                }
            } else {
                assert forall|i: int| 0 <= i < profiles.len() implies (
                #[trigger] profiles[i]).name@ != name by {
                    if i > 0 {
                        assert(rest[i - 1].name@ != name);
                    }
                }
            }
            assert forall|at: int|
                #![trigger profiles[at]]
                0 <= at < profiles.len() && profiles[at].name@ == name && (forall|i: int|
                    0 <= i < at ==> (#[trigger] profiles[i]).name@ != name) implies profile_named(
                profiles,
                name,
            ) == Some(profiles[at]) by {
                assert(rest[at - 1] == profiles[at]);
                assert forall|i: int| 0 <= i < at - 1 implies (#[trigger] rest[i]).name@
                    != name by {
                    assert(profiles[i + 1] == rest[i]);
                }
            }
        } else {
            assert forall|at: int|
                #![trigger profiles[at]]
                0 <= at < profiles.len() && profiles[at].name@ == name && (forall|i: int|
                    0 <= i < at ==> (#[trigger] profiles[i]).name@ != name) implies profile_named(
                profiles,
                name,
            ) == Some(profiles[at]) by {
                if at > 0 {
                    assert(profiles[0].name@ != name);
                }
            }
        }
    }
}

/// A snapshot is taken exactly of a workspace without changes at identities of
/// forty or sixty-four lower-case hexadecimal digits, and discovery holds
/// exactly when the failure repeats and leaves the snapshot as it was.
pub proof fn law_discovery_is_clean_and_stable(
    status: Seq<char>,
    commit: Seq<char>,
    tree: Seq<char>,
    reproducible_failure: bool,
    before: Snapshot,
    after: Snapshot,
)
    ensures
        snapshot_fault(status, commit, tree) is None <==> {
            let commit_bytes = encode_utf8(commit);
            let tree_bytes = encode_utf8(tree);
            &&& status.len() == 0
            &&& commit_bytes.len() == 40 || commit_bytes.len() == 64
            &&& tree_bytes.len() == 40 || tree_bytes.len() == 64
            &&& forall|i: int|
                0 <= i < commit_bytes.len() ==> (48 <= #[trigger] commit_bytes[i] <= 57 || 97
                    <= commit_bytes[i] <= 102)
            &&& forall|i: int|
                0 <= i < tree_bytes.len() ==> (48 <= #[trigger] tree_bytes[i] <= 57 || 97
                    <= tree_bytes[i] <= 102)
        },
        discovery_fault(reproducible_failure, before, after) is None <==> reproducible_failure
            && before.commit@ == after.commit@ && before.tree@ == after.tree@,
        discovery_fault(reproducible_failure, before, after) == Some(
            ProductRuntimeError::ReproducerNotStableFailure,
        ) <==> !reproducible_failure,
{
}

/// A probe's answer is its output without one trailing line feed.
pub proof fn law_probe_output_loses_one_line_feed(text: Seq<char>)
    ensures
        without_line_feed(text.push('\n')) == text,
        text.len() == 0 || text.last() != '\n' ==> without_line_feed(text) == text,
{
    assert(text.push('\n').drop_last() =~= text);
}

/// The probes ask for tracked changes alone, and for the commit and the tree of
/// the current head.
pub proof fn law_probes_ask_for_the_head()
    ensures
        probe_arguments(GitProbe::Status) == seq![
            "status"@,
            "--porcelain=v1"@,
            "--untracked-files=no"@,
        ],
        probe_arguments(GitProbe::Commit) == seq!["rev-parse"@, "--verify"@, "HEAD^{commit}"@],
        probe_arguments(GitProbe::Tree) == seq!["rev-parse"@, "--verify"@, "HEAD^{tree}"@],
{
}

/// A manifest tells how the command ended, with a status only where it exited
/// and a signal only where one ended it.
pub proof fn law_manifest_tells_the_end(exit_code: i32, signal: i32)
    ensures
        manifest_text(CommandTerminal::Exited { exit_code }) == "{\"comparison_revision\":"@
            + quoted("status-only-v1"@) + ",\"terminal\":"@ + quoted("exited"@)
            + ",\"exit_status\":"@ + decimal(exit_code as int) + ",\"signal\":"@ + "null"@ + "}"@,
        manifest_text(CommandTerminal::Signaled { signal }) == "{\"comparison_revision\":"@
            + quoted("status-only-v1"@) + ",\"terminal\":"@ + quoted("signaled"@)
            + ",\"exit_status\":"@ + "null"@ + ",\"signal\":"@ + decimal(signal as int) + "}"@,
        manifest_text(CommandTerminal::TimedOut) == "{\"comparison_revision\":"@ + quoted(
            "status-only-v1"@,
        ) + ",\"terminal\":"@ + quoted("timed_out"@) + ",\"exit_status\":"@ + "null"@
            + ",\"signal\":"@ + "null"@ + "}"@,
        manifest_text(CommandTerminal::StdoutLimit) == "{\"comparison_revision\":"@ + quoted(
            "status-only-v1"@,
        ) + ",\"terminal\":"@ + quoted("stdout_limit"@) + ",\"exit_status\":"@ + "null"@
            + ",\"signal\":"@ + "null"@ + "}"@,
        manifest_text(CommandTerminal::StderrLimit) == "{\"comparison_revision\":"@ + quoted(
            "status-only-v1"@,
        ) + ",\"terminal\":"@ + quoted("stderr_limit"@) + ",\"exit_status\":"@ + "null"@
            + ",\"signal\":"@ + "null"@ + "}"@,
{
}

/// A text splits at every dropped character and nowhere else: without one it is
/// a single run, and the runs of two parts around one are the runs of each.
pub proof fn law_runs_split_at_dropped_characters(
    before: Seq<char>,
    kept_before: Seq<bool>,
    dropped: char,
    after: Seq<char>,
    kept_after: Seq<bool>,
)
    requires
        kept_before.len() == before.len(),
        kept_after.len() == after.len(),
    ensures
        (forall|i: int| 0 <= i < kept_before.len() ==> #[trigger] kept_before[i]) ==> runs(
            before,
            kept_before,
        ) == seq![before],
        runs(before + seq![dropped] + after, kept_before + seq![false] + kept_after) == runs(
            before,
            kept_before,
        ) + runs(after, kept_after),
{
    lemma_kept_text_is_one_run(before, kept_before);
    lemma_runs_join(before, kept_before, dropped, after, kept_after);
}

proof fn lemma_kept_text_is_one_run(text: Seq<char>, kept: Seq<bool>)
    requires
        kept.len() >= text.len(),
    ensures
        (forall|i: int| 0 <= i < text.len() ==> #[trigger] kept[i]) ==> runs(text, kept) == seq![
            text,
        ],
    decreases text.len(),
{
    if text.len() == 0 {
        assert(text =~= Seq::empty());
    } else {
        lemma_kept_text_is_one_run(text.drop_last(), kept);
        if forall|i: int| 0 <= i < text.len() ==> #[trigger] kept[i] {
            assert(kept[text.len() - 1]);
            assert(text.drop_last().push(text.last()) =~= text);
            assert(runs(text, kept) =~= seq![text]);
        }
    }
}

proof fn lemma_runs_see_their_prefix(text: Seq<char>, left: Seq<bool>, right: Seq<bool>)
    requires
        text.len() <= left.len(),
        text.len() <= right.len(),
        forall|i: int| 0 <= i < text.len() ==> left[i] == right[i],
    ensures
        runs(text, left) == runs(text, right),
    decreases text.len(),
{
    if text.len() > 0 {
        lemma_runs_see_their_prefix(text.drop_last(), left, right);
    }
}

proof fn lemma_runs_exist(text: Seq<char>, kept: Seq<bool>)
    ensures
        runs(text, kept).len() > 0,
    decreases text.len(),
{
    if text.len() > 0 {
        lemma_runs_exist(text.drop_last(), kept);
    }
}

proof fn lemma_runs_join(
    before: Seq<char>,
    kept_before: Seq<bool>,
    dropped: char,
    after: Seq<char>,
    kept_after: Seq<bool>,
)
    requires
        kept_before.len() == before.len(),
        kept_after.len() >= after.len(),
    ensures
        runs(before + seq![dropped] + after, kept_before + seq![false] + kept_after) == runs(
            before,
            kept_before,
        ) + runs(after, kept_after),
    decreases after.len(),
{
    let text = before + seq![dropped] + after;
    let kept = kept_before + seq![false] + kept_after;
    let head = runs(before, kept_before);
    if after.len() == 0 {
        assert(text.drop_last() =~= before);
        lemma_runs_see_their_prefix(before, kept, kept_before);
        assert(!kept[text.len() - 1]);
        assert(runs(text, kept) =~= head + runs(after, kept_after));
    } else {
        let rest = after.drop_last();
        lemma_runs_join(before, kept_before, dropped, rest, kept_after);
        lemma_runs_exist(rest, kept_after);
        let tail = runs(rest, kept_after);
        assert(text.drop_last() =~= before + seq![dropped] + rest);
        assert(text.last() == after.last());
        assert(kept[text.len() - 1] == kept_after[after.len() - 1]);
        let joined = head + tail;
        assert(joined.last() == tail.last());
        assert(joined.drop_last() =~= head + tail.drop_last());
        assert(runs(text, kept) =~= head + runs(after, kept_after));
    }
}

/// Of two lists of fields the long ones are kept in order: those of the first
/// before those of the second, each in its lowered spelling, and none that is
/// shorter than three bytes.
pub proof fn law_long_fields_are_kept_in_order(
    before: Seq<Seq<char>>,
    lowered_before: Seq<Seq<char>>,
    field: Seq<char>,
    lowered: Seq<char>,
)
    requires
        lowered_before.len() == before.len(),
    ensures
        long_fields(Seq::empty(), Seq::empty()).len() == 0,
        encode_utf8(field).len() >= 3 ==> long_fields(
            before.push(field),
            lowered_before.push(lowered),
        ) == long_fields(before, lowered_before).push(lowered),
        encode_utf8(field).len() < 3 ==> long_fields(
            before.push(field),
            lowered_before.push(lowered),
        ) == long_fields(before, lowered_before),
{
    assert(before.push(field).drop_last() =~= before);
    lemma_long_fields_see_their_prefix(before, lowered_before.push(lowered), lowered_before);
}

proof fn lemma_long_fields_see_their_prefix(
    fields: Seq<Seq<char>>,
    left: Seq<Seq<char>>,
    right: Seq<Seq<char>>,
)
    requires
        fields.len() <= left.len(),
        fields.len() <= right.len(),
        forall|i: int| 0 <= i < fields.len() ==> left[i] == right[i],
    ensures
        long_fields(fields, left) == long_fields(fields, right),
    decreases fields.len(),
{
    if fields.len() > 0 {
        lemma_long_fields_see_their_prefix(fields.drop_last(), left, right);
    }
}

/// Bytes hold a part exactly when they are something, the part, and something.
pub proof fn law_bytes_hold_what_stands_in_them(
    bytes: Seq<u8>,
    before: Seq<u8>,
    part: Seq<u8>,
    after: Seq<u8>,
)
    ensures
        holds_bytes(before + part + after, part),
        holds_bytes(bytes, part) ==> exists|head: Seq<u8>, tail: Seq<u8>|
            bytes == #[trigger] (head + part + tail),
{
    let whole = before + part + after;
    assert(whole.subrange(before.len() as int, (before.len() + part.len()) as int) =~= part);
    if holds_bytes(bytes, part) {
        let at = choose|at: int|
            0 <= at <= bytes.len() - part.len() && #[trigger] bytes.subrange(at, at + part.len())
                == part;
        let head = bytes.subrange(0, at);
        let tail = bytes.subrange(at + part.len(), bytes.len() as int);
        assert(bytes =~= head + bytes.subrange(at, at + part.len()) + tail);
        assert(bytes == head + part + tail);
    }
}

/// The duplicate query names the first of the searched live proposals in which,
/// as in the current one, every term stands; it passes exactly when there are
/// terms and none of the first `limit` is such a one.
pub proof fn law_duplicate_is_the_first_that_answers(
    terms: Seq<Seq<char>>,
    limit: u8,
    current: Seq<u8>,
    live: Seq<LiveProposal>,
)
    ensures
        ({
            let fault = duplicate_fault(terms, limit, current, live);
            &&& fault is Some && fault->0 is ProposalContract <==> terms.len() == 0
            &&& fault is None <==> terms.len() > 0 && forall|i: int|
                0 <= i < live.len() && i < limit ==> !answers(
                    terms,
                    (#[trigger] live[i]).bytes@,
                    current,
                )
            &&& fault matches Some(ProductRuntimeError::DuplicateLiveProposal { artifact_id })
                ==> exists|at: int|
                #![trigger live[at]]
                {
                    &&& 0 <= at < live.len() && at < limit
                    &&& live[at].artifact_id == artifact_id
                    &&& answers(terms, live[at].bytes@, current)
                    &&& forall|i: int|
                        0 <= i < at ==> !answers(terms, (#[trigger] live[i]).bytes@, current)
                }
        }),
{
    let list = searched(live, limit);
    lemma_first_duplicate(terms, list, current);
    assert forall|i: int| 0 <= i < list.len() implies #[trigger] list[i] == live[i] by {}
    assert forall|i: int| #![trigger live[i]]
        0 <= i < live.len() && i < limit implies i < list.len() && list[i] == live[i] by {}
    if first_duplicate(terms, list, current) is Some {
        let at = choose|at: int|
            #![trigger list[at]]
            0 <= at < list.len() && first_duplicate(terms, list, current) == Some(
                list[at].artifact_id,
            ) && answers(terms, list[at].bytes@, current) && forall|i: int|
                0 <= i < at ==> !answers(terms, (#[trigger] list[i]).bytes@, current);
        assert(list[at] == live[at]);
        assert forall|i: int| 0 <= i < at implies !answers(
            terms,
            (#[trigger] live[i]).bytes@,
            current,
        ) by {
            assert(list[i] == live[i]);
        }
    }
}

/// Whether every term stands, in lower case, in both of two texts.
pub open spec fn answers(terms: Seq<Seq<char>>, live: Seq<u8>, current: Seq<u8>) -> bool {
    forall|i: int|
        0 <= i < terms.len() ==> holds_bytes(
            encode_utf8(lowercase_of(lossy_text_of(live))),
            encode_utf8(#[trigger] terms[i]),
        ) && holds_bytes(
            encode_utf8(lowercase_of(lossy_text_of(current))),
            encode_utf8(terms[i]),
        )
}

proof fn lemma_first_duplicate(
    terms: Seq<Seq<char>>,
    live: Seq<LiveProposal>,
    current: Seq<u8>,
)
    ensures
        first_duplicate(terms, live, current) is None <==> forall|i: int|
            0 <= i < live.len() ==> !answers(terms, (#[trigger] live[i]).bytes@, current),
        first_duplicate(terms, live, current) is Some ==> exists|at: int|
            #![trigger live[at]]
            0 <= at < live.len() && first_duplicate(terms, live, current) == Some(
                live[at].artifact_id,
            ) && answers(terms, live[at].bytes@, current) && forall|i: int|
                0 <= i < at ==> !answers(terms, (#[trigger] live[i]).bytes@, current),
    decreases live.len(),
{
    if live.len() > 0 {
        let first = live[0];
        assert(is_duplicate(terms, first.bytes@, current) == answers(terms, first.bytes@, current));
        if !is_duplicate(terms, first.bytes@, current) {
            let rest = live.skip(1);
            lemma_first_duplicate(terms, rest, current);
            assert forall|i: int| 1 <= i < live.len() implies #[trigger] live[i] == rest[i
                - 1] by {}
            if first_duplicate(terms, rest, current) is Some {
                let at = choose|at: int|
                    #![trigger rest[at]]
                    0 <= at < rest.len() && first_duplicate(terms, rest, current) == Some(
                        rest[at].artifact_id,
                    ) && answers(terms, rest[at].bytes@, current) && forall|i: int|
                        0 <= i < at ==> !answers(terms, (#[trigger] rest[i]).bytes@, current);
                assert(live[at + 1] == rest[at]);
            }
        }
    }
}

/// A proposal goes through its phases in order and is persisted behind the last;
/// a failed phase refuses it with its own fault.
pub proof fn law_proposal_goes_phase_by_phase<E>(phase: ProposalPhase, outcome: Result<(), E>)
    ensures
        ({
            let action = spec_next_proposal_phase(phase, outcome);
            &&& outcome matches Err(fault) ==> action == ProposalAction::Refuse(fault)
            &&& outcome is Ok ==> action == (match phase {
                ProposalPhase::ReadContext => ProposalAction::<E>::Perform(
                    ProposalPhase::ReadBundle,
                ),
                ProposalPhase::ReadBundle => ProposalAction::Perform(ProposalPhase::ReadProposal),
                ProposalPhase::ReadProposal => ProposalAction::Perform(
                    ProposalPhase::VerifyArtifacts,
                ),
                ProposalPhase::VerifyArtifacts => ProposalAction::Perform(
                    ProposalPhase::AdmitReproducer,
                ),
                ProposalPhase::AdmitReproducer => ProposalAction::Perform(ProposalPhase::ReadInput),
                ProposalPhase::ReadInput => ProposalAction::Perform(ProposalPhase::TakeSnapshot),
                ProposalPhase::TakeSnapshot => ProposalAction::Perform(ProposalPhase::Reproduce),
                ProposalPhase::Reproduce => ProposalAction::Perform(ProposalPhase::CompareSnapshot),
                ProposalPhase::CompareSnapshot => ProposalAction::Perform(
                    ProposalPhase::SealObservations,
                ),
                ProposalPhase::SealObservations => ProposalAction::Perform(
                    ProposalPhase::QueryDuplicates,
                ),
                ProposalPhase::QueryDuplicates => ProposalAction::Perform(
                    ProposalPhase::SealProposal,
                ),
                ProposalPhase::SealProposal => ProposalAction::Perform(ProposalPhase::Persist),
                ProposalPhase::Persist => ProposalAction::Persisted,
            })
        }),
{
}

/// A probe's output is taken exactly when the probe did as expected and the
/// output is text.
pub proof fn law_probe_is_taken_exactly_when_it_held(matches_expectation: bool, stdout: Seq<u8>)
    ensures
        probe_fault(matches_expectation, stdout) is None <==> matches_expectation && valid_utf8(
            stdout,
        ),
{
}

/// A query without a letter or digit has no term, and one of letters and digits
/// alone is a single term in lower case, if it has three bytes.
pub proof fn law_query_terms_are_words(query: Seq<char>)
    ensures
        (forall|i: int| 0 <= i < query.len() ==> is_alphanumeric(#[trigger] query[i]))
            && encode_utf8(query).len() >= 3 ==> query_terms(query) == seq![lowercase_of(query)],
        (forall|i: int| 0 <= i < query.len() ==> is_alphanumeric(#[trigger] query[i]))
            && encode_utf8(query).len() < 3 ==> query_terms(query).len() == 0,
{
    let kept = query_characters(query);
    lemma_kept_text_is_one_run(query, kept);
    if forall|i: int| 0 <= i < query.len() ==> is_alphanumeric(#[trigger] query[i]) {
        assert forall|i: int| 0 <= i < query.len() implies #[trigger] kept[i] by {
            assert(is_alphanumeric(query[i]));
        }
        let fields = runs(query, kept);
        assert(fields == seq![query]);
        let lowered = fields.map_values(|field: Seq<char>| lowercase_of(field));
        assert(fields.drop_last() =~= Seq::empty());
        assert(long_fields(fields.drop_last(), lowered) =~= Seq::empty());
        assert(lowered[0] == lowercase_of(query));
        if encode_utf8(query).len() >= 3 {
            assert(long_fields(fields, lowered) =~= seq![lowercase_of(query)]);
        }
    }
}

/// The terms of two queries around a character that is no letter or digit are
/// the terms of the one and then those of the other.
pub proof fn law_query_terms_join(before: Seq<char>, between: char, after: Seq<char>)
    requires
        !is_alphanumeric(between),
    ensures
        query_terms(before + seq![between] + after) == query_terms(before) + query_terms(after),
{
    let query = before + seq![between] + after;
    assert(query_characters(query) =~= query_characters(before) + seq![false] + query_characters(
        after,
    ));
    lemma_runs_join(before, query_characters(before), between, after, query_characters(after));
    let left = runs(before, query_characters(before));
    let right = runs(after, query_characters(after));
    let lower = |field: Seq<char>| lowercase_of(field);
    assert((left + right).map_values(lower) =~= left.map_values(lower) + right.map_values(lower));
    lemma_long_fields_join(left, left.map_values(lower), right, right.map_values(lower));
}

proof fn lemma_long_fields_join(
    left: Seq<Seq<char>>,
    lowered_left: Seq<Seq<char>>,
    right: Seq<Seq<char>>,
    lowered_right: Seq<Seq<char>>,
)
    requires
        lowered_left.len() == left.len(),
        lowered_right.len() >= right.len(),
    ensures
        long_fields(left + right, lowered_left + lowered_right) == long_fields(left, lowered_left)
            + long_fields(right, lowered_right),
    decreases right.len(),
{
    let lowered = lowered_left + lowered_right;
    if right.len() == 0 {
        assert(left + right =~= left);
        lemma_long_fields_see_their_prefix(left, lowered, lowered_left);
        assert(long_fields(left, lowered_left) + Seq::<Seq<char>>::empty() =~= long_fields(
            left,
            lowered_left,
        ));
    } else {
        let rest = right.drop_last();
        lemma_long_fields_join(left, lowered_left, rest, lowered_right);
        assert((left + right).drop_last() =~= left + rest);
        assert((left + right).last() == right.last());
        assert(lowered[left.len() + right.len() - 1] == lowered_right[right.len() - 1]);
        assert(long_fields(left + right, lowered) =~= long_fields(left, lowered_left)
            + long_fields(right, lowered_right));
    }
}

} // verus!
