//! One paid session from launch to durable end.
//!
//! A launch verifies everything it can before a child exists, spawns the child
//! behind its startup gate, commits the process facts, and only then releases
//! the child with one admission line. Whatever stops the session first, the
//! child is cancelled and directly waited, its files are sealed, and one
//! terminal report is committed: the actor's own if it holds, else the
//! kernel's.

use vstd::prelude::*;
use vstd::string::StringExecFns;
use vstd::utf8::encode_utf8;

use crate::base64::{ascii_text, base64_encode, base64_of, decode_base64, decoded};
use crate::campaign::ReconciledSessionCancellation;
use crate::digest::{blake3_of, hex_of, ContentDigest};
use crate::encoding::{
    be64, be_i32, lemma_be64_head, lemma_be_i32_head, lemma_concat_assoc, lemma_concat_split,
    push_i32, push_u64,
};
use crate::error::StoreError;
use crate::identity::{
    AggregateRevision, ArtifactId, AssignmentId, CasArtifact, ExpectedRevision, SessionId,
};
use crate::json::{
    json_string, lemma_base64_is_plain, lemma_decimal_is_plain, lemma_hex_is_plain, quoted,
};
use crate::packet::{parse_terminal_operation, spec_operation_of, AssignmentPacket, ReadExactFile};
use crate::path::{components, entry_of, is_entry_of, paths_equal, relative_components, strip_prefix};
use crate::process_custody::{
    process_stop_code, spec_process_stop_code, PiHostSpawnSpec, ProcessStopReason,
    ProcessSupervisionSpec, SupervisedProcessOutcome,
};
use crate::protocol::{MicroUsd, StopReason, TerminalReport, UsageTotals};
use crate::session::{SessionReceipt, StartSession};
use crate::session_rpc::{
    parse_stop_reason, spec_parse_stop_reason, RegisteredSessionArtifact, TerminalRequest,
};
use crate::terminal::{read_views, reads_equal, TerminalArtifactSeals, TerminalReceipt};
use crate::text::{decimal, push_decimal_i64, push_decimal_u64, push_text};

verus! {

pub const SESSION_STDOUT_RELATIVE_PATH: &'static str = "stdout.log";

pub const SESSION_STDERR_RELATIVE_PATH: &'static str = "stderr.log";

pub const SESSION_PARTIAL_TRANSCRIPT_RELATIVE_PATH: &'static str = "session.ndjson";

/// Principal of the reports the kernel makes itself.
pub const KERNEL_PRINCIPAL: &'static str = "kernel";

/// Why the installed runtime refuses a launch.
#[derive(Clone, Debug, PartialEq, Eq)]
pub enum RuntimeVerificationError {
    PacketBytesEmpty,
    /// The packet breaks its contract, in these words.
    PacketContract(String),
    /// The packet's own seal does not match its fields.
    PacketSealMismatch,
    /// The installed runtime is not the packet's, in these words.
    RuntimeIdentity(String),
}

impl RuntimeVerificationError {
    pub open spec fn spec_message(&self) -> Seq<char> {
        match self {
            RuntimeVerificationError::PacketBytesEmpty => "canonical packet bytes are empty"@,
            RuntimeVerificationError::PacketContract(detail) => "packet contract is invalid: "@
                + detail@,
            RuntimeVerificationError::PacketSealMismatch => {
                "packet typed seal does not match its immutable fields"@
            },
            RuntimeVerificationError::RuntimeIdentity(detail) => {
                "installed runtime identity mismatch: "@ + detail@
            },
        }
    }

    /// The refusal in words.
    pub fn message(&self) -> (text: String)
        ensures
            text@ == self.spec_message(),
    {
        let mut text = String::new();
        match self {
            RuntimeVerificationError::PacketBytesEmpty => {
                text.append("canonical packet bytes are empty");
            },
            RuntimeVerificationError::PacketContract(detail) => {
                text.append("packet contract is invalid: ");
                text.append(detail.as_str());
            },
            RuntimeVerificationError::PacketSealMismatch => {
                text.append("packet typed seal does not match its immutable fields");
            },
            RuntimeVerificationError::RuntimeIdentity(detail) => {
                text.append("installed runtime identity mismatch: ");
                text.append(detail.as_str());
            },
        }
        assert(text@ =~= self.spec_message());
        text
    }
}

/// Why a session could not be run. `F` is what the caller's transport, custody
/// and file access fail with.
#[allow(inconsistent_fields)]
#[derive(Clone, Debug, PartialEq, Eq)]
pub enum SessionRuntimeError<F> {
    Store(StoreError),
    Custody(F),
    Transport(F),
    /// The packet is not the one the launch was requested for.
    PacketIdentityMismatch,
    PacketBytesEmpty,
    PacketBytesTooLarge { actual: usize, maximum: usize },
    WorkspaceRootEmpty,
    /// A capture is not the named file of the staging directory.
    CapturePathOutsideStaging { stream: &'static str },
    Verification(RuntimeVerificationError),
    Read(F),
    /// The required-read assertion changed between sealing and registration.
    AssertionChanged,
    /// The admission line does not fit one frame.
    AdmissionOversized { actual: usize, maximum: usize },
    /// The child was never released although its start is durable.
    AdmissionFailed { source: F },
    StartAndCleanupFailed { start: StoreError, cleanup: F },
    StartFailed(StoreError),
    AdmissionCleanupFailed(F),
    ProcessResultChannelClosed,
    TransportResultChannelClosed,
    ReadAuthorityStillInUse,
    ReadAuthorityPoisoned,
    RpcStatePoisoned,
    CancellationRegistryPoisoned,
    CancellationRegistryConflict { session_id: SessionId },
    ActiveSessionCancellationMissing { session_id: SessionId },
    CancellationReconciliationClosed { session_id: SessionId },
    /// A terminal request names an unknown operation or stop reason, or carries
    /// no canonical payload.
    InvalidTerminalContract,
    /// A file to be sealed does not lie below the staging directory.
    ArtifactPathOutsideStaging { path: Vec<u8> },
    TerminalEvidenceIo { path: Vec<u8>, source: F },
}

/// What a launch is asked to run. Paths are bytes.
pub struct SessionLaunchRequest {
    pub principal: String,
    pub command_id: String,
    pub expected_assignment_revision: ExpectedRevision,
    pub assignment_id: AssignmentId,
    pub packet_digest: ContentDigest,
    pub packet: AssignmentPacket,
    /// The exact bytes assignment admission produced.
    pub canonical_packet_bytes: Vec<u8>,
    /// Physical seal of those bytes.
    pub packet_artifact: CasArtifact,
    pub spawn: PiHostSpawnSpec,
    pub supervision: ProcessSupervisionSpec,
    pub workspace_root: Vec<u8>,
    pub expected_read_manifest_artifact_id: ArtifactId,
    pub required_reads: Vec<ReadExactFile>,
}

impl SessionLaunchRequest {
    /// Whether the request is about the packet it carries.
    pub open spec fn names_its_packet(&self) -> bool {
        &&& self.assignment_id == self.packet.assignment_id
        &&& self.packet_digest == self.packet.packet_digest
        &&& read_views(self.required_reads@) == read_views(self.packet.required_reads@)
        &&& self.expected_read_manifest_artifact_id
            == self.packet.required_read_manifest_artifact_id
        &&& components(self.workspace_root@) == components(
            encode_utf8(self.packet.workspace_root@),
        )
    }

    /// Whether a capture is the named file of the staging directory.
    pub open spec fn captures_in_staging(&self, path: Seq<u8>, name: &'static str) -> bool {
        is_entry_of(path, encode_utf8(self.packet.staging_root@), encode_utf8(name@))
    }

    /// Why the request does not launch, if it does not.
    pub open spec fn identity_fault<F>(&self, admission_maximum: usize) -> Option<
        SessionRuntimeError<F>,
    > {
        if !self.names_its_packet() {
            Some(SessionRuntimeError::PacketIdentityMismatch)
        } else if self.canonical_packet_bytes@.len() == 0 {
            Some(SessionRuntimeError::PacketBytesEmpty)
        } else if self.canonical_packet_bytes@.len() > admission_maximum {
            Some(
                SessionRuntimeError::PacketBytesTooLarge {
                    actual: self.canonical_packet_bytes.len(),
                    maximum: admission_maximum,
                },
            )
        } else if self.workspace_root@.len() == 0 {
            Some(SessionRuntimeError::WorkspaceRootEmpty)
        } else if !self.captures_in_staging(
            self.supervision.stdout_path@,
            SESSION_STDOUT_RELATIVE_PATH,
        ) {
            Some(SessionRuntimeError::CapturePathOutsideStaging { stream: "stdout" })
        } else if !self.captures_in_staging(
            self.supervision.stderr_path@,
            SESSION_STDERR_RELATIVE_PATH,
        ) {
            Some(SessionRuntimeError::CapturePathOutsideStaging { stream: "stderr" })
        } else {
            None
        }
    }

    /// Refuses a request that is not about its packet, or that captures streams
    /// anywhere but in the assignment's staging directory.
    pub fn validate_identity<F>(&self, admission_maximum: usize) -> (result: Result<
        (),
        SessionRuntimeError<F>,
    >)
        ensures
            result == (match self.identity_fault::<F>(admission_maximum) {
                Some(fault) => Err::<(), SessionRuntimeError<F>>(fault),
                None => Ok(()),
            }),
    {
        if self.assignment_id.value != self.packet.assignment_id.value {
            return Err(SessionRuntimeError::PacketIdentityMismatch);
        }
        if !self.packet_digest.same(&self.packet.packet_digest) {
            return Err(SessionRuntimeError::PacketIdentityMismatch);
        }
        if !reads_equal(&self.required_reads, &self.packet.required_reads) {
            return Err(SessionRuntimeError::PacketIdentityMismatch);
        }
        if self.expected_read_manifest_artifact_id.value
            != self.packet.required_read_manifest_artifact_id.value || !paths_equal(
            self.workspace_root.as_slice(),
            self.packet.workspace_root.as_str().as_bytes(),
        ) {
            return Err(SessionRuntimeError::PacketIdentityMismatch);
        }
        if self.canonical_packet_bytes.len() == 0 {
            return Err(SessionRuntimeError::PacketBytesEmpty);
        }
        if self.canonical_packet_bytes.len() > admission_maximum {
            return Err(
                SessionRuntimeError::PacketBytesTooLarge {
                    actual: self.canonical_packet_bytes.len(),
                    maximum: admission_maximum,
                },
            );
        }
        if self.workspace_root.len() == 0 {
            return Err(SessionRuntimeError::WorkspaceRootEmpty);
        }
        if !entry_of(
            self.supervision.stdout_path(),
            self.packet.staging_root.as_str().as_bytes(),
            SESSION_STDOUT_RELATIVE_PATH.as_bytes(),
        ) {
            return Err(SessionRuntimeError::CapturePathOutsideStaging { stream: "stdout" });
        }
        if !entry_of(
            self.supervision.stderr_path(),
            self.packet.staging_root.as_str().as_bytes(),
            SESSION_STDERR_RELATIVE_PATH.as_bytes(),
        ) {
            return Err(SessionRuntimeError::CapturePathOutsideStaging { stream: "stderr" });
        }
        Ok(())
    }

    /// The command that commits the spawned child's process facts.
    pub fn start_command(&self, custody: crate::protocol::ProcessCustody) -> (command:
        StartSession)
        ensures
            command.principal == self.principal,
            command.command_id == self.command_id,
            command.expected_assignment_revision == self.expected_assignment_revision,
            command.assignment_id == self.assignment_id,
            command.packet_digest == self.packet_digest,
            command.custody == custody,
    {
        StartSession {
            principal: self.principal.clone(),
            command_id: self.command_id.clone(),
            expected_assignment_revision: self.expected_assignment_revision,
            assignment_id: self.assignment_id,
            packet_digest: self.packet_digest,
            custody,
        }
    }
}

/// The steps of a launch, in the order they are taken.
#[derive(Clone, Copy, Debug, PartialEq, Eq, Structural)]
pub enum LaunchPhase {
    /// The installed build verifies the packet.
    VerifyPacket,
    /// The installed build verifies the host to be spawned.
    VerifyRuntime,
    /// The packet bytes are the sealed ones of the assignment.
    VerifyPacketBytes,
    /// The packet bytes carry the digest and grant the session's tools.
    VerifyWire,
    CreateSocket,
    Spawn,
    /// The process facts become durable.
    Start,
    /// The session becomes cancellable.
    Register,
    /// The connection is bound to the durable session.
    Identify,
    SetDeadline,
    /// The admission line is written out.
    WriteAdmission,
    /// The child is released.
    SendAdmission,
    /// The authority over required reads opens.
    OpenReads,
}

/// What a launch does next.
#[derive(Clone, Debug, PartialEq, Eq)]
pub enum LaunchAction<F> {
    Perform(LaunchPhase),
    /// The session runs.
    Serve,
    /// The child is cancelled and directly waited; the fault is kept for the
    /// answer.
    CancelAndWait(SessionRuntimeError<F>),
    Fail(SessionRuntimeError<F>),
}

/// Position of a step in the launch.
pub open spec fn launch_rank(phase: LaunchPhase) -> int {
    match phase {
        LaunchPhase::VerifyPacket => 0,
        LaunchPhase::VerifyRuntime => 1,
        LaunchPhase::VerifyPacketBytes => 2,
        LaunchPhase::VerifyWire => 3,
        LaunchPhase::CreateSocket => 4,
        LaunchPhase::Spawn => 5,
        LaunchPhase::Start => 6,
        LaunchPhase::Register => 7,
        LaunchPhase::Identify => 8,
        LaunchPhase::SetDeadline => 9,
        LaunchPhase::WriteAdmission => 10,
        LaunchPhase::SendAdmission => 11,
        LaunchPhase::OpenReads => 12,
    }
}

/// Whether a child exists while the step is taken.
pub open spec fn child_exists(phase: LaunchPhase) -> bool {
    launch_rank(phase) > launch_rank(LaunchPhase::Spawn)
}

/// The step behind a step, if there is one.
pub open spec fn next_phase(phase: LaunchPhase) -> Option<LaunchPhase> {
    match phase {
        LaunchPhase::VerifyPacket => Some(LaunchPhase::VerifyRuntime),
        LaunchPhase::VerifyRuntime => Some(LaunchPhase::VerifyPacketBytes),
        LaunchPhase::VerifyPacketBytes => Some(LaunchPhase::VerifyWire),
        LaunchPhase::VerifyWire => Some(LaunchPhase::CreateSocket),
        LaunchPhase::CreateSocket => Some(LaunchPhase::Spawn),
        LaunchPhase::Spawn => Some(LaunchPhase::Start),
        LaunchPhase::Start => Some(LaunchPhase::Register),
        LaunchPhase::Register => Some(LaunchPhase::Identify),
        LaunchPhase::Identify => Some(LaunchPhase::SetDeadline),
        LaunchPhase::SetDeadline => Some(LaunchPhase::WriteAdmission),
        LaunchPhase::WriteAdmission => Some(LaunchPhase::SendAdmission),
        LaunchPhase::SendAdmission => Some(LaunchPhase::OpenReads),
        LaunchPhase::OpenReads => None,
    }
}

/// What follows a step of a launch.
pub open spec fn spec_launch_session<F>(
    phase: LaunchPhase,
    outcome: Result<(), SessionRuntimeError<F>>,
) -> LaunchAction<F> {
    match outcome {
        Ok(()) => match next_phase(phase) {
            Some(next) => LaunchAction::Perform(next),
            None => LaunchAction::Serve,
        },
        Err(fault) => if child_exists(phase) {
            LaunchAction::CancelAndWait(fault)
        } else {
            LaunchAction::Fail(fault)
        },
    }
}

/// Begins a launch: a request that is about its packet goes on to verification.
pub fn begin_launch<F>(request: &SessionLaunchRequest, admission_maximum: usize) -> (action:
    LaunchAction<F>)
    ensures
        action == (match request.identity_fault::<F>(admission_maximum) {
            Some(fault) => LaunchAction::Fail(fault),
            None => LaunchAction::Perform(LaunchPhase::VerifyPacket),
        }),
{
    match request.validate_identity(admission_maximum) {
        Err(fault) => LaunchAction::Fail(fault),
        Ok(()) => LaunchAction::Perform(LaunchPhase::VerifyPacket),
    }
}

/// Takes the outcome of one step and says what follows. A failure after the
/// child was spawned always leads through a direct wait for it.
pub fn launch_session<F>(phase: LaunchPhase, outcome: Result<(), SessionRuntimeError<F>>) -> (action:
    LaunchAction<F>)
    ensures
        action == spec_launch_session(phase, outcome),
{
    match outcome {
        Ok(()) => match phase {
            LaunchPhase::VerifyPacket => LaunchAction::Perform(LaunchPhase::VerifyRuntime),
            LaunchPhase::VerifyRuntime => LaunchAction::Perform(LaunchPhase::VerifyPacketBytes),
            LaunchPhase::VerifyPacketBytes => LaunchAction::Perform(LaunchPhase::VerifyWire),
            LaunchPhase::VerifyWire => LaunchAction::Perform(LaunchPhase::CreateSocket),
            LaunchPhase::CreateSocket => LaunchAction::Perform(LaunchPhase::Spawn),
            LaunchPhase::Spawn => LaunchAction::Perform(LaunchPhase::Start),
            LaunchPhase::Start => LaunchAction::Perform(LaunchPhase::Register),
            LaunchPhase::Register => LaunchAction::Perform(LaunchPhase::Identify),
            LaunchPhase::Identify => LaunchAction::Perform(LaunchPhase::SetDeadline),
            LaunchPhase::SetDeadline => LaunchAction::Perform(LaunchPhase::WriteAdmission),
            LaunchPhase::WriteAdmission => LaunchAction::Perform(LaunchPhase::SendAdmission),
            LaunchPhase::SendAdmission => LaunchAction::Perform(LaunchPhase::OpenReads),
            LaunchPhase::OpenReads => LaunchAction::Serve,
        },
        Err(fault) => match phase {
            LaunchPhase::VerifyPacket
            | LaunchPhase::VerifyRuntime
            | LaunchPhase::VerifyPacketBytes
            | LaunchPhase::VerifyWire
            | LaunchPhase::CreateSocket
            | LaunchPhase::Spawn => LaunchAction::Fail(fault),
            _ => LaunchAction::CancelAndWait(fault),
        },
    }
}

/// What a launch that failed behind a child is answered, once the child was
/// waited for.
pub open spec fn spec_conclude_failed_launch<F>(
    phase: LaunchPhase,
    fault: SessionRuntimeError<F>,
    waited: Result<(), F>,
) -> SessionRuntimeError<F> {
    match (phase, fault) {
        (LaunchPhase::Start, SessionRuntimeError::Store(start)) => match waited {
            Ok(()) => SessionRuntimeError::StartFailed(start),
            Err(cleanup) => SessionRuntimeError::StartAndCleanupFailed { start, cleanup },
        },
        (LaunchPhase::SendAdmission, SessionRuntimeError::Transport(source)) => match waited {
            Ok(()) => SessionRuntimeError::AdmissionFailed { source },
            Err(cleanup) => SessionRuntimeError::AdmissionCleanupFailed(cleanup),
        },
        (_, fault) => fault,
    }
}

/// Says what a launch that failed behind a child is answered. `waited` is what
/// waiting for the cancelled child gave.
pub fn conclude_failed_launch<F>(
    phase: LaunchPhase,
    fault: SessionRuntimeError<F>,
    waited: Result<(), F>,
) -> (error: SessionRuntimeError<F>)
    ensures
        error == spec_conclude_failed_launch(phase, fault, waited),
{
    match phase {
        LaunchPhase::Start => match fault {
            SessionRuntimeError::Store(start) => match waited {
                Ok(()) => SessionRuntimeError::StartFailed(start),
                Err(cleanup) => SessionRuntimeError::StartAndCleanupFailed { start, cleanup },
            },
            fault => fault,
        },
        LaunchPhase::SendAdmission => match fault {
            SessionRuntimeError::Transport(source) => match waited {
                Ok(()) => SessionRuntimeError::AdmissionFailed { source },
                Err(cleanup) => SessionRuntimeError::AdmissionCleanupFailed(cleanup),
            },
            fault => fault,
        },
        _ => fault,
    }
}

/// A launch that fails never leaves its child unattended: every failure after
/// the spawn leads to a direct wait, and no failure before it waits for
/// anything.
pub proof fn law_failed_startup_waits_for_the_child<F>(
    phase: LaunchPhase,
    fault: SessionRuntimeError<F>,
)
    ensures
        spec_launch_session(phase, Err::<(), SessionRuntimeError<F>>(fault)) is CancelAndWait
            <==> child_exists(phase),
        spec_launch_session(phase, Err::<(), SessionRuntimeError<F>>(fault)) is Fail
            <==> !child_exists(phase),
{
}

/// Steps are taken one after another: nothing skips a step, and the session is
/// served only behind the last one.
pub proof fn law_launch_skips_no_step<F>(phase: LaunchPhase)
    ensures
        match spec_launch_session(phase, Ok::<(), SessionRuntimeError<F>>(())) {
            LaunchAction::Perform(next) => launch_rank(next) == launch_rank(phase) + 1,
            LaunchAction::Serve => phase == LaunchPhase::OpenReads,
            _ => false,
        },
{
}

/// The step a launch stands at once its earlier steps had these outcomes; none
/// where the launch is over.
pub open spec fn launch_after<F>(outcomes: Seq<Result<(), SessionRuntimeError<F>>>) -> Option<
    LaunchPhase,
>
    decreases outcomes.len(),
{
    if outcomes.len() == 0 {
        Some(LaunchPhase::VerifyPacket)
    } else {
        match launch_after(outcomes.drop_last()) {
            None => None,
            Some(phase) => match spec_launch_session(phase, outcomes.last()) {
                LaunchAction::Perform(next) => Some(next),
                _ => None,
            },
        }
    }
}

/// A step is reached only through the success of every step before it. So the
/// child is released only once its exact process facts are durable, and it is
/// spawned only once everything that can be verified without it was.
pub proof fn law_admission_follows_durable_start<F>(
    outcomes: Seq<Result<(), SessionRuntimeError<F>>>,
    phase: LaunchPhase,
)
    requires
        launch_after(outcomes) == Some(phase),
    ensures
        outcomes.len() == launch_rank(phase),
        forall|i: int| 0 <= i < outcomes.len() ==> #[trigger] outcomes[i] is Ok,
        phase == LaunchPhase::SendAdmission ==> outcomes[launch_rank(LaunchPhase::Start)] is Ok
            && outcomes[launch_rank(LaunchPhase::Identify)] is Ok,
        phase == LaunchPhase::Spawn ==> outcomes[launch_rank(LaunchPhase::VerifyPacketBytes)] is Ok
            && outcomes[launch_rank(LaunchPhase::VerifyWire)] is Ok,
    decreases outcomes.len(),
{
    if outcomes.len() > 0 {
        let earlier = outcomes.drop_last();
        law_admission_follows_durable_start(earlier, launch_after(earlier)->Some_0);
        assert forall|i: int| 0 <= i < outcomes.len() implies #[trigger] outcomes[i] is Ok by {
            if i < earlier.len() {
                assert(earlier[i] is Ok);
            }
        }
    }
}

/// What ended the transport of a session.
#[derive(Clone, Copy, Debug, PartialEq, Eq, Structural)]
pub enum TransportEnd {
    PeerClosed,
    Failed,
}

/// What a running session saw first.
pub enum FirstStop<F> {
    /// The child was waited for.
    Process(Result<SupervisedProcessOutcome, F>),
    Transport(TransportEnd),
    /// The actor proposed to end the session.
    Terminal(TerminalRequest),
    /// The child's result can no longer arrive.
    ProcessChannelClosed,
    /// The transport's result can no longer arrive.
    TransportChannelClosed,
}

/// Why the actor side of a running session stopped first. Its digest code is
/// its position in this list.
#[derive(Clone, Copy, Debug, PartialEq, Eq, Structural)]
pub enum SessionTransportStop {
    ProcessExited,
    PeerDisconnected,
    TransportFailed,
}

pub open spec fn spec_transport_stop_code(stop: SessionTransportStop) -> u8 {
    match stop {
        SessionTransportStop::ProcessExited => 0,
        SessionTransportStop::PeerDisconnected => 1,
        SessionTransportStop::TransportFailed => 2,
    }
}

pub fn transport_stop_code(stop: SessionTransportStop) -> (code: u8)
    ensures
        code == spec_transport_stop_code(stop),
{
    match stop {
        SessionTransportStop::ProcessExited => 0,
        SessionTransportStop::PeerDisconnected => 1,
        SessionTransportStop::TransportFailed => 2,
    }
}

/// Whether the child has to be cancelled: always, unless it ended itself.
pub fn stop_cancels_child<F>(first: &FirstStop<F>) -> (cancels: bool)
    ensures
        cancels == !(*first is Process),
{
    match first {
        FirstStop::Process(_) => false,
        _ => true,
    }
}

/// How a session ended, before anything was sealed.
pub struct StoppedSession {
    pub transport: SessionTransportStop,
    pub process: SupervisedProcessOutcome,
    pub proposal: Option<TerminalRequest>,
}

/// What is known of a child after a session stopped: its outcome, or why there
/// is none. `waited` is what waiting for a cancelled child gave, absent where
/// its result can no longer arrive.
pub open spec fn stopped_process<F>(
    first: FirstStop<F>,
    waited: Option<Result<SupervisedProcessOutcome, F>>,
) -> Result<SupervisedProcessOutcome, SessionRuntimeError<F>> {
    let child = match first {
        FirstStop::Process(result) => Some(result),
        _ => waited,
    };
    match first {
        FirstStop::ProcessChannelClosed => Err(SessionRuntimeError::ProcessResultChannelClosed),
        FirstStop::TransportChannelClosed => Err(SessionRuntimeError::TransportResultChannelClosed),
        _ => match child {
            None => Err(SessionRuntimeError::ProcessResultChannelClosed),
            Some(Err(fault)) => Err(SessionRuntimeError::Custody(fault)),
            Some(Ok(outcome)) => Ok(outcome),
        },
    }
}

/// What a session's first stop says of its transport.
pub open spec fn stopped_transport<F>(first: FirstStop<F>) -> SessionTransportStop {
    match first {
        FirstStop::Transport(TransportEnd::PeerClosed) => SessionTransportStop::PeerDisconnected,
        FirstStop::Transport(TransportEnd::Failed) => SessionTransportStop::TransportFailed,
        _ => SessionTransportStop::ProcessExited,
    }
}

/// The proposal a session ends with: the one that stopped it, or one that
/// arrived in the same moment as the stop.
pub open spec fn stopped_proposal<F>(
    first: FirstStop<F>,
    late: Option<TerminalRequest>,
) -> Option<TerminalRequest> {
    match first {
        FirstStop::Terminal(proposal) => Some(proposal),
        _ => late,
    }
}

/// Concludes how a session ended from what was seen first, what waiting for the
/// child gave, and a proposal that may have arrived meanwhile.
pub fn conclude_stop<F>(
    first: FirstStop<F>,
    waited: Option<Result<SupervisedProcessOutcome, F>>,
    late: Option<TerminalRequest>,
) -> (result: Result<StoppedSession, SessionRuntimeError<F>>)
    ensures
        match result {
            Err(fault) => stopped_process(first, waited)
                == Err::<SupervisedProcessOutcome, SessionRuntimeError<F>>(fault),
            Ok(stopped) => {
                &&& stopped_process(first, waited)
                    == Ok::<SupervisedProcessOutcome, SessionRuntimeError<F>>(stopped.process)
                &&& stopped.transport == stopped_transport(first)
                &&& stopped.proposal == stopped_proposal(first, late)
            },
        },
{
    let (transport, child, proposal) = match first {
        FirstStop::Process(result) => (SessionTransportStop::ProcessExited, Some(result), late),
        FirstStop::Transport(TransportEnd::PeerClosed) => (
            SessionTransportStop::PeerDisconnected,
            waited,
            late,
        ),
        FirstStop::Transport(TransportEnd::Failed) => (
            SessionTransportStop::TransportFailed,
            waited,
            late,
        ),
        FirstStop::Terminal(proposal) => (
            SessionTransportStop::ProcessExited,
            waited,
            Some(proposal),
        ),
        FirstStop::ProcessChannelClosed => return Err(
            SessionRuntimeError::ProcessResultChannelClosed,
        ),
        FirstStop::TransportChannelClosed => return Err(
            SessionRuntimeError::TransportResultChannelClosed,
        ),
    };
    match child {
        None => Err(SessionRuntimeError::ProcessResultChannelClosed),
        Some(Err(fault)) => Err(SessionRuntimeError::Custody(fault)),
        Some(Ok(process)) => Ok(StoppedSession { transport, process, proposal }),
    }
}

/// A proposal the actor got across is never lost to a race with its own
/// disconnection or exit.
pub proof fn law_received_proposal_survives<F>(first: FirstStop<F>, late: Option<TerminalRequest>)
    ensures
        late is Some ==> stopped_proposal(first, late) is Some,
        first is Terminal ==> stopped_proposal(first, late) == Some(first->Terminal_0),
{
}

/// Why a session without an accepted actor report stopped. A failed transport
/// comes first; a cancellation comes before the disconnection it causes.
pub open spec fn spec_infrastructure_stop_reason(
    process: ProcessStopReason,
    transport: SessionTransportStop,
) -> StopReason {
    if transport == SessionTransportStop::TransportFailed {
        StopReason::ProtocolError
    } else if process == ProcessStopReason::Cancelled {
        StopReason::Cancelled
    } else if transport == SessionTransportStop::PeerDisconnected {
        StopReason::DaemonDisconnected
    } else {
        match process {
            ProcessStopReason::Exited => StopReason::ProtocolError,
            ProcessStopReason::NonZeroExit => StopReason::NonZeroExit,
            ProcessStopReason::Cancelled => StopReason::Cancelled,
            ProcessStopReason::Deadline => StopReason::Deadline,
            ProcessStopReason::StdoutLimit => StopReason::OutputLimit,
            ProcessStopReason::StderrLimit => StopReason::OutputLimit,
        }
    }
}

/// Why a session without an accepted actor report stopped.
pub fn infrastructure_stop_reason(
    process: ProcessStopReason,
    transport: SessionTransportStop,
) -> (reason: StopReason)
    ensures
        reason == spec_infrastructure_stop_reason(process, transport),
{
    if transport == SessionTransportStop::TransportFailed {
        return StopReason::ProtocolError;
    }
    if process == ProcessStopReason::Cancelled {
        return StopReason::Cancelled;
    }
    if transport == SessionTransportStop::PeerDisconnected {
        return StopReason::DaemonDisconnected;
    }
    match process {
        ProcessStopReason::Exited => StopReason::ProtocolError,
        ProcessStopReason::NonZeroExit => StopReason::NonZeroExit,
        ProcessStopReason::Cancelled => StopReason::Cancelled,
        ProcessStopReason::Deadline => StopReason::Deadline,
        ProcessStopReason::StdoutLimit | ProcessStopReason::StderrLimit => StopReason::OutputLimit,
    }
}

/// The kernel never claims that a session completed: without an accepted actor
/// report no stop is a success.
pub proof fn law_infrastructure_never_completes(
    process: ProcessStopReason,
    transport: SessionTransportStop,
)
    ensures
        spec_infrastructure_stop_reason(process, transport) != StopReason::Completed,
{
}

pub const INFRASTRUCTURE_TAG: &'static str = "factory-session-infrastructure-terminal-v1\0";

/// A status as its digest holds it; an absent one is the least integer.
pub open spec fn status_word(status: Option<i32>) -> i32 {
    match status {
        Some(status) => status,
        None => i32::MIN,
    }
}

/// The bytes an infrastructure report is identified by.
pub open spec fn infrastructure_preimage(
    process: SupervisedProcessOutcome,
    transport: SessionTransportStop,
) -> Seq<u8> {
    encode_utf8(INFRASTRUCTURE_TAG@) + (seq![spec_process_stop_code(process.reason)] + (seq![
        spec_transport_stop_code(transport),
    ] + (be_i32(status_word(process.exit_code)) + (be_i32(status_word(process.signal)) + (be64(
        process.stdout_bytes,
    ) + be64(process.stderr_bytes))))))
}

/// Two session ends have one preimage only if they are told apart by nothing
/// but an absent status and the least integer that stands for it.
pub proof fn law_infrastructure_preimage_injective(
    left: SupervisedProcessOutcome,
    left_transport: SessionTransportStop,
    right: SupervisedProcessOutcome,
    right_transport: SessionTransportStop,
)
    requires
        infrastructure_preimage(left, left_transport) == infrastructure_preimage(
            right,
            right_transport,
        ),
    ensures
        left.reason == right.reason,
        left_transport == right_transport,
        status_word(left.exit_code) == status_word(right.exit_code),
        status_word(left.signal) == status_word(right.signal),
        left.stdout_bytes == right.stdout_bytes,
        left.stderr_bytes == right.stderr_bytes,
{
    let tag = encode_utf8(INFRASTRUCTURE_TAG@);
    let none = Seq::<u8>::empty();
    let l5 = be64(left.stderr_bytes);
    let r5 = be64(right.stderr_bytes);
    let l4 = be64(left.stdout_bytes) + l5;
    let r4 = be64(right.stdout_bytes) + r5;
    let l3 = be_i32(status_word(left.signal)) + l4;
    let r3 = be_i32(status_word(right.signal)) + r4;
    let l2 = be_i32(status_word(left.exit_code)) + l3;
    let r2 = be_i32(status_word(right.exit_code)) + r3;
    let l1 = seq![spec_transport_stop_code(left_transport)] + l2;
    let r1 = seq![spec_transport_stop_code(right_transport)] + r2;
    let l0 = seq![spec_process_stop_code(left.reason)] + l1;
    let r0 = seq![spec_process_stop_code(right.reason)] + r1;
    lemma_concat_split(tag, l0, tag, r0);
    lemma_concat_split(
        seq![spec_process_stop_code(left.reason)],
        l1,
        seq![spec_process_stop_code(right.reason)],
        r1,
    );
    lemma_concat_split(
        seq![spec_transport_stop_code(left_transport)],
        l2,
        seq![spec_transport_stop_code(right_transport)],
        r2,
    );
    assert(seq![spec_process_stop_code(left.reason)][0] == seq![
        spec_process_stop_code(right.reason),
    ][0]);
    assert(seq![spec_transport_stop_code(left_transport)][0] == seq![
        spec_transport_stop_code(right_transport),
    ][0]);
    lemma_be_i32_head(status_word(left.exit_code), l3, status_word(right.exit_code), r3);
    lemma_be_i32_head(status_word(left.signal), l4, status_word(right.signal), r4);
    lemma_be64_head(left.stdout_bytes, l5, right.stdout_bytes, r5);
    assert(l5 + none =~= l5);
    assert(r5 + none =~= r5);
    lemma_be64_head(left.stderr_bytes, none, right.stderr_bytes, none);
}

/// Digest of the report the kernel makes of a session's end.
pub fn infrastructure_report_digest(
    process: &SupervisedProcessOutcome,
    transport: SessionTransportStop,
) -> (digest: ContentDigest)
    ensures
        digest.bytes == blake3_of(infrastructure_preimage(*process, transport)),
{
    let mut bytes: Vec<u8> = Vec::new();
    push_text(&mut bytes, INFRASTRUCTURE_TAG);
    bytes.push(process_stop_code(process.reason));
    bytes.push(transport_stop_code(transport));
    push_i32(
        &mut bytes,
        match process.exit_code {
            Some(code) => code,
            None => i32::MIN,
        },
    );
    push_i32(
        &mut bytes,
        match process.signal {
            Some(signal) => signal,
            None => i32::MIN,
        },
    );
    push_u64(&mut bytes, process.stdout_bytes);
    push_u64(&mut bytes, process.stderr_bytes);
    assert(bytes@ =~= infrastructure_preimage(*process, transport));
    ContentDigest::of_bytes(bytes.as_slice())
}

/// The principal an actor's commands are recorded under. It belongs to one
/// session, so that command IDs that begin anew with every host never meet.
pub open spec fn actor_principal_text(session: SessionReceipt, packet: AssignmentPacket) -> Seq<
    char,
> {
    "actor-session-"@ + decimal(session.session_id.value as int) + "-assignment-"@ + decimal(
        packet.assignment_id.value as int,
    ) + "-application-"@ + decimal(packet.application_revision_id.value as int) + "-campaign-"@
        + decimal(packet.campaign_id.value as int)
}

/// The principal an actor's commands are recorded under.
pub fn actor_session_principal(session: &SessionReceipt, packet: &AssignmentPacket) -> (text:
    String)
    ensures
        text@ == actor_principal_text(*session, *packet),
{
    let mut text = String::new();
    text.append("actor-session-");
    push_decimal_i64(&mut text, session.session_id.value);
    text.append("-assignment-");
    push_decimal_i64(&mut text, packet.assignment_id.value);
    text.append("-application-");
    push_decimal_i64(&mut text, packet.application_revision_id.value);
    text.append("-campaign-");
    push_decimal_i64(&mut text, packet.campaign_id.value);
    assert(text@ =~= actor_principal_text(*session, *packet));
    text
}

/// No two sessions share a principal, whatever packets they run.
pub proof fn law_actor_principal_names_one_session(
    left: SessionReceipt,
    left_packet: AssignmentPacket,
    right: SessionReceipt,
    right_packet: AssignmentPacket,
)
    requires
        actor_principal_text(left, left_packet) == actor_principal_text(right, right_packet),
    ensures
        left.session_id == right.session_id,
{
    let prefix = "actor-session-"@;
    let left_rest = actor_principal_rest(left_packet);
    let right_rest = actor_principal_rest(right_packet);
    let left_tail = decimal(left.session_id.value as int) + left_rest;
    let right_tail = decimal(right.session_id.value as int) + right_rest;
    lemma_actor_principal_parts(left, left_packet);
    lemma_actor_principal_parts(right, right_packet);
    assert(left_tail =~= (prefix + left_tail).skip(prefix.len() as int));
    assert(right_tail =~= (prefix + right_tail).skip(prefix.len() as int));
    crate::text::law_decimal_is_read_back(
        left.session_id.value as int,
        left_rest,
        right.session_id.value as int,
        right_rest,
    );
}

#[verifier::spinoff_prover]
#[verifier::rlimit(40)]
proof fn lemma_actor_principal_parts(session: SessionReceipt, packet: AssignmentPacket)
    ensures
        actor_principal_text(session, packet) == "actor-session-"@ + (decimal(
            session.session_id.value as int,
        ) + actor_principal_rest(packet)),
        actor_principal_rest(packet).len() > 0,
        actor_principal_rest(packet)[0] == '-',
{
    reveal_strlit("-assignment-");
    let a = "actor-session-"@;
    let b = decimal(session.session_id.value as int);
    let c = "-assignment-"@;
    let d = decimal(packet.assignment_id.value as int);
    let e = "-application-"@;
    let f = decimal(packet.application_revision_id.value as int);
    let g = "-campaign-"@;
    let h = decimal(packet.campaign_id.value as int);
    lemma_concat_assoc(a + b, c, d);
    lemma_concat_assoc(a + b, c + d, e);
    lemma_concat_assoc(a + b, c + d + e, f);
    lemma_concat_assoc(a + b, c + d + e + f, g);
    lemma_concat_assoc(a + b, c + d + e + f + g, h);
    lemma_concat_assoc(a, b, actor_principal_rest(packet));
}

/// What follows the session in an actor's principal.
spec fn actor_principal_rest(packet: AssignmentPacket) -> Seq<char> {
    "-assignment-"@ + decimal(packet.assignment_id.value as int) + "-application-"@ + decimal(
        packet.application_revision_id.value as int,
    ) + "-campaign-"@ + decimal(packet.campaign_id.value as int)
}

/// The command ID under which a file of a session is registered.
pub fn session_artifact_command_id(session_id: SessionId, role: &str) -> (text: String)
    ensures
        text@ == "kernel-session-"@ + decimal(session_id.value as int) + "-"@ + role@,
{
    let mut text = String::new();
    text.append("kernel-session-");
    push_decimal_i64(&mut text, session_id.value);
    text.append("-");
    text.append(role);
    assert(text@ =~= "kernel-session-"@ + decimal(session_id.value as int) + "-"@ + role@);
    text
}

/// The command ID under which the kernel ends a session.
pub fn reconcile_command_id(session_id: SessionId) -> (text: String)
    ensures
        text@ == "kernel-reconcile-session-"@ + decimal(session_id.value as int),
{
    let mut text = String::new();
    text.append("kernel-reconcile-session-");
    push_decimal_i64(&mut text, session_id.value);
    assert(text@ =~= "kernel-reconcile-session-"@ + decimal(session_id.value as int));
    text
}

/// The file in the staging directory that holds a session's read assertion.
pub fn read_assertion_file(session_id: SessionId) -> (text: String)
    ensures
        text@ == "required-read-assertion-"@ + decimal(session_id.value as int) + ".json"@,
{
    let mut text = String::new();
    text.append("required-read-assertion-");
    push_decimal_i64(&mut text, session_id.value);
    text.append(".json");
    assert(text@ =~= "required-read-assertion-"@ + decimal(session_id.value as int) + ".json"@);
    text
}

/// The components of a file to be sealed, below the staging directory.
/// `path_valid` says whether they make a runtime-relative path.
pub fn runtime_artifact_path<F>(
    absolute_path: Vec<u8>,
    staging_root: &[u8],
    path_valid: bool,
) -> (result: Result<Vec<Vec<u8>>, SessionRuntimeError<F>>)
    ensures
        match result {
            Ok(relative) => path_valid && relative_components(absolute_path@, staging_root@)
                == Some(crate::path::byte_views(relative@)),
            Err(fault) => {
                &&& fault == SessionRuntimeError::<F>::ArtifactPathOutsideStaging {
                    path: absolute_path,
                }
                &&& !path_valid || relative_components(absolute_path@, staging_root@) is None
            },
        },
{
    match strip_prefix(absolute_path.as_slice(), staging_root) {
        None => Err(SessionRuntimeError::ArtifactPathOutsideStaging { path: absolute_path }),
        Some(relative) => if path_valid {
            Ok(relative)
        } else {
            Err(SessionRuntimeError::ArtifactPathOutsideStaging { path: absolute_path })
        },
    }
}

/// Where a session's transcript comes from.
#[derive(Clone, Copy, Debug, PartialEq, Eq)]
pub enum TranscriptSource {
    /// The actor sealed it.
    Registered(RegisteredSessionArtifact),
    /// The kernel sealed what the actor had written.
    Partial(CasArtifact),
}

/// The seals a session leaves behind. A transcript the actor never sealed is
/// recorded as partial. The summary of its execution is there where one was
/// sealed.
pub fn session_terminal_seals(
    transcript: TranscriptSource,
    execution_summary: Option<CasArtifact>,
    stdout: CasArtifact,
    stderr: CasArtifact,
) -> (seals: TerminalArtifactSeals)
    ensures
        seals == (match transcript {
            TranscriptSource::Registered(registered) => TerminalArtifactSeals {
                transcript: registered.seal,
                execution_summary,
                stdout,
                stderr,
                partial_transcript: None,
            },
            TranscriptSource::Partial(partial) => TerminalArtifactSeals {
                transcript: partial,
                execution_summary,
                stdout,
                stderr,
                partial_transcript: Some(partial),
            },
        }),
{
    match transcript {
        TranscriptSource::Registered(registered) => TerminalArtifactSeals {
            transcript: registered.seal,
            execution_summary,
            stdout,
            stderr,
            partial_transcript: None,
        },
        TranscriptSource::Partial(partial) => TerminalArtifactSeals {
            transcript: partial,
            execution_summary,
            stdout,
            stderr,
            partial_transcript: Some(partial),
        },
    }
}

/// Refuses a read assertion that changed between sealing and registration.
pub fn check_read_assertion<F>(registered: &CasArtifact, assertion: &CasArtifact) -> (result:
    Result<(), SessionRuntimeError<F>>)
    ensures
        result == (if *registered == *assertion {
            Ok::<(), SessionRuntimeError<F>>(())
        } else {
            Err(SessionRuntimeError::AssertionChanged)
        }),
{
    if registered.same(assertion) {
        Ok(())
    } else {
        Err(SessionRuntimeError::AssertionChanged)
    }
}

/// The usage a terminal request reports; a session without one reports none.
pub fn reported_usage(actor: Option<&TerminalRequest>) -> (usage: Option<UsageTotals>)
    ensures
        usage == (match actor {
            None => None,
            Some(actor) => Some(
                UsageTotals {
                    input_tokens: actor.input_tokens,
                    output_tokens: actor.output_tokens,
                    cache_read_tokens: actor.cache_read_tokens,
                    cache_write_tokens: actor.cache_write_tokens,
                    reasoning_tokens: actor.reasoning_tokens,
                    reported_cost_micro_usd: match actor.reported_cost_micro_usd {
                        Some(value) => Some(MicroUsd { value }),
                        None => None,
                    },
                },
            ),
        }),
{
    match actor {
        None => None,
        Some(actor) => Some(
            UsageTotals {
                input_tokens: actor.input_tokens,
                output_tokens: actor.output_tokens,
                cache_read_tokens: actor.cache_read_tokens,
                cache_write_tokens: actor.cache_write_tokens,
                reasoning_tokens: actor.reasoning_tokens,
                reported_cost_micro_usd: match actor.reported_cost_micro_usd {
                    Some(value) => Some(MicroUsd::new(value)),
                    None => None,
                },
            },
        ),
    }
}

/// A terminal report and the command it is made under.
pub struct TerminalAttempt {
    pub principal: String,
    pub command_id: String,
    pub report: TerminalReport,
}

/// The reports a session is ended with: the actor's first, where there is one,
/// and the kernel's where that is refused.
pub struct ReconciliationPlan {
    pub actor: Option<TerminalAttempt>,
    pub infrastructure: TerminalAttempt,
}

/// Whether a terminal request spells a report.
pub open spec fn spells_report(actor: TerminalRequest) -> bool {
    &&& match actor.terminal_operation {
        Some(name) => spec_operation_of(name@) is Some,
        None => true,
    }
    &&& spec_parse_stop_reason(actor.stop_reason@) is Some
    &&& decoded(encode_utf8(actor.terminal_payload_b64@)) is Ok
}

/// Whether an attempt is the report the actor asked for.
pub open spec fn is_actor_attempt(
    attempt: TerminalAttempt,
    actor: TerminalRequest,
    session: SessionReceipt,
    packet: AssignmentPacket,
    packet_digest: ContentDigest,
) -> bool {
    &&& spells_report(actor)
    &&& attempt.principal@ == actor_principal_text(session, packet)
    &&& attempt.command_id == actor.client_command_id
    &&& attempt.report.packet_digest == packet_digest
    &&& attempt.report.expected_session_revision.revision == session.resulting_revision
    &&& attempt.report.operation == (match actor.terminal_operation {
        Some(name) => spec_operation_of(name@),
        None => None,
    })
    &&& Some(attempt.report.stop_reason) == spec_parse_stop_reason(actor.stop_reason@)
    &&& attempt.report.report_digest.bytes == blake3_of(
        decoded(encode_utf8(actor.terminal_payload_b64@))->Ok_0,
    )
}

/// Whether an attempt is the kernel's own report of a session's end.
pub open spec fn is_infrastructure_attempt(
    attempt: TerminalAttempt,
    session: SessionReceipt,
    packet_digest: ContentDigest,
    process: SupervisedProcessOutcome,
    transport: SessionTransportStop,
) -> bool {
    &&& attempt.principal@ == KERNEL_PRINCIPAL@
    &&& attempt.command_id@ == "kernel-reconcile-session-"@ + decimal(
        session.session_id.value as int,
    )
    &&& attempt.report.packet_digest == packet_digest
    &&& attempt.report.expected_session_revision.revision == session.resulting_revision
    &&& attempt.report.operation is None
    &&& attempt.report.stop_reason == spec_infrastructure_stop_reason(process.reason, transport)
    &&& attempt.report.report_digest.bytes == blake3_of(infrastructure_preimage(process, transport))
}

/// The actor's report of a session's end.
fn actor_attempt<F>(
    actor: &TerminalRequest,
    session: &SessionReceipt,
    packet: &AssignmentPacket,
    packet_digest: ContentDigest,
) -> (result: Result<TerminalAttempt, SessionRuntimeError<F>>)
    ensures
        match result {
            Ok(attempt) => is_actor_attempt(attempt, *actor, *session, *packet, packet_digest),
            Err(fault) => !spells_report(*actor) && fault
                == SessionRuntimeError::<F>::InvalidTerminalContract,
        },
{
    let operation = match &actor.terminal_operation {
        None => None,
        Some(name) => match parse_terminal_operation(name.as_str()) {
            Some(operation) => Some(operation),
            None => return Err(SessionRuntimeError::InvalidTerminalContract),
        },
    };
    let stop_reason = match parse_stop_reason(actor.stop_reason.as_str()) {
        Some(reason) => reason,
        None => return Err(SessionRuntimeError::InvalidTerminalContract),
    };
    let payload = match decode_base64(actor.terminal_payload_b64.as_str()) {
        Ok(payload) => payload,
        Err(_) => return Err(SessionRuntimeError::InvalidTerminalContract),
    };
    Ok(
        TerminalAttempt {
            principal: actor_session_principal(session, packet),
            command_id: actor.client_command_id.clone(),
            report: TerminalReport {
                packet_digest,
                expected_session_revision: ExpectedRevision::new(session.resulting_revision),
                operation,
                stop_reason,
                report_digest: ContentDigest::of_bytes(payload.as_slice()),
            },
        },
    )
}

/// Plans the reports a stopped session is ended with.
pub fn reconcile_terminal<F>(
    actor: Option<&TerminalRequest>,
    session: &SessionReceipt,
    packet: &AssignmentPacket,
    packet_digest: ContentDigest,
    process: &SupervisedProcessOutcome,
    transport: SessionTransportStop,
) -> (result: Result<ReconciliationPlan, SessionRuntimeError<F>>)
    ensures
        match result {
            Err(fault) => {
                &&& actor matches Some(actor)
                &&& !spells_report(*actor)
                &&& fault == SessionRuntimeError::<F>::InvalidTerminalContract
            },
            Ok(plan) => {
                &&& match (plan.actor, actor) {
                    (None, None) => true,
                    (Some(attempt), Some(actor)) => is_actor_attempt(
                        attempt,
                        *actor,
                        *session,
                        *packet,
                        packet_digest,
                    ),
                    _ => false,
                }
                &&& is_infrastructure_attempt(
                    plan.infrastructure,
                    *session,
                    packet_digest,
                    *process,
                    transport,
                )
            },
        },
{
    let actor = match actor {
        None => None,
        Some(actor) => match actor_attempt(actor, session, packet, packet_digest) {
            Ok(attempt) => Some(attempt),
            Err(fault) => return Err(fault),
        },
    };
    let mut principal = String::new();
    principal.append(KERNEL_PRINCIPAL);
    assert(principal@ =~= KERNEL_PRINCIPAL@);
    Ok(
        ReconciliationPlan {
            actor,
            infrastructure: TerminalAttempt {
                principal,
                command_id: reconcile_command_id(session.session_id),
                report: TerminalReport {
                    packet_digest,
                    expected_session_revision: ExpectedRevision::new(session.resulting_revision),
                    operation: None,
                    stop_reason: infrastructure_stop_reason(process.reason, transport),
                    report_digest: infrastructure_report_digest(process, transport),
                },
            },
        },
    )
}

/// What follows the actor's report.
pub enum ReconciliationStep {
    /// The session is durably ended.
    Ended(TerminalReceipt),
    /// The kernel's own report is committed instead.
    RecordInfrastructure,
}

/// An accepted actor report ends the session; a refused or absent one leaves it
/// to the kernel. `E` is what a report is refused with.
pub fn after_actor_report<E>(outcome: Option<Result<TerminalReceipt, E>>) -> (step:
    ReconciliationStep)
    ensures
        step == (match outcome {
            Some(Ok(receipt)) => ReconciliationStep::Ended(receipt),
            _ => ReconciliationStep::RecordInfrastructure,
        }),
{
    match outcome {
        Some(Ok(receipt)) => ReconciliationStep::Ended(receipt),
        _ => ReconciliationStep::RecordInfrastructure,
    }
}

/// A session from its durable start to its durable end.
#[derive(Clone, Copy, Debug, PartialEq, Eq, Structural)]
pub struct SessionRuntimeOutcome {
    pub session: SessionReceipt,
    pub terminal: TerminalReceipt,
    pub process: SupervisedProcessOutcome,
    pub transport: SessionTransportStop,
}

/// What a waiting cancellation learns of a reconciled session.
pub fn reconciled_cancellation(
    packet: &AssignmentPacket,
    session: &SessionReceipt,
    terminal: &TerminalReceipt,
) -> (reconciled: ReconciledSessionCancellation)
    ensures
        reconciled.campaign_id == packet.campaign_id,
        reconciled.session_id == session.session_id,
        reconciled.campaign_revision == terminal.campaign_revision,
{
    ReconciledSessionCancellation {
        campaign_id: packet.campaign_id,
        session_id: session.session_id,
        campaign_revision: terminal.campaign_revision,
    }
}

/// The one line that releases a spawned host.
pub open spec fn admission_text(
    assignment_id: AssignmentId,
    session_id: SessionId,
    session_revision: AggregateRevision,
    packet_digest: ContentDigest,
    packet_bytes: Seq<u8>,
) -> Seq<char> {
    "{\"assignment_id\":"@ + quoted(decimal(assignment_id.value as int)) + ",\"packet_b64\":"@
        + quoted(ascii_text(base64_of(packet_bytes))) + ",\"packet_digest\":"@ + quoted(
        hex_of(packet_digest.bytes@),
    ) + ",\"protocol_version\":1,\"session_id\":"@ + decimal(session_id.value as int)
        + ",\"session_revision\":"@ + decimal(session_revision.value as int)
        + ",\"type\":\"session.admitted\"}\n"@
}

/// Writes the line that releases a spawned host, unless it does not fit one
/// frame.
pub fn admission_line<F>(
    assignment_id: AssignmentId,
    session_id: SessionId,
    session_revision: AggregateRevision,
    packet_digest: ContentDigest,
    packet_bytes: &[u8],
    admission_maximum: usize,
) -> (result: Result<Vec<u8>, SessionRuntimeError<F>>)
    ensures
        ({
            let line = encode_utf8(
                admission_text(
                    assignment_id,
                    session_id,
                    session_revision,
                    packet_digest,
                    packet_bytes@,
                ),
            );
            match result {
                Ok(bytes) => line.len() <= admission_maximum && bytes@ == line,
                Err(fault) => line.len() > admission_maximum && fault == SessionRuntimeError::<
                    F,
                >::AdmissionOversized { actual: line.len() as usize, maximum: admission_maximum },
            }
        }),
{
    proof {
        lemma_decimal_is_plain(assignment_id.value as int);
        lemma_base64_is_plain(packet_bytes@);
        lemma_hex_is_plain(packet_digest.bytes@);
    }
    let assignment = crate::text::decimal_i64(assignment_id.value);
    let packet = base64_encode(packet_bytes);
    let digest = packet_digest.to_hex();
    let mut text = String::new();
    text.append("{\"assignment_id\":");
    text.append(json_string(assignment.as_str()).as_str());
    text.append(",\"packet_b64\":");
    text.append(json_string(packet.as_str()).as_str());
    text.append(",\"packet_digest\":");
    text.append(json_string(digest.as_str()).as_str());
    text.append(",\"protocol_version\":1,\"session_id\":");
    push_decimal_i64(&mut text, session_id.value);
    text.append(",\"session_revision\":");
    push_decimal_u64(&mut text, session_revision.value);
    text.append(",\"type\":\"session.admitted\"}\n");
    assert(text@ =~= admission_text(
        assignment_id,
        session_id,
        session_revision,
        packet_digest,
        packet_bytes@,
    ));
    let mut line: Vec<u8> = Vec::new();
    push_text(&mut line, text.as_str());
    assert(line@ =~= encode_utf8(text@));
    if line.len() > admission_maximum {
        return Err(
            SessionRuntimeError::AdmissionOversized {
                actual: line.len(),
                maximum: admission_maximum,
            },
        );
    }
    Ok(line)
}

/// The sessions that can be cancelled, each with the handle of its own child.
/// A handle names no process: it stops only the child it was made with.
pub struct ActiveSessionCancellationRegistry<H> {
    pub entries: Vec<(SessionId, H)>,
}

impl<H> ActiveSessionCancellationRegistry<H> {
    /// No session is registered twice.
    pub open spec fn well_formed(&self) -> bool {
        forall|i: int, j: int|
            0 <= i < j < self.entries@.len() ==> #[trigger] self.entries@[i].0
                != #[trigger] self.entries@[j].0
    }

    /// Whether a session is registered.
    pub open spec fn registers(&self, session_id: SessionId) -> bool {
        exists|i: int| 0 <= i < self.entries@.len() && #[trigger] self.entries@[i].0 == session_id
    }

    /// Whether a session is registered with this handle.
    pub open spec fn holds(&self, session_id: SessionId, handle: H) -> bool {
        self.entries@.contains((session_id, handle))
    }

    pub fn new() -> (registry: ActiveSessionCancellationRegistry<H>)
        ensures
            registry.entries@.len() == 0,
            registry.well_formed(),
    {
        ActiveSessionCancellationRegistry { entries: Vec::new() }
    }

    /// The position of a session, if it is registered.
    fn position(&self, session_id: SessionId) -> (position: Option<usize>)
        ensures
            match position {
                Some(at) => at < self.entries@.len() && self.entries@[at as int].0 == session_id,
                None => !self.registers(session_id),
            },
    {
        let mut at: usize = 0;
        while at < self.entries.len()
            invariant
                at <= self.entries.len(),
                forall|i: int| 0 <= i < at ==> #[trigger] self.entries@[i].0 != session_id,
            decreases self.entries.len() - at,
        {
            if self.entries[at].0.value == session_id.value {
                return Some(at);
            }
            at += 1;
        }
        None
    }

    /// Makes a session cancellable. A second handle for it is refused.
    pub fn register<F>(&mut self, session_id: SessionId, handle: H) -> (result: Result<
        (),
        SessionRuntimeError<F>,
    >)
        requires
            old(self).well_formed(),
        ensures
            final(self).well_formed(),
            result == (if old(self).registers(session_id) {
                Err::<(), SessionRuntimeError<F>>(
                    SessionRuntimeError::CancellationRegistryConflict { session_id },
                )
            } else {
                Ok(())
            }),
            final(self).entries@ == (if old(self).registers(session_id) {
                old(self).entries@
            } else {
                old(self).entries@.push((session_id, handle))
            }),
    {
        match self.position(session_id) {
            Some(at) => {
                assert(self.entries@[at as int].0 == session_id);
                Err(SessionRuntimeError::CancellationRegistryConflict { session_id })
            },
            None => {
                self.entries.push((session_id, handle));
                Ok(())
            },
        }
    }

    /// The handle of a registered session.
    pub fn handle<F>(&self, session_id: SessionId) -> (result: Result<&H, SessionRuntimeError<F>>)
        ensures
            match result {
                Ok(handle) => self.holds(session_id, *handle),
                Err(fault) => !self.registers(session_id) && fault == SessionRuntimeError::<
                    F,
                >::ActiveSessionCancellationMissing { session_id },
            },
    {
        match self.position(session_id) {
            Some(at) => {
                assert(self.entries@[at as int] == (session_id, self.entries@[at as int].1));
                Ok(&self.entries[at].1)
            },
            None => Err(SessionRuntimeError::ActiveSessionCancellationMissing { session_id }),
        }
    }

    /// Takes a session off the registry once it is durably ended.
    pub fn finish(&mut self, session_id: SessionId)
        requires
            old(self).well_formed(),
        ensures
            final(self).well_formed(),
            !final(self).registers(session_id),
            forall|id: SessionId, handle: H|
                id != session_id ==> (#[trigger] final(self).holds(id, handle) <==> old(self).holds(
                    id,
                    handle,
                )),
    {
        match self.position(session_id) {
            Some(at) => {
                let ghost before = self.entries@;
                self.entries.remove(at);
                let ghost after = self.entries@;
                proof {
                    assert(after =~= before.remove(at as int));
                    assert forall|i: int| 0 <= i < after.len() implies #[trigger] after[i].0
                        != session_id by {
                        if i < at {
                            assert(after[i] == before[i]);
                            assert(before[i].0 != before[at as int].0);
                        } else {
                            assert(after[i] == before[i + 1]);
                            assert(before[at as int].0 != before[i + 1].0);
                        }
                    }
                    assert forall|id: SessionId, handle: H|
                        id != session_id implies (#[trigger] after.contains((id, handle))
                        <==> before.contains((id, handle))) by {
                        if after.contains((id, handle)) {
                            let i = choose|i: int|
                                0 <= i < after.len() && after[i] == (id, handle);
                            if i < at {
                                assert(before[i] == (id, handle));
                            } else {
                                assert(before[i + 1] == (id, handle));
                            }
                        }
                        if before.contains((id, handle)) {
                            let i = choose|i: int|
                                0 <= i < before.len() && before[i] == (id, handle);
                            if i < at {
                                assert(after[i] == (id, handle));
                            } else {
                                assert(after[i - 1] == (id, handle));
                            }
                        }
                    }
                }
            },
            None => {},
        }
    }
}

/// A launch request names its own packet exactly when assignment, digest,
/// manifest and workspace are the packet's, and its required reads are the
/// packet's in the same order.
pub proof fn law_launch_names_its_packet(request: SessionLaunchRequest)
    ensures
        request.names_its_packet() <==> {
            &&& request.assignment_id == request.packet.assignment_id
            &&& request.packet_digest == request.packet.packet_digest
            &&& request.expected_read_manifest_artifact_id
                == request.packet.required_read_manifest_artifact_id
            &&& components(request.workspace_root@) == components(
                encode_utf8(request.packet.workspace_root@),
            )
            &&& request.required_reads@.len() == request.packet.required_reads@.len()
            &&& forall|i: int|
                0 <= i < request.required_reads@.len() ==> {
                    let read = #[trigger] request.required_reads@[i];
                    let assigned = request.packet.required_reads@[i];
                    &&& read.path@ == assigned.path@
                    &&& read.digest == assigned.digest
                    &&& read.reason@ == assigned.reason@
                }
        },
{
    let left = read_views(request.required_reads@);
    let right = read_views(request.packet.required_reads@);
    if request.names_its_packet() {
        assert(left.len() == request.required_reads@.len());
        assert(right.len() == request.packet.required_reads@.len());
        assert forall|i: int| 0 <= i < request.required_reads@.len() implies {
            let read = #[trigger] request.required_reads@[i];
            let assigned = request.packet.required_reads@[i];
            &&& read.path@ == assigned.path@
            &&& read.digest == assigned.digest
            &&& read.reason@ == assigned.reason@
        } by {
            assert(left[i] == right[i]);
        }
    }
    if request.required_reads@.len() == request.packet.required_reads@.len() && (forall|i: int|
        0 <= i < request.required_reads@.len() ==> {
            let read = #[trigger] request.required_reads@[i];
            let assigned = request.packet.required_reads@[i];
            &&& read.path@ == assigned.path@
            &&& read.digest == assigned.digest
            &&& read.reason@ == assigned.reason@
        }) {
        assert forall|i: int| 0 <= i < left.len() implies left[i] == right[i] by {
            let read = request.required_reads@[i];
        }
        assert(left =~= right);
    }
}

/// A launch begins exactly with a request that names its packet, carries one to
/// the bound of bytes, and captures both streams under their names in the
/// packet's staging directory; each refusal has its cause.
pub proof fn law_launch_begins_exactly_when_it_may<F>(
    request: SessionLaunchRequest,
    admission_maximum: usize,
)
    ensures
        ({
            let fault = request.identity_fault::<F>(admission_maximum);
            let size = request.canonical_packet_bytes@.len();
            let staging = encode_utf8(request.packet.staging_root@);
            let stdout_ok = is_entry_of(
                request.supervision.stdout_path@,
                staging,
                encode_utf8("stdout.log"@),
            );
            let stderr_ok = is_entry_of(
                request.supervision.stderr_path@,
                staging,
                encode_utf8("stderr.log"@),
            );
            &&& fault is None <==> {
                &&& request.names_its_packet()
                &&& 0 < size <= admission_maximum
                &&& request.workspace_root@.len() > 0
                &&& stdout_ok
                &&& stderr_ok
            }
            &&& fault is Some && fault->0 is PacketIdentityMismatch
                <==> !request.names_its_packet()
            &&& fault is Some && fault->0 is PacketBytesEmpty ==> size == 0
            &&& fault is Some && fault->0 is PacketBytesTooLarge ==> size > admission_maximum
            &&& fault is Some && fault->0 is WorkspaceRootEmpty ==> request.workspace_root@.len()
                == 0
            &&& fault matches Some(SessionRuntimeError::CapturePathOutsideStaging { stream })
                ==> stream@ == "stdout"@ && !stdout_ok || stream@ == "stderr"@ && !stderr_ok
        }),
{
}

/// A launch goes through its steps in order and serves behind the last; a
/// failed step ends it with its own fault, and with a wait for the child
/// exactly from the durable start on.
pub proof fn law_launch_goes_step_by_step<F>(
    phase: LaunchPhase,
    outcome: Result<(), SessionRuntimeError<F>>,
)
    ensures
        ({
            let action = spec_launch_session(phase, outcome);
            let before_the_child = phase is VerifyPacket || phase is VerifyRuntime || phase
                is VerifyPacketBytes || phase is VerifyWire || phase is CreateSocket || phase
                is Spawn;
            &&& outcome matches Err(fault) ==> action == (if before_the_child {
                LaunchAction::Fail(fault)
            } else {
                LaunchAction::CancelAndWait(fault)
            })
            &&& outcome is Ok ==> match phase {
                LaunchPhase::VerifyPacket => action == LaunchAction::<F>::Perform(
                    LaunchPhase::VerifyRuntime,
                ),
                LaunchPhase::VerifyRuntime => action == LaunchAction::<F>::Perform(
                    LaunchPhase::VerifyPacketBytes,
                ),
                LaunchPhase::VerifyPacketBytes => action == LaunchAction::<F>::Perform(
                    LaunchPhase::VerifyWire,
                ),
                LaunchPhase::VerifyWire => action == LaunchAction::<F>::Perform(
                    LaunchPhase::CreateSocket,
                ),
                LaunchPhase::CreateSocket => action == LaunchAction::<F>::Perform(
                    LaunchPhase::Spawn,
                ),
                LaunchPhase::Spawn => action == LaunchAction::<F>::Perform(LaunchPhase::Start),
                LaunchPhase::Start => action == LaunchAction::<F>::Perform(LaunchPhase::Register),
                LaunchPhase::Register => action == LaunchAction::<F>::Perform(
                    LaunchPhase::Identify,
                ),
                LaunchPhase::Identify => action == LaunchAction::<F>::Perform(
                    LaunchPhase::SetDeadline,
                ),
                LaunchPhase::SetDeadline => action == LaunchAction::<F>::Perform(
                    LaunchPhase::WriteAdmission,
                ),
                LaunchPhase::WriteAdmission => action == LaunchAction::<F>::Perform(
                    LaunchPhase::SendAdmission,
                ),
                LaunchPhase::SendAdmission => action == LaunchAction::<F>::Perform(
                    LaunchPhase::OpenReads,
                ),
                LaunchPhase::OpenReads => action == LaunchAction::<F>::Serve,
            }
        }),
{
}

/// A failed launch answers with what failed: a refused start and a failed
/// admission say whether the child was waited for, everything else is told as
/// it came.
pub proof fn law_failed_launch_tells_what_failed<F>(
    phase: LaunchPhase,
    fault: SessionRuntimeError<F>,
    waited: Result<(), F>,
)
    ensures
        ({
            let told = spec_conclude_failed_launch(phase, fault, waited);
            let refused_start = phase is Start && fault is Store;
            let failed_admission = phase is SendAdmission && fault is Transport;
            &&& refused_start && waited is Ok ==> told == SessionRuntimeError::<F>::StartFailed(
                fault->Store_0,
            )
            &&& refused_start && waited is Err ==> told
                == SessionRuntimeError::<F>::StartAndCleanupFailed {
                start: fault->Store_0,
                cleanup: waited->Err_0,
            }
            &&& failed_admission && waited is Ok ==> told
                == SessionRuntimeError::<F>::AdmissionFailed { source: fault->Transport_0 }
            &&& failed_admission && waited is Err ==> told
                == SessionRuntimeError::<F>::AdmissionCleanupFailed(waited->Err_0)
            &&& !refused_start && !failed_admission ==> told == fault
        }),
{
}

/// A stopped session has an outcome exactly when its child was waited for with
/// one: at once, or behind the transport's end or the actor's proposal. How the
/// transport ended is told apart, and a proposal is kept whenever it came.
pub proof fn law_stop_tells_what_happened<F>(
    first: FirstStop<F>,
    waited: Option<Result<SupervisedProcessOutcome, F>>,
    late: Option<TerminalRequest>,
)
    ensures
        ({
            let process = stopped_process(first, waited);
            &&& first matches FirstStop::Process(Ok(outcome)) ==> process == Ok::<
                SupervisedProcessOutcome,
                SessionRuntimeError<F>,
            >(outcome)
            &&& first matches FirstStop::Process(Err(fault)) ==> process == Err::<
                SupervisedProcessOutcome,
                SessionRuntimeError<F>,
            >(SessionRuntimeError::Custody(fault))
            &&& first is Transport || first is Terminal ==> match waited {
                Some(Ok(outcome)) => process == Ok::<
                    SupervisedProcessOutcome,
                    SessionRuntimeError<F>,
                >(outcome),
                Some(Err(fault)) => process == Err::<
                    SupervisedProcessOutcome,
                    SessionRuntimeError<F>,
                >(SessionRuntimeError::Custody(fault)),
                None => process == Err::<SupervisedProcessOutcome, SessionRuntimeError<F>>(
                    SessionRuntimeError::ProcessResultChannelClosed,
                ),
            }
            &&& first is ProcessChannelClosed ==> process == Err::<
                SupervisedProcessOutcome,
                SessionRuntimeError<F>,
            >(SessionRuntimeError::ProcessResultChannelClosed)
            &&& first is TransportChannelClosed ==> process == Err::<
                SupervisedProcessOutcome,
                SessionRuntimeError<F>,
            >(SessionRuntimeError::TransportResultChannelClosed)
            &&& stopped_transport(first) is PeerDisconnected <==> first == FirstStop::<F>::Transport(
                TransportEnd::PeerClosed,
            )
            &&& stopped_transport(first) is TransportFailed <==> first == FirstStop::<F>::Transport(
                TransportEnd::Failed,
            )
            &&& first matches FirstStop::Terminal(proposal) ==> stopped_proposal(first, late)
                == Some(proposal)
            &&& !(first is Terminal) ==> stopped_proposal(first, late) == late
        }),
{
}

/// Which reason the kernel records for a session that it ended itself: a failed
/// transport before all, a cancellation before a lost peer, and the child's own
/// end only where both were sound.
pub proof fn law_infrastructure_reason_is_the_gravest(
    process: ProcessStopReason,
    transport: SessionTransportStop,
)
    ensures
        ({
            let reason = spec_infrastructure_stop_reason(process, transport);
            let sound = transport is ProcessExited;
            &&& reason == StopReason::ProtocolError <==> transport is TransportFailed || (sound
                && process is Exited)
            &&& reason == StopReason::Cancelled <==> !(transport is TransportFailed) && process
                is Cancelled
            &&& reason == StopReason::DaemonDisconnected <==> transport is PeerDisconnected && !(
            process is Cancelled)
            &&& reason == StopReason::NonZeroExit <==> sound && process is NonZeroExit
            &&& reason == StopReason::Deadline <==> sound && process is Deadline
            &&& reason == StopReason::OutputLimit <==> sound && (process is StdoutLimit || process
                is StderrLimit)
        }),
{
}

/// A terminal request can be reported exactly when its operation, where it names
/// one, and its stop reason are known and its payload decodes.
pub proof fn law_report_is_spelled_exactly_when_known(actor: TerminalRequest)
    ensures
        spells_report(actor) <==> {
            &&& actor.terminal_operation is Some ==> spec_operation_of(
                actor.terminal_operation->0@,
            ) is Some
            &&& spec_parse_stop_reason(actor.stop_reason@) is Some
            &&& decoded(encode_utf8(actor.terminal_payload_b64@)) is Ok
        },
{
}

/// The actor's attempt is committed in the actor's name as the actor put it, the
/// kernel's in the kernel's with no operation; both are of the session's packet
/// at the session's revision.
pub proof fn law_terminal_attempts_speak_for_their_side(
    attempt: TerminalAttempt,
    actor: TerminalRequest,
    session: SessionReceipt,
    packet: AssignmentPacket,
    packet_digest: ContentDigest,
    process: SupervisedProcessOutcome,
    transport: SessionTransportStop,
)
    ensures
        is_actor_attempt(attempt, actor, session, packet, packet_digest) ==> {
            &&& attempt.principal@ == "actor-session-"@ + decimal(session.session_id.value as int)
                + "-assignment-"@ + decimal(packet.assignment_id.value as int) + "-application-"@
                + decimal(packet.application_revision_id.value as int) + "-campaign-"@ + decimal(
                packet.campaign_id.value as int,
            )
            &&& attempt.command_id@ == actor.client_command_id@
            &&& attempt.report.packet_digest == packet_digest
            &&& attempt.report.expected_session_revision.revision == session.resulting_revision
            &&& attempt.report.operation is Some <==> actor.terminal_operation is Some
            &&& attempt.report.report_digest.bytes == blake3_of(
                decoded(encode_utf8(actor.terminal_payload_b64@))->Ok_0,
            )
        },
        is_infrastructure_attempt(attempt, session, packet_digest, process, transport) ==> {
            &&& attempt.principal@ == "kernel"@
            &&& attempt.command_id@ == "kernel-reconcile-session-"@ + decimal(
                session.session_id.value as int,
            )
            &&& attempt.report.packet_digest == packet_digest
            &&& attempt.report.expected_session_revision.revision == session.resulting_revision
            &&& attempt.report.operation is None
            &&& attempt.report.stop_reason != StopReason::Completed
            &&& attempt.report.report_digest.bytes == blake3_of(
                infrastructure_preimage(process, transport),
            )
        },
{
}

/// The admission line names the assignment, the packet in base64 and by digest,
/// the protocol, and the session at its revision, in one object and one line.
pub proof fn law_admission_line_names_the_session(
    assignment_id: AssignmentId,
    session_id: SessionId,
    session_revision: AggregateRevision,
    packet_digest: ContentDigest,
    packet_bytes: Seq<u8>,
)
    ensures
        admission_text(assignment_id, session_id, session_revision, packet_digest, packet_bytes)
            == "{\"assignment_id\":"@ + quoted(decimal(assignment_id.value as int))
            + ",\"packet_b64\":"@ + quoted(ascii_text(base64_of(packet_bytes)))
            + ",\"packet_digest\":"@ + quoted(hex_of(packet_digest.bytes@))
            + ",\"protocol_version\":1,\"session_id\":"@ + decimal(session_id.value as int)
            + ",\"session_revision\":"@ + decimal(session_revision.value as int)
            + ",\"type\":\"session.admitted\"}\n"@,
{
}

/// What the kernel says of a runtime that cannot be verified.
pub proof fn law_runtime_faults_are_told(error: RuntimeVerificationError)
    ensures
        error.spec_message() == (match error {
            RuntimeVerificationError::PacketBytesEmpty => "canonical packet bytes are empty"@,
            RuntimeVerificationError::PacketContract(detail) => "packet contract is invalid: "@
                + detail@,
            RuntimeVerificationError::PacketSealMismatch => {
                "packet typed seal does not match its immutable fields"@
            },
            RuntimeVerificationError::RuntimeIdentity(detail) => {
                "installed runtime identity mismatch: "@ + detail@
            },
        }),
{
}

/// The kernel's own report is written over how the child and its transport
/// ended, what was captured, and a word of its own where there is no status.
pub proof fn law_infrastructure_report_is_written_in_order(
    process: SupervisedProcessOutcome,
    transport: SessionTransportStop,
)
    ensures
        infrastructure_preimage(process, transport) == encode_utf8(
            "factory-session-infrastructure-terminal-v1\0"@,
        ) + (seq![
            match process.reason {
                ProcessStopReason::Exited => 0u8,
                ProcessStopReason::NonZeroExit => 1,
                ProcessStopReason::Cancelled => 2,
                ProcessStopReason::Deadline => 3,
                ProcessStopReason::StdoutLimit => 4,
                ProcessStopReason::StderrLimit => 5,
            },
        ] + (seq![
            match transport {
                SessionTransportStop::ProcessExited => 0u8,
                SessionTransportStop::PeerDisconnected => 1,
                SessionTransportStop::TransportFailed => 2,
            },
        ] + (be_i32(
            match process.exit_code {
                Some(status) => status,
                None => -2_147_483_648i32,
            },
        ) + (be_i32(
            match process.signal {
                Some(status) => status,
                None => -2_147_483_648i32,
            },
        ) + (be64(process.stdout_bytes) + be64(process.stderr_bytes)))))),
{
}

/// A registry registers a session exactly when it holds a handle for it, and an
/// empty one registers none.
pub proof fn law_registered_session_has_a_handle<H>(
    registry: ActiveSessionCancellationRegistry<H>,
    session_id: SessionId,
)
    ensures
        registry.registers(session_id) <==> exists|handle: H| registry.holds(session_id, handle),
        registry.entries@.len() == 0 ==> !registry.registers(session_id),
        registry.registers(session_id) ==> exists|i: int|
            0 <= i < registry.entries@.len() && (#[trigger] registry.entries@[i]).0 == session_id,
{
    if registry.registers(session_id) {
        let at = choose|i: int|
            0 <= i < registry.entries@.len() && (#[trigger] registry.entries@[i]).0 == session_id;
        let entry = registry.entries@[at];
        assert(registry.entries@.contains((session_id, entry.1)));
        assert(registry.holds(session_id, entry.1));
    }
    if exists|handle: H| registry.holds(session_id, handle) {
        let handle = choose|handle: H| registry.holds(session_id, handle);
        let at = choose|at: int|
            0 <= at < registry.entries@.len() && registry.entries@[at] == (session_id, handle);
        assert(registry.entries@[at].0 == session_id);
    }
}

} // verus!
