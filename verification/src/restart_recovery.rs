//! Reconciliation of paid sessions after a daemon restart: exact process
//! groups, recovered evidence, and the closed terminal report.

use vstd::prelude::*;
use vstd::string::StringExecFns;
use vstd::utf8::{
    decode_utf8, encode_utf8, is_char_boundary, is_char_boundary_iff_not_is_continuation_byte,
    pop_first_scalar, valid_utf8, valid_utf8_split,
};

use crate::digest::{blake3_of, ContentDigest};
use crate::encoding::{be32, be64, be_i64, push_i64, push_u32, push_u64};
use crate::identity::{CasArtifact, ExpectedRevision, SessionId};
use crate::json::{is_json_text, json_accepts, numbers_fit, numbers_ok};
use crate::path::{byte_views, split_bytes, split_on};
use crate::protocol::{ProcessCustody, StopReason, TerminalReport};
use crate::session::RestartRecoverySession;
use crate::terminal::{TerminalArtifactSeals, TerminalReceipt};
use crate::text::{decimal, push_bytes, push_decimal_i64, push_text, utf8_text};

verus! {

/// Principal under which recovery writes.
pub const RECOVERY_PRINCIPAL: &'static str = "kernel";

/// Directory below the runtime root that holds recovery evidence.
pub const RECOVERY_STAGING_DIRECTORY: &'static str = "restart-recovery";

/// Why recovery is refused.
#[allow(inconsistent_fields)]
#[derive(Clone, Copy, Debug, PartialEq, Eq, Structural)]
pub enum RestartRecoveryError {
    ZeroTerminationGrace,
    ZeroPollInterval,
    /// The persisted custody is not a direct child leading its own group.
    InvalidCustody { custody: ProcessCustody },
    PidOutOfRange { value: u32 },
    /// The persisted process now belongs to another group.
    PidGroupMismatch { pid: u32, expected_pgid: u32, observed_pgid: u32 },
    /// The leader is gone while a group of its identity answers signals.
    LeaderMissingGroupSurvives { pid: u32, pgid: u32 },
    GroupSurvivedKill { pid: u32, pgid: u32 },
    /// Recovered bytes changed before they could be linked.
    RecoveredArtifactChanged,
    /// The required-read assertion differs from its registered artifact.
    RecoveryAssertionChanged,
    PartialTranscriptUtf8,
    PartialTranscriptTruncated,
    PartialTranscriptBlankRecord,
    PartialTranscriptInvalidJson,
}

/// Bounds on the observation of a process group. Durations are nanoseconds.
#[derive(Clone, Copy, Debug, PartialEq, Eq, Structural)]
pub struct RestartRecoveryPolicy {
    pub termination_grace_nanos: u128,
    pub poll_interval_nanos: u128,
}

impl RestartRecoveryPolicy {
    pub open spec fn well_formed(&self) -> bool {
        self.termination_grace_nanos > 0 && self.poll_interval_nanos > 0
    }

    pub fn new(termination_grace_nanos: u128, poll_interval_nanos: u128) -> (result: Result<
        RestartRecoveryPolicy,
        RestartRecoveryError,
    >)
        ensures
            result == (if termination_grace_nanos == 0 {
                Err::<RestartRecoveryPolicy, RestartRecoveryError>(
                    RestartRecoveryError::ZeroTerminationGrace,
                )
            } else if poll_interval_nanos == 0 {
                Err(RestartRecoveryError::ZeroPollInterval)
            } else {
                Ok(RestartRecoveryPolicy { termination_grace_nanos, poll_interval_nanos })
            }),
            result matches Ok(policy) ==> policy.well_formed(),
    {
        if termination_grace_nanos == 0 {
            return Err(RestartRecoveryError::ZeroTerminationGrace);
        }
        if poll_interval_nanos == 0 {
            return Err(RestartRecoveryError::ZeroPollInterval);
        }
        Ok(RestartRecoveryPolicy { termination_grace_nanos, poll_interval_nanos })
    }

    /// A quarter of a second of grace, polled every ten milliseconds.
    pub fn bounded_default() -> (policy: RestartRecoveryPolicy)
        ensures
            policy == (RestartRecoveryPolicy {
                termination_grace_nanos: 250_000_000,
                poll_interval_nanos: 10_000_000,
            }),
            policy.well_formed(),
    {
        RestartRecoveryPolicy {
            termination_grace_nanos: 250_000_000,
            poll_interval_nanos: 10_000_000,
        }
    }
}

/// What recovery observed of one exact group. None of these claims that a
/// child was reaped.
#[derive(Clone, Copy, Debug, PartialEq, Eq, Structural)]
pub enum ProcessGroupObservation {
    /// No signalable member existed at the first inspection.
    Absent,
    TerminatedAfterTerm,
    TerminatedAfterKill,
}

/// What is known of the persisted leader.
#[derive(Clone, Copy, Debug, PartialEq, Eq, Structural)]
pub enum LeaderObservation {
    /// It lives in this group.
    InGroup(u32),
    Missing,
}

/// How far the termination of a group has come.
#[derive(Clone, Copy, Debug, PartialEq, Eq, Structural)]
pub enum GroupPhase {
    TermSent,
    KillSent,
}

/// What recovery does next with a group.
#[derive(Clone, Copy, Debug, PartialEq, Eq, Structural)]
pub enum GroupAction {
    Done(ProcessGroupObservation),
    SignalTerm,
    SignalKill,
}

/// The identifier of a persisted group, where the custody is that of a direct
/// child leading its own group.
pub open spec fn spec_owned_group(custody: ProcessCustody) -> Result<i32, RestartRecoveryError> {
    if custody.pid == 0 || custody.pgid == 0 || custody.pid != custody.pgid {
        Err(RestartRecoveryError::InvalidCustody { custody })
    } else if custody.pid > i32::MAX {
        Err(RestartRecoveryError::PidOutOfRange { value: custody.pid })
    } else {
        Ok(custody.pgid as i32)
    }
}

/// Reads the identifier of a persisted group.
pub fn owned_group(custody: ProcessCustody) -> (result: Result<i32, RestartRecoveryError>)
    ensures
        result == spec_owned_group(custody),
{
    if custody.pid == 0 || custody.pgid == 0 || custody.pid != custody.pgid {
        return Err(RestartRecoveryError::InvalidCustody { custody });
    }
    if custody.pid > i32::MAX as u32 {
        return Err(RestartRecoveryError::PidOutOfRange { value: custody.pid });
    }
    Ok(custody.pgid as i32)
}

/// What the first inspection of a group leads to.
pub open spec fn spec_inspect_group(
    custody: ProcessCustody,
    leader: LeaderObservation,
    group_exists: bool,
) -> Result<GroupAction, RestartRecoveryError> {
    match spec_owned_group(custody) {
        Err(error) => Err(error),
        Ok(_) => match leader {
            LeaderObservation::InGroup(observed) => if observed != custody.pgid {
                Err(
                    RestartRecoveryError::PidGroupMismatch {
                        pid: custody.pid,
                        expected_pgid: custody.pgid,
                        observed_pgid: observed,
                    },
                )
            } else if group_exists {
                Ok(GroupAction::SignalTerm)
            } else {
                Ok(GroupAction::Done(ProcessGroupObservation::Absent))
            },
            LeaderObservation::Missing => if group_exists {
                Err(
                    RestartRecoveryError::LeaderMissingGroupSurvives {
                        pid: custody.pid,
                        pgid: custody.pgid,
                    },
                )
            } else {
                Ok(GroupAction::Done(ProcessGroupObservation::Absent))
            },
        },
    }
}

/// Decides what the first inspection of a group leads to.
pub fn inspect_group(custody: ProcessCustody, leader: LeaderObservation, group_exists: bool) -> (result:
    Result<GroupAction, RestartRecoveryError>)
    ensures
        result == spec_inspect_group(custody, leader, group_exists),
{
    match owned_group(custody) {
        Err(error) => return Err(error),
        Ok(_) => {},
    }
    match leader {
        LeaderObservation::InGroup(observed) => {
            if observed != custody.pgid {
                return Err(
                    RestartRecoveryError::PidGroupMismatch {
                        pid: custody.pid,
                        expected_pgid: custody.pgid,
                        observed_pgid: observed,
                    },
                );
            }
            if group_exists {
                Ok(GroupAction::SignalTerm)
            } else {
                Ok(GroupAction::Done(ProcessGroupObservation::Absent))
            }
        },
        LeaderObservation::Missing => if group_exists {
            Err(
                RestartRecoveryError::LeaderMissingGroupSurvives {
                    pid: custody.pid,
                    pgid: custody.pgid,
                },
            )
        } else {
            Ok(GroupAction::Done(ProcessGroupObservation::Absent))
        },
    }
}

/// What a poll of a signalled group leads to.
#[derive(Clone, Copy, Debug, PartialEq, Eq, Structural)]
pub enum AbsenceStep {
    Absent,
    Expired,
    Sleep { nanos: u128 },
}

pub open spec fn spec_absence_step(
    policy: RestartRecoveryPolicy,
    group_exists: bool,
    elapsed_nanos: u128,
) -> AbsenceStep {
    if !group_exists {
        AbsenceStep::Absent
    } else if elapsed_nanos >= policy.termination_grace_nanos {
        AbsenceStep::Expired
    } else if policy.poll_interval_nanos <= policy.termination_grace_nanos - elapsed_nanos {
        AbsenceStep::Sleep { nanos: policy.poll_interval_nanos }
    } else {
        AbsenceStep::Sleep { nanos: (policy.termination_grace_nanos - elapsed_nanos) as u128 }
    }
}

/// Polls a signalled group until it is gone or its grace has passed; a sleep
/// never outlasts the grace.
pub fn wait_for_group_absence(
    policy: RestartRecoveryPolicy,
    group_exists: bool,
    elapsed_nanos: u128,
) -> (step: AbsenceStep)
    ensures
        step == spec_absence_step(policy, group_exists, elapsed_nanos),
{
    if !group_exists {
        return AbsenceStep::Absent;
    }
    if elapsed_nanos >= policy.termination_grace_nanos {
        return AbsenceStep::Expired;
    }
    let left: u128 = policy.termination_grace_nanos - elapsed_nanos;
    if policy.poll_interval_nanos <= left {
        AbsenceStep::Sleep { nanos: policy.poll_interval_nanos }
    } else {
        AbsenceStep::Sleep { nanos: left }
    }
}

/// What the end of an observation window leads to.
pub open spec fn spec_conclude_wait(custody: ProcessCustody, phase: GroupPhase, absent: bool) -> Result<
    GroupAction,
    RestartRecoveryError,
> {
    match (phase, absent) {
        (GroupPhase::TermSent, true) => Ok(
            GroupAction::Done(ProcessGroupObservation::TerminatedAfterTerm),
        ),
        (GroupPhase::TermSent, false) => Ok(GroupAction::SignalKill),
        (GroupPhase::KillSent, true) => Ok(
            GroupAction::Done(ProcessGroupObservation::TerminatedAfterKill),
        ),
        (GroupPhase::KillSent, false) => Err(
            RestartRecoveryError::GroupSurvivedKill { pid: custody.pid, pgid: custody.pgid },
        ),
    }
}

/// Decides what the end of an observation window leads to.
pub fn conclude_wait(custody: ProcessCustody, phase: GroupPhase, absent: bool) -> (result: Result<
    GroupAction,
    RestartRecoveryError,
>)
    ensures
        result == spec_conclude_wait(custody, phase, absent),
{
    match phase {
        GroupPhase::TermSent => if absent {
            Ok(GroupAction::Done(ProcessGroupObservation::TerminatedAfterTerm))
        } else {
            Ok(GroupAction::SignalKill)
        },
        GroupPhase::KillSent => if absent {
            Ok(GroupAction::Done(ProcessGroupObservation::TerminatedAfterKill))
        } else {
            Err(RestartRecoveryError::GroupSurvivedKill { pid: custody.pid, pgid: custody.pgid })
        },
    }
}

/// Nothing is signalled unless the persisted process leads its own group and
/// still lives in exactly that group; KILL follows only an expired TERM.
pub proof fn law_only_the_exact_group_is_signalled(
    custody: ProcessCustody,
    leader: LeaderObservation,
    group_exists: bool,
    phase: GroupPhase,
    absent: bool,
)
    ensures
        spec_inspect_group(custody, leader, group_exists) == Ok::<
            GroupAction,
            RestartRecoveryError,
        >(GroupAction::SignalTerm) ==> custody.pid == custody.pgid && custody.pid != 0 && leader
            == LeaderObservation::InGroup(custody.pgid) && group_exists,
        spec_inspect_group(custody, leader, group_exists) != Ok::<
            GroupAction,
            RestartRecoveryError,
        >(GroupAction::SignalKill),
        spec_conclude_wait(custody, phase, absent) == Ok::<GroupAction, RestartRecoveryError>(
            GroupAction::SignalKill,
        ) ==> phase == GroupPhase::TermSent && !absent,
{
}

/// A line without the carriage return before its line feed.
pub open spec fn without_return(line: Seq<u8>) -> Seq<u8> {
    if line.len() > 0 && line.last() == 0x0d {
        line.drop_last()
    } else {
        line
    }
}

/// The records of a transcript that ends with a line feed.
pub open spec fn transcript_records(bytes: Seq<u8>) -> Seq<Seq<u8>> {
    split_on(bytes, 0x0a).drop_last().map_values(|line: Seq<u8>| without_return(line))
}

/// Whether the JSON reader can count the digits of every number of every
/// record, where the records are looked at.
pub open spec fn records_fit(bytes: Seq<u8>) -> bool {
    bytes.len() > 0 && valid_utf8(bytes) && bytes.last() == 0x0a ==> forall|i: int|
        0 <= i < transcript_records(bytes).len() ==> numbers_fit(
            #[trigger] transcript_records(bytes)[i],
        )
}

/// How a record is judged, given whether it was read as JSON.
pub open spec fn spec_judge_record(record: Seq<u8>, accepted: bool) -> Result<
    (),
    RestartRecoveryError,
> {
    if record.len() == 0 {
        Err(RestartRecoveryError::PartialTranscriptBlankRecord)
    } else if !accepted {
        Err(RestartRecoveryError::PartialTranscriptInvalidJson)
    } else {
        Ok(())
    }
}

/// Judges one record.
pub fn judge_record(record: &[u8], accepted: bool) -> (result: Result<(), RestartRecoveryError>)
    ensures
        result == spec_judge_record(record@, accepted),
{
    if record.len() == 0 {
        Err(RestartRecoveryError::PartialTranscriptBlankRecord)
    } else if !accepted {
        Err(RestartRecoveryError::PartialTranscriptInvalidJson)
    } else {
        Ok(())
    }
}

/// The first refusal among records, from `from` on.
pub open spec fn spec_judge_records(records: Seq<Seq<u8>>, from: int) -> Result<
    (),
    RestartRecoveryError,
>
    decreases records.len() - from,
{
    if from >= records.len() {
        Ok(())
    } else {
        match spec_judge_record(records[from], is_json_text(decode_utf8(records[from]))) {
            Err(error) => Err(error),
            Ok(()) => spec_judge_records(records, from + 1),
        }
    }
}

/// Whether a partial transcript is readable: empty, or UTF-8 lines, each ended
/// by a line feed and each one nonempty JSON value.
pub open spec fn spec_partial_ndjson(bytes: Seq<u8>) -> Result<(), RestartRecoveryError> {
    if bytes.len() == 0 {
        Ok(())
    } else if !valid_utf8(bytes) {
        Err(RestartRecoveryError::PartialTranscriptUtf8)
    } else if bytes.last() != 0x0a {
        Err(RestartRecoveryError::PartialTranscriptTruncated)
    } else {
        spec_judge_records(transcript_records(bytes), 0)
    }
}

proof fn lemma_split_nonempty(bytes: Seq<u8>)
    ensures
        split_on(bytes, 0x0a).len() > 0,
    decreases bytes.len(),
{
    if bytes.len() > 0 {
        lemma_split_nonempty(bytes.drop_last());
    }
}

proof fn lemma_split_at(front: Seq<u8>, back: Seq<u8>)
    ensures
        split_on(front.push(0x0a) + back, 0x0a) == split_on(front, 0x0a) + split_on(back, 0x0a),
    decreases back.len(),
{
    let whole = front.push(0x0a) + back;
    if back.len() == 0 {
        assert(whole =~= front.push(0x0a));
        assert(whole.drop_last() =~= front);
        assert(split_on(whole, 0x0a) =~= split_on(front, 0x0a) + split_on(back, 0x0a));
    } else {
        lemma_split_at(front, back.drop_last());
        lemma_split_nonempty(back.drop_last());
        assert(whole.drop_last() =~= front.push(0x0a) + back.drop_last());
        assert(whole.last() == back.last());
        let left = split_on(front, 0x0a);
        let right = split_on(back.drop_last(), 0x0a);
        let both = left + right;
        assert(both.last() == right.last());
        assert(both.drop_last() =~= left + right.drop_last());
        assert(split_on(whole, 0x0a) =~= left + split_on(back, 0x0a));
    }
}

proof fn lemma_split_without_feed(bytes: Seq<u8>)
    requires
        !bytes.contains(0x0au8),
    ensures
        split_on(bytes, 0x0a) == seq![bytes],
    decreases bytes.len(),
{
    if bytes.len() > 0 {
        assert(!bytes.drop_last().contains(0x0au8)) by {
            if bytes.drop_last().contains(0x0au8) {
                let i = choose|i: int|
                    0 <= i < bytes.drop_last().len() && bytes.drop_last()[i] == 0x0au8;
                assert(bytes[i] == 0x0au8);
            }
        }
        lemma_split_without_feed(bytes.drop_last());
        assert(bytes.last() != 0x0a) by {
            assert(bytes[bytes.len() - 1] == bytes.last());
        }
        assert(bytes.drop_last().push(bytes.last()) =~= bytes);
        assert(split_on(bytes, 0x0a) =~= seq![bytes]);
    } else {
        assert(bytes =~= Seq::<u8>::empty());
    }
}

proof fn lemma_parts_valid(bytes: Seq<u8>, at: int)
    requires
        valid_utf8(bytes),
        0 <= at < split_on(bytes, 0x0a).len(),
    ensures
        valid_utf8(split_on(bytes, 0x0a)[at]),
    decreases bytes.len(),
{
    if bytes.contains(0x0au8) {
        let k = choose|k: int| 0 <= k < bytes.len() && bytes[k] == 0x0au8;
        let front = bytes.subrange(0, k);
        let tail = bytes.subrange(k, bytes.len() as int);
        let back = bytes.subrange(k + 1, bytes.len() as int);
        is_char_boundary_iff_not_is_continuation_byte(bytes, k);
        assert(is_char_boundary(bytes, k));
        valid_utf8_split(bytes, k);
        assert(tail[0] == 0x0au8);
        assert(pop_first_scalar(tail) =~= back);
        assert(valid_utf8(back));
        assert(bytes =~= front.push(0x0a) + back);
        lemma_split_at(front, back);
        let left = split_on(front, 0x0a);
        if at < left.len() {
            lemma_parts_valid(front, at);
        } else {
            lemma_parts_valid(back, at - left.len());
        }
    } else {
        lemma_split_without_feed(bytes);
    }
}

proof fn lemma_without_return_valid(line: Seq<u8>)
    requires
        valid_utf8(line),
    ensures
        valid_utf8(without_return(line)),
{
    if line.len() > 0 && line.last() == 0x0d {
        let k = line.len() - 1;
        assert(line[k] == 0x0d);
        is_char_boundary_iff_not_is_continuation_byte(line, k);
        assert(is_char_boundary(line, k));
        valid_utf8_split(line, k);
        assert(line.subrange(0, k) =~= line.drop_last());
    }
}

fn strip_return(line: &Vec<u8>) -> (record: Vec<u8>)
    ensures
        record@ == without_return(line@),
{
    let mut record: Vec<u8> = Vec::new();
    push_bytes(&mut record, line.as_slice());
    assert(record@ =~= line@);
    if line.len() > 0 && line[line.len() - 1] == 0x0d {
        let _ = record.pop();
        assert(record@ =~= line@.drop_last());
    }
    record
}

/// The verdict on records from `from` on, where there is one. The first record
/// that is blank or no JSON decides; there is no verdict where a number that
/// the JSON reader cannot count comes before it.
pub open spec fn spec_judged_records(records: Seq<Seq<u8>>, from: int) -> Option<
    Result<(), RestartRecoveryError>,
>
    decreases records.len() - from,
{
    if from >= records.len() {
        Some(Ok(()))
    } else if !numbers_fit(records[from]) {
        None
    } else {
        match spec_judge_record(records[from], is_json_text(decode_utf8(records[from]))) {
            Err(error) => Some(Err(error)),
            Ok(()) => spec_judged_records(records, from + 1),
        }
    }
}

/// The verdict on a partial transcript, where there is one.
pub open spec fn spec_judged_ndjson(bytes: Seq<u8>) -> Option<Result<(), RestartRecoveryError>> {
    if bytes.len() == 0 || !valid_utf8(bytes) || bytes.last() != 0x0a {
        Some(spec_partial_ndjson(bytes))
    } else {
        spec_judged_records(transcript_records(bytes), 0)
    }
}

/// A verdict is the one the transcript deserves, and there is one wherever
/// every number can be counted.
pub proof fn law_verdict_is_exact(bytes: Seq<u8>)
    ensures
        spec_judged_ndjson(bytes) is Some ==> spec_judged_ndjson(bytes) == Some(
            spec_partial_ndjson(bytes),
        ),
        records_fit(bytes) ==> spec_judged_ndjson(bytes) is Some,
{
    lemma_verdict_is_exact(transcript_records(bytes), 0);
}

proof fn lemma_verdict_is_exact(records: Seq<Seq<u8>>, from: int)
    requires
        0 <= from,
    ensures
        spec_judged_records(records, from) is Some ==> spec_judged_records(records, from) == Some(
            spec_judge_records(records, from),
        ),
        (forall|i: int| 0 <= i < records.len() ==> numbers_fit(#[trigger] records[i]))
            ==> spec_judged_records(records, from) is Some,
    decreases records.len() - from,
{
    if from < records.len() {
        lemma_verdict_is_exact(records, from + 1);
    }
}

/// Judges a partial transcript line by line. There is no verdict where a number
/// that the JSON reader cannot count comes before the first bad record.
pub fn judge_partial_ndjson(bytes: &[u8]) -> (verdict: Option<Result<(), RestartRecoveryError>>)
    ensures
        verdict == spec_judged_ndjson(bytes@),
{
    if bytes.len() == 0 {
        return Some(Ok(()));
    }
    if utf8_text(bytes).is_none() {
        return Some(Err(RestartRecoveryError::PartialTranscriptUtf8));
    }
    if bytes[bytes.len() - 1] != 0x0a {
        return Some(Err(RestartRecoveryError::PartialTranscriptTruncated));
    }
    let lines = split_bytes(bytes, 0x0a);
    let ghost split = split_on(bytes@, 0x0a);
    let ghost records = transcript_records(bytes@);
    proof {
        lemma_split_nonempty(bytes@);
        assert(split.len() == lines@.len());
        assert(records.len() == lines@.len() - 1);
    }
    let count: usize = lines.len() - 1;
    let mut index: usize = 0;
    while index < count
        invariant
            index <= count,
            count == lines@.len() - 1,
            bytes@.len() > 0,
            bytes@.last() == 0x0a,
            valid_utf8(bytes@),
            byte_views(lines@) == split,
            split == split_on(bytes@, 0x0a),
            split.len() == lines@.len(),
            records == transcript_records(bytes@),
            records.len() == count,
            spec_judged_records(records, 0) == spec_judged_records(records, index as int),
        decreases count - index,
    {
        let record = strip_return(&lines[index]);
        proof {
            assert(split[index as int] == lines@[index as int]@);
            assert(split.drop_last()[index as int] == split[index as int]);
            assert(records[index as int] == record@);
            lemma_parts_valid(bytes@, index as int);
            lemma_without_return_valid(split[index as int]);
        }
        if !numbers_ok(record.as_slice()) {
            return None;
        }
        let accepted = match utf8_text(record.as_slice()) {
            Some(text) => {
                proof {
                    vstd::utf8::encode_utf8_decode_utf8(text@);
                }
                json_accepts(text)
            },
            None => false,
        };
        match judge_record(record.as_slice(), accepted) {
            Ok(()) => {},
            Err(error) => return Some(Err(error)),
        }
        index += 1;
    }
    Some(Ok(()))
}

/// Refuses a partial transcript that is not readable line by line.
pub fn validate_partial_ndjson(bytes: &[u8]) -> (result: Result<(), RestartRecoveryError>)
    requires
        records_fit(bytes@),
    ensures
        result == spec_partial_ndjson(bytes@),
{
    proof {
        law_verdict_is_exact(bytes@);
    }
    judge_partial_ndjson(bytes).unwrap()
}

/// An unreadable partial transcript is set aside; any other refusal stands.
pub fn keeps_partial_transcript(verdict: Result<(), RestartRecoveryError>) -> (result: Result<
    bool,
    RestartRecoveryError,
>)
    ensures
        result == (match verdict {
            Ok(()) => Ok::<bool, RestartRecoveryError>(true),
            Err(RestartRecoveryError::PartialTranscriptUtf8)
            | Err(RestartRecoveryError::PartialTranscriptTruncated)
            | Err(RestartRecoveryError::PartialTranscriptBlankRecord)
            | Err(RestartRecoveryError::PartialTranscriptInvalidJson) => Ok(false),
            Err(error) => Err(error),
        }),
{
    match verdict {
        Ok(()) => Ok(true),
        Err(RestartRecoveryError::PartialTranscriptUtf8)
        | Err(RestartRecoveryError::PartialTranscriptTruncated)
        | Err(RestartRecoveryError::PartialTranscriptBlankRecord)
        | Err(RestartRecoveryError::PartialTranscriptInvalidJson) => Ok(false),
        Err(error) => Err(error),
    }
}

/// The text that stands in for a stream that was not captured.
pub open spec fn stream_placeholder_text(session_id: SessionId, stream: Seq<char>) -> Seq<char> {
    "factory-restart-stream-unavailable-v1\nsession_id="@ + decimal(session_id.value as int)
        + "\nstream="@ + stream + "\n"@
}

/// The record that stands in for a transcript that was not recovered.
pub open spec fn transcript_placeholder_text(session_id: SessionId) -> Seq<char> {
    "{\"kind\":\"factory.restart.transcript_unavailable.v1\",\"session_id\":"@ + decimal(
        session_id.value as int,
    ) + "}\n"@
}

/// Bytes that stand in for a stream that was not captured.
pub fn recovery_stream_placeholder(session_id: SessionId, stream: &str) -> (bytes: Vec<u8>)
    ensures
        bytes@ == encode_utf8(stream_placeholder_text(session_id, stream@)),
{
    let mut text = String::new();
    text.append("factory-restart-stream-unavailable-v1\nsession_id=");
    push_decimal_i64(&mut text, session_id.value);
    text.append("\nstream=");
    text.append(stream);
    text.append("\n");
    assert(text@ =~= stream_placeholder_text(session_id, stream@));
    let mut bytes: Vec<u8> = Vec::new();
    push_text(&mut bytes, text.as_str());
    assert(bytes@ =~= encode_utf8(text@));
    bytes
}

/// Bytes that stand in for a transcript that was not recovered.
pub fn recovery_transcript_placeholder(session_id: SessionId) -> (bytes: Vec<u8>)
    ensures
        bytes@ == encode_utf8(transcript_placeholder_text(session_id)),
{
    let mut text = String::new();
    text.append("{\"kind\":\"factory.restart.transcript_unavailable.v1\",\"session_id\":");
    push_decimal_i64(&mut text, session_id.value);
    text.append("}\n");
    assert(text@ =~= transcript_placeholder_text(session_id));
    let mut bytes: Vec<u8> = Vec::new();
    push_text(&mut bytes, text.as_str());
    assert(bytes@ =~= encode_utf8(text@));
    bytes
}

/// The command ID under which a recovered session is closed.
pub fn restart_command_id(session_id: SessionId) -> (text: String)
    ensures
        text@ == "kernel-restart-session-"@ + decimal(session_id.value as int),
{
    let mut text = String::new();
    text.append("kernel-restart-session-");
    push_decimal_i64(&mut text, session_id.value);
    assert(text@ =~= "kernel-restart-session-"@ + decimal(session_id.value as int));
    text
}

/// The command ID under which recovered evidence of one role is registered.
pub fn restart_role_command_id(session_id: SessionId, role: &str) -> (text: String)
    ensures
        text@ == "kernel-restart-session-"@ + decimal(session_id.value as int) + "-"@ + role@,
{
    let mut text = restart_command_id(session_id);
    text.append("-");
    text.append(role);
    text
}

/// The bytes a restart report is identified by.
pub open spec fn restart_report_preimage(session: RestartRecoverySession) -> Seq<u8> {
    encode_utf8("factory-daemon-restart-terminal-v1\0"@) + (be_i64(session.session_id.value) + (
    session.packet.packet_digest.bytes@ + (be32(session.custody.pid) + (be32(session.custody.pgid)
        + be64(session.custody.started_at_unix_millis)))))
}

/// Digest of the report that closes a recovered session.
pub fn restart_report_digest(session: &RestartRecoverySession) -> (digest: ContentDigest)
    ensures
        digest.bytes == blake3_of(restart_report_preimage(*session)),
{
    let mut bytes: Vec<u8> = Vec::new();
    push_text(&mut bytes, "factory-daemon-restart-terminal-v1\0");
    push_i64(&mut bytes, session.session_id.value);
    push_bytes(&mut bytes, session.packet.packet_digest.bytes.as_slice());
    push_u32(&mut bytes, session.custody.pid);
    push_u32(&mut bytes, session.custody.pgid);
    push_u64(&mut bytes, session.custody.started_at_unix_millis);
    assert(bytes@ =~= restart_report_preimage(*session));
    ContentDigest::of_bytes(bytes.as_slice())
}

/// The report that closes a recovered session: no operation, and the daemon's
/// own disconnection.
pub fn restart_terminal_report(session: &RestartRecoverySession) -> (report: TerminalReport)
    ensures
        report.packet_digest == session.packet.packet_digest,
        report.expected_session_revision.revision == session.expected_session_revision,
        report.operation is None,
        report.stop_reason == StopReason::DaemonDisconnected,
        report.report_digest.bytes == blake3_of(restart_report_preimage(*session)),
{
    TerminalReport {
        packet_digest: session.packet.packet_digest,
        expected_session_revision: ExpectedRevision::new(session.expected_session_revision),
        operation: None,
        stop_reason: StopReason::DaemonDisconnected,
        report_digest: restart_report_digest(session),
    }
}

/// A recovered stream or transcript, and where it came from.
#[derive(Clone, Copy, Debug, PartialEq, Eq)]
pub enum RecoveredArtifact {
    /// The staged file the session left behind.
    Staged(CasArtifact),
    /// A placeholder written by recovery.
    Placeholder(CasArtifact),
}

impl RecoveredArtifact {
    pub open spec fn spec_seal(self) -> CasArtifact {
        match self {
            RecoveredArtifact::Staged(seal) => seal,
            RecoveredArtifact::Placeholder(seal) => seal,
        }
    }

    pub fn seal(self) -> (seal: CasArtifact)
        ensures
            seal == self.spec_seal(),
    {
        match self {
            RecoveredArtifact::Staged(seal) => seal,
            RecoveredArtifact::Placeholder(seal) => seal,
        }
    }
}

/// The seals a recovered session is closed with. A staged transcript is
/// partial by nature; a placeholder is no transcript of the session at all.
pub fn restart_terminal_seals(
    stdout: RecoveredArtifact,
    stderr: RecoveredArtifact,
    transcript: RecoveredArtifact,
) -> (seals: TerminalArtifactSeals)
    ensures
        seals.stdout == stdout.spec_seal(),
        seals.stderr == stderr.spec_seal(),
        seals.transcript == transcript.spec_seal(),
        seals.execution_summary is None,
        seals.partial_transcript == (match transcript {
            RecoveredArtifact::Staged(seal) => Some(seal),
            RecoveredArtifact::Placeholder(_) => None,
        }),
{
    TerminalArtifactSeals {
        transcript: transcript.seal(),
        execution_summary: None,
        stdout: stdout.seal(),
        stderr: stderr.seal(),
        partial_transcript: match transcript {
            RecoveredArtifact::Staged(seal) => Some(seal),
            RecoveredArtifact::Placeholder(_) => None,
        },
    }
}

/// Refuses recovered bytes that differ from the ones first looked at.
pub fn check_recovered_artifact(registered: &CasArtifact, physical: &CasArtifact) -> (result: Result<
    (),
    RestartRecoveryError,
>)
    ensures
        result == (if *registered == *physical {
            Ok::<(), RestartRecoveryError>(())
        } else {
            Err(RestartRecoveryError::RecoveredArtifactChanged)
        }),
{
    if registered.same(physical) {
        Ok(())
    } else {
        Err(RestartRecoveryError::RecoveredArtifactChanged)
    }
}

/// Refuses a required-read assertion that differs from its artifact.
pub fn check_recovery_assertion(registered: &CasArtifact, assertion: &CasArtifact) -> (result: Result<
    (),
    RestartRecoveryError,
>)
    ensures
        result == (if *registered == *assertion {
            Ok::<(), RestartRecoveryError>(())
        } else {
            Err(RestartRecoveryError::RecoveryAssertionChanged)
        }),
{
    if registered.same(assertion) {
        Ok(())
    } else {
        Err(RestartRecoveryError::RecoveryAssertionChanged)
    }
}

/// A piece of evidence a recovered session is closed with.
#[derive(Clone, Copy, Debug, PartialEq, Eq, Structural)]
pub enum RecoveryItem {
    Stdout,
    Stderr,
    Transcript,
}

/// How far the recovery of one piece of evidence has come.
#[derive(Clone, Copy, Debug, PartialEq, Eq)]
pub enum EvidenceProgress {
    Unseen,
    /// The session left a usable file in its staging directory.
    Staged,
    /// The session left none.
    Missing,
    Sealed(RecoveredArtifact),
}

/// How far the recovery of one session has come.
#[derive(Clone, Copy, Debug, PartialEq, Eq)]
pub struct RecoveryProgress {
    pub stdout: EvidenceProgress,
    pub stderr: EvidenceProgress,
    pub transcript: EvidenceProgress,
    pub assertion_sealed: bool,
}

/// What recovery does next.
pub enum RecoveryAction {
    /// Look for a file in the session's staging directory. A transcript is
    /// usable only if it is structurally readable.
    Inspect { item: RecoveryItem, file: &'static str },
    /// Seal and register the file of the session's staging directory.
    Adopt { item: RecoveryItem, file: &'static str, role: &'static str },
    /// Write, seal and register a file of the recovery directory.
    WritePlaceholder {
        item: RecoveryItem,
        file: &'static str,
        bytes: Vec<u8>,
        role: &'static str,
    },
    /// Seal an assertion that no required read was made.
    SealAssertion,
    /// End the session.
    Commit { seals: TerminalArtifactSeals, report: TerminalReport },
}

impl RecoveryProgress {
    /// Nothing has been looked at.
    pub fn new() -> (progress: RecoveryProgress)
        ensures
            progress == (RecoveryProgress {
                stdout: EvidenceProgress::Unseen,
                stderr: EvidenceProgress::Unseen,
                transcript: EvidenceProgress::Unseen,
                assertion_sealed: false,
            }),
    {
        RecoveryProgress {
            stdout: EvidenceProgress::Unseen,
            stderr: EvidenceProgress::Unseen,
            transcript: EvidenceProgress::Unseen,
            assertion_sealed: false,
        }
    }

    /// How far one piece of evidence has come.
    pub open spec fn of(self, item: RecoveryItem) -> EvidenceProgress {
        match item {
            RecoveryItem::Stdout => self.stdout,
            RecoveryItem::Stderr => self.stderr,
            RecoveryItem::Transcript => self.transcript,
        }
    }

    /// The first piece of evidence that is not sealed.
    pub open spec fn pending(self) -> Option<RecoveryItem> {
        if !(self.stdout is Sealed) {
            Some(RecoveryItem::Stdout)
        } else if !(self.stderr is Sealed) {
            Some(RecoveryItem::Stderr)
        } else if !(self.transcript is Sealed) {
            Some(RecoveryItem::Transcript)
        } else {
            None
        }
    }

    /// The progress with one piece of evidence moved on.
    pub open spec fn with(self, item: RecoveryItem, progress: EvidenceProgress) -> RecoveryProgress {
        match item {
            RecoveryItem::Stdout => RecoveryProgress { stdout: progress, ..self },
            RecoveryItem::Stderr => RecoveryProgress { stderr: progress, ..self },
            RecoveryItem::Transcript => RecoveryProgress { transcript: progress, ..self },
        }
    }

    /// Records what became of one piece of evidence.
    pub fn record(&mut self, item: RecoveryItem, progress: EvidenceProgress)
        ensures
            *final(self) == old(self).with(item, progress),
    {
        match item {
            RecoveryItem::Stdout => {
                self.stdout = progress;
            },
            RecoveryItem::Stderr => {
                self.stderr = progress;
            },
            RecoveryItem::Transcript => {
                self.transcript = progress;
            },
        }
    }
}

/// The file a session leaves behind.
pub open spec fn staged_file(item: RecoveryItem) -> &'static str {
    match item {
        RecoveryItem::Stdout => "stdout.log",
        RecoveryItem::Stderr => "stderr.log",
        RecoveryItem::Transcript => "session.ndjson",
    }
}

/// The role a left-behind file is registered under.
pub open spec fn staged_role(item: RecoveryItem) -> &'static str {
    match item {
        RecoveryItem::Stdout => "stdout",
        RecoveryItem::Stderr => "stderr",
        RecoveryItem::Transcript => "partial-transcript",
    }
}

/// The file that stands in for a missing one.
pub open spec fn placeholder_file(item: RecoveryItem) -> &'static str {
    match item {
        RecoveryItem::Stdout => "stdout-unavailable.txt",
        RecoveryItem::Stderr => "stderr-unavailable.txt",
        RecoveryItem::Transcript => "transcript-unavailable.ndjson",
    }
}

/// The role a stand-in is registered under.
pub open spec fn placeholder_role(item: RecoveryItem) -> &'static str {
    match item {
        RecoveryItem::Stdout => "stdout-unavailable",
        RecoveryItem::Stderr => "stderr-unavailable",
        RecoveryItem::Transcript => "transcript-unavailable",
    }
}

/// What a stand-in holds.
pub open spec fn placeholder_text(session_id: SessionId, item: RecoveryItem) -> Seq<char> {
    match item {
        RecoveryItem::Stdout => stream_placeholder_text(session_id, "stdout"@),
        RecoveryItem::Stderr => stream_placeholder_text(session_id, "stderr"@),
        RecoveryItem::Transcript => transcript_placeholder_text(session_id),
    }
}

/// Whether an action is the next one for a pending piece of evidence.
pub open spec fn advances_item(
    action: RecoveryAction,
    session_id: SessionId,
    item: RecoveryItem,
    progress: EvidenceProgress,
) -> bool {
    match progress {
        EvidenceProgress::Unseen => action == (RecoveryAction::Inspect {
            item,
            file: staged_file(item),
        }),
        EvidenceProgress::Staged => action == (RecoveryAction::Adopt {
            item,
            file: staged_file(item),
            role: staged_role(item),
        }),
        EvidenceProgress::Missing => match action {
            RecoveryAction::WritePlaceholder { item: written, file, bytes, role } => {
                &&& written == item
                &&& file == placeholder_file(item)
                &&& bytes@ == encode_utf8(placeholder_text(session_id, item))
                &&& role == placeholder_role(item)
            },
            _ => false,
        },
        EvidenceProgress::Sealed(_) => false,
    }
}

/// Whether an action ends a session with exactly the evidence recovered.
pub open spec fn commits_evidence(
    action: RecoveryAction,
    session: RestartRecoverySession,
    progress: RecoveryProgress,
) -> bool {
    match (action, progress.stdout, progress.stderr, progress.transcript) {
        (
            RecoveryAction::Commit { seals, report },
            EvidenceProgress::Sealed(stdout),
            EvidenceProgress::Sealed(stderr),
            EvidenceProgress::Sealed(transcript),
        ) => {
            &&& seals.stdout == stdout.spec_seal()
            &&& seals.stderr == stderr.spec_seal()
            &&& seals.transcript == transcript.spec_seal()
            &&& seals.execution_summary is None
            &&& seals.partial_transcript == (match transcript {
                RecoveredArtifact::Staged(seal) => Some(seal),
                RecoveredArtifact::Placeholder(_) => None,
            })
            &&& report.packet_digest == session.packet.packet_digest
            &&& report.expected_session_revision.revision == session.expected_session_revision
            &&& report.operation is None
            &&& report.stop_reason == StopReason::DaemonDisconnected
            &&& report.report_digest.bytes == blake3_of(restart_report_preimage(session))
        },
        _ => false,
    }
}

/// The next action for a piece of evidence that is not sealed.
fn advance_item(session_id: SessionId, item: RecoveryItem, progress: EvidenceProgress) -> (action:
    RecoveryAction)
    requires
        !(progress is Sealed),
    ensures
        advances_item(action, session_id, item, progress),
{
    let (file, role, placeholder, placeholder_role) = match item {
        RecoveryItem::Stdout => (
            "stdout.log",
            "stdout",
            "stdout-unavailable.txt",
            "stdout-unavailable",
        ),
        RecoveryItem::Stderr => (
            "stderr.log",
            "stderr",
            "stderr-unavailable.txt",
            "stderr-unavailable",
        ),
        RecoveryItem::Transcript => (
            "session.ndjson",
            "partial-transcript",
            "transcript-unavailable.ndjson",
            "transcript-unavailable",
        ),
    };
    match progress {
        EvidenceProgress::Staged => RecoveryAction::Adopt { item, file, role },
        EvidenceProgress::Missing => {
            let bytes = match item {
                RecoveryItem::Stdout => recovery_stream_placeholder(session_id, "stdout"),
                RecoveryItem::Stderr => recovery_stream_placeholder(session_id, "stderr"),
                RecoveryItem::Transcript => recovery_transcript_placeholder(session_id),
            };
            RecoveryAction::WritePlaceholder {
                item,
                file: placeholder,
                bytes,
                role: placeholder_role,
            }
        },
        _ => RecoveryAction::Inspect { item, file },
    }
}

/// What recovery of one session does next: its streams and transcript are
/// sealed one after another, each as the session left it or as a stand-in;
/// then comes an assertion without reads, and last the terminal report.
pub fn reconcile_one_session(session: &RestartRecoverySession, progress: &RecoveryProgress) -> (action:
    RecoveryAction)
    ensures
        match progress.pending() {
            Some(item) => advances_item(action, session.session_id, item, progress.of(item)),
            None => if progress.assertion_sealed {
                commits_evidence(action, *session, *progress)
            } else {
                action == RecoveryAction::SealAssertion
            },
        },
{
    let stdout = match progress.stdout {
        EvidenceProgress::Sealed(artifact) => artifact,
        other => return advance_item(session.session_id, RecoveryItem::Stdout, other),
    };
    let stderr = match progress.stderr {
        EvidenceProgress::Sealed(artifact) => artifact,
        other => return advance_item(session.session_id, RecoveryItem::Stderr, other),
    };
    let transcript = match progress.transcript {
        EvidenceProgress::Sealed(artifact) => artifact,
        other => return advance_item(session.session_id, RecoveryItem::Transcript, other),
    };
    if !progress.assertion_sealed {
        return RecoveryAction::SealAssertion;
    }
    RecoveryAction::Commit {
        seals: restart_terminal_seals(stdout, stderr, transcript),
        report: restart_terminal_report(session),
    }
}

/// A recovered session ends only behind complete evidence, and always as
/// disconnected, without an operation: it is never resumed and never succeeds.
pub proof fn law_recovery_ends_with_complete_evidence(
    action: RecoveryAction,
    session: RestartRecoverySession,
    progress: RecoveryProgress,
)
    requires
        commits_evidence(action, session, progress),
    ensures
        progress.pending() is None,
        match action {
            RecoveryAction::Commit { seals, report } => {
                &&& report.operation is None
                &&& report.stop_reason == StopReason::DaemonDisconnected
                &&& seals.partial_transcript is Some <==> progress.transcript->Sealed_0 is Staged
            },
            _ => false,
        },
{
}

/// A session made non-resumable by a restart.
#[derive(Clone, Copy, Debug, PartialEq, Eq, Structural)]
pub struct RestartRecoveredSession {
    pub session_id: SessionId,
    pub process_group_observation: ProcessGroupObservation,
    pub terminal: TerminalReceipt,
}

/// What one restart recovered, in the order it was done.
pub struct RestartRecoveryReport {
    pub recovered: Vec<RestartRecoveredSession>,
}

impl RestartRecoveryReport {
    pub fn new() -> (report: RestartRecoveryReport)
        ensures
            report.recovered@.len() == 0,
    {
        RestartRecoveryReport { recovered: Vec::new() }
    }

    /// Adds a session that was ended.
    pub fn record(
        &mut self,
        session: &RestartRecoverySession,
        observation: ProcessGroupObservation,
        terminal: TerminalReceipt,
    )
        ensures
            final(self).recovered@ == old(self).recovered@.push(
                RestartRecoveredSession {
                    session_id: session.session_id,
                    process_group_observation: observation,
                    terminal,
                },
            ),
    {
        self.recovered.push(
            RestartRecoveredSession {
                session_id: session.session_id,
                process_group_observation: observation,
                terminal,
            },
        );
    }
}

/// A group found at restart is told to stop exactly when its leader still leads
/// it; it counts as absent exactly when nothing answers and no foreign leader
/// was seen; everything else is refused with what was observed.
pub proof fn law_restart_judges_the_group_it_finds(
    custody: ProcessCustody,
    leader: LeaderObservation,
    group_exists: bool,
)
    ensures
        ({
            let judged = spec_inspect_group(custody, leader, group_exists);
            let owned = custody.pid == custody.pgid && 0 < custody.pid <= i32::MAX;
            let foreign = leader is InGroup && leader->InGroup_0 != custody.pgid;
            &&& judged == Ok::<GroupAction, RestartRecoveryError>(GroupAction::SignalTerm) <==> owned
                && leader == LeaderObservation::InGroup(custody.pgid) && group_exists
            &&& judged == Ok::<GroupAction, RestartRecoveryError>(
                GroupAction::Done(ProcessGroupObservation::Absent),
            ) <==> owned && !foreign && !group_exists
            &&& judged is Ok ==> judged->Ok_0 == GroupAction::SignalTerm || judged->Ok_0
                == GroupAction::Done(ProcessGroupObservation::Absent)
            &&& judged matches Err(RestartRecoveryError::PidGroupMismatch {
                pid,
                expected_pgid,
                observed_pgid,
            }) ==> pid == custody.pid && expected_pgid == custody.pgid && observed_pgid
                == leader->InGroup_0 && foreign
            &&& judged is Err && judged->Err_0 is LeaderMissingGroupSurvives <==> owned && leader
                is Missing && group_exists
            &&& judged is Err && judged->Err_0 is InvalidCustody <==> custody.pid == 0
                || custody.pid != custody.pgid
            &&& judged is Err && judged->Err_0 is PidOutOfRange <==> custody.pid == custody.pgid
                && custody.pid > i32::MAX
        }),
{
}

/// Waiting for a group ends exactly when it is gone or the grace is over; a
/// sleep in between never outlasts the grace nor the poll interval, and is one
/// of the two.
pub proof fn law_wait_stays_within_the_grace(
    policy: RestartRecoveryPolicy,
    group_exists: bool,
    elapsed_nanos: u128,
)
    requires
        policy.well_formed(),
    ensures
        ({
            let step = spec_absence_step(policy, group_exists, elapsed_nanos);
            &&& step == AbsenceStep::Absent <==> !group_exists
            &&& step == AbsenceStep::Expired <==> group_exists && elapsed_nanos
                >= policy.termination_grace_nanos
            &&& step matches AbsenceStep::Sleep { nanos } ==> {
                &&& nanos > 0
                &&& nanos <= policy.poll_interval_nanos
                &&& elapsed_nanos + nanos <= policy.termination_grace_nanos
                &&& nanos == policy.poll_interval_nanos || elapsed_nanos + nanos
                    == policy.termination_grace_nanos
            }
        }),
{
}

/// A group that outlives the request to stop is killed, and one that outlives
/// that is an error; a group that goes away is reported with the last signal.
pub proof fn law_stubborn_group_is_killed(custody: ProcessCustody, phase: GroupPhase, absent: bool)
    ensures
        ({
            let concluded = spec_conclude_wait(custody, phase, absent);
            &&& concluded == Ok::<GroupAction, RestartRecoveryError>(GroupAction::SignalKill)
                <==> phase == GroupPhase::TermSent && !absent
            &&& concluded is Err <==> phase == GroupPhase::KillSent && !absent
            &&& concluded matches Err(error) ==> error == (RestartRecoveryError::GroupSurvivedKill {
                pid: custody.pid,
                pgid: custody.pgid,
            })
            &&& concluded == Ok::<GroupAction, RestartRecoveryError>(
                GroupAction::Done(ProcessGroupObservation::TerminatedAfterTerm),
            ) <==> phase == GroupPhase::TermSent && absent
            &&& concluded == Ok::<GroupAction, RestartRecoveryError>(
                GroupAction::Done(ProcessGroupObservation::TerminatedAfterKill),
            ) <==> phase == GroupPhase::KillSent && absent
            &&& concluded != Ok::<GroupAction, RestartRecoveryError>(GroupAction::SignalTerm)
        }),
{
}

/// A partial transcript is readable exactly when it is empty, or is text that
/// ends with a line feed and whose every line is JSON.
pub proof fn law_partial_transcript_is_whole_lines_of_json(bytes: Seq<u8>)
    ensures
        spec_partial_ndjson(bytes) is Ok <==> bytes.len() == 0 || {
            &&& valid_utf8(bytes)
            &&& bytes.last() == 0x0a
            &&& forall|i: int|
                0 <= i < transcript_records(bytes).len() ==> (#[trigger] transcript_records(
                    bytes,
                )[i]).len() > 0 && is_json_text(decode_utf8(transcript_records(bytes)[i]))
        },
        spec_partial_ndjson(bytes) == Err::<(), RestartRecoveryError>(
            RestartRecoveryError::PartialTranscriptUtf8,
        ) <==> bytes.len() > 0 && !valid_utf8(bytes),
        spec_partial_ndjson(bytes) == Err::<(), RestartRecoveryError>(
            RestartRecoveryError::PartialTranscriptTruncated,
        ) <==> bytes.len() > 0 && valid_utf8(bytes) && bytes.last() != 0x0a,
        spec_partial_ndjson(bytes) == Err::<(), RestartRecoveryError>(
            RestartRecoveryError::PartialTranscriptBlankRecord,
        ) ==> exists|i: int|
            0 <= i < transcript_records(bytes).len() && (#[trigger] transcript_records(
                bytes,
            )[i]).len() == 0,
        spec_partial_ndjson(bytes) == Err::<(), RestartRecoveryError>(
            RestartRecoveryError::PartialTranscriptInvalidJson,
        ) ==> exists|i: int|
            0 <= i < transcript_records(bytes).len() && !is_json_text(
                decode_utf8(#[trigger] transcript_records(bytes)[i]),
            ),
{
    lemma_records_are_judged(transcript_records(bytes), 0);
}

proof fn lemma_records_are_judged(records: Seq<Seq<u8>>, from: int)
    requires
        0 <= from,
    ensures
        ({
            let judged = spec_judge_records(records, from);
            &&& judged is Ok <==> forall|i: int|
                from <= i < records.len() ==> (#[trigger] records[i]).len() > 0 && is_json_text(
                    decode_utf8(records[i]),
                )
            &&& judged is Err ==> judged->Err_0
                == RestartRecoveryError::PartialTranscriptBlankRecord || judged->Err_0
                == RestartRecoveryError::PartialTranscriptInvalidJson
            &&& judged is Err && judged->Err_0 == RestartRecoveryError::PartialTranscriptBlankRecord
                ==> exists|i: int|
                from <= i < records.len() && (#[trigger] records[i]).len() == 0
            &&& judged is Err && judged->Err_0 == RestartRecoveryError::PartialTranscriptInvalidJson
                ==> exists|i: int|
                from <= i < records.len() && !is_json_text(decode_utf8(#[trigger] records[i]))
        }),
    decreases records.len() - from,
{
    if from < records.len() {
        lemma_records_are_judged(records, from + 1);
        let record = records[from];
    }
}

/// What recovery does next for a piece of evidence: it looks under the name the
/// session wrote to, adopts what is there, and stands in with a placeholder
/// under another name and role for what is not.
pub proof fn law_recovery_takes_the_next_step(
    action: RecoveryAction,
    session_id: SessionId,
    item: RecoveryItem,
    progress: EvidenceProgress,
)
    requires
        advances_item(action, session_id, item, progress),
    ensures
        progress is Unseen <==> action is Inspect,
        progress is Staged <==> action is Adopt,
        progress is Missing <==> action is WritePlaceholder,
        !(action is Commit) && !(action is SealAssertion),
        action matches RecoveryAction::Inspect { item: named, file } ==> named == item && file@ == (
        match item {
            RecoveryItem::Stdout => "stdout.log"@,
            RecoveryItem::Stderr => "stderr.log"@,
            RecoveryItem::Transcript => "session.ndjson"@,
        }),
        action matches RecoveryAction::Adopt { item: named, file, role } ==> {
            &&& named == item
            &&& file@ == (match item {
                RecoveryItem::Stdout => "stdout.log"@,
                RecoveryItem::Stderr => "stderr.log"@,
                RecoveryItem::Transcript => "session.ndjson"@,
            })
            &&& role@ == (match item {
                RecoveryItem::Stdout => "stdout"@,
                RecoveryItem::Stderr => "stderr"@,
                RecoveryItem::Transcript => "partial-transcript"@,
            })
        },
        action matches RecoveryAction::WritePlaceholder { item: named, file, bytes, role } ==> {
            &&& named == item
            &&& file@ == (match item {
                RecoveryItem::Stdout => "stdout-unavailable.txt"@,
                RecoveryItem::Stderr => "stderr-unavailable.txt"@,
                RecoveryItem::Transcript => "transcript-unavailable.ndjson"@,
            })
            &&& role@ == (match item {
                RecoveryItem::Stdout => "stdout-unavailable"@,
                RecoveryItem::Stderr => "stderr-unavailable"@,
                RecoveryItem::Transcript => "transcript-unavailable"@,
            })
            &&& item == RecoveryItem::Transcript ==> bytes@ == encode_utf8(
                "{\"kind\":\"factory.restart.transcript_unavailable.v1\",\"session_id\":"@
                    + decimal(session_id.value as int) + "}\n"@,
            )
            &&& item == RecoveryItem::Stdout ==> bytes@ == encode_utf8(
                "factory-restart-stream-unavailable-v1\nsession_id="@ + decimal(
                    session_id.value as int,
                ) + "\nstream="@ + "stdout"@ + "\n"@,
            )
            &&& item == RecoveryItem::Stderr ==> bytes@ == encode_utf8(
                "factory-restart-stream-unavailable-v1\nsession_id="@ + decimal(
                    session_id.value as int,
                ) + "\nstream="@ + "stderr"@ + "\n"@,
            )
        },
{
}

/// A restart's report is written over the session, its packet and its process.
pub proof fn law_restart_report_is_written_in_order(session: RestartRecoverySession)
    ensures
        restart_report_preimage(session) == encode_utf8("factory-daemon-restart-terminal-v1\0"@) + (
        be_i64(session.session_id.value) + (session.packet.packet_digest.bytes@ + (be32(
            session.custody.pid,
        ) + (be32(session.custody.pgid) + be64(session.custody.started_at_unix_millis))))),
{
}

/// Evidence is committed exactly with each stream's own seal, no summary, the
/// transcript as a partial one exactly where the session left it, and the report
/// of a lost daemon on the session's packet at its revision.
pub proof fn law_recovery_commits_what_it_sealed(
    seals: TerminalArtifactSeals,
    report: TerminalReport,
    session: RestartRecoverySession,
    stdout: RecoveredArtifact,
    stderr: RecoveredArtifact,
    transcript: RecoveredArtifact,
    assertion_sealed: bool,
)
    ensures
        commits_evidence(
            RecoveryAction::Commit { seals, report },
            session,
            (RecoveryProgress {
                stdout: EvidenceProgress::Sealed(stdout),
                stderr: EvidenceProgress::Sealed(stderr),
                transcript: EvidenceProgress::Sealed(transcript),
                assertion_sealed,
            }),
        ) ==> {
            &&& seals.stdout == (match stdout {
                RecoveredArtifact::Staged(seal) => seal,
                RecoveredArtifact::Placeholder(seal) => seal,
            })
            &&& seals.stderr == (match stderr {
                RecoveredArtifact::Staged(seal) => seal,
                RecoveredArtifact::Placeholder(seal) => seal,
            })
            &&& seals.transcript == (match transcript {
                RecoveredArtifact::Staged(seal) => seal,
                RecoveredArtifact::Placeholder(seal) => seal,
            })
            &&& seals.execution_summary is None
            &&& transcript is Staged ==> seals.partial_transcript == Some(seals.transcript)
            &&& transcript is Placeholder ==> seals.partial_transcript is None
            &&& report.packet_digest == session.packet.packet_digest
            &&& report.expected_session_revision.revision == session.expected_session_revision
            &&& report.operation is None
            &&& report.stop_reason == StopReason::DaemonDisconnected
            &&& report.report_digest.bytes == blake3_of(restart_report_preimage(session))
        },
{
}

} // verus!
