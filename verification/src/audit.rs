//! Command keys, audit receipts and idempotent replay.

use vstd::prelude::*;

use crate::digest::{blake3_of, ContentDigest};
use crate::error::StoreError;
use crate::identity::AggregateRevision;
use crate::text::{bytes_equal, command_component_ok, is_command_component, text_equal};

verus! {

/// One persisted audit receipt, as its columns hold it.
#[derive(Clone, Debug, PartialEq, Eq)]
pub struct AuditRow {
    pub id: i64,
    pub operation: String,
    pub command_fingerprint: Vec<u8>,
    pub subject_kind: i16,
    pub subject_id: i64,
    pub resulting_revision: i64,
}

/// A receipt that answers a repeated command.
#[derive(Clone, Copy, Debug, PartialEq, Eq, Structural)]
pub struct Audit {
    pub audit_log_id: i64,
    pub subject_kind: i16,
    pub subject_id: i64,
    pub resulting_revision: AggregateRevision,
}

/// A revision column read back: negative values are refused.
pub open spec fn spec_revision_from_sql(value: i64) -> Result<AggregateRevision, StoreError> {
    if value < 0 {
        Err(StoreError::RevisionOutOfRange)
    } else {
        Ok(AggregateRevision { value: value as u64 })
    }
}

/// A revision written to its column: values past `i64::MAX` are refused.
pub open spec fn spec_revision_to_sql(revision: AggregateRevision) -> Result<i64, StoreError> {
    if revision.value > i64::MAX {
        Err(StoreError::RevisionOutOfRange)
    } else {
        Ok(revision.value as i64)
    }
}

/// The revision after `revision`, as a value and as a column.
pub open spec fn spec_next_revision(revision: AggregateRevision) -> Result<
    AggregateRevision,
    StoreError,
> {
    match revision.spec_next() {
        Ok(next) => Ok(next),
        Err(fault) => Err(StoreError::Contract(fault)),
    }
}

/// Whether a persisted receipt records exactly this operation and command.
pub open spec fn records_command(
    row: AuditRow,
    operation: Seq<char>,
    fingerprint: ContentDigest,
) -> bool {
    row.operation@ == operation && row.command_fingerprint@ == fingerprint.bytes@
}

/// What a command key's persisted receipt means for a command: nothing yet,
/// an exact repetition, or a conflict.
pub open spec fn spec_find_audit(
    row: Option<AuditRow>,
    principal: String,
    command_id: String,
    operation: Seq<char>,
    fingerprint: ContentDigest,
) -> Result<Option<Audit>, StoreError> {
    match row {
        None => Ok(None),
        Some(row) => if !records_command(row, operation, fingerprint) {
            Err(StoreError::IdempotencyConflict { principal, command_id })
        } else {
            match spec_revision_from_sql(row.resulting_revision) {
                Err(fault) => Err(fault),
                Ok(resulting_revision) => Ok(
                    Some(
                        Audit {
                            audit_log_id: row.id,
                            subject_kind: row.subject_kind,
                            subject_id: row.subject_id,
                            resulting_revision,
                        },
                    ),
                ),
            }
        },
    }
}

/// As [`spec_find_audit`], for an operation whose receipts carry one kind of
/// subject.
pub open spec fn spec_replay(
    row: Option<AuditRow>,
    principal: String,
    command_id: String,
    operation: Seq<char>,
    fingerprint: ContentDigest,
    subject_kind: i16,
) -> Result<Option<Audit>, StoreError> {
    match spec_find_audit(row, principal, command_id, operation, fingerprint) {
        Ok(Some(audit)) => if audit.subject_kind == subject_kind {
            Ok(Some(audit))
        } else {
            Err(StoreError::AuditSubjectKindMismatch)
        },
        other => other,
    }
}

/// Reads a revision column back.
pub fn aggregate_revision_from_sql(value: i64) -> (result: Result<AggregateRevision, StoreError>)
    ensures
        result == spec_revision_from_sql(value),
{
    if value < 0 {
        Err(StoreError::RevisionOutOfRange)
    } else {
        Ok(AggregateRevision { value: value as u64 })
    }
}

/// Prepares a revision for its column.
pub fn revision_to_sql(revision: AggregateRevision) -> (result: Result<i64, StoreError>)
    ensures
        result == spec_revision_to_sql(revision),
{
    if revision.value > i64::MAX as u64 {
        Err(StoreError::RevisionOutOfRange)
    } else {
        Ok(revision.value as i64)
    }
}

/// The revision after `revision`.
pub fn next_revision(revision: AggregateRevision) -> (result: Result<AggregateRevision, StoreError>)
    ensures
        result == spec_next_revision(revision),
{
    match revision.next() {
        Ok(next) => Ok(next),
        Err(fault) => Err(StoreError::Contract(fault)),
    }
}

/// Looks a command up under its key.
pub fn find_audit(
    row: Option<&AuditRow>,
    principal: &String,
    command_id: &String,
    operation: &str,
    fingerprint: ContentDigest,
) -> (result: Result<Option<Audit>, StoreError>)
    ensures
        result == spec_find_audit(
            match row {
                Some(row) => Some(*row),
                None => None,
            },
            *principal,
            *command_id,
            operation@,
            fingerprint,
        ),
{
    let row = match row {
        None => return Ok(None),
        Some(row) => row,
    };
    if !text_equal(row.operation.as_str(), operation) || !bytes_equal(
        row.command_fingerprint.as_slice(),
        fingerprint.bytes.as_slice(),
    ) {
        return Err(
            StoreError::IdempotencyConflict {
                principal: principal.clone(),
                command_id: command_id.clone(),
            },
        );
    }
    match aggregate_revision_from_sql(row.resulting_revision) {
        Err(fault) => Err(fault),
        Ok(resulting_revision) => Ok(
            Some(
                Audit {
                    audit_log_id: row.id,
                    subject_kind: row.subject_kind,
                    subject_id: row.subject_id,
                    resulting_revision,
                },
            ),
        ),
    }
}

/// Refuses a receipt whose subject is of another kind.
pub fn require_subject(audit: &Audit, expected: i16) -> (result: Result<(), StoreError>)
    ensures
        result == (if audit.subject_kind == expected {
            Ok::<(), StoreError>(())
        } else {
            Err(StoreError::AuditSubjectKindMismatch)
        }),
{
    if audit.subject_kind == expected {
        Ok(())
    } else {
        Err(StoreError::AuditSubjectKindMismatch)
    }
}

/// Looks a command up under its key and holds the receipt to its subject kind.
pub fn replay(
    row: Option<&AuditRow>,
    principal: &String,
    command_id: &String,
    operation: &str,
    fingerprint: ContentDigest,
    subject_kind: i16,
) -> (result: Result<Option<Audit>, StoreError>)
    ensures
        result == spec_replay(
            match row {
                Some(row) => Some(*row),
                None => None,
            },
            *principal,
            *command_id,
            operation@,
            fingerprint,
            subject_kind,
        ),
{
    match find_audit(row, principal, command_id, operation, fingerprint) {
        Err(fault) => Err(fault),
        Ok(None) => Ok(None),
        Ok(Some(audit)) => match require_subject(&audit, subject_kind) {
            Ok(()) => Ok(Some(audit)),
            Err(fault) => Err(fault),
        },
    }
}

/// The row that a first execution writes answers an exact repetition with the
/// same subject and revision, and any other command under the same key with a
/// conflict.
pub proof fn law_written_receipt_replays(
    row: AuditRow,
    principal: String,
    command_id: String,
    operation: Seq<char>,
    fingerprint: ContentDigest,
    other_operation: Seq<char>,
    other_fingerprint: ContentDigest,
)
    requires
        records_command(row, operation, fingerprint),
        row.resulting_revision >= 0,
    ensures
        spec_replay(Some(row), principal, command_id, operation, fingerprint, row.subject_kind)
            == Ok::<Option<Audit>, StoreError>(
            Some(
                Audit {
                    audit_log_id: row.id,
                    subject_kind: row.subject_kind,
                    subject_id: row.subject_id,
                    resulting_revision: AggregateRevision { value: row.resulting_revision as u64 },
                },
            ),
        ),
        other_operation != operation || other_fingerprint != fingerprint ==> spec_replay(
            Some(row),
            principal,
            command_id,
            other_operation,
            other_fingerprint,
            row.subject_kind,
        ) == Err::<Option<Audit>, StoreError>(
            StoreError::IdempotencyConflict { principal, command_id },
        ),
{
    if other_fingerprint != fingerprint {
        assert(other_fingerprint.bytes@ != fingerprint.bytes@) by {
            if other_fingerprint.bytes@ == fingerprint.bytes@ {
                assert(other_fingerprint.bytes =~= fingerprint.bytes);
            }
        }
    }
}

/// A command whose bytes differ from those of the recorded one conflicts with
/// it, unless the two are a collision of BLAKE3: different bytes with one
/// digest.
pub proof fn law_other_bytes_conflict(
    row: AuditRow,
    principal: String,
    command_id: String,
    operation: Seq<char>,
    preimage: Seq<u8>,
    other_preimage: Seq<u8>,
)
    requires
        records_command(row, operation, ContentDigest { bytes: blake3_of(preimage) }),
        row.resulting_revision >= 0,
        preimage != other_preimage,
    ensures
        spec_replay(
            Some(row),
            principal,
            command_id,
            operation,
            ContentDigest { bytes: blake3_of(other_preimage) },
            row.subject_kind,
        ) == Err::<Option<Audit>, StoreError>(
            StoreError::IdempotencyConflict { principal, command_id },
        ) || blake3_of(preimage) == blake3_of(other_preimage),
{
    law_written_receipt_replays(
        row,
        principal,
        command_id,
        operation,
        ContentDigest { bytes: blake3_of(preimage) },
        operation,
        ContentDigest { bytes: blake3_of(other_preimage) },
    );
}

/// A command key is well formed when principal and command ID both are; the
/// principal is looked at first.
pub open spec fn spec_validate_process_key(principal: Seq<char>, command_id: Seq<char>) -> Result<
    (),
    StoreError,
> {
    if !is_command_component(principal) {
        Err(StoreError::InvalidProcessCommand { field: "principal" })
    } else if !is_command_component(command_id) {
        Err(StoreError::InvalidProcessCommand { field: "command ID" })
    } else {
        Ok(())
    }
}

/// Refuses a malformed principal or command ID of a process command.
pub fn validate_command(principal: &str, command_id: &str) -> (result: Result<(), StoreError>)
    ensures
        result == spec_validate_process_key(principal@, command_id@),
{
    if !command_component_ok(principal) {
        return Err(StoreError::InvalidProcessCommand { field: "principal" });
    }
    if !command_component_ok(command_id) {
        return Err(StoreError::InvalidProcessCommand { field: "command ID" });
    }
    Ok(())
}

/// A revision is read from its column exactly when it is not negative and
/// written exactly when it fits; what is written is read back, and the next
/// revision is one more.
pub proof fn law_revisions_keep_their_number(value: i64, revision: AggregateRevision)
    ensures
        spec_revision_from_sql(value) is Ok <==> value >= 0,
        spec_revision_from_sql(value) matches Ok(read) ==> read.value == value,
        spec_revision_to_sql(revision) is Ok <==> revision.value <= i64::MAX,
        spec_revision_to_sql(revision) matches Ok(column) ==> column == revision.value
            && spec_revision_from_sql(column) == Ok::<AggregateRevision, StoreError>(revision),
        spec_next_revision(revision) is Ok <==> revision.value < u64::MAX,
        spec_next_revision(revision) matches Ok(next) ==> next.value == revision.value + 1,
{
}

/// A command without a receipt is fresh; one with a receipt is answered from it
/// exactly when operation, fingerprint and kind are its own; other bytes under
/// its identity conflict.
pub proof fn law_command_is_fresh_repeated_or_in_conflict(
    row: Option<AuditRow>,
    principal: String,
    command_id: String,
    operation: Seq<char>,
    fingerprint: ContentDigest,
    subject_kind: i16,
)
    ensures
        ({
            let answer = spec_replay(
                row,
                principal,
                command_id,
                operation,
                fingerprint,
                subject_kind,
            );
            let found = spec_find_audit(row, principal, command_id, operation, fingerprint);
            let same = row is Some && row->0.operation@ == operation
                && row->0.command_fingerprint@ == fingerprint.bytes@;
            &&& answer == Ok::<Option<Audit>, StoreError>(None) <==> row is None
            &&& found == Ok::<Option<Audit>, StoreError>(None) <==> row is None
            &&& answer is Ok && answer->Ok_0 is Some <==> same && row->0.resulting_revision >= 0
                && row->0.subject_kind == subject_kind
            &&& found is Ok && found->Ok_0 is Some <==> same && row->0.resulting_revision >= 0
            &&& found matches Ok(Some(audit)) ==> {
                &&& audit.audit_log_id == row->0.id
                &&& audit.subject_kind == row->0.subject_kind
                &&& audit.subject_id == row->0.subject_id
                &&& audit.resulting_revision.value == row->0.resulting_revision
            }
            &&& answer matches Ok(Some(audit)) ==> found == answer
            &&& row is Some && !same <==> answer == Err::<Option<Audit>, StoreError>(
                StoreError::IdempotencyConflict { principal, command_id },
            )
            &&& answer == Err::<Option<Audit>, StoreError>(StoreError::AuditSubjectKindMismatch)
                <==> same && row->0.resulting_revision >= 0 && row->0.subject_kind != subject_kind
        }),
{
}

/// A command's key is accepted exactly when both of its parts are command
/// components.
pub proof fn law_process_key_has_two_parts(principal: Seq<char>, command_id: Seq<char>)
    ensures
        spec_validate_process_key(principal, command_id) is Ok <==> is_command_component(principal)
            && is_command_component(command_id),
        spec_validate_process_key(principal, command_id) == Err::<(), StoreError>(
            StoreError::InvalidProcessCommand { field: "principal" },
        ) ==> !is_command_component(principal) || !is_command_component(command_id),
{
}

/// Whether a stored receipt is of one command: of its operation, its bytes and
/// its kind, at a revision that can be read.
pub open spec fn is_receipt_of(
    row: AuditRow,
    operation: Seq<char>,
    fingerprint: [u8; 32],
    subject_kind: i16,
) -> bool {
    &&& row.operation@ == operation
    &&& row.command_fingerprint@ == fingerprint@
    &&& row.subject_kind == subject_kind
    &&& row.resulting_revision >= 0
}

/// Whether an answer repeats a stored receipt.
pub open spec fn repeats(audit: Audit, row: AuditRow) -> bool {
    &&& audit.audit_log_id == row.id
    &&& audit.subject_kind == row.subject_kind
    &&& audit.subject_id == row.subject_id
    &&& audit.resulting_revision.value == row.resulting_revision
}

} // verus!
