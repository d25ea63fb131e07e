//! Installed builds, registered repositories and artifacts, application
//! status, and the checks a restored store must pass.

use vstd::prelude::*;
use vstd::utf8::{encode_utf8, valid_utf8};

use crate::audit::{
    aggregate_revision_from_sql, law_written_receipt_replays, next_revision, records_command,
    replay, revision_to_sql, spec_next_revision, spec_replay, spec_revision_from_sql,
    spec_revision_to_sql, Audit, AuditRow,
};
use crate::campaign::bytes_to_digest;
use crate::digest::{blake3_of, ContentDigest};
use crate::encoding::{
    be64, frameable, framed, lemma_be64_head, lemma_concat_assoc, lemma_concat_split,
    lemma_framed_head, push_framed, push_u64,
};
use crate::error::StoreError;
use crate::identity::{
    is_identity, AggregateRevision, ApplicationRevisionId, ArtifactId, CasArtifact,
    ExpectedRevision, KernelBuildId, RepositoryId,
};
use crate::text::{
    begins_with, begins_with_character, bounded_text_ok, command_component_ok, contains_double_stop,
    contains_white_space, ends_with, ends_with_character, has_double_stop, has_white_space,
    is_bounded_text, is_command_component, parse_u32, push_bytes, push_text, spec_parse_u32,
    text_equal, utf8_text,
};
use crate::ticket::{bad_identity, require_expected, spec_require_expected};
use crate::ticket_transitions::referent;

verus! {

/// Identity comment of the schema this library is written for.
pub const SCHEMA_IDENTITY: &'static str = "factory-v3-schema:initial-authority-v1";

/// Advisory lock key of the resident daemon.
pub const DAEMON_ADVISORY_LOCK_KEY: i64 = 0x4656_335f_4441_454d;

pub const KERNEL_BUILD_SUBJECT: i16 = 0;

pub const APPLICATION_REVISION_SUBJECT: i16 = 1;

pub const REPOSITORY_SUBJECT: i16 = 2;

pub const ARTIFACT_SUBJECT: i16 = 3;

pub const INSTALL_KERNEL_BUILD_OPERATION: &'static str = "kernel_build.install";

pub const ADMIT_APPLICATION_REVISION_OPERATION: &'static str = "application_revision.admit";

pub const ACTIVATE_APPLICATION_REVISION_OPERATION: &'static str = "application_revision.activate";

pub const REGISTER_REPOSITORY_OPERATION: &'static str = "repository.register";

pub const REGISTER_ARTIFACT_OPERATION: &'static str = "artifact.register";

/// Oldest supported server version.
pub const POSTGRES_BASELINE: u32 = 180_000;

/// Key of an application.
#[derive(Clone, Debug, PartialEq, Eq)]
pub struct ApplicationKey {
    pub value: String,
}

/// Manual installation of one externally qualified build.
#[derive(Clone, Debug, PartialEq, Eq)]
pub struct InstallKernelBuild {
    pub principal: String,
    pub command_id: String,
    pub expected_revision: ExpectedRevision,
    pub build_id: KernelBuildId,
    pub source_digest: ContentDigest,
    pub binary_digest: ContentDigest,
    pub schema_identity: String,
    pub deno_executable_path: String,
    pub deno_version: String,
    pub deno_lock_digest: ContentDigest,
    /// Sealed qualification evidence, verified again before it is used.
    pub qualification_receipt: CasArtifact,
}

/// The facts of one installed-build receipt.
#[derive(Clone, Debug, PartialEq, Eq)]
pub struct InstalledBuildReceipt {
    pub kernel_build_id: KernelBuildId,
    pub kernel_source_digest: ContentDigest,
    pub kernel_binary_digest: ContentDigest,
    pub schema_identity: String,
    /// Bytes of the runtime's executable path.
    pub deno_executable: Vec<u8>,
    pub deno_version: String,
    pub deno_lock_digest: ContentDigest,
}

/// Installation of one closed receipt; its facts cannot be given separately.
#[derive(Clone, Debug, PartialEq, Eq)]
pub struct InstallQualifiedKernelBuild {
    pub principal: String,
    pub command_id: String,
    pub expected_revision: ExpectedRevision,
    pub receipt: InstalledBuildReceipt,
}

#[derive(Clone, Copy, Debug, PartialEq, Eq)]
pub struct KernelBuildReceipt {
    pub kernel_build_id: KernelBuildId,
    pub resulting_revision: AggregateRevision,
    pub audit_log_id: i64,
    pub was_idempotent_retry: bool,
}

#[derive(Clone, Copy, Debug, PartialEq, Eq)]
pub struct KernelBuildStatus {
    pub current_kernel_build_id: Option<KernelBuildId>,
    pub aggregate_revision: AggregateRevision,
}

/// The build installed at one exact revision.
#[derive(Clone, Copy, Debug, PartialEq, Eq)]
pub struct KernelBuildAtRevision {
    pub kernel_build_id: KernelBuildId,
    pub aggregate_revision: AggregateRevision,
}

/// First registration of one repository binding.
#[derive(Clone, Debug, PartialEq, Eq)]
pub struct RegisterRepository {
    pub principal: String,
    pub command_id: String,
    pub expected_revision: ExpectedRevision,
    pub repository_key: String,
    pub canonical_local_path: String,
    pub default_branch: String,
}

#[derive(Clone, Copy, Debug, PartialEq, Eq, Structural)]
pub struct RepositoryReceipt {
    pub repository_id: RepositoryId,
    pub resulting_revision: AggregateRevision,
    pub audit_log_id: i64,
    pub was_idempotent_retry: bool,
}

/// Registration of bytes that are already sealed.
#[derive(Clone, Debug, PartialEq, Eq)]
pub struct RegisterArtifact {
    pub principal: String,
    pub command_id: String,
    pub expected_kernel_build_revision: ExpectedRevision,
    pub kernel_build_id: KernelBuildId,
    pub sealed: CasArtifact,
}

#[derive(Clone, Copy, Debug, PartialEq, Eq, Structural)]
pub struct ArtifactReceipt {
    pub artifact_id: ArtifactId,
    pub audit_log_id: i64,
    pub was_idempotent_retry: bool,
    pub was_reused: bool,
}

#[derive(Clone, Copy, Debug, PartialEq, Eq, Structural)]
pub struct ApplicationRevisionReceipt {
    pub application_revision_id: ApplicationRevisionId,
    pub resulting_revision: AggregateRevision,
    pub audit_log_id: i64,
    pub was_idempotent_retry: bool,
}

#[derive(Clone, Debug, PartialEq, Eq)]
pub struct ApplicationStatus {
    pub application_key: ApplicationKey,
    pub application_revision_id: Option<ApplicationRevisionId>,
    pub aggregate_revision: AggregateRevision,
}

/// One admitted application revision.
#[derive(Clone, Debug, PartialEq, Eq)]
pub struct ApplicationRevisionView {
    pub application_key: ApplicationKey,
    pub application_revision_id: ApplicationRevisionId,
    pub aggregate_revision: AggregateRevision,
    pub bundle_artifact_id: ArtifactId,
    pub is_active: bool,
}

pub open spec fn spec_validate_command_component(field: &'static str, value: Seq<char>) -> Result<
    (),
    StoreError,
> {
    if is_command_component(value) {
        Ok(())
    } else {
        Err(StoreError::InvalidCommandComponent { field })
    }
}

/// Refuses anything but one through 160 bytes of the command alphabet.
pub fn validate_command_component(field: &'static str, value: &str) -> (result: Result<
    (),
    StoreError,
>)
    ensures
        result == spec_validate_command_component(field, value@),
{
    if command_component_ok(value) {
        Ok(())
    } else {
        Err(StoreError::InvalidCommandComponent { field })
    }
}

pub open spec fn spec_validate_text(field: &'static str, value: Seq<char>, maximum: int) -> Result<
    (),
    StoreError,
> {
    if is_bounded_text(value, maximum) {
        Ok(())
    } else {
        Err(StoreError::InvalidCommandComponent { field })
    }
}

/// Refuses a text that is empty, longer than `maximum` bytes or holds NUL.
pub fn validate_text(field: &'static str, value: &str, maximum: usize) -> (result: Result<
    (),
    StoreError,
>)
    ensures
        result == spec_validate_text(field, value@, maximum as int),
{
    if bounded_text_ok(value, maximum) {
        Ok(())
    } else {
        Err(StoreError::InvalidCommandComponent { field })
    }
}

/// Whether a server version is a number at or past the baseline.
pub open spec fn spec_postgres_baseline(server_version_num: String) -> Result<(), StoreError> {
    match spec_parse_u32(server_version_num@) {
        None => Err(StoreError::UnparseablePostgresVersion { server_version_num }),
        Some(version) => if version < POSTGRES_BASELINE {
            Err(StoreError::UnsupportedPostgresVersion { server_version_num: version })
        } else {
            Ok(())
        },
    }
}

/// Refuses a server older than the baseline.
pub fn verify_postgres_baseline(server_version_num: &String) -> (result: Result<(), StoreError>)
    ensures
        result == spec_postgres_baseline(*server_version_num),
{
    match parse_u32(server_version_num.as_str()) {
        None => Err(
            StoreError::UnparseablePostgresVersion {
                server_version_num: server_version_num.clone(),
            },
        ),
        Some(version) => if version < POSTGRES_BASELINE {
            Err(StoreError::UnsupportedPostgresVersion { server_version_num: version })
        } else {
            Ok(())
        },
    }
}

/// Refuses a schema that does not carry the expected identity comment.
pub fn verify_schema_identity(observed: &Option<String>) -> (result: Result<(), StoreError>)
    ensures
        match result {
            Ok(()) => *observed is Some && (*observed)->0@ == SCHEMA_IDENTITY@,
            Err(fault) => (*observed is None || (*observed)->0@ != SCHEMA_IDENTITY@) && fault == (
            StoreError::SchemaIdentityMismatch { observed: *observed }),
        },
{
    match observed {
        Some(comment) => if text_equal(comment.as_str(), SCHEMA_IDENTITY) {
            Ok(())
        } else {
            Err(StoreError::SchemaIdentityMismatch { observed: Some(comment.clone()) })
        },
        None => Err(StoreError::SchemaIdentityMismatch { observed: None }),
    }
}

/// Whether path bytes spell an absolute NUL-free path in UTF-8.
pub open spec fn is_installed_path(path: Seq<u8>) -> bool {
    valid_utf8(path) && path.len() > 0 && path[0] == 0x2f && !path.contains(0u8)
}

/// Reads an absolute installed path.
pub fn installed_path(field: &'static str, path: &[u8]) -> (result: Result<String, StoreError>)
    ensures
        match result {
            Ok(text) => is_installed_path(path@) && encode_utf8(text@) == path@,
            Err(fault) => !is_installed_path(path@) && fault == (StoreError::InvalidAbsolutePath {
                field,
            }),
        },
{
    let text = match utf8_text(path) {
        Some(text) => text,
        None => return Err(StoreError::InvalidAbsolutePath { field }),
    };
    if path.len() == 0 || path[0] != 0x2f {
        return Err(StoreError::InvalidAbsolutePath { field });
    }
    let mut index: usize = 0;
    while index < path.len()
        invariant
            index <= path.len(),
            forall|i: int| 0 <= i < index ==> path@[i] != 0,
        decreases path.len() - index,
    {
        if path[index] == 0 {
            assert(path@[index as int] == 0u8);
            return Err(StoreError::InvalidAbsolutePath { field });
        }
        index += 1;
    }
    Ok(text.to_owned())
}

impl InstallKernelBuild {
    pub open spec fn spec_validate(self) -> Result<(), StoreError> {
        if !is_command_component(self.principal@) {
            Err(StoreError::InvalidCommandComponent { field: "principal" })
        } else if !is_command_component(self.command_id@) {
            Err(StoreError::InvalidCommandComponent { field: "command ID" })
        } else if !is_bounded_text(self.schema_identity@, 160) {
            Err(StoreError::InvalidCommandComponent { field: "schema identity" })
        } else if self.schema_identity@ != SCHEMA_IDENTITY@ {
            Err(StoreError::InstalledSchemaIdentityMismatch)
        } else if !begins_with(self.deno_executable_path@, '/') {
            Err(StoreError::InvalidAbsolutePath { field: "Deno executable path" })
        } else if !is_bounded_text(self.deno_executable_path@, 4096) {
            Err(StoreError::InvalidCommandComponent { field: "Deno executable path" })
        } else if !is_bounded_text(self.deno_version@, 240) {
            Err(StoreError::InvalidCommandComponent { field: "Deno version" })
        } else {
            Ok(())
        }
    }

    /// Refuses a malformed installation.
    pub fn validate(&self) -> (result: Result<(), StoreError>)
        ensures
            result == self.spec_validate(),
    {
        match validate_command_component("principal", self.principal.as_str()) {
            Err(fault) => return Err(fault),
            Ok(()) => {},
        }
        match validate_command_component("command ID", self.command_id.as_str()) {
            Err(fault) => return Err(fault),
            Ok(()) => {},
        }
        match validate_text("schema identity", self.schema_identity.as_str(), 160) {
            Err(fault) => return Err(fault),
            Ok(()) => {},
        }
        if !text_equal(self.schema_identity.as_str(), SCHEMA_IDENTITY) {
            return Err(StoreError::InstalledSchemaIdentityMismatch);
        }
        if !begins_with_character(self.deno_executable_path.as_str(), '/') {
            return Err(StoreError::InvalidAbsolutePath { field: "Deno executable path" });
        }
        match validate_text("Deno executable path", self.deno_executable_path.as_str(), 4096) {
            Err(fault) => return Err(fault),
            Ok(()) => {},
        }
        validate_text("Deno version", self.deno_version.as_str(), 240)
    }

    /// The bytes an installation is fingerprinted by.
    pub open spec fn preimage(self) -> Seq<u8> {
        encode_utf8(INSTALL_KERNEL_BUILD_OPERATION@) + (framed(self.principal@) + (framed(
            self.command_id@,
        ) + (be64(self.expected_revision.revision.value) + (self.build_id.digest.bytes@ + (
        self.source_digest.bytes@ + (self.binary_digest.bytes@ + (framed(self.schema_identity@) + (
        framed(self.deno_executable_path@) + (framed(self.deno_version@) + (
        self.deno_lock_digest.bytes@ + (self.qualification_receipt.digest.bytes@ + be64(
            self.qualification_receipt.byte_length,
        ))))))))))))
    }

    /// Fingerprint of an installation.
    #[verifier::spinoff_prover]
    #[verifier::rlimit(40)]
    pub fn fingerprint(&self) -> (digest: ContentDigest)
        ensures
            digest.bytes == blake3_of(self.preimage()),
    {
        let mut bytes: Vec<u8> = Vec::new();
        push_text(&mut bytes, INSTALL_KERNEL_BUILD_OPERATION);
        push_framed(&mut bytes, self.principal.as_str());
        push_framed(&mut bytes, self.command_id.as_str());
        push_u64(&mut bytes, self.expected_revision.revision.value);
        push_bytes(&mut bytes, self.build_id.digest.bytes.as_slice());
        push_bytes(&mut bytes, self.source_digest.bytes.as_slice());
        push_bytes(&mut bytes, self.binary_digest.bytes.as_slice());
        push_framed(&mut bytes, self.schema_identity.as_str());
        push_framed(&mut bytes, self.deno_executable_path.as_str());
        push_framed(&mut bytes, self.deno_version.as_str());
        push_bytes(&mut bytes, self.deno_lock_digest.bytes.as_slice());
        push_bytes(&mut bytes, self.qualification_receipt.digest.bytes.as_slice());
        push_u64(&mut bytes, self.qualification_receipt.byte_length);
        proof {
            let a = encode_utf8(INSTALL_KERNEL_BUILD_OPERATION@);
            let b = framed(self.principal@);
            let c = framed(self.command_id@);
            let d = be64(self.expected_revision.revision.value);
            let e = self.build_id.digest.bytes@;
            let f = self.source_digest.bytes@;
            let g = self.binary_digest.bytes@;
            let h = framed(self.schema_identity@);
            let i = framed(self.deno_executable_path@);
            let j = framed(self.deno_version@);
            let k = self.deno_lock_digest.bytes@;
            let l = self.qualification_receipt.digest.bytes@;
            let m = be64(self.qualification_receipt.byte_length);
            assert(Seq::<u8>::empty() + a =~= a);
            let t11 = l + m;
            lemma_concat_assoc(a + b + c + d + e + f + g + h + i + j + k, l, m);
            let t10 = k + t11;
            lemma_concat_assoc(a + b + c + d + e + f + g + h + i + j, k, t11);
            let t9 = j + t10;
            lemma_concat_assoc(a + b + c + d + e + f + g + h + i, j, t10);
            let t8 = i + t9;
            lemma_concat_assoc(a + b + c + d + e + f + g + h, i, t9);
            let t7 = h + t8;
            lemma_concat_assoc(a + b + c + d + e + f + g, h, t8);
            let t6 = g + t7;
            lemma_concat_assoc(a + b + c + d + e + f, g, t7);
            let t5 = f + t6;
            lemma_concat_assoc(a + b + c + d + e, f, t6);
            let t4 = e + t5;
            lemma_concat_assoc(a + b + c + d, e, t5);
            let t3 = d + t4;
            lemma_concat_assoc(a + b + c, d, t4);
            let t2 = c + t3;
            lemma_concat_assoc(a + b, c, t3);
            lemma_concat_assoc(a, b, t2);
        }
        ContentDigest::of_bytes(bytes.as_slice())
    }
}

proof fn lemma_digest_head(left: ContentDigest, rest_left: Seq<u8>, right: ContentDigest, rest_right: Seq<u8>)
    requires
        left.bytes@ + rest_left == right.bytes@ + rest_right,
    ensures
        left == right,
        rest_left == rest_right,
{
    lemma_concat_split(left.bytes@, rest_left, right.bytes@, rest_right);
    assert(left.bytes =~= right.bytes);
}

proof fn lemma_be64_alone(left: u64, right: u64)
    requires
        be64(left) == be64(right),
    ensures
        left == right,
{
    assert(be64(left) =~= be64(left) + Seq::<u8>::empty());
    assert(be64(right) =~= be64(right) + Seq::<u8>::empty());
    lemma_be64_head(left, Seq::empty(), right, Seq::empty());
}

/// Two installations are hashed from the same bytes only when they agree in
/// every field.
pub proof fn law_install_preimage_injective(left: InstallKernelBuild, right: InstallKernelBuild)
    requires
        frameable(left.principal@),
        frameable(left.command_id@),
        frameable(left.schema_identity@),
        frameable(left.deno_executable_path@),
        frameable(left.deno_version@),
        frameable(right.principal@),
        frameable(right.command_id@),
        frameable(right.schema_identity@),
        frameable(right.deno_executable_path@),
        frameable(right.deno_version@),
        left.preimage() == right.preimage(),
    ensures
        left.principal@ == right.principal@,
        left.command_id@ == right.command_id@,
        left.expected_revision == right.expected_revision,
        left.build_id == right.build_id,
        left.source_digest == right.source_digest,
        left.binary_digest == right.binary_digest,
        left.schema_identity@ == right.schema_identity@,
        left.deno_executable_path@ == right.deno_executable_path@,
        left.deno_version@ == right.deno_version@,
        left.deno_lock_digest == right.deno_lock_digest,
        left.qualification_receipt == right.qualification_receipt,
{
    let l11 = be64(left.qualification_receipt.byte_length);
    let r11 = be64(right.qualification_receipt.byte_length);
    let l10 = left.qualification_receipt.digest.bytes@ + l11;
    let r10 = right.qualification_receipt.digest.bytes@ + r11;
    let l9 = left.deno_lock_digest.bytes@ + l10;
    let r9 = right.deno_lock_digest.bytes@ + r10;
    let l8 = framed(left.deno_version@) + l9;
    let r8 = framed(right.deno_version@) + r9;
    let l7 = framed(left.deno_executable_path@) + l8;
    let r7 = framed(right.deno_executable_path@) + r8;
    let l6 = framed(left.schema_identity@) + l7;
    let r6 = framed(right.schema_identity@) + r7;
    let l5 = left.binary_digest.bytes@ + l6;
    let r5 = right.binary_digest.bytes@ + r6;
    let l4 = left.source_digest.bytes@ + l5;
    let r4 = right.source_digest.bytes@ + r5;
    let l3 = left.build_id.digest.bytes@ + l4;
    let r3 = right.build_id.digest.bytes@ + r4;
    let l2 = be64(left.expected_revision.revision.value) + l3;
    let r2 = be64(right.expected_revision.revision.value) + r3;
    let l1 = framed(left.command_id@) + l2;
    let r1 = framed(right.command_id@) + r2;
    let operation = encode_utf8(INSTALL_KERNEL_BUILD_OPERATION@);
    lemma_concat_split(
        operation,
        framed(left.principal@) + l1,
        operation,
        framed(right.principal@) + r1,
    );
    lemma_framed_head(left.principal@, l1, right.principal@, r1);
    lemma_framed_head(left.command_id@, l2, right.command_id@, r2);
    lemma_be64_head(
        left.expected_revision.revision.value,
        l3,
        right.expected_revision.revision.value,
        r3,
    );
    lemma_digest_head(left.build_id.digest, l4, right.build_id.digest, r4);
    lemma_digest_head(left.source_digest, l5, right.source_digest, r5);
    lemma_digest_head(left.binary_digest, l6, right.binary_digest, r6);
    lemma_framed_head(left.schema_identity@, l7, right.schema_identity@, r7);
    lemma_framed_head(left.deno_executable_path@, l8, right.deno_executable_path@, r8);
    lemma_framed_head(left.deno_version@, l9, right.deno_version@, r9);
    lemma_digest_head(left.deno_lock_digest, l10, right.deno_lock_digest, r10);
    lemma_digest_head(
        left.qualification_receipt.digest,
        l11,
        right.qualification_receipt.digest,
        r11,
    );
    lemma_be64_alone(
        left.qualification_receipt.byte_length,
        right.qualification_receipt.byte_length,
    );
}

/// Composes the installation of a qualified receipt under its sealed bytes.
pub fn install_qualified_kernel_build(
    command: &InstallQualifiedKernelBuild,
    qualification_receipt: CasArtifact,
) -> (result: Result<InstallKernelBuild, StoreError>)
    ensures
        match result {
            Err(fault) => !is_installed_path(command.receipt.deno_executable@) && fault == (
            StoreError::InvalidAbsolutePath { field: "Deno executable" }),
            Ok(install) => {
                &&& is_installed_path(command.receipt.deno_executable@)
                &&& encode_utf8(install.deno_executable_path@) == command.receipt.deno_executable@
                &&& install.principal == command.principal
                &&& install.command_id == command.command_id
                &&& install.expected_revision == command.expected_revision
                &&& install.build_id == command.receipt.kernel_build_id
                &&& install.source_digest == command.receipt.kernel_source_digest
                &&& install.binary_digest == command.receipt.kernel_binary_digest
                &&& install.schema_identity == command.receipt.schema_identity
                &&& install.deno_version == command.receipt.deno_version
                &&& install.deno_lock_digest == command.receipt.deno_lock_digest
                &&& install.qualification_receipt == qualification_receipt
            },
        },
{
    let deno_executable_path = match installed_path(
        "Deno executable",
        command.receipt.deno_executable.as_slice(),
    ) {
        Ok(path) => path,
        Err(fault) => return Err(fault),
    };
    Ok(
        InstallKernelBuild {
            principal: command.principal.clone(),
            command_id: command.command_id.clone(),
            expected_revision: command.expected_revision,
            build_id: command.receipt.kernel_build_id,
            source_digest: command.receipt.kernel_source_digest,
            binary_digest: command.receipt.kernel_binary_digest,
            schema_identity: command.receipt.schema_identity.clone(),
            deno_executable_path,
            deno_version: command.receipt.deno_version.clone(),
            deno_lock_digest: command.receipt.deno_lock_digest,
            qualification_receipt,
        },
    )
}

/// Whether an installation is admitted, refused, or answered from its receipt.
pub open spec fn spec_admit_install(
    command: InstallKernelBuild,
    verified: CasArtifact,
    audit: Option<AuditRow>,
) -> Result<Option<Audit>, StoreError> {
    match command.spec_validate() {
        Err(fault) => Err(fault),
        Ok(()) => if verified != command.qualification_receipt {
            Err(StoreError::QualificationReceiptChanged)
        } else {
            spec_replay(
                audit,
                command.principal,
                command.command_id,
                INSTALL_KERNEL_BUILD_OPERATION@,
                ContentDigest { bytes: blake3_of(command.preimage()) },
                KERNEL_BUILD_SUBJECT,
            )
        },
    }
}

/// Admits an installation whose seal still verifies, or finds the receipt that
/// answers it.
pub fn admit_install(
    command: &InstallKernelBuild,
    verified: &CasArtifact,
    audit: Option<&AuditRow>,
) -> (result: Result<Option<Audit>, StoreError>)
    ensures
        result == spec_admit_install(*command, *verified, referent(audit)),
{
    match command.validate() {
        Err(fault) => return Err(fault),
        Ok(()) => {},
    }
    if !verified.same(&command.qualification_receipt) {
        return Err(StoreError::QualificationReceiptChanged);
    }
    replay(
        audit,
        &command.principal,
        &command.command_id,
        INSTALL_KERNEL_BUILD_OPERATION,
        command.fingerprint(),
        KERNEL_BUILD_SUBJECT,
    )
}

/// Whether two installations agree in every field.
pub open spec fn same_installation(left: InstallKernelBuild, right: InstallKernelBuild) -> bool {
    &&& left.principal@ == right.principal@
    &&& left.command_id@ == right.command_id@
    &&& left.expected_revision == right.expected_revision
    &&& left.build_id == right.build_id
    &&& left.source_digest == right.source_digest
    &&& left.binary_digest == right.binary_digest
    &&& left.schema_identity@ == right.schema_identity@
    &&& left.deno_executable_path@ == right.deno_executable_path@
    &&& left.deno_version@ == right.deno_version@
    &&& left.deno_lock_digest == right.deno_lock_digest
    &&& left.qualification_receipt == right.qualification_receipt
}

/// The receipt of an installation answers the same installation again with its
/// own subject and revision, and any other valid installation under its key
/// with a conflict, unless the two are a collision of BLAKE3: different bytes
/// with one digest.
pub proof fn law_installation_replays_or_conflicts(
    first: InstallKernelBuild,
    other: InstallKernelBuild,
    row: AuditRow,
)
    requires
        first.spec_validate() is Ok,
        other.spec_validate() is Ok,
        records_command(
            row,
            INSTALL_KERNEL_BUILD_OPERATION@,
            ContentDigest { bytes: blake3_of(first.preimage()) },
        ),
        row.subject_kind == KERNEL_BUILD_SUBJECT,
        row.resulting_revision >= 0,
    ensures
        same_installation(first, other) ==> spec_admit_install(
            other,
            other.qualification_receipt,
            Some(row),
        ) == Ok::<Option<Audit>, StoreError>(
            Some(
                Audit {
                    audit_log_id: row.id,
                    subject_kind: row.subject_kind,
                    subject_id: row.subject_id,
                    resulting_revision: AggregateRevision { value: row.resulting_revision as u64 },
                },
            ),
        ),
        !same_installation(first, other) ==> first.preimage() != other.preimage() && (
        spec_admit_install(other, other.qualification_receipt, Some(row)) == Err::<
            Option<Audit>,
            StoreError,
        >(
            StoreError::IdempotencyConflict {
                principal: other.principal,
                command_id: other.command_id,
            },
        ) || blake3_of(first.preimage()) == blake3_of(other.preimage())),
{
    if !same_installation(first, other) && first.preimage() == other.preimage() {
        law_install_preimage_injective(first, other);
    }
    law_written_receipt_replays(
        row,
        other.principal,
        other.command_id,
        INSTALL_KERNEL_BUILD_OPERATION@,
        ContentDigest { bytes: blake3_of(first.preimage()) },
        INSTALL_KERNEL_BUILD_OPERATION@,
        ContentDigest { bytes: blake3_of(other.preimage()) },
    );
}

/// A registered artifact found by its digest, as its columns hold it.
#[derive(Clone, Debug, PartialEq, Eq)]
pub struct ExistingArtifactRow {
    pub id: i64,
    pub byte_length: i64,
    pub cas_relative_path: String,
}

/// Whether a registered row describes the sealed bytes.
pub open spec fn describes_seal(
    row: ExistingArtifactRow,
    byte_length: u64,
    canonical_path: Seq<char>,
) -> bool {
    row.byte_length == byte_length && row.cas_relative_path@ == canonical_path
}

/// Where the qualification receipt of an installation is registered.
#[derive(Clone, Copy, Debug, PartialEq, Eq, Structural)]
pub enum QualificationArtifact {
    /// The row that already holds it.
    Existing { id: i64 },
    /// A row to insert with this length.
    Insert { byte_length: i64 },
}

/// The build row to insert as the current one.
#[derive(Clone, Copy, Debug, PartialEq, Eq, Structural)]
pub struct InstallPlan {
    pub resulting_revision: AggregateRevision,
    pub revision_column: i64,
    pub qualification: QualificationArtifact,
}

/// Where the qualification receipt goes, or why it cannot.
pub open spec fn spec_qualification(
    seal: CasArtifact,
    existing: Option<ExistingArtifactRow>,
    canonical_path: Seq<char>,
) -> Result<QualificationArtifact, StoreError> {
    if seal.byte_length > i64::MAX {
        Err(StoreError::ArtifactLengthOutOfRange)
    } else {
        match existing {
            None => Ok(QualificationArtifact::Insert { byte_length: seal.byte_length as i64 }),
            Some(row) => if describes_seal(row, seal.byte_length, canonical_path) {
                Ok(QualificationArtifact::Existing { id: row.id })
            } else {
                Err(StoreError::ArtifactIdentityConflict { digest: seal.digest })
            },
        }
    }
}

/// The plan of an installation, or the first refusal.
pub open spec fn spec_install(
    command: InstallKernelBuild,
    current: i64,
    existing: Option<ExistingArtifactRow>,
    canonical_path: Seq<char>,
) -> Result<InstallPlan, StoreError> {
    match spec_revision_from_sql(current) {
        Err(fault) => Err(fault),
        Ok(current_revision) => match spec_require_expected(
            command.expected_revision,
            current_revision,
        ) {
            Err(fault) => Err(fault),
            Ok(()) => match spec_next_revision(current_revision) {
                Err(fault) => Err(fault),
                Ok(resulting_revision) => match (
                    spec_qualification(
                        command.qualification_receipt,
                        existing,
                        canonical_path,
                    ),
                    spec_revision_to_sql(resulting_revision),
                ) {
                    (Err(fault), Ok(_)) => Err(fault),
                    (Ok(_), Err(fault)) => Err(fault),
                    (Err(artifact_fault), Err(revision_fault)) => if existing is Some {
                        Err(artifact_fault)
                    } else {
                        Err(revision_fault)
                    },
                    (Ok(qualification), Ok(revision_column)) => Ok(
                        InstallPlan { resulting_revision, revision_column, qualification },
                    ),
                },
            },
        },
    }
}

fn qualification_artifact(
    seal: &CasArtifact,
    existing: Option<&ExistingArtifactRow>,
    canonical_path: &str,
) -> (result: Result<QualificationArtifact, StoreError>)
    ensures
        result == spec_qualification(*seal, referent(existing), canonical_path@),
{
    if seal.byte_length > i64::MAX as u64 {
        return Err(StoreError::ArtifactLengthOutOfRange);
    }
    let byte_length: i64 = seal.byte_length as i64;
    match existing {
        None => Ok(QualificationArtifact::Insert { byte_length }),
        Some(row) => if row.byte_length == byte_length && text_equal(
            row.cas_relative_path.as_str(),
            canonical_path,
        ) {
            Ok(QualificationArtifact::Existing { id: row.id })
        } else {
            Err(StoreError::ArtifactIdentityConflict { digest: seal.digest })
        },
    }
}

/// Plans an installation: the build becomes current at the next revision, and
/// its qualification receipt is reused or registered.
pub fn install_kernel_build(
    command: &InstallKernelBuild,
    current: i64,
    existing: Option<&ExistingArtifactRow>,
    canonical_path: &str,
) -> (result: Result<InstallPlan, StoreError>)
    ensures
        result == spec_install(*command, current, referent(existing), canonical_path@),
{
    let current_revision = match aggregate_revision_from_sql(current) {
        Ok(revision) => revision,
        Err(fault) => return Err(fault),
    };
    match require_expected(command.expected_revision, current_revision) {
        Err(fault) => return Err(fault),
        Ok(()) => {},
    }
    let resulting_revision = match next_revision(current_revision) {
        Ok(revision) => revision,
        Err(fault) => return Err(fault),
    };
    if existing.is_some() {
        let qualification = match qualification_artifact(
            &command.qualification_receipt,
            existing,
            canonical_path,
        ) {
            Ok(qualification) => qualification,
            Err(fault) => return Err(fault),
        };
        return match revision_to_sql(resulting_revision) {
            Ok(revision_column) => Ok(
                InstallPlan { resulting_revision, revision_column, qualification },
            ),
            Err(fault) => Err(fault),
        };
    }
    let revision_column: i64 = match revision_to_sql(resulting_revision) {
        Ok(column) => column,
        Err(fault) => return Err(fault),
    };
    match qualification_artifact(&command.qualification_receipt, existing, canonical_path) {
        Ok(qualification) => Ok(
            InstallPlan { resulting_revision, revision_column, qualification },
        ),
        Err(fault) => Err(fault),
    }
}

/// Answers an installation, performed or repeated.
pub fn kernel_build_receipt(
    command: &InstallKernelBuild,
    resulting_revision: AggregateRevision,
    audit_log_id: i64,
    was_idempotent_retry: bool,
) -> (receipt: KernelBuildReceipt)
    ensures
        receipt == (KernelBuildReceipt {
            kernel_build_id: command.build_id,
            resulting_revision,
            audit_log_id,
            was_idempotent_retry,
        }),
{
    KernelBuildReceipt {
        kernel_build_id: command.build_id,
        resulting_revision,
        audit_log_id,
        was_idempotent_retry,
    }
}

impl RegisterRepository {
    pub open spec fn spec_validate(self) -> Result<(), StoreError> {
        if !is_command_component(self.principal@) {
            Err(StoreError::InvalidCommandComponent { field: "principal" })
        } else if !is_command_component(self.command_id@) {
            Err(StoreError::InvalidCommandComponent { field: "command ID" })
        } else if !is_bounded_text(self.repository_key@, 160) {
            Err(StoreError::InvalidCommandComponent { field: "repository key" })
        } else if !begins_with(self.canonical_local_path@, '/') {
            Err(StoreError::InvalidAbsolutePath { field: "repository path" })
        } else if !is_bounded_text(self.canonical_local_path@, 4096) {
            Err(StoreError::InvalidCommandComponent { field: "repository path" })
        } else if !is_bounded_text(self.default_branch@, 240) {
            Err(StoreError::InvalidCommandComponent { field: "default branch" })
        } else if has_white_space(self.default_branch@) || has_double_stop(self.default_branch@)
            || ends_with(self.default_branch@, '/') {
            Err(StoreError::InvalidDefaultBranch)
        } else {
            Ok(())
        }
    }

    /// Refuses a malformed registration.
    pub fn validate(&self) -> (result: Result<(), StoreError>)
        ensures
            result == self.spec_validate(),
    {
        match validate_command_component("principal", self.principal.as_str()) {
            Err(fault) => return Err(fault),
            Ok(()) => {},
        }
        match validate_command_component("command ID", self.command_id.as_str()) {
            Err(fault) => return Err(fault),
            Ok(()) => {},
        }
        match validate_text("repository key", self.repository_key.as_str(), 160) {
            Err(fault) => return Err(fault),
            Ok(()) => {},
        }
        if !begins_with_character(self.canonical_local_path.as_str(), '/') {
            return Err(StoreError::InvalidAbsolutePath { field: "repository path" });
        }
        match validate_text("repository path", self.canonical_local_path.as_str(), 4096) {
            Err(fault) => return Err(fault),
            Ok(()) => {},
        }
        match validate_text("default branch", self.default_branch.as_str(), 240) {
            Err(fault) => return Err(fault),
            Ok(()) => {},
        }
        if contains_white_space(self.default_branch.as_str()) || contains_double_stop(
            self.default_branch.as_str(),
        ) || ends_with_character(self.default_branch.as_str(), '/') {
            return Err(StoreError::InvalidDefaultBranch);
        }
        Ok(())
    }

    /// The bytes a registration is fingerprinted by.
    pub open spec fn preimage(self) -> Seq<u8> {
        encode_utf8(REGISTER_REPOSITORY_OPERATION@) + (framed(self.principal@) + (framed(
            self.command_id@,
        ) + (be64(self.expected_revision.revision.value) + (framed(self.repository_key@) + (framed(
            self.canonical_local_path@,
        ) + framed(self.default_branch@))))))
    }

    /// Fingerprint of a registration.
    pub fn fingerprint(&self) -> (digest: ContentDigest)
        ensures
            digest.bytes == blake3_of(self.preimage()),
    {
        let mut bytes: Vec<u8> = Vec::new();
        push_text(&mut bytes, REGISTER_REPOSITORY_OPERATION);
        push_framed(&mut bytes, self.principal.as_str());
        push_framed(&mut bytes, self.command_id.as_str());
        push_u64(&mut bytes, self.expected_revision.revision.value);
        push_framed(&mut bytes, self.repository_key.as_str());
        push_framed(&mut bytes, self.canonical_local_path.as_str());
        push_framed(&mut bytes, self.default_branch.as_str());
        assert(bytes@ =~= self.preimage());
        ContentDigest::of_bytes(bytes.as_slice())
    }
}

/// Two registrations are hashed from the same bytes only when they agree in
/// every field.
pub proof fn law_repository_preimage_injective(left: RegisterRepository, right: RegisterRepository)
    requires
        frameable(left.principal@),
        frameable(left.command_id@),
        frameable(left.repository_key@),
        frameable(left.canonical_local_path@),
        frameable(left.default_branch@),
        frameable(right.principal@),
        frameable(right.command_id@),
        frameable(right.repository_key@),
        frameable(right.canonical_local_path@),
        frameable(right.default_branch@),
        left.preimage() == right.preimage(),
    ensures
        left.principal@ == right.principal@,
        left.command_id@ == right.command_id@,
        left.expected_revision == right.expected_revision,
        left.repository_key@ == right.repository_key@,
        left.canonical_local_path@ == right.canonical_local_path@,
        left.default_branch@ == right.default_branch@,
{
    let l5 = framed(left.default_branch@);
    let r5 = framed(right.default_branch@);
    let l4 = framed(left.canonical_local_path@) + l5;
    let r4 = framed(right.canonical_local_path@) + r5;
    let l3 = framed(left.repository_key@) + l4;
    let r3 = framed(right.repository_key@) + r4;
    let l2 = be64(left.expected_revision.revision.value) + l3;
    let r2 = be64(right.expected_revision.revision.value) + r3;
    let l1 = framed(left.command_id@) + l2;
    let r1 = framed(right.command_id@) + r2;
    let operation = encode_utf8(REGISTER_REPOSITORY_OPERATION@);
    lemma_concat_split(
        operation,
        framed(left.principal@) + l1,
        operation,
        framed(right.principal@) + r1,
    );
    lemma_framed_head(left.principal@, l1, right.principal@, r1);
    lemma_framed_head(left.command_id@, l2, right.command_id@, r2);
    lemma_be64_head(
        left.expected_revision.revision.value,
        l3,
        right.expected_revision.revision.value,
        r3,
    );
    lemma_framed_head(left.repository_key@, l4, right.repository_key@, r4);
    lemma_framed_head(left.canonical_local_path@, l5, right.canonical_local_path@, r5);
    assert(l5 =~= l5 + Seq::<u8>::empty());
    assert(r5 =~= r5 + Seq::<u8>::empty());
    lemma_framed_head(left.default_branch@, Seq::empty(), right.default_branch@, Seq::empty());
}

/// Whether a registration is admitted, refused, or answered from its receipt.
pub open spec fn spec_admit_repository(
    command: RegisterRepository,
    audit: Option<AuditRow>,
) -> Result<Option<Audit>, StoreError> {
    match command.spec_validate() {
        Err(fault) => Err(fault),
        Ok(()) => spec_replay(
            audit,
            command.principal,
            command.command_id,
            REGISTER_REPOSITORY_OPERATION@,
            ContentDigest { bytes: blake3_of(command.preimage()) },
            REPOSITORY_SUBJECT,
        ),
    }
}

/// Admits a registration or finds the receipt that answers it.
pub fn admit_repository(command: &RegisterRepository, audit: Option<&AuditRow>) -> (result: Result<
    Option<Audit>,
    StoreError,
>)
    ensures
        result == spec_admit_repository(*command, referent(audit)),
{
    match command.validate() {
        Err(fault) => return Err(fault),
        Ok(()) => {},
    }
    replay(
        audit,
        &command.principal,
        &command.command_id,
        REGISTER_REPOSITORY_OPERATION,
        command.fingerprint(),
        REPOSITORY_SUBJECT,
    )
}

/// The repository row to insert.
#[derive(Clone, Copy, Debug, PartialEq, Eq, Structural)]
pub struct RepositoryPlan {
    pub resulting_revision: AggregateRevision,
    pub revision_column: i64,
    pub delivery_mode: i16,
}

/// The plan of a registration, given the revision of the row that already
/// holds the key.
pub open spec fn spec_register_repository(
    command: RegisterRepository,
    registered_revision: Option<i64>,
) -> Result<RepositoryPlan, StoreError> {
    match (match registered_revision {
        Some(revision) => spec_revision_from_sql(revision),
        None => Ok(AggregateRevision::spec_initial()),
    }) {
        Err(fault) => Err(fault),
        Ok(current) => match spec_require_expected(command.expected_revision, current) {
            Err(fault) => Err(fault),
            Ok(()) => if registered_revision is Some {
                Err(
                    StoreError::RepositoryAlreadyRegistered {
                        repository_key: command.repository_key,
                    },
                )
            } else {
                Ok(
                    RepositoryPlan {
                        resulting_revision: AggregateRevision { value: 1 },
                        revision_column: 1,
                        delivery_mode: 0,
                    },
                )
            },
        },
    }
}

/// Plans the first registration of a repository key.
pub fn register_repository(command: &RegisterRepository, registered_revision: Option<i64>) -> (result:
    Result<RepositoryPlan, StoreError>)
    ensures
        result == spec_register_repository(*command, registered_revision),
{
    let current = match registered_revision {
        Some(revision) => match aggregate_revision_from_sql(revision) {
            Ok(revision) => revision,
            Err(fault) => return Err(fault),
        },
        None => AggregateRevision::initial(),
    };
    match require_expected(command.expected_revision, current) {
        Err(fault) => return Err(fault),
        Ok(()) => {},
    }
    if registered_revision.is_some() {
        return Err(
            StoreError::RepositoryAlreadyRegistered {
                repository_key: command.repository_key.clone(),
            },
        );
    }
    let resulting_revision = match next_revision(current) {
        Ok(revision) => revision,
        Err(fault) => return Err(fault),
    };
    match revision_to_sql(resulting_revision) {
        Ok(revision_column) => Ok(
            RepositoryPlan { resulting_revision, revision_column, delivery_mode: 0 },
        ),
        Err(fault) => Err(fault),
    }
}

/// Answers a registration, performed or repeated.
pub fn repository_receipt(
    repository_row: i64,
    resulting_revision: AggregateRevision,
    audit_log_id: i64,
    was_idempotent_retry: bool,
) -> (result: Result<RepositoryReceipt, StoreError>)
    ensures
        result == (if is_identity(repository_row) {
            Ok::<RepositoryReceipt, StoreError>(
                RepositoryReceipt {
                    repository_id: RepositoryId { value: repository_row },
                    resulting_revision,
                    audit_log_id,
                    was_idempotent_retry,
                },
            )
        } else {
            Err(bad_identity())
        }),
{
    match RepositoryId::new(repository_row) {
        Ok(repository_id) => Ok(
            RepositoryReceipt {
                repository_id,
                resulting_revision,
                audit_log_id,
                was_idempotent_retry,
            },
        ),
        Err(fault) => Err(StoreError::Contract(fault)),
    }
}

impl RegisterArtifact {
    pub open spec fn spec_validate(self) -> Result<(), StoreError> {
        if !is_command_component(self.principal@) {
            Err(StoreError::InvalidCommandComponent { field: "principal" })
        } else if !is_command_component(self.command_id@) {
            Err(StoreError::InvalidCommandComponent { field: "command ID" })
        } else {
            Ok(())
        }
    }

    /// Refuses a malformed registration.
    pub fn validate(&self) -> (result: Result<(), StoreError>)
        ensures
            result == self.spec_validate(),
    {
        match validate_command_component("principal", self.principal.as_str()) {
            Err(fault) => return Err(fault),
            Ok(()) => {},
        }
        validate_command_component("command ID", self.command_id.as_str())
    }

    /// The bytes a registration is fingerprinted by.
    pub open spec fn preimage(self) -> Seq<u8> {
        encode_utf8(REGISTER_ARTIFACT_OPERATION@) + (framed(self.principal@) + (framed(
            self.command_id@,
        ) + (be64(self.expected_kernel_build_revision.revision.value) + (
        self.kernel_build_id.digest.bytes@ + (self.sealed.digest.bytes@ + be64(
            self.sealed.byte_length,
        ))))))
    }

    /// Fingerprint of a registration.
    pub fn fingerprint(&self) -> (digest: ContentDigest)
        ensures
            digest.bytes == blake3_of(self.preimage()),
    {
        let mut bytes: Vec<u8> = Vec::new();
        push_text(&mut bytes, REGISTER_ARTIFACT_OPERATION);
        push_framed(&mut bytes, self.principal.as_str());
        push_framed(&mut bytes, self.command_id.as_str());
        push_u64(&mut bytes, self.expected_kernel_build_revision.revision.value);
        push_bytes(&mut bytes, self.kernel_build_id.digest.bytes.as_slice());
        push_bytes(&mut bytes, self.sealed.digest.bytes.as_slice());
        push_u64(&mut bytes, self.sealed.byte_length);
        assert(bytes@ =~= self.preimage());
        ContentDigest::of_bytes(bytes.as_slice())
    }
}

/// Two artifact registrations are hashed from the same bytes only when they
/// agree in every field.
pub proof fn law_artifact_preimage_injective(left: RegisterArtifact, right: RegisterArtifact)
    requires
        frameable(left.principal@),
        frameable(left.command_id@),
        frameable(right.principal@),
        frameable(right.command_id@),
        left.preimage() == right.preimage(),
    ensures
        left.principal@ == right.principal@,
        left.command_id@ == right.command_id@,
        left.expected_kernel_build_revision == right.expected_kernel_build_revision,
        left.kernel_build_id == right.kernel_build_id,
        left.sealed == right.sealed,
{
    let l5 = be64(left.sealed.byte_length);
    let r5 = be64(right.sealed.byte_length);
    let l4 = left.sealed.digest.bytes@ + l5;
    let r4 = right.sealed.digest.bytes@ + r5;
    let l3 = left.kernel_build_id.digest.bytes@ + l4;
    let r3 = right.kernel_build_id.digest.bytes@ + r4;
    let l2 = be64(left.expected_kernel_build_revision.revision.value) + l3;
    let r2 = be64(right.expected_kernel_build_revision.revision.value) + r3;
    let l1 = framed(left.command_id@) + l2;
    let r1 = framed(right.command_id@) + r2;
    let operation = encode_utf8(REGISTER_ARTIFACT_OPERATION@);
    lemma_concat_split(
        operation,
        framed(left.principal@) + l1,
        operation,
        framed(right.principal@) + r1,
    );
    lemma_framed_head(left.principal@, l1, right.principal@, r1);
    lemma_framed_head(left.command_id@, l2, right.command_id@, r2);
    lemma_be64_head(
        left.expected_kernel_build_revision.revision.value,
        l3,
        right.expected_kernel_build_revision.revision.value,
        r3,
    );
    lemma_digest_head(left.kernel_build_id.digest, l4, right.kernel_build_id.digest, r4);
    lemma_digest_head(left.sealed.digest, l5, right.sealed.digest, r5);
    lemma_be64_alone(left.sealed.byte_length, right.sealed.byte_length);
}

/// Whether a registration is admitted, refused, or answered from its receipt.
pub open spec fn spec_admit_artifact(
    command: RegisterArtifact,
    verified: CasArtifact,
    audit: Option<AuditRow>,
) -> Result<Option<Audit>, StoreError> {
    match command.spec_validate() {
        Err(fault) => Err(fault),
        Ok(()) => if verified != command.sealed {
            Err(StoreError::ArtifactSealChanged)
        } else if command.sealed.byte_length > i64::MAX {
            Err(StoreError::ArtifactLengthOutOfRange)
        } else {
            spec_replay(
                audit,
                command.principal,
                command.command_id,
                REGISTER_ARTIFACT_OPERATION@,
                ContentDigest { bytes: blake3_of(command.preimage()) },
                ARTIFACT_SUBJECT,
            )
        },
    }
}

/// Admits a registration whose seal still verifies, or finds the receipt that
/// answers it.
pub fn admit_artifact(
    command: &RegisterArtifact,
    verified: &CasArtifact,
    audit: Option<&AuditRow>,
) -> (result: Result<Option<Audit>, StoreError>)
    ensures
        result == spec_admit_artifact(*command, *verified, referent(audit)),
{
    match command.validate() {
        Err(fault) => return Err(fault),
        Ok(()) => {},
    }
    if !verified.same(&command.sealed) {
        return Err(StoreError::ArtifactSealChanged);
    }
    if command.sealed.byte_length > i64::MAX as u64 {
        return Err(StoreError::ArtifactLengthOutOfRange);
    }
    replay(
        audit,
        &command.principal,
        &command.command_id,
        REGISTER_ARTIFACT_OPERATION,
        command.fingerprint(),
        ARTIFACT_SUBJECT,
    )
}

/// The build an artifact is registered under, as its columns hold it.
#[derive(Clone, Copy, Debug, PartialEq, Eq, Structural)]
pub struct BuildRow {
    pub id: i64,
    pub revision: i64,
}

/// What a registration writes besides its receipt.
#[derive(Clone, Copy, Debug, PartialEq, Eq, Structural)]
pub enum ArtifactTarget {
    /// The bytes are registered already; only a receipt is added.
    Reuse { artifact_row: i64 },
    Insert { byte_length: i64, kernel_build_row: i64 },
}

#[derive(Clone, Copy, Debug, PartialEq, Eq, Structural)]
pub struct ArtifactPlan {
    /// The audited revision: that of the registering build.
    pub build_revision: AggregateRevision,
    pub target: ArtifactTarget,
}

/// The plan of an artifact registration, or the first refusal.
pub open spec fn spec_register_artifact(
    command: RegisterArtifact,
    build: Option<BuildRow>,
    existing: Option<ExistingArtifactRow>,
    canonical_path: Seq<char>,
) -> Result<ArtifactPlan, StoreError> {
    if command.sealed.byte_length > i64::MAX {
        Err(StoreError::ArtifactLengthOutOfRange)
    } else {
        match build {
            None => Err(StoreError::UnknownKernelBuild { kernel_build_id: command.kernel_build_id }),
            Some(build) => match spec_revision_from_sql(build.revision) {
                Err(fault) => Err(fault),
                Ok(build_revision) => match spec_require_expected(
                    command.expected_kernel_build_revision,
                    build_revision,
                ) {
                    Err(fault) => Err(fault),
                    Ok(()) => match existing {
                        None => Ok(
                            ArtifactPlan {
                                build_revision,
                                target: ArtifactTarget::Insert {
                                    byte_length: command.sealed.byte_length as i64,
                                    kernel_build_row: build.id,
                                },
                            },
                        ),
                        Some(row) => if describes_seal(
                            row,
                            command.sealed.byte_length,
                            canonical_path,
                        ) {
                            Ok(
                                ArtifactPlan {
                                    build_revision,
                                    target: ArtifactTarget::Reuse { artifact_row: row.id },
                                },
                            )
                        } else {
                            Err(
                                StoreError::ArtifactIdentityConflict { digest: command.sealed.digest },
                            )
                        },
                    },
                },
            },
        }
    }
}

/// Plans an admitted artifact registration: equal bytes are reused, bytes with
/// other metadata conflict.
pub fn register_artifact(
    command: &RegisterArtifact,
    build: Option<BuildRow>,
    existing: Option<&ExistingArtifactRow>,
    canonical_path: &str,
) -> (result: Result<ArtifactPlan, StoreError>)
    ensures
        result == spec_register_artifact(*command, build, referent(existing), canonical_path@),
{
    if command.sealed.byte_length > i64::MAX as u64 {
        return Err(StoreError::ArtifactLengthOutOfRange);
    }
    let build = match build {
        Some(build) => build,
        None => return Err(
            StoreError::UnknownKernelBuild { kernel_build_id: command.kernel_build_id },
        ),
    };
    let build_revision = match aggregate_revision_from_sql(build.revision) {
        Ok(revision) => revision,
        Err(fault) => return Err(fault),
    };
    match require_expected(command.expected_kernel_build_revision, build_revision) {
        Err(fault) => return Err(fault),
        Ok(()) => {},
    }
    let byte_length: i64 = command.sealed.byte_length as i64;
    match existing {
        None => Ok(
            ArtifactPlan {
                build_revision,
                target: ArtifactTarget::Insert { byte_length, kernel_build_row: build.id },
            },
        ),
        Some(row) => if row.byte_length == byte_length && text_equal(
            row.cas_relative_path.as_str(),
            canonical_path,
        ) {
            Ok(
                ArtifactPlan {
                    build_revision,
                    target: ArtifactTarget::Reuse { artifact_row: row.id },
                },
            )
        } else {
            Err(StoreError::ArtifactIdentityConflict { digest: command.sealed.digest })
        },
    }
}

/// Answers an artifact registration, performed or repeated.
pub fn artifact_receipt(
    artifact_row: i64,
    audit_log_id: i64,
    was_idempotent_retry: bool,
    was_reused: bool,
) -> (result: Result<ArtifactReceipt, StoreError>)
    ensures
        result == (if is_identity(artifact_row) {
            Ok::<ArtifactReceipt, StoreError>(
                ArtifactReceipt {
                    artifact_id: ArtifactId { value: artifact_row },
                    audit_log_id,
                    was_idempotent_retry,
                    was_reused,
                },
            )
        } else {
            Err(bad_identity())
        }),
{
    match ArtifactId::new(artifact_row) {
        Ok(artifact_id) => Ok(
            ArtifactReceipt { artifact_id, audit_log_id, was_idempotent_retry, was_reused },
        ),
        Err(fault) => Err(StoreError::Contract(fault)),
    }
}

/// An artifact row is never rewritten: a registration either inserts the
/// sealed bytes' own description or leaves a row that already carries it.
pub proof fn law_artifact_metadata_is_immutable(
    command: RegisterArtifact,
    build: Option<BuildRow>,
    existing: Option<ExistingArtifactRow>,
    canonical_path: Seq<char>,
)
    requires
        spec_register_artifact(command, build, existing, canonical_path) is Ok,
    ensures
        match spec_register_artifact(command, build, existing, canonical_path)->Ok_0.target {
            ArtifactTarget::Reuse { artifact_row } => existing is Some && existing->0.id
                == artifact_row && existing->0.byte_length == command.sealed.byte_length
                && existing->0.cas_relative_path@ == canonical_path,
            ArtifactTarget::Insert { byte_length, .. } => existing is None && byte_length
                == command.sealed.byte_length,
        },
{
}

/// An installed build, as its columns hold it.
#[derive(Clone, Debug, PartialEq, Eq)]
pub struct InstalledBuildRow {
    pub build_digest: Vec<u8>,
    pub revision: i64,
}

/// Why an installed build row is refused, if it is.
pub open spec fn build_row_fault(row: InstalledBuildRow) -> Option<StoreError> {
    if row.build_digest@.len() != 32 {
        Some(StoreError::CorruptDigestColumn)
    } else if row.revision < 0 {
        Some(StoreError::RevisionOutOfRange)
    } else {
        None
    }
}

fn installed_build(row: &InstalledBuildRow) -> (result: Result<KernelBuildAtRevision, StoreError>)
    ensures
        match result {
            Ok(build) => build_row_fault(*row) is None && build.kernel_build_id.digest.bytes@
                == row.build_digest@ && build.aggregate_revision.value == row.revision,
            Err(fault) => build_row_fault(*row) == Some(fault),
        },
{
    let bytes: [u8; 32] = match bytes_to_digest(row.build_digest.as_slice()) {
        Ok(bytes) => bytes,
        Err(fault) => return Err(fault),
    };
    match aggregate_revision_from_sql(row.revision) {
        Ok(aggregate_revision) => Ok(
            KernelBuildAtRevision {
                kernel_build_id: KernelBuildId { digest: ContentDigest { bytes } },
                aggregate_revision,
            },
        ),
        Err(fault) => Err(fault),
    }
}

/// Reads the current installed build; with none installed, the aggregate is at
/// its initial revision.
pub fn kernel_build_status(current: Option<&InstalledBuildRow>) -> (result: Result<
    KernelBuildStatus,
    StoreError,
>)
    ensures
        match (current, result) {
            (None, Ok(status)) => status.current_kernel_build_id is None
                && status.aggregate_revision == AggregateRevision::spec_initial(),
            (None, Err(_)) => false,
            (Some(row), Ok(status)) => build_row_fault(*row) is None
                && status.current_kernel_build_id is Some
                && status.current_kernel_build_id->0.digest.bytes@ == row.build_digest@
                && status.aggregate_revision.value == row.revision,
            (Some(row), Err(fault)) => build_row_fault(*row) == Some(fault),
        },
{
    match current {
        None => Ok(
            KernelBuildStatus {
                current_kernel_build_id: None,
                aggregate_revision: AggregateRevision::initial(),
            },
        ),
        Some(row) => match installed_build(row) {
            Ok(build) => Ok(
                KernelBuildStatus {
                    current_kernel_build_id: Some(build.kernel_build_id),
                    aggregate_revision: build.aggregate_revision,
                },
            ),
            Err(fault) => Err(fault),
        },
    }
}

/// The revision column under which a build is looked up.
pub fn kernel_build_revision_column(expected_revision: ExpectedRevision) -> (result: Result<
    i64,
    StoreError,
>)
    ensures
        result == spec_revision_to_sql(expected_revision.revision),
{
    revision_to_sql(expected_revision.revision)
}

/// Reads the build installed at one exact revision.
pub fn kernel_build_at_revision(
    expected_revision: ExpectedRevision,
    row: Option<&InstalledBuildRow>,
) -> (result: Result<KernelBuildAtRevision, StoreError>)
    ensures
        match (row, result) {
            (None, Err(fault)) => fault == (StoreError::UnknownKernelBuildRevision {
                expected_revision,
            }),
            (None, Ok(_)) => false,
            (Some(row), Ok(build)) => build_row_fault(*row) is None
                && build.kernel_build_id.digest.bytes@ == row.build_digest@
                && build.aggregate_revision.value == row.revision,
            (Some(row), Err(fault)) => build_row_fault(*row) == Some(fault),
        },
{
    match row {
        None => Err(StoreError::UnknownKernelBuildRevision { expected_revision }),
        Some(row) => installed_build(row),
    }
}

/// The current build joined to its qualification receipt.
#[derive(Clone, Debug, PartialEq, Eq)]
pub struct InstalledReceiptRow {
    pub build_digest: Vec<u8>,
    pub receipt_digest: Vec<u8>,
    pub receipt_byte_length: i64,
    pub cas_relative_path: String,
}

/// The seal of the current build's qualification receipt.
#[derive(Clone, Copy, Debug, PartialEq, Eq)]
pub struct InstalledReceiptSeal {
    pub kernel_build_id: KernelBuildId,
    pub receipt: CasArtifact,
}

/// Why the row of the current receipt is refused, if it is.
pub open spec fn receipt_row_fault(row: InstalledReceiptRow) -> Option<StoreError> {
    if row.build_digest@.len() != 32 || row.receipt_digest@.len() != 32 {
        Some(StoreError::CorruptDigestColumn)
    } else if row.receipt_byte_length < 0 {
        Some(StoreError::ArtifactLengthOutOfRange)
    } else {
        None
    }
}

/// Reads the seal of the current build's qualification receipt.
pub fn installed_receipt_seal(row: &InstalledReceiptRow) -> (result: Result<
    InstalledReceiptSeal,
    StoreError,
>)
    ensures
        match result {
            Ok(seal) => receipt_row_fault(*row) is None && seal.kernel_build_id.digest.bytes@
                == row.build_digest@ && seal.receipt.digest.bytes@ == row.receipt_digest@
                && seal.receipt.byte_length == row.receipt_byte_length,
            Err(fault) => receipt_row_fault(*row) == Some(fault),
        },
{
    let build_bytes: [u8; 32] = match bytes_to_digest(row.build_digest.as_slice()) {
        Ok(bytes) => bytes,
        Err(fault) => return Err(fault),
    };
    let receipt_bytes: [u8; 32] = match bytes_to_digest(row.receipt_digest.as_slice()) {
        Ok(bytes) => bytes,
        Err(fault) => return Err(fault),
    };
    if row.receipt_byte_length < 0 {
        return Err(StoreError::ArtifactLengthOutOfRange);
    }
    Ok(
        InstalledReceiptSeal {
            kernel_build_id: KernelBuildId { digest: ContentDigest { bytes: build_bytes } },
            receipt: CasArtifact {
                digest: ContentDigest { bytes: receipt_bytes },
                byte_length: row.receipt_byte_length as u64,
            },
        },
    )
}

/// Refuses a receipt that is not registered under its canonical path.
pub fn check_receipt_path(persisted_path: &str, canonical_path: &str) -> (result: Result<
    (),
    StoreError,
>)
    ensures
        result == (if persisted_path@ == canonical_path@ {
            Ok::<(), StoreError>(())
        } else {
            Err(StoreError::QualificationReceiptChanged)
        }),
{
    if text_equal(persisted_path, canonical_path) {
        Ok(())
    } else {
        Err(StoreError::QualificationReceiptChanged)
    }
}

/// Holds recovered receipt bytes to their seal: the recorded length, and the
/// build they were installed as.
pub fn check_installed_receipt(
    seal: &InstalledReceiptSeal,
    byte_count: u64,
    receipt_build: &KernelBuildId,
) -> (result: Result<(), StoreError>)
    ensures
        result == (if byte_count == seal.receipt.byte_length && *receipt_build
            == seal.kernel_build_id {
            Ok::<(), StoreError>(())
        } else {
            Err(StoreError::QualificationReceiptChanged)
        }),
{
    if byte_count == seal.receipt.byte_length && receipt_build.same(&seal.kernel_build_id) {
        Ok(())
    } else {
        Err(StoreError::QualificationReceiptChanged)
    }
}

/// The newest application revision, as its columns hold it.
#[derive(Clone, Copy, Debug, PartialEq, Eq, Structural)]
pub struct ApplicationHeadRow {
    pub id: i64,
    pub aggregate_revision: i64,
}

/// Why the newest application revision is refused, if it is.
pub open spec fn application_head_fault(row: ApplicationHeadRow) -> Option<StoreError> {
    if !is_identity(row.id) {
        Some(bad_identity())
    } else if row.aggregate_revision < 0 {
        Some(StoreError::RevisionOutOfRange)
    } else {
        None
    }
}

/// Reads the status of an application; one without revisions is at its
/// initial revision.
pub fn application_status(application_key: &ApplicationKey, current: Option<ApplicationHeadRow>) -> (result:
    Result<ApplicationStatus, StoreError>)
    ensures
        match (current, result) {
            (None, Ok(status)) => status.application_key.value == application_key.value
                && status.application_revision_id is None && status.aggregate_revision
                == AggregateRevision::spec_initial(),
            (None, Err(_)) => false,
            (Some(row), Ok(status)) => application_head_fault(row) is None
                && status.application_key.value == application_key.value
                && status.application_revision_id == Some(ApplicationRevisionId { value: row.id })
                && status.aggregate_revision.value == row.aggregate_revision,
            (Some(row), Err(fault)) => application_head_fault(row) == Some(fault),
        },
{
    let key = ApplicationKey { value: application_key.value.clone() };
    let row = match current {
        None => return Ok(
            ApplicationStatus {
                application_key: key,
                application_revision_id: None,
                aggregate_revision: AggregateRevision::initial(),
            },
        ),
        Some(row) => row,
    };
    let application_revision_id = match ApplicationRevisionId::new(row.id) {
        Ok(id) => id,
        Err(fault) => return Err(StoreError::Contract(fault)),
    };
    match aggregate_revision_from_sql(row.aggregate_revision) {
        Ok(aggregate_revision) => Ok(
            ApplicationStatus {
                application_key: key,
                application_revision_id: Some(application_revision_id),
                aggregate_revision,
            },
        ),
        Err(fault) => Err(fault),
    }
}

/// One application revision, as its columns hold it.
#[derive(Clone, Copy, Debug, PartialEq, Eq, Structural)]
pub struct ApplicationRevisionRow {
    pub id: i64,
    pub aggregate_revision: i64,
    pub bundle_artifact_id: i64,
    pub is_active: bool,
}

/// Why a view of an application revision is refused, if it is.
pub open spec fn application_view_fault(
    application_key: ApplicationKey,
    application_revision_id: Option<ApplicationRevisionId>,
    row: Option<ApplicationRevisionRow>,
) -> Option<StoreError> {
    match row {
        None => Some(
            StoreError::UnknownApplicationRevisionForKey {
                application_key: application_key.value,
                application_revision_id,
            },
        ),
        Some(row) => if !is_identity(row.id) {
            Some(bad_identity())
        } else if row.aggregate_revision < 0 {
            Some(StoreError::RevisionOutOfRange)
        } else if !is_identity(row.bundle_artifact_id) {
            Some(bad_identity())
        } else {
            None
        },
    }
}

/// Reads one application revision.
pub fn application_revision_view(
    application_key: &ApplicationKey,
    application_revision_id: Option<ApplicationRevisionId>,
    row: Option<ApplicationRevisionRow>,
) -> (result: Result<ApplicationRevisionView, StoreError>)
    ensures
        match result {
            Err(fault) => application_view_fault(
                *application_key,
                application_revision_id,
                row,
            ) == Some(fault),
            Ok(view) => {
                &&& application_view_fault(*application_key, application_revision_id, row) is None
                &&& view.application_key.value == application_key.value
                &&& view.application_revision_id.value == row->0.id
                &&& view.aggregate_revision.value == row->0.aggregate_revision
                &&& view.bundle_artifact_id.value == row->0.bundle_artifact_id
                &&& view.is_active == row->0.is_active
            },
        },
{
    let row = match row {
        Some(row) => row,
        None => return Err(
            StoreError::UnknownApplicationRevisionForKey {
                application_key: application_key.value.clone(),
                application_revision_id,
            },
        ),
    };
    let application_revision_id = match ApplicationRevisionId::new(row.id) {
        Ok(id) => id,
        Err(fault) => return Err(StoreError::Contract(fault)),
    };
    let aggregate_revision = match aggregate_revision_from_sql(row.aggregate_revision) {
        Ok(revision) => revision,
        Err(fault) => return Err(fault),
    };
    let bundle_artifact_id = match ArtifactId::new(row.bundle_artifact_id) {
        Ok(id) => id,
        Err(fault) => return Err(StoreError::Contract(fault)),
    };
    Ok(
        ApplicationRevisionView {
            application_key: ApplicationKey { value: application_key.value.clone() },
            application_revision_id,
            aggregate_revision,
            bundle_artifact_id,
            is_active: row.is_active,
        },
    )
}

/// Why a file an actor left behind is not registered.
#[derive(Clone, Debug, PartialEq, Eq)]
pub enum ArtifactAdoptionError {
    SizeLimitExceeded { maximum: u64, observed: u64 },
    Store(StoreError),
}

/// Why a sealed file is not registered for an actor, if it is not: it exceeds
/// its limit, or its build is unknown.
pub open spec fn adoption_fault(
    sealed: CasArtifact,
    byte_limit: u64,
    kernel_build_id: KernelBuildId,
    build_revision: Option<i64>,
) -> Option<ArtifactAdoptionError> {
    if byte_limit == 0 || sealed.byte_length > byte_limit {
        Some(
            ArtifactAdoptionError::SizeLimitExceeded {
                maximum: byte_limit,
                observed: sealed.byte_length,
            },
        )
    } else {
        match build_revision {
            None => Some(
                ArtifactAdoptionError::Store(StoreError::UnknownKernelBuild { kernel_build_id }),
            ),
            Some(revision) => match spec_revision_from_sql(revision) {
                Err(fault) => Some(ArtifactAdoptionError::Store(fault)),
                Ok(_) => None,
            },
        }
    }
}

/// The command that registers a file an actor or the kernel sealed, fenced by
/// the current revision of its build.
pub fn adopted_artifact_command(
    principal: &String,
    command_id: &String,
    kernel_build_id: KernelBuildId,
    build_revision: Option<i64>,
    sealed: CasArtifact,
    byte_limit: u64,
) -> (result: Result<RegisterArtifact, ArtifactAdoptionError>)
    ensures
        match result {
            Err(fault) => adoption_fault(sealed, byte_limit, kernel_build_id, build_revision)
                == Some(fault),
            Ok(command) => {
                &&& adoption_fault(sealed, byte_limit, kernel_build_id, build_revision) is None
                &&& command == (RegisterArtifact {
                    principal: *principal,
                    command_id: *command_id,
                    expected_kernel_build_revision: ExpectedRevision {
                        revision: AggregateRevision { value: build_revision->0 as u64 },
                    },
                    kernel_build_id,
                    sealed,
                })
            },
        },
{
    if byte_limit == 0 || sealed.byte_length > byte_limit {
        return Err(
            ArtifactAdoptionError::SizeLimitExceeded {
                maximum: byte_limit,
                observed: sealed.byte_length,
            },
        );
    }
    let revision: i64 = match build_revision {
        Some(revision) => revision,
        None => return Err(
            ArtifactAdoptionError::Store(StoreError::UnknownKernelBuild { kernel_build_id }),
        ),
    };
    match aggregate_revision_from_sql(revision) {
        Err(fault) => Err(ArtifactAdoptionError::Store(fault)),
        Ok(revision) => Ok(
            RegisterArtifact {
                principal: principal.clone(),
                command_id: command_id.clone(),
                expected_kernel_build_revision: ExpectedRevision::new(revision),
                kernel_build_id,
                sealed,
            },
        ),
    }
}

/// Refuses an artifact the principal never registered: a guessed identity is no
/// capability.
pub fn require_artifact_owner(owned: bool) -> (result: Result<(), StoreError>)
    ensures
        result == (if owned {
            Ok::<(), StoreError>(())
        } else {
            Err(StoreError::ArtifactBuildMismatch)
        }),
{
    if owned {
        Ok(())
    } else {
        Err(StoreError::ArtifactBuildMismatch)
    }
}

/// An installation is well formed exactly with command keys, the schema of this
/// library, an absolute runtime path and bounded texts.
pub proof fn law_installation_is_well_formed(command: InstallKernelBuild)
    ensures
        command.spec_validate() is Ok <==> {
            &&& is_command_component(command.principal@)
            &&& is_command_component(command.command_id@)
            &&& is_bounded_text(command.schema_identity@, 160)
            &&& command.schema_identity@ == "factory-v3-schema:initial-authority-v1"@
            &&& command.deno_executable_path@.len() > 0 && command.deno_executable_path@[0] == '/'
            &&& is_bounded_text(command.deno_executable_path@, 4096)
            &&& is_bounded_text(command.deno_version@, 240)
        },
{
}

/// A build is installed exactly at the expected revision, with a qualification
/// receipt that fits and that no other artifact contradicts; the head moves on
/// by one revision.
pub proof fn law_build_is_installed_exactly_at_its_revision(
    command: InstallKernelBuild,
    current: i64,
    existing: Option<ExistingArtifactRow>,
    canonical_path: Seq<char>,
)
    ensures
        ({
            let planned = spec_install(command, current, existing, canonical_path);
            let seal = command.qualification_receipt;
            &&& planned is Ok <==> {
                &&& current == command.expected_revision.revision.value
                &&& current < i64::MAX
                &&& seal.byte_length <= i64::MAX
                &&& existing matches Some(row) ==> row.byte_length == seal.byte_length
                    && row.cas_relative_path@ == canonical_path
            }
            &&& planned matches Ok(plan) ==> {
                &&& plan.resulting_revision.value == current + 1
                &&& plan.revision_column == current + 1
                &&& existing matches Some(row) ==> plan.qualification == (
                QualificationArtifact::Existing { id: row.id })
                &&& existing is None ==> plan.qualification == (QualificationArtifact::Insert {
                    byte_length: seal.byte_length as i64,
                })
            }
            &&& planned == Err::<InstallPlan, StoreError>(
                StoreError::ArtifactIdentityConflict { digest: seal.digest },
            ) ==> existing is Some && (existing->0.byte_length != seal.byte_length
                || existing->0.cas_relative_path@ != canonical_path)
            &&& planned matches Err(StoreError::RevisionConflict { expected, current: found })
                ==> expected == command.expected_revision && found.value == current
                && expected.revision != found
        }),
{
}

/// A repository is well formed exactly with command keys, an absolute path and
/// a branch without white space, without two stops in a row and without a
/// trailing slash.
pub proof fn law_repository_is_well_formed(command: RegisterRepository)
    ensures
        command.spec_validate() is Ok <==> {
            let branch = command.default_branch@;
            &&& is_command_component(command.principal@)
            &&& is_command_component(command.command_id@)
            &&& is_bounded_text(command.repository_key@, 160)
            &&& command.canonical_local_path@.len() > 0 && command.canonical_local_path@[0] == '/'
            &&& is_bounded_text(command.canonical_local_path@, 4096)
            &&& is_bounded_text(branch, 240)
            &&& !has_white_space(branch)
            &&& forall|i: int|
                0 <= i < branch.len() - 1 ==> !(#[trigger] branch[i] == '.' && branch[i + 1] == '.')
            &&& branch.len() > 0 ==> branch.last() != '/'
        },
{
    let branch = command.default_branch@;
    assert(has_double_stop(branch) <==> exists|i: int|
        0 <= i < branch.len() - 1 && #[trigger] branch[i] == '.' && branch[i + 1] == '.');
}

/// A repository is registered once: at the first revision where none is under
/// its key, and never again.
pub proof fn law_repository_is_registered_once(
    command: RegisterRepository,
    registered_revision: Option<i64>,
)
    ensures
        ({
            let planned = spec_register_repository(command, registered_revision);
            &&& planned is Ok <==> registered_revision is None
                && command.expected_revision.revision.value == 0
            &&& planned matches Ok(plan) ==> plan.resulting_revision.value == 1
                && plan.revision_column == 1 && plan.delivery_mode == 0
            &&& planned == Err::<RepositoryPlan, StoreError>(
                StoreError::RepositoryAlreadyRegistered { repository_key: command.repository_key },
            ) <==> registered_revision is Some && registered_revision->0
                == command.expected_revision.revision.value
        }),
{
}

/// An artifact is registered exactly under an installed build at the expected
/// revision with a length that fits; bytes registered before are used again if
/// they agree, and refused if not.
pub proof fn law_artifact_is_registered_or_used_again(
    command: RegisterArtifact,
    build: Option<BuildRow>,
    existing: Option<ExistingArtifactRow>,
    canonical_path: Seq<char>,
)
    ensures
        ({
            let planned = spec_register_artifact(command, build, existing, canonical_path);
            let owned = command.sealed.byte_length <= i64::MAX && build is Some && build->0.revision
                == command.expected_kernel_build_revision.revision.value;
            let agrees = existing is Some && existing->0.byte_length == command.sealed.byte_length
                && existing->0.cas_relative_path@ == canonical_path;
            &&& planned is Ok <==> owned && (existing is None || agrees)
            &&& planned matches Ok(plan) ==> {
                &&& plan.build_revision.value == build->0.revision
                &&& existing is Some ==> plan.target == (ArtifactTarget::Reuse {
                    artifact_row: existing->0.id,
                })
                &&& existing is None ==> plan.target == (ArtifactTarget::Insert {
                    byte_length: command.sealed.byte_length as i64,
                    kernel_build_row: build->0.id,
                })
            }
            &&& planned == Err::<ArtifactPlan, StoreError>(
                StoreError::ArtifactIdentityConflict { digest: command.sealed.digest },
            ) <==> owned && existing is Some && !agrees
        }),
{
}

/// A database server is accepted exactly from major version eighteen on.
pub proof fn law_server_is_recent(server_version_num: String)
    ensures
        spec_postgres_baseline(server_version_num) is Ok <==> spec_parse_u32(server_version_num@)
            is Some && spec_parse_u32(server_version_num@)->0 >= 180_000,
{
}

/// Rows of installed builds, receipts and applications are read exactly when
/// digests are whole, identities positive, and revisions and lengths not
/// negative; bytes are adopted exactly within a positive limit under a known
/// build.
pub proof fn law_authority_rows_are_read_strictly(
    build: InstalledBuildRow,
    receipt: InstalledReceiptRow,
    head: ApplicationHeadRow,
    key: ApplicationKey,
    wanted: Option<ApplicationRevisionId>,
    revision: Option<ApplicationRevisionRow>,
    sealed: CasArtifact,
    byte_limit: u64,
    kernel_build_id: KernelBuildId,
    build_revision: Option<i64>,
)
    ensures
        build_row_fault(build) is None <==> build.build_digest@.len() == 32 && build.revision >= 0,
        receipt_row_fault(receipt) is None <==> receipt.build_digest@.len() == 32
            && receipt.receipt_digest@.len() == 32 && receipt.receipt_byte_length >= 0,
        application_head_fault(head) is None <==> head.id > 0 && head.aggregate_revision >= 0,
        application_view_fault(key, wanted, revision) is None <==> revision is Some
            && revision->0.id > 0 && revision->0.aggregate_revision >= 0
            && revision->0.bundle_artifact_id > 0,
        adoption_fault(sealed, byte_limit, kernel_build_id, build_revision) is None <==> {
            &&& 0 < byte_limit && sealed.byte_length <= byte_limit
            &&& build_revision is Some && build_revision->0 >= 0
        },
        adoption_fault(sealed, byte_limit, kernel_build_id, build_revision) == Some(
            ArtifactAdoptionError::SizeLimitExceeded {
                maximum: byte_limit,
                observed: sealed.byte_length,
            },
        ) <==> byte_limit == 0 || sealed.byte_length > byte_limit,
{
}

/// An installation is looked up exactly when it is well formed and its receipt
/// read back; it is then fresh without a receipt, and answered by a receipt
/// exactly when that is its own.
pub proof fn law_installation_is_looked_up(
    command: InstallKernelBuild,
    verified: CasArtifact,
    audit: Option<AuditRow>,
)
    ensures
        ({
            let fresh = spec_admit_install(command, verified, None);
            let answer = spec_admit_install(command, verified, audit);
            let well_formed = {
                &&& command.spec_validate() is Ok
                &&& verified == command.qualification_receipt
            };
            let recorded = audit is Some && crate::audit::is_receipt_of(
                audit->0,
                "kernel_build.install"@,
                blake3_of(command.preimage()),
                0,
            );
            &&& fresh == Ok::<Option<Audit>, StoreError>(None) <==> well_formed
            &&& answer is Ok <==> well_formed && (audit is None || recorded)
            &&& answer matches Ok(Some(receipt)) ==> crate::audit::repeats(receipt, audit->0)
            &&& audit is Some ==> answer != Ok::<Option<Audit>, StoreError>(None)
        }),
{
}

/// A repository is looked up exactly when it is well formed;
/// it is then fresh without a receipt, and answered by a receipt exactly when
/// that is its own.
pub proof fn law_repository_is_looked_up(
    command: RegisterRepository,
    audit: Option<AuditRow>,
)
    ensures
        ({
            let fresh = spec_admit_repository(command, None);
            let answer = spec_admit_repository(command, audit);
            let well_formed = {
                &&& command.spec_validate() is Ok
            };
            let recorded = audit is Some && crate::audit::is_receipt_of(
                audit->0,
                "repository.register"@,
                blake3_of(command.preimage()),
                2,
            );
            &&& fresh == Ok::<Option<Audit>, StoreError>(None) <==> well_formed
            &&& answer is Ok <==> well_formed && (audit is None || recorded)
            &&& answer matches Ok(Some(receipt)) ==> crate::audit::repeats(receipt, audit->0)
            &&& audit is Some ==> answer != Ok::<Option<Audit>, StoreError>(None)
        }),
{
}

/// An artifact is looked up exactly when its key is well formed and its seal
/// read back; it is then fresh without a receipt, and answered by a receipt
/// exactly when that is its own.
pub proof fn law_artifact_is_looked_up(
    command: RegisterArtifact,
    verified: CasArtifact,
    audit: Option<AuditRow>,
)
    ensures
        ({
            let fresh = spec_admit_artifact(command, verified, None);
            let answer = spec_admit_artifact(command, verified, audit);
            let well_formed = {
                &&& is_command_component(command.principal@)
                &&& is_command_component(command.command_id@)
                &&& verified == command.sealed
                &&& command.sealed.byte_length <= i64::MAX
            };
            let recorded = audit is Some && crate::audit::is_receipt_of(
                audit->0,
                "artifact.register"@,
                blake3_of(command.preimage()),
                3,
            );
            &&& fresh == Ok::<Option<Audit>, StoreError>(None) <==> well_formed
            &&& answer is Ok <==> well_formed && (audit is None || recorded)
            &&& answer matches Ok(Some(receipt)) ==> crate::audit::repeats(receipt, audit->0)
            &&& audit is Some ==> answer != Ok::<Option<Audit>, StoreError>(None)
        }),
{
}

/// The bytes of a command on builds, repositories and artifacts are its
/// operation's name, its key and its fields, one behind the other.
pub proof fn law_authority_commands_are_written_in_order(
    install: InstallKernelBuild,
    repository: RegisterRepository,
    artifact: RegisterArtifact,
)
    ensures
        install.preimage() == encode_utf8("kernel_build.install"@) + (framed(install.principal@) + (
        framed(install.command_id@) + (be64(install.expected_revision.revision.value) + (
        install.build_id.digest.bytes@ + (install.source_digest.bytes@ + (
        install.binary_digest.bytes@ + (framed(install.schema_identity@) + (framed(
            install.deno_executable_path@,
        ) + (framed(install.deno_version@) + (install.deno_lock_digest.bytes@ + (
        install.qualification_receipt.digest.bytes@ + be64(
            install.qualification_receipt.byte_length,
        )))))))))))),
        repository.preimage() == encode_utf8("repository.register"@) + (framed(
            repository.principal@,
        ) + (framed(repository.command_id@) + (be64(repository.expected_revision.revision.value) + (
        framed(repository.repository_key@) + (framed(repository.canonical_local_path@) + framed(
            repository.default_branch@,
        )))))),
        artifact.preimage() == encode_utf8("artifact.register"@) + (framed(artifact.principal@) + (
        framed(artifact.command_id@) + (be64(
            artifact.expected_kernel_build_revision.revision.value,
        ) + (artifact.kernel_build_id.digest.bytes@ + (artifact.sealed.digest.bytes@ + be64(
            artifact.sealed.byte_length,
        )))))),
{
}

/// An installed path is absolute text without a zero byte; a field is valid
/// exactly when it is a command component, or text within its bound.
pub proof fn law_installed_fields_are_valid(
    path: Seq<u8>,
    field: &'static str,
    value: Seq<char>,
    maximum: int,
)
    ensures
        is_installed_path(path) <==> valid_utf8(path) && path.len() > 0 && path[0] == 47
            && !path.contains(0u8),
        spec_validate_command_component(field, value) is Ok <==> is_command_component(value),
        spec_validate_text(field, value, maximum) is Ok <==> is_bounded_text(value, maximum),
{
}

} // verus!
