//! Immutable, anchored publications: what one may say, how it is identified,
//! and where its row points.

use vstd::prelude::*;
use vstd::string::StringExecFns;

use crate::audit::{records_command, AuditRow};
use crate::digest::{blake3_of, ContentDigest};
use crate::encoding::{
    be_i64, frameable, framed, lemma_be_i64_head, lemma_be_i64_len, lemma_concat_assoc,
    lemma_framed_head, lemma_short_text_is_frameable, push_framed, push_i64,
};
use crate::identity::{
    AggregateRevision, ArtifactId, AuditLogId, ClaimId, ContractError, DecisionId, ExperimentId,
    ExperimentRunId, OfficeId, ProjectId, PublicationId, RfcId, RfcRevisionId, SessionId, TicketId,
    TicketRevisionId,
};
use crate::text::{
    bounded_text_ok, bytes_equal, command_component_ok, decimal, is_bounded_text,
    is_command_component, push_decimal_i64, text_equal,
};

verus! {

/// Subject kind of publication receipts.
pub const PUBLICATION_SUBJECT: i16 = 60;

pub const CREATE_PUBLICATION_OPERATION: &'static str = "publication.create";

/// Principal of the operator's publications.
pub const OPERATOR_PRINCIPAL: &'static str = "grand-architect";

/// An institutional object a publication may speak of.
#[derive(Clone, Copy, Debug, PartialEq, Eq, Structural)]
pub enum InstitutionalReference {
    Project(ProjectId),
    Rfc(RfcId),
    RfcRevision(RfcRevisionId),
    Ticket(TicketId),
    TicketRevision(TicketRevisionId),
    Experiment(ExperimentId),
    ExperimentRun(ExperimentRunId),
    Claim(ClaimId),
    Decision(DecisionId),
    Office(OfficeId),
    Publication(PublicationId),
}

impl InstitutionalReference {
    /// Whether a publication can hang on the object.
    pub open spec fn spec_can_anchor_publication(self) -> bool {
        !(self is ExperimentRun) && !(self is Publication)
    }

    /// The name of the object's kind.
    pub open spec fn spec_kind_name(self) -> &'static str {
        match self {
            InstitutionalReference::Project(_) => "project",
            InstitutionalReference::Rfc(_) => "rfc",
            InstitutionalReference::RfcRevision(_) => "rfc_revision",
            InstitutionalReference::Ticket(_) => "ticket",
            InstitutionalReference::TicketRevision(_) => "ticket_revision",
            InstitutionalReference::Experiment(_) => "experiment",
            InstitutionalReference::ExperimentRun(_) => "experiment_run",
            InstitutionalReference::Claim(_) => "claim",
            InstitutionalReference::Decision(_) => "decision",
            InstitutionalReference::Office(_) => "office",
            InstitutionalReference::Publication(_) => "publication",
        }
    }

    /// The object's identity.
    pub open spec fn spec_id(self) -> i64 {
        match self {
            InstitutionalReference::Project(id) => id.value,
            InstitutionalReference::Rfc(id) => id.value,
            InstitutionalReference::RfcRevision(id) => id.value,
            InstitutionalReference::Ticket(id) => id.value,
            InstitutionalReference::TicketRevision(id) => id.value,
            InstitutionalReference::Experiment(id) => id.value,
            InstitutionalReference::ExperimentRun(id) => id.value,
            InstitutionalReference::Claim(id) => id.value,
            InstitutionalReference::Decision(id) => id.value,
            InstitutionalReference::Office(id) => id.value,
            InstitutionalReference::Publication(id) => id.value,
        }
    }

    /// Whether a publication can hang on the object.
    pub fn can_anchor_publication(self) -> (can: bool)
        ensures
            can == self.spec_can_anchor_publication(),
    {
        match self {
            InstitutionalReference::ExperimentRun(_) | InstitutionalReference::Publication(_) => false,
            _ => true,
        }
    }

    /// The name of the object's kind.
    pub fn kind_name(self) -> (name: &'static str)
        ensures
            name == self.spec_kind_name(),
    {
        match self {
            InstitutionalReference::Project(_) => "project",
            InstitutionalReference::Rfc(_) => "rfc",
            InstitutionalReference::RfcRevision(_) => "rfc_revision",
            InstitutionalReference::Ticket(_) => "ticket",
            InstitutionalReference::TicketRevision(_) => "ticket_revision",
            InstitutionalReference::Experiment(_) => "experiment",
            InstitutionalReference::ExperimentRun(_) => "experiment_run",
            InstitutionalReference::Claim(_) => "claim",
            InstitutionalReference::Decision(_) => "decision",
            InstitutionalReference::Office(_) => "office",
            InstitutionalReference::Publication(_) => "publication",
        }
    }

    /// The object's identity.
    pub fn id(self) -> (id: i64)
        ensures
            id == self.spec_id(),
    {
        match self {
            InstitutionalReference::Project(id) => id.value,
            InstitutionalReference::Rfc(id) => id.value,
            InstitutionalReference::RfcRevision(id) => id.value,
            InstitutionalReference::Ticket(id) => id.value,
            InstitutionalReference::TicketRevision(id) => id.value,
            InstitutionalReference::Experiment(id) => id.value,
            InstitutionalReference::ExperimentRun(id) => id.value,
            InstitutionalReference::Claim(id) => id.value,
            InstitutionalReference::Decision(id) => id.value,
            InstitutionalReference::Office(id) => id.value,
            InstitutionalReference::Publication(id) => id.value,
        }
    }
}

/// What a publication is. Its stored code is its position in this list.
#[derive(Clone, Copy, Debug, PartialEq, Eq, Structural)]
pub enum PublicationKind {
    Finding,
    Question,
    Challenge,
    Correction,
    DecisionLink,
    Note,
}

pub open spec fn spec_publication_kind_code(kind: PublicationKind) -> i16 {
    match kind {
        PublicationKind::Finding => 0,
        PublicationKind::Question => 1,
        PublicationKind::Challenge => 2,
        PublicationKind::Correction => 3,
        PublicationKind::DecisionLink => 4,
        PublicationKind::Note => 5,
    }
}

pub fn publication_kind_code(kind: PublicationKind) -> (code: i16)
    ensures
        code == spec_publication_kind_code(kind),
{
    match kind {
        PublicationKind::Finding => 0,
        PublicationKind::Question => 1,
        PublicationKind::Challenge => 2,
        PublicationKind::Correction => 3,
        PublicationKind::DecisionLink => 4,
        PublicationKind::Note => 5,
    }
}

pub open spec fn spec_publication_kind_name(kind: PublicationKind) -> &'static str {
    match kind {
        PublicationKind::Finding => "finding",
        PublicationKind::Question => "question",
        PublicationKind::Challenge => "challenge",
        PublicationKind::Correction => "correction",
        PublicationKind::DecisionLink => "decision_link",
        PublicationKind::Note => "note",
    }
}

pub fn publication_kind_name(kind: PublicationKind) -> (name: &'static str)
    ensures
        name == spec_publication_kind_name(kind),
{
    match kind {
        PublicationKind::Finding => "finding",
        PublicationKind::Question => "question",
        PublicationKind::Challenge => "challenge",
        PublicationKind::Correction => "correction",
        PublicationKind::DecisionLink => "decision_link",
        PublicationKind::Note => "note",
    }
}

/// A supporting artifact.
#[derive(Clone, Debug, PartialEq, Eq)]
pub struct PublicationAttachmentInput {
    pub artifact_id: ArtifactId,
    pub label: String,
}

/// The command that creates one publication.
#[derive(Clone, Debug, PartialEq, Eq)]
pub struct CreatePublication {
    pub client_command_id: String,
    pub anchor: InstitutionalReference,
    pub kind: PublicationKind,
    pub summary: String,
    pub body_artifact_id: ArtifactId,
    pub attachments: Vec<PublicationAttachmentInput>,
    pub reply_to: Option<PublicationId>,
    pub supersedes: Option<PublicationId>,
}

/// The answer to a publication command.
#[derive(Clone, Copy, Debug, PartialEq, Eq, Structural)]
pub struct PublicationReceipt {
    pub publication_id: PublicationId,
    pub resulting_revision: AggregateRevision,
    pub audit_log_id: AuditLogId,
    pub was_idempotent_retry: bool,
}

/// How much a publication may carry.
#[derive(Clone, Copy, Debug, PartialEq, Eq, Structural)]
pub struct PublicationLimits {
    pub summary_bytes: usize,
    pub attachments: usize,
    pub label_bytes: usize,
}

/// Why a publication is refused.
#[allow(inconsistent_fields)]
#[derive(Clone, Debug, PartialEq, Eq)]
pub enum PublicationStoreError {
    InvalidCommandIdentity,
    InvalidAnchor,
    InvalidSummary,
    AttachmentLimitExceeded,
    InvalidAttachmentLabel,
    /// Body and attachments name one artifact twice.
    DuplicateAttachmentArtifact,
    /// The bound session does not run with its admitted office.
    BoundSessionUnavailable,
    InactiveOrUnknownOffice { office_id: OfficeId },
    UnknownArtifact { artifact_id: ArtifactId },
    IdempotencyConflict { principal: String, command_id: String },
    AuditSubjectKindMismatch,
    RevisionOutOfRange,
    Contract(ContractError),
}

/// The artifacts of a command in order: the body, then the attachments.
pub open spec fn publication_artifacts(command: CreatePublication) -> Seq<ArtifactId> {
    seq![command.body_artifact_id] + command.attachments@.map_values(
        |attachment: PublicationAttachmentInput| attachment.artifact_id,
    )
}

/// What is wrong with the first bad attachment from `at` on.
pub open spec fn attachments_fault(
    command: CreatePublication,
    limits: PublicationLimits,
    at: int,
) -> Option<PublicationStoreError>
    decreases command.attachments@.len() - at,
{
    if at < 0 || at >= command.attachments@.len() {
        None
    } else if !is_bounded_text(command.attachments@[at].label@, limits.label_bytes as int) {
        Some(PublicationStoreError::InvalidAttachmentLabel)
    } else if publication_artifacts(command).take(at + 1).contains(
        command.attachments@[at].artifact_id,
    ) {
        Some(PublicationStoreError::DuplicateAttachmentArtifact)
    } else {
        attachments_fault(command, limits, at + 1)
    }
}

/// Why a command is refused, if it is.
pub open spec fn publication_fault(
    command: CreatePublication,
    limits: PublicationLimits,
) -> Option<PublicationStoreError> {
    if !is_command_component(command.client_command_id@) {
        Some(PublicationStoreError::InvalidCommandIdentity)
    } else if !command.anchor.spec_can_anchor_publication() {
        Some(PublicationStoreError::InvalidAnchor)
    } else if !is_bounded_text(command.summary@, limits.summary_bytes as int) {
        Some(PublicationStoreError::InvalidSummary)
    } else if command.attachments@.len() > limits.attachments {
        Some(PublicationStoreError::AttachmentLimitExceeded)
    } else {
        attachments_fault(command, limits, 0)
    }
}

/// Whether the body or an attachment before `at` names the artifact of the
/// attachment there.
fn repeats_artifact(command: &CreatePublication, at: usize) -> (repeats: bool)
    requires
        at < command.attachments@.len(),
    ensures
        repeats == publication_artifacts(*command).take(at + 1).contains(
            command.attachments@[at as int].artifact_id,
        ),
{
    let wanted = command.attachments[at].artifact_id;
    let ghost all = publication_artifacts(*command).take(at + 1);
    if command.body_artifact_id.value == wanted.value {
        assert(all[0] == wanted);
        return true;
    }
    let mut index: usize = 0;
    while index < at
        invariant
            index <= at < command.attachments@.len(),
            all == publication_artifacts(*command).take(at + 1),
            wanted == command.attachments@[at as int].artifact_id,
            command.body_artifact_id != wanted,
            forall|i: int|
                0 <= i < index ==> (#[trigger] command.attachments@[i]).artifact_id != wanted,
        decreases at - index,
    {
        if command.attachments[index].artifact_id.value == wanted.value {
            assert(all[index + 1] == wanted);
            return true;
        }
        index += 1;
    }
    proof {
        assert forall|i: int| 0 <= i < all.len() implies all[i] != wanted by {
            if i > 0 {
                assert(all[i] == command.attachments@[i - 1].artifact_id);
            }
        }
    }
    false
}

/// Validates a publication command.
pub fn validate_command(command: &CreatePublication, limits: PublicationLimits) -> (result: Result<
    (),
    PublicationStoreError,
>)
    ensures
        result == (match publication_fault(*command, limits) {
            Some(fault) => Err::<(), PublicationStoreError>(fault),
            None => Ok(()),
        }),
{
    if !command_component_ok(command.client_command_id.as_str()) {
        return Err(PublicationStoreError::InvalidCommandIdentity);
    }
    if !command.anchor.can_anchor_publication() {
        return Err(PublicationStoreError::InvalidAnchor);
    }
    if !bounded_text_ok(command.summary.as_str(), limits.summary_bytes) {
        return Err(PublicationStoreError::InvalidSummary);
    }
    if command.attachments.len() > limits.attachments {
        return Err(PublicationStoreError::AttachmentLimitExceeded);
    }
    let mut at: usize = 0;
    while at < command.attachments.len()
        invariant
            at <= command.attachments.len(),
            publication_fault(*command, limits) == attachments_fault(*command, limits, at as int),
        decreases command.attachments.len() - at,
    {
        let attachment = &command.attachments[at];
        if !bounded_text_ok(attachment.label.as_str(), limits.label_bytes) {
            return Err(PublicationStoreError::InvalidAttachmentLabel);
        }
        if repeats_artifact(command, at) {
            return Err(PublicationStoreError::DuplicateAttachmentArtifact);
        }
        at += 1;
    }
    Ok(())
}

proof fn lemma_sound_attachment(
    command: CreatePublication,
    limits: PublicationLimits,
    from: int,
    at: int,
)
    requires
        0 <= from <= at < command.attachments@.len(),
        attachments_fault(command, limits, from) is None,
    ensures
        !publication_artifacts(command).take(at + 1).contains(command.attachments@[at].artifact_id),
    decreases at - from,
{
    if from < at {
        lemma_sound_attachment(command, limits, from + 1, at);
    }
}

/// An accepted publication names every artifact once.
pub proof fn law_publication_artifacts_are_distinct(
    command: CreatePublication,
    limits: PublicationLimits,
)
    requires
        publication_fault(command, limits) is None,
    ensures
        publication_artifacts(command).no_duplicates(),
{
    let all = publication_artifacts(command);
    assert forall|i: int, j: int| 0 <= i < j < all.len() implies all[i] != all[j] by {
        lemma_sound_attachment(command, limits, 0, j - 1);
        assert(all[j] == command.attachments@[j - 1].artifact_id);
        assert(all.take(j)[i] == all[i]);
    }
}

/// An attachment as its digest holds it.
pub open spec fn attachment_bytes(attachment: PublicationAttachmentInput) -> Seq<u8> {
    be_i64(attachment.artifact_id.value) + framed(attachment.label@)
}

/// Attachments behind one another.
pub open spec fn attachments_bytes(attachments: Seq<PublicationAttachmentInput>) -> Seq<u8>
    decreases attachments.len(),
{
    if attachments.len() == 0 {
        Seq::empty()
    } else {
        attachment_bytes(attachments[0]) + attachments_bytes(attachments.skip(1))
    }
}

/// An optional publication; an absent one is zero, which is no identity.
pub open spec fn publication_word(publication: Option<PublicationId>) -> i64 {
    match publication {
        Some(id) => id.value,
        None => 0,
    }
}

/// The publications a command answers or replaces.
pub open spec fn link_bytes(command: CreatePublication) -> Seq<u8> {
    be_i64(publication_word(command.reply_to)) + be_i64(publication_word(command.supersedes))
}

/// The bytes a publication command is identified by.
pub open spec fn publication_preimage(command: CreatePublication) -> Seq<u8> {
    framed(CREATE_PUBLICATION_OPERATION@) + (framed(command.client_command_id@) + (framed(
        command.anchor.spec_kind_name()@,
    ) + (be_i64(command.anchor.spec_id()) + (framed(spec_publication_kind_name(command.kind)@) + (
    framed(command.summary@) + (be_i64(command.body_artifact_id.value) + (attachments_bytes(
        command.attachments@,
    ) + link_bytes(command))))))))
}

/// Appends attachments as their digest holds them.
fn push_attachments(output: &mut Vec<u8>, attachments: &Vec<PublicationAttachmentInput>)
    ensures
        final(output)@ == old(output)@ + attachments_bytes(attachments@),
{
    let mut at: usize = 0;
    assert(attachments@.skip(0) =~= attachments@);
    assert(output@ + attachments_bytes(attachments@.skip(0)) =~= old(output)@ + attachments_bytes(
        attachments@,
    ));
    while at < attachments.len()
        invariant
            at <= attachments.len(),
            output@ + attachments_bytes(attachments@.skip(at as int)) == old(output)@
                + attachments_bytes(attachments@),
        decreases attachments.len() - at,
    {
        let ghost before = output@;
        let ghost rest = attachments_bytes(attachments@.skip(at as int + 1));
        push_i64(output, attachments[at].artifact_id.value);
        push_framed(output, attachments[at].label.as_str());
        proof {
            let here = attachments@.skip(at as int);
            assert(here.skip(1) =~= attachments@.skip(at as int + 1));
            assert(output@ =~= before + attachment_bytes(attachments@[at as int]));
            lemma_concat_assoc(before, attachment_bytes(attachments@[at as int]), rest);
        }
        at += 1;
    }
    assert(attachments@.skip(at as int) =~= Seq::empty());
    assert(output@ + Seq::<u8>::empty() =~= output@);
}

/// Digest under which a publication command is idempotent.
#[verifier::rlimit(40)]
pub fn fingerprint(command: &CreatePublication) -> (digest: ContentDigest)
    ensures
        digest.bytes == blake3_of(publication_preimage(*command)),
{
    let mut head: Vec<u8> = Vec::new();
    push_framed(&mut head, CREATE_PUBLICATION_OPERATION);
    push_framed(&mut head, command.client_command_id.as_str());
    push_framed(&mut head, command.anchor.kind_name());
    push_i64(&mut head, command.anchor.id());
    push_framed(&mut head, publication_kind_name(command.kind));
    push_framed(&mut head, command.summary.as_str());
    push_i64(&mut head, command.body_artifact_id.value);
    push_attachments(&mut head, &command.attachments);
    push_i64(
        &mut head,
        match command.reply_to {
            Some(id) => id.value,
            None => 0,
        },
    );
    push_i64(
        &mut head,
        match command.supersedes {
            Some(id) => id.value,
            None => 0,
        },
    );
    proof {
        let a = framed(CREATE_PUBLICATION_OPERATION@);
        let b = framed(command.client_command_id@);
        let c = framed(command.anchor.spec_kind_name()@);
        let d = be_i64(command.anchor.spec_id());
        let e = framed(spec_publication_kind_name(command.kind)@);
        let f = framed(command.summary@);
        let g = be_i64(command.body_artifact_id.value);
        let h = attachments_bytes(command.attachments@);
        let i = be_i64(publication_word(command.reply_to));
        let j = be_i64(publication_word(command.supersedes));
        assert(Seq::<u8>::empty() + a =~= a);
        assert(head@ == a + b + c + d + e + f + g + h + i + j);
        lemma_concat_assoc(a + b + c + d + e + f + g + h, i, j);
        lemma_concat_assoc(a + b + c + d + e + f + g, h, i + j);
        lemma_concat_assoc(a + b + c + d + e + f, g, h + (i + j));
        lemma_concat_assoc(a + b + c + d + e, f, g + (h + (i + j)));
        lemma_concat_assoc(a + b + c + d, e, f + (g + (h + (i + j))));
        lemma_concat_assoc(a + b + c, d, e + (f + (g + (h + (i + j)))));
        lemma_concat_assoc(a + b, c, d + (e + (f + (g + (h + (i + j))))));
        lemma_concat_assoc(a, b, c + (d + (e + (f + (g + (h + (i + j)))))));
    }
    ContentDigest::of_bytes(head.as_slice())
}

/// Whether every identity of a command is one, and every text can be framed.
pub open spec fn well_formed_publication(command: CreatePublication) -> bool {
    &&& frameable(command.client_command_id@)
    &&& frameable(command.summary@)
    &&& forall|i: int|
        0 <= i < command.attachments@.len() ==> frameable(
            (#[trigger] command.attachments@[i]).label@,
        )
    &&& command.reply_to matches Some(id) ==> id.value > 0
    &&& command.supersedes matches Some(id) ==> id.value > 0
}

/// Whether two lists of attachments say the same.
pub open spec fn same_attachments(
    left: Seq<PublicationAttachmentInput>,
    right: Seq<PublicationAttachmentInput>,
) -> bool {
    &&& left.len() == right.len()
    &&& forall|i: int|
        0 <= i < left.len() ==> (#[trigger] left[i]).artifact_id == right[i].artifact_id
            && left[i].label@ == right[i].label@
}

/// Whether two commands say the same.
pub open spec fn same_publication(left: CreatePublication, right: CreatePublication) -> bool {
    &&& left.client_command_id@ == right.client_command_id@
    &&& left.anchor == right.anchor
    &&& left.kind == right.kind
    &&& left.summary@ == right.summary@
    &&& left.body_artifact_id == right.body_artifact_id
    &&& same_attachments(left.attachments@, right.attachments@)
    &&& left.reply_to == right.reply_to
    &&& left.supersedes == right.supersedes
}

/// Attachments that end in sixteen bytes of links are told from one another.
proof fn lemma_attachments_read_back(
    left: Seq<PublicationAttachmentInput>,
    left_links: Seq<u8>,
    right: Seq<PublicationAttachmentInput>,
    right_links: Seq<u8>,
)
    requires
        left_links.len() == 16,
        right_links.len() == 16,
        attachments_bytes(left) + left_links == attachments_bytes(right) + right_links,
        forall|i: int| 0 <= i < left.len() ==> frameable((#[trigger] left[i]).label@),
        forall|i: int| 0 <= i < right.len() ==> frameable((#[trigger] right[i]).label@),
    ensures
        same_attachments(left, right),
        left_links == right_links,
    decreases left.len(),
{
    if left.len() == 0 || right.len() == 0 {
        lemma_attachments_have_bytes(left);
        lemma_attachments_have_bytes(right);
        let l = attachments_bytes(left) + left_links;
        let r = attachments_bytes(right) + right_links;
        assert(l.len() == attachments_bytes(left).len() + 16);
        assert(r.len() == attachments_bytes(right).len() + 16);
        assert(l =~= left_links);
        assert(r =~= right_links);
    } else {
        let rest_left = attachments_bytes(left.skip(1)) + left_links;
        let rest_right = attachments_bytes(right.skip(1)) + right_links;
        let id_left = be_i64(left[0].artifact_id.value);
        let id_right = be_i64(right[0].artifact_id.value);
        assert(attachments_bytes(left) + left_links =~= id_left + (framed(left[0].label@)
            + rest_left));
        assert(attachments_bytes(right) + right_links =~= id_right + (framed(right[0].label@)
            + rest_right));
        lemma_be_i64_head(
            left[0].artifact_id.value,
            framed(left[0].label@) + rest_left,
            right[0].artifact_id.value,
            framed(right[0].label@) + rest_right,
        );
        lemma_framed_head(left[0].label@, rest_left, right[0].label@, rest_right);
        assert forall|i: int| 0 <= i < left.skip(1).len() implies frameable(
            (#[trigger] left.skip(1)[i]).label@,
        ) by {
            assert(left.skip(1)[i] == left[i + 1]);
        }
        assert forall|i: int| 0 <= i < right.skip(1).len() implies frameable(
            (#[trigger] right.skip(1)[i]).label@,
        ) by {
            assert(right.skip(1)[i] == right[i + 1]);
        }
        lemma_attachments_read_back(left.skip(1), left_links, right.skip(1), right_links);
        assert forall|i: int| 0 <= i < left.len() implies (#[trigger] left[i]).artifact_id
            == right[i].artifact_id && left[i].label@ == right[i].label@ by {
            if i > 0 {
                assert(left.skip(1)[i - 1] == left[i]);
                assert(right.skip(1)[i - 1] == right[i]);
            }
        }
    }
}

proof fn lemma_attachments_have_bytes(attachments: Seq<PublicationAttachmentInput>)
    ensures
        attachments.len() > 0 ==> attachments_bytes(attachments).len() > 0,
{
    if attachments.len() > 0 {
        lemma_be_i64_len(attachments[0].artifact_id.value);
    }
}

/// The names a command is framed with are short.
#[verifier::spinoff_prover]
proof fn lemma_names_are_frameable(command: CreatePublication)
    ensures
        frameable(CREATE_PUBLICATION_OPERATION@),
        frameable(command.anchor.spec_kind_name()@),
        frameable(spec_publication_kind_name(command.kind)@),
{
    reveal_strlit("publication.create");
    reveal_strlit("project");
    reveal_strlit("rfc");
    reveal_strlit("rfc_revision");
    reveal_strlit("ticket");
    reveal_strlit("ticket_revision");
    reveal_strlit("experiment");
    reveal_strlit("experiment_run");
    reveal_strlit("claim");
    reveal_strlit("decision");
    reveal_strlit("office");
    reveal_strlit("publication");
    reveal_strlit("finding");
    reveal_strlit("question");
    reveal_strlit("challenge");
    reveal_strlit("correction");
    reveal_strlit("decision_link");
    reveal_strlit("note");
    lemma_short_text_is_frameable(CREATE_PUBLICATION_OPERATION@);
    lemma_short_text_is_frameable(command.anchor.spec_kind_name()@);
    lemma_short_text_is_frameable(spec_publication_kind_name(command.kind)@);
}

/// The kind name and identity of an anchor determine it.
#[verifier::spinoff_prover]
proof fn lemma_anchor_read_back(left: InstitutionalReference, right: InstitutionalReference)
    requires
        left.spec_kind_name()@ == right.spec_kind_name()@,
        left.spec_id() == right.spec_id(),
    ensures
        left == right,
{
    reveal_strlit("project");
    reveal_strlit("rfc");
    reveal_strlit("rfc_revision");
    reveal_strlit("ticket");
    reveal_strlit("ticket_revision");
    reveal_strlit("experiment");
    reveal_strlit("experiment_run");
    reveal_strlit("claim");
    reveal_strlit("decision");
    reveal_strlit("office");
    reveal_strlit("publication");
    let l = left.spec_kind_name()@;
    let r = right.spec_kind_name()@;
    assert(l.len() == r.len());
    assert(l[0] == r[0]);
}

/// The name of a kind determines it.
proof fn lemma_kind_read_back(left: PublicationKind, right: PublicationKind)
    requires
        spec_publication_kind_name(left)@ == spec_publication_kind_name(right)@,
    ensures
        left == right,
{
    reveal_strlit("finding");
    reveal_strlit("question");
    reveal_strlit("challenge");
    reveal_strlit("correction");
    reveal_strlit("decision_link");
    reveal_strlit("note");
    assert("finding"@.len() == 7);
    assert("question"@.len() == 8);
    assert("challenge"@.len() == 9);
    assert("correction"@.len() == 10);
    assert("decision_link"@.len() == 13);
    assert("note"@.len() == 4);
}

/// Two publication commands have one preimage only if they say the same: every
/// field takes part, attachments in their order.
pub proof fn law_publication_preimage_injective(left: CreatePublication, right: CreatePublication)
    requires
        well_formed_publication(left),
        well_formed_publication(right),
        publication_preimage(left) == publication_preimage(right),
    ensures
        same_publication(left, right),
{
    let tail_l = attachments_bytes(left.attachments@) + link_bytes(left);
    let tail_r = attachments_bytes(right.attachments@) + link_bytes(right);
    let body_l = be_i64(left.body_artifact_id.value) + tail_l;
    let body_r = be_i64(right.body_artifact_id.value) + tail_r;
    let summary_l = framed(left.summary@) + body_l;
    let summary_r = framed(right.summary@) + body_r;
    let kind_l = framed(spec_publication_kind_name(left.kind)@) + summary_l;
    let kind_r = framed(spec_publication_kind_name(right.kind)@) + summary_r;
    let id_l = be_i64(left.anchor.spec_id()) + kind_l;
    let id_r = be_i64(right.anchor.spec_id()) + kind_r;
    let anchor_l = framed(left.anchor.spec_kind_name()@) + id_l;
    let anchor_r = framed(right.anchor.spec_kind_name()@) + id_r;
    let command_l = framed(left.client_command_id@) + anchor_l;
    let command_r = framed(right.client_command_id@) + anchor_r;
    lemma_names_are_frameable(left);
    lemma_names_are_frameable(right);
    lemma_framed_head(
        CREATE_PUBLICATION_OPERATION@,
        command_l,
        CREATE_PUBLICATION_OPERATION@,
        command_r,
    );
    lemma_framed_head(left.client_command_id@, anchor_l, right.client_command_id@, anchor_r);
    lemma_framed_head(left.anchor.spec_kind_name()@, id_l, right.anchor.spec_kind_name()@, id_r);
    lemma_be_i64_head(left.anchor.spec_id(), kind_l, right.anchor.spec_id(), kind_r);
    lemma_framed_head(
        spec_publication_kind_name(left.kind)@,
        summary_l,
        spec_publication_kind_name(right.kind)@,
        summary_r,
    );
    lemma_framed_head(left.summary@, body_l, right.summary@, body_r);
    lemma_be_i64_head(left.body_artifact_id.value, tail_l, right.body_artifact_id.value, tail_r);
    lemma_anchor_read_back(left.anchor, right.anchor);
    lemma_kind_read_back(left.kind, right.kind);
    lemma_be_i64_len(publication_word(left.reply_to));
    lemma_be_i64_len(publication_word(left.supersedes));
    lemma_be_i64_len(publication_word(right.reply_to));
    lemma_be_i64_len(publication_word(right.supersedes));
    lemma_attachments_read_back(
        left.attachments@,
        link_bytes(left),
        right.attachments@,
        link_bytes(right),
    );
    lemma_be_i64_head(
        publication_word(left.reply_to),
        be_i64(publication_word(left.supersedes)),
        publication_word(right.reply_to),
        be_i64(publication_word(right.supersedes)),
    );
    let none = Seq::<u8>::empty();
    assert(be_i64(publication_word(left.supersedes)) + none =~= be_i64(
        publication_word(right.supersedes),
    ) + none);
    lemma_be_i64_head(
        publication_word(left.supersedes),
        none,
        publication_word(right.supersedes),
        none,
    );
}

/// The anchor of a publication as its row holds it: one column is set.
#[derive(Clone, Copy, Debug, PartialEq, Eq, Structural)]
pub struct AnchorColumns {
    pub project_id: Option<i64>,
    pub rfc_id: Option<i64>,
    pub rfc_revision_id: Option<i64>,
    pub ticket_id: Option<i64>,
    pub ticket_revision_id: Option<i64>,
    pub experiment_id: Option<i64>,
    pub claim_id: Option<i64>,
    pub decision_id: Option<i64>,
    pub office_id: Option<i64>,
}

impl AnchorColumns {
    /// No column is set.
    pub open spec fn spec_default() -> AnchorColumns {
        AnchorColumns {
            project_id: None,
            rfc_id: None,
            rfc_revision_id: None,
            ticket_id: None,
            ticket_revision_id: None,
            experiment_id: None,
            claim_id: None,
            decision_id: None,
            office_id: None,
        }
    }

    /// How many columns are set.
    pub open spec fn set_columns(self) -> int {
        (if self.project_id is Some { 1int } else { 0 }) + (if self.rfc_id is Some { 1int } else { 0
        }) + (if self.rfc_revision_id is Some { 1int } else { 0 }) + (if self.ticket_id is Some {
            1int
        } else { 0 }) + (if self.ticket_revision_id is Some { 1int } else { 0 }) + (
        if self.experiment_id is Some { 1int } else { 0 }) + (if self.claim_id is Some { 1int } else {
            0
        }) + (if self.decision_id is Some { 1int } else { 0 }) + (if self.office_id is Some { 1int
        } else { 0 })
    }
}

impl Default for AnchorColumns {
    /// No column is set.
    fn default() -> (columns: AnchorColumns)
        ensures
            columns == AnchorColumns::spec_default(),
    {
        AnchorColumns {
            project_id: None,
            rfc_id: None,
            rfc_revision_id: None,
            ticket_id: None,
            ticket_revision_id: None,
            experiment_id: None,
            claim_id: None,
            decision_id: None,
            office_id: None,
        }
    }
}

/// The columns of an anchor.
pub open spec fn spec_anchor_columns(reference: InstitutionalReference) -> AnchorColumns {
    let none = AnchorColumns::spec_default();
    match reference {
        InstitutionalReference::Project(id) => AnchorColumns {
            project_id: Some(id.value),
            ..none
        },
        InstitutionalReference::Rfc(id) => AnchorColumns { rfc_id: Some(id.value), ..none },
        InstitutionalReference::RfcRevision(id) => AnchorColumns {
            rfc_revision_id: Some(id.value),
            ..none
        },
        InstitutionalReference::Ticket(id) => AnchorColumns { ticket_id: Some(id.value), ..none },
        InstitutionalReference::TicketRevision(id) => AnchorColumns {
            ticket_revision_id: Some(id.value),
            ..none
        },
        InstitutionalReference::Experiment(id) => AnchorColumns {
            experiment_id: Some(id.value),
            ..none
        },
        InstitutionalReference::Claim(id) => AnchorColumns { claim_id: Some(id.value), ..none },
        InstitutionalReference::Decision(id) => AnchorColumns {
            decision_id: Some(id.value),
            ..none
        },
        InstitutionalReference::Office(id) => AnchorColumns { office_id: Some(id.value), ..none },
        _ => none,
    }
}

/// The columns of an anchor that can carry a publication.
pub fn anchor_columns(reference: InstitutionalReference) -> (columns: AnchorColumns)
    requires
        reference.spec_can_anchor_publication(),
    ensures
        columns == spec_anchor_columns(reference),
{
    let mut columns = AnchorColumns::default();
    match reference {
        InstitutionalReference::Project(id) => {
            columns.project_id = Some(id.value);
        },
        InstitutionalReference::Rfc(id) => {
            columns.rfc_id = Some(id.value);
        },
        InstitutionalReference::RfcRevision(id) => {
            columns.rfc_revision_id = Some(id.value);
        },
        InstitutionalReference::Ticket(id) => {
            columns.ticket_id = Some(id.value);
        },
        InstitutionalReference::TicketRevision(id) => {
            columns.ticket_revision_id = Some(id.value);
        },
        InstitutionalReference::Experiment(id) => {
            columns.experiment_id = Some(id.value);
        },
        InstitutionalReference::Claim(id) => {
            columns.claim_id = Some(id.value);
        },
        InstitutionalReference::Decision(id) => {
            columns.decision_id = Some(id.value);
        },
        InstitutionalReference::Office(id) => {
            columns.office_id = Some(id.value);
        },
        _ => {},
    }
    columns
}

/// A publication hangs on exactly one object, and its row says which.
pub proof fn law_anchor_sets_one_column(left: InstitutionalReference, right: InstitutionalReference)
    requires
        left.spec_can_anchor_publication(),
        right.spec_can_anchor_publication(),
    ensures
        spec_anchor_columns(left).set_columns() == 1,
        spec_anchor_columns(left) == spec_anchor_columns(right) ==> left == right,
{
}

/// The principal of a publication made by a session.
pub fn session_principal(session_id: SessionId) -> (text: String)
    ensures
        text@ == "session:"@ + decimal(session_id.value as int),
{
    let mut text = String::new();
    text.append("session:");
    push_decimal_i64(&mut text, session_id.value);
    assert(text@ =~= "session:"@ + decimal(session_id.value as int));
    text
}

/// The office of a bound session, from its row.
pub fn bound_actor_office(row: Option<i64>) -> (result: Result<OfficeId, PublicationStoreError>)
    ensures
        result == (match row {
            None => Err::<OfficeId, PublicationStoreError>(
                PublicationStoreError::BoundSessionUnavailable,
            ),
            Some(value) => match OfficeId::spec_new(value) {
                Ok(office) => Ok(office),
                Err(fault) => Err(PublicationStoreError::Contract(fault)),
            },
        }),
{
    match row {
        None => Err(PublicationStoreError::BoundSessionUnavailable),
        Some(value) => match OfficeId::new(value) {
            Ok(office) => Ok(office),
            Err(fault) => Err(PublicationStoreError::Contract(fault)),
        },
    }
}

/// Refuses an office that is not active for the application revision.
pub fn require_active_office(active: bool, office_id: OfficeId) -> (result: Result<
    (),
    PublicationStoreError,
>)
    ensures
        result == (if active {
            Ok::<(), PublicationStoreError>(())
        } else {
            Err(PublicationStoreError::InactiveOrUnknownOffice { office_id })
        }),
{
    if active {
        Ok(())
    } else {
        Err(PublicationStoreError::InactiveOrUnknownOffice { office_id })
    }
}

/// What a command key's persisted receipt means for a publication: nothing
/// yet, the same publication again, or a conflict.
pub open spec fn spec_find_idempotent(
    row: Option<AuditRow>,
    principal: String,
    command: CreatePublication,
    digest: ContentDigest,
) -> Result<Option<PublicationReceipt>, PublicationStoreError> {
    match row {
        None => Ok(None),
        Some(row) => if !records_command(row, CREATE_PUBLICATION_OPERATION@, digest) {
            Err(
                PublicationStoreError::IdempotencyConflict {
                    principal,
                    command_id: command.client_command_id,
                },
            )
        } else if row.resulting_revision < 0 {
            Err(PublicationStoreError::RevisionOutOfRange)
        } else if row.subject_kind != PUBLICATION_SUBJECT {
            Err(PublicationStoreError::AuditSubjectKindMismatch)
        } else {
            match (PublicationId::spec_new(row.subject_id), AuditLogId::spec_new(row.id)) {
                (Err(fault), _) => Err(PublicationStoreError::Contract(fault)),
                (_, Err(fault)) => Err(PublicationStoreError::Contract(fault)),
                (Ok(publication_id), Ok(audit_log_id)) => Ok(
                    Some(
                        PublicationReceipt {
                            publication_id,
                            resulting_revision: AggregateRevision {
                                value: row.resulting_revision as u64,
                            },
                            audit_log_id,
                            was_idempotent_retry: true,
                        },
                    ),
                ),
            }
        },
    }
}

/// Looks a publication up under its command key.
pub fn find_idempotent(
    row: Option<&AuditRow>,
    principal: &String,
    command: &CreatePublication,
    digest: ContentDigest,
) -> (result: Result<Option<PublicationReceipt>, PublicationStoreError>)
    ensures
        result == spec_find_idempotent(
            match row {
                Some(row) => Some(*row),
                None => None,
            },
            *principal,
            *command,
            digest,
        ),
{
    let row = match row {
        None => return Ok(None),
        Some(row) => row,
    };
    if !text_equal(row.operation.as_str(), CREATE_PUBLICATION_OPERATION) || !bytes_equal(
        row.command_fingerprint.as_slice(),
        digest.bytes.as_slice(),
    ) {
        return Err(
            PublicationStoreError::IdempotencyConflict {
                principal: principal.clone(),
                command_id: command.client_command_id.clone(),
            },
        );
    }
    if row.resulting_revision < 0 {
        return Err(PublicationStoreError::RevisionOutOfRange);
    }
    if row.subject_kind != PUBLICATION_SUBJECT {
        return Err(PublicationStoreError::AuditSubjectKindMismatch);
    }
    let publication_id = match PublicationId::new(row.subject_id) {
        Ok(id) => id,
        Err(fault) => return Err(PublicationStoreError::Contract(fault)),
    };
    let audit_log_id = match AuditLogId::new(row.id) {
        Ok(id) => id,
        Err(fault) => return Err(PublicationStoreError::Contract(fault)),
    };
    Ok(
        Some(
            PublicationReceipt {
                publication_id,
                resulting_revision: AggregateRevision::from_persisted(
                    row.resulting_revision as u64,
                ),
                audit_log_id,
                was_idempotent_retry: true,
            },
        ),
    )
}

/// What a command leads to: the receipt of a publication made before, or a new
/// publication.
pub open spec fn spec_admit_publication(
    command: CreatePublication,
    limits: PublicationLimits,
    principal: String,
    row: Option<AuditRow>,
    digest: ContentDigest,
) -> Result<Option<PublicationReceipt>, PublicationStoreError> {
    match publication_fault(command, limits) {
        Some(fault) => Err(fault),
        None => spec_find_idempotent(row, principal, command, digest),
    }
}

/// Admits a publication command: it is valid, and either new or an exact
/// repetition.
pub fn admit_publication(
    command: &CreatePublication,
    limits: PublicationLimits,
    principal: &String,
    row: Option<&AuditRow>,
) -> (result: Result<Option<PublicationReceipt>, PublicationStoreError>)
    ensures
        result == spec_admit_publication(
            *command,
            limits,
            *principal,
            match row {
                Some(row) => Some(*row),
                None => None,
            },
            ContentDigest { bytes: blake3_of(publication_preimage(*command)) },
        ),
{
    match validate_command(command, limits) {
        Err(fault) => Err(fault),
        Ok(()) => find_idempotent(row, principal, command, fingerprint(command)),
    }
}

/// The row of a new publication, apart from its provenance.
#[derive(Clone, Debug, PartialEq, Eq)]
pub struct PublicationRow {
    pub kind: i16,
    pub anchor: AnchorColumns,
    pub reply_to: Option<i64>,
    pub supersedes: Option<i64>,
}

/// The first artifact of a command that is not registered. `known` says of each
/// artifact, the body first, whether it is.
pub open spec fn first_unknown(artifacts: Seq<ArtifactId>, known: Seq<bool>) -> Option<ArtifactId>
    decreases artifacts.len(),
{
    if artifacts.len() == 0 {
        None
    } else if !known[0] {
        Some(artifacts[0])
    } else {
        first_unknown(artifacts.skip(1), known.skip(1))
    }
}

/// An optional identity as its column holds it.
pub open spec fn publication_column(publication: Option<PublicationId>) -> Option<i64> {
    match publication {
        Some(id) => Some(id.value),
        None => None,
    }
}

/// Plans the row of an admitted publication whose artifacts are all
/// registered.
pub fn plan_publication(command: &CreatePublication, known: &Vec<bool>) -> (result: Result<
    PublicationRow,
    PublicationStoreError,
>)
    requires
        command.anchor.spec_can_anchor_publication(),
        known@.len() == publication_artifacts(*command).len(),
    ensures
        result == (match first_unknown(publication_artifacts(*command), known@) {
            Some(artifact_id) => Err::<PublicationRow, PublicationStoreError>(
                PublicationStoreError::UnknownArtifact { artifact_id },
            ),
            None => Ok(
                PublicationRow {
                    kind: spec_publication_kind_code(command.kind),
                    anchor: spec_anchor_columns(command.anchor),
                    reply_to: publication_column(command.reply_to),
                    supersedes: publication_column(command.supersedes),
                },
            ),
        }),
{
    let ghost all = publication_artifacts(*command);
    proof {
        assert(all[0] == command.body_artifact_id);
        assert(all.skip(0) =~= all);
        assert(known@.skip(0) =~= known@);
    }
    if !known[0] {
        return Err(
            PublicationStoreError::UnknownArtifact { artifact_id: command.body_artifact_id },
        );
    }
    let mut at: usize = 0;
    while at < command.attachments.len()
        invariant
            at <= command.attachments.len(),
            all == publication_artifacts(*command),
            known@.len() == all.len() == command.attachments@.len() + 1,
            first_unknown(all, known@) == first_unknown(all.skip(at + 1), known@.skip(at + 1)),
        decreases command.attachments.len() - at,
    {
        proof {
            assert(all[at + 1] == command.attachments@[at as int].artifact_id);
            assert(all.skip(at + 1).skip(1) =~= all.skip(at + 2));
            assert(known@.skip(at + 1).skip(1) =~= known@.skip(at + 2));
        }
        if !known[at + 1] {
            return Err(
                PublicationStoreError::UnknownArtifact {
                    artifact_id: command.attachments[at].artifact_id,
                },
            );
        }
        at += 1;
    }
    Ok(
        PublicationRow {
            kind: publication_kind_code(command.kind),
            anchor: anchor_columns(command.anchor),
            reply_to: match command.reply_to {
                Some(id) => Some(id.value),
                None => None,
            },
            supersedes: match command.supersedes {
                Some(id) => Some(id.value),
                None => None,
            },
        },
    )
}

/// The receipt of a new publication, at its first revision.
pub fn created_publication_receipt(publication_row: i64, audit_row: i64) -> (result: Result<
    PublicationReceipt,
    PublicationStoreError,
>)
    ensures
        result == (match (PublicationId::spec_new(publication_row), AuditLogId::spec_new(
            audit_row,
        )) {
            (Err(fault), _) => Err::<PublicationReceipt, PublicationStoreError>(
                PublicationStoreError::Contract(fault),
            ),
            (_, Err(fault)) => Err(PublicationStoreError::Contract(fault)),
            (Ok(publication_id), Ok(audit_log_id)) => Ok(
                PublicationReceipt {
                    publication_id,
                    resulting_revision: AggregateRevision::spec_initial(),
                    audit_log_id,
                    was_idempotent_retry: false,
                },
            ),
        }),
{
    let publication_id = match PublicationId::new(publication_row) {
        Ok(id) => id,
        Err(fault) => return Err(PublicationStoreError::Contract(fault)),
    };
    match AuditLogId::new(audit_row) {
        Ok(audit_log_id) => Ok(
            PublicationReceipt {
                publication_id,
                resulting_revision: AggregateRevision::initial(),
                audit_log_id,
                was_idempotent_retry: false,
            },
        ),
        Err(fault) => Err(PublicationStoreError::Contract(fault)),
    }
}

/// A repeated publication is answered with the receipt of the first one: same
/// publication, same revision, same audit entry, marked as a repetition.
pub proof fn law_created_publication_replays(
    command: CreatePublication,
    principal: String,
    digest: ContentDigest,
    row: AuditRow,
    receipt: PublicationReceipt,
)
    requires
        records_command(row, CREATE_PUBLICATION_OPERATION@, digest),
        row.subject_kind == PUBLICATION_SUBJECT,
        row.subject_id == receipt.publication_id.value,
        row.id == receipt.audit_log_id.value,
        row.resulting_revision == receipt.resulting_revision.value,
        receipt.publication_id.value > 0,
        receipt.audit_log_id.value > 0,
    ensures
        spec_find_idempotent(Some(row), principal, command, digest) == Ok::<
            Option<PublicationReceipt>,
            PublicationStoreError,
        >(Some(PublicationReceipt { was_idempotent_retry: true, ..receipt })),
{
}

/// An attachment as a request spells it.
#[derive(Clone, Debug, PartialEq, Eq)]
pub struct PublicationAttachmentWire {
    pub artifact_id: i64,
    pub label: String,
}

/// A request to publish. The anchor and kind are read from their wire names
/// beforehand.
#[derive(Debug, PartialEq, Eq)]
pub struct PublicationCreateRequest {
    pub client_command_id: String,
    pub anchor: Result<InstitutionalReference, ContractError>,
    pub kind: Result<PublicationKind, ContractError>,
    pub summary: String,
    pub body_artifact_id: i64,
    pub attachments: Vec<PublicationAttachmentWire>,
    pub reply_to: Option<i64>,
    pub supersedes: Option<i64>,
}

/// The first attachment of a request that names no artifact.
pub open spec fn wire_attachments_fault(attachments: Seq<PublicationAttachmentWire>) -> Option<
    ContractError,
>
    decreases attachments.len(),
{
    if attachments.len() == 0 {
        None
    } else {
        match ArtifactId::spec_new(attachments[0].artifact_id) {
            Err(fault) => Some(fault),
            Ok(_) => wire_attachments_fault(attachments.skip(1)),
        }
    }
}

/// What is wrong with an optional publication of a request.
pub open spec fn wire_link_fault(publication: Option<i64>) -> Option<ContractError> {
    match publication {
        None => None,
        Some(value) => match PublicationId::spec_new(value) {
            Err(fault) => Some(fault),
            Ok(_) => None,
        },
    }
}

/// Why a request spells no command, if it does not.
pub open spec fn request_fault(request: PublicationCreateRequest) -> Option<ContractError> {
    match request.anchor {
        Err(fault) => Some(fault),
        Ok(_) => match request.kind {
            Err(fault) => Some(fault),
            Ok(_) => match ArtifactId::spec_new(request.body_artifact_id) {
                Err(fault) => Some(fault),
                Ok(_) => match wire_attachments_fault(request.attachments@) {
                    Some(fault) => Some(fault),
                    None => match wire_link_fault(request.reply_to) {
                        Some(fault) => Some(fault),
                        None => wire_link_fault(request.supersedes),
                    },
                },
            },
        },
    }
}

/// Whether a command is the one a request spells.
pub open spec fn spells_command(
    request: PublicationCreateRequest,
    command: CreatePublication,
) -> bool {
    &&& command.client_command_id == request.client_command_id
    &&& request.anchor == Ok::<InstitutionalReference, ContractError>(command.anchor)
    &&& request.kind == Ok::<PublicationKind, ContractError>(command.kind)
    &&& command.summary == request.summary
    &&& command.body_artifact_id.value == request.body_artifact_id
    &&& command.attachments@.len() == request.attachments@.len()
    &&& forall|i: int|
        0 <= i < command.attachments@.len() ==> (
        #[trigger] command.attachments@[i]).artifact_id.value
            == request.attachments@[i].artifact_id && command.attachments@[i].label
            == request.attachments@[i].label
    &&& publication_column(command.reply_to) == request.reply_to
    &&& publication_column(command.supersedes) == request.supersedes
}

/// Reads an optional publication of a request.
fn read_link(publication: Option<i64>) -> (result: Result<Option<PublicationId>, ContractError>)
    ensures
        match result {
            Err(fault) => wire_link_fault(publication) == Some(fault),
            Ok(link) => wire_link_fault(publication) is None && publication_column(link)
                == publication,
        },
{
    match publication {
        None => Ok(None),
        Some(value) => match PublicationId::new(value) {
            Ok(id) => Ok(Some(id)),
            Err(fault) => Err(fault),
        },
    }
}

/// The command a request spells.
pub fn command_from_request(request: &PublicationCreateRequest) -> (result: Result<
    CreatePublication,
    ContractError,
>)
    ensures
        match result {
            Err(fault) => request_fault(*request) == Some(fault),
            Ok(command) => request_fault(*request) is None && spells_command(*request, command),
        },
{
    let anchor = match request.anchor {
        Ok(anchor) => anchor,
        Err(fault) => return Err(fault),
    };
    let kind = match request.kind {
        Ok(kind) => kind,
        Err(fault) => return Err(fault),
    };
    let body_artifact_id = match ArtifactId::new(request.body_artifact_id) {
        Ok(id) => id,
        Err(fault) => return Err(fault),
    };
    let mut attachments: Vec<PublicationAttachmentInput> = Vec::new();
    let mut at: usize = 0;
    assert(request.attachments@.skip(0) =~= request.attachments@);
    while at < request.attachments.len()
        invariant
            at <= request.attachments.len(),
            attachments@.len() == at,
            wire_attachments_fault(request.attachments@) == wire_attachments_fault(
                request.attachments@.skip(at as int),
            ),
            forall|i: int|
                0 <= i < at ==> (#[trigger] attachments@[i]).artifact_id.value
                    == request.attachments@[i].artifact_id && attachments@[i].label
                    == request.attachments@[i].label,
            request.anchor is Ok,
            request.kind is Ok,
            ArtifactId::spec_new(request.body_artifact_id) is Ok,
        decreases request.attachments.len() - at,
    {
        assert(request.attachments@.skip(at as int).skip(1) =~= request.attachments@.skip(
            at as int + 1,
        ));
        let attachment = &request.attachments[at];
        match ArtifactId::new(attachment.artifact_id) {
            Ok(artifact_id) => attachments.push(
                PublicationAttachmentInput { artifact_id, label: attachment.label.clone() },
            ),
            Err(fault) => return Err(fault),
        }
        at += 1;
    }
    let reply_to = match read_link(request.reply_to) {
        Ok(link) => link,
        Err(fault) => return Err(fault),
    };
    let supersedes = match read_link(request.supersedes) {
        Ok(link) => link,
        Err(fault) => return Err(fault),
    };
    Ok(
        CreatePublication {
            client_command_id: request.client_command_id.clone(),
            anchor,
            kind,
            summary: request.summary.clone(),
            body_artifact_id,
            attachments,
            reply_to,
            supersedes,
        },
    )
}

/// Why a publication request fails.
#[derive(Clone, Debug, PartialEq, Eq)]
pub enum PublicationRpcError {
    /// The frame cannot be read.
    Frame,
    Contract(ContractError),
    Store(PublicationStoreError),
}

/// The code a failed publication request is answered with.
pub fn publication_error_code(error: &PublicationRpcError) -> (code: &'static str)
    ensures
        code == (match error {
            PublicationRpcError::Store(PublicationStoreError::IdempotencyConflict { .. }) => {
                "idempotency_conflict"
            },
            PublicationRpcError::Store(_) => "publication_rejected",
            _ => "invalid_publication_request",
        }),
{
    match error {
        PublicationRpcError::Store(PublicationStoreError::IdempotencyConflict { .. }) => {
            "idempotency_conflict"
        },
        PublicationRpcError::Store(_) => "publication_rejected",
        PublicationRpcError::Frame | PublicationRpcError::Contract(_) => {
            "invalid_publication_request"
        },
    }
}

/// A publication is accepted exactly with a command identity, an anchor that is
/// neither a run nor a publication, a bounded summary, no more attachments than
/// allowed, bounded labels, and no artifact named twice.
pub proof fn law_publication_is_accepted_exactly_when_sound(
    command: CreatePublication,
    limits: PublicationLimits,
)
    ensures
        publication_fault(command, limits) is None <==> {
            &&& is_command_component(command.client_command_id@)
            &&& !(command.anchor is ExperimentRun) && !(command.anchor is Publication)
            &&& is_bounded_text(command.summary@, limits.summary_bytes as int)
            &&& command.attachments@.len() <= limits.attachments
            &&& forall|i: int|
                0 <= i < command.attachments@.len() ==> is_bounded_text(
                    (#[trigger] command.attachments@[i]).label@,
                    limits.label_bytes as int,
                ) && command.attachments@[i].artifact_id != command.body_artifact_id
            &&& forall|i: int, j: int|
                0 <= i < j < command.attachments@.len() ==> (
                #[trigger] command.attachments@[i]).artifact_id != (
                #[trigger] command.attachments@[j]).artifact_id
        },
{
    lemma_attachments_are_sound(command, limits, 0);
}

proof fn lemma_attachments_are_sound(
    command: CreatePublication,
    limits: PublicationLimits,
    from: int,
)
    requires
        0 <= from,
    ensures
        attachments_fault(command, limits, from) is None <==> {
            &&& forall|i: int|
                from <= i < command.attachments@.len() ==> is_bounded_text(
                    (#[trigger] command.attachments@[i]).label@,
                    limits.label_bytes as int,
                ) && command.attachments@[i].artifact_id != command.body_artifact_id
            &&& forall|i: int, j: int|
                0 <= i < j && from <= j < command.attachments@.len() ==> (
                #[trigger] command.attachments@[i]).artifact_id != (
                #[trigger] command.attachments@[j]).artifact_id
        },
    decreases command.attachments@.len() - from,
{
    let attachments = command.attachments@;
    let all = publication_artifacts(command);
    if from < attachments.len() {
        lemma_attachments_are_sound(command, limits, from + 1);
        let known = all.take(from + 1);
        let here = attachments[from].artifact_id;
        assert(known[0] == command.body_artifact_id);
        assert forall|i: int| 0 <= i < from implies known[i + 1] == (
        #[trigger] attachments[i]).artifact_id by {}
        if known.contains(here) {
            let at = choose|at: int| 0 <= at < known.len() && known[at] == here;
            if at > 0 {
                assert(attachments[at - 1].artifact_id == here);
            }
        } else {
            assert(here != command.body_artifact_id);
            assert forall|i: int| 0 <= i < from implies (#[trigger] attachments[i]).artifact_id
                != here by {
                assert(known[i + 1] == attachments[i].artifact_id);
            }
        }
    }
}

/// Every anchor is stored in the column of its own kind and in no other.
pub proof fn law_anchor_is_stored_in_its_column(reference: InstitutionalReference)
    ensures
        ({
            let columns = spec_anchor_columns(reference);
            &&& columns.project_id is Some <==> reference is Project
            &&& reference is Project ==> columns.project_id == Some(reference->Project_0.value)
            &&& columns.rfc_id is Some <==> reference is Rfc
            &&& reference is Rfc ==> columns.rfc_id == Some(reference->Rfc_0.value)
            &&& columns.rfc_revision_id is Some <==> reference is RfcRevision
            &&& reference is RfcRevision ==> columns.rfc_revision_id == Some(
                reference->RfcRevision_0.value,
            )
            &&& columns.ticket_id is Some <==> reference is Ticket
            &&& reference is Ticket ==> columns.ticket_id == Some(reference->Ticket_0.value)
            &&& columns.ticket_revision_id is Some <==> reference is TicketRevision
            &&& reference is TicketRevision ==> columns.ticket_revision_id == Some(
                reference->TicketRevision_0.value,
            )
            &&& columns.experiment_id is Some <==> reference is Experiment
            &&& reference is Experiment ==> columns.experiment_id == Some(
                reference->Experiment_0.value,
            )
            &&& columns.claim_id is Some <==> reference is Claim
            &&& reference is Claim ==> columns.claim_id == Some(reference->Claim_0.value)
            &&& columns.decision_id is Some <==> reference is Decision
            &&& reference is Decision ==> columns.decision_id == Some(reference->Decision_0.value)
            &&& columns.office_id is Some <==> reference is Office
            &&& reference is Office ==> columns.office_id == Some(reference->Office_0.value)
        }),
{
}

/// What an anchor is called, which identity it carries, and how kinds of
/// publications are called and stored.
pub proof fn law_publication_words(reference: InstitutionalReference, kind: PublicationKind)
    ensures
        reference.spec_kind_name()@ == (match reference {
            InstitutionalReference::Project(_) => "project"@,
            InstitutionalReference::Rfc(_) => "rfc"@,
            InstitutionalReference::RfcRevision(_) => "rfc_revision"@,
            InstitutionalReference::Ticket(_) => "ticket"@,
            InstitutionalReference::TicketRevision(_) => "ticket_revision"@,
            InstitutionalReference::Experiment(_) => "experiment"@,
            InstitutionalReference::ExperimentRun(_) => "experiment_run"@,
            InstitutionalReference::Claim(_) => "claim"@,
            InstitutionalReference::Decision(_) => "decision"@,
            InstitutionalReference::Office(_) => "office"@,
            InstitutionalReference::Publication(_) => "publication"@,
        }),
        spec_publication_kind_name(kind)@ == (match kind {
            PublicationKind::Finding => "finding"@,
            PublicationKind::Question => "question"@,
            PublicationKind::Challenge => "challenge"@,
            PublicationKind::Correction => "correction"@,
            PublicationKind::DecisionLink => "decision_link"@,
            PublicationKind::Note => "note"@,
        }),
        spec_publication_kind_code(kind) == (match kind {
            PublicationKind::Finding => 0i16,
            PublicationKind::Question => 1,
            PublicationKind::Challenge => 2,
            PublicationKind::Correction => 3,
            PublicationKind::DecisionLink => 4,
            PublicationKind::Note => 5,
        }),
        !(reference is ExperimentRun) && !(reference is Publication) ==> ({
            let columns = spec_anchor_columns(reference);
            let id = Some(reference.spec_id());
            ||| columns.project_id == id
            ||| columns.rfc_id == id
            ||| columns.rfc_revision_id == id
            ||| columns.ticket_id == id
            ||| columns.ticket_revision_id == id
            ||| columns.experiment_id == id
            ||| columns.claim_id == id
            ||| columns.decision_id == id
            ||| columns.office_id == id
        }),
        reference matches InstitutionalReference::ExperimentRun(id) ==> reference.spec_id()
            == id.value,
        reference matches InstitutionalReference::Publication(id) ==> reference.spec_id()
            == id.value,
{
}

/// A repeated publication is answered from its receipt exactly when the receipt
/// is of this very command; another command under the same identity conflicts,
/// and no receipt means a fresh publication.
pub proof fn law_publication_is_answered_from_its_receipt(
    row: Option<AuditRow>,
    principal: String,
    command: CreatePublication,
    digest: ContentDigest,
)
    ensures
        ({
            let found = spec_find_idempotent(row, principal, command, digest);
            let same = row is Some && row->0.operation@ == "publication.create"@
                && row->0.command_fingerprint@ == digest.bytes@;
            &&& found == Ok::<Option<PublicationReceipt>, PublicationStoreError>(None) <==> row
                is None
            &&& found is Ok <==> row is None || (same && row->0.resulting_revision >= 0
                && row->0.subject_kind == 60 && row->0.subject_id > 0 && row->0.id > 0)
            &&& found matches Ok(Some(receipt)) ==> {
                &&& receipt.publication_id.value == row->0.subject_id
                &&& receipt.resulting_revision.value == row->0.resulting_revision
                &&& receipt.audit_log_id.value == row->0.id
                &&& receipt.was_idempotent_retry
            }
            &&& found == Err::<Option<PublicationReceipt>, PublicationStoreError>(
                PublicationStoreError::IdempotencyConflict {
                    principal,
                    command_id: command.client_command_id,
                },
            ) <==> row is Some && !same
        }),
{
}

/// The artifact reported as unknown is the first unknown one, and none is
/// reported exactly when all are known.
pub proof fn law_first_unknown_artifact(artifacts: Seq<ArtifactId>, known: Seq<bool>)
    requires
        known.len() == artifacts.len(),
    ensures
        first_unknown(artifacts, known) is None <==> forall|i: int|
            0 <= i < known.len() ==> #[trigger] known[i],
        first_unknown(artifacts, known) matches Some(artifact_id) ==> exists|at: int|
            #![trigger known[at]]
            0 <= at < known.len() && !known[at] && artifacts[at] == artifact_id && forall|i: int|
                0 <= i < at ==> #[trigger] known[i],
    decreases artifacts.len(),
{
    if artifacts.len() > 0 {
        let first = known[0];
        let rest = known.skip(1);
        if first {
            law_first_unknown_artifact(artifacts.skip(1), rest);
            assert forall|i: int| 1 <= i < known.len() implies #[trigger] known[i] == rest[i
                - 1] by {}
            if first_unknown(artifacts.skip(1), rest) is Some {
                let at = choose|at: int|
                    #![trigger rest[at]]
                    0 <= at < rest.len() && !rest[at] && artifacts.skip(1)[at] == first_unknown(
                        artifacts.skip(1),
                        rest,
                    )->0 && forall|i: int| 0 <= i < at ==> #[trigger] rest[i];
                assert(known[at + 1] == rest[at]);
                assert(artifacts[at + 1] == artifacts.skip(1)[at]);
            }
        }
    }
}

/// A request is read exactly when its anchor and kind are, and every identity in
/// it is positive.
pub proof fn law_request_is_read_exactly_when_its_identities_are(request: PublicationCreateRequest)
    ensures
        request_fault(request) is None <==> {
            &&& request.anchor is Ok
            &&& request.kind is Ok
            &&& request.body_artifact_id > 0
            &&& forall|i: int|
                0 <= i < request.attachments@.len() ==> (
                #[trigger] request.attachments@[i]).artifact_id > 0
            &&& request.reply_to matches Some(id) ==> id > 0
            &&& request.supersedes matches Some(id) ==> id > 0
        },
{
    lemma_wire_attachments_are_read(request.attachments@);
}

proof fn lemma_wire_attachments_are_read(attachments: Seq<PublicationAttachmentWire>)
    ensures
        wire_attachments_fault(attachments) is None <==> forall|i: int|
            0 <= i < attachments.len() ==> (#[trigger] attachments[i]).artifact_id > 0,
    decreases attachments.len(),
{
    if attachments.len() > 0 {
        let rest = attachments.skip(1);
        lemma_wire_attachments_are_read(rest);
        assert forall|i: int| 1 <= i < attachments.len() implies #[trigger] attachments[i]
            == rest[i - 1] by {}
        assert forall|i: int| 0 <= i < rest.len() implies #[trigger] rest[i] == attachments[i
            + 1] by {}
        if wire_attachments_fault(attachments) is None {
            assert forall|i: int| 0 <= i < attachments.len() implies (
            #[trigger] attachments[i]).artifact_id > 0 by {
                if i > 0 {
                    assert(rest[i - 1].artifact_id > 0);
                }
            }
        } else if forall|i: int|
            0 <= i < attachments.len() ==> (#[trigger] attachments[i]).artifact_id > 0 {
            assert(attachments[0].artifact_id > 0);
        }
    }
}

/// A publication's bytes are its operation's name, its identity and its fields,
/// one behind the other, the attachments in their order, and zero for a link
/// that it does not have.
pub proof fn law_publication_is_written_in_order(
    command: CreatePublication,
    attachment: PublicationAttachmentInput,
    rest: Seq<PublicationAttachmentInput>,
)
    ensures
        publication_preimage(command) == framed("publication.create"@) + (framed(
            command.client_command_id@,
        ) + (framed(command.anchor.spec_kind_name()@) + (be_i64(command.anchor.spec_id()) + (framed(
            spec_publication_kind_name(command.kind)@,
        ) + (framed(command.summary@) + (be_i64(command.body_artifact_id.value) + (
        attachments_bytes(command.attachments@) + (be_i64(
            match command.reply_to {
                Some(id) => id.value,
                None => 0,
            },
        ) + be_i64(
            match command.supersedes {
                Some(id) => id.value,
                None => 0,
            },
        ))))))))),
        attachments_bytes(seq![attachment] + rest) == (be_i64(attachment.artifact_id.value)
            + framed(attachment.label@)) + attachments_bytes(rest),
        attachments_bytes(Seq::empty()).len() == 0,
{
    assert((seq![attachment] + rest).skip(1) =~= rest);
    assert((seq![attachment] + rest)[0] == attachment);
}

/// A request spells a command exactly when every field does, links and
/// attachments included; a publication is looked up exactly when it is sound.
pub proof fn law_request_spells_every_field(
    request: PublicationCreateRequest,
    command: CreatePublication,
    limits: PublicationLimits,
    principal: String,
    row: Option<AuditRow>,
    digest: ContentDigest,
)
    ensures
        spells_command(request, command) ==> {
            &&& command.client_command_id@ == request.client_command_id@
            &&& request.anchor is Ok && command.anchor == request.anchor->Ok_0
            &&& request.kind is Ok && command.kind == request.kind->Ok_0
            &&& command.summary@ == request.summary@
            &&& command.body_artifact_id.value == request.body_artifact_id
            &&& command.attachments@.len() == request.attachments@.len()
            &&& forall|i: int|
                0 <= i < command.attachments@.len() ==> (
                #[trigger] command.attachments@[i]).artifact_id.value
                    == request.attachments@[i].artifact_id && command.attachments@[i].label@
                    == request.attachments@[i].label@
            &&& command.reply_to is Some <==> request.reply_to is Some
            &&& command.reply_to is Some ==> command.reply_to->0.value == request.reply_to->0
            &&& command.supersedes is Some <==> request.supersedes is Some
            &&& command.supersedes is Some ==> command.supersedes->0.value == request.supersedes->0
        },
        publication_fault(command, limits) is None ==> spec_admit_publication(
            command,
            limits,
            principal,
            row,
            digest,
        ) == spec_find_idempotent(row, principal, command, digest),
        publication_fault(command, limits) matches Some(fault) ==> spec_admit_publication(
            command,
            limits,
            principal,
            row,
            digest,
        ) == Err::<Option<PublicationReceipt>, PublicationStoreError>(fault),
{
}

} // verus!
