//! Texts, digests, encodings, paths and audit receipts on concrete values.

use factory_kernel::audit::{
    aggregate_revision_from_sql, find_audit, next_revision, replay, require_subject,
    revision_to_sql, validate_command, Audit, AuditRow,
};
use factory_kernel::base64::{base64_encode, base64_value, decode_base64, decode_base64_lenient};
use factory_kernel::digest::ContentDigest;
use factory_kernel::encoding::{push_framed, push_i32, push_i64, push_u32, push_u64};
use factory_kernel::error::StoreError;
use factory_kernel::identity::{
    AggregateRevision, CampaignId, CasArtifact, ContractError, ExpectedRevision, KernelBuildId,
};
use factory_kernel::path::{
    entry_of, path_components, path_is_absolute, paths_equal, split_bytes, strip_prefix,
};
use factory_kernel::text::{
    begins_with_character, bounded_text_ok, command_component_ok, contains_double_stop,
    contains_white_space, decimal_i64, ends_with_character, parse_u32, push_decimal_u64,
};

#[test]
fn digest_is_blake3_and_its_text_round_trips() {
    let empty = ContentDigest::of_bytes(b"");
    assert_eq!(
        empty.to_hex(),
        "af1349b9f5f9a1a6a0404dea36dcc9499bcb25c9adc112b7cc9a93cae41f3262"
    );
    let abc = ContentDigest::of_bytes(b"abc");
    assert_eq!(
        abc.to_hex(),
        "6437b3ac38465133ffb63b75273a8db548c558465d79db03fd359c6cd5bd9d85"
    );
    assert!(!abc.same(&empty));
    assert_eq!(ContentDigest::parse_hex(&abc.to_hex()), Some(abc));
    assert_eq!(ContentDigest::from_bytes(abc.as_bytes()), abc);
}

#[test]
fn digest_text_is_lowercase_and_complete() {
    let text = ContentDigest::of_bytes(b"abc").to_hex();
    assert_eq!(ContentDigest::parse_hex(&text.to_uppercase()), None);
    assert_eq!(ContentDigest::parse_hex(&text[1..]), None);
    assert_eq!(ContentDigest::parse_hex(""), None);
    assert_eq!(
        ContentDigest::parse_hex(&format!("{}g", &text[..63])),
        None
    );
}

#[test]
fn base64_faults_are_told_apart() {
    assert_eq!(
        decode_base64(""),
        Err("base64 value is empty or has invalid length")
    );
    assert_eq!(
        decode_base64("YWJ"),
        Err("base64 value is empty or has invalid length")
    );
    assert_eq!(decode_base64("Y==="), Err("base64 padding is invalid"));
    assert_eq!(decode_base64("YQ==YWJj"), Err("base64 padding is invalid"));
    assert_eq!(decode_base64("Y*Jj"), Err("base64 alphabet is invalid"));
    assert_eq!(
        decode_base64("YR=="),
        Err("base64 has non-canonical trailing bits")
    );
    assert_eq!(base64_value(b'/'), Some(63));
    assert_eq!(base64_value(b'='), None);
}

#[test]
fn base64_decoding_undoes_encoding() {
    let bytes: Vec<u8> = (0..=255).collect();
    for length in 1..bytes.len() {
        let text = base64_encode(&bytes[..length]);
        assert_eq!(decode_base64(&text), Ok(bytes[..length].to_vec()));
        assert_eq!(
            decode_base64_lenient(&text),
            Some(bytes[..length].to_vec())
        );
    }
    assert_eq!(base64_encode(b""), "");
}

#[test]
fn integers_are_big_endian_and_texts_are_framed() {
    let mut output = Vec::new();
    push_u64(&mut output, 0x0102_0304_0506_0708);
    push_u32(&mut output, 9);
    push_i64(&mut output, -2);
    push_i32(&mut output, i32::MIN);
    push_framed(&mut output, "ab");
    let mut expected = vec![1, 2, 3, 4, 5, 6, 7, 8, 0, 0, 0, 9];
    expected.extend((-2_i64).to_be_bytes());
    expected.extend(i32::MIN.to_be_bytes());
    expected.extend([0, 0, 0, 0, 0, 0, 0, 2, b'a', b'b']);
    assert_eq!(output, expected);
}

#[test]
fn decimal_renderings_are_exact() {
    assert_eq!(decimal_i64(0), "0");
    assert_eq!(decimal_i64(-1), "-1");
    assert_eq!(decimal_i64(i64::MIN), i64::MIN.to_string());
    let mut text = String::from("x");
    push_decimal_u64(&mut text, u64::MAX);
    assert_eq!(text, format!("x{}", u64::MAX));
    assert_eq!(parse_u32("160004"), Some(160_004));
    assert_eq!(parse_u32("+7"), Some(7));
    assert_eq!(parse_u32("-7"), None);
    assert_eq!(parse_u32(""), None);
    assert_eq!(parse_u32("4294967296"), None);
    assert_eq!(parse_u32("7x"), None);
}

#[test]
fn texts_are_bounded_in_bytes() {
    assert!(command_component_ok("agent:1.a_b-C"));
    assert!(!command_component_ok(""));
    assert!(!command_component_ok("a b"));
    assert!(command_component_ok(&"a".repeat(160)));
    assert!(!command_component_ok(&"a".repeat(161)));
    assert!(bounded_text_ok("\u{e9}\u{e9}", 4));
    assert!(!bounded_text_ok("\u{e9}\u{e9}", 3));
    assert!(!bounded_text_ok("a\0", 4));
    assert!(!bounded_text_ok("", 4));
    assert!(begins_with_character("/main", '/'));
    assert!(ends_with_character("main/", '/'));
    assert!(!ends_with_character("", '/'));
    assert!(contains_white_space("a\u{3000}b"));
    assert!(!contains_white_space("ab"));
    assert!(contains_double_stop("a..b"));
    assert!(!contains_double_stop("a.b."));
}

#[test]
fn paths_are_compared_by_their_components() {
    assert!(path_is_absolute(b"/tmp"));
    assert!(!path_is_absolute(b"tmp"));
    assert!(paths_equal(b"/tmp//staging/./x/", b"/tmp/staging/x"));
    assert!(!paths_equal(b"/tmp/staging", b"tmp/staging"));
    assert!(!paths_equal(b"/tmp/../x", b"/x"));
    assert!(entry_of(b"/tmp/staging/stdout.log", b"/tmp/staging", b"stdout.log"));
    assert!(!entry_of(b"/tmp/staging/a/stdout.log", b"/tmp/staging", b"stdout.log"));
    assert!(!entry_of(b"/tmp/other/stdout.log", b"/tmp/staging", b"stdout.log"));
    assert_eq!(
        strip_prefix(b"/tmp/staging/a/b", b"/tmp/staging"),
        Some(vec![b"a".to_vec(), b"b".to_vec()])
    );
    assert_eq!(strip_prefix(b"/tmp/staging2", b"/tmp/staging"), None);
    assert_eq!(path_components(b"a/b").len(), 2);
    assert_eq!(
        split_bytes(b"a\n\nb", b'\n'),
        vec![b"a".to_vec(), Vec::new(), b"b".to_vec()]
    );
}

#[test]
fn identities_are_positive_and_revisions_advance() {
    assert_eq!(CampaignId::new(0), Err(ContractError::NonPositiveIdentity));
    assert_eq!(CampaignId::new(-1), Err(ContractError::NonPositiveIdentity));
    assert_eq!(CampaignId::new(9).map(CampaignId::get), Ok(9));
    let revision = AggregateRevision::initial();
    assert_eq!(revision.get(), 0);
    assert_eq!(revision.next().map(AggregateRevision::get), Ok(1));
    assert_eq!(
        AggregateRevision::from_persisted(u64::MAX).next(),
        Err(ContractError::RevisionOverflow)
    );
    assert_eq!(ExpectedRevision::new(revision).get(), revision);
    let build = KernelBuildId::new(ContentDigest::of_bytes(b"build"));
    assert!(build.same(&KernelBuildId::new(build.digest())));
    let seal = CasArtifact {
        digest: build.digest(),
        byte_length: 5,
    };
    assert_eq!(seal.byte_length(), 5);
    assert!(!seal.same(&CasArtifact {
        digest: seal.digest(),
        byte_length: 6,
    }));
}

#[test]
fn revision_columns_hold_no_negative_values() {
    assert_eq!(
        aggregate_revision_from_sql(-1),
        Err(StoreError::RevisionOutOfRange)
    );
    assert_eq!(
        aggregate_revision_from_sql(4),
        Ok(AggregateRevision::from_persisted(4))
    );
    assert_eq!(
        revision_to_sql(AggregateRevision::from_persisted(u64::MAX)),
        Err(StoreError::RevisionOutOfRange)
    );
    assert_eq!(
        revision_to_sql(AggregateRevision::from_persisted(7)),
        Ok(7)
    );
    assert_eq!(
        next_revision(AggregateRevision::from_persisted(u64::MAX)),
        Err(StoreError::Contract(ContractError::RevisionOverflow))
    );
}

fn audit_row(fingerprint: ContentDigest) -> AuditRow {
    AuditRow {
        id: 12,
        operation: "campaign.start".to_owned(),
        command_fingerprint: fingerprint.as_bytes().to_vec(),
        subject_kind: 4,
        subject_id: 3,
        resulting_revision: 0,
    }
}

#[test]
fn a_written_receipt_answers_the_same_command_and_no_other() {
    let principal = "operator".to_owned();
    let command_id = "start-1".to_owned();
    let fingerprint = ContentDigest::of_bytes(b"command");
    let row = audit_row(fingerprint);
    let audit = Audit {
        audit_log_id: 12,
        subject_kind: 4,
        subject_id: 3,
        resulting_revision: AggregateRevision::initial(),
    };
    assert_eq!(
        find_audit(None, &principal, &command_id, "campaign.start", fingerprint),
        Ok(None)
    );
    assert_eq!(
        replay(Some(&row), &principal, &command_id, "campaign.start", fingerprint, 4),
        Ok(Some(audit))
    );
    let conflict = StoreError::IdempotencyConflict {
        principal: principal.clone(),
        command_id: command_id.clone(),
    };
    assert_eq!(
        find_audit(
            Some(&row),
            &principal,
            &command_id,
            "campaign.start",
            ContentDigest::of_bytes(b"other"),
        ),
        Err(conflict.clone())
    );
    assert_eq!(
        find_audit(Some(&row), &principal, &command_id, "campaign.cancel", fingerprint),
        Err(conflict)
    );
    assert_eq!(
        replay(Some(&row), &principal, &command_id, "campaign.start", fingerprint, 5),
        Err(StoreError::AuditSubjectKindMismatch)
    );
    assert_eq!(require_subject(&audit, 4), Ok(()));
}

#[test]
fn command_keys_are_bounded() {
    assert_eq!(validate_command("operator", "start-1"), Ok(()));
    assert_eq!(
        validate_command("", "start-1"),
        Err(StoreError::InvalidProcessCommand { field: "principal" })
    );
    assert_eq!(
        validate_command("operator", "start 1"),
        Err(StoreError::InvalidProcessCommand { field: "command ID" })
    );
}
