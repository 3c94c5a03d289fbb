//! Text, time, order, and digest primitives on concrete values.

use graphql_orm_ai::checkpoints::adoption::check_opened_tool;
use graphql_orm_ai::clock::{
    Duration, FIRST_SECOND, LAST_SECOND, UtcTime, is_fresh_within,
};
use graphql_orm_ai::decimal::{integer_to_string, natural_to_string, padded_to_string};
use graphql_orm_ai::digest::{digest_prefix, push_u64, sha256_hex};
use graphql_orm_ai::error::AiError;
use graphql_orm_ai::json::canonical_json_hash;
use graphql_orm_ai::order::{insert_ordered, is_bytes_below, is_text_below};
use graphql_orm_ai::principal::{
    AiScope, AuthPrincipal, PrincipalReference, PrincipalReferenceKind, principal_kind,
    principal_reference_kind, same_reference, same_scope, tenant_matches, validate_scope,
};
use graphql_orm_ai::provider::{
    DataClassification, ProviderKind, classification_value, parse_provider_kind,
    persisted_classification,
};
use graphql_orm_ai::scope::ai_scope_key;
use graphql_orm_ai::text::{
    is_blank, is_bounded_text, is_control, is_control_free, is_white_space, join, same_bytes,
    same_text, same_text_option, text_len, trim,
};

#[test]
fn white_space_follows_unicode() {
    for c in '\u{0}'..='\u{ffff}' {
        assert_eq!(is_white_space(c), c.is_whitespace(), "{c:?}");
        assert_eq!(is_control(c), c.is_control(), "{c:?}");
    }
    assert!(is_blank(" \t\u{3000}\n"));
    assert!(is_blank(""));
    assert!(!is_blank(" x "));
    assert_eq!(trim("\u{2003} a b \n"), "a b");
    assert_eq!(trim(" \n "), "");
    assert!(is_control_free("plain text"));
    assert!(!is_control_free("line\nbreak"));
}

#[test]
fn lengths_are_counted_in_bytes() {
    assert_eq!(text_len("ä"), 2);
    assert!(is_bounded_text("ää", 4));
    assert!(!is_bounded_text("ää", 3));
    assert!(!is_bounded_text("  ", 3));
    assert_eq!(join("a", "b"), "ab");
    assert!(same_text("a", "a") && !same_text("a", "b"));
    assert!(same_bytes(b"ab", b"ab") && !same_bytes(b"ab", b"a"));
    assert!(same_text_option(&None, &None));
    assert!(!same_text_option(&Some("a".to_owned()), &None));
}

#[test]
fn numbers_are_spelled_in_decimal() {
    assert_eq!(natural_to_string(u64::MAX), "18446744073709551615");
    assert_eq!(natural_to_string(0), "0");
    assert_eq!(integer_to_string(i64::MIN), "-9223372036854775808");
    assert_eq!(padded_to_string(7, 2), "07");
    assert_eq!(padded_to_string(2024, 4), "2024");
    assert_eq!(padded_to_string(-44, 5), format!("{:05}", -44));
}

#[test]
fn digests_have_known_values() {
    assert_eq!(
        sha256_hex(b"abc"),
        "ba7816bf8f01cfea414140de5dae2223b00361a396177a9cb410ff61f20015ad"
    );
    let mut message = Vec::new();
    push_u64(&mut message, 0x0102_0304_0506_0708);
    assert_eq!(message, vec![1, 2, 3, 4, 5, 6, 7, 8]);
    let bytes: Vec<u8> = (0..32).collect();
    assert_eq!(digest_prefix(&bytes), [0, 1, 2, 3, 4, 5, 6, 7, 8, 9, 10, 11, 12, 13, 14, 15]);
}

#[test]
fn scope_keys_separate_scopes() {
    let tenant_scope = AiScope::new("tenant", "t1").with_tenant_id("t1");
    assert_eq!(
        ai_scope_key(&tenant_scope),
        "d5fcb8a898d0106d7f0359bf8afce25e21573e12cb93f875110f390c2a171813"
    );
    assert_eq!(
        ai_scope_key(&AiScope::new("tenant", "t1")),
        "9afaf50470e5bf7f58f14f45e4886b99cd100e1221fe018b1f5707e559ec59ed"
    );
    // Moving a character between components gives another scope.
    assert_ne!(
        ai_scope_key(&AiScope::new("tenantt", "1")),
        ai_scope_key(&AiScope::new("tenant", "t1"))
    );
    assert!(same_scope(&tenant_scope, &tenant_scope.clone()));
    assert_eq!(validate_scope(&tenant_scope), Ok(()));
    let refused = Err(AiError::InvalidInput("invalid AI scope".to_owned()));
    assert_eq!(validate_scope(&AiScope::new(" ", "t1")), refused);
    assert_eq!(validate_scope(&AiScope::new(&"k".repeat(129), "t1")), refused);
    assert_eq!(validate_scope(&AiScope::new("tenant", &"i".repeat(513))), refused);
    assert_eq!(validate_scope(&AiScope::new("tenant", "t1").with_tenant_id("")), refused);
}

#[test]
fn json_is_compared_by_value() {
    let same = |left: &str, right: &str| {
        let output = b"null".to_vec();
        check_opened_tool(
            &left.as_bytes().to_vec(),
            &output,
            &right.as_bytes().to_vec(),
            &output,
        )
    };
    assert_eq!(same("{\"b\":[true,null],\"a\":1}", " { \"a\": 1, \"b\": [true, null] }"), Ok(()));
    assert_eq!(same("{\"a\":0.0}", "{\"a\":-0.0}"), Ok(()));
    assert_eq!(same("{\"a\":1}", "{\"a\":2}"), Err(AiError::Conflict));
    assert_eq!(same("{\"a\":1}", "{\"a\":1.0}"), Err(AiError::Conflict));
    assert_eq!(same("{", "{"), Err(AiError::Conflict));
    assert_eq!(
        canonical_json_hash(b"{ \"b\":[true,null], \"a\":1 }"),
        Ok("1cc69c7fa23616ca2ec3ee70d24390a6225c8832db8a4c814c7e0e7f942f8668".to_owned())
    );
    assert_eq!(canonical_json_hash(b"not json"), Err(AiError::PersistenceFailed));
}

#[test]
fn texts_are_ordered_bytewise() {
    assert!(is_text_below("a", "b"));
    assert!(is_text_below("a", "aa"));
    assert!(!is_text_below("b", "a"));
    assert!(!is_text_below("a", "a"));
    assert!(is_bytes_below(&[1], &[1, 0]));
    let mut list = Vec::new();
    for item in ["b", "a", "c", "b"] {
        insert_ordered(&mut list, item.to_owned());
    }
    assert_eq!(list, vec!["a".to_owned(), "b".to_owned(), "c".to_owned()]);
}

#[test]
fn instants_stay_inside_the_calendar() {
    let first = UtcTime::from_unix_timestamp(FIRST_SECOND).expect("first second");
    assert_eq!(first.unix_timestamp(), FIRST_SECOND);
    assert_eq!(UtcTime::from_unix_timestamp(FIRST_SECOND - 1), None);
    assert_eq!(UtcTime::from_unix_timestamp(LAST_SECOND + 1), None);
    let last = UtcTime::from_unix_timestamp(LAST_SECOND).expect("last second");
    assert_eq!(last.checked_add(Duration::seconds(1)), None);
    let before_epoch = UtcTime { nanos: -1 };
    assert_eq!(before_epoch.unix_timestamp(), -1);
    assert_eq!(before_epoch.canonical_second().nanos, -1_000_000_000);
    assert_eq!(Duration { nanos: -1_500_000_000 }.whole_seconds(), -1);
    assert!(!Duration::seconds(0).is_positive());
}

#[test]
fn freshness_bounds_differ_at_the_limit() {
    let at = |second| UtcTime::from_unix_timestamp(second).expect("calendar instant");
    let age = Duration::seconds(10);
    assert!(is_fresh_within(at(0), None, at(10), age));
    assert!(!is_fresh_within(at(0), None, at(11), age));
    assert!(!is_fresh_within(at(5), None, at(4), age));
    assert!(!is_fresh_within(at(0), Some(at(5)), at(5), age));
    assert!(is_fresh_within(at(0), Some(at(6)), at(5), age));
}

#[test]
fn persisted_spellings_round_trip() {
    let kinds = [
        ProviderKind::OpenAi,
        ProviderKind::Anthropic,
        ProviderKind::Xai,
        ProviderKind::Ollama,
        ProviderKind::OpenAiCompatible,
        ProviderKind::LocalHarness,
    ];
    for kind in kinds {
        assert_eq!(parse_provider_kind(kind.as_str()), Ok(kind));
    }
    assert!(parse_provider_kind("unknown").is_err());
    let classifications = [
        DataClassification::Public,
        DataClassification::Internal,
        DataClassification::Confidential,
        DataClassification::Restricted,
        DataClassification::Secret,
    ];
    for value in classifications {
        assert_eq!(persisted_classification(classification_value(value)), Some(value));
    }
    assert_eq!(persisted_classification("unknown"), None);
}

#[test]
fn principals_have_persisted_identities() {
    let token = AuthPrincipal::ApiToken {
        principal_kind: "service".to_owned(),
        subject: "s1".to_owned(),
    };
    assert_eq!(principal_kind(&token), "api_token:service");
    assert_eq!(principal_kind(&AuthPrincipal::User { subject: "u1".to_owned() }), "user");
    let reference = PrincipalReference {
        kind: PrincipalReferenceKind::ApiToken { principal_kind: "service".to_owned() },
        subject: "s1".to_owned(),
        tenant_id: Some("t1".to_owned()),
        expires_at: None,
        encoding: "{}".to_owned(),
    };
    assert_eq!(principal_reference_kind(&reference), "api_token:service");
    assert!(same_reference(&reference, &reference.clone()));
    let mut other = reference.clone();
    other.subject = "s2".to_owned();
    assert!(!same_reference(&reference, &other));
    assert!(tenant_matches(&None, &Some("t1".to_owned())));
    assert!(tenant_matches(&Some("t1".to_owned()), &Some("t1".to_owned())));
    assert!(!tenant_matches(&Some("t1".to_owned()), &None));
}
