use std::collections::HashMap;

use secrets_portal::errors::AppError;
use secrets_portal::kms::{KmsError, ciphertext_from_base64, ciphertext_to_base64, plaintext_blob, plaintext_from_blob};
use secrets_portal::policies::{PolicyError, PolicyRow, PrefixPolicy, policies_from_rows, serialize_tags};
use secrets_portal::secrets_manager::{sends_tag_resource, tags_to_apply};
use secrets_portal::users::user_email_key;

#[test]
fn ciphertext_is_stored_as_standard_base64() {
    assert_eq!(ciphertext_to_base64(Some(b"hello world~")).unwrap(), "aGVsbG8gd29ybGR+");
    assert_eq!(ciphertext_to_base64(Some(b"\xFF\xEC\x20\x55\0")).unwrap(), "/+wgVQA=");
    assert_eq!(ciphertext_to_base64(Some(b"")).unwrap(), "");
    assert_eq!(ciphertext_to_base64(None), Err(KmsError::NoCiphertext));
}

#[test]
fn stored_ciphertext_decodes_back() {
    let bytes: Vec<u8> = (0u8..=255).collect();
    let text = ciphertext_to_base64(Some(&bytes)).unwrap();
    assert_eq!(ciphertext_from_base64(&text).unwrap(), bytes);
    assert_eq!(ciphertext_from_base64("+uwgVQA=").unwrap(), b"\xFA\xEC\x20\x55\0".to_vec());
}

#[test]
fn invalid_ciphertext_text_is_refused() {
    assert_eq!(ciphertext_from_base64("not base64!"), Err(KmsError::InvalidBase64));
    assert_eq!(ciphertext_from_base64("aGVsbG8"), Err(KmsError::InvalidBase64));
}

#[test]
fn plaintext_round_trip() {
    for text in ["", "s3cr3t", "pässwörd ✓", "{\"k\":\"v\"}"] {
        let blob = plaintext_blob(text);
        assert_eq!(blob, text.as_bytes().to_vec());
        assert_eq!(plaintext_from_blob(Some(blob)).unwrap(), text);
    }
}

#[test]
fn missing_or_invalid_plaintext() {
    assert_eq!(plaintext_from_blob(None), Err(KmsError::NoPlaintext));
    assert_eq!(plaintext_from_blob(Some(vec![0xff, 0xfe])), Err(KmsError::NotUtf8));
    assert_eq!(plaintext_from_blob(Some(vec![0xc0, 0x80])), Err(KmsError::NotUtf8));
}

fn row(tags: &str) -> PolicyRow {
    PolicyRow {
        policy_id: 10,
        prefix: "app/".to_string(),
        aws_account_id: "111".to_string(),
        aws_region: "eu-west-1".to_string(),
        requester_group_id: 20,
        flow_id: 30,
        tags: tags.to_string(),
        created_at: 1_700_000_000_000_000,
        updated_at: 1_700_000_000_000_001,
    }
}

#[test]
fn policy_rows_parse_their_tags() {
    let p = PrefixPolicy::from_row(&row(r#"{"team":"payments","env":"prod"}"#)).unwrap();
    assert_eq!(p.policy_id, 10);
    assert_eq!(p.prefix, "app/");
    assert_eq!(p.aws_region, "eu-west-1");
    assert_eq!(p.requester_group_id, 20);
    assert_eq!(p.flow_id, 30);
    assert_eq!(p.updated_at, 1_700_000_000_000_001);
    assert_eq!(p.tags.len(), 2);
    assert_eq!(p.tags["team"], "payments");
    let empty = PrefixPolicy::from_row(&row("{}")).unwrap();
    assert!(empty.tags.is_empty());
}

#[test]
fn bad_tags_are_refused() {
    assert_eq!(PrefixPolicy::from_row(&row("[1,2]")).unwrap_err(), PolicyError::ParseTags);
    assert_eq!(PrefixPolicy::from_row(&row(r#"{"n":1}"#)).unwrap_err(), PolicyError::ParseTags);
    assert_eq!(PrefixPolicy::from_row(&row("{")).unwrap_err(), PolicyError::ParseTags);
    let rows = vec![row("{}"), row("oops"), row("{}")];
    assert_eq!(policies_from_rows(&rows).unwrap_err(), PolicyError::ParseTags);
    let rows = vec![row("{}"), row(r#"{"a":"b"}"#)];
    let policies = policies_from_rows(&rows).unwrap();
    assert_eq!(policies.len(), 2);
    assert_eq!(policies[1].tags["a"], "b");
}

#[test]
fn tags_serialize_to_what_parses_back() {
    let mut tags = HashMap::new();
    tags.insert("team".to_string(), "payments".to_string());
    tags.insert("owner".to_string(), "alice".to_string());
    let text = serialize_tags(&tags).unwrap();
    let back = PrefixPolicy::from_row(&row(&text)).unwrap();
    assert_eq!(back.tags, tags);
}

#[test]
fn tag_resource_only_for_tagged_policies() {
    assert!(!sends_tag_resource(&HashMap::new()));
    let mut tags = HashMap::new();
    tags.insert("team".to_string(), "payments".to_string());
    assert!(sends_tag_resource(&tags));
}

#[test]
fn tags_are_applied_only_when_present() {
    assert_eq!(tags_to_apply(vec![]), None);
    let pairs = vec![("team".to_string(), "payments".to_string())];
    assert_eq!(tags_to_apply(pairs.clone()), Some(pairs));
}

#[test]
fn emails_are_keyed_in_lower_case() {
    assert_eq!(user_email_key("Alice@Example.COM"), "alice@example.com");
    assert_eq!(user_email_key("bob@example.com"), "bob@example.com");
    assert_eq!(user_email_key("ÉMILE@EXAMPLE.FR"), "émile@example.fr");
}

#[test]
fn app_errors() {
    let e = AppError::new(403, "not in L1 group".to_string());
    assert_eq!(e.0, 403);
    assert_eq!(e.1, "not in L1 group");
    let e = AppError::internal();
    assert_eq!(e.0, 500);
    assert_eq!(e.1, "Internal server error");
}

#[test]
fn data_error_texts() {
    assert_eq!(KmsError::NoCiphertext.message(), "Encrypt returned no ciphertext");
    assert_eq!(KmsError::InvalidBase64.message(), "decode base64 ciphertext");
    assert_eq!(KmsError::NoPlaintext.message(), "Decrypt returned no plaintext");
    assert_eq!(KmsError::NotUtf8.message(), "KMS plaintext is not valid UTF-8");
    assert_eq!(PolicyError::SerializeTags.message(), "serialize tags");
    assert_eq!(PolicyError::ParseTags.message(), "parse tags");
}
