use std::collections::HashMap;

use secrets_portal::config::{AccountConfig, AppConfig, ConfigError, LoadStage, PrefixConfig, load_config, validate};
use secrets_portal::handlers::{AppState, policies_longest_first};
use secrets_portal::text::{same_text, starts_with};

fn prefix(p: &str, account: &str) -> PrefixConfig {
    PrefixConfig {
        prefix: p.to_string(),
        aws_account_id: account.to_string(),
        aws_region: "us-east-1".to_string(),
        allowed_group: format!("{p}-requesters"),
        l1_approver_group: format!("{p}-leads"),
        tags: HashMap::new(),
    }
}

fn account(id: &str) -> AccountConfig {
    AccountConfig { account_id: id.to_string(), role_arn: format!("arn:aws:iam::{id}:role/writer") }
}

fn config(prefixes: Vec<PrefixConfig>, accounts: Vec<AccountConfig>) -> AppConfig {
    AppConfig {
        host: "127.0.0.1".to_string(),
        port: 3000,
        database_url: "postgres://localhost/portal".to_string(),
        kms_key_arn: "arn:aws:kms:us-east-1:000000000000:key/k".to_string(),
        l2_approver_group: "security-team".to_string(),
        prefixes,
        aws_accounts: accounts,
    }
}

#[test]
fn valid_config_passes() {
    let cfg = config(vec![prefix("app/", "111"), prefix("app/payments/", "222")], vec![account("111"), account("222")]);
    assert!(validate(&cfg).is_ok());
    let loaded = load_config(Ok(cfg)).unwrap();
    assert_eq!(loaded.prefixes.len(), 2);
}

#[test]
fn config_without_prefixes_is_refused() {
    let cfg = config(vec![], vec![account("111")]);
    assert!(matches!(validate(&cfg), Err(ConfigError::NoPrefixes)));
}

#[test]
fn first_duplicate_prefix_is_named() {
    let cfg = config(
        vec![prefix("a/", "111"), prefix("b/", "111"), prefix("b/", "111"), prefix("a/", "111")],
        vec![account("111")],
    );
    match validate(&cfg) {
        Err(ConfigError::DuplicatePrefix(p)) => assert_eq!(p, "b/"),
        other => panic!("unexpected {:?}", other),
    }
}

#[test]
fn duplicate_account_is_named() {
    let cfg = config(vec![prefix("a/", "111")], vec![account("111"), account("222"), account("111")]);
    match validate(&cfg) {
        Err(ConfigError::DuplicateAccount(a)) => assert_eq!(a, "111"),
        other => panic!("unexpected {:?}", other),
    }
}

#[test]
fn duplicate_prefix_reported_before_duplicate_account() {
    let cfg = config(vec![prefix("a/", "111"), prefix("a/", "111")], vec![account("111"), account("111")]);
    assert!(matches!(validate(&cfg), Err(ConfigError::DuplicatePrefix(_))));
}

#[test]
fn undeclared_account_is_named() {
    let cfg = config(vec![prefix("a/", "111"), prefix("b/", "333"), prefix("c/", "444")], vec![account("111")]);
    match validate(&cfg) {
        Err(ConfigError::UnknownAccount { prefix, aws_account_id }) => {
            assert_eq!(prefix, "b/");
            assert_eq!(aws_account_id, "333");
        }
        other => panic!("unexpected {:?}", other),
    }
}

#[test]
fn load_failures_keep_their_stage() {
    assert!(matches!(load_config(Err(LoadStage::Build)), Err(ConfigError::Build)));
    assert!(matches!(load_config(Err(LoadStage::Deserialize)), Err(ConfigError::Deserialize)));
    let bad = config(vec![], vec![]);
    assert!(matches!(load_config(Ok(bad)), Err(ConfigError::NoPrefixes)));
}

#[test]
fn policies_are_sorted_longest_first_and_stable() {
    let sorted = policies_longest_first(vec![
        prefix("a/", "1"),
        prefix("abc/", "2"),
        prefix("b/", "3"),
        prefix("xyz/", "4"),
        prefix("c", "5"),
    ]);
    let order: Vec<&str> = sorted.iter().map(|p| p.prefix.as_str()).collect();
    assert_eq!(order, vec!["abc/", "xyz/", "a/", "b/", "c"]);
    assert_eq!(sorted[0].aws_account_id, "2");
    assert_eq!(sorted[2].l1_approver_group, "a/-leads");
}

#[test]
fn sort_goes_by_bytes() {
    // "é" is one character but two bytes, as long as "ab".
    let sorted = policies_longest_first(vec![prefix("x", "1"), prefix("é", "2"), prefix("ab", "3")]);
    let order: Vec<&str> = sorted.iter().map(|p| p.prefix.as_str()).collect();
    assert_eq!(order, vec!["é", "ab", "x"]);
}

#[test]
fn longest_prefix_wins() {
    let cfg = config(
        vec![prefix("app/", "111"), prefix("app/payments/", "222"), prefix("infra/", "111")],
        vec![account("111"), account("222")],
    );
    let state = AppState::from_config(cfg);
    assert_eq!(state.kms_key_arn, "arn:aws:kms:us-east-1:000000000000:key/k");
    assert_eq!(state.l2_approver_group, "security-team");
    let p = state.lookup_prefix("app/payments/prod/api-key").unwrap();
    assert_eq!(p.prefix, "app/payments/");
    assert_eq!(p.aws_account_id, "222");
    let p = state.lookup_prefix("app/orders/db").unwrap();
    assert_eq!(p.prefix, "app/");
    assert!(state.lookup_prefix("other/thing").is_none());
    assert!(state.lookup_prefix("app").is_none());
    assert_eq!(state.lookup_prefix("infra/").unwrap().prefix, "infra/");
}

#[test]
fn client_slots_follow_account_order() {
    let cfg = config(vec![prefix("a/", "222")], vec![account("111"), account("222")]);
    let state = AppState::from_config(cfg);
    assert_eq!(state.sm_account_ids, vec!["111".to_string(), "222".to_string()]);
    assert_eq!(state.sm_client_for("222"), Some(1));
    assert_eq!(state.sm_client_for("111"), Some(0));
    assert_eq!(state.sm_client_for("333"), None);
    assert_eq!(state.sm_client_for("11"), None);
}

#[test]
fn repeated_account_uses_the_last_client() {
    let cfg = config(vec![prefix("a/", "111")], vec![account("111"), account("222"), account("111")]);
    let state = AppState::from_config(cfg);
    assert_eq!(state.sm_client_for("111"), Some(2));
    assert_eq!(state.sm_client_for("222"), Some(1));
}

#[test]
fn config_error_texts() {
    assert_eq!(ConfigError::Build.message(), "build config");
    assert_eq!(ConfigError::Deserialize.message(), "deserialize config");
    assert_eq!(ConfigError::NoPrefixes.message(), "at least one [[prefix]] is required");
    assert_eq!(ConfigError::DuplicatePrefix("a/".to_string()).message(), "duplicate [[prefix]] 'a/'");
    assert_eq!(ConfigError::DuplicateAccount("111".to_string()).message(), "duplicate [[aws_account]] '111'");
    assert_eq!(
        ConfigError::UnknownAccount { prefix: "b/".to_string(), aws_account_id: "333".to_string() }.message(),
        "[[prefix]] 'b/' references aws_account_id '333' with no [[aws_account]] entry"
    );
}

#[test]
fn text_helpers() {
    assert!(starts_with("app/payments", "app/"));
    assert!(starts_with("app", ""));
    assert!(!starts_with("ap", "app"));
    assert!(!starts_with("bpp/x", "app/"));
    assert!(starts_with("héllo", "hé"));
    assert!(same_text("abc", "abc"));
    assert!(!same_text("abc", "abd"));
    assert!(!same_text("abc", "ab"));
}
