//! Deployment configuration and the checks it must pass at boot.
use std::collections::HashMap;
use vstd::prelude::*;

verus! {

/// The deployment configuration of the portal.
#[derive(Clone, Debug)]
pub struct AppConfig {
    pub host: String,
    pub port: u16,
    pub database_url: String,
    pub kms_key_arn: String,
    pub l2_approver_group: String,
    pub prefixes: Vec<PrefixConfig>,
    pub aws_accounts: Vec<AccountConfig>,
}

/// One `[[prefix]]` entry: secrets whose name starts with `prefix` live in
/// `aws_account_id`/`aws_region`, may be requested by `allowed_group` and are
/// approved at L1 by `l1_approver_group`; `tags` are applied on write.
#[derive(Clone, Debug)]
pub struct PrefixConfig {
    pub prefix: String,
    pub aws_account_id: String,
    pub aws_region: String,
    pub allowed_group: String,
    pub l1_approver_group: String,
    pub tags: HashMap<String, String>,
}

/// One `[[aws_account]]` entry: the role assumed to write secrets there.
#[derive(Clone, Debug)]
pub struct AccountConfig {
    pub account_id: String,
    pub role_arn: String,
}

/// The step at which reading the configuration sources failed.
#[derive(Clone, Copy, Debug, PartialEq, Eq, Structural)]
pub enum LoadStage {
    /// Combining the file and environment sources.
    Build,
    /// Turning the combined sources into an `AppConfig`.
    Deserialize,
}

/// Why the configuration was refused.
#[derive(Clone, Debug)]
pub enum ConfigError {
    /// The sources could not be combined.
    Build,
    /// The combined sources do not describe an `AppConfig`.
    Deserialize,
    /// There is no `[[prefix]]` entry.
    NoPrefixes,
    /// Two `[[prefix]]` entries share this prefix.
    DuplicatePrefix(String),
    /// Two `[[aws_account]]` entries share this account id.
    DuplicateAccount(String),
    /// The `[[prefix]]` entry `prefix` names an account with no `[[aws_account]]` entry.
    UnknownAccount { prefix: String, aws_account_id: String },
}

/// The prefixes of the `[[prefix]]` entries, in order.
pub open spec fn prefix_names(cfg: AppConfig) -> Seq<Seq<char>> {
    cfg.prefixes@.map_values(|p: PrefixConfig| p.prefix@)
}

/// The account ids of the `[[aws_account]]` entries, in order.
pub open spec fn account_ids(cfg: AppConfig) -> Seq<Seq<char>> {
    cfg.aws_accounts@.map_values(|a: AccountConfig| a.account_id@)
}

/// `s[j]` repeats an earlier entry, and no entry before `j` does.
pub open spec fn first_repeat(s: Seq<Seq<char>>, j: int) -> bool {
    &&& 0 <= j < s.len()
    &&& exists|i: int| 0 <= i < j && s[i] == s[j]
    &&& forall|i: int, k: int| 0 <= i < k < j ==> s[i] != s[k]
}

/// The `[[prefix]]` entry `j` is the first whose account has no `[[aws_account]]` entry.
pub open spec fn first_unknown_account(cfg: AppConfig, j: int) -> bool {
    &&& 0 <= j < cfg.prefixes@.len()
    &&& !account_ids(cfg).contains(cfg.prefixes@[j].aws_account_id@)
    &&& forall|k: int| 0 <= k < j ==> account_ids(cfg).contains(#[trigger] cfg.prefixes@[k].aws_account_id@)
}

/// A configuration the portal can boot with: at least one prefix, no prefix
/// or account declared twice, and every prefix's account declared.
pub open spec fn config_valid(cfg: AppConfig) -> bool {
    &&& cfg.prefixes@.len() > 0
    &&& prefix_names(cfg).no_duplicates()
    &&& account_ids(cfg).no_duplicates()
    &&& forall|j: int| 0 <= j < cfg.prefixes@.len() ==> account_ids(cfg).contains(#[trigger] cfg.prefixes@[j].aws_account_id@)
}

/// The verdict of the boot checks on `cfg`: success on a valid configuration,
/// otherwise the first rule broken, in the order no prefixes, repeated
/// prefix, repeated account, undeclared account; each error names the first
/// entry that breaks its rule.
pub open spec fn validation_verdict(cfg: AppConfig, r: Result<(), ConfigError>) -> bool {
    match r {
        Ok(()) => config_valid(cfg),
        Err(ConfigError::NoPrefixes) => cfg.prefixes@.len() == 0,
        Err(ConfigError::DuplicatePrefix(p)) => {
            &&& cfg.prefixes@.len() > 0
            &&& exists|j: int| first_repeat(prefix_names(cfg), j) && p@ == prefix_names(cfg)[j]
        },
        Err(ConfigError::DuplicateAccount(a)) => {
            &&& cfg.prefixes@.len() > 0
            &&& prefix_names(cfg).no_duplicates()
            &&& exists|j: int| first_repeat(account_ids(cfg), j) && a@ == account_ids(cfg)[j]
        },
        Err(ConfigError::UnknownAccount { prefix, aws_account_id }) => {
            &&& cfg.prefixes@.len() > 0
            &&& prefix_names(cfg).no_duplicates()
            &&& account_ids(cfg).no_duplicates()
            &&& exists|j: int|
                first_unknown_account(cfg, j) && prefix@ == cfg.prefixes@[j].prefix@
                    && aws_account_id@ == cfg.prefixes@[j].aws_account_id@
        },
        _ => false,
    }
}

/// Checks the rules of `config_valid` in order and reports the first broken one.
pub fn validate(cfg: &AppConfig) -> (r: Result<(), ConfigError>)
    ensures
        validation_verdict(*cfg, r),
{
    let ghost names = prefix_names(*cfg);
    let ghost accounts = account_ids(*cfg);
    let n = cfg.prefixes.len();
    if n == 0 {
        return Err(ConfigError::NoPrefixes);
    }
    let mut j: usize = 0;
    while j < n
        invariant
            n == cfg.prefixes@.len(),
            names == prefix_names(*cfg),
            0 <= j <= n,
            forall|i: int, k: int| 0 <= i < k < j ==> names[i] != names[k],
        decreases n - j,
    {
        let mut i: usize = 0;
        while i < j
            invariant
                n == cfg.prefixes@.len(),
                names == prefix_names(*cfg),
                0 <= i <= j < n,
                forall|a: int, k: int| 0 <= a < k < j ==> names[a] != names[k],
                forall|a: int| 0 <= a < i ==> names[a] != names[j as int],
            decreases j - i,
        {
            assert(names[i as int] == cfg.prefixes@[i as int].prefix@);
            assert(names[j as int] == cfg.prefixes@[j as int].prefix@);
            if cfg.prefixes[i].prefix == cfg.prefixes[j].prefix {
                assert(first_repeat(names, j as int));
                return Err(ConfigError::DuplicatePrefix(cfg.prefixes[j].prefix.clone()));
            }
            i = i + 1;
        }
        j = j + 1;
    }
    assert(names.no_duplicates()) by {
        assert forall|a: int, b: int| 0 <= a < names.len() && 0 <= b < names.len() && a != b implies names[a]
            != names[b] by {
            if a > b {
                assert(names[b] != names[a]);
            }
        }
    }
    let m = cfg.aws_accounts.len();
    let mut j: usize = 0;
    while j < m
        invariant
            m == cfg.aws_accounts@.len(),
            n == cfg.prefixes@.len(),
            n > 0,
            accounts == account_ids(*cfg),
            prefix_names(*cfg).no_duplicates(),
            0 <= j <= m,
            forall|i: int, k: int| 0 <= i < k < j ==> accounts[i] != accounts[k],
        decreases m - j,
    {
        let mut i: usize = 0;
        while i < j
            invariant
                m == cfg.aws_accounts@.len(),
                n == cfg.prefixes@.len(),
                n > 0,
                accounts == account_ids(*cfg),
                prefix_names(*cfg).no_duplicates(),
                0 <= i <= j < m,
                forall|a: int, k: int| 0 <= a < k < j ==> accounts[a] != accounts[k],
                forall|a: int| 0 <= a < i ==> accounts[a] != accounts[j as int],
            decreases j - i,
        {
            assert(accounts[i as int] == cfg.aws_accounts@[i as int].account_id@);
            assert(accounts[j as int] == cfg.aws_accounts@[j as int].account_id@);
            if cfg.aws_accounts[i].account_id == cfg.aws_accounts[j].account_id {
                assert(first_repeat(accounts, j as int));
                return Err(ConfigError::DuplicateAccount(cfg.aws_accounts[j].account_id.clone()));
            }
            i = i + 1;
        }
        j = j + 1;
    }
    assert(accounts.no_duplicates()) by {
        assert forall|a: int, b: int| 0 <= a < accounts.len() && 0 <= b < accounts.len() && a != b implies accounts[a]
            != accounts[b] by {
            if a > b {
                assert(accounts[b] != accounts[a]);
            }
        }
    }
    let mut j: usize = 0;
    while j < n
        invariant
            n == cfg.prefixes@.len(),
            n > 0,
            m == cfg.aws_accounts@.len(),
            accounts == account_ids(*cfg),
            prefix_names(*cfg).no_duplicates(),
            accounts.no_duplicates(),
            0 <= j <= n,
            forall|k: int| 0 <= k < j ==> accounts.contains(#[trigger] cfg.prefixes@[k].aws_account_id@),
        decreases n - j,
    {
        let mut found = false;
        let mut i: usize = 0;
        while i < m
            invariant
                n == cfg.prefixes@.len(),
                m == cfg.aws_accounts@.len(),
                accounts == account_ids(*cfg),
                0 <= i <= m,
                0 <= j < n,
                found ==> accounts.contains(cfg.prefixes@[j as int].aws_account_id@),
                !found ==> forall|a: int| 0 <= a < i ==> accounts[a] != cfg.prefixes@[j as int].aws_account_id@,
            decreases m - i,
        {
            assert(accounts[i as int] == cfg.aws_accounts@[i as int].account_id@);
            if cfg.aws_accounts[i].account_id == cfg.prefixes[j].aws_account_id {
                assert(accounts[i as int] == cfg.prefixes@[j as int].aws_account_id@);
                found = true;
            }
            i = i + 1;
        }
        if !found {
            assert(first_unknown_account(*cfg, j as int));
            return Err(
                ConfigError::UnknownAccount {
                    prefix: cfg.prefixes[j].prefix.clone(),
                    aws_account_id: cfg.prefixes[j].aws_account_id.clone(),
                },
            );
        }
        j = j + 1;
    }
    Ok(())
}

/// Finishes loading: a failure to read the sources is reported with its
/// stage; a configuration that was read is returned when it passes
/// `validate`, and refused with `validate`'s verdict otherwise.
pub fn load_config(read: Result<AppConfig, LoadStage>) -> (r: Result<AppConfig, ConfigError>)
    ensures
        match read {
            Err(LoadStage::Build) => r matches Err(ConfigError::Build),
            Err(LoadStage::Deserialize) => r matches Err(ConfigError::Deserialize),
            Ok(cfg) => match r {
                Ok(loaded) => loaded == cfg && config_valid(cfg),
                Err(e) => validation_verdict(cfg, Err(e)),
            },
        },
{
    match read {
        Err(LoadStage::Build) => Err(ConfigError::Build),
        Err(LoadStage::Deserialize) => Err(ConfigError::Deserialize),
        Ok(cfg) => match validate(&cfg) {
            Ok(()) => Ok(cfg),
            Err(e) => Err(e),
        },
    }
}

/// The text that reports a configuration error.
pub open spec fn config_error_text(e: ConfigError) -> Seq<char> {
    match e {
        ConfigError::Build => "build config"@,
        ConfigError::Deserialize => "deserialize config"@,
        ConfigError::NoPrefixes => "at least one [[prefix]] is required"@,
        ConfigError::DuplicatePrefix(p) => "duplicate [[prefix]] '"@ + p@ + "'"@,
        ConfigError::DuplicateAccount(a) => "duplicate [[aws_account]] '"@ + a@ + "'"@,
        ConfigError::UnknownAccount { prefix, aws_account_id } => "[[prefix]] '"@ + prefix@
            + "' references aws_account_id '"@ + aws_account_id@ + "' with no [[aws_account]] entry"@,
    }
}

impl ConfigError {
    /// The text that reports this error at boot.
    pub fn message(&self) -> (r: String)
        ensures
            r@ == config_error_text(*self),
    {
        match self {
            ConfigError::Build => String::from_str("build config"),
            ConfigError::Deserialize => String::from_str("deserialize config"),
            ConfigError::NoPrefixes => String::from_str("at least one [[prefix]] is required"),
            ConfigError::DuplicatePrefix(p) => {
                let mut r = String::from_str("duplicate [[prefix]] '");
                r.append(p.as_str());
                r.append("'");
                r
            },
            ConfigError::DuplicateAccount(a) => {
                let mut r = String::from_str("duplicate [[aws_account]] '");
                r.append(a.as_str());
                r.append("'");
                r
            },
            ConfigError::UnknownAccount { prefix, aws_account_id } => {
                let mut r = String::from_str("[[prefix]] '");
                r.append(prefix.as_str());
                r.append("' references aws_account_id '");
                r.append(aws_account_id.as_str());
                r.append("' with no [[aws_account]] entry");
                r
            },
        }
    }
}

} // verus!
