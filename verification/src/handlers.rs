//! The shared request-handling state: prefix policies and AWS accounts.
use std::collections::HashMap;
use vstd::prelude::*;
use vstd::utf8::encode_utf8;

use crate::config::{AppConfig, PrefixConfig, account_ids, config_valid};
use crate::text::{is_prefix_of, lemma_prefix_byte_order, same_text, starts_with};

verus! {

/// The policy for secrets whose name starts with `prefix`.
#[derive(Clone, Debug)]
pub struct PrefixPolicy {
    pub prefix: String,
    pub aws_account_id: String,
    pub aws_region: String,
    pub allowed_group: String,
    pub l1_approver_group: String,
    pub tags: HashMap<String, String>,
}

/// What request handlers share. `prefix_policies` is ordered longest prefix
/// first; `sm_account_ids[i]` is the account that the `i`th Secrets Manager
/// client writes to.
pub struct AppState {
    pub kms_key_arn: String,
    pub l2_approver_group: String,
    pub prefix_policies: Vec<PrefixPolicy>,
    pub sm_account_ids: Vec<String>,
}

/// The policy a `[[prefix]]` entry describes.
pub open spec fn policy_of(c: PrefixConfig) -> PrefixPolicy {
    PrefixPolicy {
        prefix: c.prefix,
        aws_account_id: c.aws_account_id,
        aws_region: c.aws_region,
        allowed_group: c.allowed_group,
        l1_approver_group: c.l1_approver_group,
        tags: c.tags,
    }
}

/// The length of a policy's prefix in bytes.
pub open spec fn prefix_bytes(p: PrefixPolicy) -> nat {
    encode_utf8(p.prefix@).len()
}

/// Entry `t` of the input has a place in the arrangement `perm`.
pub open spec fn placed(perm: Seq<int>, t: int) -> bool {
    exists|k: int| 0 <= k < perm.len() && perm[k] == t
}

/// `out` holds the policies of `input`, `out[k]` coming from `input[perm[k]]`,
/// longest prefix (in bytes) first, and entries with prefixes of equal length
/// in their order in `input`.
pub open spec fn longest_first_arrangement(input: Seq<PrefixConfig>, out: Seq<PrefixPolicy>, perm: Seq<int>) -> bool {
    &&& out.len() == input.len()
    &&& perm.len() == input.len()
    &&& forall|k: int| 0 <= k < out.len() ==> 0 <= #[trigger] perm[k] < input.len() && out[k] == policy_of(input[perm[k]])
    &&& forall|t: int| 0 <= t < input.len() ==> #[trigger] placed(perm, t)
    &&& forall|a: int, b: int| 0 <= a < b < out.len() ==> perm[a] != perm[b]
    &&& forall|a: int, b: int| 0 <= a < b < out.len() ==> prefix_bytes(out[a]) >= prefix_bytes(out[b])
    &&& forall|a: int, b: int|
        0 <= a < b < out.len() && prefix_bytes(out[a]) == prefix_bytes(out[b]) ==> perm[a] < perm[b]
}

/// The policies of the `[[prefix]]` entries, longest prefix first; entries
/// with prefixes of equal byte length keep their order.
pub fn policies_longest_first(prefixes: Vec<PrefixConfig>) -> (out: Vec<PrefixPolicy>)
    ensures
        exists|perm: Seq<int>| longest_first_arrangement(prefixes@, out@, perm),
{
    let ghost input = prefixes@;
    let ghost n = prefixes@.len() as int;
    let mut rest = prefixes;
    let mut out: Vec<PrefixPolicy> = Vec::new();
    let ghost mut perm: Seq<int> = Seq::empty();
    while rest.len() > 0
        invariant
            rest@ == input.subrange(0, rest@.len() as int),
            rest@.len() <= n,
            n == input.len(),
            out@.len() == n - rest@.len(),
            perm.len() == out@.len(),
            forall|k: int| 0 <= k < out@.len() ==> rest@.len() <= #[trigger] perm[k] < n && out@[k] == policy_of(input[perm[k]]),
            forall|t: int| rest@.len() <= t < n ==> #[trigger] placed(perm, t),
            forall|a: int, b: int| 0 <= a < b < out@.len() ==> perm[a] != perm[b],
            forall|a: int, b: int| 0 <= a < b < out@.len() ==> prefix_bytes(out@[a]) >= prefix_bytes(out@[b]),
            forall|a: int, b: int|
                0 <= a < b < out@.len() && prefix_bytes(out@[a]) == prefix_bytes(out@[b]) ==> perm[a] < perm[b],
        decreases rest@.len(),
    {
        let ghost i = rest@.len() - 1;
        let c = rest.pop().unwrap();
        let len = c.prefix.as_str().as_bytes().len();
        assert(len == encode_utf8(c.prefix@).len());
        let policy = PrefixPolicy {
            prefix: c.prefix,
            aws_account_id: c.aws_account_id,
            aws_region: c.aws_region,
            allowed_group: c.allowed_group,
            l1_approver_group: c.l1_approver_group,
            tags: c.tags,
        };
        assert(policy == policy_of(input[i]));
        let mut pos: usize = 0;
        while pos < out.len() && out[pos].prefix.as_str().as_bytes().len() > len
            invariant
                0 <= pos <= out@.len(),
                len == prefix_bytes(policy),
                forall|k: int| 0 <= k < pos ==> prefix_bytes(out@[k]) > len,
            decreases out@.len() - pos,
        {
            pos = pos + 1;
        }
        proof {
            if pos < out@.len() {
                assert(prefix_bytes(out@[pos as int]) <= len);
            }
        }
        let ghost old_out = out@;
        let ghost old_perm = perm;
        out.insert(pos, policy);
        proof {
            perm = old_perm.insert(pos as int, i);
            old_out.insert_ensures(pos as int, policy);
            old_perm.insert_ensures(pos as int, i);
            assert forall|k: int| 0 <= k < out@.len() implies rest@.len() <= #[trigger] perm[k] < n && out@[k]
                == policy_of(input[perm[k]]) by {
                if k < pos {
                } else if k == pos {
                } else {
                    assert(out@[k] == old_out[k - 1]);
                    assert(perm[k] == old_perm[k - 1]);
                }
            }
            assert forall|t: int| rest@.len() <= t < n implies #[trigger] placed(perm, t) by {
                if t == i {
                    assert(perm[pos as int] == t);
                } else {
                    assert(placed(old_perm, t));
                    let k0 = choose|k: int| 0 <= k < old_perm.len() && old_perm[k] == t;
                    if k0 < pos {
                        assert(perm[k0] == t);
                    } else {
                        assert(perm[k0 + 1] == t);
                    }
                }
            }
            assert forall|a: int, b: int| 0 <= a < b < out@.len() implies perm[a] != perm[b] by {
                if a < pos && b < pos {
                } else if a < pos && b == pos {
                } else if a < pos {
                    assert(perm[b] == old_perm[b - 1]);
                } else if a == pos {
                    assert(perm[b] == old_perm[b - 1]);
                } else {
                    assert(perm[a] == old_perm[a - 1]);
                    assert(perm[b] == old_perm[b - 1]);
                }
            }
            assert forall|a: int, b: int| 0 <= a < b < out@.len() implies prefix_bytes(out@[a]) >= prefix_bytes(out@[b])
                && (prefix_bytes(out@[a]) == prefix_bytes(out@[b]) ==> perm[a] < perm[b]) by {
                if a < pos && b < pos {
                } else if a < pos && b == pos {
                } else if a < pos {
                    assert(out@[b] == old_out[b - 1]);
                    assert(prefix_bytes(old_out[pos as int]) <= len);
                    if b - 1 > pos {
                        assert(prefix_bytes(old_out[pos as int]) >= prefix_bytes(old_out[b - 1]));
                    }
                } else if a == pos {
                    assert(out@[b] == old_out[b - 1]);
                    assert(perm[b] == old_perm[b - 1]);
                    assert(prefix_bytes(old_out[pos as int]) <= len);
                    if b - 1 > pos {
                        assert(prefix_bytes(old_out[pos as int]) >= prefix_bytes(old_out[b - 1]));
                    }
                } else {
                    assert(out@[a] == old_out[a - 1]);
                    assert(out@[b] == old_out[b - 1]);
                    assert(perm[a] == old_perm[a - 1]);
                    assert(perm[b] == old_perm[b - 1]);
                }
            }
        }
    }
    proof {
        assert(longest_first_arrangement(input, out@, perm));
    }
    out
}


/// `ps[k]` is the first policy whose prefix starts `name`.
pub open spec fn first_match(ps: Seq<PrefixPolicy>, name: Seq<char>, k: int) -> bool {
    &&& 0 <= k < ps.len()
    &&& is_prefix_of(ps[k].prefix@, name)
    &&& forall|j: int| 0 <= j < k ==> !is_prefix_of(#[trigger] ps[j].prefix@, name)
}

impl AppState {
    /// The handler state for `cfg`: its key, its L2 group, its prefix
    /// policies longest prefix first, and its accounts in order.
    pub fn from_config(cfg: AppConfig) -> (r: AppState)
        ensures
            r.kms_key_arn == cfg.kms_key_arn,
            r.l2_approver_group == cfg.l2_approver_group,
            exists|perm: Seq<int>| longest_first_arrangement(cfg.prefixes@, r.prefix_policies@, perm),
            r.sm_account_ids@.map_values(|s: String| s@) == account_ids(cfg),
    {
        let ghost accounts = account_ids(cfg);
        let ghost input = cfg.prefixes@;
        let AppConfig { kms_key_arn, l2_approver_group, prefixes, aws_accounts, .. } = cfg;
        let policies = policies_longest_first(prefixes);
        let mut ids: Vec<String> = Vec::new();
        let mut i: usize = 0;
        while i < aws_accounts.len()
            invariant
                accounts == aws_accounts@.map_values(|a: crate::config::AccountConfig| a.account_id@),
                0 <= i <= aws_accounts@.len(),
                ids@.len() == i,
                forall|k: int| 0 <= k < i ==> #[trigger] ids@[k]@ == accounts[k],
            decreases aws_accounts@.len() - i,
        {
            ids.push(aws_accounts[i].account_id.clone());
            i = i + 1;
        }
        assert(ids@.map_values(|s: String| s@) =~= accounts);
        let ghost perm = choose|perm: Seq<int>| longest_first_arrangement(input, policies@, perm);
        let state = AppState {
            kms_key_arn,
            l2_approver_group,
            prefix_policies: policies,
            sm_account_ids: ids,
        };
        assert(longest_first_arrangement(cfg.prefixes@, state.prefix_policies@, perm));
        state
    }

    /// The first policy, in the state's order, whose prefix starts
    /// `secret_name`; `None` when no prefix does.
    pub fn lookup_prefix(&self, secret_name: &str) -> (r: Option<&PrefixPolicy>)
        ensures
            match r {
                Some(p) => exists|k: int| first_match(self.prefix_policies@, secret_name@, k) && *p == self.prefix_policies@[k],
                None => forall|k: int|
                    0 <= k < self.prefix_policies@.len() ==> !is_prefix_of(#[trigger] self.prefix_policies@[k].prefix@, secret_name@),
            },
    {
        let mut k: usize = 0;
        while k < self.prefix_policies.len()
            invariant
                0 <= k <= self.prefix_policies@.len(),
                forall|j: int| 0 <= j < k ==> !is_prefix_of(#[trigger] self.prefix_policies@[j].prefix@, secret_name@),
            decreases self.prefix_policies@.len() - k,
        {
            let p = &self.prefix_policies[k];
            if starts_with(secret_name, p.prefix.as_str()) {
                assert(first_match(self.prefix_policies@, secret_name@, k as int));
                return Some(p);
            }
            k = k + 1;
        }
        None
    }

    /// The slot of the Secrets Manager client for `account_id`: the last
    /// account entry with that id, as a map filled in account order keeps the
    /// last client inserted under a key; `None` when the account has none.
    pub fn sm_client_for(&self, account_id: &str) -> (r: Option<usize>)
        ensures
            match r {
                Some(i) => i < self.sm_account_ids@.len() && self.sm_account_ids@[i as int]@ == account_id@
                    && forall|j: int| i < j < self.sm_account_ids@.len() ==> #[trigger] self.sm_account_ids@[j]@ != account_id@,
                None => forall|j: int| 0 <= j < self.sm_account_ids@.len() ==> #[trigger] self.sm_account_ids@[j]@ != account_id@,
            },
    {
        let mut i: usize = self.sm_account_ids.len();
        while i > 0
            invariant
                0 <= i <= self.sm_account_ids@.len(),
                forall|j: int| i <= j < self.sm_account_ids@.len() ==> #[trigger] self.sm_account_ids@[j]@ != account_id@,
            decreases i,
        {
            i = i - 1;
            if same_text(self.sm_account_ids[i].as_str(), account_id) {
                return Some(i);
            }
        }
        None
    }
}

/// `p` carries the prefix, account, region, requester group, L1 approver
/// group and tags of the entry `c`.
pub open spec fn carries(p: PrefixPolicy, c: PrefixConfig) -> bool {
    &&& p.prefix@ == c.prefix@
    &&& p.aws_account_id@ == c.aws_account_id@
    &&& p.aws_region@ == c.aws_region@
    &&& p.allowed_group@ == c.allowed_group@
    &&& p.l1_approver_group@ == c.l1_approver_group@
    &&& p.tags@ == c.tags@
}

/// Every policy in a longest-first arrangement carries the fields of the
/// entry it comes from, and every entry is carried by some policy.
pub proof fn lemma_policies_keep_entry_fields(prefixes: Seq<PrefixConfig>, policies: Seq<PrefixPolicy>)
    requires
        exists|perm: Seq<int>| longest_first_arrangement(prefixes, policies, perm),
    ensures
        policies.len() == prefixes.len(),
        forall|k: int| 0 <= k < policies.len() ==> #[trigger] carried_from_some(policies[k], prefixes),
        forall|t: int| 0 <= t < prefixes.len() ==> #[trigger] carried_by_some(policies, prefixes[t]),
{
    let perm = choose|perm: Seq<int>| longest_first_arrangement(prefixes, policies, perm);
    assert forall|k: int| 0 <= k < policies.len() implies #[trigger] carried_from_some(policies[k], prefixes) by {
        let t = perm[k];
        assert(policies[k] == policy_of(prefixes[t]));
        assert(carries(policies[k], prefixes[t]));
    }
    assert forall|t: int| 0 <= t < prefixes.len() implies #[trigger] carried_by_some(policies, prefixes[t]) by {
        assert(placed(perm, t));
        let k = choose|k: int| 0 <= k < perm.len() && perm[k] == t;
        assert(policies[k] == policy_of(prefixes[t]));
        assert(carries(policies[k], prefixes[t]));
    }
}

/// Some entry of `prefixes` is the one `p` carries.
pub open spec fn carried_from_some(p: PrefixPolicy, prefixes: Seq<PrefixConfig>) -> bool {
    exists|t: int| 0 <= t < prefixes.len() && carries(p, #[trigger] prefixes[t])
}

/// Some policy of `policies` carries `c`.
pub open spec fn carried_by_some(policies: Seq<PrefixPolicy>, c: PrefixConfig) -> bool {
    exists|k: int| 0 <= k < policies.len() && carries(#[trigger] policies[k], c)
}

/// When some policy's prefix starts `name`, a first such policy exists.
proof fn lemma_some_first_match(ps: Seq<PrefixPolicy>, name: Seq<char>, j: int)
    requires
        0 <= j < ps.len(),
        is_prefix_of(ps[j].prefix@, name),
    ensures
        exists|m: int| first_match(ps, name, m),
    decreases j,
{
    if exists|x: int| 0 <= x < j && is_prefix_of(#[trigger] ps[x].prefix@, name) {
        let x = choose|x: int| 0 <= x < j && is_prefix_of(#[trigger] ps[x].prefix@, name);
        lemma_some_first_match(ps, name, x);
    } else {
        assert(first_match(ps, name, j));
    }
}

/// Longest prefix wins: in policies arranged longest prefix first, the first
/// policy whose prefix starts `name` exists exactly when some entry's prefix
/// starts `name`, and no entry whose prefix starts `name` has a longer prefix;
/// one with a prefix as long has the same prefix.
pub proof fn lemma_longest_prefix_wins(prefixes: Seq<PrefixConfig>, policies: Seq<PrefixPolicy>, name: Seq<char>, k: int)
    requires
        exists|perm: Seq<int>| longest_first_arrangement(prefixes, policies, perm),
    ensures
        (exists|j: int| first_match(policies, name, j)) <==> (exists|t: int|
            0 <= t < prefixes.len() && is_prefix_of(#[trigger] prefixes[t].prefix@, name)),
        first_match(policies, name, k) ==> forall|t: int|
            0 <= t < prefixes.len() && is_prefix_of(#[trigger] prefixes[t].prefix@, name) ==> prefixes[t].prefix@.len()
                <= policies[k].prefix@.len() && (prefixes[t].prefix@.len() == policies[k].prefix@.len()
                ==> prefixes[t].prefix@ == policies[k].prefix@),
{
    let perm = choose|perm: Seq<int>| longest_first_arrangement(prefixes, policies, perm);
    // Every entry sits somewhere in the arrangement.
    assert forall|t: int| #![trigger prefixes[t]] 0 <= t < prefixes.len() implies exists|j: int|
        0 <= j < policies.len() && #[trigger] perm[j] == t && policies[j].prefix@ == prefixes[t].prefix@ by {
        assert(placed(perm, t));
        let j = choose|j: int| 0 <= j < perm.len() && perm[j] == t;
        assert(policies[j] == policy_of(prefixes[perm[j]]));
    }
    if exists|t: int| 0 <= t < prefixes.len() && is_prefix_of(#[trigger] prefixes[t].prefix@, name) {
        let t = choose|t: int| 0 <= t < prefixes.len() && is_prefix_of(#[trigger] prefixes[t].prefix@, name);
        let j = choose|j: int| 0 <= j < policies.len() && #[trigger] perm[j] == t && policies[j].prefix@ == prefixes[t].prefix@;
        lemma_some_first_match(policies, name, j);
    }
    if exists|j: int| first_match(policies, name, j) {
        let j = choose|j: int| first_match(policies, name, j);
        assert(policies[j] == policy_of(prefixes[perm[j]]));
        assert(is_prefix_of(prefixes[perm[j]].prefix@, name));
    }
    if first_match(policies, name, k) {
        assert forall|t: int|
            0 <= t < prefixes.len() && is_prefix_of(#[trigger] prefixes[t].prefix@, name) implies prefixes[t].prefix@.len()
                <= policies[k].prefix@.len() && (prefixes[t].prefix@.len() == policies[k].prefix@.len()
                ==> prefixes[t].prefix@ == policies[k].prefix@) by {
            let j = choose|j: int| 0 <= j < policies.len() && #[trigger] perm[j] == t && policies[j].prefix@ == prefixes[t].prefix@;
            if j < k {
                assert(!is_prefix_of(policies[j].prefix@, name));
            } else {
                if j > k {
                    assert(prefix_bytes(policies[k]) >= prefix_bytes(policies[j]));
                }
                lemma_prefix_byte_order(policies[k].prefix@, prefixes[t].prefix@, name);
            }
        }
    }
}


/// In a valid configuration every prefix's account has exactly one Secrets
/// Manager client slot among the accounts `ids` built from it.
pub proof fn lemma_prefix_account_has_one_client(cfg: AppConfig, ids: Seq<String>, j: int)
    requires
        config_valid(cfg),
        ids.map_values(|s: String| s@) == account_ids(cfg),
        0 <= j < cfg.prefixes@.len(),
    ensures
        exists|i: int| 0 <= i < ids.len() && #[trigger] ids[i]@ == cfg.prefixes@[j].aws_account_id@,
        forall|a: int, b: int|
            0 <= a < ids.len() && 0 <= b < ids.len() && ids[a]@ == cfg.prefixes@[j].aws_account_id@ && ids[b]@
                == cfg.prefixes@[j].aws_account_id@ ==> a == b,
{
    let accounts = account_ids(cfg);
    assert(accounts.contains(cfg.prefixes@[j].aws_account_id@));
    let i = choose|i: int| 0 <= i < accounts.len() && accounts[i] == cfg.prefixes@[j].aws_account_id@;
    assert(ids.map_values(|s: String| s@)[i] == ids[i]@);
    assert forall|a: int, b: int|
        0 <= a < ids.len() && 0 <= b < ids.len() && ids[a]@ == cfg.prefixes@[j].aws_account_id@ && ids[b]@
            == cfg.prefixes@[j].aws_account_id@ implies a == b by {
        assert(ids.map_values(|s: String| s@)[a] == ids[a]@);
        assert(ids.map_values(|s: String| s@)[b] == ids[b]@);
    }
}


/// In the state built from a valid configuration, every prefix policy's
/// account has a Secrets Manager client slot.
pub proof fn lemma_every_policy_has_a_client(cfg: AppConfig, state: AppState, k: int)
    requires
        config_valid(cfg),
        exists|perm: Seq<int>| longest_first_arrangement(cfg.prefixes@, state.prefix_policies@, perm),
        state.sm_account_ids@.map_values(|s: String| s@) == account_ids(cfg),
        0 <= k < state.prefix_policies@.len(),
    ensures
        exists|i: int|
            0 <= i < state.sm_account_ids@.len() && #[trigger] state.sm_account_ids@[i]@
                == state.prefix_policies@[k].aws_account_id@,
{
    let perm = choose|perm: Seq<int>| longest_first_arrangement(cfg.prefixes@, state.prefix_policies@, perm);
    let t = perm[k];
    assert(state.prefix_policies@[k] == policy_of(cfg.prefixes@[t]));
    lemma_prefix_account_has_one_client(cfg, state.sm_account_ids@, t);
}

} // verus!
