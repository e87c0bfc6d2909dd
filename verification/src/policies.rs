//! Prefix policies as the database stores them, with their tags kept as a
//! JSON object of strings.
use std::collections::HashMap;
use vstd::prelude::*;

verus! {

#[verifier::external_type_specification]
#[verifier::external_body]
pub struct ExJsonError(serde_json::Error);

/// The string-to-string map that the JSON text `text` holds as an object;
/// `None` when `text` is not a JSON object whose values are all strings.
pub uninterp spec fn tag_object(text: Seq<char>) -> Option<Map<Seq<char>, Seq<char>>>;

/// A map of `String`s, seen through the text of its keys and values.
pub open spec fn text_map(m: Map<String, String>) -> Map<Seq<char>, Seq<char>> {
    Map::new(
        |k: Seq<char>| exists|s: String| m.contains_key(s) && s@ == k,
        |k: Seq<char>| m[choose|s: String| m.contains_key(s) && s@ == k]@,
    )
}

/// `serde_json::from_str::<HashMap<String, String>>`: succeeds exactly when
/// `text` is a JSON object of strings, with the map it holds.
#[verifier::external_body]
fn tags_from_json(text: &str) -> (r: Result<HashMap<String, String>, serde_json::Error>)
    ensures
        r is Ok == tag_object(text@) is Some,
        r matches Ok(m) ==> Some(text_map(m@)) == tag_object(text@),
{
    serde_json::from_str(text)
}

/// `serde_json::to_string` of a string-to-string map: it succeeds, since
/// serialization fails only for maps with non-string keys or values whose
/// serialization fails, and strings never fail. The text is a JSON object
/// with one member per entry, each key and value written as an escaped JSON
/// string, so reading it back gives the same map. The order of the members
/// follows the map's iteration order, which is seeded per process, so the
/// text itself is not stated.
#[verifier::external_body]
fn tags_to_json(tags: &HashMap<String, String>) -> (r: Result<String, serde_json::Error>)
    ensures
        r is Ok,
        r matches Ok(text) ==> tag_object(text@) == Some(text_map(tags@)),
{
    serde_json::to_string(tags)
}

/// A prefix policy: requests for secrets under `prefix` come from
/// `requester_group_id` and go through the approval flow `flow_id`; the
/// secret lives in `aws_account_id`/`aws_region` and gets `tags`. Times are
/// microseconds since the Unix epoch.
#[derive(Clone, Debug)]
pub struct PrefixPolicy {
    pub policy_id: u128,
    pub prefix: String,
    pub aws_account_id: String,
    pub aws_region: String,
    pub requester_group_id: u128,
    pub flow_id: u128,
    pub tags: HashMap<String, String>,
    pub created_at: i64,
    pub updated_at: i64,
}

/// A `prefix_policies` row as read, tags still as stored text.
#[derive(Clone, Debug)]
pub struct PolicyRow {
    pub policy_id: u128,
    pub prefix: String,
    pub aws_account_id: String,
    pub aws_region: String,
    pub requester_group_id: u128,
    pub flow_id: u128,
    pub tags: String,
    pub created_at: i64,
    pub updated_at: i64,
}

/// Why tags could not be stored or read.
#[derive(Clone, Copy, Debug, PartialEq, Eq, Structural)]
pub enum PolicyError {
    SerializeTags,
    ParseTags,
}

/// `p` is the policy that `row` describes, its tags parsed.
pub open spec fn policy_from_row(row: PolicyRow, p: PrefixPolicy) -> bool {
    &&& p.policy_id == row.policy_id
    &&& p.prefix == row.prefix
    &&& p.aws_account_id == row.aws_account_id
    &&& p.aws_region == row.aws_region
    &&& p.requester_group_id == row.requester_group_id
    &&& p.flow_id == row.flow_id
    &&& tag_object(row.tags@) == Some(text_map(p.tags@))
    &&& p.created_at == row.created_at
    &&& p.updated_at == row.updated_at
}

impl PrefixPolicy {
    /// The policy a row describes; `ParseTags` when its tags are not a JSON
    /// object of strings.
    pub fn from_row(row: &PolicyRow) -> (r: Result<PrefixPolicy, PolicyError>)
        ensures
            r is Ok == tag_object(row.tags@) is Some,
            r matches Ok(p) ==> policy_from_row(*row, p),
            r matches Ok(p) ==> p.policy_id == row.policy_id && p.prefix@ == row.prefix@ && p.aws_account_id@
                == row.aws_account_id@ && p.aws_region@ == row.aws_region@ && p.requester_group_id
                == row.requester_group_id && p.flow_id == row.flow_id && p.created_at == row.created_at
                && p.updated_at == row.updated_at && Some(text_map(p.tags@)) == tag_object(row.tags@),
            r matches Err(e) ==> e == PolicyError::ParseTags,
    {
        match tags_from_json(row.tags.as_str()) {
            Err(_) => Err(PolicyError::ParseTags),
            Ok(tags) => Ok(
                PrefixPolicy {
                    policy_id: row.policy_id,
                    prefix: row.prefix.clone(),
                    aws_account_id: row.aws_account_id.clone(),
                    aws_region: row.aws_region.clone(),
                    requester_group_id: row.requester_group_id,
                    flow_id: row.flow_id,
                    tags,
                    created_at: row.created_at,
                    updated_at: row.updated_at,
                },
            ),
        }
    }
}

/// The policies that `rows` describe, in order; `ParseTags` when any row's
/// tags are not a JSON object of strings.
pub fn policies_from_rows(rows: &Vec<PolicyRow>) -> (r: Result<Vec<PrefixPolicy>, PolicyError>)
    ensures
        r is Ok == forall|i: int| 0 <= i < rows@.len() ==> (tag_object(#[trigger] rows@[i].tags@) is Some),
        r matches Ok(ps) ==> ps@.len() == rows@.len() && forall|i: int|
            0 <= i < rows@.len() ==> policy_from_row(#[trigger] rows@[i], ps@[i]),
        r matches Err(e) ==> e == PolicyError::ParseTags,
{
    let mut out: Vec<PrefixPolicy> = Vec::new();
    let mut i: usize = 0;
    while i < rows.len()
        invariant
            0 <= i <= rows@.len(),
            out@.len() == i,
            forall|k: int| 0 <= k < i ==> (tag_object(#[trigger] rows@[k].tags@) is Some),
            forall|k: int| 0 <= k < i ==> policy_from_row(#[trigger] rows@[k], out@[k]),
        decreases rows@.len() - i,
    {
        match PrefixPolicy::from_row(&rows[i]) {
            Err(e) => {
                return Err(e);
            },
            Ok(p) => {
                out.push(p);
            },
        }
        i = i + 1;
    }
    Ok(out)
}

/// A policy read from a row keeps every column of the row: its id, prefix,
/// account, region, requester group, flow and times, and the map its tags
/// text holds.
pub proof fn lemma_row_columns_kept(row: PolicyRow, p: PrefixPolicy)
    requires
        policy_from_row(row, p),
    ensures
        p.policy_id == row.policy_id,
        p.prefix@ == row.prefix@,
        p.aws_account_id@ == row.aws_account_id@,
        p.aws_region@ == row.aws_region@,
        p.requester_group_id == row.requester_group_id,
        p.flow_id == row.flow_id,
        p.created_at == row.created_at,
        p.updated_at == row.updated_at,
        tag_object(row.tags@) == Some(text_map(p.tags@)),
{
}

/// The stored text of a policy's tags, as a JSON object; a map of strings
/// always serializes, and the text reads back as the same map.
pub fn serialize_tags(tags: &HashMap<String, String>) -> (r: Result<String, PolicyError>)
    ensures
        r is Ok,
        r matches Ok(text) ==> tag_object(text@) == Some(text_map(tags@)),
{
    match tags_to_json(tags) {
        Ok(text) => Ok(text),
        Err(_) => Err(PolicyError::SerializeTags),
    }
}

/// The text that reports a tag error.
pub open spec fn policy_error_text(e: PolicyError) -> Seq<char> {
    match e {
        PolicyError::SerializeTags => "serialize tags"@,
        PolicyError::ParseTags => "parse tags"@,
    }
}

impl PolicyError {
    /// The text that reports this error.
    pub fn message(&self) -> (r: String)
        ensures
            r@ == policy_error_text(*self),
    {
        match self {
            PolicyError::SerializeTags => String::from_str("serialize tags"),
            PolicyError::ParseTags => String::from_str("parse tags"),
        }
    }
}

} // verus!
