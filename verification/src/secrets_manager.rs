//! Tagging a secret after its value is written.
use std::collections::HashMap;
use vstd::prelude::*;

verus! {

/// Whether `TagResource` is sent after the value is written: only when the
/// policy has tags; with none there is nothing to apply and the write ends
/// with `PutSecretValue`.
pub fn sends_tag_resource(tags: &HashMap<String, String>) -> (r: bool)
    ensures
        r == !tags@.is_empty(),
{
    !tags.is_empty()
}

/// Whether and with what `TagResource` is sent after the value is written:
/// `None` when the policy has no tags, and then no `TagResource` call is
/// made (there is nothing to apply); otherwise the call carries every
/// (key, value) pair.
pub fn tags_to_apply(pairs: Vec<(String, String)>) -> (r: Option<Vec<(String, String)>>)
    ensures
        pairs@.len() == 0 ==> r is None,
        pairs@.len() > 0 ==> r == Some(pairs),
{
    if pairs.len() == 0 {
        None
    } else {
        Some(pairs)
    }
}

} // verus!
