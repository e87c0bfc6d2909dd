//! Users are stored and found by their e-mail address in lower case.
use vstd::prelude::*;

verus! {

/// The lower-case form of `text` (Unicode lower-casing, as `str::to_lowercase`).
pub uninterp spec fn lowercase(text: Seq<char>) -> Seq<char>;

/// `str::to_lowercase`: the lower-case form of `text`, named and not spelled out.
#[verifier::external_body]
fn to_lowercase(text: &str) -> (r: String)
    ensures
        r@ == lowercase(text@),
{
    text.to_lowercase()
}

/// The key a user's e-mail address is stored and looked up under: the
/// address in lower case, so that case does not tell two users apart.
pub fn user_email_key(email: &str) -> (r: String)
    ensures
        r@ == lowercase(email@),
{
    to_lowercase(email)
}

} // verus!
