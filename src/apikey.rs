//! API keys: the request to create one and the environment prefix of a key.
use vstd::prelude::*;

use crate::text::{has_prefix, joined};

verus! {

/// A tenant's request for a new API key.
#[derive(Debug, Clone)]
pub struct CreateApiKeyRequest {
    pub name: String,
}

/// Whether `key` is a secret key, that is begins with `sk_`.
pub open spec fn is_secret_key(key: Seq<char>) -> bool {
    key.len() >= 3 && key.subrange(0, 3) == "sk_"@
}

/// Whether `p` is `key` up to its second underscore, or up to its end when
/// it has only one, followed by an underscore: `sk_live_abc` gives
/// `sk_live_`.
pub open spec fn is_key_prefix(key: Seq<char>, p: Seq<char>) -> bool {
    exists|j: int|
        3 <= j <= key.len() && p == key.subrange(0, j) + "_"@ && (forall|i: int| 3 <= i < j ==> key[i] != '_')
            && (j == key.len() || key[j] == '_')
}

/// The environment prefix of a secret key, such as `sk_live_` or
/// `sk_test_`; `None` for a key that does not begin with `sk_`.
pub fn extract_prefix(api_key: &str) -> (r: Option<String>)
    ensures
        r is Some <==> is_secret_key(api_key@),
        r matches Some(p) ==> is_key_prefix(api_key@, p@),
{
    proof {
        reveal_strlit("sk_");
    }
    if !has_prefix(api_key, "sk_") {
        return None;
    }
    let n = api_key.unicode_len();
    let mut j: usize = 3;
    while j < n && api_key.get_char(j) != '_'
        invariant
            n == api_key@.len(),
            3 <= j <= n,
            forall|i: int| 3 <= i < j ==> api_key@[i] != '_',
        decreases n - j,
    {
        j = j + 1;
    }
    let head = api_key.substring_char(0, j);
    let p = joined(head, "_");
    assert(is_key_prefix(api_key@, p@)) by {
        assert(3 <= j <= api_key@.len() && p@ == api_key@.subrange(0, j as int) + "_"@);
    }
    Some(p)
}

} // verus!
