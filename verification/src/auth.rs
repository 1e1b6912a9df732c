//! The check of the API key that callers of the data service present.
use vstd::prelude::*;

verus! {

/// A byte that may stand in a header value read as text: a visible ASCII
/// character, a space or a tab (the rule of `http::HeaderValue::to_str`).
pub open spec fn is_visible_ascii(b: u8) -> bool {
    (32 <= b && b < 127) || b == 9
}

/// The request is authorised when it carries an "api_key" header whose value
/// is readable as text and equal to the key.
pub open spec fn api_key_accepted(provided: Option<Seq<u8>>, api_key: Seq<char>) -> bool {
    match provided {
        None => false,
        Some(bytes) => {
            &&& forall|i: int| 0 <= i < bytes.len() ==> is_visible_ascii(#[trigger] bytes[i])
            &&& bytes.len() == api_key.len()
            &&& forall|i: int| 0 <= i < bytes.len() ==> #[trigger] api_key[i] == (bytes[i] as char)
        },
    }
}

/// A request without the header is refused; one with it is accepted exactly
/// when the header holds as many bytes as the key has characters, each byte
/// a visible ASCII character (32 to 126) or a tab, and each the code of the
/// key's character at its place. So at most one header value opens the
/// service for a key.
pub proof fn lemma_api_key(api_key: Seq<char>)
    ensures
        !api_key_accepted(None, api_key),
        forall|bytes: Seq<u8>| #[trigger] api_key_accepted(Some(bytes), api_key) <==> {
            &&& bytes.len() == api_key.len()
            &&& forall|i: int| 0 <= i < bytes.len() ==> ((32 <= #[trigger] bytes[i] <= 126) || bytes[i] == 9)
                && api_key[i] == (bytes[i] as char)
        },
        forall|a: Seq<u8>, b: Seq<u8>| #[trigger] api_key_accepted(Some(a), api_key) && #[trigger] api_key_accepted(Some(b), api_key)
            ==> a == b,
{
    assert forall|a: Seq<u8>, b: Seq<u8>| #[trigger] api_key_accepted(Some(a), api_key) && #[trigger] api_key_accepted(Some(b), api_key)
        implies a == b by {
        assert forall|i: int| 0 <= i < a.len() implies a[i] == b[i] by {
            assert(api_key[i] == (a[i] as char));
            assert(api_key[i] == (b[i] as char));
            assert((a[i] as char) as int == a[i] as int);
            assert((b[i] as char) as int == b[i] as int);
        }
        assert(a =~= b);
    }
}

/// Whether the value of the "api_key" header of a request, if there is one,
/// matches the service's key.
pub fn api_key_check(provided: &Option<Vec<u8>>, api_key: &String) -> (r: bool)
    ensures
        r == api_key_accepted(
            match provided { Some(v) => Some(v@), None => None },
            api_key@,
        ),
{
    let bytes = match provided {
        Some(v) => v,
        None => return false,
    };
    let n = bytes.len();
    let mut i: usize = 0;
    while i < n
        invariant
            *provided == Some(*bytes),
            n == bytes@.len(),
            i <= n,
            forall|k: int| 0 <= k < i ==> is_visible_ascii(#[trigger] bytes@[k]),
        decreases n - i,
    {
        let b = bytes[i];
        if !((32 <= b && b < 127) || b == 9) {
            assert(!is_visible_ascii(bytes@[i as int]));
            return false;
        }
        i = i + 1;
    }
    let key = api_key.as_str();
    assert(forall|k: int| 0 <= k < n ==> is_visible_ascii(#[trigger] bytes@[k]));
    if key.unicode_len() != n {
        return false;
    }
    let mut j: usize = 0;
    while j < n
        invariant
            *provided == Some(*bytes),
            n == bytes@.len(),
            n == key@.len(),
            key@ == api_key@,
            j <= n,
            forall|k: int| 0 <= k < j ==> #[trigger] key@[k] == (bytes@[k] as char),
        decreases n - j,
    {
        let c = key.get_char(j);
        if c != (bytes[j] as char) {
            assert(key@[j as int] != (bytes@[j as int] as char));
            return false;
        }
        j = j + 1;
    }
    true
}

} // verus!
