//! Base64 (URL-safe alphabet, no padding) as the `base64` crate computes it.
use vstd::prelude::*;

use base64::Engine;

verus! {

/// The URL-safe, unpadded base64 text of `bytes`.
pub uninterp spec fn spec_b64_encode(bytes: Seq<u8>) -> Seq<char>;

/// The bytes that a URL-safe, unpadded base64 text stands for, or `None` when it
/// is not such a text.
pub uninterp spec fn spec_b64_decode(text: Seq<char>) -> Option<Seq<u8>>;

/// The length of the unpadded base64 text of `n` bytes: four characters for each
/// three bytes, and two or three for a last one or two.
pub open spec fn b64_len(n: nat) -> nat {
    4 * (n / 3) + if n % 3 == 0 {
        0nat
    } else if n % 3 == 1 {
        2nat
    } else {
        3nat
    }
}

/// A character of the URL-safe base64 alphabet: `A`-`Z`, `a`-`z`, `0`-`9`, `-`, `_`.
pub open spec fn is_b64_url_char(c: char) -> bool {
    let n = c as int;
    (65 <= n <= 90) || (97 <= n <= 122) || (48 <= n <= 57) || n == 45 || n == 95
}

/// `URL_SAFE_NO_PAD.encode`: the result is named `spec_b64_encode` of the bytes.
/// Its length is the one `base64::encoded_len` computes without padding, it is
/// made of the URL-safe alphabet only (no padding), and decoding it gives the
/// bytes back (the crate's round-trip property).
#[verifier::external_body]
pub(crate) fn b64_encode(bytes: &[u8]) -> (r: String)
    ensures
        r@ == spec_b64_encode(bytes@),
        r@.len() == b64_len(bytes@.len()),
        forall|i: int| 0 <= i < r@.len() ==> is_b64_url_char(#[trigger] r@[i]),
        spec_b64_decode(r@) == Some(bytes@),
{
    base64::engine::general_purpose::URL_SAFE_NO_PAD.encode(bytes)
}

/// `URL_SAFE_NO_PAD.decode`: `None` where the crate returns an error; the result
/// is named `spec_b64_decode` of the text.
#[verifier::external_body]
pub(crate) fn b64_decode(text: &str) -> (r: Option<Vec<u8>>)
    ensures
        match r {
            Some(v) => spec_b64_decode(text@) == Some(v@),
            None => spec_b64_decode(text@) is None,
        },
{
    match base64::engine::general_purpose::URL_SAFE_NO_PAD.decode(text) {
        Ok(v) => Some(v),
        Err(_) => None,
    }
}

} // verus!
