//! Server address tickets: `rt1_` followed by the URL-safe base64 of the
//! serialized iroh endpoint address.
use vstd::prelude::*;

use crate::encoding::{b64_decode, b64_encode, b64_len, spec_b64_decode, spec_b64_encode};

verus! {

pub const PREFIX: &'static str = "rt1_";

/// The ticket for a serialized endpoint address.
pub open spec fn ticket_text(addr_bytes: Seq<u8>) -> Seq<char> {
    PREFIX@ + spec_b64_encode(addr_bytes)
}

pub open spec fn missing_prefix_text() -> Seq<char> {
    "RemoText address must start with rt1_"@
}

pub open spec fn empty_ticket_text() -> Seq<char> {
    "RemoText address is empty"@
}

pub open spec fn bad_ticket_text() -> Seq<char> {
    "decode RemoText address"@
}

/// What reading a ticket gives: the serialized address, or the error text.
pub open spec fn spec_decode_ticket(input: Seq<char>) -> Result<Seq<u8>, Seq<char>> {
    if !(PREFIX@.len() <= input.len() && input.subrange(0, PREFIX@.len() as int) == PREFIX@) {
        Err(missing_prefix_text())
    } else {
        let encoded = input.subrange(PREFIX@.len() as int, input.len() as int);
        if encoded.len() == 0 {
            Err(empty_ticket_text())
        } else {
            match spec_b64_decode(encoded) {
                Some(b) => Ok(b),
                None => Err(bad_ticket_text()),
            }
        }
    }
}

/// Makes the ticket for a serialized endpoint address. A ticket of a non-empty
/// address reads back as that address.
pub fn encode_addr(addr_bytes: &[u8]) -> (r: String)
    ensures
        r@ == ticket_text(addr_bytes@),
        addr_bytes@.len() > 0 ==> spec_decode_ticket(r@) == Ok::<Seq<u8>, Seq<char>>(addr_bytes@),
{
    proof {
        reveal_strlit("rt1_");
    }
    let mut s = String::from_str(PREFIX);
    let encoded = b64_encode(addr_bytes);
    s.append(encoded.as_str());
    assert(s@.subrange(0, 4) =~= PREFIX@);
    assert(s@.subrange(4, s@.len() as int) =~= encoded@);
    s
}

/// Reads a ticket back into the serialized endpoint address.
pub fn decode_addr(input: &str) -> (r: Result<Vec<u8>, String>)
    ensures
        match spec_decode_ticket(input@) {
            Ok(b) => r matches Ok(v) && v@ == b,
            Err(t) => r matches Err(e) && e@ == t,
        },
{
    proof {
        reveal_strlit("rt1_");
    }
    if !crate::text::str_starts_with(input, PREFIX) {
        return Err(String::from_str("RemoText address must start with rt1_"));
    }
    let n = input.unicode_len();
    let encoded = input.substring_char(4, n);
    if n == 4 {
        return Err(String::from_str("RemoText address is empty"));
    }
    match b64_decode(encoded) {
        Some(bytes) => Ok(bytes),
        None => Err(String::from_str("decode RemoText address")),
    }
}

} // verus!
