//! Binding of authentication to the server identity, and the request MAC.
//!
//! The OPAQUE exchange itself runs in the application around this library; what
//! it is handed (the credential identifier and the login context) is built here,
//! and so is the MAC that ties a request to the session key OPAQUE produced.
use vstd::prelude::*;

use crate::text::push_bytes;
use crate::transfer::TransferDigest;
use crate::{PROTOCOL_ALPN, PROTOCOL_VERSION};
use hmac::Mac;
use vstd::string::StringSliceAdditionalSpecFns;

verus! {

pub const OPAQUE_CONTEXT: &'static str = "RemoText OPAQUE v1";
pub const CREDENTIAL_CONTEXT: &'static str = "RemoText single-password credential v1";
pub const CLIENT_ID: &'static str = "remotext-client";
pub const REQUEST_MAC_CONTEXT: &'static str = "RemoText OPAQUE request v1";

/// The 2-byte big-endian encoding of a protocol version.
pub open spec fn be16_bytes(v: u16) -> Seq<u8> {
    seq![(v / 256) as u8, (v % 256) as u8]
}

/// The bytes that bind a value to this protocol: ALPN and version.
pub open spec fn protocol_binding() -> Seq<u8> {
    PROTOCOL_ALPN@ + be16_bytes(PROTOCOL_VERSION)
}

/// The OPAQUE credential identifier of the single password of a server.
pub open spec fn spec_credential_identifier(server_id: Seq<u8>) -> Seq<u8> {
    CREDENTIAL_CONTEXT.spec_bytes() + server_id
}

/// The OPAQUE context: binds a login to the protocol and the server identity.
pub open spec fn spec_login_context(server_id: Seq<u8>) -> Seq<u8> {
    OPAQUE_CONTEXT.spec_bytes() + protocol_binding() + server_id
}

/// The message under the request MAC.
pub open spec fn mac_transcript(server_id: Seq<u8>, request_hash: Seq<u8>) -> Seq<u8> {
    REQUEST_MAC_CONTEXT.spec_bytes() + protocol_binding() + server_id + request_hash
}

/// SHA-256 of `data`.
pub uninterp spec fn spec_sha256(data: Seq<u8>) -> Seq<u8>;

/// HMAC-SHA256 of `message` under `key`.
pub uninterp spec fn spec_hmac_sha256(key: Seq<u8>, message: Seq<u8>) -> Seq<u8>;

/// The MAC that ties a serialized request to a session key and a server.
pub open spec fn spec_request_mac(session_key: Seq<u8>, server_id: Seq<u8>, request_bytes: Seq<u8>) -> Seq<u8> {
    spec_hmac_sha256(session_key, mac_transcript(server_id, spec_sha256(request_bytes)))
}

/// Whether a server accepts `candidate` as the MAC of a serialized request.
pub open spec fn mac_accepts(session_key: Seq<u8>, server_id: Seq<u8>, request_bytes: Seq<u8>, candidate: Seq<u8>) -> bool {
    candidate == spec_request_mac(session_key, server_id, request_bytes)
}

/// The SHA-256 of `data`.
pub(crate) fn sha256(data: &[u8]) -> (r: [u8; 32])
    ensures
        r@ == spec_sha256(data@),
{
    let mut d = TransferDigest::new();
    d.update(data);
    let v = d.finish();
    assert(Seq::<u8>::empty() + data@ =~= data@);
    let mut out: [u8; 32] = [0u8; 32];
    let mut i: usize = 0;
    while i < 32
        invariant
            i <= 32,
            v@.len() == 32,
            forall|j: int| 0 <= j < i ==> out@[j] == v@[j],
        decreases 32 - i,
    {
        out[i] = v[i];
        i = i + 1;
    }
    assert(out@ =~= v@);
    out
}

/// `hmac::Hmac<Sha256>` keyed with `key` over `message`: the result is named
/// `spec_hmac_sha256` of key and message. HMAC takes keys of any length, so the
/// keying step does not fail.
#[verifier::external_body]
fn hmac_sha256(key: &[u8], message: &[u8]) -> (r: [u8; 32])
    ensures
        r@ == spec_hmac_sha256(key@, message@),
{
    let mut mac = <hmac::Hmac<sha2::Sha256> as Mac>::new_from_slice(key).expect("HMAC accepts any key size");
    mac.update(message);
    mac.finalize().into_bytes().into()
}

fn push_protocol_binding(out: &mut Vec<u8>)
    ensures
        final(out)@ == old(out)@ + protocol_binding(),
{
    let alpn = PROTOCOL_ALPN;
    push_bytes(out, alpn.as_slice());
    let v = PROTOCOL_VERSION;
    out.push((v / 256) as u8);
    out.push((v % 256) as u8);
    assert(final(out)@ =~= old(out)@ + protocol_binding());
}

/// The OPAQUE credential identifier for the server with this identity.
pub fn credential_identifier(server_id: &[u8; 32]) -> (r: Vec<u8>)
    ensures
        r@ == spec_credential_identifier(server_id@),
{
    let mut out: Vec<u8> = Vec::new();
    push_bytes(&mut out, CREDENTIAL_CONTEXT.as_bytes());
    push_bytes(&mut out, server_id.as_slice());
    assert(out@ =~= spec_credential_identifier(server_id@));
    out
}

/// The OPAQUE context for a login to the server with this identity.
pub fn login_context(server_id: &[u8; 32]) -> (r: Vec<u8>)
    ensures
        r@ == spec_login_context(server_id@),
{
    let mut out: Vec<u8> = Vec::new();
    push_bytes(&mut out, OPAQUE_CONTEXT.as_bytes());
    push_protocol_binding(&mut out);
    push_bytes(&mut out, server_id.as_slice());
    assert(out@ =~= spec_login_context(server_id@));
    out
}

/// The MAC a client attaches to a serialized request.
pub fn request_mac(session_key: &[u8], server_id: &[u8; 32], request_bytes: &[u8]) -> (r: [u8; 32])
    ensures
        r@ == spec_request_mac(session_key@, server_id@, request_bytes@),
{
    let request_hash = sha256(request_bytes);
    let mut transcript: Vec<u8> = Vec::new();
    push_bytes(&mut transcript, REQUEST_MAC_CONTEXT.as_bytes());
    push_protocol_binding(&mut transcript);
    push_bytes(&mut transcript, server_id.as_slice());
    push_bytes(&mut transcript, request_hash.as_slice());
    assert(transcript@ =~= mac_transcript(server_id@, spec_sha256(request_bytes@)));
    hmac_sha256(session_key, transcript.as_slice())
}

/// Compares two 32-byte values without an early exit.
pub fn constant_time_eq(a: &[u8; 32], b: &[u8; 32]) -> (r: bool)
    ensures
        r == (a@ == b@),
{
    let mut diff: u8 = 0;
    let mut i: usize = 0;
    while i < 32
        invariant
            i <= 32,
            a@.len() == 32,
            b@.len() == 32,
            (diff == 0) <==> (forall|j: int| 0 <= j < i ==> a@[j] == b@[j]),
        decreases 32 - i,
    {
        let x = a[i];
        let y = b[i];
        let d = diff;
        assert(((d | (x ^ y)) == 0u8) == (d == 0u8 && x == y)) by (bit_vector);
        diff = d | (x ^ y);
        i = i + 1;
    }
    if diff == 0 {
        assert(a@ =~= b@);
        true
    } else {
        false
    }
}

/// Whether `candidate` is the MAC of this serialized request under the session key
/// and the server identity.
pub fn verify_request_mac(
    session_key: &[u8],
    server_id: &[u8; 32],
    request_bytes: &[u8],
    candidate: &[u8; 32],
) -> (r: bool)
    ensures
        r == mac_accepts(session_key@, server_id@, request_bytes@, candidate@),
{
    let expected = request_mac(session_key, server_id, request_bytes);
    constant_time_eq(&expected, candidate)
}

/// What the client attaches to a request is what the server accepts for it: a MAC
/// made by `request_mac` passes `verify_request_mac` under the same session key,
/// server identity and request bytes, and any other 32 bytes fail it.
pub proof fn lemma_request_mac_accepted(
    session_key: Seq<u8>,
    server_id: Seq<u8>,
    request_bytes: Seq<u8>,
    candidate: Seq<u8>,
)
    ensures
        mac_accepts(session_key, server_id, request_bytes, spec_request_mac(session_key, server_id, request_bytes)),
        candidate != spec_request_mac(session_key, server_id, request_bytes)
            ==> !mac_accepts(session_key, server_id, request_bytes, candidate),
{
}

} // verus!
