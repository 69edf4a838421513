//! File transfer integrity: the SHA-256 of the bytes a transfer carries, kept by
//! the side that sends them and by the side that receives them.
use vstd::prelude::*;

use crate::auth::spec_sha256;
use crate::protocol::{Message, Response};
use sha2::Digest;

verus! {

/// An incremental SHA-256 (`sha2::Sha256`) over the bytes of one transfer. Its
/// hasher state is private and never read directly; what it has absorbed is
/// named `digest_input`.
#[verifier::external_body]
pub struct TransferDigest {
    inner: sha2::Sha256,
}

/// The bytes a digest has absorbed so far, in order.
pub uninterp spec fn digest_input(d: TransferDigest) -> Seq<u8>;

impl TransferDigest {
    /// `Sha256::new`: a hasher that has absorbed nothing.
    #[verifier::external_body]
    pub(crate) fn new() -> (r: Self)
        ensures
            digest_input(r) == Seq::<u8>::empty(),
    {
        TransferDigest { inner: sha2::Sha256::new() }
    }

    /// `Digest::update`: absorbs `data` after what came before.
    #[verifier::external_body]
    pub(crate) fn update(&mut self, data: &[u8])
        ensures
            digest_input(*final(self)) == digest_input(*old(self)) + data@,
    {
        self.inner.update(data);
    }

    /// `Digest::finalize` of a copy of the hasher: the 32-byte SHA-256 of all the
    /// bytes absorbed. `Sha256::digest` is `new`, `update`, `finalize`, so this is
    /// the same function that `spec_sha256` names.
    #[verifier::external_body]
    pub(crate) fn finish(&self) -> (r: Vec<u8>)
        ensures
            r@ == spec_sha256(digest_input(*self)),
            r@.len() == 32,
    {
        self.inner.clone().finalize().to_vec()
    }
}

/// The sending side of a file transfer (the server for a download, the client
/// for an upload): each chunk it sends is counted and hashed, and its final
/// `TransferDone` reports the count and the SHA-256 of all the bytes sent.
pub struct FileSender {
    sent: u64,
    digest: TransferDigest,
}

impl FileSender {
    /// How many bytes were sent.
    pub closed spec fn sent(&self) -> u64 {
        self.sent
    }

    /// The bytes sent, in order.
    pub closed spec fn data(&self) -> Seq<u8> {
        digest_input(self.digest)
    }

    /// The count is the length of the bytes sent.
    pub open spec fn wf(&self) -> bool {
        self.sent() == self.data().len()
    }

    pub fn new() -> (r: Self)
        ensures
            r.wf(),
            r.sent() == 0,
            r.data() == Seq::<u8>::empty(),
    {
        FileSender { sent: 0, digest: TransferDigest::new() }
    }

    pub fn sent_bytes(&self) -> (r: u64)
        ensures
            r == self.sent(),
    {
        self.sent
    }

    /// Sends the next chunk of the file.
    pub fn chunk(&mut self, data: Vec<u8>) -> (r: Message)
        requires
            old(self).wf(),
            old(self).sent() + data@.len() <= u64::MAX,
        ensures
            final(self).wf(),
            final(self).data() == old(self).data() + data@,
            final(self).sent() == old(self).sent() + data@.len(),
            r == Message::FileChunk(data),
    {
        self.digest.update(data.as_slice());
        self.sent = self.sent + data.len() as u64;
        Message::FileChunk(data)
    }

    /// The SHA-256 of the bytes sent.
    pub fn hash(&self) -> (r: Vec<u8>)
        ensures
            r@ == spec_sha256(self.data()),
    {
        self.digest.finish()
    }

    /// The answer that ends a download: the count and SHA-256 of the bytes sent.
    pub fn done_message(&self) -> (r: Message)
        ensures
            r matches Message::Response(Response::TransferDone { bytes, hash: Some(h) }) && bytes == self.sent()
                && h@ == spec_sha256(self.data()),
    {
        Message::Response(Response::TransferDone { bytes: self.sent, hash: Some(self.hash()) })
    }
}

} // verus!
