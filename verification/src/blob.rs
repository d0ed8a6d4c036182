//! Blobs as the network takes them: the wire form of a signed blob and the
//! number of shares it occupies, both computed by the `celestia_types` crate.

use vstd::prelude::*;
use crate::namespace::Namespace;
use crate::signer::Signer;

verus! {

/// The share version of a blob that names its signer.
pub const SHARE_VERSION_SIGNED: u32 = 1;

/// How many bytes of a signed blob fit into its first share: a share less the
/// namespace, the info byte, the sequence length and the signer.
pub const FIRST_SHARE_CONTENT: usize = 458;

/// How many bytes of a blob fit into each share after the first: a share less
/// the namespace and the info byte.
pub const NEXT_SHARE_CONTENT: usize = 482;

/// The longest payload that a blob can carry: its length is written into four
/// bytes of the first share.
pub const MAX_BLOB_LEN: usize = 0xffff_ffff;

/// A blob in the form in which it is handed to the network.
#[derive(Clone, Debug, PartialEq, Eq)]
pub struct WireBlob {
    pub namespace_version: u32,
    pub namespace_id: Vec<u8>,
    pub data: Vec<u8>,
    pub share_version: u32,
    pub signer: Vec<u8>,
}

/// A blob ready for submission, with the number of shares it occupies.
#[derive(Clone, Debug, PartialEq, Eq)]
pub struct EncodedBlob {
    pub wire: WireBlob,
    pub shares: usize,
}

impl WireBlob {
    /// Whether this is the wire form of the payload `data`, placed in `namespace`
    /// and signed by `signer`.
    pub open spec fn carries(self, namespace: Namespace, data: Seq<u8>, signer: Signer) -> bool {
        &&& self.namespace_version == namespace.version()
        &&& self.namespace_id@ == namespace.id_bytes()
        &&& self.data@ == data
        &&& self.share_version == SHARE_VERSION_SIGNED
        &&& self.signer@ == signer.bytes@
    }
}

/// The number of shares that a signed blob of `len` bytes occupies: one, and one
/// more for every `NEXT_SHARE_CONTENT` bytes, or part of them, beyond the first
/// share's room.
pub open spec fn shares_needed(len: nat) -> nat {
    if len < FIRST_SHARE_CONTENT {
        1
    } else {
        (1 + (len - FIRST_SHARE_CONTENT + NEXT_SHARE_CONTENT - 1) / (
        NEXT_SHARE_CONTENT as int)) as nat
    }
}

/// Whether `blob` is the encoding of the payload `data`, placed in `namespace`
/// and signed by `signer`.
pub open spec fn is_encoding_of(
    blob: EncodedBlob,
    namespace: Namespace,
    data: Seq<u8>,
    signer: Signer,
) -> bool {
    &&& blob.wire.carries(namespace, data, signer)
    &&& blob.shares == shares_needed(data.len())
}

/// Builds a signed blob with `Blob::new` of the `celestia_types` crate, asks it
/// for its share count with `Blob::shares_len` and turns it into its wire form
/// with `RawBlob::from`. None of this is proved. The contract claims that the
/// crate refuses exactly the payloads whose length does not fit in four bytes,
/// that the wire form repeats the namespace, the payload and the signer with
/// share version one, and that the share count is `shares_needed` of the length.
#[verifier::external_body]
pub(crate) fn encode_blob(namespace: Namespace, data: &Vec<u8>, signer: Signer) -> (encoded: Result<
    EncodedBlob,
    celestia_types::Error,
>)
    ensures
        encoded is Ok <==> data@.len() <= MAX_BLOB_LEN,
        encoded matches Ok(blob) ==> is_encoding_of(blob, namespace, data@, signer),
{
    let ns = celestia_types::nmt::Namespace::const_v0(namespace.suffix);
    let account = celestia_types::state::AccAddress::from(signer.bytes);
    let blob = celestia_types::Blob::new(ns, data.clone(), Some(account))?;
    let shares = blob.shares_len();
    let raw = celestia_types::blob::RawBlob::from(blob);
    let wire = WireBlob {
        namespace_version: raw.namespace_version,
        namespace_id: raw.namespace_id,
        data: raw.data,
        share_version: raw.share_version,
        signer: raw.signer,
    };
    Ok(EncodedBlob { wire, shares })
}

} // verus!
