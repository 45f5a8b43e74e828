//! Node keys read from bytes through `iroh-base`, each carrying the bytes it
//! was read from.

use vstd::prelude::*;

verus! {

/// `iroh_base::PublicKey` (iroh's `NodeId`): the key that names a node.
#[verifier::external_type_specification]
#[verifier::external_body]
pub struct ExPublicKey(iroh_base::PublicKey);

/// The 32 bytes are the compressed form of an Ed25519 point, which
/// `ed25519_dalek::VerifyingKey::from_bytes` accepts.
pub uninterp spec fn is_node_key(bytes: Seq<u8>) -> bool;

/// A node key together with the bytes it was read from. Only
/// [`public_key_from_bytes`] makes one, so [`NodeKey::key`] is the key that
/// `iroh_base` read from [`NodeKey::bytes`]; the key's own bytes are not
/// visible here, the key type being opaque.
pub struct NodeKey {
    key: iroh_base::PublicKey,
    bytes: Ghost<Seq<u8>>,
}

impl NodeKey {
    /// The 32 bytes that the key was read from, which `as_bytes` gives back.
    pub closed spec fn bytes(&self) -> Seq<u8> {
        self.bytes@
    }

    /// The key read from [`NodeKey::bytes`].
    pub closed spec fn key(&self) -> iroh_base::PublicKey {
        self.key
    }

    /// The key, to dial the node it names.
    pub fn into_key(self) -> (key: iroh_base::PublicKey)
        ensures
            key == self.key(),
    {
        self.key
    }
}

/// `iroh_base::PublicKey::from_bytes` on 32 bytes: a key exactly where the
/// bytes decompress to a curve point, as [`is_node_key`] names it; the key
/// keeps the given bytes (`PublicKey` stores the compressed point it was
/// given, and `as_bytes` returns it).
#[verifier::external_body]
pub(crate) fn public_key_from_bytes(bytes: &[u8]) -> (key: Option<NodeKey>)
    requires
        bytes@.len() == 32,
    ensures
        key is Some <==> is_node_key(bytes@),
        key matches Some(k) ==> k.bytes() == bytes@,
{
    match iroh_base::PublicKey::from_bytes(bytes.try_into().unwrap()) {
        Ok(key) => Some(NodeKey { key, bytes: Ghost(bytes@) }),
        Err(_) => None,
    }
}

} // verus!
