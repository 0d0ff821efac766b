//! Trusted bindings to the audited cryptographic primitives: the 512-bit hash
//! and the Ed25519 signature verification that the authorization protocol
//! relies on. Nothing else in the crate is taken on trust.
use vstd::prelude::*;
use sha2::Digest;

verus! {

/// The SHA-512 digest of a byte string. The digest itself takes pages to
/// state, so it only carries a name here; the callers' contracts speak of
/// that name.
pub uninterp spec fn sha512_of(data: Seq<u8>) -> Seq<u8>;

/// Whether `sig` is a valid Ed25519 signature over `msg` under the 32-byte
/// public key `key`.
pub uninterp spec fn ed25519_valid(key: Seq<u8>, msg: Seq<u8>, sig: Seq<u8>) -> bool;

/// Relies on sha2::Sha512 (through the Digest trait): the digest is a
/// function of the input bytes alone and is always 64 bytes long.
#[verifier::external_body]
pub(crate) fn sha512(data: &Vec<u8>) -> (r: Vec<u8>)
    ensures
        r@ == sha512_of(data@),
        r@.len() == 64,
{
    sha2::Sha512::digest(data.as_slice()).to_vec()
}

/// Relies on ed25519_compact::PublicKey::verify (PublicKey::new and
/// Signature::new only wrap the raw bytes): verification is deterministic in
/// the key, the message and the signature, and returns Ok exactly when the
/// signature is valid.
#[verifier::external_body]
pub(crate) fn ed25519_verify(key: &[u8; 32], msg: &Vec<u8>, sig: &[u8; 64]) -> (r: bool)
    ensures
        r == ed25519_valid(key@, msg@, sig@),
{
    let k = ed25519_compact::PublicKey::new(*key);
    let s = ed25519_compact::Signature::new(*sig);
    k.verify(msg.as_slice(), &s).is_ok()
}

} // verus!
