//! secp256k1 key material: which byte strings are secret keys, and the
//! public key and signatures that belong to one.

use vstd::prelude::*;

verus! {

/// The number a byte string spells, most significant byte first.
pub open spec fn be_value(bytes: Seq<u8>) -> nat
    decreases bytes.len(),
{
    if bytes.len() == 0 {
        0
    } else {
        be_value(bytes.drop_last()) * 256 + bytes.last() as nat
    }
}

/// The order of the secp256k1 group.
pub open spec fn group_order() -> nat {
    0xFFFFFFFFFFFFFFFFFFFFFFFFFFFFFFFEBAAEDCE6AF48A03BBFD25E8CD0364141nat
}

/// Whether `bytes` is a secret key: 24 to 32 bytes that spell a number
/// above zero and below the group order.
pub open spec fn valid_secret_key(bytes: Seq<u8>) -> bool {
    &&& 24 <= bytes.len() <= 32
    &&& 0 < be_value(bytes) < group_order()
}

/// The uncompressed SEC1 encoding of the public key of a secret key, or
/// `None` where the bytes are no secret key.
pub uninterp spec fn secp256k1_public_key(secret: Seq<u8>) -> Option<Seq<u8>>;

/// The deterministic ECDSA signature of a digest under a secret key, as the
/// 64 bytes `r || s` and the recovery number, or `None` where there is none.
pub uninterp spec fn ecdsa_recoverable(secret: Seq<u8>, digest: Seq<u8>) -> Option<(Seq<u8>, u8)>;

/// Builds the key with `k256::ecdsa::SigningKey::from_slice` and encodes its
/// verifying key with `to_encoded_point(false)`. A key is accepted exactly
/// when it is 24 to 32 bytes that spell a number above zero and below the
/// group order; the encoded point is then 65 bytes long.
#[verifier::external_body]
pub(crate) fn public_key_of(secret: &[u8]) -> (point: Option<Vec<u8>>)
    ensures
        point is Some <==> valid_secret_key(secret@),
        match point {
            Some(p) => secp256k1_public_key(secret@) == Some(p@) && p@.len() == 65,
            None => secp256k1_public_key(secret@) is None,
        },
{
    let key = k256::ecdsa::SigningKey::from_slice(secret).ok()?;
    Some(key.verifying_key().to_encoded_point(false).as_bytes().to_vec())
}

/// Builds the key with `k256::ecdsa::SigningKey::from_slice` and calls its
/// `sign_prehash_recoverable`, which derives the nonce from key and digest
/// alone. A signature is 64 bytes, its recovery number at most 3.
#[verifier::external_body]
pub(crate) fn sign_prehash(secret: &[u8], digest: &[u8]) -> (res: Option<(Vec<u8>, u8)>)
    ensures
        match res {
            Some((sig, rec)) => {
                &&& ecdsa_recoverable(secret@, digest@) == Some((sig@, rec))
                &&& sig@.len() == 64
                &&& rec <= 3
            },
            None => ecdsa_recoverable(secret@, digest@) is None,
        },
{
    let key = k256::ecdsa::SigningKey::from_slice(secret).ok()?;
    let (sig, rec) = key.sign_prehash_recoverable(digest).ok()?;
    Some((sig.to_bytes().to_vec(), rec.to_byte()))
}

} // verus!
