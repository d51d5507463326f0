//! Signs verified receipts: a canonical byte encoding of the receipt is
//! hashed with Keccak-256 and the digest signed with a secp256k1 key.

use vstd::bytes::spec_u64_to_le_bytes;
use vstd::bytes::u64_to_le_bytes;
use vstd::prelude::*;
use vstd::slice::slice_subrange;
use vstd::utf8::encode_utf8;

use crate::codec::hex_decode;
use crate::codec::hex_decode_result;
use crate::codec::hex_decoded;
use crate::codec::is_hex;
use crate::codec::keccak256;
use crate::codec::keccak256_digest;
use crate::codec::prefixed_hex;
use crate::codec::to_prefixed_hex;
use crate::error::SigningError;
use crate::error::VerifierError;
use crate::error::VerifierErrorView;
use crate::keys::ecdsa_recoverable;
use crate::keys::public_key_of;
use crate::keys::secp256k1_public_key;
use crate::keys::sign_prehash;
use crate::keys::valid_secret_key;
use crate::text::trim_start_matches;
use crate::text::without_leading;
use crate::types::VerifiedReceipt;
use crate::types::VerifiedReceiptView;

verus! {

/// The bytes of a private key text once every leading `0x` is dropped.
pub open spec fn key_digits(private_key_hex: Seq<char>) -> Seq<u8> {
    encode_utf8(without_leading(private_key_hex, "0x"@))
}

/// The address of an encoded public key: `0x` and the hexadecimal digits of
/// the last 20 bytes of the Keccak-256 digest of the point without its tag
/// byte.
pub open spec fn address_of_point(point: Seq<u8>) -> Seq<char> {
    prefixed_hex(keccak256_digest(point.subrange(1, 65)).subrange(12, 32))
}

/// The address that belongs to a secret key.
pub open spec fn derived_address(secret: Seq<u8>) -> Seq<char> {
    address_of_point(secp256k1_public_key(secret)->0)
}

/// The bytes that are hashed for signing: device, proof type, receipt hash,
/// image identity and journal hash as text, then the epoch and input
/// indices as eight bytes each, least significant first.
pub open spec fn canonical_bytes(r: VerifiedReceiptView) -> Seq<u8> {
    encode_utf8(r.device_id) + encode_utf8(r.proof_type) + encode_utf8(r.receipt_hash)
        + encode_utf8(r.image_id) + encode_utf8(r.journal_hash) + spec_u64_to_le_bytes(
        r.epoch_index,
    ) + spec_u64_to_le_bytes(r.input_index)
}

/// The digest that is signed for a receipt.
pub open spec fn signing_digest(r: VerifiedReceiptView) -> Seq<u8> {
    keccak256_digest(canonical_bytes(r))
}

/// The text of a signature: `0x` and the digits of `r || s || v`, where `v`
/// is 27 plus the recovery number.
pub open spec fn signature_text(sig: Seq<u8>, rec: u8) -> Seq<char> {
    prefixed_hex(sig.push((27 + rec) as u8))
}

/// `r` with `address` as its verifier address, whatever it named before.
pub open spec fn stamped(r: VerifiedReceiptView, address: Seq<char>) -> VerifiedReceiptView {
    VerifiedReceiptView { verifier_address: Some(address), ..r }
}

/// The signed form of `r` under `secret`, or `None` where the curve gives
/// no signature.
pub open spec fn signed_receipt(secret: Seq<u8>, r: VerifiedReceiptView) -> Option<
    VerifiedReceiptView,
> {
    let body = stamped(r, derived_address(secret));
    match ecdsa_recoverable(secret, signing_digest(body)) {
        Some((sig, rec)) => Some(
            VerifiedReceiptView { signature: signature_text(sig, rec), ..body },
        ),
        None => None,
    }
}

/// A secp256k1 signing key together with the address derived from it.
pub struct ReceiptSigner {
    secret: Vec<u8>,
    address: String,
}

impl ReceiptSigner {
    /// The key is a valid secret key and the address is the one derived
    /// from it, 42 characters long.
    #[verifier::type_invariant]
    pub closed spec fn wf(self) -> bool {
        &&& valid_secret_key(self.secret@)
        &&& self.address@ == derived_address(self.secret@)
        &&& self.address@.len() == 42
    }

    /// The bytes of the secret key.
    pub closed spec fn secret(self) -> Seq<u8> {
        self.secret@
    }

    /// The address that the signer carries.
    pub closed spec fn address_text(self) -> Seq<char> {
        self.address@
    }

    /// Makes a signer from a private key in hexadecimal text, with or
    /// without a leading `0x`.
    pub fn new(private_key_hex: &str) -> (res: Result<ReceiptSigner, VerifierError>)
        ensures
            match res {
                Ok(signer) => {
                    &&& is_hex(key_digits(private_key_hex@))
                    &&& valid_secret_key(hex_decoded(key_digits(private_key_hex@)))
                    &&& signer.wf()
                    &&& signer.secret() == hex_decoded(key_digits(private_key_hex@))
                    &&& signer.address_text() == derived_address(signer.secret())
                    &&& signer.address_text().len() == 42
                },
                Err(e) => match e@ {
                    VerifierErrorView::Signing(SigningError::InvalidHex(h)) => hex_decode_result(
                        key_digits(private_key_hex@),
                        Err(h),
                    ),
                    VerifierErrorView::Signing(SigningError::InvalidKey) => {
                        &&& is_hex(key_digits(private_key_hex@))
                        &&& !valid_secret_key(hex_decoded(key_digits(private_key_hex@)))
                    },
                    _ => false,
                },
            },
    {
        let digits = trim_start_matches(private_key_hex, "0x");
        let secret = match hex_decode(digits) {
            Ok(bytes) => bytes,
            Err(h) => {
                return Err(VerifierError::Signing(SigningError::InvalidHex(h)));
            },
        };
        let point = match public_key_of(secret.as_slice()) {
            Some(p) => p,
            None => {
                return Err(VerifierError::Signing(SigningError::InvalidKey));
            },
        };
        let coordinates = slice_subrange(point.as_slice(), 1, 65);
        let digest = keccak256(coordinates);
        let address = to_prefixed_hex(slice_subrange(digest.as_slice(), 12, 32));
        Ok(ReceiptSigner { secret, address })
    }

    /// The address derived from the signer's public key.
    pub fn get_address(&self) -> (address: String)
        ensures
            address@ == self.address_text(),
            address@ == derived_address(self.secret()),
            address@.len() == 42,
    {
        proof {
            use_type_invariant(self);
        }
        self.address.clone()
    }

    /// Signs a receipt. The signer's address and the signature replace
    /// whatever stood in `verifier_address` and `signature`; every other
    /// field is kept.
    pub fn sign_receipt(&self, receipt: VerifiedReceipt) -> (res: Result<
        VerifiedReceipt,
        VerifierError,
    >)
        ensures
            match res {
                Ok(signed) => {
                    &&& signed_receipt(self.secret(), receipt@) == Some(signed@)
                    &&& signed@.verifier_address == Some(self.address_text())
                    &&& signed.signature@.len() == 132
                },
                Err(e) => {
                    &&& signed_receipt(self.secret(), receipt@) is None
                    &&& e@ == VerifierErrorView::Signing(SigningError::NoSignature)
                },
            },
    {
        proof {
            use_type_invariant(self);
        }
        let mut receipt = receipt;
        receipt.verifier_address = Some(self.address.clone());
        let digest = compute_receipt_hash(&receipt);
        match sign_prehash(self.secret.as_slice(), digest.as_slice()) {
            Some((sig, rec)) => {
                let mut bytes = sig;
                bytes.push(27 + rec);
                receipt.signature = to_prefixed_hex(bytes.as_slice());
                Ok(receipt)
            },
            None => Err(VerifierError::Signing(SigningError::NoSignature)),
        }
    }
}

/// The Keccak-256 digest of the canonical bytes of a receipt. The
/// signature, the timestamp and the verifier address are not part of them.
pub fn compute_receipt_hash(receipt: &VerifiedReceipt) -> (digest: Vec<u8>)
    ensures
        digest@ == signing_digest(receipt@),
        digest@.len() == 32,
{
    let mut bytes: Vec<u8> = Vec::new();
    bytes.extend_from_slice(receipt.device_id.as_str().as_bytes());
    bytes.extend_from_slice(receipt.proof_type.as_str().as_bytes());
    bytes.extend_from_slice(receipt.receipt_hash.as_str().as_bytes());
    bytes.extend_from_slice(receipt.image_id.as_str().as_bytes());
    bytes.extend_from_slice(receipt.journal_hash.as_str().as_bytes());
    let epoch = u64_to_le_bytes(receipt.epoch_index);
    bytes.extend_from_slice(epoch.as_slice());
    let input = u64_to_le_bytes(receipt.input_index);
    bytes.extend_from_slice(input.as_slice());
    assert(bytes@ =~= canonical_bytes(receipt@));
    keccak256(bytes.as_slice())
}

/// Signing is deterministic: whatever two signings of one receipt under
/// one key give, they give the same, signature included.
pub proof fn lemma_signing_is_deterministic(
    secret: Seq<u8>,
    receipt: VerifiedReceiptView,
    first: VerifiedReceiptView,
    second: VerifiedReceiptView,
)
    requires
        signed_receipt(secret, receipt) == Some(first),
        signed_receipt(secret, receipt) == Some(second),
    ensures
        first.signature == second.signature,
        first == second,
{
}

/// The address is a function of the key: two signers that hold the same
/// secret key carry the same address.
pub proof fn lemma_address_is_stable(a: ReceiptSigner, b: ReceiptSigner)
    requires
        a.wf(),
        b.wf(),
        a.secret() == b.secret(),
    ensures
        a.address_text() == b.address_text(),
        a.address_text() == derived_address(a.secret()),
        a.address_text().len() == 42,
{
}

/// A signed receipt differs from the receipt that was signed in its
/// signature and its verifier address only, and the address is the one
/// that belongs to the key.
pub proof fn lemma_signing_keeps_the_receipt(
    secret: Seq<u8>,
    receipt: VerifiedReceiptView,
    signed: VerifiedReceiptView,
)
    requires
        signed_receipt(secret, receipt) == Some(signed),
    ensures
        signed.device_id == receipt.device_id,
        signed.proof_type == receipt.proof_type,
        signed.receipt_hash == receipt.receipt_hash,
        signed.image_id == receipt.image_id,
        signed.journal_hash == receipt.journal_hash,
        signed.epoch_index == receipt.epoch_index,
        signed.input_index == receipt.input_index,
        signed.timestamp == receipt.timestamp,
        signed.verifier_address == Some(derived_address(secret)),
{
}

/// What a signature covers: two receipts that agree in device, proof type,
/// the three hashes and the two indices have the same signing digest,
/// whatever their timestamps, addresses and signatures are.
pub proof fn lemma_digest_covers_canonical_fields(a: VerifiedReceiptView, b: VerifiedReceiptView)
    requires
        a.device_id == b.device_id,
        a.proof_type == b.proof_type,
        a.receipt_hash == b.receipt_hash,
        a.image_id == b.image_id,
        a.journal_hash == b.journal_hash,
        a.epoch_index == b.epoch_index,
        a.input_index == b.input_index,
    ensures
        signing_digest(a) == signing_digest(b),
{
}

} // verus!
