//! A signer that gives the signature of a receipt on its own, as text, and
//! leaves the receipt as it is.

use vstd::prelude::*;
use vstd::slice::slice_subrange;
use vstd::utf8::encode_utf8;

use crate::codec::hex_decode;
use crate::codec::hex_decode_result;
use crate::codec::hex_decoded;
use crate::codec::is_hex;
use crate::codec::keccak256;
use crate::codec::keccak256_digest;
use crate::codec::prefixed_hex;
use crate::codec::to_prefixed_hex;
use crate::error::SigningError;
use crate::error::VerifierError;
use crate::error::VerifierErrorView;
use crate::keys::ecdsa_recoverable;
use crate::keys::public_key_of;
use crate::keys::secp256k1_public_key;
use crate::keys::sign_prehash;
use crate::keys::valid_secret_key;
use crate::receipt_signer::compute_receipt_hash;
use crate::receipt_signer::signature_text;
use crate::receipt_signer::signing_digest;
use crate::text::strip_prefix;
use crate::text::without_prefix;
use crate::types::VerifiedReceipt;
use crate::types::VerifiedReceiptView;

verus! {

/// The bytes of a private key text once one leading `0x` is dropped.
pub open spec fn key_digits_once(private_key_hex: Seq<char>) -> Seq<u8> {
    encode_utf8(without_prefix(private_key_hex, "0x"@))
}

/// The 20 bytes of the address of an encoded public key: the end of the
/// Keccak-256 digest of the point without its tag byte.
pub open spec fn address_bytes(point: Seq<u8>) -> Seq<u8> {
    keccak256_digest(point.subrange(1, 65)).subrange(12, 32)
}

/// The signature text for a receipt under a secret key: that of the
/// receipt's signing digest, or `None` where the curve gives no signature.
pub open spec fn receipt_signature(secret: Seq<u8>, r: VerifiedReceiptView) -> Option<
    Seq<char>,
> {
    match ecdsa_recoverable(secret, signing_digest(r)) {
        Some((sig, rec)) => Some(signature_text(sig, rec)),
        None => None,
    }
}

/// A secp256k1 signing key together with the 20-byte address derived from
/// it.
pub struct VerifierSigner {
    secret: Vec<u8>,
    address: Vec<u8>,
}

impl VerifierSigner {
    /// The key is a valid secret key and the address is the one derived
    /// from it, 20 bytes long.
    #[verifier::type_invariant]
    pub closed spec fn wf(self) -> bool {
        &&& valid_secret_key(self.secret@)
        &&& self.address@ == address_bytes(secp256k1_public_key(self.secret@)->0)
        &&& self.address@.len() == 20
    }

    /// The bytes of the secret key.
    pub closed spec fn secret(self) -> Seq<u8> {
        self.secret@
    }

    /// Makes a signer from a private key in hexadecimal text, with or
    /// without one leading `0x`.
    pub fn new(private_key_hex: &str) -> (res: Result<VerifierSigner, VerifierError>)
        ensures
            match res {
                Ok(signer) => {
                    &&& is_hex(key_digits_once(private_key_hex@))
                    &&& valid_secret_key(hex_decoded(key_digits_once(private_key_hex@)))
                    &&& signer.wf()
                    &&& signer.secret() == hex_decoded(key_digits_once(private_key_hex@))
                },
                Err(e) => match e@ {
                    VerifierErrorView::Signing(SigningError::InvalidHex(h)) => hex_decode_result(
                        key_digits_once(private_key_hex@),
                        Err(h),
                    ),
                    VerifierErrorView::Signing(SigningError::InvalidKey) => {
                        &&& is_hex(key_digits_once(private_key_hex@))
                        &&& !valid_secret_key(hex_decoded(key_digits_once(private_key_hex@)))
                    },
                    _ => false,
                },
            },
    {
        let digits = strip_prefix(private_key_hex, "0x");
        let secret = match hex_decode(digits) {
            Ok(bytes) => bytes,
            Err(h) => {
                return Err(VerifierError::Signing(SigningError::InvalidHex(h)));
            },
        };
        let point = match public_key_of(secret.as_slice()) {
            Some(p) => p,
            None => {
                return Err(VerifierError::Signing(SigningError::InvalidKey));
            },
        };
        let digest = keccak256(slice_subrange(point.as_slice(), 1, 65));
        let address = vstd::slice::slice_to_vec(slice_subrange(digest.as_slice(), 12, 32));
        Ok(VerifierSigner { secret, address })
    }

    /// The signer's address as `0x` and 40 hexadecimal digits.
    pub fn address(&self) -> (text: String)
        ensures
            text@ == prefixed_hex(address_bytes(secp256k1_public_key(self.secret())->0)),
            text@.len() == 42,
    {
        proof {
            use_type_invariant(self);
        }
        to_prefixed_hex(self.address.as_slice())
    }

    /// Signs a receipt and gives the signature as `0x` and 130 hexadecimal
    /// digits: `r`, `s`, and 27 plus the recovery number.
    pub fn sign_receipt(&self, receipt: &VerifiedReceipt) -> (res: Result<String, VerifierError>)
        ensures
            match res {
                Ok(signature) => {
                    &&& receipt_signature(self.secret(), receipt@) == Some(signature@)
                    &&& signature@.len() == 132
                },
                Err(e) => {
                    &&& receipt_signature(self.secret(), receipt@) is None
                    &&& e@ == VerifierErrorView::Signing(SigningError::NoSignature)
                },
            },
    {
        let digest = compute_receipt_hash(receipt);
        match sign_prehash(self.secret.as_slice(), digest.as_slice()) {
            Some((sig, rec)) => {
                let mut bytes = sig;
                bytes.push(27 + rec);
                Ok(to_prefixed_hex(bytes.as_slice()))
            },
            None => Err(VerifierError::Signing(SigningError::NoSignature)),
        }
    }
}

} // verus!
