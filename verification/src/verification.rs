//! Verification that reports its verdict as a record: the hashes, the
//! program identity and the exit code together with a validity flag and,
//! where the receipt is not valid, the reason.

use vstd::prelude::*;

use crate::codec::keccak256;
use crate::codec::keccak256_digest;
use crate::codec::prefixed_hex;
use crate::codec::to_prefixed_hex;
use crate::error::VerificationFailure;
use crate::error::VerificationFailureView;
use crate::error::VerifierError;
use crate::error::VerifierErrorView;
use crate::proof_verifier::admits;
use crate::receipt::claim_of;
use crate::receipt::decoding_view;
use crate::receipt::DecodedReceipt;
use crate::receipt::DecodedReceiptView;
use crate::receipt::ReceiptClaim;
use crate::receipt::ReceiptClaimView;
use crate::text::contains_text;
use crate::text::decimal;
use crate::text::decimal_digits;
use crate::text::join;
use crate::text::joined;
use crate::text::same_text;
use crate::text::texts;
use crate::types::opt_text;

verus! {

/// What verification found of one receipt.
#[derive(Debug, Clone, PartialEq, Eq)]
pub struct VerificationResult {
    pub is_valid: bool,
    /// Keccak-256 of the raw receipt, as `0x` and hexadecimal digits.
    pub receipt_hash: String,
    /// The identity of the guest program, as `0x` and hexadecimal digits.
    pub image_id: String,
    /// Keccak-256 of the journal, as `0x` and hexadecimal digits.
    pub journal_hash: String,
    /// The guest's exit code; `u32::MAX` where the guest never exited.
    pub exit_code: u32,
    /// Why the receipt is not valid; `None` for a valid one.
    pub error_message: Option<String>,
}

pub struct VerificationResultView {
    pub is_valid: bool,
    pub receipt_hash: Seq<char>,
    pub image_id: Seq<char>,
    pub journal_hash: Seq<char>,
    pub exit_code: u32,
    pub error_message: Option<Seq<char>>,
}

impl View for VerificationResult {
    type V = VerificationResultView;

    open spec fn view(&self) -> VerificationResultView {
        VerificationResultView {
            is_valid: self.is_valid,
            receipt_hash: self.receipt_hash@,
            image_id: self.image_id@,
            journal_hash: self.journal_hash@,
            exit_code: self.exit_code,
            error_message: opt_text(self.error_message),
        }
    }
}

/// Why a claim is not valid before the proof system is asked, if it is
/// not: its identity differs from the expected one, or the allow-list does
/// not admit it; the message then names the list and the identity.
pub open spec fn identity_objection(
    allowed: Seq<Seq<char>>,
    expected: Seq<char>,
    image_id: Seq<char>,
) -> Option<Seq<char>> {
    if image_id != expected {
        Some("Image ID mismatch: expected "@ + expected + ", got "@ + image_id)
    } else if !admits(allowed, image_id) {
        Some("Invalid image ID: expected "@ + joined(allowed, ", "@) + ", got "@ + image_id)
    } else {
        None
    }
}

/// Why a claim is not valid, if it is not: an objection to its identity
/// first, then the proof system's rejection, then an exit code other than
/// success.
pub open spec fn objection(
    allowed: Seq<Seq<char>>,
    expected: Seq<char>,
    claim: ReceiptClaimView,
    rejection: Option<Seq<char>>,
) -> Option<Seq<char>> {
    match identity_objection(allowed, expected, claim.image_id) {
        Some(m) => Some(m),
        None => match rejection {
            Some(reason) => Some("Receipt verification failed: "@ + reason),
            None => if claim.exit.succeeded() {
                None
            } else {
                Some("Guest program exited with code "@ + decimal_digits(claim.exit.code() as nat))
            },
        },
    }
}

/// The record for the raw receipt `bytes` that decoded to `decoded`, given
/// what the proof system says of it.
pub open spec fn verification_record(
    allowed: Seq<Seq<char>>,
    expected: Seq<char>,
    bytes: Seq<u8>,
    decoded: DecodedReceiptView,
    rejection: Option<Seq<char>>,
) -> VerificationResultView {
    let claim = claim_of(decoded);
    let message = objection(allowed, expected, claim, rejection);
    VerificationResultView {
        is_valid: message is None,
        receipt_hash: prefixed_hex(keccak256_digest(bytes)),
        image_id: claim.image_id,
        journal_hash: prefixed_hex(keccak256_digest(decoded.journal)),
        exit_code: decoded.exit.code(),
        error_message: message,
    }
}

/// Checks receipts against an expected identity and an allow-list.
pub struct ProofVerifier {
    pub allowed_image_ids: Vec<String>,
}

fn concat3(a: &str, b: &str, c: &str) -> (t: String)
    ensures
        t@ == a@ + b@ + c@,
{
    let mut t = String::from_str(a);
    t.append(b);
    t.append(c);
    t
}

impl ProofVerifier {
    /// The allow-list as texts; empty means that every identity is admitted.
    pub open spec fn allowed(&self) -> Seq<Seq<char>> {
        texts(self.allowed_image_ids@)
    }

    /// Makes a verifier with the given allow-list.
    pub fn new(allowed_image_ids: Vec<String>) -> (verifier: ProofVerifier)
        ensures
            verifier.allowed_image_ids == allowed_image_ids,
    {
        ProofVerifier { allowed_image_ids }
    }

    /// Holds the identity of a claim against the expected one and the
    /// allow-list, and says what is wrong with it, if anything.
    pub fn check_identity(&self, expected_image_id: &str, image_id: &str) -> (message: Option<
        String,
    >)
        ensures
            opt_text(message) == identity_objection(self.allowed(), expected_image_id@, image_id@),
    {
        if !same_text(image_id, expected_image_id) {
            let mut m = concat3("Image ID mismatch: expected ", expected_image_id, ", got ");
            m.append(image_id);
            assert(m@ == "Image ID mismatch: expected "@ + expected_image_id@ + ", got "@
                + image_id@);
            Some(m)
        } else if self.allowed_image_ids.len() > 0 && !contains_text(
            &self.allowed_image_ids,
            image_id,
        ) {
            let mut m = concat3(
                "Invalid image ID: expected ",
                join(&self.allowed_image_ids, ", ").as_str(),
                ", got ",
            );
            m.append(image_id);
            Some(m)
        } else {
            None
        }
    }

    /// Reports on a receipt that is expected to have a given identity,
    /// given its raw bytes, what decoding them gave, and what the proof
    /// system said of them (`None` where it accepted the receipt). Only a
    /// receipt that did not decode is an error; every other finding is
    /// reported in the record, both hashes with it. The proof system's word
    /// counts only for an identity that passes `check_identity`, which a
    /// caller may put first.
    pub fn verify_receipt(
        &self,
        receipt_bytes: &[u8],
        expected_image_id: &str,
        decoded: Result<DecodedReceipt, String>,
        rejection: Option<String>,
    ) -> (res: Result<VerificationResult, VerifierError>)
        ensures
            match res {
                Ok(record) => {
                    &&& decoding_view(decoded) matches Ok(d)
                    &&& record@ == verification_record(
                        self.allowed(),
                        expected_image_id@,
                        receipt_bytes@,
                        d,
                        opt_text(rejection),
                    )
                    &&& record.receipt_hash@.len() == 66
                    &&& record.journal_hash@.len() == 66
                },
                Err(e) => {
                    &&& decoding_view(decoded) matches Err(detail)
                    &&& e@ == VerifierErrorView::ProofVerification(
                        VerificationFailureView::DeserializationFailed(detail),
                    )
                },
            },
    {
        let receipt_hash = to_prefixed_hex(keccak256(receipt_bytes).as_slice());
        let decoded = match decoded {
            Ok(d) => d,
            Err(detail) => {
                return Err(
                    VerifierError::ProofVerification(
                        VerificationFailure::DeserializationFailed(detail),
                    ),
                );
            },
        };
        let journal_hash = to_prefixed_hex(keccak256(decoded.journal.as_slice()).as_slice());
        let claim = ReceiptClaim::from_decoded(decoded);
        let exit_code = claim.exit.exit_code();
        let error_message = match self.check_identity(expected_image_id, claim.image_id.as_str()) {
            Some(m) => Some(m),
            None => match rejection {
                Some(reason) => {
                    let mut m = String::from_str("Receipt verification failed: ");
                    m.append(reason.as_str());
                    Some(m)
                },
                None => if claim.exit.is_success() {
                    None
                } else {
                    let mut m = String::from_str("Guest program exited with code ");
                    m.append(decimal(exit_code as u64).as_str());
                    Some(m)
                },
            },
        };
        Ok(
            VerificationResult {
                is_valid: error_message.is_none(),
                receipt_hash,
                image_id: claim.image_id,
                journal_hash,
                exit_code,
                error_message,
            },
        )
    }
}

/// A receipt whose identity a non-empty allow-list does not hold is never
/// valid, whatever the proof system says of it.
pub proof fn lemma_allow_list_gates_validity(
    allowed: Seq<Seq<char>>,
    expected: Seq<char>,
    bytes: Seq<u8>,
    decoded: DecodedReceiptView,
    rejection: Option<Seq<char>>,
)
    requires
        allowed.len() > 0,
        !allowed.contains(claim_of(decoded).image_id),
    ensures
        !verification_record(allowed, expected, bytes, decoded, rejection).is_valid,
        verification_record(allowed, expected, bytes, decoded, rejection).error_message
            == objection(allowed, expected, claim_of(decoded), None),
{
}

} // verus!
