//! The proof verifier: an allow-list of program identities, the structural
//! expectations of each proof type, and the word of the proof system.

use vstd::prelude::*;
use vstd::slice::slice_to_vec;

use crate::codec::keccak256;
use crate::codec::keccak256_digest;
use crate::error::VerificationFailure;
use crate::error::VerificationFailureView;
use crate::error::VerifierError;
use crate::error::VerifierErrorView;
use crate::receipt::claim_of;
use crate::receipt::decoding_view;
use crate::receipt::DecodedReceipt;
use crate::receipt::DecodedReceiptView;
use crate::receipt::ReceiptClaim;
use crate::receipt::ReceiptClaimView;
use crate::text::contains_text;
use crate::text::join;
use crate::text::joined;
use crate::text::same_text;
use crate::text::texts;
use crate::types::opt_text;

verus! {

/// The allow-list with `id` added at its end, unless it is a member already.
pub open spec fn with_image(allowed: Seq<Seq<char>>, id: Seq<char>) -> Seq<Seq<char>> {
    if allowed.contains(id) {
        allowed
    } else {
        allowed.push(id)
    }
}

/// The allow-list without any entry equal to `id`, the others in order.
pub open spec fn without_image(allowed: Seq<Seq<char>>, id: Seq<char>) -> Seq<Seq<char>> {
    allowed.filter(|x: Seq<char>| x != id)
}

/// Whether a proof type asks for a journal that is not empty; `None` for a
/// tag that is not known.
pub open spec fn journal_required(proof_type: Seq<char>) -> Option<bool> {
    if proof_type == "iot_validation"@ {
        Some(true)
    } else if proof_type == "iot_privacy"@ {
        Some(false)
    } else if proof_type == "iot_compute"@ {
        Some(true)
    } else {
        None
    }
}

/// Whether the allow-list admits an identity: an empty list admits all.
pub open spec fn admits(allowed: Seq<Seq<char>>, image_id: Seq<char>) -> bool {
    allowed.len() == 0 || allowed.contains(image_id)
}

/// Why a claim is refused before any cryptographic check, if it is: first
/// the allow-list, then the proof type's expectation of the journal.
pub open spec fn claim_refusal(
    allowed: Seq<Seq<char>>,
    claim: ReceiptClaimView,
    proof_type: Seq<char>,
) -> Option<VerifierErrorView> {
    if !admits(allowed, claim.image_id) {
        Some(
            VerifierErrorView::InvalidImageId {
                expected: joined(allowed, ", "@),
                actual: claim.image_id,
            },
        )
    } else {
        match journal_required(proof_type) {
            None => Some(
                VerifierErrorView::ProofVerification(
                    VerificationFailureView::UnknownProofType(proof_type),
                ),
            ),
            Some(required) => if required && claim.journal.len() == 0 {
                Some(VerifierErrorView::ProofVerification(VerificationFailureView::EmptyJournal))
            } else {
                None
            },
        }
    }
}

/// Why a receipt is refused, if it is, given what decoding it gave and what
/// the proof system says of it: a receipt that does not decode is refused
/// for that; then the claim is held against the policy; the proof system's
/// verdict counts last.
pub open spec fn proof_refusal(
    allowed: Seq<Seq<char>>,
    decoded: Result<DecodedReceiptView, Seq<char>>,
    proof_type: Seq<char>,
    rejection: Option<Seq<char>>,
) -> Option<VerifierErrorView> {
    match decoded {
        Err(detail) => Some(
            VerifierErrorView::ProofVerification(
                VerificationFailureView::DeserializationFailed(detail),
            ),
        ),
        Ok(d) => match claim_refusal(allowed, claim_of(d), proof_type) {
            Some(e) => Some(e),
            None => match rejection {
                Some(reason) => Some(
                    VerifierErrorView::ProofVerification(
                        VerificationFailureView::CryptographicVerificationFailed(reason),
                    ),
                ),
                None => None,
            },
        },
    }
}

/// Checks receipts against an allow-list of program identities.
pub struct ProofVerifier {
    pub allowed_image_ids: Vec<String>,
}

/// A receipt that passed verification: its raw bytes and its claim.
pub struct VerifiedProof {
    receipt: Vec<u8>,
    claim: ReceiptClaim,
}

impl VerifiedProof {
    /// The raw bytes of the receipt.
    pub closed spec fn receipt_bytes(&self) -> Seq<u8> {
        self.receipt@
    }

    /// The claim of the receipt.
    pub closed spec fn claim(&self) -> ReceiptClaimView {
        self.claim@
    }

    /// The Keccak-256 digest of the journal.
    pub fn journal_hash(&self) -> (digest: Vec<u8>)
        ensures
            digest@ == keccak256_digest(self.claim().journal),
            digest@.len() == 32,
    {
        keccak256(self.claim.journal.as_slice())
    }

    /// The Keccak-256 digest of the raw receipt.
    pub fn receipt_hash(&self) -> (digest: Vec<u8>)
        ensures
            digest@ == keccak256_digest(self.receipt_bytes()),
            digest@.len() == 32,
    {
        keccak256(self.receipt.as_slice())
    }

    /// The identity of the guest program, as hexadecimal text.
    pub fn image_id(&self) -> (id: String)
        ensures
            id@ == self.claim().image_id,
    {
        self.claim.image_id.clone()
    }
}

impl ProofVerifier {
    /// The allow-list as texts; empty means that every identity is admitted.
    pub open spec fn allowed(&self) -> Seq<Seq<char>> {
        texts(self.allowed_image_ids@)
    }

    /// Makes a verifier with the given allow-list.
    pub fn new(allowed_image_ids: Vec<String>) -> (verifier: ProofVerifier)
        ensures
            verifier.allowed_image_ids == allowed_image_ids,
    {
        ProofVerifier { allowed_image_ids }
    }

    /// Holds a claim against the policy: the allow-list first, then what the
    /// proof type expects of the journal.
    pub fn check_claim(&self, claim: &ReceiptClaim, proof_type: &str) -> (res: Result<
        (),
        VerifierError,
    >)
        ensures
            match res {
                Ok(()) => claim_refusal(self.allowed(), claim@, proof_type@) is None,
                Err(e) => claim_refusal(self.allowed(), claim@, proof_type@) == Some(e@),
            },
    {
        if self.allowed_image_ids.len() > 0 && !contains_text(
            &self.allowed_image_ids,
            claim.image_id.as_str(),
        ) {
            return Err(
                VerifierError::InvalidImageId {
                    expected: join(&self.allowed_image_ids, ", "),
                    actual: claim.image_id.clone(),
                },
            );
        }
        let required = if same_text(proof_type, "iot_validation") {
            true
        } else if same_text(proof_type, "iot_privacy") {
            false
        } else if same_text(proof_type, "iot_compute") {
            true
        } else {
            return Err(
                VerifierError::ProofVerification(
                    VerificationFailure::UnknownProofType(String::from_str(proof_type)),
                ),
            );
        };
        if required && claim.journal.len() == 0 {
            return Err(VerifierError::ProofVerification(VerificationFailure::EmptyJournal));
        }
        Ok(())
    }

    /// Verifies a receipt for a proof type, given its raw bytes, what
    /// decoding them gave, and what the proof system said of them (`None`
    /// where it accepted the receipt). A receipt that did not decode is
    /// refused for that; then its claim is held against the policy; the
    /// proof system's word counts last, so that a caller may put `check_claim`
    /// first and ask the proof system only about a claim that passes.
    pub fn verify_proof(
        &self,
        receipt_bytes: &[u8],
        decoded: Result<DecodedReceipt, String>,
        proof_type: &str,
        rejection: Option<String>,
    ) -> (res: Result<VerifiedProof, VerifierError>)
        ensures
            match res {
                Ok(proof) => {
                    &&& proof_refusal(
                        self.allowed(),
                        decoding_view(decoded),
                        proof_type@,
                        opt_text(rejection),
                    ) is None
                    &&& proof.receipt_bytes() == receipt_bytes@
                    &&& proof.claim() == claim_of(decoding_view(decoded)->Ok_0)
                },
                Err(e) => proof_refusal(
                    self.allowed(),
                    decoding_view(decoded),
                    proof_type@,
                    opt_text(rejection),
                ) == Some(e@),
            },
    {
        let decoded = match decoded {
            Ok(d) => d,
            Err(detail) => {
                return Err(
                    VerifierError::ProofVerification(
                        VerificationFailure::DeserializationFailed(detail),
                    ),
                );
            },
        };
        let claim = ReceiptClaim::from_decoded(decoded);
        match self.check_claim(&claim, proof_type) {
            Ok(()) => {},
            Err(e) => {
                return Err(e);
            },
        }
        match rejection {
            Some(reason) => Err(
                VerifierError::ProofVerification(
                    VerificationFailure::CryptographicVerificationFailed(reason),
                ),
            ),
            None => Ok(VerifiedProof { receipt: slice_to_vec(receipt_bytes), claim }),
        }
    }

    /// Adds an identity to the allow-list; one that is there already is not
    /// added again.
    pub fn add_allowed_image(&mut self, image_id: String)
        ensures
            final(self).allowed() == with_image(old(self).allowed(), image_id@),
    {
        if !contains_text(&self.allowed_image_ids, image_id.as_str()) {
            self.allowed_image_ids.push(image_id);
            assert(texts(self.allowed_image_ids@) =~= texts(old(self).allowed_image_ids@).push(
                image_id@,
            ));
        }
    }

    /// Removes an identity from the allow-list, wherever it stands; the
    /// others keep their order.
    pub fn remove_allowed_image(&mut self, image_id: &str)
        ensures
            final(self).allowed() == without_image(old(self).allowed(), image_id@),
    {
        let mut kept: Vec<String> = Vec::new();
        let mut i: usize = 0;
        let ghost before = texts(self.allowed_image_ids@);
        proof {
            reveal(Seq::filter);
            assert(before.take(0) =~= Seq::<Seq<char>>::empty());
        }
        while i < self.allowed_image_ids.len()
            invariant
                i <= self.allowed_image_ids.len(),
                before == texts(self.allowed_image_ids@),
                texts(kept@) == without_image(before.take(i as int), image_id@),
            decreases self.allowed_image_ids.len() - i,
        {
            proof {
                reveal(Seq::filter);
                assert(before.take(i + 1).drop_last() =~= before.take(i as int));
            }
            if !same_text(self.allowed_image_ids[i].as_str(), image_id) {
                let ghost prior = texts(kept@);
                kept.push(self.allowed_image_ids[i].clone());
                assert(texts(kept@) =~= prior.push(before[i as int]));
            }
            i += 1;
        }
        assert(before.take(before.len() as int) =~= before);
        self.allowed_image_ids = kept;
    }
}

/// Adding an identity twice is the same as adding it once.
pub proof fn lemma_add_is_idempotent(allowed: Seq<Seq<char>>, id: Seq<char>)
    ensures
        with_image(with_image(allowed, id), id) == with_image(allowed, id),
{
    if !allowed.contains(id) {
        assert(allowed.push(id)[allowed.len() as int] == id);
    }
}

/// Removing an identity that is no member changes nothing.
pub proof fn lemma_remove_of_non_member(allowed: Seq<Seq<char>>, id: Seq<char>)
    requires
        !allowed.contains(id),
    ensures
        without_image(allowed, id) == allowed,
    decreases allowed.len(),
{
    let keep = |x: Seq<char>| x != id;
    reveal(Seq::filter);
    if allowed.len() > 0 {
        let head = allowed.drop_last();
        assert forall|x: Seq<char>| head.contains(x) implies allowed.contains(x) by {
            let j = choose|j: int| 0 <= j < head.len() && head[j] == x;
            assert(allowed[j] == x);
        }
        lemma_remove_of_non_member(head, id);
        assert(allowed.contains(allowed.last()));
        assert(head.push(allowed.last()) =~= allowed);
    }
}

/// After an identity is removed it is no member, so removing is idempotent.
pub proof fn lemma_removed_is_absent(allowed: Seq<Seq<char>>, id: Seq<char>)
    ensures
        !without_image(allowed, id).contains(id),
{
    let keep = |x: Seq<char>| x != id;
    let rest = allowed.filter(keep);
    if rest.contains(id) {
        let i = choose|i: int| 0 <= i < rest.len() && rest[i] == id;
        allowed.lemma_filter_pred(keep, i);
    }
}

/// For an allow-list that is not empty, a receipt whose identity is no
/// member is refused for its identity, whatever the proof type is and
/// whatever the proof system says of the receipt.
pub proof fn lemma_allow_list_gates(
    allowed: Seq<Seq<char>>,
    decoded: DecodedReceiptView,
    proof_type: Seq<char>,
    rejection: Option<Seq<char>>,
)
    requires
        allowed.len() > 0,
        !allowed.contains(claim_of(decoded).image_id),
    ensures
        proof_refusal(allowed, Ok(decoded), proof_type, rejection) == Some(
            VerifierErrorView::InvalidImageId {
                expected: joined(allowed, ", "@),
                actual: claim_of(decoded).image_id,
            },
        ),
{
}

} // verus!
