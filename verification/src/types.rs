//! The records that move through the pipeline.

use vstd::prelude::*;

verus! {

/// A request to verify one proof, as read from a notice. Within one source
/// it is identified by `(epoch_index, input_index)`.
#[derive(Debug, Clone, PartialEq, Eq)]
pub struct ProofRequest {
    pub device_id: String,
    pub proof_type: String,
    pub receipt_url: String,
    pub expected_image_id: String,
    pub epoch_index: u64,
    pub input_index: u64,
}

/// A verified receipt, signed or about to be signed.
#[derive(Debug, Clone, PartialEq, Eq)]
pub struct VerifiedReceipt {
    /// The device that asked for the proof.
    pub device_id: String,
    /// The proof type tag: `iot_validation`, `iot_privacy` or `iot_compute`.
    pub proof_type: String,
    /// Keccak-256 of the raw receipt, as hexadecimal text.
    pub receipt_hash: String,
    /// The identity of the guest program, as hexadecimal text.
    pub image_id: String,
    /// Keccak-256 of the journal, as hexadecimal text.
    pub journal_hash: String,
    pub epoch_index: u64,
    pub input_index: u64,
    /// `0x` and 130 hexadecimal digits once signed; empty before.
    pub signature: String,
    /// Unix time of the verification, if recorded.
    pub timestamp: Option<u64>,
    /// The address of the signer, if recorded.
    pub verifier_address: Option<String>,
}

/// One notice of the discovery feed.
#[derive(Debug, Clone, PartialEq, Eq)]
pub struct Notice {
    pub index: String,
    pub input_index: String,
    pub payload: String,
}

/// One input of the discovery feed.
#[derive(Debug, Clone, PartialEq, Eq)]
pub struct Input {
    pub index: String,
    pub timestamp: String,
}

/// The envelope the inbox expects: a contract address and a payload, both
/// `0x`-prefixed hexadecimal text.
#[derive(Debug, Clone, PartialEq, Eq)]
pub struct InputBoxPayload {
    pub address: String,
    pub payload: String,
}

pub struct ProofRequestView {
    pub device_id: Seq<char>,
    pub proof_type: Seq<char>,
    pub receipt_url: Seq<char>,
    pub expected_image_id: Seq<char>,
    pub epoch_index: u64,
    pub input_index: u64,
}

pub struct VerifiedReceiptView {
    pub device_id: Seq<char>,
    pub proof_type: Seq<char>,
    pub receipt_hash: Seq<char>,
    pub image_id: Seq<char>,
    pub journal_hash: Seq<char>,
    pub epoch_index: u64,
    pub input_index: u64,
    pub signature: Seq<char>,
    pub timestamp: Option<u64>,
    pub verifier_address: Option<Seq<char>>,
}

pub struct NoticeView {
    pub index: Seq<char>,
    pub input_index: Seq<char>,
    pub payload: Seq<char>,
}

pub struct InputBoxPayloadView {
    pub address: Seq<char>,
    pub payload: Seq<char>,
}

/// The characters of an optional string.
pub open spec fn opt_text(s: Option<String>) -> Option<Seq<char>> {
    match s {
        Some(t) => Some(t@),
        None => None,
    }
}

impl View for ProofRequest {
    type V = ProofRequestView;

    open spec fn view(&self) -> ProofRequestView {
        ProofRequestView {
            device_id: self.device_id@,
            proof_type: self.proof_type@,
            receipt_url: self.receipt_url@,
            expected_image_id: self.expected_image_id@,
            epoch_index: self.epoch_index,
            input_index: self.input_index,
        }
    }
}

impl View for VerifiedReceipt {
    type V = VerifiedReceiptView;

    open spec fn view(&self) -> VerifiedReceiptView {
        VerifiedReceiptView {
            device_id: self.device_id@,
            proof_type: self.proof_type@,
            receipt_hash: self.receipt_hash@,
            image_id: self.image_id@,
            journal_hash: self.journal_hash@,
            epoch_index: self.epoch_index,
            input_index: self.input_index,
            signature: self.signature@,
            timestamp: self.timestamp,
            verifier_address: opt_text(self.verifier_address),
        }
    }
}

impl View for Notice {
    type V = NoticeView;

    open spec fn view(&self) -> NoticeView {
        NoticeView { index: self.index@, input_index: self.input_index@, payload: self.payload@ }
    }
}

impl View for InputBoxPayload {
    type V = InputBoxPayloadView;

    open spec fn view(&self) -> InputBoxPayloadView {
        InputBoxPayloadView { address: self.address@, payload: self.payload@ }
    }
}

} // verus!
