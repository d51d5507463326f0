//! What the verifier reads from a RISC Zero receipt, held as plain values.
//! Decoding a receipt and asking the proof system about it are done by the
//! caller, which hands in what came of them.

use vstd::prelude::*;

use crate::codec::prefixed_hex;
use crate::codec::to_prefixed_hex;

verus! {

/// How the guest program ended.
#[derive(Debug, Clone, Copy, PartialEq, Eq)]
pub enum ExitStatus {
    /// The guest halted with this code.
    Halted(u32),
    /// The guest paused with this code.
    Paused(u32),
    /// The host split the execution.
    SystemSplit,
    /// The session limit was reached.
    SessionLimit,
}

impl ExitStatus {
    /// Whether the guest halted or paused with code 0.
    pub open spec fn succeeded(self) -> bool {
        self == ExitStatus::Halted(0) || self == ExitStatus::Paused(0)
    }

    /// The guest's own code; `u32::MAX` where the guest never exited.
    pub open spec fn code(self) -> u32 {
        match self {
            ExitStatus::Halted(c) => c,
            ExitStatus::Paused(c) => c,
            ExitStatus::SystemSplit => u32::MAX,
            ExitStatus::SessionLimit => u32::MAX,
        }
    }

    /// Whether the guest halted or paused with code 0.
    pub fn is_success(&self) -> (ok: bool)
        ensures
            ok == self.succeeded(),
    {
        match *self {
            ExitStatus::Halted(c) => c == 0,
            ExitStatus::Paused(c) => c == 0,
            ExitStatus::SystemSplit => false,
            ExitStatus::SessionLimit => false,
        }
    }

    /// The guest's own code; `u32::MAX` where the guest never exited.
    pub fn exit_code(&self) -> (c: u32)
        ensures
            c == self.code(),
    {
        match *self {
            ExitStatus::Halted(c) => c,
            ExitStatus::Paused(c) => c,
            ExitStatus::SystemSplit => u32::MAX,
            ExitStatus::SessionLimit => u32::MAX,
        }
    }
}

/// A receipt as decoded: the digest that identifies the guest program, the
/// journal, and how the guest ended.
#[derive(Debug, Clone, PartialEq, Eq)]
pub struct DecodedReceipt {
    pub image_digest: Vec<u8>,
    pub journal: Vec<u8>,
    pub exit: ExitStatus,
}

pub struct DecodedReceiptView {
    pub image_digest: Seq<u8>,
    pub journal: Seq<u8>,
    pub exit: ExitStatus,
}

impl View for DecodedReceipt {
    type V = DecodedReceiptView;

    open spec fn view(&self) -> DecodedReceiptView {
        DecodedReceiptView {
            image_digest: self.image_digest@,
            journal: self.journal@,
            exit: self.exit,
        }
    }
}

/// What decoding gave, as the contracts see it: the decoded receipt, or
/// the decoder's message.
pub open spec fn decoding_view(decoded: Result<DecodedReceipt, String>) -> Result<
    DecodedReceiptView,
    Seq<char>,
> {
    match decoded {
        Ok(d) => Ok(d@),
        Err(m) => Err(m@),
    }
}

/// The claim of a receipt as the policy sees it: the program identity as
/// text, the journal, and how the guest ended.
#[derive(Debug, Clone, PartialEq, Eq)]
pub struct ReceiptClaim {
    pub image_id: String,
    pub journal: Vec<u8>,
    pub exit: ExitStatus,
}

pub struct ReceiptClaimView {
    pub image_id: Seq<char>,
    pub journal: Seq<u8>,
    pub exit: ExitStatus,
}

impl View for ReceiptClaim {
    type V = ReceiptClaimView;

    open spec fn view(&self) -> ReceiptClaimView {
        ReceiptClaimView { image_id: self.image_id@, journal: self.journal@, exit: self.exit }
    }
}

/// The claim of a decoded receipt: its identity is `0x` and the digits of
/// the image digest.
pub open spec fn claim_of(decoded: DecodedReceiptView) -> ReceiptClaimView {
    ReceiptClaimView {
        image_id: prefixed_hex(decoded.image_digest),
        journal: decoded.journal,
        exit: decoded.exit,
    }
}

impl ReceiptClaim {
    /// Reads the claim of a decoded receipt.
    pub fn from_decoded(decoded: DecodedReceipt) -> (claim: ReceiptClaim)
        ensures
            claim@ == claim_of(decoded@),
    {
        let image_id = to_prefixed_hex(decoded.image_digest.as_slice());
        ReceiptClaim { image_id, journal: decoded.journal, exit: decoded.exit }
    }
}

} // verus!
