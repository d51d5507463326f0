//! Error types of the attestation pipeline.

use vstd::prelude::*;

use crate::text::decimal;
use crate::text::decimal_digits;

verus! {

/// Why a text could not be read as hexadecimal digits.
#[derive(Debug, Clone, Copy, PartialEq, Eq)]
pub enum HexError {
    /// The byte at `index` is no hexadecimal digit; `c` is that byte as a character.
    InvalidHexCharacter { c: char, index: usize },
    /// The text holds an odd number of bytes.
    OddLength,
    /// The text does not fill the container it was decoded into.
    InvalidStringLength,
}

/// Why the request source could not be queried.
#[derive(Debug, Clone, PartialEq, Eq)]
pub enum SourceError {
    /// One attempt ran longer than the request timeout.
    Timeout,
    /// The endpoint answered with a status outside 200..=299.
    Status { code: u16, body: String },
    /// The endpoint answered with query-level errors, joined by ", ".
    Query(String),
    /// The answer held neither errors nor data.
    NoData,
    /// The answer was not of the expected shape.
    Malformed,
    /// Every attempt failed; `last` is the message of the last failure.
    Exhausted { attempts: u32, last: String },
}

/// Why a receipt was refused before or during verification.
#[derive(Debug, Clone, PartialEq, Eq)]
pub enum VerificationFailure {
    /// The artifact is no well-formed receipt.
    DeserializationFailed(String),
    /// The proof type asks for a journal and the receipt has none.
    EmptyJournal,
    /// The proof type tag is not one the verifier knows.
    UnknownProofType(String),
    /// The proof system rejected the receipt, for the reason given.
    CryptographicVerificationFailed(String),
}

/// Why a signer could not be made, or could not sign.
#[derive(Debug, Clone, Copy, PartialEq, Eq)]
pub enum SigningError {
    /// The private key is not hexadecimal text.
    InvalidHex(HexError),
    /// The private key is no valid secp256k1 scalar.
    InvalidKey,
    /// The curve arithmetic produced no signature for this digest.
    NoSignature,
}

/// Why a submission did not go through.
#[derive(Debug, Clone, PartialEq, Eq)]
pub enum SubmissionError {
    /// The inbox answered with a status outside 200..=299.
    Rejected { status: u16, body: String },
    /// The request never reached the inbox.
    Transport(String),
}

/// Every failure the service reports.
#[derive(Debug, Clone, PartialEq, Eq)]
pub enum VerifierError {
    Config(String),
    GraphQL(SourceError),
    ProofVerification(VerificationFailure),
    InvalidImageId { expected: String, actual: String },
    Signing(SigningError),
    InputBox(SubmissionError),
    Network(String),
    Serialization(String),
    Hex(HexError),
    ReceiptTooLarge { size: usize, max: usize },
    UnsupportedScheme(String),
}

pub enum SourceErrorView {
    Timeout,
    Status { code: u16, body: Seq<char> },
    Query(Seq<char>),
    NoData,
    Malformed,
    Exhausted { attempts: u32, last: Seq<char> },
}

pub enum VerificationFailureView {
    DeserializationFailed(Seq<char>),
    EmptyJournal,
    UnknownProofType(Seq<char>),
    CryptographicVerificationFailed(Seq<char>),
}

pub enum SubmissionErrorView {
    Rejected { status: u16, body: Seq<char> },
    Transport(Seq<char>),
}

pub enum VerifierErrorView {
    Config(Seq<char>),
    GraphQL(SourceErrorView),
    ProofVerification(VerificationFailureView),
    InvalidImageId { expected: Seq<char>, actual: Seq<char> },
    Signing(SigningError),
    InputBox(SubmissionErrorView),
    Network(Seq<char>),
    Serialization(Seq<char>),
    Hex(HexError),
    ReceiptTooLarge { size: usize, max: usize },
    UnsupportedScheme(Seq<char>),
}

impl View for SourceError {
    type V = SourceErrorView;

    open spec fn view(&self) -> SourceErrorView {
        match *self {
            SourceError::Timeout => SourceErrorView::Timeout,
            SourceError::Status { code, body } => SourceErrorView::Status { code, body: body@ },
            SourceError::Query(m) => SourceErrorView::Query(m@),
            SourceError::NoData => SourceErrorView::NoData,
            SourceError::Malformed => SourceErrorView::Malformed,
            SourceError::Exhausted { attempts, last } => SourceErrorView::Exhausted {
                attempts,
                last: last@,
            },
        }
    }
}

impl View for VerificationFailure {
    type V = VerificationFailureView;

    open spec fn view(&self) -> VerificationFailureView {
        match *self {
            VerificationFailure::DeserializationFailed(m) => {
                VerificationFailureView::DeserializationFailed(m@)
            },
            VerificationFailure::EmptyJournal => VerificationFailureView::EmptyJournal,
            VerificationFailure::UnknownProofType(t) => VerificationFailureView::UnknownProofType(
                t@,
            ),
            VerificationFailure::CryptographicVerificationFailed(m) => {
                VerificationFailureView::CryptographicVerificationFailed(m@)
            },
        }
    }
}

impl View for SubmissionError {
    type V = SubmissionErrorView;

    open spec fn view(&self) -> SubmissionErrorView {
        match *self {
            SubmissionError::Rejected { status, body } => SubmissionErrorView::Rejected {
                status,
                body: body@,
            },
            SubmissionError::Transport(m) => SubmissionErrorView::Transport(m@),
        }
    }
}

impl View for VerifierError {
    type V = VerifierErrorView;

    open spec fn view(&self) -> VerifierErrorView {
        match *self {
            VerifierError::Config(m) => VerifierErrorView::Config(m@),
            VerifierError::GraphQL(e) => VerifierErrorView::GraphQL(e@),
            VerifierError::ProofVerification(e) => VerifierErrorView::ProofVerification(e@),
            VerifierError::InvalidImageId { expected, actual } => {
                VerifierErrorView::InvalidImageId { expected: expected@, actual: actual@ }
            },
            VerifierError::Signing(e) => VerifierErrorView::Signing(e),
            VerifierError::InputBox(e) => VerifierErrorView::InputBox(e@),
            VerifierError::Network(m) => VerifierErrorView::Network(m@),
            VerifierError::Serialization(m) => VerifierErrorView::Serialization(m@),
            VerifierError::Hex(e) => VerifierErrorView::Hex(e),
            VerifierError::ReceiptTooLarge { size, max } => VerifierErrorView::ReceiptTooLarge {
                size,
                max,
            },
            VerifierError::UnsupportedScheme(u) => VerifierErrorView::UnsupportedScheme(u@),
        }
    }
}

/// How `{:?}` writes a character: in single quotes, escaped where needed.
pub uninterp spec fn char_debug_text(c: char) -> Seq<char>;

/// Formats a character with std's `Debug` for `char`.
#[verifier::external_body]
fn char_debug(c: char) -> (text: String)
    ensures
        text@ == char_debug_text(c),
{
    format!("{:?}", c)
}

/// The message of a hexadecimal error.
pub open spec fn hex_message(e: HexError) -> Seq<char> {
    match e {
        HexError::InvalidHexCharacter { c, index } => "Invalid character "@ + char_debug_text(c)
            + " at position "@ + decimal_digits(index as nat),
        HexError::OddLength => "Odd number of digits"@,
        HexError::InvalidStringLength => "Invalid string length"@,
    }
}

/// Whether a status is one of a server that is busy for the moment: 502,
/// 503 or 504.
pub open spec fn is_transient_status(code: u16) -> bool {
    502 <= code <= 504
}

/// The message of a source error.
pub open spec fn source_message(e: SourceErrorView) -> Seq<char> {
    match e {
        SourceErrorView::Timeout => "Request timeout"@,
        SourceErrorView::Status { code, body } => if is_transient_status(code) {
            "Server busy ("@ + decimal_digits(code as nat) + "): "@ + body
        } else {
            "HTTP error ("@ + decimal_digits(code as nat) + "): "@ + body
        },
        SourceErrorView::Query(m) => m,
        SourceErrorView::NoData => "No data in response"@,
        SourceErrorView::Malformed => "Malformed response"@,
        SourceErrorView::Exhausted { attempts, last } => "All "@ + decimal_digits(attempts as nat)
            + " attempts failed, the last with: "@ + last,
    }
}

/// The message of a verification failure.
pub open spec fn verification_message(e: VerificationFailureView) -> Seq<char> {
    match e {
        VerificationFailureView::DeserializationFailed(d) => "Failed to deserialize receipt: "@
            + d,
        VerificationFailureView::EmptyJournal => "Receipt has empty journal"@,
        VerificationFailureView::UnknownProofType(t) => "Unknown proof type: "@ + t,
        VerificationFailureView::CryptographicVerificationFailed(r) => {
            "Receipt verification failed: "@ + r
        },
    }
}

/// The message of a signing error.
pub open spec fn signing_message(e: SigningError) -> Seq<char> {
    match e {
        SigningError::InvalidHex(h) => "Invalid private key hex: "@ + hex_message(h),
        SigningError::InvalidKey => "Invalid private key"@,
        SigningError::NoSignature => "Failed to sign"@,
    }
}

/// The message of a submission error.
pub open spec fn submission_message(e: SubmissionErrorView) -> Seq<char> {
    match e {
        SubmissionErrorView::Rejected { status, body } => "InputBox returned error "@
            + decimal_digits(status as nat) + ": "@ + body,
        SubmissionErrorView::Transport(m) => "Failed to send request: "@ + m,
    }
}

/// The message of an error.
pub open spec fn message_text(e: VerifierErrorView) -> Seq<char> {
    match e {
        VerifierErrorView::Config(m) => "Configuration error: "@ + m,
        VerifierErrorView::GraphQL(s) => "GraphQL query error: "@ + source_message(s),
        VerifierErrorView::ProofVerification(v) => "Proof verification failed: "@
            + verification_message(v),
        VerifierErrorView::InvalidImageId { expected, actual } => "Invalid image ID: expected "@
            + expected + ", got "@ + actual,
        VerifierErrorView::Signing(s) => "Receipt signing error: "@ + signing_message(s),
        VerifierErrorView::InputBox(s) => "InputBox submission error: "@ + submission_message(s),
        VerifierErrorView::Network(m) => "Network error: "@ + m,
        VerifierErrorView::Serialization(m) => "Serialization error: "@ + m,
        VerifierErrorView::Hex(h) => "Hex encoding error: "@ + hex_message(h),
        VerifierErrorView::ReceiptTooLarge { size, max } => "Receipt too large: "@
            + decimal_digits(size as nat) + " bytes exceeds maximum "@ + decimal_digits(
            max as nat,
        ) + " bytes"@,
        VerifierErrorView::UnsupportedScheme(u) => "Unsupported receipt URL scheme: "@ + u,
    }
}

fn text2(a: &str, b: &str) -> (t: String)
    ensures
        t@ == a@ + b@,
{
    let mut t = String::from_str(a);
    t.append(b);
    t
}

fn text4(a: &str, b: &str, c: &str, d: &str) -> (t: String)
    ensures
        t@ == a@ + b@ + c@ + d@,
{
    let mut t = String::from_str(a);
    t.append(b);
    t.append(c);
    t.append(d);
    t
}

impl HexError {
    /// The message of the error.
    pub fn message(&self) -> (m: String)
        ensures
            m@ == hex_message(*self),
    {
        match *self {
            HexError::InvalidHexCharacter { c, index } => text4(
                "Invalid character ",
                char_debug(c).as_str(),
                " at position ",
                decimal(index as u64).as_str(),
            ),
            HexError::OddLength => String::from_str("Odd number of digits"),
            HexError::InvalidStringLength => String::from_str("Invalid string length"),
        }
    }
}

impl SourceError {
    /// The message of the error.
    pub fn message(&self) -> (m: String)
        ensures
            m@ == source_message(self@),
    {
        match self {
            SourceError::Timeout => String::from_str("Request timeout"),
            SourceError::Status { code, body } => if 502 <= *code && *code <= 504 {
                text4("Server busy (", decimal(*code as u64).as_str(), "): ", body.as_str())
            } else {
                text4("HTTP error (", decimal(*code as u64).as_str(), "): ", body.as_str())
            },
            SourceError::Query(m) => m.clone(),
            SourceError::NoData => String::from_str("No data in response"),
            SourceError::Malformed => String::from_str("Malformed response"),
            SourceError::Exhausted { attempts, last } => text4(
                "All ",
                decimal(*attempts as u64).as_str(),
                " attempts failed, the last with: ",
                last.as_str(),
            ),
        }
    }
}

impl VerificationFailure {
    /// The message of the failure.
    pub fn message(&self) -> (m: String)
        ensures
            m@ == verification_message(self@),
    {
        match self {
            VerificationFailure::DeserializationFailed(d) => text2(
                "Failed to deserialize receipt: ",
                d.as_str(),
            ),
            VerificationFailure::EmptyJournal => String::from_str("Receipt has empty journal"),
            VerificationFailure::UnknownProofType(t) => text2("Unknown proof type: ", t.as_str()),
            VerificationFailure::CryptographicVerificationFailed(r) => text2(
                "Receipt verification failed: ",
                r.as_str(),
            ),
        }
    }
}

impl SigningError {
    /// The message of the error.
    pub fn message(&self) -> (m: String)
        ensures
            m@ == signing_message(*self),
    {
        match *self {
            SigningError::InvalidHex(h) => text2("Invalid private key hex: ", h.message().as_str()),
            SigningError::InvalidKey => String::from_str("Invalid private key"),
            SigningError::NoSignature => String::from_str("Failed to sign"),
        }
    }
}

impl SubmissionError {
    /// The message of the error.
    pub fn message(&self) -> (m: String)
        ensures
            m@ == submission_message(self@),
    {
        match self {
            SubmissionError::Rejected { status, body } => text4(
                "InputBox returned error ",
                decimal(*status as u64).as_str(),
                ": ",
                body.as_str(),
            ),
            SubmissionError::Transport(m) => text2("Failed to send request: ", m.as_str()),
        }
    }
}

impl VerifierError {
    /// The message of the error, as it is shown to an operator.
    pub fn message(&self) -> (m: String)
        ensures
            m@ == message_text(self@),
    {
        match self {
            VerifierError::Config(m) => text2("Configuration error: ", m.as_str()),
            VerifierError::GraphQL(s) => text2("GraphQL query error: ", s.message().as_str()),
            VerifierError::ProofVerification(v) => text2(
                "Proof verification failed: ",
                v.message().as_str(),
            ),
            VerifierError::InvalidImageId { expected, actual } => text4(
                "Invalid image ID: expected ",
                expected.as_str(),
                ", got ",
                actual.as_str(),
            ),
            VerifierError::Signing(s) => text2("Receipt signing error: ", s.message().as_str()),
            VerifierError::InputBox(s) => text2(
                "InputBox submission error: ",
                s.message().as_str(),
            ),
            VerifierError::Network(m) => text2("Network error: ", m.as_str()),
            VerifierError::Serialization(m) => text2("Serialization error: ", m.as_str()),
            VerifierError::Hex(h) => text2("Hex encoding error: ", h.message().as_str()),
            VerifierError::ReceiptTooLarge { size, max } => {
                let mut m = text4(
                    "Receipt too large: ",
                    decimal(*size as u64).as_str(),
                    " bytes exceeds maximum ",
                    decimal(*max as u64).as_str(),
                );
                m.append(" bytes");
                m
            },
            VerifierError::UnsupportedScheme(u) => text2(
                "Unsupported receipt URL scheme: ",
                u.as_str(),
            ),
        }
    }
}

} // verus!
