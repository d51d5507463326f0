//! The submission client: frames a signed receipt as the inbox expects it
//! and reads what the inbox answers.

use vstd::prelude::*;
use vstd::utf8::encode_utf8;

use crate::codec::prefixed_hex;
use crate::codec::to_prefixed_hex;
use crate::error::SubmissionError;
use crate::error::SubmissionErrorView;
use crate::error::VerifierError;
use crate::error::VerifierErrorView;
use crate::json::json_node;
use crate::json::json_node_at;
use crate::json::json_quote;
use crate::json::json_string;
use crate::json::JsonNode;
use crate::json::JsonNodeView;
use crate::text::decimal;
use crate::text::decimal_digits;
use crate::text::starts_with;
use crate::text::trim_end_matches;
use crate::text::without_trailing;
use crate::types::InputBoxPayload;
use crate::types::InputBoxPayloadView;
use crate::types::VerifiedReceipt;
use crate::types::VerifiedReceiptView;

verus! {

/// A contract address with `0x` in front, put there where it was missing.
pub open spec fn normalized_address(address: Seq<char>) -> Seq<char> {
    if "0x"@.is_prefix_of(address) {
        address
    } else {
        "0x"@ + address
    }
}

/// Whether an HTTP status is a success: 200 to 299.
pub open spec fn is_success_status(status: u16) -> bool {
    200 <= status <= 299
}

/// An optional number as JSON: its decimal numeral, or `null`.
pub open spec fn json_optional_number(n: Option<u64>) -> Seq<char> {
    match n {
        Some(v) => decimal_digits(v as nat),
        None => "null"@,
    }
}

/// An optional text as JSON: its string literal, or `null`.
pub open spec fn json_optional_string(text: Option<Seq<char>>) -> Seq<char> {
    match text {
        Some(t) => json_string(t),
        None => "null"@,
    }
}

/// A receipt as a JSON object, its members in the order of its fields and
/// without any space.
pub open spec fn receipt_json(r: VerifiedReceiptView) -> Seq<char> {
    "{\"device_id\":"@ + json_string(r.device_id) + ",\"proof_type\":"@ + json_string(
        r.proof_type,
    ) + ",\"receipt_hash\":"@ + json_string(r.receipt_hash) + ",\"image_id\":"@ + json_string(
        r.image_id,
    ) + ",\"journal_hash\":"@ + json_string(r.journal_hash) + ",\"epoch_index\":"@
        + decimal_digits(r.epoch_index as nat) + ",\"input_index\":"@ + decimal_digits(
        r.input_index as nat,
    ) + ",\"signature\":"@ + json_string(r.signature) + ",\"timestamp\":"@
        + json_optional_number(r.timestamp) + ",\"verifier_address\":"@ + json_optional_string(
        r.verifier_address,
    ) + "}"@
}

/// The command that submits a receipt, as JSON.
pub open spec fn submission_json(r: VerifiedReceiptView) -> Seq<char> {
    "{\"command\":\"submit_verified_receipt\",\"data\":"@ + receipt_json(r) + "}"@
}

/// The envelope for a receipt: the contract address, and `0x` with the
/// hexadecimal digits of the UTF-8 bytes of the command.
pub open spec fn envelope(address: Seq<char>, r: VerifiedReceiptView) -> InputBoxPayloadView {
    InputBoxPayloadView { address, payload: prefixed_hex(encode_utf8(submission_json(r))) }
}

/// What the inbox's answer means: a status outside 200 to 299 is a
/// rejection with that status and body; any other answer means that the
/// submission went through, with the index that the body names, if it is
/// JSON and names one.
pub open spec fn submission_result(status: u16, body: Seq<char>) -> Result<
    Option<u64>,
    VerifierErrorView,
> {
    if !is_success_status(status) {
        Err(VerifierErrorView::InputBox(SubmissionErrorView::Rejected { status, body }))
    } else {
        match json_node(body, "/index"@) {
            JsonNodeView::Unsigned(n) => Ok(Some(n)),
            _ => Ok(None),
        }
    }
}

/// The address of the inbox's liveness probe.
pub open spec fn health_address(endpoint: Seq<char>) -> Seq<char> {
    without_trailing(endpoint, "/input"@) + "/health"@
}

/// The inbox to submit to, and the contract the submissions are for.
#[derive(Debug, Clone, PartialEq, Eq)]
pub struct InputBoxClient {
    pub endpoint: String,
    pub dapp_address: String,
}

/// What a submission that went through came back with.
#[derive(Debug, Clone, Copy, PartialEq, Eq)]
pub struct SubmissionOutcome {
    /// The index the inbox gave the input, where it named one.
    pub index: Option<u64>,
}

fn receipt_text(receipt: &VerifiedReceipt) -> (json: String)
    ensures
        json@ == receipt_json(receipt@),
{
    let verifier_address = match &receipt.verifier_address {
        Some(a) => json_quote(a.as_str()),
        None => String::from_str("null"),
    };
    let timestamp = match receipt.timestamp {
        Some(t) => decimal(t),
        None => String::from_str("null"),
    };
    let mut json = String::from_str("{\"device_id\":");
    json.append(json_quote(receipt.device_id.as_str()).as_str());
    json.append(",\"proof_type\":");
    json.append(json_quote(receipt.proof_type.as_str()).as_str());
    json.append(",\"receipt_hash\":");
    json.append(json_quote(receipt.receipt_hash.as_str()).as_str());
    json.append(",\"image_id\":");
    json.append(json_quote(receipt.image_id.as_str()).as_str());
    json.append(",\"journal_hash\":");
    json.append(json_quote(receipt.journal_hash.as_str()).as_str());
    json.append(",\"epoch_index\":");
    json.append(decimal(receipt.epoch_index).as_str());
    json.append(",\"input_index\":");
    json.append(decimal(receipt.input_index).as_str());
    json.append(",\"signature\":");
    json.append(json_quote(receipt.signature.as_str()).as_str());
    json.append(",\"timestamp\":");
    json.append(timestamp.as_str());
    json.append(",\"verifier_address\":");
    json.append(verifier_address.as_str());
    json.append("}");
    json
}

impl InputBoxClient {
    /// Makes a client for an inbox endpoint and a contract address; the
    /// address gets `0x` in front where it has none.
    pub fn new(endpoint: &str, dapp_address: &str) -> (res: Result<InputBoxClient, VerifierError>)
        ensures
            res matches Ok(client) && client.endpoint@ == endpoint@ && client.dapp_address@
                == normalized_address(dapp_address@),
    {
        let address = if starts_with(dapp_address, "0x") {
            String::from_str(dapp_address)
        } else {
            let mut a = String::from_str("0x");
            a.append(dapp_address);
            a
        };
        Ok(InputBoxClient { endpoint: String::from_str(endpoint), dapp_address: address })
    }

    /// Frames a signed receipt for submission: the envelope that is to be
    /// posted to the inbox. Framing never fails.
    pub fn submit_verified_receipt(&self, receipt: &VerifiedReceipt) -> (res: Result<
        InputBoxPayload,
        VerifierError,
    >)
        ensures
            res matches Ok(payload) && payload@ == envelope(self.dapp_address@, receipt@),
    {
        let mut json = String::from_str("{\"command\":\"submit_verified_receipt\",\"data\":");
        json.append(receipt_text(receipt).as_str());
        json.append("}");
        let payload = to_prefixed_hex(json.as_str().as_bytes());
        Ok(InputBoxPayload { address: self.dapp_address.clone(), payload })
    }

    /// Reads the inbox's answer to a submission.
    pub fn submission_outcome(status: u16, body: &str) -> (res: Result<
        SubmissionOutcome,
        VerifierError,
    >)
        ensures
            match res {
                Ok(outcome) => submission_result(status, body@) == Ok::<
                    Option<u64>,
                    VerifierErrorView,
                >(outcome.index),
                Err(e) => submission_result(status, body@) == Err::<Option<u64>, VerifierErrorView>(
                    e@,
                ),
            },
    {
        if status < 200 || status > 299 {
            return Err(
                VerifierError::InputBox(
                    SubmissionError::Rejected { status, body: String::from_str(body) },
                ),
            );
        }
        let index = match json_node_at(body, "/index") {
            JsonNode::Unsigned(n) => Some(n),
            _ => None,
        };
        Ok(SubmissionOutcome { index })
    }

    /// The address of the inbox's liveness probe: the endpoint without its
    /// trailing `/input`, then `/health`.
    pub fn health_url(&self) -> (url: String)
        ensures
            url@ == health_address(self.endpoint@),
    {
        let base = trim_end_matches(self.endpoint.as_str(), "/input");
        let mut url = String::from_str(base);
        url.append("/health");
        url
    }

    /// Whether the inbox is healthy, given the status of its answer to the
    /// probe, or `None` where the probe got no answer. Only an answer with
    /// a success status counts as healthy.
    pub fn health_check(&self, probe_status: Option<u16>) -> (healthy: bool)
        ensures
            healthy == (probe_status matches Some(status) && is_success_status(status)),
    {
        match probe_status {
            Some(status) => 200 <= status && status <= 299,
            None => false,
        }
    }
}

} // verus!
