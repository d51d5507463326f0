use proof_attestor::error::{SubmissionError, VerifierError};
use proof_attestor::inputbox_client::{InputBoxClient, SubmissionOutcome};
use proof_attestor::types::VerifiedReceipt;

fn signed_receipt() -> VerifiedReceipt {
    VerifiedReceipt {
        device_id: "dev\"1".to_string(),
        proof_type: "iot_validation".to_string(),
        receipt_hash: "0x12".to_string(),
        image_id: "0x34".to_string(),
        journal_hash: "0x56".to_string(),
        epoch_index: 7,
        input_index: 0,
        signature: "0xab".to_string(),
        timestamp: Some(1700000000),
        verifier_address: Some("0xcd".to_string()),
    }
}

#[test]
fn test_dapp_address_normalization() {
    let client1 = InputBoxClient::new(
        "http://localhost:8080/input",
        "0x1234567890abcdef1234567890abcdef12345678",
    )
    .unwrap();
    assert_eq!(client1.dapp_address, "0x1234567890abcdef1234567890abcdef12345678");

    let client2 = InputBoxClient::new(
        "http://localhost:8080/input",
        "1234567890abcdef1234567890abcdef12345678",
    )
    .unwrap();
    assert_eq!(client2.dapp_address, "0x1234567890abcdef1234567890abcdef12345678");
}

#[test]
fn envelope_holds_the_command_as_hex() {
    let client = InputBoxClient::new("http://inbox/input", "0xabc").unwrap();
    let envelope = client.submit_verified_receipt(&signed_receipt()).unwrap();
    assert_eq!(envelope.address, "0xabc");
    let expected = [
        "{\"command\":\"submit_verified_receipt\",\"data\":{",
        "\"device_id\":\"dev\\\"1\",",
        "\"proof_type\":\"iot_validation\",",
        "\"receipt_hash\":\"0x12\",",
        "\"image_id\":\"0x34\",",
        "\"journal_hash\":\"0x56\",",
        "\"epoch_index\":7,",
        "\"input_index\":0,",
        "\"signature\":\"0xab\",",
        "\"timestamp\":1700000000,",
        "\"verifier_address\":\"0xcd\"}}",
    ]
    .join("");
    assert_eq!(envelope.payload, format!("0x{}", hex::encode(expected)));
    let decoded = hex::decode(&envelope.payload[2..]).unwrap();
    let value: serde_json::Value = serde_json::from_slice(&decoded).unwrap();
    assert_eq!(value["command"], "submit_verified_receipt");
    assert_eq!(value["data"]["device_id"], "dev\"1");
    assert_eq!(value["data"]["epoch_index"], 7);
}

#[test]
fn envelope_writes_null_for_what_is_not_recorded() {
    let client = InputBoxClient::new("http://inbox/input", "abc").unwrap();
    let mut receipt = signed_receipt();
    receipt.timestamp = None;
    receipt.verifier_address = None;
    receipt.epoch_index = u64::MAX;
    let envelope = client.submit_verified_receipt(&receipt).unwrap();
    let text = String::from_utf8(hex::decode(&envelope.payload[2..]).unwrap()).unwrap();
    assert!(text.ends_with(",\"timestamp\":null,\"verifier_address\":null}}"));
    assert!(text.contains("\"epoch_index\":18446744073709551615,"));
}

#[test]
fn rejection_carries_status_and_body() {
    assert_eq!(
        InputBoxClient::submission_outcome(503, "busy"),
        Err(VerifierError::InputBox(SubmissionError::Rejected {
            status: 503,
            body: "busy".to_string()
        }))
    );
    assert_eq!(
        InputBoxClient::submission_outcome(199, ""),
        Err(VerifierError::InputBox(SubmissionError::Rejected {
            status: 199,
            body: String::new()
        }))
    );
    assert!(InputBoxClient::submission_outcome(300, "{}").is_err());
    assert!(InputBoxClient::submission_outcome(404, "{\"index\":1}").is_err());
}

#[test]
fn accepted_submission_may_name_an_index() {
    assert_eq!(
        InputBoxClient::submission_outcome(200, "{\"index\": 7}"),
        Ok(SubmissionOutcome { index: Some(7) })
    );
    assert_eq!(
        InputBoxClient::submission_outcome(299, "{\"other\": 7}"),
        Ok(SubmissionOutcome { index: None })
    );
    assert_eq!(
        InputBoxClient::submission_outcome(201, "{\"index\": \"7\"}"),
        Ok(SubmissionOutcome { index: None })
    );
    assert_eq!(
        InputBoxClient::submission_outcome(200, "{\"index\": -1}"),
        Ok(SubmissionOutcome { index: None })
    );
    assert_eq!(InputBoxClient::submission_outcome(200, "[]"), Ok(SubmissionOutcome { index: None }));
}

#[test]
fn accepted_submission_needs_no_json_body() {
    assert_eq!(
        InputBoxClient::submission_outcome(200, "not json"),
        Ok(SubmissionOutcome { index: None })
    );
    assert_eq!(InputBoxClient::submission_outcome(204, ""), Ok(SubmissionOutcome { index: None }));
    assert_eq!(
        InputBoxClient::submission_outcome(200, "{\"index\": 7"),
        Ok(SubmissionOutcome { index: None })
    );
}

#[test]
fn texts_are_escaped_in_the_envelope() {
    let client = InputBoxClient::new("http://inbox/input", "0xabc").unwrap();
    let mut receipt = signed_receipt();
    receipt.device_id = "a\"b\\c\u{8}\t\n\u{c}\r\u{1}\u{1f}\u{7f}/\u{e9}\u{1f600}".to_string();
    let envelope = client.submit_verified_receipt(&receipt).unwrap();
    let text = String::from_utf8(hex::decode(&envelope.payload[2..]).unwrap()).unwrap();
    let expected = "{\"device_id\":\"a\\\"b\\\\c\\b\\t\\n\\f\\r\\u0001\\u001f\u{7f}/\u{e9}\u{1f600}\",";
    assert!(text.contains(expected));
    let value: serde_json::Value = serde_json::from_str(&text).unwrap();
    assert_eq!(value["data"]["device_id"], receipt.device_id.as_str());
}

#[test]
fn health_probe_address() {
    let client = InputBoxClient::new("http://localhost:8080/input", "0x00").unwrap();
    assert_eq!(client.health_url(), "http://localhost:8080/health");
    let repeated = InputBoxClient::new("http://h/input/input", "0x00").unwrap();
    assert_eq!(repeated.health_url(), "http://h/health");
    let other = InputBoxClient::new("http://h/inbox", "0x00").unwrap();
    assert_eq!(other.health_url(), "http://h/inbox/health");
}

#[test]
fn only_a_success_status_is_healthy() {
    let client = InputBoxClient::new("http://h/input", "0x00").unwrap();
    assert!(client.health_check(Some(200)));
    assert!(client.health_check(Some(204)));
    assert!(client.health_check(Some(299)));
    assert!(!client.health_check(Some(199)));
    assert!(!client.health_check(Some(300)));
    assert!(!client.health_check(Some(503)));
    assert!(!client.health_check(None));
}
