use proof_attestor::error::{SubmissionError, VerificationFailure, VerifierError};
use proof_attestor::inputbox_client::{InputBoxClient, SubmissionOutcome};
use proof_attestor::pipeline::{
    attest, process_single_request, Action, Event, Orchestrator, Phase, Pipeline, RequestOutcome,
};
use proof_attestor::proof_verifier::ProofVerifier;
use proof_attestor::receipt::{DecodedReceipt, ExitStatus};
use proof_attestor::receipt_signer::{compute_receipt_hash, ReceiptSigner};
use proof_attestor::types::ProofRequest;
use sha3::{Digest, Keccak256};

const KEY_ONE: &str = "0x0000000000000000000000000000000000000000000000000000000000000001";
const ADDRESS_OF_KEY_ONE: &str = "0x7e5f4552091a69125d5dfcb7b8c2659029395bdf";
const IMAGE_22: &str = "0x2222222222222222222222222222222222222222222222222222222222222222";
const CEILING: usize = 1 << 10;

fn pipeline(allowed: &[&str]) -> Pipeline {
    Pipeline {
        verifier: ProofVerifier::new(allowed.iter().map(|s| s.to_string()).collect()),
        signer: ReceiptSigner::new(KEY_ONE).unwrap(),
        inbox: InputBoxClient::new("http://inbox/input", "0xdapp").unwrap(),
        ipfs_gateway: "https://ipfs.io".to_string(),
        max_receipt_size: CEILING,
    }
}

fn request(n: u64, locator: &str) -> ProofRequest {
    ProofRequest {
        device_id: format!("dev{}", n),
        proof_type: "iot_validation".to_string(),
        receipt_url: locator.to_string(),
        expected_image_id: IMAGE_22.to_string(),
        epoch_index: 1,
        input_index: n,
    }
}

fn decoded(journal: &[u8]) -> DecodedReceipt {
    DecodedReceipt {
        image_digest: vec![0x22; 32],
        journal: journal.to_vec(),
        exit: ExitStatus::Halted(0),
    }
}

fn fetched(bytes: &[u8]) -> Event {
    Event::Fetched { result: Ok(bytes.to_vec()), timestamp: 1700000000 }
}

fn fetch(n: u64) -> Action {
    Action::Fetch { url: format!("http://a/{}", n), max_size: CEILING }
}

fn discovering(p: &Pipeline) -> Orchestrator {
    let (o, action) = Orchestrator::new().step(p, Event::Tick);
    assert_eq!(action, Action::Discover);
    assert_eq!(o.phase(), Phase::Discovering);
    o
}

fn batch_of(p: &Pipeline, n: u64) -> Orchestrator {
    let batch = (1..=n).map(|i| request(i, &format!("http://a/{}", i))).collect();
    let (o, action) = discovering(p).step(p, Event::Discovered(Ok(batch)));
    assert_eq!(action, fetch(1));
    o
}

#[test]
fn orchestrator_starts_idle() {
    let o = Orchestrator::new();
    assert_eq!(o.phase(), Phase::Idle);
    assert!(o.outcomes().is_empty());
    assert!(o.receipt().is_empty());
}

#[test]
fn empty_discovery_returns_to_idle() {
    let p = pipeline(&[]);
    let (o, action) = discovering(&p).step(&p, Event::Discovered(Ok(Vec::new())));
    assert_eq!(action, Action::Finished { processed: 0 });
    assert_eq!(o.phase(), Phase::Idle);
    assert!(o.outcomes().is_empty());
}

#[test]
fn failed_discovery_returns_to_idle() {
    let p = pipeline(&[]);
    let error = VerifierError::Network("down".to_string());
    let (o, action) = discovering(&p).step(&p, Event::Discovered(Err(error.clone())));
    assert_eq!(action, Action::DiscoveryFailed(error));
    assert_eq!(o.phase(), Phase::Idle);
    let (o, action) = o.step(&p, Event::Tick);
    assert_eq!(action, Action::Discover);
    assert_eq!(o.phase(), Phase::Discovering);
}

#[test]
fn events_out_of_turn_change_nothing() {
    let p = pipeline(&[]);
    let (o, action) =
        Orchestrator::new().step(&p, Event::Discovered(Ok(vec![request(1, "http://a")])));
    assert_eq!(action, Action::Ignore);
    assert_eq!(o.phase(), Phase::Idle);
    let (o, action) = o.step(&p, fetched(b"x"));
    assert_eq!(action, Action::Ignore);
    let (o, action) = o.step(&p, Event::Decoded(Ok(decoded(b"x"))));
    assert_eq!(action, Action::Ignore);
    let (o, action) = o.step(&p, Event::Proved(None));
    assert_eq!(action, Action::Ignore);
    let (o, action) = o.step(&p, Event::Submitted(Err(VerifierError::Network("x".to_string()))));
    assert_eq!(action, Action::Ignore);
    assert_eq!(o.phase(), Phase::Idle);
    let (o, action) = discovering(&p).step(&p, Event::Tick);
    assert_eq!(action, Action::Ignore);
    assert_eq!(o.phase(), Phase::Discovering);
    let o = batch_of(&p, 1);
    let (o, action) = o.step(&p, Event::Tick);
    assert_eq!(action, Action::Ignore);
    let (o, action) = o.step(&p, Event::Proved(None));
    assert_eq!(action, Action::Ignore);
    let (o, action) = o.step(&p, Event::Submitted(Ok(SubmissionOutcome { index: Some(1) })));
    assert_eq!(action, Action::Ignore);
    assert_eq!(o.phase(), Phase::Fetching);
    assert!(o.outcomes().is_empty());
    let (o, action) = o.step(&p, fetched(b"raw"));
    assert_eq!(action, Action::Decode);
    let (o, action) = o.step(&p, Event::Proved(None));
    assert_eq!(action, Action::Ignore);
    assert_eq!(o.phase(), Phase::Decoding);
    assert_eq!(o.receipt(), b"raw");
}

#[test]
fn first_request_is_fetched_through_the_gateway() {
    let p = pipeline(&[]);
    let (o, action) =
        discovering(&p).step(&p, Event::Discovered(Ok(vec![request(1, "ipfs://Qm123")])));
    assert_eq!(
        action,
        Action::Fetch { url: "https://ipfs.io/ipfs/Qm123".to_string(), max_size: CEILING }
    );
    assert_eq!(o.phase(), Phase::Fetching);
}

#[test]
fn request_goes_through_every_stage() {
    let p = pipeline(&[IMAGE_22]);
    let o = batch_of(&p, 1);
    let (o, action) = o.step(&p, fetched(b"raw receipt"));
    assert_eq!(action, Action::Decode);
    assert_eq!(o.phase(), Phase::Decoding);
    assert_eq!(o.receipt(), b"raw receipt");
    let (o, action) = o.step(&p, Event::Decoded(Ok(decoded(b"out"))));
    assert_eq!(action, Action::Prove { image_digest: vec![0x22; 32] });
    assert_eq!(o.phase(), Phase::Proving);
    let (o, action) = o.step(&p, Event::Proved(None));
    assert_eq!(o.phase(), Phase::Submitting);
    assert!(o.receipt().is_empty());
    let envelope = match action {
        Action::Submit(envelope) => envelope,
        other => panic!("a submission was expected, not {:?}", other),
    };
    assert_eq!(envelope.address, "0xdapp");
    let json = String::from_utf8(hex::decode(&envelope.payload[2..]).unwrap()).unwrap();
    let value: serde_json::Value = serde_json::from_str(&json).unwrap();
    let data = &value["data"];
    assert_eq!(value["command"], "submit_verified_receipt");
    assert_eq!(data["device_id"], "dev1");
    assert_eq!(data["proof_type"], "iot_validation");
    assert_eq!(data["epoch_index"], 1);
    assert_eq!(data["input_index"], 1);
    assert_eq!(data["timestamp"], 1700000000u64);
    assert_eq!(data["image_id"], IMAGE_22);
    assert_eq!(
        data["receipt_hash"],
        format!("0x{}", hex::encode(Keccak256::digest(b"raw receipt"))).as_str()
    );
    assert_eq!(
        data["journal_hash"],
        format!("0x{}", hex::encode(Keccak256::digest(b"out"))).as_str()
    );
    assert_eq!(data["verifier_address"], ADDRESS_OF_KEY_ONE);
    assert_eq!(data["signature"].as_str().unwrap().len(), 132);
    let (o, action) = o.step(&p, Event::Submitted(Ok(SubmissionOutcome { index: Some(9) })));
    assert_eq!(action, Action::Finished { processed: 1 });
    assert_eq!(o.phase(), Phase::Idle);
    assert_eq!(
        o.outcomes().as_slice(),
        &[RequestOutcome::Submitted(SubmissionOutcome { index: Some(9) })]
    );
}

#[test]
fn one_failing_request_does_not_stop_the_batch() {
    let p = pipeline(&[IMAGE_22]);
    let o = batch_of(&p, 4);

    let (o, _) = o.step(&p, fetched(b"first"));
    let (o, _) = o.step(&p, Event::Decoded(Ok(decoded(b"out"))));
    let (o, action) = o.step(&p, Event::Proved(None));
    assert!(matches!(action, Action::Submit(_)));
    let (o, action) = o.step(&p, Event::Submitted(Ok(SubmissionOutcome { index: None })));
    assert_eq!(action, fetch(2));

    let (o, _) = o.step(&p, fetched(b"second"));
    let (o, action) = o.step(&p, Event::Decoded(Ok(decoded(b"out"))));
    assert!(matches!(action, Action::Prove { .. }));
    let (o, action) = o.step(&p, Event::Proved(Some("bad seal".to_string())));
    assert_eq!(action, fetch(3));
    assert_eq!(o.phase(), Phase::Fetching);
    assert_eq!(o.outcomes().len(), 2);

    let (o, _) = o.step(&p, fetched(b"third"));
    let (o, action) = o.step(&p, Event::Decoded(Err("unexpected end".to_string())));
    assert_eq!(action, fetch(4));

    let (o, _) = o.step(&p, fetched(b"fourth"));
    let (o, _) = o.step(&p, Event::Decoded(Ok(decoded(b"out"))));
    let (o, _) = o.step(&p, Event::Proved(None));
    let rejected = InputBoxClient::submission_outcome(503, "unavailable");
    let (o, action) = o.step(&p, Event::Submitted(rejected));
    assert_eq!(action, Action::Finished { processed: 1 });
    assert_eq!(o.phase(), Phase::Idle);
    assert_eq!(
        o.outcomes().as_slice(),
        &[
            RequestOutcome::Submitted(SubmissionOutcome { index: None }),
            RequestOutcome::Failed(VerifierError::ProofVerification(
                VerificationFailure::CryptographicVerificationFailed("bad seal".to_string())
            )),
            RequestOutcome::Failed(VerifierError::ProofVerification(
                VerificationFailure::DeserializationFailed("unexpected end".to_string())
            )),
            RequestOutcome::Failed(VerifierError::InputBox(SubmissionError::Rejected {
                status: 503,
                body: "unavailable".to_string()
            })),
        ]
    );
}

#[test]
fn policy_refuses_before_the_proof_system_is_asked() {
    let p = pipeline(&["0xother"]);
    let o = batch_of(&p, 2);
    let (o, _) = o.step(&p, fetched(b"raw"));
    let (o, action) = o.step(&p, Event::Decoded(Ok(decoded(b"out"))));
    assert_eq!(action, fetch(2));
    assert_eq!(
        o.outcomes()[0],
        RequestOutcome::Failed(VerifierError::InvalidImageId {
            expected: "0xother".to_string(),
            actual: IMAGE_22.to_string()
        })
    );
    let q = pipeline(&[IMAGE_22]);
    let (o, _) = o.step(&q, fetched(b"raw"));
    let (o, action) = o.step(&q, Event::Decoded(Ok(decoded(b""))));
    assert_eq!(action, Action::Finished { processed: 0 });
    assert_eq!(
        o.outcomes()[1],
        RequestOutcome::Failed(VerifierError::ProofVerification(VerificationFailure::EmptyJournal))
    );
}

#[test]
fn receipt_over_the_ceiling_is_not_taken_up() {
    let p = pipeline(&[]);
    let o = batch_of(&p, 2);
    let (o, action) = o.step(&p, fetched(&vec![0u8; CEILING + 1]));
    assert_eq!(action, fetch(2));
    assert!(o.receipt().is_empty());
    assert_eq!(
        o.outcomes()[0],
        RequestOutcome::Failed(VerifierError::ReceiptTooLarge { size: CEILING + 1, max: CEILING })
    );
    let (o, action) = o.step(&p, fetched(&vec![0u8; CEILING]));
    assert_eq!(action, Action::Decode);
    assert_eq!(o.receipt().len(), CEILING);
}

#[test]
fn failed_fetch_is_an_outcome() {
    let p = pipeline(&[]);
    let o = batch_of(&p, 1);
    let error = VerifierError::Network("timeout".to_string());
    let (o, action) = o.step(&p, Event::Fetched { result: Err(error.clone()), timestamp: 5 });
    assert_eq!(action, Action::Finished { processed: 0 });
    assert_eq!(o.outcomes().as_slice(), &[RequestOutcome::Failed(error)]);
}

#[test]
fn requests_with_unsupported_locators_fail_and_are_passed_over() {
    let p = pipeline(&[]);
    let batch = vec![
        request(1, "s3://x"),
        request(2, "ftp://y"),
        request(3, "http://ok"),
        request(4, "file:///z"),
    ];
    let (o, action) = discovering(&p).step(&p, Event::Discovered(Ok(batch)));
    assert_eq!(action, Action::Fetch { url: "http://ok".to_string(), max_size: CEILING });
    assert_eq!(
        o.outcomes().as_slice(),
        &[
            RequestOutcome::Failed(VerifierError::UnsupportedScheme("s3://x".to_string())),
            RequestOutcome::Failed(VerifierError::UnsupportedScheme("ftp://y".to_string())),
        ]
    );
    let (o, _) = o.step(&p, fetched(b"raw"));
    let (o, action) = o.step(&p, Event::Decoded(Err("no receipt".to_string())));
    assert_eq!(action, Action::Finished { processed: 0 });
    assert_eq!(o.outcomes().len(), 4);
    assert_eq!(
        o.outcomes()[3],
        RequestOutcome::Failed(VerifierError::UnsupportedScheme("file:///z".to_string()))
    );
}

#[test]
fn batch_of_unsupported_locators_finishes_at_once() {
    let p = pipeline(&[]);
    let (o, action) = discovering(&p).step(&p, Event::Discovered(Ok(vec![request(1, "s3://x")])));
    assert_eq!(action, Action::Finished { processed: 0 });
    assert_eq!(o.phase(), Phase::Idle);
    assert_eq!(o.outcomes().len(), 1);
    let (o, _) = o.step(&p, Event::Tick);
    assert!(o.outcomes().is_empty());
}

#[test]
fn attested_receipt_carries_the_request_and_the_hashes() {
    let p = pipeline(&[IMAGE_22]);
    let signed = attest(&p, &request(7, "http://a"), b"raw", decoded(b"out"), None, 42).unwrap();
    assert_eq!(signed.device_id, "dev7");
    assert_eq!(signed.proof_type, "iot_validation");
    assert_eq!(signed.epoch_index, 1);
    assert_eq!(signed.input_index, 7);
    assert_eq!(signed.timestamp, Some(42));
    assert_eq!(signed.image_id, IMAGE_22);
    assert_eq!(signed.receipt_hash, format!("0x{}", hex::encode(Keccak256::digest(b"raw"))));
    assert_eq!(signed.journal_hash, format!("0x{}", hex::encode(Keccak256::digest(b"out"))));
    assert_eq!(signed.receipt_hash.len(), 66);
    assert_eq!(signed.journal_hash.len(), 66);
    assert_eq!(signed.verifier_address, Some(ADDRESS_OF_KEY_ONE.to_string()));
    assert_eq!(signed.signature.len(), 132);
    let bytes = hex::decode(&signed.signature[2..]).unwrap();
    let signature = k256::ecdsa::Signature::from_slice(&bytes[..64]).unwrap();
    let recovery = k256::ecdsa::RecoveryId::from_byte(bytes[64] - 27).unwrap();
    let key = k256::ecdsa::VerifyingKey::recover_from_prehash(
        &compute_receipt_hash(&signed),
        &signature,
        recovery,
    )
    .unwrap();
    let own = k256::ecdsa::SigningKey::from_slice(&hex::decode(&KEY_ONE[2..]).unwrap()).unwrap();
    assert_eq!(&key, own.verifying_key());
}

#[test]
fn single_request_reports_the_failing_stage() {
    let p = pipeline(&[IMAGE_22]);
    let q = request(1, "http://a");
    assert_eq!(
        process_single_request(&p, &q, b"raw", decoded(b""), None, 1),
        Err(VerifierError::ProofVerification(VerificationFailure::EmptyJournal))
    );
    assert_eq!(
        process_single_request(&p, &q, b"raw", decoded(b"x"), Some("no".to_string()), 1),
        Err(VerifierError::ProofVerification(
            VerificationFailure::CryptographicVerificationFailed("no".to_string())
        ))
    );
    let mut privacy = request(1, "http://a");
    privacy.proof_type = "iot_privacy".to_string();
    assert!(process_single_request(&p, &privacy, b"raw", decoded(b""), None, 1).is_ok());
    let mut unknown = request(1, "http://a");
    unknown.proof_type = "other".to_string();
    assert_eq!(
        process_single_request(&p, &unknown, b"raw", decoded(b"x"), None, 1),
        Err(VerifierError::ProofVerification(VerificationFailure::UnknownProofType(
            "other".to_string()
        )))
    );
    let envelope = process_single_request(&p, &q, b"raw", decoded(b"x"), None, 1).unwrap();
    let again = process_single_request(&p, &q, b"raw", decoded(b"x"), None, 1).unwrap();
    assert_eq!(envelope, again);
}
