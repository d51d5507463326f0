use proof_attestor::error::VerifierError;
use proof_attestor::fetch::{resolve_receipt_url, ArtifactReader, RawArtifact};

#[test]
fn ipfs_locator_goes_through_the_gateway() {
    assert_eq!(
        resolve_receipt_url("ipfs://Qm123", "https://ipfs.io"),
        Ok("https://ipfs.io/ipfs/Qm123".to_string())
    );
}

#[test]
fn http_locators_are_taken_as_they_are() {
    assert_eq!(
        resolve_receipt_url("http://host/r.bin", "https://ipfs.io"),
        Ok("http://host/r.bin".to_string())
    );
    assert_eq!(
        resolve_receipt_url("https://host/r.bin", "https://ipfs.io"),
        Ok("https://host/r.bin".to_string())
    );
}

#[test]
fn other_schemes_are_not_supported() {
    for locator in ["s3://bucket/key", "ftp://host/file", "", "ipfs:/Qm", "HTTP://host", "Qm123"] {
        assert_eq!(
            resolve_receipt_url(locator, "https://ipfs.io"),
            Err(VerifierError::UnsupportedScheme(locator.to_string()))
        );
    }
}

#[test]
fn repeated_ipfs_prefix_is_dropped() {
    assert_eq!(
        resolve_receipt_url("ipfs://ipfs://Qm", "http://gw"),
        Ok("http://gw/ipfs/Qm".to_string())
    );
    assert_eq!(resolve_receipt_url("ipfs://", "http://gw"), Ok("http://gw/ipfs/".to_string()));
}

#[test]
fn artifact_at_the_ceiling_is_taken() {
    let artifact = RawArtifact::new(vec![1, 2, 3], 3).unwrap();
    assert_eq!(artifact.as_slice(), &[1, 2, 3]);
    assert_eq!(artifact.size(), 3);
    assert!(RawArtifact::new(Vec::new(), 0).is_ok());
}

#[test]
fn artifact_over_the_ceiling_is_refused() {
    assert_eq!(
        RawArtifact::new(vec![1, 2, 3, 4], 3).err(),
        Some(VerifierError::ReceiptTooLarge { size: 4, max: 3 })
    );
    assert_eq!(
        RawArtifact::new(vec![1], 0).err(),
        Some(VerifierError::ReceiptTooLarge { size: 1, max: 0 })
    );
}

#[test]
fn reader_collects_pieces_up_to_the_ceiling() {
    let reader = ArtifactReader::new(5);
    let reader = reader.accept(&[1, 2]).unwrap();
    let reader = reader.accept(&[]).unwrap();
    let reader = reader.accept(&[3, 4, 5]).unwrap();
    let artifact = reader.finish();
    assert_eq!(artifact.as_slice(), &[1, 2, 3, 4, 5]);
    assert_eq!(artifact.size(), 5);
    assert_eq!(artifact.into_bytes(), vec![1, 2, 3, 4, 5]);
}

#[test]
fn reader_refuses_the_piece_that_exceeds_the_ceiling() {
    let reader = ArtifactReader::new(5);
    let reader = reader.accept(&[1, 2, 3]).unwrap();
    assert_eq!(
        reader.accept(&[4, 5, 6]).err(),
        Some(VerifierError::ReceiptTooLarge { size: 6, max: 5 })
    );
    assert_eq!(
        ArtifactReader::new(0).accept(&[1]).err(),
        Some(VerifierError::ReceiptTooLarge { size: 1, max: 0 })
    );
    assert_eq!(ArtifactReader::new(0).finish().size(), 0);
}
