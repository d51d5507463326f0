use proof_attestor::config::{parse_image_ids, Config, EnvOverrides};
use proof_attestor::error::VerifierError;

fn no_overrides() -> EnvOverrides {
    EnvOverrides {
        graphql_endpoint: None,
        inputbox_endpoint: None,
        dapp_address: None,
        verifier_private_key: None,
        allowed_image_ids: None,
        poll_interval_secs: None,
        ipfs_gateway: None,
    }
}

fn usable() -> EnvOverrides {
    EnvOverrides {
        verifier_private_key: Some("0x01".to_string()),
        allowed_image_ids: Some("imgA".to_string()),
        ..no_overrides()
    }
}

#[test]
fn defaults() {
    let config = Config::default();
    assert_eq!(config.graphql_endpoint, "http://localhost:8000/graphql");
    assert_eq!(config.inputbox_endpoint, "http://localhost:8080/input");
    assert_eq!(config.dapp_address, "0x0000000000000000000000000000000000000000");
    assert_eq!(config.verifier_private_key, "");
    assert!(config.allowed_image_ids.is_empty());
    assert_eq!(config.poll_interval_secs, 10);
    assert_eq!(config.ipfs_gateway, "https://ipfs.io");
    assert_eq!(config.max_receipt_size, 10 * 1024 * 1024);
    assert_eq!(config.request_timeout_secs, 30);
}

#[test]
fn identities_are_read_from_a_list() {
    assert_eq!(parse_image_ids(" a, b ,,c "), vec!["a", "b", "c"]);
    assert_eq!(parse_image_ids("a"), vec!["a"]);
    assert!(parse_image_ids("").is_empty());
    assert!(parse_image_ids(" , ,").is_empty());
    assert_eq!(parse_image_ids("a b,c"), vec!["a b", "c"]);
}

#[test]
fn defaults_are_not_valid_on_their_own() {
    assert_eq!(
        Config::from_env(&no_overrides()),
        Err(VerifierError::Config("Verifier private key is required".to_string()))
    );
    assert_eq!(
        Config::default().validate(),
        Err(VerifierError::Config("Verifier private key is required".to_string()))
    );
}

#[test]
fn key_without_identities_is_not_valid() {
    let env = EnvOverrides { verifier_private_key: Some("0x01".to_string()), ..no_overrides() };
    assert_eq!(
        Config::from_env(&env),
        Err(VerifierError::Config("At least one allowed image ID is required".to_string()))
    );
    let blank = EnvOverrides { allowed_image_ids: Some(" , ".to_string()), ..env };
    assert_eq!(
        Config::from_env(&blank),
        Err(VerifierError::Config("At least one allowed image ID is required".to_string()))
    );
    let no_key = EnvOverrides { allowed_image_ids: Some("a".to_string()), ..no_overrides() };
    assert_eq!(
        Config::from_env(&no_key),
        Err(VerifierError::Config("Verifier private key is required".to_string()))
    );
}

#[test]
fn environment_overrides_the_defaults() {
    let env = EnvOverrides {
        graphql_endpoint: Some("http://g".to_string()),
        inputbox_endpoint: Some("http://i".to_string()),
        dapp_address: Some("0xdd".to_string()),
        verifier_private_key: Some("0x01".to_string()),
        allowed_image_ids: Some("a, b".to_string()),
        poll_interval_secs: Some("25".to_string()),
        ipfs_gateway: Some("http://gw".to_string()),
    };
    let config = Config::from_env(&env).unwrap();
    assert_eq!(config.graphql_endpoint, "http://g");
    assert_eq!(config.inputbox_endpoint, "http://i");
    assert_eq!(config.dapp_address, "0xdd");
    assert_eq!(config.verifier_private_key, "0x01");
    assert_eq!(config.allowed_image_ids, vec!["a", "b"]);
    assert_eq!(config.poll_interval_secs, 25);
    assert_eq!(config.ipfs_gateway, "http://gw");
    assert_eq!(config.max_receipt_size, 10 * 1024 * 1024);
    assert_eq!(config.request_timeout_secs, 30);
}

#[test]
fn poll_interval_that_is_no_numeral_is_passed_over() {
    for text in ["soon", "", "-5", "1.5", "99999999999999999999"] {
        let env = EnvOverrides { poll_interval_secs: Some(text.to_string()), ..usable() };
        assert_eq!(Config::from_env(&env).unwrap().poll_interval_secs, 10);
    }
}

#[test]
fn file_is_the_base_where_there_is_one() {
    let file = Config {
        graphql_endpoint: "http://file".to_string(),
        verifier_private_key: "0x02".to_string(),
        allowed_image_ids: vec!["f".to_string()],
        poll_interval_secs: 99,
        max_receipt_size: 5,
        request_timeout_secs: 6,
        ..Config::default()
    };
    let loaded = Config::load(Some(file.clone()), &no_overrides()).unwrap();
    assert_eq!(loaded, file);
    let env = EnvOverrides { ipfs_gateway: Some("http://gw".to_string()), ..usable() };
    let merged = Config::load(Some(file), &env).unwrap();
    assert_eq!(merged.graphql_endpoint, "http://file");
    assert_eq!(merged.verifier_private_key, "0x01");
    assert_eq!(merged.allowed_image_ids, vec!["imgA"]);
    assert_eq!(merged.poll_interval_secs, 99);
    assert_eq!(merged.ipfs_gateway, "http://gw");
    assert_eq!(merged.max_receipt_size, 5);
    assert_eq!(merged.request_timeout_secs, 6);
    assert_eq!(Config::load(None, &usable()), Config::from_env(&usable()));
}

#[test]
fn apply_does_not_validate() {
    let config = Config::default().apply(&no_overrides());
    assert_eq!(config, Config::default());
}
