use confidential_token::keyfile::signing_key_from_file_contents;
use confidential_token::keyfile::KeyfileError;
use solana_sdk::signature::Keypair;
use solana_sdk::signer::Signer;

#[test]
fn valid_key_file_round_trips() {
    let keypair = Keypair::new();
    let contents = serde_json::to_string(&keypair.to_bytes().to_vec()).unwrap();
    let loaded = signing_key_from_file_contents(&contents).expect("a valid key file loads");
    assert_eq!(loaded.pubkey(), keypair.pubkey());
    assert_eq!(loaded.to_bytes(), keypair.to_bytes());
}

#[test]
fn non_json_contents_are_malformed() {
    assert_eq!(
        signing_key_from_file_contents("not a key file").unwrap_err(),
        KeyfileError::Malformed
    );
    assert_eq!(
        signing_key_from_file_contents("{\"key\": 1}").unwrap_err(),
        KeyfileError::Malformed
    );
}

#[test]
fn wrong_length_is_an_invalid_key() {
    assert_eq!(
        signing_key_from_file_contents("[1, 2, 3]").unwrap_err(),
        KeyfileError::InvalidKey
    );
    let too_long = serde_json::to_string(&vec![7u8; 65]).unwrap();
    assert_eq!(
        signing_key_from_file_contents(&too_long).unwrap_err(),
        KeyfileError::InvalidKey
    );
}

#[test]
fn mismatched_halves_are_an_invalid_key() {
    let zeros = serde_json::to_string(&vec![0u8; 64]).unwrap();
    assert_eq!(
        signing_key_from_file_contents(&zeros).unwrap_err(),
        KeyfileError::InvalidKey
    );
}
