//! Decoding a signing keypair from the contents of a JSON key file.
//!
//! The file holds a JSON array of bytes: the 32 secret-key bytes followed
//! by the 32 public-key bytes. Reading the file is the caller's business;
//! this module decides what its contents mean.

use vstd::prelude::*;

verus! {

/// The length, in bytes, of a serialized signing keypair.
pub const KEYPAIR_LEN: usize = 64;

/// Why the contents of a key file were rejected.
#[derive(Clone, Copy, Debug, PartialEq, Eq, Structural)]
pub enum KeyfileError {
    /// The contents are not a JSON array of bytes.
    Malformed,
    /// The bytes are not a valid signing keypair.
    InvalidKey,
}

/// The byte array that a JSON text denotes, when it denotes one.
pub uninterp spec fn parsed_key_bytes(s: Seq<char>) -> Option<Seq<u8>>;

/// Whether 64 bytes encode a signing keypair: a well-formed secret half
/// whose derived public key equals the public half.
pub uninterp spec fn keypair_bytes_valid(b: Seq<u8>) -> bool;

/// Relies on `serde_json::from_str`: parsing a JSON text into a byte vector
/// is a deterministic function of the text.
#[verifier::external_body]
fn parse_byte_array(s: &str) -> (r: Option<Vec<u8>>)
    ensures
        r matches Some(v) ==> parsed_key_bytes(s@) == Some(v@),
        r is None ==> parsed_key_bytes(s@) is None,
{
    serde_json::from_str::<Vec<u8>>(s).ok()
}

/// Relies on `solana_sdk::signature::Keypair::from_bytes`: a deterministic
/// check of the bytes alone, which accepts exactly the 64-byte inputs whose
/// halves form a keypair — `keypair_bytes_valid` names that condition — and
/// rejects every other input, in particular any whose length is not 64.
#[verifier::external_body]
fn keypair_from_bytes(bytes: &Vec<u8>) -> (r: Option<solana_sdk::signature::Keypair>)
    ensures
        r is Some <==> (bytes@.len() == KEYPAIR_LEN && keypair_bytes_valid(bytes@)),
{
    solana_sdk::signature::Keypair::from_bytes(bytes.as_slice()).ok()
}

/// Decode a signing keypair from the contents of a key file: it succeeds
/// exactly when the contents are a JSON array of 64 bytes that encode a
/// keypair, and says which of the two checks rejected anything else.
pub fn signing_key_from_file_contents(contents: &str)
    -> (r: Result<solana_sdk::signature::Keypair, KeyfileError>)
    ensures
        r is Ok <==> (parsed_key_bytes(contents@) matches Some(b) && b.len() == KEYPAIR_LEN
            && keypair_bytes_valid(b)),
        parsed_key_bytes(contents@) is None ==> r == Err::<
            solana_sdk::signature::Keypair,
            KeyfileError,
        >(KeyfileError::Malformed),
        (parsed_key_bytes(contents@) matches Some(b) && !(b.len() == KEYPAIR_LEN
            && keypair_bytes_valid(b))) ==> r == Err::<
            solana_sdk::signature::Keypair,
            KeyfileError,
        >(KeyfileError::InvalidKey),
{
    let bytes = match parse_byte_array(contents) {
        None => {
            return Err(KeyfileError::Malformed);
        },
        Some(b) => b,
    };
    if bytes.len() != KEYPAIR_LEN {
        return Err(KeyfileError::InvalidKey);
    }
    match keypair_from_bytes(&bytes) {
        None => Err(KeyfileError::InvalidKey),
        Some(k) => Ok(k),
    }
}

} // verus!
