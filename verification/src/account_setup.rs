//! Preparing the mint and the associated account for shielded transfers.
//!
//! Everything here computes locally: it derives addresses and keys and
//! builds the instructions of the two bootstrap transactions. Submitting
//! them to the chain is the caller's business.

use vstd::prelude::*;
use crate::addresses::Address;
use crate::addresses::ADDRESS_LEN;
use solana_sdk::instruction::Instruction;
use solana_sdk::pubkey::Pubkey;
use solana_sdk::signature::Keypair;
use spl_token_2022::solana_zk_sdk::encryption::auth_encryption::AeKey;
use spl_token_2022::solana_zk_sdk::encryption::elgamal::ElGamalKeypair;
use spl_token_2022::solana_zk_sdk::encryption::pod::auth_encryption::PodAeCiphertext;
use spl_token_2022::solana_zk_sdk::zk_elgamal_proof_program::proof_data::pubkey_validity::PubkeyValidityProofData;
use spl_token_confidential_transfer_proof_extraction::instruction::ProofData;
use spl_token_confidential_transfer_proof_extraction::instruction::ProofLocation;

verus! {

/// The decimals of the mint, shared by minting, depositing and withdrawing.
pub const TOKEN_DECIMALS: u8 = 9;

/// How many deposits or transfers may credit the pending shielded balance
/// before the owner must apply it.
pub const MAXIMUM_PENDING_BALANCE_COUNTER: u64 = 128;

#[verifier::external_type_specification]
#[verifier::external_body]
pub struct ExKeypair(Keypair);

#[verifier::external_type_specification]
#[verifier::external_body]
pub struct ExInstruction(Instruction);

#[verifier::external_type_specification]
#[verifier::external_body]
pub struct ExElGamalKeypair(
    ElGamalKeypair,
);

#[verifier::external_type_specification]
#[verifier::external_body]
pub struct ExAeKey(AeKey);

#[verifier::external_type_specification]
#[verifier::external_body]
pub struct ExPodAeCiphertext(
    PodAeCiphertext,
);

#[verifier::external_type_specification]
#[verifier::external_body]
pub struct ExPubkeyValidityProofData(
    PubkeyValidityProofData,
);

/// Why a local preparation step failed.
#[derive(Clone, Copy, Debug, PartialEq, Eq, Structural)]
pub enum SetupError {
    /// An encryption key could not be derived from the signer.
    KeyDerivation,
    /// An instruction could not be encoded.
    InstructionEncoding,
}

/// The address of the associated account derived from a wallet, a mint and
/// a token program.
pub uninterp spec fn ata_address_of(owner: Seq<u8>, mint: Seq<u8>, program: Seq<u8>) -> Seq<u8>;

/// The 32 bytes of the token program's fixed address.
pub open spec fn token_2022_program_id_bytes() -> Seq<u8> {
    seq![
        6u8, 221u8, 246u8, 225u8, 238u8, 117u8, 143u8, 222u8, 24u8, 66u8, 93u8, 188u8, 228u8,
        108u8, 205u8, 218u8, 182u8, 26u8, 252u8, 77u8, 131u8, 185u8, 13u8, 39u8, 254u8, 189u8,
        249u8, 40u8, 216u8, 161u8, 139u8, 252u8,
    ]
}

/// Relies on `Keypair::new`: a freshly generated
/// signing keypair. The result is random, so nothing is promised of it.
#[verifier::external_body]
fn new_keypair() -> Keypair {
    Keypair::new()
}

/// Relies on `spl_token_2022::id`: the fixed address of the token program,
/// whose 32 bytes `token_2022_program_id_bytes` writes out.
#[verifier::external_body]
fn token_2022_program_address() -> (r: Address)
    ensures
        r@ == token_2022_program_id_bytes(),
{
    Address { bytes: spl_token_2022::id().to_bytes().to_vec() }
}

/// Relies on
/// `spl_associated_token_account::get_associated_token_address_with_program_id`:
/// the associated account address is a deterministic function of the wallet,
/// the mint and the token program.
#[verifier::external_body]
fn derive_ata_address(owner: &Address, mint: &Address, program: &Address) -> (r: Address)
    ensures
        r@ == ata_address_of(owner@, mint@, program@),
        r@.len() == ADDRESS_LEN,
{
    let owner_key = Pubkey::try_from(owner.bytes.as_slice()).unwrap();
    let mint_key = Pubkey::try_from(mint.bytes.as_slice()).unwrap();
    let program_key = Pubkey::try_from(program.bytes.as_slice()).unwrap();
    let ata = spl_associated_token_account::get_associated_token_address_with_program_id(
        &owner_key,
        &mint_key,
        &program_key,
    );
    Address { bytes: ata.to_bytes().to_vec() }
}

/// Relies on
/// `spl_associated_token_account::instruction::create_associated_token_account`:
/// builds the instruction that creates the associated account; it cannot
/// fail.
#[verifier::external_body]
fn create_ata_instruction(funder: &Address, owner: &Address, mint: &Address, program: &Address)
    -> Instruction {
    let funder_key = Pubkey::try_from(funder.bytes.as_slice()).unwrap();
    let owner_key = Pubkey::try_from(owner.bytes.as_slice()).unwrap();
    let mint_key = Pubkey::try_from(mint.bytes.as_slice()).unwrap();
    let program_key = Pubkey::try_from(program.bytes.as_slice()).unwrap();
    spl_associated_token_account::instruction::create_associated_token_account(
        &funder_key,
        &owner_key,
        &mint_key,
        &program_key,
    )
}

/// Relies on `spl_token_2022::instruction::reallocate`, called for the token
/// program's own id: `check_program_account` then accepts it, so the builder
/// returns `Ok`.
#[verifier::external_body]
fn reallocate_instruction(account: &Address, payer: &Address, owner: &Address)
    -> (r: Result<Instruction, SetupError>)
    ensures
        r is Ok,
{
    let account_key = Pubkey::try_from(account.bytes.as_slice()).unwrap();
    let payer_key = Pubkey::try_from(payer.bytes.as_slice()).unwrap();
    let owner_key = Pubkey::try_from(owner.bytes.as_slice()).unwrap();
    spl_token_2022::instruction::reallocate(
        &spl_token_2022::id(),
        &account_key,
        &payer_key,
        &owner_key,
        &[&owner_key],
        &[spl_token_2022::extension::ExtensionType::ConfidentialTransferAccount],
    )
    .map_err(|_| SetupError::InstructionEncoding)
}

/// Relies on `ElGamalKeypair::new_from_signer`: derives the account's
/// asymmetric encryption keypair from the signer and the account address.
/// A signing keypair always produces a signature, an ed25519 signature is
/// never all zeros, and the 64-byte seed passes the derivation's length
/// checks, so the call succeeds.
#[verifier::external_body]
fn elgamal_keypair_for_account(signer: &Keypair, account: &Address)
    -> (r: Result<ElGamalKeypair, SetupError>)
    ensures
        r is Ok,
{
    ElGamalKeypair::new_from_signer(
        signer,
        account.bytes.as_slice(),
    )
    .map_err(|_| SetupError::KeyDerivation)
}

/// Relies on `AeKey::new_from_signer`: derives the account's symmetric
/// encryption key from the signer and the account address. As with the
/// ElGamal derivation, a signing keypair always yields a usable signature
/// and seed, so the call succeeds.
#[verifier::external_body]
fn ae_key_for_account(signer: &Keypair, account: &Address)
    -> (r: Result<AeKey, SetupError>)
    ensures
        r is Ok,
{
    AeKey::new_from_signer(
        signer,
        account.bytes.as_slice(),
    )
    .map_err(|_| SetupError::KeyDerivation)
}

/// Relies on `AeKey::encrypt`: encrypts an amount under the symmetric key.
/// Encryption draws a fresh nonce, so nothing is promised of the ciphertext.
#[verifier::external_body]
fn encrypt_balance(key: &AeKey,
    amount: u64)
    -> PodAeCiphertext {
    key.encrypt(amount).into()
}

/// Relies on `PubkeyValidityProofData::new`: builds the validity proof for
/// the account's ElGamal public key; its body returns `Ok` unconditionally.
#[verifier::external_body]
fn pubkey_validity_proof(
    elgamal: &ElGamalKeypair,
)
    -> (r: Result<
        PubkeyValidityProofData,
        SetupError,
    >)
    ensures
        r is Ok,
{
    PubkeyValidityProofData::new(
        elgamal,
    )
    .map_err(|_| SetupError::KeyDerivation)
}

/// Relies on
/// `spl_token_2022::extension::confidential_transfer::instruction::configure_account`,
/// called for the token program's own id, with the proof bundled at
/// instruction offset one: the builder then returns `Ok` with exactly two
/// instructions, the account configuration followed by the proof
/// verification.
#[verifier::external_body]
fn configure_account_instructions(
    account: &Address,
    mint: &Address,
    zero_balance: &PodAeCiphertext,
    max_pending_credits: u64,
    owner: &Address,
    proof: &PubkeyValidityProofData,
)
    -> (r: Result<Vec<Instruction>, SetupError>)
    ensures
        r is Ok,
        r matches Ok(v) ==> v@.len() == 2,
{
    let account_key = Pubkey::try_from(account.bytes.as_slice()).unwrap();
    let mint_key = Pubkey::try_from(mint.bytes.as_slice()).unwrap();
    let owner_key = Pubkey::try_from(owner.bytes.as_slice()).unwrap();
    let offset = std::num::NonZeroI8::new(1).unwrap();
    let location = ProofLocation::InstructionOffset(offset, ProofData::InstructionData(proof));
    spl_token_2022::extension::confidential_transfer::instruction::configure_account(
        &spl_token_2022::id(),
        &account_key,
        &mint_key,
        zero_balance,
        max_pending_credits,
        &owner_key,
        &[],
        location,
    ).map_err(|_| SetupError::InstructionEncoding)
}

/// The instructions of the account-configuration transaction, by kind.
#[derive(Clone, Copy, Debug, PartialEq, Eq, Structural)]
pub enum SetupInstruction {
    /// Create the associated account.
    CreateAccount,
    /// Reallocate it to hold the confidential-transfer extension.
    Reallocate,
    /// Configure the extension with the encryption keys.
    Configure,
    /// Verify the validity proof for the ElGamal public key.
    VerifyPubkeyValidity,
}

/// The account-configuration transaction holds exactly these instructions,
/// in exactly this order, in one atomic submission.
pub open spec fn configure_account_bundle() -> Seq<SetupInstruction> {
    seq![
        SetupInstruction::CreateAccount,
        SetupInstruction::Reallocate,
        SetupInstruction::Configure,
        SetupInstruction::VerifyPubkeyValidity,
    ]
}

/// What the mint-creation transaction configures.
pub struct MintPlan {
    /// The mint's decimals.
    pub decimals: u8,
    /// The authority allowed to mint tokens.
    pub mint_authority: Address,
    /// The authority allowed to freeze accounts, when one is set.
    pub freeze_authority: Option<Address>,
    /// The authority over the confidential-transfer settings.
    pub confidential_transfer_authority: Address,
    /// Whether new shielded accounts are approved without review.
    pub auto_approve_new_accounts: bool,
    /// The auditor's ElGamal public key, when one is configured.
    pub auditor_elgamal_pubkey: Option<Address>,
    /// The token program that owns the mint and its extension.
    pub token_program: Address,
}

/// Generate the mint's keypair and decide the mint-creation transaction:
/// the fixed decimals, the payer as mint, freeze and confidential-transfer
/// authority, auto-approval of new accounts, no auditor, and the token
/// program as owner.
pub fn prepare_mint(payer_address: &Address)
    -> (r: (Keypair, MintPlan))
    ensures
        r.1.decimals == TOKEN_DECIMALS,
        r.1.mint_authority@ == payer_address@,
        r.1.freeze_authority matches Some(a) && a@ == payer_address@,
        r.1.confidential_transfer_authority@ == payer_address@,
        r.1.auto_approve_new_accounts,
        r.1.auditor_elgamal_pubkey is None,
        r.1.token_program@ == token_2022_program_id_bytes(),
{
    let mint_keypair = new_keypair();
    let plan = MintPlan {
        decimals: TOKEN_DECIMALS,
        mint_authority: payer_address.clone(),
        freeze_authority: Some(payer_address.clone()),
        confidential_transfer_authority: payer_address.clone(),
        auto_approve_new_accounts: true,
        auditor_elgamal_pubkey: None,
        token_program: token_2022_program_address(),
    };
    (mint_keypair, plan)
}

/// Everything the account-configuration transaction needs: the derived
/// account address, the two encryption keys, and the instructions to
/// submit, atomically and in order.
pub struct AtaSetup {
    /// The associated account address.
    pub ata: Address,
    /// The account's asymmetric encryption keypair.
    pub elgamal: ElGamalKeypair,
    /// The account's symmetric encryption key.
    pub aes_key: AeKey,
    /// The instructions of the transaction, in submission order.
    pub instructions: Vec<Instruction>,
    /// The kind of each instruction, in the same order.
    pub kinds: Vec<SetupInstruction>,
}

/// Derive the associated account address and its encryption keys, and build
/// the one transaction that creates, reallocates and configures the account,
/// with its instructions in exactly that order.
pub fn prepare_configure_ata(
    payer: &Keypair,
    payer_address: &Address,
    mint_address: &Address,
    token_program: &Address,
) -> (r: Result<AtaSetup, SetupError>)
    ensures
        r is Ok,
        r matches Ok(s) ==> {
            &&& s.ata@ == ata_address_of(payer_address@, mint_address@, token_program@)
            &&& s.kinds@ == configure_account_bundle()
            &&& s.instructions@.len() == s.kinds@.len()
        },
{
    let ata = derive_ata_address(payer_address, mint_address, token_program);
    let create_ix = create_ata_instruction(payer_address, payer_address, mint_address,
        token_program);
    let realloc_ix = match reallocate_instruction(&ata, payer_address, payer_address) {
        Ok(ix) => ix,
        Err(e) => {
            return Err(e);
        },
    };
    let elgamal = match elgamal_keypair_for_account(payer, &ata) {
        Ok(k) => k,
        Err(e) => {
            return Err(e);
        },
    };
    let aes_key = match ae_key_for_account(payer, &ata) {
        Ok(k) => k,
        Err(e) => {
            return Err(e);
        },
    };
    let zero_balance = encrypt_balance(&aes_key, 0);
    let proof = match pubkey_validity_proof(&elgamal) {
        Ok(p) => p,
        Err(e) => {
            return Err(e);
        },
    };
    let configure_ixs = match configure_account_instructions(
        &ata,
        mint_address,
        &zero_balance,
        MAXIMUM_PENDING_BALANCE_COUNTER,
        payer_address,
        &proof,
    ) {
        Ok(v) => v,
        Err(e) => {
            return Err(e);
        },
    };
    let mut instructions: Vec<Instruction> = Vec::new();
    let mut kinds: Vec<SetupInstruction> = Vec::new();
    instructions.push(create_ix);
    kinds.push(SetupInstruction::CreateAccount);
    instructions.push(realloc_ix);
    kinds.push(SetupInstruction::Reallocate);
    let mut rest = configure_ixs;
    instructions.append(&mut rest);
    kinds.push(SetupInstruction::Configure);
    kinds.push(SetupInstruction::VerifyPubkeyValidity);
    proof {
        assert(kinds@ =~= configure_account_bundle());
    }
    Ok(AtaSetup { ata, elgamal, aes_key, instructions, kinds })
}

} // verus!
