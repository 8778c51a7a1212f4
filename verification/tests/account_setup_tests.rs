use confidential_token::account_setup::prepare_configure_ata;
use confidential_token::account_setup::prepare_mint;
use confidential_token::account_setup::SetupInstruction;
use confidential_token::account_setup::MAXIMUM_PENDING_BALANCE_COUNTER;
use confidential_token::account_setup::TOKEN_DECIMALS;
use confidential_token::addresses::Address;
use solana_sdk::signature::Keypair;
use solana_sdk::signer::Signer;

fn address_of(pubkey: &solana_sdk::pubkey::Pubkey) -> Address {
    Address::from_bytes(pubkey.to_bytes().to_vec()).unwrap()
}

#[test]
fn constants_match_the_token_program() {
    assert_eq!(TOKEN_DECIMALS, 9);
    assert_eq!(MAXIMUM_PENDING_BALANCE_COUNTER, 128);
    let payer = Keypair::new();
    let (_, plan) = prepare_mint(&address_of(&payer.pubkey()));
    assert_eq!(
        plan.token_program.as_bytes().as_slice(),
        spl_token_2022::id().to_bytes().as_slice()
    );
}

#[test]
fn mint_plan_configures_the_payer_as_authority() {
    let payer = Keypair::new();
    let payer_address = address_of(&payer.pubkey());
    let (mint_keypair, plan) = prepare_mint(&payer_address);
    assert_eq!(plan.decimals, TOKEN_DECIMALS);
    assert_eq!(plan.mint_authority.as_bytes(), payer_address.as_bytes());
    assert_eq!(
        plan.freeze_authority.as_ref().map(|a| a.as_bytes().clone()),
        Some(payer_address.as_bytes().clone())
    );
    assert_eq!(
        plan.confidential_transfer_authority.as_bytes(),
        payer_address.as_bytes()
    );
    assert!(plan.auto_approve_new_accounts);
    assert!(plan.auditor_elgamal_pubkey.is_none());
    assert_ne!(mint_keypair.pubkey(), payer.pubkey());
}

#[test]
fn configure_ata_builds_the_bundle_in_order() {
    let payer = Keypair::new();
    let payer_address = address_of(&payer.pubkey());
    let mint = Keypair::new();
    let mint_address = address_of(&mint.pubkey());
    let (_, plan) = prepare_mint(&payer_address);
    let setup = prepare_configure_ata(&payer, &payer_address, &mint_address, &plan.token_program)
        .expect("local preparation must succeed");
    assert_eq!(
        setup.kinds,
        vec![
            SetupInstruction::CreateAccount,
            SetupInstruction::Reallocate,
            SetupInstruction::Configure,
            SetupInstruction::VerifyPubkeyValidity,
        ]
    );
    assert_eq!(setup.instructions.len(), 4);

    let expected_ata = spl_associated_token_account::get_associated_token_address_with_program_id(
        &payer.pubkey(),
        &mint.pubkey(),
        &spl_token_2022::id(),
    );
    assert_eq!(setup.ata.as_bytes().as_slice(), expected_ata.to_bytes().as_slice());
    assert_ne!(setup.ata.as_bytes(), payer_address.as_bytes());

    assert_eq!(setup.instructions[0].program_id, spl_associated_token_account::id());
    assert_eq!(setup.instructions[1].program_id, spl_token_2022::id());
    assert_eq!(setup.instructions[2].program_id, spl_token_2022::id());
    assert_eq!(
        setup.instructions[3].program_id,
        spl_token_2022::solana_zk_sdk::zk_elgamal_proof_program::id()
    );
}

#[test]
fn derived_keys_are_deterministic_per_account() {
    let payer = Keypair::new();
    let payer_address = address_of(&payer.pubkey());
    let mint = Keypair::new();
    let mint_address = address_of(&mint.pubkey());
    let (_, plan) = prepare_mint(&payer_address);
    let first =
        prepare_configure_ata(&payer, &payer_address, &mint_address, &plan.token_program).unwrap();
    let second =
        prepare_configure_ata(&payer, &payer_address, &mint_address, &plan.token_program).unwrap();
    assert_eq!(first.ata.as_bytes(), second.ata.as_bytes());
    assert_eq!(first.elgamal.pubkey(), second.elgamal.pubkey());
}
