//! The account runtime model, token records and the entry point.

use ovt_program::client::Signature;
use ovt_program::error::ProgramError;
use ovt_program::processor::process_instruction;
use ovt_program::runtime::{
    get_account_script_pubkey,
    get_bitcoin_block_height,
    set_transaction_to_sign,
    AccountInfo,
    InputToSign,
    Pubkey,
    TransactionToSign,
    UtxoMeta,
    UtxoStatus,
};
use ovt_program::state::OVTState;
use ovt_program::testclient::TestClient;
use ovt_program::token::Mint;
use ovt_program::OVTInstruction;

#[test]
fn utxo_meta_parses_from_bytes() {
    let mut bytes = [0u8; 36];
    bytes[0] = 0xAA;
    bytes[31] = 0xBB;
    bytes[32..36].copy_from_slice(&7u32.to_le_bytes());
    let meta = UtxoMeta::from_slice(&bytes);
    assert_eq!(meta.txid()[0], 0xAA);
    assert_eq!(meta.txid()[31], 0xBB);
    assert_eq!(meta.vout(), 7);
}

#[test]
fn utxo_meta_validation_and_status() {
    let zero = UtxoMeta::new([0u8; 32], 0);
    assert!(zero.validate(1).is_err());
    assert_eq!(zero.get_status(), UtxoStatus::Invalid);

    let live = UtxoMeta::new([1u8; 32], 0);
    assert!(live.validate(6).is_ok());
    assert!(live.validate(7).is_err());
    assert_eq!(live.get_status(), UtxoStatus::Active);
}

#[test]
fn script_pubkey_layout() {
    let key = Pubkey([0x11; 32]);
    let script = get_account_script_pubkey(&key);
    assert_eq!(script.len(), 25);
    assert_eq!(&script[..3], &[0x76, 0xA9, 0x14]);
    assert_eq!(&script[3..23], &[0x11; 20]);
    assert_eq!(&script[23..], &[0x88, 0xAC]);
}

#[test]
fn block_height_constant() {
    assert_eq!(get_bitcoin_block_height(), 123456);
    assert_eq!(TestClient::new().simulate_bitcoin_block_height(), 123456);
}

#[test]
fn transaction_to_sign_accepted() {
    let accounts: Vec<AccountInfo> = Vec::new();
    let tx = TransactionToSign {
        tx_bytes: vec![1, 2, 3],
        inputs_to_sign: vec![InputToSign { index: 0, signer: Pubkey([1u8; 32]) }],
    };
    assert!(set_transaction_to_sign(&accounts, tx).is_ok());
}

#[test]
fn mint_supply_arithmetic_is_checked() {
    let mut mint = Mint::new(Pubkey([1u8; 32]), 8);
    mint.mint_to(100).unwrap();
    assert_eq!(mint.supply, 100);
    mint.burn(40).unwrap();
    assert_eq!(mint.supply, 60);
    assert_eq!(mint.burn(61), Err(ProgramError::Overflow));
    assert_eq!(mint.supply, 60);
    mint.mint_to(u64::MAX - 60).unwrap();
    assert_eq!(mint.mint_to(1), Err(ProgramError::Overflow));
    assert_eq!(mint.supply, u64::MAX);
}

#[test]
fn created_account_keys_are_distinct() {
    let mut client = TestClient::new();
    let program_id = Pubkey([0xF0; 32]);
    let mut keys = vec![client.create_account(program_id).unwrap().key];
    keys.push(client.create_admin_account(program_id).unwrap().key);
    keys.push(client.create_account_with_lamports(5).unwrap().key);
    keys.push(client.create_mint(program_id, 8, Pubkey([1u8; 32])).unwrap().key);
    keys.push(
        client.create_token_account(program_id, keys[3], Pubkey([2u8; 32])).unwrap().key,
    );
    for a in 0..keys.len() {
        for b in a + 1..keys.len() {
            assert_ne!(keys[a], keys[b]);
        }
    }
}

#[test]
fn admin_set_is_capped_at_five() {
    let mut client = TestClient::new();
    let program_id = Pubkey([0xF0; 32]);
    for _ in 0..5 {
        client.create_admin_account(program_id).unwrap();
    }
    let err = client.create_admin_account(program_id).unwrap_err();
    match err {
        ProgramError::Custom(m) => assert_eq!(m, "Maximum number of admins reached"),
        other => panic!("unexpected error: {:?}", other),
    }
}

#[test]
fn entry_point_dispatches_without_admins() {
    let program_id = Pubkey([0xF0; 32]);
    let state = OVTState {
        nav_sats: 0,
        treasury_pubkey_bytes: [0u8; 33],
        total_supply: 0,
        last_nav_update: 0,
    };
    let mut accounts = vec![
        AccountInfo {
            key: Pubkey([1u8; 32]),
            is_signer: false,
            is_writable: true,
            lamports: 0,
            data: state.encode(),
            owner: program_id,
            utxo: UtxoMeta::new([0u8; 32], 0),
        },
        AccountInfo {
            key: Pubkey([2u8; 32]),
            is_signer: true,
            is_writable: false,
            lamports: 0,
            data: Vec::new(),
            owner: program_id,
            utxo: UtxoMeta::new([0u8; 32], 0),
        },
    ];

    // A malformed payload is rejected before any account is read.
    let err = process_instruction(&program_id, &mut accounts, &[9, 9]).unwrap_err();
    assert_eq!(err, ProgramError::InvalidInstructionData);

    // A NAV update goes through and rewrites the state account.
    let payload = OVTInstruction::UpdateNAV { btc_price_sats: 3_000_000 }.encode();
    process_instruction(&program_id, &mut accounts, &payload).unwrap();
    let after = OVTState::decode(&accounts[0].data).unwrap();
    assert_eq!(after.nav_sats, 3_000_000);
    assert_eq!(after.last_nav_update, 1000);

    // With no admin configured, a buyback is rejected as unauthorized.
    let claim_account = AccountInfo {
        key: Pubkey([3u8; 32]),
        is_signer: false,
        is_writable: false,
        lamports: 0,
        data: Vec::new(),
        owner: program_id,
        utxo: UtxoMeta::new([0u8; 32], 0),
    };
    accounts.push(claim_account);
    let payload = OVTInstruction::BuybackBurn {
        payment_txid: "t".to_string(),
        payment_amount_sats: 1,
    }
    .encode();
    let err = process_instruction(&program_id, &mut accounts, &payload).unwrap_err();
    assert_eq!(err, ProgramError::NotAnAdmin);
}

#[test]
fn default_signature_is_zero() {
    let sig = Signature::default();
    assert_eq!(sig.0, [0u8; 64]);
}

#[test]
fn account_data_access_checks_writability() {
    let state = OVTState {
        nav_sats: 5,
        treasury_pubkey_bytes: [1u8; 33],
        total_supply: 6,
        last_nav_update: 7,
    };
    let mut account = AccountInfo::new(Pubkey([1u8; 32]), false, false);
    assert_eq!(account.get_data(), Err(ProgramError::InvalidAccountData));
    assert_eq!(account.set_data(&state), Err(ProgramError::InvalidAccountData));
    account.is_writable = true;
    account.set_data(&state).unwrap();
    assert_eq!(account.get_data().unwrap(), state);
}
