//! Buyback/burn and token flows through the in-process client.

use ovt_program::client::{Client, Keypair, OVTClient};
use ovt_program::error::ProgramError;
use ovt_program::runtime::{AccountMeta, Pubkey};
use ovt_program::state::OVTState;
use ovt_program::testclient::TestClient;
use ovt_program::utxo::UtxoMeta;
use ovt_program::OVTInstruction;

/// A well-formed compressed secp256k1 public key (the generator point).
const GENERATOR_KEY: [u8; 33] = [
    0x02, 0x79, 0xBE, 0x66, 0x7E, 0xF9, 0xDC, 0xBB, 0xAC, 0x55, 0xA0, 0x62, 0x95, 0xCE, 0x87,
    0x0B, 0x07, 0x02, 0x9B, 0xFC, 0xDB, 0x2D, 0xCE, 0x28, 0xD9, 0x59, 0xF2, 0x81, 0x5B, 0x16,
    0xF8, 0x17, 0x98,
];

fn set_raw_data(client: &mut TestClient, key: &Pubkey, bytes: Vec<u8>) {
    for i in 0..client.accounts.len() {
        if client.accounts[i].key == *key {
            client.accounts[i].data = bytes;
            return;
        }
    }
    panic!("account not found");
}

#[test]
fn lib_test_buyback_burn() {
    let mut client = TestClient::new();
    let program_id = Pubkey([0xF0; 32]);

    // Create admin accounts (3 out of 5 required).
    let mut admin_accounts = Vec::new();
    for _ in 0..5 {
        admin_accounts.push(client.create_admin_account(program_id).unwrap());
    }

    // State account seeded with a funded treasury.
    let state_account = client.create_account(program_id).unwrap();
    let state = OVTState {
        nav_sats: 1_000_000,
        treasury_pubkey_bytes: GENERATOR_KEY,
        total_supply: 1_000_000,
        last_nav_update: 0,
    };
    client.set_account_data(&state_account.key, &state).unwrap();

    // Collect signatures for the buyback.
    let action_type = "buyback_burn".to_string();
    let description = "Burn 100k sats worth of OVT".to_string();
    for i in 0..3 {
        client
            .sign_action(
                &admin_accounts[i].key,
                action_type.clone(),
                description.clone(),
                format!("sig_{}", i),
            )
            .unwrap();
    }
    let signatures: Vec<String> = (0..3).map(|i| format!("sig_{}", i)).collect();
    assert!(client.verify_action(&action_type, &signatures).unwrap());

    // The payment claim presented as evidence: owned by the treasury key,
    // deeply confirmed, covering the payment.
    let claim = UtxoMeta {
        txid: "test_txid".to_string(),
        vout: 0,
        amount: 100_000,
        script_pubkey: GENERATOR_KEY.to_vec(),
        confirmations: 6,
    };
    let utxo_account = client.create_account(program_id).unwrap();
    set_raw_data(&mut client, &utxo_account.key, claim.encode());

    // Buyback with an admin authority succeeds and burns exactly at the
    // -10% boundary.
    let payment_amount = 100_000;
    let instruction = OVTInstruction::BuybackBurn {
        payment_txid: "test_txid".to_string(),
        payment_amount_sats: payment_amount,
    };
    client
        .process_transaction(
            program_id,
            vec![
                AccountMeta::new(state_account.key, true),
                AccountMeta::new_readonly(admin_accounts[0].key, true),
                AccountMeta::new_readonly(utxo_account.key, false),
            ],
            instruction.encode(),
        )
        .unwrap();
    let after = client.get_account_data(&state_account.key).unwrap();
    assert_eq!(after.total_supply, 900_000);
    assert_eq!(after.nav_sats, 1_000_000);

    // Buyback with a non-admin account must fail.
    let non_admin = client.create_account(program_id).unwrap();
    let instruction = OVTInstruction::BuybackBurn {
        payment_txid: "test_txid".to_string(),
        payment_amount_sats: payment_amount,
    };
    let err = client
        .process_transaction(
            program_id,
            vec![
                AccountMeta::new(state_account.key, true),
                AccountMeta::new_readonly(non_admin.key, true),
                AccountMeta::new_readonly(utxo_account.key, false),
            ],
            instruction.encode(),
        )
        .unwrap_err();
    assert_eq!(err, ProgramError::NotAnAdmin);
    let unchanged = client.get_account_data(&state_account.key).unwrap();
    assert_eq!(unchanged.total_supply, 900_000);
}

#[test]
fn buyback_rejects_foreign_claim_owner() {
    let mut client = TestClient::new();
    let program_id = Pubkey([0xF0; 32]);
    let other_program = Pubkey([0xE0; 32]);
    let admin = client.create_admin_account(program_id).unwrap();

    let state_account = client.create_account(program_id).unwrap();
    let state = OVTState {
        nav_sats: 1_000_000,
        treasury_pubkey_bytes: GENERATOR_KEY,
        total_supply: 1_000_000,
        last_nav_update: 0,
    };
    client.set_account_data(&state_account.key, &state).unwrap();

    // The claim account belongs to a different program.
    let claim = UtxoMeta {
        txid: "test_txid".to_string(),
        vout: 0,
        amount: 100_000,
        script_pubkey: GENERATOR_KEY.to_vec(),
        confirmations: 6,
    };
    let utxo_account = client.create_account(other_program).unwrap();
    set_raw_data(&mut client, &utxo_account.key, claim.encode());

    let instruction = OVTInstruction::BuybackBurn {
        payment_txid: "test_txid".to_string(),
        payment_amount_sats: 100_000,
    };
    let err = client
        .process_transaction(
            program_id,
            vec![
                AccountMeta::new(state_account.key, true),
                AccountMeta::new_readonly(admin.key, true),
                AccountMeta::new_readonly(utxo_account.key, false),
            ],
            instruction.encode(),
        )
        .unwrap_err();
    assert_eq!(err, ProgramError::UTXOVerificationFailed);
}

#[test]
fn buyback_rejects_invalid_treasury_key() {
    let mut client = TestClient::new();
    let program_id = Pubkey([0xF0; 32]);
    let admin = client.create_admin_account(program_id).unwrap();

    // An all-zero treasury key does not parse as a public key.
    let state_account = client.create_account(program_id).unwrap();
    let state = OVTState {
        nav_sats: 1_000_000,
        treasury_pubkey_bytes: [0u8; 33],
        total_supply: 1_000_000,
        last_nav_update: 0,
    };
    client.set_account_data(&state_account.key, &state).unwrap();
    let utxo_account = client.create_account(program_id).unwrap();

    let instruction = OVTInstruction::BuybackBurn {
        payment_txid: "test_txid".to_string(),
        payment_amount_sats: 100_000,
    };
    let err = client
        .process_transaction(
            program_id,
            vec![
                AccountMeta::new(state_account.key, true),
                AccountMeta::new_readonly(admin.key, true),
                AccountMeta::new_readonly(utxo_account.key, false),
            ],
            instruction.encode(),
        )
        .unwrap_err();
    assert_eq!(err, ProgramError::InvalidTreasuryKey);
}

#[test]
fn client_test_buy_and_sell_ovt() {
    let mut test_client = TestClient::new();
    let program_id = Pubkey([0xF0; 32]);
    let mint_authority = Pubkey([0xE1; 32]);
    let mint = test_client.create_mint(program_id, 8, mint_authority).unwrap();
    let metadata = test_client.create_account(program_id).unwrap();
    let buyer = Pubkey([0xE2; 32]);
    let treasury = test_client.create_token_account(program_id, mint.key, buyer).unwrap();
    let authority = Keypair;

    let client = OVTClient::new(program_id, mint.key, metadata.key, treasury.key, authority);

    // Create the buyer's token account.
    let buyer_token_account = test_client
        .create_token_account(program_id, mint.key, buyer)
        .unwrap();

    // Buy OVT.
    let buy_amount = 100;
    client.buy_ovt(buyer_token_account.key, buy_amount, vec![]).unwrap();

    // Manually update the token account, as the endpoint model performs
    // no transfer.
    let mut token_account = test_client.get_token_account(&buyer_token_account.key).unwrap();
    token_account.amount = buy_amount;
    test_client
        .set_token_account(&buyer_token_account.key, &token_account)
        .unwrap();

    // Verify the purchase.
    let buyer_balance = test_client.get_token_account(&buyer_token_account.key).unwrap();
    assert_eq!(buyer_balance.amount, buy_amount);

    // Sell OVT.
    client
        .sell_ovt(buyer_token_account.key, buy_amount, "bc1qtest".to_string())
        .unwrap();

    let mut token_account = test_client.get_token_account(&buyer_token_account.key).unwrap();
    token_account.amount = 0;
    test_client
        .set_token_account(&buyer_token_account.key, &token_account)
        .unwrap();

    // Verify the sale.
    let buyer_balance_after = test_client.get_token_account(&buyer_token_account.key).unwrap();
    assert_eq!(buyer_balance_after.amount, 0);
}

#[test]
fn ovt_client_submits_all_instructions() {
    let program_id = Pubkey([0xF0; 32]);
    let endpoint = Client::new(program_id);
    let client = OVTClient::new(
        program_id,
        Pubkey([1u8; 32]),
        Pubkey([2u8; 32]),
        Pubkey([3u8; 32]),
        Keypair,
    );
    assert!(client.initialize(&endpoint).is_ok());
    assert!(client.update_nav(&endpoint, 1_000_000).is_ok());
    assert!(client.buyback_burn(&endpoint, "txid".to_string(), 100_000).is_ok());
}
