//! End-to-end instruction flows through the in-process client.

use ovt_program::error::ProgramError;
use ovt_program::runtime::{AccountInfo, AccountMeta, Pubkey, UtxoMeta};
use ovt_program::state::OVTState;
use ovt_program::testclient::TestClient;
use ovt_program::OVTInstruction;

fn insert_system_account(client: &mut TestClient, key: Pubkey, program_id: Pubkey) {
    client.accounts.push(AccountInfo {
        key,
        is_signer: false,
        is_writable: false,
        lamports: 1,
        data: Vec::new(),
        owner: program_id,
        utxo: UtxoMeta::new([0u8; 32], 0),
    });
}

#[test]
fn local_test_initialize() {
    let mut client = TestClient::new();
    let program_id = Pubkey([0xF0; 32]);
    let system_program = Pubkey([0xF1; 32]);

    // Create multiple admin accounts (3 out of 5 required).
    let mut admin_accounts = Vec::new();
    for _ in 0..5 {
        admin_accounts.push(client.create_admin_account(program_id).unwrap());
    }

    // Create the state account and give it an empty initial record.
    let state_account = client.create_account(program_id).unwrap();
    let initial_state = OVTState {
        nav_sats: 0,
        treasury_pubkey_bytes: [0u8; 33],
        total_supply: 0,
        last_nav_update: 0,
    };
    client.set_account_data(&state_account.key, &initial_state).unwrap();

    insert_system_account(&mut client, system_program, program_id);

    // Collect signatures from 3 admins.
    let action_type = "initialize".to_string();
    let description = "Initialize OVT program state".to_string();
    for i in 0..3 {
        let signature = format!("sig_{}", i);
        client
            .sign_action(
                &admin_accounts[i].key,
                action_type.clone(),
                description.clone(),
                signature,
            )
            .unwrap();
    }

    // Verify we have enough signatures.
    let signatures: Vec<String> = (0..3).map(|i| format!("sig_{}", i)).collect();
    assert!(client.verify_action(&action_type, &signatures).unwrap());

    // Initialize with multisig approval in place.
    let instruction = OVTInstruction::Initialize { treasury_pubkey_bytes: [0u8; 33] };
    client
        .process_transaction(
            program_id,
            vec![
                AccountMeta::new(state_account.key, true),
                AccountMeta::new_readonly(admin_accounts[0].key, true),
                AccountMeta::new_readonly(system_program, false),
            ],
            instruction.encode(),
        )
        .unwrap();

    // Verify the state was initialized correctly.
    let state = client.get_account_data(&state_account.key).unwrap();
    assert_eq!(state.nav_sats, 0);
    assert_eq!(state.total_supply, 0);
    assert_eq!(state.last_nav_update, 0);

    // Verify admin status.
    for admin in &admin_accounts {
        assert!(client.is_admin(&admin.key));
    }
}

#[test]
fn local_test_nav_update() {
    let mut client = TestClient::new();
    let program_id = Pubkey([0xF0; 32]);
    let system_program = Pubkey([0xF1; 32]);

    let mut admin_accounts = Vec::new();
    for _ in 0..5 {
        admin_accounts.push(client.create_admin_account(program_id).unwrap());
    }

    let state_account = client.create_account(program_id).unwrap();
    let initial_state = OVTState {
        nav_sats: 0,
        treasury_pubkey_bytes: [0u8; 33],
        total_supply: 0,
        last_nav_update: 0,
    };
    client.set_account_data(&state_account.key, &initial_state).unwrap();
    insert_system_account(&mut client, system_program, program_id);

    // Initialize first, with multisig approval.
    let init_action = "initialize".to_string();
    let init_description = "Initialize OVT program state".to_string();
    for i in 0..3 {
        client
            .sign_action(
                &admin_accounts[i].key,
                init_action.clone(),
                init_description.clone(),
                format!("init_sig_{}", i),
            )
            .unwrap();
    }
    let init_signatures: Vec<String> = (0..3).map(|i| format!("init_sig_{}", i)).collect();
    assert!(client.verify_action(&init_action, &init_signatures).unwrap());

    let instruction = OVTInstruction::Initialize { treasury_pubkey_bytes: [0u8; 33] };
    client
        .process_transaction(
            program_id,
            vec![
                AccountMeta::new(state_account.key, true),
                AccountMeta::new_readonly(admin_accounts[0].key, true),
                AccountMeta::new_readonly(system_program, false),
            ],
            instruction.encode(),
        )
        .unwrap();

    // Collect signatures for the NAV update.
    let nav_action = "update_nav".to_string();
    let nav_description = "Update NAV to 1M sats".to_string();
    let new_nav = 1_000_000;
    for i in 0..3 {
        client
            .sign_action(
                &admin_accounts[i].key,
                nav_action.clone(),
                nav_description.clone(),
                format!("nav_sig_{}", i),
            )
            .unwrap();
    }
    let nav_signatures: Vec<String> = (0..3).map(|i| format!("nav_sig_{}", i)).collect();
    assert!(client.verify_action(&nav_action, &nav_signatures).unwrap());

    let instruction = OVTInstruction::UpdateNAV { btc_price_sats: new_nav };
    client
        .process_transaction(
            program_id,
            vec![
                AccountMeta::new(state_account.key, true),
                AccountMeta::new_readonly(admin_accounts[0].key, true),
            ],
            instruction.encode(),
        )
        .unwrap();

    // Verify the NAV was updated.
    let state = client.get_account_data(&state_account.key).unwrap();
    assert_eq!(state.nav_sats, new_nav);
}

#[test]
fn local_test_nav_validation() {
    let mut client = TestClient::new();
    let program_id = Pubkey([0xF0; 32]);
    let system_program = Pubkey([0xF1; 32]);

    let mut admin_accounts = Vec::new();
    for _ in 0..5 {
        admin_accounts.push(client.create_admin_account(program_id).unwrap());
    }

    let state_account = client.create_account(program_id).unwrap();
    let initial_state = OVTState {
        nav_sats: 0,
        treasury_pubkey_bytes: [0u8; 33],
        total_supply: 0,
        last_nav_update: 0,
    };
    client.set_account_data(&state_account.key, &initial_state).unwrap();
    insert_system_account(&mut client, system_program, program_id);

    // Initialize with multisig approval.
    let action_type = "initialize".to_string();
    let description = "Initialize OVT program state".to_string();
    for i in 0..3 {
        client
            .sign_action(
                &admin_accounts[i].key,
                action_type.clone(),
                description.clone(),
                format!("init_sig_{}", i),
            )
            .unwrap();
    }
    let init_signatures: Vec<String> = (0..3).map(|i| format!("init_sig_{}", i)).collect();
    assert!(client.verify_action(&action_type, &init_signatures).unwrap());

    let instruction = OVTInstruction::Initialize { treasury_pubkey_bytes: [0u8; 33] };
    client
        .process_transaction(
            program_id,
            vec![
                AccountMeta::new(state_account.key, true),
                AccountMeta::new_readonly(admin_accounts[0].key, true),
                AccountMeta::new_readonly(system_program, false),
            ],
            instruction.encode(),
        )
        .unwrap();

    // Seed the state with test values.
    let state = OVTState {
        nav_sats: 1_000_000,
        treasury_pubkey_bytes: [0u8; 33],
        total_supply: 1_000_000,
        last_nav_update: 0,
    };
    client.set_account_data(&state_account.key, &state).unwrap();
}

#[test]
fn lib_test_nav_validation() {
    let mut client = TestClient::new();
    let program_id = Pubkey([0xF0; 32]);
    let authority = Pubkey([0xE5; 32]);

    // A state account seeded with an established NAV and supply.
    let state_account = client.create_account(program_id).unwrap();
    let state = OVTState {
        nav_sats: 1_000_000,
        treasury_pubkey_bytes: [0u8; 33],
        total_supply: 1_000_000,
        last_nav_update: 0,
    };
    client.set_account_data(&state_account.key, &state).unwrap();
    client.accounts.push(AccountInfo {
        key: authority,
        is_signer: true,
        is_writable: false,
        lamports: 0,
        data: Vec::new(),
        owner: Pubkey::new(),
        utxo: UtxoMeta::new([0u8; 32], 0),
    });

    let metas = vec![
        AccountMeta::new(state_account.key, true),
        AccountMeta::new_readonly(authority, true),
    ];

    // A 10% increase is well inside the single-step band.
    let valid_nav = 1_100_000;
    let instruction = OVTInstruction::UpdateNAV { btc_price_sats: valid_nav };
    assert!(client.process_transaction(program_id, metas.clone(), instruction.encode()).is_ok());
    assert_eq!(client.get_account_data(&state_account.key).unwrap().nav_sats, valid_nav);

    // A further step to 2M sats is still inside the step band [0.2, 5.0]
    // and the cumulative band against the genesis baseline: accepted.
    let next_nav = 2_000_000;
    let instruction = OVTInstruction::UpdateNAV { btc_price_sats: next_nav };
    assert!(client.process_transaction(program_id, metas.clone(), instruction.encode()).is_ok());
    assert_eq!(client.get_account_data(&state_account.key).unwrap().nav_sats, next_nav);
}

#[test]
fn nav_update_rejected_on_failure_leaves_state_unchanged() {
    let mut client = TestClient::new();
    let program_id = Pubkey([0xF0; 32]);
    let authority = client.create_admin_account(program_id).unwrap();
    let state_account = client.create_account(program_id).unwrap();
    let initial_state = OVTState {
        nav_sats: 0,
        treasury_pubkey_bytes: [0u8; 33],
        total_supply: 0,
        last_nav_update: 0,
    };
    client.set_account_data(&state_account.key, &initial_state).unwrap();

    let metas = vec![
        AccountMeta::new(state_account.key, true),
        AccountMeta::new_readonly(authority.key, true),
    ];

    // The first update is unconstrained: the baseline is not yet
    // established.
    let ins = OVTInstruction::UpdateNAV { btc_price_sats: 1_000_000 };
    client.process_transaction(program_id, metas.clone(), ins.encode()).unwrap();

    // Each further step is bounded by a factor of five, and the total
    // drift from the genesis baseline by a factor of forty-one.
    let ins = OVTInstruction::UpdateNAV { btc_price_sats: 5_000_000 };
    client.process_transaction(program_id, metas.clone(), ins.encode()).unwrap();
    let ins = OVTInstruction::UpdateNAV { btc_price_sats: 25_000_000 };
    client.process_transaction(program_id, metas.clone(), ins.encode()).unwrap();

    // 45M is within five times 25M, but 45 times the genesis NAV breaches
    // the cumulative cap: rejected, and the state is unchanged.
    let ins = OVTInstruction::UpdateNAV { btc_price_sats: 45_000_000 };
    let err = client.process_transaction(program_id, metas.clone(), ins.encode()).unwrap_err();
    assert_eq!(err, ProgramError::InvalidNAVUpdate);
    let state = client.get_account_data(&state_account.key).unwrap();
    assert_eq!(state.nav_sats, 25_000_000);

    // A single step beyond five times the current NAV is also rejected.
    let ins = OVTInstruction::UpdateNAV { btc_price_sats: 200_000_000 };
    let err = client.process_transaction(program_id, metas.clone(), ins.encode()).unwrap_err();
    assert_eq!(err, ProgramError::InvalidNAVUpdate);
    let state = client.get_account_data(&state_account.key).unwrap();
    assert_eq!(state.nav_sats, 25_000_000);
}

#[test]
fn dispatcher_error_paths() {
    let mut client = TestClient::new();
    let program_id = Pubkey([0xF0; 32]);
    let authority = client.create_admin_account(program_id).unwrap();
    let state_account = client.create_account(program_id).unwrap();

    // A payload that is not the encoding of any instruction.
    let err = client
        .process_transaction(
            program_id,
            vec![
                AccountMeta::new(state_account.key, true),
                AccountMeta::new_readonly(authority.key, true),
            ],
            vec![7, 7, 7],
        )
        .unwrap_err();
    assert_eq!(err, ProgramError::InvalidInstructionData);

    // A meta naming an unknown account.
    let err = client
        .process_transaction(
            program_id,
            vec![
                AccountMeta::new(Pubkey([0xEE; 32]), true),
                AccountMeta::new_readonly(authority.key, true),
            ],
            OVTInstruction::UpdateNAV { btc_price_sats: 1 }.encode(),
        )
        .unwrap_err();
    assert_eq!(err, ProgramError::AccountNotFound);

    // A non-signing authority.
    let err = client
        .process_transaction(
            program_id,
            vec![
                AccountMeta::new(state_account.key, true),
                AccountMeta::new_readonly(authority.key, false),
            ],
            OVTInstruction::UpdateNAV { btc_price_sats: 1 }.encode(),
        )
        .unwrap_err();
    assert_eq!(err, ProgramError::MissingRequiredSignature);

    // A state account whose buffer is not a state record.
    let err = client
        .process_transaction(
            program_id,
            vec![
                AccountMeta::new(state_account.key, true),
                AccountMeta::new_readonly(authority.key, true),
            ],
            OVTInstruction::UpdateNAV { btc_price_sats: 1 }.encode(),
        )
        .unwrap_err();
    assert_eq!(err, ProgramError::InvalidAccountData);
}
