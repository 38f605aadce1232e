//! Round trips and malformed inputs for every binary codec.

use ovt_program::instruction::OVTInstruction;
use ovt_program::runtime::Pubkey;
use ovt_program::state::OVTState;
use ovt_program::token::{Mint, TokenAccount};
use ovt_program::utxo::UtxoMeta;

#[test]
fn state_record_round_trip() {
    let state = OVTState {
        nav_sats: 1_000_000,
        treasury_pubkey_bytes: [7u8; 33],
        total_supply: 42,
        last_nav_update: 1000,
    };
    let bytes = state.encode();
    assert_eq!(bytes.len(), 57);
    let back = OVTState::decode(&bytes).unwrap();
    assert_eq!(back, state);
}

#[test]
fn state_record_layout_is_little_endian() {
    let state = OVTState {
        nav_sats: 0x0102030405060708,
        treasury_pubkey_bytes: [0xAB; 33],
        total_supply: 1,
        last_nav_update: 0,
    };
    let bytes = state.encode();
    assert_eq!(bytes[0], 0x08);
    assert_eq!(bytes[7], 0x01);
    assert_eq!(&bytes[8..41], &[0xAB; 33]);
    assert_eq!(bytes[41], 0x01);
    assert_eq!(&bytes[42..49], &[0u8; 7]);
}

#[test]
fn state_record_rejects_wrong_length() {
    assert!(OVTState::decode(&[0u8; 56]).is_none());
    assert!(OVTState::decode(&[0u8; 58]).is_none());
    assert!(OVTState::decode(&[]).is_none());
}

#[test]
fn instruction_initialize_round_trip() {
    let ins = OVTInstruction::Initialize { treasury_pubkey_bytes: [9u8; 33] };
    let bytes = ins.encode();
    assert_eq!(bytes.len(), 34);
    assert_eq!(bytes[0], 0);
    assert_eq!(OVTInstruction::decode(&bytes).unwrap(), ins);
}

#[test]
fn instruction_update_nav_round_trip() {
    let ins = OVTInstruction::UpdateNAV { btc_price_sats: 2_000_000 };
    let bytes = ins.encode();
    assert_eq!(bytes.len(), 9);
    assert_eq!(bytes[0], 1);
    assert_eq!(&bytes[1..9], &2_000_000u64.to_le_bytes());
    assert_eq!(OVTInstruction::decode(&bytes).unwrap(), ins);
}

#[test]
fn instruction_buyback_round_trip() {
    let ins = OVTInstruction::BuybackBurn {
        payment_txid: "test_txid".to_string(),
        payment_amount_sats: 100_000,
    };
    let bytes = ins.encode();
    assert_eq!(bytes[0], 2);
    assert_eq!(&bytes[1..5], &9u32.to_le_bytes());
    assert_eq!(&bytes[5..14], b"test_txid");
    assert_eq!(OVTInstruction::decode(&bytes).unwrap(), ins);
}

#[test]
fn instruction_decode_rejects_malformed() {
    // Empty payload, unknown tag, truncated fields.
    assert!(OVTInstruction::decode(&[]).is_none());
    assert!(OVTInstruction::decode(&[3]).is_none());
    assert!(OVTInstruction::decode(&[0; 33]).is_none());
    assert!(OVTInstruction::decode(&[1; 8]).is_none());
    assert!(OVTInstruction::decode(&[2; 12]).is_none());
    // Length prefix that disagrees with the payload size.
    let mut bytes = vec![2u8];
    bytes.extend_from_slice(&5u32.to_le_bytes());
    bytes.extend_from_slice(b"abc");
    bytes.extend_from_slice(&0u64.to_le_bytes());
    assert!(OVTInstruction::decode(&bytes).is_none());
}

#[test]
fn instruction_decode_rejects_invalid_utf8() {
    // A transaction id must be UTF-8: 0xFF is never valid.
    let mut bytes = vec![2u8];
    bytes.extend_from_slice(&1u32.to_le_bytes());
    bytes.push(0xFF);
    bytes.extend_from_slice(&7u64.to_le_bytes());
    assert_eq!(bytes.len(), 14);
    assert!(OVTInstruction::decode(&bytes).is_none());
}

#[test]
fn claim_round_trip() {
    let claim = UtxoMeta {
        txid: "deadbeef".to_string(),
        vout: 3,
        amount: 250_000,
        script_pubkey: vec![0x51, 0x52, 0x53],
        confirmations: 9,
    };
    let bytes = claim.encode();
    let back = UtxoMeta::decode(&bytes).unwrap();
    assert_eq!(back, claim);
}

#[test]
fn claim_decode_rejects_malformed() {
    assert!(UtxoMeta::decode(&[]).is_none());
    assert!(UtxoMeta::decode(&[0u8; 23]).is_none());
    let claim = UtxoMeta {
        txid: "x".to_string(),
        vout: 0,
        amount: 1,
        script_pubkey: vec![],
        confirmations: 0,
    };
    let mut bytes = claim.encode();
    bytes.push(0);
    assert!(UtxoMeta::decode(&bytes).is_none());
}

#[test]
fn mint_record_round_trip() {
    let mint = Mint { authority: Pubkey([5u8; 32]), supply: 77, decimals: 8 };
    let bytes = mint.encode();
    assert_eq!(bytes.len(), 41);
    assert_eq!(Mint::decode(&bytes).unwrap(), mint);
    assert!(Mint::decode(&bytes[..40]).is_none());
}

#[test]
fn token_account_round_trip_with_options() {
    let full = TokenAccount {
        mint: Pubkey([1u8; 32]),
        owner: Pubkey([2u8; 32]),
        amount: 500,
        delegate: Some(Pubkey([3u8; 32])),
        state: 1,
        is_native: Some(10),
        delegated_amount: 25,
        close_authority: Some(Pubkey([4u8; 32])),
    };
    assert_eq!(TokenAccount::decode(&full.encode()).unwrap(), full);

    let empty = TokenAccount {
        mint: Pubkey([1u8; 32]),
        owner: Pubkey([2u8; 32]),
        amount: 0,
        delegate: None,
        state: 1,
        is_native: None,
        delegated_amount: 0,
        close_authority: None,
    };
    assert_eq!(TokenAccount::decode(&empty.encode()).unwrap(), empty);
}

#[test]
fn token_account_decode_rejects_bad_tags() {
    let empty = TokenAccount {
        mint: Pubkey([1u8; 32]),
        owner: Pubkey([2u8; 32]),
        amount: 0,
        delegate: None,
        state: 1,
        is_native: None,
        delegated_amount: 0,
        close_authority: None,
    };
    let mut bytes = empty.encode();
    bytes[72] = 2;
    assert!(TokenAccount::decode(&bytes).is_none());
    // A zero tag demands an all-zero payload.
    let mut bytes2 = empty.encode();
    bytes2[73] = 1;
    assert!(TokenAccount::decode(&bytes2).is_none());
}
