//! UTXO payment verification and treasury key validation.

use ovt_program::error::ProgramError;
use ovt_program::runtime::{AccountInfo, Pubkey, UtxoMeta as TrackedOutput};
use ovt_program::state::OVTState;
use ovt_program::utxo::{verify_bitcoin_payment, verify_utxo_ownership, UtxoMeta};

/// A well-formed compressed secp256k1 public key (the generator point).
const GENERATOR_KEY: [u8; 33] = [
    0x02, 0x79, 0xBE, 0x66, 0x7E, 0xF9, 0xDC, 0xBB, 0xAC, 0x55, 0xA0, 0x62, 0x95, 0xCE, 0x87,
    0x0B, 0x07, 0x02, 0x9B, 0xFC, 0xDB, 0x2D, 0xCE, 0x28, 0xD9, 0x59, 0xF2, 0x81, 0x5B, 0x16,
    0xF8, 0x17, 0x98,
];

fn claim_account(owner: Pubkey, claim: &UtxoMeta) -> AccountInfo {
    AccountInfo {
        key: Pubkey([42u8; 32]),
        is_signer: false,
        is_writable: false,
        lamports: 0,
        data: claim.encode(),
        owner,
        utxo: TrackedOutput::new([0u8; 32], 0),
    }
}

fn valid_claim() -> UtxoMeta {
    UtxoMeta {
        txid: "payment_txid".to_string(),
        vout: 0,
        amount: 100_000,
        script_pubkey: GENERATOR_KEY.to_vec(),
        confirmations: 6,
    }
}

#[test]
fn treasury_key_round_trip() {
    // A key parsed from bytes serializes back to the same bytes.
    let state = OVTState {
        nav_sats: 1,
        treasury_pubkey_bytes: GENERATOR_KEY,
        total_supply: 2,
        last_nav_update: 3,
    };
    let key = state.get_treasury_pubkey().unwrap();
    let mut other = OVTState {
        nav_sats: 1,
        treasury_pubkey_bytes: [0u8; 33],
        total_supply: 2,
        last_nav_update: 3,
    };
    assert!(other.get_treasury_pubkey().is_err());
    other.set_treasury_pubkey(&key);
    assert_eq!(other.treasury_pubkey_bytes, GENERATOR_KEY);
    assert!(other.validate_treasury().is_ok());
}

#[test]
fn treasury_key_validation() {
    // The generator point parses as a public key; an all-zero buffer and
    // a bad prefix do not.
    let good = OVTState {
        nav_sats: 0,
        treasury_pubkey_bytes: GENERATOR_KEY,
        total_supply: 0,
        last_nav_update: 0,
    };
    assert!(good.validate_treasury().is_ok());

    let zero = OVTState { treasury_pubkey_bytes: [0u8; 33], ..good };
    assert_eq!(zero.validate_treasury(), Err(ProgramError::InvalidTreasuryKey));

    let mut bad_prefix = GENERATOR_KEY;
    bad_prefix[0] = 0x04;
    let bad = OVTState { treasury_pubkey_bytes: bad_prefix, ..good };
    assert_eq!(bad.validate_treasury(), Err(ProgramError::InvalidTreasuryKey));
}

#[test]
fn wrong_owner_key_rejected_regardless_of_amount() {
    // A claim whose owning key differs from the treasury key is rejected
    // even when the amount is enormous.
    let mut claim = valid_claim();
    claim.script_pubkey = vec![0x03; 33];
    claim.amount = u64::MAX;
    let account = claim_account(Pubkey([1u8; 32]), &claim);
    let err = verify_bitcoin_payment(&account, 1, &GENERATOR_KEY).unwrap_err();
    assert_eq!(err, ProgramError::InvalidBitcoinPayment);
}

#[test]
fn low_amount_rejected_with_insufficient_funds() {
    let mut claim = valid_claim();
    claim.amount = 99_999;
    let account = claim_account(Pubkey([1u8; 32]), &claim);
    let err = verify_bitcoin_payment(&account, 100_000, &GENERATOR_KEY).unwrap_err();
    assert_eq!(err, ProgramError::InsufficientFunds);
}

#[test]
fn shallow_confirmations_rejected() {
    let mut claim = valid_claim();
    claim.confirmations = 5;
    let account = claim_account(Pubkey([1u8; 32]), &claim);
    let err = verify_bitcoin_payment(&account, 100_000, &GENERATOR_KEY).unwrap_err();
    assert_eq!(err, ProgramError::InsufficientConfirmations);
}

#[test]
fn valid_claim_accepted_with_its_amount() {
    let claim = valid_claim();
    let account = claim_account(Pubkey([1u8; 32]), &claim);
    let payment = verify_bitcoin_payment(&account, 100_000, &GENERATOR_KEY).unwrap();
    assert_eq!(payment.amount_sats, 100_000);
    assert_eq!(payment.txid, "payment_txid");
    assert_eq!(payment.utxo, claim);
}

#[test]
fn undecodable_claim_rejected() {
    let mut account = claim_account(Pubkey([1u8; 32]), &valid_claim());
    account.data = vec![1, 2, 3];
    let err = verify_bitcoin_payment(&account, 1, &GENERATOR_KEY).unwrap_err();
    assert_eq!(err, ProgramError::InvalidAccountData);
}

#[test]
fn ownership_check_compares_account_owner() {
    let program_id = Pubkey([9u8; 32]);
    let account = claim_account(program_id, &valid_claim());
    assert!(verify_utxo_ownership(&account, &program_id).is_ok());
    let err = verify_utxo_ownership(&account, &Pubkey([8u8; 32])).unwrap_err();
    assert_eq!(err, ProgramError::UTXOVerificationFailed);
}
