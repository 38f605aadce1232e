//! Model of the host account runtime.
//!
//! The core receives, for each instruction, a program identity, an ordered
//! list of account handles (identity key, signer flag, writable flag, raw
//! byte buffer, owning identity) and the raw instruction payload.  The types
//! here hold that data as plain values; an explicit admin list replaces any
//! ambient authorization capability, and mutation goes through exclusive
//! borrows scoped to one instruction.

use vstd::prelude::*;

use crate::error::{OVTError, ProgramError, ProgramResult};

verus! {

/// A 32-byte account identity key.
#[derive(Debug, Clone, Copy)]
pub struct Pubkey(pub [u8; 32]);

impl Pubkey {
    /// The all-zero key.
    pub fn new() -> (r: Self)
        ensures
            forall|i: int| 0 <= i < 32 ==> r.0@[i] == 0u8,
    {
        Pubkey([0u8; 32])
    }
}

impl PartialEq for Pubkey {
    fn eq(&self, other: &Pubkey) -> (r: bool) {
        let mut i: usize = 0;
        while i < 32
            invariant
                0 <= i <= 32,
                forall|j: int| 0 <= j < i ==> self.0@[j] == other.0@[j],
            decreases 32 - i,
        {
            if self.0[i] != other.0[i] {
                return false;
            }
            i += 1;
        }
        proof {
            assert(self.0 =~= other.0);
        }
        true
    }
}

impl vstd::std_specs::cmp::PartialEqSpecImpl for Pubkey {
    open spec fn obeys_eq_spec() -> bool {
        true
    }

    open spec fn eq_spec(&self, other: &Pubkey) -> bool {
        self.0 == other.0
    }
}

impl Eq for Pubkey {

}

/// True iff every byte of `s` is zero.
pub open spec fn all_zero(s: Seq<u8>) -> bool {
    forall|i: int| 0 <= i < s.len() ==> s[i] == 0u8
}

/// Number of confirmations the runtime model reports for any tracked output.
pub const TRACKED_CONFIRMATIONS: u32 = 6;

/// Identity of a tracked transaction output: transaction id plus output index.
#[derive(Debug, Clone, Copy)]
pub struct UtxoMeta {
    txid: [u8; 32],
    vout: u32,
}

/// Lifecycle states of a tracked transaction output.
#[derive(Debug, Clone, Copy, PartialEq, Eq, Structural)]
pub enum UtxoStatus {
    Pending,
    Active,
    Spent,
    Invalid,
}

impl UtxoMeta {
    pub closed spec fn spec_txid(&self) -> Seq<u8> {
        self.txid@
    }

    pub closed spec fn spec_vout(&self) -> u32 {
        self.vout
    }

    pub fn new(txid: [u8; 32], vout: u32) -> (r: Self)
        ensures
            r.spec_txid() == txid@,
            r.spec_vout() == vout,
    {
        UtxoMeta { txid, vout }
    }

    /// Reads a 32-byte transaction id followed by a little-endian output
    /// index from the first 36 bytes of `data`.
    pub fn from_slice(data: &[u8]) -> (r: Self)
        requires
            data@.len() >= 36,
        ensures
            r.spec_txid() == data@.subrange(0, 32),
            r.spec_vout() == vstd::bytes::spec_u32_from_le_bytes(data@.subrange(32, 36)),
    {
        let mut txid = [0u8; 32];
        let mut i: usize = 0;
        while i < 32
            invariant
                0 <= i <= 32,
                data@.len() >= 36,
                forall|j: int| 0 <= j < i ==> txid@[j] == data@[j],
            decreases 32 - i,
        {
            txid[i] = data[i];
            i += 1;
        }
        let vout = vstd::bytes::u32_from_le_bytes(vstd::slice::slice_subrange(data, 32, 36));
        proof {
            assert(txid@ =~= data@.subrange(0, 32));
        }
        UtxoMeta { txid, vout }
    }

    pub fn txid(&self) -> (r: &[u8; 32])
        ensures
            r@ == self.spec_txid(),
    {
        &self.txid
    }

    pub fn vout(&self) -> (r: u32)
        ensures
            r == self.spec_vout(),
    {
        self.vout
    }

    fn txid_is_zero(&self) -> (r: bool)
        ensures
            r == all_zero(self.spec_txid()),
    {
        let mut i: usize = 0;
        while i < 32
            invariant
                0 <= i <= 32,
                forall|j: int| 0 <= j < i ==> self.txid@[j] == 0u8,
            decreases 32 - i,
        {
            if self.txid[i] != 0 {
                return false;
            }
            i += 1;
        }
        true
    }

    /// A tracked output is acceptable when its id is not all zero and the
    /// confirmation count reported by the runtime meets the requested
    /// minimum.
    pub fn validate(&self, min_confirmations: u32) -> (r: Result<(), ProgramError>)
        ensures
            r is Ok <==> !all_zero(self.spec_txid()) && min_confirmations
                <= TRACKED_CONFIRMATIONS,
            all_zero(self.spec_txid()) ==> (r matches Err(ProgramError::Custom(m)) && m@
                == "Invalid UTXO: zero txid"@),
            !all_zero(self.spec_txid()) && min_confirmations > TRACKED_CONFIRMATIONS ==> (
            r matches Err(ProgramError::Custom(m)) && m@ == "Insufficient confirmations"@),
    {
        if self.txid_is_zero() {
            return Err(ProgramError::Custom("Invalid UTXO: zero txid".to_owned()));
        }
        if TRACKED_CONFIRMATIONS < min_confirmations {
            return Err(ProgramError::Custom("Insufficient confirmations".to_owned()));
        }
        Ok(())
    }

    /// An output with an all-zero id is invalid; any other tracked output is
    /// reported active.
    pub fn get_status(&self) -> (r: UtxoStatus)
        ensures
            r == (if all_zero(self.spec_txid()) {
                UtxoStatus::Invalid
            } else {
                UtxoStatus::Active
            }),
    {
        if self.txid_is_zero() {
            UtxoStatus::Invalid
        } else {
            UtxoStatus::Active
        }
    }
}

/// Spec-level value of an account handle: the same fields, with the raw
/// byte buffer abstracted to a byte sequence.
pub struct AccountModel {
    pub key: Pubkey,
    pub is_signer: bool,
    pub is_writable: bool,
    pub lamports: u64,
    pub data: Seq<u8>,
    pub owner: Pubkey,
    pub utxo: UtxoMeta,
}

/// An account handle: identity key, signer flag, writable flag, balance,
/// raw byte buffer and owning identity, plus the tracked output attached to
/// the account.
#[derive(Debug)]
pub struct AccountInfo {
    pub key: Pubkey,
    pub is_signer: bool,
    pub is_writable: bool,
    pub lamports: u64,
    pub data: Vec<u8>,
    pub owner: Pubkey,
    pub utxo: UtxoMeta,
}

impl View for AccountInfo {
    type V = AccountModel;

    open spec fn view(&self) -> AccountModel {
        AccountModel {
            key: self.key,
            is_signer: self.is_signer,
            is_writable: self.is_writable,
            lamports: self.lamports,
            data: self.data@,
            owner: self.owner,
            utxo: self.utxo,
        }
    }
}

impl Clone for AccountInfo {
    fn clone(&self) -> (r: Self)
        ensures
            r@ == self@,
    {
        AccountInfo {
            key: self.key,
            is_signer: self.is_signer,
            is_writable: self.is_writable,
            lamports: self.lamports,
            data: self.data.clone(),
            owner: self.owner,
            utxo: self.utxo,
        }
    }
}

impl AccountInfo {
    /// A fresh account with no balance, no data, the zero owner and no
    /// tracked output.
    pub fn new(key: Pubkey, is_signer: bool, is_writable: bool) -> (r: Self)
        ensures
            r.key == key,
            r.is_signer == is_signer,
            r.is_writable == is_writable,
            r.lamports == 0u64,
            r@.data == Seq::<u8>::empty(),
            all_zero(r.owner.0@),
            all_zero(r.utxo.spec_txid()),
            r.utxo.spec_vout() == 0u32,
    {
        let utxo = UtxoMeta::new([0u8; 32], 0);
        AccountInfo {
            key,
            is_signer,
            is_writable,
            lamports: 0,
            data: Vec::new(),
            owner: Pubkey::new(),
            utxo,
        }
    }

    pub fn validate_utxo(&self, min_confirmations: u32) -> (r: Result<(), ProgramError>)
        ensures
            r is Ok <==> !all_zero(self.utxo.spec_txid()) && min_confirmations
                <= TRACKED_CONFIRMATIONS,
    {
        self.utxo.validate(min_confirmations)
    }

    pub fn get_utxo_status(&self) -> (r: UtxoStatus)
        ensures
            r == (if all_zero(self.utxo.spec_txid()) {
                UtxoStatus::Invalid
            } else {
                UtxoStatus::Active
            }),
    {
        self.utxo.get_status()
    }
}

/// A typed wrapper around an account's deserialized contents.
#[derive(Debug, Clone)]
pub struct Account<T: Clone> {
    pub data: T,
}

/// Position of an account in an instruction's account list, with the flags
/// the transaction grants it.
#[derive(Debug, Clone, Copy)]
pub struct AccountMeta {
    pub pubkey: Pubkey,
    pub is_signer: bool,
    pub is_writable: bool,
}

impl AccountMeta {
    pub fn new(pubkey: Pubkey, is_writable: bool) -> (r: Self)
        ensures
            r.pubkey == pubkey,
            r.is_signer == false,
            r.is_writable == is_writable,
    {
        AccountMeta { pubkey, is_signer: false, is_writable }
    }

    pub fn new_readonly(pubkey: Pubkey, is_signer: bool) -> (r: Self)
        ensures
            r.pubkey == pubkey,
            r.is_signer == is_signer,
            r.is_writable == false,
    {
        AccountMeta { pubkey, is_signer, is_writable: false }
    }
}

/// Everything one instruction execution may read or write: the program
/// identity, the ordered account list, and the explicit list of admin keys
/// used by privileged handlers.
pub struct ProgramContext {
    pub program_id: Pubkey,
    pub accounts: Vec<AccountInfo>,
    pub admins: Vec<Pubkey>,
}

impl ProgramContext {
    /// A context with no admins configured: every privileged action is
    /// rejected.
    pub fn new(program_id: Pubkey, accounts: Vec<AccountInfo>) -> (r: Self)
        ensures
            r.program_id == program_id,
            r.accounts == accounts,
            r.admins@ == Seq::<Pubkey>::empty(),
    {
        ProgramContext { program_id, accounts, admins: Vec::new() }
    }

    /// A context carrying an explicit admin list.
    pub fn with_admins(program_id: Pubkey, accounts: Vec<AccountInfo>, admins: Vec<Pubkey>) -> (r:
        Self)
        ensures
            r.program_id == program_id,
            r.accounts == accounts,
            r.admins == admins,
    {
        ProgramContext { program_id, accounts, admins }
    }

    pub fn get(&self, index: usize) -> (r: Result<&AccountInfo, ProgramError>)
        ensures
            index < self.accounts@.len() ==> (r matches Ok(a) && *a == self.accounts@[index as int]),
            index >= self.accounts@.len() ==> r == Err::<&AccountInfo, ProgramError>(
                ProgramError::AccountNotFound,
            ),
    {
        if index < self.accounts.len() {
            Ok(&self.accounts[index])
        } else {
            Err(ProgramError::AccountNotFound)
        }
    }

    /// True iff `pubkey` is one of the configured admin keys.
    pub fn is_admin(&self, pubkey: &Pubkey) -> (r: bool)
        ensures
            r == self.admins@.contains(*pubkey),
    {
        let mut i: usize = 0;
        while i < self.admins.len()
            invariant
                0 <= i <= self.admins@.len(),
                forall|j: int| 0 <= j < i ==> self.admins@[j] != *pubkey,
            decreases self.admins@.len() - i,
        {
            if self.admins[i] == *pubkey {
                return true;
            }
            i += 1;
        }
        false
    }
}

/// A pay-to-pubkey-hash style script derived from an account key: a fixed
/// prefix, the first 20 bytes of the key, and a fixed suffix.
pub fn get_account_script_pubkey(pubkey: &Pubkey) -> (r: Vec<u8>)
    ensures
        r@ == seq![0x76u8, 0xa9u8, 0x14u8] + pubkey.0@.take(20) + seq![0x88u8, 0xacu8],
{
    let mut script: Vec<u8> = Vec::new();
    script.push(0x76);
    script.push(0xa9);
    script.push(0x14);
    let mut i: usize = 0;
    while i < 20
        invariant
            0 <= i <= 20,
            script@.len() == 3 + i,
            script@ =~= seq![0x76u8, 0xa9u8, 0x14u8] + pubkey.0@.take(i as int),
        decreases 20 - i,
    {
        script.push(pubkey.0[i]);
        proof {
            assert(script@ =~= seq![0x76u8, 0xa9u8, 0x14u8] + pubkey.0@.take(i + 1));
        }
        i += 1;
    }
    script.push(0x88);
    script.push(0xac);
    proof {
        assert(script@ =~= seq![0x76u8, 0xa9u8, 0x14u8] + pubkey.0@.take(20) + seq![
            0x88u8,
            0xacu8,
        ]);
    }
    script
}

/// Block height the runtime model reports.
pub fn get_bitcoin_block_height() -> (r: u32)
    ensures
        r == 123456u32,
{
    123456
}

/// A transaction prepared for signing: its serialized bytes and the inputs
/// that still need a signature.
#[derive(Debug)]
pub struct TransactionToSign {
    pub tx_bytes: Vec<u8>,
    pub inputs_to_sign: Vec<InputToSign>,
}

/// One input of a prepared transaction and the key expected to sign it.
#[derive(Debug)]
pub struct InputToSign {
    pub index: usize,
    pub signer: Pubkey,
}

impl AccountInfo {
    /// Reads the treasury state stored in this account's buffer.  Fails
    /// with `InvalidAccountData` when the buffer is not a state record.
    pub fn get_data(&self) -> (r: Result<crate::state::OVTState, ProgramError>)
        ensures
            r is Ok <==> self.data@.len() == crate::state::STATE_ENCODED_LEN,
            r matches Ok(s) ==> crate::state::spec_encode_state(s) == self.data@,
            r is Err ==> r == Err::<crate::state::OVTState, ProgramError>(
                ProgramError::InvalidAccountData,
            ),
    {
        if self.data.len() == 0 {
            return Err(ProgramError::InvalidAccountData);
        }
        match crate::state::OVTState::decode(self.data.as_slice()) {
            Some(s) => Ok(s),
            None => Err(ProgramError::InvalidAccountData),
        }
    }

    /// Replaces this account's buffer with the encoding of `state`.  Fails
    /// with `InvalidAccountData`, changing nothing, when the account is not
    /// writable.
    pub fn set_data(&mut self, state: &crate::state::OVTState) -> (r: Result<(), ProgramError>)
        ensures
            old(self).is_writable ==> r is Ok && final(self)@ == (AccountModel {
                data: crate::state::spec_encode_state(*state),
                ..old(self)@
            }),
            !old(self).is_writable ==> r == Err::<(), ProgramError>(ProgramError::InvalidAccountData)
                && *final(self) == *old(self),
    {
        if !self.is_writable {
            return Err(ProgramError::InvalidAccountData);
        }
        self.data = state.encode();
        Ok(())
    }
}

/// Accepts a prepared transaction for signing.  The runtime model records
/// nothing and always succeeds.
pub fn set_transaction_to_sign(accounts: &[AccountInfo], tx_to_sign: TransactionToSign) -> (r:
    ProgramResult)
    ensures
        r is Ok,
{
    let _ = accounts;
    let _ = tx_to_sign;
    Ok(())
}

} // verus!
