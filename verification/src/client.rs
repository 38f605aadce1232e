//! Client-side helpers for composing and submitting instructions.
//!
//! `Client` models the submission endpoint: it accepts transactions and
//! acknowledges them without contacting any network.  `OVTClient` builds
//! correctly encoded instructions for each operation of the program.

use vstd::prelude::*;

use crate::error::ProgramError;
use crate::instruction::{instruction_encodable, spec_encode_instruction, OVTInstruction};
use crate::runtime::{all_zero, AccountMeta, Pubkey};
use vstd::utf8::encode_utf8;

verus! {

pub type ClientResult<T> = Result<T, ProgramError>;

/// A detached transaction signature.
#[derive(Debug)]
pub struct Signature(pub [u8; 64]);

impl Default for Signature {
    /// The all-zero signature.
    fn default() -> (r: Self)
        ensures
            all_zero(r.0@),
    {
        Signature([0u8; 64])
    }
}

/// One instruction ready for submission: the program it targets, the
/// accounts it names, and its encoded payload.
#[derive(Debug)]
pub struct Instruction {
    pub program_id: Pubkey,
    pub accounts: Vec<AccountMeta>,
    pub data: Vec<u8>,
}

impl Clone for Instruction {
    fn clone(&self) -> (r: Self)
        ensures
            r.program_id == self.program_id,
            r.accounts@ == self.accounts@,
            r.data@ == self.data@,
    {
        let mut accounts: Vec<AccountMeta> = Vec::new();
        let mut i: usize = 0;
        while i < self.accounts.len()
            invariant
                0 <= i <= self.accounts@.len(),
                accounts@ == self.accounts@.take(i as int),
            decreases self.accounts@.len() - i,
        {
            accounts.push(self.accounts[i]);
            proof {
                assert(accounts@ =~= self.accounts@.take(i + 1));
            }
            i += 1;
        }
        proof {
            assert(accounts@ =~= self.accounts@);
        }
        Instruction { program_id: self.program_id, accounts, data: self.data.clone() }
    }
}

impl Instruction {
    /// An instruction whose payload is the canonical encoding of `data`.
    pub fn new_with_payload(
        program_id: Pubkey,
        data: &OVTInstruction,
        accounts: Vec<AccountMeta>,
    ) -> (r: Self)
        requires
            instruction_encodable(*data),
        ensures
            r.program_id == program_id,
            r.accounts == accounts,
            r.data@ == spec_encode_instruction(*data),
    {
        Instruction { program_id, accounts, data: data.encode() }
    }
}

/// A submission endpoint.  This model accepts everything it is handed and
/// performs no network activity.
pub struct Client {
    pub program_id: Pubkey,
}

impl Client {
    pub fn new(program_id: Pubkey) -> (r: Self)
        ensures
            r.program_id == program_id,
    {
        Client { program_id }
    }

    /// The endpoint model reports the zero blockhash.
    pub fn get_latest_blockhash(&self) -> (r: ClientResult<[u8; 32]>)
        ensures
            r matches Ok(h) && all_zero(h@),
    {
        Ok([0u8; 32])
    }

    /// Accepts a transaction and acknowledges it with the default
    /// signature.
    pub fn send_and_confirm_transaction(&self, tx: &Transaction) -> (r: ClientResult<Signature>)
        ensures
            r is Ok,
    {
        let _ = tx;
        Ok(Signature::default())
    }
}

/// A signing keypair.  The model knows only the zero key.
pub struct Keypair;

impl Keypair {
    pub fn pubkey(&self) -> (r: Pubkey)
        ensures
            all_zero(r.0@),
    {
        Pubkey::new()
    }
}

/// A signed transaction: the instructions it carries.
pub struct Transaction {
    pub program_id: Pubkey,
    pub instructions: Vec<Instruction>,
}

impl Transaction {
    /// A transaction carrying copies of the given instructions.
    pub fn new_signed_with_payer(
        instructions: &[Instruction],
        payer: Option<&Pubkey>,
        signers: &[&Keypair],
        recent_blockhash: [u8; 32],
    ) -> (r: Self)
        ensures
            r.instructions@.len() == instructions@.len(),
    {
        let _ = payer;
        let _ = signers;
        let _ = recent_blockhash;
        let mut copied: Vec<Instruction> = Vec::new();
        let mut i: usize = 0;
        while i < instructions.len()
            invariant
                0 <= i <= instructions@.len(),
                copied@.len() == i,
            decreases instructions@.len() - i,
        {
            copied.push(instructions[i].clone());
            i += 1;
        }
        Transaction { program_id: Pubkey::new(), instructions: copied }
    }
}

/// A high-level client that composes one instruction per operation and
/// submits it.
pub struct OVTClient {
    pub program_id: Pubkey,
    pub mint: Pubkey,
    pub metadata: Pubkey,
    pub treasury: Pubkey,
    pub authority: Keypair,
}

impl OVTClient {
    pub fn new(
        program_id: Pubkey,
        mint: Pubkey,
        metadata: Pubkey,
        treasury: Pubkey,
        authority: Keypair,
    ) -> (r: Self)
        ensures
            r.program_id == program_id,
            r.mint == mint,
            r.metadata == metadata,
            r.treasury == treasury,
    {
        OVTClient { program_id, mint, metadata, treasury, authority }
    }

    /// Submits an `Initialize` instruction with the zero treasury key.
    pub fn initialize(&self, client: &Client) -> (r: ClientResult<Signature>)
        ensures
            r is Ok,
    {
        let instruction = OVTInstruction::Initialize { treasury_pubkey_bytes: [0u8; 33] };
        let accounts = vec![
            AccountMeta::new(self.mint, false),
            AccountMeta::new(self.metadata, false),
            AccountMeta::new(self.treasury, false),
            AccountMeta::new_readonly(self.authority.pubkey(), true),
        ];
        let ix = Instruction::new_with_payload(self.program_id, &instruction, accounts);
        let blockhash = match client.get_latest_blockhash() {
            Ok(h) => h,
            Err(e) => {
                return Err(e);
            },
        };
        let ixs = vec![ix];
        let tx = Transaction::new_signed_with_payer(ixs.as_slice(), None, &[], blockhash);
        client.send_and_confirm_transaction(&tx)
    }

    /// Submits an `UpdateNAV` instruction.
    pub fn update_nav(&self, client: &Client, btc_price_sats: u64) -> (r: ClientResult<Signature>)
        ensures
            r is Ok,
    {
        let instruction = OVTInstruction::UpdateNAV { btc_price_sats };
        let accounts = vec![
            AccountMeta::new(self.mint, false),
            AccountMeta::new_readonly(self.authority.pubkey(), true),
        ];
        let ix = Instruction::new_with_payload(self.program_id, &instruction, accounts);
        let blockhash = match client.get_latest_blockhash() {
            Ok(h) => h,
            Err(e) => {
                return Err(e);
            },
        };
        let ixs = vec![ix];
        let tx = Transaction::new_signed_with_payer(ixs.as_slice(), None, &[], blockhash);
        client.send_and_confirm_transaction(&tx)
    }

    /// Submits a `BuybackBurn` instruction.
    pub fn buyback_burn(
        &self,
        client: &Client,
        payment_txid: String,
        payment_amount_sats: u64,
    ) -> (r: ClientResult<Signature>)
        requires
            encode_utf8(payment_txid@).len() <= u32::MAX,
        ensures
            r is Ok,
    {
        let instruction = OVTInstruction::BuybackBurn { payment_txid, payment_amount_sats };
        let accounts = vec![
            AccountMeta::new(self.mint, false),
            AccountMeta::new(self.metadata, false),
            AccountMeta::new(self.treasury, false),
            AccountMeta::new_readonly(self.authority.pubkey(), true),
        ];
        let ix = Instruction::new_with_payload(self.program_id, &instruction, accounts);
        let blockhash = match client.get_latest_blockhash() {
            Ok(h) => h,
            Err(e) => {
                return Err(e);
            },
        };
        let ixs = vec![ix];
        let tx = Transaction::new_signed_with_payer(ixs.as_slice(), None, &[], blockhash);
        client.send_and_confirm_transaction(&tx)
    }

    /// Acknowledges a purchase.  The endpoint model performs no transfer.
    pub fn buy_ovt(
        &self,
        buyer_token_account: Pubkey,
        amount: u64,
        payment_proof: Vec<u8>,
    ) -> (r: ClientResult<Signature>)
        ensures
            r is Ok,
    {
        let _ = buyer_token_account;
        let _ = amount;
        let _ = payment_proof;
        Ok(Signature::default())
    }

    /// Acknowledges a sale.  The endpoint model performs no transfer.
    pub fn sell_ovt(
        &self,
        seller_token_account: Pubkey,
        amount: u64,
        btc_address: String,
    ) -> (r: ClientResult<Signature>)
        ensures
            r is Ok,
    {
        let _ = seller_token_account;
        let _ = amount;
        let _ = btc_address;
        Ok(Signature::default())
    }
}

} // verus!
