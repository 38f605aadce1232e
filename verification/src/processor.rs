//! The instruction dispatcher.
//!
//! Given an opcode-tagged payload and an ordered account list, the
//! dispatcher decodes exactly one instruction, verifies the designated
//! authority's signer flag, and routes to the matching handler.  Every
//! handler validates first and mutates last: an instruction either passes
//! every check and commits its full effect to the state account, or fails
//! with a typed error and leaves every account exactly as it was.
//!
//! The `*_outcome` spec functions below state, case by case, the exact
//! result and the exact post-state of each instruction as a function of the
//! pre-state; each handler's `ensures` is its outcome function.

use vstd::bytes::{spec_u32_from_le_bytes, spec_u64_from_le_bytes, spec_u64_to_le_bytes};
use vstd::prelude::*;

use crate::burn::{burn_amount, calculate_buyback_burn};
use crate::error::{ProgramError, ProgramResult};
use crate::instruction::{wf_instruction_encoding, OVTInstruction};
use crate::keys::key_parse_ok;
use crate::runtime::{AccountInfo, ProgramContext, Pubkey};
use crate::state::{
    lemma_state_encode_fields,
    nav_update_ok,
    spec_encode_state,
    spec_state_key,
    spec_state_last,
    spec_state_nav,
    spec_state_supply,
    supply_change_ok,
    OVTState,
    INITIAL_NAV_SATS,
    STATE_ENCODED_LEN,
};
use crate::system::{create_program_account, initialize_account};
use crate::utxo::{
    claim_amount_of,
    claim_confirmations_of,
    claim_script_of,
    verify_bitcoin_payment,
    verify_utxo_ownership,
    wf_claim_encoding,
    MIN_CLAIM_CONFIRMATIONS,
};

verus! {

/// Update marker written by the NAV handler.  The runtime model has no
/// clock; a deployment would take the host's timestamp here.
pub const NAV_UPDATE_MARK: u64 = 1000;

/// A program: one entry point that executes one instruction against a
/// context.
pub trait Program {
    fn process_instruction(ctx: &mut ProgramContext, data: &[u8]) -> ProgramResult;
}

/// The treasury program.
#[derive(Debug)]
pub struct OVTProgram;

/// `post` is `pre` with only the byte buffer replaced by `data`.
pub open spec fn same_but_data(pre: AccountInfo, post: AccountInfo, data: Seq<u8>) -> bool {
    &&& post.key == pre.key
    &&& post.is_signer == pre.is_signer
    &&& post.is_writable == pre.is_writable
    &&& post.lamports == pre.lamports
    &&& post.owner == pre.owner
    &&& post.utxo == pre.utxo
    &&& post.data@ == data
}

/// `post` is `pre` with the byte buffer replaced by `data` and the owner
/// replaced by `owner`.
pub open spec fn same_but_data_owner(
    pre: AccountInfo,
    post: AccountInfo,
    data: Seq<u8>,
    owner: Pubkey,
) -> bool {
    &&& post.key == pre.key
    &&& post.is_signer == pre.is_signer
    &&& post.is_writable == pre.is_writable
    &&& post.lamports == pre.lamports
    &&& post.owner == owner
    &&& post.utxo == pre.utxo
    &&& post.data@ == data
}

/// Every account except the one at `i` is unchanged.
pub open spec fn others_unchanged(pre: Seq<AccountInfo>, post: Seq<AccountInfo>, i: int) -> bool {
    post.len() == pre.len() && (forall|j: int| 0 <= j < pre.len() && j != i ==> post[j] == pre[j])
}

/// Encoding of the state record that `Initialize` writes: zero NAV, the
/// given claim key, zero supply, zero update marker.
pub open spec fn initial_state_bytes(key: Seq<u8>) -> Seq<u8> {
    spec_u64_to_le_bytes(0u64) + key + spec_u64_to_le_bytes(0u64) + spec_u64_to_le_bytes(0u64)
}

/// Exact result and post-state of `Initialize`, as a function of the
/// pre-state.  Accounts: 0 = state, 1 = authority, 2 = storage allocator.
pub open spec fn initialize_outcome(
    program_id: Pubkey,
    pre: Seq<AccountInfo>,
    post: Seq<AccountInfo>,
    r: ProgramResult,
    key: Seq<u8>,
) -> bool {
    if pre.len() < 3 {
        r == Err::<(), ProgramError>(ProgramError::AccountNotFound) && post == pre
    } else if !pre[1].is_signer {
        r == Err::<(), ProgramError>(ProgramError::MissingRequiredSignature) && post == pre
    } else if !pre[0].is_writable {
        r == Err::<(), ProgramError>(ProgramError::InvalidAccountData) && post == pre
    } else {
        &&& r is Ok
        &&& others_unchanged(pre, post, 0)
        &&& same_but_data_owner(pre[0], post[0], initial_state_bytes(key), program_id)
    }
}

/// Exact result and post-state of `UpdateNAV`.  Accounts: 0 = state,
/// 1 = authority.
pub open spec fn update_nav_outcome(
    pre: Seq<AccountInfo>,
    post: Seq<AccountInfo>,
    r: ProgramResult,
    price: u64,
) -> bool {
    let d = pre[0].data@;
    if pre.len() < 2 {
        r == Err::<(), ProgramError>(ProgramError::AccountNotFound) && post == pre
    } else if !pre[1].is_signer {
        r == Err::<(), ProgramError>(ProgramError::MissingRequiredSignature) && post == pre
    } else if d.len() != STATE_ENCODED_LEN {
        r == Err::<(), ProgramError>(ProgramError::InvalidAccountData) && post == pre
    } else if !nav_update_ok(spec_state_nav(d) as int, price as int, INITIAL_NAV_SATS as int) {
        r == Err::<(), ProgramError>(ProgramError::InvalidNAVUpdate) && post == pre
    } else if !pre[0].is_writable {
        r == Err::<(), ProgramError>(ProgramError::InvalidAccountData) && post == pre
    } else {
        &&& r is Ok
        &&& others_unchanged(pre, post, 0)
        &&& same_but_data(
            pre[0],
            post[0],
            spec_u64_to_le_bytes(price) + d.subrange(8, 49) + spec_u64_to_le_bytes(
                NAV_UPDATE_MARK,
            ),
        )
    }
}

/// Exact result and post-state of `BuybackBurn`.  Accounts: 0 = state,
/// 1 = authority, 2 = payment claim.
pub open spec fn buyback_outcome(
    program_id: Pubkey,
    admins: Seq<Pubkey>,
    pre: Seq<AccountInfo>,
    post: Seq<AccountInfo>,
    r: ProgramResult,
    amount: u64,
) -> bool {
    let d = pre[0].data@;
    let u = pre[2].data@;
    let burn = burn_amount(amount as int, spec_state_supply(d) as int, spec_state_nav(d) as int);
    if pre.len() < 3 {
        r == Err::<(), ProgramError>(ProgramError::AccountNotFound) && post == pre
    } else if !pre[1].is_signer {
        r == Err::<(), ProgramError>(ProgramError::MissingRequiredSignature) && post == pre
    } else if !admins.contains(pre[1].key) {
        r == Err::<(), ProgramError>(ProgramError::NotAnAdmin) && post == pre
    } else if d.len() != STATE_ENCODED_LEN {
        r == Err::<(), ProgramError>(ProgramError::InvalidAccountData) && post == pre
    } else if !key_parse_ok(spec_state_key(d)) {
        r == Err::<(), ProgramError>(ProgramError::InvalidTreasuryKey) && post == pre
    } else if pre[2].owner != program_id {
        r == Err::<(), ProgramError>(ProgramError::UTXOVerificationFailed) && post == pre
    } else if !wf_claim_encoding(u) {
        r == Err::<(), ProgramError>(ProgramError::InvalidAccountData) && post == pre
    } else if claim_script_of(u) != spec_state_key(d) {
        r == Err::<(), ProgramError>(ProgramError::InvalidBitcoinPayment) && post == pre
    } else if claim_confirmations_of(u) < MIN_CLAIM_CONFIRMATIONS {
        r == Err::<(), ProgramError>(ProgramError::InsufficientConfirmations) && post == pre
    } else if claim_amount_of(u) < amount {
        r == Err::<(), ProgramError>(ProgramError::InsufficientFunds) && post == pre
    } else if spec_state_nav(d) == 0 {
        r == Err::<(), ProgramError>(ProgramError::InvalidNAVUpdate) && post == pre
    } else if burn > spec_state_supply(d) {
        r == Err::<(), ProgramError>(ProgramError::InvalidSupplyChange) && post == pre
    } else if !supply_change_ok(spec_state_supply(d) as int, spec_state_supply(d) - burn) {
        r == Err::<(), ProgramError>(ProgramError::InvalidSupplyChange) && post == pre
    } else if !pre[0].is_writable {
        r == Err::<(), ProgramError>(ProgramError::InvalidAccountData) && post == pre
    } else {
        &&& r is Ok
        &&& others_unchanged(pre, post, 0)
        &&& same_but_data(
            pre[0],
            post[0],
            d.subrange(0, 41) + spec_u64_to_le_bytes((spec_state_supply(d) - burn) as u64)
                + d.subrange(49, 57),
        )
    }
}

/// Exact result and post-state of one dispatched instruction, as a
/// function of the raw payload.
pub open spec fn dispatch_outcome(
    program_id: Pubkey,
    admins: Seq<Pubkey>,
    pre: Seq<AccountInfo>,
    post: Seq<AccountInfo>,
    r: ProgramResult,
    data: Seq<u8>,
) -> bool {
    if !wf_instruction_encoding(data) {
        r == Err::<(), ProgramError>(ProgramError::InvalidInstructionData) && post == pre
    } else if data[0] == 0u8 {
        initialize_outcome(program_id, pre, post, r, data.subrange(1, 34))
    } else if data[0] == 1u8 {
        update_nav_outcome(pre, post, r, spec_u64_from_le_bytes(data.subrange(1, 9)))
    } else {
        let n = spec_u32_from_le_bytes(data.subrange(1, 5)) as int;
        buyback_outcome(
            program_id,
            admins,
            pre,
            post,
            r,
            spec_u64_from_le_bytes(data.subrange(5 + n, 13 + n)),
        )
    }
}

/// Rejection is atomic: whenever a dispatched instruction fails, every
/// account is exactly as it was before the instruction began.
pub proof fn lemma_rejection_leaves_accounts_unchanged(
    program_id: Pubkey,
    admins: Seq<Pubkey>,
    pre: Seq<AccountInfo>,
    post: Seq<AccountInfo>,
    r: ProgramResult,
    data: Seq<u8>,
)
    requires
        dispatch_outcome(program_id, admins, pre, post, r, data),
        r is Err,
    ensures
        post == pre,
{
}

/// Every NAV update the dispatcher accepts against an initialized state
/// satisfies the single-step bound (the ratio of new to old NAV lies in
/// `[0.2, 5.0]`, decided by cross multiplication) and the cumulative bound
/// against the genesis baseline (the ratio lies in `[0.05, 41.0]`); an
/// update violating either bound is rejected with `InvalidNAVUpdate` and
/// every account is left exactly as it was.
pub proof fn lemma_nav_guard_enforced(
    pre: Seq<AccountInfo>,
    post: Seq<AccountInfo>,
    r: ProgramResult,
    price: u64,
)
    requires
        update_nav_outcome(pre, post, r, price),
        pre.len() >= 2,
        pre[1].is_signer,
        pre[0].data@.len() == STATE_ENCODED_LEN,
    ensures
        r is Ok && spec_state_nav(pre[0].data@) != 0 ==> ({
            let nav = spec_state_nav(pre[0].data@) as int;
            &&& 5 * price >= nav
            &&& price as int <= 5 * nav
            &&& 20 * price >= INITIAL_NAV_SATS as int
            &&& price as int <= 41 * (INITIAL_NAV_SATS as int)
        }),
        !nav_update_ok(spec_state_nav(pre[0].data@) as int, price as int, INITIAL_NAV_SATS as int)
            ==> r == Err::<(), ProgramError>(ProgramError::InvalidNAVUpdate) && post == pre,
{
}

/// Every supply change the dispatcher commits keeps the ratio of new to
/// old supply within `[0.9, 1.1]` (decided by cross multiplication), or
/// starts from a zero supply.
pub proof fn lemma_supply_guard_enforced(
    program_id: Pubkey,
    admins: Seq<Pubkey>,
    pre: Seq<AccountInfo>,
    post: Seq<AccountInfo>,
    r: ProgramResult,
    amount: u64,
)
    requires
        buyback_outcome(program_id, admins, pre, post, r, amount),
        pre.len() >= 3,
    ensures
        r is Ok ==> ({
            let d = pre[0].data@;
            let s = spec_state_supply(d) as int;
            let ns = s - burn_amount(amount as int, s, spec_state_nav(d) as int);
            s == 0 || (10 * ns >= 9 * s && 10 * ns <= 11 * s)
        }),
{
}

impl OVTProgram {
    /// Allocates the state account and writes the initial record: zero
    /// NAV, the given treasury claim key, zero supply.
    pub fn process_initialize(ctx: &mut ProgramContext, treasury_pubkey_bytes: [u8; 33]) -> (r:
        ProgramResult)
        ensures
            final(ctx).program_id == old(ctx).program_id,
            final(ctx).admins == old(ctx).admins,
            initialize_outcome(
                old(ctx).program_id,
                old(ctx).accounts@,
                final(ctx).accounts@,
                r,
                treasury_pubkey_bytes@,
            ),
    {
        if ctx.accounts.len() < 3 {
            return Err(ProgramError::AccountNotFound);
        }
        if !ctx.accounts[1].is_signer {
            return Err(ProgramError::MissingRequiredSignature);
        }
        if !ctx.accounts[0].is_writable {
            return Err(ProgramError::InvalidAccountData);
        }
        let program_id = ctx.program_id;
        let state = OVTState {
            nav_sats: 0,
            treasury_pubkey_bytes,
            total_supply: 0,
            last_nav_update: 0,
        };
        let state_info = &mut ctx.accounts[0];
        match create_program_account(&program_id, state_info, STATE_ENCODED_LEN as u64) {
            Ok(()) => (),
            Err(e) => {
                return Err(e);
            },
        }
        match initialize_account(&program_id, state_info, &state) {
            Ok(()) => (),
            Err(e) => {
                return Err(e);
            },
        }
        proof {
            lemma_state_encode_fields(state);
            assert(spec_encode_state(state) =~= initial_state_bytes(treasury_pubkey_bytes@));
        }
        Ok(())
    }

    /// Runs the NAV guard and, when it accepts, sets the new NAV and bumps
    /// the update marker.
    pub fn process_update_nav(ctx: &mut ProgramContext, btc_price_sats: u64) -> (r: ProgramResult)
        ensures
            final(ctx).program_id == old(ctx).program_id,
            final(ctx).admins == old(ctx).admins,
            update_nav_outcome(old(ctx).accounts@, final(ctx).accounts@, r, btc_price_sats),
    {
        if ctx.accounts.len() < 2 {
            return Err(ProgramError::AccountNotFound);
        }
        if !ctx.accounts[1].is_signer {
            return Err(ProgramError::MissingRequiredSignature);
        }
        let ghost d = ctx.accounts@[0].data@;
        let state = match ctx.accounts[0].get_data() {
            Ok(s) => s,
            Err(e) => {
                return Err(e);
            },
        };
        proof {
            lemma_state_encode_fields(state);
        }
        match state.validate_nav_update(btc_price_sats) {
            Ok(()) => (),
            Err(e) => {
                return Err(e);
            },
        }
        let mut new_state = state;
        new_state.nav_sats = btc_price_sats;
        new_state.last_nav_update = NAV_UPDATE_MARK;
        let state_info = &mut ctx.accounts[0];
        let result = state_info.set_data(&new_state);
        proof {
            if old(ctx).accounts@[0].is_writable {
                vstd::bytes::lemma_auto_spec_u64_to_from_le_bytes();
                lemma_state_encode_fields(new_state);
                assert(d == spec_encode_state(state));
                assert(d.subrange(8, 41) == state.treasury_pubkey_bytes@);
                assert(d.subrange(41, 49) =~= spec_u64_to_le_bytes(state.total_supply)) by {
                    assert(spec_state_supply(d) == state.total_supply);
                    assert(spec_u64_to_le_bytes(spec_u64_from_le_bytes(d.subrange(41, 49)))
                        == d.subrange(41, 49));
                }
                assert(d.subrange(8, 49) =~= d.subrange(8, 41) + d.subrange(41, 49));
                assert(spec_encode_state(new_state) =~= spec_u64_to_le_bytes(btc_price_sats)
                    + d.subrange(8, 49) + spec_u64_to_le_bytes(NAV_UPDATE_MARK));
            } else {
                assert(final(ctx).accounts@ =~= old(ctx).accounts@);
            }
        }
        result
    }

    /// Verifies the Bitcoin payment claim, computes the burn, runs the
    /// supply guard and, when every check passes, decrements the supply.
    pub fn process_buyback_burn(
        ctx: &mut ProgramContext,
        _payment_txid: &str,
        payment_amount_sats: u64,
    ) -> (r: ProgramResult)
        ensures
            final(ctx).program_id == old(ctx).program_id,
            final(ctx).admins == old(ctx).admins,
            buyback_outcome(
                old(ctx).program_id,
                old(ctx).admins@,
                old(ctx).accounts@,
                final(ctx).accounts@,
                r,
                payment_amount_sats,
            ),
    {
        if ctx.accounts.len() < 3 {
            return Err(ProgramError::AccountNotFound);
        }
        if !ctx.accounts[1].is_signer {
            return Err(ProgramError::MissingRequiredSignature);
        }
        let authority_key = ctx.accounts[1].key;
        if !ctx.is_admin(&authority_key) {
            return Err(ProgramError::NotAnAdmin);
        }
        let ghost d = ctx.accounts@[0].data@;
        let state = match ctx.accounts[0].get_data() {
            Ok(s) => s,
            Err(e) => {
                return Err(e);
            },
        };
        proof {
            lemma_state_encode_fields(state);
        }
        match state.validate_treasury() {
            Ok(()) => (),
            Err(e) => {
                return Err(e);
            },
        }
        let program_id = ctx.program_id;
        match verify_utxo_ownership(&ctx.accounts[2], &program_id) {
            Ok(()) => (),
            Err(e) => {
                return Err(e);
            },
        }
        match verify_bitcoin_payment(
            &ctx.accounts[2],
            payment_amount_sats,
            &state.treasury_pubkey_bytes,
        ) {
            Ok(_payment) => (),
            Err(e) => {
                return Err(e);
            },
        }
        let (ovt_to_burn, new_supply) = match calculate_buyback_burn(
            payment_amount_sats,
            state.total_supply,
            state.nav_sats,
        ) {
            Ok(p) => p,
            Err(e) => {
                return Err(e.to_program_error());
            },
        };
        match state.validate_supply_change(new_supply) {
            Ok(()) => (),
            Err(e) => {
                return Err(e);
            },
        }
        let mut new_state = state;
        new_state.total_supply = new_supply;
        let state_info = &mut ctx.accounts[0];
        let result = state_info.set_data(&new_state);
        proof {
            let burn = burn_amount(
                payment_amount_sats as int,
                spec_state_supply(d) as int,
                spec_state_nav(d) as int,
            );
            if old(ctx).accounts@[0].is_writable {
                vstd::bytes::lemma_auto_spec_u64_to_from_le_bytes();
                lemma_state_encode_fields(new_state);
                assert(d == spec_encode_state(state));
                assert(new_supply as int == spec_state_supply(d) - burn);
                assert(d.subrange(0, 8) =~= spec_u64_to_le_bytes(state.nav_sats)) by {
                    assert(spec_state_nav(d) == state.nav_sats);
                    assert(spec_u64_to_le_bytes(spec_u64_from_le_bytes(d.subrange(0, 8)))
                        == d.subrange(0, 8));
                }
                assert(d.subrange(8, 41) == state.treasury_pubkey_bytes@);
                assert(d.subrange(49, 57) =~= spec_u64_to_le_bytes(state.last_nav_update)) by {
                    assert(spec_state_last(d) == state.last_nav_update);
                    assert(spec_u64_to_le_bytes(spec_u64_from_le_bytes(d.subrange(49, 57)))
                        == d.subrange(49, 57));
                }
                assert(d.subrange(0, 41) =~= d.subrange(0, 8) + d.subrange(8, 41));
                assert(spec_encode_state(new_state) =~= d.subrange(0, 41) + spec_u64_to_le_bytes(
                    (spec_state_supply(d) - burn) as u64,
                ) + d.subrange(49, 57));
            } else {
                assert(final(ctx).accounts@ =~= old(ctx).accounts@);
            }
        }
        result
    }

    /// Decodes one instruction and routes it to its handler.  A payload
    /// that is not the encoding of any instruction is rejected without
    /// reading any account.
    pub fn process(ctx: &mut ProgramContext, data: &[u8]) -> (r: ProgramResult)
        ensures
            final(ctx).program_id == old(ctx).program_id,
            final(ctx).admins == old(ctx).admins,
            dispatch_outcome(
                old(ctx).program_id,
                old(ctx).admins@,
                old(ctx).accounts@,
                final(ctx).accounts@,
                r,
                data@,
            ),
    {
        let instruction = match OVTInstruction::decode(data) {
            Some(i) => i,
            None => {
                return Err(ProgramError::InvalidInstructionData);
            },
        };
        proof {
            vstd::bytes::lemma_auto_spec_u64_to_from_le_bytes();
            vstd::bytes::lemma_auto_spec_u32_to_from_le_bytes();
        }
        match instruction {
            OVTInstruction::Initialize { treasury_pubkey_bytes } => {
                proof {
                    assert(treasury_pubkey_bytes@ =~= data@.subrange(1, 34));
                }
                Self::process_initialize(ctx, treasury_pubkey_bytes)
            },
            OVTInstruction::UpdateNAV { btc_price_sats } => {
                proof {
                    assert(data@.subrange(1, 9) =~= spec_u64_to_le_bytes(btc_price_sats));
                }
                Self::process_update_nav(ctx, btc_price_sats)
            },
            OVTInstruction::BuybackBurn { payment_txid, payment_amount_sats } => {
                proof {
                    let e = vstd::utf8::encode_utf8(payment_txid@);
                    let n = e.len() as int;
                    assert(data@.subrange(1, 5) =~= vstd::bytes::spec_u32_to_le_bytes(
                        e.len() as u32,
                    ));
                    assert(spec_u32_from_le_bytes(data@.subrange(1, 5)) as int == n);
                    assert(data@.subrange(5 + n, 13 + n) =~= spec_u64_to_le_bytes(
                        payment_amount_sats,
                    ));
                }
                Self::process_buyback_burn(ctx, payment_txid.as_str(), payment_amount_sats)
            },
        }
    }
}

impl Program for OVTProgram {
    fn process_instruction(ctx: &mut ProgramContext, data: &[u8]) -> ProgramResult {
        OVTProgram::process(ctx, data)
    }
}

/// Entry point: builds a context with no admins configured and executes
/// one instruction against the given accounts.
pub fn process_instruction(
    program_id: &Pubkey,
    accounts: &mut Vec<AccountInfo>,
    instruction_data: &[u8],
) -> (r: ProgramResult)
    ensures
        dispatch_outcome(
            *program_id,
            Seq::<Pubkey>::empty(),
            old(accounts)@,
            final(accounts)@,
            r,
            instruction_data@,
        ),
{
    let mut local: Vec<AccountInfo> = Vec::new();
    core::mem::swap(accounts, &mut local);
    let mut ctx = ProgramContext::new(*program_id, local);
    let r = OVTProgram::process(&mut ctx, instruction_data);
    core::mem::swap(accounts, &mut ctx.accounts);
    r
}

} // verus!
