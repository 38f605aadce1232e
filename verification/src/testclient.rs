//! An in-process client for exercising the program.
//!
//! The client owns an explicit account store keyed by account identity,
//! the admin key list and the authorizer's pending actions.  Executing a
//! transaction builds a context from the store under exclusive borrows,
//! dispatches one instruction, and copies the effects of writable accounts
//! back into the store only when the instruction succeeded: a failed
//! instruction leaves the store untouched.

use vstd::pervasive::VecAdditionalExecFns;
use vstd::prelude::*;

use crate::error::{ProgramError, ProgramResult};
use crate::multisig::{
    actions_extend,
    actions_wf,
    action_index,
    check_action_authorized,
    record_action_signature,
    spec_is_authorized,
    AdminAction,
    REQUIRED_SIGNATURES,
    TOTAL_ADMINS,
};
use crate::processor::{dispatch_outcome, OVTProgram};
use crate::runtime::{all_zero, AccountInfo, AccountMeta, ProgramContext, Pubkey, UtxoMeta};
use crate::state::{spec_encode_state, OVTState, STATE_ENCODED_LEN};
use crate::token::{
    spec_encode_mint,
    spec_encode_token_account,
    wf_token_account_encoding,
    Mint,
    TokenAccount,
};

verus! {

/// A caller-side reference to a stored account.
#[derive(Debug, Clone, Copy)]
pub struct AccountHandle {
    pub key: Pubkey,
    pub is_signer: bool,
    pub is_writable: bool,
}

/// Index of the first stored account with identity `key`, or -1.
pub open spec fn find_account(accounts: Seq<AccountInfo>, key: Pubkey) -> int
    decreases accounts.len(),
{
    if accounts.len() == 0 {
        -1
    } else if accounts[0].key == key {
        0
    } else {
        let rest = find_account(accounts.drop_first(), key);
        if rest == -1 {
            -1
        } else {
            rest + 1
        }
    }
}

/// `find_account` returns the first matching index.
pub proof fn lemma_find_account_first(accounts: Seq<AccountInfo>, key: Pubkey, k: int)
    requires
        0 <= k < accounts.len(),
        accounts[k].key == key,
        forall|j: int| 0 <= j < k ==> accounts[j].key != key,
    ensures
        find_account(accounts, key) == k,
    decreases k,
{
    if k == 0 {
    } else {
        assert(accounts.drop_first()[k - 1] == accounts[k]);
        assert(forall|j: int| 0 <= j < k - 1 ==> accounts.drop_first()[j] == accounts[j + 1]);
        lemma_find_account_first(accounts.drop_first(), key, k - 1);
    }
}

/// When no account matches, `find_account` is -1.
pub proof fn lemma_find_account_none(accounts: Seq<AccountInfo>, key: Pubkey)
    requires
        forall|j: int| 0 <= j < accounts.len() ==> accounts[j].key != key,
    ensures
        find_account(accounts, key) == -1,
    decreases accounts.len(),
{
    if accounts.len() > 0 {
        assert(forall|j: int| 0 <= j < accounts.len() - 1 ==> accounts.drop_first()[j] == accounts[
            j + 1
        ]);
        lemma_find_account_none(accounts.drop_first(), key);
    }
}

/// `find_account` stays within bounds and points at a match.
pub proof fn lemma_find_account_bounds(accounts: Seq<AccountInfo>, key: Pubkey)
    ensures
        -1 <= find_account(accounts, key) < accounts.len(),
        find_account(accounts, key) >= 0 ==> accounts[find_account(accounts, key)].key == key,
    decreases accounts.len(),
{
    if accounts.len() > 0 && accounts[0].key != key {
        lemma_find_account_bounds(accounts.drop_first(), key);
    }
}

/// `post` is `pre` with the transaction's flags applied and everything
/// else unchanged.
pub open spec fn same_but_flags(
    pre: AccountInfo,
    post: AccountInfo,
    is_signer: bool,
    is_writable: bool,
) -> bool {
    &&& post.key == pre.key
    &&& post.is_signer == is_signer
    &&& post.is_writable == is_writable
    &&& post.lamports == pre.lamports
    &&& post.owner == pre.owner
    &&& post.utxo == pre.utxo
    &&& post.data@ == pre.data@
}

/// Every meta names an account present in the store.
pub open spec fn all_metas_found(store: Seq<AccountInfo>, metas: Seq<AccountMeta>) -> bool {
    forall|k: int| 0 <= k < metas.len() ==> find_account(store, metas[k].pubkey) >= 0
}

/// `ctx` is the account list a transaction builds from the store: for each
/// meta, the first stored account with that identity, carrying the meta's
/// flags.
pub open spec fn built_from(
    store: Seq<AccountInfo>,
    metas: Seq<AccountMeta>,
    ctx: Seq<AccountInfo>,
) -> bool {
    ctx.len() == metas.len() && (forall|k: int|
        #![trigger metas[k]]
        0 <= k < metas.len() ==> ({
            let i = find_account(store, metas[k].pubkey);
            &&& i >= 0
            &&& same_but_flags(store[i], ctx[k], metas[k].is_signer, metas[k].is_writable)
        }))
}

/// `post` is `pre` with the balance, buffer, owner and tracked output
/// taken from `src`, identity and flags kept.
pub open spec fn committed_from(pre: AccountInfo, post: AccountInfo, src: AccountInfo) -> bool {
    &&& post.key == pre.key
    &&& post.is_signer == pre.is_signer
    &&& post.is_writable == pre.is_writable
    &&& post.lamports == src.lamports
    &&& post.data@ == src.data@
    &&& post.owner == src.owner
    &&& post.utxo == src.utxo
}

/// The commit of a successful instruction: every writable meta that no
/// later writable meta overrides (by naming the same stored account) has
/// copied its executed context account back into the store.
pub open spec fn writeback_ok(
    store_pre: Seq<AccountInfo>,
    store_post: Seq<AccountInfo>,
    metas: Seq<AccountMeta>,
    ctx_post: Seq<AccountInfo>,
) -> bool {
    forall|t: int|
        #![trigger metas[t]]
        0 <= t < metas.len() && metas[t].is_writable && (forall|u: int|
            t < u < metas.len() ==> !(metas[u].is_writable && find_account(
                store_pre,
                metas[u].pubkey,
            ) == find_account(store_pre, metas[t].pubkey))) ==> committed_from(
            store_pre[find_account(store_pre, metas[t].pubkey)],
            store_post[find_account(store_pre, metas[t].pubkey)],
            ctx_post[t],
        )
}

/// Finds the first stored account with identity `key`.
fn find_index(accounts: &Vec<AccountInfo>, key: &Pubkey) -> (r: Option<usize>)
    ensures
        r is Some <==> find_account(accounts@, *key) >= 0,
        r matches Some(i) ==> i == find_account(accounts@, *key),
{
    let mut i: usize = 0;
    while i < accounts.len()
        invariant
            0 <= i <= accounts@.len(),
            forall|j: int| 0 <= j < i ==> accounts@[j].key != *key,
        decreases accounts@.len() - i,
    {
        if accounts[i].key == *key {
            proof {
                lemma_find_account_first(accounts@, *key, i as int);
            }
            return Some(i);
        }
        i += 1;
    }
    proof {
        lemma_find_account_none(accounts@, *key);
    }
    None
}

impl ProgramContext {
    /// A context whose admin list is taken from a client's bookkeeping.
    pub fn with_test_client(
        program_id: Pubkey,
        accounts: Vec<AccountInfo>,
        test_client: &TestClient,
    ) -> (r: Self)
        ensures
            r.program_id == program_id,
            r.accounts == accounts,
            r.admins@ == test_client.admin_accounts@,
    {
        let mut admins: Vec<Pubkey> = Vec::new();
        let mut i: usize = 0;
        while i < test_client.admin_accounts.len()
            invariant
                0 <= i <= test_client.admin_accounts@.len(),
                admins@ == test_client.admin_accounts@.take(i as int),
            decreases test_client.admin_accounts@.len() - i,
        {
            admins.push(test_client.admin_accounts[i]);
            proof {
                assert(admins@ =~= test_client.admin_accounts@.take(i + 1));
            }
            i += 1;
        }
        proof {
            assert(admins@ =~= test_client.admin_accounts@);
        }
        ProgramContext::with_admins(program_id, accounts, admins)
    }
}

/// `k` is the key derived from counter value `m`: its first eight bytes
/// are `m` little-endian, the rest are zero.
pub open spec fn is_counter_key(k: Pubkey, m: u64) -> bool {
    k.0@.subrange(0, 8) == vstd::bytes::spec_u64_to_le_bytes(m) && all_zero(k.0@.subrange(8, 32))
}

/// The counter value a derived key encodes in its first eight bytes.
pub open spec fn key_counter(k: Pubkey) -> u64 {
    vstd::bytes::spec_u64_from_le_bytes(k.0@.subrange(0, 8))
}

/// Every stored key was derived from a counter value below the client's
/// counter, so the next derived key cannot collide with any of them.
pub open spec fn client_keys_wf(c: TestClient) -> bool {
    forall|i: int|
        #![trigger c.accounts@[i]]
        0 <= i < c.accounts@.len() ==> (all_zero(c.accounts@[i].key.0@.subrange(8, 32))
            && key_counter(c.accounts@[i].key) < c.next_key)
}

/// A key derived from the current counter value is not in a well-formed
/// store: every stored key comes from a smaller counter value.
pub proof fn lemma_fresh_key_unused(c: TestClient, k: Pubkey)
    requires
        client_keys_wf(c),
        is_counter_key(k, c.next_key),
    ensures
        forall|i: int| 0 <= i < c.accounts@.len() ==> c.accounts@[i].key != k,
{
    vstd::bytes::lemma_auto_spec_u64_to_from_le_bytes();
    assert(key_counter(k) == c.next_key);
    assert forall|i: int| 0 <= i < c.accounts@.len() implies c.accounts@[i].key != k by {
        assert(all_zero(c.accounts@[i].key.0@.subrange(8, 32)) && key_counter(c.accounts@[i].key)
            < c.next_key);
        if c.accounts@[i].key == k {
            assert(c.accounts@[i].key.0@.subrange(0, 8) == k.0@.subrange(0, 8));
        }
    }
}

/// Storing one account under the freshly derived key keeps the store
/// well-formed, and the new key collides with no stored key.
pub proof fn lemma_creator_keys(pre: TestClient, post: TestClient, key: Pubkey)
    requires
        client_keys_wf(pre),
        pre.next_key < u64::MAX,
        is_counter_key(key, pre.next_key),
        post.next_key == pre.next_key + 1,
        post.accounts@.len() == pre.accounts@.len() + 1,
        forall|j: int| 0 <= j < pre.accounts@.len() ==> post.accounts@[j] == pre.accounts@[j],
        post.accounts@.last().key == key,
    ensures
        client_keys_wf(post),
        forall|j: int|
            0 <= j < pre.accounts@.len() ==> post.accounts@.last().key != pre.accounts@[j].key,
{
    lemma_fresh_key_unused(pre, key);
    vstd::bytes::lemma_auto_spec_u64_to_from_le_bytes();
    assert forall|i: int|
        #![trigger post.accounts@[i]]
        0 <= i < post.accounts@.len() implies (all_zero(post.accounts@[i].key.0@.subrange(8, 32))
        && key_counter(post.accounts@[i].key) < post.next_key) by {
        if i < pre.accounts@.len() {
            assert(post.accounts@[i] == pre.accounts@[i]);
            assert(all_zero(pre.accounts@[i].key.0@.subrange(8, 32)) && key_counter(
                pre.accounts@[i].key,
            ) < pre.next_key);
        } else {
            assert(post.accounts@[i].key == key);
            assert(key_counter(key) == pre.next_key);
        }
    }
}

/// The in-process client: the account store, the admin set and the
/// authorizer's pending-action bookkeeping.
pub struct TestClient {
    pub accounts: Vec<AccountInfo>,
    pub admin_accounts: Vec<Pubkey>,
    pub pending_actions: Vec<AdminAction>,
    pub required_signatures: usize,
    pub total_admins: usize,
    pub next_key: u64,
}

impl TestClient {
    /// An empty client: no accounts, no admins, no pending actions, a
    /// 3-of-5 signature policy.
    pub fn new() -> (r: Self)
        ensures
            r.accounts@ == Seq::<AccountInfo>::empty(),
            r.admin_accounts@ == Seq::<Pubkey>::empty(),
            r.pending_actions@ == Seq::<AdminAction>::empty(),
            r.required_signatures == REQUIRED_SIGNATURES,
            r.total_admins == TOTAL_ADMINS,
            actions_wf(r.pending_actions@),
            client_keys_wf(r),
    {
        TestClient {
            accounts: Vec::new(),
            admin_accounts: Vec::new(),
            pending_actions: Vec::new(),
            required_signatures: REQUIRED_SIGNATURES,
            total_admins: TOTAL_ADMINS,
            next_key: 1,
        }
    }

    /// A key derived from the client's counter; the counter advances and
    /// saturates at its maximum.
    fn fresh_key(&mut self) -> (r: Pubkey)
        ensures
            final(self).accounts == old(self).accounts,
            final(self).admin_accounts == old(self).admin_accounts,
            final(self).pending_actions == old(self).pending_actions,
            final(self).required_signatures == old(self).required_signatures,
            final(self).total_admins == old(self).total_admins,
            is_counter_key(r, old(self).next_key),
            old(self).next_key < u64::MAX ==> final(self).next_key == old(self).next_key + 1,
            old(self).next_key == u64::MAX ==> final(self).next_key == u64::MAX,
    {
        let bytes = vstd::bytes::u64_to_le_bytes(self.next_key);
        let mut key = [0u8; 32];
        let mut i: usize = 0;
        while i < 8
            invariant
                0 <= i <= 8,
                bytes@.len() == 8,
                bytes@ == vstd::bytes::spec_u64_to_le_bytes(old(self).next_key),
                forall|j: int| 0 <= j < i ==> key@[j] == bytes@[j],
                forall|j: int| i <= j < 32 ==> key@[j] == 0u8,
            decreases 8 - i,
        {
            key[i] = bytes[i];
            i += 1;
        }
        proof {
            assert(key@.subrange(0, 8) =~= bytes@);
            assert(all_zero(key@.subrange(8, 32)));
        }
        if self.next_key < u64::MAX {
            self.next_key = self.next_key + 1;
        }
        Pubkey(key)
    }

    /// Creates a writable account owned by the program, with a kilobyte of
    /// zeroed storage, and stores it.
    pub fn create_account(&mut self, program_id: Pubkey) -> (r: Result<AccountHandle, ProgramError>)
        ensures
            final(self).admin_accounts == old(self).admin_accounts,
            final(self).pending_actions == old(self).pending_actions,
            final(self).required_signatures == old(self).required_signatures,
            final(self).total_admins == old(self).total_admins,
            final(self).accounts@.len() == old(self).accounts@.len() + 1,
            forall|j: int|
                0 <= j < old(self).accounts@.len() ==> final(self).accounts@[j] == old(
                    self,
                ).accounts@[j],
            client_keys_wf(*old(self)) && old(self).next_key < u64::MAX ==> client_keys_wf(
                *final(self),
            ) && (forall|j: int|
                0 <= j < old(self).accounts@.len() ==> final(self).accounts@.last().key != old(
                    self,
                ).accounts@[j].key),
            ({
                let a = final(self).accounts@.last();
                &&& r matches Ok(h) && h.key == a.key && h.is_signer == false && h.is_writable
                    == true
                &&& a.is_signer == false
                &&& a.is_writable == true
                &&& a.lamports == 0u64
                &&& a.data@ == Seq::new(1024, |i: int| 0u8)
                &&& a.owner == program_id
            }),
    {
        let key = self.fresh_key();
        let mut data: Vec<u8> = Vec::new();
        data.resize(1024, 0u8);
        proof {
            assert(data@ =~= Seq::new(1024, |i: int| 0u8));
        }
        let account = AccountInfo {
            key,
            is_signer: false,
            is_writable: true,
            lamports: 0,
            data,
            owner: program_id,
            utxo: UtxoMeta::new([0u8; 32], 0),
        };
        self.accounts.push(account);
        proof {
            if client_keys_wf(*old(self)) && old(self).next_key < u64::MAX {
                lemma_creator_keys(*old(self), *self, key);
            }
        }
        Ok(AccountHandle { key, is_signer: false, is_writable: true })
    }

    /// Creates a signing admin account, stores it and records its key in
    /// the admin set.  Fails once the admin set is full.
    pub fn create_admin_account(&mut self, _program_id: Pubkey) -> (r: Result<
        AccountHandle,
        ProgramError,
    >)
        ensures
            final(self).pending_actions == old(self).pending_actions,
            final(self).required_signatures == old(self).required_signatures,
            final(self).total_admins == old(self).total_admins,
            old(self).admin_accounts@.len() >= old(self).total_admins ==> (r matches Err(
                ProgramError::Custom(m),
            ) && m@ == "Maximum number of admins reached"@) && final(self).accounts == old(
                self,
            ).accounts && final(self).admin_accounts == old(self).admin_accounts,
            client_keys_wf(*old(self)) && old(self).next_key < u64::MAX ==> client_keys_wf(
                *final(self),
            ),
            old(self).admin_accounts@.len() < old(self).total_admins && client_keys_wf(*old(self))
                && old(self).next_key < u64::MAX ==> (forall|j: int|
                0 <= j < old(self).accounts@.len() ==> final(self).accounts@.last().key != old(
                    self,
                ).accounts@[j].key),
            old(self).admin_accounts@.len() < old(self).total_admins ==> ({
                let a = final(self).accounts@.last();
                &&& final(self).accounts@.len() == old(self).accounts@.len() + 1
                &&& (forall|j: int|
                    0 <= j < old(self).accounts@.len() ==> final(self).accounts@[j] == old(
                        self,
                    ).accounts@[j])
                &&& r matches Ok(h) && h.key == a.key && h.is_signer == true && h.is_writable
                    == false
                &&& a.is_signer == true
                &&& a.is_writable == false
                &&& a.lamports == 1000000u64
                &&& a.data@ == Seq::<u8>::empty()
                &&& final(self).admin_accounts@ == old(self).admin_accounts@.push(a.key)
            }),
    {
        if self.admin_accounts.len() >= self.total_admins {
            return Err(ProgramError::Custom("Maximum number of admins reached".to_owned()));
        }
        let key = self.fresh_key();
        let account = AccountInfo {
            key,
            is_signer: true,
            is_writable: false,
            lamports: 1000000,
            data: Vec::new(),
            owner: Pubkey::new(),
            utxo: UtxoMeta::new([0u8; 32], 0),
        };
        self.accounts.push(account);
        self.admin_accounts.push(key);
        proof {
            if client_keys_wf(*old(self)) && old(self).next_key < u64::MAX {
                lemma_creator_keys(*old(self), *self, key);
            }
        }
        Ok(AccountHandle { key, is_signer: true, is_writable: false })
    }

    /// True iff `pubkey` is a recorded admin key.
    pub fn is_admin(&self, pubkey: &Pubkey) -> (r: bool)
        ensures
            r == self.admin_accounts@.contains(*pubkey),
    {
        let mut i: usize = 0;
        while i < self.admin_accounts.len()
            invariant
                0 <= i <= self.admin_accounts@.len(),
                forall|j: int| 0 <= j < i ==> self.admin_accounts@[j] != *pubkey,
            decreases self.admin_accounts@.len() - i,
        {
            if self.admin_accounts[i] == *pubkey {
                return true;
            }
            i += 1;
        }
        false
    }

    /// Records one admin signature for a pending action; see
    /// [`record_action_signature`].
    pub fn sign_action(
        &mut self,
        admin_key: &Pubkey,
        action_type: String,
        description: String,
        signature: String,
    ) -> (r: Result<bool, ProgramError>)
        requires
            actions_wf(old(self).pending_actions@),
        ensures
            actions_wf(final(self).pending_actions@),
            actions_extend(old(self).pending_actions@, final(self).pending_actions@),
            final(self).accounts == old(self).accounts,
            final(self).admin_accounts == old(self).admin_accounts,
            final(self).required_signatures == old(self).required_signatures,
            final(self).total_admins == old(self).total_admins,
            !old(self).admin_accounts@.contains(*admin_key) ==> r == Err::<bool, ProgramError>(
                ProgramError::NotAnAdmin,
            ) && final(self).pending_actions@ == old(self).pending_actions@,
            r is Err ==> final(self).pending_actions@ == old(self).pending_actions@,
            ({
                let pre = old(self).pending_actions@;
                let post = final(self).pending_actions@;
                let idx = action_index(pre, action_type@);
                &&& (old(self).admin_accounts@.contains(*admin_key) && idx >= 0
                    && pre[idx].signed_by@.contains(*admin_key) ==> r == Err::<
                    bool,
                    ProgramError,
                >(ProgramError::DuplicateSignature))
                &&& (old(self).admin_accounts@.contains(*admin_key) && idx >= 0
                    && !pre[idx].signed_by@.contains(*admin_key) ==> post.len() == pre.len() && (
                forall|j: int| 0 <= j < pre.len() && j != idx ==> post[j] == pre[j])
                    && post[idx].action_type == pre[idx].action_type && post[idx].description
                    == pre[idx].description && post[idx].signatures@
                    == pre[idx].signatures@.push(signature) && post[idx].signed_by@
                    == pre[idx].signed_by@.push(*admin_key) && (r matches Ok(b) && b == (
                pre[idx].signatures@.len() + 1 >= old(self).required_signatures)))
                &&& (old(self).admin_accounts@.contains(*admin_key) && idx == -1 ==> post.len()
                    == pre.len() + 1 && (forall|j: int| 0 <= j < pre.len() ==> post[j] == pre[j])
                    && post[pre.len() as int].action_type == action_type
                    && post[pre.len() as int].description == description
                    && post[pre.len() as int].signatures@ == seq![signature]
                    && post[pre.len() as int].signed_by@ == seq![*admin_key] && (r matches Ok(b)
                    && b == (1 >= old(self).required_signatures)))
            }),
    {
        let ghost ty = action_type@;
        let r = record_action_signature(
            &self.admin_accounts,
            &mut self.pending_actions,
            admin_key,
            action_type,
            description,
            signature,
        );
        proof {
            crate::multisig::lemma_action_index_bounds(old(self).pending_actions@, ty);
        }
        match r {
            Ok(count) => Ok(count >= self.required_signatures),
            Err(e) => Err(e),
        }
    }

    /// Whether `action_type` is authorized by the provided signatures.
    pub fn verify_action(&self, action_type: &str, signatures: &[String]) -> (r: Result<
        bool,
        ProgramError,
    >)
        ensures
            r matches Ok(b) && b == spec_is_authorized(
                self.pending_actions@,
                action_type@,
                signatures@,
            ),
    {
        Ok(check_action_authorized(&self.pending_actions, action_type, signatures))
    }

    /// Reads the treasury state stored under `pubkey`.
    pub fn get_account_data(&self, pubkey: &Pubkey) -> (r: Result<OVTState, ProgramError>)
        ensures
            find_account(self.accounts@, *pubkey) == -1 ==> r == Err::<OVTState, ProgramError>(
                ProgramError::AccountNotFound,
            ),
            find_account(self.accounts@, *pubkey) >= 0 ==> ({
                let a = self.accounts@[find_account(self.accounts@, *pubkey)];
                &&& (r is Ok <==> a.data@.len() == STATE_ENCODED_LEN)
                &&& (r matches Ok(s) ==> spec_encode_state(s) == a.data@)
            }),
    {
        proof {
            lemma_find_account_bounds(self.accounts@, *pubkey);
        }
        match find_index(&self.accounts, pubkey) {
            None => Err(ProgramError::AccountNotFound),
            Some(i) => self.accounts[i].get_data(),
        }
    }

    /// Writes a treasury state record into the account stored under
    /// `pubkey`.
    pub fn set_account_data(&mut self, pubkey: &Pubkey, data: &OVTState) -> (r: Result<
        (),
        ProgramError,
    >)
        ensures
            final(self).admin_accounts == old(self).admin_accounts,
            final(self).pending_actions == old(self).pending_actions,
            final(self).required_signatures == old(self).required_signatures,
            final(self).total_admins == old(self).total_admins,
            find_account(old(self).accounts@, *pubkey) == -1 ==> r == Err::<(), ProgramError>(
                ProgramError::AccountNotFound,
            ) && final(self).accounts@ == old(self).accounts@,
            find_account(old(self).accounts@, *pubkey) >= 0 ==> ({
                let idx = find_account(old(self).accounts@, *pubkey);
                let a = old(self).accounts@[idx];
                &&& (r is Ok <==> a.is_writable)
                &&& (!a.is_writable ==> r == Err::<(), ProgramError>(
                    ProgramError::InvalidAccountData,
                ) && final(self).accounts@ == old(self).accounts@)
                &&& (a.is_writable ==> final(self).accounts@.len() == old(self).accounts@.len() && (
                forall|j: int|
                    0 <= j < old(self).accounts@.len() && j != idx ==> final(self).accounts@[j]
                        == old(self).accounts@[j]) && crate::processor::same_but_data(
                    a,
                    final(self).accounts@[idx],
                    spec_encode_state(*data),
                ))
            }),
    {
        proof {
            lemma_find_account_bounds(old(self).accounts@, *pubkey);
        }
        match find_index(&self.accounts, pubkey) {
            None => Err(ProgramError::AccountNotFound),
            Some(i) => {
                let account = &mut self.accounts[i];
                let result = account.set_data(data);
                proof {
                    if !old(self).accounts@[i as int].is_writable {
                        assert(final(self).accounts@ =~= old(self).accounts@);
                    }
                }
                result
            },
        }
    }

    /// Creates an account whose only content is a balance.
    pub fn create_account_with_lamports(&mut self, lamports: u64) -> (r: Result<
        AccountHandle,
        ProgramError,
    >)
        ensures
            final(self).admin_accounts == old(self).admin_accounts,
            final(self).pending_actions == old(self).pending_actions,
            final(self).required_signatures == old(self).required_signatures,
            final(self).total_admins == old(self).total_admins,
            final(self).accounts@.len() == old(self).accounts@.len() + 1,
            forall|j: int|
                0 <= j < old(self).accounts@.len() ==> final(self).accounts@[j] == old(
                    self,
                ).accounts@[j],
            client_keys_wf(*old(self)) && old(self).next_key < u64::MAX ==> client_keys_wf(
                *final(self),
            ) && (forall|j: int|
                0 <= j < old(self).accounts@.len() ==> final(self).accounts@.last().key != old(
                    self,
                ).accounts@[j].key),
            ({
                let a = final(self).accounts@.last();
                &&& r matches Ok(h) && h.key == a.key && h.is_writable == true
                &&& a.is_writable == true
                &&& a.lamports == lamports
                &&& a.data@ == Seq::<u8>::empty()
            }),
    {
        let key = self.fresh_key();
        let account = AccountInfo {
            key,
            is_signer: false,
            is_writable: true,
            lamports,
            data: Vec::new(),
            owner: Pubkey::new(),
            utxo: UtxoMeta::new([0u8; 32], 0),
        };
        self.accounts.push(account);
        proof {
            if client_keys_wf(*old(self)) && old(self).next_key < u64::MAX {
                lemma_creator_keys(*old(self), *self, key);
            }
        }
        Ok(AccountHandle { key, is_signer: false, is_writable: true })
    }

    /// A tracked-output identity from raw parts.
    pub fn create_utxo(&self, txid: [u8; 32], vout: u32) -> (r: UtxoMeta)
        ensures
            r.spec_txid() == txid@,
            r.spec_vout() == vout,
    {
        UtxoMeta::new(txid, vout)
    }

    /// Attaches a tracked output to the account stored under `pubkey`.
    pub fn set_account_utxo(&mut self, pubkey: &Pubkey, utxo: UtxoMeta) -> (r: Result<
        (),
        ProgramError,
    >)
        ensures
            final(self).admin_accounts == old(self).admin_accounts,
            final(self).pending_actions == old(self).pending_actions,
            find_account(old(self).accounts@, *pubkey) == -1 ==> r == Err::<(), ProgramError>(
                ProgramError::AccountNotFound,
            ) && final(self).accounts@ == old(self).accounts@,
            find_account(old(self).accounts@, *pubkey) >= 0 ==> ({
                let idx = find_account(old(self).accounts@, *pubkey);
                &&& r is Ok
                &&& final(self).accounts@.len() == old(self).accounts@.len()
                &&& (forall|j: int|
                    0 <= j < old(self).accounts@.len() && j != idx ==> final(self).accounts@[j]
                        == old(self).accounts@[j])
                &&& final(self).accounts@[idx].utxo == utxo
                &&& final(self).accounts@[idx].key == old(self).accounts@[idx].key
                &&& final(self).accounts@[idx].is_signer == old(self).accounts@[idx].is_signer
                &&& final(self).accounts@[idx].is_writable == old(self).accounts@[idx].is_writable
                &&& final(self).accounts@[idx].lamports == old(self).accounts@[idx].lamports
                &&& final(self).accounts@[idx].owner == old(self).accounts@[idx].owner
                &&& final(self).accounts@[idx].data@ == old(self).accounts@[idx].data@
            }),
    {
        proof {
            lemma_find_account_bounds(old(self).accounts@, *pubkey);
        }
        match find_index(&self.accounts, pubkey) {
            None => Err(ProgramError::AccountNotFound),
            Some(i) => {
                let account = &mut self.accounts[i];
                account.utxo = utxo;
                Ok(())
            },
        }
    }

    /// Reads the tracked output attached to the account stored under
    /// `pubkey`.
    pub fn get_account_utxo(&self, pubkey: &Pubkey) -> (r: Result<UtxoMeta, ProgramError>)
        ensures
            find_account(self.accounts@, *pubkey) == -1 ==> r == Err::<UtxoMeta, ProgramError>(
                ProgramError::AccountNotFound,
            ),
            find_account(self.accounts@, *pubkey) >= 0 ==> r == Ok::<UtxoMeta, ProgramError>(
                self.accounts@[find_account(self.accounts@, *pubkey)].utxo,
            ),
    {
        proof {
            lemma_find_account_bounds(self.accounts@, *pubkey);
        }
        match find_index(&self.accounts, pubkey) {
            None => Err(ProgramError::AccountNotFound),
            Some(i) => Ok(self.accounts[i].utxo),
        }
    }

    /// Block height the client model reports.
    pub fn simulate_bitcoin_block_height(&self) -> (r: u32)
        ensures
            r == 123456u32,
    {
        123456
    }

    /// Creates an account holding a fresh mint record.
    pub fn create_mint(&mut self, program_id: Pubkey, decimals: u8, authority: Pubkey) -> (r:
        Result<AccountHandle, ProgramError>)
        ensures
            final(self).admin_accounts == old(self).admin_accounts,
            final(self).pending_actions == old(self).pending_actions,
            final(self).accounts@.len() == old(self).accounts@.len() + 1,
            forall|j: int|
                0 <= j < old(self).accounts@.len() ==> final(self).accounts@[j] == old(
                    self,
                ).accounts@[j],
            client_keys_wf(*old(self)) && old(self).next_key < u64::MAX ==> client_keys_wf(
                *final(self),
            ) && (forall|j: int|
                0 <= j < old(self).accounts@.len() ==> final(self).accounts@.last().key != old(
                    self,
                ).accounts@[j].key),
            ({
                let a = final(self).accounts@.last();
                &&& r matches Ok(h) && h.key == a.key && h.is_writable == true
                &&& a.is_writable == true
                &&& a.owner == program_id
                &&& a.data@ == spec_encode_mint(
                    Mint { authority, supply: 0u64, decimals },
                )
            }),
    {
        let key = self.fresh_key();
        let mint = Mint::new(authority, decimals);
        let account = AccountInfo {
            key,
            is_signer: false,
            is_writable: true,
            lamports: 0,
            data: mint.encode(),
            owner: program_id,
            utxo: UtxoMeta::new([0u8; 32], 0),
        };
        self.accounts.push(account);
        proof {
            if client_keys_wf(*old(self)) && old(self).next_key < u64::MAX {
                lemma_creator_keys(*old(self), *self, key);
            }
        }
        Ok(AccountHandle { key, is_signer: false, is_writable: true })
    }

    /// Creates an account holding a fresh token account record.
    pub fn create_token_account(&mut self, program_id: Pubkey, mint: Pubkey, owner: Pubkey) -> (r:
        Result<AccountHandle, ProgramError>)
        ensures
            final(self).admin_accounts == old(self).admin_accounts,
            final(self).pending_actions == old(self).pending_actions,
            final(self).accounts@.len() == old(self).accounts@.len() + 1,
            forall|j: int|
                0 <= j < old(self).accounts@.len() ==> final(self).accounts@[j] == old(
                    self,
                ).accounts@[j],
            client_keys_wf(*old(self)) && old(self).next_key < u64::MAX ==> client_keys_wf(
                *final(self),
            ) && (forall|j: int|
                0 <= j < old(self).accounts@.len() ==> final(self).accounts@.last().key != old(
                    self,
                ).accounts@[j].key),
            ({
                let a = final(self).accounts@.last();
                &&& r matches Ok(h) && h.key == a.key && h.is_writable == true
                &&& a.is_writable == true
                &&& a.owner == program_id
                &&& a.data@ == spec_encode_token_account(
                    TokenAccount {
                        mint,
                        owner,
                        amount: 0u64,
                        delegate: None,
                        state: 1u8,
                        is_native: None,
                        delegated_amount: 0u64,
                        close_authority: None,
                    },
                )
            }),
    {
        let key = self.fresh_key();
        let token_account = TokenAccount {
            mint,
            owner,
            amount: 0,
            delegate: None,
            state: 1,
            is_native: None,
            delegated_amount: 0,
            close_authority: None,
        };
        let account = AccountInfo {
            key,
            is_signer: false,
            is_writable: true,
            lamports: 0,
            data: token_account.encode(),
            owner: program_id,
            utxo: UtxoMeta::new([0u8; 32], 0),
        };
        self.accounts.push(account);
        proof {
            if client_keys_wf(*old(self)) && old(self).next_key < u64::MAX {
                lemma_creator_keys(*old(self), *self, key);
            }
        }
        Ok(AccountHandle { key, is_signer: false, is_writable: true })
    }

    /// Reads the token account record stored under `pubkey`.
    pub fn get_token_account(&self, pubkey: &Pubkey) -> (r: Result<TokenAccount, ProgramError>)
        ensures
            find_account(self.accounts@, *pubkey) == -1 ==> r == Err::<TokenAccount, ProgramError>(
                ProgramError::AccountNotFound,
            ),
            find_account(self.accounts@, *pubkey) >= 0 ==> ({
                let a = self.accounts@[find_account(self.accounts@, *pubkey)];
                &&& (r is Ok <==> wf_token_account_encoding(a.data@))
                &&& (r matches Ok(t) ==> spec_encode_token_account(t) == a.data@)
            }),
    {
        proof {
            lemma_find_account_bounds(self.accounts@, *pubkey);
        }
        match find_index(&self.accounts, pubkey) {
            None => Err(ProgramError::AccountNotFound),
            Some(i) => {
                match TokenAccount::decode(self.accounts[i].data.as_slice()) {
                    Some(t) => Ok(t),
                    None => Err(ProgramError::InvalidAccountData),
                }
            },
        }
    }

    /// Executes one instruction against the store.
    ///
    /// The context is built from the stored accounts named by the metas,
    /// with the metas' signer and writable flags applied; the admin set is
    /// the client's.  When the instruction succeeds, the balance, buffer,
    /// owner and tracked output of every writable account are copied back
    /// into the store; when it fails, the store is left exactly as it was.
    #[verifier::rlimit(100)]
    #[verifier::spinoff_prover]
    pub fn process_transaction(
        &mut self,
        program_id: Pubkey,
        account_metas: Vec<AccountMeta>,
        instruction_data: Vec<u8>,
    ) -> (r: ProgramResult)
        ensures
            final(self).admin_accounts == old(self).admin_accounts,
            final(self).pending_actions == old(self).pending_actions,
            final(self).required_signatures == old(self).required_signatures,
            final(self).total_admins == old(self).total_admins,
            final(self).next_key == old(self).next_key,
            r is Err ==> final(self).accounts@ == old(self).accounts@,
            !all_metas_found(old(self).accounts@, account_metas@) ==> r == Err::<(), ProgramError>(
                ProgramError::AccountNotFound,
            ),
            final(self).accounts@.len() == old(self).accounts@.len(),
            forall|i: int|
                0 <= i < old(self).accounts@.len() ==> #[trigger] final(self).accounts@[i].key
                    == old(self).accounts@[i].key,
            forall|i: int|
                0 <= i < old(self).accounts@.len()
                    ==> #[trigger] final(self).accounts@[i].is_signer
                    == old(self).accounts@[i].is_signer,
            forall|i: int|
                0 <= i < old(self).accounts@.len()
                    ==> #[trigger] final(self).accounts@[i].is_writable
                    == old(self).accounts@[i].is_writable,
            forall|i: int|
                0 <= i < old(self).accounts@.len() && (forall|k: int|
                    0 <= k < account_metas@.len() ==> !(account_metas@[k].is_writable
                        && account_metas@[k].pubkey == old(self).accounts@[i].key))
                    ==> final(self).accounts@[i] == old(self).accounts@[i],
            all_metas_found(old(self).accounts@, account_metas@) ==> (exists|
                ctx_pre: Seq<AccountInfo>,
                ctx_post: Seq<AccountInfo>,
            |
                built_from(old(self).accounts@, account_metas@, ctx_pre) && dispatch_outcome(
                    program_id,
                    old(self).admin_accounts@,
                    ctx_pre,
                    ctx_post,
                    r,
                    instruction_data@,
                ) && (r is Ok ==> writeback_ok(
                    old(self).accounts@,
                    final(self).accounts@,
                    account_metas@,
                    ctx_post,
                ))),
    {
        let mut ctx_accounts: Vec<AccountInfo> = Vec::new();
        let mut idxs: Vec<usize> = Vec::new();
        let mut k: usize = 0;
        while k < account_metas.len()
            invariant
                *self == *old(self),
                0 <= k <= account_metas@.len(),
                idxs@.len() == k,
                ctx_accounts@.len() == k,
                forall|t: int|
                    #![trigger account_metas@[t]]
                    0 <= t < k ==> ({
                        let i = find_account(self.accounts@, account_metas@[t].pubkey);
                        &&& i >= 0
                        &&& #[trigger] idxs@[t] == i
                        &&& same_but_flags(
                            self.accounts@[i],
                            ctx_accounts@[t],
                            account_metas@[t].is_signer,
                            account_metas@[t].is_writable,
                        )
                    }),
            decreases account_metas@.len() - k,
        {
            let meta = account_metas[k];
            match find_index(&self.accounts, &meta.pubkey) {
                None => {
                    proof {
                        assert(!all_metas_found(old(self).accounts@, account_metas@));
                    }
                    return Err(ProgramError::AccountNotFound);
                },
                Some(i) => {
                    proof {
                        lemma_find_account_bounds(self.accounts@, meta.pubkey);
                    }
                    let mut acc = self.accounts[i].clone();
                    acc.is_signer = meta.is_signer;
                    acc.is_writable = meta.is_writable;
                    ctx_accounts.push(acc);
                    idxs.push(i);
                    proof {
                        assert(same_but_flags(
                            self.accounts@[i as int],
                            ctx_accounts@[k as int],
                            meta.is_signer,
                            meta.is_writable,
                        ));
                    }
                },
            }
            k += 1;
        }
        let mut admins: Vec<Pubkey> = Vec::new();
        let mut a: usize = 0;
        while a < self.admin_accounts.len()
            invariant
                *self == *old(self),
                0 <= a <= self.admin_accounts@.len(),
                admins@ == self.admin_accounts@.take(a as int),
            decreases self.admin_accounts@.len() - a,
        {
            admins.push(self.admin_accounts[a]);
            proof {
                assert(admins@ =~= self.admin_accounts@.take(a + 1));
            }
            a += 1;
        }
        proof {
            assert(admins@ =~= self.admin_accounts@);
        }
        let ghost ctx_pre = ctx_accounts@;
        let mut ctx = ProgramContext::with_admins(program_id, ctx_accounts, admins);
        let result = OVTProgram::process(&mut ctx, instruction_data.as_slice());
        let ghost ctx_post = ctx.accounts@;
        proof {
            assert(built_from(old(self).accounts@, account_metas@, ctx_pre));
            assert forall|u: int| 0 <= u < account_metas@.len() implies 0 <= #[trigger] idxs@[u]
                < old(self).accounts@.len() && old(self).accounts@[idxs@[u] as int].key
                == account_metas@[u].pubkey && idxs@[u] == find_account(
                old(self).accounts@,
                account_metas@[u].pubkey,
            ) by {
                lemma_find_account_bounds(old(self).accounts@, account_metas@[u].pubkey);
            }
        }
        if result.is_err() {
            return result;
        }
        let mut t: usize = 0;
        while t < account_metas.len()
            invariant
                self.admin_accounts == old(self).admin_accounts,
                self.pending_actions == old(self).pending_actions,
                self.required_signatures == old(self).required_signatures,
                self.total_admins == old(self).total_admins,
                self.next_key == old(self).next_key,
                0 <= t <= account_metas@.len(),
                idxs@.len() == account_metas@.len(),
                ctx.accounts@ == ctx_post,
                ctx_post.len() == account_metas@.len(),
                self.accounts@.len() == old(self).accounts@.len(),
                forall|u: int|
                    0 <= u < account_metas@.len() ==> 0 <= #[trigger] idxs@[u] < old(
                        self,
                    ).accounts@.len() && old(self).accounts@[idxs@[u] as int].key
                        == account_metas@[u].pubkey && idxs@[u] == find_account(
                        old(self).accounts@,
                        account_metas@[u].pubkey,
                    ),
                forall|v: int|
                    #![trigger account_metas@[v]]
                    0 <= v < t && account_metas@[v].is_writable && (forall|u: int|
                        v < u < t ==> !(account_metas@[u].is_writable && idxs@[u] == idxs@[v]))
                        ==> committed_from(
                        old(self).accounts@[idxs@[v] as int],
                        self.accounts@[idxs@[v] as int],
                        ctx_post[v],
                    ),
                forall|i: int|
                    0 <= i < old(self).accounts@.len() ==> #[trigger] self.accounts@[i].key == old(
                        self,
                    ).accounts@[i].key,
                forall|i: int|
                    0 <= i < old(self).accounts@.len() ==> #[trigger] self.accounts@[i].is_signer
                        == old(self).accounts@[i].is_signer,
                forall|i: int|
                    0 <= i < old(self).accounts@.len() ==> #[trigger] self.accounts@[i].is_writable
                        == old(self).accounts@[i].is_writable,
                forall|i: int|
                    0 <= i < old(self).accounts@.len() && (forall|u: int|
                        0 <= u < account_metas@.len() ==> !(account_metas@[u].is_writable
                            && account_metas@[u].pubkey == old(self).accounts@[i].key)) ==> #[trigger] self.accounts@[i]
                        == old(self).accounts@[i],
            decreases account_metas@.len() - t,
        {
            let meta = account_metas[t];
            if meta.is_writable {
                let i = idxs[t];
                let mut upd = self.accounts[i].clone();
                upd.lamports = ctx.accounts[t].lamports;
                upd.data = ctx.accounts[t].data.clone();
                upd.owner = ctx.accounts[t].owner;
                upd.utxo = ctx.accounts[t].utxo;
                proof {
                    assert(upd.data@ =~= ctx.accounts@[t as int].data@);
                    assert(committed_from(
                        old(self).accounts@[i as int],
                        upd,
                        ctx_post[t as int],
                    ));
                }
                let ghost store_before = self.accounts@;
                self.accounts.set(i, upd);
                proof {
                    assert(self.accounts@ == store_before.update(i as int, upd));
                    assert forall|j: int| 0 <= j < old(self).accounts@.len() implies #[trigger] self.accounts@[j].key
                        == old(self).accounts@[j].key by {
                        if j == i as int {
                            assert(self.accounts@[j] == upd);
                        } else {
                            assert(self.accounts@[j] == store_before[j]);
                        }
                    }
                    assert forall|j: int|
                        0 <= j < old(self).accounts@.len() implies #[trigger] self.accounts@[j].is_signer
                        == old(self).accounts@[j].is_signer by {
                        if j == i as int {
                            assert(self.accounts@[j] == upd);
                        } else {
                            assert(self.accounts@[j] == store_before[j]);
                        }
                    }
                    assert forall|j: int|
                        0 <= j < old(self).accounts@.len() implies #[trigger] self.accounts@[j].is_writable
                        == old(self).accounts@[j].is_writable by {
                        if j == i as int {
                            assert(self.accounts@[j] == upd);
                        } else {
                            assert(self.accounts@[j] == store_before[j]);
                        }
                    }
                }
            }
            t += 1;
        }
        proof {
            assert(writeback_ok(
                old(self).accounts@,
                self.accounts@,
                account_metas@,
                ctx_post,
            ));
        }
        result
    }

    /// Writes a token account record into the account stored under
    /// `pubkey`.
    pub fn set_token_account(&mut self, pubkey: &Pubkey, token_account: &TokenAccount) -> (r:
        Result<(), ProgramError>)
        ensures
            final(self).admin_accounts == old(self).admin_accounts,
            final(self).pending_actions == old(self).pending_actions,
            find_account(old(self).accounts@, *pubkey) == -1 ==> r == Err::<(), ProgramError>(
                ProgramError::AccountNotFound,
            ) && final(self).accounts@ == old(self).accounts@,
            find_account(old(self).accounts@, *pubkey) >= 0 ==> ({
                let idx = find_account(old(self).accounts@, *pubkey);
                let a = old(self).accounts@[idx];
                &&& (r is Ok <==> a.is_writable)
                &&& (a.is_writable ==> final(self).accounts@.len() == old(self).accounts@.len() && (
                forall|j: int|
                    0 <= j < old(self).accounts@.len() && j != idx ==> final(self).accounts@[j]
                        == old(self).accounts@[j]) && crate::processor::same_but_data(
                    a,
                    final(self).accounts@[idx],
                    spec_encode_token_account(*token_account),
                ))
                &&& (!a.is_writable ==> final(self).accounts@ == old(self).accounts@)
            }),
    {
        proof {
            lemma_find_account_bounds(old(self).accounts@, *pubkey);
        }
        match find_index(&self.accounts, pubkey) {
            None => Err(ProgramError::AccountNotFound),
            Some(i) => {
                let account = &mut self.accounts[i];
                if !account.is_writable {
                    proof {
                        assert(final(self).accounts@ =~= old(self).accounts@);
                    }
                    return Err(ProgramError::InvalidAccountData);
                }
                account.data = token_account.encode();
                Ok(())
            },
        }
    }
}

} // verus!
