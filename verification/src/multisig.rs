//! The multisig authorizer.
//!
//! Administrators accumulate signatures for a named pending action; an
//! action becomes authorized the instant three distinct admins have signed
//! it.  Each admin key counts at most once per action: a second signature
//! from the same admin is rejected without changing anything.  There is no
//! revocation: an authorized action stays authorized.

use vstd::prelude::*;
use vstd::string::StringSliceAdditionalSpecFns;

use crate::error::{OVTError, ProgramError};
use crate::runtime::Pubkey;

verus! {

/// Signatures required to authorize an action.
pub const REQUIRED_SIGNATURES: usize = 3;

/// Fixed size of the admin set.
pub const TOTAL_ADMINS: usize = 5;

/// One pending action: its label, a description, and the ordered
/// signatures collected so far with the admins that gave them.
#[derive(Debug)]
pub struct AdminAction {
    pub action_type: String,
    pub description: String,
    pub signatures: Vec<String>,
    pub signed_by: Vec<Pubkey>,
}

/// Index of the first pending action labelled `ty`, or -1.
pub open spec fn action_index(actions: Seq<AdminAction>, ty: Seq<char>) -> int
    decreases actions.len(),
{
    if actions.len() == 0 {
        -1
    } else if actions[0].action_type@ == ty {
        0
    } else {
        let rest = action_index(actions.drop_first(), ty);
        if rest == -1 {
            -1
        } else {
            rest + 1
        }
    }
}

/// `action_index` returns the first matching index.
pub proof fn lemma_action_index_first(actions: Seq<AdminAction>, ty: Seq<char>, k: int)
    requires
        0 <= k < actions.len(),
        actions[k].action_type@ == ty,
        forall|j: int| 0 <= j < k ==> actions[j].action_type@ != ty,
    ensures
        action_index(actions, ty) == k,
    decreases k,
{
    if k == 0 {
    } else {
        assert(actions.drop_first()[k - 1] == actions[k]);
        assert(forall|j: int| 0 <= j < k - 1 ==> actions.drop_first()[j] == actions[j + 1]);
        lemma_action_index_first(actions.drop_first(), ty, k - 1);
    }
}

/// When no action matches, `action_index` is -1.
pub proof fn lemma_action_index_none(actions: Seq<AdminAction>, ty: Seq<char>)
    requires
        forall|j: int| 0 <= j < actions.len() ==> actions[j].action_type@ != ty,
    ensures
        action_index(actions, ty) == -1,
    decreases actions.len(),
{
    if actions.len() > 0 {
        assert(forall|j: int| 0 <= j < actions.len() - 1 ==> actions.drop_first()[j] == actions[j
            + 1]);
        lemma_action_index_none(actions.drop_first(), ty);
    }
}

/// `action_index` stays within bounds and points at a match.
pub proof fn lemma_action_index_bounds(actions: Seq<AdminAction>, ty: Seq<char>)
    ensures
        -1 <= action_index(actions, ty) < actions.len(),
        action_index(actions, ty) >= 0 ==> actions[action_index(actions, ty)].action_type@ == ty,
    decreases actions.len(),
{
    if actions.len() > 0 && actions[0].action_type@ != ty {
        lemma_action_index_bounds(actions.drop_first(), ty);
    }
}

/// Compares two string slices by their bytes; equal bytes decode to equal
/// character sequences.
pub fn str_eq(a: &str, b: &str) -> (r: bool)
    ensures
        r == (a@ == b@),
{
    let ab = a.as_bytes();
    let bb = b.as_bytes();
    if ab.len() != bb.len() {
        proof {
            assert(a@ != b@);
        }
        return false;
    }
    let n = ab.len();
    let mut i: usize = 0;
    while i < n
        invariant
            n == ab@.len() == bb@.len(),
            0 <= i <= n,
            ab@ == a.spec_bytes(),
            bb@ == b.spec_bytes(),
            forall|j: int| 0 <= j < i ==> ab@[j] == bb@[j],
        decreases n - i,
    {
        if ab[i] != bb[i] {
            proof {
                assert(a.spec_bytes() != b.spec_bytes());
                assert(a@ != b@);
            }
            return false;
        }
        i += 1;
    }
    proof {
        assert(a.spec_bytes() =~= b.spec_bytes());
        vstd::utf8::encode_utf8_decode_utf8(a@);
        vstd::utf8::encode_utf8_decode_utf8(b@);
    }
    true
}

/// Whether some string in `ss` has the character sequence `s`.
pub open spec fn contains_string(ss: Seq<String>, s: Seq<char>) -> bool {
    exists|m: int| 0 <= m < ss.len() && ss[m]@ == s
}

/// An action label `ty` is authorized by `sigs` when at least the required
/// number of signatures is provided and each provided signature has been
/// recorded for that action.
pub open spec fn spec_is_authorized(
    actions: Seq<AdminAction>,
    ty: Seq<char>,
    sigs: Seq<String>,
) -> bool {
    let idx = action_index(actions, ty);
    sigs.len() >= REQUIRED_SIGNATURES && idx >= 0 && (forall|k: int|
        0 <= k < sigs.len() ==> contains_string(actions[idx].signatures@, sigs[k]@))
}

/// Fewer than the required number of signatures never authorizes an
/// action; an authorized action has a pending record that contains every
/// provided signature.
pub proof fn lemma_authorization_threshold(
    actions: Seq<AdminAction>,
    ty: Seq<char>,
    sigs: Seq<String>,
)
    ensures
        sigs.len() < REQUIRED_SIGNATURES ==> !spec_is_authorized(actions, ty, sigs),
        spec_is_authorized(actions, ty, sigs) ==> sigs.len() >= REQUIRED_SIGNATURES
            && action_index(actions, ty) >= 0 && (forall|k: int|
            0 <= k < sigs.len() ==> contains_string(
                actions[action_index(actions, ty)].signatures@,
                sigs[k]@,
            )),
{
}

/// Every admin key appears at most once per action, and each signature is
/// paired with the admin that gave it.
pub open spec fn actions_wf(actions: Seq<AdminAction>) -> bool {
    forall|i: int|
        0 <= i < actions.len() ==> (#[trigger] actions[i].signatures@.len()
            == actions[i].signed_by@.len() && (forall|a: int, b: int|
            0 <= a < b < actions[i].signed_by@.len() ==> actions[i].signed_by@[a]
                != actions[i].signed_by@[b]))
}

/// Signing never removes anything: the pending list only grows, and every
/// existing action keeps its label and its already-recorded signatures
/// (new signatures may follow them).
pub open spec fn actions_extend(pre: Seq<AdminAction>, post: Seq<AdminAction>) -> bool {
    &&& post.len() >= pre.len()
    &&& (forall|j: int|
        0 <= j < pre.len() ==> #[trigger] post[j].action_type@ == pre[j].action_type@
            && pre[j].signatures@.is_prefix_of(post[j].signatures@))
}

/// Leaving the pending list unchanged extends it.
pub proof fn lemma_actions_extend_refl(s: Seq<AdminAction>)
    ensures
        actions_extend(s, s),
{
    assert forall|j: int| 0 <= j < s.len() implies #[trigger] s[j].action_type@
        == s[j].action_type@ && s[j].signatures@.is_prefix_of(s[j].signatures@) by {
        assert(s[j].signatures@ =~= s[j].signatures@.subrange(0, s[j].signatures@.len() as int));
    }
}

/// `action_index` points before every other match.
pub proof fn lemma_action_index_is_first(actions: Seq<AdminAction>, ty: Seq<char>)
    ensures
        action_index(actions, ty) >= 0 ==> forall|j: int|
            0 <= j < action_index(actions, ty) ==> actions[j].action_type@ != ty,
    decreases actions.len(),
{
    if actions.len() > 0 && actions[0].action_type@ != ty {
        lemma_action_index_is_first(actions.drop_first(), ty);
        lemma_action_index_bounds(actions, ty);
        let idx = action_index(actions, ty);
        if idx >= 0 {
            assert(action_index(actions.drop_first(), ty) == idx - 1);
            assert forall|j: int| 0 <= j < idx implies actions[j].action_type@ != ty by {
                if j > 0 {
                    assert(actions.drop_first()[j - 1] == actions[j]);
                }
            }
        }
    }
}

/// Extending the pending list never moves an existing action's index.
pub proof fn lemma_action_index_stable(pre: Seq<AdminAction>, post: Seq<AdminAction>, ty: Seq<char>)
    requires
        actions_extend(pre, post),
        action_index(pre, ty) >= 0,
    ensures
        action_index(post, ty) == action_index(pre, ty),
{
    let idx = action_index(pre, ty);
    lemma_action_index_bounds(pre, ty);
    lemma_action_index_is_first(pre, ty);
    assert(post[idx].action_type@ == ty);
    assert forall|j: int| 0 <= j < idx implies post[j].action_type@ != ty by {
        assert(post[j].action_type@ == pre[j].action_type@);
    }
    lemma_action_index_first(post, ty, idx);
}

/// No transition back: an action authorized by a set of provided
/// signatures stays authorized after any further signing.
pub proof fn lemma_authorization_stable(
    pre: Seq<AdminAction>,
    post: Seq<AdminAction>,
    ty: Seq<char>,
    sigs: Seq<String>,
)
    requires
        actions_extend(pre, post),
        spec_is_authorized(pre, ty, sigs),
    ensures
        spec_is_authorized(post, ty, sigs),
{
    let idx = action_index(pre, ty);
    lemma_action_index_bounds(pre, ty);
    lemma_action_index_stable(pre, post, ty);
    assert forall|k: int| 0 <= k < sigs.len() implies contains_string(
        post[idx].signatures@,
        sigs[k]@,
    ) by {
        assert(contains_string(pre[idx].signatures@, sigs[k]@));
        let m = choose|m: int|
            0 <= m < pre[idx].signatures@.len() && pre[idx].signatures@[m]@ == sigs[k]@;
        assert(post[idx].action_type@ == pre[idx].action_type@ && pre[idx].signatures@.is_prefix_of(
            post[idx].signatures@,
        ));
        assert(post[idx].signatures@.subrange(0, pre[idx].signatures@.len() as int)[m]
            == post[idx].signatures@[m]);
        assert(post[idx].signatures@[m]@ == sigs[k]@);
    }
}

/// Records `signature` by `admin_key` for the action labelled
/// `action_type`, creating the action on its first signature.  Fails with
/// `NotAnAdmin` for a key outside the admin set and with
/// `DuplicateSignature` when the admin has already signed this action;
/// neither failure changes anything.  On success returns the action's new
/// signature count.
#[verifier::rlimit(50)]
#[verifier::spinoff_prover]
pub fn record_action_signature(
    admins: &Vec<Pubkey>,
    pending: &mut Vec<AdminAction>,
    admin_key: &Pubkey,
    action_type: String,
    description: String,
    signature: String,
) -> (r: Result<usize, ProgramError>)
    requires
        actions_wf(old(pending)@),
    ensures
        actions_wf(final(pending)@),
        actions_extend(old(pending)@, final(pending)@),
        !admins@.contains(*admin_key) ==> r == Err::<usize, ProgramError>(
            ProgramError::NotAnAdmin,
        ) && final(pending)@ == old(pending)@,
        admins@.contains(*admin_key) && action_index(old(pending)@, action_type@) >= 0 && old(
            pending,
        )@[action_index(old(pending)@, action_type@)].signed_by@.contains(*admin_key) ==> r
            == Err::<usize, ProgramError>(ProgramError::DuplicateSignature) && final(pending)@
            == old(pending)@,
        admins@.contains(*admin_key) && action_index(old(pending)@, action_type@) >= 0 && !old(
            pending,
        )@[action_index(old(pending)@, action_type@)].signed_by@.contains(*admin_key) ==> ({
            let idx = action_index(old(pending)@, action_type@);
            let pre = old(pending)@;
            let post = final(pending)@;
            &&& r matches Ok(c) && c == pre[idx].signatures@.len() + 1
            &&& post.len() == pre.len()
            &&& (forall|j: int| 0 <= j < pre.len() && j != idx ==> post[j] == pre[j])
            &&& post[idx].action_type == pre[idx].action_type
            &&& post[idx].description == pre[idx].description
            &&& post[idx].signatures@ == pre[idx].signatures@.push(signature)
            &&& post[idx].signed_by@ == pre[idx].signed_by@.push(*admin_key)
        }),
        admins@.contains(*admin_key) && action_index(old(pending)@, action_type@) == -1 ==> ({
            let pre = old(pending)@;
            let post = final(pending)@;
            &&& r == Ok::<usize, ProgramError>(1)
            &&& post.len() == pre.len() + 1
            &&& (forall|j: int| 0 <= j < pre.len() ==> post[j] == pre[j])
            &&& post[pre.len() as int].action_type == action_type
            &&& post[pre.len() as int].description == description
            &&& post[pre.len() as int].signatures@ == seq![signature]
            &&& post[pre.len() as int].signed_by@ == seq![*admin_key]
        }),
{
    let mut is_member = false;
    let mut i: usize = 0;
    while i < admins.len()
        invariant
            0 <= i <= admins@.len(),
            is_member == (exists|j: int| 0 <= j < i && admins@[j] == *admin_key),
        decreases admins@.len() - i,
    {
        if admins[i] == *admin_key {
            is_member = true;
        }
        i += 1;
    }
    if !is_member {
        proof {
            lemma_actions_extend_refl(pending@);
        }
        return Err(OVTError::NotAnAdmin.to_program_error());
    }
    let mut found: usize = 0;
    let mut has_found = false;
    let mut k: usize = 0;
    while k < pending.len()
        invariant
            0 <= k <= pending@.len(),
            !has_found ==> (forall|j: int| 0 <= j < k ==> pending@[j].action_type@ != action_type@),
            has_found ==> 0 <= found < k && pending@[found as int].action_type@ == action_type@ && (
            forall|j: int| 0 <= j < found ==> pending@[j].action_type@ != action_type@),
        decreases pending@.len() - k,
    {
        if !has_found && pending[k].action_type == action_type {
            found = k;
            has_found = true;
        }
        k += 1;
    }
    proof {
        if has_found {
            lemma_action_index_first(pending@, action_type@, found as int);
        } else {
            lemma_action_index_none(pending@, action_type@);
        }
    }
    if has_found {
        let action = &mut pending[found];
        let mut already_signed = false;
        let mut m: usize = 0;
        while m < action.signed_by.len()
            invariant
                0 <= m <= action.signed_by@.len(),
                already_signed == (exists|j: int|
                    0 <= j < m && action.signed_by@[j] == *admin_key),
            decreases action.signed_by@.len() - m,
        {
            if action.signed_by[m] == *admin_key {
                already_signed = true;
            }
            m += 1;
        }
        if already_signed {
            proof {
                assert(final(pending)@ =~= old(pending)@);
                lemma_actions_extend_refl(old(pending)@);
            }
            return Err(OVTError::DuplicateSignature.to_program_error());
        }
        action.signatures.push(signature);
        action.signed_by.push(*admin_key);
        let count = action.signatures.len();
        proof {
            assert(final(pending)@ =~= old(pending)@.update(
                found as int,
                *final(action),
            ));
            let ghost post_actions = final(pending)@;
            assert(actions_wf(post_actions)) by {
                assert forall|i: int|
                    0 <= i < post_actions.len() implies (#[trigger] post_actions[i].signatures@.len()
                    == post_actions[i].signed_by@.len() && (forall|a: int, b: int|
                    0 <= a < b < post_actions[i].signed_by@.len() ==> post_actions[i].signed_by@[a]
                        != post_actions[i].signed_by@[b])) by {
                    let pre_a = old(pending)@[i];
                    assert(pre_a.signatures@.len() == pre_a.signed_by@.len());
                    if i == found {
                        assert(post_actions[i].signatures@ == pre_a.signatures@.push(signature));
                        assert(post_actions[i].signed_by@ == pre_a.signed_by@.push(*admin_key));
                        assert forall|a: int, b: int|
                            0 <= a < b < post_actions[i].signed_by@.len() implies post_actions[i].signed_by@[a]
                            != post_actions[i].signed_by@[b] by {
                            if b < pre_a.signed_by@.len() {
                                assert(pre_a.signed_by@[a] != pre_a.signed_by@[b]);
                            } else {
                                assert(post_actions[i].signed_by@[b] == *admin_key);
                                assert(pre_a.signed_by@[a] != *admin_key);
                            }
                        }
                    } else {
                        assert(post_actions[i] == pre_a);
                    }
                }
            }
            assert(actions_extend(old(pending)@, post_actions)) by {
                assert forall|j: int|
                    0 <= j < old(pending)@.len() implies #[trigger] post_actions[j].action_type@
                    == old(pending)@[j].action_type@ && old(pending)@[j].signatures@.is_prefix_of(
                    post_actions[j].signatures@,
                ) by {
                    if j == found {
                        assert(old(pending)@[j].signatures@ =~= post_actions[j].signatures@.subrange(
                            0,
                            old(pending)@[j].signatures@.len() as int,
                        ));
                    } else {
                        assert(post_actions[j] == old(pending)@[j]);
                        assert(post_actions[j].signatures@ =~= post_actions[j].signatures@.subrange(
                            0,
                            post_actions[j].signatures@.len() as int,
                        ));
                    }
                }
            }
        }
        Ok(count)
    } else {
        let action = AdminAction {
            action_type,
            description,
            signatures: vec![signature],
            signed_by: vec![*admin_key],
        };
        pending.push(action);
        proof {
            let ghost post_actions = final(pending)@;
            assert(actions_wf(post_actions)) by {
                assert forall|i: int|
                    0 <= i < post_actions.len() implies (#[trigger] post_actions[i].signatures@.len()
                    == post_actions[i].signed_by@.len() && (forall|a: int, b: int|
                    0 <= a < b < post_actions[i].signed_by@.len() ==> post_actions[i].signed_by@[a]
                        != post_actions[i].signed_by@[b])) by {
                    if i < old(pending)@.len() {
                        assert(post_actions[i] == old(pending)@[i]);
                        assert(old(pending)@[i].signatures@.len() == old(
                            pending,
                        )@[i].signed_by@.len());
                    } else {
                        assert(post_actions[i].signatures@.len() == 1);
                        assert(post_actions[i].signed_by@.len() == 1);
                    }
                }
            }
            assert(actions_extend(old(pending)@, post_actions)) by {
                assert forall|j: int|
                    0 <= j < old(pending)@.len() implies #[trigger] post_actions[j].action_type@
                    == old(pending)@[j].action_type@ && old(pending)@[j].signatures@.is_prefix_of(
                    post_actions[j].signatures@,
                ) by {
                    assert(post_actions[j] == old(pending)@[j]);
                    assert(post_actions[j].signatures@ =~= post_actions[j].signatures@.subrange(
                        0,
                        post_actions[j].signatures@.len() as int,
                    ));
                }
            }
        }
        Ok(1)
    }
}

/// Decides whether `action_type` is authorized by the provided
/// signatures: at least the required number must be provided and every one
/// must be recorded for that action.
pub fn check_action_authorized(
    pending: &Vec<AdminAction>,
    action_type: &str,
    signatures: &[String],
) -> (r: bool)
    ensures
        r == spec_is_authorized(pending@, action_type@, signatures@),
{
    if signatures.len() < REQUIRED_SIGNATURES {
        return false;
    }
    let mut found: usize = 0;
    let mut has_found = false;
    let mut k: usize = 0;
    while k < pending.len()
        invariant
            0 <= k <= pending@.len(),
            !has_found ==> (forall|j: int| 0 <= j < k ==> pending@[j].action_type@ != action_type@),
            has_found ==> 0 <= found < k && pending@[found as int].action_type@ == action_type@ && (
            forall|j: int| 0 <= j < found ==> pending@[j].action_type@ != action_type@),
        decreases pending@.len() - k,
    {
        if !has_found && str_eq(pending[k].action_type.as_str(), action_type) {
            found = k;
            has_found = true;
        }
        k += 1;
    }
    proof {
        if has_found {
            lemma_action_index_first(pending@, action_type@, found as int);
        } else {
            lemma_action_index_none(pending@, action_type@);
        }
    }
    if !has_found {
        return false;
    }
    let action = &pending[found];
    let mut k2: usize = 0;
    while k2 < signatures.len()
        invariant
            0 <= k2 <= signatures@.len(),
            0 <= found < pending@.len(),
            action_index(pending@, action_type@) == found,
            *action == pending@[found as int],
            forall|j: int| 0 <= j < k2 ==> contains_string(action.signatures@, signatures@[j]@),
        decreases signatures@.len() - k2,
    {
        let sig = &signatures[k2];
        let mut present = false;
        let mut m: usize = 0;
        while m < action.signatures.len()
            invariant
                0 <= m <= action.signatures@.len(),
                present == (exists|j: int|
                    0 <= j < m && action.signatures@[j]@ == sig@),
            decreases action.signatures@.len() - m,
        {
            if action.signatures[m] == *sig {
                present = true;
            }
            m += 1;
        }
        if !present {
            proof {
                assert(!contains_string(action.signatures@, signatures@[k2 as int]@));
                assert(!spec_is_authorized(pending@, action_type@, signatures@)) by {
                    if spec_is_authorized(pending@, action_type@, signatures@) {
                        assert(contains_string(
                            pending@[action_index(pending@, action_type@)].signatures@,
                            signatures@[k2 as int]@,
                        ));
                    }
                }
            }
            return false;
        }
        k2 += 1;
    }
    true
}

/// The bookkeeping store of the authorizer: the admin set and the pending
/// actions it guards.
pub struct MultisigAuthorizer {
    pub admins: Vec<Pubkey>,
    pub pending_actions: Vec<AdminAction>,
}

impl MultisigAuthorizer {
    /// An authorizer with the given admin set and no pending actions.
    pub fn new(admins: Vec<Pubkey>) -> (r: Self)
        ensures
            r.admins == admins,
            r.pending_actions@ == Seq::<AdminAction>::empty(),
            actions_wf(r.pending_actions@),
    {
        MultisigAuthorizer { admins, pending_actions: Vec::new() }
    }

    /// Records one admin signature for an action and returns the
    /// action's new signature count; see [`record_action_signature`].
    pub fn record_signature(
        &mut self,
        admin_key: &Pubkey,
        action_type: String,
        description: String,
        signature: String,
    ) -> (r: Result<usize, ProgramError>)
        requires
            actions_wf(old(self).pending_actions@),
        ensures
            actions_wf(final(self).pending_actions@),
            actions_extend(old(self).pending_actions@, final(self).pending_actions@),
            final(self).admins == old(self).admins,
            !old(self).admins@.contains(*admin_key) ==> r == Err::<usize, ProgramError>(
                ProgramError::NotAnAdmin,
            ) && final(self).pending_actions@ == old(self).pending_actions@,
            r is Err ==> final(self).pending_actions@ == old(self).pending_actions@,
            ({
                let pre = old(self).pending_actions@;
                let post = final(self).pending_actions@;
                let idx = action_index(pre, action_type@);
                &&& (old(self).admins@.contains(*admin_key) && idx >= 0
                    && pre[idx].signed_by@.contains(*admin_key) ==> r == Err::<
                    usize,
                    ProgramError,
                >(ProgramError::DuplicateSignature))
                &&& (old(self).admins@.contains(*admin_key) && idx >= 0
                    && !pre[idx].signed_by@.contains(*admin_key) ==> post.len() == pre.len() && (
                forall|j: int| 0 <= j < pre.len() && j != idx ==> post[j] == pre[j])
                    && post[idx].action_type == pre[idx].action_type && post[idx].description
                    == pre[idx].description && post[idx].signatures@
                    == pre[idx].signatures@.push(signature) && post[idx].signed_by@
                    == pre[idx].signed_by@.push(*admin_key) && (r matches Ok(c) && c
                    == pre[idx].signatures@.len() + 1))
                &&& (old(self).admins@.contains(*admin_key) && idx == -1 ==> post.len() == pre.len()
                    + 1 && (forall|j: int| 0 <= j < pre.len() ==> post[j] == pre[j])
                    && post[pre.len() as int].action_type == action_type
                    && post[pre.len() as int].description == description
                    && post[pre.len() as int].signatures@ == seq![signature]
                    && post[pre.len() as int].signed_by@ == seq![*admin_key] && r == Ok::<
                    usize,
                    ProgramError,
                >(1))
            }),
    {
        let ghost ty = action_type@;
        let r = record_action_signature(
            &self.admins,
            &mut self.pending_actions,
            admin_key,
            action_type,
            description,
            signature,
        );
        proof {
            lemma_action_index_bounds(old(self).pending_actions@, ty);
        }
        r
    }

    /// True iff `pubkey` is in the admin set.
    pub fn is_admin(&self, pubkey: &Pubkey) -> (r: bool)
        ensures
            r == self.admins@.contains(*pubkey),
    {
        let mut i: usize = 0;
        while i < self.admins.len()
            invariant
                0 <= i <= self.admins@.len(),
                forall|j: int| 0 <= j < i ==> self.admins@[j] != *pubkey,
            decreases self.admins@.len() - i,
        {
            if self.admins[i] == *pubkey {
                return true;
            }
            i += 1;
        }
        false
    }

    /// Whether `action_type` is authorized by the provided signatures.
    pub fn is_authorized(&self, action_type: &str, signatures: &[String]) -> (r: bool)
        ensures
            r == spec_is_authorized(self.pending_actions@, action_type@, signatures@),
    {
        check_action_authorized(&self.pending_actions, action_type, signatures)
    }
}

} // verus!
