//! Account allocation and initialization.
//!
//! The runtime model allocates by resizing an account's byte buffer and
//! assigning ownership; initialization writes a treasury state record into
//! an account the program owns.

use vstd::prelude::*;

use crate::error::{ProgramError, ProgramResult};
use crate::runtime::{AccountInfo, AccountModel, Pubkey};
use crate::state::{spec_encode_state, OVTState};

verus! {

/// Allocates `space` bytes for `account_info` and hands ownership of the
/// account to `program_id`.  The buffer is truncated or zero-padded to the
/// requested size.
pub fn create_program_account(program_id: &Pubkey, account_info: &mut AccountInfo, space: u64) -> (
    r: ProgramResult)
    requires
        space <= usize::MAX,
    ensures
        r is Ok,
        final(account_info)@ == (AccountModel {
            data: (if space <= old(account_info).data@.len() {
                old(account_info).data@.take(space as int)
            } else {
                old(account_info).data@ + Seq::new(
                    (space - old(account_info).data@.len()) as nat,
                    |i: int| 0u8,
                )
            }),
            owner: *program_id,
            ..old(account_info)@
        }),
{
    let ghost pre_data = account_info.data@;
    account_info.data.resize(space as usize, 0u8);
    proof {
        if space > pre_data.len() {
            assert(account_info.data@ =~= pre_data + Seq::new(
                (space - pre_data.len()) as nat,
                |i: int| 0u8,
            ));
        } else {
            assert(account_info.data@ =~= pre_data.take(space as int));
        }
    }
    account_info.owner = *program_id;
    Ok(())
}

/// Writes `data` into an account.  Fails, changing nothing, when the
/// account is not writable or is not owned by the program; both are
/// integration faults of the caller, surfaced as `InvalidAccountData`.
pub fn initialize_account(program_id: &Pubkey, account: &mut AccountInfo, data: &OVTState) -> (r:
    ProgramResult)
    ensures
        r is Ok <==> old(account).is_writable && old(account).owner == *program_id,
        r is Ok ==> final(account)@ == (AccountModel {
            data: spec_encode_state(*data),
            ..old(account)@
        }),
        r is Err ==> r == Err::<(), ProgramError>(ProgramError::InvalidAccountData)
            && *final(account) == *old(account),
{
    if !account.is_writable {
        return Err(ProgramError::InvalidAccountData);
    }
    if !(account.owner == *program_id) {
        return Err(ProgramError::InvalidAccountData);
    }
    match account.set_data(data) {
        Ok(()) => Ok(()),
        Err(e) => Err(e),
    }
}

} // verus!
