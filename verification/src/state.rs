//! Treasury state and the bounded-change guards.
//!
//! `OVTState` is the singleton record of a deployed instance: current NAV in
//! satoshis, the treasury's 33-byte claim key, total token supply and the
//! last NAV update marker.  Every mutation passes through a guard before it
//! is committed:
//!
//! * a NAV update must keep the single-step ratio `new / old` within
//!   `[0.2, 5.0]` and the cumulative ratio against the genesis baseline
//!   within `[0.05, 41.0]` (a first update, when the current NAV is zero,
//!   is unconstrained);
//! * a supply change must keep `new / old` within `[0.9, 1.1]` (a first
//!   change, when the current supply is zero, is unconstrained).
//!
//! All ratio bounds are inclusive and are decided by exact cross
//! multiplication over the integers.

use vstd::bytes::{spec_u64_from_le_bytes, spec_u64_to_le_bytes};
use vstd::prelude::*;

use crate::codec::{read_bytes, read_u64_le, write_u64_le};
use crate::error::{OVTError, ProgramError, ProgramResult};
use crate::keys::key_parse_ok;

verus! {

/// Baseline NAV of a freshly funded instance, used as the genesis value for
/// the cumulative drift bound.
pub const INITIAL_NAV_SATS: u64 = 1_000_000;

/// Encoded size of `OVTState`: two 8-byte integers around a 33-byte key,
/// plus the 8-byte update marker.
pub const STATE_ENCODED_LEN: usize = 57;

/// Program state storing NAV and treasury data.
#[derive(Debug, Clone, Copy, PartialEq)]
pub struct OVTState {
    /// Current NAV in satoshis.
    pub nav_sats: u64,
    /// Treasury Bitcoin public key bytes (compressed, 33 bytes).
    pub treasury_pubkey_bytes: [u8; 33],
    /// Total token supply.
    pub total_supply: u64,
    /// Last NAV update marker.
    pub last_nav_update: u64,
}

/// One accepted NAV step: the ratio `candidate / current` lies in
/// `[0.2, 5.0]`, decided by cross multiplication.
pub open spec fn nav_step_ok(current: int, candidate: int) -> bool {
    5 * candidate >= current && candidate <= 5 * current
}

/// Bounded cumulative drift: the ratio `candidate / baseline` lies in
/// `[0.05, 41.0]`.
pub open spec fn nav_cumulative_ok(candidate: int, baseline: int) -> bool {
    20 * candidate >= baseline && candidate <= 41 * baseline
}

/// A NAV update is accepted when the state is uninitialized (current NAV
/// zero) or both the single-step bound and the cumulative bound hold.
pub open spec fn nav_update_ok(current: int, candidate: int, baseline: int) -> bool {
    current == 0 || (nav_step_ok(current, candidate) && nav_cumulative_ok(candidate, baseline))
}

/// An accepted step is flagged for monitoring when it moves the NAV by more
/// than a factor of two in either direction.
pub open spec fn nav_step_flagged(current: int, candidate: int) -> bool {
    current != 0 && (candidate > 2 * current || 2 * candidate < current)
}

/// A supply change is accepted when the supply is uninitialized (current
/// supply zero) or the ratio `candidate / current` lies in `[0.9, 1.1]`.
pub open spec fn supply_change_ok(current: int, candidate: int) -> bool {
    current == 0 || (10 * candidate >= 9 * current && 10 * candidate <= 11 * current)
}

/// Whether an accepted NAV step should be flagged for monitoring.  The
/// flag is an observability signal only; it never rejects an update.
pub fn nav_change_flagged(current_nav: u64, candidate_nav: u64) -> (r: bool)
    ensures
        r == nav_step_flagged(current_nav as int, candidate_nav as int),
{
    if current_nav == 0 {
        return false;
    }
    let current = current_nav as u128;
    let candidate = candidate_nav as u128;
    candidate > 2 * current || 2 * candidate < current
}

/// The NAV guard: accepts or rejects a candidate NAV against the current
/// value and the genesis baseline.
pub fn validate_nav_change(current_nav: u64, candidate_nav: u64, baseline_nav: u64) -> (r: Result<
    (),
    OVTError,
>)
    ensures
        r is Ok <==> nav_update_ok(current_nav as int, candidate_nav as int, baseline_nav as int),
        r is Err ==> r == Err::<(), OVTError>(OVTError::InvalidNAVUpdate),
{
    if current_nav == 0 {
        return Ok(());
    }
    let current = current_nav as u128;
    let candidate = candidate_nav as u128;
    let baseline = baseline_nav as u128;
    if 5 * candidate < current || candidate > 5 * current {
        return Err(OVTError::InvalidNAVUpdate);
    }
    if 20 * candidate < baseline || candidate > 41 * baseline {
        return Err(OVTError::InvalidNAVUpdate);
    }
    Ok(())
}

/// The supply guard: accepts or rejects a candidate supply against the
/// current value.
pub fn validate_supply_bound(current_supply: u64, candidate_supply: u64) -> (r: Result<
    (),
    OVTError,
>)
    ensures
        r is Ok <==> supply_change_ok(current_supply as int, candidate_supply as int),
        r is Err ==> r == Err::<(), OVTError>(OVTError::InvalidSupplyChange),
{
    if current_supply == 0 {
        return Ok(());
    }
    let current = current_supply as u128;
    let candidate = candidate_supply as u128;
    if 10 * candidate < 9 * current || 10 * candidate > 11 * current {
        return Err(OVTError::InvalidSupplyChange);
    }
    Ok(())
}

/// Byte-level encoding of a treasury state record.
pub open spec fn spec_encode_state(s: OVTState) -> Seq<u8> {
    spec_u64_to_le_bytes(s.nav_sats) + s.treasury_pubkey_bytes@ + spec_u64_to_le_bytes(
        s.total_supply,
    ) + spec_u64_to_le_bytes(s.last_nav_update)
}

/// The NAV field of an encoded state record.
pub open spec fn spec_state_nav(d: Seq<u8>) -> u64 {
    spec_u64_from_le_bytes(d.subrange(0, 8))
}

/// The treasury key bytes of an encoded state record.
pub open spec fn spec_state_key(d: Seq<u8>) -> Seq<u8> {
    d.subrange(8, 41)
}

/// The supply field of an encoded state record.
pub open spec fn spec_state_supply(d: Seq<u8>) -> u64 {
    spec_u64_from_le_bytes(d.subrange(41, 49))
}

/// The last-update field of an encoded state record.
pub open spec fn spec_state_last(d: Seq<u8>) -> u64 {
    spec_u64_from_le_bytes(d.subrange(49, 57))
}

/// The accessors above read back exactly the fields that were encoded.
pub proof fn lemma_state_encode_fields(s: OVTState)
    ensures
        spec_encode_state(s).len() == STATE_ENCODED_LEN,
        spec_state_nav(spec_encode_state(s)) == s.nav_sats,
        spec_state_key(spec_encode_state(s)) == s.treasury_pubkey_bytes@,
        spec_state_supply(spec_encode_state(s)) == s.total_supply,
        spec_state_last(spec_encode_state(s)) == s.last_nav_update,
{
    vstd::bytes::lemma_auto_spec_u64_to_from_le_bytes();
    let d = spec_encode_state(s);
    assert(d.subrange(0, 8) =~= spec_u64_to_le_bytes(s.nav_sats));
    assert(d.subrange(8, 41) =~= s.treasury_pubkey_bytes@);
    assert(d.subrange(41, 49) =~= spec_u64_to_le_bytes(s.total_supply));
    assert(d.subrange(49, 57) =~= spec_u64_to_le_bytes(s.last_nav_update));
}

/// Two states with the same encoding are the same state.
pub proof fn lemma_encode_state_injective(s1: OVTState, s2: OVTState)
    requires
        spec_encode_state(s1) == spec_encode_state(s2),
    ensures
        s1 == s2,
{
    vstd::bytes::lemma_auto_spec_u64_to_from_le_bytes();
    let b1 = spec_encode_state(s1);
    let b2 = spec_encode_state(s2);
    assert(b1.subrange(0, 8) =~= spec_u64_to_le_bytes(s1.nav_sats));
    assert(b2.subrange(0, 8) =~= spec_u64_to_le_bytes(s2.nav_sats));
    assert(b1.subrange(8, 41) =~= s1.treasury_pubkey_bytes@);
    assert(b2.subrange(8, 41) =~= s2.treasury_pubkey_bytes@);
    assert(b1.subrange(41, 49) =~= spec_u64_to_le_bytes(s1.total_supply));
    assert(b2.subrange(41, 49) =~= spec_u64_to_le_bytes(s2.total_supply));
    assert(b1.subrange(49, 57) =~= spec_u64_to_le_bytes(s1.last_nav_update));
    assert(b2.subrange(49, 57) =~= spec_u64_to_le_bytes(s2.last_nav_update));
    assert(s1.nav_sats == s2.nav_sats);
    assert(s1.treasury_pubkey_bytes =~= s2.treasury_pubkey_bytes);
    assert(s1.total_supply == s2.total_supply);
    assert(s1.last_nav_update == s2.last_nav_update);
}

impl OVTState {
    /// Serializes this state into its 57-byte record.
    pub fn encode(&self) -> (r: Vec<u8>)
        ensures
            r@ == spec_encode_state(*self),
            r@.len() == STATE_ENCODED_LEN,
    {
        proof {
            vstd::bytes::lemma_auto_spec_u64_to_from_le_bytes();
        }
        let mut out: Vec<u8> = Vec::new();
        write_u64_le(&mut out, self.nav_sats);
        let mut i: usize = 0;
        while i < 33
            invariant
                0 <= i <= 33,
                out@ =~= spec_u64_to_le_bytes(self.nav_sats) + self.treasury_pubkey_bytes@.take(
                    i as int,
                ),
            decreases 33 - i,
        {
            out.push(self.treasury_pubkey_bytes[i]);
            proof {
                assert(out@ =~= spec_u64_to_le_bytes(self.nav_sats)
                    + self.treasury_pubkey_bytes@.take(i + 1));
            }
            i += 1;
        }
        write_u64_le(&mut out, self.total_supply);
        write_u64_le(&mut out, self.last_nav_update);
        proof {
            assert(self.treasury_pubkey_bytes@.take(33) =~= self.treasury_pubkey_bytes@);
            assert(out@ =~= spec_encode_state(*self));
        }
        out
    }

    /// Deserializes a 57-byte record.  Returns `None` exactly when `data`
    /// does not have the record length; otherwise the returned state
    /// re-encodes to `data`.
    pub fn decode(data: &[u8]) -> (r: Option<OVTState>)
        ensures
            r is Some <==> data@.len() == STATE_ENCODED_LEN,
            r matches Some(s) ==> spec_encode_state(s) == data@,
    {
        proof {
            vstd::bytes::lemma_auto_spec_u64_to_from_le_bytes();
        }
        if data.len() != STATE_ENCODED_LEN {
            return None;
        }
        let nav_sats = read_u64_le(data, 0);
        let mut treasury_pubkey_bytes = [0u8; 33];
        let mut i: usize = 0;
        while i < 33
            invariant
                0 <= i <= 33,
                data@.len() == 57,
                forall|j: int| 0 <= j < i ==> treasury_pubkey_bytes@[j] == data@[8 + j],
            decreases 33 - i,
        {
            treasury_pubkey_bytes[i] = data[8 + i];
            i += 1;
        }
        let total_supply = read_u64_le(data, 41);
        let last_nav_update = read_u64_le(data, 49);
        let s = OVTState { nav_sats, treasury_pubkey_bytes, total_supply, last_nav_update };
        proof {
            assert(spec_encode_state(s) =~= data@) by {
                assert(data@.subrange(0, 8) =~= spec_u64_to_le_bytes(nav_sats));
                assert(treasury_pubkey_bytes@ =~= data@.subrange(8, 41));
                assert(data@.subrange(41, 49) =~= spec_u64_to_le_bytes(total_supply));
                assert(data@.subrange(49, 57) =~= spec_u64_to_le_bytes(last_nav_update));
            }
        }
        Some(s)
    }

    /// Round trip: decoding an encoded state yields the state itself.
    pub proof fn lemma_state_codec_round_trip(s: OVTState, t: OVTState)
        requires
            spec_encode_state(t) == spec_encode_state(s),
        ensures
            t == s,
    {
        lemma_encode_state_injective(t, s);
    }

    /// Whether the stored treasury key parses as a Bitcoin public key.
    pub open spec fn treasury_key_ok(&self) -> bool {
        key_parse_ok(self.treasury_pubkey_bytes@)
    }

    /// Stores the compressed encoding of `pubkey` as the treasury claim
    /// key; the stored key is always valid afterwards.
    pub fn set_treasury_pubkey(&mut self, pubkey: &bitcoin::PublicKey)
        ensures
            final(self).treasury_key_ok(),
            final(self).nav_sats == old(self).nav_sats,
            final(self).total_supply == old(self).total_supply,
            final(self).last_nav_update == old(self).last_nav_update,
    {
        self.treasury_pubkey_bytes = crate::keys::serialize_public_key(pubkey);
    }

    /// Parses the stored treasury key.
    pub fn get_treasury_pubkey(&self) -> (r: Result<bitcoin::PublicKey, ProgramError>)
        ensures
            r is Ok <==> self.treasury_key_ok(),
            r is Err ==> (r matches Err(e) && e == ProgramError::InvalidTreasuryKey),
    {
        match crate::keys::parse_public_key(&self.treasury_pubkey_bytes) {
            Some(key) => Ok(key),
            None => Err(OVTError::InvalidTreasuryKey.to_program_error()),
        }
    }

    /// Validates the stored treasury key.
    pub fn validate_treasury(&self) -> (r: ProgramResult)
        ensures
            r is Ok <==> self.treasury_key_ok(),
            r is Err ==> r == Err::<(), ProgramError>(ProgramError::InvalidTreasuryKey),
    {
        match self.get_treasury_pubkey() {
            Ok(_) => Ok(()),
            Err(e) => Err(e),
        }
    }

    /// Runs the NAV guard against this state, with the genesis baseline.
    pub fn validate_nav_update(&self, new_nav_sats: u64) -> (r: ProgramResult)
        ensures
            r is Ok <==> nav_update_ok(
                self.nav_sats as int,
                new_nav_sats as int,
                INITIAL_NAV_SATS as int,
            ),
            r is Err ==> r == Err::<(), ProgramError>(ProgramError::InvalidNAVUpdate),
    {
        match validate_nav_change(self.nav_sats, new_nav_sats, INITIAL_NAV_SATS) {
            Ok(()) => Ok(()),
            Err(e) => Err(e.to_program_error()),
        }
    }

    /// Runs the supply guard against this state.
    pub fn validate_supply_change(&self, new_supply: u64) -> (r: ProgramResult)
        ensures
            r is Ok <==> supply_change_ok(self.total_supply as int, new_supply as int),
            r is Err ==> r == Err::<(), ProgramError>(ProgramError::InvalidSupplyChange),
    {
        match validate_supply_bound(self.total_supply, new_supply) {
            Ok(()) => Ok(()),
            Err(e) => Err(e.to_program_error()),
        }
    }
}

} // verus!
