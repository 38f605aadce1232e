//! Bitcoin UTXO payment verification.
//!
//! A `UtxoMeta` claim is presented alongside a buyback instruction as
//! unowned evidence of a payment: transaction id, output index, amount,
//! the claimed owner script bytes and the confirmation count.  The verifier
//! establishes, in order, that the claim belongs to the treasury, that it
//! is confirmed deeply enough, and that it pays at least the expected
//! amount; only then is the claim trusted.  Claims travel in an account's
//! byte buffer, encoded with the crate's binary format.

use vstd::bytes::{
    spec_u32_from_le_bytes,
    spec_u32_to_le_bytes,
    spec_u64_from_le_bytes,
    spec_u64_to_le_bytes,
};
use vstd::prelude::*;
use vstd::utf8::{encode_utf8, valid_utf8};

use crate::codec::{read_bytes, read_u32_le, read_u64_le, write_u32_le, write_u64_le};
use crate::error::{OVTError, ProgramError};
use crate::runtime::{AccountInfo, Pubkey};

verus! {

/// Minimum confirmation count a payment claim must have before it is
/// trusted.
pub const MIN_CLAIM_CONFIRMATIONS: u32 = 6;

/// An externally supplied claim about one Bitcoin transaction output.
#[derive(Debug, PartialEq)]
pub struct UtxoMeta {
    pub txid: String,
    pub vout: u32,
    pub amount: u64,
    pub script_pubkey: Vec<u8>,
    pub confirmations: u32,
}

impl Clone for UtxoMeta {
    fn clone(&self) -> (r: Self)
        ensures
            r.txid == self.txid,
            r.vout == self.vout,
            r.amount == self.amount,
            r.script_pubkey@ == self.script_pubkey@,
            r.confirmations == self.confirmations,
    {
        UtxoMeta {
            txid: self.txid.clone(),
            vout: self.vout,
            amount: self.amount,
            script_pubkey: self.script_pubkey.clone(),
            confirmations: self.confirmations,
        }
    }
}

/// A verified payment: the claim's transaction id and amount, together
/// with the claim itself for downstream use.
#[derive(Debug)]
pub struct BitcoinPayment {
    pub txid: String,
    pub amount_sats: u64,
    pub utxo: UtxoMeta,
}

/// Length of the claim's transaction-id field.
pub open spec fn claim_txid_len(b: Seq<u8>) -> int {
    spec_u32_from_le_bytes(b.subrange(0, 4)) as int
}

/// Length of the claim's owner-script field.
pub open spec fn claim_script_len(b: Seq<u8>) -> int {
    let n1 = claim_txid_len(b);
    spec_u32_from_le_bytes(b.subrange(16 + n1, 20 + n1)) as int
}

/// Whether `b` is the encoding of some claim.
pub open spec fn wf_claim_encoding(b: Seq<u8>) -> bool {
    let n1 = claim_txid_len(b);
    let n2 = claim_script_len(b);
    b.len() >= 24 && b.len() >= 24 + n1 && b.len() == 24 + n1 + n2 && valid_utf8(
        b.subrange(4, 4 + n1),
    )
}

/// The UTF-8 bytes of the encoded claim's transaction id.
pub open spec fn claim_txid_bytes_of(b: Seq<u8>) -> Seq<u8> {
    b.subrange(4, 4 + claim_txid_len(b))
}

/// The encoded claim's output index.
pub open spec fn claim_vout_of(b: Seq<u8>) -> u32 {
    let n1 = claim_txid_len(b);
    spec_u32_from_le_bytes(b.subrange(4 + n1, 8 + n1))
}

/// The encoded claim's amount in satoshis.
pub open spec fn claim_amount_of(b: Seq<u8>) -> u64 {
    let n1 = claim_txid_len(b);
    spec_u64_from_le_bytes(b.subrange(8 + n1, 16 + n1))
}

/// The encoded claim's owner script bytes.
pub open spec fn claim_script_of(b: Seq<u8>) -> Seq<u8> {
    let n1 = claim_txid_len(b);
    let n2 = claim_script_len(b);
    b.subrange(20 + n1, 20 + n1 + n2)
}

/// The encoded claim's confirmation count.
pub open spec fn claim_confirmations_of(b: Seq<u8>) -> u32 {
    let n1 = claim_txid_len(b);
    let n2 = claim_script_len(b);
    spec_u32_from_le_bytes(b.subrange(20 + n1 + n2, 24 + n1 + n2))
}

/// Byte-level encoding of a claim.
pub open spec fn spec_encode_claim(c: UtxoMeta) -> Seq<u8> {
    spec_u32_to_le_bytes(encode_utf8(c.txid@).len() as u32) + encode_utf8(c.txid@)
        + spec_u32_to_le_bytes(c.vout) + spec_u64_to_le_bytes(c.amount) + spec_u32_to_le_bytes(
        c.script_pubkey@.len() as u32,
    ) + c.script_pubkey@ + spec_u32_to_le_bytes(c.confirmations)
}

/// Whether a claim's variable-length fields fit their 32-bit length
/// prefixes.
pub open spec fn claim_encodable(c: UtxoMeta) -> bool {
    encode_utf8(c.txid@).len() <= u32::MAX && c.script_pubkey@.len() <= u32::MAX
}

impl UtxoMeta {
    /// Serializes this claim.
    pub fn encode(&self) -> (r: Vec<u8>)
        requires
            claim_encodable(*self),
        ensures
            r@ == spec_encode_claim(*self),
            wf_claim_encoding(r@),
            claim_txid_bytes_of(r@) == encode_utf8(self.txid@),
            claim_vout_of(r@) == self.vout,
            claim_amount_of(r@) == self.amount,
            claim_script_of(r@) == self.script_pubkey@,
            claim_confirmations_of(r@) == self.confirmations,
    {
        proof {
            vstd::bytes::lemma_auto_spec_u64_to_from_le_bytes();
            vstd::bytes::lemma_auto_spec_u32_to_from_le_bytes();
        }
        let mut out: Vec<u8> = Vec::new();
        let txid_bytes = self.txid.as_str().as_bytes();
        write_u32_le(&mut out, txid_bytes.len() as u32);
        let mut txid_vec = vstd::slice::slice_to_vec(txid_bytes);
        out.append(&mut txid_vec);
        write_u32_le(&mut out, self.vout);
        write_u64_le(&mut out, self.amount);
        write_u32_le(&mut out, self.script_pubkey.len() as u32);
        let mut script_vec = self.script_pubkey.clone();
        out.append(&mut script_vec);
        write_u32_le(&mut out, self.confirmations);
        proof {
            broadcast use vstd::utf8::encode_utf8_valid_utf8;

            assert(out@ =~= spec_encode_claim(*self));
            let b = out@;
            let n1 = encode_utf8(self.txid@).len() as int;
            let n2 = self.script_pubkey@.len() as int;
            assert(b.subrange(0, 4) =~= spec_u32_to_le_bytes(n1 as u32));
            assert(b.subrange(4, 4 + n1) =~= encode_utf8(self.txid@));
            assert(b.subrange(4 + n1, 8 + n1) =~= spec_u32_to_le_bytes(self.vout));
            assert(b.subrange(8 + n1, 16 + n1) =~= spec_u64_to_le_bytes(self.amount));
            assert(b.subrange(16 + n1, 20 + n1) =~= spec_u32_to_le_bytes(n2 as u32));
            assert(b.subrange(20 + n1, 20 + n1 + n2) =~= self.script_pubkey@);
            assert(b.subrange(20 + n1 + n2, 24 + n1 + n2) =~= spec_u32_to_le_bytes(
                self.confirmations,
            ));
        }
        out
    }

    /// Deserializes a claim.  Returns `None` exactly when `data` is not the
    /// encoding of any claim; otherwise the returned claim re-encodes to
    /// `data`.
    pub fn decode(data: &[u8]) -> (r: Option<UtxoMeta>)
        ensures
            r is Some <==> wf_claim_encoding(data@),
            r matches Some(c) ==> spec_encode_claim(c) == data@ && claim_encodable(c)
                && encode_utf8(c.txid@) == claim_txid_bytes_of(data@) && c.vout == claim_vout_of(
                data@,
            ) && c.amount == claim_amount_of(data@) && c.script_pubkey@ == claim_script_of(data@)
                && c.confirmations == claim_confirmations_of(data@),
    {
        proof {
            vstd::bytes::lemma_auto_spec_u64_to_from_le_bytes();
            vstd::bytes::lemma_auto_spec_u32_to_from_le_bytes();
        }
        if data.len() < 24 {
            return None;
        }
        let n1_32 = read_u32_le(data, 0);
        let n1 = n1_32 as usize;
        if data.len() - 24 < n1 {
            return None;
        }
        let n2_32 = read_u32_le(data, 16 + n1);
        let n2 = n2_32 as usize;
        if data.len() - 24 - n1 != n2 {
            return None;
        }
        let txid_bytes = read_bytes(data, 4, n1);
        let ghost txid_seq = txid_bytes@;
        let txid = match crate::codec::string_from_utf8(txid_bytes) {
            None => {
                proof {
                    assert(!wf_claim_encoding(data@));
                }
                return None;
            },
            Some(s) => s,
        };
        let vout = read_u32_le(data, 4 + n1);
        let amount = read_u64_le(data, 8 + n1);
        let script_pubkey = read_bytes(data, 20 + n1, n2);
        let confirmations = read_u32_le(data, 20 + n1 + n2);
        let c = UtxoMeta { txid, vout, amount, script_pubkey, confirmations };
        proof {
            let b = data@;
            assert(encode_utf8(c.txid@) == txid_seq);
            assert(spec_encode_claim(c) =~= b);
        }
        Some(c)
    }
}

/// Verifies that the account presenting a claim is owned by the expected
/// identity.
pub fn verify_utxo_ownership(utxo_info: &AccountInfo, owner: &Pubkey) -> (r: Result<
    (),
    ProgramError,
>)
    ensures
        r is Ok <==> utxo_info.owner == *owner,
        r is Err ==> r == Err::<(), ProgramError>(ProgramError::UTXOVerificationFailed),
{
    if utxo_info.owner == *owner {
        Ok(())
    } else {
        Err(OVTError::UTXOVerificationFailed.to_program_error())
    }
}

/// Whether the encoded claim in `d` passes every payment check: it is
/// owned by the treasury key, confirmed deeply enough, and pays at least
/// the expected amount.
pub open spec fn claim_payment_ok(d: Seq<u8>, expected_amount: u64, treasury_pubkey: Seq<u8>) -> bool {
    wf_claim_encoding(d) && claim_script_of(d) == treasury_pubkey && claim_confirmations_of(d)
        >= MIN_CLAIM_CONFIRMATIONS && claim_amount_of(d) >= expected_amount
}

/// A claim whose owning key differs from the treasury key is never a
/// valid payment, whatever its amount; a claim with the correct owner and
/// enough confirmations whose amount is below the expected minimum is
/// rejected exactly for insufficient funds.
pub proof fn lemma_payment_checks(d: Seq<u8>, expected_amount: u64, treasury_pubkey: Seq<u8>)
    requires
        wf_claim_encoding(d),
    ensures
        claim_script_of(d) != treasury_pubkey ==> !claim_payment_ok(
            d,
            expected_amount,
            treasury_pubkey,
        ),
        claim_script_of(d) == treasury_pubkey && claim_confirmations_of(d)
            >= MIN_CLAIM_CONFIRMATIONS && claim_amount_of(d) < expected_amount ==> !claim_payment_ok(
            d,
            expected_amount,
            treasury_pubkey,
        ),
        claim_payment_ok(d, expected_amount, treasury_pubkey) <==> claim_script_of(d)
            == treasury_pubkey && claim_confirmations_of(d) >= MIN_CLAIM_CONFIRMATIONS
            && claim_amount_of(d) >= expected_amount,
{
}

/// Validates the payment claim carried in `utxo_info`'s buffer against
/// ownership and amount requirements.
///
/// Checks in order: the claim decodes; its owner script equals the
/// treasury key exactly; its confirmation count meets the minimum; its
/// amount covers the expected amount.  On success returns the claim's
/// transaction id and amount together with the claim itself; no state is
/// mutated.
pub fn verify_bitcoin_payment(
    utxo_info: &AccountInfo,
    expected_amount: u64,
    treasury_pubkey: &[u8; 33],
) -> (r: Result<BitcoinPayment, ProgramError>)
    ensures
        r is Ok <==> claim_payment_ok(utxo_info.data@, expected_amount, treasury_pubkey@),
        r matches Ok(p) ==> {
            let d = utxo_info.data@;
            encode_utf8(p.txid@) == claim_txid_bytes_of(d) && p.amount_sats == claim_amount_of(d)
                && spec_encode_claim(p.utxo) == d
        },
        !wf_claim_encoding(utxo_info.data@) ==> r == Err::<BitcoinPayment, ProgramError>(
            ProgramError::InvalidAccountData,
        ),
        wf_claim_encoding(utxo_info.data@) && claim_script_of(utxo_info.data@) != treasury_pubkey@
            ==> r == Err::<BitcoinPayment, ProgramError>(ProgramError::InvalidBitcoinPayment),
        wf_claim_encoding(utxo_info.data@) && claim_script_of(utxo_info.data@) == treasury_pubkey@
            && claim_confirmations_of(utxo_info.data@) < MIN_CLAIM_CONFIRMATIONS ==> r == Err::<
            BitcoinPayment,
            ProgramError,
        >(ProgramError::InsufficientConfirmations),
        wf_claim_encoding(utxo_info.data@) && claim_script_of(utxo_info.data@) == treasury_pubkey@
            && claim_confirmations_of(utxo_info.data@) >= MIN_CLAIM_CONFIRMATIONS
            && claim_amount_of(utxo_info.data@) < expected_amount ==> r == Err::<
            BitcoinPayment,
            ProgramError,
        >(ProgramError::InsufficientFunds),
{
    let claim = match UtxoMeta::decode(utxo_info.data.as_slice()) {
        Some(c) => c,
        None => {
            return Err(ProgramError::InvalidAccountData);
        },
    };
    let script_matches = {
        if claim.script_pubkey.len() != 33 {
            false
        } else {
            let mut i: usize = 0;
            let mut same = true;
            while i < 33
                invariant
                    0 <= i <= 33,
                    claim.script_pubkey@.len() == 33,
                    same == (forall|j: int|
                        0 <= j < i ==> claim.script_pubkey@[j] == treasury_pubkey@[j]),
                decreases 33 - i,
            {
                if claim.script_pubkey[i] != treasury_pubkey[i] {
                    same = false;
                }
                i += 1;
            }
            proof {
                if same {
                    assert(claim.script_pubkey@ =~= treasury_pubkey@);
                }
            }
            same
        }
    };
    if !script_matches {
        return Err(OVTError::InvalidBitcoinPayment.to_program_error());
    }
    if claim.confirmations < MIN_CLAIM_CONFIRMATIONS {
        return Err(OVTError::InsufficientConfirmations.to_program_error());
    }
    if claim.amount < expected_amount {
        return Err(OVTError::InsufficientFunds.to_program_error());
    }
    let txid = claim.txid.clone();
    let amount_sats = claim.amount;
    Ok(BitcoinPayment { txid, amount_sats, utxo: claim })
}

} // verus!
