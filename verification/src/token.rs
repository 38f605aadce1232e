//! Token mint and token account records of the runtime model.
//!
//! Both records are stored in account buffers with a fixed-width layout:
//! keys as raw bytes, integers little-endian, and optional fields as a tag
//! byte followed by a fixed-width payload that is all zero when absent.

use vstd::bytes::{spec_u64_from_le_bytes, spec_u64_to_le_bytes};
use vstd::prelude::*;

use crate::codec::{read_u64_le, write_u64_le};
use crate::error::ProgramError;
use crate::runtime::{all_zero, Pubkey};

verus! {

/// Encoded size of a `Mint` record.
pub const MINT_ENCODED_LEN: usize = 41;

/// Encoded size of a `TokenAccount` record.
pub const TOKEN_ACCOUNT_ENCODED_LEN: usize = 156;

/// A token mint: its authority, current supply and decimal places.
#[derive(Debug, Clone, Copy, PartialEq)]
pub struct Mint {
    pub authority: Pubkey,
    pub supply: u64,
    pub decimals: u8,
}

/// A token holding: the mint it belongs to, its owner and balance, and the
/// delegation bookkeeping of the runtime model.
#[derive(Debug, Clone, Copy, PartialEq)]
pub struct TokenAccount {
    pub mint: Pubkey,
    pub owner: Pubkey,
    pub amount: u64,
    pub delegate: Option<Pubkey>,
    pub state: u8,
    pub is_native: Option<u64>,
    pub delegated_amount: u64,
    pub close_authority: Option<Pubkey>,
}

/// Fixed-width encoding of an optional key: tag byte then 32 payload
/// bytes, zero when absent.
pub open spec fn spec_encode_opt_key(o: Option<Pubkey>) -> Seq<u8> {
    match o {
        None => seq![0u8] + Seq::new(32, |i: int| 0u8),
        Some(k) => seq![1u8] + k.0@,
    }
}

/// Fixed-width encoding of an optional integer: tag byte then 8 payload
/// bytes, zero when absent.
pub open spec fn spec_encode_opt_u64(o: Option<u64>) -> Seq<u8> {
    match o {
        None => seq![0u8] + spec_u64_to_le_bytes(0u64),
        Some(x) => seq![1u8] + spec_u64_to_le_bytes(x),
    }
}

/// Byte-level encoding of a mint record.
pub open spec fn spec_encode_mint(m: Mint) -> Seq<u8> {
    m.authority.0@ + spec_u64_to_le_bytes(m.supply) + seq![m.decimals]
}

/// Byte-level encoding of a token account record.
pub open spec fn spec_encode_token_account(t: TokenAccount) -> Seq<u8> {
    t.mint.0@ + t.owner.0@ + spec_u64_to_le_bytes(t.amount) + spec_encode_opt_key(t.delegate)
        + seq![t.state] + spec_encode_opt_u64(t.is_native) + spec_u64_to_le_bytes(
        t.delegated_amount,
    ) + spec_encode_opt_key(t.close_authority)
}

/// Appends the 32 bytes of `k` to `out`.
fn write_key(out: &mut Vec<u8>, k: &Pubkey)
    ensures
        final(out)@ == old(out)@ + k.0@,
{
    let mut i: usize = 0;
    while i < 32
        invariant
            0 <= i <= 32,
            out@ =~= old(out)@ + k.0@.take(i as int),
        decreases 32 - i,
    {
        out.push(k.0[i]);
        proof {
            assert(out@ =~= old(out)@ + k.0@.take(i + 1));
        }
        i += 1;
    }
    proof {
        assert(k.0@.take(32) =~= k.0@);
    }
}

/// Reads 32 bytes starting at `offset` as a key.
fn read_key(data: &[u8], offset: usize) -> (r: Pubkey)
    requires
        offset + 32 <= data@.len(),
    ensures
        r.0@ == data@.subrange(offset as int, offset + 32),
{
    let len = data.len();
    let mut bytes = [0u8; 32];
    let mut i: usize = 0;
    while i < 32
        invariant
            len == data@.len(),
            0 <= i <= 32,
            offset + 32 <= data@.len(),
            forall|j: int| 0 <= j < i ==> bytes@[j] == data@[offset + j],
        decreases 32 - i,
    {
        bytes[i] = data[offset + i];
        i += 1;
    }
    proof {
        assert(bytes@ =~= data@.subrange(offset as int, offset + 32));
    }
    Pubkey(bytes)
}

/// Appends the fixed-width encoding of an optional key to `out`.
fn write_opt_key(out: &mut Vec<u8>, o: &Option<Pubkey>)
    ensures
        final(out)@ == old(out)@ + spec_encode_opt_key(*o),
{
    match o {
        None => {
            out.push(0u8);
            let mut i: usize = 0;
            while i < 32
                invariant
                    0 <= i <= 32,
                    out@ =~= old(out)@ + seq![0u8] + Seq::new(i as nat, |j: int| 0u8),
                decreases 32 - i,
            {
                out.push(0u8);
                proof {
                    assert(out@ =~= old(out)@ + seq![0u8] + Seq::new((i + 1) as nat, |j: int| 0u8));
                }
                i += 1;
            }
            proof {
                assert(out@ =~= old(out)@ + spec_encode_opt_key(*o));
            }
        },
        Some(k) => {
            out.push(1u8);
            write_key(out, k);
            proof {
                assert(out@ =~= old(out)@ + spec_encode_opt_key(*o));
            }
        },
    }
}

/// Appends the fixed-width encoding of an optional integer to `out`.
fn write_opt_u64(out: &mut Vec<u8>, o: &Option<u64>)
    ensures
        final(out)@ == old(out)@ + spec_encode_opt_u64(*o),
{
    match o {
        None => {
            out.push(0u8);
            write_u64_le(out, 0);
            proof {
                assert(out@ =~= old(out)@ + spec_encode_opt_u64(*o));
            }
        },
        Some(x) => {
            out.push(1u8);
            write_u64_le(out, *x);
            proof {
                assert(out@ =~= old(out)@ + spec_encode_opt_u64(*o));
            }
        },
    }
}

impl Mint {
    /// A fresh mint with zero supply.
    pub fn new(authority: Pubkey, decimals: u8) -> (r: Self)
        ensures
            r.authority == authority,
            r.supply == 0u64,
            r.decimals == decimals,
    {
        Mint { authority, supply: 0, decimals }
    }

    /// Adds `amount` to the supply; fails with `Overflow`, changing
    /// nothing, when the sum does not fit.
    pub fn mint_to(&mut self, amount: u64) -> (r: Result<(), ProgramError>)
        ensures
            old(self).supply + amount <= u64::MAX ==> r is Ok && *final(self) == (Mint {
                supply: (old(self).supply + amount) as u64,
                ..*old(self)
            }),
            old(self).supply + amount > u64::MAX ==> r == Err::<(), ProgramError>(
                ProgramError::Overflow,
            ) && *final(self) == *old(self),
    {
        match self.supply.checked_add(amount) {
            Some(s) => {
                self.supply = s;
                Ok(())
            },
            None => Err(ProgramError::Overflow),
        }
    }

    /// Removes `amount` from the supply; fails with `Overflow`, changing
    /// nothing, when the supply is smaller than `amount`.
    pub fn burn(&mut self, amount: u64) -> (r: Result<(), ProgramError>)
        ensures
            amount <= old(self).supply ==> r is Ok && *final(self) == (Mint {
                supply: (old(self).supply - amount) as u64,
                ..*old(self)
            }),
            amount > old(self).supply ==> r == Err::<(), ProgramError>(ProgramError::Overflow)
                && *final(self) == *old(self),
    {
        match self.supply.checked_sub(amount) {
            Some(s) => {
                self.supply = s;
                Ok(())
            },
            None => Err(ProgramError::Overflow),
        }
    }

    /// Serializes this mint record.
    pub fn encode(&self) -> (r: Vec<u8>)
        ensures
            r@ == spec_encode_mint(*self),
            r@.len() == MINT_ENCODED_LEN,
    {
        let mut out: Vec<u8> = Vec::new();
        write_key(&mut out, &self.authority);
        write_u64_le(&mut out, self.supply);
        out.push(self.decimals);
        proof {
            vstd::bytes::lemma_auto_spec_u64_to_from_le_bytes();
            assert(out@ =~= spec_encode_mint(*self));
        }
        out
    }

    /// Deserializes a mint record.  Returns `None` exactly when `data`
    /// does not have the record length; otherwise the returned mint
    /// re-encodes to `data`.
    pub fn decode(data: &[u8]) -> (r: Option<Mint>)
        ensures
            r is Some <==> data@.len() == MINT_ENCODED_LEN,
            r matches Some(m) ==> spec_encode_mint(m) == data@,
    {
        if data.len() != MINT_ENCODED_LEN {
            return None;
        }
        let authority = read_key(data, 0);
        let supply = read_u64_le(data, 32);
        let decimals = data[40];
        let m = Mint { authority, supply, decimals };
        proof {
            vstd::bytes::lemma_auto_spec_u64_to_from_le_bytes();
            assert(data@.subrange(32, 40) =~= spec_u64_to_le_bytes(supply));
            assert(spec_encode_mint(m) =~= data@);
        }
        Some(m)
    }
}

/// Whether `data` carries a well-formed optional-key field at `offset`:
/// tag zero with an all-zero payload, or tag one.
pub open spec fn wf_opt_key_at(data: Seq<u8>, offset: int) -> bool {
    (data[offset] == 0u8 && all_zero(data.subrange(offset + 1, offset + 33))) || data[offset]
        == 1u8
}

/// Whether `data` carries a well-formed optional-integer field at
/// `offset`.
pub open spec fn wf_opt_u64_at(data: Seq<u8>, offset: int) -> bool {
    (data[offset] == 0u8 && vstd::bytes::spec_u64_from_le_bytes(
        data.subrange(offset + 1, offset + 9),
    ) == 0u64) || data[offset] == 1u8
}

/// Whether `data` is the encoding of some token account record.
pub open spec fn wf_token_account_encoding(data: Seq<u8>) -> bool {
    data.len() == TOKEN_ACCOUNT_ENCODED_LEN && wf_opt_key_at(data, 72) && wf_opt_u64_at(data, 106)
        && wf_opt_key_at(data, 123)
}

impl TokenAccount {
    /// Serializes this token account record.
    pub fn encode(&self) -> (r: Vec<u8>)
        ensures
            r@ == spec_encode_token_account(*self),
            r@.len() == TOKEN_ACCOUNT_ENCODED_LEN,
            wf_token_account_encoding(r@),
    {
        let mut out: Vec<u8> = Vec::new();
        write_key(&mut out, &self.mint);
        write_key(&mut out, &self.owner);
        write_u64_le(&mut out, self.amount);
        write_opt_key(&mut out, &self.delegate);
        out.push(self.state);
        write_opt_u64(&mut out, &self.is_native);
        write_u64_le(&mut out, self.delegated_amount);
        write_opt_key(&mut out, &self.close_authority);
        proof {
            vstd::bytes::lemma_auto_spec_u64_to_from_le_bytes();
            assert(out@ =~= spec_encode_token_account(*self));
            assert(wf_opt_key_at(out@, 72)) by {
                assert(out@.subrange(72, 105) =~= spec_encode_opt_key(self.delegate));
                if self.delegate is None {
                    assert(out@.subrange(73, 105) =~= Seq::new(32, |i: int| 0u8));
                    assert(all_zero(out@.subrange(73, 105)));
                }
            }
            assert(wf_opt_u64_at(out@, 106)) by {
                assert(out@.subrange(106, 115) =~= spec_encode_opt_u64(self.is_native));
                if self.is_native is None {
                    assert(out@.subrange(107, 115) =~= spec_u64_to_le_bytes(0u64));
                }
            }
            assert(wf_opt_key_at(out@, 123)) by {
                assert(out@.subrange(123, 156) =~= spec_encode_opt_key(self.close_authority));
                if self.close_authority is None {
                    assert(out@.subrange(124, 156) =~= Seq::new(32, |i: int| 0u8));
                    assert(all_zero(out@.subrange(124, 156)));
                }
            }
        }
        out
    }

    /// Deserializes a token account record.  Returns `None` exactly when
    /// `data` is not the encoding of any record; otherwise the returned
    /// record re-encodes to `data`.
    pub fn decode(data: &[u8]) -> (r: Option<TokenAccount>)
        ensures
            r is Some <==> wf_token_account_encoding(data@),
            r matches Some(t) ==> spec_encode_token_account(t) == data@,
    {
        proof {
            vstd::bytes::lemma_auto_spec_u64_to_from_le_bytes();
        }
        if data.len() != TOKEN_ACCOUNT_ENCODED_LEN {
            return None;
        }
        let mint = read_key(data, 0);
        let owner = read_key(data, 32);
        let amount = read_u64_le(data, 64);
        let delegate: Option<Pubkey> = if data[72] == 0 {
            if !zero_bytes_at(data, 73, 32) {
                return None;
            }
            None
        } else if data[72] == 1 {
            Some(read_key(data, 73))
        } else {
            return None;
        };
        let state = data[105];
        let is_native: Option<u64> = if data[106] == 0 {
            if read_u64_le(data, 107) != 0 {
                return None;
            }
            None
        } else if data[106] == 1 {
            Some(read_u64_le(data, 107))
        } else {
            return None;
        };
        let delegated_amount = read_u64_le(data, 115);
        let close_authority: Option<Pubkey> = if data[123] == 0 {
            if !zero_bytes_at(data, 124, 32) {
                return None;
            }
            None
        } else if data[123] == 1 {
            Some(read_key(data, 124))
        } else {
            return None;
        };
        let t = TokenAccount {
            mint,
            owner,
            amount,
            delegate,
            state,
            is_native,
            delegated_amount,
            close_authority,
        };
        proof {
            assert(data@.subrange(64, 72) =~= spec_u64_to_le_bytes(amount));
            assert(data@.subrange(72, 105) =~= spec_encode_opt_key(t.delegate)) by {
                if data@[72] == 0u8 {
                    assert(all_zero(data@.subrange(73, 105)));
                    assert(data@.subrange(73, 105) =~= Seq::new(32, |i: int| 0u8));
                }
            }
            assert(data@.subrange(106, 115) =~= spec_encode_opt_u64(t.is_native)) by {
                if data@[106] == 0u8 {
                    assert(data@.subrange(107, 115) =~= spec_u64_to_le_bytes(
                        spec_u64_from_le_bytes(data@.subrange(107, 115)),
                    ));
                } else {
                    assert(data@.subrange(107, 115) =~= spec_u64_to_le_bytes(
                        spec_u64_from_le_bytes(data@.subrange(107, 115)),
                    ));
                }
            }
            assert(data@.subrange(115, 123) =~= spec_u64_to_le_bytes(delegated_amount));
            assert(data@.subrange(123, 156) =~= spec_encode_opt_key(t.close_authority)) by {
                if data@[123] == 0u8 {
                    assert(all_zero(data@.subrange(124, 156)));
                    assert(data@.subrange(124, 156) =~= Seq::new(32, |i: int| 0u8));
                }
            }
            assert(spec_encode_token_account(t) =~= data@);
        }
        Some(t)
    }
}

/// True iff the `n` bytes at `offset` are all zero.
fn zero_bytes_at(data: &[u8], offset: usize, n: usize) -> (r: bool)
    requires
        offset + n <= data@.len(),
    ensures
        r == all_zero(data@.subrange(offset as int, offset + n)),
{
    let len = data.len();
    let ghost sub = data@.subrange(offset as int, offset + n);
    let mut i: usize = 0;
    while i < n
        invariant
            len == data@.len(),
            0 <= i <= n,
            offset + n <= data@.len(),
            sub == data@.subrange(offset as int, offset + n),
            forall|j: int| 0 <= j < i ==> sub[j] == 0u8,
        decreases n - i,
    {
        if data[offset + i] != 0 {
            proof {
                assert(sub[i as int] == data@[offset + i]);
                assert(!all_zero(sub));
            }
            return false;
        }
        proof {
            assert(sub[i as int] == data@[offset + i]);
        }
        i += 1;
    }
    proof {
        assert(all_zero(sub));
    }
    true
}

} // verus!
