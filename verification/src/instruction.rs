//! The instruction set and its binary encoding.
//!
//! An instruction is a tagged union of the three operations of the core.
//! Its encoding is one tag byte followed by the fields in order:
//! fixed-width integers little-endian, strings as a 32-bit length followed
//! by their UTF-8 bytes.  Decoding is the exact inverse of encoding.

use vstd::bytes::{
    spec_u32_from_le_bytes,
    spec_u32_to_le_bytes,
    spec_u64_from_le_bytes,
    spec_u64_to_le_bytes,
};
use vstd::prelude::*;
use vstd::utf8::{encode_utf8, valid_utf8};

use crate::codec::{read_bytes, read_u64_le, read_u32_le, string_from_utf8, write_u64_le, write_u32_le};

verus! {

/// The three operations of the treasury core.
#[derive(Debug, Clone, PartialEq)]
pub enum OVTInstruction {
    /// Initialize the treasury state with its claim key.
    Initialize { treasury_pubkey_bytes: [u8; 33] },
    /// Run the NAV guard and set a new NAV.
    UpdateNAV { btc_price_sats: u64 },
    /// Verify a Bitcoin payment and burn the matching amount of tokens.
    BuybackBurn { payment_txid: String, payment_amount_sats: u64 },
}

/// Byte-level encoding of an instruction.
pub open spec fn spec_encode_instruction(i: OVTInstruction) -> Seq<u8> {
    match i {
        OVTInstruction::Initialize { treasury_pubkey_bytes } => seq![0u8]
            + treasury_pubkey_bytes@,
        OVTInstruction::UpdateNAV { btc_price_sats } => seq![1u8] + spec_u64_to_le_bytes(
            btc_price_sats,
        ),
        OVTInstruction::BuybackBurn { payment_txid, payment_amount_sats } => seq![2u8]
            + spec_u32_to_le_bytes(encode_utf8(payment_txid@).len() as u32) + encode_utf8(
            payment_txid@,
        ) + spec_u64_to_le_bytes(payment_amount_sats),
    }
}

/// Whether an instruction's string field is short enough for its 32-bit
/// length prefix.  Every instruction that can be decoded satisfies this.
pub open spec fn instruction_encodable(i: OVTInstruction) -> bool {
    match i {
        OVTInstruction::BuybackBurn { payment_txid, .. } => encode_utf8(payment_txid@).len()
            <= u32::MAX,
        _ => true,
    }
}

/// Whether `bytes` is the encoding of some instruction.
pub open spec fn wf_instruction_encoding(bytes: Seq<u8>) -> bool {
    ||| (bytes.len() == 34 && bytes[0] == 0u8)
    ||| (bytes.len() == 9 && bytes[0] == 1u8)
    ||| (bytes.len() >= 13 && bytes[0] == 2u8 && bytes.len() == 13 + spec_u32_from_le_bytes(
        bytes.subrange(1, 5),
    ) && valid_utf8(bytes.subrange(5, 5 + spec_u32_from_le_bytes(bytes.subrange(1, 5)))))
}

impl OVTInstruction {
    /// Serializes this instruction.
    pub fn encode(&self) -> (r: Vec<u8>)
        requires
            instruction_encodable(*self),
        ensures
            r@ == spec_encode_instruction(*self),
            wf_instruction_encoding(r@),
    {
        proof {
            vstd::bytes::lemma_auto_spec_u64_to_from_le_bytes();
            vstd::bytes::lemma_auto_spec_u32_to_from_le_bytes();
        }
        let mut out: Vec<u8> = Vec::new();
        match self {
            OVTInstruction::Initialize { treasury_pubkey_bytes } => {
                out.push(0u8);
                let mut i: usize = 0;
                while i < 33
                    invariant
                        0 <= i <= 33,
                        out@ =~= seq![0u8] + treasury_pubkey_bytes@.take(i as int),
                    decreases 33 - i,
                {
                    out.push(treasury_pubkey_bytes[i]);
                    proof {
                        assert(out@ =~= seq![0u8] + treasury_pubkey_bytes@.take(i + 1));
                    }
                    i += 1;
                }
                proof {
                    assert(treasury_pubkey_bytes@.take(33) =~= treasury_pubkey_bytes@);
                    assert(out@ =~= spec_encode_instruction(*self));
                }
            },
            OVTInstruction::UpdateNAV { btc_price_sats } => {
                out.push(1u8);
                write_u64_le(&mut out, *btc_price_sats);
                proof {
                    assert(out@ =~= spec_encode_instruction(*self));
                }
            },
            OVTInstruction::BuybackBurn { payment_txid, payment_amount_sats } => {
                out.push(2u8);
                let txid_bytes = payment_txid.as_str().as_bytes();
                write_u32_le(&mut out, txid_bytes.len() as u32);
                let mut txid_vec = vstd::slice::slice_to_vec(txid_bytes);
                out.append(&mut txid_vec);
                write_u64_le(&mut out, *payment_amount_sats);
                proof {
                    broadcast use vstd::utf8::encode_utf8_valid_utf8;

                    assert(out@ =~= spec_encode_instruction(*self));
                    let b = out@;
                    let n = encode_utf8(payment_txid@).len() as int;
                    assert(b.subrange(1, 5) =~= spec_u32_to_le_bytes(n as u32));
                    assert(b.subrange(5, 5 + n) =~= encode_utf8(payment_txid@));
                }
            },
        }
        out
    }

    /// Deserializes an instruction.  Returns `None` exactly when `data` is
    /// not the encoding of any instruction; otherwise the returned
    /// instruction re-encodes to `data`.
    pub fn decode(data: &[u8]) -> (r: Option<OVTInstruction>)
        ensures
            r is Some <==> wf_instruction_encoding(data@),
            r matches Some(i) ==> spec_encode_instruction(i) == data@ && instruction_encodable(i),
    {
        proof {
            vstd::bytes::lemma_auto_spec_u64_to_from_le_bytes();
            vstd::bytes::lemma_auto_spec_u32_to_from_le_bytes();
        }
        if data.len() == 0 {
            return None;
        }
        let tag = data[0];
        if tag == 0 {
            if data.len() != 34 {
                return None;
            }
            let mut treasury_pubkey_bytes = [0u8; 33];
            let mut i: usize = 0;
            while i < 33
                invariant
                    0 <= i <= 33,
                    data@.len() == 34,
                    forall|j: int| 0 <= j < i ==> treasury_pubkey_bytes@[j] == data@[1 + j],
                decreases 33 - i,
            {
                treasury_pubkey_bytes[i] = data[1 + i];
                i += 1;
            }
            let ins = OVTInstruction::Initialize { treasury_pubkey_bytes };
            proof {
                assert(spec_encode_instruction(ins) =~= data@);
            }
            Some(ins)
        } else if tag == 1 {
            if data.len() != 9 {
                return None;
            }
            let btc_price_sats = read_u64_le(data, 1);
            let ins = OVTInstruction::UpdateNAV { btc_price_sats };
            proof {
                assert(data@.subrange(1, 9) =~= spec_u64_to_le_bytes(btc_price_sats));
                assert(spec_encode_instruction(ins) =~= data@);
            }
            Some(ins)
        } else if tag == 2 {
            if data.len() < 13 {
                return None;
            }
            let n32 = read_u32_le(data, 1);
            let n = n32 as usize;
            if data.len() - 13 != n {
                return None;
            }
            let txid_bytes = read_bytes(data, 5, n);
            let ghost txid_seq = txid_bytes@;
            match string_from_utf8(txid_bytes) {
                None => {
                    proof {
                        assert(!wf_instruction_encoding(data@));
                    }
                    None
                },
                Some(payment_txid) => {
                    let payment_amount_sats = read_u64_le(data, 5 + n);
                    let ins = OVTInstruction::BuybackBurn { payment_txid, payment_amount_sats };
                    proof {
                        let b = data@;
                        assert(encode_utf8(payment_txid@) == txid_seq);
                        assert(b.subrange(1, 5) =~= spec_u32_to_le_bytes(n32));
                        assert(b.subrange(5 + n, 13 + n) =~= spec_u64_to_le_bytes(
                            payment_amount_sats,
                        ));
                        assert(spec_encode_instruction(ins) =~= data@);
                    }
                    Some(ins)
                },
            }
        } else {
            None
        }
    }
}

/// Two encodable instructions with the same encoding are the same
/// instruction, with string fields compared by their character sequences.
pub proof fn lemma_encode_instruction_injective(i1: OVTInstruction, i2: OVTInstruction)
    requires
        instruction_encodable(i1),
        instruction_encodable(i2),
        spec_encode_instruction(i1) == spec_encode_instruction(i2),
    ensures
        i1 matches OVTInstruction::Initialize { treasury_pubkey_bytes: k1 } ==> (
        i2 matches OVTInstruction::Initialize { treasury_pubkey_bytes: k2 } && k1 == k2),
        i1 matches OVTInstruction::UpdateNAV { btc_price_sats: n1 } ==> (
        i2 matches OVTInstruction::UpdateNAV { btc_price_sats: n2 } && n1 == n2),
        i1 matches OVTInstruction::BuybackBurn { payment_txid: t1, payment_amount_sats: a1 } ==> (
        i2 matches OVTInstruction::BuybackBurn { payment_txid: t2, payment_amount_sats: a2 } && t1@
            == t2@ && a1 == a2),
{
    vstd::bytes::lemma_auto_spec_u64_to_from_le_bytes();
    vstd::bytes::lemma_auto_spec_u32_to_from_le_bytes();
    let b1 = spec_encode_instruction(i1);
    let b2 = spec_encode_instruction(i2);
    match i1 {
        OVTInstruction::Initialize { treasury_pubkey_bytes: k1 } => {
            assert(b1[0] == 0u8);
            match i2 {
                OVTInstruction::Initialize { treasury_pubkey_bytes: k2 } => {
                    assert(b1.subrange(1, 34) =~= k1@);
                    assert(b2.subrange(1, 34) =~= k2@);
                    assert(k1 =~= k2);
                },
                OVTInstruction::UpdateNAV { .. } => {
                    assert(b2[0] == 1u8);
                },
                OVTInstruction::BuybackBurn { .. } => {
                    assert(b2[0] == 2u8);
                },
            }
        },
        OVTInstruction::UpdateNAV { btc_price_sats: n1 } => {
            assert(b1[0] == 1u8);
            match i2 {
                OVTInstruction::Initialize { .. } => {
                    assert(b2[0] == 0u8);
                },
                OVTInstruction::UpdateNAV { btc_price_sats: n2 } => {
                    assert(b1.subrange(1, 9) =~= spec_u64_to_le_bytes(n1));
                    assert(b2.subrange(1, 9) =~= spec_u64_to_le_bytes(n2));
                },
                OVTInstruction::BuybackBurn { .. } => {
                    assert(b2[0] == 2u8);
                },
            }
        },
        OVTInstruction::BuybackBurn { payment_txid: t1, payment_amount_sats: a1 } => {
            assert(b1[0] == 2u8);
            match i2 {
                OVTInstruction::Initialize { .. } => {
                    assert(b2[0] == 0u8);
                },
                OVTInstruction::UpdateNAV { .. } => {
                    assert(b2[0] == 1u8);
                },
                OVTInstruction::BuybackBurn { payment_txid: t2, payment_amount_sats: a2 } => {
                    let e1 = encode_utf8(t1@);
                    let e2 = encode_utf8(t2@);
                    assert(b1.subrange(1, 5) =~= spec_u32_to_le_bytes(e1.len() as u32));
                    assert(b2.subrange(1, 5) =~= spec_u32_to_le_bytes(e2.len() as u32));
                    assert(e1.len() as u32 == e2.len() as u32);
                    assert(e1.len() == e2.len());
                    let n = e1.len() as int;
                    assert(b1.subrange(5, 5 + n) =~= e1);
                    assert(b2.subrange(5, 5 + n) =~= e2);
                    assert(e1 == e2);
                    assert(t1@ == t2@) by {
                        vstd::utf8::encode_utf8_decode_utf8(t1@);
                        vstd::utf8::encode_utf8_decode_utf8(t2@);
                    }
                    assert(b1.subrange(5 + n, 13 + n) =~= spec_u64_to_le_bytes(a1));
                    assert(b2.subrange(5 + n, 13 + n) =~= spec_u64_to_le_bytes(a2));
                },
            }
        },
    }
}

} // verus!
