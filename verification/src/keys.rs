//! Treasury key validation.
//!
//! Whether 33 bytes are a well-formed compressed secp256k1 public key is
//! decided by the `bitcoin` crate; the predicate itself is left abstract
//! here and the parser's verdict is taken on trust.

use vstd::prelude::*;

verus! {

/// Whether `b` parses as a Bitcoin public key.  The exact condition (a
/// point on the secp256k1 curve, with a valid prefix byte) is decided by
/// the outside parser; it depends on the bytes alone.
pub uninterp spec fn key_parse_ok(b: Seq<u8>) -> bool;

#[verifier::external_type_specification]
#[verifier::external_body]
pub struct ExPublicKey(bitcoin::PublicKey);

/// Relies on `bitcoin::PublicKey::from_slice`: it accepts a 33-byte slice
/// exactly when the bytes are a well-formed compressed public key, and its
/// verdict is a function of the bytes alone.
#[verifier::external_body]
pub fn parse_public_key(bytes: &[u8; 33]) -> (r: Option<bitcoin::PublicKey>)
    ensures
        r is Some <==> key_parse_ok(bytes@),
{
    bitcoin::PublicKey::from_slice(bytes.as_slice()).ok()
}

/// Relies on `secp256k1::PublicKey::serialize`: the 33-byte compressed
/// encoding of a key the library already holds, which the parser accepts
/// back.
#[verifier::external_body]
pub fn serialize_public_key(key: &bitcoin::PublicKey) -> (r: [u8; 33])
    ensures
        key_parse_ok(r@),
{
    key.inner.serialize()
}

} // verus!
