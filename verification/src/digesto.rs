//! The block content digest.
//!
//! A block commits to its fields through one SHA-256 digest over their
//! concatenated text forms, rendered as lowercase hexadecimal. The
//! concatenation order and the absence of separators are part of the scheme:
//! changing either changes every hash.

use crate::decimal::{decimal_i64, decimal_nat};
use sha2::{Digest, Sha256};
use vstd::prelude::*;

verus! {

/// What SHA-256, rendered as lowercase hexadecimal, returns for a given
/// character sequence. The digest is a pure function of its input alone;
/// only its name is stated here, never the algorithm.
pub uninterp spec fn sha256_hex(entrada: Seq<char>) -> Seq<char>;

/// Relies on sha2's `Sha256` together with generic-array's `LowerHex`
/// rendering: the digest depends on the input bytes alone, and the rendering
/// writes exactly two lowercase hexadecimal digits for each of the 32 digest
/// bytes, 64 characters in all.
#[verifier::external_body]
pub(crate) fn sha256_hex_de(entrada: &str) -> (r: String)
    ensures
        r@ == sha256_hex(entrada@),
        r@.len() == 64,
{
    let mut hasher = Sha256::new();
    hasher.update(entrada.as_bytes());
    format!("{:x}", hasher.finalize())
}

/// The serialized block content: each field in its canonical decimal/text
/// form, concatenated in the fixed order id, previous hash, timestamp, data,
/// nonce, with no separators between fields.
pub open spec fn entrada_bloque(
    id: u64,
    previous_hash: Seq<char>,
    timestamp: i64,
    data: Seq<char>,
    nonce: u64,
) -> Seq<char> {
    decimal_nat(id as nat) + previous_hash + decimal_i64(timestamp) + data + decimal_nat(
        nonce as nat,
    )
}

/// The block content digest: SHA-256 over the serialized fields, in
/// lowercase hexadecimal.
pub open spec fn digesto(
    id: u64,
    previous_hash: Seq<char>,
    timestamp: i64,
    data: Seq<char>,
    nonce: u64,
) -> Seq<char> {
    sha256_hex(entrada_bloque(id, previous_hash, timestamp, data, nonce))
}

} // verus!
