//! One ledger entry, its difficulty target, and the proof-of-work search.

use crate::decimal::{i64_a_decimal, u64_a_decimal};
use crate::digesto::{digesto, entrada_bloque, sha256_hex_de};
use vstd::prelude::*;
use vstd::string::StrSliceExecFns;

verus! {

/// One block of the chain, immutable once created.
pub struct Block {
    /// Sequential index; the genesis block has id 0.
    pub id: u64,
    /// Digest of all the other fields, including the winning nonce.
    pub hash: String,
    /// The predecessor's hash, or the sentinel text for the genesis block.
    pub previous_hash: String,
    /// Seconds since the epoch; informational, never validated.
    pub timestamp: i64,
    /// Opaque text payload.
    pub data: String,
    /// The proof-of-work solution found by the brute-force search.
    pub nonce: u64,
}

/// The difficulty target: an accepted hash begins with five '0' characters.
pub open spec fn cumple_dificultad(h: Seq<char>) -> bool {
    h.len() >= 5 && (forall|i: int| 0 <= i < 5 ==> h[i] == '0')
}

/// Tamper evidence: the stored hash equals the digest recomputed from the
/// other five fields.
pub open spec fn hash_correcto(b: Block) -> bool {
    b.hash@ == digesto(b.id, b.previous_hash@, b.timestamp, b.data@, b.nonce)
}

/// Checks the difficulty prefix on a rendered hash.
pub fn empieza_con_dificultad(h: &str) -> (r: bool)
    ensures
        r == cumple_dificultad(h@),
{
    let n: usize = h.unicode_len();
    if n < 5 {
        return false;
    }
    let mut i: usize = 0;
    while i < 5
        invariant
            i <= 5,
            n == h@.len(),
            n >= 5,
            forall|j: int| 0 <= j < i ==> h@[j] == '0',
        decreases 5 - i,
    {
        if h.get_char(i) != '0' {
            return false;
        }
        i = i + 1;
    }
    true
}

impl Block {
    /// The content digest of a block given by its fields: the fields are
    /// serialized in fixed order without separators and hashed.
    pub fn hash(id: u64, previous_hash: String, timestamp: i64, data: String, nonce: u64) -> (h:
        String)
        ensures
            h@ == digesto(id, previous_hash@, timestamp, data@, nonce),
            h@.len() == 64,
    {
        let mut entrada: String = u64_a_decimal(id);
        entrada.append(previous_hash.as_str());
        let ts: String = i64_a_decimal(timestamp);
        entrada.append(ts.as_str());
        entrada.append(data.as_str());
        let non: String = u64_a_decimal(nonce);
        entrada.append(non.as_str());
        proof {
            assert(entrada@ =~= entrada_bloque(id, previous_hash@, timestamp, data@, nonce));
        }
        sha256_hex_de(entrada.as_str())
    }

    /// Brute-force proof-of-work search: starting at nonce 0 and counting up,
    /// returns the first nonce whose digest meets the difficulty target,
    /// together with that digest. Returns `None` only if no 64-bit nonce
    /// satisfies the target at all.
    pub fn minar(id: u64, previous_hash: String, timestamp: i64, data: String) -> (r: Option<
        (String, u64),
    >)
        ensures
            match r {
                Some(par) => {
                    &&& par.0@ == digesto(id, previous_hash@, timestamp, data@, par.1)
                    &&& cumple_dificultad(par.0@)
                    &&& forall|m: u64|
                        m < par.1 ==> !cumple_dificultad(
                            digesto(id, previous_hash@, timestamp, data@, m),
                        )
                },
                None => forall|m: u64|
                    !cumple_dificultad(digesto(id, previous_hash@, timestamp, data@, m)),
            },
    {
        let mut nonce: u64 = 0;
        loop
            invariant
                forall|m: u64|
                    m < nonce ==> !cumple_dificultad(
                        digesto(id, previous_hash@, timestamp, data@, m),
                    ),
            decreases u64::MAX - nonce,
        {
            let h: String = Self::hash(id, previous_hash.clone(), timestamp, data.clone(), nonce);
            if empieza_con_dificultad(h.as_str()) {
                return Some((h, nonce));
            }
            if nonce == u64::MAX {
                return None;
            }
            nonce = nonce + 1;
        }
    }

    /// Builds a block from the given fields by mining: the stored hash and
    /// nonce come from the first successful proof-of-work attempt.
    pub fn new(id: u64, previous_hash: String, timestamp: i64, data: String) -> (r: Option<Block>)
        ensures
            match r {
                Some(b) => {
                    &&& b.id == id
                    &&& b.previous_hash@ == previous_hash@
                    &&& b.timestamp == timestamp
                    &&& b.data@ == data@
                    &&& hash_correcto(b)
                    &&& cumple_dificultad(b.hash@)
                    &&& forall|m: u64|
                        m < b.nonce ==> !cumple_dificultad(
                            digesto(id, previous_hash@, timestamp, data@, m),
                        )
                },
                None => forall|m: u64|
                    !cumple_dificultad(digesto(id, previous_hash@, timestamp, data@, m)),
            },
    {
        match Self::minar(id, previous_hash.clone(), timestamp, data.clone()) {
            Some(par) => {
                let (hash, nonce) = par;
                Some(Block { id, hash, previous_hash, timestamp, data, nonce })
            },
            None => None,
        }
    }
}

} // verus!
