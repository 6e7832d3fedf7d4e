//! The chain: an ordered, append-only sequence of blocks, with genesis
//! creation, per-block validation, whole-chain validation and guarded append.

use crate::bloque::{cumple_dificultad, empieza_con_dificultad, hash_correcto, Block};
use crate::digesto::digesto;
use vstd::prelude::*;
use vstd::string::StringExecFns;

verus! {

/// The ledger: block `i` sits at position `i`, so position equals id.
pub struct Blockchain {
    pub blocks: Vec<Block>,
}

/// Whether `b` is a valid successor of `anterior`: sequential id, difficulty
/// met, linkage to the predecessor's hash, and tamper evidence.
pub open spec fn bloque_valido(b: Block, anterior: Block) -> bool {
    &&& b.id == anterior.id + 1
    &&& cumple_dificultad(b.hash@)
    &&& b.previous_hash@ == anterior.hash@
    &&& hash_correcto(b)
}

/// Whether every block of the sequence is a valid successor of the one
/// before it. Sequences of length zero or one hold trivially.
pub open spec fn cadena_valida(bloques: Seq<Block>) -> bool {
    forall|i: int|
        #![trigger bloques[i]]
        1 <= i < bloques.len() ==> bloque_valido(bloques[i], bloques[i - 1])
}

impl Blockchain {
    /// An empty chain: no genesis block yet.
    pub fn new() -> (r: Self)
        ensures
            r.blocks@ == Seq::<Block>::empty(),
    {
        Self { blocks: Vec::new() }
    }

    /// Mines and appends the genesis block, whose predecessor reference and
    /// payload are both the sentinel text. Returns whether a nonce meeting
    /// the difficulty target exists; on `false` the chain is left empty.
    pub fn crear_genesis(&mut self, timestamp: i64) -> (r: bool)
        requires
            old(self).blocks@.len() == 0,
        ensures
            r ==> {
                &&& final(self).blocks@.len() == 1
                &&& final(self).blocks@[0].id == 0
                &&& final(self).blocks@[0].previous_hash@ == "genesis"@
                &&& final(self).blocks@[0].data@ == "genesis"@
                &&& final(self).blocks@[0].timestamp == timestamp
                &&& hash_correcto(final(self).blocks@[0])
                &&& cumple_dificultad(final(self).blocks@[0].hash@)
                &&& forall|m: u64|
                    m < final(self).blocks@[0].nonce ==> !cumple_dificultad(
                        digesto(0, "genesis"@, timestamp, "genesis"@, m),
                    )
            },
            !r ==> {
                &&& final(self).blocks@ == old(self).blocks@
                &&& forall|m: u64|
                    !cumple_dificultad(digesto(0, "genesis"@, timestamp, "genesis"@, m))
            },
    {
        let previo: String = String::from_str("genesis");
        let datos: String = String::from_str("genesis");
        match Block::minar(0, previo.clone(), timestamp, datos.clone()) {
            Some(par) => {
                let (hash, nonce) = par;
                let genesis = Block {
                    id: 0,
                    hash,
                    previous_hash: previo,
                    timestamp,
                    data: datos,
                    nonce,
                };
                self.blocks.push(genesis);
                true
            },
            None => false,
        }
    }

    /// Checks the four successor conditions of `block` against
    /// `bloque_anterior`, in order: sequential id, difficulty prefix,
    /// predecessor-hash linkage, and digest recomputation.
    pub fn validacion_bloque(&self, block: &Block, bloque_anterior: &Block) -> (r: bool)
        ensures
            r == bloque_valido(*block, *bloque_anterior),
    {
        if bloque_anterior.id < u64::MAX && block.id == bloque_anterior.id + 1 {
            if empieza_con_dificultad(block.hash.as_str()) {
                if block.previous_hash == bloque_anterior.hash {
                    let recalculado: String = Block::hash(
                        block.id,
                        block.previous_hash.clone(),
                        block.timestamp,
                        block.data.clone(),
                        block.nonce,
                    );
                    return recalculado == block.hash;
                }
            }
        }
        false
    }

    /// Validates the whole chain pair by pair from the second block on,
    /// stopping at the first failure. A chain of length zero or one is
    /// trivially valid.
    pub fn validacion_cadena(&self) -> (r: bool)
        ensures
            r == cadena_valida(self.blocks@),
    {
        if self.blocks.len() < 2 {
            return true;
        }
        let mut i: usize = 1;
        while i < self.blocks.len()
            invariant
                1 <= i <= self.blocks@.len(),
                forall|j: int|
                    #![trigger self.blocks@[j]]
                    1 <= j < i ==> bloque_valido(self.blocks@[j], self.blocks@[j - 1]),
            decreases self.blocks@.len() - i,
        {
            if !self.validacion_bloque(&self.blocks[i], &self.blocks[i - 1]) {
                return false;
            }
            i = i + 1;
        }
        true
    }

    /// Appends `block` if it is a valid successor of the current tip;
    /// otherwise discards it and leaves the chain unchanged.
    pub fn agregar_bloque(&mut self, block: Block)
        requires
            old(self).blocks@.len() > 0,
        ensures
            bloque_valido(block, old(self).blocks@.last()) ==> final(self).blocks@ == old(
                self,
            ).blocks@.push(block),
            !bloque_valido(block, old(self).blocks@.last()) ==> final(self).blocks@ == old(
                self,
            ).blocks@,
    {
        let n: usize = self.blocks.len();
        let valido: bool = self.validacion_bloque(&block, &self.blocks[n - 1]);
        if valido {
            self.blocks.push(block);
        }
    }
}

} // verus!
