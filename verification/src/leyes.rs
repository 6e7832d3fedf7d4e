//! What the validation rules guarantee, stated once and proved.

use crate::bloque::{cumple_dificultad, hash_correcto, Block};
use crate::cadena::{bloque_valido, cadena_valida};
use crate::digesto::digesto;
use vstd::prelude::*;

verus! {

/// Determinism of the digest: two computations over the same field tuple
/// give the same value.
pub proof fn lemma_digesto_determinista(
    id: u64,
    previous_hash: Seq<char>,
    timestamp: i64,
    data: Seq<char>,
    nonce: u64,
    h1: Seq<char>,
    h2: Seq<char>,
)
    requires
        h1 == digesto(id, previous_hash, timestamp, data, nonce),
        h2 == digesto(id, previous_hash, timestamp, data, nonce),
    ensures
        h1 == h2,
{
}

/// A block built atop the tip — next id, the tip's hash as predecessor
/// reference, a matching digest that meets the difficulty — is accepted.
pub proof fn lemma_sucesor_valido(b: Block, punta: Block)
    requires
        b.id == punta.id + 1,
        b.previous_hash@ == punta.hash@,
        cumple_dificultad(b.hash@),
        hash_correcto(b),
    ensures
        bloque_valido(b, punta),
{
}

/// A block whose stored hash is not the digest recomputed from its fields is
/// rejected, whatever predecessor it is checked against.
pub proof fn lemma_manipulado_rechazado(b: Block, anterior: Block)
    requires
        b.hash@ != digesto(b.id, b.previous_hash@, b.timestamp, b.data@, b.nonce),
    ensures
        !bloque_valido(b, anterior),
{
}

/// A block that does not reference its predecessor's hash is rejected,
/// however sound its own digest and difficulty are.
pub proof fn lemma_enlace_incorrecto(b: Block, anterior: Block)
    requires
        b.previous_hash@ != anterior.hash@,
    ensures
        !bloque_valido(b, anterior),
{
}

/// One invalid pair anywhere in the sequence makes the whole chain invalid.
pub proof fn lemma_cadena_con_par_invalido(bloques: Seq<Block>, k: int)
    requires
        1 <= k < bloques.len(),
        !bloque_valido(bloques[k], bloques[k - 1]),
    ensures
        !cadena_valida(bloques),
{
}

/// A chain of length zero or one is trivially valid: there is no pair to
/// check.
pub proof fn lemma_cadena_corta_valida(bloques: Seq<Block>)
    requires
        bloques.len() <= 1,
    ensures
        cadena_valida(bloques),
{
}

/// Appending a valid successor of the tip to a valid chain yields a valid
/// chain again, with the new block as its tip.
pub proof fn lemma_agregar_preserva_validez(bloques: Seq<Block>, b: Block)
    requires
        cadena_valida(bloques),
        bloques.len() > 0,
        bloque_valido(b, bloques.last()),
    ensures
        cadena_valida(bloques.push(b)),
        bloques.push(b).last() == b,
{
    let nuevos = bloques.push(b);
    assert forall|i: int|
        #![trigger nuevos[i]]
        1 <= i < nuevos.len() implies bloque_valido(nuevos[i], nuevos[i - 1]) by {
        if i < bloques.len() {
            assert(bloque_valido(bloques[i], bloques[i - 1]));
        } else {
            assert(nuevos[i] == b);
            assert(nuevos[i - 1] == bloques.last());
        }
    }
}

} // verus!
