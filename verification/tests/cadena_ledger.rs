use blockchain::bloque::Block;
use blockchain::cadena::Blockchain;

// Timestamps chosen so that every winning nonce is small; the expected
// hashes were computed with an independent SHA-256 implementation.

const TS_GENESIS: i64 = 1700000040;
const HASH_GENESIS: &str = "00000759ae4e86de04205b6ae056deb0908002b8d0d3e9f6f3be6bead06728a1";
const TS_A: i64 = 1700000109;
const HASH_A: &str = "0000001b8686777ae0b89530e4c39e3f8fffb55c6ce6515dab53fa3786d512fc";
const TS_B: i64 = 1700000223;
const HASH_B: &str = "000001892084d4acb68aa589ac4c7382c9733e372b55b65a004907edf49346e1";
const TS_C: i64 = 1700000378;

fn cadena_con_genesis() -> Blockchain {
    let mut cadena = Blockchain::new();
    assert!(cadena.crear_genesis(TS_GENESIS));
    cadena
}

#[test]
fn genesis_valido() {
    let cadena = cadena_con_genesis();
    assert_eq!(cadena.blocks.len(), 1);
    assert_eq!(cadena.blocks[0].id, 0);
    assert_eq!(cadena.blocks[0].previous_hash, "genesis");
    assert_eq!(cadena.blocks[0].data, "genesis");
    assert_eq!(cadena.blocks[0].timestamp, TS_GENESIS);
    assert!(cadena.blocks[0].hash.starts_with("00000"));
    assert_eq!(cadena.blocks[0].hash, HASH_GENESIS);
}

#[test]
fn agregar_acepta_sucesor_valido() {
    let mut cadena = cadena_con_genesis();
    let punta = cadena.blocks.last().unwrap();
    let b = Block::new(punta.id + 1, punta.hash.clone(), TS_A, String::from("a"))
        .expect("la búsqueda debe encontrar un nonce");
    cadena.agregar_bloque(b);
    assert_eq!(cadena.blocks.len(), 2);
    assert_eq!(cadena.blocks.last().unwrap().hash, HASH_A);
    assert!(cadena.validacion_cadena());
}

#[test]
fn agregar_rechaza_manipulado() {
    let mut cadena = cadena_con_genesis();
    let punta = cadena.blocks.last().unwrap();
    let mut b = Block::new(punta.id + 1, punta.hash.clone(), TS_A, String::from("a"))
        .expect("la búsqueda debe encontrar un nonce");
    // Mutating one field after mining breaks the digest recomputation.
    b.data = String::from("z");
    assert!(!cadena.validacion_bloque(&b, cadena.blocks.last().unwrap()));
    cadena.agregar_bloque(b);
    assert_eq!(cadena.blocks.len(), 1);
    assert_eq!(cadena.blocks.last().unwrap().hash, HASH_GENESIS);
}

#[test]
fn agregar_rechaza_enlace_incorrecto() {
    let mut cadena = cadena_con_genesis();
    // Correct digest and difficulty, but the predecessor reference is not
    // the real tip's hash.
    let ajeno = Block::new(
        1,
        "0".repeat(64),
        1700000405,
        String::from("w"),
    )
    .expect("la búsqueda debe encontrar un nonce");
    assert!(ajeno.hash.starts_with("00000"));
    assert!(!cadena.validacion_bloque(&ajeno, cadena.blocks.last().unwrap()));
    cadena.agregar_bloque(ajeno);
    assert_eq!(cadena.blocks.len(), 1);
}

#[test]
fn validacion_detecta_id_alterado() {
    let mut cadena = cadena_con_genesis();
    for (ts, datos) in [(TS_A, "a"), (TS_B, "b"), (TS_C, "c")] {
        let punta = cadena.blocks.last().unwrap();
        let b = Block::new(punta.id + 1, punta.hash.clone(), ts, String::from(datos))
            .expect("la búsqueda debe encontrar un nonce");
        cadena.agregar_bloque(b);
    }
    assert_eq!(cadena.blocks.len(), 4);
    assert!(cadena.validacion_cadena());
    cadena.blocks[2].id = 9;
    assert!(!cadena.validacion_cadena());
}

#[test]
fn cadena_vacia_valida() {
    let cadena = Blockchain::new();
    assert!(cadena.validacion_cadena());
}

#[test]
fn cadena_singleton_valida() {
    let cadena = cadena_con_genesis();
    assert!(cadena.validacion_cadena());
}

#[test]
fn extremo_a_extremo() {
    let mut cadena = cadena_con_genesis();
    for (ts, datos) in [(TS_A, "a"), (TS_B, "b"), (TS_C, "c")] {
        let punta = cadena.blocks.last().unwrap();
        let b = Block::new(punta.id + 1, punta.hash.clone(), ts, String::from(datos))
            .expect("la búsqueda debe encontrar un nonce");
        cadena.agregar_bloque(b);
    }
    assert_eq!(cadena.blocks.len(), 4);
    assert!(cadena.validacion_cadena());
    for i in 1..cadena.blocks.len() {
        assert_eq!(cadena.blocks[i].previous_hash, cadena.blocks[i - 1].hash);
        assert_eq!(cadena.blocks[i].id, cadena.blocks[i - 1].id + 1);
    }
    assert_eq!(cadena.blocks[1].hash, HASH_A);
    assert_eq!(cadena.blocks[2].hash, HASH_B);
    assert_eq!(
        cadena.blocks[3].hash,
        "00000a9cb1b7b84ce528680307b82fcfe3633cc91284c615f8ae228feb603833"
    );
}
