//! A minimal single-process proof-of-work ledger.
//!
//! Blocks are linked by hash, mined by brute-force nonce search against a
//! fixed difficulty prefix, and revalidated for linkage and tamper evidence.

pub mod bloque;
pub mod cadena;
pub mod decimal;
pub mod digesto;
pub mod leyes;
