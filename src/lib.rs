//! Deterministic replay engine for an on-ledger card game, together with the
//! transaction validation rules that check a replay against claimed state.
pub mod rng;
pub mod value;
pub mod card;
pub mod effect;
pub mod player;
pub mod enemy;
pub mod operation;
pub mod dna;
pub mod signal;
pub mod error;
pub mod context;
pub mod runtime;
pub mod entity;
pub mod system;
pub mod global;
pub mod spore;
pub mod hash;
pub mod accrual;
pub mod validate;
pub mod token;
pub mod codec;
pub mod log;
pub mod drain;
