//! Core model of an unsigned Cardano-style transaction, together with the
//! routines that normalize the binary envelope of a compiled Plutus script
//! and apply ordered data arguments to it.

pub mod cbor;
pub mod error;
pub mod hex;
pub mod js_vec;
pub mod model;
pub mod script;
