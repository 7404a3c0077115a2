//! Reading CO2 concentration and temperature from a ZyAura-based USB sensor:
//! frame deobfuscation and decoding, reading assembly, and the error model.

pub mod assembler;
pub mod codec;
pub mod error;
pub mod sensor;
