//! Driver core for the RFM95/RFM9x LoRa transceiver family.
//!
//! The crate is organised leaf-first: the register map and bit-flag
//! encodings, the per-band carrier tables, the chip model that the
//! contracts are stated over, the link abstraction carrying register
//! transfers, a register-backed simulated chip, and the driver facade
//! that orchestrates transmit and receive.

pub mod chip;
pub mod driver;
pub mod laws;
pub mod link;
pub mod mode;
pub mod registers;
pub mod sim;
pub mod tables;
