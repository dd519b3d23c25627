//! Register addresses of the RFM9x LoRa register map, and the fixed
//! byte values the driver programs into them.
//!
//! Every address is a 7-bit constant; the transport layer sets bit 7
//! of the command byte to select write access and clears it for read
//! access.

use vstd::prelude::*;

verus! {

/// FIFO read/write access; reads and writes move the FIFO pointer.
pub const REG_FIFO: u8 = 0x00;
/// Operating-mode register: one operating state plus modem flags.
pub const REG_OP_MODE: u8 = 0x01;
/// Carrier frequency, most significant byte.
pub const REG_FRF_MSB: u8 = 0x06;
/// Carrier frequency, middle byte.
pub const REG_FRF_MID: u8 = 0x07;
/// Carrier frequency, least significant byte.
pub const REG_FRF_LSB: u8 = 0x08;
/// Power-amplifier configuration.
pub const REG_PA_CONFIG: u8 = 0x09;
/// FIFO address pointer for the next FIFO access.
pub const REG_FIFO_ADDR_PTR: u8 = 0x0D;
/// Base address of the transmit region of the FIFO.
pub const REG_FIFO_TX_BASE: u8 = 0x0E;
/// Base address of the receive region of the FIFO.
pub const REG_FIFO_RX_BASE: u8 = 0x0F;
/// Start address in the FIFO of the packet received last.
pub const REG_FIFO_RX_CURRENT: u8 = 0x10;
/// Interrupt flags; writing a one clears the corresponding flag.
pub const REG_IRQ_FLAGS: u8 = 0x12;
/// Number of payload bytes of the packet received last.
pub const REG_RX_NB_BYTES: u8 = 0x13;
/// Bandwidth, coding rate and header mode.
pub const REG_MODEM_CONFIG_1: u8 = 0x1D;
/// Spreading factor, CRC enable and symbol-timeout high bits.
pub const REG_MODEM_CONFIG_2: u8 = 0x1E;
/// Symbol-timeout low bits.
pub const REG_SYMB_TIMEOUT_LSB: u8 = 0x1F;
/// Preamble length, most significant byte.
pub const REG_PREAMBLE_MSB: u8 = 0x20;
/// Preamble length, least significant byte.
pub const REG_PREAMBLE_LSB: u8 = 0x21;
/// Payload length; zero selects explicit-header reception.
pub const REG_PAYLOAD_LENGTH: u8 = 0x22;
/// Low-data-rate and automatic-gain-control flags.
pub const REG_MODEM_CONFIG_3: u8 = 0x26;
/// LoRa synchronisation word.
pub const REG_SYNC_WORD: u8 = 0x39;
/// Mapping of chip events onto the digital interrupt outputs.
pub const REG_DIO_MAPPING_1: u8 = 0x40;
/// Silicon revision; a fixed identity per chip.
pub const REG_VERSION: u8 = 0x42;

/// Silicon revision the driver accepts after a reset.
pub const RFM_VERSION: u8 = 0x12;

/// First FIFO address of the transmit region.
pub const FIFO_TX_START: u8 = 0x80;

/// First FIFO address of the receive region.
pub const FIFO_RX_START: u8 = 0x00;

/// Number of addressable registers: addresses are 7 bits wide.
pub const REG_SPACE: usize = 128;

/// Number of bytes in the chip's FIFO buffer.
pub const FIFO_SIZE: usize = 256;

} // verus!
