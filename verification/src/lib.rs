//! Verified core of a Modbus RTU (serial-line) codec.
//!
//! The crate frames a half-duplex byte stream into Application Data Units:
//! it predicts the frame length from the function code, validates the
//! CRC-16/Modbus trailer, recovers from line noise by dropping leading
//! bytes, and serializes frames in the reverse direction.  A thin client
//! layer maps typed read/write calls onto a transport and validates the
//! responses.

pub mod buffer;
pub mod client;
pub mod crc;
pub mod error;
pub mod frame;
pub mod laws;
pub mod rtu;
pub mod slave;
