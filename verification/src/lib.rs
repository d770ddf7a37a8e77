//! Verified core of a set of i.MX RT peripheral drivers.
//!
//! The centre of the crate is a buffered, interrupt-driven serial transport:
//! a byte ring buffer, the state shared between the interrupt handler and the
//! task-side endpoints, the interrupt handler itself and the endpoints. The
//! hardware is reached through the [`uart::Instance`] trait;
//! [`uart::sim::SimUart`] is a port in software that implements it.
//!
//! Beside it stand three one-shot peripherals: the driver of the checksum
//! engine, over the [`crc::Instance`] trait, the start of the hash engine,
//! over the [`hashcrypt::Instance`] trait, and the on-die unique identifier.

pub mod crc;
pub mod hashcrypt;
pub mod ring;
pub mod uart;
pub mod uuid;
