//! Device addressing on the serial bus.

use vstd::prelude::*;

verus! {

/// A 1-byte device identifier on the serial bus.
pub type SlaveId = u8;

/// A slave address, newtyped so that call sites name what they pass.
#[derive(Clone, Copy, Debug, PartialEq, Eq, Structural)]
pub struct Slave(pub SlaveId);

/// Anything that can be pointed at a particular slave device.
pub trait SlaveContext {
    /// Select the slave device for all subsequent calls.
    fn set_slave(&mut self, slave: Slave);
}

} // verus!
