//! What can go wrong while bringing the device up or talking to it.

use crate::regs::AK8963;
use vstd::prelude::*;

verus! {

/// Device errors that can occur during bring-up or communication.
#[derive(Debug)]
pub enum Error<P> {
    /// The MPU's I2C master lost arbitration of its bus
    LostArbitration,
    /// The MPU's I2C master received a NACK from the AK8963
    Nack,
    /// The MPU's I2C master was asked `attempts` times whether its exchange
    /// with the AK8963 `register` was done, and never said so.
    Timeout {
        /// How many times the status was read
        attempts: u16,
        /// The register that was read or written
        register: AK8963,
        /// The value that was written, or `None` for a read
        value: Option<u8>,
    },
    /// The bus peripheral reported an error, handed on unchanged
    Peripheral(P),
    /// A device answered its identity register with `actual`, which is none
    /// of the values in `expected`.
    WhoAmI { expected: &'static [u8], actual: u8 },
}

} // verus!
