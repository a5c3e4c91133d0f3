//! Registers of the AK8963 magnetometer.

pub mod flags;

use vstd::prelude::*;

verus! {

/// The AK8963's 7-bit I2C address.
///
/// The device answers on the external bus only while the MPU-9250 is in
/// bypass mode.
pub const I2C_ADDRESS: u8 = 0x0C;

/// The responses to `WIA` that identify an AK8963.
pub const VALID_WHO_AM_I: [u8; 1] = [0x48];

/// True when `value` identifies an AK8963.
pub fn is_valid_who_am_i(value: u8) -> (r: bool)
    ensures
        r == (value == 0x48),
{
    value == VALID_WHO_AM_I[0]
}

/// The accepted identity responses, as a slice.
pub open spec fn spec_valid_who_am_i() -> &'static [u8] {
    vstd::array::spec_array_as_slice(&VALID_WHO_AM_I)
}

/// The accepted `WIA` responses, for error reports.
#[verifier::when_used_as_spec(spec_valid_who_am_i)]
pub fn valid_who_am_i() -> (r: &'static [u8])
    ensures
        r == spec_valid_who_am_i(),
        r@ == seq![0x48u8],
{
    let r: &'static [u8] = &VALID_WHO_AM_I;
    assert(r@ =~= seq![0x48u8]);
    r
}

/// AK8963 register identifiers.
#[allow(non_camel_case_types)]
#[derive(Debug, Clone, Copy, PartialEq, Eq, Structural)]
pub enum Regs {
    WIA,
    INFO,
    ST1,
    HXL,
    HXH,
    HYL,
    HYH,
    HZL,
    HZH,
    ST2,
    CNTL1,
    CNTL2,
    ASTC,
    I2CDIS,
    ASAX,
    ASAY,
    ASAZ,
}

impl Regs {
    /// The register's address inside the AK8963.
    pub open spec fn spec_addr(self) -> u8 {
        match self {
            Regs::WIA => 0x00,
            Regs::INFO => 0x01,
            Regs::ST1 => 0x02,
            Regs::HXL => 0x03,
            Regs::HXH => 0x04,
            Regs::HYL => 0x05,
            Regs::HYH => 0x06,
            Regs::HZL => 0x07,
            Regs::HZH => 0x08,
            Regs::ST2 => 0x09,
            Regs::CNTL1 => 0x0A,
            Regs::CNTL2 => 0x0B,
            Regs::ASTC => 0x0C,
            Regs::I2CDIS => 0x0F,
            Regs::ASAX => 0x10,
            Regs::ASAY => 0x11,
            Regs::ASAZ => 0x12,
        }
    }

    /// The register's address inside the AK8963.
    #[verifier::when_used_as_spec(spec_addr)]
    pub fn addr(self) -> (a: u8)
        ensures
            a == self.spec_addr(),
            a < 0x80,
    {
        match self {
            Regs::WIA => 0x00,
            Regs::INFO => 0x01,
            Regs::ST1 => 0x02,
            Regs::HXL => 0x03,
            Regs::HXH => 0x04,
            Regs::HYL => 0x05,
            Regs::HYH => 0x06,
            Regs::HZL => 0x07,
            Regs::HZH => 0x08,
            Regs::ST2 => 0x09,
            Regs::CNTL1 => 0x0A,
            Regs::CNTL2 => 0x0B,
            Regs::ASTC => 0x0C,
            Regs::I2CDIS => 0x0F,
            Regs::ASAX => 0x10,
            Regs::ASAY => 0x11,
            Regs::ASAZ => 0x12,
        }
    }

    /// No two registers share an address.
    pub proof fn law_addr_injective(a: Regs, b: Regs)
        requires
            a.addr() == b.addr(),
        ensures
            a == b,
    {
    }
}

} // verus!
