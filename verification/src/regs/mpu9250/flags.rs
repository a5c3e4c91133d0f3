//! Flags and register values of the MPU-9250.

use crate::bits::{lemma_code, lemma_fields, lemma_masks, lemma_within, within};
use vstd::prelude::*;
use vstd::std_specs::convert::FromSpecImpl;

verus! {

/// Bit 7 of a slave address register: set for a read, clear for a write.
pub const I2C_SLV_RNW: u8 = 0b1000_0000;

/// FIFO overwrite policy, bit 6 of `CONFIG`.
#[derive(Clone, Copy, Debug, PartialEq, Eq, Structural)]
#[allow(non_camel_case_types)]
pub struct FIFO_MODE_FLAG {
    bits: u8,
}

impl FIFO_MODE_FLAG {
    /// When set, a full FIFO takes no more writes; when clear, new data
    /// replaces the oldest
    pub const FIFO_MODE: u8 = 0b01000000;

    /// Every defined flag.
    pub const ALL: u8 = 0b01000000;

    /// The register byte that holds exactly these flags.
    pub closed spec fn view(self) -> u8 {
        self.bits
    }

    /// Only defined flags are set.
    #[verifier::type_invariant]
    pub open spec fn wf(self) -> bool {
        within(self@, Self::ALL)
    }

    /// The defined flags of `bits`.
    pub closed spec fn truncated(bits: u8) -> Self {
        FIFO_MODE_FLAG { bits: bits & Self::ALL }
    }

    /// Truncation keeps the defined bits, and every well-formed set is the
    /// truncation of its own byte.
    pub proof fn law_truncated(self, bits: u8)
        ensures
            Self::truncated(bits)@ == bits & Self::ALL,
            Self::truncated(bits).wf(),
            self.wf() ==> Self::truncated(self@) == self,
    {
        lemma_within(bits, 0, Self::ALL);
        lemma_within(self.bits, 0, Self::ALL);
    }

    /// Flag sets with the same byte are the same set.
    pub proof fn lemma_same(self, other: Self)
        requires
            self@ == other@,
        ensures
            self == other,
    {
    }

    /// No flag set.
    pub fn empty() -> (r: Self)
        ensures
            r@ == 0,
            r.wf(),
    {
        proof {
            lemma_within(0, 0, Self::ALL);
        }
        FIFO_MODE_FLAG { bits: 0 }
    }

    /// The register byte.
    pub fn bits(&self) -> (b: u8)
        ensures
            b == self@,
            self.wf(),
    {
        proof {
            use_type_invariant(self);
        }
        self.bits
    }

    /// The flags of `bits`, or `None` where `bits` sets an undefined bit.
    pub fn from_bits(bits: u8) -> (r: Option<Self>)
        ensures
            r is Some <==> within(bits, Self::ALL),
            r matches Some(f) ==> f@ == bits && f.wf(),
    {
        if bits & !Self::ALL == 0 {
            Some(FIFO_MODE_FLAG { bits })
        } else {
            None
        }
    }

    /// The defined flags of `bits`; undefined bits are dropped.
    pub fn from_bits_truncate(bits: u8) -> (r: Self)
        ensures
            r == Self::truncated(bits),
            r@ == bits & Self::ALL,
            r.wf(),
    {
        proof {
            lemma_within(bits, 0, Self::ALL);
        }
        FIFO_MODE_FLAG { bits: bits & Self::ALL }
    }

    /// True when no flag is set.
    pub fn is_empty(&self) -> (r: bool)
        ensures
            r == (self@ == 0),
    {
        self.bits == 0
    }

    /// True when every bit of `flags` is set.
    pub fn contains(&self, flags: u8) -> (r: bool)
        ensures
            r == (self@ & flags == flags),
    {
        self.bits & flags == flags
    }

    /// The flags of either set.
    pub fn union(self, other: Self) -> (r: Self)
        ensures
            r@ == self@ | other@,
            r.wf(),
    {
        proof {
            use_type_invariant(&self);
            use_type_invariant(&other);
            lemma_within(self.bits, other.bits, Self::ALL);
        }
        FIFO_MODE_FLAG { bits: self.bits | other.bits }
    }
}

impl Default for FIFO_MODE_FLAG {
    fn default() -> (r: Self)
        ensures
            r@ == 0,
            r.wf(),
    {
        FIFO_MODE_FLAG::empty()
    }
}

/// Gyroscope self-test enables, bits 7..5 of `GYRO_CONFIG`.
#[derive(Clone, Copy, Debug, PartialEq, Eq, Structural)]
#[allow(non_camel_case_types)]
pub struct GYRO_SELF_TEST {
    bits: u8,
}

impl GYRO_SELF_TEST {
    /// X gyro self-test
    pub const XGYRO_CTEN: u8 = 0b10000000;

    /// Y gyro self-test
    pub const YGYRO_CTEN: u8 = 0b01000000;

    /// Z gyro self-test
    pub const ZGYRO_CTEN: u8 = 0b00100000;

    /// Every defined flag.
    pub const ALL: u8 = 0b11100000;

    /// The register byte that holds exactly these flags.
    pub closed spec fn view(self) -> u8 {
        self.bits
    }

    /// Only defined flags are set.
    #[verifier::type_invariant]
    pub open spec fn wf(self) -> bool {
        within(self@, Self::ALL)
    }

    /// The defined flags of `bits`.
    pub closed spec fn truncated(bits: u8) -> Self {
        GYRO_SELF_TEST { bits: bits & Self::ALL }
    }

    /// Truncation keeps the defined bits, and every well-formed set is the
    /// truncation of its own byte.
    pub proof fn law_truncated(self, bits: u8)
        ensures
            Self::truncated(bits)@ == bits & Self::ALL,
            Self::truncated(bits).wf(),
            self.wf() ==> Self::truncated(self@) == self,
    {
        lemma_within(bits, 0, Self::ALL);
        lemma_within(self.bits, 0, Self::ALL);
    }

    /// Flag sets with the same byte are the same set.
    pub proof fn lemma_same(self, other: Self)
        requires
            self@ == other@,
        ensures
            self == other,
    {
    }

    /// No flag set.
    pub fn empty() -> (r: Self)
        ensures
            r@ == 0,
            r.wf(),
    {
        proof {
            lemma_within(0, 0, Self::ALL);
        }
        GYRO_SELF_TEST { bits: 0 }
    }

    /// The register byte.
    pub fn bits(&self) -> (b: u8)
        ensures
            b == self@,
            self.wf(),
    {
        proof {
            use_type_invariant(self);
        }
        self.bits
    }

    /// The flags of `bits`, or `None` where `bits` sets an undefined bit.
    pub fn from_bits(bits: u8) -> (r: Option<Self>)
        ensures
            r is Some <==> within(bits, Self::ALL),
            r matches Some(f) ==> f@ == bits && f.wf(),
    {
        if bits & !Self::ALL == 0 {
            Some(GYRO_SELF_TEST { bits })
        } else {
            None
        }
    }

    /// The defined flags of `bits`; undefined bits are dropped.
    pub fn from_bits_truncate(bits: u8) -> (r: Self)
        ensures
            r == Self::truncated(bits),
            r@ == bits & Self::ALL,
            r.wf(),
    {
        proof {
            lemma_within(bits, 0, Self::ALL);
        }
        GYRO_SELF_TEST { bits: bits & Self::ALL }
    }

    /// True when no flag is set.
    pub fn is_empty(&self) -> (r: bool)
        ensures
            r == (self@ == 0),
    {
        self.bits == 0
    }

    /// True when every bit of `flags` is set.
    pub fn contains(&self, flags: u8) -> (r: bool)
        ensures
            r == (self@ & flags == flags),
    {
        self.bits & flags == flags
    }

    /// The flags of either set.
    pub fn union(self, other: Self) -> (r: Self)
        ensures
            r@ == self@ | other@,
            r.wf(),
    {
        proof {
            use_type_invariant(&self);
            use_type_invariant(&other);
            lemma_within(self.bits, other.bits, Self::ALL);
        }
        GYRO_SELF_TEST { bits: self.bits | other.bits }
    }
}

impl Default for GYRO_SELF_TEST {
    fn default() -> (r: Self)
        ensures
            r@ == 0,
            r.wf(),
    {
        GYRO_SELF_TEST::empty()
    }
}

/// Accelerometer self-test enables, bits 7..5 of `ACCEL_CONFIG`.
#[derive(Clone, Copy, Debug, PartialEq, Eq, Structural)]
#[allow(non_camel_case_types)]
pub struct ACCEL_SELF_TEST {
    bits: u8,
}

impl ACCEL_SELF_TEST {
    /// X accelerometer self-test
    pub const AX_ST_EN: u8 = 0b10000000;

    /// Y accelerometer self-test
    pub const AY_ST_EN: u8 = 0b01000000;

    /// Z accelerometer self-test
    pub const AZ_ST_EN: u8 = 0b00100000;

    /// Every defined flag.
    pub const ALL: u8 = 0b11100000;

    /// The register byte that holds exactly these flags.
    pub closed spec fn view(self) -> u8 {
        self.bits
    }

    /// Only defined flags are set.
    #[verifier::type_invariant]
    pub open spec fn wf(self) -> bool {
        within(self@, Self::ALL)
    }

    /// The defined flags of `bits`.
    pub closed spec fn truncated(bits: u8) -> Self {
        ACCEL_SELF_TEST { bits: bits & Self::ALL }
    }

    /// Truncation keeps the defined bits, and every well-formed set is the
    /// truncation of its own byte.
    pub proof fn law_truncated(self, bits: u8)
        ensures
            Self::truncated(bits)@ == bits & Self::ALL,
            Self::truncated(bits).wf(),
            self.wf() ==> Self::truncated(self@) == self,
    {
        lemma_within(bits, 0, Self::ALL);
        lemma_within(self.bits, 0, Self::ALL);
    }

    /// Flag sets with the same byte are the same set.
    pub proof fn lemma_same(self, other: Self)
        requires
            self@ == other@,
        ensures
            self == other,
    {
    }

    /// No flag set.
    pub fn empty() -> (r: Self)
        ensures
            r@ == 0,
            r.wf(),
    {
        proof {
            lemma_within(0, 0, Self::ALL);
        }
        ACCEL_SELF_TEST { bits: 0 }
    }

    /// The register byte.
    pub fn bits(&self) -> (b: u8)
        ensures
            b == self@,
            self.wf(),
    {
        proof {
            use_type_invariant(self);
        }
        self.bits
    }

    /// The flags of `bits`, or `None` where `bits` sets an undefined bit.
    pub fn from_bits(bits: u8) -> (r: Option<Self>)
        ensures
            r is Some <==> within(bits, Self::ALL),
            r matches Some(f) ==> f@ == bits && f.wf(),
    {
        if bits & !Self::ALL == 0 {
            Some(ACCEL_SELF_TEST { bits })
        } else {
            None
        }
    }

    /// The defined flags of `bits`; undefined bits are dropped.
    pub fn from_bits_truncate(bits: u8) -> (r: Self)
        ensures
            r == Self::truncated(bits),
            r@ == bits & Self::ALL,
            r.wf(),
    {
        proof {
            lemma_within(bits, 0, Self::ALL);
        }
        ACCEL_SELF_TEST { bits: bits & Self::ALL }
    }

    /// True when no flag is set.
    pub fn is_empty(&self) -> (r: bool)
        ensures
            r == (self@ == 0),
    {
        self.bits == 0
    }

    /// True when every bit of `flags` is set.
    pub fn contains(&self, flags: u8) -> (r: bool)
        ensures
            r == (self@ & flags == flags),
    {
        self.bits & flags == flags
    }

    /// The flags of either set.
    pub fn union(self, other: Self) -> (r: Self)
        ensures
            r@ == self@ | other@,
            r.wf(),
    {
        proof {
            use_type_invariant(&self);
            use_type_invariant(&other);
            lemma_within(self.bits, other.bits, Self::ALL);
        }
        ACCEL_SELF_TEST { bits: self.bits | other.bits }
    }
}

impl Default for ACCEL_SELF_TEST {
    fn default() -> (r: Self)
        ensures
            r@ == 0,
            r.wf(),
    {
        ACCEL_SELF_TEST::empty()
    }
}

/// Accelerometer data rate and low-pass filter selection.
#[derive(Clone, Copy, Debug, PartialEq, Eq, Structural)]
#[allow(non_camel_case_types)]
pub struct ACCEL_CONFIG_2 {
    bits: u8,
}

impl ACCEL_CONFIG_2 {
    /// Bypass the accelerometer's low-pass filter
    pub const ACCEL_FCHOICE_B: u8 = 0b00001000;

    /// Bit 2 of the low-pass filter band
    pub const A_DLPFCFG_2: u8 = 0b00000100;

    /// Bit 1 of the low-pass filter band
    pub const A_DLPFCFG_1: u8 = 0b00000010;

    /// Bit 0 of the low-pass filter band
    pub const A_DLPFCFG_0: u8 = 0b00000001;

    /// Every defined flag.
    pub const ALL: u8 = 0b00001111;

    /// The register byte that holds exactly these flags.
    pub closed spec fn view(self) -> u8 {
        self.bits
    }

    /// Only defined flags are set.
    #[verifier::type_invariant]
    pub open spec fn wf(self) -> bool {
        within(self@, Self::ALL)
    }

    /// The defined flags of `bits`.
    pub closed spec fn truncated(bits: u8) -> Self {
        ACCEL_CONFIG_2 { bits: bits & Self::ALL }
    }

    /// Truncation keeps the defined bits, and every well-formed set is the
    /// truncation of its own byte.
    pub proof fn law_truncated(self, bits: u8)
        ensures
            Self::truncated(bits)@ == bits & Self::ALL,
            Self::truncated(bits).wf(),
            self.wf() ==> Self::truncated(self@) == self,
    {
        lemma_within(bits, 0, Self::ALL);
        lemma_within(self.bits, 0, Self::ALL);
    }

    /// Flag sets with the same byte are the same set.
    pub proof fn lemma_same(self, other: Self)
        requires
            self@ == other@,
        ensures
            self == other,
    {
    }

    /// No flag set.
    pub fn empty() -> (r: Self)
        ensures
            r@ == 0,
            r.wf(),
    {
        proof {
            lemma_within(0, 0, Self::ALL);
        }
        ACCEL_CONFIG_2 { bits: 0 }
    }

    /// The register byte.
    pub fn bits(&self) -> (b: u8)
        ensures
            b == self@,
            self.wf(),
    {
        proof {
            use_type_invariant(self);
        }
        self.bits
    }

    /// The flags of `bits`, or `None` where `bits` sets an undefined bit.
    pub fn from_bits(bits: u8) -> (r: Option<Self>)
        ensures
            r is Some <==> within(bits, Self::ALL),
            r matches Some(f) ==> f@ == bits && f.wf(),
    {
        if bits & !Self::ALL == 0 {
            Some(ACCEL_CONFIG_2 { bits })
        } else {
            None
        }
    }

    /// The defined flags of `bits`; undefined bits are dropped.
    pub fn from_bits_truncate(bits: u8) -> (r: Self)
        ensures
            r == Self::truncated(bits),
            r@ == bits & Self::ALL,
            r.wf(),
    {
        proof {
            lemma_within(bits, 0, Self::ALL);
        }
        ACCEL_CONFIG_2 { bits: bits & Self::ALL }
    }

    /// True when no flag is set.
    pub fn is_empty(&self) -> (r: bool)
        ensures
            r == (self@ == 0),
    {
        self.bits == 0
    }

    /// True when every bit of `flags` is set.
    pub fn contains(&self, flags: u8) -> (r: bool)
        ensures
            r == (self@ & flags == flags),
    {
        self.bits & flags == flags
    }

    /// The flags of either set.
    pub fn union(self, other: Self) -> (r: Self)
        ensures
            r@ == self@ | other@,
            r.wf(),
    {
        proof {
            use_type_invariant(&self);
            use_type_invariant(&other);
            lemma_within(self.bits, other.bits, Self::ALL);
        }
        ACCEL_CONFIG_2 { bits: self.bits | other.bits }
    }
}

impl Default for ACCEL_CONFIG_2 {
    fn default() -> (r: Self)
        ensures
            r@ == 0,
            r.wf(),
    {
        ACCEL_CONFIG_2::empty()
    }
}

/// Flags of the internal I2C master, bits 7..4 of `I2C_MST_CTRL`.
#[derive(Clone, Copy, Debug, PartialEq, Eq, Structural)]
#[allow(non_camel_case_types)]
pub struct I2C_MST_FLAGS {
    bits: u8,
}

impl I2C_MST_FLAGS {
    /// Enables multi-master capability, and with it the detection of lost
    /// arbitration
    pub const MULT_MST_EN: u8 = 0b10000000;

    /// Delays the data-ready interrupt until external sensor data is loaded
    pub const WAIT_FOR_ES: u8 = 0b01000000;

    /// Writes the external sensor data of slave 3 to the FIFO
    pub const SLV_3_FIF_EN: u8 = 0b00100000;

    /// Stop, not restart, between one slave read and the next
    pub const I2C_MST_P_NSR: u8 = 0b00010000;

    /// Every defined flag.
    pub const ALL: u8 = 0b11110000;

    /// The register byte that holds exactly these flags.
    pub closed spec fn view(self) -> u8 {
        self.bits
    }

    /// Only defined flags are set.
    #[verifier::type_invariant]
    pub open spec fn wf(self) -> bool {
        within(self@, Self::ALL)
    }

    /// The defined flags of `bits`.
    pub closed spec fn truncated(bits: u8) -> Self {
        I2C_MST_FLAGS { bits: bits & Self::ALL }
    }

    /// Truncation keeps the defined bits, and every well-formed set is the
    /// truncation of its own byte.
    pub proof fn law_truncated(self, bits: u8)
        ensures
            Self::truncated(bits)@ == bits & Self::ALL,
            Self::truncated(bits).wf(),
            self.wf() ==> Self::truncated(self@) == self,
    {
        lemma_within(bits, 0, Self::ALL);
        lemma_within(self.bits, 0, Self::ALL);
    }

    /// Flag sets with the same byte are the same set.
    pub proof fn lemma_same(self, other: Self)
        requires
            self@ == other@,
        ensures
            self == other,
    {
    }

    /// No flag set.
    pub fn empty() -> (r: Self)
        ensures
            r@ == 0,
            r.wf(),
    {
        proof {
            lemma_within(0, 0, Self::ALL);
        }
        I2C_MST_FLAGS { bits: 0 }
    }

    /// The register byte.
    pub fn bits(&self) -> (b: u8)
        ensures
            b == self@,
            self.wf(),
    {
        proof {
            use_type_invariant(self);
        }
        self.bits
    }

    /// The flags of `bits`, or `None` where `bits` sets an undefined bit.
    pub fn from_bits(bits: u8) -> (r: Option<Self>)
        ensures
            r is Some <==> within(bits, Self::ALL),
            r matches Some(f) ==> f@ == bits && f.wf(),
    {
        if bits & !Self::ALL == 0 {
            Some(I2C_MST_FLAGS { bits })
        } else {
            None
        }
    }

    /// The defined flags of `bits`; undefined bits are dropped.
    pub fn from_bits_truncate(bits: u8) -> (r: Self)
        ensures
            r == Self::truncated(bits),
            r@ == bits & Self::ALL,
            r.wf(),
    {
        proof {
            lemma_within(bits, 0, Self::ALL);
        }
        I2C_MST_FLAGS { bits: bits & Self::ALL }
    }

    /// True when no flag is set.
    pub fn is_empty(&self) -> (r: bool)
        ensures
            r == (self@ == 0),
    {
        self.bits == 0
    }

    /// True when every bit of `flags` is set.
    pub fn contains(&self, flags: u8) -> (r: bool)
        ensures
            r == (self@ & flags == flags),
    {
        self.bits & flags == flags
    }

    /// The flags of either set.
    pub fn union(self, other: Self) -> (r: Self)
        ensures
            r@ == self@ | other@,
            r.wf(),
    {
        proof {
            use_type_invariant(&self);
            use_type_invariant(&other);
            lemma_within(self.bits, other.bits, Self::ALL);
        }
        I2C_MST_FLAGS { bits: self.bits | other.bits }
    }
}

impl Default for I2C_MST_FLAGS {
    fn default() -> (r: Self)
        ensures
            r@ == 0,
            r.wf(),
    {
        I2C_MST_FLAGS::empty()
    }
}

/// Status of the internal I2C master. Reading the register clears it.
#[derive(Clone, Copy, Debug, PartialEq, Eq, Structural)]
#[allow(non_camel_case_types)]
pub struct I2C_MST_STATUS {
    bits: u8,
}

impl I2C_MST_STATUS {
    /// FSYNC interrupt passed through to the host
    pub const PASS_THROUGH: u8 = 0b10000000;

    /// The slave 4 transfer is complete
    pub const I2C_SLV4_DONE: u8 = 0b01000000;

    /// The master lost arbitration of the bus
    pub const I2C_LOST_ARB: u8 = 0b00100000;

    /// Slave 4 answered with a NACK
    pub const I2C_SLV4_NACK: u8 = 0b00010000;

    /// Slave 3 answered with a NACK
    pub const I2C_SLV3_NACK: u8 = 0b00001000;

    /// Slave 2 answered with a NACK
    pub const I2C_SLV2_NACK: u8 = 0b00000100;

    /// Slave 1 answered with a NACK
    pub const I2C_SLV1_NACK: u8 = 0b00000010;

    /// Slave 0 answered with a NACK
    pub const I2C_SLV0_NACK: u8 = 0b00000001;

    /// Every defined flag.
    pub const ALL: u8 = 0b11111111;

    /// The register byte that holds exactly these flags.
    pub closed spec fn view(self) -> u8 {
        self.bits
    }

    /// Only defined flags are set.
    #[verifier::type_invariant]
    pub open spec fn wf(self) -> bool {
        within(self@, Self::ALL)
    }

    /// The defined flags of `bits`.
    pub closed spec fn truncated(bits: u8) -> Self {
        I2C_MST_STATUS { bits: bits & Self::ALL }
    }

    /// Truncation keeps the defined bits, and every well-formed set is the
    /// truncation of its own byte.
    pub proof fn law_truncated(self, bits: u8)
        ensures
            Self::truncated(bits)@ == bits & Self::ALL,
            Self::truncated(bits).wf(),
            self.wf() ==> Self::truncated(self@) == self,
    {
        lemma_within(bits, 0, Self::ALL);
        lemma_within(self.bits, 0, Self::ALL);
    }

    /// Flag sets with the same byte are the same set.
    pub proof fn lemma_same(self, other: Self)
        requires
            self@ == other@,
        ensures
            self == other,
    {
    }

    /// No flag set.
    pub fn empty() -> (r: Self)
        ensures
            r@ == 0,
            r.wf(),
    {
        proof {
            lemma_within(0, 0, Self::ALL);
        }
        I2C_MST_STATUS { bits: 0 }
    }

    /// The register byte.
    pub fn bits(&self) -> (b: u8)
        ensures
            b == self@,
            self.wf(),
    {
        proof {
            use_type_invariant(self);
        }
        self.bits
    }

    /// The flags of `bits`, or `None` where `bits` sets an undefined bit.
    pub fn from_bits(bits: u8) -> (r: Option<Self>)
        ensures
            r is Some <==> within(bits, Self::ALL),
            r matches Some(f) ==> f@ == bits && f.wf(),
    {
        if bits & !Self::ALL == 0 {
            Some(I2C_MST_STATUS { bits })
        } else {
            None
        }
    }

    /// The defined flags of `bits`; undefined bits are dropped.
    pub fn from_bits_truncate(bits: u8) -> (r: Self)
        ensures
            r == Self::truncated(bits),
            r@ == bits & Self::ALL,
            r.wf(),
    {
        proof {
            lemma_within(bits, 0, Self::ALL);
        }
        I2C_MST_STATUS { bits: bits & Self::ALL }
    }

    /// True when no flag is set.
    pub fn is_empty(&self) -> (r: bool)
        ensures
            r == (self@ == 0),
    {
        self.bits == 0
    }

    /// True when every bit of `flags` is set.
    pub fn contains(&self, flags: u8) -> (r: bool)
        ensures
            r == (self@ & flags == flags),
    {
        self.bits & flags == flags
    }

    /// The flags of either set.
    pub fn union(self, other: Self) -> (r: Self)
        ensures
            r@ == self@ | other@,
            r.wf(),
    {
        proof {
            use_type_invariant(&self);
            use_type_invariant(&other);
            lemma_within(self.bits, other.bits, Self::ALL);
        }
        I2C_MST_STATUS { bits: self.bits | other.bits }
    }
}

impl Default for I2C_MST_STATUS {
    fn default() -> (r: Self)
        ensures
            r@ == 0,
            r.wf(),
    {
        I2C_MST_STATUS::empty()
    }
}

/// Control flags of I2C slaves 0 to 3, bits 7..4 of `I2C_SLVx_CTRL`.
///
/// Slave 4 has flags of its own, [`I2C_SLV4_CTRL`].
#[derive(Clone, Copy, Debug, PartialEq, Eq, Structural)]
#[allow(non_camel_case_types)]
pub struct I2C_SLVX_FLAGS {
    bits: u8,
}

impl I2C_SLVX_FLAGS {
    /// Read from this slave at the sample rate, into the first free
    /// `EXT_SENS_DATA` register
    pub const EN: u8 = 0b10000000;

    /// Swap the bytes of each word read
    pub const BYTE_SW: u8 = 0b01000000;

    /// Transfer data only, without sending a register address first
    pub const REG_DIS: u8 = 0b00100000;

    /// Words end at even register addresses, not at odd ones
    pub const GRP: u8 = 0b00010000;

    /// Every defined flag.
    pub const ALL: u8 = 0b11110000;

    /// The register byte that holds exactly these flags.
    pub closed spec fn view(self) -> u8 {
        self.bits
    }

    /// Only defined flags are set.
    #[verifier::type_invariant]
    pub open spec fn wf(self) -> bool {
        within(self@, Self::ALL)
    }

    /// The defined flags of `bits`.
    pub closed spec fn truncated(bits: u8) -> Self {
        I2C_SLVX_FLAGS { bits: bits & Self::ALL }
    }

    /// Truncation keeps the defined bits, and every well-formed set is the
    /// truncation of its own byte.
    pub proof fn law_truncated(self, bits: u8)
        ensures
            Self::truncated(bits)@ == bits & Self::ALL,
            Self::truncated(bits).wf(),
            self.wf() ==> Self::truncated(self@) == self,
    {
        lemma_within(bits, 0, Self::ALL);
        lemma_within(self.bits, 0, Self::ALL);
    }

    /// Flag sets with the same byte are the same set.
    pub proof fn lemma_same(self, other: Self)
        requires
            self@ == other@,
        ensures
            self == other,
    {
    }

    /// No flag set.
    pub fn empty() -> (r: Self)
        ensures
            r@ == 0,
            r.wf(),
    {
        proof {
            lemma_within(0, 0, Self::ALL);
        }
        I2C_SLVX_FLAGS { bits: 0 }
    }

    /// The register byte.
    pub fn bits(&self) -> (b: u8)
        ensures
            b == self@,
            self.wf(),
    {
        proof {
            use_type_invariant(self);
        }
        self.bits
    }

    /// The flags of `bits`, or `None` where `bits` sets an undefined bit.
    pub fn from_bits(bits: u8) -> (r: Option<Self>)
        ensures
            r is Some <==> within(bits, Self::ALL),
            r matches Some(f) ==> f@ == bits && f.wf(),
    {
        if bits & !Self::ALL == 0 {
            Some(I2C_SLVX_FLAGS { bits })
        } else {
            None
        }
    }

    /// The defined flags of `bits`; undefined bits are dropped.
    pub fn from_bits_truncate(bits: u8) -> (r: Self)
        ensures
            r == Self::truncated(bits),
            r@ == bits & Self::ALL,
            r.wf(),
    {
        proof {
            lemma_within(bits, 0, Self::ALL);
        }
        I2C_SLVX_FLAGS { bits: bits & Self::ALL }
    }

    /// True when no flag is set.
    pub fn is_empty(&self) -> (r: bool)
        ensures
            r == (self@ == 0),
    {
        self.bits == 0
    }

    /// True when every bit of `flags` is set.
    pub fn contains(&self, flags: u8) -> (r: bool)
        ensures
            r == (self@ & flags == flags),
    {
        self.bits & flags == flags
    }

    /// The flags of either set.
    pub fn union(self, other: Self) -> (r: Self)
        ensures
            r@ == self@ | other@,
            r.wf(),
    {
        proof {
            use_type_invariant(&self);
            use_type_invariant(&other);
            lemma_within(self.bits, other.bits, Self::ALL);
        }
        I2C_SLVX_FLAGS { bits: self.bits | other.bits }
    }
}

impl Default for I2C_SLVX_FLAGS {
    fn default() -> (r: Self)
        ensures
            r@ == 0,
            r.wf(),
    {
        I2C_SLVX_FLAGS::empty()
    }
}

/// Control flags of I2C slave 4, the one-shot channel.
#[derive(Clone, Copy, Debug, PartialEq, Eq, Structural)]
#[allow(non_camel_case_types)]
pub struct I2C_SLV4_CTRL {
    bits: u8,
}

impl I2C_SLV4_CTRL {
    /// Start the transfer; cleared when it is done
    pub const I2C_SLV4_EN: u8 = 0b10000000;

    /// Raise an interrupt when the transfer is done
    pub const SLV4_DONE_INT_EN: u8 = 0b01000000;

    /// Transfer data only, without sending a register address first
    pub const I2C_SLV4_REG_DIS: u8 = 0b00100000;

    /// Every defined flag.
    pub const ALL: u8 = 0b11100000;

    /// The register byte that holds exactly these flags.
    pub closed spec fn view(self) -> u8 {
        self.bits
    }

    /// Only defined flags are set.
    #[verifier::type_invariant]
    pub open spec fn wf(self) -> bool {
        within(self@, Self::ALL)
    }

    /// The defined flags of `bits`.
    pub closed spec fn truncated(bits: u8) -> Self {
        I2C_SLV4_CTRL { bits: bits & Self::ALL }
    }

    /// Truncation keeps the defined bits, and every well-formed set is the
    /// truncation of its own byte.
    pub proof fn law_truncated(self, bits: u8)
        ensures
            Self::truncated(bits)@ == bits & Self::ALL,
            Self::truncated(bits).wf(),
            self.wf() ==> Self::truncated(self@) == self,
    {
        lemma_within(bits, 0, Self::ALL);
        lemma_within(self.bits, 0, Self::ALL);
    }

    /// Flag sets with the same byte are the same set.
    pub proof fn lemma_same(self, other: Self)
        requires
            self@ == other@,
        ensures
            self == other,
    {
    }

    /// No flag set.
    pub fn empty() -> (r: Self)
        ensures
            r@ == 0,
            r.wf(),
    {
        proof {
            lemma_within(0, 0, Self::ALL);
        }
        I2C_SLV4_CTRL { bits: 0 }
    }

    /// The register byte.
    pub fn bits(&self) -> (b: u8)
        ensures
            b == self@,
            self.wf(),
    {
        proof {
            use_type_invariant(self);
        }
        self.bits
    }

    /// The flags of `bits`, or `None` where `bits` sets an undefined bit.
    pub fn from_bits(bits: u8) -> (r: Option<Self>)
        ensures
            r is Some <==> within(bits, Self::ALL),
            r matches Some(f) ==> f@ == bits && f.wf(),
    {
        if bits & !Self::ALL == 0 {
            Some(I2C_SLV4_CTRL { bits })
        } else {
            None
        }
    }

    /// The defined flags of `bits`; undefined bits are dropped.
    pub fn from_bits_truncate(bits: u8) -> (r: Self)
        ensures
            r == Self::truncated(bits),
            r@ == bits & Self::ALL,
            r.wf(),
    {
        proof {
            lemma_within(bits, 0, Self::ALL);
        }
        I2C_SLV4_CTRL { bits: bits & Self::ALL }
    }

    /// True when no flag is set.
    pub fn is_empty(&self) -> (r: bool)
        ensures
            r == (self@ == 0),
    {
        self.bits == 0
    }

    /// True when every bit of `flags` is set.
    pub fn contains(&self, flags: u8) -> (r: bool)
        ensures
            r == (self@ & flags == flags),
    {
        self.bits & flags == flags
    }

    /// The flags of either set.
    pub fn union(self, other: Self) -> (r: Self)
        ensures
            r@ == self@ | other@,
            r.wf(),
    {
        proof {
            use_type_invariant(&self);
            use_type_invariant(&other);
            lemma_within(self.bits, other.bits, Self::ALL);
        }
        I2C_SLV4_CTRL { bits: self.bits | other.bits }
    }
}

impl Default for I2C_SLV4_CTRL {
    fn default() -> (r: Self)
        ensures
            r@ == 0,
            r.wf(),
    {
        I2C_SLV4_CTRL::empty()
    }
}

/// Interrupt pin and bypass configuration.
#[derive(Clone, Copy, Debug, PartialEq, Eq, Structural)]
#[allow(non_camel_case_types)]
pub struct INT_PIN_CFG {
    bits: u8,
}

impl INT_PIN_CFG {
    /// The INT pin is active low
    pub const ACTL: u8 = 0b10000000;

    /// The INT pin is open drain
    pub const OPEN: u8 = 0b01000000;

    /// The INT pin level is held until the interrupt status is cleared
    pub const LATCH_INT_EN: u8 = 0b00100000;

    /// Any read clears the interrupt status
    pub const INT_ANYRD_CLEAR: u8 = 0b00010000;

    /// The FSYNC pin is active low as an interrupt
    pub const ACTL_FSYNC: u8 = 0b00001000;

    /// The FSYNC pin is an interrupt source
    pub const FSYNC_INT_MODE_EN: u8 = 0b00000100;

    /// With the internal I2C master off, join the auxiliary I2C pins to the
    /// external bus, so that the AK8963 answers there
    pub const BYPASS_EN: u8 = 0b00000010;

    /// Every defined flag.
    pub const ALL: u8 = 0b11111110;

    /// The register byte that holds exactly these flags.
    pub closed spec fn view(self) -> u8 {
        self.bits
    }

    /// Only defined flags are set.
    #[verifier::type_invariant]
    pub open spec fn wf(self) -> bool {
        within(self@, Self::ALL)
    }

    /// The defined flags of `bits`.
    pub closed spec fn truncated(bits: u8) -> Self {
        INT_PIN_CFG { bits: bits & Self::ALL }
    }

    /// Truncation keeps the defined bits, and every well-formed set is the
    /// truncation of its own byte.
    pub proof fn law_truncated(self, bits: u8)
        ensures
            Self::truncated(bits)@ == bits & Self::ALL,
            Self::truncated(bits).wf(),
            self.wf() ==> Self::truncated(self@) == self,
    {
        lemma_within(bits, 0, Self::ALL);
        lemma_within(self.bits, 0, Self::ALL);
    }

    /// Flag sets with the same byte are the same set.
    pub proof fn lemma_same(self, other: Self)
        requires
            self@ == other@,
        ensures
            self == other,
    {
    }

    /// No flag set.
    pub fn empty() -> (r: Self)
        ensures
            r@ == 0,
            r.wf(),
    {
        proof {
            lemma_within(0, 0, Self::ALL);
        }
        INT_PIN_CFG { bits: 0 }
    }

    /// The register byte.
    pub fn bits(&self) -> (b: u8)
        ensures
            b == self@,
            self.wf(),
    {
        proof {
            use_type_invariant(self);
        }
        self.bits
    }

    /// The flags of `bits`, or `None` where `bits` sets an undefined bit.
    pub fn from_bits(bits: u8) -> (r: Option<Self>)
        ensures
            r is Some <==> within(bits, Self::ALL),
            r matches Some(f) ==> f@ == bits && f.wf(),
    {
        if bits & !Self::ALL == 0 {
            Some(INT_PIN_CFG { bits })
        } else {
            None
        }
    }

    /// The defined flags of `bits`; undefined bits are dropped.
    pub fn from_bits_truncate(bits: u8) -> (r: Self)
        ensures
            r == Self::truncated(bits),
            r@ == bits & Self::ALL,
            r.wf(),
    {
        proof {
            lemma_within(bits, 0, Self::ALL);
        }
        INT_PIN_CFG { bits: bits & Self::ALL }
    }

    /// True when no flag is set.
    pub fn is_empty(&self) -> (r: bool)
        ensures
            r == (self@ == 0),
    {
        self.bits == 0
    }

    /// True when every bit of `flags` is set.
    pub fn contains(&self, flags: u8) -> (r: bool)
        ensures
            r == (self@ & flags == flags),
    {
        self.bits & flags == flags
    }

    /// The flags of either set.
    pub fn union(self, other: Self) -> (r: Self)
        ensures
            r@ == self@ | other@,
            r.wf(),
    {
        proof {
            use_type_invariant(&self);
            use_type_invariant(&other);
            lemma_within(self.bits, other.bits, Self::ALL);
        }
        INT_PIN_CFG { bits: self.bits | other.bits }
    }
}

impl Default for INT_PIN_CFG {
    fn default() -> (r: Self)
        ensures
            r@ == 0,
            r.wf(),
    {
        INT_PIN_CFG::empty()
    }
}

/// User control.
#[derive(Clone, Copy, Debug, PartialEq, Eq, Structural)]
#[allow(non_camel_case_types)]
pub struct USER_CTRL {
    bits: u8,
}

impl USER_CTRL {
    /// Enable the FIFO
    pub const FIFO_EN: u8 = 0b01000000;

    /// Enable the internal I2C master; the auxiliary I2C pins are then cut
    /// off from the external bus
    pub const I2C_MST_EN: u8 = 0b00100000;

    /// Disable the I2C slave interface: SPI only
    pub const I2C_IF_DIS: u8 = 0b00010000;

    /// Reset the FIFO; clears itself
    pub const FIFO_RST: u8 = 0b00000100;

    /// Reset the internal I2C master; clears itself
    pub const I2C_MST_RST: u8 = 0b00000010;

    /// Reset the signal paths and sensor registers; clears itself
    pub const SIG_COND_RST: u8 = 0b00000001;

    /// Every defined flag.
    pub const ALL: u8 = 0b01110111;

    /// The register byte that holds exactly these flags.
    pub closed spec fn view(self) -> u8 {
        self.bits
    }

    /// Only defined flags are set.
    #[verifier::type_invariant]
    pub open spec fn wf(self) -> bool {
        within(self@, Self::ALL)
    }

    /// The defined flags of `bits`.
    pub closed spec fn truncated(bits: u8) -> Self {
        USER_CTRL { bits: bits & Self::ALL }
    }

    /// Truncation keeps the defined bits, and every well-formed set is the
    /// truncation of its own byte.
    pub proof fn law_truncated(self, bits: u8)
        ensures
            Self::truncated(bits)@ == bits & Self::ALL,
            Self::truncated(bits).wf(),
            self.wf() ==> Self::truncated(self@) == self,
    {
        lemma_within(bits, 0, Self::ALL);
        lemma_within(self.bits, 0, Self::ALL);
    }

    /// Flag sets with the same byte are the same set.
    pub proof fn lemma_same(self, other: Self)
        requires
            self@ == other@,
        ensures
            self == other,
    {
    }

    /// No flag set.
    pub fn empty() -> (r: Self)
        ensures
            r@ == 0,
            r.wf(),
    {
        proof {
            lemma_within(0, 0, Self::ALL);
        }
        USER_CTRL { bits: 0 }
    }

    /// The register byte.
    pub fn bits(&self) -> (b: u8)
        ensures
            b == self@,
            self.wf(),
    {
        proof {
            use_type_invariant(self);
        }
        self.bits
    }

    /// The flags of `bits`, or `None` where `bits` sets an undefined bit.
    pub fn from_bits(bits: u8) -> (r: Option<Self>)
        ensures
            r is Some <==> within(bits, Self::ALL),
            r matches Some(f) ==> f@ == bits && f.wf(),
    {
        if bits & !Self::ALL == 0 {
            Some(USER_CTRL { bits })
        } else {
            None
        }
    }

    /// The defined flags of `bits`; undefined bits are dropped.
    pub fn from_bits_truncate(bits: u8) -> (r: Self)
        ensures
            r == Self::truncated(bits),
            r@ == bits & Self::ALL,
            r.wf(),
    {
        proof {
            lemma_within(bits, 0, Self::ALL);
        }
        USER_CTRL { bits: bits & Self::ALL }
    }

    /// True when no flag is set.
    pub fn is_empty(&self) -> (r: bool)
        ensures
            r == (self@ == 0),
    {
        self.bits == 0
    }

    /// True when every bit of `flags` is set.
    pub fn contains(&self, flags: u8) -> (r: bool)
        ensures
            r == (self@ & flags == flags),
    {
        self.bits & flags == flags
    }

    /// The flags of either set.
    pub fn union(self, other: Self) -> (r: Self)
        ensures
            r@ == self@ | other@,
            r.wf(),
    {
        proof {
            use_type_invariant(&self);
            use_type_invariant(&other);
            lemma_within(self.bits, other.bits, Self::ALL);
        }
        USER_CTRL { bits: self.bits | other.bits }
    }
}

impl Default for USER_CTRL {
    fn default() -> (r: Self)
        ensures
            r@ == 0,
            r.wf(),
    {
        USER_CTRL::empty()
    }
}

/// Power management flags, bits 7..3 of `PWR_MGMT_1`.
#[derive(Clone, Copy, Debug, PartialEq, Eq, Structural)]
#[allow(non_camel_case_types)]
pub struct PWR_MGMT_1_FLAGS {
    bits: u8,
}

impl PWR_MGMT_1_FLAGS {
    /// Reset the internal registers to their defaults; clears itself
    pub const H_RESET: u8 = 0b10000000;

    /// Sleep mode
    pub const SLEEP: u8 = 0b01000000;

    /// Cycle between sleep and taking a single sample
    pub const CYCLE: u8 = 0b00100000;

    /// Keep the gyro drive running with the sense paths off
    pub const GYRO_STANDBY: u8 = 0b00010000;

    /// Power down the internal voltage generator
    pub const PD_PTAT: u8 = 0b00001000;

    /// Every defined flag.
    pub const ALL: u8 = 0b11111000;

    /// The register byte that holds exactly these flags.
    pub closed spec fn view(self) -> u8 {
        self.bits
    }

    /// Only defined flags are set.
    #[verifier::type_invariant]
    pub open spec fn wf(self) -> bool {
        within(self@, Self::ALL)
    }

    /// The defined flags of `bits`.
    pub closed spec fn truncated(bits: u8) -> Self {
        PWR_MGMT_1_FLAGS { bits: bits & Self::ALL }
    }

    /// Truncation keeps the defined bits, and every well-formed set is the
    /// truncation of its own byte.
    pub proof fn law_truncated(self, bits: u8)
        ensures
            Self::truncated(bits)@ == bits & Self::ALL,
            Self::truncated(bits).wf(),
            self.wf() ==> Self::truncated(self@) == self,
    {
        lemma_within(bits, 0, Self::ALL);
        lemma_within(self.bits, 0, Self::ALL);
    }

    /// Flag sets with the same byte are the same set.
    pub proof fn lemma_same(self, other: Self)
        requires
            self@ == other@,
        ensures
            self == other,
    {
    }

    /// No flag set.
    pub fn empty() -> (r: Self)
        ensures
            r@ == 0,
            r.wf(),
    {
        proof {
            lemma_within(0, 0, Self::ALL);
        }
        PWR_MGMT_1_FLAGS { bits: 0 }
    }

    /// The register byte.
    pub fn bits(&self) -> (b: u8)
        ensures
            b == self@,
            self.wf(),
    {
        proof {
            use_type_invariant(self);
        }
        self.bits
    }

    /// The flags of `bits`, or `None` where `bits` sets an undefined bit.
    pub fn from_bits(bits: u8) -> (r: Option<Self>)
        ensures
            r is Some <==> within(bits, Self::ALL),
            r matches Some(f) ==> f@ == bits && f.wf(),
    {
        if bits & !Self::ALL == 0 {
            Some(PWR_MGMT_1_FLAGS { bits })
        } else {
            None
        }
    }

    /// The defined flags of `bits`; undefined bits are dropped.
    pub fn from_bits_truncate(bits: u8) -> (r: Self)
        ensures
            r == Self::truncated(bits),
            r@ == bits & Self::ALL,
            r.wf(),
    {
        proof {
            lemma_within(bits, 0, Self::ALL);
        }
        PWR_MGMT_1_FLAGS { bits: bits & Self::ALL }
    }

    /// True when no flag is set.
    pub fn is_empty(&self) -> (r: bool)
        ensures
            r == (self@ == 0),
    {
        self.bits == 0
    }

    /// True when every bit of `flags` is set.
    pub fn contains(&self, flags: u8) -> (r: bool)
        ensures
            r == (self@ & flags == flags),
    {
        self.bits & flags == flags
    }

    /// The flags of either set.
    pub fn union(self, other: Self) -> (r: Self)
        ensures
            r@ == self@ | other@,
            r.wf(),
    {
        proof {
            use_type_invariant(&self);
            use_type_invariant(&other);
            lemma_within(self.bits, other.bits, Self::ALL);
        }
        PWR_MGMT_1_FLAGS { bits: self.bits | other.bits }
    }
}

impl Default for PWR_MGMT_1_FLAGS {
    fn default() -> (r: Self)
        ensures
            r@ == 0,
            r.wf(),
    {
        PWR_MGMT_1_FLAGS::empty()
    }
}

/// What is written to the FIFO at the sample rate.
#[derive(Clone, Copy, Debug, PartialEq, Eq, Structural)]
#[allow(non_camel_case_types)]
pub struct FIFO_EN {
    bits: u8,
}

impl FIFO_EN {
    /// Temperature
    pub const TEMP_OUT: u8 = 0b10000000;

    /// Gyroscope X
    pub const GYRO_XOUT: u8 = 0b01000000;

    /// Gyroscope Y
    pub const GYRO_YOUT: u8 = 0b00100000;

    /// Gyroscope Z
    pub const GYRO_ZOUT: u8 = 0b00010000;

    /// Accelerometer, all axes
    pub const ACCEL: u8 = 0b00001000;

    /// External sensor data of slave 2
    pub const SLV2: u8 = 0b00000100;

    /// External sensor data of slave 1
    pub const SLV1: u8 = 0b00000010;

    /// External sensor data of slave 0
    pub const SLV0: u8 = 0b00000001;

    /// Every defined flag.
    pub const ALL: u8 = 0b11111111;

    /// The register byte that holds exactly these flags.
    pub closed spec fn view(self) -> u8 {
        self.bits
    }

    /// Only defined flags are set.
    #[verifier::type_invariant]
    pub open spec fn wf(self) -> bool {
        within(self@, Self::ALL)
    }

    /// The defined flags of `bits`.
    pub closed spec fn truncated(bits: u8) -> Self {
        FIFO_EN { bits: bits & Self::ALL }
    }

    /// Truncation keeps the defined bits, and every well-formed set is the
    /// truncation of its own byte.
    pub proof fn law_truncated(self, bits: u8)
        ensures
            Self::truncated(bits)@ == bits & Self::ALL,
            Self::truncated(bits).wf(),
            self.wf() ==> Self::truncated(self@) == self,
    {
        lemma_within(bits, 0, Self::ALL);
        lemma_within(self.bits, 0, Self::ALL);
    }

    /// Flag sets with the same byte are the same set.
    pub proof fn lemma_same(self, other: Self)
        requires
            self@ == other@,
        ensures
            self == other,
    {
    }

    /// No flag set.
    pub fn empty() -> (r: Self)
        ensures
            r@ == 0,
            r.wf(),
    {
        proof {
            lemma_within(0, 0, Self::ALL);
        }
        FIFO_EN { bits: 0 }
    }

    /// The register byte.
    pub fn bits(&self) -> (b: u8)
        ensures
            b == self@,
            self.wf(),
    {
        proof {
            use_type_invariant(self);
        }
        self.bits
    }

    /// The flags of `bits`, or `None` where `bits` sets an undefined bit.
    pub fn from_bits(bits: u8) -> (r: Option<Self>)
        ensures
            r is Some <==> within(bits, Self::ALL),
            r matches Some(f) ==> f@ == bits && f.wf(),
    {
        if bits & !Self::ALL == 0 {
            Some(FIFO_EN { bits })
        } else {
            None
        }
    }

    /// The defined flags of `bits`; undefined bits are dropped.
    pub fn from_bits_truncate(bits: u8) -> (r: Self)
        ensures
            r == Self::truncated(bits),
            r@ == bits & Self::ALL,
            r.wf(),
    {
        proof {
            lemma_within(bits, 0, Self::ALL);
        }
        FIFO_EN { bits: bits & Self::ALL }
    }

    /// True when no flag is set.
    pub fn is_empty(&self) -> (r: bool)
        ensures
            r == (self@ == 0),
    {
        self.bits == 0
    }

    /// True when every bit of `flags` is set.
    pub fn contains(&self, flags: u8) -> (r: bool)
        ensures
            r == (self@ & flags == flags),
    {
        self.bits & flags == flags
    }

    /// The flags of either set.
    pub fn union(self, other: Self) -> (r: Self)
        ensures
            r@ == self@ | other@,
            r.wf(),
    {
        proof {
            use_type_invariant(&self);
            use_type_invariant(&other);
            lemma_within(self.bits, other.bits, Self::ALL);
        }
        FIFO_EN { bits: self.bits | other.bits }
    }
}

impl Default for FIFO_EN {
    fn default() -> (r: Self)
        ensures
            r@ == 0,
            r.wf(),
    {
        FIFO_EN::empty()
    }
}

/// Which events raise the interrupt pin.
#[derive(Clone, Copy, Debug, PartialEq, Eq, Structural)]
#[allow(non_camel_case_types)]
pub struct INT_ENABLE {
    bits: u8,
}

impl INT_ENABLE {
    /// Wake on motion
    pub const WOM_EN: u8 = 0b01000000;

    /// FIFO overflow
    pub const FIFO_OVERFLOW_EN: u8 = 0b00010000;

    /// FSYNC
    pub const FSYNC_INT_EN: u8 = 0b00001000;

    /// Raw sensor data ready
    pub const RAW_RDY_EN: u8 = 0b00000001;

    /// Every defined flag.
    pub const ALL: u8 = 0b01011001;

    /// The register byte that holds exactly these flags.
    pub closed spec fn view(self) -> u8 {
        self.bits
    }

    /// Only defined flags are set.
    #[verifier::type_invariant]
    pub open spec fn wf(self) -> bool {
        within(self@, Self::ALL)
    }

    /// The defined flags of `bits`.
    pub closed spec fn truncated(bits: u8) -> Self {
        INT_ENABLE { bits: bits & Self::ALL }
    }

    /// Truncation keeps the defined bits, and every well-formed set is the
    /// truncation of its own byte.
    pub proof fn law_truncated(self, bits: u8)
        ensures
            Self::truncated(bits)@ == bits & Self::ALL,
            Self::truncated(bits).wf(),
            self.wf() ==> Self::truncated(self@) == self,
    {
        lemma_within(bits, 0, Self::ALL);
        lemma_within(self.bits, 0, Self::ALL);
    }

    /// Flag sets with the same byte are the same set.
    pub proof fn lemma_same(self, other: Self)
        requires
            self@ == other@,
        ensures
            self == other,
    {
    }

    /// No flag set.
    pub fn empty() -> (r: Self)
        ensures
            r@ == 0,
            r.wf(),
    {
        proof {
            lemma_within(0, 0, Self::ALL);
        }
        INT_ENABLE { bits: 0 }
    }

    /// The register byte.
    pub fn bits(&self) -> (b: u8)
        ensures
            b == self@,
            self.wf(),
    {
        proof {
            use_type_invariant(self);
        }
        self.bits
    }

    /// The flags of `bits`, or `None` where `bits` sets an undefined bit.
    pub fn from_bits(bits: u8) -> (r: Option<Self>)
        ensures
            r is Some <==> within(bits, Self::ALL),
            r matches Some(f) ==> f@ == bits && f.wf(),
    {
        if bits & !Self::ALL == 0 {
            Some(INT_ENABLE { bits })
        } else {
            None
        }
    }

    /// The defined flags of `bits`; undefined bits are dropped.
    pub fn from_bits_truncate(bits: u8) -> (r: Self)
        ensures
            r == Self::truncated(bits),
            r@ == bits & Self::ALL,
            r.wf(),
    {
        proof {
            lemma_within(bits, 0, Self::ALL);
        }
        INT_ENABLE { bits: bits & Self::ALL }
    }

    /// True when no flag is set.
    pub fn is_empty(&self) -> (r: bool)
        ensures
            r == (self@ == 0),
    {
        self.bits == 0
    }

    /// True when every bit of `flags` is set.
    pub fn contains(&self, flags: u8) -> (r: bool)
        ensures
            r == (self@ & flags == flags),
    {
        self.bits & flags == flags
    }

    /// The flags of either set.
    pub fn union(self, other: Self) -> (r: Self)
        ensures
            r@ == self@ | other@,
            r.wf(),
    {
        proof {
            use_type_invariant(&self);
            use_type_invariant(&other);
            lemma_within(self.bits, other.bits, Self::ALL);
        }
        INT_ENABLE { bits: self.bits | other.bits }
    }
}

impl Default for INT_ENABLE {
    fn default() -> (r: Self)
        ensures
            r@ == 0,
            r.wf(),
    {
        INT_ENABLE::empty()
    }
}

/// Which events have occurred.
#[derive(Clone, Copy, Debug, PartialEq, Eq, Structural)]
#[allow(non_camel_case_types)]
pub struct INT_STATUS {
    bits: u8,
}

impl INT_STATUS {
    /// Wake on motion
    pub const WOM_INT: u8 = 0b01000000;

    /// FIFO overflow; the oldest data was dropped
    pub const FIFO_OVERFLOW_INT: u8 = 0b00010000;

    /// FSYNC
    pub const FSYNC_INT: u8 = 0b00001000;

    /// The sensor registers hold new data
    pub const RAW_DATA_RDY_INT: u8 = 0b00000001;

    /// Every defined flag.
    pub const ALL: u8 = 0b01011001;

    /// The register byte that holds exactly these flags.
    pub closed spec fn view(self) -> u8 {
        self.bits
    }

    /// Only defined flags are set.
    #[verifier::type_invariant]
    pub open spec fn wf(self) -> bool {
        within(self@, Self::ALL)
    }

    /// The defined flags of `bits`.
    pub closed spec fn truncated(bits: u8) -> Self {
        INT_STATUS { bits: bits & Self::ALL }
    }

    /// Truncation keeps the defined bits, and every well-formed set is the
    /// truncation of its own byte.
    pub proof fn law_truncated(self, bits: u8)
        ensures
            Self::truncated(bits)@ == bits & Self::ALL,
            Self::truncated(bits).wf(),
            self.wf() ==> Self::truncated(self@) == self,
    {
        lemma_within(bits, 0, Self::ALL);
        lemma_within(self.bits, 0, Self::ALL);
    }

    /// Flag sets with the same byte are the same set.
    pub proof fn lemma_same(self, other: Self)
        requires
            self@ == other@,
        ensures
            self == other,
    {
    }

    /// No flag set.
    pub fn empty() -> (r: Self)
        ensures
            r@ == 0,
            r.wf(),
    {
        proof {
            lemma_within(0, 0, Self::ALL);
        }
        INT_STATUS { bits: 0 }
    }

    /// The register byte.
    pub fn bits(&self) -> (b: u8)
        ensures
            b == self@,
            self.wf(),
    {
        proof {
            use_type_invariant(self);
        }
        self.bits
    }

    /// The flags of `bits`, or `None` where `bits` sets an undefined bit.
    pub fn from_bits(bits: u8) -> (r: Option<Self>)
        ensures
            r is Some <==> within(bits, Self::ALL),
            r matches Some(f) ==> f@ == bits && f.wf(),
    {
        if bits & !Self::ALL == 0 {
            Some(INT_STATUS { bits })
        } else {
            None
        }
    }

    /// The defined flags of `bits`; undefined bits are dropped.
    pub fn from_bits_truncate(bits: u8) -> (r: Self)
        ensures
            r == Self::truncated(bits),
            r@ == bits & Self::ALL,
            r.wf(),
    {
        proof {
            lemma_within(bits, 0, Self::ALL);
        }
        INT_STATUS { bits: bits & Self::ALL }
    }

    /// True when no flag is set.
    pub fn is_empty(&self) -> (r: bool)
        ensures
            r == (self@ == 0),
    {
        self.bits == 0
    }

    /// True when every bit of `flags` is set.
    pub fn contains(&self, flags: u8) -> (r: bool)
        ensures
            r == (self@ & flags == flags),
    {
        self.bits & flags == flags
    }

    /// The flags of either set.
    pub fn union(self, other: Self) -> (r: Self)
        ensures
            r@ == self@ | other@,
            r.wf(),
    {
        proof {
            use_type_invariant(&self);
            use_type_invariant(&other);
            lemma_within(self.bits, other.bits, Self::ALL);
        }
        INT_STATUS { bits: self.bits | other.bits }
    }
}

impl Default for INT_STATUS {
    fn default() -> (r: Self)
        ensures
            r@ == 0,
            r.wf(),
    {
        INT_STATUS::empty()
    }
}

/// Delay control of the internal I2C master.
#[derive(Clone, Copy, Debug, PartialEq, Eq, Structural)]
#[allow(non_camel_case_types)]
pub struct I2C_MST_DELAY_CTRL {
    bits: u8,
}

impl I2C_MST_DELAY_CTRL {
    /// Hold back external sensor data until all of it is received
    pub const DELAY_ES_SHADOW: u8 = 0b10000000;

    /// Access slave 4 only every few samples
    pub const I2C_SLV4_DLY_EN: u8 = 0b00010000;

    /// Access slave 3 only every few samples
    pub const I2C_SLV3_DLY_EN: u8 = 0b00001000;

    /// Access slave 2 only every few samples
    pub const I2C_SLV2_DLY_EN: u8 = 0b00000100;

    /// Access slave 1 only every few samples
    pub const I2C_SLV1_DLY_EN: u8 = 0b00000010;

    /// Access slave 0 only every few samples
    pub const I2C_SLV0_DLY_EN: u8 = 0b00000001;

    /// Every defined flag.
    pub const ALL: u8 = 0b10011111;

    /// The register byte that holds exactly these flags.
    pub closed spec fn view(self) -> u8 {
        self.bits
    }

    /// Only defined flags are set.
    #[verifier::type_invariant]
    pub open spec fn wf(self) -> bool {
        within(self@, Self::ALL)
    }

    /// The defined flags of `bits`.
    pub closed spec fn truncated(bits: u8) -> Self {
        I2C_MST_DELAY_CTRL { bits: bits & Self::ALL }
    }

    /// Truncation keeps the defined bits, and every well-formed set is the
    /// truncation of its own byte.
    pub proof fn law_truncated(self, bits: u8)
        ensures
            Self::truncated(bits)@ == bits & Self::ALL,
            Self::truncated(bits).wf(),
            self.wf() ==> Self::truncated(self@) == self,
    {
        lemma_within(bits, 0, Self::ALL);
        lemma_within(self.bits, 0, Self::ALL);
    }

    /// Flag sets with the same byte are the same set.
    pub proof fn lemma_same(self, other: Self)
        requires
            self@ == other@,
        ensures
            self == other,
    {
    }

    /// No flag set.
    pub fn empty() -> (r: Self)
        ensures
            r@ == 0,
            r.wf(),
    {
        proof {
            lemma_within(0, 0, Self::ALL);
        }
        I2C_MST_DELAY_CTRL { bits: 0 }
    }

    /// The register byte.
    pub fn bits(&self) -> (b: u8)
        ensures
            b == self@,
            self.wf(),
    {
        proof {
            use_type_invariant(self);
        }
        self.bits
    }

    /// The flags of `bits`, or `None` where `bits` sets an undefined bit.
    pub fn from_bits(bits: u8) -> (r: Option<Self>)
        ensures
            r is Some <==> within(bits, Self::ALL),
            r matches Some(f) ==> f@ == bits && f.wf(),
    {
        if bits & !Self::ALL == 0 {
            Some(I2C_MST_DELAY_CTRL { bits })
        } else {
            None
        }
    }

    /// The defined flags of `bits`; undefined bits are dropped.
    pub fn from_bits_truncate(bits: u8) -> (r: Self)
        ensures
            r == Self::truncated(bits),
            r@ == bits & Self::ALL,
            r.wf(),
    {
        proof {
            lemma_within(bits, 0, Self::ALL);
        }
        I2C_MST_DELAY_CTRL { bits: bits & Self::ALL }
    }

    /// True when no flag is set.
    pub fn is_empty(&self) -> (r: bool)
        ensures
            r == (self@ == 0),
    {
        self.bits == 0
    }

    /// True when every bit of `flags` is set.
    pub fn contains(&self, flags: u8) -> (r: bool)
        ensures
            r == (self@ & flags == flags),
    {
        self.bits & flags == flags
    }

    /// The flags of either set.
    pub fn union(self, other: Self) -> (r: Self)
        ensures
            r@ == self@ | other@,
            r.wf(),
    {
        proof {
            use_type_invariant(&self);
            use_type_invariant(&other);
            lemma_within(self.bits, other.bits, Self::ALL);
        }
        I2C_MST_DELAY_CTRL { bits: self.bits | other.bits }
    }
}

impl Default for I2C_MST_DELAY_CTRL {
    fn default() -> (r: Self)
        ensures
            r@ == 0,
            r.wf(),
    {
        I2C_MST_DELAY_CTRL::empty()
    }
}

/// Resets of the digital signal paths.
#[derive(Clone, Copy, Debug, PartialEq, Eq, Structural)]
#[allow(non_camel_case_types)]
pub struct SIGNAL_PATH_RESET {
    bits: u8,
}

impl SIGNAL_PATH_RESET {
    /// Gyroscope
    pub const GYRO_RST: u8 = 0b00000100;

    /// Accelerometer
    pub const ACCEL_RST: u8 = 0b00000010;

    /// Temperature sensor
    pub const TEMP_RST: u8 = 0b00000001;

    /// Every defined flag.
    pub const ALL: u8 = 0b00000111;

    /// The register byte that holds exactly these flags.
    pub closed spec fn view(self) -> u8 {
        self.bits
    }

    /// Only defined flags are set.
    #[verifier::type_invariant]
    pub open spec fn wf(self) -> bool {
        within(self@, Self::ALL)
    }

    /// The defined flags of `bits`.
    pub closed spec fn truncated(bits: u8) -> Self {
        SIGNAL_PATH_RESET { bits: bits & Self::ALL }
    }

    /// Truncation keeps the defined bits, and every well-formed set is the
    /// truncation of its own byte.
    pub proof fn law_truncated(self, bits: u8)
        ensures
            Self::truncated(bits)@ == bits & Self::ALL,
            Self::truncated(bits).wf(),
            self.wf() ==> Self::truncated(self@) == self,
    {
        lemma_within(bits, 0, Self::ALL);
        lemma_within(self.bits, 0, Self::ALL);
    }

    /// Flag sets with the same byte are the same set.
    pub proof fn lemma_same(self, other: Self)
        requires
            self@ == other@,
        ensures
            self == other,
    {
    }

    /// No flag set.
    pub fn empty() -> (r: Self)
        ensures
            r@ == 0,
            r.wf(),
    {
        proof {
            lemma_within(0, 0, Self::ALL);
        }
        SIGNAL_PATH_RESET { bits: 0 }
    }

    /// The register byte.
    pub fn bits(&self) -> (b: u8)
        ensures
            b == self@,
            self.wf(),
    {
        proof {
            use_type_invariant(self);
        }
        self.bits
    }

    /// The flags of `bits`, or `None` where `bits` sets an undefined bit.
    pub fn from_bits(bits: u8) -> (r: Option<Self>)
        ensures
            r is Some <==> within(bits, Self::ALL),
            r matches Some(f) ==> f@ == bits && f.wf(),
    {
        if bits & !Self::ALL == 0 {
            Some(SIGNAL_PATH_RESET { bits })
        } else {
            None
        }
    }

    /// The defined flags of `bits`; undefined bits are dropped.
    pub fn from_bits_truncate(bits: u8) -> (r: Self)
        ensures
            r == Self::truncated(bits),
            r@ == bits & Self::ALL,
            r.wf(),
    {
        proof {
            lemma_within(bits, 0, Self::ALL);
        }
        SIGNAL_PATH_RESET { bits: bits & Self::ALL }
    }

    /// True when no flag is set.
    pub fn is_empty(&self) -> (r: bool)
        ensures
            r == (self@ == 0),
    {
        self.bits == 0
    }

    /// True when every bit of `flags` is set.
    pub fn contains(&self, flags: u8) -> (r: bool)
        ensures
            r == (self@ & flags == flags),
    {
        self.bits & flags == flags
    }

    /// The flags of either set.
    pub fn union(self, other: Self) -> (r: Self)
        ensures
            r@ == self@ | other@,
            r.wf(),
    {
        proof {
            use_type_invariant(&self);
            use_type_invariant(&other);
            lemma_within(self.bits, other.bits, Self::ALL);
        }
        SIGNAL_PATH_RESET { bits: self.bits | other.bits }
    }
}

impl Default for SIGNAL_PATH_RESET {
    fn default() -> (r: Self)
        ensures
            r@ == 0,
            r.wf(),
    {
        SIGNAL_PATH_RESET::empty()
    }
}

/// Wake on motion detection.
#[derive(Clone, Copy, Debug, PartialEq, Eq, Structural)]
#[allow(non_camel_case_types)]
pub struct ACCEL_INTEL_CTRL {
    bits: u8,
}

impl ACCEL_INTEL_CTRL {
    /// Enable the detection logic
    pub const ACCEL_INTEL_EN: u8 = 0b10000000;

    /// Compare each sample with the one before
    pub const ACCEL_INTEL_MODE: u8 = 0b01000000;

    /// Every defined flag.
    pub const ALL: u8 = 0b11000000;

    /// The register byte that holds exactly these flags.
    pub closed spec fn view(self) -> u8 {
        self.bits
    }

    /// Only defined flags are set.
    #[verifier::type_invariant]
    pub open spec fn wf(self) -> bool {
        within(self@, Self::ALL)
    }

    /// The defined flags of `bits`.
    pub closed spec fn truncated(bits: u8) -> Self {
        ACCEL_INTEL_CTRL { bits: bits & Self::ALL }
    }

    /// Truncation keeps the defined bits, and every well-formed set is the
    /// truncation of its own byte.
    pub proof fn law_truncated(self, bits: u8)
        ensures
            Self::truncated(bits)@ == bits & Self::ALL,
            Self::truncated(bits).wf(),
            self.wf() ==> Self::truncated(self@) == self,
    {
        lemma_within(bits, 0, Self::ALL);
        lemma_within(self.bits, 0, Self::ALL);
    }

    /// Flag sets with the same byte are the same set.
    pub proof fn lemma_same(self, other: Self)
        requires
            self@ == other@,
        ensures
            self == other,
    {
    }

    /// No flag set.
    pub fn empty() -> (r: Self)
        ensures
            r@ == 0,
            r.wf(),
    {
        proof {
            lemma_within(0, 0, Self::ALL);
        }
        ACCEL_INTEL_CTRL { bits: 0 }
    }

    /// The register byte.
    pub fn bits(&self) -> (b: u8)
        ensures
            b == self@,
            self.wf(),
    {
        proof {
            use_type_invariant(self);
        }
        self.bits
    }

    /// The flags of `bits`, or `None` where `bits` sets an undefined bit.
    pub fn from_bits(bits: u8) -> (r: Option<Self>)
        ensures
            r is Some <==> within(bits, Self::ALL),
            r matches Some(f) ==> f@ == bits && f.wf(),
    {
        if bits & !Self::ALL == 0 {
            Some(ACCEL_INTEL_CTRL { bits })
        } else {
            None
        }
    }

    /// The defined flags of `bits`; undefined bits are dropped.
    pub fn from_bits_truncate(bits: u8) -> (r: Self)
        ensures
            r == Self::truncated(bits),
            r@ == bits & Self::ALL,
            r.wf(),
    {
        proof {
            lemma_within(bits, 0, Self::ALL);
        }
        ACCEL_INTEL_CTRL { bits: bits & Self::ALL }
    }

    /// True when no flag is set.
    pub fn is_empty(&self) -> (r: bool)
        ensures
            r == (self@ == 0),
    {
        self.bits == 0
    }

    /// True when every bit of `flags` is set.
    pub fn contains(&self, flags: u8) -> (r: bool)
        ensures
            r == (self@ & flags == flags),
    {
        self.bits & flags == flags
    }

    /// The flags of either set.
    pub fn union(self, other: Self) -> (r: Self)
        ensures
            r@ == self@ | other@,
            r.wf(),
    {
        proof {
            use_type_invariant(&self);
            use_type_invariant(&other);
            lemma_within(self.bits, other.bits, Self::ALL);
        }
        ACCEL_INTEL_CTRL { bits: self.bits | other.bits }
    }
}

impl Default for ACCEL_INTEL_CTRL {
    fn default() -> (r: Self)
        ensures
            r@ == 0,
            r.wf(),
    {
        ACCEL_INTEL_CTRL::empty()
    }
}

/// Power management 2: flags that switch sensor axes off.
#[derive(Clone, Copy, Debug, PartialEq, Eq, Structural)]
#[allow(non_camel_case_types)]
pub struct PWR_MGMT_2 {
    bits: u8,
}

impl PWR_MGMT_2 {
    /// Accelerometer X off
    pub const DISABLE_XA: u8 = 0b00100000;

    /// Accelerometer Y off
    pub const DISABLE_YA: u8 = 0b00010000;

    /// Accelerometer Z off
    pub const DISABLE_ZA: u8 = 0b00001000;

    /// Gyroscope X off
    pub const DISABLE_XG: u8 = 0b00000100;

    /// Gyroscope Y off
    pub const DISABLE_YG: u8 = 0b00000010;

    /// Gyroscope Z off
    pub const DISABLE_ZG: u8 = 0b00000001;

    /// Every defined flag.
    pub const ALL: u8 = 0b00111111;

    /// The register byte that holds exactly these flags.
    pub closed spec fn view(self) -> u8 {
        self.bits
    }

    /// Only defined flags are set.
    #[verifier::type_invariant]
    pub open spec fn wf(self) -> bool {
        within(self@, Self::ALL)
    }

    /// The defined flags of `bits`.
    pub closed spec fn truncated(bits: u8) -> Self {
        PWR_MGMT_2 { bits: bits & Self::ALL }
    }

    /// Truncation keeps the defined bits, and every well-formed set is the
    /// truncation of its own byte.
    pub proof fn law_truncated(self, bits: u8)
        ensures
            Self::truncated(bits)@ == bits & Self::ALL,
            Self::truncated(bits).wf(),
            self.wf() ==> Self::truncated(self@) == self,
    {
        lemma_within(bits, 0, Self::ALL);
        lemma_within(self.bits, 0, Self::ALL);
    }

    /// Flag sets with the same byte are the same set.
    pub proof fn lemma_same(self, other: Self)
        requires
            self@ == other@,
        ensures
            self == other,
    {
    }

    /// No flag set.
    pub fn empty() -> (r: Self)
        ensures
            r@ == 0,
            r.wf(),
    {
        proof {
            lemma_within(0, 0, Self::ALL);
        }
        PWR_MGMT_2 { bits: 0 }
    }

    /// The register byte.
    pub fn bits(&self) -> (b: u8)
        ensures
            b == self@,
            self.wf(),
    {
        proof {
            use_type_invariant(self);
        }
        self.bits
    }

    /// The flags of `bits`, or `None` where `bits` sets an undefined bit.
    pub fn from_bits(bits: u8) -> (r: Option<Self>)
        ensures
            r is Some <==> within(bits, Self::ALL),
            r matches Some(f) ==> f@ == bits && f.wf(),
    {
        if bits & !Self::ALL == 0 {
            Some(PWR_MGMT_2 { bits })
        } else {
            None
        }
    }

    /// The defined flags of `bits`; undefined bits are dropped.
    pub fn from_bits_truncate(bits: u8) -> (r: Self)
        ensures
            r == Self::truncated(bits),
            r@ == bits & Self::ALL,
            r.wf(),
    {
        proof {
            lemma_within(bits, 0, Self::ALL);
        }
        PWR_MGMT_2 { bits: bits & Self::ALL }
    }

    /// True when no flag is set.
    pub fn is_empty(&self) -> (r: bool)
        ensures
            r == (self@ == 0),
    {
        self.bits == 0
    }

    /// True when every bit of `flags` is set.
    pub fn contains(&self, flags: u8) -> (r: bool)
        ensures
            r == (self@ & flags == flags),
    {
        self.bits & flags == flags
    }

    /// The flags of either set.
    pub fn union(self, other: Self) -> (r: Self)
        ensures
            r@ == self@ | other@,
            r.wf(),
    {
        proof {
            use_type_invariant(&self);
            use_type_invariant(&other);
            lemma_within(self.bits, other.bits, Self::ALL);
        }
        PWR_MGMT_2 { bits: self.bits | other.bits }
    }
}

impl Default for PWR_MGMT_2 {
    fn default() -> (r: Self)
        ensures
            r@ == 0,
            r.wf(),
    {
        PWR_MGMT_2::empty()
    }
}

/// The data bit that samples the FSYNC pin, bits 5..3 of `CONFIG`.
#[allow(non_camel_case_types)]
#[derive(Debug, Clone, Copy, PartialEq, Eq, Structural)]
pub enum EXT_SYNC_SET {
    DISABLED,
    TEMP_OUT_L,
    GYRO_XOUT_L,
    GYRO_YOUT_L,
    GYRO_ZOUT_L,
    ACCEL_XOUT_L,
    ACCEL_YOUT_L,
    ACCEL_ZOUT_L,
}

impl EXT_SYNC_SET {
    /// The code that stands for this choice in its register field.
    pub open spec fn spec_code(self) -> u8 {
        match self {
            EXT_SYNC_SET::DISABLED => 0,
            EXT_SYNC_SET::TEMP_OUT_L => 1,
            EXT_SYNC_SET::GYRO_XOUT_L => 2,
            EXT_SYNC_SET::GYRO_YOUT_L => 3,
            EXT_SYNC_SET::GYRO_ZOUT_L => 4,
            EXT_SYNC_SET::ACCEL_XOUT_L => 5,
            EXT_SYNC_SET::ACCEL_YOUT_L => 6,
            EXT_SYNC_SET::ACCEL_ZOUT_L => 7,
        }
    }

    /// The code that stands for this choice in its register field.
    #[verifier::when_used_as_spec(spec_code)]
    pub fn code(self) -> (c: u8)
        ensures
            c == self.spec_code(),
            c <= 7,
    {
        match self {
            EXT_SYNC_SET::DISABLED => 0,
            EXT_SYNC_SET::TEMP_OUT_L => 1,
            EXT_SYNC_SET::GYRO_XOUT_L => 2,
            EXT_SYNC_SET::GYRO_YOUT_L => 3,
            EXT_SYNC_SET::GYRO_ZOUT_L => 4,
            EXT_SYNC_SET::ACCEL_XOUT_L => 5,
            EXT_SYNC_SET::ACCEL_YOUT_L => 6,
            EXT_SYNC_SET::ACCEL_ZOUT_L => 7,
        }
    }

    /// The choice that the low bits of `byte` select.
    pub open spec fn spec_from_bits(byte: u8) -> EXT_SYNC_SET {
        if byte & 7 == 0 {
            EXT_SYNC_SET::DISABLED
        } else if byte & 7 == 1 {
            EXT_SYNC_SET::TEMP_OUT_L
        } else if byte & 7 == 2 {
            EXT_SYNC_SET::GYRO_XOUT_L
        } else if byte & 7 == 3 {
            EXT_SYNC_SET::GYRO_YOUT_L
        } else if byte & 7 == 4 {
            EXT_SYNC_SET::GYRO_ZOUT_L
        } else if byte & 7 == 5 {
            EXT_SYNC_SET::ACCEL_XOUT_L
        } else if byte & 7 == 6 {
            EXT_SYNC_SET::ACCEL_YOUT_L
        } else {
            EXT_SYNC_SET::ACCEL_ZOUT_L
        }
    }

    /// A code selects the choice that it stands for.
    pub proof fn law_from_code(self)
        ensures
            Self::spec_from_bits(self.code()) == self,
    {
        lemma_code(self.code());
        lemma_within(self.code(), 0, 7);
    }

    /// The choice that a byte selects stands for the byte's low bits.
    pub proof fn law_code_from_bits(byte: u8)
        ensures
            Self::spec_from_bits(byte).code() == byte & 7,
    {
        lemma_code(byte);
    }
}

impl Default for EXT_SYNC_SET {
    fn default() -> (r: Self)
        ensures
            r == EXT_SYNC_SET::DISABLED,
    {
        EXT_SYNC_SET::DISABLED
    }
}

impl From<u8> for EXT_SYNC_SET {
    fn from(byte: u8) -> (r: EXT_SYNC_SET) {
        let low: u8 = byte & 7;
        if low == 0 {
            EXT_SYNC_SET::DISABLED
        } else if low == 1 {
            EXT_SYNC_SET::TEMP_OUT_L
        } else if low == 2 {
            EXT_SYNC_SET::GYRO_XOUT_L
        } else if low == 3 {
            EXT_SYNC_SET::GYRO_YOUT_L
        } else if low == 4 {
            EXT_SYNC_SET::GYRO_ZOUT_L
        } else if low == 5 {
            EXT_SYNC_SET::ACCEL_XOUT_L
        } else if low == 6 {
            EXT_SYNC_SET::ACCEL_YOUT_L
        } else {
            EXT_SYNC_SET::ACCEL_ZOUT_L
        }
    }
}

impl FromSpecImpl<u8> for EXT_SYNC_SET {
    open spec fn obeys_from_spec() -> bool {
        true
    }

    open spec fn from_spec(byte: u8) -> EXT_SYNC_SET {
        EXT_SYNC_SET::spec_from_bits(byte)
    }
}

/// Band of the digital low-pass filter of gyroscope, accelerometer and
/// temperature sensor, bits 2..0 of `CONFIG`.
#[allow(non_camel_case_types)]
#[derive(Debug, Clone, Copy, PartialEq, Eq, Structural)]
pub enum DLPF {
    /// Gyroscope: bandwidth 250 Hz, delay 0.97 ms, Fs 8 kHz
    _0,
    /// Gyroscope: bandwidth 184 Hz, delay 2.9 ms, Fs 1 kHz
    _1,
    /// Gyroscope: bandwidth 92 Hz, delay 3.9 ms, Fs 1 kHz
    _2,
    /// Gyroscope: bandwidth 41 Hz, delay 5.9 ms, Fs 1 kHz
    _3,
    /// Gyroscope: bandwidth 20 Hz, delay 9.9 ms, Fs 1 kHz
    _4,
    /// Gyroscope: bandwidth 10 Hz, delay 17.85 ms, Fs 1 kHz
    _5,
    /// Gyroscope: bandwidth 5 Hz, delay 33.48 ms, Fs 1 kHz
    _6,
    /// Gyroscope: bandwidth 3600 Hz, delay 0.17 ms, Fs 8 kHz
    _7,
}

impl DLPF {
    /// The code that stands for this choice in its register field.
    pub open spec fn spec_code(self) -> u8 {
        match self {
            DLPF::_0 => 0,
            DLPF::_1 => 1,
            DLPF::_2 => 2,
            DLPF::_3 => 3,
            DLPF::_4 => 4,
            DLPF::_5 => 5,
            DLPF::_6 => 6,
            DLPF::_7 => 7,
        }
    }

    /// The code that stands for this choice in its register field.
    #[verifier::when_used_as_spec(spec_code)]
    pub fn code(self) -> (c: u8)
        ensures
            c == self.spec_code(),
            c <= 7,
    {
        match self {
            DLPF::_0 => 0,
            DLPF::_1 => 1,
            DLPF::_2 => 2,
            DLPF::_3 => 3,
            DLPF::_4 => 4,
            DLPF::_5 => 5,
            DLPF::_6 => 6,
            DLPF::_7 => 7,
        }
    }

    /// The choice that the low bits of `byte` select.
    pub open spec fn spec_from_bits(byte: u8) -> DLPF {
        if byte & 7 == 0 {
            DLPF::_0
        } else if byte & 7 == 1 {
            DLPF::_1
        } else if byte & 7 == 2 {
            DLPF::_2
        } else if byte & 7 == 3 {
            DLPF::_3
        } else if byte & 7 == 4 {
            DLPF::_4
        } else if byte & 7 == 5 {
            DLPF::_5
        } else if byte & 7 == 6 {
            DLPF::_6
        } else {
            DLPF::_7
        }
    }

    /// A code selects the choice that it stands for.
    pub proof fn law_from_code(self)
        ensures
            Self::spec_from_bits(self.code()) == self,
    {
        lemma_code(self.code());
        lemma_within(self.code(), 0, 7);
    }

    /// The choice that a byte selects stands for the byte's low bits.
    pub proof fn law_code_from_bits(byte: u8)
        ensures
            Self::spec_from_bits(byte).code() == byte & 7,
    {
        lemma_code(byte);
    }
}

impl Default for DLPF {
    fn default() -> (r: Self)
        ensures
            r == DLPF::_0,
    {
        DLPF::_0
    }
}

impl From<u8> for DLPF {
    fn from(byte: u8) -> (r: DLPF) {
        let low: u8 = byte & 7;
        if low == 0 {
            DLPF::_0
        } else if low == 1 {
            DLPF::_1
        } else if low == 2 {
            DLPF::_2
        } else if low == 3 {
            DLPF::_3
        } else if low == 4 {
            DLPF::_4
        } else if low == 5 {
            DLPF::_5
        } else if low == 6 {
            DLPF::_6
        } else {
            DLPF::_7
        }
    }
}

impl FromSpecImpl<u8> for DLPF {
    open spec fn obeys_from_spec() -> bool {
        true
    }

    open spec fn from_spec(byte: u8) -> DLPF {
        DLPF::spec_from_bits(byte)
    }
}

/// Gyroscope full scale, bits 4..3 of `GYRO_CONFIG`.
#[allow(non_camel_case_types)]
#[derive(Debug, Clone, Copy, PartialEq, Eq, Structural)]
pub enum GYRO_FS_SEL {
    /// ±250 degrees per second
    DPS250,
    /// ±500 degrees per second
    DPS500,
    /// ±1000 degrees per second
    DPS1000,
    /// ±2000 degrees per second
    DPS2000,
}

impl GYRO_FS_SEL {
    /// The code that stands for this choice in its register field.
    pub open spec fn spec_code(self) -> u8 {
        match self {
            GYRO_FS_SEL::DPS250 => 0,
            GYRO_FS_SEL::DPS500 => 1,
            GYRO_FS_SEL::DPS1000 => 2,
            GYRO_FS_SEL::DPS2000 => 3,
        }
    }

    /// The code that stands for this choice in its register field.
    #[verifier::when_used_as_spec(spec_code)]
    pub fn code(self) -> (c: u8)
        ensures
            c == self.spec_code(),
            c <= 3,
    {
        match self {
            GYRO_FS_SEL::DPS250 => 0,
            GYRO_FS_SEL::DPS500 => 1,
            GYRO_FS_SEL::DPS1000 => 2,
            GYRO_FS_SEL::DPS2000 => 3,
        }
    }

    /// The choice that the low bits of `byte` select.
    pub open spec fn spec_from_bits(byte: u8) -> GYRO_FS_SEL {
        if byte & 3 == 0 {
            GYRO_FS_SEL::DPS250
        } else if byte & 3 == 1 {
            GYRO_FS_SEL::DPS500
        } else if byte & 3 == 2 {
            GYRO_FS_SEL::DPS1000
        } else {
            GYRO_FS_SEL::DPS2000
        }
    }

    /// A code selects the choice that it stands for.
    pub proof fn law_from_code(self)
        ensures
            Self::spec_from_bits(self.code()) == self,
    {
        lemma_code(self.code());
        lemma_within(self.code(), 0, 3);
    }

    /// The choice that a byte selects stands for the byte's low bits.
    pub proof fn law_code_from_bits(byte: u8)
        ensures
            Self::spec_from_bits(byte).code() == byte & 3,
    {
        lemma_code(byte);
    }
}

impl Default for GYRO_FS_SEL {
    fn default() -> (r: Self)
        ensures
            r == GYRO_FS_SEL::DPS250,
    {
        GYRO_FS_SEL::DPS250
    }
}

impl From<u8> for GYRO_FS_SEL {
    fn from(byte: u8) -> (r: GYRO_FS_SEL) {
        let low: u8 = byte & 3;
        if low == 0 {
            GYRO_FS_SEL::DPS250
        } else if low == 1 {
            GYRO_FS_SEL::DPS500
        } else if low == 2 {
            GYRO_FS_SEL::DPS1000
        } else {
            GYRO_FS_SEL::DPS2000
        }
    }
}

impl FromSpecImpl<u8> for GYRO_FS_SEL {
    open spec fn obeys_from_spec() -> bool {
        true
    }

    open spec fn from_spec(byte: u8) -> GYRO_FS_SEL {
        GYRO_FS_SEL::spec_from_bits(byte)
    }
}

/// Gyroscope filter bypass, bits 1..0 of `GYRO_CONFIG`.
#[allow(non_camel_case_types)]
#[derive(Debug, Clone, Copy, PartialEq, Eq, Structural)]
pub enum FCHOICE {
    /// Filter bypassed. Gyro bandwidth 8800 Hz, delay 0.064 ms, Fs 32 kHz
    _X0,
    /// Filter bypassed. Gyro bandwidth 3600 Hz, delay 0.11 ms, Fs 32 kHz
    _01,
    /// The band is the one that `DLPF` selects
    DLPF,
}

impl FCHOICE {
    /// The code that stands for this choice in its register field.
    pub open spec fn spec_code(self) -> u8 {
        match self {
            FCHOICE::_X0 => 1,
            FCHOICE::_01 => 2,
            FCHOICE::DLPF => 0,
        }
    }

    /// The code that stands for this choice in its register field.
    #[verifier::when_used_as_spec(spec_code)]
    pub fn code(self) -> (c: u8)
        ensures
            c == self.spec_code(),
            c <= 3,
    {
        match self {
            FCHOICE::_X0 => 1,
            FCHOICE::_01 => 2,
            FCHOICE::DLPF => 0,
        }
    }

    /// The choice that the low bits of `byte` select.
    pub open spec fn spec_from_bits(byte: u8) -> FCHOICE {
        if byte & 3 == 0 {
            FCHOICE::DLPF
        } else if byte & 3 == 2 {
            FCHOICE::_01
        } else {
            FCHOICE::_X0
        }
    }

    /// A code selects the choice that it stands for.
    pub proof fn law_from_code(self)
        ensures
            Self::spec_from_bits(self.code()) == self,
    {
        lemma_code(self.code());
        lemma_within(self.code(), 0, 3);
    }

    /// The choice that a byte selects stands for the byte's low bits,
    /// unless both of them are set.
    pub proof fn law_code_from_bits(byte: u8)
        requires
            byte & 3 != 3,
        ensures
            Self::spec_from_bits(byte).code() == byte & 3,
    {
        lemma_code(byte);
    }
}

impl Default for FCHOICE {
    fn default() -> (r: Self)
        ensures
            r == FCHOICE::DLPF,
    {
        FCHOICE::DLPF
    }
}

impl From<u8> for FCHOICE {
    fn from(byte: u8) -> (r: FCHOICE) {
        let low: u8 = byte & 3;
        if low == 0 {
            FCHOICE::DLPF
        } else if low == 2 {
            FCHOICE::_01
        } else {
            FCHOICE::_X0
        }
    }
}

impl FromSpecImpl<u8> for FCHOICE {
    open spec fn obeys_from_spec() -> bool {
        true
    }

    open spec fn from_spec(byte: u8) -> FCHOICE {
        FCHOICE::spec_from_bits(byte)
    }
}

/// Accelerometer full scale, bits 4..3 of `ACCEL_CONFIG`.
#[allow(non_camel_case_types)]
#[derive(Debug, Clone, Copy, PartialEq, Eq, Structural)]
pub enum ACCEL_FS_SEL {
    /// ±2 g
    G2,
    /// ±4 g
    G4,
    /// ±8 g
    G8,
    /// ±16 g
    G16,
}

impl ACCEL_FS_SEL {
    /// The code that stands for this choice in its register field.
    pub open spec fn spec_code(self) -> u8 {
        match self {
            ACCEL_FS_SEL::G2 => 0,
            ACCEL_FS_SEL::G4 => 1,
            ACCEL_FS_SEL::G8 => 2,
            ACCEL_FS_SEL::G16 => 3,
        }
    }

    /// The code that stands for this choice in its register field.
    #[verifier::when_used_as_spec(spec_code)]
    pub fn code(self) -> (c: u8)
        ensures
            c == self.spec_code(),
            c <= 3,
    {
        match self {
            ACCEL_FS_SEL::G2 => 0,
            ACCEL_FS_SEL::G4 => 1,
            ACCEL_FS_SEL::G8 => 2,
            ACCEL_FS_SEL::G16 => 3,
        }
    }

    /// The choice that the low bits of `byte` select.
    pub open spec fn spec_from_bits(byte: u8) -> ACCEL_FS_SEL {
        if byte & 3 == 0 {
            ACCEL_FS_SEL::G2
        } else if byte & 3 == 1 {
            ACCEL_FS_SEL::G4
        } else if byte & 3 == 2 {
            ACCEL_FS_SEL::G8
        } else {
            ACCEL_FS_SEL::G16
        }
    }

    /// A code selects the choice that it stands for.
    pub proof fn law_from_code(self)
        ensures
            Self::spec_from_bits(self.code()) == self,
    {
        lemma_code(self.code());
        lemma_within(self.code(), 0, 3);
    }

    /// The choice that a byte selects stands for the byte's low bits.
    pub proof fn law_code_from_bits(byte: u8)
        ensures
            Self::spec_from_bits(byte).code() == byte & 3,
    {
        lemma_code(byte);
    }
}

impl Default for ACCEL_FS_SEL {
    fn default() -> (r: Self)
        ensures
            r == ACCEL_FS_SEL::G2,
    {
        ACCEL_FS_SEL::G2
    }
}

impl From<u8> for ACCEL_FS_SEL {
    fn from(byte: u8) -> (r: ACCEL_FS_SEL) {
        let low: u8 = byte & 3;
        if low == 0 {
            ACCEL_FS_SEL::G2
        } else if low == 1 {
            ACCEL_FS_SEL::G4
        } else if low == 2 {
            ACCEL_FS_SEL::G8
        } else {
            ACCEL_FS_SEL::G16
        }
    }
}

impl FromSpecImpl<u8> for ACCEL_FS_SEL {
    open spec fn obeys_from_spec() -> bool {
        true
    }

    open spec fn from_spec(byte: u8) -> ACCEL_FS_SEL {
        ACCEL_FS_SEL::spec_from_bits(byte)
    }
}

/// Configuration: FIFO policy, FSYNC sampling and low-pass filter band.
#[allow(non_camel_case_types)]
#[derive(Debug, Clone, Copy, PartialEq, Eq, Structural)]
pub struct CONFIG {
    pub fifo_mode: FIFO_MODE_FLAG,
    pub ext_sync: EXT_SYNC_SET,
    pub dlpf: DLPF,
}

/// How the three fields of `CONFIG` share the byte.
proof fn lemma_config_bits(fm: u8, es: u8, d: u8, b: u8)
    by (bit_vector)
    ensures
        within(fm, 0x40) && es <= 7 && d <= 7 ==> (fm | (es << 3) | d) & 0x40 == fm,
        within(fm, 0x40) && es <= 7 && d <= 7 ==> ((fm | (es << 3) | d) >> 3) & 7 == es,
        within(fm, 0x40) && es <= 7 && d <= 7 ==> (fm | (es << 3) | d) & 7 == d,
        (b & 0x40) | (((b >> 3) & 7) << 3) | (b & 7) == b & 0x7F,
{
}

impl CONFIG {
    /// The bits of the register that carry meaning.
    pub const MASK: u8 = 0b0111_1111;

    /// The FIFO flag holds only its defined bit.
    pub open spec fn wf(self) -> bool {
        self.fifo_mode.wf()
    }

    /// The register byte for this value.
    pub open spec fn spec_encode(self) -> u8 {
        self.fifo_mode@ | (self.ext_sync.code() << 3) | self.dlpf.code()
    }

    /// The value that `byte` holds.
    pub open spec fn spec_decode(byte: u8) -> CONFIG {
        CONFIG {
            fifo_mode: FIFO_MODE_FLAG::truncated(byte),
            ext_sync: EXT_SYNC_SET::spec_from_bits(byte >> 3),
            dlpf: DLPF::spec_from_bits(byte),
        }
    }

    /// The register byte for this value.
    #[verifier::when_used_as_spec(spec_encode)]
    pub fn encode(self) -> (b: u8)
        ensures
            b == self.spec_encode(),
    {
        self.fifo_mode.bits() | (self.ext_sync.code() << 3) | self.dlpf.code()
    }

    /// The value that `byte` holds.
    #[verifier::when_used_as_spec(spec_decode)]
    pub fn decode(byte: u8) -> (r: CONFIG)
        ensures
            r == Self::spec_decode(byte),
            r.wf(),
    {
        CONFIG {
            fifo_mode: FIFO_MODE_FLAG::from_bits_truncate(byte),
            ext_sync: EXT_SYNC_SET::from(byte >> 3),
            dlpf: DLPF::from(byte),
        }
    }

    /// Decoding an encoded value gives the value back.
    pub proof fn law_decode_encode(self)
        requires
            self.wf(),
        ensures
            Self::decode(self.encode()) == self,
    {
        lemma_config_bits(self.fifo_mode@, self.ext_sync.code(), self.dlpf.code(), 0);
    }

    /// Encoding a decoded byte gives the byte's meaningful bits back.
    pub proof fn law_encode_decode(byte: u8)
        ensures
            Self::decode(byte).encode() == byte & Self::MASK,
    {
        lemma_config_bits(0, 0, 0, byte);
        lemma_code(byte >> 3);
        lemma_code(byte);
    }
}

impl Default for CONFIG {
    fn default() -> (r: Self)
        ensures
            r.fifo_mode@ == 0,
            r.ext_sync == EXT_SYNC_SET::DISABLED,
            r.dlpf == DLPF::_0,
            r.wf(),
    {
        CONFIG {
            fifo_mode: FIFO_MODE_FLAG::empty(),
            ext_sync: EXT_SYNC_SET::DISABLED,
            dlpf: DLPF::_0,
        }
    }
}

impl From<CONFIG> for u8 {
    fn from(config: CONFIG) -> (b: u8) {
        config.encode()
    }
}

impl FromSpecImpl<CONFIG> for u8 {
    open spec fn obeys_from_spec() -> bool {
        true
    }

    open spec fn from_spec(config: CONFIG) -> u8 {
        config.encode()
    }
}

impl From<u8> for CONFIG {
    fn from(byte: u8) -> (r: CONFIG) {
        CONFIG::decode(byte)
    }
}

impl FromSpecImpl<u8> for CONFIG {
    open spec fn obeys_from_spec() -> bool {
        true
    }

    open spec fn from_spec(byte: u8) -> CONFIG {
        CONFIG::decode(byte)
    }
}

/// Gyroscope configuration: self test, full scale and filter bypass.
#[allow(non_camel_case_types)]
#[derive(Debug, Clone, Copy, PartialEq, Eq, Structural)]
pub struct GYRO_CONFIG {
    pub self_test: GYRO_SELF_TEST,
    pub full_scale: GYRO_FS_SEL,
    pub fchoice: FCHOICE,
}

/// How the three fields of `GYRO_CONFIG` share the byte.
proof fn lemma_gyro_config_bits(st: u8, fs: u8, fc: u8, b: u8)
    by (bit_vector)
    ensures
        within(st, 0xE0) && fs <= 3 && fc <= 3 ==> (st | (fs << 3) | fc) & 0xE0 == st,
        within(st, 0xE0) && fs <= 3 && fc <= 3 ==> ((st | (fs << 3) | fc) >> 3) & 3 == fs,
        within(st, 0xE0) && fs <= 3 && fc <= 3 ==> (st | (fs << 3) | fc) & 3 == fc,
        (b & 0xE0) | (((b >> 3) & 3) << 3) | (b & 3) == b & 0xFB,
{
}

impl GYRO_CONFIG {
    /// The bits of the register that carry meaning.
    pub const MASK: u8 = 0b1111_1011;

    /// The self-test flags hold only defined bits.
    pub open spec fn wf(self) -> bool {
        self.self_test.wf()
    }

    /// The register byte for this value.
    pub open spec fn spec_encode(self) -> u8 {
        self.self_test@ | (self.full_scale.code() << 3) | self.fchoice.code()
    }

    /// The value that `byte` holds. Both filter-bypass bits set selects the
    /// same band as bit 0 alone.
    pub open spec fn spec_decode(byte: u8) -> GYRO_CONFIG {
        GYRO_CONFIG {
            self_test: GYRO_SELF_TEST::truncated(byte),
            full_scale: GYRO_FS_SEL::spec_from_bits(byte >> 3),
            fchoice: FCHOICE::spec_from_bits(byte),
        }
    }

    /// No self test, with the given full scale and filter bypass.
    pub fn new(full_scale: GYRO_FS_SEL, fchoice: FCHOICE) -> (r: Self)
        ensures
            r.self_test@ == 0,
            r.full_scale == full_scale,
            r.fchoice == fchoice,
            r.wf(),
    {
        GYRO_CONFIG { self_test: GYRO_SELF_TEST::empty(), full_scale, fchoice }
    }

    /// The register byte for this value.
    #[verifier::when_used_as_spec(spec_encode)]
    pub fn encode(self) -> (b: u8)
        ensures
            b == self.spec_encode(),
    {
        self.self_test.bits() | (self.full_scale.code() << 3) | self.fchoice.code()
    }

    /// The value that `byte` holds.
    #[verifier::when_used_as_spec(spec_decode)]
    pub fn decode(byte: u8) -> (r: GYRO_CONFIG)
        ensures
            r == Self::spec_decode(byte),
            r.wf(),
    {
        GYRO_CONFIG {
            self_test: GYRO_SELF_TEST::from_bits_truncate(byte),
            full_scale: GYRO_FS_SEL::from(byte >> 3),
            fchoice: FCHOICE::from(byte),
        }
    }

    /// Decoding an encoded value gives the value back.
    pub proof fn law_decode_encode(self)
        requires
            self.wf(),
        ensures
            Self::decode(self.encode()) == self,
    {
        lemma_gyro_config_bits(self.self_test@, self.full_scale.code(), self.fchoice.code(), 0);
    }

    /// Encoding a decoded byte gives the byte's meaningful bits back, for
    /// every byte whose filter-bypass bits name a choice.
    pub proof fn law_encode_decode(byte: u8)
        requires
            byte & 3 != 3,
        ensures
            Self::decode(byte).encode() == byte & Self::MASK,
    {
        lemma_gyro_config_bits(0, 0, 0, byte);
        lemma_code(byte >> 3);
        lemma_code(byte);
    }
}

impl Default for GYRO_CONFIG {
    fn default() -> (r: Self)
        ensures
            r.self_test@ == 0,
            r.full_scale == GYRO_FS_SEL::DPS250,
            r.fchoice == FCHOICE::DLPF,
            r.wf(),
    {
        GYRO_CONFIG::new(GYRO_FS_SEL::DPS250, FCHOICE::DLPF)
    }
}

impl From<GYRO_CONFIG> for u8 {
    fn from(config: GYRO_CONFIG) -> (b: u8) {
        config.encode()
    }
}

impl FromSpecImpl<GYRO_CONFIG> for u8 {
    open spec fn obeys_from_spec() -> bool {
        true
    }

    open spec fn from_spec(config: GYRO_CONFIG) -> u8 {
        config.encode()
    }
}

impl From<u8> for GYRO_CONFIG {
    fn from(byte: u8) -> (r: GYRO_CONFIG) {
        GYRO_CONFIG::decode(byte)
    }
}

impl FromSpecImpl<u8> for GYRO_CONFIG {
    open spec fn obeys_from_spec() -> bool {
        true
    }

    open spec fn from_spec(byte: u8) -> GYRO_CONFIG {
        GYRO_CONFIG::decode(byte)
    }
}

/// Accelerometer configuration: self test and full scale.
#[allow(non_camel_case_types)]
#[derive(Debug, Clone, Copy, PartialEq, Eq, Structural)]
pub struct ACCEL_CONFIG {
    pub self_test: ACCEL_SELF_TEST,
    pub full_scale: ACCEL_FS_SEL,
}

/// How the two fields of `ACCEL_CONFIG` share the byte.
proof fn lemma_accel_config_bits(st: u8, fs: u8, b: u8)
    by (bit_vector)
    ensures
        within(st, 0xE0) && fs <= 3 ==> (st | (fs << 3)) & 0xE0 == st,
        within(st, 0xE0) && fs <= 3 ==> ((st | (fs << 3)) >> 3) & 3 == fs,
        (b & 0xE0) | (((b >> 3) & 3) << 3) == b & 0xF8,
{
}

impl ACCEL_CONFIG {
    /// The bits of the register that carry meaning.
    pub const MASK: u8 = 0b1111_1000;

    /// The self-test flags hold only defined bits.
    pub open spec fn wf(self) -> bool {
        self.self_test.wf()
    }

    /// The register byte for this value.
    pub open spec fn spec_encode(self) -> u8 {
        self.self_test@ | (self.full_scale.code() << 3)
    }

    /// The value that `byte` holds.
    pub open spec fn spec_decode(byte: u8) -> ACCEL_CONFIG {
        ACCEL_CONFIG {
            self_test: ACCEL_SELF_TEST::truncated(byte),
            full_scale: ACCEL_FS_SEL::spec_from_bits(byte >> 3),
        }
    }

    /// No self test, with the given full scale.
    pub fn new(full_scale: ACCEL_FS_SEL) -> (r: Self)
        ensures
            r.self_test@ == 0,
            r.full_scale == full_scale,
            r.wf(),
    {
        ACCEL_CONFIG { self_test: ACCEL_SELF_TEST::empty(), full_scale }
    }

    /// The register byte for this value.
    #[verifier::when_used_as_spec(spec_encode)]
    pub fn encode(self) -> (b: u8)
        ensures
            b == self.spec_encode(),
    {
        self.self_test.bits() | (self.full_scale.code() << 3)
    }

    /// The value that `byte` holds.
    #[verifier::when_used_as_spec(spec_decode)]
    pub fn decode(byte: u8) -> (r: ACCEL_CONFIG)
        ensures
            r == Self::spec_decode(byte),
            r.wf(),
    {
        ACCEL_CONFIG {
            self_test: ACCEL_SELF_TEST::from_bits_truncate(byte),
            full_scale: ACCEL_FS_SEL::from(byte >> 3),
        }
    }

    /// Decoding an encoded value gives the value back.
    pub proof fn law_decode_encode(self)
        requires
            self.wf(),
        ensures
            Self::decode(self.encode()) == self,
    {
        lemma_accel_config_bits(self.self_test@, self.full_scale.code(), 0);
    }

    /// Encoding a decoded byte gives the byte's meaningful bits back.
    pub proof fn law_encode_decode(byte: u8)
        ensures
            Self::decode(byte).encode() == byte & Self::MASK,
    {
        lemma_accel_config_bits(0, 0, byte);
        lemma_code(byte >> 3);
    }
}

impl Default for ACCEL_CONFIG {
    fn default() -> (r: Self)
        ensures
            r.self_test@ == 0,
            r.full_scale == ACCEL_FS_SEL::G2,
            r.wf(),
    {
        ACCEL_CONFIG::new(ACCEL_FS_SEL::G2)
    }
}

impl From<ACCEL_CONFIG> for u8 {
    fn from(config: ACCEL_CONFIG) -> (b: u8) {
        config.encode()
    }
}

impl FromSpecImpl<ACCEL_CONFIG> for u8 {
    open spec fn obeys_from_spec() -> bool {
        true
    }

    open spec fn from_spec(config: ACCEL_CONFIG) -> u8 {
        config.encode()
    }
}

impl From<u8> for ACCEL_CONFIG {
    fn from(byte: u8) -> (r: ACCEL_CONFIG) {
        ACCEL_CONFIG::decode(byte)
    }
}

impl FromSpecImpl<u8> for ACCEL_CONFIG {
    open spec fn obeys_from_spec() -> bool {
        true
    }

    open spec fn from_spec(byte: u8) -> ACCEL_CONFIG {
        ACCEL_CONFIG::decode(byte)
    }
}

/// Clock of the internal I2C master, bits 3..0 of `I2C_MST_CTRL`.
#[allow(non_camel_case_types)]
#[non_exhaustive]
#[derive(Debug, Clone, Copy, PartialEq, Eq, Structural)]
pub enum I2C_MST_CLK {
    /// 400 kHz
    KHz400,
}

impl I2C_MST_CLK {
    /// The code that stands for this clock.
    pub open spec fn spec_code(self) -> u8 {
        13
    }

    /// The code that stands for this clock.
    #[verifier::when_used_as_spec(spec_code)]
    pub fn code(self) -> (c: u8)
        ensures
            c == self.spec_code(),
            c <= 15,
    {
        13
    }

    /// The clock that `code` names, if any.
    pub open spec fn spec_from_code(code: u8) -> Option<I2C_MST_CLK> {
        if code == 13 {
            Some(I2C_MST_CLK::KHz400)
        } else {
            None
        }
    }

    /// The clock that `code` names; other codes are rejected.
    #[verifier::when_used_as_spec(spec_from_code)]
    pub fn from_code(code: u8) -> (r: Option<I2C_MST_CLK>)
        ensures
            r == Self::spec_from_code(code),
            r matches Some(clk) ==> clk.code() == code,
    {
        if code == 13 {
            Some(I2C_MST_CLK::KHz400)
        } else {
            None
        }
    }

    /// A code names the choice that it stands for, and a code that names a
    /// choice is that choice's code.
    pub proof fn law_from_code(self, code: u8)
        ensures
            Self::from_code(self.code()) == Some(self),
            Self::from_code(code) == Some(self) ==> self.code() == code,
    {
    }
}

/// Control of the internal I2C master: flags and clock.
#[allow(non_camel_case_types)]
#[derive(Debug, Clone, Copy, PartialEq, Eq, Structural)]
pub struct I2C_MST_CTRL {
    pub flags: I2C_MST_FLAGS,
    pub clk: I2C_MST_CLK,
}

impl I2C_MST_CTRL {
    /// The bits of the register that carry meaning.
    pub const MASK: u8 = 0b1111_1111;

    /// The flags hold only defined bits.
    pub open spec fn wf(self) -> bool {
        self.flags.wf()
    }

    /// The register byte for this value.
    pub open spec fn spec_encode(self) -> u8 {
        self.flags@ | self.clk.code()
    }

    /// The value that `byte` holds, if its clock code names a clock.
    pub open spec fn spec_decode(byte: u8) -> Option<I2C_MST_CTRL> {
        match I2C_MST_CLK::from_code(byte & 0x0F) {
            Some(clk) => Some(I2C_MST_CTRL { flags: I2C_MST_FLAGS::truncated(byte), clk }),
            None => None,
        }
    }

    /// The given clock, with no flag set.
    pub fn clock(clk: I2C_MST_CLK) -> (r: Self)
        ensures
            r.clk == clk,
            r.flags@ == 0,
            r.wf(),
            r.encode() == clk.code(),
    {
        proof {
            lemma_code(clk.code());
        }
        I2C_MST_CTRL { clk, flags: I2C_MST_FLAGS::empty() }
    }

    /// The register byte for this value.
    #[verifier::when_used_as_spec(spec_encode)]
    pub fn encode(self) -> (b: u8)
        ensures
            b == self.spec_encode(),
    {
        self.flags.bits() | self.clk.code()
    }

    /// The value that `byte` holds. A byte whose clock code names no clock is
    /// rejected.
    #[verifier::when_used_as_spec(spec_decode)]
    pub fn decode(byte: u8) -> (r: Option<I2C_MST_CTRL>)
        ensures
            r == Self::spec_decode(byte),
            r is Some <==> byte & 0x0F == 13,
            r matches Some(v) ==> v.wf(),
    {
        match I2C_MST_CLK::from_code(byte & 0x0F) {
            Some(clk) => Some(I2C_MST_CTRL { flags: I2C_MST_FLAGS::from_bits_truncate(byte), clk }),
            None => None,
        }
    }

    /// Decoding an encoded value gives the value back.
    pub proof fn law_decode_encode(self)
        requires
            self.wf(),
        ensures
            Self::decode(self.encode()) == Some(self),
    {
        let f = self.flags@;
        let c = self.clk.code();
        lemma_code(c);
        lemma_masks();
        lemma_fields(f, c, I2C_MST_FLAGS::ALL, 0x0F, 0);
        I2C_MST_FLAGS::truncated(f | c).lemma_same(self.flags);
    }

    /// Encoding a decoded byte gives the byte back.
    pub proof fn law_encode_decode(byte: u8)
        requires
            Self::decode(byte) is Some,
        ensures
            Self::decode(byte).unwrap().encode() == byte & Self::MASK,
    {
        lemma_masks();
        lemma_fields(0, 0, I2C_MST_FLAGS::ALL, 0x0F, byte);
    }
}

impl From<I2C_MST_CTRL> for u8 {
    fn from(ctrl: I2C_MST_CTRL) -> (b: u8) {
        ctrl.encode()
    }
}

impl FromSpecImpl<I2C_MST_CTRL> for u8 {
    open spec fn obeys_from_spec() -> bool {
        true
    }

    open spec fn from_spec(ctrl: I2C_MST_CTRL) -> u8 {
        ctrl.encode()
    }
}

/// Control of one of the I2C slaves 0 to 3: flags, and the number of bytes
/// to read at each sample.
#[allow(non_camel_case_types)]
#[derive(Debug, Clone, Copy, PartialEq, Eq, Structural)]
pub struct I2C_SLVX_CTRL {
    pub flags: I2C_SLVX_FLAGS,
    pub length: u8,
}

impl I2C_SLVX_CTRL {
    /// The bits of the register that carry meaning.
    pub const MASK: u8 = 0b1111_1111;

    /// The greatest number of bytes that a slave can be told to read.
    pub const MAX_LENGTH: u8 = 15;

    /// The flags hold only defined bits, and the length fits its four bits.
    pub open spec fn wf(self) -> bool {
        self.flags.wf() && self.length <= Self::MAX_LENGTH
    }

    /// The register byte for this value.
    pub open spec fn spec_encode(self) -> u8 {
        self.flags@ | (self.length & 0x0F)
    }

    /// The value that `byte` holds.
    pub open spec fn spec_decode(byte: u8) -> I2C_SLVX_CTRL {
        I2C_SLVX_CTRL { flags: I2C_SLVX_FLAGS::truncated(byte), length: byte & 0x0F }
    }

    /// The register byte for this value. A length over fifteen is cut to its
    /// low four bits.
    #[verifier::when_used_as_spec(spec_encode)]
    pub fn encode(self) -> (b: u8)
        ensures
            b == self.spec_encode(),
    {
        self.flags.bits() | (self.length & 0x0F)
    }

    /// The value that `byte` holds.
    #[verifier::when_used_as_spec(spec_decode)]
    pub fn decode(byte: u8) -> (r: I2C_SLVX_CTRL)
        ensures
            r == Self::spec_decode(byte),
            r.wf(),
    {
        proof {
            lemma_code(byte);
        }
        I2C_SLVX_CTRL { flags: I2C_SLVX_FLAGS::from_bits_truncate(byte), length: byte & 0x0F }
    }

    /// Decoding an encoded value gives the value back.
    pub proof fn law_decode_encode(self)
        requires
            self.wf(),
        ensures
            Self::decode(self.encode()) == self,
    {
        let f = self.flags@;
        let n = self.length;
        lemma_code(n);
        lemma_within(n, 0, 0x0F);
        lemma_masks();
        lemma_fields(f, n, I2C_SLVX_FLAGS::ALL, 0x0F, 0);
        I2C_SLVX_FLAGS::truncated(f | n).lemma_same(self.flags);
    }

    /// Encoding a decoded byte gives the byte back.
    pub proof fn law_encode_decode(byte: u8)
        ensures
            Self::decode(byte).encode() == byte & Self::MASK,
    {
        lemma_masks();
        lemma_within(byte, 0, 0x0F);
        lemma_within(byte & 0x0F, 0, 0x0F);
        lemma_fields(0, 0, I2C_SLVX_FLAGS::ALL, 0x0F, byte);
    }
}

impl From<I2C_SLVX_CTRL> for u8 {
    fn from(ctrl: I2C_SLVX_CTRL) -> (b: u8) {
        ctrl.encode()
    }
}

impl FromSpecImpl<I2C_SLVX_CTRL> for u8 {
    open spec fn obeys_from_spec() -> bool {
        true
    }

    open spec fn from_spec(ctrl: I2C_SLVX_CTRL) -> u8 {
        ctrl.encode()
    }
}

/// Clock source, bits 2..0 of `PWR_MGMT_1`.
#[allow(non_camel_case_types)]
#[derive(Debug, Clone, Copy, PartialEq, Eq, Structural)]
pub enum PWR_MGMT_1_CLKSEL {
    /// Internal 20MHz oscillator
    Internal20MHzOscillator,
    /// The best available clock source: the PLL if ready, else the internal
    /// oscillator
    AutoSelect,
    /// Stops the clock and keeps the timing generator in reset
    StopTheClock,
}

impl PWR_MGMT_1_CLKSEL {
    /// The code that stands for this clock source.
    pub open spec fn spec_code(self) -> u8 {
        match self {
            PWR_MGMT_1_CLKSEL::Internal20MHzOscillator => 0,
            PWR_MGMT_1_CLKSEL::AutoSelect => 1,
            PWR_MGMT_1_CLKSEL::StopTheClock => 7,
        }
    }

    /// The code that stands for this clock source.
    #[verifier::when_used_as_spec(spec_code)]
    pub fn code(self) -> (c: u8)
        ensures
            c == self.spec_code(),
            c <= 7,
    {
        match self {
            PWR_MGMT_1_CLKSEL::Internal20MHzOscillator => 0,
            PWR_MGMT_1_CLKSEL::AutoSelect => 1,
            PWR_MGMT_1_CLKSEL::StopTheClock => 7,
        }
    }

    /// The clock source that `code` names, if any.
    pub open spec fn spec_from_code(code: u8) -> Option<PWR_MGMT_1_CLKSEL> {
        if code == 0 {
            Some(PWR_MGMT_1_CLKSEL::Internal20MHzOscillator)
        } else if code == 1 {
            Some(PWR_MGMT_1_CLKSEL::AutoSelect)
        } else if code == 7 {
            Some(PWR_MGMT_1_CLKSEL::StopTheClock)
        } else {
            None
        }
    }

    /// The clock source that `code` names; other codes are rejected.
    #[verifier::when_used_as_spec(spec_from_code)]
    pub fn from_code(code: u8) -> (r: Option<PWR_MGMT_1_CLKSEL>)
        ensures
            r == Self::spec_from_code(code),
            r matches Some(clksel) ==> clksel.code() == code,
            r is None ==> forall|clksel: PWR_MGMT_1_CLKSEL| clksel.code() != code,
    {
        if code == 0 {
            Some(PWR_MGMT_1_CLKSEL::Internal20MHzOscillator)
        } else if code == 1 {
            Some(PWR_MGMT_1_CLKSEL::AutoSelect)
        } else if code == 7 {
            Some(PWR_MGMT_1_CLKSEL::StopTheClock)
        } else {
            None
        }
    }

    /// A code names the choice that it stands for, and a code that names a
    /// choice is that choice's code.
    pub proof fn law_from_code(self, code: u8)
        ensures
            Self::from_code(self.code()) == Some(self),
            Self::from_code(code) == Some(self) ==> self.code() == code,
    {
    }
}

/// Power management 1: flags and clock source.
#[allow(non_camel_case_types)]
#[derive(Debug, Clone, Copy, PartialEq, Eq, Structural)]
pub struct PWR_MGMT_1 {
    pub flags: PWR_MGMT_1_FLAGS,
    pub clksel: PWR_MGMT_1_CLKSEL,
}

impl PWR_MGMT_1 {
    /// The bits of the register that carry meaning.
    pub const MASK: u8 = 0b1111_1111;

    /// The flags hold only defined bits.
    pub open spec fn wf(self) -> bool {
        self.flags.wf()
    }

    /// The register byte for this value.
    pub open spec fn spec_encode(self) -> u8 {
        self.flags@ | self.clksel.code()
    }

    /// The value that `byte` holds, if its clock code names a clock source.
    pub open spec fn spec_decode(byte: u8) -> Option<PWR_MGMT_1> {
        match PWR_MGMT_1_CLKSEL::from_code(byte & 0x07) {
            Some(clksel) => Some(PWR_MGMT_1 { flags: PWR_MGMT_1_FLAGS::truncated(byte), clksel }),
            None => None,
        }
    }

    /// The value that resets the device: `H_RESET` alone. The clock source
    /// does not matter to a reset.
    pub fn reset() -> (r: Self)
        ensures
            r.flags@ == PWR_MGMT_1_FLAGS::H_RESET,
            r.clksel == PWR_MGMT_1_CLKSEL::Internal20MHzOscillator,
            r.wf(),
            r.encode() == 0x80,
    {
        proof {
            lemma_code(0x80);
            lemma_masks();
        }
        PWR_MGMT_1 {
            flags: PWR_MGMT_1_FLAGS::from_bits_truncate(PWR_MGMT_1_FLAGS::H_RESET),
            clksel: PWR_MGMT_1_CLKSEL::Internal20MHzOscillator,
        }
    }

    /// The given clock source, with no flag set.
    pub fn clock_select(clksel: PWR_MGMT_1_CLKSEL) -> (r: Self)
        ensures
            r.flags@ == 0,
            r.clksel == clksel,
            r.wf(),
            r.encode() == clksel.code(),
    {
        proof {
            lemma_code(clksel.code());
        }
        PWR_MGMT_1 { flags: PWR_MGMT_1_FLAGS::empty(), clksel }
    }

    /// The register byte for this value.
    #[verifier::when_used_as_spec(spec_encode)]
    pub fn encode(self) -> (b: u8)
        ensures
            b == self.spec_encode(),
    {
        self.flags.bits() | self.clksel.code()
    }

    /// The value that `byte` holds. A byte whose clock code names no clock
    /// source is rejected.
    #[verifier::when_used_as_spec(spec_decode)]
    pub fn decode(byte: u8) -> (r: Option<PWR_MGMT_1>)
        ensures
            r == Self::spec_decode(byte),
            r is Some <==> PWR_MGMT_1_CLKSEL::from_code(byte & 0x07) is Some,
            r matches Some(v) ==> v.wf(),
    {
        match PWR_MGMT_1_CLKSEL::from_code(byte & 0x07) {
            Some(clksel) => Some(
                PWR_MGMT_1 { flags: PWR_MGMT_1_FLAGS::from_bits_truncate(byte), clksel },
            ),
            None => None,
        }
    }

    /// Decoding an encoded value gives the value back.
    pub proof fn law_decode_encode(self)
        requires
            self.wf(),
        ensures
            Self::decode(self.encode()) == Some(self),
    {
        let f = self.flags@;
        let c = self.clksel.code();
        lemma_code(c);
        lemma_masks();
        lemma_fields(f, c, PWR_MGMT_1_FLAGS::ALL, 0x07, 0);
        PWR_MGMT_1_FLAGS::truncated(f | c).lemma_same(self.flags);
    }

    /// Encoding a decoded byte gives the byte back.
    pub proof fn law_encode_decode(byte: u8)
        requires
            Self::decode(byte) is Some,
        ensures
            Self::decode(byte).unwrap().encode() == byte & Self::MASK,
    {
        lemma_masks();
        lemma_fields(0, 0, PWR_MGMT_1_FLAGS::ALL, 0x07, byte);
    }
}

impl From<PWR_MGMT_1> for u8 {
    fn from(pwr: PWR_MGMT_1) -> (b: u8) {
        pwr.encode()
    }
}

impl FromSpecImpl<PWR_MGMT_1> for u8 {
    open spec fn obeys_from_spec() -> bool {
        true
    }

    open spec fn from_spec(pwr: PWR_MGMT_1) -> u8 {
        pwr.encode()
    }
}

} // verus!
