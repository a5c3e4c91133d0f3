//! Registers of the MPU-9250.

pub mod flags;

use vstd::prelude::*;

verus! {

/// The MPU-9250's 7-bit I2C address.
pub const I2C_ADDRESS: u8 = 0x68;

/// The responses to `WHO_AM_I` that identify an MPU-9250.
pub const VALID_WHO_AM_I: [u8; 2] = [0x71, 0x73];

/// True when `value` identifies an MPU-9250.
pub fn is_valid_who_am_i(value: u8) -> (r: bool)
    ensures
        r == (value == 0x71 || value == 0x73),
{
    value == VALID_WHO_AM_I[0] || value == VALID_WHO_AM_I[1]
}

/// The accepted identity responses, as a slice.
pub open spec fn spec_valid_who_am_i() -> &'static [u8] {
    vstd::array::spec_array_as_slice(&VALID_WHO_AM_I)
}

/// The accepted `WHO_AM_I` responses, for error reports.
#[verifier::when_used_as_spec(spec_valid_who_am_i)]
pub fn valid_who_am_i() -> (r: &'static [u8])
    ensures
        r == spec_valid_who_am_i(),
        r@ == seq![0x71u8, 0x73u8],
{
    let r: &'static [u8] = &VALID_WHO_AM_I;
    assert(r@ =~= seq![0x71u8, 0x73u8]);
    r
}

/// MPU-9250 register identifiers.
#[allow(non_camel_case_types)]
#[derive(Debug, Clone, Copy, PartialEq, Eq, Structural)]
pub enum Regs {
    SELF_TEST_X_GYRO,
    SELF_TEST_Y_GYRO,
    SELF_TEST_Z_GYRO,
    SELF_TEST_X_ACCEL,
    SELF_TEST_Y_ACCEL,
    SELF_TEST_Z_ACCEL,
    XG_OFFSET_H,
    XG_OFFSET_L,
    YG_OFFSET_H,
    YG_OFFSET_L,
    ZG_OFFSET_H,
    ZG_OFFSET_L,
    SMPLRT_DIV,
    CONFIG,
    GYRO_CONFIG,
    ACCEL_CONFIG,
    ACCEL_CONFIG_2,
    LP_ACCEL_ODR,
    WOM_THR,
    FIFO_EN,
    I2C_MST_CTRL,
    I2C_SLV0_ADDR,
    I2C_SLV0_REG,
    I2C_SLV0_CTRL,
    I2C_SLV1_ADDR,
    I2C_SLV1_REG,
    I2C_SLV1_CTRL,
    I2C_SLV2_ADDR,
    I2C_SLV2_REG,
    I2C_SLV2_CTRL,
    I2C_SLV3_ADDR,
    I2C_SLV3_REG,
    I2C_SLV3_CTRL,
    I2C_SLV4_ADDR,
    I2C_SLV4_REG,
    I2C_SLV4_DO,
    I2C_SLV4_CTRL,
    I2C_SLV4_DI,
    I2C_MST_STATUS,
    INT_PIN_CFG,
    INT_ENABLE,
    INT_STATUS,
    ACCEL_XOUT_H,
    ACCEL_XOUT_L,
    ACCEL_YOUT_H,
    ACCEL_YOUT_L,
    ACCEL_ZOUT_H,
    ACCEL_ZOUT_L,
    TEMP_OUT_H,
    TEMP_OUT_L,
    GYRO_XOUT_H,
    GYRO_XOUT_L,
    GYRO_YOUT_H,
    GYRO_YOUT_L,
    GYRO_ZOUT_H,
    GYRO_ZOUT_L,
    EXT_SENS_DATA_00,
    EXT_SENS_DATA_01,
    EXT_SENS_DATA_02,
    EXT_SENS_DATA_03,
    EXT_SENS_DATA_04,
    EXT_SENS_DATA_05,
    EXT_SENS_DATA_06,
    EXT_SENS_DATA_07,
    EXT_SENS_DATA_08,
    EXT_SENS_DATA_09,
    EXT_SENS_DATA_10,
    EXT_SENS_DATA_11,
    EXT_SENS_DATA_12,
    EXT_SENS_DATA_13,
    EXT_SENS_DATA_14,
    EXT_SENS_DATA_15,
    EXT_SENS_DATA_16,
    EXT_SENS_DATA_17,
    EXT_SENS_DATA_18,
    EXT_SENS_DATA_19,
    EXT_SENS_DATA_20,
    EXT_SENS_DATA_21,
    EXT_SENS_DATA_22,
    EXT_SENS_DATA_23,
    I2C_SLV0_DO,
    I2C_SLV1_DO,
    I2C_SLV2_DO,
    I2C_SLV3_DO,
    I2C_MST_DELAY_CTRL,
    SIGNAL_PATH_RESET,
    ACCEL_INTEL_CTRL,
    USER_CTRL,
    PWR_MGMT_1,
    PWR_MGMT_2,
    FIFO_COUNTL,
    FIFO_R_W,
    WHO_AM_I,
    XA_OFFSET_H,
    XA_OFFSET_L,
    YA_OFFSET_H,
    YA_OFFSET_L,
    ZA_OFFSET_H,
    ZA_OFFSET_L,
}

impl Regs {
    /// The register's address inside the MPU-9250.
    pub open spec fn spec_addr(self) -> u8 {
        match self {
            Regs::SELF_TEST_X_GYRO => 0x00,
            Regs::SELF_TEST_Y_GYRO => 0x01,
            Regs::SELF_TEST_Z_GYRO => 0x02,
            Regs::SELF_TEST_X_ACCEL => 0x0D,
            Regs::SELF_TEST_Y_ACCEL => 0x0E,
            Regs::SELF_TEST_Z_ACCEL => 0x0F,
            Regs::XG_OFFSET_H => 0x13,
            Regs::XG_OFFSET_L => 0x14,
            Regs::YG_OFFSET_H => 0x15,
            Regs::YG_OFFSET_L => 0x16,
            Regs::ZG_OFFSET_H => 0x17,
            Regs::ZG_OFFSET_L => 0x18,
            Regs::SMPLRT_DIV => 0x19,
            Regs::CONFIG => 0x1A,
            Regs::GYRO_CONFIG => 0x1B,
            Regs::ACCEL_CONFIG => 0x1C,
            Regs::ACCEL_CONFIG_2 => 0x1D,
            Regs::LP_ACCEL_ODR => 0x1F,
            Regs::WOM_THR => 0x1E,
            Regs::FIFO_EN => 0x23,
            Regs::I2C_MST_CTRL => 0x24,
            Regs::I2C_SLV0_ADDR => 0x25,
            Regs::I2C_SLV0_REG => 0x26,
            Regs::I2C_SLV0_CTRL => 0x27,
            Regs::I2C_SLV1_ADDR => 0x28,
            Regs::I2C_SLV1_REG => 0x29,
            Regs::I2C_SLV1_CTRL => 0x2A,
            Regs::I2C_SLV2_ADDR => 0x2B,
            Regs::I2C_SLV2_REG => 0x2C,
            Regs::I2C_SLV2_CTRL => 0x2D,
            Regs::I2C_SLV3_ADDR => 0x2E,
            Regs::I2C_SLV3_REG => 0x2F,
            Regs::I2C_SLV3_CTRL => 0x30,
            Regs::I2C_SLV4_ADDR => 0x31,
            Regs::I2C_SLV4_REG => 0x32,
            Regs::I2C_SLV4_DO => 0x33,
            Regs::I2C_SLV4_CTRL => 0x34,
            Regs::I2C_SLV4_DI => 0x35,
            Regs::I2C_MST_STATUS => 0x36,
            Regs::INT_PIN_CFG => 0x37,
            Regs::INT_ENABLE => 0x38,
            Regs::INT_STATUS => 0x3A,
            Regs::ACCEL_XOUT_H => 0x3B,
            Regs::ACCEL_XOUT_L => 0x3C,
            Regs::ACCEL_YOUT_H => 0x3D,
            Regs::ACCEL_YOUT_L => 0x3E,
            Regs::ACCEL_ZOUT_H => 0x3F,
            Regs::ACCEL_ZOUT_L => 0x40,
            Regs::TEMP_OUT_H => 0x41,
            Regs::TEMP_OUT_L => 0x42,
            Regs::GYRO_XOUT_H => 0x43,
            Regs::GYRO_XOUT_L => 0x44,
            Regs::GYRO_YOUT_H => 0x45,
            Regs::GYRO_YOUT_L => 0x46,
            Regs::GYRO_ZOUT_H => 0x47,
            Regs::GYRO_ZOUT_L => 0x48,
            Regs::EXT_SENS_DATA_00 => 0x49,
            Regs::EXT_SENS_DATA_01 => 0x4A,
            Regs::EXT_SENS_DATA_02 => 0x4B,
            Regs::EXT_SENS_DATA_03 => 0x4C,
            Regs::EXT_SENS_DATA_04 => 0x4D,
            Regs::EXT_SENS_DATA_05 => 0x4E,
            Regs::EXT_SENS_DATA_06 => 0x4F,
            Regs::EXT_SENS_DATA_07 => 0x50,
            Regs::EXT_SENS_DATA_08 => 0x51,
            Regs::EXT_SENS_DATA_09 => 0x52,
            Regs::EXT_SENS_DATA_10 => 0x53,
            Regs::EXT_SENS_DATA_11 => 0x54,
            Regs::EXT_SENS_DATA_12 => 0x55,
            Regs::EXT_SENS_DATA_13 => 0x56,
            Regs::EXT_SENS_DATA_14 => 0x57,
            Regs::EXT_SENS_DATA_15 => 0x58,
            Regs::EXT_SENS_DATA_16 => 0x59,
            Regs::EXT_SENS_DATA_17 => 0x5A,
            Regs::EXT_SENS_DATA_18 => 0x5B,
            Regs::EXT_SENS_DATA_19 => 0x5C,
            Regs::EXT_SENS_DATA_20 => 0x5D,
            Regs::EXT_SENS_DATA_21 => 0x5E,
            Regs::EXT_SENS_DATA_22 => 0x5F,
            Regs::EXT_SENS_DATA_23 => 0x60,
            Regs::I2C_SLV0_DO => 0x63,
            Regs::I2C_SLV1_DO => 0x64,
            Regs::I2C_SLV2_DO => 0x65,
            Regs::I2C_SLV3_DO => 0x66,
            Regs::I2C_MST_DELAY_CTRL => 0x67,
            Regs::SIGNAL_PATH_RESET => 0x68,
            Regs::ACCEL_INTEL_CTRL => 0x69,
            Regs::USER_CTRL => 0x6A,
            Regs::PWR_MGMT_1 => 0x6B,
            Regs::PWR_MGMT_2 => 0x6C,
            Regs::FIFO_COUNTL => 0x73,
            Regs::FIFO_R_W => 0x74,
            Regs::WHO_AM_I => 0x75,
            Regs::XA_OFFSET_H => 0x77,
            Regs::XA_OFFSET_L => 0x78,
            Regs::YA_OFFSET_H => 0x7A,
            Regs::YA_OFFSET_L => 0x7B,
            Regs::ZA_OFFSET_H => 0x7D,
            Regs::ZA_OFFSET_L => 0x7E,
        }
    }

    /// The register's address inside the MPU-9250.
    #[verifier::when_used_as_spec(spec_addr)]
    pub fn addr(self) -> (a: u8)
        ensures
            a == self.spec_addr(),
            a < 0x80,
    {
        match self {
            Regs::SELF_TEST_X_GYRO => 0x00,
            Regs::SELF_TEST_Y_GYRO => 0x01,
            Regs::SELF_TEST_Z_GYRO => 0x02,
            Regs::SELF_TEST_X_ACCEL => 0x0D,
            Regs::SELF_TEST_Y_ACCEL => 0x0E,
            Regs::SELF_TEST_Z_ACCEL => 0x0F,
            Regs::XG_OFFSET_H => 0x13,
            Regs::XG_OFFSET_L => 0x14,
            Regs::YG_OFFSET_H => 0x15,
            Regs::YG_OFFSET_L => 0x16,
            Regs::ZG_OFFSET_H => 0x17,
            Regs::ZG_OFFSET_L => 0x18,
            Regs::SMPLRT_DIV => 0x19,
            Regs::CONFIG => 0x1A,
            Regs::GYRO_CONFIG => 0x1B,
            Regs::ACCEL_CONFIG => 0x1C,
            Regs::ACCEL_CONFIG_2 => 0x1D,
            Regs::LP_ACCEL_ODR => 0x1F,
            Regs::WOM_THR => 0x1E,
            Regs::FIFO_EN => 0x23,
            Regs::I2C_MST_CTRL => 0x24,
            Regs::I2C_SLV0_ADDR => 0x25,
            Regs::I2C_SLV0_REG => 0x26,
            Regs::I2C_SLV0_CTRL => 0x27,
            Regs::I2C_SLV1_ADDR => 0x28,
            Regs::I2C_SLV1_REG => 0x29,
            Regs::I2C_SLV1_CTRL => 0x2A,
            Regs::I2C_SLV2_ADDR => 0x2B,
            Regs::I2C_SLV2_REG => 0x2C,
            Regs::I2C_SLV2_CTRL => 0x2D,
            Regs::I2C_SLV3_ADDR => 0x2E,
            Regs::I2C_SLV3_REG => 0x2F,
            Regs::I2C_SLV3_CTRL => 0x30,
            Regs::I2C_SLV4_ADDR => 0x31,
            Regs::I2C_SLV4_REG => 0x32,
            Regs::I2C_SLV4_DO => 0x33,
            Regs::I2C_SLV4_CTRL => 0x34,
            Regs::I2C_SLV4_DI => 0x35,
            Regs::I2C_MST_STATUS => 0x36,
            Regs::INT_PIN_CFG => 0x37,
            Regs::INT_ENABLE => 0x38,
            Regs::INT_STATUS => 0x3A,
            Regs::ACCEL_XOUT_H => 0x3B,
            Regs::ACCEL_XOUT_L => 0x3C,
            Regs::ACCEL_YOUT_H => 0x3D,
            Regs::ACCEL_YOUT_L => 0x3E,
            Regs::ACCEL_ZOUT_H => 0x3F,
            Regs::ACCEL_ZOUT_L => 0x40,
            Regs::TEMP_OUT_H => 0x41,
            Regs::TEMP_OUT_L => 0x42,
            Regs::GYRO_XOUT_H => 0x43,
            Regs::GYRO_XOUT_L => 0x44,
            Regs::GYRO_YOUT_H => 0x45,
            Regs::GYRO_YOUT_L => 0x46,
            Regs::GYRO_ZOUT_H => 0x47,
            Regs::GYRO_ZOUT_L => 0x48,
            Regs::EXT_SENS_DATA_00 => 0x49,
            Regs::EXT_SENS_DATA_01 => 0x4A,
            Regs::EXT_SENS_DATA_02 => 0x4B,
            Regs::EXT_SENS_DATA_03 => 0x4C,
            Regs::EXT_SENS_DATA_04 => 0x4D,
            Regs::EXT_SENS_DATA_05 => 0x4E,
            Regs::EXT_SENS_DATA_06 => 0x4F,
            Regs::EXT_SENS_DATA_07 => 0x50,
            Regs::EXT_SENS_DATA_08 => 0x51,
            Regs::EXT_SENS_DATA_09 => 0x52,
            Regs::EXT_SENS_DATA_10 => 0x53,
            Regs::EXT_SENS_DATA_11 => 0x54,
            Regs::EXT_SENS_DATA_12 => 0x55,
            Regs::EXT_SENS_DATA_13 => 0x56,
            Regs::EXT_SENS_DATA_14 => 0x57,
            Regs::EXT_SENS_DATA_15 => 0x58,
            Regs::EXT_SENS_DATA_16 => 0x59,
            Regs::EXT_SENS_DATA_17 => 0x5A,
            Regs::EXT_SENS_DATA_18 => 0x5B,
            Regs::EXT_SENS_DATA_19 => 0x5C,
            Regs::EXT_SENS_DATA_20 => 0x5D,
            Regs::EXT_SENS_DATA_21 => 0x5E,
            Regs::EXT_SENS_DATA_22 => 0x5F,
            Regs::EXT_SENS_DATA_23 => 0x60,
            Regs::I2C_SLV0_DO => 0x63,
            Regs::I2C_SLV1_DO => 0x64,
            Regs::I2C_SLV2_DO => 0x65,
            Regs::I2C_SLV3_DO => 0x66,
            Regs::I2C_MST_DELAY_CTRL => 0x67,
            Regs::SIGNAL_PATH_RESET => 0x68,
            Regs::ACCEL_INTEL_CTRL => 0x69,
            Regs::USER_CTRL => 0x6A,
            Regs::PWR_MGMT_1 => 0x6B,
            Regs::PWR_MGMT_2 => 0x6C,
            Regs::FIFO_COUNTL => 0x73,
            Regs::FIFO_R_W => 0x74,
            Regs::WHO_AM_I => 0x75,
            Regs::XA_OFFSET_H => 0x77,
            Regs::XA_OFFSET_L => 0x78,
            Regs::YA_OFFSET_H => 0x7A,
            Regs::YA_OFFSET_L => 0x7B,
            Regs::ZA_OFFSET_H => 0x7D,
            Regs::ZA_OFFSET_L => 0x7E,
        }
    }

    /// No two registers share an address.
    pub proof fn law_addr_injective(a: Regs, b: Regs)
        requires
            a.addr() == b.addr(),
        ensures
            a == b,
    {
    }
}

} // verus!
