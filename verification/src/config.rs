//! What the user chooses: scales, filters and rates.

use crate::regs::ak8963::flags::{CNTL1, CNTL1_MODE};
use crate::regs::mpu9250::flags::{
    ACCEL_CONFIG, ACCEL_CONFIG_2, ACCEL_FS_SEL, DLPF, FCHOICE, GYRO_CONFIG, GYRO_FS_SEL,
};
use crate::regs::{AK8963, MPU9250};
use crate::transport::Op;
use vstd::prelude::*;

verus! {

/// Scaling and sampling rates.
///
/// Every member has a default of its own; see [`Config::default`].
#[non_exhaustive]
#[derive(Debug, Clone, Copy, PartialEq, Eq, Structural)]
pub struct Config {
    /// Gyroscope scale
    pub gyro_scale: GYRO_FS_SEL,
    /// Gyroscope sampling frequency selection
    pub fchoice: FCHOICE,
    /// Digital low pass filter configuration
    pub dlpf: DLPF,
    /// Accelerometer scaling
    pub accel_scale: ACCEL_FS_SEL,
    /// Accelerometer data rate and filter selection
    pub accel_rate: ACCEL_CONFIG_2,
    /// Magnetometer control: mode and output width
    pub mag_control: CNTL1,
    /// Divides the sample rate: `rate = internal rate / (1 + divider)`.
    ///
    /// Takes effect only when `fchoice` is `DLPF`.
    pub sample_rate_divider: u8,
}

impl Config {
    /// The flag sets inside hold only defined bits.
    pub open spec fn wf(self) -> bool {
        self.accel_rate.wf() && self.mag_control.wf()
    }

    /// The register writes that put the configuration into the devices, in
    /// the order in which they are made.
    pub open spec fn spec_apply(&self) -> Seq<Op> {
        seq![
            Op::MpuWrite(
                MPU9250::GYRO_CONFIG,
                (0u8 | (self.gyro_scale.code() << 3) | self.fchoice.code()),
            ),
            Op::MpuWrite(MPU9250::CONFIG, self.dlpf.code()),
            Op::MpuWrite(MPU9250::ACCEL_CONFIG, (0u8 | (self.accel_scale.code() << 3))),
            Op::MpuWrite(MPU9250::ACCEL_CONFIG_2, self.accel_rate@),
            Op::MpuWrite(MPU9250::SMPLRT_DIV, self.sample_rate_divider),
            Op::AkWrite(AK8963::CNTL1, self.mag_control.encode()),
        ]
    }

    /// The register writes that put the configuration into the devices, in
    /// the order in which they are made: gyroscope scale and filter bypass,
    /// low-pass filter band, accelerometer scale, accelerometer rate, sample
    /// rate divider, magnetometer control.
    pub fn apply(&self) -> (ops: [Op; 6])
        ensures
            ops@ == self.spec_apply(),
    {
        let ops = [
            Op::MpuWrite(
                MPU9250::GYRO_CONFIG,
                GYRO_CONFIG::new(self.gyro_scale, self.fchoice).encode(),
            ),
            Op::MpuWrite(MPU9250::CONFIG, self.dlpf.code()),
            Op::MpuWrite(MPU9250::ACCEL_CONFIG, ACCEL_CONFIG::new(self.accel_scale).encode()),
            Op::MpuWrite(MPU9250::ACCEL_CONFIG_2, self.accel_rate.bits()),
            Op::MpuWrite(MPU9250::SMPLRT_DIV, self.sample_rate_divider),
            Op::AkWrite(AK8963::CNTL1, self.mag_control.encode()),
        ];
        ops
    }
}

impl Default for Config {
    /// ±250 degrees per second, ±2 g, low-pass filter band 0 in use,
    /// magnetometer powered down with 14-bit output, no rate division.
    fn default() -> (r: Self)
        ensures
            r.gyro_scale == GYRO_FS_SEL::DPS250,
            r.fchoice == FCHOICE::DLPF,
            r.dlpf == DLPF::_0,
            r.accel_scale == ACCEL_FS_SEL::G2,
            r.accel_rate@ == 0,
            r.mag_control.mode == CNTL1_MODE::POWER_DOWN,
            r.mag_control.output@ == 0,
            r.sample_rate_divider == 0,
            r.wf(),
    {
        Config {
            gyro_scale: GYRO_FS_SEL::DPS250,
            fchoice: FCHOICE::DLPF,
            dlpf: DLPF::_0,
            accel_scale: ACCEL_FS_SEL::G2,
            accel_rate: ACCEL_CONFIG_2::empty(),
            mag_control: CNTL1::power_down(),
            sample_rate_divider: 0,
        }
    }
}

} // verus!
