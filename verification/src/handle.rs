//! The scale factors that turn raw counts into physical units.

use crate::config::Config;
use crate::ratio::Ratio;
use crate::regs::mpu9250::flags::{ACCEL_FS_SEL, GYRO_FS_SEL};
use crate::triplet::Triplet;
use vstd::prelude::*;

verus! {

/// The span of a signed 16-bit count: full scale is 32768 counts.
pub const FULL_SCALE_COUNTS: i64 = 32768;

/// The gyroscope's full scale, in degrees per second.
pub open spec fn spec_gyro_full_scale(scale: GYRO_FS_SEL) -> i64 {
    match scale {
        GYRO_FS_SEL::DPS250 => 250,
        GYRO_FS_SEL::DPS500 => 500,
        GYRO_FS_SEL::DPS1000 => 1000,
        GYRO_FS_SEL::DPS2000 => 2000,
    }
}

/// The gyroscope's full scale, in degrees per second.
#[verifier::when_used_as_spec(spec_gyro_full_scale)]
pub fn gyro_full_scale(scale: GYRO_FS_SEL) -> (r: i64)
    ensures
        r == spec_gyro_full_scale(scale),
{
    match scale {
        GYRO_FS_SEL::DPS250 => 250,
        GYRO_FS_SEL::DPS500 => 500,
        GYRO_FS_SEL::DPS1000 => 1000,
        GYRO_FS_SEL::DPS2000 => 2000,
    }
}

/// The accelerometer's full scale, in g.
pub open spec fn spec_accel_full_scale(scale: ACCEL_FS_SEL) -> i64 {
    match scale {
        ACCEL_FS_SEL::G2 => 2,
        ACCEL_FS_SEL::G4 => 4,
        ACCEL_FS_SEL::G8 => 8,
        ACCEL_FS_SEL::G16 => 16,
    }
}

/// The accelerometer's full scale, in g.
#[verifier::when_used_as_spec(spec_accel_full_scale)]
pub fn accel_full_scale(scale: ACCEL_FS_SEL) -> (r: i64)
    ensures
        r == spec_accel_full_scale(scale),
{
    match scale {
        ACCEL_FS_SEL::G2 => 2,
        ACCEL_FS_SEL::G4 => 4,
        ACCEL_FS_SEL::G8 => 8,
        ACCEL_FS_SEL::G16 => 16,
    }
}

/// The sensitivity adjustment that a fuse byte stands for:
/// `(fuse - 128) / 256 + 1`.
pub open spec fn spec_sensitivity(fuse: u8) -> Ratio {
    Ratio { num: ((fuse - 128) + 256) as i64, den: 256 }
}

/// The sensitivity adjustment that a fuse byte stands for:
/// `(fuse - 128) / 256 + 1`, between one half and two.
#[verifier::when_used_as_spec(spec_sensitivity)]
pub fn sensitivity(fuse: u8) -> (r: Ratio)
    ensures
        r == spec_sensitivity(fuse),
        within_sensitivity(r),
{
    Ratio { num: fuse as i64 + 128, den: 256 }
}

/// A sensitivity adjustment lies between one half and two, and is small
/// enough to be multiplied.
pub open spec fn within_sensitivity(r: Ratio) -> bool {
    &&& r.small()
    &&& 2 * r.num >= r.den
    &&& r.num < 2 * r.den
}

/// The sensitivity adjustment of every fuse byte `b` is the number
/// `(b - 128) / 256 + 1`.
pub proof fn law_sensitivity(fuse: u8)
    ensures
        256 * sensitivity(fuse).num == (fuse - 128) * sensitivity(fuse).den + 256 * sensitivity(
            fuse,
        ).den,
        within_sensitivity(sensitivity(fuse)),
{
}

/// A resolution is positive, and small enough to be multiplied by a count.
pub open spec fn within_resolution(r: Ratio) -> bool {
    &&& 0 < r.num <= 0x1_0000
    &&& 0 < r.den <= 0x1_0000
}

impl Config {
    /// Degrees per second that one gyroscope count stands for: the full
    /// scale over 32768.
    pub open spec fn gyro_resolution(&self) -> Ratio {
        Ratio { num: gyro_full_scale(self.gyro_scale), den: FULL_SCALE_COUNTS }
    }

    /// Multiples of g that one accelerometer count stands for: the full
    /// scale over 32768.
    pub open spec fn acc_resolution(&self) -> Ratio {
        Ratio { num: accel_full_scale(self.accel_scale), den: FULL_SCALE_COUNTS }
    }

    /// Magnetic field that one magnetometer count stands for:
    /// `10 * 4912 / 8190` with 14-bit output, `10 * 4912 / 32760` with 16-bit
    /// output.
    pub open spec fn mag_resolution(&self) -> Ratio {
        if self.mag_control.output@ == 0 {
            Ratio { num: 49120, den: 8190 }
        } else {
            Ratio { num: 49120, den: 32760 }
        }
    }
}

/// Controller-side state of the MPU-9250: the scale factors that were
/// fixed when the device was brought up.
///
/// A `Handle` comes out of a bring-up that succeeded, and out of nothing
/// else. It lets a device be put together again after a release.
#[derive(Debug, PartialEq, Eq, Structural)]
pub struct Handle {
    gyro_resolution: Ratio,
    acc_resolution: Ratio,
    mag_resolution: Ratio,
    mag_sensitivity: Triplet<Ratio>,
}

impl Handle {
    /// Degrees per second per gyroscope count.
    pub closed spec fn spec_gyro_resolution(&self) -> Ratio {
        self.gyro_resolution
    }

    /// Multiples of g per accelerometer count.
    pub closed spec fn spec_acc_resolution(&self) -> Ratio {
        self.acc_resolution
    }

    /// Magnetic field per magnetometer count.
    pub closed spec fn spec_mag_resolution(&self) -> Ratio {
        self.mag_resolution
    }

    /// Sensitivity adjustment of each magnetometer axis.
    pub closed spec fn spec_mag_sensitivity(&self) -> Triplet<Ratio> {
        self.mag_sensitivity
    }

    /// The resolutions are positive, each sensitivity adjustment lies between
    /// one half and two, and all are small enough to be multiplied.
    #[verifier::type_invariant]
    pub open spec fn wf(&self) -> bool {
        &&& within_resolution(self.spec_gyro_resolution())
        &&& within_resolution(self.spec_acc_resolution())
        &&& within_resolution(self.spec_mag_resolution())
        &&& within_sensitivity(self.spec_mag_sensitivity().x)
        &&& within_sensitivity(self.spec_mag_sensitivity().y)
        &&& within_sensitivity(self.spec_mag_sensitivity().z)
    }

    /// The handle of a device that was configured with `config` and whose
    /// fuses gave the sensitivity adjustments `mag_sensitivity`.
    pub open spec fn matches(&self, config: &Config, mag_sensitivity: &Triplet<Ratio>) -> bool {
        &&& self.spec_gyro_resolution() == config.gyro_resolution()
        &&& self.spec_acc_resolution() == config.acc_resolution()
        &&& self.spec_mag_resolution() == config.mag_resolution()
        &&& self.spec_mag_sensitivity() == *mag_sensitivity
    }

    /// Two handles with the same factors are the same handle.
    pub proof fn law_same_factors(self, other: Handle)
        requires
            self.spec_gyro_resolution() == other.spec_gyro_resolution(),
            self.spec_acc_resolution() == other.spec_acc_resolution(),
            self.spec_mag_resolution() == other.spec_mag_resolution(),
            self.spec_mag_sensitivity() == other.spec_mag_sensitivity(),
        ensures
            self == other,
    {
    }

    /// Derives the scale factors from the configuration and keeps the
    /// sensitivity adjustments.
    pub(crate) fn new(config: &Config, mag_sensitivity: &Triplet<Ratio>) -> (r: Handle)
        requires
            within_sensitivity(mag_sensitivity.x),
            within_sensitivity(mag_sensitivity.y),
            within_sensitivity(mag_sensitivity.z),
        ensures
            r.matches(config, mag_sensitivity),
            r.wf(),
    {
        Handle {
            gyro_resolution: Ratio {
                num: gyro_full_scale(config.gyro_scale),
                den: FULL_SCALE_COUNTS,
            },
            acc_resolution: Ratio {
                num: accel_full_scale(config.accel_scale),
                den: FULL_SCALE_COUNTS,
            },
            mag_resolution: if config.mag_control.output.is_empty() {
                Ratio { num: 10 * 4912, den: 8190 }
            } else {
                Ratio { num: 10 * 4912, den: 32760 }
            },
            mag_sensitivity: *mag_sensitivity,
        }
    }

    /// Degrees per second per gyroscope count.
    #[verifier::when_used_as_spec(spec_gyro_resolution)]
    pub fn gyro_resolution(&self) -> (r: Ratio)
        ensures
            r == self.spec_gyro_resolution(),
            self.wf(),
    {
        proof {
            use_type_invariant(self);
        }
        self.gyro_resolution
    }

    /// Multiples of g per accelerometer count.
    #[verifier::when_used_as_spec(spec_acc_resolution)]
    pub fn acc_resolution(&self) -> (r: Ratio)
        ensures
            r == self.spec_acc_resolution(),
            self.wf(),
    {
        proof {
            use_type_invariant(self);
        }
        self.acc_resolution
    }

    /// Magnetic field per magnetometer count.
    #[verifier::when_used_as_spec(spec_mag_resolution)]
    pub fn mag_resolution(&self) -> (r: Ratio)
        ensures
            r == self.spec_mag_resolution(),
            self.wf(),
    {
        proof {
            use_type_invariant(self);
        }
        self.mag_resolution
    }

    /// Sensitivity adjustment of each magnetometer axis.
    #[verifier::when_used_as_spec(spec_mag_sensitivity)]
    pub fn mag_sensitivity(&self) -> (r: Triplet<Ratio>)
        ensures
            r == self.spec_mag_sensitivity(),
            self.wf(),
    {
        proof {
            use_type_invariant(self);
        }
        self.mag_sensitivity
    }
}

} // verus!
