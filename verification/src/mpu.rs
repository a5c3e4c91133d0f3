//! The device: a transport and the scale factors of its bring-up.

use crate::config::Config;
use crate::handle::Handle;
use crate::ratio::Ratio;
use crate::regs::{AK8963, MPU9250};
use crate::transport::{Access, Op, Transport};
use crate::triplet::Triplet;
use vstd::prelude::*;

verus! {

/// The counts of the three axes, each times `resolution`.
pub open spec fn scaled(resolution: Ratio, raw: Triplet<i16>) -> Triplet<Ratio> {
    Triplet { x: resolution.times(raw.x), y: resolution.times(raw.y), z: resolution.times(raw.z) }
}

/// The counts of the three axes, each times `resolution`. The numerator of
/// the resolution has to leave room for a 16-bit count.
pub fn scale(resolution: Ratio, raw: Triplet<i16>) -> (r: Triplet<Ratio>)
    requires
        -0x1_0000_0000_0000 < resolution.num < 0x1_0000_0000_0000,
    ensures
        r == scaled(resolution, raw),
        r.x.den == resolution.den && r.y.den == resolution.den && r.z.den == resolution.den,
        r.x.num == resolution.num * raw.x,
        r.y.num == resolution.num * raw.y,
        r.z.num == resolution.num * raw.z,
{
    proof {
        lemma_room(resolution.num, raw.x);
        lemma_room(resolution.num, raw.y);
        lemma_room(resolution.num, raw.z);
    }
    Triplet { x: resolution.times(raw.x), y: resolution.times(raw.y), z: resolution.times(raw.z) }
}

/// A numerator below 2^48 times a 16-bit count fits 64 bits; one of a
/// resolution times a count stays small.
proof fn lemma_room(num: i64, count: i16)
    requires
        -0x1_0000_0000_0000 < num < 0x1_0000_0000_0000,
    ensures
        i64::MIN <= num * count <= i64::MAX,
        0 < num <= 0x1_0000 ==> -0x8000_0000 <= num * count <= 0x8000_0000,
{
    assert(-0x8000_0000_0000_0000 <= num * count <= 0x7FFF_FFFF_FFFF_FFFF) by (nonlinear_arith)
        requires
            -0x1_0000_0000_0000 < num < 0x1_0000_0000_0000,
            -0x8000 <= count <= 0x7FFF,
    ;
    if 0 < num <= 0x1_0000 {
        assert(-0x8000_0000 <= num * count <= 0x8000_0000) by (nonlinear_arith)
            requires
                0 < num <= 0x1_0000,
                -0x8000 <= count <= 0x7FFF,
        ;
    }
}

/// A count negated as a 16-bit machine does it: the least count stays.
pub open spec fn negated(count: i16) -> i16 {
    if count == i16::MIN {
        i16::MIN
    } else {
        (-count) as i16
    }
}

/// The magnetometer's counts in the frame of accelerometer and gyroscope:
/// X and Y change places, Z changes sign.
pub open spec fn spec_align(raw: Triplet<i16>) -> Triplet<i16> {
    Triplet { x: raw.y, y: raw.x, z: negated(raw.z) }
}

/// The magnetometer's counts in the frame of accelerometer and gyroscope:
/// X and Y change places, Z changes sign.
#[verifier::when_used_as_spec(spec_align)]
pub fn align(raw: Triplet<i16>) -> (r: Triplet<i16>)
    ensures
        r == spec_align(raw),
{
    let z = if raw.z == i16::MIN {
        i16::MIN
    } else {
        -raw.z
    };
    Triplet { x: raw.y, y: raw.x, z }
}

/// Aligning twice gives the counts back.
pub proof fn law_align_involution(raw: Triplet<i16>)
    ensures
        align(align(raw)) == raw,
{
}

/// The magnetic field of aligned counts: each count times the resolution,
/// times the sensitivity adjustment of its axis.
pub open spec fn scaled_mag(
    resolution: Ratio,
    sensitivity: Triplet<Ratio>,
    raw: Triplet<i16>,
) -> Triplet<Ratio> {
    let aligned = align(raw);
    Triplet {
        x: resolution.times(aligned.x).product(sensitivity.x),
        y: resolution.times(aligned.y).product(sensitivity.y),
        z: resolution.times(aligned.z).product(sensitivity.z),
    }
}

/// With full scale `F` g, a count `c` with `c * F == 32768 * k` reads as
/// exactly `k` g.
pub proof fn law_accel_full_scale(config: Config, count: i16, k: int)
    requires
        count * crate::handle::accel_full_scale(config.accel_scale) == 32768 * k,
    ensures
        config.acc_resolution().times(count).is_int(k),
        config.acc_resolution().times(count).wf(),
{
    let f = crate::handle::accel_full_scale(config.accel_scale);
    assert(f * count == count * f) by (nonlinear_arith);
}

/// With full scale `F` degrees per second, a count `n` reads as exactly
/// `n * F / 32768` degrees per second.
pub proof fn law_gyro_full_scale(config: Config, count: i16)
    ensures
        config.gyro_resolution().times(count).same(
            Ratio {
                num: (count * crate::handle::gyro_full_scale(config.gyro_scale)) as i64,
                den: 32768,
            },
        ),
        config.gyro_resolution().times(count).wf(),
{
    let f = crate::handle::gyro_full_scale(config.gyro_scale);
    assert(f * count == count * f) by (nonlinear_arith);
}

/// An Invensense MPU.
///
/// Holds the transport and the handle of a device that was brought up, and
/// turns what the bus returns into readings.
pub struct Mpu<T> {
    transport: T,
    handle: Handle,
}

impl<T> Mpu<T> {
    /// The transport that the device owns.
    pub closed spec fn spec_transport(&self) -> T {
        self.transport
    }

    /// The scale factors of the device.
    pub closed spec fn spec_handle(&self) -> Handle {
        self.handle
    }

    /// A device is its transport and its handle, and nothing else.
    pub proof fn lemma_same(self, other: Mpu<T>)
        requires
            self.spec_transport() == other.spec_transport(),
            self.spec_handle() == other.spec_handle(),
        ensures
            self == other,
    {
    }

    /// The device behind `transport`, with the scale factors that `config`
    /// and the sensitivity adjustments give.
    pub(crate) fn new(transport: T, config: &Config, sensitivity: &Triplet<Ratio>) -> (r: Self)
        requires
            crate::handle::within_sensitivity(sensitivity.x),
            crate::handle::within_sensitivity(sensitivity.y),
            crate::handle::within_sensitivity(sensitivity.z),
        ensures
            r.spec_transport() == transport,
            r.spec_handle().matches(config, sensitivity),
    {
        Mpu { transport, handle: Handle::new(config, sensitivity) }
    }

    /// Puts a transport and a handle together.
    pub(crate) fn join(transport: T, handle: Handle) -> (r: Self)
        ensures
            r.spec_transport() == transport,
            r.spec_handle() == handle,
    {
        Mpu { transport, handle }
    }

    /// Takes the device apart.
    pub(crate) fn split(self) -> (r: (T, Handle))
        ensures
            r.0 == self.spec_transport(),
            r.1 == self.spec_handle(),
    {
        (self.transport, self.handle)
    }

    /// The transport, to act on the peripheral inside it.
    pub(crate) fn transport_mut(&mut self) -> (r: &mut T)
        ensures
            *r == old(self).spec_transport(),
            final(self).spec_transport() == *final(r),
            final(self).spec_handle() == old(self).spec_handle(),
    {
        &mut self.transport
    }

    /// The scale factors of the device.
    pub fn handle(&self) -> (r: &Handle)
        ensures
            *r == self.spec_handle(),
    {
        &self.handle
    }

    /// Angular rate in degrees per second: each count times the gyroscope's
    /// resolution.
    pub fn scale_gyro(&self, raw: Triplet<i16>) -> (r: Triplet<Ratio>)
        ensures
            r == scaled(self.spec_handle().spec_gyro_resolution(), raw),
            r.x.wf() && r.y.wf() && r.z.wf(),
    {
        scale(self.handle.gyro_resolution(), raw)
    }

    /// Acceleration in g: each count times the accelerometer's resolution.
    pub fn scale_acc(&self, raw: Triplet<i16>) -> (r: Triplet<Ratio>)
        ensures
            r == scaled(self.spec_handle().spec_acc_resolution(), raw),
            r.x.wf() && r.y.wf() && r.z.wf(),
    {
        scale(self.handle.acc_resolution(), raw)
    }

    /// Magnetic field in the frame of accelerometer and gyroscope: the
    /// counts are aligned, each is multiplied by the magnetometer's
    /// resolution, and the result axis by axis by the sensitivity
    /// adjustments.
    pub fn scale_mag(&self, raw: Triplet<i16>) -> (r: Triplet<Ratio>)
        ensures
            r == scaled_mag(
                self.spec_handle().spec_mag_resolution(),
                self.spec_handle().spec_mag_sensitivity(),
                raw,
            ),
            r.x.wf() && r.y.wf() && r.z.wf(),
    {
        let resolution = self.handle.mag_resolution();
        let sensitivity = self.handle.mag_sensitivity();
        let aligned = align(raw);
        let field = scale(resolution, aligned);
        proof {
            lemma_room(resolution.num, aligned.x);
            lemma_room(resolution.num, aligned.y);
            lemma_room(resolution.num, aligned.z);
            field.x.lemma_product(sensitivity.x);
            field.y.lemma_product(sensitivity.y);
            field.z.lemma_product(sensitivity.z);
        }
        field * sensitivity
    }
}

impl<T: Transport> Mpu<T> {
    /// Begins a read of the MPU-9250's `WHO_AM_I` register.
    pub fn mpu9250_who_am_i(&self) -> (a: Access)
        ensures
            a == Access::start(self.spec_transport().spec_kind(), Op::MpuRead(MPU9250::WHO_AM_I)),
    {
        self.transport.mpu9250_read(MPU9250::WHO_AM_I)
    }

    /// Begins a read of the AK8963's `WIA` register.
    pub fn ak8963_who_am_i(&self) -> (a: Access)
        ensures
            a == Access::start(self.spec_transport().spec_kind(), Op::AkRead(AK8963::WIA)),
    {
        self.transport.ak8963_read(AK8963::WIA)
    }
}

} // verus!
