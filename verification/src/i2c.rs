//! I2C transport: the MPU-9250 is put in bypass mode, and both devices are
//! addressed on the bus directly.

use crate::bits::{be_counts, le_counts, spec_be_counts, spec_le_counts};
use crate::bringup::{Bringup, Stage};
use crate::config::Config;
use crate::handle::Handle;
use crate::mpu::{scaled, scaled_mag, Mpu};
use crate::private::Sealed;
use crate::ratio::Ratio;
use crate::regs::{AK8963, AK8963_I2C_ADDRESS, MPU9250, MPU9250_I2C_ADDRESS};
use crate::transport::{Access, Kind, Op, Transport};
use crate::triplet::Triplet;
use vstd::prelude::*;

verus! {

/// Bypass I2C transport, around the I2C peripheral.
///
/// The AK8963 is talked to directly, with the MPU-9250's own I2C master
/// switched off.
pub struct Bypass<I>(pub I);

impl<I> Sealed for Bypass<I> {

}

impl<I> Transport for Bypass<I> {
    open spec fn spec_kind(&self) -> Kind {
        Kind::Bypass
    }

    fn kind(&self) -> (k: Kind) {
        Kind::Bypass
    }

    fn mpu9250_read(&self, register: MPU9250) -> (a: Access) {
        Access::start(Kind::Bypass, Op::MpuRead(register))
    }

    fn mpu9250_write(&self, register: MPU9250, value: u8) -> (a: Access) {
        Access::start(Kind::Bypass, Op::MpuWrite(register, value))
    }

    fn ak8963_read(&self, register: AK8963) -> (a: Access) {
        Access::start(Kind::Bypass, Op::AkRead(register))
    }

    fn ak8963_write(&self, register: AK8963, value: u8) -> (a: Access) {
        Access::start(Kind::Bypass, Op::AkWrite(register, value))
    }
}

/// Begins the bring-up of an MPU-9250 over I2C, in bypass mode. The
/// bring-up takes the peripheral; the device that comes out of it holds it.
pub fn new<I>(i2c: I, config: &Config) -> (r: Bringup<Bypass<I>>)
    ensures
        r.spec_transport().0 == i2c,
        r.spec_stage() == Stage::start(Kind::Bypass, *config),
{
    Bringup::new(Bypass(i2c), config)
}

/// Releases the I2C peripheral, along with the handle from which the device
/// can be formed again.
pub fn release<I>(mpu: Mpu<Bypass<I>>) -> (r: (I, Handle))
    ensures
        r.0 == mpu.spec_transport().0,
        r.1 == mpu.spec_handle(),
{
    let (transport, handle) = mpu.split();
    (transport.0, handle)
}

/// Forms a device again from an I2C peripheral and a handle.
///
/// The caller answers for the handle being the one of the device behind
/// this peripheral.
pub fn from_handle<I>(i2c: I, handle: Handle) -> (r: Mpu<Bypass<I>>)
    ensures
        r.spec_transport().0 == i2c,
        r.spec_handle() == handle,
{
    Mpu::join(Bypass(i2c), handle)
}

/// A device that is released and formed again from what came out is the
/// device it was: it has the same peripheral and the same handle, so it
/// turns the same bytes into the same readings.
pub proof fn law_release_from_handle<I>(mpu: Mpu<Bypass<I>>, again: Mpu<Bypass<I>>)
    requires
        again.spec_transport().0 == mpu.spec_transport().0,
        again.spec_handle() == mpu.spec_handle(),
    ensures
        again == mpu,
        forall|buffer: [u8; 6]| again.spec_accelerometer(&buffer) == mpu.spec_accelerometer(&buffer),
        forall|buffer: [u8; 6]| again.spec_gyroscope(&buffer) == mpu.spec_gyroscope(&buffer),
        forall|buffer: [u8; 7]| again.spec_magnetometer(&buffer) == mpu.spec_magnetometer(&buffer),
{
    again.lemma_same(mpu);
}

/// A read of consecutive registers in one I2C transaction.
#[derive(Debug, Clone, Copy, PartialEq, Eq, Structural)]
pub struct Burst {
    /// The device's I2C address
    pub address: u8,
    /// The first register to read
    pub register: u8,
    /// How many bytes to read
    pub len: usize,
}

/// The read that [`Mpu::accelerometer`] decodes: `ACCEL_XOUT_H` to
/// `ACCEL_ZOUT_L`.
pub fn accelerometer_burst() -> (r: Burst)
    ensures
        r == (Burst { address: 0x68, register: MPU9250::ACCEL_XOUT_H.addr(), len: 6 }),
{
    Burst { address: MPU9250_I2C_ADDRESS, register: MPU9250::ACCEL_XOUT_H.addr(), len: 6 }
}

/// The read that [`Mpu::gyroscope`] decodes: `GYRO_XOUT_H` to `GYRO_ZOUT_L`.
pub fn gyroscope_burst() -> (r: Burst)
    ensures
        r == (Burst { address: 0x68, register: MPU9250::GYRO_XOUT_H.addr(), len: 6 }),
{
    Burst { address: MPU9250_I2C_ADDRESS, register: MPU9250::GYRO_XOUT_H.addr(), len: 6 }
}

/// The read that [`Mpu::magnetometer`] decodes: `HXL` to `ST2`. Reading
/// `ST2` is what lets the AK8963 take its next measurement, so the read is
/// seven bytes long though six hold data.
pub fn magnetometer_burst() -> (r: Burst)
    ensures
        r == (Burst { address: 0x0C, register: AK8963::HXL.addr(), len: 7 }),
        r.register + r.len - 1 == AK8963::ST2.addr(),
{
    Burst { address: AK8963_I2C_ADDRESS, register: AK8963::HXL.addr(), len: 7 }
}

/// The read that [`Mpu::dof6`] decodes: `ACCEL_XOUT_H` to `GYRO_ZOUT_L`, the
/// temperature in between included, so that acceleration and angular rate
/// come from one sample.
pub fn dof6_burst() -> (r: Burst)
    ensures
        r == (Burst { address: 0x68, register: MPU9250::ACCEL_XOUT_H.addr(), len: 14 }),
        r.register + r.len - 1 == MPU9250::GYRO_ZOUT_L.addr(),
{
    Burst { address: MPU9250_I2C_ADDRESS, register: MPU9250::ACCEL_XOUT_H.addr(), len: 14 }
}

impl<I> Mpu<Bypass<I>> {
    /// The I2C peripheral, to perform a transaction on it.
    pub fn bus(&mut self) -> (r: &mut I)
        ensures
            *r == old(self).spec_transport().0,
            final(self).spec_transport().0 == *final(r),
            final(self).spec_handle() == old(self).spec_handle(),
    {
        &mut self.transport_mut().0
    }

    /// Acceleration in g that the bytes of an accelerometer read hold.
    pub open spec fn spec_accelerometer(&self, buffer: &[u8; 6]) -> Triplet<Ratio> {
        scaled(self.spec_handle().spec_acc_resolution(), spec_be_counts(buffer@, 0))
    }

    /// Angular rate in degrees per second that the bytes of a gyroscope read
    /// hold.
    pub open spec fn spec_gyroscope(&self, buffer: &[u8; 6]) -> Triplet<Ratio> {
        scaled(self.spec_handle().spec_gyro_resolution(), spec_be_counts(buffer@, 0))
    }

    /// Magnetic field that the bytes of a magnetometer read hold.
    pub open spec fn spec_magnetometer(&self, buffer: &[u8; 7]) -> Triplet<Ratio> {
        scaled_mag(
            self.spec_handle().spec_mag_resolution(),
            self.spec_handle().spec_mag_sensitivity(),
            spec_le_counts(buffer@, 0),
        )
    }

    /// Acceleration in g: the three counts of `buffer`, most significant
    /// byte first, each times the accelerometer's resolution.
    #[verifier::when_used_as_spec(spec_accelerometer)]
    pub fn accelerometer(&self, buffer: &[u8; 6]) -> (r: Triplet<Ratio>)
        ensures
            r == self.spec_accelerometer(buffer),
            r.x.wf() && r.y.wf() && r.z.wf(),
    {
        self.scale_acc(be_counts(buffer.as_slice(), 0))
    }

    /// Angular rate in degrees per second: the three counts of `buffer`,
    /// most significant byte first, each times the gyroscope's resolution.
    #[verifier::when_used_as_spec(spec_gyroscope)]
    pub fn gyroscope(&self, buffer: &[u8; 6]) -> (r: Triplet<Ratio>)
        ensures
            r == self.spec_gyroscope(buffer),
            r.x.wf() && r.y.wf() && r.z.wf(),
    {
        self.scale_gyro(be_counts(buffer.as_slice(), 0))
    }

    /// Magnetic field in the frame of accelerometer and gyroscope: the three
    /// counts of `buffer`, least significant byte first, aligned, scaled and
    /// adjusted. The seventh byte is `ST2`, which is read and not used.
    #[verifier::when_used_as_spec(spec_magnetometer)]
    pub fn magnetometer(&self, buffer: &[u8; 7]) -> (r: Triplet<Ratio>)
        ensures
            r == self.spec_magnetometer(buffer),
            r.x.wf() && r.y.wf() && r.z.wf(),
    {
        self.scale_mag(le_counts(buffer.as_slice(), 0))
    }

    /// Acceleration and angular rate of one sample: bytes 0 to 5 of `buffer`
    /// are the accelerometer's, bytes 8 to 13 the gyroscope's; bytes 6 and 7
    /// are the temperature and are passed over.
    pub fn dof6(&self, buffer: &[u8; 14]) -> (r: (Triplet<Ratio>, Triplet<Ratio>))
        ensures
            r.0 == scaled(self.spec_handle().spec_acc_resolution(), spec_be_counts(buffer@, 0)),
            r.1 == scaled(self.spec_handle().spec_gyro_resolution(), spec_be_counts(buffer@, 8)),
    {
        (
            self.scale_acc(be_counts(buffer.as_slice(), 0)),
            self.scale_gyro(be_counts(buffer.as_slice(), 8)),
        )
    }

    /// Acceleration, angular rate and magnetic field: what [`Mpu::dof6`]
    /// makes of its read, then what [`Mpu::magnetometer`] makes of its own.
    pub fn marg(&self, motion: &[u8; 14], field: &[u8; 7]) -> (r: (
        Triplet<Ratio>,
        Triplet<Ratio>,
        Triplet<Ratio>,
    ))
        ensures
            r.0 == scaled(self.spec_handle().spec_acc_resolution(), spec_be_counts(motion@, 0)),
            r.1 == scaled(self.spec_handle().spec_gyro_resolution(), spec_be_counts(motion@, 8)),
            r.2 == self.spec_magnetometer(field),
    {
        let (acc, gyro) = self.dof6(motion);
        let mag = self.magnetometer(field);
        (acc, gyro, mag)
    }
}

impl<I> Bringup<Bypass<I>> {
    /// The I2C peripheral, to perform the due transaction on it.
    pub fn bus(&mut self) -> (r: &mut I)
        ensures
            *r == old(self).spec_transport().0,
            final(self).spec_transport().0 == *final(r),
            final(self).spec_stage() == old(self).spec_stage(),
    {
        &mut self.transport_mut().0
    }
}

} // verus!
