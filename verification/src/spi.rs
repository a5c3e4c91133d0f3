//! SPI transport: the MPU-9250 is reached through 16-bit frames, and the
//! AK8963 through the MPU-9250's own I2C master.

use crate::bits::{join, spec_be_counts, spec_le_counts};
use crate::bringup::{Bringup, Stage};
use crate::config::Config;
use crate::handle::Handle;
use crate::mpu::{scaled, scaled_mag, Mpu};
use crate::private::Sealed;
use crate::ratio::Ratio;
use crate::regs::{AK8963, MPU9250};
use crate::transport::{Access, Kind, Op, Transport};
use crate::triplet::Triplet;
use vstd::prelude::*;

verus! {

/// The frame that reads the register at `address`: the address with the
/// read bit set in the high byte, nothing in the low byte.
pub open spec fn spec_read(address: MPU9250) -> u16 {
    ((address.addr() + 128) * 256) as u16
}

/// The frame that writes `value` to the register at `address`: the address
/// in the high byte, the value in the low byte.
pub open spec fn spec_write(address: MPU9250, value: u8) -> u16 {
    (address.addr() * 256 + value) as u16
}

/// The data byte of a frame: its low byte.
pub open spec fn spec_low_byte(word: u16) -> u8 {
    (word % 256) as u8
}

/// What shifts and masks do to the two bytes of a frame.
pub proof fn lemma_frames(address: u8, value: u8, word: u16)
    by (bit_vector)
    ensures
        address < 128 ==> ((address as u16) | 0x80u16) << 8 == (address + 128) * 256,
        address < 128 ==> ((address as u16) << 8) | (value as u16) == address * 256 + value,
        word & 0xFF == word % 256,
        value & 0xFF == value,
        0x0Cu8 | 0x80u8 == 0x8Cu8,
{
}

/// The frame that reads the register at `address`.
#[verifier::when_used_as_spec(spec_read)]
pub fn read(address: MPU9250) -> (r: u16)
    ensures
        r == spec_read(address),
        r / 256 == address.addr() + 128,
        r % 256 == 0,
{
    let a = address.addr();
    proof {
        lemma_frames(a, 0, 0);
    }
    ((a as u16) | 0x80) << 8
}

/// The frame that writes `value` to the register at `address`.
#[verifier::when_used_as_spec(spec_write)]
pub fn write(address: MPU9250, value: u8) -> (r: u16)
    ensures
        r == spec_write(address, value),
        r / 256 == address.addr(),
        r % 256 == value,
{
    let a = address.addr();
    proof {
        lemma_frames(a, value, 0);
    }
    ((a as u16) << 8) | (value as u16)
}

/// The data byte of a frame.
#[verifier::when_used_as_spec(spec_low_byte)]
pub fn low_byte(word: u16) -> (r: u8)
    ensures
        r == spec_low_byte(word),
{
    proof {
        lemma_frames(0, 0, word);
    }
    (word & 0xFF) as u8
}

/// SPI communication transport for the MPU-9250, around the SPI peripheral.
pub struct Spi<S>(pub S);

impl<S> Sealed for Spi<S> {

}

impl<S> Transport for Spi<S> {
    open spec fn spec_kind(&self) -> Kind {
        Kind::Spi
    }

    fn kind(&self) -> (k: Kind) {
        Kind::Spi
    }

    fn mpu9250_read(&self, register: MPU9250) -> (a: Access) {
        Access::start(Kind::Spi, Op::MpuRead(register))
    }

    fn mpu9250_write(&self, register: MPU9250, value: u8) -> (a: Access) {
        Access::start(Kind::Spi, Op::MpuWrite(register, value))
    }

    fn ak8963_read(&self, register: AK8963) -> (a: Access) {
        Access::start(Kind::Spi, Op::AkRead(register))
    }

    fn ak8963_write(&self, register: AK8963, value: u8) -> (a: Access) {
        Access::start(Kind::Spi, Op::AkWrite(register, value))
    }
}

/// Begins the bring-up of an MPU-9250 over SPI. The bring-up takes the
/// peripheral; the device that comes out of it holds it.
pub fn new<S>(spi: S, config: &Config) -> (r: Bringup<Spi<S>>)
    ensures
        r.spec_transport().0 == spi,
        r.spec_stage() == Stage::start(Kind::Spi, *config),
{
    Bringup::new(Spi(spi), config)
}

/// Releases the SPI peripheral, along with the handle from which the device
/// can be formed again.
pub fn release<S>(mpu: Mpu<Spi<S>>) -> (r: (S, Handle))
    ensures
        r.0 == mpu.spec_transport().0,
        r.1 == mpu.spec_handle(),
{
    let (transport, handle) = mpu.split();
    (transport.0, handle)
}

/// Forms a device again from an SPI peripheral and a handle.
///
/// The caller answers for the handle being the one of the device behind
/// this peripheral.
pub fn from_handle<S>(spi: S, handle: Handle) -> (r: Mpu<Spi<S>>)
    ensures
        r.spec_transport().0 == spi,
        r.spec_handle() == handle,
{
    Mpu::join(Spi(spi), handle)
}

/// A device that is released and formed again from what came out is the
/// device it was: it has the same peripheral and the same handle, so it
/// turns the same frames into the same readings.
pub proof fn law_release_from_handle<S>(mpu: Mpu<Spi<S>>, again: Mpu<Spi<S>>)
    requires
        again.spec_transport().0 == mpu.spec_transport().0,
        again.spec_handle() == mpu.spec_handle(),
    ensures
        again == mpu,
        forall|buffer: [u16; 6]| again.spec_accelerometer(&buffer) == mpu.spec_accelerometer(&buffer),
        forall|buffer: [u16; 6]| again.spec_gyroscope(&buffer) == mpu.spec_gyroscope(&buffer),
        forall|buffer: [u16; 6]| again.spec_magnetometer(&buffer) == mpu.spec_magnetometer(&buffer),
{
    again.lemma_same(mpu);
}

/// Lends the SPI peripheral inside the device to `f`, for a quick change
/// such as another clock speed, without releasing the device. The caller
/// answers for the peripheral still being usable afterwards.
pub fn configure<S, R, F: FnOnce(&mut S) -> R>(mpu: &mut Mpu<Spi<S>>, f: F) -> (r: R)
    requires
        forall|spi: &mut S| f.requires((spi,)),
    ensures
        final(mpu).spec_handle() == old(mpu).spec_handle(),
        exists|spi: &mut S|
            *spi == old(mpu).spec_transport().0 && *final(spi) == final(mpu).spec_transport().0
                && f.ensures((spi,), r),
{
    f(&mut mpu.transport_mut().0)
}

/// The data bytes of captured frames.
pub open spec fn data(frames: Seq<u16>) -> Seq<u8> {
    Seq::new(frames.len(), |i: int| low_byte(frames[i]))
}

/// Three counts from the data bytes of six consecutive frames, each most
/// significant byte first.
fn be_counts(frames: &[u16], at: usize) -> (r: Triplet<i16>)
    requires
        at + 6 <= frames.len(),
    ensures
        r == spec_be_counts(data(frames@), at as int),
{
    Triplet {
        x: join(low_byte(frames[at]), low_byte(frames[at + 1])),
        y: join(low_byte(frames[at + 2]), low_byte(frames[at + 3])),
        z: join(low_byte(frames[at + 4]), low_byte(frames[at + 5])),
    }
}

/// Three counts from the data bytes of six consecutive frames, each least
/// significant byte first.
fn le_counts(frames: &[u16], at: usize) -> (r: Triplet<i16>)
    requires
        at + 6 <= frames.len(),
    ensures
        r == spec_le_counts(data(frames@), at as int),
{
    Triplet {
        x: join(low_byte(frames[at + 1]), low_byte(frames[at])),
        y: join(low_byte(frames[at + 3]), low_byte(frames[at + 2])),
        z: join(low_byte(frames[at + 5]), low_byte(frames[at + 4])),
    }
}

/// The frames to send for an accelerometer reading: reads of `ACCEL_XOUT_H`
/// to `ACCEL_ZOUT_L`, in one transfer.
pub fn accelerometer_frames() -> (r: [u16; 6])
    ensures
        r@ == seq![
            read(MPU9250::ACCEL_XOUT_H),
            read(MPU9250::ACCEL_XOUT_L),
            read(MPU9250::ACCEL_YOUT_H),
            read(MPU9250::ACCEL_YOUT_L),
            read(MPU9250::ACCEL_ZOUT_H),
            read(MPU9250::ACCEL_ZOUT_L),
        ],
{
    let r = [
        read(MPU9250::ACCEL_XOUT_H),
        read(MPU9250::ACCEL_XOUT_L),
        read(MPU9250::ACCEL_YOUT_H),
        read(MPU9250::ACCEL_YOUT_L),
        read(MPU9250::ACCEL_ZOUT_H),
        read(MPU9250::ACCEL_ZOUT_L),
    ];
    assert(r@ =~= seq![
        read(MPU9250::ACCEL_XOUT_H),
        read(MPU9250::ACCEL_XOUT_L),
        read(MPU9250::ACCEL_YOUT_H),
        read(MPU9250::ACCEL_YOUT_L),
        read(MPU9250::ACCEL_ZOUT_H),
        read(MPU9250::ACCEL_ZOUT_L),
    ]);
    r
}

/// The frames to send for a gyroscope reading: reads of `GYRO_XOUT_H` to
/// `GYRO_ZOUT_L`, in one transfer.
pub fn gyroscope_frames() -> (r: [u16; 6])
    ensures
        r@ == seq![
            read(MPU9250::GYRO_XOUT_H),
            read(MPU9250::GYRO_XOUT_L),
            read(MPU9250::GYRO_YOUT_H),
            read(MPU9250::GYRO_YOUT_L),
            read(MPU9250::GYRO_ZOUT_H),
            read(MPU9250::GYRO_ZOUT_L),
        ],
{
    let r = [
        read(MPU9250::GYRO_XOUT_H),
        read(MPU9250::GYRO_XOUT_L),
        read(MPU9250::GYRO_YOUT_H),
        read(MPU9250::GYRO_YOUT_L),
        read(MPU9250::GYRO_ZOUT_H),
        read(MPU9250::GYRO_ZOUT_L),
    ];
    assert(r@ =~= seq![
        read(MPU9250::GYRO_XOUT_H),
        read(MPU9250::GYRO_XOUT_L),
        read(MPU9250::GYRO_YOUT_H),
        read(MPU9250::GYRO_YOUT_L),
        read(MPU9250::GYRO_ZOUT_H),
        read(MPU9250::GYRO_ZOUT_L),
    ]);
    r
}

/// The frames to send for a magnetometer reading: reads of
/// `EXT_SENS_DATA_00` to `EXT_SENS_DATA_05`, where slave 0 puts the AK8963's
/// data bytes at every sample.
pub fn magnetometer_frames() -> (r: [u16; 6])
    ensures
        r@ == seq![
            read(MPU9250::EXT_SENS_DATA_00),
            read(MPU9250::EXT_SENS_DATA_01),
            read(MPU9250::EXT_SENS_DATA_02),
            read(MPU9250::EXT_SENS_DATA_03),
            read(MPU9250::EXT_SENS_DATA_04),
            read(MPU9250::EXT_SENS_DATA_05),
        ],
{
    let r = [
        read(MPU9250::EXT_SENS_DATA_00),
        read(MPU9250::EXT_SENS_DATA_01),
        read(MPU9250::EXT_SENS_DATA_02),
        read(MPU9250::EXT_SENS_DATA_03),
        read(MPU9250::EXT_SENS_DATA_04),
        read(MPU9250::EXT_SENS_DATA_05),
    ];
    assert(r@ =~= seq![
        read(MPU9250::EXT_SENS_DATA_00),
        read(MPU9250::EXT_SENS_DATA_01),
        read(MPU9250::EXT_SENS_DATA_02),
        read(MPU9250::EXT_SENS_DATA_03),
        read(MPU9250::EXT_SENS_DATA_04),
        read(MPU9250::EXT_SENS_DATA_05),
    ]);
    r
}

/// The frames to send for acceleration and angular rate of one sample: reads
/// of `ACCEL_XOUT_H` to `GYRO_ZOUT_L`, the temperature in between included,
/// in one transfer.
pub fn dof6_frames() -> (r: [u16; 14])
    ensures
        r@ == seq![
            read(MPU9250::ACCEL_XOUT_H),
            read(MPU9250::ACCEL_XOUT_L),
            read(MPU9250::ACCEL_YOUT_H),
            read(MPU9250::ACCEL_YOUT_L),
            read(MPU9250::ACCEL_ZOUT_H),
            read(MPU9250::ACCEL_ZOUT_L),
            read(MPU9250::TEMP_OUT_H),
            read(MPU9250::TEMP_OUT_L),
            read(MPU9250::GYRO_XOUT_H),
            read(MPU9250::GYRO_XOUT_L),
            read(MPU9250::GYRO_YOUT_H),
            read(MPU9250::GYRO_YOUT_L),
            read(MPU9250::GYRO_ZOUT_H),
            read(MPU9250::GYRO_ZOUT_L),
        ],
{
    let r = [
        read(MPU9250::ACCEL_XOUT_H),
        read(MPU9250::ACCEL_XOUT_L),
        read(MPU9250::ACCEL_YOUT_H),
        read(MPU9250::ACCEL_YOUT_L),
        read(MPU9250::ACCEL_ZOUT_H),
        read(MPU9250::ACCEL_ZOUT_L),
        read(MPU9250::TEMP_OUT_H),
        read(MPU9250::TEMP_OUT_L),
        read(MPU9250::GYRO_XOUT_H),
        read(MPU9250::GYRO_XOUT_L),
        read(MPU9250::GYRO_YOUT_H),
        read(MPU9250::GYRO_YOUT_L),
        read(MPU9250::GYRO_ZOUT_H),
        read(MPU9250::GYRO_ZOUT_L),
    ];
    assert(r@ =~= seq![
        read(MPU9250::ACCEL_XOUT_H),
        read(MPU9250::ACCEL_XOUT_L),
        read(MPU9250::ACCEL_YOUT_H),
        read(MPU9250::ACCEL_YOUT_L),
        read(MPU9250::ACCEL_ZOUT_H),
        read(MPU9250::ACCEL_ZOUT_L),
        read(MPU9250::TEMP_OUT_H),
        read(MPU9250::TEMP_OUT_L),
        read(MPU9250::GYRO_XOUT_H),
        read(MPU9250::GYRO_XOUT_L),
        read(MPU9250::GYRO_YOUT_H),
        read(MPU9250::GYRO_YOUT_L),
        read(MPU9250::GYRO_ZOUT_H),
        read(MPU9250::GYRO_ZOUT_L),
    ]);
    r
}

impl<S> Mpu<Spi<S>> {
    /// The SPI peripheral, to perform a transfer on it.
    pub fn bus(&mut self) -> (r: &mut S)
        ensures
            *r == old(self).spec_transport().0,
            final(self).spec_transport().0 == *final(r),
            final(self).spec_handle() == old(self).spec_handle(),
    {
        &mut self.transport_mut().0
    }

    /// Acceleration in g that the frames captured for
    /// [`accelerometer_frames`] hold.
    pub open spec fn spec_accelerometer(&self, buffer: &[u16; 6]) -> Triplet<Ratio> {
        scaled(self.spec_handle().spec_acc_resolution(), spec_be_counts(data(buffer@), 0))
    }

    /// Angular rate in degrees per second that the frames captured for
    /// [`gyroscope_frames`] hold.
    pub open spec fn spec_gyroscope(&self, buffer: &[u16; 6]) -> Triplet<Ratio> {
        scaled(self.spec_handle().spec_gyro_resolution(), spec_be_counts(data(buffer@), 0))
    }

    /// Magnetic field that the frames captured for [`magnetometer_frames`]
    /// hold.
    pub open spec fn spec_magnetometer(&self, buffer: &[u16; 6]) -> Triplet<Ratio> {
        scaled_mag(
            self.spec_handle().spec_mag_resolution(),
            self.spec_handle().spec_mag_sensitivity(),
            spec_le_counts(data(buffer@), 0),
        )
    }

    /// Acceleration in g: the three counts in the data bytes of `buffer`,
    /// most significant byte first, each times the accelerometer's
    /// resolution.
    #[verifier::when_used_as_spec(spec_accelerometer)]
    pub fn accelerometer(&self, buffer: &[u16; 6]) -> (r: Triplet<Ratio>)
        ensures
            r == self.spec_accelerometer(buffer),
            r.x.wf() && r.y.wf() && r.z.wf(),
    {
        self.scale_acc(be_counts(buffer.as_slice(), 0))
    }

    /// Angular rate in degrees per second: the three counts in the data
    /// bytes of `buffer`, most significant byte first, each times the
    /// gyroscope's resolution.
    #[verifier::when_used_as_spec(spec_gyroscope)]
    pub fn gyroscope(&self, buffer: &[u16; 6]) -> (r: Triplet<Ratio>)
        ensures
            r == self.spec_gyroscope(buffer),
            r.x.wf() && r.y.wf() && r.z.wf(),
    {
        self.scale_gyro(be_counts(buffer.as_slice(), 0))
    }

    /// Magnetic field in the frame of accelerometer and gyroscope: the three
    /// counts in the data bytes of `buffer`, least significant byte first,
    /// aligned, scaled and adjusted.
    #[verifier::when_used_as_spec(spec_magnetometer)]
    pub fn magnetometer(&self, buffer: &[u16; 6]) -> (r: Triplet<Ratio>)
        ensures
            r == self.spec_magnetometer(buffer),
            r.x.wf() && r.y.wf() && r.z.wf(),
    {
        self.scale_mag(le_counts(buffer.as_slice(), 0))
    }

    /// Acceleration and angular rate of one sample: frames 0 to 5 of
    /// `buffer` hold the accelerometer's bytes, frames 8 to 13 the
    /// gyroscope's; frames 6 and 7 hold the temperature and are passed over.
    pub fn dof6(&self, buffer: &[u16; 14]) -> (r: (Triplet<Ratio>, Triplet<Ratio>))
        ensures
            r.0 == scaled(
                self.spec_handle().spec_acc_resolution(),
                spec_be_counts(data(buffer@), 0),
            ),
            r.1 == scaled(
                self.spec_handle().spec_gyro_resolution(),
                spec_be_counts(data(buffer@), 8),
            ),
    {
        (
            self.scale_acc(be_counts(buffer.as_slice(), 0)),
            self.scale_gyro(be_counts(buffer.as_slice(), 8)),
        )
    }

    /// Acceleration, angular rate and magnetic field: what [`Mpu::dof6`]
    /// makes of its frames, then what [`Mpu::magnetometer`] makes of its own.
    pub fn marg(&self, motion: &[u16; 14], field: &[u16; 6]) -> (r: (
        Triplet<Ratio>,
        Triplet<Ratio>,
        Triplet<Ratio>,
    ))
        ensures
            r.0 == scaled(
                self.spec_handle().spec_acc_resolution(),
                spec_be_counts(data(motion@), 0),
            ),
            r.1 == scaled(
                self.spec_handle().spec_gyro_resolution(),
                spec_be_counts(data(motion@), 8),
            ),
            r.2 == self.spec_magnetometer(field),
    {
        let (acc, gyro) = self.dof6(motion);
        let mag = self.magnetometer(field);
        (acc, gyro, mag)
    }
}

impl<S> Bringup<Spi<S>> {
    /// The SPI peripheral, to perform the due transfer on it.
    pub fn bus(&mut self) -> (r: &mut S)
        ensures
            *r == old(self).spec_transport().0,
            final(self).spec_transport().0 == *final(r),
            final(self).spec_stage() == old(self).spec_stage(),
    {
        &mut self.transport_mut().0
    }
}

} // verus!
