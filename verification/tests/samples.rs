use invensense_mpu::bits::{be_counts, join, le_counts};
use invensense_mpu::bringup::Step;
use invensense_mpu::config::Config;
use invensense_mpu::handle::{accel_full_scale, gyro_full_scale, sensitivity};
use invensense_mpu::i2c::{self, Bypass, Burst};
use invensense_mpu::mpu::{align, scale, Mpu};
use invensense_mpu::ratio::Ratio;
use invensense_mpu::regs::ak8963::flags::{CNTL1, CNTL1_MODE, CNTL1_OUTPUT};
use invensense_mpu::regs::mpu9250::flags::{ACCEL_FS_SEL, GYRO_FS_SEL};
use invensense_mpu::spi::{self, Spi};
use invensense_mpu::transport::{Kind, Request, Transport};
use invensense_mpu::triplet::Triplet;

fn value(r: Ratio) -> f64 {
    r.num as f64 / r.den as f64
}

fn values(t: Triplet<Ratio>) -> (f64, f64, f64) {
    (value(t.x), value(t.y), value(t.z))
}

/// Brings a device up over a bus that answers every read from `fuse` where
/// the fuses are read and with the accepted identities elsewhere.
fn device<T: Transport>(
    mut bringup: invensense_mpu::bringup::Bringup<T>,
    fuse: [u8; 3],
) -> Mpu<T> {
    let kind = bringup.stage().kind;
    loop {
        let stage = bringup.stage();
        let reading = stage.pc as i64 - if kind == Kind::Spi { 9 } else { 8 };
        let reply: u16 = match bringup.request() {
            Request::I2cWriteRead { .. } => match reading {
                0 => 0x71,
                1 => 0x48,
                5 => fuse[0] as u16,
                6 => fuse[1] as u16,
                7 => fuse[2] as u16,
                _ => 0x00,
            },
            Request::SpiTransfer { word } => match word >> 8 {
                0xF5 => 0x71,
                0xB6 => 0x40,
                0xB5 => match reading {
                    1 => 0x48,
                    5 => fuse[0] as u16,
                    6 => fuse[1] as u16,
                    7 => fuse[2] as u16,
                    _ => 0x00,
                },
                _ => 0,
            },
            _ => 0,
        };
        bringup = match bringup.advance::<()>(Ok(reply)) {
            Step::Pending(next) => next,
            Step::Ready(mpu) => return mpu,
            Step::Failed(e) => panic!("bring-up failed: {:?}", e),
        };
    }
}

fn i2c_device(config: &Config, fuse: [u8; 3]) -> Mpu<Bypass<()>> {
    device(i2c::new((), config), fuse)
}

fn spi_device(config: &Config, fuse: [u8; 3]) -> Mpu<Spi<()>> {
    device(spi::new((), config), fuse)
}

#[test]
fn counts_are_joined_as_twos_complement() {
    assert_eq!(join(0x40, 0x00), 16384);
    assert_eq!(join(0xC0, 0x00), -16384);
    assert_eq!(join(0x7F, 0xFF), 32767);
    assert_eq!(join(0x80, 0x00), -32768);
    assert_eq!(join(0xFF, 0xFF), -1);
    assert_eq!(join(0x00, 0x01), 1);
    for hi in 0..=255u8 {
        for lo in [0u8, 1, 0x7F, 0x80, 0xFF] {
            assert_eq!(join(hi, lo), i16::from_be_bytes([hi, lo]));
        }
    }
    let bytes = [0x12, 0x34, 0x56, 0x78, 0x9A, 0xBC, 0xDE];
    assert_eq!(be_counts(&bytes, 0), Triplet { x: 0x1234, y: 0x5678, z: 0x9ABCu16 as i16 });
    assert_eq!(le_counts(&bytes, 1), Triplet { x: 0x5634, y: 0x9A78u16 as i16, z: 0xDEBCu16 as i16 });
}

#[test]
fn accel_read_at_2g() {
    let mpu = i2c_device(&Config::default(), [0x80; 3]);
    let reading = mpu.accelerometer(&[0x40, 0x00, 0x00, 0x00, 0xC0, 0x00]);
    assert_eq!(reading.x, Ratio { num: 2 * 16384, den: 32768 });
    assert_eq!(reading.y, Ratio { num: 0, den: 32768 });
    assert_eq!(reading.z, Ratio { num: -2 * 16384, den: 32768 });
    assert_eq!(values(reading), (1.0, 0.0, -1.0));
}

#[test]
fn gyro_read_at_500dps() {
    let mut config = Config::default();
    config.gyro_scale = GYRO_FS_SEL::DPS500;
    let mpu = i2c_device(&config, [0x80; 3]);
    let reading = mpu.gyroscope(&[0x20, 0x00, 0x00, 0x00, 0xE0, 0x00]);
    assert_eq!(reading.x, Ratio { num: 500 * 8192, den: 32768 });
    assert_eq!(values(reading), (125.0, 0.0, -125.0));
}

#[test]
fn mag_read_14_bit_with_unit_sensitivity() {
    let mpu = i2c_device(&Config::default(), [0x80; 3]);
    let raw = [0xFF, 0x1F, 0x00, 0x00, 0x01, 0xE0, 0x10];
    assert_eq!(le_counts(&raw, 0), Triplet { x: 8191, y: 0, z: -8191 });
    assert_eq!(align(le_counts(&raw, 0)), Triplet { x: 0, y: 8191, z: 8191 });
    let reading = mpu.magnetometer(&raw);
    assert_eq!(reading.x, Ratio { num: 0, den: 8190 * 256 });
    assert_eq!(reading.y, Ratio { num: 8191 * 49120 * 256, den: 8190 * 256 });
    assert_eq!(reading.z, Ratio { num: 8191 * 49120 * 256, den: 8190 * 256 });
    let (x, y, z) = values(reading);
    let expected = 8191.0 * 10.0 * 4912.0 / 8190.0;
    assert_eq!(x, 0.0);
    assert!((y - expected).abs() < 1e-9);
    assert!((z - expected).abs() < 1e-9);
    // the same field in the units of the data sheet's 4912 at full scale
    assert!((y / 10.0 - 4912.0).abs() < 1.0);
}

#[test]
fn mag_read_16_bit_with_sensitivity() {
    let mut config = Config::default();
    config.mag_control = CNTL1 {
        mode: CNTL1_MODE::CONTINUOUS_2,
        output: CNTL1_OUTPUT::from_bits_truncate(CNTL1_OUTPUT::SIXTEEN_BIT_EN),
    };
    let mpu = i2c_device(&config, [0x00, 0x80, 0xFF]);
    // counts (100, -200, 300) become (-200, 100, -300)
    let reading = mpu.magnetometer(&[100, 0, 0x38, 0xFF, 0x2C, 0x01, 0x00]);
    assert_eq!(reading.x, Ratio { num: -200 * 49120 * 128, den: 32760 * 256 });
    assert_eq!(reading.y, Ratio { num: 100 * 49120 * 256, den: 32760 * 256 });
    assert_eq!(reading.z, Ratio { num: -300 * 49120 * 383, den: 32760 * 256 });
}

#[test]
fn magnetometer_read_covers_st2() {
    let burst = i2c::magnetometer_burst();
    assert_eq!(burst, Burst { address: 0x0C, register: 0x03, len: 7 });
    assert_eq!(burst.register as usize + burst.len - 1, 0x09);
    assert_eq!(i2c::accelerometer_burst(), Burst { address: 0x68, register: 0x3B, len: 6 });
    assert_eq!(i2c::gyroscope_burst(), Burst { address: 0x68, register: 0x43, len: 6 });
    assert_eq!(i2c::dof6_burst(), Burst { address: 0x68, register: 0x3B, len: 14 });
}

#[test]
fn dof6_passes_over_the_temperature() {
    let mut config = Config::default();
    config.accel_scale = ACCEL_FS_SEL::G4;
    config.gyro_scale = GYRO_FS_SEL::DPS2000;
    let mpu = i2c_device(&config, [0x80; 3]);
    let buffer = [0x40, 0, 0x20, 0, 0xE0, 0, 0x7F, 0x7F, 0x10, 0, 0xF0, 0, 0x00, 0x10];
    let (acc, gyro) = mpu.dof6(&buffer);
    assert_eq!(values(acc), (2.0, 1.0, -1.0));
    assert_eq!(values(gyro), (250.0, -250.0, 2000.0 * 16.0 / 32768.0));
    let field = [0u8; 7];
    let (a, g, m) = mpu.marg(&buffer, &field);
    assert_eq!((a, g), (acc, gyro));
    assert_eq!(m, mpu.magnetometer(&field));
}

#[test]
fn full_scale_counts_read_as_whole_units() {
    for (scale_sel, f) in [
        (ACCEL_FS_SEL::G2, 2i64),
        (ACCEL_FS_SEL::G4, 4),
        (ACCEL_FS_SEL::G8, 8),
        (ACCEL_FS_SEL::G16, 16),
    ] {
        assert_eq!(accel_full_scale(scale_sel), f);
        let mut config = Config::default();
        config.accel_scale = scale_sel;
        let mpu = i2c_device(&config, [0x80; 3]);
        for k in 1..f {
            let count = (32768 * k / f) as i16;
            let r = mpu.scale_acc(Triplet { x: count, y: -count, z: 0 });
            assert_eq!(r.x.num, k * r.x.den);
            assert_eq!(r.y.num, -k * r.y.den);
            assert_eq!(values(r), (k as f64, -(k as f64), 0.0));
        }
        let r = mpu.scale_acc(Triplet { x: i16::MIN, y: 0, z: 0 });
        assert_eq!(value(r.x), -(f as f64));
    }
}

#[test]
fn gyro_counts_scale_by_full_scale() {
    for (scale_sel, f) in [
        (GYRO_FS_SEL::DPS250, 250i64),
        (GYRO_FS_SEL::DPS500, 500),
        (GYRO_FS_SEL::DPS1000, 1000),
        (GYRO_FS_SEL::DPS2000, 2000),
    ] {
        assert_eq!(gyro_full_scale(scale_sel), f);
        let mut config = Config::default();
        config.gyro_scale = scale_sel;
        let mpu = i2c_device(&config, [0x80; 3]);
        for n in [i16::MIN, -12345, -1, 0, 1, 777, i16::MAX] {
            let r = mpu.scale_gyro(Triplet { x: n, y: n, z: n });
            assert_eq!(r.x, Ratio { num: n as i64 * f, den: 32768 });
            assert_eq!(r.x.num * 32768, n as i64 * f * r.x.den);
        }
    }
}

#[test]
fn fuse_bytes_give_sensitivity() {
    for b in 0..=255u8 {
        let s = sensitivity(b);
        assert_eq!(s, Ratio { num: b as i64 + 128, den: 256 });
        assert_eq!(value(s), (b as f64 - 128.0) / 256.0 + 1.0);
        assert!(value(s) >= 0.5 && value(s) < 2.0);
    }
    assert_eq!(value(sensitivity(0x80)), 1.0);
}

#[test]
fn alignment_is_an_involution() {
    for z in [i16::MIN, i16::MIN + 1, -1, 0, 1, i16::MAX] {
        let raw = Triplet { x: 17, y: -4, z };
        assert_eq!(align(align(raw)), raw);
        assert_eq!(align(raw).x, -4);
        assert_eq!(align(raw).y, 17);
        assert_eq!(align(raw).z, z.wrapping_neg());
    }
}

#[test]
fn scale_multiplies_each_count() {
    let r = scale(Ratio { num: 49120, den: 8190 }, Triplet { x: 1, y: -2, z: i16::MIN });
    assert_eq!(r.x, Ratio { num: 49120, den: 8190 });
    assert_eq!(r.y, Ratio { num: -98240, den: 8190 });
    assert_eq!(r.z, Ratio { num: -49120 * 32768, den: 8190 });
}

#[test]
fn spi_readings_use_the_data_byte_of_each_frame() {
    let mpu = spi_device(&Config::default(), [0x80, 0x80, 0x80]);
    assert_eq!(spi::accelerometer_frames(), [0xBB00, 0xBC00, 0xBD00, 0xBE00, 0xBF00, 0xC000]);
    assert_eq!(spi::gyroscope_frames(), [0xC300, 0xC400, 0xC500, 0xC600, 0xC700, 0xC800]);
    assert_eq!(spi::magnetometer_frames(), [0xC900, 0xCA00, 0xCB00, 0xCC00, 0xCD00, 0xCE00]);
    assert_eq!(
        spi::dof6_frames(),
        [
            0xBB00, 0xBC00, 0xBD00, 0xBE00, 0xBF00, 0xC000, 0xC100, 0xC200, 0xC300, 0xC400,
            0xC500, 0xC600, 0xC700, 0xC800
        ]
    );
    let acc = mpu.accelerometer(&[0xAA40, 0xBB00, 0x0000, 0xFF00, 0x00C0, 0x1200]);
    assert_eq!(values(acc), (1.0, 0.0, -1.0));
    let gyro = mpu.gyroscope(&[0x0020, 0x0000, 0x0000, 0x0000, 0x00E0, 0x0000]);
    assert_eq!(values(gyro), (62.5, 0.0, -62.5));
    let mag = mpu.magnetometer(&[0x00FF, 0x001F, 0x0000, 0x0000, 0x0001, 0x00E0]);
    assert_eq!(mag.x.num, 0);
    assert_eq!(mag.y, Ratio { num: 8191 * 49120 * 256, den: 8190 * 256 });
    assert_eq!(mag.z, mag.y);
    let motion = [0x40, 0, 0, 0, 0xC0, 0, 0x11, 0x22, 0x20, 0, 0, 0, 0xE0, 0];
    let (a, g) = mpu.dof6(&motion);
    assert_eq!((a, g), (acc, gyro));
    let (a, g, m) = mpu.marg(&motion, &[0xFF, 0x1F, 0, 0, 0x01, 0xE0]);
    assert_eq!((a, g, m), (acc, gyro, mag));
}

#[test]
fn spi_device_can_be_released_and_reformed() {
    let mut mpu = device(spi::new(5u32, &Config::default()), [0x90, 0x80, 0x70]);
    assert_eq!(*mpu.bus(), 5);
    let doubled = spi::configure(&mut mpu, |bus| {
        *bus += 1;
        *bus * 2
    });
    assert_eq!(doubled, 12);
    let frames = [0x12, 0x34, 0x56, 0x78, 0x9A, 0xBC];
    let before = (mpu.accelerometer(&frames), mpu.gyroscope(&frames), mpu.magnetometer(&frames));
    let sensitivity = mpu.handle().mag_sensitivity();
    let (bus, handle) = spi::release(mpu);
    assert_eq!(bus, 6);
    let again = spi::from_handle(bus, handle);
    assert_eq!(again.handle().mag_sensitivity(), sensitivity);
    let after =
        (again.accelerometer(&frames), again.gyroscope(&frames), again.magnetometer(&frames));
    assert_eq!(before, after);
}

#[test]
fn who_am_i_reads_after_bring_up() {
    let mpu = i2c_device(&Config::default(), [0x80; 3]);
    assert_eq!(mpu.mpu9250_who_am_i().request(), Request::I2cWriteRead { address: 0x68, register: 0x75 });
    assert_eq!(mpu.ak8963_who_am_i().request(), Request::I2cWriteRead { address: 0x0C, register: 0x00 });
    let mpu = spi_device(&Config::default(), [0x80; 3]);
    assert_eq!(mpu.mpu9250_who_am_i().request(), Request::SpiTransfer { word: 0xF500 });
    assert_eq!(mpu.ak8963_who_am_i().request(), Request::SpiTransfer { word: 0x318C });
}
