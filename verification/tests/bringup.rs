use invensense_mpu::bringup::{Bringup, Step};
use invensense_mpu::config::Config;
use invensense_mpu::error::Error;
use invensense_mpu::i2c::{self, Bypass};
use invensense_mpu::mpu::Mpu;
use invensense_mpu::ratio::Ratio;
use invensense_mpu::regs::ak8963::flags::{CNTL1, CNTL1_MODE, CNTL1_OUTPUT};
use invensense_mpu::regs::mpu9250::flags::{ACCEL_FS_SEL, DLPF, FCHOICE, GYRO_FS_SEL};
use invensense_mpu::regs::AK8963;
use invensense_mpu::spi::{self, Spi};
use invensense_mpu::transport::Request;
use invensense_mpu::transport::Request::{DelayMs, I2cWrite, I2cWriteRead, SpiTransfer};
use invensense_mpu::triplet::Triplet;

/// An I2C bus with both devices on it. Reads answer from `who`, `wia`,
/// `cntl1` and `fuse`; everything asked of it is recorded.
struct I2cBench {
    who: u8,
    wia: u8,
    cntl1: u8,
    fuse: [u8; 3],
    asked: Vec<Request>,
}

impl I2cBench {
    fn new() -> Self {
        I2cBench { who: 0x71, wia: 0x48, cntl1: 0x00, fuse: [0x80; 3], asked: Vec::new() }
    }

    fn perform(&mut self, request: Request) -> Result<u16, ()> {
        self.asked.push(request);
        match request {
            I2cWriteRead { address: 0x68, register: 0x75 } => Ok(self.who as u16),
            I2cWriteRead { address: 0x0C, register: 0x00 } => Ok(self.wia as u16),
            I2cWriteRead { address: 0x0C, register: 0x0A } => Ok(self.cntl1 as u16),
            I2cWriteRead { address: 0x0C, register: 0x10 } => Ok(self.fuse[0] as u16),
            I2cWriteRead { address: 0x0C, register: 0x11 } => Ok(self.fuse[1] as u16),
            I2cWriteRead { address: 0x0C, register: 0x12 } => Ok(self.fuse[2] as u16),
            I2cWriteRead { .. } => panic!("unexpected read {:?}", request),
            SpiTransfer { .. } => panic!("SPI transfer on an I2C bus"),
            I2cWrite { .. } | DelayMs { .. } => Ok(0),
        }
    }
}

fn bring_up_i2c(bench: I2cBench, config: &Config) -> Result<Mpu<Bypass<I2cBench>>, Error<()>> {
    let mut bringup: Bringup<Bypass<I2cBench>> = i2c::new(bench, config);
    loop {
        let request = bringup.request();
        let reply = bringup.bus().perform(request);
        bringup = match bringup.advance(reply) {
            Step::Pending(next) => next,
            Step::Ready(mpu) => return Ok(mpu),
            Step::Failed(e) => return Err(e),
        };
    }
}

fn w68(register: u8, value: u8) -> Request {
    I2cWrite { address: 0x68, register, value }
}

fn w0c(register: u8, value: u8) -> Request {
    I2cWrite { address: 0x0C, register, value }
}

fn r68(register: u8) -> Request {
    I2cWriteRead { address: 0x68, register }
}

fn r0c(register: u8) -> Request {
    I2cWriteRead { address: 0x0C, register }
}

#[test]
fn default_i2c_bring_up_transcript() {
    let mpu = bring_up_i2c(I2cBench::new(), &Config::default()).unwrap();
    let (bench, handle) = i2c::release(mpu);
    let expected = vec![
        w68(0x6B, 0x80),
        DelayMs { ms: 10 },
        w68(0x6A, 0x00),
        w68(0x37, 0x02),
        w0c(0x0A, 0x00),
        DelayMs { ms: 10 },
        w0c(0x0B, 0x01),
        w68(0x6B, 0x01),
        r68(0x75),
        r0c(0x00),
        r0c(0x0A),
        w0c(0x0A, 0x0F),
        DelayMs { ms: 50 },
        r0c(0x10),
        r0c(0x11),
        r0c(0x12),
        w0c(0x0A, 0x00),
        DelayMs { ms: 20 },
        w68(0x1B, 0x00),
        w68(0x1A, 0x00),
        w68(0x1C, 0x00),
        w68(0x1D, 0x00),
        w68(0x19, 0x00),
        w0c(0x0A, 0x00),
    ];
    assert_eq!(bench.asked, expected);
    let one = Ratio { num: 256, den: 256 };
    assert_eq!(handle.mag_sensitivity(), Triplet { x: one, y: one, z: one });
    assert_eq!(handle.gyro_resolution(), Ratio { num: 250, den: 32768 });
    assert_eq!(handle.acc_resolution(), Ratio { num: 2, den: 32768 });
    assert_eq!(handle.mag_resolution(), Ratio { num: 49120, den: 8190 });
}

#[test]
fn i2c_bring_up_restores_cntl1_and_applies_configuration() {
    let mut bench = I2cBench::new();
    bench.who = 0x73;
    bench.cntl1 = 0x16;
    bench.fuse = [0x00, 0xFF, 0xB0];
    let mut config = Config::default();
    config.gyro_scale = GYRO_FS_SEL::DPS2000;
    config.fchoice = FCHOICE::_01;
    config.dlpf = DLPF::_4;
    config.accel_scale = ACCEL_FS_SEL::G8;
    config.sample_rate_divider = 9;
    config.mag_control = CNTL1 {
        mode: CNTL1_MODE::CONTINUOUS_2,
        output: CNTL1_OUTPUT::from_bits_truncate(CNTL1_OUTPUT::SIXTEEN_BIT_EN),
    };
    let mpu = bring_up_i2c(bench, &config).unwrap();
    let (bench, handle) = i2c::release(mpu);
    assert_eq!(bench.asked.len(), 24);
    assert_eq!(bench.asked[16], w0c(0x0A, 0x16));
    assert_eq!(
        &bench.asked[18..],
        &[
            w68(0x1B, 0x1A),
            w68(0x1A, 0x04),
            w68(0x1C, 0x10),
            w68(0x1D, 0x00),
            w68(0x19, 0x09),
            w0c(0x0A, 0x46),
        ]
    );
    assert_eq!(
        handle.mag_sensitivity(),
        Triplet {
            x: Ratio { num: 128, den: 256 },
            y: Ratio { num: 383, den: 256 },
            z: Ratio { num: 304, den: 256 },
        }
    );
    assert_eq!(handle.gyro_resolution(), Ratio { num: 2000, den: 32768 });
    assert_eq!(handle.acc_resolution(), Ratio { num: 8, den: 32768 });
    assert_eq!(handle.mag_resolution(), Ratio { num: 49120, den: 32760 });
}

#[test]
fn who_am_i_failure_stops_bring_up() {
    let mut bench = I2cBench::new();
    bench.who = 0x68;
    let mut bringup = i2c::new(bench, &Config::default());
    let mut asked = Vec::new();
    let error = loop {
        let request = bringup.request();
        asked.push(request);
        let reply = bringup.bus().perform(request);
        bringup = match bringup.advance(reply) {
            Step::Pending(next) => next,
            Step::Ready(_) => panic!("bring-up succeeded"),
            Step::Failed(e) => break e,
        };
    };
    match error {
        Error::WhoAmI { expected, actual } => {
            assert_eq!(expected, &[0x71, 0x73]);
            assert_eq!(actual, 0x68);
        }
        other => panic!("unexpected error {:?}", other),
    }
    assert_eq!(asked.len(), 9);
    assert_eq!(asked[8], r68(0x75));
}

#[test]
fn ak_who_am_i_failure_stops_bring_up() {
    for wia in [0x00u8, 0x47, 0x49, 0x71, 0xFF] {
        let mut bench = I2cBench::new();
        bench.wia = wia;
        match bring_up_i2c(bench, &Config::default()) {
            Err(Error::WhoAmI { expected, actual }) => {
                assert_eq!(expected, &[0x48]);
                assert_eq!(actual, wia);
            }
            Err(other) => panic!("unexpected error {:?}", other),
            Ok(_) => panic!("bring-up succeeded"),
        }
    }
}

#[test]
fn every_other_mpu_identity_is_refused() {
    for who in 0..=255u8 {
        let mut bench = I2cBench::new();
        bench.who = who;
        let result = bring_up_i2c(bench, &Config::default());
        if who == 0x71 || who == 0x73 {
            assert!(result.is_ok());
        } else {
            assert!(matches!(result, Err(Error::WhoAmI { actual, .. }) if actual == who));
        }
    }
}

#[test]
fn peripheral_error_is_handed_on() {
    let mut bringup = i2c::new((), &Config::default());
    for _ in 0..5 {
        bringup = match bringup.advance::<u32>(Ok(0)) {
            Step::Pending(next) => next,
            _ => panic!("bring-up ended early"),
        };
    }
    assert_eq!(bringup.request(), DelayMs { ms: 10 });
    match bringup.advance(Err(17u32)) {
        Step::Failed(Error::Peripheral(17)) => {}
        _ => panic!("the error was not handed on"),
    }
}

/// An MPU-9250 on SPI with an AK8963 behind its I2C master. Slave 4
/// exchanges complete at the first status read.
struct SpiBench {
    who: u8,
    slv4_reg: u8,
    asked: Vec<Request>,
}

impl SpiBench {
    fn new() -> Self {
        SpiBench { who: 0x71, slv4_reg: 0, asked: Vec::new() }
    }

    fn perform(&mut self, request: Request) -> Result<u16, ()> {
        self.asked.push(request);
        match request {
            DelayMs { .. } => Ok(0),
            SpiTransfer { word } => {
                let command = (word >> 8) as u8;
                let data = (word & 0xFF) as u8;
                if command & 0x80 == 0 {
                    if command == 0x32 {
                        self.slv4_reg = data;
                    }
                    return Ok(0);
                }
                let value = match command & 0x7F {
                    0x75 => self.who,
                    0x36 => 0x40,
                    0x35 => match self.slv4_reg {
                        0x00 => 0x48,
                        0x0A => 0x12,
                        0x10 => 0x80,
                        0x11 => 0x90,
                        0x12 => 0x70,
                        other => panic!("unexpected AK8963 read {:#04X}", other),
                    },
                    other => panic!("unexpected MPU-9250 read {:#04X}", other),
                };
                Ok(value as u16)
            }
            other => panic!("I2C transaction on an SPI bus: {:?}", other),
        }
    }
}

fn bring_up_spi(bench: SpiBench, config: &Config) -> Result<Mpu<Spi<SpiBench>>, Error<()>> {
    let mut bringup = spi::new(bench, config);
    loop {
        let request = bringup.request();
        let reply = bringup.bus().perform(request);
        bringup = match bringup.advance(reply) {
            Step::Pending(next) => next,
            Step::Ready(mpu) => return Ok(mpu),
            Step::Failed(e) => return Err(e),
        };
    }
}

fn sw(register: u8, value: u8) -> Request {
    SpiTransfer { word: ((register as u16) << 8) | value as u16 }
}

fn sr(register: u8) -> Request {
    SpiTransfer { word: ((register as u16) | 0x80) << 8 }
}

fn ak_write(register: u8, value: u8) -> Vec<Request> {
    vec![sw(0x31, 0x0C), sw(0x32, register), sw(0x33, value), sw(0x34, 0x80), sr(0x36)]
}

fn ak_read(register: u8) -> Vec<Request> {
    vec![sw(0x31, 0x8C), sw(0x32, register), sw(0x34, 0x80), sr(0x36), sr(0x35)]
}

#[test]
fn default_spi_bring_up_transcript() {
    let mpu = bring_up_spi(SpiBench::new(), &Config::default()).unwrap();
    let (bench, handle) = spi::release(mpu);
    let mut expected = vec![sw(0x6A, 0x20), sw(0x24, 0x0D)];
    expected.extend(ak_write(0x0A, 0x00));
    expected.extend([sw(0x6B, 0x80), DelayMs { ms: 10 }, sw(0x6A, 0x30), sw(0x24, 0x0D)]);
    expected.extend(ak_write(0x0B, 0x01));
    expected.extend([sw(0x6B, 0x01), sr(0x75)]);
    expected.extend(ak_read(0x00));
    expected.extend(ak_read(0x0A));
    expected.extend(ak_write(0x0A, 0x0F));
    expected.push(DelayMs { ms: 50 });
    expected.extend(ak_read(0x10));
    expected.extend(ak_read(0x11));
    expected.extend(ak_read(0x12));
    expected.extend(ak_write(0x0A, 0x12));
    expected.push(DelayMs { ms: 20 });
    expected.extend([sw(0x1B, 0x00), sw(0x1A, 0x00), sw(0x1C, 0x00), sw(0x1D, 0x00), sw(0x19, 0x00)]);
    expected.extend(ak_write(0x0A, 0x00));
    expected.extend([sw(0x25, 0x8C), sw(0x26, 0x03), sw(0x27, 0x87)]);
    assert_eq!(bench.asked, expected);
    assert_eq!(
        handle.mag_sensitivity(),
        Triplet {
            x: Ratio { num: 256, den: 256 },
            y: Ratio { num: 272, den: 256 },
            z: Ratio { num: 240, den: 256 },
        }
    );
}

#[test]
fn spi_bring_up_times_out_when_the_ak8963_never_answers() {
    let mut bringup = spi::new((), &Config::default());
    let mut transfers = 0u32;
    let error = loop {
        let reply: Result<u16, ()> = Ok(0);
        transfers += 1;
        bringup = match bringup.advance(reply) {
            Step::Pending(next) => next,
            Step::Ready(_) => panic!("bring-up succeeded"),
            Step::Failed(e) => break e,
        };
    };
    // two MPU-9250 writes, four writes to slave 4, then the status reads
    assert_eq!(transfers, 2 + 4 + 10_000);
    match error {
        Error::Timeout { attempts, register, value } => {
            assert_eq!(attempts, 10_000);
            assert_eq!(register, AK8963::CNTL1);
            assert_eq!(value, Some(0x00));
        }
        other => panic!("unexpected error {:?}", other),
    }
}

#[test]
fn released_and_reformed_device_reads_the_same() {
    let mut bench = I2cBench::new();
    bench.fuse = [0x70, 0x95, 0xC3];
    let mut config = Config::default();
    config.accel_scale = ACCEL_FS_SEL::G16;
    config.gyro_scale = GYRO_FS_SEL::DPS1000;
    let mpu = bring_up_i2c(bench, &config).unwrap();
    let motion = [0x12, 0x34, 0xFE, 0xDC, 0x80, 0x00, 0x55, 0x55, 0x7F, 0xFF, 0x00, 0x01, 0xFF, 0xFF];
    let field = [0x01, 0x02, 0xF3, 0xF4, 0x05, 0x86, 0x10];
    let before = mpu.marg(&motion, &field);
    let resolution = mpu.handle().acc_resolution();
    let (bench, handle) = i2c::release(mpu);
    let again = i2c::from_handle(bench, handle);
    assert_eq!(again.handle().acc_resolution(), resolution);
    assert_eq!(again.marg(&motion, &field), before);
}
