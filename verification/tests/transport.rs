use invensense_mpu::error::Error;
use invensense_mpu::i2c::Bypass;
use invensense_mpu::regs::{AK8963, MPU9250};
use invensense_mpu::spi::{self, Spi};
use invensense_mpu::transport::Request::{DelayMs, I2cWrite, I2cWriteRead, SpiTransfer};
use invensense_mpu::transport::{Access, Kind, Op, Phase, Progress, Transport, MAX_ATTEMPTS};

fn done<E>(progress: Progress<E>) -> Option<u8> {
    match progress {
        Progress::Done(value) => value,
        _ => panic!("the access is not complete"),
    }
}

fn pending<E: std::fmt::Debug>(progress: Progress<E>) -> Access {
    match progress {
        Progress::Pending(access) => access,
        other => panic!("the access ended: {:?}", other),
    }
}

#[test]
fn spi_frames() {
    assert_eq!(spi::read(MPU9250::WHO_AM_I), 0xF500);
    assert_eq!(spi::read(MPU9250::ACCEL_XOUT_H), 0xBB00);
    assert_eq!(spi::write(MPU9250::PWR_MGMT_1, 0x80), 0x6B80);
    assert_eq!(spi::write(MPU9250::USER_CTRL, 0x30), 0x6A30);
    assert_eq!(spi::low_byte(0xF571), 0x71);
    assert_eq!(spi::low_byte(0x00FF), 0xFF);
}

#[test]
fn bypass_operations_are_single_transactions() {
    let t = Bypass(());
    assert_eq!(t.kind(), Kind::Bypass);
    let a = t.mpu9250_read(MPU9250::WHO_AM_I);
    assert_eq!(a.request(), I2cWriteRead { address: 0x68, register: 0x75 });
    assert_eq!(done(a.advance::<()>(Ok(0x0171))), Some(0x71));
    let a = t.mpu9250_write(MPU9250::PWR_MGMT_1, 0x80);
    assert_eq!(a.request(), I2cWrite { address: 0x68, register: 0x6B, value: 0x80 });
    assert_eq!(done(a.advance::<()>(Ok(0xFFFF))), None);
    let a = t.ak8963_read(AK8963::WIA);
    assert_eq!(a.request(), I2cWriteRead { address: 0x0C, register: 0x00 });
    assert_eq!(done(a.advance::<()>(Ok(0x48))), Some(0x48));
    let a = t.ak8963_write(AK8963::CNTL1, 0x16);
    assert_eq!(a.request(), I2cWrite { address: 0x0C, register: 0x0A, value: 0x16 });
    assert_eq!(done(a.advance::<()>(Ok(0))), None);
    let a = Access::start(Kind::Bypass, Op::Delay(50));
    assert_eq!(a.request(), DelayMs { ms: 50 });
    assert_eq!(done(a.advance::<()>(Ok(0))), None);
}

#[test]
fn spi_mpu_operations_are_single_frames() {
    let t = Spi(());
    assert_eq!(t.kind(), Kind::Spi);
    let a = t.mpu9250_read(MPU9250::WHO_AM_I);
    assert_eq!(a.request(), SpiTransfer { word: 0xF500 });
    assert_eq!(done(a.advance::<()>(Ok(0xAB73))), Some(0x73));
    let a = t.mpu9250_write(MPU9250::I2C_MST_CTRL, 13);
    assert_eq!(a.request(), SpiTransfer { word: 0x240D });
    assert_eq!(done(a.advance::<()>(Ok(0x1234))), None);
}

#[test]
fn spi_ak_read_goes_through_slave_4() {
    let mut a = Spi(()).ak8963_read(AK8963::ASAX);
    assert_eq!(a.phase, Phase::Address);
    assert_eq!(a.request(), SpiTransfer { word: 0x318C });
    a = pending(a.advance::<()>(Ok(0)));
    assert_eq!(a.request(), SpiTransfer { word: 0x3210 });
    a = pending(a.advance::<()>(Ok(0)));
    assert_eq!(a.request(), SpiTransfer { word: 0x3480 });
    a = pending(a.advance::<()>(Ok(0)));
    for quiet in [0x00u16, 0x80, 0x0F, 0xFF8F] {
        assert_eq!(a.request(), SpiTransfer { word: 0xB600 });
        a = pending(a.advance::<()>(Ok(quiet)));
    }
    assert_eq!(a.attempts, 4);
    assert_eq!(a.request(), SpiTransfer { word: 0xB600 });
    a = pending(a.advance::<()>(Ok(0x0040)));
    assert_eq!(a.request(), SpiTransfer { word: 0xB500 });
    assert_eq!(done(a.advance::<()>(Ok(0x00B0))), Some(0xB0));
}

#[test]
fn spi_ak_write_goes_through_slave_4() {
    let mut a = Spi(()).ak8963_write(AK8963::CNTL1, 0x16);
    let expected = [0x310Cu16, 0x320A, 0x3316, 0x3480];
    for word in expected {
        assert_eq!(a.request(), SpiTransfer { word });
        a = pending(a.advance::<()>(Ok(0)));
    }
    assert_eq!(a.request(), SpiTransfer { word: 0xB600 });
    a = pending(a.advance::<()>(Ok(0)));
    assert_eq!(a.request(), SpiTransfer { word: 0xB600 });
    assert_eq!(done(a.advance::<()>(Ok(0x40))), None);
}

#[test]
fn spi_ak_status_is_decided_in_order() {
    let polling = Access {
        kind: Kind::Spi,
        op: Op::AkRead(AK8963::WIA),
        phase: Phase::Poll,
        attempts: 0,
    };
    assert!(matches!(polling.advance::<()>(Ok(0x10)), Progress::Failed(Error::Nack)));
    assert!(matches!(polling.advance::<()>(Ok(0x20)), Progress::Failed(Error::LostArbitration)));
    assert!(matches!(polling.advance::<()>(Ok(0x30)), Progress::Failed(Error::Nack)));
    assert_eq!(pending(polling.advance::<()>(Ok(0x70))).phase, Phase::DataIn);
    assert_eq!(pending(polling.advance::<()>(Ok(0x50))).phase, Phase::DataIn);
    assert!(matches!(polling.advance(Err(5u8)), Progress::Failed(Error::Peripheral(5))));
}

#[test]
fn spi_ak_read_times_out_after_exactly_ten_thousand_polls() {
    assert_eq!(MAX_ATTEMPTS, 10_000);
    let mut a = Spi(()).ak8963_read(AK8963::CNTL1);
    for _ in 0..3 {
        a = pending(a.advance::<()>(Ok(0)));
    }
    for polls in 0..9_999u16 {
        assert_eq!(a.attempts, polls);
        assert_eq!(a.request(), SpiTransfer { word: 0xB600 });
        a = pending(a.advance::<()>(Ok(0x00)));
    }
    assert_eq!(a.attempts, 9_999);
    match a.advance::<()>(Ok(0x00)) {
        Progress::Failed(Error::Timeout { attempts, register, value }) => {
            assert_eq!(attempts, 10_000);
            assert_eq!(register, AK8963::CNTL1);
            assert_eq!(value, None);
        }
        other => panic!("unexpected outcome {:?}", other),
    }
}

#[test]
fn spi_ak_write_timeout_names_the_value() {
    let mut a = Spi(()).ak8963_write(AK8963::CNTL2, 0x01);
    let mut transfers = 0;
    let error = loop {
        transfers += 1;
        match a.advance::<()>(Ok(0x0F)) {
            Progress::Pending(next) => a = next,
            Progress::Failed(e) => break e,
            Progress::Done(_) => panic!("the write completed"),
        }
    };
    assert_eq!(transfers, 4 + 10_000);
    assert!(matches!(
        error,
        Error::Timeout { attempts: 10_000, register: AK8963::CNTL2, value: Some(0x01) }
    ));
}

#[test]
fn done_at_the_last_poll_is_no_timeout() {
    let last = Access {
        kind: Kind::Spi,
        op: Op::AkWrite(AK8963::CNTL1, 0),
        phase: Phase::Poll,
        attempts: 9_999,
    };
    assert_eq!(done(last.advance::<()>(Ok(0x40))), None);
    assert!(matches!(last.advance::<()>(Ok(0x00)), Progress::Failed(Error::Timeout { .. })));
}
