use invensense_mpu::regs::ak8963::flags::{
    ASTC, CNTL1, CNTL1_MODE, CNTL1_OUTPUT, CNTL2, I2CDIS, ST1, ST2,
};
use invensense_mpu::regs::mpu9250::flags::{
    ACCEL_CONFIG, ACCEL_CONFIG_2, ACCEL_FS_SEL, CONFIG, DLPF, EXT_SYNC_SET, FCHOICE, FIFO_EN,
    GYRO_CONFIG, INT_ENABLE, PWR_MGMT_2, SIGNAL_PATH_RESET,
    GYRO_FS_SEL, I2C_MST_CLK, I2C_MST_CTRL, I2C_MST_STATUS, I2C_SLVX_CTRL, I2C_SLVX_FLAGS,
    I2C_SLV4_CTRL, INT_PIN_CFG, PWR_MGMT_1, PWR_MGMT_1_CLKSEL, PWR_MGMT_1_FLAGS, USER_CTRL,
};
use invensense_mpu::regs::{ak8963, mpu9250, AK8963, AK8963_I2C_ADDRESS, MPU9250, MPU9250_I2C_ADDRESS};

#[test]
fn device_addresses_and_identities() {
    assert_eq!(MPU9250_I2C_ADDRESS, 0x68);
    assert_eq!(AK8963_I2C_ADDRESS, 0x0C);
    assert_eq!(mpu9250::valid_who_am_i(), &[0x71, 0x73]);
    assert_eq!(ak8963::valid_who_am_i(), &[0x48]);
    for v in 0..=255u8 {
        assert_eq!(mpu9250::is_valid_who_am_i(v), v == 0x71 || v == 0x73);
        assert_eq!(ak8963::is_valid_who_am_i(v), v == 0x48);
    }
}

#[test]
fn register_addresses() {
    assert_eq!(MPU9250::SMPLRT_DIV.addr(), 0x19);
    assert_eq!(MPU9250::CONFIG.addr(), 0x1A);
    assert_eq!(MPU9250::GYRO_CONFIG.addr(), 0x1B);
    assert_eq!(MPU9250::ACCEL_CONFIG.addr(), 0x1C);
    assert_eq!(MPU9250::ACCEL_CONFIG_2.addr(), 0x1D);
    assert_eq!(MPU9250::I2C_MST_CTRL.addr(), 0x24);
    assert_eq!(MPU9250::I2C_SLV0_ADDR.addr(), 0x25);
    assert_eq!(MPU9250::I2C_SLV4_ADDR.addr(), 0x31);
    assert_eq!(MPU9250::I2C_SLV4_DI.addr(), 0x35);
    assert_eq!(MPU9250::I2C_MST_STATUS.addr(), 0x36);
    assert_eq!(MPU9250::INT_PIN_CFG.addr(), 0x37);
    assert_eq!(MPU9250::ACCEL_XOUT_H.addr(), 0x3B);
    assert_eq!(MPU9250::GYRO_ZOUT_L.addr(), 0x48);
    assert_eq!(MPU9250::EXT_SENS_DATA_00.addr(), 0x49);
    assert_eq!(MPU9250::USER_CTRL.addr(), 0x6A);
    assert_eq!(MPU9250::PWR_MGMT_1.addr(), 0x6B);
    assert_eq!(MPU9250::WHO_AM_I.addr(), 0x75);
    assert_eq!(MPU9250::ZA_OFFSET_L.addr(), 0x7E);
    assert_eq!(AK8963::WIA.addr(), 0x00);
    assert_eq!(AK8963::HXL.addr(), 0x03);
    assert_eq!(AK8963::ST2.addr(), 0x09);
    assert_eq!(AK8963::CNTL1.addr(), 0x0A);
    assert_eq!(AK8963::CNTL2.addr(), 0x0B);
    assert_eq!(AK8963::ASAX.addr(), 0x10);
    assert_eq!(AK8963::ASAZ.addr(), 0x12);
}

#[test]
fn flag_sets_keep_to_their_bits() {
    assert_eq!(USER_CTRL::default().bits(), 0);
    assert_eq!(USER_CTRL::from_bits_truncate(0xFF).bits(), 0x77);
    assert!(USER_CTRL::from_bits(0x08).is_none());
    assert_eq!(USER_CTRL::from_bits(0x30).unwrap().bits(), 0x30);
    let both = USER_CTRL::from_bits_truncate(USER_CTRL::I2C_MST_EN)
        .union(USER_CTRL::from_bits_truncate(USER_CTRL::I2C_IF_DIS));
    assert_eq!(both.bits(), 0x30);
    assert!(both.contains(USER_CTRL::I2C_MST_EN));
    assert!(!both.contains(USER_CTRL::FIFO_EN));
    assert!(!both.is_empty());
    assert!(USER_CTRL::empty().is_empty());
    assert_eq!(INT_PIN_CFG::BYPASS_EN, 0x02);
    assert_eq!(INT_PIN_CFG::from_bits_truncate(0xFF).bits(), 0xFE);
    assert_eq!(CNTL2::SRST, 0x01);
    assert_eq!(I2C_SLV4_CTRL::I2C_SLV4_EN, 0x80);
    assert_eq!(I2C_MST_STATUS::I2C_SLV4_DONE, 0x40);
    assert_eq!(I2C_MST_STATUS::I2C_LOST_ARB, 0x20);
    assert_eq!(I2C_MST_STATUS::I2C_SLV4_NACK, 0x10);
    assert_eq!(PWR_MGMT_1_FLAGS::H_RESET, 0x80);
    assert_eq!(ACCEL_CONFIG_2::from_bits_truncate(0xFF).bits(), 0x0F);
    for b in 0..=255u8 {
        let f = I2C_SLVX_FLAGS::from_bits_truncate(b);
        assert_eq!(f.bits(), b & 0xF0);
        assert_eq!(I2C_SLVX_FLAGS::from_bits_truncate(f.bits()), f);
        assert_eq!(I2C_SLVX_FLAGS::from_bits(b).is_some(), b & 0x0F == 0);
    }
}

#[test]
fn cntl1_round_trips_and_rejects_unknown_modes() {
    let modes = [
        (CNTL1_MODE::POWER_DOWN, 0u8),
        (CNTL1_MODE::SINGLE_MEASUREMENT, 1),
        (CNTL1_MODE::CONTINUOUS_1, 2),
        (CNTL1_MODE::CONTINUOUS_2, 6),
        (CNTL1_MODE::EXTERNAL_TRG, 4),
        (CNTL1_MODE::SELF_TEST, 8),
        (CNTL1_MODE::FUSE_ROM_ACCESS, 15),
    ];
    for (mode, code) in modes {
        assert_eq!(mode.code(), code);
        assert_eq!(CNTL1_MODE::from_code(code), Some(mode));
        for output in [0u8, 0x40] {
            let v = CNTL1 { mode, output: CNTL1_OUTPUT::from_bits_truncate(output) };
            assert_eq!(v.encode(), output | code);
            assert_eq!(u8::from(v), output | code);
            assert_eq!(CNTL1::decode(v.encode()), Some(v));
        }
    }
    for b in 0..=255u8 {
        let known = modes.iter().any(|(_, code)| *code == b & 0x0F);
        match CNTL1::decode(b) {
            Some(v) => {
                assert!(known);
                assert_eq!(v.encode(), b & 0x4F);
            }
            None => assert!(!known),
        }
    }
    assert_eq!(CNTL1::decode(0x03), None);
    assert_eq!(CNTL1::power_down().encode(), 0x00);
    assert_eq!(CNTL1::default(), CNTL1::power_down());
    assert_eq!(CNTL1::with_mode(CNTL1_MODE::FUSE_ROM_ACCESS).encode(), 0x0F);
    assert_eq!(CNTL1_MODE::default(), CNTL1_MODE::POWER_DOWN);
}

#[test]
fn i2cdis_accepts_only_its_magic_byte() {
    assert_eq!(I2CDIS.encode(), 0b0001_1011);
    for b in 0..=255u8 {
        assert_eq!(I2CDIS::decode(b).is_some(), b == 0b0001_1011);
    }
}

#[test]
fn config_register_round_trips() {
    for b in 0..=255u8 {
        let v = CONFIG::decode(b);
        assert_eq!(v.encode(), b & 0x7F);
        assert_eq!(CONFIG::decode(v.encode()), v);
        assert_eq!(CONFIG::from(b), v);
        assert_eq!(v.dlpf.code(), b & 7);
        assert_eq!(v.ext_sync.code(), (b >> 3) & 7);
        assert_eq!(v.fifo_mode.bits(), b & 0x40);
    }
    assert_eq!(CONFIG::default().encode(), 0);
    assert_eq!(DLPF::from(0x0C), DLPF::_4);
    assert_eq!(DLPF::default(), DLPF::_0);
    assert_eq!(EXT_SYNC_SET::from(0x0F), EXT_SYNC_SET::ACCEL_ZOUT_L);
    assert_eq!(EXT_SYNC_SET::default(), EXT_SYNC_SET::DISABLED);
}

#[test]
fn gyro_config_round_trips() {
    for b in 0..=255u8 {
        let v = GYRO_CONFIG::decode(b);
        assert_eq!(v.full_scale.code(), (b >> 3) & 3);
        assert_eq!(v.self_test.bits(), b & 0xE0);
        if b & 3 != 3 {
            assert_eq!(v.encode(), b & 0xFB);
            assert_eq!(v.fchoice.code(), b & 3);
        } else {
            assert_eq!(v.fchoice, FCHOICE::_X0);
        }
        assert_eq!(GYRO_CONFIG::decode(v.encode()), v);
    }
    assert_eq!(GYRO_CONFIG::new(GYRO_FS_SEL::DPS500, FCHOICE::DLPF).encode(), 0x08);
    assert_eq!(GYRO_CONFIG::new(GYRO_FS_SEL::DPS2000, FCHOICE::_01).encode(), 0x1A);
    assert_eq!(GYRO_CONFIG::new(GYRO_FS_SEL::DPS250, FCHOICE::_X0).encode(), 0x01);
    assert_eq!(u8::from(GYRO_CONFIG::default()), 0x00);
    assert_eq!(GYRO_FS_SEL::from(2), GYRO_FS_SEL::DPS1000);
    assert_eq!(FCHOICE::from(0), FCHOICE::DLPF);
    assert_eq!(FCHOICE::from(1), FCHOICE::_X0);
    assert_eq!(FCHOICE::from(2), FCHOICE::_01);
    assert_eq!(FCHOICE::from(3), FCHOICE::_X0);
}

#[test]
fn accel_config_round_trips() {
    for b in 0..=255u8 {
        let v = ACCEL_CONFIG::decode(b);
        assert_eq!(v.encode(), b & 0xF8);
        assert_eq!(ACCEL_CONFIG::decode(v.encode()), v);
    }
    assert_eq!(ACCEL_CONFIG::new(ACCEL_FS_SEL::G2).encode(), 0x00);
    assert_eq!(ACCEL_CONFIG::new(ACCEL_FS_SEL::G4).encode(), 0x08);
    assert_eq!(ACCEL_CONFIG::new(ACCEL_FS_SEL::G8).encode(), 0x10);
    assert_eq!(ACCEL_CONFIG::new(ACCEL_FS_SEL::G16).encode(), 0x18);
    assert_eq!(ACCEL_FS_SEL::from(3), ACCEL_FS_SEL::G16);
    assert_eq!(ACCEL_FS_SEL::default(), ACCEL_FS_SEL::G2);
}

#[test]
fn i2c_master_registers_round_trip() {
    assert_eq!(I2C_MST_CTRL::clock(I2C_MST_CLK::KHz400).encode(), 13);
    for b in 0..=255u8 {
        match I2C_MST_CTRL::decode(b) {
            Some(v) => {
                assert_eq!(b & 0x0F, 13);
                assert_eq!(v.encode(), b);
                assert_eq!(I2C_MST_CTRL::decode(v.encode()), Some(v));
            }
            None => assert_ne!(b & 0x0F, 13),
        }
        let v = I2C_SLVX_CTRL::decode(b);
        assert_eq!(v.encode(), b);
        assert_eq!(v.length, b & 0x0F);
        assert_eq!(I2C_SLVX_CTRL::decode(v.encode()), v);
    }
    let armed = I2C_SLVX_CTRL { flags: I2C_SLVX_FLAGS::from_bits_truncate(I2C_SLVX_FLAGS::EN), length: 7 };
    assert_eq!(armed.encode(), 0x87);
}

#[test]
fn pwr_mgmt_1_round_trips() {
    assert_eq!(PWR_MGMT_1::reset().encode(), 0x80);
    assert_eq!(PWR_MGMT_1::clock_select(PWR_MGMT_1_CLKSEL::AutoSelect).encode(), 0x01);
    assert_eq!(PWR_MGMT_1::clock_select(PWR_MGMT_1_CLKSEL::StopTheClock).encode(), 0x07);
    assert_eq!(PWR_MGMT_1::clock_select(PWR_MGMT_1_CLKSEL::Internal20MHzOscillator).encode(), 0x00);
    for b in 0..=255u8 {
        let known = matches!(b & 7, 0 | 1 | 7);
        match PWR_MGMT_1::decode(b) {
            Some(v) => {
                assert!(known);
                assert_eq!(v.encode(), b);
                assert_eq!(PWR_MGMT_1::decode(v.encode()), Some(v));
            }
            None => assert!(!known),
        }
    }
}

#[test]
fn status_and_housekeeping_flags() {
    assert_eq!(ST1::DRDY | ST1::DOR, 0x03);
    assert_eq!(ST1::from_bits_truncate(0xFF).bits(), 0x03);
    assert_eq!(ST2::from_bits_truncate(0xFF).bits(), ST2::HOFL | ST2::BITM);
    assert!(ST2::from_bits_truncate(0x10).contains(ST2::BITM));
    assert_eq!(ASTC::SELF, 0x40);
    assert_eq!(FIFO_EN::from_bits_truncate(0xFF).bits(), 0xFF);
    assert_eq!(INT_ENABLE::from_bits_truncate(0xFF).bits(), 0x59);
    assert_eq!(SIGNAL_PATH_RESET::from_bits_truncate(0xFF).bits(), 0x07);
    assert_eq!(PWR_MGMT_2::from_bits_truncate(0xFF).bits(), 0x3F);
    assert_eq!(PWR_MGMT_2::default(), PWR_MGMT_2::empty());
}
