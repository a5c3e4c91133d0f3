//! Register catalog of the MPU-9250 and of the AK8963 inside it.

pub mod ak8963;
pub mod mpu9250;

pub use ak8963::Regs as AK8963;
pub use ak8963::I2C_ADDRESS as AK8963_I2C_ADDRESS;
pub use mpu9250::Regs as MPU9250;
pub use mpu9250::I2C_ADDRESS as MPU9250_I2C_ADDRESS;
